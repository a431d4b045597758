//! NVIDIA NVENC: what a session is configured with, how its surfaces are
//! used, and what becomes of the driver's answers.
//!
//! The host makes the driver calls. What a session is opened with is decided
//! in [`plan`], in which order it is opened and closed in [`session`], and
//! coding with it in [`encoder`].

pub mod api;
pub mod encoder;
pub mod plan;
pub mod session;
