//! Encoders behind ready-made session wrappers, one per vendor.
//!
//! A wrapper crate owns the driver session and its threads. What is decided
//! here is what a session is configured with, which pictures it is given and
//! in what layout, and what becomes of the packets it hands back.

pub mod amf;
pub mod nvcodec;
pub mod session;
pub mod vpl;
