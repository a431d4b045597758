//! AMD AMF through the runtime's own interfaces: what each codec's component
//! is configured with, how a session is opened and torn down, and what
//! becomes of the runtime's answers.

pub mod api;
pub mod encoder;
pub mod error;
pub mod properties;
pub mod session;
