//! AV1 through libavcodec: which encoder is tried, what it is configured
//! with, and how pictures and packets pass through a session.

pub mod options;
pub mod session;
