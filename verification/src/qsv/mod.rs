//! Intel QSV through oneVPL: what a session is configured with, how its
//! surface pool is used, and what becomes of the runtime's answers.

pub mod api;
pub mod encoder;
pub mod params;
