//! Video encoding over hardware and software back ends.
//!
//! The crate decides; a host acts. It chooses the encoder for a job
//! ([`dispatch`]), plans what a session is opened with, lays pictures out on
//! the surfaces an encoder reads, and keeps the books while the encoder codes:
//! which surface is free, which packet is due, where a keyframe goes, what a
//! status means. Calls into a vendor's runtime are made by the host, which
//! reports the answers back.
//!
//! - [`nvenc`], [`amf`] and [`qsv`] drive the three vendors' interfaces
//!   directly, [`wrapped`] drives them through session wrappers, and
//!   [`ffmpeg`] drives libavcodec.
//! - [`h26x`] and [`rav1e_sw`] code in software.
//! - [`config`], [`frame`], [`packet`], [`tuning`], [`rate`] and [`gpu`] are
//!   what they share; [`planes`] and [`upload`] write pictures into surfaces.
pub mod amf;
pub mod config;
pub mod dispatch;
pub mod ffmpeg;
pub mod frame;
pub mod gpu;
pub mod guid;
pub mod h26x;
pub mod nvenc;
pub mod packet;
pub mod planes;
pub mod qsv;
pub mod rate;
pub mod rav1e_sw;
pub mod text;
pub mod tuning;
pub mod upload;
pub mod wrapped;
