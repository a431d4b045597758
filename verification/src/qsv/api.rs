//! Numbers of the oneVPL API.

use vstd::prelude::*;

verus! {

pub const MFX_ERR_NONE: i32 = 0;
/// The output buffer has no room for the frame: collect what is in flight,
/// and if that is not enough, enlarge it.
pub const MFX_ERR_NOT_ENOUGH_BUFFER: i32 = -5;
pub const MFX_ERR_MORE_DATA: i32 = -10;
/// A decoder's status; an encoder never answers it.
pub const MFX_ERR_MORE_SURFACE: i32 = -11;
pub const MFX_WRN_IN_EXECUTION: i32 = 1;
/// The hardware cannot take the submission yet: wait and repeat the call.
pub const MFX_WRN_DEVICE_BUSY: i32 = 2;
pub const MFX_WRN_VIDEO_PARAM_CHANGED: i32 = 3;
pub const MFX_WRN_PARTIAL_ACCELERATION: i32 = 4;
pub const MFX_WRN_INCOMPATIBLE_VIDEO_PARAM: i32 = 5;

pub const MFX_CODEC_AV1: u32 = 0x20315641;
pub const MFX_CODEC_AVC: u32 = 0x20435641;
pub const MFX_CODEC_HEVC: u32 = 0x43564548;
pub const MFX_FOURCC_NV12: u32 = 0x3231564e;
/// Words with the sample in the upper ten bits, laid out as NV12.
pub const MFX_FOURCC_P010: u32 = 0x30313050;
pub const MFX_CHROMAFORMAT_YUV420: u16 = 1;
pub const MFX_IOPATTERN_IN_SYSTEM_MEMORY: u16 = 0x02;
pub const MFX_PICSTRUCT_PROGRESSIVE: u16 = 1;
pub const MFX_FRAMETYPE_I: u16 = 0x0001;
pub const MFX_FRAMETYPE_REF: u16 = 0x0040;
pub const MFX_FRAMETYPE_IDR: u16 = 0x8000;
pub const MFX_RATECONTROL_CQP: u16 = 3;
pub const MFX_RATECONTROL_ICQ: u16 = 9;
pub const MFX_PROFILE_AV1_MAIN: u16 = 1;
pub const MFX_PROFILE_AVC_HIGH: u16 = 100;
pub const MFX_PROFILE_HEVC_MAIN: u16 = 1;
pub const MFX_PROFILE_HEVC_MAIN10: u16 = 2;

pub const MFX_EXTBUFF_AV1_TILE_PARAM: u32 = 0x4c543141;
pub const MFX_EXTBUFF_AV1_BITSTREAM_PARAM: u32 = 0x42315641;
pub const MFX_EXTBUFF_CODING_OPTION3: u32 = 0x334f4443;
pub const MFX_EXTBUFF_VIDEO_SIGNAL_INFO: u32 = 0x4e495356;
/// A chroma format is written plus one, so that zero can mean unset.
pub const MFX_TARGET_CHROMAFORMAT_YUV420_PLUS1: u16 = 2;
/// `video_format` 5: unspecified.
pub const VIDEO_FORMAT_UNSPECIFIED: u16 = 5;

pub const MFX_IMPL_HARDWARE_ANY: u32 = 0x0100;
pub const MFX_VARIANT_TYPE_U32: u32 = 5;
pub const MFX_IMPL_TYPE_HARDWARE: u32 = 2;

/// Submissions the runtime may have in flight.
pub const ASYNC_DEPTH: usize = 4;
/// Input surfaces a session owns: what is in flight, what the runtime keeps to
/// predict from, and one to write into.
pub const POOL_SIZE: usize = 6;
/// The output buffer is never grown past this.
pub const MAX_BITSTREAM_BYTES: usize = 67_108_864;
/// The output buffer never starts smaller than this.
pub const MIN_BITSTREAM_BYTES: usize = 2_097_152;

/// Four characters as a code, the first in the low byte.
pub open spec fn fourcc(a: u8, b: u8, c: u8, d: u8) -> int {
    a + 0x100 * b + 0x1_0000 * c + 0x100_0000 * d
}

/// Every code is the one its four characters spell.
pub proof fn codes_spell_their_names()
    ensures
        MFX_CODEC_AV1 == fourcc(0x41, 0x56, 0x31, 0x20),
        MFX_CODEC_AVC == fourcc(0x41, 0x56, 0x43, 0x20),
        MFX_CODEC_HEVC == fourcc(0x48, 0x45, 0x56, 0x43),
        MFX_FOURCC_NV12 == fourcc(0x4e, 0x56, 0x31, 0x32),
        MFX_FOURCC_P010 == fourcc(0x50, 0x30, 0x31, 0x30),
        MFX_EXTBUFF_AV1_TILE_PARAM == fourcc(0x41, 0x31, 0x54, 0x4c),
        MFX_EXTBUFF_AV1_BITSTREAM_PARAM == fourcc(0x41, 0x56, 0x31, 0x42),
        MFX_EXTBUFF_CODING_OPTION3 == fourcc(0x43, 0x44, 0x4f, 0x33),
        MFX_EXTBUFF_VIDEO_SIGNAL_INFO == fourcc(0x56, 0x53, 0x49, 0x4e),
{
}

/// Per-frame control of one submission.
#[derive(Debug, Clone, Copy, PartialEq, Eq, Structural)]
pub struct EncodeCtrl {
    pub mfx_nal_unit_type: u16,
    pub skip_frame: u16,
    /// Zero leaves the quantiser to the configured rate control.
    pub qp: u16,
    pub frame_type: u16,
    pub num_ext_param: u16,
    pub num_payload: u16,
}

impl EncodeCtrl {
    /// A control that makes a frame an IDR that later frames may predict from.
    pub fn force_idr() -> (c: Self)
        ensures
            c.frame_type == MFX_FRAMETYPE_I | MFX_FRAMETYPE_IDR | MFX_FRAMETYPE_REF,
            c.mfx_nal_unit_type == 0,
            c.skip_frame == 0,
            c.qp == 0,
            c.num_ext_param == 0,
            c.num_payload == 0,
    {
        EncodeCtrl {
            mfx_nal_unit_type: 0,
            skip_frame: 0,
            qp: 0,
            frame_type: MFX_FRAMETYPE_I | MFX_FRAMETYPE_IDR | MFX_FRAMETYPE_REF,
            num_ext_param: 0,
            num_payload: 0,
        }
    }
}

} // verus!
