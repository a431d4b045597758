//! Numbers and identifiers of the NVENC API, version 13.

use vstd::prelude::*;

use crate::frame::VideoCodec;
use crate::guid::{Guid, GuidView};

verus! {

pub const NV_ENC_SUCCESS: u32 = 0;
pub const NV_ENC_ERR_INVALID_PTR: u32 = 6;
pub const NV_ENC_ERR_INVALID_PARAM: u32 = 8;
pub const NV_ENC_ERR_ENCODER_NOT_INITIALIZED: u32 = 11;
pub const NV_ENC_ERR_LOCK_BUSY: u32 = 13;
pub const NV_ENC_ERR_NEED_MORE_INPUT: u32 = 17;
pub const NV_ENC_ERR_ENCODER_BUSY: u32 = 18;

pub const NV_ENC_DEVICE_TYPE_CUDA: u32 = 1;
pub const NV_ENC_BUFFER_FORMAT_IYUV: u32 = 0x00000100;
/// Planar 4:2:0 in words, each sample in the upper ten bits.
pub const NV_ENC_BUFFER_FORMAT_YUV420_10BIT: u32 = 0x00010000;

pub const NV_ENC_PIC_FLAG_FORCEIDR: u32 = 0x02;
pub const NV_ENC_PIC_FLAG_EOS: u32 = 0x08;
pub const NV_ENC_PIC_STRUCT_FRAME: u32 = 1;

pub const NV_ENC_PIC_TYPE_P: u32 = 0;
pub const NV_ENC_PIC_TYPE_I: u32 = 2;
pub const NV_ENC_PIC_TYPE_IDR: u32 = 3;

pub const NV_ENC_PARAMS_RC_CONSTQP: u32 = 0x0;
pub const NV_ENC_PARAMS_RC_VBR: u32 = 0x1;

/// `enableLookahead` of the rate-control flags.
pub const RC_FLAG_ENABLE_LOOKAHEAD: u32 = 0x20;
/// `zeroReorderDelay` of the rate-control flags.
pub const RC_FLAG_ZERO_REORDER_DELAY: u32 = 0x200;

/// `repeatSeqHdr` of the AV1 flags: every keyframe carries the sequence header.
pub const AV1_BIT_REPEAT_SEQ_HDR: u32 = 0x20;
/// `chromaFormatIDC` 4:2:0 in the AV1 flags.
pub const AV1_CHROMA_FORMAT_IDC_420: u32 = 0x80;
pub const NV_ENC_BIT_DEPTH_8: u32 = 8;
pub const NV_ENC_BIT_DEPTH_10: u32 = 10;

/// `resetEncoder` of a reconfiguration: rate control and lookahead start over.
pub const RECONFIGURE_BIT_RESET_ENCODER: u32 = 0x1;
/// `forceIDR` of a reconfiguration: the next picture opens a new stream.
pub const RECONFIGURE_BIT_FORCE_IDR: u32 = 0x2;

pub const NV_ENC_CAPS_WIDTH_MAX: u32 = 16;
pub const NV_ENC_CAPS_HEIGHT_MAX: u32 = 17;
pub const NV_ENC_CAPS_SUPPORT_10BIT_ENCODE: u32 = 39;

/// Input surfaces, and matching bitstream buffers, that a session owns. Deeper
/// than any lookahead a session asks for, so a free surface can be found while
/// the encoder holds pictures back.
pub const RING_SIZE: usize = 16;

/// Surfaces of the ring that lookahead may never claim.
pub const RING_SLACK: usize = 4;

/// Size of each bitstream buffer; a packet that claims more is not believed.
pub const MAX_BITSTREAM_BYTES: u64 = 16_777_216;

pub const NVENCAPI_MAJOR: u32 = 13;
pub const NVENCAPI_MINOR: u32 = 0;
pub const NVENCAPI_VERSION: u32 = 13;

/// The version word of a structure: the API version, the structure's own
/// version from bit 16 up, and the marker `7` in the top bits.
pub open spec fn struct_version_spec(ver: u32) -> u32 {
    NVENCAPI_VERSION | (ver << 16) | (0x7u32 << 28)
}

/// The version word of a structure.
pub fn struct_version(ver: u32) -> (v: u32)
    ensures
        v == struct_version_spec(ver),
{
    NVENCAPI_VERSION | (ver << 16) | (0x7u32 << 28)
}

pub const NV_ENC_OPEN_ENCODE_SESSION_EX_PARAMS_VER: u32 = 0x7001_000d;
pub const NV_ENC_INITIALIZE_PARAMS_VER: u32 = 0xf007_000d;
pub const NV_ENC_CREATE_INPUT_BUFFER_VER: u32 = 0x7002_000d;
pub const NV_ENC_CREATE_BITSTREAM_BUFFER_VER: u32 = 0x7001_000d;
pub const NV_ENC_LOCK_INPUT_BUFFER_VER: u32 = 0x7001_000d;
pub const NV_ENC_LOCK_BITSTREAM_VER: u32 = 0xf002_000d;
pub const NV_ENC_PIC_PARAMS_VER: u32 = 0xf007_000d;
pub const NV_ENC_CONFIG_VER: u32 = 0xf009_000d;
pub const NV_ENC_PRESET_CONFIG_VER: u32 = 0xf005_000d;
pub const NV_ENC_RECONFIGURE_PARAMS_VER: u32 = 0xf001_000d;
pub const NV_ENCODE_API_FUNCTION_LIST_VER: u32 = 0x7002_000d;
pub const NV_ENC_RC_PARAMS_VER: u32 = 0x7001_000d;

/// Every version constant is the version word of its structure's own version,
/// with the high bit where the structure carries it.
pub proof fn version_constants_follow_the_formula()
    ensures
        NVENCAPI_VERSION == NVENCAPI_MAJOR | (NVENCAPI_MINOR << 24),
        NV_ENC_OPEN_ENCODE_SESSION_EX_PARAMS_VER == struct_version_spec(1),
        NV_ENC_INITIALIZE_PARAMS_VER == struct_version_spec(7) | (1u32 << 31),
        NV_ENC_CREATE_INPUT_BUFFER_VER == struct_version_spec(2),
        NV_ENC_CREATE_BITSTREAM_BUFFER_VER == struct_version_spec(1),
        NV_ENC_LOCK_INPUT_BUFFER_VER == struct_version_spec(1),
        NV_ENC_LOCK_BITSTREAM_VER == struct_version_spec(2) | (1u32 << 31),
        NV_ENC_PIC_PARAMS_VER == struct_version_spec(7) | (1u32 << 31),
        NV_ENC_CONFIG_VER == struct_version_spec(9) | (1u32 << 31),
        NV_ENC_PRESET_CONFIG_VER == struct_version_spec(5) | (1u32 << 31),
        NV_ENC_RECONFIGURE_PARAMS_VER == struct_version_spec(1) | (1u32 << 31),
        NV_ENCODE_API_FUNCTION_LIST_VER == struct_version_spec(2),
        NV_ENC_RC_PARAMS_VER == struct_version_spec(1),
{
    assert(13u32 == 13u32 | (0u32 << 24) && 0x7001_000du32 == 13u32 | (1u32 << 16) | (0x7u32 << 28)
        && 0xf007_000du32 == 13u32 | (7u32 << 16) | (0x7u32 << 28) | (1u32 << 31) && 0x7002_000du32
        == 13u32 | (2u32 << 16) | (0x7u32 << 28) && 0xf002_000du32 == 13u32 | (2u32 << 16) | (
    0x7u32 << 28) | (1u32 << 31) && 0xf009_000du32 == 13u32 | (9u32 << 16) | (0x7u32 << 28) | (1u32
        << 31) && 0xf005_000du32 == 13u32 | (5u32 << 16) | (0x7u32 << 28) | (1u32 << 31)
        && 0xf001_000du32 == 13u32 | (1u32 << 16) | (0x7u32 << 28) | (1u32 << 31)) by (bit_vector);
}

/// The identifier of a codec.
pub open spec fn codec_guid(codec: VideoCodec) -> GuidView {
    match codec {
        VideoCodec::Av1 => GuidView {
            data1: 0x0a352289,
            data2: 0x0aa7,
            data3: 0x4759,
            data4: seq![0x86u8, 0x2d, 0x5d, 0x15, 0xcd, 0x16, 0xd2, 0x54],
        },
        VideoCodec::H264 => GuidView {
            data1: 0x6bc82762,
            data2: 0x4e63,
            data3: 0x4ca4,
            data4: seq![0xaau8, 0x85, 0x1e, 0x50, 0xf3, 0x21, 0xf6, 0xbf],
        },
        VideoCodec::H265 => GuidView {
            data1: 0x790cdc88,
            data2: 0x4522,
            data3: 0x4d7b,
            data4: seq![0x94u8, 0x25, 0xbd, 0xa9, 0x97, 0x5f, 0x76, 0x03],
        },
    }
}

/// The identifier of a codec.
pub fn nvenc_codec_guid(codec: VideoCodec) -> (g: Guid)
    ensures
        g@ == codec_guid(codec),
{
    let g: Guid = match codec {
        VideoCodec::Av1 => Guid {
            data1: 0x0a352289,
            data2: 0x0aa7,
            data3: 0x4759,
            data4: [0x86, 0x2d, 0x5d, 0x15, 0xcd, 0x16, 0xd2, 0x54],
        },
        VideoCodec::H264 => Guid {
            data1: 0x6bc82762,
            data2: 0x4e63,
            data3: 0x4ca4,
            data4: [0xaa, 0x85, 0x1e, 0x50, 0xf3, 0x21, 0xf6, 0xbf],
        },
        VideoCodec::H265 => Guid {
            data1: 0x790cdc88,
            data2: 0x4522,
            data3: 0x4d7b,
            data4: [0x94, 0x25, 0xbd, 0xa9, 0x97, 0x5f, 0x76, 0x03],
        },
    };
    assert(g@.data4 =~= codec_guid(codec).data4);
    g
}

/// The identifier of the profile a stream is pinned to: High for H.264, Main
/// or Main 10 for H.265, and for AV1 the null identifier, with which the
/// driver picks.
pub open spec fn profile_guid(codec: VideoCodec, ten_bit: bool) -> GuidView {
    match codec {
        VideoCodec::H264 => GuidView {
            data1: 0xe7cbc309,
            data2: 0x4f7a,
            data3: 0x4b89,
            data4: seq![0xafu8, 0x2a, 0xd5, 0x37, 0xc9, 0x2b, 0xe3, 0x10],
        },
        VideoCodec::H265 => if ten_bit {
            GuidView {
                data1: 0xfa4d2b6c,
                data2: 0x3a5b,
                data3: 0x411a,
                data4: seq![0x80u8, 0x18, 0x0a, 0x3f, 0x5e, 0x3c, 0x9b, 0xe5],
            }
        } else {
            GuidView {
                data1: 0xb514c39a,
                data2: 0xb55b,
                data3: 0x40fa,
                data4: seq![0x87u8, 0x8f, 0xf1, 0x25, 0x3b, 0x4d, 0xfd, 0xec],
            }
        },
        VideoCodec::Av1 => GuidView {
            data1: 0,
            data2: 0,
            data3: 0,
            data4: seq![0u8, 0, 0, 0, 0, 0, 0, 0],
        },
    }
}

/// The identifier of the profile a stream is pinned to.
pub fn nvenc_profile_guid(codec: VideoCodec, ten_bit: bool) -> (g: Guid)
    ensures
        g@ == profile_guid(codec, ten_bit),
{
    let g: Guid = match codec {
        VideoCodec::H264 => Guid {
            data1: 0xe7cbc309,
            data2: 0x4f7a,
            data3: 0x4b89,
            data4: [0xaf, 0x2a, 0xd5, 0x37, 0xc9, 0x2b, 0xe3, 0x10],
        },
        VideoCodec::H265 => if ten_bit {
            Guid {
                data1: 0xfa4d2b6c,
                data2: 0x3a5b,
                data3: 0x411a,
                data4: [0x80, 0x18, 0x0a, 0x3f, 0x5e, 0x3c, 0x9b, 0xe5],
            }
        } else {
            Guid {
                data1: 0xb514c39a,
                data2: 0xb55b,
                data3: 0x40fa,
                data4: [0x87, 0x8f, 0xf1, 0x25, 0x3b, 0x4d, 0xfd, 0xec],
            }
        },
        VideoCodec::Av1 => Guid { data1: 0, data2: 0, data3: 0, data4: [0, 0, 0, 0, 0, 0, 0, 0] },
    };
    assert(g@.data4 =~= profile_guid(codec, ten_bit).data4);
    g
}

/// Identifier of preset P5.
pub fn preset_p5_guid() -> (g: Guid)
    ensures
        g@ == (GuidView {
            data1: 0x21c6e6b4,
            data2: 0x297a,
            data3: 0x4cba,
            data4: seq![0x99u8, 0x8f, 0xb6, 0xcb, 0xde, 0x72, 0xad, 0xe3],
        }),
{
    let g: Guid = Guid {
        data1: 0x21c6e6b4,
        data2: 0x297a,
        data3: 0x4cba,
        data4: [0x99, 0x8f, 0xb6, 0xcb, 0xde, 0x72, 0xad, 0xe3],
    };
    assert(g@.data4 =~= seq![0x99u8, 0x8f, 0xb6, 0xcb, 0xde, 0x72, 0xad, 0xe3]);
    g
}

/// Identifier of preset P6.
pub fn preset_p6_guid() -> (g: Guid)
    ensures
        g@ == (GuidView {
            data1: 0x8e75c279,
            data2: 0x6299,
            data3: 0x4ab6,
            data4: seq![0x83u8, 0x02, 0x0b, 0x21, 0x5a, 0x33, 0x5c, 0xf5],
        }),
{
    let g: Guid = Guid {
        data1: 0x8e75c279,
        data2: 0x6299,
        data3: 0x4ab6,
        data4: [0x83, 0x02, 0x0b, 0x21, 0x5a, 0x33, 0x5c, 0xf5],
    };
    assert(g@.data4 =~= seq![0x83u8, 0x02, 0x0b, 0x21, 0x5a, 0x33, 0x5c, 0xf5]);
    g
}

/// Identifier of preset P7.
pub fn preset_p7_guid() -> (g: Guid)
    ensures
        g@ == (GuidView {
            data1: 0x84848c12,
            data2: 0x6f71,
            data3: 0x4c13,
            data4: seq![0x93u8, 0x1b, 0x53, 0xe2, 0x83, 0xf5, 0x79, 0x74],
        }),
{
    let g: Guid = Guid {
        data1: 0x84848c12,
        data2: 0x6f71,
        data3: 0x4c13,
        data4: [0x93, 0x1b, 0x53, 0xe2, 0x83, 0xf5, 0x79, 0x74],
    };
    assert(g@.data4 =~= seq![0x93u8, 0x1b, 0x53, 0xe2, 0x83, 0xf5, 0x79, 0x74]);
    g
}

/// No two codecs share an identifier, and no two of the profiles in use do; only
/// AV1 leaves the profile to the driver.
pub proof fn identifiers_are_told_apart(a: VideoCodec, b: VideoCodec)
    ensures
        codec_guid(a) == codec_guid(b) ==> a == b,
        profile_guid(VideoCodec::H265, true) != profile_guid(VideoCodec::H265, false),
        profile_guid(VideoCodec::H264, false) != profile_guid(VideoCodec::H265, false),
        profile_guid(a, false).data1 == 0 <==> a == VideoCodec::Av1,
        profile_guid(VideoCodec::H264, true) == profile_guid(VideoCodec::H264, false),
{
}

} // verus!
