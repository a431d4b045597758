//! Opening an NVENC session: which drivers and devices are acceptable, and
//! what the session is initialised with.

use vstd::prelude::*;

use super::api::{
    self, nvenc_codec_guid, nvenc_profile_guid, AV1_BIT_REPEAT_SEQ_HDR, AV1_CHROMA_FORMAT_IDC_420,
    NV_ENC_BIT_DEPTH_10, NV_ENC_BIT_DEPTH_8, NV_ENC_BUFFER_FORMAT_IYUV,
    NV_ENC_BUFFER_FORMAT_YUV420_10BIT, NV_ENC_CONFIG_VER, NV_ENC_INITIALIZE_PARAMS_VER,
    NV_ENC_PARAMS_RC_CONSTQP, NV_ENC_PARAMS_RC_VBR, NV_ENC_RC_PARAMS_VER,
    NV_ENC_RECONFIGURE_PARAMS_VER, RC_FLAG_ENABLE_LOOKAHEAD, RC_FLAG_ZERO_REORDER_DELAY,
    RECONFIGURE_BIT_FORCE_IDR, RECONFIGURE_BIT_RESET_ENCODER, RING_SIZE, RING_SLACK,
};
use crate::config::{EncoderConfig, AUTO_FROM_TARGET};
use crate::frame::{transfer_to_h273, PixelFormat, TransferFn, VideoCodec};
use crate::guid::{self, guid_from_bytes, guid_listed, Guid};
use crate::rate::{self, fps_to_rational};
use crate::text::{self, push_dec, push_dec_int};
use crate::tuning::{NvencParams, NvencRateControl, QualityTarget};

verus! {

/// Why a session cannot be opened.
#[derive(Debug, Clone, Copy, PartialEq, Eq, Structural)]
pub enum PlanError {
    /// The driver's API is older than the oldest that can code AV1.
    DriverTooOld { major: u32, minor: u32 },
    /// The driver would not say how many codecs it has.
    GuidCountFailed { gpu_index: u32 },
    /// The driver would not list its codecs.
    GuidsFailed { gpu_index: u32 },
    /// The codec is not among the ones listed.
    CodecUnsupported { gpu_index: u32, codec: VideoCodec, advertised: u32 },
    /// The picture is larger than the device codes.
    TooLarge {
        gpu_index: u32,
        codec: VideoCodec,
        max_width: i32,
        max_height: i32,
        width: u32,
        height: u32,
    },
    /// The device does not code ten bits.
    NoTenBit { gpu_index: u32, codec: VideoCodec },
    /// The input format has no surface format.
    UnsupportedFormat { format: PixelFormat },
}

impl PlanError {
    /// The error in words.
    pub open spec fn text(self) -> Seq<char> {
        match self {
            PlanError::DriverTooOld { major, minor } =>
                "NVENC driver API < 12 does not support AV1 (got "@ + text::dec(major as nat) + "."@
                + text::dec(minor as nat) + ")"@,
            PlanError::GuidCountFailed { gpu_index } => "NvEncGetEncodeGUIDCount failed on GPU "@
                + text::dec(gpu_index as nat),
            PlanError::GuidsFailed { gpu_index } => "NvEncGetEncodeGUIDs failed on GPU "@
                + text::dec(gpu_index as nat),
            PlanError::CodecUnsupported { gpu_index, codec, advertised } => "NVENC on GPU "@
                + text::dec(gpu_index as nat) + " does not support "@ + codec.label()
                + " encode ("@ + text::dec(advertised as nat)
                + " codec(s) advertised, none matched) — AV1 needs NVIDIA Ada+ / an Ampere datacenter SKU; H.264 needs Kepler+; H.265 needs Maxwell+"@,
            PlanError::TooLarge { gpu_index, codec, max_width, max_height, width, height } =>
                "NVENC "@ + codec.label() + " on GPU "@ + text::dec(gpu_index as nat)
                + " maxes at "@ + text::dec_int(max_width as int) + "x"@ + text::dec_int(
                max_height as int,
            ) + ", requested "@ + text::dec(width as nat) + "x"@ + text::dec(height as nat),
            PlanError::NoTenBit { gpu_index, codec } => "NVENC on GPU "@ + text::dec(
                gpu_index as nat,
            ) + " does not support 10-bit "@ + codec.label() + " encode"@,
            PlanError::UnsupportedFormat { format } =>
                "NVENC takes 4:2:0 at 8 or 10 bits, not "@ + format.label(),
        }
    }

    /// The error in words.
    pub fn message(&self) -> (s: String)
        ensures
            s@ == self.text(),
    {
        let mut out: String = String::new();
        match self {
            PlanError::DriverTooOld { major, minor } => {
                out.append("NVENC driver API < 12 does not support AV1 (got ");
                push_dec(&mut out, *major as u128);
                out.append(".");
                push_dec(&mut out, *minor as u128);
                out.append(")");
            },
            PlanError::GuidCountFailed { gpu_index } => {
                out.append("NvEncGetEncodeGUIDCount failed on GPU ");
                push_dec(&mut out, *gpu_index as u128);
            },
            PlanError::GuidsFailed { gpu_index } => {
                out.append("NvEncGetEncodeGUIDs failed on GPU ");
                push_dec(&mut out, *gpu_index as u128);
            },
            PlanError::CodecUnsupported { gpu_index, codec, advertised } => {
                out.append("NVENC on GPU ");
                push_dec(&mut out, *gpu_index as u128);
                out.append(" does not support ");
                out.append(codec.name());
                out.append(" encode (");
                push_dec(&mut out, *advertised as u128);
                out.append(
                    " codec(s) advertised, none matched) — AV1 needs NVIDIA Ada+ / an Ampere datacenter SKU; H.264 needs Kepler+; H.265 needs Maxwell+",
                );
            },
            PlanError::TooLarge { gpu_index, codec, max_width, max_height, width, height } => {
                out.append("NVENC ");
                out.append(codec.name());
                out.append(" on GPU ");
                push_dec(&mut out, *gpu_index as u128);
                out.append(" maxes at ");
                push_dec_int(&mut out, *max_width as i64);
                out.append("x");
                push_dec_int(&mut out, *max_height as i64);
                out.append(", requested ");
                push_dec(&mut out, *width as u128);
                out.append("x");
                push_dec(&mut out, *height as u128);
            },
            PlanError::NoTenBit { gpu_index, codec } => {
                out.append("NVENC on GPU ");
                push_dec(&mut out, *gpu_index as u128);
                out.append(" does not support 10-bit ");
                out.append(codec.name());
                out.append(" encode");
            },
            PlanError::UnsupportedFormat { format } => {
                out.append("NVENC takes 4:2:0 at 8 or 10 bits, not ");
                out.append(format.name());
            },
        }
        assert(out@ =~= self.text());
        out
    }
}

/// Split a driver's version word into major and minor.
pub open spec fn driver_version(word: u32) -> (int, int) {
    (word as int / 16, word as int % 16)
}

/// Whether a driver can be used: its API is at least version 12.
pub open spec fn is_new_enough(word: u32) -> bool {
    driver_version(word).0 >= 12
}

/// Accept a driver whose API is at least version 12.
pub fn check_driver_version(word: u32) -> (r: Result<(u32, u32), PlanError>)
    ensures
        r is Ok <==> driver_version(word).0 >= 12,
        r is Ok <==> is_new_enough(word),
        r matches Ok(v) ==> v.0 == driver_version(word).0 && v.1 == driver_version(word).1,
        r matches Err(e) ==> (e matches PlanError::DriverTooOld { major, minor } && major
            == driver_version(word).0 && minor == driver_version(word).1),
{
    let major: u32 = word / 16;
    let minor: u32 = word % 16;
    if major < 12 {
        Err(PlanError::DriverTooOld { major, minor })
    } else {
        Ok((major, minor))
    }
}

/// A version word holds the minor in its low four bits and the major above.
pub proof fn version_word_is_a_nibble_split(word: u32)
    ensures
        word >> 4 == driver_version(word).0,
        word & 0xf == driver_version(word).1,
{
    assert(word >> 4 == word / 16) by (bit_vector);
    assert(word & 0xf == word % 16) by (bit_vector);
}

/// What a driver answered about its capabilities. A capability query that
/// failed is reported as -1.
pub enum DriverReport {
    GuidCountFailed,
    GuidsFailed,
    Listed { guids: Vec<Guid>, max_width: i32, max_height: i32, ten_bit: i32 },
}

/// A picture extent as the driver's signed number.
pub open spec fn signed_extent(v: u32) -> int {
    if v < 0x8000_0000 {
        v as int
    } else {
        v - 0x1_0000_0000
    }
}

/// Whether the codec is among those listed.
pub open spec fn codec_listed(guids: Seq<Guid>, codec: VideoCodec) -> bool {
    exists|i: int| 0 <= i < guids.len() && (#[trigger] guids[i])@ == api::codec_guid(codec)
}

/// Whether the picture is larger than the device codes; a limit that the
/// driver did not report does not count.
pub open spec fn too_large(config: EncoderConfig, max_width: i32, max_height: i32) -> bool {
    &&& max_width > 0
    &&& max_height > 0
    &&& (signed_extent(config.width) > max_width || signed_extent(config.height) > max_height)
}

/// The verdict on a driver's report.
pub open spec fn capability_verdict(
    config: EncoderConfig,
    gpu_index: u32,
    report: DriverReport,
) -> Option<PlanError> {
    match report {
        DriverReport::GuidCountFailed => Some(PlanError::GuidCountFailed { gpu_index }),
        DriverReport::GuidsFailed => Some(PlanError::GuidsFailed { gpu_index }),
        DriverReport::Listed { guids, max_width, max_height, ten_bit } => {
            if !codec_listed(guids@, config.codec) {
                Some(
                    PlanError::CodecUnsupported {
                        gpu_index,
                        codec: config.codec,
                        advertised: guids@.len() as u32,
                    },
                )
            } else if too_large(config, max_width, max_height) {
                Some(
                    PlanError::TooLarge {
                        gpu_index,
                        codec: config.codec,
                        max_width,
                        max_height,
                        width: config.width,
                        height: config.height,
                    },
                )
            } else if config.pixel_format == PixelFormat::Yuv420p10le && ten_bit == 0 {
                Some(PlanError::NoTenBit { gpu_index, codec: config.codec })
            } else {
                None
            }
        },
    }
}

fn to_signed(v: u32) -> (r: i64)
    ensures
        r == signed_extent(v),
{
    if v < 0x8000_0000 {
        v as i64
    } else {
        v as i64 - 0x1_0000_0000
    }
}

/// Hold a configuration against what the driver says the device can do.
pub fn check_capabilities(
    config: &EncoderConfig,
    gpu_index: u32,
    report: &DriverReport,
) -> (r: Result<(), PlanError>)
    ensures
        match capability_verdict(*config, gpu_index, *report) {
            Some(e) => r == Err::<(), PlanError>(e),
            None => r is Ok,
        },
{
    match report {
        DriverReport::GuidCountFailed => Err(PlanError::GuidCountFailed { gpu_index }),
        DriverReport::GuidsFailed => Err(PlanError::GuidsFailed { gpu_index }),
        DriverReport::Listed { guids, max_width, max_height, ten_bit } => {
            let wanted: Guid = nvenc_codec_guid(config.codec);
            if !guid_listed(guids.as_slice(), &wanted) {
                return Err(
                    PlanError::CodecUnsupported {
                        gpu_index,
                        codec: config.codec,
                        advertised: guids.len() as u32,
                    },
                );
            }
            if *max_width > 0 && *max_height > 0 && (to_signed(config.width) > *max_width as i64
                || to_signed(config.height) > *max_height as i64) {
                return Err(
                    PlanError::TooLarge {
                        gpu_index,
                        codec: config.codec,
                        max_width: *max_width,
                        max_height: *max_height,
                        width: config.width,
                        height: config.height,
                    },
                );
            }
            if config.pixel_format == PixelFormat::Yuv420p10le && *ten_bit == 0 {
                return Err(PlanError::NoTenBit { gpu_index, codec: config.codec });
            }
            Ok(())
        },
    }
}

/// The input surface format of a pixel format.
pub open spec fn buffer_format(f: PixelFormat) -> Option<u32> {
    match f {
        PixelFormat::Yuv420p => Some(NV_ENC_BUFFER_FORMAT_IYUV),
        PixelFormat::Yuv420p10le => Some(NV_ENC_BUFFER_FORMAT_YUV420_10BIT),
        _ => None,
    }
}

/// The input surface format of a pixel format.
pub fn nvenc_buffer_format_for(f: PixelFormat) -> (r: Result<u32, PlanError>)
    ensures
        match buffer_format(f) {
            Some(v) => r == Ok::<u32, PlanError>(v),
            None => r == Err::<u32, PlanError>(PlanError::UnsupportedFormat { format: f }),
        },
{
    match f {
        PixelFormat::Yuv420p => Ok(NV_ENC_BUFFER_FORMAT_IYUV),
        PixelFormat::Yuv420p10le => Ok(NV_ENC_BUFFER_FORMAT_YUV420_10BIT),
        _ => Err(PlanError::UnsupportedFormat { format: f }),
    }
}

/// Bits per sample beyond eight.
pub fn pixel_bit_depth_minus8_for(f: PixelFormat) -> (d: u32)
    ensures
        d == (if f.is_ten_bit() {
            2int
        } else {
            0
        }),
{
    match f {
        PixelFormat::Yuv420p10le => 2,
        _ => 0,
    }
}

/// Rate control of a session.
#[derive(Debug, Clone, Copy, PartialEq, Eq, Structural)]
pub struct RcParams {
    pub version: u32,
    pub rate_control_mode: u32,
    pub const_qp_intra: u32,
    pub const_qp_inter_p: u32,
    pub const_qp_inter_b: u32,
    pub target_quality: u8,
    pub target_quality_lsb: u8,
    pub lookahead_depth: u16,
    pub multi_pass: u32,
    pub flags: u32,
}

/// AV1 settings of a session.
#[derive(Debug, Clone, Copy, PartialEq, Eq, Structural)]
pub struct Av1Config {
    pub flags: u32,
    pub idr_period: u32,
    pub num_fwd_refs: u32,
    pub max_num_ref_frames_in_dpb: u32,
    pub num_tile_columns: u32,
    pub num_tile_rows: u32,
    pub output_bit_depth: u32,
    pub input_bit_depth: u32,
    pub color_primaries: u32,
    pub transfer_characteristics: u32,
    pub matrix_coefficients: u32,
    pub color_range: u32,
}

/// What the driver seeds a session with for a preset, as far as it is read
/// here.
#[derive(Debug, Clone, Copy, PartialEq, Eq, Structural)]
pub struct PresetSeed {
    pub rc: RcParams,
    pub av1: Av1Config,
}

/// Codec-specific settings to write over the seed.
#[derive(Debug, Clone, Copy, PartialEq, Eq, Structural)]
pub enum CodecOverride {
    /// All AV1 settings.
    Av1(Av1Config),
    /// The two bit-depth fields of the H.265 settings, and nothing else.
    HevcBitDepth(u32),
    /// Nothing: the seed stands.
    Untouched,
}

/// What a session is initialised with.
#[derive(Debug, Clone, Copy)]
pub struct SessionPlan {
    pub config_version: u32,
    pub init_version: u32,
    pub encode_guid: Guid,
    pub preset_guid: Guid,
    pub profile_guid: Guid,
    pub gop_length: u32,
    pub frame_interval_p: u32,
    pub mv_precision: u32,
    pub rc: RcParams,
    pub codec: CodecOverride,
    /// Coded width, which is also the display aspect's and the largest one.
    pub width: u32,
    /// Coded height, which is also the display aspect's and the largest one.
    pub height: u32,
    pub frame_rate_num: u32,
    pub frame_rate_den: u32,
    pub enable_encode_async: u32,
    pub enable_ptd: u32,
    pub tuning_info: u32,
    pub buffer_format: u32,
}

/// The quantiser a session works from: the caller's on the 0..=63 scale, or
/// the tuning row's.
pub open spec fn effective_cq(c: EncoderConfig, tp: NvencParams) -> int {
    if c.quality == AUTO_FROM_TARGET {
        tp.cq as int
    } else {
        rate::min_int(c.quality as int, 63)
    }
}

/// The quantiser of a visually lossless session: within 8..=12.
pub open spec fn lossless_qp(c: EncoderConfig, tp: NvencParams) -> int {
    rate::clamp_int(effective_cq(c, tp), 8, 12)
}

/// Frames of lookahead the caller asks for.
pub open spec fn asked_lookahead(c: EncoderConfig) -> int {
    match c.overrides.lookahead_frames {
        Some(n) => n as int,
        None => 0,
    }
}

/// Whether the session may hold pictures back.
pub open spec fn buffers(c: EncoderConfig) -> bool {
    asked_lookahead(c) > 0
}

/// The rate-control flags: lookahead on and immediate output off where the
/// session buffers, the opposite where it does not, every other bit as seeded.
pub open spec fn planned_flags(seed: u32, buffering: bool) -> u32 {
    if buffering {
        (seed | RC_FLAG_ENABLE_LOOKAHEAD) & !RC_FLAG_ZERO_REORDER_DELAY
    } else {
        (seed & !RC_FLAG_ENABLE_LOOKAHEAD) | RC_FLAG_ZERO_REORDER_DELAY
    }
}

/// Rate control of the session, field by field.
pub open spec fn planned_rc(c: EncoderConfig, tp: NvencParams, seed: RcParams, rc: RcParams) -> bool {
    let cq = effective_cq(c, tp);
    let lossless = c.target == QualityTarget::VisuallyLossless;
    &&& rc.version == NV_ENC_RC_PARAMS_VER
    &&& rc.rate_control_mode == (if c.constant_qp || lossless || tp.rc_mode
        == NvencRateControl::ConstQp {
        NV_ENC_PARAMS_RC_CONSTQP
    } else {
        NV_ENC_PARAMS_RC_VBR
    })
    &&& rc.const_qp_intra == (if c.constant_qp || !lossless {
        cq
    } else {
        lossless_qp(c, tp)
    })
    &&& rc.const_qp_inter_p == (if c.constant_qp {
        cq + 1
    } else if lossless {
        lossless_qp(c, tp) + 1
    } else {
        cq + 2
    })
    &&& rc.const_qp_inter_b == (if c.constant_qp {
        cq + 2
    } else if lossless {
        lossless_qp(c, tp) + 2
    } else {
        cq + 4
    })
    &&& rc.target_quality == (if c.constant_qp {
        cq
    } else if lossless {
        lossless_qp(c, tp)
    } else {
        rate::min_int(cq, 51)
    })
    &&& rc.target_quality_lsb == (if lossless {
        seed.target_quality_lsb as int
    } else {
        0
    })
    &&& rc.lookahead_depth == rate::min_int(asked_lookahead(c), RING_SIZE - RING_SLACK)
    &&& rc.flags == planned_flags(seed.flags, buffers(c))
    &&& rc.multi_pass == (if c.overrides.multi_pass == Some(true) {
        1int
    } else {
        0
    })
}

/// AV1 settings of the session, field by field.
pub open spec fn planned_av1(
    c: EncoderConfig,
    tp: NvencParams,
    seed: Av1Config,
    av1: Av1Config,
) -> bool {
    let cm = c.color_metadata;
    let depth = if c.pixel_format.is_ten_bit() {
        NV_ENC_BIT_DEPTH_10
    } else {
        NV_ENC_BIT_DEPTH_8
    };
    &&& av1.flags == AV1_BIT_REPEAT_SEQ_HDR | AV1_CHROMA_FORMAT_IDC_420
    &&& av1.idr_period == c.keyframe_interval
    &&& match c.overrides.reference_frames {
        Some(refs) => {
            &&& av1.num_fwd_refs == rate::clamp_int(refs as int, 1, 7)
            &&& av1.max_num_ref_frames_in_dpb == rate::max_int(rate::clamp_int(refs as int, 1, 7) + 1, 4)
        },
        None => {
            &&& av1.num_fwd_refs == seed.num_fwd_refs
            &&& av1.max_num_ref_frames_in_dpb == 4
        },
    }
    &&& av1.num_tile_columns == tp.num_tile_columns
    &&& av1.num_tile_rows == tp.num_tile_rows
    &&& av1.output_bit_depth == depth
    &&& av1.input_bit_depth == depth
    &&& av1.color_primaries == cm.colour_primaries
    &&& av1.transfer_characteristics == cm.transfer.h273()
    &&& av1.matrix_coefficients == cm.matrix_coefficients
    &&& av1.color_range == (if cm.full_range {
        1int
    } else {
        0
    })
}

/// The session's initialisation, field by field.
pub open spec fn planned(
    c: EncoderConfig,
    tp: NvencParams,
    seed: PresetSeed,
    format: u32,
    p: SessionPlan,
) -> bool {
    &&& p.config_version == NV_ENC_CONFIG_VER
    &&& p.init_version == NV_ENC_INITIALIZE_PARAMS_VER
    &&& p.encode_guid@ == api::codec_guid(c.codec)
    &&& guid::is_memory_form(tp.preset_guid@, p.preset_guid@)
    &&& p.profile_guid@ == api::profile_guid(c.codec, c.pixel_format.is_ten_bit())
    &&& p.gop_length == c.keyframe_interval
    &&& p.frame_interval_p == 1 + (match c.overrides.bframes {
        Some(b) => b as int,
        None => 0,
    })
    &&& p.mv_precision == 3
    &&& planned_rc(c, tp, seed.rc, p.rc)
    &&& match c.codec {
        VideoCodec::Av1 => p.codec matches CodecOverride::Av1(av1) && planned_av1(
            c,
            tp,
            seed.av1,
            av1,
        ),
        VideoCodec::H265 => if c.pixel_format.is_ten_bit() {
            p.codec == CodecOverride::HevcBitDepth(NV_ENC_BIT_DEPTH_10)
        } else {
            p.codec == CodecOverride::Untouched
        },
        VideoCodec::H264 => p.codec == CodecOverride::Untouched,
    }
    &&& p.width == c.width
    &&& p.height == c.height
    &&& (p.frame_rate_num, p.frame_rate_den) == rate::nvenc_rational(c.frame_rate)
    &&& p.enable_encode_async == 0
    &&& p.enable_ptd == 1
    &&& p.tuning_info == tp.tuning_info
    &&& p.buffer_format == format
}

fn plan_rc(c: &EncoderConfig, tp: &NvencParams, seed: RcParams) -> (rc: RcParams)
    ensures
        planned_rc(*c, *tp, seed, rc),
{
    let cq: u8 = if c.quality == AUTO_FROM_TARGET {
        tp.cq
    } else if c.quality > 63 {
        63
    } else {
        c.quality
    };
    let q: u32 = cq as u32;
    let mut rc: RcParams = seed;
    rc.version = NV_ENC_RC_PARAMS_VER;
    match c.target {
        QualityTarget::VisuallyLossless => {
            let low: u32 = if q < 8 {
                8
            } else if q > 12 {
                12
            } else {
                q
            };
            rc.rate_control_mode = NV_ENC_PARAMS_RC_CONSTQP;
            rc.const_qp_intra = low;
            rc.const_qp_inter_p = low + 1;
            rc.const_qp_inter_b = low + 2;
            rc.target_quality = low as u8;
        },
        _ => {
            rc.rate_control_mode = match tp.rc_mode {
                NvencRateControl::ConstQp => NV_ENC_PARAMS_RC_CONSTQP,
                NvencRateControl::VbrTargetQuality => NV_ENC_PARAMS_RC_VBR,
            };
            rc.target_quality = if cq > 51 {
                51
            } else {
                cq
            };
            rc.target_quality_lsb = 0;
            rc.const_qp_intra = q;
            rc.const_qp_inter_p = q + 2;
            rc.const_qp_inter_b = q + 4;
        },
    }
    if c.constant_qp {
        rc.rate_control_mode = NV_ENC_PARAMS_RC_CONSTQP;
        rc.const_qp_intra = q;
        rc.const_qp_inter_p = q + 1;
        rc.const_qp_inter_b = q + 2;
        rc.target_quality = cq;
    }
    let lookahead: u32 = match c.overrides.lookahead_frames {
        Some(n) => n,
        None => 0,
    };
    if lookahead > 0 {
        let cap: u32 = (RING_SIZE - RING_SLACK) as u32;
        rc.lookahead_depth = if lookahead > cap {
            cap as u16
        } else {
            lookahead as u16
        };
        rc.flags = (rc.flags | RC_FLAG_ENABLE_LOOKAHEAD) & !RC_FLAG_ZERO_REORDER_DELAY;
    } else {
        rc.flags = (rc.flags & !RC_FLAG_ENABLE_LOOKAHEAD) | RC_FLAG_ZERO_REORDER_DELAY;
        rc.lookahead_depth = 0;
    }
    rc.multi_pass = match c.overrides.multi_pass {
        Some(true) => 1,
        _ => 0,
    };
    rc
}

fn plan_av1(c: &EncoderConfig, tp: &NvencParams, seed: Av1Config) -> (av1: Av1Config)
    ensures
        planned_av1(*c, *tp, seed, av1),
{
    let depth: u32 = if pixel_bit_depth_minus8_for(c.pixel_format) == 0 {
        NV_ENC_BIT_DEPTH_8
    } else {
        NV_ENC_BIT_DEPTH_10
    };
    let mut av1: Av1Config = seed;
    av1.flags = AV1_BIT_REPEAT_SEQ_HDR | AV1_CHROMA_FORMAT_IDC_420;
    av1.idr_period = c.keyframe_interval;
    match c.overrides.reference_frames {
        Some(refs) => {
            let n: u32 = if refs < 1 {
                1
            } else if refs > 7 {
                7
            } else {
                refs as u32
            };
            av1.num_fwd_refs = n;
            av1.max_num_ref_frames_in_dpb = if n + 1 < 4 {
                4
            } else {
                n + 1
            };
        },
        None => {
            av1.max_num_ref_frames_in_dpb = 4;
        },
    }
    av1.num_tile_columns = tp.num_tile_columns;
    av1.num_tile_rows = tp.num_tile_rows;
    av1.output_bit_depth = depth;
    av1.input_bit_depth = depth;
    av1.color_primaries = c.color_metadata.colour_primaries as u32;
    av1.transfer_characteristics = transfer_to_h273(c.color_metadata.transfer) as u32;
    av1.matrix_coefficients = c.color_metadata.matrix_coefficients as u32;
    av1.color_range = if c.color_metadata.full_range {
        1
    } else {
        0
    };
    av1
}

/// What to initialise a session with: the driver's seed for the preset, with
/// the caller's and the tuning row's choices written over it. Only an input
/// format without a surface format is refused.
pub fn plan_session(c: &EncoderConfig, tp: &NvencParams, seed: &PresetSeed) -> (r: Result<
    SessionPlan,
    PlanError,
>)
    ensures
        match buffer_format(c.pixel_format) {
            Some(format) => r matches Ok(p) && planned(*c, *tp, *seed, format, p),
            None => r == Err::<SessionPlan, PlanError>(
                PlanError::UnsupportedFormat { format: c.pixel_format },
            ),
        },
{
    let rc: RcParams = plan_rc(c, tp, seed.rc);
    let format: u32 = match nvenc_buffer_format_for(c.pixel_format) {
        Ok(f) => f,
        Err(e) => return Err(e),
    };
    let ten_bit: bool = pixel_bit_depth_minus8_for(c.pixel_format) != 0;
    let codec: CodecOverride = match c.codec {
        VideoCodec::Av1 => CodecOverride::Av1(plan_av1(c, tp, seed.av1)),
        VideoCodec::H265 => if ten_bit {
            CodecOverride::HevcBitDepth(NV_ENC_BIT_DEPTH_10)
        } else {
            CodecOverride::Untouched
        },
        VideoCodec::H264 => CodecOverride::Untouched,
    };
    let frame_interval_p: u32 = match c.overrides.bframes {
        Some(b) => b as u32 + 1,
        None => 1,
    };
    let rate: (u32, u32) = fps_to_rational(c.frame_rate);
    Ok(
        SessionPlan {
            config_version: NV_ENC_CONFIG_VER,
            init_version: NV_ENC_INITIALIZE_PARAMS_VER,
            encode_guid: nvenc_codec_guid(c.codec),
            preset_guid: guid_from_bytes(tp.preset_guid),
            profile_guid: nvenc_profile_guid(c.codec, ten_bit),
            gop_length: c.keyframe_interval,
            frame_interval_p,
            mv_precision: 3,
            rc,
            codec,
            width: c.width,
            height: c.height,
            frame_rate_num: rate.0,
            frame_rate_den: rate.1,
            enable_encode_async: 0,
            enable_ptd: 1,
            tuning_info: tp.tuning_info,
            buffer_format: format,
        },
    )
}

/// What the driver is asked for to restart a stream in place.
#[derive(Debug, Clone, Copy)]
pub struct Reconfiguration {
    pub version: u32,
    pub flags: u32,
    /// What the session was initialised with.
    pub plan: SessionPlan,
}

/// Whether a reconfiguration restarts a stream: the very parameters the session
/// was initialised with, its state discarded, and an IDR next.
pub open spec fn restarts(plan: SessionPlan, r: Reconfiguration) -> bool {
    &&& r.version == NV_ENC_RECONFIGURE_PARAMS_VER
    &&& r.flags == RECONFIGURE_BIT_RESET_ENCODER | RECONFIGURE_BIT_FORCE_IDR
    &&& r.plan == plan
}

/// How to restart a stream on an open session: the very parameters it was
/// initialised with, its state discarded, and an IDR next.
pub fn reconfigure_reset(plan: &SessionPlan) -> (r: Reconfiguration)
    ensures
        r.version == NV_ENC_RECONFIGURE_PARAMS_VER,
        r.flags == RECONFIGURE_BIT_RESET_ENCODER | RECONFIGURE_BIT_FORCE_IDR,
        r.plan == *plan,
        restarts(*plan, r),
{
    Reconfiguration {
        version: NV_ENC_RECONFIGURE_PARAMS_VER,
        flags: RECONFIGURE_BIT_RESET_ENCODER | RECONFIGURE_BIT_FORCE_IDR,
        plan: *plan,
    }
}

/// A session that does not buffer returns each packet at once, and one that
/// does never asks for more pictures than leave surfaces to submit into;
/// either way no other rate-control flag changes.
pub proof fn buffering_is_bounded_by_the_ring(
    c: EncoderConfig,
    tp: NvencParams,
    seed: RcParams,
    rc: RcParams,
)
    requires
        planned_rc(c, tp, seed, rc),
    ensures
        rc.lookahead_depth + RING_SLACK <= RING_SIZE,
        rc.lookahead_depth > 0 <==> rc.flags & RC_FLAG_ENABLE_LOOKAHEAD != 0,
        rc.lookahead_depth == 0 <==> rc.flags & RC_FLAG_ZERO_REORDER_DELAY != 0,
        rc.flags & !(RC_FLAG_ENABLE_LOOKAHEAD | RC_FLAG_ZERO_REORDER_DELAY) == seed.flags & !(
        RC_FLAG_ENABLE_LOOKAHEAD | RC_FLAG_ZERO_REORDER_DELAY),
{
    let f = seed.flags;
    assert(((f | 0x20u32) & !0x200u32) & 0x20u32 != 0 && ((f | 0x20u32) & !0x200u32) & 0x200u32
        == 0 && ((f | 0x20u32) & !0x200u32) & !(0x20u32 | 0x200u32) == f & !(0x20u32 | 0x200u32))
        by (bit_vector);
    assert(((f & !0x20u32) | 0x200u32) & 0x20u32 == 0 && ((f & !0x20u32) | 0x200u32) & 0x200u32
        != 0 && ((f & !0x20u32) | 0x200u32) & !(0x20u32 | 0x200u32) == f & !(0x20u32 | 0x200u32))
        by (bit_vector);
}

/// Keyframes are never coded coarser than the pictures predicted from them.
pub proof fn keyframes_get_the_finest_quantiser(
    c: EncoderConfig,
    tp: NvencParams,
    seed: RcParams,
    rc: RcParams,
)
    requires
        planned_rc(c, tp, seed, rc),
    ensures
        rc.const_qp_intra < rc.const_qp_inter_p < rc.const_qp_inter_b,
{
}

/// Without overrides a session codes no B pictures, holds none back, and asks
/// for no second pass.
pub proof fn no_override_means_one_in_one_out(
    c: EncoderConfig,
    tp: NvencParams,
    seed: PresetSeed,
    format: u32,
    p: SessionPlan,
)
    requires
        planned(c, tp, seed, format, p),
        c.overrides.is_empty(),
    ensures
        p.frame_interval_p == 1,
        p.rc.lookahead_depth == 0,
        p.rc.multi_pass == 0,
        !buffers(c),
{
}

/// Whenever the caller asks for a constant quantiser, or the target is visually
/// lossless, or the tuning row says so, the driver is put in the mode in which
/// it reads the quantisers, and in no other case; else it codes to a target
/// quality.
pub proof fn a_constant_quantiser_is_what_the_driver_reads(
    c: EncoderConfig,
    tp: NvencParams,
    seed: RcParams,
    rc: RcParams,
)
    requires
        planned_rc(c, tp, seed, rc),
    ensures
        c.constant_qp ==> rc.rate_control_mode == NV_ENC_PARAMS_RC_CONSTQP,
        c.target == QualityTarget::VisuallyLossless ==> rc.rate_control_mode
            == NV_ENC_PARAMS_RC_CONSTQP,
        tp.rc_mode == NvencRateControl::ConstQp ==> rc.rate_control_mode
            == NV_ENC_PARAMS_RC_CONSTQP,
        !c.constant_qp && c.target != QualityTarget::VisuallyLossless && tp.rc_mode
            == NvencRateControl::VbrTargetQuality ==> rc.rate_control_mode == NV_ENC_PARAMS_RC_VBR,
        NV_ENC_PARAMS_RC_CONSTQP != NV_ENC_PARAMS_RC_VBR,
{
}

/// A caller's constant quantiser is the one keyframes get, 63 at most, and the
/// tuning row's where the caller names none; predicted pictures are one step
/// coarser, bidirectional ones two.
pub proof fn a_constant_quantiser_is_the_callers(
    c: EncoderConfig,
    tp: NvencParams,
    seed: RcParams,
    rc: RcParams,
)
    requires
        planned_rc(c, tp, seed, rc),
        c.constant_qp,
    ensures
        c.quality <= 63 ==> rc.const_qp_intra == c.quality,
        63 < c.quality < 255 ==> rc.const_qp_intra == 63,
        c.quality == 255 ==> rc.const_qp_intra == tp.cq,
        rc.const_qp_inter_p == rc.const_qp_intra + 1,
        rc.const_qp_inter_b == rc.const_qp_intra + 2,
        rc.target_quality == rc.const_qp_intra,
{
}

/// A visually lossless session keeps its keyframes within 8 to 12, at the
/// asked quantiser where that lies within, and the pictures predicted from
/// them one and two steps coarser.
pub proof fn visually_lossless_keeps_to_its_range(
    c: EncoderConfig,
    tp: NvencParams,
    seed: RcParams,
    rc: RcParams,
)
    requires
        planned_rc(c, tp, seed, rc),
        c.target == QualityTarget::VisuallyLossless,
        !c.constant_qp,
    ensures
        8 <= rc.const_qp_intra <= 12,
        c.quality < 8 ==> rc.const_qp_intra == 8,
        8 <= c.quality <= 12 ==> rc.const_qp_intra == c.quality,
        12 < c.quality < 255 ==> rc.const_qp_intra == 12,
        c.quality == 255 && 8 <= tp.cq <= 12 ==> rc.const_qp_intra == tp.cq,
        c.quality == 255 && tp.cq < 8 ==> rc.const_qp_intra == 8,
        c.quality == 255 && tp.cq > 12 ==> rc.const_qp_intra == 12,
        rc.const_qp_inter_p == rc.const_qp_intra + 1,
        rc.const_qp_inter_b == rc.const_qp_intra + 2,
        rc.target_quality == rc.const_qp_intra,
        rc.target_quality_lsb == seed.target_quality_lsb,
{
}

/// Any other session works from the asked quantiser, two and four steps coarser
/// for predicted pictures, and codes to that quality, which the driver counts
/// to 51, without a fraction.
pub proof fn other_targets_code_to_their_quality(
    c: EncoderConfig,
    tp: NvencParams,
    seed: RcParams,
    rc: RcParams,
)
    requires
        planned_rc(c, tp, seed, rc),
        c.target != QualityTarget::VisuallyLossless,
        !c.constant_qp,
    ensures
        c.quality <= 63 ==> rc.const_qp_intra == c.quality,
        63 < c.quality < 255 ==> rc.const_qp_intra == 63,
        c.quality == 255 ==> rc.const_qp_intra == tp.cq,
        rc.const_qp_inter_p == rc.const_qp_intra + 2,
        rc.const_qp_inter_b == rc.const_qp_intra + 4,
        rc.const_qp_intra <= 51 ==> rc.target_quality == rc.const_qp_intra,
        rc.const_qp_intra > 51 ==> rc.target_quality == 51,
        rc.target_quality_lsb == 0,
{
}

/// Whatever the mode, a finer quantiser is never coded coarser: of two sessions
/// that differ in the caller's quantiser alone, the one with the smaller number
/// gets no larger ones.
pub proof fn finer_requests_are_coded_finer(
    a: EncoderConfig,
    b: EncoderConfig,
    tp: NvencParams,
    seed: RcParams,
    x: RcParams,
    y: RcParams,
)
    requires
        planned_rc(a, tp, seed, x),
        planned_rc(b, tp, seed, y),
        a.target == b.target,
        a.constant_qp == b.constant_qp,
        a.quality <= b.quality < 255,
    ensures
        x.rate_control_mode == y.rate_control_mode,
        x.const_qp_intra <= y.const_qp_intra,
        x.const_qp_inter_p <= y.const_qp_inter_p,
        x.const_qp_inter_b <= y.const_qp_inter_b,
        x.target_quality <= y.target_quality,
        a.quality < b.quality <= 63 && a.constant_qp ==> x.const_qp_intra < y.const_qp_intra,
{
}

/// The lookahead is the caller's, twelve pictures at most, and none where the
/// caller asks for none; a second pass runs exactly where it is asked for.
pub proof fn lookahead_and_passes_are_the_callers(
    c: EncoderConfig,
    tp: NvencParams,
    seed: RcParams,
    rc: RcParams,
)
    requires
        planned_rc(c, tp, seed, rc),
    ensures
        c.overrides.lookahead_frames is None ==> rc.lookahead_depth == 0,
        c.overrides.lookahead_frames matches Some(n) ==> (n <= 12 ==> rc.lookahead_depth == n) && (n
            > 12 ==> rc.lookahead_depth == 12),
        rc.multi_pass == 1 <==> c.overrides.multi_pass == Some(true),
        rc.multi_pass <= 1,
        rc.version == NV_ENC_RC_PARAMS_VER,
{
}

/// A session is opened for the caller's pictures: their size, keyframe
/// interval and B pictures, a frame rate NVENC counts, the caller's codec, the
/// row's preset and tuning, synchronous and with picture types the driver's.
pub proof fn the_session_is_the_callers(
    c: EncoderConfig,
    tp: NvencParams,
    seed: PresetSeed,
    format: u32,
    p: SessionPlan,
)
    requires
        planned(c, tp, seed, format, p),
        buffer_format(c.pixel_format) == Some(format),
    ensures
        p.width == c.width && p.height == c.height,
        p.gop_length == c.keyframe_interval,
        c.overrides.bframes is None ==> p.frame_interval_p == 1,
        c.overrides.bframes matches Some(b) ==> p.frame_interval_p == b + 1,
        p.frame_rate_num == rate::nvenc_rational(c.frame_rate).0,
        p.frame_rate_den == rate::nvenc_rational(c.frame_rate).1,
        p.encode_guid@ == api::codec_guid(c.codec),
        p.tuning_info == tp.tuning_info,
        p.enable_encode_async == 0,
        p.enable_ptd == 1,
        p.mv_precision == 3,
        c.pixel_format == PixelFormat::Yuv420p ==> p.buffer_format == NV_ENC_BUFFER_FORMAT_IYUV,
        c.pixel_format == PixelFormat::Yuv420p10le ==> p.buffer_format
            == NV_ENC_BUFFER_FORMAT_YUV420_10BIT,
        c.pixel_format == PixelFormat::Yuv420p || c.pixel_format == PixelFormat::Yuv420p10le,
        planned_rc(c, tp, seed.rc, p.rc),
{
}

/// Only AV1 settings are written whole; of H.265 the bit depth is written, and
/// that only at ten bits; H.264 stays as the driver seeds it.
pub proof fn codec_settings_are_written_where_they_must_be(
    c: EncoderConfig,
    tp: NvencParams,
    seed: PresetSeed,
    format: u32,
    p: SessionPlan,
)
    requires
        planned(c, tp, seed, format, p),
    ensures
        p.codec is Av1 <==> c.codec == VideoCodec::Av1,
        p.codec is HevcBitDepth <==> c.codec == VideoCodec::H265 && c.pixel_format
            == PixelFormat::Yuv420p10le,
        p.codec matches CodecOverride::HevcBitDepth(d) ==> d == NV_ENC_BIT_DEPTH_10,
{
}

/// An AV1 stream repeats its headers, opens a group of pictures as often as the
/// caller asks, is tiled as the row says, and says of its bit depth and colour
/// what the caller says, with a transfer that reads back as the caller's.
pub proof fn an_av1_stream_describes_itself(
    c: EncoderConfig,
    tp: NvencParams,
    seed: Av1Config,
    av1: Av1Config,
)
    requires
        planned_av1(c, tp, seed, av1),
        c.pixel_format == PixelFormat::Yuv420p || c.pixel_format == PixelFormat::Yuv420p10le,
    ensures
        av1.flags & AV1_BIT_REPEAT_SEQ_HDR == AV1_BIT_REPEAT_SEQ_HDR,
        av1.flags & AV1_CHROMA_FORMAT_IDC_420 == AV1_CHROMA_FORMAT_IDC_420,
        av1.flags & !(AV1_BIT_REPEAT_SEQ_HDR | AV1_CHROMA_FORMAT_IDC_420) == 0,
        av1.idr_period == c.keyframe_interval,
        av1.num_tile_columns == tp.num_tile_columns,
        av1.num_tile_rows == tp.num_tile_rows,
        c.pixel_format == PixelFormat::Yuv420p ==> av1.input_bit_depth == 8,
        c.pixel_format == PixelFormat::Yuv420p10le ==> av1.input_bit_depth == 10,
        av1.output_bit_depth == av1.input_bit_depth,
        av1.color_primaries == c.color_metadata.colour_primaries,
        av1.matrix_coefficients == c.color_metadata.matrix_coefficients,
        c.color_metadata.full_range ==> av1.color_range == 1,
        !c.color_metadata.full_range ==> av1.color_range == 0,
        c.color_metadata.transfer == TransferFn::Unspecified ==> av1.transfer_characteristics == 1,
        c.color_metadata.transfer != TransferFn::Unspecified ==> TransferFn::from_h273_spec(
            av1.transfer_characteristics as u8,
        ) == c.color_metadata.transfer,
{
    let a = AV1_BIT_REPEAT_SEQ_HDR;
    let b = AV1_CHROMA_FORMAT_IDC_420;
    let f = av1.flags;
    assert(f & a == a && f & b == b && f & !(a | b) == 0) by (bit_vector)
        requires
            f == a | b,
    ;
}

/// A stream keeps as many reference pictures as the caller asks for, one at
/// least and seven at most, in a buffer with room for one more and for four at
/// least; without a wish the driver's count stands, in a buffer of four.
pub proof fn references_are_the_callers(
    c: EncoderConfig,
    tp: NvencParams,
    seed: Av1Config,
    av1: Av1Config,
)
    requires
        planned_av1(c, tp, seed, av1),
    ensures
        c.overrides.reference_frames is None ==> av1.num_fwd_refs == seed.num_fwd_refs
            && av1.max_num_ref_frames_in_dpb == 4,
        c.overrides.reference_frames matches Some(n) ==> {
            &&& n < 1 ==> av1.num_fwd_refs == 1
            &&& 1 <= n <= 7 ==> av1.num_fwd_refs == n
            &&& n > 7 ==> av1.num_fwd_refs == 7
            &&& av1.max_num_ref_frames_in_dpb >= 4
            &&& av1.max_num_ref_frames_in_dpb > av1.num_fwd_refs
            &&& av1.max_num_ref_frames_in_dpb == 4 || av1.max_num_ref_frames_in_dpb
                == av1.num_fwd_refs + 1
        },
{
}

/// A device takes a session exactly where the driver lists its codec, the
/// picture is within the limits it reports (none counts where one is not
/// reported), and ten-bit pictures are not known to be out of reach.
pub proof fn which_devices_take_a_session(
    c: EncoderConfig,
    gpu_index: u32,
    guids: Vec<Guid>,
    max_width: i32,
    max_height: i32,
    ten_bit: i32,
)
    requires
        c.width < 0x8000_0000,
        c.height < 0x8000_0000,
    ensures
        capability_verdict(
            c,
            gpu_index,
            DriverReport::Listed { guids, max_width, max_height, ten_bit },
        ) is None <==> {
            &&& exists|i: int|
                0 <= i < guids@.len() && (#[trigger] guids@[i])@ == api::codec_guid(c.codec)
            &&& (max_width <= 0 || max_height <= 0 || (c.width <= max_width && c.height
                <= max_height))
            &&& (c.pixel_format != PixelFormat::Yuv420p10le || ten_bit != 0)
        },
        capability_verdict(c, gpu_index, DriverReport::GuidCountFailed) == Some(
            PlanError::GuidCountFailed { gpu_index },
        ),
        capability_verdict(c, gpu_index, DriverReport::GuidsFailed) == Some(
            PlanError::GuidsFailed { gpu_index },
        ),
{
}

/// A refusal names what is wrong with the pairing of picture and device, in the
/// driver's and the caller's own numbers.
pub proof fn a_refused_device_is_told_why(
    c: EncoderConfig,
    gpu_index: u32,
    guids: Vec<Guid>,
    max_width: i32,
    max_height: i32,
    ten_bit: i32,
)
    requires
        c.width < 0x8000_0000,
        c.height < 0x8000_0000,
    ensures
        match capability_verdict(
            c,
            gpu_index,
            DriverReport::Listed { guids, max_width, max_height, ten_bit },
        ) {
            Some(PlanError::CodecUnsupported { gpu_index: g, codec, advertised }) => {
                &&& g == gpu_index && codec == c.codec && advertised == guids@.len() as u32
                &&& forall|i: int|
                    0 <= i < guids@.len() ==> (#[trigger] guids@[i])@ != api::codec_guid(c.codec)
            },
            Some(
                PlanError::TooLarge {
                    gpu_index: g,
                    codec,
                    max_width: w,
                    max_height: h,
                    width,
                    height,
                },
            ) => {
                &&& g == gpu_index && codec == c.codec
                &&& w == max_width && h == max_height
                &&& width == c.width && height == c.height
                &&& width > w || height > h
            },
            Some(PlanError::NoTenBit { gpu_index: g, codec }) => {
                &&& g == gpu_index && codec == c.codec
                &&& c.pixel_format == PixelFormat::Yuv420p10le && ten_bit == 0
            },
            Some(_) => false,
            None => true,
        },
{
}

/// A driver is taken from version 12.0 on, whatever its minor.
pub proof fn which_drivers_are_taken(word: u32)
    ensures
        is_new_enough(word) <==> word >= 192,
        driver_version(word).0 * 16 + driver_version(word).1 == word,
        0 <= driver_version(word).1 < 16,
{
}

/// A stream is restarted with nothing changed: the session's own parameters,
/// with its state discarded and a keyframe next.
pub proof fn a_restart_changes_no_parameter(plan: SessionPlan, r: Reconfiguration)
    requires
        restarts(plan, r),
    ensures
        r.plan == plan,
        r.flags & RECONFIGURE_BIT_RESET_ENCODER != 0,
        r.flags & RECONFIGURE_BIT_FORCE_IDR != 0,
        r.flags == 3,
{
    let f = r.flags;
    assert(f & 1 != 0 && f & 2 != 0 && f == 3) by (bit_vector)
        requires
            f == 1u32 | 2u32,
    ;
}

/// An extent is held against the driver's limits as the driver's signed number:
/// itself below 2 to the 31st, and 2 to the 32nd less from there on, so that such
/// an extent is never refused as too large.
pub proof fn extents_are_signed(v: u32)
    ensures
        v < 0x8000_0000 ==> signed_extent(v) == v,
        v >= 0x8000_0000 ==> signed_extent(v) == v - 0x1_0000_0000 && signed_extent(v) < 0,
        -0x8000_0000 <= signed_extent(v) < 0x8000_0000,
{
}

/// A limit that the driver did not report holds nothing back, and one that it
/// did holds back every side that is over it.
pub proof fn unreported_limits_do_not_count(c: EncoderConfig, max_width: i32, max_height: i32)
    ensures
        max_width <= 0 || max_height <= 0 ==> !too_large(c, max_width, max_height),
        max_width > 0 && max_height > 0 ==> (too_large(c, max_width, max_height) <==> (max_width
            < c.width < 0x8000_0000 || max_height < c.height < 0x8000_0000)),
{
}

} // verus!
