//! What a QSV session is initialised with.

use vstd::prelude::*;

use super::api::{
    ASYNC_DEPTH, MFX_CHROMAFORMAT_YUV420, MFX_CODEC_AV1, MFX_CODEC_AVC, MFX_CODEC_HEVC,
    MFX_ERR_NONE, MFX_FOURCC_NV12, MFX_FOURCC_P010, MFX_IOPATTERN_IN_SYSTEM_MEMORY,
    MFX_PICSTRUCT_PROGRESSIVE, MFX_PROFILE_AV1_MAIN, MFX_PROFILE_AVC_HIGH, MFX_PROFILE_HEVC_MAIN,
    MFX_PROFILE_HEVC_MAIN10, MFX_RATECONTROL_CQP, MFX_RATECONTROL_ICQ,
    MFX_TARGET_CHROMAFORMAT_YUV420_PLUS1, MFX_WRN_INCOMPATIBLE_VIDEO_PARAM,
    MFX_WRN_PARTIAL_ACCELERATION, MFX_WRN_VIDEO_PARAM_CHANGED, MIN_BITSTREAM_BYTES,
    VIDEO_FORMAT_UNSPECIFIED,
};
use crate::config::{EncoderConfig, AUTO_FROM_TARGET};
use crate::frame::{transfer_to_h273, ColorMetadata, PixelFormat, TransferFn, VideoCodec};
use crate::rate;
use crate::text::{self, push_dec, push_dec_int};
use crate::tuning::{QsvParams, QsvRateControl};

verus! {

/// Why a session cannot be opened.
#[derive(Debug, Clone, Copy, PartialEq, Eq, Structural)]
pub enum QsvPlanError {
    /// The input format has no surface format.
    UnsupportedFormat { format: PixelFormat },
    /// The dispatcher made no session on the adapter.
    CreateSession { adapter: u32, status: i32 },
    /// No session could be made on any card.
    InitAny { status: i32 },
    /// The runtime refused the parameters.
    InitFailed { status: i32 },
}

impl QsvPlanError {
    /// The error in words.
    pub open spec fn text(self) -> Seq<char> {
        match self {
            QsvPlanError::UnsupportedFormat { format } =>
                "QSV takes 4:2:0 at 8 or 10 bits, not "@ + format.label(),
            QsvPlanError::CreateSession { adapter, status } =>
                "MFXCreateSession failed on adapter "@ + text::dec(adapter as nat) + ": "@
                + text::dec_int(status as int)
                + " (no Intel HW implementation for this codec on that card?)"@,
            QsvPlanError::InitAny { status } => "MFXInit(HARDWARE_ANY) failed: "@ + text::dec_int(
                status as int,
            ) + " (no Intel HW implementation for this codec on any card?)"@,
            QsvPlanError::InitFailed { status } => "MFXVideoENCODE_Init failed: "@ + text::dec_int(
                status as int,
            )
                + " (likely the AV1 encode component is not available — Arc / Meteor Lake + required)"@,
        }
    }

    /// The error in words.
    pub fn message(&self) -> (s: String)
        ensures
            s@ == self.text(),
    {
        let mut out: String = String::new();
        match self {
            QsvPlanError::UnsupportedFormat { format } => {
                out.append("QSV takes 4:2:0 at 8 or 10 bits, not ");
                out.append(format.name());
            },
            QsvPlanError::CreateSession { adapter, status } => {
                out.append("MFXCreateSession failed on adapter ");
                push_dec(&mut out, *adapter as u128);
                out.append(": ");
                push_dec_int(&mut out, *status as i64);
                out.append(" (no Intel HW implementation for this codec on that card?)");
            },
            QsvPlanError::InitAny { status } => {
                out.append("MFXInit(HARDWARE_ANY) failed: ");
                push_dec_int(&mut out, *status as i64);
                out.append(" (no Intel HW implementation for this codec on any card?)");
            },
            QsvPlanError::InitFailed { status } => {
                out.append("MFXVideoENCODE_Init failed: ");
                push_dec_int(&mut out, *status as i64);
                out.append(
                    " (likely the AV1 encode component is not available — Arc / Meteor Lake + required)",
                );
            },
        }
        assert(out@ =~= self.text());
        out
    }
}

/// The surface format of a pixel format.
pub open spec fn surface_fourcc(f: PixelFormat) -> Option<u32> {
    match f {
        PixelFormat::Yuv420p => Some(MFX_FOURCC_NV12),
        PixelFormat::Yuv420p10le => Some(MFX_FOURCC_P010),
        _ => None,
    }
}

/// The surface format of a pixel format.
pub fn qsv_fourcc_for(f: PixelFormat) -> (r: Result<u32, QsvPlanError>)
    ensures
        match surface_fourcc(f) {
            Some(v) => r == Ok::<u32, QsvPlanError>(v),
            None => r == Err::<u32, QsvPlanError>(QsvPlanError::UnsupportedFormat { format: f }),
        },
{
    match f {
        PixelFormat::Yuv420p => Ok(MFX_FOURCC_NV12),
        PixelFormat::Yuv420p10le => Ok(MFX_FOURCC_P010),
        _ => Err(QsvPlanError::UnsupportedFormat { format: f }),
    }
}

/// Luma depth, chroma depth, and whether samples sit in the upper bits.
pub fn qsv_bit_depth_triple(f: PixelFormat) -> (t: (u16, u16, u16))
    ensures
        t == (if f.is_ten_bit() {
            (10u16, 10u16, 1u16)
        } else {
            (8u16, 8u16, 0u16)
        }),
{
    match f {
        PixelFormat::Yuv420p10le => (10, 10, 1),
        _ => (8, 8, 0),
    }
}

/// Codec and profile codes.
pub open spec fn codec_ids(codec: VideoCodec, f: PixelFormat) -> (u32, u16) {
    match codec {
        VideoCodec::Av1 => (MFX_CODEC_AV1, MFX_PROFILE_AV1_MAIN),
        VideoCodec::H264 => (MFX_CODEC_AVC, MFX_PROFILE_AVC_HIGH),
        VideoCodec::H265 => if f.is_ten_bit() {
            (MFX_CODEC_HEVC, MFX_PROFILE_HEVC_MAIN10)
        } else {
            (MFX_CODEC_HEVC, MFX_PROFILE_HEVC_MAIN)
        },
    }
}

/// Codec and profile codes.
pub fn qsv_codec_ids(codec: VideoCodec, f: PixelFormat) -> (r: (u32, u16))
    ensures
        r == codec_ids(codec, f),
{
    match codec {
        VideoCodec::Av1 => (MFX_CODEC_AV1, MFX_PROFILE_AV1_MAIN),
        VideoCodec::H264 => (MFX_CODEC_AVC, MFX_PROFILE_AVC_HIGH),
        VideoCodec::H265 => if f == PixelFormat::Yuv420p10le {
            (MFX_CODEC_HEVC, MFX_PROFILE_HEVC_MAIN10)
        } else {
            (MFX_CODEC_HEVC, MFX_PROFILE_HEVC_MAIN)
        },
    }
}

/// The quality/speed balance, within the API's 1..=7.
pub fn clamp_target_usage(v: u16) -> (r: u16)
    ensures
        r == rate::clamp_int(v as int, 1, 7),
{
    if v < 1 {
        1
    } else if v > 7 {
        7
    } else {
        v
    }
}

/// The three slots that every rate-control mode shares.
#[derive(Debug, Clone, Copy, PartialEq, Eq, Structural)]
pub struct RateSlots {
    pub slot0_qpi_or_delay: u16,
    pub slot1_qpp_or_kbps_or_icq: u16,
    pub slot2_qpb_or_maxkbps: u16,
}

/// What each mode reads where: constant QP reads the intra quantiser in the
/// first slot and the inter one in the other two, ICQ its level in the second.
pub open spec fn rate_slots(rc: QsvRateControl, qp_i: u16, qp_p: u16, icq: u16) -> RateSlots {
    match rc {
        QsvRateControl::Cqp => RateSlots {
            slot0_qpi_or_delay: qp_i,
            slot1_qpp_or_kbps_or_icq: qp_p,
            slot2_qpb_or_maxkbps: qp_p,
        },
        QsvRateControl::Icq => RateSlots {
            slot0_qpi_or_delay: 0,
            slot1_qpp_or_kbps_or_icq: icq,
            slot2_qpb_or_maxkbps: 0,
        },
    }
}

/// Lay quantisers out for a rate-control mode.
pub fn rate_slots_for_rc(rc: QsvRateControl, qp_i: u16, qp_p: u16, icq: u16) -> (s: RateSlots)
    ensures
        s == rate_slots(rc, qp_i, qp_p, icq),
{
    match rc {
        QsvRateControl::Cqp => RateSlots {
            slot0_qpi_or_delay: qp_i,
            slot1_qpp_or_kbps_or_icq: qp_p,
            slot2_qpb_or_maxkbps: qp_p,
        },
        QsvRateControl::Icq => RateSlots {
            slot0_qpi_or_delay: 0,
            slot1_qpp_or_kbps_or_icq: icq,
            slot2_qpb_or_maxkbps: 0,
        },
    }
}

/// A CRF on the ICQ scale 1..=51. H.264 and H.265 are on it already; AV1's
/// 0..=63 is scaled onto it.
pub open spec fn icq_of_crf(codec: VideoCodec, crf: u8) -> int {
    match codec {
        VideoCodec::Av1 => rate::clamp_int(
            rate::round_div(rate::min_int(crf as int, 63) * 51, 63),
            1,
            51,
        ),
        _ => rate::clamp_int(crf as int, 1, 51),
    }
}

/// A CRF on the ICQ scale.
pub fn crf_to_icq(codec: VideoCodec, crf: u8) -> (icq: u16)
    ensures
        icq == icq_of_crf(codec, crf),
{
    match codec {
        VideoCodec::Av1 => {
            let c: u16 = if crf > 63 {
                63
            } else {
                crf as u16
            };
            let v: u16 = (2 * (c * 51) + 63) / 126;
            if v < 1 {
                1
            } else if v > 51 {
                51
            } else {
                v
            }
        },
        _ => if crf < 1 {
            1
        } else if crf > 51 {
            51
        } else {
            crf as u16
        },
    }
}

/// A CRF as a quantiser: 0..=51 for H.264 and H.265, four times the 0..=63
/// level for AV1.
pub open spec fn qp_of_crf(codec: VideoCodec, crf: u8) -> int {
    match codec {
        VideoCodec::Av1 => rate::min_int(crf as int, 63) * 4,
        _ => rate::min_int(crf as int, 51),
    }
}

/// A CRF as a quantiser.
pub fn crf_to_qp(codec: VideoCodec, crf: u8) -> (qp: u16)
    ensures
        qp == qp_of_crf(codec, crf),
{
    match codec {
        VideoCodec::Av1 => {
            let c: u16 = if crf > 63 {
                63
            } else {
                crf as u16
            };
            c * 4
        },
        _ => if crf > 51 {
            51
        } else {
            crf as u16
        },
    }
}

/// The quantiser of inter pictures: one step coarser, within the codec's range.
pub open spec fn inter_of(codec: VideoCodec, qp: u16) -> int {
    match codec {
        VideoCodec::Av1 => rate::min_int(qp + 8, 255),
        _ => rate::min_int(qp + 2, 51),
    }
}

/// The quantiser of inter pictures.
pub fn inter_qp(codec: VideoCodec, qp: u16) -> (r: u16)
    ensures
        r == inter_of(codec, qp),
{
    match codec {
        VideoCodec::Av1 => if qp > 247 {
            255
        } else {
            qp + 8
        },
        _ => if qp > 49 {
            51
        } else {
            qp + 2
        },
    }
}

/// A higher CRF never asks for more quality: on either scale the order of
/// CRFs is kept.
pub proof fn crf_is_monotonic(codec: VideoCodec, a: u8, b: u8)
    requires
        a <= b,
    ensures
        icq_of_crf(codec, a) <= icq_of_crf(codec, b),
        qp_of_crf(codec, a) <= qp_of_crf(codec, b),
{
    let x = rate::min_int(a as int, 63);
    let y = rate::min_int(b as int, 63);
    assert((102 * x + 63) / 126 <= (102 * y + 63) / 126);
    assert(rate::round_div(x * 51, 63) == (102 * x + 63) / 126);
    assert(rate::round_div(y * 51, 63) == (102 * y + 63) / 126);
}

/// Inter pictures are never finer than intra ones, as long as the intra
/// quantiser is on the codec's scale.
pub proof fn inter_is_never_finer(codec: VideoCodec, crf: u8)
    ensures
        inter_of(codec, qp_of_crf(codec, crf) as u16) >= qp_of_crf(codec, crf),
{
}

/// Whether `r` is `v` rounded up to a multiple of `a`.
pub open spec fn is_aligned_up(v: int, a: int, r: int) -> bool {
    &&& r % a == 0
    &&& v <= r < v + a
}

/// The multiple of `a` that `v` is rounded up to.
pub open spec fn aligned_up(v: int, a: int) -> int {
    ((v + a - 1) / a) * a
}

/// `v` rounded up to a multiple of `a`.
pub fn align_up(v: u32, a: u32) -> (r: u32)
    requires
        a > 0,
        v + a - 1 <= u32::MAX,
    ensures
        r == aligned_up(v as int, a as int),
        is_aligned_up(v as int, a as int, r as int),
{
    let t: u32 = v + (a - 1);
    let q: u32 = t / a;
    proof {
        vstd::arithmetic::div_mod::lemma_fundamental_div_mod(t as int, a as int);
        assert(q * a == a * q) by (nonlinear_arith);
        vstd::arithmetic::div_mod::lemma_mod_multiples_basic(q as int, a as int);
    }
    q * a
}

/// Rounding up by masking is rounding up, where the unit is a power of two.
pub proof fn masking_aligns(v: u32)
    requires
        v <= u32::MAX - 63,
    ensures
        (((v + 15) as u32) & !15u32) == aligned_up(v as int, 16),
        (((v + 63) as u32) & !63u32) == aligned_up(v as int, 64),
{
    let p = (v + 15) as u32;
    let q = (v + 63) as u32;
    assert(p & !15u32 == (p / 16) * 16) by (bit_vector);
    assert(q & !63u32 == (q / 64) * 64) by (bit_vector);
}

/// A picture's shape as the runtime takes it.
#[derive(Debug, Clone, Copy, PartialEq, Eq, Structural)]
pub struct MfxFrameInfo {
    pub bit_depth_luma: u16,
    pub bit_depth_chroma: u16,
    pub shift: u16,
    pub fourcc: u32,
    pub width: u16,
    pub height: u16,
    pub crop_x: u16,
    pub crop_y: u16,
    pub crop_w: u16,
    pub crop_h: u16,
    pub frame_rate_ext_n: u32,
    pub frame_rate_ext_d: u32,
    pub aspect_ratio_w: u16,
    pub aspect_ratio_h: u16,
    pub pic_struct: u16,
    pub chroma_format: u16,
}

/// Codec settings as the runtime takes them.
#[derive(Debug, Clone, Copy, PartialEq, Eq, Structural)]
pub struct MfxInfoMfx {
    pub low_power: u16,
    pub brc_param_multiplier: u16,
    pub frame_info: MfxFrameInfo,
    pub codec_id: u32,
    pub codec_profile: u16,
    pub codec_level: u16,
    pub num_thread: u16,
    pub target_usage: u16,
    pub gop_pic_size: u16,
    pub gop_ref_dist: u16,
    pub gop_opt_flag: u16,
    pub idr_interval: u16,
    pub rate_control_method: u16,
    pub qpi_or_delay: u16,
    pub buffer_size_kb: u16,
    pub qpp_or_kbps_or_icq: u16,
    pub qpb_or_maxkbps: u16,
    pub num_slice: u16,
    pub num_ref_frame: u16,
    pub encoded_order: u16,
}

/// The tile grid of an AV1 stream.
#[derive(Debug, Clone, Copy, PartialEq, Eq, Structural)]
pub struct TileParam {
    pub num_tile_rows: u16,
    pub num_tile_columns: u16,
    pub num_tile_groups: u16,
}

/// Colour signalling of a stream.
#[derive(Debug, Clone, Copy, PartialEq, Eq, Structural)]
pub struct SignalInfo {
    pub video_format: u16,
    pub video_full_range: u16,
    pub colour_description_present: u16,
    pub colour_primaries: u16,
    pub transfer_characteristics: u16,
    pub matrix_coefficients: u16,
}

/// The depth a ten-bit stream is coded at.
#[derive(Debug, Clone, Copy, PartialEq, Eq, Structural)]
pub struct CodingOption3 {
    pub target_chroma_format_plus1: u16,
    pub target_bit_depth_luma: u16,
    pub target_bit_depth_chroma: u16,
}

/// Everything a session is initialised with. The attached buffers are handed
/// over in the order tiles, signal info, coding options, each where present.
#[derive(Debug, Clone, Copy, PartialEq, Eq, Structural)]
pub struct MfxVideoParam {
    pub async_depth: u16,
    pub mfx: MfxInfoMfx,
    pub io_pattern: u16,
    pub tiles: Option<TileParam>,
    pub signal_info: Option<SignalInfo>,
    pub coding_option3: Option<CodingOption3>,
}

/// A shape with every field zero.
pub open spec fn zeroed_shape() -> MfxFrameInfo {
    MfxFrameInfo {
        bit_depth_luma: 0,
        bit_depth_chroma: 0,
        shift: 0,
        fourcc: 0,
        width: 0,
        height: 0,
        crop_x: 0,
        crop_y: 0,
        crop_w: 0,
        crop_h: 0,
        frame_rate_ext_n: 0,
        frame_rate_ext_d: 0,
        aspect_ratio_w: 0,
        aspect_ratio_h: 0,
        pic_struct: 0,
        chroma_format: 0,
    }
}

/// Parameters with every field zero and nothing attached.
pub open spec fn zeroed() -> MfxVideoParam {
    MfxVideoParam {
        async_depth: 0,
        mfx: MfxInfoMfx {
            low_power: 0,
            brc_param_multiplier: 0,
            frame_info: zeroed_shape(),
            codec_id: 0,
            codec_profile: 0,
            codec_level: 0,
            num_thread: 0,
            target_usage: 0,
            gop_pic_size: 0,
            gop_ref_dist: 0,
            gop_opt_flag: 0,
            idr_interval: 0,
            rate_control_method: 0,
            qpi_or_delay: 0,
            buffer_size_kb: 0,
            qpp_or_kbps_or_icq: 0,
            qpb_or_maxkbps: 0,
            num_slice: 0,
            num_ref_frame: 0,
            encoded_order: 0,
        },
        io_pattern: 0,
        tiles: None,
        signal_info: None,
        coding_option3: None,
    }
}

/// Parameters with every field zero and nothing attached, for the runtime to
/// write its adjustments into.
pub fn zeroed_video_param() -> (p: MfxVideoParam)
    ensures
        p == zeroed(),
{
    let frame_info: MfxFrameInfo = MfxFrameInfo {
        bit_depth_luma: 0,
        bit_depth_chroma: 0,
        shift: 0,
        fourcc: 0,
        width: 0,
        height: 0,
        crop_x: 0,
        crop_y: 0,
        crop_w: 0,
        crop_h: 0,
        frame_rate_ext_n: 0,
        frame_rate_ext_d: 0,
        aspect_ratio_w: 0,
        aspect_ratio_h: 0,
        pic_struct: 0,
        chroma_format: 0,
    };
    MfxVideoParam {
        async_depth: 0,
        mfx: MfxInfoMfx {
            low_power: 0,
            brc_param_multiplier: 0,
            frame_info,
            codec_id: 0,
            codec_profile: 0,
            codec_level: 0,
            num_thread: 0,
            target_usage: 0,
            gop_pic_size: 0,
            gop_ref_dist: 0,
            gop_opt_flag: 0,
            idr_interval: 0,
            rate_control_method: 0,
            qpi_or_delay: 0,
            buffer_size_kb: 0,
            qpp_or_kbps_or_icq: 0,
            qpb_or_maxkbps: 0,
            num_slice: 0,
            num_ref_frame: 0,
            encoded_order: 0,
        },
        io_pattern: 0,
        tiles: None,
        signal_info: None,
        coding_option3: None,
    }
}

/// Colour signalling for a picture's colour.
pub open spec fn signal_info_of(cm: ColorMetadata) -> SignalInfo {
    SignalInfo {
        video_format: VIDEO_FORMAT_UNSPECIFIED,
        video_full_range: if cm.full_range {
            1
        } else {
            0
        },
        colour_description_present: 1,
        colour_primaries: cm.colour_primaries as u16,
        transfer_characteristics: cm.transfer.h273() as u16,
        matrix_coefficients: cm.matrix_coefficients as u16,
    }
}

/// Colour signalling for a picture's colour, always explicit.
pub fn signal_info_for(cm: &ColorMetadata) -> (s: SignalInfo)
    ensures
        s == signal_info_of(*cm),
{
    SignalInfo {
        video_format: VIDEO_FORMAT_UNSPECIFIED,
        video_full_range: if cm.full_range {
            1
        } else {
            0
        },
        colour_description_present: 1,
        colour_primaries: cm.colour_primaries as u16,
        transfer_characteristics: transfer_to_h273(cm.transfer) as u16,
        matrix_coefficients: cm.matrix_coefficients as u16,
    }
}

/// The coding options of a ten-bit stream.
pub fn coding_option3_ten_bit() -> (c: CodingOption3)
    ensures
        c == (CodingOption3 {
            target_chroma_format_plus1: MFX_TARGET_CHROMAFORMAT_YUV420_PLUS1,
            target_bit_depth_luma: 10,
            target_bit_depth_chroma: 10,
        }),
{
    CodingOption3 {
        target_chroma_format_plus1: MFX_TARGET_CHROMAFORMAT_YUV420_PLUS1,
        target_bit_depth_luma: 10,
        target_bit_depth_chroma: 10,
    }
}

/// The rate-control mode that is really used: constant QP where the caller or
/// the tuning row asks for it.
pub open spec fn effective_rc(c: EncoderConfig, tp: QsvParams) -> QsvRateControl {
    if c.constant_qp || tp.rc_mode == QsvRateControl::Cqp {
        QsvRateControl::Cqp
    } else {
        QsvRateControl::Icq
    }
}

/// The slots of the mode that is really used, from the caller's CRF or the
/// tuning row.
pub open spec fn effective_slots(c: EncoderConfig, tp: QsvParams) -> RateSlots {
    let auto = c.quality == AUTO_FROM_TARGET;
    match effective_rc(c, tp) {
        QsvRateControl::Cqp => {
            let qp_i = if auto {
                tp.qp_i
            } else {
                qp_of_crf(c.codec, c.quality) as u16
            };
            let qp_p = if auto {
                tp.qp_p
            } else {
                inter_of(c.codec, qp_of_crf(c.codec, c.quality) as u16) as u16
            };
            rate_slots(QsvRateControl::Cqp, qp_i, qp_p, 0)
        },
        QsvRateControl::Icq => rate_slots(
            QsvRateControl::Icq,
            0,
            0,
            if auto {
                tp.icq_quality
            } else {
                icq_of_crf(c.codec, c.quality) as u16
            },
        ),
    }
}

/// A picture extent cut to the sixteen bits the runtime's structure has.
pub open spec fn cut16(v: u32) -> int {
    v as int % 65536
}

/// The picture's shape, field by field.
pub open spec fn shaped(c: EncoderConfig, fourcc: u32, fi: MfxFrameInfo) -> bool {
    &&& (fi.bit_depth_luma, fi.bit_depth_chroma, fi.shift) == (if c.pixel_format.is_ten_bit() {
        (10u16, 10u16, 1u16)
    } else {
        (8u16, 8u16, 0u16)
    })
    &&& fi.fourcc == fourcc
    &&& fi.width == aligned_up(cut16(c.width), 16)
    &&& fi.height == aligned_up(cut16(c.height), 16)
    &&& fi.crop_x == 0
    &&& fi.crop_y == 0
    &&& fi.crop_w == cut16(c.width)
    &&& fi.crop_h == cut16(c.height)
    &&& fi.frame_rate_ext_n == rate::min_int(c.frame_rate.millis(), u32::MAX as int)
    &&& fi.frame_rate_ext_d == 1000
    &&& fi.aspect_ratio_w == 1
    &&& fi.aspect_ratio_h == 1
    &&& fi.pic_struct == MFX_PICSTRUCT_PROGRESSIVE
    &&& fi.chroma_format == MFX_CHROMAFORMAT_YUV420
}

/// The session's parameters, field by field.
pub open spec fn parametrised(
    c: EncoderConfig,
    tp: QsvParams,
    fourcc: u32,
    p: MfxVideoParam,
) -> bool {
    let m = p.mfx;
    &&& shaped(c, fourcc, m.frame_info)
    &&& m.low_power == tp.low_power
    &&& m.brc_param_multiplier == 0
    &&& (m.codec_id, m.codec_profile) == codec_ids(c.codec, c.pixel_format)
    &&& m.codec_level == 0
    &&& m.num_thread == 0
    &&& m.target_usage == rate::clamp_int(tp.target_usage as int, 1, 7)
    &&& m.gop_pic_size == cut16(c.keyframe_interval)
    &&& m.gop_ref_dist == 1
    &&& m.gop_opt_flag == 0
    &&& m.idr_interval == 0
    &&& m.rate_control_method == (match effective_rc(c, tp) {
        QsvRateControl::Cqp => MFX_RATECONTROL_CQP,
        QsvRateControl::Icq => MFX_RATECONTROL_ICQ,
    })
    &&& m.qpi_or_delay == effective_slots(c, tp).slot0_qpi_or_delay
    &&& m.buffer_size_kb == 0
    &&& m.qpp_or_kbps_or_icq == effective_slots(c, tp).slot1_qpp_or_kbps_or_icq
    &&& m.qpb_or_maxkbps == effective_slots(c, tp).slot2_qpb_or_maxkbps
    &&& m.num_slice == 0
    &&& m.num_ref_frame == 1
    &&& m.encoded_order == 0
    &&& p.async_depth == ASYNC_DEPTH
    &&& p.io_pattern == MFX_IOPATTERN_IN_SYSTEM_MEMORY
    &&& p.tiles == (if c.codec == VideoCodec::Av1 {
        Some(
            TileParam {
                num_tile_rows: tp.num_tile_rows as u16,
                num_tile_columns: tp.num_tile_columns as u16,
                num_tile_groups: 1,
            },
        )
    } else {
        None
    })
    &&& p.signal_info == Some(signal_info_of(c.color_metadata))
    &&& p.coding_option3 == (if c.pixel_format.is_ten_bit() {
        Some(
            CodingOption3 {
                target_chroma_format_plus1: MFX_TARGET_CHROMAFORMAT_YUV420_PLUS1,
                target_bit_depth_luma: 10,
                target_bit_depth_chroma: 10,
            },
        )
    } else {
        None
    })
}

fn plan_slots(c: &EncoderConfig, tp: &QsvParams) -> (r: (u16, RateSlots))
    ensures
        r.0 == (match effective_rc(*c, *tp) {
            QsvRateControl::Cqp => MFX_RATECONTROL_CQP,
            QsvRateControl::Icq => MFX_RATECONTROL_ICQ,
        }),
        r.1 == effective_slots(*c, *tp),
{
    let auto: bool = c.quality == AUTO_FROM_TARGET;
    if c.constant_qp || tp.rc_mode == QsvRateControl::Cqp {
        let qp_i: u16 = if auto {
            tp.qp_i
        } else {
            crf_to_qp(c.codec, c.quality)
        };
        let qp_p: u16 = if auto {
            tp.qp_p
        } else {
            inter_qp(c.codec, qp_i)
        };
        (MFX_RATECONTROL_CQP, rate_slots_for_rc(QsvRateControl::Cqp, qp_i, qp_p, 0))
    } else {
        let icq: u16 = if auto {
            tp.icq_quality
        } else {
            crf_to_icq(c.codec, c.quality)
        };
        (MFX_RATECONTROL_ICQ, rate_slots_for_rc(QsvRateControl::Icq, 0, 0, icq))
    }
}

/// Whether the sixteen-bit extents leave room to round up.
pub open spec fn extents_fit(c: EncoderConfig) -> bool {
    cut16(c.width) <= 65520 && cut16(c.height) <= 65520
}

/// What to initialise a session with. Only an input format without a surface
/// format is refused.
pub fn build_video_param(c: &EncoderConfig, tp: &QsvParams) -> (r: Result<
    MfxVideoParam,
    QsvPlanError,
>)
    requires
        extents_fit(*c),
    ensures
        match surface_fourcc(c.pixel_format) {
            Some(fourcc) => r matches Ok(p) && parametrised(*c, *tp, fourcc, p),
            None => r == Err::<MfxVideoParam, QsvPlanError>(
                QsvPlanError::UnsupportedFormat { format: c.pixel_format },
            ),
        },
{
    let fourcc: u32 = match qsv_fourcc_for(c.pixel_format) {
        Ok(f) => f,
        Err(e) => return Err(e),
    };
    let depth: (u16, u16, u16) = qsv_bit_depth_triple(c.pixel_format);
    let rated: (u16, RateSlots) = plan_slots(c, tp);
    let w: u32 = c.width % 65536;
    let h: u32 = c.height % 65536;
    let millis: u64 = c.frame_rate.to_millis();
    let n: u32 = if millis > 0xffff_ffff {
        0xffff_ffff
    } else {
        millis as u32
    };
    let aw: u32 = align_up(w, 16);
    let ah: u32 = align_up(h, 16);
    assert(aw <= 65520 && ah <= 65520);
    let frame_info: MfxFrameInfo = MfxFrameInfo {
        bit_depth_luma: depth.0,
        bit_depth_chroma: depth.1,
        shift: depth.2,
        fourcc,
        width: aw as u16,
        height: ah as u16,
        crop_x: 0,
        crop_y: 0,
        crop_w: w as u16,
        crop_h: h as u16,
        frame_rate_ext_n: n,
        frame_rate_ext_d: 1000,
        aspect_ratio_w: 1,
        aspect_ratio_h: 1,
        pic_struct: MFX_PICSTRUCT_PROGRESSIVE,
        chroma_format: MFX_CHROMAFORMAT_YUV420,
    };
    let ids: (u32, u16) = qsv_codec_ids(c.codec, c.pixel_format);
    let mfx: MfxInfoMfx = MfxInfoMfx {
        low_power: tp.low_power,
        brc_param_multiplier: 0,
        frame_info,
        codec_id: ids.0,
        codec_profile: ids.1,
        codec_level: 0,
        num_thread: 0,
        target_usage: clamp_target_usage(tp.target_usage),
        gop_pic_size: (c.keyframe_interval % 65536) as u16,
        gop_ref_dist: 1,
        gop_opt_flag: 0,
        idr_interval: 0,
        rate_control_method: rated.0,
        qpi_or_delay: rated.1.slot0_qpi_or_delay,
        buffer_size_kb: 0,
        qpp_or_kbps_or_icq: rated.1.slot1_qpp_or_kbps_or_icq,
        qpb_or_maxkbps: rated.1.slot2_qpb_or_maxkbps,
        num_slice: 0,
        num_ref_frame: 1,
        encoded_order: 0,
    };
    let tiles: Option<TileParam> = if c.codec == VideoCodec::Av1 {
        Some(
            TileParam {
                num_tile_rows: tp.num_tile_rows as u16,
                num_tile_columns: tp.num_tile_columns as u16,
                num_tile_groups: 1,
            },
        )
    } else {
        None
    };
    let coding_option3: Option<CodingOption3> = if c.pixel_format == PixelFormat::Yuv420p10le {
        Some(coding_option3_ten_bit())
    } else {
        None
    };
    Ok(
        MfxVideoParam {
            async_depth: ASYNC_DEPTH as u16,
            mfx,
            io_pattern: MFX_IOPATTERN_IN_SYSTEM_MEMORY,
            tiles,
            signal_info: Some(signal_info_for(&c.color_metadata)),
            coding_option3,
        },
    )
}

/// A mode never reads a slot that was written for the other: under constant QP
/// the first slot is the intra quantiser, under ICQ it is zero and the level
/// is in the second.
pub proof fn slots_match_the_mode(c: EncoderConfig, tp: QsvParams, fourcc: u32, p: MfxVideoParam)
    requires
        parametrised(c, tp, fourcc, p),
    ensures
        p.mfx.rate_control_method == MFX_RATECONTROL_ICQ ==> p.mfx.qpi_or_delay == 0
            && p.mfx.qpb_or_maxkbps == 0,
        p.mfx.rate_control_method == MFX_RATECONTROL_CQP ==> p.mfx.qpp_or_kbps_or_icq
            == p.mfx.qpb_or_maxkbps,
        c.quality != AUTO_FROM_TARGET && p.mfx.rate_control_method == MFX_RATECONTROL_CQP
            ==> p.mfx.qpi_or_delay == qp_of_crf(c.codec, c.quality),
        c.quality != AUTO_FROM_TARGET && p.mfx.rate_control_method == MFX_RATECONTROL_ICQ
            ==> p.mfx.qpp_or_kbps_or_icq == icq_of_crf(c.codec, c.quality),
{
}

/// What the runtime's answer to a query means.
#[derive(Debug, Clone, Copy, PartialEq, Eq, Structural)]
pub enum QueryVerdict {
    /// The parameters stand.
    Accepted,
    /// The runtime adjusted them.
    Rewritten,
    /// They stand, but some stages run on the processor.
    Partial,
    /// The query refused them; initialising is what decides.
    Refused,
}

/// What the runtime's answer to a query means.
pub open spec fn meaning_of(status: i32) -> QueryVerdict {
    if status == MFX_ERR_NONE {
        QueryVerdict::Accepted
    } else if status == MFX_WRN_INCOMPATIBLE_VIDEO_PARAM || status == MFX_WRN_VIDEO_PARAM_CHANGED {
        QueryVerdict::Rewritten
    } else if status == MFX_WRN_PARTIAL_ACCELERATION {
        QueryVerdict::Partial
    } else {
        QueryVerdict::Refused
    }
}

/// The parameters to initialise with, after the runtime was queried.
pub open spec fn after_query(
    p: MfxVideoParam,
    status: i32,
    out: MfxVideoParam,
) -> MfxVideoParam {
    if meaning_of(status) == QueryVerdict::Rewritten {
        adjusted(p, out)
    } else {
        p
    }
}

/// What the runtime's answer to a query means.
pub fn query_verdict(status: i32) -> (v: QueryVerdict)
    ensures
        v == (if status == MFX_ERR_NONE {
            QueryVerdict::Accepted
        } else if status == MFX_WRN_INCOMPATIBLE_VIDEO_PARAM || status
            == MFX_WRN_VIDEO_PARAM_CHANGED {
            QueryVerdict::Rewritten
        } else if status == MFX_WRN_PARTIAL_ACCELERATION {
            QueryVerdict::Partial
        } else {
            QueryVerdict::Refused
        }),
        v == meaning_of(status),
{
    if status == MFX_ERR_NONE {
        QueryVerdict::Accepted
    } else if status == MFX_WRN_INCOMPATIBLE_VIDEO_PARAM || status == MFX_WRN_VIDEO_PARAM_CHANGED {
        QueryVerdict::Rewritten
    } else if status == MFX_WRN_PARTIAL_ACCELERATION {
        QueryVerdict::Partial
    } else {
        QueryVerdict::Refused
    }
}

/// `ours` unless the runtime wrote something over it.
pub open spec fn or_ours(theirs: int, ours: int) -> int {
    if theirs != 0 {
        theirs
    } else {
        ours
    }
}

/// The parameters after the runtime's adjustments: what it wrote replaces what
/// was asked for, in the eight fields it may adjust.
pub open spec fn adjusted(p: MfxVideoParam, out: MfxVideoParam) -> MfxVideoParam {
    let f = p.mfx.frame_info;
    let g = out.mfx.frame_info;
    MfxVideoParam {
        mfx: MfxInfoMfx {
            frame_info: MfxFrameInfo {
                width: or_ours(g.width as int, f.width as int) as u16,
                height: or_ours(g.height as int, f.height as int) as u16,
                fourcc: or_ours(g.fourcc as int, f.fourcc as int) as u32,
                chroma_format: or_ours(g.chroma_format as int, f.chroma_format as int) as u16,
                ..f
            },
            rate_control_method: or_ours(
                out.mfx.rate_control_method as int,
                p.mfx.rate_control_method as int,
            ) as u16,
            target_usage: or_ours(
                out.mfx.target_usage as int,
                p.mfx.target_usage as int,
            ) as u16,
            codec_profile: or_ours(
                out.mfx.codec_profile as int,
                p.mfx.codec_profile as int,
            ) as u16,
            codec_level: or_ours(out.mfx.codec_level as int, p.mfx.codec_level as int) as u16,
            ..p.mfx
        },
        ..p
    }
}

/// The parameters to initialise with, after the runtime was queried.
pub fn apply_query(p: MfxVideoParam, status: i32, out: &MfxVideoParam) -> (r: MfxVideoParam)
    ensures
        status == MFX_WRN_INCOMPATIBLE_VIDEO_PARAM || status == MFX_WRN_VIDEO_PARAM_CHANGED ==> r
            == adjusted(p, *out),
        status != MFX_WRN_INCOMPATIBLE_VIDEO_PARAM && status != MFX_WRN_VIDEO_PARAM_CHANGED ==> r
            == p,
        r == after_query(p, status, *out),
{
    let mut r: MfxVideoParam = p;
    match query_verdict(status) {
        QueryVerdict::Rewritten => {
            if out.mfx.frame_info.width != 0 {
                r.mfx.frame_info.width = out.mfx.frame_info.width;
            }
            if out.mfx.frame_info.height != 0 {
                r.mfx.frame_info.height = out.mfx.frame_info.height;
            }
            if out.mfx.frame_info.fourcc != 0 {
                r.mfx.frame_info.fourcc = out.mfx.frame_info.fourcc;
            }
            if out.mfx.frame_info.chroma_format != 0 {
                r.mfx.frame_info.chroma_format = out.mfx.frame_info.chroma_format;
            }
            if out.mfx.rate_control_method != 0 {
                r.mfx.rate_control_method = out.mfx.rate_control_method;
            }
            if out.mfx.target_usage != 0 {
                r.mfx.target_usage = out.mfx.target_usage;
            }
            if out.mfx.codec_profile != 0 {
                r.mfx.codec_profile = out.mfx.codec_profile;
            }
            if out.mfx.codec_level != 0 {
                r.mfx.codec_level = out.mfx.codec_level;
            }
        },
        _ => {},
    }
    r
}

/// An adjustment never touches the quantisers, and a runtime that writes
/// nothing changes nothing.
pub proof fn adjusting_keeps_the_quantisers(p: MfxVideoParam, out: MfxVideoParam)
    ensures
        adjusted(p, out).mfx.qpi_or_delay == p.mfx.qpi_or_delay,
        adjusted(p, out).mfx.qpp_or_kbps_or_icq == p.mfx.qpp_or_kbps_or_icq,
        adjusted(p, out).mfx.qpb_or_maxkbps == p.mfx.qpb_or_maxkbps,
        out.mfx.frame_info.width == 0 && out.mfx.frame_info.height == 0
            && out.mfx.frame_info.fourcc == 0 && out.mfx.frame_info.chroma_format == 0
            && out.mfx.rate_control_method == 0 && out.mfx.target_usage == 0
            && out.mfx.codec_profile == 0 && out.mfx.codec_level == 0 ==> adjusted(p, out) == p,
{
}

/// Hold the answers to session creation: the dispatcher's on an adapter, or
/// the legacy entry point's where no card is named.
pub fn check_session(adapter: Option<u32>, status: i32, have_session: bool) -> (r: Result<
    (),
    QsvPlanError,
>)
    ensures
        r is Ok <==> status >= 0 && have_session,
        r matches Err(e) ==> e == (match adapter {
            Some(adapter) => QsvPlanError::CreateSession { adapter, status },
            None => QsvPlanError::InitAny { status },
        }),
{
    if status < 0 || !have_session {
        return Err(
            match adapter {
                Some(adapter) => QsvPlanError::CreateSession { adapter, status },
                None => QsvPlanError::InitAny { status },
            },
        );
    }
    Ok(())
}

/// Hold the answer to initialisation: an error refuses, a warning does not.
pub fn check_init(status: i32) -> (r: Result<(), QsvPlanError>)
    ensures
        r is Ok <==> status >= 0,
        r matches Err(e) ==> e == (QsvPlanError::InitFailed { status }),
{
    if status < 0 {
        Err(QsvPlanError::InitFailed { status })
    } else {
        Ok(())
    }
}

/// Parameter sets that a query has refused before, none of them twice.
pub struct QueryLog {
    seen: Vec<(u32, u16, u16)>,
}

impl View for QueryLog {
    type V = Set<(u32, u16, u16)>;

    closed spec fn view(&self) -> Set<(u32, u16, u16)> {
        self.seen@.to_set()
    }
}

impl QueryLog {
    /// Nothing refused yet.
    pub fn new() -> (l: Self)
        ensures
            l@ == Set::<(u32, u16, u16)>::empty(),
    {
        let l: QueryLog = QueryLog { seen: Vec::new() };
        assert(l@ =~= Set::<(u32, u16, u16)>::empty());
        l
    }

    /// Record that a query refused this codec, rate control and power mode;
    /// whether it is the first time.
    pub fn first_query_rejection(&mut self, codec: u32, rate_control: u16, low_power: u16) -> (r:
        bool)
        ensures
            r == !old(self)@.contains((codec, rate_control, low_power)),
            final(self)@ == old(self)@.insert((codec, rate_control, low_power)),
    {
        let ghost key = (codec, rate_control, low_power);
        let mut i: usize = 0;
        while i < self.seen.len()
            invariant
                i <= self.seen@.len(),
                key == (codec, rate_control, low_power),
                self.seen@ == old(self).seen@,
                forall|j: int| 0 <= j < i ==> #[trigger] self.seen@[j] != key,
            decreases self.seen@.len() - i,
        {
            let k: (u32, u16, u16) = self.seen[i];
            if k.0 == codec && k.1 == rate_control && k.2 == low_power {
                assert(self.seen@[i as int] == key);
                assert(self.seen@.to_set() =~= self.seen@.to_set().insert(key));
                return false;
            }
            i = i + 1;
        }
        assert(!self.seen@.contains(key));
        self.seen.push((codec, rate_control, low_power));
        assert(self.seen@ =~= old(self).seen@.push(key));
        assert(self.seen@.to_set() =~= old(self).seen@.to_set().insert(key)) by {
            assert forall|x: (u32, u16, u16)| self.seen@.to_set().contains(x) <==> old(
                self,
            ).seen@.to_set().insert(key).contains(x) by {
                if x == key {
                    assert(self.seen@[self.seen@.len() - 1] == key);
                } else {
                    if old(self).seen@.contains(x) {
                        let j = choose|j: int| 0 <= j < old(self).seen@.len() && old(self).seen@[j]
                            == x;
                        assert(self.seen@[j] == x);
                    }
                    if self.seen@.contains(x) {
                        let j = choose|j: int| 0 <= j < self.seen@.len() && self.seen@[j] == x;
                        assert(old(self).seen@[j] == x);
                    }
                }
            }
        }
        true
    }
}

/// Bytes from one surface row to the next.
pub open spec fn surface_pitch(c: EncoderConfig) -> int {
    aligned_up(
        c.width * (if c.pixel_format.is_ten_bit() {
            2int
        } else {
            1
        }),
        64,
    )
}

/// Rows of a surface's luma plane.
pub open spec fn surface_rows(c: EncoderConfig) -> int {
    aligned_up(c.height as int, 16)
}

/// A surface's shape.
#[derive(Debug, Clone, Copy, PartialEq, Eq, Structural)]
pub struct SurfaceShape {
    pub pitch: usize,
    pub rows: usize,
    pub luma_bytes: usize,
    pub bytes: usize,
    pub bitstream_capacity: usize,
}

/// Whether a surface of this picture fits in memory.
pub open spec fn surface_fits(c: EncoderConfig) -> bool {
    &&& c.width * (if c.pixel_format.is_ten_bit() {
        2int
    } else {
        1
    }) + 63 <= u32::MAX
    &&& c.height + 15 <= u32::MAX
    &&& surface_pitch(c) * surface_rows(c) * 3 <= usize::MAX
}

/// The shape of the session's surfaces: luma rows, then half as many rows of
/// interleaved chroma, at one pitch.
pub open spec fn shape_of(c: EncoderConfig, s: SurfaceShape) -> bool {
    &&& s.pitch == surface_pitch(c)
    &&& s.rows == surface_rows(c)
    &&& s.luma_bytes == surface_pitch(c) * surface_rows(c)
    &&& s.bytes == surface_pitch(c) * surface_rows(c) * 3 / 2
    &&& s.bitstream_capacity == rate::max_int(s.bytes as int, MIN_BITSTREAM_BYTES as int)
}

/// The shape of the session's surfaces.
pub fn surface_shape(c: &EncoderConfig) -> (s: SurfaceShape)
    requires
        surface_fits(*c),
    ensures
        shape_of(*c, s),
{
    let bps: u32 = if c.pixel_format == PixelFormat::Yuv420p10le {
        2
    } else {
        1
    };
    let pitch: u32 = align_up(c.width * bps, 64);
    let rows: u32 = align_up(c.height, 16);
    let ghost total = pitch * rows;
    proof {
        assert(0 <= pitch * rows) by (nonlinear_arith);
    }
    let p: usize = pitch as usize;
    let r: usize = rows as usize;
    let luma: usize = p * r;
    let bytes: usize = (luma * 3) / 2;
    SurfaceShape {
        pitch: p,
        rows: r,
        luma_bytes: luma,
        bytes,
        bitstream_capacity: if bytes < MIN_BITSTREAM_BYTES {
            MIN_BITSTREAM_BYTES
        } else {
            bytes
        },
    }
}

/// The neutral value of byte `i` of a surface: black luma, centred chroma. At
/// ten bits the words are 16 and 128 in the upper ten bits.
pub open spec fn neutral_byte(i: int, luma_bytes: int, ten_bit: bool) -> u8 {
    if ten_bit {
        if i % 2 == 0 {
            0
        } else if i < luma_bytes {
            4
        } else {
            32
        }
    } else if i < luma_bytes {
        16
    } else {
        128
    }
}

/// A surface of neutral black, so that padding a picture never reaches shows
/// as black.
pub fn neutral_surface(shape: &SurfaceShape, ten_bit: bool) -> (v: Vec<u8>)
    ensures
        v@ == Seq::new(
            shape.bytes as nat,
            |i: int| neutral_byte(i, shape.luma_bytes as int, ten_bit),
        ),
{
    let mut v: Vec<u8> = Vec::new();
    let mut i: usize = 0;
    while i < shape.bytes
        invariant
            i <= shape.bytes,
            v@.len() == i,
            forall|j: int|
                0 <= j < i ==> v@[j] == neutral_byte(j, shape.luma_bytes as int, ten_bit),
        decreases shape.bytes - i,
    {
        let b: u8 = if ten_bit {
            if i % 2 == 0 {
                0
            } else if i < shape.luma_bytes {
                4
            } else {
                32
            }
        } else if i < shape.luma_bytes {
            16
        } else {
            128
        };
        v.push(b);
        i = i + 1;
    }
    assert(v@ =~= Seq::new(
        shape.bytes as nat,
        |i: int| neutral_byte(i, shape.luma_bytes as int, ten_bit),
    ));
    v
}

/// The runtime codes at a constant quantiser wherever the caller or the tuning
/// row asks for one, and to a quality level in every other case.
pub proof fn a_constant_quantiser_is_what_the_runtime_reads(
    c: EncoderConfig,
    tp: QsvParams,
    fourcc: u32,
    p: MfxVideoParam,
)
    requires
        parametrised(c, tp, fourcc, p),
    ensures
        c.constant_qp ==> p.mfx.rate_control_method == MFX_RATECONTROL_CQP,
        tp.rc_mode == QsvRateControl::Cqp ==> p.mfx.rate_control_method == MFX_RATECONTROL_CQP,
        !c.constant_qp && tp.rc_mode == QsvRateControl::Icq ==> p.mfx.rate_control_method
            == MFX_RATECONTROL_ICQ,
        MFX_RATECONTROL_CQP != MFX_RATECONTROL_ICQ,
{
}

/// The constant quantiser is the caller's: for H.264 and H.265 the number
/// itself, 51 at most, and two steps more for predicted pictures; for AV1 four
/// times the number, which counts to 63, and eight steps more, 255 at most. The
/// row's stand where the caller names none.
pub proof fn a_constant_quantiser_is_the_callers(
    c: EncoderConfig,
    tp: QsvParams,
    fourcc: u32,
    p: MfxVideoParam,
)
    requires
        parametrised(c, tp, fourcc, p),
        c.constant_qp || tp.rc_mode == QsvRateControl::Cqp,
    ensures
        c.quality == 255 ==> p.mfx.qpi_or_delay == tp.qp_i && p.mfx.qpp_or_kbps_or_icq == tp.qp_p,
        c.codec == VideoCodec::Av1 && c.quality <= 63 ==> p.mfx.qpi_or_delay == 4 * c.quality,
        c.codec == VideoCodec::Av1 && 63 < c.quality < 255 ==> p.mfx.qpi_or_delay == 252,
        c.codec == VideoCodec::Av1 && c.quality <= 61 ==> p.mfx.qpp_or_kbps_or_icq
            == p.mfx.qpi_or_delay + 8,
        c.codec == VideoCodec::Av1 && 61 < c.quality < 255 ==> p.mfx.qpp_or_kbps_or_icq == 255,
        c.codec != VideoCodec::Av1 && c.quality <= 51 ==> p.mfx.qpi_or_delay == c.quality,
        c.codec != VideoCodec::Av1 && 51 < c.quality < 255 ==> p.mfx.qpi_or_delay == 51,
        c.codec != VideoCodec::Av1 && c.quality <= 49 ==> p.mfx.qpp_or_kbps_or_icq
            == p.mfx.qpi_or_delay + 2,
        c.codec != VideoCodec::Av1 && 49 < c.quality < 255 ==> p.mfx.qpp_or_kbps_or_icq == 51,
        p.mfx.qpb_or_maxkbps == p.mfx.qpp_or_kbps_or_icq,
{
}

/// The quality level is the caller's: for H.264 and H.265 the number itself
/// within 1 to 51, for AV1 the number, which counts to 63, scaled by 51 over 63
/// to the nearest, one at least. The row's stands where the caller names none.
pub proof fn a_quality_level_is_the_callers(
    c: EncoderConfig,
    tp: QsvParams,
    fourcc: u32,
    p: MfxVideoParam,
)
    requires
        parametrised(c, tp, fourcc, p),
        !c.constant_qp,
        tp.rc_mode == QsvRateControl::Icq,
    ensures
        c.quality == 255 ==> p.mfx.qpp_or_kbps_or_icq == tp.icq_quality,
        c.codec != VideoCodec::Av1 && 1 <= c.quality <= 51 ==> p.mfx.qpp_or_kbps_or_icq
            == c.quality,
        c.codec != VideoCodec::Av1 && c.quality == 0 ==> p.mfx.qpp_or_kbps_or_icq == 1,
        c.codec != VideoCodec::Av1 && 51 < c.quality < 255 ==> p.mfx.qpp_or_kbps_or_icq == 51,
        c.codec == VideoCodec::Av1 && c.quality == 0 ==> p.mfx.qpp_or_kbps_or_icq == 1,
        c.codec == VideoCodec::Av1 && 1 <= c.quality <= 63 ==> -63 < 2 * (63
            * p.mfx.qpp_or_kbps_or_icq - 51 * c.quality) <= 63,
        c.codec == VideoCodec::Av1 && 63 < c.quality < 255 ==> p.mfx.qpp_or_kbps_or_icq == 51,
        p.mfx.qpi_or_delay == 0,
        p.mfx.qpb_or_maxkbps == 0,
{
    rate::rounding_is_to_the_nearest(rate::min_int(c.quality as int, 63) * 51, 63);
}

/// The runtime is told the picture's shape: the size as the crop, rounded up to
/// whole blocks of sixteen as the coded size, the frame rate in thousandths to
/// the nearest, square pixels, progressive 4:2:0, and at ten bits samples that
/// sit in the upper bits.
pub proof fn the_shape_is_the_pictures(c: EncoderConfig, fourcc: u32, fi: MfxFrameInfo)
    requires
        shaped(c, fourcc, fi),
        surface_fourcc(c.pixel_format) == Some(fourcc),
        c.width <= 65520,
        c.height <= 65520,
    ensures
        fi.crop_x == 0 && fi.crop_y == 0,
        fi.crop_w == c.width && fi.crop_h == c.height,
        fi.width % 16 == 0 && c.width <= fi.width < c.width + 16,
        fi.height % 16 == 0 && c.height <= fi.height < c.height + 16,
        fi.frame_rate_ext_d == 1000,
        c.frame_rate.nanos <= 4_000_000_000_000_000 ==> -500_000 < fi.frame_rate_ext_n * 1_000_000
            - c.frame_rate.nanos <= 500_000,
        fi.aspect_ratio_w == 1 && fi.aspect_ratio_h == 1,
        fi.pic_struct == MFX_PICSTRUCT_PROGRESSIVE,
        fi.chroma_format == MFX_CHROMAFORMAT_YUV420,
        c.pixel_format == PixelFormat::Yuv420p || c.pixel_format == PixelFormat::Yuv420p10le,
        c.pixel_format == PixelFormat::Yuv420p ==> fi.fourcc == MFX_FOURCC_NV12 && fi.bit_depth_luma
            == 8 && fi.bit_depth_chroma == 8 && fi.shift == 0,
        c.pixel_format == PixelFormat::Yuv420p10le ==> fi.fourcc == MFX_FOURCC_P010
            && fi.bit_depth_luma == 10 && fi.bit_depth_chroma == 10 && fi.shift == 1,
{
    rate::rounded_rates_are_within_half_a_unit(c.frame_rate);
    rate::rounding_is_to_the_nearest(c.frame_rate.nanos as int, 1_000_000);
}

/// A stream is the caller's: codec and profile, the row's effort within 1 to 7
/// and its power mode, the keyframe interval, no B pictures and one reference;
/// an AV1 stream, and no other, is tiled as the row says.
pub proof fn the_session_is_the_callers(
    c: EncoderConfig,
    tp: QsvParams,
    fourcc: u32,
    p: MfxVideoParam,
)
    requires
        parametrised(c, tp, fourcc, p),
    ensures
        c.codec == VideoCodec::Av1 ==> p.mfx.codec_id == MFX_CODEC_AV1 && p.mfx.codec_profile
            == MFX_PROFILE_AV1_MAIN,
        c.codec == VideoCodec::H264 ==> p.mfx.codec_id == MFX_CODEC_AVC && p.mfx.codec_profile
            == MFX_PROFILE_AVC_HIGH,
        c.codec == VideoCodec::H265 ==> p.mfx.codec_id == MFX_CODEC_HEVC,
        c.codec == VideoCodec::H265 && c.pixel_format == PixelFormat::Yuv420p10le
            ==> p.mfx.codec_profile == MFX_PROFILE_HEVC_MAIN10,
        c.codec == VideoCodec::H265 && c.pixel_format != PixelFormat::Yuv420p10le
            ==> p.mfx.codec_profile == MFX_PROFILE_HEVC_MAIN,
        p.mfx.low_power == tp.low_power,
        1 <= tp.target_usage <= 7 ==> p.mfx.target_usage == tp.target_usage,
        tp.target_usage == 0 ==> p.mfx.target_usage == 1,
        tp.target_usage > 7 ==> p.mfx.target_usage == 7,
        c.keyframe_interval < 65536 ==> p.mfx.gop_pic_size == c.keyframe_interval,
        p.mfx.gop_ref_dist == 1,
        p.mfx.idr_interval == 0,
        p.mfx.num_ref_frame == 1,
        p.mfx.encoded_order == 0,
        p.async_depth == 4,
        p.io_pattern == MFX_IOPATTERN_IN_SYSTEM_MEMORY,
        p.tiles is Some <==> c.codec == VideoCodec::Av1,
        p.tiles matches Some(t) ==> t.num_tile_rows == tp.num_tile_rows && t.num_tile_columns
            == tp.num_tile_columns && t.num_tile_groups == 1,
{
}

/// What is not asked for is left to the runtime: no multiplier, level, thread
/// count, flags, buffer size or slice count is set.
pub proof fn the_rest_is_left_to_the_runtime(
    c: EncoderConfig,
    tp: QsvParams,
    fourcc: u32,
    p: MfxVideoParam,
)
    requires
        parametrised(c, tp, fourcc, p),
    ensures
        p.mfx.brc_param_multiplier == 0,
        p.mfx.codec_level == 0,
        p.mfx.num_thread == 0,
        p.mfx.gop_opt_flag == 0,
        p.mfx.buffer_size_kb == 0,
        p.mfx.num_slice == 0,
{
}

/// A stream says of its colour what the caller says, with a transfer that reads
/// back as the caller's; a ten-bit stream, and no other, is coded at ten bits.
pub proof fn the_stream_describes_the_callers_colour(
    c: EncoderConfig,
    tp: QsvParams,
    fourcc: u32,
    p: MfxVideoParam,
)
    requires
        parametrised(c, tp, fourcc, p),
    ensures
        p.signal_info matches Some(s) && ({
            let cm = c.color_metadata;
            &&& s.video_format == VIDEO_FORMAT_UNSPECIFIED
            &&& s.colour_description_present == 1
            &&& s.colour_primaries == cm.colour_primaries
            &&& s.matrix_coefficients == cm.matrix_coefficients
            &&& cm.full_range ==> s.video_full_range == 1
            &&& !cm.full_range ==> s.video_full_range == 0
            &&& cm.transfer == TransferFn::Unspecified ==> s.transfer_characteristics == 1
            &&& cm.transfer != TransferFn::Unspecified ==> TransferFn::from_h273_spec(
                s.transfer_characteristics as u8,
            ) == cm.transfer
        }),
        p.coding_option3 is Some <==> c.pixel_format == PixelFormat::Yuv420p10le,
        p.coding_option3 matches Some(o) ==> o.target_bit_depth_luma == 10
            && o.target_bit_depth_chroma == 10 && o.target_chroma_format_plus1
            == MFX_CHROMAFORMAT_YUV420 + 1,
{
}

/// What the runtime wrote stands, and what it left at zero stays as it was
/// asked for, in the eight fields it may adjust; every other field stays.
pub proof fn adjustments_are_the_runtimes(p: MfxVideoParam, out: MfxVideoParam)
    ensures
        ({
            let r = adjusted(p, out);
            let f = p.mfx.frame_info;
            let g = out.mfx.frame_info;
            let h = r.mfx.frame_info;
            &&& g.width > 0 ==> h.width == g.width
            &&& g.width == 0 ==> h.width == f.width
            &&& g.height > 0 ==> h.height == g.height
            &&& g.height == 0 ==> h.height == f.height
            &&& g.fourcc > 0 ==> h.fourcc == g.fourcc
            &&& g.fourcc == 0 ==> h.fourcc == f.fourcc
            &&& g.chroma_format > 0 ==> h.chroma_format == g.chroma_format
            &&& g.chroma_format == 0 ==> h.chroma_format == f.chroma_format
            &&& out.mfx.rate_control_method > 0 ==> r.mfx.rate_control_method
                == out.mfx.rate_control_method
            &&& out.mfx.rate_control_method == 0 ==> r.mfx.rate_control_method
                == p.mfx.rate_control_method
            &&& out.mfx.target_usage > 0 ==> r.mfx.target_usage == out.mfx.target_usage
            &&& out.mfx.target_usage == 0 ==> r.mfx.target_usage == p.mfx.target_usage
            &&& out.mfx.codec_profile > 0 ==> r.mfx.codec_profile == out.mfx.codec_profile
            &&& out.mfx.codec_profile == 0 ==> r.mfx.codec_profile == p.mfx.codec_profile
            &&& out.mfx.codec_level > 0 ==> r.mfx.codec_level == out.mfx.codec_level
            &&& out.mfx.codec_level == 0 ==> r.mfx.codec_level == p.mfx.codec_level
            &&& r.mfx.gop_pic_size == p.mfx.gop_pic_size
            &&& r.mfx.codec_id == p.mfx.codec_id
            &&& r.mfx.low_power == p.mfx.low_power
            &&& r.mfx.num_ref_frame == p.mfx.num_ref_frame
            &&& h.crop_w == f.crop_w && h.crop_h == f.crop_h
            &&& h.frame_rate_ext_n == f.frame_rate_ext_n
            &&& h.frame_rate_ext_d == f.frame_rate_ext_d
            &&& h.bit_depth_luma == f.bit_depth_luma && h.shift == f.shift
            &&& r.async_depth == p.async_depth
            &&& r.io_pattern == p.io_pattern
            &&& r.tiles == p.tiles
            &&& r.signal_info == p.signal_info
            &&& r.coding_option3 == p.coding_option3
        }),
{
}

/// A surface's rows are a multiple of 64 bytes apart, the least that holds a
/// row of the picture's samples; it has a multiple of sixteen of them, the
/// least that holds the picture, and half as many again for chroma. The output
/// buffer is as large as a surface, and two mebibytes at least.
pub proof fn surfaces_are_the_least_that_hold_the_picture(c: EncoderConfig, s: SurfaceShape)
    requires
        shape_of(c, s),
    ensures
        ({
            let row = if c.pixel_format == PixelFormat::Yuv420p10le {
                2 * c.width
            } else {
                c.width as int
            };
            &&& s.pitch % 64 == 0 && row <= s.pitch < row + 64
            &&& s.rows % 16 == 0 && c.height <= s.rows < c.height + 16
            &&& s.luma_bytes == s.pitch * s.rows
            &&& 2 * s.bytes == 3 * s.luma_bytes
            &&& s.bitstream_capacity >= s.bytes && s.bitstream_capacity >= 2_097_152
            &&& s.bitstream_capacity == s.bytes || s.bitstream_capacity == 2_097_152
        }),
{
    let p = s.pitch as int;
    let r = s.rows as int;
    let k = p / 64;
    assert(p == 64 * k);
    assert(p * r == 64 * (k * r)) by (nonlinear_arith)
        requires
            p == 64 * k,
    ;
    assert(p * r * 3 == 64 * (k * r) * 3);
}

/// A surface starts out black: every luma sample the darkest of studio range
/// and every chroma sample the middle, as bytes or, at ten bits, as words whose
/// upper ten bits hold them.
pub proof fn neutral_is_black(k: int, luma_bytes: int)
    requires
        0 <= k,
        luma_bytes % 2 == 0,
    ensures
        k < luma_bytes ==> neutral_byte(k, luma_bytes, false) == 16,
        k >= luma_bytes ==> neutral_byte(k, luma_bytes, false) == 128,
        2 * k < luma_bytes ==> neutral_byte(2 * k, luma_bytes, true) + 256 * neutral_byte(
            2 * k + 1,
            luma_bytes,
            true,
        ) == 16 * 64,
        2 * k >= luma_bytes ==> neutral_byte(2 * k, luma_bytes, true) + 256 * neutral_byte(
            2 * k + 1,
            luma_bytes,
            true,
        ) == 128 * 64,
{
}

/// Only an answer that says so changes the parameters: an incompatible or a
/// changed one. An accepted, a partly accelerated and a refused query leave them
/// as they were asked for.
pub proof fn only_a_rewritten_query_changes_anything(
    p: MfxVideoParam,
    status: i32,
    out: MfxVideoParam,
)
    ensures
        meaning_of(status) == QueryVerdict::Accepted <==> status == 0,
        meaning_of(status) == QueryVerdict::Rewritten <==> status == 3 || status == 5,
        meaning_of(status) == QueryVerdict::Partial <==> status == 4,
        status == 3 || status == 5 ==> after_query(p, status, out) == adjusted(p, out),
        status != 3 && status != 5 ==> after_query(p, status, out) == p,
{
}

} // verus!
