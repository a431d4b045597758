//! H.264 and H.265 in software: which rate requests can be coded, what an
//! encoder is configured with, and how pictures, keyframes and timestamps pass
//! through one.
//!
//! The picture coder itself is the host's. It takes whole pictures in display
//! order and hands back access units in coding order, each naming the picture
//! it codes by display index. With a lookahead of `n` it decides on a picture
//! only when the one `n` later has arrived.

use std::collections::VecDeque;
use vstd::prelude::*;

use crate::config::{EncoderConfig, AUTO_FROM_TARGET};
use crate::frame::{
    transfer_to_h273, ColorMetadata, ContentLightLevel, MasteringDisplay, PixelFormat, TransferFn,
    VideoCodec, VideoFrame,
};
use crate::packet::{self, packet_from, EncodedPacket, PacketView};
use crate::rate::{self, FrameRate};
use crate::text::{self, push_dec};
use crate::tuning::{
    self, h26x_sw_params_with, EncodeOverrides, H26xSwParams, H26X_SW_BITRATE_BUFFER_MS,
};

verus! {

/// The most an H.265 stream may declare as its rate, and as its buffer: every
/// stream is labelled Level 4.0.
pub const H265_LEVEL4_NAL_LIMIT: u64 = 13_200_000;

/// Most pictures the H.265 encoder holds back.
pub const MAX_LOOKAHEAD: u32 = 250;

/// Why a rung's rate request cannot be coded.
#[derive(Debug, Clone, Copy, PartialEq, Eq, Structural)]
#[allow(inconsistent_fields)]
pub enum RateRefusal {
    /// A buffer without a rate to constrain.
    BufferAlone { buffer: u32 },
    /// A rate of zero.
    ZeroRate,
    /// No AV1 encoder codes to a rate.
    Av1 { bps: u32 },
    /// A quantiser and a rate at once.
    WithCrf { crf: u8, bps: u32 },
    /// A constant quantiser and a rate at once.
    WithConstantQp { bps: u32 },
    /// More pictures held back than the encoder can.
    Lookahead { frames: u32 },
    /// A buffer or rate past the stream's level.
    Level { bps: u32, buffer: u32, by_default: bool },
}

/// Bits of a buffer that holds this many milliseconds of a rate.
pub open spec fn buffer_bits(bps: u32, buffer: u32) -> int {
    bps * buffer / 1000
}

impl RateRefusal {
    /// The refusal in words.
    pub open spec fn text(self) -> Seq<char> {
        match self {
            RateRefusal::BufferAlone { buffer } => "buffer="@ + text::dec(buffer as nat)
                + "ms names a coded picture buffer, which constrains a rate, and this rung has no bitrate: name one (`--video-bitrate`, `--rung WxH@RATE` or `bitrate=`) or drop the buffer"@,
            RateRefusal::ZeroRate =>
                "bitrate=0 is not a rate: name a positive bitrate, or none for a quality target"@,
            RateRefusal::Av1 { bps } => "a bitrate rung ("@ + text::dec(bps as nat)
                + " bit/s) is coded by the native software H.264 / H.265 encoder only; no AV1 encoder here codes to a bitrate. Encode the rung to a quality target (`--target`), or choose `--codec h264` / `h265`"@,
            RateRefusal::WithCrf { crf, bps } => "crf="@ + text::dec(crf as nat)
                + " names a quantiser and bitrate="@ + text::dec(bps as nat)
                + " a rate, and a rung is coded to one or the other: drop one of them"@,
            RateRefusal::WithConstantQp { bps } =>
                "`--seam-mode constqp` codes every chunk at a constant quantiser, and this rung is coded to a rate (bitrate="@
                + text::dec(bps as nat) + "): drop one of them"@,
            RateRefusal::Lookahead { frames } => "lookahead="@ + text::dec(frames as nat)
                + " is above the 250 pictures the native H.265 encoder holds back at most"@,
            RateRefusal::Level { bps, buffer, by_default } => "bitrate="@ + text::dec(bps as nat)
                + " with buffer="@ + text::dec(buffer as nat) + "ms"@ + (if by_default {
                " (the default for a bitrate rung)"@
            } else {
                ""@
            }) + " declares a "@ + text::dec(buffer_bits(bps, buffer) as nat) + "-bit buffer at "@
                + text::dec(bps as nat)
                + " bit/s, and the native H.265 encoder labels every stream Level 4.0, whose limits are 13200000 bit/s and 13200000 bits: lower the rate or the buffer, or declare none (`buffer=0`)"@,
        }
    }

    /// The refusal in words.
    pub fn message(&self) -> (s: String)
        ensures
            s@ == self.text(),
    {
        let mut out: String = String::new();
        match self {
            RateRefusal::BufferAlone { buffer } => {
                out.append("buffer=");
                push_dec(&mut out, *buffer as u128);
                out.append(
                    "ms names a coded picture buffer, which constrains a rate, and this rung has no bitrate: name one (`--video-bitrate`, `--rung WxH@RATE` or `bitrate=`) or drop the buffer",
                );
            },
            RateRefusal::ZeroRate => {
                out.append(
                    "bitrate=0 is not a rate: name a positive bitrate, or none for a quality target",
                );
            },
            RateRefusal::Av1 { bps } => {
                out.append("a bitrate rung (");
                push_dec(&mut out, *bps as u128);
                out.append(
                    " bit/s) is coded by the native software H.264 / H.265 encoder only; no AV1 encoder here codes to a bitrate. Encode the rung to a quality target (`--target`), or choose `--codec h264` / `h265`",
                );
            },
            RateRefusal::WithCrf { crf, bps } => {
                out.append("crf=");
                push_dec(&mut out, *crf as u128);
                out.append(" names a quantiser and bitrate=");
                push_dec(&mut out, *bps as u128);
                out.append(
                    " a rate, and a rung is coded to one or the other: drop one of them",
                );
            },
            RateRefusal::WithConstantQp { bps } => {
                out.append(
                    "`--seam-mode constqp` codes every chunk at a constant quantiser, and this rung is coded to a rate (bitrate=",
                );
                push_dec(&mut out, *bps as u128);
                out.append("): drop one of them");
            },
            RateRefusal::Lookahead { frames } => {
                out.append("lookahead=");
                push_dec(&mut out, *frames as u128);
                out.append(
                    " is above the 250 pictures the native H.265 encoder holds back at most",
                );
            },
            RateRefusal::Level { bps, buffer, by_default } => {
                let rate: u32 = *bps;
                let ms: u32 = *buffer;
                proof {
                    assert(0 <= rate * ms <= 0xffff_ffff * 0xffff_ffff) by (nonlinear_arith)
                        requires
                            0 <= rate <= 0xffff_ffff,
                            0 <= ms <= 0xffff_ffff,
                    ;
                }
                let bits: u64 = rate as u64 * ms as u64 / 1000;
                out.append("bitrate=");
                push_dec(&mut out, rate as u128);
                out.append(" with buffer=");
                push_dec(&mut out, ms as u128);
                out.append("ms");
                out.append(
                    if *by_default {
                        " (the default for a bitrate rung)"
                    } else {
                        ""
                    },
                );
                out.append(" declares a ");
                push_dec(&mut out, bits as u128);
                out.append("-bit buffer at ");
                push_dec(&mut out, rate as u128);
                out.append(
                    " bit/s, and the native H.265 encoder labels every stream Level 4.0, whose limits are 13200000 bit/s and 13200000 bits: lower the rate or the buffer, or declare none (`buffer=0`)",
                );
            },
        }
        assert(out@ =~= self.text());
        out
    }
}

/// A buffer's length where a rung names one, else none.
pub open spec fn named_buffer(o: EncodeOverrides) -> u32 {
    match o.buffer_ms {
        Some(b) => b,
        None => 0,
    }
}

/// The buffer a rate declares: the rung's own, or the default.
pub open spec fn declared_buffer(o: EncodeOverrides) -> u32 {
    match o.buffer_ms {
        Some(b) => b,
        None => H26X_SW_BITRATE_BUFFER_MS,
    }
}

/// The verdict on a rung's rate request.
pub open spec fn rate_verdict(
    codec: VideoCodec,
    o: EncodeOverrides,
    crf: Option<u8>,
    constant_qp: bool,
) -> Option<RateRefusal> {
    match o.bitrate {
        None => if named_buffer(o) > 0 {
            Some(RateRefusal::BufferAlone { buffer: named_buffer(o) })
        } else {
            None
        },
        Some(bps) => if bps == 0 {
            Some(RateRefusal::ZeroRate)
        } else if codec == VideoCodec::Av1 {
            Some(RateRefusal::Av1 { bps })
        } else if crf is Some {
            Some(RateRefusal::WithCrf { crf: crf->0, bps })
        } else if constant_qp {
            Some(RateRefusal::WithConstantQp { bps })
        } else if codec == VideoCodec::H265 && o.lookahead_frames is Some && o.lookahead_frames->0
            > MAX_LOOKAHEAD {
            Some(RateRefusal::Lookahead { frames: o.lookahead_frames->0 })
        } else if codec == VideoCodec::H265 && declared_buffer(o) > 0 && (bps
            > H265_LEVEL4_NAL_LIMIT || buffer_bits(bps, declared_buffer(o))
            > H265_LEVEL4_NAL_LIMIT) {
            Some(
                RateRefusal::Level {
                    bps,
                    buffer: declared_buffer(o),
                    by_default: o.buffer_ms is None,
                },
            )
        } else {
            None
        },
    }
}

/// Why a rung's rate request cannot be coded, if it cannot.
pub fn check_rate(
    codec: VideoCodec,
    overrides: &EncodeOverrides,
    crf: Option<u8>,
    constant_qp: bool,
) -> (r: Option<RateRefusal>)
    ensures
        r == rate_verdict(codec, *overrides, crf, constant_qp),
{
    let bps: u32 = match overrides.bitrate {
        Some(bps) => bps,
        None => {
            return match overrides.buffer_ms {
                Some(buffer) => if buffer > 0 {
                    Some(RateRefusal::BufferAlone { buffer })
                } else {
                    None
                },
                None => None,
            };
        },
    };
    if bps == 0 {
        return Some(RateRefusal::ZeroRate);
    }
    if codec == VideoCodec::Av1 {
        return Some(RateRefusal::Av1 { bps });
    }
    if let Some(q) = crf {
        return Some(RateRefusal::WithCrf { crf: q, bps });
    }
    if constant_qp {
        return Some(RateRefusal::WithConstantQp { bps });
    }
    if codec == VideoCodec::H265 {
        if let Some(n) = overrides.lookahead_frames {
            if n > MAX_LOOKAHEAD {
                return Some(RateRefusal::Lookahead { frames: n });
            }
        }
        let buffer: u32 = match overrides.buffer_ms {
            Some(b) => b,
            None => H26X_SW_BITRATE_BUFFER_MS,
        };
        proof {
            assert(0 <= bps * buffer <= 0xffff_ffff * 0xffff_ffff) by (nonlinear_arith)
                requires
                    0 <= bps <= 0xffff_ffff,
                    0 <= buffer <= 0xffff_ffff,
            ;
        }
        let bits: u64 = bps as u64 * buffer as u64 / 1000;
        if buffer > 0 && (bps as u64 > H265_LEVEL4_NAL_LIMIT || bits > H265_LEVEL4_NAL_LIMIT) {
            return Some(
                RateRefusal::Level { bps, buffer, by_default: overrides.buffer_ms.is_none() },
            );
        }
    }
    None
}

/// Why a rung's rate request cannot be coded, in words, if it cannot. `crf` is
/// the rung's quantiser where it names one, `constant_qp` whether its encode
/// must be at a constant quantiser.
pub fn rate_refusal(
    codec: VideoCodec,
    overrides: &EncodeOverrides,
    crf: Option<u8>,
    constant_qp: bool,
) -> (r: Option<String>)
    ensures
        match rate_verdict(codec, *overrides, crf, constant_qp) {
            Some(why) => r matches Some(s) && s@ == why.text(),
            None => r is None,
        },
{
    match check_rate(codec, overrides, crf, constant_qp) {
        Some(why) => Some(why.message()),
        None => None,
    }
}

/// A rung with neither a rate nor a buffer is never refused, whatever else it
/// asks for.
pub proof fn quality_rungs_are_never_refused(
    codec: VideoCodec,
    o: EncodeOverrides,
    crf: Option<u8>,
    constant_qp: bool,
)
    requires
        o.bitrate is None,
        named_buffer(o) == 0,
    ensures
        rate_verdict(codec, o, crf, constant_qp) is None,
{
}

/// No accepted H.265 rung declares more than its level allows.
pub proof fn accepted_rates_keep_to_the_level(
    o: EncodeOverrides,
    crf: Option<u8>,
    constant_qp: bool,
)
    requires
        rate_verdict(VideoCodec::H265, o, crf, constant_qp) is None,
        o.bitrate is Some,
        declared_buffer(o) > 0,
    ensures
        0 < o.bitrate->0 <= H265_LEVEL4_NAL_LIMIT,
        buffer_bits(o.bitrate->0, declared_buffer(o)) <= H265_LEVEL4_NAL_LIMIT,
{
}

/// A rung is coded to a quantiser or to a rate, never to both: an accepted rate
/// comes without a quantiser, and never for AV1.
pub proof fn a_rate_excludes_a_quantiser(
    codec: VideoCodec,
    o: EncodeOverrides,
    crf: Option<u8>,
    constant_qp: bool,
)
    requires
        rate_verdict(codec, o, crf, constant_qp) is None,
        o.bitrate is Some,
    ensures
        crf is None,
        !constant_qp,
        codec != VideoCodec::Av1,
{
}

/// The rate to hand an encoder that counts whole frames per second, so that
/// each picture's budget is what the real frame rate gives it.
pub open spec fn budgeted_rate(bps: u32, r: FrameRate, fps: u32) -> u32 {
    if r.nanos == 0 {
        bps
    } else {
        rate::clamp_int(
            rate::round_div(bps * fps * 1_000_000_000, r.nanos as int),
            1,
            u32::MAX as int,
        ) as u32
    }
}

/// The rate to hand an encoder that counts whole frames per second.
pub fn encoder_bps(bps: u32, r: FrameRate, fps: u32) -> (out: u32)
    ensures
        out == budgeted_rate(bps, r, fps),
{
    if r.nanos == 0 {
        return bps;
    }
    proof {
        assert(0 <= bps * fps <= 0xffff_ffff * 0xffff_ffff) by (nonlinear_arith)
            requires
                0 <= bps <= 0xffff_ffff,
                0 <= fps <= 0xffff_ffff,
        ;
    }
    let a: u128 = bps as u128 * fps as u128 * 1_000_000_000;
    let d: u128 = r.nanos as u128;
    let q: u128 = (2 * a + d) / (2 * d);
    if q < 1 {
        1
    } else if q > 0xffff_ffff {
        0xffff_ffff
    } else {
        q as u32
    }
}

/// At a whole frame rate the rate is handed on as it is.
pub proof fn whole_rates_are_unscaled(bps: u32, fps: u32)
    requires
        bps > 0,
        fps > 0,
    ensures
        budgeted_rate(bps, FrameRate { nanos: (fps * 1_000_000_000) as u64 }, fps) == bps,
{
    let n = fps * 1_000_000_000;
    let a = bps * fps * 1_000_000_000;
    assert(a == bps * n) by (nonlinear_arith)
        requires
            n == fps * 1_000_000_000,
            a == bps * fps * 1_000_000_000,
    ;
    let x = 2 * a + n;
    assert(x == bps * (2 * n) + n) by (nonlinear_arith)
        requires
            x == 2 * a + n,
            a == bps * n,
    ;
    vstd::arithmetic::div_mod::lemma_fundamental_div_mod_converse(x, 2 * n, bps as int, n);
}

/// How an encoder spends bits.
#[derive(Debug, Clone, Copy, PartialEq, Eq, Structural)]
pub enum RateControl {
    ConstantQp(u8),
    Bitrate { bps: u32 },
}

/// Colour as a stream's header says it.
#[derive(Debug, Clone, Copy, PartialEq, Eq, Structural)]
pub struct ColourDescription {
    pub primaries: u8,
    pub transfer: u8,
    pub matrix: u8,
    pub full_range: bool,
}

/// A mastering display, grouped by primary.
#[derive(Debug, Clone, Copy, PartialEq, Eq)]
pub struct DisplayVolume {
    pub red: (u16, u16),
    pub green: (u16, u16),
    pub blue: (u16, u16),
    pub white_point: (u16, u16),
    pub max_luminance: u32,
    pub min_luminance: u32,
}

/// Colour as a stream's header says it.
pub open spec fn description_of(cm: ColorMetadata) -> ColourDescription {
    ColourDescription {
        primaries: cm.colour_primaries,
        transfer: cm.transfer.h273(),
        matrix: cm.matrix_coefficients,
        full_range: cm.full_range,
    }
}

/// Colour as a stream's header says it.
pub fn colour_description(cm: &ColorMetadata) -> (c: ColourDescription)
    ensures
        c == description_of(*cm),
{
    ColourDescription {
        primaries: cm.colour_primaries,
        transfer: transfer_to_h273(cm.transfer),
        matrix: cm.matrix_coefficients,
        full_range: cm.full_range,
    }
}

/// A mastering display, grouped by primary.
pub open spec fn volume_of(m: MasteringDisplay) -> DisplayVolume {
    DisplayVolume {
        red: (m.primaries_r_x, m.primaries_r_y),
        green: (m.primaries_g_x, m.primaries_g_y),
        blue: (m.primaries_b_x, m.primaries_b_y),
        white_point: (m.white_point_x, m.white_point_y),
        max_luminance: m.max_luminance,
        min_luminance: m.min_luminance,
    }
}

/// A mastering display, grouped by primary: the same ten numbers.
pub fn mastering_display(m: &MasteringDisplay) -> (v: DisplayVolume)
    ensures
        v == volume_of(*m),
{
    DisplayVolume {
        red: (m.primaries_r_x, m.primaries_r_y),
        green: (m.primaries_g_x, m.primaries_g_y),
        blue: (m.primaries_b_x, m.primaries_b_y),
        white_point: (m.white_point_x, m.white_point_y),
        max_luminance: m.max_luminance,
        min_luminance: m.min_luminance,
    }
}

/// What an encoder is configured with, besides the fixed choice of 4:2:0,
/// CABAC, progressive pictures, one reference, and no chroma siting.
#[derive(Debug, Clone, Copy, PartialEq, Eq)]
pub struct H26xConfig {
    pub width: u32,
    pub height: u32,
    pub bit_depth: u8,
    pub gop: u32,
    /// B pictures between anchors.
    pub bframes: u32,
    pub max_refs: u32,
    pub rate: RateControl,
    pub transform_8x8: bool,
    pub subparts: bool,
    pub sao: bool,
    pub threads: usize,
    pub fps: u32,
    /// Milliseconds of coded picture buffer; zero declares none.
    pub cpb_ms: u32,
    pub aq_strength_tenths: u8,
    pub lookahead: u32,
    pub weighted_pred: bool,
    pub colour: ColourDescription,
    pub mastering_display: Option<DisplayVolume>,
    pub content_light: Option<ContentLightLevel>,
    pub max_cu_depth: u32,
}

/// Why an encoder cannot be built, or coding failed.
#[derive(Debug, Clone, Copy, PartialEq, Eq, Structural)]
#[allow(inconsistent_fields)]
pub enum H26xError {
    UnsupportedCodec { codec: VideoCodec },
    UnsupportedFormat { format: PixelFormat },
    /// H.264 has no coding quadtree.
    Quadtree { depth: u32 },
    Rate { why: RateRefusal },
    /// The picture is not in the encoder's format.
    FormatMismatch { configured: PixelFormat, got: PixelFormat },
    /// The picture is not of the encoder's size.
    SizeMismatch { width: u32, height: u32, frame_width: u32, frame_height: u32 },
    /// The picture's buffer is shorter than the encoder reads.
    TooShort { have: usize, width: u32, height: u32, format: PixelFormat, need: usize },
    /// An access unit for a picture that was never sent.
    UnknownPicture { display: u64, sent: usize },
    /// A keyframe that the flush cannot place.
    Unplaceable { at: u64, lookahead: u32, first: u64 },
}

/// A size in words.
pub open spec fn size_text(w: u32, h: u32) -> Seq<char> {
    text::dec(w as nat) + "x"@ + text::dec(h as nat)
}

fn push_size(out: &mut String, w: u32, h: u32)
    ensures
        final(out)@ == old(out)@ + size_text(w, h),
{
    push_dec(out, w as u128);
    out.append("x");
    push_dec(out, h as u128);
    assert(out@ =~= old(out)@ + size_text(w, h));
}

impl H26xError {
    /// The error in words.
    pub open spec fn text(self) -> Seq<char> {
        match self {
            H26xError::UnsupportedCodec { codec } =>
                "the native h26x encoders produce H.264 and H.265, not "@ + codec.label(),
            H26xError::UnsupportedFormat { format } =>
                "the native h26x software encoders take 4:2:0 at 8 bits (yuv420p) or 10 bits (yuv420p10le); got "@
                + format.label() + ". Convert with the colorspace filter before the encoder."@,
            H26xError::Quadtree { depth } => "cu_depth="@ + text::dec(depth as nat)
                + " names an H.265 coding quadtree depth; the native H.264 encoder codes 16x16 macroblocks and has no quadtree. Leave cu_depth unset (or 0) for an H.264 rung."@,
            H26xError::Rate { why } => why.text(),
            H26xError::FormatMismatch { configured, got } =>
                "the native h26x encoder was configured for "@ + configured.label() + " and got a "@
                + got.label() + " frame. Convert with the colorspace filter before the encoder."@,
            H26xError::SizeMismatch { width, height, frame_width, frame_height } => "frame is "@
                + size_text(frame_width, frame_height) + " but the encoder was configured for "@
                + size_text(width, height),
            H26xError::TooShort { have, width, height, format, need } => "frame buffer is "@
                + text::dec(have as nat) + " bytes, too short for "@ + size_text(width, height)
                + " "@ + format.label() + " ("@ + text::dec(need as nat) + " expected)"@,
            H26xError::UnknownPicture { display, sent } =>
                "h26x coded picture claims display index "@ + text::dec(display as nat)
                + " but only "@ + text::dec(sent as nat) + " frames were pushed"@,
            H26xError::Unplaceable { at, lookahead, first } =>
                "a keyframe was forced at frame "@ + text::dec(at as nat)
                + ", but the encoder's "@ + text::dec(lookahead as nat)
                + "-frame lookahead offers frame "@ + text::dec(first as nat)
                + " first on flush: fewer frames followed the forced one than the lookahead holds, and it cannot be placed"@,
        }
    }

    /// The error in words.
    pub fn message(&self) -> (s: String)
        ensures
            s@ == self.text(),
    {
        let mut out: String = String::new();
        match self {
            H26xError::UnsupportedCodec { codec } => {
                out.append("the native h26x encoders produce H.264 and H.265, not ");
                out.append(codec.name());
            },
            H26xError::UnsupportedFormat { format } => {
                out.append(
                    "the native h26x software encoders take 4:2:0 at 8 bits (yuv420p) or 10 bits (yuv420p10le); got ",
                );
                out.append(format.name());
                out.append(". Convert with the colorspace filter before the encoder.");
            },
            H26xError::Quadtree { depth } => {
                out.append("cu_depth=");
                push_dec(&mut out, *depth as u128);
                out.append(
                    " names an H.265 coding quadtree depth; the native H.264 encoder codes 16x16 macroblocks and has no quadtree. Leave cu_depth unset (or 0) for an H.264 rung.",
                );
            },
            H26xError::Rate { why } => {
                return why.message();
            },
            H26xError::FormatMismatch { configured, got } => {
                out.append("the native h26x encoder was configured for ");
                out.append(configured.name());
                out.append(" and got a ");
                out.append(got.name());
                out.append(" frame. Convert with the colorspace filter before the encoder.");
            },
            H26xError::SizeMismatch { width, height, frame_width, frame_height } => {
                out.append("frame is ");
                push_size(&mut out, *frame_width, *frame_height);
                out.append(" but the encoder was configured for ");
                push_size(&mut out, *width, *height);
            },
            H26xError::TooShort { have, width, height, format, need } => {
                out.append("frame buffer is ");
                push_dec(&mut out, *have as u128);
                out.append(" bytes, too short for ");
                push_size(&mut out, *width, *height);
                out.append(" ");
                out.append(format.name());
                out.append(" (");
                push_dec(&mut out, *need as u128);
                out.append(" expected)");
            },
            H26xError::UnknownPicture { display, sent } => {
                out.append("h26x coded picture claims display index ");
                push_dec(&mut out, *display as u128);
                out.append(" but only ");
                push_dec(&mut out, *sent as u128);
                out.append(" frames were pushed");
            },
            H26xError::Unplaceable { at, lookahead, first } => {
                out.append("a keyframe was forced at frame ");
                push_dec(&mut out, *at as u128);
                out.append(", but the encoder's ");
                push_dec(&mut out, *lookahead as u128);
                out.append("-frame lookahead offers frame ");
                push_dec(&mut out, *first as u128);
                out.append(
                    " first on flush: fewer frames followed the forced one than the lookahead holds, and it cannot be placed",
                );
            },
        }
        assert(out@ =~= self.text());
        out
    }
}

/// Whole frames per second, one at least.
pub open spec fn whole_fps(r: FrameRate) -> u32 {
    rate::clamp_int(r.rounded(), 1, u32::MAX as int) as u32
}

/// The verdict on a configuration: codec, format, quadtree depth, rate.
pub open spec fn config_verdict(c: EncoderConfig, p: H26xSwParams) -> Option<H26xError> {
    if c.codec == VideoCodec::Av1 {
        Some(H26xError::UnsupportedCodec { codec: c.codec })
    } else if !c.pixel_format.is_420() {
        Some(H26xError::UnsupportedFormat { format: c.pixel_format })
    } else if c.codec == VideoCodec::H264 && p.max_cu_depth > 0 {
        Some(H26xError::Quadtree { depth: p.max_cu_depth })
    } else {
        match rate_verdict(c.codec, c.overrides, c.crf(), c.constant_qp) {
            Some(why) => Some(H26xError::Rate { why }),
            None => None,
        }
    }
}

/// What an encoder is configured with: constant quantiser unless the rung names
/// a rate; a lookahead only where a rate controller reads one, which is for
/// H.265 alone. `parallelism` is the worker count where the caller leaves it
/// open.
pub open spec fn config_of(c: EncoderConfig, p: H26xSwParams, parallelism: usize) -> H26xConfig {
    let fps = whole_fps(c.frame_rate);
    H26xConfig {
        width: c.width,
        height: c.height,
        bit_depth: if c.pixel_format.is_ten_bit() {
            10
        } else {
            8
        },
        gop: if c.keyframe_interval == 0 {
            250
        } else {
            c.keyframe_interval
        },
        bframes: match c.overrides.bframes {
            Some(n) => n as u32,
            None => 0,
        },
        max_refs: 1,
        rate: match p.bitrate {
            Some(bps) => RateControl::Bitrate { bps: budgeted_rate(bps, c.frame_rate, fps) },
            None => RateControl::ConstantQp(
                match c.crf() {
                    Some(q) => rate::min_int(q as int, 51) as u8,
                    None => p.qp,
                },
            ),
        },
        transform_8x8: p.transform_8x8,
        subparts: p.subparts,
        sao: p.sao,
        threads: if c.threads > 0 {
            c.threads
        } else {
            parallelism
        },
        fps,
        cpb_ms: if p.bitrate is Some {
            p.buffer_ms
        } else {
            0
        },
        aq_strength_tenths: p.aq_strength_tenths,
        lookahead: if p.bitrate is Some && c.codec == VideoCodec::H265 {
            p.lookahead
        } else {
            0
        },
        weighted_pred: p.weighted_pred,
        colour: description_of(c.color_metadata),
        mastering_display: match c.color_metadata.mastering_display {
            Some(m) => Some(volume_of(m)),
            None => None,
        },
        content_light: c.color_metadata.content_light_level,
        max_cu_depth: p.max_cu_depth,
    }
}

/// What an encoder is configured with.
pub fn plan_config(c: &EncoderConfig, p: &H26xSwParams, parallelism: usize) -> (r: Result<
    H26xConfig,
    H26xError,
>)
    ensures
        match config_verdict(*c, *p) {
            Some(e) => r == Err::<H26xConfig, H26xError>(e),
            None => r == Ok::<H26xConfig, H26xError>(config_of(*c, *p, parallelism)),
        },
{
    if !H26xEncoder::supports(c.codec) {
        return Err(H26xError::UnsupportedCodec { codec: c.codec });
    }
    let bit_depth: u8 = match c.pixel_format {
        PixelFormat::Yuv420p => 8,
        PixelFormat::Yuv420p10le => 10,
        other => {
            return Err(H26xError::UnsupportedFormat { format: other });
        },
    };
    if c.codec == VideoCodec::H264 && p.max_cu_depth > 0 {
        return Err(H26xError::Quadtree { depth: p.max_cu_depth });
    }
    let crf: Option<u8> = if c.quality == AUTO_FROM_TARGET {
        None
    } else {
        Some(c.quality)
    };
    if let Some(why) = check_rate(c.codec, &c.overrides, crf, c.constant_qp) {
        return Err(H26xError::Rate { why });
    }
    let qp: u8 = match crf {
        Some(q) => if q > 51 {
            51
        } else {
            q
        },
        None => p.qp,
    };
    let rounded: u64 = c.frame_rate.to_rounded();
    let fps: u32 = if rounded < 1 {
        1
    } else if rounded > 0xffff_ffff {
        0xffff_ffff
    } else {
        rounded as u32
    };
    let rated: (RateControl, u32, u32) = match p.bitrate {
        None => (RateControl::ConstantQp(qp), 0, 0),
        Some(bps) => (
            RateControl::Bitrate { bps: encoder_bps(bps, c.frame_rate, fps) },
            p.buffer_ms,
            if c.codec == VideoCodec::H265 {
                p.lookahead
            } else {
                0
            },
        ),
    };
    Ok(
        H26xConfig {
            width: c.width,
            height: c.height,
            bit_depth,
            gop: if c.keyframe_interval == 0 {
                250
            } else {
                c.keyframe_interval
            },
            bframes: match c.overrides.bframes {
                Some(n) => n as u32,
                None => 0,
            },
            max_refs: 1,
            rate: rated.0,
            transform_8x8: p.transform_8x8,
            subparts: p.subparts,
            sao: p.sao,
            threads: if c.threads > 0 {
                c.threads
            } else {
                parallelism
            },
            fps,
            cpb_ms: rated.1,
            aq_strength_tenths: p.aq_strength_tenths,
            lookahead: rated.2,
            weighted_pred: p.weighted_pred,
            colour: colour_description(&c.color_metadata),
            mastering_display: match &c.color_metadata.mastering_display {
                Some(m) => Some(mastering_display(m)),
                None => None,
            },
            content_light: c.color_metadata.content_light_level,
            max_cu_depth: p.max_cu_depth,
        },
    )
}

/// The quantiser a caller names is the one that is coded: up to 51 as it is,
/// above that as 51, and the tuning row's only where the caller names none.
pub proof fn the_callers_quantiser_is_coded(
    c: EncoderConfig,
    p: H26xSwParams,
    parallelism: usize,
)
    requires
        config_verdict(c, p) is None,
        p.bitrate is None,
    ensures
        c.quality <= 51 ==> config_of(c, p, parallelism).rate == RateControl::ConstantQp(c.quality),
        51 < c.quality < 255 ==> config_of(c, p, parallelism).rate == RateControl::ConstantQp(51),
        c.quality == 255 ==> config_of(c, p, parallelism).rate == RateControl::ConstantQp(p.qp),
{
}

/// Two different quantisers up to 51 are never coded alike, and a larger one is
/// never coded finer.
pub proof fn quantisers_stay_apart(
    a: EncoderConfig,
    b: EncoderConfig,
    p: H26xSwParams,
    parallelism: usize,
)
    requires
        config_verdict(a, p) is None,
        config_verdict(b, p) is None,
        p.bitrate is None,
        a.quality < b.quality < 255,
    ensures
        config_of(a, p, parallelism).rate matches RateControl::ConstantQp(x) && config_of(
            b,
            p,
            parallelism,
        ).rate matches RateControl::ConstantQp(y) && x <= y && (b.quality <= 51 ==> x < y),
{
}

/// A rung with a rate is coded to it and to nothing else: the picture coder is
/// told a rate, the buffer the row gives, and for H.265 the row's lookahead. A
/// rung without one gets a quantiser, no buffer and no lookahead.
pub proof fn a_rate_brings_its_buffer(c: EncoderConfig, p: H26xSwParams, parallelism: usize)
    requires
        config_verdict(c, p) is None,
    ensures
        ({
            let out = config_of(c, p, parallelism);
            match p.bitrate {
                Some(bps) => {
                    &&& out.rate is Bitrate
                    &&& out.cpb_ms == p.buffer_ms
                    &&& c.codec == VideoCodec::H265 ==> out.lookahead == p.lookahead
                    &&& c.codec == VideoCodec::H264 ==> out.lookahead == 0
                },
                None => {
                    &&& out.rate is ConstantQp
                    &&& out.cpb_ms == 0
                    &&& out.lookahead == 0
                },
            }
        }),
{
}

/// The picture coder's whole frame rate is the nearest to the real one, and
/// one at least; and the rate it is told spends on each of its pictures what
/// the rung's rate spends on each real one, to the nearest bit per second.
pub proof fn each_picture_keeps_its_budget(
    c: EncoderConfig,
    p: H26xSwParams,
    parallelism: usize,
)
    requires
        p.bitrate is Some,
        500_000_000 <= c.frame_rate.nanos <= 4_000_000_000_000_000_000,
        0 < p.bitrate->0 <= 1_000_000_000,
    ensures
        ({
            let out = config_of(c, p, parallelism);
            let nanos = c.frame_rate.nanos as int;
            let want = p.bitrate->0 * out.fps * 1_000_000_000;
            &&& out.fps >= 1
            &&& -500_000_000 < out.fps * 1_000_000_000 - nanos <= 500_000_000
            &&& out.rate matches RateControl::Bitrate { bps } && -nanos < 2 * (bps * nanos - want)
                <= nanos
        }),
{
    let r = c.frame_rate;
    let nanos = r.nanos as int;
    let bps = p.bitrate->0 as int;
    rate::rounded_rates_are_within_half_a_unit(r);
    let fps = whole_fps(r) as int;
    assert(1 <= r.rounded() <= u32::MAX);
    assert(fps == r.rounded());
    let want = bps * fps * 1_000_000_000;
    assert(want == bps * (fps * 1_000_000_000)) by (nonlinear_arith)
        requires
            want == bps * fps * 1_000_000_000,
    ;
    assert(0 <= want) by (nonlinear_arith)
        requires
            want == bps * (fps * 1_000_000_000),
            bps > 0,
            fps > 0,
    ;
    rate::rounding_is_to_the_nearest(want, nanos);
    let q = rate::round_div(want, nanos);
    assert(bps * (fps * 1_000_000_000) <= bps * (2 * nanos)) by (nonlinear_arith)
        requires
            bps > 0,
            fps * 1_000_000_000 <= 2 * nanos,
    ;
    assert(bps * (fps * 1_000_000_000) * 2 >= bps * nanos) by (nonlinear_arith)
        requires
            bps > 0,
            fps * 1_000_000_000 * 2 >= nanos,
    ;
    assert(q <= u32::MAX) by (nonlinear_arith)
        requires
            2 * (q * nanos - want) <= nanos,
            want <= bps * (2 * nanos),
            bps <= 1_000_000_000,
            nanos > 0,
    ;
    assert(q >= 1) by (nonlinear_arith)
        requires
            -nanos < 2 * (q * nanos - want),
            want * 2 >= bps * nanos,
            bps >= 1,
            nanos > 0,
    ;
}

/// An unknown frame rate leaves the rung's rate as it is, and counts as one
/// frame per second.
pub proof fn an_unknown_frame_rate_leaves_the_rate(
    c: EncoderConfig,
    p: H26xSwParams,
    parallelism: usize,
)
    requires
        p.bitrate is Some,
        c.frame_rate.nanos == 0,
    ensures
        config_of(c, p, parallelism).rate == (RateControl::Bitrate { bps: p.bitrate->0 }),
        config_of(c, p, parallelism).fps == 1,
{
    rate::rounded_rates_are_within_half_a_unit(c.frame_rate);
}

/// What the rung asks of the pictures reaches the picture coder: size, bit
/// depth, keyframe interval (250 where it is left open), B pictures, the row's
/// tools, and the worker budget where the caller sets one.
pub proof fn the_rungs_choices_reach_the_coder(
    c: EncoderConfig,
    p: H26xSwParams,
    parallelism: usize,
)
    requires
        config_verdict(c, p) is None,
    ensures
        ({
            let out = config_of(c, p, parallelism);
            &&& out.width == c.width && out.height == c.height
            &&& c.pixel_format == PixelFormat::Yuv420p ==> out.bit_depth == 8
            &&& c.pixel_format == PixelFormat::Yuv420p10le ==> out.bit_depth == 10
            &&& c.keyframe_interval == 0 ==> out.gop == 250
            &&& c.keyframe_interval > 0 ==> out.gop == c.keyframe_interval
            &&& c.overrides.bframes is None ==> out.bframes == 0
            &&& c.overrides.bframes matches Some(n) ==> out.bframes == n
            &&& out.max_refs == 1
            &&& out.transform_8x8 == p.transform_8x8
            &&& out.subparts == p.subparts
            &&& out.sao == p.sao
            &&& out.aq_strength_tenths == p.aq_strength_tenths
            &&& out.weighted_pred == p.weighted_pred
            &&& out.max_cu_depth == p.max_cu_depth
            &&& c.threads > 0 ==> out.threads == c.threads
            &&& c.threads == 0 ==> out.threads == parallelism
        }),
{
}

/// The stream says of its colour what the caller says: the codes and the range
/// as they are, a transfer that reads back as the caller's, and the mastering
/// display and light levels number by number, each exactly where the caller
/// gives one.
pub proof fn the_stream_describes_the_callers_colour(
    c: EncoderConfig,
    p: H26xSwParams,
    parallelism: usize,
)
    ensures
        ({
            let cm = c.color_metadata;
            let out = config_of(c, p, parallelism);
            &&& out.colour.primaries == cm.colour_primaries
            &&& out.colour.matrix == cm.matrix_coefficients
            &&& out.colour.full_range == cm.full_range
            &&& cm.transfer == TransferFn::Unspecified ==> out.colour.transfer == 1
            &&& cm.transfer != TransferFn::Unspecified ==> TransferFn::from_h273_spec(
                out.colour.transfer,
            ) == cm.transfer
            &&& out.content_light == cm.content_light_level
            &&& out.mastering_display is Some <==> cm.mastering_display is Some
            &&& cm.mastering_display matches Some(m) ==> {
                let v = out.mastering_display->0;
                &&& v.red.0 == m.primaries_r_x && v.red.1 == m.primaries_r_y
                &&& v.green.0 == m.primaries_g_x && v.green.1 == m.primaries_g_y
                &&& v.blue.0 == m.primaries_b_x && v.blue.1 == m.primaries_b_y
                &&& v.white_point.0 == m.white_point_x && v.white_point.1 == m.white_point_y
                &&& v.max_luminance == m.max_luminance && v.min_luminance == m.min_luminance
            }
        }),
{
}

/// An encoder is built exactly for H.264 and H.265, for 4:2:0 at 8 or 10 bits,
/// without a quadtree for H.264, and for a rung whose rate request stands.
pub proof fn what_can_be_built(c: EncoderConfig, p: H26xSwParams)
    ensures
        config_verdict(c, p) is None ==> {
            &&& c.codec == VideoCodec::H264 || c.codec == VideoCodec::H265
            &&& c.pixel_format == PixelFormat::Yuv420p || c.pixel_format
                == PixelFormat::Yuv420p10le
            &&& c.codec == VideoCodec::H264 ==> p.max_cu_depth == 0
        },
        match config_verdict(c, p) {
            Some(H26xError::UnsupportedCodec { codec }) => codec == c.codec && c.codec
                == VideoCodec::Av1,
            Some(H26xError::UnsupportedFormat { format }) => {
                &&& format == c.pixel_format
                &&& format != PixelFormat::Yuv420p && format != PixelFormat::Yuv420p10le
            },
            Some(H26xError::Quadtree { depth }) => c.codec == VideoCodec::H264 && depth
                == p.max_cu_depth && depth > 0,
            Some(H26xError::Rate { why }) => rate_verdict(
                c.codec,
                c.overrides,
                if c.quality == 255 {
                    None
                } else {
                    Some(c.quality)
                },
                c.constant_qp,
            ) == Some(why),
            Some(_) => false,
            None => rate_verdict(
                c.codec,
                c.overrides,
                if c.quality == 255 {
                    None
                } else {
                    Some(c.quality)
                },
                c.constant_qp,
            ) is None,
        },
{
}

/// A rung without a rate is refused exactly where it names a buffer that is not
/// empty. A rung with one is refused exactly where the rate is zero, the codec
/// is AV1, a quantiser or a constant quantiser is asked for too, or, for H.265,
/// more than 250 pictures are to be held back or a buffer is declared (a second
/// where none is named) and the rate or the buffer is over 13 200 000 bits.
pub proof fn which_rates_stand(
    codec: VideoCodec,
    o: EncodeOverrides,
    crf: Option<u8>,
    constant_qp: bool,
)
    ensures
        ({
            let buffer = if o.buffer_ms is Some {
                o.buffer_ms->0 as int
            } else {
                1000
            };
            let bps = o.bitrate->0 as int;
            rate_verdict(codec, o, crf, constant_qp) is None <==> if o.bitrate is None {
                o.buffer_ms is None || o.buffer_ms->0 == 0
            } else {
                &&& bps > 0
                &&& codec == VideoCodec::H264 || codec == VideoCodec::H265
                &&& crf is None
                &&& !constant_qp
                &&& codec == VideoCodec::H265 ==> {
                    &&& o.lookahead_frames is Some ==> o.lookahead_frames->0 <= 250
                    &&& buffer == 0 || (bps <= 13_200_000 && bps * buffer < 13_200_001_000)
                }
            }
        }),
{
    if o.bitrate is Some {
        let bps = o.bitrate->0;
        let b = declared_buffer(o);
        vstd::arithmetic::div_mod::lemma_fundamental_div_mod(bps * b, 1000);
    }
}

/// A refusal names a fault that the request has, with its own numbers, and the
/// first one in the order rate, codec, quantiser, constant quantiser,
/// lookahead, level.
pub proof fn a_refusal_names_the_first_fault(
    codec: VideoCodec,
    o: EncodeOverrides,
    crf: Option<u8>,
    constant_qp: bool,
)
    ensures
        match rate_verdict(codec, o, crf, constant_qp) {
            Some(RateRefusal::BufferAlone { buffer }) => o.bitrate is None && o.buffer_ms == Some(
                buffer,
            ) && buffer > 0,
            Some(RateRefusal::ZeroRate) => o.bitrate == Some(0u32),
            Some(RateRefusal::Av1 { bps }) => o.bitrate == Some(bps) && bps > 0 && codec
                == VideoCodec::Av1,
            Some(RateRefusal::WithCrf { crf: q, bps }) => crf == Some(q) && o.bitrate == Some(bps)
                && bps > 0 && codec != VideoCodec::Av1,
            Some(RateRefusal::WithConstantQp { bps }) => constant_qp && crf is None && o.bitrate
                == Some(bps) && bps > 0 && codec != VideoCodec::Av1,
            Some(RateRefusal::Lookahead { frames }) => {
                &&& o.lookahead_frames == Some(frames) && frames > 250
                &&& codec == VideoCodec::H265 && crf is None && !constant_qp
                &&& o.bitrate is Some && o.bitrate->0 > 0
            },
            Some(RateRefusal::Level { bps, buffer, by_default }) => {
                &&& codec == VideoCodec::H265 && crf is None && !constant_qp
                &&& o.bitrate == Some(bps) && bps > 0
                &&& by_default <==> o.buffer_ms is None
                &&& by_default ==> buffer == 1000
                &&& !by_default ==> o.buffer_ms == Some(buffer) && buffer > 0
                &&& o.lookahead_frames is Some ==> o.lookahead_frames->0 <= 250
                &&& bps > 13_200_000 || bps * buffer >= 13_200_001_000
            },
            None => true,
        },
{
    if o.bitrate is Some {
        let bps = o.bitrate->0;
        let b = declared_buffer(o);
        vstd::arithmetic::div_mod::lemma_fundamental_div_mod(bps * b, 1000);
    }
}

/// An access unit the picture coder handed back.
pub struct Access {
    pub data: Vec<u8>,
    /// Display index of the picture it codes.
    pub display: u64,
    pub keyframe: bool,
}

/// What a session's bookkeeping amounts to.
#[verifier::ext_equal]
pub struct H26xState {
    /// Timestamps of the pictures sent, by display index.
    pub pts: Seq<u64>,
    /// Packets waiting to be taken, oldest first.
    pub ready: Seq<PacketView>,
    /// Display index of the picture that was promised a keyframe, until the
    /// coder is told.
    pub force_at: Option<int>,
}

/// The packet an access unit becomes: with the timestamp of the picture it
/// codes.
pub open spec fn unit_packet(pts: Seq<u64>, a: Access) -> PacketView {
    PacketView { bytes: a.data@, pts: pts[a.display as int], is_keyframe: a.keyframe }
}

/// The packets that the first `n` access units become.
pub open spec fn unit_packets(pts: Seq<u64>, units: Seq<Access>, n: int) -> Seq<PacketView> {
    Seq::new(n as nat, |i: int| unit_packet(pts, units[i]))
}

/// Whether an access unit codes a picture that was sent.
pub open spec fn is_known(pts: Seq<u64>, a: Access) -> bool {
    a.display < pts.len()
}

/// What to hand the coder for a picture.
#[derive(Debug, Clone, Copy, PartialEq, Eq, Structural)]
pub struct Push {
    /// Tell the coder to make the picture it decides on next a keyframe.
    pub force_idr: bool,
    /// Bytes of the picture to hand over.
    pub bytes: usize,
}

/// A software session as the host drives it.
pub struct H26xEncoder {
    cfg: H26xConfig,
    codec: VideoCodec,
    format: PixelFormat,
    pts: Vec<u64>,
    ready: VecDeque<EncodedPacket>,
    force_at: Option<u64>,
}

/// Whether the keyframe that is owed is placed with the picture sent as number
/// `display`: that one makes the coder decide on the promised one.
pub open spec fn placed_now(s: H26xState, lookahead: u32) -> bool {
    s.force_at is Some && s.pts.len() - lookahead == s.force_at->0
}

/// The picture a flush makes the coder decide on first.
pub open spec fn first_on_flush(s: H26xState, lookahead: u32) -> int {
    rate::max_int(s.pts.len() - lookahead, 0)
}

/// A session once a picture was sent.
pub open spec fn after_sending(s: H26xState, pts: u64, lookahead: u32) -> H26xState {
    H26xState {
        pts: s.pts.push(pts),
        force_at: if placed_now(s, lookahead) {
            None
        } else {
            s.force_at
        },
        ..s
    }
}

/// A session once a keyframe was asked for.
pub open spec fn after_forcing(s: H26xState) -> H26xState {
    H26xState { force_at: Some(s.pts.len() as int), ..s }
}

/// Whether a flush tells the coder to make the picture it decides on first a
/// keyframe.
pub open spec fn placed_on_flush(s: H26xState, lookahead: u32) -> bool {
    s.force_at == Some(first_on_flush(s, lookahead))
}

/// What a flush leads to: whether to tell the coder to make the picture it
/// decides on first a keyframe, or why the one that is owed cannot be placed.
pub open spec fn flush_outcome(s: H26xState, lookahead: u32) -> Result<bool, H26xError> {
    match s.force_at {
        None => Ok(false),
        Some(at) => if at == first_on_flush(s, lookahead) {
            Ok(true)
        } else {
            Err(
                H26xError::Unplaceable {
                    at: at as u64,
                    lookahead,
                    first: first_on_flush(s, lookahead) as u64,
                },
            )
        },
    }
}

/// A session once the next packet was asked for.
pub open spec fn after_taking(s: H26xState) -> H26xState {
    if s.ready.len() > 0 {
        H26xState { ready: s.ready.subrange(1, s.ready.len() as int), ..s }
    } else {
        s
    }
}

/// The verdict on a picture; the coder reads `want` bytes.
pub open spec fn frame_verdict(
    cfg: H26xConfig,
    format: PixelFormat,
    f: VideoFrame,
    want: usize,
) -> Option<H26xError> {
    if f.format != format {
        Some(H26xError::FormatMismatch { configured: format, got: f.format })
    } else if f.width != cfg.width || f.height != cfg.height {
        Some(
            H26xError::SizeMismatch {
                width: cfg.width,
                height: cfg.height,
                frame_width: f.width,
                frame_height: f.height,
            },
        )
    } else if f.bytes().len() < want {
        Some(
            H26xError::TooShort {
                have: f.bytes().len() as usize,
                width: cfg.width,
                height: cfg.height,
                format,
                need: want,
            },
        )
    } else {
        None
    }
}

impl H26xEncoder {
    /// Whether the codec is one of the two.
    pub fn supports(codec: VideoCodec) -> (b: bool)
        ensures
            b == (codec == VideoCodec::H264 || codec == VideoCodec::H265),
    {
        match codec {
            VideoCodec::H264 | VideoCodec::H265 => true,
            _ => false,
        }
    }

    /// The session's bookkeeping.
    pub closed spec fn state(self) -> H26xState {
        H26xState {
            pts: self.pts@,
            ready: packet::packet_views(self.ready@),
            force_at: match self.force_at {
                Some(n) => Some(n as int),
                None => None,
            },
        }
    }

    /// What the coder was configured with.
    pub closed spec fn configuration(self) -> H26xConfig {
        self.cfg
    }

    /// The codec.
    pub closed spec fn codec(self) -> VideoCodec {
        self.codec
    }

    /// The one format the session takes.
    pub closed spec fn format(self) -> PixelFormat {
        self.format
    }

    /// What never changes about a session.
    pub open spec fn same_session(self, other: Self) -> bool {
        &&& self.configuration() == other.configuration()
        &&& self.codec() == other.codec()
        &&& self.format() == other.format()
    }

    /// Bookkeeping for an encoder of this configuration, or why it cannot be
    /// built. `row` is the tuning table's for the rung's codec, target and
    /// tier, to which the rung's own overrides are added.
    pub fn new(c: &EncoderConfig, row: &H26xSwParams, parallelism: usize) -> (r: Result<
        Self,
        H26xError,
    >)
        ensures
            match config_verdict(*c, tuning::h26x_sw_row(*row, c.overrides)) {
                Some(e) => r matches Err(got) && got == e,
                None => {
                    &&& r matches Ok(e)
                    &&& e.configuration() == config_of(
                        *c,
                        tuning::h26x_sw_row(*row, c.overrides),
                        parallelism,
                    )
                    &&& e.codec() == c.codec
                    &&& e.format() == c.pixel_format
                    &&& e.state() == (H26xState {
                        pts: Seq::empty(),
                        ready: Seq::empty(),
                        force_at: None,
                    })
                },
            },
    {
        let p: H26xSwParams = h26x_sw_params_with(row, &c.overrides);
        let cfg: H26xConfig = match plan_config(c, &p, parallelism) {
            Ok(cfg) => cfg,
            Err(e) => {
                return Err(e);
            },
        };
        let e: H26xEncoder = H26xEncoder {
            cfg,
            codec: c.codec,
            format: c.pixel_format,
            pts: Vec::new(),
            ready: VecDeque::new(),
            force_at: None,
        };
        assert(e.state() =~= (H26xState {
            pts: Seq::empty(),
            ready: Seq::empty(),
            force_at: None,
        }));
        Ok(e)
    }

    /// What to build the coder with.
    pub fn config(&self) -> (c: &H26xConfig)
        ensures
            *c == self.configuration(),
    {
        &self.cfg
    }

    /// Start on a picture of which the coder reads `want` bytes: hand it
    /// those, then report what came back to [`H26xEncoder::collect`].
    pub fn send_frame(&mut self, f: &VideoFrame, want: usize) -> (r: Result<Push, H26xError>)
        ensures
            final(self).same_session(*old(self)),
            match frame_verdict(old(self).configuration(), old(self).format(), *f, want) {
                Some(e) => {
                    &&& r == Err::<Push, H26xError>(e)
                    &&& final(self).state() == old(self).state()
                },
                None => {
                    let placed = placed_now(old(self).state(), old(self).configuration().lookahead);
                    &&& r == Ok::<Push, H26xError>(Push { force_idr: placed, bytes: want })
                    &&& final(self).state() == after_sending(
                        old(self).state(),
                        f.pts,
                        old(self).configuration().lookahead,
                    )
                },
            },
    {
        if f.format != self.format {
            return Err(H26xError::FormatMismatch { configured: self.format, got: f.format });
        }
        if f.width != self.cfg.width || f.height != self.cfg.height {
            return Err(
                H26xError::SizeMismatch {
                    width: self.cfg.width,
                    height: self.cfg.height,
                    frame_width: f.width,
                    frame_height: f.height,
                },
            );
        }
        let have: usize = f.slice().len();
        if have < want {
            return Err(
                H26xError::TooShort {
                    have,
                    width: self.cfg.width,
                    height: self.cfg.height,
                    format: self.format,
                    need: want,
                },
            );
        }
        let display: u64 = self.pts.len() as u64;
        let lookahead: u64 = self.cfg.lookahead as u64;
        let placed: bool = match self.force_at {
            Some(at) => display >= lookahead && display - lookahead == at,
            None => false,
        };
        if placed {
            self.force_at = None;
        }
        self.pts.push(f.pts);
        assert(self.state() =~= after_sending(
            old(self).state(),
            f.pts,
            old(self).configuration().lookahead,
        ));
        Ok(Push { force_idr: placed, bytes: want })
    }

    /// Queue the access units the coder handed back, up to one that codes a
    /// picture which was never sent.
    pub fn collect(&mut self, units: Vec<Access>) -> (r: Result<(), H26xError>)
        ensures
            final(self).same_session(*old(self)),
            exists|n: int|
                {
                    &&& 0 <= n <= units@.len()
                    &&& forall|i: int|
                        0 <= i < n ==> is_known(old(self).state().pts, #[trigger] units@[i])
                    &&& final(self).state() == #[trigger] queued_units(
                        old(self).state(),
                        units@,
                        n,
                    )
                    &&& match r {
                        Ok(_) => n == units@.len(),
                        Err(e) => {
                            &&& n < units@.len()
                            &&& !is_known(old(self).state().pts, units@[n])
                            &&& e == (H26xError::UnknownPicture {
                                display: units@[n].display,
                                sent: old(self).state().pts.len() as usize,
                            })
                        },
                    }
                },
    {
        let ghost before = self.state();
        let ghost all = units@;
        let mut rest: VecDeque<Access> = into_queue(units);
        let mut i: usize = 0;
        let total: usize = rest.len();
        assert(self.state() =~= queued_units(before, all, 0));
        while i < total
            invariant
                i <= total,
                total == all.len(),
                all == units@,
                rest@ == all.subrange(i as int, all.len() as int),
                self.same_session(*old(self)),
                before == old(self).state(),
                forall|k: int| 0 <= k < i ==> is_known(before.pts, #[trigger] all[k]),
                self.state() == queued_units(before, all, i as int),
            decreases total - i,
        {
            let ghost unread = rest@;
            let a: Access = match rest.pop_front() {
                Some(a) => a,
                None => {
                    assert(false);
                    return Ok(());
                },
            };
            assert(a == all[i as int]);
            assert(rest@ =~= all.subrange(i + 1, all.len() as int));
            assert(self.state().pts == before.pts);
            let sent: usize = self.pts.len();
            if a.display >= sent as u64 {
                assert(!is_known(before.pts, all[i as int]));
                assert(before.pts.len() as usize == sent);
                return Err(H26xError::UnknownPicture { display: a.display, sent });
            }
            let pts: u64 = self.pts[a.display as usize];
            let p: EncodedPacket = packet_from(a.data, pts, a.keyframe);
            let ghost was = self.ready@;
            self.ready.push_back(p);
            assert(packet::packet_views(self.ready@) =~= packet::packet_views(was).push(p@));
            assert(self.state() =~= queued_units(before, all, i + 1));
            i = i + 1;
        }
        Ok(())
    }

    /// Ask for the next picture sent to be a keyframe.
    pub fn force_keyframe_next(&mut self)
        ensures
            final(self).same_session(*old(self)),
            final(self).state() == after_forcing(old(self).state()),
    {
        self.force_at = Some(self.pts.len() as u64);
        assert(self.state() =~= after_forcing(old(self).state()));
    }

    /// Start to flush: whether to tell the coder to make the picture it decides
    /// on first a keyframe. One that is owed to another picture is an error.
    pub fn flush(&mut self) -> (r: Result<bool, H26xError>)
        ensures
            final(self).same_session(*old(self)),
            final(self).state() == (H26xState { force_at: None, ..old(self).state() }),
            r == flush_outcome(old(self).state(), old(self).configuration().lookahead),
            match old(self).state().force_at {
                None => r == Ok::<bool, H26xError>(false),
                Some(at) => {
                    let lookahead = old(self).configuration().lookahead;
                    let first = first_on_flush(old(self).state(), lookahead);
                    if at == first {
                        r == Ok::<bool, H26xError>(true)
                    } else {
                        r == Err::<bool, H26xError>(
                            H26xError::Unplaceable { at: at as u64, lookahead, first: first as u64 },
                        )
                    }
                },
            },
    {
        let owed: Option<u64> = self.force_at.take();
        assert(self.state() =~= (H26xState { force_at: None, ..old(self).state() }));
        match owed {
            None => Ok(false),
            Some(at) => {
                let sent: u64 = self.pts.len() as u64;
                let lookahead: u64 = self.cfg.lookahead as u64;
                let first: u64 = if sent > lookahead {
                    sent - lookahead
                } else {
                    0
                };
                if at != first {
                    return Err(
                        H26xError::Unplaceable { at, lookahead: self.cfg.lookahead, first },
                    );
                }
                Ok(true)
            },
        }
    }

    /// The packet that has waited longest, if there is one.
    pub fn receive_packet(&mut self) -> (p: Option<EncodedPacket>)
        ensures
            final(self).same_session(*old(self)),
            match p {
                Some(pkt) => {
                    &&& old(self).state().ready.len() > 0
                    &&& pkt@ == old(self).state().ready[0]
                    &&& final(self).state() == (H26xState {
                        ready: old(self).state().ready.subrange(
                            1,
                            old(self).state().ready.len() as int,
                        ),
                        ..old(self).state()
                    })
                },
                None => {
                    &&& old(self).state().ready.len() == 0
                    &&& final(self).state() == old(self).state()
                },
            },
            final(self).state() == after_taking(old(self).state()),
    {
        let ghost before = self.ready@;
        let p: Option<EncodedPacket> = self.ready.pop_front();
        proof {
            if before.len() > 0 {
                assert(packet::packet_views(self.ready@) =~= packet::packet_views(before).subrange(
                    1,
                    before.len() as int,
                ));
            }
        }
        p
    }

    /// Start a new stream, once the coder was built again from its own
    /// configuration.
    pub fn reset(&mut self)
        ensures
            final(self).same_session(*old(self)),
            final(self).state() == (H26xState {
                pts: Seq::empty(),
                ready: Seq::empty(),
                force_at: None,
            }),
    {
        self.pts.clear();
        self.ready.clear();
        self.force_at = None;
        assert(self.state() =~= (H26xState {
            pts: Seq::empty(),
            ready: Seq::empty(),
            force_at: None,
        }));
    }
}

/// A session after the first `n` access units were queued.
pub open spec fn queued_units(s: H26xState, units: Seq<Access>, n: int) -> H26xState {
    H26xState { ready: s.ready + unit_packets(s.pts, units, n), ..s }
}

fn into_queue(units: Vec<Access>) -> (q: VecDeque<Access>)
    ensures
        q@ == units@,
{
    let mut rest: Vec<Access> = units;
    let mut q: VecDeque<Access> = VecDeque::new();
    let ghost all = rest@;
    while rest.len() > 0
        invariant
            rest@.len() <= all.len(),
            rest@ == all.subrange(0, rest@.len() as int),
            q@ == all.subrange(rest@.len() as int, all.len() as int),
        decreases rest@.len(),
    {
        let ghost n = rest@.len();
        match rest.pop() {
            Some(a) => {
                q.push_front(a);
                assert(rest@ =~= all.subrange(0, rest@.len() as int));
                assert(q@ =~= all.subrange(rest@.len() as int, all.len() as int));
            },
            None => {},
        }
    }
    assert(q@ =~= all);
    q
}

/// A keyframe that was asked for lands on the next picture sent, whatever the
/// lookahead: the coder is told with the picture that makes it decide on that
/// one, and with none before.
pub proof fn a_forced_keyframe_lands_on_the_next_picture(s: H26xState, lookahead: u32, later: int)
    requires
        0 <= later,
        s.force_at is Some,
        s.pts.len() == s.force_at->0 + later,
    ensures
        placed_now(s, lookahead) <==> later == lookahead,
        placed_now(s, lookahead) ==> s.pts.len() - lookahead == s.force_at->0,
{
}

/// On a flush a keyframe that is still owed is placed exactly where as many
/// pictures followed the promised one as the lookahead holds back, or where the
/// promised one is the first of a stream that the lookahead holds back whole.
pub proof fn an_owed_keyframe_is_placed_or_refused(s: H26xState, lookahead: u32, later: int)
    requires
        0 <= later,
        s.force_at is Some,
        0 <= s.force_at->0,
        s.pts.len() == s.force_at->0 + later,
    ensures
        placed_on_flush(s, lookahead) <==> (later == lookahead || (s.force_at->0 == 0 && later
            <= lookahead)),
{
}

/// What is done with a session, the flush apart.
pub enum Deed {
    /// Ask for the next picture sent to be a keyframe.
    Force,
    /// Send a picture with this timestamp.
    Send(u64),
    /// Queue access units that the coder handed back.
    Collect(Seq<Access>),
    /// Take the packet that has waited longest.
    Take,
}

/// A session's past.
#[verifier::ext_equal]
pub struct History {
    /// Where its bookkeeping stands.
    pub state: H26xState,
    /// With which of the pictures sent the coder was told.
    pub told: Seq<bool>,
    /// The access units queued, in order.
    pub units: Seq<Access>,
    /// The packets taken, in order.
    pub taken: Seq<PacketView>,
    /// Whether every access unit coded a picture that had been sent.
    pub sound: bool,
}

/// The past of a session once one thing more was done with it.
pub open spec fn after_deed(h: History, deed: Deed, lookahead: u32) -> History {
    match deed {
        Deed::Force => History { state: after_forcing(h.state), ..h },
        Deed::Send(pts) => History {
            state: after_sending(h.state, pts, lookahead),
            told: h.told.push(placed_now(h.state, lookahead)),
            ..h
        },
        Deed::Collect(units) => History {
            state: queued_units(h.state, units, units.len() as int),
            units: h.units + units,
            sound: h.sound && forall|i: int|
                0 <= i < units.len() ==> is_known(h.state.pts, #[trigger] units[i]),
            ..h
        },
        Deed::Take => if h.state.ready.len() == 0 {
            h
        } else {
            History {
                state: H26xState {
                    ready: h.state.ready.subrange(1, h.state.ready.len() as int),
                    ..h.state
                },
                taken: h.taken.push(h.state.ready[0]),
                ..h
            }
        },
    }
}

/// The past of a session with which these things were done since `h`.
pub open spec fn continued(h: History, deeds: Seq<Deed>, lookahead: u32) -> History
    decreases deeds.len(),
{
    if deeds.len() == 0 {
        h
    } else {
        after_deed(continued(h, deeds.drop_last(), lookahead), deeds.last(), lookahead)
    }
}

/// The past of a new session.
pub open spec fn no_history() -> History {
    History {
        state: H26xState { pts: Seq::empty(), ready: Seq::empty(), force_at: None },
        told: Seq::empty(),
        units: Seq::empty(),
        taken: Seq::empty(),
        sound: true,
    }
}

/// The past of a new session with which these things were done.
pub open spec fn history(deeds: Seq<Deed>, lookahead: u32) -> History {
    continued(no_history(), deeds, lookahead)
}

/// The past of a session whose flush succeeded.
pub open spec fn after_flush(h: History) -> History {
    History { state: H26xState { force_at: None, ..h.state }, ..h }
}

/// How many of these deeds send a picture.
pub open spec fn sends(deeds: Seq<Deed>) -> int
    decreases deeds.len(),
{
    if deeds.len() == 0 {
        0
    } else {
        sends(deeds.drop_last()) + if deeds.last() is Send {
            1int
        } else {
            0
        }
    }
}

/// Whether a keyframe was asked for when `d` pictures had been sent: for the
/// picture with that display index, the next one.
pub open spec fn asked_for(deeds: Seq<Deed>, d: int) -> bool
    decreases deeds.len(),
{
    deeds.len() > 0 && (asked_for(deeds.drop_last(), d) || (deeds.last() is Force && d == sends(
        deeds.drop_last(),
    )))
}

/// Whether a keyframe asked for picture `d` stands: a session owes one at a
/// time, so a request for a later picture replaces one that the coder was not
/// told of yet.
pub open spec fn stands(deeds: Seq<Deed>, lookahead: u32, d: int) -> bool {
    &&& asked_for(deeds, d)
    &&& forall|later: int|
        d < later <= d + lookahead ==> !#[trigger] asked_for(deeds, later)
}

/// Whether the coder was told to make picture `d` a keyframe: with the picture
/// that made it decide on that one, or by the flush that did so first.
pub open spec fn told_for(h: History, lookahead: u32, d: int) -> bool {
    if d + lookahead < h.state.pts.len() {
        h.told[d + lookahead]
    } else {
        d == first_on_flush(h.state, lookahead) && placed_on_flush(h.state, lookahead)
    }
}

/// Whether a flush succeeds: nothing is owed, or it can be placed.
pub open spec fn flush_succeeds(s: H26xState, lookahead: u32) -> bool {
    s.force_at is None || placed_on_flush(s, lookahead)
}

/// What a history holds, deed by deed.
proof fn histories_keep_the_books(deeds: Seq<Deed>, lookahead: u32)
    ensures
        history(deeds, lookahead).state.pts.len() == sends(deeds),
        history(deeds, lookahead).told.len() == sends(deeds),
        forall|d: int| #[trigger] asked_for(deeds, d) ==> 0 <= d <= sends(deeds),
        forall|k: int|
            0 <= k < sends(deeds) ==> (#[trigger] history(deeds, lookahead).told[k] <==> k
                >= lookahead && stands(deeds, lookahead, k - lookahead)),
        match history(deeds, lookahead).state.force_at {
            Some(at) => {
                &&& asked_for(deeds, at)
                &&& forall|d: int| d > at ==> !#[trigger] asked_for(deeds, d)
                &&& at + lookahead >= sends(deeds)
            },
            None => forall|d: int| #[trigger]
                stands(deeds, lookahead, d) ==> d + lookahead < sends(deeds),
        },
    decreases deeds.len(),
{
    if deeds.len() > 0 {
        let before = deeds.drop_last();
        let h = history(before, lookahead);
        let n = sends(before);
        histories_keep_the_books(before, lookahead);
        match deeds.last() {
            Deed::Collect(_) | Deed::Take => {
                assert(history(deeds, lookahead).state.pts == h.state.pts);
                assert(history(deeds, lookahead).state.force_at == h.state.force_at);
                assert(history(deeds, lookahead).told == h.told);
                assert forall|d: int| asked_for(deeds, d) == asked_for(before, d) by {}
                assert forall|d: int| stands(deeds, lookahead, d) == stands(before, lookahead, d) by {
                    same_requests(before, deeds, lookahead, d);
                }
            },
            Deed::Force => {
                assert forall|d: int| asked_for(deeds, d) <==> (asked_for(before, d) || d == n) by {}
                assert forall|k: int| 0 <= k < n implies (#[trigger] history(
                    deeds,
                    lookahead,
                ).told[k] <==> k >= lookahead && stands(deeds, lookahead, k - lookahead)) by {
                    assert(history(deeds, lookahead).told[k] == h.told[k]);
                    requests_for_later_pictures_change_nothing(before, deeds, lookahead, k - lookahead, n);
                }
                assert(asked_for(deeds, n));
            },
            Deed::Send(pts) => {
                assert forall|d: int| asked_for(deeds, d) == asked_for(before, d) by {}
                assert forall|d: int| stands(deeds, lookahead, d) == stands(before, lookahead, d) by {
                    same_requests(before, deeds, lookahead, d);
                }
                assert(placed_now(h.state, lookahead) <==> n >= lookahead && stands(
                    before,
                    lookahead,
                    n - lookahead,
                )) by {
                    if n >= lookahead && stands(before, lookahead, n - lookahead) {
                        assert(asked_for(before, n - lookahead));
                    }
                    if placed_now(h.state, lookahead) {
                        assert(asked_for(before, n - lookahead));
                    }
                }
                assert forall|k: int| 0 <= k < n + 1 implies (#[trigger] history(
                    deeds,
                    lookahead,
                ).told[k] <==> k >= lookahead && stands(deeds, lookahead, k - lookahead)) by {
                    if k < n {
                        assert(history(deeds, lookahead).told[k] == h.told[k]);
                    }
                }
                match history(deeds, lookahead).state.force_at {
                    Some(at) => {
                        assert(h.state.force_at == Some(at));
                    },
                    None => {
                        assert forall|d: int| #[trigger] stands(deeds, lookahead, d) implies d
                            + lookahead < n + 1 by {
                            assert(stands(before, lookahead, d));
                            assert(asked_for(before, d));
                            if h.state.force_at is Some {
                                let at = h.state.force_at->0;
                                assert(at == n - lookahead);
                                assert(!(d > at));
                            }
                        }
                    },
                }
            },
        }
    }
}

/// Deeds with the same requests let the same ones stand.
proof fn same_requests(a: Seq<Deed>, b: Seq<Deed>, lookahead: u32, d: int)
    requires
        forall|e: int| asked_for(a, e) == asked_for(b, e),
    ensures
        stands(a, lookahead, d) == stands(b, lookahead, d),
{
    if stands(a, lookahead, d) {
        assert(asked_for(b, d));
        assert forall|later: int| d < later <= d + lookahead implies !#[trigger] asked_for(
            b,
            later,
        ) by {
            assert(!asked_for(a, later));
        }
    }
    if stands(b, lookahead, d) {
        assert(asked_for(a, d));
        assert forall|later: int| d < later <= d + lookahead implies !#[trigger] asked_for(
            a,
            later,
        ) by {
            assert(!asked_for(b, later));
        }
    }
}

/// A request for picture `n` leaves alone one that the coder was told of before.
proof fn requests_for_later_pictures_change_nothing(
    a: Seq<Deed>,
    b: Seq<Deed>,
    lookahead: u32,
    d: int,
    n: int,
)
    requires
        forall|e: int| asked_for(b, e) <==> (asked_for(a, e) || e == n),
        d + lookahead < n,
    ensures
        stands(a, lookahead, d) == stands(b, lookahead, d),
{
    if stands(a, lookahead, d) {
        assert(asked_for(b, d));
        assert forall|later: int| d < later <= d + lookahead implies !#[trigger] asked_for(
            b,
            later,
        ) by {
            assert(!asked_for(a, later));
        }
    }
    if stands(b, lookahead, d) {
        assert(asked_for(a, d));
        assert forall|later: int| d < later <= d + lookahead implies !#[trigger] asked_for(
            a,
            later,
        ) by {
            assert(!asked_for(b, later));
        }
    }
}

/// The coder is told of exactly the keyframes that were asked for and stand,
/// each for the next picture sent after the request, whatever the lookahead.
pub proof fn the_coder_is_told_of_every_request(deeds: Seq<Deed>, lookahead: u32, d: int)
    requires
        0 <= d < sends(deeds),
        flush_succeeds(history(deeds, lookahead).state, lookahead),
    ensures
        told_for(history(deeds, lookahead), lookahead, d) <==> stands(deeds, lookahead, d),
{
    histories_keep_the_books(deeds, lookahead);
    let h = history(deeds, lookahead);
    if d + lookahead < sends(deeds) {
        assert(h.told[d + lookahead] <==> stands(deeds, lookahead, d + lookahead - lookahead));
    } else {
        if stands(deeds, lookahead, d) {
            assert(asked_for(deeds, d));
            match h.state.force_at {
                Some(at) => {
                    assert(!(d > at));
                    assert(asked_for(deeds, at));
                },
                None => {},
            }
        }
        if told_for(h, lookahead, d) {
            assert(h.state.force_at == Some(d));
        }
    }
}

/// Requests that are further apart than the lookahead all stand.
pub proof fn spaced_requests_all_stand(deeds: Seq<Deed>, lookahead: u32, d: int)
    requires
        forall|a: int, b: int|
            a < b && #[trigger] asked_for(deeds, a) && #[trigger] asked_for(deeds, b) ==> a
                + lookahead < b,
    ensures
        stands(deeds, lookahead, d) <==> asked_for(deeds, d),
{
}

/// Whether no keyframe is asked for.
pub open spec fn asks_for_nothing(deeds: Seq<Deed>) -> bool {
    forall|i: int| 0 <= i < deeds.len() ==> !(#[trigger] deeds[i] is Force)
}

proof fn nothing_is_asked_for(deeds: Seq<Deed>, d: int)
    requires
        asks_for_nothing(deeds),
    ensures
        !asked_for(deeds, d),
    decreases deeds.len(),
{
    if deeds.len() > 0 {
        let before = deeds.drop_last();
        assert forall|i: int| 0 <= i < before.len() implies !(#[trigger] before[i] is Force) by {
            assert(before[i] == deeds[i]);
        }
        nothing_is_asked_for(before, d);
        assert(!(deeds[deeds.len() - 1] is Force));
    }
}

proof fn one_request_is_for_one_picture(before: Seq<Deed>, after: Seq<Deed>, d: int)
    requires
        asks_for_nothing(before),
        asks_for_nothing(after),
    ensures
        sends(before.push(Deed::Force) + after) == sends(before) + sends(after),
        asked_for(before.push(Deed::Force) + after, d) <==> d == sends(before),
    decreases after.len(),
{
    let deeds = before.push(Deed::Force) + after;
    if after.len() == 0 {
        nothing_is_asked_for(before, d);
        assert(deeds =~= before.push(Deed::Force));
        assert(deeds.drop_last() =~= before);
    } else {
        let shorter = after.drop_last();
        assert forall|i: int| 0 <= i < shorter.len() implies !(#[trigger] shorter[i] is Force) by {
            assert(shorter[i] == after[i]);
        }
        one_request_is_for_one_picture(before, shorter, d);
        assert(deeds.drop_last() =~= before.push(Deed::Force) + shorter);
        assert(!(after[after.len() - 1] is Force));
        assert(deeds.last() == after[after.len() - 1]);
    }
}

/// A keyframe asked for once, after `before` and ahead of `after`, stands, and
/// is for the first picture sent in `after` and no other. The stream can be
/// ended unless fewer pictures followed the request than the lookahead holds
/// back and some came before it.
pub proof fn a_lone_request_marks_one_picture(
    before: Seq<Deed>,
    after: Seq<Deed>,
    lookahead: u32,
    d: int,
)
    requires
        asks_for_nothing(before),
        asks_for_nothing(after),
    ensures
        ({
            let deeds = before.push(Deed::Force) + after;
            &&& sends(deeds) == sends(before) + sends(after)
            &&& stands(deeds, lookahead, d) <==> d == sends(before)
            &&& flush_succeeds(history(deeds, lookahead).state, lookahead) <==> (sends(after)
                >= lookahead || sends(before) == 0)
        }),
{
    let deeds = before.push(Deed::Force) + after;
    let at = sends(before);
    assert forall|e: int| asked_for(deeds, e) <==> e == at by {
        one_request_is_for_one_picture(before, after, e);
    }
    one_request_is_for_one_picture(before, after, at);
    assert(stands(deeds, lookahead, at));
    histories_keep_the_books(before, lookahead);
    histories_keep_the_books(deeds, lookahead);
    match history(deeds, lookahead).state.force_at {
        Some(owed) => {
            assert(asked_for(deeds, owed));
        },
        None => {},
    }
}

/// Whether a coder does as it is told: it codes a picture as a keyframe where
/// it was told to, or where `own` says that it does so by itself, as at the
/// start of a group.
pub open spec fn coder_obeys(
    units: Seq<Access>,
    h: History,
    lookahead: u32,
    own: spec_fn(int) -> bool,
) -> bool {
    forall|i: int|
        0 <= i < units.len() ==> ((#[trigger] units[i]).keyframe <==> own(units[i].display as int)
            || told_for(h, lookahead, units[i].display as int))
}

/// A forced keyframe comes out on the next picture sent, under any lookahead:
/// with a coder that does as it is told, the packets that are keyframes are
/// those of the coder's own keyframes and those of the pictures that were the
/// next ones to be sent when a keyframe was asked for, each with the timestamp
/// of its picture. No picture that the lookahead held back becomes one instead.
/// `s` is the session when the units come back, at any time up to the end.
pub proof fn forced_keyframes_come_out_on_the_next_picture(
    deeds: Seq<Deed>,
    lookahead: u32,
    s: H26xState,
    units: Seq<Access>,
    own: spec_fn(int) -> bool,
    n: int,
    i: int,
)
    requires
        flush_succeeds(history(deeds, lookahead).state, lookahead),
        s.pts.is_prefix_of(history(deeds, lookahead).state.pts),
        coder_obeys(units, history(deeds, lookahead), lookahead, own),
        0 <= i < n <= units.len(),
        is_known(s.pts, units[i]),
    ensures
        ({
            let d = units[i].display as int;
            let p = queued_units(s, units, n).ready[s.ready.len() + i];
            &&& p.is_keyframe <==> own(d) || stands(deeds, lookahead, d)
            &&& p.pts == history(deeds, lookahead).state.pts[d]
        }),
{
    histories_keep_the_books(deeds, lookahead);
    the_coder_is_told_of_every_request(deeds, lookahead, units[i].display as int);
}

/// The packets taken and those waiting are those of all access units, in order,
/// each of a picture that was sent.
pub open spec fn accounts_for_its_units(h: History) -> bool {
    &&& h.taken + h.state.ready == unit_packets(h.state.pts, h.units, h.units.len() as int)
    &&& forall|i: int| 0 <= i < h.units.len() ==> is_known(h.state.pts, #[trigger] h.units[i])
}

/// No packet is lost, doubled or moved: as long as the coder codes pictures that
/// were sent, what comes out of a session is what its coder handed back.
pub proof fn packets_are_the_coders_units(h: History, deeds: Seq<Deed>, lookahead: u32)
    requires
        accounts_for_its_units(h),
        continued(h, deeds, lookahead).sound,
    ensures
        accounts_for_its_units(continued(h, deeds, lookahead)),
    decreases deeds.len(),
{
    if deeds.len() > 0 {
        let b = continued(h, deeds.drop_last(), lookahead);
        let a = continued(h, deeds, lookahead);
        assert(b.sound);
        packets_are_the_coders_units(h, deeds.drop_last(), lookahead);
        match deeds.last() {
            Deed::Force => {},
            Deed::Send(_) => {
                assert forall|i: int| 0 <= i < a.units.len() implies is_known(
                    a.state.pts,
                    #[trigger] a.units[i],
                ) by {
                    assert(is_known(b.state.pts, b.units[i]));
                }
                assert(unit_packets(a.state.pts, a.units, a.units.len() as int) =~= unit_packets(
                    b.state.pts,
                    b.units,
                    b.units.len() as int,
                )) by {
                    assert forall|i: int| 0 <= i < b.units.len() implies unit_packet(
                        a.state.pts,
                        a.units[i],
                    ) == unit_packet(b.state.pts, #[trigger] b.units[i]) by {
                        assert(is_known(b.state.pts, b.units[i]));
                    }
                }
            },
            Deed::Collect(units) => {
                assert forall|i: int| 0 <= i < a.units.len() implies is_known(
                    a.state.pts,
                    #[trigger] a.units[i],
                ) by {
                    if i < b.units.len() {
                        assert(is_known(b.state.pts, b.units[i]));
                    } else {
                        assert(is_known(b.state.pts, units[i - b.units.len()]));
                    }
                }
                assert(unit_packets(a.state.pts, a.units, a.units.len() as int) =~= unit_packets(
                    b.state.pts,
                    b.units,
                    b.units.len() as int,
                ) + unit_packets(b.state.pts, units, units.len() as int));
                assert(a.taken + a.state.ready =~= (b.taken + b.state.ready) + unit_packets(
                    b.state.pts,
                    units,
                    units.len() as int,
                ));
            },
            Deed::Take => {
                assert(a.taken + a.state.ready =~= b.taken + b.state.ready);
            },
        }
    }
}

/// Whether only access units are queued and packets taken, as after a flush.
pub open spec fn only_drains(deeds: Seq<Deed>) -> bool {
    forall|i: int|
        0 <= i < deeds.len() ==> (#[trigger] deeds[i] is Collect || deeds[i] is Take)
}

proof fn draining_sends_nothing(h: History, deeds: Seq<Deed>, lookahead: u32)
    requires
        only_drains(deeds),
    ensures
        continued(h, deeds, lookahead).state.pts == h.state.pts,
    decreases deeds.len(),
{
    if deeds.len() > 0 {
        let before = deeds.drop_last();
        assert forall|i: int| 0 <= i < before.len() implies (#[trigger] before[i] is Collect
            || before[i] is Take) by {
            assert(before[i] == deeds[i]);
        }
        draining_sends_nothing(h, before, lookahead);
        assert(deeds[deeds.len() - 1] is Collect || deeds[deeds.len() - 1] is Take);
    }
}

/// Whether these access units code pictures `0..n`, each once, the keyframes
/// among them in the order they are shown.
pub open spec fn codes_each_picture_once(units: Seq<Access>, n: int) -> bool {
    &&& forall|i: int| 0 <= i < units.len() ==> (#[trigger] units[i]).display < n
    &&& forall|d: int|
        0 <= d < n ==> #[trigger] is_coded(units, d)
    &&& forall|i: int, j: int|
        0 <= i < j < units.len() && (#[trigger] units[i]).keyframe && (#[trigger] units[j]).keyframe
            ==> units[i].display < units[j].display
}

/// Whether one of these access units codes picture `d`.
pub open spec fn is_coded(units: Seq<Access>, d: int) -> bool {
    exists|i: int| 0 <= i < units.len() && (#[trigger] units[i]).display == d
}

/// The timestamps of the packets that are keyframes, in order.
pub open spec fn keyframe_pts(packets: Seq<PacketView>) -> Seq<u64>
    decreases packets.len(),
{
    if packets.len() == 0 {
        Seq::empty()
    } else if packets.last().is_keyframe {
        keyframe_pts(packets.drop_last()).push(packets.last().pts)
    } else {
        keyframe_pts(packets.drop_last())
    }
}

/// Those of the numbers below `n` that satisfy `keep`, in order.
pub open spec fn kept_below(n: int, keep: spec_fn(int) -> bool) -> Seq<int>
    decreases n,
{
    if n <= 0 {
        Seq::empty()
    } else if keep(n - 1) {
        kept_below(n - 1, keep).push(n - 1)
    } else {
        kept_below(n - 1, keep)
    }
}

/// The display indices of the keyframes among the first `n` access units.
spec fn key_displays(units: Seq<Access>, n: int) -> Seq<int>
    decreases n,
{
    if n <= 0 {
        Seq::empty()
    } else if units[n - 1].keyframe {
        key_displays(units, n - 1).push(units[n - 1].display as int)
    } else {
        key_displays(units, n - 1)
    }
}

/// Whether one of the first `n` access units codes picture `d` as a keyframe.
spec fn is_key(units: Seq<Access>, n: int, d: int) -> bool {
    exists|i: int| 0 <= i < n && (#[trigger] units[i]).keyframe && units[i].display == d
}

proof fn key_displays_are_the_keyframes(units: Seq<Access>, n: int)
    requires
        0 <= n <= units.len(),
        forall|i: int, j: int|
            0 <= i < j < units.len() && (#[trigger] units[i]).keyframe && (
            #[trigger] units[j]).keyframe ==> units[i].display < units[j].display,
    ensures
        forall|k: int|
            0 <= k < key_displays(units, n).len() ==> is_key(
                units,
                n,
                #[trigger] key_displays(units, n)[k],
            ),
        forall|i: int|
            0 <= i < n && (#[trigger] units[i]).keyframe ==> key_displays(units, n).contains(
                units[i].display as int,
            ),
        forall|k: int, l: int|
            0 <= k < l < key_displays(units, n).len() ==> #[trigger] key_displays(units, n)[k]
                < #[trigger] key_displays(units, n)[l],
    decreases n,
{
    if n > 0 {
        key_displays_are_the_keyframes(units, n - 1);
        let shorter = key_displays(units, n - 1);
        let all = key_displays(units, n);
        if units[n - 1].keyframe {
            let last = units[n - 1].display as int;
            assert(all[shorter.len() as int] == last);
            assert forall|k: int| 0 <= k < all.len() implies is_key(units, n, #[trigger] all[k]) by {
                if k < shorter.len() {
                    assert(is_key(units, n - 1, shorter[k]));
                } else {
                    assert(units[n - 1].display == all[k]);
                }
            }
            assert forall|i: int| 0 <= i < n && (#[trigger] units[i]).keyframe implies all.contains(
                units[i].display as int,
            ) by {
                if i < n - 1 {
                    let k = choose|k: int|
                        0 <= k < shorter.len() && shorter[k] == units[i].display as int;
                    assert(all[k] == units[i].display as int);
                }
            }
            assert forall|k: int, l: int| 0 <= k < l < all.len() implies #[trigger] all[k]
                < #[trigger] all[l] by {
                assert(all[k] == shorter[k]);
                if l < shorter.len() {
                    assert(all[l] == shorter[l]);
                } else {
                    assert(is_key(units, n - 1, shorter[k]));
                    let i = choose|i: int|
                        0 <= i < n - 1 && (#[trigger] units[i]).keyframe && units[i].display
                            == shorter[k];
                    assert(units[i].display < units[n - 1].display);
                }
            }
        } else {
            assert forall|k: int| 0 <= k < all.len() implies is_key(units, n, #[trigger] all[k]) by {
                assert(is_key(units, n - 1, shorter[k]));
            }
        }
    }
}

/// An ascending sequence of the numbers below `n` that satisfy `keep`, and of
/// all of them, is the sequence of them.
proof fn ascending_is_kept_below(s: Seq<int>, n: int, keep: spec_fn(int) -> bool)
    requires
        0 <= n,
        forall|k: int| 0 <= k < s.len() ==> 0 <= #[trigger] s[k] < n && keep(s[k]),
        forall|d: int| 0 <= d < n && #[trigger] keep(d) ==> s.contains(d),
        forall|k: int, l: int| 0 <= k < l < s.len() ==> #[trigger] s[k] < #[trigger] s[l],
    ensures
        s == kept_below(n, keep),
    decreases n,
{
    if n == 0 {
        if s.len() > 0 {
            assert(0 <= s[0] < n);
        }
        assert(s =~= kept_below(n, keep));
    } else if keep(n - 1) {
        assert(s.contains(n - 1));
        let k = choose|k: int| 0 <= k < s.len() && s[k] == n - 1;
        if k < s.len() - 1 {
            assert(s[k] < s[s.len() - 1]);
            assert(s[s.len() - 1] < n);
        }
        let shorter = s.drop_last();
        assert forall|l: int| 0 <= l < shorter.len() implies 0 <= #[trigger] shorter[l] < n - 1
            && keep(shorter[l]) by {
            assert(shorter[l] == s[l]);
            assert(s[l] < s[s.len() - 1]);
        }
        assert forall|d: int| 0 <= d < n - 1 && #[trigger] keep(d) implies shorter.contains(d) by {
            let l = choose|l: int| 0 <= l < s.len() && s[l] == d;
            assert(shorter[l] == d);
        }
        assert forall|a: int, b: int| 0 <= a < b < shorter.len() implies #[trigger] shorter[a]
            < #[trigger] shorter[b] by {
            assert(shorter[a] == s[a] && shorter[b] == s[b]);
        }
        ascending_is_kept_below(shorter, n - 1, keep);
        assert(s =~= shorter.push(n - 1));
    } else {
        assert forall|l: int| 0 <= l < s.len() implies 0 <= #[trigger] s[l] < n - 1 && keep(
            s[l],
        ) by {
            assert(keep(s[l]));
        }
        ascending_is_kept_below(s, n - 1, keep);
    }
}

proof fn keyframes_keep_their_timestamps(pts: Seq<u64>, units: Seq<Access>, n: int)
    requires
        0 <= n <= units.len(),
    ensures
        keyframe_pts(unit_packets(pts, units, n)) == key_displays(units, n).map_values(
            |d: int| pts[d],
        ),
    decreases n,
{
    let packets = unit_packets(pts, units, n);
    let stamps = key_displays(units, n).map_values(|d: int| pts[d]);
    if n == 0 {
        assert(keyframe_pts(packets) =~= stamps);
    } else {
        keyframes_keep_their_timestamps(pts, units, n - 1);
        assert(packets.drop_last() =~= unit_packets(pts, units, n - 1));
        assert(packets.last() == unit_packet(pts, units[n - 1]));
        assert(keyframe_pts(packets) =~= stamps);
    }
}

/// What comes out of a session from its first picture to its last packet: of the
/// packets taken, the keyframes are exactly those of the pictures that were the
/// next ones to be sent when a keyframe was asked for, and those that the coder
/// makes by itself, in the order the pictures were sent and with their
/// timestamps, whatever the lookahead.
///
/// `deeds` go up to the flush and `rest` follow it, until no packet is left. The
/// coder is any that codes each picture once, keyframes in the order they are
/// shown, and does as it is told.
pub proof fn the_keyframes_taken_are_those_asked_for(
    deeds: Seq<Deed>,
    rest: Seq<Deed>,
    lookahead: u32,
    own: spec_fn(int) -> bool,
)
    requires
        flush_succeeds(history(deeds, lookahead).state, lookahead),
        only_drains(rest),
        ({
            let end = continued(after_flush(history(deeds, lookahead)), rest, lookahead);
            &&& end.sound
            &&& end.state.ready.len() == 0
            &&& codes_each_picture_once(end.units, sends(deeds))
            &&& coder_obeys(end.units, history(deeds, lookahead), lookahead, own)
        }),
    ensures
        ({
            let h = history(deeds, lookahead);
            let end = continued(after_flush(h), rest, lookahead);
            keyframe_pts(end.taken) == kept_below(
                sends(deeds),
                |d: int| own(d) || stands(deeds, lookahead, d),
            ).map_values(|d: int| h.state.pts[d])
        }),
{
    let h = history(deeds, lookahead);
    let f = after_flush(h);
    let end = continued(f, rest, lookahead);
    let n = sends(deeds);
    let keep = |d: int| own(d) || stands(deeds, lookahead, d);
    histories_keep_the_books(deeds, lookahead);
    soundness_stays(f, rest, lookahead);
    assert(accounts_for_its_units(no_history())) by {
        assert(no_history().taken + no_history().state.ready =~= unit_packets(
            no_history().state.pts,
            no_history().units,
            0,
        ));
    }
    packets_are_the_coders_units(no_history(), deeds, lookahead);
    packets_are_the_coders_units(f, rest, lookahead);
    draining_sends_nothing(f, rest, lookahead);
    assert(end.taken =~= end.taken + end.state.ready);
    let m = end.units.len() as int;
    keyframes_keep_their_timestamps(end.state.pts, end.units, m);
    key_displays_are_the_keyframes(end.units, m);
    let keys = key_displays(end.units, m);
    assert forall|i: int| 0 <= i < m implies ((#[trigger] end.units[i]).keyframe <==> keep(
        end.units[i].display as int,
    )) by {
        the_coder_is_told_of_every_request(deeds, lookahead, end.units[i].display as int);
    }
    assert forall|k: int| 0 <= k < keys.len() implies 0 <= #[trigger] keys[k] < n && keep(
        keys[k],
    ) by {
        assert(is_key(end.units, m, keys[k]));
        let i = choose|i: int|
            0 <= i < m && (#[trigger] end.units[i]).keyframe && end.units[i].display == keys[k];
        assert(end.units[i].display < n);
    }
    assert forall|d: int| 0 <= d < n && #[trigger] keep(d) implies keys.contains(d) by {
        assert(is_coded(end.units, d));
        let i = choose|i: int| 0 <= i < m && (#[trigger] end.units[i]).display == d;
        assert(end.units[i].keyframe);
    }
    ascending_is_kept_below(keys, n, keep);
    assert(keyframe_pts(end.taken) =~= kept_below(n, keep).map_values(|d: int| h.state.pts[d]));
}

/// A session that is sound in the end was sound all along.
proof fn soundness_stays(h: History, deeds: Seq<Deed>, lookahead: u32)
    requires
        continued(h, deeds, lookahead).sound,
    ensures
        h.sound,
    decreases deeds.len(),
{
    if deeds.len() > 0 {
        soundness_stays(h, deeds.drop_last(), lookahead);
    }
}

/// A stream whose coder makes only its first picture a keyframe by itself, and in
/// which one more was asked for, has exactly two keyframes: the first picture and
/// the next one sent after the request.
pub proof fn one_request_makes_one_more_keyframe(
    before: Seq<Deed>,
    after: Seq<Deed>,
    rest: Seq<Deed>,
    lookahead: u32,
)
    requires
        asks_for_nothing(before),
        asks_for_nothing(after),
        sends(before) > 0,
        sends(after) > 0,
        sends(after) >= lookahead,
        only_drains(rest),
        ({
            let h = history(before.push(Deed::Force) + after, lookahead);
            let end = continued(after_flush(h), rest, lookahead);
            &&& end.sound
            &&& end.state.ready.len() == 0
            &&& codes_each_picture_once(end.units, sends(before) + sends(after))
            &&& coder_obeys(end.units, h, lookahead, |d: int| d == 0)
        }),
    ensures
        ({
            let h = history(before.push(Deed::Force) + after, lookahead);
            let end = continued(after_flush(h), rest, lookahead);
            keyframe_pts(end.taken) == seq![h.state.pts[0], h.state.pts[sends(before)]]
        }),
{
    let deeds = before.push(Deed::Force) + after;
    let own = |d: int| d == 0;
    let keep = |d: int| own(d) || stands(deeds, lookahead, d);
    let a = sends(before);
    let n = sends(before) + sends(after);
    a_lone_request_marks_one_picture(before, after, lookahead, a);
    the_keyframes_taken_are_those_asked_for(deeds, rest, lookahead, own);
    let two = seq![0, a];
    assert forall|d: int| 0 <= d < n && #[trigger] keep(d) implies two.contains(d) by {
        a_lone_request_marks_one_picture(before, after, lookahead, d);
        assert(two[0] == 0 && two[1] == a);
    }
    assert forall|k: int| 0 <= k < two.len() implies 0 <= #[trigger] two[k] < n && keep(two[k]) by {
        a_lone_request_marks_one_picture(before, after, lookahead, two[k]);
    }
    ascending_is_kept_below(two, n, keep);
    let h = history(deeds, lookahead);
    assert(two.map_values(|d: int| h.state.pts[d]) =~= seq![h.state.pts[0], h.state.pts[a]]);
}

/// A packet carries the timestamp its picture came with, however the coder
/// reordered it.
pub proof fn packets_carry_their_pictures_timestamp(
    s: H26xState,
    units: Seq<Access>,
    n: int,
    i: int,
)
    requires
        0 <= i < n <= units.len(),
        is_known(s.pts, units[i]),
    ensures
        queued_units(s, units, n).ready[s.ready.len() + i].pts == s.pts[units[i].display as int],
        queued_units(s, units, n).ready[s.ready.len() + i].bytes == units[i].data@,
{
}

/// A constant-quantiser rung has neither buffer nor lookahead; an H.264 rung
/// never has a lookahead.
pub proof fn lookaheads_reach_rate_controlled_h265_only(
    c: EncoderConfig,
    p: H26xSwParams,
    parallelism: usize,
)
    ensures
        p.bitrate is None ==> config_of(c, p, parallelism).cpb_ms == 0 && config_of(
            c,
            p,
            parallelism,
        ).lookahead == 0,
        c.codec == VideoCodec::H264 ==> config_of(c, p, parallelism).lookahead == 0,
        p.bitrate is Some && c.codec == VideoCodec::H265 ==> config_of(
            c,
            p,
            parallelism,
        ).lookahead == p.lookahead,
{
}

/// A picture is taken exactly where it is of the session's format and size and
/// holds all the bytes the coder reads. A refusal says which of these fails,
/// with both sides of the comparison.
pub proof fn which_pictures_are_taken(
    cfg: H26xConfig,
    format: PixelFormat,
    f: VideoFrame,
    want: usize,
)
    ensures
        match frame_verdict(cfg, format, f, want) {
            None => {
                &&& f.format == format
                &&& f.width == cfg.width && f.height == cfg.height
                &&& f.bytes().len() >= want
            },
            Some(H26xError::FormatMismatch { configured, got }) => configured == format && got
                == f.format && got != configured,
            Some(H26xError::SizeMismatch { width, height, frame_width, frame_height }) => {
                &&& f.format == format
                &&& width == cfg.width && height == cfg.height
                &&& frame_width == f.width && frame_height == f.height
                &&& width != frame_width || height != frame_height
            },
            Some(H26xError::TooShort { have, width, height, format: g, need }) => {
                &&& f.format == format && f.width == cfg.width && f.height == cfg.height
                &&& width == cfg.width && height == cfg.height && g == format
                &&& have == f.bytes().len() as usize && need == want
                &&& f.bytes().len() < want
            },
            Some(_) => false,
        },
{
}

/// A flush tells the coder of a keyframe exactly where the one that is owed is
/// for the picture it decides on first, which is the one the lookahead holds
/// back longest; owed to another picture it is an error that names both, and
/// without one owed there is nothing to tell.
pub proof fn a_flush_places_what_is_owed(s: H26xState, lookahead: u32)
    requires
        s.pts.len() <= u64::MAX,
        s.force_at is Some ==> 0 <= s.force_at->0 <= u64::MAX,
    ensures
        ({
            let first = if s.pts.len() >= lookahead {
                s.pts.len() - lookahead
            } else {
                0
            };
            &&& s.force_at is None ==> flush_outcome(s, lookahead) == Ok::<bool, H26xError>(false)
            &&& s.force_at == Some(first) ==> flush_outcome(s, lookahead) == Ok::<bool, H26xError>(
                true,
            )
            &&& s.force_at matches Some(at) ==> (at != first ==> {
                &&& flush_outcome(s, lookahead) matches Err(
                    H26xError::Unplaceable { at: a, lookahead: l, first: g },
                )
                &&& a == at && l == lookahead && g == first
            })
        }),
{
}

/// The packet that has waited longest leaves first, and the others move up.
pub proof fn the_longest_waiting_leaves_first(s: H26xState, i: int)
    ensures
        s.ready.len() == 0 ==> after_taking(s) == s,
        s.ready.len() > 0 ==> {
            &&& after_taking(s).ready.len() == s.ready.len() - 1
            &&& 0 <= i < s.ready.len() - 1 ==> after_taking(s).ready[i] == s.ready[i + 1]
            &&& after_taking(s).pts == s.pts && after_taking(s).force_at == s.force_at
        },
{
}

/// A session is built from the rung's own request: its rate, its lookahead for
/// H.265, its buffer (a second where it names none), and each tool that it sets;
/// the row decides what the rung leaves open.
pub proof fn the_rungs_request_reaches_the_coder(
    c: EncoderConfig,
    row: H26xSwParams,
    parallelism: usize,
)
    requires
        config_verdict(c, tuning::h26x_sw_row(row, c.overrides)) is None,
    ensures
        ({
            let o = c.overrides;
            let out = config_of(c, tuning::h26x_sw_row(row, o), parallelism);
            &&& out.rate is Bitrate <==> o.bitrate is Some
            &&& o.bitrate is None && c.quality == 255 ==> out.rate == RateControl::ConstantQp(
                row.qp,
            )
            &&& o.bitrate is None && c.quality <= 51 ==> out.rate == RateControl::ConstantQp(
                c.quality,
            )
            &&& o.bitrate is Some && o.buffer_ms is None ==> out.cpb_ms == 1000
            &&& o.bitrate is Some && o.buffer_ms is Some ==> out.cpb_ms == o.buffer_ms->0
            &&& o.bitrate is None ==> out.cpb_ms == 0 && out.lookahead == 0
            &&& o.bitrate is Some && c.codec == VideoCodec::H265 && o.lookahead_frames is Some
                ==> out.lookahead == o.lookahead_frames->0
            &&& o.bitrate is Some && c.codec == VideoCodec::H265 && o.lookahead_frames is None
                ==> out.lookahead == row.lookahead
            &&& o.aq_strength_tenths is Some ==> out.aq_strength_tenths == o.aq_strength_tenths->0
            &&& o.aq_strength_tenths is None ==> out.aq_strength_tenths == row.aq_strength_tenths
            &&& o.weighted_pred is Some ==> out.weighted_pred == o.weighted_pred->0
            &&& o.weighted_pred is None ==> out.weighted_pred == row.weighted_pred
            &&& o.cu_depth is Some ==> out.max_cu_depth == o.cu_depth->0
            &&& o.cu_depth is None ==> out.max_cu_depth == row.max_cu_depth
            &&& out.transform_8x8 == row.transform_8x8 && out.subparts == row.subparts
            &&& out.sao == row.sao
        }),
{
}

} // verus!
