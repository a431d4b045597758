//! AV1 in software, by rav1e.
//!
//! rav1e numbers pictures and knows nothing of timestamps: those the caller
//! gave are queued, and put back on the packets in the order they come out.

use rav1e::prelude::{
    ChromaSampling, ColorDescription, ColorPrimaries, MatrixCoefficients, PixelRange,
    TransferCharacteristics,
};
use std::collections::VecDeque;
use vstd::arithmetic::power2;
use vstd::prelude::*;
use vstd::slice::slice_subrange;

use crate::config::{EncoderConfig, AUTO_FROM_TARGET};
use crate::frame::{
    self, transfer_to_h273, ColorMetadata, PixelFormat, TransferFn, VideoFrame,
};
use crate::packet::{packet_from, EncodedPacket, PacketView};
use crate::text::{self, push_dec};
use crate::tuning::Rav1eParams;

verus! {

/// `rav1e::Context`, an encoder and everything it holds.
#[verifier::external_body]
pub struct Context {
    inner: rav1e::Context<u8>,
}

/// `rav1e::prelude::ChromaSampling`.
#[verifier::external_type_specification]
pub struct ExChromaSampling(ChromaSampling);

/// `rav1e::prelude::PixelRange`.
#[verifier::external_type_specification]
pub struct ExPixelRange(PixelRange);

/// `rav1e::prelude::ColorPrimaries`.
#[verifier::external_type_specification]
pub struct ExColorPrimaries(ColorPrimaries);

/// `rav1e::prelude::TransferCharacteristics`.
#[verifier::external_type_specification]
pub struct ExTransferCharacteristics(TransferCharacteristics);

/// `rav1e::prelude::MatrixCoefficients`.
#[verifier::external_type_specification]
pub struct ExMatrixCoefficients(MatrixCoefficients);

/// `rav1e::prelude::ColorDescription`.
#[verifier::external_type_specification]
pub struct ExColorDescription(ColorDescription);

/// The settings a context was made with.
pub uninterp spec fn context_settings(c: Context) -> Settings;

/// The pictures a context took, in order: the luma and the two chroma planes,
/// and whether a keyframe was forced.
pub uninterp spec fn context_pictures(c: Context) -> Seq<(
    Seq<u8>,
    Seq<u8>,
    Seq<u8>,
    bool,
)>;

/// Whether a context takes no more pictures.
pub uninterp spec fn context_flushed(c: Context) -> bool;

/// The answers a context gave when asked for a packet, in order.
pub uninterp spec fn context_answers(c: Context) -> Seq<AnswerView>;

/// Pictures a context has laid out for coding and not coded yet.
pub uninterp spec fn context_backlog(c: Context) -> nat;

/// Why rav1e gave no packet, or took no picture.
#[derive(Debug, Clone, Copy, PartialEq, Eq, Structural)]
pub enum Status {
    NeedMoreData,
    EnoughData,
    LimitReached,
    Encoded,
    Failure,
    NotReady,
}

impl Status {
    /// The status by name.
    pub open spec fn label(self) -> Seq<char> {
        match self {
            Status::NeedMoreData => "NeedMoreData"@,
            Status::EnoughData => "EnoughData"@,
            Status::LimitReached => "LimitReached"@,
            Status::Encoded => "Encoded"@,
            Status::Failure => "Failure"@,
            Status::NotReady => "NotReady"@,
        }
    }

    /// The status by name.
    pub fn name(self) -> (s: &'static str)
        ensures
            s@ == self.label(),
    {
        match self {
            Status::NeedMoreData => "NeedMoreData",
            Status::EnoughData => "EnoughData",
            Status::LimitReached => "LimitReached",
            Status::Encoded => "Encoded",
            Status::Failure => "Failure",
            Status::NotReady => "NotReady",
        }
    }
}

/// What rav1e answers when asked for a packet.
pub enum Answer {
    /// A packet: its bytes, the number of the picture it shows, and whether
    /// that is a keyframe.
    Packet { data: Vec<u8>, number: u64, keyframe: bool },
    Nothing(Status),
}

/// What an answer says.
pub enum AnswerView {
    Packet { data: Seq<u8>, number: u64, keyframe: bool },
    Nothing(Status),
}

impl View for Answer {
    type V = AnswerView;

    open spec fn view(&self) -> AnswerView {
        match self {
            Answer::Packet { data, number, keyframe } => AnswerView::Packet {
                data: data@,
                number: *number,
                keyframe: *keyframe,
            },
            Answer::Nothing(s) => AnswerView::Nothing(*s),
        }
    }
}

/// How many of these answers are packets.
pub open spec fn packets_in(answers: Seq<AnswerView>) -> nat
    decreases answers.len(),
{
    if answers.len() == 0 {
        0
    } else {
        packets_in(answers.drop_last()) + if answers.last() is Packet {
            1nat
        } else {
            0
        }
    }
}

/// Settings to make a context with.
#[derive(Debug, Clone, Copy)]
pub struct Settings {
    pub width: u32,
    pub height: u32,
    pub bit_depth: usize,
    pub chroma: ChromaSampling,
    pub range: PixelRange,
    pub colour: ColorDescription,
    pub speed_preset: u8,
    pub quantizer: usize,
    pub tile_rows: usize,
    pub tile_cols: usize,
    pub least_interval: u64,
    pub keyframe_interval: u64,
    pub threads: usize,
}

/// The longest keyframe interval rav1e accepts.
pub const MAX_INTERVAL: u64 = 715_827_882;

/// The most pictures one context takes.
pub const MAX_PICTURES: u64 = 0x7fff_ffff;

/// Whether a tile count is one rav1e accepts: none named, or a power of two.
pub open spec fn is_tile_count(n: usize) -> bool {
    n == 0 || exists|k: nat| n == #[trigger] power2::pow2(k)
}

/// Whether a description is that of sRGB, which is only ever coded at 4:4:4.
pub open spec fn is_srgb(d: ColorDescription) -> bool {
    &&& d.color_primaries == ColorPrimaries::BT709
    &&& d.transfer_characteristics == TransferCharacteristics::SRGB
    &&& d.matrix_coefficients == MatrixCoefficients::Identity
}

/// Whether rav1e accepts these settings.
pub open spec fn is_accepted(s: Settings) -> bool {
    &&& 16 <= s.width <= 65535
    &&& 16 <= s.height <= 65535
    &&& s.keyframe_interval <= MAX_INTERVAL
    &&& is_tile_count(s.tile_cols)
    &&& is_tile_count(s.tile_rows)
    &&& !is_srgb(s.colour)
}

/// `Config::new_context` on an 8-bit 4:2:0 `EncoderConfig` with these settings,
/// defaults for the rest, and a pool of `threads` workers, which the machine
/// must be able to start. It accepts a configuration whose sides are from 16 to
/// 65535, whose tile counts are powers of two or zero, whose interval is at most
/// a third of the largest `i32`, and whose colour is not sRGB. A new context has
/// these settings, and has taken and answered nothing.
#[verifier::external_body]
fn new_context(s: &Settings) -> (r: Option<Context>)
    requires
        s.bit_depth == 8,
        s.chroma == ChromaSampling::Cs420,
    ensures
        r is Some <==> is_accepted(*s),
        r matches Some(c) ==> {
            &&& context_settings(c) == *s
            &&& context_pictures(c) == Seq::<(Seq<u8>, Seq<u8>, Seq<u8>, bool)>::empty()
            &&& context_answers(c) == Seq::<AnswerView>::empty()
            &&& !context_flushed(c)
        },
{
    let mut e = rav1e::EncoderConfig::default();
    (e.width, e.height) = (s.width as usize, s.height as usize);
    e.bit_depth = s.bit_depth;
    e.chroma_sampling = s.chroma;
    e.pixel_range = s.range;
    e.color_description = Some(s.colour);
    e.speed_settings = rav1e::prelude::SpeedSettings::from_preset(s.speed_preset);
    e.quantizer = s.quantizer;
    e.tile_rows = s.tile_rows;
    e.tile_cols = s.tile_cols;
    e.min_key_frame_interval = s.least_interval;
    e.max_key_frame_interval = s.keyframe_interval;
    let cfg = rav1e::Config::new().with_encoder_config(e).with_threads(s.threads);
    cfg.new_context().ok().map(|inner| Context { inner })
}

/// The size of a context's pictures.
pub open spec fn context_size(c: Context) -> (u32, u32) {
    (context_settings(c).width, context_settings(c).height)
}

/// `Context::send_frame` with a picture from `Context::new_frame` that holds
/// the three planes (`Plane::copy_from_raw_u8`), forced to a keyframe or not.
/// A context takes every picture until it was flushed, and none from then on;
/// the last one it has room for flushes it.
#[verifier::external_body]
fn context_send(
    c: &mut Context,
    y: &[u8],
    u: &[u8],
    v: &[u8],
    row: usize,
    chroma_row: usize,
    key: bool,
) -> (taken: bool)
    requires
        row == context_size(*old(c)).0,
        row > 0,
        y@.len() == row * context_size(*old(c)).1,
        chroma_row == frame::half_up(row as int),
        u@.len() == chroma_row * frame::half_up(context_size(*old(c)).1 as int),
        v@.len() == u@.len(),
    ensures
        context_settings(*final(c)) == context_settings(*old(c)),
        context_answers(*final(c)) == context_answers(*old(c)),
        taken == !context_flushed(*old(c)),
        taken ==> {
            &&& context_pictures(*final(c)) == context_pictures(*old(c)).push((y@, u@, v@, key))
            &&& context_flushed(*final(c)) == (context_pictures(*final(c)).len() == MAX_PICTURES)
        },
        !taken ==> {
            &&& context_pictures(*final(c)) == context_pictures(*old(c))
            &&& context_flushed(*final(c))
        },
{
    let mut f = c.inner.new_frame();
    f.planes[0].copy_from_raw_u8(y, row, 1);
    f.planes[1].copy_from_raw_u8(u, chroma_row, 1);
    f.planes[2].copy_from_raw_u8(v, chroma_row, 1);
    let forced = rav1e::prelude::FrameParameters {
        frame_type_override: rav1e::prelude::FrameTypeOverride::Key,
        ..Default::default()
    };
    c.inner.send_frame((f, key.then_some(forced))).is_ok()
}

/// `Context::flush`: the context takes no more pictures.
#[verifier::external_body]
fn context_flush(c: &mut Context)
    ensures
        context_flushed(*final(c)),
        context_settings(*final(c)) == context_settings(*old(c)),
        context_pictures(*final(c)) == context_pictures(*old(c)),
        context_answers(*final(c)) == context_answers(*old(c)),
{
    c.inner.flush();
}

/// `Context::receive_packet`: a packet, or a status that says why there is
/// none. A packet shows one of the pictures taken, and packets come in the
/// order the pictures did, one each. `Encoded` says that one picture of the
/// backlog was coded that is not shown by itself. What is in a packet, and when
/// one comes, is for rav1e to say: only that it is the context's answer is
/// stated here.
#[verifier::external_body]
fn context_receive(c: &mut Context) -> (r: Answer)
    ensures
        context_settings(*final(c)) == context_settings(*old(c)),
        context_pictures(*final(c)) == context_pictures(*old(c)),
        context_flushed(*final(c)) == context_flushed(*old(c)),
        context_answers(*final(c)) == context_answers(*old(c)).push(r@),
        r matches Answer::Packet { number, .. } ==> {
            &&& number == packets_in(context_answers(*old(c)))
            &&& number < context_pictures(*old(c)).len()
        },
        r == Answer::Nothing(Status::Encoded) ==> context_backlog(*final(c)) < context_backlog(
            *old(c),
        ),
{
    match c.inner.receive_packet() {
        Ok(p) => Answer::Packet {
            data: p.data,
            number: p.input_frameno,
            keyframe: matches!(p.frame_type, rav1e::prelude::FrameType::KEY),
        },
        Err(rav1e::EncoderStatus::NeedMoreData) => Answer::Nothing(Status::NeedMoreData),
        Err(rav1e::EncoderStatus::EnoughData) => Answer::Nothing(Status::EnoughData),
        Err(rav1e::EncoderStatus::LimitReached) => Answer::Nothing(Status::LimitReached),
        Err(rav1e::EncoderStatus::Encoded) => Answer::Nothing(Status::Encoded),
        Err(rav1e::EncoderStatus::Failure) => Answer::Nothing(Status::Failure),
        Err(rav1e::EncoderStatus::NotReady) => Answer::Nothing(Status::NotReady),
    }
}

/// Why an encoder cannot be built, or coding failed.
#[derive(Debug, Clone, Copy, PartialEq, Eq, Structural)]
#[allow(inconsistent_fields)]
pub enum Rav1eError {
    /// rav1e does not accept the configuration.
    Rejected,
    /// Only 8-bit 4:2:0 is taken.
    Format { got: PixelFormat },
    /// The picture is not of the encoder's size.
    Size { width: u32, height: u32, frame_width: u32, frame_height: u32 },
    /// The picture's buffer is too short.
    TooShort { have: usize, width: u32, height: u32, need: u64 },
    /// rav1e takes no more pictures.
    Refused,
    /// rav1e failed.
    Failed { status: Status },
}

impl Rav1eError {
    /// The error in words.
    pub open spec fn text(self) -> Seq<char> {
        match self {
            Rav1eError::Rejected => "rav1e rejected the encoder configuration"@,
            Rav1eError::Format { got } => "rav1e fallback encodes 8-bit 4:2:0 only, got "@
                + got.label()
                + ". Convert with the colorspace filter before the encoder, or use a hardware backend for this format."@,
            Rav1eError::Size { width, height, frame_width, frame_height } => "frame is "@
                + text::dec(frame_width as nat) + "x"@ + text::dec(frame_height as nat)
                + " but the encoder was configured for "@ + text::dec(width as nat) + "x"@
                + text::dec(height as nat),
            Rav1eError::TooShort { have, width, height, need } => "frame buffer is "@
                + text::dec(have as nat) + " bytes, too short for "@ + text::dec(width as nat)
                + "x"@ + text::dec(height as nat) + " 4:2:0 ("@ + text::dec(need as nat)
                + " expected)"@,
            Rav1eError::Refused => "rav1e refused a frame"@,
            Rav1eError::Failed { status } => "rav1e encode failed: "@ + status.label(),
        }
    }

    /// The error in words.
    pub fn message(&self) -> (s: String)
        ensures
            s@ == self.text(),
    {
        let mut out: String = String::new();
        match self {
            Rav1eError::Rejected => {
                out.append("rav1e rejected the encoder configuration");
            },
            Rav1eError::Format { got } => {
                out.append("rav1e fallback encodes 8-bit 4:2:0 only, got ");
                out.append(got.name());
                out.append(
                    ". Convert with the colorspace filter before the encoder, or use a hardware backend for this format.",
                );
            },
            Rav1eError::Size { width, height, frame_width, frame_height } => {
                out.append("frame is ");
                push_dec(&mut out, *frame_width as u128);
                out.append("x");
                push_dec(&mut out, *frame_height as u128);
                out.append(" but the encoder was configured for ");
                push_dec(&mut out, *width as u128);
                out.append("x");
                push_dec(&mut out, *height as u128);
            },
            Rav1eError::TooShort { have, width, height, need } => {
                out.append("frame buffer is ");
                push_dec(&mut out, *have as u128);
                out.append(" bytes, too short for ");
                push_dec(&mut out, *width as u128);
                out.append("x");
                push_dec(&mut out, *height as u128);
                out.append(" 4:2:0 (");
                push_dec(&mut out, *need as u128);
                out.append(" expected)");
            },
            Rav1eError::Refused => {
                out.append("rav1e refused a frame");
            },
            Rav1eError::Failed { status } => {
                out.append("rav1e encode failed: ");
                out.append(status.name());
            },
        }
        assert(out@ =~= self.text());
        out
    }
}

/// rav1e's name for an H.273 code of colour primaries. A code that H.273 reserves is
/// unspecified.
pub open spec fn primaries_of(code: u8) -> ColorPrimaries {
    match code {
        1 => ColorPrimaries::BT709,
        4 => ColorPrimaries::BT470M,
        5 => ColorPrimaries::BT470BG,
        6 => ColorPrimaries::BT601,
        7 => ColorPrimaries::SMPTE240,
        8 => ColorPrimaries::GenericFilm,
        9 => ColorPrimaries::BT2020,
        10 => ColorPrimaries::XYZ,
        11 => ColorPrimaries::SMPTE431,
        12 => ColorPrimaries::SMPTE432,
        22 => ColorPrimaries::EBU3213,
        _ => ColorPrimaries::Unspecified,
    }
}

fn primaries(code: u8) -> (r: ColorPrimaries)
    ensures
        r == primaries_of(code),
{
    match code {
        1 => ColorPrimaries::BT709,
        4 => ColorPrimaries::BT470M,
        5 => ColorPrimaries::BT470BG,
        6 => ColorPrimaries::BT601,
        7 => ColorPrimaries::SMPTE240,
        8 => ColorPrimaries::GenericFilm,
        9 => ColorPrimaries::BT2020,
        10 => ColorPrimaries::XYZ,
        11 => ColorPrimaries::SMPTE431,
        12 => ColorPrimaries::SMPTE432,
        22 => ColorPrimaries::EBU3213,
        _ => ColorPrimaries::Unspecified,
    }
}

/// rav1e's name for an H.273 code of transfer characteristics. A code that H.273 reserves is
/// unspecified.
pub open spec fn transfer_of(code: u8) -> TransferCharacteristics {
    match code {
        1 => TransferCharacteristics::BT709,
        4 => TransferCharacteristics::BT470M,
        5 => TransferCharacteristics::BT470BG,
        6 => TransferCharacteristics::BT601,
        7 => TransferCharacteristics::SMPTE240,
        8 => TransferCharacteristics::Linear,
        9 => TransferCharacteristics::Log100,
        10 => TransferCharacteristics::Log100Sqrt10,
        11 => TransferCharacteristics::IEC61966,
        12 => TransferCharacteristics::BT1361,
        13 => TransferCharacteristics::SRGB,
        14 => TransferCharacteristics::BT2020_10Bit,
        15 => TransferCharacteristics::BT2020_12Bit,
        16 => TransferCharacteristics::SMPTE2084,
        17 => TransferCharacteristics::SMPTE428,
        18 => TransferCharacteristics::HLG,
        _ => TransferCharacteristics::Unspecified,
    }
}

fn transfer(code: u8) -> (r: TransferCharacteristics)
    ensures
        r == transfer_of(code),
{
    match code {
        1 => TransferCharacteristics::BT709,
        4 => TransferCharacteristics::BT470M,
        5 => TransferCharacteristics::BT470BG,
        6 => TransferCharacteristics::BT601,
        7 => TransferCharacteristics::SMPTE240,
        8 => TransferCharacteristics::Linear,
        9 => TransferCharacteristics::Log100,
        10 => TransferCharacteristics::Log100Sqrt10,
        11 => TransferCharacteristics::IEC61966,
        12 => TransferCharacteristics::BT1361,
        13 => TransferCharacteristics::SRGB,
        14 => TransferCharacteristics::BT2020_10Bit,
        15 => TransferCharacteristics::BT2020_12Bit,
        16 => TransferCharacteristics::SMPTE2084,
        17 => TransferCharacteristics::SMPTE428,
        18 => TransferCharacteristics::HLG,
        _ => TransferCharacteristics::Unspecified,
    }
}

/// rav1e's name for an H.273 code of matrix coefficients. A code that H.273 reserves is
/// unspecified.
pub open spec fn matrix_of(code: u8) -> MatrixCoefficients {
    match code {
        0 => MatrixCoefficients::Identity,
        1 => MatrixCoefficients::BT709,
        4 => MatrixCoefficients::FCC,
        5 => MatrixCoefficients::BT470BG,
        6 => MatrixCoefficients::BT601,
        7 => MatrixCoefficients::SMPTE240,
        8 => MatrixCoefficients::YCgCo,
        9 => MatrixCoefficients::BT2020NCL,
        10 => MatrixCoefficients::BT2020CL,
        11 => MatrixCoefficients::SMPTE2085,
        12 => MatrixCoefficients::ChromatNCL,
        13 => MatrixCoefficients::ChromatCL,
        14 => MatrixCoefficients::ICtCp,
        _ => MatrixCoefficients::Unspecified,
    }
}

fn matrix(code: u8) -> (r: MatrixCoefficients)
    ensures
        r == matrix_of(code),
{
    match code {
        0 => MatrixCoefficients::Identity,
        1 => MatrixCoefficients::BT709,
        4 => MatrixCoefficients::FCC,
        5 => MatrixCoefficients::BT470BG,
        6 => MatrixCoefficients::BT601,
        7 => MatrixCoefficients::SMPTE240,
        8 => MatrixCoefficients::YCgCo,
        9 => MatrixCoefficients::BT2020NCL,
        10 => MatrixCoefficients::BT2020CL,
        11 => MatrixCoefficients::SMPTE2085,
        12 => MatrixCoefficients::ChromatNCL,
        13 => MatrixCoefficients::ChromatCL,
        14 => MatrixCoefficients::ICtCp,
        _ => MatrixCoefficients::Unspecified,
    }
}

/// The colour that a stream says it has.
pub open spec fn colour_of(m: ColorMetadata) -> ColorDescription {
    ColorDescription {
        color_primaries: primaries_of(m.colour_primaries),
        transfer_characteristics: transfer_of(m.transfer.h273()),
        matrix_coefficients: matrix_of(m.matrix_coefficients),
    }
}

/// The settings for a configuration. The quantiser and the speed are the
/// caller's where the caller names them, else the tuning row's. An interval of
/// zero leaves rav1e's own; `parallelism` is the worker count where the caller
/// leaves it open. The colour is the configuration's, so that a player reads it
/// off the stream.
pub open spec fn settings_of(c: EncoderConfig, p: Rav1eParams, parallelism: usize) -> Settings {
    Settings {
        width: c.width,
        height: c.height,
        bit_depth: 8,
        chroma: ChromaSampling::Cs420,
        range: if c.color_metadata.full_range {
            PixelRange::Full
        } else {
            PixelRange::Limited
        },
        colour: colour_of(c.color_metadata),
        speed_preset: if c.speed_preset == AUTO_FROM_TARGET {
            p.speed_preset
        } else {
            c.speed_preset
        },
        quantizer: if c.quality == AUTO_FROM_TARGET {
            p.quantizer
        } else {
            c.quality as usize
        },
        tile_rows: p.tile_rows,
        tile_cols: p.tile_cols,
        least_interval: 0,
        keyframe_interval: if c.keyframe_interval == 0 {
            240
        } else {
            c.keyframe_interval as u64
        },
        threads: if c.threads > 0 {
            c.threads
        } else {
            parallelism
        },
    }
}

/// The settings for a configuration.
pub fn settings(c: &EncoderConfig, p: &Rav1eParams, parallelism: usize) -> (s: Settings)
    ensures
        s == settings_of(*c, *p, parallelism),
{
    let colour: ColorDescription = ColorDescription {
        color_primaries: primaries(c.color_metadata.colour_primaries),
        transfer_characteristics: transfer(transfer_to_h273(c.color_metadata.transfer)),
        matrix_coefficients: matrix(c.color_metadata.matrix_coefficients),
    };
    Settings {
        width: c.width,
        height: c.height,
        bit_depth: 8,
        chroma: ChromaSampling::Cs420,
        range: if c.color_metadata.full_range {
            PixelRange::Full
        } else {
            PixelRange::Limited
        },
        colour,
        speed_preset: if c.speed_preset == AUTO_FROM_TARGET {
            p.speed_preset
        } else {
            c.speed_preset
        },
        quantizer: if c.quality == AUTO_FROM_TARGET {
            p.quantizer
        } else {
            c.quality as usize
        },
        tile_rows: p.tile_rows,
        tile_cols: p.tile_cols,
        least_interval: 0,
        keyframe_interval: if c.keyframe_interval == 0 {
            240
        } else {
            c.keyframe_interval as u64
        },
        threads: if c.threads > 0 {
            c.threads
        } else {
            parallelism
        },
    }
}

/// A stream carries the codes of the picture's colour: no two codes that H.273
/// defines share a name.
pub proof fn defined_codes_are_told_apart(a: u8, b: u8)
    ensures
        primaries_of(a) == primaries_of(b) ==> a == b || primaries_of(a)
            == ColorPrimaries::Unspecified,
        transfer_of(a) == transfer_of(b) ==> a == b || transfer_of(a)
            == TransferCharacteristics::Unspecified,
        matrix_of(a) == matrix_of(b) ==> a == b || matrix_of(a) == MatrixCoefficients::Unspecified,
{
}

/// No colour that the pipeline knows is refused: none of its transfers is
/// sRGB's.
pub proof fn colours_are_never_refused(m: ColorMetadata)
    ensures
        !is_srgb(colour_of(m)),
{
}

/// Samples of the luma plane.
pub open spec fn luma_len(w: u32, h: u32) -> int {
    w * h
}

/// Samples of one chroma plane.
pub open spec fn chroma_len(w: u32, h: u32) -> int {
    frame::half_up(w as int) * frame::half_up(h as int)
}

/// The verdict on a picture.
pub open spec fn frame_verdict(width: u32, height: u32, f: VideoFrame) -> Option<Rav1eError> {
    let need = luma_len(width, height) + 2 * chroma_len(width, height);
    if f.format != PixelFormat::Yuv420p {
        Some(Rav1eError::Format { got: f.format })
    } else if f.width != width || f.height != height {
        Some(
            Rav1eError::Size { width, height, frame_width: f.width, frame_height: f.height },
        )
    } else if f.bytes().len() < need {
        Some(
            Rav1eError::TooShort {
                have: f.bytes().len() as usize,
                width,
                height,
                need: need as u64,
            },
        )
    } else {
        None
    }
}

/// A picture's planes, and whether it is forced to a keyframe.
pub open spec fn picture_of(width: u32, height: u32, f: VideoFrame, key: bool) -> (
    Seq<u8>,
    Seq<u8>,
    Seq<u8>,
    bool,
) {
    let l = luma_len(width, height);
    let c = chroma_len(width, height);
    (
        f.bytes().subrange(0, l),
        f.bytes().subrange(l, l + c),
        f.bytes().subrange(l + c, l + 2 * c),
        key,
    )
}

/// What an encoder's bookkeeping amounts to.
#[verifier::ext_equal]
pub struct Rav1eState {
    /// The pictures handed to rav1e.
    pub pictures: Seq<(Seq<u8>, Seq<u8>, Seq<u8>, bool)>,
    /// rav1e's answers.
    pub answers: Seq<AnswerView>,
    /// Whether rav1e takes no more.
    pub flushed: bool,
    /// Timestamps that no packet carried yet, oldest first.
    pub timestamps: Seq<u64>,
    /// Whether the next picture is forced to a keyframe.
    pub force_key: bool,
}

/// What sending a picture leads to: the state after it, and whether it was
/// taken.
pub open spec fn send_outcome(s: Rav1eState, width: u32, height: u32, f: VideoFrame) -> (
    Rav1eState,
    Result<(), Rav1eError>,
) {
    match frame_verdict(width, height, f) {
        Some(e) => (s, Err(e)),
        None => if s.flushed {
            (Rav1eState { force_key: false, ..s }, Err(Rav1eError::Refused))
        } else {
            let pictures = s.pictures.push(picture_of(width, height, f, s.force_key));
            (
                Rav1eState {
                    pictures,
                    flushed: pictures.len() == MAX_PICTURES,
                    timestamps: s.timestamps.push(f.pts),
                    force_key: false,
                    ..s
                },
                Ok(()),
            )
        },
    }
}

/// What comes of an answer: a packet with the oldest timestamp, another try, an
/// end, or a failure.
pub enum Outcome {
    Packet(EncodedPacket),
    Again,
    Stop,
    Fail(Status),
}

/// The packet an answer becomes. Should there be no timestamp left, the
/// picture's number stands in.
pub open spec fn packet_view(
    data: Seq<u8>,
    number: u64,
    keyframe: bool,
    timestamps: Seq<u64>,
) -> PacketView {
    PacketView {
        bytes: data,
        pts: if timestamps.len() > 0 {
            timestamps[0]
        } else {
            number
        },
        is_keyframe: keyframe,
    }
}

/// The timestamps left once a packet carried the oldest.
pub open spec fn after_packet(timestamps: Seq<u64>) -> Seq<u64> {
    if timestamps.len() > 0 {
        timestamps.subrange(1, timestamps.len() as int)
    } else {
        timestamps
    }
}

/// Whether an answer ends a request for a packet.
pub open spec fn is_last(a: AnswerView) -> bool {
    a != AnswerView::Nothing(Status::Encoded)
}

/// What a request for a packet gives back for the answer that ended it.
pub open spec fn gives(
    a: AnswerView,
    timestamps: Seq<u64>,
    r: Result<Option<EncodedPacket>, Rav1eError>,
) -> bool {
    match a {
        AnswerView::Packet { data, number, keyframe } => {
            &&& r matches Ok(Some(p))
            &&& p@ == packet_view(data, number, keyframe, timestamps)
        },
        AnswerView::Nothing(Status::NeedMoreData) | AnswerView::Nothing(
            Status::LimitReached,
        ) => r matches Ok(None),
        AnswerView::Nothing(status) => r matches Err(e) && e == (Rav1eError::Failed { status }),
    }
}

/// The state once rav1e said `Encoded` `tries` times and then `a`.
pub open spec fn asked(s: Rav1eState, tries: nat, a: AnswerView) -> Rav1eState {
    Rav1eState {
        answers: s.answers + Seq::new(tries, |i: int| AnswerView::Nothing(Status::Encoded)) + seq![
            a,
        ],
        timestamps: if a is Packet {
            after_packet(s.timestamps)
        } else {
            s.timestamps
        },
        ..s
    }
}

/// What comes of an answer.
pub fn weigh(timestamps: &mut VecDeque<u64>, a: Answer) -> (o: Outcome)
    ensures
        match a@ {
            AnswerView::Packet { data, number, keyframe } => {
                &&& o matches Outcome::Packet(p)
                &&& p@ == packet_view(data, number, keyframe, old(timestamps)@)
                &&& final(timestamps)@ == after_packet(old(timestamps)@)
            },
            AnswerView::Nothing(status) => {
                &&& final(timestamps)@ == old(timestamps)@
                &&& o == match status {
                    Status::Encoded => Outcome::Again,
                    Status::NeedMoreData | Status::LimitReached => Outcome::Stop,
                    _ => Outcome::Fail(status),
                }
            },
        },
{
    match a {
        Answer::Packet { data, number, keyframe } => {
            let pts: u64 = match timestamps.pop_front() {
                Some(pts) => pts,
                None => number,
            };
            assert(timestamps@ =~= after_packet(old(timestamps)@));
            Outcome::Packet(packet_from(data, pts, keyframe))
        },
        Answer::Nothing(status) => match status {
            Status::Encoded => Outcome::Again,
            Status::NeedMoreData | Status::LimitReached => Outcome::Stop,
            _ => Outcome::Fail(status),
        },
    }
}

/// Software AV1 encoder.
pub struct Rav1eEncoder {
    ctx: Context,
    width: u32,
    height: u32,
    timestamps: VecDeque<u64>,
    force_key: bool,
}

impl Rav1eEncoder {
    /// The encoder's state.
    pub closed spec fn state(self) -> Rav1eState {
        Rav1eState {
            pictures: context_pictures(self.ctx),
            answers: context_answers(self.ctx),
            flushed: context_flushed(self.ctx),
            timestamps: self.timestamps@,
            force_key: self.force_key,
        }
    }

    /// What rav1e was set up with.
    pub closed spec fn settings(self) -> Settings {
        context_settings(self.ctx)
    }

    /// The size it codes.
    pub closed spec fn size(self) -> (u32, u32) {
        (self.width, self.height)
    }

    /// The encoder's size is one rav1e accepts, and the context's own.
    pub closed spec fn well_formed(self) -> bool {
        &&& context_size(self.ctx) == (self.width, self.height)
        &&& 16 <= self.width <= 65535
        &&& 16 <= self.height <= 65535
    }

    /// An encoder for this configuration. `p` is the tuning table's row for it.
    /// A format that rav1e is not set up for is refused rather than narrowed.
    pub fn new(c: &EncoderConfig, p: &Rav1eParams, parallelism: usize) -> (r: Result<
        Self,
        Rav1eError,
    >)
        ensures
            c.pixel_format != PixelFormat::Yuv420p ==> (r matches Err(e) && e
                == (Rav1eError::Format { got: c.pixel_format })),
            c.pixel_format == PixelFormat::Yuv420p && !is_accepted(settings_of(*c, *p, parallelism))
                ==> (r matches Err(e) && e == Rav1eError::Rejected),
            c.pixel_format == PixelFormat::Yuv420p && is_accepted(settings_of(*c, *p, parallelism))
                ==> {
                &&& r matches Ok(e)
                &&& e.well_formed()
                &&& e.settings() == settings_of(*c, *p, parallelism)
                &&& e.size() == (c.width, c.height)
                &&& e.state() == (Rav1eState {
                    pictures: Seq::empty(),
                    answers: Seq::empty(),
                    flushed: false,
                    timestamps: Seq::empty(),
                    force_key: false,
                })
            },
    {
        if c.pixel_format != PixelFormat::Yuv420p {
            return Err(Rav1eError::Format { got: c.pixel_format });
        }
        let s: Settings = settings(c, p, parallelism);
        match new_context(&s) {
            Some(ctx) => {
                let e: Rav1eEncoder = Rav1eEncoder {
                    ctx,
                    width: c.width,
                    height: c.height,
                    timestamps: VecDeque::new(),
                    force_key: false,
                };
                assert(e.state() =~= (Rav1eState {
                    pictures: Seq::empty(),
                    answers: Seq::empty(),
                    flushed: false,
                    timestamps: Seq::empty(),
                    force_key: false,
                }));
                Ok(e)
            },
            None => Err(Rav1eError::Rejected),
        }
    }

    /// Hand rav1e a picture. A request for a keyframe is spent on the first
    /// picture that gets as far as rav1e, whether that takes it or not.
    pub fn send_frame(&mut self, f: &VideoFrame) -> (r: Result<(), Rav1eError>)
        requires
            old(self).well_formed(),
        ensures
            final(self).well_formed(),
            final(self).size() == old(self).size(),
            final(self).settings() == old(self).settings(),
            match frame_verdict(old(self).size().0, old(self).size().1, *f) {
                Some(e) => {
                    &&& r == Err::<(), Rav1eError>(e)
                    &&& final(self).state() == old(self).state()
                },
                None => if old(self).state().flushed {
                    &&& r == Err::<(), Rav1eError>(Rav1eError::Refused)
                    &&& final(self).state() == (Rav1eState {
                        force_key: false,
                        ..old(self).state()
                    })
                } else {
                    let pictures = old(self).state().pictures.push(
                        picture_of(
                            old(self).size().0,
                            old(self).size().1,
                            *f,
                            old(self).state().force_key,
                        ),
                    );
                    &&& r == Ok::<(), Rav1eError>(())
                    &&& final(self).state() == (Rav1eState {
                        pictures,
                        flushed: pictures.len() == MAX_PICTURES,
                        timestamps: old(self).state().timestamps.push(f.pts),
                        force_key: false,
                        ..old(self).state()
                    })
                },
            },
            (final(self).state(), r) == send_outcome(
                old(self).state(),
                old(self).size().0,
                old(self).size().1,
                *f,
            ),
    {
        if f.format != PixelFormat::Yuv420p {
            return Err(Rav1eError::Format { got: f.format });
        }
        if f.width != self.width || f.height != self.height {
            return Err(
                Rav1eError::Size {
                    width: self.width,
                    height: self.height,
                    frame_width: f.width,
                    frame_height: f.height,
                },
            );
        }
        let w: u64 = self.width as u64;
        let h: u64 = self.height as u64;
        let cw: u64 = (w + 1) / 2;
        let ch: u64 = (h + 1) / 2;
        proof {
            assert(0 < w * h <= 65535 * 65535) by (nonlinear_arith)
                requires
                    0 < w <= 65535,
                    0 < h <= 65535,
            ;
            assert(0 < cw * ch <= 32768 * 32768) by (nonlinear_arith)
                requires
                    0 < cw <= 32768,
                    0 < ch <= 32768,
            ;
        }
        let luma: u64 = w * h;
        let chroma: u64 = cw * ch;
        let data: &[u8] = f.slice();
        let have: usize = data.len();
        if (have as u64) < luma + 2 * chroma {
            return Err(
                Rav1eError::TooShort {
                    have,
                    width: self.width,
                    height: self.height,
                    need: luma + 2 * chroma,
                },
            );
        }
        let l: usize = luma as usize;
        let c: usize = chroma as usize;
        let y: &[u8] = slice_subrange(data, 0, l);
        let u: &[u8] = slice_subrange(data, l, l + c);
        let v: &[u8] = slice_subrange(data, l + c, l + 2 * c);
        let key: bool = self.force_key;
        self.force_key = false;
        let taken: bool = context_send(&mut self.ctx, y, u, v, w as usize, cw as usize, key);
        if !taken {
            return Err(Rav1eError::Refused);
        }
        self.timestamps.push_back(f.pts);
        Ok(())
    }

    /// End the stream: rav1e takes no more pictures.
    pub fn flush(&mut self)
        requires
            old(self).well_formed(),
        ensures
            final(self).well_formed(),
            final(self).size() == old(self).size(),
            final(self).settings() == old(self).settings(),
            final(self).state() == (Rav1eState { flushed: true, ..old(self).state() }),
    {
        context_flush(&mut self.ctx);
    }

    /// The next packet, if rav1e has one. rav1e is asked again as long as it
    /// coded something without having a packet to show for it; it is at an end
    /// where it wants more pictures or has coded all.
    pub fn receive_packet(&mut self) -> (r: Result<Option<EncodedPacket>, Rav1eError>)
        requires
            old(self).well_formed(),
        ensures
            final(self).well_formed(),
            final(self).size() == old(self).size(),
            final(self).settings() == old(self).settings(),
            exists|tries: nat, a: AnswerView|
                {
                    &&& is_last(a)
                    &&& final(self).state() == #[trigger] asked(old(self).state(), tries, a)
                    &&& gives(a, old(self).state().timestamps, r)
                    &&& a is Packet ==> a->number == packets_in(old(self).state().answers)
                        && a->number < old(self).state().pictures.len()
                },
    {
        let ghost before = self.state();
        let ghost mut tries: nat = 0;
        proof {
            assert(before.answers =~= before.answers + waits(0));
        }
        loop
            invariant
                self.well_formed(),
                self.size() == old(self).size(),
                self.settings() == old(self).settings(),
                before == old(self).state(),
                self.state() == (Rav1eState {
                    answers: before.answers + waits(tries),
                    ..before
                }),
                packets_in(before.answers + waits(tries)) == packets_in(before.answers),
            decreases context_backlog(self.ctx),
        {
            let a: Answer = context_receive(&mut self.ctx);
            let ghost said = a@;
            let ghost mid = before.answers + waits(tries);
            let o: Outcome = weigh(&mut self.timestamps, a);
            proof {
                assert(mid.push(said) =~= before.answers + waits(tries) + seq![said]);
                assert(waits(tries) =~= Seq::new(
                    tries,
                    |i: int| AnswerView::Nothing(Status::Encoded),
                ));
            }
            match o {
                Outcome::Packet(p) => {
                    assert(self.state() =~= asked(before, tries, said));
                    return Ok(Some(p));
                },
                Outcome::Again => {
                    proof {
                        assert(mid.push(said) =~= before.answers + waits(tries + 1));
                        assert(mid.push(said).drop_last() =~= mid);
                        tries = tries + 1;
                    }
                },
                Outcome::Stop => {
                    assert(self.state() =~= asked(before, tries, said));
                    return Ok(None);
                },
                Outcome::Fail(status) => {
                    assert(self.state() =~= asked(before, tries, said));
                    return Err(Rav1eError::Failed { status });
                },
            }
        }
    }

    /// Force the next picture sent to a keyframe.
    pub fn force_keyframe_next(&mut self)
        requires
            old(self).well_formed(),
        ensures
            final(self).well_formed(),
            final(self).size() == old(self).size(),
            final(self).settings() == old(self).settings(),
            final(self).state() == (Rav1eState { force_key: true, ..old(self).state() }),
    {
        self.force_key = true;
    }
}

/// That many answers of `Encoded`.
spec fn waits(n: nat) -> Seq<AnswerView> {
    Seq::new(n, |i: int| AnswerView::Nothing(Status::Encoded))
}

/// A packet carries the timestamp of the picture it shows: with the timestamps
/// `sent` of all pictures taken, those still queued are the ones past the
/// packets handed out, before a request and after it.
pub proof fn packets_carry_their_pictures_timestamp(
    s: Rav1eState,
    sent: Seq<u64>,
    tries: nat,
    data: Seq<u8>,
    number: u64,
    keyframe: bool,
)
    requires
        sent.len() == s.pictures.len(),
        packets_in(s.answers) <= sent.len(),
        s.timestamps == sent.subrange(packets_in(s.answers) as int, sent.len() as int),
        number == packets_in(s.answers),
        number < s.pictures.len(),
    ensures
        packet_view(data, number, keyframe, s.timestamps).pts == sent[number as int],
        asked(
            s,
            tries,
            AnswerView::Packet { data, number, keyframe },
        ).timestamps == sent.subrange(number + 1, sent.len() as int),
        packets_in(asked(s, tries, AnswerView::Packet { data, number, keyframe }).answers)
            == number + 1,
{
    let a = AnswerView::Packet { data, number, keyframe };
    let all = asked(s, tries, a).answers;
    waiting_adds_no_packet(s.answers, tries);
    assert(all.drop_last() =~= s.answers + waits(tries));
    assert(asked(s, tries, a).timestamps =~= sent.subrange(number + 1, sent.len() as int));
}

proof fn waiting_adds_no_packet(answers: Seq<AnswerView>, tries: nat)
    ensures
        packets_in(answers + waits(tries)) == packets_in(answers),
    decreases tries,
{
    if tries == 0 {
        assert(answers + waits(0) =~= answers);
    } else {
        waiting_adds_no_packet(answers, (tries - 1) as nat);
        assert((answers + waits(tries)).drop_last() =~= answers + waits((tries - 1) as nat));
    }
}

/// The three planes handed to rav1e are the picture's bytes, in order and whole.
pub proof fn planes_hold_the_picture(w: u32, h: u32, f: VideoFrame, key: bool)
    requires
        frame_verdict(w, h, f) is None,
    ensures
        picture_of(w, h, f, key).0 + picture_of(w, h, f, key).1 + picture_of(w, h, f, key).2
            == f.bytes().subrange(0, luma_len(w, h) + 2 * chroma_len(w, h)),
{
    let l = luma_len(w, h);
    let c = chroma_len(w, h);
    assert(0 <= l && 0 <= c) by (nonlinear_arith)
        requires
            l == w * h,
            c == ((w + 1) / 2) * ((h + 1) / 2),
            0 <= w,
            0 <= h,
    ;
    assert(picture_of(w, h, f, key).0 + picture_of(w, h, f, key).1 + picture_of(w, h, f, key).2
        =~= f.bytes().subrange(0, l + 2 * c));
}

/// rav1e is set up for the caller's pictures: their size, eight-bit 4:2:0, the
/// range and colour the caller names, the caller's quantiser and speed or else
/// the row's, the row's tiles, the keyframe interval (240 where it is left
/// open), keyframes at any distance, and the worker budget where one is set.
pub proof fn the_encoder_is_the_callers(c: EncoderConfig, p: Rav1eParams, parallelism: usize)
    ensures
        ({
            let s = settings_of(c, p, parallelism);
            &&& s.width == c.width && s.height == c.height
            &&& s.bit_depth == 8 && s.chroma == ChromaSampling::Cs420
            &&& c.color_metadata.full_range ==> s.range == PixelRange::Full
            &&& !c.color_metadata.full_range ==> s.range == PixelRange::Limited
            &&& c.quality == 255 ==> s.quantizer == p.quantizer
            &&& c.quality < 255 ==> s.quantizer == c.quality
            &&& c.speed_preset == 255 ==> s.speed_preset == p.speed_preset
            &&& c.speed_preset < 255 ==> s.speed_preset == c.speed_preset
            &&& s.tile_rows == p.tile_rows && s.tile_cols == p.tile_cols
            &&& s.least_interval == 0
            &&& c.keyframe_interval == 0 ==> s.keyframe_interval == 240
            &&& c.keyframe_interval > 0 ==> s.keyframe_interval == c.keyframe_interval
            &&& c.threads > 0 ==> s.threads == c.threads
            &&& c.threads == 0 ==> s.threads == parallelism
            &&& s.colour.color_primaries == primaries_of(c.color_metadata.colour_primaries)
            &&& s.colour.matrix_coefficients == matrix_of(c.color_metadata.matrix_coefficients)
        }),
{
}

/// A stream's transfer is the caller's: PQ and HLG, which make it HDR, are
/// written exactly for those, linear light and the BT.470 gamma for theirs, and
/// everything else is BT.709.
pub proof fn the_transfer_is_the_callers(m: ColorMetadata)
    ensures
        ({
            let t = colour_of(m).transfer_characteristics;
            &&& t == TransferCharacteristics::SMPTE2084 <==> m.transfer == TransferFn::St2084
            &&& t == TransferCharacteristics::HLG <==> m.transfer == TransferFn::AribStdB67
            &&& t == TransferCharacteristics::Linear <==> m.transfer == TransferFn::Linear
            &&& t == TransferCharacteristics::BT470M <==> m.transfer == TransferFn::Bt470Bg
            &&& t == TransferCharacteristics::BT709 <==> m.transfer == TransferFn::Bt709
                || m.transfer == TransferFn::Unspecified
        }),
{
}

/// The codes of primaries and matrices keep their names, and a code that H.273
/// reserves is given none.
pub proof fn codes_keep_their_names(code: u8)
    ensures
        primaries_of(code) == ColorPrimaries::BT709 <==> code == 1,
        primaries_of(code) == ColorPrimaries::BT470M <==> code == 4,
        primaries_of(code) == ColorPrimaries::BT470BG <==> code == 5,
        primaries_of(code) == ColorPrimaries::BT601 <==> code == 6,
        primaries_of(code) == ColorPrimaries::SMPTE240 <==> code == 7,
        primaries_of(code) == ColorPrimaries::BT2020 <==> code == 9,
        primaries_of(code) == ColorPrimaries::SMPTE431 <==> code == 11,
        primaries_of(code) == ColorPrimaries::SMPTE432 <==> code == 12,
        primaries_of(code) == ColorPrimaries::Unspecified <==> code == 0 || code == 2 || code == 3
            || 13 <= code <= 21 || code > 22,
        matrix_of(code) == MatrixCoefficients::Identity <==> code == 0,
        matrix_of(code) == MatrixCoefficients::BT709 <==> code == 1,
        matrix_of(code) == MatrixCoefficients::FCC <==> code == 4,
        matrix_of(code) == MatrixCoefficients::BT470BG <==> code == 5,
        matrix_of(code) == MatrixCoefficients::BT601 <==> code == 6,
        matrix_of(code) == MatrixCoefficients::SMPTE240 <==> code == 7,
        matrix_of(code) == MatrixCoefficients::BT2020NCL <==> code == 9,
        matrix_of(code) == MatrixCoefficients::BT2020CL <==> code == 10,
        matrix_of(code) == MatrixCoefficients::ICtCp <==> code == 14,
        matrix_of(code) == MatrixCoefficients::Unspecified <==> code == 2 || code == 3 || code > 14,
{
}

/// A picture is taken exactly where it is eight-bit 4:2:0, of the encoder's size,
/// and holds a byte for each sample, odd chroma edges rounded up. A refusal says
/// which of these fails, with the picture's own numbers.
pub proof fn which_pictures_are_taken(width: u32, height: u32, f: VideoFrame)
    ensures
        ({
            let need = width * height + 2 * (((width + 1) / 2) * ((height + 1) / 2));
            match frame_verdict(width, height, f) {
                None => {
                    &&& f.format == PixelFormat::Yuv420p
                    &&& f.width == width && f.height == height
                    &&& f.bytes().len() >= need
                },
                Some(Rav1eError::Format { got }) => got == f.format && got != PixelFormat::Yuv420p,
                Some(Rav1eError::Size { width: w, height: h, frame_width, frame_height }) => {
                    &&& f.format == PixelFormat::Yuv420p
                    &&& w == width && h == height
                    &&& frame_width == f.width && frame_height == f.height
                    &&& w != frame_width || h != frame_height
                },
                Some(Rav1eError::TooShort { have, width: w, height: h, need: n }) => {
                    &&& f.format == PixelFormat::Yuv420p && f.width == width && f.height == height
                    &&& w == width && h == height
                    &&& have == f.bytes().len() as usize && n == need as u64
                    &&& f.bytes().len() < need
                },
                Some(_) => false,
            }
        }),
{
}

/// The samples of the planes handed to rav1e are the picture's: luma row by row,
/// then U, the first chroma plane, and V, the second.
pub proof fn samples_reach_their_planes(
    w: u32,
    h: u32,
    f: VideoFrame,
    key: bool,
    x: int,
    y: int,
)
    requires
        frame_verdict(w, h, f) is None,
        0 <= x,
        0 <= y,
    ensures
        ({
            let p = picture_of(w, h, f, key);
            let cw = (w + 1) / 2;
            let ch = (h + 1) / 2;
            &&& x < w && y < h ==> p.0[y * w + x] == f.bytes()[y * w + x]
            &&& x < cw && y < ch ==> p.1[y * cw + x] == f.bytes()[w * h + (y * cw + x)]
            &&& x < cw && y < ch ==> p.2[y * cw + x] == f.bytes()[w * h + cw * ch + (y * cw + x)]
            &&& p.3 == key
        }),
{
    let cw = (w + 1) / 2;
    let ch = (h + 1) / 2;
    assert(0 <= w * h) by (nonlinear_arith);
    assert(0 <= cw * ch) by (nonlinear_arith)
        requires
            cw >= 0,
            ch >= 0,
    ;
    if x < w && y < h {
        assert(0 <= y * w + x < w * h) by (nonlinear_arith)
            requires
                0 <= x < w,
                0 <= y < h,
        ;
    }
    if x < cw && y < ch {
        assert(0 <= y * cw + x < cw * ch) by (nonlinear_arith)
            requires
                0 <= x < cw,
                0 <= y < ch,
        ;
    }
}

/// A picture that is taken is handed on once, with the keyframe that was asked
/// for, and its time waits behind those before it. The request is spent on it,
/// and on one that comes after the end; a picture refused for its shape leaves
/// everything as it was.
pub proof fn pictures_are_handed_on_once(s: Rav1eState, width: u32, height: u32, f: VideoFrame)
    ensures
        ({
            let out = send_outcome(s, width, height, f);
            let t = out.0;
            &&& out.1 is Ok <==> frame_verdict(width, height, f) is None && !s.flushed
            &&& out.1 is Ok ==> {
                &&& t.pictures.len() == s.pictures.len() + 1
                &&& t.pictures.last() == picture_of(width, height, f, s.force_key)
                &&& t.pictures.drop_last() == s.pictures
                &&& t.timestamps.len() == s.timestamps.len() + 1
                &&& t.timestamps.last() == f.pts
                &&& t.timestamps.drop_last() == s.timestamps
                &&& !t.force_key
                &&& t.flushed <==> t.pictures.len() == 0x7fff_ffff
            }
            &&& frame_verdict(width, height, f) is Some ==> t == s
            &&& frame_verdict(width, height, f) is None && s.flushed ==> {
                &&& out.1 == Err::<(), Rav1eError>(Rav1eError::Refused)
                &&& t.pictures == s.pictures && t.timestamps == s.timestamps && t.flushed
                &&& !t.force_key
            }
            &&& t.answers == s.answers
        }),
{
    let t = send_outcome(s, width, height, f).0;
    if send_outcome(s, width, height, f).1 is Ok {
        assert(t.pictures.drop_last() =~= s.pictures);
        assert(t.timestamps.drop_last() =~= s.timestamps);
    }
}

/// A packet is rav1e's bytes and mark with the oldest time that waits, which then
/// waits no more. Where rav1e wants more pictures or has coded all there is
/// none; any other status is a failure.
pub proof fn answers_become_packets(
    a: AnswerView,
    timestamps: Seq<u64>,
    r: Result<Option<EncodedPacket>, Rav1eError>,
)
    requires
        is_last(a),
        gives(a, timestamps, r),
    ensures
        a matches AnswerView::Packet { data, number, keyframe } ==> {
            &&& r is Ok && r->Ok_0 is Some
            &&& r->Ok_0->0@.bytes == data
            &&& r->Ok_0->0@.is_keyframe == keyframe
            &&& timestamps.len() > 0 ==> r->Ok_0->0@.pts == timestamps[0]
            &&& timestamps.len() == 0 ==> r->Ok_0->0@.pts == number
        },
        a matches AnswerView::Nothing(status) ==> {
            &&& r is Ok <==> status == Status::NeedMoreData || status == Status::LimitReached
            &&& r is Ok ==> r->Ok_0 is None
            &&& status != Status::Encoded
            &&& status == Status::Failure || status == Status::EnoughData || status
                == Status::NotReady ==> r == Err::<Option<EncodedPacket>, Rav1eError>(
                Rav1eError::Failed { status },
            )
        },
        timestamps.len() > 0 ==> {
            &&& after_packet(timestamps).len() == timestamps.len() - 1
            &&& forall|i: int|
                0 <= i < timestamps.len() - 1 ==> #[trigger] after_packet(timestamps)[i]
                    == timestamps[i + 1]
        },
        timestamps.len() == 0 ==> after_packet(timestamps).len() == 0,
{
}

} // verus!
