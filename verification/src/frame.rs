//! Pictures as the pipeline hands them to an encoder, and the colour they are in.

use bytes::Bytes;
use vstd::prelude::*;

use crate::packet::{self, bytes_slice};

verus! {

/// Sample layout of a picture.
#[derive(Debug, Clone, Copy, PartialEq, Eq, Structural)]
pub enum PixelFormat {
    Yuv420p,
    Yuv420p10le,
    Yuv422p,
    Yuv422p10le,
    Yuv444p,
    Yuv444p10le,
    Yuva444p10le,
    Nv12,
    Rgb24,
}

impl PixelFormat {
    /// The format's name in diagnostics.
    pub open spec fn label(self) -> Seq<char> {
        match self {
            PixelFormat::Yuv420p => "Yuv420p"@,
            PixelFormat::Yuv420p10le => "Yuv420p10le"@,
            PixelFormat::Yuv422p => "Yuv422p"@,
            PixelFormat::Yuv422p10le => "Yuv422p10le"@,
            PixelFormat::Yuv444p => "Yuv444p"@,
            PixelFormat::Yuv444p10le => "Yuv444p10le"@,
            PixelFormat::Yuva444p10le => "Yuva444p10le"@,
            PixelFormat::Nv12 => "Nv12"@,
            PixelFormat::Rgb24 => "Rgb24"@,
        }
    }

    /// The format's name in diagnostics.
    pub fn name(self) -> (s: &'static str)
        ensures
            s@ == self.label(),
    {
        match self {
            PixelFormat::Yuv420p => "Yuv420p",
            PixelFormat::Yuv420p10le => "Yuv420p10le",
            PixelFormat::Yuv422p => "Yuv422p",
            PixelFormat::Yuv422p10le => "Yuv422p10le",
            PixelFormat::Yuv444p => "Yuv444p",
            PixelFormat::Yuv444p10le => "Yuv444p10le",
            PixelFormat::Yuva444p10le => "Yuva444p10le",
            PixelFormat::Nv12 => "Nv12",
            PixelFormat::Rgb24 => "Rgb24",
        }
    }

    /// Whether the hardware encoders take this format: 4:2:0 at 8 or 10 bits.
    pub open spec fn is_420(self) -> bool {
        self == PixelFormat::Yuv420p || self == PixelFormat::Yuv420p10le
    }

    /// Whether samples of this format are little-endian words, for the two
    /// formats the encoders take.
    pub open spec fn is_ten_bit(self) -> bool {
        self == PixelFormat::Yuv420p10le
    }
}

/// Coded video format.
#[derive(Debug, Clone, Copy, PartialEq, Eq, Structural)]
pub enum VideoCodec {
    Av1,
    H264,
    H265,
}

impl VideoCodec {
    /// The codec's name in diagnostics.
    pub open spec fn label(self) -> Seq<char> {
        match self {
            VideoCodec::Av1 => "Av1"@,
            VideoCodec::H264 => "H264"@,
            VideoCodec::H265 => "H265"@,
        }
    }

    /// The codec's name in diagnostics.
    pub fn name(self) -> (s: &'static str)
        ensures
            s@ == self.label(),
    {
        match self {
            VideoCodec::Av1 => "Av1",
            VideoCodec::H264 => "H264",
            VideoCodec::H265 => "H265",
        }
    }
}

/// Transfer characteristics the pipeline tells apart.
#[derive(Debug, Clone, Copy, PartialEq, Eq, Structural)]
pub enum TransferFn {
    Bt709,
    Bt470Bg,
    Linear,
    St2084,
    AribStdB67,
    Unspecified,
}

impl TransferFn {
    /// The transfer an H.273 code stands for. The whole BT.709 family
    /// (1, 6, 14, 15) is one transfer; a code the pipeline does not know is
    /// unspecified.
    pub open spec fn from_h273_spec(code: u8) -> TransferFn {
        if code == 1 || code == 6 || code == 14 || code == 15 {
            TransferFn::Bt709
        } else if code == 4 {
            TransferFn::Bt470Bg
        } else if code == 8 {
            TransferFn::Linear
        } else if code == 16 {
            TransferFn::St2084
        } else if code == 18 {
            TransferFn::AribStdB67
        } else {
            TransferFn::Unspecified
        }
    }

    /// Read an H.273 `transfer_characteristics` code.
    pub fn from_h273(code: u8) -> (t: TransferFn)
        ensures
            t == Self::from_h273_spec(code),
    {
        match code {
            1 | 6 | 14 | 15 => TransferFn::Bt709,
            4 => TransferFn::Bt470Bg,
            8 => TransferFn::Linear,
            16 => TransferFn::St2084,
            18 => TransferFn::AribStdB67,
            _ => TransferFn::Unspecified,
        }
    }

    /// The H.273 code a stream carries for this transfer. An unspecified
    /// transfer is written as BT.709, which is what a player assumes.
    pub open spec fn h273(self) -> u8 {
        match self {
            TransferFn::Bt709 => 1,
            TransferFn::Bt470Bg => 4,
            TransferFn::Linear => 8,
            TransferFn::St2084 => 16,
            TransferFn::AribStdB67 => 18,
            TransferFn::Unspecified => 1,
        }
    }

    /// The CICP code the libavcodec path carries: HDR transfers verbatim,
    /// everything else as BT.709.
    pub open spec fn cicp(self) -> u8 {
        match self {
            TransferFn::St2084 => 16,
            TransferFn::AribStdB67 => 18,
            _ => 1,
        }
    }
}

/// The H.273 code a stream carries for `t`.
pub fn transfer_to_h273(t: TransferFn) -> (code: u8)
    ensures
        code == t.h273(),
{
    match t {
        TransferFn::Bt709 => 1,
        TransferFn::Bt470Bg => 4,
        TransferFn::Linear => 8,
        TransferFn::St2084 => 16,
        TransferFn::AribStdB67 => 18,
        TransferFn::Unspecified => 1,
    }
}

/// The CICP code the libavcodec path carries for `t`.
pub fn transfer_to_cicp(t: TransferFn) -> (code: u8)
    ensures
        code == t.cicp(),
{
    match t {
        TransferFn::Bt709 => 1,
        TransferFn::St2084 => 16,
        TransferFn::AribStdB67 => 18,
        _ => 1,
    }
}

/// What a stream says about its transfer reads back as the transfer it was
/// given; only an unspecified one comes back as BT.709.
pub proof fn transfer_reads_back(t: TransferFn)
    ensures
        t != TransferFn::Unspecified ==> TransferFn::from_h273_spec(t.h273()) == t,
        TransferFn::from_h273_spec(TransferFn::Unspecified.h273()) == TransferFn::Bt709,
{
}

/// Both ways of signalling agree on every transfer a player treats as HDR, so
/// the bitstream and the container describe one picture.
pub proof fn hdr_signalling_agrees(t: TransferFn)
    requires
        t == TransferFn::St2084 || t == TransferFn::AribStdB67 || t == TransferFn::Bt709,
    ensures
        t.h273() == t.cicp(),
{
}

/// SMPTE ST 2086 mastering display colour volume, in the SEI's wire units.
#[derive(Debug, Clone, Copy, PartialEq, Eq, Structural)]
pub struct MasteringDisplay {
    pub primaries_r_x: u16,
    pub primaries_r_y: u16,
    pub primaries_g_x: u16,
    pub primaries_g_y: u16,
    pub primaries_b_x: u16,
    pub primaries_b_y: u16,
    pub white_point_x: u16,
    pub white_point_y: u16,
    pub max_luminance: u32,
    pub min_luminance: u32,
}

/// Content light level, in candelas per square metre.
#[derive(Debug, Clone, Copy, PartialEq, Eq, Structural)]
pub struct ContentLightLevel {
    pub max_cll: u16,
    pub max_fall: u16,
}

/// Colour of a picture: H.273 codes, range, and HDR10 static metadata.
#[derive(Debug, Clone, Copy, PartialEq, Eq)]
pub struct ColorMetadata {
    pub transfer: TransferFn,
    pub matrix_coefficients: u8,
    pub colour_primaries: u8,
    pub full_range: bool,
    pub mastering_display: Option<MasteringDisplay>,
    pub content_light_level: Option<ContentLightLevel>,
}

impl Default for ColorMetadata {
    /// SDR BT.709, studio range, no HDR metadata.
    fn default() -> (c: Self)
        ensures
            c.transfer == TransferFn::Bt709,
            c.matrix_coefficients == 1,
            c.colour_primaries == 1,
            !c.full_range,
            c.mastering_display == None::<MasteringDisplay>,
            c.content_light_level == None::<ContentLightLevel>,
    {
        ColorMetadata {
            transfer: TransferFn::Bt709,
            matrix_coefficients: 1,
            colour_primaries: 1,
            full_range: false,
            mastering_display: None,
            content_light_level: None,
        }
    }
}

/// One picture: planes packed back to back, and when it is shown.
pub struct VideoFrame {
    pub data: Bytes,
    pub width: u32,
    pub height: u32,
    pub format: PixelFormat,
    pub pts: u64,
}

impl VideoFrame {
    /// The picture's bytes.
    pub open spec fn bytes(self) -> Seq<u8> {
        packet::bytes_contents(self.data)
    }

    /// Wrap a buffer as a picture.
    pub fn new(data: Bytes, width: u32, height: u32, format: PixelFormat, pts: u64) -> (f: Self)
        ensures
            f.bytes() == packet::bytes_contents(data),
            f.width == width,
            f.height == height,
            f.format == format,
            f.pts == pts,
    {
        VideoFrame { data, width, height, format, pts }
    }

    /// Borrow the picture's bytes.
    pub fn slice(&self) -> (s: &[u8])
        ensures
            s@ == self.bytes(),
    {
        bytes_slice(&self.data)
    }
}

/// Bytes of one plane set of a packed 4:2:0 picture whose chroma planes are
/// `cw` by `ch`.
pub open spec fn packed_420_len(w: int, h: int, cw: int, ch: int, bytes_per_sample: int) -> int {
    (w * h + 2 * (cw * ch)) * bytes_per_sample
}

/// Chroma extent when an odd luma extent keeps its last sample.
pub open spec fn half_up(n: int) -> int {
    (n + 1) / 2
}

/// A stream carries the H.273 code of its transfer: 16 for PQ and 18 for HLG,
/// which make it HDR, 8 for linear light, 4 for the BT.470 gamma, and 1 for
/// BT.709 and for one that is unspecified. Every code of the BT.709 family reads
/// as BT.709.
pub proof fn transfers_have_their_codes(t: TransferFn, code: u8)
    ensures
        t.h273() == 16 <==> t == TransferFn::St2084,
        t.h273() == 18 <==> t == TransferFn::AribStdB67,
        t.h273() == 8 <==> t == TransferFn::Linear,
        t.h273() == 4 <==> t == TransferFn::Bt470Bg,
        t.h273() == 1 <==> t == TransferFn::Bt709 || t == TransferFn::Unspecified,
        t.cicp() == 16 <==> t == TransferFn::St2084,
        t.cicp() == 18 <==> t == TransferFn::AribStdB67,
        t.cicp() == 16 || t.cicp() == 18 || t.cicp() == 1,
        TransferFn::from_h273_spec(code) == TransferFn::Bt709 <==> code == 1 || code == 6 || code
            == 14 || code == 15,
        TransferFn::from_h273_spec(code) == TransferFn::St2084 <==> code == 16,
        TransferFn::from_h273_spec(code) == TransferFn::AribStdB67 <==> code == 18,
        TransferFn::from_h273_spec(code) == TransferFn::Linear <==> code == 8,
        TransferFn::from_h273_spec(code) == TransferFn::Bt470Bg <==> code == 4,
{
}

/// The encoders take 4:2:0 at eight and ten bits, and of the two only the latter
/// has samples of two bytes.
pub proof fn which_formats_encoders_take(f: PixelFormat)
    ensures
        f.is_420() <==> f == PixelFormat::Yuv420p || f == PixelFormat::Yuv420p10le,
        f.is_ten_bit() <==> f == PixelFormat::Yuv420p10le,
{
}

/// Half an extent keeps the odd sample: the halves of a picture cover it, and
/// none is wasted.
pub proof fn halves_cover_the_extent(n: int)
    requires
        0 <= n,
    ensures
        2 * half_up(n) - 1 <= n <= 2 * half_up(n),
{
}

/// A packed picture has as many samples as its luma plane and its two chroma
/// planes together.
pub proof fn planes_are_packed_back_to_back(w: int, h: int, cw: int, ch: int)
    ensures
        packed_420_len(w, h, cw, ch, 1) == w * h + cw * ch + cw * ch,
        packed_420_len(w, h, cw, ch, 2) == 2 * packed_420_len(w, h, cw, ch, 1),
{
}

} // verus!
