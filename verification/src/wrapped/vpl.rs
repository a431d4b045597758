//! QSV through its session wrapper: what a session is configured with, and
//! how pictures are laid out for it.

use vstd::prelude::*;

use super::session::{self, PictureKind, Session, WrapperError};
use crate::config::{EncoderConfig, AUTO_FROM_TARGET};
use crate::dispatch::EncoderBackend;
use crate::frame::{self, PixelFormat, VideoFrame};
use crate::packet::{EncodedPacket, PacketView};
use crate::rate::{self, FrameRate};
use crate::tuning::QsvParams;
use crate::upload::{self, half_down, packed_bytes, zeroed};

verus! {

/// What a session is configured with, besides the fixed choice of the AV1 main
/// profile, NV12 input and ICQ rate control.
#[derive(Debug, Clone, Copy, PartialEq, Eq, Structural)]
pub struct VplSettings {
    pub coded_width: u32,
    pub coded_height: u32,
    pub framerate_num: u32,
    pub framerate_den: u32,
    pub gop_pic_size: u16,
    /// Distance between references; one means no B pictures.
    pub gop_ref_dist: u16,
    pub target_usage: u16,
    pub icq_quality: u16,
}

/// An extent rounded up to whole coding blocks of sixteen, one at least.
pub open spec fn coded_extent(v: u32) -> int {
    rate::max_int((v + 15) / 16 * 16, 16)
}

/// What the wrapper takes as a frame rate: a rate that is a whole number to a
/// millionth from above over one, any other as thousandths over a thousand.
pub open spec fn vpl_rational(r: FrameRate) -> (u32, u32) {
    if r.nanos % 1_000_000_000 < 1000 {
        (rate::min_int(r.nanos as int / 1_000_000_000, u32::MAX as int) as u32, 1u32)
    } else {
        (rate::min_int(r.millis(), u32::MAX as int) as u32, 1000u32)
    }
}

/// The frame rate as the rational the wrapper takes.
pub fn vpl_frame_rate(r: FrameRate) -> (fr: (u32, u32))
    ensures
        fr == vpl_rational(r),
{
    if r.nanos % 1_000_000_000 < 1000 {
        let n: u64 = r.nanos / 1_000_000_000;
        (if n > 0xffff_ffff { 0xffff_ffff } else { n as u32 }, 1)
    } else {
        let n: u64 = r.to_millis();
        (if n > 0xffff_ffff { 0xffff_ffff } else { n as u32 }, 1000)
    }
}

/// Why the format cannot be taken, if it cannot.
pub open spec fn format_verdict(f: PixelFormat) -> Option<WrapperError> {
    match f {
        PixelFormat::Yuv420p => None,
        PixelFormat::Yuv420p10le => Some(WrapperError::TenBitUnavailable),
        other => Some(
            WrapperError::UnsupportedFormat { backend: EncoderBackend::Qsv, format: other },
        ),
    }
}

/// What a session is configured with.
pub open spec fn settings_of(c: EncoderConfig, tp: QsvParams) -> VplSettings {
    VplSettings {
        coded_width: coded_extent(c.width) as u32,
        coded_height: coded_extent(c.height) as u32,
        framerate_num: vpl_rational(c.frame_rate).0,
        framerate_den: vpl_rational(c.frame_rate).1,
        gop_pic_size: rate::min_int(c.keyframe_interval as int, 65535) as u16,
        gop_ref_dist: 1,
        target_usage: tp.target_usage,
        icq_quality: if c.quality == AUTO_FROM_TARGET {
            tp.icq_quality
        } else {
            rate::clamp_int(c.quality as int, 1, 51) as u16
        },
    }
}

fn coded(v: u32) -> (r: u32)
    requires
        v + 15 <= u32::MAX,
    ensures
        r == coded_extent(v),
{
    let up: u32 = (v + 15) / 16 * 16;
    if up < 16 {
        16
    } else {
        up
    }
}

/// Map a configuration and a tuning row to the wrapper's. Only 8-bit pictures
/// can be taken.
pub fn settings(c: &EncoderConfig, tp: &QsvParams) -> (r: Result<VplSettings, WrapperError>)
    requires
        c.width + 15 <= u32::MAX,
        c.height + 15 <= u32::MAX,
    ensures
        match format_verdict(c.pixel_format) {
            None => r == Ok::<VplSettings, WrapperError>(settings_of(*c, *tp)),
            Some(e) => r == Err::<VplSettings, WrapperError>(e),
        },
{
    match c.pixel_format {
        PixelFormat::Yuv420p => {},
        PixelFormat::Yuv420p10le => {
            return Err(WrapperError::TenBitUnavailable);
        },
        other => {
            return Err(
                WrapperError::UnsupportedFormat { backend: EncoderBackend::Qsv, format: other },
            );
        },
    }
    let fr: (u32, u32) = vpl_frame_rate(c.frame_rate);
    let icq: u16 = if c.quality == AUTO_FROM_TARGET {
        tp.icq_quality
    } else if c.quality < 1 {
        1
    } else if c.quality > 51 {
        51
    } else {
        c.quality as u16
    };
    Ok(
        VplSettings {
            coded_width: coded(c.width),
            coded_height: coded(c.height),
            framerate_num: fr.0,
            framerate_den: fr.1,
            gop_pic_size: if c.keyframe_interval > 65535 {
                65535
            } else {
                c.keyframe_interval as u16
            },
            gop_ref_dist: 1,
            target_usage: tp.target_usage,
            icq_quality: icq,
        },
    )
}

/// Byte `i` of a black NV12 surface.
pub open spec fn black_byte(i: int, luma_bytes: int) -> u8 {
    if i < luma_bytes {
        16
    } else {
        128
    }
}

/// A black NV12 surface.
pub open spec fn black(coded_w: u32, coded_h: u32) -> Seq<u8> {
    Seq::new(
        (coded_w * coded_h * 3 / 2) as nat,
        |i: int| black_byte(i, coded_w as int * coded_h as int),
    )
}

/// Bytes of a picture whose odd edges have no chroma of their own.
pub open spec fn frame_bytes(w: u32, h: u32) -> int {
    frame::packed_420_len(w as int, h as int, w as int / 2, h as int / 2, 1)
}

/// A picture on a black surface.
pub open spec fn nv12(coded_w: u32, coded_h: u32, f: VideoFrame) -> Seq<u8> {
    upload::uploaded(
        black(coded_w, coded_h),
        coded_w as int,
        coded_w as int * coded_h as int,
        coded_w as int,
        f.bytes(),
        f.width as int,
        f.height as int,
        f.width as int / 2,
        f.height as int / 2,
        false,
    )
}

/// The verdict on a picture.
pub open spec fn send_verdict(c: EncoderConfig, coded_w: u32, coded_h: u32, f: VideoFrame) -> Option<
    WrapperError,
> {
    if f.format != PixelFormat::Yuv420p {
        Some(
            WrapperError::FormatMismatch {
                backend: EncoderBackend::Qsv,
                configured: c.pixel_format,
                got: f.format,
            },
        )
    } else if f.width > coded_w || f.height > coded_h {
        Some(
            WrapperError::TooLarge {
                width: f.width,
                height: f.height,
                coded_width: coded_w,
                coded_height: coded_h,
            },
        )
    } else if f.bytes().len() < frame_bytes(f.width, f.height) {
        Some(
            WrapperError::TooSmall {
                backend: EncoderBackend::Qsv,
                format: PixelFormat::Yuv420p,
                width: f.width,
                height: f.height,
                have: f.bytes().len() as usize,
                need: frame_bytes(f.width, f.height) as u128,
            },
        )
    } else {
        None
    }
}

/// A coded surface has room for any picture that is no larger.
proof fn surface_has_room(cw: u32, ch: u32, w: u32, h: u32)
    requires
        cw % 16 == 0,
        ch % 16 == 0,
        w <= cw,
        h <= ch,
    ensures
        upload::surface_holds(
            (cw * ch * 3 / 2) as nat,
            cw as int,
            cw as int * ch as int,
            cw as int,
            w as int,
            h as int,
            w as int / 2,
            h as int / 2,
            false,
        ),
        0 <= cw * ch,
{
    let p = cw as int;
    let r = ch as int;
    let half = r / 2;
    assert(0 <= p * r) by (nonlinear_arith)
        requires
            0 <= p,
            0 <= r,
    ;
    assert(p * r == 2 * (p * half)) by (nonlinear_arith)
        requires
            r == 2 * half,
    ;
    assert(0 <= p * half) by (nonlinear_arith)
        requires
            0 <= p,
            0 <= half,
    ;
    assert(p * r * 3 / 2 == p * r + p * half);
    assert(2 * (w as int / 2) <= p);
    if h > 0 {
        assert((h - 1) * p + p <= p * r) by (nonlinear_arith)
            requires
                h <= r,
                0 <= p,
        ;
    }
    if h as int / 2 > 0 {
        let c = h as int / 2;
        assert((c - 1) * p + p <= p * half) by (nonlinear_arith)
            requires
                c <= half,
                0 <= p,
        ;
    }
}

/// A QSV session behind its wrapper, with the staging surface pictures are
/// laid out in.
pub struct VplEncoder {
    config: EncoderConfig,
    session: Session,
    coded_w: u32,
    coded_h: u32,
    scratch: Vec<u8>,
}

impl VplEncoder {
    /// The session's bookkeeping.
    pub closed spec fn state(self) -> session::SessionState {
        self.session.state()
    }

    /// The configuration the session was opened with.
    pub closed spec fn configuration(self) -> EncoderConfig {
        self.config
    }

    /// The size pictures are coded at.
    pub open spec fn coded_size(self) -> (u32, u32) {
        (
            coded_extent(self.configuration().width) as u32,
            coded_extent(self.configuration().height) as u32,
        )
    }

    /// The staging surface.
    pub closed spec fn staging(self) -> Seq<u8> {
        self.scratch@
    }

    /// The staging surface is of the coded size.
    pub closed spec fn wf(self) -> bool {
        &&& self.config.width + 15 <= u32::MAX
        &&& self.config.height + 15 <= u32::MAX
        &&& self.coded_w == coded_extent(self.config.width)
        &&& self.coded_h == coded_extent(self.config.height)
        &&& self.coded_w * self.coded_h * 3 <= usize::MAX
        &&& self.scratch@.len() == self.coded_w * self.coded_h * 3 / 2
    }

    /// A session in order codes pictures whose sides can be rounded up, on a
    /// surface that fits in memory and is the size of the coded picture.
    pub proof fn sessions_keep_their_extents(self)
        requires
            self.wf(),
        ensures
            self.configuration().width + 15 <= u32::MAX,
            self.configuration().height + 15 <= u32::MAX,
            self.coded_size().0 == coded_extent(self.configuration().width),
            self.coded_size().1 == coded_extent(self.configuration().height),
            self.coded_size().0 * self.coded_size().1 * 3 <= usize::MAX,
            self.staging().len() == self.coded_size().0 * self.coded_size().1 * 3 / 2,
    {
    }

    /// Bookkeeping for a session that was just opened.
    pub fn new(config: EncoderConfig) -> (e: Self)
        requires
            config.width + 15 <= u32::MAX,
            config.height + 15 <= u32::MAX,
            coded_extent(config.width) * coded_extent(config.height) * 3 <= usize::MAX,
        ensures
            e.wf(),
            e.configuration() == config,
            e.state() == (session::SessionState {
                queue: Seq::empty(),
                flushed: false,
                accepted: 0,
            }),
            e.staging() == Seq::new(
                (coded_extent(config.width) * coded_extent(config.height) * 3 / 2) as nat,
                |i: int| 0u8,
            ),
    {
        let coded_w: u32 = coded(config.width);
        let coded_h: u32 = coded(config.height);
        proof {
            assert(0 <= coded_w * coded_h) by (nonlinear_arith);
        }
        let area: usize = coded_w as usize * coded_h as usize;
        let scratch: Vec<u8> = zeroed(area * 3 / 2);
        VplEncoder { config, session: Session::new(), coded_w, coded_h, scratch }
    }

    /// Fill the staging surface with black.
    fn blacken(&mut self)
        requires
            old(self).wf(),
        ensures
            final(self).wf(),
            final(self).configuration() == old(self).configuration(),
            final(self).state() == old(self).state(),
            final(self).staging() == black(final(self).coded_w, final(self).coded_h),
            final(self).coded_w == old(self).coded_w,
            final(self).coded_h == old(self).coded_h,
    {
        proof {
            assert(0 <= self.coded_w * self.coded_h) by (nonlinear_arith)
                requires
                    0 <= self.coded_w,
                    0 <= self.coded_h,
            ;
        }
        let luma: usize = self.coded_w as usize * self.coded_h as usize;
        let len: usize = self.scratch.len();
        let mut v: Vec<u8> = Vec::new();
        let mut i: usize = 0;
        while i < len
            invariant
                i <= len,
                v@.len() == i,
                forall|j: int| 0 <= j < i ==> v@[j] == black_byte(j, luma as int),
            decreases len - i,
        {
            v.push(
                if i < luma {
                    16
                } else {
                    128
                },
            );
            i = i + 1;
        }
        self.scratch = v;
        assert(self.scratch@ =~= black(self.coded_w, self.coded_h));
    }

    /// Lay a picture out on the black staging surface. Submit that, and where
    /// it succeeds call [`VplEncoder::accepted`]. A picture that is refused for
    /// its length or size leaves the surface as it was.
    pub fn send_frame(&mut self, f: &VideoFrame) -> (r: Result<(), WrapperError>)
        requires
            old(self).wf(),
        ensures
            final(self).wf(),
            final(self).configuration() == old(self).configuration(),
            final(self).state() == old(self).state(),
            match send_verdict(
                old(self).configuration(),
                old(self).coded_size().0,
                old(self).coded_size().1,
                *f,
            ) {
                Some(e) => {
                    &&& r == Err::<(), WrapperError>(e)
                    &&& final(self).staging() == old(self).staging()
                },
                None => {
                    &&& r is Ok
                    &&& final(self).staging() == nv12(
                        old(self).coded_size().0,
                        old(self).coded_size().1,
                        *f,
                    )
                },
            },
    {
        if f.format != PixelFormat::Yuv420p {
            return Err(
                WrapperError::FormatMismatch {
                    backend: EncoderBackend::Qsv,
                    configured: self.config.pixel_format,
                    got: f.format,
                },
            );
        }
        if f.width > self.coded_w || f.height > self.coded_h {
            return Err(
                WrapperError::TooLarge {
                    width: f.width,
                    height: f.height,
                    coded_width: self.coded_w,
                    coded_height: self.coded_h,
                },
            );
        }
        let need: u128 = packed_bytes(f.width, f.height, f.width / 2, f.height / 2, false);
        let have: usize = f.slice().len();
        if (have as u128) < need {
            return Err(
                WrapperError::TooSmall {
                    backend: EncoderBackend::Qsv,
                    format: PixelFormat::Yuv420p,
                    width: f.width,
                    height: f.height,
                    have,
                    need,
                },
            );
        }
        self.blacken();
        proof {
            surface_has_room(self.coded_w, self.coded_h, f.width, f.height);
        }
        let pitch: usize = self.coded_w as usize;
        let luma: usize = pitch * self.coded_h as usize;
        upload::upload(
            &mut self.scratch,
            pitch,
            luma,
            pitch,
            f.slice(),
            f.width as usize,
            f.height as usize,
            half_down(f.width as usize),
            half_down(f.height as usize),
            false,
        );
        Ok(())
    }

    /// The staging surface, for the wrapper to read.
    pub fn staging_bytes(&self) -> (s: &[u8])
        ensures
            s@ == self.staging(),
    {
        self.scratch.as_slice()
    }

    /// The wrapper accepted the picture.
    pub fn accepted(&mut self)
        requires
            old(self).wf(),
            old(self).state().accepted < u64::MAX,
        ensures
            final(self).wf(),
            final(self).configuration() == old(self).configuration(),
            final(self).staging() == old(self).staging(),
            final(self).state() == (session::SessionState {
                accepted: old(self).state().accepted + 1,
                ..old(self).state()
            }),
            final(self).state() == old(self).state().after_accept(),
    {
        self.session.accepted();
    }

    /// The wrapper coded a picture.
    pub fn collect(&mut self, data: Vec<u8>, timestamp: u64, kind: PictureKind)
        requires
            old(self).wf(),
        ensures
            final(self).wf(),
            final(self).configuration() == old(self).configuration(),
            final(self).staging() == old(self).staging(),
            final(self).state() == (session::SessionState {
                queue: old(self).state().queue.push(
                    PacketView {
                        bytes: data@,
                        pts: timestamp,
                        is_keyframe: session::starts_playback(kind),
                    },
                ),
                ..old(self).state()
            }),
            final(self).state() == old(self).state().after_collect(data@, timestamp, kind),
    {
        self.session.collect(data, timestamp, kind);
    }

    /// Whether the wrapper has to be flushed: the first time only.
    pub fn flush(&mut self) -> (b: bool)
        requires
            old(self).wf(),
        ensures
            final(self).wf(),
            final(self).configuration() == old(self).configuration(),
            final(self).staging() == old(self).staging(),
            b == !old(self).state().flushed,
            final(self).state() == (session::SessionState { flushed: true, ..old(self).state() }),
            final(self).state() == old(self).state().after_flush(),
    {
        self.session.flush()
    }

    /// The packet that has waited longest, if there is one.
    pub fn receive_packet(&mut self) -> (p: Option<EncodedPacket>)
        requires
            old(self).wf(),
        ensures
            final(self).wf(),
            final(self).configuration() == old(self).configuration(),
            final(self).staging() == old(self).staging(),
            match p {
                Some(pkt) => {
                    &&& old(self).state().queue.len() > 0
                    &&& pkt@ == old(self).state().queue[0]
                    &&& final(self).state() == (session::SessionState {
                        queue: old(self).state().queue.subrange(
                            1,
                            old(self).state().queue.len() as int,
                        ),
                        ..old(self).state()
                    })
                },
                None => {
                    &&& old(self).state().queue.len() == 0
                    &&& final(self).state() == old(self).state()
                },
            },
            final(self).state() == old(self).state().after_receive(),
            match old(self).state().next_packet() {
                Some(v) => p matches Some(pkt) && pkt@ == v,
                None => p is None,
            },
    {
        self.session.receive_packet()
    }
}

/// Whatever a picture's size, the padding around it decodes as black: luma at
/// the studio floor, chroma centred.
pub proof fn padding_is_black(coded_w: u32, coded_h: u32, f: VideoFrame, i: int)
    requires
        0 <= i < coded_w * coded_h * 3 / 2,
        !crate::planes::in_block(i, 0, coded_w as int, f.width as int, f.height as int),
        !crate::planes::in_block(
            i,
            coded_w as int * coded_h as int,
            coded_w as int,
            2 * (f.width as int / 2),
            f.height as int / 2,
        ),
    ensures
        nv12(coded_w, coded_h, f)[i] == black_byte(i, coded_w as int * coded_h as int),
{
}

/// A coded side is a multiple of sixteen, no smaller than the picture's, and
/// the least of these; one block at least.
pub proof fn coded_sides_are_whole_blocks(v: u32)
    ensures
        coded_extent(v) % 16 == 0,
        coded_extent(v) >= 16,
        v <= coded_extent(v),
        v > 0 ==> coded_extent(v) < v + 16,
        v == 0 ==> coded_extent(v) == 16,
{
}

/// The wrapper is handed a rate over one exactly where it is a whole number or
/// up to a millionth above one, and then that number; else in thousandths, to
/// the nearest.
pub proof fn rates_are_near(r: FrameRate)
    ensures
        vpl_rational(r).1 == 1 || vpl_rational(r).1 == 1000,
        vpl_rational(r).1 == 1 <==> r.nanos % 1_000_000_000 < 1000,
        vpl_rational(r).1 == 1 && r.nanos <= 4_000_000_000_000_000_000 ==> 0 <= r.nanos
            - vpl_rational(r).0 * 1_000_000_000 < 1000,
        vpl_rational(r).1 == 1000 && r.nanos <= 4_000_000_000_000_000 ==> -500_000 < vpl_rational(
            r,
        ).0 * 1_000_000 - r.nanos <= 500_000,
{
    rate::rounded_rates_are_within_half_a_unit(r);
    vstd::arithmetic::div_mod::lemma_fundamental_div_mod(r.nanos as int, 1_000_000_000);
    rate::rounding_is_to_the_nearest(r.nanos as int, 1_000_000);
}

/// Eight-bit 4:2:0 is taken and nothing else; ten bits are refused in words of
/// their own.
pub proof fn only_eight_bits_are_taken(f: PixelFormat)
    ensures
        format_verdict(f) is None <==> f == PixelFormat::Yuv420p,
        format_verdict(f) == Some(WrapperError::TenBitUnavailable) <==> f
            == PixelFormat::Yuv420p10le,
        f != PixelFormat::Yuv420p && f != PixelFormat::Yuv420p10le ==> format_verdict(f) == Some(
            WrapperError::UnsupportedFormat { backend: EncoderBackend::Qsv, format: f },
        ),
{
}

/// A session is opened for the caller's pictures: their size in whole blocks,
/// the frame rate, no B pictures, the row's effort, the keyframe interval as
/// far as the wrapper can count, and the caller's quality from 1 to 51, or the
/// row's where the caller names none.
pub proof fn the_session_is_the_callers(c: EncoderConfig, tp: QsvParams)
    requires
        c.width + 15 <= u32::MAX,
        c.height + 15 <= u32::MAX,
    ensures
        ({
            let s = settings_of(c, tp);
            &&& s.coded_width == coded_extent(c.width)
            &&& s.coded_height == coded_extent(c.height)
            &&& s.framerate_num == vpl_rational(c.frame_rate).0
            &&& s.framerate_den == vpl_rational(c.frame_rate).1
            &&& c.keyframe_interval <= 65535 ==> s.gop_pic_size == c.keyframe_interval
            &&& c.keyframe_interval > 65535 ==> s.gop_pic_size == 65535
            &&& s.gop_ref_dist == 1
            &&& s.target_usage == tp.target_usage
            &&& c.quality == 255 ==> s.icq_quality == tp.icq_quality
            &&& c.quality == 0 ==> s.icq_quality == 1
            &&& 1 <= c.quality <= 51 ==> s.icq_quality == c.quality
            &&& 51 < c.quality < 255 ==> s.icq_quality == 51
        }),
{
}

/// The luma sample `(x, y)` of a picture is the one the encoder reads from the
/// surface, whose rows are as long as the coded picture's.
pub proof fn luma_reads_back(coded_w: u32, coded_h: u32, f: VideoFrame, x: int, y: int)
    requires
        coded_w % 16 == 0,
        coded_h % 16 == 0,
        f.width <= coded_w,
        f.height <= coded_h,
        0 <= x < f.width,
        0 <= y < f.height,
    ensures
        nv12(coded_w, coded_h, f)[y * coded_w + x] == f.bytes()[y * f.width + x],
{
    surface_has_room(coded_w, coded_h, f.width, f.height);
    let cw = coded_w as int;
    let ch = coded_h as int;
    let w = f.width as int;
    let h = f.height as int;
    assert((h - 1) * cw + w <= cw * ch) by (nonlinear_arith)
        requires
            0 < h <= ch,
            w <= cw,
            0 <= cw,
    ;
    upload::luma_reads_back(
        black(coded_w, coded_h),
        cw,
        cw * ch,
        cw,
        f.bytes(),
        w,
        h,
        w / 2,
        h / 2,
        false,
        x,
        y,
    );
}

/// The pair `(x, y)` that the encoder reads from the surface's chroma rows,
/// which follow all the coded luma rows, is the U sample `(x, y)` of the picture
/// and then the V sample, U being the first of its chroma planes and V the
/// second.
pub proof fn chroma_reads_back(coded_w: u32, coded_h: u32, f: VideoFrame, x: int, y: int)
    requires
        coded_w % 16 == 0,
        coded_h % 16 == 0,
        f.width <= coded_w,
        f.height <= coded_h,
        0 <= x < f.width as int / 2,
        0 <= y < f.height as int / 2,
    ensures
        ({
            let after = nv12(coded_w, coded_h, f);
            let at = coded_w * coded_h + y * coded_w + 2 * x;
            let luma = f.width * f.height;
            let cw = f.width as int / 2;
            let plane = cw * (f.height as int / 2);
            &&& after[at] == f.bytes()[luma + (y * cw + x)]
            &&& after[at + 1] == f.bytes()[luma + plane + (y * cw + x)]
        }),
{
    surface_has_room(coded_w, coded_h, f.width, f.height);
    let cw = coded_w as int;
    let ch = coded_h as int;
    let w = f.width as int;
    let h = f.height as int;
    upload::chroma_reads_back(
        black(coded_w, coded_h),
        cw,
        cw * ch,
        cw,
        f.bytes(),
        w,
        h,
        w / 2,
        h / 2,
        false,
        x,
        y,
    );
}

/// A picture is taken exactly where it is eight-bit 4:2:0, no larger than the
/// coded size, and its buffer holds a byte for each luma sample and for each of
/// the whole pairs of chroma. A refusal says which of these fails, with the
/// picture's own numbers.
pub proof fn which_pictures_are_taken(c: EncoderConfig, coded_w: u32, coded_h: u32, f: VideoFrame)
    ensures
        ({
            let need = f.width * f.height + 2 * ((f.width as int / 2) * (f.height as int / 2));
            match send_verdict(c, coded_w, coded_h, f) {
                None => f.format == PixelFormat::Yuv420p && f.width <= coded_w && f.height
                    <= coded_h && f.bytes().len() >= need,
                Some(WrapperError::FormatMismatch { backend, configured, got }) => backend
                    == EncoderBackend::Qsv && configured == c.pixel_format && got == f.format
                    && got != PixelFormat::Yuv420p,
                Some(WrapperError::TooLarge { width, height, coded_width, coded_height }) => {
                    &&& f.format == PixelFormat::Yuv420p
                    &&& width == f.width && height == f.height
                    &&& coded_width == coded_w && coded_height == coded_h
                    &&& width > coded_width || height > coded_height
                },
                Some(WrapperError::TooSmall { backend, format, width, height, have, need: n }) => {
                    &&& backend == EncoderBackend::Qsv && format == PixelFormat::Yuv420p
                    &&& f.format == PixelFormat::Yuv420p
                    &&& width == f.width && height == f.height
                    &&& width <= coded_w && height <= coded_h
                    &&& have == f.bytes().len() as usize && n == need as u128
                    &&& f.bytes().len() < need
                },
                Some(_) => false,
            }
        }),
{
}

/// A surface starts out black: as many bytes as luma samples at 16, the darkest
/// of studio range, and half as many of chroma at 128, the middle.
pub proof fn a_blank_surface_is_black(coded_w: u32, coded_h: u32, i: int)
    requires
        0 <= i < black(coded_w, coded_h).len(),
    ensures
        i < coded_w * coded_h ==> black(coded_w, coded_h)[i] == 16,
        i >= coded_w * coded_h ==> black(coded_w, coded_h)[i] == 128,
        coded_w % 16 == 0 ==> 2 * black(coded_w, coded_h).len() == 3 * (coded_w * coded_h),
{
    let w = coded_w as int;
    let h = coded_h as int;
    assert(0 <= w * h) by (nonlinear_arith)
        requires
            0 <= w,
            0 <= h,
    ;
    if w % 16 == 0 {
        let k = w / 16;
        assert(w * h == 16 * (k * h)) by (nonlinear_arith)
            requires
                w == 16 * k,
        ;
    }
}

} // verus!
