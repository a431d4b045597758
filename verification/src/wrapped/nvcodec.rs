//! NVENC through its session wrapper: what a session is configured with, and
//! how pictures are laid out for it.

use vstd::prelude::*;

use super::session::{self, check_frame, Session, WrapperError};
use crate::config::EncoderConfig;
use crate::dispatch::EncoderBackend;
use crate::frame::{self, PixelFormat, VideoFrame};
use crate::packet::EncodedPacket;
use crate::rate::{self, wrapper_frame_rate, FrameRate};
use crate::tuning::{QualityTarget, SpeedTier};
use crate::upload::{self, half_down, packed_bytes, zeroed};

verus! {

/// Input buffer formats the wrapper takes.
#[derive(Debug, Clone, Copy, PartialEq, Eq, Structural)]
pub enum NvBufferFormat {
    Nv12,
    Yuv420TenBit,
}

/// Presets in use, from fast to thorough.
#[derive(Debug, Clone, Copy, PartialEq, Eq, Structural)]
pub enum NvPreset {
    P5,
    P6,
    P7,
}

/// Rate control in use.
#[derive(Debug, Clone, Copy, PartialEq, Eq, Structural)]
pub enum NvRateControl {
    ConstQp,
    Vbr,
}

/// What a session is configured with, besides the fixed choice of the AV1 main
/// profile and high-quality tuning.
#[derive(Debug, Clone, Copy, PartialEq, Eq, Structural)]
pub struct NvSettings {
    pub width: u32,
    pub height: u32,
    pub idr_period: u32,
    pub gop_length: u32,
    pub framerate_num: u32,
    pub framerate_den: u32,
    pub average_bitrate: Option<u32>,
    pub preset: NvPreset,
    pub rate_control: NvRateControl,
    /// Distance between P pictures; one means no B pictures.
    pub frame_interval_p: u32,
    pub buffer_format: NvBufferFormat,
    pub device_id: u32,
}

/// Thousandths of a bit per pixel and frame that a target is given.
pub open spec fn millibits(target: QualityTarget) -> int {
    match target {
        QualityTarget::VisuallyLossless => 160,
        QualityTarget::High => 100,
        QualityTarget::Standard => 70,
        QualityTarget::Low => 45,
        QualityTarget::Vmaf(v) => 30 + v,
    }
}

/// Bits per second for a target: its bits per pixel over the pixels of a
/// second, between 100 kbit and 60 Mbit. A rate under one frame per second
/// counts as one.
pub open spec fn bitrate_of(target: QualityTarget, w: u32, h: u32, rate: FrameRate) -> int {
    rate::clamp_int(
        millibits(target) * (w * h) * rate.at_least_one() / 1_000_000_000_000,
        100_000,
        60_000_000,
    )
}

/// Bits per second for a target.
pub fn target_bitrate(target: QualityTarget, width: u32, height: u32, rate: FrameRate) -> (bps: u32)
    ensures
        bps == bitrate_of(target, width, height, rate),
{
    let m: u128 = match target {
        QualityTarget::VisuallyLossless => 160,
        QualityTarget::High => 100,
        QualityTarget::Standard => 70,
        QualityTarget::Low => 45,
        QualityTarget::Vmaf(v) => 30 + v as u128,
    };
    proof {
        assert(0 <= width * height <= 0xffff_ffff * 0xffff_ffff) by (nonlinear_arith)
            requires
                width <= 0xffff_ffff,
                height <= 0xffff_ffff,
        ;
        assert(0 <= m * (width * height) <= 285 * (0xffff_ffff * 0xffff_ffff)) by (nonlinear_arith)
            requires
                0 <= m <= 285,
                0 <= width * height <= 0xffff_ffff * 0xffff_ffff,
        ;
    }
    let px: u128 = m * (width as u128 * height as u128);
    let nanos: u128 = if rate.nanos < 1_000_000_000 {
        1_000_000_000
    } else {
        rate.nanos as u128
    };
    if px >= 60_000_000_000 {
        proof {
            assert(px * nanos >= 60_000_000_000 * 1_000_000_000) by (nonlinear_arith)
                requires
                    px >= 60_000_000_000,
                    nanos >= 1_000_000_000,
            ;
        }
        return 60_000_000;
    }
    proof {
        assert(0 <= px * nanos <= 60_000_000_000 * 0xffff_ffff_ffff_ffff) by (nonlinear_arith)
            requires
                0 <= px <= 60_000_000_000,
                0 <= nanos <= 0xffff_ffff_ffff_ffff,
        ;
    }
    let bps: u128 = px * nanos / 1_000_000_000_000;
    if bps < 100_000 {
        100_000
    } else if bps > 60_000_000 {
        60_000_000
    } else {
        bps as u32
    }
}

/// A better target never gets fewer bits.
pub proof fn better_targets_get_more_bits(w: u32, h: u32, rate: FrameRate)
    ensures
        bitrate_of(QualityTarget::Low, w, h, rate) <= bitrate_of(
            QualityTarget::Standard,
            w,
            h,
            rate,
        ) <= bitrate_of(QualityTarget::High, w, h, rate) <= bitrate_of(
            QualityTarget::VisuallyLossless,
            w,
            h,
            rate,
        ),
{
    let a = (w * h) as int;
    let n = rate.at_least_one();
    assert(0 <= a) by (nonlinear_arith)
        requires
            a == w * h,
    ;
    assert(45 * a * n <= 70 * a * n <= 100 * a * n <= 160 * a * n) by (nonlinear_arith)
        requires
            0 <= a,
            0 <= n,
    ;
}

/// The preset for a tier.
pub fn preset_for_tier(tier: SpeedTier) -> (p: NvPreset)
    ensures
        p == (match tier {
            SpeedTier::Draft => NvPreset::P5,
            SpeedTier::Standard => NvPreset::P6,
            SpeedTier::Archive => NvPreset::P7,
        }),
{
    match tier {
        SpeedTier::Draft => NvPreset::P5,
        SpeedTier::Standard => NvPreset::P6,
        SpeedTier::Archive => NvPreset::P7,
    }
}

/// The buffer format of a pixel format.
pub open spec fn buffer_format(f: PixelFormat) -> Option<NvBufferFormat> {
    match f {
        PixelFormat::Yuv420p => Some(NvBufferFormat::Nv12),
        PixelFormat::Yuv420p10le => Some(NvBufferFormat::Yuv420TenBit),
        _ => None,
    }
}

/// What a session is configured with.
pub open spec fn settings_of(c: EncoderConfig, gpu_index: u32, fmt: NvBufferFormat) -> NvSettings {
    NvSettings {
        width: c.width,
        height: c.height,
        idr_period: rate::max_int(c.keyframe_interval as int, 1) as u32,
        gop_length: rate::max_int(c.keyframe_interval as int, 1) as u32,
        framerate_num: rate::wrapper_rational(c.frame_rate).0,
        framerate_den: rate::wrapper_rational(c.frame_rate).1,
        average_bitrate: if c.constant_qp {
            None
        } else {
            Some(bitrate_of(c.target, c.width, c.height, c.frame_rate) as u32)
        },
        preset: match c.tier {
            SpeedTier::Draft => NvPreset::P5,
            SpeedTier::Standard => NvPreset::P6,
            SpeedTier::Archive => NvPreset::P7,
        },
        rate_control: if c.constant_qp {
            NvRateControl::ConstQp
        } else {
            NvRateControl::Vbr
        },
        frame_interval_p: 1,
        buffer_format: fmt,
        device_id: gpu_index,
    }
}

/// Map a configuration to the wrapper's.
pub fn settings(c: &EncoderConfig, gpu_index: u32) -> (r: Result<NvSettings, WrapperError>)
    ensures
        match buffer_format(c.pixel_format) {
            Some(fmt) => r == Ok::<NvSettings, WrapperError>(settings_of(*c, gpu_index, fmt)),
            None => r == Err::<NvSettings, WrapperError>(
                WrapperError::UnsupportedFormat {
                    backend: EncoderBackend::Nvenc,
                    format: c.pixel_format,
                },
            ),
        },
{
    let fmt: NvBufferFormat = match c.pixel_format {
        PixelFormat::Yuv420p => NvBufferFormat::Nv12,
        PixelFormat::Yuv420p10le => NvBufferFormat::Yuv420TenBit,
        other => {
            return Err(
                WrapperError::UnsupportedFormat { backend: EncoderBackend::Nvenc, format: other },
            );
        },
    };
    let fr: (u32, u32) = wrapper_frame_rate(c.frame_rate);
    let gop: u32 = if c.keyframe_interval == 0 {
        1
    } else {
        c.keyframe_interval
    };
    Ok(
        NvSettings {
            width: c.width,
            height: c.height,
            idr_period: gop,
            gop_length: gop,
            framerate_num: fr.0,
            framerate_den: fr.1,
            average_bitrate: if c.constant_qp {
                None
            } else {
                Some(target_bitrate(c.target, c.width, c.height, c.frame_rate))
            },
            preset: preset_for_tier(c.tier),
            rate_control: if c.constant_qp {
                NvRateControl::ConstQp
            } else {
                NvRateControl::Vbr
            },
            frame_interval_p: 1,
            buffer_format: fmt,
            device_id: gpu_index,
        },
    )
}

/// Bytes of the staging buffer.
pub open spec fn scratch_bytes(w: u32, h: u32, ten_bit: bool) -> int {
    w * h * 3 / 2 * upload::sample_bytes(ten_bit)
}

/// Bytes of a picture whose odd edges have no chroma of their own.
pub open spec fn frame_bytes(w: u32, h: u32, ten_bit: bool) -> int {
    frame::packed_420_len(
        w as int,
        h as int,
        w as int / 2,
        h as int / 2,
        upload::sample_bytes(ten_bit),
    )
}

/// The staging buffer after a picture was laid out in it: luma, then
/// interleaved chroma, both without gaps.
pub open spec fn staged(before: Seq<u8>, w: u32, h: u32, src: Seq<u8>, ten_bit: bool) -> Seq<u8> {
    let b = upload::sample_bytes(ten_bit);
    upload::uploaded(
        before,
        b * w,
        b * (w * h),
        2 * b * (w as int / 2),
        src,
        w as int,
        h as int,
        w as int / 2,
        h as int / 2,
        ten_bit,
    )
}

/// An NVENC session behind its wrapper, with the staging buffer pictures are
/// laid out in.
pub struct NvcodecEncoder {
    config: EncoderConfig,
    session: Session,
    scratch: Vec<u8>,
}

/// The verdict on a picture.
pub open spec fn send_verdict(c: EncoderConfig, f: VideoFrame) -> Option<WrapperError> {
    match session::frame_verdict(EncoderBackend::Nvenc, c.pixel_format, c.width, c.height, f) {
        Some(e) => Some(e),
        None => if f.bytes().len() < frame_bytes(c.width, c.height, c.pixel_format.is_ten_bit()) {
            Some(
                WrapperError::TooSmall {
                    backend: EncoderBackend::Nvenc,
                    format: f.format,
                    width: c.width,
                    height: c.height,
                    have: f.bytes().len() as usize,
                    need: frame_bytes(c.width, c.height, c.pixel_format.is_ten_bit()) as u128,
                },
            )
        } else {
            None
        },
    }
}

proof fn staging_has_room(w: u32, h: u32, ten_bit: bool)
    ensures
        upload::surface_holds(
            scratch_bytes(w, h, ten_bit) as nat,
            upload::sample_bytes(ten_bit) * w,
            upload::sample_bytes(ten_bit) * (w * h),
            2 * upload::sample_bytes(ten_bit) * (w as int / 2),
            w as int,
            h as int,
            w as int / 2,
            h as int / 2,
            ten_bit,
        ),
        0 <= scratch_bytes(w, h, ten_bit),
{
    let b = upload::sample_bytes(ten_bit);
    let wi = w as int;
    let hi = h as int;
    let cw = wi / 2;
    let ch = hi / 2;
    let a = wi * hi;
    assert(0 <= a) by (nonlinear_arith)
        requires
            a == wi * hi,
            0 <= wi,
            0 <= hi,
    ;
    assert(4 * (cw * ch) <= a) by (nonlinear_arith)
        requires
            a == wi * hi,
            0 <= 2 * cw <= wi,
            0 <= 2 * ch <= hi,
    ;
    assert(a + 2 * (cw * ch) <= a * 3 / 2);
    let total = a * 3 / 2 * b;
    assert(b == 1 || b == 2);
    assert(total == scratch_bytes(w, h, ten_bit));
    assert(wi == 0 ==> b * wi == 0);
    assert(cw == 0 ==> 2 * b * cw == 0) by (nonlinear_arith);
    if hi > 0 && wi > 0 {
        assert((hi - 1) * (b * wi) + b * wi == b * a) by (nonlinear_arith)
            requires
                a == wi * hi,
        ;
        assert(b * a <= total);
    }
    if ch > 0 && cw > 0 {
        assert((ch - 1) * (2 * b * cw) + 2 * b * cw == 2 * b * (cw * ch)) by (nonlinear_arith);
        if b == 1 {
            assert(2 * b * (cw * ch) == 2 * (cw * ch));
        } else {
            assert(2 * b * (cw * ch) == 4 * (cw * ch));
        }
        assert(b * a + 2 * b * (cw * ch) <= total);
    }
}

impl NvcodecEncoder {
    /// The session's bookkeeping.
    pub closed spec fn state(self) -> session::SessionState {
        self.session.state()
    }

    /// The configuration the session was opened with.
    pub closed spec fn configuration(self) -> EncoderConfig {
        self.config
    }

    /// The staging buffer.
    pub closed spec fn staging(self) -> Seq<u8> {
        self.scratch@
    }

    /// The session takes a format it has a buffer for, and its staging buffer
    /// is of its size.
    pub closed spec fn wf(self) -> bool {
        &&& buffer_format(self.config.pixel_format) is Some
        &&& self.config.width * 2 <= usize::MAX
        &&& self.scratch@.len() == scratch_bytes(
            self.config.width,
            self.config.height,
            self.config.pixel_format.is_ten_bit(),
        )
    }

    /// Bookkeeping for a session that was just opened.
    pub fn new(config: EncoderConfig) -> (e: Self)
        requires
            buffer_format(config.pixel_format) is Some,
            config.width * 2 <= usize::MAX,
            config.width * config.height * 3 <= usize::MAX,
        ensures
            e.wf(),
            e.configuration() == config,
            e.state() == (session::SessionState {
                queue: Seq::empty(),
                flushed: false,
                accepted: 0,
            }),
            e.staging() == Seq::new(
                scratch_bytes(
                    config.width,
                    config.height,
                    config.pixel_format.is_ten_bit(),
                ) as nat,
                |i: int| 0u8,
            ),
    {
        proof {
            assert(0 <= config.width * config.height) by (nonlinear_arith);
            staging_has_room(config.width, config.height, config.pixel_format.is_ten_bit());
        }
        let area: usize = config.width as usize * config.height as usize;
        let one: usize = area * 3 / 2;
        let len: usize = if config.pixel_format == PixelFormat::Yuv420p10le {
            one * 2
        } else {
            one
        };
        let scratch: Vec<u8> = zeroed(len);
        assert(len == scratch_bytes(
            config.width,
            config.height,
            config.pixel_format.is_ten_bit(),
        ));
        NvcodecEncoder { config, session: Session::new(), scratch }
    }

    /// Lay a picture out for the wrapper and give the number that tags it.
    /// Submit the staging buffer with it, and where that succeeds call
    /// [`NvcodecEncoder::accepted`].
    pub fn send_frame(&mut self, f: &VideoFrame) -> (r: Result<u64, WrapperError>)
        requires
            old(self).wf(),
        ensures
            final(self).wf(),
            final(self).configuration() == old(self).configuration(),
            final(self).state() == old(self).state(),
            match send_verdict(old(self).configuration(), *f) {
                Some(e) => {
                    &&& r == Err::<u64, WrapperError>(e)
                    &&& final(self).staging() == old(self).staging()
                },
                None => {
                    &&& r == Ok::<u64, WrapperError>(old(self).state().accepted as u64)
                    &&& final(self).staging() == staged(
                        old(self).staging(),
                        old(self).configuration().width,
                        old(self).configuration().height,
                        f.bytes(),
                        old(self).configuration().pixel_format.is_ten_bit(),
                    )
                },
            },
    {
        match check_frame(
            EncoderBackend::Nvenc,
            self.config.pixel_format,
            self.config.width,
            self.config.height,
            f,
        ) {
            Ok(()) => {},
            Err(e) => {
                return Err(e);
            },
        }
        let ten_bit: bool = self.config.pixel_format == PixelFormat::Yuv420p10le;
        let w: u32 = self.config.width;
        let h: u32 = self.config.height;
        let need: u128 = packed_bytes(w, h, w / 2, h / 2, ten_bit);
        let have: usize = f.slice().len();
        if (have as u128) < need {
            return Err(
                WrapperError::TooSmall {
                    backend: EncoderBackend::Nvenc,
                    format: f.format,
                    width: w,
                    height: h,
                    have,
                    need,
                },
            );
        }
        let wu: usize = w as usize;
        let hu: usize = h as usize;
        let len: usize = self.scratch.len();
        proof {
            staging_has_room(w, h, ten_bit);
            assert(0 <= w * h) by (nonlinear_arith);
            assert(0 <= (w as int / 2) * (h as int / 2)) by (nonlinear_arith)
                requires
                    0 <= w as int / 2,
                    0 <= h as int / 2,
            ;
        }
        assert(w * h <= have);
        let area: usize = wu * hu;
        let cw: usize = half_down(wu);
        if ten_bit {
            upload::upload(
                &mut self.scratch,
                2 * wu,
                2 * area,
                4 * cw,
                f.slice(),
                wu,
                hu,
                cw,
                hu / 2,
                true,
            );
        } else {
            upload::upload(
                &mut self.scratch,
                wu,
                area,
                2 * cw,
                f.slice(),
                wu,
                hu,
                cw,
                hu / 2,
                false,
            );
        }
        Ok(self.session.next_tag())
    }

    /// The staging buffer, for the wrapper to read.
    pub fn staging_bytes(&self) -> (s: &[u8])
        ensures
            s@ == self.staging(),
    {
        self.scratch.as_slice()
    }

    /// The wrapper accepted the picture.
    pub fn accepted(&mut self)
        requires
            old(self).wf(),
            old(self).state().accepted < u64::MAX,
        ensures
            final(self).wf(),
            final(self).configuration() == old(self).configuration(),
            final(self).staging() == old(self).staging(),
            final(self).state() == (session::SessionState {
                accepted: old(self).state().accepted + 1,
                ..old(self).state()
            }),
            final(self).state() == old(self).state().after_accept(),
    {
        self.session.accepted();
    }

    /// The wrapper coded a picture.
    pub fn collect(&mut self, data: Vec<u8>, tag: u64, kind: session::PictureKind)
        requires
            old(self).wf(),
        ensures
            final(self).wf(),
            final(self).configuration() == old(self).configuration(),
            final(self).staging() == old(self).staging(),
            final(self).state() == (session::SessionState {
                queue: old(self).state().queue.push(
                    crate::packet::PacketView {
                        bytes: data@,
                        pts: tag,
                        is_keyframe: session::starts_playback(kind),
                    },
                ),
                ..old(self).state()
            }),
            final(self).state() == old(self).state().after_collect(data@, tag, kind),
    {
        self.session.collect(data, tag, kind);
    }

    /// Whether the wrapper has to be flushed: the first time only.
    pub fn flush(&mut self) -> (b: bool)
        requires
            old(self).wf(),
        ensures
            final(self).wf(),
            final(self).configuration() == old(self).configuration(),
            final(self).staging() == old(self).staging(),
            b == !old(self).state().flushed,
            final(self).state() == (session::SessionState { flushed: true, ..old(self).state() }),
            final(self).state() == old(self).state().after_flush(),
    {
        self.session.flush()
    }

    /// The packet that has waited longest, if there is one.
    pub fn receive_packet(&mut self) -> (p: Option<EncodedPacket>)
        requires
            old(self).wf(),
        ensures
            final(self).wf(),
            final(self).configuration() == old(self).configuration(),
            final(self).staging() == old(self).staging(),
            match p {
                Some(pkt) => {
                    &&& old(self).state().queue.len() > 0
                    &&& pkt@ == old(self).state().queue[0]
                    &&& final(self).state() == (session::SessionState {
                        queue: old(self).state().queue.subrange(
                            1,
                            old(self).state().queue.len() as int,
                        ),
                        ..old(self).state()
                    })
                },
                None => {
                    &&& old(self).state().queue.len() == 0
                    &&& final(self).state() == old(self).state()
                },
            },
            final(self).state() == old(self).state().after_receive(),
            match old(self).state().next_packet() {
                Some(v) => p matches Some(pkt) && pkt@ == v,
                None => p is None,
            },
    {
        self.session.receive_packet()
    }
}

/// The luma sample `(x, y)` of a picture is the sample `(x, y)` of the staging
/// buffer, whose rows have no gaps; at ten bits it is there times 64.
pub proof fn staged_luma_reads_back(
    before: Seq<u8>,
    w: u32,
    h: u32,
    src: Seq<u8>,
    ten_bit: bool,
    x: int,
    y: int,
)
    requires
        before.len() == scratch_bytes(w, h, ten_bit),
        0 <= x < w,
        0 <= y < h,
    ensures
        ({
            let after = staged(before, w, h, src, ten_bit);
            let i = y * w + x;
            &&& !ten_bit ==> after[i] == src[i]
            &&& ten_bit ==> after[2 * i] + 256 * after[2 * i + 1] == (src[2 * i] + 256 * src[2 * i
                + 1]) % 1024 * 64
        }),
{
    staging_has_room(w, h, ten_bit);
    let b = upload::sample_bytes(ten_bit);
    let wi = w as int;
    let hi = h as int;
    assert((hi - 1) * (b * wi) + b * wi == b * (wi * hi)) by (nonlinear_arith);
    upload::luma_reads_back(
        before,
        b * wi,
        b * (wi * hi),
        2 * b * (wi / 2),
        src,
        wi,
        hi,
        wi / 2,
        hi / 2,
        ten_bit,
        x,
        y,
    );
    assert(y * (1 * wi) == y * wi);
    assert(y * (2 * wi) == 2 * (y * wi)) by (nonlinear_arith);
}

/// The pair `(x, y)` of the staging buffer's chroma rows, which follow the luma
/// rows without a gap, is the U sample `(x, y)` of the picture and then the V
/// sample, U being the first of its chroma planes and V the second; at ten bits
/// both are there times 64.
pub proof fn staged_chroma_reads_back(
    before: Seq<u8>,
    w: u32,
    h: u32,
    src: Seq<u8>,
    ten_bit: bool,
    x: int,
    y: int,
)
    requires
        before.len() == scratch_bytes(w, h, ten_bit),
        0 <= x < w as int / 2,
        0 <= y < h as int / 2,
    ensures
        ({
            let after = staged(before, w, h, src, ten_bit);
            let luma = w * h;
            let cw = w as int / 2;
            let plane = cw * (h as int / 2);
            let i = y * cw + x;
            &&& !ten_bit ==> {
                &&& after[luma + 2 * i] == src[luma + i]
                &&& after[luma + 2 * i + 1] == src[luma + plane + i]
            }
            &&& ten_bit ==> {
                let at = 2 * luma + 4 * i;
                let u = 2 * luma + 2 * i;
                let v = 2 * luma + 2 * plane + 2 * i;
                &&& after[at] + 256 * after[at + 1] == (src[u] + 256 * src[u + 1]) % 1024 * 64
                &&& after[at + 2] + 256 * after[at + 3] == (src[v] + 256 * src[v + 1]) % 1024 * 64
            }
        }),
{
    staging_has_room(w, h, ten_bit);
    let b = upload::sample_bytes(ten_bit);
    let wi = w as int;
    let hi = h as int;
    let cw = wi / 2;
    assert(0 <= wi * hi) by (nonlinear_arith)
        requires
            wi >= 0,
            hi >= 0,
    ;
    upload::chroma_reads_back(
        before,
        b * wi,
        b * (wi * hi),
        2 * b * cw,
        src,
        wi,
        hi,
        cw,
        hi / 2,
        ten_bit,
        x,
        y,
    );
    assert(y * (2 * 1 * cw) == 2 * (y * cw)) by (nonlinear_arith);
    assert(y * (2 * 2 * cw) == 4 * (y * cw)) by (nonlinear_arith);
}

/// A picture is taken exactly where it is of the session's format and size and
/// its buffer holds a byte for each luma sample and for each of the whole pairs
/// of chroma, two at ten bits. A refusal says which of these fails, with the
/// picture's own numbers.
pub proof fn which_pictures_are_taken(c: EncoderConfig, f: VideoFrame)
    requires
        c.pixel_format == PixelFormat::Yuv420p || c.pixel_format == PixelFormat::Yuv420p10le,
    ensures
        ({
            let samples = c.width * c.height + 2 * ((c.width as int / 2) * (c.height as int / 2));
            let need = if c.pixel_format == PixelFormat::Yuv420p10le {
                2 * samples
            } else {
                samples
            };
            match send_verdict(c, f) {
                None => f.format == c.pixel_format && f.width == c.width && f.height == c.height
                    && f.bytes().len() >= need,
                Some(WrapperError::FormatMismatch { backend, configured, got }) => backend
                    == EncoderBackend::Nvenc && configured == c.pixel_format && got == f.format
                    && got != configured,
                Some(
                    WrapperError::SizeMismatch {
                        backend,
                        width,
                        height,
                        frame_width,
                        frame_height,
                    },
                ) => {
                    &&& backend == EncoderBackend::Nvenc && f.format == c.pixel_format
                    &&& width == c.width && height == c.height
                    &&& frame_width == f.width && frame_height == f.height
                    &&& width != frame_width || height != frame_height
                },
                Some(WrapperError::TooSmall { backend, format, width, height, have, need: n }) => {
                    &&& backend == EncoderBackend::Nvenc && format == f.format
                    &&& f.format == c.pixel_format
                    &&& width == c.width && height == c.height
                    &&& width == f.width && height == f.height
                    &&& have == f.bytes().len() as usize && n == need as u128
                    &&& f.bytes().len() < need
                },
                Some(_) => false,
            }
        }),
{
}

/// A target's bit rate is its bits per pixel over the pixels of a second,
/// rounded down, wherever that is between 100 kbit and 60 Mbit: of a visually
/// lossless, high, standard and low target 0.16, 0.1, 0.07 and 0.045 bits, of a
/// VMAF score 0.03 and a thousandth more for every point.
pub proof fn targets_are_given_bits_per_pixel(
    target: QualityTarget,
    w: u32,
    h: u32,
    r: FrameRate,
)
    requires
        r.nanos >= 1_000_000_000,
    ensures
        ({
            let m = match target {
                QualityTarget::VisuallyLossless => 160int,
                QualityTarget::High => 100,
                QualityTarget::Standard => 70,
                QualityTarget::Low => 45,
                QualityTarget::Vmaf(v) => 30 + v,
            };
            let exact = m * (w * h) * r.nanos;
            let bps = bitrate_of(target, w, h, r);
            &&& 100_000 <= bps <= 60_000_000
            &&& 100_000 < bps < 60_000_000 ==> 0 <= exact - 1_000_000_000_000 * bps
                < 1_000_000_000_000
            &&& bps == 100_000 ==> exact < 100_001 * 1_000_000_000_000
            &&& bps == 60_000_000 ==> exact >= 60_000_000 * 1_000_000_000_000
        }),
{
    let exact = millibits(target) * (w * h) * r.at_least_one();
    vstd::arithmetic::div_mod::lemma_fundamental_div_mod(exact, 1_000_000_000_000);
}

/// A session is opened for the caller's pictures: their size, eight or ten
/// bits, the keyframe interval (one at least), a frame rate that is never zero,
/// no B pictures, the device, and the tier's preset. A constant quantiser
/// brings no bit rate; anything else brings the target's.
pub proof fn the_session_is_the_callers(c: EncoderConfig, gpu_index: u32)
    ensures
        buffer_format(c.pixel_format) is Some <==> c.pixel_format == PixelFormat::Yuv420p
            || c.pixel_format == PixelFormat::Yuv420p10le,
        buffer_format(c.pixel_format) matches Some(fmt) ==> {
            let s = settings_of(c, gpu_index, fmt);
            &&& s.width == c.width && s.height == c.height
            &&& s.buffer_format == NvBufferFormat::Nv12 <==> c.pixel_format == PixelFormat::Yuv420p
            &&& s.buffer_format == NvBufferFormat::Yuv420TenBit <==> c.pixel_format
                == PixelFormat::Yuv420p10le
            &&& c.keyframe_interval == 0 ==> s.gop_length == 1
            &&& c.keyframe_interval > 0 ==> s.gop_length == c.keyframe_interval
            &&& s.idr_period == s.gop_length
            &&& s.framerate_num == rate::wrapper_rational(c.frame_rate).0
            &&& s.framerate_den == rate::wrapper_rational(c.frame_rate).1
            &&& s.rate_control == NvRateControl::ConstQp <==> c.constant_qp
            &&& s.average_bitrate is None <==> c.constant_qp
            &&& s.average_bitrate matches Some(bps) ==> bps == bitrate_of(
                c.target,
                c.width,
                c.height,
                c.frame_rate,
            )
            &&& s.preset == NvPreset::P5 <==> c.tier == SpeedTier::Draft
            &&& s.preset == NvPreset::P6 <==> c.tier == SpeedTier::Standard
            &&& s.preset == NvPreset::P7 <==> c.tier == SpeedTier::Archive
            &&& s.frame_interval_p == 1
            &&& s.device_id == gpu_index
        },
{
}

} // verus!
