//! Coding with an AMF session.
//!
//! Every picture gets a fresh surface. The runtime takes a surface over when
//! it accepts it; while its input queue is full, the same surface is offered
//! again, after some output was taken and a short pause.
//!
//! The host performs what the methods ask for and reports what the runtime
//! answered:
//!
//! 1. [`AmfEncoder::begin_frame`] says what to set on the surface.
//! 2. [`upload_frame`] writes the picture onto the surface's planes.
//! 3. [`Submission::submitted`] takes the status of each offer.
//! 4. [`AmfEncoder::queried`] takes each answer of the output queue.
//! 5. [`AmfEncoder::frame_done`] counts the picture, if all of it succeeded.

use vstd::prelude::*;

use super::api::{
    AmfVariant, AMF_EOF, AMF_INPUT_FULL, AMF_NEED_MORE_INPUT, AMF_OK, AMF_REPEAT, INPUT_FULL_BACKOFF_MS_INITIAL,
    INPUT_FULL_BACKOFF_MS_MAX, INPUT_FULL_MAX_RETRIES, RING_SIZE,
};
use super::error::AmfError;
use super::properties::{
    self, amf_surface_format_for, effective_keyframe_interval, is_keyframe, mark_key_frame,
    PropertyList,
};
use crate::config::EncoderConfig;
use crate::frame::{self, PixelFormat, VideoCodec, VideoFrame};
use crate::packet::{self, packet_of, EncodedPacket, PacketView};
use crate::planes::{self, copy_plane, copy_plane_lifted, interleave, interleave_lifted};
use crate::rate::{self, pts_timescale};
use crate::upload::{self, packed_bytes, Plane};

verus! {

/// Hold the answer to a surface allocation, and whether it has both planes.
pub fn check_surface(
    c: &EncoderConfig,
    status: i32,
    null: bool,
    plane_missing: bool,
) -> (r: Result<(), AmfError>)
    requires
        properties::surface_format(c.pixel_format) is Some,
    ensures
        r == (if status != AMF_OK || null {
            Err::<(), AmfError>(
                AmfError::AllocSurface {
                    width: c.width,
                    height: c.height,
                    surface_format: properties::surface_format(c.pixel_format)->0,
                    status,
                },
            )
        } else if plane_missing {
            Err::<(), AmfError>(
                AmfError::MissingPlane {
                    surface_format: properties::surface_format(c.pixel_format)->0,
                },
            )
        } else {
            Ok::<(), AmfError>(())
        }),
{
    let surface_format: i32 = match amf_surface_format_for(c.pixel_format) {
        Ok(f) => f,
        Err(e) => {
            return Err(e);
        },
    };
    if status != AMF_OK || null {
        return Err(
            AmfError::AllocSurface { width: c.width, height: c.height, surface_format, status },
        );
    }
    if plane_missing {
        return Err(AmfError::MissingPlane { surface_format });
    }
    Ok(())
}

/// Bytes of a picture of the session's size and format.
pub open spec fn needed_bytes(c: EncoderConfig) -> int {
    frame::packed_420_len(
        c.width as int,
        c.height as int,
        frame::half_up(c.width as int),
        frame::half_up(c.height as int),
        upload::sample_bytes(c.pixel_format.is_ten_bit()),
    )
}

/// The luma plane after a picture was written into it.
pub open spec fn luma_written(c: EncoderConfig, before: Seq<u8>, pitch: int, src: Seq<u8>) -> Seq<
    u8,
> {
    let w = c.width as int;
    if c.pixel_format.is_ten_bit() {
        planes::painted(before, 0, pitch, 2 * w, c.height as int, planes::lifted_px(src, 0, w))
    } else {
        planes::painted(before, 0, pitch, w, c.height as int, planes::packed_px(src, 0, w))
    }
}

/// The chroma plane after a picture was written into it.
pub open spec fn chroma_written(c: EncoderConfig, before: Seq<u8>, pitch: int, src: Seq<u8>) -> Seq<
    u8,
> {
    let w = c.width as int;
    let h = c.height as int;
    let cw = frame::half_up(w);
    let ch = frame::half_up(h);
    if c.pixel_format.is_ten_bit() {
        planes::painted(before, 0, pitch, 4 * cw, ch, planes::interleaved_lifted_px(
            src,
            2 * (w * h),
            2 * (w * h) + 2 * (cw * ch),
            cw,
        ))
    } else {
        planes::painted(before, 0, pitch, 2 * cw, ch, planes::interleaved_px(
            src,
            w * h,
            w * h + cw * ch,
            cw,
        ))
    }
}

/// Whether the runtime's planes have room for the session's pictures, where
/// they are mapped.
pub open spec fn planes_fit(c: EncoderConfig, y: Plane, uv: Plane) -> bool {
    let b = upload::sample_bytes(c.pixel_format.is_ten_bit());
    &&& !y.null ==> planes::block_fits(
        y.bytes@.len(),
        0,
        y.pitch as int,
        b * c.width,
        c.height as int,
    )
    &&& !uv.null ==> planes::block_fits(
        uv.bytes@.len(),
        0,
        uv.pitch as int,
        2 * b * frame::half_up(c.width as int),
        frame::half_up(c.height as int),
    )
}

/// Why a picture cannot be written onto a surface, if it cannot: it is too
/// short, or a plane has no memory, the luma plane first.
pub open spec fn upload_verdict(c: EncoderConfig, y: Plane, uv: Plane, f: VideoFrame) -> Option<
    AmfError,
> {
    let ten_bit = c.pixel_format.is_ten_bit();
    if f.bytes().len() < needed_bytes(c) {
        Some(
            AmfError::TooSmall {
                width: c.width,
                height: c.height,
                ten_bit,
                need: needed_bytes(c) as u128,
                have: f.bytes().len() as usize,
            },
        )
    } else if y.null {
        Some(AmfError::NullPlane { chroma: false, ten_bit })
    } else if uv.null {
        Some(AmfError::NullPlane { chroma: true, ten_bit })
    } else {
        None
    }
}

/// Write a picture onto a surface's two planes.
pub fn upload_frame(c: &EncoderConfig, y: &mut Plane, uv: &mut Plane, f: &VideoFrame) -> (r: Result<
    (),
    AmfError,
>)
    requires
        planes_fit(*c, *old(y), *old(uv)),
    ensures
        final(y).null == old(y).null,
        final(y).pitch == old(y).pitch,
        final(uv).null == old(uv).null,
        final(uv).pitch == old(uv).pitch,
        r == (match upload_verdict(*c, *old(y), *old(uv), *f) {
            Some(e) => Err::<(), AmfError>(e),
            None => Ok::<(), AmfError>(()),
        }),
        ({
            let ten_bit = c.pixel_format.is_ten_bit();
            if f.bytes().len() < needed_bytes(*c) {
                &&& r == Err::<(), AmfError>(
                    AmfError::TooSmall {
                        width: c.width,
                        height: c.height,
                        ten_bit,
                        need: needed_bytes(*c) as u128,
                        have: f.bytes().len() as usize,
                    },
                )
                &&& final(y).bytes@ == old(y).bytes@
                &&& final(uv).bytes@ == old(uv).bytes@
            } else if old(y).null {
                &&& r == Err::<(), AmfError>(AmfError::NullPlane { chroma: false, ten_bit })
                &&& final(y).bytes@ == old(y).bytes@
                &&& final(uv).bytes@ == old(uv).bytes@
            } else {
                &&& final(y).bytes@ == luma_written(
                    *c,
                    old(y).bytes@,
                    old(y).pitch as int,
                    f.bytes(),
                )
                &&& if old(uv).null {
                    &&& r == Err::<(), AmfError>(AmfError::NullPlane { chroma: true, ten_bit })
                    &&& final(uv).bytes@ == old(uv).bytes@
                } else {
                    &&& r is Ok
                    &&& final(uv).bytes@ == chroma_written(
                        *c,
                        old(uv).bytes@,
                        old(uv).pitch as int,
                        f.bytes(),
                    )
                }
            }
        }),
{
    let ten_bit: bool = c.pixel_format == PixelFormat::Yuv420p10le;
    let cw32: u32 = c.width / 2 + c.width % 2;
    let ch32: u32 = c.height / 2 + c.height % 2;
    assert(cw32 == frame::half_up(c.width as int));
    assert(ch32 == frame::half_up(c.height as int));
    let need: u128 = packed_bytes(c.width, c.height, cw32, ch32, ten_bit);
    let src: &[u8] = f.slice();
    let have: usize = src.len();
    if (have as u128) < need {
        return Err(
            AmfError::TooSmall { width: c.width, height: c.height, ten_bit, need, have },
        );
    }
    if y.null {
        return Err(AmfError::NullPlane { chroma: false, ten_bit });
    }
    let w: usize = c.width as usize;
    let h: usize = c.height as usize;
    let cw: usize = cw32 as usize;
    let ch: usize = ch32 as usize;
    proof {
        assert(w * h == h * w) by (nonlinear_arith);
        assert(cw * ch == ch * cw) by (nonlinear_arith);
        assert(0 <= w * h) by (nonlinear_arith);
        assert(0 <= cw * ch) by (nonlinear_arith);
        pictures_are_counted_in_samples(*c);
        assert(ten_bit ==> 2 * (w * h) + 4 * (cw * ch) == need);
        assert(!ten_bit ==> w * h + 2 * (cw * ch) == need);
    }
    if ten_bit {
        copy_plane_lifted(&mut y.bytes, 0, y.pitch, src, 0, w, h);
    } else {
        copy_plane(&mut y.bytes, 0, y.pitch, src, 0, w, h);
    }
    if uv.null {
        return Err(AmfError::NullPlane { chroma: true, ten_bit });
    }
    let luma: usize = w * h;
    let chroma: usize = cw * ch;
    if ten_bit {
        interleave_lifted(
            &mut uv.bytes,
            0,
            uv.pitch,
            src,
            2 * luma,
            2 * luma + 2 * chroma,
            cw,
            ch,
        );
    } else {
        interleave(&mut uv.bytes, 0, uv.pitch, src, luma, luma + chroma, cw, ch);
    }
    Ok(())
}

/// What the host does after a surface was offered.
#[derive(Debug, Clone, Copy, PartialEq, Eq, Structural)]
pub enum SubmitStep {
    /// The runtime took the surface over: give the host's reference back.
    Accepted,
    /// Take output until there is none, pause this many milliseconds, and offer
    /// the same surface again. The host's reference stays.
    Retry { pause_ms: u64 },
}

/// Whether a status means that the input queue is full for now.
pub open spec fn means_full(status: i32) -> bool {
    status == AMF_INPUT_FULL || status == AMF_REPEAT
}

/// Whether a status means that the runtime took the surface.
pub open spec fn means_taken(status: i32) -> bool {
    status == AMF_OK || status == AMF_NEED_MORE_INPUT
}

/// The pause after the offer that follows `n` refused ones: none after the
/// first, then a millisecond, doubling up to the limit.
pub open spec fn pause_after(n: int) -> int
    decreases n,
{
    if n <= 0 {
        0
    } else if n == 1 {
        INPUT_FULL_BACKOFF_MS_INITIAL as int
    } else {
        rate::min_int(2 * pause_after(n - 1), INPUT_FULL_BACKOFF_MS_MAX as int)
    }
}

/// What the status of an offer leads to, after `refused` refused ones and with
/// the host's reference `owned` or not: how many offers were refused, whether
/// the reference is still the host's, and what to do next.
pub open spec fn offer_outcome(refused: int, owned: bool, status: i32) -> (
    int,
    bool,
    Result<SubmitStep, AmfError>,
) {
    if means_taken(status) {
        (refused, false, Ok(SubmitStep::Accepted))
    } else if means_full(status) && refused < INPUT_FULL_MAX_RETRIES {
        (refused + 1, owned, Ok(SubmitStep::Retry { pause_ms: pause_after(refused) as u64 }))
    } else if means_full(status) {
        (
            refused,
            owned,
            Err(AmfError::SubmitStuck { status, attempts: (INPUT_FULL_MAX_RETRIES + 1) as u32 }),
        )
    } else {
        (refused, owned, Err(AmfError::SubmitFailed { status }))
    }
}

/// One surface on its way into the runtime.
pub struct Submission {
    attempt: u32,
    backoff_ms: u64,
    owned: bool,
}

impl Submission {
    /// Offers that were refused so far.
    pub closed spec fn refused(self) -> int {
        self.attempt as int
    }

    /// Whether the host's reference on the surface is still to be given back.
    pub closed spec fn owned(self) -> bool {
        self.owned
    }

    /// The pause that is due agrees with the number of refusals.
    pub closed spec fn wf(self) -> bool {
        &&& self.attempt <= INPUT_FULL_MAX_RETRIES
        &&& self.backoff_ms == pause_after(
            if self.attempt == 0 {
                1
            } else {
                self.attempt as int
            },
        )
        &&& 1 <= self.backoff_ms <= INPUT_FULL_BACKOFF_MS_MAX
    }

    /// A surface that was not offered yet.
    pub fn new() -> (s: Self)
        ensures
            s.wf(),
            s.refused() == 0,
            s.owned(),
    {
        assert(pause_after(1) == 1);
        Submission { attempt: 0, backoff_ms: INPUT_FULL_BACKOFF_MS_INITIAL, owned: true }
    }

    /// Take the status of an offer.
    pub fn submitted(&mut self, status: i32) -> (r: Result<SubmitStep, AmfError>)
        requires
            old(self).wf(),
        ensures
            final(self).wf(),
            means_taken(status) ==> {
                &&& r == Ok::<SubmitStep, AmfError>(SubmitStep::Accepted)
                &&& final(self).refused() == old(self).refused()
                &&& !final(self).owned()
            },
            means_full(status) && old(self).refused() < INPUT_FULL_MAX_RETRIES ==> {
                &&& r == Ok::<SubmitStep, AmfError>(
                    SubmitStep::Retry { pause_ms: pause_after(old(self).refused()) as u64 },
                )
                &&& final(self).refused() == old(self).refused() + 1
                &&& final(self).owned() == old(self).owned()
            },
            means_full(status) && old(self).refused() == INPUT_FULL_MAX_RETRIES ==> {
                &&& r == Err::<SubmitStep, AmfError>(
                    AmfError::SubmitStuck { status, attempts: (INPUT_FULL_MAX_RETRIES + 1) as u32 },
                )
                &&& final(self).refused() == old(self).refused()
                &&& final(self).owned() == old(self).owned()
            },
            !means_taken(status) && !means_full(status) ==> {
                &&& r == Err::<SubmitStep, AmfError>(AmfError::SubmitFailed { status })
                &&& final(self).refused() == old(self).refused()
                &&& final(self).owned() == old(self).owned()
            },
            old(self).refused() <= INPUT_FULL_MAX_RETRIES,
            (final(self).refused(), final(self).owned(), r) == offer_outcome(
                old(self).refused(),
                old(self).owned(),
                status,
            ),
    {
        if status == AMF_OK || status == AMF_NEED_MORE_INPUT {
            self.owned = false;
            return Ok(SubmitStep::Accepted);
        }
        if status == AMF_INPUT_FULL || status == AMF_REPEAT {
            if self.attempt == INPUT_FULL_MAX_RETRIES {
                return Err(AmfError::SubmitStuck { status, attempts: self.attempt + 1 });
            }
            let mut pause: u64 = 0;
            if self.attempt > 0 {
                pause = self.backoff_ms;
                self.backoff_ms = if self.backoff_ms > INPUT_FULL_BACKOFF_MS_MAX / 2 {
                    INPUT_FULL_BACKOFF_MS_MAX
                } else {
                    self.backoff_ms * 2
                };
            }
            self.attempt = self.attempt + 1;
            return Ok(SubmitStep::Retry { pause_ms: pause });
        }
        Err(AmfError::SubmitFailed { status })
    }

    /// Whether the host's reference is still to be given back once the picture
    /// is done with, coded or not.
    pub fn finish(self) -> (release: bool)
        ensures
            release == self.owned(),
    {
        self.owned
    }
}

/// A full queue is not waited for without end: no pause is longer than the
/// limit, and all of them together take a quarter of a second at most.
pub proof fn backpressure_is_bounded(n: int)
    requires
        0 <= n <= INPUT_FULL_MAX_RETRIES,
    ensures
        0 <= pause_after(n) <= INPUT_FULL_BACKOFF_MS_MAX,
        0 <= total_pause(n) <= 16 * n,
    decreases n,
{
    if n > 0 {
        backpressure_is_bounded(n - 1);
    }
}

/// The pauses of the first `n` refusals together, in milliseconds.
pub open spec fn total_pause(n: int) -> int
    decreases n,
{
    if n <= 0 {
        0
    } else {
        total_pause(n - 1) + pause_after(n - 1)
    }
}

/// How a pass over the output queue ended.
#[derive(Debug, Clone, Copy, PartialEq, Eq, Structural)]
pub enum DrainEnd {
    /// There is nothing now; there may be later.
    Repeat,
    /// The stream has ended.
    Eof,
    /// The runtime wants more pictures first.
    NeedMoreInput,
}

/// What came with an answer of the output queue.
pub enum QueryAnswer {
    /// Nothing.
    NoData,
    /// An object, asked for its buffer: the query's status and whether it gave
    /// none, and what is in the buffer.
    Buffer {
        query_status: i32,
        null: bool,
        native_null: bool,
        data: Vec<u8>,
        ticks: u64,
        /// The codec's output type property, if it is set.
        output_type: Option<i64>,
    },
}

/// A time stamp in ticks as the timestamp of the picture it came from.
pub open spec fn pts_of(ticks: u64, scale: u64) -> u64 {
    if scale == 0 {
        ticks
    } else {
        ticks / scale
    }
}

/// What a session's bookkeeping amounts to.
#[verifier::ext_equal]
pub struct AmfState {
    /// Packets collected, oldest first.
    pub packets: Seq<PacketView>,
    /// How many of them were handed out.
    pub taken: int,
    pub flushed: bool,
    /// Pictures coded.
    pub coded: int,
    pub force_key: bool,
    pub ring: int,
}

impl AmfState {
    /// Counts are in range.
    pub open spec fn valid(self) -> bool {
        &&& 0 <= self.taken <= self.packets.len()
        &&& 0 <= self.coded <= u32::MAX
        &&& 0 <= self.ring < RING_SIZE
    }

    /// Whether the next picture is made a keyframe: one was asked for, or it
    /// opens a group of pictures.
    pub open spec fn key_due(self, c: EncoderConfig) -> bool {
        self.force_key || self.coded % (properties::interval_of(c.keyframe_interval) as int) == 0
    }

    /// A picture was coded.
    pub open spec fn after_frame(self) -> AmfState {
        AmfState {
            coded: self.coded + 1,
            force_key: false,
            ring: (self.ring + 1) % (RING_SIZE as int),
            ..self
        }
    }

    /// The next packet was asked for.
    pub open spec fn after_receive(self) -> AmfState {
        if self.taken < self.packets.len() {
            AmfState { taken: self.taken + 1, ..self }
        } else {
            self
        }
    }

    /// The packet that is handed out next, if one is ready.
    pub open spec fn next_packet(self) -> Option<PacketView> {
        if self.taken < self.packets.len() {
            Some(self.packets[self.taken])
        } else {
            None
        }
    }
}

/// What an answer of the output queue leads to: the bookkeeping after it, and
/// how the pass ended, if it did.
pub open spec fn query_outcome(s: AmfState, status: i32, a: QueryAnswer, scale: u64) -> (
    AmfState,
    Result<Option<DrainEnd>, AmfError>,
) {
    if status == AMF_OK {
        match unreadable(a) {
            Some(e) => (s, Err(e)),
            None => (
                match answered(a, scale) {
                    Some(p) => AmfState { packets: s.packets.push(p), ..s },
                    None => s,
                },
                Ok(None),
            ),
        }
    } else if status == AMF_REPEAT {
        (s, Ok(Some(DrainEnd::Repeat)))
    } else if status == AMF_EOF {
        (s, Ok(Some(DrainEnd::Eof)))
    } else if status == AMF_NEED_MORE_INPUT {
        (s, Ok(Some(DrainEnd::NeedMoreInput)))
    } else {
        (s, Err(AmfError::QueryOutput { status }))
    }
}

/// What to set on the surface of the next picture, and its time stamp.
pub open spec fn plan_of(s: AmfState, c: EncoderConfig, pts: u64) -> (
    Seq<(Seq<char>, AmfVariant)>,
    int,
) {
    (
        if s.key_due(c) {
            properties::key_properties(c.codec)
        } else {
            Seq::empty()
        },
        pts * rate::ticks_per_frame(c.frame_rate),
    )
}

/// What to do with a picture's surface.
#[derive(Debug)]
pub struct FramePlan {
    /// Set these on the surface.
    pub properties: PropertyList,
    /// The surface's time stamp.
    pub ticks: u64,
}

/// An AMF session as the host drives it.
pub struct AmfEncoder {
    config: EncoderConfig,
    pts_timescale: u64,
    encoded_packets: Vec<EncodedPacket>,
    packet_cursor: usize,
    flushed: bool,
    frame_counter: u32,
    force_idr_pending: bool,
    ring_idx: usize,
}

/// What an answer with status `AMF_OK` adds to the packets.
pub open spec fn answered(a: QueryAnswer, scale: u64) -> Option<PacketView> {
    match a {
        QueryAnswer::NoData => None,
        QueryAnswer::Buffer { native_null, data, ticks, output_type, .. } => if native_null
            || data@.len() == 0 {
            None
        } else {
            Some(
                PacketView {
                    bytes: data@,
                    pts: pts_of(ticks, scale),
                    is_keyframe: output_type == Some(0i64),
                },
            )
        },
    }
}

/// Whether an answer with status `AMF_OK` could not be read, and why.
pub open spec fn unreadable(a: QueryAnswer) -> Option<AmfError> {
    match a {
        QueryAnswer::NoData => None,
        QueryAnswer::Buffer { query_status, null, .. } => if query_status != AMF_OK || null {
            Some(AmfError::QueryBuffer { status: query_status })
        } else {
            None
        },
    }
}

impl AmfEncoder {
    /// The session's bookkeeping.
    pub closed spec fn state(self) -> AmfState {
        AmfState {
            packets: packet::packet_views(self.encoded_packets@),
            taken: self.packet_cursor as int,
            flushed: self.flushed,
            coded: self.frame_counter as int,
            force_key: self.force_idr_pending,
            ring: self.ring_idx as int,
        }
    }

    /// The configuration the session was opened with.
    pub closed spec fn configuration(self) -> EncoderConfig {
        self.config
    }

    /// Ticks of one frame.
    pub open spec fn scale(self) -> u64 {
        rate::ticks_per_frame(self.configuration().frame_rate)
    }

    /// The session is in order.
    pub closed spec fn wf(self) -> bool {
        &&& self.pts_timescale == rate::ticks_per_frame(self.config.frame_rate)
        &&& self.state().valid()
    }

    /// Bookkeeping for a session that was just opened.
    pub fn new(config: EncoderConfig) -> (e: Self)
        requires
            properties::surface_format(config.pixel_format) is Some,
            config.codec != VideoCodec::Av1 ==> properties::h26x_format_verdict(
                config.codec,
                config.pixel_format,
            ) is None,
        ensures
            e.wf(),
            e.configuration() == config,
            e.state() == (AmfState {
                packets: Seq::empty(),
                taken: 0,
                flushed: false,
                coded: 0,
                force_key: false,
                ring: 0,
            }),
    {
        let e: AmfEncoder = AmfEncoder {
            config,
            pts_timescale: pts_timescale(config.frame_rate),
            encoded_packets: Vec::new(),
            packet_cursor: 0,
            flushed: false,
            frame_counter: 0,
            force_idr_pending: false,
            ring_idx: 0,
        };
        assert(e.state().packets =~= Seq::empty());
        e
    }

    /// Start on a picture: refuse a foreign format, else say what to do with
    /// its surface.
    pub fn begin_frame(&self, f: &VideoFrame) -> (r: Result<FramePlan, AmfError>)
        requires
            self.wf(),
            f.format == self.configuration().pixel_format ==> f.pts * self.scale() <= u64::MAX,
        ensures
            f.format != self.configuration().pixel_format ==> (r matches Err(e) && e
                == (AmfError::FormatMismatch {
                configured: self.configuration().pixel_format,
                got: f.format,
            })),
            f.format == self.configuration().pixel_format ==> (r matches Ok(p) && p.ticks == f.pts
                * self.scale() && p.properties@ == (if self.state().key_due(self.configuration()) {
                properties::key_properties(self.configuration().codec)
            } else {
                Seq::empty()
            })),
            r matches Ok(p) ==> (p.properties@, p.ticks as int) == plan_of(
                self.state(),
                self.configuration(),
                f.pts,
            ),
    {
        if f.format != self.config.pixel_format {
            return Err(
                AmfError::FormatMismatch { configured: self.config.pixel_format, got: f.format },
            );
        }
        let interval: u32 = effective_keyframe_interval(self.config.keyframe_interval);
        let key: bool = self.force_idr_pending || self.frame_counter % interval == 0;
        let properties: PropertyList = if key {
            mark_key_frame(self.config.codec)
        } else {
            PropertyList::new()
        };
        Ok(FramePlan { properties, ticks: f.pts * self.pts_timescale })
    }

    /// Take one answer of the output queue: `None` means to ask again.
    pub fn queried(&mut self, status: i32, a: &QueryAnswer) -> (r: Result<
        Option<DrainEnd>,
        AmfError,
    >)
        requires
            old(self).wf(),
        ensures
            final(self).wf(),
            final(self).configuration() == old(self).configuration(),
            status == AMF_OK ==> match unreadable(*a) {
                Some(e) => {
                    &&& r == Err::<Option<DrainEnd>, AmfError>(e)
                    &&& final(self).state() == old(self).state()
                },
                None => {
                    &&& r == Ok::<Option<DrainEnd>, AmfError>(None)
                    &&& final(self).state() == (match answered(*a, old(self).scale()) {
                        Some(p) => AmfState {
                            packets: old(self).state().packets.push(p),
                            ..old(self).state()
                        },
                        None => old(self).state(),
                    })
                },
            },
            status == AMF_REPEAT ==> r == Ok::<Option<DrainEnd>, AmfError>(
                Some(DrainEnd::Repeat),
            ),
            status == AMF_EOF ==> r == Ok::<Option<DrainEnd>, AmfError>(Some(DrainEnd::Eof)),
            status == AMF_NEED_MORE_INPUT ==> r == Ok::<Option<DrainEnd>, AmfError>(
                Some(DrainEnd::NeedMoreInput),
            ),
            status != AMF_OK && status != AMF_REPEAT && status != AMF_EOF && status
                != AMF_NEED_MORE_INPUT ==> r == Err::<Option<DrainEnd>, AmfError>(
                AmfError::QueryOutput { status },
            ),
            status != AMF_OK ==> final(self).state() == old(self).state(),
            (final(self).state(), r) == query_outcome(
                old(self).state(),
                status,
                *a,
                old(self).scale(),
            ),
    {
        if status == AMF_REPEAT {
            return Ok(Some(DrainEnd::Repeat));
        }
        if status == AMF_EOF {
            return Ok(Some(DrainEnd::Eof));
        }
        if status == AMF_NEED_MORE_INPUT {
            return Ok(Some(DrainEnd::NeedMoreInput));
        }
        if status != AMF_OK {
            return Err(AmfError::QueryOutput { status });
        }
        match a {
            QueryAnswer::NoData => Ok(None),
            QueryAnswer::Buffer { query_status, null, native_null, data, ticks, output_type } => {
                if *query_status != AMF_OK || *null {
                    return Err(AmfError::QueryBuffer { status: *query_status });
                }
                if *native_null || data.len() == 0 {
                    return Ok(None);
                }
                let pts: u64 = if self.pts_timescale == 0 {
                    *ticks
                } else {
                    *ticks / self.pts_timescale
                };
                let key: bool = match output_type {
                    Some(v) => is_keyframe(*v),
                    None => false,
                };
                let p: EncodedPacket = packet_of(data.as_slice(), pts, key);
                let ghost before = self.encoded_packets@;
                self.encoded_packets.push(p);
                assert(packet::packet_views(self.encoded_packets@) =~= packet::packet_views(
                    before,
                ).push(p@));
                assert(self.state() =~= (AmfState {
                    packets: old(self).state().packets.push(p@),
                    ..old(self).state()
                }));
                Ok(None)
            },
        }
    }

    /// A picture was coded.
    pub fn frame_done(&mut self)
        requires
            old(self).wf(),
            old(self).state().coded < u32::MAX,
        ensures
            final(self).wf(),
            final(self).configuration() == old(self).configuration(),
            final(self).state() == (AmfState {
                coded: old(self).state().coded + 1,
                force_key: false,
                ring: (old(self).state().ring + 1) % (RING_SIZE as int),
                ..old(self).state()
            }),
            final(self).state() == old(self).state().after_frame(),
    {
        self.force_idr_pending = false;
        self.frame_counter = self.frame_counter + 1;
        self.ring_idx = (self.ring_idx + 1) % RING_SIZE;
        assert(self.state() =~= (AmfState {
            coded: old(self).state().coded + 1,
            force_key: false,
            ring: (old(self).state().ring + 1) % (RING_SIZE as int),
            ..old(self).state()
        }));
    }

    /// Ask for the next picture to be a keyframe.
    pub fn force_keyframe_next(&mut self)
        requires
            old(self).wf(),
        ensures
            final(self).wf(),
            final(self).configuration() == old(self).configuration(),
            final(self).state() == (AmfState { force_key: true, ..old(self).state() }),
    {
        self.force_idr_pending = true;
        assert(self.state() =~= (AmfState { force_key: true, ..old(self).state() }));
    }

    /// Whether the stream is still to be ended.
    pub fn needs_flush(&self) -> (b: bool)
        ensures
            b == !self.state().flushed,
    {
        !self.flushed
    }

    /// Hold the answer to the request that ends the stream.
    pub fn drain_requested(status: i32) -> (r: Result<(), AmfError>)
        ensures
            r == (if status == AMF_OK || status == AMF_REPEAT {
                Ok::<(), AmfError>(())
            } else {
                Err::<(), AmfError>(AmfError::Drain { status })
            }),
    {
        if status == AMF_OK || status == AMF_REPEAT {
            Ok(())
        } else {
            Err(AmfError::Drain { status })
        }
    }

    /// Whether the output queue is empty for good: only the end of the stream
    /// says so. Any other end of a pass means to pass over it again.
    pub fn flush_complete(end: DrainEnd) -> (b: bool)
        ensures
            b == (end == DrainEnd::Eof),
    {
        match end {
            DrainEnd::Eof => true,
            _ => false,
        }
    }

    /// The stream has ended.
    pub fn flush_end(&mut self)
        requires
            old(self).wf(),
        ensures
            final(self).wf(),
            final(self).configuration() == old(self).configuration(),
            final(self).state() == (AmfState { flushed: true, ..old(self).state() }),
    {
        self.flushed = true;
        assert(self.state() =~= (AmfState { flushed: true, ..old(self).state() }));
    }

    /// The next packet, if one is ready.
    pub fn receive_packet(&mut self) -> (p: Option<EncodedPacket>)
        requires
            old(self).wf(),
        ensures
            final(self).wf(),
            final(self).configuration() == old(self).configuration(),
            old(self).state().taken < old(self).state().packets.len() ==> {
                &&& p matches Some(pkt)
                &&& pkt@ == old(self).state().packets[old(self).state().taken]
                &&& final(self).state() == (AmfState {
                    taken: old(self).state().taken + 1,
                    ..old(self).state()
                })
            },
            old(self).state().taken >= old(self).state().packets.len() ==> {
                &&& p is None
                &&& final(self).state() == old(self).state()
            },
            final(self).state() == old(self).state().after_receive(),
            match old(self).state().next_packet() {
                Some(v) => p matches Some(pkt) && pkt@ == v,
                None => p is None,
            },
    {
        if self.packet_cursor < self.encoded_packets.len() {
            let pkt: EncodedPacket = self.encoded_packets[self.packet_cursor].clone();
            self.packet_cursor = self.packet_cursor + 1;
            assert(self.state() =~= (AmfState {
                taken: old(self).state().taken + 1,
                ..old(self).state()
            }));
            Some(pkt)
        } else {
            None
        }
    }
}

/// A packet carries its picture's own timestamp: what was scaled to ticks on
/// the way in is scaled back on the way out.
pub proof fn packets_carry_their_pictures_timestamp(pts: u64, scale: u64)
    requires
        scale > 0,
        pts * scale <= u64::MAX,
    ensures
        pts_of((pts * scale) as u64, scale) == pts,
{
    rate::ticks_divide_back(pts as int, scale as int);
}

/// Keyframes are where the interval puts them: the first picture, and every
/// one that many later, whatever else was asked for.
pub proof fn groups_open_on_a_keyframe(s: AmfState, c: EncoderConfig, n: int)
    requires
        0 <= n,
        s.coded == n * properties::interval_of(c.keyframe_interval),
    ensures
        s.key_due(c),
{
    vstd::arithmetic::div_mod::lemma_mod_multiples_basic(
        n,
        properties::interval_of(c.keyframe_interval) as int,
    );
}

/// A keyframe that was asked for is asked of one picture: once it is coded,
/// the next one is a keyframe only where the interval puts it.
pub proof fn a_request_is_honoured_once(s: AmfState, c: EncoderConfig)
    requires
        s.valid(),
        s.force_key,
    ensures
        s.key_due(c),
        ({
            let t = AmfState { coded: s.coded + 1, force_key: false, ..s };
            t.key_due(c) <==> (s.coded + 1) % (properties::interval_of(
                c.keyframe_interval,
            ) as int) == 0
        }),
{
}

/// The luma sample `(x, y)` of a picture is the one that the encoder reads from
/// the luma plane; at ten bits it is read times 64.
pub proof fn luma_reads_back(
    c: EncoderConfig,
    before: Seq<u8>,
    pitch: int,
    src: Seq<u8>,
    x: int,
    y: int,
)
    requires
        c.pixel_format == PixelFormat::Yuv420p || c.pixel_format == PixelFormat::Yuv420p10le,
        planes::block_fits(
            before.len(),
            0,
            pitch,
            upload::sample_bytes(c.pixel_format.is_ten_bit()) * c.width,
            c.height as int,
        ),
        0 <= x < c.width,
        0 <= y < c.height,
    ensures
        ({
            let after = luma_written(c, before, pitch, src);
            let i = y * c.width + x;
            &&& c.pixel_format == PixelFormat::Yuv420p ==> after[y * pitch + x] == src[i]
            &&& c.pixel_format == PixelFormat::Yuv420p10le ==> after[y * pitch + 2 * x] + 256
                * after[y * pitch + 2 * x + 1] == (src[2 * i] + 256 * src[2 * i + 1]) % 1024 * 64
        }),
{
    let w = c.width as int;
    let h = c.height as int;
    if c.pixel_format.is_ten_bit() {
        planes::lifted_samples_read_back(before, 0, pitch, src, 0, w, h, x, y);
    } else {
        planes::copied_samples_read_back(before, 0, pitch, src, 0, w, h, x, y);
    }
}

/// The pair `(x, y)` that the encoder reads from the chroma plane is the U
/// sample `(x, y)` of the picture and then the V sample, U being the first of
/// its chroma planes and V the second; an odd edge keeps its last sample, and
/// at ten bits both are read times 64.
pub proof fn chroma_reads_back(
    c: EncoderConfig,
    before: Seq<u8>,
    pitch: int,
    src: Seq<u8>,
    x: int,
    y: int,
)
    requires
        c.pixel_format == PixelFormat::Yuv420p || c.pixel_format == PixelFormat::Yuv420p10le,
        planes::block_fits(
            before.len(),
            0,
            pitch,
            2 * upload::sample_bytes(c.pixel_format.is_ten_bit()) * ((c.width + 1) / 2),
            (c.height + 1) / 2,
        ),
        0 <= x < (c.width + 1) / 2,
        0 <= y < (c.height + 1) / 2,
    ensures
        ({
            let after = chroma_written(c, before, pitch, src);
            let luma = c.width * c.height;
            let cw = (c.width + 1) / 2;
            let plane = cw * ((c.height + 1) / 2);
            let i = y * cw + x;
            &&& c.pixel_format == PixelFormat::Yuv420p ==> {
                &&& after[y * pitch + 2 * x] == src[luma + i]
                &&& after[y * pitch + 2 * x + 1] == src[luma + plane + i]
            }
            &&& c.pixel_format == PixelFormat::Yuv420p10le ==> {
                let at = y * pitch + 4 * x;
                let u = 2 * luma + 2 * i;
                let v = 2 * luma + 2 * plane + 2 * i;
                &&& after[at] + 256 * after[at + 1] == (src[u] + 256 * src[u + 1]) % 1024 * 64
                &&& after[at + 2] + 256 * after[at + 3] == (src[v] + 256 * src[v + 1]) % 1024 * 64
            }
        }),
{
    let w = c.width as int;
    let h = c.height as int;
    let cw = (w + 1) / 2;
    let ch = (h + 1) / 2;
    if c.pixel_format.is_ten_bit() {
        assert(2 * upload::sample_bytes(true) * cw == 4 * cw);
        planes::interleaved_lifted_samples_read_back(
            before,
            0,
            pitch,
            src,
            2 * (w * h),
            2 * (w * h) + 2 * (cw * ch),
            cw,
            ch,
            x,
            y,
        );
    } else {
        assert(2 * upload::sample_bytes(false) * cw == 2 * cw);
        planes::interleaved_samples_read_back(
            before,
            0,
            pitch,
            src,
            w * h,
            w * h + cw * ch,
            cw,
            ch,
            x,
            y,
        );
    }
}

/// The bytes between the rows of a surface keep what they held.
pub proof fn surface_gaps_stay(
    c: EncoderConfig,
    before: Seq<u8>,
    pitch: int,
    src: Seq<u8>,
    i: int,
)
    requires
        0 <= i < before.len(),
        0 < pitch,
    ensures
        ({
            let b = if c.pixel_format == PixelFormat::Yuv420p10le {
                2int
            } else {
                1int
            };
            let luma = luma_written(c, before, pitch, src);
            let chroma = chroma_written(c, before, pitch, src);
            &&& luma.len() == before.len()
            &&& chroma.len() == before.len()
            &&& i % pitch >= b * c.width || i / pitch >= c.height ==> luma[i] == before[i]
            &&& i % pitch >= 2 * b * ((c.width + 1) / 2) || i / pitch >= (c.height + 1) / 2
                ==> chroma[i] == before[i]
        }),
{
}

/// A picture has as many bytes as luma samples and two chroma planes of half
/// the size, odd edges rounded up; at ten bits twice as many.
pub proof fn pictures_are_counted_in_samples(c: EncoderConfig)
    ensures
        c.pixel_format != PixelFormat::Yuv420p10le ==> needed_bytes(c) == c.width * c.height + 2
            * (((c.width + 1) / 2) * ((c.height + 1) / 2)),
        c.pixel_format == PixelFormat::Yuv420p10le ==> needed_bytes(c) == 2 * (c.width * c.height)
            + 4 * (((c.width + 1) / 2) * ((c.height + 1) / 2)),
{
}

/// A refused surface is first offered again at once, then after one
/// millisecond, and each pause after that is twice the last until sixteen.
pub proof fn pauses_double_up_to_sixteen(n: int)
    requires
        1 <= n,
    ensures
        pause_after(0) == 0,
        pause_after(1) == 1,
        1 <= pause_after(n) <= 16,
        pause_after(n) <= 8 ==> pause_after(n + 1) == 2 * pause_after(n),
        pause_after(n) > 8 ==> pause_after(n + 1) == 16,
    decreases n,
{
    if n > 1 {
        pauses_double_up_to_sixteen(n - 1);
    }
    reveal_with_fuel(pause_after, 3);
}

/// A status says that the surface was taken, that the queue is full, or that
/// the offer failed, and never two of these. A runtime that asks for more
/// pictures has taken the one it was given.
pub proof fn a_status_means_one_thing(status: i32)
    ensures
        !(means_taken(status) && means_full(status)),
        means_taken(status) <==> status == AMF_OK || status == AMF_NEED_MORE_INPUT,
        means_full(status) <==> status == AMF_INPUT_FULL || status == AMF_REPEAT,
{
}

/// An answer with a buffer that is not empty becomes a packet: the buffer's
/// bytes, the time stamp divided by the ticks of a frame, and a keyframe
/// exactly where the output type is set and zero. Any other answer becomes
/// none.
pub proof fn answers_become_packets(a: QueryAnswer, scale: u64)
    requires
        scale > 0,
    ensures
        a is NoData ==> answered(a, scale) is None && unreadable(a) is None,
        a matches QueryAnswer::Buffer {
            query_status,
            null,
            native_null,
            data,
            ticks,
            output_type,
        } ==> {
            &&& answered(a, scale) is Some <==> !native_null && data@.len() > 0
            &&& answered(a, scale) matches Some(p) ==> {
                &&& p.bytes == data@
                &&& p.pts * scale <= ticks < (p.pts + 1) * scale
                &&& p.is_keyframe <==> output_type is Some && output_type->0 == 0
            }
            &&& unreadable(a) is Some <==> query_status != AMF_OK || null
            &&& unreadable(a) matches Some(e) ==> e == (AmfError::QueryBuffer {
                status: query_status,
            })
        },
{
    if answered(a, scale) is Some {
        let ticks = a->ticks as int;
        let s = scale as int;
        vstd::arithmetic::div_mod::lemma_fundamental_div_mod(ticks, s);
        vstd::arithmetic::div_mod::lemma_mod_bound(ticks, s);
        let q = ticks / s;
        assert(s * q == q * s) by (nonlinear_arith);
        assert((q + 1) * s == q * s + s) by (nonlinear_arith);
    }
}

/// Without a request a picture is made a keyframe only where a group of
/// pictures opens: the first picture, and every one a whole number of intervals
/// later, which are 240 pictures where the caller names none.
pub proof fn keyframes_come_only_where_they_are_due(s: AmfState, c: EncoderConfig)
    requires
        s.valid(),
        !s.force_key,
    ensures
        c.keyframe_interval == 0 ==> (s.key_due(c) <==> s.coded % 240 == 0),
        c.keyframe_interval > 0 ==> (s.key_due(c) <==> s.coded % (c.keyframe_interval as int) == 0),
{
}

/// A surface that the runtime took is the runtime's. One that it has no room for
/// is offered again, at most sixteen times, and stays the host's; any other
/// status gives it up, and it stays the host's to give back.
pub proof fn every_offer_has_its_answer(refused: int, owned: bool, status: i32)
    requires
        0 <= refused <= 16,
    ensures
        ({
            let out = offer_outcome(refused, owned, status);
            match out.2 {
                Ok(SubmitStep::Accepted) => {
                    &&& status == 0 || status == 44
                    &&& out.0 == refused && !out.1
                },
                Ok(SubmitStep::Retry { pause_ms }) => {
                    &&& status == 25 || status == 24
                    &&& refused < 16 && out.0 == refused + 1 && out.1 == owned
                    &&& pause_ms <= 16
                    &&& refused == 0 ==> pause_ms == 0
                    &&& refused == 1 ==> pause_ms == 1
                },
                Err(AmfError::SubmitStuck { status: e, attempts }) => {
                    &&& e == status && (status == 25 || status == 24)
                    &&& refused == 16 && attempts == 17
                    &&& out.0 == refused && out.1 == owned
                },
                Err(AmfError::SubmitFailed { status: e }) => {
                    &&& e == status
                    &&& status != 0 && status != 44 && status != 25 && status != 24
                    &&& out.0 == refused && out.1 == owned
                },
                Err(_) => false,
            }
        }),
{
    backpressure_is_bounded(refused);
    reveal_with_fuel(pause_after, 3);
}

/// The output queue is asked again after every answer that it gives, with the
/// packet queued where there is one; it is left alone where it has nothing, has
/// ended or wants pictures first, and any other status is an error. Only a
/// packet changes anything.
pub proof fn every_answer_of_the_queue_has_its_meaning(
    s: AmfState,
    status: i32,
    a: QueryAnswer,
    scale: u64,
)
    ensures
        ({
            let out = query_outcome(s, status, a, scale);
            &&& match out.1 {
                Ok(None) => {
                    &&& status == 0 && unreadable(a) is None
                    &&& answered(a, scale) is None ==> out.0 == s
                    &&& answered(a, scale) matches Some(p) ==> {
                        &&& out.0.packets == s.packets.push(p)
                        &&& out.0.taken == s.taken && out.0.coded == s.coded
                        &&& out.0.force_key == s.force_key && out.0.flushed == s.flushed
                    }
                },
                Ok(Some(DrainEnd::Repeat)) => status == 24,
                Ok(Some(DrainEnd::Eof)) => status == 23,
                Ok(Some(DrainEnd::NeedMoreInput)) => status == 44,
                Err(AmfError::QueryOutput { status: e }) => {
                    &&& e == status
                    &&& status != 0 && status != 24 && status != 23 && status != 44
                },
                Err(e) => status == 0 && unreadable(a) == Some(e),
            }
            &&& out.1 != Ok::<Option<DrainEnd>, AmfError>(None) ==> out.0 == s
        }),
{
}

/// A picture's surface carries its time in ticks, and is marked as a keyframe
/// with all that the codec needs exactly where one is due.
pub proof fn surfaces_are_marked_where_a_keyframe_is_due(
    s: AmfState,
    c: EncoderConfig,
    pts: u64,
)
    ensures
        plan_of(s, c, pts).1 == pts * rate::ticks_per_frame(c.frame_rate),
        s.force_key ==> plan_of(s, c, pts).0 == properties::key_properties(c.codec),
        s.coded == 0 ==> plan_of(s, c, pts).0 == properties::key_properties(c.codec),
        !s.key_due(c) ==> plan_of(s, c, pts).0.len() == 0,
{
}

/// Every coded picture is counted once and ends the request for a keyframe; the
/// ring of four comes round.
pub proof fn coded_pictures_are_counted(s: AmfState)
    requires
        s.valid(),
    ensures
        s.after_frame().coded == s.coded + 1,
        !s.after_frame().force_key,
        s.ring < 3 ==> s.after_frame().ring == s.ring + 1,
        s.ring == 3 ==> s.after_frame().ring == 0,
        s.after_frame().packets == s.packets,
        s.after_frame().taken == s.taken,
        s.after_frame().flushed == s.flushed,
{
}

/// Packets come out in the order they were queued, each once.
pub proof fn packets_come_out_in_order(s: AmfState, p: PacketView)
    requires
        0 <= s.taken <= s.packets.len(),
    ensures
        s.next_packet() is Some <==> s.taken < s.packets.len(),
        s.next_packet() is Some ==> {
            &&& s.next_packet() == Some(s.packets[s.taken])
            &&& s.after_receive().taken == s.taken + 1
            &&& s.after_receive().packets == s.packets
            &&& (AmfState { packets: s.packets.push(p), ..s }).next_packet() == s.next_packet()
        },
        s.next_packet() is None ==> {
            &&& s.after_receive() == s
            &&& (AmfState { packets: s.packets.push(p), ..s }).next_packet() == Some(p)
        },
{
}

/// A picture is written exactly where its bytes are all there and both planes
/// have memory. A refusal says which of these fails first: the bytes, the luma
/// plane, the chroma plane.
pub proof fn which_surfaces_take_a_picture(c: EncoderConfig, y: Plane, uv: Plane, f: VideoFrame)
    requires
        c.pixel_format == PixelFormat::Yuv420p || c.pixel_format == PixelFormat::Yuv420p10le,
    ensures
        ({
            let samples = c.width * c.height + 2 * (((c.width + 1) / 2) * ((c.height + 1) / 2));
            let need = if c.pixel_format == PixelFormat::Yuv420p10le {
                2 * samples
            } else {
                samples
            };
            match upload_verdict(c, y, uv, f) {
                None => f.bytes().len() >= need && !y.null && !uv.null,
                Some(AmfError::TooSmall { width, height, ten_bit, need: n, have }) => {
                    &&& f.bytes().len() < need
                    &&& width == c.width && height == c.height
                    &&& ten_bit <==> c.pixel_format == PixelFormat::Yuv420p10le
                    &&& n == need as u128 && have == f.bytes().len() as usize
                },
                Some(AmfError::NullPlane { chroma, ten_bit }) => {
                    &&& f.bytes().len() >= need
                    &&& ten_bit <==> c.pixel_format == PixelFormat::Yuv420p10le
                    &&& !chroma <==> y.null
                    &&& chroma ==> uv.null
                },
                Some(_) => false,
            }
        }),
{
}

} // verus!
