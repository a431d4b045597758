//! Coding with a QSV session.
//!
//! A session owns a pool of input surfaces. The runtime may hold one after a
//! submission, either because its packet is still due or because it predicts
//! from it; a picture goes into a surface only when neither is so. Where no
//! surface is free, the packet that has been due longest is collected first.
//!
//! The host performs what the methods ask for and reports what the runtime
//! answered:
//!
//! 1. [`QsvEncoder::begin_frame`] names the surface to write into or the sync
//!    point to wait for, whose outcome goes to [`QsvEncoder::synced`].
//! 2. [`QsvEncoder::upload`] writes the picture and says what to submit.
//! 3. [`QsvEncoder::submitted`] takes the status; it may ask to submit again.
//! 4. [`QsvEncoder::finish_frame`] counts the picture, whatever came of it.

use std::collections::VecDeque;
use vstd::prelude::*;

use super::api::{
    EncodeCtrl, MAX_BITSTREAM_BYTES, MFX_ERR_MORE_DATA, MFX_ERR_NONE, MFX_ERR_NOT_ENOUGH_BUFFER,
    MFX_FRAMETYPE_I, MFX_FRAMETYPE_IDR, MFX_FRAMETYPE_REF, MFX_WRN_DEVICE_BUSY, POOL_SIZE,
};
use super::params::{self, neutral_surface, surface_shape, SurfaceShape};
use crate::config::EncoderConfig;
use crate::frame::{self, PixelFormat, VideoFrame};
use crate::packet::{self, packet_of, EncodedPacket, PacketView};
use crate::planes;
use crate::rate::{self, pts_timescale};
use crate::text::{self, push_dec, push_dec_int};
use crate::upload::{self, packed_bytes};

verus! {

/// Why coding failed.
#[derive(Debug, Clone, Copy, PartialEq, Eq, Structural)]
pub enum QsvError {
    /// The picture is not in the session's format.
    FormatMismatch { configured: PixelFormat, got: PixelFormat },
    /// The picture's buffer is shorter than its size calls for.
    TooSmall { width: u32, height: u32, format: PixelFormat, need: u128, have: usize },
    /// No surface is free and no packet is due.
    NothingInFlight,
    /// The runtime reported a failed submission when it was waited for.
    SyncFailed { status: i32 },
    /// One coded frame is larger than the output buffer may become.
    FrameTooLarge { width: u32, height: u32 },
    /// The runtime refused a picture.
    EncodeFailed { status: i32 },
    /// The runtime refused to flush.
    FlushFailed { status: i32 },
}

impl QsvError {
    /// The error in words.
    pub open spec fn text(self) -> Seq<char> {
        match self {
            QsvError::FormatMismatch { configured, got } => "QSV session was initialized with "@
                + configured.label() + " but frame is "@ + got.label()
                + " — pipeline must reinit the encoder if pixel format changes"@,
            QsvError::TooSmall { width, height, format, need, have } =>
                "frame data too small for "@ + text::dec(width as nat) + "x"@ + text::dec(
                height as nat,
            ) + " "@ + format.label() + ": need "@ + text::dec(need as nat) + " bytes, got "@
                + text::dec(have as nat),
            QsvError::NothingInFlight => "ring full but inflight queue empty"@,
            QsvError::SyncFailed { status } => "MFXVideoCORE_SyncOperation failed: "@
                + text::dec_int(status as int),
            QsvError::FrameTooLarge { width, height } =>
                "MFXVideoENCODE_EncodeFrameAsync: one frame exceeds the 64 MiB bitstream ceiling at "@
                + text::dec(width as nat) + "x"@ + text::dec(height as nat),
            QsvError::EncodeFailed { status } => "MFXVideoENCODE_EncodeFrameAsync failed: "@
                + text::dec_int(status as int),
            QsvError::FlushFailed { status } => "MFXVideoENCODE_EncodeFrameAsync(flush) failed: "@
                + text::dec_int(status as int),
        }
    }

    /// The error in words.
    pub fn message(&self) -> (s: String)
        ensures
            s@ == self.text(),
    {
        let mut out: String = String::new();
        match self {
            QsvError::FormatMismatch { configured, got } => {
                out.append("QSV session was initialized with ");
                out.append(configured.name());
                out.append(" but frame is ");
                out.append(got.name());
                out.append(" — pipeline must reinit the encoder if pixel format changes");
            },
            QsvError::TooSmall { width, height, format, need, have } => {
                out.append("frame data too small for ");
                push_dec(&mut out, *width as u128);
                out.append("x");
                push_dec(&mut out, *height as u128);
                out.append(" ");
                out.append(format.name());
                out.append(": need ");
                push_dec(&mut out, *need);
                out.append(" bytes, got ");
                push_dec(&mut out, *have as u128);
            },
            QsvError::NothingInFlight => {
                out.append("ring full but inflight queue empty");
            },
            QsvError::SyncFailed { status } => {
                out.append("MFXVideoCORE_SyncOperation failed: ");
                push_dec_int(&mut out, *status as i64);
            },
            QsvError::FrameTooLarge { width, height } => {
                out.append(
                    "MFXVideoENCODE_EncodeFrameAsync: one frame exceeds the 64 MiB bitstream ceiling at ",
                );
                push_dec(&mut out, *width as u128);
                out.append("x");
                push_dec(&mut out, *height as u128);
            },
            QsvError::EncodeFailed { status } => {
                out.append("MFXVideoENCODE_EncodeFrameAsync failed: ");
                push_dec_int(&mut out, *status as i64);
            },
            QsvError::FlushFailed { status } => {
                out.append("MFXVideoENCODE_EncodeFrameAsync(flush) failed: ");
                push_dec_int(&mut out, *status as i64);
            },
        }
        assert(out@ =~= self.text());
        out
    }
}

/// What the runtime left in an output buffer once a sync point was reached.
pub struct SyncAnswer {
    pub status: i32,
    /// The bytes written, none where nothing was.
    pub data: Vec<u8>,
    pub frame_type: u16,
    pub time_stamp: u64,
    /// Whether the bytes themselves open with a key frame. The AV1 runtime
    /// leaves the frame type at zero, and then only the bytes know.
    pub keyframe_in_bitstream: bool,
}

/// Whether a frame type marks a picture that a player can start on.
pub open spec fn marks_keyframe(frame_type: u16) -> bool {
    frame_type & (MFX_FRAMETYPE_I | MFX_FRAMETYPE_IDR) != 0
}

/// The packet an answer holds.
pub open spec fn answered_packet(a: SyncAnswer) -> PacketView {
    PacketView {
        bytes: a.data@,
        pts: a.time_stamp,
        is_keyframe: marks_keyframe(a.frame_type) || a.keyframe_in_bitstream,
    }
}

/// A frame that is forced to be an IDR is reported as one: of the three flags
/// it is submitted with, the two that matter are looked at.
pub proof fn forced_frames_read_as_keyframes()
    ensures
        marks_keyframe(MFX_FRAMETYPE_I | MFX_FRAMETYPE_IDR | MFX_FRAMETYPE_REF),
        marks_keyframe(MFX_FRAMETYPE_I),
        marks_keyframe(MFX_FRAMETYPE_IDR),
        !marks_keyframe(MFX_FRAMETYPE_REF),
        !marks_keyframe(0),
{
    assert((0x0001u16 | 0x8000u16 | 0x0040u16) & (0x0001u16 | 0x8000u16) != 0) by (bit_vector);
    assert(0x0001u16 & (0x0001u16 | 0x8000u16) != 0) by (bit_vector);
    assert(0x8000u16 & (0x0001u16 | 0x8000u16) != 0) by (bit_vector);
    assert(0x0040u16 & (0x0001u16 | 0x8000u16) == 0) by (bit_vector);
    assert(0u16 & (0x0001u16 | 0x8000u16) == 0) by (bit_vector);
}

/// A sync point that is due, and the surface it was submitted on.
#[derive(Debug, Clone, Copy, PartialEq, Eq, Structural)]
pub struct Due {
    pub slot: usize,
    pub sync: u64,
}

/// What the host does before it can write a picture.
#[derive(Debug, Clone, Copy, PartialEq, Eq, Structural)]
pub enum PoolStep {
    /// Wait for this sync point, report the outcome to
    /// [`QsvEncoder::synced`], and begin again.
    Sync(Due),
    /// Write into this surface.
    Upload(usize),
}

/// What to submit for a picture.
#[derive(Debug, Clone, Copy, PartialEq, Eq, Structural)]
pub struct Submission {
    pub slot: usize,
    pub time_stamp: u64,
    pub frame_order: u32,
    /// Control for this frame alone, where it needs one. It must stay in
    /// place until the sync point is reached: the runtime reads it later.
    pub ctrl: Option<EncodeCtrl>,
}

/// How often a picture was submitted before.
#[derive(Debug, Clone, Copy, PartialEq, Eq, Structural)]
pub enum Attempt {
    First,
    /// Again, after everything in flight was collected.
    Drained,
    /// Again, with a larger output buffer.
    Grown,
}

/// What the host does after the runtime answered a submission.
#[derive(Debug, Clone, Copy, PartialEq, Eq, Structural)]
pub enum SubmitStep {
    /// The picture is in flight.
    Queued,
    /// The picture was taken and owes no packet yet.
    NoPacket,
    /// Wait for this sync point now and report it to [`QsvEncoder::synced`].
    SyncNow(u64),
    /// Wait a moment and make the same call again.
    Wait,
    /// Collect everything in flight with [`QsvEncoder::next_due`] and submit
    /// again as [`Attempt::Drained`].
    DrainAll,
    /// Give the surface's output buffer this many bytes and submit again as
    /// [`Attempt::Grown`].
    Grow(usize),
}

/// What the host does after the runtime answered an empty submission.
#[derive(Debug, Clone, Copy, PartialEq, Eq, Structural)]
pub enum FlushStep {
    /// Wait for this sync point, report it to [`QsvEncoder::synced`], and
    /// submit nothing again.
    Sync(u64),
    /// Submit nothing again.
    Again,
    /// The stream has ended.
    End,
}

/// What a session's bookkeeping amounts to.
#[verifier::ext_equal]
pub struct QsvState {
    /// Packets collected, oldest first.
    pub packets: Seq<PacketView>,
    /// How many of them were handed out.
    pub taken: int,
    pub flushed: bool,
    /// Pictures submitted.
    pub submitted: int,
    pub force_idr: bool,
    /// The bytes of each surface.
    pub surfaces: Seq<Seq<u8>>,
    /// The sync point outstanding on each surface.
    pub syncs: Seq<Option<u64>>,
    /// Bytes of each surface's output buffer.
    pub capacities: Seq<int>,
    /// Surfaces with a packet due, oldest first.
    pub due: Seq<int>,
}

impl QsvState {
    /// A surface is on the list of those due exactly while it has a sync
    /// point, and once; every surface has its full size.
    pub open spec fn valid(self, surface_bytes: int) -> bool {
        &&& self.surfaces.len() == POOL_SIZE
        &&& self.syncs.len() == POOL_SIZE
        &&& self.capacities.len() == POOL_SIZE
        &&& 0 <= self.taken <= self.packets.len()
        &&& 0 <= self.submitted <= u32::MAX
        &&& forall|i: int|
            0 <= i < POOL_SIZE ==> (#[trigger] self.surfaces[i]).len() == surface_bytes
        &&& forall|i: int| 0 <= i < POOL_SIZE ==> 0 <= #[trigger] self.capacities[i] <= usize::MAX
        &&& forall|k: int|
            0 <= k < self.due.len() ==> 0 <= #[trigger] self.due[k] < POOL_SIZE
                && self.syncs[self.due[k]] is Some
        &&& forall|j: int, k: int|
            0 <= j < k < self.due.len() ==> #[trigger] self.due[j] != #[trigger] self.due[k]
        &&& forall|i: int|
            0 <= i < POOL_SIZE && (#[trigger] self.syncs[i]) is Some ==> self.due.contains(i)
    }

    /// The first surface that the runtime has let go of: no packet due on it,
    /// and not locked.
    pub open spec fn is_first_free(self, locked: Seq<u16>, slot: int) -> bool {
        &&& 0 <= slot < POOL_SIZE
        &&& self.syncs[slot] is None
        &&& locked[slot] == 0
        &&& forall|j: int|
            0 <= j < slot ==> (#[trigger] self.syncs[j]) is Some || locked[j] != 0
    }

    /// Whether the runtime has every surface.
    pub open spec fn none_free(self, locked: Seq<u16>) -> bool {
        forall|j: int|
            0 <= j < POOL_SIZE ==> (#[trigger] self.syncs[j]) is Some || locked[j] != 0
    }

    /// The oldest sync point was taken to be waited for.
    pub open spec fn oldest_taken(self) -> QsvState {
        QsvState {
            syncs: self.syncs.update(self.due[0], None),
            due: self.due.subrange(1, self.due.len() as int),
            ..self
        }
    }

    /// A packet arrived.
    pub open spec fn queued(self, p: PacketView) -> QsvState {
        QsvState { packets: self.packets.push(p), ..self }
    }

    /// A submission on `slot` is in flight.
    pub open spec fn in_flight(self, slot: int, sync: u64) -> QsvState {
        QsvState {
            syncs: self.syncs.update(slot, Some(sync)),
            due: self.due.push(slot),
            ..self
        }
    }

    /// The output buffer of `slot` was enlarged.
    pub open spec fn grown(self, slot: int, capacity: int) -> QsvState {
        QsvState { capacities: self.capacities.update(slot, capacity), ..self }
    }

    /// What the runtime left behind a sync point was taken: a packet where there
    /// are bytes, nothing where there are none or the wait failed.
    pub open spec fn after_sync(self, a: SyncAnswer) -> QsvState {
        if a.status == MFX_ERR_NONE && a.data@.len() > 0 {
            self.queued(answered_packet(a))
        } else {
            self
        }
    }

    /// A picture was written into `slot`.
    pub open spec fn after_upload(self, c: EncoderConfig, slot: int, f: VideoFrame) -> QsvState {
        QsvState {
            surfaces: self.surfaces.update(slot, written(c, self.surfaces[slot], f)),
            force_idr: false,
            ..self
        }
    }

    /// The next packet was asked for.
    pub open spec fn after_receive(self) -> QsvState {
        if self.taken < self.packets.len() {
            QsvState { taken: self.taken + 1, ..self }
        } else {
            self
        }
    }

    /// The packet that is handed out next, if one is ready.
    pub open spec fn next_packet(self) -> Option<PacketView> {
        if self.taken < self.packets.len() {
            Some(self.packets[self.taken])
        } else {
            None
        }
    }
}

/// The capacity that follows `old`: twice that, but no more than the ceiling.
pub open spec fn next_capacity(old: int) -> int {
    rate::min_int(old * 2, MAX_BITSTREAM_BYTES as int)
}

/// What a status for the picture submitted on `slot` leads to: the bookkeeping
/// after it, and what the host does next.
pub open spec fn submit_outcome(
    s: QsvState,
    c: EncoderConfig,
    slot: int,
    attempt: Attempt,
    status: i32,
    sync: Option<u64>,
) -> (QsvState, Result<SubmitStep, QsvError>) {
    if status == MFX_ERR_NONE {
        match sync {
            Some(x) => (s.in_flight(slot, x), Ok(SubmitStep::Queued)),
            None => (s, Ok(SubmitStep::NoPacket)),
        }
    } else if status == MFX_ERR_MORE_DATA {
        (s, Ok(SubmitStep::NoPacket))
    } else if status == MFX_WRN_DEVICE_BUSY {
        (s, Ok(SubmitStep::Wait))
    } else if status > 0 {
        match sync {
            Some(x) => (s, Ok(SubmitStep::SyncNow(x))),
            None => (s, Ok(SubmitStep::NoPacket)),
        }
    } else if status == MFX_ERR_NOT_ENOUGH_BUFFER && attempt == Attempt::First {
        (s, Ok(SubmitStep::DrainAll))
    } else if status == MFX_ERR_NOT_ENOUGH_BUFFER && attempt == Attempt::Drained {
        let next = next_capacity(s.capacities[slot]);
        if next <= s.capacities[slot] {
            (s, Err(QsvError::FrameTooLarge { width: c.width, height: c.height }))
        } else {
            (s.grown(slot, next), Ok(SubmitStep::Grow(next as usize)))
        }
    } else {
        (s, Err(QsvError::EncodeFailed { status }))
    }
}

/// What a status for an empty submission leads to.
pub open spec fn flush_outcome(status: i32, sync: Option<u64>) -> Result<FlushStep, QsvError> {
    if status == MFX_ERR_MORE_DATA {
        Ok(FlushStep::End)
    } else if status >= 0 {
        Ok(
            match sync {
                Some(s) => FlushStep::Sync(s),
                None => FlushStep::Again,
            },
        )
    } else {
        Err(QsvError::FlushFailed { status })
    }
}

/// What is submitted for a picture written into `slot`.
pub open spec fn is_submission_of(
    s: QsvState,
    c: EncoderConfig,
    slot: usize,
    f: VideoFrame,
    out: Submission,
) -> bool {
    &&& out.slot == slot
    &&& out.time_stamp == f.pts * rate::ticks_per_frame(c.frame_rate)
    &&& out.frame_order == s.submitted
    &&& out.ctrl is Some <==> s.force_idr
    &&& out.ctrl matches Some(e) ==> e.frame_type == MFX_FRAMETYPE_I | MFX_FRAMETYPE_IDR
        | MFX_FRAMETYPE_REF && e.qp == 0
}

/// Whether a picture can be written: it is in the session's format and long
/// enough for its size.
pub open spec fn accepts(c: EncoderConfig, f: VideoFrame) -> bool {
    f.format == c.pixel_format && needed_bytes(c) <= f.bytes().len()
}

/// Bytes of a picture of the session's size and format.
pub open spec fn needed_bytes(c: EncoderConfig) -> int {
    frame::packed_420_len(
        c.width as int,
        c.height as int,
        frame::half_up(c.width as int),
        frame::half_up(c.height as int),
        upload::sample_bytes(c.pixel_format.is_ten_bit()),
    )
}

/// A surface after a picture was written into it.
pub open spec fn written(c: EncoderConfig, before: Seq<u8>, f: VideoFrame) -> Seq<u8> {
    upload::uploaded(
        before,
        params::surface_pitch(c),
        params::surface_pitch(c) * params::surface_rows(c),
        params::surface_pitch(c),
        f.bytes(),
        c.width as int,
        c.height as int,
        frame::half_up(c.width as int),
        frame::half_up(c.height as int),
        c.pixel_format.is_ten_bit(),
    )
}

/// Whether a session can be configured so: its format has surfaces, and they
/// fit in memory.
pub open spec fn is_session(c: EncoderConfig) -> bool {
    params::surface_fourcc(c.pixel_format) is Some && params::surface_fits(c)
}

/// The session's surfaces have room for its pictures.
proof fn surfaces_hold_pictures(c: EncoderConfig, s: SurfaceShape)
    requires
        params::shape_of(c, s),
        params::surface_fits(c),
    ensures
        upload::surface_holds(
            s.bytes as nat,
            s.pitch as int,
            s.luma_bytes as int,
            s.pitch as int,
            c.width as int,
            c.height as int,
            frame::half_up(c.width as int),
            frame::half_up(c.height as int),
            c.pixel_format.is_ten_bit(),
        ),
{
    let b = upload::sample_bytes(c.pixel_format.is_ten_bit());
    let p = s.pitch as int;
    let r = s.rows as int;
    assert(p % 64 == 0 && b * c.width <= p);
    assert(r % 16 == 0 && c.height <= r);
    planes_fit(s.bytes as int, p, r, c.width as int, c.height as int, b);
}

/// Both planes fit in a surface whose rows and pitch are multiples of 16 and
/// 64.
proof fn planes_fit(bytes: int, p: int, r: int, w: int, h: int, b: int)
    requires
        b == 1 || b == 2,
        0 <= w,
        0 <= h,
        p % 64 == 0,
        b * w <= p,
        r % 16 == 0,
        h <= r,
        bytes == p * r * 3 / 2,
    ensures
        planes::block_fits(bytes as nat, 0, p, b * w, h),
        planes::block_fits(bytes as nat, p * r, p, 2 * b * frame::half_up(w), frame::half_up(h)),
{
    let cw = frame::half_up(w);
    let ch = frame::half_up(h);
    let half = r / 2;
    assert(p % 4 == 0);
    assert(2 * b * cw <= p) by {
        if b == 1 {
            assert(2 * b * cw == 2 * cw);
        } else {
            assert(2 * b * cw == 4 * cw);
        }
    }
    assert(r == 2 * half && ch <= half);
    let area = p * half;
    assert(p * r == 2 * area) by (nonlinear_arith)
        requires
            r == 2 * half,
            area == p * half,
    ;
    assert(0 <= area) by (nonlinear_arith)
        requires
            0 <= p,
            0 <= half,
            area == p * half,
    ;
    assert(bytes == 3 * area);
    if h > 0 {
        assert((h - 1) * p + p <= 2 * area) by (nonlinear_arith)
            requires
                h <= r,
                0 <= p,
                p * r == 2 * area,
        ;
    }
    if ch > 0 {
        assert((ch - 1) * p + p <= area) by (nonlinear_arith)
            requires
                ch <= half,
                0 <= p,
                area == p * half,
        ;
    }
}

/// A QSV session as the host drives it.
pub struct QsvEncoder {
    config: EncoderConfig,
    shape: SurfaceShape,
    pts_timescale: u64,
    encoded_packets: Vec<EncodedPacket>,
    packet_cursor: usize,
    flushed: bool,
    frame_counter: u32,
    force_idr_next: bool,
    surfaces: Vec<Vec<u8>>,
    syncs: Vec<Option<u64>>,
    capacities: Vec<usize>,
    inflight: VecDeque<usize>,
}

proof fn push_view(packets: Seq<EncodedPacket>, p: EncodedPacket)
    ensures
        packet::packet_views(packets.push(p)) == packet::packet_views(packets).push(p@),
{
    assert(packet::packet_views(packets.push(p)) =~= packet::packet_views(packets).push(p@));
}

/// Position of the first surface with no sync point outstanding that the
/// runtime has not locked.
pub fn first_free_slot(syncs: &[Option<u64>], locked: &[u16]) -> (slot: Option<usize>)
    requires
        syncs@.len() == locked@.len(),
    ensures
        match slot {
            Some(i) => {
                &&& i < syncs@.len()
                &&& syncs@[i as int] is None
                &&& locked@[i as int] == 0
                &&& forall|j: int| 0 <= j < i ==> (#[trigger] syncs@[j]) is Some || locked@[j] != 0
            },
            None => forall|j: int|
                0 <= j < syncs@.len() ==> (#[trigger] syncs@[j]) is Some || locked@[j] != 0,
        },
{
    let mut i: usize = 0;
    while i < syncs.len()
        invariant
            i <= syncs@.len() == locked@.len(),
            forall|j: int| 0 <= j < i ==> (#[trigger] syncs@[j]) is Some || locked@[j] != 0,
        decreases syncs@.len() - i,
    {
        if syncs[i].is_none() && locked[i] == 0 {
            return Some(i);
        }
        i = i + 1;
    }
    None
}

impl QsvEncoder {
    /// The session's bookkeeping.
    pub closed spec fn state(self) -> QsvState {
        QsvState {
            packets: packet::packet_views(self.encoded_packets@),
            taken: self.packet_cursor as int,
            flushed: self.flushed,
            submitted: self.frame_counter as int,
            force_idr: self.force_idr_next,
            surfaces: self.surfaces@.map_values(|v: Vec<u8>| v@),
            syncs: self.syncs@,
            capacities: self.capacities@.map_values(|v: usize| v as int),
            due: self.inflight@.map_values(|v: usize| v as int),
        }
    }

    /// The configuration the session was opened with.
    pub closed spec fn configuration(self) -> EncoderConfig {
        self.config
    }

    /// Bytes of one surface.
    pub open spec fn surface_bytes(self) -> int {
        params::surface_pitch(self.configuration()) * params::surface_rows(self.configuration()) * 3
            / 2
    }

    /// The session is in order.
    pub closed spec fn wf(self) -> bool {
        &&& is_session(self.config)
        &&& params::shape_of(self.config, self.shape)
        &&& self.pts_timescale == rate::ticks_per_frame(self.config.frame_rate)
        &&& self.state().valid(self.surface_bytes())
    }

    /// What being in order amounts to.
    pub proof fn in_order(self)
        requires
            self.wf(),
        ensures
            is_session(self.configuration()),
            self.state().valid(self.surface_bytes()),
    {
    }

    /// Bookkeeping for a session that was just opened, its surfaces filled
    /// with black.
    pub fn new(config: EncoderConfig) -> (e: Self)
        requires
            is_session(config),
        ensures
            e.wf(),
            e.configuration() == config,
            e.state().packets.len() == 0,
            e.state().taken == 0,
            !e.state().flushed,
            e.state().submitted == 0,
            !e.state().force_idr,
            e.state().due.len() == 0,
            forall|i: int| 0 <= i < POOL_SIZE ==> (#[trigger] e.state().syncs[i]) is None,
            forall|i: int|
                0 <= i < POOL_SIZE ==> #[trigger] e.state().capacities[i] == rate::max_int(
                    e.surface_bytes(),
                    super::api::MIN_BITSTREAM_BYTES as int,
                ),
            forall|i: int|
                0 <= i < POOL_SIZE ==> #[trigger] e.state().surfaces[i] == Seq::new(
                    e.surface_bytes() as nat,
                    |j: int|
                        params::neutral_byte(
                            j,
                            params::surface_pitch(config) * params::surface_rows(config),
                            config.pixel_format.is_ten_bit(),
                        ),
                ),
    {
        let shape: SurfaceShape = surface_shape(&config);
        let ten_bit: bool = config.pixel_format == PixelFormat::Yuv420p10le;
        let mut surfaces: Vec<Vec<u8>> = Vec::new();
        let mut syncs: Vec<Option<u64>> = Vec::new();
        let mut capacities: Vec<usize> = Vec::new();
        let ghost blank = Seq::new(
            shape.bytes as nat,
            |j: int| params::neutral_byte(j, shape.luma_bytes as int, ten_bit),
        );
        let mut i: usize = 0;
        while i < POOL_SIZE
            invariant
                i <= POOL_SIZE,
                surfaces@.len() == i,
                syncs@.len() == i,
                capacities@.len() == i,
                blank == Seq::new(
                    shape.bytes as nat,
                    |j: int| params::neutral_byte(j, shape.luma_bytes as int, ten_bit),
                ),
                forall|j: int| 0 <= j < i ==> (#[trigger] surfaces@[j])@ == blank,
                forall|j: int| 0 <= j < i ==> (#[trigger] syncs@[j]) is None,
                forall|j: int| 0 <= j < i ==> #[trigger] capacities@[j] == shape.bitstream_capacity,
            decreases POOL_SIZE - i,
        {
            surfaces.push(neutral_surface(&shape, ten_bit));
            syncs.push(None);
            capacities.push(shape.bitstream_capacity);
            i = i + 1;
        }
        let e: QsvEncoder = QsvEncoder {
            config,
            shape,
            pts_timescale: pts_timescale(config.frame_rate),
            encoded_packets: Vec::new(),
            packet_cursor: 0,
            flushed: false,
            frame_counter: 0,
            force_idr_next: false,
            surfaces,
            syncs,
            capacities,
            inflight: VecDeque::new(),
        };
        e
    }

    /// The bytes of a surface, for the runtime to read.
    pub fn surface(&self, slot: usize) -> (s: &[u8])
        requires
            self.wf(),
            slot < POOL_SIZE,
        ensures
            s@ == self.state().surfaces[slot as int],
    {
        self.surfaces[slot].as_slice()
    }

    /// The shape of the session's surfaces.
    pub fn shape(&self) -> (s: SurfaceShape)
        requires
            self.wf(),
        ensures
            params::shape_of(self.configuration(), s),
    {
        self.shape
    }

    /// Start on a picture. `locked` is what the runtime says of each surface.
    pub fn begin_frame(&mut self, f: &VideoFrame, locked: &[u16]) -> (r: Result<
        PoolStep,
        QsvError,
    >)
        requires
            old(self).wf(),
            locked@.len() == POOL_SIZE,
        ensures
            final(self).wf(),
            final(self).configuration() == old(self).configuration(),
            f.format != old(self).configuration().pixel_format ==> {
                &&& r == Err::<PoolStep, QsvError>(
                    QsvError::FormatMismatch {
                        configured: old(self).configuration().pixel_format,
                        got: f.format,
                    },
                )
                &&& final(self).state() == old(self).state()
            },
            f.format == old(self).configuration().pixel_format && !accepts(
                old(self).configuration(),
                *f,
            ) ==> {
                &&& r == Err::<PoolStep, QsvError>(
                    QsvError::TooSmall {
                        width: old(self).configuration().width,
                        height: old(self).configuration().height,
                        format: f.format,
                        need: needed_bytes(old(self).configuration()) as u128,
                        have: f.bytes().len() as usize,
                    },
                )
                &&& final(self).state() == old(self).state()
            },
            accepts(old(self).configuration(), *f) ==> match r {
                Ok(PoolStep::Upload(slot)) => {
                    &&& old(self).state().is_first_free(locked@, slot as int)
                    &&& final(self).state() == old(self).state()
                },
                Ok(PoolStep::Sync(d)) => {
                    &&& old(self).state().none_free(locked@)
                    &&& old(self).state().due.len() > 0
                    &&& d.slot == old(self).state().due[0]
                    &&& old(self).state().syncs[d.slot as int] == Some(d.sync)
                    &&& final(self).state() == old(self).state().oldest_taken()
                },
                Err(e) => {
                    &&& old(self).state().none_free(locked@)
                    &&& old(self).state().due.len() == 0
                    &&& e == QsvError::NothingInFlight
                    &&& final(self).state() == old(self).state()
                },
            },
    {
        if f.format != self.config.pixel_format {
            return Err(
                QsvError::FormatMismatch { configured: self.config.pixel_format, got: f.format },
            );
        }
        let cw: u32 = self.config.width / 2 + self.config.width % 2;
        let ch: u32 = self.config.height / 2 + self.config.height % 2;
        let need: u128 = packed_bytes(
            self.config.width,
            self.config.height,
            cw,
            ch,
            self.config.pixel_format == PixelFormat::Yuv420p10le,
        );
        let have: usize = f.slice().len();
        if (have as u128) < need {
            return Err(
                QsvError::TooSmall {
                    width: self.config.width,
                    height: self.config.height,
                    format: self.config.pixel_format,
                    need,
                    have,
                },
            );
        }
        match first_free_slot(self.syncs.as_slice(), locked) {
            Some(slot) => Ok(PoolStep::Upload(slot)),
            None => {
                assert(old(self).state().none_free(locked@));
                match self.next_due() {
                    Some(d) => Ok(PoolStep::Sync(d)),
                    None => Err(QsvError::NothingInFlight),
                }
            },
        }
    }

    /// Take the sync point that has been due longest, to wait for it.
    pub fn next_due(&mut self) -> (r: Option<Due>)
        requires
            old(self).wf(),
        ensures
            final(self).wf(),
            final(self).configuration() == old(self).configuration(),
            match r {
                Some(d) => {
                    &&& old(self).state().due.len() > 0
                    &&& d.slot == old(self).state().due[0]
                    &&& old(self).state().syncs[d.slot as int] == Some(d.sync)
                    &&& final(self).state() == old(self).state().oldest_taken()
                },
                None => {
                    &&& old(self).state().due.len() == 0
                    &&& final(self).state() == old(self).state()
                },
            },
    {
        let ghost queue = self.inflight@;
        let ghost before = self.state();
        match self.inflight.pop_front() {
            None => {
                assert(before.due.len() == 0);
                None
            },
            Some(slot) => {
                assert(before.due[0] == slot);
                assert(before.syncs[before.due[0]] is Some);
                let s: Option<u64> = self.syncs[slot];
                self.syncs.set(slot, None);
                assert(self.inflight@.map_values(|v: usize| v as int) =~= queue.map_values(
                    |v: usize| v as int,
                ).subrange(1, queue.len() as int));
                assert(self.state() =~= before.oldest_taken());
                proof {
                    taking_keeps_the_books(before, self.surface_bytes());
                }
                match s {
                    Some(sync) => Some(Due { slot, sync }),
                    None => None,
                }
            },
        }
    }

    /// Take what the runtime left behind a sync point.
    pub fn synced(&mut self, a: &SyncAnswer) -> (r: Result<(), QsvError>)
        requires
            old(self).wf(),
        ensures
            final(self).wf(),
            final(self).configuration() == old(self).configuration(),
            a.status != MFX_ERR_NONE ==> {
                &&& r == Err::<(), QsvError>(QsvError::SyncFailed { status: a.status })
                &&& final(self).state() == old(self).state()
            },
            a.status == MFX_ERR_NONE && a.data@.len() == 0 ==> {
                &&& r is Ok
                &&& final(self).state() == old(self).state()
            },
            a.status == MFX_ERR_NONE && a.data@.len() > 0 ==> {
                &&& r is Ok
                &&& final(self).state() == old(self).state().queued(answered_packet(*a))
            },
            final(self).state() == old(self).state().after_sync(*a),
    {
        if a.status != MFX_ERR_NONE {
            return Err(QsvError::SyncFailed { status: a.status });
        }
        if a.data.len() == 0 {
            return Ok(());
        }
        let key: bool = a.frame_type & (MFX_FRAMETYPE_I | MFX_FRAMETYPE_IDR) != 0
            || a.keyframe_in_bitstream;
        let p: EncodedPacket = packet_of(a.data.as_slice(), a.time_stamp, key);
        proof {
            push_view(self.encoded_packets@, p);
        }
        self.encoded_packets.push(p);
        assert(self.state() =~= old(self).state().queued(answered_packet(*a)));
        Ok(())
    }

    /// Write a picture into `slot` and say what to submit. A keyframe that was
    /// asked for is asked of this picture, and of no later one.
    pub fn upload(&mut self, slot: usize, f: &VideoFrame) -> (s: Submission)
        requires
            old(self).wf(),
            slot < POOL_SIZE,
            accepts(old(self).configuration(), *f),
            f.pts * rate::ticks_per_frame(old(self).configuration().frame_rate) <= u64::MAX,
        ensures
            final(self).wf(),
            final(self).configuration() == old(self).configuration(),
            final(self).state() == (QsvState {
                surfaces: old(self).state().surfaces.update(
                    slot as int,
                    written(
                        old(self).configuration(),
                        old(self).state().surfaces[slot as int],
                        *f,
                    ),
                ),
                force_idr: false,
                ..old(self).state()
            }),
            final(self).state() == old(self).state().after_upload(
                old(self).configuration(),
                slot as int,
                *f,
            ),
            is_submission_of(old(self).state(), old(self).configuration(), slot, *f, s),
            s.slot == slot,
            s.time_stamp == f.pts * rate::ticks_per_frame(old(self).configuration().frame_rate),
            s.frame_order == old(self).state().submitted,
            s.ctrl is Some <==> old(self).state().force_idr,
            s.ctrl matches Some(c) ==> c.frame_type == MFX_FRAMETYPE_I | MFX_FRAMETYPE_IDR
                | MFX_FRAMETYPE_REF && c.qp == 0 && c.mfx_nal_unit_type == 0 && c.skip_frame == 0
                && c.num_ext_param == 0 && c.num_payload == 0,
    {
        let ghost before = self.state();
        let ghost was = self.surfaces@;
        let w: usize = self.config.width as usize;
        let h: usize = self.config.height as usize;
        let cw: usize = w / 2 + w % 2;
        let ch: usize = h / 2 + h % 2;
        let ten_bit: bool = self.config.pixel_format == PixelFormat::Yuv420p10le;
        proof {
            surfaces_hold_pictures(self.config, self.shape);
            assert(before.surfaces[slot as int] == self.surfaces@[slot as int]@);
        }
        let mut surface: Vec<u8> = Vec::new();
        std::mem::swap(&mut surface, &mut self.surfaces[slot]);
        assert(surface@ == was[slot as int]@);
        upload::upload(
            &mut surface,
            self.shape.pitch,
            self.shape.luma_bytes,
            self.shape.pitch,
            f.slice(),
            w,
            h,
            cw,
            ch,
            ten_bit,
        );
        assert(surface@ == written(self.config, was[slot as int]@, *f));
        self.surfaces.set(slot, surface);
        let ctrl: Option<EncodeCtrl> = if self.force_idr_next {
            Some(EncodeCtrl::force_idr())
        } else {
            None
        };
        self.force_idr_next = false;
        proof {
            assert(self.surfaces@.map_values(|v: Vec<u8>| v@) =~= was.map_values(
                |v: Vec<u8>| v@,
            ).update(slot as int, surface@));
            let after = self.state();
            assert(after.surfaces =~= before.surfaces.update(slot as int, surface@));
            assert forall|i: int| 0 <= i < POOL_SIZE implies (#[trigger] after.surfaces[i]).len()
                == self.surface_bytes() by {
                assert(before.surfaces[i].len() == self.surface_bytes());
            }
        }
        Submission {
            slot,
            time_stamp: f.pts * self.pts_timescale,
            frame_order: self.frame_counter,
            ctrl,
        }
    }

    /// Take the runtime's status for the picture submitted on `slot`.
    pub fn submitted(
        &mut self,
        slot: usize,
        attempt: Attempt,
        status: i32,
        sync: Option<u64>,
    ) -> (r: Result<SubmitStep, QsvError>)
        requires
            old(self).wf(),
            slot < POOL_SIZE,
            old(self).state().syncs[slot as int] is None,
        ensures
            final(self).wf(),
            final(self).configuration() == old(self).configuration(),
            status == MFX_ERR_NONE ==> match sync {
                Some(s) => {
                    &&& r == Ok::<SubmitStep, QsvError>(SubmitStep::Queued)
                    &&& final(self).state() == old(self).state().in_flight(slot as int, s)
                },
                None => {
                    &&& r == Ok::<SubmitStep, QsvError>(SubmitStep::NoPacket)
                    &&& final(self).state() == old(self).state()
                },
            },
            status == MFX_ERR_MORE_DATA ==> {
                &&& r == Ok::<SubmitStep, QsvError>(SubmitStep::NoPacket)
                &&& final(self).state() == old(self).state()
            },
            status == MFX_WRN_DEVICE_BUSY ==> {
                &&& r == Ok::<SubmitStep, QsvError>(SubmitStep::Wait)
                &&& final(self).state() == old(self).state()
            },
            status > 0 && status != MFX_WRN_DEVICE_BUSY ==> {
                &&& r == Ok::<SubmitStep, QsvError>(
                    match sync {
                        Some(s) => SubmitStep::SyncNow(s),
                        None => SubmitStep::NoPacket,
                    },
                )
                &&& final(self).state() == old(self).state()
            },
            status == MFX_ERR_NOT_ENOUGH_BUFFER && attempt == Attempt::First ==> {
                &&& r == Ok::<SubmitStep, QsvError>(SubmitStep::DrainAll)
                &&& final(self).state() == old(self).state()
            },
            status == MFX_ERR_NOT_ENOUGH_BUFFER && attempt == Attempt::Drained ==> {
                let was = old(self).state().capacities[slot as int];
                if next_capacity(was) <= was {
                    &&& r == Err::<SubmitStep, QsvError>(
                        QsvError::FrameTooLarge {
                            width: old(self).configuration().width,
                            height: old(self).configuration().height,
                        },
                    )
                    &&& final(self).state() == old(self).state()
                } else {
                    &&& r == Ok::<SubmitStep, QsvError>(
                        SubmitStep::Grow(next_capacity(was) as usize),
                    )
                    &&& final(self).state() == old(self).state().grown(
                        slot as int,
                        next_capacity(was),
                    )
                }
            },
            status < 0 && status != MFX_ERR_MORE_DATA && !(status == MFX_ERR_NOT_ENOUGH_BUFFER
                && attempt != Attempt::Grown) ==> {
                &&& r == Err::<SubmitStep, QsvError>(QsvError::EncodeFailed { status })
                &&& final(self).state() == old(self).state()
            },
            (final(self).state(), r) == submit_outcome(
                old(self).state(),
                old(self).configuration(),
                slot as int,
                attempt,
                status,
                sync,
            ),
    {
        if status == MFX_ERR_NONE {
            return match sync {
                Some(s) => {
                    self.queue_slot(slot, s);
                    Ok(SubmitStep::Queued)
                },
                None => Ok(SubmitStep::NoPacket),
            };
        }
        if status == MFX_ERR_MORE_DATA {
            return Ok(SubmitStep::NoPacket);
        }
        if status == MFX_WRN_DEVICE_BUSY {
            return Ok(SubmitStep::Wait);
        }
        if status > 0 {
            return match sync {
                Some(s) => Ok(SubmitStep::SyncNow(s)),
                None => Ok(SubmitStep::NoPacket),
            };
        }
        if status == MFX_ERR_NOT_ENOUGH_BUFFER {
            match attempt {
                Attempt::First => {
                    return Ok(SubmitStep::DrainAll);
                },
                Attempt::Drained => {
                    return self.grow(slot);
                },
                Attempt::Grown => {},
            }
        }
        Err(QsvError::EncodeFailed { status })
    }

    fn queue_slot(&mut self, slot: usize, s: u64)
        requires
            old(self).wf(),
            slot < POOL_SIZE,
            old(self).state().syncs[slot as int] is None,
        ensures
            final(self).wf(),
            final(self).configuration() == old(self).configuration(),
            final(self).state() == old(self).state().in_flight(slot as int, s),
    {
        let ghost before = self.state();
        let ghost queue = self.inflight@;
        self.syncs.set(slot, Some(s));
        self.inflight.push_back(slot);
        assert(self.inflight@.map_values(|v: usize| v as int) =~= queue.map_values(
            |v: usize| v as int,
        ).push(slot as int));
        assert(self.state() =~= before.in_flight(slot as int, s));
        proof {
            submitting_keeps_the_books(before, self.surface_bytes(), slot as int, s);
        }
    }

    fn grow(&mut self, slot: usize) -> (r: Result<SubmitStep, QsvError>)
        requires
            old(self).wf(),
            slot < POOL_SIZE,
        ensures
            final(self).wf(),
            final(self).configuration() == old(self).configuration(),
            ({
                let was = old(self).state().capacities[slot as int];
                if next_capacity(was) <= was {
                    &&& r == Err::<SubmitStep, QsvError>(
                        QsvError::FrameTooLarge {
                            width: old(self).configuration().width,
                            height: old(self).configuration().height,
                        },
                    )
                    &&& final(self).state() == old(self).state()
                } else {
                    &&& r == Ok::<SubmitStep, QsvError>(
                        SubmitStep::Grow(next_capacity(was) as usize),
                    )
                    &&& final(self).state() == old(self).state().grown(
                        slot as int,
                        next_capacity(was),
                    )
                }
            }),
    {
        let ghost before = self.state();
        let ghost was = self.capacities@;
        let cap: usize = self.capacities[slot];
        assert(before.capacities[slot as int] == cap);
        let next: usize = if cap > MAX_BITSTREAM_BYTES / 2 {
            MAX_BITSTREAM_BYTES
        } else {
            cap * 2
        };
        assert(next == next_capacity(cap as int));
        if next <= cap {
            return Err(
                QsvError::FrameTooLarge { width: self.config.width, height: self.config.height },
            );
        }
        self.capacities.set(slot, next);
        proof {
            assert(self.capacities@.map_values(|v: usize| v as int) =~= was.map_values(
                |v: usize| v as int,
            ).update(slot as int, next as int));
            assert(self.state() =~= before.grown(slot as int, next as int));
            let after = self.state();
            assert forall|i: int| 0 <= i < POOL_SIZE implies 0
                <= #[trigger] after.capacities[i] <= usize::MAX by {
                assert(0 <= before.capacities[i] <= usize::MAX);
            }
        }
        Ok(SubmitStep::Grow(next))
    }

    /// A picture was submitted, whatever came of it.
    pub fn finish_frame(&mut self)
        requires
            old(self).wf(),
            old(self).state().submitted < u32::MAX,
        ensures
            final(self).wf(),
            final(self).configuration() == old(self).configuration(),
            final(self).state() == (QsvState {
                submitted: old(self).state().submitted + 1,
                ..old(self).state()
            }),
    {
        self.frame_counter = self.frame_counter + 1;
        assert(self.state() =~= (QsvState {
            submitted: old(self).state().submitted + 1,
            ..old(self).state()
        }));
    }

    /// Ask for the next picture to be a keyframe.
    pub fn force_keyframe_next(&mut self)
        requires
            old(self).wf(),
        ensures
            final(self).wf(),
            final(self).configuration() == old(self).configuration(),
            final(self).state() == (QsvState { force_idr: true, ..old(self).state() }),
    {
        self.force_idr_next = true;
        assert(self.state() =~= (QsvState { force_idr: true, ..old(self).state() }));
    }

    /// Whether the stream is still to be ended: collect everything in flight
    /// with [`QsvEncoder::next_due`], then submit nothing until the runtime
    /// says the stream has ended, then call [`QsvEncoder::flush_end`].
    pub fn needs_flush(&self) -> (b: bool)
        ensures
            b == !self.state().flushed,
    {
        !self.flushed
    }

    /// Take the runtime's status for an empty submission.
    pub fn flush_status(status: i32, sync: Option<u64>) -> (r: Result<FlushStep, QsvError>)
        ensures
            r == (if status == MFX_ERR_MORE_DATA {
                Ok::<FlushStep, QsvError>(FlushStep::End)
            } else if status >= 0 {
                Ok::<FlushStep, QsvError>(
                    match sync {
                        Some(s) => FlushStep::Sync(s),
                        None => FlushStep::Again,
                    },
                )
            } else {
                Err::<FlushStep, QsvError>(QsvError::FlushFailed { status })
            }),
            r == flush_outcome(status, sync),
    {
        if status == MFX_ERR_MORE_DATA {
            return Ok(FlushStep::End);
        }
        if status >= 0 {
            return match sync {
                Some(s) => Ok(FlushStep::Sync(s)),
                None => Ok(FlushStep::Again),
            };
        }
        Err(QsvError::FlushFailed { status })
    }

    /// The stream has ended.
    pub fn flush_end(&mut self)
        requires
            old(self).wf(),
        ensures
            final(self).wf(),
            final(self).configuration() == old(self).configuration(),
            final(self).state() == (QsvState { flushed: true, ..old(self).state() }),
    {
        self.flushed = true;
        assert(self.state() =~= (QsvState { flushed: true, ..old(self).state() }));
    }

    /// The next packet, if one is ready.
    pub fn receive_packet(&mut self) -> (p: Option<EncodedPacket>)
        requires
            old(self).wf(),
        ensures
            final(self).wf(),
            final(self).configuration() == old(self).configuration(),
            old(self).state().taken < old(self).state().packets.len() ==> {
                &&& p matches Some(pkt)
                &&& pkt@ == old(self).state().packets[old(self).state().taken]
                &&& final(self).state() == (QsvState {
                    taken: old(self).state().taken + 1,
                    ..old(self).state()
                })
            },
            old(self).state().taken >= old(self).state().packets.len() ==> {
                &&& p is None
                &&& final(self).state() == old(self).state()
            },
            final(self).state() == old(self).state().after_receive(),
            match old(self).state().next_packet() {
                Some(v) => p matches Some(pkt) && pkt@ == v,
                None => p is None,
            },
    {
        if self.packet_cursor < self.encoded_packets.len() {
            let pkt: EncodedPacket = self.encoded_packets[self.packet_cursor].clone();
            self.packet_cursor = self.packet_cursor + 1;
            assert(self.state() =~= (QsvState {
                taken: old(self).state().taken + 1,
                ..old(self).state()
            }));
            Some(pkt)
        } else {
            None
        }
    }
}

/// Waiting for the oldest packet keeps the books: its surface is no longer
/// due, every other one still is.
pub proof fn taking_keeps_the_books(s: QsvState, surface_bytes: int)
    requires
        s.valid(surface_bytes),
        s.due.len() > 0,
    ensures
        s.oldest_taken().valid(surface_bytes),
        s.oldest_taken().syncs[s.due[0]] is None,
{
    let t = s.oldest_taken();
    assert(0 <= s.due[0] < POOL_SIZE);
    assert forall|k: int| 0 <= k < t.due.len() implies 0 <= #[trigger] t.due[k] < POOL_SIZE
        && t.syncs[t.due[k]] is Some by {
        assert(t.due[k] == s.due[k + 1]);
        assert(s.syncs[s.due[k + 1]] is Some);
        assert(s.due[0] != s.due[k + 1]);
    }
    assert forall|j: int, k: int| 0 <= j < k < t.due.len() implies #[trigger] t.due[j]
        != #[trigger] t.due[k] by {
        assert(t.due[j] == s.due[j + 1]);
        assert(t.due[k] == s.due[k + 1]);
    }
    assert forall|i: int| 0 <= i < POOL_SIZE && (#[trigger] t.syncs[i]) is Some implies t.due.contains(
        i,
    ) by {
        assert(s.syncs[i] is Some);
        let k = choose|k: int| 0 <= k < s.due.len() && s.due[k] == i;
        assert(k > 0);
        assert(t.due[k - 1] == i);
    }
}

/// A submission on a free surface keeps the books: the surface is due from
/// then on, once.
pub proof fn submitting_keeps_the_books(s: QsvState, surface_bytes: int, slot: int, sync: u64)
    requires
        s.valid(surface_bytes),
        0 <= slot < POOL_SIZE,
        s.syncs[slot] is None,
    ensures
        s.in_flight(slot, sync).valid(surface_bytes),
        s.in_flight(slot, sync).due.last() == slot,
{
    let t = s.in_flight(slot, sync);
    assert forall|k: int| 0 <= k < t.due.len() implies 0 <= #[trigger] t.due[k] < POOL_SIZE
        && t.syncs[t.due[k]] is Some by {
        if k < s.due.len() {
            assert(s.syncs[s.due[k]] is Some);
        }
    }
    assert forall|j: int, k: int| 0 <= j < k < t.due.len() implies #[trigger] t.due[j]
        != #[trigger] t.due[k] by {
        assert(s.syncs[s.due[j]] is Some);
    }
    assert forall|i: int| 0 <= i < POOL_SIZE && (#[trigger] t.syncs[i]) is Some implies t.due.contains(
        i,
    ) by {
        if i == slot {
            assert(t.due[s.due.len() as int] == slot);
        } else {
            assert(s.syncs[i] is Some);
            let k = choose|k: int| 0 <= k < s.due.len() && s.due[k] == i;
            assert(t.due[k] == i);
        }
    }
}

/// A surface the runtime still has is never the one a picture goes into,
/// whether its packet is due or the runtime merely predicts from it.
pub proof fn a_held_surface_is_never_chosen(
    s: QsvState,
    surface_bytes: int,
    locked: Seq<u16>,
    slot: int,
)
    requires
        s.valid(surface_bytes),
        s.is_first_free(locked, slot),
    ensures
        !s.due.contains(slot),
        locked[slot] == 0,
{
}

/// While the runtime locks no surface, there is always one to write into or
/// one to wait for: coding cannot get stuck.
pub proof fn an_unlocked_pool_never_sticks(s: QsvState, surface_bytes: int, locked: Seq<u16>)
    requires
        s.valid(surface_bytes),
        locked.len() == POOL_SIZE,
        forall|i: int| 0 <= i < POOL_SIZE ==> #[trigger] locked[i] == 0,
    ensures
        s.none_free(locked) ==> s.due.len() == POOL_SIZE,
        s.due.len() == 0 ==> !s.none_free(locked),
{
    if s.none_free(locked) {
        let all = Seq::new(POOL_SIZE as nat, |i: int| i);
        assert forall|i: int| 0 <= i < POOL_SIZE implies s.due.contains(i) by {
            assert(locked[i] == 0);
            assert(s.syncs[i] is Some);
        }
        distinct_cover(s.due, POOL_SIZE as int);
    }
    if s.due.len() == 0 {
        assert(locked[0] == 0);
        if s.syncs[0] is Some {
            assert(s.due.contains(0));
        }
    }
}

/// A list without repeats that names each of `0 .. n` and nothing else has `n`
/// entries.
proof fn distinct_cover(s: Seq<int>, n: int)
    requires
        0 <= n,
        forall|i: int| 0 <= i < n ==> s.contains(i),
        forall|k: int| 0 <= k < s.len() ==> 0 <= #[trigger] s[k] < n,
        forall|j: int, k: int| 0 <= j < k < s.len() ==> #[trigger] s[j] != #[trigger] s[k],
    ensures
        s.len() == n,
{
    let set = s.to_set();
    assert(s.no_duplicates());
    s.unique_seq_to_set();
    assert(set =~= vstd::set_lib::set_int_range(0, n)) by {
        assert forall|x: int| set.contains(x) <==> 0 <= x < n by {
            if set.contains(x) {
                let k = choose|k: int| 0 <= k < s.len() && s[k] == x;
                assert(0 <= s[k] < n);
            }
        }
    }
    vstd::set_lib::lemma_int_range(0, n);
}

/// Once nothing is due, no sync point is outstanding anywhere: collecting until
/// the list is empty loses no packet.
pub proof fn an_empty_list_leaves_nothing_behind(s: QsvState, surface_bytes: int)
    requires
        s.valid(surface_bytes),
        s.due.len() == 0,
    ensures
        forall|i: int| 0 <= i < POOL_SIZE ==> (#[trigger] s.syncs[i]) is None,
{
    assert forall|i: int| 0 <= i < POOL_SIZE implies (#[trigger] s.syncs[i]) is None by {
        if s.syncs[i] is Some {
            assert(s.due.contains(i));
        }
    }
}

/// An output buffer grows in ever fewer steps towards the ceiling: every step
/// makes it larger, and none takes it past.
pub proof fn growth_is_bounded(old: int)
    requires
        0 <= old,
        next_capacity(old) > old,
    ensures
        next_capacity(old) <= MAX_BITSTREAM_BYTES,
        next_capacity(old) == MAX_BITSTREAM_BYTES || next_capacity(old) == 2 * old,
{
}

/// A packet is what the runtime left: its bytes and time stamp, and a keyframe
/// where the bytes open with one or the runtime marks the frame as I or IDR.
/// Without any of these marks it is none. It is queued behind the others, and
/// nothing else changes.
pub proof fn packets_are_marked_as_the_runtime_or_the_bytes_say(s: QsvState, a: SyncAnswer)
    requires
        a.status == 0,
        a.data@.len() > 0,
    ensures
        ({
            let t = s.after_sync(a);
            let n = s.packets.len() as int;
            &&& t.packets.len() == n + 1
            &&& forall|i: int| 0 <= i < n ==> #[trigger] t.packets[i] == s.packets[i]
            &&& t.packets[n].bytes == a.data@
            &&& t.packets[n].pts == a.time_stamp
            &&& a.keyframe_in_bitstream ==> t.packets[n].is_keyframe
            &&& a.frame_type & 0x0001 != 0 ==> t.packets[n].is_keyframe
            &&& a.frame_type & 0x8000 != 0 ==> t.packets[n].is_keyframe
            &&& !a.keyframe_in_bitstream && a.frame_type & 0x0001 == 0 && a.frame_type & 0x8000 == 0
                ==> !t.packets[n].is_keyframe
            &&& t.taken == s.taken && t.due == s.due && t.syncs == s.syncs
            &&& t.surfaces == s.surfaces && t.capacities == s.capacities
            &&& t.submitted == s.submitted && t.force_idr == s.force_idr && t.flushed == s.flushed
        }),
{
    let ft = a.frame_type;
    let m = MFX_FRAMETYPE_I | MFX_FRAMETYPE_IDR;
    assert(m == 0x8001u16) by (bit_vector)
        requires
            m == 0x0001u16 | 0x8000u16,
    ;
    assert(ft & 0x8001 != 0 <==> (ft & 0x0001 != 0 || ft & 0x8000 != 0)) by (bit_vector);
}

/// A wait that failed, or found no bytes, adds no packet.
pub proof fn nothing_comes_of_an_empty_answer(s: QsvState, a: SyncAnswer)
    requires
        a.status != 0 || a.data@.len() == 0,
    ensures
        s.after_sync(a) == s,
{
}

/// Every status of a submission has one answer. A picture that was taken with a
/// sync point is in flight, behind those before it. A warning is waited for at
/// once, a busy device is asked again, and a picture the runtime merely wants
/// more of owes no packet yet. An output buffer that is too small is answered by
/// collecting first, then by a larger buffer, twice as large up to 64 mebibytes,
/// then by giving up; any other error ends the picture.
pub proof fn every_status_has_its_answer(
    s: QsvState,
    c: EncoderConfig,
    slot: int,
    attempt: Attempt,
    status: i32,
    sync: Option<u64>,
)
    requires
        0 <= slot < POOL_SIZE,
        s.syncs.len() == POOL_SIZE,
        s.capacities.len() == POOL_SIZE,
        0 <= s.capacities[slot],
    ensures
        ({
            let out = submit_outcome(s, c, slot, attempt, status, sync);
            let cap = s.capacities[slot];
            &&& out.0.packets == s.packets && out.0.taken == s.taken && out.0.surfaces == s.surfaces
            &&& out.1 != Ok::<SubmitStep, QsvError>(SubmitStep::Queued) ==> out.0.due == s.due
                && out.0.syncs == s.syncs
            &&& !(out.1 matches Ok(SubmitStep::Grow(_))) ==> out.0.capacities == s.capacities
            &&& match out.1 {
                Ok(SubmitStep::Queued) => {
                    &&& status == 0 && sync is Some
                    &&& out.0.due == s.due.push(slot)
                    &&& out.0.syncs[slot] == sync
                    &&& forall|i: int|
                        0 <= i < POOL_SIZE && i != slot ==> #[trigger] out.0.syncs[i] == s.syncs[i]
                },
                Ok(SubmitStep::NoPacket) => status == -10 || (sync is None && status >= 0 && status
                    != 2),
                Ok(SubmitStep::SyncNow(x)) => status > 0 && status != 2 && sync == Some(x),
                Ok(SubmitStep::Wait) => status == 2,
                Ok(SubmitStep::DrainAll) => status == -5 && attempt == Attempt::First,
                Ok(SubmitStep::Grow(n)) => {
                    &&& status == -5 && attempt == Attempt::Drained
                    &&& cap < n <= 67_108_864
                    &&& n == 2 * cap || n == 67_108_864 < 2 * cap
                    &&& out.0.capacities == s.capacities.update(slot, n as int)
                },
                Err(QsvError::FrameTooLarge { width, height }) => {
                    &&& status == -5 && attempt == Attempt::Drained
                    &&& cap == 0 || cap >= 67_108_864
                    &&& width == c.width && height == c.height
                },
                Err(QsvError::EncodeFailed { status: e }) => {
                    &&& e == status && status < 0 && status != -10
                    &&& status == -5 ==> attempt == Attempt::Grown
                },
                Err(_) => false,
            }
        }),
{
}

/// Flushing goes on until the runtime has no more: a sync point that comes with
/// an answer is waited for, any other answer that is no error asks again, and an
/// error ends it.
pub proof fn flushing_ends_when_nothing_is_left(status: i32, sync: Option<u64>)
    ensures
        flush_outcome(status, sync) == Ok::<FlushStep, QsvError>(FlushStep::End) <==> status == -10,
        status >= 0 && sync is Some ==> flush_outcome(status, sync) == Ok::<FlushStep, QsvError>(
            FlushStep::Sync(sync->0),
        ),
        status >= 0 && sync is None ==> flush_outcome(status, sync) == Ok::<FlushStep, QsvError>(
            FlushStep::Again,
        ),
        status < 0 && status != -10 ==> flush_outcome(status, sync) == Err::<FlushStep, QsvError>(
            QsvError::FlushFailed { status },
        ),
{
}

/// A picture reaches its own surface and no other, with the pictures in flight
/// as they were; a keyframe that was asked for is asked of it and of no later
/// one.
pub proof fn a_picture_is_written_to_its_surface(
    s: QsvState,
    c: EncoderConfig,
    slot: usize,
    f: VideoFrame,
    out: Submission,
)
    requires
        slot < s.surfaces.len(),
        is_submission_of(s, c, slot, f, out),
    ensures
        ({
            let t = s.after_upload(c, slot as int, f);
            &&& t.surfaces.len() == s.surfaces.len()
            &&& t.surfaces[slot as int] == written(c, s.surfaces[slot as int], f)
            &&& forall|i: int|
                0 <= i < s.surfaces.len() && i != slot ==> #[trigger] t.surfaces[i] == s.surfaces[i]
            &&& t.due == s.due && t.syncs == s.syncs && t.packets == s.packets
            &&& t.capacities == s.capacities && t.submitted == s.submitted
            &&& !t.force_idr
        }),
        out.slot == slot,
        out.time_stamp == f.pts * rate::ticks_per_frame(c.frame_rate),
        out.frame_order == s.submitted,
        s.force_idr ==> out.ctrl is Some && marks_keyframe(out.ctrl->0.frame_type)
            && out.ctrl->0.qp == 0,
        !s.force_idr ==> out.ctrl is None,
{
    forced_frames_read_as_keyframes();
}

/// The luma sample `(x, y)` of a picture is the one that the runtime reads from
/// its surface; at ten bits it is read times 64.
pub proof fn luma_reads_back(c: EncoderConfig, before: Seq<u8>, f: VideoFrame, x: int, y: int)
    requires
        is_session(c),
        before.len() == params::surface_pitch(c) * params::surface_rows(c) * 3 / 2,
        0 <= x < c.width,
        0 <= y < c.height,
    ensures
        ({
            let after = written(c, before, f);
            let pitch = params::surface_pitch(c);
            let src = f.bytes();
            let i = y * c.width + x;
            &&& c.pixel_format == PixelFormat::Yuv420p ==> after[y * pitch + x] == src[i]
            &&& c.pixel_format == PixelFormat::Yuv420p10le ==> after[y * pitch + 2 * x] + 256
                * after[y * pitch + 2 * x + 1] == (src[2 * i] + 256 * src[2 * i + 1]) % 1024 * 64
        }),
{
    let p = params::surface_pitch(c);
    let r = params::surface_rows(c);
    let ten_bit = c.pixel_format.is_ten_bit();
    let b = upload::sample_bytes(ten_bit);
    let w = c.width as int;
    let h = c.height as int;
    planes_fit(before.len() as int, p, r, w, h, b);
    assert((h - 1) * p + b * w <= p * r) by (nonlinear_arith)
        requires
            0 < h <= r,
            b * w <= p,
            0 <= p,
    ;
    upload::luma_reads_back(
        before,
        p,
        p * r,
        p,
        f.bytes(),
        w,
        h,
        frame::half_up(w),
        frame::half_up(h),
        ten_bit,
        x,
        y,
    );
}

/// The pair `(x, y)` that the runtime reads from the chroma rows of a surface is
/// the U sample `(x, y)` of the picture and then the V sample, U being the first
/// of its chroma planes and V the second; an odd edge keeps its last sample, and
/// at ten bits both are read times 64.
pub proof fn chroma_reads_back(c: EncoderConfig, before: Seq<u8>, f: VideoFrame, x: int, y: int)
    requires
        is_session(c),
        before.len() == params::surface_pitch(c) * params::surface_rows(c) * 3 / 2,
        0 <= x < (c.width + 1) / 2,
        0 <= y < (c.height + 1) / 2,
    ensures
        ({
            let after = written(c, before, f);
            let pitch = params::surface_pitch(c);
            let top = pitch * params::surface_rows(c);
            let src = f.bytes();
            let luma = c.width * c.height;
            let cw = (c.width + 1) / 2;
            let plane = cw * ((c.height + 1) / 2);
            let i = y * cw + x;
            &&& c.pixel_format == PixelFormat::Yuv420p ==> {
                let at = top + y * pitch + 2 * x;
                &&& after[at] == src[luma + i]
                &&& after[at + 1] == src[luma + plane + i]
            }
            &&& c.pixel_format == PixelFormat::Yuv420p10le ==> {
                let at = top + y * pitch + 4 * x;
                let u = 2 * luma + 2 * i;
                let v = 2 * luma + 2 * plane + 2 * i;
                &&& after[at] + 256 * after[at + 1] == (src[u] + 256 * src[u + 1]) % 1024 * 64
                &&& after[at + 2] + 256 * after[at + 3] == (src[v] + 256 * src[v + 1]) % 1024 * 64
            }
        }),
{
    let p = params::surface_pitch(c);
    let r = params::surface_rows(c);
    let ten_bit = c.pixel_format.is_ten_bit();
    let b = upload::sample_bytes(ten_bit);
    let w = c.width as int;
    let h = c.height as int;
    planes_fit(before.len() as int, p, r, w, h, b);
    assert(0 <= p * r) by (nonlinear_arith)
        requires
            0 <= p,
            0 <= r,
    ;
    upload::chroma_reads_back(
        before,
        p,
        p * r,
        p,
        f.bytes(),
        w,
        h,
        frame::half_up(w),
        frame::half_up(h),
        ten_bit,
        x,
        y,
    );
}

/// A picture is taken exactly where it is in the session's format and has a byte
/// for each sample, two at ten bits, odd chroma edges rounded up.
pub proof fn which_pictures_are_taken(c: EncoderConfig, f: VideoFrame)
    requires
        c.pixel_format == PixelFormat::Yuv420p || c.pixel_format == PixelFormat::Yuv420p10le,
    ensures
        ({
            let samples = c.width * c.height + 2 * (((c.width + 1) / 2) * ((c.height + 1) / 2));
            accepts(c, f) <==> f.format == c.pixel_format && f.bytes().len() >= (if c.pixel_format
                == PixelFormat::Yuv420p10le {
                2 * samples
            } else {
                samples
            })
        }),
{
}

/// Packets come out in the order they were queued, each once: the one handed
/// out next is the one after those handed out, whatever is queued meanwhile.
pub proof fn packets_come_out_in_order(s: QsvState, p: PacketView)
    requires
        0 <= s.taken <= s.packets.len(),
    ensures
        s.next_packet() is Some <==> s.taken < s.packets.len(),
        s.next_packet() is Some ==> {
            &&& s.next_packet() == Some(s.packets[s.taken])
            &&& s.after_receive().taken == s.taken + 1
            &&& s.after_receive().packets == s.packets
            &&& s.queued(p).next_packet() == s.next_packet()
        },
        s.next_packet() is None ==> s.after_receive() == s && s.queued(p).next_packet() == Some(p),
        s.after_receive().due == s.due && s.after_receive().syncs == s.syncs,
{
}

/// The surface that has waited longest is collected from first, and then has no
/// packet due; the others keep their places.
pub proof fn the_oldest_is_collected_first(s: QsvState, surface_bytes: int)
    requires
        s.valid(surface_bytes),
        s.due.len() > 0,
    ensures
        ({
            let t = s.oldest_taken();
            &&& t.syncs[s.due[0]] is None
            &&& t.due.len() == s.due.len() - 1
            &&& forall|k: int| 0 <= k < t.due.len() ==> #[trigger] t.due[k] == s.due[k + 1]
            &&& forall|i: int|
                0 <= i < POOL_SIZE && i != s.due[0] ==> #[trigger] t.syncs[i] == s.syncs[i]
            &&& t.packets == s.packets && t.surfaces == s.surfaces && t.capacities == s.capacities
        }),
{
}

/// The runtime has every surface exactly where none is free: each has a packet
/// due or is locked. Otherwise there is a first one that is free, and only one.
pub proof fn a_free_surface_is_found(s: QsvState, locked: Seq<u16>, slot: int)
    requires
        s.syncs.len() == POOL_SIZE,
        locked.len() == POOL_SIZE,
        0 <= slot < POOL_SIZE,
    ensures
        s.syncs[slot] is None && locked[slot] == 0 ==> !s.none_free(locked) && exists|i: int|
            i <= slot && #[trigger] s.is_first_free(locked, i),
        s.is_first_free(locked, slot) ==> s.syncs[slot] is None && locked[slot] == 0,
        (forall|i: int|
            0 <= i < POOL_SIZE ==> (#[trigger] s.syncs[i]) is Some || locked[i] != 0)
            <==> s.none_free(locked),
        forall|i: int|
            s.is_first_free(locked, slot) && #[trigger] s.is_first_free(locked, i) ==> i == slot,
    decreases slot,
{
    if s.syncs[slot] is None && locked[slot] == 0 {
        if exists|j: int| 0 <= j < slot && (#[trigger] s.syncs[j]) is None && locked[j] == 0 {
            let j = choose|j: int|
                0 <= j < slot && (#[trigger] s.syncs[j]) is None && locked[j] == 0;
            a_free_surface_is_found(s, locked, j);
        } else {
            assert(s.is_first_free(locked, slot));
        }
    }
    assert forall|i: int|
        s.is_first_free(locked, slot) && #[trigger] s.is_first_free(locked, i) implies i == slot by {
        if i < slot {
            assert(s.syncs[i] is Some || locked[i] != 0);
        } else if slot < i {
            assert(s.syncs[slot] is Some || locked[slot] != 0);
        }
    }
}

} // verus!
