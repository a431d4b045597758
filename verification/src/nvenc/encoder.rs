//! Coding with an NVENC session.
//!
//! A session owns a ring of input surfaces. The driver may hold a surface
//! after a picture was submitted on it, and writing the next picture there
//! would put its pixels into the older picture's packet. So a picture only
//! ever goes into a surface with nothing outstanding, and where there is none
//! the packet that has been waiting longest is collected first.
//!
//! The host performs what the methods ask for and reports what the driver
//! answered:
//!
//! 1. [`NvencEncoder::begin_frame`] names the slot to collect from or to
//!    upload into; [`NvencEncoder::collected`] takes the collected packet.
//! 2. [`NvencEncoder::picture`] says what to submit.
//! 3. [`NvencEncoder::submitted`] takes the driver's status, and
//!    [`NvencEncoder::drained`] the packet where one is due.

use std::collections::VecDeque;
use vstd::prelude::*;

use super::api::{
    MAX_BITSTREAM_BYTES, NV_ENC_ERR_ENCODER_BUSY, NV_ENC_ERR_ENCODER_NOT_INITIALIZED,
    NV_ENC_ERR_INVALID_PARAM, NV_ENC_ERR_INVALID_PTR, NV_ENC_ERR_LOCK_BUSY,
    NV_ENC_ERR_NEED_MORE_INPUT, NV_ENC_PIC_FLAG_EOS, NV_ENC_PIC_FLAG_FORCEIDR,
    NV_ENC_PIC_PARAMS_VER, NV_ENC_PIC_STRUCT_FRAME, NV_ENC_PIC_TYPE_I, NV_ENC_PIC_TYPE_IDR,
    NV_ENC_PIC_TYPE_P, NV_ENC_SUCCESS, RING_SIZE,
};
use super::plan;
use crate::config::EncoderConfig;
use crate::frame::{PixelFormat, VideoCodec};
use crate::packet::{self, bytes_from_vec, bytes_slice, packet_of, EncodedPacket, PacketView};
use crate::text::{self, push_dec};

verus! {

/// Why coding failed.
#[derive(Debug, Clone, Copy, PartialEq, Eq, Structural)]
#[allow(inconsistent_fields)]
pub enum NvencError {
    /// The picture is not in the session's format.
    FormatMismatch { configured: PixelFormat, got: PixelFormat },
    /// Every slot is busy and none is known to be waiting.
    NoneRecorded,
    /// The driver gave no packet for the slot that has waited longest.
    HeldForever { slot: usize },
    /// The driver refused to lock a bitstream.
    LockFailed { status: u32, fatal: bool },
    /// The driver claims a packet larger than its buffer.
    ImplausibleSize { size: u32 },
    /// The driver refused to unlock a bitstream.
    UnlockFailed { status: u32 },
    /// The driver refused a picture.
    EncodeFailed { status: u32 },
    /// The driver has no way to restart a session in place.
    ResetUnsupported,
    /// The driver refused to restart the session.
    ReconfigureFailed { status: u32 },
}

impl NvencError {
    /// The error in words.
    pub open spec fn text(self) -> Seq<char> {
        match self {
            NvencError::FormatMismatch { configured, got } =>
                "NVENC session was initialized with "@ + configured.label() + " but frame is "@
                + got.label(),
            NvencError::NoneRecorded => "every NVENC slot busy but none recorded"@,
            NvencError::HeldForever { slot } => "NVENC slot "@ + text::dec(slot as nat)
                + " yielded no packet on a blocking lock. The                              encoder is holding "@ + text::dec(
                RING_SIZE as nat,
            )
                + " frames and will not release one;                              overwriting a held surface would emit the wrong picture."@,
            NvencError::LockFailed { status, fatal } => (if fatal {
                "NvEncLockBitstream failed (fatal): "@
            } else {
                "NvEncLockBitstream failed: "@
            }) + text::dec(status as nat),
            NvencError::ImplausibleSize { size } => "NvEncLockBitstream returned implausible size "@
                + text::dec(size as nat) + " bytes (max "@ + text::dec(MAX_BITSTREAM_BYTES as nat)
                + ") — likely NV_ENC_LOCK_BITSTREAM struct layout drift"@,
            NvencError::UnlockFailed { status } => "NvEncUnlockBitstream failed: "@ + text::dec(
                status as nat,
            ),
            NvencError::EncodeFailed { status } => "NvEncEncodePicture failed: "@ + text::dec(
                status as nat,
            ),
            NvencError::ResetUnsupported => "this driver cannot restart a session in place"@,
            NvencError::ReconfigureFailed { status } =>
                "NvEncReconfigureEncoder (resetEncoder=1, forceIDR=1) failed: "@ + text::dec(
                status as nat,
            ),
        }
    }

    /// The error in words.
    pub fn message(&self) -> (s: String)
        ensures
            s@ == self.text(),
    {
        let mut out: String = String::new();
        match self {
            NvencError::FormatMismatch { configured, got } => {
                out.append("NVENC session was initialized with ");
                out.append(configured.name());
                out.append(" but frame is ");
                out.append(got.name());
            },
            NvencError::NoneRecorded => {
                out.append("every NVENC slot busy but none recorded");
            },
            NvencError::HeldForever { slot } => {
                out.append("NVENC slot ");
                push_dec(&mut out, *slot as u128);
                out.append(" yielded no packet on a blocking lock. The                              encoder is holding ");
                push_dec(&mut out, RING_SIZE as u128);
                out.append(
                    " frames and will not release one;                              overwriting a held surface would emit the wrong picture.",
                );
            },
            NvencError::LockFailed { status, fatal } => {
                out.append(
                    if *fatal {
                        "NvEncLockBitstream failed (fatal): "
                    } else {
                        "NvEncLockBitstream failed: "
                    },
                );
                push_dec(&mut out, *status as u128);
            },
            NvencError::ImplausibleSize { size } => {
                out.append("NvEncLockBitstream returned implausible size ");
                push_dec(&mut out, *size as u128);
                out.append(" bytes (max ");
                push_dec(&mut out, MAX_BITSTREAM_BYTES as u128);
                out.append(") — likely NV_ENC_LOCK_BITSTREAM struct layout drift");
            },
            NvencError::UnlockFailed { status } => {
                out.append("NvEncUnlockBitstream failed: ");
                push_dec(&mut out, *status as u128);
            },
            NvencError::EncodeFailed { status } => {
                out.append("NvEncEncodePicture failed: ");
                push_dec(&mut out, *status as u128);
            },
            NvencError::ResetUnsupported => {
                out.append("this driver cannot restart a session in place");
            },
            NvencError::ReconfigureFailed { status } => {
                out.append("NvEncReconfigureEncoder (resetEncoder=1, forceIDR=1) failed: ");
                push_dec(&mut out, *status as u128);
            },
        }
        assert(out@ =~= self.text());
        out
    }
}

/// What the driver answered when a slot's bitstream was locked.
pub enum LockAnswer {
    /// The lock was refused with this status.
    Refused { status: u32 },
    /// The lock was granted. `bytes` is what was read, `size` what the driver
    /// claims; the bitstream has been unlocked again with `unlock_status`.
    Granted {
        size: u32,
        bytes: Vec<u8>,
        picture_type: u32,
        time_stamp: u64,
        frame_idx: u32,
        unlock_status: u32,
    },
}

/// A packet read from a slot, and the picture it belongs to.
#[derive(Debug)]
pub struct Drained {
    pub frame_idx: u32,
    pub packet: EncodedPacket,
}

/// Whether a lock status means "no packet here".
pub open spec fn means_empty(status: u32) -> bool {
    ||| status == NV_ENC_ERR_NEED_MORE_INPUT
    ||| status == NV_ENC_ERR_LOCK_BUSY
    ||| status == NV_ENC_ERR_ENCODER_BUSY
    ||| status == NV_ENC_ERR_INVALID_PARAM
}

/// Whether a lock status means the session is beyond use.
pub open spec fn means_fatal(status: u32) -> bool {
    status == NV_ENC_ERR_INVALID_PTR || status == NV_ENC_ERR_ENCODER_NOT_INITIALIZED
}

/// A packet as the driver's answer describes it.
pub open spec fn answered_packet(bytes: Seq<u8>, time_stamp: u64, picture_type: u32) -> PacketView {
    PacketView {
        bytes,
        pts: time_stamp,
        is_keyframe: picture_type == NV_ENC_PIC_TYPE_IDR || picture_type == NV_ENC_PIC_TYPE_I,
    }
}

/// What an answer amounts to: a packet of picture `frame_idx`, nothing, or an
/// error.
pub open spec fn reads(answer: LockAnswer, r: Result<Option<Drained>, NvencError>) -> bool {
    match answer {
        LockAnswer::Refused { status } => if means_empty(status) {
            r matches Ok(None)
        } else {
            r == Err::<Option<Drained>, NvencError>(
                NvencError::LockFailed { status, fatal: means_fatal(status) },
            )
        },
        LockAnswer::Granted { size, bytes, picture_type, time_stamp, frame_idx, unlock_status } => {
            if size > MAX_BITSTREAM_BYTES {
                r == Err::<Option<Drained>, NvencError>(NvencError::ImplausibleSize { size })
            } else if unlock_status != NV_ENC_SUCCESS {
                r == Err::<Option<Drained>, NvencError>(
                    NvencError::UnlockFailed { status: unlock_status },
                )
            } else if size == 0 {
                r matches Ok(None)
            } else {
                &&& r matches Ok(Some(d))
                &&& d.frame_idx == frame_idx
                &&& d.packet@ == answered_packet(bytes@, time_stamp, picture_type)
            }
        },
    }
}

/// Turn the driver's answer for one slot into a packet.
pub fn drain_bitstream(answer: &LockAnswer) -> (r: Result<Option<Drained>, NvencError>)
    ensures
        reads(*answer, r),
{
    match answer {
        LockAnswer::Refused { status } => {
            let s: u32 = *status;
            if s == NV_ENC_ERR_NEED_MORE_INPUT || s == NV_ENC_ERR_LOCK_BUSY || s
                == NV_ENC_ERR_ENCODER_BUSY || s == NV_ENC_ERR_INVALID_PARAM {
                return Ok(None);
            }
            Err(
                NvencError::LockFailed {
                    status: s,
                    fatal: s == NV_ENC_ERR_INVALID_PTR || s == NV_ENC_ERR_ENCODER_NOT_INITIALIZED,
                },
            )
        },
        LockAnswer::Granted { size, bytes, picture_type, time_stamp, frame_idx, unlock_status } => {
            if *size as u64 > MAX_BITSTREAM_BYTES {
                return Err(NvencError::ImplausibleSize { size: *size });
            }
            if *unlock_status != NV_ENC_SUCCESS {
                return Err(NvencError::UnlockFailed { status: *unlock_status });
            }
            if *size == 0 {
                return Ok(None);
            }
            let key: bool = *picture_type == NV_ENC_PIC_TYPE_IDR || *picture_type
                == NV_ENC_PIC_TYPE_I;
            Ok(
                Some(
                    Drained {
                        frame_idx: *frame_idx,
                        packet: packet_of(bytes.as_slice(), *time_stamp, key),
                    },
                ),
            )
        },
    }
}

/// What the host does before it can upload a picture.
#[derive(Debug, Clone, Copy, PartialEq, Eq, Structural)]
pub enum SlotStep {
    /// Lock this slot's bitstream, waiting for it, and report the answer to
    /// [`NvencEncoder::collected`].
    Collect(usize),
    /// Upload into this slot.
    Upload(usize),
}

/// What to submit for a picture.
#[derive(Debug, Clone, Copy, PartialEq, Eq, Structural)]
pub struct PictureParams {
    pub version: u32,
    pub width: u32,
    pub height: u32,
    pub slot: usize,
    pub frame_idx: u32,
    pub time_stamp: u64,
    pub picture_struct: u32,
    pub picture_type: u32,
    pub flags: u32,
}

/// What the host does after the driver answered a submission.
#[derive(Debug, Clone, Copy, PartialEq, Eq, Structural)]
pub enum SubmitStep {
    /// Lock the slot's bitstream, waiting for it, and report the answer to
    /// [`NvencEncoder::drained`].
    Drain,
    /// The driver holds the picture; the frame is done.
    Held,
}

/// What the host does to end a stream.
#[derive(Debug)]
pub enum FlushStep {
    /// The stream was ended before.
    Done,
    /// Submit the end-of-stream picture on `output_slot`, then lock every slot
    /// of `walk` in turn without waiting and report each answer to
    /// [`NvencEncoder::flushed_slot`]; then call [`NvencEncoder::flush_end`].
    EndOfStream { output_slot: usize, flags: u32, walk: Vec<usize> },
}

/// What a session's bookkeeping amounts to.
#[verifier::ext_equal]
pub struct NvencState {
    /// Packets collected in this stream, oldest first.
    pub packets: Seq<PacketView>,
    /// How many of them were handed out.
    pub taken: int,
    pub flushed: bool,
    /// Pictures submitted over the life of the session.
    pub submitted: int,
    /// Pictures submitted in this stream.
    pub position: int,
    /// Parameter sets that the next packet must carry.
    pub headers: Option<Seq<u8>>,
    /// Where the end-of-stream walk starts.
    pub turn: int,
    /// The newest picture collected from each slot, -1 for none.
    pub newest: Seq<int>,
    /// Whether the driver holds each slot.
    pub held: Seq<bool>,
    /// Slots with a packet due, oldest first.
    pub waiting: Seq<int>,
}

/// An NVENC session as the host drives it.
pub struct NvencEncoder {
    config: EncoderConfig,
    encoded_packets: Vec<EncodedPacket>,
    packet_cursor: usize,
    flushed: bool,
    frame_counter: u32,
    chunk_frames: u32,
    pending_headers: Option<Vec<u8>>,
    ring_idx: usize,
    last_drained_frame_idx: Vec<i64>,
    slot_in_flight: Vec<bool>,
    inflight: VecDeque<usize>,
}

/// Whether a session can be restarted in place.
pub open spec fn can_restart(
    codec: VideoCodec,
    can_reconfigure: bool,
    can_read_headers: bool,
) -> bool {
    can_reconfigure && (codec == VideoCodec::Av1 || can_read_headers)
}

/// What the driver's status for a restart leads to: whether the parameter sets
/// have to be read before the next picture, or an error.
pub open spec fn restart_outcome(codec: VideoCodec, status: u32) -> Result<bool, NvencError> {
    if status == NV_ENC_SUCCESS {
        Ok(codec != VideoCodec::Av1)
    } else {
        Err(NvencError::ReconfigureFailed { status })
    }
}

/// A packet with the parameter sets that were owed in front of it.
pub open spec fn headed(headers: Option<Seq<u8>>, p: PacketView) -> PacketView {
    match headers {
        Some(h) => PacketView { bytes: h + p.bytes, ..p },
        None => p,
    }
}

impl NvencState {
    /// The bookkeeping of a session in which no operation failed: a slot that
    /// waits is held, no slot waits twice, and counts are in range.
    pub open spec fn valid(self) -> bool {
        &&& self.newest.len() == RING_SIZE
        &&& self.held.len() == RING_SIZE
        &&& 0 <= self.turn < RING_SIZE
        &&& 0 <= self.taken <= self.packets.len()
        &&& 0 <= self.position <= self.submitted <= u32::MAX
        &&& forall|k: int|
            0 <= k < self.waiting.len() ==> 0 <= #[trigger] self.waiting[k] < RING_SIZE
                && self.held[self.waiting[k]]
        &&& forall|j: int, k: int|
            0 <= j < k < self.waiting.len() ==> #[trigger] self.waiting[j]
                != #[trigger] self.waiting[k]
        &&& forall|i: int| 0 <= i < RING_SIZE ==> -1 <= #[trigger] self.newest[i] <= u32::MAX
    }

    /// Every picture of the stream has yielded its packet or is waited for.
    pub open spec fn balanced(self) -> bool {
        self.packets.len() + self.waiting.len() == self.position
    }

    /// Whether the next picture of the stream opens a group of pictures.
    pub open spec fn at_keyframe(self, interval: u32) -> bool {
        if interval == 0 {
            self.position == 0
        } else {
            self.position % (interval as int) == 0
        }
    }

    /// The first slot with nothing outstanding.
    pub open spec fn is_first_free(self, slot: int) -> bool {
        &&& 0 <= slot < RING_SIZE
        &&& !self.held[slot]
        &&& forall|j: int| 0 <= j < slot ==> #[trigger] self.held[j]
    }

    /// A packet of picture `frame_idx` arrived from a slot.
    pub open spec fn queued(self, slot: int, frame_idx: int, p: PacketView) -> NvencState {
        NvencState {
            packets: self.packets.push(headed(self.headers, p)),
            headers: None,
            newest: self.newest.update(slot, frame_idx),
            ..self
        }
    }

    /// The oldest waiting slot was taken off the list.
    pub open spec fn oldest_taken(self) -> NvencState {
        NvencState { waiting: self.waiting.subrange(1, self.waiting.len() as int), ..self }
    }

    /// A slot was given back by the driver.
    pub open spec fn released(self, slot: int) -> NvencState {
        NvencState { held: self.held.update(slot, false), ..self }
    }

    /// A picture was submitted.
    pub open spec fn counted(self) -> NvencState {
        NvencState { submitted: self.submitted + 1, position: self.position + 1, ..self }
    }

    /// The driver keeps the picture on this slot.
    pub open spec fn kept(self, slot: int) -> NvencState {
        NvencState {
            held: self.held.update(slot, true),
            waiting: self.waiting.push(slot),
            ..self
        }
    }

    /// The end-of-stream walk starts one slot further on.
    pub open spec fn turned(self) -> NvencState {
        NvencState { turn: (self.turn + 1) % (RING_SIZE as int), ..self }
    }

    /// What to submit for a picture shown at `pts` and uploaded into `slot`.
    pub open spec fn picture_for(self, c: EncoderConfig, slot: usize, pts: u64) -> PictureParams {
        PictureParams {
            version: NV_ENC_PIC_PARAMS_VER,
            width: c.width,
            height: c.height,
            slot,
            frame_idx: self.submitted as u32,
            time_stamp: pts,
            picture_struct: NV_ENC_PIC_STRUCT_FRAME,
            picture_type: if self.at_keyframe(c.keyframe_interval) {
                NV_ENC_PIC_TYPE_IDR
            } else {
                NV_ENC_PIC_TYPE_P
            },
            flags: if self.at_keyframe(c.keyframe_interval) {
                NV_ENC_PIC_FLAG_FORCEIDR
            } else {
                0
            },
        }
    }

    /// The driver answered a submission on `slot`.
    pub open spec fn after_submit(self, slot: int, status: u32) -> (
        NvencState,
        Result<SubmitStep, NvencError>,
    ) {
        if status == NV_ENC_SUCCESS {
            (self.counted(), Ok(SubmitStep::Drain))
        } else if status == NV_ENC_ERR_NEED_MORE_INPUT {
            (self.counted().kept(slot).turned(), Ok(SubmitStep::Held))
        } else {
            (self.counted(), Err(NvencError::EncodeFailed { status }))
        }
    }

    /// The slot that has waited longest was locked.
    pub open spec fn after_collect(
        self,
        slot: usize,
        read: Result<Option<Drained>, NvencError>,
    ) -> (NvencState, Result<(), NvencError>) {
        match read {
            Ok(Some(d)) => (
                self.queued(slot as int, d.frame_idx as int, d.packet@).released(slot as int),
                Ok(()),
            ),
            Ok(None) => (self, Err(NvencError::HeldForever { slot })),
            Err(e) => (self, Err(e)),
        }
    }

    /// The slot of an accepted picture was locked.
    pub open spec fn after_drain(self, slot: int, read: Result<Option<Drained>, NvencError>) -> (
        NvencState,
        Result<(), NvencError>,
    ) {
        match read {
            Ok(Some(d)) => (
                self.queued(slot, d.frame_idx as int, d.packet@).released(slot).turned(),
                Ok(()),
            ),
            Ok(None) => (self.kept(slot).turned(), Ok(())),
            Err(e) => (self, Err(e)),
        }
    }

    /// A slot of the end-of-stream walk was locked.
    pub open spec fn after_walk(self, slot: int, read: Result<Option<Drained>, NvencError>) -> (
        NvencState,
        Result<(), NvencError>,
    ) {
        match read {
            Ok(Some(d)) => if d.frame_idx > self.newest[slot] {
                (self.queued(slot, d.frame_idx as int, d.packet@), Ok(()))
            } else {
                (self, Ok(()))
            },
            Ok(None) => (self, Ok(())),
            Err(e) => (self, Err(e)),
        }
    }

    /// Whether ending the stream asks the driver for nothing.
    pub open spec fn ends_at_once(self) -> bool {
        self.flushed || self.packets.len() >= self.position
    }

    /// The slots that are walked to end a stream, in order.
    pub open spec fn is_walk(self, walk: Seq<usize>) -> bool {
        &&& walk.len() == RING_SIZE
        &&& forall|k: int|
            0 <= k < RING_SIZE ==> #[trigger] walk[k] == (self.turn + k) % (RING_SIZE as int)
    }

    /// A new stream was started on the session.
    pub open spec fn restarted(self, codec: VideoCodec, headers: Seq<u8>) -> NvencState {
        NvencState {
            packets: Seq::empty(),
            taken: 0,
            flushed: false,
            position: 0,
            headers: if codec == VideoCodec::Av1 {
                None
            } else {
                Some(headers)
            },
            held: Seq::new(RING_SIZE as nat, |i: int| false),
            waiting: Seq::empty(),
            ..self
        }
    }

    /// The next packet was asked for.
    pub open spec fn after_receive(self) -> NvencState {
        if self.taken < self.packets.len() {
            NvencState { taken: self.taken + 1, ..self }
        } else {
            self
        }
    }

    /// The packet that is handed out next, if one is ready.
    pub open spec fn next_packet(self) -> Option<PacketView> {
        if self.taken < self.packets.len() {
            Some(self.packets[self.taken])
        } else {
            None
        }
    }
}

proof fn push_view(packets: Seq<EncodedPacket>, p: EncodedPacket)
    ensures
        packet::packet_views(packets.push(p)) == packet::packet_views(packets).push(p@),
{
    assert(packet::packet_views(packets.push(p)) =~= packet::packet_views(packets).push(p@));
}

/// Position of the first slot that the driver does not hold.
pub fn first_free_slot(held: &[bool]) -> (slot: Option<usize>)
    ensures
        match slot {
            Some(i) => {
                &&& i < held@.len()
                &&& !held@[i as int]
                &&& forall|j: int| 0 <= j < i ==> #[trigger] held@[j]
            },
            None => forall|j: int| 0 <= j < held@.len() ==> #[trigger] held@[j],
        },
{
    let mut i: usize = 0;
    while i < held.len()
        invariant
            i <= held@.len(),
            forall|j: int| 0 <= j < i ==> #[trigger] held@[j],
        decreases held@.len() - i,
    {
        if !held[i] {
            return Some(i);
        }
        i = i + 1;
    }
    None
}

fn concat(head: &[u8], tail: &[u8]) -> (v: Vec<u8>)
    ensures
        v@ == head@ + tail@,
{
    let mut v: Vec<u8> = Vec::new();
    v.extend_from_slice(head);
    v.extend_from_slice(tail);
    assert(v@ =~= head@ + tail@);
    v
}

impl NvencEncoder {
    /// The session's bookkeeping.
    pub closed spec fn state(self) -> NvencState {
        NvencState {
            packets: packet::packet_views(self.encoded_packets@),
            taken: self.packet_cursor as int,
            flushed: self.flushed,
            submitted: self.frame_counter as int,
            position: self.chunk_frames as int,
            headers: match self.pending_headers {
                Some(h) => Some(h@),
                None => None,
            },
            turn: self.ring_idx as int,
            newest: self.last_drained_frame_idx@.map_values(|v: i64| v as int),
            held: self.slot_in_flight@,
            waiting: self.inflight@.map_values(|v: usize| v as int),
        }
    }

    /// The configuration the session was opened with.
    pub closed spec fn configuration(self) -> EncoderConfig {
        self.config
    }

    /// Bookkeeping for a session that was just opened.
    pub fn new(config: EncoderConfig) -> (e: Self)
        requires
            plan::buffer_format(config.pixel_format) is Some,
        ensures
            e.configuration() == config,
            e.state().valid(),
            e.state().balanced(),
            e.state().packets.len() == 0,
            e.state().position == 0,
            e.state().submitted == 0,
            !e.state().flushed,
            e.state().headers is None,
            e.state().turn == 0,
            forall|i: int| 0 <= i < RING_SIZE ==> !(#[trigger] e.state().held[i]),
            forall|i: int| 0 <= i < RING_SIZE ==> #[trigger] e.state().newest[i] == -1,
    {
        let mut last: Vec<i64> = Vec::new();
        let mut held: Vec<bool> = Vec::new();
        let mut i: usize = 0;
        while i < RING_SIZE
            invariant
                i <= RING_SIZE,
                last@.len() == i,
                held@.len() == i,
                forall|j: int| 0 <= j < i ==> last@[j] == -1,
                forall|j: int| 0 <= j < i ==> !held@[j],
            decreases RING_SIZE - i,
        {
            last.push(-1);
            held.push(false);
            i = i + 1;
        }
        NvencEncoder {
            config,
            encoded_packets: Vec::new(),
            packet_cursor: 0,
            flushed: false,
            frame_counter: 0,
            chunk_frames: 0,
            pending_headers: None,
            ring_idx: 0,
            last_drained_frame_idx: last,
            slot_in_flight: held,
            inflight: VecDeque::new(),
        }
    }

    /// Queue a packet, giving the first one after a restart the parameter sets
    /// it is owed.
    fn queue_packet(&mut self, slot: usize, d: Drained)
        requires
            old(self).state().valid(),
            slot < RING_SIZE,
        ensures
            final(self).configuration() == old(self).configuration(),
            final(self).state() == old(self).state().queued(
                slot as int,
                d.frame_idx as int,
                d.packet@,
            ),
    {
        let ghost before = self.encoded_packets@;
        let ghost newest = self.last_drained_frame_idx@;
        self.last_drained_frame_idx.set(slot, d.frame_idx as i64);
        let packet: EncodedPacket = match self.pending_headers.take() {
            Some(h) => EncodedPacket {
                data: bytes_from_vec(concat(h.as_slice(), bytes_slice(&d.packet.data))),
                pts: d.packet.pts,
                is_keyframe: d.packet.is_keyframe,
            },
            None => d.packet,
        };
        proof {
            push_view(before, packet);
            assert(self.last_drained_frame_idx@.map_values(|v: i64| v as int)
                =~= newest.map_values(|v: i64| v as int).update(
                slot as int,
                d.frame_idx as int,
            ));
        }
        self.encoded_packets.push(packet);
        assert(self.state() =~= old(self).state().queued(
            slot as int,
            d.frame_idx as int,
            d.packet@,
        ));
    }

    /// Start on a picture in `format`: the slot to upload into, or, where the
    /// driver holds every slot, the one to collect from first.
    pub fn begin_frame(&mut self, format: PixelFormat) -> (r: Result<SlotStep, NvencError>)
        requires
            old(self).state().valid(),
        ensures
            final(self).configuration() == old(self).configuration(),
            final(self).state().valid(),
            format != old(self).configuration().pixel_format ==> {
                &&& r == Err::<SlotStep, NvencError>(
                    NvencError::FormatMismatch {
                        configured: old(self).configuration().pixel_format,
                        got: format,
                    },
                )
                &&& final(self).state() == old(self).state()
            },
            format == old(self).configuration().pixel_format ==> match r {
                Ok(SlotStep::Upload(slot)) => {
                    &&& old(self).state().is_first_free(slot as int)
                    &&& final(self).state() == old(self).state()
                },
                Ok(SlotStep::Collect(slot)) => {
                    &&& forall|i: int| 0 <= i < RING_SIZE ==> #[trigger] old(self).state().held[i]
                    &&& old(self).state().waiting.len() > 0
                    &&& slot == old(self).state().waiting[0]
                    &&& final(self).state() == old(self).state().oldest_taken()
                },
                Err(e) => {
                    &&& forall|i: int| 0 <= i < RING_SIZE ==> #[trigger] old(self).state().held[i]
                    &&& old(self).state().waiting.len() == 0
                    &&& e == NvencError::NoneRecorded
                    &&& final(self).state() == old(self).state()
                },
            },
    {
        if format != self.config.pixel_format {
            return Err(
                NvencError::FormatMismatch { configured: self.config.pixel_format, got: format },
            );
        }
        match first_free_slot(self.slot_in_flight.as_slice()) {
            Some(slot) => Ok(SlotStep::Upload(slot)),
            None => {
                let ghost queue = self.inflight@;
                assert(forall|i: int| 0 <= i < RING_SIZE ==> old(self).state().held[i]);
                match self.inflight.pop_front() {
                    Some(slot) => {
                        assert(self.inflight@.map_values(|v: usize| v as int)
                            =~= queue.map_values(|v: usize| v as int).subrange(
                            1,
                            queue.len() as int,
                        ));
                        Ok(SlotStep::Collect(slot))
                    },
                    None => {
                        assert(queue.map_values(|v: usize| v as int).len() == 0);
                        Err(NvencError::NoneRecorded)
                    },
                }
            },
        }
    }

    /// Take the packet collected from `slot`; the slot can then be uploaded
    /// into. A driver that gives none keeps the slot, and coding cannot go on.
    pub fn collected(&mut self, slot: usize, answer: &LockAnswer) -> (r: Result<(), NvencError>)
        requires
            old(self).state().valid(),
            slot < RING_SIZE,
        ensures
            final(self).configuration() == old(self).configuration(),
            !old(self).state().waiting.contains(slot as int) ==> final(self).state().valid(),
            exists|read: Result<Option<Drained>, NvencError>| #[trigger]
                reads(*answer, read) && (final(self).state(), r) == old(self).state().after_collect(
                    slot,
                    read,
                ) && match read {
                    Ok(Some(d)) => {
                        &&& r is Ok
                        &&& final(self).state() == old(self).state().queued(
                            slot as int,
                            d.frame_idx as int,
                            d.packet@,
                        ).released(slot as int)
                    },
                    Ok(None) => {
                        &&& r == Err::<(), NvencError>(NvencError::HeldForever { slot })
                        &&& final(self).state() == old(self).state()
                    },
                    Err(e) => {
                        &&& r == Err::<(), NvencError>(e)
                        &&& final(self).state() == old(self).state()
                    },
                },
    {
        let read: Result<Option<Drained>, NvencError> = drain_bitstream(answer);
        let ghost seen = read;
        assert(reads(*answer, seen));
        match read {
            Ok(Some(d)) => {
                self.queue_packet(slot, d);
                let ghost mid = self.state();
                self.slot_in_flight.set(slot, false);
                assert(self.state() =~= mid.released(slot as int));
                Ok(())
            },
            Ok(None) => Err(NvencError::HeldForever { slot }),
            Err(e) => Err(e),
        }
    }

    /// What to submit for a picture shown at `pts` and uploaded into `slot`.
    /// The first picture of a stream, and every one a keyframe interval after
    /// it, is forced to be an IDR.
    pub fn picture(&self, slot: usize, pts: u64) -> (p: PictureParams)
        requires
            self.state().valid(),
        ensures
            p == self.state().picture_for(self.configuration(), slot, pts),
            p == (PictureParams {
                version: NV_ENC_PIC_PARAMS_VER,
                width: self.configuration().width,
                height: self.configuration().height,
                slot,
                frame_idx: self.state().submitted as u32,
                time_stamp: pts,
                picture_struct: NV_ENC_PIC_STRUCT_FRAME,
                picture_type: if self.state().at_keyframe(self.configuration().keyframe_interval) {
                    NV_ENC_PIC_TYPE_IDR
                } else {
                    NV_ENC_PIC_TYPE_P
                },
                flags: if self.state().at_keyframe(self.configuration().keyframe_interval) {
                    NV_ENC_PIC_FLAG_FORCEIDR
                } else {
                    0
                },
            }),
    {
        let interval: u32 = self.config.keyframe_interval;
        let idr: bool = if interval == 0 {
            self.chunk_frames == 0
        } else {
            self.chunk_frames % interval == 0
        };
        PictureParams {
            version: NV_ENC_PIC_PARAMS_VER,
            width: self.config.width,
            height: self.config.height,
            slot,
            frame_idx: self.frame_counter,
            time_stamp: pts,
            picture_struct: NV_ENC_PIC_STRUCT_FRAME,
            picture_type: if idr {
                NV_ENC_PIC_TYPE_IDR
            } else {
                NV_ENC_PIC_TYPE_P
            },
            flags: if idr {
                NV_ENC_PIC_FLAG_FORCEIDR
            } else {
                0
            },
        }
    }

    /// Take the driver's status for the picture submitted on `slot`.
    pub fn submitted(&mut self, slot: usize, status: u32) -> (r: Result<SubmitStep, NvencError>)
        requires
            old(self).state().valid(),
            old(self).state().submitted < u32::MAX,
            slot < RING_SIZE,
        ensures
            final(self).configuration() == old(self).configuration(),
            !old(self).state().held[slot as int] ==> final(self).state().valid(),
            status == NV_ENC_SUCCESS ==> {
                &&& r == Ok::<SubmitStep, NvencError>(SubmitStep::Drain)
                &&& final(self).state() == old(self).state().counted()
            },
            status == NV_ENC_ERR_NEED_MORE_INPUT ==> {
                &&& r == Ok::<SubmitStep, NvencError>(SubmitStep::Held)
                &&& final(self).state() == old(self).state().counted().kept(slot as int).turned()
            },
            status != NV_ENC_SUCCESS && status != NV_ENC_ERR_NEED_MORE_INPUT ==> {
                &&& r == Err::<SubmitStep, NvencError>(NvencError::EncodeFailed { status })
                &&& final(self).state() == old(self).state().counted()
            },
            (final(self).state(), r) == old(self).state().after_submit(slot as int, status),
    {
        self.frame_counter = self.frame_counter + 1;
        self.chunk_frames = self.chunk_frames + 1;
        assert(self.state() =~= old(self).state().counted());
        if status == NV_ENC_SUCCESS {
            return Ok(SubmitStep::Drain);
        }
        if status == NV_ENC_ERR_NEED_MORE_INPUT {
            self.keep(slot);
            return Ok(SubmitStep::Held);
        }
        Err(NvencError::EncodeFailed { status })
    }

    /// Record that the driver keeps the picture on `slot`.
    fn keep(&mut self, slot: usize)
        requires
            old(self).state().held.len() == RING_SIZE,
            0 <= old(self).state().turn < RING_SIZE,
            slot < RING_SIZE,
        ensures
            final(self).configuration() == old(self).configuration(),
            final(self).state() == old(self).state().kept(slot as int).turned(),
    {
        let ghost queue = self.inflight@;
        self.slot_in_flight.set(slot, true);
        self.inflight.push_back(slot);
        self.ring_idx = (self.ring_idx + 1) % RING_SIZE;
        assert(self.inflight@.map_values(|v: usize| v as int) =~= queue.map_values(
            |v: usize| v as int,
        ).push(slot as int));
        assert(self.state() =~= old(self).state().kept(slot as int).turned());
    }

    /// Take the answer of the lock that follows an accepted picture. Without a
    /// packet the driver still holds the surface.
    pub fn drained(&mut self, slot: usize, answer: &LockAnswer) -> (r: Result<(), NvencError>)
        requires
            old(self).state().valid(),
            slot < RING_SIZE,
        ensures
            final(self).configuration() == old(self).configuration(),
            !old(self).state().held[slot as int] ==> final(self).state().valid(),
            exists|read: Result<Option<Drained>, NvencError>| #[trigger]
                reads(*answer, read) && (final(self).state(), r) == old(self).state().after_drain(
                    slot as int,
                    read,
                ) && match read {
                    Ok(Some(d)) => {
                        &&& r is Ok
                        &&& final(self).state() == old(self).state().queued(
                            slot as int,
                            d.frame_idx as int,
                            d.packet@,
                        ).released(slot as int).turned()
                    },
                    Ok(None) => {
                        &&& r is Ok
                        &&& final(self).state() == old(self).state().kept(slot as int).turned()
                    },
                    Err(e) => {
                        &&& r == Err::<(), NvencError>(e)
                        &&& final(self).state() == old(self).state()
                    },
                },
    {
        let read: Result<Option<Drained>, NvencError> = drain_bitstream(answer);
        let ghost seen = read;
        assert(reads(*answer, seen));
        match read {
            Ok(Some(d)) => {
                self.queue_packet(slot, d);
                let ghost mid = self.state();
                self.slot_in_flight.set(slot, false);
                self.ring_idx = (self.ring_idx + 1) % RING_SIZE;
                assert(self.state() =~= mid.released(slot as int).turned());
                Ok(())
            },
            Ok(None) => {
                self.keep(slot);
                Ok(())
            },
            Err(e) => Err(e),
        }
    }

    /// Start to end the stream: what to do before [`NvencEncoder::flush_end`].
    /// Where every picture has its packet there is nothing to wait for.
    pub fn flush_begin(&self) -> (step: FlushStep)
        requires
            self.state().valid(),
        ensures
            step is Done <==> (self.state().flushed || self.state().packets.len()
                >= self.state().position),
            step matches FlushStep::EndOfStream { output_slot, flags, walk } ==> {
                &&& output_slot == self.state().turn
                &&& flags == NV_ENC_PIC_FLAG_EOS
                &&& walk@.len() == RING_SIZE
                &&& forall|k: int|
                    0 <= k < RING_SIZE ==> #[trigger] walk@[k] == (self.state().turn + k) % (
                    RING_SIZE as int)
                &&& self.state().is_walk(walk@)
            },
            step is Done <==> self.state().ends_at_once(),
    {
        if self.flushed {
            return FlushStep::Done;
        }
        if self.encoded_packets.len() as u64 >= self.chunk_frames as u64 {
            return FlushStep::Done;
        }
        let start: usize = self.ring_idx;
        let mut walk: Vec<usize> = Vec::new();
        let mut k: usize = 0;
        while k < RING_SIZE
            invariant
                k <= RING_SIZE,
                start < RING_SIZE,
                walk@.len() == k,
                forall|j: int| 0 <= j < k ==> #[trigger] walk@[j] == (start + j) % (RING_SIZE as int),
            decreases RING_SIZE - k,
        {
            walk.push((start + k) % RING_SIZE);
            k = k + 1;
        }
        FlushStep::EndOfStream { output_slot: start, flags: NV_ENC_PIC_FLAG_EOS, walk }
    }

    /// Take the answer for one slot of the end-of-stream walk. A driver may
    /// hand back bytes that were read before; a packet that is not of a newer
    /// picture than the slot's last one is such a repeat and is dropped.
    pub fn flushed_slot(&mut self, slot: usize, answer: &LockAnswer) -> (r: Result<
        (),
        NvencError,
    >)
        requires
            old(self).state().valid(),
            slot < RING_SIZE,
        ensures
            final(self).configuration() == old(self).configuration(),
            final(self).state().valid(),
            exists|read: Result<Option<Drained>, NvencError>| #[trigger]
                reads(*answer, read) && (final(self).state(), r) == old(self).state().after_walk(
                    slot as int,
                    read,
                ) && match read {
                    Ok(Some(d)) => {
                        &&& r is Ok
                        &&& final(self).state() == (if d.frame_idx > old(
                            self,
                        ).state().newest[slot as int] {
                            old(self).state().queued(slot as int, d.frame_idx as int, d.packet@)
                        } else {
                            old(self).state()
                        })
                    },
                    Ok(None) => {
                        &&& r is Ok
                        &&& final(self).state() == old(self).state()
                    },
                    Err(e) => {
                        &&& r == Err::<(), NvencError>(e)
                        &&& final(self).state() == old(self).state()
                    },
                },
    {
        let read: Result<Option<Drained>, NvencError> = drain_bitstream(answer);
        let ghost seen = read;
        assert(reads(*answer, seen));
        match read {
            Ok(Some(d)) => {
                assert(old(self).state().newest[slot as int]
                    == self.last_drained_frame_idx@[slot as int]);
                if d.frame_idx as i64 > self.last_drained_frame_idx[slot] {
                    self.queue_packet(slot, d);
                }
                Ok(())
            },
            Ok(None) => Ok(()),
            Err(e) => Err(e),
        }
    }

    /// The stream has ended, after the walk where there was one.
    pub fn flush_end(&mut self)
        requires
            old(self).state().valid(),
        ensures
            final(self).configuration() == old(self).configuration(),
            final(self).state().valid(),
            final(self).state() == (NvencState { flushed: true, ..old(self).state() }),
    {
        self.flushed = true;
        assert(self.state() =~= (NvencState { flushed: true, ..old(self).state() }));
    }

    /// The next packet of the stream, if one is ready.
    pub fn receive_packet(&mut self) -> (p: Option<EncodedPacket>)
        requires
            old(self).state().valid(),
        ensures
            final(self).configuration() == old(self).configuration(),
            final(self).state().valid(),
            old(self).state().taken < old(self).state().packets.len() ==> {
                &&& p matches Some(pkt)
                &&& pkt@ == old(self).state().packets[old(self).state().taken]
                &&& final(self).state() == (NvencState {
                    taken: old(self).state().taken + 1,
                    ..old(self).state()
                })
            },
            old(self).state().taken >= old(self).state().packets.len() ==> {
                &&& p is None
                &&& final(self).state() == old(self).state()
            },
            final(self).state() == old(self).state().after_receive(),
            match old(self).state().next_packet() {
                Some(v) => p matches Some(pkt) && pkt@ == v,
                None => p is None,
            },
    {
        if self.packet_cursor < self.encoded_packets.len() {
            let pkt: EncodedPacket = self.encoded_packets[self.packet_cursor].clone();
            self.packet_cursor = self.packet_cursor + 1;
            assert(self.state() =~= (NvencState {
                taken: old(self).state().taken + 1,
                ..old(self).state()
            }));
            Some(pkt)
        } else {
            None
        }
    }

    /// Whether a session can be restarted in place: the driver must be able to
    /// reconfigure, and for H.264 and H.265 to hand out the parameter sets.
    pub fn reset_check(&self, can_reconfigure: bool, can_read_headers: bool) -> (r: Result<
        (),
        NvencError,
    >)
        ensures
            r is Ok <==> can_reconfigure && (self.configuration().codec == VideoCodec::Av1
                || can_read_headers),
            r matches Err(e) ==> e == NvencError::ResetUnsupported,
            r is Ok <==> can_restart(
                self.configuration().codec,
                can_reconfigure,
                can_read_headers,
            ),
    {
        let is_av1: bool = self.config.codec == VideoCodec::Av1;
        if !can_reconfigure || (!is_av1 && !can_read_headers) {
            return Err(NvencError::ResetUnsupported);
        }
        Ok(())
    }

    /// Take the driver's status for the restart. Where it succeeded, says
    /// whether the parameter sets have to be read before the next picture: an
    /// H.264 or H.265 session writes them only once, an AV1 session with every
    /// keyframe.
    pub fn reconfigured(&self, status: u32) -> (r: Result<bool, NvencError>)
        ensures
            status == NV_ENC_SUCCESS ==> r == Ok::<bool, NvencError>(
                self.configuration().codec != VideoCodec::Av1,
            ),
            status != NV_ENC_SUCCESS ==> r == Err::<bool, NvencError>(
                NvencError::ReconfigureFailed { status },
            ),
            r == restart_outcome(self.configuration().codec, status),
    {
        if status != NV_ENC_SUCCESS {
            return Err(NvencError::ReconfigureFailed { status });
        }
        Ok(self.config.codec != VideoCodec::Av1)
    }

    /// Start a new stream on the same session, after the old one was ended and
    /// the driver reconfigured. `headers` are the parameter sets the driver
    /// wrote; AV1 carries its own.
    pub fn reset_done(&mut self, headers: Vec<u8>)
        requires
            old(self).state().valid(),
        ensures
            final(self).configuration() == old(self).configuration(),
            final(self).state() == (NvencState {
                packets: Seq::empty(),
                taken: 0,
                flushed: false,
                position: 0,
                headers: if old(self).configuration().codec == VideoCodec::Av1 {
                    None
                } else {
                    Some(headers@)
                },
                held: Seq::new(RING_SIZE as nat, |i: int| false),
                waiting: Seq::empty(),
                ..old(self).state()
            }),
            final(self).state() == old(self).state().restarted(
                old(self).configuration().codec,
                headers@,
            ),
            final(self).state().valid(),
            final(self).state().balanced(),
    {
        self.encoded_packets.clear();
        self.packet_cursor = 0;
        self.flushed = false;
        self.chunk_frames = 0;
        self.pending_headers = if self.config.codec == VideoCodec::Av1 {
            None
        } else {
            Some(headers)
        };
        let mut held: Vec<bool> = Vec::new();
        let mut i: usize = 0;
        while i < RING_SIZE
            invariant
                i <= RING_SIZE,
                held@.len() == i,
                forall|j: int| 0 <= j < i ==> !held@[j],
            decreases RING_SIZE - i,
        {
            held.push(false);
            i = i + 1;
        }
        self.slot_in_flight = held;
        self.inflight.clear();
        assert(self.state().packets =~= Seq::empty());
        assert(self.state().waiting =~= Seq::empty());
        assert(self.state().held =~= Seq::new(RING_SIZE as nat, |i: int| false));
    }
}

/// A picture whose packet came back at once: the bookkeeping stays valid, no
/// picture is lost, and the slot is free again.
pub proof fn a_coded_picture_keeps_the_books(
    s: NvencState,
    slot: int,
    frame_idx: u32,
    p: PacketView,
)
    requires
        s.valid(),
        s.is_first_free(slot),
        s.submitted < u32::MAX,
    ensures
        s.counted().queued(slot, frame_idx as int, p).released(slot).turned().valid(),
        s.balanced() ==> s.counted().queued(slot, frame_idx as int, p).released(
            slot,
        ).turned().balanced(),
        !s.counted().queued(slot, frame_idx as int, p).released(slot).turned().held[slot],
{
    let t = s.counted().queued(slot, frame_idx as int, p).released(slot).turned();
    assert forall|k: int| 0 <= k < t.waiting.len() implies 0 <= #[trigger] t.waiting[k] < RING_SIZE
        && t.held[t.waiting[k]] by {
        assert(s.held[s.waiting[k]]);
    }
}

/// A picture the driver keeps: the bookkeeping stays valid, no picture is
/// lost, and the slot is marked so that nothing is written over it.
pub proof fn a_kept_picture_keeps_the_books(s: NvencState, slot: int)
    requires
        s.valid(),
        s.is_first_free(slot),
        s.submitted < u32::MAX,
    ensures
        s.counted().kept(slot).turned().valid(),
        s.balanced() ==> s.counted().kept(slot).turned().balanced(),
        s.counted().kept(slot).turned().held[slot],
{
    let t = s.counted().kept(slot).turned();
    assert forall|k: int| 0 <= k < t.waiting.len() implies 0 <= #[trigger] t.waiting[k] < RING_SIZE
        && t.held[t.waiting[k]] by {
        if k < s.waiting.len() {
            assert(s.held[s.waiting[k]]);
        }
    }
    assert forall|j: int, k: int| 0 <= j < k < t.waiting.len() implies #[trigger] t.waiting[j]
        != #[trigger] t.waiting[k] by {
        if k < s.waiting.len() {
        } else {
            assert(s.held[s.waiting[j]]);
        }
    }
}

/// Collecting the packet that has waited longest frees exactly its slot: the
/// bookkeeping stays valid, no picture is lost, and the freed slot is the one
/// the next search finds.
pub proof fn collecting_frees_the_oldest_slot(s: NvencState, frame_idx: u32, p: PacketView)
    requires
        s.valid(),
        s.waiting.len() > 0,
        forall|i: int| 0 <= i < RING_SIZE ==> #[trigger] s.held[i],
    ensures
        s.oldest_taken().queued(s.waiting[0], frame_idx as int, p).released(s.waiting[0]).valid(),
        s.balanced() ==> s.oldest_taken().queued(s.waiting[0], frame_idx as int, p).released(
            s.waiting[0],
        ).balanced(),
        s.oldest_taken().queued(s.waiting[0], frame_idx as int, p).released(
            s.waiting[0],
        ).is_first_free(s.waiting[0]),
{
    let slot = s.waiting[0];
    let t = s.oldest_taken().queued(slot, frame_idx as int, p).released(slot);
    assert forall|k: int| 0 <= k < t.waiting.len() implies 0 <= #[trigger] t.waiting[k] < RING_SIZE
        && t.held[t.waiting[k]] by {
        assert(t.waiting[k] == s.waiting[k + 1]);
        assert(s.held[s.waiting[k + 1]]);
        assert(s.waiting[0] != s.waiting[k + 1]);
    }
    assert forall|j: int, k: int| 0 <= j < k < t.waiting.len() implies #[trigger] t.waiting[j]
        != #[trigger] t.waiting[k] by {
        assert(t.waiting[j] == s.waiting[j + 1]);
        assert(t.waiting[k] == s.waiting[k + 1]);
    }
    assert(0 <= slot < RING_SIZE);
}

/// A slot the driver still holds is never the one a picture goes into.
pub proof fn a_held_slot_is_never_chosen(s: NvencState, slot: int, waiting: int)
    requires
        s.valid(),
        s.is_first_free(slot),
        0 <= waiting < s.waiting.len(),
    ensures
        s.waiting[waiting] != slot,
{
}

/// While no picture was lost, ending a stream asks the driver for nothing
/// exactly where nothing is waited for.
pub proof fn ending_is_immediate_iff_nothing_waits(s: NvencState)
    requires
        s.balanced(),
    ensures
        s.packets.len() >= s.position <==> s.waiting.len() == 0,
{
}

/// The first picture of a stream opens it with an IDR, whatever the interval;
/// with an interval, so does every picture that many later.
pub proof fn streams_open_on_a_keyframe(s: NvencState, interval: u32, n: int)
    requires
        0 <= n,
    ensures
        s.position == 0 ==> s.at_keyframe(interval),
        interval > 0 && s.position == n * interval ==> s.at_keyframe(interval),
{
    if interval > 0 {
        vstd::arithmetic::div_mod::lemma_small_mod(0, interval as nat);
    }
    if interval > 0 && s.position == n * interval {
        vstd::arithmetic::div_mod::lemma_mod_multiples_basic(n, interval as int);
    }
}

/// Bytes handed back a second time are not queued a second time: after a
/// packet of a picture was queued from a slot, the same picture is no longer
/// newer than the slot's last.
pub proof fn a_repeat_is_never_queued(s: NvencState, slot: int, frame_idx: int, p: PacketView)
    requires
        s.valid(),
        0 <= slot < RING_SIZE,
    ensures
        !(frame_idx > s.queued(slot, frame_idx, p).newest[slot]),
{
}

/// Parameter sets go into exactly one packet: the first one queued after they
/// were set carries them, and the one after it does not.
pub proof fn headers_are_written_once(
    s: NvencState,
    h: Seq<u8>,
    slot: int,
    i: int,
    p: PacketView,
    j: int,
    q: PacketView,
)
    requires
        s.headers == Some(h),
    ensures
        s.queued(slot, i, p).packets.last().bytes == h + p.bytes,
        s.queued(slot, i, p).queued(slot, j, q).packets.last() == q,
{
}

/// A restarted session numbers its pictures on from where it was, so a packet
/// of the old stream can never be taken for one of the new.
pub proof fn a_restart_keeps_counting(s: NvencState, t: NvencState)
    requires
        s.valid(),
        t == (NvencState {
            packets: Seq::empty(),
            taken: 0,
            flushed: false,
            position: 0,
            held: Seq::new(RING_SIZE as nat, |i: int| false),
            waiting: Seq::empty(),
            headers: t.headers,
            ..s
        }),
    ensures
        t.submitted == s.submitted,
        t.newest == s.newest,
        forall|interval: u32| #[trigger] t.at_keyframe(interval),
{
    assert forall|interval: u32| #[trigger] t.at_keyframe(interval) by {
        if interval > 0 {
            vstd::arithmetic::div_mod::lemma_small_mod(0, interval as nat);
        }
    }
}

/// A granted lock is read as the driver fills it: a claim over 16 mebibytes is
/// not believed, a failed unlock is an error, an empty buffer is no packet, and
/// anything else is the packet of the picture it names, with its bytes and time
/// stamp, and a keyframe exactly where the driver marks it I or IDR.
pub proof fn granted_locks_are_read_as_they_are(
    size: u32,
    bytes: Vec<u8>,
    picture_type: u32,
    time_stamp: u64,
    frame_idx: u32,
    unlock_status: u32,
    r: Result<Option<Drained>, NvencError>,
)
    requires
        reads(
            LockAnswer::Granted {
                size,
                bytes,
                picture_type,
                time_stamp,
                frame_idx,
                unlock_status,
            },
            r,
        ),
    ensures
        r matches Ok(Some(d)) ==> {
            &&& 0 < size <= 16_777_216 && unlock_status == 0
            &&& d.frame_idx == frame_idx
            &&& d.packet@.bytes == bytes@
            &&& d.packet@.pts == time_stamp
            &&& d.packet@.is_keyframe <==> picture_type == 2 || picture_type == 3
        },
        r matches Ok(None) ==> size == 0 && unlock_status == 0,
        r matches Err(e) ==> {
            ||| e == (NvencError::ImplausibleSize { size }) && size > 16_777_216
            ||| e == (NvencError::UnlockFailed { status: unlock_status }) && unlock_status != 0
                && size <= 16_777_216
        },
{
}

/// A refused lock means that there is no packet yet where the driver wants more
/// pictures, is busy, or was asked too early; any other refusal is an error,
/// fatal where the session is gone.
pub proof fn refused_locks_are_read_as_they_are(
    status: u32,
    r: Result<Option<Drained>, NvencError>,
)
    requires
        reads(LockAnswer::Refused { status }, r),
    ensures
        r is Ok <==> status == 17 || status == 13 || status == 18 || status == 8,
        r matches Ok(d) ==> d is None,
        r matches Err(e) ==> e == (NvencError::LockFailed {
            status,
            fatal: status == 6 || status == 11,
        }),
{
}

/// A picture is submitted as it is shown: the session's size, its slot, its
/// number and time, as an IDR at the start of a stream and every keyframe
/// interval after it, and forced to be one there and nowhere else.
pub proof fn pictures_are_submitted_as_they_are_shown(
    s: NvencState,
    c: EncoderConfig,
    slot: usize,
    pts: u64,
)
    requires
        s.valid(),
    ensures
        ({
            let p = s.picture_for(c, slot, pts);
            let idr = if c.keyframe_interval == 0 {
                s.position == 0
            } else {
                s.position % (c.keyframe_interval as int) == 0
            };
            &&& p.width == c.width && p.height == c.height
            &&& p.slot == slot
            &&& p.frame_idx == s.submitted
            &&& p.time_stamp == pts
            &&& p.picture_struct == 1
            &&& p.version == NV_ENC_PIC_PARAMS_VER
            &&& idr ==> p.picture_type == 3 && p.flags == 2
            &&& !idr ==> p.picture_type == 0 && p.flags == 0
        }),
{
}

/// Every submission is counted once, whatever the driver says. A picture it
/// takes is locked for next; one it holds is waited for on its own slot, behind
/// those before it; any other status ends the picture and holds nothing.
pub proof fn every_submission_is_counted_once(s: NvencState, slot: int, status: u32)
    requires
        s.valid(),
        0 <= slot < RING_SIZE,
    ensures
        ({
            let out = s.after_submit(slot, status);
            let t = out.0;
            &&& t.submitted == s.submitted + 1
            &&& t.position == s.position + 1
            &&& t.packets == s.packets && t.taken == s.taken
            &&& t.newest == s.newest && t.headers == s.headers && t.flushed == s.flushed
            &&& match out.1 {
                Ok(SubmitStep::Drain) => status == 0 && t.held == s.held && t.waiting == s.waiting,
                Ok(SubmitStep::Held) => {
                    &&& status == 17
                    &&& t.held[slot]
                    &&& forall|i: int|
                        0 <= i < RING_SIZE && i != slot ==> #[trigger] t.held[i] == s.held[i]
                    &&& t.waiting == s.waiting.push(slot)
                },
                Err(e) => {
                    &&& e == (NvencError::EncodeFailed { status })
                    &&& status != 0 && status != 17
                    &&& t.held == s.held && t.waiting == s.waiting
                },
            }
        }),
{
}

/// A packet that was read is queued behind the others and frees its slot, after
/// an accepted picture as after a wait. An accepted picture without a packet is
/// waited for; a wait without one is an error, since nothing can be written
/// over. An error changes nothing.
pub proof fn what_was_read_is_queued_and_its_slot_freed(
    s: NvencState,
    slot: usize,
    read: Result<Option<Drained>, NvencError>,
)
    requires
        s.valid(),
        slot < RING_SIZE,
    ensures
        read matches Ok(Some(d)) ==> {
            let t = s.after_collect(slot, read).0;
            let u = s.after_drain(slot as int, read).0;
            &&& s.after_collect(slot, read).1 is Ok && s.after_drain(slot as int, read).1 is Ok
            &&& t.packets.len() == s.packets.len() + 1
            &&& u.packets == t.packets
            &&& t.packets.last().pts == d.packet@.pts
            &&& t.packets.last().is_keyframe == d.packet@.is_keyframe
            &&& s.headers is None ==> t.packets.last().bytes == d.packet@.bytes
            &&& s.headers matches Some(h) ==> t.packets.last().bytes == h + d.packet@.bytes
            &&& forall|i: int|
                0 <= i < s.packets.len() ==> #[trigger] t.packets[i] == s.packets[i]
            &&& t.headers is None && u.headers is None
            &&& !t.held[slot as int] && !u.held[slot as int]
            &&& forall|i: int|
                0 <= i < RING_SIZE && i != slot ==> #[trigger] t.held[i] == s.held[i]
            &&& forall|i: int|
                0 <= i < RING_SIZE && i != slot ==> #[trigger] u.held[i] == s.held[i]
            &&& t.newest[slot as int] == d.frame_idx && u.newest[slot as int] == d.frame_idx
            &&& t.waiting == s.waiting && u.waiting == s.waiting
            &&& t.position == s.position && u.position == s.position
        },
        read matches Ok(None) ==> {
            let u = s.after_drain(slot as int, read).0;
            &&& s.after_collect(slot, read) == (
                s,
                Err::<(), NvencError>(NvencError::HeldForever { slot }),
            )
            &&& s.after_drain(slot as int, read).1 is Ok
            &&& u.held[slot as int]
            &&& u.waiting == s.waiting.push(slot as int)
            &&& u.packets == s.packets
        },
        read matches Err(e) ==> {
            &&& s.after_collect(slot, read) == (s, Err::<(), NvencError>(e))
            &&& s.after_drain(slot as int, read) == (s, Err::<(), NvencError>(e))
            &&& s.after_walk(slot as int, read) == (s, Err::<(), NvencError>(e))
        },
{
}

/// The end-of-stream walk queues a packet exactly where its picture is newer
/// than the last one read from the slot, and never fails for want of one.
pub proof fn the_walk_queues_newer_pictures_only(
    s: NvencState,
    slot: int,
    read: Result<Option<Drained>, NvencError>,
)
    requires
        s.valid(),
        0 <= slot < RING_SIZE,
    ensures
        read is Ok ==> s.after_walk(slot, read).1 is Ok,
        read matches Ok(None) ==> s.after_walk(slot, read).0 == s,
        read matches Ok(Some(d)) ==> {
            let t = s.after_walk(slot, read).0;
            &&& d.frame_idx <= s.newest[slot] ==> t == s
            &&& d.frame_idx > s.newest[slot] ==> {
                &&& t.packets.len() == s.packets.len() + 1
                &&& t.packets.last().pts == d.packet@.pts
                &&& t.newest[slot] == d.frame_idx
                &&& t.held == s.held && t.waiting == s.waiting
            }
        },
{
}

/// The end-of-stream walk starts one slot later after every picture that was
/// coded or is held, and comes round to the first slot again.
pub proof fn the_walk_moves_on_with_every_picture(s: NvencState)
    requires
        s.valid(),
    ensures
        s.turn + 1 < 16 ==> s.turned().turn == s.turn + 1,
        s.turn == 15 ==> s.turned().turn == 0,
        s.turned().held == s.held && s.turned().waiting == s.waiting,
{
}

/// A restarted session has no packet, holds no slot and opens its stream on a
/// keyframe; H.264 and H.265 owe it the parameter sets, AV1 does not. The
/// pictures are numbered on.
pub proof fn a_restart_starts_a_stream_anew(
    s: NvencState,
    codec: VideoCodec,
    headers: Seq<u8>,
    interval: u32,
)
    requires
        s.valid(),
    ensures
        ({
            let t = s.restarted(codec, headers);
            &&& t.valid()
            &&& t.packets.len() == 0 && t.taken == 0 && !t.flushed
            &&& t.waiting.len() == 0
            &&& forall|i: int| 0 <= i < RING_SIZE ==> !(#[trigger] t.held[i])
            &&& t.position == 0 && t.at_keyframe(interval)
            &&& codec == VideoCodec::Av1 ==> t.headers is None
            &&& codec != VideoCodec::Av1 ==> t.headers == Some(headers)
            &&& t.submitted == s.submitted && t.newest == s.newest && t.turn == s.turn
        }),
{
}

/// Packets come out in the order they were queued, each once: the one handed
/// out next is the one after those handed out, whatever is queued meanwhile.
pub proof fn packets_come_out_in_order(s: NvencState, slot: int, i: int, p: PacketView)
    requires
        0 <= s.taken <= s.packets.len(),
    ensures
        s.next_packet() is Some <==> s.taken < s.packets.len(),
        s.next_packet() is Some ==> {
            &&& s.next_packet() == Some(s.packets[s.taken])
            &&& s.after_receive().taken == s.taken + 1
            &&& s.after_receive().packets == s.packets
            &&& s.queued(slot, i, p).next_packet() == s.next_packet()
        },
        s.next_packet() is None ==> s.after_receive() == s,
        s.next_packet() is None && s.headers is None ==> s.queued(slot, i, p).next_packet() == Some(
            p,
        ),
{
}

/// An AV1 session is restarted wherever the driver can reconfigure it, and any
/// other only where the parameter sets can be read too, which it then needs.
pub proof fn restarts_need_the_parameter_sets(
    codec: VideoCodec,
    can_reconfigure: bool,
    can_read_headers: bool,
    status: u32,
)
    ensures
        !can_reconfigure ==> !can_restart(codec, can_reconfigure, can_read_headers),
        can_reconfigure && can_read_headers ==> can_restart(
            codec,
            can_reconfigure,
            can_read_headers,
        ),
        can_reconfigure && !can_read_headers ==> (can_restart(
            codec,
            can_reconfigure,
            can_read_headers,
        ) <==> codec == VideoCodec::Av1),
        status == 0 && codec == VideoCodec::Av1 ==> restart_outcome(codec, status) == Ok::<
            bool,
            NvencError,
        >(false),
        status == 0 && codec != VideoCodec::Av1 ==> restart_outcome(codec, status) == Ok::<
            bool,
            NvencError,
        >(true),
        status != 0 ==> restart_outcome(codec, status) == Err::<bool, NvencError>(
            NvencError::ReconfigureFailed { status },
        ),
{
}

/// The end-of-stream walk visits every slot once, starting where the next
/// picture would have gone.
pub proof fn the_walk_visits_every_slot(s: NvencState, walk: Seq<usize>, slot: int)
    requires
        s.valid(),
        s.is_walk(walk),
        0 <= slot < RING_SIZE,
    ensures
        walk.len() == 16,
        walk[0] == s.turn,
        exists|k: int| 0 <= k < walk.len() && #[trigger] walk[k] == slot,
        forall|j: int, k: int|
            0 <= j < k < walk.len() ==> #[trigger] walk[j] != #[trigger] walk[k],
        s.ends_at_once() <==> s.flushed || s.position <= s.packets.len(),
{
    let k = if slot >= s.turn {
        slot - s.turn
    } else {
        slot + 16 - s.turn
    };
    assert(walk[k] == (s.turn + k) % 16);
}

} // verus!
