//! What the three wrapper backends share: which pictures a session takes, the
//! queue its packets wait in, and the errors it refuses with.

use std::collections::VecDeque;
use vstd::prelude::*;

use crate::dispatch::EncoderBackend;
use crate::frame::{PixelFormat, VideoFrame};
use crate::packet::{self, packet_from, EncodedPacket, PacketView};
use crate::text::{self, push_dec};

verus! {

/// A plane of a vendor's surface.
#[derive(Debug, Clone, Copy, PartialEq, Eq, Structural)]
pub enum PlaneName {
    Luma,
    Chroma,
}

/// Why a wrapper backend refuses a session or a picture.
#[derive(Debug, Clone, Copy, PartialEq, Eq, Structural)]
#[allow(inconsistent_fields)]
pub enum WrapperError {
    /// The input format has no buffer format.
    UnsupportedFormat { backend: EncoderBackend, format: PixelFormat },
    /// The wrapper cannot take ten bits.
    TenBitUnavailable,
    /// The picture is not in the session's format.
    FormatMismatch { backend: EncoderBackend, configured: PixelFormat, got: PixelFormat },
    /// The picture is not of the session's size.
    SizeMismatch {
        backend: EncoderBackend,
        width: u32,
        height: u32,
        frame_width: u32,
        frame_height: u32,
    },
    /// The picture's buffer is shorter than its size calls for.
    TooSmall {
        backend: EncoderBackend,
        format: PixelFormat,
        width: u32,
        height: u32,
        have: usize,
        need: u128,
    },
    /// The picture is larger than the surface it is coded on.
    TooLarge { width: u32, height: u32, coded_width: u32, coded_height: u32 },
    /// A plane of the vendor's surface cannot take the picture's rows.
    BadPlane { plane: PlaneName, ten_bit: bool, null: bool, pitch: usize, need: u64 },
}

/// The vendor interface's name.
pub open spec fn backend_label(b: EncoderBackend) -> Seq<char> {
    match b {
        EncoderBackend::Nvenc => "NVENC"@,
        EncoderBackend::Amf => "AMF"@,
        EncoderBackend::Qsv => "QSV"@,
    }
}

fn backend_name(b: EncoderBackend) -> (s: &'static str)
    ensures
        s@ == backend_label(b),
{
    match b {
        EncoderBackend::Nvenc => "NVENC",
        EncoderBackend::Amf => "AMF",
        EncoderBackend::Qsv => "QSV",
    }
}

/// `true` or `false`.
pub open spec fn truth(b: bool) -> Seq<char> {
    if b {
        "true"@
    } else {
        "false"@
    }
}

fn push_truth(out: &mut String, b: bool)
    ensures
        final(out)@ == old(out)@ + truth(b),
{
    if b {
        out.append("true");
    } else {
        out.append("false");
    }
}

/// A picture's size in words.
pub open spec fn size_text(w: u32, h: u32) -> Seq<char> {
    text::dec(w as nat) + "×"@ + text::dec(h as nat)
}

fn push_size(out: &mut String, w: u32, h: u32)
    ensures
        final(out)@ == old(out)@ + size_text(w, h),
{
    push_dec(out, w as u128);
    out.append("×");
    push_dec(out, h as u128);
    assert(out@ =~= old(out)@ + size_text(w, h));
}

impl WrapperError {
    /// The error in words.
    pub open spec fn text(self) -> Seq<char> {
        match self {
            WrapperError::UnsupportedFormat { backend, format } => backend_label(backend)
                + " encoder expects Yuv420p "@ + (if backend == EncoderBackend::Qsv {
                "/"@
            } else {
                "or"@
            }) + " Yuv420p10le, got "@ + format.label(),
            WrapperError::TenBitUnavailable =>
                "QSV encoder: 10-bit (Yuv420p10le → P010) not exposed by shiguredo_vpl; use the nvidia/amd/ffmpeg path for HDR. Falling through to next tier."@,
            WrapperError::FormatMismatch { backend, configured, got } => backend_label(backend)
                + " encoder configured for "@ + configured.label() + " but received "@
                + got.label(),
            WrapperError::SizeMismatch { backend, width, height, frame_width, frame_height } =>
                backend_label(backend) + " encoder fixed at "@ + size_text(width, height)
                + ", received "@ + size_text(frame_width, frame_height)
                + " (scale before encode)"@,
            WrapperError::TooSmall { backend, format, width, height, have, need } =>
                backend_label(backend) + (if backend == EncoderBackend::Qsv {
                " encoder: "@
            } else {
                ": "@
            }) + format.label() + " frame too small for "@ + size_text(width, height) + ": have "@
                + text::dec(have as nat) + (if backend == EncoderBackend::Qsv {
                " bytes"@
            } else {
                ""@
            }) + " need "@ + text::dec(need as nat),
            WrapperError::TooLarge { width, height, coded_width, coded_height } =>
                "QSV encoder: frame "@ + size_text(width, height) + " larger than coded surface "@
                + size_text(coded_width, coded_height),
            WrapperError::BadPlane { plane, ten_bit, null, pitch, need } => "AMF: bad "@ + (
            if ten_bit {
                "P010 "@
            } else {
                ""@
            }) + (if plane == PlaneName::Luma {
                "Y"@
            } else {
                "UV"@
            }) + " plane (null="@ + truth(null) + ", pitch="@ + text::dec(pitch as nat) + (if plane
                == PlaneName::Luma && !ten_bit {
                ", w="@
            } else {
                ", need="@
            }) + text::dec(need as nat) + ")"@,
        }
    }

    /// The error in words.
    pub fn message(&self) -> (s: String)
        ensures
            s@ == self.text(),
    {
        let mut out: String = String::new();
        match self {
            WrapperError::UnsupportedFormat { backend, format } => {
                out.append(backend_name(*backend));
                out.append(" encoder expects Yuv420p ");
                out.append(
                    if *backend == EncoderBackend::Qsv {
                        "/"
                    } else {
                        "or"
                    },
                );
                out.append(" Yuv420p10le, got ");
                out.append(format.name());
            },
            WrapperError::TenBitUnavailable => {
                out.append(
                    "QSV encoder: 10-bit (Yuv420p10le → P010) not exposed by shiguredo_vpl; use the nvidia/amd/ffmpeg path for HDR. Falling through to next tier.",
                );
            },
            WrapperError::FormatMismatch { backend, configured, got } => {
                out.append(backend_name(*backend));
                out.append(" encoder configured for ");
                out.append(configured.name());
                out.append(" but received ");
                out.append(got.name());
            },
            WrapperError::SizeMismatch { backend, width, height, frame_width, frame_height } => {
                out.append(backend_name(*backend));
                out.append(" encoder fixed at ");
                push_size(&mut out, *width, *height);
                out.append(", received ");
                push_size(&mut out, *frame_width, *frame_height);
                out.append(" (scale before encode)");
            },
            WrapperError::TooSmall { backend, format, width, height, have, need } => {
                let qsv: bool = *backend == EncoderBackend::Qsv;
                out.append(backend_name(*backend));
                out.append(
                    if qsv {
                        " encoder: "
                    } else {
                        ": "
                    },
                );
                out.append(format.name());
                out.append(" frame too small for ");
                push_size(&mut out, *width, *height);
                out.append(": have ");
                push_dec(&mut out, *have as u128);
                out.append(
                    if qsv {
                        " bytes"
                    } else {
                        ""
                    },
                );
                out.append(" need ");
                push_dec(&mut out, *need);
            },
            WrapperError::TooLarge { width, height, coded_width, coded_height } => {
                out.append("QSV encoder: frame ");
                push_size(&mut out, *width, *height);
                out.append(" larger than coded surface ");
                push_size(&mut out, *coded_width, *coded_height);
            },
            WrapperError::BadPlane { plane, ten_bit, null, pitch, need } => {
                let luma: bool = *plane == PlaneName::Luma;
                out.append("AMF: bad ");
                out.append(
                    if *ten_bit {
                        "P010 "
                    } else {
                        ""
                    },
                );
                out.append(
                    if luma {
                        "Y"
                    } else {
                        "UV"
                    },
                );
                out.append(" plane (null=");
                push_truth(&mut out, *null);
                out.append(", pitch=");
                push_dec(&mut out, *pitch as u128);
                out.append(
                    if luma && !*ten_bit {
                        ", w="
                    } else {
                        ", need="
                    },
                );
                push_dec(&mut out, *need as u128);
                out.append(")");
            },
        }
        assert(out@ =~= self.text());
        out
    }
}

/// Kind of a coded picture, as the wrappers name it.
#[derive(Debug, Clone, Copy, PartialEq, Eq, Structural)]
pub enum PictureKind {
    Idr,
    I,
    P,
    B,
    Unknown,
}

/// Whether a player can start on such a picture.
pub open spec fn starts_playback(k: PictureKind) -> bool {
    k == PictureKind::Idr || k == PictureKind::I
}

/// What a session's bookkeeping amounts to.
#[verifier::ext_equal]
pub struct SessionState {
    /// Packets waiting to be taken, oldest first.
    pub queue: Seq<PacketView>,
    pub flushed: bool,
    /// Pictures the wrapper accepted; the next one is tagged with this number.
    pub accepted: int,
}

impl SessionState {
    /// The wrapper accepted a picture.
    pub open spec fn after_accept(self) -> SessionState {
        SessionState { accepted: self.accepted + 1, ..self }
    }

    /// The wrapper coded a picture.
    pub open spec fn after_collect(self, data: Seq<u8>, pts: u64, kind: PictureKind) -> SessionState {
        SessionState {
            queue: self.queue.push(
                PacketView { bytes: data, pts, is_keyframe: starts_playback(kind) },
            ),
            ..self
        }
    }

    /// The wrapper was flushed.
    pub open spec fn after_flush(self) -> SessionState {
        SessionState { flushed: true, ..self }
    }

    /// The next packet was asked for.
    pub open spec fn after_receive(self) -> SessionState {
        if self.queue.len() > 0 {
            SessionState { queue: self.queue.subrange(1, self.queue.len() as int), ..self }
        } else {
            self
        }
    }

    /// The packet that is handed out next, if one is ready.
    pub open spec fn next_packet(self) -> Option<PacketView> {
        if self.queue.len() > 0 {
            Some(self.queue[0])
        } else {
            None
        }
    }
}

/// The bookkeeping around one wrapper session.
pub struct Session {
    queue: VecDeque<EncodedPacket>,
    flushed: bool,
    frame_counter: u64,
}

impl Session {
    /// The session's bookkeeping.
    pub closed spec fn state(self) -> SessionState {
        SessionState {
            queue: packet::packet_views(self.queue@),
            flushed: self.flushed,
            accepted: self.frame_counter as int,
        }
    }

    /// A session that was just opened.
    pub fn new() -> (s: Self)
        ensures
            s.state() == (SessionState { queue: Seq::empty(), flushed: false, accepted: 0 }),
    {
        let s: Session = Session { queue: VecDeque::new(), flushed: false, frame_counter: 0 };
        assert(s.state().queue =~= Seq::empty());
        s
    }

    /// The number that tags the next picture.
    pub fn next_tag(&self) -> (n: u64)
        ensures
            n == self.state().accepted,
    {
        self.frame_counter
    }

    /// The wrapper accepted a picture.
    pub fn accepted(&mut self)
        requires
            old(self).state().accepted < u64::MAX,
        ensures
            final(self).state() == (SessionState {
                accepted: old(self).state().accepted + 1,
                ..old(self).state()
            }),
            final(self).state() == old(self).state().after_accept(),
    {
        self.frame_counter = self.frame_counter + 1;
        assert(self.state() =~= (SessionState {
            accepted: old(self).state().accepted + 1,
            ..old(self).state()
        }));
    }

    /// The wrapper coded a picture.
    pub fn collect(&mut self, data: Vec<u8>, pts: u64, kind: PictureKind)
        ensures
            final(self).state() == (SessionState {
                queue: old(self).state().queue.push(
                    PacketView { bytes: data@, pts, is_keyframe: starts_playback(kind) },
                ),
                ..old(self).state()
            }),
            final(self).state() == old(self).state().after_collect(data@, pts, kind),
    {
        let key: bool = match kind {
            PictureKind::Idr | PictureKind::I => true,
            _ => false,
        };
        let p: EncodedPacket = packet_from(data, pts, key);
        let ghost before = self.queue@;
        self.queue.push_back(p);
        assert(packet::packet_views(self.queue@) =~= packet::packet_views(before).push(p@));
        assert(self.state() =~= (SessionState {
            queue: old(self).state().queue.push(
                PacketView { bytes: data@, pts, is_keyframe: starts_playback(kind) },
            ),
            ..old(self).state()
        }));
    }

    /// Whether the wrapper has to be flushed: the first time only.
    pub fn flush(&mut self) -> (b: bool)
        ensures
            b == !old(self).state().flushed,
            final(self).state() == (SessionState { flushed: true, ..old(self).state() }),
            final(self).state() == old(self).state().after_flush(),
    {
        let b: bool = !self.flushed;
        self.flushed = true;
        assert(self.state() =~= (SessionState { flushed: true, ..old(self).state() }));
        b
    }

    /// The packet that has waited longest, if there is one.
    pub fn receive_packet(&mut self) -> (p: Option<EncodedPacket>)
        ensures
            match p {
                Some(pkt) => {
                    &&& old(self).state().queue.len() > 0
                    &&& pkt@ == old(self).state().queue[0]
                    &&& final(self).state() == (SessionState {
                        queue: old(self).state().queue.subrange(
                            1,
                            old(self).state().queue.len() as int,
                        ),
                        ..old(self).state()
                    })
                },
                None => {
                    &&& old(self).state().queue.len() == 0
                    &&& final(self).state() == old(self).state()
                },
            },
            final(self).state() == old(self).state().after_receive(),
            match old(self).state().next_packet() {
                Some(v) => p matches Some(pkt) && pkt@ == v,
                None => p is None,
            },
    {
        let ghost before = self.queue@;
        let p: Option<EncodedPacket> = self.queue.pop_front();
        proof {
            if before.len() > 0 {
                assert(packet::packet_views(self.queue@) =~= packet::packet_views(before).subrange(
                    1,
                    before.len() as int,
                ));
            }
        }
        p
    }
}

/// The verdict on a picture's format and size.
pub open spec fn frame_verdict(
    backend: EncoderBackend,
    format: PixelFormat,
    width: u32,
    height: u32,
    f: VideoFrame,
) -> Option<WrapperError> {
    if f.format != format {
        Some(WrapperError::FormatMismatch { backend, configured: format, got: f.format })
    } else if f.width != width || f.height != height {
        Some(
            WrapperError::SizeMismatch {
                backend,
                width,
                height,
                frame_width: f.width,
                frame_height: f.height,
            },
        )
    } else {
        None
    }
}

/// Hold a picture to the session's format and size.
pub fn check_frame(
    backend: EncoderBackend,
    format: PixelFormat,
    width: u32,
    height: u32,
    f: &VideoFrame,
) -> (r: Result<(), WrapperError>)
    ensures
        match frame_verdict(backend, format, width, height, *f) {
            Some(e) => r == Err::<(), WrapperError>(e),
            None => r is Ok,
        },
{
    if f.format != format {
        return Err(WrapperError::FormatMismatch { backend, configured: format, got: f.format });
    }
    if f.width != width || f.height != height {
        return Err(
            WrapperError::SizeMismatch {
                backend,
                width,
                height,
                frame_width: f.width,
                frame_height: f.height,
            },
        );
    }
    Ok(())
}

/// The queue after `n` packets were taken from it, one at a time.
pub open spec fn after_taking(queue: Seq<PacketView>, n: nat) -> Seq<PacketView>
    decreases n,
{
    if n == 0 {
        queue
    } else {
        let before = after_taking(queue, (n - 1) as nat);
        before.subrange(1, before.len() as int)
    }
}

/// Packets come out in the order they were collected: whatever was waiting and
/// whatever is collected while packets are taken, the packet that is taken
/// after `n` others is the `n`-th.
pub proof fn packets_come_out_in_order(waiting: Seq<PacketView>, more: Seq<PacketView>, n: nat)
    requires
        n < waiting.len() + more.len(),
    ensures
        after_taking(waiting + more, n)[0] == (waiting + more)[n as int],
        after_taking(waiting + more, n).len() == waiting.len() + more.len() - n,
        n <= waiting.len() ==> after_taking(waiting + more, n) == after_taking(waiting, n) + more,
{
    taking_drops_the_front(waiting + more, n);
    if n <= waiting.len() {
        taking_drops_the_front(waiting, n);
        assert((waiting + more).subrange(n as int, (waiting + more).len() as int)
            =~= waiting.subrange(n as int, waiting.len() as int) + more);
    }
}

proof fn taking_drops_the_front(queue: Seq<PacketView>, n: nat)
    requires
        n <= queue.len(),
    ensures
        after_taking(queue, n) == queue.subrange(n as int, queue.len() as int),
    decreases n,
{
    if n == 0 {
        assert(queue.subrange(0, queue.len() as int) =~= queue);
    } else {
        taking_drops_the_front(queue, (n - 1) as nat);
        assert(after_taking(queue, n) =~= queue.subrange(n as int, queue.len() as int));
    }
}

/// A picture is held to the session's format first, then to its size, and to
/// nothing else here; a refusal carries both sides of the comparison.
pub proof fn pictures_are_held_to_the_session(
    backend: EncoderBackend,
    format: PixelFormat,
    width: u32,
    height: u32,
    f: VideoFrame,
)
    ensures
        frame_verdict(backend, format, width, height, f) is None <==> f.format == format && f.width
            == width && f.height == height,
        match frame_verdict(backend, format, width, height, f) {
            None => true,
            Some(WrapperError::FormatMismatch { backend: b, configured, got }) => b == backend
                && configured == format && got == f.format && got != configured,
            Some(
                WrapperError::SizeMismatch {
                    backend: b,
                    width: w,
                    height: h,
                    frame_width,
                    frame_height,
                },
            ) => b == backend && f.format == format && w == width && h == height && frame_width
                == f.width && frame_height == f.height,
            Some(_) => false,
        },
{
}

/// A player starts on intra pictures, and on no others.
pub proof fn players_start_on_intra_pictures(k: PictureKind)
    ensures
        k == PictureKind::Idr || k == PictureKind::I ==> starts_playback(k),
        k == PictureKind::P || k == PictureKind::B || k == PictureKind::Unknown
            ==> !starts_playback(k),
{
}

/// A coded picture waits behind the others with its own bytes and time, marked
/// as a keyframe exactly where it is intra; accepting and flushing leave the
/// queue alone, and each picture that is accepted is counted once.
pub proof fn coded_pictures_wait_in_line(
    s: SessionState,
    data: Seq<u8>,
    pts: u64,
    kind: PictureKind,
)
    ensures
        ({
            let t = s.after_collect(data, pts, kind);
            let n = s.queue.len() as int;
            &&& t.queue.len() == n + 1
            &&& forall|i: int| 0 <= i < n ==> #[trigger] t.queue[i] == s.queue[i]
            &&& t.queue[n].bytes == data
            &&& t.queue[n].pts == pts
            &&& t.queue[n].is_keyframe <==> kind == PictureKind::Idr || kind == PictureKind::I
            &&& t.accepted == s.accepted && t.flushed == s.flushed
        }),
        s.after_accept().accepted == s.accepted + 1,
        s.after_accept().queue == s.queue && s.after_accept().flushed == s.flushed,
        s.after_flush().flushed,
        s.after_flush().queue == s.queue && s.after_flush().accepted == s.accepted,
{
}

/// The packet that has waited longest leaves first, and the others move up.
pub proof fn the_longest_waiting_leaves_first(s: SessionState, i: int)
    ensures
        s.queue.len() == 0 ==> s.after_receive() == s && s.next_packet() is None,
        s.queue.len() > 0 ==> {
            &&& s.next_packet() == Some(s.queue[0])
            &&& s.after_receive().queue.len() == s.queue.len() - 1
            &&& 0 <= i < s.queue.len() - 1 ==> s.after_receive().queue[i] == s.queue[i + 1]
            &&& s.after_receive().accepted == s.accepted
            &&& s.after_receive().flushed == s.flushed
        },
{
}

} // verus!
