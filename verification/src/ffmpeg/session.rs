//! Coding with a libavcodec session.

use std::collections::VecDeque;
use vstd::prelude::*;

use crate::frame::{self, PixelFormat, VideoFrame};
use crate::packet::{self, packet_from, EncodedPacket, PacketView};
use crate::planes::{self, copy_plane};
use crate::text::{self, push_dec};
use crate::upload::{self, half_down, packed_bytes};

verus! {

/// Why a picture was refused.
#[derive(Debug, Clone, Copy, PartialEq, Eq, Structural)]
pub enum LibavError {
    /// The stream was ended before.
    AfterFlush,
    /// The picture's buffer is shorter than its size calls for.
    TooSmall { have: usize, need: u128 },
}

impl LibavError {
    /// The error in words.
    pub open spec fn text(self) -> Seq<char> {
        match self {
            LibavError::AfterFlush => "FFmpeg encoder: send_frame after flush"@,
            LibavError::TooSmall { have, need } => "FFmpeg encoder: frame buffer too small ("@
                + text::dec(have as nat) + " < expected "@ + text::dec(need as nat) + ")"@,
        }
    }

    /// The error in words.
    pub fn message(&self) -> (s: String)
        ensures
            s@ == self.text(),
    {
        let mut out: String = String::new();
        match self {
            LibavError::AfterFlush => {
                out.append("FFmpeg encoder: send_frame after flush");
            },
            LibavError::TooSmall { have, need } => {
                out.append("FFmpeg encoder: frame buffer too small (");
                push_dec(&mut out, *have as u128);
                out.append(" < expected ");
                push_dec(&mut out, *need);
                out.append(")");
            },
        }
        assert(out@ =~= self.text());
        out
    }
}

/// The three planes of a picture buffer, with the bytes from one row to the
/// next in each.
pub struct PlanarBuffer {
    pub y: Vec<u8>,
    pub u: Vec<u8>,
    pub v: Vec<u8>,
    pub y_stride: usize,
    pub u_stride: usize,
    pub v_stride: usize,
}

/// What the output queue answered.
pub enum DrainAnswer {
    /// A packet; its bytes and timestamp may be missing.
    Packet { data: Option<Vec<u8>>, pts: Option<i64>, is_key: bool },
    /// Nothing now.
    Again,
    /// The stream has ended.
    Eof,
}

/// What a session's bookkeeping amounts to.
#[verifier::ext_equal]
pub struct LibavState {
    /// Packets waiting to be taken, oldest first.
    pub pending: Seq<PacketView>,
    /// Pictures sent; the next one's timestamp.
    pub sent: int,
    /// Whether the stream has ended.
    pub done: bool,
}

/// Bytes of a picture whose odd edges have no chroma of their own.
pub open spec fn frame_bytes(w: u32, h: u32, ten_bit: bool) -> int {
    frame::packed_420_len(
        w as int,
        h as int,
        w as int / 2,
        h as int / 2,
        upload::sample_bytes(ten_bit),
    )
}

/// The packet's timestamp: its own, or that of the next picture where it has
/// none; never negative.
pub open spec fn packet_pts(pts: Option<i64>, sent: int) -> u64 {
    match pts {
        Some(p) => if p < 0 {
            0
        } else {
            p as u64
        },
        None => sent as u64,
    }
}

impl LibavState {
    /// One answer of the output queue was taken.
    pub open spec fn after_answer(self, a: DrainAnswer) -> LibavState {
        match a {
            DrainAnswer::Packet { data, pts, is_key } => if data is Some && data->0@.len() > 0 {
                LibavState {
                    pending: self.pending.push(
                        PacketView {
                            bytes: data->0@,
                            pts: packet_pts(pts, self.sent),
                            is_keyframe: is_key,
                        },
                    ),
                    ..self
                }
            } else {
                self
            },
            DrainAnswer::Again => self,
            DrainAnswer::Eof => LibavState { done: true, ..self },
        }
    }

    /// A picture of `have` bytes was offered where one has `need`.
    pub open spec fn after_offer(self, have: int, need: int) -> (
        LibavState,
        Result<u64, LibavError>,
    ) {
        if self.done {
            (self, Err(LibavError::AfterFlush))
        } else if have < need {
            (self, Err(LibavError::TooSmall { have: have as usize, need: need as u128 }))
        } else {
            (LibavState { sent: self.sent + 1, ..self }, Ok(self.sent as u64))
        }
    }

    /// The next packet was asked for.
    pub open spec fn after_receive(self) -> LibavState {
        if self.pending.len() > 0 {
            LibavState { pending: self.pending.subrange(1, self.pending.len() as int), ..self }
        } else {
            self
        }
    }
}

/// A libavcodec session as the host drives it.
pub struct FfmpegEncoder {
    engaged_name: String,
    width: u32,
    height: u32,
    ten_bit: bool,
    pending: VecDeque<EncodedPacket>,
    pts_counter: u64,
    done: bool,
}

/// Whether a buffer has room for pictures of this size.
pub open spec fn buffer_fits(b: PlanarBuffer, w: u32, h: u32, ten_bit: bool) -> bool {
    let s = upload::sample_bytes(ten_bit);
    &&& planes::block_fits(b.y@.len(), 0, b.y_stride as int, s * w, h as int)
    &&& planes::block_fits(b.u@.len(), 0, b.u_stride as int, s * (w as int / 2), h as int / 2)
    &&& planes::block_fits(b.v@.len(), 0, b.v_stride as int, s * (w as int / 2), h as int / 2)
}

/// One plane of a buffer after a picture's plane was written into it.
pub open spec fn plane_written(
    before: Seq<u8>,
    stride: int,
    src: Seq<u8>,
    off: int,
    row_bytes: int,
    rows: int,
) -> Seq<u8> {
    planes::painted(before, 0, stride, row_bytes, rows, planes::packed_px(src, off, row_bytes))
}

/// A buffer after a picture was written into it.
pub open spec fn buffer_written(
    before: PlanarBuffer,
    after: PlanarBuffer,
    src: Seq<u8>,
    w: u32,
    h: u32,
    ten_bit: bool,
) -> bool {
    let s = upload::sample_bytes(ten_bit);
    let luma = s * (w * h);
    let cw = w as int / 2;
    let ch = h as int / 2;
    let chroma = s * (cw * ch);
    &&& after.y_stride == before.y_stride
    &&& after.u_stride == before.u_stride
    &&& after.v_stride == before.v_stride
    &&& after.y@ == plane_written(before.y@, before.y_stride as int, src, 0, s * w, h as int)
    &&& after.u@ == plane_written(before.u@, before.u_stride as int, src, luma, s * cw, ch)
    &&& after.v@ == plane_written(
        before.v@,
        before.v_stride as int,
        src,
        luma + chroma,
        s * cw,
        ch,
    )
}

fn fill(b: &mut PlanarBuffer, src: &[u8], w: u32, h: u32, ten_bit: bool)
    requires
        buffer_fits(*old(b), w, h, ten_bit),
        frame_bytes(w, h, ten_bit) <= src@.len(),
        w * 2 <= usize::MAX,
    ensures
        buffer_written(*old(b), *final(b), src@, w, h, ten_bit),
{
    let wu: usize = w as usize;
    let hu: usize = h as usize;
    let cw: usize = half_down(wu);
    let ch: usize = half_down(hu);
    let len: usize = src.len();
    proof {
        assert(0 <= wu * hu) by (nonlinear_arith);
        assert(0 <= cw * ch) by (nonlinear_arith);
        assert(hu * wu == wu * hu) by (nonlinear_arith);
        assert(ch * cw == cw * ch) by (nonlinear_arith);
        assert(hu * (2 * wu) == 2 * (wu * hu)) by (nonlinear_arith);
        assert(ch * (2 * cw) == 2 * (cw * ch)) by (nonlinear_arith);
    }
    let area: usize = wu * hu;
    let chroma: usize = cw * ch;
    if ten_bit {
        copy_plane(&mut b.y, 0, b.y_stride, src, 0, 2 * wu, hu);
        copy_plane(&mut b.u, 0, b.u_stride, src, 2 * area, 2 * cw, ch);
        copy_plane(&mut b.v, 0, b.v_stride, src, 2 * area + 2 * chroma, 2 * cw, ch);
    } else {
        copy_plane(&mut b.y, 0, b.y_stride, src, 0, wu, hu);
        copy_plane(&mut b.u, 0, b.u_stride, src, area, cw, ch);
        copy_plane(&mut b.v, 0, b.v_stride, src, area + chroma, cw, ch);
    }
}

impl FfmpegEncoder {
    /// The session's bookkeeping.
    pub closed spec fn state(self) -> LibavState {
        LibavState {
            pending: packet::packet_views(self.pending@),
            sent: self.pts_counter as int,
            done: self.done,
        }
    }

    /// The size of the session's pictures.
    pub closed spec fn size(self) -> (u32, u32) {
        (self.width, self.height)
    }

    /// Whether the session's samples are words.
    pub closed spec fn is_ten_bit(self) -> bool {
        self.ten_bit
    }

    /// The encoder that opened.
    pub closed spec fn name(self) -> Seq<char> {
        self.engaged_name@
    }

    /// What never changes about a session.
    pub open spec fn same_session(self, other: Self) -> bool {
        &&& self.size() == other.size()
        &&& self.is_ten_bit() == other.is_ten_bit()
        &&& self.name() == other.name()
    }

    /// Bookkeeping for a session whose encoder `name` just opened. Any format
    /// but the ten-bit one is fed as 8-bit.
    pub fn new(name: &str, width: u32, height: u32, format: PixelFormat) -> (e: Self)
        ensures
            e.name() == name@,
            e.size() == (width, height),
            e.is_ten_bit() == format.is_ten_bit(),
            e.state() == (LibavState { pending: Seq::empty(), sent: 0, done: false }),
    {
        let e: FfmpegEncoder = FfmpegEncoder {
            engaged_name: name.to_owned(),
            width,
            height,
            ten_bit: format == PixelFormat::Yuv420p10le,
            pending: VecDeque::new(),
            pts_counter: 0,
            done: false,
        };
        assert(e.state().pending =~= Seq::empty());
        e
    }

    /// The name of the encoder that opened.
    pub fn engaged(&self) -> (s: &str)
        ensures
            s@ == self.name(),
    {
        self.engaged_name.as_str()
    }

    /// Write a picture into the buffer and give its timestamp. Send the buffer,
    /// then drain the output queue.
    pub fn send_frame(&mut self, f: &VideoFrame, b: &mut PlanarBuffer) -> (r: Result<
        u64,
        LibavError,
    >)
        requires
            buffer_fits(*old(b), old(self).size().0, old(self).size().1, old(self).is_ten_bit()),
            old(self).size().0 * 2 <= usize::MAX,
            old(self).state().sent < u64::MAX,
        ensures
            final(self).same_session(*old(self)),
            old(self).state().done ==> {
                &&& r == Err::<u64, LibavError>(LibavError::AfterFlush)
                &&& final(self).state() == old(self).state()
                &&& *final(b) == *old(b)
            },
            !old(self).state().done && f.bytes().len() < frame_bytes(
                old(self).size().0,
                old(self).size().1,
                old(self).is_ten_bit(),
            ) ==> {
                &&& r == Err::<u64, LibavError>(
                    LibavError::TooSmall {
                        have: f.bytes().len() as usize,
                        need: frame_bytes(
                            old(self).size().0,
                            old(self).size().1,
                            old(self).is_ten_bit(),
                        ) as u128,
                    },
                )
                &&& final(self).state() == old(self).state()
                &&& *final(b) == *old(b)
            },
            !old(self).state().done && f.bytes().len() >= frame_bytes(
                old(self).size().0,
                old(self).size().1,
                old(self).is_ten_bit(),
            ) ==> {
                &&& r == Ok::<u64, LibavError>(old(self).state().sent as u64)
                &&& final(self).state() == (LibavState {
                    sent: old(self).state().sent + 1,
                    ..old(self).state()
                })
                &&& buffer_written(
                    *old(b),
                    *final(b),
                    f.bytes(),
                    old(self).size().0,
                    old(self).size().1,
                    old(self).is_ten_bit(),
                )
            },
            (final(self).state(), r) == old(self).state().after_offer(
                f.bytes().len() as int,
                frame_bytes(old(self).size().0, old(self).size().1, old(self).is_ten_bit()),
            ),
    {
        if self.done {
            return Err(LibavError::AfterFlush);
        }
        let need: u128 = packed_bytes(
            self.width,
            self.height,
            self.width / 2,
            self.height / 2,
            self.ten_bit,
        );
        let have: usize = f.slice().len();
        if (have as u128) < need {
            return Err(LibavError::TooSmall { have, need });
        }
        fill(b, f.slice(), self.width, self.height, self.ten_bit);
        let pts: u64 = self.pts_counter;
        self.pts_counter = self.pts_counter + 1;
        assert(self.state() =~= (LibavState {
            sent: old(self).state().sent + 1,
            ..old(self).state()
        }));
        Ok(pts)
    }

    /// Take one answer of the output queue; whether to ask again. A packet
    /// without bytes is dropped.
    pub fn drained(&mut self, a: DrainAnswer) -> (again: bool)
        requires
            old(self).state().sent <= i64::MAX,
        ensures
            final(self).same_session(*old(self)),
            again == (a is Packet),
            match a {
                DrainAnswer::Packet { data, pts, is_key } => final(self).state() == (
                if data is Some && data->0@.len() > 0 {
                    LibavState {
                        pending: old(self).state().pending.push(
                            PacketView {
                                bytes: data->0@,
                                pts: packet_pts(pts, old(self).state().sent),
                                is_keyframe: is_key,
                            },
                        ),
                        ..old(self).state()
                    }
                } else {
                    old(self).state()
                }),
                DrainAnswer::Again => final(self).state() == old(self).state(),
                DrainAnswer::Eof => final(self).state() == (LibavState {
                    done: true,
                    ..old(self).state()
                }),
            },
            final(self).state() == old(self).state().after_answer(a),
    {
        match a {
            DrainAnswer::Packet { data, pts, is_key } => {
                let stamp: u64 = match pts {
                    Some(p) => if p < 0 {
                        0
                    } else {
                        p as u64
                    },
                    None => self.pts_counter,
                };
                match data {
                    Some(bytes) => if bytes.len() > 0 {
                        let p: EncodedPacket = packet_from(bytes, stamp, is_key);
                        let ghost before = self.pending@;
                        self.pending.push_back(p);
                        assert(packet::packet_views(self.pending@) =~= packet::packet_views(
                            before,
                        ).push(p@));
                        assert(self.state().pending == old(self).state().pending.push(p@));
                    },
                    None => {},
                }
                true
            },
            DrainAnswer::Again => false,
            DrainAnswer::Eof => {
                self.done = true;
                assert(self.state() =~= (LibavState { done: true, ..old(self).state() }));
                false
            },
        }
    }

    /// Whether the stream is still to be ended: send the end, drain the output
    /// queue, and call [`FfmpegEncoder::flushed`].
    pub fn needs_flush(&self) -> (b: bool)
        ensures
            b == !self.state().done,
    {
        !self.done
    }

    /// The stream was ended.
    pub fn flushed(&mut self)
        ensures
            final(self).same_session(*old(self)),
            final(self).state() == (LibavState { done: true, ..old(self).state() }),
    {
        self.done = true;
        assert(self.state() =~= (LibavState { done: true, ..old(self).state() }));
    }

    /// Whether the output queue is to be drained once more before a packet is
    /// taken: nothing is waiting, and the stream has ended.
    pub fn drain_first(&self) -> (b: bool)
        ensures
            b == (self.state().pending.len() == 0 && self.state().done),
    {
        self.pending.len() == 0 && self.done
    }

    /// The packet that has waited longest, if there is one.
    pub fn receive_packet(&mut self) -> (p: Option<EncodedPacket>)
        ensures
            final(self).same_session(*old(self)),
            match p {
                Some(pkt) => {
                    &&& old(self).state().pending.len() > 0
                    &&& pkt@ == old(self).state().pending[0]
                    &&& final(self).state() == (LibavState {
                        pending: old(self).state().pending.subrange(
                            1,
                            old(self).state().pending.len() as int,
                        ),
                        ..old(self).state()
                    })
                },
                None => {
                    &&& old(self).state().pending.len() == 0
                    &&& final(self).state() == old(self).state()
                },
            },
            final(self).state() == old(self).state().after_receive(),
    {
        let ghost before = self.pending@;
        let p: Option<EncodedPacket> = self.pending.pop_front();
        proof {
            if before.len() > 0 {
                assert(packet::packet_views(self.pending@) =~= packet::packet_views(
                    before,
                ).subrange(1, before.len() as int));
            }
        }
        p
    }
}

/// The sample `(x, y)` of each plane of a picture is the sample `(x, y)` of the
/// same plane of the buffer, at ten bits both of its bytes; U is the first of
/// the picture's chroma planes and V the second.
pub proof fn planes_read_back(
    before: PlanarBuffer,
    after: PlanarBuffer,
    src: Seq<u8>,
    w: u32,
    h: u32,
    ten_bit: bool,
    x: int,
    y: int,
)
    requires
        buffer_fits(before, w, h, ten_bit),
        buffer_written(before, after, src, w, h, ten_bit),
        0 <= x,
        0 <= y,
    ensures
        ({
            let luma = w * h;
            let cw = w as int / 2;
            let plane = cw * (h as int / 2);
            let k = y * cw + x;
            &&& x < w && y < h && !ten_bit ==> after.y@[y * after.y_stride + x] == src[y * w + x]
            &&& x < w && y < h && ten_bit ==> {
                let at = y * after.y_stride + 2 * x;
                &&& after.y@[at] == src[2 * (y * w + x)]
                &&& after.y@[at + 1] == src[2 * (y * w + x) + 1]
            }
            &&& x < cw && y < h as int / 2 && !ten_bit ==> {
                &&& after.u@[y * after.u_stride + x] == src[luma + k]
                &&& after.v@[y * after.v_stride + x] == src[luma + plane + k]
            }
            &&& x < cw && y < h as int / 2 && ten_bit ==> {
                let u = y * after.u_stride + 2 * x;
                let v = y * after.v_stride + 2 * x;
                &&& after.u@[u] == src[2 * luma + 2 * k]
                &&& after.u@[u + 1] == src[2 * luma + 2 * k + 1]
                &&& after.v@[v] == src[2 * luma + 2 * plane + 2 * k]
                &&& after.v@[v + 1] == src[2 * luma + 2 * plane + 2 * k + 1]
            }
        }),
{
    let s = upload::sample_bytes(ten_bit);
    let wi = w as int;
    let hi = h as int;
    let cw = wi / 2;
    let ch = hi / 2;
    let luma = s * (wi * hi);
    let v_off = luma + s * (cw * ch);
    let ys = before.y_stride as int;
    let us = before.u_stride as int;
    let vs = before.v_stride as int;
    assert(y * (2 * wi) == 2 * (y * wi)) by (nonlinear_arith);
    assert(y * (2 * cw) == 2 * (y * cw)) by (nonlinear_arith);
    if x < wi && y < hi {
        planes::copied_samples_read_back(before.y@, 0, ys, src, 0, s * wi, hi, s * x, y);
        if ten_bit {
            planes::copied_samples_read_back(before.y@, 0, ys, src, 0, 2 * wi, hi, 2 * x + 1, y);
        }
    }
    if x < cw && y < ch {
        planes::copied_samples_read_back(before.u@, 0, us, src, luma, s * cw, ch, s * x, y);
        planes::copied_samples_read_back(before.v@, 0, vs, src, v_off, s * cw, ch, s * x, y);
        if ten_bit {
            planes::copied_samples_read_back(before.u@, 0, us, src, luma, 2 * cw, ch, 2 * x + 1, y);
            planes::copied_samples_read_back(before.v@, 0, vs, src, v_off, 2 * cw, ch, 2 * x + 1, y);
        }
    }
}

/// A picture has a byte for each luma sample and for each of the whole pairs of
/// chroma, two at ten bits.
pub proof fn pictures_are_counted_in_samples(w: u32, h: u32)
    ensures
        frame_bytes(w, h, false) == w * h + 2 * ((w as int / 2) * (h as int / 2)),
        frame_bytes(w, h, true) == 2 * frame_bytes(w, h, false),
{
}

/// A picture is taken exactly where the stream has not ended and its bytes are
/// all there; it gets the number of pictures before it as its time, and the next
/// one gets one more. A refusal changes nothing and says which of the two failed.
pub proof fn pictures_are_numbered_as_they_are_sent(s: LibavState, have: int, need: int)
    requires
        0 <= s.sent < u64::MAX,
    ensures
        ({
            let out = s.after_offer(have, need);
            &&& out.1 is Ok <==> !s.done && have >= need
            &&& out.1 matches Ok(pts) ==> pts == s.sent && out.0.sent == s.sent + 1
            &&& out.1 is Err ==> out.0 == s
            &&& s.done ==> out.1 == Err::<u64, LibavError>(LibavError::AfterFlush)
            &&& out.0.pending == s.pending && out.0.done == s.done
        }),
{
}

/// A packet with bytes waits behind the others as the encoder hands it over: its
/// bytes, its mark, and its time, never negative, or the number of pictures sent
/// where it has none. Nothing else adds a packet, and only the end of the
/// stream ends it.
pub proof fn packets_wait_as_they_are_handed_over(s: LibavState, a: DrainAnswer)
    requires
        0 <= s.sent <= u64::MAX,
    ensures
        a matches DrainAnswer::Packet { data: Some(bytes), pts, is_key } ==> (bytes@.len() > 0 ==> {
            let t = s.after_answer(a);
            let n = s.pending.len() as int;
            &&& t.pending.len() == n + 1
            &&& forall|i: int| 0 <= i < n ==> #[trigger] t.pending[i] == s.pending[i]
            &&& t.pending[n].bytes == bytes@
            &&& t.pending[n].is_keyframe == is_key
            &&& pts is None ==> t.pending[n].pts == s.sent
            &&& pts is Some && pts->0 >= 0 ==> t.pending[n].pts == pts->0
            &&& pts is Some && pts->0 < 0 ==> t.pending[n].pts == 0
        }),
        a matches DrainAnswer::Packet { data: Some(bytes), .. } ==> (bytes@.len() == 0
            ==> s.after_answer(a) == s),
        a matches DrainAnswer::Packet { data: None, .. } ==> s.after_answer(a) == s,
        a is Again ==> s.after_answer(a) == s,
        a is Eof ==> s.after_answer(a).pending == s.pending,
        s.after_answer(a).done <==> s.done || a is Eof,
        s.after_answer(a).sent == s.sent,
{
}

/// The packet that has waited longest leaves first, and the others move up.
pub proof fn packets_leave_in_order(s: LibavState, i: int)
    ensures
        s.pending.len() == 0 ==> s.after_receive() == s,
        s.pending.len() > 0 ==> {
            &&& s.after_receive().pending.len() == s.pending.len() - 1
            &&& 0 <= i < s.pending.len() - 1 ==> s.after_receive().pending[i] == s.pending[i + 1]
            &&& s.after_receive().sent == s.sent && s.after_receive().done == s.done
        },
{
}

} // verus!
