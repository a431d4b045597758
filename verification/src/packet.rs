//! Coded packets and the byte buffers they travel in.

use bytes::Bytes;
use vstd::prelude::*;

verus! {

/// `bytes::Bytes`, a reference-counted byte buffer that cannot be written to.
#[verifier::external_type_specification]
#[verifier::external_body]
pub struct ExBytes(bytes::Bytes);

/// The bytes that a `Bytes` holds.
pub uninterp spec fn bytes_contents(b: Bytes) -> Seq<u8>;

/// `Bytes::from(Vec<u8>)`: takes the vector over, so the buffer holds exactly
/// the vector's bytes.
#[verifier::external_body]
pub(crate) fn bytes_from_vec(v: Vec<u8>) -> (b: Bytes)
    ensures
        bytes_contents(b) == v@,
{
    Bytes::from(v)
}

/// `Bytes::copy_from_slice`: a new buffer with a copy of the slice.
#[verifier::external_body]
pub(crate) fn bytes_copy(s: &[u8]) -> (b: Bytes)
    ensures
        bytes_contents(b) == s@,
{
    Bytes::copy_from_slice(s)
}

/// `Bytes::as_ref`: the buffer's bytes as a slice.
#[verifier::external_body]
pub(crate) fn bytes_slice(b: &Bytes) -> (s: &[u8])
    ensures
        s@ == bytes_contents(*b),
{
    b.as_ref()
}

/// `Bytes::clone`: another handle on the same bytes.
#[verifier::external_body]
pub(crate) fn bytes_clone(b: &Bytes) -> (c: Bytes)
    ensures
        bytes_contents(c) == bytes_contents(*b),
{
    b.clone()
}

/// One coded access unit.
#[derive(Debug)]
pub struct EncodedPacket {
    pub data: Bytes,
    pub pts: u64,
    pub is_keyframe: bool,
}

/// What a packet says: its bytes, its timestamp and whether it is a keyframe.
pub struct PacketView {
    pub bytes: Seq<u8>,
    pub pts: u64,
    pub is_keyframe: bool,
}

impl View for EncodedPacket {
    type V = PacketView;

    open spec fn view(&self) -> PacketView {
        PacketView {
            bytes: bytes_contents(self.data),
            pts: self.pts,
            is_keyframe: self.is_keyframe,
        }
    }
}

/// The packets of a queue, in order.
pub open spec fn packet_views(packets: Seq<EncodedPacket>) -> Seq<PacketView> {
    packets.map_values(|p: EncodedPacket| p@)
}

impl Clone for EncodedPacket {
    fn clone(&self) -> (p: Self)
        ensures
            p@ == self@,
    {
        EncodedPacket {
            data: bytes_clone(&self.data),
            pts: self.pts,
            is_keyframe: self.is_keyframe,
        }
    }
}

/// A packet holding a copy of `data`.
pub fn packet_of(data: &[u8], pts: u64, is_keyframe: bool) -> (p: EncodedPacket)
    ensures
        p@ == (PacketView { bytes: data@, pts, is_keyframe }),
{
    EncodedPacket { data: bytes_copy(data), pts, is_keyframe }
}

/// A packet that takes `data` over.
pub fn packet_from(data: Vec<u8>, pts: u64, is_keyframe: bool) -> (p: EncodedPacket)
    ensures
        p@ == (PacketView { bytes: data@, pts, is_keyframe }),
{
    EncodedPacket { data: bytes_from_vec(data), pts, is_keyframe }
}

} // verus!
