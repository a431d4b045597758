//! 128-bit identifiers, as driver interfaces use them.
//!
//! In memory the first three fields are little-endian and the last eight bytes
//! are as written.

use vstd::prelude::*;

verus! {

/// An identifier in its field form.
#[derive(Debug, Clone, Copy, PartialEq, Eq)]
pub struct Guid {
    pub data1: u32,
    pub data2: u16,
    pub data3: u16,
    pub data4: [u8; 8],
}

/// The fields of an identifier.
pub struct GuidView {
    pub data1: u32,
    pub data2: u16,
    pub data3: u16,
    pub data4: Seq<u8>,
}

impl View for Guid {
    type V = GuidView;

    open spec fn view(&self) -> GuidView {
        GuidView {
            data1: self.data1,
            data2: self.data2,
            data3: self.data3,
            data4: self.data4@,
        }
    }
}

/// The value of two little-endian bytes.
pub open spec fn le2(b: Seq<u8>, at: int) -> int {
    b[at] + 256 * b[at + 1]
}

/// The value of four little-endian bytes.
pub open spec fn le4(b: Seq<u8>, at: int) -> int {
    le2(b, at) + 65536 * le2(b, at + 2)
}

/// Whether sixteen bytes are the memory form of an identifier.
pub open spec fn is_memory_form(b: Seq<u8>, g: GuidView) -> bool {
    &&& b.len() == 16
    &&& le4(b, 0) == g.data1
    &&& le2(b, 4) == g.data2
    &&& le2(b, 6) == g.data3
    &&& b.subrange(8, 16) == g.data4
}

/// Read an identifier from its memory form.
pub fn guid_from_bytes(bytes: [u8; 16]) -> (g: Guid)
    ensures
        is_memory_form(bytes@, g@),
{
    let data1: u32 = bytes[0] as u32 + 256 * (bytes[1] as u32) + 65536 * (bytes[2] as u32)
        + 16777216 * (bytes[3] as u32);
    let data2: u16 = bytes[4] as u16 + 256 * (bytes[5] as u16);
    let data3: u16 = bytes[6] as u16 + 256 * (bytes[7] as u16);
    let data4: [u8; 8] = [
        bytes[8],
        bytes[9],
        bytes[10],
        bytes[11],
        bytes[12],
        bytes[13],
        bytes[14],
        bytes[15],
    ];
    assert(bytes@.subrange(8, 16) =~= data4@);
    Guid { data1, data2, data3, data4 }
}

/// The memory form of an identifier.
pub fn guid_to_bytes(g: Guid) -> (bytes: [u8; 16])
    ensures
        is_memory_form(bytes@, g@),
{
    let d: [u8; 8] = g.data4;
    let bytes: [u8; 16] = [
        (g.data1 % 256) as u8,
        (g.data1 / 256 % 256) as u8,
        (g.data1 / 65536 % 256) as u8,
        (g.data1 / 16777216) as u8,
        (g.data2 % 256) as u8,
        (g.data2 / 256) as u8,
        (g.data3 % 256) as u8,
        (g.data3 / 256) as u8,
        d[0],
        d[1],
        d[2],
        d[3],
        d[4],
        d[5],
        d[6],
        d[7],
    ];
    assert(bytes@.subrange(8, 16) =~= d@);
    bytes
}

/// The memory form determines the identifier and the identifier its memory
/// form: reading back what was written gives the same identifier.
pub proof fn memory_form_is_one_to_one(a: Seq<u8>, b: Seq<u8>, g: GuidView, h: GuidView)
    requires
        is_memory_form(a, g),
        is_memory_form(b, h),
    ensures
        a == b <==> g == h,
{
    if a == b {
        assert(g.data4 =~= h.data4);
    }
    if g == h {
        assert forall|i: int| 0 <= i < 16 implies a[i] == b[i] by {
            if i >= 8 {
                assert(a.subrange(8, 16)[i - 8] == a[i]);
                assert(b.subrange(8, 16)[i - 8] == b[i]);
            }
        }
        assert(a =~= b);
    }
}

/// Whether two identifiers are the same.
pub fn same_guid(a: &Guid, b: &Guid) -> (r: bool)
    ensures
        r == (a@ == b@),
{
    if a.data1 != b.data1 || a.data2 != b.data2 || a.data3 != b.data3 {
        return false;
    }
    let mut i: usize = 0;
    while i < 8
        invariant
            i <= 8,
            a.data1 == b.data1,
            a.data2 == b.data2,
            a.data3 == b.data3,
            forall|j: int| 0 <= j < i ==> a.data4@[j] == b.data4@[j],
        decreases 8 - i,
    {
        if a.data4[i] != b.data4[i] {
            assert(a@.data4[i as int] != b@.data4[i as int]);
            return false;
        }
        i = i + 1;
    }
    assert(a.data4@ =~= b.data4@);
    true
}

/// Whether one of `list` is `wanted`.
pub fn guid_listed(list: &[Guid], wanted: &Guid) -> (r: bool)
    ensures
        r == exists|i: int| 0 <= i < list@.len() && (#[trigger] list@[i])@ == wanted@,
{
    let mut i: usize = 0;
    while i < list.len()
        invariant
            i <= list@.len(),
            forall|j: int| 0 <= j < i ==> (#[trigger] list@[j])@ != wanted@,
        decreases list@.len() - i,
    {
        if same_guid(&list[i], wanted) {
            assert(list@[i as int]@ == wanted@);
            return true;
        }
        i = i + 1;
    }
    false
}

/// In memory the first three fields are little-endian, of four, two and two
/// bytes, and the last eight bytes are as written.
pub proof fn fields_are_little_endian(b: Seq<u8>, g: GuidView)
    requires
        is_memory_form(b, g),
    ensures
        b.len() == 16,
        g.data1 == b[0] + 0x100 * b[1] + 0x1_0000 * b[2] + 0x100_0000 * b[3],
        g.data2 == b[4] + 0x100 * b[5],
        g.data3 == b[6] + 0x100 * b[7],
        g.data4.len() == 8,
        forall|i: int| 0 <= i < 8 ==> #[trigger] g.data4[i] == b[8 + i],
{
}

/// Sixteen bytes are the memory form of the identifier whose fields they spell,
/// so every identifier has one.
pub proof fn little_endian_fields_are_the_memory_form(b: Seq<u8>, g: GuidView)
    requires
        b.len() == 16,
        g.data1 == b[0] + 0x100 * b[1] + 0x1_0000 * b[2] + 0x100_0000 * b[3],
        g.data2 == b[4] + 0x100 * b[5],
        g.data3 == b[6] + 0x100 * b[7],
        g.data4 == b.subrange(8, 16),
    ensures
        is_memory_form(b, g),
{
}

} // verus!
