//! Numbers of the AMF API, and the variants its properties carry.

use vstd::prelude::*;

use crate::guid::{self, Guid};

verus! {

pub const AMF_OK: i32 = 0;
pub const AMF_FAIL: i32 = 1;
pub const AMF_INVALID_ARG: i32 = 4;
pub const AMF_NOT_SUPPORTED: i32 = 10;
pub const AMF_NOT_FOUND: i32 = 11;
pub const AMF_NO_DEVICE: i32 = 17;
pub const AMF_EOF: i32 = 23;
pub const AMF_REPEAT: i32 = 24;
pub const AMF_INPUT_FULL: i32 = 25;
pub const AMF_CODEC_NOT_SUPPORTED: i32 = 30;
pub const AMF_SURFACE_FORMAT_NOT_SUPPORTED: i32 = 31;
pub const AMF_ENCODER_NOT_PRESENT: i32 = 36;
pub const AMF_NEED_MORE_INPUT: i32 = 44;

pub const AMF_MEMORY_HOST: i32 = 1;
pub const AMF_DX11_0: i32 = 110;
pub const AMF_DX11_1: i32 = 111;
pub const AMF_SURFACE_NV12: i32 = 1;
/// Words whose upper ten bits are used.
pub const AMF_SURFACE_P010: i32 = 10;
pub const AMF_PLANE_Y: i32 = 2;
pub const AMF_PLANE_UV: i32 = 3;

pub const AMF_VARIANT_EMPTY: i32 = 0;
pub const AMF_VARIANT_BOOL: i32 = 1;
pub const AMF_VARIANT_INT64: i32 = 2;
pub const AMF_VARIANT_RATE: i32 = 7;

pub const AMF_COLOR_BIT_DEPTH_8: i64 = 8;
pub const AMF_COLOR_BIT_DEPTH_10: i64 = 10;
pub const AMF_COLOR_PROFILE_709: i64 = 1;
pub const AMF_COLOR_PROFILE_2020: i64 = 2;
pub const AMF_COLOR_PROFILE_FULL_709: i64 = 7;
pub const AMF_COLOR_PROFILE_FULL_2020: i64 = 8;

/// Slots of the in-flight counter.
pub const RING_SIZE: usize = 4;
/// How often a submission is repeated while the input queue is full.
pub const INPUT_FULL_MAX_RETRIES: u32 = 16;
pub const INPUT_FULL_BACKOFF_MS_INITIAL: u64 = 1;
pub const INPUT_FULL_BACKOFF_MS_MAX: u64 = 16;

/// The version asked of the runtime, 1.4.30: old enough for every driver in
/// use, new enough for every property that is set.
pub const AMF_VERSION: u64 = 0x0001_0004_001e_0000;

/// A full version number: sixteen bits each of major, minor, release and
/// build.
pub open spec fn full_version(major: int, minor: int, release: int, build: int) -> int {
    major * 0x1_0000_0000_0000 + minor * 0x1_0000_0000 + release * 0x1_0000 + build
}

/// A full version number.
pub fn amf_make_version(major: u16, minor: u16, release: u16, build: u16) -> (v: u64)
    ensures
        v == full_version(major as int, minor as int, release as int, build as int),
{
    major as u64 * 0x1_0000_0000_0000 + minor as u64 * 0x1_0000_0000 + release as u64 * 0x1_0000
        + build as u64
}

/// The version asked for is 1.4.30, and no two versions share a number.
pub proof fn versions_are_told_apart(a: (u16, u16, u16, u16), b: (u16, u16, u16, u16))
    ensures
        AMF_VERSION == full_version(1, 4, 30, 0),
        full_version(a.0 as int, a.1 as int, a.2 as int, a.3 as int) == full_version(
            b.0 as int,
            b.1 as int,
            b.2 as int,
            b.3 as int,
        ) ==> a == b,
{
}

/// The name of a status in diagnostics.
pub open spec fn status_label(rc: i32) -> Seq<char> {
    if rc == AMF_OK {
        "AMF_OK"@
    } else if rc == AMF_FAIL {
        "AMF_FAIL"@
    } else if rc == AMF_INVALID_ARG {
        "AMF_INVALID_ARG"@
    } else if rc == AMF_NOT_SUPPORTED {
        "AMF_NOT_SUPPORTED"@
    } else if rc == AMF_NOT_FOUND {
        "AMF_NOT_FOUND"@
    } else if rc == AMF_NO_DEVICE {
        "AMF_NO_DEVICE"@
    } else if rc == AMF_EOF {
        "AMF_EOF"@
    } else if rc == AMF_REPEAT {
        "AMF_REPEAT"@
    } else if rc == AMF_INPUT_FULL {
        "AMF_INPUT_FULL"@
    } else if rc == AMF_CODEC_NOT_SUPPORTED {
        "AMF_CODEC_NOT_SUPPORTED"@
    } else if rc == AMF_SURFACE_FORMAT_NOT_SUPPORTED {
        "AMF_SURFACE_FORMAT_NOT_SUPPORTED"@
    } else if rc == AMF_ENCODER_NOT_PRESENT {
        "AMF_ENCODER_NOT_PRESENT"@
    } else if rc == AMF_NEED_MORE_INPUT {
        "AMF_NEED_MORE_INPUT"@
    } else {
        "AMF_RESULT(other)"@
    }
}

/// The name of a status in diagnostics.
pub fn result_name(rc: i32) -> (s: &'static str)
    ensures
        s@ == status_label(rc),
{
    if rc == AMF_OK {
        "AMF_OK"
    } else if rc == AMF_FAIL {
        "AMF_FAIL"
    } else if rc == AMF_INVALID_ARG {
        "AMF_INVALID_ARG"
    } else if rc == AMF_NOT_SUPPORTED {
        "AMF_NOT_SUPPORTED"
    } else if rc == AMF_NOT_FOUND {
        "AMF_NOT_FOUND"
    } else if rc == AMF_NO_DEVICE {
        "AMF_NO_DEVICE"
    } else if rc == AMF_EOF {
        "AMF_EOF"
    } else if rc == AMF_REPEAT {
        "AMF_REPEAT"
    } else if rc == AMF_INPUT_FULL {
        "AMF_INPUT_FULL"
    } else if rc == AMF_CODEC_NOT_SUPPORTED {
        "AMF_CODEC_NOT_SUPPORTED"
    } else if rc == AMF_SURFACE_FORMAT_NOT_SUPPORTED {
        "AMF_SURFACE_FORMAT_NOT_SUPPORTED"
    } else if rc == AMF_ENCODER_NOT_PRESENT {
        "AMF_ENCODER_NOT_PRESENT"
    } else if rc == AMF_NEED_MORE_INPUT {
        "AMF_NEED_MORE_INPUT"
    } else {
        "AMF_RESULT(other)"
    }
}

/// The interface of a coded buffer.
pub open spec fn buffer_iid() -> guid::GuidView {
    guid::GuidView {
        data1: 0xb04b7248,
        data2: 0xb6f0,
        data3: 0x4321,
        data4: seq![0xb6, 0x91, 0xba, 0xa4, 0x74, 0x0f, 0x9f, 0xcb],
    }
}

/// The interface of a context that takes a Vulkan device.
pub open spec fn context1_iid() -> guid::GuidView {
    guid::GuidView {
        data1: 0xd9e9f868,
        data2: 0x6220,
        data3: 0x44c6,
        data4: seq![0xa2, 0x2f, 0x7c, 0xd6, 0xda, 0xc6, 0x86, 0x46],
    }
}

/// The interface of a coded buffer.
pub fn amf_iid_buffer() -> (g: Guid)
    ensures
        g@ == buffer_iid(),
{
    let g: Guid = Guid {
        data1: 0xb04b7248,
        data2: 0xb6f0,
        data3: 0x4321,
        data4: [0xb6, 0x91, 0xba, 0xa4, 0x74, 0x0f, 0x9f, 0xcb],
    };
    assert(g@.data4 =~= buffer_iid().data4);
    g
}

/// The interface of a context that takes a Vulkan device.
pub fn amf_iid_context1() -> (g: Guid)
    ensures
        g@ == context1_iid(),
{
    let g: Guid = Guid {
        data1: 0xd9e9f868,
        data2: 0x6220,
        data3: 0x44c6,
        data4: [0xa2, 0x2f, 0x7c, 0xd6, 0xda, 0xc6, 0x86, 0x46],
    };
    assert(g@.data4 =~= context1_iid().data4);
    g
}

/// A property's value.
#[derive(Debug, Clone, Copy, PartialEq, Eq, Structural)]
pub enum AmfVariant {
    Empty,
    Int64(i64),
    Bool(bool),
    Rate { num: u32, den: u32 },
}

/// Byte `k` of a number, the lowest first.
pub open spec fn le_byte(n: int, k: int) -> u8
    recommends
        0 <= k < 8,
{
    let p = if k == 0 {
        1int
    } else if k == 1 {
        0x100
    } else if k == 2 {
        0x1_0000
    } else if k == 3 {
        0x100_0000
    } else if k == 4 {
        0x1_0000_0000
    } else if k == 5 {
        0x100_0000_0000
    } else if k == 6 {
        0x1_0000_0000_0000
    } else {
        0x100_0000_0000_0000
    };
    ((n / p) % 256) as u8
}

/// A signed number as the 64-bit word that holds it.
pub open spec fn word_of(v: i64) -> int {
    if v < 0 {
        v + 0x1_0000_0000_0000_0000
    } else {
        v as int
    }
}

impl AmfVariant {
    /// The tag that says which kind of value it is.
    pub open spec fn tag(self) -> i32 {
        match self {
            AmfVariant::Empty => AMF_VARIANT_EMPTY,
            AmfVariant::Int64(_) => AMF_VARIANT_INT64,
            AmfVariant::Bool(_) => AMF_VARIANT_BOOL,
            AmfVariant::Rate { .. } => AMF_VARIANT_RATE,
        }
    }

    /// The first eight bytes of the value, as a number.
    pub open spec fn payload(self) -> int {
        match self {
            AmfVariant::Empty => 0,
            AmfVariant::Int64(v) => word_of(v),
            AmfVariant::Bool(b) => if b {
                1
            } else {
                0
            },
            AmfVariant::Rate { num, den } => num + den * 0x1_0000_0000,
        }
    }

    /// The variant as the runtime sees it in memory: four bytes of tag, four
    /// unused, and sixteen of value.
    pub open spec fn memory(self) -> Seq<u8> {
        Seq::new(
            24,
            |i: int|
                if i < 4 {
                    le_byte(self.tag() as int, i)
                } else if 8 <= i < 16 {
                    le_byte(self.payload(), i - 8)
                } else {
                    0u8
                },
        )
    }

    /// The tag that says which kind of value it is.
    pub fn ty(&self) -> (t: i32)
        ensures
            t == self.tag(),
    {
        match self {
            AmfVariant::Empty => AMF_VARIANT_EMPTY,
            AmfVariant::Int64(_) => AMF_VARIANT_INT64,
            AmfVariant::Bool(_) => AMF_VARIANT_BOOL,
            AmfVariant::Rate { .. } => AMF_VARIANT_RATE,
        }
    }

    /// No value.
    pub fn empty() -> (v: Self)
        ensures
            v == AmfVariant::Empty,
    {
        AmfVariant::Empty
    }

    /// An integer.
    pub fn int64(v: i64) -> (r: Self)
        ensures
            r == AmfVariant::Int64(v),
    {
        AmfVariant::Int64(v)
    }

    /// A truth value.
    pub fn bool_(v: bool) -> (r: Self)
        ensures
            r == AmfVariant::Bool(v),
    {
        AmfVariant::Bool(v)
    }

    /// A rational.
    pub fn rate(num: u32, den: u32) -> (r: Self)
        ensures
            r == (AmfVariant::Rate { num, den }),
    {
        AmfVariant::Rate { num, den }
    }

    /// The integer, if it is one.
    pub fn as_int64(&self) -> (r: Option<i64>)
        ensures
            r == (match *self {
                AmfVariant::Int64(v) => Some(v),
                _ => None,
            }),
    {
        match self {
            AmfVariant::Int64(v) => Some(*v),
            _ => None,
        }
    }

    /// The truth value, if it is one.
    pub fn as_bool(&self) -> (r: Option<bool>)
        ensures
            r == (match *self {
                AmfVariant::Bool(v) => Some(v),
                _ => None,
            }),
    {
        match self {
            AmfVariant::Bool(v) => Some(*v),
            _ => None,
        }
    }

    /// The rational, if it is one.
    pub fn as_rate(&self) -> (r: Option<(u32, u32)>)
        ensures
            r == (match *self {
                AmfVariant::Rate { num, den } => Some((num, den)),
                _ => None,
            }),
    {
        match self {
            AmfVariant::Rate { num, den } => Some((*num, *den)),
            _ => None,
        }
    }

    /// The variant as the runtime sees it in memory.
    pub fn to_memory(&self) -> (v: Vec<u8>)
        ensures
            v@ == self.memory(),
    {
        let tag: i32 = self.ty();
        let n: u64 = match self {
            AmfVariant::Empty => 0,
            AmfVariant::Int64(v) => {
                let s: i64 = *v;
                if s < 0 {
                    ((s as i128) + 0x1_0000_0000_0000_0000) as u64
                } else {
                    s as u64
                }
            },
            AmfVariant::Bool(b) => if *b {
                1
            } else {
                0
            },
            AmfVariant::Rate { num, den } => *num as u64 + *den as u64 * 0x1_0000_0000,
        };
        let mut v: Vec<u8> = Vec::new();
        v.push((tag % 256) as u8);
        let mut i: usize = 1;
        while i < 8
            invariant
                1 <= i <= 8,
                v@.len() == i,
                0 <= tag < 256,
                v@[0] == tag,
                forall|j: int| 1 <= j < i ==> v@[j] == 0,
            decreases 8 - i,
        {
            v.push(0);
            i = i + 1;
        }
        let ghost pre = v@;
        assert(forall|j: int| 0 <= j < 4 ==> pre[j] == #[trigger] le_byte(tag as int, j));
        v.push((n % 256) as u8);
        v.push((n / 0x100 % 256) as u8);
        v.push((n / 0x1_0000 % 256) as u8);
        v.push((n / 0x100_0000 % 256) as u8);
        v.push((n / 0x1_0000_0000 % 256) as u8);
        v.push((n / 0x100_0000_0000 % 256) as u8);
        v.push((n / 0x1_0000_0000_0000 % 256) as u8);
        v.push((n / 0x100_0000_0000_0000 % 256) as u8);
        let ghost head = v@;
        let mut k: usize = 0;
        while k < 8
            invariant
                k <= 8,
                v@.len() == 16 + k,
                head.len() == 16,
                forall|j: int| 0 <= j < 16 ==> v@[j] == head[j],
                forall|j: int| 16 <= j < 16 + k ==> v@[j] == 0,
            decreases 8 - k,
        {
            v.push(0);
            k = k + 1;
        }
        proof {
            assert(n == self.payload());
            assert(head[8] == le_byte(n as int, 0));
            assert(head[9] == le_byte(n as int, 1));
            assert(head[10] == le_byte(n as int, 2));
            assert(head[11] == le_byte(n as int, 3));
            assert(head[12] == le_byte(n as int, 4));
            assert(head[13] == le_byte(n as int, 5));
            assert(head[14] == le_byte(n as int, 6));
            assert(head[15] == le_byte(n as int, 7));
            assert forall|i: int| 0 <= i < 24 implies v@[i] == #[trigger] self.memory()[i] by {
                if i < 16 {
                    assert(v@[i] == head[i]);
                }
                if i < 8 {
                    assert(head[i] == pre[i]);
                }
                if i < 4 {
                    assert(pre[i] == le_byte(tag as int, i));
                    assert(self.memory()[i] == le_byte(self.tag() as int, i));
                } else if 8 <= i < 16 {
                    assert(self.memory()[i] == le_byte(self.payload(), i - 8));
                    let k = i - 8;
                    assert(head[8 + k] == le_byte(n as int, k));
                }
            }
        }
        assert(v@ =~= self.memory());
        v
    }
}

/// The memory form of a variant determines it.
pub proof fn variants_are_told_apart(a: AmfVariant, b: AmfVariant)
    requires
        a.memory() == b.memory(),
    ensures
        a == b,
{
    assert(le_byte(a.tag() as int, 0) == a.memory()[0]);
    assert(le_byte(b.tag() as int, 0) == b.memory()[0]);
    assert forall|k: int| 0 <= k < 8 implies #[trigger] le_byte(a.payload(), k) == le_byte(
        b.payload(),
        k,
    ) by {
        let i = 8 + k;
        assert(a.memory()[i] == le_byte(a.payload(), i - 8));
        assert(b.memory()[i] == le_byte(b.payload(), i - 8));
    }
    le_bytes_determine(a.payload(), b.payload());
}

/// A 64-bit number is the sum of its bytes.
proof fn le_bytes_sum(n: int)
    requires
        0 <= n < 0x1_0000_0000_0000_0000,
    ensures
        n == le_byte(n, 0) + le_byte(n, 1) * 0x100 + le_byte(n, 2) * 0x1_0000 + le_byte(n, 3)
            * 0x100_0000 + le_byte(n, 4) * 0x1_0000_0000 + le_byte(n, 5) * 0x100_0000_0000
            + le_byte(n, 6) * 0x1_0000_0000_0000 + le_byte(n, 7) * 0x100_0000_0000_0000,
{
    let n1 = n / 256;
    let n2 = n1 / 256;
    let n3 = n2 / 256;
    let n4 = n3 / 256;
    let n5 = n4 / 256;
    let n6 = n5 / 256;
    let n7 = n6 / 256;
    assert(n / 0x1_0000 == n2);
    assert(n / 0x100_0000 == n3);
    assert(n / 0x1_0000_0000 == n4);
    assert(n / 0x100_0000_0000 == n5);
    assert(n / 0x1_0000_0000_0000 == n6);
    assert(n / 0x100_0000_0000_0000 == n7);
    assert(n7 < 256);
}

proof fn le_bytes_determine(a: int, b: int)
    requires
        0 <= a < 0x1_0000_0000_0000_0000,
        0 <= b < 0x1_0000_0000_0000_0000,
        forall|k: int| 0 <= k < 8 ==> #[trigger] le_byte(a, k) == le_byte(b, k),
    ensures
        a == b,
{
    le_bytes_sum(a);
    le_bytes_sum(b);
    assert(le_byte(a, 0) == le_byte(b, 0));
    assert(le_byte(a, 1) == le_byte(b, 1));
    assert(le_byte(a, 2) == le_byte(b, 2));
    assert(le_byte(a, 3) == le_byte(b, 3));
    assert(le_byte(a, 4) == le_byte(b, 4));
    assert(le_byte(a, 5) == le_byte(b, 5));
    assert(le_byte(a, 6) == le_byte(b, 6));
    assert(le_byte(a, 7) == le_byte(b, 7));
}

/// A name as the runtime takes it where its characters are 32 bits wide, as
/// everywhere but on Windows: the characters as words, ended by a zero.
pub open spec fn wide_units(s: Seq<char>) -> Seq<u32> {
    s.map_values(|c: char| c as u32).push(0)
}

/// A name as the runtime takes it where its characters are 32 bits wide.
pub fn wide(s: &str) -> (v: Vec<u32>)
    ensures
        v@ == wide_units(s@),
{
    let n: usize = s.unicode_len();
    let mut v: Vec<u32> = Vec::new();
    let mut i: usize = 0;
    while i < n
        invariant
            i <= n,
            n == s@.len(),
            v@.len() == i,
            forall|j: int| 0 <= j < i ==> v@[j] == s@[j] as u32,
        decreases n - i,
    {
        v.push(s.get_char(i) as u32);
        i = i + 1;
    }
    v.push(0);
    assert(v@ =~= wide_units(s@));
    v
}

/// A character in 16-bit units: itself, or past the range of one unit the two
/// surrogates that stand for it.
pub open spec fn char_units16(c: char) -> Seq<u16> {
    let n = c as u32;
    if n < 0x1_0000 {
        seq![n as u16]
    } else {
        seq![(0xd800 + (n - 0x1_0000) / 0x400) as u16, (0xdc00 + (n - 0x1_0000) % 0x400) as u16]
    }
}

/// The first `n` characters of a name in 16-bit units.
pub open spec fn units16(s: Seq<char>, n: int) -> Seq<u16>
    decreases n,
{
    if n <= 0 {
        Seq::empty()
    } else {
        units16(s, n - 1) + char_units16(s[n - 1])
    }
}

/// A name as the runtime takes it where its characters are 16 bits wide, as on
/// Windows: ended by a zero.
pub open spec fn wide_units16(s: Seq<char>) -> Seq<u16> {
    units16(s, s.len() as int).push(0)
}

/// A name as the runtime takes it where its characters are 16 bits wide.
pub fn wide16(s: &str) -> (v: Vec<u16>)
    ensures
        v@ == wide_units16(s@),
{
    let n: usize = s.unicode_len();
    let mut v: Vec<u16> = Vec::new();
    let mut i: usize = 0;
    while i < n
        invariant
            i <= n,
            n == s@.len(),
            v@ == units16(s@, i as int),
        decreases n - i,
    {
        let ghost before = v@;
        let c: u32 = s.get_char(i) as u32;
        if c < 0x1_0000 {
            v.push(c as u16);
        } else {
            let past: u32 = c - 0x1_0000;
            v.push((0xd800 + past / 0x400) as u16);
            v.push((0xdc00 + past % 0x400) as u16);
        }
        assert(v@ =~= before + char_units16(s@[i as int]));
        i = i + 1;
    }
    v.push(0);
    v
}

/// A name of single-unit characters, as every property name is, has one unit
/// per character and the zero, whichever width they are.
pub proof fn widths_agree(s: Seq<char>)
    requires
        forall|i: int| 0 <= i < s.len() ==> (#[trigger] s[i] as u32) < 0x1_0000,
    ensures
        wide_units16(s).len() == s.len() + 1,
        wide_units16(s).last() == 0,
        wide_units16(s).map_values(|u: u16| u as u32) == wide_units(s),
{
    single_units(s, s.len() as int);
    assert(wide_units16(s).map_values(|u: u16| u as u32) =~= wide_units(s));
}

proof fn single_units(s: Seq<char>, n: int)
    requires
        0 <= n <= s.len(),
        forall|i: int| 0 <= i < s.len() ==> (#[trigger] s[i] as u32) < 0x1_0000,
    ensures
        units16(s, n).len() == n,
        forall|i: int| 0 <= i < n ==> #[trigger] units16(s, n)[i] as u32 == s[i] as u32,
    decreases n,
{
    if n > 0 {
        single_units(s, n - 1);
        assert((s[n - 1] as u32) < 0x1_0000);
        assert forall|i: int| 0 <= i < n implies #[trigger] units16(s, n)[i] as u32 == s[i] as u32 by {
            if i < n - 1 {
                assert(units16(s, n)[i] == units16(s, n - 1)[i]);
            }
        }
    }
}

proof fn units_are_told_apart(a: char, b: char)
    requires
        a as u32 == b as u32,
    ensures
        a == b,
{
}

/// A wide name has one unit per character and the zero, and reads back as the
/// name.
pub proof fn wide_names_read_back(a: Seq<char>, b: Seq<char>)
    ensures
        wide_units(a).len() == a.len() + 1,
        wide_units(a).last() == 0,
        wide_units(a) == wide_units(b) ==> a == b,
{
    assert(wide_units(a).len() == a.len() + 1);
    assert(wide_units(b).len() == b.len() + 1);
    if wide_units(a) == wide_units(b) {
        assert(a.len() == b.len());
        assert forall|i: int| 0 <= i < a.len() implies a[i] == b[i] by {
            assert(wide_units(a)[i] == a[i] as u32);
            assert(wide_units(b)[i] == b[i] as u32);
            units_are_told_apart(a[i], b[i]);
        }
        assert(a =~= b);
    }
}

/// In memory a variant starts with its kind, one for truth values, two for
/// integers, seven for rationals and zero for none, in four bytes, and has its
/// value from the ninth byte on, lowest byte first: an integer as it is, a
/// rational as numerator and then denominator. Every other byte is zero.
pub proof fn variants_lie_in_memory_as_they_are(v: AmfVariant)
    ensures
        ({
            let m = v.memory();
            let low = m[8] + m[9] * 0x100 + m[10] * 0x1_0000 + m[11] * 0x100_0000;
            let high = m[12] + m[13] * 0x100 + m[14] * 0x1_0000 + m[15] * 0x100_0000;
            &&& m.len() == 24
            &&& m[1] == 0 && m[2] == 0 && m[3] == 0
            &&& m[4] == 0 && m[5] == 0 && m[6] == 0 && m[7] == 0
            &&& forall|i: int| 16 <= i < 24 ==> #[trigger] m[i] == 0
            &&& match v {
                AmfVariant::Empty => m[0] == 0 && low == 0 && high == 0,
                AmfVariant::Bool(b) => m[0] == 1 && high == 0 && low == (if b {
                    1int
                } else {
                    0
                }),
                AmfVariant::Int64(n) => m[0] == 2 && low + high * 0x1_0000_0000 == (if n < 0 {
                    n + 0x1_0000_0000_0000_0000
                } else {
                    n as int
                }),
                AmfVariant::Rate { num, den } => m[0] == 7 && low == num && high == den,
            }
        }),
{
    let m = v.memory();
    let p = v.payload();
    le_bytes_sum(p);
    assert(m[8] == le_byte(p, 0) && m[9] == le_byte(p, 1) && m[10] == le_byte(p, 2) && m[11]
        == le_byte(p, 3));
    assert(m[12] == le_byte(p, 4) && m[13] == le_byte(p, 5) && m[14] == le_byte(p, 6) && m[15]
        == le_byte(p, 7));
    assert(m[0] == le_byte(v.tag() as int, 0));
    assert(m[1] == le_byte(v.tag() as int, 1) && m[2] == le_byte(v.tag() as int, 2) && m[3]
        == le_byte(v.tag() as int, 3));
}

/// A character in 16-bit units reads back as itself: in one unit below 0x10000,
/// and past that in a high and a low surrogate of ten bits each.
pub proof fn units16_read_back(c: char)
    ensures
        ({
            let u = char_units16(c);
            &&& (c as u32) < 0x1_0000 <==> u.len() == 1
            &&& u.len() == 1 ==> u[0] as u32 == c as u32
            &&& u.len() != 1 ==> {
                &&& u.len() == 2
                &&& 0xd800 <= u[0] < 0xdc00
                &&& 0xdc00 <= u[1] < 0xe000
                &&& 0x1_0000 + (u[0] - 0xd800) * 0x400 + (u[1] - 0xdc00) == c as u32
            }
        }),
{
}

/// Each part of a version reads back from its own sixteen bits, the major from
/// the highest and the build from the lowest.
pub proof fn versions_read_back(major: u16, minor: u16, release: u16, build: u16)
    ensures
        ({
            let v = full_version(major as int, minor as int, release as int, build as int);
            &&& v % 0x1_0000 == build
            &&& v / 0x1_0000 % 0x1_0000 == release
            &&& v / 0x1_0000_0000 % 0x1_0000 == minor
            &&& v / 0x1_0000_0000_0000 == major
        }),
{
}

} // verus!
