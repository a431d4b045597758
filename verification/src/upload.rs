//! Writing whole 4:2:0 pictures into semi-planar surfaces: luma rows, then
//! rows of interleaved chroma.

use vstd::prelude::*;

use crate::frame;
use crate::planes::{self, copy_plane, copy_plane_lifted, interleave, interleave_lifted};

verus! {

/// One plane of a vendor surface, as the host maps it.
pub struct Plane {
    /// Whether the vendor gave no memory for it.
    pub null: bool,
    pub pitch: usize,
    pub bytes: Vec<u8>,
}

/// Bytes of one sample.
pub open spec fn sample_bytes(ten_bit: bool) -> int {
    if ten_bit {
        2
    } else {
        1
    }
}

/// Half an extent, without the odd sample.
pub(crate) fn half_down(n: usize) -> (r: usize)
    ensures
        r == n as int / 2,
        2 * r <= n,
{
    n / 2
}

/// That many zero bytes.
pub(crate) fn zeroed(len: usize) -> (v: Vec<u8>)
    ensures
        v@ == Seq::new(len as nat, |i: int| 0u8),
{
    let mut v: Vec<u8> = Vec::new();
    let mut i: usize = 0;
    while i < len
        invariant
            i <= len,
            v@.len() == i,
            forall|j: int| 0 <= j < i ==> v@[j] == 0,
        decreases len - i,
    {
        v.push(0);
        i = i + 1;
    }
    assert(v@ =~= Seq::new(len as nat, |i: int| 0u8));
    v
}

/// Bytes of a packed 4:2:0 picture whose chroma planes are `cw` by `ch`.
pub fn packed_bytes(w: u32, h: u32, cw: u32, ch: u32, ten_bit: bool) -> (n: u128)
    ensures
        n == frame::packed_420_len(w as int, h as int, cw as int, ch as int, sample_bytes(ten_bit)),
{
    proof {
        assert(0 <= w * h <= 0xffff_ffff * 0xffff_ffff) by (nonlinear_arith)
            requires
                w <= 0xffff_ffff,
                h <= 0xffff_ffff,
        ;
        assert(0 <= cw * ch <= 0xffff_ffff * 0xffff_ffff) by (nonlinear_arith)
            requires
                cw <= 0xffff_ffff,
                ch <= 0xffff_ffff,
        ;
    }
    let luma: u128 = w as u128 * h as u128;
    let chroma: u128 = cw as u128 * ch as u128;
    let samples: u128 = luma + 2 * chroma;
    if ten_bit {
        samples * 2
    } else {
        samples
    }
}

/// A surface after a picture was written into it: the luma rows from its
/// start, the chroma rows from `uv_off`. Ten-bit samples are lifted into the
/// upper ten bits of their words.
pub open spec fn uploaded(
    before: Seq<u8>,
    pitch: int,
    uv_off: int,
    uv_pitch: int,
    src: Seq<u8>,
    w: int,
    h: int,
    cw: int,
    ch: int,
    ten_bit: bool,
) -> Seq<u8> {
    if ten_bit {
        planes::painted(
            planes::painted(before, 0, pitch, 2 * w, h, planes::lifted_px(src, 0, w)),
            uv_off,
            uv_pitch,
            4 * cw,
            ch,
            planes::interleaved_lifted_px(src, 2 * (w * h), 2 * (w * h) + 2 * (cw * ch), cw),
        )
    } else {
        planes::painted(
            planes::painted(before, 0, pitch, w, h, planes::packed_px(src, 0, w)),
            uv_off,
            uv_pitch,
            2 * cw,
            ch,
            planes::interleaved_px(src, w * h, w * h + cw * ch, cw),
        )
    }
}

/// Whether a surface of `len` bytes has room for the picture's rows.
pub open spec fn surface_holds(
    len: nat,
    pitch: int,
    uv_off: int,
    uv_pitch: int,
    w: int,
    h: int,
    cw: int,
    ch: int,
    ten_bit: bool,
) -> bool {
    &&& planes::block_fits(len, 0, pitch, sample_bytes(ten_bit) * w, h)
    &&& planes::block_fits(len, uv_off, uv_pitch, 2 * sample_bytes(ten_bit) * cw, ch)
}

/// Write a picture into a surface.
pub fn upload(
    dst: &mut Vec<u8>,
    pitch: usize,
    uv_off: usize,
    uv_pitch: usize,
    src: &[u8],
    w: usize,
    h: usize,
    cw: usize,
    ch: usize,
    ten_bit: bool,
)
    requires
        surface_holds(
            old(dst)@.len(),
            pitch as int,
            uv_off as int,
            uv_pitch as int,
            w as int,
            h as int,
            cw as int,
            ch as int,
            ten_bit,
        ),
        frame::packed_420_len(w as int, h as int, cw as int, ch as int, sample_bytes(ten_bit))
            <= src@.len(),
    ensures
        final(dst)@ == uploaded(
            old(dst)@,
            pitch as int,
            uv_off as int,
            uv_pitch as int,
            src@,
            w as int,
            h as int,
            cw as int,
            ch as int,
            ten_bit,
        ),
{
    let len: usize = src.len();
    proof {
        assert(w * h == h * w) by (nonlinear_arith);
        assert(cw * ch == ch * cw) by (nonlinear_arith);
        assert(0 <= w * h) by (nonlinear_arith);
        assert(0 <= cw * ch) by (nonlinear_arith);
    }
    let luma: usize = w * h;
    let chroma: usize = cw * ch;
    if ten_bit {
        copy_plane_lifted(dst, 0, pitch, src, 0, w, h);
        interleave_lifted(dst, uv_off, uv_pitch, src, 2 * luma, 2 * luma + 2 * chroma, cw, ch);
    } else {
        copy_plane(dst, 0, pitch, src, 0, w, h);
        interleave(dst, uv_off, uv_pitch, src, luma, luma + chroma, cw, ch);
    }
}

/// Bytes that the picture's rows do not cover keep what they held: the padding
/// a surface was filled with once stays for good.
pub proof fn padding_is_never_touched(
    before: Seq<u8>,
    pitch: int,
    uv_off: int,
    uv_pitch: int,
    src: Seq<u8>,
    w: int,
    h: int,
    cw: int,
    ch: int,
    ten_bit: bool,
    i: int,
)
    requires
        0 <= i < before.len(),
        !planes::in_block(i, 0, pitch, sample_bytes(ten_bit) * w, h),
        !planes::in_block(i, uv_off, uv_pitch, 2 * sample_bytes(ten_bit) * cw, ch),
    ensures
        uploaded(before, pitch, uv_off, uv_pitch, src, w, h, cw, ch, ten_bit)[i] == before[i],
{
}

/// Whether the luma rows end before the chroma rows start.
pub open spec fn planes_apart(pitch: int, uv_off: int, w: int, h: int, ten_bit: bool) -> bool {
    h > 0 ==> (h - 1) * pitch + sample_bytes(ten_bit) * w <= uv_off
}

/// The luma sample `(x, y)` of the picture is the sample `(x, y)` that an
/// encoder reads from the surface.
pub proof fn luma_reads_back(
    before: Seq<u8>,
    pitch: int,
    uv_off: int,
    uv_pitch: int,
    src: Seq<u8>,
    w: int,
    h: int,
    cw: int,
    ch: int,
    ten_bit: bool,
    x: int,
    y: int,
)
    requires
        surface_holds(before.len(), pitch, uv_off, uv_pitch, w, h, cw, ch, ten_bit),
        planes_apart(pitch, uv_off, w, h, ten_bit),
        0 <= x < w,
        0 <= y < h,
    ensures
        ({
            let after = uploaded(before, pitch, uv_off, uv_pitch, src, w, h, cw, ch, ten_bit);
            if ten_bit {
                planes::le_word(after[y * pitch + 2 * x], after[y * pitch + 2 * x + 1])
                    == planes::lifted(
                    planes::le_word(src[2 * (y * w + x)], src[2 * (y * w + x) + 1]),
                )
            } else {
                after[y * pitch + x] == src[y * w + x]
            }
        }),
{
    assert(0 <= y * pitch <= (h - 1) * pitch) by (nonlinear_arith)
        requires
            0 <= y < h,
            0 < pitch,
    ;
    if ten_bit {
        planes::block_position(0, pitch, y, 2 * x);
        planes::block_position(0, pitch, y, 2 * x + 1);
        assert((2 * x) / 2 == x && (2 * x) % 2 == 0);
        assert((2 * x + 1) / 2 == x && (2 * x + 1) % 2 == 1);
        planes::lifted_bytes_make_the_word(src[2 * (y * w + x)], src[2 * (y * w + x) + 1]);
    } else {
        planes::block_position(0, pitch, y, x);
    }
}

/// The two chroma samples `(x, y)` of the picture are the pair `(x, y)` that
/// an encoder reads from the surface's chroma rows, U first.
pub proof fn chroma_reads_back(
    before: Seq<u8>,
    pitch: int,
    uv_off: int,
    uv_pitch: int,
    src: Seq<u8>,
    w: int,
    h: int,
    cw: int,
    ch: int,
    ten_bit: bool,
    x: int,
    y: int,
)
    requires
        surface_holds(before.len(), pitch, uv_off, uv_pitch, w, h, cw, ch, ten_bit),
        0 <= uv_off,
        0 <= x < cw,
        0 <= y < ch,
    ensures
        ({
            let after = uploaded(before, pitch, uv_off, uv_pitch, src, w, h, cw, ch, ten_bit);
            let at = uv_off + y * uv_pitch;
            let i = y * cw + x;
            if ten_bit {
                let u = 2 * (w * h) + 2 * i;
                let v = 2 * (w * h) + 2 * (cw * ch) + 2 * i;
                &&& planes::le_word(after[at + 4 * x], after[at + 4 * x + 1]) == planes::lifted(
                    planes::le_word(src[u], src[u + 1]),
                )
                &&& planes::le_word(after[at + 4 * x + 2], after[at + 4 * x + 3])
                    == planes::lifted(planes::le_word(src[v], src[v + 1]))
            } else {
                &&& after[at + 2 * x] == src[w * h + i]
                &&& after[at + 2 * x + 1] == src[w * h + cw * ch + i]
            }
        }),
{
    if ten_bit {
        assert(2 * sample_bytes(ten_bit) * cw == 4 * cw);
    } else {
        assert(2 * sample_bytes(ten_bit) * cw == 2 * cw);
    }
    assert(0 <= y * uv_pitch <= (ch - 1) * uv_pitch) by (nonlinear_arith)
        requires
            0 <= y < ch,
            0 < uv_pitch,
    ;
    let i = y * cw + x;
    if ten_bit {
        let u = 2 * (w * h) + 2 * i;
        let v = 2 * (w * h) + 2 * (cw * ch) + 2 * i;
        planes::block_position(uv_off, uv_pitch, y, 4 * x);
        planes::block_position(uv_off, uv_pitch, y, 4 * x + 1);
        planes::block_position(uv_off, uv_pitch, y, 4 * x + 2);
        planes::block_position(uv_off, uv_pitch, y, 4 * x + 3);
        assert((4 * x) % 2 == 0 && ((4 * x) / 2) % 2 == 0 && (4 * x) / 4 == x);
        assert((4 * x + 1) % 2 == 1 && ((4 * x + 1) / 2) % 2 == 0 && (4 * x + 1) / 4 == x);
        assert((4 * x + 2) % 2 == 0 && ((4 * x + 2) / 2) % 2 == 1 && (4 * x + 2) / 4 == x);
        assert((4 * x + 3) % 2 == 1 && ((4 * x + 3) / 2) % 2 == 1 && (4 * x + 3) / 4 == x);
        planes::lifted_bytes_make_the_word(src[u], src[u + 1]);
        planes::lifted_bytes_make_the_word(src[v], src[v + 1]);
    } else {
        planes::block_position(uv_off, uv_pitch, y, 2 * x);
        planes::block_position(uv_off, uv_pitch, y, 2 * x + 1);
        assert((2 * x) / 2 == x && (2 * x) % 2 == 0);
        assert((2 * x + 1) / 2 == x && (2 * x + 1) % 2 == 1);
    }
}

/// Nothing of an earlier picture shows through: writing one picture over
/// another of the same size leaves what writing the second alone would.
pub proof fn a_picture_replaces_the_last(
    before: Seq<u8>,
    pitch: int,
    uv_off: int,
    uv_pitch: int,
    first: Seq<u8>,
    second: Seq<u8>,
    w: int,
    h: int,
    cw: int,
    ch: int,
    ten_bit: bool,
)
    ensures
        uploaded(
            uploaded(before, pitch, uv_off, uv_pitch, first, w, h, cw, ch, ten_bit),
            pitch,
            uv_off,
            uv_pitch,
            second,
            w,
            h,
            cw,
            ch,
            ten_bit,
        ) == uploaded(before, pitch, uv_off, uv_pitch, second, w, h, cw, ch, ten_bit),
{
    assert(uploaded(
        uploaded(before, pitch, uv_off, uv_pitch, first, w, h, cw, ch, ten_bit),
        pitch,
        uv_off,
        uv_pitch,
        second,
        w,
        h,
        cw,
        ch,
        ten_bit,
    ) =~= uploaded(before, pitch, uv_off, uv_pitch, second, w, h, cw, ch, ten_bit));
}

} // verus!
