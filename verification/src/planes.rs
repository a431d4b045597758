//! Copying planar 4:2:0 pictures into the surfaces encoders read.
//!
//! Every encoder takes a picture as rows a fixed *pitch* apart: a luma plane
//! verbatim, and either two chroma planes or one plane with U and V
//! interleaved. At ten bits each sample is a little-endian word, and the
//! surface wants the value in the word's upper ten bits.
//!
//! The contracts here say what each byte of the surface is afterwards: the
//! picture's byte where the block covers it, and whatever was there before
//! everywhere else (the padding a surface is filled with once stays).

use vstd::prelude::*;

verus! {

broadcast use vstd::group_vstd_default;

/// Row of byte `i` in a block that starts at `off` with rows `pitch` apart.
pub open spec fn row_of(i: int, off: int, pitch: int) -> int {
    (i - off) / pitch
}

/// Column (in bytes) of byte `i` in a block that starts at `off`.
pub open spec fn col_of(i: int, off: int, pitch: int) -> int {
    (i - off) % pitch
}

/// Whether the block of `rows` rows of `row_bytes` bytes covers byte `i`.
pub open spec fn in_block(i: int, off: int, pitch: int, row_bytes: int, rows: int) -> bool {
    &&& off <= i
    &&& 0 < row_bytes <= pitch
    &&& row_of(i, off, pitch) < rows
    &&& col_of(i, off, pitch) < row_bytes
}

/// Whether the block lies inside `len` bytes. A block without rows or without
/// columns covers nothing and fits anywhere.
pub open spec fn block_fits(
    len: nat,
    off: int,
    pitch: int,
    row_bytes: int,
    rows: int,
) -> bool {
    ||| rows == 0
    ||| row_bytes == 0
    ||| {
        &&& row_bytes <= pitch
        &&& off + (rows - 1) * pitch + row_bytes <= len
    }
}

/// `old` with the block painted over: byte `(r, c)` of the block is
/// `px(r, c)`, every byte outside it is untouched.
pub open spec fn painted(
    old: Seq<u8>,
    off: int,
    pitch: int,
    row_bytes: int,
    rows: int,
    px: spec_fn(int, int) -> u8,
) -> Seq<u8> {
    Seq::new(
        old.len(),
        |i: int|
            if in_block(i, off, pitch, row_bytes, rows) {
                px(row_of(i, off, pitch), col_of(i, off, pitch))
            } else {
                old[i]
            },
    )
}

/// The block painted up to row `r`, column `c`.
spec fn painted_upto(
    old: Seq<u8>,
    off: int,
    pitch: int,
    row_bytes: int,
    r: int,
    c: int,
    px: spec_fn(int, int) -> u8,
) -> Seq<u8> {
    Seq::new(
        old.len(),
        |i: int|
            if off <= i && 0 < row_bytes <= pitch && col_of(i, off, pitch) < row_bytes && (row_of(
                i,
                off,
                pitch,
            ) < r || (row_of(i, off, pitch) == r && col_of(i, off, pitch) < c)) {
                px(row_of(i, off, pitch), col_of(i, off, pitch))
            } else {
                old[i]
            },
    )
}

/// Where byte `(r, c)` of a block is, it is found again.
pub proof fn block_position(off: int, pitch: int, r: int, c: int)
    requires
        0 <= r,
        0 <= c < pitch,
    ensures
        row_of(off + r * pitch + c, off, pitch) == r,
        col_of(off + r * pitch + c, off, pitch) == c,
{
    vstd::arithmetic::div_mod::lemma_fundamental_div_mod_converse(r * pitch + c, pitch, r, c);
}

proof fn block_index(i: int, off: int, pitch: int)
    requires
        0 < pitch,
        off <= i,
    ensures
        i == off + row_of(i, off, pitch) * pitch + col_of(i, off, pitch),
        0 <= col_of(i, off, pitch) < pitch,
        0 <= row_of(i, off, pitch),
{
    vstd::arithmetic::div_mod::lemma_fundamental_div_mod(i - off, pitch);
    assert(pitch * ((i - off) / pitch) == ((i - off) / pitch) * pitch) by (nonlinear_arith);
    vstd::arithmetic::div_mod::lemma_div_pos_is_pos(i - off, pitch);
}

/// Writing byte `(r, c)` extends the painted part by one byte.
proof fn paint_step(
    old: Seq<u8>,
    off: int,
    pitch: int,
    row_bytes: int,
    r: int,
    c: int,
    px: spec_fn(int, int) -> u8,
)
    requires
        0 <= off,
        0 <= r,
        0 <= c < row_bytes <= pitch,
        off + r * pitch + c < old.len(),
    ensures
        painted_upto(old, off, pitch, row_bytes, r, c, px).update(
            off + r * pitch + c,
            px(r, c),
        ) == painted_upto(old, off, pitch, row_bytes, r, c + 1, px),
{
    let j = off + r * pitch + c;
    assert(0 <= j) by (nonlinear_arith)
        requires
            j == off + r * pitch + c,
            0 <= off,
            0 <= r,
            0 <= c < pitch,
    ;
    block_position(off, pitch, r, c);
    let a = painted_upto(old, off, pitch, row_bytes, r, c, px).update(j, px(r, c));
    let b = painted_upto(old, off, pitch, row_bytes, r, c + 1, px);
    assert forall|i: int| 0 <= i < old.len() implies a[i] == b[i] by {
        if i != j && off <= i {
            block_index(i, off, pitch);
        }
    }
    assert(a =~= b);
}

/// A finished row is the same as the next row not begun.
proof fn paint_row_done(
    old: Seq<u8>,
    off: int,
    pitch: int,
    row_bytes: int,
    r: int,
    px: spec_fn(int, int) -> u8,
)
    requires
        0 <= r,
    ensures
        painted_upto(old, off, pitch, row_bytes, r, row_bytes, px) == painted_upto(
            old,
            off,
            pitch,
            row_bytes,
            r + 1,
            0,
            px,
        ),
{
    let a = painted_upto(old, off, pitch, row_bytes, r, row_bytes, px);
    let b = painted_upto(old, off, pitch, row_bytes, r + 1, 0, px);
    assert forall|i: int| 0 <= i < old.len() implies a[i] == b[i] by {
        if off <= i && 0 < row_bytes <= pitch {
            block_index(i, off, pitch);
        }
    }
    assert(a =~= b);
}

proof fn paint_begins(
    old: Seq<u8>,
    off: int,
    pitch: int,
    row_bytes: int,
    px: spec_fn(int, int) -> u8,
)
    ensures
        painted_upto(old, off, pitch, row_bytes, 0, 0, px) == old,
{
    let a = painted_upto(old, off, pitch, row_bytes, 0, 0, px);
    assert forall|i: int| 0 <= i < old.len() implies a[i] == old[i] by {
        if off <= i && 0 < row_bytes <= pitch {
            block_index(i, off, pitch);
        }
    }
    assert(a =~= old);
}

proof fn paint_ends(
    old: Seq<u8>,
    off: int,
    pitch: int,
    row_bytes: int,
    rows: int,
    px: spec_fn(int, int) -> u8,
)
    ensures
        painted_upto(old, off, pitch, row_bytes, rows, 0, px) == painted(
            old,
            off,
            pitch,
            row_bytes,
            rows,
            px,
        ),
{
    let a = painted_upto(old, off, pitch, row_bytes, rows, 0, px);
    let b = painted(old, off, pitch, row_bytes, rows, px);
    assert forall|i: int| 0 <= i < old.len() implies a[i] == b[i] by {
        if off <= i && 0 < row_bytes <= pitch {
            block_index(i, off, pitch);
        }
    }
    assert(a =~= b);
}

/// A block of no columns paints nothing.
proof fn paint_empty(
    old: Seq<u8>,
    off: int,
    pitch: int,
    rows: int,
    px: spec_fn(int, int) -> u8,
)
    ensures
        painted(old, off, pitch, 0, rows, px) == old,
{
    assert(painted(old, off, pitch, 0, rows, px) =~= old);
}

/// The end of row `r` of a block lies inside the surface.
proof fn row_fits(len: nat, off: int, pitch: int, row_bytes: int, rows: int, r: int)
    requires
        0 <= off,
        0 <= r < rows,
        0 < row_bytes,
        block_fits(len, off, pitch, row_bytes, rows),
    ensures
        row_bytes <= pitch,
        0 <= r * pitch,
        off + r * pitch + row_bytes <= len,
{
    assert(r * pitch <= (rows - 1) * pitch) by (nonlinear_arith)
        requires
            0 <= r < rows,
            0 < pitch,
    ;
    assert(0 <= r * pitch) by (nonlinear_arith)
        requires
            0 <= r,
            0 < pitch,
    ;
}

/// Row `r` of a tightly packed plane lies inside its buffer.
proof fn packed_row_fits(row_bytes: int, rows: int, r: int)
    requires
        0 <= row_bytes,
        0 <= r < rows,
    ensures
        0 <= r * row_bytes,
        r * row_bytes + row_bytes <= rows * row_bytes,
{
    assert(r * row_bytes + row_bytes <= rows * row_bytes) by (nonlinear_arith)
        requires
            0 <= row_bytes,
            0 <= r < rows,
    ;
    assert(0 <= r * row_bytes) by (nonlinear_arith)
        requires
            0 <= r,
            0 <= row_bytes,
    ;
}

/// Byte `(r, c)` of a tightly packed plane at `src_off`.
pub open spec fn packed_px(src: Seq<u8>, src_off: int, row_bytes: int) -> spec_fn(int, int) -> u8 {
    |r: int, c: int| src[src_off + r * row_bytes + c]
}

/// Copy a tightly packed plane into the rows of a surface.
pub fn copy_plane(
    dst: &mut Vec<u8>,
    off: usize,
    pitch: usize,
    src: &[u8],
    src_off: usize,
    row_bytes: usize,
    rows: usize,
)
    requires
        block_fits(old(dst)@.len(), off as int, pitch as int, row_bytes as int, rows as int),
        src_off + rows * row_bytes <= src@.len(),
    ensures
        final(dst)@ == painted(
            old(dst)@,
            off as int,
            pitch as int,
            row_bytes as int,
            rows as int,
            packed_px(src@, src_off as int, row_bytes as int),
        ),
{
    let ghost before = dst@;
    let dst_len: usize = dst.len();
    let src_len: usize = src.len();
    let ghost px = packed_px(src@, src_off as int, row_bytes as int);
    if row_bytes == 0 {
        proof {
            paint_empty(before, off as int, pitch as int, rows as int, px);
        }
        return;
    }
    proof {
        paint_begins(before, off as int, pitch as int, row_bytes as int, px);
    }
    let mut r: usize = 0;
    while r < rows
        invariant
            r <= rows,
            0 < row_bytes,
            px == packed_px(src@, src_off as int, row_bytes as int),
            before.len() == dst@.len() == dst_len,
            src@.len() == src_len,
            block_fits(before.len(), off as int, pitch as int, row_bytes as int, rows as int),
            src_off + rows * row_bytes <= src@.len(),
            dst@ == painted_upto(
                before,
                off as int,
                pitch as int,
                row_bytes as int,
                r as int,
                0,
                px,
            ),
        decreases rows - r,
    {
        proof {
            row_fits(
                before.len(),
                off as int,
                pitch as int,
                row_bytes as int,
                rows as int,
                r as int,
            );
            packed_row_fits(row_bytes as int, rows as int, r as int);
        }
        let dst_row: usize = off + r * pitch;
        let src_row: usize = src_off + r * row_bytes;
        let mut c: usize = 0;
        while c < row_bytes
            invariant
                c <= row_bytes,
                row_bytes <= pitch,
                r < rows,
                px == packed_px(src@, src_off as int, row_bytes as int),
                before.len() == dst@.len() == dst_len,
                src@.len() == src_len,
                dst_row == off + r * pitch,
                src_row == src_off + r * row_bytes,
                dst_row + row_bytes <= before.len(),
                src_row + row_bytes <= src@.len(),
                dst@ == painted_upto(
                    before,
                    off as int,
                    pitch as int,
                    row_bytes as int,
                    r as int,
                    c as int,
                    px,
                ),
            decreases row_bytes - c,
        {
            proof {
                paint_step(
                    before,
                    off as int,
                    pitch as int,
                    row_bytes as int,
                    r as int,
                    c as int,
                    px,
                );
            }
            let b: u8 = src[src_row + c];
            dst.set(dst_row + c, b);
            c = c + 1;
        }
        proof {
            paint_row_done(before, off as int, pitch as int, row_bytes as int, r as int, px);
        }
        r = r + 1;
    }
    proof {
        paint_ends(before, off as int, pitch as int, row_bytes as int, rows as int, px);
    }
}

/// Byte `(r, c)` of an interleaved chroma plane: U in the even bytes, V in the
/// odd ones, both from tightly packed planes `cw` samples wide.
pub open spec fn interleaved_px(src: Seq<u8>, u_off: int, v_off: int, cw: int) -> spec_fn(
    int,
    int,
) -> u8 {
    |r: int, c: int|
        if c % 2 == 0 {
            src[u_off + r * cw + c / 2]
        } else {
            src[v_off + r * cw + c / 2]
        }
}

/// Interleave two tightly packed chroma planes into the rows of a surface.
pub fn interleave(
    dst: &mut Vec<u8>,
    off: usize,
    pitch: usize,
    src: &[u8],
    u_off: usize,
    v_off: usize,
    cw: usize,
    ch: usize,
)
    requires
        block_fits(old(dst)@.len(), off as int, pitch as int, 2 * cw, ch as int),
        u_off + ch * cw <= src@.len(),
        v_off + ch * cw <= src@.len(),
    ensures
        final(dst)@ == painted(
            old(dst)@,
            off as int,
            pitch as int,
            2 * cw,
            ch as int,
            interleaved_px(src@, u_off as int, v_off as int, cw as int),
        ),
{
    let ghost before = dst@;
    let dst_len: usize = dst.len();
    let src_len: usize = src.len();
    let ghost px = interleaved_px(src@, u_off as int, v_off as int, cw as int);
    if cw == 0 {
        proof {
            paint_empty(before, off as int, pitch as int, ch as int, px);
        }
        return;
    }
    proof {
        paint_begins(before, off as int, pitch as int, 2 * cw, px);
    }
    let mut r: usize = 0;
    while r < ch
        invariant
            r <= ch,
            0 < cw,
            px == interleaved_px(src@, u_off as int, v_off as int, cw as int),
            before.len() == dst@.len() == dst_len,
            src@.len() == src_len,
            block_fits(before.len(), off as int, pitch as int, 2 * cw, ch as int),
            u_off + ch * cw <= src@.len(),
            v_off + ch * cw <= src@.len(),
            dst@ == painted_upto(before, off as int, pitch as int, 2 * cw, r as int, 0, px),
        decreases ch - r,
    {
        proof {
            row_fits(before.len(), off as int, pitch as int, 2 * cw, ch as int, r as int);
            packed_row_fits(cw as int, ch as int, r as int);
        }
        let dst_row: usize = off + r * pitch;
        let u_row: usize = u_off + r * cw;
        let v_row: usize = v_off + r * cw;
        let mut c: usize = 0;
        while c < cw
            invariant
                c <= cw,
                2 * cw <= pitch,
                r < ch,
                px == interleaved_px(src@, u_off as int, v_off as int, cw as int),
                before.len() == dst@.len() == dst_len,
                src@.len() == src_len,
                dst_row == off + r * pitch,
                u_row == u_off + r * cw,
                v_row == v_off + r * cw,
                dst_row + 2 * cw <= before.len(),
                u_row + cw <= src@.len(),
                v_row + cw <= src@.len(),
                dst@ == painted_upto(
                    before,
                    off as int,
                    pitch as int,
                    2 * cw,
                    r as int,
                    2 * c,
                    px,
                ),
            decreases cw - c,
        {
            proof {
                assert((2 * c) % 2 == 0 && (2 * c) / 2 == c);
                assert((2 * c + 1) % 2 == 1 && (2 * c + 1) / 2 == c);
                paint_step(before, off as int, pitch as int, 2 * cw, r as int, 2 * c, px);
                paint_step(before, off as int, pitch as int, 2 * cw, r as int, 2 * c + 1, px);
            }
            let u: u8 = src[u_row + c];
            let v: u8 = src[v_row + c];
            dst.set(dst_row + 2 * c, u);
            dst.set(dst_row + 2 * c + 1, v);
            c = c + 1;
        }
        proof {
            paint_row_done(before, off as int, pitch as int, 2 * cw, r as int, px);
        }
        r = r + 1;
    }
    proof {
        paint_ends(before, off as int, pitch as int, 2 * cw, ch as int, px);
    }
}

/// The value of a little-endian word.
pub open spec fn le_word(lo: u8, hi: u8) -> int {
    lo + 256 * hi
}

/// A ten-bit sample moved from the lower ten bits of a word to the upper ten.
pub open spec fn lifted(word: int) -> int {
    (word % 1024) * 64
}

/// Byte `b` (0 is the low one) of the lifted word made of `lo` and `hi`.
pub open spec fn lifted_byte(lo: u8, hi: u8, b: int) -> u8 {
    if b == 0 {
        (lifted(le_word(lo, hi)) % 256) as u8
    } else {
        (lifted(le_word(lo, hi)) / 256) as u8
    }
}

/// Lift one little-endian ten-bit sample.
pub fn lift_sample(lo: u8, hi: u8) -> (out: (u8, u8))
    ensures
        out.0 == lifted_byte(lo, hi, 0),
        out.1 == lifted_byte(lo, hi, 1),
        le_word(out.0, out.1) == lifted(le_word(lo, hi)),
{
    let word: u16 = lo as u16 + 256 * (hi as u16);
    let up: u16 = (word % 1024) * 64;
    ((up % 256) as u8, (up / 256) as u8)
}

/// Shifting a word up by six bits and keeping sixteen lifts it, with or without
/// first masking the sample down to ten bits: the bits above the tenth are the
/// ones the shift drops.
pub proof fn lifting_is_a_shift_by_six(word: u16)
    ensures
        ((word & 0x3ff) << 6) == lifted(word as int),
        (word << 6) == lifted(word as int),
{
    assert(((word & 0x3ff) << 6) == (word % 1024) * 64) by (bit_vector);
    assert((word << 6) == (word % 1024) * 64) by (bit_vector);
}

/// The two bytes of a lifted sample are the lifted word.
pub proof fn lifted_bytes_make_the_word(lo: u8, hi: u8)
    ensures
        le_word(lifted_byte(lo, hi, 0), lifted_byte(lo, hi, 1)) == lifted(le_word(lo, hi)),
{
}

/// No two ten-bit samples are lifted to the same word.
pub proof fn lifting_keeps_samples_apart(a: int, b: int)
    requires
        0 <= a < 1024,
        0 <= b < 1024,
        lifted(a) == lifted(b),
    ensures
        a == b,
{
}

/// Byte `(r, c)` of a plane of lifted ten-bit samples, `w` samples wide.
pub open spec fn lifted_px(src: Seq<u8>, src_off: int, w: int) -> spec_fn(int, int) -> u8 {
    |r: int, c: int|
        lifted_byte(
            src[src_off + 2 * (r * w + c / 2)],
            src[src_off + 2 * (r * w + c / 2) + 1],
            c % 2,
        )
}

/// Copy a tightly packed ten-bit plane into the rows of a surface, lifting
/// each sample.
pub fn copy_plane_lifted(
    dst: &mut Vec<u8>,
    off: usize,
    pitch: usize,
    src: &[u8],
    src_off: usize,
    w: usize,
    h: usize,
)
    requires
        block_fits(old(dst)@.len(), off as int, pitch as int, 2 * w, h as int),
        src_off + 2 * (h * w) <= src@.len(),
    ensures
        final(dst)@ == painted(
            old(dst)@,
            off as int,
            pitch as int,
            2 * w,
            h as int,
            lifted_px(src@, src_off as int, w as int),
        ),
{
    let ghost before = dst@;
    let dst_len: usize = dst.len();
    let src_len: usize = src.len();
    let ghost px = lifted_px(src@, src_off as int, w as int);
    if w == 0 {
        proof {
            paint_empty(before, off as int, pitch as int, h as int, px);
        }
        return;
    }
    proof {
        paint_begins(before, off as int, pitch as int, 2 * w, px);
    }
    let mut r: usize = 0;
    while r < h
        invariant
            r <= h,
            0 < w,
            px == lifted_px(src@, src_off as int, w as int),
            before.len() == dst@.len() == dst_len,
            src@.len() == src_len,
            block_fits(before.len(), off as int, pitch as int, 2 * w, h as int),
            src_off + 2 * (h * w) <= src@.len(),
            dst@ == painted_upto(before, off as int, pitch as int, 2 * w, r as int, 0, px),
        decreases h - r,
    {
        proof {
            row_fits(before.len(), off as int, pitch as int, 2 * w, h as int, r as int);
            packed_row_fits(w as int, h as int, r as int);
        }
        let dst_row: usize = off + r * pitch;
        let src_row: usize = src_off + 2 * (r * w);
        let mut c: usize = 0;
        while c < w
            invariant
                c <= w,
                2 * w <= pitch,
                r < h,
                px == lifted_px(src@, src_off as int, w as int),
                before.len() == dst@.len() == dst_len,
                src@.len() == src_len,
                dst_row == off + r * pitch,
                src_row == src_off + 2 * (r * w),
                dst_row + 2 * w <= before.len(),
                src_row + 2 * w <= src@.len(),
                dst@ == painted_upto(
                    before,
                    off as int,
                    pitch as int,
                    2 * w,
                    r as int,
                    2 * c,
                    px,
                ),
            decreases w - c,
        {
            proof {
                assert((2 * c) % 2 == 0 && (2 * c) / 2 == c);
                assert((2 * c + 1) % 2 == 1 && (2 * c + 1) / 2 == c);
                paint_step(before, off as int, pitch as int, 2 * w, r as int, 2 * c, px);
                paint_step(before, off as int, pitch as int, 2 * w, r as int, 2 * c + 1, px);
            }
            let up: (u8, u8) = lift_sample(src[src_row + 2 * c], src[src_row + 2 * c + 1]);
            dst.set(dst_row + 2 * c, up.0);
            dst.set(dst_row + 2 * c + 1, up.1);
            c = c + 1;
        }
        proof {
            paint_row_done(before, off as int, pitch as int, 2 * w, r as int, px);
        }
        r = r + 1;
    }
    proof {
        paint_ends(before, off as int, pitch as int, 2 * w, h as int, px);
    }
}

/// Byte `(r, c)` of an interleaved plane of lifted ten-bit chroma samples.
pub open spec fn interleaved_lifted_px(
    src: Seq<u8>,
    u_off: int,
    v_off: int,
    cw: int,
) -> spec_fn(int, int) -> u8 {
    |r: int, c: int|
        {
            let base = if (c / 2) % 2 == 0 {
                u_off
            } else {
                v_off
            };
            lifted_byte(
                src[base + 2 * (r * cw + c / 4)],
                src[base + 2 * (r * cw + c / 4) + 1],
                c % 2,
            )
        }
}

/// Interleave two tightly packed ten-bit chroma planes into the rows of a
/// surface, lifting each sample.
pub fn interleave_lifted(
    dst: &mut Vec<u8>,
    off: usize,
    pitch: usize,
    src: &[u8],
    u_off: usize,
    v_off: usize,
    cw: usize,
    ch: usize,
)
    requires
        block_fits(old(dst)@.len(), off as int, pitch as int, 4 * cw, ch as int),
        u_off + 2 * (ch * cw) <= src@.len(),
        v_off + 2 * (ch * cw) <= src@.len(),
    ensures
        final(dst)@ == painted(
            old(dst)@,
            off as int,
            pitch as int,
            4 * cw,
            ch as int,
            interleaved_lifted_px(src@, u_off as int, v_off as int, cw as int),
        ),
{
    let ghost before = dst@;
    let dst_len: usize = dst.len();
    let src_len: usize = src.len();
    let ghost px = interleaved_lifted_px(src@, u_off as int, v_off as int, cw as int);
    if cw == 0 {
        proof {
            paint_empty(before, off as int, pitch as int, ch as int, px);
        }
        return;
    }
    proof {
        paint_begins(before, off as int, pitch as int, 4 * cw, px);
    }
    let mut r: usize = 0;
    while r < ch
        invariant
            r <= ch,
            0 < cw,
            px == interleaved_lifted_px(src@, u_off as int, v_off as int, cw as int),
            before.len() == dst@.len() == dst_len,
            src@.len() == src_len,
            block_fits(before.len(), off as int, pitch as int, 4 * cw, ch as int),
            u_off + 2 * (ch * cw) <= src@.len(),
            v_off + 2 * (ch * cw) <= src@.len(),
            dst@ == painted_upto(before, off as int, pitch as int, 4 * cw, r as int, 0, px),
        decreases ch - r,
    {
        proof {
            row_fits(before.len(), off as int, pitch as int, 4 * cw, ch as int, r as int);
            packed_row_fits(cw as int, ch as int, r as int);
        }
        let dst_row: usize = off + r * pitch;
        let u_row: usize = u_off + 2 * (r * cw);
        let v_row: usize = v_off + 2 * (r * cw);
        let mut c: usize = 0;
        while c < cw
            invariant
                c <= cw,
                4 * cw <= pitch,
                r < ch,
                px == interleaved_lifted_px(src@, u_off as int, v_off as int, cw as int),
                before.len() == dst@.len() == dst_len,
                src@.len() == src_len,
                dst_row == off + r * pitch,
                u_row == u_off + 2 * (r * cw),
                v_row == v_off + 2 * (r * cw),
                dst_row + 4 * cw <= before.len(),
                u_row + 2 * cw <= src@.len(),
                v_row + 2 * cw <= src@.len(),
                dst@ == painted_upto(
                    before,
                    off as int,
                    pitch as int,
                    4 * cw,
                    r as int,
                    4 * c,
                    px,
                ),
            decreases cw - c,
        {
            proof {
                assert((4 * c) % 2 == 0 && ((4 * c) / 2) % 2 == 0 && (4 * c) / 4 == c);
                assert((4 * c + 1) % 2 == 1 && ((4 * c + 1) / 2) % 2 == 0 && (4 * c + 1) / 4
                    == c);
                assert((4 * c + 2) % 2 == 0 && ((4 * c + 2) / 2) % 2 == 1 && (4 * c + 2) / 4
                    == c);
                assert((4 * c + 3) % 2 == 1 && ((4 * c + 3) / 2) % 2 == 1 && (4 * c + 3) / 4
                    == c);
                paint_step(before, off as int, pitch as int, 4 * cw, r as int, 4 * c, px);
                paint_step(before, off as int, pitch as int, 4 * cw, r as int, 4 * c + 1, px);
                paint_step(before, off as int, pitch as int, 4 * cw, r as int, 4 * c + 2, px);
                paint_step(before, off as int, pitch as int, 4 * cw, r as int, 4 * c + 3, px);
            }
            let u: (u8, u8) = lift_sample(src[u_row + 2 * c], src[u_row + 2 * c + 1]);
            let v: (u8, u8) = lift_sample(src[v_row + 2 * c], src[v_row + 2 * c + 1]);
            dst.set(dst_row + 4 * c, u.0);
            dst.set(dst_row + 4 * c + 1, u.1);
            dst.set(dst_row + 4 * c + 2, v.0);
            dst.set(dst_row + 4 * c + 3, v.1);
            c = c + 1;
        }
        proof {
            paint_row_done(before, off as int, pitch as int, 4 * cw, r as int, px);
        }
        r = r + 1;
    }
    proof {
        paint_ends(before, off as int, pitch as int, 4 * cw, ch as int, px);
    }
}

/// Painting the same block twice with the same picture changes nothing more.
pub proof fn repainting_is_idempotent(
    old: Seq<u8>,
    off: int,
    pitch: int,
    row_bytes: int,
    rows: int,
    px: spec_fn(int, int) -> u8,
)
    ensures
        painted(
            painted(old, off, pitch, row_bytes, rows, px),
            off,
            pitch,
            row_bytes,
            rows,
            px,
        ) == painted(old, off, pitch, row_bytes, rows, px),
{
    assert(painted(
        painted(old, off, pitch, row_bytes, rows, px),
        off,
        pitch,
        row_bytes,
        rows,
        px,
    ) =~= painted(old, off, pitch, row_bytes, rows, px));
}

/// A block that fits has room for each of its bytes.
proof fn byte_lies_inside(len: nat, off: int, pitch: int, row_bytes: int, rows: int, r: int, c: int)
    requires
        0 <= off,
        0 <= r < rows,
        0 <= c < row_bytes,
        block_fits(len, off, pitch, row_bytes, rows),
    ensures
        0 <= off + r * pitch + c < len,
        in_block(off + r * pitch + c, off, pitch, row_bytes, rows),
        row_of(off + r * pitch + c, off, pitch) == r,
        col_of(off + r * pitch + c, off, pitch) == c,
{
    row_fits(len, off, pitch, row_bytes, rows, r);
    block_position(off, pitch, r, c);
}

/// What an encoder reads at `(x, y)` of a copied plane is the sample `(x, y)`
/// of the picture's plane.
pub proof fn copied_samples_read_back(
    before: Seq<u8>,
    off: int,
    pitch: int,
    src: Seq<u8>,
    src_off: int,
    w: int,
    h: int,
    x: int,
    y: int,
)
    requires
        0 <= off,
        0 <= x < w,
        0 <= y < h,
        block_fits(before.len(), off, pitch, w, h),
    ensures
        painted(before, off, pitch, w, h, packed_px(src, src_off, w))[off + y * pitch + x] == src[
        src_off + (y * w + x)],
{
    byte_lies_inside(before.len(), off, pitch, w, h, y, x);
}

/// What an encoder reads as pair `(x, y)` of an interleaved plane is the sample
/// `(x, y)` of the first chroma plane, then that of the second.
pub proof fn interleaved_samples_read_back(
    before: Seq<u8>,
    off: int,
    pitch: int,
    src: Seq<u8>,
    u_off: int,
    v_off: int,
    cw: int,
    ch: int,
    x: int,
    y: int,
)
    requires
        0 <= off,
        0 <= x < cw,
        0 <= y < ch,
        block_fits(before.len(), off, pitch, 2 * cw, ch),
    ensures
        ({
            let after = painted(
                before,
                off,
                pitch,
                2 * cw,
                ch,
                interleaved_px(src, u_off, v_off, cw),
            );
            &&& after[off + y * pitch + 2 * x] == src[u_off + (y * cw + x)]
            &&& after[off + y * pitch + 2 * x + 1] == src[v_off + (y * cw + x)]
        }),
{
    byte_lies_inside(before.len(), off, pitch, 2 * cw, ch, y, 2 * x);
    byte_lies_inside(before.len(), off, pitch, 2 * cw, ch, y, 2 * x + 1);
    assert((2 * x) / 2 == x && (2 * x) % 2 == 0);
    assert((2 * x + 1) / 2 == x && (2 * x + 1) % 2 == 1);
    assert(off + y * pitch + (2 * x + 1) == off + y * pitch + 2 * x + 1);
}

/// What an encoder reads as word `(x, y)` of a lifted plane is the ten-bit
/// sample `(x, y)` of the picture's plane, times 64.
pub proof fn lifted_samples_read_back(
    before: Seq<u8>,
    off: int,
    pitch: int,
    src: Seq<u8>,
    src_off: int,
    w: int,
    h: int,
    x: int,
    y: int,
)
    requires
        0 <= off,
        0 <= x < w,
        0 <= y < h,
        block_fits(before.len(), off, pitch, 2 * w, h),
    ensures
        ({
            let after = painted(before, off, pitch, 2 * w, h, lifted_px(src, src_off, w));
            let at = off + y * pitch + 2 * x;
            let from = src_off + 2 * (y * w + x);
            after[at] + 256 * after[at + 1] == (src[from] + 256 * src[from + 1]) % 1024 * 64
        }),
{
    byte_lies_inside(before.len(), off, pitch, 2 * w, h, y, 2 * x);
    byte_lies_inside(before.len(), off, pitch, 2 * w, h, y, 2 * x + 1);
    assert((2 * x) / 2 == x && (2 * x) % 2 == 0);
    assert((2 * x + 1) / 2 == x && (2 * x + 1) % 2 == 1);
    assert(off + y * pitch + (2 * x + 1) == off + y * pitch + 2 * x + 1);
    let from = src_off + 2 * (y * w + x);
    lifted_bytes_make_the_word(src[from], src[from + 1]);
}

/// What an encoder reads as pair `(x, y)` of a lifted interleaved plane is the
/// ten-bit sample `(x, y)` of the first chroma plane, then that of the second,
/// both times 64.
pub proof fn interleaved_lifted_samples_read_back(
    before: Seq<u8>,
    off: int,
    pitch: int,
    src: Seq<u8>,
    u_off: int,
    v_off: int,
    cw: int,
    ch: int,
    x: int,
    y: int,
)
    requires
        0 <= off,
        0 <= x < cw,
        0 <= y < ch,
        block_fits(before.len(), off, pitch, 4 * cw, ch),
    ensures
        ({
            let after = painted(
                before,
                off,
                pitch,
                4 * cw,
                ch,
                interleaved_lifted_px(src, u_off, v_off, cw),
            );
            let at = off + y * pitch + 4 * x;
            let u = u_off + 2 * (y * cw + x);
            let v = v_off + 2 * (y * cw + x);
            &&& after[at] + 256 * after[at + 1] == (src[u] + 256 * src[u + 1]) % 1024 * 64
            &&& after[at + 2] + 256 * after[at + 3] == (src[v] + 256 * src[v + 1]) % 1024 * 64
        }),
{
    let at = off + y * pitch + 4 * x;
    byte_lies_inside(before.len(), off, pitch, 4 * cw, ch, y, 4 * x);
    byte_lies_inside(before.len(), off, pitch, 4 * cw, ch, y, 4 * x + 1);
    byte_lies_inside(before.len(), off, pitch, 4 * cw, ch, y, 4 * x + 2);
    byte_lies_inside(before.len(), off, pitch, 4 * cw, ch, y, 4 * x + 3);
    assert((4 * x) % 2 == 0 && ((4 * x) / 2) % 2 == 0 && (4 * x) / 4 == x);
    assert((4 * x + 1) % 2 == 1 && ((4 * x + 1) / 2) % 2 == 0 && (4 * x + 1) / 4 == x);
    assert((4 * x + 2) % 2 == 0 && ((4 * x + 2) / 2) % 2 == 1 && (4 * x + 2) / 4 == x);
    assert((4 * x + 3) % 2 == 1 && ((4 * x + 3) / 2) % 2 == 1 && (4 * x + 3) / 4 == x);
    assert(off + y * pitch + (4 * x + 1) == at + 1);
    assert(off + y * pitch + (4 * x + 2) == at + 2);
    assert(off + y * pitch + (4 * x + 3) == at + 3);
    let u = u_off + 2 * (y * cw + x);
    let v = v_off + 2 * (y * cw + x);
    lifted_bytes_make_the_word(src[u], src[u + 1]);
    lifted_bytes_make_the_word(src[v], src[v + 1]);
}

/// A byte past the end of every row, or of no row, keeps what it held.
pub proof fn bytes_off_the_rows_stay(
    before: Seq<u8>,
    off: int,
    pitch: int,
    row_bytes: int,
    rows: int,
    px: spec_fn(int, int) -> u8,
    i: int,
)
    requires
        0 <= i < before.len(),
        0 < row_bytes <= pitch,
        i < off || (i - off) % pitch >= row_bytes || (i - off) / pitch >= rows,
    ensures
        painted(before, off, pitch, row_bytes, rows, px)[i] == before[i],
        painted(before, off, pitch, row_bytes, rows, px).len() == before.len(),
{
}

} // verus!
