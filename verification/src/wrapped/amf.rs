//! AMF through its session wrapper: what a session is configured with, and
//! how pictures are laid out on its surfaces.

use vstd::prelude::*;

use super::session::{self, check_frame, PlaneName, WrapperError};
use crate::config::EncoderConfig;
use crate::dispatch::EncoderBackend;
use crate::frame::{self, PixelFormat, VideoFrame};
use crate::planes::{self, copy_plane, copy_plane_lifted, interleave, interleave_lifted};
use crate::rate::{self, wrapper_frame_rate};
use crate::tuning::AmfAv1Params;
use crate::upload::{self, half_down, packed_bytes, Plane};

verus! {

/// Surface formats the wrapper takes.
#[derive(Debug, Clone, Copy, PartialEq, Eq, Structural)]
pub enum AmfFrameFormat {
    Nv12,
    P010,
}

/// What a session is configured with, besides the fixed choice of the AV1 main
/// profile and constant-quantiser rate control.
#[derive(Debug, Clone, Copy, PartialEq, Eq, Structural)]
pub struct AmfSettings {
    pub width: u32,
    pub height: u32,
    pub frame_format: AmfFrameFormat,
    pub framerate_num: u32,
    pub framerate_den: u32,
    pub qpi: u16,
    pub qpp: u16,
    pub qpb: u16,
    pub gop_pic_size: u16,
}

/// The surface format of a pixel format.
pub open spec fn frame_format(f: PixelFormat) -> Option<AmfFrameFormat> {
    match f {
        PixelFormat::Yuv420p => Some(AmfFrameFormat::Nv12),
        PixelFormat::Yuv420p10le => Some(AmfFrameFormat::P010),
        _ => None,
    }
}

/// What a session is configured with.
pub open spec fn settings_of(c: EncoderConfig, tp: AmfAv1Params, fmt: AmfFrameFormat) -> AmfSettings {
    AmfSettings {
        width: c.width,
        height: c.height,
        frame_format: fmt,
        framerate_num: rate::wrapper_rational(c.frame_rate).0,
        framerate_den: rate::wrapper_rational(c.frame_rate).1,
        qpi: tp.q_index_intra as u16,
        qpp: tp.q_index_inter as u16,
        qpb: tp.q_index_inter as u16,
        gop_pic_size: rate::clamp_int(c.keyframe_interval as int, 1, 65535) as u16,
    }
}

/// Map a configuration and a tuning row to the wrapper's.
pub fn settings(c: &EncoderConfig, tp: &AmfAv1Params) -> (r: Result<AmfSettings, WrapperError>)
    ensures
        match frame_format(c.pixel_format) {
            Some(fmt) => r == Ok::<AmfSettings, WrapperError>(settings_of(*c, *tp, fmt)),
            None => r == Err::<AmfSettings, WrapperError>(
                WrapperError::UnsupportedFormat {
                    backend: EncoderBackend::Amf,
                    format: c.pixel_format,
                },
            ),
        },
{
    let fmt: AmfFrameFormat = match c.pixel_format {
        PixelFormat::Yuv420p => AmfFrameFormat::Nv12,
        PixelFormat::Yuv420p10le => AmfFrameFormat::P010,
        other => {
            return Err(
                WrapperError::UnsupportedFormat { backend: EncoderBackend::Amf, format: other },
            );
        },
    };
    let fr: (u32, u32) = wrapper_frame_rate(c.frame_rate);
    Ok(
        AmfSettings {
            width: c.width,
            height: c.height,
            frame_format: fmt,
            framerate_num: fr.0,
            framerate_den: fr.1,
            qpi: tp.q_index_intra as u16,
            qpp: tp.q_index_inter as u16,
            qpb: tp.q_index_inter as u16,
            gop_pic_size: if c.keyframe_interval < 1 {
                1
            } else if c.keyframe_interval > 65535 {
                65535
            } else {
                c.keyframe_interval as u16
            },
        },
    )
}

/// Bytes of a picture whose odd edges have no chroma of their own.
pub open spec fn frame_bytes(w: u32, h: u32, ten_bit: bool) -> int {
    frame::packed_420_len(
        w as int,
        h as int,
        w as int / 2,
        h as int / 2,
        upload::sample_bytes(ten_bit),
    )
}

/// Bytes of a row of luma, and of interleaved chroma.
pub open spec fn row_bytes(w: u32, ten_bit: bool) -> (int, int) {
    (
        upload::sample_bytes(ten_bit) * w,
        2 * upload::sample_bytes(ten_bit) * (w as int / 2),
    )
}

fn rows_of(w: u32, ten_bit: bool) -> (r: (u64, u64))
    ensures
        r.0 == row_bytes(w, ten_bit).0,
        r.1 == row_bytes(w, ten_bit).1,
{
    let pairs: u32 = w / 2;
    if ten_bit {
        (2 * (w as u64), 4 * (pairs as u64))
    } else {
        (w as u64, 2 * (pairs as u64))
    }
}

/// Whether a plane's rows are long enough.
pub open spec fn plane_takes(p: Plane, row: int) -> bool {
    !p.null && p.pitch >= row
}

/// The luma plane after a picture was written into it.
pub open spec fn luma_written(before: Seq<u8>, pitch: int, f: VideoFrame, ten_bit: bool) -> Seq<u8> {
    let w = f.width as int;
    if ten_bit {
        planes::painted(before, 0, pitch, 2 * w, f.height as int, planes::lifted_px(
            f.bytes(),
            0,
            w,
        ))
    } else {
        planes::painted(before, 0, pitch, w, f.height as int, planes::packed_px(f.bytes(), 0, w))
    }
}

/// The chroma plane after a picture was written into it.
pub open spec fn chroma_written(before: Seq<u8>, pitch: int, f: VideoFrame, ten_bit: bool) -> Seq<
    u8,
> {
    let w = f.width as int;
    let h = f.height as int;
    let cw = w / 2;
    let ch = h / 2;
    if ten_bit {
        planes::painted(before, 0, pitch, 4 * cw, ch, planes::interleaved_lifted_px(
            f.bytes(),
            2 * (w * h),
            2 * (w * h) + 2 * (cw * ch),
            cw,
        ))
    } else {
        planes::painted(before, 0, pitch, 2 * cw, ch, planes::interleaved_px(
            f.bytes(),
            w * h,
            w * h + cw * ch,
            cw,
        ))
    }
}

/// Why a picture cannot be written onto a surface, if it cannot: it is too
/// short, or a plane cannot take its rows, the luma plane first.
pub open spec fn surface_verdict(y: Plane, uv: Plane, f: VideoFrame) -> Option<WrapperError> {
    let ten_bit = f.format.is_ten_bit();
    let rows = row_bytes(f.width, ten_bit);
    if f.bytes().len() < frame_bytes(f.width, f.height, ten_bit) {
        Some(
            WrapperError::TooSmall {
                backend: EncoderBackend::Amf,
                format: f.format,
                width: f.width,
                height: f.height,
                have: f.bytes().len() as usize,
                need: frame_bytes(f.width, f.height, ten_bit) as u128,
            },
        )
    } else if !plane_takes(y, rows.0) {
        Some(
            WrapperError::BadPlane {
                plane: PlaneName::Luma,
                ten_bit,
                null: y.null,
                pitch: y.pitch,
                need: rows.0 as u64,
            },
        )
    } else if !plane_takes(uv, rows.1) {
        Some(
            WrapperError::BadPlane {
                plane: PlaneName::Chroma,
                ten_bit,
                null: uv.null,
                pitch: uv.pitch,
                need: rows.1 as u64,
            },
        )
    } else {
        None
    }
}

/// Write a picture onto a surface's two planes. A plane without memory, or
/// with rows that are too short, is refused; the luma plane comes first.
pub fn fill_surface(y: &mut Plane, uv: &mut Plane, f: &VideoFrame) -> (r: Result<(), WrapperError>)
    requires
        frame_format(f.format) is Some,
        plane_takes(*old(y), row_bytes(f.width, f.format.is_ten_bit()).0) ==> planes::block_fits(
            old(y).bytes@.len(),
            0,
            old(y).pitch as int,
            row_bytes(f.width, f.format.is_ten_bit()).0,
            f.height as int,
        ),
        plane_takes(*old(uv), row_bytes(f.width, f.format.is_ten_bit()).1) ==> planes::block_fits(
            old(uv).bytes@.len(),
            0,
            old(uv).pitch as int,
            row_bytes(f.width, f.format.is_ten_bit()).1,
            f.height as int / 2,
        ),
    ensures
        final(y).null == old(y).null,
        final(y).pitch == old(y).pitch,
        final(uv).null == old(uv).null,
        final(uv).pitch == old(uv).pitch,
        r == (match surface_verdict(*old(y), *old(uv), *f) {
            Some(e) => Err::<(), WrapperError>(e),
            None => Ok::<(), WrapperError>(()),
        }),
        ({
            let ten_bit = f.format.is_ten_bit();
            let rows = row_bytes(f.width, ten_bit);
            if f.bytes().len() < frame_bytes(f.width, f.height, ten_bit) {
                &&& r == Err::<(), WrapperError>(
                    WrapperError::TooSmall {
                        backend: EncoderBackend::Amf,
                        format: f.format,
                        width: f.width,
                        height: f.height,
                        have: f.bytes().len() as usize,
                        need: frame_bytes(f.width, f.height, ten_bit) as u128,
                    },
                )
                &&& final(y).bytes@ == old(y).bytes@
                &&& final(uv).bytes@ == old(uv).bytes@
            } else if !plane_takes(*old(y), rows.0) {
                &&& r == Err::<(), WrapperError>(
                    WrapperError::BadPlane {
                        plane: PlaneName::Luma,
                        ten_bit,
                        null: old(y).null,
                        pitch: old(y).pitch,
                        need: rows.0 as u64,
                    },
                )
                &&& final(y).bytes@ == old(y).bytes@
                &&& final(uv).bytes@ == old(uv).bytes@
            } else if !plane_takes(*old(uv), rows.1) {
                &&& r == Err::<(), WrapperError>(
                    WrapperError::BadPlane {
                        plane: PlaneName::Chroma,
                        ten_bit,
                        null: old(uv).null,
                        pitch: old(uv).pitch,
                        need: rows.1 as u64,
                    },
                )
                &&& final(y).bytes@ == luma_written(
                    old(y).bytes@,
                    old(y).pitch as int,
                    *f,
                    ten_bit,
                )
                &&& final(uv).bytes@ == old(uv).bytes@
            } else {
                &&& r is Ok
                &&& final(y).bytes@ == luma_written(
                    old(y).bytes@,
                    old(y).pitch as int,
                    *f,
                    ten_bit,
                )
                &&& final(uv).bytes@ == chroma_written(
                    old(uv).bytes@,
                    old(uv).pitch as int,
                    *f,
                    ten_bit,
                )
            }
        }),
{
    let ten_bit: bool = f.format == PixelFormat::Yuv420p10le;
    let need: u128 = packed_bytes(f.width, f.height, f.width / 2, f.height / 2, ten_bit);
    let src: &[u8] = f.slice();
    let have: usize = src.len();
    if (have as u128) < need {
        return Err(
            WrapperError::TooSmall {
                backend: EncoderBackend::Amf,
                format: f.format,
                width: f.width,
                height: f.height,
                have,
                need,
            },
        );
    }
    let rows: (u64, u64) = rows_of(f.width, ten_bit);
    let y_row: u64 = rows.0;
    let uv_row: u64 = rows.1;
    if y.null || (y.pitch as u64) < y_row {
        return Err(
            WrapperError::BadPlane {
                plane: PlaneName::Luma,
                ten_bit,
                null: y.null,
                pitch: y.pitch,
                need: y_row,
            },
        );
    }
    let w: usize = f.width as usize;
    let h: usize = f.height as usize;
    let cw: usize = half_down(w);
    let ch: usize = half_down(h);
    proof {
        assert(w * h == h * w) by (nonlinear_arith);
        assert(cw * ch == ch * cw) by (nonlinear_arith);
        assert(0 <= w * h) by (nonlinear_arith);
        assert(0 <= cw * ch) by (nonlinear_arith);
    }
    if ten_bit {
        copy_plane_lifted(&mut y.bytes, 0, y.pitch, src, 0, w, h);
    } else {
        copy_plane(&mut y.bytes, 0, y.pitch, src, 0, w, h);
    }
    if uv.null || (uv.pitch as u64) < uv_row {
        return Err(
            WrapperError::BadPlane {
                plane: PlaneName::Chroma,
                ten_bit,
                null: uv.null,
                pitch: uv.pitch,
                need: uv_row,
            },
        );
    }
    let luma: usize = w * h;
    let chroma: usize = cw * ch;
    if ten_bit {
        interleave_lifted(
            &mut uv.bytes,
            0,
            uv.pitch,
            src,
            2 * luma,
            2 * luma + 2 * chroma,
            cw,
            ch,
        );
    } else {
        interleave(&mut uv.bytes, 0, uv.pitch, src, luma, luma + chroma, cw, ch);
    }
    Ok(())
}

/// Hold a picture to the session's format and size, before a surface is asked
/// for.
pub fn check(c: &EncoderConfig, f: &VideoFrame) -> (r: Result<(), WrapperError>)
    ensures
        match session::frame_verdict(EncoderBackend::Amf, c.pixel_format, c.width, c.height, *f) {
            Some(e) => r == Err::<(), WrapperError>(e),
            None => r is Ok,
        },
{
    check_frame(EncoderBackend::Amf, c.pixel_format, c.width, c.height, f)
}

/// The luma sample `(x, y)` of a picture is the one that the encoder reads from
/// the luma plane; at ten bits it is read times 64.
pub proof fn luma_reads_back(before: Seq<u8>, pitch: int, f: VideoFrame, x: int, y: int)
    requires
        frame_format(f.format) is Some,
        planes::block_fits(
            before.len(),
            0,
            pitch,
            row_bytes(f.width, f.format.is_ten_bit()).0,
            f.height as int,
        ),
        0 <= x < f.width,
        0 <= y < f.height,
    ensures
        ({
            let after = luma_written(before, pitch, f, f.format.is_ten_bit());
            let i = y * f.width + x;
            let src = f.bytes();
            &&& f.format == PixelFormat::Yuv420p ==> after[y * pitch + x] == src[i]
            &&& f.format == PixelFormat::Yuv420p10le ==> after[y * pitch + 2 * x] + 256 * after[y
                * pitch + 2 * x + 1] == (src[2 * i] + 256 * src[2 * i + 1]) % 1024 * 64
        }),
{
    let w = f.width as int;
    let h = f.height as int;
    if f.format.is_ten_bit() {
        planes::lifted_samples_read_back(before, 0, pitch, f.bytes(), 0, w, h, x, y);
    } else {
        planes::copied_samples_read_back(before, 0, pitch, f.bytes(), 0, w, h, x, y);
    }
}

/// The pair `(x, y)` that the encoder reads from the chroma plane is the U
/// sample `(x, y)` of the picture and then the V sample, U being the first of
/// its chroma planes and V the second; at ten bits both are read times 64.
pub proof fn chroma_reads_back(before: Seq<u8>, pitch: int, f: VideoFrame, x: int, y: int)
    requires
        frame_format(f.format) is Some,
        planes::block_fits(
            before.len(),
            0,
            pitch,
            row_bytes(f.width, f.format.is_ten_bit()).1,
            f.height as int / 2,
        ),
        0 <= x < f.width as int / 2,
        0 <= y < f.height as int / 2,
    ensures
        ({
            let after = chroma_written(before, pitch, f, f.format.is_ten_bit());
            let luma = f.width * f.height;
            let plane = (f.width as int / 2) * (f.height as int / 2);
            let i = y * (f.width as int / 2) + x;
            let src = f.bytes();
            &&& f.format == PixelFormat::Yuv420p ==> {
                &&& after[y * pitch + 2 * x] == src[luma + i]
                &&& after[y * pitch + 2 * x + 1] == src[luma + plane + i]
            }
            &&& f.format == PixelFormat::Yuv420p10le ==> {
                let at = y * pitch + 4 * x;
                let u = 2 * luma + 2 * i;
                let v = 2 * luma + 2 * plane + 2 * i;
                &&& after[at] + 256 * after[at + 1] == (src[u] + 256 * src[u + 1]) % 1024 * 64
                &&& after[at + 2] + 256 * after[at + 3] == (src[v] + 256 * src[v + 1]) % 1024 * 64
            }
        }),
{
    let w = f.width as int;
    let h = f.height as int;
    let cw = w / 2;
    let ch = h / 2;
    if f.format.is_ten_bit() {
        assert(row_bytes(f.width, true).1 == 4 * cw);
        planes::interleaved_lifted_samples_read_back(
            before,
            0,
            pitch,
            f.bytes(),
            2 * (w * h),
            2 * (w * h) + 2 * (cw * ch),
            cw,
            ch,
            x,
            y,
        );
    } else {
        assert(row_bytes(f.width, false).1 == 2 * cw);
        planes::interleaved_samples_read_back(
            before,
            0,
            pitch,
            f.bytes(),
            w * h,
            w * h + cw * ch,
            cw,
            ch,
            x,
            y,
        );
    }
}

/// The bytes between the rows of a surface keep what they held.
pub proof fn surface_gaps_stay(before: Seq<u8>, pitch: int, f: VideoFrame, i: int)
    requires
        0 <= i < before.len(),
        0 < pitch,
    ensures
        ({
            let b = if f.format == PixelFormat::Yuv420p10le {
                2int
            } else {
                1int
            };
            let luma = luma_written(before, pitch, f, f.format.is_ten_bit());
            let chroma = chroma_written(before, pitch, f, f.format.is_ten_bit());
            &&& luma.len() == before.len()
            &&& chroma.len() == before.len()
            &&& i % pitch >= b * f.width || i / pitch >= f.height ==> luma[i] == before[i]
            &&& i % pitch >= 2 * b * (f.width as int / 2) || i / pitch >= f.height as int / 2
                ==> chroma[i] == before[i]
        }),
{
}

/// A picture has as many bytes as its luma samples and the whole pairs of
/// chroma, one each at eight bits and two each at ten; a row of luma has one
/// sample per column, a row of chroma two per pair of columns.
pub proof fn pictures_and_rows_are_counted_in_samples(w: u32, h: u32)
    ensures
        frame_bytes(w, h, false) == w * h + 2 * ((w as int / 2) * (h as int / 2)),
        frame_bytes(w, h, true) == 2 * frame_bytes(w, h, false),
        row_bytes(w, false).0 == w,
        row_bytes(w, false).1 == 2 * (w as int / 2),
        row_bytes(w, true).0 == 2 * w,
        row_bytes(w, true).1 == 4 * (w as int / 2),
{
}

/// A session is opened for the caller's pictures: their size, eight or ten
/// bits, a frame rate that is never zero, the row's quantisers, and the
/// caller's keyframe interval as far as the wrapper can count, one at least.
pub proof fn the_session_is_the_callers(c: EncoderConfig, tp: AmfAv1Params)
    ensures
        frame_format(c.pixel_format) is Some <==> c.pixel_format == PixelFormat::Yuv420p
            || c.pixel_format == PixelFormat::Yuv420p10le,
        frame_format(c.pixel_format) matches Some(fmt) ==> {
            let s = settings_of(c, tp, fmt);
            &&& s.width == c.width && s.height == c.height
            &&& s.frame_format == AmfFrameFormat::Nv12 <==> c.pixel_format == PixelFormat::Yuv420p
            &&& s.frame_format == AmfFrameFormat::P010 <==> c.pixel_format
                == PixelFormat::Yuv420p10le
            &&& s.framerate_num == rate::wrapper_rational(c.frame_rate).0
            &&& s.framerate_den == rate::wrapper_rational(c.frame_rate).1
            &&& s.qpi == tp.q_index_intra
            &&& s.qpp == tp.q_index_inter
            &&& s.qpb == tp.q_index_inter
            &&& c.keyframe_interval == 0 ==> s.gop_pic_size == 1
            &&& 1 <= c.keyframe_interval <= 65535 ==> s.gop_pic_size == c.keyframe_interval
            &&& c.keyframe_interval > 65535 ==> s.gop_pic_size == 65535
        },
{
}

/// A picture is written exactly where its bytes are all there and both planes
/// have memory and rows that are long enough. A refusal says which of these
/// fails first: the bytes, the luma plane, the chroma plane.
pub proof fn which_surfaces_take_a_picture(y: Plane, uv: Plane, f: VideoFrame)
    requires
        f.format == PixelFormat::Yuv420p || f.format == PixelFormat::Yuv420p10le,
    ensures
        ({
            let samples = f.width * f.height + 2 * ((f.width as int / 2) * (f.height as int / 2));
            let wide = f.format == PixelFormat::Yuv420p10le;
            let need = if wide {
                2 * samples
            } else {
                samples
            };
            let luma = if wide {
                2 * f.width
            } else {
                f.width as int
            };
            let chroma = if wide {
                4 * (f.width as int / 2)
            } else {
                2 * (f.width as int / 2)
            };
            match surface_verdict(y, uv, f) {
                None => {
                    &&& f.bytes().len() >= need
                    &&& !y.null && y.pitch >= luma
                    &&& !uv.null && uv.pitch >= chroma
                },
                Some(WrapperError::TooSmall { backend, format, width, height, have, need: n }) => {
                    &&& backend == EncoderBackend::Amf && format == f.format
                    &&& width == f.width && height == f.height
                    &&& have == f.bytes().len() as usize && n == need as u128
                    &&& f.bytes().len() < need
                },
                Some(WrapperError::BadPlane { plane, ten_bit, null, pitch, need: n }) => {
                    &&& f.bytes().len() >= need
                    &&& ten_bit <==> f.format == PixelFormat::Yuv420p10le
                    &&& plane == PlaneName::Luma ==> null == y.null && pitch == y.pitch && n == luma
                        && (y.null || y.pitch < luma)
                    &&& plane == PlaneName::Chroma ==> null == uv.null && pitch == uv.pitch && n
                        == chroma && (uv.null || uv.pitch < chroma) && !y.null && y.pitch >= luma
                },
                Some(_) => false,
            }
        }),
{
    pictures_and_rows_are_counted_in_samples(f.width, f.height);
}

} // verus!
