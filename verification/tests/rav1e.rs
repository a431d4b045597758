//! Software AV1.

use bytes::Bytes;
use codec::config::EncoderConfig;
use codec::frame::{ColorMetadata, PixelFormat, TransferFn, VideoFrame};
use codec::rav1e_sw::{settings, weigh, Answer, Outcome, Rav1eEncoder, Rav1eError, Status};
use codec::tuning::Rav1eParams;
use rav1e::prelude::{
    ChromaSampling, ColorPrimaries, MatrixCoefficients, PixelRange, TransferCharacteristics,
};
use std::collections::VecDeque;

fn row() -> Rav1eParams {
    Rav1eParams { quantizer: 160, speed_preset: 10, tile_rows: 1, tile_cols: 1 }
}

fn config(w: u32, h: u32) -> EncoderConfig {
    EncoderConfig { width: w, height: h, threads: 1, ..Default::default() }
}

fn picture(w: u32, h: u32, i: u64) -> VideoFrame {
    let (cw, ch) = (w.div_ceil(2), h.div_ceil(2));
    let mut data: Vec<u8> = (0..w * h).map(|p| ((p % w) as u64 * 3 + i * 20) as u8).collect();
    data.extend(vec![128u8; (2 * cw * ch) as usize]);
    VideoFrame::new(Bytes::from(data), w, h, PixelFormat::Yuv420p, 1000 + 33 * i)
}

#[test]
fn five_pictures_in_are_five_packets_out() {
    let mut enc = Rav1eEncoder::new(&config(64, 48), &row(), 1).ok().unwrap();
    for i in 0..5 {
        enc.send_frame(&picture(64, 48, i)).unwrap();
    }
    enc.flush();
    let mut packets = Vec::new();
    while let Some(p) = enc.receive_packet().unwrap() {
        packets.push(p);
    }
    assert_eq!(packets.len(), 5);
    for (i, p) in packets.iter().enumerate() {
        assert_eq!(p.pts, 1000 + 33 * i as u64, "the picture's own timestamp");
        assert!(!p.data.is_empty());
    }
    assert!(packets[0].is_keyframe);
    assert!(!packets[1].is_keyframe);
    assert!(enc.receive_packet().unwrap().is_none());
    assert_eq!(enc.send_frame(&picture(64, 48, 5)), Err(Rav1eError::Refused));
}

#[test]
fn a_keyframe_lands_where_it_is_asked() {
    let mut enc = Rav1eEncoder::new(&config(64, 64), &row(), 1).ok().unwrap();
    for i in 0..6 {
        if i == 3 {
            enc.force_keyframe_next();
        }
        enc.send_frame(&picture(64, 64, i)).unwrap();
    }
    enc.flush();
    let mut keys = Vec::new();
    while let Some(p) = enc.receive_packet().unwrap() {
        if p.is_keyframe {
            keys.push((p.pts - 1000) / 33);
        }
    }
    assert_eq!(keys, [0, 3]);
}

#[test]
fn the_interval_is_the_callers() {
    let cfg = EncoderConfig { keyframe_interval: 2, ..config(64, 64) };
    let mut enc = Rav1eEncoder::new(&cfg, &row(), 1).ok().unwrap();
    for i in 0..5 {
        enc.send_frame(&picture(64, 64, i)).unwrap();
    }
    enc.flush();
    let mut keys = Vec::new();
    while let Some(p) = enc.receive_packet().unwrap() {
        keys.push(p.is_keyframe);
    }
    assert_eq!(keys, [true, false, true, false, true]);
}

#[test]
fn pictures_reach_the_coded_stream() {
    let coded = |luma: u8| {
        let mut enc = Rav1eEncoder::new(&config(32, 32), &row(), 1).ok().unwrap();
        let mut data: Vec<u8> = (0..32 * 32).map(|p| if p % 7 < 3 { luma } else { 40 }).collect();
        data.extend(vec![128u8; 512]);
        let f = VideoFrame::new(Bytes::from(data), 32, 32, PixelFormat::Yuv420p, 0);
        enc.send_frame(&f).unwrap();
        enc.flush();
        enc.receive_packet().unwrap().unwrap().data
    };
    assert_eq!(coded(200), coded(200));
    assert_ne!(coded(200), coded(90));
}

#[test]
fn nothing_comes_before_enough_was_sent() {
    let mut enc = Rav1eEncoder::new(&config(64, 64), &row(), 1).ok().unwrap();
    assert!(enc.receive_packet().unwrap().is_none());
    enc.send_frame(&picture(64, 64, 0)).unwrap();
    assert!(enc.receive_packet().unwrap().is_none());
}

#[test]
fn configurations_out_of_range_are_rejected() {
    let refused = |cfg: EncoderConfig, p: Rav1eParams| {
        Rav1eEncoder::new(&cfg, &p, 1).err() == Some(Rav1eError::Rejected)
    };
    assert!(refused(config(15, 64), row()));
    assert!(refused(config(64, 15), row()));
    assert!(refused(config(65_536, 64), row()));
    assert!(!refused(config(16, 16), row()));
    assert!(refused(config(64, 64), Rav1eParams { tile_cols: 3, ..row() }));
    assert!(!refused(config(64, 64), Rav1eParams { tile_cols: 0, tile_rows: 4, ..row() }));
    let long = |n| EncoderConfig { keyframe_interval: n, ..config(64, 64) };
    assert!(!refused(long(715_827_882), row()));
    assert!(refused(long(715_827_883), row()));
    assert_eq!(Rav1eError::Rejected.message(), "rav1e rejected the encoder configuration");
}

#[test]
fn settings_fill_in_what_is_left_open() {
    let s = settings(&EncoderConfig { keyframe_interval: 0, ..EncoderConfig::default() }, &row(), 6);
    assert_eq!((s.keyframe_interval, s.threads), (240, 6));
    let cfg = EncoderConfig { keyframe_interval: 60, threads: 2, ..EncoderConfig::default() };
    let s = settings(&cfg, &row(), 6);
    assert_eq!((s.keyframe_interval, s.threads, s.quantizer, s.speed_preset), (60, 2, 160, 10));
}

#[test]
fn pictures_that_do_not_fit_are_refused() {
    let mut enc = Rav1eEncoder::new(&config(65, 49), &row(), 1).ok().unwrap();
    let of = |w: u32, h: u32, n: usize, format| {
        VideoFrame::new(Bytes::from(vec![0u8; n]), w, h, format, 0)
    };
    let e = enc.send_frame(&of(65, 49, 4835, PixelFormat::Yuv420p10le)).unwrap_err();
    assert_eq!(
        e.message(),
        "rav1e fallback encodes 8-bit 4:2:0 only, got Yuv420p10le. Convert with the colorspace filter before the encoder, or use a hardware backend for this format."
    );
    let e = enc.send_frame(&of(64, 49, 4835, PixelFormat::Yuv420p)).unwrap_err();
    assert_eq!(e.message(), "frame is 64x49 but the encoder was configured for 65x49");
    // 65 * 49 luma samples and twice 33 * 25 chroma ones.
    let e = enc.send_frame(&of(65, 49, 4834, PixelFormat::Yuv420p)).unwrap_err();
    assert_eq!(e.message(), "frame buffer is 4834 bytes, too short for 65x49 4:2:0 (4835 expected)");
    assert_eq!(enc.send_frame(&of(65, 49, 4835, PixelFormat::Yuv420p)), Ok(()));
    assert_eq!(Rav1eError::Refused.message(), "rav1e refused a frame");
}

#[test]
fn answers_are_packets_waits_ends_or_failures() {
    let mut stamps: VecDeque<u64> = VecDeque::from(vec![70, 80]);
    let packet = |number: u64| Answer::Packet { data: vec![5], number, keyframe: true };
    match weigh(&mut stamps, packet(0)) {
        Outcome::Packet(p) => assert_eq!((p.pts, p.is_keyframe, p.data[0]), (70, true, 5)),
        _ => panic!("no packet"),
    }
    assert!(matches!(weigh(&mut stamps, Answer::Nothing(Status::Encoded)), Outcome::Again));
    assert!(matches!(weigh(&mut stamps, Answer::Nothing(Status::NeedMoreData)), Outcome::Stop));
    assert!(matches!(weigh(&mut stamps, Answer::Nothing(Status::LimitReached)), Outcome::Stop));
    assert!(matches!(
        weigh(&mut stamps, Answer::Nothing(Status::Failure)),
        Outcome::Fail(Status::Failure)
    ));
    assert!(matches!(
        weigh(&mut stamps, Answer::Nothing(Status::NotReady)),
        Outcome::Fail(Status::NotReady)
    ));
    assert_eq!(stamps, [80]);
    let _ = weigh(&mut stamps, packet(1));
    match weigh(&mut stamps, packet(2)) {
        Outcome::Packet(p) => assert_eq!(p.pts, 2, "the number stands in for a missing stamp"),
        _ => panic!("no packet"),
    }
    assert_eq!(
        Rav1eError::Failed { status: Status::Failure }.message(),
        "rav1e encode failed: Failure"
    );
}

#[test]
fn a_format_it_cannot_take_is_refused_at_once() {
    for format in [PixelFormat::Yuv420p10le, PixelFormat::Yuv422p] {
        let cfg = EncoderConfig { pixel_format: format, ..config(64, 64) };
        let e = Rav1eEncoder::new(&cfg, &row(), 1).err().unwrap();
        assert_eq!(e, Rav1eError::Format { got: format });
    }
    // The format is looked at before the rest.
    let cfg = EncoderConfig { pixel_format: PixelFormat::Yuv420p10le, ..config(1, 1) };
    let e = Rav1eEncoder::new(&cfg, &row(), 1).err().unwrap();
    assert_eq!(e, Rav1eError::Format { got: PixelFormat::Yuv420p10le });
}

#[test]
fn the_callers_quantiser_and_speed_come_first() {
    let s = settings(&config(64, 64), &row(), 1);
    assert_eq!((s.quantizer, s.speed_preset), (160, 10));
    let cfg = EncoderConfig { quality: 40, ..config(64, 64) };
    let s = settings(&cfg, &row(), 1);
    assert_eq!((s.quantizer, s.speed_preset), (40, 10));
    let cfg = EncoderConfig { speed_preset: 7, quality: 0, ..config(64, 64) };
    let s = settings(&cfg, &row(), 1);
    assert_eq!((s.quantizer, s.speed_preset), (0, 7));
    assert_eq!((s.bit_depth, s.least_interval), (8, 0));
    assert_eq!(s.chroma, ChromaSampling::Cs420);
}

/// Code one noisy picture.
fn one_packet(cfg: &EncoderConfig) -> Vec<u8> {
    let mut enc = Rav1eEncoder::new(cfg, &row(), 1).ok().unwrap();
    let mut data: Vec<u8> = (0..64u32 * 64).map(|p| (p * p % 251) as u8).collect();
    data.extend(vec![128u8; 2048]);
    enc.send_frame(&VideoFrame::new(Bytes::from(data), 64, 64, PixelFormat::Yuv420p, 0)).unwrap();
    enc.flush();
    enc.receive_packet().unwrap().unwrap().data.to_vec()
}

#[test]
fn a_finer_quantiser_spends_more() {
    let at = |quality| one_packet(&EncoderConfig { quality, ..config(64, 64) }).len();
    assert!(at(20) > at(120), "{} and {}", at(20), at(120));
    assert!(at(120) > at(250), "{} and {}", at(120), at(250));
}

#[test]
fn the_stream_says_its_colour() {
    let cfg = |m: ColorMetadata| EncoderConfig { color_metadata: m, ..config(64, 64) };
    let s = settings(&cfg(ColorMetadata::default()), &row(), 1);
    assert_eq!(s.colour.color_primaries, ColorPrimaries::BT709);
    assert_eq!(s.colour.transfer_characteristics, TransferCharacteristics::BT709);
    assert_eq!(s.colour.matrix_coefficients, MatrixCoefficients::BT709);
    assert_eq!(s.range, PixelRange::Limited);
    let pq = ColorMetadata {
        transfer: TransferFn::St2084,
        matrix_coefficients: 9,
        colour_primaries: 9,
        full_range: true,
        ..Default::default()
    };
    let s = settings(&cfg(pq), &row(), 1);
    assert_eq!(s.colour.color_primaries, ColorPrimaries::BT2020);
    assert_eq!(s.colour.transfer_characteristics, TransferCharacteristics::SMPTE2084);
    assert_eq!(s.colour.matrix_coefficients, MatrixCoefficients::BT2020NCL);
    assert_eq!(s.range, PixelRange::Full);
    let odd = ColorMetadata { colour_primaries: 3, matrix_coefficients: 200, ..pq };
    let s = settings(&cfg(odd), &row(), 1);
    assert_eq!(s.colour.color_primaries, ColorPrimaries::Unspecified);
    assert_eq!(s.colour.matrix_coefficients, MatrixCoefficients::Unspecified);
    // The three codes stand side by side in the sequence header, at some bit.
    let says = |stream: &[u8], codes: u32| {
        let bits: Vec<u32> =
            stream.iter().flat_map(|b| (0..8).rev().map(move |k| u32::from(*b >> k & 1))).collect();
        bits.windows(24).take(160).any(|w| w.iter().fold(0, |n, b| n << 1 | b) == codes)
    };
    let sdr = one_packet(&cfg(ColorMetadata::default()));
    let hdr = one_packet(&cfg(pq));
    assert!(says(&sdr, 0x01_01_01) && !says(&sdr, 0x09_10_09));
    assert!(says(&hdr, 0x09_10_09) && !says(&hdr, 0x01_01_01));
}
