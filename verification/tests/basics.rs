//! Numbers, planes, packets and rates.

use bytes::Bytes;
use codec::frame::{PixelFormat, VideoFrame};
use codec::packet::{packet_from, packet_of};
use codec::planes::{copy_plane, copy_plane_lifted, interleave, interleave_lifted, lift_sample};
use codec::rate::{pts_timescale, FrameRate};
use codec::text::{decimal, push_dec_int, same_text};
use codec::tuning::{h26x_sw_params_with, EncodeOverrides, H26xSwParams};
use codec::upload::{packed_bytes, upload};

#[test]
fn numbers_are_written_in_decimal() {
    assert_eq!(decimal(0), "0");
    assert_eq!(decimal(1_000_203), "1000203");
    assert_eq!(decimal(u128::MAX), "340282366920938463463374607431768211455");
    let mut s = String::from("x=");
    push_dec_int(&mut s, -17);
    push_dec_int(&mut s, i64::MIN);
    assert_eq!(s, "x=-17-9223372036854775808");
    assert!(same_text("av1", "av1") && !same_text("av1", "av") && !same_text("av1", "aV1"));
}

#[test]
fn planes_leave_the_padding_alone() {
    let mut dst = vec![9u8; 8];
    copy_plane(&mut dst, 1, 4, &[1, 2, 3, 4, 5], 1, 2, 2);
    assert_eq!(dst, [9, 2, 3, 9, 9, 4, 5, 9]);
    let mut uv = vec![9u8; 5];
    interleave(&mut uv, 0, 5, &[1, 2, 3, 4], 0, 2, 2, 1);
    assert_eq!(uv, [1, 3, 2, 4, 9]);
    assert_eq!(lift_sample(0xff, 0x03), (0xc0, 0xff));
    let mut wide = vec![9u8; 4];
    copy_plane_lifted(&mut wide, 0, 4, &[1, 0], 0, 1, 1);
    assert_eq!(wide, [0x40, 0, 9, 9]);
    let mut pairs = vec![9u8; 4];
    interleave_lifted(&mut pairs, 0, 4, &[1, 0, 2, 0], 0, 2, 1, 1);
    assert_eq!(pairs, [0x40, 0, 0x80, 0]);
}

#[test]
fn uploads_fill_both_planes_of_a_surface() {
    assert_eq!(packed_bytes(3, 3, 2, 2, false), 17);
    assert_eq!(packed_bytes(3, 3, 2, 2, true), 34);
    let mut surface = vec![0u8; 12];
    upload(&mut surface, 4, 8, 4, &[1, 2, 3, 4, 5, 6], 2, 2, 1, 1, false);
    assert_eq!(surface, [1, 2, 0, 0, 3, 4, 0, 0, 5, 6, 0, 0]);
}

#[test]
fn packets_hold_and_share_their_bytes() {
    let p = packet_of(&[1, 2, 3], 9, true);
    let q = p.clone();
    assert_eq!((&q.data[..], q.pts, q.is_keyframe), (&[1u8, 2, 3][..], 9, true));
    assert_eq!(&packet_from(vec![4, 5], 0, false).data[..], [4, 5]);
    let f = VideoFrame::new(Bytes::from(vec![7u8, 8]), 1, 1, PixelFormat::Yuv420p, 3);
    assert_eq!(f.slice(), [7, 8]);
}

#[test]
fn ticks_follow_the_frame_rate() {
    assert_eq!(pts_timescale(FrameRate::whole(30)), 333_333);
    assert_eq!(pts_timescale(FrameRate::whole(25)), 400_000);
    assert_eq!(FrameRate { nanos: 29_970_029_970 }.to_millis(), 29_970);
    assert_eq!(FrameRate { nanos: 29_500_000_000 }.to_rounded(), 30);
}

#[test]
fn overrides_replace_the_rows_choices() {
    let row = H26xSwParams {
        qp: 26,
        transform_8x8: true,
        subparts: false,
        sao: true,
        aq_strength_tenths: 0,
        weighted_pred: true,
        max_cu_depth: 2,
        bitrate: None,
        buffer_ms: 0,
        lookahead: 0,
    };
    let plain = h26x_sw_params_with(&row, &EncodeOverrides::default());
    assert_eq!((plain.qp, plain.max_cu_depth, plain.bitrate), (26, 2, None));
    let o = EncodeOverrides {
        bitrate: Some(5),
        lookahead_frames: Some(7),
        cu_depth: Some(1),
        aq_strength_tenths: Some(3),
        weighted_pred: Some(false),
        ..Default::default()
    };
    let p = h26x_sw_params_with(&row, &o);
    assert_eq!((p.bitrate, p.buffer_ms, p.lookahead), (Some(5), 1000, 7));
    assert_eq!((p.max_cu_depth, p.aq_strength_tenths, p.weighted_pred), (1, 3, false));
}
