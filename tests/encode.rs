use avif_still::{
    color_planes_10, color_planes_8, encode_alpha, encode_color_10, encode_color_8, encode_rgba,
    join_passes, logical_pixels, to_ten, EncodeError, PixelKind,
};
use rav1e::prelude::{EncoderStatus, InvalidConfig};
use rgb::Rgba;

fn px(r: u8, g: u8, b: u8, a: u8) -> Rgba<u8> {
    Rgba { r, g, b, a }
}

#[test]
fn translucent_image_gets_alpha_payload() {
    let buf = vec![px(255, 0, 0, 255), px(0, 255, 0, 255), px(0, 0, 255, 128), px(255, 255, 255, 0)];
    let out = encode_rgba(&buf, 2, 2, 2).expect("encode");
    assert!(!out.color.is_empty());
    assert!(out.alpha.as_ref().map_or(false, |a| !a.is_empty()));
    let planes = color_planes_8(&logical_pixels(&buf, 2, 2, 2));
    assert_eq!(planes, vec![[0, 0, 255], [255, 0, 0], [0, 255, 0], [255, 255, 255]]);
}

#[test]
fn opaque_image_has_no_alpha_payload() {
    let buf = vec![px(10, 20, 30, 255), px(40, 50, 60, 255), px(70, 80, 90, 255), px(0, 128, 255, 255)];
    let out = encode_rgba(&buf, 2, 2, 2).expect("encode");
    assert!(!out.color.is_empty());
    assert!(out.alpha.is_none());
    let planes = color_planes_10(&logical_pixels(&buf, 2, 2, 2));
    for (p, s) in planes.iter().zip(buf.iter()) {
        assert_eq!(*p, [to_ten(s.g), to_ten(s.b), to_ten(s.r)]);
    }
}

#[test]
fn strided_image_encodes() {
    let mut buf = Vec::new();
    for y in 0..16u8 {
        for x in 0..20u8 {
            buf.push(px(x * 12, y * 15, 100, if x < 16 { 255 } else { 0 }));
        }
    }
    let out = encode_rgba(&buf, 16, 16, 20).expect("encode");
    assert!(out.alpha.is_none());
}

#[test]
fn short_buffer_is_too_few_pixels() {
    let buf = vec![px(1, 2, 3, 255), px(4, 5, 6, 255), px(7, 8, 9, 255)];
    let r = encode_rgba(&buf, 2, 2, 2);
    assert_eq!(r.err(), Some(EncodeError::TooFewPixels(PixelKind::Rgb)));
}

#[test]
fn short_color_stream_fails() {
    let r = encode_color_8(2, 2, &vec![[1, 2, 3]; 3]);
    assert_eq!(r.err(), Some(EncodeError::TooFewPixels(PixelKind::Rgb)));
    let r = encode_color_10(2, 2, &vec![[1, 2, 3]; 3]);
    assert_eq!(r.err(), Some(EncodeError::TooFewPixels(PixelKind::Rgb)));
}

#[test]
fn short_alpha_stream_fails() {
    let r = encode_alpha(3, 2, &vec![7; 5]);
    assert_eq!(r.err(), Some(EncodeError::TooFewPixels(PixelKind::Alpha)));
}

#[test]
fn exact_streams_fill_the_padded_frame() {
    assert!(encode_color_8(3, 5, &vec![[1, 2, 3]; 15]).is_ok());
    assert!(encode_color_10(3, 5, &vec![[100, 200, 1023]; 15]).is_ok());
    assert!(encode_alpha(3, 5, &vec![7; 15]).is_ok());
}

#[test]
fn zero_sized_frame_is_rejected_by_the_encoder() {
    let r = encode_color_8(0, 4, &vec![]);
    assert!(matches!(
        r.err(),
        Some(EncodeError::InvalidConfig(PixelKind::Rgb, InvalidConfig::InvalidWidth(0)))
    ));
}

#[test]
fn oversized_image_is_rejected_before_the_pixel_check() {
    let buf = vec![px(1, 2, 3, 4)];
    let r = encode_rgba(&buf, 70000, 1, 70000);
    assert!(matches!(
        r.err(),
        Some(EncodeError::InvalidConfig(PixelKind::Rgb, InvalidConfig::InvalidWidth(70000)))
    ));
    let r = encode_alpha(2, 65536, &vec![0; 4]);
    assert!(matches!(
        r.err(),
        Some(EncodeError::InvalidConfig(PixelKind::Alpha, InvalidConfig::InvalidHeight(65536)))
    ));
}

#[test]
fn color_failure_wins_over_alpha_failure() {
    let color = Err(EncodeError::TooFewPixels(PixelKind::Rgb));
    let alpha = Some(Err(EncodeError::ReceivePacket(PixelKind::Alpha, EncoderStatus::Failure)));
    assert_eq!(join_passes(color, alpha).err(), Some(EncodeError::TooFewPixels(PixelKind::Rgb)));
}

#[test]
fn alpha_failure_is_reported_after_color_success() {
    let alpha = Some(Err(EncodeError::SendFrame(PixelKind::Alpha, EncoderStatus::EnoughData)));
    let e = join_passes(Ok(vec![1, 2]), alpha).err().expect("failure");
    assert_eq!(e, EncodeError::SendFrame(PixelKind::Alpha, EncoderStatus::EnoughData));
    assert_eq!(e.kind(), PixelKind::Alpha);
}

#[test]
fn successful_passes_pair_up() {
    let out = join_passes(Ok(vec![1, 2]), Some(Ok(vec![3]))).expect("outcome");
    assert_eq!(out.color, vec![1, 2]);
    assert_eq!(out.alpha, Some(vec![3]));
    let out = join_passes(Ok(vec![4]), None).expect("outcome");
    assert_eq!(out.color, vec![4]);
    assert!(out.alpha.is_none());
}
