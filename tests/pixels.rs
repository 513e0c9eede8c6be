use avif_still::{
    alpha_plane, color_planes_10, color_planes_8, has_alpha, le_bytes, logical_pixels,
    rgb_to_10_bit_gbr, rgb_to_8_bit_gbr, to_ten,
};
use rgb::{Rgb, Rgba};

fn px(r: u8, g: u8, b: u8, a: u8) -> Rgba<u8> {
    Rgba { r, g, b, a }
}

#[test]
fn expansion_keeps_black_and_white() {
    assert_eq!(to_ten(0), 0);
    assert_eq!(to_ten(255), 1023);
}

#[test]
fn expansion_replicates_top_bits() {
    assert_eq!(to_ten(128), 514);
    assert_eq!(to_ten(1), 4);
    assert_eq!(to_ten(64), 257);
    assert_eq!(to_ten(0xC0), 0x303);
}

#[test]
fn expansion_is_strictly_increasing() {
    for a in 0u8..255 {
        assert!(to_ten(a) < to_ten(a + 1));
    }
}

#[test]
fn single_pixel_reorders_to_gbr() {
    let c = Rgb { r: 10, g: 20, b: 30 };
    assert_eq!(rgb_to_8_bit_gbr(c), (20, 30, 10));
    assert_eq!(rgb_to_10_bit_gbr(c), (80, 120, 40));
}

#[test]
fn color_stream_is_gbr_in_row_major_order() {
    let buf = vec![
        px(1, 2, 3, 255),
        px(4, 5, 6, 255),
        px(7, 8, 9, 255),
        px(10, 11, 12, 255),
        px(13, 14, 15, 255),
        px(16, 17, 18, 255),
    ];
    let logical = logical_pixels(&buf, 3, 2, 3);
    let planes = color_planes_8(&logical);
    assert_eq!(
        planes,
        vec![[2, 3, 1], [5, 6, 4], [8, 9, 7], [11, 12, 10], [14, 15, 13], [17, 18, 16]]
    );
}

#[test]
fn row_padding_is_skipped() {
    // Two rows of two pixels, each row followed by one pixel of padding.
    let buf = vec![
        px(1, 0, 0, 255),
        px(2, 0, 0, 255),
        px(99, 99, 99, 0),
        px(3, 0, 0, 255),
        px(4, 0, 0, 255),
        px(99, 99, 99, 0),
    ];
    let logical = logical_pixels(&buf, 2, 2, 3);
    let reds: Vec<u8> = logical.iter().map(|p| p.r).collect();
    assert_eq!(reds, vec![1, 2, 3, 4]);
    assert!(!has_alpha(&logical));
}

#[test]
fn short_buffer_gives_a_short_stream() {
    let buf = vec![px(1, 0, 0, 255), px(2, 0, 0, 255), px(9, 9, 9, 9), px(3, 0, 0, 255)];
    let logical = logical_pixels(&buf, 2, 2, 3);
    let reds: Vec<u8> = logical.iter().map(|p| p.r).collect();
    assert_eq!(reds, vec![1, 2, 3]);
}

#[test]
fn empty_region_gives_an_empty_stream() {
    let buf = vec![px(1, 2, 3, 4)];
    assert!(logical_pixels(&buf, 0, 5, 0).is_empty());
    assert!(logical_pixels(&buf, 1, 0, 1).is_empty());
}

#[test]
fn alpha_detection() {
    assert!(!has_alpha(&vec![]));
    assert!(!has_alpha(&vec![px(1, 2, 3, 255), px(0, 0, 0, 255)]));
    assert!(has_alpha(&vec![px(1, 2, 3, 255), px(0, 0, 0, 254)]));
    assert!(has_alpha(&vec![px(1, 2, 3, 0)]));
}

#[test]
fn alpha_stream_passes_alpha_through() {
    let planes = alpha_plane(&vec![px(1, 2, 3, 255), px(4, 5, 6, 128), px(7, 8, 9, 0)]);
    assert_eq!(planes, vec![255, 128, 0]);
}

#[test]
fn ten_bit_color_stream_expands_each_channel() {
    let planes = color_planes_10(&vec![px(255, 0, 128, 255), px(1, 64, 255, 255)]);
    assert_eq!(planes, vec![[0, 514, 1023], [257, 1023, 4]]);
}

#[test]
fn samples_become_little_endian_bytes() {
    assert_eq!(le_bytes(&vec![0x0102, 0x03ff, 0]), vec![0x02, 0x01, 0xff, 0x03, 0, 0]);
}
