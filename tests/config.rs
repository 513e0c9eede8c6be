use avif_still::{get_encoder_config, get_speed_settings, tile_count, PixelKind};
use rav1e::prelude::{
    BlockSize, ChromaSampling, ColorPrimaries, MatrixCoefficients, PredictionModesSetting,
    SceneDetectionSpeed, TransferCharacteristics,
};

#[test]
fn tiles_for_a_single_tile_image() {
    assert_eq!(tile_count(4, 128, 128), 1);
}

#[test]
fn tiles_capped_by_threads() {
    assert_eq!(tile_count(4, 1024, 1024), 4);
}

#[test]
fn tiles_for_small_images_and_huge_ones() {
    assert_eq!(tile_count(8, 100, 100), 0);
    assert_eq!(tile_count(8, 256, 256), 4);
    assert_eq!(tile_count(3, usize::MAX, usize::MAX), 3);
}

#[test]
fn color_pass_settings() {
    let c = get_encoder_config(PixelKind::Rgb, 300, 200, 10, 2);
    assert_eq!((c.width, c.height, c.bit_depth), (300, 200, 10));
    assert_eq!(c.chroma_sampling, ChromaSampling::Cs444);
    let d = c.color_description.expect("color metadata");
    assert_eq!(d.color_primaries, ColorPrimaries::BT709);
    assert_eq!(d.transfer_characteristics, TransferCharacteristics::SRGB);
    assert_eq!(d.matrix_coefficients, MatrixCoefficients::Identity);
    assert!(c.still_picture);
    assert_eq!(c.quantizer, 121);
    assert_eq!(c.min_quantizer, 121);
    assert_eq!((c.tile_cols, c.tile_rows, c.tiles), (0, 0, 2));
    assert!(!c.low_latency);
    assert_eq!(c.switch_frame_interval, 0);
}

#[test]
fn alpha_pass_settings() {
    let c = get_encoder_config(PixelKind::Alpha, 300, 200, 8, 2);
    assert_eq!(c.bit_depth, 8);
    assert_eq!(c.chroma_sampling, ChromaSampling::Cs400);
    assert!(c.color_description.is_none());
    assert_eq!(c.quantizer, 121);
    assert_eq!(c.tiles, 2);
}

#[test]
fn still_speed_settings() {
    let s = get_speed_settings();
    assert!(!s.multiref);
    assert!(!s.fast_deblock);
    assert_eq!(s.rdo_lookahead_frames, 1);
    assert_eq!(s.scene_detection_mode, SceneDetectionSpeed::None);
    assert!(!s.cdef && !s.lrf && !s.lru_on_skip);
    assert!(!s.partition.encode_bottomup);
    assert_eq!(s.partition.non_square_partition_max_threshold, BlockSize::BLOCK_8X8);
    assert!(s.transform.tx_domain_distortion && !s.transform.tx_domain_rate);
    assert_eq!(s.prediction.prediction_modes, PredictionModesSetting::Simple);
    assert!(s.prediction.fine_directional_intra);
    assert!(s.motion.me_allow_full_search && !s.motion.include_near_mvs);
}
