//! Encoder settings for one still-picture pass.

use rav1e::prelude::{
    BlockSize, ChromaSamplePosition, ChromaSampling, ColorDescription, ColorPrimaries,
    EncoderConfig, MatrixCoefficients, MotionSpeedSettings, PartitionRange,
    PartitionSpeedSettings, PixelRange, PredictionModesSetting, PredictionSpeedSettings, Rational,
    SGRComplexityLevel, SceneDetectionSpeed, SegmentationLevel, SpeedSettings,
    TransferCharacteristics, TransformSpeedSettings, Tune,
};
use vstd::prelude::*;

#[allow(unused_imports)]
use crate::engine::partition_range_of;

verus! {

/// Which plane set a pass encodes.
#[derive(Clone, Copy, Debug, PartialEq, Eq, Structural)]
pub enum PixelKind {
    /// The three color planes, in (G, B, R) order.
    Rgb,
    /// The alpha plane alone, as monochrome.
    Alpha,
}

/// Base and minimum quantizer of every pass.
pub const QUANTIZER: u8 = 121;

/// Smallest area, in pixels, that a tile may cover (128 by 128).
pub const MIN_TILE_AREA: usize = 16384;

/// Tiles for a `width` by `height` frame with `threads` workers: no more than
/// the workers, and no tile below `MIN_TILE_AREA` pixels.
pub open spec fn tiles_for(threads: int, width: int, height: int) -> int {
    let by_area = (width * height) / (MIN_TILE_AREA as int);
    if threads <= by_area {
        threads
    } else {
        by_area
    }
}

/// The fixed speed/quality trade-off of a still-picture encode.
pub open spec fn is_still_speed_settings(s: SpeedSettings) -> bool {
    &&& !s.multiref
    &&& !s.fast_deblock
    &&& s.rdo_lookahead_frames == 1
    &&& s.scene_detection_mode == SceneDetectionSpeed::None
    &&& !s.cdef
    &&& !s.lrf
    &&& !s.lru_on_skip
    &&& s.sgr_complexity == SGRComplexityLevel::Reduced
    &&& s.segmentation == SegmentationLevel::Simple
    &&& !s.partition.encode_bottomup
    &&& s.partition.non_square_partition_max_threshold == BlockSize::BLOCK_8X8
    &&& s.partition.partition_range == partition_range_of(BlockSize::BLOCK_8X8, BlockSize::BLOCK_16X16)
    &&& !s.transform.reduced_tx_set
    &&& s.transform.tx_domain_distortion
    &&& !s.transform.tx_domain_rate
    &&& !s.transform.rdo_tx_decision
    &&& !s.transform.enable_inter_tx_split
    &&& s.prediction.prediction_modes == PredictionModesSetting::Simple
    &&& s.prediction.fine_directional_intra
    &&& !s.motion.use_satd_subpel
    &&& !s.motion.include_near_mvs
    &&& s.motion.me_allow_full_search
}

/// Color metadata of the color pass: BT.709 primaries, sRGB transfer and
/// the identity matrix, under which (G, B, R) planes decode back to RGB.
pub open spec fn rgb_color_description() -> ColorDescription {
    ColorDescription {
        color_primaries: ColorPrimaries::BT709,
        transfer_characteristics: TransferCharacteristics::SRGB,
        matrix_coefficients: MatrixCoefficients::Identity,
    }
}

/// The settings of one pass over a `width` by `height` still picture.
pub open spec fn is_still_config(
    c: EncoderConfig,
    kind: PixelKind,
    width: usize,
    height: usize,
    bit_depth: usize,
    threads: usize,
) -> bool {
    &&& c.width == width
    &&& c.height == height
    &&& c.sample_aspect_ratio == Rational { num: 1, den: 1 }
    &&& c.time_base == Rational { num: 1, den: 1 }
    &&& c.bit_depth == bit_depth
    &&& c.chroma_sampling == match kind {
        PixelKind::Rgb => ChromaSampling::Cs444,
        PixelKind::Alpha => ChromaSampling::Cs400,
    }
    &&& c.chroma_sample_position == ChromaSamplePosition::Unknown
    &&& c.pixel_range == PixelRange::Full
    &&& c.color_description == match kind {
        PixelKind::Rgb => Some(rgb_color_description()),
        PixelKind::Alpha => None,
    }
    &&& c.mastering_display is None
    &&& c.content_light is None
    &&& c.level_idx is None
    &&& !c.enable_timing_info
    &&& c.still_picture
    &&& !c.error_resilient
    &&& c.switch_frame_interval == 0
    &&& c.min_key_frame_interval == 0
    &&& c.max_key_frame_interval == 0
    &&& c.reservoir_frame_delay is None
    &&& !c.low_latency
    &&& c.quantizer == QUANTIZER as usize
    &&& c.min_quantizer == QUANTIZER
    &&& c.bitrate == 0
    &&& c.tune == Tune::Psychovisual
    &&& c.film_grain_params is None
    &&& c.tile_cols == 0
    &&& c.tile_rows == 0
    &&& c.tiles == tiles_for(threads as int, width as int, height as int)
    &&& is_still_speed_settings(c.speed_settings)
}

/// Number of tiles: the smaller of the worker count and the number of
/// 128 by 128 regions that the frame covers.
pub fn tile_count(threads: usize, width: usize, height: usize) -> (r: usize)
    ensures
        r == tiles_for(threads as int, width as int, height as int),
{
    proof {
        let (w, h) = (width as int, height as int);
        assert(w * h <= 0xffff_ffff_ffff_ffffint * 0xffff_ffff_ffff_ffffint) by (nonlinear_arith)
            requires
                0 <= w <= 0xffff_ffff_ffff_ffffint,
                0 <= h <= 0xffff_ffff_ffff_ffffint,
        ;
    }
    let area: u128 = (width as u128) * (height as u128);
    let by_area: u128 = area / (MIN_TILE_AREA as u128);
    if (threads as u128) <= by_area {
        threads
    } else {
        proof {
            assert(by_area < threads);
        }
        by_area as usize
    }
}

/// The speed/quality knobs of a still-picture encode: one reference frame,
/// one frame of lookahead, no scene detection, CDEF or loop restoration,
/// reduced self-guided filtering, simple segmentation, partitions between
/// 8x8 and 16x16 searched top-down, transform-domain distortion only,
/// the simple intra mode set with fine directional intra, and full motion
/// search without near motion vectors.
pub fn get_speed_settings() -> (r: SpeedSettings)
    ensures
        is_still_speed_settings(r),
{
    let mut settings = SpeedSettings::default();
    settings.multiref = false;
    settings.fast_deblock = false;
    settings.rdo_lookahead_frames = 1;
    settings.scene_detection_mode = SceneDetectionSpeed::None;
    settings.cdef = false;
    settings.lrf = false;
    settings.lru_on_skip = false;
    settings.sgr_complexity = SGRComplexityLevel::Reduced;
    settings.segmentation = SegmentationLevel::Simple;
    settings.partition = PartitionSpeedSettings {
        encode_bottomup: false,
        non_square_partition_max_threshold: BlockSize::BLOCK_8X8,
        partition_range: PartitionRange::new(BlockSize::BLOCK_8X8, BlockSize::BLOCK_16X16),
    };
    settings.transform = TransformSpeedSettings {
        reduced_tx_set: false,
        tx_domain_distortion: true,
        tx_domain_rate: false,
        rdo_tx_decision: false,
        enable_inter_tx_split: false,
    };
    settings.prediction = PredictionSpeedSettings {
        prediction_modes: PredictionModesSetting::Simple,
        fine_directional_intra: true,
    };
    settings.motion = MotionSpeedSettings {
        use_satd_subpel: false,
        include_near_mvs: false,
        me_allow_full_search: true,
    };
    settings
}

/// The settings of one pass: full chroma with sRGB/identity metadata for
/// the color planes, monochrome without metadata for alpha; both at the
/// fixed quantizer, with automatic tile layout and the still speed knobs.
pub fn get_encoder_config(
    kind: PixelKind,
    width: usize,
    height: usize,
    bit_depth: usize,
    threads: usize,
) -> (r: EncoderConfig)
    requires
        bit_depth == 8 || bit_depth == 10,
    ensures
        is_still_config(r, kind, width, height, bit_depth, threads),
{
    let tiles = tile_count(threads, width, height);
    let chroma_sampling = match kind {
        PixelKind::Rgb => ChromaSampling::Cs444,
        PixelKind::Alpha => ChromaSampling::Cs400,
    };
    let color_description = match kind {
        PixelKind::Rgb => Some(
            ColorDescription {
                color_primaries: ColorPrimaries::BT709,
                transfer_characteristics: TransferCharacteristics::SRGB,
                matrix_coefficients: MatrixCoefficients::Identity,
            },
        ),
        PixelKind::Alpha => None,
    };
    let speed_settings = get_speed_settings();
    EncoderConfig {
        width,
        height,
        sample_aspect_ratio: Rational { num: 1, den: 1 },
        time_base: Rational { num: 1, den: 1 },
        bit_depth,
        chroma_sampling,
        chroma_sample_position: ChromaSamplePosition::Unknown,
        pixel_range: PixelRange::Full,
        color_description,
        mastering_display: None,
        content_light: None,
        enable_timing_info: false,
        level_idx: None,
        still_picture: true,
        error_resilient: false,
        switch_frame_interval: 0,
        min_key_frame_interval: 0,
        max_key_frame_interval: 0,
        reservoir_frame_delay: None,
        low_latency: false,
        quantizer: QUANTIZER as usize,
        min_quantizer: QUANTIZER,
        bitrate: 0,
        tune: Tune::Psychovisual,
        film_grain_params: None,
        tile_cols: 0,
        tile_rows: 0,
        tiles,
        speed_settings,
    }
}

} // verus!
