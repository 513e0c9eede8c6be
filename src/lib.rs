//! Still-image AV1 encoding of RGBA rasters: pixel transcoding, encoder
//! configuration, frame population and the dual color/alpha pass.

pub mod config;
pub mod encode;
mod engine;
pub mod error;
mod frame;
pub mod pixels;

pub use config::{get_encoder_config, get_speed_settings, tile_count, PixelKind};
pub use encode::{
    encode_alpha, encode_color_10, encode_color_8, encode_rgba, join_passes, EncodeOutcome,
};
pub use error::EncodeError;
pub use frame::le_bytes;
pub use pixels::{
    alpha_plane, color_planes_10, color_planes_8, has_alpha, logical_pixels, rgb_to_10_bit_gbr,
    rgb_to_8_bit_gbr, to_ten,
};
