//! What the library relies on from the rav1e encoder and the rayon pool.

use vstd::prelude::*;

verus! {

// Settings records that the library builds field by field.

/// Declares `rav1e::prelude::EncoderConfig` to Verus, its fields visible to proofs.
#[verifier::external_type_specification]
pub struct ExEncoderConfig(rav1e::prelude::EncoderConfig);

/// Declares `rav1e::prelude::Rational` to Verus, its fields visible to proofs.
#[verifier::external_type_specification]
pub struct ExRational(rav1e::prelude::Rational);

/// Declares `rav1e::prelude::ChromaSampling` to Verus, its variants visible to proofs.
#[verifier::external_type_specification]
pub struct ExChromaSampling(rav1e::prelude::ChromaSampling);

/// Declares `rav1e::prelude::ChromaSamplePosition` to Verus, its variants visible to proofs.
#[verifier::external_type_specification]
pub struct ExChromaSamplePosition(rav1e::prelude::ChromaSamplePosition);

/// Declares `rav1e::prelude::PixelRange` to Verus, its variants visible to proofs.
#[verifier::external_type_specification]
pub struct ExPixelRange(rav1e::prelude::PixelRange);

/// Declares `rav1e::prelude::ColorDescription` to Verus, its fields visible to proofs.
#[verifier::external_type_specification]
pub struct ExColorDescription(rav1e::prelude::ColorDescription);

/// Declares `rav1e::prelude::ColorPrimaries` to Verus, its variants visible to proofs.
#[verifier::external_type_specification]
pub struct ExColorPrimaries(rav1e::prelude::ColorPrimaries);

/// Declares `rav1e::prelude::TransferCharacteristics` to Verus, its variants visible to proofs.
#[verifier::external_type_specification]
pub struct ExTransferCharacteristics(rav1e::prelude::TransferCharacteristics);

/// Declares `rav1e::prelude::MatrixCoefficients` to Verus, its variants visible to proofs.
#[verifier::external_type_specification]
pub struct ExMatrixCoefficients(rav1e::prelude::MatrixCoefficients);

/// Declares `rav1e::prelude::MasteringDisplay` to Verus, opaque: only carried through.
#[verifier::external_type_specification]
#[verifier::external_body]
pub struct ExMasteringDisplay(rav1e::prelude::MasteringDisplay);

/// Declares `rav1e::prelude::ContentLight` to Verus, opaque: only carried through.
#[verifier::external_type_specification]
#[verifier::external_body]
pub struct ExContentLight(rav1e::prelude::ContentLight);

/// Declares `rav1e::prelude::Tune` to Verus, its variants visible to proofs.
#[verifier::external_type_specification]
pub struct ExTune(rav1e::prelude::Tune);

/// Declares `rav1e::prelude::GrainTableSegment` to Verus, opaque: only carried through.
#[verifier::external_type_specification]
#[verifier::external_body]
pub struct ExGrainTableSegment(rav1e::prelude::GrainTableSegment);

/// Declares `rav1e::prelude::SpeedSettings` to Verus, its fields visible to proofs.
#[verifier::external_type_specification]
pub struct ExSpeedSettings(rav1e::prelude::SpeedSettings);

/// Declares `rav1e::prelude::SceneDetectionSpeed` to Verus, its variants visible to proofs.
#[verifier::external_type_specification]
pub struct ExSceneDetectionSpeed(rav1e::prelude::SceneDetectionSpeed);

/// Declares `rav1e::prelude::SGRComplexityLevel` to Verus, its variants visible to proofs.
#[verifier::external_type_specification]
pub struct ExSGRComplexityLevel(rav1e::prelude::SGRComplexityLevel);

/// Declares `rav1e::prelude::SegmentationLevel` to Verus, its variants visible to proofs.
#[verifier::external_type_specification]
pub struct ExSegmentationLevel(rav1e::prelude::SegmentationLevel);

/// Declares `rav1e::prelude::PartitionSpeedSettings` to Verus, its fields visible to proofs.
#[verifier::external_type_specification]
pub struct ExPartitionSpeedSettings(rav1e::prelude::PartitionSpeedSettings);

/// Declares `rav1e::prelude::BlockSize` to Verus, its variants visible to proofs.
#[verifier::external_type_specification]
pub struct ExBlockSize(rav1e::prelude::BlockSize);

/// Declares `rav1e::prelude::PartitionRange` to Verus, opaque: only carried through.
#[verifier::external_type_specification]
#[verifier::external_body]
pub struct ExPartitionRange(rav1e::prelude::PartitionRange);

/// Declares `rav1e::prelude::TransformSpeedSettings` to Verus, its fields visible to proofs.
#[verifier::external_type_specification]
pub struct ExTransformSpeedSettings(rav1e::prelude::TransformSpeedSettings);

/// Declares `rav1e::prelude::PredictionSpeedSettings` to Verus, its fields visible to proofs.
#[verifier::external_type_specification]
pub struct ExPredictionSpeedSettings(rav1e::prelude::PredictionSpeedSettings);

/// Declares `rav1e::prelude::PredictionModesSetting` to Verus, its variants visible to proofs.
#[verifier::external_type_specification]
pub struct ExPredictionModesSetting(rav1e::prelude::PredictionModesSetting);

/// Declares `rav1e::prelude::MotionSpeedSettings` to Verus, its fields visible to proofs.
#[verifier::external_type_specification]
pub struct ExMotionSpeedSettings(rav1e::prelude::MotionSpeedSettings);

/// Width and height in samples of a block size.
pub open spec fn block_dims(b: rav1e::prelude::BlockSize) -> (int, int) {
    match b {
        rav1e::prelude::BlockSize::BLOCK_4X4 => (4, 4),
        rav1e::prelude::BlockSize::BLOCK_4X8 => (4, 8),
        rav1e::prelude::BlockSize::BLOCK_8X4 => (8, 4),
        rav1e::prelude::BlockSize::BLOCK_8X8 => (8, 8),
        rav1e::prelude::BlockSize::BLOCK_8X16 => (8, 16),
        rav1e::prelude::BlockSize::BLOCK_16X8 => (16, 8),
        rav1e::prelude::BlockSize::BLOCK_16X16 => (16, 16),
        rav1e::prelude::BlockSize::BLOCK_16X32 => (16, 32),
        rav1e::prelude::BlockSize::BLOCK_32X16 => (32, 16),
        rav1e::prelude::BlockSize::BLOCK_32X32 => (32, 32),
        rav1e::prelude::BlockSize::BLOCK_32X64 => (32, 64),
        rav1e::prelude::BlockSize::BLOCK_64X32 => (64, 32),
        rav1e::prelude::BlockSize::BLOCK_64X64 => (64, 64),
        rav1e::prelude::BlockSize::BLOCK_64X128 => (64, 128),
        rav1e::prelude::BlockSize::BLOCK_128X64 => (128, 64),
        rav1e::prelude::BlockSize::BLOCK_128X128 => (128, 128),
        rav1e::prelude::BlockSize::BLOCK_4X16 => (4, 16),
        rav1e::prelude::BlockSize::BLOCK_16X4 => (16, 4),
        rav1e::prelude::BlockSize::BLOCK_8X32 => (8, 32),
        rav1e::prelude::BlockSize::BLOCK_32X8 => (32, 8),
        rav1e::prelude::BlockSize::BLOCK_16X64 => (16, 64),
        rav1e::prelude::BlockSize::BLOCK_64X16 => (64, 16),
    }
}

/// Partition search range between two block sizes, as rav1e builds it.
pub uninterp spec fn partition_range_of(
    min: rav1e::prelude::BlockSize,
    max: rav1e::prelude::BlockSize,
) -> rav1e::prelude::PartitionRange;

/// Relies on `PartitionRange::new`, which asserts that both sizes are square
/// and that `max` is not smaller than `min`.
pub assume_specification[ rav1e::prelude::PartitionRange::new ](
    min: rav1e::prelude::BlockSize,
    max: rav1e::prelude::BlockSize,
) -> (r: rav1e::prelude::PartitionRange)
    requires
        block_dims(min).0 == block_dims(min).1,
        block_dims(max).0 == block_dims(max).1,
        block_dims(min).0 <= block_dims(max).0,
    ensures
        r == partition_range_of(min, max),
;

/// Relies on `SpeedSettings::default`; every field of its result is
/// overwritten by the library, so nothing is assumed of it.
pub assume_specification[ <rav1e::prelude::SpeedSettings as core::default::Default>::default ]() -> rav1e::prelude::SpeedSettings;

// The encoding engine.

/// Declares `rav1e::prelude::InvalidConfig` to Verus, opaque: only carried through.
#[verifier::external_type_specification]
#[verifier::external_body]
pub struct ExInvalidConfig(rav1e::prelude::InvalidConfig);

/// Declares `rav1e::prelude::EncoderStatus` to Verus, its variants visible to proofs.
#[verifier::external_type_specification]
pub struct ExEncoderStatus(rav1e::prelude::EncoderStatus);

/// The settings, other than the frame size, that rav1e's validation
/// checks, as a still picture of this library sets them.
pub open spec fn still_settings_valid(c: rav1e::prelude::EncoderConfig) -> bool {
    &&& c.still_picture
    &&& c.sample_aspect_ratio == rav1e::prelude::Rational { num: 1, den: 1 }
    &&& c.time_base == rav1e::prelude::Rational { num: 1, den: 1 }
    &&& 1 <= c.speed_settings.rdo_lookahead_frames < usize::MAX
    &&& c.max_key_frame_interval == 0
    &&& c.tile_cols == 0
    &&& c.tile_rows == 0
    &&& c.reservoir_frame_delay is None
    &&& c.switch_frame_interval == 0
    &&& !c.enable_timing_info
    &&& c.level_idx is None
    &&& c.pixel_range == rav1e::prelude::PixelRange::Full
    &&& (c.chroma_sampling == rav1e::prelude::ChromaSampling::Cs444 || c.chroma_sampling
        == rav1e::prelude::ChromaSampling::Cs400)
}

/// Frame sizes that rav1e accepts for a still picture.
pub open spec fn size_accepted(width: int, height: int) -> bool {
    1 <= width <= 65535 && 1 <= height <= 65535
}

/// An encoder context of rav1e (`Context<u8>`) for 8-bit samples, held in a
/// private field.
#[verifier::external_body]
pub struct Encoder8 {
    ctx: rav1e::prelude::Context<u8>,
}

/// A frame of rav1e (`Frame<u8>`) for 8-bit samples. One is only had from
/// `Encoder8::new_frame`, which gives every plane padding and so a nonzero
/// row stride.
#[verifier::external_body]
pub struct Frame8 {
    frame: rav1e::prelude::Frame<u8>,
}

/// An encoder context of rav1e (`Context<u16>`) for high bit depth samples.
#[verifier::external_body]
pub struct Encoder16 {
    ctx: rav1e::prelude::Context<u16>,
}

/// A frame of rav1e (`Frame<u16>`), only had from `Encoder16::new_frame`,
/// whose planes all have a nonzero row stride.
#[verifier::external_body]
pub struct Frame16 {
    frame: rav1e::prelude::Frame<u16>,
}

/// Width, height and chroma sampling of the frames that a context makes.
pub uninterp spec fn encoder8_shape(e: Encoder8) -> (usize, usize, rav1e::prelude::ChromaSampling);

/// Width, height and chroma sampling of the frames that a context makes.
pub uninterp spec fn encoder16_shape(e: Encoder16) -> (usize, usize, rav1e::prelude::ChromaSampling);

/// The samples of each of the three planes of a frame, from the plane's
/// origin on, cut into rows of the plane's stride.
pub uninterp spec fn frame8_rows(f: Frame8) -> Seq<Seq<Seq<u8>>>;

/// The samples of each of the three planes of a frame, from the plane's
/// origin on, cut into rows of the plane's stride.
pub uninterp spec fn frame16_rows(f: Frame16) -> Seq<Seq<Seq<u16>>>;

/// Number of planes of a frame whose rows cover the visible region: all
/// three with full chroma, the first alone otherwise.
pub open spec fn covered_planes(cs: rav1e::prelude::ChromaSampling) -> int {
    if cs == rav1e::prelude::ChromaSampling::Cs444 {
        3
    } else {
        1
    }
}

/// Every plane below `n` has at least `height` rows of at least `width`
/// samples.
pub open spec fn rows_cover<T>(rows: Seq<Seq<Seq<T>>>, n: int, width: int, height: int) -> bool {
    &&& rows.len() == 3
    &&& forall|p: int|
        #![trigger rows[p]]
        0 <= p < n ==> rows[p].len() >= height && forall|y: int|
            0 <= y < rows[p].len() ==> #[trigger] rows[p][y].len() >= width
}

/// `new` is `old` with the row-major `src` (rows of `src_stride` elements)
/// written at the start of the rows of plane `plane` by `at(y, x)`, for as
/// many rows and columns as both hold; all else is kept.
pub open spec fn rows_after_copy<T>(
    old: Seq<Seq<Seq<T>>>,
    new: Seq<Seq<Seq<T>>>,
    plane: int,
    src_rows: int,
    src_cols: int,
    at: spec_fn(int, int) -> T,
) -> bool {
    &&& new.len() == old.len()
    &&& forall|p: int| 0 <= p < old.len() && p != plane ==> #[trigger] new[p] == old[p]
    &&& new[plane].len() == old[plane].len()
    &&& forall|y: int|
        #![trigger new[plane][y]]
        0 <= y < old[plane].len() ==> new[plane][y].len() == old[plane][y].len()
    &&& forall|y: int, x: int|
        #![trigger new[plane][y][x]]
        0 <= y < old[plane].len() && 0 <= x < old[plane][y].len() ==> new[plane][y][x] == if y
            < src_rows && x < src_cols {
            at(y, x)
        } else {
            old[plane][y][x]
        }
}

/// Relies on `Config::new_context::<u8>` on a default `Config` with these
/// settings: it asserts that the bit depth fits in `u8`, then validates the
/// settings, which for a still picture set as here fails iff the frame size
/// is out of range; the context makes frames of the configured shape.
#[verifier::external_body]
pub(crate) fn new_context8(enc: &rav1e::prelude::EncoderConfig) -> (r: Result<Encoder8, rav1e::prelude::InvalidConfig>)
    requires
        enc.bit_depth == 8,
    ensures
        still_settings_valid(*enc) ==> (r is Ok <==> size_accepted(enc.width as int, enc.height as int)),
        r matches Ok(e) ==> encoder8_shape(e) == (enc.width, enc.height, enc.chroma_sampling),
{
    let cfg = rav1e::prelude::Config::new().with_encoder_config(enc.clone());
    cfg.new_context().map(|ctx| Encoder8 { ctx })
}

/// Relies on `Config::new_context::<u16>`, as `new_context8`.
#[verifier::external_body]
pub(crate) fn new_context16(enc: &rav1e::prelude::EncoderConfig) -> (r: Result<Encoder16, rav1e::prelude::InvalidConfig>)
    requires
        enc.bit_depth == 10,
    ensures
        still_settings_valid(*enc) ==> (r is Ok <==> size_accepted(enc.width as int, enc.height as int)),
        r matches Ok(e) ==> encoder16_shape(e) == (enc.width, enc.height, enc.chroma_sampling),
{
    let cfg = rav1e::prelude::Config::new().with_encoder_config(enc.clone());
    cfg.new_context().map(|ctx| Encoder16 { ctx })
}

impl Encoder8 {
    /// Relies on `Context::new_frame`: `Frame::new_with_padding` aligns the
    /// size up to 8 and pads every plane, so each row of a full-size plane
    /// holds the width and the plane holds the height.
    #[verifier::external_body]
    pub(crate) fn new_frame(&self) -> (r: Frame8)
        ensures
            rows_cover(
                frame8_rows(r),
                covered_planes(encoder8_shape(*self).2),
                encoder8_shape(*self).0 as int,
                encoder8_shape(*self).1 as int,
            ),
    {
        Frame8 { frame: self.ctx.new_frame() }
    }

    /// Relies on `Context::send_frame`: queues the frame for encoding.
    #[verifier::external_body]
    pub(crate) fn send_frame(&mut self, frame: Frame8) -> Result<(), rav1e::prelude::EncoderStatus> {
        self.ctx.send_frame(frame.frame)
    }

    /// Relies on `Context::flush`: marks the end of the frame sequence. It
    /// cannot fail, as rav1e documents.
    #[verifier::external_body]
    pub(crate) fn flush(&mut self) {
        self.ctx.flush()
    }

    /// Relies on `Context::receive_packet`: the next packet, of which only
    /// the compressed bytes are kept.
    #[verifier::external_body]
    pub(crate) fn receive_packet(&mut self) -> Result<Vec<u8>, rav1e::prelude::EncoderStatus> {
        self.ctx.receive_packet().map(|p| p.data)
    }
}

impl Encoder16 {
    /// Relies on `Context::new_frame`, as `Encoder8::new_frame`.
    #[verifier::external_body]
    pub(crate) fn new_frame(&self) -> (r: Frame16)
        ensures
            rows_cover(
                frame16_rows(r),
                covered_planes(encoder16_shape(*self).2),
                encoder16_shape(*self).0 as int,
                encoder16_shape(*self).1 as int,
            ),
    {
        Frame16 { frame: self.ctx.new_frame() }
    }

    /// Relies on `Context::send_frame`: queues the frame for encoding.
    #[verifier::external_body]
    pub(crate) fn send_frame(&mut self, frame: Frame16) -> Result<(), rav1e::prelude::EncoderStatus> {
        self.ctx.send_frame(frame.frame)
    }

    /// Relies on `Context::flush`: marks the end of the frame sequence.
    #[verifier::external_body]
    pub(crate) fn flush(&mut self) {
        self.ctx.flush()
    }

    /// Relies on `Context::receive_packet`: the next packet, of which only
    /// the compressed bytes are kept.
    #[verifier::external_body]
    pub(crate) fn receive_packet(&mut self) -> Result<Vec<u8>, rav1e::prelude::EncoderStatus> {
        self.ctx.receive_packet().map(|p| p.data)
    }
}

impl Frame8 {
    /// Relies on `Plane::copy_from_raw_u8` with one byte per sample: row `y`
    /// of `src` (rows of `src_stride` bytes) goes to the first samples of the
    /// plane's row `y`, for as many rows and samples as both hold. It panics
    /// on a zero stride; the plane's own stride is nonzero (see `Frame8`).
    #[verifier::external_body]
    pub(crate) fn copy_plane(&mut self, plane: usize, src: &[u8], src_stride: usize)
        requires
            plane < 3,
            src_stride > 0,
        ensures
            rows_after_copy(
                frame8_rows(*old(self)),
                frame8_rows(*final(self)),
                plane as int,
                src@.len() as int / src_stride as int,
                src_stride as int,
                |y: int, x: int| src@[y * src_stride + x],
            ),
    {
        self.frame.planes[plane].copy_from_raw_u8(src, src_stride, 1)
    }
}

impl Frame16 {
    /// Relies on `Plane::copy_from_raw_u8` with two bytes per sample, low
    /// byte first: row `y` of `src` (rows of `src_stride` bytes) gives the
    /// first `src_stride / 2` samples of the plane's row `y`, for as many
    /// rows and samples as both hold.
    #[verifier::external_body]
    pub(crate) fn copy_plane(&mut self, plane: usize, src: &[u8], src_stride: usize)
        requires
            plane < 3,
            src_stride > 0,
        ensures
            rows_after_copy(
                frame16_rows(*old(self)),
                frame16_rows(*final(self)),
                plane as int,
                src@.len() as int / src_stride as int,
                src_stride as int / 2,
                |y: int, x: int|
                    (src@[y * src_stride + 2 * x] + 256 * src@[y * src_stride + 2 * x + 1]) as u16,
            ),
    {
        self.frame.planes[plane].copy_from_raw_u8(src, src_stride, 2)
    }
}

/// Relies on `rayon::current_num_threads`: the size of the current pool.
pub assume_specification[ rayon::current_num_threads ]() -> usize;

/// Relies on `rayon::join`: runs both closures, possibly in parallel, and
/// returns both results.
pub assume_specification<A, B, RA, RB>[ rayon::join::<A, B, RA, RB> ](oper_a: A, oper_b: B) -> (r: (
    RA,
    RB,
))
    where
        A: FnOnce() -> RA + Send,
        B: FnOnce() -> RB + Send,
        RA: Send,
        RB: Send,
    requires
        oper_a.requires(()),
        oper_b.requires(()),
    ensures
        oper_a.ensures((), r.0),
        oper_b.ensures((), r.1),
;

} // verus!
