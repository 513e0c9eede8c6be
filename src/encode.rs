//! One encode pass per plane set, and the color/alpha pair of passes.

use rav1e::prelude::{EncoderStatus, InvalidConfig};
use vstd::prelude::*;

use crate::config::{get_encoder_config, PixelKind};
use crate::engine::{new_context16, new_context8, size_accepted};
use crate::error::EncodeError;
use crate::frame::{init_frame_1, init_frame_3_16, init_frame_3_8};
use crate::pixels::{
    alpha_plane, any_translucent, color_planes_10, color_planes_8, has_alpha, logical_pixels,
    visible_pixels,
};

verus! {

/// The compressed payloads of an encode.
pub struct EncodeOutcome {
    /// The color frame.
    pub color: Vec<u8>,
    /// The alpha frame, present iff some pixel is not fully opaque.
    pub alpha: Option<Vec<u8>>,
}

/// The result of a pass from what the encoder answered, each step run only
/// after the ones before it succeeded: creating the context (`accepted`),
/// filling the frame from the stream (`filled`), sending the frame (`sent`)
/// and, after the flush, receiving the packet (`packet`), whose bytes are the
/// payload.
pub open spec fn pass_decision(
    kind: PixelKind,
    accepted: Result<(), InvalidConfig>,
    filled: bool,
    sent: Result<(), EncoderStatus>,
    packet: Result<Vec<u8>, EncoderStatus>,
) -> Result<Vec<u8>, EncodeError> {
    match accepted {
        Err(e) => Err(EncodeError::InvalidConfig(kind, e)),
        Ok(()) => if !filled {
            Err(EncodeError::TooFewPixels(kind))
        } else {
            match sent {
                Err(s) => Err(EncodeError::SendFrame(kind, s)),
                Ok(()) => match packet {
                    Err(s) => Err(EncodeError::ReceivePacket(kind, s)),
                    Ok(data) => Ok(data),
                },
            }
        },
    }
}

/// A stream of `n` samples fills a `width` by `height` frame handed over at
/// `sample_bytes` bytes a sample.
pub open spec fn stream_fills(n: int, width: int, height: int, sample_bytes: int) -> bool {
    n >= width * height && sample_bytes * (width * height) <= usize::MAX
}

/// What holds of the result of one pass of kind `kind` over a stream of `n`
/// samples, whatever the encoder's own work gave: every failure names the
/// pass; the encoder rejects the settings iff the frame size is out of its
/// range; within that range a short stream fails as too few pixels; and a
/// too-few-pixels failure means that the stream was short or the region, at
/// `sample_bytes` bytes a sample, larger than memory.
pub open spec fn is_pass_result(
    r: Result<Vec<u8>, EncodeError>,
    kind: PixelKind,
    n: int,
    width: int,
    height: int,
    sample_bytes: int,
) -> bool {
    &&& exists|
        accepted: Result<(), InvalidConfig>,
        sent: Result<(), EncoderStatus>,
        packet: Result<Vec<u8>, EncoderStatus>,
    |
        (accepted is Ok <==> size_accepted(width, height)) && r == #[trigger] pass_decision(
            kind,
            accepted,
            stream_fills(n, width, height, sample_bytes),
            sent,
            packet,
        )
    &&& r matches Err(e) ==> e.pass() == kind
    &&& (r matches Err(EncodeError::InvalidConfig(_, _))) <==> !size_accepted(width, height)
    &&& size_accepted(width, height) && n < width * height ==> (r matches Err(
        EncodeError::TooFewPixels(_),
    ))
    &&& r matches Err(EncodeError::TooFewPixels(_)) ==> n < width * height || sample_bytes * (width
        * height) > usize::MAX
}

/// The outcome of a pair of passes: the color failure if the color pass
/// failed, else the alpha failure if the alpha pass ran and failed, else
/// both payloads.
pub open spec fn joined(
    color: Result<Vec<u8>, EncodeError>,
    alpha: Option<Result<Vec<u8>, EncodeError>>,
) -> Result<EncodeOutcome, EncodeError> {
    match color {
        Err(e) => Err(e),
        Ok(c) => match alpha {
            None => Ok(EncodeOutcome { color: c, alpha: None }),
            Some(Err(e)) => Err(e),
            Some(Ok(a)) => Ok(EncodeOutcome { color: c, alpha: Some(a) }),
        },
    }
}

/// What holds of an encode of the logical pixels `px` of a `width` by
/// `height` image, whatever the encoder did: the color pass ran, at 8 bits
/// where some pixel is translucent and at 10 bits (2 bytes a sample) where
/// none is; the alpha pass ran iff some pixel is translucent; and the
/// outcome joins their results.
pub open spec fn is_encode_result(
    r: Result<EncodeOutcome, EncodeError>,
    px: Seq<rgb::Rgba<u8>>,
    width: int,
    height: int,
) -> bool {
    if any_translucent(px) {
        exists|c: Result<Vec<u8>, EncodeError>, a: Result<Vec<u8>, EncodeError>|
            is_pass_result(c, PixelKind::Rgb, px.len() as int, width, height, 1) && is_pass_result(
                a,
                PixelKind::Alpha,
                px.len() as int,
                width,
                height,
                1,
            ) && r == joined(c, Some(a))
    } else {
        exists|c: Result<Vec<u8>, EncodeError>|
            is_pass_result(c, PixelKind::Rgb, px.len() as int, width, height, 2) && r == joined(
                c,
                None,
            )
    }
}

/// Encodes the (G, B, R) planes at 8 bits, as the color pass of an image
/// that has alpha.
pub fn encode_color_8(width: usize, height: usize, planes: &Vec<[u8; 3]>) -> (r: Result<
    Vec<u8>,
    EncodeError,
>)
    ensures
        is_pass_result(r, PixelKind::Rgb, planes@.len() as int, width as int, height as int, 1),
{
    let ghost filled = stream_fills(planes@.len() as int, width as int, height as int, 1);
    let ghost fail = Err::<(), EncoderStatus>(EncoderStatus::Failure);
    let ghost no_packet = Err::<Vec<u8>, EncoderStatus>(EncoderStatus::Failure);
    let kind = PixelKind::Rgb;
    let threads = rayon::current_num_threads();
    let cfg = get_encoder_config(kind, width, height, 8, threads);
    let mut ctx = match new_context8(&cfg) {
        Ok(ctx) => ctx,
        Err(e) => {
            assert(pass_decision(kind, Err(e), filled, fail, no_packet) == Err::<Vec<u8>, EncodeError>(
                EncodeError::InvalidConfig(kind, e),
            ));
            return Err(EncodeError::InvalidConfig(kind, e));
        },
    };
    let mut frame = ctx.new_frame();
    match init_frame_3_8(width, height, planes, &mut frame) {
        Ok(()) => {},
        Err(e) => {
            assert(pass_decision(kind, Ok(()), filled, fail, no_packet) == Err::<Vec<u8>, EncodeError>(e));
            return Err(e);
        },
    }
    match ctx.send_frame(frame) {
        Ok(()) => {},
        Err(s) => {
            assert(pass_decision(kind, Ok(()), filled, Err(s), no_packet) == Err::<Vec<u8>, EncodeError>(
                EncodeError::SendFrame(kind, s),
            ));
            return Err(EncodeError::SendFrame(kind, s));
        },
    }
    ctx.flush();
    let packet = ctx.receive_packet();
    let r = match packet {
        Ok(data) => Ok(data),
        Err(s) => Err(EncodeError::ReceivePacket(kind, s)),
    };
    assert(pass_decision(kind, Ok(()), filled, Ok(()), packet) == r);
    r
}

/// Encodes the (G, B, R) planes at 10 bits, as the color pass of a fully
/// opaque image.
pub fn encode_color_10(width: usize, height: usize, planes: &Vec<[u16; 3]>) -> (r: Result<
    Vec<u8>,
    EncodeError,
>)
    ensures
        is_pass_result(r, PixelKind::Rgb, planes@.len() as int, width as int, height as int, 2),
{
    let ghost filled = stream_fills(planes@.len() as int, width as int, height as int, 2);
    let ghost fail = Err::<(), EncoderStatus>(EncoderStatus::Failure);
    let ghost no_packet = Err::<Vec<u8>, EncoderStatus>(EncoderStatus::Failure);
    let kind = PixelKind::Rgb;
    let threads = rayon::current_num_threads();
    let cfg = get_encoder_config(kind, width, height, 10, threads);
    let mut ctx = match new_context16(&cfg) {
        Ok(ctx) => ctx,
        Err(e) => {
            assert(pass_decision(kind, Err(e), filled, fail, no_packet) == Err::<Vec<u8>, EncodeError>(
                EncodeError::InvalidConfig(kind, e),
            ));
            return Err(EncodeError::InvalidConfig(kind, e));
        },
    };
    let mut frame = ctx.new_frame();
    match init_frame_3_16(width, height, planes, &mut frame) {
        Ok(()) => {},
        Err(e) => {
            assert(pass_decision(kind, Ok(()), filled, fail, no_packet) == Err::<Vec<u8>, EncodeError>(e));
            return Err(e);
        },
    }
    match ctx.send_frame(frame) {
        Ok(()) => {},
        Err(s) => {
            assert(pass_decision(kind, Ok(()), filled, Err(s), no_packet) == Err::<Vec<u8>, EncodeError>(
                EncodeError::SendFrame(kind, s),
            ));
            return Err(EncodeError::SendFrame(kind, s));
        },
    }
    ctx.flush();
    let packet = ctx.receive_packet();
    let r = match packet {
        Ok(data) => Ok(data),
        Err(s) => Err(EncodeError::ReceivePacket(kind, s)),
    };
    assert(pass_decision(kind, Ok(()), filled, Ok(()), packet) == r);
    r
}

/// Encodes the alpha plane at 8 bits as a monochrome frame.
pub fn encode_alpha(width: usize, height: usize, planes: &Vec<u8>) -> (r: Result<
    Vec<u8>,
    EncodeError,
>)
    ensures
        is_pass_result(r, PixelKind::Alpha, planes@.len() as int, width as int, height as int, 1),
{
    let ghost filled = stream_fills(planes@.len() as int, width as int, height as int, 1);
    let ghost fail = Err::<(), EncoderStatus>(EncoderStatus::Failure);
    let ghost no_packet = Err::<Vec<u8>, EncoderStatus>(EncoderStatus::Failure);
    let kind = PixelKind::Alpha;
    let threads = rayon::current_num_threads();
    let cfg = get_encoder_config(kind, width, height, 8, threads);
    let mut ctx = match new_context8(&cfg) {
        Ok(ctx) => ctx,
        Err(e) => {
            assert(pass_decision(kind, Err(e), filled, fail, no_packet) == Err::<Vec<u8>, EncodeError>(
                EncodeError::InvalidConfig(kind, e),
            ));
            return Err(EncodeError::InvalidConfig(kind, e));
        },
    };
    let mut frame = ctx.new_frame();
    match init_frame_1(width, height, planes, &mut frame) {
        Ok(()) => {},
        Err(e) => {
            assert(pass_decision(kind, Ok(()), filled, fail, no_packet) == Err::<Vec<u8>, EncodeError>(e));
            return Err(e);
        },
    }
    match ctx.send_frame(frame) {
        Ok(()) => {},
        Err(s) => {
            assert(pass_decision(kind, Ok(()), filled, Err(s), no_packet) == Err::<Vec<u8>, EncodeError>(
                EncodeError::SendFrame(kind, s),
            ));
            return Err(EncodeError::SendFrame(kind, s));
        },
    }
    ctx.flush();
    let packet = ctx.receive_packet();
    let r = match packet {
        Ok(data) => Ok(data),
        Err(s) => Err(EncodeError::ReceivePacket(kind, s)),
    };
    assert(pass_decision(kind, Ok(()), filled, Ok(()), packet) == r);
    r
}

/// Pairs the results of the two passes; a color failure wins over an alpha
/// one, and no outcome is made without the alpha payload once alpha ran.
pub fn join_passes(
    color: Result<Vec<u8>, EncodeError>,
    alpha: Option<Result<Vec<u8>, EncodeError>>,
) -> (r: Result<EncodeOutcome, EncodeError>)
    ensures
        r == joined(color, alpha),
{
    let color = match color {
        Ok(c) => c,
        Err(e) => return Err(e),
    };
    match alpha {
        None => Ok(EncodeOutcome { color, alpha: None }),
        Some(Err(e)) => Err(e),
        Some(Ok(a)) => Ok(EncodeOutcome { color, alpha: Some(a) }),
    }
}

/// Runs the 8-bit color pass and the alpha pass concurrently and joins them.
fn encode_raw_planes(width: usize, height: usize, planes: Vec<[u8; 3]>, alpha: Vec<u8>) -> (r: Result<
    EncodeOutcome,
    EncodeError,
>)
    ensures
        exists|c: Result<Vec<u8>, EncodeError>, a: Result<Vec<u8>, EncodeError>|
            is_pass_result(c, PixelKind::Rgb, planes@.len() as int, width as int, height as int, 1)
            && is_pass_result(a, PixelKind::Alpha, alpha@.len() as int, width as int, height as int, 1)
            && r == joined(c, Some(a)),
{
    let ghost n_color = planes@.len() as int;
    let ghost n_alpha = alpha@.len() as int;
    let encode_color = move || -> (r: Result<Vec<u8>, EncodeError>)
        ensures
            is_pass_result(r, PixelKind::Rgb, n_color, width as int, height as int, 1),
        { encode_color_8(width, height, &planes) };
    let encode_alpha_plane = move || -> (r: Result<Vec<u8>, EncodeError>)
        ensures
            is_pass_result(r, PixelKind::Alpha, n_alpha, width as int, height as int, 1),
        { encode_alpha(width, height, &alpha) };
    let (color, alpha) = rayon::join(encode_color, encode_alpha_plane);
    join_passes(color, Some(alpha))
}

/// Encodes a strided RGBA buffer of `width` by `height` pixels whose rows
/// start `stride` pixels apart. Where some pixel is not fully opaque, the
/// (G, B, R) planes at 8 bits and the alpha plane are encoded concurrently;
/// else only the (G, B, R) planes, at 10 bits. A buffer too short for the
/// declared size fails as too few pixels.
pub fn encode_rgba(pixels: &[rgb::Rgba<u8>], width: usize, height: usize, stride: usize) -> (r: Result<
    EncodeOutcome,
    EncodeError,
>)
    requires
        stride >= width,
    ensures
        is_encode_result(r, visible_pixels(pixels@, width, height, stride), width as int, height as int),
        r matches Ok(o) ==> (o.alpha is Some <==> any_translucent(
            visible_pixels(pixels@, width, height, stride),
        )),
        visible_pixels(pixels@, width, height, stride).len() < width * height ==> r is Err,
        size_accepted(width as int, height as int) && visible_pixels(pixels@, width, height, stride).len()
            < width * height ==> r == Err::<EncodeOutcome, EncodeError>(
            EncodeError::TooFewPixels(PixelKind::Rgb),
        ),
        !size_accepted(width as int, height as int) ==> (r matches Err(
            EncodeError::InvalidConfig(PixelKind::Rgb, _),
        )),
        size_accepted(width as int, height as int) ==> !(r matches Err(
            EncodeError::InvalidConfig(_, _),
        )),
{
    let px = logical_pixels(pixels, width, height, stride);
    let use_alpha = has_alpha(&px);
    if use_alpha {
        let planes = color_planes_8(&px);
        let alpha = alpha_plane(&px);
        encode_raw_planes(width, height, planes, alpha)
    } else {
        let planes = color_planes_10(&px);
        let color = encode_color_10(width, height, &planes);
        join_passes(color, None)
    }
}

} // verus!
