//! Copying plane streams into the encoder's frames.

use vstd::prelude::*;

use crate::config::PixelKind;
use crate::engine::{frame16_rows, frame8_rows, rows_after_copy, rows_cover, Frame16, Frame8};
use crate::error::EncodeError;

verus! {

/// Number of samples in a `width` by `height` plane, or `None` where it
/// does not fit in `usize`.
fn sample_count(width: usize, height: usize) -> (r: Option<usize>)
    ensures
        r matches Some(n) ==> n == width * height,
        r is None ==> width * height > usize::MAX,
{
    width.checked_mul(height)
}

/// Channel `c` of the first `count` triples of a stream.
fn channel<P: Copy>(stream: &Vec<[P; 3]>, c: usize, count: usize) -> (r: Vec<P>)
    requires
        c < 3,
        count <= stream@.len(),
    ensures
        r@.len() == count,
        forall|j: int| 0 <= j < count ==> r@[j] == stream@[j]@[c as int],
{
    let mut out: Vec<P> = Vec::new();
    let mut i: usize = 0;
    while i < count
        invariant
            c < 3,
            i <= count <= stream@.len(),
            out@.len() == i,
            forall|j: int| 0 <= j < i ==> out@[j] == stream@[j]@[c as int],
        decreases count - i,
    {
        out.push(stream[i][c]);
        i = i + 1;
    }
    out
}

/// The first `count` samples of a stream.
fn prefix(stream: &Vec<u8>, count: usize) -> (r: Vec<u8>)
    requires
        count <= stream@.len(),
    ensures
        r@ == stream@.subrange(0, count as int),
{
    let mut out: Vec<u8> = Vec::new();
    let mut i: usize = 0;
    while i < count
        invariant
            i <= count <= stream@.len(),
            out@ == stream@.subrange(0, i as int),
        decreases count - i,
    {
        out.push(stream[i]);
        i = i + 1;
        assert(out@ =~= stream@.subrange(0, i as int));
    }
    out
}

/// Samples laid out as bytes, low byte first.
pub fn le_bytes(samples: &Vec<u16>) -> (r: Vec<u8>)
    requires
        samples@.len() * 2 <= usize::MAX,
    ensures
        r@.len() == 2 * samples@.len(),
        forall|j: int|
            0 <= j < samples@.len() ==> r@[2 * j] == samples@[j] % 256 && r@[2 * j + 1]
                == samples@[j] / 256,
{
    let mut out: Vec<u8> = Vec::new();
    let mut i: usize = 0;
    while i < samples.len()
        invariant
            i <= samples@.len(),
            samples@.len() * 2 <= usize::MAX,
            out@.len() == 2 * i,
            forall|j: int|
                0 <= j < i ==> out@[2 * j] == samples@[j] % 256 && out@[2 * j + 1] == samples@[j]
                    / 256,
        decreases samples@.len() - i,
    {
        let v = samples[i];
        out.push((v % 256) as u8);
        out.push((v / 256) as u8);
        i = i + 1;
    }
    out
}

/// `new` is `old` with the visible `width` by `height` region of each plane
/// below `n` set, at row `y` and column `x` of plane `k`, to
/// `value(k, y * width + x)`: the row-major stream's sample; the padding,
/// the planes from `n` on and the shape are kept.
pub open spec fn region_filled<T>(
    old: Seq<Seq<Seq<T>>>,
    new: Seq<Seq<Seq<T>>>,
    n: int,
    width: int,
    height: int,
    value: spec_fn(int, int) -> T,
) -> bool {
    &&& new.len() == old.len()
    &&& forall|p: int|
        #![trigger new[p]]
        0 <= p < old.len() ==> new[p].len() == old[p].len() && forall|y: int|
            0 <= y < old[p].len() ==> #[trigger] new[p][y].len() == old[p][y].len()
    &&& forall|p: int, y: int, x: int|
        #![trigger new[p][y][x]]
        0 <= p < old.len() && 0 <= y < old[p].len() && 0 <= x < old[p][y].len() ==> new[p][y][x]
            == if p < n && y < height && x < width {
            value(p, y * width + x)
        } else {
            old[p][y][x]
        }
}

proof fn lemma_in_region(y: int, x: int, width: int, height: int)
    requires
        0 <= y < height,
        0 <= x < width,
    ensures
        0 <= y * width + x < width * height,
{
    assert(y * width + x < width * height) by (nonlinear_arith)
        requires
            0 <= y < height,
            0 <= x < width,
    ;
    assert(0 <= y * width) by (nonlinear_arith)
        requires
            0 <= y,
            0 <= x < width,
    ;
}

proof fn lemma_rows_of(count: int, width: int, height: int, k: int)
    requires
        count == width * height,
        width > 0,
        height >= 0,
        k > 0,
    ensures
        (k * count) / (k * width) == height,
{
    assert(k * count == height * (k * width)) by (nonlinear_arith)
        requires
            count == width * height,
    ;
    assert(k * width > 0) by (nonlinear_arith)
        requires
            k > 0,
            width > 0,
    ;
    vstd::arithmetic::div_mod::lemma_fundamental_div_mod_converse(k * count, k * width, height, 0);
}

proof fn lemma_fill_start<T>(rows: Seq<Seq<Seq<T>>>, width: int, height: int, value: spec_fn(int, int) -> T)
    ensures
        region_filled(rows, rows, 0, width, height, value),
{
}

proof fn lemma_fill_step<T>(
    old: Seq<Seq<Seq<T>>>,
    cur: Seq<Seq<Seq<T>>>,
    new: Seq<Seq<Seq<T>>>,
    c: int,
    width: int,
    height: int,
    value: spec_fn(int, int) -> T,
    at: spec_fn(int, int) -> T,
)
    requires
        0 <= c < old.len(),
        region_filled(old, cur, c, width, height, value),
        rows_after_copy(cur, new, c, height, width, at),
        forall|y: int, x: int| 0 <= y < height && 0 <= x < width ==> #[trigger] at(y, x) == value(c, y * width + x),
    ensures
        region_filled(old, new, c + 1, width, height, value),
{
    assert forall|p: int|
        #![trigger new[p]]
        0 <= p < old.len() implies new[p].len() == old[p].len() && forall|y: int|
            0 <= y < old[p].len() ==> #[trigger] new[p][y].len() == old[p][y].len() by {
        assert(cur[p].len() == old[p].len());
        if p != c {
            assert(new[p] == cur[p]);
        }
        assert forall|y: int| 0 <= y < old[p].len() implies #[trigger] new[p][y].len() == old[p][y].len() by {
            assert(cur[p][y].len() == old[p][y].len());
        }
    }
    assert forall|p: int, y: int, x: int|
        0 <= p < old.len() && 0 <= y < old[p].len() && 0 <= x < old[p][y].len() implies #[trigger] new[p][y][x]
            == if p < c + 1 && y < height && x < width {
            value(p, y * width + x)
        } else {
            old[p][y][x]
        } by {
        assert(cur[p].len() == old[p].len());
        assert(cur[p][y].len() == old[p][y].len());
        assert(cur[p][y][x] == if p < c && y < height && x < width {
            value(p, y * width + x)
        } else {
            old[p][y][x]
        });
        if p != c {
            assert(new[p] == cur[p]);
        } else {
            assert(new[c][y][x] == if y < height && x < width {
                at(y, x)
            } else {
                cur[c][y][x]
            });
        }
    }
}

/// Fills the visible `width` by `height` region of the three planes of an
/// 8-bit frame from a stream of triples, row by row: plane `k` gets channel
/// `k`; the padding is left as it is. Fails, as too few pixels and with the
/// frame untouched, iff the stream is shorter than the region.
pub(crate) fn init_frame_3_8(
    width: usize,
    height: usize,
    planes: &Vec<[u8; 3]>,
    frame: &mut Frame8,
) -> (r: Result<(), EncodeError>)
    requires
        rows_cover(frame8_rows(*old(frame)), 3, width as int, height as int),
    ensures
        r is Ok <==> planes@.len() >= width * height,
        r is Ok ==> width * height <= usize::MAX,
        r is Err ==> r == Err::<(), EncodeError>(EncodeError::TooFewPixels(PixelKind::Rgb))
            && frame8_rows(*final(frame)) == frame8_rows(*old(frame)),
        r is Ok ==> region_filled(
            frame8_rows(*old(frame)),
            frame8_rows(*final(frame)),
            3,
            width as int,
            height as int,
            |k: int, j: int| planes@[j]@[k],
        ),
{
    let ghost value = |k: int, j: int| planes@[j]@[k];
    let ghost start = frame8_rows(*frame);
    let available = planes.len();
    let count = match sample_count(width, height) {
        Some(n) => n,
        None => return Err(EncodeError::TooFewPixels(PixelKind::Rgb)),
    };
    if available < count {
        return Err(EncodeError::TooFewPixels(PixelKind::Rgb));
    }
    proof {
        lemma_fill_start(start, width as int, height as int, value);
    }
    if count == 0 {
        proof {
            assert(width == 0 || height == 0) by (nonlinear_arith)
                requires
                    count == width * height,
                    count == 0,
            ;
        }
        return Ok(());
    }
    proof {
        assert(width > 0 && height > 0) by (nonlinear_arith)
            requires
                count == width * height,
                count > 0,
        ;
        lemma_rows_of(count as int, width as int, height as int, 1);
    }
    let mut c: usize = 0;
    while c < 3
        invariant
            c <= 3,
            count <= planes@.len(),
            count == width * height,
            width > 0,
            height > 0,
            count as int / width as int == height,
            start.len() == 3,
            value == (|k: int, j: int| planes@[j]@[k]),
            region_filled(start, frame8_rows(*frame), c as int, width as int, height as int, value),
        decreases 3 - c,
    {
        let samples = channel(planes, c, count);
        let ghost cur = frame8_rows(*frame);
        frame.copy_plane(c, samples.as_slice(), width);
        proof {
            let at = |y: int, x: int| samples@[y * width + x];
            assert forall|y: int, x: int| 0 <= y < height && 0 <= x < width implies #[trigger] at(y, x)
                == value(c as int, y * width + x) by {
                lemma_in_region(y, x, width as int, height as int);
            }
            lemma_fill_step(start, cur, frame8_rows(*frame), c as int, width as int, height as int, value, at);
        }
        c = c + 1;
    }
    Ok(())
}

/// As `init_frame_3_8`, for a frame of high bit depth samples; the region
/// is handed over as bytes, so its samples must also fit in twice as many.
pub(crate) fn init_frame_3_16(
    width: usize,
    height: usize,
    planes: &Vec<[u16; 3]>,
    frame: &mut Frame16,
) -> (r: Result<(), EncodeError>)
    requires
        rows_cover(frame16_rows(*old(frame)), 3, width as int, height as int),
    ensures
        r is Ok <==> planes@.len() >= width * height && 2 * (width * height) <= usize::MAX,
        r is Err ==> r == Err::<(), EncodeError>(EncodeError::TooFewPixels(PixelKind::Rgb))
            && frame16_rows(*final(frame)) == frame16_rows(*old(frame)),
        r is Ok ==> region_filled(
            frame16_rows(*old(frame)),
            frame16_rows(*final(frame)),
            3,
            width as int,
            height as int,
            |k: int, j: int| planes@[j]@[k],
        ),
{
    let ghost value = |k: int, j: int| planes@[j]@[k];
    let ghost start = frame16_rows(*frame);
    let available = planes.len();
    let count = match sample_count(width, height) {
        Some(n) => n,
        None => return Err(EncodeError::TooFewPixels(PixelKind::Rgb)),
    };
    if available < count {
        return Err(EncodeError::TooFewPixels(PixelKind::Rgb));
    }
    proof {
        lemma_fill_start(start, width as int, height as int, value);
    }
    if count == 0 {
        proof {
            assert(width == 0 || height == 0) by (nonlinear_arith)
                requires
                    count == width * height,
                    count == 0,
            ;
        }
        return Ok(());
    }
    if count > usize::MAX / 2 {
        return Err(EncodeError::TooFewPixels(PixelKind::Rgb));
    }
    proof {
        assert(width > 0 && height > 0 && count >= width) by (nonlinear_arith)
            requires
                count == width * height,
                count > 0,
        ;
        lemma_rows_of(count as int, width as int, height as int, 2);
    }
    let mut c: usize = 0;
    while c < 3
        invariant
            c <= 3,
            count <= planes@.len(),
            count == width * height,
            0 < width <= count <= usize::MAX / 2,
            height > 0,
            (2 * count) as int / (2 * width) as int == height,
            start.len() == 3,
            value == (|k: int, j: int| planes@[j]@[k]),
            region_filled(start, frame16_rows(*frame), c as int, width as int, height as int, value),
        decreases 3 - c,
    {
        let samples = channel(planes, c, count);
        let bytes = le_bytes(&samples);
        let ghost cur = frame16_rows(*frame);
        frame.copy_plane(c, bytes.as_slice(), 2 * width);
        proof {
            let w2 = 2 * width;
            let at = |y: int, x: int|
                (bytes@[y * w2 + 2 * x] + 256 * bytes@[y * w2 + 2 * x + 1]) as u16;
            assert forall|y: int, x: int| 0 <= y < height && 0 <= x < width implies #[trigger] at(y, x)
                == value(c as int, y * width + x) by {
                lemma_in_region(y, x, width as int, height as int);
                let j = y * width + x;
                assert(y * w2 + 2 * x == 2 * j) by (nonlinear_arith)
                    requires
                        w2 == 2 * width,
                        j == y * width + x,
                ;
                let v = samples@[j];
                assert(bytes@[2 * j] == v % 256 && bytes@[2 * j + 1] == v / 256);
                assert((v % 256 + 256 * (v / 256)) as u16 == v);
            }
            assert(w2 as int / 2 == width);
            lemma_fill_step(start, cur, frame16_rows(*frame), c as int, width as int, height as int, value, at);
        }
        c = c + 1;
    }
    Ok(())
}

/// Fills the visible region of the first plane of an 8-bit frame from a
/// stream of samples, row by row; the padding and the other planes are left
/// as they are. Fails, as too few pixels and with the frame untouched, iff
/// the stream is shorter than the region.
pub(crate) fn init_frame_1(width: usize, height: usize, planes: &Vec<u8>, frame: &mut Frame8) -> (r:
    Result<(), EncodeError>)
    requires
        rows_cover(frame8_rows(*old(frame)), 1, width as int, height as int),
    ensures
        r is Ok <==> planes@.len() >= width * height,
        r is Ok ==> width * height <= usize::MAX,
        r is Err ==> r == Err::<(), EncodeError>(EncodeError::TooFewPixels(PixelKind::Alpha))
            && frame8_rows(*final(frame)) == frame8_rows(*old(frame)),
        r is Ok ==> region_filled(
            frame8_rows(*old(frame)),
            frame8_rows(*final(frame)),
            1,
            width as int,
            height as int,
            |k: int, j: int| planes@[j],
        ),
{
    let ghost value = |k: int, j: int| planes@[j];
    let ghost start = frame8_rows(*frame);
    let available = planes.len();
    let count = match sample_count(width, height) {
        Some(n) => n,
        None => return Err(EncodeError::TooFewPixels(PixelKind::Alpha)),
    };
    if available < count {
        return Err(EncodeError::TooFewPixels(PixelKind::Alpha));
    }
    proof {
        lemma_fill_start(start, width as int, height as int, value);
    }
    if count == 0 {
        proof {
            assert(width == 0 || height == 0) by (nonlinear_arith)
                requires
                    count == width * height,
                    count == 0,
            ;
        }
        return Ok(());
    }
    proof {
        assert(width > 0 && height > 0) by (nonlinear_arith)
            requires
                count == width * height,
                count > 0,
        ;
        lemma_rows_of(count as int, width as int, height as int, 1);
    }
    let samples = prefix(planes, count);
    frame.copy_plane(0, samples.as_slice(), width);
    proof {
        let at = |y: int, x: int| samples@[y * width + x];
        assert forall|y: int, x: int| 0 <= y < height && 0 <= x < width implies #[trigger] at(y, x)
            == value(0, y * width + x) by {
            lemma_in_region(y, x, width as int, height as int);
        }
        lemma_fill_step(start, start, frame8_rows(*frame), 0, width as int, height as int, value, at);
    }
    Ok(())
}

} // verus!
