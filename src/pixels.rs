use vstd::arithmetic::div_mod::lemma_fundamental_div_mod_converse;
use vstd::prelude::*;

verus! {

/// Makes the fields of `rgb::Rgba` visible to proofs.
#[verifier::external_type_specification]
#[verifier::reject_recursive_types(T)]
#[verifier::reject_recursive_types(A)]
pub struct ExRgba<T, A>(rgb::Rgba<T, A>);

/// Makes the fields of `rgb::Rgb` visible to proofs.
#[verifier::external_type_specification]
#[verifier::reject_recursive_types(T)]
pub struct ExRgb<T>(rgb::Rgb<T>);

/// Scale-and-replicate expansion of an 8-bit sample to 10 bits.
pub open spec fn expand10(x: u8) -> u16 {
    ((x as int) * 4 + (x as int) / 64) as u16
}

/// Color samples of a pixel in plane order: green, blue, red.
pub open spec fn gbr8(p: rgb::Rgba<u8>) -> Seq<u8> {
    seq![p.g, p.b, p.r]
}

/// Color samples of a pixel in plane order, expanded to 10 bits.
pub open spec fn gbr10(p: rgb::Rgba<u8>) -> Seq<u16> {
    seq![expand10(p.g), expand10(p.b), expand10(p.r)]
}

/// Position in the source buffer of the `k`-th pixel of the logical
/// region, counted in row-major order.
pub open spec fn src_index(k: int, width: int, stride: int) -> int {
    (k / width) * stride + k % width
}

/// `n` is the number of logical pixels, in row-major order, that lie inside a
/// buffer of `len` pixels: every one before `n` does, the `n`-th does not.
pub open spec fn is_visible_count(len: int, width: int, height: int, stride: int, n: int) -> bool {
    &&& 0 <= n <= width * height
    &&& forall|j: int| 0 <= j < n ==> src_index(j, width, stride) < len
    &&& n < width * height ==> src_index(n, width, stride) >= len
}

/// Number of logical pixels that the buffer holds before the first missing one.
pub open spec fn visible_count(len: int, width: int, height: int, stride: int) -> int {
    choose|n: int| is_visible_count(len, width, height, stride, n)
}

/// The logical pixels of a strided buffer in row-major order, padding
/// skipped, up to the first one that the buffer does not hold.
pub open spec fn visible_pixels(src: Seq<rgb::Rgba<u8>>, width: usize, height: usize, stride: usize) -> Seq<
    rgb::Rgba<u8>,
> {
    Seq::new(
        visible_count(src.len() as int, width as int, height as int, stride as int) as nat,
        |j: int| src[src_index(j, width as int, stride as int)],
    )
}

/// True iff some pixel is not fully opaque.
pub open spec fn any_translucent(px: Seq<rgb::Rgba<u8>>) -> bool {
    exists|j: int| 0 <= j < px.len() && px[j].a != 255
}

proof fn lemma_src_index(y: int, x: int, width: int, stride: int)
    requires
        0 <= x < width,
        0 <= y,
    ensures
        src_index(y * width + x, width, stride) == y * stride + x,
{
    lemma_fundamental_div_mod_converse(y * width + x, width, y, x);
}

proof fn lemma_visible_count_unique(len: int, width: int, height: int, stride: int, n: int)
    requires
        is_visible_count(len, width, height, stride, n),
    ensures
        visible_count(len, width, height, stride) == n,
{
    let m = visible_count(len, width, height, stride);
    assert(is_visible_count(len, width, height, stride, m));
    if m < n {
        assert(src_index(m, width, stride) < len);
    } else if n < m {
        assert(src_index(n, width, stride) < len);
    }
}

/// The 10-bit expansion keeps black and white: 0 becomes 0 and 255 becomes
/// 1023.
pub proof fn lemma_expand10_endpoints()
    ensures
        expand10(0) == 0,
        expand10(255) == 1023,
{
}

/// The 10-bit expansion is strictly increasing: a darker 8-bit sample never
/// becomes a brighter or equal 10-bit one.
pub proof fn lemma_expand10_strictly_increasing(a: u8, b: u8)
    requires
        a < b,
    ensures
        expand10(a) < expand10(b),
{
    assert((a as int) / 64 <= (b as int) / 64) by (nonlinear_arith)
        requires
            a < b,
    ;
}

/// Converts one 8-bit sample to 10 bits, keeping black and white exact.
pub fn to_ten(x: u8) -> (r: u16)
    ensures
        r == expand10(x),
{
    let w = x as u16;
    let r = (w << 2u16) | (w >> 6u16);
    assert(r == w * 4 + w / 64) by (bit_vector)
        requires
            w < 256,
            r == (w << 2u16) | (w >> 6u16),
    ;
    r
}

/// Reorders a color to (G, B, R), each expanded to 10 bits.
pub fn rgb_to_10_bit_gbr(px: rgb::Rgb<u8>) -> (r: (u16, u16, u16))
    ensures
        r == (expand10(px.g), expand10(px.b), expand10(px.r)),
{
    (to_ten(px.g), to_ten(px.b), to_ten(px.r))
}

/// Reorders a color to (G, B, R) at 8 bits.
pub fn rgb_to_8_bit_gbr(px: rgb::Rgb<u8>) -> (r: (u8, u8, u8))
    ensures
        r == (px.g, px.b, px.r),
{
    (px.g, px.b, px.r)
}

fn color_of(px: rgb::Rgba<u8>) -> (r: rgb::Rgb<u8>)
    ensures
        r.r == px.r && r.g == px.g && r.b == px.b,
{
    rgb::Rgb { r: px.r, g: px.g, b: px.b }
}

/// Collects the logical pixels of a buffer with the given row stride,
/// row by row, stopping at the first pixel that the buffer does not hold.
pub fn logical_pixels(pixels: &[rgb::Rgba<u8>], width: usize, height: usize, stride: usize) -> (r:
    Vec<rgb::Rgba<u8>>)
    requires
        stride >= width,
    ensures
        r@ == visible_pixels(pixels@, width, height, stride),
{
    let ghost len = pixels@.len() as int;
    let mut out: Vec<rgb::Rgba<u8>> = Vec::new();
    if width == 0 || height == 0 {
        proof {
            assert(width * height == 0) by (nonlinear_arith)
                requires
                    width == 0 || height == 0,
            ;
            lemma_visible_count_unique(len, width as int, height as int, stride as int, 0);
            assert(out@ =~= visible_pixels(pixels@, width, height, stride));
        }
        return out;
    }
    let mut x: usize = 0;
    let mut y: usize = 0;
    let mut base: usize = 0;
    loop
        invariant_except_break
            out@.len() == y * width + x,
        invariant
            0 < width <= stride,
            x < width,
            y < height,
            base == y * stride,
            base <= len,
            len == pixels@.len(),
            forall|j: int|
                #![trigger src_index(j, width as int, stride as int)]
                0 <= j < out@.len() ==> src_index(j, width as int, stride as int) < len && out@[j]
                    == pixels@[src_index(j, width as int, stride as int)],
        ensures
            is_visible_count(len, width as int, height as int, stride as int, out@.len() as int),
            forall|j: int|
                #![trigger src_index(j, width as int, stride as int)]
                0 <= j < out@.len() ==> out@[j] == pixels@[src_index(
                    j,
                    width as int,
                    stride as int,
                )],
        decreases height - y, width - x,
    {
        proof {
            lemma_src_index(y as int, x as int, width as int, stride as int);
            assert(y * width + x < width * height) by (nonlinear_arith)
                requires
                    x < width,
                    y < height,
            ;
        }
        if x >= pixels.len() - base {
            break;
        }
        out.push(pixels[base + x]);
        if x + 1 < width {
            x = x + 1;
        } else {
            proof {
                assert((y + 1) * width == y * width + width) by (nonlinear_arith);
                assert((y + 1) * stride == y * stride + stride) by (nonlinear_arith);
                lemma_src_index(y + 1, 0, width as int, stride as int);
            }
            if y + 1 >= height {
                assert(out@.len() == width * height) by (nonlinear_arith)
                    requires
                        out@.len() == y * width + width,
                        y + 1 == height,
                ;
                break;
            }
            if stride > pixels.len() - base {
                proof {
                    assert((y + 1) * width < width * height) by (nonlinear_arith)
                        requires
                            y + 1 < height,
                            width > 0,
                    ;
                }
                break;
            }
            base = base + stride;
            y = y + 1;
            x = 0;
        }
    }
    proof {
        lemma_visible_count_unique(len, width as int, height as int, stride as int, out@.len() as int);
        assert(out@ =~= visible_pixels(pixels@, width, height, stride));
    }
    out
}

/// Tells whether any pixel has an alpha other than fully opaque.
pub fn has_alpha(pixels: &Vec<rgb::Rgba<u8>>) -> (r: bool)
    ensures
        r == any_translucent(pixels@),
{
    let mut i: usize = 0;
    while i < pixels.len()
        invariant
            i <= pixels@.len(),
            forall|j: int| 0 <= j < i ==> pixels@[j].a == 255,
        decreases pixels@.len() - i,
    {
        if pixels[i].a != 255 {
            return true;
        }
        i = i + 1;
    }
    false
}

/// The color plane stream at 8 bits: one (G, B, R) triple per pixel.
pub fn color_planes_8(pixels: &Vec<rgb::Rgba<u8>>) -> (r: Vec<[u8; 3]>)
    ensures
        r@.len() == pixels@.len(),
        forall|j: int| 0 <= j < r@.len() ==> r@[j]@ == gbr8(pixels@[j]),
{
    let mut out: Vec<[u8; 3]> = Vec::new();
    let mut i: usize = 0;
    while i < pixels.len()
        invariant
            i <= pixels@.len(),
            out@.len() == i,
            forall|j: int| 0 <= j < i ==> out@[j]@ == gbr8(pixels@[j]),
        decreases pixels@.len() - i,
    {
        let (g, b, r) = rgb_to_8_bit_gbr(color_of(pixels[i]));
        let px = [g, b, r];
        assert(px@ =~= gbr8(pixels@[i as int]));
        out.push(px);
        i = i + 1;
    }
    out
}

/// The color plane stream at 10 bits: one expanded (G, B, R) triple per pixel.
pub fn color_planes_10(pixels: &Vec<rgb::Rgba<u8>>) -> (r: Vec<[u16; 3]>)
    ensures
        r@.len() == pixels@.len(),
        forall|j: int| 0 <= j < r@.len() ==> r@[j]@ == gbr10(pixels@[j]),
{
    let mut out: Vec<[u16; 3]> = Vec::new();
    let mut i: usize = 0;
    while i < pixels.len()
        invariant
            i <= pixels@.len(),
            out@.len() == i,
            forall|j: int| 0 <= j < i ==> out@[j]@ == gbr10(pixels@[j]),
        decreases pixels@.len() - i,
    {
        let (g, b, r) = rgb_to_10_bit_gbr(color_of(pixels[i]));
        let px = [g, b, r];
        assert(px@ =~= gbr10(pixels@[i as int]));
        out.push(px);
        i = i + 1;
    }
    out
}

/// The alpha plane stream: each pixel's alpha, unchanged.
pub fn alpha_plane(pixels: &Vec<rgb::Rgba<u8>>) -> (r: Vec<u8>)
    ensures
        r@.len() == pixels@.len(),
        forall|j: int| 0 <= j < r@.len() ==> r@[j] == pixels@[j].a,
{
    let mut out: Vec<u8> = Vec::new();
    let mut i: usize = 0;
    while i < pixels.len()
        invariant
            i <= pixels@.len(),
            out@.len() == i,
            forall|j: int| 0 <= j < i ==> out@[j] == pixels@[j].a,
        decreases pixels@.len() - i,
    {
        out.push(pixels[i].a);
        i = i + 1;
    }
    out
}

} // verus!
