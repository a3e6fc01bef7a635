//! Laying one tinted stencil over an accumulator bitmap.
//!
//! A stencil's alpha channel says where it covers; its colour channels say
//! how bright the tint appears there.  A covered pixel always ends opaque.

use vstd::prelude::*;
use vstd::arithmetic::div_mod::lemma_fundamental_div_mod_converse;
use crate::bitmap::{lemma_index_in_range, Bitmap, BitmapView};
use crate::shade::{blend, blend_channel, tint, tint_channel};

verus! {

/// One pixel after a stencil pixel has been laid over it with the given tint.
///
/// Where the stencil is fully transparent the pixel stays as it was.  A
/// transparent pixel takes the tint scaled by the stencil's brightness.  Any
/// other pixel is blended with the tint at the stencil's alpha, then scaled.
pub open spec fn composite_pixel(
    under: (u8, u8, u8, u8),
    stencil: (u8, u8, u8, u8),
    tint: (u8, u8, u8),
) -> (u8, u8, u8, u8) {
    if stencil.3 == 0 {
        under
    } else if under.3 == 0 {
        (
            tint_channel(tint.0, stencil.0),
            tint_channel(tint.1, stencil.1),
            tint_channel(tint.2, stencil.2),
            255u8,
        )
    } else {
        (
            blend_channel(under.0, tint.0, stencil.3, stencil.0),
            blend_channel(under.1, tint.1, stencil.3, stencil.1),
            blend_channel(under.2, tint.2, stencil.3, stencil.2),
            255u8,
        )
    }
}

/// A bitmap after a stencil has been laid over it: each pixel meets the
/// stencil pixel at its own coordinate.  The stencil is at least as wide and
/// as high as the bitmap; what it holds beyond the bitmap's dimensions plays
/// no part.
pub open spec fn composite(under: BitmapView, stencil: BitmapView, tint: (u8, u8, u8)) -> BitmapView {
    BitmapView {
        width: under.width,
        height: under.height,
        pixels: Seq::new(
            under.pixels.len(),
            |i: int|
                composite_pixel(
                    under.pixels[i],
                    stencil.at((i % under.width as int) as nat, (i / under.width as int) as nat),
                    tint,
                ),
        ),
    }
}

/// The row-major index of a coordinate gives the coordinate back.
pub proof fn lemma_coordinate(x: nat, y: nat, width: nat)
    requires
        x < width,
    ensures
        ((y * width + x) as int) % (width as int) == x,
        ((y * width + x) as int) / (width as int) == y,
{
    lemma_fundamental_div_mod_converse((y * width + x) as int, width as int, y as int, x as int);
}

/// Where the stencil is fully transparent the pixel under it stays as it
/// was, in all four channels, whatever the stencil's colour channels, the
/// pixel and the tint are.
pub proof fn lemma_skip_rule(
    under: BitmapView,
    stencil: BitmapView,
    tint: (u8, u8, u8),
    x: nat,
    y: nat,
)
    requires
        under.wf(),
        x < under.width,
        y < under.height,
        stencil.at(x, y).3 == 0,
    ensures
        composite(under, stencil, tint).at(x, y) == under.at(x, y),
{
    lemma_coordinate(x, y, under.width);
    lemma_index_in_range(x, y, under.width, under.height);
}

/// Where the stencil covers, the pixel ends opaque.
pub proof fn lemma_covered_is_opaque(
    under: BitmapView,
    stencil: BitmapView,
    tint: (u8, u8, u8),
    x: nat,
    y: nat,
)
    requires
        under.wf(),
        x < under.width,
        y < under.height,
        stencil.at(x, y).3 != 0,
    ensures
        composite(under, stencil, tint).at(x, y).3 == 255,
{
    lemma_coordinate(x, y, under.width);
    lemma_index_in_range(x, y, under.width, under.height);
}

/// Two bitmaps that agree pixel for pixel agree again after the same stencil
/// has been laid over each with the same tint.
pub proof fn lemma_composite_agrees(
    first: BitmapView,
    second: BitmapView,
    stencil: BitmapView,
    tint: (u8, u8, u8),
)
    requires
        first.width == second.width,
        first.height == second.height,
        first.pixels.len() == second.pixels.len(),
        forall|i: int| 0 <= i < first.pixels.len() ==> first.pixels[i] == second.pixels[i],
    ensures
        composite(first, stencil, tint) == composite(second, stencil, tint),
{
    assert(composite(first, stencil, tint).pixels =~= composite(second, stencil, tint).pixels);
}

/// Lays one stencil pixel over one pixel.
pub fn apply_pixel(under: (u8, u8, u8, u8), stencil: (u8, u8, u8, u8), color: (u8, u8, u8)) -> (r: (
    u8,
    u8,
    u8,
    u8,
))
    ensures
        r == composite_pixel(under, stencil, color),
{
    if stencil.3 == 0 {
        under
    } else if under.3 == 0 {
        (tint(color.0, stencil.0), tint(color.1, stencil.1), tint(color.2, stencil.2), 255)
    } else {
        (
            blend(under.0, color.0, stencil.3, stencil.0),
            blend(under.1, color.1, stencil.3, stencil.1),
            blend(under.2, color.2, stencil.3, stencil.2),
            255,
        )
    }
}

/// Lays the stencil `pattern`, tinted with `color`, over `image`.
///
/// The outcome is a function of the image, the stencil and the colour alone.
pub fn apply_pattern(image: &mut Bitmap, pattern: &Bitmap, color: (u8, u8, u8))
    requires
        old(image).wf(),
        pattern.wf(),
        pattern@.width >= old(image)@.width,
        pattern@.height >= old(image)@.height,
    ensures
        final(image).wf(),
        final(image)@ == composite(old(image)@, pattern@, color),
        forall|x: nat, y: nat|
            x < old(image)@.width && y < old(image)@.height && pattern@.at(x, y).3 == 0
                ==> #[trigger] final(image)@.at(x, y) == old(image)@.at(x, y),
        forall|x: nat, y: nat|
            x < old(image)@.width && y < old(image)@.height && pattern@.at(x, y).3 != 0 ==> (
            #[trigger] final(image)@.at(x, y)).3 == 255,
{
    let width = image.width();
    let height = image.height();
    let ghost n = old(image)@.pixels.len();
    let mut i: usize = 0;
    let mut y: u32 = 0;
    while y < height
        invariant
            y <= height,
            i == y * width,
            n == width * height,
            n <= usize::MAX,
            width == old(image)@.width,
            height == old(image)@.height,
            pattern.wf(),
            pattern@.width >= width,
            pattern@.height >= height,
            image@.width == width,
            image@.height == height,
            image@.pixels.len() == n,
            old(image)@.pixels.len() == n,
            forall|j: int|
                0 <= j < i ==> image@.pixels[j] == composite(
                    old(image)@,
                    pattern@,
                    color,
                ).pixels[j],
            forall|j: int| i <= j < n ==> image@.pixels[j] == old(image)@.pixels[j],
        decreases height - y,
    {
        let mut x: u32 = 0;
        while x < width
            invariant
                x <= width,
                y < height,
                i == y * width + x,
                n == width * height,
                n <= usize::MAX,
                width == old(image)@.width,
                height == old(image)@.height,
                pattern.wf(),
                pattern@.width >= width,
                pattern@.height >= height,
                image@.width == width,
                image@.height == height,
                image@.pixels.len() == n,
                old(image)@.pixels.len() == n,
                forall|j: int|
                    0 <= j < i ==> image@.pixels[j] == composite(
                        old(image)@,
                        pattern@,
                        color,
                    ).pixels[j],
                forall|j: int| i <= j < n ==> image@.pixels[j] == old(image)@.pixels[j],
            decreases width - x,
        {
            proof {
                lemma_coordinate(x as nat, y as nat, width as nat);
                lemma_index_in_range(x as nat, y as nat, width as nat, height as nat);
            }
            let p = apply_pixel(image.pixel(i), pattern.get_pixel(x, y), color);
            image.set_pixel(i, p);
            i += 1;
            x += 1;
        }
        y += 1;
        proof {
            let (w, yi) = (width as int, y as int);
            assert((yi - 1) * w + w == yi * w) by (nonlinear_arith);
        }
    }
    proof {
        let after = composite(old(image)@, pattern@, color);
        assert(height * width == width * height) by (nonlinear_arith);
        assert(image@.pixels =~= after.pixels);
        assert forall|x: nat, y: nat| x < old(image)@.width && y < old(image)@.height implies #[trigger] image@.at(
            x,
            y,
        ) == composite_pixel(old(image)@.at(x, y), pattern@.at(x, y), color) by {
            lemma_coordinate(x, y, old(image)@.width);
            lemma_index_in_range(x, y, old(image)@.width, old(image)@.height);
        }
    }
}

} // verus!
