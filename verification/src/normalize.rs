//! Brings a glyph to the form in which it is compared: reduced to black and
//! white, scaled to a grid of 16 by 16 cells, and written as a vector with 1
//! for each white cell.

use crate::color::{binarize, binarized, is_black_or_white, same_color, Color, WHITE};
use crate::imaging::{resize_nearest, resized_nearest, MAX_SIDE};
use crate::raster::{Grid, Raster};
use crate::sub_view::SubView;
use crate::templates::{DigitVector, GRID_SIDE, VECTOR_LEN};
use vstd::prelude::*;

verus! {

/// The grid `g` with each pixel reduced to black or white.
pub open spec fn binarized_grid(g: Grid) -> Grid {
    Seq::new(g.len(), |y: int| Seq::new(g[y].len(), |x: int| binarized(g[y][x])))
}

/// The pixels of the glyph `g` of `width` by `height` pixels after it was
/// reduced to black and white and scaled to the grid, row by row.
pub open spec fn normalized_glyph(g: Grid, width: u32, height: u32) -> Seq<Color> {
    resized_nearest(width, height, binarized_grid(g).flatten(), GRID_SIDE, GRID_SIDE)
}

/// The vector of a list of pixels: entry `i` is 1 where pixel `i` is white,
/// and 0 where it is not or where there is no pixel `i`.
pub open spec fn pixel_vector(pixels: Seq<Color>) -> Seq<u8> {
    Seq::new(
        VECTOR_LEN as nat,
        |i: int|
            if i < pixels.len() && pixels[i] == WHITE {
                1u8
            } else {
                0u8
            },
    )
}

/// The pixels of the glyph, row by row, each reduced to black or white.
pub fn binarized_pixels(glyph: &SubView) -> (out: Vec<Color>)
    ensures
        out@ == binarized_grid(glyph@).flatten(),
        out@.len() == glyph.width() * glyph.height(),
        forall|i: int| 0 <= i < out@.len() ==> is_black_or_white(#[trigger] out@[i]),
{
    let width: u32 = glyph.width();
    let height: u32 = glyph.height();
    let ghost target = binarized_grid(glyph@);
    let mut out: Vec<Color> = Vec::new();
    let mut y: u32 = 0;
    assert(target.take(0) =~= Seq::<Seq<Color>>::empty());
    while y < height
        invariant
            y <= height,
            width == glyph.width(),
            height == glyph.height(),
            target == binarized_grid(glyph@),
            out@ == target.take(y as int).flatten(),
            out@.len() == width * y,
            forall|i: int| 0 <= i < out@.len() ==> is_black_or_white(#[trigger] out@[i]),
        decreases height - y,
    {
        let ghost done = out@;
        let mut x: u32 = 0;
        assert(target[y as int].take(0) =~= Seq::<Color>::empty());
        while x < width
            invariant
                x <= width,
                y < height,
                width == glyph.width(),
                height == glyph.height(),
                target == binarized_grid(glyph@),
                out@ == done + target[y as int].take(x as int),
                forall|i: int| 0 <= i < out@.len() ==> is_black_or_white(#[trigger] out@[i]),
            decreases width - x,
        {
            let c = glyph.get_pixel(x, y);
            out.push(binarize(&c));
            assert(target[y as int].take(x + 1) =~= target[y as int].take(x as int).push(
                target[y as int][x as int],
            ));
            x += 1;
        }
        proof {
            assert(target[y as int].take(width as int) =~= target[y as int]);
            assert(target.take(y + 1) =~= target.take(y as int).push(target[y as int]));
            target.take(y as int).lemma_flatten_push(target[y as int]);
            assert(width * (y + 1) == width * y + width) by (nonlinear_arith);
        }
        y += 1;
    }
    assert(target.take(height as int) =~= target);
    out
}

/// Whether every pixel of a list is black or white.
pub open spec fn all_black_or_white(pixels: Seq<Color>) -> bool {
    forall|i: int| 0 <= i < pixels.len() ==> is_black_or_white(#[trigger] pixels[i])
}

/// Reduces the glyph to black and white and scales it to the grid. The glyph
/// is no wider and no higher than what can be scaled. Where the glyph has
/// pixels, the grid holds black and white only.
pub fn normalize_glyph(glyph: &SubView) -> (scaled: Raster)
    requires
        glyph.width() <= MAX_SIDE,
        glyph.height() <= MAX_SIDE,
    ensures
        scaled.wf(),
        scaled.width() == GRID_SIDE,
        scaled.height() == GRID_SIDE,
        scaled.pixels() == normalized_glyph(glyph@, glyph.width(), glyph.height()),
        glyph.width() > 0 && glyph.height() > 0 ==> all_black_or_white(scaled.pixels()),
{
    let pixels = binarized_pixels(glyph);
    let scaled = resize_nearest(glyph.width(), glyph.height(), &pixels, GRID_SIDE, GRID_SIDE);
    proof {
        if glyph.width() > 0 && glyph.height() > 0 {
            assert forall|i: int| 0 <= i < scaled@.len() implies is_black_or_white(
                #[trigger] scaled@[i],
            ) by {
                assert(pixels@.contains(scaled@[i]));
                let j = choose|j: int| 0 <= j < pixels@.len() && pixels@[j] == scaled@[i];
                assert(is_black_or_white(pixels@[j]));
            }
        }
    }
    Raster::new(GRID_SIDE, GRID_SIDE, scaled)
}

/// Writes an image as a vector: 1 for each of its first 256 pixels that is
/// white, 0 for every other entry.
pub fn digit_vector(img: &Raster) -> (v: DigitVector)
    ensures
        v@ == pixel_vector(img.pixels()),
{
    let pixels = img.as_pixels();
    let count: usize = pixels.len();
    let mut v: DigitVector = [0u8; 256];
    let mut i: usize = 0;
    while i < 256
        invariant
            i <= 256,
            count == pixels@.len(),
            pixels@ == img.pixels(),
            forall|j: int| 0 <= j < i ==> #[trigger] v@[j] == pixel_vector(img.pixels())[j],
            forall|j: int| i <= j < 256 ==> #[trigger] v@[j] == 0,
        decreases 256 - i,
    {
        if i < count && same_color(&pixels[i], &WHITE) {
            v[i] = 1;
        }
        i += 1;
    }
    assert(v@ =~= pixel_vector(img.pixels()));
    v
}

} // verus!
