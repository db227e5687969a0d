//! Pixel colors: four bytes, red, green, blue and alpha.

use vstd::prelude::*;

verus! {

/// One pixel: red, green, blue, alpha.
pub type Color = [u8; 4];

/// Opaque black.
pub const BLACK: Color = [0, 0, 0, 255];

/// Opaque white.
pub const WHITE: Color = [255, 255, 255, 255];

/// What a pixel counts as once the image is reduced to two colors: white stays
/// white, every other color is black.
pub open spec fn binarized(c: Color) -> Color {
    if c == WHITE {
        WHITE
    } else {
        BLACK
    }
}

/// Whether a pixel is black or white.
pub open spec fn is_black_or_white(c: Color) -> bool {
    c == BLACK || c == WHITE
}

/// Whether two pixels have the same four channel values.
pub fn same_color(a: &Color, b: &Color) -> (same: bool)
    ensures
        same == (*a == *b),
{
    let same = a[0] == b[0] && a[1] == b[1] && a[2] == b[2] && a[3] == b[3];
    proof {
        if same {
            assert(*a =~= *b);
        }
    }
    same
}

/// Reduces a pixel to black or white.
pub fn binarize(c: &Color) -> (out: Color)
    ensures
        out == binarized(*c),
{
    if same_color(c, &WHITE) {
        WHITE
    } else {
        BLACK
    }
}

} // verus!
