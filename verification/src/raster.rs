//! An owned grid of pixels.

use crate::color::Color;
use vstd::prelude::*;

verus! {

/// The mathematical model of an image: a sequence of rows, top to bottom, each
/// a sequence of pixels, left to right.
pub type Grid = Seq<Seq<Color>>;

/// The grid that `pixels` make when read as `height` rows of `width` pixels.
pub open spec fn pixel_grid(width: nat, height: nat, pixels: Seq<Color>) -> Grid {
    Seq::new(height, |y: int| Seq::new(width, |x: int| pixels[y * width + x]))
}

/// A grid has the shape `width` by `height` when it has `height` rows of
/// `width` pixels each.
pub open spec fn has_shape(g: Grid, width: nat, height: nat) -> bool {
    &&& g.len() == height
    &&& forall|y: int| 0 <= y < height ==> (#[trigger] g[y]).len() == width
}

/// The part of `g` that is `width` wide and `height` high and whose top left
/// corner is at column `x`, row `y`.
pub open spec fn window(g: Grid, x: int, y: int, width: nat, height: nat) -> Grid {
    Seq::new(height, |j: int| Seq::new(width, |i: int| g[y + j][x + i]))
}

/// An image held in memory as a list of its pixels, row by row.
pub struct Raster {
    width: u32,
    height: u32,
    pixels: Vec<Color>,
}

impl View for Raster {
    type V = Grid;

    open spec fn view(&self) -> Grid {
        pixel_grid(self.spec_width() as nat, self.spec_height() as nat, self.pixels())
    }
}

impl Raster {
    /// There is one pixel for each cell of the grid.
    #[verifier::type_invariant]
    pub closed spec fn wf(&self) -> bool {
        self.pixels.len() == self.width * self.height
    }

    pub closed spec fn spec_width(&self) -> u32 {
        self.width
    }

    pub closed spec fn spec_height(&self) -> u32 {
        self.height
    }

    /// The pixels, row by row.
    pub closed spec fn pixels(&self) -> Seq<Color> {
        self.pixels@
    }

    /// The image of `width` by `height` pixels that `pixels` list row by row.
    pub fn new(width: u32, height: u32, pixels: Vec<Color>) -> (raster: Raster)
        requires
            pixels@.len() == width * height,
        ensures
            raster.wf(),
            raster.width() == width,
            raster.height() == height,
            raster.pixels() == pixels@,
    {
        Raster { width, height, pixels }
    }

    /// The image of `width` by `height` pixels that `pixels` list row by row,
    /// where there is one pixel for each cell.
    pub fn from_pixels(width: u32, height: u32, pixels: Vec<Color>) -> (r: Option<Raster>)
        ensures
            r is Some <==> pixels@.len() == width * height,
            r matches Some(raster) ==> {
                &&& raster.wf()
                &&& raster.width() == width
                &&& raster.height() == height
                &&& raster.pixels() == pixels@
            },
    {
        assert(0 <= width * height <= 0xffff_ffff * 0xffff_ffff) by (nonlinear_arith);
        let cells: u64 = (width as u64) * (height as u64);
        let len: usize = pixels.len();
        if len as u64 == cells {
            Some(Raster { width, height, pixels })
        } else {
            None
        }
    }

    #[verifier::when_used_as_spec(spec_width)]
    pub fn width(&self) -> (w: u32)
        ensures
            w == self.width(),
    {
        self.width
    }

    #[verifier::when_used_as_spec(spec_height)]
    pub fn height(&self) -> (h: u32)
        ensures
            h == self.height(),
    {
        self.height
    }

    /// The pixels, row by row.
    pub fn as_pixels(&self) -> (pixels: &Vec<Color>)
        ensures
            pixels@ == self.pixels(),
            pixels@.len() == self.width() * self.height(),
    {
        proof {
            use_type_invariant(self);
        }
        &self.pixels
    }

    /// The pixel at column `x`, row `y`.
    pub fn get_pixel(&self, x: u32, y: u32) -> (c: Color)
        requires
            x < self.width(),
            y < self.height(),
        ensures
            c == self@[y as int][x as int],
    {
        proof {
            use_type_invariant(self);
            lemma_pixel_index(x as int, y as int, self.width as int, self.height as int);
            assert(0 <= y * self.width) by (nonlinear_arith);
        }
        self.pixels[(y as usize) * (self.width as usize) + (x as usize)]
    }

    /// A valid raster's grid has the raster's width and height, and the
    /// raster has one pixel for each cell.
    pub proof fn lemma_shape(&self)
        requires
            self.wf(),
        ensures
            has_shape(self@, self.width() as nat, self.height() as nat),
            self.pixels().len() == self.width() * self.height(),
    {
    }
}

/// A pixel inside a `width` by `height` image has a row-major index inside
/// the image.
pub proof fn lemma_pixel_index(x: int, y: int, width: int, height: int)
    by (nonlinear_arith)
    requires
        0 <= x < width,
        0 <= y < height,
    ensures
        0 <= y * width + x < width * height,
{
}

} // verus!
