//! A rectangular window onto a raster.

use crate::color::Color;
use crate::raster::{window, Grid, Raster};
use vstd::prelude::*;

verus! {

/// A rectangle inside a raster that it borrows. The rectangle never reaches
/// outside the raster, and no pixel is copied.
#[derive(Clone, Copy)]
pub struct SubView<'a> {
    raster: &'a Raster,
    x: u32,
    y: u32,
    width: u32,
    height: u32,
}

impl<'a> View for SubView<'a> {
    type V = Grid;

    /// The pixels inside the rectangle.
    open spec fn view(&self) -> Grid {
        window(
            self.raster()@,
            self.x() as int,
            self.y() as int,
            self.width() as nat,
            self.height() as nat,
        )
    }
}

impl<'a> SubView<'a> {
    #[verifier::type_invariant]
    pub closed spec fn wf(&self) -> bool {
        &&& self.raster.wf()
        &&& self.x + self.width <= self.raster.width()
        &&& self.y + self.height <= self.raster.height()
    }

    /// The raster that the window looks at.
    pub closed spec fn raster(&self) -> Raster {
        *self.raster
    }

    pub closed spec fn spec_x(&self) -> u32 {
        self.x
    }

    pub closed spec fn spec_y(&self) -> u32 {
        self.y
    }

    pub closed spec fn spec_width(&self) -> u32 {
        self.width
    }

    pub closed spec fn spec_height(&self) -> u32 {
        self.height
    }

    /// The window that covers all of `raster`.
    pub fn whole(raster: &'a Raster) -> (v: SubView<'a>)
        ensures
            v.wf(),
            v.raster() == *raster,
            v.x() == 0,
            v.y() == 0,
            v.width() == raster.width(),
            v.height() == raster.height(),
            v@ == raster@,
    {
        proof {
            use_type_invariant(raster);
        }
        let v = SubView { raster, x: 0, y: 0, width: raster.width(), height: raster.height() };
        assert(v@ =~~= raster@);
        v
    }

    /// The window of `width` by `height` pixels whose top left corner is at
    /// column `x`, row `y` of this one.
    pub fn sub_view(&self, x: u32, y: u32, width: u32, height: u32) -> (v: SubView<'a>)
        requires
            x + width <= self.width(),
            y + height <= self.height(),
        ensures
            v.wf(),
            v.raster() == self.raster(),
            v.x() == self.x() + x,
            v.y() == self.y() + y,
            v.width() == width,
            v.height() == height,
            v@ == window(self@, x as int, y as int, width as nat, height as nat),
    {
        proof {
            use_type_invariant(self);
        }
        let v = SubView { raster: self.raster, x: self.x + x, y: self.y + y, width, height };
        assert(v@ =~~= window(self@, x as int, y as int, width as nat, height as nat));
        v
    }

    /// Column of the left edge, counted in the raster.
    #[verifier::when_used_as_spec(spec_x)]
    pub fn x(&self) -> (x: u32)
        ensures
            x == self.x(),
    {
        self.x
    }

    /// Row of the top edge, counted in the raster.
    #[verifier::when_used_as_spec(spec_y)]
    pub fn y(&self) -> (y: u32)
        ensures
            y == self.y(),
    {
        self.y
    }

    #[verifier::when_used_as_spec(spec_width)]
    pub fn width(&self) -> (w: u32)
        ensures
            w == self.width(),
    {
        self.width
    }

    #[verifier::when_used_as_spec(spec_height)]
    pub fn height(&self) -> (h: u32)
        ensures
            h == self.height(),
    {
        self.height
    }

    /// The pixel at column `x`, row `y` of the window.
    pub fn get_pixel(&self, x: u32, y: u32) -> (c: Color)
        requires
            x < self.width(),
            y < self.height(),
        ensures
            c == self@[y as int][x as int],
    {
        proof {
            use_type_invariant(self);
        }
        self.raster.get_pixel(self.x + x, self.y + y)
    }

    /// A valid window lies inside its raster, and its grid has the window's
    /// width and height.
    pub proof fn lemma_inside(&self)
        requires
            self.wf(),
        ensures
            self.raster().wf(),
            self.x() + self.width() <= self.raster().width(),
            self.y() + self.height() <= self.raster().height(),
            crate::raster::has_shape(self@, self.width() as nat, self.height() as nat),
    {
    }
}

} // verus!
