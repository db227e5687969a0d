//! Tells a screenshot of the game from any other image: it has one exact size
//! and a black margin on one side.

use crate::color::{same_color, BLACK};
use crate::raster::{has_shape, Grid, Raster};
use crate::sub_view::SubView;
use vstd::prelude::*;

verus! {

/// Width of a screenshot.
pub const SCREEN_WIDTH: u32 = 2400;

/// Height of a screenshot.
pub const SCREEN_HEIGHT: u32 = 1080;

/// Width of the black margin. The column at this distance from the left edge,
/// or the one at this distance from the right edge, is black from top to bottom.
pub const MARGIN_SIZE: u32 = 131;

/// Width of a screenshot without its margin.
pub const CONTENT_WIDTH: u32 = SCREEN_WIDTH - MARGIN_SIZE;

/// Whether every pixel of column `x` of `g` is black.
pub open spec fn column_is_black(g: Grid, x: int) -> bool {
    forall|y: int| 0 <= y < g.len() ==> (#[trigger] g[y])[x] == BLACK
}

/// On which side the margin of `g` is: `Some(true)` on the left, `Some(false)`
/// on the right, `None` where `g` is no screenshot. The left side is looked at
/// first.
pub open spec fn margin_side(g: Grid) -> Option<bool> {
    if !has_shape(g, SCREEN_WIDTH as nat, SCREEN_HEIGHT as nat) {
        None
    } else if column_is_black(g, MARGIN_SIZE as int) {
        Some(true)
    } else if column_is_black(g, SCREEN_WIDTH - MARGIN_SIZE) {
        Some(false)
    } else {
        None
    }
}

/// An image that has the size and the margin of a screenshot, with the part
/// of it that is not margin.
pub struct ProbablyPetsImage<'a> {
    pub margin_size: u32,
    /// Most screenshots have the margin on the left, a few on the right.
    pub margin_is_on_left: bool,
    pub view: SubView<'a>,
}

impl<'a> ProbablyPetsImage<'a> {
    /// The value is what the check of a screenshot gives: the raster is a
    /// screenshot with the margin on the side named, and the view is the
    /// raster without that margin.
    pub open spec fn wf(&self) -> bool {
        &&& self.margin_size == MARGIN_SIZE
        &&& self.view.wf()
        &&& margin_side(self.view.raster()@) == Some(self.margin_is_on_left)
        &&& self.view.x() == if self.margin_is_on_left {
            MARGIN_SIZE
        } else {
            0
        }
        &&& self.view.y() == 0
        &&& self.view.width() == CONTENT_WIDTH
        &&& self.view.height() == SCREEN_HEIGHT
    }
}

/// Whether every pixel of column `x` of the raster is black.
pub fn is_black_column(img: &Raster, x: u32) -> (black: bool)
    requires
        x < img.width(),
    ensures
        black == column_is_black(img@, x as int),
{
    let height: u32 = img.height();
    let mut y: u32 = 0;
    while y < height
        invariant
            y <= height,
            height == img.height(),
            x < img.width(),
            forall|j: int| 0 <= j < y ==> (#[trigger] img@[j])[x as int] == BLACK,
        decreases height - y,
    {
        let c = img.get_pixel(x, y);
        if !same_color(&c, &BLACK) {
            return false;
        }
        y += 1;
    }
    true
}

/// Checks that `img` is a screenshot and finds its margin. An image of any
/// other size is refused, and so is one that has a black column on neither
/// side.
pub fn probable_pets_image_check<'a>(img: &'a Raster) -> (r: Option<ProbablyPetsImage<'a>>)
    ensures
        match margin_side(img@) {
            Some(on_left) => {
                &&& r matches Some(p)
                &&& p.wf()
                &&& p.view.raster() == *img
                &&& p.margin_is_on_left == on_left
            },
            None => r is None,
        },
        img.width() != SCREEN_WIDTH || img.height() != SCREEN_HEIGHT ==> r is None,
        !column_is_black(img@, MARGIN_SIZE as int) && !column_is_black(
            img@,
            SCREEN_WIDTH - MARGIN_SIZE,
        ) ==> r is None,
{
    let margin_size: u32 = MARGIN_SIZE;
    let img_height: u32 = img.height();
    let img_width: u32 = img.width();
    if img_width != SCREEN_WIDTH || img_height != SCREEN_HEIGHT {
        assert(!has_shape(img@, SCREEN_WIDTH as nat, SCREEN_HEIGHT as nat)) by {
            if img_height == SCREEN_HEIGHT {
                assert(img@[0].len() == img_width);
            }
        }
        return None;
    }
    let margin_is_on_left: bool = is_black_column(img, margin_size);
    if !margin_is_on_left {
        if !is_black_column(img, img_width - margin_size) {
            return None;
        }
    }
    let whole = SubView::whole(img);
    let view = if margin_is_on_left {
        whole.sub_view(margin_size, 0, img_width - margin_size, img_height)
    } else {
        whole.sub_view(0, 0, img_width - margin_size, img_height)
    };
    Some(ProbablyPetsImage { margin_size, margin_is_on_left, view })
}

} // verus!
