//! Cuts the two glyphs of the turn number out of their zone. A glyph is a run
//! of neighbouring columns that each hold at least one white pixel; every
//! other color counts as background.

use crate::color::{same_color, WHITE};
use crate::raster::{window, Grid};
use crate::sub_view::SubView;
use vstd::prelude::*;

verus! {

/// Whether column `x` of `g` holds a white pixel.
pub open spec fn column_has_white(g: Grid, x: int) -> bool {
    exists|y: int| 0 <= y < g.len() && (#[trigger] g[y])[x] == WHITE
}

/// The first column at or after `from`, and left of `width`, that holds a
/// white pixel (`white` set) or holds none (`white` clear). Where there is no
/// such column the result is not left of `width`.
pub open spec fn next_column(g: Grid, width: int, from: int, white: bool) -> int
    decreases width - from,
{
    if from >= width {
        from
    } else if column_has_white(g, from) == white {
        from
    } else {
        next_column(g, width, from + 1, white)
    }
}

/// The columns `[start, end)` of the first glyph at or after column `from`:
/// `start` is the first column with a white pixel, `end` the first column after
/// it without one. `None` where either is missing left of `width`.
pub open spec fn digit_zone(g: Grid, width: int, from: int) -> Option<(int, int)> {
    let start = next_column(g, width, from, true);
    let end = next_column(g, width, start, false);
    if start < width && end < width {
        Some((start, end))
    } else {
        None
    }
}

/// The column ranges of the two glyphs in a zone, the second searched from
/// the end of the first.
pub open spec fn digit_clips(g: Grid, width: int) -> Option<((int, int), (int, int))> {
    match digit_zone(g, width, 0) {
        Some(left) => match digit_zone(g, width, left.1) {
            Some(right) => Some((left, right)),
            None => None,
        },
        None => None,
    }
}

/// `next_column` finds the first column of its kind: it is not left of
/// `from`, every column between `from` and it is of the other kind, and where
/// it lies left of `width` it is of the kind asked for.
pub proof fn lemma_next_column(g: Grid, width: int, from: int, white: bool)
    ensures
        from <= next_column(g, width, from, white),
        from <= width ==> next_column(g, width, from, white) <= width,
        next_column(g, width, from, white) < width ==> column_has_white(
            g,
            next_column(g, width, from, white),
        ) == white,
        forall|x: int|
            from <= x < next_column(g, width, from, white) ==> column_has_white(g, x) != white,
    decreases width - from,
{
    if from < width && column_has_white(g, from) != white {
        lemma_next_column(g, width, from + 1, white);
    }
}

/// Where a glyph is found it is not empty, it lies inside the zone, and the
/// column after it is inside the zone too.
pub proof fn lemma_digit_zone(g: Grid, width: int, from: int)
    ensures
        digit_zone(g, width, from) matches Some((start, end)) ==> from <= start < end < width,
{
    lemma_next_column(g, width, from, true);
    lemma_next_column(g, width, next_column(g, width, from, true), false);
}

/// A glyph that is found starts at the first column, at or after `from`, that
/// holds a white pixel; each of its columns holds one; and the column at its
/// end holds none.
pub proof fn lemma_digit_zone_columns(g: Grid, width: int, from: int)
    ensures
        digit_zone(g, width, from) matches Some((start, end)) ==> {
            &&& forall|x: int| from <= x < start ==> !column_has_white(g, x)
            &&& forall|x: int| start <= x < end ==> column_has_white(g, x)
            &&& !column_has_white(g, end)
        },
{
    lemma_next_column(g, width, from, true);
    lemma_next_column(g, width, next_column(g, width, from, true), false);
}

/// Where two glyphs are found, each is not empty, the second does not start
/// before the first ends, and both lie inside the zone.
pub proof fn lemma_digit_clips(g: Grid, width: int)
    ensures
        digit_clips(g, width) matches Some((left, right)) ==> 0 <= left.0 < left.1 <= right.0
            < right.1 < width,
{
    lemma_digit_zone(g, width, 0);
    if let Some(left) = digit_zone(g, width, 0) {
        lemma_digit_zone(g, width, left.1);
    }
}

/// Whether column `x` of the window holds a white pixel.
pub fn has_white(view: &SubView, x: u32) -> (found: bool)
    requires
        x < view.width(),
    ensures
        found == column_has_white(view@, x as int),
{
    let height: u32 = view.height();
    let mut y: u32 = 0;
    while y < height
        invariant
            y <= height,
            height == view.height(),
            x < view.width(),
            forall|j: int| 0 <= j < y ==> (#[trigger] view@[j])[x as int] != WHITE,
        decreases height - y,
    {
        let c = view.get_pixel(x, y);
        if same_color(&c, &WHITE) {
            return true;
        }
        y += 1;
    }
    false
}

/// The first column at or after `from` that is of the kind asked for, or a
/// column not left of the window's width where there is none.
fn find_column(view: &SubView, from: u32, white: bool) -> (x: u32)
    ensures
        x == next_column(view@, view.width() as int, from as int, white),
{
    let width: u32 = view.width();
    let mut x: u32 = from;
    while x < width
        invariant
            from <= x,
            width == view.width(),
            next_column(view@, width as int, from as int, white) == next_column(
                view@,
                width as int,
                x as int,
                white,
            ),
        decreases width - x,
    {
        if has_white(view, x) == white {
            return x;
        }
        x += 1;
    }
    x
}

/// Finds the first glyph at or after column `start_x` of the zone. Returns
/// the column just after the glyph and the glyph itself, at the zone's full
/// height.
pub fn extract_digit_zone<'a>(view: &SubView<'a>, start_x: u32) -> (r: Option<(u32, SubView<'a>)>)
    ensures
        match digit_zone(view@, view.width() as int, start_x as int) {
            Some((start, end)) => {
                &&& r matches Some((digit_end, glyph))
                &&& digit_end == end
                &&& glyph.wf()
                &&& glyph.raster() == view.raster()
                &&& glyph.x() == view.x() + start
                &&& glyph.y() == view.y()
                &&& glyph.width() == end - start
                &&& glyph.height() == view.height()
                &&& glyph@ == window(
                    view@,
                    start,
                    0,
                    (end - start) as nat,
                    view.height() as nat,
                )
            },
            None => r is None,
        },
{
    let width: u32 = view.width();
    let digit_start: u32 = find_column(view, start_x, true);
    if digit_start >= width {
        return None;
    }
    let digit_end: u32 = find_column(view, digit_start, false);
    if digit_end >= width {
        return None;
    }
    proof {
        lemma_digit_zone(view@, width as int, start_x as int);
    }
    let glyph = view.sub_view(digit_start, 0, digit_end - digit_start, view.height());
    Some((digit_end, glyph))
}

/// Cuts out both glyphs of the zone, the left one first. The second is
/// searched from the column at which the first ends.
pub fn extract_digit_clips<'a>(view: &SubView<'a>) -> (r: Option<(SubView<'a>, SubView<'a>)>)
    ensures
        match digit_clips(view@, view.width() as int) {
            Some((left, right)) => {
                &&& r matches Some((first, second))
                &&& first.wf()
                &&& second.wf()
                &&& first.raster() == view.raster()
                &&& second.raster() == view.raster()
                &&& first.x() == view.x() + left.0
                &&& second.x() == view.x() + right.0
                &&& first.y() == view.y()
                &&& second.y() == view.y()
                &&& first@ == window(
                    view@,
                    left.0,
                    0,
                    (left.1 - left.0) as nat,
                    view.height() as nat,
                )
                &&& second@ == window(
                    view@,
                    right.0,
                    0,
                    (right.1 - right.0) as nat,
                    view.height() as nat,
                )
                &&& first.width() == left.1 - left.0
                &&& second.width() == right.1 - right.0
                &&& first.height() == view.height()
                &&& second.height() == view.height()
            },
            None => r is None,
        },
{
    match extract_digit_zone(view, 0) {
        Some((next_digit_start_x, first_digit_view)) => {
            match extract_digit_zone(view, next_digit_start_x) {
                Some((_, second_digit_view)) => Some((first_digit_view, second_digit_view)),
                None => None,
            }
        },
        None => None,
    }
}

} // verus!
