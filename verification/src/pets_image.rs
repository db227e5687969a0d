//! A screenshot whose hearts were found, and what can be read from it.

use crate::color::Color;
use crate::digit::{get_digit, lemma_nearest_digit, nearest_digit};
use crate::hearts::{handle_heart_check, heart_data, HeartData};
use crate::normalize::{
    all_black_or_white, digit_vector, normalize_glyph, normalized_glyph, pixel_vector,
};
use crate::raster::{window, Grid, Raster};
use crate::screenshot::{ProbablyPetsImage, CONTENT_WIDTH, SCREEN_HEIGHT};
use crate::segment::{digit_clips, extract_digit_clips, lemma_digit_clips};
use crate::sub_view::SubView;
use crate::templates::{DigitVector, GRID_SIDE};
use vstd::prelude::*;

verus! {

/// Left edge of the zone of the turn number, in the screenshot without its
/// margin.
pub const TURN_VIEW_X: u32 = 1860;

/// Top edge of the zone of the turn number.
pub const TURN_VIEW_Y: u32 = 790;

/// Width of the zone of the turn number.
pub const TURN_VIEW_WIDTH: u32 = 66;

/// Height of the zone of the turn number.
pub const TURN_VIEW_HEIGHT: u32 = 49;

/// The zone of the turn number of a screenshot `g` without its margin.
pub open spec fn turn_zone(g: Grid) -> Grid {
    window(
        g,
        TURN_VIEW_X as int,
        TURN_VIEW_Y as int,
        TURN_VIEW_WIDTH as nat,
        TURN_VIEW_HEIGHT as nat,
    )
}

/// The glyph of a zone that fills the columns from `columns.0` up to, not
/// including, `columns.1`.
pub open spec fn zone_glyph(zone: Grid, columns: (int, int)) -> Grid {
    window(zone, columns.0, 0, (columns.1 - columns.0) as nat, TURN_VIEW_HEIGHT as nat)
}

/// The pixels of the glyph of a zone that fills the given columns, after the
/// glyph was reduced to black and white and scaled to the grid.
pub open spec fn zone_pixels(zone: Grid, columns: (int, int)) -> Seq<Color> {
    normalized_glyph(zone_glyph(zone, columns), (columns.1 - columns.0) as u32, TURN_VIEW_HEIGHT)
}

/// The pixels of the two glyphs of the turn number of a screenshot `g`
/// without its margin, each scaled to the grid; `None` where two glyphs are
/// not found.
pub open spec fn digit_pixels(g: Grid) -> Option<(Seq<Color>, Seq<Color>)> {
    let zone = turn_zone(g);
    match digit_clips(zone, TURN_VIEW_WIDTH as int) {
        Some((left, right)) => Some((zone_pixels(zone, left), zone_pixels(zone, right))),
        None => None,
    }
}

/// The vectors of the two glyphs of the turn number of a screenshot `g`
/// without its margin, `None` where two glyphs are not found.
pub open spec fn digit_vectors(g: Grid) -> Option<(Seq<u8>, Seq<u8>)> {
    match digit_pixels(g) {
        Some((left, right)) => Some((pixel_vector(left), pixel_vector(right))),
        None => None,
    }
}

/// The turn number of a screenshot `g` without its margin: the digit of the
/// left glyph counts tenfold. It is 0 where two glyphs are not found.
pub open spec fn turn_number(g: Grid) -> int {
    match digit_vectors(g) {
        Some((left, right)) => 10 * nearest_digit(left) + nearest_digit(right),
        None => 0,
    }
}

/// The turn number has at most two digits.
pub proof fn lemma_turn_number_range(g: Grid)
    ensures
        0 <= turn_number(g) <= 99,
{
    if let Some((left, right)) = digit_vectors(g) {
        lemma_nearest_digit(left);
        lemma_nearest_digit(right);
    }
}

/// A screenshot without its margin, with the hearts that were read from it.
pub struct PetsImage<'a> {
    pub view: SubView<'a>,
    pub heart_data: HeartData,
}

impl<'a> PetsImage<'a> {
    /// The view is a screenshot without its margin, and the hearts are those
    /// that the view shows.
    pub open spec fn wf(&self) -> bool {
        &&& self.view.wf()
        &&& self.view.width() == CONTENT_WIDTH
        &&& self.view.height() == SCREEN_HEIGHT
        &&& heart_data(self.view@) == Some(self.heart_data)
    }

    /// Reads the hearts of the screenshot, and keeps the screenshot where they
    /// are found.
    pub fn new(probpets: &'a ProbablyPetsImage<'a>) -> (r: Option<Self>)
        requires
            probpets.wf(),
        ensures
            match heart_data(probpets.view@) {
                Some(hearts) => {
                    &&& r matches Some(pets)
                    &&& pets.wf()
                    &&& pets.view == probpets.view
                    &&& pets.heart_data == hearts
                    &&& hearts.wf()
                },
                None => r is None,
            },
    {
        match handle_heart_check(probpets) {
            Some(heart_data) => Some(Self { view: probpets.view, heart_data }),
            None => None,
        }
    }

    /// The part of the screenshot given as left edge, top edge, width and
    /// height.
    pub fn get_sub_view(&self, view: (u32, u32, u32, u32)) -> (v: SubView<'a>)
        requires
            view.0 + view.2 <= self.view.width(),
            view.1 + view.3 <= self.view.height(),
        ensures
            v.wf(),
            v.raster() == self.view.raster(),
            v.x() == self.view.x() + view.0,
            v.y() == self.view.y() + view.1,
            v.width() == view.2,
            v.height() == view.3,
            v@ == window(self.view@, view.0 as int, view.1 as int, view.2 as nat, view.3 as nat),
    {
        self.view.sub_view(view.0, view.1, view.2, view.3)
    }

    /// The zone of the turn number.
    pub fn get_turn_number_view(&self) -> (v: SubView<'a>)
        requires
            self.wf(),
        ensures
            v.wf(),
            v.raster() == self.view.raster(),
            v.x() == self.view.x() + TURN_VIEW_X,
            v.y() == self.view.y() + TURN_VIEW_Y,
            v.width() == TURN_VIEW_WIDTH,
            v.height() == TURN_VIEW_HEIGHT,
            v@ == turn_zone(self.view@),
    {
        self.get_sub_view((TURN_VIEW_X, TURN_VIEW_Y, TURN_VIEW_WIDTH, TURN_VIEW_HEIGHT))
    }

    /// The two glyphs of the turn number, each in black and white and scaled
    /// to the grid. No pixel of either has another color than black or white.
    pub fn get_digits(&self) -> (r: Option<(Raster, Raster)>)
        requires
            self.wf(),
        ensures
            match digit_pixels(self.view@) {
                Some((left, right)) => {
                    &&& r matches Some((first, second))
                    &&& first.wf()
                    &&& second.wf()
                    &&& first.width() == GRID_SIDE
                    &&& first.height() == GRID_SIDE
                    &&& second.width() == GRID_SIDE
                    &&& second.height() == GRID_SIDE
                    &&& first.pixels() == left
                    &&& second.pixels() == right
                    &&& all_black_or_white(first.pixels())
                    &&& all_black_or_white(second.pixels())
                },
                None => r is None,
            },
    {
        let view = self.get_turn_number_view();
        match extract_digit_clips(&view) {
            Some((left, right)) => {
                proof {
                    lemma_digit_clips(view@, view.width() as int);
                }
                let first_digit = normalize_glyph(&left);
                let second_digit = normalize_glyph(&right);
                Some((first_digit, second_digit))
            },
            None => None,
        }
    }

    /// The vectors of two glyphs that were scaled to the grid.
    pub fn get_digits_vectors_from_two_dyn_images(images: (Raster, Raster)) -> (r: (
        DigitVector,
        DigitVector,
    ))
        ensures
            r.0@ == pixel_vector(images.0.pixels()),
            r.1@ == pixel_vector(images.1.pixels()),
    {
        let (left, right) = images;
        let first_digit_vector = digit_vector(&left);
        let second_digit_vector = digit_vector(&right);
        (first_digit_vector, second_digit_vector)
    }

    /// The vectors of the two glyphs of the turn number.
    pub fn get_digits_vectors(&self) -> (r: Option<(DigitVector, DigitVector)>)
        requires
            self.wf(),
        ensures
            match digit_vectors(self.view@) {
                Some((left, right)) => r matches Some((first, second)) && first@ == left
                    && second@ == right,
                None => r is None,
            },
    {
        match self.get_digits() {
            Some((left, right)) => Some(Self::get_digits_vectors_from_two_dyn_images((left, right))),
            None => None,
        }
    }

    /// The turn number, 0 where two glyphs are not found.
    pub fn get_turn_number(&self) -> (n: u8)
        requires
            self.wf(),
        ensures
            n == turn_number(self.view@),
            n <= 99,
    {
        let (left, right) = match self.get_digits_vectors() {
            Some(x) => x,
            None => return 0,
        };
        let base = get_digit(&left);
        let second_digit = get_digit(&right);
        return base * 10 + second_digit;
    }
}

} // verus!
