//! Reads the strip of hearts: which red the game draws them in, how many are
//! filled, and whether the bandage is drawn over the first.

use crate::color::{same_color, Color};
use crate::raster::{window, Grid};
use crate::screenshot::ProbablyPetsImage;
use vstd::prelude::*;

verus! {

/// Left edge of the strip of hearts, in the screenshot without its margin.
pub const HEART_VIEW_X: u32 = 690;

/// Top edge of the strip of hearts.
pub const HEART_VIEW_Y: u32 = 892;

/// Width of the strip of hearts.
pub const HEART_VIEW_WIDTH: u32 = 885;

/// Height of the strip of hearts.
pub const HEART_VIEW_HEIGHT: u32 = 133;

/// Column and row, in the strip, of a pixel that is red in the first heart.
pub const FIRST_HEART_PIXEL: u32 = 34;

/// Distance between the same pixel of two neighbouring hearts.
pub const HEART_DISTANCE: u32 = 184;

/// Column, in the strip, of a pixel that the bandage covers.
pub const HEART_BANDAGE_X: u32 = 75;

/// Row, in the strip, of a pixel that the bandage covers.
pub const HEART_BANDAGE_Y: u32 = 60;

/// The largest number of hearts.
pub const MAX_HEARTS: usize = 5;

/// The red of the hearts in one version of the game.
pub const BRIGHT_RED: Color = [253, 6, 6, 255];

/// The red of the hearts in the other version.
pub const SOFT_RED: Color = [232, 52, 37, 255];

/// What the strip of hearts shows.
#[derive(Clone, Copy, Debug, PartialEq, Eq)]
pub struct HeartData {
    pub valid_red_color: [u8; 4],
    pub num_hearts: usize,
    pub has_bandage: bool,
}

impl HeartData {
    /// The red is one of the two that the game uses, and there are between one
    /// and five hearts.
    pub open spec fn wf(&self) -> bool {
        &&& self.valid_red_color == BRIGHT_RED || self.valid_red_color == SOFT_RED
        &&& 1 <= self.num_hearts <= MAX_HEARTS
    }
}

/// The strip of hearts of a screenshot `g` without its margin.
pub open spec fn heart_strip(g: Grid) -> Grid {
    window(
        g,
        HEART_VIEW_X as int,
        HEART_VIEW_Y as int,
        HEART_VIEW_WIDTH as nat,
        HEART_VIEW_HEIGHT as nat,
    )
}

/// The red that the first heart of the strip is drawn in, `None` where its
/// pixel has neither red.
pub open spec fn heart_red(strip: Grid) -> Option<Color> {
    let c = strip[FIRST_HEART_PIXEL as int][FIRST_HEART_PIXEL as int];
    if c == BRIGHT_RED {
        Some(BRIGHT_RED)
    } else if c == SOFT_RED {
        Some(SOFT_RED)
    } else {
        None
    }
}

/// Whether the heart number `i` of the strip, counted from 0, is filled with `red`.
pub open spec fn heart_is_filled(strip: Grid, red: Color, i: int) -> bool {
    strip[FIRST_HEART_PIXEL as int][FIRST_HEART_PIXEL + HEART_DISTANCE * i] == red
}

/// How many of the hearts number 1 to `n` are filled with `red`.
pub open spec fn filled_hearts(strip: Grid, red: Color, n: nat) -> nat
    decreases n,
{
    if n == 0 {
        0
    } else {
        filled_hearts(strip, red, (n - 1) as nat) + if heart_is_filled(strip, red, n as int) {
            1nat
        } else {
            0nat
        }
    }
}

/// Whether the bandage is drawn: the pixel that it covers is not `red`.
pub open spec fn bandage_is_drawn(strip: Grid, red: Color) -> bool {
    strip[HEART_BANDAGE_Y as int][HEART_BANDAGE_X as int] != red
}

/// What the hearts of a screenshot `g` without its margin say, `None` where
/// the first heart is not found. The first heart counts as filled; each of
/// the four to its right counts where its pixel has the red of the first.
pub open spec fn heart_data(g: Grid) -> Option<HeartData> {
    let strip = heart_strip(g);
    match heart_red(strip) {
        Some(red) => Some(
            HeartData {
                valid_red_color: red,
                num_hearts: (1 + filled_hearts(strip, red, (MAX_HEARTS - 1) as nat)) as usize,
                has_bandage: bandage_is_drawn(strip, red),
            },
        ),
        None => None,
    }
}

/// Of `n` hearts at most `n` are filled.
pub proof fn lemma_filled_hearts_bound(strip: Grid, red: Color, n: nat)
    ensures
        filled_hearts(strip, red, n) <= n,
    decreases n,
{
    if n > 0 {
        lemma_filled_hearts_bound(strip, red, (n - 1) as nat);
    }
}

/// Whatever the image holds, hearts that are found are between one and five,
/// in one of the two reds.
pub proof fn lemma_heart_data_wf(g: Grid)
    ensures
        heart_data(g) matches Some(h) ==> h.wf(),
{
    let strip = heart_strip(g);
    if let Some(red) = heart_red(strip) {
        lemma_filled_hearts_bound(strip, red, (MAX_HEARTS - 1) as nat);
    }
}

/// Reads the hearts of a screenshot.
pub fn handle_heart_check<'a>(img: &'a ProbablyPetsImage<'a>) -> (r: Option<HeartData>)
    requires
        img.wf(),
    ensures
        r == heart_data(img.view@),
        r matches Some(h) ==> h.wf(),
{
    let heart_view = img.view.sub_view(
        HEART_VIEW_X,
        HEART_VIEW_Y,
        HEART_VIEW_WIDTH,
        HEART_VIEW_HEIGHT,
    );
    let pixel1 = heart_view.get_pixel(FIRST_HEART_PIXEL, FIRST_HEART_PIXEL);
    let valid_red_color: Color = if same_color(&pixel1, &BRIGHT_RED) {
        BRIGHT_RED
    } else if same_color(&pixel1, &SOFT_RED) {
        SOFT_RED
    } else {
        return None;
    };
    let pixel_bandage = heart_view.get_pixel(HEART_BANDAGE_X, HEART_BANDAGE_Y);
    let has_bandage: bool = !same_color(&pixel_bandage, &valid_red_color);
    let mut num_hearts: usize = 1;
    let mut i: u32 = 1;
    while (i as usize) < MAX_HEARTS
        invariant
            1 <= i <= MAX_HEARTS,
            heart_view.width() == HEART_VIEW_WIDTH,
            heart_view.height() == HEART_VIEW_HEIGHT,
            num_hearts == 1 + filled_hearts(heart_view@, valid_red_color, (i - 1) as nat),
            num_hearts <= i,
        decreases MAX_HEARTS - i,
    {
        let heart_pixel_x: u32 = FIRST_HEART_PIXEL + HEART_DISTANCE * i;
        let pixel_next = heart_view.get_pixel(heart_pixel_x, FIRST_HEART_PIXEL);
        if same_color(&pixel_next, &valid_red_color) {
            num_hearts += 1;
        }
        i += 1;
    }
    Some(HeartData { valid_red_color, num_hearts, has_bandage })
}

} // verus!
