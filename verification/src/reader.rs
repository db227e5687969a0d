//! From the bytes of an encoded image to what the screenshot in it shows.

use crate::color::{BLACK, WHITE};
use crate::hearts::{heart_data, HeartData};
use crate::imaging::{decoded_image, error_text, load_pixels};
use crate::pets_image::{turn_number, PetsImage};
use crate::raster::{has_shape, pixel_grid, window, Grid, Raster};
use crate::screenshot::{
    margin_side, probable_pets_image_check, CONTENT_WIDTH, MARGIN_SIZE, SCREEN_HEIGHT,
    SCREEN_WIDTH,
};
use vstd::prelude::*;

verus! {

/// What a screenshot shows.
#[derive(Clone, Copy, Debug, PartialEq, Eq)]
pub struct ImageData {
    pub heart_data: HeartData,
    pub turn_number: u8,
}

impl ImageData {
    /// The hearts are valid, and the turn number has two digits.
    pub open spec fn wf(&self) -> bool {
        &&& self.heart_data.wf()
        &&& self.turn_number <= 99
    }
}

/// A screenshot `g` without its margin, which is on the left or on the right.
pub open spec fn content_grid(g: Grid, margin_is_on_left: bool) -> Grid {
    window(
        g,
        if margin_is_on_left {
            MARGIN_SIZE as int
        } else {
            0
        },
        0,
        CONTENT_WIDTH as nat,
        SCREEN_HEIGHT as nat,
    )
}

/// The part without margin of the image `g` and the hearts that it shows,
/// `None` where `g` is no screenshot or the first heart is not found.
pub open spec fn pets_content(g: Grid) -> Option<(Grid, HeartData)> {
    match margin_side(g) {
        Some(margin_is_on_left) => {
            let content = content_grid(g, margin_is_on_left);
            match heart_data(content) {
                Some(hearts) => Some((content, hearts)),
                None => None,
            }
        },
        None => None,
    }
}

/// What the image `g` shows, `None` where `g` is no screenshot or the first
/// heart is not found.
pub open spec fn image_data(g: Grid) -> Option<ImageData> {
    match pets_content(g) {
        Some((content, hearts)) => Some(
            ImageData { heart_data: hearts, turn_number: turn_number(content) as u8 },
        ),
        None => None,
    }
}

/// An image that is white all over shows nothing, whatever its size: it has
/// no black column.
pub proof fn lemma_white_image_shows_nothing(g: Grid)
    requires
        forall|y: int, x: int| 0 <= y < g.len() && 0 <= x < g[y].len() ==> g[y][x] == WHITE,
    ensures
        image_data(g) is None,
{
    if has_shape(g, SCREEN_WIDTH as nat, SCREEN_HEIGHT as nat) {
        assert(g[0][MARGIN_SIZE as int] == WHITE);
        assert(g[0][SCREEN_WIDTH - MARGIN_SIZE] == WHITE);
        assert(WHITE[0] != BLACK[0]);
    }
}

/// The text of the error for an image that is no screenshot of the game.
pub open spec fn not_a_pets_img() -> Seq<char> {
    "not a pets img"@
}

/// Decodes an image from the bytes of a PNG file. The error is the
/// decoder's, as text.
pub fn decode(bytes: &[u8]) -> (r: Result<Raster, String>)
    ensures
        match decoded_image(bytes@) {
            Some((width, height, pixels)) => {
                &&& r matches Ok(img)
                &&& img.wf()
                &&& img.width() == width
                &&& img.height() == height
                &&& img.pixels() == pixels
            },
            None => r is Err,
        },
{
    match load_pixels(bytes) {
        Ok((width, height, pixels)) => Ok(Raster::new(width, height, pixels)),
        Err(e) => Err(error_text(&e)),
    }
}

/// Reads what a decoded image shows.
pub fn read_image_data(img: &Raster) -> (r: Option<ImageData>)
    ensures
        r == image_data(img@),
        r matches Some(data) ==> data.wf(),
{
    match probable_pets_image_check(img) {
        Some(probable_pets_img) => {
            match PetsImage::new(&probable_pets_img) {
                Some(pets_img) => {
                    let turn_number = pets_img.get_turn_number();
                    Some(ImageData { heart_data: pets_img.heart_data, turn_number })
                },
                None => None,
            }
        },
        None => None,
    }
}

/// The width of an encoded image.
pub fn get_image_width(bytes: &[u8]) -> (r: Result<u32, String>)
    ensures
        match decoded_image(bytes@) {
            Some((width, height, pixels)) => r == Ok::<u32, String>(width),
            None => r is Err,
        },
{
    match decode(bytes) {
        Ok(img) => Ok(img.width()),
        Err(e) => Err(e),
    }
}

/// Reads what an encoded image shows. Bytes that do not decode give the
/// decoder's error; an image that is no screenshot of the game, or in which
/// the first heart is not found, gives the error "not a pets img".
pub fn get_image_data(bytes: &[u8]) -> (r: Result<ImageData, String>)
    ensures
        match decoded_image(bytes@) {
            Some((width, height, pixels)) => match image_data(
                pixel_grid(width as nat, height as nat, pixels),
            ) {
                Some(data) => r == Ok::<ImageData, String>(data) && data.wf(),
                None => r matches Err(e) && e@ == not_a_pets_img(),
            },
            None => r is Err,
        },
{
    let img = match decode(bytes) {
        Ok(img) => img,
        Err(e) => return Err(e),
    };
    match read_image_data(&img) {
        Some(data) => Ok(data),
        None => Err("not a pets img".to_owned()),
    }
}

/// Decodes an image, and hands the screenshot in it to `cb`: the decoded
/// image without its margin, with its hearts. The errors are those of
/// `get_image_data`.
pub fn get_pets_img<T, F: FnOnce(PetsImage) -> T>(bytes: &[u8], cb: F) -> (r: Result<T, String>)
    requires
        forall|pets: PetsImage| pets.wf() ==> cb.requires((pets,)),
    ensures
        match decoded_image(bytes@) {
            Some((width, height, pixels)) => match pets_content(
                pixel_grid(width as nat, height as nat, pixels),
            ) {
                Some((content, hearts)) => {
                    &&& r matches Ok(t)
                    &&& exists|pets: PetsImage|
                        {
                            &&& pets.wf()
                            &&& pets.view.raster().width() == width
                            &&& pets.view.raster().height() == height
                            &&& pets.view.raster().pixels() == pixels
                            &&& margin_side(pets.view.raster()@) == Some(
                                pets.view.x() == MARGIN_SIZE,
                            )
                            &&& pets.view.y() == 0
                            &&& pets.view@ == content
                            &&& pets.heart_data == hearts
                            &&& cb.ensures((pets,), t)
                        }
                },
                None => r matches Err(e) && e@ == not_a_pets_img(),
            },
            None => r is Err,
        },
{
    let img = match decode(bytes) {
        Ok(img) => img,
        Err(e) => return Err(e),
    };
    let probable_pets_img = match probable_pets_image_check(&img) {
        Some(p) => p,
        None => return Err("not a pets img".to_owned()),
    };
    let pets_img = match PetsImage::new(&probable_pets_img) {
        Some(p) => p,
        None => return Err("not a pets img".to_owned()),
    };
    let ghost pets = pets_img;
    let t = cb(pets_img);
    assert(pets.wf() && pets.view == probable_pets_img.view && cb.ensures((pets,), t));
    Ok(t)
}

} // verus!
