//! Reads the game state shown in a screenshot of one fixed screen layout: the
//! number of hearts, whether a bandage is drawn over them, and the turn number.
//!
//! A PNG file is decoded, and the image is checked for the size and the black
//! margin of a screenshot and cut down to the part without margin. The hearts
//! are read from a few fixed pixels. The two glyphs of the turn number are cut out by
//! their columns, brought to a grid of 16 by 16 cells, and each named as the
//! digit whose reference glyph is nearest.

pub mod color;
pub mod digit;
pub mod encode;
pub mod hearts;
pub mod imaging;
pub mod normalize;
pub mod pets_image;
pub mod raster;
pub mod reader;
pub mod screenshot;
pub mod segment;
pub mod sub_view;
pub mod templates;

pub use crate::color::{binarize, same_color, Color, BLACK, WHITE};
pub use crate::digit::{get_digit, get_digit_similarity, vector_distance};
pub use crate::encode::{
    checksum, classify, classify_hearts, encode_heart_data, encode_image_data,
    encode_turn_number, NOT_RECOGNIZED,
};
pub use crate::hearts::{handle_heart_check, HeartData, BRIGHT_RED, SOFT_RED};
pub use crate::normalize::{binarized_pixels, digit_vector, normalize_glyph};
pub use crate::pets_image::PetsImage;
pub use crate::raster::Raster;
pub use crate::reader::{
    decode, get_image_data, get_image_width, get_pets_img, read_image_data, ImageData,
};
pub use crate::screenshot::{
    is_black_column, probable_pets_image_check, ProbablyPetsImage, MARGIN_SIZE, SCREEN_HEIGHT,
    SCREEN_WIDTH,
};
pub use crate::segment::{extract_digit_clips, extract_digit_zone, has_white};
pub use crate::sub_view::SubView;
pub use crate::templates::{
    reference_vector, DigitVector, VEC_0, VEC_1, VEC_2, VEC_3, VEC_4, VEC_5, VEC_6, VEC_7, VEC_8,
    VEC_9,
};
