//! Packs what was read into one number, for a caller that can take numbers
//! only.

use crate::hearts::HeartData;
use crate::imaging::decoded_image;
use crate::raster::pixel_grid;
use crate::reader::{get_image_data, image_data, ImageData};
use vstd::prelude::*;

verus! {

/// Added to the number of hearts where the bandage is drawn.
pub const HAS_BANDAGE: i64 = 0b1000;

/// Added to the turn count where the turn number is 20 or more.
pub const OVER_20: i64 = 0b00001;

/// What is returned for bytes from which nothing was read.
pub const NOT_RECOGNIZED: i64 = -1;

/// The hearts in four bits: the number of hearts, and 8 more where the
/// bandage is drawn.
pub open spec fn packed_hearts(hearts: HeartData) -> int {
    hearts.num_hearts + if hearts.has_bandage {
        HAS_BANDAGE as int
    } else {
        0
    }
}

/// The turn number in five bits. The lowest bit is set where the turn number
/// is 20 or more; the four bits above it hold the turn number less 10, modulo
/// 16. Turn numbers that differ by a multiple of 16 on the same side of 20 are
/// packed alike.
pub open spec fn packed_turn(turn_number: u8) -> int {
    2 * ((turn_number - 10) % 16) + if turn_number >= 20 {
        OVER_20 as int
    } else {
        0
    }
}

/// Hearts and turn number in one number: the four low bits hold the hearts,
/// the five above them the turn number.
pub open spec fn packed(data: ImageData) -> int {
    packed_hearts(data.heart_data) + 16 * packed_turn(data.turn_number)
}

/// The sum of the first `n` of `bytes`.
pub open spec fn byte_sum_upto(bytes: Seq<u8>, n: nat) -> int
    decreases n,
{
    if n == 0 {
        0
    } else {
        byte_sum_upto(bytes, (n - 1) as nat) + bytes[n - 1]
    }
}

/// The sum of all of `bytes`.
pub open spec fn byte_sum(bytes: Seq<u8>) -> int {
    byte_sum_upto(bytes, bytes.len())
}

/// Turn numbers from 10 to 35 are told apart by what they are packed into.
pub proof fn lemma_packed_turn_is_distinct(a: u8, b: u8)
    requires
        10 <= a <= 35,
        10 <= b <= 35,
        packed_turn(a) == packed_turn(b),
    ensures
        a == b,
{
}

/// Hearts and turn number can both be taken out of the packed number again,
/// as its rest modulo 16 and what is above it.
pub proof fn lemma_packed_parts(data: ImageData)
    requires
        data.heart_data.wf(),
    ensures
        packed(data) % 16 == packed_hearts(data.heart_data),
        packed(data) / 16 == packed_turn(data.turn_number),
        0 < packed(data) < 512,
{
}

/// Packs the hearts into four bits.
pub fn encode_heart_data(hearts: &HeartData) -> (out: i64)
    requires
        hearts.wf(),
    ensures
        out == packed_hearts(*hearts),
        1 <= out <= 13,
{
    let mut out: i64 = hearts.num_hearts as i64;
    if hearts.has_bandage {
        out += HAS_BANDAGE;
    }
    out
}

/// Packs the turn number into five bits.
pub fn encode_turn_number(turn_number: u8) -> (out: i64)
    ensures
        out == packed_turn(turn_number),
        0 <= out <= 31,
{
    let decade: i64 = turn_number as i64 - 10;
    assert(((decade & 0b1111) << 1) == 2 * ((turn_number - 10) % 16)) by (bit_vector)
        requires
            decade == turn_number as i64 - 10,
    ;
    let mut turn_count: i64 = (decade & 0b1111) << 1;
    if turn_number >= 20 {
        turn_count += OVER_20;
    }
    turn_count
}

/// Packs hearts and turn number into one number. The number is above zero, so
/// it is never taken for the sign that nothing was read.
pub fn encode_image_data(data: &ImageData) -> (out: i64)
    requires
        data.heart_data.wf(),
    ensures
        out == packed(*data),
        0 < out < 512,
{
    let out: i64 = encode_heart_data(&data.heart_data);
    let turn_count: i64 = encode_turn_number(data.turn_number);
    assert(turn_count << 4 == 16 * turn_count) by (bit_vector)
        requires
            0 <= turn_count <= 31,
    ;
    out + (turn_count << 4)
}

/// Reads an encoded image and packs its hearts into one number, without the
/// turn number. Bytes that do not decode, and images in which the screenshot
/// or its hearts are not found, give -1.
pub fn classify_hearts(bytes: &[u8]) -> (out: i64)
    ensures
        match decoded_image(bytes@) {
            Some((width, height, pixels)) => match image_data(
                pixel_grid(width as nat, height as nat, pixels),
            ) {
                Some(data) => out == packed_hearts(data.heart_data),
                None => out == NOT_RECOGNIZED,
            },
            None => out == NOT_RECOGNIZED,
        },
        out == NOT_RECOGNIZED || 1 <= out <= 13,
{
    match get_image_data(bytes) {
        Ok(o) => encode_heart_data(&o.heart_data),
        Err(_) => NOT_RECOGNIZED,
    }
}

/// Reads an encoded image and packs what it shows into one number. Bytes that
/// do not decode, and images in which the screenshot or its hearts are not
/// found, give -1.
pub fn classify(bytes: &[u8]) -> (out: i64)
    ensures
        match decoded_image(bytes@) {
            Some((width, height, pixels)) => match image_data(
                pixel_grid(width as nat, height as nat, pixels),
            ) {
                Some(data) => out == packed(data),
                None => out == NOT_RECOGNIZED,
            },
            None => out == NOT_RECOGNIZED,
        },
        out == NOT_RECOGNIZED || 0 < out < 512,
{
    match get_image_data(bytes) {
        Ok(o) => encode_image_data(&o),
        Err(_) => NOT_RECOGNIZED,
    }
}

/// The sum of all bytes, modulo 2^32.
pub fn checksum(bytes: &[u8]) -> (out: u32)
    ensures
        out == byte_sum(bytes@) % 0x1_0000_0000,
{
    let mut out: u32 = 0;
    let mut i: usize = 0;
    while i < bytes.len()
        invariant
            i <= bytes@.len(),
            out == byte_sum_upto(bytes@, i as nat) % 0x1_0000_0000,
        decreases bytes@.len() - i,
    {
        out = out.wrapping_add(bytes[i] as u32);
        i += 1;
    }
    out
}

} // verus!
