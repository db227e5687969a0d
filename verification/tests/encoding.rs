use pets_screenshot::{
    checksum, classify, classify_hearts, encode_heart_data, encode_image_data,
    encode_turn_number, HeartData, ImageData, BRIGHT_RED, NOT_RECOGNIZED, SOFT_RED,
};

fn hearts(num_hearts: usize, has_bandage: bool) -> HeartData {
    HeartData { valid_red_color: SOFT_RED, num_hearts, has_bandage }
}

#[test]
fn hearts_take_the_low_bits() {
    for n in 1..=5 {
        assert_eq!(encode_heart_data(&hearts(n, false)), n as i64);
    }
}

#[test]
fn bandage_sets_the_fourth_bit() {
    for n in 1..=5 {
        assert_eq!(encode_heart_data(&hearts(n, true)), n as i64 + 8);
    }
    assert_eq!(encode_heart_data(&hearts(5, true)), 0b1101);
}

#[test]
fn the_red_does_not_change_the_number() {
    let soft = HeartData { valid_red_color: SOFT_RED, num_hearts: 4, has_bandage: true };
    let bright = HeartData { valid_red_color: BRIGHT_RED, num_hearts: 4, has_bandage: true };
    assert_eq!(encode_heart_data(&soft), encode_heart_data(&bright));
}

#[test]
fn turn_number_below_twenty() {
    // Lowest bit clear, the four bits above hold the turn number less 10.
    assert_eq!(encode_turn_number(10), 0b00000);
    assert_eq!(encode_turn_number(11), 0b00010);
    assert_eq!(encode_turn_number(18), 0b10000);
    assert_eq!(encode_turn_number(19), 0b10010);
}

#[test]
fn turn_number_from_twenty_on() {
    assert_eq!(encode_turn_number(20), 0b10101);
    assert_eq!(encode_turn_number(21), 0b10111);
    assert_eq!(encode_turn_number(25), 0b11111);
    assert_eq!(encode_turn_number(26), 0b00001);
    assert_eq!(encode_turn_number(31), 0b01011);
}

#[test]
fn turn_number_below_ten_wraps() {
    // 0 less 10 is 6 modulo 16, 9 less 10 is 15.
    assert_eq!(encode_turn_number(0), 6 << 1);
    assert_eq!(encode_turn_number(5), 11 << 1);
    assert_eq!(encode_turn_number(9), 15 << 1);
}

#[test]
fn turn_numbers_sixteen_apart_are_packed_alike() {
    assert_eq!(encode_turn_number(20), encode_turn_number(36));
    assert_eq!(encode_turn_number(0), encode_turn_number(16));
    assert_eq!(encode_turn_number(99), encode_turn_number(83));
    assert_eq!(encode_turn_number(99), 1 + (((99 - 10) % 16) << 1));
    assert_eq!(encode_turn_number(255), 1 + (((255 - 10) % 16) << 1));
}

#[test]
fn turn_number_goes_above_the_hearts() {
    let data = ImageData { heart_data: hearts(3, false), turn_number: 18 };
    assert_eq!(encode_image_data(&data), 3 + (0b10000 << 4));
    let data = ImageData { heart_data: hearts(3, true), turn_number: 21 };
    assert_eq!(encode_image_data(&data), 11 + (23 << 4));
    let data = ImageData { heart_data: hearts(1, false), turn_number: 10 };
    assert_eq!(encode_image_data(&data), 1);
    let data = ImageData { heart_data: hearts(5, true), turn_number: 25 };
    assert_eq!(encode_image_data(&data), 0b1_1111_1101);
}

#[test]
fn a_packed_number_is_never_the_sign_of_failure() {
    for turn_number in 0..=255u8 {
        for n in 1..=5 {
            for has_bandage in [false, true] {
                let data = ImageData { heart_data: hearts(n, has_bandage), turn_number };
                let packed = encode_image_data(&data);
                assert!(packed > 0 && packed < 512);
                assert_ne!(packed, NOT_RECOGNIZED);
            }
        }
    }
}

#[test]
fn bytes_that_are_no_image_give_minus_one() {
    assert_eq!(NOT_RECOGNIZED, -1);
    assert_eq!(classify(&[]), -1);
    assert_eq!(classify(b"not an image at all"), -1);
    let mut noise: Vec<u8> = Vec::new();
    let mut state: u32 = 0x2545_f491;
    for _ in 0..4096 {
        state ^= state << 13;
        state ^= state >> 17;
        state ^= state << 5;
        noise.push((state >> 24) as u8);
    }
    assert_eq!(classify(&noise), -1);
    assert_eq!(classify_hearts(&noise), -1);
    // The first bytes of a PNG file and nothing behind them.
    assert_eq!(classify(&[0x89, b'P', b'N', b'G', 0x0d, 0x0a, 0x1a, 0x0a]), -1);
}

#[test]
fn checksum_adds_the_bytes() {
    assert_eq!(checksum(&[]), 0);
    assert_eq!(checksum(&[7]), 7);
    assert_eq!(checksum(&[1, 2, 250]), 253);
    assert_eq!(checksum(&[255, 255, 255]), 765);
}

#[test]
fn checksum_wraps_at_the_width_of_the_number() {
    // 2^32 / 255 is 16843009 and a rest of 1: that many bytes of 255 and one
    // byte of 1 add up to 2^32, which wraps to 0.
    let mut bytes = vec![255u8; 16_843_009];
    assert_eq!(checksum(&bytes), u32::MAX - 0);
    bytes.push(1);
    assert_eq!(checksum(&bytes), 0);
    bytes.push(41);
    assert_eq!(checksum(&bytes), 41);
}
