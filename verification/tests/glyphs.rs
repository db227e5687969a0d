use pets_screenshot::{
    binarize, binarized_pixels, digit_vector, extract_digit_clips, extract_digit_zone, has_white,
    normalize_glyph, same_color, PetsImage, Raster, SubView, BLACK, WHITE,
};

const GREY: [u8; 4] = [128, 128, 128, 255];

/// An image from rows of text: `#` is white, `+` is grey, anything else black.
fn image(rows: &[&str]) -> Raster {
    let width = rows.first().map_or(0, |row| row.len());
    let mut pixels = Vec::new();
    for row in rows {
        assert_eq!(row.len(), width);
        for cell in row.chars() {
            pixels.push(match cell {
                '#' => WHITE,
                '+' => GREY,
                _ => BLACK,
            });
        }
    }
    Raster::from_pixels(width as u32, rows.len() as u32, pixels).expect("one pixel per cell")
}

#[test]
fn colors_are_the_same_in_all_four_channels_only() {
    assert!(same_color(&WHITE, &[255, 255, 255, 255]));
    assert!(same_color(&BLACK, &[0, 0, 0, 255]));
    assert!(!same_color(&WHITE, &BLACK));
    for channel in 0..4 {
        let mut other = GREY;
        other[channel] += 1;
        assert!(!same_color(&GREY, &other));
    }
}

#[test]
fn every_color_but_white_turns_black() {
    assert_eq!(binarize(&WHITE), WHITE);
    assert_eq!(binarize(&BLACK), BLACK);
    assert_eq!(binarize(&GREY), BLACK);
    assert_eq!(binarize(&[255, 255, 255, 254]), BLACK);
    assert_eq!(binarize(&[254, 255, 255, 255]), BLACK);
    assert_eq!(binarize(&[0, 0, 0, 0]), BLACK);
}

#[test]
fn raster_needs_one_pixel_for_each_cell() {
    assert!(Raster::from_pixels(2, 3, vec![BLACK; 6]).is_some());
    assert!(Raster::from_pixels(2, 3, vec![BLACK; 5]).is_none());
    assert!(Raster::from_pixels(2, 3, vec![BLACK; 7]).is_none());
    assert!(Raster::from_pixels(0, 0, Vec::new()).is_some());
    assert!(Raster::from_pixels(0, 9, Vec::new()).is_some());
    assert!(Raster::from_pixels(0, 0, vec![BLACK]).is_none());
    assert!(Raster::from_pixels(u32::MAX, u32::MAX, vec![BLACK; 1]).is_none());
}

#[test]
fn pixels_are_read_row_by_row() {
    let pixels: Vec<[u8; 4]> = (0..12).map(|i| [i, 0, 0, 255]).collect();
    let img = Raster::from_pixels(4, 3, pixels.clone()).expect("one pixel per cell");
    assert_eq!((img.width(), img.height()), (4, 3));
    assert_eq!(img.as_pixels(), &pixels);
    for y in 0..3 {
        for x in 0..4 {
            assert_eq!(img.get_pixel(x, y), [(4 * y + x) as u8, 0, 0, 255]);
        }
    }
}

#[test]
fn view_inside_a_view_adds_the_corners() {
    let pixels: Vec<[u8; 4]> = (0..100).map(|i| [i, 0, 0, 255]).collect();
    let img = Raster::from_pixels(10, 10, pixels).expect("one pixel per cell");
    let whole = SubView::whole(&img);
    assert_eq!((whole.x(), whole.y(), whole.width(), whole.height()), (0, 0, 10, 10));
    let inner = whole.sub_view(2, 3, 6, 5);
    assert_eq!((inner.x(), inner.y(), inner.width(), inner.height()), (2, 3, 6, 5));
    assert_eq!(inner.get_pixel(0, 0), [32, 0, 0, 255]);
    assert_eq!(inner.get_pixel(5, 4), [77, 0, 0, 255]);
    let innermost = inner.sub_view(1, 1, 5, 4);
    assert_eq!((innermost.x(), innermost.y()), (3, 4));
    assert_eq!(innermost.get_pixel(0, 0), [43, 0, 0, 255]);
    assert_eq!(innermost.get_pixel(4, 3), [77, 0, 0, 255]);
    let nothing = innermost.sub_view(5, 4, 0, 0);
    assert_eq!((nothing.x(), nothing.y(), nothing.width(), nothing.height()), (8, 8, 0, 0));
}

#[test]
fn column_with_white_is_found() {
    let img = image(&[".+..", "..#.", ".+.."]);
    let view = SubView::whole(&img);
    assert!(!has_white(&view, 0));
    assert!(!has_white(&view, 1));
    assert!(has_white(&view, 2));
    assert!(!has_white(&view, 3));
}

#[test]
fn glyph_runs_from_first_white_column_to_next_column_without() {
    let img = image(&["..##.+.#..", "...#...##.", ".......#.."]);
    let view = SubView::whole(&img);
    let (end, glyph) = extract_digit_zone(&view, 0).expect("a glyph");
    assert_eq!(end, 4);
    assert_eq!((glyph.x(), glyph.y(), glyph.width(), glyph.height()), (2, 0, 2, 3));
    let (end, glyph) = extract_digit_zone(&view, 4).expect("a glyph");
    assert_eq!(end, 9);
    assert_eq!((glyph.x(), glyph.y(), glyph.width(), glyph.height()), (7, 0, 2, 3));
    assert!(extract_digit_zone(&view, 9).is_none());
}

#[test]
fn search_may_start_inside_a_glyph() {
    let img = image(&[".###.#."]);
    let view = SubView::whole(&img);
    let (end, glyph) = extract_digit_zone(&view, 2).expect("a glyph");
    assert_eq!(end, 4);
    assert_eq!((glyph.x(), glyph.width()), (2, 2));
}

#[test]
fn glyph_that_reaches_the_right_edge_is_not_found() {
    let img = image(&["..##", "...#"]);
    let view = SubView::whole(&img);
    assert!(extract_digit_zone(&view, 0).is_none());
    let img = image(&["####"]);
    assert!(extract_digit_zone(&SubView::whole(&img), 0).is_none());
}

#[test]
fn zone_without_white_holds_no_glyph() {
    let img = image(&["..+.", "+..."]);
    let view = SubView::whole(&img);
    assert!(extract_digit_zone(&view, 0).is_none());
    assert!(extract_digit_clips(&view).is_none());
}

#[test]
fn search_from_the_right_edge_or_beyond_finds_nothing() {
    let img = image(&["#.#."]);
    let view = SubView::whole(&img);
    assert!(extract_digit_zone(&view, 3).is_none());
    assert!(extract_digit_zone(&view, 4).is_none());
    assert!(extract_digit_zone(&view, 5).is_none());
    assert!(extract_digit_zone(&view, u32::MAX).is_none());
}

#[test]
fn zone_without_rows_or_columns_holds_no_glyph() {
    let img = Raster::from_pixels(5, 0, Vec::new()).expect("no pixels");
    assert!(extract_digit_zone(&SubView::whole(&img), 0).is_none());
    let img = Raster::from_pixels(0, 5, Vec::new()).expect("no pixels");
    assert!(extract_digit_zone(&SubView::whole(&img), 0).is_none());
}

#[test]
fn glyphs_are_searched_in_the_window_only() {
    let img = image(&["#....#", "#.#..#", "#....#", "######"]);
    let view = SubView::whole(&img).sub_view(1, 0, 4, 3);
    let (end, glyph) = extract_digit_zone(&view, 0).expect("a glyph");
    assert_eq!(end, 2);
    assert_eq!((glyph.x(), glyph.y(), glyph.width(), glyph.height()), (2, 0, 1, 3));
}

#[test]
fn two_glyphs_are_cut_out_left_first() {
    let img = image(&["+#..###.", ".#...#.."]);
    let view = SubView::whole(&img);
    let (left, right) = extract_digit_clips(&view).expect("two glyphs");
    assert_eq!((left.x(), left.width(), left.height()), (1, 1, 2));
    assert_eq!((right.x(), right.width(), right.height()), (4, 3, 2));
    let img = image(&["+#......", ".#......"]);
    assert!(extract_digit_clips(&SubView::whole(&img)).is_none());
}

#[test]
fn glyphs_lie_where_their_columns_are() {
    // White, black, white, white, black: one glyph at column 0, one at
    // columns 2 and 3.
    let img = image(&["#.##."]);
    let view = SubView::whole(&img);
    let (left, right) = extract_digit_clips(&view).expect("two glyphs");
    assert_eq!((left.x(), left.y(), left.width(), left.height()), (0, 0, 1, 1));
    assert_eq!((right.x(), right.y(), right.width(), right.height()), (2, 0, 2, 1));

    let (end, first) = extract_digit_zone(&view, 0).expect("a glyph");
    let (_, second) = extract_digit_zone(&view, end).expect("a glyph");
    assert_eq!((first.x(), first.y(), first.width(), first.height()), (0, 0, 1, 1));
    assert_eq!((second.x(), second.y(), second.width(), second.height()), (2, 0, 2, 1));
}

#[test]
fn two_glyphs_of_the_same_shape_are_two_windows() {
    let img = image(&["+....+.", ".#...#.", ".##..##", "+#.+.#."]);
    let view = SubView::whole(&img).sub_view(0, 1, 7, 3);
    assert!(extract_digit_clips(&view).is_none());
    let img = image(&["+....+..", ".#...#..", ".##..##.", "+#.+.#.."]);
    let view = SubView::whole(&img).sub_view(0, 1, 8, 3);
    let (left, right) = extract_digit_clips(&view).expect("two glyphs");
    assert_eq!((left.x(), left.y(), left.width(), left.height()), (1, 1, 2, 3));
    assert_eq!((right.x(), right.y(), right.width(), right.height()), (5, 1, 2, 3));
    assert_eq!(binarized_pixels(&left), binarized_pixels(&right));
}

#[test]
fn a_scaled_glyph_holds_black_and_white_only() {
    let rows: Vec<String> = (0..49)
        .map(|y| (0..11).map(|x| if (x * y) % 5 == 0 { '#' } else { '+' }).collect())
        .collect();
    let rows: Vec<&str> = rows.iter().map(|row| row.as_str()).collect();
    let img = image(&rows);
    let scaled = normalize_glyph(&SubView::whole(&img));
    assert_eq!(scaled.as_pixels().len(), 256);
    assert!(scaled.as_pixels().iter().all(|pixel| *pixel == BLACK || *pixel == WHITE));
    assert!(scaled.as_pixels().iter().any(|pixel| *pixel == WHITE));
    assert!(scaled.as_pixels().iter().any(|pixel| *pixel == BLACK));
}

#[test]
fn pixels_of_a_glyph_are_listed_in_black_and_white() {
    let img = image(&["#+.#", ".#+."]);
    let view = SubView::whole(&img);
    assert_eq!(
        binarized_pixels(&view),
        vec![WHITE, BLACK, BLACK, WHITE, BLACK, WHITE, BLACK, BLACK]
    );
    assert_eq!(binarized_pixels(&view.sub_view(1, 0, 2, 2)), vec![BLACK, BLACK, WHITE, BLACK]);
    assert_eq!(binarized_pixels(&view.sub_view(1, 1, 0, 0)), Vec::<[u8; 4]>::new());
}

#[test]
fn scaling_up_repeats_each_pixel() {
    // 8 by 8 cells, white where column and row are both even or both odd.
    let rows: Vec<String> = (0..8)
        .map(|y| (0..8).map(|x| if (x + y) % 2 == 0 { '#' } else { '+' }).collect())
        .collect();
    let rows: Vec<&str> = rows.iter().map(|row| row.as_str()).collect();
    let img = image(&rows);
    let scaled = normalize_glyph(&SubView::whole(&img));
    assert_eq!((scaled.width(), scaled.height()), (16, 16));
    for y in 0..16 {
        for x in 0..16 {
            let expected = if (x / 2 + y / 2) % 2 == 0 { WHITE } else { BLACK };
            assert_eq!(scaled.get_pixel(x, y), expected);
        }
    }
}

#[test]
fn scaling_down_takes_the_pixel_at_the_middle_of_each_cell() {
    // 32 columns and 48 rows. Cell (x, y) of the grid is taken from column
    // 2x + 1 and row 3y + 1.
    let rows: Vec<String> = (0..48)
        .map(|y| {
            (0..32).map(|x| if x % 2 == 1 && y % 3 == 1 && (x / 2 + y / 3) % 3 == 0 { '#' } else { '.' }).collect()
        })
        .collect();
    let rows: Vec<&str> = rows.iter().map(|row| row.as_str()).collect();
    let img = image(&rows);
    let scaled = normalize_glyph(&SubView::whole(&img));
    assert_eq!((scaled.width(), scaled.height()), (16, 16));
    for y in 0..16 {
        for x in 0..16 {
            let expected = if (x + y) % 3 == 0 { WHITE } else { BLACK };
            assert_eq!(scaled.get_pixel(x, y), expected);
        }
    }
}

#[test]
fn a_glyph_of_the_size_of_the_grid_keeps_its_pixels() {
    let rows: Vec<String> = (0..16)
        .map(|y| (0..16).map(|x| if (3 * x + 5 * y) % 7 < 3 { '#' } else { '+' }).collect())
        .collect();
    let rows: Vec<&str> = rows.iter().map(|row| row.as_str()).collect();
    let img = image(&rows);
    let scaled = normalize_glyph(&SubView::whole(&img));
    for y in 0..16u32 {
        for x in 0..16u32 {
            let expected = if (3 * x + 5 * y) % 7 < 3 { WHITE } else { BLACK };
            assert_eq!(scaled.get_pixel(x, y), expected);
        }
    }
    let vector = digit_vector(&scaled);
    for y in 0..16usize {
        for x in 0..16usize {
            assert_eq!(vector[16 * y + x], if (3 * x + 5 * y) % 7 < 3 { 1 } else { 0 });
        }
    }
}

#[test]
fn vector_has_one_for_white_and_zero_for_all_else() {
    let mut pixels = vec![BLACK; 256];
    pixels[0] = WHITE;
    pixels[17] = WHITE;
    pixels[18] = GREY;
    pixels[255] = WHITE;
    let img = Raster::from_pixels(16, 16, pixels).expect("one pixel per cell");
    let vector = digit_vector(&img);
    for (i, entry) in vector.iter().enumerate() {
        assert_eq!(*entry, if i == 0 || i == 17 || i == 255 { 1 } else { 0 });
    }
}

#[test]
fn vector_of_a_smaller_or_larger_image() {
    let small = Raster::from_pixels(2, 2, vec![WHITE; 4]).expect("one pixel per cell");
    let vector = digit_vector(&small);
    assert_eq!(&vector[..4], &[1, 1, 1, 1]);
    assert!(vector[4..].iter().all(|entry| *entry == 0));

    let large = Raster::from_pixels(20, 20, vec![WHITE; 400]).expect("one pixel per cell");
    assert_eq!(digit_vector(&large), [1; 256]);
}

#[test]
fn vectors_of_two_images_come_in_their_order() {
    let white = Raster::from_pixels(16, 16, vec![WHITE; 256]).expect("one pixel per cell");
    let black = Raster::from_pixels(16, 16, vec![BLACK; 256]).expect("one pixel per cell");
    let (first, second) = PetsImage::get_digits_vectors_from_two_dyn_images((white, black));
    assert_eq!(first, [1; 256]);
    assert_eq!(second, [0; 256]);
}
