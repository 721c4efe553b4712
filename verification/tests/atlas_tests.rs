use bracket_grid::{FontScaler, Ratio};

#[test]
fn texture_coords_of_the_first_glyph() {
    let scaler = FontScaler::new(16, 16, (8, 8));
    let coords = scaler.texture_coords(0);
    // One twentieth of a texel of a sheet 128 texels wide: 1 / 2560.
    assert_eq!(coords[0], Ratio { num: 1, den: 2560 });
    assert_eq!(coords[1], Ratio { num: 1, den: 2560 });
    assert_eq!(coords[2], Ratio { num: 159, den: 2560 });
    assert_eq!(coords[3], Ratio { num: 159, den: 2560 });
}

#[test]
fn texture_coords_of_the_solid_block() {
    let scaler = FontScaler::new(16, 16, (8, 8));
    // Glyph 219 stands in column 11 of row 13.
    let coords = scaler.texture_coords(219);
    assert_eq!(coords[0], Ratio { num: 11 * 160 + 1, den: 2560 });
    assert_eq!(coords[1], Ratio { num: 13 * 160 + 1, den: 2560 });
    assert_eq!(coords[2], Ratio { num: 12 * 160 - 1, den: 2560 });
    assert_eq!(coords[3], Ratio { num: 14 * 160 - 1, den: 2560 });
}

#[test]
fn texture_rows_are_counted_in_columns() {
    // A sheet that is not square: 32 columns and 8 rows of glyphs 8 by 16.
    let scaler = FontScaler::new(32, 8, (8, 16));
    // Glyph 40 is the ninth of the second row.
    let coords = scaler.texture_coords(40);
    assert_eq!(coords[0], Ratio { num: 8 * 160 + 1, den: 32 * 160 });
    assert_eq!(coords[2], Ratio { num: 9 * 160 - 1, den: 32 * 160 });
    assert_eq!(coords[1], Ratio { num: 320 + 1, den: 8 * 320 });
    assert_eq!(coords[3], Ratio { num: 2 * 320 - 1, den: 8 * 320 });
}

#[test]
fn texture_rectangles_lie_inside_the_unit_square() {
    for (columns, rows, font) in [(16u16, 16u16, (8u32, 8u32)), (32, 8, (8, 16)), (1, 1, (1, 1)), (3, 5, (7, 2))] {
        let scaler = FontScaler::new(columns, rows, font);
        for glyph in 0..columns * rows {
            let c = scaler.texture_coords(glyph);
            assert!(c.iter().all(|r| r.den > 0));
            assert!(0 < c[0].num && c[0].num < c[2].num && c[2].num < c[2].den);
            assert!(0 < c[1].num && c[1].num < c[3].num && c[3].num < c[3].den);
            assert_eq!((c[0].den, c[1].den), (c[2].den, c[3].den));
        }
    }
}

#[test]
fn the_last_glyph_ends_one_nudge_before_the_edge_of_the_sheet() {
    let scaler = FontScaler::new(16, 16, (8, 8));
    let coords = scaler.texture_coords(255);
    assert_eq!(coords[2], Ratio { num: 2559, den: 2560 });
    assert_eq!(coords[3], Ratio { num: 2559, den: 2560 });
}

#[test]
fn font_scaler_keeps_what_it_was_made_with() {
    let scaler = FontScaler::new(16, 8, (8, 12));
    assert_eq!(scaler.chars_per_row, 16);
    assert_eq!(scaler.n_rows, 8);
    assert_eq!(scaler.font_height_pixels, (8, 12));
}
