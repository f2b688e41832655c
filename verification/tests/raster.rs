use cosmic_touch_keyboard::raster::{
    bitmap_label_fits, draw_bitmap_label, draw_glyph, fill_pixels, offset_fits, pick_font_for_char, put_pixel,
    put_pixel_alpha, FontChoice,
};

#[test]
fn put_pixel_writes_little_endian() {
    let mut c = vec![0u8; 4 * 4 * 2];
    put_pixel(&mut c, 4, 1, 1, 0xAABBCCDD);
    let i = (1 * 4 + 1) * 4;
    assert_eq!(&c[i..i + 4], &[0xDD, 0xCC, 0xBB, 0xAA]);
    assert_eq!(c.iter().filter(|b| **b != 0).count(), 4);
}

#[test]
fn put_pixel_skips_outside() {
    let mut c = vec![0u8; 16];
    put_pixel(&mut c, 2, -1, 0, 0xFFFFFFFF);
    put_pixel(&mut c, 2, 0, -1, 0xFFFFFFFF);
    put_pixel(&mut c, 2, 0, 2, 0xFFFFFFFF);
    assert!(c.iter().all(|b| *b == 0));
    // Beyond the row width the pixel lands on the next row.
    put_pixel(&mut c, 2, 2, 0, 0x01020304);
    assert_eq!(&c[8..12], &[4, 3, 2, 1]);
}

#[test]
fn alpha_blending() {
    let mut c = vec![100u8, 100, 100, 7];
    put_pixel_alpha(&mut c, 1, 0, 0, 0xFF_FF_00_C8, 51);
    // (src * a + dst * (255 - a)) / 255
    assert_eq!(c, vec![((200 * 51 + 100 * 204) / 255) as u8, ((0 * 51 + 100 * 204) / 255) as u8, ((255 * 51 + 100 * 204) / 255) as u8, 0xFF]);
    let mut d = vec![9u8; 4];
    put_pixel_alpha(&mut d, 1, 0, 1, 0xFFFFFFFF, 255);
    assert_eq!(d, vec![9, 9, 9, 9]);
    let mut e = vec![10u8, 20, 30, 40];
    put_pixel_alpha(&mut e, 1, 0, 0, 0xFFFFFFFF, 0);
    assert_eq!(e, vec![10, 20, 30, 0xFF]);
}

#[test]
fn rectangles_fill_what_fits() {
    let mut c = vec![0u8; 3 * 2 * 4];
    fill_pixels(&mut c, 3, 1, 0, 5, 1, 0x11223344);
    // Row 0, columns 1..3 fit; columns 3 and 4 wrap into row 1.
    let px = |x: usize, y: usize| c[(y * 3 + x) * 4];
    assert_eq!(px(0, 0), 0);
    assert_eq!(px(1, 0), 0x44);
    assert_eq!(px(2, 0), 0x44);
    assert_eq!(px(0, 1), 0x44);
    assert_eq!(px(1, 1), 0x44);
    assert_eq!(px(2, 1), 0);
    let mut d = vec![5u8; 12];
    fill_pixels(&mut d, 3, 2, 0, 2, 1, 0);
    fill_pixels(&mut d, 3, 0, 1, 3, 1, 0);
    assert!(d.iter().all(|b| *b == 5));
}

#[test]
fn glyph_a_from_font8x8() {
    let w = 8usize;
    let mut c = vec![0u8; w * 8 * 4];
    draw_glyph(&mut c, w as u32, 0, 0, 'A', 1, 0xFFFFFFFF);
    let rows: [u8; 8] = [0x0C, 0x1E, 0x33, 0x33, 0x3F, 0x33, 0x33, 0x00];
    for y in 0..8 {
        for x in 0..8 {
            let lit = (rows[y] >> x) & 1 == 1;
            assert_eq!(c[(y * w + x) * 4] == 0xFF, lit, "pixel ({x}, {y})");
        }
    }
}

#[test]
fn glyph_scaled_and_unknown() {
    let w = 16usize;
    let mut c = vec![0u8; w * 16 * 4];
    draw_glyph(&mut c, w as u32, 0, 0, 'A', 2, 0xFF000001);
    // Cell (row 0, col 2) of 'A' is lit: pixels (4..6, 0..2).
    assert_eq!(c[(0 * w + 4) * 4], 1);
    assert_eq!(c[(1 * w + 5) * 4], 1);
    assert_eq!(c[(0 * w + 0) * 4], 0);
    let mut d = vec![0u8; 64 * 4];
    draw_glyph(&mut d, 8, 0, 0, 'é', 1, 0xFFFFFFFF);
    assert!(d.iter().all(|b| *b == 0));
    // Partly off-canvas to the left: only visible columns are drawn.
    let mut e = vec![0u8; 64 * 4];
    draw_glyph(&mut e, 8, -2, 0, 'A', 1, 0xFFFFFFFF);
    assert_eq!(e[(0 * 8 + 0) * 4], 0xFF); // column 2 of row 0
}

#[test]
fn font_choice() {
    assert_eq!(pick_font_for_char(5, Some(7)), FontChoice::Primary);
    assert_eq!(pick_font_for_char(0, Some(7)), FontChoice::Fallback);
    assert_eq!(pick_font_for_char(0, Some(0)), FontChoice::Primary);
    assert_eq!(pick_font_for_char(0, None), FontChoice::Primary);
}

#[test]
fn bitmap_label_is_centred_and_clipped() {
    let (w, h) = (40usize, 10usize);
    let mut c = vec![0u8; w * h * 4];
    let text: Vec<char> = "AB".chars().collect();
    assert!(bitmap_label_fits(w as u32, &text, 0, 0, 40, 10, false));
    draw_bitmap_label(&mut c, w as u32, 0, 0, 40, 10, false, &text, 0xFFFFFFFF);
    let lit = |c: &Vec<u8>, x: usize, y: usize| c[(y * w + x) * 4] == 0xFF;
    // Two glyphs of 8 plus one gap: 17 wide, so the label starts at x = 11, y = 1.
    assert!(!lit(&c, 11, 1));
    assert!(lit(&c, 13, 1)); // 'A' row 0 = 0x0C: columns 2 and 3
    assert!(lit(&c, 20, 1)); // 'B' row 0 = 0x3F: columns 0..6
    assert!(!lit(&c, 19, 1)); // the gap
    assert!(!lit(&c, 13, 0));
    // A narrow box shows only the first character.
    let mut d = vec![0u8; w * h * 4];
    draw_bitmap_label(&mut d, w as u32, 0, 0, 10, 10, false, &text, 0xFFFFFFFF);
    assert!(lit(&d, 3, 1)); // 'A' at x = (10 - 8) / 2 = 1, column 2
    assert!((12..w).all(|x| (0..h).all(|y| !lit(&d, x, y))));
    // An empty label fits anywhere and draws nothing.
    assert!(bitmap_label_fits(w as u32, &Vec::new(), i32::MAX, i32::MIN, i32::MIN, 0, false));
    let mut e = vec![7u8; w * h * 4];
    draw_bitmap_label(&mut e, w as u32, i32::MAX, i32::MIN, i32::MIN, 0, false, &Vec::new(), 0);
    assert!(e.iter().all(|b| *b == 7));
    assert!(!bitmap_label_fits(w as u32, &text, i32::MAX - 5, 0, 40, 10, false));
}

#[test]
fn offsets_fit_in_32_bits() {
    assert!(offset_fits(1100, 1099, 339));
    assert!(offset_fits(0x4000_0000, 0x3fff_ffff, 0));
    assert!(!offset_fits(0x4000_0000, 0, 1));
    assert!(!offset_fits(1, u32::MAX, 0));
}
