use bitify::{
    check_drawable, derive_target_height, effective_width, get_char_pattern, output_file_name,
    parse_density, parse_lowered, pixel_on, process_image, rasterize, sample_grid, sample_image,
    select_char_index, try_rasterize, AsciiImage, AsciiPixel, DensityPreset, ProcessError,
    SourceImage,
};

const ALL: [DensityPreset; 5] = [
    DensityPreset::Low,
    DensityPreset::Medium,
    DensityPreset::High,
    DensityPreset::Ultra,
    DensityPreset::Extreme,
];

fn uniform(width: u32, height: u32, rgb: (u8, u8, u8)) -> SourceImage {
    let mut pixels = Vec::new();
    for _ in 0..(width * height) {
        pixels.extend_from_slice(&[rgb.0, rgb.1, rgb.2, 255]);
    }
    SourceImage { width, height, pixels }
}

fn pixel(img: &AsciiImage, x: u32, y: u32) -> (u8, u8, u8) {
    let bytes = img.to_rgb_bytes();
    let i = 3 * (y as usize * img.width() as usize + x as usize);
    (bytes[i], bytes[i + 1], bytes[i + 2])
}

#[test]
fn presets_start_with_blank() {
    for d in ALL {
        let chars = d.get_chars();
        assert!(chars.len() >= 2);
        assert_eq!(chars[0], ' ');
    }
    assert_eq!(DensityPreset::Low.get_chars().len(), 6);
    assert_eq!(DensityPreset::Medium.get_chars().len(), 10);
    assert_eq!(DensityPreset::High.get_chars().len(), 69);
    assert_eq!(DensityPreset::Ultra.get_chars().len(), 70);
    assert_eq!(DensityPreset::Extreme.get_chars().len(), 94);
    assert_eq!(*DensityPreset::Ultra.get_chars().last().unwrap(), '$');
    assert_eq!(*DensityPreset::Extreme.get_chars().last().unwrap(), 'E');
}

#[test]
fn default_widths() {
    assert_eq!(DensityPreset::Low.get_default_width(), 40);
    assert_eq!(DensityPreset::Medium.get_default_width(), 80);
    assert_eq!(DensityPreset::High.get_default_width(), 120);
    assert_eq!(DensityPreset::Ultra.get_default_width(), 150);
    assert_eq!(DensityPreset::Extreme.get_default_width(), 200);
}

#[test]
fn char_index_at_black_and_white() {
    for d in ALL {
        let n = d.get_chars().len();
        assert_eq!(select_char_index(0, 0, 0, n), 0);
        assert_eq!(select_char_index(255, 255, 255, n), n - 1);
    }
}

#[test]
fn char_index_mid_grey() {
    // luma of (128,128,128) is 128000 of 255000; 128000 * 5 / 255000 = 2
    assert_eq!(select_char_index(128, 128, 128, 6), 2);
    // pure green: 587 * 255 = 149685; 149685 * 9 / 255000 = 5
    assert_eq!(select_char_index(0, 255, 0, 10), 5);
}

#[test]
fn target_height_example() {
    assert_eq!(derive_target_height(100, 50, 80), 20);
    assert_eq!(derive_target_height(2, 2, 2), 1);
    // 3 * 1 / 2 * 0.5 = 0.75 rounds to 1
    assert_eq!(derive_target_height(2, 1, 3), 1);
    // 1 * 1 / 4 * 0.5 = 0.125 rounds to 0
    assert_eq!(derive_target_height(4, 1, 1), 0);
}

#[test]
fn grid_shape_matches_target() {
    let src = uniform(100, 50, (10, 200, 30));
    let grid = sample_image(&src, 80, DensityPreset::Medium).unwrap();
    assert_eq!(grid.len(), 20);
    for row in &grid {
        assert_eq!(row.len(), 80);
    }
}

#[test]
fn raster_dimensions() {
    let src = uniform(30, 40, (90, 90, 90));
    let grid = sample_image(&src, 7, DensityPreset::High).unwrap();
    assert_eq!(grid.len(), 5);
    let img = rasterize(&grid);
    assert_eq!(img.width(), 7 * 8);
    assert_eq!(img.height(), 5 * 12);
    assert_eq!(img.to_rgb_bytes().len(), 56 * 60 * 3);
}

#[test]
fn pipeline_is_idempotent() {
    let mut src = uniform(9, 6, (0, 0, 0));
    for (i, b) in src.pixels.iter_mut().enumerate() {
        *b = (i * 37 % 256) as u8;
    }
    let (text_a, grid_a) = process_image(&src, 5, DensityPreset::Extreme).unwrap();
    let (text_b, grid_b) = process_image(&src, 5, DensityPreset::Extreme).unwrap();
    assert_eq!(grid_a, grid_b);
    assert_eq!(text_a, text_b);
    assert_eq!(rasterize(&grid_a).to_rgb_bytes(), rasterize(&grid_b).to_rgb_bytes());
}

#[test]
fn white_two_by_two_low() {
    let src = uniform(2, 2, (255, 255, 255));
    let grid = sample_image(&src, 2, DensityPreset::Low).unwrap();
    assert_eq!(grid.len(), 1);
    assert_eq!(grid[0].len(), 2);
    for cell in &grid[0] {
        assert_eq!(*cell, AsciiPixel { character: '@', color: (255, 255, 255) });
    }
    let img = rasterize(&grid);
    assert_eq!((img.width(), img.height()), (16, 12));
    let at = get_char_pattern('@');
    let mut lit = 0;
    for y in 0..12 {
        for x in 0..16 {
            let expected = if pixel_on(at, x % 8, y) { (255, 255, 255) } else { (0, 0, 0) };
            if expected != (0, 0, 0) {
                lit += 1;
            }
            assert_eq!(pixel(&img, x, y), expected);
        }
    }
    assert!(lit > 0);
    // top row of '@' is 00111100
    assert_eq!(pixel(&img, 1, 0), (0, 0, 0));
    assert_eq!(pixel(&img, 2, 0), (255, 255, 255));
}

#[test]
fn black_image_is_blank() {
    for (w, h) in [(1, 1), (4, 8), (13, 5)] {
        let src = uniform(w, h, (0, 0, 0));
        let grid = sample_image(&src, 6, DensityPreset::Medium).unwrap();
        for row in &grid {
            for cell in row {
                assert_eq!(*cell, AsciiPixel { character: ' ', color: (0, 0, 0) });
            }
        }
        let img = rasterize(&grid);
        assert!(img.to_rgb_bytes().iter().all(|b| *b == 0));
    }
}

#[test]
fn unmapped_character_draws_blank() {
    assert_eq!(get_char_pattern('é'), get_char_pattern(' '));
    assert_eq!(get_char_pattern('\u{2588}'), 0);
    let grid = vec![vec![
        AsciiPixel { character: 'é', color: (255, 0, 0) },
        AsciiPixel { character: '\u{2588}', color: (0, 255, 0) },
    ]];
    let img = rasterize(&grid);
    assert_eq!((img.width(), img.height()), (16, 12));
    assert!(img.to_rgb_bytes().iter().all(|b| *b == 0));
}

#[test]
fn glyph_groups_share_bitmaps() {
    assert_eq!(get_char_pattern('.'), get_char_pattern('\''));
    assert_eq!(get_char_pattern('t'), get_char_pattern('o'));
    assert_eq!(get_char_pattern('X'), get_char_pattern('E'));
    assert_eq!(get_char_pattern('M'), get_char_pattern('$'));
    assert_ne!(get_char_pattern('0'), get_char_pattern('O'));
    // every palette character except the blank has some ink
    for c in DensityPreset::Extreme.get_chars().into_iter().skip(1) {
        assert_ne!(get_char_pattern(c), 0, "{c}");
    }
}

#[test]
fn glyph_bits_read_left_to_right() {
    let underscore = get_char_pattern('_');
    for x in 0..8 {
        assert!(pixel_on(underscore, x, 11));
        assert!(!pixel_on(underscore, x, 10));
    }
    let dot = get_char_pattern('.');
    assert!(pixel_on(dot, 3, 9));
    assert!(pixel_on(dot, 4, 10));
    assert!(!pixel_on(dot, 2, 9));
}

#[test]
fn colored_cells_keep_their_colour() {
    let grid = vec![vec![
        AsciiPixel { character: '#', color: (10, 20, 30) },
        AsciiPixel { character: ' ', color: (200, 200, 200) },
    ]];
    let img = rasterize(&grid);
    // '#' row 1 is 00101000
    assert_eq!(pixel(&img, 2, 1), (10, 20, 30));
    assert_eq!(pixel(&img, 3, 1), (0, 0, 0));
    for y in 0..12 {
        for x in 8..16 {
            assert_eq!(pixel(&img, x, y), (0, 0, 0));
        }
    }
}

#[test]
fn sampling_errors() {
    let empty = SourceImage { width: 0, height: 5, pixels: vec![] };
    assert_eq!(sample_image(&empty, 10, DensityPreset::Low).unwrap_err(), ProcessError::EmptySource);
    let src = uniform(4, 4, (1, 2, 3));
    assert_eq!(sample_image(&src, 0, DensityPreset::Low).unwrap_err(), ProcessError::ZeroWidth);
    let wide = uniform(100, 1, (1, 2, 3));
    assert_eq!(sample_image(&wide, 1, DensityPreset::Low).unwrap_err(), ProcessError::ZeroHeight);
    let tall = uniform(1, 1 << 20, (1, 2, 3));
    assert_eq!(
        sample_image(&tall, u32::MAX, DensityPreset::Low).unwrap_err(),
        ProcessError::TooLarge
    );
    assert!(process_image(&wide, 1, DensityPreset::Low).is_err());
}

#[test]
fn resize_changes_the_sample_count() {
    let mut src = uniform(4, 4, (0, 0, 0));
    for (i, b) in src.pixels.iter_mut().enumerate() {
        *b = if i % 4 == 3 { 255 } else { (i * 13 % 256) as u8 };
    }
    let grid = sample_image(&src, 2, DensityPreset::Medium).unwrap();
    assert_eq!(grid.len(), 1);
    assert_eq!(grid[0].len(), 2);
}

#[test]
fn sample_grid_reads_row_major() {
    let px = vec![0, 0, 0, 255, 255, 255, 255, 255, 255, 0, 0, 255, 0, 9, 9, 255];
    let chars = DensityPreset::Low.get_chars();
    let grid = sample_grid(&px, 2, 2, &chars);
    assert_eq!(grid[0][0], AsciiPixel { character: ' ', color: (0, 0, 0) });
    assert_eq!(grid[0][1], AsciiPixel { character: '@', color: (255, 255, 255) });
    // (255,0,0): 76245 * 5 / 255000 = 1
    assert_eq!(grid[1][0], AsciiPixel { character: '.', color: (255, 0, 0) });
    assert_eq!(grid[1][1], AsciiPixel { character: ' ', color: (0, 9, 9) });
}

#[test]
fn terminal_text_has_one_line_per_row() {
    let src = uniform(4, 4, (255, 255, 255));
    let (text, grid) = process_image(&src, 3, DensityPreset::Medium).unwrap();
    assert_eq!(grid.len(), 2);
    assert_eq!(text.matches('\n').count(), 2);
    assert_eq!(text.matches('@').count(), 6);
    assert!(text.ends_with('\n'));
}

#[test]
fn parse_density_any_case() {
    assert_eq!(parse_density("low").unwrap(), DensityPreset::Low);
    assert_eq!(parse_density("MEDIUM").unwrap(), DensityPreset::Medium);
    assert_eq!(parse_density("High").unwrap(), DensityPreset::High);
    assert_eq!(parse_density("uLtRa").unwrap(), DensityPreset::Ultra);
    assert_eq!(parse_density("EXTREME").unwrap(), DensityPreset::Extreme);
    let err = parse_density("Dense").unwrap_err();
    assert_eq!(err.input, "Dense");
    assert!(parse_density("").is_err());
    assert_eq!(parse_lowered("High"), None);
    assert_eq!(parse_lowered("high"), Some(DensityPreset::High));
}

#[test]
fn effective_width_rule() {
    assert_eq!(effective_width(80, DensityPreset::Low), 40);
    assert_eq!(effective_width(80, DensityPreset::Medium), 80);
    assert_eq!(effective_width(80, DensityPreset::Extreme), 200);
    assert_eq!(effective_width(120, DensityPreset::Low), 120);
}

#[test]
fn output_file_names() {
    assert_eq!(output_file_name("cat", DensityPreset::Ultra), "cat_Ultra_ascii.png");
    assert_eq!(output_file_name("a.b", DensityPreset::Low), "a.b_Low_ascii.png");
    assert_eq!(DensityPreset::Medium.title(), "Medium");
}

#[test]
fn drawability() {
    assert!(!check_drawable(&vec![]));
    let ragged = vec![
        vec![AsciiPixel { character: '.', color: (1, 1, 1) }],
        vec![],
    ];
    assert!(!check_drawable(&ragged));
    assert!(try_rasterize(&ragged).is_none());
    let ok = vec![vec![AsciiPixel { character: '.', color: (1, 1, 1) }]];
    assert!(check_drawable(&ok));
    let img = try_rasterize(&ok).unwrap();
    assert_eq!((img.width(), img.height()), (8, 12));
}

#[test]
fn terminal_text_wraps_cells_in_escapes() {
    colored::control::set_override(true);
    let grid = vec![vec![
        AsciiPixel { character: '@', color: (255, 10, 0) },
        AsciiPixel { character: ' ', color: (0, 0, 0) },
    ]];
    let text = bitify::render_text(&grid);
    colored::control::unset_override();
    // the exact style sequence depends on the terminal's colour support
    assert_ne!(text, "@ \n");
    assert!(text.starts_with('\x1b'));
    assert!(text.contains("m@\x1b[0m\x1b["));
    assert!(text.ends_with("m \x1b[0m\n"));
}

#[test]
fn terminal_text_plain_when_colour_is_off() {
    colored::control::set_override(false);
    let grid = vec![
        vec![AsciiPixel { character: '#', color: (1, 2, 3) }],
        vec![AsciiPixel { character: '.', color: (4, 5, 6) }],
    ];
    let text = bitify::render_text(&grid);
    colored::control::unset_override();
    assert_eq!(text, "#\n.\n");
}
