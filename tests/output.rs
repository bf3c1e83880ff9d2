use raytrace::framebuffer::PixelBuffer;
use raytrace::glyph::{GlyphBitmap, GlyphPalette, GlyphPixel, GLYPH_PIXELS};
use raytrace::image_saver::{pad_len, AsciiArtSaver, ImageFormatsSaver};
use raytrace::render_spec::ImageSize;

fn flat_glyph(c: char, level: u8) -> GlyphBitmap {
    GlyphBitmap { character: c, width: 4, height: 8, coverage: vec![level; 32] }
}

fn uniform_image(width: u32, height: u32, rgb: [u8; 3]) -> PixelBuffer {
    let mut data = Vec::new();
    for _ in 0..(width * height) {
        data.extend_from_slice(&rgb);
    }
    PixelBuffer::from_raw(ImageSize { width, height }, data).unwrap()
}

#[test]
fn palette_chars_are_space_and_printable_ascii() {
    let chars = GlyphPalette::palette_chars();
    assert_eq!(chars.len(), 95);
    assert_eq!(chars[0], ' ');
    assert_eq!(chars[1], '!');
    assert_eq!(chars[94], '~');
    for (i, c) in chars.iter().enumerate() {
        assert_eq!(*c as u32, 32 + i as u32);
    }
}

#[test]
fn similarity_is_sum_of_squared_differences() {
    let a: GlyphPixel = [0; GLYPH_PIXELS];
    let mut b: GlyphPixel = [0; GLYPH_PIXELS];
    b[0] = 3;
    b[5] = 4;
    assert_eq!(GlyphPalette::pixel_similarity(&a, &b), 25);
    assert_eq!(GlyphPalette::pixel_similarity(&b, &b), 0);
    let full: GlyphPixel = [255; GLYPH_PIXELS];
    assert_eq!(GlyphPalette::pixel_similarity(&a, &full), 32 * 255 * 255);
}

#[test]
fn match_char_picks_nearest_glyph() {
    let palette = GlyphPalette::from_font(&vec![
        flat_glyph(' ', 0),
        flat_glyph('+', 128),
        flat_glyph('#', 255),
    ]);
    assert_eq!(palette.match_char(&[10; GLYPH_PIXELS]), ' ');
    assert_eq!(palette.match_char(&[140; GLYPH_PIXELS]), '+');
    assert_eq!(palette.match_char(&[250; GLYPH_PIXELS]), '#');
}

#[test]
fn match_char_prefers_first_of_equal_glyphs() {
    let palette = GlyphPalette::from_font(&vec![
        flat_glyph('a', 100),
        flat_glyph('b', 100),
        flat_glyph('c', 0),
    ]);
    assert_eq!(palette.match_char(&[100; GLYPH_PIXELS]), 'a');
    // 50 lies as far from 0 as from 100: the earlier glyph wins.
    assert_eq!(palette.match_char(&[50; GLYPH_PIXELS]), 'a');
}

#[test]
fn empty_glyph_bitmap_covers_nothing() {
    let palette = GlyphPalette::from_font(&vec![
        GlyphBitmap { character: ' ', width: 0, height: 0, coverage: vec![] },
        flat_glyph('.', 1),
    ]);
    assert_eq!(palette.match_char(&[0; GLYPH_PIXELS]), ' ');
}

#[test]
fn larger_glyph_is_reduced_to_the_grid() {
    // A uniform 8 x 16 glyph stays uniform once reduced to 4 x 8.
    let palette = GlyphPalette::from_font(&vec![
        GlyphBitmap { character: 'x', width: 8, height: 16, coverage: vec![200; 128] },
        flat_glyph('o', 199),
        flat_glyph('i', 201),
    ]);
    assert_eq!(palette.match_char(&[200; GLYPH_PIXELS]), 'x');
}

#[test]
fn glyph_reduction_resamples_the_whole_bitmap() {
    // An 8 x 16 glyph inked on its top half only.
    let mut coverage = vec![255u8; 64];
    coverage.extend(vec![0u8; 64]);
    let palette = GlyphPalette::from_font(&vec![
        GlyphBitmap { character: 'x', width: 8, height: 16, coverage },
        flat_glyph('w', 255),
    ]);
    assert_eq!(palette.match_char(&[255; GLYPH_PIXELS]), 'w');
    let mut top_half: GlyphPixel = [0; GLYPH_PIXELS];
    for k in 0..16 {
        top_half[k] = 255;
    }
    assert_eq!(palette.match_char(&top_half), 'x');
}

#[test]
fn pad_len_rounds_up_to_multiple() {
    assert_eq!(pad_len(5, 4), 8);
    assert_eq!(pad_len(8, 4), 8);
    assert_eq!(pad_len(0, 8), 0);
    assert_eq!(pad_len(9, 8), 16);
    assert_eq!(pad_len(u32::MAX - 3, 4), u32::MAX - 3);
}

#[test]
fn ascii_art_of_single_block() {
    let saver = AsciiArtSaver::new(&vec![flat_glyph(' ', 0), flat_glyph('#', 255)]);
    let white = uniform_image(4, 8, [255, 255, 255]);
    assert_eq!(saver.to_ascii(&white), vec![vec!['#']]);
    let black = uniform_image(4, 8, [0, 0, 0]);
    assert_eq!(saver.to_ascii(&black), vec![vec![' ']]);
}

#[test]
fn ascii_art_uses_luma_weights() {
    // Pure red has luma 2126 * 255 / 10000 = 54.
    let saver = AsciiArtSaver::new(&vec![
        flat_glyph(' ', 0),
        flat_glyph('r', 54),
        flat_glyph('g', 182),
        flat_glyph('#', 255),
    ]);
    assert_eq!(saver.to_ascii(&uniform_image(4, 8, [255, 0, 0])), vec![vec!['r']]);
    // Pure green has luma 7152 * 255 / 10000 = 182.
    assert_eq!(saver.to_ascii(&uniform_image(4, 8, [0, 255, 0])), vec![vec!['g']]);
}

#[test]
fn ascii_art_rows_follow_blocks() {
    let saver = AsciiArtSaver::new(&vec![flat_glyph(' ', 0), flat_glyph('#', 255)]);
    let mut image = PixelBuffer::new(ImageSize { width: 8, height: 16 }).unwrap();
    for y in 0..8u32 {
        image.put_row(y, &vec![[255, 255, 255]; 8]);
    }
    assert_eq!(saver.to_ascii(&image), vec![vec!['#', '#'], vec![' ', ' ']]);
}

#[test]
fn ascii_art_pads_partial_blocks() {
    let saver = AsciiArtSaver::new(&vec![flat_glyph(' ', 0), flat_glyph('#', 255)]);
    let white = uniform_image(5, 9, [255, 255, 255]);
    assert_eq!(saver.to_ascii(&white), vec![vec!['#', '#'], vec!['#', '#']]);
}

#[test]
fn ascii_art_pads_by_nearest_neighbour() {
    // Two columns, white then black, padded to four: each source column
    // fills two block columns.
    let mut split = Vec::new();
    for _ in 0..8 {
        split.extend_from_slice(&[255, 255, 255, 0, 0, 0]);
    }
    let mut bar = Vec::new();
    for _ in 0..8 {
        bar.extend_from_slice(&[255, 255, 0, 0]);
    }
    let saver = AsciiArtSaver::new(&vec![
        flat_glyph(' ', 0),
        flat_glyph('#', 255),
        GlyphBitmap { character: '[', width: 4, height: 8, coverage: bar },
    ]);
    let image = PixelBuffer::from_raw(ImageSize { width: 2, height: 8 }, split).unwrap();
    assert_eq!(saver.to_ascii(&image), vec![vec!['[']]);
}

#[test]
fn image_formats_saver_builds() {
    let _saver = ImageFormatsSaver::new();
}
