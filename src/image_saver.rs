use vstd::prelude::*;

use crate::framebuffer::PixelBuffer;
use crate::render_spec::ImageSize;
use crate::glyph::{
    nearest_char, GlyphBitmap, GlyphPalette, GlyphPixel, GLYPH_HEIGHT, GLYPH_PIXELS, GLYPH_WIDTH,
    glyph_levels,
};

verus! {

/// Writes a rendered image in one of the common raster formats.
pub struct ImageFormatsSaver {}

impl ImageFormatsSaver {
    pub fn new() -> (r: ImageFormatsSaver) {
        ImageFormatsSaver {  }
    }
}

/// Grey level of an sRGB colour, with the integer weights of
/// `image::Rgb::to_luma` for 8-bit channels.
pub open spec fn luma(r: u8, g: u8, b: u8) -> int {
    (2126 * r + 7152 * g + 722 * b) / 10000
}

/// Relies on image::Pixel::to_luma (image 0.24) for Rgb<u8>: the weighted sum
/// (2126 r + 7152 g + 722 b) / 10000 computed in u32, which never exceeds 255.
#[verifier::external_body]
fn to_luma(r: u8, g: u8, b: u8) -> (l: u8)
    ensures
        l == luma(r, g, b),
{
    image::Pixel::to_luma(&image::Rgb([r, g, b])).0[0]
}

/// Bytes of a `width` x `height` RGB image resampled by
/// `image::imageops::resize` with the nearest-neighbour filter to
/// `new_width` x `new_height`.
pub uninterp spec fn nearest_resized(
    width: u32,
    height: u32,
    rgb: Seq<u8>,
    new_width: u32,
    new_height: u32,
) -> Seq<u8>;

/// Relies on image::imageops::resize (image 0.24) with FilterType::Nearest on an
/// RgbImage: the result is a `new_width` x `new_height` image of three bytes per
/// pixel, and a plain copy when the size is unchanged.
#[verifier::external_body]
fn resize_nearest(width: u32, height: u32, rgb: Vec<u8>, new_width: u32, new_height: u32) -> (r: Vec<
    u8,
>)
    requires
        width > 0,
        height > 0,
        rgb@.len() == width as nat * height as nat * 3,
        new_width as nat * new_height as nat * 3 <= usize::MAX,
    ensures
        r@ == nearest_resized(width, height, rgb@, new_width, new_height),
        r@.len() == new_width as nat * new_height as nat * 3,
        width == new_width && height == new_height ==> r@ == rgb@,
{
    let image = image::RgbImage::from_raw(width, height, rgb).unwrap();
    image::imageops::resize(&image, new_width, new_height, image::imageops::FilterType::Nearest)
        .into_vec()
}

/// `len` rounded up to a multiple of `align`.
pub open spec fn padded(len: int, align: int) -> int {
    (len + align - 1) / align * align
}

/// Rounds `len` up to a multiple of `align`.
pub fn pad_len(len: u32, align: u32) -> (r: u32)
    requires
        align > 0,
        len + align - 1 <= u32::MAX,
    ensures
        r == padded(len as int, align as int),
        r >= len,
        r % align == 0,
{
    let q = (len + (align - 1)) / align;
    let ghost n: int = len + align - 1;
    let ghost a: int = align as int;
    assert(q * a <= n && q * a > n - a && (q * a) % a == 0) by (nonlinear_arith)
        requires
            q == n / a,
            a > 0,
            n >= 0,
    ;
    q * align
}

/// Grey levels of the block in block row `i` and block column `j` of an RGB
/// image `width` pixels wide, row by row.
pub open spec fn block_levels(rgb: Seq<u8>, width: int, i: int, j: int) -> Seq<u8> {
    Seq::new(
        GLYPH_PIXELS as nat,
        |k: int|
            {
                let x = j * GLYPH_WIDTH + k % (GLYPH_WIDTH as int);
                let y = i * GLYPH_HEIGHT + k / (GLYPH_WIDTH as int);
                let o = (y * width + x) * 3;
                luma(rgb[o], rgb[o + 1], rgb[o + 2]) as u8
            },
    )
}

/// An image of `width` x `height` pixels can be padded to whole blocks.
pub open spec fn fits_blocks(width: u32, height: u32) -> bool {
    &&& width + GLYPH_WIDTH - 1 <= u32::MAX
    &&& height + GLYPH_HEIGHT - 1 <= u32::MAX
    &&& padded(width as int, GLYPH_WIDTH as int) * padded(height as int, GLYPH_HEIGHT as int) * 3
        <= usize::MAX
}

/// The text that shows an RGB image of the given size: the image is padded
/// by nearest-neighbour resampling to whole blocks (an image made of whole
/// blocks is kept as it is), and each block becomes the
/// character of the glyph nearest to its grey levels. One row of text per row
/// of blocks.
pub open spec fn ascii_art(glyphs: Seq<(Seq<u8>, char)>, size: ImageSize, rgb: Seq<u8>) -> Seq<
    Seq<char>,
> {
    let pw = padded(size.width as int, GLYPH_WIDTH as int);
    let ph = padded(size.height as int, GLYPH_HEIGHT as int);
    let resized = if pw == size.width && ph == size.height {
        rgb
    } else {
        nearest_resized(size.width, size.height, rgb, pw as u32, ph as u32)
    };
    Seq::new(
        (ph / GLYPH_HEIGHT as int) as nat,
        |i: int|
            Seq::new(
                (pw / GLYPH_WIDTH as int) as nat,
                |j: int| nearest_char(glyphs, block_levels(resized, pw, i, j)),
            ),
    )
}

/// Grey levels of one block of an RGB image made of whole blocks.
fn block_pixel(rgb: &Vec<u8>, width: usize, height: usize, i: usize, j: usize) -> (r: GlyphPixel)
    requires
        rgb@.len() == width * height * 3,
        (width as int) % (GLYPH_WIDTH as int) == 0,
        (height as int) % (GLYPH_HEIGHT as int) == 0,
        i < (height as int) / (GLYPH_HEIGHT as int),
        j < (width as int) / (GLYPH_WIDTH as int),
    ensures
        r@ == block_levels(rgb@, width as int, i as int, j as int),
{
    let mut r: GlyphPixel = [0u8; GLYPH_PIXELS];
    let gw = GLYPH_WIDTH as usize;
    let gh = GLYPH_HEIGHT as usize;
    let len = rgb.len();
    let mut k: usize = 0;
    while k < GLYPH_PIXELS
        invariant
            k <= GLYPH_PIXELS,
            gw == GLYPH_WIDTH,
            gh == GLYPH_HEIGHT,
            len == rgb@.len(),
            rgb@.len() == width * height * 3,
            (width as int) % (GLYPH_WIDTH as int) == 0,
            (height as int) % (GLYPH_HEIGHT as int) == 0,
            i < (height as int) / (GLYPH_HEIGHT as int),
            j < (width as int) / (GLYPH_WIDTH as int),
            r@.len() == GLYPH_PIXELS,
            forall|m: int|
                0 <= m < k ==> r@[m] == block_levels(rgb@, width as int, i as int, j as int)[m],
        decreases GLYPH_PIXELS - k,
    {
        let x = j * gw + k % gw;
        let y = i * gh + k / gw;
        proof {
            assert(y * width + x < height * width) by (nonlinear_arith)
                requires
                    x < width,
                    y < height,
            ;
            assert(height * width * 3 == len) by (nonlinear_arith)
                requires
                    len == width * height * 3,
            ;
        }
        let o = (y * width + x) * 3;
        r[k] = to_luma(rgb[o], rgb[o + 1], rgb[o + 2]);
        k = k + 1;
    }
    assert(r@ =~= block_levels(rgb@, width as int, i as int, j as int));
    r
}

/// Writes a rendered image as text, one character for each block of
/// `GLYPH_WIDTH` x `GLYPH_HEIGHT` pixels.
pub struct AsciiArtSaver {
    palette: GlyphPalette,
}

impl AsciiArtSaver {
    /// The glyphs that blocks are matched against.
    pub closed spec fn glyphs(&self) -> Seq<(Seq<u8>, char)> {
        self.palette@
    }

    pub closed spec fn wf(&self) -> bool {
        self.palette.wf()
    }

    /// A saver whose palette is made of the given rasterised glyphs.
    pub fn new(glyphs: &Vec<GlyphBitmap>) -> (r: AsciiArtSaver)
        requires
            glyphs@.len() > 0,
            forall|i: int| 0 <= i < glyphs@.len() ==> (#[trigger] glyphs@[i]).wf(),
        ensures
            r.wf(),
            r.glyphs().len() == glyphs@.len(),
            forall|i: int|
                0 <= i < glyphs@.len() ==> #[trigger] r.glyphs()[i] == (
                    glyph_levels(glyphs@[i]),
                    glyphs@[i].character,
                ),
    {
        AsciiArtSaver { palette: GlyphPalette::from_font(glyphs) }
    }

    /// The text that shows `image`, one row of characters per row of blocks.
    pub fn to_ascii(&self, image: &PixelBuffer) -> (r: Vec<Vec<char>>)
        requires
            self.wf(),
            image.wf(),
            fits_blocks(image.spec_size().width, image.spec_size().height),
        ensures
            r@.map_values(|row: Vec<char>| row@) == ascii_art(
                self.glyphs(),
                image.spec_size(),
                image.bytes(),
            ),
    {
        let size = image.size();
        let pw = pad_len(size.width, GLYPH_WIDTH);
        let ph = pad_len(size.height, GLYPH_HEIGHT);
        let padded_image = resize_nearest(size.width, size.height, image.as_bytes().clone(), pw, ph);
        let ghost art = ascii_art(self.glyphs(), size, image.bytes());
        let blocks_horizontal = (pw / GLYPH_WIDTH) as usize;
        let blocks_vertical = (ph / GLYPH_HEIGHT) as usize;
        let mut results: Vec<Vec<char>> = Vec::new();
        let mut i: usize = 0;
        while i < blocks_vertical
            invariant
                self.wf(),
                i <= blocks_vertical,
                blocks_vertical == ph / GLYPH_HEIGHT,
                blocks_horizontal == pw / GLYPH_WIDTH,
                pw % GLYPH_WIDTH == 0,
                ph % GLYPH_HEIGHT == 0,
                padded_image@.len() == pw as nat * ph as nat * 3,
                pw == padded(size.width as int, GLYPH_WIDTH as int),
                ph == padded(size.height as int, GLYPH_HEIGHT as int),
                padded_image@ == (if pw == size.width && ph == size.height {
                    image.bytes()
                } else {
                    nearest_resized(size.width, size.height, image.bytes(), pw, ph)
                }),
                art == ascii_art(self.glyphs(), size, image.bytes()),
                results@.len() == i,
                forall|m: int| 0 <= m < i ==> (#[trigger] results@[m])@ == art[m],
            decreases blocks_vertical - i,
        {
            let mut line: Vec<char> = Vec::new();
            let mut j: usize = 0;
            while j < blocks_horizontal
                invariant
                    self.wf(),
                    i < blocks_vertical,
                    j <= blocks_horizontal,
                    blocks_vertical == ph / GLYPH_HEIGHT,
                    blocks_horizontal == pw / GLYPH_WIDTH,
                    pw % GLYPH_WIDTH == 0,
                    ph % GLYPH_HEIGHT == 0,
                    padded_image@.len() == pw as nat * ph as nat * 3,
                    pw == padded(size.width as int, GLYPH_WIDTH as int),
                    ph == padded(size.height as int, GLYPH_HEIGHT as int),
                    padded_image@ == (if pw == size.width && ph == size.height {
                        image.bytes()
                    } else {
                        nearest_resized(size.width, size.height, image.bytes(), pw, ph)
                    }),
                    art == ascii_art(self.glyphs(), size, image.bytes()),
                    line@.len() == j,
                    forall|n: int| 0 <= n < j ==> line@[n] == art[i as int][n],
                decreases blocks_horizontal - j,
            {
                let block = block_pixel(&padded_image, pw as usize, ph as usize, i, j);
                let c = self.palette.match_char(&block);
                line.push(c);
                j = j + 1;
            }
            assert(line@ =~= art[i as int]);
            results.push(line);
            i = i + 1;
        }
        assert(results@.map_values(|row: Vec<char>| row@) =~= art);
        results
    }
}

} // verus!
