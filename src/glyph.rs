use vstd::prelude::*;

verus! {

/// Width, in pixels, of the coarse grid that a glyph is reduced to.
pub const GLYPH_WIDTH: u32 = 4;

/// Height, in pixels, of the coarse grid that a glyph is reduced to.
pub const GLYPH_HEIGHT: u32 = 8;

/// Number of cells of the coarse grid (`GLYPH_WIDTH * GLYPH_HEIGHT`).
pub const GLYPH_PIXELS: usize = 32;

/// Grey levels of a glyph reduced to the coarse grid, row by row.
pub type GlyphPixel = [u8; GLYPH_PIXELS];

/// Whether a character takes part in the glyph palette: the space and the
/// printable ASCII characters.
pub open spec fn is_palette_char(c: char) -> bool {
    c == ' ' || ('!' <= c && c <= '~')
}

/// Sum of the squared differences of the first `n` grey levels.
pub open spec fn similarity_upto(p: Seq<u8>, q: Seq<u8>, n: int) -> int
    decreases n,
{
    if n <= 0 {
        0
    } else {
        similarity_upto(p, q, n - 1) + (p[n - 1] - q[n - 1]) * (p[n - 1] - q[n - 1])
    }
}

/// Squared Euclidean distance between two grids of grey levels.
pub open spec fn similarity(p: Seq<u8>, q: Seq<u8>) -> int {
    similarity_upto(p, q, p.len() as int)
}

/// Entry `i` of `glyphs` is the first of those nearest to `pattern`.
pub open spec fn is_nearest(glyphs: Seq<(Seq<u8>, char)>, pattern: Seq<u8>, i: int) -> bool {
    &&& 0 <= i < glyphs.len()
    &&& forall|j: int|
        0 <= j < glyphs.len() ==> similarity(pattern, glyphs[i].0) <= similarity(
            pattern,
            glyphs[j].0,
        )
    &&& forall|j: int| 0 <= j < i ==> similarity(pattern, glyphs[i].0) < similarity(pattern, glyphs[j].0)
}

/// The character of the first glyph nearest to `pattern`.
pub open spec fn nearest_char(glyphs: Seq<(Seq<u8>, char)>, pattern: Seq<u8>) -> char {
    glyphs[choose|i: int| is_nearest(glyphs, pattern, i)].1
}

/// At most one entry is the first of the nearest ones.
pub proof fn lemma_nearest_unique(glyphs: Seq<(Seq<u8>, char)>, pattern: Seq<u8>, i: int, k: int)
    requires
        is_nearest(glyphs, pattern, i),
        is_nearest(glyphs, pattern, k),
    ensures
        i == k,
{
    if i < k {
        assert(similarity(pattern, glyphs[k].0) < similarity(pattern, glyphs[i].0));
    } else if k < i {
        assert(similarity(pattern, glyphs[i].0) < similarity(pattern, glyphs[k].0));
    }
}

/// The entry found by `is_nearest` is the one that `nearest_char` names.
pub proof fn lemma_nearest_char(glyphs: Seq<(Seq<u8>, char)>, pattern: Seq<u8>, i: int)
    requires
        is_nearest(glyphs, pattern, i),
    ensures
        nearest_char(glyphs, pattern) == glyphs[i].1,
{
    let k = choose|k: int| is_nearest(glyphs, pattern, k);
    lemma_nearest_unique(glyphs, pattern, i, k);
}

/// A rasterised glyph: coverage levels, row by row, of a `width` x `height`
/// bitmap.
pub struct GlyphBitmap {
    pub character: char,
    pub width: u32,
    pub height: u32,
    pub coverage: Vec<u8>,
}

impl GlyphBitmap {
    /// The coverage holds one level per pixel.
    pub open spec fn wf(&self) -> bool {
        self.coverage@.len() == self.width as nat * self.height as nat
    }
}

/// Grey levels of a `width` x `height` single-channel image, resampled by
/// `image::imageops::resize` with the Gaussian filter to `new_width` x
/// `new_height`.
pub uninterp spec fn gaussian_resized(
    width: u32,
    height: u32,
    levels: Seq<u8>,
    new_width: u32,
    new_height: u32,
) -> Seq<u8>;

/// Relies on image::imageops::resize (image 0.24) with FilterType::Gaussian on a
/// GrayImage: the result is a `new_width` x `new_height` image, one byte per
/// pixel, and a plain copy when the size is unchanged.
#[verifier::external_body]
fn resize_gaussian(width: u32, height: u32, levels: Vec<u8>, new_width: u32, new_height: u32) -> (r:
    Vec<u8>)
    requires
        width > 0,
        height > 0,
        levels@.len() == width as nat * height as nat,
        new_width as nat * new_height as nat <= usize::MAX,
    ensures
        r@ == gaussian_resized(width, height, levels@, new_width, new_height),
        r@.len() == new_width as nat * new_height as nat,
        width == new_width && height == new_height ==> r@ == levels@,
{
    let image = image::GrayImage::from_raw(width, height, levels).unwrap();
    image::imageops::resize(&image, new_width, new_height, image::imageops::FilterType::Gaussian)
        .into_vec()
}

/// Grey levels of a glyph on the coarse grid. A glyph with an empty bitmap (the
/// space, in most fonts) covers nothing; one already on the grid is kept as it
/// is.
pub open spec fn glyph_levels(b: GlyphBitmap) -> Seq<u8> {
    if b.width == 0 || b.height == 0 {
        Seq::new(GLYPH_PIXELS as nat, |k: int| 0u8)
    } else if b.width == GLYPH_WIDTH && b.height == GLYPH_HEIGHT {
        b.coverage@
    } else {
        gaussian_resized(b.width, b.height, b.coverage@, GLYPH_WIDTH, GLYPH_HEIGHT)
    }
}

/// A table from coarse glyph images to the characters they show.
pub struct GlyphPalette {
    glyph_to_char: Vec<(GlyphPixel, char)>,
}

impl View for GlyphPalette {
    type V = Seq<(Seq<u8>, char)>;

    closed spec fn view(&self) -> Seq<(Seq<u8>, char)> {
        self.glyph_to_char@.map_values(|e: (GlyphPixel, char)| (e.0@, e.1))
    }
}

impl GlyphPalette {
    /// A palette holds at least one glyph, each on the coarse grid.
    pub open spec fn wf(&self) -> bool {
        &&& self@.len() > 0
        &&& forall|i: int| 0 <= i < self@.len() ==> self@[i].0.len() == GLYPH_PIXELS
    }

    /// The characters that a palette is built from, in code order: the space
    /// and the printable ASCII characters.
    pub fn palette_chars() -> (r: Vec<char>)
        ensures
            r@.len() == 95,
            forall|i: int| 0 <= i < 95 ==> r@[i] as u32 == 32 + i,
            forall|i: int| 0 <= i < 95 ==> is_palette_char(#[trigger] r@[i]),
    {
        let mut r: Vec<char> = Vec::new();
        let mut i: u8 = 0;
        while i < 127
            invariant
                i <= 127,
                r@.len() == if i <= 32 { 0 } else { i - 32 },
                forall|k: int| 0 <= k < r@.len() ==> r@[k] as u32 == 32 + k,
                forall|k: int| 0 <= k < r@.len() ==> is_palette_char(#[trigger] r@[k]),
            decreases 127 - i,
        {
            let c = i as char;
            if c == ' ' || ('!' <= c && c <= '~') {
                r.push(c);
            }
            i = i + 1;
        }
        r
    }

    /// Reduces a rasterised glyph to the coarse grid.
    fn get_glyph_pixel(bitmap: &GlyphBitmap) -> (r: GlyphPixel)
        requires
            bitmap.wf(),
        ensures
            r@ == glyph_levels(*bitmap),
    {
        let mut r: GlyphPixel = [0u8; GLYPH_PIXELS];
        if bitmap.width == 0 || bitmap.height == 0 {
            assert(r@ =~= glyph_levels(*bitmap));
            return r;
        }
        let levels = resize_gaussian(
            bitmap.width,
            bitmap.height,
            bitmap.coverage.clone(),
            GLYPH_WIDTH,
            GLYPH_HEIGHT,
        );
        let mut k: usize = 0;
        while k < GLYPH_PIXELS
            invariant
                k <= GLYPH_PIXELS,
                levels@.len() == GLYPH_PIXELS,
                r@.len() == GLYPH_PIXELS,
                forall|j: int| 0 <= j < k ==> r@[j] == levels@[j],
            decreases GLYPH_PIXELS - k,
        {
            r[k] = levels[k];
            k = k + 1;
        }
        assert(r@ =~= levels@);
        r
    }

    /// Builds a palette from the rasterised glyphs of a font, one entry per
    /// glyph, in the order given.
    pub fn from_font(glyphs: &Vec<GlyphBitmap>) -> (r: GlyphPalette)
        requires
            glyphs@.len() > 0,
            forall|i: int| 0 <= i < glyphs@.len() ==> (#[trigger] glyphs@[i]).wf(),
        ensures
            r.wf(),
            r@.len() == glyphs@.len(),
            forall|i: int|
                0 <= i < glyphs@.len() ==> #[trigger] r@[i] == (
                    glyph_levels(glyphs@[i]),
                    glyphs@[i].character,
                ),
    {
        let mut glyph_to_char: Vec<(GlyphPixel, char)> = Vec::new();
        let mut i: usize = 0;
        while i < glyphs.len()
            invariant
                i <= glyphs@.len(),
                glyph_to_char@.len() == i,
                forall|k: int| 0 <= k < glyphs@.len() ==> (#[trigger] glyphs@[k]).wf(),
                forall|k: int|
                    0 <= k < i ==> (#[trigger] glyph_to_char@[k]).0@ == glyph_levels(glyphs@[k])
                        && glyph_to_char@[k].1 == glyphs@[k].character,
            decreases glyphs@.len() - i,
        {
            let pixel = Self::get_glyph_pixel(&glyphs[i]);
            glyph_to_char.push((pixel, glyphs[i].character));
            i = i + 1;
        }
        let r = GlyphPalette { glyph_to_char };
        assert forall|k: int| 0 <= k < r@.len() implies r@[k].0.len() == GLYPH_PIXELS by {
            assert(r@[k].0 == r.glyph_to_char@[k].0@);
        }
        assert forall|k: int| 0 <= k < glyphs@.len() implies #[trigger] r@[k] == (
            glyph_levels(glyphs@[k]),
            glyphs@[k].character,
        ) by {
            assert(r@[k] == (r.glyph_to_char@[k].0@, r.glyph_to_char@[k].1));
        }
        r
    }

    /// Squared Euclidean distance between two coarse glyph images.
    pub fn pixel_similarity(p1: &GlyphPixel, p2: &GlyphPixel) -> (r: u32)
        ensures
            r == similarity(p1@, p2@),
    {
        let mut sum: u32 = 0;
        let mut k: usize = 0;
        while k < GLYPH_PIXELS
            invariant
                k <= GLYPH_PIXELS,
                p1@.len() == GLYPH_PIXELS,
                sum == similarity_upto(p1@, p2@, k as int),
                sum <= k * 65025,
            decreases GLYPH_PIXELS - k,
        {
            let diff: i32 = p1[k] as i32 - p2[k] as i32;
            assert(diff * diff <= 65025) by (nonlinear_arith)
                requires
                    -255 <= diff <= 255,
            ;
            assert(diff * diff >= 0) by (nonlinear_arith);
            sum = sum + (diff * diff) as u32;
            k = k + 1;
        }
        sum
    }

    /// The character whose glyph is nearest to `pattern`; of equally near
    /// glyphs, the first.
    pub fn match_char(&self, pattern: &GlyphPixel) -> (r: char)
        requires
            self.wf(),
        ensures
            r == nearest_char(self@, pattern@),
    {
        let ghost glyphs = self@;
        let mut best_index: usize = 0;
        let mut best_dist: u32 = Self::pixel_similarity(pattern, &self.glyph_to_char[0].0);
        let mut i: usize = 1;
        while i < self.glyph_to_char.len()
            invariant
                glyphs == self@,
                glyphs.len() == self.glyph_to_char@.len(),
                1 <= i <= glyphs.len(),
                best_index < i,
                best_dist == similarity(pattern@, glyphs[best_index as int].0),
                forall|j: int| 0 <= j < i ==> best_dist <= similarity(pattern@, #[trigger] glyphs[j].0),
                forall|j: int| 0 <= j < best_index ==> best_dist < similarity(pattern@, #[trigger] glyphs[j].0),
            decreases glyphs.len() - i,
        {
            assert(glyphs[i as int].0 == self.glyph_to_char@[i as int].0@);
            let dist = Self::pixel_similarity(pattern, &self.glyph_to_char[i].0);
            if dist < best_dist {
                best_dist = dist;
                best_index = i;
            }
            i = i + 1;
        }
        proof {
            assert(is_nearest(glyphs, pattern@, best_index as int));
            lemma_nearest_char(glyphs, pattern@, best_index as int);
        }
        self.glyph_to_char[best_index].1
    }
}

} // verus!
