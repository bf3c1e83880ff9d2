use vstd::prelude::*;

use crate::render_spec::ImageSize;

verus! {

/// The bytes of a run of RGB pixels, three per pixel, in order.
pub open spec fn rgb_bytes(pixels: Seq<[u8; 3]>) -> Seq<u8> {
    Seq::new((pixels.len() * 3) as nat, |i: int| pixels[i / 3]@[i % 3])
}

/// Offset of the first byte of row `y` in the flat buffer of an image of
/// the given size.
pub open spec fn row_start(size: ImageSize, y: int) -> int {
    y * size.width * 3
}

/// Offset of the first byte of pixel (`x`, `y`).
pub open spec fn pixel_start(size: ImageSize, x: int, y: int) -> int {
    (y * size.width + x) * 3
}

/// The flat contents `bytes` of an image of the given size, with row `y`
/// replaced by `row`.
pub open spec fn with_row(bytes: Seq<u8>, size: ImageSize, y: int, row: Seq<[u8; 3]>) -> Seq<u8> {
    bytes.subrange(0, row_start(size, y)) + rgb_bytes(row) + bytes.subrange(
        row_start(size, y + 1),
        bytes.len() as int,
    )
}

/// Rows are disjoint: writing two different rows gives the same image in
/// either order, so the order in which workers finish does not matter.
pub proof fn lemma_rows_commute(
    bytes: Seq<u8>,
    size: ImageSize,
    y1: int,
    row1: Seq<[u8; 3]>,
    y2: int,
    row2: Seq<[u8; 3]>,
)
    requires
        bytes.len() == size.pixel_count() * 3,
        0 <= y1 < size.height,
        0 <= y2 < size.height,
        y1 != y2,
        row1.len() == size.width,
        row2.len() == size.width,
    ensures
        with_row(with_row(bytes, size, y1, row1), size, y2, row2) == with_row(
            with_row(bytes, size, y2, row2),
            size,
            y1,
            row1,
        ),
{
    lemma_row_bounds(size, y1);
    lemma_row_bounds(size, y2);
    lemma_rows_apart(size, y1, y2);
    lemma_rows_apart(size, y2, y1);
    let a = with_row(with_row(bytes, size, y1, row1), size, y2, row2);
    let b = with_row(with_row(bytes, size, y2, row2), size, y1, row1);
    assert(a =~= b);
}

/// Row `y` lies within the image.
proof fn lemma_row_bounds(size: ImageSize, y: int)
    requires
        0 <= y < size.height,
    ensures
        0 <= row_start(size, y),
        row_start(size, y + 1) == row_start(size, y) + size.width * 3,
        row_start(size, y + 1) <= size.pixel_count() * 3,
{
    let w = size.width as int;
    let h = size.height as int;
    assert(0 <= y * w * 3 && (y + 1) * w * 3 == y * w * 3 + w * 3 && (y + 1) * w * 3 <= h * w * 3)
        by (nonlinear_arith)
        requires
            0 <= y < h,
            0 <= w,
    ;
    assert(h * w == w * h) by (nonlinear_arith);
}

/// A lower row ends before a higher one starts.
proof fn lemma_rows_apart(size: ImageSize, y1: int, y2: int)
    ensures
        y1 < y2 ==> row_start(size, y1 + 1) <= row_start(size, y2),
{
    let w = size.width as int;
    assert(y1 < y2 ==> (y1 + 1) * w * 3 <= y2 * w * 3) by (nonlinear_arith)
        requires
            0 <= w,
    ;
}

/// A dense image of 8-bit RGB pixels, stored row by row from the top, three
/// bytes per pixel.
pub struct PixelBuffer {
    size: ImageSize,
    data: Vec<u8>,
}

impl PixelBuffer {
    /// Size of the image.
    pub closed spec fn spec_size(&self) -> ImageSize {
        self.size
    }

    /// The flat contents of the image.
    pub closed spec fn bytes(&self) -> Seq<u8> {
        self.data@
    }

    /// The size is valid and the contents hold three bytes per pixel.
    pub open spec fn wf(&self) -> bool {
        &&& self.spec_size().is_valid()
        &&& self.bytes().len() == self.spec_size().pixel_count() * 3
    }

    /// A black image of the given size. There is none when a side is empty or
    /// when the image does not fit in memory.
    pub fn new(size: ImageSize) -> (r: Option<PixelBuffer>)
        ensures
            r is None <==> !size.is_valid() || size.pixel_count() * 3 > usize::MAX,
            r matches Some(b) ==> {
                &&& b.wf()
                &&& b.spec_size() == size
                &&& forall|i: int| 0 <= i < b.bytes().len() ==> b.bytes()[i] == 0
            },
    {
        if size.width == 0 || size.height == 0 {
            return None;
        }
        let w = size.width as u128;
        let h = size.height as u128;
        assert(w * h <= 0xffff_ffffu128 * 0xffff_ffffu128) by (nonlinear_arith)
            requires
                w <= 0xffff_ffffu128,
                h <= 0xffff_ffffu128,
        ;
        let n: u128 = w * h * 3;
        if n > usize::MAX as u128 {
            return None;
        }
        let data: Vec<u8> = vec![0u8; n as usize];
        Some(PixelBuffer { size, data })
    }

    /// An image of the given size over existing contents. There is none when a
    /// side is empty or the contents do not hold exactly three bytes per pixel.
    pub fn from_raw(size: ImageSize, data: Vec<u8>) -> (r: Option<PixelBuffer>)
        ensures
            r is None <==> !size.is_valid() || data@.len() != size.pixel_count() * 3,
            r matches Some(b) ==> b.wf() && b.spec_size() == size && b.bytes() == data@,
    {
        if size.width == 0 || size.height == 0 {
            return None;
        }
        let w = size.width as u128;
        let h = size.height as u128;
        assert(w * h <= 0xffff_ffffu128 * 0xffff_ffffu128) by (nonlinear_arith)
            requires
                w <= 0xffff_ffffu128,
                h <= 0xffff_ffffu128,
        ;
        if data.len() as u128 != w * h * 3 {
            return None;
        }
        Some(PixelBuffer { size, data })
    }

    /// Size of the image.
    pub fn size(&self) -> (r: ImageSize)
        ensures
            r == self.spec_size(),
    {
        self.size
    }

    /// The flat contents of the image.
    pub fn as_bytes(&self) -> (r: &Vec<u8>)
        ensures
            r@ == self.bytes(),
    {
        &self.data
    }

    /// Hands the flat contents over.
    pub fn into_raw(self) -> (r: Vec<u8>)
        ensures
            r@ == self.bytes(),
    {
        self.data
    }

    /// The colour of pixel (`x`, `y`).
    pub fn pixel(&self, x: u32, y: u32) -> (r: [u8; 3])
        requires
            self.wf(),
            x < self.spec_size().width,
            y < self.spec_size().height,
        ensures
            forall|c: int|
                0 <= c < 3 ==> r@[c] == self.bytes()[pixel_start(self.spec_size(), x as int, y as int) + c],
    {
        let w = self.size.width as usize;
        let h = self.size.height as usize;
        let len = self.data.len();
        proof {
            assert((y * w + x) * 3 + 3 <= h * w * 3 && y * w <= h * w) by (nonlinear_arith)
                requires
                    x < w,
                    y < h,
            ;
        }
        let start = (y as usize * w + x as usize) * 3;
        [self.data[start], self.data[start + 1], self.data[start + 2]]
    }

    /// Writes row `y` of the image; the rest of the image is left as it was.
    pub fn put_row(&mut self, y: u32, row: &Vec<[u8; 3]>)
        requires
            old(self).wf(),
            y < old(self).spec_size().height,
            row@.len() == old(self).spec_size().width,
        ensures
            final(self).wf(),
            final(self).spec_size() == old(self).spec_size(),
            final(self).bytes() == with_row(old(self).bytes(), old(self).spec_size(), y as int, row@),
    {
        let ghost before = self.data@;
        let w = self.size.width as usize;
        let h = self.size.height as usize;
        let len = self.data.len();
        proof {
            assert(y * w * 3 + w * 3 <= h * w * 3 && y * w <= h * w) by (nonlinear_arith)
                requires
                    y < h,
            ;
            assert(h * w * 3 == len) by (nonlinear_arith)
                requires
                    len == w * h * 3,
            ;
            assert((y + 1) * w * 3 == y * w * 3 + w * 3) by (nonlinear_arith);
        }
        let start = y as usize * w * 3;
        let mut x: usize = 0;
        while x < w
            invariant
                self.size == old(self).spec_size(),
                w == self.size.width,
                row@.len() == w,
                before == old(self).bytes(),
                start + w * 3 <= before.len(),
                before.len() <= usize::MAX,
                self.data@.len() == before.len(),
                0 <= x <= w,
                forall|i: int| 0 <= i < start ==> self.data@[i] == before[i],
                forall|i: int| start + x * 3 <= i < before.len() ==> self.data@[i] == before[i],
                forall|i: int|
                    start <= i < start + x * 3 ==> #[trigger] self.data@[i] == row@[(i - start) / 3]@[(
                        i - start) % 3],
            decreases w - x,
        {
            let px = row[x];
            let at = start + x * 3;
            self.data.set(at, px[0]);
            self.data.set(at + 1, px[1]);
            self.data.set(at + 2, px[2]);
            x = x + 1;
        }
        assert(self.data@ =~= before.subrange(0, start as int) + rgb_bytes(row@) + before.subrange(
            start + w * 3,
            before.len() as int,
        ));
    }
}

} // verus!
