//! RGBA bitmaps: a width, a height and one pixel per coordinate, row by row.

use vstd::prelude::*;

verus! {

/// What a bitmap is: its dimensions and its pixels in row-major order, each
/// pixel as (red, green, blue, alpha).
pub ghost struct BitmapView {
    pub width: nat,
    pub height: nat,
    pub pixels: Seq<(u8, u8, u8, u8)>,
}

impl BitmapView {
    /// The pixel count matches the dimensions.
    pub open spec fn wf(self) -> bool {
        self.pixels.len() == self.width * self.height
    }

    /// The pixel at column `x` of row `y`.
    pub open spec fn at(self, x: nat, y: nat) -> (u8, u8, u8, u8) {
        self.pixels[(y * self.width + x) as int]
    }

    /// The bytes of the bitmap: four per pixel, in the order red, green,
    /// blue, alpha.
    pub open spec fn bytes(self) -> Seq<u8> {
        Seq::new(
            4 * self.pixels.len(),
            |i: int|
                {
                    let p = self.pixels[i / 4];
                    if i % 4 == 0 {
                        p.0
                    } else if i % 4 == 1 {
                        p.1
                    } else if i % 4 == 2 {
                        p.2
                    } else {
                        p.3
                    }
                },
        )
    }
}

/// The fully transparent bitmap of the given dimensions.
pub open spec fn blank(width: nat, height: nat) -> BitmapView {
    BitmapView { width, height, pixels: Seq::new(width * height, |i: int| (0u8, 0u8, 0u8, 0u8)) }
}

/// The bitmap of the given dimensions whose bytes are `data`.
pub open spec fn of_bytes(width: nat, height: nat, data: Seq<u8>) -> BitmapView {
    BitmapView {
        width,
        height,
        pixels: Seq::new(
            width * height,
            |i: int| (data[4 * i], data[4 * i + 1], data[4 * i + 2], data[4 * i + 3]),
        ),
    }
}

/// An RGBA bitmap.
#[derive(Debug, Clone, PartialEq, Eq)]
pub struct Bitmap {
    width: u32,
    height: u32,
    pixels: Vec<(u8, u8, u8, u8)>,
}

impl View for Bitmap {
    type V = BitmapView;

    closed spec fn view(&self) -> BitmapView {
        BitmapView {
            width: self.width as nat,
            height: self.height as nat,
            pixels: self.pixels@,
        }
    }
}

impl Bitmap {
    /// The bitmap holds one pixel for each coordinate, and its bytes can be
    /// counted in a machine word.
    pub open spec fn wf(&self) -> bool {
        &&& self@.wf()
        &&& 4 * self@.pixels.len() <= usize::MAX
    }

    /// A fully transparent bitmap.
    pub fn new(width: u32, height: u32) -> (r: Bitmap)
        requires
            4 * (width * height) <= usize::MAX,
        ensures
            r.wf(),
            r@ == blank(width as nat, height as nat),
    {
        assert(width * height <= 4 * (width * height)) by (nonlinear_arith);
        let count = width as usize * height as usize;
        let mut pixels: Vec<(u8, u8, u8, u8)> = Vec::new();
        let mut i: usize = 0;
        while i < count
            invariant
                i <= count,
                pixels@.len() == i,
                forall|j: int| 0 <= j < i ==> pixels@[j] == (0u8, 0u8, 0u8, 0u8),
            decreases count - i,
        {
            pixels.push((0, 0, 0, 0));
            i += 1;
        }
        assert(pixels@ =~= blank(width as nat, height as nat).pixels);
        Bitmap { width, height, pixels }
    }

    /// The number of columns.
    pub fn width(&self) -> (w: u32)
        ensures
            w == self@.width,
    {
        self.width
    }

    /// The number of rows.
    pub fn height(&self) -> (h: u32)
        ensures
            h == self@.height,
    {
        self.height
    }

    /// Reads the pixel at column `x` of row `y`.
    pub fn get_pixel(&self, x: u32, y: u32) -> (p: (u8, u8, u8, u8))
        requires
            self.wf(),
            x < self@.width,
            y < self@.height,
        ensures
            p == self@.at(x as nat, y as nat),
    {
        proof {
            lemma_index_in_range(x as nat, y as nat, self.width as nat, self.height as nat);
            assert(self.pixels@.len() == self.width as nat * self.height as nat);
            assert(self.pixels.len() == self.pixels@.len());
        }
        self.pixels[y as usize * self.width as usize + x as usize]
    }

    /// Writes the pixel at column `x` of row `y`.
    pub fn put_pixel(&mut self, x: u32, y: u32, p: (u8, u8, u8, u8))
        requires
            old(self).wf(),
            x < old(self)@.width,
            y < old(self)@.height,
        ensures
            final(self).wf(),
            final(self)@.width == old(self)@.width,
            final(self)@.height == old(self)@.height,
            final(self)@.pixels == old(self)@.pixels.update(
                y * old(self)@.width + x,
                p,
            ),
    {
        proof {
            lemma_index_in_range(x as nat, y as nat, self.width as nat, self.height as nat);
            assert(self.pixels@.len() == self.width as nat * self.height as nat);
            assert(self.pixels.len() == self.pixels@.len());
        }
        let i = y as usize * self.width as usize + x as usize;
        self.pixels.set(i, p);
    }
}

impl Bitmap {
    /// The bitmap of the given dimensions over the bytes `data`, four per
    /// pixel and row by row; `None` unless `data` holds exactly that many.
    pub fn from_raw(width: u32, height: u32, data: Vec<u8>) -> (r: Option<Bitmap>)
        ensures
            r is Some <==> data@.len() == 4 * (width * height),
            r matches Some(b) ==> b.wf() && b@ == of_bytes(width as nat, height as nat, data@),
    {
        assert(width as nat * height as nat <= 0xffff_ffff * 0xffff_ffff) by (nonlinear_arith)
            requires
                width <= 0xffff_ffff,
                height <= 0xffff_ffff,
        ;
        let wanted: u128 = 4 * (width as u128 * height as u128);
        if data.len() as u128 != wanted {
            return None;
        }
        assert(data.len() == data@.len());
        let count: usize = data.len() / 4;
        let mut pixels: Vec<(u8, u8, u8, u8)> = Vec::new();
        let mut i: usize = 0;
        while i < count
            invariant
                i <= count,
                4 * count == data@.len(),
                data@.len() <= usize::MAX,
                pixels@.len() == i,
                forall|j: int|
                    0 <= j < i ==> pixels@[j] == (
                        data@[4 * j],
                        data@[4 * j + 1],
                        data@[4 * j + 2],
                        data@[4 * j + 3],
                    ),
            decreases count - i,
        {
            pixels.push((data[4 * i], data[4 * i + 1], data[4 * i + 2], data[4 * i + 3]));
            i += 1;
        }
        assert(pixels@ =~= of_bytes(width as nat, height as nat, data@).pixels);
        Some(Bitmap { width, height, pixels })
    }

    /// The number of pixels.
    pub fn len(&self) -> (n: usize)
        ensures
            n == self@.pixels.len(),
    {
        self.pixels.len()
    }

    /// Reads the pixel at row-major index `i`.
    pub fn pixel(&self, i: usize) -> (p: (u8, u8, u8, u8))
        requires
            i < self@.pixels.len(),
        ensures
            p == self@.pixels[i as int],
    {
        self.pixels[i]
    }

    /// Writes the pixel at row-major index `i`.
    pub fn set_pixel(&mut self, i: usize, p: (u8, u8, u8, u8))
        requires
            i < old(self)@.pixels.len(),
        ensures
            final(self)@.width == old(self)@.width,
            final(self)@.height == old(self)@.height,
            final(self)@.pixels == old(self)@.pixels.update(i as int, p),
    {
        self.pixels.set(i, p);
    }

    /// The bytes of the bitmap, four per pixel and row by row.
    pub fn to_raw(&self) -> (data: Vec<u8>)
        requires
            self.wf(),
        ensures
            data@ == self@.bytes(),
    {
        let mut data: Vec<u8> = Vec::new();
        let n = self.pixels.len();
        let mut i: usize = 0;
        while i < n
            invariant
                i <= n,
                n == self.pixels@.len(),
                data@.len() == 4 * i,
                forall|j: int| 0 <= j < 4 * i ==> data@[j] == self@.bytes()[j],
            decreases n - i,
        {
            let p = self.pixels[i];
            data.push(p.0);
            data.push(p.1);
            data.push(p.2);
            data.push(p.3);
            i += 1;
        }
        assert(data@ =~= self@.bytes());
        data
    }
}

/// A coordinate inside the dimensions has its row-major index inside the
/// pixel count.
pub proof fn lemma_index_in_range(x: nat, y: nat, width: nat, height: nat)
    requires
        x < width,
        y < height,
    ensures
        y * width + x < width * height,
        y * width <= y * width + x,
{
    assert(y * width + x < width * height) by (nonlinear_arith)
        requires
            x < width,
            y < height,
    ;
}

} // verus!
