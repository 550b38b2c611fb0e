//! Bitmaps: row-major grids of RGB pixels.

use vstd::prelude::*;
use crate::palette::Rgb;

verus! {

/// Bytes per pixel in a bitmap's buffer.
pub const CHANNELS: usize = 3;

/// A `width` by `height` grid of RGB pixels, row by row from the top left,
/// three bytes per pixel.
#[derive(Debug)]
pub struct Bitmap {
    width: u32,
    height: u32,
    data: Vec<u8>,
}

/// The pixel at column `x`, row `y` of a row-major RGB buffer `width`
/// pixels wide.
pub open spec fn pixel_in(data: Seq<u8>, width: int, x: int, y: int) -> Rgb {
    let at = 3 * (y * width + x);
    Rgb { r: data[at], g: data[at + 1], b: data[at + 2] }
}

impl Bitmap {
    /// The buffer holds exactly three bytes for each of the
    /// `width * height` pixels.
    pub open spec fn well_formed(&self) -> bool {
        &&& self.bytes().len() == 3 * self.spec_width() * self.spec_height()
        &&& 0 <= self.spec_width() <= u32::MAX
        &&& 0 <= self.spec_height() <= u32::MAX
    }

    /// Width in pixels.
    pub closed spec fn spec_width(&self) -> int {
        self.width as int
    }

    /// Height in pixels.
    pub closed spec fn spec_height(&self) -> int {
        self.height as int
    }

    /// The bytes of the bitmap, row-major, three per pixel.
    pub closed spec fn bytes(&self) -> Seq<u8> {
        self.data@
    }

    /// The pixel at column `x`, row `y`.
    pub open spec fn spec_pixel(&self, x: int, y: int) -> Rgb {
        pixel_in(self.bytes(), self.spec_width(), x, y)
    }

    /// Builds a bitmap from its dimensions and its bytes. Returns `None`
    /// exactly when the buffer does not hold three bytes per pixel.
    pub fn new(width: u32, height: u32, data: Vec<u8>) -> (made: Option<Bitmap>)
        ensures
            made is Some <==> data@.len() == 3 * (width as int) * (height as int),
            made matches Some(bitmap) ==> {
                &&& bitmap.well_formed()
                &&& bitmap.spec_width() == width
                &&& bitmap.spec_height() == height
                &&& bitmap.bytes() == data@
            },
    {
        assert((width as int) * (height as int) <= 0xffff_ffff * 0xffff_ffff) by (nonlinear_arith)
            requires
                0 <= width <= 0xffff_ffff,
                0 <= height <= 0xffff_ffff,
        ;
        assert(3 * (width as int) * (height as int) == 3 * ((width as int) * (height as int)))
            by (nonlinear_arith);
        let pixels: u128 = (width as u128) * (height as u128);
        let expected: u128 = 3 * pixels;
        if data.len() as u128 == expected {
            Some(Bitmap { width, height, data })
        } else {
            None
        }
    }

    /// Builds a bitmap from a buffer known to hold three bytes per pixel.
    pub(crate) fn from_parts(width: u32, height: u32, data: Vec<u8>) -> (bitmap: Bitmap)
        requires
            data@.len() == 3 * (width as int) * (height as int),
        ensures
            bitmap.well_formed(),
            bitmap.spec_width() == width,
            bitmap.spec_height() == height,
            bitmap.bytes() == data@,
    {
        Bitmap { width, height, data }
    }

    /// Width in pixels.
    pub fn width(&self) -> (w: u32)
        ensures
            w == self.spec_width(),
    {
        self.width
    }

    /// Height in pixels.
    pub fn height(&self) -> (h: u32)
        ensures
            h == self.spec_height(),
    {
        self.height
    }

    /// The bytes of the bitmap, row-major, three per pixel.
    pub fn as_bytes(&self) -> (data: &Vec<u8>)
        ensures
            data@ == self.bytes(),
    {
        &self.data
    }

    /// Gives the buffer back.
    pub fn into_bytes(self) -> (data: Vec<u8>)
        ensures
            data@ == self.bytes(),
    {
        self.data
    }

    /// Reads the pixel at column `x`, row `y`.
    pub fn pixel(&self, x: u32, y: u32) -> (pixel: Rgb)
        requires
            self.well_formed(),
            x < self.spec_width(),
            y < self.spec_height(),
        ensures
            pixel == self.spec_pixel(x as int, y as int),
    {
        proof {
            lemma_pixel_in_bounds(self.width as int, self.height as int, x as int, y as int);
        }
        let len: usize = self.data.len();
        assert(3 * (y as int * self.width as int + x as int) + 2 < len);
        let row_start: usize = y as usize * self.width as usize;
        let at: usize = 3 * (row_start + x as usize);
        Rgb { r: self.data[at], g: self.data[at + 1], b: self.data[at + 2] }
    }
}

impl Clone for Bitmap {
    /// A bitmap of the same size with the same bytes.
    fn clone(&self) -> (copy: Bitmap)
        ensures
            copy.spec_width() == self.spec_width(),
            copy.spec_height() == self.spec_height(),
            copy.bytes() == self.bytes(),
    {
        let data = self.data.clone();
        assert(data@ =~= self.data@);
        Bitmap { width: self.width, height: self.height, data }
    }
}

/// The three bytes of the pixel at (`x`, `y`) lie inside a buffer of
/// `3 * width * height` bytes.
pub proof fn lemma_pixel_in_bounds(width: int, height: int, x: int, y: int)
    requires
        0 <= x < width,
        0 <= y < height,
    ensures
        0 <= y * width <= y * width + x < width * height,
        0 <= 3 * (y * width + x),
        3 * (y * width + x) + 2 < 3 * width * height,
        width * height <= 3 * width * height,
{
    assert(y * width <= (height - 1) * width) by (nonlinear_arith)
        requires
            0 <= y <= height - 1,
            0 <= width,
    ;
    assert((height - 1) * width == width * height - width) by (nonlinear_arith);
    assert(0 <= y * width) by (nonlinear_arith)
        requires
            0 <= y,
            0 <= width,
    ;
    assert(3 * width * height == 3 * (width * height)) by (nonlinear_arith);
    assert(0 <= width * height) by (nonlinear_arith)
        requires
            0 <= width,
            0 <= height,
    ;
}

} // verus!
