//! The decoded raster image and its mathematical model.

use vstd::prelude::*;

verus! {

/// The mathematical content of a decoded raster image: its dimensions and its
/// RGBA8 sample buffer, four bytes per pixel in row-major order.
pub ghost struct BitmapView {
    pub width: nat,
    pub height: nat,
    pub pixels: Seq<u8>,
}

impl BitmapView {
    /// A bitmap is well formed when the sample buffer holds exactly four
    /// bytes for every pixel.
    pub open spec fn wf(self) -> bool {
        self.pixels.len() == self.width * self.height * 4
    }
}

/// A decoded raster image: width, height and an RGBA8 sample buffer of
/// exactly `width * height * 4` bytes. Immutable once built.
pub struct Bitmap {
    width: u32,
    height: u32,
    pixels: Vec<u8>,
}

impl View for Bitmap {
    type V = BitmapView;

    closed spec fn view(&self) -> BitmapView {
        BitmapView {
            width: self.width as nat,
            height: self.height as nat,
            pixels: self.pixels@,
        }
    }
}

impl Bitmap {
    /// Well-formedness of the sample buffer; every constructor establishes it.
    pub open spec fn wf(self) -> bool {
        self@.wf()
    }

    pub fn new(width: u32, height: u32, pixels: Vec<u8>) -> (b: Bitmap)
        requires
            pixels@.len() == width * height * 4,
        ensures
            b@ == (BitmapView {
                width: width as nat,
                height: height as nat,
                pixels: pixels@,
            }),
            b.wf(),
    {
        Bitmap { width, height, pixels }
    }

    pub fn width(&self) -> (w: u32)
        ensures
            w as nat == self@.width,
    {
        self.width
    }

    pub fn height(&self) -> (h: u32)
        ensures
            h as nat == self@.height,
    {
        self.height
    }

    pub fn pixels(&self) -> (p: &Vec<u8>)
        ensures
            p@ == self@.pixels,
    {
        &self.pixels
    }
}

} // verus!
