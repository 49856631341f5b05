use vstd::prelude::*;

verus! {

/// An RGBA image with 8 bits per channel, stored row by row, four bytes per pixel.
pub struct Raster {
    pub width: u32,
    pub height: u32,
    pub pixels: Vec<u8>,
}

/// The four bytes of pixel `(x, y)` in a row-major RGBA buffer of the given width.
pub open spec fn pixel_at(pixels: Seq<u8>, width: int, x: int, y: int) -> Seq<u8> {
    let start = 4 * (y * width + x);
    pixels.subrange(start, start + 4)
}

/// The alpha channel of an RGBA pixel.
pub open spec fn alpha(p: Seq<u8>) -> u8 {
    p[3]
}

/// Opaque black.
pub open spec fn dark_pixel() -> Seq<u8> {
    seq![0u8, 0u8, 0u8, 255u8]
}

/// Opaque white.
pub open spec fn light_pixel() -> Seq<u8> {
    seq![255u8, 255u8, 255u8, 255u8]
}

/// A raster of `width * height` pixels.
pub open spec fn raster_wf(width: u32, height: u32, pixels: Seq<u8>) -> bool {
    pixels.len() == 4 * (width as int) * (height as int)
}

impl Raster {
    /// The buffer holds exactly one RGBA pixel per position.
    pub open spec fn wf(&self) -> bool {
        raster_wf(self.width, self.height, self.pixels@)
    }

    /// The pixel at `(x, y)`.
    pub open spec fn pixel(&self, x: int, y: int) -> Seq<u8> {
        pixel_at(self.pixels@, self.width as int, x, y)
    }

    /// Whether `(x, y)` lies inside the raster.
    pub open spec fn contains(&self, x: int, y: int) -> bool {
        0 <= x < self.width && 0 <= y < self.height
    }

}

} // verus!
