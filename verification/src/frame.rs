//! Plain data carried between the capture device and the renderer.

use vstd::prelude::*;

verus! {

/// How the bytes of a raw frame encode its pixels.
#[derive(Clone, Copy, Debug, PartialEq, Eq, Hash, Structural)]
pub enum PixelFormat {
    /// Packed 4:2:2, two pixels per four bytes `Y0 U Y1 V`.
    Yuyv,
    /// A full-size luma plane followed by interleaved `U V` pairs.
    Nv12,
    /// One JPEG image per frame.
    Mjpeg,
    /// Three bytes `R G B` per pixel.
    RawRgb,
    /// One luma byte per pixel.
    Gray,
}

/// Width and height of a frame, in pixels.
#[derive(Clone, Copy, Debug, PartialEq, Eq, Hash, Structural)]
pub struct Resolution {
    pub width: u32,
    pub height: u32,
}

impl Resolution {
    /// The number of pixels of a frame of this size.
    pub open spec fn pixels(self) -> int {
        self.width as int * self.height as int
    }

    /// The size of `width` by `height` pixels.
    pub fn new(width: u32, height: u32) -> (resolution: Resolution)
        ensures
            resolution.width == width,
            resolution.height == height,
    {
        Resolution { width, height }
    }

    /// The number of pixels, which always fits 64 bits.
    pub fn pixel_count(&self) -> (count: u64)
        ensures
            count as int == self.pixels(),
    {
        assert(self.width as int * self.height as int <= 0xFFFF_FFFF * 0xFFFF_FFFF)
            by (nonlinear_arith)
            requires
                0 <= self.width as int <= 0xFFFF_FFFF,
                0 <= self.height as int <= 0xFFFF_FFFF,
        ;
        self.width as u64 * self.height as u64
    }
}

/// One buffer as a capture device delivers it.
#[derive(Clone, Debug, PartialEq, Eq)]
pub struct RawFrame {
    pub format: PixelFormat,
    pub resolution: Resolution,
    pub data: Vec<u8>,
}

/// A decoded image: tightly packed `R G B` bytes, row after row.
#[derive(Clone, Debug, PartialEq, Eq)]
pub struct RgbImage {
    pub width: u32,
    pub height: u32,
    pub data: Vec<u8>,
}

impl RgbImage {
    /// The size the image claims.
    pub open spec fn resolution(self) -> Resolution {
        Resolution { width: self.width, height: self.height }
    }

    /// The buffer holds exactly one pixel for each position of the claimed
    /// size, so that a renderer can take it as it is.
    pub open spec fn fills_resolution(self) -> bool {
        self.data@.len() == 3 * self.resolution().pixels()
    }

    /// Tells whether the buffer holds exactly `width * height` pixels.
    pub fn is_complete(&self) -> (complete: bool)
        ensures
            complete == self.fills_resolution(),
    {
        let pixels: u64 = Resolution { width: self.width, height: self.height }.pixel_count();
        let len: usize = self.data.len();
        len % 3 == 0 && (len / 3) as u64 == pixels
    }
}

} // verus!
