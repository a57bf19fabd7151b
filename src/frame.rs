use vstd::prelude::*;

verus! {

/// Width of the picture in pixels.
pub const WIDTH: u32 = 256;

/// Height of the picture in pixels.
pub const HEIGHT: u32 = 240;

/// Bytes in one RGB24 frame.
pub const FRAME_BYTES: usize = 184320;

/// One RGB24 picture of 256 x 240 pixels, row-major, held in an image buffer.
/// The buffer type of the `image` crate carries a `Pixel` bound that cannot be
/// declared here, so the buffer is held opaquely and read through `frame_bytes`.
#[verifier::external_body]
#[derive(Debug)]
pub struct FrameBuffer {
    image: image::RgbImage,
}

/// The bytes of a frame buffer: red, green and blue of each pixel, row by row.
pub uninterp spec fn frame_bytes(f: FrameBuffer) -> Seq<u8>;

/// Index of the red byte of pixel (`x`, `y`).
pub open spec fn pixel_index(x: int, y: int) -> int {
    3 * (y * WIDTH + x)
}

/// `bytes` with pixel (`x`, `y`) set to `rgb`.
pub open spec fn with_pixel(bytes: Seq<u8>, x: int, y: int, rgb: (u8, u8, u8)) -> Seq<u8> {
    bytes.update(pixel_index(x, y), rgb.0).update(pixel_index(x, y) + 1, rgb.1).update(
        pixel_index(x, y) + 2,
        rgb.2,
    )
}

impl FrameBuffer {
    /// Relies on `image::ImageBuffer::new`: a buffer of width * height * 3
    /// zero bytes for an RGB image.
    #[verifier::external_body]
    pub fn blank() -> (r: FrameBuffer)
        ensures
            frame_bytes(r) == Seq::new(FRAME_BYTES as nat, |i: int| 0u8),
    {
        FrameBuffer { image: image::RgbImage::new(WIDTH, HEIGHT) }
    }

    /// Relies on `image::ImageBuffer::put_pixel`: the three channels of pixel
    /// (x, y) are stored at `3 * (y * width + x)` in the raw buffer.
    #[verifier::external_body]
    pub fn put_pixel(&mut self, x: u32, y: u32, rgb: (u8, u8, u8))
        requires
            x < WIDTH,
            y < HEIGHT,
        ensures
            frame_bytes(*final(self)) == with_pixel(
                frame_bytes(*old(self)),
                x as int,
                y as int,
                rgb,
            ),
    {
        self.image.put_pixel(x, y, image::Rgb([rgb.0, rgb.1, rgb.2]))
    }

    /// Relies on `image::ImageBuffer::as_raw`: the raw channel buffer.
    #[verifier::external_body]
    pub fn bytes(&self) -> (r: &[u8])
        ensures
            r@ == frame_bytes(*self),
    {
        self.image.as_raw().as_slice()
    }
}

} // verus!
