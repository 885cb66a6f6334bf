//! The framebuffer console: a picture of 24-bit pixels, blue first.

use vstd::prelude::*;

verus! {

/// The code of the pixel format that this console draws: 24 bits a pixel.
pub const FORMAT_RGB888: u32 = 3;

/// One coloured point.
#[derive(Debug, Clone, Copy, PartialEq, Eq, Structural)]
pub struct Pixel {
    pub x: i32,
    pub y: i32,
    pub r: u8,
    pub g: u8,
    pub b: u8,
}

/// The index of the first byte of the pixel at (`x`, `y`) in a buffer whose
/// rows are `stride` pixels apart.
pub open spec fn pixel_offset(stride: int, x: int, y: int) -> int {
    y * stride * 3 + x * 3
}

/// Whether the pixel's three bytes lie in a buffer of `len` bytes.
pub open spec fn lands(len: int, stride: int, pixel: Pixel) -> bool {
    pixel.x >= 0 && pixel.y >= 0 && pixel_offset(stride, pixel.x as int, pixel.y as int) + 2 < len
}

/// The buffer after one pixel was drawn: blue, green and red at the pixel's
/// place. A pixel that does not lie in the buffer leaves it as it was.
pub open spec fn draw_one(buf: Seq<u8>, stride: int, pixel: Pixel) -> Seq<u8> {
    if lands(buf.len() as int, stride, pixel) {
        let at = pixel_offset(stride, pixel.x as int, pixel.y as int);
        buf.update(at, pixel.b).update(at + 1, pixel.g).update(at + 2, pixel.r)
    } else {
        buf
    }
}

/// The buffer after the first `count` of `pixels` were drawn, in order.
pub open spec fn draw_all(buf: Seq<u8>, stride: int, pixels: Seq<Pixel>, count: nat) -> Seq<u8>
    decreases count,
{
    if count == 0 || count > pixels.len() {
        buf
    } else {
        draw_one(draw_all(buf, stride, pixels, (count - 1) as nat), stride, pixels[count - 1])
    }
}

/// A framebuffer of `height` rows, `width` pixels shown of the `stride`
/// pixels that a row holds.
pub struct FbCon888 {
    width: u32,
    height: u32,
    stride: usize,
    buf: Vec<u8>,
}

impl FbCon888 {
    /// The bytes of the picture.
    pub closed spec fn pixels(&self) -> Seq<u8> {
        self.buf@
    }

    /// The distance of two rows in pixels.
    pub closed spec fn row_stride(&self) -> int {
        self.stride as int
    }

    /// The number of pixels shown of each row.
    pub closed spec fn shown_width(&self) -> int {
        self.width as int
    }

    /// The number of rows.
    pub closed spec fn shown_height(&self) -> int {
        self.height as int
    }

    /// The console over the display that the platform describes. There is
    /// none where the display has another pixel format, or where `buf` is not
    /// of three bytes for each pixel of each row.
    pub fn new(width: u32, height: u32, stride: u32, format: u32, buf: Vec<u8>) -> (console: Option<
        Self,
    >)
        ensures
            console is Some <==> format == FORMAT_RGB888 && buf@.len() == stride * height * 3,
            console is Some ==> console->0.pixels() == buf@ && console->0.row_stride() == stride
                && console->0.shown_width() == width && console->0.shown_height() == height,
    {
        if format != FORMAT_RGB888 {
            return None;
        }
        assert(stride * height <= 0xffff_ffff * 0xffff_ffff) by (nonlinear_arith)
            requires
                0 <= stride <= 0xffff_ffff,
                0 <= height <= 0xffff_ffff,
        ;
        let rows: u128 = stride as u128 * height as u128;
        let size: u128 = rows * 3;
        if buf.len() as u128 != size {
            return None;
        }
        Some(FbCon888 { width, height, stride: stride as usize, buf })
    }

    /// The area that is shown: its corner and its size.
    pub fn bounding_box(&self) -> (area: (i32, i32, u32, u32))
        ensures
            area.0 == 0,
            area.1 == 0,
            area.2 == self.shown_width(),
            area.3 == self.shown_height(),
    {
        (0, 0, self.width, self.height)
    }

    /// The bytes of the picture.
    pub fn as_slice(&self) -> (bytes: &[u8])
        ensures
            bytes@ == self.pixels(),
    {
        self.buf.as_slice()
    }

    /// Where the pixel's bytes start, where they lie in the buffer.
    fn offset_of(&self, pixel: &Pixel) -> (at: Option<usize>)
        ensures
            at is Some <==> lands(self.pixels().len() as int, self.row_stride(), *pixel),
            at is Some ==> at->0 == pixel_offset(self.row_stride(), pixel.x as int, pixel.y as int),
    {
        if pixel.x < 0 || pixel.y < 0 {
            return None;
        }
        let len: usize = self.buf.len();
        let x: u128 = pixel.x as u128;
        let y: u128 = pixel.y as u128;
        let stride: u128 = self.stride as u128;
        assert(y * stride <= 0x7fff_ffff * 0xffff_ffff_ffff_ffff) by (nonlinear_arith)
            requires
                0 <= y <= 0x7fff_ffff,
                0 <= stride <= 0xffff_ffff_ffff_ffff,
        ;
        let at: u128 = y * stride * 3 + x * 3;
        if at + 2 < len as u128 {
            Some(at as usize)
        } else {
            None
        }
    }

    /// Draws the pixels in order. One that does not lie in the buffer is
    /// passed over.
    pub fn draw_iter(&mut self, pixels: &[Pixel])
        ensures
            final(self).row_stride() == old(self).row_stride(),
            final(self).shown_width() == old(self).shown_width(),
            final(self).shown_height() == old(self).shown_height(),
            final(self).pixels() == draw_all(
                old(self).pixels(),
                old(self).row_stride(),
                pixels@,
                pixels@.len(),
            ),
    {
        let mut i: usize = 0;
        while i < pixels.len()
            invariant
                0 <= i <= pixels@.len(),
                self.stride == old(self).stride,
                self.width == old(self).width,
                self.height == old(self).height,
                self.buf@.len() == old(self).buf@.len(),
                self.buf@ == draw_all(old(self).buf@, self.stride as int, pixels@, i as nat),
            decreases pixels@.len() - i,
        {
            let pixel: Pixel = pixels[i];
            let len: usize = self.buf.len();
            match self.offset_of(&pixel) {
                Some(at) => {
                    self.buf.set(at, pixel.b);
                    self.buf.set(at + 1, pixel.g);
                    self.buf.set(at + 2, pixel.r);
                },
                None => {},
            }
            i += 1;
        }
    }
}

} // verus!
