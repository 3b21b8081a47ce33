//! The decoded image, its pixel type, and the addressing of one pixel in the
//! packed channel buffer.
use vstd::prelude::*;

use crate::format::{BitDepth, ColorType};

verus! {

/// What a pixel holds: four channel values and the depth they were read at.
pub struct PixelView {
    pub bit_depth: BitDepth,
    pub r: usize,
    pub g: usize,
    pub b: usize,
    pub a: usize,
}

/// What an image holds: its size, its format tags and its channel bytes.
pub struct ImageView {
    pub width: nat,
    pub height: nat,
    pub color: ColorType,
    pub bit_depth: BitDepth,
    pub pixels: Seq<u8>,
}

/// The pixel handed back for a coordinate off the image, a buffer too short,
/// or a depth that cannot be unpacked.
pub open spec fn sentinel() -> PixelView {
    PixelView { bit_depth: BitDepth::Eight, r: 0, g: 0, b: 0, a: 0 }
}

/// The upper four bits of a byte.
pub open spec fn spec_high_nibble(b: u8) -> usize {
    (b / 16) as usize
}

/// The lower four bits of a byte.
pub open spec fn spec_low_nibble(b: u8) -> usize {
    (b % 16) as usize
}

/// Number of bytes from a pixel's offset on that its channels are read from.
pub open spec fn bytes_read(depth: BitDepth, color: ColorType) -> nat {
    match depth {
        BitDepth::Eight => color.spec_channels(),
        BitDepth::Four => match color {
            ColorType::Rgba | ColorType::Rgb => 2,
            _ => 1,
        },
        _ => 0,
    }
}

/// The channels of a pixel whose bytes start at `off`, for a supported depth.
pub open spec fn unpack(depth: BitDepth, color: ColorType, bytes: Seq<u8>, off: int) -> PixelView {
    let b0 = bytes[off];
    let b1 = bytes[off + 1];
    let b2 = bytes[off + 2];
    let b3 = bytes[off + 3];
    match depth {
        BitDepth::Eight => match color {
            ColorType::Rgba => PixelView {
                bit_depth: depth,
                r: b0 as usize,
                g: b1 as usize,
                b: b2 as usize,
                a: b3 as usize,
            },
            // Alpha is 1 here rather than the opaque 255: callers rely on this value.
            ColorType::Rgb => PixelView {
                bit_depth: depth,
                r: b0 as usize,
                g: b1 as usize,
                b: b2 as usize,
                a: 1,
            },
            ColorType::GrayscaleAlpha => PixelView {
                bit_depth: depth,
                r: b0 as usize,
                g: 0,
                b: 0,
                a: b1 as usize,
            },
            ColorType::Grayscale | ColorType::Indexed => PixelView {
                bit_depth: depth,
                r: b0 as usize,
                g: 0,
                b: 0,
                a: 0,
            },
        },
        BitDepth::Four => match color {
            ColorType::Rgba => PixelView {
                bit_depth: depth,
                r: spec_high_nibble(b0),
                g: spec_low_nibble(b0),
                b: spec_high_nibble(b1),
                a: spec_low_nibble(b1),
            },
            ColorType::Rgb => PixelView {
                bit_depth: depth,
                r: spec_high_nibble(b0),
                g: spec_low_nibble(b0),
                b: spec_high_nibble(b1),
                a: 0,
            },
            ColorType::GrayscaleAlpha => PixelView {
                bit_depth: depth,
                r: spec_high_nibble(b0),
                g: 0,
                b: 0,
                a: spec_low_nibble(b0),
            },
            ColorType::Grayscale | ColorType::Indexed => PixelView {
                bit_depth: depth,
                r: spec_high_nibble(b0),
                g: 0,
                b: 0,
                a: 0,
            },
        },
        _ => sentinel(),
    }
}

impl ImageView {
    /// Byte offset of pixel (x, y): its index in row-major order, times the
    /// channels per pixel, times the bytes per channel (a half for 4 bits),
    /// rounded down.
    pub open spec fn byte_offset(self, x: nat, y: nat) -> nat {
        (y * self.width + x) * self.color.spec_channels() * self.bit_depth.spec_bits() / 8
    }

    /// Whether pixel (x, y) lies on the image and all its bytes in the buffer.
    pub open spec fn readable(self, x: nat, y: nat) -> bool {
        &&& x < self.width
        &&& y < self.height
        &&& self.byte_offset(x, y) + bytes_read(self.bit_depth, self.color) <= self.pixels.len()
    }

    /// The pixel that a query at (x, y) returns.
    pub open spec fn pixel_at(self, x: nat, y: nat) -> PixelView {
        if self.bit_depth.spec_supported() && self.readable(x, y) {
            unpack(self.bit_depth, self.color, self.pixels, self.byte_offset(x, y) as int)
        } else {
            sentinel()
        }
    }
}

/// One pixel, copied out of an image: four channel values and their depth.
#[derive(Debug, Clone, Copy)]
pub struct PixelData {
    bit_depth: BitDepth,
    r: usize,
    g: usize,
    b: usize,
    a: usize,
}

impl View for PixelData {
    type V = PixelView;

    closed spec fn view(&self) -> PixelView {
        PixelView { bit_depth: self.bit_depth, r: self.r, g: self.g, b: self.b, a: self.a }
    }
}

impl PixelData {
    pub fn new(bit_depth: BitDepth, r: usize, g: usize, b: usize, a: usize) -> (p: PixelData)
        ensures
            p@ == (PixelView { bit_depth, r, g, b, a }),
    {
        PixelData { bit_depth, r, g, b, a }
    }

    pub fn r(&self) -> (v: usize)
        ensures
            v == self@.r,
    {
        self.r
    }

    pub fn g(&self) -> (v: usize)
        ensures
            v == self@.g,
    {
        self.g
    }

    pub fn b(&self) -> (v: usize)
        ensures
            v == self@.b,
    {
        self.b
    }

    pub fn a(&self) -> (v: usize)
        ensures
            v == self@.a,
    {
        self.a
    }

    pub fn bit_depth(&self) -> (d: &BitDepth)
        ensures
            *d == self@.bit_depth,
    {
        &self.bit_depth
    }

    pub fn mut_r(&mut self) -> (v: &mut usize)
        ensures
            *v == old(self)@.r,
            final(self)@ == (PixelView { r: *final(v), ..old(self)@ }),
    {
        &mut self.r
    }

    pub fn mut_g(&mut self) -> (v: &mut usize)
        ensures
            *v == old(self)@.g,
            final(self)@ == (PixelView { g: *final(v), ..old(self)@ }),
    {
        &mut self.g
    }

    pub fn mut_b(&mut self) -> (v: &mut usize)
        ensures
            *v == old(self)@.b,
            final(self)@ == (PixelView { b: *final(v), ..old(self)@ }),
    {
        &mut self.b
    }

    pub fn mut_a(&mut self) -> (v: &mut usize)
        ensures
            *v == old(self)@.a,
            final(self)@ == (PixelView { a: *final(v), ..old(self)@ }),
    {
        &mut self.a
    }
}


/// The upper four bits of a byte.
fn high_nibble(b: u8) -> (v: usize)
    ensures
        v == spec_high_nibble(b),
{
    proof {
        assert(b >> 4u8 == b / 16) by (bit_vector);
    }
    (b >> 4u8) as usize
}

/// The lower four bits of a byte.
fn low_nibble(b: u8) -> (v: usize)
    ensures
        v == spec_low_nibble(b),
{
    proof {
        assert(b & 0xfu8 == b % 16) by (bit_vector);
    }
    (b & 0xfu8) as usize
}

/// A decoded image: its size, colour model and bit depth, and the packed
/// channel bytes, row by row. It does not change once made.
pub struct ImageData {
    width: usize,
    height: usize,
    color: ColorType,
    bit_depth: BitDepth,
    pixels: Vec<u8>,
}

impl View for ImageData {
    type V = ImageView;

    closed spec fn view(&self) -> ImageView {
        ImageView {
            width: self.width as nat,
            height: self.height as nat,
            color: self.color,
            bit_depth: self.bit_depth,
            pixels: self.pixels@,
        }
    }
}

impl ImageData {
    /// Takes the buffer as it is: nothing is checked until a pixel is asked for.
    pub fn new(width: usize, height: usize, color: ColorType, bit_depth: BitDepth, pixels: Vec<u8>) -> (img: ImageData)
        ensures
            img@ == (ImageView {
                width: width as nat,
                height: height as nat,
                color,
                bit_depth,
                pixels: pixels@,
            }),
    {
        ImageData { width, height, color, bit_depth, pixels }
    }

    /// An image from a decoder's output buffer, of which only the first
    /// `frame_size` bytes belong to the frame.
    pub fn from_frame(
        width: usize,
        height: usize,
        color: ColorType,
        bit_depth: BitDepth,
        buffer: Vec<u8>,
        frame_size: usize,
    ) -> (img: ImageData)
        ensures
            img@ == (ImageView {
                width: width as nat,
                height: height as nat,
                color,
                bit_depth,
                pixels: if frame_size <= buffer.len() {
                    buffer@.subrange(0, frame_size as int)
                } else {
                    buffer@
                },
            }),
    {
        let mut pixels = buffer;
        pixels.truncate(frame_size);
        ImageData::new(width, height, color, bit_depth, pixels)
    }

    pub fn width(&self) -> (w: usize)
        ensures
            w == self@.width,
    {
        self.width
    }

    pub fn height(&self) -> (h: usize)
        ensures
            h == self@.height,
    {
        self.height
    }

    /// The offset of pixel (x, y) where the depth is supported and the pixel
    /// can be read; `None` where not.
    fn readable_offset(&self, x: usize, y: usize) -> (r: Option<usize>)
        ensures
            match r {
                Some(off) => self@.bit_depth.spec_supported() && self@.readable(x as nat, y as nat)
                    && off == self@.byte_offset(x as nat, y as nat),
                None => !self@.bit_depth.spec_supported() || !self@.readable(x as nat, y as nat),
            },
    {
        if x >= self.width || y >= self.height {
            return None;
        }
        let w: u128 = self.width as u128;
        let row: u128 = y as u128;
        let col: u128 = x as u128;
        proof {
            let m: int = 0xffff_ffff_ffff_ffff;
            assert(row * w <= m * m) by (nonlinear_arith)
                requires
                    0 <= row <= m,
                    0 <= w <= m,
            ;
        }
        let index: u128 = row * w + col;
        let channels: u128 = self.color.channels() as u128;
        let len: u128 = self.pixels.len() as u128;
        let ghost offset = self@.byte_offset(x as nat, y as nat);
        let ghost bits = self@.bit_depth.spec_bits();
        assert(offset == index * channels * bits / 8);
        let product: u128 = match index.checked_mul(channels) {
            Some(v) => v,
            None => {
                proof {
                    if bits == 4 || bits == 8 {
                        assert(index * channels * bits / 8 >= index * channels / 2) by (nonlinear_arith)
                            requires
                                bits == 4 || bits == 8,
                                index * channels >= 0,
                        ;
                    }
                }
                return None;
            },
        };
        let (offset_exec, needed): (u128, u128) = match self.bit_depth {
            BitDepth::Eight => {
                assert(product * 8 / 8 == product) by (nonlinear_arith);
                (product, channels)
            },
            BitDepth::Four => {
                assert(product * 4 / 8 == product / 2) by (nonlinear_arith);
                let needed: u128 = match self.color {
                    ColorType::Rgba | ColorType::Rgb => 2,
                    _ => 1,
                };
                (product / 2, needed)
            },
            _ => {
                return None;
            },
        };
        if needed > len || offset_exec > len - needed {
            None
        } else {
            Some(offset_exec as usize)
        }
    }

    /// The pixel at (x, y). Off the image, where the buffer ends before the
    /// pixel's bytes, and at a depth other than four or eight bits, the answer
    /// is the zero pixel at eight bits.
    pub fn get_pixel_at(&self, x: usize, y: usize) -> (p: PixelData)
        ensures
            p@ == self@.pixel_at(x as nat, y as nat),
    {
        let off = match self.readable_offset(x, y) {
            Some(off) => off,
            None => {
                return PixelData::new(BitDepth::Eight, 0, 0, 0, 0);
            },
        };
        let px = &self.pixels;
        let depth = self.bit_depth;
        assert(off + bytes_read(depth, self.color) <= px.len());
        match depth {
            BitDepth::Eight => match self.color {
                ColorType::Rgba => PixelData::new(
                    depth,
                    px[off] as usize,
                    px[off + 1] as usize,
                    px[off + 2] as usize,
                    px[off + 3] as usize,
                ),
                ColorType::Rgb => PixelData::new(
                    depth,
                    px[off] as usize,
                    px[off + 1] as usize,
                    px[off + 2] as usize,
                    1,
                ),
                ColorType::GrayscaleAlpha => PixelData::new(
                    depth,
                    px[off] as usize,
                    0,
                    0,
                    px[off + 1] as usize,
                ),
                ColorType::Grayscale | ColorType::Indexed => PixelData::new(
                    depth,
                    px[off] as usize,
                    0,
                    0,
                    0,
                ),
            },
            BitDepth::Four => match self.color {
                ColorType::Rgba => PixelData::new(
                    depth,
                    high_nibble(px[off]),
                    low_nibble(px[off]),
                    high_nibble(px[off + 1]),
                    low_nibble(px[off + 1]),
                ),
                ColorType::Rgb => PixelData::new(
                    depth,
                    high_nibble(px[off]),
                    low_nibble(px[off]),
                    high_nibble(px[off + 1]),
                    0,
                ),
                ColorType::GrayscaleAlpha => PixelData::new(
                    depth,
                    high_nibble(px[off]),
                    0,
                    0,
                    low_nibble(px[off]),
                ),
                ColorType::Grayscale | ColorType::Indexed => PixelData::new(
                    depth,
                    high_nibble(px[off]),
                    0,
                    0,
                    0,
                ),
            },
            _ => PixelData::new(BitDepth::Eight, 0, 0, 0, 0),
        }
    }
}

} // verus!
