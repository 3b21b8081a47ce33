//! The two format tags that decide how a pixel is laid out in the buffer.
use vstd::prelude::*;

verus! {

/// Which channels a pixel stores, and in which order.
#[derive(Debug, Clone, Copy, PartialEq, Eq, Structural)]
pub enum ColorType {
    Grayscale,
    Rgb,
    Indexed,
    GrayscaleAlpha,
    Rgba,
}

/// How many bits each channel of a pixel takes.
#[derive(Debug, Clone, Copy, PartialEq, Eq, Structural)]
pub enum BitDepth {
    One,
    Two,
    Four,
    Eight,
    Sixteen,
}

impl ColorType {
    /// Number of channels a pixel of this colour model stores.
    pub open spec fn spec_channels(self) -> nat {
        match self {
            ColorType::Rgba => 4,
            ColorType::Rgb => 3,
            ColorType::GrayscaleAlpha => 2,
            ColorType::Grayscale => 1,
            ColorType::Indexed => 1,
        }
    }

    pub fn channels(&self) -> (n: usize)
        ensures
            n == self.spec_channels(),
    {
        match self {
            ColorType::Rgba => 4,
            ColorType::Rgb => 3,
            ColorType::GrayscaleAlpha => 2,
            ColorType::Grayscale => 1,
            ColorType::Indexed => 1,
        }
    }
}

impl BitDepth {
    /// Number of bits per channel.
    pub open spec fn spec_bits(self) -> nat {
        match self {
            BitDepth::One => 1,
            BitDepth::Two => 2,
            BitDepth::Four => 4,
            BitDepth::Eight => 8,
            BitDepth::Sixteen => 16,
        }
    }

    /// Whether pixels of this depth can be unpacked.
    pub open spec fn spec_supported(self) -> bool {
        self is Four || self is Eight
    }
}

} // verus!
