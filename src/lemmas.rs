//! What holds of every query, stated over the image model.
use vstd::prelude::*;

use crate::format::{BitDepth, ColorType};
use crate::image::{sentinel, ImageView, PixelView};

verus! {

/// A pixel on the image has a row-major index below `width * height`, so the
/// `channels` bytes that start at `channels` times that index end within
/// `channels * width * height` bytes.
proof fn lemma_index_in_image(width: nat, height: nat, x: nat, y: nat, channels: nat)
    requires
        x < width,
        y < height,
    ensures
        (y * width + x) * channels + channels <= channels * width * height,
{
    assert((y * width + x) * channels + channels <= channels * width * height) by (nonlinear_arith)
        requires
            x < width,
            y < height,
    ;
}

/// In an 8-bit RGBA image whose byte `i` is `i mod 256`, the pixel at (x, y)
/// holds the four values that follow offset `4 * (y * width + x)`.
pub proof fn lemma_rgba8_counting_pattern(img: ImageView, x: nat, y: nat)
    requires
        img.bit_depth == BitDepth::Eight,
        img.color == ColorType::Rgba,
        img.pixels.len() == 4 * img.width * img.height,
        forall|i: int| 0 <= i < img.pixels.len() ==> img.pixels[i] == i % 256,
        x < img.width,
        y < img.height,
    ensures
        ({
            let o = 4 * (y * img.width + x);
            img.pixel_at(x, y) == (PixelView {
                bit_depth: BitDepth::Eight,
                r: (o % 256) as usize,
                g: ((o + 1) % 256) as usize,
                b: ((o + 2) % 256) as usize,
                a: ((o + 3) % 256) as usize,
            })
        }),
{
    let index = y * img.width + x;
    lemma_index_in_image(img.width, img.height, x, y, 4);
    assert(index * 4 * 8 / 8 == 4 * index) by (nonlinear_arith);
    assert(img.byte_offset(x, y) == 4 * index);
    assert(img.readable(x, y));
}

/// In an 8-bit grayscale image green, blue and alpha are always 0; red is the
/// byte stored for the pixel where it can be read, and 0 elsewhere.
pub proof fn lemma_gray8_red_only(img: ImageView, x: nat, y: nat)
    requires
        img.bit_depth == BitDepth::Eight,
        img.color == ColorType::Grayscale,
    ensures
        img.pixel_at(x, y).g == 0,
        img.pixel_at(x, y).b == 0,
        img.pixel_at(x, y).a == 0,
        img.readable(x, y) ==> img.pixel_at(x, y).r == img.pixels[(y * img.width + x) as int],
        !img.readable(x, y) ==> img.pixel_at(x, y).r == 0,
{
    let index = y * img.width + x;
    assert(index * 1 * 8 / 8 == index) by (nonlinear_arith);
}

/// In an 8-bit RGB image whose buffer holds every pixel, alpha is 1 at every
/// coordinate on the image, whatever the bytes are.
pub proof fn lemma_rgb8_alpha_is_one(img: ImageView, x: nat, y: nat)
    requires
        img.bit_depth == BitDepth::Eight,
        img.color == ColorType::Rgb,
        img.pixels.len() >= 3 * img.width * img.height,
        x < img.width,
        y < img.height,
    ensures
        img.pixel_at(x, y).a == 1,
{
    let index = y * img.width + x;
    lemma_index_in_image(img.width, img.height, x, y, 3);
    assert(index * 3 * 8 / 8 == index * 3) by (nonlinear_arith);
    assert(img.readable(x, y));
}

/// A coordinate off the image, or one whose byte offset is not within the
/// buffer, gives the zero pixel at eight bits.
pub proof fn lemma_out_of_range_is_sentinel(img: ImageView, x: nat, y: nat)
    requires
        x >= img.width || y >= img.height || img.byte_offset(x, y) >= img.pixels.len(),
    ensures
        img.pixel_at(x, y) == sentinel(),
{
}

/// A depth other than four or eight bits gives the zero pixel at eight bits,
/// at every coordinate and for every colour model.
pub proof fn lemma_unsupported_depth_is_sentinel(img: ImageView, x: nat, y: nat)
    requires
        img.bit_depth != BitDepth::Four,
        img.bit_depth != BitDepth::Eight,
    ensures
        img.pixel_at(x, y) == sentinel(),
{
}

} // verus!
