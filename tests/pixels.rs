use png_pixels::format::{BitDepth, ColorType};
use png_pixels::image::{ImageData, PixelData};

fn channels(p: &PixelData) -> (usize, usize, usize, usize) {
    (p.r(), p.g(), p.b(), p.a())
}

fn is_sentinel(p: &PixelData) -> bool {
    *p.bit_depth() == BitDepth::Eight && channels(p) == (0, 0, 0, 0)
}

#[test]
fn it_works() {}

#[test]
fn rgba8_counting_pattern() {
    let (w, h) = (7usize, 5usize);
    let buf: Vec<u8> = (0..w * h * 4).map(|i| (i % 256) as u8).collect();
    let img = ImageData::new(w, h, ColorType::Rgba, BitDepth::Eight, buf);
    for y in 0..h {
        for x in 0..w {
            let o = 4 * (y * w + x);
            let p = img.get_pixel_at(x, y);
            assert_eq!(channels(&p), (o % 256, (o + 1) % 256, (o + 2) % 256, (o + 3) % 256));
            assert_eq!(*p.bit_depth(), BitDepth::Eight);
        }
    }
}

#[test]
fn rgba8_pattern_wraps_past_256() {
    let (w, h) = (10usize, 10usize);
    let buf: Vec<u8> = (0..w * h * 4).map(|i| (i % 256) as u8).collect();
    let img = ImageData::new(w, h, ColorType::Rgba, BitDepth::Eight, buf);
    // offset 4 * 65 = 260
    assert_eq!(channels(&img.get_pixel_at(5, 6)), (4, 5, 6, 7));
}

#[test]
fn rgba4_nibbles() {
    let img = ImageData::new(2, 1, ColorType::Rgba, BitDepth::Four, vec![0xAB, 0xCD]);
    let p = img.get_pixel_at(0, 0);
    assert_eq!(channels(&p), (0xA, 0xB, 0xC, 0xD));
    assert_eq!(*p.bit_depth(), BitDepth::Four);
}

#[test]
fn rgba4_second_pixel_beyond_short_buffer() {
    let img = ImageData::new(2, 1, ColorType::Rgba, BitDepth::Four, vec![0xAB, 0xCD]);
    assert!(is_sentinel(&img.get_pixel_at(1, 0)));
}

#[test]
fn rgb4_alpha_zero() {
    let img = ImageData::new(1, 1, ColorType::Rgb, BitDepth::Four, vec![0x12, 0x34]);
    assert_eq!(channels(&img.get_pixel_at(0, 0)), (1, 2, 3, 0));
}

#[test]
fn gray_alpha4_nibbles() {
    let img = ImageData::new(1, 1, ColorType::GrayscaleAlpha, BitDepth::Four, vec![0x9E]);
    assert_eq!(channels(&img.get_pixel_at(0, 0)), (9, 0, 0, 0xE));
}

#[test]
fn gray4_and_indexed4_high_nibble() {
    // 4-bit grayscale: offset of pixel 1 is floor(1 * 1 * 4 / 8) = 0.
    let img = ImageData::new(2, 1, ColorType::Grayscale, BitDepth::Four, vec![0x7C]);
    assert_eq!(channels(&img.get_pixel_at(0, 0)), (7, 0, 0, 0));
    assert_eq!(channels(&img.get_pixel_at(1, 0)), (7, 0, 0, 0));
    let img = ImageData::new(3, 1, ColorType::Indexed, BitDepth::Four, vec![0x7C, 0x51]);
    assert_eq!(channels(&img.get_pixel_at(2, 0)), (5, 0, 0, 0));
}

#[test]
fn gray8_only_red() {
    let img = ImageData::new(3, 2, ColorType::Grayscale, BitDepth::Eight, vec![10, 255, 30, 40, 50, 60]);
    for y in 0..2 {
        for x in 0..3 {
            let p = img.get_pixel_at(x, y);
            assert_eq!(p.r(), [10, 255, 30, 40, 50, 60][y * 3 + x]);
            assert_eq!((p.g(), p.b(), p.a()), (0, 0, 0));
        }
    }
}

#[test]
fn gray_alpha8_red_and_alpha() {
    let img = ImageData::new(2, 1, ColorType::GrayscaleAlpha, BitDepth::Eight, vec![1, 2, 3, 4]);
    assert_eq!(channels(&img.get_pixel_at(1, 0)), (3, 0, 0, 4));
}

#[test]
fn indexed8_raw_index() {
    let img = ImageData::new(2, 1, ColorType::Indexed, BitDepth::Eight, vec![17, 42]);
    assert_eq!(channels(&img.get_pixel_at(1, 0)), (42, 0, 0, 0));
}

#[test]
fn rgb8_alpha_is_one() {
    let buf: Vec<u8> = vec![0, 0, 0, 255, 255, 255, 9, 8, 7, 1, 2, 3];
    let img = ImageData::new(2, 2, ColorType::Rgb, BitDepth::Eight, buf);
    for y in 0..2 {
        for x in 0..2 {
            assert_eq!(img.get_pixel_at(x, y).a(), 1);
        }
    }
    assert_eq!(channels(&img.get_pixel_at(0, 1)), (9, 8, 7, 1));
}

#[test]
fn out_of_range_coordinates() {
    let img = ImageData::new(2, 2, ColorType::Rgba, BitDepth::Eight, vec![200; 64]);
    assert!(is_sentinel(&img.get_pixel_at(2, 0)));
    assert!(is_sentinel(&img.get_pixel_at(0, 2)));
    assert!(is_sentinel(&img.get_pixel_at(usize::MAX, usize::MAX)));
    assert!(!is_sentinel(&img.get_pixel_at(1, 1)));
}

#[test]
fn truncated_buffer_gives_sentinel() {
    let img = ImageData::new(2, 2, ColorType::Rgba, BitDepth::Eight, vec![5, 6, 7, 8, 9]);
    assert_eq!(channels(&img.get_pixel_at(0, 0)), (5, 6, 7, 8));
    assert!(is_sentinel(&img.get_pixel_at(1, 0)));
    let empty = ImageData::new(1, 1, ColorType::Grayscale, BitDepth::Eight, Vec::new());
    assert!(is_sentinel(&empty.get_pixel_at(0, 0)));
}

#[test]
fn huge_dimensions_do_not_overflow() {
    let img = ImageData::new(usize::MAX, usize::MAX, ColorType::Rgba, BitDepth::Four, vec![0x12, 0x34]);
    assert_eq!(channels(&img.get_pixel_at(0, 0)), (1, 2, 3, 4));
    assert!(is_sentinel(&img.get_pixel_at(usize::MAX - 1, usize::MAX - 1)));
}

#[test]
fn unsupported_depths_give_sentinel() {
    let colors = [ColorType::Grayscale, ColorType::Rgb, ColorType::Indexed, ColorType::GrayscaleAlpha, ColorType::Rgba];
    for depth in [BitDepth::One, BitDepth::Two, BitDepth::Sixteen] {
        for color in colors {
            let img = ImageData::new(2, 2, color, depth, vec![0xFF; 64]);
            for (x, y) in [(0, 0), (1, 1), (5, 5)] {
                assert!(is_sentinel(&img.get_pixel_at(x, y)));
            }
        }
    }
}

#[test]
fn dimensions_as_constructed() {
    let img = ImageData::new(640, 480, ColorType::Rgb, BitDepth::Eight, vec![1, 2, 3]);
    let _ = img.get_pixel_at(0, 0);
    let _ = img.get_pixel_at(700, 500);
    assert_eq!((img.width(), img.height()), (640, 480));
    let empty = ImageData::new(0, 0, ColorType::Grayscale, BitDepth::One, Vec::new());
    assert_eq!((empty.width(), empty.height()), (0, 0));
}

#[test]
fn repeated_queries_agree() {
    let img = ImageData::new(2, 1, ColorType::Rgba, BitDepth::Eight, vec![1, 2, 3, 4, 5, 6, 7, 8]);
    let first = img.get_pixel_at(1, 0);
    for _ in 0..3 {
        let again = img.get_pixel_at(1, 0);
        assert_eq!(channels(&again), channels(&first));
        assert_eq!(again.bit_depth(), first.bit_depth());
    }
    assert_eq!(channels(&first), (5, 6, 7, 8));
}

#[test]
fn from_frame_keeps_frame_bytes() {
    let img = ImageData::from_frame(1, 1, ColorType::Rgba, BitDepth::Eight, vec![1, 2, 3, 4, 5, 6], 3);
    assert!(is_sentinel(&img.get_pixel_at(0, 0)));
    let img = ImageData::from_frame(1, 1, ColorType::Rgba, BitDepth::Eight, vec![1, 2, 3, 4, 5, 6], 4);
    assert_eq!(channels(&img.get_pixel_at(0, 0)), (1, 2, 3, 4));
    let img = ImageData::from_frame(1, 1, ColorType::Grayscale, BitDepth::Eight, vec![9], 100);
    assert_eq!(channels(&img.get_pixel_at(0, 0)), (9, 0, 0, 0));
}

#[test]
fn pixel_accessors_and_mutation() {
    let mut p = PixelData::new(BitDepth::Four, 1, 2, 3, 4);
    assert_eq!(channels(&p), (1, 2, 3, 4));
    assert_eq!(*p.bit_depth(), BitDepth::Four);
    *p.mut_r() = 10;
    *p.mut_g() += 1;
    *p.mut_b() = 0;
    *p.mut_a() *= 3;
    assert_eq!(channels(&p), (10, 3, 0, 12));
    let copy = p;
    *p.mut_r() = 99;
    assert_eq!(copy.r(), 10);
}
