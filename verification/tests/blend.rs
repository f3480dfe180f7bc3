use arspaint::blend::{blend_buffer, blend_pixel};
use arspaint::layers::{BlendMode, OPAQUE};
use arspaint::raster::{Color, PixelBuffer};

#[test]
fn opaque_normal_pixel_replaces_destination() {
    let src = Color::new(12, 34, 56, 255);
    assert_eq!(blend_pixel(Color::transparent(), src, OPAQUE, BlendMode::Normal, None), src);
    assert_eq!(blend_pixel(Color::new(200, 100, 50, 255), src, OPAQUE, BlendMode::Normal, None), src);
    assert_eq!(blend_pixel(Color::new(200, 100, 50, 77), src, OPAQUE, BlendMode::Normal, None), src);
}

#[test]
fn no_coverage_leaves_destination() {
    let dst = Color::new(1, 2, 3, 4);
    let src = Color::new(9, 9, 9, 255);
    assert_eq!(blend_pixel(dst, Color::new(9, 9, 9, 0), OPAQUE, BlendMode::Normal, None), dst);
    assert_eq!(blend_pixel(dst, src, 0, BlendMode::Normal, None), dst);
    assert_eq!(blend_pixel(dst, src, OPAQUE, BlendMode::Normal, Some(0)), dst);
}

#[test]
fn half_opacity_over_transparent_keeps_colour_and_halves_alpha() {
    let src = Color::new(10, 20, 30, 255);
    let out = blend_pixel(Color::transparent(), src, 500, BlendMode::Normal, None);
    assert_eq!(out, Color::new(10, 20, 30, 127));
}

#[test]
fn multiply_at_half_opacity_over_opaque() {
    let red = Color::new(255, 0, 0, 255);
    let green = Color::new(0, 255, 0, 255);
    let out = blend_pixel(red, green, 500, BlendMode::Multiply, None);
    assert_eq!(out, Color::new(127, 0, 0, 255));
}

#[test]
fn multiply_is_product_over_255() {
    let dst = Color::new(200, 100, 255, 255);
    let src = Color::new(128, 128, 128, 255);
    let out = blend_pixel(dst, src, OPAQUE, BlendMode::Multiply, None);
    // 200 * 128 / 255 = 100.39, 100 * 128 / 255 = 50.19, 255 * 128 / 255 = 128
    assert_eq!(out, Color::new(100, 50, 128, 255));
}

#[test]
fn add_is_clamped_sum() {
    let dst = Color::new(200, 100, 0, 255);
    let src = Color::new(100, 100, 7, 255);
    let out = blend_pixel(dst, src, OPAQUE, BlendMode::Add, None);
    assert_eq!(out, Color::new(255, 200, 7, 255));
}

#[test]
fn screen_is_inverse_product() {
    let dst = Color::new(128, 0, 255, 255);
    let src = Color::new(128, 50, 10, 255);
    let out = blend_pixel(dst, src, OPAQUE, BlendMode::Screen, None);
    // 255 - 127 * 127 / 255 = 191.74; 255 - 205 * 255 / 255 = 50; 255 - 245 * 0 / 255 = 255
    assert_eq!(out, Color::new(191, 50, 255, 255));
}

#[test]
fn over_compositing_of_two_half_transparent_pixels() {
    let dst = Color::new(0, 0, 255, 128);
    let src = Color::new(255, 0, 0, 128);
    let out = blend_pixel(dst, src, OPAQUE, BlendMode::Normal, None);
    // alpha: 128 + 128 * 127 / 255 = 191.74
    // red: 255 * 128 * 255 / (255 * 128 + 128 * 127) = 170.23
    // blue: 255 * 128 * 127 / (255 * 128 + 128 * 127) = 84.77
    assert_eq!(out, Color::new(170, 0, 84, 191));
}

#[test]
fn opacity_above_full_counts_as_full() {
    let src = Color::new(10, 20, 30, 255);
    let dst = Color::new(1, 1, 1, 255);
    assert_eq!(blend_pixel(dst, src, 5000, BlendMode::Normal, None), src);
    assert_eq!(blend_pixel(dst, src, u16::MAX, BlendMode::Normal, None), src);
}

#[test]
fn mask_alpha_scales_coverage() {
    let src = Color::new(100, 100, 100, 255);
    let out = blend_pixel(Color::transparent(), src, OPAQUE, BlendMode::Normal, Some(128));
    assert_eq!(out, Color::new(100, 100, 100, 128));
    let full = blend_pixel(Color::transparent(), src, OPAQUE, BlendMode::Normal, Some(255));
    assert_eq!(full, src);
}

#[test]
fn blend_buffer_leaves_pixels_that_the_source_does_not_reach() {
    let mut dest = PixelBuffer::new(4, 4);
    dest.fill(Color::new(0, 0, 255, 255));
    let mut source = PixelBuffer::new(2, 3);
    source.fill(Color::new(255, 0, 0, 255));
    blend_buffer(&mut dest, &source, OPAQUE, BlendMode::Normal, None);
    assert_eq!(dest.get_pixel(1, 2), Some(Color::new(255, 0, 0, 255)));
    assert_eq!(dest.get_pixel(2, 2), Some(Color::new(0, 0, 255, 255)));
    assert_eq!(dest.get_pixel(1, 3), Some(Color::new(0, 0, 255, 255)));
}

#[test]
fn blend_buffer_treats_pixels_outside_the_mask_as_uncovered() {
    let mut dest = PixelBuffer::new(3, 3);
    let mut source = PixelBuffer::new(3, 3);
    source.fill(Color::new(255, 0, 0, 255));
    let mut mask = PixelBuffer::new(2, 2);
    mask.fill(Color::new(0, 0, 0, 255));
    mask.put_pixel(1, 1, Color::new(0, 0, 0, 0));
    blend_buffer(&mut dest, &source, OPAQUE, BlendMode::Normal, Some(&mask));
    assert_eq!(dest.get_pixel(0, 0), Some(Color::new(255, 0, 0, 255)));
    assert_eq!(dest.get_pixel(1, 1), Some(Color::transparent()));
    assert_eq!(dest.get_pixel(2, 0), Some(Color::transparent()));
    assert_eq!(dest.get_pixel(0, 2), Some(Color::transparent()));
}
