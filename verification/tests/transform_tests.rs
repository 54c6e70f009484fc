//! Smoke tests over the built-in profiles: every factory path runs over
//! large random-valued buffers without error.

use fixcms::{ColorProfile, Layout, TransformOptions};
use rand::Rng;

#[test]
fn test_transform_rgb8() {
    let srgb_profile = ColorProfile::new_srgb();
    let bt2020_profile = ColorProfile::new_bt2020();
    let random_point_x: u8 = rand::rng().random_range(0..255);
    let transform = bt2020_profile
        .create_transform_8bit(&srgb_profile, Layout::Rgb8, TransformOptions::default())
        .unwrap();
    let src = vec![random_point_x; 256 * 256 * 3];
    let mut dst = vec![random_point_x; 256 * 256 * 3];
    transform.transform(&src, &mut dst).unwrap();
}

#[test]
fn test_transform_rgba8() {
    let srgb_profile = ColorProfile::new_srgb();
    let bt2020_profile = ColorProfile::new_bt2020();
    let random_point_x: u8 = rand::rng().random_range(0..255);
    let transform = bt2020_profile
        .create_transform_8bit(&srgb_profile, Layout::Rgba8, TransformOptions::default())
        .unwrap();
    let src = vec![random_point_x; 256 * 256 * 4];
    let mut dst = vec![random_point_x; 256 * 256 * 4];
    transform.transform(&src, &mut dst).unwrap();
}

#[test]
fn test_transform_gray_to_rgb8() {
    let srgb_profile = ColorProfile::new_gray_with_gamma(563);
    let bt2020_profile = ColorProfile::new_bt2020();
    let random_point_x: u8 = rand::rng().random_range(0..255);
    let transform = srgb_profile
        .create_transform_8bit(&bt2020_profile, Layout::Rgb8, TransformOptions::default())
        .unwrap();
    let src = vec![random_point_x; 256 * 256];
    let mut dst = vec![random_point_x; 256 * 256 * 3];
    transform.transform(&src, &mut dst).unwrap();
}

#[test]
fn test_transform_gray_to_rgba8() {
    let srgb_profile = ColorProfile::new_gray_with_gamma(563);
    let bt2020_profile = ColorProfile::new_bt2020();
    let random_point_x: u8 = rand::rng().random_range(0..255);
    let transform = srgb_profile
        .create_transform_8bit(&bt2020_profile, Layout::Rgba8, TransformOptions::default())
        .unwrap();
    let src = vec![random_point_x; 256 * 256];
    let mut dst = vec![random_point_x; 256 * 256 * 4];
    transform.transform(&src, &mut dst).unwrap();
}

#[test]
fn test_transform_gray_to_gray_alpha8() {
    let srgb_profile = ColorProfile::new_gray_with_gamma(563);
    let bt2020_profile = ColorProfile::new_bt2020();
    let random_point_x: u8 = rand::rng().random_range(0..255);
    let transform = srgb_profile
        .create_transform_8bit(&bt2020_profile, Layout::GrayAlpha8, TransformOptions::default())
        .unwrap();
    let src = vec![random_point_x; 256 * 256];
    let mut dst = vec![random_point_x; 256 * 256 * 2];
    transform.transform(&src, &mut dst).unwrap();
}

#[test]
fn test_transform_rgb10() {
    let srgb_profile = ColorProfile::new_srgb();
    let bt2020_profile = ColorProfile::new_bt2020();
    let random_point_x: u16 = rand::rng().random_range(0..((1 << 10) - 1));
    let transform = bt2020_profile
        .create_transform_10bit(&srgb_profile, Layout::Rgb16, TransformOptions::default())
        .unwrap();
    let src = vec![random_point_x; 256 * 256 * 3];
    let mut dst = vec![random_point_x; 256 * 256 * 3];
    transform.transform(&src, &mut dst).unwrap();
}

#[test]
fn test_transform_rgb12() {
    let srgb_profile = ColorProfile::new_srgb();
    let bt2020_profile = ColorProfile::new_bt2020();
    let random_point_x: u16 = rand::rng().random_range(0..((1 << 12) - 1));
    let transform = bt2020_profile
        .create_transform_12bit(&srgb_profile, Layout::Rgb16, TransformOptions::default())
        .unwrap();
    let src = vec![random_point_x; 256 * 256 * 3];
    let mut dst = vec![random_point_x; 256 * 256 * 3];
    transform.transform(&src, &mut dst).unwrap();
}

#[test]
fn test_transform_rgb16() {
    let srgb_profile = ColorProfile::new_srgb();
    let bt2020_profile = ColorProfile::new_bt2020();
    let random_point_x = rand::rng().random_range(0..((1u32 << 16u32) - 1u32)) as u16;
    let transform = bt2020_profile
        .create_transform_16bit(&srgb_profile, Layout::Rgb16, TransformOptions::default())
        .unwrap();
    let src = vec![random_point_x; 256 * 256 * 3];
    let mut dst = vec![random_point_x; 256 * 256 * 3];
    transform.transform(&src, &mut dst).unwrap();
}
