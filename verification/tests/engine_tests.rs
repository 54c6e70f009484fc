//! Behavioral tests of the engine: identity preservation, boundary
//! colors, gamut handling, round trips, lane errors, and the
//! lookup-table paths.

use fixcms::{ColorProfile, CmsError, InterpolationMethod, Layout, ToneCurve, TransformOptions};

fn srgb_to_srgb_rgb8() -> fixcms::Transform8Bit {
    let p = ColorProfile::new_srgb();
    let q = ColorProfile::new_srgb();
    p.create_transform_8bit(&q, Layout::Rgb8, TransformOptions::default()).unwrap()
}

/// A small synthetic printing-space profile: a smooth four-to-three
/// table on a 17-point grid, dark where ink or key is heavy.
fn synthetic_cmyk_profile(grid: usize) -> ColorProfile {
    let g = grid;
    let gm = (g - 1) as f64;
    let mut samples: Vec<u16> = Vec::with_capacity(g * g * g * g * 3);
    for k in 0..g {
        for c in 0..g {
            for m in 0..g {
                for y in 0..g {
                    let fc = c as f64 / gm;
                    let fm = m as f64 / gm;
                    let fy = y as f64 / gm;
                    let fk = k as f64 / gm;
                    let r = (1.0 - fc) * (1.0 - fk) * (1.0 - 0.1 * fm);
                    let gr = (1.0 - fm) * (1.0 - fk) * (1.0 - 0.1 * fc);
                    let b = (1.0 - fy) * (1.0 - fk) * (1.0 - 0.075 * (fc + fm));
                    samples.push((r.max(0.0) * 65535.0).round() as u16);
                    samples.push((gr.max(0.0) * 65535.0).round() as u16);
                    samples.push((b.max(0.0) * 65535.0).round() as u16);
                }
            }
        }
    }
    ColorProfile::new_cmyk_with_clut(g, samples).unwrap()
}

#[test]
fn identity_preserves_every_code() {
    let t = srgb_to_srgb_rgb8();
    for v in 0..256usize {
        let src = vec![v as u8, v as u8, v as u8];
        let mut dst = vec![0u8; 3];
        t.transform(&src, &mut dst).unwrap();
        for ch in 0..3 {
            let d = (dst[ch] as i32 - v as i32).abs();
            assert!(d <= 1, "code {} drifted by {}", v, d);
        }
    }
}

#[test]
fn identity_rgba8_preserves_pixel_and_alpha() {
    let p = ColorProfile::new_srgb();
    let q = ColorProfile::new_srgb();
    let t = p.create_transform_8bit(&q, Layout::Rgba8, TransformOptions::default()).unwrap();
    let src = vec![128u8, 64, 200, 77];
    let mut dst = vec![0u8; 4];
    t.transform(&src, &mut dst).unwrap();
    assert!((dst[0] as i32 - 128).abs() <= 1);
    assert!((dst[1] as i32 - 64).abs() <= 1);
    assert!((dst[2] as i32 - 200).abs() <= 1);
    assert_eq!(dst[3], 77);
}

#[test]
fn black_and_white_map_exactly() {
    let p = ColorProfile::new_bt2020();
    let q = ColorProfile::new_srgb();
    let t = p.create_transform_8bit(&q, Layout::Rgb8, TransformOptions::default()).unwrap();
    let src = vec![0u8, 0, 0, 255, 255, 255];
    let mut dst = vec![9u8; 6];
    t.transform(&src, &mut dst).unwrap();
    for ch in 0..3 {
        assert!(dst[ch] <= 1, "black channel {} came out {}", ch, dst[ch]);
        assert!(dst[3 + ch] >= 254, "white channel {} came out {}", ch, dst[3 + ch]);
    }
}

#[test]
fn bt2020_red_clips_to_srgb_red() {
    let p = ColorProfile::new_bt2020();
    let q = ColorProfile::new_srgb();
    let t = p.create_transform_8bit(&q, Layout::Rgb8, TransformOptions::default()).unwrap();
    let src = vec![255u8, 0, 0];
    let mut dst = vec![0u8; 3];
    t.transform(&src, &mut dst).unwrap();
    assert_eq!(dst[0], 255);
    assert!(dst[1] <= 40);
    assert!(dst[2] <= 40);

    let mut opts = TransformOptions::default();
    opts.allow_chroma_clipping = true;
    let tc = p.create_transform_8bit(&q, Layout::Rgb8, opts).unwrap();
    let mut dstc = vec![0u8; 3];
    tc.transform(&src, &mut dstc).unwrap();
    assert!(dstc[0] <= dst[0]);
    assert!(dstc[1] <= 40);
    assert!(dstc[2] <= 40);
}

#[test]
fn gray_gamma_to_rgb_midpoint() {
    let p = ColorProfile::new_gray_with_gamma(563);
    let q = ColorProfile::new_srgb();
    let t = p.create_transform_8bit(&q, Layout::Rgb8, TransformOptions::default()).unwrap();
    let src = vec![128u8];
    let mut dst = vec![0u8; 3];
    t.transform(&src, &mut dst).unwrap();
    assert_eq!(dst[0], dst[1]);
    assert_eq!(dst[1], dst[2]);
    assert!(dst[0] >= 126 && dst[0] <= 130, "gray midpoint came out {}", dst[0]);
}

#[test]
fn round_trip_within_documented_bound() {
    let p = ColorProfile::new_bt2020();
    let q = ColorProfile::new_srgb();
    let fwd = p.create_transform_8bit(&q, Layout::Rgb8, TransformOptions::default()).unwrap();
    let back = q.create_transform_8bit(&p, Layout::Rgb8, TransformOptions::default()).unwrap();
    let src = vec![120u8, 130, 140];
    let mut mid = vec![0u8; 3];
    let mut out = vec![0u8; 3];
    fwd.transform(&src, &mut mid).unwrap();
    back.transform(&mid, &mut out).unwrap();
    for ch in 0..3 {
        let d = (out[ch] as i32 - src[ch] as i32).abs();
        assert!(d <= 4, "round trip drifted by {} on channel {}", d, ch);
    }
}

#[test]
fn fixed_point_preference_changes_nothing() {
    let p = ColorProfile::new_bt2020();
    let q = ColorProfile::new_srgb();
    let mut with_fp = TransformOptions::default();
    with_fp.prefer_fixed_point = true;
    let t1 = p.create_transform_16bit(&q, Layout::Rgb16, TransformOptions::default()).unwrap();
    let t2 = p.create_transform_16bit(&q, Layout::Rgb16, with_fp).unwrap();
    let src: Vec<u16> = (0..999u32).map(|i| (i * 67) as u16).collect();
    let mut d1 = vec![0u16; src.len()];
    let mut d2 = vec![0u16; src.len()];
    t1.transform(&src, &mut d1).unwrap();
    t2.transform(&src, &mut d2).unwrap();
    assert_eq!(d1, d2);
}

#[test]
fn empty_buffers_are_ok() {
    let t = srgb_to_srgb_rgb8();
    let src: Vec<u8> = Vec::new();
    let mut dst: Vec<u8> = Vec::new();
    assert_eq!(t.transform(&src, &mut dst), Ok(()));
}

#[test]
fn lane_size_mismatch_is_reported() {
    let t = srgb_to_srgb_rgb8();
    let src: Vec<u8> = Vec::new();
    let mut dst = vec![0u8; 3];
    assert_eq!(t.transform(&src, &mut dst), Err(CmsError::LaneSizeMismatch));
    let src2 = vec![0u8; 3];
    let mut dst2: Vec<u8> = Vec::new();
    assert_eq!(t.transform(&src2, &mut dst2), Err(CmsError::LaneSizeMismatch));
}

#[test]
fn lane_multiple_of_channels_is_reported() {
    let t = srgb_to_srgb_rgb8();
    let src = vec![0u8; 4];
    let mut dst = vec![0u8; 4];
    assert_eq!(t.transform(&src, &mut dst), Err(CmsError::LaneMultipleOfChannels));
}

#[test]
fn output_pixel_count_matches_input() {
    let t = srgb_to_srgb_rgb8();
    let src = vec![10u8; 33];
    let mut dst = vec![0u8; 33];
    t.transform(&src, &mut dst).unwrap();
    assert_eq!(dst.len(), 33);
    // Every pixel was written: code 10 maps near 10, never stays 0.
    for px in dst.chunks(3) {
        assert!(px[0] >= 8);
    }
}

#[test]
fn incompatible_layout_is_rejected() {
    let cmyk = synthetic_cmyk_profile(5);
    let srgb = ColorProfile::new_srgb();
    let r = cmyk.create_transform_8bit(&srgb, Layout::Gray8, TransformOptions::default());
    assert_eq!(r.err(), Some(CmsError::InvalidLayout));
    let r16 = cmyk.create_transform_8bit(&srgb, Layout::Rgb16, TransformOptions::default());
    assert_eq!(r16.err(), Some(CmsError::InvalidLayout));
}

#[test]
fn invalid_trc_is_rejected() {
    let mut p = ColorProfile::new_srgb();
    p.red_trc = Some(ToneCurve::Lut(Vec::new()));
    let q = ColorProfile::new_srgb();
    let r = p.create_transform_8bit(&q, Layout::Rgb8, TransformOptions::default());
    assert_eq!(r.err(), Some(CmsError::InvalidTrc));
    let mut missing = ColorProfile::new_srgb();
    missing.green_trc = None;
    let r2 = missing.create_transform_8bit(&q, Layout::Rgb8, TransformOptions::default());
    assert_eq!(r2.err(), Some(CmsError::InvalidTrc));
}

#[test]
fn singular_destination_is_rejected() {
    let p = ColorProfile::new_srgb();
    let mut q = ColorProfile::new_srgb();
    q.colorants.v = [0; 9];
    let r = p.create_transform_8bit(&q, Layout::Rgb8, TransformOptions::default());
    assert_eq!(r.err(), Some(CmsError::InvalidIcc));
}

#[test]
fn unsupported_connection_is_rejected() {
    let p = ColorProfile::new_gray_with_gamma(563);
    let q = ColorProfile::new_gray_with_gamma(563);
    let r = p.create_transform_8bit(&q, Layout::Gray8, TransformOptions::default());
    assert_eq!(r.err(), Some(CmsError::UnsupportedProfileConnection));
}

#[test]
fn bad_clut_profile_is_rejected() {
    assert_eq!(
        ColorProfile::new_cmyk_with_clut(17, vec![0u16; 10]).err(),
        Some(CmsError::InvalidIcc)
    );
    assert_eq!(
        ColorProfile::new_cmyk_with_clut(1, Vec::new()).err(),
        Some(CmsError::InvalidIcc)
    );
}

#[test]
fn cmyk_dark_points() {
    let cmyk = synthetic_cmyk_profile(17);
    let srgb = ColorProfile::new_srgb();
    let t = cmyk.create_transform_8bit(&srgb, Layout::Rgb8, TransformOptions::default()).unwrap();
    let src = vec![0u8, 0, 0, 255];
    let mut dst = vec![99u8; 3];
    t.transform(&src, &mut dst).unwrap();
    for ch in 0..3 {
        assert!(dst[ch] <= 20, "full key channel {} came out {}", ch, dst[ch]);
    }
    let src2 = vec![255u8, 255, 255, 0];
    let mut dst2 = vec![99u8; 3];
    t.transform(&src2, &mut dst2).unwrap();
    for ch in 0..3 {
        assert!(dst2[ch] <= 20, "full ink channel {} came out {}", ch, dst2[ch]);
    }
    let src3 = vec![0u8, 0, 0, 0];
    let mut dst3 = vec![0u8; 3];
    t.transform(&src3, &mut dst3).unwrap();
    for ch in 0..3 {
        assert!(dst3[ch] >= 254, "paper white channel {} came out {}", ch, dst3[ch]);
    }
}

#[test]
fn interpolants_agree_on_midtones() {
    let cmyk = synthetic_cmyk_profile(17);
    let srgb = ColorProfile::new_srgb();
    let methods = [
        InterpolationMethod::Tetrahedral,
        InterpolationMethod::Pyramid,
        InterpolationMethod::Prism,
        InterpolationMethod::Linear,
    ];
    let pixels: [[u8; 4]; 4] =
        [[100, 120, 80, 60], [128, 128, 128, 128], [37, 200, 90, 10], [250, 3, 130, 77]];
    for px in pixels.iter() {
        let mut outs: Vec<Vec<u8>> = Vec::new();
        for m in methods.iter() {
            let mut o = TransformOptions::default();
            o.interpolation_method = *m;
            let t = cmyk.create_transform_8bit(&srgb, Layout::Rgb8, o).unwrap();
            let mut dst = vec![0u8; 3];
            t.transform(&px[..], &mut dst).unwrap();
            outs.push(dst);
        }
        for ch in 0..3 {
            let mx = outs.iter().map(|o| o[ch]).max().unwrap();
            let mn = outs.iter().map(|o| o[ch]).min().unwrap();
            assert!(mx - mn <= 3, "interpolants disagree by {} on channel {}", mx - mn, ch);
        }
    }
}

#[test]
fn clut_key_extremes_select_outer_cubes() {
    // Two strongly different key slices: the first cube is black, the
    // last is white; no blending may leak between them.
    let g = 3usize;
    let mut samples = vec![0u16; g * g * g * g * 3];
    let slice = g * g * g * 3;
    for i in 0..slice {
        samples[(g - 1) * slice + i] = 65535;
    }
    let cmyk = ColorProfile::new_cmyk_with_clut(g, samples).unwrap();
    let srgb = ColorProfile::new_srgb();
    let t = cmyk.create_transform_8bit(&srgb, Layout::Rgb8, TransformOptions::default()).unwrap();
    let mut dst = vec![7u8; 3];
    t.transform(&[90u8, 150, 33, 0], &mut dst).unwrap();
    assert_eq!(dst, vec![0u8, 0, 0]);
    t.transform(&[90u8, 150, 33, 255], &mut dst).unwrap();
    assert_eq!(dst, vec![255u8, 255, 255]);
}

#[test]
fn sampled_curve_identity_is_exact() {
    // A two-entry table is the straight line; the pipeline through it
    // must give back every code exactly.
    let mut p = ColorProfile::new_srgb();
    let line = Some(ToneCurve::Lut(vec![0u16, 65535]));
    p.red_trc = line.clone();
    p.green_trc = line.clone();
    p.blue_trc = line.clone();
    let q = p.clone();
    let t = p.create_transform_8bit(&q, Layout::Rgb8, TransformOptions::default()).unwrap();
    for v in [0usize, 1, 17, 128, 200, 254, 255] {
        let src = vec![v as u8; 3];
        let mut dst = vec![1u8; 3];
        t.transform(&src, &mut dst).unwrap();
        assert_eq!(dst, src);
    }
}

#[test]
fn layout_accessors_and_codes() {
    assert_eq!(Layout::Rgba8.channels(), 4);
    assert_eq!(Layout::Gray16.channels(), 1);
    assert_eq!(Layout::GrayAlpha8.channels(), 2);
    assert_eq!(Layout::Rgb8.r_i(), 0);
    assert_eq!(Layout::Rgb8.g_i(), 1);
    assert_eq!(Layout::Rgb8.b_i(), 2);
    assert_eq!(Layout::Rgba16.a_i(), 3);
    assert_eq!(Layout::GrayAlpha16.a_i(), 1);
    assert!(Layout::Rgba16.has_alpha());
    assert!(!Layout::Rgb8.has_alpha());
    assert!(Layout::Gray16.is_16_bit());
    assert!(!Layout::GrayAlpha8.is_16_bit());
    for code in 0u8..8 {
        assert_eq!(Layout::from_code(code).to_code(), code);
    }
    assert_eq!(Layout::Rgb8.to_code(), 0);
    assert_eq!(Layout::GrayAlpha16.to_code(), 7);
}

#[test]
fn numeric_helpers_exact_values() {
    assert_eq!(fixcms::mathq::rounding_div_ceil(0, 255), 0);
    assert_eq!(fixcms::mathq::rounding_div_ceil(1, 255), 1);
    assert_eq!(fixcms::mathq::rounding_div_ceil(255, 255), 1);
    assert_eq!(fixcms::mathq::rounding_div_ceil(256, 255), 2);
    assert_eq!(fixcms::mathq::round_div_u64(5, 2), 3);
    assert_eq!(fixcms::mathq::round_div_u64(4, 2), 2);
    assert_eq!(fixcms::mathq::q_pow(0, 65536), 0);
    assert_eq!(fixcms::mathq::q_pow(65536, 144179), 65536);
    // x = 1/4 squared is 1/16.
    let sq = fixcms::mathq::q_pow(16384, 131072);
    assert!((sq as i64 - 4096).abs() <= 2, "square of 1/4 came out {}", sq);
}

#[test]
fn gray_to_gray_alpha_sets_full_alpha() {
    let p = ColorProfile::new_gray_with_gamma(563);
    let q = ColorProfile::new_srgb();
    let t = p.create_transform_8bit(&q, Layout::GrayAlpha8, TransformOptions::default()).unwrap();
    let src = vec![0u8, 128, 255];
    let mut dst = vec![0u8; 6];
    t.transform(&src, &mut dst).unwrap();
    assert_eq!(dst[1], 255);
    assert_eq!(dst[3], 255);
    assert_eq!(dst[5], 255);
    assert_eq!(dst[0], 0);
    assert_eq!(dst[4], 255);
}

#[test]
fn outputs_stay_in_depth_range() {
    let p = ColorProfile::new_bt2020();
    let q = ColorProfile::new_srgb();
    let t = p.create_transform_10bit(&q, Layout::Rgb16, TransformOptions::default()).unwrap();
    let src: Vec<u16> = (0..3 * 341u32).map(|i| ((i * 3) % 1024) as u16).collect();
    let mut dst = vec![0u16; src.len()];
    t.transform(&src, &mut dst).unwrap();
    for &v in dst.iter() {
        assert!(v <= 1023, "10-bit output {} above full scale", v);
    }
}

#[test]
fn error_text_is_stable() {
    assert_eq!(CmsError::LaneSizeMismatch.describe(), "lane size mismatch");
    assert_eq!(CmsError::InvalidLayout.describe(), "invalid layout");
}

#[test]
fn three_to_four_table_corners() {
    // A 2-point lattice whose samples encode the corner pattern: at
    // full-scale input the last lattice point must come out untouched.
    let mut lut: Vec<i32> = Vec::new();
    for x in 0..2 {
        for y in 0..2 {
            for z in 0..2 {
                lut.push(x * 65535);
                lut.push(y * 65535);
                lut.push(z * 65535);
                lut.push(((x + y + z) * 65535 / 3) as i32);
            }
        }
    }
    let t = fixcms::clut::Lut3x4Transform {
        lut,
        grid: 2,
        layout: Layout::Rgb8,
        method: InterpolationMethod::Tetrahedral,
        max_out: 255,
    };
    let mut dst = vec![9u8; 4];
    t.transform_8(&[255u8, 255, 255], &mut dst).unwrap();
    assert_eq!(dst, vec![255u8, 255, 255, 255]);
    t.transform_8(&[0u8, 0, 0], &mut dst).unwrap();
    assert_eq!(dst, vec![0u8, 0, 0, 0]);
    t.transform_8(&[255u8, 0, 0], &mut dst).unwrap();
    assert_eq!(dst[0], 255);
    assert_eq!(dst[1], 0);
    assert_eq!(dst[2], 0);
}

#[test]
fn cmyk_to_rgb16_dark_points() {
    let cmyk = synthetic_cmyk_profile(9);
    let srgb = ColorProfile::new_srgb();
    let t = cmyk
        .create_transform_10bit(&srgb, Layout::Rgb16, TransformOptions::default())
        .unwrap();
    let src = vec![0u16, 0, 0, 1023];
    let mut dst = vec![0u16; 3];
    t.transform(&src, &mut dst).unwrap();
    for ch in 0..3 {
        assert!(dst[ch] <= 80, "full key channel {} came out {}", ch, dst[ch]);
    }
    let white = vec![0u16, 0, 0, 0];
    let mut dstw = vec![0u16; 3];
    t.transform(&white, &mut dstw).unwrap();
    for ch in 0..3 {
        assert!(dstw[ch] >= 1015, "paper white channel {} came out {}", ch, dstw[ch]);
    }
}

#[test]
fn gray16_to_gray_alpha16() {
    let p = ColorProfile::new_gray_with_gamma(563);
    let q = ColorProfile::new_srgb();
    let t = p
        .create_transform_16bit(&q, Layout::GrayAlpha16, TransformOptions::default())
        .unwrap();
    let src = vec![0u16, 65535];
    let mut dst = vec![0u16; 4];
    t.transform(&src, &mut dst).unwrap();
    assert_eq!(dst[0], 0);
    assert_eq!(dst[1], 65535);
    assert_eq!(dst[2], 65535);
    assert_eq!(dst[3], 65535);
}

#[test]
fn gray_outputs_are_monotone() {
    let p = ColorProfile::new_gray_with_gamma(563);
    let q = ColorProfile::new_srgb();
    let t = p.create_transform_8bit(&q, Layout::Gray8, TransformOptions::default()).unwrap();
    let src: Vec<u8> = (0..=255u8).collect();
    let mut dst = vec![0u8; 256];
    t.transform(&src, &mut dst).unwrap();
    for w in dst.windows(2) {
        assert!(w[0] <= w[1], "gray map decreased: {} then {}", w[0], w[1]);
    }
}
