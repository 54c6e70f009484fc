//! Color profiles: the fields of an ICC-style profile that the engine
//! reads, and constructors for the built-in profiles.
//!
//! Colorants and white points are stored in s15.16 fixed point as ICC
//! files store them; tone curves are sampled tables or five-parameter
//! curves in Q16.  A profile for a printing space may carry a
//! device-to-device lookup table on a regular grid, already composed
//! with its input and output curves.

use vstd::prelude::*;
use crate::err::CmsError;
use crate::matrix::{ColMatrix, colmatrix_wf};
use crate::trc::{CurveParams, ToneCurve};

verus! {

/// The device-side color space of a profile.
#[derive(Debug, Clone, Copy, PartialEq, Eq, Structural)]
pub enum DataColorSpace {
    Rgb,
    Gray,
    Cmyk,
    Xyz,
    Lab,
}

/// How out-of-gamut colors are reconciled.
#[derive(Debug, Clone, Copy, PartialEq, Eq, Structural)]
pub enum RenderingIntent {
    Perceptual,
    RelativeColorimetric,
    Saturation,
    AbsoluteColorimetric,
}

/// A device-to-device lookup table on a regular grid: for a four-input,
/// three-output table the sample for lattice point `(c, m, y, k)` starts
/// at `(((k * g + c) * g + m) * g + y) * 3`, with the fourth coordinate
/// selecting the cube.
#[derive(Debug, Clone, PartialEq, Eq)]
pub struct ClutTable {
    /// Lattice points per axis.
    pub grid: usize,
    /// The samples, scaled to `0..=65535`.
    pub samples: Vec<u16>,
}

/// A four-input, three-output table has `grid^4` lattice points of three
/// samples each, on a grid of 2 to 64 points per axis.
pub open spec fn clut_wf(c: ClutTable) -> bool {
    2 <= c.grid <= 64 && c.samples@.len() == c.grid * c.grid * c.grid * c.grid * 3
}

/// The fields of a color profile that the engine reads.
#[derive(Debug, Clone)]
pub struct ColorProfile {
    /// Device-side color space.
    pub color_space: DataColorSpace,
    /// Profile connection space.
    pub pcs: DataColorSpace,
    /// The profile's rendering intent.
    pub rendering_intent: RenderingIntent,
    /// Tone reproduction curves per channel.
    pub red_trc: Option<ToneCurve>,
    pub green_trc: Option<ToneCurve>,
    pub blue_trc: Option<ToneCurve>,
    pub gray_trc: Option<ToneCurve>,
    /// RGB-to-XYZ colorant matrix, s15.16, already adapted to D50.
    pub colorants: ColMatrix,
    /// Media white point, s15.16.
    pub white_point: [i64; 3],
    /// Optional device-to-device lookup table (e.g. CMYK to RGB).
    pub clut: Option<ClutTable>,
}

/// A profile the engine can consume: colorants in range and, if a
/// lookup table is present, a well-formed one.
pub open spec fn profile_wf(p: ColorProfile) -> bool {
    colmatrix_wf(p.colorants) && (p.clut matches Some(c) ==> clut_wf(c))
}

/// The five-parameter sRGB curve in Q16.
pub open spec fn srgb_params_s() -> CurveParams {
    CurveParams { g: 157286, a: 62119, b: 3417, c: 5072, d: 2651 }
}

/// The five-parameter Rec.709/Rec.2020 curve in Q16.
pub open spec fn rec709_params_s() -> CurveParams {
    CurveParams { g: 145636, a: 59616, b: 5920, c: 14564, d: 5324 }
}

/// D50-adapted sRGB colorants, s15.16, row major.
pub open spec fn srgb_colorants_s(k: int) -> int {
    let rows = [28578int, 25241, 9377, 14581, 46982, 3973, 913, 6362, 46799];
    rows[k]
}

/// D50-adapted Rec.2020 colorants, s15.16, row major.
pub open spec fn bt2020_colorants_s(k: int) -> int {
    let rows = [44140int, 10859, 8197, 18288, 44258, 2990, -127, 1965, 52236];
    rows[k]
}

impl ColorProfile {
    /// Creates a new sRGB profile.
    pub fn new_srgb() -> (r: ColorProfile)
        ensures
            profile_wf(r),
            r.color_space == DataColorSpace::Rgb,
            r.pcs == DataColorSpace::Xyz,
            r.rendering_intent == RenderingIntent::Perceptual,
            r.red_trc == Some(ToneCurve::Parametric(srgb_params_s())),
            r.green_trc == Some(ToneCurve::Parametric(srgb_params_s())),
            r.blue_trc == Some(ToneCurve::Parametric(srgb_params_s())),
            r.gray_trc is None,
            forall|k: int| 0 <= k < 9 ==> r.colorants.v[k] == srgb_colorants_s(k),
            r.clut is None,
    {
        let params = CurveParams { g: 157286, a: 62119, b: 3417, c: 5072, d: 2651 };
        ColorProfile {
            color_space: DataColorSpace::Rgb,
            pcs: DataColorSpace::Xyz,
            rendering_intent: RenderingIntent::Perceptual,
            red_trc: Some(ToneCurve::Parametric(params)),
            green_trc: Some(ToneCurve::Parametric(params)),
            blue_trc: Some(ToneCurve::Parametric(params)),
            gray_trc: None,
            colorants: ColMatrix { v: [28578, 25241, 9377, 14581, 46982, 3973, 913, 6362, 46799] },
            white_point: [63196, 65536, 54074],
            clut: None,
        }
    }

    /// Creates a new Rec.2020 profile.
    pub fn new_bt2020() -> (r: ColorProfile)
        ensures
            profile_wf(r),
            r.color_space == DataColorSpace::Rgb,
            r.pcs == DataColorSpace::Xyz,
            r.rendering_intent == RenderingIntent::Perceptual,
            r.red_trc == Some(ToneCurve::Parametric(rec709_params_s())),
            r.green_trc == Some(ToneCurve::Parametric(rec709_params_s())),
            r.blue_trc == Some(ToneCurve::Parametric(rec709_params_s())),
            r.gray_trc is None,
            forall|k: int| 0 <= k < 9 ==> r.colorants.v[k] == bt2020_colorants_s(k),
            r.clut is None,
    {
        let params = CurveParams { g: 145636, a: 59616, b: 5920, c: 14564, d: 5324 };
        ColorProfile {
            color_space: DataColorSpace::Rgb,
            pcs: DataColorSpace::Xyz,
            rendering_intent: RenderingIntent::Perceptual,
            red_trc: Some(ToneCurve::Parametric(params)),
            green_trc: Some(ToneCurve::Parametric(params)),
            blue_trc: Some(ToneCurve::Parametric(params)),
            gray_trc: None,
            colorants: ColMatrix { v: [44140, 10859, 8197, 18288, 44258, 2990, -127, 1965, 52236] },
            white_point: [63196, 65536, 54074],
            clut: None,
        }
    }

    /// Creates a new gray profile with the given gamma, in unsigned 8.8
    /// fixed point (so 2.2 is 563).
    pub fn new_gray_with_gamma(gamma: u16) -> (r: ColorProfile)
        ensures
            profile_wf(r),
            r.color_space == DataColorSpace::Gray,
            r.pcs == DataColorSpace::Xyz,
            r.rendering_intent == RenderingIntent::Perceptual,
            r.gray_trc matches Some(t) ==> (t matches ToneCurve::Lut(d) && d@ == seq![gamma]),
            r.gray_trc is Some,
            r.red_trc is None,
            r.clut is None,
    {
        let mut data: Vec<u16> = Vec::new();
        data.push(gamma);
        assert(data@ == seq![gamma]);
        ColorProfile {
            color_space: DataColorSpace::Gray,
            pcs: DataColorSpace::Xyz,
            rendering_intent: RenderingIntent::Perceptual,
            red_trc: None,
            green_trc: None,
            blue_trc: None,
            gray_trc: Some(ToneCurve::Lut(data)),
            colorants: ColMatrix { v: [0, 0, 0, 0, 0, 0, 0, 0, 0] },
            white_point: [63196, 65536, 54074],
            clut: None,
        }
    }

    /// Creates a new CMYK profile around a four-input, three-output
    /// device-to-device lookup table with `grid` points per axis.
    /// Rejects a grid outside 2..=64 or a sample array of the wrong
    /// length as unusable profile data.
    pub fn new_cmyk_with_clut(grid: usize, samples: Vec<u16>) -> (r: Result<
        ColorProfile,
        CmsError,
    >)
        ensures
            r is Ok <==> (2 <= grid <= 64 && samples@.len() == grid * grid * grid * grid * 3),
            r matches Err(e) ==> e == CmsError::InvalidIcc,
            r matches Ok(p) ==> profile_wf(p) && p.color_space == DataColorSpace::Cmyk && p.pcs
                == DataColorSpace::Xyz && p.rendering_intent == RenderingIntent::Perceptual && (
            p.clut matches Some(c) && c.grid == grid && c.samples@ == samples@),
    {
        if grid < 2 || grid > 64 {
            return Err(CmsError::InvalidIcc);
        }
        proof {
            assert(grid * grid <= 64 * 64) by (nonlinear_arith)
                requires
                    grid <= 64;
            assert(grid * grid * grid <= 64 * 64 * 64) by (nonlinear_arith)
                requires
                    grid <= 64;
            assert(grid * grid * grid * grid * 3 <= 64 * 64 * 64 * 64 * 3) by (nonlinear_arith)
                requires
                    grid <= 64;
            assert(grid * grid * grid * (grid * 3) == grid * grid * grid * grid * 3)
                by (nonlinear_arith);
            assert(grid * grid * grid * (grid * 3) <= 64 * 64 * 64 * 64 * 3) by (nonlinear_arith)
                requires
                    grid <= 64;
        }
        let g3: usize = grid * grid * grid;
        if samples.len() != g3 * (grid * 3) {
            return Err(CmsError::InvalidIcc);
        }
        Ok(
            ColorProfile {
                color_space: DataColorSpace::Cmyk,
                pcs: DataColorSpace::Xyz,
                rendering_intent: RenderingIntent::Perceptual,
                red_trc: None,
                green_trc: None,
                blue_trc: None,
                gray_trc: None,
                colorants: ColMatrix { v: [0, 0, 0, 0, 0, 0, 0, 0, 0] },
                white_point: [63196, 65536, 54074],
                clut: Some(ClutTable { grid, samples }),
            },
        )
    }
}

} // verus!
