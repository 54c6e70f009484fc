//! Interpolation over a regular 3D lattice of color samples.
//!
//! All four interpolants share the same framing: the three coordinates
//! (integer, `0..=255`) are mapped to a lower lattice corner by
//! truncating division, to an upper corner by rounding-ceiling
//! division, and to fractional offsets as the remainders.  Each
//! interpolant returns an integer numerator; dividing it by the
//! interpolant's denominator and by 65535 (full scale of a sample)
//! yields the interpolated value in `[0, 1]`.
//!
//! The tetrahedral case table splits the cell into six tetrahedra by
//! the ordering of the fractional offsets; the pyramidal one into
//! three pyramids; the prismatic one into two prisms; trilinear blends
//! all eight corners.

use vstd::prelude::*;
use crate::mathq::sdiv_ceil;
use crate::transform::InterpolationMethod;

verus! {

/// One sample from the lattice: cube at `base`, grid edge `g`, `stride`
/// samples per lattice point, channel `ch`.
pub open spec fn fetch_s(
    lut: Seq<i32>,
    g: int,
    base: int,
    stride: int,
    x: int,
    y: int,
    z: int,
    ch: int,
) -> int {
    lut[base + (x * g * g + y * g + z) * stride + ch] as int
}

/// Lower lattice corner for coordinate `c` on a grid with edge count
/// `s + 1`.
pub open spec fn lo_idx(c: int, s: int) -> int {
    c * s / 255
}

/// Upper lattice corner: the rounding ceiling.
pub open spec fn hi_idx(c: int, s: int) -> int {
    sdiv_ceil(c * s, 255)
}

/// Fractional offset of coordinate `c`, as a numerator over 255.
pub open spec fn frac_w(c: int, s: int) -> int {
    (c * s) % 255
}

/// The denominator of each interpolant's numerator.
pub open spec fn den_s(method: InterpolationMethod) -> int {
    match method {
        InterpolationMethod::Tetrahedral => 255,
        InterpolationMethod::Pyramid => 65025,
        InterpolationMethod::Prism => 65025,
        InterpolationMethod::Linear => 16581375,
    }
}

/// Tetrahedral interpolation: numerator over 255.
pub open spec fn tetra_s(
    lut: Seq<i32>,
    g: int,
    base: int,
    stride: int,
    ch: int,
    cr: int,
    cg: int,
    cb: int,
) -> int {
    let s = g - 1;
    let x = lo_idx(cr, s);
    let y = lo_idx(cg, s);
    let z = lo_idx(cb, s);
    let xn = hi_idx(cr, s);
    let yn = hi_idx(cg, s);
    let zn = hi_idx(cb, s);
    let rx = frac_w(cr, s);
    let ry = frac_w(cg, s);
    let rz = frac_w(cb, s);
    let c0 = fetch_s(lut, g, base, stride, x, y, z, ch);
    let c1 = if rx >= ry {
        if ry >= rz {
            fetch_s(lut, g, base, stride, xn, y, z, ch) - c0
        } else if rx >= rz {
            fetch_s(lut, g, base, stride, xn, y, z, ch) - c0
        } else {
            fetch_s(lut, g, base, stride, xn, y, zn, ch) - fetch_s(
                lut, g, base, stride, x, y, zn, ch,
            )
        }
    } else if rx >= rz {
        fetch_s(lut, g, base, stride, xn, yn, z, ch) - fetch_s(lut, g, base, stride, x, yn, z, ch)
    } else if ry >= rz {
        fetch_s(lut, g, base, stride, xn, yn, zn, ch) - fetch_s(
            lut, g, base, stride, x, yn, zn, ch,
        )
    } else {
        fetch_s(lut, g, base, stride, xn, yn, zn, ch) - fetch_s(
            lut, g, base, stride, x, yn, zn, ch,
        )
    };
    let c2 = if rx >= ry {
        if ry >= rz {
            fetch_s(lut, g, base, stride, xn, yn, z, ch) - fetch_s(
                lut, g, base, stride, xn, y, z, ch,
            )
        } else if rx >= rz {
            fetch_s(lut, g, base, stride, xn, yn, zn, ch) - fetch_s(
                lut, g, base, stride, xn, y, zn, ch,
            )
        } else {
            fetch_s(lut, g, base, stride, xn, yn, zn, ch) - fetch_s(
                lut, g, base, stride, xn, y, zn, ch,
            )
        }
    } else if rx >= rz {
        fetch_s(lut, g, base, stride, x, yn, z, ch) - c0
    } else if ry >= rz {
        fetch_s(lut, g, base, stride, x, yn, z, ch) - c0
    } else {
        fetch_s(lut, g, base, stride, x, yn, zn, ch) - fetch_s(lut, g, base, stride, x, y, zn, ch)
    };
    let c3 = if rx >= ry {
        if ry >= rz {
            fetch_s(lut, g, base, stride, xn, yn, zn, ch) - fetch_s(
                lut, g, base, stride, xn, yn, z, ch,
            )
        } else if rx >= rz {
            fetch_s(lut, g, base, stride, xn, y, zn, ch) - fetch_s(
                lut, g, base, stride, xn, y, z, ch,
            )
        } else {
            fetch_s(lut, g, base, stride, x, y, zn, ch) - c0
        }
    } else if rx >= rz {
        fetch_s(lut, g, base, stride, xn, yn, zn, ch) - fetch_s(
            lut, g, base, stride, xn, yn, z, ch,
        )
    } else if ry >= rz {
        fetch_s(lut, g, base, stride, x, yn, zn, ch) - fetch_s(lut, g, base, stride, x, yn, z, ch)
    } else {
        fetch_s(lut, g, base, stride, x, y, zn, ch) - c0
    };
    c0 * 255 + c1 * rx + c2 * ry + c3 * rz
}

/// Pyramidal interpolation: numerator over 65025.
pub open spec fn pyramid_s(
    lut: Seq<i32>,
    g: int,
    base: int,
    stride: int,
    ch: int,
    cr: int,
    cg: int,
    cb: int,
) -> int {
    let s = g - 1;
    let x = lo_idx(cr, s);
    let y = lo_idx(cg, s);
    let z = lo_idx(cb, s);
    let xn = hi_idx(cr, s);
    let yn = hi_idx(cg, s);
    let zn = hi_idx(cb, s);
    let dr = frac_w(cr, s);
    let dg = frac_w(cg, s);
    let db = frac_w(cb, s);
    let c0 = fetch_s(lut, g, base, stride, x, y, z, ch);
    if dr > db && dg > db {
        let x0 = fetch_s(lut, g, base, stride, xn, yn, zn, ch);
        let x1 = fetch_s(lut, g, base, stride, xn, yn, z, ch);
        let x2 = fetch_s(lut, g, base, stride, xn, y, z, ch);
        let x3 = fetch_s(lut, g, base, stride, x, yn, z, ch);
        c0 * 65025 + (x0 - x1) * db * 255 + (x2 - c0) * dr * 255 + (x3 - c0) * dg * 255 + (c0 - x3
            - x2 + x1) * (dr * dg)
    } else if db > dr && dg > dr {
        let x0 = fetch_s(lut, g, base, stride, x, y, zn, ch);
        let x1 = fetch_s(lut, g, base, stride, xn, yn, zn, ch);
        let x2 = fetch_s(lut, g, base, stride, x, yn, zn, ch);
        let x3 = fetch_s(lut, g, base, stride, x, yn, z, ch);
        c0 * 65025 + (x0 - c0) * db * 255 + (x1 - x2) * dr * 255 + (x3 - c0) * dg * 255 + (c0 - x3
            - x0 + x2) * (dg * db)
    } else {
        let x0 = fetch_s(lut, g, base, stride, x, y, zn, ch);
        let x1 = fetch_s(lut, g, base, stride, xn, y, z, ch);
        let x2 = fetch_s(lut, g, base, stride, xn, y, zn, ch);
        let x3 = fetch_s(lut, g, base, stride, xn, yn, zn, ch);
        c0 * 65025 + (x0 - c0) * db * 255 + (x1 - c0) * dr * 255 + (x3 - x2) * dg * 255 + (c0 - x1
            - x0 + x2) * (db * dr)
    }
}

/// Prismatic interpolation: numerator over 65025.
pub open spec fn prism_s(
    lut: Seq<i32>,
    g: int,
    base: int,
    stride: int,
    ch: int,
    cr: int,
    cg: int,
    cb: int,
) -> int {
    let s = g - 1;
    let x = lo_idx(cr, s);
    let y = lo_idx(cg, s);
    let z = lo_idx(cb, s);
    let xn = hi_idx(cr, s);
    let yn = hi_idx(cg, s);
    let zn = hi_idx(cb, s);
    let dr = frac_w(cr, s);
    let dg = frac_w(cg, s);
    let db = frac_w(cb, s);
    let c0 = fetch_s(lut, g, base, stride, x, y, z, ch);
    if db > dr {
        let x0 = fetch_s(lut, g, base, stride, x, y, zn, ch);
        let x1 = fetch_s(lut, g, base, stride, xn, y, zn, ch);
        let x2 = fetch_s(lut, g, base, stride, x, yn, z, ch);
        let x3 = fetch_s(lut, g, base, stride, x, yn, zn, ch);
        let x4 = fetch_s(lut, g, base, stride, xn, yn, zn, ch);
        c0 * 65025 + (x0 - c0) * db * 255 + (x1 - x0) * dr * 255 + (x2 - c0) * dg * 255 + (c0 - x2
            - x0 + x3) * (dg * db) + (x0 - x3 - x1 + x4) * (dr * dg)
    } else {
        let x0 = fetch_s(lut, g, base, stride, xn, y, z, ch);
        let x1 = fetch_s(lut, g, base, stride, xn, y, zn, ch);
        let x2 = fetch_s(lut, g, base, stride, x, yn, z, ch);
        let x3 = fetch_s(lut, g, base, stride, xn, yn, z, ch);
        let x4 = fetch_s(lut, g, base, stride, xn, yn, zn, ch);
        c0 * 65025 + (x1 - x0) * db * 255 + (x0 - c0) * dr * 255 + (x2 - c0) * dg * 255 + (x0 - x3
            - x1 + x4) * (dg * db) + (c0 - x2 - x0 + x3) * (dr * dg)
    }
}

/// Trilinear interpolation: numerator over `255^3`.
pub open spec fn trilinear_s(
    lut: Seq<i32>,
    g: int,
    base: int,
    stride: int,
    ch: int,
    cr: int,
    cg: int,
    cb: int,
) -> int {
    let s = g - 1;
    let x = lo_idx(cr, s);
    let y = lo_idx(cg, s);
    let z = lo_idx(cb, s);
    let xn = hi_idx(cr, s);
    let yn = hi_idx(cg, s);
    let zn = hi_idx(cb, s);
    let rx = frac_w(cr, s);
    let ry = frac_w(cg, s);
    let rz = frac_w(cb, s);
    let qx = 255 - rx;
    let qy = 255 - ry;
    let qz = 255 - rz;
    fetch_s(lut, g, base, stride, x, y, z, ch) * (qx * qy * qz) + fetch_s(
        lut, g, base, stride, x, y, zn, ch,
    ) * (qx * qy * rz) + fetch_s(lut, g, base, stride, x, yn, z, ch) * (qx * ry * qz) + fetch_s(
        lut, g, base, stride, x, yn, zn, ch,
    ) * (qx * ry * rz) + fetch_s(lut, g, base, stride, xn, y, z, ch) * (rx * qy * qz) + fetch_s(
        lut, g, base, stride, xn, y, zn, ch,
    ) * (rx * qy * rz) + fetch_s(lut, g, base, stride, xn, yn, z, ch) * (rx * ry * qz) + fetch_s(
        lut, g, base, stride, xn, yn, zn, ch,
    ) * (rx * ry * rz)
}

/// Numerator of the selected interpolant.
pub open spec fn interp_s(
    method: InterpolationMethod,
    lut: Seq<i32>,
    g: int,
    base: int,
    stride: int,
    ch: int,
    cr: int,
    cg: int,
    cb: int,
) -> int {
    match method {
        InterpolationMethod::Tetrahedral => tetra_s(lut, g, base, stride, ch, cr, cg, cb),
        InterpolationMethod::Pyramid => pyramid_s(lut, g, base, stride, ch, cr, cg, cb),
        InterpolationMethod::Prism => prism_s(lut, g, base, stride, ch, cr, cg, cb),
        InterpolationMethod::Linear => trilinear_s(lut, g, base, stride, ch, cr, cg, cb),
    }
}

/// What a usable lattice looks like: every sample within `0..=65535`.
pub open spec fn lut_wf(lut: Seq<i32>) -> bool {
    forall|i: int| 0 <= i < lut.len() ==> 0 <= #[trigger] lut[i] <= 65535
}

/// One sample from the lattice.
fn fetch_px(lut: &Vec<i32>, g: usize, base: usize, stride: usize, x: usize, y: usize, z: usize,
    ch: usize) -> (r: i64)
    requires
        lut_wf(lut@),
        2 <= g <= 64,
        3 <= stride <= 4,
        ch < stride,
        x < g,
        y < g,
        z < g,
        base + g * g * g * stride <= lut@.len(),
        lut@.len() <= usize::MAX,
    ensures
        r == fetch_s(lut@, g as int, base as int, stride as int, x as int, y as int, z as int,
            ch as int),
        0 <= r <= 65535,
{
    proof {
        assert(x * g <= 63 * 64) by (nonlinear_arith)
            requires
                x < g,
                g <= 64;
        assert(x * g * g <= 63 * 64 * 64) by (nonlinear_arith)
            requires
                x < g,
                g <= 64;
        assert(y * g <= 63 * 64) by (nonlinear_arith)
            requires
                y < g,
                g <= 64;
        assert(0 <= x * g * g) by (nonlinear_arith)
            requires
                0 <= x,
                0 < g;
        assert(0 <= y * g) by (nonlinear_arith)
            requires
                0 <= y,
                0 < g;
        assert((x * g * g + y * g + z) * stride <= (63 * 64 * 64 + 63 * 64 + 63) * 4)
            by (nonlinear_arith)
            requires
                0 <= x * g * g + y * g + z <= 63 * 64 * 64 + 63 * 64 + 63,
                0 < stride <= 4;
        assert(x * g * g + y * g + z <= g * g * g - 1) by (nonlinear_arith)
            requires
                x <= g - 1,
                y <= g - 1,
                z <= g - 1,
                2 <= g;
        assert((x * g * g + y * g + z) * stride + ch < g * g * g * stride) by (nonlinear_arith)
            requires
                0 <= x * g * g + y * g + z <= g * g * g - 1,
                ch < stride,
                0 < stride;
        assert(0 <= x * g * g + y * g + z) by (nonlinear_arith)
            requires
                0 <= x,
                0 <= y,
                0 <= z,
                0 < g;
        assert(0 <= (x * g * g + y * g + z) * stride) by (nonlinear_arith)
            requires
                0 <= x * g * g + y * g + z,
                0 < stride;
    }
    lut[base + (x * g * g + y * g + z) * stride + ch] as i64
}

/// Common framing of the three coordinates: lower corner, upper
/// corner, fractional numerator.
fn frame_coord(c: u8, s: usize) -> (r: (usize, usize, i64))
    requires
        1 <= s <= 63,
    ensures
        r.0 == lo_idx(c as int, s as int),
        r.1 == hi_idx(c as int, s as int),
        r.2 == frac_w(c as int, s as int),
        r.0 <= s,
        r.1 <= s,
        r.0 <= r.1,
        0 <= r.2 < 255,
{
    proof {
        assert(c as int * s as int <= 255 * 63) by (nonlinear_arith)
            requires
                c <= 255,
                s <= 63;
        assert(0 <= c as int * s as int) by (nonlinear_arith)
            requires
                0 <= c as int,
                0 <= s as int;
    }
    let prod: usize = c as usize * s;
    let lo = prod / 255;
    let hi = (prod + 254) / 255;
    let fr = (prod % 255) as i64;
    proof {
        assert(c as int * s as int <= 255 * s as int) by (nonlinear_arith)
            requires
                c <= 255,
                0 <= s;
        assert((255 * s as int) / 255 == s as int) by (nonlinear_arith);
        assert(prod as int / 255 <= (255 * s as int) / 255) by (nonlinear_arith)
            requires
                prod as int <= 255 * s as int;
        assert((prod as int + 254) / 255 <= s as int) by (nonlinear_arith)
            requires
                prod as int <= 255 * s as int;
        assert(prod as int / 255 <= (prod as int + 254) / 255) by (nonlinear_arith);
    }
    (lo, hi, fr)
}

/// Numerator of the selected interpolant at integer coordinates
/// `(cr, cg, cb)`, over the cube starting at `base`.
#[verifier::rlimit(100)]
pub fn interp_px(
    method: InterpolationMethod,
    lut: &Vec<i32>,
    g: usize,
    base: usize,
    stride: usize,
    ch: usize,
    cr: u8,
    cg: u8,
    cb: u8,
) -> (r: i64)
    requires
        lut_wf(lut@),
        2 <= g <= 64,
        3 <= stride <= 4,
        ch < stride,
        base + g * g * g * stride <= lut@.len(),
        lut@.len() <= usize::MAX,
    ensures
        r == interp_s(method, lut@, g as int, base as int, stride as int, ch as int, cr as int,
            cg as int, cb as int),
        -0x10000000000000 <= r <= 0x10000000000000,
{
    let s = g - 1;
    let (x, xn, rx) = frame_coord(cr, s);
    let (y, yn, ry) = frame_coord(cg, s);
    let (z, zn, rz) = frame_coord(cb, s);
    proof {
        assert(forall|a: int, w: int|
            -65535 <= a <= 65535 && 0 <= w <= 255 ==> -16711425 <= #[trigger] (a * w)
                <= 16711425) by (nonlinear_arith);
        assert(forall|w1: int, w2: int|
            0 <= w1 <= 255 && 0 <= w2 <= 255 ==> 0 <= #[trigger] (w1 * w2) <= 65025)
            by (nonlinear_arith);
        assert(forall|a: int, w: int|
            -16711425 <= a <= 16711425 && 0 <= w <= 255 ==> -4261413375 <= #[trigger] (a * w)
                <= 4261413375) by (nonlinear_arith);
        assert(forall|a: int, w: int|
            -131070 <= a <= 131070 && 0 <= w <= 65025 ==> -8523847350 <= #[trigger] (a * w)
                <= 8523847350) by (nonlinear_arith);
        assert(forall|w1: int, w2: int|
            0 <= w1 <= 65025 && 0 <= w2 <= 255 ==> 0 <= #[trigger] (w1 * w2) <= 16581375)
            by (nonlinear_arith);
        assert(forall|a: int, w: int|
            0 <= a <= 65535 && 0 <= w <= 16581375 ==> 0 <= #[trigger] (a * w)
                <= 1086663489375) by (nonlinear_arith);
        assert(forall|a: int, w: int|
            0 <= a <= 65535 && 0 <= w <= 65025 ==> 0 <= #[trigger] (a * w) <= 4261659375)
            by (nonlinear_arith);
    }
    match method {
        InterpolationMethod::Tetrahedral => {
            let c0 = fetch_px(lut, g, base, stride, x, y, z, ch);
            let c1: i64;
            let c2: i64;
            let c3: i64;
            if rx >= ry {
                if ry >= rz {
                    c1 = fetch_px(lut, g, base, stride, xn, y, z, ch) - c0;
                    c2 = fetch_px(lut, g, base, stride, xn, yn, z, ch) - fetch_px(
                        lut, g, base, stride, xn, y, z, ch);
                    c3 = fetch_px(lut, g, base, stride, xn, yn, zn, ch) - fetch_px(
                        lut, g, base, stride, xn, yn, z, ch);
                } else if rx >= rz {
                    c1 = fetch_px(lut, g, base, stride, xn, y, z, ch) - c0;
                    c2 = fetch_px(lut, g, base, stride, xn, yn, zn, ch) - fetch_px(
                        lut, g, base, stride, xn, y, zn, ch);
                    c3 = fetch_px(lut, g, base, stride, xn, y, zn, ch) - fetch_px(
                        lut, g, base, stride, xn, y, z, ch);
                } else {
                    c1 = fetch_px(lut, g, base, stride, xn, y, zn, ch) - fetch_px(
                        lut, g, base, stride, x, y, zn, ch);
                    c2 = fetch_px(lut, g, base, stride, xn, yn, zn, ch) - fetch_px(
                        lut, g, base, stride, xn, y, zn, ch);
                    c3 = fetch_px(lut, g, base, stride, x, y, zn, ch) - c0;
                }
            } else if rx >= rz {
                c1 = fetch_px(lut, g, base, stride, xn, yn, z, ch) - fetch_px(
                    lut, g, base, stride, x, yn, z, ch);
                c2 = fetch_px(lut, g, base, stride, x, yn, z, ch) - c0;
                c3 = fetch_px(lut, g, base, stride, xn, yn, zn, ch) - fetch_px(
                    lut, g, base, stride, xn, yn, z, ch);
            } else if ry >= rz {
                c1 = fetch_px(lut, g, base, stride, xn, yn, zn, ch) - fetch_px(
                    lut, g, base, stride, x, yn, zn, ch);
                c2 = fetch_px(lut, g, base, stride, x, yn, z, ch) - c0;
                c3 = fetch_px(lut, g, base, stride, x, yn, zn, ch) - fetch_px(
                    lut, g, base, stride, x, yn, z, ch);
            } else {
                c1 = fetch_px(lut, g, base, stride, xn, yn, zn, ch) - fetch_px(
                    lut, g, base, stride, x, yn, zn, ch);
                c2 = fetch_px(lut, g, base, stride, x, yn, zn, ch) - fetch_px(
                    lut, g, base, stride, x, y, zn, ch);
                c3 = fetch_px(lut, g, base, stride, x, y, zn, ch) - c0;
            }
            c0 * 255 + c1 * rx + c2 * ry + c3 * rz
        },
        InterpolationMethod::Pyramid => {
            let c0 = fetch_px(lut, g, base, stride, x, y, z, ch);
            if rx > rz && ry > rz {
                let x0 = fetch_px(lut, g, base, stride, xn, yn, zn, ch);
                let x1 = fetch_px(lut, g, base, stride, xn, yn, z, ch);
                let x2 = fetch_px(lut, g, base, stride, xn, y, z, ch);
                let x3 = fetch_px(lut, g, base, stride, x, yn, z, ch);
                c0 * 65025 + (x0 - x1) * rz * 255 + (x2 - c0) * rx * 255 + (x3 - c0) * ry * 255 + (
                c0 - x3 - x2 + x1) * (rx * ry)
            } else if rz > rx && ry > rx {
                let x0 = fetch_px(lut, g, base, stride, x, y, zn, ch);
                let x1 = fetch_px(lut, g, base, stride, xn, yn, zn, ch);
                let x2 = fetch_px(lut, g, base, stride, x, yn, zn, ch);
                let x3 = fetch_px(lut, g, base, stride, x, yn, z, ch);
                c0 * 65025 + (x0 - c0) * rz * 255 + (x1 - x2) * rx * 255 + (x3 - c0) * ry * 255 + (
                c0 - x3 - x0 + x2) * (ry * rz)
            } else {
                let x0 = fetch_px(lut, g, base, stride, x, y, zn, ch);
                let x1 = fetch_px(lut, g, base, stride, xn, y, z, ch);
                let x2 = fetch_px(lut, g, base, stride, xn, y, zn, ch);
                let x3 = fetch_px(lut, g, base, stride, xn, yn, zn, ch);
                c0 * 65025 + (x0 - c0) * rz * 255 + (x1 - c0) * rx * 255 + (x3 - x2) * ry * 255 + (
                c0 - x1 - x0 + x2) * (rz * rx)
            }
        },
        InterpolationMethod::Prism => {
            let c0 = fetch_px(lut, g, base, stride, x, y, z, ch);
            if rz > rx {
                let x0 = fetch_px(lut, g, base, stride, x, y, zn, ch);
                let x1 = fetch_px(lut, g, base, stride, xn, y, zn, ch);
                let x2 = fetch_px(lut, g, base, stride, x, yn, z, ch);
                let x3 = fetch_px(lut, g, base, stride, x, yn, zn, ch);
                let x4 = fetch_px(lut, g, base, stride, xn, yn, zn, ch);
                c0 * 65025 + (x0 - c0) * rz * 255 + (x1 - x0) * rx * 255 + (x2 - c0) * ry * 255 + (
                c0 - x2 - x0 + x3) * (ry * rz) + (x0 - x3 - x1 + x4) * (rx * ry)
            } else {
                let x0 = fetch_px(lut, g, base, stride, xn, y, z, ch);
                let x1 = fetch_px(lut, g, base, stride, xn, y, zn, ch);
                let x2 = fetch_px(lut, g, base, stride, x, yn, z, ch);
                let x3 = fetch_px(lut, g, base, stride, xn, yn, z, ch);
                let x4 = fetch_px(lut, g, base, stride, xn, yn, zn, ch);
                c0 * 65025 + (x1 - x0) * rz * 255 + (x0 - c0) * rx * 255 + (x2 - c0) * ry * 255 + (
                x0 - x3 - x1 + x4) * (ry * rz) + (c0 - x2 - x0 + x3) * (rx * ry)
            }
        },
        InterpolationMethod::Linear => {
            let qx: i64 = 255 - rx;
            let qy: i64 = 255 - ry;
            let qz: i64 = 255 - rz;
            let f000 = fetch_px(lut, g, base, stride, x, y, z, ch);
            let f001 = fetch_px(lut, g, base, stride, x, y, zn, ch);
            let f010 = fetch_px(lut, g, base, stride, x, yn, z, ch);
            let f011 = fetch_px(lut, g, base, stride, x, yn, zn, ch);
            let f100 = fetch_px(lut, g, base, stride, xn, y, z, ch);
            let f101 = fetch_px(lut, g, base, stride, xn, y, zn, ch);
            let f110 = fetch_px(lut, g, base, stride, xn, yn, z, ch);
            let f111 = fetch_px(lut, g, base, stride, xn, yn, zn, ch);
            f000 * (qx * qy * qz) + f001 * (qx * qy * rz) + f010 * (qx * ry * qz) + f011 * (qx * ry
                * rz) + f100 * (rx * qy * qz) + f101 * (rx * qy * rz) + f110 * (rx * ry * qz)
                + f111 * (rx * ry * rz)
        },
    }
}

} // verus!
