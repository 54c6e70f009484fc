//! Tone reproduction curves and the lookup tables baked from them.
//!
//! A curve is either a sampled table (one entry means a pure gamma
//! exponent in unsigned 8.8 fixed point, as ICC curve tags do) or a
//! five-parameter curve `y = (a*x + b)^g` for `x >= d`, else `c*x`,
//! with the parameters in Q16.
//!
//! Curves are first sampled to a fixed internal resolution; the
//! linearization table and the inverse (gamma) table are then built
//! from the samples by interpolation and bisection.

use vstd::prelude::*;
use crate::err::CmsError;
use crate::mathq::{q_pow, q_pow_s, rdiv, round_div_u64};

verus! {

/// Parameters of `y = (a*x + b)^g` for `x >= d`, else `y = c*x`, in Q16.
#[derive(Debug, Clone, Copy, PartialEq, Eq, Structural)]
pub struct CurveParams {
    pub g: u32,
    pub a: u32,
    pub b: u32,
    pub c: u32,
    pub d: u32,
}

/// A tone reproduction curve.
#[derive(Debug, Clone, PartialEq, Eq)]
pub enum ToneCurve {
    /// A sampled curve.  A single entry is a pure gamma exponent in
    /// unsigned 8.8 fixed point; two or more entries are samples of the
    /// curve over `[0, 1]` scaled to `0..=65535`.
    Lut(Vec<u16>),
    /// A five-parameter curve.
    Parametric(CurveParams),
}

/// Whether a curve can be sampled: a table needs at least one entry, a
/// gamma exponent must be positive and at most 64, and parametric
/// coefficients must stay in the ranges the fixed-point kernels accept.
pub open spec fn curve_valid(t: ToneCurve) -> bool {
    match t {
        ToneCurve::Lut(data) => {
            1 <= data@.len() <= 65536 && (data@.len() == 1 ==> 1 <= data@[0] <= 0x4000)
        },
        ToneCurve::Parametric(p) => {
            1 <= p.g <= 0x400000 && p.a <= 0x20000 && p.b <= 65536 && p.c <= 65536 && p.d
                <= 65536
        },
    }
}

/// Resolution of the internal curve sampling: curves are sampled at
/// `CURVE_RES + 1` points.
pub const CURVE_RES: usize = 4096;

/// Scales a Q16 fraction to the `0..=65535` sample range, rounding.
pub open spec fn q16_to_sample(v: int) -> int {
    rdiv(v * 65535, 65536)
}

/// The curve's sample at point `i` of the internal grid, in `0..=65535`.
pub open spec fn curve_sample_s(t: ToneCurve, i: int) -> int {
    match t {
        ToneCurve::Lut(data) => {
            let n = data@.len() as int;
            if n == 1 {
                q16_to_sample(q_pow_s(i * 16, data@[0] * 256))
            } else {
                let pos = i * (n - 1);
                let idx = pos / 4096;
                let frac = pos % 4096;
                if idx >= n - 1 {
                    data@[n - 1] as int
                } else {
                    rdiv(data@[idx] * (4096 - frac) + data@[idx + 1] * frac, 4096)
                }
            }
        },
        ToneCurve::Parametric(p) => {
            let x16 = i * 16;
            if x16 >= p.d {
                let base0 = (p.a * x16 + p.b * 65536) / 65536;
                let base = if base0 > 65536 {
                    65536int
                } else {
                    base0
                };
                q16_to_sample(q_pow_s(base, p.g as int))
            } else {
                q16_to_sample((p.c * x16) / 65536)
            }
        },
    }
}

/// Scales a Q16 value to a `u16` sample, rounding.
fn q16_to_sample_x(v: u32) -> (r: u16)
    requires
        v <= 65536,
    ensures
        r == q16_to_sample(v as int),
{
    let w = round_div_u64(v as u64 * 65535, 65536);
    proof {
        assert(rdiv(v as int * 65535, 65536) <= 65535) by (nonlinear_arith)
            requires
                v <= 65536;
        assert(rdiv(v as int * 65535, 65536) >= 0) by (nonlinear_arith)
            requires
                0 <= v as int;
    }
    w as u16
}

/// Samples a curve at the internal resolution.  Returns `InvalidTrc`
/// exactly when the curve is not valid.
pub fn sample_tone_curve(t: &ToneCurve) -> (r: Result<Vec<u16>, CmsError>)
    ensures
        r is Ok <==> curve_valid(*t),
        r matches Ok(ft) ==> ft@.len() == CURVE_RES + 1 && (forall|i: int|
            0 <= i <= CURVE_RES ==> ft@[i] == curve_sample_s(*t, i)),
        r matches Err(e) ==> e == CmsError::InvalidTrc,
{
    match t {
        ToneCurve::Lut(data) => {
            if data.len() == 0 || data.len() > 65536 {
                return Err(CmsError::InvalidTrc);
            }
            if data.len() == 1 {
                let g0 = data[0];
                if g0 < 1 || g0 > 0x4000 {
                    return Err(CmsError::InvalidTrc);
                }
                let g16: u32 = g0 as u32 * 256;
                let mut ft: Vec<u16> = Vec::new();
                let mut i: usize = 0;
                while i <= 4096
                    invariant
                        i <= 4097,
                        ft@.len() == i,
                        *t == ToneCurve::Lut(*data),
                        1 <= g16 <= 0x400000,
                        data@.len() == 1,
                        g16 == data@[0] * 256,
                        forall|q: int| 0 <= q < i ==> ft@[q] == curve_sample_s(*t, q),
                    decreases 4097 - i,
                {
                    let v = q_pow((i * 16) as u32, g16);
                    ft.push(q16_to_sample_x(v));
                    i = i + 1;
                }
                Ok(ft)
            } else {
                let n = data.len();
                let mut ft: Vec<u16> = Vec::new();
                let mut i: usize = 0;
                while i <= 4096
                    invariant
                        i <= 4097,
                        ft@.len() == i,
                        *t == ToneCurve::Lut(*data),
                        2 <= n <= 65536,
                        n == data@.len(),
                        forall|q: int| 0 <= q < i ==> ft@[q] == curve_sample_s(*t, q),
                    decreases 4097 - i,
                {
                    proof {
                        assert(i as int * (n - 1) <= 4096 * 65535) by (nonlinear_arith)
                            requires
                                i <= 4096,
                                n <= 65536;
                        assert(0 <= i as int * (n - 1)) by (nonlinear_arith)
                            requires
                                0 <= i as int,
                                1 <= (n - 1) as int;
                    }
                    let pos: u64 = (i as u64) * ((n - 1) as u64);
                    let idx: u64 = pos / 4096;
                    let frac: u64 = pos % 4096;
                    let v: u16;
                    if idx >= (n - 1) as u64 {
                        v = data[n - 1];
                    } else {
                        proof {
                            assert(data@[idx as int] * (4096 - frac as int) <= 65535 * 4096)
                                by (nonlinear_arith)
                                requires
                                    0 <= data@[idx as int] <= 65535,
                                    0 <= frac as int <= 4096;
                            assert(data@[idx as int + 1] * (frac as int) <= 65535 * 4096)
                                by (nonlinear_arith)
                                requires
                                    0 <= data@[idx as int + 1] <= 65535,
                                    0 <= frac as int <= 4096;
                            assert(0 <= data@[idx as int] * (4096 - frac as int))
                                by (nonlinear_arith)
                                requires
                                    0 <= data@[idx as int],
                                    frac as int <= 4096;
                            assert(0 <= data@[idx as int + 1] * (frac as int))
                                by (nonlinear_arith)
                                requires
                                    0 <= data@[idx as int + 1],
                                    0 <= frac as int;
                        }
                        let a: u64 = data[idx as usize] as u64 * (4096 - frac) + data[(idx
                            + 1) as usize] as u64 * frac;
                        let w = round_div_u64(a, 4096);
                        proof {
                            assert(data@[idx as int] * (4096 - frac as int) + data@[idx as int
                                + 1] * (frac as int) <= 65535 * 4096) by (nonlinear_arith)
                                requires
                                    0 <= data@[idx as int] <= 65535,
                                    0 <= data@[idx as int + 1] <= 65535,
                                    0 <= frac as int <= 4096;
                            assert(rdiv(a as int, 4096) <= 65535) by (nonlinear_arith)
                                requires
                                    a <= 65535 * 4096;
                            assert(rdiv(a as int, 4096) >= 0) by (nonlinear_arith)
                                requires
                                    0 <= a as int;
                        }
                        v = w as u16;
                    }
                    ft.push(v);
                    i = i + 1;
                }
                Ok(ft)
            }
        },
        ToneCurve::Parametric(p) => {
            if p.g < 1 || p.g > 0x400000 || p.a > 0x20000 || p.b > 65536 || p.c > 65536
                || p.d > 65536 {
                return Err(CmsError::InvalidTrc);
            }
            let mut ft: Vec<u16> = Vec::new();
            let mut i: usize = 0;
            while i <= 4096
                invariant
                    i <= 4097,
                    ft@.len() == i,
                    *t == ToneCurve::Parametric(*p),
                    1 <= p.g <= 0x400000,
                    p.a <= 0x20000,
                    p.b <= 65536,
                    p.c <= 65536,
                    p.d <= 65536,
                    forall|q: int| 0 <= q < i ==> ft@[q] == curve_sample_s(*t, q),
                decreases 4097 - i,
            {
                let x16: u32 = (i * 16) as u32;
                let v: u32;
                if x16 >= p.d {
                    proof {
                        assert(p.a as int * x16 as int <= 0x20000 * 65536) by (nonlinear_arith)
                            requires
                                p.a <= 0x20000,
                                x16 <= 65536;
                        assert(0 <= p.a as int * x16 as int) by (nonlinear_arith)
                            requires
                                0 <= p.a as int,
                                0 <= x16 as int;
                    }
                    let base0: u64 = (p.a as u64 * x16 as u64 + p.b as u64 * 65536) / 65536;
                    let base: u32 = if base0 > 65536 {
                        65536
                    } else {
                        base0 as u32
                    };
                    v = q_pow(base, p.g);
                } else {
                    proof {
                        assert(p.c as int * x16 as int <= 65536 * 65536) by (nonlinear_arith)
                            requires
                                p.c <= 65536,
                                x16 <= 65536;
                        assert(0 <= p.c as int * x16 as int) by (nonlinear_arith)
                            requires
                                0 <= p.c as int,
                                0 <= x16 as int;
                    }
                    v = ((p.c as u64 * x16 as u64) / 65536) as u32;
                    proof {
                        assert((p.c as int * x16 as int) / 65536 <= 65536) by (nonlinear_arith)
                            requires
                                p.c <= 65536,
                                x16 <= 65536;
                        assert((p.c as int * x16 as int) / 65536 >= 0) by (nonlinear_arith)
                            requires
                                0 <= p.c as int,
                                0 <= x16 as int;
                    }
                }
                ft.push(q16_to_sample_x(v));
                i = i + 1;
            }
            Ok(ft)
        },
    }
}

/// The full internal sample table of a curve, as a sequence.
pub open spec fn curve_table_s(t: ToneCurve) -> Seq<u16> {
    Seq::new(4097, |i: int| curve_sample_s(t, i) as u16)
}

/// One linearization table entry: interpolate the curve samples at the
/// position of input code `c` out of `n - 1`, then scale to `0..cap-1`.
pub open spec fn lin_entry_s(ft: Seq<u16>, n: int, cap: int, c: int) -> int {
    let pos = c * 4096 * 65536 / (n - 1);
    let idx = pos / 65536;
    let frac = pos % 65536;
    let v = if idx >= 4096 {
        ft[4096] as int
    } else {
        rdiv(ft[idx] * (65536 - frac) + ft[idx + 1] * frac, 65536)
    };
    rdiv(v * (cap - 1), 65535)
}

/// Builds the linearization table: entry `c` maps input code `c` (out of
/// `n - 1`) to its linear value scaled to `0..=cap-1`.
pub fn build_linear_table(ft: &Vec<u16>, n: usize, cap: u64) -> (r: Vec<i64>)
    requires
        ft@.len() == CURVE_RES + 1,
        2 <= n <= 65536,
        2 <= cap <= 65536,
    ensures
        r@.len() == n,
        forall|c: int| 0 <= c < n ==> r@[c] == lin_entry_s(ft@, n as int, cap as int, c),
        forall|c: int| 0 <= c < n ==> 0 <= #[trigger] r@[c] < cap,
{
    let mut out: Vec<i64> = Vec::new();
    let mut c: usize = 0;
    while c < n
        invariant
            c <= n,
            2 <= n <= 65536,
            2 <= cap <= 65536,
            ft@.len() == 4097,
            out@.len() == c,
            forall|q: int| 0 <= q < c ==> out@[q] == lin_entry_s(ft@, n as int, cap as int, q),
            forall|q: int| 0 <= q < c ==> 0 <= #[trigger] out@[q] < cap,
        decreases n - c,
    {
        let pos: u64 = (c as u64 * 4096 * 65536) / ((n - 1) as u64);
        proof {
            assert(c as int * 4096 * 65536 <= (n - 1) as int * 4096 * 65536)
                by (nonlinear_arith)
                requires
                    c as int <= (n - 1) as int;
            assert((c as int * 4096 * 65536) / ((n - 1) as int) <= 4096 * 65536)
                by (nonlinear_arith)
                requires
                    c as int * 4096 * 65536 <= (n - 1) as int * 4096 * 65536,
                    1 <= (n - 1) as int;
            assert(0 <= (c as int * 4096 * 65536) / ((n - 1) as int)) by (nonlinear_arith)
                requires
                    0 <= c as int * 4096 * 65536,
                    1 <= (n - 1) as int;
        }
        let idx: u64 = pos / 65536;
        let frac: u64 = pos % 65536;
        let v: u64;
        if idx >= 4096 {
            v = ft[4096] as u64;
        } else {
            proof {
                assert(ft@[idx as int] * (65536 - frac as int) <= 65535 * 65536)
                    by (nonlinear_arith)
                    requires
                        0 <= ft@[idx as int] <= 65535,
                        0 <= frac as int <= 65536;
                assert(ft@[idx as int + 1] * (frac as int) <= 65535 * 65536)
                    by (nonlinear_arith)
                    requires
                        0 <= ft@[idx as int + 1] <= 65535,
                        0 <= frac as int <= 65536;
                assert(0 <= ft@[idx as int] * (65536 - frac as int)) by (nonlinear_arith)
                    requires
                        0 <= ft@[idx as int],
                        frac as int <= 65536;
                assert(0 <= ft@[idx as int + 1] * (frac as int)) by (nonlinear_arith)
                    requires
                        0 <= ft@[idx as int + 1],
                        0 <= frac as int;
            }
            let a: u64 = ft[idx as usize] as u64 * (65536 - frac) + ft[(idx + 1) as usize] as u64
                * frac;
            proof {
                assert(ft@[idx as int] * (65536 - frac as int) + ft@[idx as int + 1] * (
                frac as int) <= 65535 * 65536) by (nonlinear_arith)
                    requires
                        0 <= ft@[idx as int] <= 65535,
                        0 <= ft@[idx as int + 1] <= 65535,
                        0 <= frac as int <= 65536;
            }
            proof {
                assert(ft@[idx as int] * (65536 - frac as int) + ft@[idx as int + 1] * (
                frac as int) <= 65535 * 65536) by (nonlinear_arith)
                    requires
                        0 <= ft@[idx as int] <= 65535,
                        0 <= ft@[idx as int + 1] <= 65535,
                        0 <= frac as int <= 65536;
            }
            v = round_div_u64(a, 65536);
            proof {
                assert(rdiv(a as int, 65536) <= 65535) by (nonlinear_arith)
                    requires
                        a <= 65535 * 65536;
                assert(rdiv(a as int, 65536) >= 0) by (nonlinear_arith)
                    requires
                        0 <= a as int;
            }
        }
        proof {
            assert(v as int * (cap - 1) <= 65535 * 65535) by (nonlinear_arith)
                requires
                    v <= 65535,
                    cap <= 65536;
            assert(0 <= v as int * (cap - 1)) by (nonlinear_arith)
                requires
                    0 <= v as int,
                    1 <= (cap - 1) as int;
        }
        let e: u64 = round_div_u64(v * (cap - 1), 65535);
        proof {
            assert(rdiv(v as int * (cap - 1), 65535) < cap as int) by (nonlinear_arith)
                requires
                    0 <= v as int <= 65535,
                    2 <= cap as int;
            assert(rdiv(v as int * (cap - 1), 65535) >= 0) by (nonlinear_arith)
                requires
                    0 <= v as int,
                    1 <= (cap - 1) as int;
        }
        out.push(e as i64);
        c = c + 1;
    }
    out
}

/// Bisection over the curve samples: narrows `[lo, hi]` to a single
/// index, descending into the upper half whenever its midpoint sample
/// is at most the target.
pub open spec fn bsearch_s(ft: Seq<u16>, t: int, lo: int, hi: int) -> int
    decreases hi - lo,
{
    if lo >= hi {
        lo
    } else {
        let mid = (lo + hi + 1) / 2;
        if ft[mid] <= t {
            bsearch_s(ft, t, mid, hi)
        } else {
            bsearch_s(ft, t, lo, mid - 1)
        }
    }
}

/// The inverse position of target `t` on the sampled curve, in units of
/// `1 / (4096 * 65536)` of full scale: bisect to a lattice index, then
/// interpolate within the cell, clamping.
pub open spec fn inv_pos_s(ft: Seq<u16>, t: int) -> int {
    if ft[0] > t {
        0
    } else {
        let i = bsearch_s(ft, t, 0, 4096);
        if i >= 4096 {
            4096int * 65536
        } else {
            let dlt = ft[i + 1] - ft[i];
            let raw = if dlt > 0 {
                (t - ft[i]) * 65536 / dlt
            } else {
                0
            };
            let frac = if raw < 0 {
                0
            } else if raw > 65535 {
                65535
            } else {
                raw
            };
            i * 65536 + frac
        }
    }
}

/// One gamma table entry: the inverse position of the linear value that
/// index `j` (out of `gl - 1`) stands for, scaled to `0..=max_out`.
pub open spec fn gamma_entry_s(ft: Seq<u16>, gl: int, max_out: int, j: int) -> int {
    let t = rdiv(j * 65535, gl - 1);
    rdiv(inv_pos_s(ft, t) * max_out, 4096int * 65536)
}

/// Finds the bisection index for target `t`.
fn bsearch_x(ft: &Vec<u16>, t: u64) -> (r: usize)
    requires
        ft@.len() == CURVE_RES + 1,
        t <= 65535,
    ensures
        r == bsearch_s(ft@, t as int, 0, 4096),
        r <= 4096,
{
    let mut lo: usize = 0;
    let mut hi: usize = 4096;
    while lo < hi
        invariant
            lo <= hi <= 4096,
            ft@.len() == 4097,
            bsearch_s(ft@, t as int, 0, 4096) == bsearch_s(ft@, t as int, lo as int, hi as int),
        decreases hi - lo,
    {
        let mid = (lo + hi + 1) / 2;
        if ft[mid] as u64 <= t {
            lo = mid;
        } else {
            hi = mid - 1;
        }
    }
    lo
}

/// Builds the gamma (inverse) table: entry `j` maps the linear value
/// `j / (gl - 1)` back to an output code in `0..=max_out`.
pub fn build_gamma_table(ft: &Vec<u16>, gl: usize, max_out: u64) -> (r: Vec<u16>)
    requires
        ft@.len() == CURVE_RES + 1,
        2 <= gl <= 65536,
        1 <= max_out <= 65535,
    ensures
        r@.len() == gl,
        forall|j: int| 0 <= j < gl ==> r@[j] == gamma_entry_s(ft@, gl as int, max_out as int, j),
        forall|j: int| 0 <= j < gl ==> 0 <= #[trigger] r@[j] <= max_out,
{
    let mut out: Vec<u16> = Vec::new();
    let mut j: usize = 0;
    while j < gl
        invariant
            j <= gl,
            2 <= gl <= 65536,
            1 <= max_out <= 65535,
            ft@.len() == 4097,
            out@.len() == j,
            forall|q: int| 0 <= q < j ==> out@[q] == gamma_entry_s(
                ft@,
                gl as int,
                max_out as int,
                q,
            ),
            forall|q: int| 0 <= q < j ==> 0 <= #[trigger] out@[q] <= max_out,
        decreases gl - j,
    {
        let t: u64 = round_div_u64(j as u64 * 65535, (gl - 1) as u64);
        proof {
            assert(rdiv(j as int * 65535, (gl - 1) as int) <= 65535) by (nonlinear_arith)
                requires
                    j as int <= (gl - 1) as int,
                    1 <= (gl - 1) as int;
            assert(rdiv(j as int * 65535, (gl - 1) as int) >= 0) by (nonlinear_arith)
                requires
                    0 <= j as int,
                    1 <= (gl - 1) as int;
        }
        let pos: u64;
        if ft[0] as u64 > t {
            pos = 0;
        } else {
            let i = bsearch_x(ft, t);
            if i >= 4096 {
                pos = 4096 * 65536;
            } else {
                let fi = ft[i] as u64;
                let fn1 = ft[i + 1] as u64;
                let raw: u64;
                if fn1 > fi && t >= fi {
                    proof {
                        assert((t as int - fi as int) * 65536 <= 65535 * 65536)
                            by (nonlinear_arith)
                            requires
                                t as int - fi as int <= 65535;
                    }
                    raw = ((t - fi) * 65536) / (fn1 - fi);
                } else {
                    raw = 0;
                }
                let frac: u64 = if raw > 65535 {
                    65535
                } else {
                    raw
                };
                pos = (i as u64) * 65536 + frac;
                proof {
                    let dlt = ft@[i as int + 1] - ft@[i as int];
                    let raws = if dlt > 0 {
                        (t as int - ft@[i as int]) * 65536 / dlt
                    } else {
                        0int
                    };
                    if dlt > 0 && t >= ft@[i as int] {
                        assert((t as int - ft@[i as int]) * 65536 >= 0) by (nonlinear_arith)
                            requires
                                t as int >= ft@[i as int];
                        assert((t as int - ft@[i as int]) * 65536 <= 65535 * 65536)
                            by (nonlinear_arith)
                            requires
                                t as int - ft@[i as int] <= 65535;
                        assert((t as int - ft@[i as int]) * 65536 / (ft@[i as int + 1]
                            - ft@[i as int]) >= 0) by (nonlinear_arith)
                            requires
                                0 <= (t as int - ft@[i as int]) * 65536,
                                1 <= ft@[i as int + 1] - ft@[i as int];
                        assert(raws >= 0);
                    }
                    if dlt > 0 && t < ft@[i as int] {
                        assert((t as int - ft@[i as int]) * 65536 < 0) by (nonlinear_arith)
                            requires
                                (t as int - ft@[i as int]) < 0;
                        assert((t as int - ft@[i as int]) * 65536 / (ft@[i as int + 1]
                            - ft@[i as int]) < 0) by (nonlinear_arith)
                            requires
                                (t as int - ft@[i as int]) * 65536 < 0,
                                1 <= ft@[i as int + 1] - ft@[i as int];
                        assert(raws < 0);
                    }
                }
            }
        }
        proof {
            assert(pos as int * max_out as int <= 4096 * 65536 * 65535) by (nonlinear_arith)
                requires
                    pos <= 4096 * 65536,
                    max_out <= 65535;
            assert(0 <= pos as int * max_out as int) by (nonlinear_arith)
                requires
                    0 <= pos as int,
                    0 <= max_out as int;
        }
        let e: u64 = round_div_u64(pos * max_out, 4096 * 65536);
        proof {
            assert(rdiv(pos as int * max_out as int, 4096int * 65536) <= max_out as int)
                by (nonlinear_arith)
                requires
                    0 <= pos as int <= 4096 * 65536,
                    1 <= max_out as int;
            assert(rdiv(pos as int * max_out as int, 4096int * 65536) >= 0) by (nonlinear_arith)
                requires
                    0 <= pos as int * max_out as int;
            assert(0 <= pos as int * max_out as int) by (nonlinear_arith)
                requires
                    0 <= pos as int,
                    0 <= max_out as int;
        }
        out.push(e as u16);
        j = j + 1;
    }
    out
}


/// Bisection with a target that no sample exceeds lands on the last
/// index.
proof fn lemma_bsearch_all_le(ft: Seq<u16>, t: int, lo: int, hi: int)
    requires
        0 <= lo <= hi,
        hi < ft.len(),
        t >= 65535,
    ensures
        bsearch_s(ft, t, lo, hi) == hi,
    decreases hi - lo,
{
    if lo < hi {
        let mid = (lo + hi + 1) / 2;
        assert(ft[mid] <= t);
        lemma_bsearch_all_le(ft, t, mid, hi);
    }
}

/// Full scale survives the inverse table: the last gamma entry is the
/// largest output code, whatever the curve looks like.
pub proof fn lemma_gamma_full_scale(ft: Seq<u16>, gl: int, mo: int)
    requires
        ft.len() == CURVE_RES + 1,
        2 <= gl,
        1 <= mo,
    ensures
        gamma_entry_s(ft, gl, mo, gl - 1) == mo,
{
    assert(rdiv((gl - 1) * 65535, gl - 1) == 65535) by (nonlinear_arith)
        requires
            1 <= gl - 1;
    lemma_bsearch_all_le(ft, 65535, 0, 4096);
    assert(rdiv(4096 * 65536 * mo, 4096int * 65536) == mo) by (nonlinear_arith)
        requires
            1 <= mo;
}

/// Full scale survives linearization when the curve's last sample is
/// full scale: the last table entry is the largest index.
pub proof fn lemma_linear_full_scale(ft: Seq<u16>, n: int, cap: int)
    requires
        ft.len() == CURVE_RES + 1,
        2 <= n <= 65536,
        2 <= cap <= 65536,
        ft[4096] == 65535,
    ensures
        lin_entry_s(ft, n, cap, n - 1) == cap - 1,
{
    assert((n - 1) * 4096 * 65536 / (n - 1) == 4096 * 65536) by (nonlinear_arith)
        requires
            1 <= n - 1;
    assert(rdiv(65535 * (cap - 1), 65535) == cap - 1) by (nonlinear_arith)
        requires
            1 <= cap - 1;
}


/// Bisection with every sample above the target beyond `lo` stays at
/// `lo`.
proof fn lemma_bsearch_all_gt(ft: Seq<u16>, t: int, lo: int, hi: int)
    requires
        0 <= lo <= hi,
        hi < ft.len(),
        forall|i: int| lo < i <= hi ==> #[trigger] ft[i] > t,
    ensures
        bsearch_s(ft, t, lo, hi) == lo,
    decreases hi - lo,
{
    if lo < hi {
        let mid = (lo + hi + 1) / 2;
        assert(ft[mid] > t);
        lemma_bsearch_all_gt(ft, t, lo, mid - 1);
    }
}

/// Zero survives linearization when the curve starts at zero.
pub proof fn lemma_linear_zero(ft: Seq<u16>, n: int, cap: int)
    requires
        ft.len() == CURVE_RES + 1,
        2 <= n <= 65536,
        2 <= cap <= 65536,
        ft[0] == 0,
    ensures
        lin_entry_s(ft, n, cap, 0) == 0,
{
    assert(0int * 4096 * 65536 / (n - 1) == 0) by (nonlinear_arith)
        requires
            1 <= n - 1;
    assert(ft[0] * (65536 - 0int) == 0) by (nonlinear_arith)
        requires
            ft[0] == 0;
    assert(ft[1] * 0int == 0) by (nonlinear_arith);
    assert(rdiv(0int, 65536) == 0) by (nonlinear_arith);
    assert(rdiv(0int * (cap - 1), 65535) == 0) by (nonlinear_arith);
}

/// Zero survives the inverse table when the curve starts at zero and
/// rises immediately.
pub proof fn lemma_gamma_zero(ft: Seq<u16>, gl: int, mo: int)
    requires
        ft.len() == CURVE_RES + 1,
        2 <= gl,
        1 <= mo,
        ft[0] == 0,
        forall|i: int| 1 <= i <= CURVE_RES ==> #[trigger] ft[i] > 0,
    ensures
        gamma_entry_s(ft, gl, mo, 0) == 0,
{
    assert(rdiv(0int * 65535, gl - 1) == 0) by (nonlinear_arith)
        requires
            1 <= gl - 1;
    lemma_bsearch_all_gt(ft, 0, 0, 4096);
    assert(ft[1] - ft[0] > 0);
    assert((0 - ft[0]) * 65536 / (ft[1] - ft[0]) == 0) by (nonlinear_arith)
        requires
            ft[0] == 0,
            1 <= ft[1] - ft[0];
    assert(rdiv((0int * 65536 + 0) * mo, 4096int * 65536) == 0) by (nonlinear_arith);
}


/// On a non-decreasing sample table whose sample at `lo` does not
/// exceed the target, bisection finds the largest index in `[lo, hi]`
/// whose sample is at most the target.
pub proof fn lemma_bsearch_sorted(ft: Seq<u16>, t: int, lo: int, hi: int)
    requires
        0 <= lo <= hi < ft.len(),
        sorted_table(ft),
        ft[lo] <= t,
    ensures
        lo <= bsearch_s(ft, t, lo, hi) <= hi,
        ft[bsearch_s(ft, t, lo, hi)] <= t,
        forall|i: int| bsearch_s(ft, t, lo, hi) < i <= hi ==> #[trigger] ft[i] > t,
    decreases hi - lo,
{
    if lo < hi {
        let mid = (lo + hi + 1) / 2;
        if ft[mid] <= t {
            lemma_bsearch_sorted(ft, t, mid, hi);
        } else {
            lemma_bsearch_sorted(ft, t, lo, mid - 1);
            let r = bsearch_s(ft, t, lo, mid - 1);
            assert forall|i: int| r < i <= hi implies #[trigger] ft[i] > t by {
                if i >= mid {
                    assert(ft[mid] <= ft[i]);
                }
            }
        }
    }
}


/// A monotone non-decreasing sample table, as spec invariants expect
/// of every tone reproduction curve.
pub open spec fn sorted_table(ft: Seq<u16>) -> bool {
    forall|i: int, j: int| 0 <= i <= j < ft.len() ==> #[trigger] ft[i] <= #[trigger] ft[j]
}

proof fn lemma_div_mono(a: int, b: int, d: int)
    requires
        a <= b,
        0 < d,
    ensures
        a / d <= b / d,
{
    assert(a / d <= b / d) by (nonlinear_arith)
        requires
            a <= b,
            0 < d;
}

proof fn lemma_rdiv_mono(a: int, b: int, d: int)
    requires
        a <= b,
        0 < d,
    ensures
        rdiv(a, d) <= rdiv(b, d),
{
    lemma_div_mono(2 * a + d, 2 * b + d, 2 * d);
}

proof fn lemma_mul_mono(a: int, b: int, k: int)
    requires
        a <= b,
        0 <= k,
    ensures
        a * k <= b * k,
{
    assert(a * k <= b * k) by (nonlinear_arith)
        requires
            a <= b,
            0 <= k;
}

/// The interpolated value inside one cell of a monotone table lies
/// between the cell's endpoints.
proof fn lemma_cell_value_bounds(ft: Seq<u16>, idx: int, frac: int)
    requires
        ft.len() == CURVE_RES + 1,
        0 <= idx < CURVE_RES,
        0 <= frac <= 65536,
        ft[idx] <= ft[idx + 1],
    ensures
        ft[idx] <= rdiv(ft[idx] * (65536 - frac) + ft[idx + 1] * frac, 65536) <= ft[idx + 1],
{
    let num = ft[idx] * (65536 - frac) + ft[idx + 1] * frac;
    assert(ft[idx] * 65536 <= num) by (nonlinear_arith)
        requires
            num == ft[idx] * (65536 - frac) + ft[idx + 1] * frac,
            ft[idx] <= ft[idx + 1],
            0 <= frac;
    assert(num <= ft[idx + 1] * 65536) by (nonlinear_arith)
        requires
            num == ft[idx] * (65536 - frac) + ft[idx + 1] * frac,
            ft[idx] <= ft[idx + 1],
            frac <= 65536;
    lemma_rdiv_mono(ft[idx] * 65536, num, 65536);
    lemma_rdiv_mono(num, ft[idx + 1] * 65536, 65536);
    assert(rdiv(ft[idx] as int * 65536, 65536) == ft[idx]) by (nonlinear_arith);
    assert(rdiv(ft[idx + 1] as int * 65536, 65536) == ft[idx + 1]) by (nonlinear_arith);
}

/// A monotone curve table gives a monotone linearization table.
pub proof fn lemma_linear_monotone(ft: Seq<u16>, n: int, cap: int, c1: int, c2: int)
    requires
        ft.len() == CURVE_RES + 1,
        sorted_table(ft),
        2 <= n <= 65536,
        2 <= cap <= 65536,
        0 <= c1 <= c2 < n,
    ensures
        lin_entry_s(ft, n, cap, c1) <= lin_entry_s(ft, n, cap, c2),
{
    let pos1 = c1 * 4096 * 65536 / (n - 1);
    let pos2 = c2 * 4096 * 65536 / (n - 1);
    assert(c1 * 4096 * 65536 <= c2 * 4096 * 65536) by (nonlinear_arith)
        requires
            c1 <= c2;
    lemma_div_mono(c1 * 4096 * 65536, c2 * 4096 * 65536, n - 1);
    assert(0 <= c1 * 4096 * 65536) by (nonlinear_arith)
        requires
            0 <= c1;
    assert(0 <= pos1) by (nonlinear_arith)
        requires
            pos1 == c1 * 4096 * 65536 / (n - 1),
            0 <= c1 * 4096 * 65536,
            1 <= n - 1;
    assert(c2 * 4096 * 65536 <= (n - 1) * (4096 * 65536)) by (nonlinear_arith)
        requires
            c2 <= n - 1;
    assert(pos2 <= 4096 * 65536) by (nonlinear_arith)
        requires
            pos2 == c2 * 4096 * 65536 / (n - 1),
            c2 * 4096 * 65536 <= (n - 1) * (4096 * 65536),
            1 <= n - 1;
    let idx1 = pos1 / 65536;
    let frac1 = pos1 % 65536;
    let idx2 = pos2 / 65536;
    let frac2 = pos2 % 65536;
    lemma_div_mono(pos1, pos2, 65536);
    let v1 = if idx1 >= 4096 {
        ft[4096] as int
    } else {
        rdiv(ft[idx1] * (65536 - frac1) + ft[idx1 + 1] * frac1, 65536)
    };
    let v2 = if idx2 >= 4096 {
        ft[4096] as int
    } else {
        rdiv(ft[idx2] * (65536 - frac2) + ft[idx2 + 1] * frac2, 65536)
    };
    if idx1 < 4096 {
        lemma_cell_value_bounds(ft, idx1, frac1);
    }
    if idx2 < 4096 {
        lemma_cell_value_bounds(ft, idx2, frac2);
    }
    if idx1 == idx2 && idx1 < 4096 {
        assert(frac1 <= frac2);
        assert(ft[idx1] * (65536 - frac1) + ft[idx1 + 1] * frac1 <= ft[idx1] * (65536 - frac2)
            + ft[idx1 + 1] * frac2) by (nonlinear_arith)
            requires
                frac1 <= frac2,
                ft[idx1] <= ft[idx1 + 1];
        lemma_rdiv_mono(
            ft[idx1] * (65536 - frac1) + ft[idx1 + 1] * frac1,
            ft[idx1] * (65536 - frac2) + ft[idx1 + 1] * frac2,
            65536,
        );
    } else if idx1 < idx2 {
        if idx2 < 4096 {
            assert(ft[idx1 + 1] <= ft[idx2]);
        } else {
            assert(ft[idx1 + 1] <= ft[4096]);
        }
    }
    assert(v1 <= v2);
    lemma_mul_mono(v1, v2, cap - 1);
    lemma_rdiv_mono(v1 * (cap - 1), v2 * (cap - 1), 65535);
}

/// A monotone curve table gives a monotone inverse (gamma) table.
pub proof fn lemma_gamma_monotone(ft: Seq<u16>, gl: int, mo: int, j1: int, j2: int)
    requires
        ft.len() == CURVE_RES + 1,
        sorted_table(ft),
        2 <= gl <= 65536,
        1 <= mo <= 65535,
        0 <= j1 <= j2 < gl,
    ensures
        gamma_entry_s(ft, gl, mo, j1) <= gamma_entry_s(ft, gl, mo, j2),
{
    let t1 = rdiv(j1 * 65535, gl - 1);
    let t2 = rdiv(j2 * 65535, gl - 1);
    lemma_mul_mono(j1, j2, 65535);
    lemma_rdiv_mono(j1 * 65535, j2 * 65535, gl - 1);
    assert(0 <= j1 * 65535) by (nonlinear_arith)
        requires
            0 <= j1;
    assert(0 <= t1) by (nonlinear_arith)
        requires
            t1 == rdiv(j1 * 65535, gl - 1),
            0 <= j1 * 65535,
            1 <= gl - 1;
    let pos1 = inv_pos_s(ft, t1);
    let pos2 = inv_pos_s(ft, t2);
    lemma_inv_pos_mono(ft, t1, t2);
    lemma_mul_mono(pos1, pos2, mo);
    lemma_rdiv_mono(pos1 * mo, pos2 * mo, 4096int * 65536);
}

/// The inverse position is monotone in its target on a monotone table.
proof fn lemma_inv_pos_mono(ft: Seq<u16>, t1: int, t2: int)
    requires
        ft.len() == CURVE_RES + 1,
        sorted_table(ft),
        0 <= t1 <= t2,
    ensures
        inv_pos_s(ft, t1) <= inv_pos_s(ft, t2),
{
    lemma_inv_pos_bounds(ft, t2);
    if ft[0] > t1 {
    } else {
        lemma_bsearch_sorted(ft, t1, 0, 4096);
        lemma_bsearch_sorted(ft, t2, 0, 4096);
        let i1 = bsearch_s(ft, t1, 0, 4096);
        let i2 = bsearch_s(ft, t2, 0, 4096);
        if i1 > i2 {
            assert(ft[i1] > t2);
            assert(ft[i1] <= t1);
            assert(false);
        }
        if i1 >= 4096 {
        } else if i2 >= 4096 {
            assert(inv_pos_s(ft, t1) < (i1 + 1) * 65536);
            assert((i1 + 1) * 65536 <= 4096 * 65536) by (nonlinear_arith)
                requires
                    i1 + 1 <= 4096;
        } else if i1 == i2 {
            let dlt = ft[i1 + 1] - ft[i1];
            if dlt > 0 {
                assert((t1 - ft[i1]) * 65536 <= (t2 - ft[i1]) * 65536) by (nonlinear_arith)
                    requires
                        t1 <= t2;
                lemma_div_mono((t1 - ft[i1]) * 65536, (t2 - ft[i1]) * 65536, dlt);
            }
        } else {
            assert(inv_pos_s(ft, t1) < (i1 + 1) * 65536);
            assert((i1 + 1) * 65536 <= i2 * 65536) by (nonlinear_arith)
                requires
                    i1 + 1 <= i2;
            assert(i2 * 65536 <= inv_pos_s(ft, t2));
        }
    }
}

/// The inverse position lies within the table's span.
proof fn lemma_inv_pos_bounds(ft: Seq<u16>, t: int)
    requires
        ft.len() == CURVE_RES + 1,
        sorted_table(ft),
        0 <= t,
    ensures
        0 <= inv_pos_s(ft, t) <= 4096 * 65536,
{
    if ft[0] > t {
    } else {
        lemma_bsearch_sorted(ft, t, 0, 4096);
        let i = bsearch_s(ft, t, 0, 4096);
        if i < 4096 {
            assert(0 <= i * 65536) by (nonlinear_arith)
                requires
                    0 <= i;
            assert(i * 65536 + 65535 < (i + 1) * 65536) by (nonlinear_arith);
            assert((i + 1) * 65536 <= 4096 * 65536) by (nonlinear_arith)
                requires
                    i + 1 <= 4096;
        }
    }
}

} // verus!
