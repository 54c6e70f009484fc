//! Matrix stages of the pipeline, as per-pixel numeric kernels.
//!
//! A pixel's three linear values (each in `0..cap`, where `cap - 1`
//! stands for full scale) pass through a Q4.12 matrix and come out as
//! indices into the gamma tables.  Two variants exist: the fused
//! matrix-clip-scale stage clamps each channel independently, while the
//! gamut-clip stage scales the whole triple uniformly back into range
//! when its largest magnitude overshoots, preserving hue at the cost of
//! lightness.

use vstd::prelude::*;
use crate::mathq::rdiv;
use crate::matrix::{QMatrix, qmatrix_wf};

verus! {

/// The Q4.12 rounding constant: nearest toward zero, `2^11 - 1`.
pub const Q12_ROUND: i64 = 2047;

/// Dot product of matrix row `row` with the linear triple.
pub open spec fn mat_dot_s(m: QMatrix, row: int, r: int, g: int, b: int) -> int {
    m.v[row * 3] * r + m.v[row * 3 + 1] * g + m.v[row * 3 + 2] * b
}

/// Floor of `acc / 4096`, written with a bias so that the division
/// never sees a negative operand.
pub open spec fn q12_floor_s(acc: int) -> int {
    (acc + 0x200000000) / 4096 - 0x200000
}

/// The fused matrix-clip-scale stage on one channel: matrix row, Q4.12
/// rounding shift, clamp to `0..cap`.
pub open spec fn clip_scale_s(m: QMatrix, row: int, r: int, g: int, b: int, cap: int) -> int {
    let w = q12_floor_s(mat_dot_s(m, row, r, g, b) + 2047);
    if w < 0 {
        0
    } else if w > cap - 1 {
        cap - 1
    } else {
        w
    }
}

/// Magnitude of a value.
pub open spec fn abs_s(x: int) -> int {
    if x < 0 {
        -x
    } else {
        x
    }
}

/// Largest magnitude of the three channels after the matrix.
pub open spec fn gamut_max_s(m: QMatrix, r: int, g: int, b: int) -> int {
    let w0 = abs_s(q12_floor_s(mat_dot_s(m, 0, r, g, b) + 2047));
    let w1 = abs_s(q12_floor_s(mat_dot_s(m, 1, r, g, b) + 2047));
    let w2 = abs_s(q12_floor_s(mat_dot_s(m, 2, r, g, b) + 2047));
    if w0 >= w1 && w0 >= w2 {
        w0
    } else if w1 >= w2 {
        w1
    } else {
        w2
    }
}

/// The gamut-clip stage on one channel: when the largest magnitude
/// `mx` exceeds full scale, scale the channel by `(cap - 1) / mx`;
/// clamp to `0..cap` either way.
pub open spec fn gamut_channel_s(w: int, mx: int, cap: int) -> int {
    if mx > cap - 1 {
        if w <= 0 {
            0
        } else {
            let v = rdiv(w * (cap - 1), mx);
            if v > cap - 1 {
                cap - 1
            } else {
                v
            }
        }
    } else if w < 0 {
        0
    } else if w > cap - 1 {
        cap - 1
    } else {
        w
    }
}

/// One channel through the selected stage pair: either the fused
/// matrix-clip-scale stage, or the matrix stage followed by the
/// gamut-clip stage.
pub open spec fn stage_channel_s(
    m: QMatrix,
    use_gamut: bool,
    row: int,
    r: int,
    g: int,
    b: int,
    cap: int,
) -> int {
    if use_gamut {
        gamut_channel_s(
            q12_floor_s(mat_dot_s(m, row, r, g, b) + 2047),
            gamut_max_s(m, r, g, b),
            cap,
        )
    } else {
        clip_scale_s(m, row, r, g, b, cap)
    }
}

/// Dot product of one matrix row with the linear triple, in 64 bits.
fn mat_dot_px(m: &QMatrix, row: usize, r: i64, g: i64, b: i64) -> (acc: i64)
    requires
        qmatrix_wf(*m),
        row < 3,
        0 <= r < 65536,
        0 <= g < 65536,
        0 <= b < 65536,
    ensures
        acc == mat_dot_s(*m, row as int, r as int, g as int, b as int),
        -0x180000000 <= acc <= 0x180000000,
{
    proof {
        assert(forall|c: int, x: int|
            -32767 <= c <= 32767 && 0 <= x < 65536 ==> -0x80000000 <= #[trigger] (c * x)
                <= 0x80000000) by (nonlinear_arith);
    }
    m.v[row * 3] * r + m.v[row * 3 + 1] * g + m.v[row * 3 + 2] * b
}

/// Floor of `acc / 4096` via the bias trick.
fn q12_floor_px(acc: i64) -> (w: i64)
    requires
        -0x180000000 - 2048 <= acc <= 0x180000000 + 2048,
    ensures
        w == q12_floor_s(acc as int),
        -0x200000 <= w <= 0x200000,
{
    (acc + 0x200000000) / 4096 - 0x200000
}

/// All three channels of one pixel through the selected stages; each
/// result is an index below `cap`.
pub fn apply_stages_px(m: &QMatrix, use_gamut: bool, r: i64, g: i64, b: i64, cap: i64) -> (out: (
    i64,
    i64,
    i64,
))
    requires
        qmatrix_wf(*m),
        0 <= r < 65536,
        0 <= g < 65536,
        0 <= b < 65536,
        2 <= cap <= 65536,
    ensures
        out.0 == stage_channel_s(*m, use_gamut, 0, r as int, g as int, b as int, cap as int),
        out.1 == stage_channel_s(*m, use_gamut, 1, r as int, g as int, b as int, cap as int),
        out.2 == stage_channel_s(*m, use_gamut, 2, r as int, g as int, b as int, cap as int),
        0 <= out.0 < cap,
        0 <= out.1 < cap,
        0 <= out.2 < cap,
{
    let w0 = q12_floor_px(mat_dot_px(m, 0, r, g, b) + Q12_ROUND);
    let w1 = q12_floor_px(mat_dot_px(m, 1, r, g, b) + Q12_ROUND);
    let w2 = q12_floor_px(mat_dot_px(m, 2, r, g, b) + Q12_ROUND);
    if use_gamut {
        let a0 = if w0 < 0 {
            -w0
        } else {
            w0
        };
        let a1 = if w1 < 0 {
            -w1
        } else {
            w1
        };
        let a2 = if w2 < 0 {
            -w2
        } else {
            w2
        };
        let mx = if a0 >= a1 && a0 >= a2 {
            a0
        } else if a1 >= a2 {
            a1
        } else {
            a2
        };
        (
            gamut_channel_px(w0, mx, cap),
            gamut_channel_px(w1, mx, cap),
            gamut_channel_px(w2, mx, cap),
        )
    } else {
        let c0 = if w0 < 0 {
            0
        } else if w0 > cap - 1 {
            cap - 1
        } else {
            w0
        };
        let c1 = if w1 < 0 {
            0
        } else if w1 > cap - 1 {
            cap - 1
        } else {
            w1
        };
        let c2 = if w2 < 0 {
            0
        } else if w2 > cap - 1 {
            cap - 1
        } else {
            w2
        };
        (c0, c1, c2)
    }
}

/// The gamut-clip stage on one channel.
fn gamut_channel_px(w: i64, mx: i64, cap: i64) -> (r: i64)
    requires
        -0x200000 <= w <= 0x200000,
        abs_s(w as int) <= mx <= 0x200000,
        2 <= cap <= 65536,
    ensures
        r == gamut_channel_s(w as int, mx as int, cap as int),
        0 <= r < cap,
{
    if mx > cap - 1 {
        if w <= 0 {
            0
        } else {
            proof {
                assert(0 <= w as int * (cap - 1) <= 0x200000 * 65535) by (nonlinear_arith)
                    requires
                        0 <= w <= 0x200000,
                        1 <= cap - 1 <= 65535;
                assert(rdiv(w as int * (cap - 1), mx as int) >= 0) by (nonlinear_arith)
                    requires
                        0 <= w as int * (cap - 1),
                        1 <= mx as int;
            }
            let v = (2 * (w * (cap - 1)) + mx) / (2 * mx);
            if v > cap - 1 {
                cap - 1
            } else {
                v
            }
        }
    } else if w < 0 {
        0
    } else if w > cap - 1 {
        cap - 1
    } else {
        w
    }
}


/// The identity matrix in Q4.12 passes a linear triple through either
/// stage pair unchanged: the rounding constant is too small to move a
/// value to the next index, and in-range values never trip the gamut
/// clip.
pub proof fn lemma_identity_matrix_stage(
    m: QMatrix,
    use_gamut: bool,
    r: int,
    g: int,
    b: int,
    cap: int,
)
    requires
        forall|k: int| 0 <= k < 9 ==> #[trigger] m.v[k] == crate::matrix::q_identity_s(k),
        0 <= r < cap,
        0 <= g < cap,
        0 <= b < cap,
        2 <= cap <= 65536,
    ensures
        stage_channel_s(m, use_gamut, 0, r, g, b, cap) == r,
        stage_channel_s(m, use_gamut, 1, r, g, b, cap) == g,
        stage_channel_s(m, use_gamut, 2, r, g, b, cap) == b,
{
    assert(m.v[0] == 4096 && m.v[1] == 0 && m.v[2] == 0);
    assert(m.v[3] == 0 && m.v[4] == 4096 && m.v[5] == 0);
    assert(m.v[6] == 0 && m.v[7] == 0 && m.v[8] == 4096);
    assert(mat_dot_s(m, 0, r, g, b) == 4096 * r + 0 * g + 0 * b);
    assert(mat_dot_s(m, 1, r, g, b) == 0 * r + 4096 * g + 0 * b);
    assert(mat_dot_s(m, 2, r, g, b) == 0 * r + 0 * g + 0 * b + 4096 * b);
    lemma_q12_identity_step(r);
    lemma_q12_identity_step(g);
    lemma_q12_identity_step(b);
}

/// Scaling by Q4.12 one and shifting back is the identity on indices.
proof fn lemma_q12_identity_step(v: int)
    requires
        0 <= v < 65536,
    ensures
        q12_floor_s(4096 * v + 2047) == v,
{
    assert((4096 * v + 2047 + 0x200000000) / 4096 == v + 0x200000) by (nonlinear_arith)
        requires
            0 <= v;
}

} // verus!
