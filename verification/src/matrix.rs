//! 3x3 matrices of the pipeline.
//!
//! Profile colorants are stored in ICC s15.16 fixed point, row major:
//! entry `(i, j)` sits at index `i * 3 + j` and holds `value * 65536`.
//! The conversion matrix handed to the per-pixel stages is in Q4.12,
//! the format whose accumulated products fit comfortably in 64 bits.

use vstd::prelude::*;
use crate::err::CmsError;
use crate::mathq::{rdiv_signed, round_div_i128};

verus! {

/// A row-major 3x3 matrix in s15.16 fixed point, such as an RGB-to-XYZ
/// colorant matrix.
#[derive(Debug, Clone, Copy)]
pub struct ColMatrix {
    pub v: [i64; 9],
}

/// A row-major 3x3 matrix in Q4.12, applied per pixel.
#[derive(Debug, Clone, Copy)]
pub struct QMatrix {
    pub v: [i64; 9],
}

/// Colorant entries stay within `[-16, 16]` in s15.16.
pub open spec fn colmatrix_wf(m: ColMatrix) -> bool {
    forall|k: int| 0 <= k < 9 ==> -0x100000 <= #[trigger] m.v[k] <= 0x100000
}

/// Q4.12 entries stay within `(-8, 8)`.
pub open spec fn qmatrix_wf(m: QMatrix) -> bool {
    forall|k: int| 0 <= k < 9 ==> -32767 <= #[trigger] m.v[k] <= 32767
}

/// Determinant of a 3x3 matrix.
pub open spec fn det3(m: ColMatrix) -> int {
    m.v[0] * (m.v[4] * m.v[8] - m.v[5] * m.v[7]) - m.v[1] * (m.v[3] * m.v[8] - m.v[5] * m.v[6])
        + m.v[2] * (m.v[3] * m.v[7] - m.v[4] * m.v[6])
}

/// Adjugate entry `(i, j)` of a 3x3 matrix; the inverse is the adjugate
/// over the determinant.
pub open spec fn adj3(m: ColMatrix, i: int, j: int) -> int {
    if i == 0 && j == 0 {
        m.v[4] * m.v[8] - m.v[5] * m.v[7]
    } else if i == 0 && j == 1 {
        m.v[2] * m.v[7] - m.v[1] * m.v[8]
    } else if i == 0 && j == 2 {
        m.v[1] * m.v[5] - m.v[2] * m.v[4]
    } else if i == 1 && j == 0 {
        m.v[5] * m.v[6] - m.v[3] * m.v[8]
    } else if i == 1 && j == 1 {
        m.v[0] * m.v[8] - m.v[2] * m.v[6]
    } else if i == 1 && j == 2 {
        m.v[2] * m.v[3] - m.v[0] * m.v[5]
    } else if i == 2 && j == 0 {
        m.v[3] * m.v[7] - m.v[4] * m.v[6]
    } else if i == 2 && j == 1 {
        m.v[1] * m.v[6] - m.v[0] * m.v[7]
    } else {
        m.v[0] * m.v[4] - m.v[1] * m.v[3]
    }
}

/// Entry `k` (flat, row major) of the Q4.12 conversion matrix
/// `dst^-1 * src`: the rational entry rounded to Q4.12 and clamped to
/// the representable range.
pub open spec fn qmat_entry_s(src: ColMatrix, dst: ColMatrix, k: int) -> int {
    let i = k / 3;
    let j = k % 3;
    let num = adj3(dst, i, 0) * src.v[j] + adj3(dst, i, 1) * src.v[3 + j] + adj3(dst, i, 2)
        * src.v[6 + j];
    let q = rdiv_signed(num * 4096, det3(dst));
    if q < -32767 {
        -32767
    } else if q > 32767 {
        32767
    } else {
        q
    }
}

/// The identity matrix in Q4.12.
pub open spec fn q_identity_s(k: int) -> int {
    if k == 0 || k == 4 || k == 8 {
        4096
    } else {
        0
    }
}

/// Whether two colorant matrices hold the same entries.
fn colmatrix_eq(a: &ColMatrix, b: &ColMatrix) -> (r: bool)
    ensures
        r <==> (forall|k: int| 0 <= k < 9 ==> a.v[k] == b.v[k]),
{
    let mut k: usize = 0;
    let mut same = true;
    while k < 9
        invariant
            k <= 9,
            same <==> (forall|q: int| 0 <= q < k ==> a.v[q] == b.v[q]),
        decreases 9 - k,
    {
        if a.v[k] != b.v[k] {
            same = false;
        }
        k = k + 1;
    }
    same
}

/// Adjugate entry of `m`, computed in 128-bit arithmetic.
fn adj3_x(m: &ColMatrix, i: usize, j: usize) -> (r: i128)
    requires
        colmatrix_wf(*m),
        i < 3,
        j < 3,
    ensures
        r == adj3(*m, i as int, j as int),
        -0x20000000000 <= r <= 0x20000000000,
{
    let p: (usize, usize, usize, usize) = if i == 0 && j == 0 {
        (4, 8, 5, 7)
    } else if i == 0 && j == 1 {
        (2, 7, 1, 8)
    } else if i == 0 && j == 2 {
        (1, 5, 2, 4)
    } else if i == 1 && j == 0 {
        (5, 6, 3, 8)
    } else if i == 1 && j == 1 {
        (0, 8, 2, 6)
    } else if i == 1 && j == 2 {
        (2, 3, 0, 5)
    } else if i == 2 && j == 0 {
        (3, 7, 4, 6)
    } else if i == 2 && j == 1 {
        (1, 6, 0, 7)
    } else {
        (0, 4, 1, 3)
    };
    let a = m.v[p.0] as i128;
    let b = m.v[p.1] as i128;
    let c = m.v[p.2] as i128;
    let d = m.v[p.3] as i128;
    proof {
        assert(-0x10000000000 <= a * b <= 0x10000000000) by (nonlinear_arith)
            requires
                -0x100000 <= a <= 0x100000,
                -0x100000 <= b <= 0x100000;
        assert(-0x10000000000 <= c * d <= 0x10000000000) by (nonlinear_arith)
            requires
                -0x100000 <= c <= 0x100000,
                -0x100000 <= d <= 0x100000;
    }
    a * b - c * d
}

/// Determinant of `m`, computed in 128-bit arithmetic.
fn det3_x(m: &ColMatrix) -> (r: i128)
    requires
        colmatrix_wf(*m),
    ensures
        r == det3(*m),
        -0x7000000000000000 <= r <= 0x7000000000000000,
{
    let m0 = m.v[0] as i128;
    let m1 = m.v[1] as i128;
    let m2 = m.v[2] as i128;
    let m3 = m.v[3] as i128;
    let m4 = m.v[4] as i128;
    let m5 = m.v[5] as i128;
    let m6 = m.v[6] as i128;
    let m7 = m.v[7] as i128;
    let m8 = m.v[8] as i128;
    proof {
        assert(-0x10000000000 <= m4 * m8 <= 0x10000000000 && -0x10000000000 <= m5 * m7
            <= 0x10000000000 && -0x10000000000 <= m3 * m8 <= 0x10000000000 && -0x10000000000 <= m5
            * m6 <= 0x10000000000 && -0x10000000000 <= m3 * m7 <= 0x10000000000 && -0x10000000000
            <= m4 * m6 <= 0x10000000000) by (nonlinear_arith)
            requires
                -0x100000 <= m3 <= 0x100000,
                -0x100000 <= m4 <= 0x100000,
                -0x100000 <= m5 <= 0x100000,
                -0x100000 <= m6 <= 0x100000,
                -0x100000 <= m7 <= 0x100000,
                -0x100000 <= m8 <= 0x100000;
        assert(forall|a: int, b: int|
            -0x100000 <= a <= 0x100000 && -0x20000000000 <= b <= 0x20000000000 ==> -0x2000000000000000
                <= #[trigger] (a * b) <= 0x2000000000000000) by (nonlinear_arith);
    }
    m0 * (m4 * m8 - m5 * m7) - m1 * (m3 * m8 - m5 * m6) + m2 * (m3 * m7 - m4 * m6)
}

/// Builds the Q4.12 conversion matrix `dst^-1 * src` from two colorant
/// matrices.  Equal colorants give the exact identity; a singular
/// destination matrix is rejected as unusable profile data.
pub fn transform_matrix(src: &ColMatrix, dst: &ColMatrix) -> (r: Result<QMatrix, CmsError>)
    requires
        colmatrix_wf(*src),
        colmatrix_wf(*dst),
    ensures
        r is Err <==> ((exists|k: int| 0 <= k < 9 && src.v[k] != dst.v[k]) && det3(*dst) == 0),
        r matches Err(e) ==> e == CmsError::InvalidIcc,
        r matches Ok(q) ==> qmatrix_wf(q),
        (forall|k: int| 0 <= k < 9 ==> src.v[k] == dst.v[k]) ==> (r matches Ok(q) && forall|
            k: int,
        | 0 <= k < 9 ==> q.v[k] == q_identity_s(k)),
        ((exists|k: int| 0 <= k < 9 && src.v[k] != dst.v[k]) && det3(*dst) != 0) ==> (
        r matches Ok(q) && forall|k: int| 0 <= k < 9 ==> q.v[k] == qmat_entry_s(*src, *dst, k)),
{
    if colmatrix_eq(src, dst) {
        return Ok(QMatrix { v: [4096, 0, 0, 0, 4096, 0, 0, 0, 4096] });
    }
    let det = det3_x(dst);
    if det == 0 {
        return Err(CmsError::InvalidIcc);
    }
    let mut v: [i64; 9] = [0, 0, 0, 0, 0, 0, 0, 0, 0];
    let mut k: usize = 0;
    while k < 9
        invariant
            k <= 9,
            colmatrix_wf(*src),
            colmatrix_wf(*dst),
            det == det3(*dst),
            det != 0,
            -0x7000000000000000 <= det <= 0x7000000000000000,
            forall|q: int| 0 <= q < k ==> v[q] == qmat_entry_s(*src, *dst, q),
            forall|q: int| 0 <= q < k ==> -32767 <= #[trigger] v[q] <= 32767,
        decreases 9 - k,
    {
        let i = k / 3;
        let j = k % 3;
        let a0 = adj3_x(dst, i, 0);
        let a1 = adj3_x(dst, i, 1);
        let a2 = adj3_x(dst, i, 2);
        let s0 = src.v[j] as i128;
        let s1 = src.v[3 + j] as i128;
        let s2 = src.v[6 + j] as i128;
        proof {
            assert(forall|a: int, b: int|
                -0x20000000000 <= a <= 0x20000000000 && -0x100000 <= b <= 0x100000
                    ==> -0x2000000000000000 <= #[trigger] (a * b) <= 0x2000000000000000)
                by (nonlinear_arith);
        }
        let num: i128 = a0 * s0 + a1 * s1 + a2 * s2;
        let q = round_div_i128(num * 4096, det);
        let e: i64 = if q < -32767 {
            -32767
        } else if q > 32767 {
            32767
        } else {
            q as i64
        };
        v[k] = e;
        k = k + 1;
    }
    Ok(QMatrix { v })
}

} // verus!
