//! Fixed-point numeric helpers.
//!
//! Everything the engine computes is integer arithmetic.  Fractions are
//! carried in binary fixed point: Q16 for values in `[0, 1]` (so `1.0`
//! is 65536), Q30 inside the logarithm/exponential kernels, and Q4.12
//! for matrix entries.  Rounding is nearest with ties away from zero
//! throughout, which is the documented tie-break of this engine.

use vstd::prelude::*;

verus! {

/// `2^n` as a mathematical integer.
pub open spec fn p2(n: nat) -> int
    decreases n,
{
    if n == 0 {
        1
    } else {
        2 * p2((n - 1) as nat)
    }
}

proof fn lemma_p2_pos(n: nat)
    ensures
        p2(n) >= 1,
    decreases n,
{
    if n > 0 {
        lemma_p2_pos((n - 1) as nat);
    }
}

proof fn lemma_p2_monotone(a: nat, b: nat)
    requires
        a <= b,
    ensures
        p2(a) <= p2(b),
    decreases b,
{
    if a < b {
        lemma_p2_monotone(a, (b - 1) as nat);
        lemma_p2_pos((b - 1) as nat);
    }
}

proof fn lemma_p2_concrete()
    ensures
        p2(12) == 0x1000,
        p2(15) == 0x8000,
        p2(16) == 0x10000,
        p2(29) == 0x20000000,
        p2(30) == 0x40000000,
        p2(31) == 0x80000000,
        p2(32) == 0x100000000,
        p2(61) == 0x2000000000000000,
        p2(62) == 0x4000000000000000,
{
    reveal_with_fuel(p2, 64);
}

/// `2^e` for machine-sized exponents.
pub fn pow2_u64(e: u64) -> (r: u64)
    requires
        e <= 62,
    ensures
        r == p2(e as nat),
{
    let mut r: u64 = 1;
    let mut i: u64 = 0;
    while i < e
        invariant
            i <= e,
            e <= 62,
            r == p2(i as nat),
        decreases e - i,
    {
        proof {
            lemma_p2_monotone(i as nat, 61);
            lemma_p2_concrete();
        }
        r = r * 2;
        i = i + 1;
    }
    r
}

/// Ceiling division for non-negative operands, written as the rounding
/// form `(a + b - 1) / b`.
pub open spec fn sdiv_ceil(a: int, b: int) -> int {
    (a + b - 1) / b
}

/// Rounding ceiling division: `(a + b - 1) / b` for `a >= 0`, `b > 0`.
pub fn rounding_div_ceil(a: i64, b: i64) -> (r: i64)
    requires
        0 <= a,
        0 < b,
        a + b - 1 <= i64::MAX,
    ensures
        r == sdiv_ceil(a as int, b as int),
{
    (a - 1 + b) / b
}

/// Division rounded to nearest, ties away from zero, for non-negative
/// operands: `(2a + b) / (2b)`.
pub open spec fn rdiv(a: int, b: int) -> int {
    (2 * a + b) / (2 * b)
}

/// Rounded division of non-negative `a` by positive `b`.
pub fn round_div_u64(a: u64, b: u64) -> (r: u64)
    requires
        0 < b,
        2 * a + b <= u64::MAX,
        2 * b <= u64::MAX,
    ensures
        r == rdiv(a as int, b as int),
{
    (2 * a + b) / (2 * b)
}

/// Rounded division for signed operands, ties away from zero.
pub open spec fn rdiv_signed(a: int, b: int) -> int {
    let na = if b < 0 {
        -a
    } else {
        a
    };
    let nb = if b < 0 {
        -b
    } else {
        b
    };
    if na >= 0 {
        (2 * na + nb) / (2 * nb)
    } else {
        -((2 * -na + nb) / (2 * nb))
    }
}

/// Rounded division of a signed value by a non-zero signed divisor.
pub fn round_div_i128(a: i128, b: i128) -> (r: i128)
    requires
        b != 0,
        -0x1000000000000000000000000000000 <= a <= 0x1000000000000000000000000000000,
        -0x1000000000000000000000000000000 <= b <= 0x1000000000000000000000000000000,
    ensures
        r == rdiv_signed(a as int, b as int),
{
    let na: i128 = if b < 0 {
        -a
    } else {
        a
    };
    let nb: i128 = if b < 0 {
        -b
    } else {
        b
    };
    if na >= 0 {
        (2 * na + nb) / (2 * nb)
    } else {
        -((2 * -na + nb) / (2 * nb))
    }
}

/// Number of doublings needed to bring `x` into `[65536, 131071]`,
/// with enough fuel for any positive 16-bit value.
pub open spec fn lead_shift_n(x: int, fuel: nat) -> nat
    decreases fuel,
{
    if fuel == 0 || x <= 0 || x >= 65536 {
        0
    } else {
        1 + lead_shift_n(2 * x, (fuel - 1) as nat)
    }
}

/// Number of doublings needed to bring `x` into `[65536, 131071]`.
pub open spec fn lead_shift(x: int) -> nat {
    lead_shift_n(x, 17)
}

/// One squaring scan of the base-two logarithm: starting from a Q30
/// mantissa in `[1, 2)`, each step squares the mantissa, renormalizes,
/// and shifts the extracted bit into the fraction accumulator.  The
/// result is `(mantissa, fraction)` after `steps` steps; the fraction
/// approaches `log2(m) * 2^steps`.
pub open spec fn log2_scan(m: int, steps: nat) -> (int, int)
    decreases steps,
{
    if steps == 0 {
        (m, 0)
    } else {
        let prev = log2_scan(m, (steps - 1) as nat);
        let msq = (prev.0 * prev.0) / 0x40000000;
        if msq >= 0x80000000 {
            (msq / 2, 2 * prev.1 + 1)
        } else {
            (msq, 2 * prev.1)
        }
    }
}

/// Fractional part of `log2` of a Q30 mantissa in `[1, 2)`, in Q30.
fn log2_frac_q30(m0: u64) -> (r: u64)
    requires
        0x40000000 <= m0 < 0x80000000,
    ensures
        r == log2_scan(m0 as int, 30).1,
        r < 0x40000000,
{
    let mut m: u64 = m0;
    let mut f: u64 = 0;
    let mut i: u64 = 0;
    while i < 30
        invariant
            i <= 30,
            0x40000000 <= m < 0x80000000,
            f < p2(i as nat),
            (m as int, f as int) == log2_scan(m0 as int, i as nat),
        decreases 30 - i,
    {
        proof {
            lemma_p2_monotone(i as nat + 1, 30);
            lemma_p2_concrete();
            assert(m * m < 0x80000000 * 0x80000000) by (nonlinear_arith)
                requires
                    m < 0x80000000;
            assert((m as int * m as int) / 0x40000000 >= 0x40000000) by (nonlinear_arith)
                requires
                    0x40000000 <= m as int;
            assert((m as int * m as int) / 0x40000000 < 0x100000000) by (nonlinear_arith)
                requires
                    0 <= m as int,
                    (m as int) < 0x80000000;
        }
        let msq: u64 = (m * m) / 0x40000000;
        if msq >= 0x80000000 {
            m = msq / 2;
            f = 2 * f + 1;
        } else {
            m = msq;
            f = 2 * f;
        }
        i = i + 1;
    }
    proof {
        lemma_p2_concrete();
    }
    f
}

/// The constant `2^(-2^-k) * 2^32`, rounded, for `k` from 1 to 16.
pub open spec fn exp2_weight_s(k: int) -> int {
    if k == 1 {
        3037000500
    } else if k == 2 {
        3611622603
    } else if k == 3 {
        3938502376
    } else if k == 4 {
        4112874773
    } else if k == 5 {
        4202935003
    } else if k == 6 {
        4248701965
    } else if k == 7 {
        4271771996
    } else if k == 8 {
        4283353945
    } else if k == 9 {
        4289156690
    } else if k == 10 {
        4292061010
    } else if k == 11 {
        4293513907
    } else if k == 12 {
        4294240540
    } else if k == 13 {
        4294603903
    } else if k == 14 {
        4294785595
    } else if k == 15 {
        4294876445
    } else {
        4294921870
    }
}

/// The constant `2^(-2^-k) * 2^32`, rounded.
fn exp2_weight(k: u64) -> (r: u64)
    requires
        1 <= k <= 16,
    ensures
        r == exp2_weight_s(k as int),
        r <= 0x100000000,
{
    match k {
        1 => 3037000500,
        2 => 3611622603,
        3 => 3938502376,
        4 => 4112874773,
        5 => 4202935003,
        6 => 4248701965,
        7 => 4271771996,
        8 => 4283353945,
        9 => 4289156690,
        10 => 4292061010,
        11 => 4293513907,
        12 => 4294240540,
        13 => 4294603903,
        14 => 4294785595,
        15 => 4294876445,
        _ => 4294921870,
    }
}

/// Whether bit `j` (weight `2^-j`) of a Q30 fraction is set.
pub open spec fn fp_bit(fp: int, j: nat) -> bool {
    (fp / p2((30 - j) as nat)) % 2 == 1
}

/// Partial product of `2^-fp` in Q32, over the first `j` fraction bits.
pub open spec fn exp2_prod(fp: int, j: nat) -> int
    decreases j,
{
    if j == 0 {
        0x100000000
    } else {
        let prev = exp2_prod(fp, (j - 1) as nat);
        if fp_bit(fp, j) {
            (prev * exp2_weight_s(j as int)) / 0x100000000
        } else {
            prev
        }
    }
}

/// `2^-fp` for a Q30 fraction `fp` in `[0, 1)`, in Q32, using the top 16
/// fraction bits.
fn exp2_frac_q32(fp: u64) -> (r: u64)
    requires
        fp < 0x40000000,
    ensures
        r == exp2_prod(fp as int, 16),
        r <= 0x100000000,
{
    let mut r: u64 = 0x100000000;
    let mut j: u64 = 1;
    let mut d: u64 = 0x20000000;
    proof {
        lemma_p2_concrete();
    }
    while j <= 16
        invariant
            1 <= j <= 17,
            fp < 0x40000000,
            1 <= d,
            j <= 16 ==> d == p2((30 - j) as nat),
            r == exp2_prod(fp as int, (j - 1) as nat),
            r <= 0x100000000,
        decreases 17 - j,
    {
        let bit: u64 = (fp / d) % 2;
        if bit == 1 {
            let w = exp2_weight(j);
            proof {
                assert(r as int * (w as int) <= r as int * 0x100000000) by (nonlinear_arith)
                    requires
                        w <= 0x100000000,
                        0 <= r as int;
                assert((r as int * w as int) / 0x100000000 <= r as int) by (nonlinear_arith)
                    requires
                        r as int * (w as int) <= r as int * 0x100000000;
                assert(r as int * (w as int) >= 0) by (nonlinear_arith)
                    requires
                        0 <= r as int,
                        0 <= w as int;
            }
            r = ((r as u128 * w as u128) / 0x100000000) as u64;
        }
        j = j + 1;
        if j <= 16 {
            proof {
                assert(p2((30 - (j - 1)) as nat) == 2 * p2((30 - j) as nat));
            }
            d = d / 2;
        }
    }
    r
}

/// `x` raised to the power `g`, both in Q16: `x` covers `[0, 1]` as
/// `0..=65536` and `g` is a positive exponent up to 64.  Computed as
/// `2^(g * log2 x)` with a squaring-scan logarithm and a constant-table
/// exponential; exact at 0 and 1.
pub open spec fn q_pow_s(x: int, g: int) -> int {
    if x <= 0 {
        0
    } else if x >= 65536 {
        65536
    } else {
        let k = lead_shift(x);
        let m30 = x * p2(k) * 16384;
        let f = log2_scan(m30, 30).1;
        let ll = k * 0x40000000 - f;
        let t = (g * ll) / 65536;
        let ip = t / 0x40000000;
        let fp = t % 0x40000000;
        if ip >= 17 {
            0
        } else {
            let r32 = exp2_prod(fp, 16);
            (r32 + p2((ip + 15) as nat)) / p2((ip + 16) as nat)
        }
    }
}

/// Fixed-point power function; see `q_pow_s`.
pub fn q_pow(x: u32, g: u32) -> (r: u32)
    requires
        x <= 65536,
        1 <= g <= 0x400000,
    ensures
        r == q_pow_s(x as int, g as int),
        r <= 65536,
{
    if x == 0 {
        return 0;
    }
    if x >= 65536 {
        return 65536;
    }
    let mut m: u64 = x as u64;
    let mut k: u64 = 0;
    proof {
        lemma_p2_concrete();
    }
    while m < 65536
        invariant
            1 <= m < 131072,
            m as int == x as int * p2(k as nat),
            p2(k as nat) <= m as int,
            lead_shift(x as int) == k + lead_shift_n(m as int, (17 - k) as nat),
            k <= 16,
        decreases 131072 - m,
    {
        proof {
            lemma_p2_concrete();
            if k >= 16 {
                lemma_p2_monotone(16, k as nat);
                assert(false);
            }
            assert(x as int * (2 * p2(k as nat)) == 2 * (x as int * p2(k as nat)))
                by (nonlinear_arith);
        }
        m = m * 2;
        k = k + 1;
    }
    assert(k == lead_shift(x as int));
    let m30: u64 = m * 16384;
    let f = log2_frac_q30(m30);
    let ll: u64 = k * 0x40000000 - f;
    proof {
        assert((f as int) <= k as int * 0x40000000) by (nonlinear_arith)
            requires
                f < 0x40000000,
                1 <= k as int;
        assert(k as int * 0x40000000 <= 17 * 0x40000000) by (nonlinear_arith)
            requires
                k <= 17;
        assert(g as int * (ll as int) <= 0x400000 * (17 * 0x40000000)) by (nonlinear_arith)
            requires
                g <= 0x400000,
                0 <= ll as int,
                (ll as int) <= 17 * 0x40000000;
        assert(g as int * (ll as int) >= 0) by (nonlinear_arith)
            requires
                0 <= g as int,
                0 <= ll as int;
        if k == 0 {
            assert(false);
        }
    }
    let t: u64 = ((g as u64) * ll) / 65536;
    let ip: u64 = t / 0x40000000;
    let fp: u64 = t % 0x40000000;
    if ip >= 17 {
        return 0;
    }
    let r32 = exp2_frac_q32(fp);
    let half = pow2_u64(ip + 15);
    let den = pow2_u64(ip + 16);
    proof {
        lemma_p2_concrete();
        assert(p2((ip + 16) as nat) == 2 * p2((ip + 15) as nat));
        lemma_p2_monotone(15, (ip + 15) as nat);
        lemma_p2_monotone((ip + 15) as nat, 32);
        assert((r32 as int + half as int) / (den as int) <= 65536) by (nonlinear_arith)
            requires
                r32 <= 0x100000000,
                2 * (half as int) == den as int,
                0x8000 <= half as int,
                0x100000000 == 0x10000 * 0x10000;
        assert((r32 as int + half as int) / (den as int) >= 0) by (nonlinear_arith)
            requires
                0 <= r32 as int + half as int,
                0 < den as int;
    }
    let out: u64 = (r32 + half) / den;
    out as u32
}

} // verus!
