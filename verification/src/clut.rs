//! Lookup-table transforms: four inputs to three outputs (printing
//! space to RGB) and three inputs to four outputs (RGB to a printing
//! space).
//!
//! In the four-input form the fourth coordinate selects two adjacent
//! cubes of the lattice; both are interpolated over the first three
//! coordinates and the results are blended linearly by the fourth
//! coordinate's fractional offset.

use vstd::prelude::*;
use crate::err::CmsError;
use crate::interpolator::{den_s, frac_w, hi_idx, interp_px, interp_s, lo_idx, lut_wf};
use crate::mathq::{rdiv, rdiv_signed, round_div_i128};
use crate::transform::{InterpolationMethod, Layout};

verus! {

/// Scale an interpolation numerator over `den * 65535` to an output
/// code, rounding, clamping to `0..=max_out`.
pub open spec fn clut_out_s(v: int, den: int, max_out: int) -> int {
    let vc = if v < 0 {
        0
    } else {
        v
    };
    let o = rdiv(vc * max_out, den * 65535);
    if o > max_out {
        max_out
    } else {
        o
    }
}

/// Executable form of `clut_out_s`.
fn clut_out_px(v: i64, den: i64, max_out: u16) -> (r: u16)
    requires
        1 <= den <= 0x100000000,
        -0x4000000000000000 <= v <= 0x4000000000000000,
        1 <= max_out <= 65535,
    ensures
        r == clut_out_s(v as int, den as int, max_out as int),
        r <= max_out,
{
    let vc: i128 = if v < 0 {
        0
    } else {
        v as i128
    };
    proof {
        assert(0 <= vc * (max_out as i128) <= 0x4000000000000000 * 65535) by (nonlinear_arith)
            requires
                0 <= vc <= 0x4000000000000000,
                0 <= max_out <= 65535;
        assert(65535 <= (den as i128) * 65535 <= 0x100000000 * 65535) by (nonlinear_arith)
            requires
                1 <= den <= 0x100000000;
    }
    let num: i128 = vc * max_out as i128;
    let d: i128 = den as i128 * 65535;
    proof {
        assert(rdiv_signed(num as int, d as int) == rdiv(num as int, d as int))
            by (nonlinear_arith)
            requires
                0 <= num,
                0 < d;
        assert(rdiv(num as int, d as int) >= 0) by (nonlinear_arith)
            requires
                0 <= num,
                0 < d;
    }
    let o = round_div_i128(num, d);
    if o > max_out as i128 {
        max_out
    } else {
        o as u16
    }
}

/// A compiled four-input, three-output lookup transform.  The lattice
/// holds `grid^4` points of three samples, the fourth coordinate
/// selecting cubes of `grid^3` points.
#[derive(Debug, Clone)]
pub struct Lut4x3Transform {
    pub lut: Vec<i32>,
    pub grid: usize,
    pub layout: Layout,
    pub method: InterpolationMethod,
    pub linear_cap: usize,
    pub max_out: u16,
}

impl Lut4x3Transform {
    /// Well-formedness: an RGB destination layout and a lattice of the
    /// declared size with samples in range.
    pub open spec fn wf(self) -> bool {
        &&& self.layout.is_rgb_kind()
        &&& 2 <= self.grid <= 64
        &&& lut_wf(self.lut@)
        &&& self.lut@.len() == self.grid * self.grid * self.grid * self.grid * 3
        &&& 1 <= self.max_out <= 65535
        &&& 2 <= self.linear_cap <= 65536
    }

    /// Compress a 16-bit input code to the `0..=255` lattice range.
    pub open spec fn compress16(self, v: int) -> int {
        let lmax = self.linear_cap - 1;
        let vc = if v > lmax {
            lmax
        } else {
            v
        };
        rdiv(vc * 255, lmax)
    }

    /// Output channel `ch` for the four input coordinates, each in
    /// `0..=255`: the fourth coordinate selects two adjacent cubes,
    /// both are interpolated and blended by its fractional offset.
    pub open spec fn lut4_out_s(self, c: int, m: int, y: int, k: int, ch: int) -> int {
        let s = self.grid - 1;
        let w = lo_idx(k, s);
        let wn = hi_idx(k, s);
        let tn = frac_w(k, s);
        let g3 = self.grid * self.grid * self.grid * 3;
        let v0 = interp_s(self.method, self.lut@, self.grid as int, w * g3, 3, ch, c, m, y);
        let v1 = interp_s(self.method, self.lut@, self.grid as int, wn * g3, 3, ch, c, m, y);
        clut_out_s(v0 * (255 - tn) + v1 * tn, den_s(self.method) * 255, self.max_out as int)
    }

    /// What holds of destination pixel `p` for an 8-bit buffer pair.
    pub open spec fn pixel_ok8(self, src: Seq<u8>, dst: Seq<u8>, p: int) -> bool {
        let ch = self.layout.spec_channels();
        let sb = p * 4;
        let db = p * ch;
        &&& dst[db] == self.lut4_out_s(
            src[sb] as int,
            src[sb + 1] as int,
            src[sb + 2] as int,
            src[sb + 3] as int,
            0,
        )
        &&& dst[db + 1] == self.lut4_out_s(
            src[sb] as int,
            src[sb + 1] as int,
            src[sb + 2] as int,
            src[sb + 3] as int,
            1,
        )
        &&& dst[db + 2] == self.lut4_out_s(
            src[sb] as int,
            src[sb + 1] as int,
            src[sb + 2] as int,
            src[sb + 3] as int,
            2,
        )
        &&& ch == 4 ==> dst[db + 3] == self.max_out
    }

    /// What holds of destination pixel `p` for a 16-bit buffer pair:
    /// the four coordinates are compressed to the lattice range first.
    pub open spec fn pixel_ok16(self, src: Seq<u16>, dst: Seq<u16>, p: int) -> bool {
        let ch = self.layout.spec_channels();
        let sb = p * 4;
        let db = p * ch;
        let c = self.compress16(src[sb] as int);
        let m = self.compress16(src[sb + 1] as int);
        let y = self.compress16(src[sb + 2] as int);
        let k = self.compress16(src[sb + 3] as int);
        &&& dst[db] == self.lut4_out_s(c, m, y, k, 0)
        &&& dst[db + 1] == self.lut4_out_s(c, m, y, k, 1)
        &&& dst[db + 2] == self.lut4_out_s(c, m, y, k, 2)
        &&& ch == 4 ==> dst[db + 3] == self.max_out
    }

    /// One pixel's three output codes from the four coordinates.
    #[verifier::rlimit(100)]
    fn lut4_px(&self, c: u8, m: u8, y: u8, k: u8) -> (out: (u16, u16, u16))
        requires
            self.wf(),
        ensures
            out.0 == self.lut4_out_s(c as int, m as int, y as int, k as int, 0),
            out.1 == self.lut4_out_s(c as int, m as int, y as int, k as int, 1),
            out.2 == self.lut4_out_s(c as int, m as int, y as int, k as int, 2),
            out.0 <= self.max_out,
            out.1 <= self.max_out,
            out.2 <= self.max_out,
    {
        let s = self.grid - 1;
        proof {
            assert(0 <= k as int * s as int <= 255 * 63) by (nonlinear_arith)
                requires
                    k <= 255,
                    0 <= s <= 63;
            assert(k as int * s as int <= 255 * (s as int)) by (nonlinear_arith)
                requires
                    k <= 255,
                    0 <= s;
        }
        let prod: usize = k as usize * s;
        let w: usize = prod / 255;
        let wn: usize = (prod + 254) / 255;
        let tn: i64 = (prod % 255) as i64;
        proof {
            assert(self.grid * self.grid <= 64 * 64 && self.grid * self.grid * self.grid <= 64
                * 64 * 64 && self.grid * self.grid * self.grid * 3 <= 64 * 64 * 64 * 3
                && self.grid * self.grid * self.grid * self.grid * 3 <= 64 * 64 * 64 * 64 * 3)
                by (nonlinear_arith)
                requires
                    self.grid <= 64;
        }
        let g3: usize = self.grid * self.grid * self.grid * 3;
        proof {
            assert((255 * s as int) / 255 == s as int) by (nonlinear_arith);
            assert(prod as int / 255 <= (255 * s as int) / 255) by (nonlinear_arith)
                requires
                    prod as int <= 255 * s as int;
            assert((prod as int + 254) / 255 <= s as int) by (nonlinear_arith)
                requires
                    prod as int <= 255 * s as int;
            assert(0 <= prod as int / 255) by (nonlinear_arith)
                requires
                    0 <= prod as int;
            assert(0 <= (prod as int + 254) / 255) by (nonlinear_arith)
                requires
                    0 <= prod as int;
            assert(forall|a: int, b: int, g4: int|
                0 <= a <= b && 0 < g4 ==> #[trigger] (a * g4) <= #[trigger] (b * g4))
                by (nonlinear_arith);
            assert(forall|a: int, g4: int| 0 <= a && 0 < g4 ==> 0 <= #[trigger] (a * g4))
                by (nonlinear_arith);
            assert((s as int) * (self.grid * self.grid * self.grid * 3) + self.grid * self.grid
                * self.grid * 3 == self.grid * self.grid * self.grid * self.grid * 3)
                by (nonlinear_arith)
                requires
                    s == self.grid - 1;
        }
        proof {
            assert(w * g3 <= 63 * (64 * 64 * 64 * 3) && wn * g3 <= 63 * (64 * 64 * 64 * 3))
                by (nonlinear_arith)
                requires
                    0 <= w <= 63,
                    0 <= wn <= 63,
                    0 <= g3 <= 64 * 64 * 64 * 3;
        }
        let b0: usize = w * g3;
        let b1: usize = wn * g3;
        proof {
            assert(w * g3 <= s * g3 && wn * g3 <= s * g3) by (nonlinear_arith)
                requires
                    w <= s,
                    wn <= s,
                    0 <= g3;
            assert(b0 + g3 <= self.lut@.len() && b1 + g3 <= self.lut@.len());
        }
        let v00 = interp_px(self.method, &self.lut, self.grid, b0, 3, 0, c, m, y);
        let v01 = interp_px(self.method, &self.lut, self.grid, b0, 3, 1, c, m, y);
        let v02 = interp_px(self.method, &self.lut, self.grid, b0, 3, 2, c, m, y);
        let v10 = interp_px(self.method, &self.lut, self.grid, b1, 3, 0, c, m, y);
        let v11 = interp_px(self.method, &self.lut, self.grid, b1, 3, 1, c, m, y);
        let v12 = interp_px(self.method, &self.lut, self.grid, b1, 3, 2, c, m, y);
        proof {
            assert(forall|a: int, w2: int|
                -0x10000000000000 <= a <= 0x10000000000000 && 0 <= w2 <= 255
                    ==> -0xff0000000000000 <= #[trigger] (a * w2) <= 0xff0000000000000)
                by (nonlinear_arith);
        }
        let den: i64 = match self.method {
            InterpolationMethod::Tetrahedral => 255,
            InterpolationMethod::Pyramid => 65025,
            InterpolationMethod::Prism => 65025,
            InterpolationMethod::Linear => 16581375,
        };
        (
            clut_out_px(v00 * (255 - tn) + v10 * tn, den * 255, self.max_out),
            clut_out_px(v01 * (255 - tn) + v11 * tn, den * 255, self.max_out),
            clut_out_px(v02 * (255 - tn) + v12 * tn, den * 255, self.max_out),
        )
    }

    /// Runs the transform over an 8-bit buffer pair: four source
    /// samples per pixel, destination pixels in the destination
    /// layout.  On any error nothing is written.
    pub fn transform_8(&self, src: &[u8], dst: &mut Vec<u8>) -> (res: Result<(), CmsError>)
        requires
            self.wf(),
            self.max_out <= 255,
        ensures
            final(dst)@.len() == old(dst)@.len(),
            res is Ok <==> (src@.len() as int % 4 == 0 && old(dst)@.len() as int
                % self.layout.spec_channels() == 0 && src@.len() as int / 4 == old(
                dst,
            )@.len() as int / self.layout.spec_channels()),
            src@.len() as int % 4 != 0 ==> res == Err::<(), CmsError>(
                CmsError::LaneMultipleOfChannels,
            ),
            src@.len() as int % 4 == 0 && old(dst)@.len() as int % self.layout.spec_channels()
                != 0 ==> res == Err::<(), CmsError>(CmsError::LaneMultipleOfChannels),
            src@.len() as int % 4 == 0 && old(dst)@.len() as int % self.layout.spec_channels()
                == 0 && src@.len() as int / 4 != old(dst)@.len() as int
                / self.layout.spec_channels() ==> res == Err::<(), CmsError>(
                CmsError::LaneSizeMismatch,
            ),
            res is Err ==> final(dst)@ == old(dst)@,
            res is Ok ==> forall|p: int|
                0 <= p < src@.len() as int / 4 ==> #[trigger] self.pixel_ok8(src@, final(dst)@, p),
    {
        let ch = self.layout.channels();
        if src.len() % 4 != 0 {
            return Err(CmsError::LaneMultipleOfChannels);
        }
        if dst.len() % ch != 0 {
            return Err(CmsError::LaneMultipleOfChannels);
        }
        let npix = src.len() / 4;
        if npix != dst.len() / ch {
            return Err(CmsError::LaneSizeMismatch);
        }
        proof {
            assert(npix * 4 == src@.len()) by (nonlinear_arith)
                requires
                    npix == src@.len() as int / 4,
                    src@.len() as int % 4 == 0;
            assert(npix * ch == dst@.len()) by (nonlinear_arith)
                requires
                    npix == dst@.len() as int / ch as int,
                    dst@.len() as int % ch as int == 0,
                    0 < ch;
        }
        let mut p: usize = 0;
        let mut sb: usize = 0;
        let mut db: usize = 0;
        while p < npix
            invariant
                self.wf(),
                self.max_out <= 255,
                ch == self.layout.spec_channels(),
                3 <= ch <= 4,
                npix * 4 == src@.len(),
                npix * ch == dst@.len(),
                dst@.len() == old(dst)@.len(),
                dst@.len() <= usize::MAX,
                src@.len() <= usize::MAX,
                p <= npix,
                sb == p * 4,
                db == p * ch,
                forall|q: int| 0 <= q < p ==> #[trigger] self.pixel_ok8(src@, dst@, q),
            decreases npix - p,
        {
            proof {
                assert((p + 1) * 4 <= npix * 4 && (p + 1) * ch <= npix * ch) by (nonlinear_arith)
                    requires
                        p + 1 <= npix,
                        0 < ch;
                assert((p + 1) * 4 == p * 4 + 4 && (p + 1) * ch == p * ch + ch)
                    by (nonlinear_arith);
            }
            let out = self.lut4_px(src[sb], src[sb + 1], src[sb + 2], src[sb + 3]);
            let ghost pre = dst@;
            dst[db] = out.0 as u8;
            dst[db + 1] = out.1 as u8;
            dst[db + 2] = out.2 as u8;
            if ch == 4 {
                dst[db + 3] = self.max_out as u8;
            }
            proof {
                assert forall|q: int| 0 <= q < p implies #[trigger] self.pixel_ok8(
                    src@,
                    dst@,
                    q,
                ) by {
                    assert((q + 1) * ch <= p * ch) by (nonlinear_arith)
                        requires
                            q + 1 <= p,
                            0 < ch;
                    assert(q * ch + ch == (q + 1) * ch) by (nonlinear_arith);
                    assert(self.pixel_ok8(src@, pre, q));
                }
                assert(self.pixel_ok8(src@, dst@, p as int));
            }
            p = p + 1;
            sb = sb + 4;
            db = db + ch;
        }
        Ok(())
    }

    /// Runs the transform over a 16-bit buffer pair: the four source
    /// coordinates are compressed to the lattice range first.
    pub fn transform_16(&self, src: &[u16], dst: &mut Vec<u16>) -> (res: Result<(), CmsError>)
        requires
            self.wf(),
        ensures
            final(dst)@.len() == old(dst)@.len(),
            res is Ok <==> (src@.len() as int % 4 == 0 && old(dst)@.len() as int
                % self.layout.spec_channels() == 0 && src@.len() as int / 4 == old(
                dst,
            )@.len() as int / self.layout.spec_channels()),
            src@.len() as int % 4 != 0 ==> res == Err::<(), CmsError>(
                CmsError::LaneMultipleOfChannels,
            ),
            src@.len() as int % 4 == 0 && old(dst)@.len() as int % self.layout.spec_channels()
                != 0 ==> res == Err::<(), CmsError>(CmsError::LaneMultipleOfChannels),
            src@.len() as int % 4 == 0 && old(dst)@.len() as int % self.layout.spec_channels()
                == 0 && src@.len() as int / 4 != old(dst)@.len() as int
                / self.layout.spec_channels() ==> res == Err::<(), CmsError>(
                CmsError::LaneSizeMismatch,
            ),
            res is Err ==> final(dst)@ == old(dst)@,
            res is Ok ==> forall|p: int|
                0 <= p < src@.len() as int / 4 ==> #[trigger] self.pixel_ok16(
                    src@,
                    final(dst)@,
                    p,
                ),
    {
        let ch = self.layout.channels();
        if src.len() % 4 != 0 {
            return Err(CmsError::LaneMultipleOfChannels);
        }
        if dst.len() % ch != 0 {
            return Err(CmsError::LaneMultipleOfChannels);
        }
        let npix = src.len() / 4;
        if npix != dst.len() / ch {
            return Err(CmsError::LaneSizeMismatch);
        }
        proof {
            assert(npix * 4 == src@.len()) by (nonlinear_arith)
                requires
                    npix == src@.len() as int / 4,
                    src@.len() as int % 4 == 0;
            assert(npix * ch == dst@.len()) by (nonlinear_arith)
                requires
                    npix == dst@.len() as int / ch as int,
                    dst@.len() as int % ch as int == 0,
                    0 < ch;
        }
        let mut p: usize = 0;
        let mut sb: usize = 0;
        let mut db: usize = 0;
        while p < npix
            invariant
                self.wf(),
                ch == self.layout.spec_channels(),
                3 <= ch <= 4,
                npix * 4 == src@.len(),
                npix * ch == dst@.len(),
                dst@.len() == old(dst)@.len(),
                dst@.len() <= usize::MAX,
                src@.len() <= usize::MAX,
                p <= npix,
                sb == p * 4,
                db == p * ch,
                forall|q: int| 0 <= q < p ==> #[trigger] self.pixel_ok16(src@, dst@, q),
            decreases npix - p,
        {
            proof {
                assert((p + 1) * 4 <= npix * 4 && (p + 1) * ch <= npix * ch) by (nonlinear_arith)
                    requires
                        p + 1 <= npix,
                        0 < ch;
                assert((p + 1) * 4 == p * 4 + 4 && (p + 1) * ch == p * ch + ch)
                    by (nonlinear_arith);
            }
            let c = self.compress16_px(src[sb]);
            let m = self.compress16_px(src[sb + 1]);
            let y = self.compress16_px(src[sb + 2]);
            let k = self.compress16_px(src[sb + 3]);
            let out = self.lut4_px(c, m, y, k);
            let ghost pre = dst@;
            dst[db] = out.0;
            dst[db + 1] = out.1;
            dst[db + 2] = out.2;
            if ch == 4 {
                dst[db + 3] = self.max_out;
            }
            proof {
                assert forall|q: int| 0 <= q < p implies #[trigger] self.pixel_ok16(
                    src@,
                    dst@,
                    q,
                ) by {
                    assert((q + 1) * ch <= p * ch) by (nonlinear_arith)
                        requires
                            q + 1 <= p,
                            0 < ch;
                    assert(q * ch + ch == (q + 1) * ch) by (nonlinear_arith);
                    assert(self.pixel_ok16(src@, pre, q));
                }
                assert(self.pixel_ok16(src@, dst@, p as int));
            }
            p = p + 1;
            sb = sb + 4;
            db = db + ch;
        }
        Ok(())
    }

    /// Compress a 16-bit input code to the `0..=255` lattice range.
    fn compress16_px(&self, v: u16) -> (r: u8)
        requires
            self.wf(),
        ensures
            r == self.compress16(v as int),
    {
        let lmax: u64 = (self.linear_cap - 1) as u64;
        let vc: u64 = if v as u64 > lmax {
            lmax
        } else {
            v as u64
        };
        proof {
            assert(rdiv(vc as int * 255, lmax as int) <= 255) by (nonlinear_arith)
                requires
                    0 <= vc <= lmax,
                    1 <= lmax;
            assert(rdiv(vc as int * 255, lmax as int) >= 0) by (nonlinear_arith)
                requires
                    0 <= vc,
                    1 <= lmax;
        }
        let r = (2 * (vc * 255) + lmax) / (2 * lmax);
        r as u8
    }
}

/// Selecting the fourth coordinate at its extremes picks exactly the
/// first or the last cube of the lattice, with no cross-blending: at 0
/// both cube selectors are the first cube and the blend weight of the
/// second interpolation is zero; at 255, symmetrically, the last cube.
pub proof fn lemma_lut4_k_extremes(t: Lut4x3Transform, c: int, m: int, y: int, ch: int)
    requires
        t.wf(),
        0 <= ch < 3,
    ensures
        t.lut4_out_s(c, m, y, 0, ch) == clut_out_s(
            interp_s(t.method, t.lut@, t.grid as int, 0, 3, ch, c, m, y) * 255,
            den_s(t.method) * 255,
            t.max_out as int,
        ),
        t.lut4_out_s(c, m, y, 255, ch) == clut_out_s(
            interp_s(
                t.method,
                t.lut@,
                t.grid as int,
                (t.grid - 1) * (t.grid * t.grid * t.grid * 3),
                3,
                ch,
                c,
                m,
                y,
            ) * 255,
            den_s(t.method) * 255,
            t.max_out as int,
        ),
{
    let s = t.grid - 1;
    assert(lo_idx(0, s as int) == 0 && hi_idx(0, s as int) == 0 && frac_w(0, s as int) == 0)
        by (nonlinear_arith)
        requires
            1 <= s;
    assert(lo_idx(255, s as int) == s && hi_idx(255, s as int) == s && frac_w(255, s as int)
        == 0) by (nonlinear_arith)
        requires
            1 <= s <= 63;
    let g3 = t.grid * t.grid * t.grid * 3;
    let v00 = interp_s(t.method, t.lut@, t.grid as int, 0, 3, ch, c, m, y);
    assert(v00 * (255 - 0) + v00 * 0 == v00 * 255) by (nonlinear_arith);
    let vs = interp_s(t.method, t.lut@, t.grid as int, s * g3, 3, ch, c, m, y);
    assert(vs * (255 - 0) + vs * 0 == vs * 255) by (nonlinear_arith);
    assert(0 * (g3 as int) == 0) by (nonlinear_arith);
}

/// A compiled three-input, four-output lookup transform over a single
/// cube of `grid^3` lattice points with four samples each.
#[derive(Debug, Clone)]
pub struct Lut3x4Transform {
    pub lut: Vec<i32>,
    pub grid: usize,
    pub layout: Layout,
    pub method: InterpolationMethod,
    pub max_out: u16,
}

impl Lut3x4Transform {
    /// Well-formedness: an RGB source layout and a lattice of the
    /// declared size with samples in range.
    pub open spec fn wf(self) -> bool {
        &&& self.layout.is_rgb_kind()
        &&& 2 <= self.grid <= 64
        &&& lut_wf(self.lut@)
        &&& self.lut@.len() == self.grid * self.grid * self.grid * 4
        &&& 1 <= self.max_out <= 65535
    }

    /// Output channel `ch` for the three input coordinates.
    pub open spec fn lut3_out_s(self, r: int, g: int, b: int, ch: int) -> int {
        clut_out_s(
            interp_s(self.method, self.lut@, self.grid as int, 0, 4, ch, r, g, b),
            den_s(self.method),
            self.max_out as int,
        )
    }

    /// What holds of destination pixel `p` for an 8-bit buffer pair:
    /// four output samples from the three color channels of the source
    /// pixel.
    pub open spec fn pixel_ok8(self, src: Seq<u8>, dst: Seq<u8>, p: int) -> bool {
        let ch = self.layout.spec_channels();
        let sb = p * ch;
        let db = p * 4;
        &&& dst[db] == self.lut3_out_s(
            src[sb] as int,
            src[sb + 1] as int,
            src[sb + 2] as int,
            0,
        )
        &&& dst[db + 1] == self.lut3_out_s(
            src[sb] as int,
            src[sb + 1] as int,
            src[sb + 2] as int,
            1,
        )
        &&& dst[db + 2] == self.lut3_out_s(
            src[sb] as int,
            src[sb + 1] as int,
            src[sb + 2] as int,
            2,
        )
        &&& dst[db + 3] == self.lut3_out_s(
            src[sb] as int,
            src[sb + 1] as int,
            src[sb + 2] as int,
            3,
        )
    }

    /// Runs the transform over an 8-bit buffer pair: source pixels in
    /// the source layout, four destination samples per pixel.  On any
    /// error nothing is written.
    pub fn transform_8(&self, src: &[u8], dst: &mut Vec<u8>) -> (res: Result<(), CmsError>)
        requires
            self.wf(),
            self.max_out <= 255,
        ensures
            final(dst)@.len() == old(dst)@.len(),
            res is Ok <==> (src@.len() as int % self.layout.spec_channels() == 0 && old(
                dst,
            )@.len() as int % 4 == 0 && src@.len() as int / self.layout.spec_channels() == old(
                dst,
            )@.len() as int / 4),
            src@.len() as int % self.layout.spec_channels() != 0 ==> res == Err::<(), CmsError>(
                CmsError::LaneMultipleOfChannels,
            ),
            src@.len() as int % self.layout.spec_channels() == 0 && old(dst)@.len() as int % 4
                != 0 ==> res == Err::<(), CmsError>(CmsError::LaneMultipleOfChannels),
            src@.len() as int % self.layout.spec_channels() == 0 && old(dst)@.len() as int % 4
                == 0 && src@.len() as int / self.layout.spec_channels() != old(
                dst,
            )@.len() as int / 4 ==> res == Err::<(), CmsError>(CmsError::LaneSizeMismatch),
            res is Err ==> final(dst)@ == old(dst)@,
            res is Ok ==> forall|p: int|
                0 <= p < old(dst)@.len() as int / 4 ==> #[trigger] self.pixel_ok8(
                    src@,
                    final(dst)@,
                    p,
                ),
    {
        let ch = self.layout.channels();
        if src.len() % ch != 0 {
            return Err(CmsError::LaneMultipleOfChannels);
        }
        if dst.len() % 4 != 0 {
            return Err(CmsError::LaneMultipleOfChannels);
        }
        let npix = src.len() / ch;
        if npix != dst.len() / 4 {
            return Err(CmsError::LaneSizeMismatch);
        }
        proof {
            assert(npix * ch == src@.len()) by (nonlinear_arith)
                requires
                    npix == src@.len() as int / ch as int,
                    src@.len() as int % ch as int == 0,
                    0 < ch;
            assert(npix * 4 == dst@.len()) by (nonlinear_arith)
                requires
                    npix == dst@.len() as int / 4,
                    dst@.len() as int % 4 == 0;
        }
        let mut p: usize = 0;
        let mut sb: usize = 0;
        let mut db: usize = 0;
        while p < npix
            invariant
                self.wf(),
                self.max_out <= 255,
                ch == self.layout.spec_channels(),
                3 <= ch <= 4,
                npix * ch == src@.len(),
                npix * 4 == dst@.len(),
                dst@.len() == old(dst)@.len(),
                dst@.len() <= usize::MAX,
                src@.len() <= usize::MAX,
                p <= npix,
                sb == p * ch,
                db == p * 4,
                forall|q: int| 0 <= q < p ==> #[trigger] self.pixel_ok8(src@, dst@, q),
            decreases npix - p,
        {
            proof {
                assert((p + 1) * 4 <= npix * 4 && (p + 1) * ch <= npix * ch) by (nonlinear_arith)
                    requires
                        p + 1 <= npix,
                        0 < ch;
                assert((p + 1) * 4 == p * 4 + 4 && (p + 1) * ch == p * ch + ch)
                    by (nonlinear_arith);
                assert(self.grid * self.grid * self.grid * 4 <= 64 * 64 * 64 * 4)
                    by (nonlinear_arith)
                    requires
                        self.grid <= 64;
                assert(0 * (self.grid * self.grid * self.grid * 4) == 0) by (nonlinear_arith);
            }
            let r = src[sb];
            let g = src[sb + 1];
            let b = src[sb + 2];
            let o0 = clut_out_px(
                interp_px(self.method, &self.lut, self.grid, 0, 4, 0, r, g, b),
                self.den_px(),
                self.max_out,
            );
            let o1 = clut_out_px(
                interp_px(self.method, &self.lut, self.grid, 0, 4, 1, r, g, b),
                self.den_px(),
                self.max_out,
            );
            let o2 = clut_out_px(
                interp_px(self.method, &self.lut, self.grid, 0, 4, 2, r, g, b),
                self.den_px(),
                self.max_out,
            );
            let o3 = clut_out_px(
                interp_px(self.method, &self.lut, self.grid, 0, 4, 3, r, g, b),
                self.den_px(),
                self.max_out,
            );
            let ghost pre = dst@;
            dst[db] = o0 as u8;
            dst[db + 1] = o1 as u8;
            dst[db + 2] = o2 as u8;
            dst[db + 3] = o3 as u8;
            proof {
                assert forall|q: int| 0 <= q < p implies #[trigger] self.pixel_ok8(
                    src@,
                    dst@,
                    q,
                ) by {
                    assert((q + 1) * 4 <= p * 4) by (nonlinear_arith)
                        requires
                            q + 1 <= p;
                    assert(q * 4 + 4 == (q + 1) * 4) by (nonlinear_arith);
                    assert(self.pixel_ok8(src@, pre, q));
                }
                assert(self.pixel_ok8(src@, dst@, p as int));
            }
            p = p + 1;
            sb = sb + ch;
            db = db + 4;
        }
        Ok(())
    }

    /// The interpolant's denominator.
    fn den_px(&self) -> (r: i64)
        ensures
            r == den_s(self.method),
    {
        match self.method {
            InterpolationMethod::Tetrahedral => 255,
            InterpolationMethod::Pyramid => 65025,
            InterpolationMethod::Prism => 65025,
            InterpolationMethod::Linear => 16581375,
        }
    }
}


/// The scaled output of any interpolation numerator stays within
/// `0..=max_out`.
pub proof fn lemma_clut_out_in_range(v: int, den: int, max_out: int)
    requires
        1 <= den,
        1 <= max_out,
    ensures
        0 <= clut_out_s(v, den, max_out) <= max_out,
{
    let vc = if v < 0 {
        0int
    } else {
        v
    };
    assert(0 <= vc * max_out) by (nonlinear_arith)
        requires
            0 <= vc,
            0 <= max_out;
    assert(0 < den * 65535) by (nonlinear_arith)
        requires
            1 <= den;
    assert(rdiv(vc * max_out, den * 65535) >= 0) by (nonlinear_arith)
        requires
            0 <= vc * max_out,
            0 < den * 65535;
}

/// Every channel a well-formed lookup transform writes stays within
/// `0..=max_out`.
pub proof fn lemma_lut4_output_in_range(
    t: Lut4x3Transform,
    src: Seq<u8>,
    dst: Seq<u8>,
    p: int,
)
    requires
        t.wf(),
        t.pixel_ok8(src, dst, p),
        0 <= p,
        (p + 1) * t.layout.spec_channels() <= dst.len(),
    ensures
        forall|j: int|
            0 <= j < t.layout.spec_channels() ==> #[trigger] dst[p * t.layout.spec_channels()
                + j] <= t.max_out,
{
    let ch = t.layout.spec_channels();
    let base = p * ch;
    let sb = p * 4;
    let c = src[sb] as int;
    let m = src[sb + 1] as int;
    let y = src[sb + 2] as int;
    let k = src[sb + 3] as int;
    assert forall|j: int| 0 <= j < ch implies #[trigger] dst[base + j] <= t.max_out by {
        if j < 3 {
            let s = t.grid - 1;
            let w = lo_idx(k, s);
            let wn = hi_idx(k, s);
            let tn = frac_w(k, s);
            let g3 = t.grid * t.grid * t.grid * 3;
            let v0 = interp_s(t.method, t.lut@, t.grid as int, w * g3, 3, j, c, m, y);
            let v1 = interp_s(t.method, t.lut@, t.grid as int, wn * g3, 3, j, c, m, y);
            lemma_clut_out_in_range(
                v0 * (255 - tn) + v1 * tn,
                den_s(t.method) * 255,
                t.max_out as int,
            );
            assert(1 <= den_s(t.method) * 255) by {
                assert(den_s(t.method) >= 255);
            }
        } else {
            assert(dst[base + 3] == t.max_out);
        }
    }
}

} // verus!
