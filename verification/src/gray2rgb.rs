//! The gray path: one linearization table and one gamma table.  The
//! single gamma output is broadcast to red, green and blue for RGB
//! destinations; destinations with alpha receive full-scale alpha.

use vstd::prelude::*;
use crate::err::CmsError;
use crate::transform::Layout;

verus! {

/// A compiled gray-source transform.
#[derive(Debug, Clone)]
pub struct GrayToRgbTransform {
    pub gray_linear: Vec<i64>,
    pub gray_gamma: Vec<u16>,
    pub layout: Layout,
    pub linear_cap: usize,
    pub gamma_cap: usize,
    pub max_out: u16,
}

impl GrayToRgbTransform {
    /// Well-formedness: tables of the declared lengths, linear entries
    /// indexing into the gamma table, gamma entries within range.
    pub open spec fn wf(self) -> bool {
        &&& 2 <= self.gamma_cap <= 65536
        &&& 2 <= self.linear_cap <= 65536
        &&& 1 <= self.max_out <= 65535
        &&& self.gray_linear@.len() == self.linear_cap
        &&& self.gray_gamma@.len() == self.gamma_cap
        &&& forall|i: int|
            0 <= i < self.linear_cap ==> 0 <= #[trigger] self.gray_linear@[i] < self.gamma_cap
        &&& forall|i: int|
            0 <= i < self.gamma_cap ==> #[trigger] self.gray_gamma@[i] <= self.max_out
    }

    /// Clamp an input code to the linearization table.
    pub open spec fn clamp_code(self, code: int) -> int {
        if code >= self.linear_cap {
            self.linear_cap - 1
        } else {
            code
        }
    }

    /// The output code for gray input code `g`: linearize, gamma.
    pub open spec fn gray_out_s(self, g: int) -> int {
        self.gray_gamma@[self.gray_linear@[g] as int] as int
    }

    /// What holds of destination pixel `p` for an 8-bit buffer pair:
    /// the gamma output lands in every color channel of the layout,
    /// and alpha channels receive full scale.
    pub open spec fn pixel_ok8(self, src: Seq<u8>, dst: Seq<u8>, p: int) -> bool {
        let ch = self.layout.spec_channels();
        let base = p * ch;
        let v = self.gray_out_s(self.clamp_code(src[p] as int));
        &&& dst[base] == v
        &&& ch >= 3 ==> dst[base + 1] == v && dst[base + 2] == v
        &&& self.layout.spec_has_alpha() ==> dst[base + ch - 1] == self.max_out
        &&& ch == 2 ==> dst[base + 1] == self.max_out
    }

    /// The same for a 16-bit buffer pair.
    pub open spec fn pixel_ok16(self, src: Seq<u16>, dst: Seq<u16>, p: int) -> bool {
        let ch = self.layout.spec_channels();
        let base = p * ch;
        let v = self.gray_out_s(self.clamp_code(src[p] as int));
        &&& dst[base] == v
        &&& ch >= 3 ==> dst[base + 1] == v && dst[base + 2] == v
        &&& self.layout.spec_has_alpha() ==> dst[base + ch - 1] == self.max_out
        &&& ch == 2 ==> dst[base + 1] == self.max_out
    }

    /// One input code through both tables.
    fn gray_px(&self, gc: usize) -> (out: u16)
        requires
            self.wf(),
            gc < self.linear_cap,
        ensures
            out == self.gray_out_s(gc as int),
            out <= self.max_out,
    {
        let l = self.gray_linear[gc];
        self.gray_gamma[l as usize]
    }

    /// Runs the transform over an 8-bit buffer pair: the source holds
    /// one sample per pixel, the destination whole pixels of the
    /// destination layout.  On any error nothing is written.
    pub fn transform_8(&self, src: &[u8], dst: &mut Vec<u8>) -> (res: Result<(), CmsError>)
        requires
            self.wf(),
            self.linear_cap == 256,
            self.max_out <= 255,
        ensures
            final(dst)@.len() == old(dst)@.len(),
            res is Ok <==> (src@.len() == old(dst)@.len() as int / self.layout.spec_channels()
                && old(dst)@.len() as int % self.layout.spec_channels() == 0),
            src@.len() != old(dst)@.len() as int / self.layout.spec_channels() ==> res == Err::<
                (),
                CmsError,
            >(CmsError::LaneSizeMismatch),
            src@.len() == old(dst)@.len() as int / self.layout.spec_channels() && old(
                dst,
            )@.len() as int % self.layout.spec_channels() != 0 ==> res == Err::<(), CmsError>(
                CmsError::LaneMultipleOfChannels,
            ),
            res is Err ==> final(dst)@ == old(dst)@,
            res is Ok ==> forall|p: int|
                0 <= p < src@.len() ==> #[trigger] self.pixel_ok8(src@, final(dst)@, p),
    {
        let ch = self.layout.channels();
        if src.len() != dst.len() / ch {
            return Err(CmsError::LaneSizeMismatch);
        }
        if dst.len() % ch != 0 {
            return Err(CmsError::LaneMultipleOfChannels);
        }
        let npix = src.len();
        proof {
            assert(npix * ch == dst@.len()) by (nonlinear_arith)
                requires
                    npix == dst@.len() as int / ch as int,
                    dst@.len() as int % ch as int == 0,
                    0 < ch;
        }
        let mut p: usize = 0;
        let mut base: usize = 0;
        while p < npix
            invariant
                self.wf(),
                self.linear_cap == 256,
                self.max_out <= 255,
                ch == self.layout.spec_channels(),
                1 <= ch <= 4,
                npix == src@.len(),
                dst@.len() == old(dst)@.len(),
                dst@.len() <= usize::MAX,
                npix * ch == dst@.len(),
                p <= npix,
                base == p * ch,
                forall|q: int| 0 <= q < p ==> #[trigger] self.pixel_ok8(src@, dst@, q),
            decreases npix - p,
        {
            proof {
                assert((p + 1) * ch <= npix * ch) by (nonlinear_arith)
                    requires
                        p + 1 <= npix,
                        0 < ch;
                assert((p + 1) * ch == p * ch + ch) by (nonlinear_arith);
            }
            let v = self.gray_px(src[p] as usize) as u8;
            let ghost pre = dst@;
            dst[base] = v;
            if ch >= 3 {
                dst[base + 1] = v;
                dst[base + 2] = v;
            }
            if self.layout.has_alpha() {
                dst[base + ch - 1] = self.max_out as u8;
            }
            proof {
                assert forall|q: int| 0 <= q < p implies #[trigger] self.pixel_ok8(
                    src@,
                    dst@,
                    q,
                ) by {
                    assert((q + 1) * ch <= p * ch) by (nonlinear_arith)
                        requires
                            q + 1 <= p,
                            0 < ch;
                    assert(q * ch + ch == (q + 1) * ch) by (nonlinear_arith);
                    assert(self.pixel_ok8(src@, pre, q));
                }
                assert(self.pixel_ok8(src@, dst@, p as int));
            }
            p = p + 1;
            base = base + ch;
        }
        Ok(())
    }

    /// Runs the transform over a 16-bit buffer pair; input codes beyond
    /// the linearization table saturate at its last entry.
    pub fn transform_16(&self, src: &[u16], dst: &mut Vec<u16>) -> (res: Result<(), CmsError>)
        requires
            self.wf(),
        ensures
            final(dst)@.len() == old(dst)@.len(),
            res is Ok <==> (src@.len() == old(dst)@.len() as int / self.layout.spec_channels()
                && old(dst)@.len() as int % self.layout.spec_channels() == 0),
            src@.len() != old(dst)@.len() as int / self.layout.spec_channels() ==> res == Err::<
                (),
                CmsError,
            >(CmsError::LaneSizeMismatch),
            src@.len() == old(dst)@.len() as int / self.layout.spec_channels() && old(
                dst,
            )@.len() as int % self.layout.spec_channels() != 0 ==> res == Err::<(), CmsError>(
                CmsError::LaneMultipleOfChannels,
            ),
            res is Err ==> final(dst)@ == old(dst)@,
            res is Ok ==> forall|p: int|
                0 <= p < src@.len() ==> #[trigger] self.pixel_ok16(src@, final(dst)@, p),
    {
        let ch = self.layout.channels();
        if src.len() != dst.len() / ch {
            return Err(CmsError::LaneSizeMismatch);
        }
        if dst.len() % ch != 0 {
            return Err(CmsError::LaneMultipleOfChannels);
        }
        let npix = src.len();
        proof {
            assert(npix * ch == dst@.len()) by (nonlinear_arith)
                requires
                    npix == dst@.len() as int / ch as int,
                    dst@.len() as int % ch as int == 0,
                    0 < ch;
        }
        let mut p: usize = 0;
        let mut base: usize = 0;
        while p < npix
            invariant
                self.wf(),
                ch == self.layout.spec_channels(),
                1 <= ch <= 4,
                npix == src@.len(),
                dst@.len() == old(dst)@.len(),
                dst@.len() <= usize::MAX,
                npix * ch == dst@.len(),
                p <= npix,
                base == p * ch,
                forall|q: int| 0 <= q < p ==> #[trigger] self.pixel_ok16(src@, dst@, q),
            decreases npix - p,
        {
            proof {
                assert((p + 1) * ch <= npix * ch) by (nonlinear_arith)
                    requires
                        p + 1 <= npix,
                        0 < ch;
                assert((p + 1) * ch == p * ch + ch) by (nonlinear_arith);
            }
            let gc0 = src[p] as usize;
            let lim = self.linear_cap - 1;
            let gc = if gc0 > lim {
                lim
            } else {
                gc0
            };
            let v = self.gray_px(gc);
            let ghost pre = dst@;
            dst[base] = v;
            if ch >= 3 {
                dst[base + 1] = v;
                dst[base + 2] = v;
            }
            if self.layout.has_alpha() {
                dst[base + ch - 1] = self.max_out;
            }
            proof {
                assert forall|q: int| 0 <= q < p implies #[trigger] self.pixel_ok16(
                    src@,
                    dst@,
                    q,
                ) by {
                    assert((q + 1) * ch <= p * ch) by (nonlinear_arith)
                        requires
                            q + 1 <= p,
                            0 < ch;
                    assert(q * ch + ch == (q + 1) * ch) by (nonlinear_arith);
                    assert(self.pixel_ok16(src@, pre, q));
                }
                assert(self.pixel_ok16(src@, dst@, p as int));
            }
            p = p + 1;
            base = base + ch;
        }
        Ok(())
    }
}


/// Every channel a well-formed gray transform writes stays within
/// `0..=max_out`.
pub proof fn lemma_gray_output_in_range(
    t: GrayToRgbTransform,
    src: Seq<u8>,
    dst: Seq<u8>,
    p: int,
)
    requires
        t.wf(),
        t.pixel_ok8(src, dst, p),
        0 <= p,
        (p + 1) * t.layout.spec_channels() <= dst.len(),
    ensures
        forall|j: int|
            0 <= j < t.layout.spec_channels() ==> #[trigger] dst[p * t.layout.spec_channels()
                + j] <= t.max_out,
{
    let ch = t.layout.spec_channels();
    let base = p * ch;
    let code = t.clamp_code(src[p] as int);
    assert(0 <= code < t.linear_cap);
    assert(0 <= t.gray_linear@[code] < t.gamma_cap);
    assert(t.gray_out_s(code) <= t.max_out);
    assert forall|j: int| 0 <= j < ch implies #[trigger] dst[base + j] <= t.max_out by {
        if ch == 1 {
            assert(dst[base] <= t.max_out);
        } else if ch == 2 {
            assert(dst[base] <= t.max_out && dst[base + 1] == t.max_out);
        } else if ch == 3 {
            assert(dst[base] <= t.max_out && dst[base + 1] <= t.max_out && dst[base + 2]
                <= t.max_out);
        } else {
            assert(dst[base] <= t.max_out && dst[base + 1] <= t.max_out && dst[base + 2]
                <= t.max_out && dst[base + 3] == t.max_out);
        }
    }
}

} // verus!
