//! The RGB-to-RGB matrix path: linearize per channel, apply the Q4.12
//! conversion matrix, look the result up in the per-channel gamma
//! tables.  Alpha, where the layout has it, passes through unchanged.

use vstd::prelude::*;
use crate::err::CmsError;
use crate::matrix::{QMatrix, qmatrix_wf};
use crate::stages::{apply_stages_px, stage_channel_s};
use crate::transform::Layout;

verus! {

/// A compiled RGB-to-RGB transform.  It owns the three linearization
/// tables (entries are indices into the gamma tables), the three gamma
/// tables (entries are output codes), and the conversion matrix.
#[derive(Debug, Clone)]
pub struct RgbXyzTransform {
    pub r_linear: Vec<i64>,
    pub g_linear: Vec<i64>,
    pub b_linear: Vec<i64>,
    pub r_gamma: Vec<u16>,
    pub g_gamma: Vec<u16>,
    pub b_gamma: Vec<u16>,
    pub matrix: QMatrix,
    pub layout: Layout,
    pub use_gamut_clip: bool,
    pub linear_cap: usize,
    pub gamma_cap: usize,
    pub max_out: u16,
}

impl RgbXyzTransform {
    /// Well-formedness: an RGB layout, tables of the declared lengths,
    /// linear entries indexing into the gamma tables, gamma entries
    /// within the output range.
    pub open spec fn wf(self) -> bool {
        &&& self.layout.is_rgb_kind()
        &&& qmatrix_wf(self.matrix)
        &&& 2 <= self.gamma_cap <= 65536
        &&& 2 <= self.linear_cap <= 65536
        &&& 1 <= self.max_out <= 65535
        &&& self.r_linear@.len() == self.linear_cap
        &&& self.g_linear@.len() == self.linear_cap
        &&& self.b_linear@.len() == self.linear_cap
        &&& self.r_gamma@.len() == self.gamma_cap
        &&& self.g_gamma@.len() == self.gamma_cap
        &&& self.b_gamma@.len() == self.gamma_cap
        &&& forall|i: int|
            0 <= i < self.linear_cap ==> 0 <= #[trigger] self.r_linear@[i] < self.gamma_cap
        &&& forall|i: int|
            0 <= i < self.linear_cap ==> 0 <= #[trigger] self.g_linear@[i] < self.gamma_cap
        &&& forall|i: int|
            0 <= i < self.linear_cap ==> 0 <= #[trigger] self.b_linear@[i] < self.gamma_cap
        &&& forall|i: int| 0 <= i < self.gamma_cap ==> #[trigger] self.r_gamma@[i] <= self.max_out
        &&& forall|i: int| 0 <= i < self.gamma_cap ==> #[trigger] self.g_gamma@[i] <= self.max_out
        &&& forall|i: int| 0 <= i < self.gamma_cap ==> #[trigger] self.b_gamma@[i] <= self.max_out
    }

    /// Clamp an input code to the linearization table.
    pub open spec fn clamp_code(self, code: int) -> int {
        if code >= self.linear_cap {
            self.linear_cap - 1
        } else {
            code
        }
    }

    /// Output code of channel `row` for the input triple `(r, g, b)`
    /// of table indices: linearize, stage, gamma.
    pub open spec fn rgb_out_s(self, r: int, g: int, b: int, row: int) -> int {
        let lr = self.r_linear@[r];
        let lg = self.g_linear@[g];
        let lb = self.b_linear@[b];
        let v = stage_channel_s(
            self.matrix,
            self.use_gamut_clip,
            row,
            lr as int,
            lg as int,
            lb as int,
            self.gamma_cap as int,
        );
        if row == 0 {
            self.r_gamma@[v] as int
        } else if row == 1 {
            self.g_gamma@[v] as int
        } else {
            self.b_gamma@[v] as int
        }
    }

    /// What holds of pixel `p` of an 8-bit output buffer: the three
    /// color channels carry the staged result, alpha is copied.
    pub open spec fn pixel_ok8(self, src: Seq<u8>, dst: Seq<u8>, p: int) -> bool {
        let ch = self.layout.spec_channels();
        let base = p * ch;
        &&& dst[base] == self.rgb_out_s(
            src[base] as int,
            src[base + 1] as int,
            src[base + 2] as int,
            0,
        )
        &&& dst[base + 1] == self.rgb_out_s(
            src[base] as int,
            src[base + 1] as int,
            src[base + 2] as int,
            1,
        )
        &&& dst[base + 2] == self.rgb_out_s(
            src[base] as int,
            src[base + 1] as int,
            src[base + 2] as int,
            2,
        )
        &&& ch == 4 ==> dst[base + 3] == src[base + 3]
    }

    /// What holds of pixel `p` of a 16-bit output buffer; input codes
    /// saturate at the linearization table's last entry.
    pub open spec fn pixel_ok16(self, src: Seq<u16>, dst: Seq<u16>, p: int) -> bool {
        let ch = self.layout.spec_channels();
        let base = p * ch;
        let r = self.clamp_code(src[base] as int);
        let g = self.clamp_code(src[base + 1] as int);
        let b = self.clamp_code(src[base + 2] as int);
        &&& dst[base] == self.rgb_out_s(r, g, b, 0)
        &&& dst[base + 1] == self.rgb_out_s(r, g, b, 1)
        &&& dst[base + 2] == self.rgb_out_s(r, g, b, 2)
        &&& ch == 4 ==> dst[base + 3] == src[base + 3]
    }

    /// One pixel's three output codes, each at most `max_out`.
    fn rgb_px(&self, rc: usize, gc: usize, bc: usize) -> (out: (u16, u16, u16))
        requires
            self.wf(),
            rc < self.linear_cap,
            gc < self.linear_cap,
            bc < self.linear_cap,
        ensures
            out.0 == self.rgb_out_s(rc as int, gc as int, bc as int, 0),
            out.1 == self.rgb_out_s(rc as int, gc as int, bc as int, 1),
            out.2 == self.rgb_out_s(rc as int, gc as int, bc as int, 2),
            out.0 <= self.max_out,
            out.1 <= self.max_out,
            out.2 <= self.max_out,
    {
        let lr = self.r_linear[rc];
        let lg = self.g_linear[gc];
        let lb = self.b_linear[bc];
        let (v0, v1, v2) = apply_stages_px(
            &self.matrix,
            self.use_gamut_clip,
            lr,
            lg,
            lb,
            self.gamma_cap as i64,
        );
        (self.r_gamma[v0 as usize], self.g_gamma[v1 as usize], self.b_gamma[v2 as usize])
    }

    /// Runs the transform over an 8-bit buffer pair.  The buffers must
    /// describe the same pixel count and whole pixels; on any error
    /// nothing is written.
    pub fn transform_8(&self, src: &[u8], dst: &mut Vec<u8>) -> (res: Result<(), CmsError>)
        requires
            self.wf(),
            self.linear_cap == 256,
            self.max_out <= 255,
        ensures
            final(dst)@.len() == old(dst)@.len(),
            res is Ok <==> (src@.len() == old(dst)@.len() && src@.len() as int
                % self.layout.spec_channels() == 0),
            src@.len() != old(dst)@.len() ==> res == Err::<(), CmsError>(
                CmsError::LaneSizeMismatch,
            ),
            src@.len() == old(dst)@.len() && src@.len() as int % self.layout.spec_channels() != 0
                ==> res == Err::<(), CmsError>(CmsError::LaneMultipleOfChannels),
            res is Err ==> final(dst)@ == old(dst)@,
            res is Ok ==> forall|p: int|
                0 <= p < src@.len() as int / self.layout.spec_channels()
                    ==> #[trigger] self.pixel_ok8(src@, final(dst)@, p),
    {
        let ch = self.layout.channels();
        if src.len() != dst.len() {
            return Err(CmsError::LaneSizeMismatch);
        }
        if src.len() % ch != 0 {
            return Err(CmsError::LaneMultipleOfChannels);
        }
        let npix = src.len() / ch;
        proof {
            assert(npix * ch == src@.len()) by (nonlinear_arith)
                requires
                    npix == src@.len() as int / ch as int,
                    src@.len() as int % ch as int == 0,
                    0 < ch;
        }
        let mut p: usize = 0;
        let mut base: usize = 0;
        while p < npix
            invariant
                self.wf(),
                self.linear_cap == 256,
                self.max_out <= 255,
                ch == self.layout.spec_channels(),
                3 <= ch <= 4,
                src@.len() == dst@.len(),
                dst@.len() == old(dst)@.len(),
                npix * ch == src@.len(),
                p <= npix,
                base == p * ch,
                forall|q: int| 0 <= q < p ==> #[trigger] self.pixel_ok8(src@, dst@, q),
            decreases npix - p,
        {
            proof {
                assert((p + 1) * ch <= npix * ch) by (nonlinear_arith)
                    requires
                        p + 1 <= npix,
                        0 < ch;
                assert((p + 1) * ch == p * ch + ch) by (nonlinear_arith);
            }
            let rc = src[base] as usize;
            let gc = src[base + 1] as usize;
            let bc = src[base + 2] as usize;
            let out = self.rgb_px(rc, gc, bc);
            let ghost pre = dst@;
            dst[base] = out.0 as u8;
            dst[base + 1] = out.1 as u8;
            dst[base + 2] = out.2 as u8;
            if ch == 4 {
                dst[base + 3] = src[base + 3];
            }
            proof {
                assert forall|q: int| 0 <= q < p implies #[trigger] self.pixel_ok8(
                    src@,
                    dst@,
                    q,
                ) by {
                    assert((q + 1) * ch <= p * ch) by (nonlinear_arith)
                        requires
                            q + 1 <= p,
                            0 < ch;
                    assert(q * ch + ch == (q + 1) * ch) by (nonlinear_arith);
                    assert(self.pixel_ok8(src@, pre, q));
                }
                assert(self.pixel_ok8(src@, dst@, p as int));
            }
            p = p + 1;
            base = base + ch;
        }
        Ok(())
    }

    /// Runs the transform over a 16-bit buffer pair; input codes beyond
    /// the linearization table saturate at its last entry.
    pub fn transform_16(&self, src: &[u16], dst: &mut Vec<u16>) -> (res: Result<(), CmsError>)
        requires
            self.wf(),
        ensures
            final(dst)@.len() == old(dst)@.len(),
            res is Ok <==> (src@.len() == old(dst)@.len() && src@.len() as int
                % self.layout.spec_channels() == 0),
            src@.len() != old(dst)@.len() ==> res == Err::<(), CmsError>(
                CmsError::LaneSizeMismatch,
            ),
            src@.len() == old(dst)@.len() && src@.len() as int % self.layout.spec_channels() != 0
                ==> res == Err::<(), CmsError>(CmsError::LaneMultipleOfChannels),
            res is Err ==> final(dst)@ == old(dst)@,
            res is Ok ==> forall|p: int|
                0 <= p < src@.len() as int / self.layout.spec_channels()
                    ==> #[trigger] self.pixel_ok16(src@, final(dst)@, p),
    {
        let ch = self.layout.channels();
        if src.len() != dst.len() {
            return Err(CmsError::LaneSizeMismatch);
        }
        if src.len() % ch != 0 {
            return Err(CmsError::LaneMultipleOfChannels);
        }
        let npix = src.len() / ch;
        proof {
            assert(npix * ch == src@.len()) by (nonlinear_arith)
                requires
                    npix == src@.len() as int / ch as int,
                    src@.len() as int % ch as int == 0,
                    0 < ch;
        }
        let mut p: usize = 0;
        let mut base: usize = 0;
        while p < npix
            invariant
                self.wf(),
                ch == self.layout.spec_channels(),
                3 <= ch <= 4,
                src@.len() == dst@.len(),
                dst@.len() == old(dst)@.len(),
                npix * ch == src@.len(),
                p <= npix,
                base == p * ch,
                forall|q: int| 0 <= q < p ==> #[trigger] self.pixel_ok16(src@, dst@, q),
            decreases npix - p,
        {
            proof {
                assert((p + 1) * ch <= npix * ch) by (nonlinear_arith)
                    requires
                        p + 1 <= npix,
                        0 < ch;
                assert((p + 1) * ch == p * ch + ch) by (nonlinear_arith);
            }
            let lim = self.linear_cap - 1;
            let rc0 = src[base] as usize;
            let gc0 = src[base + 1] as usize;
            let bc0 = src[base + 2] as usize;
            let rc = if rc0 > lim {
                lim
            } else {
                rc0
            };
            let gc = if gc0 > lim {
                lim
            } else {
                gc0
            };
            let bc = if bc0 > lim {
                lim
            } else {
                bc0
            };
            let out = self.rgb_px(rc, gc, bc);
            let ghost pre = dst@;
            dst[base] = out.0;
            dst[base + 1] = out.1;
            dst[base + 2] = out.2;
            if ch == 4 {
                dst[base + 3] = src[base + 3];
            }
            proof {
                assert forall|q: int| 0 <= q < p implies #[trigger] self.pixel_ok16(
                    src@,
                    dst@,
                    q,
                ) by {
                    assert((q + 1) * ch <= p * ch) by (nonlinear_arith)
                        requires
                            q + 1 <= p,
                            0 < ch;
                    assert(q * ch + ch == (q + 1) * ch) by (nonlinear_arith);
                    assert(self.pixel_ok16(src@, pre, q));
                }
                assert(self.pixel_ok16(src@, dst@, p as int));
            }
            p = p + 1;
            base = base + ch;
        }
        Ok(())
    }
}

/// Every color channel a well-formed RGB transform writes stays within
/// `0..=max_out`, and alpha is carried over bit for bit.
pub proof fn lemma_rgb_output_in_range(
    t: RgbXyzTransform,
    src: Seq<u8>,
    dst: Seq<u8>,
    p: int,
)
    requires
        t.wf(),
        t.pixel_ok8(src, dst, p),
        0 <= p,
        (p + 1) * t.layout.spec_channels() <= dst.len(),
    ensures
        dst[p * t.layout.spec_channels()] <= t.max_out,
        dst[p * t.layout.spec_channels() + 1] <= t.max_out,
        dst[p * t.layout.spec_channels() + 2] <= t.max_out,
        t.layout.spec_channels() == 4 ==> dst[p * t.layout.spec_channels() + 3] == src[p
            * t.layout.spec_channels() + 3],
{
}

} // verus!
