//! Pixel buffer layouts, transform options and the executor interface.

use vstd::prelude::*;
use crate::clut::Lut4x3Transform;
use crate::err::CmsError;
use crate::gray2rgb::GrayToRgbTransform;
use crate::matrix::{det3, q_identity_s, qmat_entry_s, transform_matrix};
use crate::profile::{ColorProfile, DataColorSpace, RenderingIntent, profile_wf};
use crate::rgbxyz::RgbXyzTransform;
use crate::trc::{ToneCurve, curve_sample_s, curve_table_s, curve_valid, lin_entry_s,
    gamma_entry_s, sample_tone_curve, build_linear_table, build_gamma_table};

verus! {

/// Transformation executor itself.
///
/// The sample count always must match: if there are `N` pixels of a *Cmyk*
/// source then `N` pixels of *Rgb* are expected as an output.
pub trait TransformExecutor<V> {
    /// What a caller must establish before running the executor; a
    /// compiled transform satisfies it by construction.
    spec fn valid(&self) -> bool;

    /// What a completed call guarantees, over the source, the
    /// destination before and after the call, and the result; each
    /// executor fixes it to its per-pixel account.
    spec fn post(
        &self,
        src: Seq<V>,
        dst0: Seq<V>,
        dst1: Seq<V>,
        res: Result<(), crate::err::CmsError>,
    ) -> bool;

    fn transform(&self, src: &[V], dst: &mut Vec<V>) -> (res: Result<
        (),
        crate::err::CmsError,
    >)
        requires
            self.valid(),
        ensures
            final(dst)@.len() == old(dst)@.len(),
            res is Err ==> final(dst)@ == old(dst)@,
            self.post(src@, old(dst)@, final(dst)@, res),
    ;
}

/// Declares additional transformation options.
///
/// The rendering intent is not an option here: the factory reads it
/// from the destination profile, and the built transform's contract
/// pins the gamut-clip decision to that intent together with
/// `allow_chroma_clipping`.  A per-transform intent override is
/// deliberately not offered; set the profile's intent instead.
#[derive(Debug, Copy, Clone, Eq, PartialEq, Structural)]
pub struct TransformOptions {
    /// When enabled, out-of-range chroma after the matrix stage is scaled
    /// back into gamut uniformly, preserving hue at the cost of lightness.
    pub allow_chroma_clipping: bool,
    /// Prefer the fixed-point pipeline over the floating-point one.  Every
    /// numeric stage of this engine is fixed point already, so both
    /// settings build the same pipeline; see the accompanying lemma.
    pub prefer_fixed_point: bool,
    /// Interpolation method for lookup-table based transforms.
    pub interpolation_method: InterpolationMethod,
    /// Black point compensation; accepted and currently a no-op.
    pub black_point_compensation: bool,
    /// Whether a CICP transfer tag may override curve selection; accepted
    /// and currently a no-op.
    pub allow_use_cicp_transfer: bool,
}

impl Default for TransformOptions {
    fn default() -> (r: Self)
        ensures
            r.allow_chroma_clipping == false,
            r.prefer_fixed_point == false,
            r.interpolation_method == InterpolationMethod::Tetrahedral,
            r.black_point_compensation == false,
            r.allow_use_cicp_transfer == false,
    {
        TransformOptions {
            allow_chroma_clipping: false,
            prefer_fixed_point: false,
            interpolation_method: InterpolationMethod::Tetrahedral,
            black_point_compensation: false,
            allow_use_cicp_transfer: false,
        }
    }
}

/// How a multi-dimensional lookup table is interpolated between lattice
/// points.
#[derive(Debug, Copy, Clone, Eq, PartialEq, Structural)]
pub enum InterpolationMethod {
    /// Six-tetrahedra subdivision of each grid cell.
    Tetrahedral,
    /// Three-pyramid subdivision.
    Pyramid,
    /// Two-prism subdivision.
    Prism,
    /// Plain eight-corner trilinear interpolation.
    Linear,
}

/// Layout declares a data layout.
/// For RGB it shows also the channel order.
/// 8 and 16 bits is the storage size, not the data size.
/// To handle different data bit depths the appropriate executor must be
/// used.
#[derive(Debug, Copy, Clone, Eq, PartialEq, Structural)]
pub enum Layout {
    Rgb8,
    Rgba8,
    Rgb16,
    Rgba16,
    Gray8,
    GrayAlpha8,
    Gray16,
    GrayAlpha16,
}

impl Layout {
    /// True of the layouts that carry red, green and blue channels.
    pub open spec fn is_rgb_kind(self) -> bool {
        self == Layout::Rgb8 || self == Layout::Rgba8 || self == Layout::Rgb16
            || self == Layout::Rgba16
    }

    /// True of the layouts that carry an alpha channel.
    pub open spec fn spec_has_alpha(self) -> bool {
        self == Layout::Rgba8 || self == Layout::Rgba16 || self == Layout::GrayAlpha8
            || self == Layout::GrayAlpha16
    }

    /// Channel count of a pixel in this layout.
    pub open spec fn spec_channels(self) -> int {
        match self {
            Layout::Rgb8 => 3,
            Layout::Rgba8 => 4,
            Layout::Rgb16 => 3,
            Layout::Rgba16 => 4,
            Layout::Gray8 => 1,
            Layout::GrayAlpha8 => 2,
            Layout::Gray16 => 1,
            Layout::GrayAlpha16 => 2,
        }
    }

    /// True of the layouts stored in 16-bit words.
    pub open spec fn spec_is_16_bit(self) -> bool {
        self == Layout::Rgb16 || self == Layout::Rgba16 || self == Layout::Gray16
            || self == Layout::GrayAlpha16
    }

    /// The fixed single-byte encoding of a layout.
    pub open spec fn spec_code(self) -> int {
        match self {
            Layout::Rgb8 => 0,
            Layout::Rgba8 => 1,
            Layout::Rgb16 => 2,
            Layout::Rgba16 => 3,
            Layout::Gray8 => 4,
            Layout::GrayAlpha8 => 5,
            Layout::Gray16 => 6,
            Layout::GrayAlpha16 => 7,
        }
    }

    /// Returns the red channel index.
    pub fn r_i(self) -> (r: usize)
        requires
            self.is_rgb_kind(),
        ensures
            r == 0,
    {
        match self {
            Layout::Rgb8 => 0,
            Layout::Rgba8 => 0,
            Layout::Rgb16 => 0,
            Layout::Rgba16 => 0,
            _ => 0,
        }
    }

    /// Returns the green channel index.
    pub fn g_i(self) -> (r: usize)
        requires
            self.is_rgb_kind(),
        ensures
            r == 1,
    {
        match self {
            Layout::Rgb8 => 1,
            Layout::Rgba8 => 1,
            Layout::Rgb16 => 1,
            Layout::Rgba16 => 1,
            _ => 1,
        }
    }

    /// Returns the blue channel index.
    pub fn b_i(self) -> (r: usize)
        requires
            self.is_rgb_kind(),
        ensures
            r == 2,
    {
        match self {
            Layout::Rgb8 => 2,
            Layout::Rgba8 => 2,
            Layout::Rgb16 => 2,
            Layout::Rgba16 => 2,
            _ => 2,
        }
    }

    /// Returns the alpha channel index.
    pub fn a_i(self) -> (r: usize)
        requires
            self.spec_has_alpha(),
        ensures
            r == self.spec_channels() - 1,
    {
        match self {
            Layout::Rgba8 => 3,
            Layout::Rgba16 => 3,
            Layout::GrayAlpha8 => 1,
            Layout::GrayAlpha16 => 1,
            _ => 0,
        }
    }

    /// Whether the layout carries an alpha channel.
    pub fn has_alpha(self) -> (r: bool)
        ensures
            r == self.spec_has_alpha(),
    {
        match self {
            Layout::Rgb8 => false,
            Layout::Rgba8 => true,
            Layout::Rgb16 => false,
            Layout::Rgba16 => true,
            Layout::Gray8 => false,
            Layout::GrayAlpha8 => true,
            Layout::Gray16 => false,
            Layout::GrayAlpha16 => true,
        }
    }

    /// Whether the layout is stored in 16-bit words.
    pub fn is_16_bit(self) -> (r: bool)
        ensures
            r == self.spec_is_16_bit(),
    {
        if self == Layout::Rgb16 || self == Layout::Rgba16 || self == Layout::Gray16
            || self == Layout::GrayAlpha16 {
            return true;
        }
        false
    }

    /// Channel count of a pixel in this layout.
    pub fn channels(self) -> (r: usize)
        ensures
            r == self.spec_channels(),
    {
        match self {
            Layout::Rgb8 => 3,
            Layout::Rgba8 => 4,
            Layout::Rgb16 => 3,
            Layout::Rgba16 => 4,
            Layout::Gray8 => 1,
            Layout::GrayAlpha8 => 2,
            Layout::Gray16 => 1,
            Layout::GrayAlpha16 => 2,
        }
    }

    /// The fixed single-byte encoding of a layout: `Rgb8` is 0 up to
    /// `GrayAlpha16` at 7.
    pub fn to_code(self) -> (r: u8)
        ensures
            r == self.spec_code(),
    {
        match self {
            Layout::Rgb8 => 0,
            Layout::Rgba8 => 1,
            Layout::Rgb16 => 2,
            Layout::Rgba16 => 3,
            Layout::Gray8 => 4,
            Layout::GrayAlpha8 => 5,
            Layout::Gray16 => 6,
            Layout::GrayAlpha16 => 7,
        }
    }

    /// Decodes the single-byte encoding; inverse of `to_code`.
    pub fn from_code(value: u8) -> (r: Layout)
        requires
            value <= 7,
        ensures
            r.spec_code() == value,
    {
        match value {
            0 => Layout::Rgb8,
            1 => Layout::Rgba8,
            2 => Layout::Rgb16,
            3 => Layout::Rgba16,
            4 => Layout::Gray8,
            5 => Layout::GrayAlpha8,
            6 => Layout::Gray16,
            _ => Layout::GrayAlpha16,
        }
    }
}

/// The rendering intents under which gamut-chroma clipping may run.
pub open spec fn gamut_intent_s(i: RenderingIntent) -> bool {
    i == RenderingIntent::Perceptual || i == RenderingIntent::RelativeColorimetric || i
        == RenderingIntent::Saturation
}

/// A present and sampleable tone curve.
pub open spec fn opt_curve_ok(oc: Option<ToneCurve>) -> bool {
    oc matches Some(c) && curve_valid(c)
}

/// Both profiles are RGB device spaces connected through XYZ.
pub open spec fn rgb_pair_s(s: ColorProfile, d: ColorProfile) -> bool {
    s.color_space == DataColorSpace::Rgb && d.pcs == DataColorSpace::Xyz && d.color_space
        == DataColorSpace::Rgb && s.pcs == DataColorSpace::Xyz
}

/// A gray source headed to an RGB destination through XYZ.
pub open spec fn gray_pair_s(s: ColorProfile, d: ColorProfile) -> bool {
    s.color_space == DataColorSpace::Gray && d.color_space == DataColorSpace::Rgb && s.pcs
        == DataColorSpace::Xyz && d.pcs == DataColorSpace::Xyz
}

/// A printing-space source headed to an RGB destination.
pub open spec fn cmyk_pair_s(s: ColorProfile, d: ColorProfile) -> bool {
    s.color_space == DataColorSpace::Cmyk && d.color_space == DataColorSpace::Rgb
}

/// All six curves of an RGB-to-RGB pair are usable: the source's for
/// linearization, the destination's for the inverse tables.
pub open spec fn trcs_rgb_ok(s: ColorProfile, d: ColorProfile) -> bool {
    opt_curve_ok(s.red_trc) && opt_curve_ok(s.green_trc) && opt_curve_ok(s.blue_trc)
        && opt_curve_ok(d.red_trc) && opt_curve_ok(d.green_trc) && opt_curve_ok(d.blue_trc)
}

/// The conversion matrix can be built: equal colorants or an invertible
/// destination.
pub open spec fn matrix_ok(s: ColorProfile, d: ColorProfile) -> bool {
    (forall|k: int| 0 <= k < 9 ==> s.colorants.v[k] == d.colorants.v[k]) || det3(d.colorants)
        != 0
}

/// The conversion matrix the factory stores: the identity for equal
/// colorants, otherwise `dst^-1 * src` rounded to Q4.12.
pub open spec fn built_matrix_ok(s: ColorProfile, d: ColorProfile, t: RgbXyzTransform) -> bool {
    &&& ((forall|k: int| 0 <= k < 9 ==> s.colorants.v[k] == d.colorants.v[k]) ==> (forall|k: int|
        0 <= k < 9 ==> t.matrix.v[k] == q_identity_s(k)))
    &&& ((exists|k: int| 0 <= k < 9 && s.colorants.v[k] != d.colorants.v[k]) ==> (forall|k: int|
        0 <= k < 9 ==> t.matrix.v[k] == qmat_entry_s(s.colorants, d.colorants, k)))
}

/// What the factory guarantees of a built RGB-to-RGB transform: every
/// table entry, the matrix, the layout and the staging choice are
/// functions of the two profiles, the layout and the options alone.
pub open spec fn rgb_built(
    s: ColorProfile,
    d: ColorProfile,
    layout: Layout,
    o: TransformOptions,
    lc: int,
    gc: int,
    mo: int,
    t: RgbXyzTransform,
) -> bool {
    &&& t.layout == layout
    &&& t.linear_cap == lc
    &&& t.gamma_cap == gc
    &&& t.max_out == mo
    &&& t.use_gamut_clip == (gamut_intent_s(d.rendering_intent) && o.allow_chroma_clipping)
    &&& t.r_linear@.len() == lc
    &&& t.g_linear@.len() == lc
    &&& t.b_linear@.len() == lc
    &&& t.r_gamma@.len() == gc
    &&& t.g_gamma@.len() == gc
    &&& t.b_gamma@.len() == gc
    &&& (s.red_trc matches Some(c) && (forall|i: int|
        0 <= i < lc ==> t.r_linear@[i] == lin_entry_s(curve_table_s(c), lc, gc, i)))
    &&& (s.green_trc matches Some(c) && (forall|i: int|
        0 <= i < lc ==> t.g_linear@[i] == lin_entry_s(curve_table_s(c), lc, gc, i)))
    &&& (s.blue_trc matches Some(c) && (forall|i: int|
        0 <= i < lc ==> t.b_linear@[i] == lin_entry_s(curve_table_s(c), lc, gc, i)))
    &&& (d.red_trc matches Some(c) && (forall|j: int|
        0 <= j < gc ==> t.r_gamma@[j] == gamma_entry_s(curve_table_s(c), gc, mo, j)))
    &&& (d.green_trc matches Some(c) && (forall|j: int|
        0 <= j < gc ==> t.g_gamma@[j] == gamma_entry_s(curve_table_s(c), gc, mo, j)))
    &&& (d.blue_trc matches Some(c) && (forall|j: int|
        0 <= j < gc ==> t.b_gamma@[j] == gamma_entry_s(curve_table_s(c), gc, mo, j)))
    &&& built_matrix_ok(s, d, t)
}

/// What the factory guarantees of a built gray transform: the
/// linearization table comes from the source's gray curve, the inverse
/// table from the destination's red curve.
pub open spec fn gray_built(
    s: ColorProfile,
    d: ColorProfile,
    layout: Layout,
    lc: int,
    gc: int,
    mo: int,
    t: GrayToRgbTransform,
) -> bool {
    &&& t.layout == layout
    &&& t.linear_cap == lc
    &&& t.gamma_cap == gc
    &&& t.max_out == mo
    &&& t.gray_linear@.len() == lc
    &&& t.gray_gamma@.len() == gc
    &&& (s.gray_trc matches Some(c) && (forall|i: int|
        0 <= i < lc ==> t.gray_linear@[i] == lin_entry_s(curve_table_s(c), lc, gc, i)))
    &&& (d.red_trc matches Some(c) && (forall|j: int|
        0 <= j < gc ==> t.gray_gamma@[j] == gamma_entry_s(curve_table_s(c), gc, mo, j)))
}

/// What the factory guarantees of a built lookup-table transform: the
/// lattice carries the profile's samples unchanged.
pub open spec fn clut4_built(
    s: ColorProfile,
    layout: Layout,
    o: TransformOptions,
    lc: int,
    mo: int,
    t: Lut4x3Transform,
) -> bool {
    &&& t.layout == layout
    &&& t.method == o.interpolation_method
    &&& t.linear_cap == lc
    &&& t.max_out == mo
    &&& (s.clut matches Some(ct) && t.grid == ct.grid && t.lut@.len() == ct.samples@.len() && (
    forall|i: int| 0 <= i < ct.samples@.len() ==> t.lut@[i] == ct.samples@[i]))
}

/// A compiled transform over 8-bit buffers.
#[derive(Debug, Clone)]
pub enum Transform8Bit {
    /// The RGB-to-RGB matrix path.
    Rgb(RgbXyzTransform),
    /// The gray path.
    Gray(GrayToRgbTransform),
    /// The four-to-three lookup-table path.
    Clut4x3(Lut4x3Transform),
}

/// A compiled transform over 16-bit buffers.
#[derive(Debug, Clone)]
pub enum Transform16Bit {
    /// The RGB-to-RGB matrix path.
    Rgb(RgbXyzTransform),
    /// The gray path.
    Gray(GrayToRgbTransform),
    /// The four-to-three lookup-table path.
    Clut4x3(Lut4x3Transform),
}

impl Transform8Bit {
    /// Well-formedness of the selected path.
    pub open spec fn wf(self) -> bool {
        match self {
            Transform8Bit::Rgb(t) => t.wf() && t.linear_cap == 256 && t.max_out <= 255,
            Transform8Bit::Gray(t) => t.wf() && t.linear_cap == 256 && t.max_out <= 255,
            Transform8Bit::Clut4x3(t) => t.wf() && t.max_out <= 255,
        }
    }

    /// What a completed call guarantees: the lane checks of the chosen
    /// path, and on success the path's per-pixel account of the whole
    /// destination.
    pub open spec fn transform_post(
        self,
        src: Seq<u8>,
        dst0: Seq<u8>,
        dst1: Seq<u8>,
        res: Result<(), CmsError>,
    ) -> bool {
        match self {
            Transform8Bit::Rgb(t) => {
                &&& (res is Ok <==> (src.len() == dst0.len() && src.len() as int
                    % t.layout.spec_channels() == 0))
                &&& (res is Ok ==> forall|p: int|
                    0 <= p < src.len() as int / t.layout.spec_channels()
                        ==> #[trigger] t.pixel_ok8(src, dst1, p))
            },
            Transform8Bit::Gray(t) => {
                &&& (res is Ok <==> (src.len() == dst0.len() as int / t.layout.spec_channels()
                    && dst0.len() as int % t.layout.spec_channels() == 0))
                &&& (res is Ok ==> forall|p: int|
                    0 <= p < src.len() ==> #[trigger] t.pixel_ok8(src, dst1, p))
            },
            Transform8Bit::Clut4x3(t) => {
                &&& (res is Ok <==> (src.len() as int % 4 == 0 && dst0.len() as int
                    % t.layout.spec_channels() == 0 && src.len() as int / 4 == dst0.len() as int
                    / t.layout.spec_channels()))
                &&& (res is Ok ==> forall|p: int|
                    0 <= p < src.len() as int / 4 ==> #[trigger] t.pixel_ok8(src, dst1, p))
            },
        }
    }

    /// Runs the compiled transform: converts `src` into `dst` pixel by
    /// pixel.  The only runtime errors are the two lane checks; on any
    /// error nothing is written.
    pub fn transform(&self, src: &[u8], dst: &mut Vec<u8>) -> (res: Result<(), CmsError>)
        requires
            self.wf(),
        ensures
            final(dst)@.len() == old(dst)@.len(),
            res is Err ==> final(dst)@ == old(dst)@ && (res == Err::<(), CmsError>(
                CmsError::LaneSizeMismatch,
            ) || res == Err::<(), CmsError>(CmsError::LaneMultipleOfChannels)),
            self.transform_post(src@, old(dst)@, final(dst)@, res),
    {
        match self {
            Transform8Bit::Rgb(t) => t.transform_8(src, dst),
            Transform8Bit::Gray(t) => t.transform_8(src, dst),
            Transform8Bit::Clut4x3(t) => t.transform_8(src, dst),
        }
    }
}

impl Transform16Bit {
    /// Well-formedness of the selected path.
    pub open spec fn wf(self) -> bool {
        match self {
            Transform16Bit::Rgb(t) => t.wf(),
            Transform16Bit::Gray(t) => t.wf(),
            Transform16Bit::Clut4x3(t) => t.wf(),
        }
    }

    /// What a completed call guarantees; see `Transform8Bit`.
    pub open spec fn transform_post(
        self,
        src: Seq<u16>,
        dst0: Seq<u16>,
        dst1: Seq<u16>,
        res: Result<(), CmsError>,
    ) -> bool {
        match self {
            Transform16Bit::Rgb(t) => {
                &&& (res is Ok <==> (src.len() == dst0.len() && src.len() as int
                    % t.layout.spec_channels() == 0))
                &&& (res is Ok ==> forall|p: int|
                    0 <= p < src.len() as int / t.layout.spec_channels()
                        ==> #[trigger] t.pixel_ok16(src, dst1, p))
            },
            Transform16Bit::Gray(t) => {
                &&& (res is Ok <==> (src.len() == dst0.len() as int / t.layout.spec_channels()
                    && dst0.len() as int % t.layout.spec_channels() == 0))
                &&& (res is Ok ==> forall|p: int|
                    0 <= p < src.len() ==> #[trigger] t.pixel_ok16(src, dst1, p))
            },
            Transform16Bit::Clut4x3(t) => {
                &&& (res is Ok <==> (src.len() as int % 4 == 0 && dst0.len() as int
                    % t.layout.spec_channels() == 0 && src.len() as int / 4 == dst0.len() as int
                    / t.layout.spec_channels()))
                &&& (res is Ok ==> forall|p: int|
                    0 <= p < src.len() as int / 4 ==> #[trigger] t.pixel_ok16(src, dst1, p))
            },
        }
    }

    /// Runs the compiled transform; see `Transform8Bit::transform`.
    pub fn transform(&self, src: &[u16], dst: &mut Vec<u16>) -> (res: Result<(), CmsError>)
        requires
            self.wf(),
        ensures
            final(dst)@.len() == old(dst)@.len(),
            res is Err ==> final(dst)@ == old(dst)@ && (res == Err::<(), CmsError>(
                CmsError::LaneSizeMismatch,
            ) || res == Err::<(), CmsError>(CmsError::LaneMultipleOfChannels)),
            self.transform_post(src@, old(dst)@, final(dst)@, res),
    {
        match self {
            Transform16Bit::Rgb(t) => t.transform_16(src, dst),
            Transform16Bit::Gray(t) => t.transform_16(src, dst),
            Transform16Bit::Clut4x3(t) => t.transform_16(src, dst),
        }
    }
}

impl TransformExecutor<u8> for Transform8Bit {
    open spec fn valid(&self) -> bool {
        self.wf()
    }

    open spec fn post(
        &self,
        src: Seq<u8>,
        dst0: Seq<u8>,
        dst1: Seq<u8>,
        res: Result<(), CmsError>,
    ) -> bool {
        self.transform_post(src, dst0, dst1, res) && (res is Err ==> res == Err::<(), CmsError>(
            CmsError::LaneSizeMismatch,
        ) || res == Err::<(), CmsError>(CmsError::LaneMultipleOfChannels))
    }

    fn transform(&self, src: &[u8], dst: &mut Vec<u8>) -> Result<(), CmsError> {
        Transform8Bit::transform(self, src, dst)
    }
}

impl TransformExecutor<u16> for Transform16Bit {
    open spec fn valid(&self) -> bool {
        self.wf()
    }

    open spec fn post(
        &self,
        src: Seq<u16>,
        dst0: Seq<u16>,
        dst1: Seq<u16>,
        res: Result<(), CmsError>,
    ) -> bool {
        self.transform_post(src, dst0, dst1, res) && (res is Err ==> res == Err::<(), CmsError>(
            CmsError::LaneSizeMismatch,
        ) || res == Err::<(), CmsError>(CmsError::LaneMultipleOfChannels))
    }

    fn transform(&self, src: &[u16], dst: &mut Vec<u16>) -> Result<(), CmsError> {
        Transform16Bit::transform(self, src, dst)
    }
}

/// Samples a profile curve: a missing or unusable curve is an
/// `InvalidTrc` error, else the internal sample table.
fn curve_ft(oc: &Option<ToneCurve>) -> (r: Result<Vec<u16>, CmsError>)
    ensures
        r is Ok <==> opt_curve_ok(*oc),
        r matches Err(e) ==> e == CmsError::InvalidTrc,
        r matches Ok(ft) ==> (*oc matches Some(c) && ft@ == curve_table_s(c)),
{
    match oc {
        None => Err(CmsError::InvalidTrc),
        Some(c) => {
            let ft = sample_tone_curve(c)?;
            proof {
                assert forall|i: int| 0 <= i < 4097 implies ft@[i] == curve_table_s(*c)[i] by {
                    assert(ft@[i] == curve_sample_s(*c, i));
                }
                assert(ft@ =~= curve_table_s(*c));
            }
            Ok(ft)
        },
    }
}

/// Builds the RGB-to-RGB path: six sampled curves, two table sets, the
/// conversion matrix.
fn build_rgb(
    src_pr: &ColorProfile,
    dst_pr: &ColorProfile,
    layout: Layout,
    options: TransformOptions,
    linear_cap: usize,
    gamma_cap: usize,
    max_out: u16,
) -> (r: Result<RgbXyzTransform, CmsError>)
    requires
        profile_wf(*src_pr),
        profile_wf(*dst_pr),
        layout.is_rgb_kind(),
        2 <= linear_cap <= 65536,
        2 <= gamma_cap <= 65536,
        1 <= max_out <= 65535,
    ensures
        r is Ok <==> (trcs_rgb_ok(*src_pr, *dst_pr) && matrix_ok(*src_pr, *dst_pr)),
        !trcs_rgb_ok(*src_pr, *dst_pr) ==> r == Err::<RgbXyzTransform, CmsError>(
            CmsError::InvalidTrc,
        ),
        trcs_rgb_ok(*src_pr, *dst_pr) && !matrix_ok(*src_pr, *dst_pr) ==> r == Err::<
            RgbXyzTransform,
            CmsError,
        >(CmsError::InvalidIcc),
        r matches Ok(t) ==> t.wf() && rgb_built(
            *src_pr,
            *dst_pr,
            layout,
            options,
            linear_cap as int,
            gamma_cap as int,
            max_out as int,
            t,
        ),
{
    let ft_r = curve_ft(&src_pr.red_trc)?;
    let ft_g = curve_ft(&src_pr.green_trc)?;
    let ft_b = curve_ft(&src_pr.blue_trc)?;
    let fd_r = curve_ft(&dst_pr.red_trc)?;
    let fd_g = curve_ft(&dst_pr.green_trc)?;
    let fd_b = curve_ft(&dst_pr.blue_trc)?;
    let matrix = match transform_matrix(&src_pr.colorants, &dst_pr.colorants) {
        Ok(m) => m,
        Err(e) => {
            return Err(e);
        },
    };
    let r_linear = build_linear_table(&ft_r, linear_cap, gamma_cap as u64);
    let g_linear = build_linear_table(&ft_g, linear_cap, gamma_cap as u64);
    let b_linear = build_linear_table(&ft_b, linear_cap, gamma_cap as u64);
    let r_gamma = build_gamma_table(&fd_r, gamma_cap, max_out as u64);
    let g_gamma = build_gamma_table(&fd_g, gamma_cap, max_out as u64);
    let b_gamma = build_gamma_table(&fd_b, gamma_cap, max_out as u64);
    let gamut_intent = match dst_pr.rendering_intent {
        RenderingIntent::Perceptual => true,
        RenderingIntent::RelativeColorimetric => true,
        RenderingIntent::Saturation => true,
        RenderingIntent::AbsoluteColorimetric => false,
    };
    Ok(
        RgbXyzTransform {
            r_linear,
            g_linear,
            b_linear,
            r_gamma,
            g_gamma,
            b_gamma,
            matrix,
            layout,
            use_gamut_clip: gamut_intent && options.allow_chroma_clipping,
            linear_cap,
            gamma_cap,
            max_out,
        },
    )
}

/// Builds the gray path: the source gray curve linearizes, the
/// destination red curve encodes.
fn build_gray(
    src_pr: &ColorProfile,
    dst_pr: &ColorProfile,
    layout: Layout,
    linear_cap: usize,
    gamma_cap: usize,
    max_out: u16,
) -> (r: Result<GrayToRgbTransform, CmsError>)
    requires
        profile_wf(*src_pr),
        profile_wf(*dst_pr),
        2 <= linear_cap <= 65536,
        2 <= gamma_cap <= 65536,
        1 <= max_out <= 65535,
    ensures
        r is Ok <==> (opt_curve_ok(src_pr.gray_trc) && opt_curve_ok(dst_pr.red_trc)),
        r matches Err(e) ==> e == CmsError::InvalidTrc,
        r matches Ok(t) ==> t.wf() && gray_built(
            *src_pr,
            *dst_pr,
            layout,
            linear_cap as int,
            gamma_cap as int,
            max_out as int,
            t,
        ),
{
    let ft = curve_ft(&src_pr.gray_trc)?;
    let fd = curve_ft(&dst_pr.red_trc)?;
    let gray_linear = build_linear_table(&ft, linear_cap, gamma_cap as u64);
    let gray_gamma = build_gamma_table(&fd, gamma_cap, max_out as u64);
    Ok(GrayToRgbTransform { gray_linear, gray_gamma, layout, linear_cap, gamma_cap, max_out })
}

/// Builds the four-to-three lookup path around the profile's lattice.
fn build_clut4(
    src_pr: &ColorProfile,
    layout: Layout,
    options: TransformOptions,
    linear_cap: usize,
    max_out: u16,
) -> (r: Result<Lut4x3Transform, CmsError>)
    requires
        profile_wf(*src_pr),
        layout.is_rgb_kind(),
        2 <= linear_cap <= 65536,
        1 <= max_out <= 65535,
    ensures
        r is Ok <==> src_pr.clut is Some,
        r matches Err(e) ==> e == CmsError::UnsupportedProfileConnection,
        r matches Ok(t) ==> t.wf() && clut4_built(
            *src_pr,
            layout,
            options,
            linear_cap as int,
            max_out as int,
            t,
        ),
{
    match &src_pr.clut {
        None => Err(CmsError::UnsupportedProfileConnection),
        Some(ct) => {
            let n = ct.samples.len();
            let mut lut: Vec<i32> = Vec::new();
            let mut i: usize = 0;
            while i < n
                invariant
                    i <= n,
                    n == ct.samples@.len(),
                    lut@.len() == i,
                    forall|q: int| 0 <= q < i ==> #[trigger] lut@[q] == ct.samples@[q],
                    forall|q: int| 0 <= q < i ==> 0 <= #[trigger] lut@[q] <= 65535,
                decreases n - i,
            {
                lut.push(ct.samples[i] as i32);
                i = i + 1;
            }
            Ok(
                Lut4x3Transform {
                    lut,
                    grid: ct.grid,
                    layout,
                    method: options.interpolation_method,
                    linear_cap,
                    max_out,
                },
            )
        },
    }
}

/// Everything the 16-bit-storage factory promises, at table sizes
/// `lc` and `gc` and largest output code `mo`: the full decision tree,
/// each error exactly characterized, and on success the built path's
/// tables pinned as functions of the profiles, the layout and the
/// options.
pub open spec fn nbit_factory_post(
    s: ColorProfile,
    d: ColorProfile,
    layout: Layout,
    o: TransformOptions,
    lc: int,
    gc: int,
    mo: int,
    r: Result<Transform16Bit, CmsError>,
) -> bool {
    &&& (r matches Ok(t) ==> t.wf())
    &&& (!layout.spec_is_16_bit() ==> r == Err::<Transform16Bit, CmsError>(
        CmsError::InvalidLayout,
    ))
    &&& (layout.spec_is_16_bit() && rgb_pair_s(s, d) && !layout.is_rgb_kind() ==> r == Err::<
        Transform16Bit,
        CmsError,
    >(CmsError::InvalidLayout))
    &&& (layout.spec_is_16_bit() && rgb_pair_s(s, d) && layout.is_rgb_kind() && !trcs_rgb_ok(
        s,
        d,
    ) ==> r == Err::<Transform16Bit, CmsError>(CmsError::InvalidTrc))
    &&& (layout.spec_is_16_bit() && rgb_pair_s(s, d) && layout.is_rgb_kind() && trcs_rgb_ok(s, d)
        && !matrix_ok(s, d) ==> r == Err::<Transform16Bit, CmsError>(CmsError::InvalidIcc))
    &&& (layout.spec_is_16_bit() && rgb_pair_s(s, d) && layout.is_rgb_kind() && trcs_rgb_ok(s, d)
        && matrix_ok(s, d) ==> (r matches Ok(t16) && t16 matches Transform16Bit::Rgb(t)
        && rgb_built(s, d, layout, o, lc, gc, mo, t)))
    &&& (layout.spec_is_16_bit() && !rgb_pair_s(s, d) && gray_pair_s(s, d) && !(opt_curve_ok(
        s.gray_trc,
    ) && opt_curve_ok(d.red_trc)) ==> r == Err::<Transform16Bit, CmsError>(CmsError::InvalidTrc))
    &&& (layout.spec_is_16_bit() && !rgb_pair_s(s, d) && gray_pair_s(s, d) && opt_curve_ok(
        s.gray_trc,
    ) && opt_curve_ok(d.red_trc) ==> (r matches Ok(t16) && t16 matches Transform16Bit::Gray(t)
        && gray_built(s, d, layout, lc, gc, mo, t)))
    &&& (layout.spec_is_16_bit() && !rgb_pair_s(s, d) && !gray_pair_s(s, d) && cmyk_pair_s(s, d)
        && !layout.is_rgb_kind() ==> r == Err::<Transform16Bit, CmsError>(
        CmsError::InvalidLayout,
    ))
    &&& (layout.spec_is_16_bit() && !rgb_pair_s(s, d) && !gray_pair_s(s, d) && cmyk_pair_s(s, d)
        && layout.is_rgb_kind() && s.clut is None ==> r == Err::<Transform16Bit, CmsError>(
        CmsError::UnsupportedProfileConnection,
    ))
    &&& (layout.spec_is_16_bit() && !rgb_pair_s(s, d) && !gray_pair_s(s, d) && cmyk_pair_s(s, d)
        && layout.is_rgb_kind() && s.clut is Some ==> (r matches Ok(t16) && t16
        matches Transform16Bit::Clut4x3(t) && clut4_built(s, layout, o, lc, mo, t)))
    &&& (layout.spec_is_16_bit() && !rgb_pair_s(s, d) && !gray_pair_s(s, d) && !cmyk_pair_s(s, d)
        ==> r == Err::<Transform16Bit, CmsError>(CmsError::UnsupportedProfileConnection))
}

impl ColorProfile {
    /// Creates a transform between a source and a destination profile
    /// for 8-bit buffers.  The decision tree: a 16-bit layout is
    /// rejected; RGB to RGB through XYZ uses the matrix path (gray
    /// layouts rejected); gray to RGB through XYZ uses the gray path; a
    /// printing space to RGB uses the lookup-table path (gray layouts
    /// rejected, and the source must carry a lattice); anything else is
    /// an unsupported connection.
    pub fn create_transform_8bit(
        &self,
        dst_pr: &ColorProfile,
        layout: Layout,
        options: TransformOptions,
    ) -> (r: Result<Transform8Bit, CmsError>)
        requires
            profile_wf(*self),
            profile_wf(*dst_pr),
        ensures
            r matches Ok(t) ==> t.wf(),
            layout.spec_is_16_bit() ==> r == Err::<Transform8Bit, CmsError>(
                CmsError::InvalidLayout,
            ),
            !layout.spec_is_16_bit() && rgb_pair_s(*self, *dst_pr) && !layout.is_rgb_kind()
                ==> r == Err::<Transform8Bit, CmsError>(CmsError::InvalidLayout),
            !layout.spec_is_16_bit() && rgb_pair_s(*self, *dst_pr) && layout.is_rgb_kind()
                && !trcs_rgb_ok(*self, *dst_pr) ==> r == Err::<Transform8Bit, CmsError>(
                CmsError::InvalidTrc,
            ),
            !layout.spec_is_16_bit() && rgb_pair_s(*self, *dst_pr) && layout.is_rgb_kind()
                && trcs_rgb_ok(*self, *dst_pr) && !matrix_ok(*self, *dst_pr) ==> r == Err::<
                Transform8Bit,
                CmsError,
            >(CmsError::InvalidIcc),
            !layout.spec_is_16_bit() && rgb_pair_s(*self, *dst_pr) && layout.is_rgb_kind()
                && trcs_rgb_ok(*self, *dst_pr) && matrix_ok(*self, *dst_pr) ==> (r matches Ok(t8)
                && t8 matches Transform8Bit::Rgb(t) && rgb_built(
                *self,
                *dst_pr,
                layout,
                options,
                256,
                8192,
                255,
                t,
            )),
            !layout.spec_is_16_bit() && !rgb_pair_s(*self, *dst_pr) && gray_pair_s(
                *self,
                *dst_pr,
            ) && !(opt_curve_ok(self.gray_trc) && opt_curve_ok(dst_pr.red_trc)) ==> r == Err::<
                Transform8Bit,
                CmsError,
            >(CmsError::InvalidTrc),
            !layout.spec_is_16_bit() && !rgb_pair_s(*self, *dst_pr) && gray_pair_s(
                *self,
                *dst_pr,
            ) && opt_curve_ok(self.gray_trc) && opt_curve_ok(dst_pr.red_trc) ==> (r matches Ok(t8)
                && t8 matches Transform8Bit::Gray(t) && gray_built(
                *self,
                *dst_pr,
                layout,
                256,
                8192,
                255,
                t,
            )),
            !layout.spec_is_16_bit() && !rgb_pair_s(*self, *dst_pr) && !gray_pair_s(
                *self,
                *dst_pr,
            ) && cmyk_pair_s(*self, *dst_pr) && !layout.is_rgb_kind() ==> r == Err::<
                Transform8Bit,
                CmsError,
            >(CmsError::InvalidLayout),
            !layout.spec_is_16_bit() && !rgb_pair_s(*self, *dst_pr) && !gray_pair_s(
                *self,
                *dst_pr,
            ) && cmyk_pair_s(*self, *dst_pr) && layout.is_rgb_kind() && self.clut is None ==> r
                == Err::<Transform8Bit, CmsError>(CmsError::UnsupportedProfileConnection),
            !layout.spec_is_16_bit() && !rgb_pair_s(*self, *dst_pr) && !gray_pair_s(
                *self,
                *dst_pr,
            ) && cmyk_pair_s(*self, *dst_pr) && layout.is_rgb_kind() && self.clut is Some ==> (
            r matches Ok(t8) && t8 matches Transform8Bit::Clut4x3(t) && clut4_built(
                *self,
                layout,
                options,
                256,
                255,
                t,
            )),
            !layout.spec_is_16_bit() && !rgb_pair_s(*self, *dst_pr) && !gray_pair_s(
                *self,
                *dst_pr,
            ) && !cmyk_pair_s(*self, *dst_pr) ==> r == Err::<Transform8Bit, CmsError>(
                CmsError::UnsupportedProfileConnection,
            ),
    {
        if layout.is_16_bit() {
            return Err(CmsError::InvalidLayout);
        }
        let is_rgb_pair = self.color_space == DataColorSpace::Rgb && dst_pr.pcs
            == DataColorSpace::Xyz && dst_pr.color_space == DataColorSpace::Rgb && self.pcs
            == DataColorSpace::Xyz;
        let is_gray_pair = self.color_space == DataColorSpace::Gray && dst_pr.color_space
            == DataColorSpace::Rgb && self.pcs == DataColorSpace::Xyz && dst_pr.pcs
            == DataColorSpace::Xyz;
        let is_cmyk_pair = self.color_space == DataColorSpace::Cmyk && dst_pr.color_space
            == DataColorSpace::Rgb;
        if is_rgb_pair {
            if layout == Layout::Gray8 || layout == Layout::GrayAlpha8 {
                return Err(CmsError::InvalidLayout);
            }
            let t = build_rgb(self, dst_pr, layout, options, 256, 8192, 255)?;
            Ok(Transform8Bit::Rgb(t))
        } else if is_gray_pair {
            let t = build_gray(self, dst_pr, layout, 256, 8192, 255)?;
            Ok(Transform8Bit::Gray(t))
        } else if is_cmyk_pair {
            if layout == Layout::Gray8 || layout == Layout::GrayAlpha8 {
                return Err(CmsError::InvalidLayout);
            }
            let t = build_clut4(self, layout, options, 256, 255)?;
            Ok(Transform8Bit::Clut4x3(t))
        } else {
            Err(CmsError::UnsupportedProfileConnection)
        }
    }

    /// Creates a transform for 16-bit storage at an arbitrary data bit
    /// depth, given the size of the linearization table (one entry per
    /// input code), the size of the gamma table, and the largest output
    /// code.  The decision tree matches the 8-bit factory with the
    /// 16-bit layouts in place of the 8-bit ones.
    pub fn create_transform_nbit(
        &self,
        dst_pr: &ColorProfile,
        layout: Layout,
        options: TransformOptions,
        linear_cap: usize,
        gamma_cap: usize,
        max_out: u16,
    ) -> (r: Result<Transform16Bit, CmsError>)
        requires
            profile_wf(*self),
            profile_wf(*dst_pr),
            2 <= linear_cap <= 65536,
            2 <= gamma_cap <= 65536,
            1 <= max_out,
        ensures
            nbit_factory_post(
                *self,
                *dst_pr,
                layout,
                options,
                linear_cap as int,
                gamma_cap as int,
                max_out as int,
                r,
            ),
    {
        if !layout.is_16_bit() {
            return Err(CmsError::InvalidLayout);
        }
        let is_rgb_pair = self.color_space == DataColorSpace::Rgb && dst_pr.pcs
            == DataColorSpace::Xyz && dst_pr.color_space == DataColorSpace::Rgb && self.pcs
            == DataColorSpace::Xyz;
        let is_gray_pair = self.color_space == DataColorSpace::Gray && dst_pr.color_space
            == DataColorSpace::Rgb && self.pcs == DataColorSpace::Xyz && dst_pr.pcs
            == DataColorSpace::Xyz;
        let is_cmyk_pair = self.color_space == DataColorSpace::Cmyk && dst_pr.color_space
            == DataColorSpace::Rgb;
        if is_rgb_pair {
            if layout == Layout::Gray16 || layout == Layout::GrayAlpha16 {
                return Err(CmsError::InvalidLayout);
            }
            let t = build_rgb(self, dst_pr, layout, options, linear_cap, gamma_cap, max_out)?;
            Ok(Transform16Bit::Rgb(t))
        } else if is_gray_pair {
            let t = build_gray(self, dst_pr, layout, linear_cap, gamma_cap, max_out)?;
            Ok(Transform16Bit::Gray(t))
        } else if is_cmyk_pair {
            if layout == Layout::Gray16 || layout == Layout::GrayAlpha16 {
                return Err(CmsError::InvalidLayout);
            }
            let t = build_clut4(self, layout, options, linear_cap, max_out)?;
            Ok(Transform16Bit::Clut4x3(t))
        } else {
            Err(CmsError::UnsupportedProfileConnection)
        }
    }

    /// Creates a transform between source and destination profile.
    /// Use for 16-bit data bit depth only.
    pub fn create_transform_16bit(
        &self,
        destination_profile: &ColorProfile,
        layout: Layout,
        options: TransformOptions,
    ) -> (r: Result<Transform16Bit, CmsError>)
        requires
            profile_wf(*self),
            profile_wf(*destination_profile),
        ensures
            nbit_factory_post(
                *self,
                *destination_profile,
                layout,
                options,
                65536,
                65536,
                65535,
                r,
            ),
    {
        self.create_transform_nbit(destination_profile, layout, options, 65536, 65536, 65535)
    }

    /// Creates a transform between source and destination profile.
    /// Use for 12-bit data bit depth only.
    pub fn create_transform_12bit(
        &self,
        destination_profile: &ColorProfile,
        layout: Layout,
        options: TransformOptions,
    ) -> (r: Result<Transform16Bit, CmsError>)
        requires
            profile_wf(*self),
            profile_wf(*destination_profile),
        ensures
            nbit_factory_post(
                *self,
                *destination_profile,
                layout,
                options,
                4096,
                16384,
                4095,
                r,
            ),
    {
        self.create_transform_nbit(destination_profile, layout, options, 4096, 16384, 4095)
    }

    /// Creates a transform between source and destination profile.
    /// Use for 10-bit data bit depth only.
    pub fn create_transform_10bit(
        &self,
        destination_profile: &ColorProfile,
        layout: Layout,
        options: TransformOptions,
    ) -> (r: Result<Transform16Bit, CmsError>)
        requires
            profile_wf(*self),
            profile_wf(*destination_profile),
        ensures
            nbit_factory_post(
                *self,
                *destination_profile,
                layout,
                options,
                1024,
                8192,
                1023,
                r,
            ),
    {
        self.create_transform_nbit(destination_profile, layout, options, 1024, 8192, 1023)
    }
}

/// Two option sets that differ at most in the fixed-point preference,
/// black point compensation or the CICP allowance build transforms
/// whose per-pixel results coincide: the numeric pipeline reads none of
/// those fields.  This law speaks of the RGB matrix path, the one the
/// preference was meant to select.
pub proof fn lemma_fixed_point_preference_immaterial(
    src_pr: ColorProfile,
    dst_pr: ColorProfile,
    layout: Layout,
    o1: TransformOptions,
    o2: TransformOptions,
    t1: RgbXyzTransform,
    t2: RgbXyzTransform,
    lc: int,
    gc: int,
    mo: int,
    r: int,
    g: int,
    b: int,
    row: int,
)
    requires
        o1.allow_chroma_clipping == o2.allow_chroma_clipping,
        o1.interpolation_method == o2.interpolation_method,
        rgb_built(src_pr, dst_pr, layout, o1, lc, gc, mo, t1),
        rgb_built(src_pr, dst_pr, layout, o2, lc, gc, mo, t2),
        0 <= r < lc,
        0 <= g < lc,
        0 <= b < lc,
        0 <= row < 3,
        2 <= gc,
    ensures
        t1.rgb_out_s(r, g, b, row) == t2.rgb_out_s(r, g, b, row),
{
    assert forall|k: int| 0 <= k < 9 implies t1.matrix.v[k] == t2.matrix.v[k] by {
        if forall|q: int| 0 <= q < 9 ==> src_pr.colorants.v[q] == dst_pr.colorants.v[q] {
            assert(t1.matrix.v[k] == q_identity_s(k));
            assert(t2.matrix.v[k] == q_identity_s(k));
        } else {
            assert(exists|q: int| 0 <= q < 9 && src_pr.colorants.v[q] != dst_pr.colorants.v[q]);
            assert(t1.matrix.v[k] == qmat_entry_s(src_pr.colorants, dst_pr.colorants, k));
            assert(t2.matrix.v[k] == qmat_entry_s(src_pr.colorants, dst_pr.colorants, k));
        }
    }
    let lr = t1.r_linear@[r] as int;
    let lg = t1.g_linear@[g] as int;
    let lb = t1.b_linear@[b] as int;
    assert(t2.r_linear@[r] == lr && t2.g_linear@[g] == lg && t2.b_linear@[b] == lb);
    assert(crate::stages::mat_dot_s(t1.matrix, 0, lr, lg, lb) == crate::stages::mat_dot_s(
        t2.matrix,
        0,
        lr,
        lg,
        lb,
    ));
    assert(crate::stages::mat_dot_s(t1.matrix, 1, lr, lg, lb) == crate::stages::mat_dot_s(
        t2.matrix,
        1,
        lr,
        lg,
        lb,
    ));
    assert(crate::stages::mat_dot_s(t1.matrix, 2, lr, lg, lb) == crate::stages::mat_dot_s(
        t2.matrix,
        2,
        lr,
        lg,
        lb,
    ));
    assert(crate::stages::mat_dot_s(t1.matrix, row, lr, lg, lb) == crate::stages::mat_dot_s(
        t2.matrix,
        row,
        lr,
        lg,
        lb,
    ));
    assert(crate::stages::gamut_max_s(t1.matrix, lr, lg, lb) == crate::stages::gamut_max_s(
        t2.matrix,
        lr,
        lg,
        lb,
    ));
    let v1 = crate::stages::stage_channel_s(
        t1.matrix,
        t1.use_gamut_clip,
        row,
        lr,
        lg,
        lb,
        gc,
    );
    let v2 = crate::stages::stage_channel_s(
        t2.matrix,
        t2.use_gamut_clip,
        row,
        lr,
        lg,
        lb,
        gc,
    );
    assert(v1 == v2);
    assert(0 <= v1 < gc);
    assert(t1.r_gamma@[v1] == t2.r_gamma@[v1]);
    assert(t1.g_gamma@[v1] == t2.g_gamma@[v1]);
    assert(t1.b_gamma@[v1] == t2.b_gamma@[v1]);
}


/// A curve table anchored at its ends: black stays black and full
/// scale stays full scale.
pub open spec fn anchored_table(ft: Seq<u16>) -> bool {
    ft[0] == 0 && ft[4096] == 65535
}

/// A curve table that rises immediately after zero.
pub open spec fn rising_table(ft: Seq<u16>) -> bool {
    forall|i: int| 1 <= i <= 4096 ==> #[trigger] ft[i] > 0
}

/// Pure black and pure white map to their destination equivalents
/// exactly, for a transform between profiles that share colorants and
/// whose curves are anchored: the two boundary colors sit on the
/// curves' fixed ends, and the identity conversion matrix moves
/// neither, whichever staging variant runs.
pub proof fn lemma_black_white_preserved(
    src_pr: ColorProfile,
    dst_pr: ColorProfile,
    layout: Layout,
    o: TransformOptions,
    lc: int,
    gc: int,
    mo: int,
    t: RgbXyzTransform,
    row: int,
)
    requires
        rgb_built(src_pr, dst_pr, layout, o, lc, gc, mo, t),
        t.wf(),
        0 <= row < 3,
        2 <= lc <= 65536,
        2 <= gc <= 65536,
        1 <= mo <= 65535,
        forall|k: int| 0 <= k < 9 ==> src_pr.colorants.v[k] == dst_pr.colorants.v[k],
        src_pr.red_trc matches Some(c) ==> anchored_table(curve_table_s(c)),
        src_pr.green_trc matches Some(c) ==> anchored_table(curve_table_s(c)),
        src_pr.blue_trc matches Some(c) ==> anchored_table(curve_table_s(c)),
        dst_pr.red_trc matches Some(c) ==> anchored_table(curve_table_s(c)) && rising_table(
            curve_table_s(c),
        ),
        dst_pr.green_trc matches Some(c) ==> anchored_table(curve_table_s(c)) && rising_table(
            curve_table_s(c),
        ),
        dst_pr.blue_trc matches Some(c) ==> anchored_table(curve_table_s(c)) && rising_table(
            curve_table_s(c),
        ),
    ensures
        t.rgb_out_s(0, 0, 0, row) == 0,
        t.rgb_out_s(lc - 1, lc - 1, lc - 1, row) == mo,
{
    if let Some(rc) = src_pr.red_trc {
        let ft = curve_table_s(rc);
        crate::trc::lemma_linear_zero(ft, lc, gc);
        crate::trc::lemma_linear_full_scale(ft, lc, gc);
        assert(t.r_linear@[0] == 0);
        assert(t.r_linear@[lc - 1] == gc - 1);
    }
    if let Some(c) = src_pr.green_trc {
        let ft = curve_table_s(c);
        crate::trc::lemma_linear_zero(ft, lc, gc);
        crate::trc::lemma_linear_full_scale(ft, lc, gc);
        assert(t.g_linear@[0] == 0);
        assert(t.g_linear@[lc - 1] == gc - 1);
    }
    if let Some(c) = src_pr.blue_trc {
        let ft = curve_table_s(c);
        crate::trc::lemma_linear_zero(ft, lc, gc);
        crate::trc::lemma_linear_full_scale(ft, lc, gc);
        assert(t.b_linear@[0] == 0);
        assert(t.b_linear@[lc - 1] == gc - 1);
    }
    if let Some(c) = dst_pr.red_trc {
        let ft = curve_table_s(c);
        crate::trc::lemma_gamma_zero(ft, gc, mo);
        crate::trc::lemma_gamma_full_scale(ft, gc, mo);
        assert(t.r_gamma@[0] == 0);
        assert(t.r_gamma@[gc - 1] == mo);
    }
    if let Some(c) = dst_pr.green_trc {
        let ft = curve_table_s(c);
        crate::trc::lemma_gamma_zero(ft, gc, mo);
        crate::trc::lemma_gamma_full_scale(ft, gc, mo);
        assert(t.g_gamma@[0] == 0);
        assert(t.g_gamma@[gc - 1] == mo);
    }
    if let Some(c) = dst_pr.blue_trc {
        let ft = curve_table_s(c);
        crate::trc::lemma_gamma_zero(ft, gc, mo);
        crate::trc::lemma_gamma_full_scale(ft, gc, mo);
        assert(t.b_gamma@[0] == 0);
        assert(t.b_gamma@[gc - 1] == mo);
    }
    assert(forall|k: int| 0 <= k < 9 ==> #[trigger] t.matrix.v[k] == q_identity_s(k));
    crate::stages::lemma_identity_matrix_stage(t.matrix, t.use_gamut_clip, 0, 0, 0, gc);
    crate::stages::lemma_identity_matrix_stage(
        t.matrix,
        t.use_gamut_clip,
        gc - 1,
        gc - 1,
        gc - 1,
        gc,
    );
}


/// The gray path preserves pure black and pure white exactly when its
/// curves are anchored: the boundary codes sit on the curves' fixed
/// ends and pass through both tables unmoved.
pub proof fn lemma_gray_black_white_preserved(
    src_pr: ColorProfile,
    dst_pr: ColorProfile,
    layout: Layout,
    lc: int,
    gc: int,
    mo: int,
    t: GrayToRgbTransform,
)
    requires
        gray_built(src_pr, dst_pr, layout, lc, gc, mo, t),
        t.wf(),
        2 <= lc <= 65536,
        2 <= gc <= 65536,
        1 <= mo <= 65535,
        src_pr.gray_trc matches Some(c) ==> anchored_table(curve_table_s(c)),
        dst_pr.red_trc matches Some(c) ==> anchored_table(curve_table_s(c)) && rising_table(
            curve_table_s(c),
        ),
    ensures
        t.gray_out_s(0) == 0,
        t.gray_out_s(lc - 1) == mo,
{
    if let Some(c) = src_pr.gray_trc {
        let ft = curve_table_s(c);
        crate::trc::lemma_linear_zero(ft, lc, gc);
        crate::trc::lemma_linear_full_scale(ft, lc, gc);
        assert(t.gray_linear@[0] == 0);
        assert(t.gray_linear@[lc - 1] == gc - 1);
    }
    if let Some(c) = dst_pr.red_trc {
        let ft = curve_table_s(c);
        crate::trc::lemma_gamma_zero(ft, gc, mo);
        crate::trc::lemma_gamma_full_scale(ft, gc, mo);
        assert(t.gray_gamma@[0] == 0);
        assert(t.gray_gamma@[gc - 1] == mo);
    }
}


/// The gray path is monotone: two codes in order stay in order through
/// the composed map, because both baked tables preserve the
/// monotonicity of their curves.  This is the table-level form of the
/// invariant that every tone reproduction curve is monotone
/// non-decreasing.
pub proof fn lemma_gray_monotone(
    src_pr: ColorProfile,
    dst_pr: ColorProfile,
    layout: Layout,
    lc: int,
    gc: int,
    mo: int,
    t: GrayToRgbTransform,
    a: int,
    b: int,
)
    requires
        gray_built(src_pr, dst_pr, layout, lc, gc, mo, t),
        t.wf(),
        2 <= lc <= 65536,
        2 <= gc <= 65536,
        1 <= mo <= 65535,
        0 <= a <= b < lc,
        src_pr.gray_trc matches Some(c) ==> crate::trc::sorted_table(curve_table_s(c)),
        dst_pr.red_trc matches Some(c) ==> crate::trc::sorted_table(curve_table_s(c)),
    ensures
        t.gray_out_s(a) <= t.gray_out_s(b),
{
    if let Some(c) = src_pr.gray_trc {
        crate::trc::lemma_linear_monotone(curve_table_s(c), lc, gc, a, b);
        assert(t.gray_linear@[a] <= t.gray_linear@[b]);
    }
    let la = t.gray_linear@[a] as int;
    let lb = t.gray_linear@[b] as int;
    assert(0 <= la < gc);
    assert(0 <= lb < gc);
    if let Some(c) = dst_pr.red_trc {
        crate::trc::lemma_gamma_monotone(curve_table_s(c), gc, mo, la, lb);
        assert(t.gray_gamma@[la] <= t.gray_gamma@[lb]);
    }
}

} // verus!
