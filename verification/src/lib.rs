//! A small color management engine.
//!
//! Given a source and a destination ICC-style color profile, the library
//! compiles a transform: an executable pipeline that converts pixel buffers
//! from the source profile's device coordinates to the destination
//! profile's device coordinates.  All per-pixel arithmetic is carried out
//! in fixed point, so every numeric stage is verified exactly.

pub mod clut;
pub mod err;
pub mod gray2rgb;
pub mod interpolator;
pub mod mathq;
pub mod matrix;
pub mod profile;
pub mod trc;
pub mod rgbxyz;
pub mod stages;
pub mod transform;

pub use err::CmsError;
pub use profile::{ClutTable, ColorProfile, DataColorSpace, RenderingIntent};
pub use trc::{CurveParams, ToneCurve};
pub use transform::{
    InterpolationMethod, Layout, Transform16Bit, Transform8Bit, TransformExecutor,
    TransformOptions,
};
