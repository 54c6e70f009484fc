//! Error taxonomy of the engine.
//!
//! Every failure is surfaced to the caller from the function where it
//! arises; nothing is retried or logged.

use vstd::prelude::*;

verus! {

/// The error kinds the engine can report.
#[derive(Clone, Copy, Debug, PartialEq, Eq, Structural)]
pub enum CmsError {
    /// The requested layout is incompatible with the chosen bit depth or
    /// transform direction.
    InvalidLayout,
    /// No pipeline supports the pair of color spaces and connection
    /// spaces of the two profiles.
    UnsupportedProfileConnection,
    /// A tone reproduction curve cannot be sampled or inverted.
    InvalidTrc,
    /// The profile data itself is unusable, e.g. a singular colorant
    /// matrix.
    InvalidIcc,
    /// Source and destination buffers imply different pixel counts.
    LaneSizeMismatch,
    /// A buffer length is not a multiple of its channel count.
    LaneMultipleOfChannels,
}

impl CmsError {
    /// A short human-readable name for the error kind.
    pub fn describe(&self) -> String {
        match self {
            CmsError::InvalidLayout => "invalid layout".to_string(),
            CmsError::UnsupportedProfileConnection => {
                "unsupported profile connection".to_string()
            },
            CmsError::InvalidTrc => "invalid tone reproduction curve".to_string(),
            CmsError::InvalidIcc => "invalid profile data".to_string(),
            CmsError::LaneSizeMismatch => "lane size mismatch".to_string(),
            CmsError::LaneMultipleOfChannels => {
                "lane length is not a multiple of its channel count".to_string()
            },
        }
    }
}

} // verus!
