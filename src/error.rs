//! Configuration errors, each detected before any pixel is processed.
use vstd::prelude::*;

verus! {

/// A conversion setting that cannot be honoured.
#[derive(Clone, Copy, Debug, PartialEq, Eq, Structural)]
pub enum ConfigError {
    /// The glyph ramp holds no glyph.
    EmptyRamp,
    /// The source image has no pixel, so it has no aspect ratio.
    EmptyImage,
    /// The target width is zero.
    ZeroWidth,
    /// The target height is zero.
    ZeroHeight,
    /// The target does not fit in 32 bits, or its pixels not in memory.
    TooLarge,
}

impl ConfigError {
    /// A sentence that names the constraint that failed.
    pub fn message(&self) -> (s: &'static str) {
        match self {
            ConfigError::EmptyRamp => "the glyph ramp is empty",
            ConfigError::EmptyImage => "the image has no pixels",
            ConfigError::ZeroWidth => "the target width is zero",
            ConfigError::ZeroHeight => "the target height is zero",
            ConfigError::TooLarge => "the target dimensions are too large",
        }
    }
}

} // verus!
