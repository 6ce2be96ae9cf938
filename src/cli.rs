//! The options of one conversion run and the luminance metric they select.
use vstd::prelude::*;

verus! {

/// The metric that turns a pixel's red, green and blue channels into one
/// brightness value.
#[derive(Clone, Copy, Debug, PartialEq, Eq, PartialOrd, Ord, Structural)]
pub enum Mode {
    /// The mean of the three channels.
    Average,
    /// The midpoint of the smallest and the largest channel.
    Lightness,
    /// A weighted sum that follows the eye's sensitivity to each channel.
    Luminosity,
}

/// The settings of one conversion run.
pub struct Options {
    /// The image file to convert.
    pub filename: String,
    /// Scaling percent of the computed height.
    pub scale: Option<u32>,
    /// Width of the output in characters.
    pub width: Option<u32>,
    /// Height of the output in characters.
    pub height: Option<u32>,
    /// Metric that turns a pixel into a brightness value.
    pub mode: Option<Mode>,
    /// Turn the image to shades of grey before converting it.
    pub grayscale: bool,
    /// Keep the image's own dimensions.
    pub original: bool,
    /// Copy the result to the clipboard.
    pub copy: bool,
    /// Do not print the result.
    pub silent: bool,
    /// File to save the result to.
    pub save_to_file: Option<String>,
}

impl Options {
    /// The options for converting `filename` with every setting at its default.
    pub fn new(filename: String) -> (res: Options)
        ensures
            res.filename@ == filename@,
            res.scale is None,
            res.width is None,
            res.height is None,
            res.mode is None,
            !res.grayscale,
            !res.original,
            !res.copy,
            !res.silent,
            res.save_to_file is None,
    {
        Options {
            filename,
            scale: None,
            width: None,
            height: None,
            mode: None,
            grayscale: false,
            original: false,
            copy: false,
            silent: false,
            save_to_file: None,
        }
    }
}

} // verus!
