//! Turns a raster image into ASCII art: every pixel becomes a brightness
//! value under a chosen metric, and every brightness value a glyph of an
//! ordered ramp.
pub mod cli;
pub mod error;
pub mod geometry;
pub mod glyph;
pub mod luminance;
pub mod raster;
