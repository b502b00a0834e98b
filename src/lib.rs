//! Audio-to-spectrum pipeline of a terminal music visualizer.
//!
//! Samples travel as the bit patterns of single-precision floats; everything that
//! indexes, frames, bins or draws is stated and proved here, while the arithmetic
//! on sample values lives with the caller.

pub mod ring;
pub mod framing;
pub mod bands;
pub mod canvas;
pub mod modes;
pub mod schedule;
pub mod colors;
pub mod capture;
