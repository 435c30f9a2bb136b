//! Verified core of an offline path tracer.
//!
//! The renderer's floating-point geometry is driven by a small integer
//! kernel: uniform integer sampling, the permutation tables behind the
//! gradient-noise hash, pixel addressing into decoded image data, and the
//! byte-exact encoders for the PPM and BMP output formats. Those pieces
//! live here, each with a contract; the surrounding floating-point code
//! consumes them.

pub mod exporter;
pub mod perlin;
pub mod rtw_image;
pub mod utils;
