//! Verified core of a recursive Monte-Carlo path tracer.
//!
//! The floating-point sampling arithmetic lives with the renderer binary;
//! this crate holds the parts of the pipeline whose behaviour is exact:
//! nearest-hit selection, the row-band partition of the image, pixel
//! quantization, the depth-bounded path-control step, and the plain-text
//! image encoding.

pub mod bands;
pub mod config;
pub mod interval;
pub mod nearest;
pub mod pixel;
pub mod ppm;
pub mod tracer;
