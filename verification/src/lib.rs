//! Turns a chosen background color of an RGBA image fully transparent.
//!
//! The library holds the whole decision logic: the per-channel comparison
//! modes, the per-pixel matching rule, the filter over an image, and the
//! validation of the color and operator arguments. Reading an image file,
//! decoding, encoding and writing the result are left to the caller.

pub mod args;
pub mod compare;
pub mod filter;
