//! Wave-field synthesis for an animated ocean surface.
//!
//! Three wave methods are offered: a sum of sines, layered fractional
//! Brownian motion, and a JONSWAP spectrum. Each keeps its own state and
//! shading model and flattens them into the fixed record that a shader reads.
//!
//! Every real number is held as a [`scalar::Scalar`], the binary32 encoding of
//! the value. The library orders, classifies, clamps and lays out such
//! encodings; arithmetic on the numbers themselves is the caller's.
pub mod common;
pub mod fbm_water;
pub mod fft_water;
pub mod scalar;
pub mod sum_water;
pub mod value;
