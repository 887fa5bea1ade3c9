//! Decision core of a stochastic sphere path tracer.
//!
//! The renderer around this library does its floating-point work (vector
//! algebra, quadratic roots, Fresnel terms, random sampling) and hands the
//! outcomes to this crate as plain values; every policy decision that shapes
//! the image is made here, with a proved contract: which intersection root a
//! sphere reports, which object wins the aggregate nearest-hit scan, whether
//! a material scatters or absorbs a path, when the bounded light-path
//! recursion stops, and which buffer slot each pixel owns.

pub mod hit;
pub mod material;
pub mod path;
pub mod raster;
