//! Core of a Monte Carlo path tracer: the discrete logic that drives a
//! render — closest-hit selection across a scene's objects, the
//! Russian-roulette path-termination policy, the pixel-grid bookkeeping of
//! the parallel render driver, work-list shuffling, image assembly and
//! content hashing, and render-configuration validation.
//!
//! The floating-point kernels (vector algebra, the ray/primitive
//! intersection formulas, the radiance estimator's arithmetic) live with
//! the unverified application layer; they communicate with this crate
//! through plain values. Where a floating-point quantity must be carried
//! or compared here, it is represented by its IEEE 754 bit pattern: for
//! positive finite floats, the unsigned order of the bit patterns is the
//! order of the floats themselves.

pub mod config;
pub mod driver;
pub mod hashing;
pub mod image;
pub mod intersect;
pub mod policy;
pub mod vector_bits;
pub mod worklist;
