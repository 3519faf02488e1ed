//! Exact geometry for Sierpinski-tetrahedron point clouds.
//!
//! The generator subdivides a regular tetrahedron into four self-similar
//! children — one toward each corner, at half the scale — down to a
//! requested depth, and emits the triangulated surface of every leaf
//! tetrahedron as a flat run of points, three per face.
//!
//! The construction needs only four operations on coordinates: adding the
//! scale, adding the scale times `sqrt(2)` or `sqrt(3)`, and halving.  All
//! of those stay inside the set of numbers
//! `(u + r2*sqrt(2) + r3*sqrt(3)) / 2^e` with integer `u`, `r2`, `r3`, so
//! the crate computes on such triples exactly, with no rounding anywhere.
//! The denominator exponent `e` is positional rather than stored: a caller
//! picks a unit for its inputs, and each function documents how many times
//! the denominator doubles between its inputs and its outputs.  Keeping
//! the exponent out of the data makes every arithmetic step an integer
//! addition or doubling, which is what the proofs in [`laws`] build on.
//!
//! [`fractal::generate_sierpinski`] is the checked entry point;
//! [`fractal::sierpinski`] and the single-tetrahedron functions in
//! [`tetrahedron`] sit underneath it.

pub mod fractal;
pub mod gl_thin;
pub mod laws;
pub mod point;
pub mod tetrahedron;

pub use fractal::{generate_sierpinski, sierpinski, FractalError, MAX_LEVELS};
pub use gl_thin::GlType;
pub use point::{Coord, Point3};
pub use tetrahedron::{tetrahedron, tetrahedron_corners, Tetrahedron};
