//! Barycentric projection onto simplices with exact integer arithmetic.
//!
//! Points carry integer coordinates and every projection result is an exact
//! rational, represented as integer numerators over a positive common
//! denominator.  This keeps the affine-map identities (weights summing to
//! one, round trips) provable as exact statements instead of float
//! approximations.

pub mod geom;
pub mod line;
pub mod triangle;
pub mod tetrahedron;
pub mod octahedron;
