//! Exact-arithmetic barycentric projection for simplices (segment, triangle,
//! tetrahedron) composed into a closest-point-on-boundary solver for an
//! octahedron, together with the error-diffusion dithering helpers and the
//! e-paper panel command protocol that consume it.

pub mod barycentric;
pub mod displayinterface;
pub mod dither;
pub mod gdep073e01;
pub mod spectra6;
