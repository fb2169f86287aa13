//! Core bookkeeping of a stochastic ray tracer.
//!
//! The floating-point shading pipeline (vectors, intersections, materials)
//! lives outside this crate; what is verified here is the integer side of the
//! renderer: the output raster and its "rendered yet?" state, the checker
//! texture's parity rule, the decoded-bitmap lookup, and the Perlin noise
//! permutation tables together with their lattice indexing.

pub mod camera;
pub mod perlin;
pub mod texture;
