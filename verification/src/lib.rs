//! Hierarchical 2D ray traversal over a quadtree of square cells.
//!
//! A ray is walked through a square region recursively subdivided into
//! quadrants down to a minimum cell size, producing the ordered sequence of
//! cells it passes through.  All geometry is exact rational arithmetic, so
//! every comparison and tie-break is deterministic and verified.

pub mod rat;
pub mod vec2;
pub mod ray;
pub mod voxel;
pub mod engine;
