//! Contour extraction from rectangular grids of geographically located
//! scalar samples: isolines (level curves) and isobands (filled
//! between-threshold regions), assembled as polygon rings with hole
//! nesting.
//!
//! All geometry is exact: positions live on an integer lattice (see
//! [`COORD_SCALE`]), values are integers, and every stage — per-cell
//! classification, crossing interpolation, cross-cell edge tracing and
//! polygon organisation — is deterministic integer arithmetic.

use vstd::prelude::*;

pub mod catalog;
pub mod cell_shapes;
pub mod edge_tracing;
pub mod error;
pub mod grid;
pub mod interpolate;
pub mod isoline;
pub mod marching_squares;
pub mod polygon_util;
pub mod types;

verus! {

/// Scale of the coordinate lattice: one unit is 1/100000 of a degree.
pub const COORD_SCALE: i64 = 100_000;

} // verus!
