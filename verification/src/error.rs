//! Error type for grid construction and threshold validation.

use vstd::prelude::*;

verus! {

/// Errors reported while building a grid or validating thresholds.
#[derive(Clone, Copy, Debug, PartialEq, Eq, Structural)]
pub enum Error {
    /// The grid is smaller than 2x2, its rows differ in length, or its
    /// area exceeds the supported maximum.
    InvalidDimensions,
    /// The threshold or level list is empty, too short, or not strictly
    /// ascending, or a value lies outside the admissible range.
    InvalidThresholds,
    /// A sample's position or value lies outside the admissible range;
    /// carries the offending lattice position.
    InvalidCoordinates {
        /// Lattice latitude of the offending sample.
        lat: i64,
        /// Lattice longitude of the offending sample.
        lon: i64,
    },
    /// The grid holds no samples at all.
    EmptyGrid,
    /// A boundary-crossing computation was handed impossible inputs.
    InterpolationError,
    /// A geometric operation was handed impossible inputs.
    GeometryError,
}

impl Error {
    /// The dimension error.
    pub fn invalid_dimensions() -> (r: Error)
        ensures
            r == Error::InvalidDimensions,
    {
        Error::InvalidDimensions
    }

    /// The threshold error.
    pub fn invalid_thresholds() -> (r: Error)
        ensures
            r == Error::InvalidThresholds,
    {
        Error::InvalidThresholds
    }

    /// The coordinate error, carrying the offending position.
    pub fn invalid_coordinates(lat: i64, lon: i64) -> (r: Error)
        ensures
            r == (Error::InvalidCoordinates { lat, lon }),
    {
        Error::InvalidCoordinates { lat, lon }
    }

    /// The interpolation error.
    pub fn interpolation_error() -> (r: Error)
        ensures
            r == Error::InterpolationError,
    {
        Error::InterpolationError
    }

    /// The geometry error.
    pub fn geometry_error() -> (r: Error)
        ensures
            r == Error::GeometryError,
    {
        Error::GeometryError
    }
}

} // verus!
