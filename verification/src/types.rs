//! Core data types: lattice points, cell sides, tracer moves, edges, grid
//! samples and configuration.
//!
//! All geometry lives on an integer lattice: a coordinate is an `i64` count
//! of lattice steps, one step being `1 / COORD_SCALE` of a degree.  Working
//! on the lattice makes every computation exact, so two cells that share a
//! side compute bit-identical crossing points and the tracer can match
//! junctions by plain equality.

use vstd::prelude::*;

verus! {

/// Largest admissible coordinate magnitude on the lattice (180 degrees).
pub const COORD_LIMIT: i64 = 18_000_000;

/// Largest admissible longitude magnitude on the lattice (180 degrees).
pub const LON_LIMIT: i64 = 18_000_000;

/// Largest admissible latitude magnitude on the lattice (90 degrees).
pub const LAT_LIMIT: i64 = 9_000_000;

/// Largest admissible sample-value magnitude.  Keeps every intermediate of
/// the interpolation formula inside `i128`.
pub const VALUE_LIMIT: i64 = 100_000_000;

/// A coordinate fits on the admissible lattice.
pub open spec fn coord_in_range(c: int) -> bool {
    -COORD_LIMIT <= c <= COORD_LIMIT
}

/// A sample value is small enough for exact interpolation arithmetic.
pub open spec fn value_in_range(v: int) -> bool {
    -VALUE_LIMIT <= v <= VALUE_LIMIT
}

/// A geographic position on the lattice.
///
/// Equality is plain field equality; the tracer treats two points as the
/// same cross-cell junction exactly when they are equal.
#[derive(Clone, Copy, Debug, PartialEq, Eq, Hash, Structural)]
pub struct Point {
    /// Lattice x coordinate (longitude direction).
    pub x: i64,
    /// Lattice y coordinate (latitude direction).
    pub y: i64,
}

/// Both coordinates of a point are on the admissible lattice.
pub open spec fn point_in_range(p: Point) -> bool {
    coord_in_range(p.x as int) && coord_in_range(p.y as int)
}

impl Point {
    /// Create a point from its lattice coordinates.
    pub fn new(x: i64, y: i64) -> (r: Point)
        ensures
            r == (Point { x, y }),
    {
        Point { x, y }
    }

    /// Create a point from lattice longitude and latitude.
    pub fn from_lon_lat(lon: i64, lat: i64) -> (r: Point)
        ensures
            r == (Point { x: lon, y: lat }),
    {
        Point { x: lon, y: lat }
    }

    /// Lattice longitude of the point.
    pub fn lon(&self) -> (r: i64)
        ensures
            r == self.x,
    {
        self.x
    }

    /// Lattice latitude of the point.
    pub fn lat(&self) -> (r: i64)
        ensures
            r == self.y,
    {
        self.y
    }
}

/// A side of a grid cell.
#[derive(Clone, Copy, Debug, PartialEq, Eq, Hash, Structural)]
pub enum Side {
    Top,
    Right,
    Bottom,
    Left,
}

/// The neighbouring cell an edge's endpoint continues into; `Stay` means the
/// continuation edge lies in the same cell.
#[derive(Clone, Copy, Debug, PartialEq, Eq, Hash, Structural)]
pub enum Move {
    Right,
    Down,
    Left,
    Up,
    Stay,
}

impl Move {
    /// Apply this move to a cell position, returning the new `(row, col)`.
    pub fn apply(&self, row: usize, col: usize) -> (r: Option<(usize, usize)>)
        requires
            row < usize::MAX,
            col < usize::MAX,
        ensures
            r == match *self {
                Move::Right => Some(((row, (col + 1) as usize))),
                Move::Down => Some((((row + 1) as usize, col))),
                Move::Left => if col == 0 { Option::<(usize, usize)>::None } else {
                    Some(((row, (col - 1) as usize)))
                },
                Move::Up => if row == 0 { Option::<(usize, usize)>::None } else {
                    Some(((((row - 1) as usize), col)))
                },
                Move::Stay => Option::<(usize, usize)>::None,
            },
    {
        match self {
            Move::Right => Some((row, col + 1)),
            Move::Down => Some((row + 1, col)),
            Move::Left => if col == 0 { None } else { Some((row, col - 1)) },
            Move::Up => if row == 0 { None } else { Some((row - 1, col)) },
            Move::Stay => None,
        }
    }
}

/// A directed edge produced by cell classification and consumed exactly once
/// by the edge tracer.
#[derive(Clone, Copy, Debug, PartialEq, Eq, Structural)]
pub struct Edge {
    /// Starting point of the edge.
    pub start: Point,
    /// Ending point of the edge.
    pub end: Point,
    /// Direction to move to the next cell after this edge.
    pub move_dir: Move,
}

impl Edge {
    /// Create a new edge.
    pub fn new(start: Point, end: Point, move_dir: Move) -> (r: Edge)
        ensures
            r == (Edge { start, end, move_dir }),
    {
        Edge { start, end, move_dir }
    }
}

/// A grid sample: a lattice position and the sampled value there.
#[derive(Clone, Copy, Debug, PartialEq, Eq, Structural)]
pub struct GridPoint {
    /// Lattice longitude.
    pub lon: i64,
    /// Lattice latitude.
    pub lat: i64,
    /// Sample value at this position.
    pub value: i64,
}

/// A grid sample lies in the admissible geographic and value ranges.
pub open spec fn grid_point_valid(p: GridPoint) -> bool {
    &&& -LAT_LIMIT <= p.lat <= LAT_LIMIT
    &&& -LON_LIMIT <= p.lon <= LON_LIMIT
    &&& value_in_range(p.value as int)
}

impl GridPoint {
    /// Create a new grid sample.
    pub fn new(lon: i64, lat: i64, value: i64) -> (r: GridPoint)
        ensures
            r == (GridPoint { lon, lat, value }),
    {
        GridPoint { lon, lat, value }
    }

    /// Whether the sample's position and value are within bounds.
    pub fn is_valid(&self) -> (r: bool)
        ensures
            r == grid_point_valid(*self),
    {
        -LAT_LIMIT <= self.lat && self.lat <= LAT_LIMIT
            && -LON_LIMIT <= self.lon && self.lon <= LON_LIMIT
            && -VALUE_LIMIT <= self.value && self.value <= VALUE_LIMIT
    }
}

/// Interpolation flavour requested for boundary crossings.
///
/// The verified pipeline positions crossings with the planar cosine-shaped
/// blend; the spherical flavour is honoured by the unverified layer around
/// the library, which owns all floating-point trigonometry.
#[derive(Clone, Copy, Debug, PartialEq, Eq, Hash, Structural)]
#[non_exhaustive]
pub enum InterpolationMethod {
    /// Cosine-shaped blend with centre bias (default).
    Cosine,
    /// Spherical (great-circle) positioning.
    GreatCircle,
}

impl Default for InterpolationMethod {
    /// The default flavour is the cosine-shaped blend.
    fn default() -> (r: Self)
        ensures
            r == InterpolationMethod::Cosine,
    {
        InterpolationMethod::Cosine
    }
}

/// Granularity of the smoothing factor: it is stored in thousandths.
pub const SMOOTHING_SCALE: i64 = 1000;

/// Smoothing factor for interpolation, in thousandths of one.
///
/// `SmoothingFactor(999)` stands for a factor of 0.999, the default.
#[derive(Clone, Copy, Debug, PartialEq, Eq, Structural)]
pub struct SmoothingFactor(pub i64);

impl SmoothingFactor {
    /// Create a smoothing factor, clamping to the valid range
    /// `[0, SMOOTHING_SCALE]`.
    pub fn new(thousandths: i64) -> (r: SmoothingFactor)
        ensures
            r.0 == if thousandths < 0 { 0int } else if thousandths > SMOOTHING_SCALE {
                SMOOTHING_SCALE as int
            } else {
                thousandths as int
            },
    {
        if thousandths < 0 {
            SmoothingFactor(0)
        } else if thousandths > SMOOTHING_SCALE {
            SmoothingFactor(SMOOTHING_SCALE)
        } else {
            SmoothingFactor(thousandths)
        }
    }

    /// The raw factor in thousandths.
    pub fn get(self) -> (r: i64)
        ensures
            r == self.0,
    {
        self.0
    }
}

/// A smoothing factor holds a value between zero and one.
pub open spec fn smoothing_in_range(s: SmoothingFactor) -> bool {
    0 <= s.0 <= SMOOTHING_SCALE
}

impl Default for SmoothingFactor {
    /// The default factor is 0.999.
    fn default() -> (r: Self)
        ensures
            r == (SmoothingFactor(999)),
    {
        SmoothingFactor(999)
    }
}

/// Configuration of the contour pipeline.
#[derive(Clone, Copy, Debug)]
pub struct MarchingSquaresConfig {
    /// Whether independent bands may be dispatched concurrently; the
    /// surrounding layer owns the dispatch, the verified pipeline is
    /// sequential either way.
    pub use_parallel: bool,
    /// Interpolation flavour requested for boundary crossings.
    pub interpolation_method: InterpolationMethod,
    /// Smoothing factor for interpolation.
    pub smoothing_factor: SmoothingFactor,
}

impl Default for MarchingSquaresConfig {
    /// Sequential dispatch, cosine blend, smoothing 0.999.
    fn default() -> (r: Self)
        ensures
            r.use_parallel == false,
            r.interpolation_method == InterpolationMethod::Cosine,
            r.smoothing_factor == (SmoothingFactor(999)),
    {
        MarchingSquaresConfig {
            use_parallel: false,
            interpolation_method: InterpolationMethod::Cosine,
            smoothing_factor: SmoothingFactor(999),
        }
    }
}

impl MarchingSquaresConfig {
    /// Start building a configuration from the defaults.
    pub fn builder() -> (r: MarchingSquaresConfigBuilder)
        ensures
            r == (MarchingSquaresConfigBuilder {
                use_parallel: Option::<bool>::None,
                interpolation_method: Option::<InterpolationMethod>::None,
                smoothing_factor: Option::<SmoothingFactor>::None,
            }),
    {
        MarchingSquaresConfigBuilder::new()
    }

    /// A configuration that requests spherical crossing positioning.
    pub fn with_great_circle() -> (r: Self)
        ensures
            r.use_parallel == false,
            r.interpolation_method == InterpolationMethod::GreatCircle,
            r.smoothing_factor == (SmoothingFactor(999)),
    {
        MarchingSquaresConfig {
            use_parallel: false,
            interpolation_method: InterpolationMethod::GreatCircle,
            smoothing_factor: SmoothingFactor(999),
        }
    }

    /// A configuration that requests the default cosine blend.
    pub fn with_cosine() -> (r: Self)
        ensures
            r.use_parallel == false,
            r.interpolation_method == InterpolationMethod::Cosine,
            r.smoothing_factor == (SmoothingFactor(999)),
    {
        MarchingSquaresConfig::default()
    }
}

/// Builder for `MarchingSquaresConfig`.
#[derive(Clone, Copy, Debug)]
pub struct MarchingSquaresConfigBuilder {
    /// Requested concurrency setting, if any.
    pub use_parallel: Option<bool>,
    /// Requested interpolation flavour, if any.
    pub interpolation_method: Option<InterpolationMethod>,
    /// Requested smoothing factor, if any.
    pub smoothing_factor: Option<SmoothingFactor>,
}

impl Default for MarchingSquaresConfigBuilder {
    /// A builder with every setting still unset.
    fn default() -> (r: Self)
        ensures
            r == (MarchingSquaresConfigBuilder {
                use_parallel: Option::<bool>::None,
                interpolation_method: Option::<InterpolationMethod>::None,
                smoothing_factor: Option::<SmoothingFactor>::None,
            }),
    {
        MarchingSquaresConfigBuilder {
            use_parallel: None,
            interpolation_method: None,
            smoothing_factor: None,
        }
    }
}

impl MarchingSquaresConfigBuilder {
    /// A builder with every setting still unset.
    pub fn new() -> (r: Self)
        ensures
            r == (MarchingSquaresConfigBuilder {
                use_parallel: Option::<bool>::None,
                interpolation_method: Option::<InterpolationMethod>::None,
                smoothing_factor: Option::<SmoothingFactor>::None,
            }),
    {
        MarchingSquaresConfigBuilder {
            use_parallel: None,
            interpolation_method: None,
            smoothing_factor: None,
        }
    }

    /// Choose whether the surrounding layer may dispatch bands concurrently.
    pub fn with_parallel(self, enabled: bool) -> (r: Self)
        ensures
            r.use_parallel == Some(enabled),
            r.interpolation_method == self.interpolation_method,
            r.smoothing_factor == self.smoothing_factor,
    {
        MarchingSquaresConfigBuilder { use_parallel: Some(enabled), ..self }
    }

    /// Choose the interpolation flavour.
    pub fn with_interpolation(self, method: InterpolationMethod) -> (r: Self)
        ensures
            r.interpolation_method == Some(method),
            r.use_parallel == self.use_parallel,
            r.smoothing_factor == self.smoothing_factor,
    {
        MarchingSquaresConfigBuilder { interpolation_method: Some(method), ..self }
    }

    /// Choose the smoothing factor.
    pub fn with_smoothing(self, factor: SmoothingFactor) -> (r: Self)
        ensures
            r.smoothing_factor == Some(factor),
            r.use_parallel == self.use_parallel,
            r.interpolation_method == self.interpolation_method,
    {
        MarchingSquaresConfigBuilder { smoothing_factor: Some(factor), ..self }
    }

    /// Finish the configuration, filling unset settings with the defaults.
    pub fn build(self) -> (r: MarchingSquaresConfig)
        ensures
            r.use_parallel == self.use_parallel.unwrap_or(false),
            r.interpolation_method == self.interpolation_method.unwrap_or(
                InterpolationMethod::Cosine,
            ),
            r.smoothing_factor == self.smoothing_factor.unwrap_or(SmoothingFactor(999)),
    {
        MarchingSquaresConfig {
            use_parallel: match self.use_parallel {
                Some(b) => b,
                None => false,
            },
            interpolation_method: match self.interpolation_method {
                Some(m) => m,
                None => InterpolationMethod::Cosine,
            },
            smoothing_factor: match self.smoothing_factor {
                Some(s) => s,
                None => SmoothingFactor(999),
            },
        }
    }
}

} // verus!
