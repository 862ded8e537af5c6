//! The validated geographic grid: a rectangular array of samples with the
//! pipeline configuration, and the public contouring entry points.

use vstd::prelude::*;

use crate::error::Error;
use crate::marching_squares::{
    generate_isobands, generate_isolines, IsobandFeature, IsolineFeature,
};
use crate::types::{grid_point_valid, value_in_range, GridPoint, MarchingSquaresConfig};

verus! {

/// A geographic grid of samples in row-major order, at least 2x2, every
/// sample within the admissible ranges, with a bounded total area.
#[derive(Clone, Debug)]
pub struct GeoGrid {
    /// Grid samples in row-major order, `rows` rows of `cols` samples.
    pub points: Vec<Vec<GridPoint>>,
    /// Number of rows.
    pub rows: usize,
    /// Number of columns.
    pub cols: usize,
    /// Pipeline configuration.
    pub config: MarchingSquaresConfig,
}

/// The sample at `(i, j)` is the first out-of-range one in row-major
/// order.
pub open spec fn first_invalid_at(points: Seq<Vec<GridPoint>>, cols: int, i: int, j: int) -> bool {
    &&& 0 <= i < points.len()
    &&& 0 <= j < cols
    &&& !grid_point_valid(points[i]@[j])
    &&& forall|i2: int, j2: int|
        0 <= i2 < points.len() && 0 <= j2 < cols && (i2 < i || (i2 == i && j2 < j))
            ==> grid_point_valid(#[trigger] points[i2]@[j2])
}

/// The grid's structural invariant.
pub open spec fn geo_grid_wf(g: GeoGrid) -> bool {
    &&& g.rows == g.points@.len()
    &&& g.rows >= 2
    &&& g.cols >= 2
    &&& forall|i: int| 0 <= i < g.points@.len() ==> (#[trigger] g.points@[i])@.len() == g.cols
    &&& forall|i: int, j: int|
        0 <= i < g.points@.len() && 0 <= j < g.cols ==> grid_point_valid(
            #[trigger] g.points@[i]@[j],
        )
    &&& g.rows * g.cols <= 1_000_000_000
}

impl GeoGrid {
    /// Build a grid from samples in row-major order.
    ///
    /// Fails with `EmptyGrid` on no rows, `InvalidDimensions` on a grid
    /// smaller than 2x2, on rows of differing length or on an area past
    /// the supported maximum, and `InvalidCoordinates` on a sample
    /// outside the admissible ranges; succeeds exactly otherwise, with
    /// the default configuration.
    pub fn from_points(points: Vec<Vec<GridPoint>>) -> (r: Result<GeoGrid, Error>)
        ensures
            match r {
                Result::Ok(g) => {
                    &&& geo_grid_wf(g)
                    &&& g.points@ == points@
                    &&& g.rows == points@.len()
                    &&& g.cols == points@[0]@.len()
                    &&& g.config.use_parallel == false
                    &&& g.config.interpolation_method == crate::types::InterpolationMethod::Cosine
                    &&& g.config.smoothing_factor == (crate::types::SmoothingFactor(999))
                },
                Result::Err(e) => {
                    &&& (e == Error::EmptyGrid <==> points@.len() == 0)
                    &&& (points@.len() > 0 && (points@.len() < 2 || points@[0]@.len() < 2) ==> e
                        == Error::InvalidDimensions)
                    &&& (points@.len() >= 2 && points@[0]@.len() >= 2 && ((exists|i: int|
                        0 <= i < points@.len() && (#[trigger] points@[i])@.len()
                            != points@[0]@.len()) || points@.len() * points@[0]@.len()
                        > 1_000_000_000) ==> e == Error::InvalidDimensions)
                    &&& (e matches Error::InvalidCoordinates { lat, lon } ==> exists|i: int, j: int|
                        #[trigger] first_invalid_at(points@, points@[0]@.len() as int, i, j) && lat
                            == points@[i]@[j].lat && lon == points@[i]@[j].lon)
                },
            },
            r is Err <==> (points@.len() == 0 || points@.len() < 2 || points@[0]@.len() < 2 || (
            exists|i: int|
                0 <= i < points@.len() && (#[trigger] points@[i])@.len() != points@[0]@.len())
                || points@.len() * points@[0]@.len() > 1_000_000_000 || (exists|i: int, j: int|
                0 <= i < points@.len() && 0 <= j < (#[trigger] points@[i])@.len()
                    && !grid_point_valid(#[trigger] points@[i]@[j]))),
    {
        if points.len() == 0 {
            return Result::Err(Error::EmptyGrid);
        }
        let rows = points.len();
        let cols = points[0].len();
        if rows < 2 || cols < 2 {
            return Result::Err(Error::InvalidDimensions);
        }

        // All rows must have the same length.
        let mut i: usize = 0;
        while i < rows
            invariant
                rows == points@.len(),
                cols == points@[0]@.len(),
                rows >= 2,
                cols >= 2,
                i <= rows,
                forall|k: int| 0 <= k < i ==> (#[trigger] points@[k])@.len() == cols,
            decreases rows - i,
        {
            if points[i].len() != cols {
                return Result::Err(Error::InvalidDimensions);
            }
            i = i + 1;
        }

        // Bounded total area, so cell indexing stays in machine range.
        if rows > 1_000_000_000usize / cols {
            proof {
                assert(rows * cols > 1_000_000_000) by (nonlinear_arith)
                    requires
                        rows > 1_000_000_000int / (cols as int),
                        cols >= 2,
                ;
            }
            return Result::Err(Error::InvalidDimensions);
        }
        proof {
            assert(rows * cols <= 1_000_000_000) by (nonlinear_arith)
                requires
                    rows <= 1_000_000_000int / (cols as int),
                    cols >= 2,
            ;
        }

        // Every sample must be in range.
        let mut i: usize = 0;
        while i < rows
            invariant
                rows == points@.len(),
                cols == points@[0]@.len(),
                rows >= 2,
                cols >= 2,
                rows * cols <= 1_000_000_000,
                i <= rows,
                forall|k: int| 0 <= k < rows ==> (#[trigger] points@[k])@.len() == cols,
                forall|k: int, l: int|
                    0 <= k < i && 0 <= l < cols ==> grid_point_valid(#[trigger] points@[k]@[l]),
            decreases rows - i,
        {
            let mut j: usize = 0;
            while j < cols
                invariant
                    rows == points@.len(),
                    cols == points@[0]@.len(),
                    rows >= 2,
                    cols >= 2,
                    rows * cols <= 1_000_000_000,
                    i < rows,
                    j <= cols,
                    forall|k: int| 0 <= k < rows ==> (#[trigger] points@[k])@.len() == cols,
                    forall|k: int, l: int|
                        0 <= k < i && 0 <= l < cols ==> grid_point_valid(
                            #[trigger] points@[k]@[l],
                        ),
                    forall|l: int|
                        0 <= l < j ==> grid_point_valid(#[trigger] points@[i as int]@[l]),
                decreases cols - j,
            {
                let p = points[i][j];
                if !p.is_valid() {
                    proof {
                        assert(first_invalid_at(points@, cols as int, i as int, j as int)) by {
                            assert forall|i2: int, j2: int|
                                0 <= i2 < points@.len() && 0 <= j2 < cols as int && (i2 < i as int
                                    || (i2 == i as int && j2 < j as int)) implies grid_point_valid(
                                #[trigger] points@[i2]@[j2],
                            ) by {}
                        }
                    }
                    return Result::Err(Error::InvalidCoordinates { lat: p.lat, lon: p.lon });
                }
                j = j + 1;
            }
            i = i + 1;
        }

        Result::Ok(
            GeoGrid { points, rows, cols, config: MarchingSquaresConfig::default() },
        )
    }

    /// Build a grid from samples with a custom configuration.
    pub fn from_points_with_config(points: Vec<Vec<GridPoint>>, config: MarchingSquaresConfig) -> (r:
        Result<GeoGrid, Error>)
        ensures
            match r {
                Result::Ok(g) => {
                    &&& geo_grid_wf(g)
                    &&& g.points@ == points@
                    &&& g.config == config
                },
                Result::Err(_) => true,
            },
            r is Err <==> (points@.len() == 0 || points@.len() < 2 || points@[0]@.len() < 2 || (
            exists|i: int|
                0 <= i < points@.len() && (#[trigger] points@[i])@.len() != points@[0]@.len())
                || points@.len() * points@[0]@.len() > 1_000_000_000 || (exists|i: int, j: int|
                0 <= i < points@.len() && 0 <= j < (#[trigger] points@[i])@.len()
                    && !grid_point_valid(#[trigger] points@[i]@[j]))),
    {
        match GeoGrid::from_points(points) {
            Result::Ok(g) => Result::Ok(GeoGrid { config, ..g }),
            Result::Err(e) => Result::Err(e),
        }
    }

    /// Number of rows.
    pub fn rows(&self) -> (r: usize)
        ensures
            r == self.rows,
    {
        self.rows
    }

    /// Number of columns.
    pub fn cols(&self) -> (r: usize)
        ensures
            r == self.cols,
    {
        self.cols
    }

    /// The sample at `(row, col)`, or `None` out of bounds.
    pub fn get(&self, row: usize, col: usize) -> (r: Option<&GridPoint>)
        requires
            geo_grid_wf(*self),
        ensures
            row < self.rows && col < self.cols ==> r == Option::Some(
                &self.points@[row as int]@[col as int],
            ),
            !(row < self.rows && col < self.cols) ==> r is None,
    {
        if row < self.rows && col < self.cols {
            Option::Some(&self.points[row][col])
        } else {
            Option::None
        }
    }

    /// The sample at `(row, col)`, which must be in bounds.
    pub fn get_at(&self, row: usize, col: usize) -> (r: GridPoint)
        requires
            geo_grid_wf(*self),
            row < self.rows,
            col < self.cols,
        ensures
            r == self.points@[row as int]@[col as int],
            grid_point_valid(r),
    {
        self.points[row][col]
    }

    /// The configuration.
    pub fn config(&self) -> (r: &MarchingSquaresConfig)
        ensures
            r == &self.config,
    {
        &self.config
    }

    /// Mutable access to the configuration.
    pub fn config_mut(&mut self) -> (r: &mut MarchingSquaresConfig)
        ensures
            *r == old(self).config,
            final(self).config == *final(r),
            final(self).points == old(self).points,
            final(self).rows == old(self).rows,
            final(self).cols == old(self).cols,
    {
        &mut self.config
    }

    /// The underlying 2D sample array.
    pub fn points(&self) -> (r: &Vec<Vec<GridPoint>>)
        ensures
            r == &self.points,
    {
        &self.points
    }

    /// The bounding box of the grid as
    /// `(min_lon, min_lat, max_lon, max_lat)`: every sample lies inside
    /// it, and every side of it is attained by some sample.
    pub fn bounds(&self) -> (r: (i64, i64, i64, i64))
        requires
            geo_grid_wf(*self),
        ensures
            forall|i: int, j: int|
                0 <= i < self.rows && 0 <= j < self.cols ==> r.0 <= (
                #[trigger] self.points@[i]@[j]).lon <= r.2 && r.1 <= self.points@[i]@[j].lat
                    <= r.3,
            exists|i: int, j: int|
                0 <= i < self.rows && 0 <= j < self.cols && (#[trigger] self.points@[i]@[j]).lon
                    == r.0,
            exists|i: int, j: int|
                0 <= i < self.rows && 0 <= j < self.cols && (#[trigger] self.points@[i]@[j]).lat
                    == r.1,
            exists|i: int, j: int|
                0 <= i < self.rows && 0 <= j < self.cols && (#[trigger] self.points@[i]@[j]).lon
                    == r.2,
            exists|i: int, j: int|
                0 <= i < self.rows && 0 <= j < self.cols && (#[trigger] self.points@[i]@[j]).lat
                    == r.3,
    {
        let mut min_lon = self.points[0][0].lon;
        let mut min_lat = self.points[0][0].lat;
        let mut max_lon = self.points[0][0].lon;
        let mut max_lat = self.points[0][0].lat;
        let mut i: usize = 0;
        while i < self.rows
            invariant
                geo_grid_wf(*self),
                i <= self.rows,
                min_lon <= max_lon,
                min_lat <= max_lat,
                forall|k: int, l: int|
                    0 <= k < i && 0 <= l < self.cols ==> min_lon <= (
                    #[trigger] self.points@[k]@[l]).lon <= max_lon && min_lat
                        <= self.points@[k]@[l].lat <= max_lat,
                exists|k: int, l: int|
                    0 <= k < self.rows && 0 <= l < self.cols && (
                    #[trigger] self.points@[k]@[l]).lon == min_lon,
                exists|k: int, l: int|
                    0 <= k < self.rows && 0 <= l < self.cols && (
                    #[trigger] self.points@[k]@[l]).lat == min_lat,
                exists|k: int, l: int|
                    0 <= k < self.rows && 0 <= l < self.cols && (
                    #[trigger] self.points@[k]@[l]).lon == max_lon,
                exists|k: int, l: int|
                    0 <= k < self.rows && 0 <= l < self.cols && (
                    #[trigger] self.points@[k]@[l]).lat == max_lat,
            decreases self.rows - i,
        {
            let mut j: usize = 0;
            while j < self.cols
                invariant
                    geo_grid_wf(*self),
                    i < self.rows,
                    j <= self.cols,
                    min_lon <= max_lon,
                    min_lat <= max_lat,
                    forall|k: int, l: int|
                        0 <= k < i && 0 <= l < self.cols ==> min_lon <= (
                        #[trigger] self.points@[k]@[l]).lon <= max_lon && min_lat
                            <= self.points@[k]@[l].lat <= max_lat,
                    forall|l: int|
                        0 <= l < j ==> min_lon <= (#[trigger] self.points@[i as int]@[l]).lon
                            <= max_lon && min_lat <= self.points@[i as int]@[l].lat <= max_lat,
                    exists|k: int, l: int|
                        0 <= k < self.rows && 0 <= l < self.cols && (
                        #[trigger] self.points@[k]@[l]).lon == min_lon,
                    exists|k: int, l: int|
                        0 <= k < self.rows && 0 <= l < self.cols && (
                        #[trigger] self.points@[k]@[l]).lat == min_lat,
                    exists|k: int, l: int|
                        0 <= k < self.rows && 0 <= l < self.cols && (
                        #[trigger] self.points@[k]@[l]).lon == max_lon,
                    exists|k: int, l: int|
                        0 <= k < self.rows && 0 <= l < self.cols && (
                        #[trigger] self.points@[k]@[l]).lat == max_lat,
                decreases self.cols - j,
            {
                let p = self.points[i][j];
                if p.lon < min_lon {
                    min_lon = p.lon;
                }
                if p.lon > max_lon {
                    max_lon = p.lon;
                }
                if p.lat < min_lat {
                    min_lat = p.lat;
                }
                if p.lat > max_lat {
                    max_lat = p.lat;
                }
                j = j + 1;
            }
            i = i + 1;
        }
        (min_lon, min_lat, max_lon, max_lat)
    }

    /// The range of sample values in the grid as `(min, max)`: every
    /// sample lies in it, and both ends are attained.
    pub fn value_range(&self) -> (r: (i64, i64))
        requires
            geo_grid_wf(*self),
        ensures
            forall|i: int, j: int|
                0 <= i < self.rows && 0 <= j < self.cols ==> r.0 <= (
                #[trigger] self.points@[i]@[j]).value <= r.1,
            exists|i: int, j: int|
                0 <= i < self.rows && 0 <= j < self.cols && (#[trigger] self.points@[i]@[j]).value
                    == r.0,
            exists|i: int, j: int|
                0 <= i < self.rows && 0 <= j < self.cols && (#[trigger] self.points@[i]@[j]).value
                    == r.1,
    {
        let mut min_val = self.points[0][0].value;
        let mut max_val = self.points[0][0].value;
        let mut i: usize = 0;
        while i < self.rows
            invariant
                geo_grid_wf(*self),
                i <= self.rows,
                min_val <= max_val,
                forall|k: int, l: int|
                    0 <= k < i && 0 <= l < self.cols ==> min_val <= (
                    #[trigger] self.points@[k]@[l]).value <= max_val,
                exists|k: int, l: int|
                    0 <= k < self.rows && 0 <= l < self.cols && (
                    #[trigger] self.points@[k]@[l]).value == min_val,
                exists|k: int, l: int|
                    0 <= k < self.rows && 0 <= l < self.cols && (
                    #[trigger] self.points@[k]@[l]).value == max_val,
            decreases self.rows - i,
        {
            let mut j: usize = 0;
            while j < self.cols
                invariant
                    geo_grid_wf(*self),
                    i < self.rows,
                    j <= self.cols,
                    min_val <= max_val,
                    forall|k: int, l: int|
                        0 <= k < i && 0 <= l < self.cols ==> min_val <= (
                        #[trigger] self.points@[k]@[l]).value <= max_val,
                    forall|l: int|
                        0 <= l < j ==> min_val <= (#[trigger] self.points@[i as int]@[l]).value
                            <= max_val,
                    exists|k: int, l: int|
                        0 <= k < self.rows && 0 <= l < self.cols && (
                        #[trigger] self.points@[k]@[l]).value == min_val,
                    exists|k: int, l: int|
                        0 <= k < self.rows && 0 <= l < self.cols && (
                        #[trigger] self.points@[k]@[l]).value == max_val,
                decreases self.cols - j,
            {
                let p = self.points[i][j];
                if p.value < min_val {
                    min_val = p.value;
                }
                if p.value > max_val {
                    max_val = p.value;
                }
                j = j + 1;
            }
            i = i + 1;
        }
        (min_val, max_val)
    }

    /// Generate the isobands of the ascending threshold list: one
    /// non-empty feature per adjacent `(lower, upper)` pair, in order,
    /// each holding exactly its band's extracted rings as consistently
    /// nested polygons.  Crossing positions come from the planar blend
    /// alone; the configured interpolation flavour does not change them
    /// (the spherical flavour belongs to the unverified shell).
    ///
    /// Fails with `InvalidThresholds` exactly when fewer than two
    /// thresholds are given, they are not strictly ascending, or one is
    /// out of the admissible value range.
    pub fn isobands(&self, thresholds: &Vec<i64>) -> (r: Result<Vec<IsobandFeature>, Error>)
        requires
            geo_grid_wf(*self),
        ensures
            r is Err <==> (thresholds@.len() < 2 || (exists|i: int|
                0 < i < thresholds@.len() && #[trigger] thresholds@[i - 1] >= thresholds@[i]) || (
            exists|i: int|
                0 <= i < thresholds@.len() && !value_in_range(#[trigger] thresholds@[i] as int))),
            r matches Err(e) ==> e == Error::InvalidThresholds,
            r matches Ok(v) ==> v@.len() <= thresholds@.len() - 1 && crate::marching_squares::bands_ok(
                v@,
                thresholds@,
            ) && ({
                let chosen = crate::marching_squares::spec_nonempty_bands(
                    *self,
                    thresholds@,
                    thresholds@.len() as int,
                );
                &&& v@.len() == chosen.len()
                &&& forall|k: int|
                    0 <= k < v@.len() ==> (#[trigger] v@[k]).lower == chosen[k].0 && v@[k].upper
                        == chosen[k].1 && crate::polygon_util::result_rings(
                        v@[k].polygons@,
                    ).to_multiset() == crate::marching_squares::spec_band_rings(
                        *self,
                        chosen[k].0 as int,
                        chosen[k].1 as int,
                    ).to_multiset()
            }),
    {
        if thresholds.len() < 2 {
            return Result::Err(Error::InvalidThresholds);
        }
        let mut i: usize = 1;
        while i < thresholds.len()
            invariant
                i >= 1,
                i <= thresholds@.len(),
                forall|k: int| 0 < k < i ==> #[trigger] thresholds@[k - 1] < thresholds@[k],
            decreases thresholds@.len() - i,
        {
            if thresholds[i] <= thresholds[i - 1] {
                return Result::Err(Error::InvalidThresholds);
            }
            i = i + 1;
        }
        let mut i: usize = 0;
        while i < thresholds.len()
            invariant
                i <= thresholds@.len(),
                forall|k: int| 0 <= k < i ==> value_in_range(#[trigger] thresholds@[k] as int),
            decreases thresholds@.len() - i,
        {
            let t = thresholds[i];
            if t < -crate::types::VALUE_LIMIT || t > crate::types::VALUE_LIMIT {
                return Result::Err(Error::InvalidThresholds);
            }
            i = i + 1;
        }
        generate_isobands(self, thresholds)
    }

    /// Generate the isoline features for the given levels: one non-empty
    /// feature per level whose cells produce segments, in order, each
    /// carrying exactly the row-major concatenation of its cells'
    /// segments.  Crossing positions come from the planar blend alone;
    /// the configured interpolation flavour does not change them (the
    /// spherical flavour belongs to the unverified shell).
    ///
    /// Fails with `InvalidThresholds` exactly when no level is given or
    /// one is out of the admissible value range.
    pub fn isolines(&self, levels: &Vec<i64>) -> (r: Result<Vec<IsolineFeature>, Error>)
        requires
            geo_grid_wf(*self),
        ensures
            r is Err <==> (levels@.len() == 0 || (exists|i: int|
                0 <= i < levels@.len() && !value_in_range(#[trigger] levels@[i] as int))),
            r matches Err(e) ==> e == Error::InvalidThresholds,
            r matches Ok(v) ==> v@.len() <= levels@.len() && crate::marching_squares::isolines_ok(
                v@,
                levels@,
            ) && ({
                let chosen = crate::marching_squares::spec_nonempty_levels(
                    *self,
                    levels@,
                    levels@.len() as int,
                );
                &&& v@.len() == chosen.len()
                &&& forall|k: int|
                    0 <= k < v@.len() ==> (#[trigger] v@[k]).level == chosen[k]
                        && crate::polygon_util::ring_views(v@[k].lines@)
                        == crate::marching_squares::spec_isoline_lines(
                        *self,
                        chosen[k] as int,
                        crate::marching_squares::clamped_smoothing(*self),
                    )
            }),
    {
        if levels.len() == 0 {
            return Result::Err(Error::InvalidThresholds);
        }
        let mut i: usize = 0;
        while i < levels.len()
            invariant
                i <= levels@.len(),
                forall|k: int| 0 <= k < i ==> value_in_range(#[trigger] levels@[k] as int),
            decreases levels@.len() - i,
        {
            let l = levels[i];
            if l < -crate::types::VALUE_LIMIT || l > crate::types::VALUE_LIMIT {
                return Result::Err(Error::InvalidThresholds);
            }
            i = i + 1;
        }
        generate_isolines(self, levels)
    }
}

} // verus!
