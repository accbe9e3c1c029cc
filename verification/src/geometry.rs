//! Screen-space data: the tracked screen rectangle, one observation of the
//! focused window, and a normalized pan point.

use vstd::prelude::*;

use crate::config::FollowError;
use crate::units::{MAX_COORDINATE, MAX_DIMENSION, SCALE};

verus! {

/// Mathematical view of a `Point`.
pub struct PointModel {
    pub x: int,
    pub y: int,
}

impl PointModel {
    /// The origin, the neutral pan.
    pub open spec fn zero() -> PointModel {
        PointModel { x: 0, y: 0 }
    }

    /// Both coordinates are normalized viewport fractions.
    pub open spec fn in_unit_range(self) -> bool {
        &&& 0 <= self.x <= SCALE
        &&& 0 <= self.y <= SCALE
    }
}

/// A normalized pan offset: each coordinate lies in `[0, SCALE]` micro-units,
/// standing for the fraction of the frame in `[0, 1]`.
#[derive(Clone, Copy, Debug, PartialEq, Eq, Structural)]
pub struct Point {
    pub x: i64,
    pub y: i64,
}

impl View for Point {
    type V = PointModel;

    open spec fn view(&self) -> PointModel {
        PointModel { x: self.x as int, y: self.y as int }
    }
}

impl Point {
    /// The origin, the neutral pan.
    pub fn zero() -> (r: Point)
        ensures
            r@ == PointModel::zero(),
    {
        Point { x: 0, y: 0 }
    }
}

/// Mathematical view of a `ScreenRegion`.
pub struct RegionModel {
    pub x: int,
    pub y: int,
    pub width: int,
    pub height: int,
}

impl RegionModel {
    /// A usable region: positive extent, and all values small enough that the
    /// resolver's fixed-point arithmetic stays exact.
    pub open spec fn valid(self) -> bool {
        &&& 0 < self.width <= MAX_DIMENSION
        &&& 0 < self.height <= MAX_DIMENSION
        &&& -MAX_COORDINATE <= self.x <= MAX_COORDINATE
        &&& -MAX_COORDINATE <= self.y <= MAX_COORDINATE
    }
}

/// The tracked display area, in screen units: origin offset and positive
/// extent.
#[derive(Clone, Copy, Debug, PartialEq, Eq, Structural)]
pub struct ScreenRegion {
    pub x: i64,
    pub y: i64,
    pub width: i64,
    pub height: i64,
}

impl View for ScreenRegion {
    type V = RegionModel;

    open spec fn view(&self) -> RegionModel {
        RegionModel {
            x: self.x as int,
            y: self.y as int,
            width: self.width as int,
            height: self.height as int,
        }
    }
}

impl ScreenRegion {
    /// Builds a region, rejecting a degenerate or oversized rectangle: a
    /// width or height outside `(0, MAX_DIMENSION]`, or an origin offset
    /// beyond `MAX_COORDINATE` in magnitude, is a configuration error.
    pub fn new(x: i64, y: i64, width: i64, height: i64) -> (r: Result<ScreenRegion, FollowError>)
        ensures
            r is Ok <==> (RegionModel {
                x: x as int,
                y: y as int,
                width: width as int,
                height: height as int,
            }).valid(),
            r matches Ok(region) ==> region@ == (RegionModel {
                x: x as int,
                y: y as int,
                width: width as int,
                height: height as int,
            }),
    {
        if width <= 0 || width > MAX_DIMENSION || height <= 0 || height > MAX_DIMENSION
            || x < -MAX_COORDINATE || x > MAX_COORDINATE || y < -MAX_COORDINATE || y > MAX_COORDINATE {
            Err(FollowError::InvalidConfiguration)
        } else {
            Ok(ScreenRegion { x, y, width, height })
        }
    }
}

/// Mathematical view of a `WindowSample`.
pub struct SampleModel {
    pub x: int,
    pub y: int,
    pub width: int,
    pub height: int,
}

impl SampleModel {
    /// A sample with no usable extent is a transient sensor glitch: the
    /// resolver skips it and keeps the previous target.
    pub open spec fn degenerate(self) -> bool {
        self.width <= 0 || self.height <= 0
    }
}

/// One observation of the focused window, in screen units. Coordinates may be
/// negative (a window straddling the screen's top-left corner); the resolver
/// clamps them to 0 before use.
#[derive(Clone, Copy, Debug, PartialEq, Eq, Structural)]
pub struct WindowSample {
    pub x: i64,
    pub y: i64,
    pub width: i64,
    pub height: i64,
}

impl View for WindowSample {
    type V = SampleModel;

    open spec fn view(&self) -> SampleModel {
        SampleModel {
            x: self.x as int,
            y: self.y as int,
            width: self.width as int,
            height: self.height as int,
        }
    }
}

} // verus!
