//! The mutable animation state: where the view is coming from, where it is
//! heading, how far along the transition is, and the value shown right now.

use vstd::prelude::*;

use crate::config::FollowConfig;
use crate::geometry::{Point, PointModel};
use crate::units::SCALE;

verus! {

/// Mathematical view of an `AnimationState`.
pub struct StateModel {
    pub progress: int,
    pub from_pan: PointModel,
    pub target_pan: PointModel,
    pub current_pan: PointModel,
    pub from_zoom: int,
    pub target_zoom: int,
    pub current_zoom: int,
}

impl StateModel {
    /// Range invariant: progress is a fraction in `[0, 1]`, every pan
    /// coordinate a fraction in `[0, 1]`, every zoom a fraction in `(0, 1]`.
    pub open spec fn well_formed(self) -> bool {
        &&& 0 <= self.progress <= SCALE
        &&& self.from_pan.in_unit_range()
        &&& self.target_pan.in_unit_range()
        &&& self.current_pan.in_unit_range()
        &&& 0 < self.from_zoom <= SCALE
        &&& 0 < self.target_zoom <= SCALE
        &&& 0 < self.current_zoom <= SCALE
    }

    /// The target keeps the zoomed viewport inside the frame: on each axis
    /// the target pan lies in `[0, 1 - target_zoom]`. The resolver
    /// establishes this on every retarget and never breaks it; a zoom raised
    /// by a hot configuration update may break it until the next retarget.
    pub open spec fn target_fits(self) -> bool {
        &&& 0 <= self.target_pan.x <= SCALE - self.target_zoom
        &&& 0 <= self.target_pan.y <= SCALE - self.target_zoom
    }

    /// The state a tracker starts in: pan at the origin, zoom at the
    /// configured minimum, and the transition already completed.
    pub open spec fn initial(min_zoom: int) -> StateModel {
        StateModel {
            progress: SCALE as int,
            from_pan: PointModel::zero(),
            target_pan: PointModel::zero(),
            current_pan: PointModel::zero(),
            from_zoom: min_zoom,
            target_zoom: min_zoom,
            current_zoom: min_zoom,
        }
    }

    /// A retarget: the new transition starts from the currently displayed
    /// value, heads for the given target, and begins at progress 0. The
    /// displayed value itself does not move until the next frame.
    pub open spec fn retargeted(self, target_pan: PointModel, target_zoom: int) -> StateModel {
        StateModel {
            progress: 0,
            from_pan: self.current_pan,
            target_pan: target_pan,
            current_pan: self.current_pan,
            from_zoom: self.current_zoom,
            target_zoom: target_zoom,
            current_zoom: self.current_zoom,
        }
    }
}

/// The animation state, owned by the frame driver and mutated only through
/// the resolver (which picks targets) and the interpolator (which advances
/// progress and derives the displayed value). All fields are micro-unit
/// fractions.
#[derive(Clone, Copy, Debug, PartialEq, Eq, Structural)]
pub struct AnimationState {
    pub progress: i64,
    pub from_pan: Point,
    pub target_pan: Point,
    pub current_pan: Point,
    pub from_zoom: i64,
    pub target_zoom: i64,
    pub current_zoom: i64,
}

impl View for AnimationState {
    type V = StateModel;

    open spec fn view(&self) -> StateModel {
        StateModel {
            progress: self.progress as int,
            from_pan: self.from_pan@,
            target_pan: self.target_pan@,
            current_pan: self.current_pan@,
            from_zoom: self.from_zoom as int,
            target_zoom: self.target_zoom as int,
            current_zoom: self.current_zoom as int,
        }
    }
}

impl AnimationState {
    /// Creates the startup state for a configuration: pan (0, 0), zoom at the
    /// configured minimum, progress 1 — already arrived, nothing animating.
    pub fn new(config: &FollowConfig) -> (r: AnimationState)
        requires
            config@.valid(),
        ensures
            r@ == StateModel::initial(config@.min_zoom),
            r@.well_formed(),
            r@.target_fits(),
    {
        AnimationState {
            progress: SCALE,
            from_pan: Point::zero(),
            target_pan: Point::zero(),
            current_pan: Point::zero(),
            from_zoom: config.min_zoom,
            target_zoom: config.min_zoom,
            current_zoom: config.min_zoom,
        }
    }
}

} // verus!
