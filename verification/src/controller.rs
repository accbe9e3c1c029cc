//! The entry points the host's callbacks drive: hot configuration updates,
//! validated and applied atomically, and the per-frame tick that feeds a
//! sensor reading (or its absence) to the resolver and then advances the
//! animation.

use vstd::prelude::*;

use crate::animator::{advance, advance_model};
use crate::config::{min_zoom_of_user_zoom, lemma_min_zoom_in_range, ConfigModel, FollowConfig, FollowError};
use crate::geometry::{Point, RegionModel, SampleModel, ScreenRegion, WindowSample};
use crate::resolver::{resolve, resolve_model};
use crate::state::{AnimationState, StateModel};
use crate::units::{MAX_ANIMATION_TIME, MAX_COORDINATE, MAX_DIMENSION, SCALE};

verus! {

/// Mathematical view of a `ConfigUpdate`.
pub struct UpdateModel {
    pub zoom: Option<int>,
    pub screen_x: Option<int>,
    pub screen_y: Option<int>,
    pub screen_width: Option<int>,
    pub screen_height: Option<int>,
    pub padding: Option<int>,
    pub animation_time: Option<int>,
}

/// One hot-reconfiguration request: each field that is present replaces the
/// corresponding setting, the others keep their prior value. `zoom` is the
/// user-facing zoom factor in micro-units; its reciprocal becomes the
/// minimum zoom.
#[derive(Clone, Copy, Debug, PartialEq, Eq, Structural)]
pub struct ConfigUpdate {
    pub zoom: Option<i64>,
    pub screen_x: Option<i64>,
    pub screen_y: Option<i64>,
    pub screen_width: Option<i64>,
    pub screen_height: Option<i64>,
    pub padding: Option<i64>,
    pub animation_time: Option<i64>,
}

/// The updated value where one was supplied, the prior value otherwise.
pub open spec fn chosen(update: Option<int>, prior: int) -> int {
    match update {
        Some(v) => v,
        None => prior,
    }
}

impl View for ConfigUpdate {
    type V = UpdateModel;

    open spec fn view(&self) -> UpdateModel {
        UpdateModel {
            zoom: match self.zoom {
                Some(v) => Some(v as int),
                None => None,
            },
            screen_x: match self.screen_x {
                Some(v) => Some(v as int),
                None => None,
            },
            screen_y: match self.screen_y {
                Some(v) => Some(v as int),
                None => None,
            },
            screen_width: match self.screen_width {
                Some(v) => Some(v as int),
                None => None,
            },
            screen_height: match self.screen_height {
                Some(v) => Some(v as int),
                None => None,
            },
            padding: match self.padding {
                Some(v) => Some(v as int),
                None => None,
            },
            animation_time: match self.animation_time {
                Some(v) => Some(v as int),
                None => None,
            },
        }
    }
}

impl ConfigUpdate {
    /// A request that changes nothing.
    pub fn none() -> (r: ConfigUpdate)
        ensures
            r@ == (UpdateModel {
                zoom: None,
                screen_x: None,
                screen_y: None,
                screen_width: None,
                screen_height: None,
                padding: None,
                animation_time: None,
            }),
    {
        ConfigUpdate {
            zoom: None,
            screen_x: None,
            screen_y: None,
            screen_width: None,
            screen_height: None,
            padding: None,
            animation_time: None,
        }
    }
}

/// The screen region after an update: supplied fields replace prior ones.
pub open spec fn merged_region(u: UpdateModel, r: RegionModel) -> RegionModel {
    RegionModel {
        x: chosen(u.screen_x, r.x),
        y: chosen(u.screen_y, r.y),
        width: chosen(u.screen_width, r.width),
        height: chosen(u.screen_height, r.height),
    }
}

/// The follow configuration after an update: supplied fields replace prior
/// ones, and a supplied zoom factor sets the minimum zoom to its reciprocal.
pub open spec fn merged_config(u: UpdateModel, c: ConfigModel) -> ConfigModel {
    ConfigModel {
        padding: chosen(u.padding, c.padding),
        min_zoom: match u.zoom {
            Some(z) => min_zoom_of_user_zoom(z),
            None => c.min_zoom,
        },
        animation_time: chosen(u.animation_time, c.animation_time),
    }
}

/// An update is acceptable when every merged setting is valid: the region
/// keeps a positive, bounded extent; padding stays a fraction in `[0, 1]`;
/// the animation time stays positive and bounded; and a supplied zoom
/// factor lies in `[1, SCALE]` so its reciprocal is a zoom in `(0, 1]`.
pub open spec fn update_acceptable(u: UpdateModel, r: RegionModel, c: ConfigModel) -> bool {
    &&& merged_region(u, r).valid()
    &&& match u.zoom {
        Some(z) => SCALE <= z <= (SCALE as int) * (SCALE as int),
        None => true,
    }
    &&& match u.padding {
        Some(p) => 0 <= p <= SCALE,
        None => true,
    }
    &&& match u.animation_time {
        Some(a) => 0 < a <= MAX_ANIMATION_TIME,
        None => true,
    }
}

/// The animation state after a zoom change: the transition restarts from
/// the currently displayed value (no visible jump) towards the new minimum
/// zoom; the target pan is kept for the next sample to refine.
pub open spec fn rezoomed(st: StateModel, new_min_zoom: int) -> StateModel {
    StateModel {
        progress: 0,
        from_pan: st.current_pan,
        target_pan: st.target_pan,
        current_pan: st.current_pan,
        from_zoom: st.current_zoom,
        target_zoom: new_min_zoom,
        current_zoom: st.current_zoom,
    }
}

/// What an accepted update leaves in the animation state.
pub open spec fn updated_state(u: UpdateModel, st: StateModel) -> StateModel {
    match u.zoom {
        Some(z) => rezoomed(st, min_zoom_of_user_zoom(z)),
        None => st,
    }
}

/// Applies a hot configuration update. The merged settings are validated
/// first: if any is out of range the whole update is rejected as an
/// `InvalidConfiguration` and the prior configuration stays in effect.
/// On success, a supplied zoom factor immediately re-targets the zoom to
/// the new minimum, snapshotting the transition start from the currently
/// animated value rather than jumping.
pub fn apply_update(update: &ConfigUpdate, region: &mut ScreenRegion, config: &mut FollowConfig, state: &mut AnimationState) -> (r: Result<(), FollowError>)
    requires
        old(region)@.valid(),
        old(config)@.valid(),
        old(state)@.well_formed(),
    ensures
        r is Ok <==> update_acceptable(update@, old(region)@, old(config)@),
        r is Ok ==> final(region)@ == merged_region(update@, old(region)@),
        r is Ok ==> final(config)@ == merged_config(update@, old(config)@),
        r is Ok ==> final(state)@ == updated_state(update@, old(state)@),
        r is Err ==> r == Result::<(), FollowError>::Err(FollowError::InvalidConfiguration),
        r is Err ==> final(region)@ == old(region)@ && final(config)@ == old(config)@
            && final(state)@ == old(state)@,
        final(region)@.valid(),
        final(config)@.valid(),
        final(state)@.well_formed(),
{
    let new_x = match update.screen_x {
        Some(v) => v,
        None => region.x,
    };
    let new_y = match update.screen_y {
        Some(v) => v,
        None => region.y,
    };
    let new_width = match update.screen_width {
        Some(v) => v,
        None => region.width,
    };
    let new_height = match update.screen_height {
        Some(v) => v,
        None => region.height,
    };
    let new_padding = match update.padding {
        Some(v) => v,
        None => config.padding,
    };
    let new_animation_time = match update.animation_time {
        Some(v) => v,
        None => config.animation_time,
    };
    if new_width <= 0 || new_width > MAX_DIMENSION || new_height <= 0 || new_height
        > MAX_DIMENSION || new_x < -MAX_COORDINATE || new_x > MAX_COORDINATE || new_y
        < -MAX_COORDINATE || new_y > MAX_COORDINATE {
        return Err(FollowError::InvalidConfiguration);
    }
    if new_padding < 0 || new_padding > SCALE {
        return Err(FollowError::InvalidConfiguration);
    }
    if new_animation_time <= 0 || new_animation_time > MAX_ANIMATION_TIME {
        return Err(FollowError::InvalidConfiguration);
    }
    let new_min_zoom: i64;
    match update.zoom {
        Some(z) => {
            if z < SCALE || z > SCALE * SCALE {
                return Err(FollowError::InvalidConfiguration);
            }
            new_min_zoom = (SCALE * SCALE) / z;
            proof {
                lemma_min_zoom_in_range(z as int);
            }
            state.progress = 0;
            state.from_pan = state.current_pan;
            state.from_zoom = state.current_zoom;
            state.target_zoom = new_min_zoom;
        },
        None => {
            new_min_zoom = config.min_zoom;
        },
    }
    region.x = new_x;
    region.y = new_y;
    region.width = new_width;
    region.height = new_height;
    config.padding = new_padding;
    config.min_zoom = new_min_zoom;
    config.animation_time = new_animation_time;
    Ok(())
}

/// What one frame does to the animation state: the sample (when the sensor
/// produced one) may re-target, then the animation advances by the frame's
/// elapsed time.
pub open spec fn tick_model(sample: Option<SampleModel>, elapsed: int, r: RegionModel, c: ConfigModel, st: StateModel) -> StateModel {
    let resolved = match sample {
        Some(s) => resolve_model(s, r, c, st),
        None => st,
    };
    advance_model(elapsed, c, resolved)
}

/// One frame of the tracker: feeds the sensor reading to the resolver — a
/// failed window query (`None`) retains the previous target untouched —
/// then advances the animation and returns the displayed pan and zoom.
pub fn tick(sample: Option<&WindowSample>, elapsed: i64, region: &ScreenRegion, config: &FollowConfig, state: &mut AnimationState) -> (r: (Point, i64))
    requires
        0 <= elapsed,
        region@.valid(),
        config@.valid(),
        old(state)@.well_formed(),
    ensures
        final(state)@ == tick_model(
            match sample {
                Some(s) => Some(s@),
                None => None,
            },
            elapsed as int,
            region@,
            config@,
            old(state)@,
        ),
        final(state)@.well_formed(),
        r.0@ == final(state)@.current_pan,
        r.1 == final(state)@.current_zoom,
        old(state)@.target_fits() ==> final(state)@.target_fits(),
{
    match sample {
        Some(s) => resolve(s, region, config, state),
        None => (),
    }
    advance(elapsed, config, state)
}

} // verus!
