//! Tunable follow parameters and the configuration error.

use vstd::prelude::*;

use crate::units::{MAX_ANIMATION_TIME, SCALE};

verus! {

/// The one error this core surfaces: a configuration update that would leave
/// the tracker unable to run (zero-sized region, non-positive animation time,
/// an impossible zoom bound). Sensor failures and degenerate samples are
/// recovered locally and never reported.
#[derive(Clone, Copy, Debug, PartialEq, Eq, Structural)]
pub enum FollowError {
    InvalidConfiguration,
}

/// Mathematical view of a `FollowConfig`.
pub struct ConfigModel {
    pub padding: int,
    pub min_zoom: int,
    pub animation_time: int,
}

impl ConfigModel {
    /// Parameters the resolver and interpolator can run on: padding is a
    /// fraction in `[0, 1]`, the minimum zoom a fraction in `(0, 1]`, and the
    /// transition duration positive and bounded.
    pub open spec fn valid(self) -> bool {
        &&& 0 <= self.padding <= SCALE
        &&& 0 < self.min_zoom <= SCALE
        &&& 0 < self.animation_time <= MAX_ANIMATION_TIME
    }
}

/// Tunable parameters, all in micro-units: `padding` is the extra margin
/// zoomed out around a window, `min_zoom` the closest the view may zoom in
/// (the reciprocal of the user's zoom setting), `animation_time` the duration
/// of a full transition in micro-seconds.
#[derive(Clone, Copy, Debug, PartialEq, Eq, Structural)]
pub struct FollowConfig {
    pub padding: i64,
    pub min_zoom: i64,
    pub animation_time: i64,
}

impl View for FollowConfig {
    type V = ConfigModel;

    open spec fn view(&self) -> ConfigModel {
        ConfigModel {
            padding: self.padding as int,
            min_zoom: self.min_zoom as int,
            animation_time: self.animation_time as int,
        }
    }
}

/// The minimum zoom derived from a user zoom setting: its reciprocal, in
/// micro-units. Defined for `user_zoom >= SCALE` (a setting of at least 1.0),
/// where the result lies in `(0, SCALE]`.
pub open spec fn min_zoom_of_user_zoom(user_zoom: int) -> int {
    SCALE * SCALE / user_zoom
}

impl FollowConfig {
    /// Builds a configuration from the user-facing settings: `user_zoom` is
    /// the zoom factor (at least 1.0, at most SCALE so its reciprocal does not
    /// round to zero), `padding` a fraction in `[0, 1]`, `animation_time` in
    /// micro-seconds. Any value outside its range is a configuration error.
    pub fn new(user_zoom: i64, padding: i64, animation_time: i64) -> (r: Result<FollowConfig, FollowError>)
        ensures
            r is Ok <==> {
                &&& SCALE <= user_zoom <= SCALE * SCALE
                &&& 0 <= padding <= SCALE
                &&& 0 < animation_time <= MAX_ANIMATION_TIME
            },
            r matches Ok(c) ==> c@ == (ConfigModel {
                padding: padding as int,
                min_zoom: min_zoom_of_user_zoom(user_zoom as int),
                animation_time: animation_time as int,
            }),
            r matches Ok(c) ==> c@.valid(),
    {
        if user_zoom < SCALE || user_zoom > SCALE * SCALE
            || padding < 0 || padding > SCALE
            || animation_time <= 0 || animation_time > MAX_ANIMATION_TIME {
            Err(FollowError::InvalidConfiguration)
        } else {
            let min_zoom = (SCALE * SCALE) / user_zoom;
            proof {
                lemma_min_zoom_in_range(user_zoom as int);
            }
            Ok(FollowConfig { padding, min_zoom, animation_time })
        }
    }
}

/// The reciprocal of a user zoom setting in `[1, SCALE]` (micro-units
/// `[SCALE, SCALE * SCALE]`) is a zoom fraction in `(0, SCALE]`.
pub proof fn lemma_min_zoom_in_range(user_zoom: int)
    requires
        SCALE <= user_zoom <= SCALE * SCALE,
    ensures
        0 < min_zoom_of_user_zoom(user_zoom) <= SCALE,
{
    assert(0 < SCALE * SCALE / user_zoom <= SCALE) by (nonlinear_arith)
        requires
            SCALE <= user_zoom <= SCALE * SCALE,
    ;
}

} // verus!
