//! The target resolver: given the latest window sample, decide whether the
//! view should re-target, and if so pick a new target pan and zoom and reset
//! the animation.

use vstd::prelude::*;
use vstd::arithmetic::div_mod::{
    lemma_div_is_ordered, lemma_div_multiples_vanish, lemma_div_nonincreasing,
    lemma_div_pos_is_pos,
};
use vstd::arithmetic::mul::lemma_mul_inequality;

use crate::config::{ConfigModel, FollowConfig};
use crate::geometry::{Point, PointModel, RegionModel, SampleModel, ScreenRegion, WindowSample};
use crate::state::{AnimationState, StateModel};
use crate::units::{abs_diff_int, clamp_int, clamp_i64, HYSTERESIS, SCALE};

verus! {

/// The sample's x origin with a negative value clamped to 0: a window
/// straddling the screen's left edge is treated as starting at the origin.
pub open spec fn clamped_x(s: SampleModel) -> int {
    if s.x < 0 {
        0
    } else {
        s.x
    }
}

/// The sample's y origin with a negative value clamped to 0.
pub open spec fn clamped_y(s: SampleModel) -> int {
    if s.y < 0 {
        0
    } else {
        s.y
    }
}

/// The zoom level needed to fit the window plus padding fully in view: the
/// larger of the window's width and height as a fraction of the region, plus
/// the padding, raised to the configured minimum and capped at full frame.
pub open spec fn window_zoom_model(s: SampleModel, r: RegionModel, c: ConfigModel) -> int {
    let ratio_w = s.width * SCALE / r.width;
    let ratio_h = s.height * SCALE / r.height;
    let ratio = if ratio_w >= ratio_h {
        ratio_w
    } else {
        ratio_h
    };
    clamp_int(ratio + c.padding, c.min_zoom, SCALE as int)
}

/// The (clamped) sample origin lies off the tracked region: the focused
/// window is considered off the tracked screen.
pub open spec fn out_of_bounds(s: SampleModel, r: RegionModel) -> bool {
    ||| clamped_x(s) > r.x + r.width
    ||| clamped_x(s) < r.x
    ||| clamped_y(s) < r.y
    ||| clamped_y(s) > r.y + r.height
}

/// The window's horizontal center as a micro-unit fraction of the region.
pub open spec fn x_fraction(s: SampleModel, r: RegionModel) -> int {
    (clamped_x(s) + s.width / 2 - r.x) * SCALE / r.width
}

/// The window's vertical center as a micro-unit fraction of the region.
pub open spec fn y_fraction(s: SampleModel, r: RegionModel) -> int {
    (clamped_y(s) + s.height / 2 - r.y) * SCALE / r.height
}

/// One axis of the candidate pan: the window center shifted left by half the
/// zoomed viewport, clamped so the viewport never extends past the frame.
pub open spec fn pan_axis(fraction: int, zoom: int) -> int {
    clamp_int(fraction - zoom / 2, 0, SCALE - zoom)
}

/// The candidate target pan for an in-bounds sample at the given zoom.
pub open spec fn candidate_pan(s: SampleModel, r: RegionModel, zoom: int) -> PointModel {
    PointModel { x: pan_axis(x_fraction(s, r), zoom), y: pan_axis(y_fraction(s, r), zoom) }
}

/// The candidate differs from the current target by at most the hysteresis
/// threshold on both pan axes and on zoom: such sub-threshold jitter is
/// ignored entirely, no retarget happens.
pub open spec fn within_hysteresis(cand: PointModel, zoom: int, st: StateModel) -> bool {
    &&& abs_diff_int(cand.x, st.target_pan.x) <= HYSTERESIS
    &&& abs_diff_int(cand.y, st.target_pan.y) <= HYSTERESIS
    &&& abs_diff_int(zoom, st.target_zoom) <= HYSTERESIS
}

/// The current target is not yet the neutral full-frame view, so an
/// off-screen window warrants a retarget to neutral.
pub open spec fn needs_neutral(st: StateModel) -> bool {
    st.target_zoom != SCALE || (st.target_pan.x != 0 && st.target_pan.y != 0)
}

/// What one resolver call does to the animation state.
pub open spec fn resolve_model(s: SampleModel, r: RegionModel, c: ConfigModel, st: StateModel) -> StateModel {
    if s.degenerate() {
        st
    } else if out_of_bounds(s, r) {
        if needs_neutral(st) {
            st.retargeted(PointModel::zero(), SCALE as int)
        } else {
            st
        }
    } else {
        let zoom = window_zoom_model(s, r, c);
        let cand = candidate_pan(s, r, zoom);
        if within_hysteresis(cand, zoom, st) {
            st
        } else {
            st.retargeted(cand, zoom)
        }
    }
}

/// A window at least as wide (or tall) as the region needs a zoom of at
/// least full frame on that axis.
proof fn lemma_ratio_at_least_scale(extent: int, dimension: int)
    requires
        0 < dimension,
        dimension <= extent,
    ensures
        extent * SCALE / dimension >= SCALE,
{
    lemma_mul_inequality(dimension, extent, SCALE as int);
    lemma_div_is_ordered(dimension * SCALE, extent * SCALE, dimension);
    lemma_div_multiples_vanish(SCALE as int, dimension);
    assert(dimension * (SCALE as int) / dimension == SCALE);
}

/// When the window covers the region on either axis, the required zoom
/// saturates at full frame.
proof fn lemma_window_zoom_saturates(s: SampleModel, r: RegionModel, c: ConfigModel)
    requires
        r.valid(),
        c.valid(),
        !s.degenerate(),
        s.width >= r.width || s.height >= r.height,
    ensures
        window_zoom_model(s, r, c) == SCALE,
{
    if s.width >= r.width {
        lemma_ratio_at_least_scale(s.width, r.width);
        lemma_div_pos_is_pos(s.height * SCALE, r.height);
    } else {
        lemma_ratio_at_least_scale(s.height, r.height);
        lemma_div_pos_is_pos(s.width * SCALE, r.width);
    }
}

/// Conversely, a zoom below full frame means the window is strictly smaller
/// than the region on both axes.
proof fn lemma_window_smaller_when_zoom_below(s: SampleModel, r: RegionModel, c: ConfigModel)
    requires
        r.valid(),
        c.valid(),
        !s.degenerate(),
        window_zoom_model(s, r, c) < SCALE,
    ensures
        s.width < r.width,
        s.height < r.height,
{
    if s.width >= r.width || s.height >= r.height {
        lemma_window_zoom_saturates(s, r, c);
    }
}

/// The zoom required to fit a usable window always lies between the
/// configured minimum zoom and full frame.
pub proof fn lemma_window_zoom_in_range(s: SampleModel, r: RegionModel, c: ConfigModel)
    requires
        r.valid(),
        c.valid(),
        !s.degenerate(),
    ensures
        c.min_zoom <= window_zoom_model(s, r, c) <= SCALE,
{
}

/// Computes the zoom level required to fit the sampled window (plus padding)
/// fully in view, never zooming in past the configured minimum, never
/// zooming out past full frame.
pub fn window_zoom(sample: &WindowSample, region: &ScreenRegion, config: &FollowConfig) -> (z: i64)
    requires
        region@.valid(),
        config@.valid(),
        !sample@.degenerate(),
    ensures
        z == window_zoom_model(sample@, region@, config@),
        config@.min_zoom <= z <= SCALE,
{
    if sample.width >= region.width || sample.height >= region.height {
        proof {
            lemma_window_zoom_saturates(sample@, region@, config@);
        }
        SCALE
    } else {
        let ratio_w = sample.width * SCALE / region.width;
        let ratio_h = sample.height * SCALE / region.height;
        proof {
            lemma_div_pos_is_pos(sample@.width * SCALE, region@.width);
            lemma_div_pos_is_pos(sample@.height * SCALE, region@.height);
            lemma_div_nonincreasing(sample@.width * SCALE, region@.width);
            lemma_div_nonincreasing(sample@.height * SCALE, region@.height);
        }
        let ratio = if ratio_w >= ratio_h {
            ratio_w
        } else {
            ratio_h
        };
        clamp_i64(ratio + config.padding, config.min_zoom, SCALE)
    }
}

/// Decides whether the view should re-target on this sample, and if so picks
/// the new target pan and zoom and resets the animation progress, leaving
/// the displayed value untouched. A degenerate sample is skipped; an
/// off-screen window retargets to the neutral full-frame view unless the
/// target is already neutral; an in-bounds window retargets only when the
/// candidate clears the hysteresis threshold.
pub fn resolve(sample: &WindowSample, region: &ScreenRegion, config: &FollowConfig, state: &mut AnimationState)
    requires
        region@.valid(),
        config@.valid(),
        old(state)@.well_formed(),
    ensures
        final(state)@ == resolve_model(sample@, region@, config@, old(state)@),
        final(state)@.well_formed(),
        old(state)@.target_fits() ==> final(state)@.target_fits(),
{
    proof {
        lemma_resolve_target_fits(sample@, region@, config@, old(state)@);
    }
    if sample.width <= 0 || sample.height <= 0 {
        return ;
    }
    let win_x = if sample.x < 0 {
        0
    } else {
        sample.x
    };
    let win_y = if sample.y < 0 {
        0
    } else {
        sample.y
    };
    if win_x > region.x + region.width || win_x < region.x || win_y < region.y || win_y
        > region.y + region.height {
        if state.target_zoom != SCALE || (state.target_pan.x != 0 && state.target_pan.y != 0) {
            state.progress = 0;
            state.from_pan = state.current_pan;
            state.from_zoom = state.current_zoom;
            state.target_pan = Point { x: 0, y: 0 };
            state.target_zoom = SCALE;
        }
    } else {
        let zoom = window_zoom(sample, region, config);
        let cand: Point;
        if zoom == SCALE {
            cand = Point { x: 0, y: 0 };
        } else {
            proof {
                lemma_window_smaller_when_zoom_below(sample@, region@, config@);
            }
            let x_center = win_x + sample.width / 2 - region.x;
            let y_center = win_y + sample.height / 2 - region.y;
            let x_frac = x_center * SCALE / region.width;
            let y_frac = y_center * SCALE / region.height;
            proof {
                lemma_div_pos_is_pos(x_center as int * SCALE, region@.width);
                lemma_div_pos_is_pos(y_center as int * SCALE, region@.height);
                lemma_div_nonincreasing(x_center as int * SCALE, region@.width);
                lemma_div_nonincreasing(y_center as int * SCALE, region@.height);
            }
            cand = Point {
                x: clamp_i64(x_frac - zoom / 2, 0, SCALE - zoom),
                y: clamp_i64(y_frac - zoom / 2, 0, SCALE - zoom),
            };
        }
        let dx = abs_diff(cand.x, state.target_pan.x);
        let dy = abs_diff(cand.y, state.target_pan.y);
        let dz = abs_diff(zoom, state.target_zoom);
        if dx > HYSTERESIS || dy > HYSTERESIS || dz > HYSTERESIS {
            state.progress = 0;
            state.from_pan = state.current_pan;
            state.from_zoom = state.current_zoom;
            state.target_pan = cand;
            state.target_zoom = zoom;
        }
    }
}

/// Absolute difference of two micro-unit values.
fn abs_diff(a: i64, b: i64) -> (r: i64)
    requires
        -SCALE <= a <= SCALE,
        -SCALE <= b <= SCALE,
    ensures
        r == abs_diff_int(a as int, b as int),
{
    if a >= b {
        a - b
    } else {
        b - a
    }
}

/// Law: a resolver call keeps the target pan on each axis within
/// `[0, SCALE - target_zoom]` whenever it held before, and establishes it
/// outright on every in-bounds retarget of a usable sample.
pub proof fn lemma_resolve_target_fits(s: SampleModel, r: RegionModel, c: ConfigModel, st: StateModel)
    requires
        r.valid(),
        c.valid(),
        st.well_formed(),
    ensures
        st.target_fits() ==> resolve_model(s, r, c, st).target_fits(),
        !s.degenerate() && !out_of_bounds(s, r) && !within_hysteresis(
            candidate_pan(s, r, window_zoom_model(s, r, c)),
            window_zoom_model(s, r, c),
            st,
        ) ==> resolve_model(s, r, c, st).target_fits(),
{
    if !s.degenerate() {
        lemma_window_zoom_in_range(s, r, c);
    }
}

/// Law: resolving the same sample twice under an unchanged region and
/// configuration changes nothing the second time — no second retarget, no
/// progress reset, from and target left as the first call set them.
pub proof fn lemma_resolve_idempotent(s: SampleModel, r: RegionModel, c: ConfigModel, st: StateModel)
    requires
        r.valid(),
        c.valid(),
        st.well_formed(),
    ensures
        resolve_model(s, r, c, resolve_model(s, r, c, st)) == resolve_model(s, r, c, st),
{
}

/// Law (hysteresis): an in-bounds candidate within the threshold of the
/// current target on every pan axis and on zoom triggers no retarget at
/// all — the state, its progress included, is left untouched.
pub proof fn lemma_hysteresis_no_retarget(s: SampleModel, r: RegionModel, c: ConfigModel, st: StateModel)
    requires
        r.valid(),
        c.valid(),
        st.well_formed(),
        !s.degenerate(),
        !out_of_bounds(s, r),
        within_hysteresis(candidate_pan(s, r, window_zoom_model(s, r, c)), window_zoom_model(s, r, c), st),
    ensures
        resolve_model(s, r, c, st) == st,
{
}

} // verus!
