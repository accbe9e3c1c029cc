//! The animation interpolator: advance the transition progress by the
//! frame's elapsed time, apply a smooth-step ease, and derive the displayed
//! pan and zoom.

use vstd::prelude::*;
use vstd::arithmetic::div_mod::{
    lemma_div_is_ordered, lemma_div_multiples_vanish, lemma_div_nonincreasing,
    lemma_div_pos_is_pos,
};

use crate::config::{ConfigModel, FollowConfig};
use crate::geometry::{Point, PointModel};
use crate::state::{AnimationState, StateModel};
use crate::units::{clamp_int, clamp_i64, SCALE};

verus! {

/// The smooth-step ease of a progress fraction: with `t` the progress
/// clamped to `[0, SCALE]`, the eased value is `t * t * (3 - 2 * t)` in real
/// terms — zero velocity at both ends of the transition.
pub open spec fn smooth_step_model(progress: int) -> int {
    let t = clamp_int(progress, 0, SCALE as int);
    t * t * (3 * SCALE - 2 * t) / (SCALE * SCALE)
}

/// Progress after one frame: raised by `elapsed / animation_time` (rounded
/// up to a whole micro-unit, so any positive elapsed time makes progress)
/// and capped at 1.
pub open spec fn progress_after(elapsed: int, animation_time: int, progress: int) -> int {
    let raised = progress + (elapsed * SCALE + animation_time - 1) / animation_time;
    if raised > SCALE {
        SCALE as int
    } else {
        raised
    }
}

/// Linear interpolation from `from` towards `to` by the eased fraction, in
/// micro-units; exact at both ends.
pub open spec fn lerp_model(from: int, to: int, eased: int) -> int {
    if to >= from {
        from + (to - from) * eased / (SCALE as int)
    } else {
        from - (from - to) * eased / (SCALE as int)
    }
}

/// What one interpolator call does to the animation state: progress moves,
/// the transition endpoints stay, and the displayed pan and zoom are derived
/// afresh from them.
pub open spec fn advance_model(elapsed: int, c: ConfigModel, st: StateModel) -> StateModel {
    let p = progress_after(elapsed, c.animation_time, st.progress);
    let eased = smooth_step_model(p);
    StateModel {
        progress: p,
        from_pan: st.from_pan,
        target_pan: st.target_pan,
        current_pan: PointModel {
            x: lerp_model(st.from_pan.x, st.target_pan.x, eased),
            y: lerp_model(st.from_pan.y, st.target_pan.y, eased),
        },
        from_zoom: st.from_zoom,
        target_zoom: st.target_zoom,
        current_zoom: lerp_model(st.from_zoom, st.target_zoom, eased),
    }
}

/// The cubic under the smooth-step ease never leaves `[0, SCALE^3]` for a
/// clamped argument: `SCALE^3 - t^2 (3 SCALE - 2 t)` factors as
/// `(SCALE - t)^2 (SCALE + 2 t)`, which is non-negative.
proof fn lemma_eased_in_range(t: int)
    requires
        0 <= t <= SCALE,
    ensures
        0 <= t * t * (3 * SCALE - 2 * t) / (SCALE * SCALE) <= SCALE,
        t == SCALE ==> t * t * (3 * SCALE - 2 * t) / (SCALE * SCALE) == SCALE,
        t == 0 ==> t * t * (3 * SCALE - 2 * t) / (SCALE * SCALE) == 0,
{
    let s = SCALE as int;
    assert(t * t * (3 * s - 2 * t) >= 0 && t * t * (3 * s - 2 * t) <= s * s * s) by (nonlinear_arith)
        requires
            0 <= t <= s,
    ;
    lemma_div_pos_is_pos(t * t * (3 * s - 2 * t), s * s);
    lemma_div_is_ordered(t * t * (3 * s - 2 * t), s * s * s, s * s);
    lemma_div_multiples_vanish(s, s * s);
    assert((s * s) * s == s * s * s) by (nonlinear_arith);
    if t == SCALE {
        assert(t * t * (3 * s - 2 * t) == s * s * s) by (nonlinear_arith)
            requires
                t == s,
        ;
    }
    if t == 0 {
        assert(t * t * (3 * s - 2 * t) == 0) by (nonlinear_arith)
            requires
                t == 0,
        ;
        vstd::arithmetic::div_mod::lemma_basic_div(0, s * s);
    }
}

/// Applies the smooth-step easing curve to a progress value, in
/// micro-units: ease-in, ease-out, exact at rest and at arrival.
pub fn smooth_step(progress: i64) -> (r: i64)
    ensures
        r == smooth_step_model(progress as int),
        0 <= r <= SCALE,
        progress >= SCALE ==> r == SCALE,
        progress <= 0 ==> r == 0,
{
    let t = clamp_i64(progress, 0, SCALE);
    proof {
        lemma_eased_in_range(t as int);
        assert(t as int * (t as int) <= (SCALE as int) * SCALE && t as int * (t as int) >= 0)
            by (nonlinear_arith)
            requires
                0 <= t as int <= SCALE as int,
        ;
        assert((t as int * (t as int)) * (3 * SCALE - 2 * (t as int)) <= ((SCALE as int) * SCALE)
            * (3 * SCALE) && (t as int * (t as int)) * (3 * SCALE - 2 * (t as int)) >= 0)
            by (nonlinear_arith)
            requires
                0 <= t as int <= SCALE as int,
        ;
    }
    t * t * (3 * SCALE - 2 * t) / (SCALE * SCALE)
}

/// The interpolated value stays between the transition's endpoints, and
/// lands exactly on them at eased 0 and eased `SCALE`.
proof fn lemma_lerp_in_range(from: int, to: int, eased: int)
    requires
        0 <= eased <= SCALE,
    ensures
        to >= from ==> from <= lerp_model(from, to, eased) <= to,
        to < from ==> to <= lerp_model(from, to, eased) <= from,
        eased == SCALE ==> lerp_model(from, to, eased) == to,
        eased == 0 ==> lerp_model(from, to, eased) == from,
{
    let s = SCALE as int;
    let diff = if to >= from {
        to - from
    } else {
        from - to
    };
    assert(0 <= diff * eased && diff * eased <= diff * s) by (nonlinear_arith)
        requires
            0 <= diff,
            0 <= eased <= s,
    ;
    lemma_div_pos_is_pos(diff * eased, s);
    lemma_div_is_ordered(diff * eased, diff * s, s);
    lemma_div_multiples_vanish(diff, s);
    assert(s * diff == diff * s) by (nonlinear_arith);
    if eased == 0 {
        assert(diff * 0 == 0) by (nonlinear_arith);
        lemma_div_pos_is_pos(0, s);
        assert((0int) / s == 0);
    }
}

/// Interpolates one micro-unit quantity between the transition endpoints.
fn lerp(from: i64, to: i64, eased: i64) -> (r: i64)
    requires
        -SCALE <= from <= SCALE,
        -SCALE <= to <= SCALE,
        0 <= eased <= SCALE,
    ensures
        r == lerp_model(from as int, to as int, eased as int),
        to >= from ==> from <= r <= to,
        to < from ==> to <= r <= from,
{
    proof {
        lemma_lerp_in_range(from as int, to as int, eased as int);
        let diff = if to as int >= from as int {
            to as int - from as int
        } else {
            from as int - to as int
        };
        assert(0 <= diff * (eased as int) <= (2 * SCALE as int) * SCALE) by (nonlinear_arith)
            requires
                0 <= diff <= 2 * SCALE as int,
                0 <= eased as int <= SCALE as int,
        ;
    }
    if to >= from {
        from + (to - from) * eased / SCALE
    } else {
        from - (from - to) * eased / SCALE
    }
}

/// Advances the animation by one frame's elapsed time (micro-seconds):
/// raises the progress, applies the smooth-step ease, derives the displayed
/// pan and zoom, and returns them for the rendering collaborator.
pub fn advance(elapsed: i64, config: &FollowConfig, state: &mut AnimationState) -> (r: (Point, i64))
    requires
        0 <= elapsed,
        config@.valid(),
        old(state)@.well_formed(),
    ensures
        final(state)@ == advance_model(elapsed as int, config@, old(state)@),
        final(state)@.well_formed(),
        r.0@ == final(state)@.current_pan,
        r.1 == final(state)@.current_zoom,
        old(state)@.progress <= final(state)@.progress <= SCALE,
        final(state)@.progress == SCALE ==> final(state)@.current_pan == final(state)@.target_pan
            && final(state)@.current_zoom == final(state)@.target_zoom,
        old(state)@.target_fits() ==> final(state)@.target_fits(),
{
    let ghost st0 = state@;
    let anim = config.animation_time;
    let p: i64;
    if elapsed >= anim {
        proof {
            lemma_progress_saturates(elapsed as int, anim as int, st0.progress);
        }
        p = SCALE;
    } else {
        let increment = (elapsed * SCALE + anim - 1) / anim;
        proof {
            lemma_div_pos_is_pos(elapsed as int * SCALE + anim - 1, anim as int);
            lemma_div_nonincreasing(elapsed as int * SCALE + anim - 1, anim as int);
        }
        let raised = state.progress + increment;
        p = if raised > SCALE {
            SCALE
        } else {
            raised
        };
    }
    state.progress = p;
    let eased = smooth_step(p);
    proof {
        lemma_lerp_in_range(st0.from_pan.x, st0.target_pan.x, eased as int);
        lemma_lerp_in_range(st0.from_pan.y, st0.target_pan.y, eased as int);
        lemma_lerp_in_range(st0.from_zoom, st0.target_zoom, eased as int);
    }
    let pan = Point {
        x: lerp(state.from_pan.x, state.target_pan.x, eased),
        y: lerp(state.from_pan.y, state.target_pan.y, eased),
    };
    let zoom = lerp(state.from_zoom, state.target_zoom, eased);
    state.current_pan = pan;
    state.current_zoom = zoom;
    (pan, zoom)
}

/// An elapsed time at or past the full transition duration drives progress
/// straight to 1, whatever it was before.
proof fn lemma_progress_saturates(elapsed: int, animation_time: int, progress: int)
    requires
        0 < animation_time,
        elapsed >= animation_time,
        0 <= progress,
    ensures
        progress_after(elapsed, animation_time, progress) == SCALE,
{
    let a = animation_time;
    let s = SCALE as int;
    assert(elapsed * s >= a * s) by (nonlinear_arith)
        requires
            elapsed >= a,
            s > 0,
    ;
    lemma_div_is_ordered(a * s, elapsed * s + a - 1, a);
    lemma_div_multiples_vanish(s, a);
}

/// Law (monotonicity and convergence): with a non-negative elapsed time,
/// progress never decreases and never exceeds 1; any strictly positive
/// elapsed time strictly raises a progress still short of 1; each call
/// gains at least the exact `elapsed / animation_time` fraction, so
/// successive calls converge, and one elapsed time at or past the full
/// duration reaches 1 outright; the transition endpoints are untouched —
/// only a resolver retarget moves them.
pub proof fn lemma_progress_monotone(elapsed: int, c: ConfigModel, st: StateModel)
    requires
        c.valid(),
        st.well_formed(),
        0 <= elapsed,
    ensures
        st.progress <= advance_model(elapsed, c, st).progress <= SCALE,
        elapsed > 0 && st.progress < SCALE ==> advance_model(elapsed, c, st).progress > st.progress,
        elapsed >= c.animation_time ==> advance_model(elapsed, c, st).progress == SCALE,
        advance_model(elapsed, c, st).progress >= vstd::math::min(
            SCALE as int,
            st.progress + elapsed * (SCALE as int) / c.animation_time,
        ),
        advance_model(elapsed, c, st).from_pan == st.from_pan,
        advance_model(elapsed, c, st).target_pan == st.target_pan,
        advance_model(elapsed, c, st).from_zoom == st.from_zoom,
        advance_model(elapsed, c, st).target_zoom == st.target_zoom,
{
    let a = c.animation_time;
    let s = SCALE as int;
    lemma_div_pos_is_pos(elapsed * s + a - 1, a);
    lemma_div_is_ordered(elapsed * s, elapsed * s + a - 1, a);
    if elapsed > 0 {
        assert(elapsed * s >= s) by (nonlinear_arith)
            requires
                elapsed >= 1,
                s > 0,
        ;
        lemma_div_is_ordered(a, elapsed * s + a - 1, a);
        lemma_div_multiples_vanish(1, a);
        assert(a * 1 == a);
    }
    if elapsed >= a {
        lemma_progress_saturates(elapsed, a, st.progress);
    }
}

/// Law (convergence is exact): once progress stands at 1, every further
/// interpolator call leaves it at 1 and emits exactly the target pan and
/// target zoom — no residual drift.
pub proof fn lemma_converged_emits_target(elapsed: int, c: ConfigModel, st: StateModel)
    requires
        c.valid(),
        st.well_formed(),
        0 <= elapsed,
        st.progress == SCALE,
    ensures
        advance_model(elapsed, c, st).progress == SCALE,
        advance_model(elapsed, c, st).current_pan == st.target_pan,
        advance_model(elapsed, c, st).current_zoom == st.target_zoom,
{
    lemma_progress_monotone(elapsed, c, st);
    lemma_arrived_exactly(elapsed, c, st);
}

/// Law: whatever progress it starts from, an interpolator call that ends
/// with progress at 1 emits exactly the target pan and zoom.
pub proof fn lemma_arrived_exactly(elapsed: int, c: ConfigModel, st: StateModel)
    requires
        c.valid(),
        st.well_formed(),
        0 <= elapsed,
        advance_model(elapsed, c, st).progress == SCALE,
    ensures
        advance_model(elapsed, c, st).current_pan == st.target_pan,
        advance_model(elapsed, c, st).current_zoom == st.target_zoom,
{
    let p = progress_after(elapsed, c.animation_time, st.progress);
    lemma_eased_in_range(clamp_int(p, 0, SCALE as int));
    let eased = smooth_step_model(p);
    lemma_lerp_in_range(st.from_pan.x, st.target_pan.x, eased);
    lemma_lerp_in_range(st.from_pan.y, st.target_pan.y, eased);
    lemma_lerp_in_range(st.from_zoom, st.target_zoom, eased);
}

/// Law: a frame with zero elapsed time changes nothing — the output of the
/// previous frame is reproduced exactly.
pub proof fn lemma_zero_elapsed_is_stable(elapsed: int, c: ConfigModel, st: StateModel)
    requires
        c.valid(),
        st.well_formed(),
        0 <= elapsed,
    ensures
        advance_model(0, c, advance_model(elapsed, c, st)) == advance_model(elapsed, c, st),
{
    let a = c.animation_time;
    vstd::arithmetic::div_mod::lemma_basic_div(a - 1, a);
    assert(0 * (SCALE as int) == 0) by (nonlinear_arith);
    lemma_progress_monotone(elapsed, c, st);
}

} // verus!
