//! Interpolator behavior: progress advance, easing, exact convergence.

use window_follow::{AnimationState, FollowConfig, Point, ScreenRegion, WindowSample, SCALE};
use window_follow::animator::advance;
use window_follow::controller::tick;
use window_follow::resolver::resolve;
use window_follow::smooth_step;

fn test_config() -> FollowConfig {
    FollowConfig::new(5_000_000, 100_000, 300_000).unwrap()
}

#[test]
fn smooth_step_is_exact_at_the_ends_and_midpoint() {
    assert_eq!(smooth_step(0), 0);
    assert_eq!(smooth_step(SCALE), SCALE);
    assert_eq!(smooth_step(SCALE / 2), SCALE / 2);
    assert_eq!(smooth_step(-5), 0);
    assert_eq!(smooth_step(2 * SCALE), SCALE);
    // ease-in: the first tenth of the transition covers far less than a
    // tenth of the distance
    assert_eq!(smooth_step(100_000), 28_000);
}

#[test]
fn half_way_advance_matches_scenario_values() {
    // elapsed 0.15 s of a 0.3 s transition from zoom 1.0 towards 0.3:
    // progress 0.5, eased 0.5, zoom 0.65; a second identical call arrives
    // at exactly 0.3.
    let config = test_config();
    let mut state = AnimationState::new(&config);
    state.progress = 0;
    state.from_zoom = SCALE;
    state.current_zoom = SCALE;
    state.target_zoom = 300_000;
    let (_, zoom) = advance(150_000, &config, &mut state);
    assert_eq!(state.progress, 500_000);
    assert_eq!(zoom, 650_000);
    assert_eq!(state.current_zoom, 650_000);
    let (_, zoom) = advance(150_000, &config, &mut state);
    assert_eq!(state.progress, SCALE);
    assert_eq!(zoom, 300_000);
}

#[test]
fn progress_is_monotone_and_converges() {
    let config = test_config();
    let mut state = AnimationState::new(&config);
    state.progress = 0;
    state.from_zoom = SCALE;
    state.current_zoom = SCALE;
    state.target_zoom = 300_000;
    state.target_pan = Point { x: 250_000, y: 125_000 };
    let mut last = state.progress;
    for _ in 0..12 {
        advance(40_000, &config, &mut state);
        assert!(state.progress >= last);
        assert!(state.progress <= SCALE);
        last = state.progress;
    }
    // 12 frames of 0.04 s cover the 0.3 s transition with room to spare
    assert_eq!(state.progress, SCALE);
    // convergence is exact, no residual drift
    assert_eq!(state.current_pan, state.target_pan);
    assert_eq!(state.current_zoom, state.target_zoom);
    advance(40_000, &config, &mut state);
    assert_eq!(state.current_pan, state.target_pan);
    assert_eq!(state.current_zoom, state.target_zoom);
}

#[test]
fn tiny_positive_elapsed_still_makes_progress() {
    let config = test_config();
    let mut state = AnimationState::new(&config);
    state.progress = 0;
    let before = state.progress;
    advance(1, &config, &mut state);
    assert!(state.progress > before);
}

#[test]
fn zero_elapsed_reproduces_the_previous_frame() {
    let config = test_config();
    let mut state = AnimationState::new(&config);
    state.progress = 0;
    state.from_zoom = SCALE;
    state.current_zoom = SCALE;
    state.target_zoom = 300_000;
    advance(100_000, &config, &mut state);
    let before = state;
    let (pan, zoom) = advance(0, &config, &mut state);
    assert_eq!(state, before);
    assert_eq!(pan, before.current_pan);
    assert_eq!(zoom, before.current_zoom);
}

#[test]
fn one_large_elapsed_jumps_straight_to_the_target() {
    let config = test_config();
    let mut state = AnimationState::new(&config);
    state.progress = 0;
    state.target_pan = Point { x: 300_000, y: 200_000 };
    let (pan, zoom) = advance(5_000_000, &config, &mut state);
    assert_eq!(state.progress, SCALE);
    assert_eq!(pan, state.target_pan);
    assert_eq!(zoom, state.target_zoom);
}

#[test]
fn fresh_state_is_at_rest_at_the_minimum_zoom() {
    let config = test_config();
    let mut state = AnimationState::new(&config);
    assert_eq!(state.progress, SCALE);
    assert_eq!(state.current_pan, Point { x: 0, y: 0 });
    assert_eq!(state.current_zoom, config.min_zoom);
    // advancing an arrived state emits the target unchanged
    let (pan, zoom) = advance(16_000, &config, &mut state);
    assert_eq!(pan, Point { x: 0, y: 0 });
    assert_eq!(zoom, config.min_zoom);
}

#[test]
fn tick_without_a_sample_retains_the_target() {
    let region = ScreenRegion::new(0, 0, 1920, 1080).unwrap();
    let config = test_config();
    let mut state = AnimationState::new(&config);
    let sample = WindowSample { x: 860, y: 440, width: 200, height: 200 };
    resolve(&sample, &region, &config, &mut state);
    let target_pan = state.target_pan;
    let target_zoom = state.target_zoom;
    let progress = state.progress;
    let (_, _) = tick(None, 40_000, &region, &config, &mut state);
    assert_eq!(state.target_pan, target_pan);
    assert_eq!(state.target_zoom, target_zoom);
    assert!(state.progress > progress);
}

#[test]
fn tick_with_a_sample_resolves_then_advances() {
    let region = ScreenRegion::new(0, 0, 1920, 1080).unwrap();
    let config = test_config();
    let mut state = AnimationState::new(&config);
    let sample = WindowSample { x: 860, y: 440, width: 200, height: 200 };
    let (pan, zoom) = tick(Some(&sample), 150_000, &region, &config, &mut state);
    assert_eq!(state.target_zoom, 285_185);
    assert_eq!(state.progress, 500_000);
    // half way from the startup view (pan 0, zoom 0.2) to the new target
    assert_eq!(pan, Point { x: 178_704, y: 178_704 });
    assert_eq!(zoom, 242_592);
}
