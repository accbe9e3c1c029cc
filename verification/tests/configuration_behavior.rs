//! Configuration behavior: validation, atomic rejection, hot zoom changes.

use window_follow::{
    AnimationState, ConfigUpdate, DrawingTechnique, FollowConfig, FollowError, Point,
    ScreenRegion, WindowSample, MAX_ANIMATION_TIME, MAX_DIMENSION, SCALE,
};
use window_follow::animator::advance;
use window_follow::controller::apply_update;
use window_follow::resolver::resolve;

fn test_setup() -> (ScreenRegion, FollowConfig, AnimationState) {
    let region = ScreenRegion::new(0, 0, 1920, 1080).unwrap();
    let config = FollowConfig::new(5_000_000, 100_000, 300_000).unwrap();
    let state = AnimationState::new(&config);
    (region, config, state)
}

#[test]
fn config_from_user_settings_takes_the_reciprocal_zoom() {
    let config = FollowConfig::new(5_000_000, 100_000, 300_000).unwrap();
    assert_eq!(config.min_zoom, 200_000);
    assert_eq!(config.padding, 100_000);
    assert_eq!(config.animation_time, 300_000);
    let config = FollowConfig::new(SCALE, 0, 1).unwrap();
    assert_eq!(config.min_zoom, SCALE);
}

#[test]
fn config_rejects_out_of_range_settings() {
    // zoom below 1.0 would ask the view to zoom out past full frame
    assert_eq!(FollowConfig::new(999_999, 100_000, 300_000), Err(FollowError::InvalidConfiguration));
    assert_eq!(FollowConfig::new(0, 100_000, 300_000), Err(FollowError::InvalidConfiguration));
    assert_eq!(FollowConfig::new(5_000_000, -1, 300_000), Err(FollowError::InvalidConfiguration));
    assert_eq!(FollowConfig::new(5_000_000, SCALE + 1, 300_000), Err(FollowError::InvalidConfiguration));
    assert_eq!(FollowConfig::new(5_000_000, 100_000, 0), Err(FollowError::InvalidConfiguration));
    assert_eq!(
        FollowConfig::new(5_000_000, 100_000, MAX_ANIMATION_TIME + 1),
        Err(FollowError::InvalidConfiguration)
    );
}

#[test]
fn region_rejects_degenerate_rectangles() {
    assert_eq!(ScreenRegion::new(0, 0, 0, 1080), Err(FollowError::InvalidConfiguration));
    assert_eq!(ScreenRegion::new(0, 0, 1920, 0), Err(FollowError::InvalidConfiguration));
    assert_eq!(ScreenRegion::new(0, 0, -1920, 1080), Err(FollowError::InvalidConfiguration));
    assert_eq!(
        ScreenRegion::new(0, 0, MAX_DIMENSION + 1, 1080),
        Err(FollowError::InvalidConfiguration)
    );
    assert!(ScreenRegion::new(-3000, -3000, 1920, 1080).is_ok());
}

#[test]
fn zero_animation_time_update_is_rejected_and_prior_stays() {
    // Scenario: setting animation_time to 0 must be rejected as an invalid
    // configuration, leaving the previous animation_time in effect.
    let (mut region, mut config, mut state) = test_setup();
    let mut update = ConfigUpdate::none();
    update.animation_time = Some(0);
    let r = apply_update(&update, &mut region, &mut config, &mut state);
    assert_eq!(r, Err(FollowError::InvalidConfiguration));
    assert_eq!(config.animation_time, 300_000);
}

#[test]
fn rejected_update_changes_nothing_at_all() {
    let (mut region, mut config, mut state) = test_setup();
    let region_before = region;
    let config_before = config;
    let state_before = state;
    let mut update = ConfigUpdate::none();
    update.screen_width = Some(2560);
    update.padding = Some(50_000);
    update.animation_time = Some(-7);
    let r = apply_update(&update, &mut region, &mut config, &mut state);
    assert_eq!(r, Err(FollowError::InvalidConfiguration));
    assert_eq!(region, region_before);
    assert_eq!(config, config_before);
    assert_eq!(state, state_before);
}

#[test]
fn accepted_update_merges_into_prior_settings() {
    let (mut region, mut config, mut state) = test_setup();
    let mut update = ConfigUpdate::none();
    update.screen_x = Some(-500);
    update.screen_width = Some(2560);
    update.padding = Some(50_000);
    let r = apply_update(&update, &mut region, &mut config, &mut state);
    assert_eq!(r, Ok(()));
    assert_eq!(region, ScreenRegion { x: -500, y: 0, width: 2560, height: 1080 });
    assert_eq!(config.padding, 50_000);
    assert_eq!(config.min_zoom, 200_000);
    assert_eq!(config.animation_time, 300_000);
}

#[test]
fn hot_zoom_change_restarts_from_the_animated_value() {
    // A zoom setting changed mid-flight must snapshot the transition start
    // from the currently displayed value — no visible jump — and re-target
    // the zoom immediately, without waiting for the next sample.
    let (region, mut config, mut state) = test_setup();
    let sample = WindowSample { x: 860, y: 440, width: 200, height: 200 };
    resolve(&sample, &region, &config, &mut state);
    advance(150_000, &config, &mut state);
    assert_eq!(state.current_zoom, 242_592);
    assert_eq!(state.current_pan, Point { x: 178_704, y: 178_704 });
    let mut region = region;
    let mut update = ConfigUpdate::none();
    update.zoom = Some(4_000_000);
    let r = apply_update(&update, &mut region, &mut config, &mut state);
    assert_eq!(r, Ok(()));
    assert_eq!(config.min_zoom, 250_000);
    assert_eq!(state.target_zoom, 250_000);
    assert_eq!(state.progress, 0);
    assert_eq!(state.from_zoom, 242_592);
    assert_eq!(state.from_pan, Point { x: 178_704, y: 178_704 });
    assert_eq!(state.current_zoom, 242_592);
    assert_eq!(state.target_pan, Point { x: 357_408, y: 357_408 });
}

#[test]
fn zoom_update_outside_range_is_rejected() {
    let (mut region, mut config, mut state) = test_setup();
    let mut update = ConfigUpdate::none();
    update.zoom = Some(500_000);
    let r = apply_update(&update, &mut region, &mut config, &mut state);
    assert_eq!(r, Err(FollowError::InvalidConfiguration));
    assert_eq!(config.min_zoom, 200_000);
    assert_eq!(state.progress, SCALE);
}

#[test]
fn technique_indices_map_to_the_three_entry_points() {
    assert_eq!(DrawingTechnique::from_index(0), DrawingTechnique::Undistort);
    assert_eq!(DrawingTechnique::from_index(1), DrawingTechnique::AlphaDivide);
    assert_eq!(DrawingTechnique::from_index(2), DrawingTechnique::Plain);
    assert_eq!(DrawingTechnique::from_index(3), DrawingTechnique::Undistort);
    assert_eq!(DrawingTechnique::from_index(-1), DrawingTechnique::Undistort);
}
