//! Window-follow camera core: given periodic samples of the focused window's
//! on-screen rectangle, compute a smoothly animated pan and zoom for a
//! rectangular viewport over a larger video frame.
//!
//! All fractional quantities (pan, zoom, progress, padding, seconds) are held
//! in fixed-point micro-units: the value `SCALE` (one million) stands for 1.0.

pub mod animator;
pub mod config;
pub mod controller;
pub mod geometry;
pub mod resolver;
pub mod state;
pub mod technique;
pub mod units;

pub use animator::{advance, smooth_step};
pub use config::{ConfigModel, FollowConfig, FollowError};
pub use controller::{apply_update, tick, ConfigUpdate, UpdateModel};
pub use geometry::{Point, PointModel, RegionModel, SampleModel, ScreenRegion, WindowSample};
pub use resolver::{resolve, window_zoom};
pub use state::{AnimationState, StateModel};
pub use technique::DrawingTechnique;
pub use units::{HYSTERESIS, MAX_ANIMATION_TIME, MAX_COORDINATE, MAX_DIMENSION, SCALE};
