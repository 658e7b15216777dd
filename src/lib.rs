//! An orbit camera driven by pointer drag and scroll, in fixed-point units.
//!
//! Angles are counted in microdegrees, lengths, pointer motion and scroll in
//! thousandths of a unit, sines and cosines in millionths. Each frame the
//! camera's yaw and pitch turn by the frame's drag times the sensitivity
//! (`camera`), its distance moves with the frame's scroll (`camera`), and its
//! position is recomputed from pivot, distance and angles (`orbit`). `scene`
//! describes the panels that the camera looks at; `laws` states what holds
//! across calls.

pub mod angle;
pub mod camera;
pub mod fixed;
pub mod input;
pub mod laws;
pub mod orbit;
pub mod scene;
