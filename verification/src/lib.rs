//! Simulation core of a first-person exploration game.
//!
//! The shared game state, the dialog session it carries, the proximity
//! interaction detector and the discrete decisions of the camera and
//! locomotion controllers, each with a contract over a mathematical model.

pub mod controls;
pub mod dialog;
pub mod interact;
pub mod state;
