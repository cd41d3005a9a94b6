//! Core of a top-down racing prototype: a fixed-point vehicle kinematics
//! model, a race-progress state machine, and the per-frame decision step
//! that ties them together. Rendering, input sampling and frame pacing are
//! external collaborators; this crate holds the verified logic they drive.

pub mod fixed;
pub mod frame;
pub mod race;
pub mod vehicle;
