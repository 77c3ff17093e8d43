//! Animation control and sampling: play-state machines for requested
//! animations, per-channel sampler controls, keyframe stepping and time
//! advancement. Time is held as whole nanoseconds.
pub mod state;
pub mod sampler;
pub mod control_set;
pub mod control;
pub mod hierarchy;
