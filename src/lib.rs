//! Animation-state classification, transition tracking, sprite frame
//! playback and clip playback commands for a physics-driven character.
//!
//! Speeds and playback rates are fixed-point integers: a horizontal speed is
//! measured in micrometres per second, and a playback rate in millionths of
//! the clip's natural rate. Durations are measured in nanoseconds.
pub mod state;
pub mod classifier;
pub mod tracker;
pub mod frames;
pub mod playback;
