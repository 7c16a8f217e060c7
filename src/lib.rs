//! Per-output controller of a wallpaper daemon, as a verified state machine.
//!
//! The library holds what a surface decides: which image to load and when to
//! give up on it, how a frame is drawn, how geometry changes propagate, how a
//! configuration reload is applied, and when the rotation timer is armed,
//! paused and resumed. Every step takes plain values (times are milliseconds,
//! timer registrations are integer tokens) and returns the work for the
//! caller to carry out against the compositor, the renderer and the event loop.
pub mod config;
pub mod laws;
pub mod surface;
pub mod timing;
