//! Engine-independent core of a small scene that provokes a glitch in an
//! immediate-mode line renderer: circles drawn into an off-screen texture
//! lose segments or joints when the first draw calls fall into the first few
//! frames of the run.
//!
//! The library decides *when* circles are drawn and *which* ones; issuing
//! the draw calls, reading the clock and spawning the scene is left to the
//! program that embeds it in an engine.

pub mod circle;
pub mod driver;
pub mod frame_gate;
pub mod scene;
pub mod time_gate;
