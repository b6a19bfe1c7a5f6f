//! A verified model of a minimal hardware-accelerated triangle renderer.
//!
//! The library contains everything that can be decided without touching the
//! window system or the GPU: the exact byte image of the vertex data, the
//! command sequences that set up and release the GPU-side geometry, and the
//! event-driven scheduler that turns window-system events into draw, present,
//! resize and teardown commands. A thin runtime shell owns the live window and
//! GPU context and interprets each emitted [`command::Command`] against them.

pub mod command;
pub mod geometry;
pub mod resources;
pub mod scheduler;
