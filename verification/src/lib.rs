//! Playback orchestration core for a streamed-audio daemon.
//!
//! The library owns the authoritative playback state — which tracks are
//! active, which one is current, the volume and the play mode — and the
//! decision logic that keeps that state consistent under external commands,
//! end-of-stream events and catalog reloads.  All I/O (the media engine,
//! the network resolver, persistence, the command transport) lives outside
//! the library and exchanges plain values with it.

pub mod error;
pub mod model;
pub mod orchestrator;
pub mod paint;
pub mod paths;
pub mod resolver;
mod rng;
pub mod state;
pub mod text;
pub mod video_data;
