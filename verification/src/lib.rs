//! Core logic of a hover-reactive notch overlay that mirrors an external
//! media player: window geometry, hover transitions, idempotent native
//! setup, status decoding, and the playback command bridge.

pub mod params;
pub mod geometry;
pub mod hover;
pub mod window;
pub mod text;
pub mod status;
pub mod player;
pub mod channel;
