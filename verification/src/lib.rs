//! Orchestration of play-history logging ("scrobbling") and rich-presence
//! updates for a music player.
//!
//! The library receives playback lifecycle events together with track
//! metadata, consults a settings snapshot, and decides which of two external
//! reporting connectors to drive and with what payload. The decision logic
//! is verified; the connector calls themselves go through small trusted
//! wrappers around the `rustfm-scrobble` and `discord-presence` crates.

pub mod auth;
pub mod connect;
pub mod format;
pub mod laws;
pub mod manager;
pub mod model;
pub mod plan;
