//! Cloud queue for Sonos.
//!
//! Implements the Sonos Cloud Queue protocol (v2.3): the queues that the
//! speakers are served, and the answers to the requests that they make.

pub mod handlers;
pub mod laws;
pub mod metadata_cache;
pub mod server;
pub mod state;
pub mod types;

