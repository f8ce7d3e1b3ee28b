//! Qonos, a bridge from Qobuz Connect to Sonos.
//!
//! Sonos speaker groups appear as Qobuz Connect devices. What is played comes
//! from a cloud queue that the players ask for; the bridge keeps that queue,
//! obeys the commands of the Qobuz app and reports back what the players do.
//!
//! The library holds the rules: queues and windows of them, the answers of the
//! queue server, and for each bridge what to do next. Talking to the network is
//! left to the program around it.

pub mod bridge;
pub mod clock;
pub mod cloud_queue;
pub mod connect;
pub mod model;
pub mod num;
pub mod qobuz_api;
pub mod sonos;
pub mod text;
pub mod topology;
