//! Bridge between Sonos players and Qobuz Connect sessions.
//!
//! A bridge reacts to an event in steps. A step tells which effects to carry
//! out, in order, and which question to ask of the world outside; the answer
//! to it goes into the next step, until a step asks nothing more.

pub mod command_handlers;
pub mod command_laws;
pub mod event_loop;
pub mod laws;
pub mod load_laws;
pub mod notification_handlers;
pub mod report_laws;
pub mod run_laws;
pub mod sonos_handlers;
pub mod state;
pub mod step;
