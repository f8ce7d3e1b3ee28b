//! Events of a bridge, from both of its sides.

use crate::bridge::command_handlers::{command_bridge, command_step};
use crate::bridge::notification_handlers::{
    notification_fits, notification_outcome, Outcome,
};
use crate::bridge::sonos_handlers::{player_event_bridge, player_event_step};
use crate::bridge::state::{BridgeState, BridgeView};
use crate::bridge::step::Step;
use crate::cloud_queue::state::{QueueStore, QueueView};
use crate::connect::SessionEvent;
use crate::qobuz_api::Error;
use crate::sonos::PlayerEvent;
use vstd::prelude::*;

verus! {

/// Something that happens on one side of a bridge.
#[derive(Debug)]
pub enum BridgeEvent {
    /// On the Sonos side.
    Player(PlayerEvent),
    /// On the Qobuz side.
    Session(SessionEvent),
}

/// What an event leads to.
pub open spec fn event_outcome(
    s: BridgeView,
    store: Map<Seq<char>, QueueView>,
    event: BridgeEvent,
) -> Outcome {
    match event {
        BridgeEvent::Player(event) => Outcome {
            bridge: player_event_bridge(s, store, event),
            store,
            step: player_event_step(s, store, event),
        },
        BridgeEvent::Session(SessionEvent::Command(cmd)) => Outcome {
            bridge: command_bridge(s, cmd),
            store,
            step: command_step(s, store, cmd),
        },
        BridgeEvent::Session(SessionEvent::Notification(n)) => notification_outcome(s, store, n),
    }
}

/// Whether an event can be handled.
pub open spec fn event_fits(s: BridgeView, event: BridgeEvent) -> bool {
    match event {
        BridgeEvent::Session(SessionEvent::Notification(n)) => notification_fits(s, n),
        _ => true,
    }
}

/// Whether an event is the registration of the device.
pub open spec fn registers(event: BridgeEvent) -> bool {
    event matches BridgeEvent::Session(SessionEvent::Notification(n)) && n is DeviceRegistered
}

impl BridgeState {
    /// Whether an event can be handled.
    pub fn event_in_range(&self, event: &BridgeEvent) -> (r: bool)
        ensures
            r == event_fits(self@, *event),
    {
        match event {
            BridgeEvent::Session(SessionEvent::Notification(n)) => self.notification_in_range(n),
            BridgeEvent::Session(SessionEvent::Command(_)) | BridgeEvent::Player(_) => true,
        }
    }

    /// Handles an event from either side of the bridge.
    ///
    /// The one error is that the client of a newly registered device cannot be
    /// built on this machine.
    pub fn handle_event(&mut self, queue_store: &mut QueueStore, event: BridgeEvent) -> (r: Result<
        Step,
        Error,
    >)
        requires
            event_fits(old(self)@, event),
        ensures
            final(self)@ == event_outcome(old(self)@, old(queue_store)@, event).bridge,
            final(queue_store)@ == event_outcome(old(self)@, old(queue_store)@, event).store,
            r matches Ok(step) ==> step@ == event_outcome(
                old(self)@,
                old(queue_store)@,
                event,
            ).step,
            r matches Err(e) ==> registers(event) && e is Http,
    {
        match event {
            BridgeEvent::Player(event) => Ok(self.handle_player_event(queue_store, event)),
            BridgeEvent::Session(SessionEvent::Command(cmd)) => Ok(
                self.handle_command(queue_store, cmd),
            ),
            BridgeEvent::Session(SessionEvent::Notification(n)) => self.handle_notification(
                queue_store,
                n,
            ),
        }
    }
}

} // verus!
