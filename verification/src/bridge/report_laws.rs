//! What Qobuz is told of what happens at the player.

use crate::bridge::command_handlers::{command_bridge, command_step};
use crate::bridge::command_laws::{
    ms, played_track_is_learned, player_number, stands, state_number, told,
};
use crate::bridge::event_loop::{event_fits, event_outcome, registers, BridgeEvent};
use crate::bridge::laws::{
    all_effects, complete, conversation, conversation_ends, follows, turn_after, Turn,
};
use crate::bridge::notification_handlers::notification_outcome;
use crate::bridge::sonos_handlers::{
    after_status_bridge, after_status_step, player_event_bridge, player_event_step,
};
use crate::bridge::state::{track_id_in, BridgeView};
use crate::bridge::step::{AfterStatus, AskView, EffectView, StepView};
use crate::cloud_queue::state::{stored_queue_item, QueueView};
use crate::connect::{Command, Notification, SessionEvent};
use crate::num::wrap_u32;
use crate::qobuz_api::header_value_ok;
use crate::sonos::{
    GroupVolume, MetadataStatus, PlayState, PlaybackStatus, PlayerEvent, TrackView,
};
use vstd::prelude::*;

verus! {

/// The Qobuz track that Sonos names, if it names one.
pub open spec fn named_id(playing: Option<TrackView>) -> Option<u64> {
    match playing {
        Some(track) => match track.id {
            Some(id) => track_id_in(id.object_id),
            None => None,
        },
        None => None,
    }
}

/// Where no command stands, a playback event is reported with its own state,
/// as buffering exactly where the player buffers, and with the fresh position, or
/// the event's where there is none; where a command stands, the commanded state is
/// reported, and the commanded position where there is one. Duration and queue
/// item are those of the bridge.
pub proof fn playback_event_is_reported(
    s: BridgeView,
    store: Map<Seq<char>, QueueView>,
    event: PlaybackStatus,
    fresh: Option<PlaybackStatus>,
    now: u128,
    position: u32,
    buffer: int,
)
    requires
        fresh is None ==> position == ms(event.position_millis),
        fresh matches Some(status) ==> position == ms(status.position_millis),
        event.state == PlayState::Buffering ==> buffer == 1,
        event.state != PlayState::Buffering ==> buffer == 2,
    ensures
        ({
            let number = player_number(event.state);
            let after = AfterStatus::PlaybackChanged(event);
            let bridge = after_status_bridge(s, after, fresh, now);
            let step = after_status_step(s, store, after, fresh, now);
            &&& player_event_step(s, store, PlayerEvent::PlaybackChanged(event)) == (StepView {
                effects: Seq::empty(),
                ask: Some(AskView::PlaybackStatus(after)),
            })
            &&& player_event_bridge(s, store, PlayerEvent::PlaybackChanged(event)) == s
            &&& step.ask is None
            &&& (s.commanded is None || !stands(s.commanded->0, number, now)) ==> {
                &&& step.effects == seq![
                    EffectView::ReportState(
                        told(
                            number,
                            buffer,
                            position,
                            s.current_duration_ms,
                            s.current_queue_item_id,
                        ),
                    ),
                ]
                &&& bridge == (BridgeView { commanded: None, ..s })
            }
            &&& s.commanded matches Some(cmd) ==> stands(cmd, number, now) ==> {
                &&& step.effects == seq![
                    EffectView::ReportState(
                        told(
                            state_number(cmd.state),
                            buffer,
                            if cmd.position_ms is Some {
                                cmd.position_ms->0
                            } else {
                                position
                            },
                            s.current_duration_ms,
                            s.current_queue_item_id,
                        ),
                    ),
                ]
                &&& bridge == s
            }
        }),
{
}

/// Where no command stands, a change of tracks for which the player gives its
/// status is reported with the state and position of that status; where one
/// stands, with the commanded state and, where there is one, the commanded
/// position. Without a status nothing is reported.
pub proof fn track_change_is_reported(
    s: BridgeView,
    store: Map<Seq<char>, QueueView>,
    status: PlaybackStatus,
    now: u128,
)
    ensures
        ({
            let number = player_number(status.state);
            let bridge = after_status_bridge(s, AfterStatus::TrackChanged, Some(status), now);
            let step = after_status_step(s, store, AfterStatus::TrackChanged, Some(status), now);
            &&& after_status_step(s, store, AfterStatus::TrackChanged, None, now) == (StepView {
                effects: Seq::empty(),
                ask: None,
            })
            &&& after_status_bridge(s, AfterStatus::TrackChanged, None, now) == s
            &&& step.ask is None
            &&& (s.commanded is None || !stands(s.commanded->0, number, now)) ==> {
                &&& step.effects == seq![
                    EffectView::ReportState(
                        told(
                            number,
                            2,
                            ms(status.position_millis),
                            s.current_duration_ms,
                            s.current_queue_item_id,
                        ),
                    ),
                ]
                &&& bridge == (BridgeView { commanded: None, ..s })
            }
            &&& s.commanded matches Some(cmd) ==> stands(cmd, number, now) ==> {
                &&& step.effects == seq![
                    EffectView::ReportState(
                        told(
                            state_number(cmd.state),
                            2,
                            if cmd.position_ms is Some {
                                cmd.position_ms->0
                            } else {
                                ms(status.position_millis)
                            },
                            s.current_duration_ms,
                            s.current_queue_item_id,
                        ),
                    ),
                ]
                &&& bridge == s
            }
        }),
{
}

/// A metadata event that names a Qobuz track makes the bridge ask for the playback
/// status exactly where it changes the current track or the current queue item;
/// where it names none, nothing is asked and neither changes. Nothing is done
/// before the answer.
pub proof fn new_track_is_asked_about(
    s: BridgeView,
    store: Map<Seq<char>, QueueView>,
    metadata: MetadataStatus,
)
    ensures
        ({
            let event = PlayerEvent::MetadataChanged(metadata);
            let bridge = player_event_bridge(s, store, event);
            let step = player_event_step(s, store, event);
            let changed = bridge.current_track_id != s.current_track_id
                || bridge.current_queue_item_id != s.current_queue_item_id;
            &&& step.effects.len() == 0
            &&& changed ==> named_id(metadata@) is Some
            &&& step.ask == (if changed {
                Some(AskView::PlaybackStatus(AfterStatus::TrackChanged))
            } else {
                None
            })
            &&& named_id(metadata@) matches Some(id) ==> bridge.current_track_id == Some(id)
                && bridge.current_queue_item_id == stored_queue_item(store, s.bridge_id, id)
            &&& metadata@ is None ==> bridge == s
            &&& metadata@ matches Some(track) ==> bridge == (BridgeView {
                current_duration_ms: match track.duration_millis {
                    Some(d) => Some(wrap_u32(d as int)),
                    None => None,
                },
                current_track_id: bridge.current_track_id,
                current_queue_item_id: bridge.current_queue_item_id,
                ..s
            })
        }),
{
    match metadata@ {
        Some(track) => played_track_is_learned(s, store, track),
        None => {},
    }
}

/// Whenever a metadata event changes the current track or the current queue item,
/// the player is asked for its status, and where it gives one, all that is done is
/// one report, with the queue item that is then current; without a status nothing
/// is done. Where the event changes neither, the conversation is over at once.
pub proof fn new_track_is_reported_once(
    s: BridgeView,
    store: Map<Seq<char>, QueueView>,
    metadata: MetadataStatus,
    turns: Seq<Turn>,
)
    requires
        conversation(turns, store),
        complete(turns),
        turns[0].bridge == player_event_bridge(s, store, PlayerEvent::MetadataChanged(metadata)),
        turns[0].step == player_event_step(s, store, PlayerEvent::MetadataChanged(metadata)),
    ensures
        ({
            let bridge = turns[0].bridge;
            let changed = bridge.current_track_id != s.current_track_id
                || bridge.current_queue_item_id != s.current_queue_item_id;
            let effects = all_effects(turns);
            &&& !changed ==> turns.len() == 1 && effects.len() == 0
            &&& changed ==> turns.len() == 2 && turns[0].step.ask == Some(
                AskView::PlaybackStatus(AfterStatus::TrackChanged),
            ) && exists|status: Option<PlaybackStatus>, now: u128|
                {
                    &&& #[trigger] after_status_step(
                        bridge,
                        store,
                        AfterStatus::TrackChanged,
                        status,
                        now,
                    ) == turns[1].step
                    &&& status is None ==> effects.len() == 0
                    &&& status is Some ==> effects.len() == 1 && (effects[0] matches
                        EffectView::ReportState(report) && report.current_queue_item_id
                        == bridge.current_queue_item_id && report.duration
                        == bridge.current_duration_ms)
                }
        }),
{
    reveal(turn_after);
    reveal_with_fuel(all_effects, 3);
    new_track_is_asked_about(s, store, metadata);
    conversation_ends(turns, store);
    let rest = turns.skip(1);
    let none = Seq::<EffectView>::empty();
    let bridge = turns[0].bridge;
    if turns[0].step.ask is None {
        assert(turns.len() == 1);
        assert(all_effects(rest) == none);
        assert(all_effects(turns) =~= none);
    } else {
        let ask = AskView::PlaybackStatus(AfterStatus::TrackChanged);
        assert(turns.len() > 1);
        assert(follows(bridge, store, ask, turns[1].bridge, turns[1].step));
        assert(rest[0] == turns[1]);
        assert(turns[1].step.ask is None);
        assert(conversation(rest, store));
        assert(turns.len() == 2);
        assert(rest.skip(1).len() == 0);
        assert(all_effects(rest) =~= turns[1].step.effects);
        assert(all_effects(turns) =~= turns[1].step.effects);
    }
}

/// A volume event is reported with its volume and with whether it is muted, and
/// changes nothing of the bridge.
pub proof fn volume_event_is_reported(
    s: BridgeView,
    store: Map<Seq<char>, QueueView>,
    volume: GroupVolume,
)
    ensures
        player_event_step(s, store, PlayerEvent::VolumeChanged(volume)) == (StepView {
            effects: seq![
                EffectView::ReportVolume(volume.volume as u32),
                EffectView::ReportMuted(volume.muted),
            ],
            ask: None,
        }),
        player_event_bridge(s, store, PlayerEvent::VolumeChanged(volume)) == s,
{
}

/// Every other player event leads to nothing.
pub proof fn other_player_events_lead_to_nothing(
    s: BridgeView,
    store: Map<Seq<char>, QueueView>,
    event: PlayerEvent,
)
    requires
        !(event is PlaybackChanged) && !(event is MetadataChanged) && !(event is VolumeChanged),
    ensures
        player_event_step(s, store, event) == (StepView { effects: Seq::empty(), ask: None }),
        player_event_bridge(s, store, event) == s,
{
}

/// Each event of a bridge is handled by its kind, and only a notification can
/// change a queue. Every event can be handled, but for a registration whose token
/// cannot be sent.
pub proof fn events_are_handled_by_kind(
    s: BridgeView,
    store: Map<Seq<char>, QueueView>,
    event: PlayerEvent,
    cmd: Command,
    n: Notification,
)
    ensures
        ({
            let player = event_outcome(s, store, BridgeEvent::Player(event));
            let command = event_outcome(s, store, BridgeEvent::Session(SessionEvent::Command(cmd)));
            &&& player.store == store
            &&& player.bridge == player_event_bridge(s, store, event)
            &&& player.step == player_event_step(s, store, event)
            &&& command.store == store
            &&& command.bridge == command_bridge(s, cmd)
            &&& command.step == command_step(s, store, cmd)
            &&& event_outcome(
                s,
                store,
                BridgeEvent::Session(SessionEvent::Notification(n)),
            ) == notification_outcome(s, store, n)
            &&& event_fits(s, BridgeEvent::Player(event))
            &&& event_fits(s, BridgeEvent::Session(SessionEvent::Command(cmd)))
            &&& event_fits(s, BridgeEvent::Session(SessionEvent::Notification(n))) <==> (n
                matches Notification::DeviceRegistered { api_jwt, .. } ==> header_value_ok(
                api_jwt@,
            ) && header_value_ok(s.app_id))
            &&& !registers(BridgeEvent::Player(event))
            &&& !registers(BridgeEvent::Session(SessionEvent::Command(cmd)))
            &&& registers(BridgeEvent::Session(SessionEvent::Notification(n))) <==> n is
                DeviceRegistered
        }),
{
}

} // verus!
