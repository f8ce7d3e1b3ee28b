//! Sonos player event handlers.
//!
//! Handles bidirectional sync from Sonos back to Qobuz: playback state,
//! metadata changes, and volume updates.

use crate::bridge::command_handlers::{
    activation_step, heartbeat_step, learning, qobuz_id, resolved_report, set_state_step,
    status_position,
};
use crate::bridge::state::{BridgeState, BridgeView};
use crate::bridge::step::{AfterStatus, Ask, AskView, Effect, EffectView, Step, StepView};
use crate::cloud_queue::state::{stored_queue_item, QueueStore, QueueView};
use crate::connect::{
    map_sonos_state, millis, position_ms, sonos_playing_state, BufferState,
};
use crate::sonos::{
    GroupVolume, MetadataStatus, PlayState, PlaybackStatus, PlayerEvent, TrackView,
};
use vstd::prelude::*;

verus! {

/// The buffering state that Qobuz is told for a Sonos play state.
pub open spec fn buffering(state: PlayState) -> BufferState {
    match state {
        PlayState::Buffering => BufferState::Buffering,
        _ => BufferState::Ready,
    }
}

/// The step that reports a playback event. The position of the event may be
/// stale, so a fresh one takes its place where there is one.
pub open spec fn playback_changed_step(
    s: BridgeView,
    event: PlaybackStatus,
    status: Option<PlaybackStatus>,
    now: u128,
) -> StepView {
    let fresh_position = match status {
        Some(fresh) => millis(fresh.position_millis),
        None => millis(event.position_millis),
    };
    StepView {
        effects: seq![
            EffectView::ReportState(
                resolved_report(
                    s,
                    sonos_playing_state(event.state),
                    buffering(event.state),
                    fresh_position,
                    now,
                ),
            ),
        ],
        ask: None,
    }
}

/// The step that reports a track change, where the player gives its status.
pub open spec fn track_changed_step(
    s: BridgeView,
    status: Option<PlaybackStatus>,
    now: u128,
) -> StepView {
    match status {
        Some(status) => StepView {
            effects: seq![
                EffectView::ReportState(
                    resolved_report(
                        s,
                        sonos_playing_state(status.state),
                        BufferState::Ready,
                        millis(status.position_millis),
                        now,
                    ),
                ),
            ],
            ask: None,
        },
        None => StepView::idle(),
    }
}

/// Whether what the player plays is news to the bridge.
pub open spec fn track_is_news(
    s: BridgeView,
    store: Map<Seq<char>, QueueView>,
    playing: Option<TrackView>,
) -> bool {
    playing is Some && qobuz_id(playing->0) is Some && {
        let id = qobuz_id(playing->0)->0;
        s.current_track_id != Some(id) || s.current_queue_item_id != stored_queue_item(
            store,
            s.bridge_id,
            id,
        )
    }
}

/// The step that a metadata event leads to.
pub open spec fn metadata_changed_step(
    s: BridgeView,
    store: Map<Seq<char>, QueueView>,
    playing: Option<TrackView>,
) -> StepView {
    if track_is_news(s, store, playing) {
        StepView::asking(AskView::PlaybackStatus(AfterStatus::TrackChanged))
    } else {
        StepView::idle()
    }
}

/// The step that reports a volume event.
pub open spec fn volume_changed_step(volume: GroupVolume) -> StepView {
    StepView {
        effects: seq![
            EffectView::ReportVolume(volume.volume as u32),
            EffectView::ReportMuted(volume.muted),
        ],
        ask: None,
    }
}

/// The bridge once a player event has been taken note of.
pub open spec fn player_event_bridge(
    s: BridgeView,
    store: Map<Seq<char>, QueueView>,
    event: PlayerEvent,
) -> BridgeView {
    match event {
        PlayerEvent::MetadataChanged(metadata) => learning(s, store, metadata@),
        _ => s,
    }
}

/// The first step of a player event.
pub open spec fn player_event_step(
    s: BridgeView,
    store: Map<Seq<char>, QueueView>,
    event: PlayerEvent,
) -> StepView {
    match event {
        PlayerEvent::PlaybackChanged(status) => StepView::asking(
            AskView::PlaybackStatus(AfterStatus::PlaybackChanged(status)),
        ),
        PlayerEvent::MetadataChanged(metadata) => metadata_changed_step(s, store, metadata@),
        PlayerEvent::VolumeChanged(volume) => volume_changed_step(volume),
        _ => StepView::idle(),
    }
}

/// The bridge once the playback status has been asked for.
pub open spec fn after_status_bridge(
    s: BridgeView,
    after: AfterStatus,
    status: Option<PlaybackStatus>,
    now: u128,
) -> BridgeView {
    match after {
        AfterStatus::SetState { .. } => s,
        AfterStatus::Activation { .. } => s,
        AfterStatus::PlaybackChanged(event) => s.resolving(sonos_playing_state(event.state), now),
        _ => match status {
            Some(status) => s.resolving(sonos_playing_state(status.state), now),
            None => s,
        },
    }
}

/// The step that follows once the playback status has been asked for.
pub open spec fn after_status_step(
    s: BridgeView,
    store: Map<Seq<char>, QueueView>,
    after: AfterStatus,
    status: Option<PlaybackStatus>,
    now: u128,
) -> StepView {
    match after {
        AfterStatus::SetState { cmd, previous_item } => set_state_step(
            s,
            store,
            cmd,
            previous_item,
            status_position(status),
        ),
        AfterStatus::Activation { volume, muted } => activation_step(volume, muted, status),
        AfterStatus::Heartbeat => heartbeat_step(s, status, now),
        AfterStatus::PlaybackChanged(event) => playback_changed_step(s, event, status, now),
        AfterStatus::TrackChanged => track_changed_step(s, status, now),
    }
}

impl BridgeState {
    /// Dispatches a Sonos player event.
    pub fn handle_player_event(&mut self, queue_store: &QueueStore, event: PlayerEvent) -> (r: Step)
        ensures
            final(self)@ == player_event_bridge(old(self)@, queue_store@, event),
            r@ == player_event_step(old(self)@, queue_store@, event),
    {
        match event {
            PlayerEvent::PlaybackChanged(status) => self.handle_playback_changed(status),
            PlayerEvent::MetadataChanged(metadata) => self.handle_metadata_changed(
                queue_store,
                &metadata,
            ),
            PlayerEvent::VolumeChanged(volume) => self.handle_volume_changed(volume),
            PlayerEvent::PlaybackError | PlayerEvent::Disconnected | PlayerEvent::Other => {
                Step::idle()
            },
        }
    }

    /// Handles playback state changes from Sonos: a fresh position is wanted.
    pub fn handle_playback_changed(&self, status: PlaybackStatus) -> (r: Step)
        ensures
            r@ == StepView::asking(
                AskView::PlaybackStatus(AfterStatus::PlaybackChanged(status)),
            ),
    {
        Step::asking(Ask::PlaybackStatus(AfterStatus::PlaybackChanged(status)))
    }

    /// Handles metadata changes from Sonos (track changes).
    pub fn handle_metadata_changed(
        &mut self,
        queue_store: &QueueStore,
        metadata: &MetadataStatus,
    ) -> (r: Step)
        ensures
            final(self)@ == learning(old(self)@, queue_store@, metadata@),
            r@ == metadata_changed_step(old(self)@, queue_store@, metadata@),
    {
        let known_track: Option<u64> = self.current_track_id;
        let known_item: Option<i32> = self.current_queue_item_id;
        if let Some(current_item) = &metadata.current_item {
            if let Some(track) = &current_item.track {
                if let Some(track_id) = self.learn_track(queue_store, track) {
                    let track_changed = known_track != Some(track_id);
                    if track_changed || known_item != self.current_queue_item_id {
                        return Step::asking(Ask::PlaybackStatus(AfterStatus::TrackChanged));
                    }
                }
            }
        }
        Step::idle()
    }

    /// Handles volume changes from Sonos.
    pub fn handle_volume_changed(&self, volume: GroupVolume) -> (r: Step)
        ensures
            r@ == volume_changed_step(volume),
    {
        let mut step = Step::one(Effect::ReportVolume(volume.volume as u32));
        step.add(Effect::ReportMuted(volume.muted));
        proof {
            assert(step@.effects =~= volume_changed_step(volume).effects);
        }
        step
    }

    /// Reports a playback event once a fresh status has been asked for.
    pub fn report_playback(
        &mut self,
        event: PlaybackStatus,
        status: Option<PlaybackStatus>,
        now: u128,
    ) -> (r: Step)
        ensures
            final(self)@ == old(self)@.resolving(sonos_playing_state(event.state), now),
            r@ == playback_changed_step(old(self)@, event, status, now),
    {
        let fresh_position: u32 = match status {
            Some(fresh) => position_ms(fresh.position_millis),
            None => position_ms(event.position_millis),
        };
        let buffer = match event.state {
            PlayState::Buffering => BufferState::Buffering,
            PlayState::Idle | PlayState::Playing | PlayState::Paused => BufferState::Ready,
        };
        let state = self.resolve_report(
            map_sonos_state(event.state),
            buffer,
            fresh_position,
            now,
        );
        Step::one(Effect::ReportState(state))
    }

    /// Reports a track change once the playback status has been asked for.
    pub fn report_track_change(&mut self, status: Option<PlaybackStatus>, now: u128) -> (r: Step)
        ensures
            final(self)@ == after_status_bridge(
                old(self)@,
                AfterStatus::TrackChanged,
                status,
                now,
            ),
            r@ == track_changed_step(old(self)@, status, now),
    {
        match status {
            Some(status) => {
                let state = self.resolve_report(
                    map_sonos_state(status.state),
                    BufferState::Ready,
                    position_ms(status.position_millis),
                    now,
                );
                Step::one(Effect::ReportState(state))
            },
            None => Step::idle(),
        }
    }

    /// Goes on at `now` once the playback status has been asked for; `None`
    /// stands for no answer.
    pub fn on_playback_status_at(
        &mut self,
        queue_store: &QueueStore,
        after: AfterStatus,
        status: Option<PlaybackStatus>,
        now: u128,
    ) -> (r: Step)
        ensures
            final(self)@ == after_status_bridge(old(self)@, after, status, now),
            r@ == after_status_step(old(self)@, queue_store@, after, status, now),
    {
        match after {
            AfterStatus::SetState { cmd, previous_item } => {
                let position: u32 = match status {
                    Some(status) => position_ms(status.position_millis),
                    None => 0,
                };
                self.answer_set_state(queue_store, cmd, previous_item, position)
            },
            AfterStatus::Activation { volume, muted } => self.activate(volume, muted, status),
            AfterStatus::Heartbeat => self.answer_heartbeat(status, now),
            AfterStatus::PlaybackChanged(event) => self.report_playback(event, status, now),
            AfterStatus::TrackChanged => self.report_track_change(status, now),
        }
    }

    /// Goes on once the playback status has been asked for; `None` stands for
    /// no answer.
    pub fn on_playback_status(
        &mut self,
        queue_store: &QueueStore,
        after: AfterStatus,
        status: Option<PlaybackStatus>,
    ) -> (r: Step)
        ensures
            exists|now: u128|
                {
                    &&& old(self)@.clock.shows(now)
                    &&& final(self)@ == after_status_bridge(old(self)@, after, status, now)
                    &&& r@ == #[trigger] after_status_step(
                        old(self)@,
                        queue_store@,
                        after,
                        status,
                        now,
                    )
                },
    {
        let now: u128 = self.clock.now();
        self.on_playback_status_at(queue_store, after, status, now)
    }
}

} // verus!
