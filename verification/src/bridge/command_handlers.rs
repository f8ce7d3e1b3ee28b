//! Qobuz command handlers.
//!
//! Handles commands from the Qobuz app that require a response:
//! SetState (play/pause/seek/skip), SetActive, SetVolume, Heartbeat.

use crate::bridge::state::{
    extract_track_id, reported_position, resolved, track_id_in, BridgeState, BridgeView,
    CommandedState,
};
use crate::bridge::step::{
    Activation, AfterStatus, Ask, AskView, Effect, EffectView, Step, StepView,
};
use crate::cloud_queue::state::{
    find_queue_item_id, item_index, stored_queue_item, QueueState, QueueStore, QueueView,
};
use crate::connect::{
    build_renderer_state, map_sonos_state, millis, position_ms, report, sonos_playing_state,
    ActivationState, ActivationView, BufferState, Command, PlayingState, QueueRendererState,
    ReportView, SetState, SetVolume,
};
use crate::model::opt_view;
use crate::num::{bits_u32, low_i32, wrap_i32, wrap_u32};
use crate::sonos::{GroupVolume, MetadataStatus, PlaybackStatus, Track, TrackView};
use crate::text::{i32_to_string, signed_decimal};
use vstd::prelude::*;

verus! {

broadcast use vstd::string::group_string_axioms;

// ---------------------------------------------------------------------------
// SetState
// ---------------------------------------------------------------------------

/// The queue item that a playback command names.
pub open spec fn commanded_item(cmd: SetState) -> Option<i32> {
    match cmd.current_queue_item {
        Some(item) => Some(wrap_i32(item.queue_item_id as int)),
        None => None,
    }
}

/// Whether a playback command changes the track.
pub open spec fn skips(cmd: SetState, previous_item: Option<i32>) -> bool {
    commanded_item(cmd) is Some && commanded_item(cmd) != previous_item
}

/// The state that a playback command asks for, where none is named: to play.
pub open spec fn wanted_state(cmd: SetState) -> PlayingState {
    match cmd.wanted() {
        Some(state) => state,
        None => PlayingState::Playing,
    }
}

/// The bridge once a playback command has been taken note of. Before there is
/// a playback session, the item that the command names is kept to start with.
pub open spec fn commanded_bridge(s: BridgeView, cmd: SetState) -> BridgeView {
    let skip = skips(cmd, s.current_queue_item_id);
    BridgeView {
        pending_initial_item: match cmd.current_queue_item {
            Some(item) => if s.session_id is None {
                Some(
                    (
                        item.queue_item_id,
                        match cmd.current_position {
                            Some(position) => position,
                            None => 0,
                        },
                    ),
                )
            } else {
                s.pending_initial_item
            },
            None => s.pending_initial_item,
        },
        current_queue_item_id: if skip {
            commanded_item(cmd)
        } else {
            s.current_queue_item_id
        },
        current_duration_ms: if skip {
            None
        } else {
            s.current_duration_ms
        },
        ..s
    }
}

/// The skip that leads from one queue item to another: forward or back, as the
/// queue of the bridge has them; none where it does not have both.
pub open spec fn skip_effects(
    store: Map<Seq<char>, QueueView>,
    bridge_id: Seq<char>,
    from: i32,
    to: i32,
) -> Seq<EffectView> {
    if store.contains_key(bridge_id) {
        let items = store[bridge_id].items;
        match (
            item_index(items, signed_decimal(from as int)),
            item_index(items, signed_decimal(to as int)),
        ) {
            (Some(current), Some(new)) => if new > current {
                seq![EffectView::SkipNext]
            } else if new < current {
                seq![EffectView::SkipPrev]
            } else {
                Seq::empty()
            },
            _ => Seq::empty(),
        }
    } else {
        Seq::empty()
    }
}

/// What brings the player into a state.
pub open spec fn play_effects(state: Option<PlayingState>) -> Seq<EffectView> {
    match state {
        Some(PlayingState::Playing) => seq![EffectView::Play],
        Some(PlayingState::Paused) => seq![EffectView::Pause],
        Some(PlayingState::Stopped) => seq![EffectView::Stop],
        Some(PlayingState::Unknown) => Seq::empty(),
        None => Seq::empty(),
    }
}

/// What brings the player to a position.
pub open spec fn seek_effects(position: Option<u32>) -> Seq<EffectView> {
    match position {
        Some(position) => seq![EffectView::Seek(position)],
        None => Seq::empty(),
    }
}

/// What a playback command has the player do.
pub open spec fn player_effects(
    store: Map<Seq<char>, QueueView>,
    bridge_id: Seq<char>,
    cmd: SetState,
    previous_item: Option<i32>,
) -> Seq<EffectView> {
    if skips(cmd, previous_item) {
        match previous_item {
            Some(from) => skip_effects(store, bridge_id, from, commanded_item(cmd)->0),
            None => Seq::empty(),
        }
    } else {
        play_effects(cmd.wanted()) + seek_effects(cmd.current_position)
    }
}

/// The step that answers a playback command with the commanded state and a
/// position, and then, within a playback session, has the player obey.
pub open spec fn set_state_step(
    s: BridgeView,
    store: Map<Seq<char>, QueueView>,
    cmd: SetState,
    previous_item: Option<i32>,
    position_ms: u32,
) -> StepView {
    let answer = seq![
        EffectView::RespondState(
            report(
                wanted_state(cmd),
                BufferState::Ready,
                position_ms,
                s.current_duration_ms,
                s.current_queue_item_id,
                None,
            ),
        ),
    ];
    if s.session_id is Some {
        StepView {
            effects: answer + player_effects(store, s.bridge_id, cmd, previous_item),
            ask: Some(
                AskView::Performed { state: wanted_state(cmd), position_ms: cmd.current_position },
            ),
        }
    } else {
        StepView { effects: answer, ask: None }
    }
}

/// The first step of a playback command. Where the command names no position,
/// the player is asked for it.
pub open spec fn first_set_state_step(
    s: BridgeView,
    store: Map<Seq<char>, QueueView>,
    cmd: SetState,
) -> StepView {
    match cmd.current_position {
        Some(position) => set_state_step(
            commanded_bridge(s, cmd),
            store,
            cmd,
            s.current_queue_item_id,
            position,
        ),
        None => StepView::asking(
            AskView::PlaybackStatus(
                AfterStatus::SetState { cmd, previous_item: s.current_queue_item_id },
            ),
        ),
    }
}

/// The bridge once the player has been commanded.
pub open spec fn after_performed_bridge(
    s: BridgeView,
    state: PlayingState,
    position_ms: Option<u32>,
    now: u128,
) -> BridgeView {
    BridgeView { commanded: Some(CommandedState { state, position_ms, set_at: now }), ..s }
}

// ---------------------------------------------------------------------------
// Answers to commands
// ---------------------------------------------------------------------------

/// The position in an answer about playback, zero where there is none.
pub open spec fn status_position(status: Option<PlaybackStatus>) -> u32 {
    match status {
        Some(status) => millis(status.position_millis),
        None => 0,
    }
}

/// What Qobuz is told of the player, with regard to what was commanded.
pub open spec fn resolved_report(
    s: BridgeView,
    sonos_state: PlayingState,
    buffer: BufferState,
    fresh_position: u32,
    now: u128,
) -> ReportView {
    report(
        resolved(s.commanded, sonos_state, now).1,
        buffer,
        reported_position(resolved(s.commanded, sonos_state, now).0, fresh_position),
        s.current_duration_ms,
        s.current_queue_item_id,
        None,
    )
}

/// The answer to a heartbeat; none where the player gives no status.
pub open spec fn heartbeat_step(s: BridgeView, status: Option<PlaybackStatus>, now: u128) -> StepView {
    StepView {
        effects: seq![
            EffectView::RespondHeartbeat(
                match status {
                    Some(status) => Some(
                        resolved_report(
                            s,
                            sonos_playing_state(status.state),
                            BufferState::Ready,
                            millis(status.position_millis),
                            now,
                        ),
                    ),
                    None => None,
                },
            ),
        ],
        ask: None,
    }
}

/// The volume in an answer about it; half the scale, not muted, where there is
/// none.
pub open spec fn known_volume(volume: Option<GroupVolume>) -> (u32, bool) {
    match volume {
        Some(v) => (v.volume as u32, v.muted),
        None => (50, false),
    }
}

/// The bridge once the volume for an activation is known: a restored state is
/// used up.
pub open spec fn after_volume_bridge(s: BridgeView) -> BridgeView {
    if s.restored_state is Some {
        BridgeView { restored_state: None, restored_position: None, ..s }
    } else {
        s
    }
}

/// The step of an activation once the volume is known: a restored state is
/// used; without one the player is asked.
pub open spec fn after_volume_step(s: BridgeView, volume: Option<GroupVolume>) -> StepView {
    let (volume, muted) = known_volume(volume);
    match s.restored_state {
        Some(state) => StepView::asking(
            AskView::Metadata(
                Activation {
                    volume,
                    muted,
                    state,
                    position_ms: match s.restored_position {
                        Some(position) => position,
                        None => 0,
                    },
                },
            ),
        ),
        None => StepView::asking(
            AskView::PlaybackStatus(AfterStatus::Activation { volume, muted }),
        ),
    }
}

/// The step of an activation once the playback status is known.
pub open spec fn activation_step(
    volume: u32,
    muted: bool,
    status: Option<PlaybackStatus>,
) -> StepView {
    StepView::asking(
        AskView::Metadata(
            Activation {
                volume,
                muted,
                state: match status {
                    Some(status) => sonos_playing_state(status.state),
                    None => PlayingState::Stopped,
                },
                position_ms: status_position(status),
            },
        ),
    )
}

/// The Qobuz track ID of a track that Sonos names.
pub open spec fn qobuz_id(track: TrackView) -> Option<u64> {
    match track.id {
        Some(id) => track_id_in(id.object_id),
        None => None,
    }
}

/// The bridge once it knows which track the player plays.
pub open spec fn learning_track(
    s: BridgeView,
    store: Map<Seq<char>, QueueView>,
    track: TrackView,
) -> BridgeView {
    let timed = BridgeView {
        current_duration_ms: match track.duration_millis {
            Some(d) => Some(wrap_u32(d as int)),
            None => None,
        },
        ..s
    };
    match qobuz_id(track) {
        Some(id) => BridgeView {
            current_track_id: Some(id),
            current_queue_item_id: stored_queue_item(store, s.bridge_id, id),
            ..timed
        },
        None => timed,
    }
}

/// The bridge once it has been told what the player plays, if anything.
pub open spec fn learning(
    s: BridgeView,
    store: Map<Seq<char>, QueueView>,
    playing: Option<TrackView>,
) -> BridgeView {
    match playing {
        Some(track) => learning_track(s, store, track),
        None => s,
    }
}

/// The track in an answer about what the player plays.
pub open spec fn known_track(metadata: Option<Option<TrackView>>) -> Option<TrackView> {
    match metadata {
        Some(playing) => playing,
        None => None,
    }
}

/// The answer to an activation.
pub open spec fn activated_step(s: BridgeView, activation: Activation) -> StepView {
    StepView {
        effects: seq![
            EffectView::RespondActive(
                ActivationView {
                    muted: activation.muted,
                    volume: activation.volume,
                    max_quality: 4,
                    playback: report(
                        activation.state,
                        BufferState::Ready,
                        activation.position_ms,
                        s.current_duration_ms,
                        s.current_queue_item_id,
                        None,
                    ),
                },
            ),
        ],
        ask: None,
    }
}

/// The volume that a volume command sets: no more than a hundred, and zero
/// where it names none.
pub open spec fn volume_to_set(cmd: SetVolume) -> u8 {
    match cmd.volume {
        Some(volume) => if volume < 100 {
            volume as u8
        } else {
            100
        },
        None => 0,
    }
}

/// The step that sets the volume and answers the command.
pub open spec fn set_volume_step(cmd: SetVolume) -> StepView {
    StepView {
        effects: seq![
            EffectView::SetVolume(volume_to_set(cmd)),
            EffectView::RespondVolume(Some(volume_to_set(cmd) as u32)),
        ],
        ask: None,
    }
}

/// The bridge once a command has been taken note of.
pub open spec fn command_bridge(s: BridgeView, cmd: Command) -> BridgeView {
    match cmd {
        Command::SetState(cmd) => commanded_bridge(s, cmd),
        _ => s,
    }
}

/// The first step of a command.
pub open spec fn command_step(
    s: BridgeView,
    store: Map<Seq<char>, QueueView>,
    cmd: Command,
) -> StepView {
    match cmd {
        Command::SetState(cmd) => first_set_state_step(s, store, cmd),
        Command::SetActive => StepView::asking(AskView::Volume),
        Command::SetVolume(cmd) => set_volume_step(cmd),
        Command::Heartbeat => StepView::asking(AskView::PlaybackStatus(AfterStatus::Heartbeat)),
    }
}

/// Places of two queue items, where a queue has both.
fn places(queue: &QueueState, from: i32, to: i32) -> (r: Option<(usize, usize)>)
    ensures
        r is Some <==> (item_index(queue@.items, signed_decimal(from as int)) is Some
            && item_index(queue@.items, signed_decimal(to as int)) is Some),
        r matches Some(p) ==> item_index(queue@.items, signed_decimal(from as int)) == Some(
            p.0 as int,
        ) && item_index(queue@.items, signed_decimal(to as int)) == Some(p.1 as int),
{
    let from_id = i32_to_string(from);
    let to_id = i32_to_string(to);
    match (queue.get_item_index(from_id.as_str()), queue.get_item_index(to_id.as_str())) {
        (Some(current), Some(new)) => Some((current, new)),
        _ => None,
    }
}

impl BridgeState {
    /// Dispatches a command of the session.
    pub fn handle_command(&mut self, queue_store: &QueueStore, cmd: Command) -> (r: Step)
        ensures
            final(self)@ == command_bridge(old(self)@, cmd),
            r@ == command_step(old(self)@, queue_store@, cmd),
    {
        match cmd {
            Command::SetState(cmd) => self.handle_set_state(queue_store, cmd),
            Command::SetActive => self.handle_set_active(),
            Command::SetVolume(cmd) => self.handle_set_volume(cmd),
            Command::Heartbeat => self.handle_heartbeat(),
        }
    }

    /// Handles a SetState command (play/pause/seek/skip).
    pub fn handle_set_state(&mut self, queue_store: &QueueStore, cmd: SetState) -> (r: Step)
        ensures
            final(self)@ == commanded_bridge(old(self)@, cmd),
            r@ == first_set_state_step(old(self)@, queue_store@, cmd),
    {
        if self.session_id.is_none() {
            if let Some(item) = cmd.current_queue_item {
                let position: u32 = match cmd.current_position {
                    Some(position) => position,
                    None => 0,
                };
                self.pending_initial_item = Some((item.queue_item_id, position));
            }
        }
        let previous_item: Option<i32> = self.current_queue_item_id;
        if is_skip(&cmd, previous_item) {
            self.current_queue_item_id = item_of(&cmd);
            self.current_duration_ms = None;
        }
        proof {
            assert(self@ == commanded_bridge(old(self)@, cmd));
        }
        match cmd.current_position {
            Some(position) => self.answer_set_state(queue_store, cmd, previous_item, position),
            None => Step::asking(
                Ask::PlaybackStatus(AfterStatus::SetState { cmd, previous_item }),
            ),
        }
    }

    /// Answers a SetState command, and has the player obey.
    ///
    /// The answer holds the commanded state: what the player says of itself is
    /// stale before the command.
    pub fn answer_set_state(
        &self,
        queue_store: &QueueStore,
        cmd: SetState,
        previous_item: Option<i32>,
        position_ms: u32,
    ) -> (r: Step)
        ensures
            r@ == set_state_step(self@, queue_store@, cmd, previous_item, position_ms),
    {
        let state = match cmd.state() {
            Some(state) => state,
            None => PlayingState::Playing,
        };
        let mut step = Step::one(
            Effect::RespondState(
                build_renderer_state(
                    state,
                    BufferState::Ready,
                    position_ms,
                    self.current_duration_ms,
                    self.current_queue_item_id,
                    None,
                ),
            ),
        );
        let ghost answer = step@.effects;
        if self.session_id.is_some() {
            if is_skip(&cmd, previous_item) {
                match (item_of(&cmd), previous_item) {
                    (Some(to), Some(from)) => {
                        match self.skip_effect(queue_store, from, to) {
                            Some(effect) => {
                                step.add(effect);
                            },
                            None => {},
                        }
                    },
                    _ => {},
                }
            } else {
                match cmd.state() {
                    Some(PlayingState::Playing) => {
                        step.add(Effect::Play);
                    },
                    Some(PlayingState::Paused) => {
                        step.add(Effect::Pause);
                    },
                    Some(PlayingState::Stopped) => {
                        step.add(Effect::Stop);
                    },
                    Some(PlayingState::Unknown) | None => {},
                }
                if let Some(position) = cmd.current_position {
                    step.add(Effect::Seek(position));
                }
            }
            proof {
                assert(step@.effects =~= answer + player_effects(
                    queue_store@,
                    self@.bridge_id,
                    cmd,
                    previous_item,
                ));
            }
            step.ask = Some(Ask::Performed { state, position_ms: cmd.current_position });
        }
        step
    }

    /// Takes note at `now` of what the player was commanded, so that the
    /// target state is reported until the player confirms that it caught up.
    pub fn on_performed_at(&mut self, state: PlayingState, position_ms: Option<u32>, now: u128)
        ensures
            final(self)@ == after_performed_bridge(old(self)@, state, position_ms, now),
    {
        self.commanded = Some(CommandedState::new(state, position_ms, now));
    }

    /// Takes note of what the player was commanded, so that the target state
    /// is reported until the player confirms that it caught up.
    pub fn on_performed(&mut self, state: PlayingState, position_ms: Option<u32>)
        ensures
            exists|now: u128|
                {
                    &&& old(self)@.clock.shows(now)
                    &&& final(self)@ == #[trigger] after_performed_bridge(
                        old(self)@,
                        state,
                        position_ms,
                        now,
                    )
                },
    {
        let now: u128 = self.clock.now();
        self.on_performed_at(state, position_ms, now)
    }

    /// The skip that leads from one queue item to another, where the queue of
    /// this bridge tells the direction.
    fn skip_effect(&self, queue_store: &QueueStore, from: i32, to: i32) -> (r: Option<Effect>)
        ensures
            (match r {
                Some(effect) => seq![effect@],
                None => Seq::<EffectView>::empty(),
            }) == skip_effects(queue_store@, self@.bridge_id, from, to),
    {
        match queue_store.get(self.bridge_id.as_str()) {
            Some(queue) => match places(&queue, from, to) {
                Some((current, new)) => if new > current {
                    Some(Effect::SkipNext)
                } else if new < current {
                    Some(Effect::SkipPrev)
                } else {
                    None
                },
                None => None,
            },
            None => None,
        }
    }

    /// Handles a SetActive command (device activation): first the volume is
    /// wanted.
    pub fn handle_set_active(&self) -> (r: Step)
        ensures
            r@ == StepView::asking(AskView::Volume),
    {
        Step::asking(Ask::Volume)
    }

    /// Goes on with an activation once the volume has been asked for; `None`
    /// stands for no answer.
    pub fn on_volume(&mut self, volume: Option<GroupVolume>) -> (r: Step)
        ensures
            final(self)@ == after_volume_bridge(old(self)@),
            r@ == after_volume_step(old(self)@, volume),
    {
        let (volume, muted): (u32, bool) = match volume {
            Some(v) => (v.volume as u32, v.muted),
            None => (50, false),
        };
        match self.restored_state {
            Some(state) => {
                let position_ms: u32 = match self.restored_position {
                    Some(position) => position,
                    None => 0,
                };
                self.restored_state = None;
                self.restored_position = None;
                Step::asking(Ask::Metadata(Activation { volume, muted, state, position_ms }))
            },
            None => Step::asking(Ask::PlaybackStatus(AfterStatus::Activation { volume, muted })),
        }
    }

    /// Goes on with an activation once the playback status has been asked for.
    pub fn activate(&self, volume: u32, muted: bool, status: Option<PlaybackStatus>) -> (r: Step)
        ensures
            r@ == activation_step(volume, muted, status),
    {
        let activation = match status {
            Some(status) => Activation {
                volume,
                muted,
                state: map_sonos_state(status.state),
                position_ms: position_ms(status.position_millis),
            },
            None => Activation { volume, muted, state: PlayingState::Stopped, position_ms: 0 },
        };
        Step::asking(Ask::Metadata(activation))
    }

    /// Takes note of the track that the player plays.
    ///
    /// Returns its Qobuz track ID, where Sonos names one.
    pub fn learn_track(&mut self, queue_store: &QueueStore, track: &Track) -> (r: Option<u64>)
        ensures
            final(self)@ == learning_track(old(self)@, queue_store@, track@),
            r == qobuz_id(track@),
    {
        self.current_duration_ms = match track.duration_millis {
            Some(d) => Some(bits_u32(d)),
            None => None,
        };
        let id = match &track.id {
            Some(id) => extract_track_id(id.object_id.as_str()),
            None => None,
        };
        if let Some(track_id) = id {
            self.current_track_id = Some(track_id);
            self.current_queue_item_id = find_queue_item_id(
                queue_store,
                self.bridge_id.as_str(),
                track_id,
            );
        }
        id
    }

    /// Answers an activation once the player has been asked what it plays;
    /// `None` stands for no answer.
    pub fn on_metadata(
        &mut self,
        queue_store: &QueueStore,
        activation: Activation,
        metadata: &Option<MetadataStatus>,
    ) -> (r: Step)
        ensures
            final(self)@ == learning(
                old(self)@,
                queue_store@,
                known_track(opt_view(*metadata)),
            ),
            r@ == activated_step(final(self)@, activation),
    {
        if let Some(metadata) = metadata {
            if let Some(current_item) = &metadata.current_item {
                if let Some(track) = &current_item.track {
                    let _id = self.learn_track(queue_store, track);
                }
            }
        }
        Step::one(
            Effect::RespondActive(
                ActivationState {
                    muted: activation.muted,
                    volume: activation.volume,
                    max_quality: 4,
                    playback: build_renderer_state(
                        activation.state,
                        BufferState::Ready,
                        activation.position_ms,
                        self.current_duration_ms,
                        self.current_queue_item_id,
                        None,
                    ),
                },
            ),
        )
    }

    /// Handles a SetVolume command.
    pub fn handle_set_volume(&self, cmd: SetVolume) -> (r: Step)
        ensures
            r@ == set_volume_step(cmd),
    {
        let new_volume: u8 = match cmd.volume {
            Some(volume) => if volume < 100 {
                volume as u8
            } else {
                100
            },
            None => 0,
        };
        let mut step = Step::one(Effect::SetVolume(new_volume));
        step.add(Effect::RespondVolume(Some(new_volume as u32)));
        proof {
            assert(step@.effects =~= set_volume_step(cmd).effects);
        }
        step
    }

    /// Handles a Heartbeat command: the playback status is wanted.
    pub fn handle_heartbeat(&self) -> (r: Step)
        ensures
            r@ == StepView::asking(AskView::PlaybackStatus(AfterStatus::Heartbeat)),
    {
        Step::asking(Ask::PlaybackStatus(AfterStatus::Heartbeat))
    }

    /// Answers a heartbeat once the playback status has been asked for.
    pub fn answer_heartbeat(&mut self, status: Option<PlaybackStatus>, now: u128) -> (r: Step)
        ensures
            final(self)@ == (match status {
                Some(status) => old(self)@.resolving(sonos_playing_state(status.state), now),
                None => old(self)@,
            }),
            r@ == heartbeat_step(old(self)@, status, now),
    {
        match status {
            Some(status) => {
                let sonos_state = map_sonos_state(status.state);
                let fresh_position: u32 = position_ms(status.position_millis);
                let state = self.resolve_report(
                    sonos_state,
                    BufferState::Ready,
                    fresh_position,
                    now,
                );
                Step::one(Effect::RespondHeartbeat(Some(state)))
            },
            None => Step::one(Effect::RespondHeartbeat(None)),
        }
    }

    /// Makes what Qobuz is told of the player, with regard to what was
    /// commanded.
    pub fn resolve_report(
        &mut self,
        sonos_state: PlayingState,
        buffer: BufferState,
        fresh_position: u32,
        now: u128,
    ) -> (r: QueueRendererState)
        ensures
            final(self)@ == old(self)@.resolving(sonos_state, now),
            r@ == resolved_report(old(self)@, sonos_state, buffer, fresh_position, now),
    {
        let report_state = self.resolve_commanded_state_at(sonos_state, now);
        let report_position: u32 = self.resolve_report_position(fresh_position);
        build_renderer_state(
            report_state,
            buffer,
            report_position,
            self.current_duration_ms,
            self.current_queue_item_id,
            None,
        )
    }
}

/// The queue item that a playback command names.
fn item_of(cmd: &SetState) -> (r: Option<i32>)
    ensures
        r == commanded_item(*cmd),
{
    match cmd.current_queue_item {
        Some(item) => Some(low_i32(item.queue_item_id)),
        None => None,
    }
}

/// Whether a playback command changes the track.
fn is_skip(cmd: &SetState, previous_item: Option<i32>) -> (r: bool)
    ensures
        r == skips(*cmd, previous_item),
{
    match (item_of(cmd), previous_item) {
        (Some(to), Some(from)) => to != from,
        (Some(_), None) => true,
        (None, _) => false,
    }
}

} // verus!
