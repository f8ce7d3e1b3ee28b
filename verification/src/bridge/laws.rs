//! What holds of a bridge as a whole.

use crate::bridge::command_handlers::{
    activated_step, after_performed_bridge, after_volume_bridge, after_volume_step,
    command_bridge, command_step, commanded_bridge, heartbeat_step, learning, player_effects,
    set_state_step, skip_effects, status_position, volume_to_set, wanted_state,
};
use crate::bridge::event_loop::{event_outcome, BridgeEvent};
use crate::bridge::notification_handlers::{
    after_account_bridge, after_load_bridge, after_tracks_bridge, after_tracks_step,
    after_user_bridge, after_user_step, named_track,
    notification_outcome, queue_state_outcome, session_step, signed_id, start_plan, unsigned_id,
    version_line,
};
use crate::bridge::sonos_handlers::{after_status_bridge, after_status_step};
use crate::bridge::state::{
    bridge_id_of, queue_url_of, resolved, start_load, track_id_in, BridgeView, CommandedState,
    COMMANDED_MIN_AGE,
};
use crate::bridge::step::{
    AfterLoad, AfterStatus, AfterTracks, AskView, EffectView, LoadPlan, StepView,
};
use crate::cloud_queue::laws::{
    appending_keeps_queues_well_formed, found_item_is_the_first,
    inserting_keeps_queues_well_formed, new_queues_are_well_formed,
    removing_keeps_queues_well_formed, reordering_keeps_queues_well_formed, well_formed,
    well_formed_item,
};
use crate::cloud_queue::state::{insertion_index, playable, QueueView};
use crate::cloud_queue::types::{track_object_id, ItemView};
use crate::connect::{
    millis, report, BufferState, Command, Notification, PlayingState, QueueTrackRef,
    QueueVersion, SessionEvent, SetState, SetVolume,
};
use crate::qobuz_api::TrackMetadataView;
use crate::sonos::{GroupVolume, PlaybackStatus, TrackView};
use crate::text::{decimal, decimal_reads_back, hex_byte, hex_byte_is_injective};
use vstd::prelude::*;

verus! {

// ---------------------------------------------------------------------------
// Conversations
// ---------------------------------------------------------------------------

/// An answer to a question, with the reading of the clock where one is taken.
#[allow(inconsistent_fields)]
pub enum AnswerView {
    PlaybackStatus { status: Option<PlaybackStatus>, now: u128 },
    Volume { volume: Option<GroupVolume> },
    Metadata { playing: Option<TrackView> },
    Tracks { fetched: Option<Seq<TrackMetadataView>> },
    Session { session_id: Option<Seq<char>> },
    Loaded { loaded: bool, now: u128 },
    User { public_id: Option<Seq<char>> },
    Account { account: Option<Option<u32>> },
    Performed { now: u128 },
}

/// A bridge and the step that it takes.
pub struct Turn {
    pub bridge: BridgeView,
    pub step: StepView,
}

/// The turn that an answer to a question leads to; none where the answer is to
/// another question.
#[verifier::opaque]
pub open spec fn turn_after(
    s: BridgeView,
    store: Map<Seq<char>, QueueView>,
    ask: AskView,
    answer: AnswerView,
) -> Option<Turn> {
    match (ask, answer) {
        (AskView::PlaybackStatus(after), AnswerView::PlaybackStatus { status, now }) => Some(
            Turn {
                bridge: after_status_bridge(s, after, status, now),
                step: after_status_step(s, store, after, status, now),
            },
        ),
        (AskView::Volume, AnswerView::Volume { volume }) => Some(
            Turn { bridge: after_volume_bridge(s), step: after_volume_step(s, volume) },
        ),
        (AskView::Metadata(activation), AnswerView::Metadata { playing }) => Some(
            Turn {
                bridge: learning(s, store, playing),
                step: activated_step(learning(s, store, playing), activation),
            },
        ),
        (AskView::Tracks { after, .. }, AnswerView::Tracks { fetched }) => Some(
            Turn {
                bridge: after_tracks_bridge(s, after, fetched),
                step: after_tracks_step(s, after, fetched),
            },
        ),
        (
            AskView::CreateSession { plan, track_metadata, .. },
            AnswerView::Session { session_id },
        ) => Some(
            Turn { bridge: s, step: session_step(s, plan, track_metadata, session_id) },
        ),
        (AskView::LoadCloudQueue { session_id, after, .. }, AnswerView::Loaded { loaded, now }) => {
            Some(
                Turn {
                    bridge: after_load_bridge(s, after, session_id, loaded, now),
                    step: StepView::idle(),
                },
            )
        },
        (AskView::User { client }, AnswerView::User { public_id }) => Some(
            Turn {
                bridge: after_user_bridge(s, client, public_id),
                step: after_user_step(client, public_id),
            },
        ),
        (AskView::Account { client, .. }, AnswerView::Account { account }) => Some(
            Turn { bridge: after_account_bridge(s, client, account), step: StepView::idle() },
        ),
        (AskView::Performed { state, position_ms }, AnswerView::Performed { now }) => Some(
            Turn {
                bridge: after_performed_bridge(s, state, position_ms, now),
                step: StepView::idle(),
            },
        ),
        _ => None,
    }
}

/// Whether an answer to a question can lead a bridge into another state, with
/// the given step to come.
pub open spec fn follows(
    s: BridgeView,
    store: Map<Seq<char>, QueueView>,
    ask: AskView,
    next: BridgeView,
    step: StepView,
) -> bool {
    exists|answer: AnswerView| #[trigger]
        turn_after(s, store, ask, answer) == Some(Turn { bridge: next, step })
}

/// Whether each turn follows the one before it.
pub open spec fn conversation(turns: Seq<Turn>, store: Map<Seq<char>, QueueView>) -> bool
    decreases turns.len(),
{
    &&& turns.len() > 0
    &&& turns.len() > 1 ==> {
        &&& turns[0].step.ask matches Some(ask) && follows(
            turns[0].bridge,
            store,
            ask,
            turns[1].bridge,
            turns[1].step,
        )
        &&& conversation(turns.skip(1), store)
    }
}

/// Whether the last turn asks nothing more.
pub open spec fn complete(turns: Seq<Turn>) -> bool {
    turns.last().step.ask is None
}

/// All effects of a conversation, in order.
pub open spec fn all_effects(turns: Seq<Turn>) -> Seq<EffectView>
    decreases turns.len(),
{
    if turns.len() == 0 {
        Seq::empty()
    } else {
        turns[0].step.effects + all_effects(turns.skip(1))
    }
}

/// An answer to a command, by its kind.
pub enum Reply {
    State,
    Active,
    Volume,
    Heartbeat,
}

/// The answer that an effect gives to a command, if any.
pub open spec fn reply_of(effect: EffectView) -> Option<Reply> {
    match effect {
        EffectView::RespondState(_) => Some(Reply::State),
        EffectView::RespondActive(_) => Some(Reply::Active),
        EffectView::RespondVolume(_) => Some(Reply::Volume),
        EffectView::RespondHeartbeat(_) => Some(Reply::Heartbeat),
        _ => None,
    }
}

/// The answers among effects, in order.
pub open spec fn replies(effects: Seq<EffectView>) -> Seq<Reply>
    decreases effects.len(),
{
    if effects.len() == 0 {
        Seq::empty()
    } else {
        match reply_of(effects.last()) {
            Some(reply) => replies(effects.drop_last()).push(reply),
            None => replies(effects.drop_last()),
        }
    }
}

/// The kind of answer that a command is owed.
pub open spec fn reply_to(cmd: Command) -> Reply {
    match cmd {
        Command::SetState(_) => Reply::State,
        Command::SetActive => Reply::Active,
        Command::SetVolume(_) => Reply::Volume,
        Command::Heartbeat => Reply::Heartbeat,
    }
}

/// The answers that are still owed while a question is open.
pub open spec fn owed(ask: Option<AskView>) -> Seq<Reply> {
    match ask {
        Some(AskView::PlaybackStatus(AfterStatus::SetState { .. })) => seq![Reply::State],
        Some(AskView::PlaybackStatus(AfterStatus::Activation { .. })) => seq![Reply::Active],
        Some(AskView::PlaybackStatus(AfterStatus::Heartbeat)) => seq![Reply::Heartbeat],
        Some(AskView::Volume) => seq![Reply::Active],
        Some(AskView::Metadata(_)) => seq![Reply::Active],
        _ => Seq::empty(),
    }
}

/// How many more turns a question can lead to.
pub open spec fn turns_left(ask: Option<AskView>) -> nat {
    match ask {
        None => 0,
        Some(AskView::PlaybackStatus(AfterStatus::SetState { .. })) => 2,
        Some(AskView::PlaybackStatus(AfterStatus::Activation { .. })) => 2,
        Some(AskView::PlaybackStatus(_)) => 1,
        Some(AskView::Volume) => 3,
        Some(AskView::Metadata(_)) => 1,
        Some(AskView::Tracks { after: AfterTracks::Target(_), .. }) => 4,
        Some(AskView::Tracks { after: AfterTracks::Load(_), .. }) => 3,
        Some(AskView::CreateSession { .. }) => 2,
        Some(AskView::LoadCloudQueue { .. }) => 1,
        Some(AskView::User { .. }) => 2,
        Some(AskView::Account { .. }) => 1,
        Some(AskView::Performed { .. }) => 1,
    }
}

/// The answers among two rows of effects are those among the first and then
/// those among the second.
pub proof fn replies_of_both(a: Seq<EffectView>, b: Seq<EffectView>)
    ensures
        replies(a + b) == replies(a) + replies(b),
    decreases b.len(),
{
    if b.len() == 0 {
        assert(a + b =~= a);
        assert(replies(a) + replies(b) =~= replies(a));
    } else {
        replies_of_both(a, b.drop_last());
        assert((a + b).drop_last() =~= a + b.drop_last());
        assert((a + b).last() == b.last());
        assert(replies(a + b) =~= replies(a) + replies(b));
    }
}

proof fn lemma_one_effect(effect: EffectView)
    ensures
        replies(seq![effect]) == (match reply_of(effect) {
            Some(reply) => seq![reply],
            None => Seq::<Reply>::empty(),
        }),
{
    let one = seq![effect];
    assert(one.drop_last() =~= Seq::<EffectView>::empty());
    assert(replies(one.drop_last()) =~= Seq::<Reply>::empty());
    assert(replies(one) =~= (match reply_of(effect) {
        Some(reply) => seq![reply],
        None => Seq::<Reply>::empty(),
    }));
}

/// What the player is told to do answers no command.
proof fn lemma_player_effects_are_no_replies(effects: Seq<EffectView>)
    requires
        forall|i: int| 0 <= i < effects.len() ==> reply_of(#[trigger] effects[i]) is None,
    ensures
        replies(effects) == Seq::<Reply>::empty(),
    decreases effects.len(),
{
    if effects.len() > 0 {
        let rest = effects.drop_last();
        assert forall|i: int| 0 <= i < rest.len() implies reply_of(#[trigger] rest[i]) is None by {
            assert(rest[i] == effects[i]);
        }
        lemma_player_effects_are_no_replies(rest);
        assert(effects.last() == effects[effects.len() - 1]);
    }
}

proof fn lemma_set_state_replies(
    s: BridgeView,
    store: Map<Seq<char>, QueueView>,
    cmd: SetState,
    previous_item: Option<i32>,
    position_ms: u32,
)
    ensures
        ({
            let step = set_state_step(s, store, cmd, previous_item, position_ms);
            &&& replies(step.effects) == seq![Reply::State]
            &&& owed(step.ask) == Seq::<Reply>::empty()
            &&& turns_left(step.ask) <= 1
        }),
{
    let step = set_state_step(s, store, cmd, previous_item, position_ms);
    let answer = EffectView::RespondState(
        report(
            wanted_state(cmd),
            BufferState::Ready,
            position_ms,
            s.current_duration_ms,
            s.current_queue_item_id,
            None,
        ),
    );
    lemma_one_effect(answer);
    if s.session_id is Some {
        let told = player_effects(store, s.bridge_id, cmd, previous_item);
        lemma_player_effects_are_no_replies(told);
        replies_of_both(seq![answer], told);
        assert(seq![Reply::State] + Seq::<Reply>::empty() =~= seq![Reply::State]);
    }
}

/// Each turn gives an answer to a command or leaves it owed, neither twice,
/// and leaves fewer turns to come.
pub proof fn turns_keep_account(
    s: BridgeView,
    store: Map<Seq<char>, QueueView>,
    ask: AskView,
    next: BridgeView,
    step: StepView,
)
    requires
        follows(s, store, ask, next, step),
    ensures
        replies(step.effects) + owed(step.ask) == owed(Some(ask)),
        turns_left(step.ask) < turns_left(Some(ask)),
{
    reveal(turn_after);
    let none = Seq::<Reply>::empty();
    assert(replies(Seq::<EffectView>::empty()) =~= none);
    assert(none + none =~= none);
    assert(none + seq![Reply::State] =~= seq![Reply::State]);
    assert(none + seq![Reply::Active] =~= seq![Reply::Active]);
    assert(none + seq![Reply::Heartbeat] =~= seq![Reply::Heartbeat]);
    assert(seq![Reply::State] + none =~= seq![Reply::State]);
    assert(seq![Reply::Active] + none =~= seq![Reply::Active]);
    assert(seq![Reply::Heartbeat] + none =~= seq![Reply::Heartbeat]);
    if step.effects.len() == 1 {
        assert(step.effects =~= seq![step.effects[0]]);
        lemma_one_effect(step.effects[0]);
    }
    match ask {
        AskView::PlaybackStatus(AfterStatus::SetState { cmd, previous_item }) => {
            let answer = choose|answer: AnswerView| #[trigger]
                turn_after(s, store, ask, answer) == Some(Turn { bridge: next, step });
            let status = answer->PlaybackStatus_status;
            lemma_set_state_replies(
                s,
                store,
                cmd,
                previous_item,
                status_position(status),
            );
        },
        _ => {},
    }
}

/// A complete conversation gives every answer that its first turn gives or
/// owes, each once, and no other.
pub proof fn conversation_settles_what_is_owed(turns: Seq<Turn>, store: Map<Seq<char>, QueueView>)
    requires
        conversation(turns, store),
        complete(turns),
    ensures
        replies(all_effects(turns)) == replies(turns[0].step.effects) + owed(turns[0].step.ask),
    decreases turns.len(),
{
    let rest = turns.skip(1);
    replies_of_both(turns[0].step.effects, all_effects(rest));
    if turns.len() == 1 {
        assert(rest =~= Seq::<Turn>::empty());
        assert(replies(Seq::<EffectView>::empty()) =~= Seq::<Reply>::empty());
        assert(owed(turns[0].step.ask) =~= Seq::<Reply>::empty());
    } else {
        assert(rest[0] == turns[1]);
        assert(rest.last() == turns.last());
        turns_keep_account(
            turns[0].bridge,
            store,
            turns[0].step.ask->0,
            turns[1].bridge,
            turns[1].step,
        );
        conversation_settles_what_is_owed(rest, store);
    }
}

/// A conversation has no more turns than its first question allows for.
pub proof fn conversation_ends(turns: Seq<Turn>, store: Map<Seq<char>, QueueView>)
    requires
        conversation(turns, store),
    ensures
        turns.len() <= turns_left(turns[0].step.ask) + 1,
        turns.len() <= 5,
    decreases turns.len(),
{
    if turns.len() > 1 {
        let rest = turns.skip(1);
        assert(rest[0] == turns[1]);
        turns_keep_account(
            turns[0].bridge,
            store,
            turns[0].step.ask->0,
            turns[1].bridge,
            turns[1].step,
        );
        conversation_ends(rest, store);
    }
}

/// Every command is answered exactly once, with the kind of answer that it is
/// owed, whatever the world outside answers meanwhile.
pub proof fn every_command_is_answered_once(
    s: BridgeView,
    store: Map<Seq<char>, QueueView>,
    cmd: Command,
    turns: Seq<Turn>,
)
    requires
        conversation(turns, store),
        complete(turns),
        turns[0].bridge == command_bridge(s, cmd),
        turns[0].step == command_step(s, store, cmd),
    ensures
        replies(all_effects(turns)) == seq![reply_to(cmd)],
{
    let step = command_step(s, store, cmd);
    let none = Seq::<Reply>::empty();
    conversation_settles_what_is_owed(turns, store);
    assert(replies(Seq::<EffectView>::empty()) =~= none);
    match cmd {
        Command::SetState(set) => {
            match set.current_position {
                Some(position) => {
                    lemma_set_state_replies(
                        commanded_bridge(s, set),
                        store,
                        set,
                        s.current_queue_item_id,
                        position,
                    );
                },
                None => {},
            }
        },
        Command::SetVolume(set) => {
            let effects = step.effects;
            assert(effects =~= seq![effects[0]] + seq![effects[1]]);
            replies_of_both(seq![effects[0]], seq![effects[1]]);
            lemma_one_effect(effects[0]);
            lemma_one_effect(effects[1]);
        },
        _ => {},
    }
    assert(replies(all_effects(turns)) =~= seq![reply_to(cmd)]);
}

/// Events that are no commands are never answered.
pub proof fn only_commands_are_answered(
    s: BridgeView,
    store: Map<Seq<char>, QueueView>,
    event: BridgeEvent,
    turns: Seq<Turn>,
    later_store: Map<Seq<char>, QueueView>,
)
    requires
        !(event matches BridgeEvent::Session(SessionEvent::Command(_))),
        conversation(turns, later_store),
        complete(turns),
        turns[0].step == event_outcome(s, store, event).step,
    ensures
        replies(all_effects(turns)) == Seq::<Reply>::empty(),
{
    let none = Seq::<Reply>::empty();
    let step = turns[0].step;
    conversation_settles_what_is_owed(turns, later_store);
    assert(replies(Seq::<EffectView>::empty()) =~= none);
    assert(none + none =~= none);
    if step.effects.len() == 0 {
        assert(step.effects =~= Seq::<EffectView>::empty());
    } else {
        lemma_player_effects_are_no_replies(step.effects);
    }
    assert(owed(step.ask) =~= none);
}

// ---------------------------------------------------------------------------
// Frames
// ---------------------------------------------------------------------------

/// Whether two states are of the same bridge, with the same clock running.
pub open spec fn same_bridge(s: BridgeView, t: BridgeView) -> bool {
    &&& s.name == t.name
    &&& s.bridge_id == t.bridge_id
    &&& s.app_id == t.app_id
    &&& s.base_url == t.base_url
    &&& s.clock == t.clock
}

/// Whether two stores have the same queues for all bridges but one.
pub open spec fn same_for_others(
    store: Map<Seq<char>, QueueView>,
    later: Map<Seq<char>, QueueView>,
    bridge_id: Seq<char>,
) -> bool {
    forall|id: Seq<char>|
        id != bridge_id ==> {
            &&& #[trigger] later.contains_key(id) <==> store.contains_key(id)
            &&& store.contains_key(id) ==> later[id] == store[id]
        }
}

/// No event changes who the bridge is or restarts its clock, nor does one
/// change the queue of another bridge.
pub proof fn events_stay_within_the_bridge(
    s: BridgeView,
    store: Map<Seq<char>, QueueView>,
    event: BridgeEvent,
)
    ensures
        same_bridge(s, event_outcome(s, store, event).bridge),
        same_for_others(store, event_outcome(s, store, event).store, s.bridge_id),
{
}

/// No answer changes who the bridge is or restarts its clock.
pub proof fn answers_stay_within_the_bridge(
    s: BridgeView,
    store: Map<Seq<char>, QueueView>,
    ask: AskView,
    next: BridgeView,
    step: StepView,
)
    requires
        follows(s, store, ask, next, step),
    ensures
        same_bridge(s, next),
{
    reveal(turn_after);
}

/// Devices whose UUIDs differ in the first four bytes have different bridge
/// IDs, and so different queue URLs.
pub proof fn bridge_ids_tell_devices_apart(base_url: Seq<char>, a: Seq<u8>, b: Seq<u8>)
    requires
        a.len() == 16,
        b.len() == 16,
        bridge_id_of(a) == bridge_id_of(b) || queue_url_of(base_url, bridge_id_of(a))
            == queue_url_of(base_url, bridge_id_of(b)),
    ensures
        forall|i: int| 0 <= i < 4 ==> a[i] == b[i],
{
    let x = bridge_id_of(a);
    let y = bridge_id_of(b);
    assert(x.len() == 8 && y.len() == 8);
    if x != y {
        let p = queue_url_of(base_url, x);
        let q = queue_url_of(base_url, y);
        let from = (base_url + "/queues/"@).len() as int;
        assert(p.subrange(from, from + 8) =~= x);
        assert(q.subrange(from, from + 8) =~= y);
    }
    assert forall|i: int| 0 <= i < 4 implies a[i] == b[i] by {
        assert(x.subrange(2 * i, 2 * i + 2) =~= hex_byte(a[i]));
        assert(y.subrange(2 * i, 2 * i + 2) =~= hex_byte(b[i]));
        hex_byte_is_injective(a[i], b[i]);
    }
}

// ---------------------------------------------------------------------------
// Commanded state
// ---------------------------------------------------------------------------

/// A command is reported until the player confirms it or it is too old: a
/// state that differs from it, or one that comes too early to be a
/// confirmation, is not reported.
pub proof fn command_is_reported_until_confirmed(
    cmd: CommandedState,
    sonos_state: PlayingState,
    now: u128,
)
    requires
        !cmd.expired(now),
        !(cmd.state == sonos_state && cmd.confirmable(now)),
    ensures
        resolved(Some(cmd), sonos_state, now) == (Some(cmd), cmd.state),
{
}

/// Once the player confirms the command, or the command is too old, what the
/// player says is reported, and the command is forgotten.
pub proof fn player_is_reported_once_command_is_over(
    cmd: CommandedState,
    sonos_state: PlayingState,
    now: u128,
)
    requires
        cmd.expired(now) || (cmd.state == sonos_state && cmd.confirmable(now)),
    ensures
        resolved(Some(cmd), sonos_state, now) == (None::<CommandedState>, sonos_state),
{
}

/// Something that the player was found in, and when.
pub struct Sighting {
    pub state: PlayingState,
    pub at: u128,
}

/// The override that is left after a row of sightings.
pub open spec fn override_after(
    commanded: Option<CommandedState>,
    sightings: Seq<Sighting>,
) -> Option<CommandedState>
    decreases sightings.len(),
{
    if sightings.len() == 0 {
        commanded
    } else {
        resolved(
            override_after(commanded, sightings.drop_last()),
            sightings.last().state,
            sightings.last().at,
        ).0
    }
}

/// The state that each of a row of sightings leads Qobuz to be told.
pub open spec fn reported_states(
    commanded: Option<CommandedState>,
    sightings: Seq<Sighting>,
) -> Seq<PlayingState>
    decreases sightings.len(),
{
    if sightings.len() == 0 {
        Seq::empty()
    } else {
        reported_states(commanded, sightings.drop_last()).push(
            resolved(
                override_after(commanded, sightings.drop_last()),
                sightings.last().state,
                sightings.last().at,
            ).1,
        )
    }
}

/// Transient states do not flicker: while no sighting is an old enough match
/// and none comes too late, Qobuz is told the commanded state each time.
pub proof fn transient_states_do_not_flicker(cmd: CommandedState, sightings: Seq<Sighting>)
    requires
        forall|i: int|
            0 <= i < sightings.len() ==> {
                &&& !cmd.expired((#[trigger] sightings[i]).at)
                &&& !(cmd.state == sightings[i].state && cmd.confirmable(sightings[i].at))
            },
    ensures
        override_after(Some(cmd), sightings) == Some(cmd),
        reported_states(Some(cmd), sightings).len() == sightings.len(),
        forall|i: int|
            0 <= i < sightings.len() ==> #[trigger] reported_states(Some(cmd), sightings)[i]
                == cmd.state,
    decreases sightings.len(),
{
    if sightings.len() > 0 {
        let rest = sightings.drop_last();
        assert forall|i: int| 0 <= i < rest.len() implies !cmd.expired((#[trigger] rest[i]).at)
            && !(cmd.state == rest[i].state && cmd.confirmable(rest[i].at)) by {
            assert(rest[i] == sightings[i]);
        }
        transient_states_do_not_flicker(cmd, rest);
        assert(sightings.last() == sightings[sightings.len() - 1]);
        assert forall|i: int| 0 <= i < sightings.len() implies #[trigger] reported_states(
            Some(cmd),
            sightings,
        )[i] == cmd.state by {
            if i < rest.len() {
                assert(reported_states(Some(cmd), sightings)[i] == reported_states(
                    Some(cmd),
                    rest,
                )[i]);
            }
        }
    }
}

/// Once there is no override, every sighting is reported as it is.
pub proof fn without_command_the_player_is_reported(sightings: Seq<Sighting>)
    ensures
        override_after(None, sightings) is None,
        reported_states(None, sightings).len() == sightings.len(),
        forall|i: int|
            0 <= i < sightings.len() ==> #[trigger] reported_states(None, sightings)[i]
                == sightings[i].state,
    decreases sightings.len(),
{
    if sightings.len() > 0 {
        let rest = sightings.drop_last();
        without_command_the_player_is_reported(rest);
        assert forall|i: int| 0 <= i < sightings.len() implies #[trigger] reported_states(
            None,
            sightings,
        )[i] == sightings[i].state by {
            if i < rest.len() {
                assert(reported_states(None, sightings)[i] == reported_states(None, rest)[i]);
                assert(rest[i] == sightings[i]);
            }
        }
    }
}

/// A heartbeat soon after a playback command is answered with the commanded
/// state and, where the command named one, the commanded position, whatever
/// the player says.
pub proof fn heartbeat_after_command_reports_the_command(
    s: BridgeView,
    cmd: SetState,
    commanded_at: u128,
    status: PlaybackStatus,
    now: u128,
)
    requires
        commanded_at <= now < commanded_at + COMMANDED_MIN_AGE,
    ensures
        ({
            let commanded = after_performed_bridge(
                s,
                wanted_state(cmd),
                cmd.current_position,
                commanded_at,
            );
            heartbeat_step(commanded, Some(status), now).effects == seq![
                EffectView::RespondHeartbeat(
                    Some(
                        report(
                            wanted_state(cmd),
                            BufferState::Ready,
                            match cmd.current_position {
                                Some(position) => position,
                                None => millis(status.position_millis),
                            },
                            s.current_duration_ms,
                            s.current_queue_item_id,
                            None,
                        ),
                    ),
                ),
            ]
        }),
{
}

/// Within a playback session, a playback command that has been carried out is
/// remembered with its state and position, so that it can be reported.
pub proof fn obeyed_command_is_remembered(
    s: BridgeView,
    store: Map<Seq<char>, QueueView>,
    cmd: SetState,
    turns: Seq<Turn>,
)
    requires
        s.session_id is Some,
        conversation(turns, store),
        complete(turns),
        turns[0].bridge == command_bridge(s, Command::SetState(cmd)),
        turns[0].step == command_step(s, store, Command::SetState(cmd)),
    ensures
        turns.last().bridge.commanded matches Some(commanded) && commanded.state == wanted_state(
            cmd,
        ) && commanded.position_ms == cmd.current_position,
{
    reveal(turn_after);
    let rest = turns.skip(1);
    conversation_ends(turns, store);
    assert(turns.len() > 1);
    assert(rest[0] == turns[1]);
    if cmd.current_position is None {
        assert(conversation(rest, store));
        assert(rest.len() > 1);
        assert(rest[1] == turns[2]);
        assert(turns.last() == turns[2]);
    } else {
        assert(turns.last() == turns[1]);
    }
}

// ---------------------------------------------------------------------------
// Tracks, queues and sessions
// ---------------------------------------------------------------------------

/// The Sonos name of a track gives back its track ID.
pub proof fn track_name_reads_back(track_id: u64)
    ensures
        track_id_in(track_object_id(track_id)) == Some(track_id),
{
    reveal_strlit("track:");
    let name = track_object_id(track_id);
    let digits = decimal(track_id as nat);
    assert(name.take("track:"@.len() as int) =~= "track:"@);
    assert(name.skip("track:"@.len() as int) =~= digits);
    decimal_reads_back(track_id as nat, u64::MAX as int);
}

/// When the player plays an item of a well-formed queue, the bridge learns the
/// track of that item.
pub proof fn queued_tracks_are_recognised(
    s: BridgeView,
    store: Map<Seq<char>, QueueView>,
    item: ItemView,
)
    requires
        well_formed_item(item),
    ensures
        learning(s, store, Some(item.track)).current_track_id == Some(item.track_id),
{
    track_name_reads_back(item.track_id);
}

/// A restored state is used for one activation: the next one asks the player.
pub proof fn restored_state_is_used_once(
    s: BridgeView,
    first: Option<GroupVolume>,
    second: Option<GroupVolume>,
)
    ensures
        after_volume_bridge(s).restored_state is None,
        after_volume_step(after_volume_bridge(s), second).ask matches Some(
            AskView::PlaybackStatus(AfterStatus::Activation { .. }),
        ),
        s.restored_state matches Some(state) ==> (after_volume_step(s, first).ask matches Some(
            AskView::Metadata(activation),
        ) && activation.state == state),
{
}

/// Going back where one came from takes the opposite skip.
pub proof fn skips_are_opposite(
    store: Map<Seq<char>, QueueView>,
    bridge_id: Seq<char>,
    from: i32,
    to: i32,
)
    ensures
        skip_effects(store, bridge_id, from, to) == seq![EffectView::SkipNext] <==> skip_effects(
            store,
            bridge_id,
            to,
            from,
        ) == seq![EffectView::SkipPrev],
{
    let next = seq![EffectView::SkipNext];
    let prev = seq![EffectView::SkipPrev];
    let none = Seq::<EffectView>::empty();
    assert(next[0] != prev[0]);
    assert(next.len() == 1 && prev.len() == 1 && none.len() == 0);
}

/// The volume that is set is on the scale of the player, and is the commanded
/// one where that is.
pub proof fn volume_is_on_the_scale(cmd: SetVolume)
    ensures
        volume_to_set(cmd) <= 100,
        cmd.volume matches Some(v) ==> v <= 100 ==> volume_to_set(cmd) == v,
{
}

/// The place that a playback command names before there is a playback session
/// is where the first queue is loaded.
pub proof fn first_queue_starts_where_commanded(
    s: BridgeView,
    store: Map<Seq<char>, QueueView>,
    cmd: SetState,
    version: Option<QueueVersion>,
    tracks: Seq<QueueTrackRef>,
)
    requires
        s.session_id is None,
        s.service_account_number is Some,
        cmd.current_queue_item is Some,
        tracks.len() > 0,
    ensures
        ({
            let commanded = commanded_bridge(s, cmd);
            let outcome = queue_state_outcome(commanded, store, version, tracks);
            let item = cmd.current_queue_item->0;
            exists|plan: LoadPlan|
                {
                    &&& #[trigger] start_load(outcome.bridge, plan) == outcome.step
                    &&& plan.queue_item_id == item.queue_item_id
                    &&& plan.position_ms == (match cmd.current_position {
                        Some(position) => position,
                        None => 0,
                    })
                    &&& named_track(tracks, item.queue_item_id) matches Some(id) ==> plan.track_id
                        == id
                }
        }),
{
    let commanded = commanded_bridge(s, cmd);
    let outcome = queue_state_outcome(commanded, store, version, tracks);
    let sn = s.service_account_number->0;
    let plan = start_plan(commanded, tracks, sn);
    assert(start_load(outcome.bridge, plan) == outcome.step);
}

/// A bridge with a playback session never opens another one: the queue is
/// loaded into the session that it has.
pub proof fn session_is_reused(
    s: BridgeView,
    plan: LoadPlan,
    fetched: Option<Seq<TrackMetadataView>>,
)
    requires
        s.session_id is Some,
    ensures
        start_load(s, plan).ask matches Some(ask) && !(ask is CreateSession),
        after_tracks_step(s, AfterTracks::Load(plan), fetched).ask matches Some(
            AskView::LoadCloudQueue { session_id, after, .. },
        ) && session_id == s.session_id->0 && after == AfterLoad::Reload,
{
}

/// A playback session becomes the session of the bridge only when the queue
/// has been loaded into it.
pub proof fn session_is_kept_once_loaded(
    s: BridgeView,
    store: Map<Seq<char>, QueueView>,
    ask: AskView,
    next: BridgeView,
    step: StepView,
)
    requires
        follows(s, store, ask, next, step),
        next.session_id != s.session_id,
    ensures
        ask matches AskView::LoadCloudQueue { session_id, after, .. } && after
            == AfterLoad::FirstLoad && next.session_id == Some(session_id),
{
    reveal(turn_after);
}

/// A registration ends with the new client stored, whether or not the user and
/// the account could be found, and without an answer about the account its
/// number is as before.
pub proof fn registration_stores_the_client(
    s: BridgeView,
    store: Map<Seq<char>, QueueView>,
    client: Map<Seq<char>, Seq<char>>,
    turns: Seq<Turn>,
)
    requires
        conversation(turns, store),
        complete(turns),
        turns[0] == (Turn { bridge: s, step: StepView::asking(AskView::User { client }) }),
    ensures
        turns.last().bridge.qobuz_client == Some(client),
        turns.len() == 2 ==> turns.last().bridge.service_account_number
            == s.service_account_number,
        all_effects(turns).len() == 0,
{
    reveal(turn_after);
    let rest = turns.skip(1);
    conversation_ends(turns, store);
    assert(conversation(rest, store));
    assert(rest[0] == turns[1]);
    if turns.len() > 2 {
        let tail = rest.skip(1);
        assert(rest[1] == turns[2]);
        assert(tail[0] == turns[2]);
        assert(turns.last() == turns[2]);
        assert(tail.skip(1) =~= Seq::<Turn>::empty());
        assert(all_effects(tail) =~= turns[2].step.effects + all_effects(tail.skip(1)));
    } else {
        assert(turns.last() == turns[1]);
        assert(rest.skip(1) =~= Seq::<Turn>::empty());
    }
    assert(all_effects(rest) =~= turns[1].step.effects + all_effects(rest.skip(1)));
}

/// No notification makes a queue ill-formed.
pub proof fn notifications_keep_queues_well_formed(
    s: BridgeView,
    store: Map<Seq<char>, QueueView>,
    n: Notification,
)
    requires
        forall|id: Seq<char>| #[trigger] store.contains_key(id) ==> well_formed(store[id].items),
    ensures
        forall|id: Seq<char>| #[trigger]
            notification_outcome(s, store, n).store.contains_key(id) ==> well_formed(
                notification_outcome(s, store, n).store[id].items,
            ),
{
    let items = store[s.bridge_id].items;
    match n {
        Notification::QueueState(msg) => {
            if s.service_account_number is Some {
                new_queues_are_well_formed(playable(msg.tracks@), s.service_account_number->0);
            }
        },
        Notification::QueueLoadTracks(msg) => {
            if s.service_account_number is Some {
                new_queues_are_well_formed(playable(msg.tracks@), s.service_account_number->0);
            }
        },
        Notification::QueueTracksAdded(msg) => {
            if s.service_account_number is Some && store.contains_key(s.bridge_id) {
                appending_keeps_queues_well_formed(
                    items,
                    msg.tracks@,
                    s.service_account_number->0,
                );
            }
        },
        Notification::QueueTracksInserted(msg) => {
            if s.service_account_number is Some && store.contains_key(s.bridge_id) {
                match signed_id(msg.insert_after) {
                    Some(id) => found_item_is_the_first(items, id),
                    None => {},
                }
                inserting_keeps_queues_well_formed(
                    items,
                    insertion_index(items, signed_id(msg.insert_after)),
                    msg.tracks@,
                    s.service_account_number->0,
                );
            }
        },
        Notification::QueueTracksRemoved(msg) => {
            if store.contains_key(s.bridge_id) {
                removing_keeps_queues_well_formed(items, msg.queue_item_ids@);
            }
        },
        Notification::QueueTracksReordered(msg) => {
            if store.contains_key(s.bridge_id) {
                reordering_keeps_queues_well_formed(
                    items,
                    msg.queue_item_ids@,
                    unsigned_id(msg.insert_after),
                );
            }
        },
        _ => {},
    }
}

/// The queue version that a notification brings, where it is about a queue.
pub open spec fn notified_version(n: Notification) -> Option<Option<QueueVersion>> {
    match n {
        Notification::QueueState(msg) => Some(msg.queue_version),
        Notification::QueueLoadTracks(msg) => Some(msg.queue_version),
        Notification::QueueTracksAdded(msg) => Some(msg.queue_version),
        Notification::QueueTracksInserted(msg) => Some(msg.queue_version),
        Notification::QueueTracksRemoved(msg) => Some(msg.queue_version),
        Notification::QueueTracksReordered(msg) => Some(msg.queue_version),
        _ => None,
    }
}

/// A bridge that has an account and a queue serves its queue with the version
/// that the last notification about it brought.
pub proof fn notified_version_is_served(
    s: BridgeView,
    store: Map<Seq<char>, QueueView>,
    n: Notification,
)
    requires
        s.service_account_number is Some,
        store.contains_key(s.bridge_id),
        notified_version(n) is Some,
    ensures
        notification_outcome(s, store, n).store.contains_key(s.bridge_id),
        notification_outcome(s, store, n).store[s.bridge_id].version == version_line(
            notified_version(n)->0,
        ),
{
}

} // verus!
