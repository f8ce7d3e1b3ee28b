//! What the commands of the Qobuz app come to.

use crate::bridge::command_handlers::{
    activated_step, after_performed_bridge, after_volume_bridge, after_volume_step,
    command_bridge, command_step, learning, player_effects, resolved_report, set_state_step,
    skip_effects, skips,
};
use crate::bridge::laws::{
    all_effects, complete, conversation, conversation_ends, follows, turn_after, Turn,
};
use crate::bridge::sonos_handlers::{after_status_bridge, after_status_step};
use crate::bridge::state::{
    bridge_id_of, fresh_bridge, reported_position, resolved, track_id_in, BridgeState, BridgeView,
    CommandedState,
};
use crate::bridge::step::{
    Activation, AfterStatus, Ask, AskView, Effect, EffectView, Step, StepView,
};
use crate::clock::Clock;
use crate::cloud_queue::laws::{found_item_is_the_first, is_first, item_is_found_at_its_place};
use crate::cloud_queue::state::{stored_queue_item, QueueView};
use crate::connect::{
    ActivationView, BufferState, Command, PlayingState, ReportView, SetState, SetVolume,
};
use crate::model::{opt_view, seq_view};
use crate::num::{wrap_i32, wrap_u32};
use crate::sonos::{GroupVolume, PlayState, PlaybackStatus, TrackView};
use crate::text::{
    all_digits, behind_prefix, digits_are_no_negative_number, digits_value, hex_byte,
    prefix_and_rest_make_the_text, read_unsigned, signed_decimal, unsigned_numbers_are_runs_of_digits,
};
use vstd::prelude::*;

verus! {

// ---------------------------------------------------------------------------
// What is told
// ---------------------------------------------------------------------------

/// A report in the numbers of the protocol: 0 for unknown, 1 for stopped, 2 for
/// playing and 3 for paused; 1 while buffering and 2 when all is well.
pub open spec fn told(
    state: int,
    buffer: int,
    position_ms: u32,
    duration: Option<u32>,
    item: Option<i32>,
) -> ReportView {
    ReportView {
        playing_state: Some(state as i32),
        buffer_state: Some(buffer as i32),
        position_ms: Some(position_ms),
        stamped: true,
        duration,
        queue_version: None,
        current_queue_item_id: item,
        next_queue_item_id: None,
    }
}

/// The number of the state that a player is in.
pub open spec fn player_number(state: PlayState) -> int {
    if state == PlayState::Playing {
        2
    } else if state == PlayState::Paused {
        3
    } else {
        1
    }
}

/// The number of a playing state.
pub open spec fn state_number(state: PlayingState) -> int {
    if state == PlayingState::Unknown {
        0
    } else if state == PlayingState::Stopped {
        1
    } else if state == PlayingState::Playing {
        2
    } else {
        3
    }
}

/// The milliseconds of a position, zero where there is none.
pub open spec fn ms(position: Option<i32>) -> u32 {
    match position {
        Some(p) => wrap_u32(p as int),
        None => 0,
    }
}

/// The number of the state that a playback command is answered with: the one that
/// it names, and that of playing where it names none of the four.
pub open spec fn answered_number(cmd: SetState) -> int {
    match cmd.playing_state {
        Some(number) => if 0 <= number <= 3 {
            number as int
        } else {
            2
        },
        None => 2,
    }
}

/// What the player is told for the state and position that a command names.
pub open spec fn orders(cmd: SetState) -> Seq<EffectView> {
    let state = if cmd.playing_state == Some(2i32) {
        seq![EffectView::Play]
    } else if cmd.playing_state == Some(3i32) {
        seq![EffectView::Pause]
    } else if cmd.playing_state == Some(1i32) {
        seq![EffectView::Stop]
    } else {
        Seq::empty()
    };
    match cmd.current_position {
        Some(position) => state.push(EffectView::Seek(position)),
        None => state,
    }
}

/// Whether a command names another queue item than the current one.
pub open spec fn changes_item(s: BridgeView, cmd: SetState) -> bool {
    cmd.current_queue_item matches Some(item) && s.current_queue_item_id != Some(
        wrap_i32(item.queue_item_id as int),
    )
}

/// Whether effects begin with the answer to a playback command: the commanded
/// state, all well, the commanded position where there is one, and the given
/// duration and queue item.
pub open spec fn begins_with_answer(
    effects: Seq<EffectView>,
    cmd: SetState,
    duration: Option<u32>,
    item: Option<i32>,
) -> bool {
    &&& effects.len() > 0
    &&& effects[0] matches EffectView::RespondState(answer) && answer.position_ms is Some && answer
        == told(answered_number(cmd), 2, answer.position_ms->0, duration, item)
        && (cmd.current_position is Some ==> answer.position_ms == cmd.current_position)
}

// ---------------------------------------------------------------------------
// Play, pause, stop, seek and skip
// ---------------------------------------------------------------------------

/// The effects of a conversation of a playback command are those of the one turn
/// that answers it.
proof fn lemma_answering_turn(
    s: BridgeView,
    store: Map<Seq<char>, QueueView>,
    cmd: SetState,
    turns: Seq<Turn>,
)
    requires
        conversation(turns, store),
        complete(turns),
        turns[0].bridge == command_bridge(s, Command::SetState(cmd)),
        turns[0].step == command_step(s, store, Command::SetState(cmd)),
    ensures
        cmd.current_position is Some ==> all_effects(turns) == turns[0].step.effects,
        cmd.current_position is None ==> exists|status: Option<PlaybackStatus>, now: u128|
            all_effects(turns) == #[trigger] after_status_step(
                turns[0].bridge,
                store,
                AfterStatus::SetState { cmd, previous_item: s.current_queue_item_id },
                status,
                now,
            ).effects,
{
    reveal(turn_after);
    let rest = turns.skip(1);
    conversation_ends(turns, store);
    if cmd.current_position is Some {
        lemma_last_effects(turns, store);
    } else {
        assert(turns.len() > 1);
        assert(rest[0] == turns[1]);
        assert(rest.last() == turns.last());
        let ask = AskView::PlaybackStatus(
            AfterStatus::SetState { cmd, previous_item: s.current_queue_item_id },
        );
        assert(turns[0].step.ask == Some(ask));
        assert(follows(turns[0].bridge, store, ask, turns[1].bridge, turns[1].step));
        lemma_last_effects(rest, store);
        assert(all_effects(turns) =~= turns[1].step.effects);
    }
}

/// Where a turn asks for nothing but to be told when its effects are done, no
/// effect comes behind them.
proof fn lemma_last_effects(turns: Seq<Turn>, store: Map<Seq<char>, QueueView>)
    requires
        conversation(turns, store),
        complete(turns),
        turns[0].step.ask is None || turns[0].step.ask->0 is Performed,
    ensures
        all_effects(turns) == turns[0].step.effects,
{
    reveal(turn_after);
    reveal_with_fuel(all_effects, 2);
    let none = Seq::<EffectView>::empty();
    conversation_ends(turns, store);
    let rest = turns.skip(1);
    if turns.len() == 1 {
        assert(all_effects(rest) == none);
    } else {
        assert(turns.len() == 2);
        assert(rest[0] == turns[1]);
        let ask = turns[0].step.ask->0;
        assert(follows(turns[0].bridge, store, ask, turns[1].bridge, turns[1].step));
        assert(turns[1].step == StepView::idle());
        assert(rest.skip(1).len() == 0);
        assert(all_effects(rest.skip(1)) == none);
        assert(all_effects(rest) =~= none);
    }
    assert(all_effects(turns) =~= turns[0].step.effects);
}

/// Within a playback session, a playback command that does not change the queue
/// item is answered first, and the player is then told to play, pause or stop as
/// the command names it, once, and to seek exactly where the command names a
/// position; nothing else is done.
pub proof fn player_obeys_a_command(
    s: BridgeView,
    store: Map<Seq<char>, QueueView>,
    cmd: SetState,
    turns: Seq<Turn>,
)
    requires
        s.session_id is Some,
        !changes_item(s, cmd),
        conversation(turns, store),
        complete(turns),
        turns[0].bridge == command_bridge(s, Command::SetState(cmd)),
        turns[0].step == command_step(s, store, Command::SetState(cmd)),
    ensures
        begins_with_answer(
            all_effects(turns),
            cmd,
            s.current_duration_ms,
            s.current_queue_item_id,
        ),
        all_effects(turns).skip(1) == orders(cmd),
{
    lemma_answering_turn(s, store, cmd, turns);
    assert(all_effects(turns).skip(1) =~= orders(cmd));
}

/// Within a playback session, a command for another queue item is answered with
/// that item, of unknown duration. Where the queue of the bridge has both items,
/// the player is told to skip forward exactly where the new one stands behind the
/// current one, and back where it stands before it; otherwise the player is told
/// nothing.
pub proof fn player_skips_towards_the_item(
    s: BridgeView,
    store: Map<Seq<char>, QueueView>,
    cmd: SetState,
    turns: Seq<Turn>,
    current: int,
    new: int,
)
    requires
        s.session_id is Some,
        changes_item(s, cmd),
        conversation(turns, store),
        complete(turns),
        turns[0].bridge == command_bridge(s, Command::SetState(cmd)),
        turns[0].step == command_step(s, store, Command::SetState(cmd)),
    ensures
        ({
            let wanted = wrap_i32(cmd.current_queue_item->0.queue_item_id as int);
            let told_player = all_effects(turns).skip(1);
            let items = store[s.bridge_id].items;
            let to = signed_decimal(wanted as int);
            &&& begins_with_answer(all_effects(turns), cmd, None, Some(wanted))
            &&& s.current_queue_item_id is None ==> told_player == Seq::<EffectView>::empty()
            &&& !store.contains_key(s.bridge_id) ==> told_player == Seq::<EffectView>::empty()
            &&& s.current_queue_item_id matches Some(previous) ==> {
                let from = signed_decimal(previous as int);
                &&& store.contains_key(s.bridge_id) && is_first(items, from, current) && is_first(
                    items,
                    to,
                    new,
                ) ==> told_player == (if new > current {
                    seq![EffectView::SkipNext]
                } else if new < current {
                    seq![EffectView::SkipPrev]
                } else {
                    Seq::empty()
                })
                &&& (forall|k: int|
                    0 <= k < items.len() ==> (#[trigger] items[k]).id != from) || (forall|k: int|
                    0 <= k < items.len() ==> (#[trigger] items[k]).id != to) ==> told_player
                    == Seq::<EffectView>::empty()
            }
        }),
{
    let wanted = wrap_i32(cmd.current_queue_item->0.queue_item_id as int);
    let items = store[s.bridge_id].items;
    let to = signed_decimal(wanted as int);
    lemma_answering_turn(s, store, cmd, turns);
    found_item_is_the_first(items, to);
    if is_first(items, to, new) {
        item_is_found_at_its_place(items, new);
    }
    match s.current_queue_item_id {
        Some(previous) => {
            let from = signed_decimal(previous as int);
            found_item_is_the_first(items, from);
            if is_first(items, from, current) {
                item_is_found_at_its_place(items, current);
            }
        },
        None => {},
    }
    let told_player = all_effects(turns).skip(1);
    let none = Seq::<EffectView>::empty();
    assert(told_player.len() == 0 ==> told_player =~= none);
    assert(told_player.len() == 1 ==> told_player =~= seq![all_effects(turns)[1]]);
}

/// Before there is a playback session, a playback command is answered, and that
/// is all.
pub proof fn command_before_the_session_is_answered(
    s: BridgeView,
    store: Map<Seq<char>, QueueView>,
    cmd: SetState,
    turns: Seq<Turn>,
)
    requires
        s.session_id is None,
        conversation(turns, store),
        complete(turns),
        turns[0].bridge == command_bridge(s, Command::SetState(cmd)),
        turns[0].step == command_step(s, store, Command::SetState(cmd)),
    ensures
        all_effects(turns).len() == 1,
        begins_with_answer(
            all_effects(turns),
            cmd,
            if changes_item(s, cmd) {
                None
            } else {
                s.current_duration_ms
            },
            if changes_item(s, cmd) {
                Some(wrap_i32(cmd.current_queue_item->0.queue_item_id as int))
            } else {
                s.current_queue_item_id
            },
        ),
{
    lemma_answering_turn(s, store, cmd, turns);
}

/// A playback command that names no position asks the player for its status and
/// is answered with the position of that status, or with zero without one; within
/// a playback session it is taken note of once it has been carried out.
pub proof fn missing_position_is_asked_for(
    s: BridgeView,
    store: Map<Seq<char>, QueueView>,
    cmd: SetState,
    later: BridgeView,
    status: Option<PlaybackStatus>,
    now: u128,
)
    ensures
        ({
            let after = AfterStatus::SetState { cmd, previous_item: s.current_queue_item_id };
            let first = command_step(s, store, Command::SetState(cmd));
            let step = after_status_step(later, store, after, status, now);
            &&& cmd.current_position is None ==> first.effects.len() == 0 && first.ask == Some(
                AskView::PlaybackStatus(after),
            )
            &&& step.effects.len() > 0
            &&& step.effects[0] matches EffectView::RespondState(answer) && answer.position_ms
                == Some(
                match status {
                    Some(status) => ms(status.position_millis),
                    None => 0,
                },
            )
            &&& cmd.current_position is Some ==> (first.ask == (if s.session_id is Some {
                Some(
                    AskView::Performed {
                        state: number_state(answered_number(cmd)),
                        position_ms: cmd.current_position,
                    },
                )
            } else {
                None
            }))
            &&& step.ask == (if later.session_id is Some {
                Some(
                    AskView::Performed {
                        state: number_state(answered_number(cmd)),
                        position_ms: cmd.current_position,
                    },
                )
            } else {
                None
            })
            &&& after_status_bridge(later, after, status, now) == later
        }),
{
}

/// The step that answers a playback command tells the commanded state, the given
/// position, and the duration and queue item of the bridge. Within a playback
/// session the player is then told what the command names where it does not change
/// the queue item, and nothing where there is no queue item to change from; the
/// command is taken note of once that is done. Without a session nothing follows.
pub proof fn answer_is_made_of_command_and_position(
    s: BridgeView,
    store: Map<Seq<char>, QueueView>,
    cmd: SetState,
    previous_item: Option<i32>,
    position_ms: u32,
)
    ensures
        ({
            let step = set_state_step(s, store, cmd, previous_item, position_ms);
            let told_player = step.effects.skip(1);
            let item = match cmd.current_queue_item {
                Some(item) => Some(wrap_i32(item.queue_item_id as int)),
                None => None,
            };
            &&& step.effects.len() > 0
            &&& step.effects[0] == EffectView::RespondState(
                told(
                    answered_number(cmd),
                    2,
                    position_ms,
                    s.current_duration_ms,
                    s.current_queue_item_id,
                ),
            )
            &&& s.session_id is None ==> step.effects.len() == 1 && step.ask is None
            &&& s.session_id is Some ==> {
                &&& step.ask == Some(
                    AskView::Performed {
                        state: number_state(answered_number(cmd)),
                        position_ms: cmd.current_position,
                    },
                )
                &&& item is None || item == previous_item ==> told_player == orders(cmd)
                &&& item is Some && previous_item is None ==> told_player == Seq::<
                    EffectView,
                >::empty()
                &&& item is Some && previous_item is Some && item != previous_item ==> told_player
                    == skip_effects(store, s.bridge_id, previous_item->0, item->0)
            }
        }),
{
    let step = set_state_step(s, store, cmd, previous_item, position_ms);
    if s.session_id is Some {
        assert(step.effects.skip(1) =~= player_effects(store, s.bridge_id, cmd, previous_item));
        assert(!skips(cmd, previous_item) ==> step.effects.skip(1) =~= orders(cmd));
    }
}

/// From one queue item to another the player is told to skip forward where the
/// queue has the new one further back, and back where it has it further in front;
/// where the queue lacks one of the two, or there is none, it is told nothing.
pub proof fn skip_goes_by_the_places(
    store: Map<Seq<char>, QueueView>,
    bridge_id: Seq<char>,
    from: i32,
    to: i32,
    current: int,
    new: int,
)
    ensures
        ({
            let items = store[bridge_id].items;
            let skip = skip_effects(store, bridge_id, from, to);
            let old_id = signed_decimal(from as int);
            let new_id = signed_decimal(to as int);
            &&& !store.contains_key(bridge_id) ==> skip.len() == 0
            &&& store.contains_key(bridge_id) ==> {
                &&& is_first(items, old_id, current) && is_first(items, new_id, new) ==> {
                    &&& new > current ==> skip == seq![EffectView::SkipNext]
                    &&& new < current ==> skip == seq![EffectView::SkipPrev]
                    &&& new == current ==> skip.len() == 0
                }
                &&& (forall|k: int| 0 <= k < items.len() ==> (#[trigger] items[k]).id != old_id)
                    || (forall|k: int| 0 <= k < items.len() ==> (#[trigger] items[k]).id != new_id)
                    ==> skip.len() == 0
            }
        }),
{
    let items = store[bridge_id].items;
    let old_id = signed_decimal(from as int);
    let new_id = signed_decimal(to as int);
    found_item_is_the_first(items, old_id);
    found_item_is_the_first(items, new_id);
    if is_first(items, old_id, current) {
        item_is_found_at_its_place(items, current);
    }
    if is_first(items, new_id, new) {
        item_is_found_at_its_place(items, new);
    }
}

/// The playing state with a number.
pub open spec fn number_state(number: int) -> PlayingState {
    if number == 0 {
        PlayingState::Unknown
    } else if number == 1 {
        PlayingState::Stopped
    } else if number == 2 {
        PlayingState::Playing
    } else {
        PlayingState::Paused
    }
}

/// A playback command changes the current item, whose duration is then unknown,
/// where it names another one; before there is a playback session, the item that
/// it names is kept to start with, at the position that it names or at the
/// beginning. Nothing else of the bridge changes, and nothing at all by another
/// command.
pub proof fn command_changes_the_item_only(s: BridgeView, cmd: SetState, other: Command)
    requires
        !(other is SetState),
    ensures
        command_bridge(s, Command::SetState(cmd)) == (BridgeView {
            current_queue_item_id: if changes_item(s, cmd) {
                Some(wrap_i32(cmd.current_queue_item->0.queue_item_id as int))
            } else {
                s.current_queue_item_id
            },
            current_duration_ms: if changes_item(s, cmd) {
                None
            } else {
                s.current_duration_ms
            },
            pending_initial_item: if s.session_id is None && cmd.current_queue_item is Some {
                Some(
                    (
                        cmd.current_queue_item->0.queue_item_id,
                        if cmd.current_position is Some {
                            cmd.current_position->0
                        } else {
                            0
                        },
                    ),
                )
            } else {
                s.pending_initial_item
            },
            ..s
        }),
        command_bridge(s, other) == s,
{
}

/// A command that has been carried out is remembered with its state, its position
/// and the moment, in place of an earlier one; nothing else changes.
pub proof fn carried_out_command_is_remembered(
    s: BridgeView,
    state: PlayingState,
    position_ms: Option<u32>,
    now: u128,
)
    ensures
        ({
            let after = after_performed_bridge(s, state, position_ms, now);
            &&& after.commanded matches Some(c) && c.state == state && c.position_ms == position_ms
                && c.set_at == now
            &&& after == (BridgeView { commanded: after.commanded, ..s })
        }),
{
}

// ---------------------------------------------------------------------------
// Heartbeats
// ---------------------------------------------------------------------------

/// Whether a command still stands in for what the player says: no more than five
/// seconds have passed since it, and the player is not in the commanded state half
/// a second or more after it.
pub open spec fn stands(cmd: CommandedState, number: int, now: u128) -> bool {
    &&& now - cmd.set_at <= 5_000_000_000
    &&& !(state_number(cmd.state) == number && now - cmd.set_at >= 500_000_000)
}

/// A command is too old more than five seconds after it, and can be confirmed from
/// half a second after it on.
pub proof fn commands_age_by_the_clock(cmd: CommandedState, now: u128)
    ensures
        cmd.expired(now) <==> now > cmd.set_at + 5_000_000_000,
        cmd.confirmable(now) <==> now >= cmd.set_at + 500_000_000,
{
}

/// Whatever state the player is in, it is reported as it is where no command stands,
/// and else as commanded; the position of a standing command takes the place of the
/// fresh one. Duration and queue item are those of the bridge.
pub proof fn report_is_resolved(
    s: BridgeView,
    state: PlayingState,
    buffer: BufferState,
    fresh_position: u32,
    now: u128,
)
    ensures
        ({
            let report = resolved_report(s, state, buffer, fresh_position, now);
            let bridge = s.resolving(state, now);
            let buffer_number = if buffer == BufferState::Buffering {
                1
            } else {
                2
            };
            &&& s.commanded is None || !stands(s.commanded->0, state_number(state), now) ==> {
                &&& report == told(
                    state_number(state),
                    buffer_number,
                    fresh_position,
                    s.current_duration_ms,
                    s.current_queue_item_id,
                )
                &&& bridge == (BridgeView { commanded: None, ..s })
                &&& resolved(s.commanded, state, now) == (None::<CommandedState>, state)
            }
            &&& s.commanded matches Some(cmd) ==> stands(cmd, state_number(state), now) ==> {
                &&& report == told(
                    state_number(cmd.state),
                    buffer_number,
                    if cmd.position_ms is Some {
                        cmd.position_ms->0
                    } else {
                        fresh_position
                    },
                    s.current_duration_ms,
                    s.current_queue_item_id,
                )
                &&& bridge == s
                &&& resolved(s.commanded, state, now) == (Some(cmd), cmd.state)
            }
        }),
{
}

/// Where no command stands, a heartbeat for which the player gives its status is
/// answered with the state and position of that status, and the bridge forgets the
/// command; where one stands, it is answered with the commanded state and, where
/// there is one, the commanded position, and the bridge stays as it is. Duration
/// and queue item are those of the bridge.
pub proof fn heartbeat_tells_the_player_or_the_command(
    s: BridgeView,
    store: Map<Seq<char>, QueueView>,
    status: PlaybackStatus,
    now: u128,
)
    ensures
        ({
            let number = player_number(status.state);
            let after = after_status_bridge(s, AfterStatus::Heartbeat, Some(status), now);
            let step = after_status_step(s, store, AfterStatus::Heartbeat, Some(status), now);
            &&& step.ask is None
            &&& (s.commanded is None || !stands(s.commanded->0, number, now)) ==> {
                &&& step.effects == seq![
                    EffectView::RespondHeartbeat(
                        Some(
                            told(
                                number,
                                2,
                                ms(status.position_millis),
                                s.current_duration_ms,
                                s.current_queue_item_id,
                            ),
                        ),
                    ),
                ]
                &&& after == (BridgeView { commanded: None, ..s })
            }
            &&& s.commanded matches Some(cmd) ==> stands(cmd, number, now) ==> {
                &&& step.effects == seq![
                    EffectView::RespondHeartbeat(
                        Some(
                            told(
                                state_number(cmd.state),
                                2,
                                if cmd.position_ms is Some {
                                    cmd.position_ms->0
                                } else {
                                    ms(status.position_millis)
                                },
                                s.current_duration_ms,
                                s.current_queue_item_id,
                            ),
                        ),
                    ),
                ]
                &&& after == s
            }
        }),
{
}

/// A heartbeat asks the player for its status; without one it is answered with
/// nothing, and the bridge stays as it is.
pub proof fn heartbeat_without_status_tells_nothing(
    s: BridgeView,
    store: Map<Seq<char>, QueueView>,
    now: u128,
)
    ensures
        command_step(s, store, Command::Heartbeat) == (StepView {
            effects: Seq::empty(),
            ask: Some(AskView::PlaybackStatus(AfterStatus::Heartbeat)),
        }),
        after_status_step(s, store, AfterStatus::Heartbeat, None, now) == (StepView {
            effects: seq![EffectView::RespondHeartbeat(None)],
            ask: None,
        }),
        after_status_bridge(s, AfterStatus::Heartbeat, None, now) == s,
{
}

/// The position that is reported is that of the standing command where it has one,
/// and else the fresh one.
pub proof fn commanded_position_is_reported(cmd: CommandedState, fresh: u32)
    ensures
        reported_position(None, fresh) == fresh,
        cmd.position_ms is None ==> reported_position(Some(cmd), fresh) == fresh,
        cmd.position_ms matches Some(position) ==> reported_position(Some(cmd), fresh)
            == position,
{
}

// ---------------------------------------------------------------------------
// Volume
// ---------------------------------------------------------------------------

/// A volume command sets the volume that it names, a hundred for a larger one and
/// zero for none, and is answered with the volume that was set.
pub proof fn volume_command_sets_and_tells_the_volume(
    s: BridgeView,
    store: Map<Seq<char>, QueueView>,
    cmd: SetVolume,
    volume: u8,
)
    requires
        cmd.volume is None ==> volume == 0,
        cmd.volume matches Some(v) ==> (v <= 100 ==> volume == v) && (v > 100 ==> volume == 100),
    ensures
        command_step(s, store, Command::SetVolume(cmd)) == (StepView {
            effects: seq![
                EffectView::SetVolume(volume),
                EffectView::RespondVolume(Some(volume as u32)),
            ],
            ask: None,
        }),
{
}

// ---------------------------------------------------------------------------
// Activation
// ---------------------------------------------------------------------------

/// An activation first asks for the volume: without an answer it is taken as fifty
/// and not muted. A restored state is used up, with its position or the beginning;
/// without one the player is asked for its status.
pub proof fn activation_uses_a_restored_state(
    s: BridgeView,
    store: Map<Seq<char>, QueueView>,
    answer: Option<GroupVolume>,
    volume: u32,
    muted: bool,
)
    requires
        answer is None ==> volume == 50 && !muted,
        answer matches Some(v) ==> volume == v.volume && muted == v.muted,
    ensures
        command_step(s, store, Command::SetActive) == (StepView {
            effects: Seq::empty(),
            ask: Some(AskView::Volume),
        }),
        s.restored_state is None ==> {
            &&& after_volume_step(s, answer) == (StepView {
                effects: Seq::empty(),
                ask: Some(AskView::PlaybackStatus(AfterStatus::Activation { volume, muted })),
            })
            &&& after_volume_bridge(s) == s
        },
        s.restored_state matches Some(state) ==> {
            &&& after_volume_step(s, answer) == (StepView {
                effects: Seq::empty(),
                ask: Some(
                    AskView::Metadata(
                        Activation {
                            volume,
                            muted,
                            state,
                            position_ms: if s.restored_position is Some {
                                s.restored_position->0
                            } else {
                                0
                            },
                        },
                    ),
                ),
            })
            &&& after_volume_bridge(s) == (BridgeView {
                restored_state: None,
                restored_position: None,
                ..s
            })
        },
{
}

/// Without a restored state, an activation goes by the status of the player:
/// without an answer it is taken as stopped at the beginning.
pub proof fn activation_goes_by_the_player(
    s: BridgeView,
    store: Map<Seq<char>, QueueView>,
    volume: u32,
    muted: bool,
    status: Option<PlaybackStatus>,
    now: u128,
)
    ensures
        ({
            let after = AfterStatus::Activation { volume, muted };
            &&& after_status_bridge(s, after, status, now) == s
            &&& after_status_step(s, store, after, status, now).effects.len() == 0
            &&& after_status_step(s, store, after, status, now).ask matches Some(
                AskView::Metadata(a),
            ) && a.volume == volume && a.muted == muted && state_number(a.state) == (match status {
                Some(status) => player_number(status.state),
                None => 1,
            }) && a.position_ms == (match status {
                Some(status) => ms(status.position_millis),
                None => 0,
            })
        }),
{
}

/// An activation is answered with its volume, its state and position, the highest
/// quality, and the duration and queue item that the bridge knows.
pub proof fn activation_is_answered(s: BridgeView, a: Activation)
    ensures
        activated_step(s, a) == (StepView {
            effects: seq![
                EffectView::RespondActive(
                    ActivationView {
                        muted: a.muted,
                        volume: a.volume,
                        max_quality: 4,
                        playback: told(
                            state_number(a.state),
                            2,
                            a.position_ms,
                            s.current_duration_ms,
                            s.current_queue_item_id,
                        ),
                    },
                ),
            ],
            ask: None,
        }),
{
}

// ---------------------------------------------------------------------------
// Tracks
// ---------------------------------------------------------------------------

/// The track ID in a Sonos name is the number behind `track:`; a name without
/// `track:` in front or without a number behind it holds none.
pub proof fn track_id_stands_behind_track(name: Seq<char>, digits: Seq<char>)
    ensures
        all_digits(digits) && digits_value(digits) <= u64::MAX ==> track_id_in(
            "track:"@ + digits,
        ) == Some(digits_value(digits) as u64),
        behind_prefix(name, "track:"@) is None ==> track_id_in(name) is None,
        behind_prefix(name, "track:"@) matches Some(rest) ==> read_unsigned(
            rest,
            u64::MAX as int,
        ) is None ==> track_id_in(name) is None,
        track_id_in(name) matches Some(id) ==> exists|rest: Seq<char>| #[trigger]
            read_unsigned(rest, u64::MAX as int) == Some(id as int) && name == "track:"@ + rest,
{
    prefix_and_rest_make_the_text("track:"@, digits, name);
    unsigned_numbers_are_runs_of_digits(digits, u64::MAX as int);
    if track_id_in(name) is Some {
        let rest = behind_prefix(name, "track:"@)->0;
        unsigned_numbers_are_runs_of_digits(rest, u64::MAX as int);
        digits_are_no_negative_number(rest);
        if rest.len() > 0 {
            digits_are_no_negative_number(rest.skip(1));
        }
        assert(read_unsigned(rest, u64::MAX as int) == Some(track_id_in(name)->0 as int));
    }
}

/// A bridge that is told which track the player plays takes over its duration,
/// and, where Sonos names a Qobuz track, that track and the item of its own queue
/// that holds it. Told of no track it learns nothing. Nothing else changes.
pub proof fn played_track_is_learned(
    s: BridgeView,
    store: Map<Seq<char>, QueueView>,
    track: TrackView,
)
    ensures
        learning(s, store, None) == s,
        learning(s, store, Some(track)).current_duration_ms == (match track.duration_millis {
            Some(d) => Some(wrap_u32(d as int)),
            None => None,
        }),
        track.id is None || track_id_in(track.id->0.object_id) is None ==> learning(
            s,
            store,
            Some(track),
        ) == (BridgeView {
            current_duration_ms: learning(s, store, Some(track)).current_duration_ms,
            ..s
        }),
        track.id matches Some(id) ==> (track_id_in(id.object_id) matches Some(track_id)
            ==> learning(s, store, Some(track)) == (BridgeView {
            current_duration_ms: learning(s, store, Some(track)).current_duration_ms,
            current_track_id: Some(track_id),
            current_queue_item_id: stored_queue_item(store, s.bridge_id, track_id),
            ..s
        })),
{
}

// ---------------------------------------------------------------------------
// Bridges and steps
// ---------------------------------------------------------------------------

/// A new bridge has the identity that it is given, the first four bytes of the
/// UUID of its device as its ID, and nothing else.
pub proof fn new_bridge_has_its_identity_only(
    name: Seq<char>,
    uuid: Seq<u8>,
    app_id: Seq<char>,
    base_url: Seq<char>,
    clock: Clock,
)
    requires
        uuid.len() == 16,
    ensures
        ({
            let s = fresh_bridge(name, bridge_id_of(uuid), app_id, base_url, clock);
            &&& s.name == name
            &&& s.app_id == app_id
            &&& s.base_url == base_url
            &&& s.clock == clock
            &&& s.bridge_id == hex_byte(uuid[0]) + hex_byte(uuid[1]) + hex_byte(uuid[2])
                + hex_byte(uuid[3])
            &&& s.service_account_number is None && s.session_id is None
            &&& s.qobuz_client is None && s.current_queue_item_id is None
            &&& s.current_track_id is None && s.current_duration_ms is None
            &&& s.pending_initial_item is None && s.commanded is None
            &&& s.restored_state is None && s.restored_position is None
        }),
{
}

/// What is seen of a bridge is what it holds.
pub proof fn bridges_are_seen_as_they_are(b: BridgeState)
    ensures
        b@.name == b.name@,
        b@.bridge_id == b.bridge_id@,
        b@.app_id == b.app_id@,
        b@.base_url == b.cloud_queue_config.base_url@,
        b@.clock == b.clock,
        b@.service_account_number == b.service_account_number,
        b@.session_id == opt_view(b.session_id),
        b@.qobuz_client == opt_view(b.qobuz_client),
        b@.current_queue_item_id == b.current_queue_item_id,
        b@.current_track_id == b.current_track_id,
        b@.current_duration_ms == b.current_duration_ms,
        b@.pending_initial_item == b.pending_initial_item,
        b@.commanded == b.commanded,
        b@.restored_state == b.restored_state,
        b@.restored_position == b.restored_position,
{
}

/// What is seen of an effect is what it is.
pub proof fn effects_are_seen_as_they_are(e: Effect)
    ensures
        e matches Effect::RespondState(r) ==> e@ == EffectView::RespondState(r@),
        e matches Effect::RespondActive(a) ==> e@ == EffectView::RespondActive(a@),
        e matches Effect::RespondVolume(v) ==> e@ == EffectView::RespondVolume(v),
        e matches Effect::RespondHeartbeat(r) ==> e@ == EffectView::RespondHeartbeat(opt_view(r)),
        e is Play ==> e@ is Play,
        e is Pause ==> e@ is Pause,
        e is Stop ==> e@ is Stop,
        e is SkipNext ==> e@ is SkipNext,
        e is SkipPrev ==> e@ is SkipPrev,
        e matches Effect::Seek(position) ==> e@ == EffectView::Seek(position),
        e matches Effect::SetVolume(v) ==> e@ == EffectView::SetVolume(v),
        e matches Effect::ReportState(r) ==> e@ == EffectView::ReportState(r@),
        e matches Effect::ReportVolume(v) ==> e@ == EffectView::ReportVolume(v),
        e matches Effect::ReportMuted(m) ==> e@ == EffectView::ReportMuted(m),
{
}

/// What is seen of a step and its question is what they are.
pub proof fn steps_are_seen_as_they_are(step: Step, ask: Ask)
    ensures
        step@.effects == seq_view(step.effects@),
        step@.ask == opt_view(step.ask),
        ask matches Ask::PlaybackStatus(after) ==> ask@ == AskView::PlaybackStatus(after),
        ask is Volume ==> ask@ is Volume,
        ask matches Ask::Metadata(a) ==> ask@ == AskView::Metadata(a),
        ask matches Ask::Tracks { client, after } ==> ask@ == (AskView::Tracks {
            client: client@,
            after,
        }),
        ask matches Ask::CreateSession { request, plan, track_metadata } ==> ask@ == (
        AskView::CreateSession {
            request: request@,
            plan,
            track_metadata: opt_view(track_metadata),
        }),
        ask matches Ask::LoadCloudQueue { session_id, request, after } ==> ask@ == (
        AskView::LoadCloudQueue { session_id: session_id@, request: request@, after }),
        ask matches Ask::User { client } ==> ask@ == (AskView::User { client: client@ }),
        ask matches Ask::Account { client, public_id, service_id, service_name } ==> ask@ == (
        AskView::Account {
            client: client@,
            public_id: public_id@,
            service_id: service_id@,
            service_name: service_name@,
        }),
        ask matches Ask::Performed { state, position_ms } ==> ask@ == (AskView::Performed {
            state,
            position_ms,
        }),
{
}

} // verus!
