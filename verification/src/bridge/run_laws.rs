//! What holds of a bridge over a whole run of events.

use crate::bridge::event_loop::{event_outcome, BridgeEvent};
use crate::bridge::laws::{
    all_effects, complete, conversation, every_command_is_answered_once, follows,
    only_commands_are_answered, replies, replies_of_both, reply_to, turn_after, AnswerView, Reply,
    Turn,
};
use crate::bridge::state::BridgeView;
use crate::bridge::step::{AfterLoad, AskView, EffectView, StepView};
use crate::cloud_queue::state::QueueView;
use crate::connect::SessionEvent;
use vstd::prelude::*;

verus! {

// ---------------------------------------------------------------------------
// Runs
// ---------------------------------------------------------------------------

/// An event and the answers that the bridge gets while it handles the event.
pub struct Happening {
    pub event: BridgeEvent,
    pub answers: Seq<AnswerView>,
}

/// The turns that a step leads to with the given answers, one after another.
pub open spec fn turns_with(
    s: BridgeView,
    store: Map<Seq<char>, QueueView>,
    step: StepView,
    answers: Seq<AnswerView>,
) -> Seq<Turn>
    decreases answers.len(),
{
    let turn = Turn { bridge: s, step };
    if step.ask is Some && answers.len() > 0 {
        match turn_after(s, store, step.ask->0, answers[0]) {
            Some(next) => seq![turn] + turns_with(next.bridge, store, next.step, answers.skip(1)),
            None => seq![turn],
        }
    } else {
        seq![turn]
    }
}

/// The first turn in which a bridge handles an event.
#[verifier::opaque]
pub open spec fn first_turn(
    s: BridgeView,
    store: Map<Seq<char>, QueueView>,
    event: BridgeEvent,
) -> Turn {
    let outcome = event_outcome(s, store, event);
    Turn { bridge: outcome.bridge, step: outcome.step }
}

/// The queues once a bridge has handled an event.
#[verifier::opaque]
pub open spec fn store_after(
    s: BridgeView,
    store: Map<Seq<char>, QueueView>,
    event: BridgeEvent,
) -> Map<Seq<char>, QueueView> {
    event_outcome(s, store, event).store
}

/// The turns in which a bridge handles an event.
pub open spec fn event_turns(
    s: BridgeView,
    store: Map<Seq<char>, QueueView>,
    happening: Happening,
) -> Seq<Turn> {
    let first = first_turn(s, store, happening.event);
    let later = store_after(s, store, happening.event);
    turns_with(first.bridge, later, first.step, happening.answers)
}

/// The questions of turns, in order.
pub open spec fn all_asks(turns: Seq<Turn>) -> Seq<AskView>
    decreases turns.len(),
{
    if turns.len() == 0 {
        Seq::empty()
    } else {
        match turns[0].step.ask {
            Some(ask) => seq![ask] + all_asks(turns.skip(1)),
            None => all_asks(turns.skip(1)),
        }
    }
}

/// Where a run leads: the bridge and the queues at its end, and all effects and
/// questions on the way.
pub struct RunView {
    pub bridge: BridgeView,
    pub store: Map<Seq<char>, QueueView>,
    pub effects: Seq<EffectView>,
    pub asks: Seq<AskView>,
}

/// A run: each event is handled when the one before it has been handled.
pub open spec fn run(
    s: BridgeView,
    store: Map<Seq<char>, QueueView>,
    happenings: Seq<Happening>,
) -> RunView
    decreases happenings.len(),
{
    if happenings.len() == 0 {
        RunView { bridge: s, store, effects: Seq::empty(), asks: Seq::empty() }
    } else {
        let before = run(s, store, happenings.drop_last());
        let turns = event_turns(before.bridge, before.store, happenings.last());
        RunView {
            bridge: turns.last().bridge,
            store: store_after(before.bridge, before.store, happenings.last().event),
            effects: before.effects + all_effects(turns),
            asks: before.asks + all_asks(turns),
        }
    }
}

/// Whether in a run every question is answered.
pub open spec fn all_answered(
    s: BridgeView,
    store: Map<Seq<char>, QueueView>,
    happenings: Seq<Happening>,
) -> bool
    decreases happenings.len(),
{
    happenings.len() > 0 ==> {
        let before = run(s, store, happenings.drop_last());
        &&& all_answered(s, store, happenings.drop_last())
        &&& complete(event_turns(before.bridge, before.store, happenings.last()))
    }
}

/// The answers that the commands of a run are owed, in order.
pub open spec fn replies_owed(happenings: Seq<Happening>) -> Seq<Reply>
    decreases happenings.len(),
{
    if happenings.len() == 0 {
        Seq::empty()
    } else {
        match happenings.last().event {
            BridgeEvent::Session(SessionEvent::Command(cmd)) => replies_owed(
                happenings.drop_last(),
            ).push(reply_to(cmd)),
            _ => replies_owed(happenings.drop_last()),
        }
    }
}

/// Handling a row of events is handling its first part and then, from where
/// that leads, the rest: nothing but the state of the bridge and the queues is
/// carried over. So a row of events is handled event by event.
pub proof fn events_are_handled_one_by_one(
    s: BridgeView,
    store: Map<Seq<char>, QueueView>,
    first: Seq<Happening>,
    rest: Seq<Happening>,
)
    ensures
        ({
            let middle = run(s, store, first);
            let end = run(middle.bridge, middle.store, rest);
            run(s, store, first + rest) == (RunView {
                bridge: end.bridge,
                store: end.store,
                effects: middle.effects + end.effects,
                asks: middle.asks + end.asks,
            })
        }),
    decreases rest.len(),
{
    let middle = run(s, store, first);
    if rest.len() == 0 {
        assert(first + rest =~= first);
        assert(middle.effects + Seq::<EffectView>::empty() =~= middle.effects);
        assert(middle.asks + Seq::<AskView>::empty() =~= middle.asks);
    } else {
        events_are_handled_one_by_one(s, store, first, rest.drop_last());
        assert((first + rest).drop_last() =~= first + rest.drop_last());
        assert((first + rest).last() == rest.last());
        let end = run(middle.bridge, middle.store, rest);
        assert(run(s, store, first + rest).effects =~= middle.effects + end.effects);
        assert(run(s, store, first + rest).asks =~= middle.asks + end.asks);
    }
}

/// A run of one event has the effects and questions of that event's turns, and
/// begins with the outcome of the event: that of the command, notification or
/// player event that it is.
pub proof fn one_event_is_its_own_run(
    s: BridgeView,
    store: Map<Seq<char>, QueueView>,
    happening: Happening,
)
    ensures
        ({
            let turns = event_turns(s, store, happening);
            let outcome = event_outcome(s, store, happening.event);
            &&& turns[0] == (Turn { bridge: outcome.bridge, step: outcome.step })
            &&& run(s, store, seq![happening]) == (RunView {
                bridge: turns.last().bridge,
                store: outcome.store,
                effects: all_effects(turns),
                asks: all_asks(turns),
            })
        }),
{
    reveal(first_turn);
    reveal(store_after);
    let turns = event_turns(s, store, happening);
    let first = first_turn(s, store, happening.event);
    lemma_turns_are_a_conversation(
        first.bridge,
        store_after(s, store, happening.event),
        first.step,
        happening.answers,
    );
    let one = seq![happening];
    assert(one.drop_last() =~= Seq::<Happening>::empty());
    assert(one.last() == happening);
    let nothing = run(s, store, one.drop_last());
    assert(nothing.bridge == s && nothing.store == store);
    assert(Seq::<EffectView>::empty() + all_effects(turns) =~= all_effects(turns));
    assert(Seq::<AskView>::empty() + all_asks(turns) =~= all_asks(turns));
}

/// The turns with given answers are a conversation that begins with the step.
proof fn lemma_turns_are_a_conversation(
    s: BridgeView,
    store: Map<Seq<char>, QueueView>,
    step: StepView,
    answers: Seq<AnswerView>,
)
    ensures
        turns_with(s, store, step, answers).len() > 0,
        turns_with(s, store, step, answers)[0] == (Turn { bridge: s, step }),
        conversation(turns_with(s, store, step, answers), store),
    decreases answers.len(),
{
    let turns = turns_with(s, store, step, answers);
    if step.ask is Some && answers.len() > 0 {
        match turn_after(s, store, step.ask->0, answers[0]) {
            Some(next) => {
                let rest = turns_with(next.bridge, store, next.step, answers.skip(1));
                lemma_turns_are_a_conversation(next.bridge, store, next.step, answers.skip(1));
                assert(turns.skip(1) =~= rest);
                assert(turns[1] == rest[0]);
                assert(turn_after(s, store, step.ask->0, answers[0]) == Some(
                    Turn { bridge: next.bridge, step: next.step },
                ));
                assert(follows(s, store, step.ask->0, next.bridge, next.step));
            },
            None => {},
        }
    }
}

/// Over any run, every command is answered exactly once, with the kind of answer
/// that it is owed, in the order of the commands, and nothing else is answered.
pub proof fn run_answers_every_command_once(
    s: BridgeView,
    store: Map<Seq<char>, QueueView>,
    happenings: Seq<Happening>,
)
    requires
        all_answered(s, store, happenings),
    ensures
        replies(run(s, store, happenings).effects) == replies_owed(happenings),
    decreases happenings.len(),
{
    if happenings.len() == 0 {
        assert(replies(Seq::<EffectView>::empty()) =~= Seq::<Reply>::empty());
    } else {
        let earlier = happenings.drop_last();
        let last = happenings.last();
        let before = run(s, store, earlier);
        let turn = first_turn(before.bridge, before.store, last.event);
        let later = store_after(before.bridge, before.store, last.event);
        let turns = event_turns(before.bridge, before.store, last);
        run_answers_every_command_once(s, store, earlier);
        lemma_turns_are_a_conversation(turn.bridge, later, turn.step, last.answers);
        replies_of_both(before.effects, all_effects(turns));
        match last.event {
            BridgeEvent::Session(SessionEvent::Command(cmd)) => {
                reveal(first_turn);
                reveal(store_after);
                every_command_is_answered_once(before.bridge, before.store, cmd, turns);
                assert(replies(before.effects) + seq![reply_to(cmd)] =~= replies(
                    before.effects,
                ).push(reply_to(cmd)));
            },
            _ => {
                reveal(first_turn);
                only_commands_are_answered(
                    before.bridge,
                    before.store,
                    last.event,
                    turns,
                    later,
                );
                assert(replies(before.effects) + Seq::<Reply>::empty() =~= replies(
                    before.effects,
                ));
            },
        }
    }
}

// ---------------------------------------------------------------------------
// Sessions
// ---------------------------------------------------------------------------

/// Whether a question fits a bridge that has a playback session: no session is
/// to be opened, and the queue is loaded into that session only.
pub open spec fn stays_in_session(ask: AskView, session_id: Seq<char>) -> bool {
    match ask {
        AskView::CreateSession { .. } => false,
        AskView::LoadCloudQueue { session_id: into, after, .. } => into == session_id && after
            == AfterLoad::Reload,
        _ => true,
    }
}

/// Whether a turn is within a playback session.
spec fn turn_in_session(turn: Turn, session_id: Seq<char>) -> bool {
    &&& turn.bridge.session_id == Some(session_id)
    &&& turn.step.ask matches Some(ask) ==> stays_in_session(ask, session_id)
}

proof fn lemma_event_stays_in_session(
    s: BridgeView,
    store: Map<Seq<char>, QueueView>,
    event: BridgeEvent,
)
    requires
        s.session_id is Some,
    ensures
        turn_in_session(first_turn(s, store, event), s.session_id->0),
{
    reveal(first_turn);
}

proof fn lemma_answer_stays_in_session(
    s: BridgeView,
    store: Map<Seq<char>, QueueView>,
    ask: AskView,
    answer: AnswerView,
    session_id: Seq<char>,
)
    requires
        s.session_id == Some(session_id),
        stays_in_session(ask, session_id),
    ensures
        turn_after(s, store, ask, answer) matches Some(next) ==> turn_in_session(
            next,
            session_id,
        ),
{
    reveal(turn_after);
}

proof fn lemma_turns_stay_in_session(
    s: BridgeView,
    store: Map<Seq<char>, QueueView>,
    step: StepView,
    answers: Seq<AnswerView>,
    session_id: Seq<char>,
)
    requires
        turn_in_session(Turn { bridge: s, step }, session_id),
    ensures
        turns_with(s, store, step, answers).len() > 0,
        turns_with(s, store, step, answers).last().bridge.session_id == Some(session_id),
        forall|i: int|
            0 <= i < all_asks(turns_with(s, store, step, answers)).len() ==> stays_in_session(
                #[trigger] all_asks(turns_with(s, store, step, answers))[i],
                session_id,
            ),
    decreases answers.len(),
{
    let turn = Turn { bridge: s, step };
    let turns = turns_with(s, store, step, answers);
    if step.ask is Some && answers.len() > 0 && turn_after(
        s,
        store,
        step.ask->0,
        answers[0],
    ) is Some {
        let next = turn_after(s, store, step.ask->0, answers[0])->0;
        lemma_answer_stays_in_session(s, store, step.ask->0, answers[0], session_id);
        lemma_turns_stay_in_session(next.bridge, store, next.step, answers.skip(1), session_id);
        let rest = turns_with(next.bridge, store, next.step, answers.skip(1));
        assert(turns.skip(1) =~= rest);
        assert(turns.last() == rest.last());
        assert(all_asks(turns) == seq![step.ask->0] + all_asks(rest));
    } else {
        assert(turns =~= seq![turn]);
        assert(turns.skip(1) =~= Seq::<Turn>::empty());
        assert(all_asks(turns.skip(1)) =~= Seq::<AskView>::empty());
    }
}

/// Over any run, a bridge keeps the playback session that it has: it opens no
/// other one, and whenever the queue is loaded, it is loaded into that session.
pub proof fn run_keeps_the_session(
    s: BridgeView,
    store: Map<Seq<char>, QueueView>,
    happenings: Seq<Happening>,
)
    requires
        s.session_id is Some,
    ensures
        run(s, store, happenings).bridge.session_id == s.session_id,
        forall|i: int|
            0 <= i < run(s, store, happenings).asks.len() ==> stays_in_session(
                #[trigger] run(s, store, happenings).asks[i],
                s.session_id->0,
            ),
    decreases happenings.len(),
{
    if happenings.len() > 0 {
        let last = happenings.last();
        let before = run(s, store, happenings.drop_last());
        let turn = first_turn(before.bridge, before.store, last.event);
        let later = store_after(before.bridge, before.store, last.event);
        run_keeps_the_session(s, store, happenings.drop_last());
        lemma_event_stays_in_session(before.bridge, before.store, last.event);
        lemma_turns_stay_in_session(
            turn.bridge,
            later,
            turn.step,
            last.answers,
            s.session_id->0,
        );
    }
}

/// A playback session that the bridge has at some point of a run is never given
/// up: after it, none is opened, and the queue is loaded into it alone.
pub proof fn session_once_loaded_is_kept(
    s: BridgeView,
    store: Map<Seq<char>, QueueView>,
    first: Seq<Happening>,
    rest: Seq<Happening>,
)
    requires
        run(s, store, first).bridge.session_id is Some,
    ensures
        ({
            let middle = run(s, store, first);
            let end = run(s, store, first + rest);
            &&& end.bridge.session_id == middle.bridge.session_id
            &&& middle.asks.len() <= end.asks.len()
            &&& forall|i: int|
                middle.asks.len() <= i < end.asks.len() ==> stays_in_session(
                    #[trigger] end.asks[i],
                    middle.bridge.session_id->0,
                )
        }),
{
    let middle = run(s, store, first);
    events_are_handled_one_by_one(s, store, first, rest);
    run_keeps_the_session(middle.bridge, middle.store, rest);
    let later = run(middle.bridge, middle.store, rest);
    let end = run(s, store, first + rest);
    assert forall|i: int| middle.asks.len() <= i < end.asks.len() implies stays_in_session(
        #[trigger] end.asks[i],
        middle.bridge.session_id->0,
    ) by {
        assert(end.asks[i] == later.asks[i - middle.asks.len()]);
    }
}

// ---------------------------------------------------------------------------
// Player commands
// ---------------------------------------------------------------------------

/// Whether an effect has the player play, pause, stop, seek or skip.
pub open spec fn commands_player(effect: EffectView) -> bool {
    match effect {
        EffectView::Play => true,
        EffectView::Pause => true,
        EffectView::Stop => true,
        EffectView::Seek(_) => true,
        EffectView::SkipNext => true,
        EffectView::SkipPrev => true,
        _ => false,
    }
}

/// Whether none of a row of effects commands the player.
pub open spec fn leaves_player_alone(effects: Seq<EffectView>) -> bool {
    forall|i: int| 0 <= i < effects.len() ==> !commands_player(#[trigger] effects[i])
}

/// Whether a turn is without a playback session, but for the last one that only
/// takes note of it.
spec fn turn_without_session(turn: Turn) -> bool {
    &&& leaves_player_alone(turn.step.effects)
    &&& turn.bridge.session_id is None || turn.step.ask is None
}

proof fn lemma_event_leaves_player_alone(
    s: BridgeView,
    store: Map<Seq<char>, QueueView>,
    event: BridgeEvent,
)
    requires
        s.session_id is None,
    ensures
        turn_without_session(first_turn(s, store, event)),
{
    reveal(first_turn);
}

proof fn lemma_answer_leaves_player_alone(
    s: BridgeView,
    store: Map<Seq<char>, QueueView>,
    ask: AskView,
    answer: AnswerView,
)
    requires
        s.session_id is None,
    ensures
        turn_after(s, store, ask, answer) matches Some(next) ==> turn_without_session(next),
{
    reveal(turn_after);
}

proof fn lemma_turns_leave_player_alone(
    s: BridgeView,
    store: Map<Seq<char>, QueueView>,
    step: StepView,
    answers: Seq<AnswerView>,
)
    requires
        turn_without_session(Turn { bridge: s, step }),
    ensures
        leaves_player_alone(all_effects(turns_with(s, store, step, answers))),
    decreases answers.len(),
{
    let turn = Turn { bridge: s, step };
    let turns = turns_with(s, store, step, answers);
    if step.ask is Some && answers.len() > 0 && turn_after(
        s,
        store,
        step.ask->0,
        answers[0],
    ) is Some {
        let next = turn_after(s, store, step.ask->0, answers[0])->0;
        lemma_answer_leaves_player_alone(s, store, step.ask->0, answers[0]);
        lemma_turns_leave_player_alone(next.bridge, store, next.step, answers.skip(1));
        let rest = turns_with(next.bridge, store, next.step, answers.skip(1));
        assert(turns.skip(1) =~= rest);
        assert(all_effects(turns) == step.effects + all_effects(rest));
    } else {
        assert(turns =~= seq![turn]);
        assert(turns.skip(1) =~= Seq::<Turn>::empty());
        assert(all_effects(turns.skip(1)) =~= Seq::<EffectView>::empty());
        assert(all_effects(turns) =~= step.effects);
    }
}

/// Over any run, as long as the bridge has no playback session, nothing has the
/// player play, pause, stop, seek or skip; nor does the event that brings the
/// session.
pub proof fn run_leaves_player_alone_before_the_session(
    s: BridgeView,
    store: Map<Seq<char>, QueueView>,
    happenings: Seq<Happening>,
)
    requires
        happenings.len() > 0 ==> run(
            s,
            store,
            happenings.drop_last(),
        ).bridge.session_id is None,
    ensures
        leaves_player_alone(run(s, store, happenings).effects),
    decreases happenings.len(),
{
    if happenings.len() > 0 {
        let last = happenings.last();
        let earlier = happenings.drop_last();
        let before = run(s, store, earlier);
        let turn = first_turn(before.bridge, before.store, last.event);
        let later = store_after(before.bridge, before.store, last.event);
        if earlier.len() > 0 {
            let middle = run(s, store, earlier.drop_last());
            if middle.bridge.session_id is Some {
                assert(earlier =~= earlier.drop_last() + seq![earlier.last()]);
                session_once_loaded_is_kept(
                    s,
                    store,
                    earlier.drop_last(),
                    seq![earlier.last()],
                );
            }
        }
        run_leaves_player_alone_before_the_session(s, store, earlier);
        lemma_event_leaves_player_alone(before.bridge, before.store, last.event);
        lemma_turns_leave_player_alone(
            turn.bridge,
            later,
            turn.step,
            last.answers,
        );
    }
}

/// Whether every volume that effects set is on the scale of the player.
pub open spec fn volumes_on_the_scale(effects: Seq<EffectView>) -> bool {
    forall|i: int|
        0 <= i < effects.len() ==> ((#[trigger] effects[i]) matches EffectView::SetVolume(v)
            ==> v <= 100)
}

proof fn lemma_event_keeps_volumes_on_the_scale(
    s: BridgeView,
    store: Map<Seq<char>, QueueView>,
    event: BridgeEvent,
)
    ensures
        volumes_on_the_scale(first_turn(s, store, event).step.effects),
{
    reveal(first_turn);
}

proof fn lemma_answer_keeps_volumes_on_the_scale(
    s: BridgeView,
    store: Map<Seq<char>, QueueView>,
    ask: AskView,
    answer: AnswerView,
)
    ensures
        turn_after(s, store, ask, answer) matches Some(next) ==> volumes_on_the_scale(
            next.step.effects,
        ),
{
    reveal(turn_after);
}

proof fn lemma_turns_keep_volumes_on_the_scale(
    s: BridgeView,
    store: Map<Seq<char>, QueueView>,
    step: StepView,
    answers: Seq<AnswerView>,
)
    requires
        volumes_on_the_scale(step.effects),
    ensures
        volumes_on_the_scale(all_effects(turns_with(s, store, step, answers))),
    decreases answers.len(),
{
    let turn = Turn { bridge: s, step };
    let turns = turns_with(s, store, step, answers);
    if step.ask is Some && answers.len() > 0 && turn_after(
        s,
        store,
        step.ask->0,
        answers[0],
    ) is Some {
        let next = turn_after(s, store, step.ask->0, answers[0])->0;
        lemma_answer_keeps_volumes_on_the_scale(s, store, step.ask->0, answers[0]);
        lemma_turns_keep_volumes_on_the_scale(
            next.bridge,
            store,
            next.step,
            answers.skip(1),
        );
        let rest = turns_with(next.bridge, store, next.step, answers.skip(1));
        assert(turns.skip(1) =~= rest);
        assert(all_effects(turns) == step.effects + all_effects(rest));
    } else {
        assert(turns =~= seq![turn]);
        assert(turns.skip(1) =~= Seq::<Turn>::empty());
        assert(all_effects(turns.skip(1)) =~= Seq::<EffectView>::empty());
        assert(all_effects(turns) =~= step.effects);
    }
}

/// Over any run, every volume that is set is on the scale of the player.
pub proof fn run_keeps_volumes_on_the_scale(
    s: BridgeView,
    store: Map<Seq<char>, QueueView>,
    happenings: Seq<Happening>,
)
    ensures
        volumes_on_the_scale(run(s, store, happenings).effects),
    decreases happenings.len(),
{
    if happenings.len() > 0 {
        let last = happenings.last();
        let before = run(s, store, happenings.drop_last());
        let turn = first_turn(before.bridge, before.store, last.event);
        let later = store_after(before.bridge, before.store, last.event);
        run_keeps_volumes_on_the_scale(s, store, happenings.drop_last());
        lemma_event_keeps_volumes_on_the_scale(before.bridge, before.store, last.event);
        lemma_turns_keep_volumes_on_the_scale(
            turn.bridge,
            later,
            turn.step,
            last.answers,
        );
    }
}

} // verus!
