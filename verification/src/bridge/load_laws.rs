//! What the queues of the Qobuz app come to, and where their playback starts.

use crate::bridge::laws::{conversation, follows, turn_after, Turn};
use crate::bridge::notification_handlers::{
    after_account_bridge, after_load_bridge, after_tracks_bridge, after_tracks_step,
    after_user_bridge, after_user_step, named_track, notification_fits, notification_outcome,
    public_id_of, session_step,
};
use crate::bridge::state::{
    fetched_fits, fetched_view, load_step, queue_url_of, start_load, BridgeView,
};
use crate::bridge::step::{AfterLoad, AfterTracks, AskView, LoadPlan, StepView};
use crate::cloud_queue::laws::{found_item_is_the_first, is_first, item_is_found_at_its_place};
use crate::cloud_queue::state::{
    insertion_index, named_items, playable, queue_items, stored_queue_item, unnamed_items,
    QueueView,
};
use crate::cloud_queue::types::ItemView;
use crate::connect::{
    Notification, PlayingState, QueueLoadTracks, QueueStateUpdated, QueueTrackRef,
    QueueTracksAdded, QueueTracksInserted, QueueTracksRemoved, QueueTracksReordered,
    QueueVersion, RendererStateUpdated,
};
use crate::model::seq_view;
use crate::num::wrap_i32;
use crate::qobuz_api::{api_headers, header_value_ok, QobuzUser, TrackMetadata, TrackMetadataView};
use crate::sonos::{
    AlbumView, ArtistView, CreateSessionView, LoadCloudQueueView, MusicObjectIdView, TrackView,
};
use crate::text::{decimal, signed_decimal};
use vstd::prelude::*;

verus! {

// ---------------------------------------------------------------------------
// Queues
// ---------------------------------------------------------------------------

/// Whether a text is that of a queue version: its major number, a dot and its minor
/// number, each zero where it is missing.
pub open spec fn tells_version(text: Seq<char>, version: Option<QueueVersion>) -> bool {
    let major = if version is Some && version->0.major is Some {
        version->0.major->0
    } else {
        0
    };
    let minor = if version is Some && version->0.minor is Some {
        version->0.minor->0
    } else {
        0
    };
    text == decimal(major as nat) + "."@ + signed_decimal(minor as int)
}

/// Whether the queues differ at most in that of one bridge.
pub open spec fn others_stay(
    store: Map<Seq<char>, QueueView>,
    new: Map<Seq<char>, QueueView>,
    bridge_id: Seq<char>,
) -> bool {
    &&& new.dom() == store.dom().insert(bridge_id)
    &&& forall|id: Seq<char>| id != bridge_id && store.contains_key(id) ==> #[trigger] new[id]
        == store[id]
}

/// Whether a bridge has got the queue that a list of tracks stands for.
pub open spec fn has_queue(
    s: BridgeView,
    new: Map<Seq<char>, QueueView>,
    version: Option<QueueVersion>,
    tracks: Seq<QueueTrackRef>,
) -> bool {
    let queue = new[s.bridge_id];
    &&& new.contains_key(s.bridge_id)
    &&& queue.items == queue_items(playable(tracks), s.service_account_number->0)
    &&& tells_version(queue.version, version)
    &&& queue.service_account_number == s.service_account_number->0
    &&& queue.client == s.qobuz_client
}

/// Whether the queue of a bridge has got new items and a new version, and kept
/// the rest.
pub open spec fn has_items(
    s: BridgeView,
    store: Map<Seq<char>, QueueView>,
    new: Map<Seq<char>, QueueView>,
    version: Option<QueueVersion>,
    items: Seq<ItemView>,
) -> bool {
    let queue = new[s.bridge_id];
    &&& others_stay(store, new, s.bridge_id)
    &&& queue.items == items
    &&& tells_version(queue.version, version)
    &&& queue.service_account_number == store[s.bridge_id].service_account_number
    &&& queue.client == store[s.bridge_id].client
}

/// Whether a place in a queue is the one behind an item: one past the first item
/// with its ID, or the beginning where there is no such item.
pub open spec fn is_behind(items: Seq<ItemView>, id: Option<Seq<char>>, place: int) -> bool {
    match id {
        Some(id) => is_first(items, id, place - 1) || place == 0 && (forall|k: int|
            0 <= k < items.len() ==> (#[trigger] items[k]).id != id),
        None => place == 0,
    }
}

proof fn lemma_behind(items: Seq<ItemView>, id: Seq<char>, place: int)
    requires
        is_behind(items, Some(id), place),
    ensures
        insertion_index(items, Some(id)) == place,
        0 <= place <= items.len(),
{
    found_item_is_the_first(items, id);
    if is_first(items, id, place - 1) {
        item_is_found_at_its_place(items, place - 1);
    }
}

/// The step that asks and does nothing.
pub open spec fn nothing_more() -> StepView {
    StepView { effects: Seq::empty(), ask: None }
}

/// The step that asks one question and does nothing yet.
pub open spec fn asked(ask: AskView) -> StepView {
    StepView { effects: Seq::empty(), ask: Some(ask) }
}

/// Added tracks stand at the end of the queue of the bridge, in their order;
/// nothing else changes, and nothing at all before the account is known or
/// where the bridge has no queue.
pub proof fn added_tracks_stand_at_the_end(
    s: BridgeView,
    store: Map<Seq<char>, QueueView>,
    msg: QueueTracksAdded,
)
    ensures
        ({
            let outcome = notification_outcome(s, store, Notification::QueueTracksAdded(msg));
            &&& outcome.bridge == s
            &&& outcome.step == nothing_more()
            &&& s.service_account_number is None || !store.contains_key(s.bridge_id)
                ==> outcome.store == store
            &&& s.service_account_number matches Some(sn) ==> store.contains_key(s.bridge_id)
                ==> has_items(
                s,
                store,
                outcome.store,
                msg.queue_version,
                store[s.bridge_id].items + queue_items(playable(msg.tracks@), sn),
            )
        }),
{
    let outcome = notification_outcome(s, store, Notification::QueueTracksAdded(msg));
    if s.service_account_number is Some && store.contains_key(s.bridge_id) {
        assert(outcome.store.dom() =~= store.dom().insert(s.bridge_id));
    }
}

/// Inserted tracks stand, in their order, behind the item that the message names;
/// nothing else changes, and nothing at all before the account is known or
/// where the bridge has no queue.
pub proof fn inserted_tracks_stand_behind_their_item(
    s: BridgeView,
    store: Map<Seq<char>, QueueView>,
    msg: QueueTracksInserted,
    place: int,
)
    requires
        is_behind(
            store[s.bridge_id].items,
            match msg.insert_after {
                Some(id) => Some(signed_decimal(id as int)),
                None => None,
            },
            place,
        ),
    ensures
        ({
            let outcome = notification_outcome(s, store, Notification::QueueTracksInserted(msg));
            let items = store[s.bridge_id].items;
            &&& outcome.bridge == s
            &&& outcome.step == nothing_more()
            &&& s.service_account_number is None || !store.contains_key(s.bridge_id)
                ==> outcome.store == store
            &&& s.service_account_number matches Some(sn) ==> store.contains_key(s.bridge_id)
                ==> has_items(
                s,
                store,
                outcome.store,
                msg.queue_version,
                items.subrange(0, place) + queue_items(playable(msg.tracks@), sn) + items.subrange(
                    place,
                    items.len() as int,
                ),
            )
        }),
{
    let outcome = notification_outcome(s, store, Notification::QueueTracksInserted(msg));
    let items = store[s.bridge_id].items;
    if msg.insert_after is Some {
        lemma_behind(items, signed_decimal(msg.insert_after->0 as int), place);
    }
    assert(items.take(place) =~= items.subrange(0, place));
    assert(items.skip(place) =~= items.subrange(place, items.len() as int));
    if s.service_account_number is Some && store.contains_key(s.bridge_id) {
        assert(outcome.store.dom() =~= store.dom().insert(s.bridge_id));
    }
}

/// Removed items are those that the message names, and what is left keeps its
/// order; nothing else changes, and nothing at all where the bridge has no queue.
pub proof fn named_items_are_removed(
    s: BridgeView,
    store: Map<Seq<char>, QueueView>,
    msg: QueueTracksRemoved,
)
    ensures
        ({
            let outcome = notification_outcome(s, store, Notification::QueueTracksRemoved(msg));
            &&& outcome.bridge == s
            &&& outcome.step == nothing_more()
            &&& !store.contains_key(s.bridge_id) ==> outcome.store == store
            &&& store.contains_key(s.bridge_id) ==> has_items(
                s,
                store,
                outcome.store,
                msg.queue_version,
                unnamed_items(store[s.bridge_id].items, msg.queue_item_ids@),
            )
        }),
{
    let outcome = notification_outcome(s, store, Notification::QueueTracksRemoved(msg));
    if store.contains_key(s.bridge_id) {
        assert(outcome.store.dom() =~= store.dom().insert(s.bridge_id));
    }
}

/// Moved items are those that the message names, in the order of the queue, and
/// stand behind the item of the rest that it names; nothing else changes, and
/// nothing at all where the bridge has no queue.
pub proof fn named_items_are_moved(
    s: BridgeView,
    store: Map<Seq<char>, QueueView>,
    msg: QueueTracksReordered,
    place: int,
)
    requires
        is_behind(
            unnamed_items(store[s.bridge_id].items, msg.queue_item_ids@),
            match msg.insert_after {
                Some(id) => Some(decimal(id as nat)),
                None => None,
            },
            place,
        ),
    ensures
        ({
            let outcome = notification_outcome(s, store, Notification::QueueTracksReordered(msg));
            let items = store[s.bridge_id].items;
            let rest = unnamed_items(items, msg.queue_item_ids@);
            &&& outcome.bridge == s
            &&& outcome.step == nothing_more()
            &&& !store.contains_key(s.bridge_id) ==> outcome.store == store
            &&& store.contains_key(s.bridge_id) ==> has_items(
                s,
                store,
                outcome.store,
                msg.queue_version,
                rest.subrange(0, place) + named_items(items, msg.queue_item_ids@) + rest.subrange(
                    place,
                    rest.len() as int,
                ),
            )
        }),
{
    let outcome = notification_outcome(s, store, Notification::QueueTracksReordered(msg));
    let rest = unnamed_items(store[s.bridge_id].items, msg.queue_item_ids@);
    if msg.insert_after is Some {
        lemma_behind(rest, decimal(msg.insert_after->0 as nat), place);
    }
    assert(rest.take(place) =~= rest.subrange(0, place));
    assert(rest.skip(place) =~= rest.subrange(place, rest.len() as int));
    if store.contains_key(s.bridge_id) {
        assert(outcome.store.dom() =~= store.dom().insert(s.bridge_id));
    }
}

/// A full queue, or a list to load, takes the place of the queue of the bridge, and
/// of no other one; before the account is known it leads to nothing.
pub proof fn whole_queue_is_taken_over(
    s: BridgeView,
    store: Map<Seq<char>, QueueView>,
    queue: QueueStateUpdated,
    list: QueueLoadTracks,
)
    ensures
        ({
            let full = notification_outcome(s, store, Notification::QueueState(queue));
            let loaded = notification_outcome(s, store, Notification::QueueLoadTracks(list));
            &&& s.service_account_number is None ==> {
                &&& full.store == store && full.bridge == s && full.step == nothing_more()
                &&& loaded.store == store && loaded.bridge == s && loaded.step == nothing_more()
            }
            &&& s.service_account_number is Some ==> {
                &&& others_stay(store, full.store, s.bridge_id)
                &&& has_queue(s, full.store, queue.queue_version, queue.tracks@)
                &&& others_stay(store, loaded.store, s.bridge_id)
                &&& has_queue(s, loaded.store, list.queue_version, list.tracks@)
            }
        }),
{
    let full = notification_outcome(s, store, Notification::QueueState(queue));
    let loaded = notification_outcome(s, store, Notification::QueueLoadTracks(list));
    if s.service_account_number is Some {
        assert(full.store.dom() =~= store.dom().insert(s.bridge_id));
        assert(loaded.store.dom() =~= store.dom().insert(s.bridge_id));
    }
}

// ---------------------------------------------------------------------------
// Where playback starts
// ---------------------------------------------------------------------------

/// Whether a question of a load is about the given queue item and track.
pub open spec fn is_about(ask: AskView, queue_item_id: u64, track_id: u64) -> bool {
    match ask {
        AskView::Tracks { after: AfterTracks::Load(plan), .. } => plan.queue_item_id
            == queue_item_id && plan.track_id == track_id,
        AskView::Tracks { after: AfterTracks::Target(plan), .. } => plan.queue_item_id
            == queue_item_id && plan.track_id == track_id,
        AskView::CreateSession { plan, track_metadata, .. } => plan.queue_item_id == queue_item_id
            && plan.track_id == track_id && shows(track_metadata, track_id),
        AskView::LoadCloudQueue { request, .. } => request.item_id == Some(
            decimal(queue_item_id as nat),
        ) && shows(request.track_metadata, track_id),
        _ => false,
    }
}

/// Whether a track that is shown, if any is, has the given track ID.
pub open spec fn shows(track: Option<TrackView>, track_id: u64) -> bool {
    track matches Some(track) ==> track.id matches Some(id) && id.object_id == "track:"@ + decimal(
        track_id as nat,
    )
}

/// A load stays at its queue item and track from one question to the next.
pub proof fn load_stays_at_its_item(
    s: BridgeView,
    store: Map<Seq<char>, QueueView>,
    ask: AskView,
    next: BridgeView,
    step: StepView,
    queue_item_id: u64,
    track_id: u64,
)
    requires
        is_about(ask, queue_item_id, track_id),
        follows(s, store, ask, next, step),
    ensures
        step.ask matches Some(ask) ==> is_about(ask, queue_item_id, track_id),
        step.effects.len() == 0,
        next.current_queue_item_id == s.current_queue_item_id,
        next.current_track_id == s.current_track_id,
{
    reveal(turn_after);
}

/// The place in a list of tracks that a queue position stands for: the position
/// itself where the list has it, else the first.
pub open spec fn start_place(position: Option<u32>, len: nat) -> int {
    if position is Some && position->0 < len {
        position->0 as int
    } else {
        0
    }
}

/// A list of tracks starts at the track at its queue position, or at the first
/// where there is no such track: that one is the current item and the current
/// track of the bridge from then on, and each question that the message leads to
/// is about it, down to the load itself.
pub proof fn loaded_list_starts_at_its_position(
    s: BridgeView,
    store: Map<Seq<char>, QueueView>,
    msg: QueueLoadTracks,
    turns: Seq<Turn>,
    i: int,
)
    requires
        s.service_account_number is Some,
        msg.tracks@.len() > 0,
        conversation(
            turns,
            notification_outcome(s, store, Notification::QueueLoadTracks(msg)).store,
        ),
        turns[0].bridge == notification_outcome(
            s,
            store,
            Notification::QueueLoadTracks(msg),
        ).bridge,
        turns[0].step == notification_outcome(s, store, Notification::QueueLoadTracks(msg)).step,
        0 <= i < turns.len(),
    ensures
        ({
            let track = msg.tracks@[start_place(msg.queue_position, msg.tracks@.len())];
            let id = if track.track_id is Some {
                track.track_id->0 as u64
            } else {
                0
            };
            &&& turns[i].bridge.current_queue_item_id == Some(wrap_i32(track.queue_item_id as int))
            &&& turns[i].bridge.current_track_id == Some(id)
            &&& turns[i].step.effects.len() == 0
            &&& turns[i].step.ask matches Some(ask) ==> is_about(ask, track.queue_item_id, id)
        }),
{
    let track = msg.tracks@[start_place(msg.queue_position, msg.tracks@.len())];
    let id = if track.track_id is Some {
        track.track_id->0 as u64
    } else {
        0
    };
    lemma_load_goes_on(
        turns,
        notification_outcome(s, store, Notification::QueueLoadTracks(msg)).store,
        i,
        track.queue_item_id,
        id,
    );
}

proof fn lemma_load_goes_on(
    turns: Seq<Turn>,
    store: Map<Seq<char>, QueueView>,
    i: int,
    queue_item_id: u64,
    track_id: u64,
)
    requires
        conversation(turns, store),
        0 <= i < turns.len(),
        turns[0].step.effects.len() == 0,
        turns[0].step.ask matches Some(ask) ==> is_about(ask, queue_item_id, track_id),
    ensures
        turns[i].step.effects.len() == 0,
        turns[i].step.ask matches Some(ask) ==> is_about(ask, queue_item_id, track_id),
        turns[i].bridge.current_queue_item_id == turns[0].bridge.current_queue_item_id,
        turns[i].bridge.current_track_id == turns[0].bridge.current_track_id,
    decreases i,
{
    if i > 0 {
        let rest = turns.skip(1);
        assert(rest[0] == turns[1]);
        assert(rest[i - 1] == turns[i]);
        load_stays_at_its_item(
            turns[0].bridge,
            store,
            turns[0].step.ask->0,
            turns[1].bridge,
            turns[1].step,
            queue_item_id,
            track_id,
        );
        lemma_load_goes_on(rest, store, i - 1, queue_item_id, track_id);
    }
}

/// A list of tracks leads to a load exactly where the bridge has a playback
/// session; without one its start is kept for the first load. Where there is a
/// client, the metadata of the track is asked for first, and its duration becomes
/// the current one. An empty list changes the queue only.
pub proof fn list_is_loaded_into_the_session(
    s: BridgeView,
    store: Map<Seq<char>, QueueView>,
    msg: QueueLoadTracks,
    sn: u32,
    plan: LoadPlan,
)
    requires
        s.service_account_number == Some(sn),
        msg.tracks@.len() > 0 ==> ({
            let track = msg.tracks@[start_place(msg.queue_position, msg.tracks@.len())];
            &&& plan.queue_item_id == track.queue_item_id
            &&& track.track_id matches Some(id) ==> plan.track_id == id
            &&& track.track_id is None ==> plan.track_id == 0
            &&& plan.position_ms == 0
            &&& plan.service_account_number == sn
        }),
    ensures
        ({
            let outcome = notification_outcome(s, store, Notification::QueueLoadTracks(msg));
            let at_track = BridgeView {
                current_queue_item_id: Some(wrap_i32(plan.queue_item_id as int)),
                current_track_id: Some(plan.track_id),
                ..s
            };
            &&& msg.tracks@.len() == 0 ==> outcome.bridge == s && outcome.step == nothing_more()
            &&& msg.tracks@.len() > 0 ==> {
                &&& s.qobuz_client matches Some(client) ==> outcome.bridge == at_track
                    && outcome.step == asked(
                    AskView::Tracks { client, after: AfterTracks::Target(plan) },
                )
                &&& s.qobuz_client is None && s.session_id is None ==> outcome.step
                    == nothing_more() && outcome.bridge == (BridgeView {
                    pending_initial_item: Some((plan.queue_item_id, 0)),
                    ..at_track
                })
                &&& s.qobuz_client is None && s.session_id is Some ==> outcome.bridge == at_track
                    && outcome.step.effects.len() == 0 && outcome.step == load_step(
                    at_track,
                    plan,
                    None,
                )
            }
        }),
{
}

/// Once the metadata of the start of a list has been asked for, its duration is
/// known where it came, and the queue is loaded where there is a playback
/// session; without one the start is kept for the first load.
pub proof fn duration_of_the_start_is_learned(
    s: BridgeView,
    plan: LoadPlan,
    fetched: Option<Seq<TrackMetadataView>>,
)
    ensures
        ({
            let bridge = after_tracks_bridge(s, AfterTracks::Target(plan), fetched);
            let step = after_tracks_step(s, AfterTracks::Target(plan), fetched);
            &&& bridge == (BridgeView {
                current_duration_ms: if fetched is Some && fetched->0.len() > 0 {
                    Some(fetched->0[0].duration_ms())
                } else {
                    s.current_duration_ms
                },
                pending_initial_item: if s.session_id is Some {
                    s.pending_initial_item
                } else {
                    Some((plan.queue_item_id, 0))
                },
                ..s
            })
            &&& s.session_id is None ==> step == nothing_more()
            &&& s.session_id is Some ==> match s.qobuz_client {
                Some(client) => step == asked(
                    AskView::Tracks { client, after: AfterTracks::Load(plan) },
                ),
                None => step == load_step(bridge, plan, None),
            }
        }),
{
}

/// The first full queue that is not empty is loaded at the item that a playback
/// command has named, at its position, or else at its first item; the track is the
/// one that the list has for the item, or its first one. The item is then used up.
/// With a playback session, or for an empty queue, nothing is loaded. The current
/// item is looked up for the current track.
pub proof fn full_queue_starts_the_session(
    s: BridgeView,
    store: Map<Seq<char>, QueueView>,
    msg: QueueStateUpdated,
    sn: u32,
    plan: LoadPlan,
)
    requires
        s.service_account_number == Some(sn),
        msg.tracks@.len() > 0 ==> ({
            let first = if msg.tracks@[0].track_id is Some {
                msg.tracks@[0].track_id->0 as u64
            } else {
                0
            };
            &&& plan.service_account_number == sn
            &&& s.pending_initial_item is None ==> plan.queue_item_id
                == msg.tracks@[0].queue_item_id && plan.track_id == first && plan.position_ms == 0
            &&& s.pending_initial_item matches Some(pending) ==> plan.queue_item_id == pending.0
                && plan.position_ms == pending.1 && plan.track_id == (match named_track(
                msg.tracks@,
                pending.0,
            ) {
                Some(id) => id as u64,
                None => first,
            })
        }),
    ensures
        ({
            let outcome = notification_outcome(s, store, Notification::QueueState(msg));
            let loads = s.session_id is None && msg.tracks@.len() > 0;
            let bridge = BridgeView {
                current_queue_item_id: match s.current_track_id {
                    Some(id) => stored_queue_item(outcome.store, s.bridge_id, id),
                    None => s.current_queue_item_id,
                },
                pending_initial_item: if loads {
                    None
                } else {
                    s.pending_initial_item
                },
                ..s
            };
            &&& outcome.bridge == bridge
            &&& !loads ==> outcome.step == nothing_more()
            &&& loads && s.qobuz_client is None ==> outcome.step == load_step(bridge, plan, None)
            &&& s.qobuz_client matches Some(client) ==> loads ==> outcome.step == asked(
                AskView::Tracks { client, after: AfterTracks::Load(plan) },
            )
        }),
{
}

/// The track that a list has for an item is that of the first entry with the item.
pub proof fn first_entry_names_the_track(tracks: Seq<QueueTrackRef>, queue_item_id: u64, i: int)
    ensures
        0 <= i < tracks.len() && tracks[i].queue_item_id == queue_item_id && (forall|k: int|
            0 <= k < i ==> (#[trigger] tracks[k]).queue_item_id != queue_item_id) ==> named_track(
            tracks,
            queue_item_id,
        ) == tracks[i].track_id,
        (forall|k: int|
            0 <= k < tracks.len() ==> (#[trigger] tracks[k]).queue_item_id != queue_item_id)
            ==> named_track(tracks, queue_item_id) is None,
    decreases tracks.len(),
{
    if tracks.len() > 0 && tracks[0].queue_item_id != queue_item_id {
        let rest = tracks.skip(1);
        first_entry_names_the_track(rest, queue_item_id, i - 1);
        if 0 <= i < tracks.len() && tracks[i].queue_item_id == queue_item_id && (forall|k: int|
            0 <= k < i ==> (#[trigger] tracks[k]).queue_item_id != queue_item_id) {
            assert(rest[i - 1] == tracks[i]);
            assert forall|k: int| 0 <= k < i - 1 implies (#[trigger] rest[k]).queue_item_id
                != queue_item_id by {
                assert(rest[k] == tracks[k + 1]);
            }
        }
        if forall|k: int|
            0 <= k < tracks.len() ==> (#[trigger] tracks[k]).queue_item_id != queue_item_id {
            assert forall|k: int| 0 <= k < rest.len() implies (#[trigger] rest[k]).queue_item_id
                != queue_item_id by {
                assert(rest[k] == tracks[k + 1]);
            }
        }
    } else if tracks.len() > 0 {
        assert(tracks[0].queue_item_id == queue_item_id);
    }
}

// ---------------------------------------------------------------------------
// The load
// ---------------------------------------------------------------------------

/// Whether a request loads the queue of a bridge at a planned place: under the URL
/// of the bridge, at the item, at the position where it is not the beginning, and
/// to be played at once.
pub open spec fn loads_queue(
    s: BridgeView,
    plan: LoadPlan,
    track: Option<TrackView>,
    request: LoadCloudQueueView,
) -> bool {
    &&& request.queue_base_url == s.base_url + "/queues/"@ + s.bridge_id + "/v2.3/"@
    &&& request.item_id == Some(decimal(plan.queue_item_id as nat))
    &&& request.play_on_completion == Some(true)
    &&& request.track_metadata == track
    &&& request.position_millis == (if plan.position_ms > 0 {
        Some(wrap_i32(plan.position_ms as int))
    } else {
        None
    })
}

/// A queue is loaded into the playback session of the bridge, where it has one;
/// else a session is asked for, with the application, the bridge and the account.
pub proof fn load_goes_into_the_session(s: BridgeView, plan: LoadPlan, track: Option<TrackView>)
    ensures
        load_step(s, plan, track).effects.len() == 0,
        s.session_id matches Some(id) ==> (load_step(s, plan, track).ask matches Some(
            AskView::LoadCloudQueue { session_id, request, after },
        ) && session_id == id && after == AfterLoad::Reload && loads_queue(
            s,
            plan,
            track,
            request,
        )),
        s.session_id is None ==> load_step(s, plan, track).ask == Some(
            AskView::CreateSession {
                request: CreateSessionView {
                    app_id: s.app_id,
                    app_context: s.bridge_id,
                    account_id: match s.service_account_number {
                        Some(sn) => Some("sn_"@ + decimal(sn as nat)),
                        None => None,
                    },
                },
                plan,
                track_metadata: track,
            },
        ),
        s.qobuz_client is None ==> start_load(s, plan) == load_step(s, plan, None),
        s.qobuz_client matches Some(client) ==> start_load(s, plan) == asked(
            AskView::Tracks { client, after: AfterTracks::Load(plan) },
        ),
{
}

/// Once there is a new playback session, the queue is loaded into it; without one
/// nothing is loaded.
pub proof fn new_session_gets_the_queue(
    s: BridgeView,
    plan: LoadPlan,
    track: Option<TrackView>,
    id: Seq<char>,
)
    ensures
        session_step(s, plan, track, None) == nothing_more(),
        session_step(s, plan, track, Some(id)).effects.len() == 0,
        session_step(s, plan, track, Some(id)).ask matches Some(
            AskView::LoadCloudQueue { session_id, request, after },
        ) && session_id == id && after == AfterLoad::FirstLoad && loads_queue(
            s,
            plan,
            track,
            request,
        ),
{
}

/// The track that a load shows has the title, the performer, the album, the image
/// and the duration of the first metadata that came; without any, no track is
/// shown. Nothing of the bridge changes.
pub proof fn load_shows_the_fetched_track(
    s: BridgeView,
    plan: LoadPlan,
    fetched: Option<Seq<TrackMetadataView>>,
)
    ensures
        after_tracks_bridge(s, AfterTracks::Load(plan), fetched) == s,
        after_tracks_step(s, AfterTracks::Load(plan), fetched) == load_step(
            s,
            plan,
            if fetched is Some && fetched->0.len() > 0 {
                let m = fetched->0[0];
                Some(
                    TrackView {
                        id: Some(
                            MusicObjectIdView {
                                object_id: "track:"@ + decimal(plan.track_id as nat),
                                service_id: Some("31"@),
                                account_id: Some(
                                    "sn_"@ + decimal(plan.service_account_number as nat),
                                ),
                            },
                        ),
                        name: Some(m.title),
                        artist: Some(ArtistView { name: m.artist_name, id: None }),
                        album: Some(AlbumView { name: m.album_title, artist: None, id: None }),
                        duration_millis: Some(wrap_i32(m.duration_ms() as int)),
                        image_url: m.album_image_url,
                        content_type: None,
                    },
                )
            } else {
                None
            },
        ),
{
}

/// A load that succeeded makes a new session that of the bridge; one into the
/// session that the bridge has is remembered as a command to play, given at that
/// moment. A load that failed changes nothing.
pub proof fn load_is_remembered(
    s: BridgeView,
    after: AfterLoad,
    session_id: Seq<char>,
    now: u128,
)
    ensures
        after_load_bridge(s, after, session_id, false, now) == s,
        after_load_bridge(s, AfterLoad::FirstLoad, session_id, true, now) == (BridgeView {
            session_id: Some(session_id),
            ..s
        }),
        ({
            let bridge = after_load_bridge(s, AfterLoad::Reload, session_id, true, now);
            &&& bridge == (BridgeView { commanded: bridge.commanded, ..s })
            &&& bridge.commanded matches Some(c) && c.state == PlayingState::Playing
                && c.position_ms is None && c.set_at == now
        }),
{
}

/// Whether metadata fits, and what is seen of it, is decided by its first track and
/// is as it is.
pub proof fn fetched_metadata_is_seen_as_it_is(
    fetched: Seq<TrackMetadataView>,
    list: Vec<TrackMetadata>,
    base_url: Seq<char>,
    bridge_id: Seq<char>,
    plan: LoadPlan,
)
    ensures
        fetched_fits(None),
        fetched_fits(Some(fetched)) <==> fetched.len() == 0 || fetched[0].duration_secs * 1000
            <= 4294967295,
        fetched_view(None) is None,
        fetched_view(Some(list)) == Some(seq_view(list@)),
        queue_url_of(base_url, bridge_id) == base_url + "/queues/"@ + bridge_id + "/v2.3/"@,
        AfterTracks::Load(plan).track() == plan.track_id,
        AfterTracks::Target(plan).track() == plan.track_id,
{
}

// ---------------------------------------------------------------------------
// Other notifications
// ---------------------------------------------------------------------------

/// A restored state is kept with its position, as far as the message holds them,
/// in place of an earlier one.
pub proof fn restored_state_is_kept(
    s: BridgeView,
    store: Map<Seq<char>, QueueView>,
    update: RendererStateUpdated,
)
    ensures
        ({
            let outcome = notification_outcome(s, store, Notification::RestoreState(update));
            &&& outcome.store == store
            &&& outcome.step == nothing_more()
            &&& outcome.bridge == (BridgeView {
                restored_state: update.playing(),
                restored_position: update.position_value(),
                ..s
            })
        }),
{
}

/// A registration asks for the user of a client with the new token, then for the
/// account of that user with Qobuz, and keeps the client at the end. The number of
/// the account is taken over as it is answered.
pub proof fn registration_goes_by_user_and_account(
    s: BridgeView,
    store: Map<Seq<char>, QueueView>,
    n: Notification,
    client: Map<Seq<char>, Seq<char>>,
    user: QobuzUser,
    account: Option<u32>,
)
    ensures
        n matches Notification::DeviceRegistered { api_jwt, .. } ==> {
            &&& notification_outcome(s, store, n).bridge == s
            &&& notification_outcome(s, store, n).store == store
            &&& notification_outcome(s, store, n).step == asked(
                AskView::User { client: api_headers(api_jwt@, s.app_id) },
            )
            &&& notification_fits(s, n) <==> header_value_ok(api_jwt@) && header_value_ok(s.app_id)
        },
        !(n is DeviceRegistered) ==> notification_fits(s, n),
        public_id_of(Some(user)) == Some(user.public_id@),
        public_id_of(None) is None,
        after_user_bridge(s, client, public_id_of(Some(user))) == s,
        after_user_step(client, public_id_of(Some(user))) == asked(
            AskView::Account {
                client,
                public_id: user.public_id@,
                service_id: "31"@,
                service_name: "Qobuz"@,
            },
        ),
        after_user_bridge(s, client, None) == (BridgeView { qobuz_client: Some(client), ..s }),
        after_user_step(client, None) == nothing_more(),
        after_account_bridge(s, client, None) == (BridgeView { qobuz_client: Some(client), ..s }),
        after_account_bridge(s, client, Some(account)) == (BridgeView {
            qobuz_client: Some(client),
            service_account_number: account,
            ..s
        }),
{
}

/// Every other notification leads to nothing.
pub proof fn other_notifications_lead_to_nothing(
    s: BridgeView,
    store: Map<Seq<char>, QueueView>,
    n: Notification,
)
    requires
        n is Deactivated || n is LoopModeSet || n is ShuffleModeSet || n is Connected
            || n is Disconnected || n is SessionClosed || n is Other,
    ensures
        notification_outcome(s, store, n).bridge == s,
        notification_outcome(s, store, n).store == store,
        notification_outcome(s, store, n).step == nothing_more(),
{
}

} // verus!
