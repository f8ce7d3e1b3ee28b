//! What holds of queues, windows, the store and the cache as a whole.

use crate::cloud_queue::handlers::{
    after_fetch, all_with_metadata, durations_fit, requested_items, track_ids, Answer,
    PendingWindow,
};
use crate::cloud_queue::metadata_cache::{cached, cached_of, missing_ids};
use crate::cloud_queue::state::{
    inserted, insertion_index, item_index, named, named_items, playable, queue_item, queue_items,
    queue_item_of_track, reordered, text_view, unnamed_items, version_text, window,
    window_center, window_end, window_start, stored_queue_item, QueueState, QueueView,
};
use crate::cloud_queue::types::{
    track_object_id, CloudQueueItem, ContextResponse, ItemView, ItemWindowQuery,
};
use crate::connect::QueueTrackRef;
use crate::model::{opt_view, seq_view};
use crate::num::wrap_i32;
use crate::qobuz_api::TrackMetadataView;
use crate::sonos::{AlbumView, ArtistView, MusicObjectIdView};
use crate::text::{
    decimal, decimal_is_a_numeral, decimal_is_injective, is_digit, read_i32, signed_decimal,
    signed_decimal_reads_back,
};
use vstd::prelude::*;

verus! {

// ---------------------------------------------------------------------------
// Finding items
// ---------------------------------------------------------------------------

/// A found item has the wanted ID, and no item before it has.
pub proof fn found_item_is_the_first(items: Seq<ItemView>, id: Seq<char>)
    ensures
        item_index(items, id) matches Some(i) ==> {
            &&& 0 <= i < items.len()
            &&& items[i].id == id
            &&& forall|k: int| 0 <= k < i ==> (#[trigger] items[k]).id != id
        },
        item_index(items, id) is None ==> forall|k: int|
            0 <= k < items.len() ==> (#[trigger] items[k]).id != id,
    decreases items.len(),
{
    if items.len() > 0 {
        let rest = items.drop_last();
        found_item_is_the_first(rest, id);
        assert forall|k: int| 0 <= k < rest.len() implies (#[trigger] items[k]) == rest[k] by {}
    }
}

/// An item whose ID no earlier item has is found at its place.
pub proof fn item_is_found_at_its_place(items: Seq<ItemView>, i: int)
    requires
        0 <= i < items.len(),
        forall|k: int| 0 <= k < i ==> (#[trigger] items[k]).id != items[i].id,
    ensures
        item_index(items, items[i].id) == Some(i),
{
    found_item_is_the_first(items, items[i].id);
    match item_index(items, items[i].id) {
        Some(j) => {
            if j < i {
                assert(items[j].id == items[i].id);
            } else if i < j {
                assert(items[i].id != items[i].id);
            }
        },
        None => {
            assert(items[i].id != items[i].id);
        },
    }
}

// ---------------------------------------------------------------------------
// Windows
// ---------------------------------------------------------------------------

/// A window of a queue that is not empty holds the item that it is centered
/// on, and lies within the queue. It is no larger than asked for.
pub proof fn window_holds_its_center(
    items: Seq<ItemView>,
    item_id: Option<Seq<char>>,
    up_before: nat,
    up_after: nat,
)
    requires
        items.len() > 0,
    ensures
        ({
            let center = window_center(items, item_id);
            let start = window_start(items, item_id, up_before);
            let end = window_end(items, item_id, up_after);
            &&& 0 <= start <= center < end <= items.len()
            &&& window(items, item_id, up_before, up_after).len() == end - start
            &&& window(items, item_id, up_before, up_after)[center - start] == items[center]
            &&& center - start <= up_before
            &&& end - center <= up_after + 1
            &&& window(items, item_id, up_before, up_after).len() <= up_before + up_after + 1
        }),
{
    match item_id {
        Some(id) => found_item_is_the_first(items, id),
        None => {},
    }
}

/// A window around an item of the queue holds that item.
pub proof fn window_holds_the_named_item(
    items: Seq<ItemView>,
    id: Seq<char>,
    up_before: nat,
    up_after: nat,
)
    requires
        item_index(items, id) is Some,
    ensures
        ({
            let at = item_index(items, id)->0 - window_start(items, Some(id), up_before);
            &&& 0 <= at < window(items, Some(id), up_before, up_after).len()
            &&& window(items, Some(id), up_before, up_after)[at].id == id
        }),
{
    found_item_is_the_first(items, id);
    window_holds_its_center(items, Some(id), up_before, up_after);
}

/// A window around no item, or around one that is not in the queue, begins at
/// the beginning of the queue.
pub proof fn window_of_unknown_item_begins_the_queue(
    items: Seq<ItemView>,
    item_id: Option<Seq<char>>,
    up_before: nat,
    up_after: nat,
)
    requires
        item_id matches Some(id) ==> item_index(items, id) is None,
    ensures
        window(items, item_id, up_before, up_after) == items.take(
            if up_after + 1 < items.len() {
                (up_after + 1) as int
            } else {
                items.len() as int
            },
        ),
{
    if items.len() == 0 {
        assert(items.take(0) =~= items);
    }
}

/// A window that reaches from the beginning of the queue to its end is the
/// queue.
pub proof fn window_from_beginning_to_end_is_the_queue(
    items: Seq<ItemView>,
    item_id: Option<Seq<char>>,
    up_before: nat,
    up_after: nat,
)
    requires
        items.len() > 0 ==> window_start(items, item_id, up_before) == 0 && window_end(
            items,
            item_id,
            up_after,
        ) == items.len(),
    ensures
        window(items, item_id, up_before, up_after) == items,
{
    assert(window(items, item_id, up_before, up_after) =~= items);
}

/// Filling in metadata changes neither the IDs nor the tracks of a window.
pub proof fn metadata_keeps_items_apart(items: Seq<ItemView>, cache: Map<u64, TrackMetadataView>)
    ensures
        all_with_metadata(items, cache).len() == items.len(),
        forall|i: int|
            0 <= i < items.len() ==> {
                &&& (#[trigger] all_with_metadata(items, cache)[i]).id == items[i].id
                &&& all_with_metadata(items, cache)[i].track_id == items[i].track_id
                &&& all_with_metadata(items, cache)[i].track.id == items[i].track.id
            },
{
}

// ---------------------------------------------------------------------------
// Well-formed queues
// ---------------------------------------------------------------------------

/// A queue item whose ID is a number and whose Sonos name is that of its
/// track.
pub open spec fn well_formed_item(item: ItemView) -> bool {
    &&& exists|id: u64| item.id == #[trigger] decimal(id as nat)
    &&& item.track.id matches Some(name) && name.object_id == track_object_id(item.track_id)
}

/// A queue of well-formed items.
pub open spec fn well_formed(items: Seq<ItemView>) -> bool {
    forall|i: int| 0 <= i < items.len() ==> well_formed_item(#[trigger] items[i])
}

/// Every item that is made for a track is well-formed.
pub proof fn made_items_are_well_formed(track_id: u64, queue_item_id: u64, sn: u32)
    ensures
        well_formed_item(queue_item(track_id, queue_item_id, sn)),
{
    assert(queue_item(track_id, queue_item_id, sn).id == decimal(queue_item_id as nat));
}

/// A queue made from a list of tracks is well-formed.
pub proof fn new_queues_are_well_formed(tracks: Seq<(u64, u64)>, sn: u32)
    ensures
        well_formed(queue_items(tracks, sn)),
{
    assert forall|i: int| 0 <= i < tracks.len() implies well_formed_item(
        #[trigger] queue_items(tracks, sn)[i],
    ) by {
        made_items_are_well_formed(tracks[i].0, tracks[i].1, sn);
    }
}

/// Adding tracks keeps a queue well-formed.
pub proof fn appending_keeps_queues_well_formed(
    items: Seq<ItemView>,
    tracks: Seq<QueueTrackRef>,
    sn: u32,
)
    requires
        well_formed(items),
    ensures
        well_formed(items + queue_items(playable(tracks), sn)),
{
    new_queues_are_well_formed(playable(tracks), sn);
}

/// Inserting tracks keeps a queue well-formed.
pub proof fn inserting_keeps_queues_well_formed(
    items: Seq<ItemView>,
    at: int,
    tracks: Seq<QueueTrackRef>,
    sn: u32,
)
    requires
        well_formed(items),
        0 <= at <= items.len(),
    ensures
        well_formed(inserted(items, at, tracks, sn)),
{
    let added = queue_items(playable(tracks), sn);
    let all = inserted(items, at, tracks, sn);
    new_queues_are_well_formed(playable(tracks), sn);
    assert forall|i: int| 0 <= i < all.len() implies well_formed_item(#[trigger] all[i]) by {
        if i < at {
            assert(all[i] == items[i]);
        } else if i < at + added.len() {
            assert(all[i] == added[i - at]);
        } else {
            assert(all[i] == items[i - added.len()]);
        }
    }
}

/// Removing items keeps a queue well-formed.
pub proof fn removing_keeps_queues_well_formed(items: Seq<ItemView>, ids: Seq<u32>)
    requires
        well_formed(items),
    ensures
        well_formed(unnamed_items(items, ids)),
{
    removed_items_are_gone(items, ids);
    assert forall|i: int| 0 <= i < unnamed_items(items, ids).len() implies well_formed_item(
        #[trigger] unnamed_items(items, ids)[i],
    ) by {
        assert(items.contains(unnamed_items(items, ids)[i]));
    }
}

/// Moving items keeps a queue well-formed.
pub proof fn reordering_keeps_queues_well_formed(
    items: Seq<ItemView>,
    ids: Seq<u32>,
    after: Option<Seq<char>>,
)
    requires
        well_formed(items),
    ensures
        well_formed(reordered(items, ids, after)),
{
    removing_keeps_queues_well_formed(items, ids);
    lemma_parts_come_from(items, ids);
    let rest = unnamed_items(items, ids);
    let at = insertion_index(rest, after);
    match after {
        Some(id) => found_item_is_the_first(rest, id),
        None => {},
    }
    let moved = named_items(items, ids);
    assert forall|i: int| 0 <= i < moved.len() implies well_formed_item(#[trigger] moved[i]) by {
        assert(items.contains(moved[i]));
    }
    let all = reordered(items, ids, after);
    assert forall|i: int| 0 <= i < all.len() implies well_formed_item(#[trigger] all[i]) by {
        if i < at {
            assert(all[i] == rest[i]);
        } else if i < at + moved.len() {
            assert(all[i] == moved[i - at]);
        } else {
            assert(all[i] == rest[i - moved.len()]);
        }
    }
}

// ---------------------------------------------------------------------------
// Editing
// ---------------------------------------------------------------------------

/// Each part of a split queue holds items of the queue, and each item of the
/// queue is in the part that its name decides.
proof fn lemma_parts_come_from(items: Seq<ItemView>, ids: Seq<u32>)
    ensures
        forall|i: int|
            0 <= i < named_items(items, ids).len() ==> named(
                ids,
                (#[trigger] named_items(items, ids)[i]).id,
            ) && items.contains(named_items(items, ids)[i]),
        forall|i: int|
            0 <= i < unnamed_items(items, ids).len() ==> !named(
                ids,
                (#[trigger] unnamed_items(items, ids)[i]).id,
            ) && items.contains(unnamed_items(items, ids)[i]),
        forall|k: int|
            0 <= k < items.len() ==> if named(ids, (#[trigger] items[k]).id) {
                named_items(items, ids).contains(items[k])
            } else {
                unnamed_items(items, ids).contains(items[k])
            },
        named_items(items, ids).len() + unnamed_items(items, ids).len() == items.len(),
    decreases items.len(),
{
    broadcast use vstd::seq_lib::group_filter_ensures;

    reveal(Seq::filter);
    let is_named = |item: ItemView| named(ids, item.id);
    let is_other = |item: ItemView| !named(ids, item.id);
    assert forall|k: int| 0 <= k < items.len() implies if named(ids, (#[trigger] items[k]).id) {
        named_items(items, ids).contains(items[k])
    } else {
        unnamed_items(items, ids).contains(items[k])
    } by {
        if named(ids, items[k].id) {
            assert(is_named(items[k]));
        } else {
            assert(is_other(items[k]));
        }
    }
    if items.len() > 0 {
        let rest = items.drop_last();
        lemma_parts_come_from(rest, ids);
        assert forall|x: ItemView| rest.contains(x) implies items.contains(x) by {
            let k = rest.index_of(x);
            assert(items[k] == x);
        }
        assert(items.contains(items[items.len() - 1]));
        assert forall|i: int| 0 <= i < named_items(items, ids).len() implies named(
            ids,
            (#[trigger] named_items(items, ids)[i]).id,
        ) && items.contains(named_items(items, ids)[i]) by {
            if i < named_items(rest, ids).len() {
                assert(named_items(items, ids)[i] == named_items(rest, ids)[i]);
            }
        }
        assert forall|i: int| 0 <= i < unnamed_items(items, ids).len() implies !named(
            ids,
            (#[trigger] unnamed_items(items, ids)[i]).id,
        ) && items.contains(unnamed_items(items, ids)[i]) by {
            if i < unnamed_items(rest, ids).len() {
                assert(unnamed_items(items, ids)[i] == unnamed_items(rest, ids)[i]);
            }
        }
    }
}

/// Removal leaves exactly the items that are not named: none that is named is
/// left, and every other item still is there.
pub proof fn removed_items_are_gone(items: Seq<ItemView>, ids: Seq<u32>)
    ensures
        forall|i: int|
            0 <= i < unnamed_items(items, ids).len() ==> !named(
                ids,
                (#[trigger] unnamed_items(items, ids)[i]).id,
            ) && items.contains(unnamed_items(items, ids)[i]),
        forall|k: int|
            0 <= k < items.len() && !named(ids, (#[trigger] items[k]).id) ==> unnamed_items(
                items,
                ids,
            ).contains(items[k]),
        forall|id: u32|
            ids.contains(id) ==> item_index(
                unnamed_items(items, ids),
                #[trigger] decimal(id as nat),
            ) is None,
{
    lemma_parts_come_from(items, ids);
    assert forall|id: u32| ids.contains(id) implies item_index(
        unnamed_items(items, ids),
        #[trigger] decimal(id as nat),
    ) is None by {
        let name = decimal(id as nat);
        found_item_is_the_first(unnamed_items(items, ids), name);
        if item_index(unnamed_items(items, ids), name) is Some {
            let i = item_index(unnamed_items(items, ids), name)->0;
            let j = ids.index_of(id);
            assert(decimal(ids[j] as nat) == unnamed_items(items, ids)[i].id);
            assert(named(ids, unnamed_items(items, ids)[i].id));
        }
    }
}

/// Removing the same items again changes nothing.
pub proof fn removal_is_idempotent(items: Seq<ItemView>, ids: Seq<u32>)
    ensures
        unnamed_items(unnamed_items(items, ids), ids) == unnamed_items(items, ids),
    decreases items.len(),
{
    reveal(Seq::filter);
    if items.len() > 0 {
        let rest = items.drop_last();
        removal_is_idempotent(rest, ids);
        if !named(ids, items.last().id) {
            assert(unnamed_items(items, ids).drop_last() =~= unnamed_items(rest, ids));
        }
    }
}

/// Moving items loses none and adds none: the queue holds the same items as
/// before, as often as before.
pub proof fn reordering_keeps_every_item(
    items: Seq<ItemView>,
    ids: Seq<u32>,
    after: Option<Seq<char>>,
)
    ensures
        reordered(items, ids, after).to_multiset() == items.to_multiset(),
        reordered(items, ids, after).len() == items.len(),
{
    let rest = unnamed_items(items, ids);
    let moved = named_items(items, ids);
    let at = insertion_index(rest, after);
    match after {
        Some(id) => found_item_is_the_first(rest, id),
        None => {},
    }
    lemma_parts_come_from(items, ids);
    lemma_parts_have_all(items, ids);
    vstd::seq_lib::lemma_multiset_commutative(rest.take(at) + moved, rest.skip(at));
    vstd::seq_lib::lemma_multiset_commutative(rest.take(at), moved);
    vstd::seq_lib::lemma_multiset_commutative(rest.take(at), rest.skip(at));
    assert(rest.take(at) + rest.skip(at) =~= rest);
    assert(reordered(items, ids, after).to_multiset() =~= moved.to_multiset().add(
        rest.to_multiset(),
    ));
}

/// The parts of a split queue hold together what the queue holds.
proof fn lemma_parts_have_all(items: Seq<ItemView>, ids: Seq<u32>)
    ensures
        named_items(items, ids).to_multiset().add(unnamed_items(items, ids).to_multiset())
            == items.to_multiset(),
    decreases items.len(),
{
    broadcast use vstd::seq_lib::group_to_multiset_ensures;

    reveal(Seq::filter);
    if items.len() == 0 {
        assert(named_items(items, ids) =~= items);
        assert(unnamed_items(items, ids) =~= items);
        assert(items.to_multiset().len() == 0);
        assert(items.to_multiset().add(items.to_multiset()) =~= items.to_multiset());
    } else {
        let rest = items.drop_last();
        lemma_parts_have_all(rest, ids);
        assert(items =~= rest.push(items.last()));
        assert(named_items(items, ids).to_multiset().add(
            unnamed_items(items, ids).to_multiset(),
        ) =~= items.to_multiset());
    }
}

/// Moved items stand together, in their order, right behind the named item of
/// the rest, or at the beginning where that item is not in the rest; the rest
/// keeps its order.
pub proof fn moved_items_stand_behind_their_anchor(
    items: Seq<ItemView>,
    ids: Seq<u32>,
    after: Option<Seq<char>>,
)
    ensures
        ({
            let rest = unnamed_items(items, ids);
            let moved = named_items(items, ids);
            let at = insertion_index(rest, after);
            let all = reordered(items, ids, after);
            &&& 0 <= at <= rest.len()
            &&& all.subrange(at, at + moved.len()) == moved
            &&& all.take(at) + all.skip(at + moved.len()) == rest
            &&& at > 0 ==> after == Some(all[at - 1].id)
        }),
{
    let rest = unnamed_items(items, ids);
    let moved = named_items(items, ids);
    let at = insertion_index(rest, after);
    let all = reordered(items, ids, after);
    match after {
        Some(id) => found_item_is_the_first(rest, id),
        None => {},
    }
    assert(all.subrange(at, at + moved.len()) =~= moved);
    assert(all.take(at) + all.skip(at + moved.len()) =~= rest);
}

/// Inserted tracks come to stand together, in their order, right behind the
/// named item, or at the beginning where the queue has no such item; a track
/// without a track ID is left out and leaves no gap. What was in the queue
/// keeps its order.
pub proof fn inserted_tracks_stand_together(
    items: Seq<ItemView>,
    after: Option<Seq<char>>,
    tracks: Seq<QueueTrackRef>,
    sn: u32,
)
    ensures
        ({
            let added = queue_items(playable(tracks), sn);
            let at = insertion_index(items, after);
            let all = inserted(items, at, tracks, sn);
            &&& 0 <= at <= items.len()
            &&& all.len() == items.len() + added.len()
            &&& all.subrange(at, at + added.len()) == added
            &&& all.take(at) + all.skip(at + added.len()) == items
            &&& at > 0 ==> after == Some(all[at - 1].id)
        }),
{
    let added = queue_items(playable(tracks), sn);
    let at = insertion_index(items, after);
    let all = inserted(items, at, tracks, sn);
    match after {
        Some(id) => found_item_is_the_first(items, id),
        None => {},
    }
    assert(all.subrange(at, at + added.len()) =~= added);
    assert(all.take(at) + all.skip(at + added.len()) =~= items);
}

/// A list of tracks that all have a track ID becomes a queue of as many items,
/// in the same order.
pub proof fn complete_lists_lose_no_track(tracks: Seq<QueueTrackRef>)
    requires
        forall|i: int| 0 <= i < tracks.len() ==> (#[trigger] tracks[i]).track_id is Some,
    ensures
        playable(tracks).len() == tracks.len(),
        forall|i: int|
            0 <= i < tracks.len() ==> #[trigger] playable(tracks)[i] == (
                tracks[i].track_id->0 as u64,
                tracks[i].queue_item_id,
            ),
    decreases tracks.len(),
{
    if tracks.len() > 0 {
        let rest = tracks.drop_last();
        assert forall|i: int| 0 <= i < rest.len() implies (
        #[trigger] rest[i]).track_id is Some by {
            assert(rest[i] == tracks[i]);
        }
        complete_lists_lose_no_track(rest);
        assert(tracks.last() == tracks[tracks.len() - 1]);
        assert forall|i: int| 0 <= i < tracks.len() implies #[trigger] playable(tracks)[i] == (
            tracks[i].track_id->0 as u64,
            tracks[i].queue_item_id,
        ) by {
            if i < rest.len() {
                assert(playable(tracks)[i] == playable(rest)[i]);
                assert(rest[i] == tracks[i]);
            }
        }
    }
}

/// Looking up a track in a queue gives the queue item ID that the track was
/// put in with: that of its first occurrence, where it is a 32-bit number.
pub proof fn track_is_looked_up(tracks: Seq<(u64, u64)>, sn: u32, i: int)
    requires
        0 <= i < tracks.len(),
        forall|k: int| 0 <= k < i ==> (#[trigger] tracks[k]).0 != tracks[i].0,
        tracks[i].1 <= i32::MAX,
    ensures
        queue_item_of_track(queue_items(tracks, sn), tracks[i].0) == Some(tracks[i].1 as i32),
    decreases i,
{
    let items = queue_items(tracks, sn);
    if i == 0 {
        signed_decimal_reads_back(tracks[0].1 as i32);
    } else {
        let rest = tracks.skip(1);
        assert(tracks[0].0 != tracks[i].0);
        assert forall|k: int| 0 <= k < i - 1 implies (#[trigger] rest[k]).0 != rest[i - 1].0 by {
            assert(rest[k] == tracks[k + 1]);
        }
        track_is_looked_up(rest, sn, i - 1);
        assert(items.skip(1) =~= queue_items(rest, sn));
    }
}

/// A track that is in no item is not looked up.
pub proof fn absent_track_is_not_looked_up(items: Seq<ItemView>, track_id: u64)
    requires
        forall|k: int| 0 <= k < items.len() ==> (#[trigger] items[k]).track_id != track_id,
    ensures
        queue_item_of_track(items, track_id) is None,
    decreases items.len(),
{
    if items.len() > 0 {
        assert(items[0].track_id != track_id);
        assert forall|k: int| 0 <= k < items.skip(1).len() implies (
        #[trigger] items.skip(1)[k]).track_id != track_id by {
            assert(items.skip(1)[k] == items[k + 1]);
        }
        absent_track_is_not_looked_up(items.skip(1), track_id);
    }
}

// ---------------------------------------------------------------------------
// Versions
// ---------------------------------------------------------------------------

/// Different queue versions have different texts.
pub proof fn version_text_is_injective(major: u64, minor: i32, other_major: u64, other_minor: i32)
    requires
        version_text(major, minor) == version_text(other_major, other_minor),
    ensures
        major == other_major,
        minor == other_minor,
{
    reveal_strlit(".");
    let a = decimal(major as nat);
    let b = decimal(other_major as nat);
    let text = version_text(major, minor);
    let other = version_text(other_major, other_minor);
    decimal_is_a_numeral(major as nat);
    decimal_is_a_numeral(other_major as nat);
    assert(text[a.len() as int] == '.');
    assert(other[b.len() as int] == '.');
    if a.len() < b.len() {
        assert(other[a.len() as int] == b[a.len() as int]);
        assert(is_digit(b[a.len() as int]));
    } else if b.len() < a.len() {
        assert(text[b.len() as int] == a[b.len() as int]);
        assert(is_digit(a[b.len() as int]));
    }
    assert(text.take(a.len() as int) =~= a);
    assert(other.take(b.len() as int) =~= b);
    decimal_is_injective(major as nat, other_major as nat);
    assert(text.skip((a.len() + 1) as int) =~= signed_decimal(minor as int));
    assert(other.skip((b.len() + 1) as int) =~= signed_decimal(other_minor as int));
    signed_decimal_reads_back(minor);
    signed_decimal_reads_back(other_minor);
}

// ---------------------------------------------------------------------------
// Store and cache
// ---------------------------------------------------------------------------

/// What is stored for a bridge is read back for it, and the queues of other
/// bridges are as before.
pub proof fn stored_queue_is_read_back(
    store: Map<Seq<char>, QueueView>,
    bridge_id: Seq<char>,
    queue: QueueView,
    other_id: Seq<char>,
)
    ensures
        store.insert(bridge_id, queue).contains_key(bridge_id),
        store.insert(bridge_id, queue)[bridge_id] == queue,
        other_id != bridge_id ==> {
            &&& store.insert(bridge_id, queue).contains_key(other_id) <==> store.contains_key(
                other_id,
            )
            &&& store.contains_key(other_id) ==> store.insert(bridge_id, queue)[other_id]
                == store[other_id]
        },
{
}

/// Caching metadata changes nothing for the tracks that it is not about.
pub proof fn other_tracks_stay_cached(
    cache: Map<u64, TrackMetadataView>,
    metadata: Seq<TrackMetadataView>,
    track_id: u64,
)
    requires
        forall|k: int| 0 <= k < metadata.len() ==> (#[trigger] metadata[k]).id != track_id,
    ensures
        cached(cache, metadata).contains_key(track_id) <==> cache.contains_key(track_id),
        cache.contains_key(track_id) ==> cached(cache, metadata)[track_id] == cache[track_id],
    decreases metadata.len(),
{
    if metadata.len() > 0 {
        let rest = metadata.drop_last();
        assert forall|k: int| 0 <= k < rest.len() implies (#[trigger] rest[k]).id != track_id by {
            assert(metadata[k].id != track_id);
        }
        other_tracks_stay_cached(cache, rest, track_id);
        assert(metadata[metadata.len() - 1].id != track_id);
    }
}

/// Cached metadata is found under its track ID; of several entries for one
/// track the last counts.
pub proof fn cached_metadata_is_found(
    cache: Map<u64, TrackMetadataView>,
    metadata: Seq<TrackMetadataView>,
    i: int,
)
    requires
        0 <= i < metadata.len(),
        forall|k: int| i < k < metadata.len() ==> (#[trigger] metadata[k]).id != metadata[i].id,
    ensures
        cached(cache, metadata).contains_key(metadata[i].id),
        cached(cache, metadata)[metadata[i].id] == metadata[i],
    decreases metadata.len(),
{
    let last = metadata.len() - 1;
    if i < last {
        let rest = metadata.drop_last();
        assert forall|k: int| i < k < rest.len() implies (#[trigger] rest[k]).id != rest[i].id by {
            assert(metadata[k].id != metadata[i].id);
        }
        cached_metadata_is_found(cache, rest, i);
        assert(metadata[last].id != metadata[i].id);
    }
}

/// Of a list of tracks, each is either found in the cache or missing, never
/// both.
pub proof fn found_and_missing_make_the_list(
    cache: Map<u64, TrackMetadataView>,
    track_ids: Seq<u64>,
)
    ensures
        forall|i: int|
            0 <= i < track_ids.len() ==> (cached_of(cache, track_ids).contains_key(
                #[trigger] track_ids[i],
            ) <==> !missing_ids(cache, track_ids).contains(track_ids[i])),
        forall|k: int|
            0 <= k < missing_ids(cache, track_ids).len() ==> !cache.contains_key(
                #[trigger] missing_ids(cache, track_ids)[k],
            ),
        forall|id: u64|
            #[trigger] cached_of(cache, track_ids).contains_key(id) ==> cached_of(
                cache,
                track_ids,
            )[id] == cache[id],
{
    broadcast use vstd::seq_lib::group_filter_ensures;

    let absent = |id: u64| !cache.contains_key(id);
    let missing = missing_ids(cache, track_ids);
    assert forall|i: int| 0 <= i < track_ids.len() implies (cached_of(
        cache,
        track_ids,
    ).contains_key(#[trigger] track_ids[i]) <==> !missing.contains(track_ids[i])) by {
        let id = track_ids[i];
        assert(track_ids.to_set().contains(id));
        if missing.contains(id) {
            let k = missing.index_of(id);
            assert(absent(missing[k]));
        }
        if !cache.contains_key(id) {
            assert(absent(id));
        }
    }
    assert forall|k: int| 0 <= k < missing.len() implies !cache.contains_key(
        #[trigger] missing[k],
    ) by {
        assert(absent(missing[k]));
    }
}

/// Once what was missing has been fetched whole, nothing of the list is
/// missing.
pub proof fn fetching_the_missing_completes_the_list(
    cache: Map<u64, TrackMetadataView>,
    track_ids: Seq<u64>,
    fetched: Seq<TrackMetadataView>,
)
    requires
        forall|k: int|
            0 <= k < missing_ids(cache, track_ids).len() ==> exists|i: int|
                0 <= i < fetched.len() && (#[trigger] fetched[i]).id
                    == #[trigger] missing_ids(cache, track_ids)[k],
    ensures
        missing_ids(cached(cache, fetched), track_ids).len() == 0,
{
    broadcast use vstd::seq_lib::group_filter_ensures;

    let after = cached(cache, fetched);
    let still = missing_ids(after, track_ids);
    let absent = |id: u64| !cache.contains_key(id);
    let absent_after = |id: u64| !after.contains_key(id);
    lemma_cached_keys(cache, fetched);
    if still.len() > 0 {
        let id = still[0];
        assert(absent_after(id));
        lemma_filtered_from(track_ids, absent_after, 0);
        let i = track_ids.index_of(id);
        assert(!cache.contains_key(id));
        assert(absent(track_ids[i]));
        assert(missing_ids(cache, track_ids).contains(id));
        let k = missing_ids(cache, track_ids).index_of(id);
        let j = choose|j: int|
            0 <= j < fetched.len() && (#[trigger] fetched[j]).id == missing_ids(
                cache,
                track_ids,
            )[k];
        assert(after.contains_key(fetched[j].id));
    }
}

/// Where a request for a window of a queue has fetched metadata of every track
/// that the cache lacked, the same request for the same queue fetches nothing
/// and is answered with the same body, in which every item has its name, artist,
/// album and duration. The first request asks for the tracks of the window that
/// the cache lacks, in the order of the window, and for no others.
pub proof fn repeated_request_is_served_from_the_cache(
    queue: QueueView,
    query: ItemWindowQuery,
    cache: Map<u64, TrackMetadataView>,
    fetched: Seq<TrackMetadataView>,
    first: PendingWindow,
    second: PendingWindow,
)
    requires
        first.answers(queue, query, cache),
        second.answers(queue, query, cached(cache, fetched)),
        forall|k: int|
            0 <= k < missing_ids(cache, track_ids(requested_items(queue, query))).len()
                ==> exists|i: int|
                0 <= i < fetched.len() && (#[trigger] fetched[i]).id == #[trigger] missing_ids(
                    cache,
                    track_ids(requested_items(queue, query)),
                )[k],
    ensures
        ({
            let after = cached(cache, fetched);
            let body = all_with_metadata(seq_view(first.items@), after);
            &&& first.fetch matches Some(fetch) ==> fetch.1@ == missing_ids(
                cache,
                track_ids(requested_items(queue, query)),
            )
            &&& second.fetch is None
            &&& second.includes_beginning_of_queue == first.includes_beginning_of_queue
            &&& second.includes_end_of_queue == first.includes_end_of_queue
            &&& second.queue_version@ == first.queue_version@
            &&& all_with_metadata(seq_view(second.items@), after) == body
            &&& forall|i: int|
                0 <= i < body.len() ==> {
                    &&& (#[trigger] body[i]).track.name is Some
                    &&& body[i].track.artist is Some
                    &&& body[i].track.album is Some
                    &&& body[i].track.duration_millis is Some
                }
        }),
{
    broadcast use vstd::seq_lib::group_filter_ensures;

    let items = requested_items(queue, query);
    let ids = track_ids(items);
    let after = cached(cache, fetched);
    let body = all_with_metadata(items, after);
    fetching_the_missing_completes_the_list(cache, ids, fetched);
    let absent = |id: u64| !after.contains_key(id);
    assert forall|i: int| 0 <= i < body.len() implies {
        &&& (#[trigger] body[i]).track.name is Some
        &&& body[i].track.artist is Some
        &&& body[i].track.album is Some
        &&& body[i].track.duration_millis is Some
    } by {
        assert(ids[i] == items[i].track_id);
        if !after.contains_key(ids[i]) {
            assert(absent(ids[i]));
            assert(missing_ids(after, ids).contains(ids[i]));
        }
    }
}

/// Caching keeps what was there, and adds what is inserted.
proof fn lemma_cached_keys(cache: Map<u64, TrackMetadataView>, metadata: Seq<TrackMetadataView>)
    ensures
        forall|id: u64|
            #[trigger] cache.contains_key(id) ==> cached(cache, metadata).contains_key(id),
        forall|i: int|
            0 <= i < metadata.len() ==> cached(cache, metadata).contains_key(
                (#[trigger] metadata[i]).id,
            ),
    decreases metadata.len(),
{
    if metadata.len() > 0 {
        lemma_cached_keys(cache, metadata.drop_last());
        assert forall|i: int| 0 <= i < metadata.len() implies cached(cache, metadata).contains_key(
            (#[trigger] metadata[i]).id,
        ) by {
            if i < metadata.len() - 1 {
                assert(metadata.drop_last()[i] == metadata[i]);
            }
        }
    }
}

/// What a filter lets through comes from the filtered list.
proof fn lemma_filtered_from(s: Seq<u64>, pred: spec_fn(u64) -> bool, i: int)
    requires
        0 <= i < s.filter(pred).len(),
    ensures
        s.contains(s.filter(pred)[i]),
    decreases s.len(),
{
    reveal(Seq::filter);
    if s.len() > 0 {
        let rest = s.drop_last();
        if i < rest.filter(pred).len() {
            lemma_filtered_from(rest, pred, i);
            let k = rest.index_of(rest.filter(pred)[i]);
            assert(s[k] == s.filter(pred)[i]);
        } else {
            assert(s[s.len() - 1] == s.filter(pred)[i]);
        }
    }
}

// ---------------------------------------------------------------------------
// Reach of windows
// ---------------------------------------------------------------------------

/// A window is as large as asked for where the queue allows: around the item
/// that it is centered on, it holds exactly the items that lie no more than
/// `up_before` places before and no more than `up_after` places behind it.
pub proof fn window_reaches_as_far_as_asked(
    items: Seq<ItemView>,
    item_id: Option<Seq<char>>,
    center: int,
    up_before: nat,
    up_after: nat,
    k: int,
)
    requires
        0 <= center < items.len(),
        is_center(items, item_id, center),
        0 <= k < items.len(),
    ensures
        ({
            let start = window_start(items, item_id, up_before);
            let end = window_end(items, item_id, up_after);
            let shown = window(items, item_id, up_before, up_after);
            &&& start <= k < end <==> center - up_before <= k <= center + up_after
            &&& start == 0 || start == center - up_before
            &&& end == items.len() || end == center + up_after + 1
            &&& start == 0 <==> center <= up_before
            &&& end == items.len() <==> items.len() <= center + up_after + 1
            &&& shown.len() == end - start
            &&& start <= k < end ==> shown[k - start] == items[k]
        }),
{
    lemma_center(items, item_id, center);
}

/// Whether a place is the one that a window is to be centered on: that of the
/// first item with the given ID; the first place where no ID is given or no item
/// has it.
pub open spec fn is_center(items: Seq<ItemView>, item_id: Option<Seq<char>>, place: int) -> bool {
    match item_id {
        Some(id) => {
            ||| is_first(items, id, place)
            ||| place == 0 && forall|k: int| 0 <= k < items.len() ==> (#[trigger] items[k]).id != id
        },
        None => place == 0,
    }
}

/// Whether a place is that of the first item with an ID.
pub open spec fn is_first(items: Seq<ItemView>, id: Seq<char>, place: int) -> bool {
    &&& 0 <= place < items.len()
    &&& items[place].id == id
    &&& forall|k: int| 0 <= k < place ==> (#[trigger] items[k]).id != id
}

proof fn lemma_center(items: Seq<ItemView>, item_id: Option<Seq<char>>, center: int)
    requires
        0 <= center < items.len(),
        is_center(items, item_id, center),
    ensures
        window_center(items, item_id) == center,
{
    match item_id {
        Some(id) => {
            found_item_is_the_first(items, id);
            if is_first(items, id, center) {
                item_is_found_at_its_place(items, center);
            }
        },
        None => {},
    }
}

/// A window of an empty queue is empty.
pub proof fn empty_queue_has_empty_windows(
    item_id: Option<Seq<char>>,
    up_before: nat,
    up_after: nat,
)
    ensures
        window(Seq::empty(), item_id, up_before, up_after).len() == 0,
{
}

/// An answered request shows the items that lie as far around the wanted item as
/// the request says: none before it and ten behind it where it does not say. It
/// tells the version of the queue and whether the window reaches the ends of the
/// queue, and asks for metadata of the shown tracks that the cache lacks.
pub proof fn request_is_answered_as_asked(
    pending: PendingWindow,
    queue: QueueView,
    query: ItemWindowQuery,
    cache: Map<u64, TrackMetadataView>,
    center: int,
    k: int,
)
    requires
        pending.answers(queue, query, cache),
        0 <= center < queue.items.len(),
        is_center(queue.items, opt_view(query.item_id), center),
        0 <= k < queue.items.len(),
    ensures
        ({
            let before: int = match query.previous_window_size {
                Some(n) => n as int,
                None => 0,
            };
            let behind: int = match query.upcoming_window_size {
                Some(n) => n as int,
                None => 10,
            };
            let shown = seq_view(pending.items@);
            let start = if center > before {
                center - before
            } else {
                0
            };
            &&& center - before <= k <= center + behind ==> 0 <= k - start < shown.len()
                && shown[k - start] == queue.items[k]
            &&& shown.len() == (if center + behind + 1 < queue.items.len() {
                center + behind + 1
            } else {
                queue.items.len() as int
            }) - start
            &&& pending.queue_version@ == queue.version
            &&& pending.includes_beginning_of_queue <==> center <= before
            &&& pending.includes_end_of_queue <==> queue.items.len() <= center + behind + 1
            &&& pending.fetch matches Some(fetch) ==> {
                &&& queue.client == Some(fetch.0@)
                &&& fetch.1@ == track_ids(shown).filter(|id: u64| !cache.contains_key(id))
                &&& fetch.1@.len() > 0
            }
            &&& pending.fetch is None ==> queue.client is None || forall|i: int|
                0 <= i < shown.len() ==> cache.contains_key((#[trigger] shown[i]).track_id)
        }),
{
    broadcast use vstd::seq_lib::group_filter_ensures;

    let before: nat = match query.previous_window_size {
        Some(n) => n as nat,
        None => 0,
    };
    let behind: nat = match query.upcoming_window_size {
        Some(n) => n as nat,
        None => 10,
    };
    let shown = seq_view(pending.items@);
    window_reaches_as_far_as_asked(
        queue.items,
        opt_view(query.item_id),
        center,
        before,
        behind,
        k,
    );
    if pending.fetch is None && queue.client is Some {
        let absent = |id: u64| !cache.contains_key(id);
        assert(missing_ids(cache, track_ids(shown)).len() == 0);
        assert forall|i: int| 0 <= i < shown.len() implies cache.contains_key(
            (#[trigger] shown[i]).track_id,
        ) by {
            let ids = track_ids(shown);
            assert(ids[i] == shown[i].track_id);
            if absent(ids[i]) {
                assert(ids.filter(absent).contains(ids[i]));
            }
        }
    }
}

/// A request for an empty queue shows nothing, and that is the whole queue.
pub proof fn request_for_an_empty_queue_shows_nothing(
    pending: PendingWindow,
    queue: QueueView,
    query: ItemWindowQuery,
    cache: Map<u64, TrackMetadataView>,
)
    requires
        pending.answers(queue, query, cache),
        queue.items.len() == 0,
    ensures
        seq_view(pending.items@).len() == 0,
        pending.includes_beginning_of_queue,
        pending.includes_end_of_queue,
        pending.queue_version@ == queue.version,
        pending.fetch is None,
{
    reveal(Seq::filter);
    assert(track_ids(seq_view(pending.items@)) =~= Seq::<u64>::empty());
}

/// The context of a queue names it the Qobuz queue of its bridge, for the account
/// of the user, with the version that the queue has, and allows everything.
pub proof fn context_names_the_queue(
    response: ContextResponse,
    bridge_id: Seq<char>,
    queue: QueueView,
)
    requires
        response.presents(bridge_id, queue),
    ensures
        response.queue_version@ == queue.version,
        response.context_version@ == "1"@,
        response.container.name@ == "Qobuz Queue"@,
        response.container.container_type@ == "playlist"@,
        response.container.id.service_id@ == "31"@,
        response.container.id.object_id@ == "queue:"@ + bridge_id,
        response.container.id.account_id@ == "sn_"@ + decimal(
            queue.service_account_number as nat,
        ),
        response.container.service.name@ == "Qobuz"@,
        response.container.service.id@ == "31"@,
        response.reports.send_update_after_millis == 0,
        !response.reports.send_playback_actions,
        response.playback_policies.can_skip && response.playback_policies.limited_skips,
        response.playback_policies.can_skip_to_item && response.playback_policies.can_skip_back,
        response.playback_policies.can_seek && response.playback_policies.can_repeat,
        response.playback_policies.can_repeat_one && response.playback_policies.can_crossfade,
        response.playback_policies.can_shuffle,
        response.playback_policies.show_n_next_tracks == 0,
        response.playback_policies.show_n_previous_tracks == 0,
{
}

/// What is found is answered with the status 200, what is not with 404.
pub proof fn statuses_tell_what_is_found<T>(answer: Answer<T>)
    ensures
        answer is Found <==> answer.status_code() == 200,
        answer is NotFound <==> answer.status_code() == 404,
{
}

/// An item whose track the cache knows is shown with the title, artist, album,
/// duration and cover that the cache has of that track, any other as it is.
pub proof fn items_are_shown_with_their_metadata(
    items: Seq<ItemView>,
    cache: Map<u64, TrackMetadataView>,
    i: int,
)
    requires
        0 <= i < items.len(),
    ensures
        ({
            let item = items[i];
            let shown = all_with_metadata(items, cache)[i];
            &&& all_with_metadata(items, cache).len() == items.len()
            &&& track_ids(items).len() == items.len()
            &&& track_ids(items)[i] == item.track_id
            &&& shown.id == item.id
            &&& shown.track_id == item.track_id
            &&& !cache.contains_key(item.track_id) ==> shown == item
            &&& cache.contains_key(item.track_id) ==> {
                let m = cache[item.track_id];
                &&& shown.track.id == item.track.id
                &&& shown.track.name == Some(m.title)
                &&& shown.track.artist == Some(ArtistView { name: m.artist_name, id: None })
                &&& shown.track.album == Some(
                    AlbumView { name: m.album_title, artist: None, id: None },
                )
                &&& m.duration_fits() ==> shown.track.duration_millis == Some(
                    wrap_i32(1000 * m.duration_secs),
                )
                &&& shown.track.image_url == m.album_image_url
                &&& shown.track.content_type == Some("audio/flac"@)
            }
        }),
{
}

/// A failed fetch leaves the cache as it is; of a fetch that succeeds, each track
/// is put into the cache in turn.
pub proof fn fetched_metadata_is_cached(
    cache: Map<u64, TrackMetadataView>,
    metadata: Seq<TrackMetadataView>,
    m: TrackMetadataView,
)
    ensures
        after_fetch(cache, None) == cache,
        after_fetch(cache, Some(Seq::empty())) == cache,
        after_fetch(cache, Some(metadata.push(m))) == after_fetch(cache, Some(metadata)).insert(
            m.id,
            m,
        ),
{
    assert(metadata.push(m).drop_last() =~= metadata);
}

/// The missing tracks of a list are those that the cache does not hold, each as
/// often as it is listed and in the order of the list; those of the list that the
/// cache holds are found in it, and no others.
pub proof fn missing_tracks_keep_their_order(
    cache: Map<u64, TrackMetadataView>,
    ids: Seq<u64>,
    id: u64,
    other: u64,
)
    ensures
        missing_ids(cache, Seq::empty()) == Seq::<u64>::empty(),
        cache.contains_key(id) ==> missing_ids(cache, ids.push(id)) == missing_ids(cache, ids),
        !cache.contains_key(id) ==> missing_ids(cache, ids.push(id)) == missing_ids(
            cache,
            ids,
        ).push(id),
        cached_of(cache, ids).contains_key(other) <==> ids.contains(other) && cache.contains_key(
            other,
        ),
        cached_of(cache, ids).contains_key(other) ==> cached_of(cache, ids)[other]
            == cache[other],
{
    reveal(Seq::filter);
    assert(ids.push(id).drop_last() =~= ids);
    assert(missing_ids(cache, Seq::empty()) =~= Seq::<u64>::empty());
    assert(ids.to_set().contains(other) <==> ids.contains(other));
}

// ---------------------------------------------------------------------------
// Items
// ---------------------------------------------------------------------------

/// An item is made with the numbers of its queue item and its track: its ID is
/// the queue item ID, and its track is named to Sonos by the track ID, the number
/// of Qobuz and the account of the user, without any metadata.
pub proof fn items_are_made_of_their_numbers(tracks: Seq<(u64, u64)>, sn: u32, i: int)
    requires
        0 <= i < tracks.len(),
    ensures
        ({
            let item = queue_items(tracks, sn)[i];
            &&& queue_items(tracks, sn).len() == tracks.len()
            &&& item.id == decimal(tracks[i].1 as nat)
            &&& item.track_id == tracks[i].0
            &&& item.track.id == Some(
                MusicObjectIdView {
                    object_id: "track:"@ + decimal(tracks[i].0 as nat),
                    service_id: Some("31"@),
                    account_id: Some("sn_"@ + decimal(sn as nat)),
                },
            )
            &&& item.track.name is None && item.track.artist is None && item.track.album is None
            &&& item.track.duration_millis is None && item.track.image_url is None
            &&& item.track.content_type is None
        }),
{
}

/// What is seen of items, queues and texts is what they hold.
pub proof fn queues_are_seen_as_they_are(item: CloudQueueItem, queue: QueueState, text: &str)
    ensures
        text_view(Some(text)) == Some(text@),
        text_view(None) is None,
        item@.id == item.id@,
        item@.track == item.track@,
        item@.track_id == item.track_id,
        queue@.items == seq_view(queue.items@),
        queue@.version == queue.version@,
        queue@.service_account_number == queue.service_account_number,
        queue@.client == opt_view(queue.client),
{
}

/// Of a list, the tracks that have a track ID become items, in the order of the
/// list; the others are left out.
pub proof fn tracks_with_an_id_become_items(tracks: Seq<QueueTrackRef>, t: QueueTrackRef)
    ensures
        playable(Seq::empty()) == Seq::<(u64, u64)>::empty(),
        t.track_id is None ==> playable(tracks.push(t)) == playable(tracks),
        t.track_id matches Some(id) ==> playable(tracks.push(t)) == playable(tracks).push(
            (id as u64, t.queue_item_id),
        ),
{
    assert(tracks.push(t).drop_last() =~= tracks);
    assert(playable(Seq::empty()) =~= Seq::<(u64, u64)>::empty());
}

/// A version is written as its major number, a dot and its minor number.
pub proof fn versions_are_written_with_a_dot(major: u64, minor: i32)
    ensures
        version_text(major, minor) == decimal(major as nat) + seq!['.'] + signed_decimal(
            minor as int,
        ),
{
    reveal_strlit(".");
    assert("."@ =~= seq!['.']);
}

/// Removal and moving go item by item: an item is taken where one of the IDs is
/// its own, and left where none is; what is taken and what is left keep the order
/// of the queue.
pub proof fn named_items_are_taken_in_order(items: Seq<ItemView>, item: ItemView, ids: Seq<u32>)
    ensures
        unnamed_items(Seq::empty(), ids) == Seq::<ItemView>::empty(),
        named_items(Seq::empty(), ids) == Seq::<ItemView>::empty(),
        (exists|j: int| 0 <= j < ids.len() && item.id == decimal((#[trigger] ids[j]) as nat)) ==> {
            &&& unnamed_items(items.push(item), ids) == unnamed_items(items, ids)
            &&& named_items(items.push(item), ids) == named_items(items, ids).push(item)
        },
        (forall|j: int| 0 <= j < ids.len() ==> item.id != decimal((#[trigger] ids[j]) as nat)) ==> {
            &&& unnamed_items(items.push(item), ids) == unnamed_items(items, ids).push(item)
            &&& named_items(items.push(item), ids) == named_items(items, ids)
        },
{
    reveal(Seq::filter);
    assert(items.push(item).drop_last() =~= items);
    assert(unnamed_items(Seq::empty(), ids) =~= Seq::<ItemView>::empty());
    assert(named_items(Seq::empty(), ids) =~= Seq::<ItemView>::empty());
    if exists|j: int| 0 <= j < ids.len() && item.id == decimal((#[trigger] ids[j]) as nat) {
        assert(named(ids, item.id));
    }
}

/// The place behind an item is one past the first item with its ID; where no item
/// has the ID, or none is given, it is the beginning.
pub proof fn place_behind_an_item(items: Seq<ItemView>, id: Seq<char>, i: int)
    ensures
        is_first(items, id, i) ==> insertion_index(items, Some(id)) == i + 1,
        (forall|k: int| 0 <= k < items.len() ==> (#[trigger] items[k]).id != id)
            ==> insertion_index(items, Some(id)) == 0,
        insertion_index(items, None) == 0,
{
    found_item_is_the_first(items, id);
    if is_first(items, id, i) {
        item_is_found_at_its_place(items, i);
    }
}

/// A track is looked up in the queue of its bridge alone: the first item that
/// holds the track decides, and gives the number that its ID is.
pub proof fn first_item_of_a_track_is_looked_up(
    store: Map<Seq<char>, QueueView>,
    bridge_id: Seq<char>,
    track_id: u64,
    i: int,
)
    ensures
        !store.contains_key(bridge_id) ==> stored_queue_item(store, bridge_id, track_id) is None,
        store.contains_key(bridge_id) ==> {
            let items = store[bridge_id].items;
            &&& (forall|k: int|
                0 <= k < items.len() ==> (#[trigger] items[k]).track_id != track_id)
                ==> stored_queue_item(store, bridge_id, track_id) is None
            &&& 0 <= i < items.len() && items[i].track_id == track_id && (forall|k: int|
                0 <= k < i ==> (#[trigger] items[k]).track_id != track_id) ==> stored_queue_item(
                store,
                bridge_id,
                track_id,
            ) == (match read_i32(items[i].id) {
                Some(v) => Some(v as i32),
                None => None,
            })
        },
{
    if store.contains_key(bridge_id) {
        let items = store[bridge_id].items;
        if forall|k: int| 0 <= k < items.len() ==> (#[trigger] items[k]).track_id != track_id {
            absent_track_is_not_looked_up(items, track_id);
        }
        if 0 <= i < items.len() && items[i].track_id == track_id && (forall|k: int|
            0 <= k < i ==> (#[trigger] items[k]).track_id != track_id) {
            lemma_first_item_of_track(items, track_id, i);
        }
    }
}

proof fn lemma_first_item_of_track(items: Seq<ItemView>, track_id: u64, i: int)
    requires
        0 <= i < items.len(),
        items[i].track_id == track_id,
        forall|k: int| 0 <= k < i ==> (#[trigger] items[k]).track_id != track_id,
    ensures
        queue_item_of_track(items, track_id) == (match read_i32(items[i].id) {
            Some(v) => Some(v as i32),
            None => None,
        }),
    decreases i,
{
    if i > 0 {
        let rest = items.skip(1);
        assert(items[0].track_id != track_id);
        assert forall|k: int| 0 <= k < i - 1 implies (#[trigger] rest[k]).track_id != track_id by {
            assert(rest[k] == items[k + 1]);
        }
        assert(rest[i - 1] == items[i]);
        lemma_first_item_of_track(rest, track_id, i - 1);
    }
}

/// Whether durations can be told is decided item by item, by the metadata that the
/// cache has of the track of the item.
pub proof fn durations_are_checked_item_by_item(
    items: Seq<ItemView>,
    item: ItemView,
    cache: Map<u64, TrackMetadataView>,
)
    ensures
        durations_fit(Seq::empty(), cache),
        durations_fit(items.push(item), cache) <==> durations_fit(items, cache) && (
        cache.contains_key(item.track_id) ==> cache[item.track_id].duration_secs * 1000
            <= 4294967295),
{
    let longer = items.push(item);
    assert(longer[items.len() as int] == item);
    assert forall|i: int| 0 <= i < items.len() implies items[i] == #[trigger] longer[i] by {}
    if durations_fit(longer, cache) {
        assert forall|i: int|
            0 <= i < items.len() && cache.contains_key(
                (#[trigger] items[i]).track_id,
            ) implies cache[items[i].track_id].duration_fits() by {
            assert(longer[i] == items[i]);
        }
    }
}

} // verus!
