//! Queue state management.
//!
//! Maintains the queue of each bridge, from which the players are served.

use crate::cloud_queue::types::{
    bare_track, qobuz_track, CloudQueueItem, ItemPolicies, ItemView,
};
use crate::connect::QueueTrackRef;
use crate::model::{map_view, opt_view, seq_view};
use crate::qobuz_api::QobuzClient;
use crate::text::{
    decimal, i32_to_string, parse_i32, read_i32, signed_decimal, u64_to_string,
};
use vstd::hash_map::StringHashMap;
use vstd::prelude::*;

verus! {

broadcast use vstd::string::group_string_axioms;

// ---------------------------------------------------------------------------
// Model
// ---------------------------------------------------------------------------

/// A queue item that holds a track and no metadata.
pub open spec fn queue_item(track_id: u64, queue_item_id: u64, service_account_number: u32) -> ItemView {
    ItemView {
        id: decimal(queue_item_id as nat),
        track: bare_track(track_id, service_account_number),
        track_id,
    }
}

/// Queue items for pairs of a track ID and a queue item ID.
pub open spec fn queue_items(tracks: Seq<(u64, u64)>, service_account_number: u32) -> Seq<ItemView> {
    Seq::new(
        tracks.len(),
        |i: int| queue_item(tracks[i].0, tracks[i].1, service_account_number),
    )
}

/// The text of a queue version.
pub open spec fn version_text(major: u64, minor: i32) -> Seq<char> {
    decimal(major as nat) + "."@ + signed_decimal(minor as int)
}

/// The queue of one bridge.
pub struct QueueView {
    pub items: Seq<ItemView>,
    pub version: Seq<char>,
    pub service_account_number: u32,
    pub client: Option<Map<Seq<char>, Seq<char>>>,
}

/// The place of the first item with the given ID.
pub open spec fn item_index(items: Seq<ItemView>, id: Seq<char>) -> Option<int>
    decreases items.len(),
{
    if items.len() == 0 {
        None
    } else {
        match item_index(items.drop_last(), id) {
            Some(i) => Some(i),
            None => if items.last().id == id {
                Some(items.len() - 1)
            } else {
                None
            },
        }
    }
}

/// The place that a window is centered on: that of the named item, else the
/// first.
pub open spec fn window_center(items: Seq<ItemView>, item_id: Option<Seq<char>>) -> int {
    match item_id {
        Some(id) => match item_index(items, id) {
            Some(i) => i,
            None => 0,
        },
        None => 0,
    }
}

/// The place at which a window begins.
pub open spec fn window_start(items: Seq<ItemView>, item_id: Option<Seq<char>>, up_before: nat) -> int {
    let center = window_center(items, item_id);
    if center > up_before {
        center - up_before
    } else {
        0
    }
}

/// The place behind the last item of a window.
pub open spec fn window_end(items: Seq<ItemView>, item_id: Option<Seq<char>>, up_after: nat) -> int {
    let end = window_center(items, item_id) + up_after + 1;
    if end < items.len() {
        end
    } else {
        items.len() as int
    }
}

/// The items of a window.
pub open spec fn window(
    items: Seq<ItemView>,
    item_id: Option<Seq<char>>,
    up_before: nat,
    up_after: nat,
) -> Seq<ItemView> {
    if items.len() == 0 {
        items
    } else {
        items.subrange(
            window_start(items, item_id, up_before),
            window_end(items, item_id, up_after),
        )
    }
}

/// The tracks that have a track ID, as pairs with their queue item IDs.
pub open spec fn playable(tracks: Seq<QueueTrackRef>) -> Seq<(u64, u64)>
    decreases tracks.len(),
{
    if tracks.len() == 0 {
        Seq::empty()
    } else {
        match tracks.last().track_id {
            Some(id) => playable(tracks.drop_last()).push((id as u64, tracks.last().queue_item_id)),
            None => playable(tracks.drop_last()),
        }
    }
}

/// The place behind the named item, or the beginning of the queue.
pub open spec fn insertion_index(items: Seq<ItemView>, after: Option<Seq<char>>) -> int {
    match after {
        Some(id) => match item_index(items, id) {
            Some(i) => i + 1,
            None => 0,
        },
        None => 0,
    }
}

/// The queue after the tracks that have a track ID have been inserted, in their
/// order, at a place.
pub open spec fn inserted(
    items: Seq<ItemView>,
    at: int,
    tracks: Seq<QueueTrackRef>,
    service_account_number: u32,
) -> Seq<ItemView> {
    items.take(at) + queue_items(playable(tracks), service_account_number) + items.skip(at)
}

/// Whether an item is one of those that a list of queue item IDs names.
pub open spec fn named(ids: Seq<u32>, id: Seq<char>) -> bool {
    exists|j: int| 0 <= j < ids.len() && decimal((#[trigger] ids[j]) as nat) == id
}

/// The items that a list of queue item IDs does not name, in order.
pub open spec fn unnamed_items(items: Seq<ItemView>, ids: Seq<u32>) -> Seq<ItemView> {
    items.filter(|item: ItemView| !named(ids, item.id))
}

/// The items that a list of queue item IDs names, in order.
pub open spec fn named_items(items: Seq<ItemView>, ids: Seq<u32>) -> Seq<ItemView> {
    items.filter(|item: ItemView| named(ids, item.id))
}

/// The queue after the named items have been moved, in their order, behind
/// another item of the rest.
pub open spec fn reordered(items: Seq<ItemView>, ids: Seq<u32>, after: Option<Seq<char>>) -> Seq<ItemView> {
    let rest = unnamed_items(items, ids);
    let at = insertion_index(rest, after);
    rest.take(at) + named_items(items, ids) + rest.skip(at)
}

/// The queue item ID of the first item that holds a track, where it is a
/// 32-bit number.
pub open spec fn queue_item_of_track(items: Seq<ItemView>, track_id: u64) -> Option<i32>
    decreases items.len(),
{
    if items.len() == 0 {
        None
    } else if items[0].track_id == track_id {
        match read_i32(items[0].id) {
            Some(v) => Some(v as i32),
            None => None,
        }
    } else {
        queue_item_of_track(items.skip(1), track_id)
    }
}

// ---------------------------------------------------------------------------
// Queue state
// ---------------------------------------------------------------------------

/// Creates a queue item from a track ID and a queue item ID.
pub fn cloud_queue_item(track_id: u64, queue_item_id: u64, service_account_number: u32) -> (r: CloudQueueItem)
    ensures
        r@ == queue_item(track_id, queue_item_id, service_account_number),
{
    CloudQueueItem {
        id: u64_to_string(queue_item_id),
        track: qobuz_track(track_id, service_account_number),
        track_id,
        policies: ItemPolicies::default(),
    }
}

/// Writes a queue version as "major.minor".
pub fn queue_version_string(major: u64, minor: i32) -> (r: String)
    ensures
        r@ == version_text(major, minor),
{
    let mut s = u64_to_string(major);
    s.append(".");
    let tail = i32_to_string(minor);
    s.append(tail.as_str());
    s
}

/// Picks the tracks that have a track ID.
pub fn playable_tracks(tracks: &Vec<QueueTrackRef>) -> (r: Vec<(u64, u64)>)
    ensures
        r@ == playable(tracks@),
{
    let mut pairs: Vec<(u64, u64)> = Vec::new();
    let n: usize = tracks.len();
    let mut i: usize = 0;
    while i < n
        invariant
            n == tracks@.len(),
            i <= n,
            pairs@ == playable(tracks@.take(i as int)),
        decreases n - i,
    {
        let t = tracks[i];
        proof {
            assert(tracks@.take(i + 1).drop_last() =~= tracks@.take(i as int));
        }
        match t.track_id {
            Some(id) => {
                pairs.push((id as u64, t.queue_item_id));
            },
            None => {},
        }
        i = i + 1;
    }
    proof {
        assert(tracks@.take(n as int) =~= tracks@);
    }
    pairs
}

/// Queue state for a single bridge.
#[derive(Debug)]
pub struct QueueState {
    /// The queue items in order.
    pub items: Vec<CloudQueueItem>,
    /// Queue version as "major.minor" string.
    pub version: String,
    /// Service account number for this user's Qobuz account on Sonos.
    pub service_account_number: u32,
    /// Qobuz API client for fetching track metadata (lazy fetch).
    pub client: Option<QobuzClient>,
}

impl View for QueueState {
    type V = QueueView;

    open spec fn view(&self) -> QueueView {
        QueueView {
            items: seq_view(self.items@),
            version: self.version@,
            service_account_number: self.service_account_number,
            client: opt_view(self.client),
        }
    }
}

/// Copies the items at the places from `start` up to `end`.
fn copy_items(items: &Vec<CloudQueueItem>, start: usize, end: usize) -> (r: Vec<CloudQueueItem>)
    requires
        start <= end <= items@.len(),
    ensures
        seq_view(r@) == seq_view(items@).subrange(start as int, end as int),
{
    let mut copied: Vec<CloudQueueItem> = Vec::new();
    let mut i: usize = start;
    while i < end
        invariant
            start <= i <= end <= items@.len(),
            copied@.len() == i - start,
            forall|k: int| 0 <= k < i - start ==> (#[trigger] copied@[k])@ == items@[start + k]@,
        decreases end - i,
    {
        copied.push(items[i].clone());
        i = i + 1;
    }
    proof {
        assert(seq_view(copied@) =~= seq_view(items@).subrange(start as int, end as int));
    }
    copied
}

/// Copies an optional client.
pub fn clone_client(client: &Option<QobuzClient>) -> (r: Option<QobuzClient>)
    ensures
        opt_view(r) == opt_view(*client),
{
    match client {
        Some(c) => Some(c.clone()),
        None => None,
    }
}

impl Clone for QueueState {
    fn clone(&self) -> (r: Self)
        ensures
            r@ == self@,
    {
        let items = copy_items(&self.items, 0, self.items.len());
        proof {
            assert(seq_view(items@) =~= seq_view(self.items@));
        }
        QueueState {
            items,
            version: self.version.clone(),
            service_account_number: self.service_account_number,
            client: clone_client(&self.client),
        }
    }
}

impl QueueState {
    /// Creates a new empty queue state.
    pub fn new(service_account_number: u32) -> (r: Self)
        ensures
            r@ == (QueueView {
                items: Seq::empty(),
                version: "0.0"@,
                service_account_number,
                client: None,
            }),
    {
        let items: Vec<CloudQueueItem> = Vec::new();
        proof {
            assert(seq_view(items@) =~= Seq::<ItemView>::empty());
        }
        QueueState { items, version: "0.0".to_owned(), service_account_number, client: None }
    }

    /// Creates a queue state from pairs of a track ID and a queue item ID.
    pub fn from_tracks(
        tracks: &[(u64, u64)],
        version: (u64, i32),
        service_account_number: u32,
        client: Option<QobuzClient>,
    ) -> (r: Self)
        ensures
            r@ == (QueueView {
                items: queue_items(tracks@, service_account_number),
                version: version_text(version.0, version.1),
                service_account_number,
                client: opt_view(client),
            }),
    {
        let mut items: Vec<CloudQueueItem> = Vec::new();
        let n: usize = tracks.len();
        let mut i: usize = 0;
        while i < n
            invariant
                n == tracks@.len(),
                i <= n,
                items@.len() == i,
                forall|k: int|
                    0 <= k < i ==> (#[trigger] items@[k])@ == queue_item(
                        tracks@[k].0,
                        tracks@[k].1,
                        service_account_number,
                    ),
            decreases n - i,
        {
            let pair = tracks[i];
            items.push(cloud_queue_item(pair.0, pair.1, service_account_number));
            i = i + 1;
        }
        proof {
            assert(seq_view(items@) =~= queue_items(tracks@, service_account_number));
        }
        QueueState {
            items,
            version: queue_version_string(version.0, version.1),
            service_account_number,
            client,
        }
    }

    /// Gets the index of an item by its ID.
    pub fn get_item_index(&self, id: &str) -> (r: Option<usize>)
        ensures
            r is Some <==> item_index(self@.items, id@) is Some,
            r matches Some(i) ==> item_index(self@.items, id@) == Some(i as int) && i
                < self.items@.len(),
    {
        let wanted = id.to_owned();
        let n: usize = self.items.len();
        let mut i: usize = 0;
        while i < n
            invariant
                n == self.items@.len(),
                i <= n,
                wanted@ == id@,
                item_index(self@.items.take(i as int), id@) is None,
            decreases n - i,
        {
            proof {
                assert(self@.items.take(i + 1).drop_last() =~= self@.items.take(i as int));
            }
            if self.items[i].id == wanted {
                proof {
                    lemma_item_index_stable(self@.items, id@, i + 1);
                }
                return Some(i);
            }
            i = i + 1;
        }
        proof {
            assert(self@.items.take(n as int) =~= self@.items);
        }
        None
    }

    /// The place that a window is centered on.
    fn center(&self, item_id: Option<&str>) -> (r: usize)
        requires
            self.items@.len() > 0,
        ensures
            r == window_center(self@.items, text_view(item_id)),
            r < self.items@.len(),
    {
        match item_id {
            Some(id) => match self.get_item_index(id) {
                Some(i) => i,
                None => 0,
            },
            None => 0,
        }
    }

    /// Gets a window of items centered on a specific item.
    pub fn get_window(&self, item_id: Option<&str>, up_before: usize, up_after: usize) -> (r: Vec<
        CloudQueueItem,
    >)
        ensures
            seq_view(r@) == window(
                self@.items,
                text_view(item_id),
                up_before as nat,
                up_after as nat,
            ),
    {
        let (items, _, _) = self.get_window_with_bounds(item_id, up_before, up_after);
        items
    }

    /// Gets a window of items with boundary indicators.
    /// Returns (items, includes_beginning, includes_end).
    pub fn get_window_with_bounds(
        &self,
        item_id: Option<&str>,
        up_before: usize,
        up_after: usize,
    ) -> (r: (Vec<CloudQueueItem>, bool, bool))
        ensures
            seq_view(r.0@) == window(
                self@.items,
                text_view(item_id),
                up_before as nat,
                up_after as nat,
            ),
            r.1 == (self@.items.len() == 0 || window_start(
                self@.items,
                text_view(item_id),
                up_before as nat,
            ) == 0),
            r.2 == (self@.items.len() == 0 || window_end(
                self@.items,
                text_view(item_id),
                up_after as nat,
            ) == self@.items.len()),
    {
        if self.items.len() == 0 {
            let empty: Vec<CloudQueueItem> = Vec::new();
            proof {
                assert(seq_view(empty@) =~= self@.items);
            }
            return (empty, true, true);
        }
        let len: usize = self.items.len();
        let center: usize = self.center(item_id);
        let start: usize = if center > up_before {
            center - up_before
        } else {
            0
        };
        let end: usize = if up_after < len - center - 1 {
            center + up_after + 1
        } else {
            len
        };
        (copy_items(&self.items, start, end), start == 0, end == len)
    }

    /// Adds the tracks that have a track ID at the end of the queue.
    pub fn append_tracks(&mut self, tracks: &Vec<QueueTrackRef>, service_account_number: u32)
        ensures
            final(self)@ == (QueueView {
                items: old(self)@.items + queue_items(playable(tracks@), service_account_number),
                ..old(self)@
            }),
    {
        let ghost before = self@;
        let n: usize = tracks.len();
        let mut i: usize = 0;
        proof {
            assert(self@.items =~= before.items + queue_items(
                playable(tracks@.take(0)),
                service_account_number,
            ));
        }
        while i < n
            invariant
                n == tracks@.len(),
                i <= n,
                self@ == (QueueView {
                    items: before.items + queue_items(
                        playable(tracks@.take(i as int)),
                        service_account_number,
                    ),
                    ..before
                }),
            decreases n - i,
        {
            let t = tracks[i];
            let ghost items = self.items@;
            proof {
                assert(tracks@.take(i + 1).drop_last() =~= tracks@.take(i as int));
            }
            match t.track_id {
                Some(id) => {
                    self.items.push(
                        cloud_queue_item(id as u64, t.queue_item_id, service_account_number),
                    );
                    proof {
                        let item = queue_item(id as u64, t.queue_item_id, service_account_number);
                        assert(tracks@.take(i + 1).last() == t);
                        assert(self@.items =~= seq_view(items).push(item));
                        assert(self@.items =~= before.items + queue_items(
                            playable(tracks@.take(i + 1)),
                            service_account_number,
                        ));
                    }
                },
                None => {},
            }
            i = i + 1;
        }
        proof {
            assert(tracks@.take(n as int) =~= tracks@);
        }
    }

    /// The place behind the named item, or the beginning of the queue.
    fn place_after(&self, after: &Option<String>) -> (r: usize)
        ensures
            r == insertion_index(self@.items, opt_view(*after)),
            r <= self.items@.len(),
    {
        proof {
            assert(self.items.len() == self.items@.len());
        }
        match after {
            Some(id) => match self.get_item_index(id.as_str()) {
                Some(i) => i + 1,
                None => 0,
            },
            None => 0,
        }
    }

    /// Inserts the tracks that have a track ID, in their order, behind the named
    /// item, or at the beginning of the queue where it has no such item.
    pub fn insert_tracks(
        &mut self,
        tracks: &Vec<QueueTrackRef>,
        after: &Option<String>,
        service_account_number: u32,
    )
        ensures
            final(self)@ == (QueueView {
                items: inserted(
                    old(self)@.items,
                    insertion_index(old(self)@.items, opt_view(*after)),
                    tracks@,
                    service_account_number,
                ),
                ..old(self)@
            }),
    {
        let ghost before = self@;
        let at: usize = self.place_after(after);
        let n: usize = tracks.len();
        let mut i: usize = 0;
        let mut place: usize = at;
        proof {
            assert(self@.items =~= inserted(
                before.items,
                at as int,
                tracks@.take(0),
                service_account_number,
            ));
        }
        while i < n
            invariant
                n == tracks@.len(),
                i <= n,
                at <= before.items.len(),
                place == at + playable(tracks@.take(i as int)).len(),
                self@ == (QueueView {
                    items: inserted(
                        before.items,
                        at as int,
                        tracks@.take(i as int),
                        service_account_number,
                    ),
                    ..before
                }),
            decreases n - i,
        {
            let t = tracks[i];
            let ghost items = self.items@;
            proof {
                assert(tracks@.take(i + 1).drop_last() =~= tracks@.take(i as int));
                assert(tracks@.take(i + 1).last() == t);
            }
            match t.track_id {
                Some(id) => {
                    let item = cloud_queue_item(
                        id as u64,
                        t.queue_item_id,
                        service_account_number,
                    );
                    let ghost added = item@;
                    proof {
                        assert(seq_view(items).len() >= place);
                    }
                    self.items.insert(place, item);
                    proof {
                        assert(self.items.len() == self.items@.len());
                        assert(self@.items =~= seq_view(items).insert(place as int, added));
                        assert(self@.items =~= inserted(
                            before.items,
                            at as int,
                            tracks@.take(i + 1),
                            service_account_number,
                        ));
                    }
                    place = place + 1;
                },
                None => {},
            }
            i = i + 1;
        }
        proof {
            assert(tracks@.take(n as int) =~= tracks@);
        }
    }

    /// Takes the named items out of the queue and hands them over in order.
    fn split_named(&mut self, ids: &Vec<u32>) -> (r: Vec<CloudQueueItem>)
        ensures
            final(self)@ == (QueueView {
                items: unnamed_items(old(self)@.items, ids@),
                ..old(self)@
            }),
            seq_view(r@) == named_items(old(self)@.items, ids@),
    {
        let ghost before = self@;
        let names = id_texts(ids);
        let mut taken: Vec<CloudQueueItem> = Vec::new();
        let mut i: usize = 0;
        let ghost mut done: int = 0;
        proof {
            lemma_split_nothing(before.items.take(0), ids@);
            assert(seq_view(taken@) =~= named_items(before.items.take(0), ids@));
            assert(self@.items =~= unnamed_items(before.items.take(0), ids@)
                + before.items.skip(0));
        }
        while i < self.items.len()
            invariant
                0 <= done <= before.items.len(),
                names@.len() == ids@.len(),
                forall|k: int|
                    0 <= k < ids@.len() ==> (#[trigger] names@[k])@ == decimal(ids@[k] as nat),
                i == unnamed_items(before.items.take(done), ids@).len(),
                self@ == (QueueView {
                    items: unnamed_items(before.items.take(done), ids@) + before.items.skip(done),
                    ..before
                }),
                seq_view(taken@) == named_items(before.items.take(done), ids@),
            decreases before.items.len() - done,
        {
            let ghost items = self.items@;
            let ghost kept = unnamed_items(before.items.take(done), ids@);
            proof {
                lemma_split_one(before.items, done, ids@);
                assert(seq_view(items)[i as int] == before.items[done]);
                assert(before.items.skip(done) =~= seq![before.items[done]]
                    + before.items.skip(done + 1));
            }
            if is_named(&names, ids, &self.items[i].id) {
                let item = self.items.remove(i);
                let ghost old_taken = taken@;
                taken.push(item);
                proof {
                    assert(seq_view(taken@) =~= seq_view(old_taken).push(before.items[done]));
                    assert(self@.items =~= seq_view(items).remove(i as int));
                    assert(self@.items =~= kept + before.items.skip(done + 1));
                }
            } else {
                proof {
                    assert(self@.items =~= kept.push(before.items[done]) + before.items.skip(
                        done + 1,
                    ));
                }
                i = i + 1;
            }
            proof {
                done = done + 1;
            }
        }
        proof {
            assert(self@.items.len() == i + before.items.skip(done).len());
            assert(before.items.take(done) =~= before.items);
            assert(self@.items =~= unnamed_items(before.items, ids@));
        }
        taken
    }

    /// Removes the named items from the queue.
    pub fn remove_items(&mut self, ids: &Vec<u32>)
        ensures
            final(self)@ == (QueueView {
                items: unnamed_items(old(self)@.items, ids@),
                ..old(self)@
            }),
    {
        let _removed = self.split_named(ids);
    }

    /// Moves the named items, in their order, behind another item of the rest.
    pub fn reorder_items(&mut self, ids: &Vec<u32>, after: &Option<String>)
        ensures
            final(self)@ == (QueueView {
                items: reordered(old(self)@.items, ids@, opt_view(*after)),
                ..old(self)@
            }),
    {
        let ghost before = self@;
        let mut moved = self.split_named(ids);
        let ghost all_moved = seq_view(moved@);
        let ghost rest = self@.items;
        let at: usize = self.place_after(after);
        proof {
            assert(all_moved.take(moved@.len() as int) =~= all_moved);
            assert(self@.items =~= rest.take(at as int) + all_moved.skip(moved@.len() as int)
                + rest.skip(at as int));
        }
        while moved.len() > 0
            invariant
                at <= rest.len(),
                moved@.len() <= all_moved.len(),
                seq_view(moved@) == all_moved.take(moved@.len() as int),
                self@ == (QueueView {
                    items: rest.take(at as int) + all_moved.skip(moved@.len() as int)
                        + rest.skip(at as int),
                    ..before
                }),
            decreases moved@.len(),
        {
            let ghost items = self.items@;
            let ghost left = moved@;
            match moved.pop() {
                Some(item) => {
                    let ghost added = item@;
                    proof {
                        assert(added == seq_view(left)[left.len() - 1]);
                        assert(seq_view(moved@) =~= all_moved.take(moved@.len() as int));
                        assert(all_moved.skip(moved@.len() as int) =~= seq![added]
                            + all_moved.skip(left.len() as int));
                        assert(rest.take(at as int).len() == at);
                        assert(seq_view(items).len() >= at);
                    }
                    self.items.insert(at, item);
                    proof {
                        assert(self@.items =~= seq_view(items).insert(at as int, added));
                        assert(self@.items =~= rest.take(at as int) + all_moved.skip(
                            moved@.len() as int,
                        ) + rest.skip(at as int));
                    }
                },
                None => {},
            }
        }
        proof {
            assert(all_moved.skip(0) =~= all_moved);
        }
    }

    /// The queue item ID of the first item that holds a track, where it is a
    /// 32-bit number.
    pub fn queue_item_id_of(&self, track_id: u64) -> (r: Option<i32>)
        ensures
            r == queue_item_of_track(self@.items, track_id),
    {
        let n: usize = self.items.len();
        let mut i: usize = 0;
        proof {
            assert(self@.items.skip(0) =~= self@.items);
        }
        while i < n
            invariant
                n == self.items@.len(),
                i <= n,
                queue_item_of_track(self@.items, track_id) == queue_item_of_track(
                    self@.items.skip(i as int),
                    track_id,
                ),
            decreases n - i,
        {
            proof {
                assert(self@.items.skip(i as int).skip(1) =~= self@.items.skip(i + 1));
                assert(self@.items.skip(i as int)[0] == self.items@[i as int]@);
            }
            if self.items[i].track_id == track_id {
                return parse_i32(self.items[i].id.as_str());
            }
            i = i + 1;
        }
        None
    }
}

/// Store for queue states, keyed by bridge ID.
pub struct QueueStore {
    inner: StringHashMap<QueueState>,
}

impl View for QueueStore {
    type V = Map<Seq<char>, QueueView>;

    closed spec fn view(&self) -> Map<Seq<char>, QueueView> {
        map_view(self.inner@)
    }
}

impl Default for QueueStore {
    fn default() -> (r: Self)
        ensures
            r@ == Map::<Seq<char>, QueueView>::empty(),
    {
        QueueStore::new()
    }
}

impl QueueStore {
    /// Creates a new empty queue store.
    pub fn new() -> (r: Self)
        ensures
            r@ == Map::<Seq<char>, QueueView>::empty(),
    {
        let r = QueueStore { inner: StringHashMap::new() };
        proof {
            assert(r@ =~= Map::<Seq<char>, QueueView>::empty());
        }
        r
    }

    /// Updates the queue for a specific bridge.
    pub fn update(&mut self, bridge_id: &str, state: QueueState)
        ensures
            final(self)@ == old(self)@.insert(bridge_id@, state@),
    {
        let ghost before = self.inner@;
        let ghost value = state@;
        self.inner.insert(bridge_id.to_owned(), state);
        proof {
            assert(map_view(self.inner@) =~= map_view(before).insert(bridge_id@, value));
        }
    }

    /// Gets the queue state for a specific bridge.
    pub fn get(&self, bridge_id: &str) -> (r: Option<QueueState>)
        ensures
            r is Some <==> self@.contains_key(bridge_id@),
            r matches Some(state) ==> state@ == self@[bridge_id@],
    {
        match self.inner.get(bridge_id) {
            Some(state) => Some(state.clone()),
            None => None,
        }
    }
}

/// Looks up the queue item that holds a track in the queue of a bridge.
pub fn find_queue_item_id(queue_store: &QueueStore, bridge_id: &str, track_id: u64) -> (r: Option<
    i32,
>)
    ensures
        r == stored_queue_item(queue_store@, bridge_id@, track_id),
{
    match queue_store.get(bridge_id) {
        Some(state) => state.queue_item_id_of(track_id),
        None => None,
    }
}

/// The queue item that holds a track in the queue of a bridge.
pub open spec fn stored_queue_item(
    store: Map<Seq<char>, QueueView>,
    bridge_id: Seq<char>,
    track_id: u64,
) -> Option<i32> {
    if store.contains_key(bridge_id) {
        queue_item_of_track(store[bridge_id].items, track_id)
    } else {
        None
    }
}

/// The view of an optional text.
pub open spec fn text_view(o: Option<&str>) -> Option<Seq<char>> {
    match o {
        Some(s) => Some(s@),
        None => None,
    }
}

/// Writes queue item IDs as the IDs of items.
fn id_texts(ids: &Vec<u32>) -> (r: Vec<String>)
    ensures
        r@.len() == ids@.len(),
        forall|k: int| 0 <= k < ids@.len() ==> (#[trigger] r@[k])@ == decimal(ids@[k] as nat),
{
    let mut names: Vec<String> = Vec::new();
    let n: usize = ids.len();
    let mut i: usize = 0;
    while i < n
        invariant
            n == ids@.len(),
            i <= n,
            names@.len() == i,
            forall|k: int| 0 <= k < i ==> (#[trigger] names@[k])@ == decimal(ids@[k] as nat),
        decreases n - i,
    {
        names.push(u64_to_string(ids[i] as u64));
        i = i + 1;
    }
    names
}

/// Whether an item ID is among the written queue item IDs.
fn is_named(names: &Vec<String>, ids: &Vec<u32>, id: &String) -> (r: bool)
    requires
        names@.len() == ids@.len(),
        forall|k: int| 0 <= k < ids@.len() ==> (#[trigger] names@[k])@ == decimal(ids@[k] as nat),
    ensures
        r == named(ids@, id@),
{
    let n: usize = names.len();
    let mut i: usize = 0;
    while i < n
        invariant
            n == names@.len(),
            n == ids@.len(),
            i <= n,
            forall|k: int|
                0 <= k < ids@.len() ==> (#[trigger] names@[k])@ == decimal(ids@[k] as nat),
            forall|k: int| 0 <= k < i ==> decimal((#[trigger] ids@[k]) as nat) != id@,
        decreases n - i,
    {
        if names[i] == *id {
            proof {
                assert(decimal(ids@[i as int] as nat) == id@);
            }
            return true;
        }
        proof {
            assert(names@[i as int]@ == decimal(ids@[i as int] as nat));
        }
        i = i + 1;
    }
    false
}

proof fn lemma_split_nothing(items: Seq<ItemView>, ids: Seq<u32>)
    requires
        items.len() == 0,
    ensures
        unnamed_items(items, ids) =~= Seq::<ItemView>::empty(),
        named_items(items, ids) =~= Seq::<ItemView>::empty(),
{
    reveal(Seq::filter);
}

proof fn lemma_split_one(items: Seq<ItemView>, k: int, ids: Seq<u32>)
    requires
        0 <= k < items.len(),
    ensures
        named(ids, items[k].id) ==> unnamed_items(items.take(k + 1), ids) == unnamed_items(
            items.take(k),
            ids,
        ) && named_items(items.take(k + 1), ids) == named_items(items.take(k), ids).push(items[k]),
        !named(ids, items[k].id) ==> unnamed_items(items.take(k + 1), ids) == unnamed_items(
            items.take(k),
            ids,
        ).push(items[k]) && named_items(items.take(k + 1), ids) == named_items(items.take(k), ids),
{
    reveal(Seq::filter);
    assert(items.take(k + 1).drop_last() =~= items.take(k));
    assert(items.take(k + 1).last() == items[k]);
}

/// A found item is found at the same place when more items follow.
proof fn lemma_item_index_stable(items: Seq<ItemView>, id: Seq<char>, k: int)
    requires
        0 <= k <= items.len(),
        item_index(items.take(k), id) is Some,
    ensures
        item_index(items, id) == item_index(items.take(k), id),
    decreases items.len() - k,
{
    if k == items.len() {
        assert(items.take(k) =~= items);
    } else {
        assert(items.take(k + 1).drop_last() =~= items.take(k));
        lemma_item_index_stable(items, id, k + 1);
    }
}

} // verus!
