//! Answers to the requests of the Cloud Queue API.

use crate::cloud_queue::metadata_cache::{cached, missing_ids, MetadataCache};
use crate::cloud_queue::server::AppState;
use crate::cloud_queue::state::{
    clone_client, text_view, window, window_end, window_start, QueueView,
};
use crate::cloud_queue::types::{
    account_id, account_name, CloudQueueItem, ContainerId, ContainerInfo, ContextQuery,
    ContextResponse, ItemView, ItemWindowQuery, ItemWindowResponse, PlaybackPolicies,
    ReportingConfig, ServiceInfo, VersionResponse,
};
use crate::model::{clone_text, opt_view, seq_view};
use crate::num::{low_i32, wrap_i32};
use crate::qobuz_api::{QobuzClient, TrackMetadata, TrackMetadataView};
use crate::sonos::{Album, AlbumView, Artist, ArtistView, Track, TrackView};
use vstd::prelude::*;

verus! {

broadcast use vstd::string::group_string_axioms;

/// The answer to a request.
#[derive(Debug)]
pub enum Answer<T> {
    /// The bridge has a queue, and this is what was asked of it.
    Found(T),
    /// There is no queue for the bridge.
    NotFound,
}

impl<T> Answer<T> {
    /// The HTTP status of the answer.
    pub open spec fn status_code(self) -> u16 {
        match self {
            Answer::Found(_) => 200,
            Answer::NotFound => 404,
        }
    }

    /// The HTTP status of the answer.
    pub fn status(&self) -> (r: u16)
        ensures
            r == self.status_code(),
    {
        match self {
            Answer::Found(_) => 200,
            Answer::NotFound => 404,
        }
    }
}

// ---------------------------------------------------------------------------
// Context
// ---------------------------------------------------------------------------

impl ContextResponse {
    /// Whether the response presents a queue as the Qobuz playlist of a
    /// bridge.
    pub open spec fn presents(self, bridge_id: Seq<char>, queue: QueueView) -> bool {
        &&& self.context_version@ == "1"@
        &&& self.queue_version@ == queue.version
        &&& self.container.name@ == "Qobuz Queue"@
        &&& self.container.container_type@ == "playlist"@
        &&& self.container.id.service_id@ == "31"@
        &&& self.container.id.object_id@ == "queue:"@ + bridge_id
        &&& self.container.id.account_id@ == account_name(queue.service_account_number)
        &&& self.container.service.name@ == "Qobuz"@
        &&& self.container.service.id@ == "31"@
        &&& self.reports == (ReportingConfig {
            send_update_after_millis: 0,
            send_playback_actions: false,
        })
        &&& self.playback_policies == PlaybackPolicies::permissive()
    }
}

/// GET /queues/{bridge_id}/v2.3/context
///
/// Returns container metadata and current queue version.
pub fn get_context(state: &AppState, bridge_id: &str, query: &ContextQuery) -> (r: Answer<
    ContextResponse,
>)
    ensures
        r is Found <==> state.store@.contains_key(bridge_id@),
        r matches Answer::Found(response) ==> response.presents(
            bridge_id@,
            state.store@[bridge_id@],
        ),
{
    match state.store.get(bridge_id) {
        Some(queue) => {
            let mut object_id = "queue:".to_owned();
            object_id.append(bridge_id);
            Answer::Found(
                ContextResponse {
                    context_version: "1".to_owned(),
                    queue_version: queue.version.clone(),
                    container: ContainerInfo {
                        name: "Qobuz Queue".to_owned(),
                        container_type: "playlist".to_owned(),
                        id: ContainerId {
                            service_id: "31".to_owned(),
                            object_id,
                            account_id: account_id(queue.service_account_number),
                        },
                        service: ServiceInfo { name: "Qobuz".to_owned(), id: "31".to_owned() },
                    },
                    reports: ReportingConfig {
                        send_update_after_millis: 0,
                        send_playback_actions: false,
                    },
                    playback_policies: PlaybackPolicies::default(),
                },
            )
        },
        None => Answer::NotFound,
    }
}

/// GET /queues/{bridge_id}/v2.3/version
///
/// Returns just the current queue version.
pub fn get_version(state: &AppState, bridge_id: &str) -> (r: Answer<VersionResponse>)
    ensures
        r is Found <==> state.store@.contains_key(bridge_id@),
        r matches Answer::Found(response) ==> response.version@ == state.store@[bridge_id@].version,
{
    match state.store.get(bridge_id) {
        Some(queue) => Answer::Found(VersionResponse { version: queue.version.clone() }),
        None => Answer::NotFound,
    }
}

/// POST /queues/{bridge_id}/v2.3/timePlayed
///
/// Receives playback action reports from Sonos; every report is accepted.
pub fn post_time_played(bridge_id: &str) -> (r: u16)
    ensures
        r == 200,
{
    200
}

// ---------------------------------------------------------------------------
// Item window
// ---------------------------------------------------------------------------

/// A track with the metadata that Qobuz has of it.
pub open spec fn described(track: TrackView, metadata: TrackMetadataView) -> TrackView {
    TrackView {
        id: track.id,
        name: Some(metadata.title),
        artist: Some(ArtistView { name: metadata.artist_name, id: None }),
        album: Some(AlbumView { name: metadata.album_title, artist: None, id: None }),
        duration_millis: Some(wrap_i32(metadata.duration_ms() as int)),
        image_url: metadata.album_image_url,
        content_type: Some("audio/flac"@),
    }
}

/// A queue item with the metadata that the cache has of its track.
pub open spec fn with_metadata(item: ItemView, cache: Map<u64, TrackMetadataView>) -> ItemView {
    if cache.contains_key(item.track_id) {
        ItemView { track: described(item.track, cache[item.track_id]), ..item }
    } else {
        item
    }
}

/// Queue items with the metadata that the cache has of their tracks.
pub open spec fn all_with_metadata(
    items: Seq<ItemView>,
    cache: Map<u64, TrackMetadataView>,
) -> Seq<ItemView> {
    Seq::new(items.len(), |i: int| with_metadata(items[i], cache))
}

/// Whether the durations that the cache has of the tracks of these items can
/// be told in milliseconds.
pub open spec fn durations_fit(items: Seq<ItemView>, cache: Map<u64, TrackMetadataView>) -> bool {
    forall|i: int|
        0 <= i < items.len() && cache.contains_key((#[trigger] items[i]).track_id)
            ==> cache[items[i].track_id].duration_fits()
}

/// The track IDs of queue items.
pub open spec fn track_ids(items: Seq<ItemView>) -> Seq<u64> {
    Seq::new(items.len(), |i: int| items[i].track_id)
}

/// Applies Qobuz metadata to a track.
pub fn apply_metadata(track: &mut Track, metadata: &TrackMetadata)
    requires
        metadata@.duration_fits(),
    ensures
        final(track)@ == described(old(track)@, metadata@),
{
    track.name = Some(metadata.title.clone());
    track.artist = Some(Artist { name: metadata.artist_name.clone(), id: None });
    track.album = Some(Album { name: metadata.album_title.clone(), artist: None, id: None });
    let duration_ms: u32 = metadata.duration_ms();
    track.duration_millis = Some(low_i32(duration_ms as u64));
    track.image_url = clone_text(&metadata.album_image_url);
    track.content_type = Some("audio/flac".to_owned());
}

/// The number of items before the center that a request asks for.
pub open spec fn previous_size(query: ItemWindowQuery) -> usize {
    match query.previous_window_size {
        Some(n) => n,
        None => 0,
    }
}

/// The number of items behind the center that a request asks for.
pub open spec fn upcoming_size(query: ItemWindowQuery) -> usize {
    match query.upcoming_window_size {
        Some(n) => n,
        None => 10,
    }
}

/// The items of a queue that a request asks for.
pub open spec fn requested_items(queue: QueueView, query: ItemWindowQuery) -> Seq<ItemView> {
    window(
        queue.items,
        opt_view(query.item_id),
        previous_size(query) as nat,
        upcoming_size(query) as nat,
    )
}

/// A window of queue items whose metadata is still to be filled in.
#[derive(Debug)]
pub struct PendingWindow {
    pub includes_beginning_of_queue: bool,
    pub includes_end_of_queue: bool,
    pub queue_version: String,
    pub items: Vec<CloudQueueItem>,
    /// The track IDs that the cache does not hold, and the client to fetch
    /// them with; nothing where there is nothing to fetch or no client.
    pub fetch: Option<(QobuzClient, Vec<u64>)>,
}

impl PendingWindow {
    /// Whether this is the window of a queue that a request asks for, with
    /// what the cache lacks left to fetch.
    pub open spec fn answers(
        self,
        queue: QueueView,
        query: ItemWindowQuery,
        cache: Map<u64, TrackMetadataView>,
    ) -> bool {
        let items = requested_items(queue, query);
        let missing = missing_ids(cache, track_ids(items));
        &&& seq_view(self.items@) == items
        &&& self.queue_version@ == queue.version
        &&& self.includes_beginning_of_queue == (queue.items.len() == 0 || window_start(
            queue.items,
            opt_view(query.item_id),
            previous_size(query) as nat,
        ) == 0)
        &&& self.includes_end_of_queue == (queue.items.len() == 0 || window_end(
            queue.items,
            opt_view(query.item_id),
            upcoming_size(query) as nat,
        ) == queue.items.len())
        &&& self.fetch is Some <==> missing.len() > 0 && queue.client is Some
        &&& self.fetch matches Some(fetch) ==> fetch.1@ == missing && Some(fetch.0@) == queue.client
    }
}

/// The track IDs of queue items.
fn item_track_ids(items: &Vec<CloudQueueItem>) -> (r: Vec<u64>)
    ensures
        r@ == track_ids(seq_view(items@)),
{
    let mut ids: Vec<u64> = Vec::new();
    let n: usize = items.len();
    let mut i: usize = 0;
    while i < n
        invariant
            n == items@.len(),
            i <= n,
            ids@.len() == i,
            forall|k: int| 0 <= k < i ==> #[trigger] ids@[k] == items@[k].track_id,
        decreases n - i,
    {
        ids.push(items[i].track_id);
        i = i + 1;
    }
    proof {
        assert(ids@ =~= track_ids(seq_view(items@)));
    }
    ids
}

/// The item ID that a request names.
fn requested_item(query: &ItemWindowQuery) -> (r: Option<&str>)
    ensures
        text_view(r) == opt_view(query.item_id),
{
    match &query.item_id {
        Some(id) => Some(id.as_str()),
        None => None,
    }
}

/// GET /queues/{bridge_id}/v2.3/itemWindow
///
/// Returns a window of queue items centered on a specific item, and the
/// tracks of which metadata is still to be fetched.
pub fn get_item_window(state: &AppState, bridge_id: &str, query: &ItemWindowQuery) -> (r: Answer<
    PendingWindow,
>)
    ensures
        r is Found <==> state.store@.contains_key(bridge_id@),
        r matches Answer::Found(pending) ==> pending.answers(
            state.store@[bridge_id@],
            *query,
            state.metadata_cache@,
        ),
{
    match state.store.get(bridge_id) {
        Some(queue) => {
            let previous: usize = query.previous_window_size.unwrap_or(0);
            let upcoming: usize = query.upcoming_window_size.unwrap_or(10);
            let (items, beginning, end) = queue.get_window_with_bounds(
                requested_item(query),
                previous,
                upcoming,
            );
            let ids = item_track_ids(&items);
            let missing = state.metadata_cache.missing(ids.as_slice());
            let fetch = if missing.len() > 0 {
                match clone_client(&queue.client) {
                    Some(client) => Some((client, missing)),
                    None => None,
                }
            } else {
                None
            };
            Answer::Found(
                PendingWindow {
                    includes_beginning_of_queue: beginning,
                    includes_end_of_queue: end,
                    queue_version: queue.version.clone(),
                    items,
                    fetch,
                },
            )
        },
        None => Answer::NotFound,
    }
}

/// The cache after a fetch: fetched metadata goes in, a failed fetch changes
/// nothing.
pub open spec fn after_fetch(
    cache: Map<u64, TrackMetadataView>,
    fetched: Option<Seq<TrackMetadataView>>,
) -> Map<u64, TrackMetadataView> {
    match fetched {
        Some(metadata) => cached(cache, metadata),
        None => cache,
    }
}

/// Takes fetched metadata into the cache; `None` stands for a failed fetch.
pub fn absorb_fetched(cache: &mut MetadataCache, fetched: Option<Vec<TrackMetadata>>)
    ensures
        final(cache)@ == after_fetch(
            old(cache)@,
            match fetched {
                Some(metadata) => Some(seq_view(metadata@)),
                None => None,
            },
        ),
{
    match fetched {
        Some(metadata) => cache.insert_many(metadata),
        None => {},
    }
}

/// Whether the durations that the cache has of the tracks of a window can be
/// told in milliseconds.
pub fn durations_in_range(pending: &PendingWindow, cache: &MetadataCache) -> (r: bool)
    ensures
        r == durations_fit(seq_view(pending.items@), cache@),
{
    let n: usize = pending.items.len();
    let mut i: usize = 0;
    while i < n
        invariant
            n == pending.items@.len(),
            i <= n,
            forall|k: int|
                0 <= k < i && cache@.contains_key(
                    (#[trigger] seq_view(pending.items@)[k]).track_id,
                ) ==> cache@[seq_view(pending.items@)[k].track_id].duration_fits(),
        decreases n - i,
    {
        proof {
            assert(seq_view(pending.items@)[i as int].track_id == pending.items@[
                i as int
            ].track_id);
        }
        match cache.get(pending.items[i].track_id) {
            Some(metadata) => {
                if !metadata.duration_fits() {
                    return false;
                }
            },
            None => {},
        }
        i = i + 1;
    }
    true
}

/// Fills in the metadata of a window from the cache and makes the response.
pub fn finish_item_window(pending: PendingWindow, cache: &MetadataCache) -> (r: ItemWindowResponse)
    requires
        durations_fit(seq_view(pending.items@), cache@),
    ensures
        r.includes_beginning_of_queue == pending.includes_beginning_of_queue,
        r.includes_end_of_queue == pending.includes_end_of_queue,
        r.context_version@ == "1"@,
        r.queue_version@ == pending.queue_version@,
        seq_view(r.items@) == all_with_metadata(seq_view(pending.items@), cache@),
{
    let n: usize = pending.items.len();
    let mut items: Vec<CloudQueueItem> = Vec::new();
    let mut i: usize = 0;
    while i < n
        invariant
            n == pending.items@.len(),
            i <= n,
            durations_fit(seq_view(pending.items@), cache@),
            items@.len() == i,
            forall|k: int|
                0 <= k < i ==> (#[trigger] items@[k])@ == with_metadata(
                    pending.items@[k]@,
                    cache@,
                ),
        decreases n - i,
    {
        let mut item = pending.items[i].clone();
        proof {
            assert(seq_view(pending.items@)[i as int] == item@);
        }
        match cache.get(item.track_id) {
            Some(metadata) => apply_metadata(&mut item.track, &metadata),
            None => {},
        }
        items.push(item);
        i = i + 1;
    }
    proof {
        assert(seq_view(items@) =~= all_with_metadata(seq_view(pending.items@), cache@));
    }
    ItemWindowResponse {
        includes_beginning_of_queue: pending.includes_beginning_of_queue,
        includes_end_of_queue: pending.includes_end_of_queue,
        context_version: "1".to_owned(),
        queue_version: pending.queue_version,
        items,
    }
}

} // verus!
