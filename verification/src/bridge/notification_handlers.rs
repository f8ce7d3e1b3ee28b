//! Qobuz notification handlers.
//!
//! Handles informational events from the Qobuz session: queue updates,
//! track additions/removals/reordering, device registration, etc.

use crate::bridge::state::{
    fetch_track_metadata, fetched_fits, fetched_track, fetched_view, load_request, load_step,
    start_load, BridgeState, BridgeView, CommandedState,
};
use crate::bridge::step::{
    AfterLoad, AfterTracks, Ask, AskView, LoadPlan, Step, StepView,
};
use crate::cloud_queue::state::{
    clone_client, find_queue_item_id, inserted, insertion_index, playable, playable_tracks,
    queue_items, queue_version_string, reordered, stored_queue_item,
    unnamed_items, version_text, QueueState, QueueStore, QueueView,
};
use crate::cloud_queue::types::ItemView;
use crate::connect::{
    Notification, PlayingState, QueueLoadTracks, QueueStateUpdated, QueueTrackRef,
    QueueTracksAdded, QueueTracksInserted, QueueTracksRemoved, QueueTracksReordered,
    QueueVersion, RendererStateUpdated,
};
use crate::model::{opt_view, seq_view};
use crate::num::{low_i32, wrap_i32};
use crate::qobuz_api::{
    api_headers, header_value_ok, Error, QobuzClient, QobuzUser, TrackMetadata, TrackMetadataView,
};
use crate::sonos::{Track, TrackView};
use crate::text::{decimal, i32_to_string, signed_decimal, u64_to_string};
use vstd::prelude::*;

verus! {

broadcast use vstd::string::group_string_axioms;

/// A bridge, the queues of all bridges, and the step that comes next.
pub struct Outcome {
    pub bridge: BridgeView,
    pub store: Map<Seq<char>, QueueView>,
    pub step: StepView,
}

impl Outcome {
    /// Nothing has changed, and there is nothing to do.
    pub open spec fn nothing(s: BridgeView, store: Map<Seq<char>, QueueView>) -> Outcome {
        Outcome { bridge: s, store, step: StepView::idle() }
    }
}

/// The two numbers of a queue version, zero where they are missing.
pub open spec fn version_numbers(version: Option<QueueVersion>) -> (u64, i32) {
    match version {
        Some(v) => (
            match v.major {
                Some(major) => major,
                None => 0,
            },
            match v.minor {
                Some(minor) => minor,
                None => 0,
            },
        ),
        None => (0, 0),
    }
}

/// The text of a queue version.
pub open spec fn version_line(version: Option<QueueVersion>) -> Seq<char> {
    version_text(version_numbers(version).0, version_numbers(version).1)
}

// ---------------------------------------------------------------------------
// Whole queues
// ---------------------------------------------------------------------------

/// The queue that a list of tracks stands for.
pub open spec fn queue_of(
    s: BridgeView,
    sn: u32,
    version: Option<QueueVersion>,
    tracks: Seq<QueueTrackRef>,
) -> QueueView {
    QueueView {
        items: queue_items(playable(tracks), sn),
        version: version_line(version),
        service_account_number: sn,
        client: s.qobuz_client,
    }
}

/// The track ID of the first track with the given queue item ID.
pub open spec fn named_track(tracks: Seq<QueueTrackRef>, queue_item_id: u64) -> Option<u32>
    decreases tracks.len(),
{
    if tracks.len() == 0 {
        None
    } else if tracks[0].queue_item_id == queue_item_id {
        tracks[0].track_id
    } else {
        named_track(tracks.skip(1), queue_item_id)
    }
}

/// A track ID, zero where there is none.
pub open spec fn track_or_zero(track: QueueTrackRef) -> u64 {
    match track.track_id {
        Some(id) => id as u64,
        None => 0,
    }
}

/// Where playback of a new queue starts: at the item that a playback command
/// named, else at the first.
pub open spec fn start_plan(s: BridgeView, tracks: Seq<QueueTrackRef>, sn: u32) -> LoadPlan {
    match s.pending_initial_item {
        Some((queue_item_id, position_ms)) => LoadPlan {
            queue_item_id,
            track_id: match named_track(tracks, queue_item_id) {
                Some(id) => id as u64,
                None => track_or_zero(tracks[0]),
            },
            position_ms,
            service_account_number: sn,
        },
        None => LoadPlan {
            queue_item_id: tracks[0].queue_item_id,
            track_id: track_or_zero(tracks[0]),
            position_ms: 0,
            service_account_number: sn,
        },
    }
}

/// The bridge once it has looked up its current track in its queue.
pub open spec fn refreshed(s: BridgeView, store: Map<Seq<char>, QueueView>) -> BridgeView {
    match s.current_track_id {
        Some(id) => BridgeView {
            current_queue_item_id: stored_queue_item(store, s.bridge_id, id),
            ..s
        },
        None => s,
    }
}

/// What a full queue leads to. The first queue that is not empty is loaded
/// into a new playback session.
pub open spec fn queue_state_outcome(
    s: BridgeView,
    store: Map<Seq<char>, QueueView>,
    version: Option<QueueVersion>,
    tracks: Seq<QueueTrackRef>,
) -> Outcome {
    match s.service_account_number {
        Some(sn) => {
            let store = store.insert(s.bridge_id, queue_of(s, sn, version, tracks));
            let s = refreshed(s, store);
            if s.session_id is None && tracks.len() > 0 {
                let plan = start_plan(s, tracks, sn);
                let s = BridgeView { pending_initial_item: None, ..s };
                Outcome { bridge: s, store, step: start_load(s, plan) }
            } else {
                Outcome::nothing(s, store)
            }
        },
        None => Outcome::nothing(s, store),
    }
}

/// The track that a loaded list starts with: the one at the given place, else
/// the first.
pub open spec fn target_track(tracks: Seq<QueueTrackRef>, position: Option<u32>) -> QueueTrackRef {
    let place = match position {
        Some(place) => place as int,
        None => 0,
    };
    if place < tracks.len() {
        tracks[place]
    } else {
        tracks[0]
    }
}

/// Where playback of a loaded list starts.
pub open spec fn target_plan(target: QueueTrackRef, sn: u32) -> LoadPlan {
    LoadPlan {
        queue_item_id: target.queue_item_id,
        track_id: track_or_zero(target),
        position_ms: 0,
        service_account_number: sn,
    }
}

/// The bridge once the target of a loaded list is known. Without a playback
/// session the target is kept for the first one.
pub open spec fn targeted(s: BridgeView, plan: LoadPlan) -> BridgeView {
    if s.session_id is Some {
        s
    } else {
        BridgeView { pending_initial_item: Some((plan.queue_item_id, 0)), ..s }
    }
}

/// The step once the target of a loaded list is known.
pub open spec fn target_step(s: BridgeView, plan: LoadPlan) -> StepView {
    if s.session_id is Some {
        start_load(s, plan)
    } else {
        StepView::idle()
    }
}

/// What a list of tracks to load leads to.
pub open spec fn load_tracks_outcome(
    s: BridgeView,
    store: Map<Seq<char>, QueueView>,
    version: Option<QueueVersion>,
    tracks: Seq<QueueTrackRef>,
    position: Option<u32>,
) -> Outcome {
    match s.service_account_number {
        Some(sn) => {
            let store = store.insert(s.bridge_id, queue_of(s, sn, version, tracks));
            if tracks.len() == 0 {
                Outcome::nothing(s, store)
            } else {
                let plan = target_plan(target_track(tracks, position), sn);
                let s = BridgeView {
                    current_queue_item_id: Some(wrap_i32(plan.queue_item_id as int)),
                    current_track_id: Some(plan.track_id),
                    ..s
                };
                match s.qobuz_client {
                    Some(client) => Outcome {
                        bridge: s,
                        store,
                        step: StepView::asking(
                            AskView::Tracks { client, after: AfterTracks::Target(plan) },
                        ),
                    },
                    None => Outcome { bridge: targeted(s, plan), store, step: target_step(s, plan) },
                }
            }
        },
        None => Outcome::nothing(s, store),
    }
}

// ---------------------------------------------------------------------------
// Parts of queues
// ---------------------------------------------------------------------------

/// The queues once the queue of one bridge has got new items and a new
/// version.
pub open spec fn edited(
    store: Map<Seq<char>, QueueView>,
    bridge_id: Seq<char>,
    version: Option<QueueVersion>,
    items: Seq<ItemView>,
) -> Map<Seq<char>, QueueView> {
    store.insert(
        bridge_id,
        QueueView { items, version: version_line(version), ..store[bridge_id] },
    )
}

/// The text of a queue item ID that may be negative.
pub open spec fn signed_id(id: Option<i32>) -> Option<Seq<char>> {
    match id {
        Some(id) => Some(signed_decimal(id as int)),
        None => None,
    }
}

/// The text of a queue item ID.
pub open spec fn unsigned_id(id: Option<u32>) -> Option<Seq<char>> {
    match id {
        Some(id) => Some(decimal(id as nat)),
        None => None,
    }
}

/// The queues once tracks have been added at the end of the queue.
pub open spec fn added_store(
    s: BridgeView,
    store: Map<Seq<char>, QueueView>,
    msg: QueueTracksAdded,
) -> Map<Seq<char>, QueueView> {
    if s.service_account_number is Some && store.contains_key(s.bridge_id) {
        edited(
            store,
            s.bridge_id,
            msg.queue_version,
            store[s.bridge_id].items + queue_items(
                playable(msg.tracks@),
                s.service_account_number->0,
            ),
        )
    } else {
        store
    }
}

/// The queues once tracks have been inserted behind an item of the queue.
pub open spec fn inserted_store(
    s: BridgeView,
    store: Map<Seq<char>, QueueView>,
    msg: QueueTracksInserted,
) -> Map<Seq<char>, QueueView> {
    if s.service_account_number is Some && store.contains_key(s.bridge_id) {
        let items = store[s.bridge_id].items;
        edited(
            store,
            s.bridge_id,
            msg.queue_version,
            inserted(
                items,
                insertion_index(items, signed_id(msg.insert_after)),
                msg.tracks@,
                s.service_account_number->0,
            ),
        )
    } else {
        store
    }
}

/// The queues once items have been removed from the queue.
pub open spec fn removed_store(
    s: BridgeView,
    store: Map<Seq<char>, QueueView>,
    msg: QueueTracksRemoved,
) -> Map<Seq<char>, QueueView> {
    if store.contains_key(s.bridge_id) {
        edited(
            store,
            s.bridge_id,
            msg.queue_version,
            unnamed_items(store[s.bridge_id].items, msg.queue_item_ids@),
        )
    } else {
        store
    }
}

/// The queues once items have been moved within the queue.
pub open spec fn reordered_store(
    s: BridgeView,
    store: Map<Seq<char>, QueueView>,
    msg: QueueTracksReordered,
) -> Map<Seq<char>, QueueView> {
    if store.contains_key(s.bridge_id) {
        edited(
            store,
            s.bridge_id,
            msg.queue_version,
            reordered(
                store[s.bridge_id].items,
                msg.queue_item_ids@,
                unsigned_id(msg.insert_after),
            ),
        )
    } else {
        store
    }
}

// ---------------------------------------------------------------------------
// Dispatch
// ---------------------------------------------------------------------------

/// The bridge once it has saved the state of a previous renderer.
pub open spec fn restoring(s: BridgeView, state: RendererStateUpdated) -> BridgeView {
    BridgeView {
        restored_state: state.playing(),
        restored_position: state.position_value(),
        ..s
    }
}

/// What a notification leads to. A registration leads to the question for the
/// user of a new client, where one can be built.
pub open spec fn notification_outcome(
    s: BridgeView,
    store: Map<Seq<char>, QueueView>,
    n: Notification,
) -> Outcome {
    match n {
        Notification::QueueState(msg) => queue_state_outcome(
            s,
            store,
            msg.queue_version,
            msg.tracks@,
        ),
        Notification::QueueLoadTracks(msg) => load_tracks_outcome(
            s,
            store,
            msg.queue_version,
            msg.tracks@,
            msg.queue_position,
        ),
        Notification::RestoreState(state) => Outcome::nothing(restoring(s, state), store),
        Notification::QueueTracksAdded(msg) => Outcome::nothing(s, added_store(s, store, msg)),
        Notification::QueueTracksInserted(msg) => Outcome::nothing(
            s,
            inserted_store(s, store, msg),
        ),
        Notification::QueueTracksRemoved(msg) => Outcome::nothing(
            s,
            removed_store(s, store, msg),
        ),
        Notification::QueueTracksReordered(msg) => Outcome::nothing(
            s,
            reordered_store(s, store, msg),
        ),
        Notification::DeviceRegistered { api_jwt, .. } => Outcome {
            bridge: s,
            store,
            step: StepView::asking(AskView::User { client: api_headers(api_jwt@, s.app_id) }),
        },
        _ => Outcome::nothing(s, store),
    }
}

/// Whether a notification can be handled: the token of a registration can be
/// sent in a header.
pub open spec fn notification_fits(s: BridgeView, n: Notification) -> bool {
    match n {
        Notification::DeviceRegistered { api_jwt, .. } => header_value_ok(api_jwt@)
            && header_value_ok(s.app_id),
        _ => true,
    }
}

/// The duration of the target of a loaded list, once its metadata has been
/// asked for.
pub open spec fn timed(s: BridgeView, fetched: Option<Seq<TrackMetadataView>>) -> BridgeView {
    match fetched {
        Some(metadata) => if metadata.len() > 0 {
            BridgeView { current_duration_ms: Some(metadata[0].duration_ms() as u32), ..s }
        } else {
            s
        },
        None => s,
    }
}

/// The bridge once track metadata has been asked for.
pub open spec fn after_tracks_bridge(
    s: BridgeView,
    after: AfterTracks,
    fetched: Option<Seq<TrackMetadataView>>,
) -> BridgeView {
    match after {
        AfterTracks::Load(_) => s,
        AfterTracks::Target(plan) => targeted(timed(s, fetched), plan),
    }
}

/// The step that follows once track metadata has been asked for.
pub open spec fn after_tracks_step(
    s: BridgeView,
    after: AfterTracks,
    fetched: Option<Seq<TrackMetadataView>>,
) -> StepView {
    match after {
        AfterTracks::Load(plan) => load_step(s, plan, fetched_track(fetched, plan)),
        AfterTracks::Target(plan) => target_step(timed(s, fetched), plan),
    }
}

/// The step that follows once a playback session has been asked for.
pub open spec fn session_step(
    s: BridgeView,
    plan: LoadPlan,
    track_metadata: Option<TrackView>,
    session_id: Option<Seq<char>>,
) -> StepView {
    match session_id {
        Some(session_id) => StepView::asking(
            AskView::LoadCloudQueue {
                session_id,
                request: load_request(s, plan, track_metadata),
                after: AfterLoad::FirstLoad,
            },
        ),
        None => StepView::idle(),
    }
}

/// The bridge once the player has been asked to load the cloud queue.
pub open spec fn after_load_bridge(
    s: BridgeView,
    after: AfterLoad,
    session_id: Seq<char>,
    loaded: bool,
    now: u128,
) -> BridgeView {
    if loaded {
        match after {
            AfterLoad::FirstLoad => BridgeView { session_id: Some(session_id), ..s },
            AfterLoad::Reload => BridgeView {
                commanded: Some(
                    CommandedState { state: PlayingState::Playing, position_ms: None, set_at: now },
                ),
                ..s
            },
        }
    } else {
        s
    }
}

/// The bridge once the user of its new client has been asked for.
pub open spec fn after_user_bridge(
    s: BridgeView,
    client: Map<Seq<char>, Seq<char>>,
    public_id: Option<Seq<char>>,
) -> BridgeView {
    match public_id {
        Some(_) => s,
        None => BridgeView { qobuz_client: Some(client), ..s },
    }
}

/// The step that follows once the user of the new client has been asked for.
pub open spec fn after_user_step(
    client: Map<Seq<char>, Seq<char>>,
    public_id: Option<Seq<char>>,
) -> StepView {
    match public_id {
        Some(public_id) => StepView::asking(
            AskView::Account { client, public_id, service_id: "31"@, service_name: "Qobuz"@ },
        ),
        None => StepView::idle(),
    }
}

/// The bridge once the Sonos account of the user has been asked for.
pub open spec fn after_account_bridge(
    s: BridgeView,
    client: Map<Seq<char>, Seq<char>>,
    account: Option<Option<u32>>,
) -> BridgeView {
    BridgeView {
        service_account_number: match account {
            Some(sn) => sn,
            None => s.service_account_number,
        },
        qobuz_client: Some(client),
        ..s
    }
}

/// The numbers of a queue version, zero where they are missing.
pub fn queue_version_numbers(version: Option<QueueVersion>) -> (r: (u64, i32))
    ensures
        r == version_numbers(version),
{
    match version {
        Some(v) => {
            let major: u64 = match v.major {
                Some(major) => major,
                None => 0,
            };
            let minor: i32 = match v.minor {
                Some(minor) => minor,
                None => 0,
            };
            (major, minor)
        },
        None => (0, 0),
    }
}

/// The text of a queue item ID that may be negative.
fn signed_id_text(id: Option<i32>) -> (r: Option<String>)
    ensures
        opt_view(r) == signed_id(id),
{
    match id {
        Some(id) => Some(i32_to_string(id)),
        None => None,
    }
}

/// The text of a queue item ID.
fn unsigned_id_text(id: Option<u32>) -> (r: Option<String>)
    ensures
        opt_view(r) == unsigned_id(id),
{
    match id {
        Some(id) => Some(u64_to_string(id as u64)),
        None => None,
    }
}

/// The track ID of the first track with the given queue item ID.
fn find_track(tracks: &Vec<QueueTrackRef>, queue_item_id: u64) -> (r: Option<u32>)
    ensures
        r == named_track(tracks@, queue_item_id),
{
    let n: usize = tracks.len();
    let mut i: usize = 0;
    proof {
        assert(tracks@.skip(0) =~= tracks@);
    }
    while i < n
        invariant
            n == tracks@.len(),
            i <= n,
            named_track(tracks@, queue_item_id) == named_track(
                tracks@.skip(i as int),
                queue_item_id,
            ),
        decreases n - i,
    {
        proof {
            assert(tracks@.skip(i as int).skip(1) =~= tracks@.skip(i + 1));
            assert(tracks@.skip(i as int)[0] == tracks@[i as int]);
        }
        if tracks[i].queue_item_id == queue_item_id {
            return tracks[i].track_id;
        }
        i = i + 1;
    }
    None
}

/// A track ID, zero where there is none.
fn track_id_or_zero(track: &QueueTrackRef) -> (r: u64)
    ensures
        r == track_or_zero(*track),
{
    match track.track_id {
        Some(id) => id as u64,
        None => 0,
    }
}

impl BridgeState {
    /// Whether a notification can be handled: the token of a registration can be
    /// sent in a header.
    pub fn notification_in_range(&self, n: &Notification) -> (r: bool)
        ensures
            r == notification_fits(self@, *n),
    {
        match n {
            Notification::DeviceRegistered { api_jwt, .. } => QobuzClient::accepts(
                api_jwt.as_str(),
                self.app_id.as_str(),
            ),
            _ => true,
        }
    }

    /// Dispatches a notification of the session.
    ///
    /// The one error is that the client of a newly registered device cannot be
    /// built on this machine.
    pub fn handle_notification(&mut self, queue_store: &mut QueueStore, n: Notification) -> (r:
        Result<Step, Error>)
        requires
            notification_fits(old(self)@, n),
        ensures
            final(self)@ == notification_outcome(old(self)@, old(queue_store)@, n).bridge,
            final(queue_store)@ == notification_outcome(old(self)@, old(queue_store)@, n).store,
            r matches Ok(step) ==> step@ == notification_outcome(
                old(self)@,
                old(queue_store)@,
                n,
            ).step,
            r matches Err(e) ==> n is DeviceRegistered && e is Http,
    {
        match n {
            Notification::QueueState(queue) => Ok(self.handle_queue_state(queue_store, &queue)),
            Notification::QueueLoadTracks(msg) => Ok(
                self.handle_queue_load_tracks(queue_store, &msg),
            ),
            Notification::RestoreState(state) => {
                self.handle_restore_state(&state);
                Ok(Step::idle())
            },
            Notification::QueueTracksAdded(msg) => {
                self.handle_queue_tracks_added(queue_store, &msg);
                Ok(Step::idle())
            },
            Notification::QueueTracksInserted(msg) => {
                self.handle_queue_tracks_inserted(queue_store, &msg);
                Ok(Step::idle())
            },
            Notification::QueueTracksRemoved(msg) => {
                self.handle_queue_tracks_removed(queue_store, &msg);
                Ok(Step::idle())
            },
            Notification::QueueTracksReordered(msg) => {
                self.handle_queue_tracks_reordered(queue_store, &msg);
                Ok(Step::idle())
            },
            Notification::DeviceRegistered { api_jwt, .. } => self.handle_device_registered(
                api_jwt.as_str(),
            ),
            Notification::Deactivated
            | Notification::LoopModeSet
            | Notification::ShuffleModeSet
            | Notification::Connected
            | Notification::Disconnected
            | Notification::SessionClosed
            | Notification::Other => Ok(Step::idle()),
        }
    }

    /// Puts the queue that a list of tracks stands for into the store.
    fn store_queue(
        &self,
        queue_store: &mut QueueStore,
        sn: u32,
        version: Option<QueueVersion>,
        tracks: &Vec<QueueTrackRef>,
    )
        ensures
            final(queue_store)@ == old(queue_store)@.insert(
                self@.bridge_id,
                queue_of(self@, sn, version, tracks@),
            ),
    {
        let pairs = playable_tracks(tracks);
        let numbers = queue_version_numbers(version);
        let queue = QueueState::from_tracks(
            pairs.as_slice(),
            numbers,
            sn,
            clone_client(&self.qobuz_client),
        );
        queue_store.update(self.bridge_id.as_str(), queue);
    }

    /// Handles a full queue state update.
    pub fn handle_queue_state(&mut self, queue_store: &mut QueueStore, queue: &QueueStateUpdated)
        -> (r: Step)
        ensures
            (Outcome { bridge: final(self)@, store: final(queue_store)@, step: r@ })
                == queue_state_outcome(
                old(self)@,
                old(queue_store)@,
                queue.queue_version,
                queue.tracks@,
            ),
    {
        let sn: u32 = match self.service_account_number {
            Some(sn) => sn,
            None => return Step::idle(),
        };
        self.store_queue(queue_store, sn, queue.queue_version, &queue.tracks);
        if let Some(track_id) = self.current_track_id {
            self.current_queue_item_id = find_queue_item_id(
                queue_store,
                self.bridge_id.as_str(),
                track_id,
            );
        }
        if self.session_id.is_none() && queue.tracks.len() > 0 {
            let plan = self.take_start(&queue.tracks, sn);
            self.load_cloud_queue_at(plan.queue_item_id, plan.track_id, plan.position_ms, sn)
        } else {
            Step::idle()
        }
    }

    /// Decides where playback of a new queue starts; an item that a playback
    /// command named is used up.
    fn take_start(&mut self, tracks: &Vec<QueueTrackRef>, sn: u32) -> (r: LoadPlan)
        requires
            tracks@.len() > 0,
        ensures
            r == start_plan(old(self)@, tracks@, sn),
            final(self)@ == (BridgeView { pending_initial_item: None, ..old(self)@ }),
    {
        match self.pending_initial_item {
            Some((queue_item_id, position_ms)) => {
                self.pending_initial_item = None;
                let track_id: u64 = match find_track(tracks, queue_item_id) {
                    Some(id) => id as u64,
                    None => track_id_or_zero(&tracks[0]),
                };
                LoadPlan { queue_item_id, track_id, position_ms, service_account_number: sn }
            },
            None => LoadPlan {
                queue_item_id: tracks[0].queue_item_id,
                track_id: track_id_or_zero(&tracks[0]),
                position_ms: 0,
                service_account_number: sn,
            },
        }
    }

    /// Handles a list of tracks to load (replace entire queue and start
    /// playback).
    pub fn handle_queue_load_tracks(&mut self, queue_store: &mut QueueStore, msg: &QueueLoadTracks)
        -> (r: Step)
        ensures
            (Outcome { bridge: final(self)@, store: final(queue_store)@, step: r@ })
                == load_tracks_outcome(
                old(self)@,
                old(queue_store)@,
                msg.queue_version,
                msg.tracks@,
                msg.queue_position,
            ),
    {
        let sn: u32 = match self.service_account_number {
            Some(sn) => sn,
            None => return Step::idle(),
        };
        self.store_queue(queue_store, sn, msg.queue_version, &msg.tracks);
        if msg.tracks.len() == 0 {
            return Step::idle();
        }
        let position: u32 = match msg.queue_position {
            Some(position) => position,
            None => 0,
        };
        let target = if (position as u64) < (msg.tracks.len() as u64) {
            msg.tracks[position as usize]
        } else {
            msg.tracks[0]
        };
        let plan = LoadPlan {
            queue_item_id: target.queue_item_id,
            track_id: track_id_or_zero(&target),
            position_ms: 0,
            service_account_number: sn,
        };
        self.current_queue_item_id = Some(low_i32(plan.queue_item_id));
        self.current_track_id = Some(plan.track_id);
        match &self.qobuz_client {
            Some(client) => Step::asking(
                Ask::Tracks { client: client.clone(), after: AfterTracks::Target(plan) },
            ),
            None => self.start_at_target(plan),
        }
    }

    /// Starts playback at the target of a loaded list: within a playback
    /// session at once, else with the first one.
    fn start_at_target(&mut self, plan: LoadPlan) -> (r: Step)
        ensures
            final(self)@ == targeted(old(self)@, plan),
            r@ == target_step(old(self)@, plan),
    {
        if self.session_id.is_some() {
            self.load_cloud_queue_at(
                plan.queue_item_id,
                plan.track_id,
                plan.position_ms,
                plan.service_account_number,
            )
        } else {
            self.pending_initial_item = Some((plan.queue_item_id, 0));
            Step::idle()
        }
    }

    /// Saves the state of the previous renderer, for use in the answer to an
    /// activation.
    pub fn handle_restore_state(&mut self, state: &RendererStateUpdated)
        ensures
            final(self)@ == restoring(old(self)@, *state),
    {
        self.restored_state = state.playing_state();
        self.restored_position = state.position();
    }

    /// Handles tracks being added to the end of the queue.
    pub fn handle_queue_tracks_added(&self, queue_store: &mut QueueStore, msg: &QueueTracksAdded)
        ensures
            final(queue_store)@ == added_store(self@, old(queue_store)@, *msg),
    {
        if let Some(sn) = self.service_account_number {
            if let Some(mut queue) = queue_store.get(self.bridge_id.as_str()) {
                queue.append_tracks(&msg.tracks, sn);
                self.store_edited(queue_store, queue, msg.queue_version);
            }
        }
    }

    /// Handles tracks being inserted at a specific position.
    pub fn handle_queue_tracks_inserted(
        &self,
        queue_store: &mut QueueStore,
        msg: &QueueTracksInserted,
    )
        ensures
            final(queue_store)@ == inserted_store(self@, old(queue_store)@, *msg),
    {
        if let Some(sn) = self.service_account_number {
            if let Some(mut queue) = queue_store.get(self.bridge_id.as_str()) {
                let after = signed_id_text(msg.insert_after);
                queue.insert_tracks(&msg.tracks, &after, sn);
                self.store_edited(queue_store, queue, msg.queue_version);
            }
        }
    }

    /// Handles tracks being removed from the queue.
    pub fn handle_queue_tracks_removed(
        &self,
        queue_store: &mut QueueStore,
        msg: &QueueTracksRemoved,
    )
        ensures
            final(queue_store)@ == removed_store(self@, old(queue_store)@, *msg),
    {
        if let Some(mut queue) = queue_store.get(self.bridge_id.as_str()) {
            queue.remove_items(&msg.queue_item_ids);
            self.store_edited(queue_store, queue, msg.queue_version);
        }
    }

    /// Handles tracks being reordered within the queue.
    pub fn handle_queue_tracks_reordered(
        &self,
        queue_store: &mut QueueStore,
        msg: &QueueTracksReordered,
    )
        ensures
            final(queue_store)@ == reordered_store(self@, old(queue_store)@, *msg),
    {
        if let Some(mut queue) = queue_store.get(self.bridge_id.as_str()) {
            let after = unsigned_id_text(msg.insert_after);
            queue.reorder_items(&msg.queue_item_ids, &after);
            self.store_edited(queue_store, queue, msg.queue_version);
        }
    }

    /// Puts an edited queue back into the store, with its new version.
    fn store_edited(
        &self,
        queue_store: &mut QueueStore,
        queue: QueueState,
        version: Option<QueueVersion>,
    )
        ensures
            final(queue_store)@ == old(queue_store)@.insert(
                self@.bridge_id,
                QueueView { version: version_line(version), ..queue@ },
            ),
    {
        let mut queue = queue;
        let (major, minor) = queue_version_numbers(version);
        queue.version = queue_version_string(major, minor);
        queue_store.update(self.bridge_id.as_str(), queue);
    }

    /// Handles the registration of the device, which brings a token: makes a
    /// client for metadata fetching and asks for its user.
    pub fn handle_device_registered(&self, api_jwt: &str) -> (r: Result<Step, Error>)
        requires
            header_value_ok(api_jwt@),
            header_value_ok(self@.app_id),
        ensures
            r matches Ok(step) ==> step@ == StepView::asking(
                AskView::User { client: api_headers(api_jwt@, self@.app_id) },
            ),
            r matches Err(e) ==> e is Http,
    {
        match QobuzClient::new(api_jwt, self.app_id.as_str()) {
            Ok(client) => Ok(Step::asking(Ask::User { client })),
            Err(e) => Err(e),
        }
    }

    /// Goes on with a registration once the user has been asked for; `None`
    /// stands for no answer. The account of the user on Sonos is wanted next.
    pub fn on_user(&mut self, client: QobuzClient, user: Option<QobuzUser>) -> (r: Step)
        ensures
            final(self)@ == after_user_bridge(old(self)@, client@, public_id_of(user)),
            r@ == after_user_step(client@, public_id_of(user)),
    {
        match user {
            Some(user) => Step::asking(
                Ask::Account {
                    client,
                    public_id: user.public_id,
                    service_id: "31".to_owned(),
                    service_name: "Qobuz".to_owned(),
                },
            ),
            None => {
                self.qobuz_client = Some(client);
                Step::idle()
            },
        }
    }

    /// Ends a registration once the account has been asked for; `None` stands
    /// for no answer, and an account may have no number.
    pub fn on_account(&mut self, client: QobuzClient, account: Option<Option<u32>>)
        ensures
            final(self)@ == after_account_bridge(old(self)@, client@, account),
    {
        if let Some(sn) = account {
            self.service_account_number = sn;
        }
        self.qobuz_client = Some(client);
    }

    /// Goes on once track metadata has been asked for; `None` stands for no
    /// answer.
    pub fn on_tracks(&mut self, after: AfterTracks, fetched: &Option<Vec<TrackMetadata>>) -> (r:
        Step)
        requires
            fetched_fits(fetched_view(*fetched)),
        ensures
            final(self)@ == after_tracks_bridge(old(self)@, after, fetched_view(*fetched)),
            r@ == after_tracks_step(old(self)@, after, fetched_view(*fetched)),
    {
        match after {
            AfterTracks::Load(plan) => self.load_with(plan, fetch_track_metadata(fetched, plan)),
            AfterTracks::Target(plan) => {
                if let Some(metadata) = fetched {
                    if metadata.len() > 0 {
                        proof {
                            assert(seq_view(metadata@)[0] == metadata@[0]@);
                        }
                        self.current_duration_ms = Some(metadata[0].duration_ms());
                    }
                }
                self.start_at_target(plan)
            },
        }
    }

    /// Goes on with loading the cloud queue once a playback session has been
    /// asked for; `None` stands for no answer.
    pub fn on_session_created(
        &self,
        plan: LoadPlan,
        track_metadata: Option<Track>,
        session_id: Option<String>,
    ) -> (r: Step)
        ensures
            r@ == session_step(self@, plan, opt_view(track_metadata), opt_view(session_id)),
    {
        match session_id {
            Some(session_id) => Step::asking(
                Ask::LoadCloudQueue {
                    session_id,
                    request: self.cloud_queue_request(plan, track_metadata),
                    after: AfterLoad::FirstLoad,
                },
            ),
            None => Step::idle(),
        }
    }

    /// Ends the loading of the cloud queue at `now`, when the player has
    /// loaded it or failed to.
    pub fn on_cloud_queue_loaded_at(
        &mut self,
        after: AfterLoad,
        session_id: String,
        loaded: bool,
        now: u128,
    )
        ensures
            final(self)@ == after_load_bridge(old(self)@, after, session_id@, loaded, now),
    {
        if loaded {
            match after {
                AfterLoad::FirstLoad => {
                    self.session_id = Some(session_id);
                },
                AfterLoad::Reload => {
                    self.commanded = Some(
                        CommandedState::new(PlayingState::Playing, None, now),
                    );
                },
            }
        }
    }

    /// Ends the loading of the cloud queue, when the player has loaded it or
    /// failed to.
    pub fn on_cloud_queue_loaded(&mut self, after: AfterLoad, session_id: String, loaded: bool)
        ensures
            exists|now: u128|
                {
                    &&& old(self)@.clock.shows(now)
                    &&& final(self)@ == #[trigger] after_load_bridge(
                        old(self)@,
                        after,
                        session_id@,
                        loaded,
                        now,
                    )
                },
    {
        let now: u128 = self.clock.now();
        self.on_cloud_queue_loaded_at(after, session_id, loaded, now)
    }
}

/// The public ID in an answer about the user.
pub open spec fn public_id_of(user: Option<QobuzUser>) -> Option<Seq<char>> {
    match user {
        Some(user) => Some(user.public_id@),
        None => None,
    }
}

} // verus!
