//! Bridge state and what all event handlers share.

use crate::bridge::step::{
    AfterLoad, AfterTracks, Ask, AskView, LoadPlan, Step, StepView,
};
use crate::clock::Clock;
use crate::cloud_queue::types::{account_id, account_name, track_identity, track_music_object};
use crate::connect::PlayingState;
use crate::model::{clone_text, opt_view, seq_view};
use crate::num::{low_i32, wrap_i32};
use crate::qobuz_api::{QobuzClient, TrackMetadata, TrackMetadataView};
use crate::sonos::{
    Album, AlbumView, Artist, ArtistView, CreateSessionRequest, CreateSessionView,
    LoadCloudQueueRequest, LoadCloudQueueView, Track, TrackView,
};
use crate::text::{
    behind_prefix, decimal, hex_byte, parse_unsigned, push_hex_byte, read_unsigned,
    strip_prefix, u64_to_string,
};
use vstd::prelude::*;

verus! {

broadcast use vstd::string::group_string_axioms;

// ---------------------------------------------------------------------------
// Commanded state
// ---------------------------------------------------------------------------

/// Safety timeout for commanded state override, in nanoseconds.
pub const COMMANDED_STATE_TIMEOUT: u128 = 5_000_000_000;

/// Minimum age before a commanded override is cleared on state match, in
/// nanoseconds. Prevents stale events from the old track clearing the override
/// prematurely.
pub const COMMANDED_MIN_AGE: u128 = 500_000_000;

/// What Sonos was commanded to do, so that the target state can be reported to
/// Qobuz until Sonos confirms that it caught up. This prevents transient states
/// (idle, buffering) from causing UI flicker.
#[derive(Debug, Clone, Copy, PartialEq, Eq, Structural)]
pub struct CommandedState {
    pub state: PlayingState,
    pub position_ms: Option<u32>,
    /// When the command was given, by the clock of the bridge.
    pub set_at: u128,
}

impl CommandedState {
    /// The time that has passed since the command.
    pub open spec fn age(self, now: u128) -> int {
        if now >= self.set_at {
            now - self.set_at
        } else {
            0
        }
    }

    /// Whether the command is too old to override what Sonos says.
    pub open spec fn expired(self, now: u128) -> bool {
        self.age(now) > COMMANDED_STATE_TIMEOUT
    }

    /// Whether the command is old enough that a matching state is a real
    /// confirmation, not a stale event from before the command.
    pub open spec fn confirmable(self, now: u128) -> bool {
        self.age(now) >= COMMANDED_MIN_AGE
    }

    /// A command given at `now`.
    pub fn new(state: PlayingState, position_ms: Option<u32>, now: u128) -> (r: Self)
        ensures
            r == (CommandedState { state, position_ms, set_at: now }),
    {
        CommandedState { state, position_ms, set_at: now }
    }

    /// Whether this commanded state has expired.
    pub fn is_expired(&self, now: u128) -> (r: bool)
        ensures
            r == self.expired(now),
    {
        now > self.set_at && now - self.set_at > COMMANDED_STATE_TIMEOUT
    }

    /// Whether this override is old enough that a matching state is a real
    /// confirmation, not a stale event from before the command.
    pub fn is_confirmable(&self, now: u128) -> (r: bool)
        ensures
            r == self.confirmable(now),
    {
        now > self.set_at && now - self.set_at >= COMMANDED_MIN_AGE
    }
}

/// The override that is left, and the state that Qobuz is told, when Sonos is
/// found in `sonos_state`.
pub open spec fn resolved(
    commanded: Option<CommandedState>,
    sonos_state: PlayingState,
    now: u128,
) -> (Option<CommandedState>, PlayingState) {
    match commanded {
        Some(cmd) => if cmd.state == sonos_state && cmd.confirmable(now) {
            (None, sonos_state)
        } else if !cmd.expired(now) {
            (Some(cmd), cmd.state)
        } else {
            (None, sonos_state)
        },
        None => (None, sonos_state),
    }
}

/// The position that Qobuz is told, when Sonos is found at `fresh_position`.
pub open spec fn reported_position(commanded: Option<CommandedState>, fresh_position: u32) -> u32 {
    match commanded {
        Some(cmd) => match cmd.position_ms {
            Some(position) => position,
            None => fresh_position,
        },
        None => fresh_position,
    }
}

// ---------------------------------------------------------------------------
// Bridge state
// ---------------------------------------------------------------------------

/// Configuration for cloud queue integration.
#[derive(Debug, Clone)]
pub struct CloudQueueConfig {
    /// The base URL for the cloud queue server (e.g., "http://192.168.1.100:9443").
    pub base_url: String,
}

/// All state of a bridge.
#[derive(Debug)]
pub struct BridgeState {
    // Identity
    pub name: String,
    pub bridge_id: String,
    pub app_id: String,
    // Cloud queue
    pub cloud_queue_config: CloudQueueConfig,
    // Time
    pub clock: Clock,
    // Mutable state
    pub service_account_number: Option<u32>,
    pub session_id: Option<String>,
    pub qobuz_client: Option<QobuzClient>,
    pub current_queue_item_id: Option<i32>,
    pub current_track_id: Option<u64>,
    pub current_duration_ms: Option<u32>,
    /// Queue item and position to start with when the cloud queue is loaded.
    pub pending_initial_item: Option<(u64, u32)>,
    pub commanded: Option<CommandedState>,
    pub restored_state: Option<PlayingState>,
    pub restored_position: Option<u32>,
}

pub struct BridgeView {
    pub name: Seq<char>,
    pub bridge_id: Seq<char>,
    pub app_id: Seq<char>,
    pub base_url: Seq<char>,
    pub clock: Clock,
    pub service_account_number: Option<u32>,
    pub session_id: Option<Seq<char>>,
    pub qobuz_client: Option<Map<Seq<char>, Seq<char>>>,
    pub current_queue_item_id: Option<i32>,
    pub current_track_id: Option<u64>,
    pub current_duration_ms: Option<u32>,
    pub pending_initial_item: Option<(u64, u32)>,
    pub commanded: Option<CommandedState>,
    pub restored_state: Option<PlayingState>,
    pub restored_position: Option<u32>,
}

impl BridgeView {
    /// The bridge once the state of Sonos has been held against the command.
    pub open spec fn resolving(self, sonos_state: PlayingState, now: u128) -> BridgeView {
        BridgeView { commanded: resolved(self.commanded, sonos_state, now).0, ..self }
    }
}

impl View for BridgeState {
    type V = BridgeView;

    open spec fn view(&self) -> BridgeView {
        BridgeView {
            name: self.name@,
            bridge_id: self.bridge_id@,
            app_id: self.app_id@,
            base_url: self.cloud_queue_config.base_url@,
            clock: self.clock,
            service_account_number: self.service_account_number,
            session_id: opt_view(self.session_id),
            qobuz_client: opt_view(self.qobuz_client),
            current_queue_item_id: self.current_queue_item_id,
            current_track_id: self.current_track_id,
            current_duration_ms: self.current_duration_ms,
            pending_initial_item: self.pending_initial_item,
            commanded: self.commanded,
            restored_state: self.restored_state,
            restored_position: self.restored_position,
        }
    }
}

/// The bridge ID of a device: the first four bytes of its UUID in hexadecimal.
pub open spec fn bridge_id_of(device_uuid: Seq<u8>) -> Seq<char> {
    hex_byte(device_uuid[0]) + hex_byte(device_uuid[1]) + hex_byte(device_uuid[2]) + hex_byte(
        device_uuid[3],
    )
}

/// Writes the bridge ID of a device.
pub fn bridge_id(device_uuid: &[u8; 16]) -> (r: String)
    ensures
        r@ == bridge_id_of(device_uuid@),
{
    let mut s = String::new();
    push_hex_byte(&mut s, device_uuid[0]);
    push_hex_byte(&mut s, device_uuid[1]);
    push_hex_byte(&mut s, device_uuid[2]);
    push_hex_byte(&mut s, device_uuid[3]);
    proof {
        assert(s@ =~= bridge_id_of(device_uuid@));
    }
    s
}

/// A bridge at its start: it knows its identity and nothing else.
pub open spec fn fresh_bridge(
    name: Seq<char>,
    bridge_id: Seq<char>,
    app_id: Seq<char>,
    base_url: Seq<char>,
    clock: Clock,
) -> BridgeView {
    BridgeView {
        name,
        bridge_id,
        app_id,
        base_url,
        clock,
        service_account_number: None,
        session_id: None,
        qobuz_client: None,
        current_queue_item_id: None,
        current_track_id: None,
        current_duration_ms: None,
        pending_initial_item: None,
        commanded: None,
        restored_state: None,
        restored_position: None,
    }
}

/// The track ID that the Sonos name of a track holds.
pub open spec fn track_id_in(object_id: Seq<char>) -> Option<u64> {
    match behind_prefix(object_id, "track:"@) {
        Some(rest) => match read_unsigned(rest, u64::MAX as int) {
            Some(id) => Some(id as u64),
            None => None,
        },
        None => None,
    }
}

/// Extracts the track ID from the Sonos name of a track (e.g.,
/// "track:363336060" -> 363336060).
pub fn extract_track_id(object_id: &str) -> (r: Option<u64>)
    ensures
        r == track_id_in(object_id@),
{
    match strip_prefix(object_id, "track:") {
        Some(rest) => parse_unsigned(rest, u64::MAX),
        None => None,
    }
}

// ---------------------------------------------------------------------------
// Loading the cloud queue
// ---------------------------------------------------------------------------

/// The URL under which Sonos finds the queue of a bridge.
pub open spec fn queue_url_of(base_url: Seq<char>, bridge_id: Seq<char>) -> Seq<char> {
    base_url + "/queues/"@ + bridge_id + "/v2.3/"@
}

/// A Qobuz track with its metadata, for the user of an account.
pub open spec fn shown_track(metadata: TrackMetadataView, plan: LoadPlan) -> TrackView {
    TrackView {
        id: Some(track_identity(plan.track_id, plan.service_account_number)),
        name: Some(metadata.title),
        artist: Some(ArtistView { name: metadata.artist_name, id: None }),
        album: Some(AlbumView { name: metadata.album_title, artist: None, id: None }),
        duration_millis: Some(wrap_i32(metadata.duration_ms() as int)),
        image_url: metadata.album_image_url,
        content_type: None,
    }
}

/// The track to show, from the outcome of a fetch; `None` stands for a failed
/// one.
pub open spec fn fetched_track(
    fetched: Option<Seq<TrackMetadataView>>,
    plan: LoadPlan,
) -> Option<TrackView> {
    match fetched {
        Some(metadata) => if metadata.len() > 0 {
            Some(shown_track(metadata[0], plan))
        } else {
            None
        },
        None => None,
    }
}

/// Whether the duration in the outcome of a fetch can be told in milliseconds.
pub open spec fn fetched_fits(fetched: Option<Seq<TrackMetadataView>>) -> bool {
    fetched matches Some(metadata) ==> metadata.len() > 0 ==> metadata[0].duration_fits()
}

/// The view of the outcome of a fetch.
pub open spec fn fetched_view(fetched: Option<Vec<TrackMetadata>>) -> Option<
    Seq<TrackMetadataView>,
> {
    match fetched {
        Some(metadata) => Some(seq_view(metadata@)),
        None => None,
    }
}

/// Whether the duration in the outcome of a fetch can be told in milliseconds.
pub fn fetched_in_range(fetched: &Option<Vec<TrackMetadata>>) -> (r: bool)
    ensures
        r == fetched_fits(fetched_view(*fetched)),
{
    match fetched {
        Some(metadata) => if metadata.len() > 0 {
            proof {
                assert(seq_view(metadata@)[0] == metadata@[0]@);
            }
            metadata[0].duration_fits()
        } else {
            true
        },
        None => true,
    }
}

/// The request that loads the queue of a bridge at a planned place.
pub open spec fn load_request(
    s: BridgeView,
    plan: LoadPlan,
    track_metadata: Option<TrackView>,
) -> LoadCloudQueueView {
    LoadCloudQueueView {
        queue_base_url: queue_url_of(s.base_url, s.bridge_id),
        item_id: Some(decimal(plan.queue_item_id as nat)),
        play_on_completion: Some(true),
        track_metadata,
        position_millis: if plan.position_ms > 0 {
            Some(wrap_i32(plan.position_ms as int))
        } else {
            None
        },
    }
}

/// The request that opens a playback session for a bridge.
pub open spec fn session_request(s: BridgeView) -> CreateSessionView {
    CreateSessionView {
        app_id: s.app_id,
        app_context: s.bridge_id,
        account_id: match s.service_account_number {
            Some(sn) => Some(account_name(sn)),
            None => None,
        },
    }
}

/// The step that loads the cloud queue once the track to show is known: into
/// the current session, or into a new one.
pub open spec fn load_step(
    s: BridgeView,
    plan: LoadPlan,
    track_metadata: Option<TrackView>,
) -> StepView {
    match s.session_id {
        Some(session_id) => StepView::asking(
            AskView::LoadCloudQueue {
                session_id,
                request: load_request(s, plan, track_metadata),
                after: AfterLoad::Reload,
            },
        ),
        None => StepView::asking(
            AskView::CreateSession { request: session_request(s), plan, track_metadata },
        ),
    }
}

/// The step that loads the cloud queue at a planned place: first the metadata
/// of the track is fetched, where there is a client.
pub open spec fn start_load(s: BridgeView, plan: LoadPlan) -> StepView {
    match s.qobuz_client {
        Some(client) => StepView::asking(
            AskView::Tracks { client, after: AfterTracks::Load(plan) },
        ),
        None => load_step(s, plan, None),
    }
}

/// Makes the track to show from its metadata.
fn show_track(metadata: &TrackMetadata, plan: LoadPlan) -> (r: Track)
    requires
        metadata@.duration_fits(),
    ensures
        r@ == shown_track(metadata@, plan),
{
    let duration_ms: u32 = metadata.duration_ms();
    Track {
        id: Some(track_music_object(plan.track_id, plan.service_account_number)),
        name: Some(metadata.title.clone()),
        artist: Some(Artist { name: metadata.artist_name.clone(), id: None }),
        album: Some(Album { name: metadata.album_title.clone(), artist: None, id: None }),
        duration_millis: Some(low_i32(duration_ms as u64)),
        image_url: clone_text(&metadata.album_image_url),
        content_type: None,
    }
}

/// Makes the track to show from the outcome of fetching its metadata; `None`
/// stands for a failed fetch.
pub fn fetch_track_metadata(fetched: &Option<Vec<TrackMetadata>>, plan: LoadPlan) -> (r: Option<
    Track,
>)
    requires
        fetched_fits(fetched_view(*fetched)),
    ensures
        opt_view(r) == fetched_track(fetched_view(*fetched), plan),
{
    match fetched {
        Some(metadata) => {
            if metadata.len() > 0 {
                proof {
                    assert(seq_view(metadata@)[0] == metadata@[0]@);
                }
                Some(show_track(&metadata[0], plan))
            } else {
                None
            }
        },
        None => None,
    }
}

impl BridgeState {
    /// The state of a new bridge for a device.
    pub fn new(
        name: String,
        device_uuid: &[u8; 16],
        app_id: String,
        cloud_queue_config: CloudQueueConfig,
    ) -> (r: Self)
        ensures
            r@ == fresh_bridge(
                name@,
                bridge_id_of(device_uuid@),
                app_id@,
                cloud_queue_config.base_url@,
                r.clock,
            ),
    {
        BridgeState {
            name,
            bridge_id: bridge_id(device_uuid),
            app_id,
            cloud_queue_config,
            clock: Clock::start(),
            service_account_number: None,
            session_id: None,
            qobuz_client: None,
            current_queue_item_id: None,
            current_track_id: None,
            current_duration_ms: None,
            pending_initial_item: None,
            commanded: None,
            restored_state: None,
            restored_position: None,
        }
    }

    /// Resolves the reported state at `now`, applying commanded state override
    /// logic.
    pub fn resolve_commanded_state_at(&mut self, sonos_state: PlayingState, now: u128) -> (r:
        PlayingState)
        ensures
            r == resolved(old(self)@.commanded, sonos_state, now).1,
            final(self)@ == old(self)@.resolving(sonos_state, now),
    {
        match self.commanded {
            Some(cmd) => {
                if cmd.state == sonos_state && cmd.is_confirmable(now) {
                    self.commanded = None;
                    sonos_state
                } else if !cmd.is_expired(now) {
                    cmd.state
                } else {
                    self.commanded = None;
                    sonos_state
                }
            },
            None => sonos_state,
        }
    }

    /// Resolves the reported state, applying commanded state override logic.
    ///
    /// If Sonos was recently commanded to a state and hasn't caught up yet,
    /// the commanded state is reported instead of the actual Sonos state.
    /// Returns the state to report to Qobuz.
    pub fn resolve_commanded_state(&mut self, sonos_state: PlayingState) -> (r: PlayingState)
        ensures
            exists|now: u128|
                {
                    &&& old(self)@.clock.shows(now)
                    &&& r == (#[trigger] resolved(old(self)@.commanded, sonos_state, now)).1
                    &&& final(self)@ == old(self)@.resolving(sonos_state, now)
                },
    {
        let now: u128 = self.clock.now();
        self.resolve_commanded_state_at(sonos_state, now)
    }

    /// Gets the report position, applying commanded override if present.
    pub fn resolve_report_position(&self, fresh_position: u32) -> (r: u32)
        ensures
            r == reported_position(self@.commanded, fresh_position),
    {
        match self.commanded {
            Some(cmd) => match cmd.position_ms {
                Some(position) => position,
                None => fresh_position,
            },
            None => fresh_position,
        }
    }

    /// Writes the URL under which Sonos finds the queue of this bridge.
    fn queue_url(&self) -> (r: String)
        ensures
            r@ == queue_url_of(self@.base_url, self@.bridge_id),
    {
        let mut url = self.cloud_queue_config.base_url.clone();
        url.append("/queues/");
        url.append(self.bridge_id.as_str());
        url.append("/v2.3/");
        url
    }

    /// Makes the request that loads the queue of this bridge.
    pub fn cloud_queue_request(&self, plan: LoadPlan, track_metadata: Option<Track>) -> (r:
        LoadCloudQueueRequest)
        ensures
            r@ == load_request(self@, plan, opt_view(track_metadata)),
    {
        LoadCloudQueueRequest {
            queue_base_url: self.queue_url(),
            item_id: Some(u64_to_string(plan.queue_item_id)),
            play_on_completion: Some(true),
            track_metadata,
            position_millis: if plan.position_ms > 0 {
                Some(low_i32(plan.position_ms as u64))
            } else {
                None
            },
        }
    }

    /// Goes on with loading the cloud queue once the track to show is known.
    pub fn load_with(&self, plan: LoadPlan, track_metadata: Option<Track>) -> (r: Step)
        ensures
            r@ == load_step(self@, plan, opt_view(track_metadata)),
    {
        match &self.session_id {
            Some(session_id) => Step::asking(
                Ask::LoadCloudQueue {
                    session_id: session_id.clone(),
                    request: self.cloud_queue_request(plan, track_metadata),
                    after: AfterLoad::Reload,
                },
            ),
            None => {
                let account = match self.service_account_number {
                    Some(sn) => Some(account_id(sn)),
                    None => None,
                };
                Step::asking(
                    Ask::CreateSession {
                        request: CreateSessionRequest {
                            app_id: self.app_id.clone(),
                            app_context: self.bridge_id.clone(),
                            account_id: account,
                        },
                        plan,
                        track_metadata,
                    },
                )
            },
        }
    }

    /// Loads the cloud queue on Sonos, creating a session if needed.
    ///
    /// The queue is loaded at a specific item and position.
    pub fn load_cloud_queue_at(
        &self,
        queue_item_id: u64,
        track_id: u64,
        position_ms: u32,
        sn: u32,
    ) -> (r: Step)
        ensures
            r@ == start_load(
                self@,
                LoadPlan { queue_item_id, track_id, position_ms, service_account_number: sn },
            ),
    {
        let plan = LoadPlan { queue_item_id, track_id, position_ms, service_account_number: sn };
        match &self.qobuz_client {
            Some(client) => Step::asking(
                Ask::Tracks { client: client.clone(), after: AfterTracks::Load(plan) },
            ),
            None => self.load_with(plan, None),
        }
    }
}

} // verus!
