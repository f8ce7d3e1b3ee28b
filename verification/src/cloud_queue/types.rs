//! Cloud Queue protocol types.
//!
//! What the players ask of the queue server, and what it answers.

use crate::sonos::{MusicObjectId, MusicObjectIdView, Track, TrackView};
use crate::text::{decimal, u64_to_string};
use vstd::prelude::*;

verus! {

broadcast use vstd::string::group_string_axioms;

/// The Sonos name of a Qobuz track.
pub open spec fn track_object_id(track_id: u64) -> Seq<char> {
    "track:"@ + decimal(track_id as nat)
}

/// The Sonos name of a user's account with Qobuz.
pub open spec fn account_name(service_account_number: u32) -> Seq<char> {
    "sn_"@ + decimal(service_account_number as nat)
}

/// The identity of a Qobuz track for the user of an account.
pub open spec fn track_identity(track_id: u64, service_account_number: u32) -> MusicObjectIdView {
    MusicObjectIdView {
        object_id: track_object_id(track_id),
        service_id: Some("31"@),
        account_id: Some(account_name(service_account_number)),
    }
}

/// A Qobuz track of which nothing but the identity is known.
pub open spec fn bare_track(track_id: u64, service_account_number: u32) -> TrackView {
    TrackView {
        id: Some(track_identity(track_id, service_account_number)),
        ..TrackView::blank()
    }
}

/// Writes the Sonos name of a user's account with Qobuz.
pub fn account_id(service_account_number: u32) -> (r: String)
    ensures
        r@ == account_name(service_account_number),
{
    let mut s = "sn_".to_owned();
    let digits = u64_to_string(service_account_number as u64);
    s.append(digits.as_str());
    s
}

/// Builds the identity of a Qobuz track for the user of an account.
pub fn track_music_object(track_id: u64, service_account_number: u32) -> (r: MusicObjectId)
    ensures
        r@ == track_identity(track_id, service_account_number),
{
    let mut object_id = "track:".to_owned();
    let digits = u64_to_string(track_id);
    object_id.append(digits.as_str());
    MusicObjectId {
        object_id,
        service_id: Some("31".to_owned()),
        account_id: Some(account_id(service_account_number)),
    }
}

/// Creates a track with its Qobuz identity (no metadata).
pub fn qobuz_track(track_id: u64, service_account_number: u32) -> (r: Track)
    ensures
        r@ == bare_track(track_id, service_account_number),
{
    Track { id: Some(track_music_object(track_id, service_account_number)), ..Track::default() }
}

/// Playback policies for a queue item.
#[derive(Debug, Clone, Copy, PartialEq, Eq, Structural)]
pub struct ItemPolicies {}

impl Default for ItemPolicies {
    fn default() -> (r: Self)
        ensures
            r == (ItemPolicies {  }),
    {
        ItemPolicies {  }
    }
}

/// A single item in the cloud queue.
#[derive(Debug)]
pub struct CloudQueueItem {
    /// Unique ID for this queue item.
    pub id: String,
    /// The track information.
    pub track: Track,
    /// Qobuz track ID (not sent, used for metadata lookup).
    pub track_id: u64,
    /// Playback policies for this item.
    pub policies: ItemPolicies,
}

pub struct ItemView {
    pub id: Seq<char>,
    pub track: TrackView,
    pub track_id: u64,
}

impl View for CloudQueueItem {
    type V = ItemView;

    open spec fn view(&self) -> ItemView {
        ItemView { id: self.id@, track: self.track@, track_id: self.track_id }
    }
}

impl Clone for CloudQueueItem {
    fn clone(&self) -> (r: Self)
        ensures
            r@ == self@,
    {
        CloudQueueItem {
            id: self.id.clone(),
            track: self.track.clone(),
            track_id: self.track_id,
            policies: self.policies,
        }
    }
}

/// Response for GET /context endpoint.
#[derive(Debug, Clone)]
pub struct ContextResponse {
    /// Context version string.
    pub context_version: String,
    /// Queue version string.
    pub queue_version: String,
    /// Container metadata.
    pub container: ContainerInfo,
    /// Reporting configuration.
    pub reports: ReportingConfig,
    /// Playback policies.
    pub playback_policies: PlaybackPolicies,
}

/// Reporting configuration.
#[derive(Debug, Clone, Copy, PartialEq, Eq, Structural)]
pub struct ReportingConfig {
    /// Milliseconds after which to send update.
    pub send_update_after_millis: u32,
    /// Whether to send playback actions.
    pub send_playback_actions: bool,
}

impl Default for ReportingConfig {
    fn default() -> (r: Self)
        ensures
            r == (ReportingConfig { send_update_after_millis: 0, send_playback_actions: true }),
    {
        ReportingConfig { send_update_after_millis: 0, send_playback_actions: true }
    }
}

/// Playback policies for the queue.
#[derive(Debug, Clone, Copy, PartialEq, Eq, Structural)]
pub struct PlaybackPolicies {
    pub can_skip: bool,
    pub limited_skips: bool,
    pub can_skip_to_item: bool,
    pub can_skip_back: bool,
    pub can_seek: bool,
    pub can_repeat: bool,
    pub can_repeat_one: bool,
    pub can_crossfade: bool,
    pub can_shuffle: bool,
    pub show_n_next_tracks: u32,
    pub show_n_previous_tracks: u32,
}

impl PlaybackPolicies {
    /// Everything is allowed, and no neighbouring tracks are shown.
    pub open spec fn permissive() -> PlaybackPolicies {
        PlaybackPolicies {
            can_skip: true,
            limited_skips: true,
            can_skip_to_item: true,
            can_skip_back: true,
            can_seek: true,
            can_repeat: true,
            can_repeat_one: true,
            can_crossfade: true,
            can_shuffle: true,
            show_n_next_tracks: 0,
            show_n_previous_tracks: 0,
        }
    }
}

impl Default for PlaybackPolicies {
    fn default() -> (r: Self)
        ensures
            r == PlaybackPolicies::permissive(),
    {
        PlaybackPolicies {
            can_skip: true,
            limited_skips: true,
            can_skip_to_item: true,
            can_skip_back: true,
            can_seek: true,
            can_repeat: true,
            can_repeat_one: true,
            can_crossfade: true,
            can_shuffle: true,
            show_n_next_tracks: 0,
            show_n_previous_tracks: 0,
        }
    }
}

/// The value of a policy that a message leaves out.
pub fn default_true() -> (r: bool)
    ensures
        r,
{
    true
}

/// Container metadata in context response.
#[derive(Debug, Clone)]
pub struct ContainerInfo {
    /// Container name.
    pub name: String,
    /// Container type.
    pub container_type: String,
    /// Container ID.
    pub id: ContainerId,
    /// Service information.
    pub service: ServiceInfo,
}

/// Service information.
#[derive(Debug, Clone)]
pub struct ServiceInfo {
    /// Service name.
    pub name: String,
    /// Service ID.
    pub id: String,
}

/// Container identifier.
#[derive(Debug, Clone)]
pub struct ContainerId {
    /// Service ID (31 for Qobuz).
    pub service_id: String,
    /// Object ID for the container.
    pub object_id: String,
    /// Account ID.
    pub account_id: String,
}

/// Response for GET /itemWindow endpoint.
#[derive(Debug, Clone)]
pub struct ItemWindowResponse {
    /// Whether the items include the beginning of the queue.
    pub includes_beginning_of_queue: bool,
    /// Whether the items include the end of the queue.
    pub includes_end_of_queue: bool,
    /// Context version string.
    pub context_version: String,
    /// Current queue version.
    pub queue_version: String,
    /// The requested items.
    pub items: Vec<CloudQueueItem>,
}

/// Response for GET /version endpoint.
#[derive(Debug, Clone)]
pub struct VersionResponse {
    /// Current queue version.
    pub version: String,
}

/// Query parameters for GET /itemWindow.
#[derive(Debug, Clone)]
pub struct ItemWindowQuery {
    /// The reason a player is requesting a new item window.
    /// Values like "refresh", "load", "queueCompleted", or multiple joined with "+".
    pub reason: String,
    /// The item ID to center the window on.
    /// If omitted or empty, returns the first item in the queue.
    pub item_id: Option<String>,
    /// Maximum number of tracks before the item to return.
    pub previous_window_size: Option<usize>,
    /// Maximum number of tracks after the item to return.
    pub upcoming_window_size: Option<usize>,
    /// The last cloud queue version cached by the player.
    pub queue_version: Option<String>,
    /// If true, indicates user performed a specific action (pressed play, skipped, etc).
    /// If false or omitted, the player requested the track automatically.
    pub is_explicit: bool,
}

/// Query parameters for GET /context.
#[derive(Debug, Clone)]
pub struct ContextQuery {
    pub queue_version: Option<String>,
    pub context_version: Option<String>,
}

/// The reason of a request that names none.
pub fn default_reason() -> (r: String)
    ensures
        r@ == "refresh"@,
{
    "refresh".to_owned()
}

} // verus!
