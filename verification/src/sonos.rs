//! What the bridge says to a Sonos player and hears from it, as plain values.

use crate::model::{clone_text, opt_view};
use vstd::prelude::*;

verus! {

/// The identity of a track, album or artist in a music service.
#[derive(Debug)]
pub struct MusicObjectId {
    pub object_id: String,
    pub service_id: Option<String>,
    pub account_id: Option<String>,
}

pub struct MusicObjectIdView {
    pub object_id: Seq<char>,
    pub service_id: Option<Seq<char>>,
    pub account_id: Option<Seq<char>>,
}

impl View for MusicObjectId {
    type V = MusicObjectIdView;

    open spec fn view(&self) -> MusicObjectIdView {
        MusicObjectIdView {
            object_id: self.object_id@,
            service_id: opt_view(self.service_id),
            account_id: opt_view(self.account_id),
        }
    }
}

impl Clone for MusicObjectId {
    fn clone(&self) -> (r: Self)
        ensures
            r@ == self@,
    {
        MusicObjectId {
            object_id: self.object_id.clone(),
            service_id: clone_text(&self.service_id),
            account_id: clone_text(&self.account_id),
        }
    }
}

/// Copies an optional identity.
fn clone_id(o: &Option<MusicObjectId>) -> (r: Option<MusicObjectId>)
    ensures
        opt_view(r) == opt_view(*o),
{
    match o {
        Some(id) => Some(id.clone()),
        None => None,
    }
}

/// An artist as Sonos shows one.
#[derive(Debug)]
pub struct Artist {
    pub name: String,
    pub id: Option<MusicObjectId>,
}

pub struct ArtistView {
    pub name: Seq<char>,
    pub id: Option<MusicObjectIdView>,
}

impl View for Artist {
    type V = ArtistView;

    open spec fn view(&self) -> ArtistView {
        ArtistView { name: self.name@, id: opt_view(self.id) }
    }
}

impl Clone for Artist {
    fn clone(&self) -> (r: Self)
        ensures
            r@ == self@,
    {
        Artist { name: self.name.clone(), id: clone_id(&self.id) }
    }
}

/// Copies an optional artist.
fn clone_artist(o: &Option<Artist>) -> (r: Option<Artist>)
    ensures
        opt_view(r) == opt_view(*o),
{
    match o {
        Some(artist) => Some(artist.clone()),
        None => None,
    }
}

/// An album as Sonos shows one.
#[derive(Debug)]
pub struct Album {
    pub name: String,
    pub artist: Option<Artist>,
    pub id: Option<MusicObjectId>,
}

pub struct AlbumView {
    pub name: Seq<char>,
    pub artist: Option<ArtistView>,
    pub id: Option<MusicObjectIdView>,
}

impl View for Album {
    type V = AlbumView;

    open spec fn view(&self) -> AlbumView {
        AlbumView { name: self.name@, artist: opt_view(self.artist), id: opt_view(self.id) }
    }
}

impl Clone for Album {
    fn clone(&self) -> (r: Self)
        ensures
            r@ == self@,
    {
        Album {
            name: self.name.clone(),
            artist: clone_artist(&self.artist),
            id: clone_id(&self.id),
        }
    }
}

/// Track metadata in the form that Sonos plays and shows it.
#[derive(Debug)]
pub struct Track {
    pub id: Option<MusicObjectId>,
    pub name: Option<String>,
    pub artist: Option<Artist>,
    pub album: Option<Album>,
    pub duration_millis: Option<i32>,
    pub image_url: Option<String>,
    pub content_type: Option<String>,
}

pub struct TrackView {
    pub id: Option<MusicObjectIdView>,
    pub name: Option<Seq<char>>,
    pub artist: Option<ArtistView>,
    pub album: Option<AlbumView>,
    pub duration_millis: Option<i32>,
    pub image_url: Option<Seq<char>>,
    pub content_type: Option<Seq<char>>,
}

impl TrackView {
    /// A track of which nothing is known.
    pub open spec fn blank() -> TrackView {
        TrackView {
            id: None,
            name: None,
            artist: None,
            album: None,
            duration_millis: None,
            image_url: None,
            content_type: None,
        }
    }
}

impl View for Track {
    type V = TrackView;

    open spec fn view(&self) -> TrackView {
        TrackView {
            id: opt_view(self.id),
            name: opt_view(self.name),
            artist: opt_view(self.artist),
            album: opt_view(self.album),
            duration_millis: self.duration_millis,
            image_url: opt_view(self.image_url),
            content_type: opt_view(self.content_type),
        }
    }
}

impl Default for Track {
    fn default() -> (r: Self)
        ensures
            r@ == TrackView::blank(),
    {
        Track {
            id: None,
            name: None,
            artist: None,
            album: None,
            duration_millis: None,
            image_url: None,
            content_type: None,
        }
    }
}

impl Clone for Track {
    fn clone(&self) -> (r: Self)
        ensures
            r@ == self@,
    {
        let album = match &self.album {
            Some(album) => Some(album.clone()),
            None => None,
        };
        Track {
            id: clone_id(&self.id),
            name: clone_text(&self.name),
            artist: clone_artist(&self.artist),
            album,
            duration_millis: self.duration_millis,
            image_url: clone_text(&self.image_url),
            content_type: clone_text(&self.content_type),
        }
    }
}

/// What a Sonos group is doing.
#[derive(Debug, Clone, Copy, PartialEq, Eq, Structural)]
pub enum PlayState {
    Idle,
    Buffering,
    Playing,
    Paused,
}

/// Playback status of a Sonos group.
#[derive(Debug, Clone, Copy, PartialEq, Eq, Structural)]
pub struct PlaybackStatus {
    pub state: PlayState,
    pub position_millis: Option<i32>,
}

/// Volume of a Sonos group.
#[derive(Debug, Clone, Copy, PartialEq, Eq, Structural)]
pub struct GroupVolume {
    pub volume: u8,
    pub muted: bool,
}

/// The item that a Sonos group is playing.
#[derive(Debug)]
pub struct CurrentItem {
    pub track: Option<Track>,
}

/// Metadata status of a Sonos group.
#[derive(Debug)]
pub struct MetadataStatus {
    pub current_item: Option<CurrentItem>,
}

impl View for MetadataStatus {
    /// The track that the status names, if any.
    type V = Option<TrackView>;

    open spec fn view(&self) -> Option<TrackView> {
        match self.current_item {
            Some(item) => opt_view(item.track),
            None => None,
        }
    }
}

/// Something that a Sonos player informs the bridge of.
#[derive(Debug)]
pub enum PlayerEvent {
    PlaybackError,
    PlaybackChanged(PlaybackStatus),
    MetadataChanged(MetadataStatus),
    VolumeChanged(GroupVolume),
    Disconnected,
    /// Any other event.
    Other,
}

/// A request to open a playback session on a group.
#[derive(Debug)]
pub struct CreateSessionRequest {
    pub app_id: String,
    pub app_context: String,
    pub account_id: Option<String>,
}

pub struct CreateSessionView {
    pub app_id: Seq<char>,
    pub app_context: Seq<char>,
    pub account_id: Option<Seq<char>>,
}

impl View for CreateSessionRequest {
    type V = CreateSessionView;

    open spec fn view(&self) -> CreateSessionView {
        CreateSessionView {
            app_id: self.app_id@,
            app_context: self.app_context@,
            account_id: opt_view(self.account_id),
        }
    }
}

/// A request to load a cloud queue into a playback session.
#[derive(Debug)]
pub struct LoadCloudQueueRequest {
    pub queue_base_url: String,
    pub item_id: Option<String>,
    pub play_on_completion: Option<bool>,
    pub track_metadata: Option<Track>,
    pub position_millis: Option<i32>,
}

pub struct LoadCloudQueueView {
    pub queue_base_url: Seq<char>,
    pub item_id: Option<Seq<char>>,
    pub play_on_completion: Option<bool>,
    pub track_metadata: Option<TrackView>,
    pub position_millis: Option<i32>,
}

impl View for LoadCloudQueueRequest {
    type V = LoadCloudQueueView;

    open spec fn view(&self) -> LoadCloudQueueView {
        LoadCloudQueueView {
            queue_base_url: self.queue_base_url@,
            item_id: opt_view(self.item_id),
            play_on_completion: self.play_on_completion,
            track_metadata: opt_view(self.track_metadata),
            position_millis: self.position_millis,
        }
    }
}

// ---------------------------------------------------------------------------
// Laws
// ---------------------------------------------------------------------------


/// What is seen of a track is what it holds, and a blank track holds nothing.
pub proof fn tracks_are_seen_as_they_are(id: MusicObjectId, artist: Artist, album: Album, t: Track)
    ensures
        id@.object_id == id.object_id@,
        id@.service_id == opt_view(id.service_id),
        id@.account_id == opt_view(id.account_id),
        artist@.name == artist.name@,
        artist@.id == opt_view(artist.id),
        album@.name == album.name@,
        album@.artist == opt_view(album.artist),
        album@.id == opt_view(album.id),
        t@.id == opt_view(t.id),
        t@.name == opt_view(t.name),
        t@.artist == opt_view(t.artist),
        t@.album == opt_view(t.album),
        t@.duration_millis == t.duration_millis,
        t@.image_url == opt_view(t.image_url),
        t@.content_type == opt_view(t.content_type),
        TrackView::blank().id is None && TrackView::blank().name is None,
        TrackView::blank().artist is None && TrackView::blank().album is None,
        TrackView::blank().duration_millis is None && TrackView::blank().image_url is None,
        TrackView::blank().content_type is None,
{
}

/// What is seen of requests and of the metadata status is what they hold.
pub proof fn requests_are_seen_as_they_are(
    create: CreateSessionRequest,
    load: LoadCloudQueueRequest,
    status: MetadataStatus,
)
    ensures
        create@.app_id == create.app_id@,
        create@.app_context == create.app_context@,
        create@.account_id == opt_view(create.account_id),
        load@.queue_base_url == load.queue_base_url@,
        load@.item_id == opt_view(load.item_id),
        load@.play_on_completion == load.play_on_completion,
        load@.track_metadata == opt_view(load.track_metadata),
        load@.position_millis == load.position_millis,
        status.current_item is None ==> status@ is None,
        status.current_item matches Some(item) ==> status@ == opt_view(item.track),
{
}

} // verus!
