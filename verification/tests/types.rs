use qonos::cloud_queue::types::{
    default_reason, default_true, qobuz_track, CloudQueueItem, ItemPolicies, PlaybackPolicies,
    ReportingConfig,
};
use qonos::sonos::{Album, Artist, MusicObjectId, Track};
use serde_json::Value;

fn put(object: &mut serde_json::Map<String, Value>, name: &str, value: &Option<String>) {
    if let Some(value) = value {
        object.insert(name.to_string(), Value::from(value.as_str()));
    }
}

fn identity(id: &MusicObjectId) -> Value {
    let mut object = serde_json::Map::new();
    object.insert("objectId".to_string(), Value::from(id.object_id.as_str()));
    put(&mut object, "serviceId", &id.service_id);
    put(&mut object, "accountId", &id.account_id);
    Value::Object(object)
}

/// A track as the players read it.
fn wire_track(track: &Track) -> Value {
    let mut object = serde_json::Map::new();
    if let Some(id) = &track.id {
        object.insert("id".to_string(), identity(id));
    }
    put(&mut object, "name", &track.name);
    if let Some(artist) = &track.artist {
        let mut inner = serde_json::Map::new();
        inner.insert("name".to_string(), Value::from(artist.name.as_str()));
        object.insert("artist".to_string(), Value::Object(inner));
    }
    if let Some(album) = &track.album {
        let mut inner = serde_json::Map::new();
        inner.insert("name".to_string(), Value::from(album.name.as_str()));
        object.insert("album".to_string(), Value::Object(inner));
    }
    if let Some(duration) = track.duration_millis {
        object.insert("durationMillis".to_string(), Value::from(duration));
    }
    put(&mut object, "imageUrl", &track.image_url);
    put(&mut object, "contentType", &track.content_type);
    Value::Object(object)
}

#[test]
fn test_qobuz_track_serialization() {
    let track = qobuz_track(363336060, 8);
    let json = serde_json::to_string(&wire_track(&track)).unwrap();

    assert!(json.contains(r#""serviceId":"31""#));
    assert!(json.contains(r#""objectId":"track:363336060""#));
    assert!(json.contains(r#""accountId":"sn_8""#));
}

#[test]
fn test_cloud_queue_item_serialization() {
    let item = CloudQueueItem {
        id: "1".to_string(),
        track: qobuz_track(363336060, 8),
        track_id: 363336060,
        policies: ItemPolicies::default(),
    };
    let mut object = serde_json::Map::new();
    object.insert("id".to_string(), Value::from(item.id.as_str()));
    object.insert("track".to_string(), wire_track(&item.track));
    object.insert("policies".to_string(), Value::Object(serde_json::Map::new()));
    let json = serde_json::to_string(&Value::Object(object)).unwrap();

    assert!(json.contains(r#""id":"1""#));
    assert!(json.contains(r#""track""#));
    // track_id should not be serialized
    assert!(!json.contains("track_id"));
    assert!(!json.contains("trackId"));
    assert!(json.contains(r#""objectId":"track:363336060""#));
}

#[test]
fn test_track_with_metadata() {
    let track = Track {
        id: Some(MusicObjectId {
            object_id: "track:363336060".to_string(),
            service_id: Some("31".to_string()),
            account_id: Some("sn_8".to_string()),
        }),
        name: Some("Zebra".to_string()),
        artist: Some(Artist {
            name: "Beach House".to_string(),
            id: None,
        }),
        album: Some(Album {
            name: "Teen Dream".to_string(),
            artist: None,
            id: None,
        }),
        duration_millis: Some(290000),
        image_url: Some("https://example.com/cover.jpg".to_string()),
        content_type: Some("audio/flac".to_string()),
        ..Default::default()
    };
    let json = serde_json::to_string(&wire_track(&track)).unwrap();

    assert!(json.contains(r#""name":"Zebra""#));
    assert!(json.contains(r#""durationMillis":290000"#));
    assert!(json.contains(r#""imageUrl":"https://example.com/cover.jpg""#));
    assert!(json.contains(r#""contentType":"audio/flac""#));
}

#[test]
fn a_blank_track_has_nothing() {
    let track = Track::default();
    assert_eq!(serde_json::to_string(&wire_track(&track)).unwrap(), "{}");
}

#[test]
fn defaults_allow_everything() {
    let reports = ReportingConfig::default();
    assert_eq!(reports.send_update_after_millis, 0);
    assert!(reports.send_playback_actions);
    let policies = PlaybackPolicies::default();
    assert!(policies.can_skip && policies.limited_skips && policies.can_skip_to_item);
    assert!(policies.can_skip_back && policies.can_seek && policies.can_repeat);
    assert!(policies.can_repeat_one && policies.can_crossfade && policies.can_shuffle);
    assert_eq!((policies.show_n_next_tracks, policies.show_n_previous_tracks), (0, 0));
    assert!(default_true());
    assert_eq!(default_reason(), "refresh");
}
