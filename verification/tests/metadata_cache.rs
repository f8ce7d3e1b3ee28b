use qonos::cloud_queue::metadata_cache::MetadataCache;
use qonos::qobuz_api::TrackMetadata;

fn sample_metadata(id: u64) -> TrackMetadata {
    TrackMetadata {
        id,
        title: format!("Track {id}"),
        duration_secs: 180,
        artist_name: "Artist".to_string(),
        album_title: "Album".to_string(),
        album_image_url: None,
    }
}

#[test]
fn test_insert_and_get() {
    let mut cache = MetadataCache::new();
    let metadata = sample_metadata(123);

    cache.insert(metadata.clone());

    let retrieved = cache.get(123);
    assert!(retrieved.is_some());
    assert_eq!(retrieved.unwrap().title, "Track 123");
}

#[test]
fn test_get_missing() {
    let cache = MetadataCache::new();
    assert!(cache.get(999).is_none());
}

#[test]
fn test_insert_many_and_get_many() {
    let mut cache = MetadataCache::new();
    let metadata = vec![sample_metadata(1), sample_metadata(2), sample_metadata(3)];

    cache.insert_many(metadata);

    let retrieved = cache.get_many(&[1, 2, 4]);
    assert_eq!(retrieved.len(), 2);
    assert!(retrieved.contains_key(&1));
    assert!(retrieved.contains_key(&2));
    assert!(!retrieved.contains_key(&4));
}

#[test]
fn test_missing() {
    let mut cache = MetadataCache::new();
    cache.insert_many(vec![sample_metadata(1), sample_metadata(3)]);

    let missing = cache.missing(&[1, 2, 3, 4]);
    assert_eq!(missing, vec![2, 4]);
}

#[test]
fn later_metadata_of_a_track_replaces_earlier() {
    let mut cache = MetadataCache::default();
    let mut renamed = sample_metadata(7);
    renamed.title = "Renamed".to_string();

    cache.insert_many(vec![sample_metadata(7), sample_metadata(8), renamed]);

    assert_eq!(cache.len(), 2);
    assert_eq!(cache.get(7).unwrap().title, "Renamed");
    assert_eq!(cache.get(8).unwrap().title, "Track 8");
}

#[test]
fn a_repeated_track_is_missing_as_often() {
    let cache = MetadataCache::new();
    assert_eq!(cache.missing(&[5, 6, 5]), vec![5, 6, 5]);
    assert_eq!(cache.len(), 0);
}
