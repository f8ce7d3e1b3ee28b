use qonos::cloud_queue::handlers::{
    absorb_fetched, apply_metadata, durations_in_range, finish_item_window, get_context,
    get_item_window, get_version, post_time_played, Answer,
};
use qonos::cloud_queue::server::CloudQueueServer;
use qonos::cloud_queue::state::QueueState;
use qonos::cloud_queue::types::{default_reason, qobuz_track, ContextQuery, ItemWindowQuery};
use qonos::qobuz_api::{QobuzClient, TrackMetadata};

fn context_query() -> ContextQuery {
    ContextQuery { queue_version: None, context_version: None }
}

fn window_query(item_id: &str) -> ItemWindowQuery {
    ItemWindowQuery {
        reason: default_reason(),
        item_id: Some(item_id.to_string()),
        previous_window_size: None,
        upcoming_window_size: None,
        queue_version: None,
        is_explicit: false,
    }
}

fn metadata(id: u64, duration_secs: u32) -> TrackMetadata {
    TrackMetadata {
        id,
        title: format!("Track {id}"),
        duration_secs,
        artist_name: "Artist".to_string(),
        album_title: "Album".to_string(),
        album_image_url: Some("https://example.com/cover.jpg".to_string()),
    }
}

#[test]
fn test_get_context_not_found() {
    let server = CloudQueueServer::new(9443);

    let response = get_context(&server.state, "unknown", &context_query());

    assert_eq!(response.status(), 404);
}

#[test]
fn test_get_context_success() {
    let mut server = CloudQueueServer::new(9443);
    let state = QueueState::new(8);
    server.state.store.update("test-bridge", state);

    let response = get_context(&server.state, "test-bridge", &context_query());

    assert_eq!(response.status(), 200);
}

#[test]
fn test_get_item_window_success() {
    let mut server = CloudQueueServer::new(9443);
    let tracks = vec![(123, 1), (456, 2), (789, 3)];
    let state = QueueState::from_tracks(&tracks, (1, 0), 8, None);
    server.state.store.update("test-bridge", state);

    let query = window_query("1");
    let response = get_item_window(&server.state, "test-bridge", &query);

    assert_eq!(response.status(), 200);
}

#[test]
fn test_get_version_success() {
    let mut server = CloudQueueServer::new(9443);
    let state = QueueState::new(8);
    server.state.store.update("test-bridge", state);

    let response = get_version(&server.state, "test-bridge");

    assert_eq!(response.status(), 200);
}

#[test]
fn the_context_presents_the_queue() {
    let mut server = CloudQueueServer::new(9443);
    assert_eq!(server.port, 9443);
    let state = QueueState::from_tracks(&[(1, 1)], (3, 4), 8, None);
    server.state.store.update("b1", state);
    match get_context(&server.state, "b1", &context_query()) {
        Answer::Found(context) => {
            assert_eq!(context.context_version, "1");
            assert_eq!(context.queue_version, "3.4");
            assert_eq!(context.container.name, "Qobuz Queue");
            assert_eq!(context.container.container_type, "playlist");
            assert_eq!(context.container.id.service_id, "31");
            assert_eq!(context.container.id.object_id, "queue:b1");
            assert_eq!(context.container.id.account_id, "sn_8");
            assert_eq!(context.container.service.name, "Qobuz");
            assert_eq!(context.container.service.id, "31");
            assert!(!context.reports.send_playback_actions);
            assert!(context.playback_policies.can_skip);
        }
        Answer::NotFound => panic!("no context"),
    }
    match get_version(&server.state, "b1") {
        Answer::Found(version) => assert_eq!(version.version, "3.4"),
        Answer::NotFound => panic!("no version"),
    }
    assert_eq!(get_version(&server.state, "b2").status(), 404);
    assert!(server.store().get("b1").is_some());
}

#[test]
fn reports_are_accepted() {
    assert_eq!(post_time_played("anything"), 200);
}

#[test]
fn a_window_without_a_client_fetches_nothing() {
    let mut server = CloudQueueServer::new(9443);
    let state = QueueState::from_tracks(&[(123, 1), (456, 2)], (1, 0), 8, None);
    server.state.store.update("b1", state);
    match get_item_window(&server.state, "b1", &window_query("2")) {
        Answer::Found(pending) => {
            assert!(pending.fetch.is_none());
            assert!(!pending.includes_beginning_of_queue);
            assert!(pending.includes_end_of_queue);
            assert!(durations_in_range(&pending, &server.state.metadata_cache));
            let response = finish_item_window(pending, &server.state.metadata_cache);
            assert_eq!(response.context_version, "1");
            assert_eq!(response.queue_version, "1.0");
            assert_eq!(response.items.len(), 1);
            assert_eq!(response.items[0].id, "2");
            assert!(response.items[0].track.name.is_none());
        }
        Answer::NotFound => panic!("no window"),
    }
    assert_eq!(get_item_window(&server.state, "b2", &window_query("2")).status(), 404);
}

#[test]
fn a_window_fetches_what_the_cache_lacks() {
    let mut server = CloudQueueServer::new(9443);
    let client = QobuzClient::new("token", "app").unwrap();
    let tracks = [(10, 1), (20, 2), (30, 3)];
    let state = QueueState::from_tracks(&tracks, (1, 0), 8, Some(client));
    server.state.store.update("b1", state);
    server.state.metadata_cache.insert(metadata(20, 200));
    let pending = match get_item_window(&server.state, "b1", &window_query("1")) {
        Answer::Found(pending) => pending,
        Answer::NotFound => panic!("no window"),
    };
    match &pending.fetch {
        Some((_, ids)) => assert_eq!(*ids, vec![10, 30]),
        None => panic!("nothing to fetch"),
    }
    absorb_fetched(&mut server.state.metadata_cache, None);
    absorb_fetched(&mut server.state.metadata_cache, Some(vec![metadata(10, 100)]));
    let response = finish_item_window(pending, &server.state.metadata_cache);
    assert!(response.includes_beginning_of_queue && response.includes_end_of_queue);
    assert_eq!(response.items[0].track.name.as_deref(), Some("Track 10"));
    assert_eq!(response.items[0].track.duration_millis, Some(100000));
    assert_eq!(response.items[1].track.name.as_deref(), Some("Track 20"));
    assert_eq!(response.items[1].track.content_type.as_deref(), Some("audio/flac"));
    assert!(response.items[2].track.name.is_none());
    // Asked again, only the track that could not be fetched is missing.
    match get_item_window(&server.state, "b1", &window_query("1")) {
        Answer::Found(again) => match again.fetch {
            Some((_, ids)) => assert_eq!(ids, vec![30]),
            None => panic!("nothing to fetch"),
        },
        Answer::NotFound => panic!("no window"),
    }
}

#[test]
fn a_window_asks_for_ten_upcoming_items_by_default() {
    let mut server = CloudQueueServer::new(9443);
    let tracks: Vec<(u64, u64)> = (1..=20).map(|n| (n, n)).collect();
    let state = QueueState::from_tracks(&tracks, (1, 0), 8, None);
    server.state.store.update("b1", state);
    let mut query = window_query("3");
    match get_item_window(&server.state, "b1", &query) {
        Answer::Found(pending) => {
            assert_eq!(pending.items.len(), 11);
            assert_eq!(pending.items[0].id, "3");
        }
        Answer::NotFound => panic!("no window"),
    }
    query.previous_window_size = Some(1);
    query.upcoming_window_size = Some(2);
    match get_item_window(&server.state, "b1", &query) {
        Answer::Found(pending) => {
            assert_eq!(pending.items.len(), 4);
            assert_eq!(pending.items[0].id, "2");
        }
        Answer::NotFound => panic!("no window"),
    }
    query.upcoming_window_size = Some(usize::MAX);
    match get_item_window(&server.state, "b1", &query) {
        Answer::Found(pending) => {
            assert_eq!(pending.items.len(), 19);
            assert!(pending.includes_end_of_queue);
        }
        Answer::NotFound => panic!("no window"),
    }
}

#[test]
fn metadata_is_applied_to_a_track() {
    let mut track = qobuz_track(5, 8);
    apply_metadata(&mut track, &metadata(5, 290));
    assert_eq!(track.id.unwrap().object_id, "track:5");
    assert_eq!(track.name.as_deref(), Some("Track 5"));
    assert_eq!(track.artist.unwrap().name, "Artist");
    assert_eq!(track.album.unwrap().name, "Album");
    assert_eq!(track.duration_millis, Some(290000));
    assert_eq!(track.image_url.as_deref(), Some("https://example.com/cover.jpg"));
    assert_eq!(track.content_type.as_deref(), Some("audio/flac"));
    // A duration beyond the signed range wraps.
    let mut track = qobuz_track(5, 8);
    apply_metadata(&mut track, &metadata(5, 2147484));
    assert_eq!(track.duration_millis, Some(-2147483296));
}

#[test]
fn durations_that_cannot_be_told_are_out_of_range() {
    let mut server = CloudQueueServer::new(9443);
    let state = QueueState::from_tracks(&[(10, 1)], (1, 0), 8, None);
    server.state.store.update("b1", state);
    server.state.metadata_cache.insert(metadata(10, 4294968));
    match get_item_window(&server.state, "b1", &window_query("1")) {
        Answer::Found(pending) => {
            assert!(!durations_in_range(&pending, &server.state.metadata_cache))
        }
        Answer::NotFound => panic!("no window"),
    }
    assert!(metadata(1, 4294967).duration_fits());
    assert!(!metadata(1, 4294968).duration_fits());
}

#[test]
fn a_repeated_request_is_served_from_the_cache() {
    let mut server = CloudQueueServer::new(9443);
    let client = QobuzClient::new("token", "app").unwrap();
    let state = QueueState::from_tracks(&[(10, 1), (20, 2)], (1, 0), 8, Some(client));
    server.state.store.update("b1", state);
    let first = match get_item_window(&server.state, "b1", &window_query("1")) {
        Answer::Found(pending) => pending,
        Answer::NotFound => panic!("no window"),
    };
    assert_eq!(first.fetch.as_ref().unwrap().1, vec![10, 20]);
    let fetched = vec![metadata(20, 200), metadata(10, 100)];
    absorb_fetched(&mut server.state.metadata_cache, Some(fetched));
    let first = finish_item_window(first, &server.state.metadata_cache);
    let second = match get_item_window(&server.state, "b1", &window_query("1")) {
        Answer::Found(pending) => pending,
        Answer::NotFound => panic!("no window"),
    };
    assert!(second.fetch.is_none());
    let second = finish_item_window(second, &server.state.metadata_cache);
    assert_eq!(format!("{:?}", first), format!("{:?}", second));
    assert_eq!(second.items[1].track.name.as_deref(), Some("Track 20"));
    // The queue itself keeps its bare tracks.
    assert!(server.store().get("b1").unwrap().items[1].track.name.is_none());
}
