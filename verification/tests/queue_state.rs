use qonos::cloud_queue::state::{
    cloud_queue_item, find_queue_item_id, queue_version_string, QueueState, QueueStore,
};
use qonos::connect::QueueTrackRef;

fn five_tracks() -> QueueState {
    let tracks = vec![(1, 1), (2, 2), (3, 3), (4, 4), (5, 5)];
    QueueState::from_tracks(&tracks, (1, 0), 8, None)
}

fn ids(state: &QueueState) -> Vec<String> {
    state.items.iter().map(|item| item.id.clone()).collect()
}

fn track(queue_item_id: u64, track_id: u32) -> QueueTrackRef {
    QueueTrackRef { queue_item_id, track_id: Some(track_id) }
}

#[test]
fn test_queue_state_from_tracks() {
    let tracks = vec![(123456, 1), (789012, 2), (345678, 3)];
    let state = QueueState::from_tracks(&tracks, (1, 5), 8, None);

    assert_eq!(state.items.len(), 3);
    assert_eq!(state.version, "1.5");
    assert_eq!(state.items[0].id, "1");
    assert_eq!(state.items[1].id, "2");
    assert_eq!(state.items[2].id, "3");
}

#[test]
fn test_get_window_empty() {
    let state = QueueState::new(8);
    let window = state.get_window(None, 5, 5);
    assert!(window.is_empty());
}

#[test]
fn test_get_window_from_start() {
    let tracks = vec![(1, 1), (2, 2), (3, 3), (4, 4), (5, 5)];
    let state = QueueState::from_tracks(&tracks, (1, 0), 8, None);

    let window = state.get_window(Some("1"), 2, 2);
    assert_eq!(window.len(), 3); // items 1, 2, 3 (can't go before 1)
    assert_eq!(window[0].id, "1");
}

#[test]
fn test_get_window_centered() {
    let tracks = vec![(1, 1), (2, 2), (3, 3), (4, 4), (5, 5)];
    let state = QueueState::from_tracks(&tracks, (1, 0), 8, None);

    let window = state.get_window(Some("3"), 1, 1);
    assert_eq!(window.len(), 3); // items 2, 3, 4
    assert_eq!(window[0].id, "2");
    assert_eq!(window[1].id, "3");
    assert_eq!(window[2].id, "4");
}

#[test]
fn test_get_window_at_end() {
    let tracks = vec![(1, 1), (2, 2), (3, 3), (4, 4), (5, 5)];
    let state = QueueState::from_tracks(&tracks, (1, 0), 8, None);

    let window = state.get_window(Some("5"), 2, 2);
    assert_eq!(window.len(), 3); // items 3, 4, 5 (can't go after 5)
    assert_eq!(window[2].id, "5");
}

#[test]
fn test_queue_store_update_and_get() {
    let mut store = QueueStore::new();
    let state = QueueState::new(8);

    // Initially empty
    assert!(store.get("bridge1").is_none());

    // Add
    store.update("bridge1", state.clone());
    assert!(store.get("bridge1").is_some());

    // Update overwrites
    let state2 = QueueState::from_tracks(&[(1, 1)], (1, 0), 8, None);
    store.update("bridge1", state2);
    let retrieved = store.get("bridge1").unwrap();
    assert_eq!(retrieved.items.len(), 1);
}

#[test]
fn the_store_keeps_bridges_apart() {
    let mut store = QueueStore::default();
    store.update("a", five_tracks());
    store.update("b", QueueState::new(3));
    assert_eq!(store.get("a").unwrap().items.len(), 5);
    assert_eq!(store.get("b").unwrap().service_account_number, 3);
    assert!(store.get("c").is_none());
}

#[test]
fn a_new_queue_has_version_zero() {
    let state = QueueState::new(8);
    assert_eq!(state.version, "0.0");
    assert_eq!(state.service_account_number, 8);
    assert!(state.client.is_none());
}

#[test]
fn versions_are_written_with_both_numbers() {
    assert_eq!(queue_version_string(18446744073709551615, -2147483648), "18446744073709551615.-2147483648");
    assert_eq!(queue_version_string(0, 7), "0.7");
}

#[test]
fn items_hold_the_identity_of_their_track() {
    let item = cloud_queue_item(363336060, 42, 8);
    assert_eq!(item.id, "42");
    assert_eq!(item.track_id, 363336060);
    let id = item.track.id.unwrap();
    assert_eq!(id.object_id, "track:363336060");
    assert_eq!(id.service_id.as_deref(), Some("31"));
    assert_eq!(id.account_id.as_deref(), Some("sn_8"));
    assert!(item.track.name.is_none());
}

#[test]
fn an_item_is_found_by_its_id() {
    let state = QueueState::from_tracks(&[(10, 7), (11, 8), (12, 7)], (1, 0), 8, None);
    assert_eq!(state.get_item_index("7"), Some(0));
    assert_eq!(state.get_item_index("8"), Some(1));
    assert_eq!(state.get_item_index("9"), None);
    assert_eq!(state.get_item_index(""), None);
}

#[test]
fn windows_tell_whether_they_reach_the_ends() {
    let state = five_tracks();
    let (items, beginning, end) = state.get_window_with_bounds(Some("3"), 1, 1);
    assert_eq!((items.len(), beginning, end), (3, false, false));
    let (items, beginning, end) = state.get_window_with_bounds(Some("3"), 2, 2);
    assert_eq!((items.len(), beginning, end), (5, true, true));
    let (items, beginning, end) = state.get_window_with_bounds(None, 9, 0);
    assert_eq!((items.len(), beginning, end), (1, true, false));
    let (items, beginning, end) = QueueState::new(8).get_window_with_bounds(Some("1"), 1, 1);
    assert_eq!((items.len(), beginning, end), (0, true, true));
}

#[test]
fn a_window_of_an_unknown_item_begins_the_queue() {
    let state = five_tracks();
    let window = state.get_window(Some("99"), 3, 1);
    assert_eq!(window.len(), 2);
    assert_eq!(window[0].id, "1");
    let window = state.get_window(Some(""), 3, 1);
    assert_eq!(window[0].id, "1");
}

#[test]
fn the_sizes_of_a_window_are_maxima() {
    let state = QueueState::from_tracks(&[(1, 1), (2, 2), (3, 3)], (1, 0), 8, None);
    let (items, beginning, end) = state.get_window_with_bounds(Some("2"), 0, usize::MAX);
    let ids: Vec<&str> = items.iter().map(|item| item.id.as_str()).collect();
    assert_eq!((ids, beginning, end), (vec!["2", "3"], false, true));
    assert_eq!(state.get_window(Some("3"), usize::MAX, usize::MAX).len(), 3);
    assert!(QueueState::new(8).get_window(None, usize::MAX, usize::MAX).is_empty());
}

#[test]
fn tracks_are_appended_in_order() {
    let mut state = five_tracks();
    let gap = QueueTrackRef { queue_item_id: 7, track_id: None };
    state.append_tracks(&vec![track(6, 60), gap, track(8, 80)], 9);
    assert_eq!(ids(&state), vec!["1", "2", "3", "4", "5", "6", "8"]);
    let id = state.items[6].track.id.as_ref().unwrap();
    assert_eq!(id.object_id, "track:80");
    assert_eq!(id.account_id.as_deref(), Some("sn_9"));
}

#[test]
fn tracks_are_inserted_behind_an_item() {
    let mut state = five_tracks();
    let tracks = vec![track(20, 200), track(21, 210)];
    let after = Some("2".to_string());
    state.insert_tracks(&tracks, &after, 8);
    assert_eq!(ids(&state), vec!["1", "2", "20", "21", "3", "4", "5"]);
}

#[test]
fn tracks_are_inserted_first_behind_no_item_or_an_unknown_one() {
    let mut state = five_tracks();
    state.insert_tracks(&vec![track(20, 200)], &None, 8);
    state.insert_tracks(&vec![track(21, 210)], &Some("99".to_string()), 8);
    assert_eq!(ids(&state), vec!["21", "20", "1", "2", "3", "4", "5"]);
}

#[test]
fn a_track_without_an_id_leaves_no_gap_in_an_insertion() {
    let mut state = five_tracks();
    let gap = QueueTrackRef { queue_item_id: 30, track_id: None };
    let tracks = vec![gap, track(31, 310), gap, track(32, 320)];
    state.insert_tracks(&tracks, &Some("1".to_string()), 8);
    assert_eq!(ids(&state), vec!["1", "31", "32", "2", "3", "4", "5"]);
    state.insert_tracks(&vec![gap, track(33, 330)], &Some("5".to_string()), 8);
    assert_eq!(ids(&state), vec!["1", "31", "32", "2", "3", "4", "5", "33"]);
    let mut empty = QueueState::new(8);
    empty.insert_tracks(&tracks, &None, 8);
    assert_eq!(ids(&empty), vec!["31", "32"]);
}

#[test]
fn named_items_are_removed() {
    let mut state = five_tracks();
    state.remove_items(&vec![4, 2, 99]);
    assert_eq!(ids(&state), vec!["1", "3", "5"]);
    state.remove_items(&vec![4, 2, 99]);
    assert_eq!(ids(&state), vec!["1", "3", "5"]);
}

#[test]
fn named_items_are_moved_in_their_order() {
    let mut state = five_tracks();
    state.reorder_items(&vec![4, 1], &Some("5".to_string()));
    assert_eq!(ids(&state), vec!["2", "3", "5", "1", "4"]);
    state.reorder_items(&vec![4], &None);
    assert_eq!(ids(&state), vec!["4", "2", "3", "5", "1"]);
    // An item cannot be moved behind itself: it goes first.
    state.reorder_items(&vec![3], &Some("3".to_string()));
    assert_eq!(ids(&state), vec!["3", "4", "2", "5", "1"]);
}

#[test]
fn queue_items_are_looked_up_by_track() {
    let mut store = QueueStore::new();
    store.update(
        "b",
        QueueState::from_tracks(&[(10, 1), (20, 2), (10, 3), (30, 4294967296)], (1, 0), 8, None),
    );
    assert_eq!(find_queue_item_id(&store, "b", 10), Some(1));
    assert_eq!(find_queue_item_id(&store, "b", 20), Some(2));
    // An ID that is no 32-bit number is not told.
    assert_eq!(find_queue_item_id(&store, "b", 30), None);
    assert_eq!(find_queue_item_id(&store, "b", 40), None);
    assert_eq!(find_queue_item_id(&store, "other", 10), None);
}
