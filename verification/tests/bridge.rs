use qonos::bridge::event_loop::BridgeEvent;
use qonos::bridge::state::{
    fetched_in_range, BridgeState, CloudQueueConfig, CommandedState,
};
use qonos::bridge::step::{
    Activation, AfterLoad, AfterStatus, AfterTracks, Ask, Effect, LoadPlan, Step,
};
use qonos::cloud_queue::state::{QueueState, QueueStore};
use qonos::connect::{
    Command, Notification, PlayingState, Position, QueueLoadTracks, QueueRendererState,
    QueueStateUpdated, QueueTrackRef, QueueTracksAdded, QueueTracksInserted, QueueTracksRemoved,
    QueueTracksReordered, QueueVersion, RendererState, RendererStateUpdated, SessionEvent,
    SetState, SetVolume,
};
use qonos::qobuz_api::{QobuzClient, QobuzUser, TrackMetadata};
use qonos::sonos::{
    CurrentItem, GroupVolume, MetadataStatus, MusicObjectId, PlayState, PlaybackStatus,
    PlayerEvent, Track,
};

const MS: u128 = 1_000_000;

fn uuid() -> [u8; 16] {
    let mut uuid = [0u8; 16];
    uuid[0] = 0xab;
    uuid[3] = 1;
    uuid
}

fn new_bridge() -> BridgeState {
    let config = CloudQueueConfig { base_url: "http://10.0.0.1:9444".to_string() };
    BridgeState::new("Kitchen".to_string(), &uuid(), "app".to_string(), config)
}

/// A bridge with an account and a playback session, and its queue of three.
fn playing_bridge() -> (BridgeState, QueueStore) {
    let mut bridge = new_bridge();
    bridge.service_account_number = Some(8);
    bridge.session_id = Some("session".to_string());
    let mut store = QueueStore::new();
    let queue = QueueState::from_tracks(&[(10, 1), (20, 2), (30, 3)], (1, 0), 8, None);
    store.update("ab000001", queue);
    (bridge, store)
}

fn status(state: PlayState, position: i32) -> PlaybackStatus {
    PlaybackStatus { state, position_millis: Some(position) }
}

fn playing(track_id: u64, duration: Option<i32>) -> MetadataStatus {
    let track = Track {
        id: Some(MusicObjectId {
            object_id: format!("track:{track_id}"),
            service_id: None,
            account_id: None,
        }),
        duration_millis: duration,
        ..Track::default()
    };
    MetadataStatus { current_item: Some(CurrentItem { track: Some(track) }) }
}

fn track(queue_item_id: u64, track_id: u32) -> QueueTrackRef {
    QueueTrackRef { queue_item_id, track_id: Some(track_id) }
}

fn set_state(state: Option<i32>, position: Option<u32>, item: Option<u64>) -> SetState {
    SetState {
        playing_state: state,
        current_position: position,
        current_queue_item: item
            .map(|queue_item_id| QueueTrackRef { queue_item_id, track_id: None }),
    }
}

fn metadata(id: u64) -> TrackMetadata {
    TrackMetadata {
        id,
        title: format!("Track {id}"),
        duration_secs: 200,
        artist_name: "Artist".to_string(),
        album_title: "Album".to_string(),
        album_image_url: None,
    }
}

fn version(major: u64, minor: i32) -> Option<QueueVersion> {
    Some(QueueVersion { major: Some(major), minor: Some(minor) })
}

fn notify(bridge: &mut BridgeState, store: &mut QueueStore, n: Notification) -> Step {
    let event = BridgeEvent::Session(SessionEvent::Notification(n));
    assert!(bridge.event_in_range(&event));
    bridge.handle_event(store, event).unwrap()
}

fn idle(step: &Step) -> bool {
    step.effects.is_empty() && step.ask.is_none()
}

fn ids(store: &QueueStore) -> Vec<String> {
    store.get("ab000001").unwrap().items.iter().map(|item| item.id.clone()).collect()
}

fn shown(state: &QueueRendererState) -> (Option<i32>, Option<i32>, Option<u32>) {
    assert!(state.current_position.unwrap().timestamp.is_some());
    (state.playing_state, state.buffer_state, state.current_position.unwrap().value)
}

#[test]
fn a_new_bridge_knows_its_identity_only() {
    let bridge = new_bridge();
    assert_eq!(bridge.name, "Kitchen");
    assert_eq!(bridge.bridge_id, "ab000001");
    assert_eq!(bridge.app_id, "app");
    assert!(bridge.session_id.is_none() && bridge.qobuz_client.is_none());
    assert!(bridge.service_account_number.is_none() && bridge.commanded.is_none());
}

// Commanded state

#[test]
fn a_command_expires_after_five_seconds() {
    let cmd = CommandedState::new(PlayingState::Playing, None, 7);
    assert!(!cmd.is_expired(7 + 5_000 * MS));
    assert!(cmd.is_expired(8 + 5_000 * MS));
    assert!(!cmd.is_expired(0));
}

#[test]
fn a_command_can_be_confirmed_after_half_a_second() {
    let cmd = CommandedState::new(PlayingState::Playing, None, 7);
    assert!(!cmd.is_confirmable(6 + 500 * MS));
    assert!(cmd.is_confirmable(7 + 500 * MS));
    assert!(!cmd.is_confirmable(0));
}

#[test]
fn a_commanded_state_overrides_until_confirmed() {
    let mut bridge = new_bridge();
    bridge.on_performed_at(PlayingState::Playing, Some(9000), 0);
    // Transient states do not show.
    assert_eq!(
        bridge.resolve_commanded_state_at(PlayingState::Stopped, 100 * MS),
        PlayingState::Playing
    );
    // A match that comes too early confirms nothing.
    assert_eq!(
        bridge.resolve_commanded_state_at(PlayingState::Playing, 400 * MS),
        PlayingState::Playing
    );
    assert!(bridge.commanded.is_some());
    assert_eq!(bridge.resolve_report_position(5), 9000);
    // A later match does, and what follows shows.
    assert_eq!(
        bridge.resolve_commanded_state_at(PlayingState::Playing, 600 * MS),
        PlayingState::Playing
    );
    assert!(bridge.commanded.is_none());
    assert_eq!(bridge.resolve_report_position(5), 5);
    assert_eq!(
        bridge.resolve_commanded_state_at(PlayingState::Stopped, 700 * MS),
        PlayingState::Stopped
    );
}

#[test]
fn a_commanded_state_gives_way_after_its_time() {
    let mut bridge = new_bridge();
    bridge.on_performed_at(PlayingState::Playing, None, 0);
    assert_eq!(
        bridge.resolve_commanded_state_at(PlayingState::Paused, 5_000 * MS),
        PlayingState::Playing
    );
    assert_eq!(
        bridge.resolve_commanded_state_at(PlayingState::Paused, 5_000 * MS + 1),
        PlayingState::Paused
    );
    assert!(bridge.commanded.is_none());
}

#[test]
fn the_clock_of_the_bridge_runs() {
    let mut bridge = new_bridge();
    bridge.on_performed(PlayingState::Paused, None);
    let first = bridge.commanded.unwrap().set_at;
    bridge.on_performed(PlayingState::Paused, None);
    assert!(bridge.commanded.unwrap().set_at >= first);
    assert_eq!(bridge.resolve_commanded_state(PlayingState::Playing), PlayingState::Paused);
}

// Commands

#[test]
fn a_volume_command_is_obeyed_and_answered() {
    let (mut bridge, store) = playing_bridge();
    for (wanted, set) in [(Some(30), 30u8), (Some(100), 100), (Some(101), 100), (None, 0)] {
        let step = bridge.handle_command(&store, Command::SetVolume(SetVolume { volume: wanted }));
        assert!(step.ask.is_none());
        match step.effects.as_slice() {
            [Effect::SetVolume(v), Effect::RespondVolume(Some(answer))] => {
                assert_eq!(*v, set);
                assert_eq!(*answer, set as u32);
            }
            _ => panic!("unexpected effects"),
        }
    }
}

#[test]
fn a_command_with_a_position_is_answered_at_once() {
    let (mut bridge, store) = playing_bridge();
    bridge.current_duration_ms = Some(1000);
    let step = bridge.handle_command(
        &store,
        Command::SetState(set_state(Some(3), Some(500), None)),
    );
    match step.effects.as_slice() {
        [Effect::RespondState(answer), Effect::Pause, Effect::Seek(500)] => {
            assert_eq!(shown(answer), (Some(3), Some(2), Some(500)));
            assert_eq!(answer.duration, Some(1000));
        }
        _ => panic!("unexpected effects"),
    }
    match step.ask {
        Some(Ask::Performed { state, position_ms }) => bridge.on_performed(state, position_ms),
        _ => panic!("unexpected question"),
    }
    assert_eq!(bridge.commanded.unwrap().state, PlayingState::Paused);
    assert_eq!(bridge.commanded.unwrap().position_ms, Some(500));
}

#[test]
fn a_command_without_a_position_asks_for_it() {
    let (mut bridge, store) = playing_bridge();
    let cmd = set_state(Some(2), None, None);
    let step = bridge.handle_command(&store, Command::SetState(cmd));
    assert!(step.effects.is_empty());
    let after = match step.ask {
        Some(Ask::PlaybackStatus(after)) => after,
        _ => panic!("unexpected question"),
    };
    assert_eq!(after, AfterStatus::SetState { cmd, previous_item: None });
    let step = bridge.on_playback_status(&store, after, Some(status(PlayState::Paused, 77)));
    match step.effects.as_slice() {
        [Effect::RespondState(answer), Effect::Play] => {
            assert_eq!(shown(answer), (Some(2), Some(2), Some(77)));
        }
        _ => panic!("unexpected effects"),
    }
    let step = bridge.on_playback_status(&store, after, None);
    match step.effects.as_slice() {
        [Effect::RespondState(answer), Effect::Play] => {
            assert_eq!(shown(answer), (Some(2), Some(2), Some(0)));
        }
        _ => panic!("unexpected effects"),
    }
}

#[test]
fn without_a_state_the_answer_is_playing_and_nothing_is_played() {
    let (mut bridge, store) = playing_bridge();
    for code in [None, Some(99)] {
        let step =
            bridge.handle_command(&store, Command::SetState(set_state(code, Some(1), None)));
        match step.effects.as_slice() {
            [Effect::RespondState(answer), Effect::Seek(1)] => {
                assert_eq!(answer.playing_state, Some(2));
            }
            _ => panic!("unexpected effects"),
        }
    }
    let step = bridge.handle_command(&store, Command::SetState(set_state(Some(0), Some(1), None)));
    match step.effects.as_slice() {
        [Effect::RespondState(answer), Effect::Seek(1)] => {
            assert_eq!(answer.playing_state, Some(0));
        }
        _ => panic!("unexpected effects"),
    }
    let step = bridge.handle_command(&store, Command::SetState(set_state(Some(1), Some(1), None)));
    assert!(matches!(
        step.effects.as_slice(),
        [Effect::RespondState(_), Effect::Stop, Effect::Seek(1)]
    ));
}

#[test]
fn a_command_for_another_item_skips() {
    let (mut bridge, store) = playing_bridge();
    bridge.current_queue_item_id = Some(2);
    bridge.current_duration_ms = Some(1000);
    let step =
        bridge.handle_command(&store, Command::SetState(set_state(Some(2), Some(0), Some(3))));
    match step.effects.as_slice() {
        [Effect::RespondState(answer), Effect::SkipNext] => {
            assert_eq!(answer.current_queue_item_id, Some(3));
            assert_eq!(answer.duration, None);
        }
        _ => panic!("unexpected effects"),
    }
    assert_eq!(bridge.current_queue_item_id, Some(3));
    assert_eq!(bridge.current_duration_ms, None);
    let step =
        bridge.handle_command(&store, Command::SetState(set_state(Some(2), Some(0), Some(1))));
    assert!(matches!(step.effects.as_slice(), [Effect::RespondState(_), Effect::SkipPrev]));
    // To an item that is not in the queue there is no direction.
    let step =
        bridge.handle_command(&store, Command::SetState(set_state(Some(2), Some(0), Some(9))));
    assert!(matches!(step.effects.as_slice(), [Effect::RespondState(_)]));
    assert!(matches!(step.ask, Some(Ask::Performed { .. })));
}

#[test]
fn a_skip_from_nowhere_skips_nothing() {
    let (mut bridge, store) = playing_bridge();
    let step =
        bridge.handle_command(&store, Command::SetState(set_state(Some(2), Some(0), Some(3))));
    assert!(matches!(step.effects.as_slice(), [Effect::RespondState(_)]));
    assert_eq!(bridge.current_queue_item_id, Some(3));
    // The same item again is no skip.
    let step =
        bridge.handle_command(&store, Command::SetState(set_state(Some(2), Some(5), Some(3))));
    assert!(matches!(
        step.effects.as_slice(),
        [Effect::RespondState(_), Effect::Play, Effect::Seek(5)]
    ));
}

#[test]
fn before_a_session_the_named_item_is_kept() {
    let mut bridge = new_bridge();
    let store = QueueStore::new();
    let step =
        bridge.handle_command(&store, Command::SetState(set_state(Some(2), Some(70), Some(5))));
    assert!(matches!(step.effects.as_slice(), [Effect::RespondState(_)]));
    assert!(step.ask.is_none());
    assert_eq!(bridge.pending_initial_item, Some((5, 70)));
    assert!(bridge.commanded.is_none());
    let step =
        bridge.handle_command(&store, Command::SetState(set_state(Some(2), None, Some(6))));
    assert!(matches!(step.ask, Some(Ask::PlaybackStatus(_))));
    assert_eq!(bridge.pending_initial_item, Some((6, 0)));
}

#[test]
fn an_activation_asks_for_volume_playback_and_metadata() {
    let (mut bridge, store) = playing_bridge();
    let step = bridge.handle_command(&store, Command::SetActive);
    assert!(matches!(step.ask, Some(Ask::Volume)));
    let step = bridge.on_volume(Some(GroupVolume { volume: 33, muted: true }));
    let after = match step.ask {
        Some(Ask::PlaybackStatus(after)) => after,
        _ => panic!("unexpected question"),
    };
    let step = bridge.on_playback_status(&store, after, Some(status(PlayState::Playing, 44)));
    let activation = match step.ask {
        Some(Ask::Metadata(activation)) => activation,
        _ => panic!("unexpected question"),
    };
    let step = bridge.on_metadata(&store, activation, &Some(playing(20, Some(5000))));
    assert!(step.ask.is_none());
    match step.effects.as_slice() {
        [Effect::RespondActive(answer)] => {
            assert_eq!((answer.volume, answer.muted, answer.max_quality), (33, true, 4));
            assert_eq!(shown(&answer.playback), (Some(2), Some(2), Some(44)));
            assert_eq!(answer.playback.duration, Some(5000));
            assert_eq!(answer.playback.current_queue_item_id, Some(2));
        }
        _ => panic!("unexpected effects"),
    }
    assert_eq!(bridge.current_track_id, Some(20));
}

#[test]
fn an_activation_does_with_no_answers() {
    let (mut bridge, store) = playing_bridge();
    let step = bridge.on_volume(None);
    let after = match step.ask {
        Some(Ask::PlaybackStatus(after)) => after,
        _ => panic!("unexpected question"),
    };
    assert_eq!(after, AfterStatus::Activation { volume: 50, muted: false });
    let step = bridge.on_playback_status(&store, after, None);
    let activation = match step.ask {
        Some(Ask::Metadata(activation)) => activation,
        _ => panic!("unexpected question"),
    };
    assert_eq!(
        activation,
        Activation { volume: 50, muted: false, state: PlayingState::Stopped, position_ms: 0 }
    );
    let step = bridge.on_metadata(&store, activation, &None);
    assert!(matches!(step.effects.as_slice(), [Effect::RespondActive(_)]));
}

#[test]
fn a_restored_state_is_used_for_one_activation() {
    let (mut bridge, mut store) = playing_bridge();
    let state = RendererState {
        playing_state: Some(3),
        current_position: Some(Position { timestamp: None, value: Some(61) }),
        current_queue_index: Some(0),
    };
    let step = notify(
        &mut bridge,
        &mut store,
        Notification::RestoreState(RendererStateUpdated { state: Some(state) }),
    );
    assert!(idle(&step));
    let step = bridge.on_volume(None);
    match step.ask {
        Some(Ask::Metadata(activation)) => {
            assert_eq!(activation.state, PlayingState::Paused);
            assert_eq!(activation.position_ms, 61);
        }
        _ => panic!("unexpected question"),
    }
    assert!(bridge.restored_state.is_none() && bridge.restored_position.is_none());
    let step = bridge.on_volume(None);
    assert!(matches!(step.ask, Some(Ask::PlaybackStatus(_))));
    // A state of an unknown number restores none.
    let state = RendererState {
        playing_state: Some(17),
        current_position: None,
        current_queue_index: None,
    };
    bridge.handle_restore_state(&RendererStateUpdated { state: Some(state) });
    assert!(bridge.restored_state.is_none());
    bridge.handle_restore_state(&RendererStateUpdated { state: None });
    assert!(bridge.restored_position.is_none());
}

#[test]
fn a_heartbeat_reports_the_command() {
    let (mut bridge, store) = playing_bridge();
    bridge.on_performed_at(PlayingState::Playing, Some(9000), 0);
    let step = bridge.handle_command(&store, Command::Heartbeat);
    let after = match step.ask {
        Some(Ask::PlaybackStatus(after)) => after,
        _ => panic!("unexpected question"),
    };
    let step = bridge.on_playback_status_at(
        &store,
        after,
        Some(status(PlayState::Buffering, 5)),
        100 * MS,
    );
    match step.effects.as_slice() {
        [Effect::RespondHeartbeat(Some(answer))] => {
            assert_eq!(shown(answer), (Some(2), Some(2), Some(9000)));
        }
        _ => panic!("unexpected effects"),
    }
    let step = bridge.on_playback_status_at(
        &store,
        after,
        Some(status(PlayState::Playing, 9100)),
        600 * MS,
    );
    match step.effects.as_slice() {
        [Effect::RespondHeartbeat(Some(answer))] => {
            assert_eq!(shown(answer), (Some(2), Some(2), Some(9100)));
        }
        _ => panic!("unexpected effects"),
    }
    let step = bridge.on_playback_status(&store, after, None);
    assert!(matches!(step.effects.as_slice(), [Effect::RespondHeartbeat(None)]));
}

// Player events

#[test]
fn playback_events_are_reported_with_a_fresh_position() {
    let (mut bridge, store) = playing_bridge();
    let event = status(PlayState::Buffering, 10);
    let step = bridge.handle_player_event(&store, PlayerEvent::PlaybackChanged(event));
    let after = match step.ask {
        Some(Ask::PlaybackStatus(after)) => after,
        _ => panic!("unexpected question"),
    };
    let step = bridge.on_playback_status(&store, after, Some(status(PlayState::Playing, 20)));
    match step.effects.as_slice() {
        [Effect::ReportState(report)] => {
            assert_eq!(shown(report), (Some(1), Some(1), Some(20)));
        }
        _ => panic!("unexpected effects"),
    }
    let step = bridge.on_playback_status(&store, after, None);
    match step.effects.as_slice() {
        [Effect::ReportState(report)] => {
            assert_eq!(shown(report), (Some(1), Some(1), Some(10)));
        }
        _ => panic!("unexpected effects"),
    }
}

#[test]
fn track_changes_are_reported() {
    let (mut bridge, store) = playing_bridge();
    let event = PlayerEvent::MetadataChanged(playing(30, Some(-1)));
    let step = bridge.handle_player_event(&store, event);
    assert!(matches!(step.ask, Some(Ask::PlaybackStatus(AfterStatus::TrackChanged))));
    assert_eq!(bridge.current_track_id, Some(30));
    assert_eq!(bridge.current_queue_item_id, Some(3));
    assert_eq!(bridge.current_duration_ms, Some(4294967295));
    let step = bridge.on_playback_status(
        &store,
        AfterStatus::TrackChanged,
        Some(status(PlayState::Playing, 1)),
    );
    match step.effects.as_slice() {
        [Effect::ReportState(report)] => {
            assert_eq!(shown(report), (Some(2), Some(2), Some(1)));
            assert_eq!(report.current_queue_item_id, Some(3));
        }
        _ => panic!("unexpected effects"),
    }
    assert!(idle(&bridge.on_playback_status(&store, AfterStatus::TrackChanged, None)));
    // The same track again is no news.
    let event = PlayerEvent::MetadataChanged(playing(30, None));
    assert!(idle(&bridge.handle_player_event(&store, event)));
    assert_eq!(bridge.current_duration_ms, None);
}

#[test]
fn metadata_of_other_services_changes_the_duration_only() {
    let (mut bridge, store) = playing_bridge();
    bridge.current_track_id = Some(10);
    let mut metadata = playing(30, Some(70));
    if let Some(item) = &mut metadata.current_item {
        if let Some(track) = &mut item.track {
            track.id = None;
        }
    }
    let step = bridge.handle_player_event(&store, PlayerEvent::MetadataChanged(metadata));
    assert!(idle(&step));
    assert_eq!(bridge.current_track_id, Some(10));
    assert_eq!(bridge.current_duration_ms, Some(70));
    let nothing = MetadataStatus { current_item: None };
    let step = bridge.handle_player_event(&store, PlayerEvent::MetadataChanged(nothing));
    assert!(idle(&step));
    assert_eq!(bridge.current_duration_ms, Some(70));
}

#[test]
fn volume_events_are_reported() {
    let (mut bridge, store) = playing_bridge();
    let event = PlayerEvent::VolumeChanged(GroupVolume { volume: 12, muted: false });
    let step = bridge.handle_player_event(&store, event);
    assert!(matches!(
        step.effects.as_slice(),
        [Effect::ReportVolume(12), Effect::ReportMuted(false)]
    ));
    for event in [PlayerEvent::PlaybackError, PlayerEvent::Disconnected, PlayerEvent::Other] {
        assert!(idle(&bridge.handle_player_event(&store, event)));
    }
}

// Notifications

#[test]
fn a_queue_waits_for_the_account() {
    let mut bridge = new_bridge();
    let mut store = QueueStore::new();
    let queue = QueueStateUpdated { queue_version: version(1, 2), tracks: vec![track(1, 10)] };
    let step = notify(&mut bridge, &mut store, Notification::QueueState(queue));
    assert!(idle(&step));
    assert!(store.get("ab000001").is_none());
}

#[test]
fn the_first_queue_opens_a_session_where_commanded() {
    let mut bridge = new_bridge();
    bridge.service_account_number = Some(8);
    let mut store = QueueStore::new();
    bridge.handle_command(&store, Command::SetState(set_state(Some(2), Some(70), Some(2))));
    let gap = QueueTrackRef { queue_item_id: 9, track_id: None };
    let queue = QueueStateUpdated {
        queue_version: version(1, 2),
        tracks: vec![track(1, 10), gap, track(2, 20)],
    };
    let step = notify(&mut bridge, &mut store, Notification::QueueState(queue));
    assert_eq!(ids(&store), vec!["1", "2"]);
    assert_eq!(store.get("ab000001").unwrap().version, "1.2");
    assert!(bridge.pending_initial_item.is_none());
    let (request, plan, track_metadata) = match step.ask {
        Some(Ask::CreateSession { request, plan, track_metadata }) => {
            (request, plan, track_metadata)
        }
        _ => panic!("unexpected question"),
    };
    assert_eq!(request.app_id, "app");
    assert_eq!(request.app_context, "ab000001");
    assert_eq!(request.account_id.as_deref(), Some("sn_8"));
    let expected = LoadPlan {
        queue_item_id: 2,
        track_id: 20,
        position_ms: 70,
        service_account_number: 8,
    };
    assert_eq!(plan, expected);
    assert!(idle(&bridge.on_session_created(plan, None, None)));
    let step = bridge.on_session_created(plan, track_metadata, Some("s1".to_string()));
    match step.ask {
        Some(Ask::LoadCloudQueue { session_id, request, after }) => {
            assert_eq!(session_id, "s1");
            assert_eq!(request.queue_base_url, "http://10.0.0.1:9444/queues/ab000001/v2.3/");
            assert_eq!(request.item_id.as_deref(), Some("2"));
            assert_eq!(request.play_on_completion, Some(true));
            assert_eq!(request.position_millis, Some(70));
            assert!(request.track_metadata.is_none());
            assert_eq!(after, AfterLoad::FirstLoad);
            bridge.on_cloud_queue_loaded(after, session_id.clone(), false);
            assert!(bridge.session_id.is_none());
            bridge.on_cloud_queue_loaded(after, session_id, true);
        }
        _ => panic!("unexpected question"),
    }
    assert_eq!(bridge.session_id.as_deref(), Some("s1"));
    assert!(bridge.commanded.is_none());
}

#[test]
fn without_a_command_the_first_track_starts() {
    let mut bridge = new_bridge();
    bridge.service_account_number = Some(8);
    let mut store = QueueStore::new();
    let queue = QueueStateUpdated { queue_version: None, tracks: vec![track(4, 40)] };
    let step = notify(&mut bridge, &mut store, Notification::QueueState(queue));
    assert_eq!(store.get("ab000001").unwrap().version, "0.0");
    match step.ask {
        Some(Ask::CreateSession { plan, .. }) => {
            assert_eq!((plan.queue_item_id, plan.track_id, plan.position_ms), (4, 40, 0));
        }
        _ => panic!("unexpected question"),
    }
    // An item that the queue does not have is played as its first track.
    bridge.pending_initial_item = Some((77, 5));
    let queue = QueueStateUpdated { queue_version: None, tracks: vec![track(4, 40)] };
    let step = notify(&mut bridge, &mut store, Notification::QueueState(queue));
    match step.ask {
        Some(Ask::CreateSession { plan, .. }) => {
            assert_eq!((plan.queue_item_id, plan.track_id, plan.position_ms), (77, 40, 5));
        }
        _ => panic!("unexpected question"),
    }
    let queue = QueueStateUpdated { queue_version: None, tracks: vec![] };
    assert!(idle(&notify(&mut bridge, &mut store, Notification::QueueState(queue))));
}

#[test]
fn a_queue_within_a_session_is_only_stored() {
    let (mut bridge, mut store) = playing_bridge();
    bridge.current_track_id = Some(20);
    let queue = QueueStateUpdated {
        queue_version: version(2, 0),
        tracks: vec![track(7, 70), track(8, 20)],
    };
    let step = notify(&mut bridge, &mut store, Notification::QueueState(queue));
    assert!(idle(&step));
    assert_eq!(ids(&store), vec!["7", "8"]);
    assert_eq!(bridge.current_queue_item_id, Some(8));
}

#[test]
fn with_a_client_the_metadata_is_fetched_first() {
    let mut bridge = new_bridge();
    bridge.service_account_number = Some(8);
    bridge.qobuz_client = Some(QobuzClient::new("token", "app").unwrap());
    let mut store = QueueStore::new();
    let queue = QueueStateUpdated { queue_version: None, tracks: vec![track(4, 40)] };
    let step = notify(&mut bridge, &mut store, Notification::QueueState(queue));
    assert!(store.get("ab000001").unwrap().client.is_some());
    let after = match step.ask {
        Some(Ask::Tracks { after, .. }) => after,
        _ => panic!("unexpected question"),
    };
    assert_eq!(after.track_id(), 40);
    let fetched = Some(vec![metadata(40)]);
    assert!(fetched_in_range(&fetched));
    let step = bridge.on_tracks(after, &fetched);
    match step.ask {
        Some(Ask::CreateSession { track_metadata, .. }) => {
            let track = track_metadata.unwrap();
            assert_eq!(track.name.as_deref(), Some("Track 40"));
            assert_eq!(track.artist.unwrap().name, "Artist");
            assert_eq!(track.album.unwrap().name, "Album");
            assert_eq!(track.duration_millis, Some(200000));
            assert_eq!(track.id.unwrap().object_id, "track:40");
            assert!(track.content_type.is_none());
        }
        _ => panic!("unexpected question"),
    }
    for fetched in [None, Some(vec![])] {
        match bridge.on_tracks(after, &fetched).ask {
            Some(Ask::CreateSession { track_metadata, .. }) => assert!(track_metadata.is_none()),
            _ => panic!("unexpected question"),
        }
    }
    let mut long = metadata(40);
    long.duration_secs = 4294968;
    assert!(!fetched_in_range(&Some(vec![long])));
}

#[test]
fn loaded_tracks_are_played_in_the_session() {
    let (mut bridge, mut store) = playing_bridge();
    let msg = QueueLoadTracks {
        queue_version: version(5, 1),
        tracks: vec![track(1, 100), track(4294967298, 200)],
        queue_position: Some(1),
    };
    let step = notify(&mut bridge, &mut store, Notification::QueueLoadTracks(msg));
    assert_eq!(bridge.current_queue_item_id, Some(2));
    assert_eq!(bridge.current_track_id, Some(200));
    match step.ask {
        Some(Ask::LoadCloudQueue { session_id, request, after }) => {
            assert_eq!(session_id, "session");
            assert_eq!(request.item_id.as_deref(), Some("4294967298"));
            assert!(request.position_millis.is_none());
            assert_eq!(after, AfterLoad::Reload);
            bridge.on_cloud_queue_loaded_at(after, session_id, true, 3);
        }
        _ => panic!("unexpected question"),
    }
    let commanded = bridge.commanded.unwrap();
    assert_eq!(commanded, CommandedState::new(PlayingState::Playing, None, 3));
    assert_eq!(bridge.session_id.as_deref(), Some("session"));
}

#[test]
fn loaded_tracks_wait_for_the_session() {
    let mut bridge = new_bridge();
    bridge.service_account_number = Some(8);
    bridge.qobuz_client = Some(QobuzClient::new("token", "app").unwrap());
    let mut store = QueueStore::new();
    let msg = QueueLoadTracks {
        queue_version: None,
        tracks: vec![track(1, 100), track(2, 200)],
        queue_position: Some(7),
    };
    let step = notify(&mut bridge, &mut store, Notification::QueueLoadTracks(msg));
    let after = match step.ask {
        Some(Ask::Tracks { after, .. }) => after,
        _ => panic!("unexpected question"),
    };
    assert!(matches!(after, AfterTracks::Target(plan) if plan.track_id == 100));
    let step = bridge.on_tracks(after, &Some(vec![metadata(100)]));
    assert!(idle(&step));
    assert_eq!(bridge.current_duration_ms, Some(200000));
    assert_eq!(bridge.pending_initial_item, Some((1, 0)));
    let empty = QueueLoadTracks { queue_version: None, tracks: vec![], queue_position: None };
    assert!(idle(&notify(&mut bridge, &mut store, Notification::QueueLoadTracks(empty))));
    assert!(ids(&store).is_empty());
}

#[test]
fn a_reload_fetches_the_duration_and_then_the_track() {
    let (mut bridge, mut store) = playing_bridge();
    bridge.qobuz_client = Some(QobuzClient::new("token", "app").unwrap());
    let msg = QueueLoadTracks {
        queue_version: None,
        tracks: vec![track(1, 100)],
        queue_position: None,
    };
    let step = notify(&mut bridge, &mut store, Notification::QueueLoadTracks(msg));
    let after = match step.ask {
        Some(Ask::Tracks { after, .. }) => after,
        _ => panic!("unexpected question"),
    };
    let step = bridge.on_tracks(after, &None);
    assert_eq!(bridge.current_duration_ms, None);
    let after = match step.ask {
        Some(Ask::Tracks { after, .. }) => after,
        _ => panic!("unexpected question"),
    };
    assert!(matches!(after, AfterTracks::Load(_)));
    let step = bridge.on_tracks(after, &Some(vec![metadata(100)]));
    assert!(matches!(step.ask, Some(Ask::LoadCloudQueue { after: AfterLoad::Reload, .. })));
}

#[test]
fn tracks_are_added_inserted_removed_and_moved() {
    let (mut bridge, mut store) = playing_bridge();
    let added = QueueTracksAdded { queue_version: version(1, 1), tracks: vec![track(4, 40)] };
    assert!(idle(&notify(&mut bridge, &mut store, Notification::QueueTracksAdded(added))));
    assert_eq!(ids(&store), vec!["1", "2", "3", "4"]);
    let inserted = QueueTracksInserted {
        queue_version: version(1, 2),
        tracks: vec![track(5, 50)],
        insert_after: Some(1),
    };
    notify(&mut bridge, &mut store, Notification::QueueTracksInserted(inserted));
    assert_eq!(ids(&store), vec!["1", "5", "2", "3", "4"]);
    let removed = QueueTracksRemoved { queue_version: version(1, 3), queue_item_ids: vec![3] };
    notify(&mut bridge, &mut store, Notification::QueueTracksRemoved(removed));
    assert_eq!(ids(&store), vec!["1", "5", "2", "4"]);
    let moved = QueueTracksReordered {
        queue_version: version(1, 4),
        queue_item_ids: vec![1],
        insert_after: Some(2),
    };
    notify(&mut bridge, &mut store, Notification::QueueTracksReordered(moved));
    assert_eq!(ids(&store), vec!["5", "2", "1", "4"]);
    assert_eq!(store.get("ab000001").unwrap().version, "1.4");
}

#[test]
fn edits_without_a_queue_change_nothing() {
    let mut bridge = new_bridge();
    bridge.service_account_number = Some(8);
    let mut store = QueueStore::new();
    store.update("other", QueueState::new(1));
    let added = QueueTracksAdded { queue_version: None, tracks: vec![track(4, 40)] };
    notify(&mut bridge, &mut store, Notification::QueueTracksAdded(added));
    let removed = QueueTracksRemoved { queue_version: None, queue_item_ids: vec![3] };
    notify(&mut bridge, &mut store, Notification::QueueTracksRemoved(removed));
    assert!(store.get("ab000001").is_none());
    assert_eq!(store.get("other").unwrap().version, "0.0");
}

#[test]
fn an_insertion_leaves_out_tracks_without_an_id() {
    let (mut bridge, mut store) = playing_bridge();
    let queue = QueueState::from_tracks(&[(10, 1), (20, 2)], (1, 0), 8, None);
    store.update("ab000001", queue);
    let gap = QueueTrackRef { queue_item_id: 3, track_id: None };
    let inserted = QueueTracksInserted {
        queue_version: version(1, 1),
        tracks: vec![gap, track(4, 40)],
        insert_after: Some(1),
    };
    bridge.handle_queue_tracks_inserted(&mut store, &inserted);
    assert_eq!(ids(&store), vec!["1", "4", "2"]);
    assert_eq!(store.get("ab000001").unwrap().version, "1.1");
    let inserted = QueueTracksInserted {
        queue_version: version(1, 2),
        tracks: vec![gap, track(5, 50)],
        insert_after: Some(2),
    };
    notify(&mut bridge, &mut store, Notification::QueueTracksInserted(inserted));
    assert_eq!(ids(&store), vec!["1", "4", "2", "5"]);
    let inserted = QueueTracksInserted {
        queue_version: version(1, 3),
        tracks: vec![track(6, 60)],
        insert_after: Some(-1),
    };
    notify(&mut bridge, &mut store, Notification::QueueTracksInserted(inserted));
    assert_eq!(ids(&store), vec!["6", "1", "4", "2", "5"]);
}

#[test]
fn a_registration_finds_user_and_account() {
    let (mut bridge, mut store) = playing_bridge();
    bridge.service_account_number = None;
    let n = Notification::DeviceRegistered {
        device_uuid: uuid(),
        renderer_id: 5,
        api_jwt: "token".to_string(),
    };
    let step = notify(&mut bridge, &mut store, n);
    let client = match step.ask {
        Some(Ask::User { client }) => client,
        _ => panic!("unexpected question"),
    };
    assert!(format!("{:?}", client.http()).contains("Bearer token"));
    let user = QobuzUser { id: 1, public_id: "qobuz:user:x".to_string(), display_name: None };
    let step = bridge.on_user(client, Some(user));
    assert!(bridge.qobuz_client.is_none());
    match step.ask {
        Some(Ask::Account { client, public_id, service_id, service_name }) => {
            assert_eq!(public_id, "qobuz:user:x");
            assert_eq!(service_id, "31");
            assert_eq!(service_name, "Qobuz");
            bridge.on_account(client, Some(Some(8)));
        }
        _ => panic!("unexpected question"),
    }
    assert_eq!(bridge.service_account_number, Some(8));
    assert!(bridge.qobuz_client.is_some());
}

#[test]
fn a_registration_without_answers_keeps_the_client() {
    let mut bridge = new_bridge();
    bridge.service_account_number = Some(3);
    let step = bridge.on_user(QobuzClient::new("token", "app").unwrap(), None);
    assert!(idle(&step));
    assert!(bridge.qobuz_client.is_some());
    bridge.qobuz_client = None;
    bridge.on_account(QobuzClient::new("token", "app").unwrap(), None);
    assert_eq!(bridge.service_account_number, Some(3));
    assert!(bridge.qobuz_client.is_some());
    bridge.on_account(QobuzClient::new("token", "app").unwrap(), Some(None));
    assert_eq!(bridge.service_account_number, None);
    let n = Notification::DeviceRegistered {
        device_uuid: uuid(),
        renderer_id: 5,
        api_jwt: "to\nken".to_string(),
    };
    assert!(!bridge.notification_in_range(&n));
}

#[test]
fn other_notifications_change_nothing() {
    let (mut bridge, mut store) = playing_bridge();
    for n in [
        Notification::Deactivated,
        Notification::LoopModeSet,
        Notification::ShuffleModeSet,
        Notification::Connected,
        Notification::Disconnected,
        Notification::SessionClosed,
        Notification::Other,
    ] {
        assert!(idle(&notify(&mut bridge, &mut store, n)));
    }
    assert_eq!(ids(&store), vec!["1", "2", "3"]);
}

#[test]
fn events_of_both_sides_are_dispatched() {
    let (mut bridge, mut store) = playing_bridge();
    let event = BridgeEvent::Player(PlayerEvent::Other);
    assert!(bridge.event_in_range(&event));
    assert!(idle(&bridge.handle_event(&mut store, event).unwrap()));
    let event = BridgeEvent::Session(SessionEvent::Command(Command::SetActive));
    let step = bridge.handle_event(&mut store, event).unwrap();
    assert!(matches!(step.ask, Some(Ask::Volume)));
}

// Conversations

/// Answers every question of a step, and the questions that follow, and gives
/// back all effects.
fn converse(
    bridge: &mut BridgeState,
    store: &QueueStore,
    step: Step,
    answered: bool,
) -> Vec<Effect> {
    let mut effects = Vec::new();
    let mut step = step;
    let mut turns = 1;
    loop {
        effects.extend(step.effects);
        let ask = match step.ask {
            Some(ask) => ask,
            None => break,
        };
        let status = if answered { Some(status(PlayState::Playing, 3)) } else { None };
        turns += 1;
        step = match ask {
            Ask::PlaybackStatus(after) => bridge.on_playback_status(store, after, status),
            Ask::Volume => bridge.on_volume(None),
            Ask::Metadata(activation) => {
                let metadata = if answered { Some(playing(20, None)) } else { None };
                bridge.on_metadata(store, activation, &metadata)
            }
            Ask::Tracks { after, .. } => {
                let fetched = if answered { Some(vec![metadata(20)]) } else { None };
                bridge.on_tracks(after, &fetched)
            }
            Ask::CreateSession { plan, track_metadata, .. } => {
                let session_id = if answered { Some("s1".to_string()) } else { None };
                bridge.on_session_created(plan, track_metadata, session_id)
            }
            Ask::LoadCloudQueue { session_id, after, .. } => {
                bridge.on_cloud_queue_loaded(after, session_id, answered);
                Step::idle()
            }
            Ask::User { client } => bridge.on_user(client, None),
            Ask::Account { client, .. } => {
                bridge.on_account(client, None);
                Step::idle()
            }
            Ask::Performed { state, position_ms } => {
                bridge.on_performed(state, position_ms);
                Step::idle()
            }
        };
    }
    assert!(turns <= 5);
    effects
}

fn is_reply(effect: &Effect) -> bool {
    matches!(
        effect,
        Effect::RespondState(_)
            | Effect::RespondActive(_)
            | Effect::RespondVolume(_)
            | Effect::RespondHeartbeat(_)
    )
}

#[test]
fn every_command_is_answered_once_whatever_the_world_answers() {
    let commands = [
        Command::SetState(set_state(Some(2), None, None)),
        Command::SetState(set_state(Some(3), Some(5), Some(2))),
        Command::SetActive,
        Command::SetVolume(SetVolume { volume: Some(5) }),
        Command::Heartbeat,
    ];
    for answered in [true, false] {
        for with_session in [true, false] {
            for cmd in commands {
                let (mut bridge, store) = playing_bridge();
                if !with_session {
                    bridge.session_id = None;
                }
                let step = bridge.handle_command(&store, cmd);
                let effects = converse(&mut bridge, &store, step, answered);
                let replies: Vec<&Effect> = effects.iter().filter(|e| is_reply(e)).collect();
                assert_eq!(replies.len(), 1);
                assert!(match cmd {
                    Command::SetState(_) => matches!(replies[0], Effect::RespondState(_)),
                    Command::SetActive => matches!(replies[0], Effect::RespondActive(_)),
                    Command::SetVolume(_) => matches!(replies[0], Effect::RespondVolume(_)),
                    Command::Heartbeat => matches!(replies[0], Effect::RespondHeartbeat(_)),
                });
                let obeyed = with_session && matches!(cmd, Command::SetState(_));
                assert_eq!(bridge.commanded.is_some(), obeyed);
            }
        }
    }
}

#[test]
fn other_events_are_never_answered() {
    for answered in [true, false] {
        let mut bridge = new_bridge();
        bridge.service_account_number = Some(8);
        bridge.qobuz_client = Some(QobuzClient::new("token", "app").unwrap());
        let mut store = QueueStore::new();
        let queue = QueueStateUpdated { queue_version: None, tracks: vec![track(4, 20)] };
        let step = notify(&mut bridge, &mut store, Notification::QueueState(queue));
        let effects = converse(&mut bridge, &store, step, answered);
        assert!(!effects.iter().any(is_reply));
        assert_eq!(bridge.session_id.is_some(), answered);
        for event in [
            PlayerEvent::PlaybackChanged(status(PlayState::Idle, 1)),
            PlayerEvent::MetadataChanged(playing(20, None)),
            PlayerEvent::VolumeChanged(GroupVolume { volume: 1, muted: true }),
        ] {
            let step = bridge.handle_player_event(&store, event);
            let effects = converse(&mut bridge, &store, step, answered);
            assert!(!effects.iter().any(is_reply));
        }
    }
}

#[test]
fn over_a_run_the_player_is_left_alone_before_the_session_and_the_session_is_kept() {
    let commands_player = |effect: &Effect| {
        matches!(
            effect,
            Effect::Play
                | Effect::Pause
                | Effect::Stop
                | Effect::Seek(_)
                | Effect::SkipNext
                | Effect::SkipPrev
        )
    };
    let mut bridge = new_bridge();
    bridge.service_account_number = Some(8);
    let mut store = QueueStore::new();
    for cmd in [
        Command::SetState(set_state(Some(2), Some(5), None)),
        Command::SetState(set_state(Some(3), None, Some(2))),
        Command::SetActive,
    ] {
        let step = bridge.handle_command(&store, cmd);
        let effects = converse(&mut bridge, &store, step, true);
        assert!(!effects.iter().any(commands_player));
    }
    let tracks = vec![track(1, 10), track(2, 20)];
    let queue = QueueStateUpdated { queue_version: None, tracks };
    let step = notify(&mut bridge, &mut store, Notification::QueueState(queue));
    let effects = converse(&mut bridge, &store, step, true);
    assert!(!effects.iter().any(commands_player));
    assert_eq!(bridge.session_id.as_deref(), Some("s1"));
    let step = bridge.handle_command(&store, Command::SetState(set_state(Some(2), None, None)));
    let effects = converse(&mut bridge, &store, step, true);
    assert!(effects.iter().any(commands_player));
    for n in 0..3u64 {
        let queue = QueueStateUpdated { queue_version: None, tracks: vec![track(n, 10)] };
        assert!(idle(&notify(&mut bridge, &mut store, Notification::QueueState(queue))));
        let msg = QueueLoadTracks {
            queue_version: None,
            tracks: vec![track(n, 20)],
            queue_position: None,
        };
        let step = notify(&mut bridge, &mut store, Notification::QueueLoadTracks(msg));
        match &step.ask {
            Some(Ask::LoadCloudQueue { session_id, after, .. }) => {
                assert_eq!(session_id, "s1");
                assert_eq!(*after, AfterLoad::Reload);
            }
            _ => panic!("unexpected question"),
        }
        converse(&mut bridge, &store, step, n > 1);
        assert_eq!(bridge.session_id.as_deref(), Some("s1"));
    }
}
