use qonos::topology::{
    cloud_queue_base_url, cloud_queue_port, is_stale, needs_bridge, player_host, stale_bridges,
    websocket_host, Group,
};

fn group(id: &str, coordinator_id: &str) -> Group {
    Group { id: id.to_string(), coordinator_id: coordinator_id.to_string() }
}

#[test]
fn the_host_is_taken_from_a_websocket_url() {
    assert_eq!(websocket_host("wss://192.168.1.100:1443/api").as_deref(), Some("192.168.1.100"));
    assert_eq!(websocket_host("ws://host:80").as_deref(), Some("host"));
    assert_eq!(websocket_host("wss://host/path").as_deref(), Some("host/path"));
    assert_eq!(websocket_host("wss://").as_deref(), Some(""));
    assert_eq!(websocket_host("http://host:80"), None);
}

#[test]
fn the_first_player_with_a_url_decides() {
    let url = |s: &str| Some(s.to_string());
    assert_eq!(
        player_host(&vec![None, url("wss://a:1"), url("wss://b:1")]).as_deref(),
        Some("a")
    );
    // A URL of another kind is not passed over.
    assert_eq!(player_host(&vec![url("http://a"), url("wss://b:1")]), None);
    assert_eq!(player_host(&vec![None, None]), None);
    assert_eq!(player_host(&vec![]), None);
}

#[test]
fn the_port_has_a_default() {
    let setting = |s: &str| Some(s.to_string());
    assert_eq!(cloud_queue_port(&None), 9444);
    assert_eq!(cloud_queue_port(&setting("8080")), 8080);
    assert_eq!(cloud_queue_port(&setting("65535")), 65535);
    assert_eq!(cloud_queue_port(&setting("65536")), 9444);
    assert_eq!(cloud_queue_port(&setting("")), 9444);
    assert_eq!(cloud_queue_port(&setting("http")), 9444);
}

#[test]
fn the_base_url_has_host_and_port() {
    let ip = Some("192.168.1.5".to_string());
    assert_eq!(cloud_queue_base_url(&ip, 9444), "http://192.168.1.5:9444");
    assert_eq!(cloud_queue_base_url(&None, 80), "http://127.0.0.1:80");
}

#[test]
fn bridges_of_gone_or_changed_groups_are_stale() {
    let groups = vec![group("g1", "p1"), group("g2", "p9"), group("g4", "p4")];
    let bridges = vec![group("g1", "p1"), group("g2", "p2"), group("g3", "p3")];
    assert_eq!(stale_bridges(&bridges, &groups), vec![1, 2]);
    assert!(!is_stale(&groups, &bridges[0]));
    assert!(is_stale(&vec![], &bridges[0]));
    assert!(stale_bridges(&vec![], &groups).is_empty());
}

#[test]
fn of_groups_with_one_id_the_last_counts() {
    let groups = vec![group("g", "first"), group("g", "last")];
    assert!(is_stale(&groups, &group("g", "first")));
    assert!(!is_stale(&groups, &group("g", "last")));
}

#[test]
fn groups_without_a_bridge_need_one() {
    let bridges = vec![group("g1", "p1")];
    assert!(!needs_bridge(&bridges, "g1"));
    assert!(needs_bridge(&bridges, "g2"));
    assert!(needs_bridge(&vec![], "g1"));
}

#[test]
fn bridges_settle_on_the_topology() {
    let groups = vec![group("g1", "p1"), group("g2", "p9"), group("g4", "p4")];
    let mut bridges = vec![group("g1", "p1"), group("g2", "p2"), group("g3", "p3")];
    for place in stale_bridges(&bridges, &groups).into_iter().rev() {
        bridges.remove(place);
    }
    for g in &groups {
        if needs_bridge(&bridges, &g.id) {
            bridges.push(group(&g.id, &g.coordinator_id));
        }
    }
    let settled: Vec<(&str, &str)> =
        bridges.iter().map(|b| (b.id.as_str(), b.coordinator_id.as_str())).collect();
    assert_eq!(settled, vec![("g1", "p1"), ("g2", "p9"), ("g4", "p4")]);
    assert!(stale_bridges(&bridges, &groups).is_empty());
}
