use foreign_network::data::ForeignNetworkManagerData;
use foreign_network::events::{EventAction, GlobalCtxEvent};
use foreign_network::identity::NetworkIdentity;
use foreign_network::manager::{ForeignNetworkManager, FOREIGN_NETWORK_SERVICE_ID};
use foreign_network::error::Error;
use foreign_network::packet::NextHopPolicy;
use foreign_network::tables::clock;
use std::time::{Duration, SystemTime};

fn identity(name: &str) -> NetworkIdentity {
    NetworkIdentity { network_name: name.to_string(), network_secret_digest: None }
}

fn join(data: &mut ForeignNetworkManagerData, name: &str, peer_id: u32, peer_map: u64) -> bool {
    let range = "10.0.0.0".to_string();
    let (entry, new) =
        data.get_or_insert_entry(&identity(name), 9, peer_id, true, range, peer_map);
    assert_eq!(entry.network.network_name, name);
    new
}

fn time(secs: u64) -> SystemTime {
    SystemTime::UNIX_EPOCH + Duration::from_secs(secs)
}

#[test]
fn nothing_is_remembered_at_first() {
    let data = ForeignNetworkManagerData::new();
    assert!(data.get_network_entry("a").is_none());
    assert!(data.get_peer_network(1).is_none());
    assert!(data.get_last_update("a").is_none());
    assert!(data.network_names().is_empty());
}

#[test]
fn joining_is_remembered() {
    let mut data = ForeignNetworkManagerData::new();
    let range = "10.0.0.0".to_string();
    let (entry, new) =
        data.get_or_insert_entry_at(&identity("a"), 9, 1, true, range, 100, time(5));
    assert!(new);
    assert_eq!(entry.my_peer_id, 9);
    assert_eq!(entry.ip_range, "10.0.0.0");
    assert_eq!(data.get_last_update("a"), Some(time(5)));
    assert_eq!(data.get_peer_network(1), Some("a".to_string()));
    assert_eq!(data.get_network_entry("a").unwrap().peer_map, 100);
    assert!(data.get_network_entry("b").is_none());
    assert!(data.get_peer_network(2).is_none());
}

#[test]
fn the_first_record_stays() {
    let mut data = ForeignNetworkManagerData::new();
    assert!(join(&mut data, "a", 1, 100));
    assert!(!join(&mut data, "a", 2, 101));
    assert_eq!(data.get_network_entry("a").unwrap().peer_map, 100);
    assert_eq!(data.get_peer_network(2), Some("a".to_string()));
}

#[test]
fn the_clock_is_read() {
    let before = SystemTime::now();
    let mut data = ForeignNetworkManagerData::new();
    join(&mut data, "a", 1, 100);
    let noted = data.get_last_update("a").unwrap();
    assert!(before <= noted && noted <= SystemTime::now());
}

#[test]
fn a_removed_network_is_forgotten() {
    let mut data = ForeignNetworkManagerData::new();
    join(&mut data, "a", 1, 100);
    join(&mut data, "a", 2, 100);
    join(&mut data, "b", 3, 101);
    data.remove_network(&"a".to_string());
    assert!(data.get_network_entry("a").is_none());
    assert!(data.get_last_update("a").is_none());
    assert!(data.get_peer_network(1).is_none());
    assert!(data.get_peer_network(2).is_none());
    assert_eq!(data.get_peer_network(3), Some("b".to_string()));
    assert!(data.get_last_update("b").is_some());
    assert_eq!(data.network_names(), vec!["b".to_string()]);
}

#[test]
fn a_network_with_peers_outlives_one_that_leaves() {
    let mut data = ForeignNetworkManagerData::new();
    join(&mut data, "a", 1, 100);
    join(&mut data, "b", 2, 101);
    data.remove_peer(1, &"a".to_string(), &vec![101, 102]);
    assert!(data.get_peer_network(1).is_none());
    assert!(data.get_network_entry("a").is_some());
    assert!(data.get_last_update("a").is_some());
    assert_eq!(data.get_peer_network(2), Some("b".to_string()));
    assert!(data.get_network_entry("b").is_some());
}

#[test]
fn an_idle_network_ends_with_its_last_peer() {
    let mut data = ForeignNetworkManagerData::new();
    join(&mut data, "a", 1, 100);
    join(&mut data, "b", 2, 101);
    data.remove_peer(1, &"a".to_string(), &vec![7, 100]);
    assert!(data.get_network_entry("a").is_none());
    assert!(data.get_last_update("a").is_none());
    assert!(data.get_network_entry("b").is_some());
}

#[test]
fn a_peer_can_be_left_of_a_network_that_ended() {
    let mut data = ForeignNetworkManagerData::new();
    join(&mut data, "a", 1, 100);
    join(&mut data, "a", 2, 100);
    data.remove_peer(1, &"a".to_string(), &vec![100]);
    assert!(data.get_network_entry("a").is_none());
    assert_eq!(data.get_peer_network(2), Some("a".to_string()));
}

#[test]
fn the_peer_map_to_clear_is_that_of_the_network() {
    let mut data = ForeignNetworkManagerData::new();
    join(&mut data, "a", 1, 100);
    assert_eq!(data.clear_no_conn_peer(&"a".to_string()), Some(100));
    assert_eq!(data.clear_no_conn_peer(&"b".to_string()), None);
}

#[test]
fn events_are_followed() {
    let mut manager = ForeignNetworkManager::new(9, false);
    let name = "a".to_string();
    join(&mut manager.data, "a", 1, 100);
    let none = vec![];
    assert_eq!(
        manager.handle_event_at(&name, Some(GlobalCtxEvent::PeerAdded(1)), &none, time(1)),
        EventAction::Wait
    );
    assert_eq!(manager.get_foreign_network_last_update("a"), Some(time(1)));
    assert_eq!(
        manager.handle_event_at(&name, Some(GlobalCtxEvent::PeerConnRemoved), &none, time(2)),
        EventAction::CleanPeerWithoutConn(100)
    );
    assert_eq!(
        manager.handle_event_at(&name, Some(GlobalCtxEvent::Other), &none, time(3)),
        EventAction::Wait
    );
    assert_eq!(manager.get_foreign_network_last_update("a"), Some(time(1)));
    assert_eq!(
        manager.handle_event_at(&name, Some(GlobalCtxEvent::PeerRemoved(1)), &vec![100], time(4)),
        EventAction::Wait
    );
    assert!(manager.data.get_network_entry("a").is_none());
    assert_eq!(manager.get_foreign_network_last_update("a"), Some(time(4)));
    assert_eq!(
        manager.handle_event_at(&name, Some(GlobalCtxEvent::PeerConnRemoved), &none, time(5)),
        EventAction::Wait
    );
}

#[test]
fn the_end_of_the_events_ends_the_network() {
    let mut manager = ForeignNetworkManager::new(9, false);
    join(&mut manager.data, "a", 1, 100);
    assert_eq!(manager.handle_event(&"a".to_string(), None, &vec![]), EventAction::Stop);
    assert!(manager.data.get_network_entry("a").is_none());
    assert!(manager.data.get_peer_network(1).is_none());
    assert!(manager.get_foreign_network_last_update("a").is_none());
}

#[test]
fn closing_down_keeps_only_the_times() {
    let mut manager = ForeignNetworkManager::new(9, false);
    join(&mut manager.data, "a", 1, 100);
    manager.close_down();
    assert!(manager.data.get_network_entry("a").is_none());
    assert!(manager.data.get_peer_network(1).is_none());
    assert!(manager.get_foreign_network_last_update("a").is_some());
}

#[test]
fn messages_go_to_the_peer_map_of_the_network() {
    let mut manager = ForeignNetworkManager::new(9, false);
    join(&mut manager.data, "a", 1, 100);
    let sent = manager.send_msg_to_peer("a", 1, "hello").ok().unwrap();
    assert_eq!(sent.peer_map, 100);
    assert_eq!(sent.dst_peer_id, 1);
    assert_eq!(sent.msg, "hello");
    assert_eq!(sent.policy, NextHopPolicy::LeastHop);
    match manager.send_msg_to_peer("b", 1, "hello") {
        Err(Error::RouteError(Some(text))) => assert_eq!(text, "network not found"),
        _ => panic!("the network is not served"),
    }
}

#[test]
fn the_service_has_its_number() {
    assert_eq!(FOREIGN_NETWORK_SERVICE_ID, 1);
}

#[test]
fn removing_undoes_joining() {
    let mut data = ForeignNetworkManagerData::new();
    join(&mut data, "b", 3, 101);
    let noted = data.get_last_update("b");
    join(&mut data, "a", 1, 100);
    for _ in 0..2 {
        data.remove_network(&"a".to_string());
        assert_eq!(data.network_names(), vec!["b".to_string()]);
        assert_eq!(data.get_peer_network(1), None);
        assert_eq!(data.get_peer_network(3), Some("b".to_string()));
        assert_eq!(data.get_last_update("a"), None);
        assert_eq!(data.get_last_update("b"), noted);
    }
}

#[test]
fn events_stay_in_their_network() {
    let mut manager = ForeignNetworkManager::new(9, false);
    join(&mut manager.data, "a", 1, 100);
    join(&mut manager.data, "b", 2, 101);
    let noted = manager.get_foreign_network_last_update("b");
    for event in [
        Some(GlobalCtxEvent::PeerAdded(2)),
        Some(GlobalCtxEvent::PeerConnRemoved),
        Some(GlobalCtxEvent::PeerRemoved(1)),
        None,
    ] {
        manager.handle_event(&"a".to_string(), event, &vec![100, 101]);
        assert_eq!(manager.data.get_network_entry("b").unwrap().peer_map, 101);
        assert_eq!(manager.get_foreign_network_last_update("b"), noted);
        assert_eq!(manager.data.get_peer_network(2), Some("b".to_string()));
    }
    assert!(manager.data.get_network_entry("a").is_none());
}

#[test]
fn networks_have_peer_maps_of_their_own() {
    let mut data = ForeignNetworkManagerData::new();
    join(&mut data, "a", 1, 100);
    join(&mut data, "b", 2, 101);
    join(&mut data, "b", 3, 100);
    assert_eq!(data.get_network_entry("a").unwrap().peer_map, 100);
    assert_eq!(data.get_network_entry("b").unwrap().peer_map, 101);
}

#[test]
fn the_clock_shows_the_time() {
    let before = SystemTime::now();
    let shown = clock();
    assert!(before <= shown && shown <= SystemTime::now());
}

#[test]
fn the_time_of_the_last_call_is_kept() {
    let mut manager = ForeignNetworkManager::new(9, false);
    let name = "a".to_string();
    let range = "10.0.0.0".to_string();
    for (peer_id, secs) in [(1, 5), (2, 8), (1, 3)] {
        let at = time(secs);
        manager.data.get_or_insert_entry_at(
            &identity("a"),
            9,
            peer_id,
            true,
            range.clone(),
            100,
            at,
        );
        assert_eq!(manager.get_foreign_network_last_update("a"), Some(at));
    }
    manager.data.touch(&name, time(11));
    assert_eq!(manager.get_foreign_network_last_update("a"), Some(time(11)));
    manager.data.remove_peer(1, &name, &vec![]);
    assert_eq!(manager.get_foreign_network_last_update("a"), Some(time(11)));
    manager.data.remove_network(&name);
    assert_eq!(manager.get_foreign_network_last_update("a"), None);
}

#[test]
fn a_network_without_call_has_no_time() {
    let mut manager = ForeignNetworkManager::new(9, false);
    join(&mut manager.data, "a", 1, 100);
    manager.handle_event(&"a".to_string(), Some(GlobalCtxEvent::PeerAdded(1)), &vec![]);
    manager.data.remove_peer(1, &"b".to_string(), &vec![100]);
    manager.handle_event(&"b".to_string(), Some(GlobalCtxEvent::Other), &vec![]);
    assert_eq!(manager.get_foreign_network_last_update("b"), None);
    assert_eq!(manager.get_foreign_network_last_update(""), None);
}
