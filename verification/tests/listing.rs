use foreign_network::identity::NetworkIdentity;
use foreign_network::listing::{ForeignNetworkEntryPb, Listing};
use foreign_network::manager::ForeignNetworkManager;

fn join(manager: &mut ForeignNetworkManager, name: &str, digest: Option<[u8; 32]>, peer_map: u64) {
    let network =
        NetworkIdentity { network_name: name.to_string(), network_secret_digest: digest };
    manager.data.get_or_insert_entry(&network, 9, 1, true, "10.0.0.0".to_string(), peer_map);
}

#[test]
fn every_network_is_listed_with_its_peers() {
    let mut manager = ForeignNetworkManager::new(9, false);
    join(&mut manager, "a", Some([7; 32]), 100);
    join(&mut manager, "b", None, 101);
    let mut listing: Listing<&str> = manager.list_foreign_networks();
    while let Some((name, entry)) = listing.next(&manager.data) {
        let mut listed = ForeignNetworkEntryPb::for_entry(&entry);
        if entry.peer_map == 100 {
            listed.push_peer(3, Some(vec!["tcp", "udp"]));
            listed.push_peer(4, None);
        }
        listing.record(name, listed);
    }
    let response = listing.finish();
    assert_eq!(response.foreign_networks.len(), 2);
    let a = response.foreign_networks.get("a").unwrap();
    assert_eq!(a.network_secret_digest, vec![7; 32]);
    assert_eq!(a.peers.len(), 2);
    assert_eq!(a.peers[0].peer_id, 3);
    assert_eq!(a.peers[0].conns, vec!["tcp", "udp"]);
    assert_eq!(a.peers[1].peer_id, 4);
    assert!(a.peers[1].conns.is_empty());
    let b = response.foreign_networks.get("b").unwrap();
    assert_eq!(b.network_secret_digest, vec![0; 32]);
    assert!(b.peers.is_empty());
}

#[test]
fn a_network_that_ended_meanwhile_is_passed_over() {
    let mut manager = ForeignNetworkManager::new(9, false);
    for (name, peer_map) in [("a", 100), ("b", 101), ("c", 102)] {
        join(&mut manager, name, None, peer_map);
    }
    let mut listing: Listing<u8> = manager.list_foreign_networks();
    manager.data.remove_network(&"b".to_string());
    let mut names = vec![];
    while let Some((name, entry)) = listing.next(&manager.data) {
        assert_eq!(entry.network.network_name, name);
        names.push(name);
    }
    names.sort();
    assert_eq!(names, vec!["a".to_string(), "c".to_string()]);
}
