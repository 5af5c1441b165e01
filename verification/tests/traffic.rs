use foreign_network::context::{FeatureFlags, HostContext, NatType};
use foreign_network::entry::ForeignNetworkEntry;
use foreign_network::error::Error;
use foreign_network::identity::NetworkIdentity;
use foreign_network::packet::{
    ForwardAction, Gateway, NextHopPolicy, PacketAction, PacketInfo, PacketType,
    PeerManagerHeader,
};
use foreign_network::route::{merge_neighbours, GlobalForeignNetworkAccessor};
use foreign_network::text::to_decimal;

fn entry(relay_data: bool) -> ForeignNetworkEntry {
    let network = NetworkIdentity {
        network_name: "net".to_string(),
        network_secret_digest: Some([4; 32]),
    };
    ForeignNetworkEntry::new(network, 9, relay_data, "10.0.0.0".to_string(), 100)
}

fn packet(to_peer_id: u32, packet_type: PacketType, payload_len: usize) -> PacketInfo {
    PacketInfo { header: Some(PeerManagerHeader { to_peer_id, packet_type }), payload_len }
}

fn forward(to_peer_id: u32) -> PacketAction {
    PacketAction::Forward { to_peer_id, policy: NextHopPolicy::LeastHop }
}

#[test]
fn procedure_calls_for_this_node_are_delivered() {
    let mut forwarder = entry(true).start_packet_recv();
    for packet_type in [PacketType::TaRpc, PacketType::RpcReq, PacketType::RpcResp] {
        assert_eq!(forwarder.recv(packet(9, packet_type, 1)), PacketAction::DeliverRpc);
    }
    for packet_type in [PacketType::Data, PacketType::ForeignNetworkPacket, PacketType::Other(4)] {
        assert_eq!(forwarder.recv(packet(9, packet_type, 1)), PacketAction::Ignore);
    }
    assert_eq!(forwarder.traffic, 6);
}

#[test]
fn data_is_relayed_only_where_it_may_be() {
    let mut relaying = entry(true).start_packet_recv();
    let mut signalling = entry(false).start_packet_recv();
    assert_eq!(relaying.recv(packet(3, PacketType::Data, 10)), forward(3));
    assert_eq!(signalling.recv(packet(3, PacketType::Data, 10)), PacketAction::Drop);
    assert_eq!(signalling.recv(packet(3, PacketType::RpcReq, 5)), forward(3));
    assert_eq!(signalling.recv(packet(3, PacketType::Other(7), 5)), forward(3));
    assert_eq!(signalling.traffic, 20);
}

#[test]
fn only_valid_packets_are_counted() {
    let mut forwarder = entry(true).start_packet_recv();
    assert_eq!(forwarder.traffic, 0);
    let invalid = PacketInfo { header: None, payload_len: 1000 };
    assert_eq!(forwarder.recv(invalid), PacketAction::Skip);
    assert_eq!(forwarder.traffic, 0);
    forwarder.recv(packet(3, PacketType::Data, 1500));
    forwarder.recv(packet(9, PacketType::Data, 500));
    assert_eq!(forwarder.traffic, 2000);
}

#[test]
fn a_connected_gateway_gets_the_packet_itself() {
    let forwarder = entry(true).start_packet_recv();
    match forwarder.forward(3, Some(Gateway { peer_id: 4, connected: true })) {
        ForwardAction::SendDirectly { to_peer_id } => assert_eq!(to_peer_id, 4),
        _ => panic!("the gateway is connected"),
    }
}

#[test]
fn other_packets_are_wrapped() {
    let forwarder = entry(true).start_packet_recv();
    for (gateway, next) in [(None, 3), (Some(Gateway { peer_id: 4, connected: false }), 4)] {
        match forwarder.forward(3, gateway) {
            ForwardAction::SendWrapped(wrapped) => {
                assert_eq!(wrapped.network_name, "net");
                assert_eq!(wrapped.dst_peer_id, 3);
                assert_eq!(wrapped.from_peer_id, 9);
                assert_eq!(wrapped.to_peer_id, next);
                assert_eq!(wrapped.packet_type, PacketType::ForeignNetworkPacket);
            }
            _ => panic!("the gateway is not connected"),
        }
    }
}

#[test]
fn a_network_is_served_as_a_public_server() {
    let host = HostContext {
        hostname: "relay".to_string(),
        feature_flags: FeatureFlags { is_public_server: false, others: 5u8 },
        running_listeners: vec!["tcp://0.0.0.0:1", "udp://0.0.0.0:2"],
    };
    let setup = entry(true).set_up(host);
    assert_eq!(setup.context.hostname, "PublicServer_relay");
    assert_eq!(setup.context.network.network_name, "net");
    assert_eq!(setup.context.network.network_secret_digest, Some([4; 32]));
    assert_eq!(setup.context.udp_nat_type, NatType::Unknown);
    assert!(setup.context.feature_flags.is_public_server);
    assert_eq!(setup.context.feature_flags.others, 5);
    assert_eq!(setup.context.running_listeners, vec!["tcp://0.0.0.0:1", "udp://0.0.0.0:2"]);
    assert_eq!(setup.rpc_domain, "net");
    assert_eq!(entry(true).rpc_domain(), "net");
    assert_eq!(setup.transport.my_peer_id(), 9);
    assert_eq!(setup.forwarder.traffic, 0);
}

#[test]
fn calls_are_handed_to_this_node() {
    let transport = ForeignNetworkEntry::build_rpc_tspt(9);
    let sent = transport.send("call", 3, false).ok().unwrap();
    assert_eq!(sent.to, 9);
    assert_eq!(sent.msg, "call");
    match transport.send("call", 3, true) {
        Err(Error::Anyhow(text)) => assert_eq!(text, "peer map is gone"),
        _ => panic!("the peer map is gone"),
    }
    assert_eq!(transport.recv(Some("reply")).ok(), Some("reply"));
    assert!(matches!(transport.recv::<u8>(None), Err(Error::Unknown)));
}

struct Known(Vec<u32>);

impl GlobalForeignNetworkAccessor for Known {
    fn list_global_foreign_peer(&self, network_identity: &NetworkIdentity) -> Vec<u32> {
        assert_eq!(network_identity.network_name, "net");
        self.0.clone()
    }
}

#[test]
fn neighbours_are_the_other_peers() {
    let setup = entry(true).prepare_route(9, Known(vec![3, 9, 4]));
    assert_eq!(setup.ip_range, "10.0.0.0");
    assert_eq!(setup.interface.my_peer_id(), 9);
    assert_eq!(setup.interface.list_peers(&Some(vec![9, 5, 3])), vec![3, 4, 5, 3]);
    assert_eq!(setup.interface.list_peers(&None), Vec::<u32>::new());
    assert_eq!(merge_neighbours(1, &vec![1, 1], &vec![]), Vec::<u32>::new());
}

#[test]
fn numbers_are_written_in_decimal() {
    assert_eq!(to_decimal(0), "0");
    assert_eq!(to_decimal(9), "9");
    assert_eq!(to_decimal(10), "10");
    assert_eq!(to_decimal(12_345_067_890), "12345067890");
    assert_eq!(to_decimal(usize::MAX), usize::MAX.to_string());
}
