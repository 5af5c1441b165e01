//! What is promised of the packets of a foreign network, call by call.
use crate::entry::ForeignNetworkEntry;
use crate::identity::PeerId;
use crate::laws::traffic_after;
use crate::packet::{
    counted, forward_action, packet_action, ForwardAction, ForwardView, Gateway, PacketAction,
    PacketForwarder, PacketInfo,
};
use vstd::prelude::*;

verus! {

/// A packet can come in whenever the network's traffic can still be counted with
/// its payload; one that is not valid can always come in.
pub proof fn law_packets_are_taken(forwarder: &mut PacketForwarder, packet: PacketInfo)
    requires
        packet.header is Some ==> forwarder.traffic + packet.payload_len <= u64::MAX,
    ensures
        call_requires(PacketForwarder::recv, (forwarder, packet)),
{
}

/// A packet with a header adds its payload length to the traffic, whatever its
/// length and whatever becomes of it; one without a header adds nothing. Nothing
/// else about the forwarder changes.
pub proof fn law_payload_is_counted(
    forwarder: &mut PacketForwarder,
    packet: PacketInfo,
    action: PacketAction,
)
    requires
        call_ensures(PacketForwarder::recv, (forwarder, packet), action),
    ensures
        packet.header is Some ==> final(forwarder).traffic - old(forwarder).traffic
            == packet.payload_len,
        packet.header is None ==> final(forwarder).traffic == old(forwarder).traffic,
        final(forwarder).my_node_id == old(forwarder).my_node_id,
        final(forwarder).relay_data == old(forwarder).relay_data,
        final(forwarder).network_name@ == old(forwarder).network_name@,
{
}

/// What becomes of a packet that came in: without a header it is skipped; for this
/// node it is delivered if it is part of a procedure call, and ignored if not; for
/// any other peer it goes on to that peer by the fewest hops, unless it carries
/// data and data is not relayed.
pub proof fn law_packet_is_routed(
    forwarder: &mut PacketForwarder,
    packet: PacketInfo,
    action: PacketAction,
)
    requires
        call_ensures(PacketForwarder::recv, (forwarder, packet), action),
    ensures
        action is Skip <==> packet.header is None,
        packet.header matches Some(header) ==> {
            let mine = header.to_peer_id == old(forwarder).my_node_id;
            let rpc = header.packet_type is TaRpc || header.packet_type is RpcReq
                || header.packet_type is RpcResp;
            let kept_back = header.packet_type is Data && !old(forwarder).relay_data;
            &&& action is DeliverRpc <==> mine && rpc
            &&& action is Ignore <==> mine && !rpc
            &&& action is Drop <==> !mine && kept_back
            &&& action is Forward <==> !mine && !kept_back
            &&& action matches PacketAction::Forward { to_peer_id, policy } ==> to_peer_id
                == header.to_peer_id && policy is LeastHop
        },
{
}

/// The same of the model: only the header of a packet, the peer that this node is
/// and whether data is relayed decide what becomes of it.
pub proof fn law_header_decides(my_node_id: PeerId, relay_data: bool, packet: PacketInfo)
    ensures
        ({
            let action = packet_action(my_node_id, relay_data, packet);
            &&& action is Skip <==> packet.header is None
            &&& packet.header matches Some(header) ==> {
                let mine = header.to_peer_id == my_node_id;
                let rpc = header.packet_type is TaRpc || header.packet_type is RpcReq
                    || header.packet_type is RpcResp;
                let kept_back = header.packet_type is Data && !relay_data;
                &&& action is DeliverRpc <==> mine && rpc
                &&& action is Ignore <==> mine && !rpc
                &&& action is Drop <==> !mine && kept_back
                &&& action is Forward <==> !mine && !kept_back
                &&& action matches PacketAction::Forward { to_peer_id, policy } ==> to_peer_id
                    == header.to_peer_id && policy is LeastHop
            }
        }),
{
}

/// A packet is sent directly if and only if a gateway is known and connected, and
/// then to that gateway, whichever peer it is, the destination among them. Every
/// other packet is wrapped for its own network and destination, from this node, to
/// the gateway if one is known, and to the destination itself if none is.
pub proof fn law_connected_gateway_is_sent_to_directly(
    forwarder: PacketForwarder,
    to_peer_id: PeerId,
    gateway: Option<Gateway>,
    action: ForwardAction,
)
    requires
        call_ensures(PacketForwarder::forward, (&forwarder, to_peer_id, gateway), action),
    ensures
        action is SendDirectly <==> gateway is Some && gateway->0.connected,
        action matches ForwardAction::SendDirectly { to_peer_id: next } ==> gateway is Some && next
            == gateway->0.peer_id,
        action matches ForwardAction::SendWrapped(packet) ==> {
            &&& packet.network_name@ == forwarder.network_name@
            &&& packet.dst_peer_id == to_peer_id
            &&& packet.from_peer_id == forwarder.my_node_id
            &&& packet.packet_type is ForeignNetworkPacket
            &&& gateway is Some ==> packet.to_peer_id == gateway->0.peer_id
            &&& gateway is None ==> packet.to_peer_id == to_peer_id
        },
{
}

/// The same of the model.
pub proof fn law_way_on_is_the_gateway(
    my_node_id: PeerId,
    network_name: Seq<char>,
    to_peer_id: PeerId,
    gateway: Option<Gateway>,
)
    ensures
        ({
            let action = forward_action(my_node_id, network_name, to_peer_id, gateway);
            &&& action is SendDirectly <==> gateway is Some && gateway->0.connected
            &&& action matches ForwardView::SendDirectly { to_peer_id: next } ==> next
                == gateway->0.peer_id
            &&& action matches ForwardView::SendWrapped {
                network_name: wrapped_for,
                dst_peer_id,
                from_peer_id,
                to_peer_id: next,
                packet_type,
            } ==> {
                &&& wrapped_for == network_name
                &&& dst_peer_id == to_peer_id
                &&& from_peer_id == my_node_id
                &&& packet_type is ForeignNetworkPacket
                &&& gateway is Some ==> next == gateway->0.peer_id
                &&& gateway is None ==> next == to_peer_id
            }
        }),
{
}

/// Which gateway is taken does not depend on the destination, and who the sender
/// and the network are shows only in packets that are wrapped.
pub proof fn law_direct_way_depends_on_the_gateway_alone(
    one: PacketForwarder,
    other: PacketForwarder,
    one_to: PeerId,
    other_to: PeerId,
    gateway: Gateway,
    one_action: ForwardAction,
    other_action: ForwardAction,
)
    requires
        call_ensures(PacketForwarder::forward, (&one, one_to, Some(gateway)), one_action),
        call_ensures(PacketForwarder::forward, (&other, other_to, Some(gateway)), other_action),
    ensures
        one_action is SendDirectly <==> other_action is SendDirectly,
        one_action is SendDirectly ==> one_action == other_action,
{
}

/// The forwarding of a network's packets starts as its record says, with nothing
/// counted.
pub proof fn law_forwarding_follows_the_record(
    entry: ForeignNetworkEntry,
    forwarder: PacketForwarder,
)
    requires
        call_ensures(ForeignNetworkEntry::start_packet_recv, (&entry,), forwarder),
    ensures
        forwarder.my_node_id == entry.my_peer_id,
        forwarder.relay_data == entry.relay_data,
        forwarder.network_name@ == entry.network.network_name@,
        forwarder.traffic == 0,
{
}

/// The traffic after a sequence of packets and one more is that after the
/// sequence, with the payload of the last packet if it has a header.
pub proof fn law_last_packet_adds_its_payload(
    traffic: int,
    packets: Seq<PacketInfo>,
    last: PacketInfo,
)
    ensures
        last.header is Some ==> traffic_after(traffic, packets.push(last)) == traffic_after(
            traffic,
            packets,
        ) + last.payload_len,
        last.header is None ==> traffic_after(traffic, packets.push(last)) == traffic_after(
            traffic,
            packets,
        ),
    decreases packets.len(),
{
    let all = packets.push(last);
    if packets.len() == 0 {
        assert(all.drop_first() =~= Seq::empty());
        reveal_with_fuel(traffic_after, 2);
    } else {
        assert(all.drop_first() =~= packets.drop_first().push(last));
        assert(all[0] == packets[0]);
        law_last_packet_adds_its_payload(
            traffic + counted(packets[0]),
            packets.drop_first(),
            last,
        );
    }
}

/// After any sequence of packets, the traffic has grown by the sum of the payload
/// lengths of those that have a header.
pub proof fn law_traffic_grows_by_the_payloads(traffic: int, packets: Seq<PacketInfo>)
    ensures
        traffic_after(traffic, packets) == packets.filter(
            |packet: PacketInfo| packet.header is Some,
        ).map_values(|packet: PacketInfo| packet.payload_len as int).fold_left(
            traffic,
            |sum: int, length: int| sum + length,
        ),
    decreases packets.len(),
{
    let keep = |packet: PacketInfo| packet.header is Some;
    let length = |packet: PacketInfo| packet.payload_len as int;
    reveal_with_fuel(Seq::filter, 1);
    if packets.len() > 0 {
        let before = packets.drop_last();
        let last = packets.last();
        law_traffic_grows_by_the_payloads(traffic, before);
        assert(packets =~= before.push(last));
        law_last_packet_adds_its_payload(traffic, before, last);
        let lengths = packets.filter(keep).map_values(length);
        if last.header is Some {
            assert(lengths.drop_last() =~= before.filter(keep).map_values(length));
            assert(lengths.last() == last.payload_len);
        }
    }
}

} // verus!
