//! What holds of the memory of networks and peers, across its operations.
use crate::data::DataView;
use crate::entry::EntryView;
use crate::events::{after_event, GlobalCtxEvent};
use crate::identity::{PeerId, PeerMapId};
use crate::listing::{law_list_has_the_served_networks, listed_names};
use crate::packet::{
    counted, counted_all, packet_action, PacketAction, PacketInfo, PacketType,
};
use std::time::SystemTime;
use vstd::prelude::*;

verus! {

/// After a peer came with a network, the network is served, the peer is known to
/// belong to it, and the time is that of the change; of no other network and no
/// other peer anything changed.
pub proof fn law_joining_is_remembered(
    data: DataView,
    fresh: EntryView,
    peer_id: PeerId,
    now: SystemTime,
    other: Seq<char>,
    other_peer: PeerId,
)
    ensures
        ({
            let name = fresh.network.network_name;
            let after = data.joined(fresh, peer_id, now);
            &&& after.entries.contains_key(name)
            &&& after.entries[name] == data.serving(fresh)
            &&& after.networks.contains_key(peer_id)
            &&& after.networks[peer_id] == name
            &&& after.times.contains_key(name)
            &&& after.times[name] == now
            &&& other != name ==> {
                &&& after.entries.get(other) == data.entries.get(other)
                &&& after.times.get(other) == data.times.get(other)
            }
            &&& other_peer != peer_id ==> after.networks.get(other_peer) == data.networks.get(
                other_peer,
            )
        }),
{
}

/// The first peer of a network determines its record: whoever comes later, with
/// whatever secret, finds the same one.
pub proof fn law_first_record_stays(
    data: DataView,
    first: EntryView,
    first_peer: PeerId,
    first_time: SystemTime,
    second: EntryView,
    second_peer: PeerId,
    second_time: SystemTime,
)
    requires
        first.network.network_name == second.network.network_name,
    ensures
        ({
            let once = data.joined(first, first_peer, first_time);
            let twice = once.joined(second, second_peer, second_time);
            &&& once.serving(second) == data.serving(first)
            &&& twice.entries == once.entries
        }),
{
    let once = data.joined(first, first_peer, first_time);
    let twice = once.joined(second, second_peer, second_time);
    assert(twice.entries =~= once.entries);
}

/// Once a network is removed, nothing is remembered of it, and everything is
/// remembered of the others and of the peers that came with them.
pub proof fn law_removed_network_is_forgotten(
    data: DataView,
    name: Seq<char>,
    other: Seq<char>,
    peer_id: PeerId,
)
    ensures
        ({
            let after = data.without_network(name);
            &&& !after.entries.contains_key(name)
            &&& !after.times.contains_key(name)
            &&& !after.networks.contains_value(name)
            &&& other != name ==> {
                &&& after.entries.get(other) == data.entries.get(other)
                &&& after.times.get(other) == data.times.get(other)
                &&& (after.networks.get(peer_id) == Some(other) <==> data.networks.get(peer_id)
                    == Some(other))
            }
        }),
{
}

/// Removing a network undoes that a peer came with it, where nothing was
/// remembered of the network or of the peer before.
pub proof fn law_removing_undoes_joining(
    data: DataView,
    fresh: EntryView,
    peer_id: PeerId,
    now: SystemTime,
)
    requires
        !data.entries.contains_key(fresh.network.network_name),
        !data.times.contains_key(fresh.network.network_name),
        !data.networks.contains_value(fresh.network.network_name),
        !data.networks.contains_key(peer_id),
    ensures
        data.joined(fresh, peer_id, now).without_network(fresh.network.network_name) == data,
{
    let name = fresh.network.network_name;
    let after = data.joined(fresh, peer_id, now).without_network(name);
    assert(after.entries =~= data.entries);
    assert(after.times =~= data.times);
    assert forall|p: PeerId| data.networks.contains_key(p) implies data.networks[p] != name by {
        if data.networks[p] == name {
            assert(data.networks.contains_value(name));
        }
    }
    assert(after.networks =~= data.networks);
}

/// Removing a network twice is removing it once.
pub proof fn law_removing_twice_is_removing_once(data: DataView, name: Seq<char>)
    ensures
        data.without_network(name).without_network(name) == data.without_network(name),
{
    let once = data.without_network(name);
    assert(once.without_network(name) =~= once);
}

/// When a peer leaves a network, only that peer is forgotten, and at most that
/// network stops being served: it does exactly if its peer map holds no peer any
/// more, and then the time of its last change goes with it.
pub proof fn law_leaving_ends_only_an_idle_network(
    data: DataView,
    peer_id: PeerId,
    name: Seq<char>,
    idle: Seq<PeerMapId>,
    other: Seq<char>,
    other_peer: PeerId,
)
    ensures
        ({
            let after = data.without_peer(peer_id, name, idle);
            &&& !after.networks.contains_key(peer_id)
            &&& other_peer != peer_id ==> after.networks.get(other_peer) == data.networks.get(
                other_peer,
            )
            &&& after.entries.contains_key(name) <==> data.entries.contains_key(name)
                && !idle.contains(data.entries[name].peer_map)
            &&& data.served_idly(name, idle) ==> !after.times.contains_key(name)
            &&& !data.served_idly(name, idle) ==> after.times == data.times
            &&& other != name ==> {
                &&& after.entries.get(other) == data.entries.get(other)
                &&& after.times.get(other) == data.times.get(other)
            }
        }),
{
}

/// No two networks share a peer map.
pub open spec fn own_peer_maps(data: DataView) -> bool {
    forall|one: Seq<char>, other: Seq<char>|
        #![trigger data.entries.contains_key(one), data.entries.contains_key(other)]
        data.entries.contains_key(one) && data.entries.contains_key(other)
            && data.entries[one].peer_map == data.entries[other].peer_map ==> one == other
}

/// No network has the peer map.
pub open spec fn is_unused(data: DataView, peer_map: PeerMapId) -> bool {
    forall|name: Seq<char>| #[trigger]
        data.entries.contains_key(name) ==> data.entries[name].peer_map != peer_map
}

/// A network that is served for the first time gets a peer map of its own if it is
/// given one that is not in use; a network that is served already keeps its own,
/// whatever the connection was given.
pub proof fn law_joining_keeps_peer_maps_apart(
    data: DataView,
    fresh: EntryView,
    peer_id: PeerId,
    now: SystemTime,
)
    requires
        own_peer_maps(data),
        data.entries.contains_key(fresh.network.network_name) || is_unused(data, fresh.peer_map),
    ensures
        own_peer_maps(data.joined(fresh, peer_id, now)),
{
}

/// Networks keep peer maps of their own when a peer leaves, when a network is
/// removed, when something changes in one, whatever event happens, and when the
/// manager closes down; at first there are none to share.
pub proof fn law_peer_maps_stay_apart(
    data: DataView,
    peer_id: PeerId,
    name: Seq<char>,
    event: Option<GlobalCtxEvent>,
    idle: Seq<PeerMapId>,
    now: SystemTime,
)
    requires
        own_peer_maps(data),
    ensures
        own_peer_maps(data.without_peer(peer_id, name, idle)),
        own_peer_maps(data.without_network(name)),
        own_peer_maps(data.touched(name, now)),
        own_peer_maps(after_event(data, name, event, idle, now)),
        own_peer_maps(data.closed_down()),
        own_peer_maps(DataView::nothing()),
{
}

/// Every peer that is known came with a network that is served.
pub open spec fn peers_are_served(data: DataView) -> bool {
    forall|peer_id: PeerId| #[trigger]
        data.networks.contains_key(peer_id) ==> data.entries.contains_key(data.networks[peer_id])
}

/// That every known peer came with a network that is served stays true when a
/// peer comes, when a network is removed, when something changes in a network and
/// when the manager closes down.
pub proof fn law_peers_stay_served(
    data: DataView,
    fresh: EntryView,
    peer_id: PeerId,
    name: Seq<char>,
    now: SystemTime,
)
    requires
        peers_are_served(data),
    ensures
        peers_are_served(data.joined(fresh, peer_id, now)),
        peers_are_served(data.without_network(name)),
        peers_are_served(data.touched(name, now)),
        peers_are_served(data.closed_down()),
{
}

/// It also stays true when a peer leaves, unless that ends a network with which
/// another known peer came.
pub proof fn law_peers_stay_served_when_one_leaves(
    data: DataView,
    peer_id: PeerId,
    name: Seq<char>,
    idle: Seq<PeerMapId>,
)
    requires
        peers_are_served(data),
        data.served_idly(name, idle) ==> forall|other: PeerId| #[trigger]
            data.networks.contains_key(other) && data.networks[other] == name ==> other == peer_id,
    ensures
        peers_are_served(data.without_peer(peer_id, name, idle)),
{
}

/// Whatever happens in a network, the records and the times of the other networks
/// stay as they are, and no peer changes its network: a peer is forgotten at
/// most, and only if it is the one that left, or if it came with the network
/// whose events have ended.
pub proof fn law_events_stay_in_their_network(
    data: DataView,
    name: Seq<char>,
    event: Option<GlobalCtxEvent>,
    idle: Seq<PeerMapId>,
    now: SystemTime,
    other: Seq<char>,
    peer_id: PeerId,
)
    requires
        other != name,
    ensures
        ({
            let after = after_event(data, name, event, idle, now);
            &&& after.entries.get(other) == data.entries.get(other)
            &&& after.times.get(other) == data.times.get(other)
            &&& after.networks.get(peer_id) == data.networks.get(peer_id) || {
                &&& after.networks.get(peer_id) is None
                &&& {
                    ||| event == Some(GlobalCtxEvent::PeerRemoved(peer_id))
                    ||| event is None && data.networks[peer_id] == name
                }
            }
        }),
{
}

/// An event never makes a network served, and never changes the record of one.
pub proof fn law_events_make_no_records(
    data: DataView,
    name: Seq<char>,
    event: Option<GlobalCtxEvent>,
    idle: Seq<PeerMapId>,
    now: SystemTime,
)
    ensures
        after_event(data, name, event, idle, now).entries.submap_of(data.entries),
{
}

/// A manager that has closed down serves no network and knows no peer, but still
/// knows when something last changed.
pub proof fn law_closed_down_serves_nothing(data: DataView, name: Seq<char>, peer_id: PeerId)
    ensures
        !data.closed_down().entries.contains_key(name),
        !data.closed_down().networks.contains_key(peer_id),
        data.closed_down().times == data.times,
{
}

/// A list of all networks that are served, put together while the memory does not
/// change, has each of them and no other.
pub proof fn law_list_is_complete(pending: Seq<Seq<char>>, data: DataView)
    requires
        pending.to_set() == data.entries.dom(),
    ensures
        listed_names(pending, data.entries) == data.entries.dom(),
{
    law_list_has_the_served_networks(pending, data.entries);
    assert(data.entries.dom().intersect(data.entries.dom()) =~= data.entries.dom());
}

/// What a forwarder has counted after a sequence of packets.
pub open spec fn traffic_after(traffic: int, packets: Seq<PacketInfo>) -> int
    decreases packets.len(),
{
    if packets.len() == 0 {
        traffic
    } else {
        traffic_after(traffic + counted(packets[0]), packets.drop_first())
    }
}

proof fn lemma_counted_all_first(packets: Seq<PacketInfo>)
    requires
        packets.len() > 0,
    ensures
        counted_all(packets) == counted(packets[0]) + counted_all(packets.drop_first()),
    decreases packets.len(),
{
    if packets.len() == 1 {
        assert(packets.drop_last() =~= Seq::empty());
        assert(packets.drop_first() =~= Seq::empty());
        reveal_with_fuel(counted_all, 2);
    } else {
        lemma_counted_all_first(packets.drop_last());
        assert(packets.drop_last().drop_first() =~= packets.drop_first().drop_last());
    }
}

/// Every valid packet is counted once, with its whole payload, whatever becomes
/// of it; a packet that is not valid is not counted.
pub proof fn law_traffic_is_the_sum_of_valid_payloads(traffic: int, packets: Seq<PacketInfo>)
    ensures
        traffic_after(traffic, packets) == traffic + counted_all(packets),
    decreases packets.len(),
{
    if packets.len() > 0 {
        law_traffic_is_the_sum_of_valid_payloads(
            traffic + counted(packets[0]),
            packets.drop_first(),
        );
        lemma_counted_all_first(packets);
    }
}

/// A packet goes on only if it is valid and for another peer, and data goes on
/// only where it is relayed; what is handed to the node's own procedures is for
/// this node.
pub proof fn law_packets_go_where_they_may(
    my_node_id: PeerId,
    relay_data: bool,
    packet: PacketInfo,
)
    ensures
        packet_action(my_node_id, relay_data, packet) is Forward <==> {
            &&& packet.header is Some
            &&& packet.header->0.to_peer_id != my_node_id
            &&& relay_data || packet.header->0.packet_type != PacketType::Data
        },
        packet_action(my_node_id, relay_data, packet) is DeliverRpc ==> packet.header is Some
            && packet.header->0.to_peer_id == my_node_id,
        packet_action(my_node_id, relay_data, packet) matches PacketAction::Forward {
            to_peer_id,
            ..
        } ==> to_peer_id == packet.header->0.to_peer_id,
{
}

} // verus!
