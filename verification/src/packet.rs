//! Where the packets of a foreign network go.
use crate::entry::{EntryView, ForeignNetworkEntry};
use crate::identity::PeerId;
use vstd::prelude::*;

verus! {

/// What a packet carries, as far as forwarding tells packets apart.
#[derive(Debug, Clone, Copy, PartialEq, Eq, Structural)]
pub enum PacketType {
    Data,
    TaRpc,
    RpcReq,
    RpcResp,
    ForeignNetworkPacket,
    Other(u8),
}

/// What forwarding reads of a packet's header.
#[derive(Debug, Clone, Copy, PartialEq, Eq, Structural)]
pub struct PeerManagerHeader {
    pub to_peer_id: PeerId,
    pub packet_type: PacketType,
}

/// What forwarding reads of a packet.
#[derive(Debug, Clone, Copy, PartialEq, Eq, Structural)]
pub struct PacketInfo {
    /// None in a packet that is not valid.
    pub header: Option<PeerManagerHeader>,
    pub payload_len: usize,
}

/// By what the way to a destination is chosen.
#[derive(Debug, Clone, Copy, PartialEq, Eq, Structural)]
pub enum NextHopPolicy {
    LeastHop,
    LeastCost,
}

/// What becomes of a packet that came in.
#[derive(Debug, Clone, Copy, PartialEq, Eq, Structural)]
pub enum PacketAction {
    /// It is not valid.
    Skip,
    /// It goes to the node's own procedures.
    DeliverRpc,
    /// It is for this node, but is no procedure call.
    Ignore,
    /// It carries data, which is not relayed for the network.
    Drop,
    /// It goes on to its destination.
    Forward { to_peer_id: PeerId, policy: NextHopPolicy },
}

/// The next peer on the way to a destination.
#[derive(Debug, Clone, Copy, PartialEq, Eq, Structural)]
pub struct Gateway {
    pub peer_id: PeerId,
    /// Whether that peer is in the network's own peer map.
    pub connected: bool,
}

/// How a packet is sent on.
pub enum ForwardAction {
    /// Over the connection of a peer of the foreign network.
    SendDirectly { to_peer_id: PeerId },
    /// Wrapped for the foreign network, and sent through the node's own network.
    SendWrapped(WrappedPacket),
}

/// The headers of a packet that is wrapped for a foreign network.
pub struct WrappedPacket {
    pub network_name: String,
    /// The destination inside the foreign network.
    pub dst_peer_id: PeerId,
    pub from_peer_id: PeerId,
    pub to_peer_id: PeerId,
    pub packet_type: PacketType,
}

/// The model of a [`ForwardAction`].
#[verifier::ext_equal]
pub enum ForwardView {
    SendDirectly { to_peer_id: PeerId },
    SendWrapped {
        network_name: Seq<char>,
        dst_peer_id: PeerId,
        from_peer_id: PeerId,
        to_peer_id: PeerId,
        packet_type: PacketType,
    },
}

impl View for ForwardAction {
    type V = ForwardView;

    open spec fn view(&self) -> ForwardView {
        match self {
            ForwardAction::SendDirectly { to_peer_id } => ForwardView::SendDirectly {
                to_peer_id: *to_peer_id,
            },
            ForwardAction::SendWrapped(packet) => ForwardView::SendWrapped {
                network_name: packet.network_name@,
                dst_peer_id: packet.dst_peer_id,
                from_peer_id: packet.from_peer_id,
                to_peer_id: packet.to_peer_id,
                packet_type: packet.packet_type,
            },
        }
    }
}

/// Forwards the packets of one foreign network, and counts what they carry.
pub struct PacketForwarder {
    pub my_node_id: PeerId,
    pub relay_data: bool,
    pub network_name: String,
    /// The payload of all valid packets so far, in bytes.
    pub traffic: u64,
}

/// The packet is part of a procedure call.
pub open spec fn is_rpc(packet_type: PacketType) -> bool {
    packet_type == PacketType::TaRpc || packet_type == PacketType::RpcReq || packet_type
        == PacketType::RpcResp
}

/// What becomes of a packet, for the node `my_node_id`.
pub open spec fn packet_action(
    my_node_id: PeerId,
    relay_data: bool,
    packet: PacketInfo,
) -> PacketAction {
    match packet.header {
        None => PacketAction::Skip,
        Some(header) => if header.to_peer_id == my_node_id {
            if is_rpc(header.packet_type) {
                PacketAction::DeliverRpc
            } else {
                PacketAction::Ignore
            }
        } else if !relay_data && header.packet_type == PacketType::Data {
            PacketAction::Drop
        } else {
            PacketAction::Forward {
                to_peer_id: header.to_peer_id,
                policy: NextHopPolicy::LeastHop,
            }
        },
    }
}

/// What a packet adds to the traffic of its network.
pub open spec fn counted(packet: PacketInfo) -> nat {
    if packet.header is Some {
        packet.payload_len as nat
    } else {
        0
    }
}

/// What a sequence of packets adds to the traffic of their network.
pub open spec fn counted_all(packets: Seq<PacketInfo>) -> nat
    decreases packets.len(),
{
    if packets.len() == 0 {
        0
    } else {
        counted_all(packets.drop_last()) + counted(packets.last())
    }
}

/// How a packet goes on to `to_peer_id`.
pub open spec fn forward_action(
    my_node_id: PeerId,
    network_name: Seq<char>,
    to_peer_id: PeerId,
    gateway: Option<Gateway>,
) -> ForwardView {
    match gateway {
        Some(Gateway { peer_id, connected: true }) => ForwardView::SendDirectly {
            to_peer_id: peer_id,
        },
        _ => ForwardView::SendWrapped {
            network_name,
            dst_peer_id: to_peer_id,
            from_peer_id: my_node_id,
            to_peer_id: match gateway {
                Some(gateway) => gateway.peer_id,
                None => to_peer_id,
            },
            packet_type: PacketType::ForeignNetworkPacket,
        },
    }
}

impl ForeignNetworkEntry {
    /// The forwarding of the network's packets, with no traffic so far.
    pub fn start_packet_recv(&self) -> (forwarder: PacketForwarder)
        ensures
            forwarder.forwards_for(self@),
            forwarder.traffic == 0,
    {
        PacketForwarder {
            my_node_id: self.my_peer_id,
            relay_data: self.relay_data,
            network_name: self.network.network_name.clone(),
            traffic: 0,
        }
    }
}

impl PacketForwarder {
    /// The packets of the network with the given record are forwarded.
    pub open spec fn forwards_for(self, entry: EntryView) -> bool {
        &&& self.my_node_id == entry.my_peer_id
        &&& self.relay_data == entry.relay_data
        &&& self.network_name@ == entry.network.network_name
    }

    /// Counts a packet that came in, and says what becomes of it.
    pub fn recv(&mut self, packet: PacketInfo) -> (action: PacketAction)
        requires
            old(self).traffic + counted(packet) <= u64::MAX,
        ensures
            action == packet_action(old(self).my_node_id, old(self).relay_data, packet),
            final(self).traffic == old(self).traffic + counted(packet),
            final(self).my_node_id == old(self).my_node_id,
            final(self).relay_data == old(self).relay_data,
            final(self).network_name == old(self).network_name,
    {
        match packet.header {
            None => PacketAction::Skip,
            Some(header) => {
                self.traffic = self.traffic + packet.payload_len as u64;
                if header.to_peer_id == self.my_node_id {
                    if header.packet_type == PacketType::TaRpc || header.packet_type
                        == PacketType::RpcReq || header.packet_type == PacketType::RpcResp {
                        PacketAction::DeliverRpc
                    } else {
                        PacketAction::Ignore
                    }
                } else if !self.relay_data && header.packet_type == PacketType::Data {
                    PacketAction::Drop
                } else {
                    PacketAction::Forward {
                        to_peer_id: header.to_peer_id,
                        policy: NextHopPolicy::LeastHop,
                    }
                }
            },
        }
    }

    /// How a packet goes on to its destination, where `gateway` is the next peer
    /// on the way there, if a way is known: over that peer's connection if the
    /// peer is of the same network and connected, and otherwise wrapped, to the
    /// gateway or to the destination itself.
    pub fn forward(&self, to_peer_id: PeerId, gateway: Option<Gateway>) -> (action: ForwardAction)
        ensures
            action@ == forward_action(self.my_node_id, self.network_name@, to_peer_id, gateway),
    {
        match gateway {
            Some(Gateway { peer_id, connected: true }) => ForwardAction::SendDirectly {
                to_peer_id: peer_id,
            },
            _ => ForwardAction::SendWrapped(
                WrappedPacket {
                    network_name: self.network_name.clone(),
                    dst_peer_id: to_peer_id,
                    from_peer_id: self.my_node_id,
                    to_peer_id: match gateway {
                        Some(gateway) => gateway.peer_id,
                        None => to_peer_id,
                    },
                    packet_type: PacketType::ForeignNetworkPacket,
                },
            ),
        }
    }
}

} // verus!
