//! The record that is kept of each foreign network.
use crate::identity::{IdentityView, NetworkIdentity, PeerId, PeerMapId};
use vstd::prelude::*;

verus! {

/// A foreign network that this node serves.
#[derive(Debug)]
pub struct ForeignNetworkEntry {
    /// The peer that this node is in that network.
    pub my_peer_id: PeerId,
    /// The identity that the network's first peer showed.
    pub network: NetworkIdentity,
    /// Where the network's peers and their connections are kept.
    pub peer_map: PeerMapId,
    /// Whether data packets are relayed, or only the network's own signalling.
    pub relay_data: bool,
    /// The addresses that the network hands out.
    pub ip_range: String,
}

/// The model of a [`ForeignNetworkEntry`].
#[verifier::ext_equal]
pub struct EntryView {
    pub my_peer_id: PeerId,
    pub network: IdentityView,
    pub peer_map: PeerMapId,
    pub relay_data: bool,
    pub ip_range: Seq<char>,
}

impl View for ForeignNetworkEntry {
    type V = EntryView;

    open spec fn view(&self) -> EntryView {
        EntryView {
            my_peer_id: self.my_peer_id,
            network: self.network@,
            peer_map: self.peer_map,
            relay_data: self.relay_data,
            ip_range: self.ip_range@,
        }
    }
}

/// The record of a network that is served for the first time.
pub open spec fn fresh_entry(
    network: IdentityView,
    my_peer_id: PeerId,
    relay_data: bool,
    ip_range: Seq<char>,
    peer_map: PeerMapId,
) -> EntryView {
    EntryView { my_peer_id, network, peer_map, relay_data, ip_range }
}

impl ForeignNetworkEntry {
    /// The record of a network that is served for the first time.
    pub fn new(
        network: NetworkIdentity,
        my_peer_id: PeerId,
        relay_data: bool,
        ip_range: String,
        peer_map: PeerMapId,
    ) -> (entry: Self)
        ensures
            entry@ == fresh_entry(network@, my_peer_id, relay_data, ip_range@, peer_map),
    {
        ForeignNetworkEntry { my_peer_id, network, peer_map, relay_data, ip_range }
    }

    /// The domain under which the network's procedures are registered while the
    /// record lives, and from which they are unregistered when it goes.
    pub fn rpc_domain(&self) -> (domain: &str)
        ensures
            domain@ == self@.network.network_name,
    {
        self.network.network_name.as_str()
    }

    /// Whether the network's peer map is among those that hold no peer.
    pub fn has_idle_peer_map(&self, idle: &Vec<PeerMapId>) -> (found: bool)
        ensures
            found == idle@.contains(self@.peer_map),
    {
        let mut i: usize = 0;
        while i < idle.len()
            invariant
                i <= idle.len(),
                forall|j: int| 0 <= j < i ==> idle@[j] != self.peer_map,
            decreases idle.len() - i,
        {
            if idle[i] == self.peer_map {
                return true;
            }
            i += 1;
        }
        false
    }
}

} // verus!
