//! The face that this node shows to the peers of a foreign network.
use crate::entry::ForeignNetworkEntry;
use crate::identity::{IdentityView, NetworkIdentity};
use crate::packet::PacketForwarder;
use crate::rpc::RpcTransport;
use vstd::prelude::*;

verus! {

/// What a node says that it can do; `others` are the flags besides this one.
pub struct FeatureFlags<F> {
    pub is_public_server: bool,
    pub others: F,
}

/// How a node's address is translated.
#[derive(Debug, Clone, Copy, PartialEq, Eq, Structural)]
pub enum NatType {
    Unknown,
    Known(i32),
}

/// What a node shows of itself in its own network.
pub struct HostContext<F, L> {
    pub hostname: String,
    pub feature_flags: FeatureFlags<F>,
    pub running_listeners: Vec<L>,
}

/// What a node shows of itself in a foreign network.
pub struct ForeignContext<F, L> {
    pub network: NetworkIdentity,
    pub hostname: String,
    pub udp_nat_type: NatType,
    pub feature_flags: FeatureFlags<F>,
    pub running_listeners: Vec<L>,
}

/// What a network is served with, besides its peer map.
pub struct EntrySetup<F, L> {
    pub context: ForeignContext<F, L>,
    /// The transport of the procedure calls that the node makes in the network.
    pub transport: RpcTransport,
    /// The domain under which the node's procedures are registered.
    pub rpc_domain: String,
    pub forwarder: PacketForwarder,
}

/// The name under which a node with the given name serves foreign networks.
pub open spec fn public_hostname(hostname: Seq<char>) -> Seq<char> {
    "PublicServer_"@ + hostname
}

impl<F, L> ForeignContext<F, L> {
    /// The context bears the network's identity and the node's own name as that
    /// of a public server, it hides how the node's address is translated, and it
    /// has the node's own listeners and flags, but for the one that marks a public
    /// server, which is set.
    pub open spec fn shows(self, network: IdentityView, host: HostContext<F, L>) -> bool {
        &&& self.network@ == network
        &&& self.hostname@ == public_hostname(host.hostname@)
        &&& self.udp_nat_type == NatType::Unknown
        &&& self.feature_flags.is_public_server
        &&& self.feature_flags.others == host.feature_flags.others
        &&& self.running_listeners == host.running_listeners
    }
}

impl ForeignNetworkEntry {
    /// The context in which a node serves the network.
    pub fn build_foreign_global_ctx<F, L>(
        network: &NetworkIdentity,
        host: HostContext<F, L>,
    ) -> (context: ForeignContext<F, L>)
        ensures
            context.shows(network@, host),
    {
        let mut hostname = "PublicServer_".to_owned();
        hostname.append(host.hostname.as_str());
        ForeignContext {
            network: network.clone(),
            hostname,
            udp_nat_type: NatType::Unknown,
            feature_flags: FeatureFlags {
                is_public_server: true,
                others: host.feature_flags.others,
            },
            running_listeners: host.running_listeners,
        }
    }

    /// What the network is served with by the given node.
    pub fn set_up<F, L>(&self, host: HostContext<F, L>) -> (setup: EntrySetup<F, L>)
        ensures
            setup.context.shows(self@.network, host),
            setup.transport.my_peer_id == self@.my_peer_id,
            setup.rpc_domain@ == self@.network.network_name,
            setup.forwarder.forwards_for(self@),
            setup.forwarder.traffic == 0,
    {
        EntrySetup {
            context: Self::build_foreign_global_ctx(&self.network, host),
            transport: Self::build_rpc_tspt(self.my_peer_id),
            rpc_domain: self.rpc_domain().to_owned(),
            forwarder: self.start_packet_recv(),
        }
    }
}

} // verus!
