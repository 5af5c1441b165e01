//! How procedure calls travel inside a foreign network.
use crate::entry::ForeignNetworkEntry;
use crate::error::{Error, ErrorView};
use crate::identity::PeerId;
use vstd::prelude::*;

verus! {

/// The transport of the procedure calls that this node makes in a network.
pub struct RpcTransport {
    pub my_peer_id: PeerId,
}

/// A message that has to be handed to a peer over its own connection.
pub struct DirectMessage<M> {
    pub msg: M,
    pub to: PeerId,
}

impl ForeignNetworkEntry {
    /// The transport for a node that is the peer `my_peer_id` in the network.
    pub fn build_rpc_tspt(my_peer_id: PeerId) -> (transport: RpcTransport)
        ensures
            transport.my_peer_id == my_peer_id,
    {
        RpcTransport { my_peer_id }
    }
}

impl RpcTransport {
    /// The peer that this node is.
    pub fn my_peer_id(&self) -> (id: PeerId)
        ensures
            id == self.my_peer_id,
    {
        self.my_peer_id
    }

    /// Whatever its destination, a call is handed to this node itself, whose
    /// forwarding then takes it on; once the peer map is gone, it fails.
    pub fn send<M>(&self, msg: M, dst_peer_id: PeerId, peer_map_is_gone: bool) -> (sent: Result<
        DirectMessage<M>,
        Error,
    >)
        ensures
            !peer_map_is_gone ==> sent == Ok::<DirectMessage<M>, Error>(
                DirectMessage { msg, to: self.my_peer_id },
            ),
            peer_map_is_gone ==> sent is Err && sent->Err_0@ == ErrorView::Anyhow(
                "peer map is gone"@,
            ),
    {
        if peer_map_is_gone {
            Err(Error::Anyhow("peer map is gone".to_owned()))
        } else {
            Ok(DirectMessage { msg, to: self.my_peer_id })
        }
    }

    /// What came in, or an unknown failure once nothing will come in any more.
    pub fn recv<M>(&self, incoming: Option<M>) -> (received: Result<M, Error>)
        ensures
            received == match incoming {
                Some(msg) => Ok::<M, Error>(msg),
                None => Err::<M, Error>(Error::Unknown),
            },
    {
        match incoming {
            Some(msg) => Ok(msg),
            None => Err(Error::Unknown),
        }
    }
}

} // verus!
