//! The manager of the foreign networks.
use crate::admission::{Admission, ConnRequest, Entered, Step};
use crate::conversation::Conversation;
use crate::data::{DataView, ForeignNetworkManagerData};
use crate::error::{Error, ErrorView};
use crate::identity::{PeerId, PeerMapId};
use crate::listing::{names_view, Listing};
use crate::packet::NextHopPolicy;
use crate::tables::clock;
use std::time::SystemTime;
use vstd::prelude::*;

verus! {

/// The number of the service that foreign networks are served by.
pub const FOREIGN_NETWORK_SERVICE_ID: u32 = 1;

/// Lets connections into foreign networks and remembers them.
pub struct ForeignNetworkManager {
    pub my_peer_id: PeerId,
    /// Whether there is a database that keeps permissions.
    pub has_pool: bool,
    pub data: ForeignNetworkManagerData,
}

/// A message that has to be sent to a peer by the peers of a peer map.
pub struct PeerMessage<M> {
    pub peer_map: PeerMapId,
    pub msg: M,
    pub dst_peer_id: PeerId,
    pub policy: NextHopPolicy,
}

impl ForeignNetworkManager {
    /// The memory is well-formed, and in every network that is served this node is
    /// the peer that it says it is.
    pub open spec fn wf(self) -> bool {
        &&& self.data@.wf()
        &&& forall|name: Seq<char>| #[trigger]
            self.data@.entries.contains_key(name) ==> self.data@.entries[name].my_peer_id
                == self.my_peer_id
    }

    /// A manager that serves no network yet.
    pub fn new(my_peer_id: PeerId, has_pool: bool) -> (manager: Self)
        ensures
            manager.my_peer_id == my_peer_id,
            manager.has_pool == has_pool,
            manager.data@ == DataView::nothing(),
            manager.wf(),
    {
        ForeignNetworkManager { my_peer_id, has_pool, data: ForeignNetworkManagerData::new() }
    }

    /// Begins the conversation about a connection that asks to be let in; it goes on
    /// by [`Self::answer`].
    pub fn add_peer_conn(&self, request: ConnRequest) -> (conversation: Conversation)
        ensures
            conversation@.step == request@.first_step(self.has_pool),
            conversation@.request == request@,
            conversation@.has_pool == self.has_pool,
            conversation@.in_order(),
    {
        Conversation::begin(request, self.has_pool)
    }

    /// Gives a connection the record of its network, made anew if the network is
    /// not served yet, and remembers the peer.
    pub(crate) fn enter(&mut self, admission: Admission) -> (step: Step)
        ensures
            exists|now: SystemTime|
                final(self).data@ == #[trigger] old(self).data@.joined(
                    admission@.fresh_entry(old(self).my_peer_id),
                    admission@.peer_id,
                    now,
                ) && call_ensures(clock, (), now),
            step@ == old(self).data@.entering(admission@, old(self).my_peer_id).after_entering(),
            final(self).my_peer_id == old(self).my_peer_id,
            final(self).has_pool == old(self).has_pool,
            old(self).wf() ==> final(self).wf(),
    {
        let (entry, new_added) = self.data.get_or_insert_entry(
            &admission.network,
            self.my_peer_id,
            admission.peer_id,
            admission.relay_data,
            admission.ip_range.clone(),
            admission.peer_map,
        );
        proof {
            let fresh = admission@.fresh_entry(old(self).my_peer_id);
            let now = choose|now: SystemTime|
                self.data@ == #[trigger] old(self).data@.joined(fresh, admission@.peer_id, now)
                    && call_ensures(clock, (), now);
            assert(self.data@ == old(self).data@.joined(fresh, admission@.peer_id, now));
        }
        admission.on_entry(entry, new_added)
    }

    /// Lets the connection in if its network is served under the identity that it
    /// shows. If it is not, though the record is new, the network is forgotten.
    pub(crate) fn confirm(&mut self, entered: Entered, same: bool) -> (step: Step)
        ensures
            step@ == entered@.after_comparing(same),
            final(self).data@ == old(self).data@.compared(entered@, same),
            final(self).my_peer_id == old(self).my_peer_id,
            final(self).has_pool == old(self).has_pool,
            old(self).wf() ==> final(self).wf(),
    {
        if entered.new_added && !same {
            self.data.remove_network(&entered.entry.network.network_name);
        }
        entered.on_identity_compared(same)
    }

    /// A list of the foreign networks, to be put together network by network.
    pub fn list_foreign_networks<C>(&self) -> (listing: Listing<C>)
        ensures
            names_view(listing.pending@).no_duplicates(),
            names_view(listing.pending@).to_set() == self.data@.entries.dom(),
            listing.response.foreign_networks@.is_empty(),
    {
        Listing::start(&self.data)
    }

    /// When something last changed in the network.
    pub fn get_foreign_network_last_update(&self, network_name: &str) -> (time: Option<SystemTime>)
        ensures
            time is Some <==> self.data@.times.contains_key(network_name@),
            time is Some ==> time->0 == self.data@.times[network_name@],
    {
        self.data.get_last_update(network_name)
    }

    /// Where a message to a peer of a foreign network has to go: to the network's
    /// peer map, by the way with the fewest hops. It fails if and only if the
    /// network is not served.
    pub fn send_msg_to_peer<M>(&self, network_name: &str, dst_peer_id: PeerId, msg: M) -> (sent:
        Result<PeerMessage<M>, Error>)
        ensures
            self.data@.entries.contains_key(network_name@) ==> sent == Ok::<PeerMessage<M>, Error>(
                PeerMessage {
                    peer_map: self.data@.entries[network_name@].peer_map,
                    msg,
                    dst_peer_id,
                    policy: NextHopPolicy::LeastHop,
                },
            ),
            !self.data@.entries.contains_key(network_name@) ==> sent is Err && sent->Err_0@
                == ErrorView::RouteError(Some("network not found"@)),
    {
        match self.data.get_network_entry(network_name) {
            Some(entry) => Ok(
                PeerMessage {
                    peer_map: entry.peer_map,
                    msg,
                    dst_peer_id,
                    policy: NextHopPolicy::LeastHop,
                },
            ),
            None => Err(Error::RouteError(Some("network not found".to_owned()))),
        }
    }

    /// Forgets the networks and the peers; the times of the last changes stay.
    pub fn close_down(&mut self)
        ensures
            final(self).data@ == old(self).data@.closed_down(),
            final(self).my_peer_id == old(self).my_peer_id,
            final(self).has_pool == old(self).has_pool,
            final(self).wf(),
    {
        self.data.close_down()
    }
}

} // verus!
