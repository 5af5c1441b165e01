//! Which peers of a foreign network the routing sees as neighbours.
use crate::entry::ForeignNetworkEntry;
use crate::identity::{NetworkIdentity, PeerId};
use vstd::prelude::*;

verus! {

/// Knows which peers of a network other nodes of this network serve.
pub trait GlobalForeignNetworkAccessor: Send + Sync + 'static {
    fn list_global_foreign_peer(&self, network_identity: &NetworkIdentity) -> Vec<PeerId>;
}

/// What the routing of a foreign network asks of this node.
pub struct RouteInterface<A> {
    pub my_peer_id: PeerId,
    pub network_identity: NetworkIdentity,
    pub accessor: A,
}

/// What a network's routing is opened with.
pub struct RouteSetup<A> {
    pub ip_range: String,
    pub interface: RouteInterface<A>,
}

/// The peers besides this node.
pub open spec fn others(my_peer_id: PeerId) -> spec_fn(PeerId) -> bool {
    |peer_id: PeerId| peer_id != my_peer_id
}

/// The peers served elsewhere and then those connected here, without this node.
pub open spec fn neighbours(
    my_peer_id: PeerId,
    global: Seq<PeerId>,
    local: Seq<PeerId>,
) -> Seq<PeerId> {
    (global + local).filter(others(my_peer_id))
}

/// Puts [`neighbours`] together.
pub fn merge_neighbours(
    my_peer_id: PeerId,
    global: &Vec<PeerId>,
    local: &Vec<PeerId>,
) -> (peers: Vec<PeerId>)
    ensures
        peers@ == neighbours(my_peer_id, global@, local@),
{
    let mut peers: Vec<PeerId> = Vec::new();
    let ghost all = global@ + local@;
    let ghost keep = others(my_peer_id);
    let mut i: usize = 0;
    proof {
        assert(all.take(0) =~= Seq::empty());
        reveal_with_fuel(Seq::filter, 1);
    }
    while i < global.len()
        invariant
            i <= global.len(),
            all == global@ + local@,
            keep == others(my_peer_id),
            peers@ == all.take(i as int).filter(keep),
        decreases global.len() - i,
    {
        proof {
            lemma_filter_next(all, keep, i as int);
        }
        if global[i] != my_peer_id {
            peers.push(global[i]);
        }
        i += 1;
    }
    let mut j: usize = 0;
    while j < local.len()
        invariant
            j <= local.len(),
            all == global@ + local@,
            keep == others(my_peer_id),
            peers@ == all.take(global@.len() + j).filter(keep),
        decreases local.len() - j,
    {
        proof {
            lemma_filter_next(all, keep, global@.len() + j);
        }
        if local[j] != my_peer_id {
            peers.push(local[j]);
        }
        j += 1;
    }
    assert(all.take(all.len() as int) =~= all);
    peers
}

/// One more element extends what a filter keeps, or leaves it as it is.
proof fn lemma_filter_next(all: Seq<PeerId>, keep: spec_fn(PeerId) -> bool, i: int)
    requires
        0 <= i < all.len(),
    ensures
        all.take(i + 1).filter(keep) == if keep(all[i]) {
            all.take(i).filter(keep).push(all[i])
        } else {
            all.take(i).filter(keep)
        },
{
    reveal_with_fuel(Seq::filter, 1);
    assert(all.take(i + 1).drop_last() =~= all.take(i));
}

impl ForeignNetworkEntry {
    /// What the network's routing is opened with, for the peer `my_peer_id`.
    pub fn prepare_route<A>(&self, my_peer_id: PeerId, accessor: A) -> (setup: RouteSetup<A>)
        ensures
            setup.ip_range@ == self@.ip_range,
            setup.interface.my_peer_id == my_peer_id,
            setup.interface.network_identity@ == self@.network,
            setup.interface.accessor == accessor,
    {
        RouteSetup {
            ip_range: self.ip_range.clone(),
            interface: RouteInterface {
                my_peer_id,
                network_identity: self.network.clone(),
                accessor,
            },
        }
    }
}

impl<A: GlobalForeignNetworkAccessor> RouteInterface<A> {
    /// The peers that the routing may take for neighbours; `local` are those with
    /// a connection here, and none once the peer map is gone, when there are no
    /// neighbours at all.
    pub fn list_peers(&self, local: &Option<Vec<PeerId>>) -> (peers: Vec<PeerId>)
        ensures
            match local {
                None => peers@.len() == 0,
                Some(local) => exists|global: Vec<PeerId>|
                    #![trigger neighbours(self.my_peer_id, global@, local@)]
                    {
                        &&& call_ensures(
                            A::list_global_foreign_peer,
                            (&self.accessor, &self.network_identity),
                            global,
                        )
                        &&& peers@ == neighbours(self.my_peer_id, global@, local@)
                    },
            },
    {
        match local {
            None => Vec::new(),
            Some(local) => {
                let global = self.accessor.list_global_foreign_peer(&self.network_identity);
                merge_neighbours(self.my_peer_id, &global, local)
            },
        }
    }

    /// The peer that this node is.
    pub fn my_peer_id(&self) -> (id: PeerId)
        ensures
            id == self.my_peer_id,
    {
        self.my_peer_id
    }
}

/// A node is never its own neighbour, and every other peer that is served
/// elsewhere or connected here is one.
pub proof fn law_neighbours_are_the_others(
    my_peer_id: PeerId,
    global: Seq<PeerId>,
    local: Seq<PeerId>,
    peer_id: PeerId,
)
    ensures
        neighbours(my_peer_id, global, local).contains(peer_id) <==> {
            &&& peer_id != my_peer_id
            &&& global.contains(peer_id) || local.contains(peer_id)
        },
{
    let all = global + local;
    let keep = others(my_peer_id);
    if neighbours(my_peer_id, global, local).contains(peer_id) {
        all.lemma_filter_contains_rev(keep, peer_id);
        let i = all.filter(keep).index_of(peer_id);
        all.lemma_filter_pred(keep, i);
        let k = all.index_of(peer_id);
        if k < global.len() {
            assert(global[k] == peer_id);
        } else {
            assert(local[k - global.len()] == peer_id);
        }
    } else if peer_id != my_peer_id {
        if global.contains(peer_id) {
            let k = global.index_of(peer_id);
            assert(all[k] == peer_id);
            all.lemma_filter_contains(keep, k);
        }
        if local.contains(peer_id) {
            let k = global.len() + local.index_of(peer_id);
            assert(all[k] == peer_id);
            all.lemma_filter_contains(keep, k);
        }
    }
}

} // verus!
