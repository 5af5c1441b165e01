//! What is promised of identities and records, and of what networks are served
//! and listed with.
use crate::context::{EntrySetup, ForeignContext, HostContext};
use crate::entry::{fresh_entry, ForeignNetworkEntry};
use crate::error::{db_error, Error};
use crate::identity::{
    digest_eq, IdentityView, NetworkIdentity, NetworkSecretDigest, PeerId, PeerMapId,
};
use crate::listing::ForeignNetworkEntryPb;
use crate::route::{merge_neighbours, neighbours, others, RouteSetup};
use crate::tables::names_differ;
use vstd::prelude::*;

verus! {

/// The digest of an identity that has one is that digest, byte for byte; of an
/// identity that has none it is 32 zero bytes.
pub proof fn law_digest_is_the_shown_one(
    identity: NetworkIdentity,
    digest: NetworkSecretDigest,
    i: int,
)
    requires
        call_ensures(NetworkIdentity::digest_or_default, (&identity,), digest),
        0 <= i < 32,
    ensures
        identity.network_secret_digest matches Some(shown) ==> digest@[i] == shown@[i],
        identity.network_secret_digest is None ==> digest@[i] == 0,
{
}

/// The same of the model.
pub proof fn law_digest_of_the_model(identity: IdentityView, i: int)
    ensures
        identity.network_secret_digest matches Some(shown) ==> identity.digest_or_zero() == shown,
        identity.network_secret_digest is None ==> {
            &&& identity.digest_or_zero().len() == 32
            &&& 0 <= i < 32 ==> identity.digest_or_zero()[i] == 0
        },
{
}

/// Two digests are the same if and only if they agree at every byte.
pub proof fn law_digests_are_compared_byte_by_byte(
    a: NetworkSecretDigest,
    b: NetworkSecretDigest,
    same: bool,
)
    requires
        call_ensures(digest_eq, (&a, &b), same),
    ensures
        same <==> forall|i: int| 0 <= i < 32 ==> #[trigger] a@[i] == b@[i],
{
    if forall|i: int| 0 <= i < 32 ==> #[trigger] a@[i] == b@[i] {
        assert(a@ =~= b@);
    }
}

/// Two identities are the same if and only if their names are, and both have the
/// same digest or none has one.
pub proof fn law_identities_are_compared_by_name_and_digest(
    a: NetworkIdentity,
    b: NetworkIdentity,
    same: bool,
)
    requires
        call_ensures(<NetworkIdentity as PartialEq>::eq, (&a, &b), same),
    ensures
        same <==> {
            &&& a.network_name@ == b.network_name@
            &&& a.network_secret_digest is Some <==> b.network_secret_digest is Some
            &&& a.network_secret_digest is Some ==> a.network_secret_digest->0@
                == b.network_secret_digest->0@
        },
{
}

/// Two names differ if and only if they are not the same text.
pub proof fn law_names_differ_by_their_text(a: String, b: String, differ: bool)
    requires
        call_ensures(names_differ, (&a, &b), differ),
    ensures
        differ <==> a@ != b@,
{
}

/// A refusal by the database bears the text that it is made with.
pub proof fn law_refusal_bears_its_text(text: &str, error: Error)
    requires
        call_ensures(db_error, (text,), error),
    ensures
        error is DbError,
        error->DbError_0@ == text@,
{
}

/// The copy of an identity has its name and its digest.
pub proof fn law_copy_is_the_same_identity(identity: NetworkIdentity, copy: NetworkIdentity)
    requires
        call_ensures(<NetworkIdentity as Clone>::clone, (&identity,), copy),
    ensures
        copy.network_name@ == identity.network_name@,
        copy.network_secret_digest is Some <==> identity.network_secret_digest is Some,
        identity.network_secret_digest is Some ==> copy.network_secret_digest->0@
            == identity.network_secret_digest->0@,
{
    assert(copy@ == identity@);
}

/// A new record is made of what is given for it.
pub proof fn law_new_record_is_made_of_its_parts(
    network: NetworkIdentity,
    my_peer_id: PeerId,
    relay_data: bool,
    ip_range: String,
    peer_map: PeerMapId,
    entry: ForeignNetworkEntry,
)
    requires
        call_ensures(
            ForeignNetworkEntry::new,
            (network, my_peer_id, relay_data, ip_range, peer_map),
            entry,
        ),
    ensures
        entry.network@ == network@,
        entry.my_peer_id == my_peer_id,
        entry.relay_data == relay_data,
        entry.ip_range@ == ip_range@,
        entry.peer_map == peer_map,
{
}

/// The same of the model.
pub proof fn law_fresh_record_has_its_parts(
    network: IdentityView,
    my_peer_id: PeerId,
    relay_data: bool,
    ip_range: Seq<char>,
    peer_map: PeerMapId,
)
    ensures
        ({
            let entry = fresh_entry(network, my_peer_id, relay_data, ip_range, peer_map);
            &&& entry.network == network
            &&& entry.my_peer_id == my_peer_id
            &&& entry.relay_data == relay_data
            &&& entry.ip_range == ip_range
            &&& entry.peer_map == peer_map
        }),
{
}

/// Procedures are registered under the network's own name.
pub proof fn law_rpc_domain_is_the_name(entry: ForeignNetworkEntry, domain: &str)
    requires
        call_ensures(ForeignNetworkEntry::rpc_domain, (&entry,), domain),
    ensures
        domain@ == entry.network.network_name@,
{
}

/// A record's peer map is idle if and only if it is somewhere among the idle ones.
pub proof fn law_idle_peer_map_is_among_the_idle(
    entry: ForeignNetworkEntry,
    idle: Vec<PeerMapId>,
    found: bool,
)
    requires
        call_ensures(ForeignNetworkEntry::has_idle_peer_map, (&entry, &idle), found),
    ensures
        found <==> exists|i: int| 0 <= i < idle@.len() && #[trigger] idle@[i] == entry.peer_map,
{
}

/// In a foreign network a node shows the network's identity, its own name behind
/// `PublicServer_`, no way in which its address is translated, its own listeners,
/// and its own flags, except that it is always a public server.
pub proof fn law_node_is_shown_as_a_public_server<F, L>(
    network: NetworkIdentity,
    host: HostContext<F, L>,
    context: ForeignContext<F, L>,
)
    requires
        call_ensures(
            ForeignNetworkEntry::build_foreign_global_ctx::<F, L>,
            (&network, host),
            context,
        ),
    ensures
        context.network@ == network@,
        context.hostname@ == "PublicServer_"@ + host.hostname@,
        context.udp_nat_type is Unknown,
        context.feature_flags.is_public_server,
        context.feature_flags.others == host.feature_flags.others,
        context.running_listeners@ == host.running_listeners@,
{
}

/// A network is served under its own name and identity, by the peer that its record
/// says this node is, with its data relayed or not as its record says.
pub proof fn law_network_is_served_as_its_record_says<F, L>(
    entry: ForeignNetworkEntry,
    host: HostContext<F, L>,
    setup: EntrySetup<F, L>,
)
    requires
        call_ensures(ForeignNetworkEntry::set_up::<F, L>, (&entry, host), setup),
    ensures
        setup.context.network@ == entry.network@,
        setup.context.hostname@ == "PublicServer_"@ + host.hostname@,
        setup.context.udp_nat_type is Unknown,
        setup.context.feature_flags.is_public_server,
        setup.context.feature_flags.others == host.feature_flags.others,
        setup.context.running_listeners@ == host.running_listeners@,
        setup.transport.my_peer_id == entry.my_peer_id,
        setup.rpc_domain@ == entry.network.network_name@,
        setup.forwarder.my_node_id == entry.my_peer_id,
        setup.forwarder.relay_data == entry.relay_data,
        setup.forwarder.network_name@ == entry.network.network_name@,
        setup.forwarder.traffic == 0,
{
}

/// A network's routing is opened with the addresses and the identity of its
/// record, and with the given peer and accessor.
pub proof fn law_routing_follows_the_record<A>(
    entry: ForeignNetworkEntry,
    my_peer_id: PeerId,
    accessor: A,
    setup: RouteSetup<A>,
)
    requires
        call_ensures(ForeignNetworkEntry::prepare_route::<A>, (&entry, my_peer_id, accessor), setup),
    ensures
        setup.ip_range@ == entry.ip_range@,
        setup.interface.my_peer_id == my_peer_id,
        setup.interface.network_identity@ == entry.network@,
        setup.interface.accessor == accessor,
{
}

/// The neighbours are the peers served elsewhere and then those connected here, in
/// their order and as often as they occur, without this node.
pub proof fn law_neighbours_keep_their_order(
    my_peer_id: PeerId,
    global: Vec<PeerId>,
    local: Vec<PeerId>,
    peers: Vec<PeerId>,
)
    requires
        call_ensures(merge_neighbours, (my_peer_id, &global, &local), peers),
    ensures
        peers@ == (global@ + local@).filter(|peer_id: PeerId| peer_id != my_peer_id),
{
    assert(others(my_peer_id) =~= (|peer_id: PeerId| peer_id != my_peer_id));
}

/// Without any peers there are no neighbours. One more peer at the end is one more
/// neighbour at the end, unless it is this node itself. What is served elsewhere
/// comes before what is connected here.
pub proof fn law_each_other_peer_is_one_more_neighbour(
    my_peer_id: PeerId,
    global: Seq<PeerId>,
    local: Seq<PeerId>,
    peer_id: PeerId,
)
    ensures
        neighbours(my_peer_id, Seq::empty(), Seq::empty()) == Seq::<PeerId>::empty(),
        neighbours(my_peer_id, global, local.push(peer_id)) == if peer_id == my_peer_id {
            neighbours(my_peer_id, global, local)
        } else {
            neighbours(my_peer_id, global, local).push(peer_id)
        },
        neighbours(my_peer_id, global, local) == neighbours(my_peer_id, global + local, Seq::empty()),
{
    reveal_with_fuel(Seq::filter, 1);
    assert((global + local.push(peer_id)).drop_last() =~= global + local);
    assert((global + local) + Seq::<PeerId>::empty() =~= global + local);
    assert((global + local.push(peer_id)).last() == peer_id);
}

/// A network is listed with its digest, byte for byte, or with 32 zero bytes where
/// it has none, and at first without peers.
pub proof fn law_network_is_listed_with_its_digest<C>(
    entry: ForeignNetworkEntry,
    listed: ForeignNetworkEntryPb<C>,
    i: int,
)
    requires
        call_ensures(ForeignNetworkEntryPb::<C>::for_entry, (&entry,), listed),
        0 <= i < 32,
    ensures
        listed.network_secret_digest@.len() == 32,
        entry.network.network_secret_digest matches Some(shown) ==> listed.network_secret_digest@[i]
            == shown@[i],
        entry.network.network_secret_digest is None ==> listed.network_secret_digest@[i] == 0,
        listed.peers@.len() == 0,
{
}

} // verus!
