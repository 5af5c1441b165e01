//! What is promised of the list of the networks, of neighbours and of procedure
//! calls, call by call.
use crate::data::ForeignNetworkManagerData;
use crate::entry::{EntryView, ForeignNetworkEntry};
use crate::error::{Error, ErrorView};
use crate::identity::PeerId;
use crate::listing::{
    names_view, next_held, ForeignNetworkEntryPb, ListForeignNetworkResponse, Listing,
};
use crate::manager::ForeignNetworkManager;
use crate::route::{others, GlobalForeignNetworkAccessor, RouteInterface};
use crate::rpc::{DirectMessage, RpcTransport};
use std::sync::Arc;
use vstd::prelude::*;

verus! {

/// A list that is started has every network with a record before it, each once, and
/// nothing in it.
pub proof fn law_started_list_has_all_networks<C>(
    data: ForeignNetworkManagerData,
    listing: Listing<C>,
    name: Seq<char>,
)
    requires
        call_ensures(Listing::<C>::start, (&data,), listing),
    ensures
        data@.entries.contains_key(name) <==> exists|i: int|
            0 <= i < listing.pending@.len() && #[trigger] listing.pending@[i]@ == name,
        forall|i: int, j: int|
            0 <= i < listing.pending@.len() && 0 <= j < listing.pending@.len()
                && #[trigger] listing.pending@[i]@ == #[trigger] listing.pending@[j]@ ==> i == j,
        !listing.response.foreign_networks@.contains_key(name),
{
    let names = names_view(listing.pending@);
    assert(names.len() == listing.pending@.len());
    assert forall|i: int| 0 <= i < names.len() implies names[i] == #[trigger] listing.pending@[i]@ by {
    }
    assert(data@.entries.contains_key(name) <==> names.to_set().contains(name));
    if data@.entries.contains_key(name) {
        let i = names.index_of(name);
        assert(listing.pending@[i]@ == name);
    }
    if exists|i: int| 0 <= i < listing.pending@.len() && #[trigger] listing.pending@[i]@ == name {
        let i = choose|i: int|
            0 <= i < listing.pending@.len() && #[trigger] listing.pending@[i]@ == name;
        assert(names[i] == name);
    }
}

/// The manager's list is begun with every network that it serves before it, each
/// once, and with nothing in it.
pub proof fn law_list_begins_with_all_networks<C>(
    manager: ForeignNetworkManager,
    listing: Listing<C>,
    name: Seq<char>,
)
    requires
        call_ensures(ForeignNetworkManager::list_foreign_networks::<C>, (&manager,), listing),
    ensures
        manager.data@.entries.contains_key(name) <==> exists|i: int|
            0 <= i < listing.pending@.len() && #[trigger] listing.pending@[i]@ == name,
        forall|i: int, j: int|
            0 <= i < listing.pending@.len() && 0 <= j < listing.pending@.len()
                && #[trigger] listing.pending@[i]@ == #[trigger] listing.pending@[j]@ ==> i == j,
        !listing.response.foreign_networks@.contains_key(name),
{
    let names = names_view(listing.pending@);
    assert(names.len() == listing.pending@.len());
    assert forall|i: int| 0 <= i < names.len() implies names[i] == #[trigger] listing.pending@[i]@ by {
    }
    assert(manager.data@.entries.contains_key(name) <==> names.to_set().contains(name));
    if manager.data@.entries.contains_key(name) {
        let i = names.index_of(name);
        assert(listing.pending@[i]@ == name);
    }
    if exists|i: int| 0 <= i < listing.pending@.len() && #[trigger] listing.pending@[i]@ == name {
        let i = choose|i: int|
            0 <= i < listing.pending@.len() && #[trigger] listing.pending@[i]@ == name;
        assert(names[i] == name);
    }
}

/// From the back, the first name with a record comes next: behind it there is none
/// with a record, and what is before it stays; and nothing comes next exactly if no
/// name has a record.
pub proof fn law_next_is_the_last_that_is_served(
    pending: Seq<Seq<char>>,
    entries: Map<Seq<char>, EntryView>,
)
    ensures
        next_held(pending, entries) is None <==> forall|i: int|
            0 <= i < pending.len() ==> !entries.contains_key(#[trigger] pending[i]),
        next_held(pending, entries) matches Some((name, rest)) ==> {
            &&& entries.contains_key(name)
            &&& rest.len() < pending.len()
            &&& rest == pending.take(rest.len() as int)
            &&& pending[rest.len() as int] == name
            &&& forall|i: int|
                rest.len() < i < pending.len() ==> !entries.contains_key(#[trigger] pending[i])
        },
    decreases pending.len(),
{
    if pending.len() > 0 {
        let front = pending.drop_last();
        law_next_is_the_last_that_is_served(front, entries);
        assert forall|i: int| 0 <= i < front.len() implies front[i] == #[trigger] pending[i] by {
        }
        if entries.contains_key(pending.last()) {
            assert(entries.contains_key(pending[pending.len() - 1]));
            assert(pending.take(front.len() as int) =~= front);
        } else if let Some((name, rest)) = next_held(front, entries) {
            assert(pending.take(rest.len() as int) =~= front.take(rest.len() as int));
            assert(entries.contains_key(pending[rest.len() as int]));
        } else {
            assert forall|i: int| 0 <= i < pending.len() implies !entries.contains_key(
                #[trigger] pending[i],
            ) by {
                if i < front.len() {
                    assert(!entries.contains_key(front[i]));
                }
            }
        }
    }
}

/// What comes next in a list is a pending name with the record that is read under
/// it. Names that are passed over have no record, and those that stay pending are
/// the ones before it.
pub proof fn law_listed_network_is_served<C>(
    listing: &mut Listing<C>,
    data: ForeignNetworkManagerData,
    item: Option<(String, Arc<ForeignNetworkEntry>)>,
)
    requires
        call_ensures(Listing::<C>::next, (listing, &data), item),
    ensures
        final(listing).response == old(listing).response,
        item is None <==> forall|i: int|
            0 <= i < old(listing).pending@.len() ==> !data@.entries.contains_key(
                #[trigger] old(listing).pending@[i]@,
            ),
        item is None ==> final(listing).pending@.len() == 0,
        item matches Some((name, entry)) ==> {
            let rest = final(listing).pending@;
            let pending = old(listing).pending@;
            &&& data@.entries.contains_key(name@)
            &&& entry@ == data@.entries[name@]
            &&& rest.len() < pending.len()
            &&& pending[rest.len() as int]@ == name@
            &&& forall|i: int|
                0 <= i < rest.len() ==> #[trigger] rest[i]@ == pending[i]@
            &&& forall|i: int|
                rest.len() < i < pending.len() ==> !data@.entries.contains_key(
                    #[trigger] pending[i]@,
                )
        },
{
    let pending = old(listing).pending@;
    let rest = final(listing).pending@;
    let names = names_view(pending);
    law_next_is_the_last_that_is_served(names, data@.entries);
    assert(names.len() == pending.len());
    assert forall|i: int| 0 <= i < pending.len() implies names[i] == #[trigger] pending[i]@ by {
    }
    if item is None {
        assert forall|i: int| 0 <= i < pending.len() implies !data@.entries.contains_key(
            #[trigger] pending[i]@,
        ) by {
            assert(!data@.entries.contains_key(names[i]));
        }
    } else {
        let k = rest.len() as int;
        assert(names_view(rest).len() == k);
        assert(names[k] == pending[k]@);
        assert(data@.entries.contains_key(pending[k]@));
        assert forall|i: int| 0 <= i < k implies #[trigger] rest[i]@ == pending[i]@ by {
            assert(names_view(rest)[i] == rest[i]@);
            assert(names.take(k)[i] == names[i]);
        }
        assert forall|i: int| k < i < pending.len() implies !data@.entries.contains_key(
            #[trigger] pending[i]@,
        ) by {
            assert(!data@.entries.contains_key(names[i]));
        }
    }
}

/// A network that is listed stands in the list under its name, as it was listed;
/// the other names stay as they were.
pub proof fn law_recorded_network_is_in_the_list<C>(
    listing: &mut Listing<C>,
    name: String,
    listed: ForeignNetworkEntryPb<C>,
    other: Seq<char>,
)
    requires
        call_ensures(Listing::<C>::record, (listing, name, listed), ()),
    ensures
        final(listing).response.foreign_networks@.get(name@) == Some(listed),
        other != name@ ==> final(listing).response.foreign_networks@.get(other) == old(
            listing,
        ).response.foreign_networks@.get(other),
        final(listing).pending@ == old(listing).pending@,
{
}

/// The list that is handed out is the one that was put together.
pub proof fn law_finished_list_is_the_recorded_one<C>(
    listing: Listing<C>,
    response: ListForeignNetworkResponse<C>,
)
    requires
        call_ensures(Listing::<C>::finish, (listing,), response),
    ensures
        response.foreign_networks@ == listing.response.foreign_networks@,
{
}

/// A peer is listed behind those that are listed, with all of its connections in
/// their order, or with none where they could not be listed.
pub proof fn law_peer_is_listed_with_its_connections<C>(
    listed: &mut ForeignNetworkEntryPb<C>,
    peer_id: PeerId,
    conns: Option<Vec<C>>,
    i: int,
)
    requires
        call_ensures(ForeignNetworkEntryPb::<C>::push_peer, (listed, peer_id, conns), ()),
    ensures
        final(listed).network_secret_digest@ == old(listed).network_secret_digest@,
        final(listed).peers@.len() == old(listed).peers@.len() + 1,
        0 <= i < old(listed).peers@.len() ==> final(listed).peers@[i] == old(listed).peers@[i],
        final(listed).peers@.last().peer_id == peer_id,
        conns is Some ==> final(listed).peers@.last().conns@ == conns->0@,
        conns is None ==> final(listed).peers@.last().conns@.len() == 0,
{
    if 0 <= i < old(listed).peers@.len() {
        assert(final(listed).peers@.drop_last()[i] == final(listed).peers@[i]);
    }
}

/// While there is a peer map, the neighbours are the peers that the accessor names
/// for the network and then those connected here, in their order, without this
/// node; once it is gone, there are none.
pub proof fn law_neighbours_come_from_both_sides<A: GlobalForeignNetworkAccessor>(
    interface: RouteInterface<A>,
    local: Option<Vec<PeerId>>,
    peers: Vec<PeerId>,
)
    requires
        call_ensures(RouteInterface::<A>::list_peers, (&interface, &local), peers),
    ensures
        local is None ==> peers@.len() == 0,
        local is Some ==> exists|global: Vec<PeerId>|
            #[trigger] call_ensures(
                A::list_global_foreign_peer,
                (&interface.accessor, &interface.network_identity),
                global,
            ) && peers@ == (global@ + local->0@).filter(
                |peer_id: PeerId| peer_id != interface.my_peer_id,
            ),
{
    assert(others(interface.my_peer_id) =~= (|peer_id: PeerId|
        peer_id != interface.my_peer_id));
}

/// The routing and the transport of a network tell the peer that this node is.
pub proof fn law_node_knows_itself<A: GlobalForeignNetworkAccessor>(
    interface: RouteInterface<A>,
    transport: RpcTransport,
    my_peer_id: PeerId,
    routed: PeerId,
    transported: PeerId,
    built: RpcTransport,
)
    requires
        call_ensures(RouteInterface::<A>::my_peer_id, (&interface,), routed),
        call_ensures(RpcTransport::my_peer_id, (&transport,), transported),
        call_ensures(ForeignNetworkEntry::build_rpc_tspt, (my_peer_id,), built),
    ensures
        routed == interface.my_peer_id,
        transported == transport.my_peer_id,
        built.my_peer_id == my_peer_id,
{
}

/// A procedure call is handed, unchanged, to this node itself, whatever its
/// destination; it fails exactly when the peer map is gone.
pub proof fn law_calls_are_handed_to_this_node<M>(
    transport: RpcTransport,
    msg: M,
    dst_peer_id: PeerId,
    peer_map_is_gone: bool,
    sent: Result<DirectMessage<M>, Error>,
)
    requires
        call_ensures(RpcTransport::send::<M>, (&transport, msg, dst_peer_id, peer_map_is_gone), sent),
    ensures
        sent is Err <==> peer_map_is_gone,
        sent matches Ok(message) ==> message.msg == msg && message.to == transport.my_peer_id,
        sent matches Err(error) ==> error@ == ErrorView::Anyhow("peer map is gone"@),
{
}

/// What came in is handed on as it is, and only the end is a failure.
pub proof fn law_what_comes_in_is_handed_on<M>(
    transport: RpcTransport,
    incoming: Option<M>,
    received: Result<M, Error>,
)
    requires
        call_ensures(RpcTransport::recv::<M>, (&transport, incoming), received),
    ensures
        received is Ok <==> incoming is Some,
        received is Ok ==> received->Ok_0 == incoming->0,
        received is Err ==> received->Err_0 is Unknown,
{
}

} // verus!
