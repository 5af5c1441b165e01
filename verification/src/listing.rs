//! The list of the foreign networks that are served, with their peers.
use crate::data::ForeignNetworkManagerData;
use crate::entry::{EntryView, ForeignNetworkEntry};
use crate::identity::PeerId;
use std::sync::Arc;
use vstd::hash_map::StringHashMap;
use vstd::prelude::*;

verus! {

/// A peer and its connections.
pub struct PeerInfo<C> {
    pub peer_id: PeerId,
    pub conns: Vec<C>,
}

/// A network and its peers.
pub struct ForeignNetworkEntryPb<C> {
    pub network_secret_digest: Vec<u8>,
    pub peers: Vec<PeerInfo<C>>,
}

/// The networks by their names.
#[verifier::reject_recursive_types(C)]
pub struct ListForeignNetworkResponse<C> {
    pub foreign_networks: StringHashMap<ForeignNetworkEntryPb<C>>,
}

/// A list that is being put together: the networks that are still to be listed,
/// and those that are.
#[verifier::reject_recursive_types(C)]
pub struct Listing<C> {
    pub pending: Vec<String>,
    pub response: ListForeignNetworkResponse<C>,
}

/// The model of a list of names.
pub open spec fn names_view(names: Seq<String>) -> Seq<Seq<char>> {
    names.map_values(|name: String| name@)
}

/// From the back of `pending`, the first name under which a record is held, and
/// the names before it.
pub open spec fn next_held(
    pending: Seq<Seq<char>>,
    entries: Map<Seq<char>, EntryView>,
) -> Option<(Seq<char>, Seq<Seq<char>>)>
    decreases pending.len(),
{
    if pending.len() == 0 {
        None
    } else if entries.contains_key(pending.last()) {
        Some((pending.last(), pending.drop_last()))
    } else {
        next_held(pending.drop_last(), entries)
    }
}

impl<C> ForeignNetworkEntryPb<C> {
    /// The network with the given record, and no peers yet.
    pub fn for_entry(item: &ForeignNetworkEntry) -> (listed: Self)
        ensures
            listed.network_secret_digest@ == item@.network.digest_or_zero(),
            listed.peers@.len() == 0,
    {
        let digest = item.network.digest_or_default();
        let mut bytes: Vec<u8> = Vec::new();
        let mut i: usize = 0;
        while i < 32
            invariant
                i <= 32,
                bytes@ == digest@.take(i as int),
            decreases 32 - i,
        {
            bytes.push(digest[i]);
            i += 1;
            assert(bytes@ =~= digest@.take(i as int));
        }
        assert(digest@.take(32) =~= digest@);
        ForeignNetworkEntryPb { network_secret_digest: bytes, peers: Vec::new() }
    }

    /// Adds a peer with its connections, of which there are none where they could
    /// not be listed.
    pub fn push_peer(&mut self, peer_id: PeerId, conns: Option<Vec<C>>)
        ensures
            final(self).network_secret_digest == old(self).network_secret_digest,
            final(self).peers@.len() == old(self).peers@.len() + 1,
            final(self).peers@.drop_last() == old(self).peers@,
            final(self).peers@.last().peer_id == peer_id,
            final(self).peers@.last().conns@ == match conns {
                Some(conns) => conns@,
                None => Seq::empty(),
            },
    {
        let conns = match conns {
            Some(conns) => conns,
            None => Vec::new(),
        };
        self.peers.push(PeerInfo { peer_id, conns });
        assert(self.peers@.drop_last() =~= old(self).peers@);
    }
}

impl<C> Listing<C> {
    /// A list of all networks that are served, of which none is listed yet.
    pub fn start(data: &ForeignNetworkManagerData) -> (listing: Self)
        ensures
            names_view(listing.pending@).no_duplicates(),
            names_view(listing.pending@).to_set() == data@.entries.dom(),
            listing.response.foreign_networks@.is_empty(),
    {
        let pending = data.network_names();
        Listing {
            pending,
            response: ListForeignNetworkResponse { foreign_networks: StringHashMap::new() },
        }
    }

    /// The next network that is to be listed, with its record; those that are not
    /// served any more are passed over.
    pub fn next(&mut self, data: &ForeignNetworkManagerData) -> (item: Option<
        (String, Arc<ForeignNetworkEntry>),
    >)
        ensures
            final(self).response == old(self).response,
            match next_held(names_view(old(self).pending@), data@.entries) {
                None => item is None && final(self).pending@.len() == 0,
                Some((name, rest)) => {
                    &&& item matches Some((item_name, entry))
                    &&& item_name@ == name
                    &&& entry@ == data@.entries[name]
                    &&& names_view(final(self).pending@) == rest
                },
            },
    {
        loop
            invariant
                self.response == old(self).response,
                next_held(names_view(self.pending@), data@.entries) == next_held(
                    names_view(old(self).pending@),
                    data@.entries,
                ),
            decreases self.pending@.len(),
        {
            let ghost before = self.pending@;
            match self.pending.pop() {
                None => {
                    return None;
                },
                Some(name) => {
                    proof {
                        assert(before.last() == name);
                        assert(names_view(before).last() == name@);
                        assert(names_view(before).drop_last() =~= names_view(self.pending@));
                    }
                    if let Some(entry) = data.get_network_entry(name.as_str()) {
                        return Some((name, entry));
                    }
                },
            }
        }
    }

    /// Lists a network.
    pub fn record(&mut self, network_name: String, listed: ForeignNetworkEntryPb<C>)
        ensures
            final(self).pending == old(self).pending,
            final(self).response.foreign_networks@
                == old(self).response.foreign_networks@.insert(network_name@, listed),
    {
        self.response.foreign_networks.insert(network_name, listed);
    }

    /// The list.
    pub fn finish(self) -> (response: ListForeignNetworkResponse<C>)
        ensures
            response == self.response,
    {
        self.response
    }
}

/// The names that end up in a list that is put together while the memory does
/// not change.
pub open spec fn listed_names(pending: Seq<Seq<char>>, entries: Map<Seq<char>, EntryView>) -> Set<
    Seq<char>,
>
    decreases pending.len(),
    via listed_names_decreases
{
    match next_held(pending, entries) {
        None => Set::empty(),
        Some((name, rest)) => listed_names(rest, entries).insert(name),
    }
}

#[via_fn]
proof fn listed_names_decreases(pending: Seq<Seq<char>>, entries: Map<Seq<char>, EntryView>) {
    lemma_next_held_shrinks(pending, entries);
}

proof fn lemma_next_held_shrinks(pending: Seq<Seq<char>>, entries: Map<Seq<char>, EntryView>)
    ensures
        next_held(pending, entries) matches Some((name, rest)) ==> rest.len() < pending.len(),
    decreases pending.len(),
{
    if pending.len() != 0 && !entries.contains_key(pending.last()) {
        lemma_next_held_shrinks(pending.drop_last(), entries);
    }
}

/// A list that is put together while the memory does not change has exactly the
/// pending networks that are served.
pub proof fn law_list_has_the_served_networks(
    pending: Seq<Seq<char>>,
    entries: Map<Seq<char>, EntryView>,
)
    ensures
        listed_names(pending, entries) == pending.to_set().intersect(entries.dom()),
    decreases pending.len(),
{
    if pending.len() == 0 {
        assert(pending.to_set().intersect(entries.dom()) =~= Set::empty());
    } else {
        let rest = pending.drop_last();
        law_list_has_the_served_networks(rest, entries);
        assert(pending =~= rest.push(pending.last()));
        assert forall|name: Seq<char>|
            pending.to_set().contains(name) <==> rest.to_set().contains(name) || name
                == pending.last() by {
            if pending.contains(name) && name != pending.last() {
                let i = pending.index_of(name);
                assert(rest[i] == name);
            }
            if rest.contains(name) {
                let i = rest.index_of(name);
                assert(pending[i] == name);
            }
            assert(pending[pending.len() - 1] == pending.last());
        }
        assert(listed_names(pending, entries) =~= pending.to_set().intersect(entries.dom()));
    }
}

} // verus!
