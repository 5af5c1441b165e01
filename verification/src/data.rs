//! What is remembered of the foreign networks and of their peers.
use crate::admission::{AdmissionView, EnteredView};
use crate::entry::{fresh_entry, EntryView, ForeignNetworkEntry};
use crate::identity::{NetworkIdentity, PeerId, PeerMapId};
use crate::listing::names_view;
use crate::tables::{
    clock, entries_clear, entries_get, entries_names, entries_new, entries_of,
    entries_or_insert, entries_remove, entries_remove_if_idle, networks_clear, networks_get,
    networks_insert, networks_new, networks_of, networks_remove, networks_retain_others, times_get,
    times_insert, times_new, times_of, times_remove,
};
use dashmap::DashMap;
use std::sync::Arc;
use std::time::SystemTime;
use vstd::prelude::*;

verus! {

/// The networks that are served, the network that each peer came with, and when
/// something last changed in each network.
pub struct ForeignNetworkManagerData {
    pub network_peer_maps: DashMap<String, Arc<ForeignNetworkEntry>>,
    peer_network_map: DashMap<PeerId, String>,
    network_peer_last_update: DashMap<String, SystemTime>,
}

/// The model of a [`ForeignNetworkManagerData`].
#[verifier::ext_equal]
pub struct DataView {
    pub entries: Map<Seq<char>, EntryView>,
    pub networks: Map<PeerId, Seq<char>>,
    pub times: Map<Seq<char>, SystemTime>,
}

impl View for ForeignNetworkManagerData {
    type V = DataView;

    closed spec fn view(&self) -> DataView {
        DataView {
            entries: entries_of(self.network_peer_maps),
            networks: networks_of(self.peer_network_map),
            times: times_of(self.network_peer_last_update),
        }
    }
}

impl DataView {
    /// Nothing is remembered.
    pub open spec fn nothing() -> DataView {
        DataView { entries: Map::empty(), networks: Map::empty(), times: Map::empty() }
    }

    /// Every record stands under the name of its own network, and of every
    /// network that is served it is known when it last changed.
    pub open spec fn wf(self) -> bool {
        &&& forall|name: Seq<char>| #[trigger]
            self.entries.contains_key(name) ==> self.entries[name].network.network_name == name
        &&& forall|name: Seq<char>| #[trigger]
            self.entries.contains_key(name) ==> self.times.contains_key(name)
    }

    /// The record that serves a network once `fresh` has asked for it: the one
    /// that is there, or else `fresh` itself.
    pub open spec fn serving(self, fresh: EntryView) -> EntryView {
        if self.entries.contains_key(fresh.network.network_name) {
            self.entries[fresh.network.network_name]
        } else {
            fresh
        }
    }

    /// A peer came with the network of `fresh` at the time `now`.
    pub open spec fn joined(self, fresh: EntryView, peer_id: PeerId, now: SystemTime) -> DataView {
        let name = fresh.network.network_name;
        DataView {
            entries: self.entries.insert(name, self.serving(fresh)),
            networks: self.networks.insert(peer_id, name),
            times: self.times.insert(name, now),
        }
    }

    /// The connection with the record that serves it.
    pub open spec fn entering(self, admission: AdmissionView, my_peer_id: PeerId) -> EnteredView {
        EnteredView {
            admission,
            entry: self.serving(admission.fresh_entry(my_peer_id)),
            new_added: !self.entries.contains_key(admission.network.network_name),
        }
    }

    /// The identities of a connection and of the record that serves it have been
    /// compared; a new record that differs is forgotten again.
    pub open spec fn compared(self, entered: EnteredView, same: bool) -> DataView {
        if entered.new_added && !same {
            self.without_network(entered.entry.network.network_name)
        } else {
            self
        }
    }

    /// The network is served, and its peer map is one of `idle`.
    pub open spec fn served_idly(self, name: Seq<char>, idle: Seq<PeerMapId>) -> bool {
        self.entries.contains_key(name) && idle.contains(self.entries[name].peer_map)
    }

    /// A peer left the network `name`; `idle` are the peer maps without peers.
    pub open spec fn without_peer(
        self,
        peer_id: PeerId,
        name: Seq<char>,
        idle: Seq<PeerMapId>,
    ) -> DataView {
        let ends = self.served_idly(name, idle);
        DataView {
            entries: if ends { self.entries.remove(name) } else { self.entries },
            networks: self.networks.remove(peer_id),
            times: if ends { self.times.remove(name) } else { self.times },
        }
    }

    /// The network is not served any more.
    pub open spec fn without_network(self, name: Seq<char>) -> DataView {
        DataView {
            entries: self.entries.remove(name),
            networks: self.networks.restrict(
                Set::new(|peer_id: PeerId| self.networks[peer_id] != name),
            ),
            times: self.times.remove(name),
        }
    }

    /// Something changed in the network at the time `now`.
    pub open spec fn touched(self, name: Seq<char>, now: SystemTime) -> DataView {
        DataView { times: self.times.insert(name, now), ..self }
    }

    /// Networks and peers are forgotten; the times stay.
    pub open spec fn closed_down(self) -> DataView {
        DataView { entries: Map::empty(), networks: Map::empty(), ..self }
    }
}

impl ForeignNetworkManagerData {
    /// Nothing is remembered yet.
    pub fn new() -> (data: Self)
        ensures
            data@ == DataView::nothing(),
            data@.wf(),
    {
        let data = ForeignNetworkManagerData {
            network_peer_maps: entries_new(),
            peer_network_map: networks_new(),
            network_peer_last_update: times_new(),
        };
        assert(data@ =~= DataView::nothing());
        data
    }

    /// The network that the peer came with.
    pub fn get_peer_network(&self, peer_id: PeerId) -> (name: Option<String>)
        ensures
            name is Some <==> self@.networks.contains_key(peer_id),
            name is Some ==> name->0@ == self@.networks[peer_id],
    {
        networks_get(&self.peer_network_map, peer_id)
    }

    /// The record of a network that is served.
    pub fn get_network_entry(&self, network_name: &str) -> (entry: Option<Arc<ForeignNetworkEntry>>)
        ensures
            entry is Some <==> self@.entries.contains_key(network_name@),
            entry is Some ==> entry->0@ == self@.entries[network_name@],
    {
        entries_get(&self.network_peer_maps, network_name)
    }

    /// When something last changed in the network.
    pub fn get_last_update(&self, network_name: &str) -> (time: Option<SystemTime>)
        ensures
            time is Some <==> self@.times.contains_key(network_name@),
            time is Some ==> time->0 == self@.times[network_name@],
    {
        times_get(&self.network_peer_last_update, network_name)
    }

    /// The names of the networks that are served, each once, in no stated order.
    pub fn network_names(&self) -> (names: Vec<String>)
        ensures
            forall|i: int, j: int| 0 <= i < j < names@.len() ==> names@[i]@ != names@[j]@,
            forall|i: int| 0 <= i < names@.len() ==> self@.entries.contains_key(names@[i]@),
            forall|name: Seq<char>| #[trigger]
                self@.entries.contains_key(name) ==> exists|i: int|
                    0 <= i < names@.len() && names@[i]@ == name,
            names_view(names@).to_set() == self@.entries.dom(),
    {
        let names = entries_names(&self.network_peer_maps);
        proof {
            let shown = names_view(names@);
            assert forall|name: Seq<char>| #[trigger] self@.entries.dom().contains(name) implies
                shown.to_set().contains(name) by {
                assert(self@.entries.contains_key(name));
                let i = choose|i: int| 0 <= i < names@.len() && names@[i]@ == name;
                assert(shown[i] == name);
            }
            assert forall|name: Seq<char>| #[trigger] shown.to_set().contains(name) implies
                self@.entries.dom().contains(name) by {
                let i = shown.index_of(name);
                assert(shown[i] == names@[i]@);
            }
            assert(shown.to_set() =~= self@.entries.dom());
        }
        names
    }

    /// Forgets that the peer came with a network, and stops serving the network
    /// `network_name` if its peer map is one of `idle`, the peer maps that hold
    /// no peer.
    pub fn remove_peer(&mut self, peer_id: PeerId, network_name: &String, idle: &Vec<PeerMapId>)
        ensures
            final(self)@ == old(self)@.without_peer(peer_id, network_name@, idle@),
            old(self)@.wf() ==> final(self)@.wf(),
    {
        networks_remove(&mut self.peer_network_map, peer_id);
        let removed = entries_remove_if_idle(&mut self.network_peer_maps, network_name, idle);
        if removed.is_some() {
            times_remove(&mut self.network_peer_last_update, network_name);
        }
    }

    /// The peer map that has to be cleared of peers without a connection, where
    /// the network is served.
    pub fn clear_no_conn_peer(&self, network_name: &String) -> (peer_map: Option<PeerMapId>)
        ensures
            peer_map == if self@.entries.contains_key(network_name@) {
                Some(self@.entries[network_name@].peer_map)
            } else {
                None
            },
    {
        match entries_get(&self.network_peer_maps, network_name) {
            Some(entry) => Some(entry.peer_map),
            None => None,
        }
    }

    /// Stops serving the network, and forgets which peers came with it and when
    /// it last changed.
    pub fn remove_network(&mut self, network_name: &String)
        ensures
            final(self)@ == old(self)@.without_network(network_name@),
            old(self)@.wf() ==> final(self)@.wf(),
    {
        networks_retain_others(&mut self.peer_network_map, network_name);
        entries_remove(&mut self.network_peer_maps, network_name);
        times_remove(&mut self.network_peer_last_update, network_name);
    }

    /// Remembers that the peer `dst_peer_id` came with the network at the time
    /// `now`, and hands out the record that serves the network: the one that is
    /// there, or a new one that is made of the other arguments. The flag says
    /// whether it is new.
    pub fn get_or_insert_entry_at(
        &mut self,
        network_identity: &NetworkIdentity,
        my_peer_id: PeerId,
        dst_peer_id: PeerId,
        relay_data: bool,
        ip_range: String,
        peer_map: PeerMapId,
        now: SystemTime,
    ) -> (found: (Arc<ForeignNetworkEntry>, bool))
        ensures
            ({
                let fresh = fresh_entry(
                    network_identity@,
                    my_peer_id,
                    relay_data,
                    ip_range@,
                    peer_map,
                );
                &&& found.0@ == old(self)@.serving(fresh)
                &&& final(self)@ == old(self)@.joined(fresh, dst_peer_id, now)
            }),
            found.1 == !old(self)@.entries.contains_key(network_identity@.network_name),
            old(self)@.wf() ==> final(self)@.wf(),
    {
        let new_added = entries_get(
            &self.network_peer_maps,
            network_identity.network_name.as_str(),
        ).is_none();
        let fresh = ForeignNetworkEntry::new(
            network_identity.clone(),
            my_peer_id,
            relay_data,
            ip_range,
            peer_map,
        );
        let entry = entries_or_insert(
            &mut self.network_peer_maps,
            network_identity.network_name.clone(),
            Arc::new(fresh),
        );
        networks_insert(
            &mut self.peer_network_map,
            dst_peer_id,
            network_identity.network_name.clone(),
        );
        times_insert(
            &mut self.network_peer_last_update,
            network_identity.network_name.clone(),
            now,
        );
        (entry, new_added)
    }

    /// [`Self::get_or_insert_entry_at`], at the time that [`clock`] shows.
    pub fn get_or_insert_entry(
        &mut self,
        network_identity: &NetworkIdentity,
        my_peer_id: PeerId,
        dst_peer_id: PeerId,
        relay_data: bool,
        ip_range: String,
        peer_map: PeerMapId,
    ) -> (found: (Arc<ForeignNetworkEntry>, bool))
        ensures
            ({
                let fresh = fresh_entry(
                    network_identity@,
                    my_peer_id,
                    relay_data,
                    ip_range@,
                    peer_map,
                );
                &&& found.0@ == old(self)@.serving(fresh)
                &&& exists|now: SystemTime|
                    final(self)@ == #[trigger] old(self)@.joined(fresh, dst_peer_id, now)
                        && call_ensures(clock, (), now)
            }),
            found.1 == !old(self)@.entries.contains_key(network_identity@.network_name),
            old(self)@.wf() ==> final(self)@.wf(),
    {
        let now = clock();
        self.get_or_insert_entry_at(
            network_identity,
            my_peer_id,
            dst_peer_id,
            relay_data,
            ip_range,
            peer_map,
            now,
        )
    }

    /// Remembers that something changed in the network at the time `now`.
    pub fn touch(&mut self, network_name: &String, now: SystemTime)
        ensures
            final(self)@ == old(self)@.touched(network_name@, now),
            old(self)@.wf() ==> final(self)@.wf(),
    {
        times_insert(&mut self.network_peer_last_update, network_name.clone(), now);
    }

    /// Forgets the networks and the peers, as a manager does that goes away.
    pub fn close_down(&mut self)
        ensures
            final(self)@ == old(self)@.closed_down(),
            final(self)@.wf(),
    {
        networks_clear(&mut self.peer_network_map);
        entries_clear(&mut self.network_peer_maps);
        assert(self@ =~= old(self)@.closed_down());
    }
}

} // verus!
