//! The concurrent maps of the `dashmap` crate in which networks and peers are
//! remembered, and the clock.
//!
//! Every operation that changes a map takes it by `&mut`, though the methods of
//! `DashMap` do not ask for that, so that in verified code what a map holds only
//! changes where the contract of an operation says so.
use crate::entry::{EntryView, ForeignNetworkEntry};
use crate::identity::{PeerId, PeerMapId};
use dashmap::DashMap;
use std::sync::Arc;
use std::time::SystemTime;
use vstd::prelude::*;

verus! {

/// The map type of the `dashmap` crate.
#[verifier::external_type_specification]
#[verifier::external_body]
#[verifier::reject_recursive_types(K)]
#[verifier::reject_recursive_types(V)]
#[verifier::reject_recursive_types(S)]
pub struct ExDashMap<K, V, S>(DashMap<K, V, S>);

/// The point in time of std.
#[verifier::external_type_specification]
#[verifier::external_body]
pub struct ExSystemTime(SystemTime);

/// What a map from network names to records holds.
pub uninterp spec fn entries_of(map: DashMap<String, Arc<ForeignNetworkEntry>>) -> Map<Seq<char>, EntryView>;

/// What a map from peers to network names holds.
pub uninterp spec fn networks_of(map: DashMap<PeerId, String>) -> Map<PeerId, Seq<char>>;

/// What a map from network names to points in time holds.
pub uninterp spec fn times_of(map: DashMap<String, SystemTime>) -> Map<Seq<char>, SystemTime>;

/// `DashMap::new`: the new map holds nothing.
#[verifier::external_body]
pub(crate) fn entries_new() -> (map: DashMap<String, Arc<ForeignNetworkEntry>>)
    ensures
        entries_of(map).is_empty(),
{
    DashMap::new()
}

/// `DashMap::get`, with the value cloned out of the guard: the record under the
/// name, where there is one.
#[verifier::external_body]
pub(crate) fn entries_get(
    map: &DashMap<String, Arc<ForeignNetworkEntry>>,
    network_name: &str,
) -> (entry: Option<Arc<ForeignNetworkEntry>>)
    ensures
        entry is Some <==> entries_of(*map).contains_key(network_name@),
        entry is Some ==> entry->0@ == entries_of(*map)[network_name@],
{
    map.get(network_name).map(|entry| entry.clone())
}

/// `DashMap::entry` and `Entry::or_insert`, with the value cloned out of the
/// guard: the record that the map already holds under the name stays and is
/// handed out; where it holds none, the fresh one is stored and handed out.
#[verifier::external_body]
pub(crate) fn entries_or_insert(
    map: &mut DashMap<String, Arc<ForeignNetworkEntry>>,
    network_name: String,
    fresh: Arc<ForeignNetworkEntry>,
) -> (entry: Arc<ForeignNetworkEntry>)
    ensures
        entry@ == if entries_of(*old(map)).contains_key(network_name@) {
            entries_of(*old(map))[network_name@]
        } else {
            fresh@
        },
        entries_of(*final(map)) == entries_of(*old(map)).insert(network_name@, entry@),
{
    map.entry(network_name).or_insert(fresh).clone()
}

/// `DashMap::remove`: nothing is held under the name any more, and nothing else
/// changes.
#[verifier::external_body]
pub(crate) fn entries_remove(
    map: &mut DashMap<String, Arc<ForeignNetworkEntry>>,
    network_name: &str,
)
    ensures
        entries_of(*final(map)) == entries_of(*old(map)).remove(network_name@),
{
    map.remove(network_name);
}

/// `DashMap::remove_if`, with [`ForeignNetworkEntry::has_idle_peer_map`] as the
/// condition: the record under the name is taken out and handed back if there
/// is one and it meets the condition; otherwise nothing changes.
#[verifier::external_body]
pub(crate) fn entries_remove_if_idle(
    map: &mut DashMap<String, Arc<ForeignNetworkEntry>>,
    network_name: &str,
    idle: &Vec<PeerMapId>,
) -> (removed: Option<Arc<ForeignNetworkEntry>>)
    ensures
        removed is Some <==> entries_of(*old(map)).contains_key(network_name@) && idle@.contains(
            entries_of(*old(map))[network_name@].peer_map,
        ),
        removed is Some ==> removed->0@ == entries_of(*old(map))[network_name@],
        entries_of(*final(map)) == if removed is Some {
            entries_of(*old(map)).remove(network_name@)
        } else {
            entries_of(*old(map))
        },
{
    map.remove_if(network_name, |_, entry| entry.has_idle_peer_map(idle)).map(|(_, entry)| entry)
}

/// `DashMap::iter`, with each item mapped to its key: every name under which a
/// record is held, once, in no stated order.
#[verifier::external_body]
pub(crate) fn entries_names(
    map: &DashMap<String, Arc<ForeignNetworkEntry>>,
) -> (names: Vec<String>)
    ensures
        forall|i: int, j: int| 0 <= i < j < names@.len() ==> names@[i]@ != names@[j]@,
        forall|i: int| 0 <= i < names@.len() ==> entries_of(*map).contains_key(names@[i]@),
        forall|name: Seq<char>| #[trigger]
            entries_of(*map).contains_key(name) ==> exists|i: int|
                0 <= i < names@.len() && names@[i]@ == name,
{
    map.iter().map(|item| item.key().clone()).collect()
}

/// `DashMap::clear`: the map holds nothing any more.
#[verifier::external_body]
pub(crate) fn entries_clear(map: &mut DashMap<String, Arc<ForeignNetworkEntry>>)
    ensures
        entries_of(*final(map)).is_empty(),
{
    map.clear()
}

/// `DashMap::new`: the new map holds nothing.
#[verifier::external_body]
pub(crate) fn networks_new() -> (map: DashMap<PeerId, String>)
    ensures
        networks_of(map).is_empty(),
{
    DashMap::new()
}

/// `DashMap::get`, with the value cloned out of the guard: the name under the
/// peer, where there is one.
#[verifier::external_body]
pub(crate) fn networks_get(map: &DashMap<PeerId, String>, peer_id: PeerId) -> (name: Option<String>)
    ensures
        name is Some <==> networks_of(*map).contains_key(peer_id),
        name is Some ==> name->0@ == networks_of(*map)[peer_id],
{
    map.get(&peer_id).map(|name| name.clone())
}

/// `DashMap::insert`: the name is held under the peer, in place of what was held
/// there.
#[verifier::external_body]
pub(crate) fn networks_insert(
    map: &mut DashMap<PeerId, String>,
    peer_id: PeerId,
    network_name: String,
)
    ensures
        networks_of(*final(map)) == networks_of(*old(map)).insert(peer_id, network_name@),
{
    map.insert(peer_id, network_name);
}

/// `DashMap::remove`: nothing is held under the peer any more, and nothing else
/// changes.
#[verifier::external_body]
pub(crate) fn networks_remove(map: &mut DashMap<PeerId, String>, peer_id: PeerId)
    ensures
        networks_of(*final(map)) == networks_of(*old(map)).remove(peer_id),
{
    map.remove(&peer_id);
}

/// Whether two names differ.
pub fn names_differ(a: &String, b: &String) -> (differ: bool)
    ensures
        differ == (a@ != b@),
{
    !(*a == *b)
}

/// `DashMap::retain`, with [`names_differ`] as the condition: exactly the peers
/// under which another name is held stay, each with its name.
#[verifier::external_body]
pub(crate) fn networks_retain_others(map: &mut DashMap<PeerId, String>, network_name: &String)
    ensures
        networks_of(*final(map)) == networks_of(*old(map)).restrict(
            Set::new(|peer_id: PeerId| networks_of(*old(map))[peer_id] != network_name@),
        ),
{
    map.retain(|_, name| names_differ(name, network_name))
}

/// `DashMap::clear`: the map holds nothing any more.
#[verifier::external_body]
pub(crate) fn networks_clear(map: &mut DashMap<PeerId, String>)
    ensures
        networks_of(*final(map)).is_empty(),
{
    map.clear()
}

/// `DashMap::new`: the new map holds nothing.
#[verifier::external_body]
pub(crate) fn times_new() -> (map: DashMap<String, SystemTime>)
    ensures
        times_of(map).is_empty(),
{
    DashMap::new()
}

/// `DashMap::get`, with the value cloned out of the guard: the time under the
/// name, where there is one.
#[verifier::external_body]
pub(crate) fn times_get(
    map: &DashMap<String, SystemTime>,
    network_name: &str,
) -> (time: Option<SystemTime>)
    ensures
        time is Some <==> times_of(*map).contains_key(network_name@),
        time is Some ==> time->0 == times_of(*map)[network_name@],
{
    map.get(network_name).map(|time| time.clone())
}

/// `DashMap::insert`: the time is held under the name, in place of what was held
/// there.
#[verifier::external_body]
pub(crate) fn times_insert(
    map: &mut DashMap<String, SystemTime>,
    network_name: String,
    time: SystemTime,
)
    ensures
        times_of(*final(map)) == times_of(*old(map)).insert(network_name@, time),
{
    map.insert(network_name, time);
}

/// `DashMap::remove`: nothing is held under the name any more, and nothing else
/// changes.
#[verifier::external_body]
pub(crate) fn times_remove(map: &mut DashMap<String, SystemTime>, network_name: &str)
    ensures
        times_of(*final(map)) == times_of(*old(map)).remove(network_name@),
{
    map.remove(network_name);
}

/// `SystemTime::now`: nothing is claimed of what the clock shows.
#[verifier::external_body]
pub(crate) fn clock_now() -> (now: SystemTime) {
    SystemTime::now()
}

/// The time that the clock shows.
pub fn clock() -> (now: SystemTime) {
    clock_now()
}

} // verus!
