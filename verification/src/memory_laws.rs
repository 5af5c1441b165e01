//! What is promised of the memory, call by call: what is written is read back, and
//! what a call is not about stays as it was.
use crate::data::{DataView, ForeignNetworkManagerData};
use crate::entry::{EntryView, ForeignNetworkEntry};
use crate::error::{Error, ErrorView};
use crate::events::{event_action, EventAction, GlobalCtxEvent};
use crate::history::{law_memory_is_always_well_formed, remembered, Operation};
use crate::identity::{NetworkIdentity, PeerId, PeerMapId};
use crate::listing::names_view;
use crate::manager::{ForeignNetworkManager, PeerMessage};
use crate::tables::clock;
use std::sync::Arc;
use std::time::SystemTime;
use vstd::prelude::*;

verus! {

/// What can be read from the memory: of the network `name` its record and when it
/// last changed, and of the peer `peer_id` the network that it came with.
pub open spec fn reads(
    data: ForeignNetworkManagerData,
    name: &str,
    peer_id: PeerId,
    entry: Option<Arc<ForeignNetworkEntry>>,
    time: Option<SystemTime>,
    network: Option<String>,
) -> bool {
    &&& call_ensures(ForeignNetworkManagerData::get_network_entry, (&data, name), entry)
    &&& call_ensures(ForeignNetworkManagerData::get_last_update, (&data, name), time)
    &&& call_ensures(ForeignNetworkManagerData::get_peer_network, (&data, peer_id), network)
}

/// From a new memory nothing can be read.
pub proof fn law_new_memory_reads_nothing(
    data: ForeignNetworkManagerData,
    name: &str,
    peer_id: PeerId,
    entry: Option<Arc<ForeignNetworkEntry>>,
    time: Option<SystemTime>,
    network: Option<String>,
)
    requires
        call_ensures(ForeignNetworkManagerData::new, (), data),
        reads(data, name, peer_id, entry, time, network),
    ensures
        entry is None,
        time is None,
        network is None,
{
}

/// After a peer came with a network, the network's record is the one that was
/// handed out, its time is that of the call, and the peer's network is that one.
/// What is read of every other network and peer is what was read before.
pub proof fn law_joining_is_read_back(
    data: &mut ForeignNetworkManagerData,
    network: NetworkIdentity,
    my_peer_id: PeerId,
    dst_peer_id: PeerId,
    relay_data: bool,
    ip_range: String,
    peer_map: PeerMapId,
    now: SystemTime,
    found: (Arc<ForeignNetworkEntry>, bool),
    name: &str,
    peer_id: PeerId,
    entry_before: Option<Arc<ForeignNetworkEntry>>,
    time_before: Option<SystemTime>,
    network_before: Option<String>,
    entry: Option<Arc<ForeignNetworkEntry>>,
    time: Option<SystemTime>,
    network_after: Option<String>,
)
    requires
        call_ensures(
            ForeignNetworkManagerData::get_or_insert_entry_at,
            (data, &network, my_peer_id, dst_peer_id, relay_data, ip_range, peer_map, now),
            found,
        ),
        reads(*old(data), name, peer_id, entry_before, time_before, network_before),
        reads(*final(data), name, peer_id, entry, time, network_after),
    ensures
        name@ == network.network_name@ ==> {
            &&& entry is Some && entry->0@ == found.0@
            &&& time == Some(now)
            &&& found.1 <==> entry_before is None
            &&& entry_before is Some ==> found.0@ == entry_before->0@
        },
        name@ != network.network_name@ ==> {
            &&& entry is Some <==> entry_before is Some
            &&& entry is Some ==> entry->0@ == entry_before->0@
            &&& time == time_before
        },
        peer_id == dst_peer_id ==> network_after is Some && network_after->0@
            == network.network_name@,
        peer_id != dst_peer_id ==> {
            &&& network_after is Some <==> network_before is Some
            &&& network_after is Some ==> network_after->0@ == network_before->0@
        },
{
}

/// A record that is handed out as new is made of what the call was given.
pub proof fn law_new_record_is_as_asked_for(
    data: &mut ForeignNetworkManagerData,
    network: NetworkIdentity,
    my_peer_id: PeerId,
    dst_peer_id: PeerId,
    relay_data: bool,
    ip_range: String,
    peer_map: PeerMapId,
    now: SystemTime,
    found: (Arc<ForeignNetworkEntry>, bool),
)
    requires
        call_ensures(
            ForeignNetworkManagerData::get_or_insert_entry_at,
            (data, &network, my_peer_id, dst_peer_id, relay_data, ip_range, peer_map, now),
            found,
        ),
        found.1,
    ensures
        found.0@.network == network@,
        found.0@.my_peer_id == my_peer_id,
        found.0@.relay_data == relay_data,
        found.0@.ip_range == ip_range@,
        found.0@.peer_map == peer_map,
{
}

/// Coming with a network now, the record is found or made in the same way, and
/// remembered with the peer and with the time that the clock shows.
pub proof fn law_joining_now_is_remembered(
    data: &mut ForeignNetworkManagerData,
    network: NetworkIdentity,
    my_peer_id: PeerId,
    dst_peer_id: PeerId,
    relay_data: bool,
    ip_range: String,
    peer_map: PeerMapId,
    found: (Arc<ForeignNetworkEntry>, bool),
    other: Seq<char>,
    other_peer: PeerId,
)
    requires
        call_ensures(
            ForeignNetworkManagerData::get_or_insert_entry,
            (data, &network, my_peer_id, dst_peer_id, relay_data, ip_range, peer_map),
            found,
        ),
    ensures
        ({
            let name = network.network_name@;
            let before = old(data)@;
            let after = final(data)@;
            &&& found.1 <==> !before.entries.contains_key(name)
            &&& !found.1 ==> found.0@ == before.entries[name]
            &&& found.1 ==> {
                &&& found.0@.network == network@
                &&& found.0@.my_peer_id == my_peer_id
                &&& found.0@.relay_data == relay_data
                &&& found.0@.ip_range == ip_range@
                &&& found.0@.peer_map == peer_map
            }
            &&& after.entries.get(name) == Some(found.0@)
            &&& after.networks.get(dst_peer_id) == Some(name)
            &&& after.times.contains_key(name)
            &&& call_ensures(clock, (), after.times[name])
            &&& other != name ==> after.entries.get(other) == before.entries.get(other)
            &&& other != name ==> after.times.get(other) == before.times.get(other)
            &&& other_peer != dst_peer_id ==> after.networks.get(other_peer)
                == before.networks.get(other_peer)
        }),
{
}

/// After a network is removed, nothing is read of it, nor of any peer that came
/// with it; what is read of all others is what was read before.
pub proof fn law_removal_is_read_back(
    data: &mut ForeignNetworkManagerData,
    removed: String,
    name: &str,
    peer_id: PeerId,
    entry_before: Option<Arc<ForeignNetworkEntry>>,
    time_before: Option<SystemTime>,
    network_before: Option<String>,
    entry: Option<Arc<ForeignNetworkEntry>>,
    time: Option<SystemTime>,
    network: Option<String>,
)
    requires
        call_ensures(ForeignNetworkManagerData::remove_network, (data, &removed), ()),
        reads(*old(data), name, peer_id, entry_before, time_before, network_before),
        reads(*final(data), name, peer_id, entry, time, network),
    ensures
        name@ == removed@ ==> entry is None && time is None,
        name@ != removed@ ==> {
            &&& entry is Some <==> entry_before is Some
            &&& entry is Some ==> entry->0@ == entry_before->0@
            &&& time == time_before
        },
        network is Some <==> network_before is Some && network_before->0@ != removed@,
        network is Some ==> network->0@ == network_before->0@,
{
}

/// After a peer left a network, nothing is read of the peer. The network is gone,
/// with its time, exactly if its peer map is somewhere among the idle ones; what is
/// read of everything else is what was read before.
pub proof fn law_leaving_is_read_back(
    data: &mut ForeignNetworkManagerData,
    left_by: PeerId,
    left: String,
    idle: Vec<PeerMapId>,
    name: &str,
    peer_id: PeerId,
    entry_before: Option<Arc<ForeignNetworkEntry>>,
    time_before: Option<SystemTime>,
    network_before: Option<String>,
    entry: Option<Arc<ForeignNetworkEntry>>,
    time: Option<SystemTime>,
    network: Option<String>,
)
    requires
        call_ensures(ForeignNetworkManagerData::remove_peer, (data, left_by, &left, &idle), ()),
        reads(*old(data), name, peer_id, entry_before, time_before, network_before),
        reads(*final(data), name, peer_id, entry, time, network),
    ensures
        ({
            let ends = name@ == left@ && entry_before is Some && exists|i: int|
                0 <= i < idle@.len() && #[trigger] idle@[i] == entry_before->0@.peer_map;
            &&& ends ==> entry is None && time is None
            &&& !ends ==> {
                &&& entry is Some <==> entry_before is Some
                &&& entry is Some ==> entry->0@ == entry_before->0@
                &&& time == time_before
            }
        }),
        peer_id == left_by ==> network is None,
        peer_id != left_by ==> {
            &&& network is Some <==> network_before is Some
            &&& network is Some ==> network->0@ == network_before->0@
        },
{
}

/// After something changed in a network, its time is that of the call, and all
/// else that is read is what was read before.
pub proof fn law_change_is_read_back(
    data: &mut ForeignNetworkManagerData,
    changed: String,
    now: SystemTime,
    name: &str,
    peer_id: PeerId,
    entry_before: Option<Arc<ForeignNetworkEntry>>,
    time_before: Option<SystemTime>,
    network_before: Option<String>,
    entry: Option<Arc<ForeignNetworkEntry>>,
    time: Option<SystemTime>,
    network: Option<String>,
)
    requires
        call_ensures(ForeignNetworkManagerData::touch, (data, &changed, now), ()),
        reads(*old(data), name, peer_id, entry_before, time_before, network_before),
        reads(*final(data), name, peer_id, entry, time, network),
    ensures
        time == if name@ == changed@ {
            Some(now)
        } else {
            time_before
        },
        entry is Some <==> entry_before is Some,
        entry is Some ==> entry->0@ == entry_before->0@,
        network is Some <==> network_before is Some,
        network is Some ==> network->0@ == network_before->0@,
{
}

/// After the memory is closed down, no record and no peer is read, but every time
/// that was read before.
pub proof fn law_closing_down_is_read_back(
    data: &mut ForeignNetworkManagerData,
    name: &str,
    peer_id: PeerId,
    entry_before: Option<Arc<ForeignNetworkEntry>>,
    time_before: Option<SystemTime>,
    network_before: Option<String>,
    entry: Option<Arc<ForeignNetworkEntry>>,
    time: Option<SystemTime>,
    network: Option<String>,
)
    requires
        call_ensures(ForeignNetworkManagerData::close_down, (data,), ()),
        reads(*old(data), name, peer_id, entry_before, time_before, network_before),
        reads(*final(data), name, peer_id, entry, time, network),
    ensures
        entry is None,
        network is None,
        time == time_before,
{
}

/// The peer map that is to be cleared is that of the network's record, whatever
/// else the record holds; there is none exactly where there is no record.
pub proof fn law_served_network_is_cleared(
    data: ForeignNetworkManagerData,
    name: String,
    peer_map: Option<PeerMapId>,
    shown: &str,
    entry: Option<Arc<ForeignNetworkEntry>>,
)
    requires
        call_ensures(ForeignNetworkManagerData::clear_no_conn_peer, (&data, &name), peer_map),
        shown@ == name@,
        call_ensures(ForeignNetworkManagerData::get_network_entry, (&data, shown), entry),
    ensures
        peer_map is Some <==> entry is Some,
        entry is Some ==> peer_map->0 == entry->0@.peer_map,
{
}

/// The names of the networks are those under which a record can be read, each once.
pub proof fn law_names_are_those_with_a_record(
    data: ForeignNetworkManagerData,
    names: Vec<String>,
    name: &str,
    entry: Option<Arc<ForeignNetworkEntry>>,
)
    requires
        call_ensures(ForeignNetworkManagerData::network_names, (&data,), names),
        call_ensures(ForeignNetworkManagerData::get_network_entry, (&data, name), entry),
    ensures
        entry is Some <==> exists|i: int| 0 <= i < names@.len() && #[trigger] names@[i]@ == name@,
        forall|i: int, j: int|
            0 <= i < names@.len() && 0 <= j < names@.len() && #[trigger] names@[i]@
                == #[trigger] names@[j]@ ==> i == j,
{
    if entry is Some {
        assert(data@.entries.contains_key(name@));
        assert(names_view(names@).to_set().contains(name@));
        let i = names_view(names@).index_of(name@);
        assert(names@[i]@ == name@);
    }
}

/// What is done about an event: where a connection was removed in a network that is
/// served, whatever its record holds, the peer map of that record is cleared; where
/// the events have ended, no more are waited for; and in every other case the next
/// event is waited for.
pub proof fn law_lost_connection_clears_the_peer_map(
    manager: &mut ForeignNetworkManager,
    name: String,
    event: Option<GlobalCtxEvent>,
    idle: Vec<PeerMapId>,
    now: SystemTime,
    action: EventAction,
    shown: &str,
    entry: Option<Arc<ForeignNetworkEntry>>,
)
    requires
        call_ensures(
            ForeignNetworkManager::handle_event_at,
            (manager, &name, event, &idle, now),
            action,
        ),
        shown@ == name@,
        call_ensures(
            ForeignNetworkManagerData::get_network_entry,
            (&old(manager).data, shown),
            entry,
        ),
    ensures
        action is Stop <==> event is None,
        action is CleanPeerWithoutConn <==> event is Some && event->0 is PeerConnRemoved
            && entry is Some,
        action matches EventAction::CleanPeerWithoutConn(peer_map) ==> peer_map
            == entry->0@.peer_map,
{
}

/// The same of the model.
pub proof fn law_event_action(data: DataView, name: Seq<char>, event: Option<GlobalCtxEvent>)
    ensures
        ({
            let action = event_action(data, name, event);
            &&& action is Stop <==> event is None
            &&& action is CleanPeerWithoutConn <==> event is Some && event->0 is PeerConnRemoved
                && data.entries.contains_key(name)
            &&& action matches EventAction::CleanPeerWithoutConn(peer_map) ==> peer_map
                == data.entries[name].peer_map
        }),
{
}

/// What an event leaves to be read: a peer that was removed is gone, and so is its
/// network if the network's peer map is idle; that a peer was added or removed sets
/// the network's time; the end of the events removes the network and all that came
/// with it; and nothing else changes anything.
pub proof fn law_event_is_read_back(
    manager: &mut ForeignNetworkManager,
    happened_in: String,
    event: Option<GlobalCtxEvent>,
    idle: Vec<PeerMapId>,
    now: SystemTime,
    action: EventAction,
    name: &str,
    peer_id: PeerId,
    entry_before: Option<Arc<ForeignNetworkEntry>>,
    time_before: Option<SystemTime>,
    network_before: Option<String>,
    entry: Option<Arc<ForeignNetworkEntry>>,
    time: Option<SystemTime>,
    network: Option<String>,
)
    requires
        call_ensures(
            ForeignNetworkManager::handle_event_at,
            (manager, &happened_in, event, &idle, now),
            action,
        ),
        reads(old(manager).data, name, peer_id, entry_before, time_before, network_before),
        reads(final(manager).data, name, peer_id, entry, time, network),
    ensures
        ({
            let here = name@ == happened_in@;
            let removal = event is Some && event->0 is PeerRemoved;
            let change = removal || event is Some && event->0 is PeerAdded;
            let ends = here && entry_before is Some && removal && exists|i: int|
                0 <= i < idle@.len() && #[trigger] idle@[i] == entry_before->0@.peer_map;
            let gone = here && event is None || ends;
            let forgotten = removal && event->0->PeerRemoved_0 == peer_id || event is None
                && network_before is Some && network_before->0@ == happened_in@;
            &&& entry is Some <==> entry_before is Some && !gone
            &&& entry is Some ==> entry->0@ == entry_before->0@
            &&& here && change ==> time == Some(now)
            &&& here && event is None ==> time is None
            &&& !here || event is Some && !change ==> time == time_before
            &&& network is Some <==> network_before is Some && !forgotten
            &&& network is Some ==> network->0@ == network_before->0@
        }),
        final(manager).my_peer_id == old(manager).my_peer_id,
        final(manager).has_pool == old(manager).has_pool,
{
}

/// An event that is followed now leaves the same as one that is followed at a given
/// time, with the time that the clock shows, and is answered by the same action.
pub proof fn law_event_is_followed_now(
    manager: &mut ForeignNetworkManager,
    name: String,
    event: Option<GlobalCtxEvent>,
    idle: Vec<PeerMapId>,
    action: EventAction,
    other: Seq<char>,
    peer_id: PeerId,
)
    requires
        call_ensures(ForeignNetworkManager::handle_event, (manager, &name, event, &idle), action),
    ensures
        ({
            let before = old(manager).data@;
            let after = final(manager).data@;
            let removal = event is Some && event->0 is PeerRemoved;
            let change = removal || event is Some && event->0 is PeerAdded;
            let ends = removal && before.entries.contains_key(name@) && idle@.contains(
                before.entries[name@].peer_map,
            );
            &&& action is Stop <==> event is None
            &&& action is CleanPeerWithoutConn <==> event is Some && event->0 is PeerConnRemoved
                && before.entries.contains_key(name@)
            &&& action matches EventAction::CleanPeerWithoutConn(peer_map) ==> peer_map
                == before.entries[name@].peer_map
            &&& after.entries.get(name@) == if event is None || ends {
                None
            } else {
                before.entries.get(name@)
            }
            &&& change ==> after.times.contains_key(name@) && call_ensures(
                clock,
                (),
                after.times[name@],
            )
            &&& event is None ==> !after.times.contains_key(name@)
            &&& event is Some && !change ==> after == before
            &&& other != name@ ==> after.entries.get(other) == before.entries.get(other)
            &&& other != name@ ==> after.times.get(other) == before.times.get(other)
            &&& after.networks.get(peer_id) == if removal && event->0->PeerRemoved_0 == peer_id
                || event is None && before.networks.get(peer_id) == Some(name@) {
                None
            } else {
                before.networks.get(peer_id)
            }
        }),
        final(manager).my_peer_id == old(manager).my_peer_id,
        final(manager).has_pool == old(manager).has_pool,
{
}

/// A new manager is the given peer, has a database or not as given, and remembers
/// nothing.
pub proof fn law_new_manager_serves_nothing(
    my_peer_id: PeerId,
    has_pool: bool,
    manager: ForeignNetworkManager,
    name: Seq<char>,
    peer_id: PeerId,
)
    requires
        call_ensures(ForeignNetworkManager::new, (my_peer_id, has_pool), manager),
    ensures
        manager.my_peer_id == my_peer_id,
        manager.has_pool == has_pool,
        !manager.data@.entries.contains_key(name),
        !manager.data@.times.contains_key(name),
        !manager.data@.networks.contains_key(peer_id),
{
}

/// A manager that has closed down serves no network and knows no peer; the times,
/// and what the manager is, stay.
pub proof fn law_closed_manager_serves_nothing(
    manager: &mut ForeignNetworkManager,
    name: Seq<char>,
    peer_id: PeerId,
)
    requires
        call_ensures(ForeignNetworkManager::close_down, (manager,), ()),
    ensures
        !final(manager).data@.entries.contains_key(name),
        !final(manager).data@.networks.contains_key(peer_id),
        final(manager).data@.times.get(name) == old(manager).data@.times.get(name),
        final(manager).my_peer_id == old(manager).my_peer_id,
        final(manager).has_pool == old(manager).has_pool,
{
}

/// The time that the manager tells is the one in its memory.
pub proof fn law_manager_tells_the_remembered_time(
    manager: ForeignNetworkManager,
    name: &str,
    told: Option<SystemTime>,
    time: Option<SystemTime>,
)
    requires
        call_ensures(ForeignNetworkManager::get_foreign_network_last_update, (&manager, name), told),
        call_ensures(ForeignNetworkManagerData::get_last_update, (&manager.data, name), time),
    ensures
        told == time,
{
}

/// A message is sent exactly if its network is served: unchanged, to its own
/// destination, by the peer map of the network's record and by the fewest hops.
/// Otherwise the network was not found.
pub proof fn law_messages_go_to_served_networks<M>(
    manager: ForeignNetworkManager,
    name: &str,
    dst_peer_id: PeerId,
    msg: M,
    sent: Result<PeerMessage<M>, Error>,
    entry: Option<Arc<ForeignNetworkEntry>>,
)
    requires
        call_ensures(
            ForeignNetworkManager::send_msg_to_peer::<M>,
            (&manager, name, dst_peer_id, msg),
            sent,
        ),
        call_ensures(ForeignNetworkManagerData::get_network_entry, (&manager.data, name), entry),
    ensures
        sent is Ok <==> entry is Some,
        sent matches Ok(message) ==> {
            &&& message.msg == msg
            &&& message.dst_peer_id == dst_peer_id
            &&& message.peer_map == entry->0@.peer_map
            &&& message.policy is LeastHop
        },
        sent matches Err(error) ==> error@ == ErrorView::RouteError(Some("network not found"@)),
{
}

/// The record that serves a network is the one that is there, and the one that was
/// asked for only where there is none.
pub proof fn law_record_that_is_there_serves(data: DataView, fresh: EntryView)
    ensures
        data.entries.contains_key(fresh.network.network_name) ==> data.serving(fresh)
            == data.entries[fresh.network.network_name],
        !data.entries.contains_key(fresh.network.network_name) ==> data.serving(fresh) == fresh,
{
}

/// Whatever happened, a record names the network that it stands for, and its time
/// is known.
pub proof fn law_records_name_their_networks(operations: Seq<Operation>, name: Seq<char>)
    ensures
        remembered(operations).entries.contains_key(name) ==> {
            &&& remembered(operations).entries[name].network.network_name == name
            &&& remembered(operations).times.contains_key(name)
        },
{
    law_memory_is_always_well_formed(operations);
}

} // verus!
