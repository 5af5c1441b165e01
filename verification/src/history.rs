//! What holds of the memory after any sequence of its operations.
use crate::data::DataView;
use crate::entry::EntryView;
use crate::events::{after_event, GlobalCtxEvent};
use crate::identity::{PeerId, PeerMapId};
use std::time::SystemTime;
use vstd::prelude::*;

verus! {

/// An operation on the memory.
pub enum Operation {
    /// A peer comes with a network.
    Join { fresh: EntryView, peer_id: PeerId, now: SystemTime },
    /// A peer leaves a network.
    Leave { peer_id: PeerId, name: Seq<char>, idle: Seq<PeerMapId> },
    /// A network is removed.
    Remove { name: Seq<char> },
    /// Something changes in a network.
    Touch { name: Seq<char>, now: SystemTime },
    /// The manager closes down.
    CloseDown,
}

/// The memory after an operation.
pub open spec fn applied(data: DataView, operation: Operation) -> DataView {
    match operation {
        Operation::Join { fresh, peer_id, now } => data.joined(fresh, peer_id, now),
        Operation::Leave { peer_id, name, idle } => data.without_peer(peer_id, name, idle),
        Operation::Remove { name } => data.without_network(name),
        Operation::Touch { name, now } => data.touched(name, now),
        Operation::CloseDown => data.closed_down(),
    }
}

/// The memory after a sequence of operations, of which nothing was remembered
/// before.
pub open spec fn remembered(operations: Seq<Operation>) -> DataView
    decreases operations.len(),
{
    if operations.len() == 0 {
        DataView::nothing()
    } else {
        applied(remembered(operations.drop_last()), operations.last())
    }
}

/// The time that an operation sets as that of the last change in the network.
pub open spec fn set_time(operation: Operation, name: Seq<char>) -> Option<SystemTime> {
    match operation {
        Operation::Join { fresh, now, .. } => if fresh.network.network_name == name {
            Some(now)
        } else {
            None
        },
        Operation::Touch { name: touched, now } => if touched == name {
            Some(now)
        } else {
            None
        },
        _ => None,
    }
}

/// The operation makes it forgotten when something last changed in the network: it
/// removes the network, or it takes the last peer from it.
pub open spec fn forgets_time(data: DataView, operation: Operation, name: Seq<char>) -> bool {
    match operation {
        Operation::Remove { name: removed } => removed == name,
        Operation::Leave { name: left, idle, .. } => left == name && data.served_idly(name, idle),
        _ => false,
    }
}

/// The operation at `k` is the last of the sequence that sets a time for the
/// network, and that time is kept.
pub open spec fn kept_since(operations: Seq<Operation>, name: Seq<char>, k: int) -> bool {
    &&& 0 <= k < operations.len()
    &&& set_time(operations[k], name) == Some(remembered(operations).times[name])
    &&& forall|l: int|
        k < l < operations.len() ==> set_time(#[trigger] operations[l], name) is None
}

/// An operation changes the time of at most the one network that it is about: that
/// a peer comes with it, or that something changes in it, sets its time; that it is
/// removed, or that its last peer leaves, takes its time away; and nothing else
/// adds, changes or takes away any time.
pub proof fn law_times_change_by_their_operations(
    data: DataView,
    operation: Operation,
    name: Seq<char>,
)
    ensures
        applied(data, operation).times.get(name) == match set_time(operation, name) {
            Some(now) => Some(now),
            None => if forgets_time(data, operation, name) {
                None
            } else {
                data.times.get(name)
            },
        },
{
}

/// What an event in a network, or the end of its events, does to the memory.
pub open spec fn operations_of_event(
    name: Seq<char>,
    event: Option<GlobalCtxEvent>,
    idle: Seq<PeerMapId>,
    now: SystemTime,
) -> Seq<Operation> {
    match event {
        Some(GlobalCtxEvent::PeerRemoved(peer_id)) => seq![
            Operation::Leave { peer_id, name, idle },
            Operation::Touch { name, now },
        ],
        Some(GlobalCtxEvent::PeerAdded(_)) => seq![Operation::Touch { name, now }],
        Some(_) => seq![],
        None => seq![Operation::Remove { name }],
    }
}

/// What is remembered after an event is what is remembered after its operations.
pub proof fn law_events_are_operations(
    operations: Seq<Operation>,
    name: Seq<char>,
    event: Option<GlobalCtxEvent>,
    idle: Seq<PeerMapId>,
    now: SystemTime,
)
    ensures
        remembered(operations + operations_of_event(name, event, idle, now)) == after_event(
            remembered(operations),
            name,
            event,
            idle,
            now,
        ),
{
    reveal_with_fuel(remembered, 3);
    let further = operations_of_event(name, event, idle, now);
    let all = operations + further;
    if further.len() == 0 {
        assert(all =~= operations);
    } else if further.len() == 1 {
        assert(all.drop_last() =~= operations);
    } else {
        assert(all.drop_last() =~= operations.push(further[0]));
        assert(operations.push(further[0]).drop_last() =~= operations);
    }
}

/// What happens in a network adds a time for no other network.
pub proof fn law_events_add_only_their_own_time(
    data: DataView,
    name: Seq<char>,
    event: Option<GlobalCtxEvent>,
    idle: Seq<PeerMapId>,
    now: SystemTime,
    other: Seq<char>,
)
    ensures
        ({
            let after = after_event(data, name, event, idle, now);
            after.times.contains_key(other) ==> {
                ||| data.times.get(other) == after.times.get(other)
                ||| other == name && after.times[other] == now
            }
        }),
{
}

/// A time that is kept of a network was set by an operation, and by no earlier one
/// than the last that set one for the network.
pub proof fn law_kept_time_comes_from_the_last_call(operations: Seq<Operation>, name: Seq<char>)
    requires
        remembered(operations).times.contains_key(name),
    ensures
        exists|k: int| kept_since(operations, name, k),
    decreases operations.len(),
{
    if operations.len() > 0 {
        let before = operations.drop_last();
        let last = operations.len() - 1;
        law_times_change_by_their_operations(remembered(before), operations.last(), name);
        if set_time(operations.last(), name) is Some {
            assert(kept_since(operations, name, last));
        } else {
            law_kept_time_comes_from_the_last_call(before, name);
            let k = choose|k: int| kept_since(before, name, k);
            assert forall|l: int| k < l < operations.len() implies set_time(
                #[trigger] operations[l],
                name,
            ) is None by {
                if l < last {
                    assert(operations[l] == before[l]);
                }
            }
            assert(operations[k] == before[k]);
            assert(kept_since(operations, name, k));
        }
    }
}

/// After an operation that set a time for a network, as long as none makes it
/// forgotten, a time is kept of the network, and it was set by that operation or by
/// a later one.
pub proof fn law_kept_time_is_not_older_than_the_call(
    operations: Seq<Operation>,
    i: int,
    name: Seq<char>,
)
    requires
        0 <= i < operations.len(),
        set_time(operations[i], name) is Some,
        forall|j: int|
            i < j < operations.len() ==> !forgets_time(
                remembered(operations.take(j)),
                #[trigger] operations[j],
                name,
            ),
    ensures
        remembered(operations).times.contains_key(name),
        exists|k: int| i <= k && kept_since(operations, name, k),
    decreases operations.len(),
{
    let before = operations.drop_last();
    let last = operations.len() - 1;
    law_times_change_by_their_operations(remembered(before), operations.last(), name);
    if i < last {
        assert forall|j: int| i < j < before.len() implies !forgets_time(
            remembered(before.take(j)),
            #[trigger] before[j],
            name,
        ) by {
            assert(before.take(j) =~= operations.take(j));
            assert(before[j] == operations[j]);
        }
        assert(before[i] == operations[i]);
        law_kept_time_is_not_older_than_the_call(before, i, name);
        assert(operations.take(last) =~= before);
        assert(!forgets_time(remembered(operations.take(last)), operations[last], name));
    }
    law_kept_time_comes_from_the_last_call(operations, name);
    let k = choose|k: int| kept_since(operations, name, k);
    if k < i {
        assert(set_time(operations[i], name) is None);
    }
    assert(i <= k && kept_since(operations, name, k));
}

/// Of a network with which no peer ever came, and in which nothing ever changed, no
/// time is kept.
pub proof fn law_network_without_call_has_no_time(operations: Seq<Operation>, name: Seq<char>)
    requires
        forall|i: int|
            0 <= i < operations.len() ==> set_time(#[trigger] operations[i], name) is None,
    ensures
        !remembered(operations).times.contains_key(name),
{
    if remembered(operations).times.contains_key(name) {
        law_kept_time_comes_from_the_last_call(operations, name);
        let k = choose|k: int| kept_since(operations, name, k);
        assert(set_time(operations[k], name) is None);
    }
}

/// Whatever happened, every record stands under the name of its own network, and of
/// every network that is served it is known when it last changed.
pub proof fn law_memory_is_always_well_formed(operations: Seq<Operation>)
    ensures
        remembered(operations).wf(),
    decreases operations.len(),
{
    if operations.len() > 0 {
        law_memory_is_always_well_formed(operations.drop_last());
    }
}

} // verus!
