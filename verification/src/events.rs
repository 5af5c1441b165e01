//! How the memory of a network follows what happens to its peers.
use crate::data::DataView;
use crate::identity::{PeerId, PeerMapId};
use crate::manager::ForeignNetworkManager;
use crate::tables::clock;
use std::time::SystemTime;
use vstd::prelude::*;

verus! {

/// What happened in a network.
#[derive(Debug, Clone, Copy, PartialEq, Eq, Structural)]
pub enum GlobalCtxEvent {
    PeerAdded(PeerId),
    PeerRemoved(PeerId),
    PeerConnRemoved,
    Other,
}

/// What has to be done about it.
#[derive(Debug, Clone, Copy, PartialEq, Eq, Structural)]
pub enum EventAction {
    /// Nothing but to wait for the next event.
    Wait,
    /// The peer map has to be cleared of the peers that have no connection.
    CleanPeerWithoutConn(PeerMapId),
    /// No more events are to be waited for.
    Stop,
}

/// The memory after an event in the network `name`, or after the end of the
/// events. `idle` are the peer maps that hold no peer.
pub open spec fn after_event(
    data: DataView,
    name: Seq<char>,
    event: Option<GlobalCtxEvent>,
    idle: Seq<PeerMapId>,
    now: SystemTime,
) -> DataView {
    match event {
        Some(GlobalCtxEvent::PeerRemoved(peer_id)) => data.without_peer(
            peer_id,
            name,
            idle,
        ).touched(name, now),
        Some(GlobalCtxEvent::PeerAdded(_)) => data.touched(name, now),
        Some(_) => data,
        None => data.without_network(name),
    }
}

/// What has to be done after an event in the network `name`, or after the end of
/// the events.
pub open spec fn event_action(
    data: DataView,
    name: Seq<char>,
    event: Option<GlobalCtxEvent>,
) -> EventAction {
    match event {
        Some(GlobalCtxEvent::PeerConnRemoved) => if data.entries.contains_key(name) {
            EventAction::CleanPeerWithoutConn(data.entries[name].peer_map)
        } else {
            EventAction::Wait
        },
        Some(_) => EventAction::Wait,
        None => EventAction::Stop,
    }
}

impl ForeignNetworkManager {
    /// Follows an event that happened in the network at the time `now`, or the
    /// end of its events. `idle` are the peer maps that hold no peer.
    pub fn handle_event_at(
        &mut self,
        network_name: &String,
        event: Option<GlobalCtxEvent>,
        idle: &Vec<PeerMapId>,
        now: SystemTime,
    ) -> (action: EventAction)
        ensures
            final(self).data@ == after_event(old(self).data@, network_name@, event, idle@, now),
            action == event_action(old(self).data@, network_name@, event),
            final(self).my_peer_id == old(self).my_peer_id,
            final(self).has_pool == old(self).has_pool,
            old(self).wf() ==> final(self).wf(),
    {
        match event {
            Some(GlobalCtxEvent::PeerRemoved(peer_id)) => {
                self.data.remove_peer(peer_id, network_name, idle);
                self.data.touch(network_name, now);
                EventAction::Wait
            },
            Some(GlobalCtxEvent::PeerConnRemoved) => match self.data.clear_no_conn_peer(
                network_name,
            ) {
                Some(peer_map) => EventAction::CleanPeerWithoutConn(peer_map),
                None => EventAction::Wait,
            },
            Some(GlobalCtxEvent::PeerAdded(_)) => {
                self.data.touch(network_name, now);
                EventAction::Wait
            },
            Some(GlobalCtxEvent::Other) => EventAction::Wait,
            None => {
                self.data.remove_network(network_name);
                EventAction::Stop
            },
        }
    }

    /// [`Self::handle_event_at`], at the time that [`clock`] shows.
    pub fn handle_event(
        &mut self,
        network_name: &String,
        event: Option<GlobalCtxEvent>,
        idle: &Vec<PeerMapId>,
    ) -> (action: EventAction)
        ensures
            exists|now: SystemTime|
                final(self).data@ == #[trigger] after_event(
                    old(self).data@,
                    network_name@,
                    event,
                    idle@,
                    now,
                ) && call_ensures(clock, (), now),
            action == event_action(old(self).data@, network_name@, event),
            final(self).my_peer_id == old(self).my_peer_id,
            final(self).has_pool == old(self).has_pool,
            old(self).wf() ==> final(self).wf(),
    {
        let now = clock();
        self.handle_event_at(network_name, event, idle, now)
    }
}

} // verus!
