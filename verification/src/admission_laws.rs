//! What is promised of a connection that asks to be let in, from its request to the
//! record that serves it.
use crate::admission::{
    AdmissionView, ConnRequest, EnteredView, Reply, ReplyView, RequestView, Step, StepView,
};
use crate::conversation::{Conversation, ConversationView};
use crate::data::DataView;
use crate::error::ErrorView;
use crate::identity::PeerId;
use crate::manager::ForeignNetworkManager;
use crate::packet::{
    packet_action, NextHopPolicy, PacketAction, PacketInfo, PacketType, PeerManagerHeader,
};
use crate::tables::clock;
use crate::verdict::{
    clears_peers, clears_update, comes_to, entered, evicts_peers, gives_network, last_step,
    law_only_the_permitted_enter, law_verdict, stores_online, Replies,
};
use vstd::prelude::*;

verus! {

/// A connection begins on its way as what it is: the same peer of the same network,
/// with its data relayed exactly if its network is on the list, whether or not there
/// is a database, and with no limit and the usual addresses until the database says
/// otherwise. It is turned away at once, with the reason that the list gives,
/// exactly if its network is not on the list and signalling is not relayed for all.
pub proof fn law_conversation_begins_with_the_request(
    manager: ForeignNetworkManager,
    request: ConnRequest,
    conversation: Conversation,
)
    requires
        call_ensures(ForeignNetworkManager::add_peer_conn, (&manager, request), conversation),
    ensures
        ({
            let asked = AdmissionView {
                network: request.network@,
                peer_id: request.peer_id,
                relay_data: request.whitelisted is Ok,
                has_pool: manager.has_pool,
                peer_map: request.peer_map,
                clients_limit: i32::MAX,
                need_update: false,
                ip_range: "192.168.100.0"@,
            };
            let relayed = request.whitelisted is Ok || request.relay_all_peer_rpc;
            let step = conversation@.step;
            &&& !relayed ==> step == StepView::Refuse(request.whitelisted->Err_0@)
            &&& relayed && manager.has_pool ==> step == StepView::AcquireConn(asked)
            &&& relayed && !manager.has_pool ==> step == StepView::Enter(asked)
        }),
        conversation@.request == request@,
        conversation@.has_pool == manager.has_pool,
{
}

/// So it does where the conversation is begun without a manager.
pub proof fn law_conversation_begins_alike(
    request: ConnRequest,
    has_pool: bool,
    conversation: Conversation,
    manager: ForeignNetworkManager,
    managed: Conversation,
)
    requires
        call_ensures(Conversation::begin, (request, has_pool), conversation),
        call_ensures(ForeignNetworkManager::add_peer_conn, (&manager, request), managed),
        manager.has_pool == has_pool,
    ensures
        conversation@.step == managed@.step,
        conversation@.request == managed@.request,
        conversation@.has_pool == managed@.has_pool,
{
}

/// The same of the model.
pub proof fn law_first_step_is_about_the_request(request: RequestView, has_pool: bool)
    ensures
        ({
            let asked = AdmissionView {
                network: request.network,
                peer_id: request.peer_id,
                relay_data: request.whitelisted is Ok,
                has_pool,
                peer_map: request.peer_map,
                clients_limit: i32::MAX,
                need_update: false,
                ip_range: "192.168.100.0"@,
            };
            let relayed = request.whitelisted is Ok || request.relay_all_peer_rpc;
            let step = request.first_step(has_pool);
            &&& !relayed ==> step == StepView::Refuse(request.whitelisted->Err_0)
            &&& relayed && has_pool ==> step == StepView::AcquireConn(asked)
            &&& relayed && !has_pool ==> step == StepView::Enter(asked)
        }),
{
}

/// A connection is let in exactly if: its network is on the list, or signalling is
/// relayed for all; the database, where there is one, can be reached both times, has
/// the network enabled by a 1, has a user with more than no traffic left, computes
/// the digest that the connection shows, or 32 zero bytes where it shows none, and
/// stores the number of peers; the network has fewer peers than its limit, of which
/// a negative one counts back from the greatest number of peers; and the network is
/// served under the identity that the connection shows.
pub proof fn law_who_is_let_in(request: RequestView, has_pool: bool, replies: Replies)
    ensures
        last_step(request.first_step(has_pool), replies) is AddConn <==> {
            &&& request.whitelisted is Ok || request.relay_all_peer_rpc
            &&& has_pool ==> {
                &&& replies.conn is Ok
                &&& replies.enabled == Some(1i32)
                &&& replies.remaining_traffic is Some
                &&& replies.remaining_traffic->0 > 0
                &&& match request.network.network_secret_digest {
                    Some(shown) => replies.digest == shown,
                    None => replies.digest == Seq::new(32, |i: int| 0u8),
                }
                &&& replies.online_conn is Ok
                &&& replies.stored
            }
            &&& !has_pool ==> replies.peers < i32::MAX
            &&& has_pool && replies.settings.clients_limit >= 0 ==> replies.peers
                < replies.settings.clients_limit
            &&& has_pool && replies.settings.clients_limit < 0 ==> replies.peers
                - replies.settings.clients_limit <= usize::MAX
            &&& replies.same_identity
        },
        !(last_step(request.first_step(has_pool), replies) is AddConn) ==> last_step(
            request.first_step(has_pool),
            replies,
        ) is Refuse,
{
    law_verdict(request, has_pool, replies);
    assert(Seq::new(32, |i: int| 0u8) =~= request.network.digest_or_zero()
        || request.network.network_secret_digest is Some);
}

/// A connection that is turned away is answered with the first reason against it:
/// that of the list, then those of the database in the order in which it is asked,
/// then that the network is full, then those of storing the number of peers, and
/// last the two identities that differ.
pub proof fn law_first_reason_is_given(request: RequestView, has_pool: bool, replies: Replies)
    requires
        last_step(request.first_step(has_pool), replies) is Refuse,
    ensures
        ({
            let error = last_step(request.first_step(has_pool), replies)->Refuse_0;
            let relayed = request.whitelisted is Ok || request.relay_all_peer_rpc;
            let found = relayed && replies.conn is Ok && replies.enabled is Some;
            let enabled = found && replies.enabled->0 == 1;
            let known = enabled && replies.remaining_traffic is Some;
            let paid = known && replies.remaining_traffic->0 > 0;
            let same_digest = match request.network.network_secret_digest {
                Some(shown) => replies.digest == shown,
                None => replies.digest == Seq::new(32, |i: int| 0u8),
            };
            let permitted = relayed && (has_pool ==> paid && same_digest);
            let room = permitted && if !has_pool {
                replies.peers < i32::MAX
            } else if replies.settings.clients_limit >= 0 {
                replies.peers < replies.settings.clients_limit
            } else {
                replies.peers - replies.settings.clients_limit <= usize::MAX
            };
            let stored = room && (has_pool ==> replies.online_conn is Ok && replies.stored);
            &&& !relayed ==> error == request.whitelisted->Err_0
            &&& relayed && has_pool && replies.conn is Err ==> error == ErrorView::DbError(
                replies.conn->Err_0,
            )
            &&& relayed && has_pool && replies.conn is Ok && !found ==> error
                == ErrorView::DbError("找不到网络"@)
            &&& has_pool && found && !enabled ==> error == ErrorView::DbError("网络已被禁用"@)
            &&& has_pool && enabled && !known ==> error == ErrorView::DbError("获取用户流量失败"@)
            &&& has_pool && known && !paid ==> error == ErrorView::DbError("用户流量已用完"@)
            &&& has_pool && paid && !same_digest ==> error == ErrorView::DbError("网络密钥不匹配"@)
            &&& permitted && !room ==> error == ErrorView::DbError("房间用户数超限"@)
            &&& room && has_pool && replies.online_conn is Err ==> error == ErrorView::DbError(
                replies.online_conn->Err_0,
            )
            &&& room && has_pool && replies.online_conn is Ok && !stored ==> error
                == ErrorView::DbError("更新网络用户数失败"@)
            &&& stored ==> {
                &&& !replies.same_identity
                &&& error matches ErrorView::NetworkSecretNotMatch { expected, shown } ==> {
                    &&& shown == request.network
                    &&& replies.data.entries.contains_key(request.network.network_name)
                        ==> expected == replies.data.entries[request.network.network_name].network
                    &&& !replies.data.entries.contains_key(request.network.network_name)
                        ==> expected == request.network
                }
                &&& error is NetworkSecretNotMatch
            }
        }),
{
    law_verdict(request, has_pool, replies);
    assert(Seq::new(32, |i: int| 0u8) =~= request.network.digest_or_zero()
        || request.network.network_secret_digest is Some);
}

/// A connection that is let in is the one that asked, and it is served by the record
/// that its network already has. Only where the network has none is a record made:
/// with the identity that the connection shows, for the peer that this node is, with
/// the peer map that was given, with its data relayed exactly if the network is on
/// the list, and with the addresses of the database where it hands out any.
pub proof fn law_what_a_connection_is_let_in_with(
    request: RequestView,
    has_pool: bool,
    replies: Replies,
)
    requires
        last_step(request.first_step(has_pool), replies) is AddConn,
    ensures
        ({
            let inside = last_step(request.first_step(has_pool), replies)->AddConn_0;
            let name = request.network.network_name;
            &&& inside.admission.network == request.network
            &&& inside.admission.peer_id == request.peer_id
            &&& inside.new_added <==> !replies.data.entries.contains_key(name)
            &&& !inside.new_added ==> inside.entry == replies.data.entries[name]
            &&& inside.new_added ==> {
                &&& inside.entry.network == request.network
                &&& inside.entry.my_peer_id == replies.my_peer_id
                &&& inside.entry.peer_map == request.peer_map
                &&& inside.entry.relay_data <==> request.whitelisted is Ok
                &&& has_pool && replies.settings.enable_dhcp == 1 ==> inside.entry.ip_range
                    == replies.ip_range
                &&& !has_pool || replies.settings.enable_dhcp != 1 ==> inside.entry.ip_range
                    == "192.168.100.0"@
            }
        }),
{
    law_verdict(request, has_pool, replies);
}

/// The terms on which a network is asked for, and the record that serves the
/// connection, follow from the request, the settings and the memory in the same way
/// even where the connection is turned away later on.
pub proof fn law_record_is_made_on_the_terms(request: RequestView, has_pool: bool, replies: Replies)
    ensures
        ({
            let inside = entered(request, has_pool, replies);
            let name = request.network.network_name;
            &&& inside.admission.network == request.network
            &&& inside.admission.peer_id == request.peer_id
            &&& inside.admission.has_pool == has_pool
            &&& inside.admission.peer_map == request.peer_map
            &&& inside.admission.relay_data <==> request.whitelisted is Ok
            &&& inside.admission.need_update <==> has_pool && replies.settings.need_update == 1
            &&& has_pool ==> inside.admission.clients_limit == replies.settings.clients_limit
            &&& !has_pool ==> inside.admission.clients_limit == i32::MAX
            &&& inside.new_added <==> !replies.data.entries.contains_key(name)
            &&& !inside.new_added ==> inside.entry == replies.data.entries[name]
            &&& inside.new_added ==> {
                &&& inside.entry.network == request.network
                &&& inside.entry.my_peer_id == replies.my_peer_id
                &&& inside.entry.peer_map == request.peer_map
                &&& inside.entry.relay_data <==> request.whitelisted is Ok
                &&& has_pool && replies.settings.enable_dhcp == 1 ==> inside.entry.ip_range
                    == replies.ip_range
                &&& !has_pool || replies.settings.enable_dhcp != 1 ==> inside.entry.ip_range
                    == "192.168.100.0"@
            }
        }),
{
}

/// The first connection of a network that is on the list gets data relayed, with or
/// without a database: every packet of the network that is for another peer goes on
/// to that peer, those that carry data among them.
pub proof fn law_listed_network_gets_its_data(
    request: RequestView,
    has_pool: bool,
    replies: Replies,
    to_peer_id: PeerId,
    packet_type: PacketType,
    payload_len: usize,
)
    requires
        request.whitelisted is Ok,
        !replies.data.entries.contains_key(request.network.network_name),
        to_peer_id != replies.my_peer_id,
    ensures
        ({
            let entry = entered(request, has_pool, replies).entry;
            let packet = PacketInfo {
                header: Some(PeerManagerHeader { to_peer_id, packet_type }),
                payload_len,
            };
            &&& entry.relay_data
            &&& packet_action(entry.my_peer_id, entry.relay_data, packet)
                == (PacketAction::Forward { to_peer_id, policy: NextHopPolicy::LeastHop })
        }),
{
}

/// A connection is given a network exactly if it may be relayed and the database,
/// where there is one, permits it. Exactly then are peers without a connection
/// cleared; all peers have to leave, and the request for that is taken back, exactly
/// if the database also asks for it by a 1; and the number of peers is stored
/// exactly if there is a database that can be reached again and the network is not
/// full.
pub proof fn law_who_is_given_a_network(request: RequestView, has_pool: bool, replies: Replies)
    ensures
        ({
            let step = request.first_step(has_pool);
            let may = (request.whitelisted is Ok || request.relay_all_peer_rpc) && (has_pool ==> {
                &&& replies.conn is Ok
                &&& replies.enabled == Some(1i32)
                &&& replies.remaining_traffic is Some
                &&& replies.remaining_traffic->0 > 0
                &&& match request.network.network_secret_digest {
                    Some(shown) => replies.digest == shown,
                    None => replies.digest == Seq::new(32, |i: int| 0u8),
                }
            });
            let update = may && has_pool && replies.settings.need_update == 1;
            let room = if replies.settings.clients_limit >= 0 {
                replies.peers < replies.settings.clients_limit
            } else {
                replies.peers - replies.settings.clients_limit <= usize::MAX
            };
            &&& comes_to(step, replies, gives_network()) <==> may
            &&& comes_to(step, replies, clears_peers()) <==> may
            &&& comes_to(step, replies, evicts_peers()) <==> update
            &&& comes_to(step, replies, clears_update()) <==> update
            &&& comes_to(step, replies, stores_online()) <==> may && has_pool && room
                && replies.online_conn is Ok
        }),
{
    law_only_the_permitted_enter(request, has_pool, replies);
    assert(Seq::new(32, |i: int| 0u8) =~= request.network.digest_or_zero()
        || request.network.network_secret_digest is Some);
}

/// What a conversation has come to is what its step says.
pub proof fn law_conversation_shows_its_step(
    conversation: Conversation,
    shown: &Step,
    last: Step,
)
    requires
        call_ensures(Conversation::step, (&conversation,), shown),
        call_ensures(Conversation::into_step, (conversation,), last),
    ensures
        shown@ == conversation@.step,
        last@ == conversation@.step,
{
}

/// However a conversation was led, where it has come to letting a connection in, all
/// that has to hold of the answers holds of those that were given, and the record is
/// the one that was there, or one that was made as the request, the settings and the
/// memory say.
pub proof fn law_conversation_lets_in_rightly(conversation: Conversation, last: Step)
    requires
        call_ensures(Conversation::into_step, (conversation,), last),
    ensures
        last matches Step::AddConn(inside) ==> {
            let request = conversation@.request;
            let replies = conversation@.replies;
            let name = request.network.network_name;
            &&& request.whitelisted is Ok || request.relay_all_peer_rpc
            &&& conversation@.has_pool ==> {
                &&& replies.conn is Ok
                &&& replies.enabled == Some(1i32)
                &&& replies.remaining_traffic is Some
                &&& replies.remaining_traffic->0 > 0
                &&& request.network.network_secret_digest is Some ==> replies.digest
                    == request.network.network_secret_digest->0
                &&& request.network.network_secret_digest is None ==> replies.digest == Seq::new(
                    32,
                    |i: int| 0u8,
                )
                &&& replies.online_conn is Ok
                &&& replies.stored
                &&& replies.settings.clients_limit >= 0 ==> replies.peers
                    < replies.settings.clients_limit
                &&& replies.settings.clients_limit < 0 ==> replies.peers
                    - replies.settings.clients_limit <= usize::MAX
            }
            &&& !conversation@.has_pool ==> replies.peers < i32::MAX
            &&& replies.same_identity
            &&& inside.admission.network@ == request.network
            &&& inside.admission.peer_id == request.peer_id
            &&& inside.new_added <==> !replies.data.entries.contains_key(name)
            &&& !inside.new_added ==> inside.entry@ == replies.data.entries[name]
            &&& inside.new_added ==> {
                &&& inside.entry@.network == request.network
                &&& inside.entry@.my_peer_id == replies.my_peer_id
                &&& inside.entry@.peer_map == request.peer_map
                &&& inside.entry@.relay_data <==> request.whitelisted is Ok
            }
        },
{
    if last is AddConn && conversation@.request.network.network_secret_digest is None {
        assert(Seq::new(32, |i: int| 0u8) =~= conversation@.request.network.digest_or_zero());
    }
}

/// An answer moves a conversation to the step that follows from it, and leaves what
/// the conversation is about as it is. The memory changes at most when a connection
/// is given a network, and when identities are compared.
pub proof fn law_answer_moves_the_conversation(
    manager: &mut ForeignNetworkManager,
    conversation: Conversation,
    reply: Reply,
    next: Conversation,
)
    requires
        call_ensures(ForeignNetworkManager::answer, (manager, conversation, reply), next),
        !(conversation@.step is Enter && reply is Done),
    ensures
        next@.step == conversation@.step.answered(reply@),
        next@.request == conversation@.request,
        next@.has_pool == conversation@.has_pool,
        !(conversation@.step is CompareIdentity && reply is SameIdentity) ==> final(manager).data@
            == old(manager).data@,
        final(manager).my_peer_id == old(manager).my_peer_id,
        final(manager).has_pool == old(manager).has_pool,
{
}

/// A connection that is given a network gets the record that the network has, and
/// is not the first. Where there is none, a record is made on the connection's own
/// terms and the network has to be prepared. Either way the record, the peer and
/// the time that the clock shows are remembered, and everything else stays as it
/// was.
pub proof fn law_connection_is_given_its_network(
    manager: &mut ForeignNetworkManager,
    conversation: Conversation,
    next: Conversation,
    other: Seq<char>,
    other_peer: PeerId,
)
    requires
        call_ensures(ForeignNetworkManager::answer, (manager, conversation, Reply::Done), next),
        conversation@.step is Enter,
    ensures
        ({
            let admission = conversation@.step->Enter_0;
            let name = admission.network.network_name;
            let before = old(manager).data@;
            let after = final(manager).data@;
            let served = before.entries.contains_key(name);
            &&& served ==> next@.step == StepView::CleanPeerWithoutConn(
                EnteredView { admission, entry: before.entries[name], new_added: false },
            )
            &&& served ==> after.entries.get(name) == before.entries.get(name)
            &&& !served ==> next@.step is Prepare
            &&& !served ==> {
                let inside = next@.step->Prepare_0;
                &&& inside.admission == admission
                &&& inside.new_added
                &&& inside.entry.network == admission.network
                &&& inside.entry.my_peer_id == old(manager).my_peer_id
                &&& inside.entry.peer_map == admission.peer_map
                &&& inside.entry.relay_data == admission.relay_data
                &&& inside.entry.ip_range == admission.ip_range
                &&& after.entries.get(name) == Some(inside.entry)
            }
            &&& after.networks.get(admission.peer_id) == Some(name)
            &&& after.times.contains_key(name)
            &&& call_ensures(clock, (), after.times[name])
            &&& other != name ==> after.entries.get(other) == before.entries.get(other)
            &&& other != name ==> after.times.get(other) == before.times.get(other)
            &&& other_peer != admission.peer_id ==> after.networks.get(other_peer)
                == before.networks.get(other_peer)
        }),
        next@.request == conversation@.request,
        next@.has_pool == conversation@.has_pool,
        final(manager).my_peer_id == old(manager).my_peer_id,
        final(manager).has_pool == old(manager).has_pool,
{
}

/// Where the identities differ and the record is new, the network is forgotten with
/// its time and with all peers that came with it, and nothing else is. In every
/// other case the memory stays as it is.
pub proof fn law_differing_new_record_is_forgotten(
    manager: &mut ForeignNetworkManager,
    conversation: Conversation,
    same: bool,
    next: Conversation,
    other: Seq<char>,
    peer_id: PeerId,
)
    requires
        call_ensures(
            ForeignNetworkManager::answer,
            (manager, conversation, Reply::SameIdentity(same)),
            next,
        ),
        conversation@.step is CompareIdentity,
    ensures
        ({
            let inside = conversation@.step->CompareIdentity_0;
            let name = inside.entry.network.network_name;
            let before = old(manager).data@;
            let after = final(manager).data@;
            &&& same || !inside.new_added ==> after == before
            &&& !same && inside.new_added ==> {
                &&& !after.entries.contains_key(name)
                &&& !after.times.contains_key(name)
                &&& other != name ==> after.entries.get(other) == before.entries.get(other)
                &&& other != name ==> after.times.get(other) == before.times.get(other)
                &&& after.networks.get(peer_id) == if before.networks.get(peer_id) == Some(name) {
                    None
                } else {
                    before.networks.get(peer_id)
                }
            }
        }),
        final(manager).my_peer_id == old(manager).my_peer_id,
        final(manager).has_pool == old(manager).has_pool,
{
}

/// A conversation can be answered by whatever came of its step, unless more peers
/// would have to be stored than can be counted.
pub proof fn law_conversations_can_be_answered(
    manager: &mut ForeignNetworkManager,
    conversation: Conversation,
    reply: Reply,
)
    requires
        !(conversation@.step is CountOnline && reply == Reply::PeerCount(usize::MAX)),
    ensures
        call_requires(ForeignNetworkManager::answer, (manager, conversation, reply)),
{
}

/// What is answered to a step is noted as the answer to that step and to no other,
/// and an answer of another kind is not noted at all.
pub proof fn law_answers_are_noted(
    conversation: ConversationView,
    reply: ReplyView,
    data: DataView,
    my_peer_id: PeerId,
)
    ensures
        ({
            let before = conversation.replies;
            let after = conversation.answered(reply, data, my_peer_id).replies;
            let step = conversation.step;
            &&& after.conn == if step is AcquireConn && reply is Conn {
                reply->Conn_0
            } else {
                before.conn
            }
            &&& after.enabled == if step is FetchNetwork && reply is Network {
                reply->Network_0
            } else {
                before.enabled
            }
            &&& after.user_id == if step is ReadUserId && reply is UserId {
                reply->UserId_0
            } else {
                before.user_id
            }
            &&& after.remaining_traffic == if step is FetchTraffic && reply is Traffic {
                reply->Traffic_0
            } else {
                before.remaining_traffic
            }
            &&& after.password == if step is ReadPassword && reply is Password {
                reply->Password_0
            } else {
                before.password
            }
            &&& after.digest == if step is DigestSecret && reply is SecretDigest {
                reply->SecretDigest_0
            } else {
                before.digest
            }
            &&& after.settings == if step is ReadSettings && reply is Settings {
                reply->Settings_0
            } else {
                before.settings
            }
            &&& after.ip_range == if step is ReadIpRange && reply is IpRange {
                reply->IpRange_0
            } else {
                before.ip_range
            }
            &&& after.data == if step is Enter && reply is Done { data } else { before.data }
            &&& after.my_peer_id == if step is Enter && reply is Done {
                my_peer_id
            } else {
                before.my_peer_id
            }
            &&& after.peers == if step is CountPeers && reply is PeerCount {
                reply->PeerCount_0
            } else {
                before.peers
            }
            &&& after.online_conn == if step is AcquireOnlineConn && reply is Conn {
                reply->Conn_0
            } else {
                before.online_conn
            }
            &&& after.online == if step is CountOnline && reply is PeerCount {
                reply->PeerCount_0
            } else {
                before.online
            }
            &&& after.stored == if step is StoreOnline && reply is Stored {
                reply->Stored_0
            } else {
                before.stored
            }
            &&& after.same_identity == if step is CompareIdentity && reply is SameIdentity {
                reply->SameIdentity_0
            } else {
                before.same_identity
            }
        }),
{
}

} // verus!
