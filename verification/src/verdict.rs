//! How the conversation about a connection ends.
use crate::admission::{
    client_cap, AdmissionView, EnteredView, NetworkSettings, ReplyView, RequestView, StepView,
};
use crate::data::DataView;
use crate::error::ErrorView;
use crate::identity::PeerId;
use crate::packet::{packet_action, PacketAction, PacketInfo, PacketType, PeerManagerHeader};
use vstd::prelude::*;

verus! {

/// What is answered to each step of a conversation, if the step is reached.
pub struct Replies {
    /// Whether there is a connection to the database, or why not.
    pub conn: Result<(), Seq<char>>,
    pub enabled: Option<i32>,
    pub user_id: Seq<char>,
    pub remaining_traffic: Option<i64>,
    /// The network's password.
    pub password: Seq<char>,
    /// The digest of the network's name and password.
    pub digest: Seq<u8>,
    pub settings: NetworkSettings,
    pub ip_range: Seq<char>,
    /// What is remembered when the connection is given a network.
    pub data: DataView,
    pub my_peer_id: PeerId,
    /// How many peers the network has.
    pub peers: usize,
    /// Whether there is another connection to the database, or why not.
    pub online_conn: Result<(), Seq<char>>,
    /// How many peers the network has when their number is stored.
    pub online: usize,
    /// Whether the number could be stored.
    pub stored: bool,
    /// Whether the network is served under the identity that the connection shows.
    pub same_identity: bool,
}

impl Replies {
    /// What is answered to the given step.
    pub open spec fn to(self, step: StepView) -> ReplyView {
        match step {
            StepView::AcquireConn(_) => ReplyView::Conn(self.conn),
            StepView::FetchNetwork(_, _) => ReplyView::Network(self.enabled),
            StepView::ReadUserId(_) => ReplyView::UserId(self.user_id),
            StepView::FetchTraffic(_, _) => ReplyView::Traffic(self.remaining_traffic),
            StepView::ReadPassword(_) => ReplyView::Password(self.password),
            StepView::DigestSecret(_, _, _) => ReplyView::SecretDigest(self.digest),
            StepView::ReadSettings(_) => ReplyView::Settings(self.settings),
            StepView::ReadIpRange(_) => ReplyView::IpRange(self.ip_range),
            StepView::CountPeers(_) => ReplyView::PeerCount(self.peers),
            StepView::AcquireOnlineConn(_) => ReplyView::Conn(self.online_conn),
            StepView::CountOnline(_) => ReplyView::PeerCount(self.online),
            StepView::StoreOnline(_, _) => ReplyView::Stored(self.stored),
            StepView::CompareIdentity(_) => ReplyView::SameIdentity(self.same_identity),
            _ => ReplyView::Done,
        }
    }
}

/// The step that follows.
pub open spec fn next_step(step: StepView, replies: Replies) -> StepView {
    match step {
        StepView::Enter(admission) => replies.data.entering(
            admission,
            replies.my_peer_id,
        ).after_entering(),
        _ => step.answered(replies.to(step)),
    }
}

/// How many steps can follow at most.
pub open spec fn steps_left(step: StepView) -> nat {
    match step {
        StepView::Refuse(_) => 0,
        StepView::AcquireConn(_) => 19,
        StepView::FetchNetwork(_, _) => 18,
        StepView::ReadUserId(_) => 17,
        StepView::FetchTraffic(_, _) => 16,
        StepView::ReadPassword(_) => 15,
        StepView::DigestSecret(_, _, _) => 14,
        StepView::ReadSettings(_) => 13,
        StepView::ReadIpRange(_) => 12,
        StepView::ClearNeedUpdate(_, _) => 11,
        StepView::Enter(_) => 10,
        StepView::Prepare(_) => 9,
        StepView::CleanPeerWithoutConn(_) => 8,
        StepView::CleanAllPeers(_) => 7,
        StepView::CountPeers(_) => 6,
        StepView::AcquireOnlineConn(_) => 5,
        StepView::CountOnline(_) => 4,
        StepView::StoreOnline(_, _) => 3,
        StepView::CompareIdentity(_) => 2,
        StepView::StartEventHandler(_) => 1,
        StepView::AddConn(_) => 0,
    }
}

/// The last step of the conversation that goes on with the given one.
pub open spec fn last_step(step: StepView, replies: Replies) -> StepView
    decreases steps_left(step),
{
    if steps_left(step) == 0 {
        step
    } else {
        last_step(next_step(step, replies), replies)
    }
}

/// Under what terms a connection asks for a network, once the database has been
/// asked.
pub open spec fn terms(request: RequestView, has_pool: bool, replies: Replies) -> AdmissionView {
    let asked = request.admission(has_pool);
    if has_pool {
        AdmissionView {
            clients_limit: replies.settings.clients_limit,
            need_update: replies.settings.need_update == 1,
            ip_range: if replies.settings.enable_dhcp == 1 {
                replies.ip_range
            } else {
                asked.ip_range
            },
            ..asked
        }
    } else {
        asked
    }
}

/// The connection with the record that serves it.
pub open spec fn entered(request: RequestView, has_pool: bool, replies: Replies) -> EnteredView {
    replies.data.entering(terms(request, has_pool, replies), replies.my_peer_id)
}

/// The database lets the connection into the network: the network is enabled,
/// its user has traffic left, and the peer knows the network's password.
pub open spec fn has_permission(request: RequestView, replies: Replies) -> bool {
    &&& replies.conn is Ok
    &&& replies.enabled == Some(1i32)
    &&& replies.remaining_traffic matches Some(remaining)
    &&& remaining > 0
    &&& replies.digest == request.network.digest_or_zero()
}

/// The number of peers that the network will have could be stored.
pub open spec fn is_stored(replies: Replies) -> bool {
    replies.online_conn is Ok && replies.stored
}

/// The connection is let in.
pub open spec fn is_let_in(request: RequestView, has_pool: bool, replies: Replies) -> bool {
    &&& request.is_relayed()
    &&& has_pool ==> has_permission(request, replies)
    &&& replies.peers < client_cap(terms(request, has_pool, replies).clients_limit)
    &&& has_pool ==> is_stored(replies)
    &&& replies.same_identity
}

/// Why a connection is turned away that the database does not let in.
pub open spec fn denial(request: RequestView, replies: Replies) -> ErrorView {
    if replies.conn is Err {
        ErrorView::DbError(replies.conn->Err_0)
    } else if replies.enabled is None {
        ErrorView::DbError("找不到网络"@)
    } else if replies.enabled != Some(1i32) {
        ErrorView::DbError("网络已被禁用"@)
    } else if replies.remaining_traffic is None {
        ErrorView::DbError("获取用户流量失败"@)
    } else if replies.remaining_traffic->0 <= 0 {
        ErrorView::DbError("用户流量已用完"@)
    } else {
        ErrorView::DbError("网络密钥不匹配"@)
    }
}

/// Why a connection is turned away that is not let in: the first reason of those
/// that hold.
pub open spec fn reason(request: RequestView, has_pool: bool, replies: Replies) -> ErrorView {
    if !request.is_relayed() {
        request.whitelisted->Err_0
    } else if has_pool && !has_permission(request, replies) {
        denial(request, replies)
    } else if replies.peers >= client_cap(terms(request, has_pool, replies).clients_limit) {
        ErrorView::DbError("房间用户数超限"@)
    } else if has_pool && replies.online_conn is Err {
        ErrorView::DbError(replies.online_conn->Err_0)
    } else if has_pool && !replies.stored {
        ErrorView::DbError("更新网络用户数失败"@)
    } else {
        ErrorView::NetworkSecretNotMatch {
            expected: entered(request, has_pool, replies).entry.network,
            shown: request.network,
        }
    }
}

/// Every conversation ends: the connection is let in or turned away.
pub proof fn law_conversation_ends(step: StepView, replies: Replies)
    ensures
        last_step(step, replies) is AddConn || last_step(step, replies) is Refuse,
    decreases steps_left(step),
{
    if steps_left(step) != 0 {
        law_conversation_ends(next_step(step, replies), replies);
    }
}

/// How the conversation ends once the database has been asked.
proof fn lemma_from_enter(request: RequestView, has_pool: bool, replies: Replies)
    requires
        request.is_relayed(),
        has_pool ==> has_permission(request, replies),
    ensures
        last_step(StepView::Enter(terms(request, has_pool, replies)), replies) == if is_let_in(
            request,
            has_pool,
            replies,
        ) {
            StepView::AddConn(entered(request, has_pool, replies))
        } else {
            StepView::Refuse(reason(request, has_pool, replies))
        },
{
    reveal_with_fuel(last_step, 11);
}

/// How the conversation ends once the database has been asked for the secret.
proof fn lemma_from_settings(request: RequestView, replies: Replies)
    requires
        request.is_relayed(),
        has_permission(request, replies),
    ensures
        last_step(StepView::ReadSettings(request.admission(true)), replies) == if is_let_in(
            request,
            true,
            replies,
        ) {
            StepView::AddConn(entered(request, true, replies))
        } else {
            StepView::Refuse(reason(request, true, replies))
        },
{
    lemma_from_enter(request, true, replies);
    let asked = request.admission(true);
    let with = asked.with_settings(replies.settings);
    let settled = terms(request, true, replies);
    reveal_with_fuel(last_step, 4);
    if replies.settings.enable_dhcp == 1 {
        assert(settled =~= (AdmissionView { ip_range: replies.ip_range, ..with }));
    } else {
        assert(settled =~= with);
    }
}

/// A connection is let in exactly when its network may be relayed, the database,
/// where there is one, permits it and has stored the number of peers, the network
/// is not full, and the network is served under the same identity. Otherwise the
/// connection is answered with the first reason against it.
pub proof fn law_verdict(request: RequestView, has_pool: bool, replies: Replies)
    ensures
        last_step(request.first_step(has_pool), replies) == if is_let_in(
            request,
            has_pool,
            replies,
        ) {
            StepView::AddConn(entered(request, has_pool, replies))
        } else {
            StepView::Refuse(reason(request, has_pool, replies))
        },
{
    if !request.is_relayed() {
    } else if !has_pool {
        lemma_from_enter(request, has_pool, replies);
    } else {
        reveal_with_fuel(last_step, 8);
        if has_permission(request, replies) {
            lemma_from_settings(request, replies);
        }
    }
}

/// The conversation that goes on with the given step comes to one of the marked
/// steps.
pub open spec fn comes_to(step: StepView, replies: Replies, marked: spec_fn(StepView) -> bool) -> bool
    decreases steps_left(step),
{
    marked(step) || steps_left(step) != 0 && comes_to(next_step(step, replies), replies, marked)
}

/// The step in which a connection is given a network.
pub open spec fn gives_network() -> spec_fn(StepView) -> bool {
    |step: StepView| step is Enter
}

/// The step in which peers without a connection are cleared from a network.
pub open spec fn clears_peers() -> spec_fn(StepView) -> bool {
    |step: StepView| step is CleanPeerWithoutConn
}

/// The step in which all peers of a network have to leave it.
pub open spec fn evicts_peers() -> spec_fn(StepView) -> bool {
    |step: StepView| step is CleanAllPeers
}

/// The step in which the database takes back its request for an update.
pub open spec fn clears_update() -> spec_fn(StepView) -> bool {
    |step: StepView| step is ClearNeedUpdate
}

/// The step in which the number of peers goes into the database.
pub open spec fn stores_online() -> spec_fn(StepView) -> bool {
    |step: StepView| step is StoreOnline
}

/// The number of peers is about to be stored: there is a database with another
/// connection, and the network is not full.
pub open spec fn may_store(admission: AdmissionView, replies: Replies) -> bool {
    &&& admission.has_pool
    &&& replies.peers < client_cap(admission.clients_limit)
    &&& replies.online_conn is Ok
}

/// The connection gets as far as being given a network.
pub open spec fn may_enter(request: RequestView, has_pool: bool, replies: Replies) -> bool {
    request.is_relayed() && (has_pool ==> has_permission(request, replies))
}

proof fn lemma_comes_to_from_enter(admission: AdmissionView, replies: Replies)
    ensures
        ({
            let step = StepView::Enter(admission);
            &&& comes_to(step, replies, gives_network())
            &&& comes_to(step, replies, clears_peers())
            &&& comes_to(step, replies, evicts_peers()) <==> admission.need_update
            &&& !comes_to(step, replies, clears_update())
            &&& comes_to(step, replies, stores_online()) <==> may_store(admission, replies)
        }),
{
    reveal_with_fuel(comes_to, 11);
}

proof fn lemma_comes_to_from_settings(request: RequestView, replies: Replies)
    ensures
        ({
            let step = StepView::ReadSettings(request.admission(true));
            &&& comes_to(step, replies, gives_network())
            &&& comes_to(step, replies, clears_peers())
            &&& comes_to(step, replies, evicts_peers()) <==> replies.settings.need_update == 1
            &&& comes_to(step, replies, clears_update()) <==> replies.settings.need_update == 1
            &&& comes_to(step, replies, stores_online()) <==> may_store(
                terms(request, true, replies),
                replies,
            )
        }),
{
    let with = request.admission(true).with_settings(replies.settings);
    lemma_comes_to_from_enter(with, replies);
    lemma_comes_to_from_enter(AdmissionView { ip_range: replies.ip_range, ..with }, replies);
    reveal_with_fuel(comes_to, 4);
}

/// Only a connection that may be relayed and that the database, where there is
/// one, permits is given a network and has its peers cleared; any other leaves no
/// trace in the memory, no peer has to leave for it, and nothing is written to the
/// database. Of those that are given a network, it is exactly the ones for which
/// the database asks for an update that take the request back and make all peers
/// leave, and exactly the ones that find room that have the number of peers
/// stored, if there is a connection to the database for that.
pub proof fn law_only_the_permitted_enter(request: RequestView, has_pool: bool, replies: Replies)
    ensures
        ({
            let step = request.first_step(has_pool);
            let may = may_enter(request, has_pool, replies);
            let update = may && has_pool && replies.settings.need_update == 1;
            &&& comes_to(step, replies, gives_network()) <==> may
            &&& comes_to(step, replies, clears_peers()) <==> may
            &&& comes_to(step, replies, evicts_peers()) <==> update
            &&& comes_to(step, replies, clears_update()) <==> update
            &&& comes_to(step, replies, stores_online()) <==> may && may_store(
                terms(request, has_pool, replies),
                replies,
            )
        }),
{
    if request.is_relayed() {
        if has_pool {
            reveal_with_fuel(comes_to, 8);
            lemma_comes_to_from_settings(request, replies);
        } else {
            lemma_comes_to_from_enter(request.admission(has_pool), replies);
        }
    }
}

/// The two identities were compared by their names and digests, as
/// [`crate::identity::NetworkIdentity`] compares them.
pub open spec fn compares_names_and_digests(
    request: RequestView,
    has_pool: bool,
    replies: Replies,
) -> bool {
    replies.same_identity == (entered(request, has_pool, replies).entry.network == request.network)
}

/// The network is already served under another name or digest.
pub open spec fn is_taken(request: RequestView, replies: Replies) -> bool {
    let name = request.network.network_name;
    replies.data.entries.contains_key(name) && replies.data.entries[name].network
        != request.network
}

/// Where identities are compared by names and digests, a connection finds the same
/// identity exactly when its network is not yet served under another one. So the
/// first connection of a network always finds it, and a connection that is let in
/// is served by a record with the identity that it shows.
pub proof fn law_identity_decides(request: RequestView, has_pool: bool, replies: Replies)
    requires
        compares_names_and_digests(request, has_pool, replies),
    ensures
        replies.same_identity <==> !is_taken(request, replies),
        entered(request, has_pool, replies).new_added ==> replies.same_identity,
        is_let_in(request, has_pool, replies) ==> entered(
            request,
            has_pool,
            replies,
        ).entry.network == request.network,
{
}

/// A record that is made for a connection has the connection's identity.
pub proof fn law_new_record_has_the_shown_identity(
    data: DataView,
    admission: AdmissionView,
    my_peer_id: PeerId,
)
    requires
        data.entering(admission, my_peer_id).new_added,
    ensures
        data.entering(admission, my_peer_id).entry.network == admission.network,
{
}

/// The first connection of a network that is not on the list, though let in for
/// the sake of signalling, does not get data relayed: of the network's packets to
/// other peers, those that carry data are dropped, and all others go on.
pub proof fn law_unlisted_network_gets_no_data(
    request: RequestView,
    has_pool: bool,
    replies: Replies,
    to_peer_id: PeerId,
    packet_type: PacketType,
    payload_len: usize,
)
    requires
        request.whitelisted is Err,
        entered(request, has_pool, replies).new_added,
        to_peer_id != replies.my_peer_id,
    ensures
        ({
            let entry = entered(request, has_pool, replies).entry;
            let packet = PacketInfo {
                header: Some(PeerManagerHeader { to_peer_id, packet_type }),
                payload_len,
            };
            let action = packet_action(entry.my_peer_id, entry.relay_data, packet);
            &&& packet_type == PacketType::Data ==> action == PacketAction::Drop
            &&& packet_type != PacketType::Data ==> action is Forward
        }),
{
}

/// A network with a limit of zero or more peers is full from that many peers on;
/// one with a negative limit is never full, however many peers a peer map holds.
pub proof fn law_negative_limit_is_none(clients_limit: i32, peers: usize)
    requires
        peers <= isize::MAX,
    ensures
        clients_limit >= 0 ==> (peers >= client_cap(clients_limit) <==> peers >= clients_limit),
        clients_limit < 0 ==> peers < client_cap(clients_limit),
{
}

} // verus!
