//! What is promised of each step on a connection's way in.
use crate::admission::{
    AdmissionView, EnteredView, NetworkSettings, Reply, ReplyView, Step, StepView,
};
use crate::error::ErrorView;
use crate::text::{decimal, StatementView};
use vstd::prelude::*;

verus! {

/// A step can be answered by whatever came of it, unless more peers would have to
/// be stored than can be counted.
pub proof fn law_steps_can_be_answered(step: Step, reply: Reply)
    requires
        !(step is CountOnline && reply == Reply::PeerCount(usize::MAX)),
    ensures
        call_requires(Step::answered, (step, reply)),
{
}

/// The step that follows is the one that the models say.
pub proof fn law_steps_follow_the_model(step: Step, reply: Reply, next: Step)
    requires
        call_ensures(Step::answered, (step, reply), next),
    ensures
        next@ == step@.answered(reply@),
{
}

/// Without a connection to the database the connection is turned away with the
/// reason why there is none; with one, the row of the very network that it asks for
/// is fetched.
pub proof fn law_database_has_to_be_reached(admission: AdmissionView, conn: Result<(), Seq<char>>)
    ensures
        ({
            let next = StepView::AcquireConn(admission).answered(ReplyView::Conn(conn));
            &&& conn matches Err(text) ==> next == StepView::Refuse(ErrorView::DbError(text))
            &&& conn is Ok ==> next == StepView::FetchNetwork(
                admission,
                StatementView {
                    sql: "SELECT * FROM vnets WHERE token=? AND deleted_at IS NULL"@,
                    bound: admission.network.network_name,
                },
            )
        }),
{
}

/// Only a network that is found, with an `enabled` of exactly 1, lets the
/// connection go on.
pub proof fn law_network_has_to_be_enabled(
    admission: AdmissionView,
    statement: StatementView,
    enabled: Option<i32>,
)
    ensures
        ({
            let next = StepView::FetchNetwork(admission, statement).answered(
                ReplyView::Network(enabled),
            );
            &&& enabled == Some(1i32) ==> next == StepView::ReadUserId(admission)
            &&& enabled is None ==> next == StepView::Refuse(ErrorView::DbError("找不到网络"@))
            &&& enabled is Some && enabled->0 != 1 ==> next == StepView::Refuse(
                ErrorView::DbError("网络已被禁用"@),
            )
        }),
{
}

/// The traffic that is asked for is that of the user whom the network's row names.
pub proof fn law_traffic_of_the_user_is_asked_for(admission: AdmissionView, user_id: Seq<char>)
    ensures
        StepView::ReadUserId(admission).answered(ReplyView::UserId(user_id))
            == StepView::FetchTraffic(
            admission,
            (StatementView {
                sql: "SELECT remaining_traffic FROM users WHERE user_id=? AND deleted_at IS NULL"@,
                bound: user_id,
            }),
        ),
{
}

/// Only a user who is found, and has some traffic left, lets the connection go on;
/// how much is left does not matter.
pub proof fn law_traffic_has_to_be_left(
    admission: AdmissionView,
    statement: StatementView,
    remaining: Option<i64>,
)
    ensures
        ({
            let next = StepView::FetchTraffic(admission, statement).answered(
                ReplyView::Traffic(remaining),
            );
            &&& remaining is Some && remaining->0 > 0 ==> next == StepView::ReadPassword(admission)
            &&& remaining is None ==> next == StepView::Refuse(
                ErrorView::DbError("获取用户流量失败"@),
            )
            &&& remaining is Some && remaining->0 <= 0 ==> next == StepView::Refuse(
                ErrorView::DbError("用户流量已用完"@),
            )
        }),
{
}

/// What is digested is the name of the network and the password in its row, as they
/// are.
pub proof fn law_name_and_password_are_digested(admission: AdmissionView, password: Seq<char>)
    ensures
        StepView::ReadPassword(admission).answered(ReplyView::Password(password))
            == StepView::DigestSecret(admission, admission.network.network_name, password),
{
}

/// The digest that the connection shows, byte for byte, or 32 zero bytes where it
/// shows none, is the one digest of the name and password with which it goes on.
pub proof fn law_shown_digest_has_to_be_the_computed_one(
    admission: AdmissionView,
    network_name: Seq<char>,
    password: Seq<char>,
    digest: Seq<u8>,
)
    ensures
        ({
            let next = StepView::DigestSecret(admission, network_name, password).answered(
                ReplyView::SecretDigest(digest),
            );
            let same = match admission.network.network_secret_digest {
                Some(shown) => shown.len() == digest.len() && forall|i: int|
                    0 <= i < digest.len() ==> #[trigger] shown[i] == digest[i],
                None => digest.len() == 32 && forall|i: int|
                    0 <= i < 32 ==> #[trigger] digest[i] == 0,
            };
            &&& same ==> next == StepView::ReadSettings(admission)
            &&& !same ==> next == StepView::Refuse(ErrorView::DbError("网络密钥不匹配"@))
        }),
{
    match admission.network.network_secret_digest {
        Some(shown) => {
            if shown.len() == digest.len() && forall|i: int|
                0 <= i < digest.len() ==> #[trigger] shown[i] == digest[i] {
                assert(shown =~= digest);
            }
        },
        None => {
            if digest.len() == 32 && forall|i: int| 0 <= i < 32 ==> #[trigger] digest[i] == 0 {
                assert(digest =~= admission.network.digest_or_zero());
            } else if digest == admission.network.digest_or_zero() {
                assert(forall|i: int| 0 <= i < 32 ==> #[trigger] digest[i] == 0);
            }
        },
    }
}

/// The settings of the network become the terms of the connection: its limit as it
/// stands, an update exactly where it is asked for by a 1. Addresses are read
/// exactly where they are handed out by a 1, the request for an update is taken
/// back exactly where there is one, and otherwise a network is asked for.
pub proof fn law_settings_become_the_terms(admission: AdmissionView, settings: NetworkSettings)
    ensures
        ({
            let next = StepView::ReadSettings(admission).answered(ReplyView::Settings(settings));
            let terms = AdmissionView {
                clients_limit: settings.clients_limit,
                need_update: settings.need_update == 1,
                ..admission
            };
            &&& settings.enable_dhcp == 1 ==> next == StepView::ReadIpRange(terms)
            &&& settings.enable_dhcp != 1 && settings.need_update != 1 ==> next
                == StepView::Enter(terms)
            &&& settings.enable_dhcp != 1 && settings.need_update == 1 ==> next
                == StepView::ClearNeedUpdate(
                terms,
                StatementView {
                    sql: "UPDATE vnets SET need_update=0 WHERE token=? AND deleted_at IS NULL"@,
                    bound: admission.network.network_name,
                },
            )
        }),
{
}

/// The addresses that were read become those of the connection, and nothing else
/// about it changes.
pub proof fn law_addresses_become_the_terms(admission: AdmissionView, ip_range: Seq<char>)
    ensures
        ({
            let next = StepView::ReadIpRange(admission).answered(ReplyView::IpRange(ip_range));
            let terms = AdmissionView { ip_range, ..admission };
            &&& !admission.need_update ==> next == StepView::Enter(terms)
            &&& admission.need_update ==> next == StepView::ClearNeedUpdate(
                terms,
                StatementView {
                    sql: "UPDATE vnets SET need_update=0 WHERE token=? AND deleted_at IS NULL"@,
                    bound: admission.network.network_name,
                },
            )
        }),
{
}

/// Once a request for an update is taken back, a network is asked for on the same
/// terms.
pub proof fn law_network_is_asked_for_after_the_update(
    admission: AdmissionView,
    statement: StatementView,
)
    ensures
        StepView::ClearNeedUpdate(admission, statement).answered(ReplyView::Done)
            == StepView::Enter(admission),
{
}

/// A network that is prepared is cleared of peers without a connection; then all
/// peers have to leave exactly where an update is asked for; and then the peers are
/// counted.
pub proof fn law_peers_are_cleared_and_counted(inside: EnteredView)
    ensures
        StepView::Prepare(inside).answered(ReplyView::Done) == StepView::CleanPeerWithoutConn(
            inside,
        ),
        inside.admission.need_update ==> StepView::CleanPeerWithoutConn(inside).answered(
            ReplyView::Done,
        ) == StepView::CleanAllPeers(inside),
        !inside.admission.need_update ==> StepView::CleanPeerWithoutConn(inside).answered(
            ReplyView::Done,
        ) == StepView::CountPeers(inside),
        StepView::CleanAllPeers(inside).answered(ReplyView::Done) == StepView::CountPeers(inside),
{
}

/// A network is full, and the connection turned away, exactly from its limit on; a
/// negative limit counts back from the greatest number of peers. With a database
/// the number of peers is stored before the identities are compared.
pub proof fn law_network_must_not_be_full(inside: EnteredView, peers: usize)
    ensures
        ({
            let next = StepView::CountPeers(inside).answered(ReplyView::PeerCount(peers));
            let limit = inside.admission.clients_limit;
            let full = if limit >= 0 {
                peers >= limit
            } else {
                peers - limit > usize::MAX
            };
            &&& full ==> next == StepView::Refuse(ErrorView::DbError("房间用户数超限"@))
            &&& !full && inside.admission.has_pool ==> next == StepView::AcquireOnlineConn(inside)
            &&& !full && !inside.admission.has_pool ==> next == StepView::CompareIdentity(inside)
        }),
{
}

/// Without another connection to the database the connection is turned away with
/// the reason why there is none; with one, the peers are counted again.
pub proof fn law_database_has_to_be_reached_again(
    inside: EnteredView,
    conn: Result<(), Seq<char>>,
)
    ensures
        ({
            let next = StepView::AcquireOnlineConn(inside).answered(ReplyView::Conn(conn));
            &&& conn matches Err(text) ==> next == StepView::Refuse(ErrorView::DbError(text))
            &&& conn is Ok ==> next == StepView::CountOnline(inside)
        }),
{
}

/// One more peer than were counted is stored for the connection's own network.
pub proof fn law_one_more_peer_is_stored(inside: EnteredView, peers: usize)
    ensures
        StepView::CountOnline(inside).answered(ReplyView::PeerCount(peers)) == StepView::StoreOnline(
            inside,
            (StatementView {
                sql: "UPDATE vnets SET clients_online="@ + decimal((peers + 1) as nat)
                    + " WHERE token=? AND deleted_at IS NULL"@,
                bound: inside.admission.network.network_name,
            }),
        ),
{
}

/// The number of peers has to be stored for the identities to be compared.
pub proof fn law_number_has_to_be_stored(
    inside: EnteredView,
    statement: StatementView,
    stored: bool,
)
    ensures
        ({
            let next = StepView::StoreOnline(inside, statement).answered(ReplyView::Stored(stored));
            &&& stored ==> next == StepView::CompareIdentity(inside)
            &&& !stored ==> next == StepView::Refuse(ErrorView::DbError("更新网络用户数失败"@))
        }),
{
}

/// Where the identities differ, the connection is turned away with both of them.
/// Where they are the same it is let in, once the events of a new network are
/// followed.
pub proof fn law_identities_have_to_be_the_same(inside: EnteredView, same: bool)
    ensures
        ({
            let next = StepView::CompareIdentity(inside).answered(ReplyView::SameIdentity(same));
            &&& !same ==> next == StepView::Refuse(
                ErrorView::NetworkSecretNotMatch {
                    expected: inside.entry.network,
                    shown: inside.admission.network,
                },
            )
            &&& same && inside.new_added ==> next == StepView::StartEventHandler(inside)
            &&& same && !inside.new_added ==> next == StepView::AddConn(inside)
        }),
        StepView::StartEventHandler(inside).answered(ReplyView::Done) == StepView::AddConn(inside),
{
}

/// An answer that is not of the step's own kind changes nothing; and what is over
/// stays over.
pub proof fn law_only_its_own_answer_moves_a_step(step: StepView, reply: ReplyView)
    requires
        step is AcquireConn || step is AcquireOnlineConn ==> !(reply is Conn),
        step is FetchNetwork ==> !(reply is Network),
        step is ReadUserId ==> !(reply is UserId),
        step is FetchTraffic ==> !(reply is Traffic),
        step is ReadPassword ==> !(reply is Password),
        step is DigestSecret ==> !(reply is SecretDigest),
        step is ReadSettings ==> !(reply is Settings),
        step is ReadIpRange ==> !(reply is IpRange),
        step is CountPeers || step is CountOnline ==> !(reply is PeerCount),
        step is StoreOnline ==> !(reply is Stored),
        step is CompareIdentity ==> !(reply is SameIdentity),
        step is ClearNeedUpdate || step is Prepare || step is CleanPeerWithoutConn
            || step is CleanAllPeers || step is StartEventHandler ==> !(reply is Done),
    ensures
        step.answered(reply) == step,
{
}

/// The connection that a step is about, before it has a network.
pub open spec fn on_its_way(step: StepView) -> Option<AdmissionView> {
    match step {
        StepView::AcquireConn(a) => Some(a),
        StepView::FetchNetwork(a, _) => Some(a),
        StepView::ReadUserId(a) => Some(a),
        StepView::FetchTraffic(a, _) => Some(a),
        StepView::ReadPassword(a) => Some(a),
        StepView::DigestSecret(a, _, _) => Some(a),
        StepView::ReadSettings(a) => Some(a),
        StepView::ReadIpRange(a) => Some(a),
        StepView::ClearNeedUpdate(a, _) => Some(a),
        StepView::Enter(a) => Some(a),
        _ => None,
    }
}

/// Whatever is answered, a connection stays the same peer of the same network, with
/// its data relayed or not as before, and with the same peer map. Only settings
/// change its limit and whether an update is asked for, and only addresses that
/// were read change its addresses.
pub proof fn law_connection_stays_itself(step: StepView, reply: ReplyView)
    requires
        on_its_way(step) is Some,
        on_its_way(step.answered(reply)) is Some,
    ensures
        ({
            let before = on_its_way(step)->0;
            let after = on_its_way(step.answered(reply))->0;
            &&& after.network == before.network
            &&& after.peer_id == before.peer_id
            &&& after.relay_data == before.relay_data
            &&& after.has_pool == before.has_pool
            &&& after.peer_map == before.peer_map
            &&& !(reply is Settings) ==> after.clients_limit == before.clients_limit
                && after.need_update == before.need_update
            &&& !(reply is IpRange) ==> after.ip_range == before.ip_range
        }),
{
}

} // verus!
