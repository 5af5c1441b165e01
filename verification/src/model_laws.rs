//! The models show what the values hold, field by field.
use crate::admission::{
    Admission, ConnRequest, Entered, Reply, ReplyView, Step, StepView,
};
use crate::entry::ForeignNetworkEntry;
use crate::error::{Error, ErrorView};
use crate::identity::NetworkIdentity;
use crate::packet::{ForwardAction, ForwardView};
use crate::text::Statement;
use vstd::prelude::*;

verus! {

/// The model of an identity has its name and, byte for byte, its digest.
pub proof fn law_identity_is_shown(identity: NetworkIdentity)
    ensures
        identity@.network_name == identity.network_name@,
        identity@.network_secret_digest is Some <==> identity.network_secret_digest is Some,
        identity.network_secret_digest matches Some(digest) ==> {
            &&& identity@.network_secret_digest->0.len() == 32
            &&& forall|i: int|
                0 <= i < 32 ==> identity@.network_secret_digest->0[i] == #[trigger] digest@[i]
        },
{
}

/// The model of a record has all that the record has.
pub proof fn law_entry_is_shown(entry: ForeignNetworkEntry)
    ensures
        entry@.my_peer_id == entry.my_peer_id,
        entry@.network == entry.network@,
        entry@.peer_map == entry.peer_map,
        entry@.relay_data == entry.relay_data,
        entry@.ip_range == entry.ip_range@,
{
}

/// The model of a statement has its text and its value.
pub proof fn law_statement_is_shown(statement: Statement)
    ensures
        statement@.sql == statement.sql@,
        statement@.bound == statement.bound@,
{
}

/// The model of a request has all that the request has.
pub proof fn law_request_is_shown(request: ConnRequest)
    ensures
        request@.network == request.network@,
        request@.peer_id == request.peer_id,
        request@.relay_all_peer_rpc == request.relay_all_peer_rpc,
        request@.whitelisted is Ok <==> request.whitelisted is Ok,
        request.whitelisted is Err ==> request@.whitelisted->Err_0
            == request.whitelisted->Err_0@,
        request@.peer_map == request.peer_map,
{
}

/// The model of a connection on its way in has all that is known of it.
pub proof fn law_admission_is_shown(admission: Admission)
    ensures
        admission@.network == admission.network@,
        admission@.peer_id == admission.peer_id,
        admission@.relay_data == admission.relay_data,
        admission@.has_pool == admission.has_pool,
        admission@.peer_map == admission.peer_map,
        admission@.clients_limit == admission.clients_limit,
        admission@.need_update == admission.need_update,
        admission@.ip_range == admission.ip_range@,
{
}

/// The model of a connection with a network has the connection and the record.
pub proof fn law_entered_is_shown(entered: Entered)
    ensures
        entered@.admission == entered.admission@,
        entered@.entry == entered.entry@,
        entered@.new_added == entered.new_added,
{
}

/// The model of a failure is of the same kind and has the same texts.
pub proof fn law_error_is_shown(error: Error)
    ensures
        match error {
            Error::DbError(text) => error@ == ErrorView::DbError(text@),
            Error::RouteError(Some(text)) => error@ == ErrorView::RouteError(Some(text@)),
            Error::RouteError(None) => error@ == ErrorView::RouteError(None),
            Error::Anyhow(text) => error@ == ErrorView::Anyhow(text@),
            Error::NetworkSecretNotMatch { expected, shown } => error@
                == (ErrorView::NetworkSecretNotMatch { expected: expected@, shown: shown@ }),
            Error::Unknown => error@ == ErrorView::Unknown,
        },
{
}

/// The model of a way on has its headers.
pub proof fn law_forward_action_is_shown(action: ForwardAction)
    ensures
        action@ is SendDirectly <==> action is SendDirectly,
        action matches ForwardAction::SendDirectly { to_peer_id } ==> action@
            == (ForwardView::SendDirectly { to_peer_id }),
        action matches ForwardAction::SendWrapped(packet) ==> action@ == (ForwardView::SendWrapped {
            network_name: packet.network_name@,
            dst_peer_id: packet.dst_peer_id,
            from_peer_id: packet.from_peer_id,
            to_peer_id: packet.to_peer_id,
            packet_type: packet.packet_type,
        }),
{
}

/// The model of a reply is of the same kind and says the same.
pub proof fn law_reply_is_shown(reply: Reply)
    ensures
        match reply {
            Reply::Conn(Ok(_)) => reply@ == ReplyView::Conn(Ok(())),
            Reply::Conn(Err(text)) => reply@ == ReplyView::Conn(Err(text@)),
            Reply::Network(enabled) => reply@ == ReplyView::Network(enabled),
            Reply::UserId(user_id) => reply@ == ReplyView::UserId(user_id@),
            Reply::Traffic(remaining) => reply@ == ReplyView::Traffic(remaining),
            Reply::Password(password) => reply@ == ReplyView::Password(password@),
            Reply::SecretDigest(digest) => reply@ == ReplyView::SecretDigest(digest@),
            Reply::Settings(settings) => reply@ == ReplyView::Settings(settings),
            Reply::IpRange(ip_range) => reply@ == ReplyView::IpRange(ip_range@),
            Reply::PeerCount(peers) => reply@ == ReplyView::PeerCount(peers),
            Reply::Stored(stored) => reply@ == ReplyView::Stored(stored),
            Reply::SameIdentity(same) => reply@ == ReplyView::SameIdentity(same),
            Reply::Done => reply@ == ReplyView::Done,
        },
{
}

/// The model of a step is of the same kind and is about the same connection.
pub proof fn law_step_is_shown(step: Step)
    ensures
        match step {
            Step::Refuse(error) => step@ == StepView::Refuse(error@),
            Step::AcquireConn(a) => step@ == StepView::AcquireConn(a@),
            Step::FetchNetwork(a, statement) => step@ == StepView::FetchNetwork(a@, statement@),
            Step::ReadUserId(a) => step@ == StepView::ReadUserId(a@),
            Step::FetchTraffic(a, statement) => step@ == StepView::FetchTraffic(a@, statement@),
            Step::ReadPassword(a) => step@ == StepView::ReadPassword(a@),
            Step::DigestSecret(a, name, password) => step@ == StepView::DigestSecret(
                a@,
                name@,
                password@,
            ),
            Step::ReadSettings(a) => step@ == StepView::ReadSettings(a@),
            Step::ReadIpRange(a) => step@ == StepView::ReadIpRange(a@),
            Step::ClearNeedUpdate(a, statement) => step@ == StepView::ClearNeedUpdate(
                a@,
                statement@,
            ),
            Step::Enter(a) => step@ == StepView::Enter(a@),
            Step::Prepare(e) => step@ == StepView::Prepare(e@),
            Step::CleanPeerWithoutConn(e) => step@ == StepView::CleanPeerWithoutConn(e@),
            Step::CleanAllPeers(e) => step@ == StepView::CleanAllPeers(e@),
            Step::CountPeers(e) => step@ == StepView::CountPeers(e@),
            Step::AcquireOnlineConn(e) => step@ == StepView::AcquireOnlineConn(e@),
            Step::CountOnline(e) => step@ == StepView::CountOnline(e@),
            Step::StoreOnline(e, statement) => step@ == StepView::StoreOnline(e@, statement@),
            Step::CompareIdentity(e) => step@ == StepView::CompareIdentity(e@),
            Step::StartEventHandler(e) => step@ == StepView::StartEventHandler(e@),
            Step::AddConn(e) => step@ == StepView::AddConn(e@),
        },
{
}

} // verus!
