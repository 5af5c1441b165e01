//! The conversation about a connection, which can only go on in order.
use crate::admission::{
    client_cap, AdmissionView, ConnRequest, EnteredView, Reply, ReplyView, RequestView, Step,
    StepView,
};
use crate::data::DataView;
use crate::identity::PeerId;
use crate::manager::ForeignNetworkManager;
use crate::tables::clock;
use crate::text::{clear_update_query, network_query, online_query, traffic_query};
use crate::verdict::{
    entered, has_permission, is_let_in, is_stored, may_enter, reason, terms, Replies,
};
use std::time::SystemTime;
use vstd::prelude::*;

verus! {

/// A conversation about a connection. Outside this file it begins only with the
/// first step of a request, and goes on only by answers, so that no step can be
/// left out.
pub struct Conversation {
    step: Step,
    request: Ghost<RequestView>,
    has_pool: Ghost<bool>,
    replies: Ghost<Replies>,
}

/// The model of a [`Conversation`]: where it has come to, about what, and what has
/// been answered so far.
#[verifier::ext_equal]
pub struct ConversationView {
    pub step: StepView,
    pub request: RequestView,
    pub has_pool: bool,
    pub replies: Replies,
}

impl View for Conversation {
    type V = ConversationView;

    closed spec fn view(&self) -> ConversationView {
        ConversationView {
            step: self.step@,
            request: self.request@,
            has_pool: self.has_pool@,
            replies: self.replies@,
        }
    }
}

impl Replies {
    /// The replies, with the answer to the given step noted. A connection is given
    /// a network out of the memory `data` of a node that is the peer `my_peer_id`.
    pub open spec fn noted(
        self,
        step: StepView,
        reply: ReplyView,
        data: DataView,
        my_peer_id: PeerId,
    ) -> Replies {
        match (step, reply) {
            (StepView::AcquireConn(_), ReplyView::Conn(conn)) => Replies { conn, ..self },
            (StepView::FetchNetwork(_, _), ReplyView::Network(enabled)) => Replies {
                enabled,
                ..self
            },
            (StepView::ReadUserId(_), ReplyView::UserId(user_id)) => Replies { user_id, ..self },
            (StepView::FetchTraffic(_, _), ReplyView::Traffic(remaining_traffic)) => Replies {
                remaining_traffic,
                ..self
            },
            (StepView::ReadPassword(_), ReplyView::Password(password)) => Replies {
                password,
                ..self
            },
            (StepView::DigestSecret(_, _, _), ReplyView::SecretDigest(digest)) => Replies {
                digest,
                ..self
            },
            (StepView::ReadSettings(_), ReplyView::Settings(settings)) => Replies {
                settings,
                ..self
            },
            (StepView::ReadIpRange(_), ReplyView::IpRange(ip_range)) => Replies {
                ip_range,
                ..self
            },
            (StepView::Enter(_), ReplyView::Done) => Replies { data, my_peer_id, ..self },
            (StepView::CountPeers(_), ReplyView::PeerCount(peers)) => Replies { peers, ..self },
            (StepView::AcquireOnlineConn(_), ReplyView::Conn(online_conn)) => Replies {
                online_conn,
                ..self
            },
            (StepView::CountOnline(_), ReplyView::PeerCount(online)) => Replies { online, ..self },
            (StepView::StoreOnline(_, _), ReplyView::Stored(stored)) => Replies { stored, ..self },
            (StepView::CompareIdentity(_), ReplyView::SameIdentity(same_identity)) => Replies {
                same_identity,
                ..self
            },
            _ => self,
        }
    }
}

impl ConversationView {
    /// The network has room for the connection.
    pub open spec fn has_room(self) -> bool {
        self.replies.peers < client_cap(
            terms(self.request, self.has_pool, self.replies).clients_limit,
        )
    }

    /// The database is being asked, on behalf of a connection that may be relayed.
    pub open spec fn asks_db(self, admission: AdmissionView) -> bool {
        &&& self.request.is_relayed()
        &&& self.has_pool
        &&& admission == self.request.admission(true)
    }

    /// The connection has been given a network, as it may be, on the terms that the
    /// database has set.
    pub open spec fn is_inside(self, inside: EnteredView) -> bool {
        &&& may_enter(self.request, self.has_pool, self.replies)
        &&& inside == entered(self.request, self.has_pool, self.replies)
    }

    /// What has to have been answered for a conversation to have come to its step.
    pub open spec fn in_order(self) -> bool {
        let request = self.request;
        let has_pool = self.has_pool;
        let replies = self.replies;
        let name = request.network.network_name;
        match self.step {
            StepView::Refuse(error) => {
                &&& !is_let_in(request, has_pool, replies)
                &&& error == reason(request, has_pool, replies)
            },
            StepView::AcquireConn(admission) => self.asks_db(admission),
            StepView::FetchNetwork(admission, statement) => {
                &&& self.asks_db(admission)
                &&& replies.conn is Ok
                &&& statement == network_query(name)
            },
            StepView::ReadUserId(admission) => {
                &&& self.asks_db(admission)
                &&& replies.conn is Ok
                &&& replies.enabled == Some(1i32)
            },
            StepView::FetchTraffic(admission, statement) => {
                &&& self.asks_db(admission)
                &&& replies.conn is Ok
                &&& replies.enabled == Some(1i32)
                &&& statement == traffic_query(replies.user_id)
            },
            StepView::ReadPassword(admission) => {
                &&& self.asks_db(admission)
                &&& replies.conn is Ok
                &&& replies.enabled == Some(1i32)
                &&& replies.remaining_traffic is Some
                &&& replies.remaining_traffic->0 > 0
            },
            StepView::DigestSecret(admission, network_name, password) => {
                &&& self.asks_db(admission)
                &&& replies.conn is Ok
                &&& replies.enabled == Some(1i32)
                &&& replies.remaining_traffic is Some
                &&& replies.remaining_traffic->0 > 0
                &&& network_name == name
                &&& password == replies.password
            },
            StepView::ReadSettings(admission) => {
                &&& self.asks_db(admission)
                &&& has_permission(request, replies)
            },
            StepView::ReadIpRange(admission) => {
                &&& request.is_relayed()
                &&& has_pool
                &&& has_permission(request, replies)
                &&& admission == request.admission(true).with_settings(replies.settings)
                &&& replies.settings.enable_dhcp == 1
            },
            StepView::ClearNeedUpdate(admission, statement) => {
                &&& has_pool
                &&& may_enter(request, has_pool, replies)
                &&& admission == terms(request, has_pool, replies)
                &&& admission.need_update
                &&& statement == clear_update_query(name)
            },
            StepView::Enter(admission) => {
                &&& may_enter(request, has_pool, replies)
                &&& admission == terms(request, has_pool, replies)
            },
            StepView::Prepare(inside) => self.is_inside(inside) && inside.new_added,
            StepView::CleanPeerWithoutConn(inside) => self.is_inside(inside),
            StepView::CleanAllPeers(inside) => self.is_inside(inside)
                && inside.admission.need_update,
            StepView::CountPeers(inside) => self.is_inside(inside),
            StepView::AcquireOnlineConn(inside) => {
                &&& self.is_inside(inside)
                &&& self.has_room()
                &&& has_pool
            },
            StepView::CountOnline(inside) => {
                &&& self.is_inside(inside)
                &&& self.has_room()
                &&& has_pool
                &&& replies.online_conn is Ok
            },
            StepView::StoreOnline(inside, statement) => {
                &&& self.is_inside(inside)
                &&& self.has_room()
                &&& has_pool
                &&& replies.online_conn is Ok
                &&& statement == online_query(replies.online as nat + 1, name)
            },
            StepView::CompareIdentity(inside) => {
                &&& self.is_inside(inside)
                &&& self.has_room()
                &&& has_pool ==> is_stored(replies)
            },
            StepView::StartEventHandler(inside) => {
                &&& is_let_in(request, has_pool, replies)
                &&& inside == entered(request, has_pool, replies)
                &&& inside.new_added
            },
            StepView::AddConn(inside) => {
                &&& is_let_in(request, has_pool, replies)
                &&& inside == entered(request, has_pool, replies)
            },
        }
    }

    /// The step that follows an answer: a connection is given a network out of the
    /// memory `data` of a node that is the peer `my_peer_id`, and every other step
    /// is answered from outside.
    pub open spec fn next_step(
        self,
        reply: ReplyView,
        data: DataView,
        my_peer_id: PeerId,
    ) -> StepView {
        match (self.step, reply) {
            (StepView::Enter(admission), ReplyView::Done) => data.entering(
                admission,
                my_peer_id,
            ).after_entering(),
            _ => self.step.answered(reply),
        }
    }

    /// The conversation after an answer.
    pub open spec fn answered(
        self,
        reply: ReplyView,
        data: DataView,
        my_peer_id: PeerId,
    ) -> ConversationView {
        ConversationView {
            step: self.next_step(reply, data, my_peer_id),
            replies: self.replies.noted(self.step, reply, data, my_peer_id),
            ..self
        }
    }

    /// The answer to a step other than the one in which the connection is given a
    /// network changes the memory only where a new record turns out to differ.
    pub open spec fn data_after(self, reply: ReplyView, data: DataView) -> DataView {
        match (self.step, reply) {
            (
                StepView::CompareIdentity(inside),
                ReplyView::SameIdentity(same),
            ) => data.compared(inside, same),
            _ => data,
        }
    }
}

/// A conversation begins in order.
proof fn lemma_begins_in_order(conversation: ConversationView)
    requires
        conversation.step == conversation.request.first_step(conversation.has_pool),
    ensures
        conversation.in_order(),
{
}

/// Whatever is answered, a conversation stays in order.
pub proof fn law_answers_keep_the_order(
    conversation: ConversationView,
    reply: ReplyView,
    data: DataView,
    my_peer_id: PeerId,
)
    requires
        conversation.in_order(),
    ensures
        conversation.answered(reply, data, my_peer_id).in_order(),
{
}

impl Conversation {
    #[verifier::type_invariant]
    spec fn has_been_in_order(self) -> bool {
        self@.in_order()
    }

    /// The conversation about a request, where `has_pool` says whether there is a
    /// database. Nothing has been answered yet.
    pub fn begin(request: ConnRequest, has_pool: bool) -> (conversation: Self)
        ensures
            conversation@.step == request@.first_step(has_pool),
            conversation@.request == request@,
            conversation@.has_pool == has_pool,
            conversation@.in_order(),
    {
        let ghost asked = request@;
        let step = request.start(has_pool);
        let ghost replies = vstd::pervasive::arbitrary::<Replies>();
        proof {
            lemma_begins_in_order(
                ConversationView { step: step@, request: asked, has_pool, replies },
            );
        }
        Conversation {
            step,
            request: Ghost(asked),
            has_pool: Ghost(has_pool),
            replies: Ghost(replies),
        }
    }

    /// What has to be done next. All that has to have been answered before is: in
    /// particular, a connection that is let in is let in rightly, and one that is
    /// turned away is answered with the first reason against it.
    pub fn step(&self) -> (step: &Step)
        ensures
            step@ == self@.step,
            self@.in_order(),
    {
        proof {
            use_type_invariant(self);
        }
        &self.step
    }

    /// The last step, once the conversation is over.
    pub fn into_step(self) -> (step: Step)
        ensures
            step@ == self@.step,
            self@.in_order(),
    {
        proof {
            use_type_invariant(&self);
        }
        self.step
    }
}

impl ForeignNetworkManager {
    /// Goes on with a conversation whose step has been answered.
    pub fn answer(&mut self, conversation: Conversation, reply: Reply) -> (next: Conversation)
        requires
            conversation@.step.can_count(reply@),
        ensures
            next@ == conversation@.answered(reply@, old(self).data@, old(self).my_peer_id),
            next@.in_order(),
            match (conversation@.step, reply@) {
                (StepView::Enter(admission), ReplyView::Done) => exists|now: SystemTime|
                    final(self).data@ == #[trigger] old(self).data@.joined(
                        admission.fresh_entry(old(self).my_peer_id),
                        admission.peer_id,
                        now,
                    ) && call_ensures(clock, (), now),
                _ => final(self).data@ == conversation@.data_after(reply@, old(self).data@),
            },
            final(self).my_peer_id == old(self).my_peer_id,
            final(self).has_pool == old(self).has_pool,
            old(self).wf() ==> final(self).wf(),
    {
        proof {
            use_type_invariant(&conversation);
            law_answers_keep_the_order(conversation@, reply@, self.data@, self.my_peer_id);
        }
        let ghost before = conversation@;
        let ghost answer = reply@;
        let ghost replies = before.replies.noted(
            before.step,
            answer,
            self.data@,
            self.my_peer_id,
        );
        let step = match (conversation.step, reply) {
            (Step::Enter(admission), Reply::Done) => self.enter(admission),
            (Step::CompareIdentity(inside), Reply::SameIdentity(same)) => self.confirm(
                inside,
                same,
            ),
            (step, reply) => step.answered(reply),
        };
        Conversation {
            step,
            request: conversation.request,
            has_pool: conversation.has_pool,
            replies: Ghost(replies),
        }
    }
}

} // verus!
