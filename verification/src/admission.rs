//! Whether a connection is let into the network that its peer asks for.
//!
//! Letting a connection in takes many small conversations: with the database,
//! and with the peer map of the network. Each [`Step`] names the next of them,
//! and [`Step::answered`] says which step follows from what came of it.
use crate::entry::{fresh_entry, EntryView, ForeignNetworkEntry};
use crate::error::{db_error, Error, ErrorView};
use crate::identity::{digest_eq, IdentityView, NetworkIdentity, NetworkSecretDigest, PeerId, PeerMapId};
use crate::text::{
    clear_update_query, clear_update_statement, network_query, network_statement, online_query,
    online_statement, traffic_query, traffic_statement, Statement, StatementView,
};
use std::sync::Arc;
use vstd::prelude::*;

verus! {

/// A connection that asks to be let in.
pub struct ConnRequest {
    /// The network that the peer belongs to.
    pub network: NetworkIdentity,
    pub peer_id: PeerId,
    /// Whether this node relays the signalling of any network.
    pub relay_all_peer_rpc: bool,
    /// Whether the network is on the list of those whose data is relayed, or why
    /// it is not.
    pub whitelisted: Result<(), Error>,
    /// Where the peers of the network will be kept if it is not served yet.
    pub peer_map: PeerMapId,
}

/// The model of a [`ConnRequest`].
#[verifier::ext_equal]
pub struct RequestView {
    pub network: IdentityView,
    pub peer_id: PeerId,
    pub relay_all_peer_rpc: bool,
    pub whitelisted: Result<(), ErrorView>,
    pub peer_map: PeerMapId,
}

impl View for ConnRequest {
    type V = RequestView;

    open spec fn view(&self) -> RequestView {
        RequestView {
            network: self.network@,
            peer_id: self.peer_id,
            relay_all_peer_rpc: self.relay_all_peer_rpc,
            whitelisted: match self.whitelisted {
                Ok(_) => Ok(()),
                Err(error) => Err(error@),
            },
            peer_map: self.peer_map,
        }
    }
}

/// What the database says of how a network is run.
#[derive(Debug, Clone, Copy, PartialEq, Eq, Structural)]
pub struct NetworkSettings {
    pub clients_limit: i32,
    pub need_update: i32,
    pub enable_dhcp: i32,
}

/// A connection on its way in, before it has a network.
pub struct Admission {
    pub network: NetworkIdentity,
    pub peer_id: PeerId,
    pub relay_data: bool,
    /// Whether there is a database that keeps permissions.
    pub has_pool: bool,
    pub peer_map: PeerMapId,
    /// How many peers the network may have.
    pub clients_limit: i32,
    /// Whether all peers of the network have to leave first.
    pub need_update: bool,
    pub ip_range: String,
}

/// The model of an [`Admission`].
#[verifier::ext_equal]
pub struct AdmissionView {
    pub network: IdentityView,
    pub peer_id: PeerId,
    pub relay_data: bool,
    pub has_pool: bool,
    pub peer_map: PeerMapId,
    pub clients_limit: i32,
    pub need_update: bool,
    pub ip_range: Seq<char>,
}

impl View for Admission {
    type V = AdmissionView;

    open spec fn view(&self) -> AdmissionView {
        AdmissionView {
            network: self.network@,
            peer_id: self.peer_id,
            relay_data: self.relay_data,
            has_pool: self.has_pool,
            peer_map: self.peer_map,
            clients_limit: self.clients_limit,
            need_update: self.need_update,
            ip_range: self.ip_range@,
        }
    }
}

/// A connection on its way in, with the record of the network that serves it.
pub struct Entered {
    pub admission: Admission,
    pub entry: Arc<ForeignNetworkEntry>,
    /// Whether the connection is the first of its network.
    pub new_added: bool,
}

/// The model of an [`Entered`].
#[verifier::ext_equal]
pub struct EnteredView {
    pub admission: AdmissionView,
    pub entry: EntryView,
    pub new_added: bool,
}

impl View for Entered {
    type V = EnteredView;

    open spec fn view(&self) -> EnteredView {
        EnteredView {
            admission: self.admission@,
            entry: self.entry@,
            new_added: self.new_added,
        }
    }
}

/// What has to be done next for a connection that asks to be let in, and with
/// which [`Reply`] it is answered.
pub enum Step {
    /// The connection is turned away.
    Refuse(Error),
    /// Get a connection to the database: [`Reply::Conn`].
    AcquireConn(Admission),
    /// Fetch the network's row, with its `enabled`: [`Reply::Network`].
    FetchNetwork(Admission, Statement),
    /// Read the row's `user_id`: [`Reply::UserId`].
    ReadUserId(Admission),
    /// Fetch the user's `remaining_traffic`: [`Reply::Traffic`].
    FetchTraffic(Admission, Statement),
    /// Read the row's `password`: [`Reply::Password`].
    ReadPassword(Admission),
    /// Digest the network's name and its password, which are given in this order:
    /// [`Reply::SecretDigest`].
    DigestSecret(Admission, String, String),
    /// Read the row's `clients_limit`, `need_update` and `enable_dhcp`:
    /// [`Reply::Settings`].
    ReadSettings(Admission),
    /// Read the row's `ip_range`: [`Reply::IpRange`].
    ReadIpRange(Admission),
    /// Run the statement: [`Reply::Done`].
    ClearNeedUpdate(Admission, Statement),
    /// The manager gives the connection a network on [`Reply::Done`].
    Enter(Admission),
    /// Prepare the new network: [`Reply::Done`].
    Prepare(Entered),
    /// Clear the peer map of peers without a connection: [`Reply::Done`].
    CleanPeerWithoutConn(Entered),
    /// Clear the peer map of all peers: [`Reply::Done`].
    CleanAllPeers(Entered),
    /// Count the peers in the peer map: [`Reply::PeerCount`].
    CountPeers(Entered),
    /// Get another connection to the database: [`Reply::Conn`].
    AcquireOnlineConn(Entered),
    /// Count the peers in the peer map again: [`Reply::PeerCount`].
    CountOnline(Entered),
    /// Run the statement: [`Reply::Stored`].
    StoreOnline(Entered, Statement),
    /// Compare the identity under which the network is served with the one that
    /// the connection shows: [`Reply::SameIdentity`].
    CompareIdentity(Entered),
    /// Start to follow the events of the new network: [`Reply::Done`].
    StartEventHandler(Entered),
    /// The connection is let in: it goes into the peer map.
    AddConn(Entered),
}

/// What came of a step.
pub enum Reply {
    /// There is a connection to the database, or the given reason why not.
    Conn(Result<(), String>),
    /// The network's `enabled`, if the network was found.
    Network(Option<i32>),
    UserId(String),
    /// The user's `remaining_traffic`, if the user was found.
    Traffic(Option<i64>),
    Password(String),
    SecretDigest(NetworkSecretDigest),
    Settings(NetworkSettings),
    IpRange(String),
    /// How many peers there are.
    PeerCount(usize),
    /// Whether the statement succeeded.
    Stored(bool),
    /// Whether the two identities are the same.
    SameIdentity(bool),
    /// It is done.
    Done,
}

/// The model of a [`Reply`].
#[verifier::ext_equal]
pub enum ReplyView {
    Conn(Result<(), Seq<char>>),
    Network(Option<i32>),
    UserId(Seq<char>),
    Traffic(Option<i64>),
    Password(Seq<char>),
    SecretDigest(Seq<u8>),
    Settings(NetworkSettings),
    IpRange(Seq<char>),
    PeerCount(usize),
    Stored(bool),
    SameIdentity(bool),
    Done,
}

impl View for Reply {
    type V = ReplyView;

    open spec fn view(&self) -> ReplyView {
        match self {
            Reply::Conn(conn) => ReplyView::Conn(conn_view(*conn)),
            Reply::Network(enabled) => ReplyView::Network(*enabled),
            Reply::UserId(user_id) => ReplyView::UserId(user_id@),
            Reply::Traffic(remaining) => ReplyView::Traffic(*remaining),
            Reply::Password(password) => ReplyView::Password(password@),
            Reply::SecretDigest(digest) => ReplyView::SecretDigest(digest@),
            Reply::Settings(settings) => ReplyView::Settings(*settings),
            Reply::IpRange(ip_range) => ReplyView::IpRange(ip_range@),
            Reply::PeerCount(peers) => ReplyView::PeerCount(*peers),
            Reply::Stored(stored) => ReplyView::Stored(*stored),
            Reply::SameIdentity(same) => ReplyView::SameIdentity(*same),
            Reply::Done => ReplyView::Done,
        }
    }
}

/// The model of a [`Step`].
#[verifier::ext_equal]
pub enum StepView {
    Refuse(ErrorView),
    AcquireConn(AdmissionView),
    FetchNetwork(AdmissionView, StatementView),
    ReadUserId(AdmissionView),
    FetchTraffic(AdmissionView, StatementView),
    ReadPassword(AdmissionView),
    DigestSecret(AdmissionView, Seq<char>, Seq<char>),
    ReadSettings(AdmissionView),
    ReadIpRange(AdmissionView),
    ClearNeedUpdate(AdmissionView, StatementView),
    Enter(AdmissionView),
    Prepare(EnteredView),
    CleanPeerWithoutConn(EnteredView),
    CleanAllPeers(EnteredView),
    CountPeers(EnteredView),
    AcquireOnlineConn(EnteredView),
    CountOnline(EnteredView),
    StoreOnline(EnteredView, StatementView),
    CompareIdentity(EnteredView),
    StartEventHandler(EnteredView),
    AddConn(EnteredView),
}

impl View for Step {
    type V = StepView;

    open spec fn view(&self) -> StepView {
        match self {
            Step::Refuse(error) => StepView::Refuse(error@),
            Step::AcquireConn(admission) => StepView::AcquireConn(admission@),
            Step::FetchNetwork(admission, statement) => StepView::FetchNetwork(admission@, statement@),
            Step::ReadUserId(admission) => StepView::ReadUserId(admission@),
            Step::FetchTraffic(admission, statement) => StepView::FetchTraffic(admission@, statement@),
            Step::ReadPassword(admission) => StepView::ReadPassword(admission@),
            Step::DigestSecret(admission, network_name, password) => StepView::DigestSecret(
                admission@,
                network_name@,
                password@,
            ),
            Step::ReadSettings(admission) => StepView::ReadSettings(admission@),
            Step::ReadIpRange(admission) => StepView::ReadIpRange(admission@),
            Step::ClearNeedUpdate(admission, statement) => StepView::ClearNeedUpdate(admission@, statement@),
            Step::Enter(admission) => StepView::Enter(admission@),
            Step::Prepare(entered) => StepView::Prepare(entered@),
            Step::CleanPeerWithoutConn(entered) => StepView::CleanPeerWithoutConn(entered@),
            Step::CleanAllPeers(entered) => StepView::CleanAllPeers(entered@),
            Step::CountPeers(entered) => StepView::CountPeers(entered@),
            Step::AcquireOnlineConn(entered) => StepView::AcquireOnlineConn(entered@),
            Step::CountOnline(entered) => StepView::CountOnline(entered@),
            Step::StoreOnline(entered, statement) => StepView::StoreOnline(entered@, statement@),
            Step::CompareIdentity(entered) => StepView::CompareIdentity(entered@),
            Step::StartEventHandler(entered) => StepView::StartEventHandler(entered@),
            Step::AddConn(entered) => StepView::AddConn(entered@),
        }
    }
}

/// Turned away by the database, with the given text.
pub open spec fn refused(text: Seq<char>) -> StepView {
    StepView::Refuse(ErrorView::DbError(text))
}

/// The addresses that a network hands out where the database does not say.
pub open spec fn default_ip_range() -> Seq<char> {
    "192.168.100.0"@
}

/// From how many peers on a network is full. As a number of peers, a negative
/// limit wraps round to one that no peer map reaches.
pub open spec fn client_cap(clients_limit: i32) -> int {
    if clients_limit >= 0 {
        clients_limit as int
    } else {
        usize::MAX + 1 + clients_limit
    }
}

impl RequestView {
    /// The connection may go on: its network is on the list, or the signalling
    /// of any network is relayed.
    pub open spec fn is_relayed(self) -> bool {
        self.whitelisted is Ok || self.relay_all_peer_rpc
    }

    /// What is known of the connection before the database is asked.
    pub open spec fn admission(self, has_pool: bool) -> AdmissionView {
        AdmissionView {
            network: self.network,
            peer_id: self.peer_id,
            relay_data: self.whitelisted is Ok,
            has_pool,
            peer_map: self.peer_map,
            clients_limit: i32::MAX,
            need_update: false,
            ip_range: default_ip_range(),
        }
    }

    /// The first step.
    pub open spec fn first_step(self, has_pool: bool) -> StepView {
        if !self.is_relayed() {
            StepView::Refuse(self.whitelisted->Err_0)
        } else if has_pool {
            StepView::AcquireConn(self.admission(has_pool))
        } else {
            StepView::Enter(self.admission(has_pool))
        }
    }
}

impl AdmissionView {
    /// There is a connection to the database, or the given reason why not.
    pub open spec fn after_conn(self, conn: Result<(), Seq<char>>) -> StepView {
        match conn {
            Err(text) => refused(text),
            Ok(_) => StepView::FetchNetwork(self, network_query(self.network.network_name)),
        }
    }

    /// The network's `enabled` is known, or the network was not found.
    pub open spec fn after_network(self, enabled: Option<i32>) -> StepView {
        if enabled is None {
            refused("找不到网络"@)
        } else if enabled != Some(1i32) {
            refused("网络已被禁用"@)
        } else {
            StepView::ReadUserId(self)
        }
    }

    /// The network's user is known.
    pub open spec fn after_user_id(self, user_id: Seq<char>) -> StepView {
        StepView::FetchTraffic(self, traffic_query(user_id))
    }

    /// The traffic that the user has left is known, or the user was not found.
    pub open spec fn after_traffic(self, remaining: Option<i64>) -> StepView {
        match remaining {
            None => refused("获取用户流量失败"@),
            Some(remaining) => if remaining <= 0 {
                refused("用户流量已用完"@)
            } else {
                StepView::ReadPassword(self)
            },
        }
    }

    /// The network's password is known.
    pub open spec fn after_password(self, password: Seq<char>) -> StepView {
        StepView::DigestSecret(self, self.network.network_name, password)
    }

    /// The digest of the network's name and password is known.
    pub open spec fn after_secret_digest(self, digest: Seq<u8>) -> StepView {
        if digest != self.network.digest_or_zero() {
            refused("网络密钥不匹配"@)
        } else {
            StepView::ReadSettings(self)
        }
    }

    /// What the settings of the network change.
    pub open spec fn with_settings(self, settings: NetworkSettings) -> AdmissionView {
        AdmissionView {
            clients_limit: settings.clients_limit,
            need_update: settings.need_update == 1,
            ..self
        }
    }

    /// The settings of the network are known.
    pub open spec fn after_settings(self, settings: NetworkSettings) -> StepView {
        if settings.enable_dhcp == 1 {
            StepView::ReadIpRange(self.with_settings(settings))
        } else {
            self.with_settings(settings).settled()
        }
    }

    /// The addresses of the network are known.
    pub open spec fn after_ip_range(self, ip_range: Seq<char>) -> StepView {
        (AdmissionView { ip_range, ..self }).settled()
    }

    /// The database has been asked for everything; a request to evict the
    /// network's peers is taken back before it is followed.
    pub open spec fn settled(self) -> StepView {
        if self.need_update {
            StepView::ClearNeedUpdate(self, clear_update_query(self.network.network_name))
        } else {
            StepView::Enter(self)
        }
    }

    /// The record that the connection would be the first to be served by.
    pub open spec fn fresh_entry(self, my_peer_id: PeerId) -> EntryView {
        fresh_entry(self.network, my_peer_id, self.relay_data, self.ip_range, self.peer_map)
    }
}

impl EnteredView {
    /// The record that serves the connection has been found or made.
    pub open spec fn after_entering(self) -> StepView {
        if self.new_added {
            StepView::Prepare(self)
        } else {
            StepView::CleanPeerWithoutConn(self)
        }
    }

    /// The peers without a connection are gone.
    pub open spec fn after_cleaning(self) -> StepView {
        if self.admission.need_update {
            StepView::CleanAllPeers(self)
        } else {
            StepView::CountPeers(self)
        }
    }

    /// The number of the network's peers is known.
    pub open spec fn after_peer_count(self, peers: usize) -> StepView {
        if peers >= client_cap(self.admission.clients_limit) {
            refused("房间用户数超限"@)
        } else if self.admission.has_pool {
            StepView::AcquireOnlineConn(self)
        } else {
            StepView::CompareIdentity(self)
        }
    }

    /// There is another connection to the database, or the given reason why not.
    pub open spec fn after_online_conn(self, conn: Result<(), Seq<char>>) -> StepView {
        match conn {
            Err(text) => refused(text),
            Ok(_) => StepView::CountOnline(self),
        }
    }

    /// The number of peers that will have to be stored is known, but for the new one.
    pub open spec fn after_online_count(self, peers: usize) -> StepView {
        StepView::StoreOnline(
            self,
            online_query(peers as nat + 1, self.admission.network.network_name),
        )
    }

    /// The number of peers has been stored, or could not be.
    pub open spec fn after_online_stored(self, stored: bool) -> StepView {
        if stored {
            StepView::CompareIdentity(self)
        } else {
            refused("更新网络用户数失败"@)
        }
    }

    /// The two identities have been compared.
    pub open spec fn after_comparing(self, same: bool) -> StepView {
        if !same {
            StepView::Refuse(
                ErrorView::NetworkSecretNotMatch {
                    expected: self.entry.network,
                    shown: self.admission.network,
                },
            )
        } else if self.new_added {
            StepView::StartEventHandler(self)
        } else {
            StepView::AddConn(self)
        }
    }
}

impl StepView {
    /// The step that follows when this one is answered. An answer to another step
    /// changes nothing; and what gives a connection a network is no answer, but
    /// the memory of the manager.
    pub open spec fn answered(self, reply: ReplyView) -> StepView {
        match (self, reply) {
            (StepView::AcquireConn(admission), ReplyView::Conn(conn)) => admission.after_conn(conn),
            (
                StepView::FetchNetwork(admission, _),
                ReplyView::Network(enabled),
            ) => admission.after_network(enabled),
            (
                StepView::ReadUserId(admission),
                ReplyView::UserId(user_id),
            ) => admission.after_user_id(user_id),
            (
                StepView::FetchTraffic(admission, _),
                ReplyView::Traffic(remaining),
            ) => admission.after_traffic(remaining),
            (
                StepView::ReadPassword(admission),
                ReplyView::Password(password),
            ) => admission.after_password(password),
            (
                StepView::DigestSecret(admission, _, _),
                ReplyView::SecretDigest(digest),
            ) => admission.after_secret_digest(digest),
            (
                StepView::ReadSettings(admission),
                ReplyView::Settings(settings),
            ) => admission.after_settings(settings),
            (
                StepView::ReadIpRange(admission),
                ReplyView::IpRange(ip_range),
            ) => admission.after_ip_range(ip_range),
            (StepView::ClearNeedUpdate(admission, _), ReplyView::Done) => StepView::Enter(
                admission,
            ),
            (StepView::Prepare(entered), ReplyView::Done) => StepView::CleanPeerWithoutConn(
                entered,
            ),
            (
                StepView::CleanPeerWithoutConn(entered),
                ReplyView::Done,
            ) => entered.after_cleaning(),
            (StepView::CleanAllPeers(entered), ReplyView::Done) => StepView::CountPeers(entered),
            (
                StepView::CountPeers(entered),
                ReplyView::PeerCount(peers),
            ) => entered.after_peer_count(peers),
            (
                StepView::AcquireOnlineConn(entered),
                ReplyView::Conn(conn),
            ) => entered.after_online_conn(conn),
            (
                StepView::CountOnline(entered),
                ReplyView::PeerCount(peers),
            ) => entered.after_online_count(peers),
            (
                StepView::StoreOnline(entered, _),
                ReplyView::Stored(stored),
            ) => entered.after_online_stored(stored),
            (
                StepView::CompareIdentity(entered),
                ReplyView::SameIdentity(same),
            ) => entered.after_comparing(same),
            (StepView::StartEventHandler(entered), ReplyView::Done) => StepView::AddConn(entered),
            _ => self,
        }
    }

    /// The number of peers that is to be stored, with the new one, can be counted.
    pub open spec fn can_count(self, reply: ReplyView) -> bool {
        self is CountOnline ==> (reply matches ReplyView::PeerCount(peers) ==> peers < usize::MAX)
    }
}

impl Step {
    /// The step that follows when this one is answered. An answer to another step
    /// changes nothing.
    pub fn answered(self, reply: Reply) -> (next: Step)
        requires
            self@.can_count(reply@),
        ensures
            next@ == self@.answered(reply@),
    {
        match (self, reply) {
            (Step::AcquireConn(admission), Reply::Conn(conn)) => admission.on_conn(conn),
            (Step::FetchNetwork(admission, _), Reply::Network(enabled)) => admission.on_network(
                enabled,
            ),
            (Step::ReadUserId(admission), Reply::UserId(user_id)) => admission.on_user_id(
                user_id.as_str(),
            ),
            (Step::FetchTraffic(admission, _), Reply::Traffic(remaining)) => admission.on_traffic(
                remaining,
            ),
            (Step::ReadPassword(admission), Reply::Password(password)) => admission.on_password(
                password,
            ),
            (
                Step::DigestSecret(admission, _, _),
                Reply::SecretDigest(digest),
            ) => admission.on_secret_digest(digest),
            (Step::ReadSettings(admission), Reply::Settings(settings)) => admission.on_settings(
                settings,
            ),
            (Step::ReadIpRange(admission), Reply::IpRange(ip_range)) => admission.on_ip_range(
                ip_range,
            ),
            (Step::ClearNeedUpdate(admission, _), Reply::Done) => admission.on_update_cleared(),
            (Step::Prepare(entered), Reply::Done) => entered.on_prepared(),
            (Step::CleanPeerWithoutConn(entered), Reply::Done) => entered.on_cleaned(),
            (Step::CleanAllPeers(entered), Reply::Done) => entered.on_evicted(),
            (Step::CountPeers(entered), Reply::PeerCount(peers)) => entered.on_peer_count(peers),
            (Step::AcquireOnlineConn(entered), Reply::Conn(conn)) => entered.on_online_conn(conn),
            (Step::CountOnline(entered), Reply::PeerCount(peers)) => entered.on_online_count(peers),
            (Step::StoreOnline(entered, _), Reply::Stored(stored)) => entered.on_online_stored(
                stored,
            ),
            (
                Step::CompareIdentity(entered),
                Reply::SameIdentity(same),
            ) => entered.on_identity_compared(same),
            (Step::StartEventHandler(entered), Reply::Done) => entered.on_handler_started(),
            (step, _) => step,
        }
    }
}

/// The model of the outcome of getting a connection to the database.
pub open spec fn conn_view(conn: Result<(), String>) -> Result<(), Seq<char>> {
    match conn {
        Ok(_) => Ok(()),
        Err(text) => Err(text@),
    }
}

/// Computes [`client_cap`].
pub fn to_client_cap(clients_limit: i32) -> (cap: usize)
    ensures
        cap == client_cap(clients_limit),
{
    if clients_limit >= 0 {
        clients_limit as usize
    } else {
        usize::MAX - ((-1 - clients_limit) as usize)
    }
}

impl ConnRequest {
    /// The first step, where `has_pool` says whether there is a database.
    pub(crate) fn start(self, has_pool: bool) -> (step: Step)
        ensures
            step@ == self@.first_step(has_pool),
    {
        let relay_data = self.whitelisted.is_ok();
        if !self.relay_all_peer_rpc {
            if let Err(error) = self.whitelisted {
                return Step::Refuse(error);
            }
        }
        let admission = Admission {
            network: self.network,
            peer_id: self.peer_id,
            relay_data,
            has_pool,
            peer_map: self.peer_map,
            clients_limit: i32::MAX,
            need_update: false,
            ip_range: "192.168.100.0".to_owned(),
        };
        if has_pool {
            Step::AcquireConn(admission)
        } else {
            Step::Enter(admission)
        }
    }
}

impl Admission {
    /// There is a connection to the database, or the given reason why not.
    pub(crate) fn on_conn(self, conn: Result<(), String>) -> (step: Step)
        ensures
            step@ == self@.after_conn(conn_view(conn)),
    {
        match conn {
            Err(text) => Step::Refuse(Error::DbError(text)),
            Ok(_) => {
                let statement = network_statement(self.network.network_name.as_str());
                Step::FetchNetwork(self, statement)
            },
        }
    }

    /// The network's `enabled`, where the network was found: only 1 lets the
    /// connection go on.
    pub(crate) fn on_network(self, enabled: Option<i32>) -> (step: Step)
        ensures
            step@ == self@.after_network(enabled),
    {
        match enabled {
            None => Step::Refuse(db_error("找不到网络")),
            Some(enabled) => if enabled == 1 {
                Step::ReadUserId(self)
            } else {
                Step::Refuse(db_error("网络已被禁用"))
            },
        }
    }

    /// The user that pays for the network.
    pub(crate) fn on_user_id(self, user_id: &str) -> (step: Step)
        ensures
            step@ == self@.after_user_id(user_id@),
    {
        Step::FetchTraffic(self, traffic_statement(user_id))
    }

    /// What traffic the user has left, where the user was found: it has to be
    /// more than none.
    pub(crate) fn on_traffic(self, remaining: Option<i64>) -> (step: Step)
        ensures
            step@ == self@.after_traffic(remaining),
    {
        match remaining {
            None => Step::Refuse(db_error("获取用户流量失败")),
            Some(remaining) => if remaining <= 0 {
                Step::Refuse(db_error("用户流量已用完"))
            } else {
                Step::ReadPassword(self)
            },
        }
    }

    /// The network's password, which is digested together with its name.
    pub(crate) fn on_password(self, password: String) -> (step: Step)
        ensures
            step@ == self@.after_password(password@),
    {
        let network_name = self.network.network_name.clone();
        Step::DigestSecret(self, network_name, password)
    }

    /// The digest that a peer which knows the network's password shows: this one
    /// has to show the same, or nothing where the digest is all zeros.
    pub(crate) fn on_secret_digest(self, digest: NetworkSecretDigest) -> (step: Step)
        ensures
            step@ == self@.after_secret_digest(digest@),
    {
        if digest_eq(&digest, &self.network.digest_or_default()) {
            Step::ReadSettings(self)
        } else {
            Step::Refuse(db_error("网络密钥不匹配"))
        }
    }

    fn settle(self) -> (step: Step)
        ensures
            step@ == self@.settled(),
    {
        if self.need_update {
            let statement = clear_update_statement(self.network.network_name.as_str());
            Step::ClearNeedUpdate(self, statement)
        } else {
            Step::Enter(self)
        }
    }

    /// How the network is run.
    pub(crate) fn on_settings(self, settings: NetworkSettings) -> (step: Step)
        ensures
            step@ == self@.after_settings(settings),
    {
        let mut admission = self;
        admission.clients_limit = settings.clients_limit;
        admission.need_update = settings.need_update == 1;
        if settings.enable_dhcp == 1 {
            Step::ReadIpRange(admission)
        } else {
            admission.settle()
        }
    }

    /// The addresses that the network hands out.
    pub(crate) fn on_ip_range(self, ip_range: String) -> (step: Step)
        ensures
            step@ == self@.after_ip_range(ip_range@),
    {
        let mut admission = self;
        admission.ip_range = ip_range;
        admission.settle()
    }

    /// The request to evict the network's peers has been taken back.
    pub(crate) fn on_update_cleared(self) -> (step: Step)
        ensures
            step@ == StepView::Enter(self@),
    {
        Step::Enter(self)
    }

    /// The record that serves the connection has been found or made.
    pub(crate) fn on_entry(self, entry: Arc<ForeignNetworkEntry>, new_added: bool) -> (step: Step)
        ensures
            step@ == (EnteredView { admission: self@, entry: entry@, new_added }).after_entering(),
    {
        let entered = Entered { admission: self, entry, new_added };
        if new_added {
            Step::Prepare(entered)
        } else {
            Step::CleanPeerWithoutConn(entered)
        }
    }
}

impl Entered {
    /// The new network is prepared.
    pub(crate) fn on_prepared(self) -> (step: Step)
        ensures
            step@ == StepView::CleanPeerWithoutConn(self@),
    {
        Step::CleanPeerWithoutConn(self)
    }

    /// The peers without a connection are gone.
    pub(crate) fn on_cleaned(self) -> (step: Step)
        ensures
            step@ == self@.after_cleaning(),
    {
        if self.admission.need_update {
            Step::CleanAllPeers(self)
        } else {
            Step::CountPeers(self)
        }
    }

    /// All peers are gone.
    pub(crate) fn on_evicted(self) -> (step: Step)
        ensures
            step@ == StepView::CountPeers(self@),
    {
        Step::CountPeers(self)
    }

    /// How many peers the network has: it must not be full.
    pub(crate) fn on_peer_count(self, peers: usize) -> (step: Step)
        ensures
            step@ == self@.after_peer_count(peers),
    {
        if peers >= to_client_cap(self.admission.clients_limit) {
            Step::Refuse(db_error("房间用户数超限"))
        } else if self.admission.has_pool {
            Step::AcquireOnlineConn(self)
        } else {
            Step::CompareIdentity(self)
        }
    }

    /// There is another connection to the database, or the given reason why not.
    pub(crate) fn on_online_conn(self, conn: Result<(), String>) -> (step: Step)
        ensures
            step@ == self@.after_online_conn(conn_view(conn)),
    {
        match conn {
            Err(text) => Step::Refuse(Error::DbError(text)),
            Ok(_) => Step::CountOnline(self),
        }
    }

    /// How many peers the network has by now; with the new one there is one more.
    pub(crate) fn on_online_count(self, peers: usize) -> (step: Step)
        requires
            peers < usize::MAX,
        ensures
            step@ == self@.after_online_count(peers),
    {
        let statement = online_statement(peers + 1, self.admission.network.network_name.as_str());
        Step::StoreOnline(self, statement)
    }

    /// Whether the database has taken the number of peers.
    pub(crate) fn on_online_stored(self, stored: bool) -> (step: Step)
        ensures
            step@ == self@.after_online_stored(stored),
    {
        if stored {
            Step::CompareIdentity(self)
        } else {
            Step::Refuse(db_error("更新网络用户数失败"))
        }
    }

    /// Whether the network is served under the identity that the connection shows,
    /// as it has to be.
    pub(crate) fn on_identity_compared(self, same: bool) -> (step: Step)
        ensures
            step@ == self@.after_comparing(same),
    {
        if !same {
            Step::Refuse(
                Error::NetworkSecretNotMatch {
                    expected: self.entry.network.clone(),
                    shown: self.admission.network,
                },
            )
        } else if self.new_added {
            Step::StartEventHandler(self)
        } else {
            Step::AddConn(self)
        }
    }

    /// The events of the new network are followed.
    pub(crate) fn on_handler_started(self) -> (step: Step)
        ensures
            step@ == StepView::AddConn(self@),
    {
        Step::AddConn(self)
    }
}

} // verus!
