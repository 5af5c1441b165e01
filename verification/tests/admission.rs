use foreign_network::admission::{to_client_cap, ConnRequest, NetworkSettings, Reply, Step};
use foreign_network::conversation::Conversation;
use foreign_network::error::Error;
use foreign_network::identity::NetworkIdentity;
use foreign_network::manager::ForeignNetworkManager;

fn identity(name: &str, byte: u8) -> NetworkIdentity {
    NetworkIdentity { network_name: name.to_string(), network_secret_digest: Some([byte; 32]) }
}

fn request(name: &str, byte: u8, peer_id: u32, peer_map: u64) -> ConnRequest {
    ConnRequest {
        network: identity(name, byte),
        peer_id,
        relay_all_peer_rpc: false,
        whitelisted: Ok(()),
        peer_map,
    }
}

fn unlisted(relay_all_peer_rpc: bool) -> ConnRequest {
    ConnRequest {
        relay_all_peer_rpc,
        whitelisted: Err(Error::Anyhow("network net not in whitelist".to_string())),
        ..request("net", 1, 2, 100)
    }
}

fn settings(clients_limit: i32, need_update: i32, enable_dhcp: i32) -> Reply {
    Reply::Settings(NetworkSettings { clients_limit, need_update, enable_dhcp })
}

/// What the database of a permitted peer answers, up to the settings.
fn permission() -> Vec<Reply> {
    vec![
        Reply::Conn(Ok(())),
        Reply::Network(Some(1)),
        Reply::UserId("u7".to_string()),
        Reply::Traffic(Some(1)),
        Reply::Password("p".to_string()),
        Reply::SecretDigest([1; 32]),
    ]
}

fn tell(
    manager: &mut ForeignNetworkManager,
    conversation: Conversation,
    replies: Vec<Reply>,
) -> Conversation {
    let mut conversation = conversation;
    for reply in replies {
        conversation = manager.answer(conversation, reply);
    }
    conversation
}

fn asked(manager: &mut ForeignNetworkManager, replies: Vec<Reply>) -> Conversation {
    let conversation = manager.add_peer_conn(request("net", 1, 2, 100));
    tell(manager, conversation, replies)
}

fn permitted(manager: &mut ForeignNetworkManager, replies: Vec<Reply>) -> Conversation {
    let conversation = asked(manager, permission());
    assert!(matches!(conversation.step(), Step::ReadSettings(_)));
    tell(manager, conversation, replies)
}

fn db_text(conversation: Conversation) -> String {
    match conversation.into_step() {
        Step::Refuse(Error::DbError(text)) => text,
        _ => panic!("the connection was not turned away by the database"),
    }
}

/// Does whatever is asked for, up to counting the peers.
fn counting(manager: &mut ForeignNetworkManager, conversation: Conversation) -> Conversation {
    let mut conversation = conversation;
    while !matches!(conversation.step(), Step::CountPeers(_)) {
        assert!(!matches!(conversation.step(), Step::Refuse(_)));
        conversation = manager.answer(conversation, Reply::Done);
    }
    conversation
}

/// Lets a peer in where there is no database, comparing identities as they are.
fn let_in(manager: &mut ForeignNetworkManager, request: ConnRequest) -> Conversation {
    let conversation = manager.add_peer_conn(request);
    let conversation = counting(manager, conversation);
    let conversation = manager.answer(conversation, Reply::PeerCount(0));
    let same = match conversation.step() {
        Step::CompareIdentity(entered) => entered.entry.network == entered.admission.network,
        _ => panic!("the identities were not compared"),
    };
    let conversation = manager.answer(conversation, Reply::SameIdentity(same));
    match conversation.step() {
        Step::StartEventHandler(_) => manager.answer(conversation, Reply::Done),
        _ => conversation,
    }
}

#[test]
fn without_database_the_first_peer_makes_the_network() {
    let mut manager = ForeignNetworkManager::new(9, false);
    let conversation = manager.add_peer_conn(request("net", 1, 2, 100));
    match conversation.step() {
        Step::Enter(admission) => {
            assert_eq!(admission.clients_limit, i32::MAX);
            assert_eq!(admission.ip_range, "192.168.100.0");
            assert!(!admission.need_update);
        }
        _ => panic!("enter"),
    }
    let conversation = manager.answer(conversation, Reply::Done);
    match conversation.step() {
        Step::Prepare(entered) => {
            assert!(entered.new_added);
            assert_eq!(entered.entry.my_peer_id, 9);
            assert_eq!(entered.entry.peer_map, 100);
            assert!(entered.entry.relay_data);
        }
        _ => panic!("prepare"),
    }
    let conversation = manager.answer(conversation, Reply::Done);
    assert!(matches!(conversation.step(), Step::CleanPeerWithoutConn(_)));
    let conversation = manager.answer(conversation, Reply::Done);
    assert!(matches!(conversation.step(), Step::CountPeers(_)));
    let conversation = manager.answer(conversation, Reply::PeerCount(0));
    assert!(matches!(conversation.step(), Step::CompareIdentity(_)));
    let conversation = manager.answer(conversation, Reply::SameIdentity(true));
    assert!(matches!(conversation.step(), Step::StartEventHandler(_)));
    let conversation = manager.answer(conversation, Reply::Done);
    assert!(matches!(conversation.step(), Step::AddConn(_)));
    assert_eq!(manager.data.get_peer_network(2), Some("net".to_string()));
    assert!(manager.get_foreign_network_last_update("net").is_some());
}

#[test]
fn a_second_peer_finds_the_first_record() {
    let mut manager = ForeignNetworkManager::new(9, false);
    let first = let_in(&mut manager, request("net", 1, 2, 100));
    assert!(matches!(first.step(), Step::AddConn(_)));
    let Step::AddConn(entered) = let_in(&mut manager, request("net", 1, 3, 101)).into_step()
    else {
        panic!("add")
    };
    assert!(!entered.new_added);
    assert_eq!(entered.entry.peer_map, 100);
    assert_eq!(manager.data.get_peer_network(3), Some("net".to_string()));
}

#[test]
fn another_secret_is_turned_away_and_the_network_stays() {
    let mut manager = ForeignNetworkManager::new(9, false);
    let_in(&mut manager, request("net", 1, 2, 100));
    match let_in(&mut manager, request("net", 5, 3, 101)).into_step() {
        Step::Refuse(Error::NetworkSecretNotMatch { expected, shown }) => {
            assert_eq!(expected, identity("net", 1));
            assert_eq!(shown, identity("net", 5));
        }
        _ => panic!("the secret was not compared"),
    }
    let entry = manager.data.get_network_entry("net").unwrap();
    assert_eq!(entry.peer_map, 100);
}

#[test]
fn identities_are_compared_by_name_and_digest() {
    let bare = NetworkIdentity { network_name: "net".to_string(), network_secret_digest: None };
    assert!(identity("net", 1) == identity("net", 1));
    assert!(identity("net", 1) != identity("net", 2));
    assert!(identity("net", 1) != identity("other", 1));
    assert!(bare == bare.clone());
    assert!(bare != identity("net", 0));
}

#[test]
fn a_new_record_that_differs_is_forgotten() {
    let mut manager = ForeignNetworkManager::new(9, false);
    let conversation = manager.add_peer_conn(request("net", 1, 2, 100));
    let conversation = counting(&mut manager, conversation);
    let replies = vec![Reply::PeerCount(0), Reply::SameIdentity(false)];
    let conversation = tell(&mut manager, conversation, replies);
    assert!(matches!(
        conversation.step(),
        Step::Refuse(Error::NetworkSecretNotMatch { .. })
    ));
    assert!(manager.data.get_network_entry("net").is_none());
    assert!(manager.data.get_peer_network(2).is_none());
    assert!(manager.get_foreign_network_last_update("net").is_none());
}

#[test]
fn an_unlisted_network_is_turned_away_with_the_reason() {
    let manager = ForeignNetworkManager::new(9, true);
    match manager.add_peer_conn(unlisted(false)).into_step() {
        Step::Refuse(Error::Anyhow(text)) => assert_eq!(text, "network net not in whitelist"),
        _ => panic!("the list was not asked"),
    }
}

#[test]
fn an_unlisted_network_may_still_be_signalled() {
    let mut manager = ForeignNetworkManager::new(9, false);
    let Step::AddConn(entered) = let_in(&mut manager, unlisted(true)).into_step() else {
        panic!("add")
    };
    assert!(!entered.entry.relay_data);
}

#[test]
fn the_database_is_asked_for_the_network_and_the_user() {
    let mut manager = ForeignNetworkManager::new(9, true);
    let conversation = asked(&mut manager, vec![Reply::Conn(Ok(()))]);
    match conversation.step() {
        Step::FetchNetwork(_, statement) => {
            assert_eq!(
                statement.sql,
                "SELECT * FROM vnets WHERE token=? AND deleted_at IS NULL"
            );
            assert_eq!(statement.bound, "net");
        }
        _ => panic!("network"),
    }
    let replies = vec![Reply::Network(Some(1)), Reply::UserId("u7".to_string())];
    let conversation = tell(&mut manager, conversation, replies);
    match conversation.step() {
        Step::FetchTraffic(_, statement) => {
            assert_eq!(
                statement.sql,
                "SELECT remaining_traffic FROM users WHERE user_id=? AND deleted_at IS NULL"
            );
            assert_eq!(statement.bound, "u7");
        }
        _ => panic!("traffic"),
    }
}

#[test]
fn a_name_with_quotes_is_only_a_name() {
    let name = "x' OR '1'='1";
    let mut manager = ForeignNetworkManager::new(9, true);
    let conversation = manager.add_peer_conn(request(name, 1, 2, 100));
    let conversation = manager.answer(conversation, Reply::Conn(Ok(())));
    match conversation.step() {
        Step::FetchNetwork(_, statement) => {
            assert_eq!(
                statement.sql,
                "SELECT * FROM vnets WHERE token=? AND deleted_at IS NULL"
            );
            assert_eq!(statement.bound, name);
        }
        _ => panic!("network"),
    }
    let conversation = manager.answer(conversation, Reply::Network(None));
    assert_eq!(db_text(conversation), "找不到网络");
    assert!(manager.data.get_network_entry(name).is_none());
}

#[test]
fn the_name_and_the_password_are_digested() {
    let mut manager = ForeignNetworkManager::new(9, true);
    let mut replies = permission();
    replies.pop();
    let conversation = asked(&mut manager, replies);
    match conversation.step() {
        Step::DigestSecret(_, network_name, password) => {
            assert_eq!(network_name, "net");
            assert_eq!(password, "p");
        }
        _ => panic!("digest"),
    }
}

#[test]
fn an_answer_to_another_step_changes_nothing() {
    let mut manager = ForeignNetworkManager::new(9, true);
    let conversation = asked(&mut manager, vec![]);
    let early = vec![
        settings(5, 0, 0),
        Reply::SecretDigest([1; 32]),
        Reply::Done,
        Reply::SameIdentity(true),
        Reply::PeerCount(0),
    ];
    let conversation = tell(&mut manager, conversation, early);
    assert!(matches!(conversation.step(), Step::AcquireConn(_)));
    assert!(manager.data.network_names().is_empty());
}

#[test]
fn what_is_over_stays_over() {
    let mut manager = ForeignNetworkManager::new(9, true);
    let conversation = asked(&mut manager, vec![Reply::Conn(Ok(())), Reply::Network(None)]);
    let replies = permission();
    let conversation = tell(&mut manager, conversation, replies);
    assert_eq!(db_text(conversation), "找不到网络");
}

#[test]
fn no_connection_to_the_database_is_a_refusal() {
    let mut manager = ForeignNetworkManager::new(9, true);
    let conversation = asked(&mut manager, vec![Reply::Conn(Err("pool timed out".to_string()))]);
    assert_eq!(db_text(conversation), "pool timed out");
}

#[test]
fn a_disabled_network_is_turned_away() {
    let mut manager = ForeignNetworkManager::new(9, true);
    for enabled in [0, 2, -1, i32::MAX] {
        let replies = vec![Reply::Conn(Ok(())), Reply::Network(Some(enabled))];
        assert_eq!(db_text(asked(&mut manager, replies)), "网络已被禁用");
    }
}

#[test]
fn an_unknown_user_is_turned_away() {
    let mut manager = ForeignNetworkManager::new(9, true);
    let mut replies = permission();
    replies.truncate(3);
    replies.push(Reply::Traffic(None));
    assert_eq!(db_text(asked(&mut manager, replies)), "获取用户流量失败");
}

#[test]
fn a_user_without_traffic_is_turned_away() {
    let mut manager = ForeignNetworkManager::new(9, true);
    for remaining in [0, -1, i64::MIN] {
        let mut replies = permission();
        replies.truncate(3);
        replies.push(Reply::Traffic(Some(remaining)));
        assert_eq!(db_text(asked(&mut manager, replies)), "用户流量已用完");
    }
}

#[test]
fn a_wrong_secret_is_turned_away() {
    let mut manager = ForeignNetworkManager::new(9, true);
    let mut digest = [1u8; 32];
    digest[31] = 2;
    let mut replies = permission();
    replies.pop();
    replies.push(Reply::SecretDigest(digest));
    assert_eq!(db_text(asked(&mut manager, replies)), "网络密钥不匹配");
    assert!(manager.data.network_names().is_empty());
}

#[test]
fn a_missing_digest_counts_as_zeros() {
    let mut manager = ForeignNetworkManager::new(9, true);
    for byte in [0, 1] {
        let conversation = manager.add_peer_conn(ConnRequest {
            network: NetworkIdentity {
                network_name: "net".to_string(),
                network_secret_digest: None,
            },
            ..request("net", 1, 2, 100)
        });
        let mut replies = permission();
        replies.pop();
        replies.push(Reply::SecretDigest([byte; 32]));
        let conversation = tell(&mut manager, conversation, replies);
        if byte == 0 {
            assert!(matches!(conversation.step(), Step::ReadSettings(_)));
        } else {
            assert_eq!(db_text(conversation), "网络密钥不匹配");
        }
    }
}

#[test]
fn the_settings_are_followed() {
    let mut manager = ForeignNetworkManager::new(9, true);
    let conversation = permitted(&mut manager, vec![settings(5, 1, 1)]);
    assert!(matches!(conversation.step(), Step::ReadIpRange(_)));
    let range = Reply::IpRange("10.1.2.0".to_string());
    let conversation = manager.answer(conversation, range);
    match conversation.step() {
        Step::ClearNeedUpdate(admission, statement) => {
            assert_eq!(
                statement.sql,
                "UPDATE vnets SET need_update=0 WHERE token=? AND deleted_at IS NULL"
            );
            assert_eq!(statement.bound, "net");
            assert_eq!(admission.ip_range, "10.1.2.0");
            assert_eq!(admission.clients_limit, 5);
        }
        _ => panic!("update"),
    }
    let conversation = manager.answer(conversation, Reply::Done);
    assert!(matches!(conversation.step(), Step::Enter(_)));
    manager.answer(conversation, Reply::Done);
    assert_eq!(manager.data.get_network_entry("net").unwrap().ip_range, "10.1.2.0");
}

#[test]
fn without_dhcp_the_usual_addresses_are_handed_out() {
    let mut manager = ForeignNetworkManager::new(9, true);
    let conversation = permitted(&mut manager, vec![settings(5, 2, 2)]);
    match conversation.step() {
        Step::Enter(admission) => {
            assert_eq!(admission.ip_range, "192.168.100.0");
            assert!(!admission.need_update);
        }
        _ => panic!("enter"),
    }
}

#[test]
fn with_database_the_number_of_peers_is_stored() {
    let mut manager = ForeignNetworkManager::new(9, true);
    let conversation = permitted(&mut manager, vec![settings(5, 0, 0)]);
    let conversation = counting(&mut manager, conversation);
    let replies = vec![Reply::PeerCount(4), Reply::Conn(Ok(())), Reply::PeerCount(1199)];
    let conversation = tell(&mut manager, conversation, replies);
    match conversation.step() {
        Step::StoreOnline(_, statement) => {
            assert_eq!(
                statement.sql,
                "UPDATE vnets SET clients_online=1200 WHERE token=? AND deleted_at IS NULL"
            );
            assert_eq!(statement.bound, "net");
        }
        _ => panic!("store"),
    }
    let replies = vec![Reply::Stored(true), Reply::SameIdentity(true), Reply::Done];
    let conversation = tell(&mut manager, conversation, replies);
    assert!(matches!(conversation.step(), Step::AddConn(_)));
}

#[test]
fn the_number_of_peers_has_to_be_stored() {
    let mut manager = ForeignNetworkManager::new(9, true);
    let conversation = permitted(&mut manager, vec![settings(5, 0, 0)]);
    let conversation = counting(&mut manager, conversation);
    let replies = vec![Reply::PeerCount(0), Reply::Conn(Err("gone away".to_string()))];
    assert_eq!(db_text(tell(&mut manager, conversation, replies)), "gone away");
    let conversation = permitted(&mut manager, vec![settings(5, 0, 0)]);
    let conversation = counting(&mut manager, conversation);
    let replies = vec![
        Reply::PeerCount(0),
        Reply::Conn(Ok(())),
        Reply::PeerCount(0),
        Reply::Stored(false),
    ];
    assert_eq!(db_text(tell(&mut manager, conversation, replies)), "更新网络用户数失败");
}

#[test]
fn a_full_network_is_turned_away_and_still_served() {
    let mut manager = ForeignNetworkManager::new(9, true);
    for (limit, peers, full) in [(5, 5, true), (5, 6, true), (5, 4, false), (0, 0, true)] {
        let conversation = permitted(&mut manager, vec![settings(limit, 0, 0)]);
        let conversation = counting(&mut manager, conversation);
        let conversation = manager.answer(conversation, Reply::PeerCount(peers));
        if full {
            assert_eq!(db_text(conversation), "房间用户数超限");
        } else {
            assert!(matches!(conversation.step(), Step::AcquireOnlineConn(_)));
        }
    }
    assert!(manager.data.get_network_entry("net").is_some());
}

#[test]
fn a_negative_limit_never_makes_a_network_full() {
    assert_eq!(to_client_cap(-1), usize::MAX);
    assert_eq!(to_client_cap(i32::MIN), i32::MIN as usize);
    assert_eq!(to_client_cap(0), 0);
    assert_eq!(to_client_cap(i32::MAX), 2147483647);
}

#[test]
fn all_peers_leave_when_the_network_needs_an_update() {
    let mut manager = ForeignNetworkManager::new(9, true);
    let conversation = permitted(&mut manager, vec![settings(5, 1, 0)]);
    assert!(matches!(conversation.step(), Step::ClearNeedUpdate(_, _)));
    let replies = vec![Reply::Done, Reply::Done, Reply::Done, Reply::Done];
    let conversation = tell(&mut manager, conversation, replies);
    assert!(matches!(conversation.step(), Step::CleanAllPeers(_)));
    let conversation = manager.answer(conversation, Reply::Done);
    assert!(matches!(conversation.step(), Step::CountPeers(_)));
}

#[test]
fn a_step_is_answered_by_its_own_reply() {
    let manager = ForeignNetworkManager::new(9, true);
    let step = manager.add_peer_conn(request("net", 1, 2, 100)).into_step();
    let step = step.answered(Reply::Done);
    assert!(matches!(step, Step::AcquireConn(_)));
    let step = step.answered(Reply::Conn(Ok(())));
    assert!(matches!(step, Step::FetchNetwork(_, _)));
}
