use p2p_mpc::network::{
    gossip_protocol_name, handle_assignment_message, listen_multiaddr, startup_topics, AssignmentMessage,
    AssignmentOutcome, GossipDisposition, IdentifyOutcome, NetworkState, ASSIGNMENT_TOPIC, PROTOCOL_NAME,
};
use p2p_mpc::rpc::SessionRegistry;
use p2p_mpc::str_map::StrMap;

fn s(x: &str) -> String {
    x.to_string()
}

fn assignments(pairs: &[(&str, usize)]) -> StrMap<usize> {
    let mut m = StrMap::new();
    for (k, v) in pairs {
        m.insert(s(k), *v);
    }
    m
}

#[test]
fn protocol_name_bytes() {
    assert_eq!(PROTOCOL_NAME, "/felix/mpc/0.0.0");
    assert_eq!(gossip_protocol_name(), vec![b"/felix/mpc/0.0.0".to_vec()]);
}

#[test]
fn startup_subscribes_assignment_topic_first() {
    let topics = startup_topics(&vec![s("mpc-computation"), s("mpc-control")]);
    assert_eq!(topics, vec![s("mpc-assignment"), s("mpc-computation"), s("mpc-control")]);
    assert_eq!(ASSIGNMENT_TOPIC, "mpc-assignment");
    assert_eq!(startup_topics(&Vec::new()), vec![s("mpc-assignment")]);
}

#[test]
fn listen_address_for_port() {
    assert_eq!(listen_multiaddr(9000), "/ip4/0.0.0.0/tcp/9000");
    assert_eq!(listen_multiaddr(0), "/ip4/0.0.0.0/tcp/0");
}

#[test]
fn identify_new_known_and_own_peers() {
    let mut n = NetworkState::new(s("me"), 9000);
    assert_eq!(n.on_peer_identified(s("me")), IdentifyOutcome::OwnIdentity);
    assert_eq!(n.peers, 0);
    assert_eq!(n.on_peer_identified(s("p1")), IdentifyOutcome::NewPeer { request_bootstrap: true });
    n.on_bootstrap_started(true);
    assert!(n.bootstrapped);
    assert_eq!(n.on_peer_identified(s("p2")), IdentifyOutcome::NewPeer { request_bootstrap: false });
    assert_eq!(n.on_peer_identified(s("p1")), IdentifyOutcome::KnownPeer);
    assert_eq!(n.peers, 2);
    assert_eq!(n.peer_list, vec![s("p1"), s("p2")]);
}

#[test]
fn sufficient_gossip_peers() {
    assert!(NetworkState::have_sufficient_peers(0, 0));
    assert!(NetworkState::have_sufficient_peers(3, 0));
    assert!(!NetworkState::have_sufficient_peers(0, 1));
    assert!(NetworkState::have_sufficient_peers(2, 2));
    assert!(!NetworkState::have_sufficient_peers(1, 2));
    assert!(NetworkState::have_sufficient_peers(5, 2));
}

#[test]
fn failed_bootstrap_is_retried_later() {
    let mut n = NetworkState::new(s("me"), 1);
    assert_eq!(n.on_peer_identified(s("a")), IdentifyOutcome::NewPeer { request_bootstrap: true });
    n.on_bootstrap_started(false);
    assert!(!n.bootstrapped);
    assert_eq!(n.on_peer_identified(s("b")), IdentifyOutcome::NewPeer { request_bootstrap: true });
    n.on_boot_node_dialed();
    assert!(n.bootstrapped);
}

#[test]
fn closing_connections() {
    let mut n = NetworkState::new(s("me"), 1);
    n.on_peer_identified(s("a"));
    n.on_peer_identified(s("b"));
    n.on_connection_closed(&s("a"));
    assert_eq!(n.peer_list, vec![s("b")]);
    assert_eq!(n.peers, 1);
    n.on_connection_closed(&s("unknown"));
    assert_eq!(n.peer_list, vec![s("b")]);
    assert_eq!(n.peers, 0);
    n.on_connection_closed(&s("b"));
    assert!(n.peer_list.is_empty());
    assert_eq!(n.peers, 0);
}

#[test]
fn listen_addresses_are_not_repeated() {
    let mut n = NetworkState::new(s("me"), 1);
    n.on_new_listen_addr(s("/ip4/127.0.0.1/tcp/9000"));
    n.on_new_listen_addr(s("/ip4/127.0.0.1/tcp/9000"));
    n.on_new_listen_addr(s("/ip4/10.0.0.2/tcp/9000"));
    assert_eq!(n.listen_addresses, vec![s("/ip4/127.0.0.1/tcp/9000"), s("/ip4/10.0.0.2/tcp/9000")]);
}

#[test]
fn gossip_classification() {
    let n = NetworkState::new(s("me"), 1);
    assert_eq!(n.classify_gossip(&Some(s("me")), true), GossipDisposition::OwnMessage);
    assert_eq!(n.classify_gossip(&Some(s("other")), true), GossipDisposition::Assignment);
    assert_eq!(n.classify_gossip(&None, true), GossipDisposition::Assignment);
    assert_eq!(n.classify_gossip(&Some(s("other")), false), GossipDisposition::Other);
}

#[test]
fn request_assigning_us_is_accepted() {
    let mut reg = SessionRegistry::new();
    let msg = AssignmentMessage::Request {
        coordinator_id: s("coord"),
        assignments: assignments(&[("coord", 0), ("me", 1), ("other", 2)]),
        session_id: s("coord-100"),
    };
    match handle_assignment_message(&s("me"), msg, &mut reg, 555) {
        AssignmentOutcome::SendAcceptance { coordinator_id, acceptance } => {
            assert_eq!(coordinator_id, "coord");
            match acceptance {
                AssignmentMessage::Acceptance { peer_id, assigned_index, session_id } => {
                    assert_eq!(peer_id, "me");
                    assert_eq!(assigned_index, 1);
                    assert_eq!(session_id, "coord-100");
                }
                other => panic!("unexpected {:?}", other),
            }
        }
        other => panic!("unexpected {:?}", other),
    }
    assert_eq!(reg.current_session_id, Some(s("coord-100")));
    let session = reg.sessions.get(&s("coord-100")).unwrap();
    assert_eq!(session.coordinator_id, "coord");
    assert_eq!(session.total_nodes, 3);
    assert_eq!(session.created_at, 555);
    assert_eq!(session.acceptances.len(), 0);
}

#[test]
fn coordinator_confirms_own_request() {
    let mut reg = SessionRegistry::new();
    let msg = AssignmentMessage::Request {
        coordinator_id: s("me"),
        assignments: assignments(&[("me", 0), ("p", 1)]),
        session_id: s("me-1"),
    };
    match handle_assignment_message(&s("me"), msg, &mut reg, 1) {
        AssignmentOutcome::CoordinatorConfirmed { assigned_index, total_nodes } => {
            assert_eq!(assigned_index, 0);
            assert_eq!(total_nodes, 2);
        }
        other => panic!("unexpected {:?}", other),
    }
}

#[test]
fn request_not_assigning_us_changes_nothing() {
    let mut reg = SessionRegistry::new();
    let msg = AssignmentMessage::Request {
        coordinator_id: s("c"),
        assignments: assignments(&[("c", 0)]),
        session_id: s("c-1"),
    };
    assert!(matches!(handle_assignment_message(&s("me"), msg, &mut reg, 1), AssignmentOutcome::NotAssigned));
    assert_eq!(reg.current_session_id, None);
    assert_eq!(reg.sessions.len(), 0);
}

#[test]
fn known_session_is_not_overwritten() {
    let mut reg = SessionRegistry::new();
    let first = AssignmentMessage::Request {
        coordinator_id: s("c"),
        assignments: assignments(&[("c", 0), ("me", 1)]),
        session_id: s("c-1"),
    };
    handle_assignment_message(&s("me"), first, &mut reg, 1);
    let second = AssignmentMessage::Request {
        coordinator_id: s("d"),
        assignments: assignments(&[("d", 0), ("me", 3), ("x", 1), ("y", 2)]),
        session_id: s("c-1"),
    };
    handle_assignment_message(&s("me"), second, &mut reg, 2);
    let session = reg.sessions.get(&s("c-1")).unwrap();
    assert_eq!(session.coordinator_id, "c");
    assert_eq!(session.created_at, 1);
    assert_eq!(session.total_nodes, 2);
}

#[test]
fn acceptances_are_recorded_once() {
    let mut reg = SessionRegistry::new();
    let req = AssignmentMessage::Request {
        coordinator_id: s("me"),
        assignments: assignments(&[("me", 0), ("a", 1), ("b", 2)]),
        session_id: s("me-9"),
    };
    handle_assignment_message(&s("me"), req, &mut reg, 9);
    let acc = |p: &str, i: usize| AssignmentMessage::Acceptance { peer_id: s(p), assigned_index: i, session_id: s("me-9") };
    match handle_assignment_message(&s("me"), acc("a", 1), &mut reg, 10) {
        AssignmentOutcome::AcceptanceRecorded { acceptance_count, total_expected, all_accepted, .. } => {
            assert_eq!(acceptance_count, 1);
            assert_eq!(total_expected, 2);
            assert!(!all_accepted);
        }
        other => panic!("unexpected {:?}", other),
    }
    match handle_assignment_message(&s("me"), acc("a", 1), &mut reg, 11) {
        AssignmentOutcome::AcceptanceRecorded { acceptance_count, all_accepted, .. } => {
            assert_eq!(acceptance_count, 1);
            assert!(!all_accepted);
        }
        other => panic!("unexpected {:?}", other),
    }
    match handle_assignment_message(&s("me"), acc("b", 2), &mut reg, 12) {
        AssignmentOutcome::AcceptanceRecorded { peer_id, assigned_index, session_id, acceptance_count, all_accepted, .. } => {
            assert_eq!(peer_id, "b");
            assert_eq!(assigned_index, 2);
            assert_eq!(session_id, "me-9");
            assert_eq!(acceptance_count, 2);
            assert!(all_accepted);
        }
        other => panic!("unexpected {:?}", other),
    }
}

#[test]
fn acceptance_for_unknown_session() {
    let mut reg = SessionRegistry::new();
    let acc = AssignmentMessage::Acceptance { peer_id: s("a"), assigned_index: 1, session_id: s("nope") };
    match handle_assignment_message(&s("me"), acc, &mut reg, 1) {
        AssignmentOutcome::UnknownSession { session_id } => assert_eq!(session_id, "nope"),
        other => panic!("unexpected {:?}", other),
    }
}

#[test]
fn bookkeeping_stays_sound_through_events() {
    let mut n = NetworkState::new(s("me"), 9000);
    n.on_peer_identified(s("a"));
    n.on_peer_identified(s("me"));
    n.on_peer_identified(s("b"));
    n.on_peer_identified(s("a"));
    n.on_new_listen_addr(s("/ip4/127.0.0.1/tcp/9000"));
    n.on_connection_closed(&s("a"));
    n.on_connection_closed(&s("a"));
    n.on_peer_identified(s("a"));
    n.on_new_listen_addr(s("/ip4/127.0.0.1/tcp/9000"));
    n.on_bootstrap_started(true);
    assert_eq!(n.peer_list, vec![s("b"), s("a")]);
    // The second close of `a` still counts down, as the worker always did.
    assert_eq!(n.peers, 1);
    assert!(!n.peer_list.contains(&s("me")));
    assert_eq!(n.listen_addresses, vec![s("/ip4/127.0.0.1/tcp/9000")]);
}
