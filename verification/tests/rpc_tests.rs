use p2p_mpc::mpc::orchestrator::{MPCOrchestrator, ProtocolState, Timestamp, CoordinationMessage};
use p2p_mpc::network::{AssignmentMessage, NetworkCommand};
use p2p_mpc::rpc::{
    aux_gen_message, broadcast_command, check_aux_gen_request, check_keygen_request, check_signing_request, keygen_message, signing_message,
    unix_time_secs, AssignmentFailure, AssignmentResponse, AuxGenRejection, BroadcastResponse, InitiateAuxGenResponse,
    InitiateKeygenResponse, InitiateSigningResponse, InitiationFailure, KeygenRejection, MultiaddressResponse,
    PeerListResponse, SessionInfo, SessionRegistry, SigningRejection, TopicListResponse,
};
use p2p_mpc::str_map::StrMap;

fn s(x: &str) -> String {
    x.to_string()
}

fn orchestrator(n: usize) -> MPCOrchestrator {
    let mut assignments = StrMap::new();
    let mut participants = Vec::new();
    for i in 0..n {
        let id = format!("peer{}", i);
        assignments.insert(id.clone(), i as u16);
        participants.push(id);
    }
    MPCOrchestrator::new(s("peer0"), participants, assignments, 60)
}

#[test]
fn session_info_counts() {
    let mut a = StrMap::new();
    a.insert(s("c"), 0usize);
    a.insert(s("x"), 1);
    a.insert(s("y"), 2);
    let mut info = SessionInfo::with_created_at(s("c-1"), s("c"), a, 77);
    assert_eq!(info.total_nodes, 3);
    assert_eq!(info.created_at, 77);
    assert_eq!(info.acceptance_count(), 0);
    assert!(!info.all_accepted());
    info.acceptances.insert(s("x"), true);
    info.acceptances.insert(s("y"), false);
    assert_eq!(info.acceptance_count(), 1);
    assert!(!info.all_accepted());
    info.acceptances.insert(s("y"), true);
    assert_eq!(info.acceptance_count(), 2);
    assert!(info.all_accepted());
}

#[test]
fn lone_coordinator_session_is_complete() {
    let mut a = StrMap::new();
    a.insert(s("c"), 0usize);
    let info = SessionInfo::with_created_at(s("c-1"), s("c"), a, 0);
    assert!(info.all_accepted());
}

#[test]
fn session_info_new_reads_the_clock() {
    let before = unix_time_secs().unwrap();
    let info = SessionInfo::new(s("id"), s("c"), StrMap::new()).unwrap();
    assert!(info.created_at >= before);
    assert!(info.created_at > 1_600_000_000);
    assert_eq!(info.total_nodes, 0);
}

#[test]
fn assigning_indices() {
    let mut reg = SessionRegistry::new();
    let plan = reg.assign_peer_indices(&s("coord"), &vec![s("p1"), s("p2")], 1700000000);
    assert_eq!(plan.session_id, "coord-1700000000");
    assert_eq!(plan.assignments.get(&s("coord")), Some(&0));
    assert_eq!(plan.assignments.get(&s("p1")), Some(&1));
    assert_eq!(plan.assignments.get(&s("p2")), Some(&2));
    assert_eq!(plan.assignments.len(), 3);
    match &plan.message {
        AssignmentMessage::Request { coordinator_id, assignments, session_id } => {
            assert_eq!(coordinator_id, "coord");
            assert_eq!(session_id, "coord-1700000000");
            assert_eq!(assignments.len(), 3);
        }
        other => panic!("unexpected {:?}", other),
    }
    assert_eq!(reg.current_session_id, Some(s("coord-1700000000")));
    assert_eq!(reg.peer_assignments.len(), 3);
    assert_eq!(reg.assignment_acceptances.len(), 0);
    let session = reg.sessions.get(&s("coord-1700000000")).unwrap();
    assert_eq!(session.total_nodes, 3);
    assert_eq!(session.created_at, 1700000000);

    let response = AssignmentResponse::sent(plan, 2);
    assert!(response.success);
    assert_eq!(response.session_id, "coord-1700000000");
    assert_eq!(response.message, "Assignment created for 3 total nodes: coordinator (index 0) + 2 peers");
}

#[test]
fn assigning_with_no_peers() {
    let mut reg = SessionRegistry::new();
    let plan = reg.assign_peer_indices(&s("c"), &Vec::new(), 5);
    assert_eq!(plan.assignments.len(), 1);
    assert_eq!(plan.session_id, "c-5");
}

#[test]
fn assignment_failure_replies() {
    let r = AssignmentResponse::failed(s("c-5"), AssignmentFailure::Broadcast, "channel closed");
    assert!(!r.success);
    assert_eq!(r.session_id, "c-5");
    assert_eq!(r.assignments.len(), 0);
    assert_eq!(r.message, "Failed to broadcast assignment: channel closed");
    let r = AssignmentResponse::failed(s("c-5"), AssignmentFailure::Serialize, "bad");
    assert_eq!(r.message, "Failed to serialize assignment: bad");
}

#[test]
fn session_status_replies() {
    let mut reg = SessionRegistry::new();
    let r = reg.session_status(None);
    assert!(!r.success);
    assert_eq!(r.message, "No active session found");
    assert_eq!(r.session_id, "");

    let r = reg.session_status(Some(s("missing")));
    assert!(!r.success);
    assert_eq!(r.session_id, "missing");
    assert_eq!(r.message, "Session 'missing' not found");

    reg.assign_peer_indices(&s("c"), &vec![s("a"), s("b")], 10);
    let r = reg.session_status(None);
    assert!(r.success);
    assert_eq!(r.session_id, "c-10");
    assert_eq!(r.coordinator_id, "c");
    assert_eq!(r.total_nodes, 3);
    assert_eq!(r.acceptance_count, 0);
    assert!(!r.all_accepted);
    assert_eq!(r.created_at, 10);
    assert_eq!(r.message, "Waiting for acceptances: 0/2 received");
    assert_eq!(r.assignments.len(), 3);

    for p in ["a", "b"] {
        let acc = AssignmentMessage::Acceptance { peer_id: s(p), assigned_index: 1, session_id: s("c-10") };
        p2p_mpc::network::handle_assignment_message(&s("c"), acc, &mut reg, 11);
    }
    let r = reg.session_status(Some(s("c-10")));
    assert!(r.all_accepted);
    assert_eq!(r.acceptance_count, 2);
    assert_eq!(r.acceptances.len(), 2);
    assert_eq!(r.message, "All 2 peers have accepted their assignments");
}

#[test]
fn list_replies() {
    let r = PeerListResponse::new(vec![s("a"), s("b")]);
    assert_eq!(r.count, 2);
    let r = TopicListResponse::new(vec![s("t")]);
    assert_eq!(r.count, 1);
    assert_eq!(r.topics, vec![s("t")]);
    let r = MultiaddressResponse::new(Vec::new());
    assert_eq!(r.count, 0);
}

#[test]
fn broadcast_replies() {
    match broadcast_command(s("chat"), "hi ü") {
        NetworkCommand::Broadcast { topic, data } => {
            assert_eq!(topic, "chat");
            assert_eq!(data, "hi ü".as_bytes().to_vec());
        }
        other => panic!("unexpected {:?}", other),
    }
    let r = BroadcastResponse::for_send("chat", None);
    assert!(r.success);
    assert_eq!(r.message, "Message broadcast to topic 'chat' initiated");
    let r = BroadcastResponse::for_send("chat", Some("channel closed"));
    assert!(!r.success);
    assert_eq!(r.message, "Failed to broadcast: channel closed");
}

#[test]
fn aux_gen_checks_and_replies() {
    assert_eq!(check_aux_gen_request(None), Err(AuxGenRejection::NotInitialized));
    let mut o = orchestrator(3);
    assert_eq!(check_aux_gen_request(Some(&o)), Ok(()));
    o.state = ProtocolState::AuxCompleted { completed_at: 0, success_count: 1 };
    assert_eq!(check_aux_gen_request(Some(&o)), Err(AuxGenRejection::NotIdle));

    let r = InitiateAuxGenResponse::rejected(AuxGenRejection::NotInitialized, "");
    assert!(!r.success);
    assert_eq!(r.message, "MPC orchestrator not initialized. Please assign peer indices first.");
    let r = InitiateAuxGenResponse::rejected(AuxGenRejection::NotIdle, "Keygen");
    assert_eq!(r.message, "Cannot initiate aux generation. Current state: Keygen");
    assert_eq!(r.execution_id, None);

    let id = b"aux-1".to_vec();
    let r = InitiateAuxGenResponse::failed(InitiationFailure::Serialize, "e", &id);
    assert_eq!(r.message, "Failed to serialize coordination message: e");
    assert_eq!(r.execution_id, None);
    let r = InitiateAuxGenResponse::failed(InitiationFailure::Broadcast, "e", &id);
    assert_eq!(r.message, "Failed to broadcast message: e");
    assert_eq!(r.execution_id, Some(s("6175782d31")));
    let r = InitiateAuxGenResponse::failed(InitiationFailure::LocalHandling, "e", &id);
    assert_eq!(r.message, "Failed to process locally: e");
    let r = InitiateAuxGenResponse::initiated(3, &id);
    assert!(r.success);
    assert_eq!(r.message, "Aux generation initiated with 3 participants");
    assert_eq!(r.execution_id, Some(s("6175782d31")));
}

#[test]
fn aux_gen_message_carries_setup() {
    let o = orchestrator(2);
    let t = Timestamp { secs: 3, nanos: 4 };
    match aux_gen_message(&o, vec![9], t) {
        CoordinationMessage::InitiateAux { execution_id, participants, party_assignments, timestamp } => {
            assert_eq!(execution_id, vec![9]);
            assert_eq!(participants, vec![s("peer0"), s("peer1")]);
            assert_eq!(party_assignments.get(&s("peer1")), Some(&1));
            assert_eq!(timestamp, t);
        }
        other => panic!("unexpected {:?}", other),
    }
}

#[test]
fn keygen_checks_and_replies() {
    assert_eq!(check_keygen_request(None, 2), Err(KeygenRejection::NotInitialized));
    let mut o = orchestrator(3);
    assert_eq!(check_keygen_request(Some(&o), 0), Err(KeygenRejection::ThresholdZero { total_parties: 3 }));
    assert_eq!(check_keygen_request(Some(&o), 4), Err(KeygenRejection::ThresholdExceedsParties { total_parties: 3 }));
    assert_eq!(check_keygen_request(Some(&o), 2), Ok(3));
    o.state = ProtocolState::KeygenCompleted { completed_at: 0, public_key: s("02") };
    assert_eq!(check_keygen_request(Some(&o), 2), Err(KeygenRejection::WrongState { total_parties: 3 }));

    let r = InitiateKeygenResponse::rejected(KeygenRejection::NotInitialized, 2, "");
    assert_eq!(r.threshold, None);
    assert_eq!(r.total_parties, None);
    let r = InitiateKeygenResponse::rejected(KeygenRejection::ThresholdZero { total_parties: 3 }, 0, "");
    assert_eq!(r.message, "Threshold must be at least 1");
    assert_eq!(r.threshold, Some(0));
    assert_eq!(r.total_parties, Some(3));
    let r = InitiateKeygenResponse::rejected(KeygenRejection::ThresholdExceedsParties { total_parties: 3 }, 4, "");
    assert_eq!(r.message, "Threshold (4) cannot exceed total parties (3)");
    let r = InitiateKeygenResponse::rejected(KeygenRejection::WrongState { total_parties: 3 }, 2, "Signing");
    assert_eq!(r.message, "Cannot initiate keygen. Must complete aux generation first. Current state: Signing");
    let id = vec![0xab];
    let r = InitiateKeygenResponse::failed(InitiationFailure::Broadcast, "x", &id, 2, 3);
    assert_eq!(r.execution_id, Some(s("ab")));
    assert_eq!(r.message, "Failed to broadcast message: x");
    let r = InitiateKeygenResponse::initiated(2, 3, &id);
    assert!(r.success);
    assert_eq!(r.message, "Keygen initiated with 3 participants (threshold: 2)");
}

#[test]
fn signing_checks_and_replies() {
    assert_eq!(check_signing_request(None, &vec![0]), Err(SigningRejection::NotInitialized));
    let mut o = orchestrator(3);
    assert_eq!(check_signing_request(Some(&o), &Vec::new()), Err(SigningRejection::EmptySigners));
    assert_eq!(
        check_signing_request(Some(&o), &vec![0, 5, 7]),
        Err(SigningRejection::InvalidSigner { signer: 5, total_parties: 3 })
    );
    assert_eq!(check_signing_request(Some(&o), &vec![0, 1]), Ok(3));
    o.state = ProtocolState::AuxCompleted { completed_at: 0, success_count: 1 };
    assert_eq!(check_signing_request(Some(&o), &vec![0, 1]), Err(SigningRejection::WrongState));

    let signers = vec![0u16, 1];
    let r = InitiateSigningResponse::rejected(SigningRejection::NotInitialized, &signers, "");
    assert_eq!(r.signers, None);
    let r = InitiateSigningResponse::rejected(SigningRejection::EmptySigners, &Vec::new(), "");
    assert_eq!(r.message, "Signers list cannot be empty");
    assert_eq!(r.signers, Some(Vec::new()));
    let r = InitiateSigningResponse::rejected(SigningRejection::InvalidSigner { signer: 5, total_parties: 3 }, &signers, "");
    assert_eq!(r.message, "Invalid signer index: 5 (total parties: 3)");
    let r = InitiateSigningResponse::rejected(SigningRejection::WrongState, &signers, "Idle");
    assert_eq!(r.message, "Cannot initiate signing. Must complete keygen first. Current state: Idle");
    let id = vec![1, 2];
    let r = InitiateSigningResponse::failed(InitiationFailure::LocalHandling, "no", &id, &signers);
    assert_eq!(r.message, "Failed to process locally: no");
    assert_eq!(r.execution_id, Some(s("0102")));
    let r = InitiateSigningResponse::completed(&signers, "hello", &id, s("sig"));
    assert!(r.success);
    assert_eq!(r.message, "Signing completed with 2 signers for message: hello");
    assert_eq!(r.signature, Some(s("sig")));
    let r = InitiateSigningResponse::incomplete(&id, &signers);
    assert!(!r.success);
    assert_eq!(r.message, "Signing initiated but failed to complete (timeout or error)");
}

#[test]
fn replies_after_initiation() {
    let id = vec![0xab, 0x01];
    let r = InitiateAuxGenResponse::after_initiation(Ok(()), 3, &id);
    assert!(r.success);
    assert_eq!(r.message, "Aux generation initiated with 3 participants");
    assert_eq!(r.execution_id, Some(s("ab01")));
    let r = InitiateAuxGenResponse::after_initiation(Err((InitiationFailure::Serialize, s("bad"))), 3, &id);
    assert!(!r.success);
    assert_eq!(r.message, "Failed to serialize coordination message: bad");
    assert_eq!(r.execution_id, None);

    let r = InitiateKeygenResponse::after_initiation(Ok(()), 2, 3, &id);
    assert!(r.success);
    assert_eq!(r.message, "Keygen initiated with 3 participants (threshold: 2)");
    assert_eq!((r.threshold, r.total_parties), (Some(2), Some(3)));
    let r = InitiateKeygenResponse::after_initiation(Err((InitiationFailure::Broadcast, s("closed"))), 2, 3, &id);
    assert!(!r.success);
    assert_eq!(r.message, "Failed to broadcast message: closed");
    assert_eq!(r.execution_id, Some(s("ab01")));

    let signers = vec![0u16, 1];
    let r = InitiateSigningResponse::after_initiation(Ok(Some(s("sig"))), &signers, "hi", &id);
    assert!(r.success);
    assert_eq!(r.message, "Signing completed with 2 signers for message: hi");
    assert_eq!(r.signature, Some(s("sig")));
    let r = InitiateSigningResponse::after_initiation(Ok(None), &signers, "hi", &id);
    assert!(!r.success);
    assert_eq!(r.message, "Signing initiated but failed to complete (timeout or error)");
    let r = InitiateSigningResponse::after_initiation(Err((InitiationFailure::LocalHandling, s("no"))), &signers, "hi", &id);
    assert_eq!(r.message, "Failed to process locally: no");
    assert_eq!(r.signers, Some(signers.clone()));
    assert_eq!(r.signature, None);
}

#[test]
fn keygen_and_signing_messages() {
    let ts = Timestamp { secs: 7, nanos: 9 };
    match keygen_message(vec![1, 2], 2, 3, ts) {
        CoordinationMessage::InitiateKeygen { execution_id, threshold, total_parties, timestamp } => {
            assert_eq!(execution_id, vec![1, 2]);
            assert_eq!((threshold, total_parties), (2, 3));
            assert_eq!(timestamp, ts);
        }
        other => panic!("unexpected message {:?}", other),
    }
    match signing_message(vec![3], "héllo", &vec![0, 2], ts) {
        CoordinationMessage::InitiateSigning { execution_id, message, signers, timestamp } => {
            assert_eq!(execution_id, vec![3]);
            assert_eq!(message, "héllo".as_bytes().to_vec());
            assert_eq!(signers, vec![0, 2]);
            assert_eq!(timestamp, ts);
        }
        other => panic!("unexpected message {:?}", other),
    }
}
