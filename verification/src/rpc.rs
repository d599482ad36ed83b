//! Sessions of party-index assignments, and the replies of the node's
//! JSON-RPC interface.

use vstd::prelude::*;
use crate::str_map::StrMap;
use crate::str_map::true_keys;
use crate::text::{concat2, concat3, concat4, concat5, decimal, decimal_string, usize_decimal_string, hex_lower, hex_string, copy_strings, copy_vec};
use crate::network::{AssignmentMessage, NetworkCommand};
use crate::mpc::orchestrator::{MPCOrchestrator, CoordinationMessage, Timestamp, can_start_aux, can_start_keygen, can_start_signing};

verus! {

#[verifier::external_type_specification]
#[verifier::external_body]
pub struct ExSystemTime(std::time::SystemTime);

/// `SystemTime::now`: a reading of the wall clock; nothing is promised of it.
#[verifier::external_body]
fn system_time_now() -> std::time::SystemTime {
    std::time::SystemTime::now()
}

/// `SystemTime::duration_since(UNIX_EPOCH)`, with its error (a time before
/// the epoch) as `None`; nothing is promised of the duration.
#[verifier::external_body]
fn duration_since_unix_epoch(t: &std::time::SystemTime) -> Option<std::time::Duration> {
    t.duration_since(std::time::UNIX_EPOCH).ok()
}

/// `Duration::as_secs`: the whole seconds of an opaque duration.
#[verifier::external_body]
fn duration_whole_secs(d: &std::time::Duration) -> u64 {
    d.as_secs()
}

/// The current wall-clock time in whole seconds since the Unix epoch, or
/// `None` when the clock reads a time before the epoch.
pub fn unix_time_secs() -> Option<u64> {
    let now = system_time_now();
    match duration_since_unix_epoch(&now) {
        Some(d) => Some(duration_whole_secs(&d)),
        None => None,
    }
}

/// Session information for tracking peer assignments.
#[derive(Debug, Clone)]
pub struct SessionInfo {
    pub session_id: String,
    pub coordinator_id: String,
    pub assignments: StrMap<usize>,
    pub acceptances: StrMap<bool>,
    pub created_at: u64,
    pub total_nodes: usize,
}

/// `s` is a fresh session: no acceptances yet, and as many nodes as assignments.
pub open spec fn fresh_session(
    s: SessionInfo,
    session_id: Seq<char>,
    coordinator_id: Seq<char>,
    assignments: Map<Seq<char>, usize>,
    created_at: u64,
) -> bool {
    &&& s.session_id@ == session_id
    &&& s.coordinator_id@ == coordinator_id
    &&& s.assignments@ == assignments
    &&& s.acceptances@ == Map::<Seq<char>, bool>::empty()
    &&& s.created_at == created_at
    &&& s.total_nodes == assignments.len()
}

/// All peers but the coordinator have accepted.
pub open spec fn spec_all_accepted(s: SessionInfo) -> bool {
    &&& s.acceptances@.len() == s.total_nodes - 1
    &&& forall|k: Seq<char>| s.acceptances@.dom().contains(k) ==> #[trigger] s.acceptances@[k]
}

impl SessionInfo {
    /// A session created at `created_at` (seconds since the Unix epoch).
    pub fn with_created_at(
        session_id: String,
        coordinator_id: String,
        assignments: StrMap<usize>,
        created_at: u64,
    ) -> (s: Self)
        ensures
            fresh_session(s, session_id@, coordinator_id@, assignments@, created_at),
    {
        let total_nodes = assignments.len();
        SessionInfo {
            session_id,
            coordinator_id,
            assignments,
            acceptances: StrMap::new(),
            created_at,
            total_nodes,
        }
    }

    /// A session created now, by the wall clock; `None` when the clock
    /// reads a time before the Unix epoch.
    pub fn new(session_id: String, coordinator_id: String, assignments: StrMap<usize>) -> (s: Option<Self>)
        ensures
            s matches Some(s) ==> fresh_session(s, session_id@, coordinator_id@, assignments@, s.created_at),
    {
        match unix_time_secs() {
            Some(now) => Some(SessionInfo::with_created_at(session_id, coordinator_id, assignments, now)),
            None => None,
        }
    }

    /// The number of peers that have accepted.
    pub fn acceptance_count(&self) -> (n: usize)
        ensures
            n == true_keys(self.acceptances@).len(),
    {
        self.acceptances.count_true()
    }

    /// Whether every peer but the coordinator has accepted.
    pub fn all_accepted(&self) -> (b: bool)
        requires
            self.total_nodes >= 1,
        ensures
            b == spec_all_accepted(*self),
    {
        self.acceptances.len() == self.total_nodes - 1 && self.acceptances.all_true()
    }
}

/// A session in which every peer but the coordinator has accepted counts
/// exactly that many acceptances.
pub proof fn law_complete_session_counts_every_peer(s: SessionInfo)
    requires
        spec_all_accepted(s),
        s.total_nodes >= 1,
    ensures
        true_keys(s.acceptances@).len() == s.total_nodes - 1,
{
    s.acceptances.lemma_finite();
    assert(true_keys(s.acceptances@) =~= s.acceptances@.dom());
}

/// The sessions a node knows of, the session it takes part in, and the
/// assignments and acceptances of the last assignment it started.
pub struct SessionRegistry {
    pub sessions: StrMap<SessionInfo>,
    pub current_session_id: Option<String>,
    pub peer_assignments: StrMap<usize>,
    pub assignment_acceptances: StrMap<bool>,
}

impl SessionRegistry {
    /// Every stored session counts at least its coordinator.
    pub open spec fn wf(&self) -> bool {
        forall|k: Seq<char>| #[trigger] self.sessions@.dom().contains(k) ==> self.sessions@[k].total_nodes >= 1
    }

    /// A registry with no sessions.
    pub fn new() -> (r: Self)
        ensures
            r.wf(),
            r.sessions@ == Map::<Seq<char>, SessionInfo>::empty(),
            r.current_session_id is None,
            r.peer_assignments@ == Map::<Seq<char>, usize>::empty(),
            r.assignment_acceptances@ == Map::<Seq<char>, bool>::empty(),
    {
        SessionRegistry {
            sessions: StrMap::new(),
            current_session_id: None,
            peer_assignments: StrMap::new(),
            assignment_acceptances: StrMap::new(),
        }
    }
}

/// The party indices of an assignment round: the coordinator gets 0 and
/// the `i`-th peer gets `i + 1`; a later entry wins over an earlier one
/// with the same id.
pub open spec fn assignment_map(coordinator: Seq<char>, peers: Seq<String>) -> Map<Seq<char>, usize>
    decreases peers.len(),
{
    if peers.len() == 0 {
        Map::<Seq<char>, usize>::empty().insert(coordinator, 0)
    } else {
        assignment_map(coordinator, peers.drop_last()).insert(peers.last()@, peers.len() as usize)
    }
}

/// The id of the session that `coordinator` opens at `secs` seconds since
/// the Unix epoch.
pub open spec fn session_id_for(coordinator: Seq<char>, secs: u64) -> Seq<char> {
    coordinator + "-"@ + decimal(secs as nat)
}

/// With distinct peers that differ from the coordinator, every node of an
/// assignment round gets its own index: the coordinator 0, the `i`-th peer
/// `i + 1`.
pub proof fn lemma_assignment_indices(coordinator: Seq<char>, peers: Seq<String>)
    requires
        crate::network::distinct_texts(peers),
        !crate::network::has_text(peers, coordinator),
        peers.len() < usize::MAX,
    ensures
        assignment_map(coordinator, peers).dom().finite(),
        assignment_map(coordinator, peers).len() == peers.len() + 1,
        assignment_map(coordinator, peers).dom().contains(coordinator),
        assignment_map(coordinator, peers)[coordinator] == 0,
        forall|i: int| 0 <= i < peers.len() ==> #[trigger] assignment_map(coordinator, peers).dom().contains(peers[i]@)
            && assignment_map(coordinator, peers)[peers[i]@] == i + 1,
        forall|k: Seq<char>| #[trigger] assignment_map(coordinator, peers).dom().contains(k) ==> k == coordinator
            || crate::network::has_text(peers, k),
    decreases peers.len(),
{
    let m = assignment_map(coordinator, peers);
    if peers.len() == 0 {
        assert(m.dom() =~= set![coordinator]);
    } else {
        let t = peers.drop_last();
        assert(crate::network::distinct_texts(t)) by {
            assert forall|a: int, b: int| 0 <= a < t.len() && 0 <= b < t.len() && a != b implies t[a]@ != t[b]@ by {
                assert(t[a] == peers[a] && t[b] == peers[b]);
            }
        }
        assert(!crate::network::has_text(t, coordinator)) by {
            if crate::network::has_text(t, coordinator) {
                let j = choose|j: int| 0 <= j < t.len() && (#[trigger] t[j])@ == coordinator;
                assert(peers[j] == t[j]);
            }
        }
        lemma_assignment_indices(coordinator, t);
        let mt = assignment_map(coordinator, t);
        let last = peers.last()@;
        assert(!mt.dom().contains(last)) by {
            if mt.dom().contains(last) {
                if last != coordinator {
                    let j = choose|j: int| 0 <= j < t.len() && (#[trigger] t[j])@ == last;
                    assert(peers[j] == t[j]);
                    assert(peers[peers.len() - 1]@ == last);
                } else {
                    assert(crate::network::has_text(peers, coordinator));
                }
            }
        }
        assert forall|i: int| 0 <= i < peers.len() implies #[trigger] m.dom().contains(peers[i]@) && m[peers[i]@]
            == i + 1 by {
            if i < peers.len() - 1 {
                assert(t[i] == peers[i]);
                assert(mt.dom().contains(t[i]@));
                assert(peers[i]@ != last);
            }
        }
        assert forall|k: Seq<char>| #[trigger] m.dom().contains(k) implies k == coordinator
            || crate::network::has_text(peers, k) by {
            if k != last && k != coordinator {
                assert(mt.dom().contains(k));
                let j = choose|j: int| 0 <= j < t.len() && (#[trigger] t[j])@ == k;
                assert(peers[j] == t[j]);
            } else if k == last {
                assert(peers[peers.len() - 1]@ == k);
            }
        }
    }
}

/// The outcome of starting an assignment round: the new session's id, the
/// assignments, and the request to broadcast on the assignment topic.
#[derive(Debug)]
pub struct AssignmentPlan {
    pub session_id: String,
    pub assignments: StrMap<usize>,
    pub message: AssignmentMessage,
}

/// The message of a status reply for the session `s`.
pub open spec fn status_message(s: SessionInfo) -> Seq<char> {
    if spec_all_accepted(s) {
        "All "@ + decimal(true_keys(s.acceptances@).len()) + " peers have accepted their assignments"@
    } else {
        "Waiting for acceptances: "@ + decimal(true_keys(s.acceptances@).len()) + "/"@ + decimal(
            (s.total_nodes - 1) as nat,
        ) + " received"@
    }
}

/// A status reply that reports no session.
pub open spec fn empty_status(r: SessionStatusResponse, session_id: Seq<char>, message: Seq<char>) -> bool {
    &&& !r.success
    &&& r.session_id@ == session_id
    &&& r.coordinator_id@.len() == 0
    &&& r.assignments@ == Map::<Seq<char>, usize>::empty()
    &&& r.acceptances@ == Map::<Seq<char>, bool>::empty()
    &&& r.acceptance_count == 0
    &&& r.total_nodes == 0
    &&& !r.all_accepted
    &&& r.created_at == 0
    &&& r.message@ == message
}

impl SessionRegistry {
    /// Opens a new assignment round as coordinator, at `now_secs` seconds
    /// since the Unix epoch: the coordinator takes index 0 and the `i`-th
    /// connected peer index `i + 1`. The session is stored (over any of the
    /// same id) and made current, the assignments become the node's own, and
    /// earlier acceptances are forgotten.
    pub fn assign_peer_indices(&mut self, coordinator_id: &String, peers: &Vec<String>, now_secs: u64) -> (plan:
        AssignmentPlan)
        requires
            old(self).wf(),
            peers@.len() < usize::MAX,
        ensures
            final(self).wf(),
            plan.session_id@ == session_id_for(coordinator_id@, now_secs),
            plan.assignments@ == assignment_map(coordinator_id@, peers@),
            plan.message matches AssignmentMessage::Request { coordinator_id: c, assignments: a, session_id: s }
                && c@ == coordinator_id@ && a@ == assignment_map(coordinator_id@, peers@) && s@ == session_id_for(
                coordinator_id@,
                now_secs,
            ),
            final(self).sessions@ == old(self).sessions@.insert(
                session_id_for(coordinator_id@, now_secs),
                final(self).sessions@[session_id_for(coordinator_id@, now_secs)],
            ),
            fresh_session(
                final(self).sessions@[session_id_for(coordinator_id@, now_secs)],
                session_id_for(coordinator_id@, now_secs),
                coordinator_id@,
                assignment_map(coordinator_id@, peers@),
                now_secs,
            ),
            final(self).current_session_id matches Some(c) && c@ == session_id_for(coordinator_id@, now_secs),
            final(self).peer_assignments@ == assignment_map(coordinator_id@, peers@),
            final(self).assignment_acceptances@ == Map::<Seq<char>, bool>::empty(),
    {
        let mut assignments: StrMap<usize> = StrMap::new();
        assignments.insert(coordinator_id.clone(), 0);
        let n = peers.len();
        let mut offset: usize = 0;
        while offset < n
            invariant
                n == peers@.len(),
                n < usize::MAX,
                offset <= n,
                assignments@ == assignment_map(coordinator_id@, peers@.take(offset as int)),
            decreases n - offset,
        {
            assert(peers@.take(offset + 1).drop_last() =~= peers@.take(offset as int));
            assignments.insert(peers[offset].clone(), offset + 1);
            offset = offset + 1;
        }
        assert(peers@.take(n as int) =~= peers@);
        let secs = decimal_string(now_secs);
        let session_id = concat3(coordinator_id.as_str(), "-", secs.as_str());
        proof {
            assignments.lemma_finite();
            lemma_assignment_map_nonempty(coordinator_id@, peers@);
        }
        let session_info = SessionInfo::with_created_at(
            session_id.clone(),
            coordinator_id.clone(),
            assignments.copy_map(),
            now_secs,
        );
        let ghost pre = self.sessions@;
        self.sessions.insert(session_id.clone(), session_info);
        assert(self.sessions@ =~= pre.insert(session_id@, self.sessions@[session_id@]));
        self.current_session_id = Some(session_id.clone());
        self.peer_assignments = assignments.copy_map();
        self.assignment_acceptances = StrMap::new();
        let message = AssignmentMessage::Request {
            coordinator_id: coordinator_id.clone(),
            assignments: assignments.copy_map(),
            session_id: session_id.clone(),
        };
        AssignmentPlan { session_id, assignments, message }
    }

    /// The status of the session `session_id`, else of the current session.
    pub fn session_status(&self, session_id: Option<String>) -> (r: SessionStatusResponse)
        requires
            self.wf(),
        ensures
            match (match session_id {
                Some(id) => Some(id@),
                None => match self.current_session_id {
                    Some(c) => Some(c@),
                    None => None,
                },
            }) {
                None => empty_status(r, Seq::empty(), "No active session found"@),
                Some(target) => if !self.sessions@.dom().contains(target) {
                    empty_status(r, target, "Session '"@ + target + "' not found"@)
                } else {
                    let s = self.sessions@[target];
                    &&& r.success
                    &&& r.session_id@ == s.session_id@
                    &&& r.coordinator_id@ == s.coordinator_id@
                    &&& r.assignments@ == s.assignments@
                    &&& r.acceptances@ == s.acceptances@
                    &&& r.acceptance_count == true_keys(s.acceptances@).len()
                    &&& r.total_nodes == s.total_nodes
                    &&& r.all_accepted == spec_all_accepted(s)
                    &&& r.created_at == s.created_at
                    &&& r.message@ == status_message(s)
                },
            },
    {
        let target = match session_id {
            Some(id) => id,
            None => match &self.current_session_id {
                Some(id) => id.clone(),
                None => {
                    return SessionStatusResponse {
                        success: false,
                        session_id: String::new(),
                        coordinator_id: String::new(),
                        assignments: StrMap::new(),
                        acceptances: StrMap::new(),
                        acceptance_count: 0,
                        total_nodes: 0,
                        all_accepted: false,
                        created_at: 0,
                        message: String::from_str("No active session found"),
                    };
                },
            },
        };
        match self.sessions.get(&target) {
            Some(session) => {
                let acceptance_count = session.acceptance_count();
                let all_accepted = session.all_accepted();
                let count_text = usize_decimal_string(acceptance_count);
                let message = if all_accepted {
                    concat3("All ", count_text.as_str(), " peers have accepted their assignments")
                } else {
                    let expected_text = usize_decimal_string(session.total_nodes - 1);
                    concat5(
                        "Waiting for acceptances: ",
                        count_text.as_str(),
                        "/",
                        expected_text.as_str(),
                        " received",
                    )
                };
                SessionStatusResponse {
                    success: true,
                    session_id: session.session_id.clone(),
                    coordinator_id: session.coordinator_id.clone(),
                    assignments: session.assignments.copy_map(),
                    acceptances: session.acceptances.copy_map(),
                    acceptance_count,
                    total_nodes: session.total_nodes,
                    all_accepted,
                    created_at: session.created_at,
                    message,
                }
            },
            None => {
                let message = concat3("Session '", target.as_str(), "' not found");
                SessionStatusResponse {
                    success: false,
                    session_id: target,
                    coordinator_id: String::new(),
                    assignments: StrMap::new(),
                    acceptances: StrMap::new(),
                    acceptance_count: 0,
                    total_nodes: 0,
                    all_accepted: false,
                    created_at: 0,
                    message,
                }
            },
        }
    }
}

proof fn lemma_assignment_map_nonempty(coordinator: Seq<char>, peers: Seq<String>)
    ensures
        assignment_map(coordinator, peers).dom().finite(),
        assignment_map(coordinator, peers).len() >= 1,
    decreases peers.len(),
{
    let m = assignment_map(coordinator, peers);
    if peers.len() == 0 {
        assert(m.dom() =~= set![coordinator]);
    } else {
        lemma_assignment_map_nonempty(coordinator, peers.drop_last());
        let mt = assignment_map(coordinator, peers.drop_last());
        if mt.dom().contains(peers.last()@) {
            assert(m.dom() =~= mt.dom());
        }
    }
}

/// Response structure for peer list.
#[derive(Debug, Clone)]
pub struct PeerListResponse {
    pub peers: Vec<String>,
    pub count: usize,
}

/// Response structure for topic list.
#[derive(Debug, Clone)]
pub struct TopicListResponse {
    pub topics: Vec<String>,
    pub count: usize,
}

/// Response structure for multiaddresses.
#[derive(Debug, Clone)]
pub struct MultiaddressResponse {
    pub addresses: Vec<String>,
    pub count: usize,
}

/// Response structure for broadcast operation.
#[derive(Debug, Clone)]
pub struct BroadcastResponse {
    pub success: bool,
    pub message: String,
}

/// Response structure for peer assignment.
#[derive(Debug, Clone)]
pub struct AssignmentResponse {
    pub success: bool,
    pub session_id: String,
    pub assignments: StrMap<usize>,
    pub message: String,
}

/// Response structure for session status query.
#[derive(Debug, Clone)]
pub struct SessionStatusResponse {
    pub success: bool,
    pub session_id: String,
    pub coordinator_id: String,
    pub assignments: StrMap<usize>,
    pub acceptances: StrMap<bool>,
    pub acceptance_count: usize,
    pub total_nodes: usize,
    pub all_accepted: bool,
    pub created_at: u64,
    pub message: String,
}

/// Response structure for MPC aux generation initiation.
#[derive(Debug, Clone)]
pub struct InitiateAuxGenResponse {
    pub success: bool,
    pub message: String,
    pub execution_id: Option<String>,
}

/// Response structure for MPC keygen initiation.
#[derive(Debug, Clone)]
pub struct InitiateKeygenResponse {
    pub success: bool,
    pub message: String,
    pub execution_id: Option<String>,
    pub threshold: Option<u16>,
    pub total_parties: Option<u16>,
}

/// Response structure for MPC signing initiation.
#[derive(Debug, Clone)]
pub struct InitiateSigningResponse {
    pub success: bool,
    pub message: String,
    pub execution_id: Option<String>,
    pub signers: Option<Vec<u16>>,
    pub signature: Option<String>,
}

impl PeerListResponse {
    /// The connected peers and their number.
    pub fn new(peers: Vec<String>) -> (r: Self)
        ensures
            r.peers == peers,
            r.count == peers@.len(),
    {
        let count = peers.len();
        PeerListResponse { peers, count }
    }
}

impl TopicListResponse {
    /// The subscribed topics and their number.
    pub fn new(topics: Vec<String>) -> (r: Self)
        ensures
            r.topics == topics,
            r.count == topics@.len(),
    {
        let count = topics.len();
        TopicListResponse { topics, count }
    }
}

impl MultiaddressResponse {
    /// The listen addresses and their number.
    pub fn new(addresses: Vec<String>) -> (r: Self)
        ensures
            r.addresses == addresses,
            r.count == addresses@.len(),
    {
        let count = addresses.len();
        MultiaddressResponse { addresses, count }
    }
}

/// The command that broadcasts `message` (as its UTF-8 bytes) on `topic`.
pub fn broadcast_command(topic: String, message: &str) -> (c: NetworkCommand)
    ensures
        c matches NetworkCommand::Broadcast { topic: t, data } && t == topic && data@
            == vstd::utf8::encode_utf8(message@),
{
    NetworkCommand::Broadcast { topic, data: message.as_bytes_vec() }
}

impl BroadcastResponse {
    /// The reply to a broadcast on `topic`: success, or the error of handing
    /// the command to the network worker.
    pub fn for_send(topic: &str, error: Option<&str>) -> (r: Self)
        ensures
            match error {
                None => r.success && r.message@ == "Message broadcast to topic '"@ + topic@ + "' initiated"@,
                Some(e) => !r.success && r.message@ == "Failed to broadcast: "@ + e@,
            },
    {
        match error {
            None => BroadcastResponse {
                success: true,
                message: concat3("Message broadcast to topic '", topic, "' initiated"),
            },
            Some(e) => BroadcastResponse { success: false, message: concat2("Failed to broadcast: ", e) },
        }
    }
}

/// Where handing an assignment request to the network failed.
#[derive(Debug, Clone, Copy, PartialEq, Eq, Structural)]
pub enum AssignmentFailure {
    Serialize,
    Broadcast,
}

impl AssignmentResponse {
    /// The reply once the request of `plan` went out to the network;
    /// `peer_count` is the number of connected peers it was made for.
    pub fn sent(plan: AssignmentPlan, peer_count: usize) -> (r: Self)
        ensures
            r.success,
            r.session_id == plan.session_id,
            r.assignments == plan.assignments,
            r.message@ == "Assignment created for "@ + decimal(plan.assignments@.len()) + " total nodes: coordinator (index 0) + "@
                + decimal(peer_count as nat) + " peers"@,
    {
        let AssignmentPlan { session_id, assignments, message: _ } = plan;
        let total = usize_decimal_string(assignments.len());
        let peers = usize_decimal_string(peer_count);
        let message = concat5(
            "Assignment created for ",
            total.as_str(),
            " total nodes: coordinator (index 0) + ",
            peers.as_str(),
            " peers",
        );
        AssignmentResponse { success: true, session_id, assignments, message }
    }

    /// The reply when the request could not be handed to the network.
    pub fn failed(session_id: String, failure: AssignmentFailure, detail: &str) -> (r: Self)
        ensures
            !r.success,
            r.session_id == session_id,
            r.assignments@ == Map::<Seq<char>, usize>::empty(),
            r.message@ == (match failure {
                AssignmentFailure::Serialize => "Failed to serialize assignment: "@,
                AssignmentFailure::Broadcast => "Failed to broadcast assignment: "@,
            }) + detail@,
    {
        let message = match failure {
            AssignmentFailure::Serialize => concat2("Failed to serialize assignment: ", detail),
            AssignmentFailure::Broadcast => concat2("Failed to broadcast assignment: ", detail),
        };
        AssignmentResponse { success: false, session_id, assignments: StrMap::new(), message }
    }
}

/// The reply text when no orchestrator is set up yet.
pub open spec fn not_initialized_text() -> Seq<char> {
    "MPC orchestrator not initialized. Please assign peer indices first."@
}

fn not_initialized_message() -> (m: String)
    ensures
        m@ == not_initialized_text(),
{
    String::from_str("MPC orchestrator not initialized. Please assign peer indices first.")
}

/// Where an accepted initiation failed after its execution id was made.
#[derive(Debug, Clone, Copy, PartialEq, Eq, Structural)]
pub enum InitiationFailure {
    /// The coordination message could not be serialized.
    Serialize,
    /// The coordination message could not be handed to the network.
    Broadcast,
    /// The local orchestrator refused the message.
    LocalHandling,
}

/// The reply text of a failed initiation with error `detail`.
pub open spec fn failure_text(f: InitiationFailure, detail: Seq<char>) -> Seq<char> {
    match f {
        InitiationFailure::Serialize => "Failed to serialize coordination message: "@ + detail,
        InitiationFailure::Broadcast => "Failed to broadcast message: "@ + detail,
        InitiationFailure::LocalHandling => "Failed to process locally: "@ + detail,
    }
}

/// The execution id reported with a failure: none before the message was
/// serialized, its hexadecimal text after.
pub open spec fn failure_execution_id(r: Option<String>, f: InitiationFailure, execution_id: Seq<u8>) -> bool {
    match f {
        InitiationFailure::Serialize => r is None,
        _ => r matches Some(h) && h@ == hex_lower(execution_id),
    }
}

fn failure_message(f: InitiationFailure, detail: &str) -> (m: String)
    ensures
        m@ == failure_text(f, detail@),
{
    match f {
        InitiationFailure::Serialize => concat2("Failed to serialize coordination message: ", detail),
        InitiationFailure::Broadcast => concat2("Failed to broadcast message: ", detail),
        InitiationFailure::LocalHandling => concat2("Failed to process locally: ", detail),
    }
}

fn failure_hex(f: InitiationFailure, execution_id: &Vec<u8>) -> (r: Option<String>)
    ensures
        failure_execution_id(r, f, execution_id@),
{
    match f {
        InitiationFailure::Serialize => None,
        _ => Some(hex_string(execution_id)),
    }
}

/// Why an aux generation request is refused.
#[derive(Debug, Clone, Copy, PartialEq, Eq, Structural)]
pub enum AuxGenRejection {
    NotInitialized,
    NotIdle,
}

/// Whether aux generation may be started: an orchestrator must be set up
/// and idle.
pub fn check_aux_gen_request(orchestrator: Option<&MPCOrchestrator>) -> (r: Result<(), AuxGenRejection>)
    ensures
        r == (match orchestrator {
            None => Err(AuxGenRejection::NotInitialized),
            Some(o) => if can_start_aux(o.state) {
                Ok(())
            } else {
                Err(AuxGenRejection::NotIdle)
            },
        }),
{
    match orchestrator {
        None => Err(AuxGenRejection::NotInitialized),
        Some(o) => match o.state {
            crate::mpc::orchestrator::ProtocolState::Idle => Ok(()),
            _ => Err(AuxGenRejection::NotIdle),
        },
    }
}

/// The `InitiateAux` message for the orchestrator's participants and
/// assignments.
pub fn aux_gen_message(orchestrator: &MPCOrchestrator, execution_id: Vec<u8>, timestamp: Timestamp) -> (m:
    CoordinationMessage)
    ensures
        m matches CoordinationMessage::InitiateAux { execution_id: e, participants, party_assignments, timestamp: t }
            && e == execution_id && participants@ == orchestrator.participants@ && party_assignments@
            == orchestrator.party_assignments@ && t == timestamp,
{
    CoordinationMessage::InitiateAux {
        execution_id,
        participants: copy_strings(&orchestrator.participants),
        party_assignments: orchestrator.party_assignments.copy_map(),
        timestamp,
    }
}

/// The coordination message that starts keygen with `threshold` of
/// `total_parties`.
pub fn keygen_message(execution_id: Vec<u8>, threshold: u16, total_parties: u16, timestamp: Timestamp) -> (m:
    CoordinationMessage)
    ensures
        m == (CoordinationMessage::InitiateKeygen { execution_id, threshold, total_parties, timestamp }),
{
    CoordinationMessage::InitiateKeygen { execution_id, threshold, total_parties, timestamp }
}

/// The coordination message that starts signing the UTF-8 bytes of
/// `message` with `signers`.
pub fn signing_message(execution_id: Vec<u8>, message: &str, signers: &Vec<u16>, timestamp: Timestamp) -> (m:
    CoordinationMessage)
    ensures
        m matches CoordinationMessage::InitiateSigning { execution_id: e, message: bytes, signers: s, timestamp: t }
            && e == execution_id && bytes@ == vstd::utf8::encode_utf8(message@) && s@ == signers@ && t == timestamp,
{
    CoordinationMessage::InitiateSigning {
        execution_id,
        message: message.as_bytes_vec(),
        signers: copy_vec(signers),
        timestamp,
    }
}

impl InitiateAuxGenResponse {
    /// The reply to a refused request; `state_text` renders the current state.
    pub fn rejected(rejection: AuxGenRejection, state_text: &str) -> (r: Self)
        ensures
            !r.success,
            r.execution_id is None,
            r.message@ == (match rejection {
                AuxGenRejection::NotInitialized => not_initialized_text(),
                AuxGenRejection::NotIdle => "Cannot initiate aux generation. Current state: "@ + state_text@,
            }),
    {
        let message = match rejection {
            AuxGenRejection::NotInitialized => not_initialized_message(),
            AuxGenRejection::NotIdle => concat2("Cannot initiate aux generation. Current state: ", state_text),
        };
        InitiateAuxGenResponse { success: false, message, execution_id: None }
    }

    /// The reply when the run with `execution_id` could not be initiated.
    pub fn failed(failure: InitiationFailure, detail: &str, execution_id: &Vec<u8>) -> (r: Self)
        ensures
            !r.success,
            r.message@ == failure_text(failure, detail@),
            failure_execution_id(r.execution_id, failure, execution_id@),
    {
        InitiateAuxGenResponse {
            success: false,
            message: failure_message(failure, detail),
            execution_id: failure_hex(failure, execution_id),
        }
    }

    /// The reply once the run was initiated with `participant_count` participants.
    pub fn initiated(participant_count: usize, execution_id: &Vec<u8>) -> (r: Self)
        ensures
            r.success,
            r.message@ == "Aux generation initiated with "@ + decimal(participant_count as nat) + " participants"@,
            r.execution_id matches Some(h) && h@ == hex_lower(execution_id@),
    {
        let n = usize_decimal_string(participant_count);
        InitiateAuxGenResponse {
            success: true,
            message: concat3("Aux generation initiated with ", n.as_str(), " participants"),
            execution_id: Some(hex_string(execution_id)),
        }
    }
}

/// The number of parties of an orchestrator, as the RPC interface counts
/// them: its participants, truncated to 16 bits.
pub open spec fn party_count(o: MPCOrchestrator) -> u16 {
    (o.participants@.len() % 0x10000) as u16
}

fn count_parties(o: &MPCOrchestrator) -> (n: u16)
    ensures
        n == party_count(*o),
{
    (o.participants.len() % 0x10000) as u16
}

/// Why a keygen request is refused; `total_parties` is the orchestrator's
/// party count.
#[derive(Debug, Clone, Copy, PartialEq, Eq, Structural)]
pub enum KeygenRejection {
    NotInitialized,
    ThresholdZero { total_parties: u16 },
    ThresholdExceedsParties { total_parties: u16 },
    WrongState { total_parties: u16 },
}

/// Whether keygen with `threshold` may be started; the party count when it may.
pub fn check_keygen_request(orchestrator: Option<&MPCOrchestrator>, threshold: u16) -> (r: Result<
    u16,
    KeygenRejection,
>)
    ensures
        r == (match orchestrator {
            None => Err(KeygenRejection::NotInitialized),
            Some(o) => {
                let n = party_count(*o);
                if threshold == 0 {
                    Err(KeygenRejection::ThresholdZero { total_parties: n })
                } else if threshold > n {
                    Err(KeygenRejection::ThresholdExceedsParties { total_parties: n })
                } else if !can_start_keygen(o.state) {
                    Err(KeygenRejection::WrongState { total_parties: n })
                } else {
                    Ok(n)
                }
            },
        }),
{
    match orchestrator {
        None => Err(KeygenRejection::NotInitialized),
        Some(o) => {
            let total_parties = count_parties(o);
            if threshold == 0 {
                return Err(KeygenRejection::ThresholdZero { total_parties });
            }
            if threshold > total_parties {
                return Err(KeygenRejection::ThresholdExceedsParties { total_parties });
            }
            match o.state {
                crate::mpc::orchestrator::ProtocolState::AuxCompleted { .. }
                | crate::mpc::orchestrator::ProtocolState::Idle => Ok(total_parties),
                _ => Err(KeygenRejection::WrongState { total_parties }),
            }
        },
    }
}

/// The text of a "cannot exceed" refusal.
pub open spec fn threshold_exceeds_text(threshold: u16, total_parties: u16) -> Seq<char> {
    "Threshold ("@ + decimal(threshold as nat) + ") cannot exceed total parties ("@ + decimal(
        total_parties as nat,
    ) + ")"@
}

impl InitiateKeygenResponse {
    /// The reply to a refused request for `threshold`; `state_text` renders
    /// the current state.
    pub fn rejected(rejection: KeygenRejection, threshold: u16, state_text: &str) -> (r: Self)
        ensures
            !r.success,
            r.execution_id is None,
            match rejection {
                KeygenRejection::NotInitialized => r.message@ == not_initialized_text() && r.threshold is None
                    && r.total_parties is None,
                KeygenRejection::ThresholdZero { total_parties } => r.message@ == "Threshold must be at least 1"@
                    && r.threshold == Some(threshold) && r.total_parties == Some(total_parties),
                KeygenRejection::ThresholdExceedsParties { total_parties } => r.message@
                    == threshold_exceeds_text(threshold, total_parties) && r.threshold == Some(threshold)
                    && r.total_parties == Some(total_parties),
                KeygenRejection::WrongState { total_parties } => r.message@
                    == "Cannot initiate keygen. Must complete aux generation first. Current state: "@
                    + state_text@ && r.threshold == Some(threshold) && r.total_parties == Some(total_parties),
            },
    {
        match rejection {
            KeygenRejection::NotInitialized => InitiateKeygenResponse {
                success: false,
                message: not_initialized_message(),
                execution_id: None,
                threshold: None,
                total_parties: None,
            },
            KeygenRejection::ThresholdZero { total_parties } => InitiateKeygenResponse {
                success: false,
                message: String::from_str("Threshold must be at least 1"),
                execution_id: None,
                threshold: Some(threshold),
                total_parties: Some(total_parties),
            },
            KeygenRejection::ThresholdExceedsParties { total_parties } => {
                let t = decimal_string(threshold as u64);
                let n = decimal_string(total_parties as u64);
                InitiateKeygenResponse {
                    success: false,
                    message: concat5(
                        "Threshold (",
                        t.as_str(),
                        ") cannot exceed total parties (",
                        n.as_str(),
                        ")",
                    ),
                    execution_id: None,
                    threshold: Some(threshold),
                    total_parties: Some(total_parties),
                }
            },
            KeygenRejection::WrongState { total_parties } => InitiateKeygenResponse {
                success: false,
                message: concat2(
                    "Cannot initiate keygen. Must complete aux generation first. Current state: ",
                    state_text,
                ),
                execution_id: None,
                threshold: Some(threshold),
                total_parties: Some(total_parties),
            },
        }
    }

    /// The reply when the run with `execution_id` could not be initiated.
    pub fn failed(
        failure: InitiationFailure,
        detail: &str,
        execution_id: &Vec<u8>,
        threshold: u16,
        total_parties: u16,
    ) -> (r: Self)
        ensures
            !r.success,
            r.message@ == failure_text(failure, detail@),
            failure_execution_id(r.execution_id, failure, execution_id@),
            r.threshold == Some(threshold),
            r.total_parties == Some(total_parties),
    {
        InitiateKeygenResponse {
            success: false,
            message: failure_message(failure, detail),
            execution_id: failure_hex(failure, execution_id),
            threshold: Some(threshold),
            total_parties: Some(total_parties),
        }
    }

    /// The reply once the run was initiated.
    pub fn initiated(threshold: u16, total_parties: u16, execution_id: &Vec<u8>) -> (r: Self)
        ensures
            r.success,
            r.message@ == "Keygen initiated with "@ + decimal(total_parties as nat) + " participants (threshold: "@
                + decimal(threshold as nat) + ")"@,
            r.execution_id matches Some(h) && h@ == hex_lower(execution_id@),
            r.threshold == Some(threshold),
            r.total_parties == Some(total_parties),
    {
        let n = decimal_string(total_parties as u64);
        let t = decimal_string(threshold as u64);
        InitiateKeygenResponse {
            success: true,
            message: concat5("Keygen initiated with ", n.as_str(), " participants (threshold: ", t.as_str(), ")"),
            execution_id: Some(hex_string(execution_id)),
            threshold: Some(threshold),
            total_parties: Some(total_parties),
        }
    }
}

/// Why a signing request is refused.
#[derive(Debug, Clone, Copy, PartialEq, Eq, Structural)]
pub enum SigningRejection {
    NotInitialized,
    EmptySigners,
    /// `signer` is the first listed index that is not a party index.
    InvalidSigner { signer: u16, total_parties: u16 },
    WrongState,
}

/// Whether signing by `signers` may be started; the party count when it may.
pub fn check_signing_request(orchestrator: Option<&MPCOrchestrator>, signers: &Vec<u16>) -> (r: Result<
    u16,
    SigningRejection,
>)
    ensures
        match orchestrator {
            None => r == Err::<u16, SigningRejection>(SigningRejection::NotInitialized),
            Some(o) => {
                let n = party_count(*o);
                if signers@.len() == 0 {
                    r == Err::<u16, SigningRejection>(SigningRejection::EmptySigners)
                } else if exists|i: int| 0 <= i < signers@.len() && #[trigger] signers@[i] >= n {
                    r matches Err(SigningRejection::InvalidSigner { signer, total_parties }) && total_parties == n
                        && exists|i: int|
                        0 <= i < signers@.len() && signers@[i] == signer && signer >= n && forall|j: int|
                            0 <= j < i ==> #[trigger] signers@[j] < n
                } else if !can_start_signing(o.state) {
                    r == Err::<u16, SigningRejection>(SigningRejection::WrongState)
                } else {
                    r == Ok::<u16, SigningRejection>(n)
                }
            },
        },
{
    match orchestrator {
        None => Err(SigningRejection::NotInitialized),
        Some(o) => {
            if signers.len() == 0 {
                return Err(SigningRejection::EmptySigners);
            }
            let total_parties = count_parties(o);
            let len = signers.len();
            let mut i: usize = 0;
            while i < len
                invariant
                    len == signers@.len(),
                    i <= len,
                    total_parties == party_count(*o),
                    orchestrator == Some(o),
                    forall|j: int| 0 <= j < i ==> #[trigger] signers@[j] < total_parties,
                decreases len - i,
            {
                if signers[i] >= total_parties {
                    assert(signers@[i as int] >= total_parties);
                    return Err(SigningRejection::InvalidSigner { signer: signers[i], total_parties });
                }
                i = i + 1;
            }
            match o.state {
                crate::mpc::orchestrator::ProtocolState::KeygenCompleted { .. }
                | crate::mpc::orchestrator::ProtocolState::Idle => Ok(total_parties),
                _ => Err(SigningRejection::WrongState),
            }
        },
    }
}

impl InitiateSigningResponse {
    /// The reply to a refused request; `state_text` renders the current state.
    pub fn rejected(rejection: SigningRejection, signers: &Vec<u16>, state_text: &str) -> (r: Self)
        ensures
            !r.success,
            r.execution_id is None,
            r.signature is None,
            match rejection {
                SigningRejection::NotInitialized => r.signers is None,
                _ => r.signers matches Some(s) && s@ == signers@,
            },
            r.message@ == (match rejection {
                SigningRejection::NotInitialized => not_initialized_text(),
                SigningRejection::EmptySigners => "Signers list cannot be empty"@,
                SigningRejection::InvalidSigner { signer, total_parties } => "Invalid signer index: "@ + decimal(
                    signer as nat,
                ) + " (total parties: "@ + decimal(total_parties as nat) + ")"@,
                SigningRejection::WrongState => "Cannot initiate signing. Must complete keygen first. Current state: "@
                    + state_text@,
            }),
    {
        match rejection {
            SigningRejection::NotInitialized => InitiateSigningResponse {
                success: false,
                message: not_initialized_message(),
                execution_id: None,
                signers: None,
                signature: None,
            },
            SigningRejection::EmptySigners => InitiateSigningResponse {
                success: false,
                message: String::from_str("Signers list cannot be empty"),
                execution_id: None,
                signers: Some(copy_vec(signers)),
                signature: None,
            },
            SigningRejection::InvalidSigner { signer, total_parties } => {
                let s = decimal_string(signer as u64);
                let n = decimal_string(total_parties as u64);
                InitiateSigningResponse {
                    success: false,
                    message: concat5("Invalid signer index: ", s.as_str(), " (total parties: ", n.as_str(), ")"),
                    execution_id: None,
                    signers: Some(copy_vec(signers)),
                    signature: None,
                }
            },
            SigningRejection::WrongState => InitiateSigningResponse {
                success: false,
                message: concat2("Cannot initiate signing. Must complete keygen first. Current state: ", state_text),
                execution_id: None,
                signers: Some(copy_vec(signers)),
                signature: None,
            },
        }
    }

    /// The reply when the run with `execution_id` could not be initiated.
    pub fn failed(failure: InitiationFailure, detail: &str, execution_id: &Vec<u8>, signers: &Vec<u16>) -> (r: Self)
        ensures
            !r.success,
            r.message@ == failure_text(failure, detail@),
            failure_execution_id(r.execution_id, failure, execution_id@),
            r.signers matches Some(s) && s@ == signers@,
            r.signature is None,
    {
        InitiateSigningResponse {
            success: false,
            message: failure_message(failure, detail),
            execution_id: failure_hex(failure, execution_id),
            signers: Some(copy_vec(signers)),
            signature: None,
        }
    }

    /// The reply once `signers` signed `message`, producing `signature`.
    pub fn completed(signers: &Vec<u16>, message: &str, execution_id: &Vec<u8>, signature: String) -> (r: Self)
        ensures
            r.success,
            r.message@ == "Signing completed with "@ + decimal(signers@.len()) + " signers for message: "@ + message@,
            r.execution_id matches Some(h) && h@ == hex_lower(execution_id@),
            r.signers matches Some(s) && s@ == signers@,
            r.signature == Some(signature),
    {
        let n = usize_decimal_string(signers.len());
        InitiateSigningResponse {
            success: true,
            message: concat4("Signing completed with ", n.as_str(), " signers for message: ", message),
            execution_id: Some(hex_string(execution_id)),
            signers: Some(copy_vec(signers)),
            signature: Some(signature),
        }
    }

    /// The reply when signing was initiated but produced no signature in time.
    pub fn incomplete(execution_id: &Vec<u8>, signers: &Vec<u16>) -> (r: Self)
        ensures
            !r.success,
            r.message@ == "Signing initiated but failed to complete (timeout or error)"@,
            r.execution_id matches Some(h) && h@ == hex_lower(execution_id@),
            r.signers matches Some(s) && s@ == signers@,
            r.signature is None,
    {
        InitiateSigningResponse {
            success: false,
            message: String::from_str("Signing initiated but failed to complete (timeout or error)"),
            execution_id: Some(hex_string(execution_id)),
            signers: Some(copy_vec(signers)),
            signature: None,
        }
    }
}

/// The outcome of an initiation once its coordination message has been
/// sent and handled locally: `Ok` with what the run produced, or the stage
/// that failed and its error text.
pub type InitiationOutcome<T> = Result<T, (InitiationFailure, String)>;

impl InitiateAuxGenResponse {
    /// The reply to an aux generation request that passed its checks, once
    /// the initiation has been attempted.
    pub fn after_initiation(outcome: InitiationOutcome<()>, participant_count: usize, execution_id: &Vec<u8>) -> (r:
        Self)
        ensures
            match outcome {
                Ok(_) => r.success && r.message@ == "Aux generation initiated with "@ + decimal(
                    participant_count as nat,
                ) + " participants"@ && (r.execution_id matches Some(h) && h@ == hex_lower(execution_id@)),
                Err((failure, detail)) => !r.success && r.message@ == failure_text(failure, detail@)
                    && failure_execution_id(r.execution_id, failure, execution_id@),
            },
    {
        match outcome {
            Ok(()) => InitiateAuxGenResponse::initiated(participant_count, execution_id),
            Err((failure, detail)) => InitiateAuxGenResponse::failed(failure, detail.as_str(), execution_id),
        }
    }
}

impl InitiateKeygenResponse {
    /// The reply to a keygen request that passed its checks, once the
    /// initiation has been attempted.
    pub fn after_initiation(
        outcome: InitiationOutcome<()>,
        threshold: u16,
        total_parties: u16,
        execution_id: &Vec<u8>,
    ) -> (r: Self)
        ensures
            r.threshold == Some(threshold),
            r.total_parties == Some(total_parties),
            match outcome {
                Ok(_) => r.success && r.message@ == "Keygen initiated with "@ + decimal(total_parties as nat)
                    + " participants (threshold: "@ + decimal(threshold as nat) + ")"@ && (r.execution_id matches Some(h) && h@ == hex_lower(execution_id@)),
                Err((failure, detail)) => !r.success && r.message@ == failure_text(failure, detail@)
                    && failure_execution_id(r.execution_id, failure, execution_id@),
            },
    {
        match outcome {
            Ok(()) => InitiateKeygenResponse::initiated(threshold, total_parties, execution_id),
            Err((failure, detail)) => InitiateKeygenResponse::failed(
                failure,
                detail.as_str(),
                execution_id,
                threshold,
                total_parties,
            ),
        }
    }
}

impl InitiateSigningResponse {
    /// The reply to a signing request that passed its checks, once the
    /// initiation has been attempted: `Ok(Some(signature))` when the run
    /// produced a signature in time, `Ok(None)` when it failed or timed out.
    pub fn after_initiation(
        outcome: InitiationOutcome<Option<String>>,
        signers: &Vec<u16>,
        message: &str,
        execution_id: &Vec<u8>,
    ) -> (r: Self)
        ensures
            r.signers matches Some(s) && s@ == signers@,
            match outcome {
                Ok(Some(signature)) => r.success && r.message@ == "Signing completed with "@ + decimal(
                    signers@.len(),
                ) + " signers for message: "@ + message@ && (r.execution_id matches Some(h) && h@ == hex_lower(execution_id@)) && r.signature == Some(signature),
                Ok(None) => !r.success && r.message@ == "Signing initiated but failed to complete (timeout or error)"@
                    && (r.execution_id matches Some(h) && h@ == hex_lower(execution_id@)) && r.signature is None,
                Err((failure, detail)) => !r.success && r.message@ == failure_text(failure, detail@)
                    && failure_execution_id(r.execution_id, failure, execution_id@) && r.signature is None,
            },
    {
        match outcome {
            Ok(Some(signature)) => InitiateSigningResponse::completed(signers, message, execution_id, signature),
            Ok(None) => InitiateSigningResponse::incomplete(execution_id, signers),
            Err((failure, detail)) => InitiateSigningResponse::failed(failure, detail.as_str(), execution_id, signers),
        }
    }
}

} // verus!
