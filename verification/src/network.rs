//! The peer-to-peer side of a node: the gossip protocol name, assignment
//! messages, commands for the network worker, and the bookkeeping that the
//! worker does on network events.

use vstd::prelude::*;
use crate::str_map::StrMap;
use crate::text::{concat2, decimal, decimal_string, contains_text};
use crate::rpc::{SessionInfo, SessionRegistry, fresh_session, spec_all_accepted};
use crate::str_map::true_keys;

verus! {

/// The gossip protocol name.
pub const PROTOCOL_NAME: &'static str = "/felix/mpc/0.0.0";

/// The topic on which party-index assignments travel.
pub const ASSIGNMENT_TOPIC: &'static str = "mpc-assignment";

/// The protocol names to announce, as bytes: the UTF-8 bytes of `PROTOCOL_NAME`.
pub fn gossip_protocol_name() -> (names: Vec<Vec<u8>>)
    ensures
        names@.len() == 1,
        names@[0]@ == vstd::utf8::encode_utf8(PROTOCOL_NAME@),
{
    let mut names: Vec<Vec<u8>> = Vec::new();
    names.push(PROTOCOL_NAME.as_bytes_vec());
    names
}

/// Assignment message types.
#[derive(Debug, Clone)]
pub enum AssignmentMessage {
    /// Assignment request from coordinator to peers.
    Request { coordinator_id: String, assignments: StrMap<usize>, session_id: String },
    /// Acceptance response from peer to coordinator.
    Acceptance { peer_id: String, assigned_index: usize, session_id: String },
}

/// Commands that can be sent to the network worker. Addresses are
/// multiaddresses in their text form.
#[derive(Debug, Clone)]
pub enum NetworkCommand {
    /// Broadcast a message to a specific topic.
    Broadcast { topic: String, data: Vec<u8> },
    /// Subscribe to a new topic.
    Subscribe { topic: String },
    /// Unsubscribe from a topic.
    Unsubscribe { topic: String },
    /// Dial a specific peer.
    Dial { address: String },
}

/// What became of an assignment message.
#[derive(Debug)]
pub enum AssignmentOutcome {
    /// A request that does not assign the local peer.
    NotAssigned,
    /// The local peer's own request, as coordinator; nothing to send.
    CoordinatorConfirmed { assigned_index: usize, total_nodes: usize },
    /// A request from `coordinator_id`: `acceptance` is to be published on the assignment topic.
    SendAcceptance { coordinator_id: String, acceptance: AssignmentMessage },
    /// An acceptance recorded in its session.
    AcceptanceRecorded {
        peer_id: String,
        assigned_index: usize,
        session_id: String,
        acceptance_count: usize,
        total_expected: usize,
        all_accepted: bool,
    },
    /// An acceptance for a session that is not known here.
    UnknownSession { session_id: String },
}

/// The sessions after a request assigning the local peer: the session is
/// added unless one of that id is already known.
pub open spec fn request_recorded(
    pre: SessionRegistry,
    post: SessionRegistry,
    coordinator_id: Seq<char>,
    assignments: Map<Seq<char>, usize>,
    session_id: Seq<char>,
    now_secs: u64,
) -> bool {
    &&& post.current_session_id matches Some(c) && c@ == session_id
    &&& post.peer_assignments == pre.peer_assignments
    &&& post.assignment_acceptances == pre.assignment_acceptances
    &&& if pre.sessions@.dom().contains(session_id) {
        post.sessions@ == pre.sessions@
    } else {
        &&& post.sessions@ == pre.sessions@.insert(session_id, post.sessions@[session_id])
        &&& fresh_session(post.sessions@[session_id], session_id, coordinator_id, assignments, now_secs)
    }
}

/// The sessions after an acceptance of a known session: the peer is marked
/// as having accepted, and nothing else changes.
pub open spec fn acceptance_recorded(
    pre: SessionRegistry,
    post: SessionRegistry,
    peer_id: Seq<char>,
    session_id: Seq<char>,
) -> bool {
    let before = pre.sessions@[session_id];
    let after = post.sessions@[session_id];
    &&& post.sessions@ == pre.sessions@.insert(session_id, after)
    &&& after.session_id == before.session_id
    &&& after.coordinator_id == before.coordinator_id
    &&& after.assignments == before.assignments
    &&& after.created_at == before.created_at
    &&& after.total_nodes == before.total_nodes
    &&& after.acceptances@ == before.acceptances@.insert(peer_id, true)
    &&& post.current_session_id == pre.current_session_id
    &&& post.peer_assignments == pre.peer_assignments
    &&& post.assignment_acceptances == pre.assignment_acceptances
}

/// A peer's acceptance recorded twice leaves its session as recording it
/// once did.
pub proof fn law_acceptance_is_idempotent(
    a: SessionRegistry,
    b: SessionRegistry,
    c: SessionRegistry,
    peer_id: Seq<char>,
    session_id: Seq<char>,
)
    requires
        a.sessions@.dom().contains(session_id),
        acceptance_recorded(a, b, peer_id, session_id),
        acceptance_recorded(b, c, peer_id, session_id),
    ensures
        c.sessions@[session_id].acceptances@ == b.sessions@[session_id].acceptances@,
        c.sessions@.dom() == b.sessions@.dom(),
{
    assert(c.sessions@[session_id].acceptances@ =~= b.sessions@[session_id].acceptances@);
    assert(c.sessions@.dom() =~= b.sessions@.dom());
}

/// Handles an assignment message received on the assignment topic, at
/// `now_secs` seconds since the Unix epoch. A request that assigns the
/// local peer makes its session current and known, and is answered with an
/// acceptance unless the local peer is the coordinator. An acceptance is
/// recorded in its session, if that session is known.
pub fn handle_assignment_message(
    local_peer_id: &String,
    assignment_msg: AssignmentMessage,
    sessions: &mut SessionRegistry,
    now_secs: u64,
) -> (outcome: AssignmentOutcome)
    requires
        old(sessions).wf(),
    ensures
        final(sessions).wf(),
        match assignment_msg {
            AssignmentMessage::Request { coordinator_id, assignments, session_id } => {
                if assignments@.dom().contains(local_peer_id@) {
                    &&& request_recorded(
                        *old(sessions),
                        *final(sessions),
                        coordinator_id@,
                        assignments@,
                        session_id@,
                        now_secs,
                    )
                    &&& if coordinator_id@ == local_peer_id@ {
                        outcome == (AssignmentOutcome::CoordinatorConfirmed {
                            assigned_index: assignments@[local_peer_id@],
                            total_nodes: assignments@.len() as usize,
                        })
                    } else {
                        outcome matches AssignmentOutcome::SendAcceptance {
                            coordinator_id: c,
                            acceptance: AssignmentMessage::Acceptance { peer_id, assigned_index, session_id: s },
                        } && c@ == coordinator_id@ && peer_id@ == local_peer_id@
                            && assigned_index == assignments@[local_peer_id@] && s@ == session_id@
                    }
                } else {
                    outcome is NotAssigned && *final(sessions) == *old(sessions)
                }
            },
            AssignmentMessage::Acceptance { peer_id, assigned_index, session_id } => {
                if old(sessions).sessions@.dom().contains(session_id@) {
                    let after = final(sessions).sessions@[session_id@];
                    &&& acceptance_recorded(*old(sessions), *final(sessions), peer_id@, session_id@)
                    &&& outcome matches AssignmentOutcome::AcceptanceRecorded {
                        peer_id: p,
                        assigned_index: i,
                        session_id: s,
                        acceptance_count,
                        total_expected,
                        all_accepted,
                    } && p@ == peer_id@ && i == assigned_index && s@ == session_id@
                        && acceptance_count == true_keys(after.acceptances@).len()
                        && total_expected == after.total_nodes - 1 && all_accepted == spec_all_accepted(after)
                } else {
                    outcome matches AssignmentOutcome::UnknownSession { session_id: s } && s@ == session_id@
                        && *final(sessions) == *old(sessions)
                }
            },
        },
{
    match assignment_msg {
        AssignmentMessage::Request { coordinator_id, assignments, session_id } => {
            let assigned_index = match assignments.get(local_peer_id) {
                Some(i) => *i,
                None => {
                    return AssignmentOutcome::NotAssigned;
                },
            };
            let total_nodes = assignments.len();
            proof {
                assignments.lemma_finite();
                assert(assignments@.dom().len() >= 1) by {
                    vstd::set_lib::lemma_set_empty_equivalency_len(assignments@.dom());
                }
            }
            let ghost pre = *sessions;
            sessions.current_session_id = Some(session_id.clone());
            if !sessions.sessions.contains_key(&session_id) {
                let info = SessionInfo::with_created_at(
                    session_id.clone(),
                    coordinator_id.clone(),
                    assignments,
                    now_secs,
                );
                sessions.sessions.insert(session_id.clone(), info);
                assert(sessions.sessions@ =~= pre.sessions@.insert(session_id@, sessions.sessions@[session_id@]));
            }
            if coordinator_id == *local_peer_id {
                return AssignmentOutcome::CoordinatorConfirmed { assigned_index, total_nodes };
            }
            let acceptance = AssignmentMessage::Acceptance {
                peer_id: local_peer_id.clone(),
                assigned_index,
                session_id,
            };
            AssignmentOutcome::SendAcceptance { coordinator_id, acceptance }
        },
        AssignmentMessage::Acceptance { peer_id, assigned_index, session_id } => {
            let ghost pre = sessions.sessions@;
            if !sessions.sessions.contains_key(&session_id) {
                return AssignmentOutcome::UnknownSession { session_id };
            }
            match sessions.sessions.remove(&session_id) {
                Some(mut session) => {
                    session.acceptances.insert(peer_id.clone(), true);
                    let acceptance_count = session.acceptance_count();
                    let total_expected = session.total_nodes - 1;
                    let all_accepted = session.all_accepted();
                    sessions.sessions.insert(session_id.clone(), session);
                    assert(sessions.sessions@ =~= pre.insert(session_id@, sessions.sessions@[session_id@]));
                    AssignmentOutcome::AcceptanceRecorded {
                        peer_id,
                        assigned_index,
                        session_id,
                        acceptance_count,
                        total_expected,
                        all_accepted,
                    }
                },
                None => AssignmentOutcome::UnknownSession { session_id },
            }
        },
    }
}

/// No two strings of the list have the same characters.
pub open spec fn distinct_texts(s: Seq<String>) -> bool {
    forall|i: int, j: int| 0 <= i < s.len() && 0 <= j < s.len() && i != j ==> s[i]@ != s[j]@
}

/// Some string of the list has the characters `x`.
pub open spec fn has_text(s: Seq<String>, x: Seq<char>) -> bool {
    exists|j: int| 0 <= j < s.len() && (#[trigger] s[j])@ == x
}

/// The list without the strings whose characters are `x`, order kept.
pub open spec fn without_text(s: Seq<String>, x: Seq<char>) -> Seq<String>
    decreases s.len(),
{
    if s.len() == 0 {
        s
    } else if s.last()@ == x {
        without_text(s.drop_last(), x)
    } else {
        without_text(s.drop_last(), x).push(s.last())
    }
}

proof fn lemma_without_text(s: Seq<String>, x: Seq<char>)
    ensures
        !has_text(without_text(s, x), x),
        forall|y: Seq<char>| has_text(without_text(s, x), y) ==> has_text(s, y),
        distinct_texts(s) ==> distinct_texts(without_text(s, x)),
    decreases s.len(),
{
    if s.len() > 0 {
        let t = s.drop_last();
        lemma_without_text(t, x);
        let w = without_text(t, x);
        assert forall|y: Seq<char>| has_text(t, y) implies has_text(s, y) by {
            let j = choose|j: int| 0 <= j < t.len() && (#[trigger] t[j])@ == y;
            assert(s[j] == t[j]);
        }
        if s.last()@ != x {
            let r = w.push(s.last());
            assert forall|y: Seq<char>| has_text(r, y) implies has_text(s, y) by {
                let j = choose|j: int| 0 <= j < r.len() && (#[trigger] r[j])@ == y;
                if j == r.len() - 1 {
                    assert(s[s.len() - 1]@ == y);
                } else {
                    assert(r[j] == w[j]);
                    assert(has_text(w, y));
                }
            }
            if has_text(r, x) {
                let j = choose|j: int| 0 <= j < r.len() && (#[trigger] r[j])@ == x;
                assert(r[j] == w[j]);
                assert(has_text(w, x));
            }
            if distinct_texts(s) {
                assert(distinct_texts(t)) by {
                    assert forall|a: int, b: int| 0 <= a < t.len() && 0 <= b < t.len() && a != b implies t[a]@
                        != t[b]@ by {
                        assert(t[a] == s[a] && t[b] == s[b]);
                    }
                }
                assert forall|a: int, b: int| 0 <= a < r.len() && 0 <= b < r.len() && a != b implies r[a]@
                    != r[b]@ by {
                    if a == r.len() - 1 || b == r.len() - 1 {
                        let o = if a == r.len() - 1 { b } else { a };
                        assert(r[o] == w[o]);
                        if r[o]@ == s.last()@ {
                            assert(has_text(w, s.last()@));
                            assert(has_text(t, s.last()@));
                            let k = choose|k: int| 0 <= k < t.len() && (#[trigger] t[k])@ == s.last()@;
                            assert(s[k] == t[k]);
                        }
                    } else {
                        assert(r[a] == w[a] && r[b] == w[b]);
                    }
                }
            }
        } else {
            if distinct_texts(s) {
                assert(distinct_texts(t)) by {
                    assert forall|a: int, b: int| 0 <= a < t.len() && 0 <= b < t.len() && a != b implies t[a]@
                        != t[b]@ by {
                        assert(t[a] == s[a] && t[b] == s[b]);
                    }
                }
            }
        }
    }
}

/// What the worker does with a gossip message.
#[derive(Debug, Clone, Copy, PartialEq, Eq, Structural)]
pub enum GossipDisposition {
    /// The node's own message, echoed back: ignored.
    OwnMessage,
    /// A message on the assignment topic, to be read as an assignment message.
    Assignment,
    /// Any other message, to be logged.
    Other,
}

/// What became of an identification of a peer.
#[derive(Debug, Clone, Copy, PartialEq, Eq, Structural)]
pub enum IdentifyOutcome {
    /// The node identified itself: ignored, its addresses included.
    OwnIdentity,
    /// A peer already listed: only its addresses are to be added.
    KnownPeer,
    /// A peer newly listed; when `request_bootstrap`, a Kademlia bootstrap is
    /// to be started.
    NewPeer { request_bootstrap: bool },
}

/// The worker's bookkeeping of peers and addresses, shared with the RPC
/// interface. Peers and addresses are kept in their text forms.
#[derive(Debug)]
pub struct NetworkState {
    pub id: String,
    pub port: u16,
    /// Counter of connected peers.
    pub peers: usize,
    pub bootstrapped: bool,
    pub peer_list: Vec<String>,
    pub listen_addresses: Vec<String>,
}

/// What an identification of `peer` does to the bookkeeping: the node
/// itself and peers already listed change nothing; a new peer is appended
/// to the peer list and counted.
pub open spec fn identify_step(pre: NetworkState, post: NetworkState, peer: String, outcome: IdentifyOutcome) -> bool {
    if peer@ == pre.id@ {
        outcome == IdentifyOutcome::OwnIdentity && post == pre
    } else if has_text(pre.peer_list@, peer@) {
        outcome == IdentifyOutcome::KnownPeer && post == pre
    } else {
        &&& outcome == (IdentifyOutcome::NewPeer { request_bootstrap: !pre.bootstrapped })
        &&& post.peer_list@ == pre.peer_list@.push(peer)
        &&& post.peers == pre.peers + 1
        &&& post.id == pre.id
        &&& post.port == pre.port
        &&& post.bootstrapped == pre.bootstrapped
        &&& post.listen_addresses == pre.listen_addresses
    }
}

/// What a closed connection with `peer` does: the peer leaves the peer list
/// (whether it was listed or not) and the counter goes down by one,
/// stopping at zero.
pub open spec fn closed_step(pre: NetworkState, post: NetworkState, peer: Seq<char>) -> bool {
    &&& post.peer_list@ == without_text(pre.peer_list@, peer)
    &&& post.peers == (if pre.peers > 0 { pre.peers - 1 } else { 0 })
    &&& post.id == pre.id
    &&& post.port == pre.port
    &&& post.bootstrapped == pre.bootstrapped
    &&& post.listen_addresses == pre.listen_addresses
}

/// What a new listen address does: it is appended unless already listed.
pub open spec fn listen_step(pre: NetworkState, post: NetworkState, address: String) -> bool {
    &&& post.listen_addresses@ == (if has_text(pre.listen_addresses@, address@) {
        pre.listen_addresses@
    } else {
        pre.listen_addresses@.push(address)
    })
    &&& post.id == pre.id
    &&& post.port == pre.port
    &&& post.peers == pre.peers
    &&& post.bootstrapped == pre.bootstrapped
    &&& post.peer_list == pre.peer_list
}

/// A change of the bootstrap flag alone.
pub open spec fn bootstrap_step(pre: NetworkState, post: NetworkState) -> bool {
    &&& post.id == pre.id
    &&& post.port == pre.port
    &&& post.peers == pre.peers
    &&& post.peer_list == pre.peer_list
    &&& post.listen_addresses == pre.listen_addresses
}

/// One event of the network worker's run, as it changes the bookkeeping.
pub open spec fn worker_step(pre: NetworkState, post: NetworkState) -> bool {
    ||| exists|peer: String, outcome: IdentifyOutcome| #[trigger] identify_step(pre, post, peer, outcome)
    ||| exists|peer: Seq<char>| #[trigger] closed_step(pre, post, peer)
    ||| exists|address: String| #[trigger] listen_step(pre, post, address)
    ||| bootstrap_step(pre, post)
}

proof fn lemma_push_distinct(s: Seq<String>, x: String)
    requires
        distinct_texts(s),
        !has_text(s, x@),
    ensures
        distinct_texts(s.push(x)),
        forall|y: Seq<char>| has_text(s.push(x), y) ==> has_text(s, y) || y == x@,
{
    let r = s.push(x);
    assert forall|a: int, b: int| 0 <= a < r.len() && 0 <= b < r.len() && a != b implies r[a]@ != r[b]@ by {
        if a < s.len() && b < s.len() {
            assert(r[a] == s[a] && r[b] == s[b]);
        } else if a < s.len() {
            assert(r[a] == s[a]);
        } else {
            assert(r[b] == s[b]);
        }
    }
    assert forall|y: Seq<char>| has_text(r, y) implies has_text(s, y) || y == x@ by {
        let j = choose|j: int| 0 <= j < r.len() && (#[trigger] r[j])@ == y;
        if j < s.len() {
            assert(r[j] == s[j]);
        }
    }
}

/// Every event of the worker keeps the bookkeeping sound.
proof fn lemma_step_keeps_wf(pre: NetworkState, post: NetworkState)
    requires
        pre.wf(),
        worker_step(pre, post),
    ensures
        post.wf(),
{
    if exists|peer: String, outcome: IdentifyOutcome| #[trigger] identify_step(pre, post, peer, outcome) {
        let (peer, outcome) = choose|peer: String, outcome: IdentifyOutcome| #[trigger] identify_step(
            pre,
            post,
            peer,
            outcome,
        );
        if peer@ != pre.id@ && !has_text(pre.peer_list@, peer@) {
            lemma_push_distinct(pre.peer_list@, peer);
        }
    } else if exists|peer: Seq<char>| #[trigger] closed_step(pre, post, peer) {
        let peer = choose|peer: Seq<char>| #[trigger] closed_step(pre, post, peer);
        lemma_without_text(pre.peer_list@, peer);
    } else if exists|address: String| #[trigger] listen_step(pre, post, address) {
        let address = choose|address: String| #[trigger] listen_step(pre, post, address);
        if !has_text(pre.listen_addresses@, address@) {
            lemma_push_distinct(pre.listen_addresses@, address);
        }
    }
}

/// Through every run of the worker's events from a sound start (such as a
/// new node), the peer list never names a peer twice nor the node itself,
/// and no listen address is listed twice.
pub proof fn law_worker_bookkeeping_stays_sound(states: Seq<NetworkState>)
    requires
        states.len() > 0,
        states[0].wf(),
        forall|i: int| 0 <= i < states.len() - 1 ==> worker_step(#[trigger] states[i], states[i + 1]),
    ensures
        forall|i: int| 0 <= i < states.len() ==> (#[trigger] states[i]).wf(),
    decreases states.len(),
{
    if states.len() > 1 {
        let t = states.drop_last();
        assert forall|i: int| 0 <= i < t.len() - 1 implies worker_step(#[trigger] t[i], t[i + 1]) by {
            assert(t[i] == states[i] && t[i + 1] == states[i + 1]);
            assert(worker_step(states[i], states[i + 1]));
        }
        law_worker_bookkeeping_stays_sound(t);
        let k = states.len() - 2;
        assert(t[k] == states[k]);
        assert(worker_step(states[k], states[k + 1]));
        lemma_step_keeps_wf(states[k], states[k + 1]);
        assert forall|i: int| 0 <= i < states.len() implies (#[trigger] states[i]).wf() by {
            if i < t.len() {
                assert(t[i] == states[i]);
            }
        }
    }
}

impl NetworkState {
    /// The peer list names no peer twice and never the node itself; no
    /// listen address is listed twice.
    pub open spec fn wf(&self) -> bool {
        &&& distinct_texts(self.peer_list@)
        &&& !has_text(self.peer_list@, self.id@)
        &&& distinct_texts(self.listen_addresses@)
    }

    /// A node with no peers and no addresses yet.
    pub fn new(id: String, port: u16) -> (n: Self)
        ensures
            n.wf(),
            n.id == id,
            n.port == port,
            n.peers == 0,
            !n.bootstrapped,
            n.peer_list@.len() == 0,
            n.listen_addresses@.len() == 0,
    {
        NetworkState {
            id,
            port,
            peers: 0,
            bootstrapped: false,
            peer_list: Vec::new(),
            listen_addresses: Vec::new(),
        }
    }

    /// `true` if the swarm's gossipsub peers, `gossip_peers` of them,
    /// number at least `target`.
    pub fn have_sufficient_peers(gossip_peers: usize, target: usize) -> (b: bool)
        ensures
            b == (gossip_peers >= target),
    {
        gossip_peers >= target
    }

    /// How a gossip message from `source`, on the assignment topic or not,
    /// is to be handled.
    pub fn classify_gossip(&self, source: &Option<String>, on_assignment_topic: bool) -> (d: GossipDisposition)
        ensures
            d == (if source matches Some(s) && s@ == self.id@ {
                GossipDisposition::OwnMessage
            } else if on_assignment_topic {
                GossipDisposition::Assignment
            } else {
                GossipDisposition::Other
            }),
    {
        match source {
            Some(s) => {
                if *s == self.id {
                    return GossipDisposition::OwnMessage;
                }
            },
            None => {},
        }
        if on_assignment_topic {
            GossipDisposition::Assignment
        } else {
            GossipDisposition::Other
        }
    }

    /// Records that `peer` identified itself. A peer not yet listed is
    /// appended to the peer list and counted.
    pub fn on_peer_identified(&mut self, peer: String) -> (outcome: IdentifyOutcome)
        requires
            old(self).wf(),
            old(self).peers < usize::MAX,
        ensures
            final(self).wf(),
            identify_step(*old(self), *final(self), peer, outcome),
    {
        if peer == self.id {
            return IdentifyOutcome::OwnIdentity;
        }
        if contains_text(&self.peer_list, &peer) {
            return IdentifyOutcome::KnownPeer;
        }
        proof {
            lemma_push_distinct(self.peer_list@, peer);
        }
        self.peers = self.peers + 1;
        self.peer_list.push(peer);
        IdentifyOutcome::NewPeer { request_bootstrap: !self.bootstrapped }
    }

    /// Records the result of starting a Kademlia bootstrap.
    pub fn on_bootstrap_started(&mut self, started: bool)
        ensures
            final(self).bootstrapped == (old(self).bootstrapped || started),
            final(self).id == old(self).id,
            final(self).port == old(self).port,
            final(self).peers == old(self).peers,
            final(self).peer_list == old(self).peer_list,
            final(self).listen_addresses == old(self).listen_addresses,
    {
        if started {
            self.bootstrapped = true;
        }
    }

    /// Records that a boot node is being dialed: the node counts as bootstrapped.
    pub fn on_boot_node_dialed(&mut self)
        ensures
            final(self).bootstrapped,
            final(self).id == old(self).id,
            final(self).port == old(self).port,
            final(self).peers == old(self).peers,
            final(self).peer_list == old(self).peer_list,
            final(self).listen_addresses == old(self).listen_addresses,
    {
        self.bootstrapped = true;
    }

    /// Records that the connection with `peer` closed: it leaves the peer
    /// list and the counter goes down by one, stopping at zero.
    pub fn on_connection_closed(&mut self, peer: &String)
        requires
            old(self).wf(),
        ensures
            final(self).wf(),
            closed_step(*old(self), *final(self), peer@),
    {
        let n = self.peer_list.len();
        let mut kept: Vec<String> = Vec::new();
        let mut i: usize = 0;
        while i < n
            invariant
                n == self.peer_list@.len(),
                i <= n,
                kept@ == without_text(self.peer_list@.take(i as int), peer@),
            decreases n - i,
        {
            let ghost before = self.peer_list@.take(i as int);
            assert(self.peer_list@.take(i + 1).drop_last() =~= before);
            if self.peer_list[i] != *peer {
                kept.push(self.peer_list[i].clone());
            }
            i = i + 1;
        }
        assert(self.peer_list@.take(n as int) =~= self.peer_list@);
        proof {
            lemma_without_text(self.peer_list@, peer@);
            if has_text(kept@, self.id@) {
                assert(has_text(self.peer_list@, self.id@));
            }
        }
        self.peer_list = kept;
        self.peers = if self.peers > 0 { self.peers - 1 } else { 0 };
    }

    /// Records a new listen address, unless it is listed already.
    pub fn on_new_listen_addr(&mut self, address: String)
        requires
            old(self).wf(),
        ensures
            final(self).wf(),
            listen_step(*old(self), *final(self), address),
    {
        if contains_text(&self.listen_addresses, &address) {
            return;
        }
        proof {
            lemma_push_distinct(self.listen_addresses@, address);
        }
        self.listen_addresses.push(address);
    }
}

/// The topics to subscribe to at start: the assignment topic, then the
/// configured ones.
pub fn startup_topics(topics: &Vec<String>) -> (all: Vec<String>)
    ensures
        all@.len() == topics@.len() + 1,
        all@[0]@ == ASSIGNMENT_TOPIC@,
        forall|i: int| 0 <= i < topics@.len() ==> all@[i + 1] == #[trigger] topics@[i],
{
    let mut all: Vec<String> = Vec::new();
    all.push(String::from_str(ASSIGNMENT_TOPIC));
    let n = topics.len();
    let mut i: usize = 0;
    while i < n
        invariant
            n == topics@.len(),
            i <= n,
            all@.len() == i + 1,
            all@[0]@ == ASSIGNMENT_TOPIC@,
            forall|j: int| 0 <= j < i ==> all@[j + 1] == #[trigger] topics@[j],
        decreases n - i,
    {
        all.push(topics[i].clone());
        i = i + 1;
    }
    all
}

/// The multiaddress to listen on: every IPv4 interface, TCP port `port`.
pub fn listen_multiaddr(port: u16) -> (addr: String)
    ensures
        addr@ == "/ip4/0.0.0.0/tcp/"@ + decimal(port as nat),
{
    let p = decimal_string(port as u64);
    concat2("/ip4/0.0.0.0/tcp/", p.as_str())
}

} // verus!
