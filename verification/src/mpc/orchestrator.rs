//! The protocol state machine of one node: auxiliary-information
//! generation, then key generation, then signing. Coordination messages and
//! the outcomes of the protocol runs move it from state to state; each
//! accepted initiation tells the caller which protocol run to start.

use vstd::prelude::*;
use crate::str_map::StrMap;
use crate::text::{copy_vec, contains_u16, concat2, concat5, decimal, decimal_string, hex_lower, hex_string};

verus! {

/// Party index in the MPC protocol (0-indexed).
pub type PartyIndex = u16;

/// The number of parties that an auxiliary-information run is started with.
pub const AUX_GENERATION_PARTIES: u16 = 3;

/// A wall-clock time, as whole seconds and nanoseconds since the Unix epoch.
#[derive(Clone, Copy, Debug, PartialEq, Eq, Structural)]
pub struct Timestamp {
    pub secs: u64,
    pub nanos: u32,
}

/// Protocol execution state. Instants (`started_at`, `completed_at`,
/// `failed_at`) are readings of the node's monotonic clock in milliseconds.
#[derive(Debug, Clone)]
pub enum ProtocolState {
    /// No protocol running.
    Idle,
    /// Aux generation in progress.
    AuxGeneration {
        initiator: String,
        started_at: u64,
        execution_id: Vec<u8>,
        completed_parties: Vec<String>,
    },
    /// Aux generation completed.
    AuxCompleted { completed_at: u64, success_count: usize },
    /// Keygen in progress.
    Keygen {
        initiator: String,
        started_at: u64,
        execution_id: Vec<u8>,
        threshold: u16,
        completed_parties: Vec<String>,
    },
    /// Keygen completed; `public_key` is the shared public key in hexadecimal.
    KeygenCompleted { completed_at: u64, public_key: String },
    /// Signing in progress.
    Signing {
        initiator: String,
        started_at: u64,
        execution_id: Vec<u8>,
        message: Vec<u8>,
        signers: Vec<PartyIndex>,
        completed_parties: Vec<String>,
    },
    /// Signing completed.
    SigningCompleted { completed_at: u64, signature: String },
    /// A protocol run failed.
    Failed { phase: String, reason: String, failed_at: u64 },
}

/// Messages by which peers coordinate protocol runs. Peers are named by the
/// text of their peer ids.
#[derive(Debug, Clone)]
pub enum CoordinationMessage {
    InitiateAux {
        execution_id: Vec<u8>,
        participants: Vec<String>,
        party_assignments: StrMap<PartyIndex>,
        timestamp: Timestamp,
    },
    AuxCompleted { party_id: String, success: bool },
    InitiateKeygen {
        execution_id: Vec<u8>,
        threshold: u16,
        total_parties: u16,
        timestamp: Timestamp,
    },
    KeygenCompleted { party_id: String, public_key: Vec<u8>, success: bool },
    InitiateSigning {
        execution_id: Vec<u8>,
        message: Vec<u8>,
        signers: Vec<PartyIndex>,
        timestamp: Timestamp,
    },
    SigningCompleted { party_id: String, signature: Vec<u8>, success: bool },
    ProtocolFailed { party_id: String, phase: String, error: String },
}

/// What the caller is to start after a coordination message was accepted.
#[derive(Debug, Clone)]
pub enum OrchestratorAction {
    /// Nothing to start.
    Nothing,
    /// Run aux generation as party `party_index` of `total_parties`.
    StartAuxGeneration { party_index: PartyIndex, total_parties: u16, timestamp_secs: u64 },
    /// Run key generation with the given threshold.
    StartKeygen { party_index: PartyIndex, total_parties: u16, threshold: u16, timestamp_secs: u64 },
    /// Sign `message` together with `signers`.
    StartSigning {
        party_index: PartyIndex,
        signers: Vec<PartyIndex>,
        message: Vec<u8>,
        timestamp_secs: u64,
    },
}

/// Why a coordination message was refused.
#[derive(Debug, Clone, Copy, PartialEq, Eq, Structural)]
pub enum OrchestratorError {
    /// Aux generation can start only from the idle state.
    NotIdle,
    /// Keygen can start only after aux generation (or from idle).
    KeygenNotReady,
    /// Signing can start only after keygen (or from idle).
    SigningNotReady,
    /// The aux or keygen assignments do not name the local peer.
    LocalPeerNotAssigned,
    /// The assignments do not name the local peer, when signing.
    LocalPeerNotFound,
    ThresholdZero,
    ThresholdExceedsParties { threshold: u16, total_parties: u16 },
    AuxInfoUnavailable,
    KeyShareUnavailable,
}

/// Aux generation may start from this state.
pub open spec fn can_start_aux(s: ProtocolState) -> bool {
    s is Idle
}

/// Keygen may start from this state.
pub open spec fn can_start_keygen(s: ProtocolState) -> bool {
    s is AuxCompleted || s is Idle
}

/// Signing may start from this state.
pub open spec fn can_start_signing(s: ProtocolState) -> bool {
    s is KeygenCompleted || s is Idle
}

/// The phase that a protocol state reports when it is aborted.
pub open spec fn phase_name(s: ProtocolState) -> Seq<char> {
    match s {
        ProtocolState::AuxGeneration { .. } => "aux_generation"@,
        ProtocolState::Keygen { .. } => "keygen"@,
        ProtocolState::Signing { .. } => "signing"@,
        _ => "unknown"@,
    }
}

/// The metric label of a protocol state.
pub open spec fn state_label(s: ProtocolState) -> Seq<char> {
    match s {
        ProtocolState::Idle => "idle"@,
        ProtocolState::AuxGeneration { .. } => "aux_generation"@,
        ProtocolState::AuxCompleted { .. } => "aux_completed"@,
        ProtocolState::Keygen { .. } => "keygen"@,
        ProtocolState::KeygenCompleted { .. } => "keygen_completed"@,
        ProtocolState::Signing { .. } => "signing"@,
        ProtocolState::SigningCompleted { .. } => "signing_completed"@,
        ProtocolState::Failed { .. } => "failed"@,
    }
}

/// All metric labels of protocol states, in declaration order.
pub open spec fn all_state_labels() -> Seq<Seq<char>> {
    seq![
        "idle"@,
        "aux_generation"@,
        "aux_completed"@,
        "keygen"@,
        "keygen_completed"@,
        "signing"@,
        "signing_completed"@,
        "failed"@,
    ]
}

/// The metric labels of all protocol states, in declaration order.
pub fn protocol_state_labels() -> (labels: Vec<&'static str>)
    ensures
        labels@.len() == all_state_labels().len(),
        forall|i: int| 0 <= i < labels@.len() ==> (#[trigger] labels@[i])@ == all_state_labels()[i],
{
    let mut labels: Vec<&'static str> = Vec::new();
    labels.push("idle");
    labels.push("aux_generation");
    labels.push("aux_completed");
    labels.push("keygen");
    labels.push("keygen_completed");
    labels.push("signing");
    labels.push("signing_completed");
    labels.push("failed");
    labels
}

impl ProtocolState {
    /// The label under which this state is reported as active.
    pub fn metric_label(&self) -> (label: &'static str)
        ensures
            label@ == state_label(*self),
    {
        match self {
            ProtocolState::Idle => "idle",
            ProtocolState::AuxGeneration { .. } => "aux_generation",
            ProtocolState::AuxCompleted { .. } => "aux_completed",
            ProtocolState::Keygen { .. } => "keygen",
            ProtocolState::KeygenCompleted { .. } => "keygen_completed",
            ProtocolState::Signing { .. } => "signing",
            ProtocolState::SigningCompleted { .. } => "signing_completed",
            ProtocolState::Failed { .. } => "failed",
        }
    }

    /// The threshold that a keygen state reports.
    pub fn threshold_gauge(&self) -> (t: Option<u16>)
        ensures
            t == (match *self {
                ProtocolState::Keygen { threshold, .. } => Some(threshold),
                _ => None,
            }),
    {
        match self {
            ProtocolState::Keygen { threshold, .. } => Some(*threshold),
            _ => None,
        }
    }

    /// The number of signers that a signing state reports.
    pub fn active_signers_gauge(&self) -> (n: Option<usize>)
        ensures
            n == (match *self {
                ProtocolState::Signing { signers, .. } => Some(signers@.len() as usize),
                _ => None,
            }),
    {
        match self {
            ProtocolState::Signing { signers, .. } => Some(signers.len()),
            _ => None,
        }
    }

    /// The signature, once signing has completed.
    pub fn completed_signature(&self) -> (sig: Option<String>)
        ensures
            match *self {
                ProtocolState::SigningCompleted { signature, .. } => sig is Some && sig->0@
                    == signature@,
                _ => sig is None,
            },
    {
        match self {
            ProtocolState::SigningCompleted { signature, .. } => Some(signature.clone()),
            _ => None,
        }
    }
}

/// The coordinator of one node's protocol runs. `has_aux_info` and
/// `has_key_share` record whether the generated aux info and key share are
/// in store.
pub struct MPCOrchestrator {
    pub state: ProtocolState,
    pub participants: Vec<String>,
    pub party_assignments: StrMap<PartyIndex>,
    pub timeout_secs: u64,
    pub local_peer_id: String,
    pub has_aux_info: bool,
    pub has_key_share: bool,
}

/// Everything but the protocol state is the same.
pub open spec fn keeps_setup(pre: MPCOrchestrator, post: MPCOrchestrator) -> bool {
    &&& post.participants == pre.participants
    &&& post.party_assignments == pre.party_assignments
    &&& post.timeout_secs == pre.timeout_secs
    &&& post.local_peer_id == pre.local_peer_id
    &&& post.has_aux_info == pre.has_aux_info
    &&& post.has_key_share == pre.has_key_share
}

/// The outcome of an `InitiateAux` message. The local index is looked up in
/// the message's assignments.
pub open spec fn aux_step(
    pre: MPCOrchestrator,
    post: MPCOrchestrator,
    from: Seq<char>,
    execution_id: Seq<u8>,
    assignments: Map<Seq<char>, PartyIndex>,
    timestamp: Timestamp,
    now: u64,
    r: Result<OrchestratorAction, OrchestratorError>,
) -> bool {
    if !can_start_aux(pre.state) {
        r == Err::<OrchestratorAction, OrchestratorError>(OrchestratorError::NotIdle) && post == pre
    } else if !assignments.dom().contains(pre.local_peer_id@) {
        r == Err::<OrchestratorAction, OrchestratorError>(OrchestratorError::LocalPeerNotAssigned)
            && post == pre
    } else {
        &&& r == Ok::<OrchestratorAction, OrchestratorError>(
            OrchestratorAction::StartAuxGeneration {
                party_index: assignments[pre.local_peer_id@],
                total_parties: AUX_GENERATION_PARTIES,
                timestamp_secs: timestamp.secs,
            },
        )
        &&& keeps_setup(pre, post)
        &&& post.state matches ProtocolState::AuxGeneration {
            initiator,
            started_at,
            execution_id: e,
            completed_parties,
        } && initiator@ == from && started_at == now && e@ == execution_id
            && completed_parties@.len() == 0
    }
}

/// The outcome of an `InitiateKeygen` message.
pub open spec fn keygen_step(
    pre: MPCOrchestrator,
    post: MPCOrchestrator,
    from: Seq<char>,
    execution_id: Seq<u8>,
    threshold: u16,
    total_parties: u16,
    timestamp: Timestamp,
    now: u64,
    r: Result<OrchestratorAction, OrchestratorError>,
) -> bool {
    if !can_start_keygen(pre.state) {
        r == Err::<OrchestratorAction, OrchestratorError>(OrchestratorError::KeygenNotReady)
            && post == pre
    } else if threshold == 0 {
        r == Err::<OrchestratorAction, OrchestratorError>(OrchestratorError::ThresholdZero)
            && post == pre
    } else if threshold > total_parties {
        r == Err::<OrchestratorAction, OrchestratorError>(
            OrchestratorError::ThresholdExceedsParties { threshold, total_parties },
        ) && post == pre
    } else if !pre.party_assignments@.dom().contains(pre.local_peer_id@) {
        r == Err::<OrchestratorAction, OrchestratorError>(OrchestratorError::LocalPeerNotAssigned)
            && post == pre
    } else {
        &&& keeps_setup(pre, post)
        &&& post.state matches ProtocolState::Keygen {
            initiator,
            started_at,
            execution_id: e,
            threshold: t,
            completed_parties,
        } && initiator@ == from && started_at == now && e@ == execution_id && t == threshold
            && completed_parties@.len() == 0
        &&& r == if pre.has_aux_info {
            Ok::<OrchestratorAction, OrchestratorError>(
                OrchestratorAction::StartKeygen {
                    party_index: pre.party_assignments@[pre.local_peer_id@],
                    total_parties,
                    threshold,
                    timestamp_secs: timestamp.secs,
                },
            )
        } else {
            Err::<OrchestratorAction, OrchestratorError>(OrchestratorError::AuxInfoUnavailable)
        }
    }
}

/// The outcome of an `InitiateSigning` message.
pub open spec fn signing_step(
    pre: MPCOrchestrator,
    post: MPCOrchestrator,
    from: Seq<char>,
    execution_id: Seq<u8>,
    message: Seq<u8>,
    signers: Seq<PartyIndex>,
    timestamp: Timestamp,
    now: u64,
    r: Result<OrchestratorAction, OrchestratorError>,
) -> bool {
    if !can_start_signing(pre.state) {
        r == Err::<OrchestratorAction, OrchestratorError>(OrchestratorError::SigningNotReady)
            && post == pre
    } else if !pre.party_assignments@.dom().contains(pre.local_peer_id@) {
        r == Err::<OrchestratorAction, OrchestratorError>(OrchestratorError::LocalPeerNotFound)
            && post == pre
    } else {
        let index = pre.party_assignments@[pre.local_peer_id@];
        &&& keeps_setup(pre, post)
        &&& post.state matches ProtocolState::Signing {
            initiator,
            started_at,
            execution_id: e,
            message: m,
            signers: s,
            completed_parties,
        } && initiator@ == from && started_at == now && e@ == execution_id && m@ == message
            && s@ == signers && completed_parties@.len() == 0
        &&& if !signers.contains(index) {
            r == Ok::<OrchestratorAction, OrchestratorError>(OrchestratorAction::Nothing)
        } else if !pre.has_aux_info {
            r == Err::<OrchestratorAction, OrchestratorError>(OrchestratorError::AuxInfoUnavailable)
        } else if !pre.has_key_share {
            r == Err::<OrchestratorAction, OrchestratorError>(OrchestratorError::KeyShareUnavailable)
        } else {
            r matches Ok(OrchestratorAction::StartSigning { party_index, signers: s, message: m, timestamp_secs })
                && party_index == index && s@ == signers && m@ == message && timestamp_secs
                == timestamp.secs
        }
    }
}

/// The outcome of any coordination message from peer `from` at instant `now`.
pub open spec fn coordination_step(
    pre: MPCOrchestrator,
    post: MPCOrchestrator,
    from: Seq<char>,
    message: CoordinationMessage,
    now: u64,
    r: Result<OrchestratorAction, OrchestratorError>,
) -> bool {
    match message {
        CoordinationMessage::InitiateAux { execution_id, party_assignments, timestamp, .. } => aux_step(
            pre,
            post,
            from,
            execution_id@,
            party_assignments@,
            timestamp,
            now,
            r,
        ),
        CoordinationMessage::InitiateKeygen { execution_id, threshold, total_parties, timestamp } =>
            keygen_step(pre, post, from, execution_id@, threshold, total_parties, timestamp, now, r),
        CoordinationMessage::InitiateSigning { execution_id, message, signers, timestamp } =>
            signing_step(pre, post, from, execution_id@, message@, signers@, timestamp, now, r),
        _ => r == Ok::<OrchestratorAction, OrchestratorError>(OrchestratorAction::Nothing) && post
            == pre,
    }
}

impl MPCOrchestrator {
    /// A new orchestrator, idle, with no aux info and no key share.
    pub fn new(
        local_peer_id: String,
        participants: Vec<String>,
        party_assignments: StrMap<PartyIndex>,
        timeout_secs: u64,
    ) -> (o: Self)
        ensures
            o.state is Idle,
            o.local_peer_id == local_peer_id,
            o.participants == participants,
            o.party_assignments == party_assignments,
            o.timeout_secs == timeout_secs,
            !o.has_aux_info,
            !o.has_key_share,
    {
        MPCOrchestrator {
            state: ProtocolState::Idle,
            participants,
            party_assignments,
            timeout_secs,
            local_peer_id,
            has_aux_info: false,
            has_key_share: false,
        }
    }

    /// The local peer id.
    pub fn local_peer_id(&self) -> (id: &String)
        ensures
            id == self.local_peer_id,
    {
        &self.local_peer_id
    }

    /// The party index assigned to the local peer.
    pub fn local_party_index(&self) -> (index: Option<PartyIndex>)
        ensures
            index == (if self.party_assignments@.dom().contains(self.local_peer_id@) {
                Some(self.party_assignments@[self.local_peer_id@])
            } else {
                None
            }),
    {
        match self.party_assignments.get(&self.local_peer_id) {
            Some(i) => Some(*i),
            None => None,
        }
    }

    /// Handles a coordination message from peer `from`, received at instant
    /// `now`. Initiations are checked against the current state and the
    /// assignments; a refused initiation leaves the orchestrator unchanged,
    /// except that keygen and signing have already moved to their running
    /// state when the stored aux info or key share is found missing.
    /// Completion and failure reports change nothing.
    pub fn handle_coordination_message(
        &mut self,
        from: String,
        message: CoordinationMessage,
        now: u64,
    ) -> (r: Result<OrchestratorAction, OrchestratorError>)
        ensures
            coordination_step(*old(self), *final(self), from@, message, now, r),
    {
        match message {
            CoordinationMessage::InitiateAux { execution_id, participants: _, party_assignments, timestamp } =>
                self.handle_initiate_aux(from, execution_id, &party_assignments, timestamp, now),
            CoordinationMessage::InitiateKeygen { execution_id, threshold, total_parties, timestamp } =>
                self.handle_initiate_keygen(from, execution_id, threshold, total_parties, timestamp, now),
            CoordinationMessage::InitiateSigning { execution_id, message, signers, timestamp } =>
                self.handle_initiate_signing(from, execution_id, message, signers, timestamp, now),
            _ => Ok(OrchestratorAction::Nothing),
        }
    }

    fn handle_initiate_aux(
        &mut self,
        from: String,
        execution_id: Vec<u8>,
        party_assignments: &StrMap<PartyIndex>,
        timestamp: Timestamp,
        now: u64,
    ) -> (r: Result<OrchestratorAction, OrchestratorError>)
        ensures
            aux_step(*old(self), *final(self), from@, execution_id@, party_assignments@, timestamp, now, r),
    {
        match self.state {
            ProtocolState::Idle => {},
            _ => {
                return Err(OrchestratorError::NotIdle);
            },
        }
        let our_party_index = match party_assignments.get(&self.local_peer_id) {
            Some(i) => *i,
            None => {
                return Err(OrchestratorError::LocalPeerNotAssigned);
            },
        };
        self.state = ProtocolState::AuxGeneration {
            initiator: from,
            started_at: now,
            execution_id,
            completed_parties: Vec::new(),
        };
        Ok(
            OrchestratorAction::StartAuxGeneration {
                party_index: our_party_index,
                total_parties: AUX_GENERATION_PARTIES,
                timestamp_secs: timestamp.secs,
            },
        )
    }

    fn handle_initiate_keygen(
        &mut self,
        from: String,
        execution_id: Vec<u8>,
        threshold: u16,
        total_parties: u16,
        timestamp: Timestamp,
        now: u64,
    ) -> (r: Result<OrchestratorAction, OrchestratorError>)
        ensures
            keygen_step(*old(self), *final(self), from@, execution_id@, threshold, total_parties, timestamp, now, r),
    {
        match self.state {
            ProtocolState::AuxCompleted { .. } | ProtocolState::Idle => {},
            _ => {
                return Err(OrchestratorError::KeygenNotReady);
            },
        }
        if threshold == 0 {
            return Err(OrchestratorError::ThresholdZero);
        }
        if threshold > total_parties {
            return Err(OrchestratorError::ThresholdExceedsParties { threshold, total_parties });
        }
        let our_party_index = match self.party_assignments.get(&self.local_peer_id) {
            Some(i) => *i,
            None => {
                return Err(OrchestratorError::LocalPeerNotAssigned);
            },
        };
        self.state = ProtocolState::Keygen {
            initiator: from,
            started_at: now,
            execution_id,
            threshold,
            completed_parties: Vec::new(),
        };
        if !self.has_aux_info {
            return Err(OrchestratorError::AuxInfoUnavailable);
        }
        Ok(
            OrchestratorAction::StartKeygen {
                party_index: our_party_index,
                total_parties,
                threshold,
                timestamp_secs: timestamp.secs,
            },
        )
    }

    fn handle_initiate_signing(
        &mut self,
        from: String,
        execution_id: Vec<u8>,
        message: Vec<u8>,
        signers: Vec<PartyIndex>,
        timestamp: Timestamp,
        now: u64,
    ) -> (r: Result<OrchestratorAction, OrchestratorError>)
        ensures
            signing_step(*old(self), *final(self), from@, execution_id@, message@, signers@, timestamp, now, r),
    {
        match self.state {
            ProtocolState::KeygenCompleted { .. } | ProtocolState::Idle => {},
            _ => {
                return Err(OrchestratorError::SigningNotReady);
            },
        }
        let our_party_index = match self.party_assignments.get(&self.local_peer_id) {
            Some(i) => *i,
            None => {
                return Err(OrchestratorError::LocalPeerNotFound);
            },
        };
        let we_are_signer = contains_u16(&signers, our_party_index);
        let signers_copy = copy_vec(&signers);
        let message_copy = copy_vec(&message);
        self.state = ProtocolState::Signing {
            initiator: from,
            started_at: now,
            execution_id,
            message: message_copy,
            signers: signers_copy,
            completed_parties: Vec::new(),
        };
        if !we_are_signer {
            return Ok(OrchestratorAction::Nothing);
        }
        if !self.has_aux_info {
            return Err(OrchestratorError::AuxInfoUnavailable);
        }
        if !self.has_key_share {
            return Err(OrchestratorError::KeyShareUnavailable);
        }
        Ok(
            OrchestratorAction::StartSigning {
                party_index: our_party_index,
                signers,
                message,
                timestamp_secs: timestamp.secs,
            },
        )
    }

    /// Records the end of the aux generation run at instant `now`: the aux
    /// info is in store and the state is `AuxCompleted`, or the state is
    /// `Failed` in phase `aux_generation` with the run's error.
    pub fn on_aux_generation_finished(&mut self, outcome: Result<(), String>, now: u64)
        ensures
            final(self).participants == old(self).participants,
            final(self).party_assignments == old(self).party_assignments,
            final(self).timeout_secs == old(self).timeout_secs,
            final(self).local_peer_id == old(self).local_peer_id,
            final(self).has_key_share == old(self).has_key_share,
            match outcome {
                Ok(_) => final(self).has_aux_info && final(self).state == (ProtocolState::AuxCompleted {
                    completed_at: now,
                    success_count: 1,
                }),
                Err(e) => final(self).state matches ProtocolState::Failed { phase, reason, failed_at }
                    && phase@ == "aux_generation"@ && reason@ == e@ && failed_at == now
                    && final(self).has_aux_info == old(self).has_aux_info,
            },
    {
        match outcome {
            Ok(()) => {
                self.has_aux_info = true;
                self.state = ProtocolState::AuxCompleted { completed_at: now, success_count: 1 };
            },
            Err(e) => {
                self.state = ProtocolState::Failed {
                    phase: String::from_str("aux_generation"),
                    reason: e,
                    failed_at: now,
                };
            },
        }
    }

    /// Records the end of the keygen run at instant `now`. On success the
    /// key share is in store and the state carries the hexadecimal text of
    /// the shared public key (`public_key`, compressed encoding).
    pub fn on_keygen_finished(&mut self, outcome: Result<Vec<u8>, String>, now: u64)
        ensures
            final(self).participants == old(self).participants,
            final(self).party_assignments == old(self).party_assignments,
            final(self).timeout_secs == old(self).timeout_secs,
            final(self).local_peer_id == old(self).local_peer_id,
            final(self).has_aux_info == old(self).has_aux_info,
            match outcome {
                Ok(public_key) => final(self).state matches ProtocolState::KeygenCompleted { completed_at, public_key: pk }
                    && completed_at == now && pk@ == hex_lower(public_key@) && final(self).has_key_share,
                Err(e) => final(self).state matches ProtocolState::Failed { phase, reason, failed_at }
                    && phase@ == "keygen"@ && reason@ == e@ && failed_at == now
                    && final(self).has_key_share == old(self).has_key_share,
            },
    {
        match outcome {
            Ok(public_key) => {
                let pk = hex_string(&public_key);
                self.state = ProtocolState::KeygenCompleted { completed_at: now, public_key: pk };
                self.has_key_share = true;
            },
            Err(e) => {
                self.state = ProtocolState::Failed {
                    phase: String::from_str("keygen"),
                    reason: e,
                    failed_at: now,
                };
            },
        }
    }

    /// Records the end of the signing run at instant `now`; `signature` is
    /// the rendering of the produced signature.
    pub fn on_signing_finished(&mut self, outcome: Result<String, String>, now: u64)
        ensures
            keeps_setup(*old(self), *final(self)),
            match outcome {
                Ok(signature) => final(self).state matches ProtocolState::SigningCompleted { completed_at, signature: s }
                    && completed_at == now && s@ == signature@,
                Err(e) => final(self).state matches ProtocolState::Failed { phase, reason, failed_at }
                    && phase@ == "signing"@ && reason@ == e@ && failed_at == now,
            },
    {
        match outcome {
            Ok(signature) => {
                self.state = ProtocolState::SigningCompleted { completed_at: now, signature };
            },
            Err(e) => {
                self.state = ProtocolState::Failed {
                    phase: String::from_str("signing"),
                    reason: e,
                    failed_at: now,
                };
            },
        }
    }

    /// Aborts the current protocol at instant `now`: the state becomes
    /// `Failed`, in the phase that was running (`unknown` outside a run).
    pub fn abort_protocol(&mut self, reason: &str, now: u64) -> (r: Result<(), String>)
        ensures
            r is Ok,
            keeps_setup(*old(self), *final(self)),
            final(self).state matches ProtocolState::Failed { phase, reason: why, failed_at }
                && phase@ == phase_name(old(self).state) && why@ == reason@ && failed_at == now,
    {
        let current_phase = match &self.state {
            ProtocolState::AuxGeneration { .. } => "aux_generation",
            ProtocolState::Keygen { .. } => "keygen",
            ProtocolState::Signing { .. } => "signing",
            _ => "unknown",
        };
        self.state = ProtocolState::Failed {
            phase: String::from_str(current_phase),
            reason: String::from_str(reason),
            failed_at: now,
        };
        Ok(())
    }

    /// Starting aux generation from this node is not yet offered here; the
    /// orchestrator is left as it is.
    pub fn initiate_aux_generation(&mut self) -> (r: Result<(), String>)
        ensures
            r is Ok,
            *final(self) == *old(self),
    {
        Ok(())
    }

    /// Starting keygen from this node is not yet offered here; the
    /// orchestrator is left as it is.
    pub fn initiate_keygen(&mut self, threshold: u16) -> (r: Result<(), String>)
        ensures
            r is Ok,
            *final(self) == *old(self),
    {
        Ok(())
    }

    /// Starting signing from this node is not yet offered here; the
    /// orchestrator is left as it is.
    pub fn initiate_signing(&mut self, message: Vec<u8>, signers: Vec<PartyIndex>) -> (r: Result<(), String>)
        ensures
            r is Ok,
            *final(self) == *old(self),
    {
        Ok(())
    }
}

/// A node in the middle of a protocol run, or whose last run produced a
/// signature or failed, refuses every initiation and stays as it is.
pub proof fn law_busy_node_refuses_initiations(
    pre: MPCOrchestrator,
    post: MPCOrchestrator,
    from: Seq<char>,
    message: CoordinationMessage,
    now: u64,
    r: Result<OrchestratorAction, OrchestratorError>,
)
    requires
        coordination_step(pre, post, from, message, now, r),
        !(pre.state is Idle || pre.state is AuxCompleted || pre.state is KeygenCompleted),
    ensures
        post == pre,
        (message is InitiateAux || message is InitiateKeygen || message is InitiateSigning) ==> r is Err,
{
}

/// Reports from other peers (completions and failures) change nothing and
/// start nothing.
pub proof fn law_reports_change_nothing(
    pre: MPCOrchestrator,
    post: MPCOrchestrator,
    from: Seq<char>,
    message: CoordinationMessage,
    now: u64,
    r: Result<OrchestratorAction, OrchestratorError>,
)
    requires
        coordination_step(pre, post, from, message, now, r),
        message is AuxCompleted || message is KeygenCompleted || message is SigningCompleted
            || message is ProtocolFailed,
    ensures
        post == pre,
        r == Ok::<OrchestratorAction, OrchestratorError>(OrchestratorAction::Nothing),
{
}

/// Every accepted initiation comes in protocol order: aux generation from
/// idle, keygen after aux generation (or from idle), signing after keygen
/// (or from idle); and it leaves the node running that phase.
pub proof fn law_initiations_follow_protocol_order(
    pre: MPCOrchestrator,
    post: MPCOrchestrator,
    from: Seq<char>,
    message: CoordinationMessage,
    now: u64,
    r: Result<OrchestratorAction, OrchestratorError>,
)
    requires
        coordination_step(pre, post, from, message, now, r),
        r is Ok,
    ensures
        message is InitiateAux ==> can_start_aux(pre.state) && post.state is AuxGeneration,
        message is InitiateKeygen ==> can_start_keygen(pre.state) && post.state is Keygen,
        message is InitiateSigning ==> can_start_signing(pre.state) && post.state is Signing,
{
}

/// Once aux generation has completed with its aux info in store, a keygen
/// initiation with a threshold between 1 and the party count is accepted by
/// an assigned node, and keygen starts.
pub proof fn law_keygen_follows_aux_generation(
    pre: MPCOrchestrator,
    post: MPCOrchestrator,
    from: Seq<char>,
    execution_id: Seq<u8>,
    threshold: u16,
    total_parties: u16,
    timestamp: Timestamp,
    now: u64,
    r: Result<OrchestratorAction, OrchestratorError>,
)
    requires
        keygen_step(pre, post, from, execution_id, threshold, total_parties, timestamp, now, r),
        pre.state is AuxCompleted,
        pre.has_aux_info,
        1 <= threshold <= total_parties,
        pre.party_assignments@.dom().contains(pre.local_peer_id@),
    ensures
        r matches Ok(OrchestratorAction::StartKeygen { threshold: t, total_parties: n, .. }) && t == threshold
            && n == total_parties,
        post.state is Keygen,
{
}

/// Once keygen has completed with aux info and key share in store, a signer
/// among the assigned nodes accepts a signing initiation and starts signing.
pub proof fn law_signing_follows_keygen(
    pre: MPCOrchestrator,
    post: MPCOrchestrator,
    from: Seq<char>,
    execution_id: Seq<u8>,
    message: Seq<u8>,
    signers: Seq<PartyIndex>,
    timestamp: Timestamp,
    now: u64,
    r: Result<OrchestratorAction, OrchestratorError>,
)
    requires
        signing_step(pre, post, from, execution_id, message, signers, timestamp, now, r),
        pre.state is KeygenCompleted,
        pre.has_aux_info,
        pre.has_key_share,
        pre.party_assignments@.dom().contains(pre.local_peer_id@),
        signers.contains(pre.party_assignments@[pre.local_peer_id@]),
    ensures
        r matches Ok(OrchestratorAction::StartSigning { signers: s, message: m, .. }) && s@ == signers && m@
            == message,
        post.state is Signing,
{
}

/// Aux generation may start only from the idle state; keygen only from the
/// idle state or after aux generation; signing only from the idle state or
/// after keygen.
pub proof fn law_start_conditions(s: ProtocolState)
    ensures
        can_start_aux(s) <==> s is Idle,
        can_start_keygen(s) <==> (s is Idle || s is AuxCompleted),
        can_start_signing(s) <==> (s is Idle || s is KeygenCompleted),
{
}

/// An aux generation initiation is accepted exactly by an idle node that the
/// message's assignments name; the node then runs as the party index those
/// assignments give it, one of three parties. Any other node refuses it
/// (a busy one with `NotIdle`, an unnamed one with `LocalPeerNotAssigned`)
/// and stays as it is.
pub proof fn law_aux_initiation(
    pre: MPCOrchestrator,
    post: MPCOrchestrator,
    from: Seq<char>,
    execution_id: Vec<u8>,
    participants: Vec<String>,
    party_assignments: StrMap<PartyIndex>,
    timestamp: Timestamp,
    now: u64,
    r: Result<OrchestratorAction, OrchestratorError>,
)
    requires
        coordination_step(
            pre,
            post,
            from,
            CoordinationMessage::InitiateAux { execution_id, participants, party_assignments, timestamp },
            now,
            r,
        ),
    ensures
        (r is Ok) <==> (pre.state is Idle && party_assignments@.dom().contains(pre.local_peer_id@)),
        !(pre.state is Idle) ==> r == Err::<OrchestratorAction, OrchestratorError>(OrchestratorError::NotIdle)
            && post == pre,
        pre.state is Idle && !party_assignments@.dom().contains(pre.local_peer_id@) ==> r == Err::<
            OrchestratorAction,
            OrchestratorError,
        >(OrchestratorError::LocalPeerNotAssigned) && post == pre,
        r is Ok ==> r == Ok::<OrchestratorAction, OrchestratorError>(
            OrchestratorAction::StartAuxGeneration {
                party_index: party_assignments@[pre.local_peer_id@],
                total_parties: 3,
                timestamp_secs: timestamp.secs,
            },
        ) && post.state is AuxGeneration && post.participants == pre.participants && post.party_assignments
            == pre.party_assignments && post.local_peer_id == pre.local_peer_id,
{
}

/// A keygen initiation is refused, leaving the node as it is, by a node
/// that is busy or has finished signing (`KeygenNotReady`), for a threshold
/// that is zero or above the party count, and by a node whose own
/// assignments do not name it (`LocalPeerNotAssigned`). Otherwise the node
/// runs keygen, and starts it as its own assigned party index when its aux
/// info is in store.
pub proof fn law_keygen_initiation(
    pre: MPCOrchestrator,
    post: MPCOrchestrator,
    from: Seq<char>,
    execution_id: Vec<u8>,
    threshold: u16,
    total_parties: u16,
    timestamp: Timestamp,
    now: u64,
    r: Result<OrchestratorAction, OrchestratorError>,
)
    requires
        coordination_step(
            pre,
            post,
            from,
            CoordinationMessage::InitiateKeygen { execution_id, threshold, total_parties, timestamp },
            now,
            r,
        ),
    ensures
        !(pre.state is Idle || pre.state is AuxCompleted) ==> r == Err::<OrchestratorAction, OrchestratorError>(
            OrchestratorError::KeygenNotReady,
        ) && post == pre,
        threshold == 0 || threshold > total_parties ==> r is Err && post == pre,
        !pre.party_assignments@.dom().contains(pre.local_peer_id@) ==> r is Err && post == pre,
        (pre.state is Idle || pre.state is AuxCompleted) && 1 <= threshold <= total_parties
            && !pre.party_assignments@.dom().contains(pre.local_peer_id@) ==> r == Err::<
            OrchestratorAction,
            OrchestratorError,
        >(OrchestratorError::LocalPeerNotAssigned),
        (pre.state is Idle || pre.state is AuxCompleted) && 1 <= threshold <= total_parties
            && pre.party_assignments@.dom().contains(pre.local_peer_id@) ==> (post.state matches ProtocolState::Keygen {
            threshold: t,
            ..
        } && t == threshold) && ((r is Ok) <==> pre.has_aux_info),
        r is Ok ==> r == Ok::<OrchestratorAction, OrchestratorError>(
            OrchestratorAction::StartKeygen {
                party_index: pre.party_assignments@[pre.local_peer_id@],
                total_parties,
                threshold,
                timestamp_secs: timestamp.secs,
            },
        ) && pre.party_assignments@.dom().contains(pre.local_peer_id@) && 1 <= threshold <= total_parties,
{
}

/// A signing initiation is refused, leaving the node as it is, by a node
/// that is busy or has not finished keygen (`SigningNotReady`) and by one
/// whose own assignments do not name it (`LocalPeerNotFound`). A ready,
/// assigned node runs the signing; it signs only when its own assigned
/// party index is among the signers, and then as that party index, with the
/// given signers and message.
pub proof fn law_signing_initiation(
    pre: MPCOrchestrator,
    post: MPCOrchestrator,
    from: Seq<char>,
    execution_id: Vec<u8>,
    message: Vec<u8>,
    signers: Vec<PartyIndex>,
    timestamp: Timestamp,
    now: u64,
    r: Result<OrchestratorAction, OrchestratorError>,
)
    requires
        coordination_step(
            pre,
            post,
            from,
            CoordinationMessage::InitiateSigning { execution_id, message, signers, timestamp },
            now,
            r,
        ),
    ensures
        !(pre.state is Idle || pre.state is KeygenCompleted) ==> r == Err::<OrchestratorAction, OrchestratorError>(
            OrchestratorError::SigningNotReady,
        ) && post == pre,
        (pre.state is Idle || pre.state is KeygenCompleted) && !pre.party_assignments@.dom().contains(
            pre.local_peer_id@,
        ) ==> r == Err::<OrchestratorAction, OrchestratorError>(OrchestratorError::LocalPeerNotFound) && post == pre,
        (pre.state is Idle || pre.state is KeygenCompleted) && pre.party_assignments@.dom().contains(
            pre.local_peer_id@,
        ) ==> post.state is Signing,
        (pre.state is Idle || pre.state is KeygenCompleted) && pre.party_assignments@.dom().contains(
            pre.local_peer_id@,
        ) && !signers@.contains(pre.party_assignments@[pre.local_peer_id@]) ==> r == Ok::<
            OrchestratorAction,
            OrchestratorError,
        >(OrchestratorAction::Nothing),
        (pre.state is Idle || pre.state is KeygenCompleted) && pre.party_assignments@.dom().contains(
            pre.local_peer_id@,
        ) && signers@.contains(pre.party_assignments@[pre.local_peer_id@]) && pre.has_aux_info && pre.has_key_share
            ==> r matches Ok(OrchestratorAction::StartSigning { .. }),
        r matches Ok(OrchestratorAction::StartSigning { party_index, signers: s, message: m, timestamp_secs }) ==> {
            &&& pre.party_assignments@.dom().contains(pre.local_peer_id@)
            &&& party_index == pre.party_assignments@[pre.local_peer_id@]
            &&& signers@.contains(party_index)
            &&& s@ == signers@
            &&& m@ == message@
            &&& timestamp_secs == timestamp.secs
            &&& pre.has_aux_info
            &&& pre.has_key_share
        },
{
}

/// Aborting records the phase that was running: `aux_generation`,
/// `keygen` or `signing`, the same name under which that state is
/// reported; outside a run, `unknown`.
pub proof fn law_abort_names_running_phase(s: ProtocolState)
    ensures
        s is AuxGeneration ==> phase_name(s) == "aux_generation"@,
        s is Keygen ==> phase_name(s) == "keygen"@,
        s is Signing ==> phase_name(s) == "signing"@,
        (s is AuxGeneration || s is Keygen || s is Signing) ==> phase_name(s) == state_label(s),
        !(s is AuxGeneration || s is Keygen || s is Signing) ==> phase_name(s) == "unknown"@,
{
}

/// The text of a refusal, given the local peer id and the text of the
/// current state.
pub open spec fn error_text(e: OrchestratorError, local_peer_id: Seq<char>, state_text: Seq<char>) -> Seq<char> {
    match e {
        OrchestratorError::NotIdle => "Cannot initiate aux generation. Current state: "@ + state_text,
        OrchestratorError::KeygenNotReady =>
            "Cannot initiate keygen. Must complete aux generation first. Current state: "@ + state_text,
        OrchestratorError::SigningNotReady =>
            "Cannot initiate signing. Must complete keygen first. Current state: "@ + state_text,
        OrchestratorError::LocalPeerNotAssigned => "Party assignments do not include our peer ID: "@
            + local_peer_id,
        OrchestratorError::LocalPeerNotFound => "Our peer ID not found in party assignments: "@
            + local_peer_id,
        OrchestratorError::ThresholdZero => "Threshold must be at least 1"@,
        OrchestratorError::ThresholdExceedsParties { threshold, total_parties } => "Threshold ("@
            + decimal(threshold as nat) + ") cannot exceed total parties ("@ + decimal(
            total_parties as nat,
        ) + ")"@,
        OrchestratorError::AuxInfoUnavailable =>
            "Aux info not available. Must complete aux generation first."@,
        OrchestratorError::KeyShareUnavailable =>
            "Key share info not available. Must complete key generation first."@,
    }
}

impl OrchestratorError {
    /// The text of this refusal.
    pub fn describe(&self, local_peer_id: &str, state_text: &str) -> (text: String)
        ensures
            text@ == error_text(*self, local_peer_id@, state_text@),
    {
        match self {
            OrchestratorError::NotIdle => concat2("Cannot initiate aux generation. Current state: ", state_text),
            OrchestratorError::KeygenNotReady => concat2(
                "Cannot initiate keygen. Must complete aux generation first. Current state: ",
                state_text,
            ),
            OrchestratorError::SigningNotReady => concat2(
                "Cannot initiate signing. Must complete keygen first. Current state: ",
                state_text,
            ),
            OrchestratorError::LocalPeerNotAssigned => concat2(
                "Party assignments do not include our peer ID: ",
                local_peer_id,
            ),
            OrchestratorError::LocalPeerNotFound => concat2(
                "Our peer ID not found in party assignments: ",
                local_peer_id,
            ),
            OrchestratorError::ThresholdZero => String::from_str("Threshold must be at least 1"),
            OrchestratorError::ThresholdExceedsParties { threshold, total_parties } => {
                let t = decimal_string(*threshold as u64);
                let n = decimal_string(*total_parties as u64);
                concat5("Threshold (", t.as_str(), ") cannot exceed total parties (", n.as_str(), ")")
            },
            OrchestratorError::AuxInfoUnavailable => String::from_str(
                "Aux info not available. Must complete aux generation first.",
            ),
            OrchestratorError::KeyShareUnavailable => String::from_str(
                "Key share info not available. Must complete key generation first.",
            ),
        }
    }
}

} // verus!
