//! Host-side advanced backend session: numbered commands, ordered agent events,
//! lifecycle transitions, and command acknowledgment records.
use vstd::prelude::*;

use crate::backend::{advanced_error, advanced_error_message, lifecycle_name, lifecycle_name_spec, stub_hello};
use crate::protocol::{
    backend_name, lifecycle_allows, AdvancedAgentEvent, AdvancedAgentEventEnvelope,
    AdvancedBackendErrorKind, AdvancedBackendHello, AdvancedBackendLifecycleState,
    AdvancedCommandAckStatus, AdvancedExecutionReason, AdvancedHostCommand,
    AdvancedHostCommandEnvelope, AdvancedHostResponse, AdvancedHostResponseEnvelope,
    AdvancedProfileBackend, AdvancedSequenceNumber, AdvancedSessionId,
};
use crate::text::{decimal_digits, push_all, push_str, string_of, u64_to_decimal};
use crate::types::{ProfileConfig, WinrError, WinrResult};

verus! {

/// Host-side record of one issued command.
#[derive(Debug, PartialEq, Eq)]
pub struct AdvancedCommandRecord {
    pub sequence: AdvancedSequenceNumber,
    pub command: String,
    pub status: AdvancedCommandAckStatus,
    pub detail: String,
}

impl Clone for AdvancedCommandRecord {
    fn clone(&self) -> (r: Self)
        ensures
            r == *self,
    {
        AdvancedCommandRecord {
            sequence: self.sequence,
            command: self.command.clone(),
            status: self.status,
            detail: self.detail.clone(),
        }
    }
}

/// Host-side state of a session with an advanced backend agent.
#[derive(Debug, PartialEq, Eq)]
pub struct AdvancedBackendSession {
    pub session_id: AdvancedSessionId,
    pub hello: AdvancedBackendHello,
    pub next_host_sequence: AdvancedSequenceNumber,
    pub last_agent_sequence: Option<AdvancedSequenceNumber>,
    pub command_records: Vec<AdvancedCommandRecord>,
    pub last_reasoning: Option<AdvancedExecutionReason>,
}

/// Stable name of a host command.
pub open spec fn command_name_spec(command: AdvancedHostCommand) -> Seq<char> {
    match command {
        AdvancedHostCommand::Handshake { .. } => "handshake"@,
        AdvancedHostCommand::GetCapabilities => "get_capabilities"@,
        AdvancedHostCommand::StartProfile { .. } => "start_profile"@,
        AdvancedHostCommand::StopProfile { .. } => "stop_profile"@,
        AdvancedHostCommand::SubscribeEvents => "subscribe_events"@,
        AdvancedHostCommand::FetchObservations { .. } => "fetch_observations"@,
        AdvancedHostCommand::ExecuteInput { .. } => "execute_input"@,
        AdvancedHostCommand::Ping => "ping"@,
    }
}

fn command_name(command: &AdvancedHostCommand) -> (r: &'static str)
    ensures
        r@ == command_name_spec(*command),
{
    match command {
        AdvancedHostCommand::Handshake { .. } => "handshake",
        AdvancedHostCommand::GetCapabilities => "get_capabilities",
        AdvancedHostCommand::StartProfile { .. } => "start_profile",
        AdvancedHostCommand::StopProfile { .. } => "stop_profile",
        AdvancedHostCommand::SubscribeEvents => "subscribe_events",
        AdvancedHostCommand::FetchObservations { .. } => "fetch_observations",
        AdvancedHostCommand::ExecuteInput { .. } => "execute_input",
        AdvancedHostCommand::Ping => "ping",
    }
}

/// Detail text of a session mismatch.
pub open spec fn session_mismatch_detail(expected: u64, got: u64) -> Seq<char> {
    "advanced backend session mismatch: expected "@ + decimal_digits(expected as nat) + ", got "@
        + decimal_digits(got as nat)
}

/// Detail text of an out-of-order event.
pub open spec fn out_of_order_detail(last: u64, next: u64) -> Seq<char> {
    "advanced backend event sequence must increase: last="@ + decimal_digits(last as nat)
        + " next="@ + decimal_digits(next as nat)
}

/// Detail text of a handshake naming another backend.
pub open spec fn hello_mismatch_detail(
    expected: AdvancedProfileBackend,
    got: AdvancedProfileBackend,
) -> Seq<char> {
    "advanced backend hello mismatch: expected '"@ + backend_name(expected) + "', got '"@
        + backend_name(got) + "'"@
}

/// Detail text of a refused lifecycle transition.
pub open spec fn transition_detail(
    from: AdvancedBackendLifecycleState,
    to: AdvancedBackendLifecycleState,
) -> Seq<char> {
    "invalid advanced backend state transition: "@ + lifecycle_name_spec(from) + " -> "@
        + lifecycle_name_spec(to)
}

/// The structured error an advanced backend session reports.
pub open spec fn is_session_error(
    e: WinrError,
    kind: AdvancedBackendErrorKind,
    session: AdvancedBackendSession,
    detail: Seq<char>,
) -> bool {
    e is Unsupported && e->Unsupported_message@ == advanced_error_message(
        kind,
        session.hello.backend,
        detail,
        Some(session.hello.lifecycle_state),
    )
}

/// Whether the session accepts an agent event, and which check refuses it first.
pub open spec fn event_refusal(
    session: AdvancedBackendSession,
    envelope: AdvancedAgentEventEnvelope,
) -> Option<(AdvancedBackendErrorKind, Seq<char>)> {
    if envelope.session_id != session.session_id {
        Some(
            (
                AdvancedBackendErrorKind::SessionMismatch,
                session_mismatch_detail(session.session_id.0, envelope.session_id.0),
            ),
        )
    } else if session.last_agent_sequence is Some && envelope.sequence.0
        <= (session.last_agent_sequence->0).0 {
        Some(
            (
                AdvancedBackendErrorKind::SequenceOutOfOrder,
                out_of_order_detail((session.last_agent_sequence->0).0, envelope.sequence.0),
            ),
        )
    } else {
        match envelope.event {
            AdvancedAgentEvent::Hello { hello } => if hello.backend != session.hello.backend {
                Some(
                    (
                        AdvancedBackendErrorKind::HandshakeMismatch,
                        hello_mismatch_detail(session.hello.backend, hello.backend),
                    ),
                )
            } else if !lifecycle_allows(session.hello.lifecycle_state, hello.lifecycle_state) {
                Some(
                    (
                        AdvancedBackendErrorKind::InvalidStateTransition,
                        transition_detail(session.hello.lifecycle_state, hello.lifecycle_state),
                    ),
                )
            } else {
                None
            },
            AdvancedAgentEvent::Status { state, .. } => if !lifecycle_allows(
                session.hello.lifecycle_state,
                state,
            ) {
                Some(
                    (
                        AdvancedBackendErrorKind::InvalidStateTransition,
                        transition_detail(session.hello.lifecycle_state, state),
                    ),
                )
            } else {
                None
            },
            AdvancedAgentEvent::ObservationTick { .. } => None,
        }
    }
}

/// The lifecycle state an accepted event leaves the session in.
pub open spec fn state_after_event(
    session: AdvancedBackendSession,
    event: AdvancedAgentEvent,
) -> AdvancedBackendLifecycleState {
    match event {
        AdvancedAgentEvent::Hello { hello } => hello.lifecycle_state,
        AdvancedAgentEvent::Status { state, .. } => state,
        AdvancedAgentEvent::ObservationTick { .. } => session.hello.lifecycle_state,
    }
}

/// Builds the detail characters of an error from pieces.
fn detail_with_numbers(prefix: &str, a: u64, middle: &str, b: u64) -> (r: Vec<char>)
    ensures
        r@ == prefix@ + decimal_digits(a as nat) + middle@ + decimal_digits(b as nat),
{
    let mut out: Vec<char> = Vec::new();
    push_str(&mut out, prefix);
    let da = u64_to_decimal(a);
    push_all(&mut out, &da);
    push_str(&mut out, middle);
    let db = u64_to_decimal(b);
    push_all(&mut out, &db);
    proof {
        assert(out@ =~= prefix@ + decimal_digits(a as nat) + middle@ + decimal_digits(b as nat));
    }
    out
}

/// The session issued `envelope`: under its id at its next sequence, with the sequence moved
/// on by one and a pending record, named after the command and with no detail, added behind
/// the others; nothing else of the session changes.
pub open spec fn issued(
    before: AdvancedBackendSession,
    envelope: AdvancedHostCommandEnvelope,
    after: AdvancedBackendSession,
) -> bool {
    &&& envelope.session_id == before.session_id
    &&& envelope.sequence == before.next_host_sequence
    &&& after.next_host_sequence.0 == before.next_host_sequence.0 + 1
    &&& after.session_id == before.session_id
    &&& after.hello == before.hello
    &&& after.last_agent_sequence == before.last_agent_sequence
    &&& after.last_reasoning == before.last_reasoning
    &&& after.command_records@.len() == before.command_records@.len() + 1
    &&& after.command_records@.drop_last() == before.command_records@
    &&& after.command_records@.last().sequence == before.next_host_sequence
    &&& after.command_records@.last().status == AdvancedCommandAckStatus::Pending
    &&& after.command_records@.last().command@ == command_name_spec(envelope.command)
    &&& after.command_records@.last().detail@ == Seq::<char>::empty()
}

/// The session accepted the agent event: the event's sequence becomes the last agent sequence,
/// the lifecycle moves as the event asks, the identity, host sequence, backend and command
/// records stay, and a hello also brings the agent's capabilities, target and protocol version.
pub open spec fn event_accepted(
    before: AdvancedBackendSession,
    envelope: AdvancedAgentEventEnvelope,
    after: AdvancedBackendSession,
) -> bool {
    &&& event_refusal(before, envelope) is None
    &&& after.last_agent_sequence == Some(envelope.sequence)
    &&& after.hello.lifecycle_state == state_after_event(before, envelope.event)
    &&& after.session_id == before.session_id
    &&& after.next_host_sequence == before.next_host_sequence
    &&& after.hello.backend == before.hello.backend
    &&& after.command_records == before.command_records
    &&& match envelope.event {
        AdvancedAgentEvent::Hello { hello } => {
            &&& after.hello.capabilities == hello.capabilities
            &&& after.hello.target == hello.target
            &&& after.hello.protocol_version == hello.protocol_version
        },
        _ => {
            &&& after.hello.capabilities == before.hello.capabilities
            &&& after.hello.target == before.hello.target
            &&& after.hello.protocol_version == before.hello.protocol_version
        },
    }
}

/// The session accepted the response: it belongs to this session, the session keeps its
/// identity, handshake and sequences, and each command record keeps its sequence, command and
/// detail, the records that the response answers taking the response's status.
pub open spec fn response_accepted(
    before: AdvancedBackendSession,
    envelope: AdvancedHostResponseEnvelope,
    after: AdvancedBackendSession,
) -> bool {
    &&& envelope.session_id == before.session_id
    &&& after.session_id == before.session_id
    &&& after.hello == before.hello
    &&& after.next_host_sequence == before.next_host_sequence
    &&& after.last_agent_sequence == before.last_agent_sequence
    &&& after.command_records@.len() == before.command_records@.len()
    &&& forall|i: int|
        0 <= i < before.command_records@.len() ==> {
            let b = #[trigger] before.command_records@[i];
            let a = after.command_records@[i];
            &&& a.sequence == b.sequence
            &&& a.command == b.command
            &&& a.detail == b.detail
            &&& a.status == (if b.sequence == envelope.response_to {
                response_status(envelope.response)
            } else {
                b.status
            })
        }
}

impl AdvancedBackendSession {
    /// A fresh session: host sequences start at 1, no agent event seen, no command issued.
    pub fn new(session_id: AdvancedSessionId, hello: AdvancedBackendHello) -> (r: Self)
        ensures
            r.session_id == session_id,
            r.hello == hello,
            r.next_host_sequence.0 == 1,
            r.last_agent_sequence is None,
            r.command_records@.len() == 0,
            r.last_reasoning is None,
    {
        AdvancedBackendSession {
            session_id,
            hello,
            next_host_sequence: AdvancedSequenceNumber(1),
            last_agent_sequence: None,
            command_records: Vec::new(),
            last_reasoning: None,
        }
    }

    /// Numbers a command with the next host sequence and records it as pending.
    pub fn command(&mut self, command: AdvancedHostCommand) -> (r: AdvancedHostCommandEnvelope)
        requires
            old(self).next_host_sequence.0 < u64::MAX,
        ensures
            r.session_id == old(self).session_id,
            r.sequence == old(self).next_host_sequence,
            r.command == command,
            final(self).next_host_sequence.0 == old(self).next_host_sequence.0 + 1,
            final(self).session_id == old(self).session_id,
            final(self).hello == old(self).hello,
            final(self).last_agent_sequence == old(self).last_agent_sequence,
            final(self).last_reasoning == old(self).last_reasoning,
            final(self).command_records@ == old(self).command_records@.push(
                AdvancedCommandRecord {
                    sequence: old(self).next_host_sequence,
                    command: final(self).command_records@.last().command,
                    status: AdvancedCommandAckStatus::Pending,
                    detail: final(self).command_records@.last().detail,
                },
            ),
            final(self).command_records@.last().command@ == command_name_spec(command),
            final(self).command_records@.last().detail@ == Seq::<char>::empty(),
            issued(*old(self), r, *final(self)),
    {
        let record = AdvancedCommandRecord {
            sequence: self.next_host_sequence,
            command: string_of(command_name(&command)),
            status: AdvancedCommandAckStatus::Pending,
            detail: string_of(""),
        };
        proof {
            reveal_strlit("");
        }
        self.command_records.push(record);
        let envelope = AdvancedHostCommandEnvelope {
            session_id: self.session_id,
            sequence: self.next_host_sequence,
            command,
        };
        self.next_host_sequence = AdvancedSequenceNumber(self.next_host_sequence.0 + 1);
        proof {
            assert(self.command_records@.drop_last() =~= old(self).command_records@);
        }
        envelope
    }

    /// The handshake command naming the backend and target this session expects.
    pub fn handshake_command(&mut self) -> (r: AdvancedHostCommandEnvelope)
        requires
            old(self).next_host_sequence.0 < u64::MAX,
        ensures
            r.session_id == old(self).session_id,
            r.sequence == old(self).next_host_sequence,
            r.command == (AdvancedHostCommand::Handshake {
                requested_backend: old(self).hello.backend,
                target: old(self).hello.target,
            }),
            final(self).next_host_sequence.0 == old(self).next_host_sequence.0 + 1,
            final(self).session_id == old(self).session_id,
            final(self).hello == old(self).hello,
            final(self).command_records@.len() == old(self).command_records@.len() + 1,
            issued(*old(self), r, *final(self)),
    {
        let target = self.hello.target.clone();
        self.command(AdvancedHostCommand::Handshake { requested_backend: self.hello.backend, target })
    }

    /// The command that starts a profile inside the agent.
    pub fn start_profile_command(&mut self, profile_id: &str) -> (r: AdvancedHostCommandEnvelope)
        requires
            old(self).next_host_sequence.0 < u64::MAX,
        ensures
            r.session_id == old(self).session_id,
            r.sequence == old(self).next_host_sequence,
            r.command is StartProfile,
            r.command->StartProfile_profile_id@ == profile_id@,
            final(self).next_host_sequence.0 == old(self).next_host_sequence.0 + 1,
            final(self).session_id == old(self).session_id,
            final(self).hello == old(self).hello,
            final(self).command_records@.len() == old(self).command_records@.len() + 1,
            issued(*old(self), r, *final(self)),
    {
        self.command(AdvancedHostCommand::StartProfile { profile_id: string_of(profile_id) })
    }

    /// The command that stops a profile inside the agent.
    pub fn stop_profile_command(&mut self, profile_id: &str) -> (r: AdvancedHostCommandEnvelope)
        requires
            old(self).next_host_sequence.0 < u64::MAX,
        ensures
            r.session_id == old(self).session_id,
            r.sequence == old(self).next_host_sequence,
            r.command is StopProfile,
            r.command->StopProfile_profile_id@ == profile_id@,
            final(self).next_host_sequence.0 == old(self).next_host_sequence.0 + 1,
            final(self).session_id == old(self).session_id,
            final(self).hello == old(self).hello,
            final(self).command_records@.len() == old(self).command_records@.len() + 1,
            issued(*old(self), r, *final(self)),
    {
        self.command(AdvancedHostCommand::StopProfile { profile_id: string_of(profile_id) })
    }

    /// A liveness probe.
    pub fn ping_command(&mut self) -> (r: AdvancedHostCommandEnvelope)
        requires
            old(self).next_host_sequence.0 < u64::MAX,
        ensures
            r.session_id == old(self).session_id,
            r.sequence == old(self).next_host_sequence,
            r.command == AdvancedHostCommand::Ping,
            final(self).next_host_sequence.0 == old(self).next_host_sequence.0 + 1,
            final(self).session_id == old(self).session_id,
            final(self).hello == old(self).hello,
            final(self).command_records@.len() == old(self).command_records@.len() + 1,
            issued(*old(self), r, *final(self)),
    {
        self.command(AdvancedHostCommand::Ping)
    }

    /// Moves the lifecycle to `next` when shared rules allow it.
    pub fn transition_to(&mut self, next: AdvancedBackendLifecycleState) -> (r: WinrResult<()>)
        ensures
            lifecycle_allows(old(self).hello.lifecycle_state, next) ==> r is Ok
                && final(self).hello.lifecycle_state == next && final(self).session_id == old(
                self,
            ).session_id && final(self).hello.backend == old(self).hello.backend
                && final(self).hello.capabilities == old(self).hello.capabilities
                && final(self).hello.target == old(self).hello.target
                && final(self).hello.protocol_version == old(self).hello.protocol_version
                && final(self).hello.transport == old(self).hello.transport
                && final(self).hello.composition == old(self).hello.composition
                && final(self).next_host_sequence == old(self).next_host_sequence
                && final(self).last_agent_sequence == old(self).last_agent_sequence
                && final(self).command_records == old(self).command_records
                && final(self).last_reasoning == old(self).last_reasoning,
            !lifecycle_allows(old(self).hello.lifecycle_state, next) ==> *final(self) == *old(self)
                && r is Err && is_session_error(
                r->Err_0,
                AdvancedBackendErrorKind::InvalidStateTransition,
                *old(self),
                transition_detail(old(self).hello.lifecycle_state, next),
            ),
    {
        let current = self.hello.lifecycle_state;
        if !current.can_transition_to(next) {
            let mut detail: Vec<char> = Vec::new();
            push_str(&mut detail, "invalid advanced backend state transition: ");
            push_str(&mut detail, lifecycle_name(current));
            push_str(&mut detail, " -> ");
            push_str(&mut detail, lifecycle_name(next));
            proof {
                assert(detail@ =~= transition_detail(current, next));
            }
            return Err(
                advanced_error(
                    AdvancedBackendErrorKind::InvalidStateTransition,
                    self.hello.backend,
                    &detail,
                    Some(current),
                ),
            );
        }
        self.hello.lifecycle_state = next;
        Ok(())
    }

    /// Applies an agent event. It is refused, leaving the session unchanged, when it belongs to
    /// another session, when its sequence does not exceed the last accepted one, when a hello
    /// names another backend, or when it asks for a lifecycle move the shared rules forbid.
    /// An accepted event becomes the last agent sequence; a hello also adopts the agent's
    /// capabilities, target and protocol version.
    pub fn apply_event(&mut self, envelope: &AdvancedAgentEventEnvelope) -> (r: WinrResult<()>)
        ensures
            match event_refusal(*old(self), *envelope) {
                Some((kind, detail)) => r is Err && *final(self) == *old(self) && is_session_error(
                    r->Err_0,
                    kind,
                    *old(self),
                    detail,
                ),
                None => r is Ok && event_accepted(*old(self), *envelope, *final(self)),
            },
    {
        if envelope.session_id.0 != self.session_id.0 {
            let detail = detail_with_numbers(
                "advanced backend session mismatch: expected ",
                self.session_id.0,
                ", got ",
                envelope.session_id.0,
            );
            return Err(
                advanced_error(
                    AdvancedBackendErrorKind::SessionMismatch,
                    self.hello.backend,
                    &detail,
                    Some(self.hello.lifecycle_state),
                ),
            );
        }
        if let Some(last) = self.last_agent_sequence {
            if envelope.sequence.0 <= last.0 {
                let detail = detail_with_numbers(
                    "advanced backend event sequence must increase: last=",
                    last.0,
                    " next=",
                    envelope.sequence.0,
                );
                return Err(
                    advanced_error(
                        AdvancedBackendErrorKind::SequenceOutOfOrder,
                        self.hello.backend,
                        &detail,
                        Some(self.hello.lifecycle_state),
                    ),
                );
            }
        }
        match &envelope.event {
            AdvancedAgentEvent::Hello { hello } => {
                if hello.backend != self.hello.backend {
                    let mut detail: Vec<char> = Vec::new();
                    push_str(&mut detail, "advanced backend hello mismatch: expected '");
                    push_str(&mut detail, self.hello.backend.as_str());
                    push_str(&mut detail, "', got '");
                    push_str(&mut detail, hello.backend.as_str());
                    push_str(&mut detail, "'");
                    proof {
                        assert(detail@ =~= hello_mismatch_detail(self.hello.backend, hello.backend));
                    }
                    return Err(
                        advanced_error(
                            AdvancedBackendErrorKind::HandshakeMismatch,
                            self.hello.backend,
                            &detail,
                            Some(self.hello.lifecycle_state),
                        ),
                    );
                }
                self.transition_to(hello.lifecycle_state)?;
                self.hello.capabilities = hello.capabilities;
                self.hello.target = hello.target.clone();
                self.hello.protocol_version = hello.protocol_version;
            },
            AdvancedAgentEvent::Status { state, .. } => {
                self.transition_to(*state)?;
            },
            AdvancedAgentEvent::ObservationTick { .. } => {},
        }
        self.last_agent_sequence = Some(envelope.sequence);
        Ok(())
    }

    /// Ties a response to the command it answers: a response from another session is refused;
    /// otherwise every record with the answered sequence is marked acknowledged, or with the
    /// outcome status that an input outcome reports.
    pub fn apply_response(&mut self, envelope: &AdvancedHostResponseEnvelope) -> (r: WinrResult<()>)
        ensures
            envelope.session_id != old(self).session_id ==> r is Err && *final(self) == *old(self)
                && is_session_error(
                r->Err_0,
                AdvancedBackendErrorKind::SessionMismatch,
                *old(self),
                session_mismatch_detail(old(self).session_id.0, envelope.session_id.0),
            ),
            envelope.session_id == old(self).session_id ==> r is Ok && response_accepted(
                *old(self),
                *envelope,
                *final(self),
            ),
    {
        if envelope.session_id.0 != self.session_id.0 {
            let detail = detail_with_numbers(
                "advanced backend session mismatch: expected ",
                self.session_id.0,
                ", got ",
                envelope.session_id.0,
            );
            return Err(
                advanced_error(
                    AdvancedBackendErrorKind::SessionMismatch,
                    self.hello.backend,
                    &detail,
                    Some(self.hello.lifecycle_state),
                ),
            );
        }
        let status = match &envelope.response {
            AdvancedHostResponse::InputOutcome { status, .. } => *status,
            _ => AdvancedCommandAckStatus::Acked,
        };
        let ghost before = self.command_records@;
        let mut i: usize = 0;
        while i < self.command_records.len()
            invariant
                i <= self.command_records@.len(),
                self.command_records@.len() == before.len(),
                self.session_id == old(self).session_id,
                self.hello == old(self).hello,
                self.next_host_sequence == old(self).next_host_sequence,
                self.last_agent_sequence == old(self).last_agent_sequence,
                before == old(self).command_records@,
                status == response_status(envelope.response),
                forall|k: int|
                    0 <= k < before.len() ==> {
                        let b = #[trigger] before[k];
                        let a = self.command_records@[k];
                        &&& a.sequence == b.sequence
                        &&& a.command == b.command
                        &&& a.detail == b.detail
                        &&& a.status == (if k < i && b.sequence == envelope.response_to {
                            status
                        } else {
                            b.status
                        })
                    },
            decreases before.len() - i,
        {
            if self.command_records[i].sequence.0 == envelope.response_to.0 {
                let old_record = self.command_records[i].clone();
                let updated = AdvancedCommandRecord { status, ..old_record };
                self.command_records.set(i, updated);
            }
            i = i + 1;
        }
        Ok(())
    }

    /// Records the outcome of a command carried outside the numbered protocol.
    pub fn record_command_outcome(
        &mut self,
        command: &str,
        status: AdvancedCommandAckStatus,
        detail: &str,
    )
        ensures
            final(self).command_records@.len() == old(self).command_records@.len() + 1,
            final(self).command_records@.drop_last() == old(self).command_records@,
            final(self).command_records@.last().sequence == old(self).next_host_sequence,
            final(self).command_records@.last().command@ == command@,
            final(self).command_records@.last().status == status,
            final(self).command_records@.last().detail@ == detail@,
            final(self).hello == old(self).hello,
            final(self).next_host_sequence == old(self).next_host_sequence,
            final(self).last_agent_sequence == old(self).last_agent_sequence,
    {
        let record = AdvancedCommandRecord {
            sequence: self.next_host_sequence,
            command: string_of(command),
            status,
            detail: string_of(detail),
        };
        self.command_records.push(record);
        proof {
            assert(self.command_records@.drop_last() =~= old(self).command_records@);
        }
    }

    /// Stores the latest operator-facing reason.
    pub fn record_reasoning(&mut self, reason: AdvancedExecutionReason)
        ensures
            final(self).last_reasoning == Some(reason),
            final(self).hello == old(self).hello,
            final(self).command_records == old(self).command_records,
            final(self).next_host_sequence == old(self).next_host_sequence,
            final(self).last_agent_sequence == old(self).last_agent_sequence,
    {
        self.last_reasoning = Some(reason);
    }

    /// Whether the most recent command record was rejected.
    pub fn last_command_rejected(&self) -> (r: bool)
        ensures
            r == (self.command_records@.len() > 0 && self.command_records@.last().status
                == AdvancedCommandAckStatus::Rejected),
    {
        let n = self.command_records.len();
        n > 0 && self.command_records[n - 1].status == AdvancedCommandAckStatus::Rejected
    }
}

/// The acknowledgment status a response gives the command it answers.
pub open spec fn response_status(response: AdvancedHostResponse) -> AdvancedCommandAckStatus {
    match response {
        AdvancedHostResponse::InputOutcome { status, .. } => status,
        _ => AdvancedCommandAckStatus::Acked,
    }
}

/// A session for a profile with the stub hello, numbered 1.
pub fn stub_session(profile: &ProfileConfig) -> (r: AdvancedBackendSession)
    ensures
        r.session_id.0 == 1,
        r.next_host_sequence.0 == 1,
        r.last_agent_sequence is None,
        r.hello.backend == AdvancedProfileBackend::Inject,
        r.hello.lifecycle_state == AdvancedBackendLifecycleState::Discovered,
        r.command_records@.len() == 0,
{
    AdvancedBackendSession::new(AdvancedSessionId(1), stub_hello(profile))
}

} // verus!
