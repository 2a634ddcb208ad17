//! The agent side of the host/agent protocol, with a stub agent that answers every command
//! and turns queued observations into numbered events.
use vstd::prelude::*;

use crate::protocol::{
    hello_same, AdvancedAgentComposition, AdvancedAgentEvent, AdvancedAgentEventEnvelope,
    AdvancedBackendCapabilities, AdvancedBackendHello, AdvancedCommandAckStatus,
    AdvancedHostCommand, AdvancedHostCommandEnvelope, AdvancedHostResponse,
    AdvancedHostResponseEnvelope, AdvancedObservationUpdate, AdvancedSequenceNumber,
    AdvancedSessionId, InjectedInputAction,
};
use crate::text::{
    decimal_digits, i64_to_decimal, push_all, push_str, signed_decimal, string_from_chars,
    string_of, u64_to_decimal,
};
use crate::types::WinrResult;

verus! {

/// What an agent implementation offers the host.
pub trait AdvancedAgentRuntime {
    fn hello(&self) -> AdvancedBackendHello;

    fn capabilities(&self) -> AdvancedBackendCapabilities;

    fn composition(&self) -> AdvancedAgentComposition;

    fn handle_command(&mut self, command: &AdvancedHostCommandEnvelope) -> WinrResult<
        AdvancedHostResponseEnvelope,
    >;

    fn poll_events(&mut self, session_id: AdvancedSessionId) -> WinrResult<
        Vec<AdvancedAgentEventEnvelope>,
    >;
}

/// An in-process agent that answers every command from its handshake payload and queue.
#[derive(Debug)]
pub struct StubAdvancedAgent {
    hello: AdvancedBackendHello,
    next_agent_sequence: AdvancedSequenceNumber,
    observations: Vec<AdvancedObservationUpdate>,
}

/// Debug text of an injected input action, as `{:?}` prints it.
pub open spec fn injected_action_text(action: InjectedInputAction) -> Seq<char> {
    match action {
        InjectedInputAction::MoveForward { duration_ms } => "MoveForward { duration_ms: "@
            + decimal_digits(duration_ms as nat) + " }"@,
        InjectedInputAction::StrafeRight { duration_ms } => "StrafeRight { duration_ms: "@
            + decimal_digits(duration_ms as nat) + " }"@,
        InjectedInputAction::Turn { delta_yaw_milli_degrees } => "Turn { delta_yaw_milli_degrees: "@
            + signed_decimal(delta_yaw_milli_degrees as int) + " }"@,
        InjectedInputAction::Interact => "Interact"@,
        InjectedInputAction::Jump => "Jump"@,
        InjectedInputAction::StopMotion => "StopMotion"@,
    }
}

/// The response the stub agent gives to a command, observations aside: the handshake payload,
/// its capabilities and composition, acknowledgements naming the profile, a completed input
/// outcome, or a pong.
pub open spec fn stub_response_ok(
    hello: AdvancedBackendHello,
    command: AdvancedHostCommand,
    response: AdvancedHostResponse,
) -> bool {
    match command {
        AdvancedHostCommand::Handshake { .. } => response matches AdvancedHostResponse::Hello { hello: h }
            && hello_same(h, hello),
        AdvancedHostCommand::GetCapabilities => response matches AdvancedHostResponse::Capabilities {
            capabilities,
            composition,
        } && capabilities == hello.capabilities && composition.roles@ == hello.composition.roles@,
        AdvancedHostCommand::StartProfile { profile_id } => response matches AdvancedHostResponse::Ack {
            detail,
        } && detail@ == "profile '"@ + profile_id@ + "' started in stub agent"@,
        AdvancedHostCommand::StopProfile { profile_id } => response matches AdvancedHostResponse::Ack {
            detail,
        } && detail@ == "profile '"@ + profile_id@ + "' stopped in stub agent"@,
        AdvancedHostCommand::SubscribeEvents => response matches AdvancedHostResponse::Ack { detail }
            && detail@ == "event stream subscribed"@,
        AdvancedHostCommand::FetchObservations { .. } => response is Observations,
        AdvancedHostCommand::ExecuteInput { action } => response matches AdvancedHostResponse::InputOutcome {
            status,
            detail,
        } && status == AdvancedCommandAckStatus::Completed && detail@ == "stub agent completed "@
            + injected_action_text(action),
        AdvancedHostCommand::Ping => response matches AdvancedHostResponse::Pong { detail } && detail@
            == "stub agent alive"@,
    }
}

/// Debug text of an injected input action.
fn injected_action_debug(action: &InjectedInputAction) -> (r: Vec<char>)
    ensures
        r@ == injected_action_text(*action),
{
    let mut out: Vec<char> = Vec::new();
    match action {
        InjectedInputAction::MoveForward { duration_ms } => {
            push_str(&mut out, "MoveForward { duration_ms: ");
            let digits = u64_to_decimal(*duration_ms);
            push_all(&mut out, &digits);
            push_str(&mut out, " }");
        },
        InjectedInputAction::StrafeRight { duration_ms } => {
            push_str(&mut out, "StrafeRight { duration_ms: ");
            let digits = u64_to_decimal(*duration_ms);
            push_all(&mut out, &digits);
            push_str(&mut out, " }");
        },
        InjectedInputAction::Turn { delta_yaw_milli_degrees } => {
            push_str(&mut out, "Turn { delta_yaw_milli_degrees: ");
            let digits = i64_to_decimal(*delta_yaw_milli_degrees as i64);
            push_all(&mut out, &digits);
            push_str(&mut out, " }");
        },
        InjectedInputAction::Interact => push_str(&mut out, "Interact"),
        InjectedInputAction::Jump => push_str(&mut out, "Jump"),
        InjectedInputAction::StopMotion => push_str(&mut out, "StopMotion"),
    }
    proof {
        assert(out@ =~= injected_action_text(*action));
    }
    out
}

/// `"profile '"`, the id and a closing text.
fn profile_detail(profile_id: &String, tail: &str) -> (r: String)
    ensures
        r@ == "profile '"@ + profile_id@ + tail@,
{
    let mut out: Vec<char> = Vec::new();
    push_str(&mut out, "profile '");
    push_str(&mut out, profile_id.as_str());
    push_str(&mut out, tail);
    proof {
        assert(out@ =~= "profile '"@ + profile_id@ + tail@);
    }
    string_from_chars(&out)
}

impl StubAdvancedAgent {
    /// The agent's handshake payload.
    pub closed spec fn hello_spec(&self) -> AdvancedBackendHello {
        self.hello
    }

    /// Sequence number of the next event.
    pub closed spec fn next_sequence_spec(&self) -> u64 {
        self.next_agent_sequence.0
    }

    /// Queued observations, oldest first.
    pub closed spec fn queued(&self) -> Seq<AdvancedObservationUpdate> {
        self.observations@
    }

    /// A fresh agent: events numbered from 1, nothing queued.
    pub fn new(hello: AdvancedBackendHello) -> (r: Self)
        ensures
            r.hello_spec() == hello,
            r.next_sequence_spec() == 1,
            r.queued() == Seq::<AdvancedObservationUpdate>::empty(),
    {
        StubAdvancedAgent {
            hello,
            next_agent_sequence: AdvancedSequenceNumber(1),
            observations: Vec::new(),
        }
    }

    /// Queues an observation behind the others.
    pub fn queue_observation(&mut self, update: AdvancedObservationUpdate)
        ensures
            final(self).queued() == old(self).queued().push(update),
            final(self).hello_spec() == old(self).hello_spec(),
            final(self).next_sequence_spec() == old(self).next_sequence_spec(),
    {
        self.observations.push(update);
    }

    /// Wraps an event in an envelope with the next sequence number.
    fn next_event(&mut self, session_id: AdvancedSessionId, event: AdvancedAgentEvent) -> (r:
        AdvancedAgentEventEnvelope)
        requires
            old(self).next_agent_sequence.0 < u64::MAX,
        ensures
            r.session_id == session_id,
            r.sequence.0 == old(self).next_agent_sequence.0,
            r.event == event,
            final(self).next_agent_sequence.0 == old(self).next_agent_sequence.0 + 1,
            final(self).hello == old(self).hello,
            final(self).observations == old(self).observations,
    {
        let envelope = AdvancedAgentEventEnvelope {
            session_id,
            sequence: self.next_agent_sequence,
            event,
        };
        self.next_agent_sequence = AdvancedSequenceNumber(self.next_agent_sequence.0 + 1);
        envelope
    }

    /// Takes the oldest `count` queued observations.
    fn take_observations(&mut self, count: usize) -> (r: Vec<AdvancedObservationUpdate>)
        requires
            count <= old(self).observations@.len(),
        ensures
            r@ == old(self).observations@.subrange(0, count as int),
            final(self).observations@ == old(self).observations@.subrange(
                count as int,
                old(self).observations@.len() as int,
            ),
            final(self).hello == old(self).hello,
            final(self).next_agent_sequence == old(self).next_agent_sequence,
    {
        let mut taken: Vec<AdvancedObservationUpdate> = Vec::new();
        let mut i: usize = 0;
        while i < count
            invariant
                i <= count,
                count <= old(self).observations@.len(),
                taken@ == old(self).observations@.subrange(0, i as int),
                self.observations@ == old(self).observations@.subrange(
                    i as int,
                    old(self).observations@.len() as int,
                ),
                self.hello == old(self).hello,
                self.next_agent_sequence == old(self).next_agent_sequence,
            decreases count - i,
        {
            let update = self.observations.remove(0);
            taken.push(update);
            proof {
                assert(taken@ =~= old(self).observations@.subrange(0, i + 1));
                assert(self.observations@ =~= old(self).observations@.subrange(
                    i + 1,
                    old(self).observations@.len() as int,
                ));
            }
            i = i + 1;
        }
        taken
    }
}

impl AdvancedAgentRuntime for StubAdvancedAgent {
    /// The handshake payload.
    fn hello(&self) -> (r: AdvancedBackendHello)
        ensures
            hello_same(r, self.hello_spec()),
    {
        self.hello.clone()
    }

    /// The capabilities of the handshake payload.
    fn capabilities(&self) -> (r: AdvancedBackendCapabilities)
        ensures
            r == self.hello_spec().capabilities,
    {
        self.hello.capabilities
    }

    /// The composition of the handshake payload.
    fn composition(&self) -> (r: AdvancedAgentComposition)
        ensures
            r.roles@ == self.hello_spec().composition.roles@,
    {
        self.hello.composition.clone()
    }

    /// Answers a command in the command's session, under its sequence number. Fetching
    /// observations hands out the oldest queued ones, at most as many as asked for.
    fn handle_command(&mut self, command: &AdvancedHostCommandEnvelope) -> (r: WinrResult<
        AdvancedHostResponseEnvelope,
    >)
        ensures
            r matches Ok(env) && env.session_id == command.session_id && env.sequence
                == command.sequence && env.response_to == command.sequence && stub_response_ok(
                old(self).hello_spec(),
                command.command,
                env.response,
            ) && match command.command {
                AdvancedHostCommand::FetchObservations { max_items } => {
                    let n = old(self).queued().len();
                    let count = if (max_items as nat) < n {
                        max_items as nat
                    } else {
                        n
                    };
                    &&& env.response matches AdvancedHostResponse::Observations { updates }
                        && updates@ == old(self).queued().subrange(0, count as int)
                    &&& final(self).queued() == old(self).queued().subrange(
                        count as int,
                        n as int,
                    )
                },
                _ => final(self).queued() == old(self).queued(),
            },
            final(self).hello_spec() == old(self).hello_spec(),
            final(self).next_sequence_spec() == old(self).next_sequence_spec(),
    {
        let response = match &command.command {
            AdvancedHostCommand::Handshake { .. } => AdvancedHostResponse::Hello { hello: self.hello() },
            AdvancedHostCommand::GetCapabilities => AdvancedHostResponse::Capabilities {
                capabilities: self.capabilities(),
                composition: self.composition(),
            },
            AdvancedHostCommand::StartProfile { profile_id } => AdvancedHostResponse::Ack {
                detail: profile_detail(profile_id, "' started in stub agent"),
            },
            AdvancedHostCommand::StopProfile { profile_id } => AdvancedHostResponse::Ack {
                detail: profile_detail(profile_id, "' stopped in stub agent"),
            },
            AdvancedHostCommand::SubscribeEvents => AdvancedHostResponse::Ack {
                detail: string_of("event stream subscribed"),
            },
            AdvancedHostCommand::FetchObservations { max_items } => {
                let available = self.observations.len();
                let count: usize = if (*max_items as u64) < (available as u64) {
                    *max_items as usize
                } else {
                    available
                };
                let updates = self.take_observations(count);
                AdvancedHostResponse::Observations { updates }
            },
            AdvancedHostCommand::ExecuteInput { action } => {
                let mut detail: Vec<char> = Vec::new();
                push_str(&mut detail, "stub agent completed ");
                let text = injected_action_debug(action);
                push_all(&mut detail, &text);
                proof {
                    assert(detail@ =~= "stub agent completed "@ + injected_action_text(*action));
                }
                AdvancedHostResponse::InputOutcome {
                    status: AdvancedCommandAckStatus::Completed,
                    detail: string_from_chars(&detail),
                }
            },
            AdvancedHostCommand::Ping => AdvancedHostResponse::Pong {
                detail: string_of("stub agent alive"),
            },
        };
        Ok(
            AdvancedHostResponseEnvelope {
                session_id: command.session_id,
                sequence: command.sequence,
                response_to: command.sequence,
                response,
            },
        )
    }

    /// Turns every queued observation, oldest first, into an observation event of the session,
    /// numbered consecutively from the next sequence number.
    fn poll_events(&mut self, session_id: AdvancedSessionId) -> (r: WinrResult<
        Vec<AdvancedAgentEventEnvelope>,
    >)
        ensures
            old(self).next_sequence_spec() + old(self).queued().len() < u64::MAX ==> {
                &&& r matches Ok(events) && events@.len() == old(self).queued().len() && forall|k: int|
                    0 <= k < events@.len() ==> {
                        &&& (#[trigger] events@[k]).session_id == session_id
                        &&& events@[k].sequence.0 == old(self).next_sequence_spec() + k
                        &&& events@[k].event == (AdvancedAgentEvent::ObservationTick {
                            update: old(self).queued()[k],
                        })
                    }
                &&& final(self).queued().len() == 0
                &&& final(self).next_sequence_spec() == old(self).next_sequence_spec()
                    + old(self).queued().len()
            },
            old(self).next_sequence_spec() + old(self).queued().len() >= u64::MAX ==> r is Err
                && final(self).queued() == old(self).queued() && final(self).next_sequence_spec()
                == old(self).next_sequence_spec(),
            final(self).hello_spec() == old(self).hello_spec(),
    {
        let n = self.observations.len();
        if self.next_agent_sequence.0 >= u64::MAX - (n as u64) {
            return Err(crate::types::unsupported("agent event sequence numbers are exhausted"));
        }
        let ghost start = self.next_agent_sequence.0;
        let updates = self.take_observations(n);
        let mut events: Vec<AdvancedAgentEventEnvelope> = Vec::new();
        for update in it: updates
            invariant
                it.seq() == old(self).observations@,
                n == old(self).observations@.len(),
                start == old(self).next_agent_sequence.0,
                start + n < u64::MAX,
                events@.len() == it.index(),
                self.next_agent_sequence.0 == start + it.index(),
                self.observations@.len() == 0,
                self.hello == old(self).hello,
                forall|k: int|
                    0 <= k < events@.len() ==> {
                        &&& (#[trigger] events@[k]).session_id == session_id
                        &&& events@[k].sequence.0 == start + k
                        &&& events@[k].event == (AdvancedAgentEvent::ObservationTick {
                            update: old(self).observations@[k],
                        })
                    },
        {
            let envelope = self.next_event(session_id, AdvancedAgentEvent::ObservationTick { update });
            events.push(envelope);
        }
        Ok(events)
    }
}

} // verus!
