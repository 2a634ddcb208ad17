//! Host side of the advanced backend: preparing a session for a profile from a discovery,
//! and the host runtime that drives a session, an attachment and a transport.
use vstd::prelude::*;

use crate::attachment::{ambiguous_targets_message, AttachmentSupervisor};
use crate::backend::{
    advanced_error, advanced_error_message, backend_selection_spec, resolve_backend_selection,
    selector_into_target_ref, stub_hello, target_ref_of,
};
use crate::protocol::{
    default_attachment_policy, AdvancedAgentEvent, AdvancedAttachmentPolicy, AdvancedBackendErrorKind,
    AdvancedBackendLifecycleState, AdvancedFrontend, AdvancedHostCommand, AdvancedHostResponse, AdvancedHostResponseEnvelope, AdvancedAgentEventEnvelope, AdvancedHostCommandEnvelope,
    AdvancedProfileBackend, AdvancedSessionId, AdvancedTargetDiscovery, AdvancedTargetRef,
};
use crate::session::{
    event_accepted, event_refusal, is_session_error, issued, response_accepted, session_mismatch_detail,
    AdvancedBackendSession,
};
use crate::text::{push_str, string_from_chars};
use crate::transport::AdvancedAgentTransport;
use crate::types::{error_message, ProfileConfig, WinrError, WinrResult};
use crate::attachment::resolve_attachable_target;

verus! {

/// Detail of the error for a profile that does not resolve to the injection backend.
pub open spec fn not_inject_detail() -> Seq<char> {
    "advanced backend preparation is only valid for resolved backend 'inject'"@
}

/// Detail of the error for a discovery without candidates.
pub open spec fn no_target_detail() -> Seq<char> {
    "no attachable targets matched the advanced backend selector"@
}

/// Why preparing an injection session for a profile fails, as the message of the error, or
/// `None` when it succeeds: the profile must resolve to the injection backend, discovery must
/// succeed, and the discovery must hold exactly one candidate.
pub open spec fn preparation_failure(
    profile: ProfileConfig,
    frontend: AdvancedFrontend,
    discovery: WinrResult<AdvancedTargetDiscovery>,
) -> Option<Seq<char>> {
    let resolved = backend_selection_spec(profile, frontend).resolved;
    if resolved != AdvancedProfileBackend::Inject {
        Some(advanced_error_message(AdvancedBackendErrorKind::AttachNotImplemented, resolved, not_inject_detail(), None))
    } else {
        match discovery {
            Err(e) => Some(
                advanced_error_message(
                    AdvancedBackendErrorKind::DiscoveryFailed,
                    AdvancedProfileBackend::Inject,
                    error_message(e),
                    None,
                ),
            ),
            Ok(d) => if d.candidates@.len() == 0 {
                Some(
                    advanced_error_message(
                        AdvancedBackendErrorKind::NoAttachableTarget,
                        AdvancedProfileBackend::Inject,
                        no_target_detail(),
                        None,
                    ),
                )
            } else if d.candidates@.len() > 1 {
                Some(
                    advanced_error_message(
                        AdvancedBackendErrorKind::AmbiguousAttachableTarget,
                        AdvancedProfileBackend::Inject,
                        "unsupported operation: "@ + ambiguous_targets_message(d.candidates@.len()),
                        None,
                    ),
                )
            } else {
                None
            },
        }
    }
}

/// A freshly prepared session for a profile and its single discovered candidate: session 1,
/// the stub handshake with the candidate's lifecycle state and target.
pub open spec fn prepared_session(
    session: AdvancedBackendSession,
    profile: ProfileConfig,
    discovery: AdvancedTargetDiscovery,
) -> bool {
    let c = discovery.candidates@[0];
    &&& session.session_id.0 == 1
    &&& session.next_host_sequence.0 == 1
    &&& session.last_agent_sequence is None
    &&& session.command_records@.len() == 0
    &&& session.last_reasoning is None
    &&& session.hello.protocol_version == 1
    &&& session.hello.backend == AdvancedProfileBackend::Inject
    &&& session.hello.lifecycle_state == c.lifecycle_state
    &&& session.hello.target == c.target
}

/// Prepares an injection session for a profile on behalf of a frontend, from a discovery of
/// the profile's target.
pub fn prepare_profile_backend_for_frontend(
    profile: &ProfileConfig,
    frontend: AdvancedFrontend,
    discovery: &WinrResult<AdvancedTargetDiscovery>,
) -> (r: WinrResult<AdvancedBackendSession>)
    ensures
        match preparation_failure(*profile, frontend, *discovery) {
            Some(message) => r matches Err(e) && e is Unsupported && e->Unsupported_message@ == message,
            None => r matches Ok(session) && prepared_session(session, *profile, discovery->Ok_0),
        },
{
    let selection = resolve_backend_selection(profile, frontend);
    if selection.resolved != AdvancedProfileBackend::Inject {
        let mut detail: Vec<char> = Vec::new();
        push_str(&mut detail, "advanced backend preparation is only valid for resolved backend 'inject'");
        proof {
            reveal_strlit("advanced backend preparation is only valid for resolved backend 'inject'");
        }
        return Err(
            advanced_error(AdvancedBackendErrorKind::AttachNotImplemented, selection.resolved, &detail, None),
        );
    }
    let discovery = match discovery {
        Ok(d) => d,
        Err(e) => {
            let text = e.message();
            let mut detail: Vec<char> = Vec::new();
            push_str(&mut detail, text.as_str());
            return Err(
                advanced_error(
                    AdvancedBackendErrorKind::DiscoveryFailed,
                    AdvancedProfileBackend::Inject,
                    &detail,
                    None,
                ),
            );
        },
    };
    let candidate = match resolve_attachable_target(discovery) {
        Ok(c) => c,
        Err(WinrError::WindowNotFound) => {
            let mut detail: Vec<char> = Vec::new();
            push_str(&mut detail, "no attachable targets matched the advanced backend selector");
            proof {
                reveal_strlit("no attachable targets matched the advanced backend selector");
            }
            return Err(
                advanced_error(
                    AdvancedBackendErrorKind::NoAttachableTarget,
                    AdvancedProfileBackend::Inject,
                    &detail,
                    None,
                ),
            );
        },
        Err(other) => {
            let text = other.message();
            let mut detail: Vec<char> = Vec::new();
            push_str(&mut detail, text.as_str());
            proof {
                reveal_strlit("unsupported operation: ");
            }
            return Err(
                advanced_error(
                    AdvancedBackendErrorKind::AmbiguousAttachableTarget,
                    AdvancedProfileBackend::Inject,
                    &detail,
                    None,
                ),
            );
        },
    };
    let mut hello = stub_hello(profile);
    hello.lifecycle_state = candidate.lifecycle_state;
    hello.target = candidate.target;
    Ok(AdvancedBackendSession::new(AdvancedSessionId(1), hello))
}

/// Prepares an injection session for a profile run from the command line.
pub fn prepare_profile_backend(
    profile: &ProfileConfig,
    discovery: &WinrResult<AdvancedTargetDiscovery>,
) -> (r: WinrResult<AdvancedBackendSession>)
    ensures
        match preparation_failure(*profile, AdvancedFrontend::Cli, *discovery) {
            Some(message) => r matches Err(e) && e is Unsupported && e->Unsupported_message@ == message,
            None => r matches Ok(session) && prepared_session(session, *profile, discovery->Ok_0),
        },
{
    prepare_profile_backend_for_frontend(profile, AdvancedFrontend::Cli, discovery)
}


/// Drives one advanced-backend session: the profile, the session state, the attachment and
/// the transport to the agent.
#[derive(Debug)]
pub struct AdvancedHostRuntime<TTransport> {
    pub profile: ProfileConfig,
    pub session: AdvancedBackendSession,
    pub attachment: AttachmentSupervisor,
    pub transport: TTransport,
}

/// The session went from `before` to `after` by accepting the envelopes in order: `sessions`
/// holds the session before each envelope and, last, after the final one.
pub open spec fn responses_accepted(
    before: AdvancedBackendSession,
    envelopes: Seq<AdvancedHostResponseEnvelope>,
    sessions: Seq<AdvancedBackendSession>,
    after: AdvancedBackendSession,
) -> bool {
    &&& sessions.len() == envelopes.len() + 1
    &&& sessions[0] == before
    &&& sessions[envelopes.len() as int] == after
    &&& forall|i: int|
        #![trigger envelopes[i]]
        0 <= i < envelopes.len() ==> response_accepted(sessions[i], envelopes[i], sessions[i + 1])
}

/// The session went from `before` to `after` by accepting the event envelopes in order:
/// `sessions` holds the session before each envelope and, last, after the final one.
pub open spec fn events_accepted(
    before: AdvancedBackendSession,
    envelopes: Seq<AdvancedAgentEventEnvelope>,
    sessions: Seq<AdvancedBackendSession>,
    after: AdvancedBackendSession,
) -> bool {
    &&& sessions.len() == envelopes.len() + 1
    &&& sessions[0] == before
    &&& sessions[envelopes.len() as int] == after
    &&& forall|i: int|
        #![trigger envelopes[i]]
        0 <= i < envelopes.len() ==> event_accepted(sessions[i], envelopes[i], sessions[i + 1])
}

/// The responses that the envelopes carry, in order.
pub open spec fn carried_responses(envelopes: Seq<AdvancedHostResponseEnvelope>) -> Seq<AdvancedHostResponse> {
    envelopes.map_values(|e: AdvancedHostResponseEnvelope| e.response)
}

/// The events that the envelopes carry, in order.
pub open spec fn carried_events(envelopes: Seq<AdvancedAgentEventEnvelope>) -> Seq<AdvancedAgentEvent> {
    envelopes.map_values(|e: AdvancedAgentEventEnvelope| e.event)
}

/// How a response poll that fails ends, with `k` held responses accepted and `session` the
/// session after them: either the transport failed to receive, taking nothing, so the `k`-th
/// held response and those after it are still held; or the session refused the `k`-th held
/// response, which belongs to another session, with the session-mismatch error, and the
/// responses after it are still held.
pub open spec fn response_poll_failed(
    held: Seq<AdvancedHostResponseEnvelope>,
    k: int,
    session: AdvancedBackendSession,
    still_held: Seq<AdvancedHostResponseEnvelope>,
    e: WinrError,
) -> bool {
    ||| still_held == held.skip(k)
    ||| {
        &&& k < held.len()
        &&& still_held == held.skip(k + 1)
        &&& held[k].session_id != session.session_id
        &&& is_session_error(
            e,
            AdvancedBackendErrorKind::SessionMismatch,
            session,
            session_mismatch_detail(session.session_id.0, held[k].session_id.0),
        )
    }
}

/// How an event poll that fails ends, with `k` held events accepted and `session` the session
/// after them: either the transport failed to receive, taking nothing, so the `k`-th held event
/// and those after it are still held; or the session refused the `k`-th held event with the
/// error its refusal names, and the events after it are still held.
pub open spec fn event_poll_failed(
    held: Seq<AdvancedAgentEventEnvelope>,
    k: int,
    session: AdvancedBackendSession,
    still_held: Seq<AdvancedAgentEventEnvelope>,
    e: WinrError,
) -> bool {
    ||| still_held == held.skip(k)
    ||| {
        &&& k < held.len()
        &&& still_held == held.skip(k + 1)
        &&& event_refusal(session, held[k]) matches Some((kind, detail))
        &&& is_session_error(e, kind, session, detail)
    }
}

/// The session issued one more command: the next host sequence grew by one, one more command
/// record, and the identity and handshake of the session are kept.
pub open spec fn one_command_issued(before: AdvancedBackendSession, after: AdvancedBackendSession) -> bool {
    &&& after.session_id == before.session_id
    &&& after.hello == before.hello
    &&& after.next_host_sequence.0 == before.next_host_sequence.0 + 1
    &&& after.command_records@.len() == before.command_records@.len() + 1
}

/// The runtime sent `envelope`: the session issued it, the transport took it behind the earlier
/// commands exactly when the send succeeded, the held responses and events are untouched, and
/// the profile and attachment stay.
pub open spec fn command_sent<T: AdvancedAgentTransport>(
    before: AdvancedHostRuntime<T>,
    envelope: AdvancedHostCommandEnvelope,
    after: AdvancedHostRuntime<T>,
    r: WinrResult<()>,
) -> bool {
    &&& after.profile == before.profile
    &&& after.attachment == before.attachment
    &&& issued(before.session, envelope, after.session)
    &&& after.transport.sent_commands() == (if r is Ok {
        before.transport.sent_commands().push(envelope)
    } else {
        before.transport.sent_commands()
    })
    &&& after.transport.pending_responses() == before.transport.pending_responses()
    &&& after.transport.pending_events() == before.transport.pending_events()
}

/// The envelope of `command` at the session's next sequence.
pub open spec fn next_envelope(session: AdvancedBackendSession, command: AdvancedHostCommand) -> AdvancedHostCommandEnvelope {
    AdvancedHostCommandEnvelope { session_id: session.session_id, sequence: session.next_host_sequence, command }
}

impl<TTransport: AdvancedAgentTransport> AdvancedHostRuntime<TTransport> {
    /// Prepares the session and the attachment of a profile from one discovery of its target,
    /// with the default attachment policy.
    pub fn attach(
        profile: &ProfileConfig,
        transport: TTransport,
        discovery: WinrResult<AdvancedTargetDiscovery>,
    ) -> (r: WinrResult<Self>)
        ensures
            match preparation_failure(*profile, AdvancedFrontend::Cli, discovery) {
                Some(message) => r matches Err(e) && e is Unsupported && e->Unsupported_message@ == message,
                None => r matches Ok(runtime) && runtime.profile == *profile && prepared_session(
                    runtime.session,
                    *profile,
                    discovery->Ok_0,
                ) && runtime.attachment.attachment.selector == profile.target
                    && runtime.attachment.attachment.policy == default_attachment_policy()
                    && runtime.transport == transport,
            },
    {
        let session = match prepare_profile_backend_for_frontend(profile, AdvancedFrontend::Cli, &discovery) {
            Ok(s) => s,
            Err(e) => {
                return Err(e);
            },
        };
        let attached = AttachmentSupervisor::attach(
            &profile.target,
            AdvancedAttachmentPolicy::default(),
            discovery,
        );
        let attachment = match attached {
            Ok((supervisor, _)) => supervisor,
            Err(e) => {
                return Err(e);
            },
        };
        Ok(AdvancedHostRuntime { profile: profile.clone(), session, attachment, transport })
    }

    /// Sends the session's handshake.
    pub fn send_handshake(&mut self) -> (r: WinrResult<()>)
        requires
            old(self).session.next_host_sequence.0 < u64::MAX,
        ensures
            one_command_issued(old(self).session, final(self).session),
            command_sent(
                *old(self),
                next_envelope(
                    old(self).session,
                    AdvancedHostCommand::Handshake {
                        requested_backend: old(self).session.hello.backend,
                        target: old(self).session.hello.target,
                    },
                ),
                *final(self),
                r,
            ),
    {
        let command = self.session.handshake_command();
        self.transport.send_command(command)
    }

    /// Asks the agent for its capabilities.
    pub fn request_capabilities(&mut self) -> (r: WinrResult<()>)
        requires
            old(self).session.next_host_sequence.0 < u64::MAX,
        ensures
            one_command_issued(old(self).session, final(self).session),
            command_sent(*old(self), next_envelope(old(self).session, AdvancedHostCommand::GetCapabilities), *final(self), r),
    {
        let command = self.session.command(AdvancedHostCommand::GetCapabilities);
        self.transport.send_command(command)
    }

    /// Subscribes to the agent's event stream.
    pub fn subscribe_events(&mut self) -> (r: WinrResult<()>)
        requires
            old(self).session.next_host_sequence.0 < u64::MAX,
        ensures
            one_command_issued(old(self).session, final(self).session),
            command_sent(*old(self), next_envelope(old(self).session, AdvancedHostCommand::SubscribeEvents), *final(self), r),
    {
        let command = self.session.command(AdvancedHostCommand::SubscribeEvents);
        self.transport.send_command(command)
    }

    /// Starts the profile inside the agent.
    pub fn start_profile(&mut self) -> (r: WinrResult<()>)
        requires
            old(self).session.next_host_sequence.0 < u64::MAX,
        ensures
            one_command_issued(old(self).session, final(self).session),
            exists|envelope: AdvancedHostCommandEnvelope|
                #[trigger] command_sent(*old(self), envelope, *final(self), r) && envelope.command is StartProfile
                    && envelope.command->StartProfile_profile_id@ == old(self).profile.profile.id@,
    {
        let command = self.session.start_profile_command(self.profile.profile.id.as_str());
        let ghost before = *old(self);
        let r = self.transport.send_command(command);
        assert(command_sent(before, command, *self, r));
        r
    }

    /// Stops the profile inside the agent.
    pub fn stop_profile(&mut self) -> (r: WinrResult<()>)
        requires
            old(self).session.next_host_sequence.0 < u64::MAX,
        ensures
            one_command_issued(old(self).session, final(self).session),
            exists|envelope: AdvancedHostCommandEnvelope|
                #[trigger] command_sent(*old(self), envelope, *final(self), r) && envelope.command is StopProfile
                    && envelope.command->StopProfile_profile_id@ == old(self).profile.profile.id@,
    {
        let command = self.session.stop_profile_command(self.profile.profile.id.as_str());
        let ghost before = *old(self);
        let r = self.transport.send_command(command);
        assert(command_sent(before, command, *self, r));
        r
    }

    /// Sends a liveness probe.
    pub fn ping(&mut self) -> (r: WinrResult<()>)
        requires
            old(self).session.next_host_sequence.0 < u64::MAX,
        ensures
            one_command_issued(old(self).session, final(self).session),
            command_sent(*old(self), next_envelope(old(self).session, AdvancedHostCommand::Ping), *final(self), r),
    {
        let command = self.session.ping_command();
        self.transport.send_command(command)
    }

    /// Receives every held response, applies each to the session in order and returns them;
    /// the first transport or session error ends the poll and is returned. On success every
    /// response the transport held was received, each was accepted by the session in turn, and
    /// the responses come back in that order. On an error, the responses received before it were
    /// the oldest held ones, each accepted in turn.
    pub fn poll_responses(&mut self) -> (r: WinrResult<Vec<AdvancedHostResponse>>)
        ensures
            final(self).profile == old(self).profile,
            final(self).attachment == old(self).attachment,
            final(self).session.session_id == old(self).session.session_id,
            final(self).session.next_host_sequence == old(self).session.next_host_sequence,
            exists|k: int, sessions: Seq<AdvancedBackendSession>|
                #[trigger] responses_accepted(
                    old(self).session,
                    old(self).transport.pending_responses().take(k),
                    sessions,
                    final(self).session,
                ) && 0 <= k <= old(self).transport.pending_responses().len() && (r matches Ok(v) ==> {
                    &&& k == old(self).transport.pending_responses().len()
                    &&& final(self).transport.pending_responses().len() == 0
                    &&& v@ == carried_responses(old(self).transport.pending_responses())
                }) && (r matches Err(e) ==> response_poll_failed(
                    old(self).transport.pending_responses(),
                    k,
                    final(self).session,
                    final(self).transport.pending_responses(),
                    e,
                )),
    {
        let mut responses: Vec<AdvancedHostResponse> = Vec::new();
        let ghost held: Seq<AdvancedHostResponseEnvelope> = self.transport.pending_responses();
        let ghost mut k: int = 0;
        let ghost mut sessions: Seq<AdvancedBackendSession> = seq![self.session];
        proof {
            assert(held.take(0) =~= Seq::<AdvancedHostResponseEnvelope>::empty());
            assert(held.skip(0) =~= held);
        }
        loop
            invariant
                self.profile == old(self).profile,
                self.attachment == old(self).attachment,
                self.session.session_id == old(self).session.session_id,
                self.session.next_host_sequence == old(self).session.next_host_sequence,
                held == old(self).transport.pending_responses(),
                0 <= k <= held.len(),
                self.transport.pending_responses() == held.skip(k),
                responses_accepted(old(self).session, held.take(k), sessions, self.session),
                responses@ == carried_responses(held.take(k)),
            decreases self.transport.pending_responses().len(),
        {
            let received = self.transport.recv_response();
            let envelope = match received {
                Ok(Some(envelope)) => envelope,
                Ok(None) => {
                    proof {
                        assert(held.take(k) =~= held);
                    }
                    return Ok(responses);
                },
                Err(e) => {
                    return Err(e);
                },
            };
            let ghost prior = self.session;
            match self.session.apply_response(&envelope) {
                Ok(()) => {},
                Err(e) => {
                    proof {
                        assert(envelope == held[k]);
                        assert(held.skip(k + 1) =~= held.skip(k).drop_first());
                        assert(response_poll_failed(held, k, self.session, self.transport.pending_responses(), e));
                    }
                    return Err(e);
                },
            }
            proof {
                assert(envelope == held[k]);
                let ghost before_k = held.take(k);
                k = k + 1;
                sessions = sessions.push(self.session);
                assert(held.take(k) =~= before_k.push(envelope));
                assert(held.skip(k) =~= held.skip(k - 1).drop_first());
                assert forall|i: int| 0 <= i < held.take(k).len() implies #[trigger] response_accepted(
                    sessions[i],
                    held.take(k)[i],
                    sessions[i + 1],
                ) by {
                    if i < k - 1 {
                        assert(held.take(k)[i] == before_k[i]);
                    }
                }
                assert(carried_responses(held.take(k)) =~= carried_responses(before_k).push(envelope.response));
            }
            responses.push(envelope.response);
        }
    }

    /// Receives every held event, applies each to the session in order and returns them; the
    /// first transport or session error ends the poll and is returned. On success every event
    /// the transport held was received, each was accepted by the session in turn, and the events
    /// come back in that order. On an error, the events received before it were the oldest held
    /// ones, each accepted in turn.
    pub fn poll_events(&mut self) -> (r: WinrResult<Vec<AdvancedAgentEvent>>)
        ensures
            final(self).profile == old(self).profile,
            final(self).attachment == old(self).attachment,
            final(self).session.session_id == old(self).session.session_id,
            final(self).session.next_host_sequence == old(self).session.next_host_sequence,
            exists|k: int, sessions: Seq<AdvancedBackendSession>|
                #[trigger] events_accepted(
                    old(self).session,
                    old(self).transport.pending_events().take(k),
                    sessions,
                    final(self).session,
                ) && 0 <= k <= old(self).transport.pending_events().len() && (r matches Ok(v) ==> {
                    &&& k == old(self).transport.pending_events().len()
                    &&& final(self).transport.pending_events().len() == 0
                    &&& v@ == carried_events(old(self).transport.pending_events())
                }) && (r matches Err(e) ==> event_poll_failed(
                    old(self).transport.pending_events(),
                    k,
                    final(self).session,
                    final(self).transport.pending_events(),
                    e,
                )),
    {
        let mut events: Vec<AdvancedAgentEvent> = Vec::new();
        let ghost held: Seq<AdvancedAgentEventEnvelope> = self.transport.pending_events();
        let ghost mut k: int = 0;
        let ghost mut sessions: Seq<AdvancedBackendSession> = seq![self.session];
        proof {
            assert(held.take(0) =~= Seq::<AdvancedAgentEventEnvelope>::empty());
            assert(held.skip(0) =~= held);
        }
        loop
            invariant
                self.profile == old(self).profile,
                self.attachment == old(self).attachment,
                self.session.session_id == old(self).session.session_id,
                self.session.next_host_sequence == old(self).session.next_host_sequence,
                held == old(self).transport.pending_events(),
                0 <= k <= held.len(),
                self.transport.pending_events() == held.skip(k),
                events_accepted(old(self).session, held.take(k), sessions, self.session),
                events@ == carried_events(held.take(k)),
            decreases self.transport.pending_events().len(),
        {
            let received = self.transport.recv_event();
            let envelope = match received {
                Ok(Some(envelope)) => envelope,
                Ok(None) => {
                    proof {
                        assert(held.take(k) =~= held);
                    }
                    return Ok(events);
                },
                Err(e) => {
                    return Err(e);
                },
            };
            let ghost prior = self.session;
            match self.session.apply_event(&envelope) {
                Ok(()) => {},
                Err(e) => {
                    proof {
                        assert(envelope == held[k]);
                        assert(held.skip(k + 1) =~= held.skip(k).drop_first());
                        assert(event_poll_failed(held, k, self.session, self.transport.pending_events(), e));
                    }
                    return Err(e);
                },
            }
            proof {
                assert(envelope == held[k]);
                let ghost before_k = held.take(k);
                k = k + 1;
                sessions = sessions.push(self.session);
                assert(held.take(k) =~= before_k.push(envelope));
                assert(held.skip(k) =~= held.skip(k - 1).drop_first());
                assert forall|i: int| 0 <= i < held.take(k).len() implies #[trigger] event_accepted(
                    sessions[i],
                    held.take(k)[i],
                    sessions[i + 1],
                ) by {
                    if i < k - 1 {
                        assert(held.take(k)[i] == before_k[i]);
                    }
                }
                assert(carried_events(held.take(k)) =~= carried_events(before_k).push(envelope.event));
            }
            events.push(envelope.event);
        }
    }

    /// The target reference the profile's selector describes.
    pub fn fallback_target_ref(&self) -> (r: AdvancedTargetRef)
        ensures
            r == target_ref_of(self.profile.target),
    {
        selector_into_target_ref(&self.profile.target)
    }
}

} // verus!
