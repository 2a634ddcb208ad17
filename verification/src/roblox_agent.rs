//! The injected Roblox agent's decisions: how it answers each host command, the snapshot it
//! reports, the key posts that carry out an injected action, the checks on its memory reads,
//! the window handle it is given, and the framing of pipe messages.
use vstd::prelude::*;

use crate::backend::notes_are;
use crate::memory_schema::{le_value, RobloxMemoryField, RobloxMemoryValueKind};
use crate::protocol::{
    AdvancedAgentComposition, AdvancedAgentEvent, AdvancedAgentEventEnvelope, AdvancedAgentRole,
    AdvancedBackendCapabilities, AdvancedBackendHello, AdvancedBackendLifecycleState,
    AdvancedCommandAckStatus, AdvancedHostCommand, AdvancedHostCommandEnvelope,
    AdvancedHostResponse, AdvancedHostResponseEnvelope, AdvancedIpcTransportDescriptor,
    AdvancedIpcTransportKind, AdvancedObservationUpdate, AdvancedProfileBackend,
    AdvancedSequenceNumber, AdvancedSessionId, AdvancedTargetRef, InjectedInputAction,
    RobloxObservationSnapshot, RobloxObservedObject,
};
use crate::text::{
    all_digits, chars_of, decimal_digits, digit_value, digits_value, parse_unsigned, parse_unsigned_spec,
    push_all, push_str, string_from_chars, string_of, u64_to_decimal,
};

verus! {

// ----------------------------------------------------------------------------------------------
// Identity.
/// What the agent offers: injected input, memory observation, semantic navigation and
/// internal interaction.
pub open spec fn agent_capabilities() -> AdvancedBackendCapabilities {
    AdvancedBackendCapabilities {
        foreground_input: false,
        message_input: false,
        uia_input: false,
        injected_input: true,
        render_observation: false,
        memory_observation: true,
        semantic_navigation: true,
        entity_tracking: false,
        internal_interaction: true,
    }
}

/// The agent's roles: memory observer, input shim, semantic adapter.
pub open spec fn agent_roles() -> Seq<AdvancedAgentRole> {
    seq![AdvancedAgentRole::MemoryObserver, AdvancedAgentRole::InputShim, AdvancedAgentRole::SemanticAdapter]
}

/// The hello of an agent attached to the target over named pipes.
pub open spec fn agent_hello(h: AdvancedBackendHello, target: AdvancedTargetRef) -> bool {
    &&& h.protocol_version == 1
    &&& h.backend == AdvancedProfileBackend::Inject
    &&& h.lifecycle_state == AdvancedBackendLifecycleState::Attached
    &&& h.capabilities == agent_capabilities()
    &&& h.target == target
    &&& h.transport.kind == AdvancedIpcTransportKind::NamedPipe
    &&& h.transport.supports_commands
    &&& h.transport.supports_events
    &&& !h.transport.supports_binary_payloads
    &&& h.transport.ordered_delivery
    &&& notes_are(h.transport.notes@, seq!["injected Roblox agent connected over named pipes"@])
    &&& h.composition.roles@ == agent_roles()
}

/// The agent's capabilities.
pub fn build_capabilities() -> (r: AdvancedBackendCapabilities)
    ensures
        r == agent_capabilities(),
{
    AdvancedBackendCapabilities {
        foreground_input: false,
        message_input: false,
        uia_input: false,
        injected_input: true,
        render_observation: false,
        memory_observation: true,
        semantic_navigation: true,
        entity_tracking: false,
        internal_interaction: true,
    }
}

/// The agent's composition.
pub fn build_composition() -> (r: AdvancedAgentComposition)
    ensures
        r.roles@ == agent_roles(),
{
    let mut roles: Vec<AdvancedAgentRole> = Vec::new();
    roles.push(AdvancedAgentRole::MemoryObserver);
    roles.push(AdvancedAgentRole::InputShim);
    roles.push(AdvancedAgentRole::SemanticAdapter);
    proof {
        assert(roles@ =~= agent_roles());
    }
    AdvancedAgentComposition { roles }
}

/// The agent's hello for its target.
pub fn build_hello(target: &AdvancedTargetRef) -> (r: AdvancedBackendHello)
    ensures
        agent_hello(r, *target),
{
    let mut notes: Vec<String> = Vec::new();
    notes.push(string_of("injected Roblox agent connected over named pipes"));
    AdvancedBackendHello {
        protocol_version: 1,
        backend: AdvancedProfileBackend::Inject,
        lifecycle_state: AdvancedBackendLifecycleState::Attached,
        capabilities: build_capabilities(),
        target: target.clone(),
        transport: AdvancedIpcTransportDescriptor {
            kind: AdvancedIpcTransportKind::NamedPipe,
            supports_commands: true,
            supports_events: true,
            supports_binary_payloads: false,
            ordered_delivery: true,
            notes,
        },
        composition: build_composition(),
    }
}

// ----------------------------------------------------------------------------------------------
// Commands.
/// The agent's state between commands.
#[derive(Debug, PartialEq, Eq)]
pub struct InjectedAgentState {
    pub session_id: u64,
    pub target: AdvancedTargetRef,
    pub frame_id: u64,
    pub next_event_sequence: u64,
}

/// What the agent does with a command.
#[derive(Debug, PartialEq, Eq)]
pub enum AgentCommandPlan {
    /// Send the event, if any, then the response.
    Respond { event: Option<AdvancedAgentEventEnvelope>, response: AdvancedHostResponseEnvelope },
    /// Capture the frame's snapshot, then answer with `observation_response`.
    CaptureSnapshot { frame_id: u64 },
    /// Carry out the input, then answer with `input_response`.
    ExecuteInput { action: InjectedInputAction },
}

/// A response answers the command: same session and sequence, in response to it.
pub open spec fn answers(r: AdvancedHostResponseEnvelope, command: AdvancedHostCommandEnvelope) -> bool {
    r.session_id == command.session_id && r.sequence == command.sequence && r.response_to
        == command.sequence
}

/// An acknowledgment answering the command, with the detail.
pub open spec fn acks(p: AgentCommandPlan, command: AdvancedHostCommandEnvelope, detail: Seq<char>) -> bool {
    p matches AgentCommandPlan::Respond { event: None, response } && answers(response, command)
        && (response.response matches AdvancedHostResponse::Ack { detail: d } && d@ == detail)
}

/// What the agent does with each command.
pub open spec fn plans(
    before: InjectedAgentState,
    after: InjectedAgentState,
    command: AdvancedHostCommandEnvelope,
    p: AgentCommandPlan,
) -> bool {
    match command.command {
        AdvancedHostCommand::Handshake { .. } => {
            &&& p matches AgentCommandPlan::Respond { event: Some(ev), response }
            &&& ev.session_id == AdvancedSessionId(before.session_id)
            &&& ev.sequence == AdvancedSequenceNumber(before.next_event_sequence)
            &&& (ev.event matches AdvancedAgentEvent::Hello { hello } && agent_hello(hello, before.target))
            &&& answers(response, command)
            &&& (response.response matches AdvancedHostResponse::Hello { hello } && agent_hello(
                hello,
                before.target,
            ))
            &&& after == InjectedAgentState { next_event_sequence: (before.next_event_sequence + 1) as u64, ..before }
        },
        AdvancedHostCommand::GetCapabilities => {
            &&& p matches AgentCommandPlan::Respond { event: None, response }
            &&& answers(response, command)
            &&& (response.response matches AdvancedHostResponse::Capabilities { capabilities, composition }
                && capabilities == agent_capabilities() && composition.roles@ == agent_roles())
            &&& after == before
        },
        AdvancedHostCommand::SubscribeEvents => acks(p, command, "event subscription active"@) && after == before,
        AdvancedHostCommand::StartProfile { profile_id } => acks(
            p,
            command,
            "profile '"@ + profile_id@ + "' started in injected agent"@,
        ) && after == before,
        AdvancedHostCommand::StopProfile { profile_id } => acks(
            p,
            command,
            "profile '"@ + profile_id@ + "' stopped in injected agent"@,
        ) && after == before,
        AdvancedHostCommand::FetchObservations { .. } => {
            &&& p == AgentCommandPlan::CaptureSnapshot { frame_id: (before.frame_id + 1) as u64 }
            &&& after == InjectedAgentState { frame_id: (before.frame_id + 1) as u64, ..before }
        },
        AdvancedHostCommand::ExecuteInput { action } => p == AgentCommandPlan::ExecuteInput { action }
            && after == before,
        AdvancedHostCommand::Ping => {
            &&& p matches AgentCommandPlan::Respond { event: None, response }
            &&& answers(response, command)
            &&& (response.response matches AdvancedHostResponse::Pong { detail } && detail@
                == "injected agent alive"@)
            &&& after == before
        },
    }
}

/// A response envelope answering the command.
fn answer(command: &AdvancedHostCommandEnvelope, response: AdvancedHostResponse) -> (r: AdvancedHostResponseEnvelope)
    ensures
        answers(r, *command),
        r.response == response,
{
    AdvancedHostResponseEnvelope {
        session_id: command.session_id,
        sequence: command.sequence,
        response_to: command.sequence,
        response,
    }
}

/// An acknowledgment answering the command.
fn ack(command: &AdvancedHostCommandEnvelope, detail: Vec<char>) -> (r: AgentCommandPlan)
    ensures
        acks(r, *command, detail@),
{
    AgentCommandPlan::Respond {
        event: None,
        response: answer(command, AdvancedHostResponse::Ack { detail: string_from_chars(&detail) }),
    }
}

impl InjectedAgentState {
    /// A fresh agent for the session and target: no frame yet, events numbered from 1.
    pub fn new(session_id: u64, target: AdvancedTargetRef) -> (r: Self)
        ensures
            r == (InjectedAgentState { session_id, target, frame_id: 0, next_event_sequence: 1 }),
    {
        InjectedAgentState { session_id, target, frame_id: 0, next_event_sequence: 1 }
    }

    /// Decides what to do with a command.
    pub fn plan(&mut self, command: &AdvancedHostCommandEnvelope) -> (r: AgentCommandPlan)
        requires
            old(self).frame_id < u64::MAX,
            old(self).next_event_sequence < u64::MAX,
        ensures
            plans(*old(self), *final(self), *command, r),
    {
        match &command.command {
            AdvancedHostCommand::Handshake { .. } => {
                let event = AdvancedAgentEventEnvelope {
                    session_id: AdvancedSessionId(self.session_id),
                    sequence: AdvancedSequenceNumber(self.next_event_sequence),
                    event: AdvancedAgentEvent::Hello { hello: build_hello(&self.target) },
                };
                self.next_event_sequence = self.next_event_sequence + 1;
                AgentCommandPlan::Respond {
                    event: Some(event),
                    response: answer(command, AdvancedHostResponse::Hello { hello: build_hello(&self.target) }),
                }
            },
            AdvancedHostCommand::GetCapabilities => AgentCommandPlan::Respond {
                event: None,
                response: answer(
                    command,
                    AdvancedHostResponse::Capabilities {
                        capabilities: build_capabilities(),
                        composition: build_composition(),
                    },
                ),
            },
            AdvancedHostCommand::SubscribeEvents => {
                let mut d: Vec<char> = Vec::new();
                push_str(&mut d, "event subscription active");
                ack(command, d)
            },
            AdvancedHostCommand::StartProfile { profile_id } => {
                let mut d: Vec<char> = Vec::new();
                push_str(&mut d, "profile '");
                push_str(&mut d, profile_id.as_str());
                push_str(&mut d, "' started in injected agent");
                ack(command, d)
            },
            AdvancedHostCommand::StopProfile { profile_id } => {
                let mut d: Vec<char> = Vec::new();
                push_str(&mut d, "profile '");
                push_str(&mut d, profile_id.as_str());
                push_str(&mut d, "' stopped in injected agent");
                ack(command, d)
            },
            AdvancedHostCommand::FetchObservations { .. } => {
                self.frame_id = self.frame_id + 1;
                AgentCommandPlan::CaptureSnapshot { frame_id: self.frame_id }
            },
            AdvancedHostCommand::ExecuteInput { action } => AgentCommandPlan::ExecuteInput { action: *action },
            AdvancedHostCommand::Ping => AgentCommandPlan::Respond {
                event: None,
                response: answer(command, AdvancedHostResponse::Pong { detail: string_of("injected agent alive") }),
            },
        }
    }
}

/// The answer to a fetch: one update describing the snapshot, and the snapshot.
pub fn observation_response(
    command: &AdvancedHostCommandEnvelope,
    frame_id: u64,
    snapshot: RobloxObservationSnapshot,
) -> (r: AdvancedHostResponseEnvelope)
    ensures
        answers(r, *command),
        r.response matches AdvancedHostResponse::RobloxObservations { updates, snapshots }
            && snapshots@ == seq![snapshot] && updates@.len() == 1 && updates@[0] == (AdvancedObservationUpdate {
            frame_id,
            source: snapshot.source,
            detail: snapshot.detail,
            timestamp_ms: Some(snapshot.timestamp_ms),
            freshness_ms: Some(snapshot.freshness_ms),
            payload: None,
        }),
{
    let update = AdvancedObservationUpdate {
        frame_id,
        source: snapshot.source.clone(),
        detail: snapshot.detail.clone(),
        timestamp_ms: Some(snapshot.timestamp_ms),
        freshness_ms: Some(snapshot.freshness_ms),
        payload: None,
    };
    let mut updates: Vec<AdvancedObservationUpdate> = Vec::new();
    updates.push(update);
    let mut snapshots: Vec<RobloxObservationSnapshot> = Vec::new();
    snapshots.push(snapshot);
    proof {
        assert(snapshots@ =~= seq![snapshot]);
    }
    answer(command, AdvancedHostResponse::RobloxObservations { updates, snapshots })
}

/// The answer to an input: completed with the detail, or rejected with the failure.
pub fn input_response(command: &AdvancedHostCommandEnvelope, outcome: Result<String, String>) -> (r:
    AdvancedHostResponseEnvelope)
    ensures
        answers(r, *command),
        match outcome {
            Ok(detail) => r.response == AdvancedHostResponse::InputOutcome {
                status: AdvancedCommandAckStatus::Completed,
                detail,
            },
            Err(detail) => r.response == AdvancedHostResponse::InputOutcome {
                status: AdvancedCommandAckStatus::Rejected,
                detail,
            },
        },
{
    match outcome {
        Ok(detail) => answer(
            command,
            AdvancedHostResponse::InputOutcome { status: AdvancedCommandAckStatus::Completed, detail },
        ),
        Err(detail) => answer(
            command,
            AdvancedHostResponse::InputOutcome { status: AdvancedCommandAckStatus::Rejected, detail },
        ),
    }
}

// ----------------------------------------------------------------------------------------------
// Snapshots.
/// The snapshot of a frame from the values read: source `injected-memory`, a detail naming
/// the schema version, 16 ms freshness.
pub fn snapshot_from_reads(
    schema_version: &str,
    frame_id: u64,
    timestamp_ms: u64,
    player_position: [i32; 3],
    player_velocity: Option<[i32; 3]>,
    camera_yaw: Option<i32>,
    camera_pitch: Option<i32>,
    prompt_visible: Option<bool>,
    prompt_distance: Option<u32>,
    objects: Vec<RobloxObservedObject>,
) -> (r: RobloxObservationSnapshot)
    ensures
        r.frame_id == frame_id,
        r.source@ == "injected-memory"@,
        r.detail@ == "manual schema '"@ + schema_version@ + "' captured from injected agent"@,
        r.timestamp_ms == timestamp_ms,
        r.freshness_ms == 16,
        r.player_position_millimeters == Some(player_position),
        r.player_velocity_millimeters == player_velocity,
        r.camera_yaw_milli_degrees == camera_yaw,
        r.camera_pitch_milli_degrees == camera_pitch,
        r.prompt_visible == prompt_visible,
        r.prompt_distance_millimeters == prompt_distance,
        r.objects == objects,
{
    let mut detail: Vec<char> = Vec::new();
    push_str(&mut detail, "manual schema '");
    push_str(&mut detail, schema_version);
    push_str(&mut detail, "' captured from injected agent");
    RobloxObservationSnapshot {
        frame_id,
        source: string_of("injected-memory"),
        detail: string_from_chars(&detail),
        timestamp_ms,
        freshness_ms: 16,
        player_position_millimeters: Some(player_position),
        player_velocity_millimeters: player_velocity,
        camera_yaw_milli_degrees: camera_yaw,
        camera_pitch_milli_degrees: camera_pitch,
        prompt_visible,
        prompt_distance_millimeters: prompt_distance,
        objects,
    }
}

/// A field the snapshot cannot do without.
pub fn required_field<'a>(field: &'a Option<RobloxMemoryField>, label: &str) -> (r: Result<
    &'a RobloxMemoryField,
    String,
>)
    ensures
        match *field {
            Some(f) => r == Ok::<&RobloxMemoryField, String>(&f),
            None => r matches Err(m) && m@ == "required schema field '"@ + label@ + "' is missing"@,
        },
{
    match field {
        Some(f) => Ok(f),
        None => {
            let mut m: Vec<char> = Vec::new();
            push_str(&mut m, "required schema field '");
            push_str(&mut m, label);
            push_str(&mut m, "' is missing");
            Err(string_from_chars(&m))
        },
    }
}

// ----------------------------------------------------------------------------------------------
// Memory reads.
/// The name a value kind is reported by.
pub open spec fn kind_name(k: RobloxMemoryValueKind) -> Seq<char> {
    match k {
        RobloxMemoryValueKind::Vec3F32 => "Vec3F32"@,
        RobloxMemoryValueKind::Vec3I32 => "Vec3I32"@,
        RobloxMemoryValueKind::I32 => "I32"@,
        RobloxMemoryValueKind::U32 => "U32"@,
        RobloxMemoryValueKind::U8Bool => "U8Bool"@,
    }
}

fn kind_name_of(k: RobloxMemoryValueKind) -> (r: &'static str)
    ensures
        r@ == kind_name(k),
{
    match k {
        RobloxMemoryValueKind::Vec3F32 => "Vec3F32",
        RobloxMemoryValueKind::Vec3I32 => "Vec3I32",
        RobloxMemoryValueKind::I32 => "I32",
        RobloxMemoryValueKind::U32 => "U32",
        RobloxMemoryValueKind::U8Bool => "U8Bool",
    }
}

/// The word a scalar read names in its error.
pub open spec fn scalar_word(k: RobloxMemoryValueKind) -> Seq<char> {
    match k {
        RobloxMemoryValueKind::I32 => "i32"@,
        RobloxMemoryValueKind::U32 => "u32"@,
        _ => "bool"@,
    }
}

/// Checks that a field holds a vector: `Ok(true)` for floats, `Ok(false)` for integers.
pub fn check_vec3_kind(kind: RobloxMemoryValueKind) -> (r: Result<bool, String>)
    ensures
        kind == RobloxMemoryValueKind::Vec3F32 ==> r == Ok::<bool, String>(true),
        kind == RobloxMemoryValueKind::Vec3I32 ==> r == Ok::<bool, String>(false),
        kind != RobloxMemoryValueKind::Vec3F32 && kind != RobloxMemoryValueKind::Vec3I32 ==> (r matches Err(m)
            && m@ == "field expected vec3 but schema uses "@ + kind_name(kind)),
{
    match kind {
        RobloxMemoryValueKind::Vec3F32 => Ok(true),
        RobloxMemoryValueKind::Vec3I32 => Ok(false),
        _ => {
            let mut m: Vec<char> = Vec::new();
            push_str(&mut m, "field expected vec3 but schema uses ");
            push_str(&mut m, kind_name_of(kind));
            Err(string_from_chars(&m))
        },
    }
}

/// Checks that a field holds the scalar kind a read expects (`I32`, `U32` or `U8Bool`).
pub fn check_scalar_kind(kind: RobloxMemoryValueKind, expected: RobloxMemoryValueKind) -> (r: Result<
    (),
    String,
>)
    requires
        expected == RobloxMemoryValueKind::I32 || expected == RobloxMemoryValueKind::U32 || expected
            == RobloxMemoryValueKind::U8Bool,
    ensures
        kind == expected ==> r is Ok,
        kind != expected ==> (r matches Err(m) && m@ == "field expected "@ + scalar_word(expected)
            + " but schema uses "@ + kind_name(kind)),
{
    if kind == expected {
        return Ok(());
    }
    let mut m: Vec<char> = Vec::new();
    push_str(&mut m, "field expected ");
    let word = match expected {
        RobloxMemoryValueKind::I32 => "i32",
        RobloxMemoryValueKind::U32 => "u32",
        _ => "bool",
    };
    push_str(&mut m, word);
    push_str(&mut m, " but schema uses ");
    push_str(&mut m, kind_name_of(kind));
    Err(string_from_chars(&m))
}

/// One dereference of an in-process pointer chase: the pointer plus the offset, which must
/// exist and not be null.
pub fn next_chase_address(pointer: usize, offset: usize, module: &str, index: usize) -> (r: Result<usize, String>)
    ensures
        pointer + offset <= usize::MAX && pointer + offset != 0 ==> r == Ok::<usize, String>(
            (pointer + offset) as usize,
        ),
        pointer + offset == 0 ==> (r matches Err(m) && m@ == "null pointer while resolving '"@ + module@
            + "' at dereference step "@ + decimal_digits(index as nat)),
        pointer + offset > usize::MAX ==> (r matches Err(m) && m@ == "pointer overflow while resolving '"@
            + module@ + "' at dereference step "@ + decimal_digits(index as nat)),
{
    match pointer.checked_add(offset) {
        Some(address) => {
            if address == 0 {
                let mut m: Vec<char> = Vec::new();
                push_str(&mut m, "null pointer while resolving '");
                push_str(&mut m, module);
                push_str(&mut m, "' at dereference step ");
                let digits = u64_to_decimal(index as u64);
                push_all(&mut m, &digits);
                return Err(string_from_chars(&m));
            }
            Ok(address)
        },
        None => {
            let mut m: Vec<char> = Vec::new();
            push_str(&mut m, "pointer overflow while resolving '");
            push_str(&mut m, module);
            push_str(&mut m, "' at dereference step ");
            let digits = u64_to_decimal(index as u64);
            push_all(&mut m, &digits);
            Err(string_from_chars(&m))
        },
    }
}

/// Refuses to read at the null address.
pub fn check_read_address(address: usize) -> (r: Result<(), String>)
    ensures
        address != 0 ==> r is Ok,
        address == 0 ==> (r matches Err(m) && m@ == "attempted to read null address"@),
{
    if address == 0 {
        return Err(string_of("attempted to read null address"));
    }
    Ok(())
}

// ----------------------------------------------------------------------------------------------
// Window handle.
/// The text with every leading `0x` removed.
pub open spec fn strip_hex_prefixes(s: Seq<char>) -> Seq<char>
    decreases s.len(),
{
    if s.len() >= 2 && s[0] == '0' && s[1] == 'x' {
        strip_hex_prefixes(s.subrange(2, s.len() as int))
    } else {
        s
    }
}

/// Index of the first character that is not a hexadecimal digit (the length when all are).
pub open spec fn first_non_hex(d: Seq<char>) -> int
    decreases d.len(),
{
    if d.len() == 0 {
        0
    } else if digit_value(d[0], 16) is None {
        0
    } else {
        1 + first_non_hex(d.drop_first())
    }
}

/// The digits `usize::from_str_radix(_, 16)` reads: the text after a `+` that is not alone.
pub open spec fn hex_digits_part(s: Seq<char>) -> Seq<char> {
    if s.len() > 1 && s[0] == '+' {
        s.subrange(1, s.len() as int)
    } else {
        s
    }
}

/// The reason `usize::from_str_radix(_, 16)` refuses a text, if it does: it reads digits
/// left to right and stops at the first one that is invalid or makes the value too large.
pub open spec fn hex_refusal(s: Seq<char>) -> Option<Seq<char>> {
    let d = hex_digits_part(s);
    let j = first_non_hex(d);
    if s.len() == 0 {
        Some("cannot parse integer from empty string"@)
    } else if digits_value(d.subrange(0, j), 16) > usize::MAX {
        Some("number too large to fit in target type"@)
    } else if j < d.len() {
        Some("invalid digit found in string"@)
    } else {
        None
    }
}

/// The window handle an agent is given: hexadecimal after any leading `0x`.
pub open spec fn agent_hwnd(text: Seq<char>) -> Result<nat, Seq<char>> {
    let t = strip_hex_prefixes(text);
    match hex_refusal(t) {
        Some(reason) => Err("failed to parse hwnd '"@ + text + "': "@ + reason),
        None => Ok(digits_value(hex_digits_part(t), 16)),
    }
}

proof fn lemma_first_non_hex(d: Seq<char>, k: int)
    requires
        0 <= k <= d.len(),
        forall|i: int| 0 <= i < k ==> #[trigger] digit_value(d[i], 16) is Some,
    ensures
        first_non_hex(d) == k + first_non_hex(d.subrange(k, d.len() as int)),
    decreases k,
{
    if k > 0 {
        assert(d.drop_first().subrange(k - 1, d.drop_first().len() as int) =~= d.subrange(k, d.len() as int));
        lemma_first_non_hex(d.drop_first(), k - 1);
    } else {
        assert(d.subrange(0, d.len() as int) =~= d);
    }
}

/// Reads the target's window handle: hexadecimal after any leading `0x`.
pub fn parse_agent_hwnd(text: &str) -> (r: Result<usize, String>)
    ensures
        match agent_hwnd(text@) {
            Ok(v) => r == Ok::<usize, String>(v as usize),
            Err(m) => r matches Err(e) && e@ == m,
        },
{
    let chars = chars_of(text);
    let mut start: usize = 0;
    proof {
        assert(chars@.subrange(0, chars@.len() as int) =~= chars@);
    }
    while chars.len() - start > 1 && chars[start] == '0' && chars[start + 1] == 'x'
        invariant
            start <= chars.len(),
            chars@ == text@,
            strip_hex_prefixes(text@) == strip_hex_prefixes(chars@.subrange(start as int, chars@.len() as int)),
        decreases chars.len() - start,
    {
        proof {
            let rest = chars@.subrange(start as int, chars@.len() as int);
            assert(rest.subrange(2, rest.len() as int) =~= chars@.subrange(start + 2, chars@.len() as int));
        }
        start = start + 2;
    }
    let ghost t = chars@.subrange(start as int, chars@.len() as int);
    proof {
        assert(strip_hex_prefixes(t) == t);
    }
    let digits_start: usize = if chars.len() - start > 1 && chars[start] == '+' {
        start + 1
    } else {
        start
    };
    let mut d: Vec<char> = Vec::new();
    let mut i: usize = digits_start;
    while i < chars.len()
        invariant
            digits_start <= i <= chars.len(),
            d@ == chars@.subrange(digits_start as int, i as int),
        decreases chars.len() - i,
    {
        d.push(chars[i]);
        proof {
            assert(d@ =~= chars@.subrange(digits_start as int, i + 1));
        }
        i = i + 1;
    }
    proof {
        assert(d@ =~= hex_digits_part(t));
    }
    let reason: &str = if start == chars.len() {
        "cannot parse integer from empty string"
    } else {
        let mut j: usize = 0;
        while j < d.len() && crate::text::digit_value_of(d[j], 16).is_some()
            invariant
                j <= d.len(),
                forall|k: int| 0 <= k < j ==> #[trigger] digit_value(d@[k], 16) is Some,
            decreases d.len() - j,
        {
            j = j + 1;
        }
        let mut prefix: Vec<char> = Vec::new();
        let mut k: usize = 0;
        while k < j
            invariant
                k <= j <= d.len(),
                prefix@ == d@.subrange(0, k as int),
            decreases j - k,
        {
            prefix.push(d[k]);
            proof {
                assert(prefix@ =~= d@.subrange(0, k + 1));
            }
            k = k + 1;
        }
        proof {
            lemma_first_non_hex(d@, j as int);
            if j < d.len() {
                assert(first_non_hex(d@.subrange(j as int, d@.len() as int)) == 0);
            } else {
                assert(d@.subrange(j as int, d@.len() as int) =~= Seq::<char>::empty());
            }
            assert(first_non_hex(d@) == j);
            assert(all_digits(prefix@, 16));
        }
        let bound: u128 = usize::MAX as u128 + 1;
        if j == 0 {
            proof {
                assert(prefix@ =~= Seq::<char>::empty());
            }
            "invalid digit found in string"
        } else {
            proof {
                assert(prefix@.len() > 0 && prefix@[0] != '+') by {
                    assert(digit_value(prefix@[0], 16) is Some);
                }
                assert(prefix@.subrange(0, prefix@.len() as int) =~= prefix@);
            }
            match parse_unsigned(&prefix, 16, bound) {
                Some(v) => {
                    if j == d.len() {
                        proof {
                            assert(prefix@ =~= d@);
                        }
                        return Ok(v as usize);
                    }
                    "invalid digit found in string"
                },
                None => "number too large to fit in target type",
            }
        }
    };
    let mut m: Vec<char> = Vec::new();
    push_str(&mut m, "failed to parse hwnd '");
    push_str(&mut m, text);
    push_str(&mut m, "': ");
    push_str(&mut m, reason);
    Err(string_from_chars(&m))
}

// ----------------------------------------------------------------------------------------------
// Pipe frames.
/// A pipe frame: the payload's length as four little-endian bytes, then the payload.
pub fn encode_frame(payload: &Vec<u8>) -> (r: Vec<u8>)
    requires
        payload.len() <= u32::MAX,
    ensures
        r@.len() == payload@.len() + 4,
        le_value(r@.subrange(0, 4)) == payload@.len(),
        r@.subrange(4, r@.len() as int) == payload@,
{
    let n = payload.len() as u32;
    let mut out: Vec<u8> = Vec::new();
    out.push((n % 256) as u8);
    out.push(((n / 256) % 256) as u8);
    out.push(((n / 65536) % 256) as u8);
    out.push((n / 16777216) as u8);
    proof {
        let h = out@;
        crate::memory_schema::lemma_le_value4(h);
        assert(le_value(h) == n) by (nonlinear_arith)
            requires
                h.len() == 4,
                h[0] == n % 256,
                h[1] == (n / 256) % 256,
                h[2] == (n / 65536) % 256,
                h[3] == n / 16777216,
                le_value(h) == h[0] + 256 * (h[1] + 256 * (h[2] + 256 * h[3] as int)),
        ;
    }
    let ghost header = out@;
    let mut i: usize = 0;
    while i < payload.len()
        invariant
            i <= payload.len(),
            out@ == header + payload@.subrange(0, i as int),
            header.len() == 4,
        decreases payload.len() - i,
    {
        out.push(payload[i]);
        proof {
            assert(out@ =~= header + payload@.subrange(0, i + 1));
        }
        i = i + 1;
    }
    proof {
        assert(out@.subrange(0, 4) =~= header);
        assert(out@.subrange(4, out@.len() as int) =~= payload@);
    }
    out
}

/// The payload length a frame header announces.
pub fn frame_payload_length(header: &Vec<u8>) -> (r: u32)
    requires
        header.len() == 4,
    ensures
        r as nat == le_value(header@),
{
    crate::memory_schema::decode_u32_le(header)
}

// ----------------------------------------------------------------------------------------------
// Injected input.
/// One step of carrying out an injected action: post a key message to the window, or wait.
#[derive(Debug, Clone, Copy, PartialEq, Eq, Structural)]
pub enum KeyStep {
    Post { vk: u16, key_up: bool },
    Wait { ms: u64 },
}

/// How long a turn holds its arrow key: a hundredth of the angle in milli-degrees, between
/// 20 and 300 ms.
pub open spec fn turn_hold_ms(delta: i32) -> u64 {
    let magnitude: int = if delta >= 0 { delta as int } else { -delta };
    let h = magnitude / 100;
    (if h < 20 { 20 } else if h > 300 { 300 } else { h }) as u64
}

/// A key held for a while: down, wait, up.
pub open spec fn held_key(vk: u16, ms: u64) -> Seq<KeyStep> {
    seq![KeyStep::Post { vk, key_up: false }, KeyStep::Wait { ms }, KeyStep::Post { vk, key_up: true }]
}

/// A key tapped: down, up.
pub open spec fn tapped_key(vk: u16) -> Seq<KeyStep> {
    seq![KeyStep::Post { vk, key_up: false }, KeyStep::Post { vk, key_up: true }]
}

/// The key steps of an injected action: W held to move, D held to strafe right, an arrow held
/// to turn (right for a positive angle), E or space tapped, and W, A, S, D released to stop.
pub open spec fn key_steps(action: InjectedInputAction) -> Seq<KeyStep> {
    match action {
        InjectedInputAction::MoveForward { duration_ms } => held_key(0x57, duration_ms),
        InjectedInputAction::StopMotion => seq![
            KeyStep::Post { vk: 0x57, key_up: true },
            KeyStep::Post { vk: 0x41, key_up: true },
            KeyStep::Post { vk: 0x53, key_up: true },
            KeyStep::Post { vk: 0x44, key_up: true },
        ],
        InjectedInputAction::Turn { delta_yaw_milli_degrees } => held_key(
            if delta_yaw_milli_degrees >= 0 { 0x27 } else { 0x25 },
            turn_hold_ms(delta_yaw_milli_degrees),
        ),
        InjectedInputAction::Interact => tapped_key(0x45),
        InjectedInputAction::Jump => tapped_key(0x20),
        InjectedInputAction::StrafeRight { duration_ms } => held_key(0x44, duration_ms),
    }
}

/// What the agent reports after carrying out an injected action.
pub open spec fn input_detail(action: InjectedInputAction) -> Seq<char> {
    match action {
        InjectedInputAction::MoveForward { duration_ms } => "posted move forward for "@ + decimal_digits(
            duration_ms as nat,
        ) + " ms"@,
        InjectedInputAction::StopMotion => "posted stop motion"@,
        InjectedInputAction::Turn { delta_yaw_milli_degrees } => "posted turn for "@ + decimal_digits(
            turn_hold_ms(delta_yaw_milli_degrees) as nat,
        ) + " ms"@,
        InjectedInputAction::Interact => "posted interact"@,
        InjectedInputAction::Jump => "posted jump"@,
        InjectedInputAction::StrafeRight { duration_ms } => "posted strafe right for "@ + decimal_digits(
            duration_ms as nat,
        ) + " ms"@,
    }
}

fn held(vk: u16, ms: u64) -> (r: Vec<KeyStep>)
    ensures
        r@ == held_key(vk, ms),
{
    let mut v: Vec<KeyStep> = Vec::new();
    v.push(KeyStep::Post { vk, key_up: false });
    v.push(KeyStep::Wait { ms });
    v.push(KeyStep::Post { vk, key_up: true });
    proof {
        assert(v@ =~= held_key(vk, ms));
    }
    v
}

fn tapped(vk: u16) -> (r: Vec<KeyStep>)
    ensures
        r@ == tapped_key(vk),
{
    let mut v: Vec<KeyStep> = Vec::new();
    v.push(KeyStep::Post { vk, key_up: false });
    v.push(KeyStep::Post { vk, key_up: true });
    proof {
        assert(v@ =~= tapped_key(vk));
    }
    v
}

/// `before` + the number + `after`.
fn with_number(before: &str, n: u64, after: &str) -> (r: String)
    ensures
        r@ == before@ + decimal_digits(n as nat) + after@,
{
    let mut m: Vec<char> = Vec::new();
    push_str(&mut m, before);
    let digits = u64_to_decimal(n);
    push_all(&mut m, &digits);
    push_str(&mut m, after);
    string_from_chars(&m)
}

/// The key steps that carry out an injected action, and the detail reported once done.
pub fn injected_key_plan(action: InjectedInputAction) -> (r: (Vec<KeyStep>, String))
    ensures
        r.0@ == key_steps(action),
        r.1@ == input_detail(action),
{
    match action {
        InjectedInputAction::MoveForward { duration_ms } => (
            held(0x57, duration_ms),
            with_number("posted move forward for ", duration_ms, " ms"),
        ),
        InjectedInputAction::StopMotion => {
            let mut v: Vec<KeyStep> = Vec::new();
            v.push(KeyStep::Post { vk: 0x57, key_up: true });
            v.push(KeyStep::Post { vk: 0x41, key_up: true });
            v.push(KeyStep::Post { vk: 0x53, key_up: true });
            v.push(KeyStep::Post { vk: 0x44, key_up: true });
            proof {
                assert(v@ =~= key_steps(action));
            }
            (v, string_of("posted stop motion"))
        },
        InjectedInputAction::Turn { delta_yaw_milli_degrees } => {
            let delta = delta_yaw_milli_degrees as i64;
            let magnitude: u64 = if delta >= 0 { delta as u64 } else { (-delta) as u64 };
            let h = magnitude / 100;
            let hold: u64 = if h < 20 { 20 } else if h > 300 { 300 } else { h };
            let vk: u16 = if delta_yaw_milli_degrees >= 0 { 0x27 } else { 0x25 };
            (held(vk, hold), with_number("posted turn for ", hold, " ms"))
        },
        InjectedInputAction::Interact => (tapped(0x45), string_of("posted interact")),
        InjectedInputAction::Jump => (tapped(0x20), string_of("posted jump")),
        InjectedInputAction::StrafeRight { duration_ms } => (
            held(0x44, duration_ms),
            with_number("posted strafe right for ", duration_ms, " ms"),
        ),
    }
}

/// The window an injected action goes to: the target's handle, which must be given.
pub fn injected_input_window(target: &AdvancedTargetRef) -> (r: Result<usize, String>)
    ensures
        match target.hwnd {
            None => r matches Err(m) && m@ == "target hwnd missing for injected input"@,
            Some(h) => match agent_hwnd(h@) {
                Ok(v) => r == Ok::<usize, String>(v as usize),
                Err(m) => r matches Err(e) && e@ == m,
            },
        },
{
    match &target.hwnd {
        None => Err(string_of("target hwnd missing for injected input")),
        Some(h) => parse_agent_hwnd(h.as_str()),
    }
}

} // verus!
