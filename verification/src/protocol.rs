//! Advanced-backend data model: backend identities, capabilities, lifecycle states,
//! host/agent protocol envelopes, attachment records and error payloads.
use vstd::prelude::*;

use crate::types::{clone_opt_string, WindowSelector};

verus! {

/// Backend that executes a profile.
#[derive(Debug, Clone, Copy, PartialEq, Eq, Structural)]
pub enum AdvancedProfileBackend {
    Auto,
    Foreground,
    Message,
    Inject,
}

/// Stable name of a profile backend.
pub open spec fn backend_name(b: AdvancedProfileBackend) -> Seq<char> {
    match b {
        AdvancedProfileBackend::Auto => "auto"@,
        AdvancedProfileBackend::Foreground => "foreground"@,
        AdvancedProfileBackend::Message => "message"@,
        AdvancedProfileBackend::Inject => "inject"@,
    }
}

impl AdvancedProfileBackend {
    /// Stable snake-case name.
    pub fn as_str(self) -> (r: &'static str)
        ensures
            r@ == backend_name(self),
    {
        match self {
            AdvancedProfileBackend::Auto => "auto",
            AdvancedProfileBackend::Foreground => "foreground",
            AdvancedProfileBackend::Message => "message",
            AdvancedProfileBackend::Inject => "inject",
        }
    }
}

/// Frontend that requested an operation.
#[derive(Debug, Clone, Copy, PartialEq, Eq, Structural)]
pub enum AdvancedFrontend {
    Cli,
    Mcp,
}

/// Delivery channel of profile mouse clicks.
#[derive(Debug, Clone, Copy, PartialEq, Eq, Structural)]
pub enum MouseInputMode {
    Foreground,
    Message,
}

/// Why a backend was selected.
#[derive(Debug, Clone, Copy, PartialEq, Eq, Structural)]
pub enum AdvancedBackendSelectionReason {
    AutoDefaultForeground,
    AutoFromMouseMessageAction,
    ExplicitProfileBackend,
}

/// How the advanced backend was opted into.
#[derive(Debug, Clone, Copy, PartialEq, Eq, Structural)]
pub enum AdvancedBackendOptInMode {
    AutoDetectFromProfile,
    ExplicitProfileOnly,
}

/// Backend chosen for a profile and frontend.
#[derive(Debug, Clone, Copy, PartialEq, Eq, Structural)]
pub struct AdvancedBackendSelection {
    pub frontend: AdvancedFrontend,
    pub requested: AdvancedProfileBackend,
    pub resolved: AdvancedProfileBackend,
    pub reason: AdvancedBackendSelectionReason,
    pub opt_in_mode: AdvancedBackendOptInMode,
    pub advanced_backend_requested: bool,
}

/// Stability class of a backend.
#[derive(Debug, Clone, Copy, PartialEq, Eq, Structural)]
pub enum AdvancedBackendStability {
    Stable,
    Experimental,
    Fragile,
}

/// What a backend can do.
#[derive(Debug, Clone, Copy, PartialEq, Eq, Default, Structural)]
pub struct AdvancedBackendCapabilities {
    pub foreground_input: bool,
    pub message_input: bool,
    pub uia_input: bool,
    pub injected_input: bool,
    pub render_observation: bool,
    pub memory_observation: bool,
    pub semantic_navigation: bool,
    pub entity_tracking: bool,
    pub internal_interaction: bool,
}

/// What a profile or workflow needs from a backend.
#[derive(Debug, Clone, Copy, PartialEq, Eq, Default, Structural)]
pub struct AdvancedCapabilityRequirements {
    pub foreground_input: bool,
    pub message_input: bool,
    pub uia_input: bool,
    pub injected_input: bool,
    pub render_observation: bool,
    pub memory_observation: bool,
    pub semantic_navigation: bool,
    pub entity_tracking: bool,
    pub internal_interaction: bool,
}

/// Capabilities with every flag off.
pub open spec fn no_capabilities() -> AdvancedBackendCapabilities {
    AdvancedBackendCapabilities {
        foreground_input: false,
        message_input: false,
        uia_input: false,
        injected_input: false,
        render_observation: false,
        memory_observation: false,
        semantic_navigation: false,
        entity_tracking: false,
        internal_interaction: false,
    }
}

/// Requirements with every flag off.
pub open spec fn no_requirements() -> AdvancedCapabilityRequirements {
    AdvancedCapabilityRequirements {
        foreground_input: false,
        message_input: false,
        uia_input: false,
        injected_input: false,
        render_observation: false,
        memory_observation: false,
        semantic_navigation: false,
        entity_tracking: false,
        internal_interaction: false,
    }
}

/// Every required capability is offered.
pub open spec fn capabilities_support(
    c: AdvancedBackendCapabilities,
    r: AdvancedCapabilityRequirements,
) -> bool {
    &&& r.foreground_input ==> c.foreground_input
    &&& r.message_input ==> c.message_input
    &&& r.uia_input ==> c.uia_input
    &&& r.injected_input ==> c.injected_input
    &&& r.render_observation ==> c.render_observation
    &&& r.memory_observation ==> c.memory_observation
    &&& r.semantic_navigation ==> c.semantic_navigation
    &&& r.entity_tracking ==> c.entity_tracking
    &&& r.internal_interaction ==> c.internal_interaction
}

/// 1 when a flag is both required and offered, else 0.
#[verifier::opaque]
pub open spec fn both(a: bool, b: bool) -> nat {
    if a && b {
        1
    } else {
        0
    }
}

/// Number of required capabilities that are offered.
pub open spec fn capability_score_spec(
    c: AdvancedBackendCapabilities,
    r: AdvancedCapabilityRequirements,
) -> nat {
    both(r.foreground_input, c.foreground_input) + both(r.message_input, c.message_input) + both(
        r.uia_input,
        c.uia_input,
    ) + both(r.injected_input, c.injected_input) + both(
        r.render_observation,
        c.render_observation,
    ) + both(r.memory_observation, c.memory_observation) + both(
        r.semantic_navigation,
        c.semantic_navigation,
    ) + both(r.entity_tracking, c.entity_tracking) + both(
        r.internal_interaction,
        c.internal_interaction,
    )
}

fn count3(a1: bool, b1: bool, a2: bool, b2: bool, a3: bool, b3: bool) -> (r: u32)
    ensures
        r as nat == both(a1, b1) + both(a2, b2) + both(a3, b3),
        r <= 3,
{
    reveal(both);
    let x: u32 = if a1 && b1 {
        1
    } else {
        0
    };
    let y: u32 = if a2 && b2 {
        1
    } else {
        0
    };
    let z: u32 = if a3 && b3 {
        1
    } else {
        0
    };
    x + y + z
}

impl AdvancedBackendCapabilities {
    /// Whether every required capability is offered.
    pub fn supports(&self, requirements: &AdvancedCapabilityRequirements) -> (r: bool)
        ensures
            r == capabilities_support(*self, *requirements),
    {
        (!requirements.foreground_input || self.foreground_input) && (!requirements.message_input
            || self.message_input) && (!requirements.uia_input || self.uia_input) && (
        !requirements.injected_input || self.injected_input) && (!requirements.render_observation
            || self.render_observation) && (!requirements.memory_observation
            || self.memory_observation) && (!requirements.semantic_navigation
            || self.semantic_navigation) && (!requirements.entity_tracking || self.entity_tracking)
            && (!requirements.internal_interaction || self.internal_interaction)
    }

    /// Number of required capabilities that a backend offers.
    #[verifier::spinoff_prover]
    #[verifier::rlimit(30)]
    pub fn score_against(&self, requirements: &AdvancedCapabilityRequirements) -> (r: u32)
        ensures
            r as nat == capability_score_spec(*self, *requirements),
            r <= 9,
    {
        let q = requirements;
        let x = count3(
            q.foreground_input,
            self.foreground_input,
            q.message_input,
            self.message_input,
            q.uia_input,
            self.uia_input,
        );
        let y = count3(
            q.injected_input,
            self.injected_input,
            q.render_observation,
            self.render_observation,
            q.memory_observation,
            self.memory_observation,
        );
        let z = count3(
            q.semantic_navigation,
            self.semantic_navigation,
            q.entity_tracking,
            self.entity_tracking,
            q.internal_interaction,
            self.internal_interaction,
        );
        x + y + z
    }

    /// Capabilities with every flag off.
    pub fn none() -> (r: Self)
        ensures
            r == no_capabilities(),
    {
        AdvancedBackendCapabilities {
            foreground_input: false,
            message_input: false,
            uia_input: false,
            injected_input: false,
            render_observation: false,
            memory_observation: false,
            semantic_navigation: false,
            entity_tracking: false,
            internal_interaction: false,
        }
    }
}

impl AdvancedCapabilityRequirements {
    /// Requirements with every flag off.
    pub fn none() -> (r: Self)
        ensures
            r == no_requirements(),
    {
        AdvancedCapabilityRequirements {
            foreground_input: false,
            message_input: false,
            uia_input: false,
            injected_input: false,
            render_observation: false,
            memory_observation: false,
            semantic_navigation: false,
            entity_tracking: false,
            internal_interaction: false,
        }
    }
}

/// A backend's advertisement of itself.
#[derive(Debug, PartialEq, Eq)]
pub struct AdvancedBackendDescriptor {
    pub backend: AdvancedProfileBackend,
    pub stability: AdvancedBackendStability,
    pub capabilities: AdvancedBackendCapabilities,
    pub replaceable: bool,
    pub app_pack_specific: bool,
    pub notes: Vec<String>,
}

/// Backends offered to a frontend.
#[derive(Debug, PartialEq, Eq)]
pub struct AdvancedCapabilityCatalog {
    pub frontends: Vec<AdvancedFrontend>,
    pub backends: Vec<AdvancedBackendDescriptor>,
}

/// How one backend measures against requirements.
#[derive(Debug, Clone, Copy, PartialEq, Eq, Structural)]
pub struct AdvancedCapabilityMatch {
    pub backend: AdvancedProfileBackend,
    pub satisfies_requirements: bool,
    pub score: u32,
}

/// Outcome of capability-based backend selection.
#[derive(Debug, PartialEq, Eq)]
pub struct AdvancedCapabilitySelection {
    pub requirements: AdvancedCapabilityRequirements,
    pub matches: Vec<AdvancedCapabilityMatch>,
    pub selected_backend: Option<AdvancedProfileBackend>,
}

/// Lifecycle of an advanced backend session.
#[derive(Debug, Clone, Copy, PartialEq, Eq, Structural)]
pub enum AdvancedBackendLifecycleState {
    Discovered,
    Attachable,
    Attached,
    Degraded,
    Detached,
}

/// The lifecycle transitions that shared code allows: staying put, and
/// discovered -> attachable | detached, attachable -> attached | discovered | detached,
/// attached -> degraded | detached, degraded -> attached | detached, detached -> discovered.
pub open spec fn lifecycle_allows(
    from: AdvancedBackendLifecycleState,
    to: AdvancedBackendLifecycleState,
) -> bool {
    from == to || match (from, to) {
        (AdvancedBackendLifecycleState::Discovered, AdvancedBackendLifecycleState::Attachable) => true,
        (AdvancedBackendLifecycleState::Discovered, AdvancedBackendLifecycleState::Detached) => true,
        (AdvancedBackendLifecycleState::Attachable, AdvancedBackendLifecycleState::Attached) => true,
        (AdvancedBackendLifecycleState::Attachable, AdvancedBackendLifecycleState::Discovered) => true,
        (AdvancedBackendLifecycleState::Attachable, AdvancedBackendLifecycleState::Detached) => true,
        (AdvancedBackendLifecycleState::Attached, AdvancedBackendLifecycleState::Degraded) => true,
        (AdvancedBackendLifecycleState::Attached, AdvancedBackendLifecycleState::Detached) => true,
        (AdvancedBackendLifecycleState::Degraded, AdvancedBackendLifecycleState::Attached) => true,
        (AdvancedBackendLifecycleState::Degraded, AdvancedBackendLifecycleState::Detached) => true,
        (AdvancedBackendLifecycleState::Detached, AdvancedBackendLifecycleState::Discovered) => true,
        _ => false,
    }
}

impl AdvancedBackendLifecycleState {
    /// Whether shared code allows moving from this state to `next`.
    pub fn can_transition_to(self, next: AdvancedBackendLifecycleState) -> (r: bool)
        ensures
            r == lifecycle_allows(self, next),
    {
        if self == next {
            return true;
        }
        match (self, next) {
            (AdvancedBackendLifecycleState::Discovered, AdvancedBackendLifecycleState::Attachable) => true,
            (AdvancedBackendLifecycleState::Discovered, AdvancedBackendLifecycleState::Detached) => true,
            (AdvancedBackendLifecycleState::Attachable, AdvancedBackendLifecycleState::Attached) => true,
            (AdvancedBackendLifecycleState::Attachable, AdvancedBackendLifecycleState::Discovered) => true,
            (AdvancedBackendLifecycleState::Attachable, AdvancedBackendLifecycleState::Detached) => true,
            (AdvancedBackendLifecycleState::Attached, AdvancedBackendLifecycleState::Degraded) => true,
            (AdvancedBackendLifecycleState::Attached, AdvancedBackendLifecycleState::Detached) => true,
            (AdvancedBackendLifecycleState::Degraded, AdvancedBackendLifecycleState::Attached) => true,
            (AdvancedBackendLifecycleState::Degraded, AdvancedBackendLifecycleState::Detached) => true,
            (AdvancedBackendLifecycleState::Detached, AdvancedBackendLifecycleState::Discovered) => true,
            _ => false,
        }
    }
}

/// Identity of the process window an advanced backend works on.
#[derive(Debug, PartialEq, Eq)]
pub struct AdvancedTargetRef {
    pub hwnd: Option<String>,
    pub pid: Option<u32>,
    pub exe: Option<String>,
    pub window_class: Option<String>,
    pub title_hint: Option<String>,
}

impl Clone for AdvancedTargetRef {
    fn clone(&self) -> (r: Self)
        ensures
            r == *self,
    {
        AdvancedTargetRef {
            hwnd: clone_opt_string(&self.hwnd),
            pid: self.pid,
            exe: clone_opt_string(&self.exe),
            window_class: clone_opt_string(&self.window_class),
            title_hint: clone_opt_string(&self.title_hint),
        }
    }
}

/// Kind of IPC channel between host and agent.
#[derive(Debug, Clone, Copy, PartialEq, Eq, Structural)]
pub enum AdvancedIpcTransportKind {
    InProcess,
    NamedPipe,
    SharedMemory,
}

/// Description of the host/agent channel.
#[derive(Debug, PartialEq, Eq)]
pub struct AdvancedIpcTransportDescriptor {
    pub kind: AdvancedIpcTransportKind,
    pub supports_commands: bool,
    pub supports_events: bool,
    pub supports_binary_payloads: bool,
    pub ordered_delivery: bool,
    pub notes: Vec<String>,
}

/// Role of a component inside the injected agent.
#[derive(Debug, Clone, Copy, PartialEq, Eq, Structural)]
pub enum AdvancedAgentRole {
    InputShim,
    RenderObserver,
    MemoryObserver,
    SemanticAdapter,
}

/// Components of the injected agent.
#[derive(Debug, PartialEq, Eq)]
pub struct AdvancedAgentComposition {
    pub roles: Vec<AdvancedAgentRole>,
}

/// Handshake payload of an advanced backend.
#[derive(Debug, PartialEq, Eq)]
pub struct AdvancedBackendHello {
    pub protocol_version: u32,
    pub backend: AdvancedProfileBackend,
    pub lifecycle_state: AdvancedBackendLifecycleState,
    pub capabilities: AdvancedBackendCapabilities,
    pub target: AdvancedTargetRef,
    pub transport: AdvancedIpcTransportDescriptor,
    pub composition: AdvancedAgentComposition,
}

/// Two transport descriptors hold the same facts.
pub open spec fn transport_same(a: AdvancedIpcTransportDescriptor, b: AdvancedIpcTransportDescriptor) -> bool {
    &&& a.kind == b.kind
    &&& a.supports_commands == b.supports_commands
    &&& a.supports_events == b.supports_events
    &&& a.supports_binary_payloads == b.supports_binary_payloads
    &&& a.ordered_delivery == b.ordered_delivery
    &&& a.notes@ == b.notes@
}

/// Two handshake payloads hold the same facts.
pub open spec fn hello_same(a: AdvancedBackendHello, b: AdvancedBackendHello) -> bool {
    &&& a.protocol_version == b.protocol_version
    &&& a.backend == b.backend
    &&& a.lifecycle_state == b.lifecycle_state
    &&& a.capabilities == b.capabilities
    &&& a.target == b.target
    &&& transport_same(a.transport, b.transport)
    &&& a.composition.roles@ == b.composition.roles@
}

impl Clone for AdvancedIpcTransportDescriptor {
    fn clone(&self) -> (r: Self)
        ensures
            transport_same(r, *self),
    {
        AdvancedIpcTransportDescriptor {
            kind: self.kind,
            supports_commands: self.supports_commands,
            supports_events: self.supports_events,
            supports_binary_payloads: self.supports_binary_payloads,
            ordered_delivery: self.ordered_delivery,
            notes: clone_strings(&self.notes),
        }
    }
}

impl Clone for AdvancedAgentComposition {
    fn clone(&self) -> (r: Self)
        ensures
            r.roles@ == self.roles@,
    {
        AdvancedAgentComposition { roles: self.roles.clone() }
    }
}

impl Clone for AdvancedBackendHello {
    fn clone(&self) -> (r: Self)
        ensures
            hello_same(r, *self),
    {
        AdvancedBackendHello {
            protocol_version: self.protocol_version,
            backend: self.backend,
            lifecycle_state: self.lifecycle_state,
            capabilities: self.capabilities,
            target: self.target.clone(),
            transport: self.transport.clone(),
            composition: self.composition.clone(),
        }
    }
}

/// Identifier of a host/agent session.
#[derive(Debug, Clone, Copy, PartialEq, Eq, Structural)]
pub struct AdvancedSessionId(pub u64);

/// Sequence number of a protocol message.
#[derive(Debug, Clone, Copy, PartialEq, Eq, Structural)]
pub struct AdvancedSequenceNumber(pub u64);

/// Semantic input executed inside the target by the injected agent.
#[derive(Debug, Clone, Copy, PartialEq, Eq, Structural)]
pub enum InjectedInputAction {
    MoveForward { duration_ms: u64 },
    StrafeRight { duration_ms: u64 },
    Turn { delta_yaw_milli_degrees: i32 },
    Interact,
    Jump,
    StopMotion,
}

/// Command from host to agent.
#[derive(Debug, PartialEq, Eq)]
pub enum AdvancedHostCommand {
    Handshake { requested_backend: AdvancedProfileBackend, target: AdvancedTargetRef },
    GetCapabilities,
    StartProfile { profile_id: String },
    StopProfile { profile_id: String },
    SubscribeEvents,
    FetchObservations { max_items: u32 },
    ExecuteInput { action: InjectedInputAction },
    Ping,
}

/// A command with its session and sequence number.
#[derive(Debug, PartialEq, Eq)]
pub struct AdvancedHostCommandEnvelope {
    pub session_id: AdvancedSessionId,
    pub sequence: AdvancedSequenceNumber,
    pub command: AdvancedHostCommand,
}

/// Status of an acknowledged command.
#[derive(Debug, Clone, Copy, PartialEq, Eq, Structural)]
pub enum AdvancedCommandAckStatus {
    Pending,
    Acked,
    Completed,
    Rejected,
}

/// Reference to a binary payload carried next to a protocol message.
#[derive(Debug, Clone, PartialEq, Eq)]
pub struct AdvancedBinaryPayloadRef {
    pub payload_id: String,
    pub encoding: AdvancedPayloadEncoding,
    pub byte_len: u64,
    pub transport: AdvancedIpcTransportKind,
    pub description: String,
}

/// Encoding of a binary payload.
#[derive(Debug, Clone, Copy, PartialEq, Eq, Structural)]
pub enum AdvancedPayloadEncoding {
    RawBytes,
    Png,
    Json,
}

/// One observation reported by an agent.
#[derive(Debug, PartialEq, Eq)]
pub struct AdvancedObservationUpdate {
    pub frame_id: u64,
    pub source: String,
    pub detail: String,
    pub timestamp_ms: Option<u64>,
    pub freshness_ms: Option<u64>,
    pub payload: Option<AdvancedBinaryPayloadRef>,
}

/// Response from agent to host.
#[derive(Debug, PartialEq, Eq)]
pub enum AdvancedHostResponse {
    Hello { hello: AdvancedBackendHello },
    Capabilities {
        capabilities: AdvancedBackendCapabilities,
        composition: AdvancedAgentComposition,
    },
    Ack { detail: String },
    Observations { updates: Vec<AdvancedObservationUpdate> },
    InputOutcome { status: AdvancedCommandAckStatus, detail: String },
    Pong { detail: String },
    RobloxObservations { updates: Vec<AdvancedObservationUpdate>, snapshots: Vec<RobloxObservationSnapshot> },
}

/// An object an injected Roblox agent located, in millimeters.
#[derive(Debug, PartialEq, Eq)]
pub struct RobloxObservedObject {
    pub id: String,
    pub label: String,
    pub kind: String,
    pub interactable: bool,
    pub position_millimeters: [i32; 3],
}

/// What an injected Roblox agent read from the client's memory for one frame.
#[derive(Debug, PartialEq, Eq)]
pub struct RobloxObservationSnapshot {
    pub frame_id: u64,
    pub source: String,
    pub detail: String,
    pub timestamp_ms: u64,
    pub freshness_ms: u64,
    pub player_position_millimeters: Option<[i32; 3]>,
    pub player_velocity_millimeters: Option<[i32; 3]>,
    pub camera_yaw_milli_degrees: Option<i32>,
    pub camera_pitch_milli_degrees: Option<i32>,
    pub prompt_visible: Option<bool>,
    pub prompt_distance_millimeters: Option<u32>,
    pub objects: Vec<RobloxObservedObject>,
}

/// A response with its session, its sequence and the command it answers.
#[derive(Debug, PartialEq, Eq)]
pub struct AdvancedHostResponseEnvelope {
    pub session_id: AdvancedSessionId,
    pub sequence: AdvancedSequenceNumber,
    pub response_to: AdvancedSequenceNumber,
    pub response: AdvancedHostResponse,
}

/// Event pushed by an agent.
#[derive(Debug, PartialEq, Eq)]
pub enum AdvancedAgentEvent {
    Hello { hello: AdvancedBackendHello },
    Status { state: AdvancedBackendLifecycleState, detail: String },
    ObservationTick { update: AdvancedObservationUpdate },
}

/// An event with its session and sequence number.
#[derive(Debug, PartialEq, Eq)]
pub struct AdvancedAgentEventEnvelope {
    pub session_id: AdvancedSessionId,
    pub sequence: AdvancedSequenceNumber,
    pub event: AdvancedAgentEvent,
}

/// Kinds of structured advanced-backend failure.
#[derive(Debug, Clone, Copy, PartialEq, Eq, Structural)]
pub enum AdvancedBackendErrorKind {
    DiscoveryFailed,
    NoAttachableTarget,
    AmbiguousAttachableTarget,
    SessionMismatch,
    SequenceOutOfOrder,
    InvalidStateTransition,
    HandshakeMismatch,
    AttachNotImplemented,
}

/// Structured advanced-backend failure.
#[derive(Debug, PartialEq, Eq)]
pub struct AdvancedBackendError {
    pub kind: AdvancedBackendErrorKind,
    pub backend: AdvancedProfileBackend,
    pub detail: String,
    pub lifecycle_state: Option<AdvancedBackendLifecycleState>,
}

/// How a profile will be executed.
#[derive(Debug, PartialEq, Eq)]
pub struct AdvancedProfileExecutionPlan {
    pub profile_id: String,
    pub backend: AdvancedProfileBackend,
    pub target: AdvancedTargetRef,
}

/// Architecture of a target process.
#[derive(Debug, Clone, Copy, PartialEq, Eq, Structural)]
pub enum AdvancedProcessArchitecture {
    X86,
    X64,
    Arm64,
    Unknown,
}

/// Integrity level of a target process.
#[derive(Debug, Clone, Copy, PartialEq, Eq, Structural)]
pub enum AdvancedIntegrityLevel {
    Untrusted,
    Low,
    Medium,
    High,
    System,
    Protected,
    Unknown,
}

/// Process facts gathered about an attachable target.
#[derive(Debug, PartialEq, Eq)]
pub struct AdvancedProcessMetadata {
    pub architecture: AdvancedProcessArchitecture,
    pub integrity_level: AdvancedIntegrityLevel,
    pub loaded_modules: Vec<String>,
    pub executable_path: Option<String>,
    pub likely_rendering_window: Option<String>,
}

/// A window an advanced backend could attach to.
#[derive(Debug, PartialEq, Eq)]
pub struct AdvancedAttachableTarget {
    pub target: AdvancedTargetRef,
    pub lifecycle_state: AdvancedBackendLifecycleState,
    pub title: String,
    pub class_name: String,
    pub exe: Option<String>,
    pub visible: bool,
    pub minimized: bool,
    pub foreground: bool,
    pub process: AdvancedProcessMetadata,
    pub notes: Vec<String>,
}

/// Copies a list of strings.
pub fn clone_strings(v: &Vec<String>) -> (r: Vec<String>)
    ensures
        r@ == v@,
{
    let mut out: Vec<String> = Vec::new();
    let mut i: usize = 0;
    while i < v.len()
        invariant
            i <= v.len(),
            out@ == v@.subrange(0, i as int),
        decreases v.len() - i,
    {
        out.push(v[i].clone());
        proof {
            assert(out@ =~= v@.subrange(0, i + 1));
        }
        i = i + 1;
    }
    proof {
        assert(out@ =~= v@);
    }
    out
}

/// Two process records hold the same facts.
pub open spec fn process_same(a: AdvancedProcessMetadata, b: AdvancedProcessMetadata) -> bool {
    &&& a.architecture == b.architecture
    &&& a.integrity_level == b.integrity_level
    &&& a.loaded_modules@ == b.loaded_modules@
    &&& a.executable_path == b.executable_path
    &&& a.likely_rendering_window == b.likely_rendering_window
}

/// Two attachable targets hold the same facts.
pub open spec fn attachable_same(a: AdvancedAttachableTarget, b: AdvancedAttachableTarget) -> bool {
    &&& a.target == b.target
    &&& a.lifecycle_state == b.lifecycle_state
    &&& a.title == b.title
    &&& a.class_name == b.class_name
    &&& a.exe == b.exe
    &&& a.visible == b.visible
    &&& a.minimized == b.minimized
    &&& a.foreground == b.foreground
    &&& process_same(a.process, b.process)
    &&& a.notes@ == b.notes@
}

impl Clone for AdvancedProcessMetadata {
    fn clone(&self) -> (r: Self)
        ensures
            process_same(r, *self),
    {
        AdvancedProcessMetadata {
            architecture: self.architecture,
            integrity_level: self.integrity_level,
            loaded_modules: clone_strings(&self.loaded_modules),
            executable_path: clone_opt_string(&self.executable_path),
            likely_rendering_window: clone_opt_string(&self.likely_rendering_window),
        }
    }
}

impl Clone for AdvancedAttachableTarget {
    fn clone(&self) -> (r: Self)
        ensures
            attachable_same(r, *self),
    {
        AdvancedAttachableTarget {
            target: self.target.clone(),
            lifecycle_state: self.lifecycle_state,
            title: self.title.clone(),
            class_name: self.class_name.clone(),
            exe: clone_opt_string(&self.exe),
            visible: self.visible,
            minimized: self.minimized,
            foreground: self.foreground,
            process: self.process.clone(),
            notes: clone_strings(&self.notes),
        }
    }
}

/// Candidates found for a selector, in deterministic order.
#[derive(Debug, PartialEq, Eq)]
pub struct AdvancedTargetDiscovery {
    pub selector: WindowSelector,
    pub candidate_count: usize,
    pub candidates: Vec<AdvancedAttachableTarget>,
}

/// Whether a changed process may be re-attached.
#[derive(Debug, Clone, Copy, PartialEq, Eq, Structural)]
pub enum AdvancedReattachMode {
    Never,
    IfProcessRestarted,
}

/// Attachment policy.
#[derive(Debug, Clone, Copy, PartialEq, Eq, Structural)]
pub struct AdvancedAttachmentPolicy {
    pub reattach_mode: AdvancedReattachMode,
    pub heartbeat_failure_threshold: u32,
}

/// The default policy: no automatic re-attach, lost after 3 failed heartbeats.
pub open spec fn default_attachment_policy() -> AdvancedAttachmentPolicy {
    AdvancedAttachmentPolicy {
        reattach_mode: AdvancedReattachMode::Never,
        heartbeat_failure_threshold: 3,
    }
}

impl Default for AdvancedAttachmentPolicy {
    fn default() -> (r: Self)
        ensures
            r == default_attachment_policy(),
    {
        AdvancedAttachmentPolicy {
            reattach_mode: AdvancedReattachMode::Never,
            heartbeat_failure_threshold: 3,
        }
    }
}

/// Health of an attachment.
#[derive(Debug, Clone, Copy, PartialEq, Eq, Structural)]
pub enum AdvancedAttachmentHealthStatus {
    Healthy,
    Stale,
    Lost,
}

/// Health record of an attachment.
#[derive(Debug, PartialEq, Eq)]
pub struct AdvancedAttachmentHealth {
    pub status: AdvancedAttachmentHealthStatus,
    pub heartbeat_failures: u32,
    pub last_error: Option<String>,
}

/// Host-side record of an attachment.
#[derive(Debug, PartialEq, Eq)]
pub struct AdvancedAttachment {
    pub selector: WindowSelector,
    pub policy: AdvancedAttachmentPolicy,
    pub target: AdvancedAttachableTarget,
    pub health: AdvancedAttachmentHealth,
}

/// What an attachment operation reported.
#[derive(Debug, PartialEq, Eq)]
pub enum AdvancedAttachmentEvent {
    Attached { target: AdvancedAttachableTarget },
    HeartbeatHealthy { target: AdvancedAttachableTarget },
    Reattached { previous_pid: Option<u32>, target: AdvancedAttachableTarget },
    HeartbeatFailed { detail: String, failures: u32 },
    Detached { detail: String },
}

/// Operator-facing explanation of the latest workflow decision.
#[derive(Debug, PartialEq, Eq)]
pub struct AdvancedExecutionReason {
    pub summary: String,
    pub basis: Vec<String>,
}

impl Clone for AdvancedExecutionReason {
    fn clone(&self) -> (r: Self)
        ensures
            r.summary == self.summary,
            r.basis@ == self.basis@,
    {
        AdvancedExecutionReason { summary: self.summary.clone(), basis: clone_strings(&self.basis) }
    }
}

} // verus!
