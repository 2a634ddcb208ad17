//! Stub observation backends: a render-hook observer and a memory observer with fixed
//! capabilities, the advanced backend traits, and the stub advanced backend that describes the
//! injection backend.
use vstd::prelude::*;

use crate::backend::{build_execution_plan, stub_backend_descriptor};
use crate::perception::{
    MemoryCameraState, MemoryObjectState, MemoryObservationDetails, MemoryObservationUseCase,
    MemoryPlayerState, MemoryPromptState, ObservationMovementState,
    DebugOverlayCommand, MemorySchemaVersion, ObservationCaptureContext, OverlayKind,
    RenderDebugOverlaySurface, RenderFrameAvailability, RenderFrameTiming, RenderHookBoundary,
    RenderObservationDetails, RenderSampleRegion, RenderSceneUseCase,
};
use crate::protocol::{
    AdvancedBackendCapabilities, AdvancedBackendDescriptor, AdvancedBackendStability,
    AdvancedBinaryPayloadRef, AdvancedIpcTransportKind, AdvancedPayloadEncoding,
    AdvancedProfileBackend, AdvancedProfileExecutionPlan, AdvancedTargetRef,
};
use crate::text::{decimal_digits, push_all, push_str, string_from_chars, string_of, u64_to_decimal};
use crate::discovery::{discover_attachable_targets, in_discovery_order, selected_targets};
use crate::host::{prepare_profile_backend, prepared_session, preparation_failure};
use crate::protocol::{AdvancedAttachableTarget, AdvancedFrontend, AdvancedTargetDiscovery};
use crate::session::AdvancedBackendSession;
use crate::types::{ProfileConfig, WindowSelector, WinrResult};

verus! {

/// A render-hook observer that reports fixed frames at a presentation boundary.
#[derive(Debug)]
pub struct StubRenderObserver {
    target: AdvancedTargetRef,
    boundary: RenderHookBoundary,
    present_count: u64,
}

/// Id of a payload of the render observer: the target's PID (or `unknown`), the present count
/// and a suffix, joined by dashes.
pub open spec fn render_payload_id(pid: Option<u32>, present_count: u64, suffix: Seq<char>) -> Seq<char> {
    (match pid {
        Some(p) => decimal_digits(p as nat),
        None => "unknown"@,
    }) + "-"@ + decimal_digits(present_count as nat) + "-"@ + suffix
}

impl StubRenderObserver {
    /// The observed target.
    pub closed spec fn target_spec(&self) -> AdvancedTargetRef {
        self.target
    }

    /// The presentation boundary the hook sits on.
    pub closed spec fn boundary_spec(&self) -> RenderHookBoundary {
        self.boundary
    }

    /// How many frames were presented so far.
    pub closed spec fn present_count_spec(&self) -> u64 {
        self.present_count
    }

    /// An observer of the target at the boundary, with no frame presented yet.
    pub fn new(target: AdvancedTargetRef, boundary: RenderHookBoundary) -> (r: Self)
        ensures
            r.target_spec() == target,
            r.boundary_spec() == boundary,
            r.present_count_spec() == 0,
    {
        StubRenderObserver { target, boundary, present_count: 0 }
    }

    /// The presentation boundary.
    pub fn hook_boundary(&self) -> (r: RenderHookBoundary)
        ensures
            r == self.boundary_spec(),
    {
        self.boundary
    }

    /// Render observation and entity tracking, nothing else.
    pub fn capabilities(&self) -> (r: AdvancedBackendCapabilities)
        ensures
            r == (AdvancedBackendCapabilities {
                foreground_input: false,
                message_input: false,
                uia_input: false,
                injected_input: false,
                render_observation: true,
                memory_observation: false,
                semantic_navigation: false,
                entity_tracking: true,
                internal_interaction: false,
            }),
    {
        AdvancedBackendCapabilities {
            foreground_input: false,
            message_input: false,
            uia_input: false,
            injected_input: false,
            render_observation: true,
            memory_observation: false,
            semantic_navigation: false,
            entity_tracking: true,
            internal_interaction: false,
        }
    }

    /// A frame is always ready, none dropped.
    pub fn frame_availability(&self) -> (r: RenderFrameAvailability)
        ensures
            r.frame_ready,
            r.present_count == self.present_count_spec(),
            r.dropped_since_last_capture == 0,
    {
        RenderFrameAvailability {
            frame_ready: true,
            present_count: self.present_count,
            dropped_since_last_capture: 0,
        }
    }

    /// A raw shared-memory payload reference for the current frame.
    pub fn payload(&self, suffix: &str, byte_len: u64, description: &str) -> (r: AdvancedBinaryPayloadRef)
        ensures
            r.payload_id@ == render_payload_id(self.target_spec().pid, self.present_count_spec(), suffix@),
            r.encoding == AdvancedPayloadEncoding::RawBytes,
            r.byte_len == byte_len,
            r.transport == AdvancedIpcTransportKind::SharedMemory,
            r.description@ == description@,
    {
        let mut id: Vec<char> = Vec::new();
        match self.target.pid {
            Some(pid) => {
                let digits = u64_to_decimal(pid as u64);
                push_all(&mut id, &digits);
            },
            None => push_str(&mut id, "unknown"),
        }
        push_str(&mut id, "-");
        let count = u64_to_decimal(self.present_count);
        push_all(&mut id, &count);
        push_str(&mut id, "-");
        push_str(&mut id, suffix);
        proof {
            assert(id@ =~= render_payload_id(self.target.pid, self.present_count, suffix@));
        }
        AdvancedBinaryPayloadRef {
            payload_id: string_from_chars(&id),
            encoding: AdvancedPayloadEncoding::RawBytes,
            byte_len,
            transport: AdvancedIpcTransportKind::SharedMemory,
            description: string_of(description),
        }
    }

    /// Presents one more frame and describes it: the boundary, timing at the context's
    /// timestamp (16 ms interval, 2 ms latency), the availability, one centered sample region,
    /// a development-only focus overlay, all four scene uses, and no claim to game state or a
    /// background input channel.
    pub fn capture_render_details(&mut self, context: &ObservationCaptureContext) -> (r:
        RenderObservationDetails)
        requires
            old(self).present_count_spec() < u64::MAX,
        ensures
            final(self).present_count_spec() == old(self).present_count_spec() + 1,
            final(self).target_spec() == old(self).target_spec(),
            final(self).boundary_spec() == old(self).boundary_spec(),
            r.boundary == old(self).boundary_spec(),
            r.timing.present_timestamp_ms == context.timestamp_ms,
            r.timing.frame_interval_ms == Some(16u64),
            r.timing.capture_latency_ms == Some(2u64),
            r.availability.frame_ready,
            r.availability.present_count == final(self).present_count_spec(),
            r.sample_regions@.len() == 1,
            r.sample_regions@[0].left == 760 && r.sample_regions@[0].top == 420,
            r.sample_regions@[0].width == 400 && r.sample_regions@[0].height == 240,
            r.debug_overlay matches Some(o) && o.development_only && o.commands@.len() == 1
                && o.commands@[0].kind == OverlayKind::BoundingBoxes,
            r.intended_uses@ == seq![
                RenderSceneUseCase::VisibleSceneUnderstanding,
                RenderSceneUseCase::TemplateDetection,
                RenderSceneUseCase::ObjectDetection,
                RenderSceneUseCase::ActionCorrelation,
            ],
            r.does_not_claim_game_state_api,
            r.does_not_claim_background_input_channel,
    {
        self.present_count = self.present_count + 1;
        let sample = RenderSampleRegion {
            id: string_of("center-crop"),
            left: 760,
            top: 420,
            width: 400,
            height: 240,
            payload: Some(self.payload("sample", 400 * 240 * 4, "center sample region")),
        };
        let mut sample_regions: Vec<RenderSampleRegion> = Vec::new();
        sample_regions.push(sample);
        let mut commands: Vec<DebugOverlayCommand> = Vec::new();
        commands.push(
            DebugOverlayCommand {
                label: string_of("focus region"),
                kind: OverlayKind::BoundingBoxes,
                left: 760,
                top: 420,
                width: 400,
                height: 240,
            },
        );
        let mut intended_uses: Vec<RenderSceneUseCase> = Vec::new();
        intended_uses.push(RenderSceneUseCase::VisibleSceneUnderstanding);
        intended_uses.push(RenderSceneUseCase::TemplateDetection);
        intended_uses.push(RenderSceneUseCase::ObjectDetection);
        intended_uses.push(RenderSceneUseCase::ActionCorrelation);
        RenderObservationDetails {
            boundary: self.boundary,
            timing: RenderFrameTiming {
                present_timestamp_ms: context.timestamp_ms,
                frame_interval_ms: Some(16),
                capture_latency_ms: Some(2),
            },
            availability: self.frame_availability(),
            sample_regions,
            debug_overlay: Some(RenderDebugOverlaySurface { development_only: true, commands }),
            intended_uses,
            does_not_claim_game_state_api: true,
            does_not_claim_background_input_channel: true,
        }
    }
}

/// A memory observer that reports normalized state without raw layouts.
#[derive(Debug)]
pub struct StubMemoryObserver {
    target: AdvancedTargetRef,
    snapshot_counter: u64,
}

impl StubMemoryObserver {
    /// The observed target.
    pub closed spec fn target_spec(&self) -> AdvancedTargetRef {
        self.target
    }

    /// How many snapshots were read so far.
    pub closed spec fn snapshot_count_spec(&self) -> u64 {
        self.snapshot_counter
    }

    /// An observer of the target with no snapshot read yet.
    pub fn new(target: AdvancedTargetRef) -> (r: Self)
        ensures
            r.target_spec() == target,
            r.snapshot_count_spec() == 0,
    {
        StubMemoryObserver { target, snapshot_counter: 0 }
    }

    /// Memory observation and entity tracking, nothing else.
    pub fn capabilities(&self) -> (r: AdvancedBackendCapabilities)
        ensures
            r == (AdvancedBackendCapabilities {
                foreground_input: false,
                message_input: false,
                uia_input: false,
                injected_input: false,
                render_observation: false,
                memory_observation: true,
                semantic_navigation: false,
                entity_tracking: true,
                internal_interaction: false,
            }),
    {
        AdvancedBackendCapabilities {
            foreground_input: false,
            message_input: false,
            uia_input: false,
            injected_input: false,
            render_observation: false,
            memory_observation: true,
            semantic_navigation: false,
            entity_tracking: true,
            internal_interaction: false,
        }
    }

    /// The schema version of its snapshots.
    pub fn schema_version(&self) -> (r: MemorySchemaVersion)
        ensures
            r == MemorySchemaVersion::V1,
    {
        MemorySchemaVersion::V1
    }

    /// Id of the next snapshot: `pid-<pid or unknown>-snapshot-<n>`, counting from 1.
    pub fn next_snapshot_id(&mut self) -> (r: String)
        requires
            old(self).snapshot_count_spec() < u64::MAX,
        ensures
            final(self).snapshot_count_spec() == old(self).snapshot_count_spec() + 1,
            final(self).target_spec() == old(self).target_spec(),
            r@ == "pid-"@ + match old(self).target_spec().pid {
                Some(p) => decimal_digits(p as nat),
                None => "unknown"@,
            } + "-snapshot-"@ + decimal_digits(final(self).snapshot_count_spec() as nat),
    {
        self.snapshot_counter = self.snapshot_counter + 1;
        let mut id: Vec<char> = Vec::new();
        push_str(&mut id, "pid-");
        match self.target.pid {
            Some(pid) => {
                let digits = u64_to_decimal(pid as u64);
                push_all(&mut id, &digits);
            },
            None => push_str(&mut id, "unknown"),
        }
        push_str(&mut id, "-snapshot-");
        let count = u64_to_decimal(self.snapshot_counter);
        push_all(&mut id, &count);
        proof {
            assert(id@ =~= "pid-"@ + match self.target.pid {
                Some(p) => decimal_digits(p as nat),
                None => "unknown"@,
            } + "-snapshot-"@ + decimal_digits(self.snapshot_counter as nat));
        }
        string_from_chars(&id)
    }

    /// Reads one more snapshot and normalizes it: schema V1, the snapshot's id, the five
    /// intended uses, the player walking at (10000, 0, -4000) mm with a pickaxe while
    /// harvesting, the camera at yaw 90000 and pitch -12000 milli-degrees in third person, a
    /// visible "Press E" prompt at 850 mm, two nearby objects (an interactable rock at 1200 mm
    /// and a patrol dirt patch at 700 mm), and the raw layout hidden.
    pub fn read_memory_details(&mut self) -> (r: MemoryObservationDetails)
        requires
            old(self).snapshot_count_spec() < u64::MAX,
        ensures
            final(self).snapshot_count_spec() == old(self).snapshot_count_spec() + 1,
            final(self).target_spec() == old(self).target_spec(),
            r.schema_version == MemorySchemaVersion::V1,
            r.snapshot_id@ == "pid-"@ + match old(self).target_spec().pid {
                Some(p) => decimal_digits(p as nat),
                None => "unknown"@,
            } + "-snapshot-"@ + decimal_digits(final(self).snapshot_count_spec() as nat),
            r.intended_uses@ == seq![
                MemoryObservationUseCase::PlayerState,
                MemoryObservationUseCase::CameraState,
                MemoryObservationUseCase::PromptState,
                MemoryObservationUseCase::InteractableDiscovery,
                MemoryObservationUseCase::ObjectInventory,
            ],
            r.player_state matches Some(p) && p.world_position_millimeters == Some([10000i32, 0i32, -4000i32])
                && p.velocity_millimeters_per_second == Some([250i32, 0i32, 0i32])
                && p.movement_state == Some(ObservationMovementState::Walking)
                && (p.active_tool matches Some(t) && t@ == "pickaxe"@)
                && p.active_modes@.len() == 1 && p.active_modes@[0]@ == "harvesting"@,
            r.camera_state matches Some(c) && c.yaw_milli_degrees == Some(90000i32)
                && c.pitch_milli_degrees == Some(-12000i32) && c.field_of_view_milli_degrees is None
                && (c.mode matches Some(m) && m@ == "third_person"@),
            r.prompts@.len() == 1 && r.prompts@[0].id@ == "prompt-1"@ && r.prompts@[0].label@
                == "Press E"@ && r.prompts@[0].visible && r.prompts@[0].distance_millimeters == Some(850u32),
            r.nearby_objects@.len() == 2,
            r.nearby_objects@[0].id@ == "rock-1"@ && r.nearby_objects@[0].kind@ == "resource_node"@
                && r.nearby_objects@[0].label@ == "Rock"@
                && r.nearby_objects@[0].world_position_millimeters == Some([10800i32, 0i32, -3900i32])
                && r.nearby_objects@[0].distance_millimeters == Some(1200u32)
                && r.nearby_objects@[0].interactable,
            r.nearby_objects@[1].id@ == "dirt-patch-1"@ && r.nearby_objects@[1].kind@ == "patrol_region"@
                && r.nearby_objects@[1].label@ == "Dirt Patch"@
                && r.nearby_objects@[1].world_position_millimeters == Some([9600i32, 0i32, -4300i32])
                && r.nearby_objects@[1].distance_millimeters == Some(700u32)
                && !r.nearby_objects@[1].interactable,
            r.raw_layout_hidden,
    {
        let snapshot_id = self.next_snapshot_id();
        let mut modes: Vec<String> = Vec::new();
        modes.push(string_of("harvesting"));
        let player = MemoryPlayerState {
            world_position_millimeters: Some([10000, 0, -4000]),
            velocity_millimeters_per_second: Some([250, 0, 0]),
            movement_state: Some(ObservationMovementState::Walking),
            active_tool: Some(string_of("pickaxe")),
            active_modes: modes,
        };
        let camera = MemoryCameraState {
            yaw_milli_degrees: Some(90000),
            pitch_milli_degrees: Some(-12000),
            field_of_view_milli_degrees: None,
            mode: Some(string_of("third_person")),
        };
        let mut objects: Vec<MemoryObjectState> = Vec::new();
        objects.push(MemoryObjectState {
            id: string_of("rock-1"),
            kind: string_of("resource_node"),
            label: string_of("Rock"),
            world_position_millimeters: Some([10800, 0, -3900]),
            distance_millimeters: Some(1200),
            interactable: true,
        });
        objects.push(MemoryObjectState {
            id: string_of("dirt-patch-1"),
            kind: string_of("patrol_region"),
            label: string_of("Dirt Patch"),
            world_position_millimeters: Some([9600, 0, -4300]),
            distance_millimeters: Some(700),
            interactable: false,
        });
        let mut prompts: Vec<MemoryPromptState> = Vec::new();
        prompts.push(MemoryPromptState {
            id: string_of("prompt-1"),
            label: string_of("Press E"),
            visible: true,
            distance_millimeters: Some(850),
        });
        let mut uses: Vec<MemoryObservationUseCase> = Vec::new();
        uses.push(MemoryObservationUseCase::PlayerState);
        uses.push(MemoryObservationUseCase::CameraState);
        uses.push(MemoryObservationUseCase::PromptState);
        uses.push(MemoryObservationUseCase::InteractableDiscovery);
        uses.push(MemoryObservationUseCase::ObjectInventory);
        proof {
            assert(uses@ =~= seq![
                MemoryObservationUseCase::PlayerState,
                MemoryObservationUseCase::CameraState,
                MemoryObservationUseCase::PromptState,
                MemoryObservationUseCase::InteractableDiscovery,
                MemoryObservationUseCase::ObjectInventory,
            ]);
        }
        MemoryObservationDetails {
            schema_version: MemorySchemaVersion::V1,
            snapshot_id,
            intended_uses: uses,
            player_state: Some(player),
            camera_state: Some(camera),
            prompts,
            nearby_objects: objects,
            raw_layout_hidden: true,
        }
    }

    /// The player state of a snapshot's details.
    pub fn snapshot_player_state<'a>(&self, details: &'a Option<MemoryObservationDetails>) -> (r: Option<
        &'a MemoryPlayerState,
    >)
        ensures
            r == match *details {
                Some(d) => match d.player_state {
                    Some(p) => Some(&p),
                    None => None::<&MemoryPlayerState>,
                },
                None => None::<&MemoryPlayerState>,
            },
    {
        match details {
            Some(d) => match &d.player_state {
                Some(p) => Some(p),
                None => None,
            },
            None => None,
        }
    }

    /// The camera state of a snapshot's details.
    pub fn snapshot_camera_state<'a>(&self, details: &'a Option<MemoryObservationDetails>) -> (r: Option<
        &'a MemoryCameraState,
    >)
        ensures
            r == match *details {
                Some(d) => match d.camera_state {
                    Some(c) => Some(&c),
                    None => None::<&MemoryCameraState>,
                },
                None => None::<&MemoryCameraState>,
            },
    {
        match details {
            Some(d) => match &d.camera_state {
                Some(c) => Some(c),
                None => None,
            },
            None => None,
        }
    }

    /// The nearby objects of a snapshot's details (none without details).
    pub fn snapshot_nearby_objects<'a>(&self, details: &'a Option<MemoryObservationDetails>) -> (r: &'a [MemoryObjectState])
        ensures
            r@ == match *details {
                Some(d) => d.nearby_objects@,
                None => Seq::<MemoryObjectState>::empty(),
            },
    {
        match details {
            Some(d) => d.nearby_objects.as_slice(),
            None => &[],
        }
    }
}

/// An advanced backend's observation side: its descriptor and the discovery of attachable
/// targets among the top-level windows' targets.
pub trait AdvancedObservationBackend {
    fn descriptor(&self) -> AdvancedBackendDescriptor;

    fn discover_targets(
        &self,
        selector: &WindowSelector,
        targets: Vec<AdvancedAttachableTarget>,
    ) -> WinrResult<AdvancedTargetDiscovery>;
}

/// An advanced backend's input side: its descriptor and the preparation of a session for a
/// profile, given the discovery of the profile's targets.
pub trait AdvancedInputBackend {
    fn descriptor(&self) -> AdvancedBackendDescriptor;

    fn prepare_session(
        &self,
        profile: &ProfileConfig,
        discovery: &WinrResult<AdvancedTargetDiscovery>,
    ) -> WinrResult<AdvancedBackendSession>;
}

/// A backend that observes, takes input, and plans profile runs.
pub trait AdvancedWorkflowBackend: AdvancedObservationBackend + AdvancedInputBackend {
    fn build_execution_plan(&self, profile: &ProfileConfig) -> AdvancedProfileExecutionPlan;
}

/// The stub injection backend: it describes itself, discovers targets and plans profile runs.
#[derive(Debug, Default, Clone, Copy)]
pub struct StubAdvancedBackend;

impl AdvancedObservationBackend for StubAdvancedBackend {
    /// The injection backend's descriptor: fragile and replaceable.
    fn descriptor(&self) -> AdvancedBackendDescriptor {
        stub_backend_descriptor()
    }

    /// Discovers the selected targets in discovery order; it does not fail.
    fn discover_targets(
        &self,
        selector: &WindowSelector,
        targets: Vec<AdvancedAttachableTarget>,
    ) -> (r: WinrResult<AdvancedTargetDiscovery>)
        ensures
            r matches Ok(d) && d.selector == *selector && d.candidate_count == d.candidates@.len()
                && in_discovery_order(d.candidates@) && d.candidates@.to_multiset()
                == selected_targets(*selector, targets@).to_multiset(),
    {
        Ok(discover_attachable_targets(selector, targets))
    }
}

impl AdvancedInputBackend for StubAdvancedBackend {
    /// The injection backend's descriptor: fragile and replaceable.
    fn descriptor(&self) -> AdvancedBackendDescriptor {
        stub_backend_descriptor()
    }

    /// Prepares the profile's injection session from the discovery of its targets.
    fn prepare_session(
        &self,
        profile: &ProfileConfig,
        discovery: &WinrResult<AdvancedTargetDiscovery>,
    ) -> (r: WinrResult<AdvancedBackendSession>)
        ensures
            match preparation_failure(*profile, AdvancedFrontend::Cli, *discovery) {
                Some(message) => r matches Err(e) && e is Unsupported && e->Unsupported_message@
                    == message,
                None => r matches Ok(session) && prepared_session(session, *profile, discovery->Ok_0),
            },
    {
        prepare_profile_backend(profile, discovery)
    }
}

impl AdvancedWorkflowBackend for StubAdvancedBackend {
    /// The execution plan of a profile.
    fn build_execution_plan(&self, profile: &ProfileConfig) -> (r: AdvancedProfileExecutionPlan)
        ensures
            r.profile_id@ == profile.profile.id@,
            r.backend == crate::backend::backend_selection_spec(*profile, AdvancedFrontend::Cli).resolved,
            r.target == crate::backend::target_ref_of(profile.target),
    {
        build_execution_plan(profile)
    }
}

} // verus!
