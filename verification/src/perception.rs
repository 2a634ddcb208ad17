//! Observation model: sources, entity and detector kinds, frame metadata, memory and
//! render details, and the freshness and priority rules applied to observations.
use vstd::prelude::*;

use crate::protocol::{
    AdvancedBinaryPayloadRef, AdvancedObservationUpdate, AdvancedProfileBackend, AdvancedTargetRef,
};
use crate::text::{push_all, push_str, string_from_chars, u64_to_decimal, decimal_digits};

verus! {

/// Where an observation frame came from.
#[derive(Debug, Clone, Copy, PartialEq, Eq, Structural)]
pub enum ObservationSourceKind {
    DesktopScreenshot,
    RenderHookFrame,
    MemoryState,
    DetectorOverlay,
}

/// Pixel layout of an image payload.
#[derive(Debug, Clone, Copy, PartialEq, Eq, Structural)]
pub enum ObservationPixelFormat {
    Bgra8,
    Rgba8,
    Gray8,
    Unknown,
}

/// What an observed entity is.
#[derive(Debug, Clone, Copy, PartialEq, Eq, Structural)]
pub enum EntityKind {
    Player,
    Camera,
    Region,
    Prompt,
    Interactable,
    Collectible,
    Obstacle,
    Waypoint,
    VisualMarker,
}

/// How a detector finds entities.
#[derive(Debug, Clone, Copy, PartialEq, Eq, Structural)]
pub enum DetectorKind {
    TemplateMatch,
    ColorCluster,
    Ocr,
    ObjectDetection,
    MemoryEntity,
    RenderEntity,
}

/// Shape of a detector overlay.
#[derive(Debug, Clone, Copy, PartialEq, Eq, Structural)]
pub enum OverlayKind {
    BoundingBoxes,
    SegmentationMask,
    Heatmap,
    OcrText,
    DebugMarkup,
}

/// Movement of the player character.
#[derive(Debug, Clone, Copy, PartialEq, Eq, Structural)]
pub enum ObservationMovementState {
    Idle,
    Walking,
    Running,
    Jumping,
    Falling,
    Unknown,
}

/// Version of the observation state format.
#[derive(Debug, Clone, Copy, PartialEq, Eq, Structural)]
pub enum ObservationStateVersion {
    V1,
}

/// The presentation call a render hook sits on.
#[derive(Debug, Clone, Copy, PartialEq, Eq, Structural)]
pub enum RenderHookBoundary {
    DxgiPresent,
    D3d11Present,
    D3d12Present,
    VulkanPresent,
    OpenGlSwapBuffers,
    Unknown,
}

/// What a render-hook frame is meant for.
#[derive(Debug, Clone, Copy, PartialEq, Eq, Structural)]
pub enum RenderSceneUseCase {
    VisibleSceneUnderstanding,
    TemplateDetection,
    ObjectDetection,
    ActionCorrelation,
}

/// Version of the memory snapshot format.
#[derive(Debug, Clone, Copy, PartialEq, Eq, Structural)]
pub enum MemorySchemaVersion {
    V1,
}

/// What a memory snapshot is meant for.
#[derive(Debug, Clone, Copy, PartialEq, Eq, Structural)]
pub enum MemoryObservationUseCase {
    PlayerState,
    CameraState,
    InteractableDiscovery,
    PromptState,
    ObjectInventory,
}

/// A detector that a plan or source relies on.
#[derive(Debug, Clone, PartialEq, Eq)]
pub struct DetectorDescriptor {
    pub id: String,
    pub name: String,
    pub kind: DetectorKind,
}

/// Tracking status of an entity in the world model.
#[derive(Debug, Clone, Copy, PartialEq, Eq, Structural)]
pub enum TrackedEntityStatus {
    Active,
    Lost,
    Reacquired,
}

/// Entity ids that changed in one world-model update.
#[derive(Debug, Clone, PartialEq, Eq, Default)]
pub struct WorldModelDelta {
    pub new_entities: Vec<String>,
    pub lost_entities: Vec<String>,
    pub reacquired_entities: Vec<String>,
    pub reprioritized_entities: Vec<String>,
}

/// A desktop screenshot payload.
#[derive(Debug, Clone, PartialEq, Eq)]
pub struct ObservationImageHandle {
    pub payload: AdvancedBinaryPayloadRef,
    pub width: u32,
    pub height: u32,
    pub pixel_format: ObservationPixelFormat,
}

/// A render-hook frame payload.
#[derive(Debug, Clone, PartialEq, Eq)]
pub struct ObservationFrameHandle {
    pub payload: AdvancedBinaryPayloadRef,
    pub width: u32,
    pub height: u32,
    pub pixel_format: ObservationPixelFormat,
    pub row_stride_bytes: Option<u32>,
}

/// One key/value pair of a memory snapshot.
#[derive(Debug, Clone, PartialEq, Eq)]
pub struct ObservationStateField {
    pub key: String,
    pub value: String,
}

/// Camera state read from memory, in milli-degrees.
#[derive(Debug, Clone, PartialEq, Eq)]
pub struct MemoryCameraState {
    pub yaw_milli_degrees: Option<i32>,
    pub pitch_milli_degrees: Option<i32>,
    pub field_of_view_milli_degrees: Option<i32>,
    pub mode: Option<String>,
}

/// Player state read from memory, in millimeters.
#[derive(Debug, Clone, PartialEq, Eq)]
pub struct MemoryPlayerState {
    pub world_position_millimeters: Option<[i32; 3]>,
    pub velocity_millimeters_per_second: Option<[i32; 3]>,
    pub movement_state: Option<ObservationMovementState>,
    pub active_tool: Option<String>,
    pub active_modes: Vec<String>,
}

/// An interaction prompt read from memory.
#[derive(Debug, Clone, PartialEq, Eq)]
pub struct MemoryPromptState {
    pub id: String,
    pub label: String,
    pub visible: bool,
    pub distance_millimeters: Option<u32>,
}

/// A nearby object read from memory.
#[derive(Debug, Clone, PartialEq, Eq)]
pub struct MemoryObjectState {
    pub id: String,
    pub kind: String,
    pub label: String,
    pub world_position_millimeters: Option<[i32; 3]>,
    pub distance_millimeters: Option<u32>,
    pub interactable: bool,
}

/// Normalized memory snapshot.
#[derive(Debug, Clone, PartialEq, Eq)]
pub struct MemoryObservationDetails {
    pub schema_version: MemorySchemaVersion,
    pub snapshot_id: String,
    pub intended_uses: Vec<MemoryObservationUseCase>,
    pub player_state: Option<MemoryPlayerState>,
    pub camera_state: Option<MemoryCameraState>,
    pub prompts: Vec<MemoryPromptState>,
    pub nearby_objects: Vec<MemoryObjectState>,
    pub raw_layout_hidden: bool,
}

/// Output of a detector drawn over a frame.
#[derive(Debug, Clone, PartialEq, Eq)]
pub struct DetectorOverlay {
    pub detector_id: String,
    pub kind: OverlayKind,
    pub label: String,
    pub payload: Option<AdvancedBinaryPayloadRef>,
}

/// Timing of a presented frame.
#[derive(Debug, Clone, PartialEq, Eq)]
pub struct RenderFrameTiming {
    pub present_timestamp_ms: u64,
    pub frame_interval_ms: Option<u64>,
    pub capture_latency_ms: Option<u64>,
}

/// Whether a presented frame could be captured.
#[derive(Debug, Clone, PartialEq, Eq)]
pub struct RenderFrameAvailability {
    pub frame_ready: bool,
    pub present_count: u64,
    pub dropped_since_last_capture: u32,
}

/// A sampled region of a presented frame.
#[derive(Debug, Clone, PartialEq, Eq)]
pub struct RenderSampleRegion {
    pub id: String,
    pub left: u32,
    pub top: u32,
    pub width: u32,
    pub height: u32,
    pub payload: Option<AdvancedBinaryPayloadRef>,
}

/// One debug drawing command.
#[derive(Debug, Clone, PartialEq, Eq)]
pub struct DebugOverlayCommand {
    pub label: String,
    pub kind: OverlayKind,
    pub left: i32,
    pub top: i32,
    pub width: u32,
    pub height: u32,
}

/// Debug overlay drawn by a render hook.
#[derive(Debug, Clone, PartialEq, Eq)]
pub struct RenderDebugOverlaySurface {
    pub development_only: bool,
    pub commands: Vec<DebugOverlayCommand>,
}

/// What a render hook reports about a frame.
#[derive(Debug, Clone, PartialEq, Eq)]
pub struct RenderObservationDetails {
    pub boundary: RenderHookBoundary,
    pub timing: RenderFrameTiming,
    pub availability: RenderFrameAvailability,
    pub sample_regions: Vec<RenderSampleRegion>,
    pub debug_overlay: Option<RenderDebugOverlaySurface>,
    pub intended_uses: Vec<RenderSceneUseCase>,
    pub does_not_claim_game_state_api: bool,
    pub does_not_claim_background_input_channel: bool,
}

/// The data an observation frame was built from.
#[derive(Debug, Clone, PartialEq, Eq)]
pub enum ObservationSourceData {
    DesktopScreenshot { image: ObservationImageHandle },
    RenderHookFrame { frame: ObservationFrameHandle },
    MemoryState { snapshot_id: String, state_fields: Vec<ObservationStateField> },
    DetectorOverlay { overlay: DetectorOverlay },
}

/// Identity, origin and age of an observation frame.
#[derive(Debug, Clone, PartialEq, Eq)]
pub struct ObservationMetadata {
    pub version: ObservationStateVersion,
    pub backend: AdvancedProfileBackend,
    pub source: ObservationSourceKind,
    pub frame_id: u64,
    pub timestamp_ms: u64,
    pub freshness_ms: u64,
}

/// What a capture request hands to an observation source.
#[derive(Debug, Clone, PartialEq, Eq)]
pub struct ObservationCaptureContext {
    pub target: AdvancedTargetRef,
    pub backend: AdvancedProfileBackend,
    pub frame_id: u64,
    pub timestamp_ms: u64,
    pub freshness_ms: u64,
}

/// How old a frame is.
#[derive(Debug, Clone, Copy, PartialEq, Eq, Structural)]
pub enum ObservationFreshnessStatus {
    Fresh,
    Aging,
    Stale,
}

/// Age thresholds of the freshness rule.
#[derive(Debug, Clone, PartialEq, Eq)]
pub struct ObservationFreshnessPolicy {
    pub aging_threshold_ms: u64,
    pub stale_threshold_ms: u64,
}

/// Verdict of the freshness rule on one frame.
#[derive(Debug, Clone, PartialEq, Eq)]
pub struct ObservationFreshnessAssessment {
    pub status: ObservationFreshnessStatus,
    pub freshness_ms: u64,
    pub detail: String,
}


/// The source kind that a piece of source data belongs to.
pub open spec fn source_kind_of(data: ObservationSourceData) -> ObservationSourceKind {
    match data {
        ObservationSourceData::DesktopScreenshot { .. } => ObservationSourceKind::DesktopScreenshot,
        ObservationSourceData::RenderHookFrame { .. } => ObservationSourceKind::RenderHookFrame,
        ObservationSourceData::MemoryState { .. } => ObservationSourceKind::MemoryState,
        ObservationSourceData::DetectorOverlay { .. } => ObservationSourceKind::DetectorOverlay,
    }
}

impl ObservationSourceData {
    /// The source kind of this data.
    pub fn kind(&self) -> (r: ObservationSourceKind)
        ensures
            r == source_kind_of(*self),
    {
        match self {
            ObservationSourceData::DesktopScreenshot { .. } => ObservationSourceKind::DesktopScreenshot,
            ObservationSourceData::RenderHookFrame { .. } => ObservationSourceKind::RenderHookFrame,
            ObservationSourceData::MemoryState { .. } => ObservationSourceKind::MemoryState,
            ObservationSourceData::DetectorOverlay { .. } => ObservationSourceKind::DetectorOverlay,
        }
    }
}

impl Default for ObservationFreshnessPolicy {
    /// Frames turn aging at 33 ms and stale at 120 ms.
    fn default() -> (r: Self)
        ensures
            r.aging_threshold_ms == 33,
            r.stale_threshold_ms == 120,
    {
        ObservationFreshnessPolicy { aging_threshold_ms: 33, stale_threshold_ms: 120 }
    }
}

/// Status of a frame of the given age: stale from the stale threshold on, aging from the aging
/// threshold on, fresh below both.
pub open spec fn freshness_status(freshness_ms: u64, policy: ObservationFreshnessPolicy) -> ObservationFreshnessStatus {
    if freshness_ms >= policy.stale_threshold_ms {
        ObservationFreshnessStatus::Stale
    } else if freshness_ms >= policy.aging_threshold_ms {
        ObservationFreshnessStatus::Aging
    } else {
        ObservationFreshnessStatus::Fresh
    }
}

/// Operator-facing explanation of a freshness verdict.
pub open spec fn freshness_detail(freshness_ms: u64, status: ObservationFreshnessStatus) -> Seq<char> {
    "frame freshness "@ + decimal_digits(freshness_ms as nat) + match status {
        ObservationFreshnessStatus::Fresh => "ms is within fresh threshold"@,
        ObservationFreshnessStatus::Aging => "ms is aging toward stale"@,
        ObservationFreshnessStatus::Stale => "ms exceeded stale threshold"@,
    }
}

/// The metadata of a frame built from an agent's update: version 1, the context's backend,
/// the kind of the source data, the update's frame id, and the update's timestamp and
/// freshness where it gives them (the context's otherwise).
pub fn metadata_from_update(
    context: &ObservationCaptureContext,
    update: &AdvancedObservationUpdate,
    source_data: &ObservationSourceData,
) -> (r: ObservationMetadata)
    ensures
        r == (ObservationMetadata {
            version: ObservationStateVersion::V1,
            backend: context.backend,
            source: source_kind_of(*source_data),
            frame_id: update.frame_id,
            timestamp_ms: match update.timestamp_ms {
                Some(t) => t,
                None => context.timestamp_ms,
            },
            freshness_ms: match update.freshness_ms {
                Some(f) => f,
                None => context.freshness_ms,
            },
        }),
{
    ObservationMetadata {
        version: ObservationStateVersion::V1,
        backend: context.backend,
        source: source_data.kind(),
        frame_id: update.frame_id,
        timestamp_ms: match update.timestamp_ms {
            Some(t) => t,
            None => context.timestamp_ms,
        },
        freshness_ms: match update.freshness_ms {
            Some(f) => f,
            None => context.freshness_ms,
        },
    }
}

/// Applies the freshness rule to a frame's metadata.
pub fn assess_freshness(
    metadata: &ObservationMetadata,
    policy: &ObservationFreshnessPolicy,
) -> (r: ObservationFreshnessAssessment)
    ensures
        r.freshness_ms == metadata.freshness_ms,
        r.status == freshness_status(metadata.freshness_ms, *policy),
        r.detail@ == freshness_detail(metadata.freshness_ms, r.status),
{
    let freshness_ms = metadata.freshness_ms;
    let status = if freshness_ms >= policy.stale_threshold_ms {
        ObservationFreshnessStatus::Stale
    } else if freshness_ms >= policy.aging_threshold_ms {
        ObservationFreshnessStatus::Aging
    } else {
        ObservationFreshnessStatus::Fresh
    };
    let mut out: Vec<char> = Vec::new();
    push_str(&mut out, "frame freshness ");
    let digits = u64_to_decimal(freshness_ms);
    push_all(&mut out, &digits);
    match status {
        ObservationFreshnessStatus::Fresh => push_str(&mut out, "ms is within fresh threshold"),
        ObservationFreshnessStatus::Aging => push_str(&mut out, "ms is aging toward stale"),
        ObservationFreshnessStatus::Stale => push_str(&mut out, "ms exceeded stale threshold"),
    }
    proof {
        assert(out@ =~= freshness_detail(freshness_ms, status));
    }
    ObservationFreshnessAssessment { status, freshness_ms, detail: string_from_chars(&out) }
}

/// The kinds of a list of detectors, each once, in order of first appearance.
pub open spec fn unique_kinds(kinds: Seq<DetectorKind>) -> Seq<DetectorKind>
    decreases kinds.len(),
{
    if kinds.len() == 0 {
        Seq::empty()
    } else {
        let prefix = unique_kinds(kinds.drop_last());
        if prefix.contains(kinds.last()) {
            prefix
        } else {
            prefix.push(kinds.last())
        }
    }
}

/// The kinds of the given detectors.
pub open spec fn descriptor_kinds(detectors: Seq<DetectorDescriptor>) -> Seq<DetectorKind> {
    detectors.map_values(|d: DetectorDescriptor| d.kind)
}

/// Each kind of the given detectors once, in order of first appearance.
pub fn unique_detector_kinds(detectors: &Vec<DetectorDescriptor>) -> (r: Vec<DetectorKind>)
    ensures
        r@ == unique_kinds(descriptor_kinds(detectors@)),
{
    let mut kinds: Vec<DetectorKind> = Vec::new();
    let mut i: usize = 0;
    while i < detectors.len()
        invariant
            i <= detectors.len(),
            kinds@ == unique_kinds(descriptor_kinds(detectors@).subrange(0, i as int)),
        decreases detectors.len() - i,
    {
        let kind = detectors[i].kind;
        let mut present = false;
        let mut j: usize = 0;
        while j < kinds.len()
            invariant
                j <= kinds.len(),
                present <==> exists|k: int| 0 <= k < j && kinds@[k] == kind,
            decreases kinds.len() - j,
        {
            if kinds[j] == kind {
                present = true;
            }
            j = j + 1;
        }
        proof {
            let all = descriptor_kinds(detectors@);
            assert(all.subrange(0, i + 1).drop_last() =~= all.subrange(0, i as int));
            assert(all.subrange(0, i + 1).last() == kind);
            assert(present <==> kinds@.contains(kind));
        }
        if !present {
            kinds.push(kind);
        }
        i = i + 1;
    }
    proof {
        assert(descriptor_kinds(detectors@).subrange(0, detectors@.len() as int) =~= descriptor_kinds(
            detectors@,
        ));
    }
    kinds
}

/// Base priority of an entity kind: prompts first, then interactables, collectibles, players,
/// regions, waypoints, visual markers, obstacles and cameras.
pub open spec fn kind_priority(kind: EntityKind) -> u32 {
    match kind {
        EntityKind::Prompt => 110,
        EntityKind::Interactable => 100,
        EntityKind::Collectible => 90,
        EntityKind::Player => 80,
        EntityKind::Region => 70,
        EntityKind::Waypoint => 60,
        EntityKind::VisualMarker => 55,
        EntityKind::Obstacle => 50,
        EntityKind::Camera => 40,
    }
}

/// Base priority of an entity kind.
pub fn entity_kind_priority(kind: EntityKind) -> (r: u32)
    ensures
        r == kind_priority(kind),
{
    match kind {
        EntityKind::Prompt => 110,
        EntityKind::Interactable => 100,
        EntityKind::Collectible => 90,
        EntityKind::Player => 80,
        EntityKind::Region => 70,
        EntityKind::Waypoint => 60,
        EntityKind::VisualMarker => 55,
        EntityKind::Obstacle => 50,
        EntityKind::Camera => 40,
    }
}

/// Bonus of one tag: `priority` 20, `resource` 10, `patrol` 8, others 0.
pub open spec fn tag_bonus(tag: Seq<char>) -> nat {
    if tag == "priority"@ {
        20
    } else if tag == "resource"@ {
        10
    } else if tag == "patrol"@ {
        8
    } else {
        0
    }
}

/// Sum of the tag bonuses of a list of tags.
pub open spec fn tags_bonus(tags: Seq<String>) -> nat
    decreases tags.len(),
{
    if tags.len() == 0 {
        0
    } else {
        tags_bonus(tags.drop_last()) + tag_bonus(tags.last()@)
    }
}

/// Sum of the tag bonuses of an entity's tags, saturating at `u32::MAX`.
pub fn entity_tags_bonus(tags: &Vec<String>) -> (r: u32)
    ensures
        r == if tags_bonus(tags@) <= u32::MAX { tags_bonus(tags@) } else { u32::MAX as nat },
{
    let priority = String::from_str("priority");
    let resource = String::from_str("resource");
    let patrol = String::from_str("patrol");
    proof {
        reveal_strlit("priority");
        reveal_strlit("resource");
        reveal_strlit("patrol");
    }
    let mut total: u32 = 0;
    let mut i: usize = 0;
    while i < tags.len()
        invariant
            i <= tags.len(),
            priority@ == "priority"@,
            resource@ == "resource"@,
            patrol@ == "patrol"@,
            total == if tags_bonus(tags@.subrange(0, i as int)) <= u32::MAX {
                tags_bonus(tags@.subrange(0, i as int))
            } else {
                u32::MAX as nat
            },
        decreases tags.len() - i,
    {
        let tag = &tags[i];
        let bonus: u32 = if *tag == priority {
            20
        } else if *tag == resource {
            10
        } else if *tag == patrol {
            8
        } else {
            0
        };
        proof {
            assert(tags@.subrange(0, i + 1).drop_last() =~= tags@.subrange(0, i as int));
            assert(bonus == tag_bonus(tags@[i as int]@));
        }
        total = total.saturating_add(bonus);
        i = i + 1;
    }
    proof {
        assert(tags@.subrange(0, tags@.len() as int) =~= tags@);
    }
    total
}

} // verus!
