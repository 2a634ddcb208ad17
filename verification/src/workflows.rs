//! Workflow planning: declarative task recipes and their action graphs, app packs, input-sink
//! selection for semantic actions, execution traces and navigation controller decisions.
use vstd::prelude::*;

use crate::perception::{DetectorDescriptor, DetectorKind, EntityKind};
use crate::protocol::{AdvancedBackendCapabilities, AdvancedExecutionReason, AdvancedProfileBackend};
use crate::text::{push_str, str_eq, string_from_chars, string_of};

verus! {

/// Kinds of workflow tasks.
#[derive(Debug, Clone, Copy, PartialEq, Eq, Structural)]
pub enum WorkflowTaskKind {
    SearchFor,
    Approach,
    PatrolRegion,
    InteractUntil,
    WaitForPrompt,
    ResumePreviousTask,
    RecoverIfStuck,
}

/// Kinds of intents a plan issues.
#[derive(Debug, Clone, Copy, PartialEq, Eq, Structural)]
pub enum WorkflowIntentKind {
    MoveForward,
    MoveBackward,
    StrafeLeft,
    StrafeRight,
    Turn,
    LookPitch,
    Jump,
    Interact,
    StopMotion,
    ApproachTarget,
    WalkToRegionOrEntity,
}

/// Channels through which an action reaches the target.
#[derive(Debug, Clone, Copy, PartialEq, Eq, Structural)]
pub enum InputSinkKind {
    Win32Foreground,
    Win32Message,
    InjectedRawInput,
    SemanticInternalAction,
}

/// What a semantic action is aimed at.
#[derive(Debug, PartialEq, Eq)]
pub enum SemanticInputTarget {
    CurrentTarget,
    EntityId { entity_id: String },
    RegionId { region_id: String },
}

/// An action in game terms rather than keys and clicks.
#[derive(Debug, PartialEq, Eq)]
pub enum SemanticInputAction {
    MoveForward { duration_ms: u64 },
    MoveBackward { duration_ms: u64 },
    StrafeLeft { duration_ms: u64 },
    StrafeRight { duration_ms: u64 },
    Turn { delta_yaw_milli_degrees: i32 },
    LookPitch { delta_pitch_milli_degrees: i32 },
    Jump,
    Interact,
    Hold { action: String, duration_ms: u64 },
    StopMotion,
    Approach { target: SemanticInputTarget },
    WalkTo { target: SemanticInputTarget },
}

/// Sinks to try, in order.
#[derive(Debug, PartialEq, Eq)]
pub struct InputSinkPreference {
    pub ordered_sinks: Vec<InputSinkKind>,
}

/// An action routed to a sink.
#[derive(Debug, PartialEq, Eq)]
pub struct InputSinkMapping {
    pub sink: InputSinkKind,
    pub action: SemanticInputAction,
    pub detail: String,
}

/// The routed actions of a plan.
#[derive(Debug, PartialEq, Eq)]
pub struct WorkflowInputPlan {
    pub mappings: Vec<InputSinkMapping>,
}

/// Identity of a workflow task.
#[derive(Debug, PartialEq, Eq)]
pub struct WorkflowTaskDefinition {
    pub id: String,
    pub name: String,
    pub kind: WorkflowTaskKind,
}

/// One intent of a plan.
#[derive(Debug, PartialEq, Eq)]
pub struct WorkflowIntentDefinition {
    pub kind: WorkflowIntentKind,
    pub description: String,
    pub semantic_action: Option<SemanticInputAction>,
    pub sink_preference: Option<InputSinkPreference>,
}

/// Kinds of trace events.
#[derive(Debug, Clone, Copy, PartialEq, Eq, Structural)]
pub enum WorkflowTraceEventKind {
    ObservationAccepted,
    TaskSelected,
    IntentIssued,
    RecoveryTriggered,
    PlanBlocked,
}

/// Identity of an app pack.
#[derive(Debug, Clone, PartialEq, Eq)]
pub struct AppPackManifest {
    pub id: String,
    pub name: String,
    pub target_family: String,
    pub backend_preferences: Vec<AdvancedProfileBackend>,
}

/// Registered app packs.
#[derive(Debug, Clone, PartialEq, Eq, Default)]
pub struct AppPackRegistry {
    pub packs: Vec<AppPackManifest>,
}

/// The `pack.toml` file of a pack directory.
#[derive(Debug, Clone, PartialEq, Eq)]
pub struct PackManifestFile {
    pub id: String,
    pub name: String,
    pub target_family: String,
    pub backend_preferences: Vec<AdvancedProfileBackend>,
    pub detectors_file: String,
    pub workflows_file: String,
    pub movement_file: String,
    pub profile_presets_file: String,
}

/// A named detector of a pack.
#[derive(Debug, PartialEq, Eq)]
pub struct AppPackDetectorPreset {
    pub id: String,
    pub name: String,
    pub detector: DeclarativeDetector,
    pub tags: Vec<String>,
}

/// Movement tuning of a pack.
#[derive(Debug, Clone, PartialEq, Eq)]
pub struct AppPackMovementTuning {
    pub turn_step_milli_degrees: i32,
    pub arrival_threshold_millimeters: u32,
    pub move_step_ms: u64,
    pub patrol_region_radius_millimeters: u32,
    pub stuck_frame_window: usize,
}

/// A profile preset of a pack.
#[derive(Debug, PartialEq, Eq)]
pub struct AppPackProfilePreset {
    pub id: String,
    pub name: String,
    pub description: String,
    pub workflow_task: WorkflowTaskKind,
    pub backend_preferences: Vec<AdvancedProfileBackend>,
    pub target_title_contains: Option<String>,
    pub target_exe: Option<String>,
}

/// The detectors file of a pack.
#[derive(Debug, PartialEq, Eq)]
pub struct AppPackDetectorFile {
    pub detectors: Vec<AppPackDetectorPreset>,
}

/// The workflows file of a pack.
#[derive(Debug, PartialEq, Eq)]
pub struct AppPackWorkflowFile {
    pub tasks: Vec<WorkflowTaskRecipe>,
}

/// The profile presets file of a pack.
#[derive(Debug, PartialEq, Eq)]
pub struct AppPackProfilePresetFile {
    pub presets: Vec<AppPackProfilePreset>,
}

/// A loaded app pack.
#[derive(Debug, PartialEq, Eq)]
pub struct AppPackBundle {
    pub manifest: AppPackManifest,
    pub detectors: Vec<AppPackDetectorPreset>,
    pub task_recipes: Vec<WorkflowTaskRecipe>,
    pub movement_tuning: AppPackMovementTuning,
    pub profile_presets: Vec<AppPackProfilePreset>,
}

/// A compiled plan: the task, what it needs to observe, and the intents it issues.
#[derive(Debug, PartialEq, Eq)]
pub struct WorkflowPlan {
    pub pack_id: String,
    pub task: WorkflowTaskDefinition,
    pub required_detectors: Vec<DetectorDescriptor>,
    pub required_entity_kinds: Vec<EntityKind>,
    pub intents: Vec<WorkflowIntentDefinition>,
}

/// One trace event; sequences start at 1.
#[derive(Debug, PartialEq, Eq)]
pub struct WorkflowTraceEvent {
    pub sequence: u64,
    pub kind: WorkflowTraceEventKind,
    pub detail: String,
}

/// Ordered trace of a workflow run.
#[derive(Debug, PartialEq, Eq, Default)]
pub struct WorkflowExecutionTrace {
    pub events: Vec<WorkflowTraceEvent>,
}

/// Version of the workflow language.
#[derive(Debug, Clone, Copy, PartialEq, Eq, Structural)]
pub enum WorkflowDslVersion {
    V1,
}

/// Role of a node in an action graph.
#[derive(Debug, Clone, Copy, PartialEq, Eq, Structural)]
pub enum WorkflowNodeKind {
    Detect,
    Act,
    Branch,
    Wait,
    Recover,
    Complete,
}

/// Operators of node conditions.
#[derive(Debug, Clone, Copy, PartialEq, Eq, Structural)]
pub enum WorkflowConditionOperator {
    Exists,
    NotExists,
    ConfidenceAtLeast,
    LostForFramesAtLeast,
}

/// A detector declared in a recipe.
#[derive(Debug, PartialEq, Eq)]
pub enum DeclarativeDetector {
    TemplateMatch { detector_id: String, entity_kind: EntityKind },
    ColorCluster { detector_id: String, entity_kind: EntityKind },
    Ocr { detector_id: String, entity_kind: EntityKind },
    ObjectDetection { detector_id: String, entity_kind: EntityKind },
    MemoryEntity { detector_id: String, entity_kind: EntityKind },
    RenderEntity { detector_id: String, entity_kind: EntityKind },
}

/// A condition on the world model.
#[derive(Debug, PartialEq, Eq)]
pub struct WorkflowCondition {
    pub entity_kind: EntityKind,
    pub operator: WorkflowConditionOperator,
    pub threshold: Option<u32>,
}

/// Retry policy of a node.
#[derive(Debug, PartialEq, Eq)]
pub struct WorkflowRetryPolicy {
    pub max_attempts: u32,
    pub cooldown_ms: u64,
}

/// Cooldown of a node.
#[derive(Debug, PartialEq, Eq)]
pub struct WorkflowCooldown {
    pub cooldown_ms: u64,
}

/// Backends a recipe prefers, in order.
#[derive(Debug, PartialEq, Eq)]
pub struct WorkflowBackendPreference {
    pub preferred_backends: Vec<AdvancedProfileBackend>,
}

/// A recovery step of a recipe or node.
#[derive(Debug, PartialEq, Eq)]
pub enum WorkflowRecoveryStep {
    RetryCurrentNode,
    RunController { controller: NavigationControllerKind },
    EmitAction { action: SemanticInputAction },
    ResumePreviousTask,
}

/// A step of a node.
#[derive(Debug, PartialEq, Eq)]
pub enum WorkflowStep {
    Detector { detector: DeclarativeDetector },
    Action { action: SemanticInputAction },
    Condition { condition: WorkflowCondition },
    Recovery { step: WorkflowRecoveryStep },
}

/// A node of an action graph, with the ids of its successors.
#[derive(Debug, PartialEq, Eq)]
pub struct WorkflowNode {
    pub id: String,
    pub name: String,
    pub kind: WorkflowNodeKind,
    pub steps: Vec<WorkflowStep>,
    pub next: Vec<String>,
    pub retry: Option<WorkflowRetryPolicy>,
    pub cooldown: Option<WorkflowCooldown>,
}

/// A declarative task: detectors, recovery and an action graph.
#[derive(Debug, PartialEq, Eq)]
pub struct WorkflowTaskRecipe {
    pub id: String,
    pub kind: WorkflowTaskKind,
    pub detectors: Vec<DeclarativeDetector>,
    pub recovery: Vec<WorkflowRecoveryStep>,
    pub action_graph: Vec<WorkflowNode>,
    pub backend_preference: Option<WorkflowBackendPreference>,
}

/// A workflow document: a set of task recipes.
#[derive(Debug, PartialEq, Eq)]
pub struct WorkflowDslDocument {
    pub version: WorkflowDslVersion,
    pub id: String,
    pub name: String,
    pub tasks: Vec<WorkflowTaskRecipe>,
}

/// Kinds of navigation controllers.
#[derive(Debug, Clone, Copy, PartialEq, Eq, Structural)]
pub enum NavigationControllerKind {
    RotateTowardTarget,
    ApproachUntilThreshold,
    LocalWaypointFollow,
    BoundedRegionPatrol,
    NoProgressRecovery,
}

/// Outcome kinds of a navigation decision.
#[derive(Debug, Clone, Copy, PartialEq, Eq, Structural)]
pub enum NavigationDecisionKind {
    Continue,
    Arrived,
    Recovering,
    Blocked,
    Cancelled,
}

/// A navigation decision: its kind, the actions to take and why.
#[derive(Debug, PartialEq, Eq)]
pub struct NavigationDecision {
    pub kind: NavigationDecisionKind,
    pub actions: Vec<SemanticInputAction>,
    pub detail: String,
}

/// Desired and current heading, in milli-degrees.
#[derive(Debug, Clone, PartialEq, Eq)]
pub struct HeadingControlState {
    pub desired_yaw_milli_degrees: i32,
    pub current_yaw_milli_degrees: i32,
}

/// Desired and current distance, in millimeters.
#[derive(Debug, Clone, PartialEq, Eq)]
pub struct MovementCorrectionState {
    pub desired_distance_millimeters: u32,
    pub current_distance_millimeters: u32,
}

/// Whether the target is within the arrival threshold.
#[derive(Debug, Clone, PartialEq, Eq)]
pub struct ArrivalState {
    pub within_threshold: bool,
    pub threshold_millimeters: u32,
}

/// One progress sample of a navigation run.
#[derive(Debug, Clone, PartialEq, Eq, Default)]
pub struct ProgressSample {
    pub frame_id: u64,
    pub player_position_millimeters: Option<[i32; 3]>,
    pub target_distance_millimeters: Option<u32>,
}

/// Progress samples a controller remembers.
#[derive(Debug, Clone, PartialEq, Eq, Default)]
pub struct ControllerMemory {
    pub progress_samples: Vec<ProgressSample>,
}

/// Tuning of the navigation controllers.
#[derive(Debug, Clone, PartialEq, Eq)]
pub struct NavigationControllerConfig {
    pub arrival_threshold_millimeters: u32,
    pub heading_tolerance_milli_degrees: i32,
    pub move_step_ms: u64,
    pub turn_step_milli_degrees: i32,
    pub stuck_distance_epsilon_millimeters: u32,
    pub stuck_frame_window: usize,
}

/// Turns toward the target's heading.
#[derive(Debug, Default, Clone, Copy)]
pub struct RotateTowardTargetController;

/// Walks toward an entity until within the arrival threshold.
#[derive(Debug, Clone)]
pub struct ApproachUntilThresholdController {
    pub target_entity_id: String,
}

/// Patrols a region through its waypoints.
#[derive(Debug, Clone)]
pub struct BoundedRegionPatrolController {
    pub region_entity_id: String,
    pub waypoint_entity_ids: Vec<String>,
}

/// Recovers when distance to the target stops changing.
#[derive(Debug, Default, Clone, Copy)]
pub struct NoProgressRecoveryController;


/// A pack implementation: its manifest, the tasks it supports and its default plans.
pub trait AppWorkflowPack {
    fn manifest(&self) -> AppPackManifest;

    fn supported_tasks(&self) -> Vec<WorkflowTaskDefinition>;

    fn default_plan(&self, task: WorkflowTaskKind) -> Option<WorkflowPlan>;
}

impl Clone for SemanticInputTarget {
    fn clone(&self) -> (r: Self)
        ensures
            r == *self,
    {
        match self {
            SemanticInputTarget::CurrentTarget => SemanticInputTarget::CurrentTarget,
            SemanticInputTarget::EntityId { entity_id } => SemanticInputTarget::EntityId {
                entity_id: entity_id.clone(),
            },
            SemanticInputTarget::RegionId { region_id } => SemanticInputTarget::RegionId {
                region_id: region_id.clone(),
            },
        }
    }
}

impl Clone for SemanticInputAction {
    fn clone(&self) -> (r: Self)
        ensures
            r == *self,
    {
        match self {
            SemanticInputAction::MoveForward { duration_ms } => SemanticInputAction::MoveForward {
                duration_ms: *duration_ms,
            },
            SemanticInputAction::MoveBackward { duration_ms } => SemanticInputAction::MoveBackward {
                duration_ms: *duration_ms,
            },
            SemanticInputAction::StrafeLeft { duration_ms } => SemanticInputAction::StrafeLeft {
                duration_ms: *duration_ms,
            },
            SemanticInputAction::StrafeRight { duration_ms } => SemanticInputAction::StrafeRight {
                duration_ms: *duration_ms,
            },
            SemanticInputAction::Turn { delta_yaw_milli_degrees } => SemanticInputAction::Turn {
                delta_yaw_milli_degrees: *delta_yaw_milli_degrees,
            },
            SemanticInputAction::LookPitch { delta_pitch_milli_degrees } =>
                SemanticInputAction::LookPitch {
                delta_pitch_milli_degrees: *delta_pitch_milli_degrees,
            },
            SemanticInputAction::Jump => SemanticInputAction::Jump,
            SemanticInputAction::Interact => SemanticInputAction::Interact,
            SemanticInputAction::Hold { action, duration_ms } => SemanticInputAction::Hold {
                action: action.clone(),
                duration_ms: *duration_ms,
            },
            SemanticInputAction::StopMotion => SemanticInputAction::StopMotion,
            SemanticInputAction::Approach { target } => SemanticInputAction::Approach {
                target: target.clone(),
            },
            SemanticInputAction::WalkTo { target } => SemanticInputAction::WalkTo {
                target: target.clone(),
            },
        }
    }
}

// ----------------------------------------------------------------------------------------------
// Declared detectors.
/// The id of a declared detector.
pub open spec fn detector_id_of(d: DeclarativeDetector) -> String {
    match d {
        DeclarativeDetector::TemplateMatch { detector_id, .. } => detector_id,
        DeclarativeDetector::ColorCluster { detector_id, .. } => detector_id,
        DeclarativeDetector::Ocr { detector_id, .. } => detector_id,
        DeclarativeDetector::ObjectDetection { detector_id, .. } => detector_id,
        DeclarativeDetector::MemoryEntity { detector_id, .. } => detector_id,
        DeclarativeDetector::RenderEntity { detector_id, .. } => detector_id,
    }
}

/// The entity kind a declared detector finds.
pub open spec fn detector_entity_kind(d: DeclarativeDetector) -> EntityKind {
    match d {
        DeclarativeDetector::TemplateMatch { entity_kind, .. } => entity_kind,
        DeclarativeDetector::ColorCluster { entity_kind, .. } => entity_kind,
        DeclarativeDetector::Ocr { entity_kind, .. } => entity_kind,
        DeclarativeDetector::ObjectDetection { entity_kind, .. } => entity_kind,
        DeclarativeDetector::MemoryEntity { entity_kind, .. } => entity_kind,
        DeclarativeDetector::RenderEntity { entity_kind, .. } => entity_kind,
    }
}

/// The detector kind of a declared detector (same-named variants).
pub open spec fn detector_kind_of(d: DeclarativeDetector) -> DetectorKind {
    match d {
        DeclarativeDetector::TemplateMatch { .. } => DetectorKind::TemplateMatch,
        DeclarativeDetector::ColorCluster { .. } => DetectorKind::ColorCluster,
        DeclarativeDetector::Ocr { .. } => DetectorKind::Ocr,
        DeclarativeDetector::ObjectDetection { .. } => DetectorKind::ObjectDetection,
        DeclarativeDetector::MemoryEntity { .. } => DetectorKind::MemoryEntity,
        DeclarativeDetector::RenderEntity { .. } => DetectorKind::RenderEntity,
    }
}

/// The descriptor of a declared detector: its id as id and name, and its kind.
pub open spec fn descriptor_of(d: DeclarativeDetector) -> DetectorDescriptor {
    DetectorDescriptor { id: detector_id_of(d), name: detector_id_of(d), kind: detector_kind_of(d) }
}

impl DeclarativeDetector {
    /// The descriptor of this detector.
    pub fn to_descriptor(&self) -> (r: DetectorDescriptor)
        ensures
            r == descriptor_of(*self),
    {
        let (id, kind) = match self {
            DeclarativeDetector::TemplateMatch { detector_id, .. } => (
                detector_id,
                DetectorKind::TemplateMatch,
            ),
            DeclarativeDetector::ColorCluster { detector_id, .. } => (
                detector_id,
                DetectorKind::ColorCluster,
            ),
            DeclarativeDetector::Ocr { detector_id, .. } => (detector_id, DetectorKind::Ocr),
            DeclarativeDetector::ObjectDetection { detector_id, .. } => (
                detector_id,
                DetectorKind::ObjectDetection,
            ),
            DeclarativeDetector::MemoryEntity { detector_id, .. } => (
                detector_id,
                DetectorKind::MemoryEntity,
            ),
            DeclarativeDetector::RenderEntity { detector_id, .. } => (
                detector_id,
                DetectorKind::RenderEntity,
            ),
        };
        DetectorDescriptor { id: id.clone(), name: id.clone(), kind }
    }

    /// The entity kind this detector finds.
    pub fn entity_kind(&self) -> (r: EntityKind)
        ensures
            r == detector_entity_kind(*self),
    {
        match self {
            DeclarativeDetector::TemplateMatch { entity_kind, .. } => *entity_kind,
            DeclarativeDetector::ColorCluster { entity_kind, .. } => *entity_kind,
            DeclarativeDetector::Ocr { entity_kind, .. } => *entity_kind,
            DeclarativeDetector::ObjectDetection { entity_kind, .. } => *entity_kind,
            DeclarativeDetector::MemoryEntity { entity_kind, .. } => *entity_kind,
            DeclarativeDetector::RenderEntity { entity_kind, .. } => *entity_kind,
        }
    }
}

// ----------------------------------------------------------------------------------------------
// Lookups: each returns the first matching entry.
/// `i` is the first position of a recipe of the given kind.
pub open spec fn first_recipe_of_kind(tasks: Seq<WorkflowTaskRecipe>, kind: WorkflowTaskKind, i: int) -> bool {
    &&& 0 <= i < tasks.len()
    &&& tasks[i].kind == kind
    &&& forall|j: int| 0 <= j < i ==> #[trigger] tasks[j].kind != kind
}

/// What a first-match lookup of a recipe by kind returns.
pub open spec fn recipe_lookup(
    tasks: Seq<WorkflowTaskRecipe>,
    kind: WorkflowTaskKind,
    r: Option<&WorkflowTaskRecipe>,
) -> bool {
    match r {
        Some(t) => exists|i: int| first_recipe_of_kind(tasks, kind, i) && tasks[i] == *t,
        None => forall|i: int| 0 <= i < tasks.len() ==> #[trigger] tasks[i].kind != kind,
    }
}

/// The first recipe of the given kind.
pub fn find_recipe(tasks: &Vec<WorkflowTaskRecipe>, kind: WorkflowTaskKind) -> (r: Option<
    &WorkflowTaskRecipe,
>)
    ensures
        recipe_lookup(tasks@, kind, r),
{
    let mut i: usize = 0;
    while i < tasks.len()
        invariant
            i <= tasks.len(),
            forall|j: int| 0 <= j < i ==> #[trigger] tasks@[j].kind != kind,
        decreases tasks.len() - i,
    {
        if tasks[i].kind == kind {
            proof {
                assert(first_recipe_of_kind(tasks@, kind, i as int));
            }
            return Some(&tasks[i]);
        }
        i = i + 1;
    }
    None
}

impl WorkflowDslDocument {
    /// The first task recipe of the given kind.
    pub fn task(&self, kind: WorkflowTaskKind) -> (r: Option<&WorkflowTaskRecipe>)
        ensures
            recipe_lookup(self.tasks@, kind, r),
    {
        find_recipe(&self.tasks, kind)
    }
}

/// `i` is the first position of a detector preset with the given id.
pub open spec fn first_detector_with_id(detectors: Seq<AppPackDetectorPreset>, id: Seq<char>, i: int) -> bool {
    &&& 0 <= i < detectors.len()
    &&& detectors[i].id@ == id
    &&& forall|j: int| 0 <= j < i ==> #[trigger] detectors[j].id@ != id
}

/// `i` is the first position of a profile preset with the given id.
pub open spec fn first_preset_with_id(presets: Seq<AppPackProfilePreset>, id: Seq<char>, i: int) -> bool {
    &&& 0 <= i < presets.len()
    &&& presets[i].id@ == id
    &&& forall|j: int| 0 <= j < i ==> #[trigger] presets[j].id@ != id
}

impl AppPackBundle {
    /// The first task recipe of the given kind.
    pub fn task_recipe(&self, kind: WorkflowTaskKind) -> (r: Option<&WorkflowTaskRecipe>)
        ensures
            recipe_lookup(self.task_recipes@, kind, r),
    {
        find_recipe(&self.task_recipes, kind)
    }

    /// The first detector preset with the given id.
    pub fn detector(&self, id: &str) -> (r: Option<&AppPackDetectorPreset>)
        ensures
            match r {
                Some(d) => exists|i: int|
                    first_detector_with_id(self.detectors@, id@, i) && self.detectors@[i] == *d,
                None => forall|i: int|
                    0 <= i < self.detectors@.len() ==> #[trigger] self.detectors@[i].id@ != id@,
            },
    {
        let mut i: usize = 0;
        while i < self.detectors.len()
            invariant
                i <= self.detectors.len(),
                forall|j: int| 0 <= j < i ==> #[trigger] self.detectors@[j].id@ != id@,
            decreases self.detectors.len() - i,
        {
            if str_eq(self.detectors[i].id.as_str(), id) {
                proof {
                    assert(first_detector_with_id(self.detectors@, id@, i as int));
                }
                return Some(&self.detectors[i]);
            }
            i = i + 1;
        }
        None
    }

    /// The first profile preset with the given id.
    pub fn profile_preset(&self, id: &str) -> (r: Option<&AppPackProfilePreset>)
        ensures
            match r {
                Some(p) => exists|i: int|
                    first_preset_with_id(self.profile_presets@, id@, i) && self.profile_presets@[i]
                        == *p,
                None => forall|i: int|
                    0 <= i < self.profile_presets@.len() ==> #[trigger] self.profile_presets@[i].id@
                        != id@,
            },
    {
        let mut i: usize = 0;
        while i < self.profile_presets.len()
            invariant
                i <= self.profile_presets.len(),
                forall|j: int| 0 <= j < i ==> #[trigger] self.profile_presets@[j].id@ != id@,
            decreases self.profile_presets.len() - i,
        {
            if str_eq(self.profile_presets[i].id.as_str(), id) {
                proof {
                    assert(first_preset_with_id(self.profile_presets@, id@, i as int));
                }
                return Some(&self.profile_presets[i]);
            }
            i = i + 1;
        }
        None
    }
}


// ----------------------------------------------------------------------------------------------
// Compiling recipes into plans.
/// The intent kind of an action; a held key counts as an interaction.
pub open spec fn intent_kind_of(action: SemanticInputAction) -> WorkflowIntentKind {
    match action {
        SemanticInputAction::MoveForward { .. } => WorkflowIntentKind::MoveForward,
        SemanticInputAction::MoveBackward { .. } => WorkflowIntentKind::MoveBackward,
        SemanticInputAction::StrafeLeft { .. } => WorkflowIntentKind::StrafeLeft,
        SemanticInputAction::StrafeRight { .. } => WorkflowIntentKind::StrafeRight,
        SemanticInputAction::Turn { .. } => WorkflowIntentKind::Turn,
        SemanticInputAction::LookPitch { .. } => WorkflowIntentKind::LookPitch,
        SemanticInputAction::Jump => WorkflowIntentKind::Jump,
        SemanticInputAction::Interact => WorkflowIntentKind::Interact,
        SemanticInputAction::Hold { .. } => WorkflowIntentKind::Interact,
        SemanticInputAction::StopMotion => WorkflowIntentKind::StopMotion,
        SemanticInputAction::Approach { .. } => WorkflowIntentKind::ApproachTarget,
        SemanticInputAction::WalkTo { .. } => WorkflowIntentKind::WalkToRegionOrEntity,
    }
}

/// The intent kind of an action.
pub fn workflow_intent_kind_for_action(action: &SemanticInputAction) -> (r: WorkflowIntentKind)
    ensures
        r == intent_kind_of(*action),
{
    match action {
        SemanticInputAction::MoveForward { .. } => WorkflowIntentKind::MoveForward,
        SemanticInputAction::MoveBackward { .. } => WorkflowIntentKind::MoveBackward,
        SemanticInputAction::StrafeLeft { .. } => WorkflowIntentKind::StrafeLeft,
        SemanticInputAction::StrafeRight { .. } => WorkflowIntentKind::StrafeRight,
        SemanticInputAction::Turn { .. } => WorkflowIntentKind::Turn,
        SemanticInputAction::LookPitch { .. } => WorkflowIntentKind::LookPitch,
        SemanticInputAction::Jump => WorkflowIntentKind::Jump,
        SemanticInputAction::Interact => WorkflowIntentKind::Interact,
        SemanticInputAction::Hold { .. } => WorkflowIntentKind::Interact,
        SemanticInputAction::StopMotion => WorkflowIntentKind::StopMotion,
        SemanticInputAction::Approach { .. } => WorkflowIntentKind::ApproachTarget,
        SemanticInputAction::WalkTo { .. } => WorkflowIntentKind::WalkToRegionOrEntity,
    }
}

/// The action steps of a node, in order.
pub open spec fn step_actions(steps: Seq<WorkflowStep>) -> Seq<SemanticInputAction>
    decreases steps.len(),
{
    if steps.len() == 0 {
        Seq::empty()
    } else {
        let prefix = step_actions(steps.drop_last());
        match steps.last() {
            WorkflowStep::Action { action } => prefix.push(action),
            _ => prefix,
        }
    }
}

/// The action steps of an action graph, node after node.
pub open spec fn graph_actions(nodes: Seq<WorkflowNode>) -> Seq<SemanticInputAction>
    decreases nodes.len(),
{
    if nodes.len() == 0 {
        Seq::empty()
    } else {
        graph_actions(nodes.drop_last()) + step_actions(nodes.last().steps@)
    }
}

/// Description of an intent compiled from a recipe's action.
pub open spec fn compiled_description(recipe_id: Seq<char>) -> Seq<char> {
    "compiled from node action '"@ + recipe_id + "'"@
}

/// `intent` is the one compiled from `action` of the recipe `recipe_id`.
pub open spec fn compiled_intent(
    intent: WorkflowIntentDefinition,
    recipe_id: Seq<char>,
    action: SemanticInputAction,
) -> bool {
    &&& intent.kind == intent_kind_of(action)
    &&& intent.description@ == compiled_description(recipe_id)
    &&& intent.semantic_action == Some(action)
    &&& intent.sink_preference is None
}

/// `intents` are compiled, one for one, from `actions`.
pub open spec fn compiled_intents(
    intents: Seq<WorkflowIntentDefinition>,
    recipe_id: Seq<char>,
    actions: Seq<SemanticInputAction>,
) -> bool {
    &&& intents.len() == actions.len()
    &&& forall|k: int| 0 <= k < intents.len() ==> #[trigger] compiled_intent(intents[k], recipe_id, actions[k])
}

impl WorkflowTaskRecipe {
    /// Compiles the recipe: its id names the plan and the task, its detectors become the
    /// required detectors and entity kinds, and each action step of the graph, node after node,
    /// becomes an intent.
    pub fn compile_plan(&self) -> (r: WorkflowPlan)
        ensures
            r.pack_id@ == self.id@,
            r.task.id@ == self.id@,
            r.task.name@ == self.id@,
            r.task.kind == self.kind,
            r.required_detectors@ == self.detectors@.map_values(|d: DeclarativeDetector| descriptor_of(d)),
            r.required_entity_kinds@ == self.detectors@.map_values(
                |d: DeclarativeDetector| detector_entity_kind(d),
            ),
            compiled_intents(r.intents@, self.id@, graph_actions(self.action_graph@)),
    {
        let mut descriptors: Vec<DetectorDescriptor> = Vec::new();
        let mut kinds: Vec<EntityKind> = Vec::new();
        let mut i: usize = 0;
        while i < self.detectors.len()
            invariant
                i <= self.detectors.len(),
                descriptors@ == self.detectors@.subrange(0, i as int).map_values(
                    |d: DeclarativeDetector| descriptor_of(d),
                ),
                kinds@ == self.detectors@.subrange(0, i as int).map_values(
                    |d: DeclarativeDetector| detector_entity_kind(d),
                ),
            decreases self.detectors.len() - i,
        {
            descriptors.push(self.detectors[i].to_descriptor());
            kinds.push(self.detectors[i].entity_kind());
            proof {
                assert(descriptors@ =~= self.detectors@.subrange(0, i + 1).map_values(
                    |d: DeclarativeDetector| descriptor_of(d),
                ));
                assert(kinds@ =~= self.detectors@.subrange(0, i + 1).map_values(
                    |d: DeclarativeDetector| detector_entity_kind(d),
                ));
            }
            i = i + 1;
        }
        proof {
            assert(self.detectors@.subrange(0, self.detectors@.len() as int) =~= self.detectors@);
        }
        let mut description_chars: Vec<char> = Vec::new();
        push_str(&mut description_chars, "compiled from node action '");
        push_str(&mut description_chars, self.id.as_str());
        push_str(&mut description_chars, "'");
        proof {
            assert(description_chars@ =~= compiled_description(self.id@));
        }
        let description = string_from_chars(&description_chars);
        let nodes = &self.action_graph;
        let mut intents: Vec<WorkflowIntentDefinition> = Vec::new();
        let mut n: usize = 0;
        while n < nodes.len()
            invariant
                n <= nodes.len(),
                description@ == compiled_description(self.id@),
                compiled_intents(intents@, self.id@, graph_actions(nodes@.subrange(0, n as int))),
            decreases nodes.len() - n,
        {
            let steps = &nodes[n].steps;
            let ghost before = graph_actions(nodes@.subrange(0, n as int));
            let mut j: usize = 0;
            while j < steps.len()
                invariant
                    j <= steps.len(),
                    description@ == compiled_description(self.id@),
                    compiled_intents(intents@, self.id@, before + step_actions(steps@.subrange(0, j as int))),
                decreases steps.len() - j,
            {
                let ghost old_intents = intents@;
                proof {
                    assert(steps@.subrange(0, j + 1).drop_last() =~= steps@.subrange(0, j as int));
                }
                match &steps[j] {
                    WorkflowStep::Action { action } => {
                        let intent = WorkflowIntentDefinition {
                            kind: workflow_intent_kind_for_action(action),
                            description: description.clone(),
                            semantic_action: Some(action.clone()),
                            sink_preference: None,
                        };
                        intents.push(intent);
                        proof {
                            let acts = before + step_actions(steps@.subrange(0, j + 1));
                            assert(acts =~= (before + step_actions(steps@.subrange(0, j as int))).push(
                                *action,
                            ));
                            assert forall|k: int| 0 <= k < intents@.len() implies #[trigger] compiled_intent(
                                intents@[k],
                                self.id@,
                                acts[k],
                            ) by {
                                if k < old_intents.len() {
                                    assert(intents@[k] == old_intents[k]);
                                }
                            }
                        }
                    },
                    _ => {
                        proof {
                            assert(before + step_actions(steps@.subrange(0, j + 1)) =~= before
                                + step_actions(steps@.subrange(0, j as int)));
                        }
                    },
                }
                j = j + 1;
            }
            proof {
                assert(steps@.subrange(0, steps@.len() as int) =~= steps@);
                assert(nodes@.subrange(0, n + 1).drop_last() =~= nodes@.subrange(0, n as int));
                assert(graph_actions(nodes@.subrange(0, n + 1)) == before + step_actions(steps@));
            }
            n = n + 1;
        }
        proof {
            assert(nodes@.subrange(0, nodes@.len() as int) =~= nodes@);
        }
        WorkflowPlan {
            pack_id: self.id.clone(),
            task: WorkflowTaskDefinition { id: self.id.clone(), name: self.id.clone(), kind: self.kind },
            required_detectors: descriptors,
            required_entity_kinds: kinds,
            intents,
        }
    }
}


// ----------------------------------------------------------------------------------------------
// Walking action graphs.
/// `i` is the first position of a node with the given id.
pub open spec fn first_node_with_id(nodes: Seq<WorkflowNode>, id: Seq<char>, i: int) -> bool {
    &&& 0 <= i < nodes.len()
    &&& nodes[i].id@ == id
    &&& forall|j: int| 0 <= j < i ==> #[trigger] nodes[j].id@ != id
}

/// The position of the first node with the given id, if any.
pub open spec fn node_position(nodes: Seq<WorkflowNode>, id: Seq<char>) -> Option<int> {
    if exists|i: int| first_node_with_id(nodes, id, i) {
        Some(choose|i: int| first_node_with_id(nodes, id, i))
    } else {
        None
    }
}

/// The nodes that a list of ids names, in order; ids without a node are skipped.
pub open spec fn resolve_node_ids(nodes: Seq<WorkflowNode>, ids: Seq<String>) -> Seq<WorkflowNode>
    decreases ids.len(),
{
    if ids.len() == 0 {
        Seq::empty()
    } else {
        let prefix = resolve_node_ids(nodes, ids.drop_last());
        match node_position(nodes, ids.last()@) {
            Some(k) => prefix.push(nodes[k]),
            None => prefix,
        }
    }
}

/// The successors of a node: none when no node has the id, else the nodes its `next` list
/// names, in order.
pub open spec fn successors(nodes: Seq<WorkflowNode>, node_id: Seq<char>) -> Seq<WorkflowNode> {
    match node_position(nodes, node_id) {
        Some(k) => resolve_node_ids(nodes, nodes[k].next@),
        None => Seq::empty(),
    }
}

proof fn lemma_first_node_unique(nodes: Seq<WorkflowNode>, id: Seq<char>, i: int)
    requires
        first_node_with_id(nodes, id, i),
    ensures
        node_position(nodes, id) == Some(i),
{
    let k = choose|k: int| first_node_with_id(nodes, id, k);
    assert(first_node_with_id(nodes, id, k));
    if k < i {
        assert(nodes[k].id@ != id);
    } else if i < k {
        assert(nodes[i].id@ != id);
    }
}

/// Position of the first node with the given id.
fn find_node(nodes: &Vec<WorkflowNode>, id: &str) -> (r: Option<usize>)
    ensures
        match r {
            Some(i) => node_position(nodes@, id@) == Some(i as int),
            None => node_position(nodes@, id@) is None,
        },
{
    let mut i: usize = 0;
    while i < nodes.len()
        invariant
            i <= nodes.len(),
            forall|j: int| 0 <= j < i ==> #[trigger] nodes@[j].id@ != id@,
        decreases nodes.len() - i,
    {
        if str_eq(nodes[i].id.as_str(), id) {
            proof {
                lemma_first_node_unique(nodes@, id@, i as int);
            }
            return Some(i);
        }
        i = i + 1;
    }
    proof {
        assert(!exists|k: int| first_node_with_id(nodes@, id@, k));
    }
    None
}

/// The successors of the node `node_id` in the recipe's action graph.
pub fn next_nodes<'a>(recipe: &'a WorkflowTaskRecipe, node_id: &str) -> (r: Vec<&'a WorkflowNode>)
    ensures
        r@.len() == successors(recipe.action_graph@, node_id@).len(),
        forall|k: int| 0 <= k < r@.len() ==> *r@[k] == #[trigger] successors(recipe.action_graph@, node_id@)[k],
{
    let nodes = &recipe.action_graph;
    let mut out: Vec<&'a WorkflowNode> = Vec::new();
    let start = find_node(nodes, node_id);
    match start {
        None => {
            return out;
        },
        Some(k) => {
            let next = &nodes[k].next;
            let mut i: usize = 0;
            while i < next.len()
                invariant
                    i <= next.len(),
                    k < nodes.len(),
                    next@ == nodes@[k as int].next@,
                    out@.len() == resolve_node_ids(nodes@, next@.subrange(0, i as int)).len(),
                    forall|m: int| 0 <= m < out@.len() ==> *out@[m] == #[trigger] resolve_node_ids(nodes@, next@.subrange(0, i as int))[m],
                decreases next.len() - i,
            {
                proof {
                    assert(next@.subrange(0, i + 1).drop_last() =~= next@.subrange(0, i as int));
                }
                let found = find_node(nodes, next[i].as_str());
                match found {
                    Some(t) => {
                        out.push(&nodes[t]);
                    },
                    None => {},
                }
                i = i + 1;
            }
            proof {
                assert(next@.subrange(0, next@.len() as int) =~= next@);
            }
            out
        },
    }
}

// ----------------------------------------------------------------------------------------------
// Progress.
/// Stuck: the last `window` samples (a non-empty window) start and end with a known target
/// distance, and the two differ by at most the epsilon.
pub open spec fn stuck(samples: Seq<ProgressSample>, window: nat, epsilon: u32) -> bool {
    &&& window > 0
    &&& samples.len() >= window
    &&& samples[samples.len() - window].target_distance_millimeters is Some
    &&& samples[samples.len() - 1].target_distance_millimeters is Some
    &&& {
        let first = samples[samples.len() - window].target_distance_millimeters.unwrap();
        let last = samples[samples.len() - 1].target_distance_millimeters.unwrap();
        (if first >= last { first - last } else { last - first }) <= epsilon
    }
}

/// Whether the distance to the target stopped changing over the configured window.
pub fn is_stuck(memory: &ControllerMemory, config: &NavigationControllerConfig) -> (r: bool)
    ensures
        r == stuck(memory.progress_samples@, config.stuck_frame_window as nat, config.stuck_distance_epsilon_millimeters),
{
    let samples = &memory.progress_samples;
    let window = config.stuck_frame_window;
    if samples.len() < window || window == 0 {
        return false;
    }
    let first = match samples[samples.len() - window].target_distance_millimeters {
        Some(d) => d,
        None => {
            return false;
        },
    };
    let last = match samples[samples.len() - 1].target_distance_millimeters {
        Some(d) => d,
        None => {
            return false;
        },
    };
    let diff = if first >= last {
        first - last
    } else {
        last - first
    };
    diff <= config.stuck_distance_epsilon_millimeters
}

impl Default for NavigationControllerConfig {
    /// Arrival within 900 mm, heading tolerance 5000 md, moves of 150 ms, turns of 12000 md,
    /// stuck below 80 mm of change over 3 samples.
    fn default() -> (r: Self)
        ensures
            r.arrival_threshold_millimeters == 900,
            r.heading_tolerance_milli_degrees == 5000,
            r.move_step_ms == 150,
            r.turn_step_milli_degrees == 12000,
            r.stuck_distance_epsilon_millimeters == 80,
            r.stuck_frame_window == 3,
    {
        NavigationControllerConfig {
            arrival_threshold_millimeters: 900,
            heading_tolerance_milli_degrees: 5000,
            move_step_ms: 150,
            turn_step_milli_degrees: 12000,
            stuck_distance_epsilon_millimeters: 80,
            stuck_frame_window: 3,
        }
    }
}


// ----------------------------------------------------------------------------------------------
// Input sinks.
/// Actions that only a semantic navigation channel can express directly.
pub open spec fn semantic_navigation_action(a: SemanticInputAction) -> bool {
    a is Approach || a is WalkTo
}

/// Actions better expressed as in-game actions than as raw input.
pub open spec fn semantic_preferred_action(a: SemanticInputAction) -> bool {
    a is Approach || a is WalkTo || a is Interact || a is StopMotion
}

/// Actions that window messages can carry safely.
pub open spec fn message_safe_action(a: SemanticInputAction) -> bool {
    a is Jump || a is Interact || a is Hold || a is StopMotion
}

/// Whether a sink can carry an action on a backend with the given capabilities.
pub open spec fn sink_supports(
    sink: InputSinkKind,
    caps: AdvancedBackendCapabilities,
    a: SemanticInputAction,
) -> bool {
    match sink {
        InputSinkKind::SemanticInternalAction => (semantic_navigation_action(a)
            && caps.semantic_navigation) || (semantic_preferred_action(a)
            && caps.internal_interaction),
        InputSinkKind::InjectedRawInput => caps.injected_input,
        InputSinkKind::Win32Message => caps.message_input && message_safe_action(a),
        InputSinkKind::Win32Foreground => caps.foreground_input,
    }
}

/// The sink order used without a preference: semantic actions first where the backend
/// offers them, then injected input, window messages and foreground input.
pub open spec fn default_order(caps: AdvancedBackendCapabilities, a: SemanticInputAction) -> Seq<
    InputSinkKind,
> {
    (if semantic_preferred_action(a) && caps.internal_interaction {
        seq![InputSinkKind::SemanticInternalAction]
    } else {
        Seq::empty()
    }) + (if semantic_navigation_action(a) && caps.semantic_navigation {
        seq![InputSinkKind::SemanticInternalAction]
    } else {
        Seq::empty()
    }) + (if caps.injected_input {
        seq![InputSinkKind::InjectedRawInput]
    } else {
        Seq::empty()
    }) + (if caps.message_input {
        seq![InputSinkKind::Win32Message]
    } else {
        Seq::empty()
    }) + (if caps.foreground_input {
        seq![InputSinkKind::Win32Foreground]
    } else {
        Seq::empty()
    })
}

/// The sink order of a preference, or the default order without one.
pub open spec fn preferred_order(
    caps: AdvancedBackendCapabilities,
    preference: Option<InputSinkPreference>,
    a: SemanticInputAction,
) -> Seq<InputSinkKind> {
    match preference {
        Some(p) => p.ordered_sinks@,
        None => default_order(caps, a),
    }
}

/// `i` is the first position in `order` of a sink that supports the action.
pub open spec fn first_supporting(
    order: Seq<InputSinkKind>,
    caps: AdvancedBackendCapabilities,
    a: SemanticInputAction,
    i: int,
) -> bool {
    &&& 0 <= i < order.len()
    &&& sink_supports(order[i], caps, a)
    &&& forall|j: int| 0 <= j < i ==> !#[trigger] sink_supports(order[j], caps, a)
}

/// The first sink of `order` that supports the action, if any.
pub open spec fn chosen_sink(
    order: Seq<InputSinkKind>,
    caps: AdvancedBackendCapabilities,
    a: SemanticInputAction,
) -> Option<InputSinkKind> {
    if exists|i: int| first_supporting(order, caps, a, i) {
        Some(order[choose|i: int| first_supporting(order, caps, a, i)])
    } else {
        None
    }
}

/// Whether a sink can carry an action.
fn sink_supports_action(
    sink: InputSinkKind,
    caps: &AdvancedBackendCapabilities,
    action: &SemanticInputAction,
) -> (r: bool)
    ensures
        r == sink_supports(sink, *caps, *action),
{
    let navigation = match action {
        SemanticInputAction::Approach { .. } | SemanticInputAction::WalkTo { .. } => true,
        _ => false,
    };
    let preferred = match action {
        SemanticInputAction::Approach { .. } | SemanticInputAction::WalkTo { .. }
        | SemanticInputAction::Interact | SemanticInputAction::StopMotion => true,
        _ => false,
    };
    let message_safe = match action {
        SemanticInputAction::Jump | SemanticInputAction::Interact | SemanticInputAction::Hold { .. }
        | SemanticInputAction::StopMotion => true,
        _ => false,
    };
    match sink {
        InputSinkKind::SemanticInternalAction => (navigation && caps.semantic_navigation) || (
        preferred && caps.internal_interaction),
        InputSinkKind::InjectedRawInput => caps.injected_input,
        InputSinkKind::Win32Message => caps.message_input && message_safe,
        InputSinkKind::Win32Foreground => caps.foreground_input,
    }
}

/// The default sink order for an action.
fn default_sink_order(caps: &AdvancedBackendCapabilities, action: &SemanticInputAction) -> (r: Vec<
    InputSinkKind,
>)
    ensures
        r@ == default_order(*caps, *action),
{
    let navigation = match action {
        SemanticInputAction::Approach { .. } | SemanticInputAction::WalkTo { .. } => true,
        _ => false,
    };
    let preferred = match action {
        SemanticInputAction::Approach { .. } | SemanticInputAction::WalkTo { .. }
        | SemanticInputAction::Interact | SemanticInputAction::StopMotion => true,
        _ => false,
    };
    let mut sinks: Vec<InputSinkKind> = Vec::new();
    if preferred && caps.internal_interaction {
        sinks.push(InputSinkKind::SemanticInternalAction);
    }
    if navigation && caps.semantic_navigation {
        sinks.push(InputSinkKind::SemanticInternalAction);
    }
    if caps.injected_input {
        sinks.push(InputSinkKind::InjectedRawInput);
    }
    if caps.message_input {
        sinks.push(InputSinkKind::Win32Message);
    }
    if caps.foreground_input {
        sinks.push(InputSinkKind::Win32Foreground);
    }
    proof {
        assert(sinks@ =~= default_order(*caps, *action));
    }
    sinks
}

proof fn lemma_first_supporting_unique(
    order: Seq<InputSinkKind>,
    caps: AdvancedBackendCapabilities,
    a: SemanticInputAction,
    i: int,
)
    requires
        first_supporting(order, caps, a, i),
    ensures
        chosen_sink(order, caps, a) == Some(order[i]),
{
    let k = choose|k: int| first_supporting(order, caps, a, k);
    assert(first_supporting(order, caps, a, k));
    if k < i {
        assert(!sink_supports(order[k], caps, a));
    } else if i < k {
        assert(!sink_supports(order[i], caps, a));
    }
}

/// The first sink, in the preferred order (or the default order without a preference), that
/// can carry the action.
pub fn preferred_input_sink(
    capabilities: &AdvancedBackendCapabilities,
    preference: Option<&InputSinkPreference>,
    action: &SemanticInputAction,
) -> (r: Option<InputSinkKind>)
    ensures
        r == chosen_sink(
            preferred_order(
                *capabilities,
                match preference {
                    Some(p) => Some(*p),
                    None => None,
                },
                *action,
            ),
            *capabilities,
            *action,
        ),
{
    let default_order = default_sink_order(capabilities, action);
    let ordered: &Vec<InputSinkKind> = match preference {
        Some(p) => &p.ordered_sinks,
        None => &default_order,
    };
    let ghost order = ordered@;
    let ghost pref = match preference {
        Some(p) => Some(*p),
        None => None,
    };
    assert(order == preferred_order(*capabilities, pref, *action));
    let mut i: usize = 0;
    while i < ordered.len()
        invariant
            i <= ordered.len(),
            order == ordered@,
            order == preferred_order(*capabilities, pref, *action),
            pref == match preference {
                Some(p) => Some(*p),
                None => None,
            },
            forall|j: int| 0 <= j < i ==> !#[trigger] sink_supports(order[j], *capabilities, *action),
        decreases ordered.len() - i,
    {
        if sink_supports_action(ordered[i], capabilities, action) {
            proof {
                lemma_first_supporting_unique(order, *capabilities, *action, i as int);
            }
            return Some(ordered[i]);
        }
        i = i + 1;
    }
    proof {
        assert(!exists|k: int| first_supporting(order, *capabilities, *action, k));
    }
    None
}

/// The sink an intent's action is routed to, if it has an action and a sink can carry it.
pub open spec fn intent_sink(intent: WorkflowIntentDefinition, caps: AdvancedBackendCapabilities) -> Option<
    InputSinkKind,
> {
    match intent.semantic_action {
        Some(a) => chosen_sink(preferred_order(caps, intent.sink_preference, a), caps, a),
        None => None,
    }
}

/// `m` routes the intent's action to `sink`, described by the intent's description.
pub open spec fn mapping_of(m: InputSinkMapping, intent: WorkflowIntentDefinition, sink: InputSinkKind) -> bool {
    &&& m.sink == sink
    &&& intent.semantic_action == Some(m.action)
    &&& m.detail@ == intent.description@
}

impl WorkflowIntentDefinition {
    /// Routes the intent's action to its sink; `None` without an action or a capable sink.
    pub fn into_input_mapping(&self, capabilities: &AdvancedBackendCapabilities) -> (r: Option<
        InputSinkMapping,
    >)
        ensures
            match intent_sink(*self, *capabilities) {
                Some(sink) => r matches Some(m) && mapping_of(m, *self, sink),
                None => r is None,
            },
    {
        let action = match &self.semantic_action {
            Some(a) => a.clone(),
            None => {
                return None;
            },
        };
        let preference = match &self.sink_preference {
            Some(p) => Some(p),
            None => None,
        };
        let sink = match preferred_input_sink(capabilities, preference, &action) {
            Some(s) => s,
            None => {
                return None;
            },
        };
        Some(InputSinkMapping { sink, action, detail: self.description.clone() })
    }
}

/// The intents of a list that some sink can carry, in order.
pub open spec fn routable_intents(
    intents: Seq<WorkflowIntentDefinition>,
    caps: AdvancedBackendCapabilities,
) -> Seq<WorkflowIntentDefinition>
    decreases intents.len(),
{
    if intents.len() == 0 {
        Seq::empty()
    } else {
        let prefix = routable_intents(intents.drop_last(), caps);
        if intent_sink(intents.last(), caps) is Some {
            prefix.push(intents.last())
        } else {
            prefix
        }
    }
}

/// `mappings` route, one for one, the routable intents of a plan.
pub open spec fn routes_intents(
    mappings: Seq<InputSinkMapping>,
    intents: Seq<WorkflowIntentDefinition>,
    caps: AdvancedBackendCapabilities,
) -> bool {
    let routable = routable_intents(intents, caps);
    &&& mappings.len() == routable.len()
    &&& forall|k: int|
        0 <= k < mappings.len() ==> #[trigger] mapping_of(
            mappings[k],
            routable[k],
            intent_sink(routable[k], caps).unwrap(),
        )
}

impl WorkflowPlan {
    /// Routes every intent that some sink can carry; the others are left out.
    pub fn resolve_input_plan(&self, capabilities: &AdvancedBackendCapabilities) -> (r:
        WorkflowInputPlan)
        ensures
            routes_intents(r.mappings@, self.intents@, *capabilities),
    {
        let mut mappings: Vec<InputSinkMapping> = Vec::new();
        let mut i: usize = 0;
        while i < self.intents.len()
            invariant
                i <= self.intents.len(),
                routes_intents(mappings@, self.intents@.subrange(0, i as int), *capabilities),
            decreases self.intents.len() - i,
        {
            let ghost before = mappings@;
            proof {
                assert(self.intents@.subrange(0, i + 1).drop_last() =~= self.intents@.subrange(0, i as int));
            }
            match self.intents[i].into_input_mapping(capabilities) {
                Some(m) => {
                    mappings.push(m);
                    proof {
                        let routable = routable_intents(self.intents@.subrange(0, i + 1), *capabilities);
                        assert forall|k: int| 0 <= k < mappings@.len() implies #[trigger] mapping_of(
                            mappings@[k],
                            routable[k],
                            intent_sink(routable[k], *capabilities).unwrap(),
                        ) by {
                            if k < before.len() {
                                assert(mappings@[k] == before[k]);
                            }
                        }
                    }
                },
                None => {},
            }
            i = i + 1;
        }
        proof {
            assert(self.intents@.subrange(0, self.intents@.len() as int) =~= self.intents@);
        }
        WorkflowInputPlan { mappings }
    }
}


// ----------------------------------------------------------------------------------------------
// Registry and traces.
impl AppPackRegistry {
    /// Appends a pack manifest.
    pub fn register(&mut self, manifest: AppPackManifest)
        ensures
            final(self).packs@ == old(self).packs@.push(manifest),
    {
        self.packs.push(manifest);
    }
}

/// Trace events are numbered 1, 2, 3, ... in the order they were pushed.
pub open spec fn trace_sequenced(events: Seq<WorkflowTraceEvent>) -> bool {
    forall|i: int| 0 <= i < events.len() ==> #[trigger] events[i].sequence == i + 1
}

/// Snake-case name of a trace event kind.
pub open spec fn trace_kind_name(kind: WorkflowTraceEventKind) -> Seq<char> {
    match kind {
        WorkflowTraceEventKind::ObservationAccepted => "observation_accepted"@,
        WorkflowTraceEventKind::TaskSelected => "task_selected"@,
        WorkflowTraceEventKind::IntentIssued => "intent_issued"@,
        WorkflowTraceEventKind::RecoveryTriggered => "recovery_triggered"@,
        WorkflowTraceEventKind::PlanBlocked => "plan_blocked"@,
    }
}

/// Snake-case name of a trace event kind.
pub fn workflow_trace_event_kind_name(kind: WorkflowTraceEventKind) -> (r: &'static str)
    ensures
        r@ == trace_kind_name(kind),
{
    match kind {
        WorkflowTraceEventKind::ObservationAccepted => "observation_accepted",
        WorkflowTraceEventKind::TaskSelected => "task_selected",
        WorkflowTraceEventKind::IntentIssued => "intent_issued",
        WorkflowTraceEventKind::RecoveryTriggered => "recovery_triggered",
        WorkflowTraceEventKind::PlanBlocked => "plan_blocked",
    }
}

/// One line of reasoning: the event's kind name, a colon and its detail.
pub open spec fn trace_line(event: WorkflowTraceEvent) -> Seq<char> {
    trace_kind_name(event.kind) + ": "@ + event.detail@
}

/// How many recent events a reasoning summary cites.
pub open spec fn basis_len(n: nat) -> nat {
    if n < 3 {
        n
    } else {
        3
    }
}

impl WorkflowExecutionTrace {
    /// Appends an event numbered one past the current count.
    pub fn push(&mut self, kind: WorkflowTraceEventKind, detail: &str)
        requires
            old(self).events@.len() < u64::MAX,
        ensures
            final(self).events@.len() == old(self).events@.len() + 1,
            final(self).events@.subrange(0, old(self).events@.len() as int) == old(self).events@,
            final(self).events@.last().sequence == old(self).events@.len() + 1,
            final(self).events@.last().kind == kind,
            final(self).events@.last().detail@ == detail@,
            trace_sequenced(old(self).events@) ==> trace_sequenced(final(self).events@),
    {
        let next_sequence = self.events.len() as u64 + 1;
        self.events.push(WorkflowTraceEvent { sequence: next_sequence, kind, detail: string_of(detail) });
        proof {
            assert(self.events@.subrange(0, old(self).events@.len() as int) =~= old(self).events@);
        }
    }

    /// Operator-facing reasoning: the latest event's detail as summary and the lines of the
    /// latest (up to) three events, newest first, as basis; `None` for an empty trace.
    pub fn reasoning(&self) -> (r: Option<AdvancedExecutionReason>)
        ensures
            match r {
                None => self.events@.len() == 0,
                Some(reason) => {
                    let n = self.events@.len();
                    &&& n > 0
                    &&& reason.summary@ == self.events@[n - 1].detail@
                    &&& reason.basis@.len() == basis_len(n)
                    &&& forall|k: int|
                        0 <= k < reason.basis@.len() ==> #[trigger] reason.basis@[k]@ == trace_line(
                            self.events@[n - 1 - k],
                        )
                },
            },
    {
        let n = self.events.len();
        if n == 0 {
            return None;
        }
        let mut basis: Vec<String> = Vec::new();
        let mut k: usize = 0;
        while k < n && k < 3
            invariant
                n == self.events@.len(),
                n > 0,
                k <= n,
                k <= 3,
                basis@.len() == k,
                forall|m: int| 0 <= m < k ==> #[trigger] basis@[m]@ == trace_line(self.events@[n - 1 - m]),
            decreases 3 - k,
        {
            let event = &self.events[n - 1 - k];
            let mut line: Vec<char> = Vec::new();
            push_str(&mut line, workflow_trace_event_kind_name(event.kind));
            push_str(&mut line, ": ");
            push_str(&mut line, event.detail.as_str());
            proof {
                assert(line@ =~= trace_line(self.events@[n - 1 - k]));
            }
            basis.push(string_from_chars(&line));
            k = k + 1;
        }
        Some(AdvancedExecutionReason { summary: self.events[n - 1].detail.clone(), basis })
    }
}

} // verus!
