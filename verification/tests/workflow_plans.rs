use winr::perception::{
    metadata_from_update, ObservationCaptureContext, ObservationImageHandle, ObservationPixelFormat,
    ObservationSourceData, assess_freshness, unique_detector_kinds, DetectorDescriptor, DetectorKind, EntityKind,
    ObservationFreshnessPolicy, ObservationFreshnessStatus, ObservationMetadata,
    ObservationSourceKind, ObservationStateVersion,
};
use winr::navigation::{TrackedEntitySummary, WorldModelSummary};
use winr::perception::TrackedEntityStatus;
use winr::protocol::{
    AdvancedBackendCapabilities, AdvancedBinaryPayloadRef, AdvancedIpcTransportKind,
    AdvancedObservationUpdate, AdvancedPayloadEncoding, AdvancedProfileBackend, AdvancedTargetRef,
};
use winr::workflows::{
    is_stuck, next_nodes, preferred_input_sink, AppPackManifest, AppPackRegistry, AppWorkflowPack,
    ControllerMemory, DeclarativeDetector, InputSinkKind, InputSinkPreference,
    NavigationControllerConfig, NavigationControllerKind, ProgressSample, SemanticInputAction,
    SemanticInputTarget, WorkflowBackendPreference, WorkflowCondition, WorkflowConditionOperator,
    WorkflowCooldown, WorkflowDslDocument, WorkflowDslVersion, WorkflowExecutionTrace,
    WorkflowIntentDefinition, WorkflowIntentKind, WorkflowNode, WorkflowNodeKind, WorkflowPlan,
    WorkflowRecoveryStep, WorkflowRetryPolicy, WorkflowStep, WorkflowTaskDefinition,
    WorkflowTaskKind, WorkflowTaskRecipe, WorkflowTraceEventKind,
};

struct RobloxPack;

impl AppWorkflowPack for RobloxPack {
    fn manifest(&self) -> AppPackManifest {
        AppPackManifest {
            id: "roblox".to_string(),
            name: "Roblox Pack".to_string(),
            target_family: "roblox".to_string(),
            backend_preferences: vec![AdvancedProfileBackend::Inject],
        }
    }

    fn supported_tasks(&self) -> Vec<WorkflowTaskDefinition> {
        vec![WorkflowTaskDefinition {
            id: "approach-rock".to_string(),
            name: "Approach Rock".to_string(),
            kind: WorkflowTaskKind::Approach,
        }]
    }

    fn default_plan(&self, task: WorkflowTaskKind) -> Option<WorkflowPlan> {
        if task != WorkflowTaskKind::Approach {
            return None;
        }

        Some(WorkflowPlan {
            pack_id: "roblox".to_string(),
            task: WorkflowTaskDefinition {
                id: "approach-rock".to_string(),
                name: "Approach Rock".to_string(),
                kind: WorkflowTaskKind::Approach,
            },
            required_detectors: vec![DetectorDescriptor {
                id: "rock-template".to_string(),
                name: "Rock Template".to_string(),
                kind: DetectorKind::TemplateMatch,
            }],
            required_entity_kinds: vec![EntityKind::Interactable],
            intents: vec![WorkflowIntentDefinition {
                kind: WorkflowIntentKind::ApproachTarget,
                description: "move toward the detected target".to_string(),
                semantic_action: Some(SemanticInputAction::Approach {
                    target: SemanticInputTarget::EntityId {
                        entity_id: "rock-1".to_string(),
                    },
                }),
                sink_preference: Some(InputSinkPreference {
                    ordered_sinks: vec![
                        InputSinkKind::SemanticInternalAction,
                        InputSinkKind::InjectedRawInput,
                        InputSinkKind::Win32Foreground,
                    ],
                }),
            }],
        })
    }
}

fn node(
    id: &str,
    name: &str,
    kind: WorkflowNodeKind,
    steps: Vec<WorkflowStep>,
    next: Vec<&str>,
    retry: Option<WorkflowRetryPolicy>,
    cooldown: Option<WorkflowCooldown>,
) -> WorkflowNode {
    WorkflowNode {
        id: id.to_string(),
        name: name.to_string(),
        kind,
        steps,
        next: next.into_iter().map(|value| value.to_string()).collect(),
        retry,
        cooldown,
    }
}

fn sample_dsl() -> WorkflowDslDocument {
    WorkflowDslDocument {
        version: WorkflowDslVersion::V1,
        id: "roblox-harvest".to_string(),
        name: "Roblox Harvest".to_string(),
        tasks: vec![
            WorkflowTaskRecipe {
                id: "search-for-rock".to_string(),
                kind: WorkflowTaskKind::SearchFor,
                detectors: vec![DeclarativeDetector::TemplateMatch {
                    detector_id: "rock-template".to_string(),
                    entity_kind: EntityKind::Interactable,
                }],
                recovery: vec![WorkflowRecoveryStep::RetryCurrentNode],
                action_graph: vec![
                    node(
                        "detect-rock",
                        "Detect Rock",
                        WorkflowNodeKind::Detect,
                        vec![WorkflowStep::Condition {
                            condition: WorkflowCondition {
                                entity_kind: EntityKind::Interactable,
                                operator: WorkflowConditionOperator::Exists,
                                threshold: None,
                            },
                        }],
                        vec!["approach-rock"],
                        Some(WorkflowRetryPolicy {
                            max_attempts: 3,
                            cooldown_ms: 250,
                        }),
                        Some(WorkflowCooldown { cooldown_ms: 50 }),
                    ),
                    node(
                        "approach-rock",
                        "Approach Rock",
                        WorkflowNodeKind::Act,
                        vec![WorkflowStep::Action {
                            action: SemanticInputAction::Approach {
                                target: SemanticInputTarget::EntityId {
                                    entity_id: "rock-1".to_string(),
                                },
                            },
                        }],
                        vec!["wait-for-prompt"],
                        None,
                        None,
                    ),
                    node(
                        "wait-for-prompt",
                        "Wait For Prompt",
                        WorkflowNodeKind::Branch,
                        vec![WorkflowStep::Condition {
                            condition: WorkflowCondition {
                                entity_kind: EntityKind::Prompt,
                                operator: WorkflowConditionOperator::Exists,
                                threshold: None,
                            },
                        }],
                        vec!["interact", "recover"],
                        None,
                        Some(WorkflowCooldown { cooldown_ms: 200 }),
                    ),
                    node(
                        "interact",
                        "Interact",
                        WorkflowNodeKind::Act,
                        vec![WorkflowStep::Action {
                            action: SemanticInputAction::Interact,
                        }],
                        vec!["resume-patrol"],
                        None,
                        None,
                    ),
                    node(
                        "recover",
                        "Recover",
                        WorkflowNodeKind::Recover,
                        vec![WorkflowStep::Recovery {
                            step: WorkflowRecoveryStep::RunController {
                                controller: NavigationControllerKind::NoProgressRecovery,
                            },
                        }],
                        vec!["resume-patrol"],
                        Some(WorkflowRetryPolicy {
                            max_attempts: 2,
                            cooldown_ms: 500,
                        }),
                        None,
                    ),
                    node(
                        "resume-patrol",
                        "Resume Patrol",
                        WorkflowNodeKind::Act,
                        vec![WorkflowStep::Action {
                            action: SemanticInputAction::WalkTo {
                                target: SemanticInputTarget::RegionId {
                                    region_id: "dirt-patch-1".to_string(),
                                },
                            },
                        }],
                        vec!["complete"],
                        None,
                        None,
                    ),
                    node(
                        "complete",
                        "Complete",
                        WorkflowNodeKind::Complete,
                        Vec::new(),
                        Vec::new(),
                        None,
                        None,
                    ),
                ],
                backend_preference: Some(WorkflowBackendPreference {
                    preferred_backends: vec![
                        AdvancedProfileBackend::Inject,
                        AdvancedProfileBackend::Foreground,
                    ],
                }),
            },
            WorkflowTaskRecipe {
                id: "patrol-region".to_string(),
                kind: WorkflowTaskKind::PatrolRegion,
                detectors: vec![DeclarativeDetector::MemoryEntity {
                    detector_id: "region-memory".to_string(),
                    entity_kind: EntityKind::Region,
                }],
                recovery: vec![WorkflowRecoveryStep::ResumePreviousTask],
                action_graph: vec![node(
                    "patrol",
                    "Patrol",
                    WorkflowNodeKind::Act,
                    vec![WorkflowStep::Action {
                        action: SemanticInputAction::WalkTo {
                            target: SemanticInputTarget::RegionId {
                                region_id: "dirt-patch-1".to_string(),
                            },
                        },
                    }],
                    Vec::new(),
                    None,
                    None,
                )],
                backend_preference: Some(WorkflowBackendPreference {
                    preferred_backends: vec![AdvancedProfileBackend::Inject],
                }),
            },
        ],
    }
}

#[test]
fn registry_can_hold_generic_pack_manifest() {
    let mut registry = AppPackRegistry::default();
    registry.register(RobloxPack.manifest());
    assert_eq!(registry.packs.len(), 1);
    assert_eq!(registry.packs[0].id, "roblox");
}

#[test]
fn workflow_trace_orders_events() {
    let mut trace = WorkflowExecutionTrace::default();
    trace.push(
        WorkflowTraceEventKind::ObservationAccepted,
        "accepted a render-backed observation",
    );
    trace.push(WorkflowTraceEventKind::IntentIssued, "issued approach intent");

    assert_eq!(trace.events.len(), 2);
    assert_eq!(trace.events[0].sequence, 1);
    assert_eq!(trace.events[1].sequence, 2);
}

#[test]
fn workflow_plan_prefers_semantic_actions_when_available() {
    let plan = RobloxPack
        .default_plan(WorkflowTaskKind::Approach)
        .expect("approach plan should exist");
    let input_plan = plan.resolve_input_plan(&AdvancedBackendCapabilities {
        injected_input: true,
        semantic_navigation: true,
        internal_interaction: true,
        foreground_input: true,
        ..Default::default()
    });

    assert_eq!(input_plan.mappings.len(), 1);
    assert_eq!(
        input_plan.mappings[0].sink,
        InputSinkKind::SemanticInternalAction
    );
    assert!(matches!(
        input_plan.mappings[0].action,
        SemanticInputAction::Approach { .. }
    ));
}

#[test]
fn workflow_plan_falls_back_to_injected_then_foreground() {
    let intent = WorkflowIntentDefinition {
        kind: WorkflowIntentKind::MoveForward,
        description: "move forward briefly".to_string(),
        semantic_action: Some(SemanticInputAction::MoveForward { duration_ms: 250 }),
        sink_preference: None,
    };

    let injected = intent
        .into_input_mapping(&AdvancedBackendCapabilities {
            injected_input: true,
            ..Default::default()
        })
        .expect("injected fallback should resolve");
    assert_eq!(injected.sink, InputSinkKind::InjectedRawInput);

    let foreground = intent
        .into_input_mapping(&AdvancedBackendCapabilities {
            foreground_input: true,
            ..Default::default()
        })
        .expect("foreground fallback should resolve");
    assert_eq!(foreground.sink, InputSinkKind::Win32Foreground);
}

#[test]
fn dsl_compiles_declarative_recipe_into_plan() {
    let dsl = sample_dsl();
    let recipe = dsl
        .task(WorkflowTaskKind::SearchFor)
        .expect("search task should exist");
    let plan = recipe.compile_plan();

    assert_eq!(plan.required_detectors.len(), 1);
    assert_eq!(plan.required_entity_kinds, vec![EntityKind::Interactable]);
    assert!(plan.intents.iter().any(|intent| matches!(
        intent.semantic_action,
        Some(SemanticInputAction::Approach { .. })
    )));
    assert!(plan.intents.iter().any(|intent| matches!(
        intent.semantic_action,
        Some(SemanticInputAction::Interact)
    )));
}

#[test]
fn dsl_supports_conditions_branching_retries_and_cooldowns() {
    let dsl = sample_dsl();
    let recipe = dsl
        .task(WorkflowTaskKind::SearchFor)
        .expect("search task should exist");
    let detect = recipe
        .action_graph
        .iter()
        .find(|node| node.id == "detect-rock")
        .expect("detect node should exist");
    let wait = recipe
        .action_graph
        .iter()
        .find(|node| node.id == "wait-for-prompt")
        .expect("wait node should exist");

    assert!(matches!(detect.kind, WorkflowNodeKind::Detect));
    assert_eq!(
        detect
            .retry
            .as_ref()
            .expect("retry should exist")
            .max_attempts,
        3
    );
    assert_eq!(wait.next.len(), 2);
    assert_eq!(
        wait.cooldown
            .as_ref()
            .expect("cooldown should exist")
            .cooldown_ms,
        200
    );
}

#[test]
fn dsl_supports_task_concepts_and_behavior_graphs() {
    let dsl = sample_dsl();
    let search = dsl
        .task(WorkflowTaskKind::SearchFor)
        .expect("search task should exist");
    let patrol = dsl
        .task(WorkflowTaskKind::PatrolRegion)
        .expect("patrol task should exist");

    let next = next_nodes(search, "wait-for-prompt");
    assert_eq!(next.len(), 2);
    assert_eq!(patrol.kind, WorkflowTaskKind::PatrolRegion);
    assert!(patrol.action_graph.iter().any(|node| node
        .steps
        .iter()
        .any(|step| matches!(
            step,
            WorkflowStep::Action {
                action: SemanticInputAction::WalkTo { .. }
            }
        ))));
}

#[test]
fn workflow_trace_produces_operator_facing_reasoning() {
    let mut trace = WorkflowExecutionTrace::default();
    trace.push(
        WorkflowTraceEventKind::ObservationAccepted,
        "accepted fresh prompt observation",
    );
    trace.push(
        WorkflowTraceEventKind::TaskSelected,
        "selected wait_for_prompt task",
    );
    trace.push(
        WorkflowTraceEventKind::IntentIssued,
        "issued interact intent because prompt remained visible",
    );

    let reasoning = trace.reasoning().expect("reasoning should exist");

    assert_eq!(
        reasoning.summary,
        "issued interact intent because prompt remained visible"
    );
    assert_eq!(reasoning.basis.len(), 3);
    assert!(reasoning.basis[0].contains("intent_issued"));
}

#[test]
fn compiled_plan_names_recipe_and_orders_intents() {
    let dsl = sample_dsl();
    let plan = dsl.task(WorkflowTaskKind::SearchFor).unwrap().compile_plan();
    assert_eq!(plan.pack_id, "search-for-rock");
    assert_eq!(plan.task.kind, WorkflowTaskKind::SearchFor);
    assert_eq!(plan.required_detectors[0].id, "rock-template");
    assert_eq!(plan.required_detectors[0].kind, DetectorKind::TemplateMatch);
    assert_eq!(plan.intents.len(), 3);
    assert_eq!(plan.intents[0].kind, WorkflowIntentKind::ApproachTarget);
    assert_eq!(plan.intents[1].kind, WorkflowIntentKind::Interact);
    assert_eq!(plan.intents[2].kind, WorkflowIntentKind::WalkToRegionOrEntity);
    assert_eq!(
        plan.intents[0].description,
        "compiled from node action 'search-for-rock'"
    );
    assert!(dsl.task(WorkflowTaskKind::RecoverIfStuck).is_none());
    assert!(next_nodes(dsl.task(WorkflowTaskKind::SearchFor).unwrap(), "missing").is_empty());
    assert_eq!(
        next_nodes(dsl.task(WorkflowTaskKind::SearchFor).unwrap(), "wait-for-prompt")[1].id,
        "recover"
    );
}

#[test]
fn empty_trace_has_no_reasoning_and_short_basis_is_kept() {
    let mut trace = WorkflowExecutionTrace::default();
    assert!(trace.reasoning().is_none());
    trace.push(WorkflowTraceEventKind::PlanBlocked, "prompt not visible yet");
    let reasoning = trace.reasoning().unwrap();
    assert_eq!(reasoning.basis, vec!["plan_blocked: prompt not visible yet".to_string()]);
}

#[test]
fn sink_preference_order_is_honored_and_unsafe_messages_skipped() {
    let capabilities = AdvancedBackendCapabilities {
        message_input: true,
        foreground_input: true,
        ..Default::default()
    };
    let preference = InputSinkPreference {
        ordered_sinks: vec![InputSinkKind::Win32Message, InputSinkKind::Win32Foreground],
    };
    assert_eq!(
        preferred_input_sink(
            &capabilities,
            Some(&preference),
            &SemanticInputAction::MoveForward { duration_ms: 10 }
        ),
        Some(InputSinkKind::Win32Foreground)
    );
    assert_eq!(
        preferred_input_sink(
            &AdvancedBackendCapabilities::default(),
            None,
            &SemanticInputAction::Jump
        ),
        None
    );
}

#[test]
fn stuck_detection_compares_window_ends() {
    let sample = |frame_id: u64, distance: Option<u32>| ProgressSample {
        frame_id,
        player_position_millimeters: None,
        target_distance_millimeters: distance,
    };
    let config = NavigationControllerConfig {
        stuck_distance_epsilon_millimeters: 40,
        ..Default::default()
    };
    let stuck = ControllerMemory {
        progress_samples: vec![sample(7, Some(1200)), sample(8, Some(1180)), sample(9, Some(1175))],
    };
    assert!(is_stuck(&stuck, &config));
    let moving = ControllerMemory {
        progress_samples: vec![sample(7, Some(1200)), sample(8, Some(1000)), sample(9, Some(900))],
    };
    assert!(!is_stuck(&moving, &config));
    let short = ControllerMemory {
        progress_samples: vec![sample(9, Some(900))],
    };
    assert!(!is_stuck(&short, &config));
}

#[test]
fn perception_helpers_assess_freshness_and_dedup_kinds() {
    let metadata = ObservationMetadata {
        version: ObservationStateVersion::V1,
        backend: AdvancedProfileBackend::Inject,
        source: ObservationSourceKind::MemoryState,
        frame_id: 3,
        timestamp_ms: 100,
        freshness_ms: 40,
    };
    let assessment = assess_freshness(&metadata, &ObservationFreshnessPolicy::default());
    assert_eq!(assessment.status, ObservationFreshnessStatus::Aging);
    assert_eq!(assessment.detail, "frame freshness 40ms is aging toward stale");
    let descriptor = |kind: DetectorKind| DetectorDescriptor {
        id: "d".to_string(),
        name: "d".to_string(),
        kind,
    };
    assert_eq!(
        unique_detector_kinds(&vec![
            descriptor(DetectorKind::Ocr),
            descriptor(DetectorKind::MemoryEntity),
            descriptor(DetectorKind::Ocr),
        ]),
        vec![DetectorKind::Ocr, DetectorKind::MemoryEntity]
    );
}

fn summary_entity(id: &str, kind: EntityKind, confidence_percent: u32, priority_score: u32) -> TrackedEntitySummary {
    TrackedEntitySummary {
        id: id.to_string(),
        kind,
        label: id.to_string(),
        tags: Vec::new(),
        confidence_percent,
        priority_score,
        first_seen_frame_id: 1,
        last_seen_frame_id: 9,
        missed_frames: 0,
        status: TrackedEntityStatus::Active,
    }
}

fn conditions_world_model() -> WorldModelSummary {
    WorldModelSummary {
        last_updated_frame_id: 9,
        entities: vec![
            summary_entity("rock-1", EntityKind::Interactable, 82, 192),
            summary_entity("dirt-patch-1", EntityKind::Region, 80, 158),
            summary_entity("waypoint-1", EntityKind::Waypoint, 72, 132),
            summary_entity("prompt-1", EntityKind::Prompt, 91, 221),
        ],
        notes: vec!["camera_yaw_md:10000".to_string(), "target_yaw_md:30000".to_string()],
    }
}

#[test]
fn dsl_evaluates_conditions_and_recovery_steps() {
    let dsl = sample_dsl();
    let recipe = dsl.task(WorkflowTaskKind::SearchFor).expect("search task should exist");
    let world_model = conditions_world_model();

    assert!(recipe.evaluate_conditions(&world_model));
    assert!(matches!(recipe.recovery[0], WorkflowRecoveryStep::RetryCurrentNode));
    assert_eq!(
        recipe
            .backend_preference
            .as_ref()
            .expect("backend preference should exist")
            .preferred_backends[0],
        AdvancedProfileBackend::Inject
    );
}

fn recipe_with_condition(condition: WorkflowCondition) -> WorkflowTaskRecipe {
    WorkflowTaskRecipe {
        id: "probe".to_string(),
        kind: WorkflowTaskKind::SearchFor,
        detectors: Vec::new(),
        recovery: Vec::new(),
        action_graph: vec![node(
            "check",
            "Check",
            WorkflowNodeKind::Branch,
            vec![WorkflowStep::Condition { condition }],
            Vec::new(),
            None,
            None,
        )],
        backend_preference: None,
    }
}

#[test]
fn conditions_judge_the_best_entity_of_their_kind() {
    let model = conditions_world_model();
    let confident = recipe_with_condition(WorkflowCondition {
        entity_kind: EntityKind::Prompt,
        operator: WorkflowConditionOperator::ConfidenceAtLeast,
        threshold: Some(91),
    });
    assert!(confident.evaluate_conditions(&model));
    let too_confident = recipe_with_condition(WorkflowCondition {
        entity_kind: EntityKind::Prompt,
        operator: WorkflowConditionOperator::ConfidenceAtLeast,
        threshold: Some(92),
    });
    assert!(!too_confident.evaluate_conditions(&model));
    let absent = recipe_with_condition(WorkflowCondition {
        entity_kind: EntityKind::Obstacle,
        operator: WorkflowConditionOperator::NotExists,
        threshold: None,
    });
    assert!(absent.evaluate_conditions(&model));
    let missing = recipe_with_condition(WorkflowCondition {
        entity_kind: EntityKind::Obstacle,
        operator: WorkflowConditionOperator::Exists,
        threshold: None,
    });
    assert!(!missing.evaluate_conditions(&model));
    let mut lost = conditions_world_model();
    lost.entities[0].missed_frames = 4;
    let lost_for = recipe_with_condition(WorkflowCondition {
        entity_kind: EntityKind::Interactable,
        operator: WorkflowConditionOperator::LostForFramesAtLeast,
        threshold: Some(3),
    });
    assert!(lost_for.evaluate_conditions(&lost));
    assert!(!lost_for.evaluate_conditions(&model));
}

fn sample_payload(id: &str) -> AdvancedBinaryPayloadRef {
    AdvancedBinaryPayloadRef {
        payload_id: id.to_string(),
        encoding: AdvancedPayloadEncoding::RawBytes,
        byte_len: 1920000,
        transport: AdvancedIpcTransportKind::SharedMemory,
        description: "desktop capture".to_string(),
    }
}

fn capture_context() -> ObservationCaptureContext {
    ObservationCaptureContext {
        target: AdvancedTargetRef {
            hwnd: Some("0x0000000000001234".to_string()),
            pid: Some(42),
            exe: Some("RobloxPlayerBeta.exe".to_string()),
            window_class: Some("WINDOWSCLIENT".to_string()),
            title_hint: Some("Roblox".to_string()),
        },
        backend: AdvancedProfileBackend::Inject,
        frame_id: 12,
        timestamp_ms: 900,
        freshness_ms: 8,
    }
}

#[test]
fn from_update_normalizes_desktop_screenshot_source() {
    let update = AdvancedObservationUpdate {
        frame_id: 44,
        source: "desktop".to_string(),
        detail: "captured desktop screenshot".to_string(),
        timestamp_ms: Some(1000),
        freshness_ms: Some(16),
        payload: Some(sample_payload("desktop-44")),
    };
    let source_data = ObservationSourceData::DesktopScreenshot {
        image: ObservationImageHandle {
            payload: sample_payload("desktop-44"),
            width: 800,
            height: 600,
            pixel_format: ObservationPixelFormat::Bgra8,
        },
    };
    let metadata = metadata_from_update(&capture_context(), &update, &source_data);

    assert_eq!(metadata.source, ObservationSourceKind::DesktopScreenshot);
    assert_eq!(metadata.frame_id, 44);
    assert_eq!(metadata.timestamp_ms, 1000);

    let bare = AdvancedObservationUpdate { timestamp_ms: None, freshness_ms: None, ..update };
    let metadata = metadata_from_update(&capture_context(), &bare, &source_data);
    assert_eq!(metadata.timestamp_ms, 900);
    assert_eq!(metadata.freshness_ms, 8);
    assert_eq!(metadata.backend, AdvancedProfileBackend::Inject);
}
