use winr::keyboard::MouseButton;
use winr::mcp::{
        from_winr, mouse_click_request, screenshot_backend_or_default, MouseButtonParam,
        MouseClickParams, MouseClickRequest,
    };
use winr::memory_schema::{
        decode_bool, decode_i32_le, decode_u32_le, decode_u64_le, decode_vec3_i32,
        field_start_address, follow_pointer, validate_live_schema, RobloxMemoryField,
        RobloxMemorySchema, RobloxMemoryValueKind, RobloxObjectField,
    };
use winr::observers::StubMemoryObserver;
use winr::patrol_step::record_progress_sample;
use winr::patrol_step::{entity_world_position, parse_world_mm_tag, target_world_position};
use winr::patrol_step::{expand_navigation_action, input_outcome_result};
use winr::perception::MemorySchemaVersion;
use winr::protocol::AdvancedCommandAckStatus;
use winr::types::{ScreenshotBackend, WinrError};
use winr::discovery::discover_attachable_targets;
use winr::navigation::{
    entity_distance_millimeters, interact_when_prompt_appears_decision,
    navigation_camera_yaw, navigation_target_yaw, patrol_while_scanning_decision,
    resume_patrol_after_interaction_decision, select_prioritized_entity_id, NavigationContext,
    NavigationController, TrackedEntitySummary, WorldModelSummary,
};
use winr::observers::{
    AdvancedInputBackend, AdvancedObservationBackend, AdvancedWorkflowBackend, StubAdvancedBackend,
};
use winr::perception::{EntityKind, TrackedEntityStatus};
use winr::protocol::{
    AdvancedAttachableTarget, AdvancedBackendLifecycleState, AdvancedBackendStability,
    AdvancedIntegrityLevel, AdvancedProcessArchitecture, AdvancedProcessMetadata,
    AdvancedProfileBackend, AdvancedTargetRef,
};
use winr::types::{
    ProfileAction, ProfileConfig, ProfileExecution, ProfileLogging, ProfileMetadata,
    ProfileMouseButton, ProfileSafety, ProfileSchedule, WindowSelector,
};
use winr::workflows::{
    ApproachUntilThresholdController, BoundedRegionPatrolController, ControllerMemory,
    NavigationControllerConfig, NavigationControllerKind, NavigationDecisionKind,
    NoProgressRecoveryController, ProgressSample, RotateTowardTargetController,
    SemanticInputAction, SemanticInputTarget,
};

fn entity(
    id: &str,
    kind: EntityKind,
    tags: &[&str],
    confidence_percent: u32,
    priority_score: u32,
) -> TrackedEntitySummary {
    TrackedEntitySummary {
        id: id.to_string(),
        kind,
        label: id.to_string(),
        tags: tags.iter().map(|t| t.to_string()).collect(),
        confidence_percent,
        priority_score,
        first_seen_frame_id: 1,
        last_seen_frame_id: 9,
        missed_frames: 0,
        status: TrackedEntityStatus::Active,
    }
}

fn sample_world_model() -> WorldModelSummary {
    WorldModelSummary {
        last_updated_frame_id: 9,
        entities: vec![
            entity("rock-1", EntityKind::Interactable, &["resource", "distance_mm:1200"], 82, 192),
            entity("dirt-patch-1", EntityKind::Region, &["patrol", "distance_mm:600"], 80, 158),
            entity("waypoint-1", EntityKind::Waypoint, &["distance_mm:500"], 72, 132),
            entity("prompt-1", EntityKind::Prompt, &["priority", "distance_mm:700"], 91, 221),
        ],
        notes: vec!["camera_yaw_md:10000".to_string(), "target_yaw_md:30000".to_string()],
    }
}

fn context(world_model: WorldModelSummary) -> NavigationContext {
    NavigationContext { world_model, frame_id: 10, controller_memory: ControllerMemory::default() }
}

fn patrol() -> BoundedRegionPatrolController {
    BoundedRegionPatrolController {
        region_entity_id: "dirt-patch-1".to_string(),
        waypoint_entity_ids: vec!["waypoint-1".to_string()],
    }
}

#[test]
fn workflow_can_pick_best_entity_from_world_model() {
    let world_model = WorldModelSummary {
        last_updated_frame_id: 9,
        entities: vec![
            entity("rock-1", EntityKind::Interactable, &["resource"], 82, 192),
            entity("rock-2", EntityKind::Interactable, &[], 61, 161),
        ],
        notes: Vec::new(),
    };

    let best = select_prioritized_entity_id(&world_model, EntityKind::Interactable)
        .expect("best entity should exist");

    assert_eq!(best, "rock-1");
}

#[test]
fn approach_controller_arrives_and_stops_when_close() {
    let mut world_model = sample_world_model();
    if let Some(rock) = world_model.entities.iter_mut().find(|entity| entity.id == "rock-1") {
        rock.tags = vec!["distance_mm:600".to_string()];
    }
    let controller = ApproachUntilThresholdController { target_entity_id: "rock-1".to_string() };

    let decision = controller.decide(&context(world_model), &NavigationControllerConfig::default());

    assert_eq!(decision.kind, NavigationDecisionKind::Arrived);
    assert_eq!(decision.actions, vec![SemanticInputAction::StopMotion]);
    assert_eq!(decision.detail, "arrived within threshold at distance 600 mm");
}

#[test]
fn approach_controller_walks_on_or_reports_missing_target() {
    let controller = ApproachUntilThresholdController { target_entity_id: "rock-1".to_string() };
    let decision = controller.decide(&context(sample_world_model()), &NavigationControllerConfig::default());
    assert_eq!(decision.kind, NavigationDecisionKind::Continue);
    assert_eq!(
        decision.actions,
        vec![SemanticInputAction::Approach {
            target: SemanticInputTarget::EntityId { entity_id: "rock-1".to_string() }
        }]
    );
    assert_eq!(decision.detail, "approach target 'rock-1' at 1200 mm");

    let missing = ApproachUntilThresholdController { target_entity_id: "tree".to_string() };
    let decision = missing.decide(&context(sample_world_model()), &NavigationControllerConfig::default());
    assert_eq!(decision.kind, NavigationDecisionKind::Blocked);
    assert!(decision.actions.is_empty());
    assert_eq!(decision.detail, "target 'tree' is unavailable");
    assert_eq!(controller.kind(), NavigationControllerKind::ApproachUntilThreshold);
}

#[test]
fn rotate_controller_requests_heading_correction() {
    let controller = RotateTowardTargetController;

    let decision = controller.decide(&context(sample_world_model()), &NavigationControllerConfig::default());

    assert_eq!(decision.kind, NavigationDecisionKind::Continue);
    assert!(matches!(decision.actions[0], SemanticInputAction::Turn { .. }));
}

#[test]
fn rotate_controller_turns_by_one_step_in_the_error_direction() {
    let controller = RotateTowardTargetController;
    let config = NavigationControllerConfig::default();
    let decision = controller.decide(&context(sample_world_model()), &config);
    assert_eq!(decision.actions, vec![SemanticInputAction::Turn { delta_yaw_milli_degrees: 12000 }]);
    assert_eq!(decision.detail, "rotate toward target by correcting yaw delta 20000");

    let mut left = sample_world_model();
    left.notes = vec!["target_yaw_md:-5000".to_string(), "camera_yaw_md:10000".to_string()];
    let decision = controller.decide(&context(left), &config);
    assert_eq!(decision.actions, vec![SemanticInputAction::Turn { delta_yaw_milli_degrees: -12000 }]);
    assert_eq!(decision.detail, "rotate toward target by correcting yaw delta -15000");

    let mut close = sample_world_model();
    close.notes = vec!["camera_yaw_md:10000".to_string(), "target_yaw_md:14000".to_string()];
    let decision = controller.decide(&context(close), &config);
    assert!(decision.actions.is_empty());
    assert_eq!(decision.detail, "heading already within tolerance");

    let mut blind = sample_world_model();
    blind.notes = vec!["target_yaw_md:1".to_string(), "camera_yaw_md:east".to_string()];
    let decision = controller.decide(&context(blind), &config);
    assert_eq!(decision.kind, NavigationDecisionKind::Blocked);
    assert_eq!(decision.detail, "camera yaw unavailable for heading control");
    assert_eq!(navigation_target_yaw(&sample_world_model()), Some(30000));
    assert_eq!(navigation_camera_yaw(&sample_world_model()), Some(10000));
}

#[test]
fn bounded_patrol_controller_walks_region_or_waypoint() {
    let controller = patrol();

    let decision = controller.decide(&context(sample_world_model()), &NavigationControllerConfig::default());

    assert_eq!(decision.kind, NavigationDecisionKind::Continue);
    assert!(matches!(decision.actions[0], SemanticInputAction::WalkTo { .. }));
}

#[test]
fn bounded_patrol_returns_to_far_region_and_prefers_known_waypoints() {
    let controller = BoundedRegionPatrolController {
        region_entity_id: "dirt-patch-1".to_string(),
        waypoint_entity_ids: vec!["ghost".to_string(), "waypoint-1".to_string()],
    };
    let decision = controller.decide(&context(sample_world_model()), &NavigationControllerConfig::default());
    assert_eq!(
        decision.actions,
        vec![SemanticInputAction::WalkTo {
            target: SemanticInputTarget::EntityId { entity_id: "waypoint-1".to_string() }
        }]
    );
    assert_eq!(decision.detail, "patrol toward waypoint 'waypoint-1'");

    let config = NavigationControllerConfig { arrival_threshold_millimeters: 200, ..Default::default() };
    let decision = controller.decide(&context(sample_world_model()), &config);
    assert_eq!(
        decision.actions,
        vec![SemanticInputAction::WalkTo {
            target: SemanticInputTarget::RegionId { region_id: "dirt-patch-1".to_string() }
        }]
    );
    assert_eq!(decision.detail, "return to patrol region 'dirt-patch-1' from 600 mm away");

    let no_waypoints = BoundedRegionPatrolController {
        region_entity_id: "dirt-patch-1".to_string(),
        waypoint_entity_ids: Vec::new(),
    };
    let decision = no_waypoints.decide(&context(sample_world_model()), &NavigationControllerConfig::default());
    assert_eq!(decision.detail, "patrol inside region 'dirt-patch-1'");
}

#[test]
fn no_progress_recovery_detects_stuck_and_recovers() {
    let controller = NoProgressRecoveryController;
    let mut ctx = context(sample_world_model());
    ctx.controller_memory = ControllerMemory {
        progress_samples: vec![
            ProgressSample {
                frame_id: 7,
                player_position_millimeters: Some([0, 0, 0]),
                target_distance_millimeters: Some(1200),
            },
            ProgressSample {
                frame_id: 8,
                player_position_millimeters: Some([10, 0, 0]),
                target_distance_millimeters: Some(1180),
            },
            ProgressSample {
                frame_id: 9,
                player_position_millimeters: Some([12, 0, 0]),
                target_distance_millimeters: Some(1175),
            },
        ],
    };
    let config = NavigationControllerConfig { stuck_distance_epsilon_millimeters: 40, ..Default::default() };

    let decision = controller.decide(&ctx, &config);

    assert_eq!(decision.kind, NavigationDecisionKind::Recovering);
    assert_eq!(decision.actions.len(), 3);
    assert_eq!(
        decision.actions,
        vec![
            SemanticInputAction::StopMotion,
            SemanticInputAction::StrafeRight { duration_ms: 150 },
            SemanticInputAction::Jump
        ]
    );
    let calm = NavigationControllerConfig { stuck_distance_epsilon_millimeters: 10, ..Default::default() };
    let decision = controller.decide(&ctx, &calm);
    assert_eq!(decision.kind, NavigationDecisionKind::Continue);
    assert_eq!(decision.detail, "movement progress is still changing");
}

#[test]
fn prompt_and_patrol_workflow_helpers_switch_modes() {
    let patrol = patrol();
    let ctx = context(sample_world_model());

    let scan_decision = patrol_while_scanning_decision(&ctx, &patrol);
    let interact_decision = interact_when_prompt_appears_decision(&ctx);

    assert!(matches!(scan_decision.actions[0], SemanticInputAction::Approach { .. }));
    assert_eq!(interact_decision.actions, vec![SemanticInputAction::Interact]);
    assert_eq!(scan_decision.detail, "scan found target 'rock-1', interrupt patrol");
    assert_eq!(interact_decision.detail, "prompt 'prompt-1' visible, interact");
}

#[test]
fn prompts_and_patrols_hand_over_when_entities_disappear() {
    let patrol = patrol();
    let mut quiet = sample_world_model();
    quiet.entities.retain(|e| e.kind != EntityKind::Prompt);
    let decision = interact_when_prompt_appears_decision(&context(quiet));
    assert_eq!(decision.kind, NavigationDecisionKind::Blocked);
    assert_eq!(decision.detail, "prompt not visible yet");

    let mut lost_prompt = sample_world_model();
    lost_prompt.entities[3].status = TrackedEntityStatus::Lost;
    lost_prompt.entities[0].status = TrackedEntityStatus::Lost;
    let ctx = context(lost_prompt);
    let resumed = resume_patrol_after_interaction_decision(&ctx, &patrol);
    assert_eq!(resumed.detail, "patrol toward waypoint 'waypoint-1'");
    let scanning = patrol_while_scanning_decision(&ctx, &patrol);
    assert_eq!(scanning.detail, "patrol toward waypoint 'waypoint-1'");
    let still = resume_patrol_after_interaction_decision(&context(sample_world_model()), &patrol);
    assert_eq!(still.actions, vec![SemanticInputAction::Interact]);
}

#[test]
fn world_model_queries_order_by_priority_then_recency() {
    let mut model = sample_world_model();
    let mut recent = entity("rock-3", EntityKind::Interactable, &["distance_mm:x"], 50, 192);
    recent.last_seen_frame_id = 12;
    model.entities.push(recent);
    model.entities[2].status = TrackedEntityStatus::Lost;
    let ids: Vec<&str> = model.prioritized_entities().iter().map(|e| e.id.as_str()).collect();
    assert_eq!(ids, vec!["prompt-1", "rock-3", "rock-1", "dirt-patch-1"]);
    let lost: Vec<&str> = model.lost_entities().iter().map(|e| e.id.as_str()).collect();
    assert_eq!(lost, vec!["waypoint-1"]);
    assert_eq!(model.active_entities().len(), 4);
    assert_eq!(model.best_entity(EntityKind::Interactable).map(|e| e.id.as_str()), Some("rock-3"));
    assert!(model.best_entity(EntityKind::Waypoint).is_none());
    assert_eq!(entity_distance_millimeters(&model.entities[4]), None);
    assert_eq!(entity_distance_millimeters(&model.entities[0]), Some(1200));
    let ctx = context(model);
    assert_eq!(ctx.entity_distance_millimeters("dirt-patch-1"), Some(600));
    assert_eq!(ctx.current_yaw_milli_degrees(), None);
}

fn attachable(hwnd: &str, title: &str, foreground: bool, visible: bool, minimized: bool) -> AdvancedAttachableTarget {
    AdvancedAttachableTarget {
        target: AdvancedTargetRef {
            hwnd: Some(hwnd.to_string()),
            pid: Some(7),
            exe: Some("RobloxPlayerBeta.exe".to_string()),
            window_class: Some("WINDOWSCLIENT".to_string()),
            title_hint: Some(title.to_string()),
        },
        lifecycle_state: AdvancedBackendLifecycleState::Attachable,
        title: title.to_string(),
        class_name: "WINDOWSCLIENT".to_string(),
        exe: Some("RobloxPlayerBeta.exe".to_string()),
        visible,
        minimized,
        foreground,
        process: AdvancedProcessMetadata {
            architecture: AdvancedProcessArchitecture::X64,
            integrity_level: AdvancedIntegrityLevel::Medium,
            loaded_modules: Vec::new(),
            executable_path: None,
            likely_rendering_window: None,
        },
        notes: Vec::new(),
    }
}

#[test]
fn discovery_orders_foreground_visible_then_title_and_handle() {
    let targets = vec![
        attachable("0x2", "Roblox B", false, true, false),
        attachable("0x1", "Roblox B", false, true, false),
        attachable("0x9", "Roblox A", false, false, false),
        attachable("0x3", "Roblox Z", true, true, false),
        attachable("0x4", "Roblox C", false, true, true),
        attachable("0x5", "Notepad", true, true, false),
    ];
    let selector = WindowSelector { title_contains: Some("roblox".to_string()), ..WindowSelector::default() };
    let discovery = discover_attachable_targets(&selector, targets);
    let hwnds: Vec<&str> = discovery
        .candidates
        .iter()
        .map(|t| t.target.hwnd.as_deref().unwrap())
        .collect();
    assert_eq!(hwnds, vec!["0x3", "0x1", "0x2", "0x4", "0x9"]);
    assert_eq!(discovery.candidate_count, 5);
    assert_eq!(discovery.selector, selector);
}

fn plain_profile() -> ProfileConfig {
    ProfileConfig {
        profile: ProfileMetadata {
            id: "demo".to_string(),
            name: "Demo".to_string(),
            description: "Demo".to_string(),
            version: "1".to_string(),
        },
        target: WindowSelector { exe: Some("robloxplayerbeta.exe".to_string()), ..WindowSelector::default() },
        action: ProfileAction::MouseClick {
            button: ProfileMouseButton::Left,
            input_mode: None,
            click_point: None,
            x: None,
            y: None,
        },
        detector: None,
        schedule: ProfileSchedule {
            mode: "interval".to_string(),
            every_ms: 50,
            random_delta_ms: 0,
            run_until_stopped: true,
        },
        logging: ProfileLogging {
            level: "info".to_string(),
            mode: "single_line_counter".to_string(),
            update_every_trigger: true,
            template: "{count}".to_string(),
        },
        safety: ProfileSafety {
            require_visible_window: true,
            require_foreground_window: true,
            stop_on_focus_loss: false,
            pause_on_focus_loss: false,
        },
        execution: ProfileExecution { backend: AdvancedProfileBackend::Inject },
        workflow: None,
    }
}

#[test]
fn stub_backend_implements_the_backend_traits() {
    let backend = StubAdvancedBackend;
    let descriptor = AdvancedObservationBackend::descriptor(&backend);
    assert_eq!(descriptor.stability, AdvancedBackendStability::Fragile);
    assert_eq!(AdvancedInputBackend::descriptor(&backend).backend, AdvancedProfileBackend::Inject);
    let profile = plain_profile();
    let discovery = backend
        .discover_targets(&profile.target, vec![attachable("0x7", "Roblox", true, true, false)])
        .unwrap();
    assert_eq!(discovery.candidate_count, 1);
    let session = backend.prepare_session(&profile, &Ok(discovery)).unwrap();
    assert_eq!(session.hello.backend, AdvancedProfileBackend::Inject);
    let plan = backend.build_execution_plan(&profile);
    assert_eq!(plan.profile_id, "demo");
    assert_eq!(plan.backend, AdvancedProfileBackend::Inject);
}

#[test]
fn world_positions_come_from_world_mm_tags() {
    assert_eq!(parse_world_mm_tag(&"1100,0,-2500".chars().collect()), Some([1100, 0, -2500]));
    assert_eq!(parse_world_mm_tag(&"1,2,3,4".chars().collect()), Some([1, 2, 3]));
    assert_eq!(parse_world_mm_tag(&"1,2".chars().collect()), None);
    assert_eq!(parse_world_mm_tag(&"1, 2,3".chars().collect()), None);
    let mut model = sample_world_model();
    model.entities[0].tags.push("world_mm:10,20,30".to_string());
    model.entities[1].tags.insert(0, "world_mm:-5,0,5".to_string());
    assert_eq!(entity_world_position(&model.entities[0]), Some([10, 20, 30]));
    let ctx = context(model);
    assert_eq!(target_world_position(&SemanticInputTarget::CurrentTarget, &ctx), Some([10, 20, 30]));
    assert_eq!(
        target_world_position(&SemanticInputTarget::RegionId { region_id: "any".to_string() }, &ctx),
        Some([-5, 0, 5])
    );
    assert_eq!(
        target_world_position(&SemanticInputTarget::EntityId { entity_id: "waypoint-1".to_string() }, &ctx),
        None
    );
}

#[test]
fn progress_samples_keep_the_latest_eight() {
    let mut memory = ControllerMemory::default();
    for frame_id in 0..10u64 {
        record_progress_sample(
            &mut memory,
            ProgressSample { frame_id, player_position_millimeters: None, target_distance_millimeters: Some(5) },
        );
    }
    assert_eq!(memory.progress_samples.len(), 8);
    assert_eq!(memory.progress_samples[0].frame_id, 2);
    assert_eq!(memory.progress_samples[7].frame_id, 9);
}

#[test]
fn walks_expand_into_a_bounded_turn_and_a_step() {
    let config = NavigationControllerConfig::default();
    let model = sample_world_model();
    let walk = SemanticInputAction::WalkTo { target: SemanticInputTarget::CurrentTarget };
    assert_eq!(
        expand_navigation_action(&walk, Some(40000), &model, &config),
        vec![
            SemanticInputAction::Turn { delta_yaw_milli_degrees: 12000 },
            SemanticInputAction::MoveForward { duration_ms: 150 }
        ]
    );
    assert_eq!(
        expand_navigation_action(&walk, Some(13000), &model, &config),
        vec![SemanticInputAction::MoveForward { duration_ms: 150 }]
    );
    assert_eq!(
        expand_navigation_action(&walk, Some(2000), &model, &config),
        vec![
            SemanticInputAction::Turn { delta_yaw_milli_degrees: -8000 },
            SemanticInputAction::MoveForward { duration_ms: 150 }
        ]
    );
    assert_eq!(expand_navigation_action(&walk, None, &model, &config), vec![SemanticInputAction::StopMotion]);
    assert_eq!(
        expand_navigation_action(&SemanticInputAction::Jump, None, &model, &config),
        vec![SemanticInputAction::Jump]
    );
    assert!(input_outcome_result(AdvancedCommandAckStatus::Rejected, "bridge missing".to_string()).is_err());
    assert_eq!(
        input_outcome_result(AdvancedCommandAckStatus::Completed, "done".to_string()).unwrap(),
        "done"
    );
}

fn field(base_offset: usize, offsets: Vec<usize>, kind: RobloxMemoryValueKind) -> RobloxMemoryField {
    RobloxMemoryField {
        module: "RobloxPlayerBeta.exe".to_string(),
        base_offset,
        dereference_offsets: offsets,
        value_kind: kind,
    }
}

#[test]
fn live_schema_and_memory_values_are_checked_and_decoded() {
    let mut schema = RobloxMemorySchema {
        game_build: "test".to_string(),
        schema_version: "1".to_string(),
        player_position: Some(field(0, Vec::new(), RobloxMemoryValueKind::Vec3F32)),
        player_velocity: None,
        camera_yaw_milli_degrees: None,
        camera_pitch_milli_degrees: None,
        prompt_visible: None,
        prompt_distance_millimeters: None,
        objects: vec![RobloxObjectField {
            id: "rock-1".to_string(),
            label: "Rock".to_string(),
            kind: "resource_node".to_string(),
            interactable: true,
            position: field(0, Vec::new(), RobloxMemoryValueKind::Vec3I32),
        }],
    };
    match validate_live_schema(&schema) {
        Err(WinrError::Unsupported { message }) => assert_eq!(
            message,
            "manual schema required: the Roblox live schema still appears to be the placeholder example"
        ),
        other => panic!("unexpected: {other:?}"),
    }
    schema.objects[0].position.base_offset = 0x4000;
    assert!(validate_live_schema(&schema).is_ok());
    schema.player_position = None;
    match validate_live_schema(&schema) {
        Err(WinrError::Unsupported { message }) => {
            assert_eq!(message, "manual schema required: player_position is missing")
        }
        other => panic!("unexpected: {other:?}"),
    }

    let f = field(0x1000, vec![0x20], RobloxMemoryValueKind::Vec3F32);
    assert_eq!(field_start_address(&f, 0x1000_0000), Some(0x1000_1000));
    assert_eq!(field_start_address(&f, usize::MAX), None);
    assert_eq!(follow_pointer(0x2000_0000, 0x20), Some(0x2000_0020));
    assert_eq!(decode_u64_le(&0x2000_0000u64.to_le_bytes().to_vec()), 0x2000_0000);
    assert_eq!(decode_u32_le(&850u32.to_le_bytes().to_vec()), 850);
    assert_eq!(decode_i32_le(&(-90000i32).to_le_bytes().to_vec()), -90000);
    assert!(decode_bool(&vec![1]));
    assert!(!decode_bool(&vec![0]));
    let bytes = [1100i32.to_le_bytes(), 0i32.to_le_bytes(), (-2500i32).to_le_bytes()].concat();
    assert_eq!(decode_vec3_i32(&bytes), [1100, 0, -2500]);
}

#[test]
fn mcp_mouse_clicks_are_window_or_screen_requests() {
    let selector = WindowSelector { title_contains: Some("Editor".to_string()), ..WindowSelector::default() };
    let window = mouse_click_request(MouseClickParams {
        selector: Some(selector.clone()),
        button: Some(MouseButtonParam::Right),
        x: Some(3),
        y: Some(4),
        focus_first: true,
    })
    .unwrap();
    assert_eq!(
        window,
        MouseClickRequest::Window { selector: selector.clone(), x: 3, y: 4, button: MouseButton::Right, focus_first: true }
    );
    match mouse_click_request(MouseClickParams {
        selector: Some(selector),
        button: None,
        x: Some(3),
        y: None,
        focus_first: true,
    }) {
        Err(WinrError::Unsupported { message }) => {
            assert_eq!(message, "mouse_click with a selector requires x and y coordinates")
        }
        other => panic!("unexpected: {other:?}"),
    }
    assert_eq!(
        mouse_click_request(MouseClickParams { selector: None, button: None, x: None, y: None, focus_first: false })
            .unwrap(),
        MouseClickRequest::Screen { button: MouseButton::Left, position: None }
    );
    assert!(mouse_click_request(MouseClickParams {
        selector: None,
        button: None,
        x: None,
        y: Some(1),
        focus_first: false
    })
    .is_err());
    assert_eq!(MouseButton::from(MouseButtonParam::Middle), MouseButton::Middle);
    let ok = from_winr::<u32>(Ok(7));
    assert_eq!(ok.0.unwrap().data, 7);
    let err = from_winr::<u32>(Err(WinrError::WindowNotFound));
    let payload = err.0.unwrap_err();
    assert_eq!(payload.error, "WindowNotFound");
    assert!(!payload.ok);
    assert_eq!(screenshot_backend_or_default(None), ScreenshotBackend::Auto);
}

fn memory_target() -> AdvancedTargetRef {
    AdvancedTargetRef {
        hwnd: Some("0x0000000000001234".to_string()),
        pid: Some(42),
        exe: Some("RobloxPlayerBeta.exe".to_string()),
        window_class: Some("WINDOWSCLIENT".to_string()),
        title_hint: Some("Roblox".to_string()),
    }
}

#[test]
fn stub_memory_observer_reads_versioned_normalized_state() {
    let mut observer = StubMemoryObserver::new(memory_target());
    let details = observer.read_memory_details();

    assert_eq!(details.schema_version, MemorySchemaVersion::V1);
    assert!(details.raw_layout_hidden);
    assert_eq!(details.nearby_objects.len(), 2);
    assert_eq!(details.snapshot_id, "pid-42-snapshot-1");
    assert_eq!(observer.read_memory_details().snapshot_id, "pid-42-snapshot-2");
}

#[test]
fn stub_memory_observer_exposes_player_camera_and_objects() {
    let mut observer = StubMemoryObserver::new(memory_target());
    let details = Some(observer.read_memory_details());

    let player = observer.snapshot_player_state(&details).expect("player state should exist");
    let camera = observer.snapshot_camera_state(&details).expect("camera state should exist");
    let objects = observer.snapshot_nearby_objects(&details);

    assert_eq!(player.active_tool.as_deref(), Some("pickaxe"));
    assert_eq!(camera.mode.as_deref(), Some("third_person"));
    assert_eq!(objects[0].kind, "resource_node");
    assert!(observer.snapshot_nearby_objects(&None).is_empty());
}
