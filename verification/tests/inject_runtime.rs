use winr::agent::{AdvancedAgentRuntime, StubAdvancedAgent};
use winr::attachment::{resolve_attachable_target, AttachmentSupervisor};
use winr::backend::{
    catalog_for_frontend, default_agent_composition, default_transport_descriptor,
    select_backend_by_capabilities, stub_backend_descriptor,
};
use winr::host::{prepare_profile_backend, AdvancedHostRuntime};
use winr::layered_input::{describe_target, LayeredInputBackend, StubLayeredInputBackend};
use winr::observers::StubRenderObserver;
use winr::perception::{
    metadata_from_update, ObservationCaptureContext, ObservationFrameHandle, ObservationPixelFormat,
    ObservationSourceData, ObservationSourceKind, RenderHookBoundary,
};
use winr::protocol::{
    AdvancedAgentEvent, AdvancedAgentEventEnvelope, AdvancedAttachableTarget, AdvancedAttachment,
    AdvancedAttachmentEvent, AdvancedAttachmentHealth, AdvancedAttachmentHealthStatus,
    AdvancedAttachmentPolicy, AdvancedBackendCapabilities, AdvancedBackendHello,
    AdvancedBackendLifecycleState, AdvancedBackendStability, AdvancedBinaryPayloadRef,
    AdvancedCapabilityRequirements, AdvancedCommandAckStatus, AdvancedFrontend,
    AdvancedHostCommand, AdvancedHostCommandEnvelope, AdvancedHostResponse,
    AdvancedHostResponseEnvelope, AdvancedIntegrityLevel, AdvancedIpcTransportKind,
    AdvancedObservationUpdate, AdvancedPayloadEncoding, AdvancedProcessArchitecture,
    AdvancedProcessMetadata, AdvancedProfileBackend, AdvancedReattachMode,
    AdvancedSequenceNumber, AdvancedSessionId, AdvancedTargetDiscovery, AdvancedTargetRef,
    InjectedInputAction,
};
use winr::roblox::{
    inspect_live_roblox_session, map_injected_input_action, patrol_waypoints, rotated_waypoint_ids,
};
use winr::session::{stub_session, AdvancedBackendSession};
use winr::transport::{AdvancedAgentTransport, InMemoryAgentTransport};
use winr::types::{
    ProfileAction, ProfileClickPoint, ProfileConfig, ProfileExecution, ProfileLogging,
    ProfileMetadata, ProfileMouseButton, ProfileSafety, ProfileSchedule, WindowSelector, WinrError,
};
use winr::workflows::{
    InputSinkKind, InputSinkPreference, SemanticInputAction, SemanticInputTarget,
    WorkflowExecutionTrace,
};

fn roblox_target_ref() -> AdvancedTargetRef {
    AdvancedTargetRef {
        hwnd: Some("0x0000000000001111".to_string()),
        pid: Some(42),
        exe: Some("RobloxPlayerBeta.exe".to_string()),
        window_class: Some("WINDOWSCLIENT".to_string()),
        title_hint: Some("Roblox".to_string()),
    }
}

fn sample_hello() -> AdvancedBackendHello {
    AdvancedBackendHello {
        protocol_version: 1,
        backend: AdvancedProfileBackend::Inject,
        lifecycle_state: AdvancedBackendLifecycleState::Attachable,
        capabilities: AdvancedBackendCapabilities {
            injected_input: true,
            render_observation: true,
            ..Default::default()
        },
        target: roblox_target_ref(),
        transport: default_transport_descriptor(),
        composition: default_agent_composition(),
    }
}

fn sample_target(hwnd: &str, title: &str, pid: u32) -> AdvancedAttachableTarget {
    AdvancedAttachableTarget {
        target: AdvancedTargetRef {
            hwnd: Some(hwnd.to_string()),
            pid: Some(pid),
            exe: Some("RobloxPlayerBeta.exe".to_string()),
            window_class: Some("WINDOWSCLIENT".to_string()),
            title_hint: Some(title.to_string()),
        },
        lifecycle_state: AdvancedBackendLifecycleState::Attachable,
        title: title.to_string(),
        class_name: "WINDOWSCLIENT".to_string(),
        exe: Some("RobloxPlayerBeta.exe".to_string()),
        visible: true,
        minimized: false,
        foreground: false,
        process: AdvancedProcessMetadata {
            architecture: AdvancedProcessArchitecture::X64,
            integrity_level: AdvancedIntegrityLevel::Medium,
            loaded_modules: vec!["RobloxPlayerBeta.exe".to_string()],
            executable_path: Some("C:\\RobloxPlayerBeta.exe".to_string()),
            likely_rendering_window: Some(hwnd.to_string()),
        },
        notes: Vec::new(),
    }
}

fn supervisor(policy: AdvancedAttachmentPolicy) -> AttachmentSupervisor {
    AttachmentSupervisor {
        attachment: AdvancedAttachment {
            selector: WindowSelector::default(),
            policy,
            target: sample_target("0x0000000000001111", "Roblox", 42),
            health: AdvancedAttachmentHealth {
                status: AdvancedAttachmentHealthStatus::Healthy,
                heartbeat_failures: 0,
                last_error: None,
            },
        },
    }
}

fn discovery_of(candidates: Vec<AdvancedAttachableTarget>) -> AdvancedTargetDiscovery {
    AdvancedTargetDiscovery {
        selector: WindowSelector::default(),
        candidate_count: candidates.len(),
        candidates,
    }
}

fn inject_profile() -> ProfileConfig {
    ProfileConfig {
        profile: ProfileMetadata {
            id: "harvest".to_string(),
            name: "Harvest".to_string(),
            description: "Harvest profile".to_string(),
            version: "1".to_string(),
        },
        target: WindowSelector {
            exe: Some("RobloxPlayerBeta.exe".to_string()),
            ..WindowSelector::default()
        },
        action: ProfileAction::MouseClick {
            button: ProfileMouseButton::Left,
            input_mode: None,
            click_point: Some(ProfileClickPoint::Center),
            x: None,
            y: None,
        },
        detector: None,
        schedule: ProfileSchedule {
            mode: "interval".to_string(),
            every_ms: 100,
            random_delta_ms: 0,
            run_until_stopped: true,
        },
        logging: ProfileLogging {
            level: "info".to_string(),
            mode: "single_line_counter".to_string(),
            update_every_trigger: true,
            template: "{count}".to_string(),
        },
        safety: ProfileSafety {
            require_visible_window: true,
            require_foreground_window: true,
            stop_on_focus_loss: false,
            pause_on_focus_loss: false,
        },
        execution: ProfileExecution {
            backend: AdvancedProfileBackend::Inject,
        },
        workflow: None,
    }
}

#[test]
fn stub_agent_returns_hello_on_handshake() {
    let mut agent = StubAdvancedAgent::new(sample_hello());
    let response = agent
        .handle_command(&AdvancedHostCommandEnvelope {
            session_id: AdvancedSessionId(7),
            sequence: AdvancedSequenceNumber(1),
            command: AdvancedHostCommand::Handshake {
                requested_backend: AdvancedProfileBackend::Inject,
                target: agent.hello().target,
            },
        })
        .expect("handshake should succeed");

    match response.response {
        AdvancedHostResponse::Hello { hello } => {
            assert_eq!(hello.backend, AdvancedProfileBackend::Inject);
            assert!(hello.transport.supports_events);
        }
        other => panic!("expected hello response, got {other:?}"),
    }
}

#[test]
fn stub_agent_drains_observations_via_fetch() {
    let mut agent = StubAdvancedAgent::new(sample_hello());
    agent.queue_observation(AdvancedObservationUpdate {
        frame_id: 10,
        source: "render-hook".to_string(),
        detail: "sample".to_string(),
        timestamp_ms: Some(100),
        freshness_ms: Some(16),
        payload: None,
    });

    let response = agent
        .handle_command(&AdvancedHostCommandEnvelope {
            session_id: AdvancedSessionId(7),
            sequence: AdvancedSequenceNumber(2),
            command: AdvancedHostCommand::FetchObservations { max_items: 4 },
        })
        .expect("fetch should succeed");

    match response.response {
        AdvancedHostResponse::Observations { updates } => {
            assert_eq!(updates.len(), 1);
            assert_eq!(updates[0].source, "render-hook");
        }
        other => panic!("expected observations response, got {other:?}"),
    }
}

#[test]
fn stub_agent_numbers_events_and_describes_inputs() {
    let mut agent = StubAdvancedAgent::new(sample_hello());
    for frame_id in [1u64, 2, 3] {
        agent.queue_observation(AdvancedObservationUpdate {
            frame_id,
            source: "memory".to_string(),
            detail: "tick".to_string(),
            timestamp_ms: None,
            freshness_ms: None,
            payload: None,
        });
    }
    let events = agent.poll_events(AdvancedSessionId(9)).unwrap();
    assert_eq!(events.len(), 3);
    assert_eq!(events[0].sequence, AdvancedSequenceNumber(1));
    assert_eq!(events[2].sequence, AdvancedSequenceNumber(3));
    assert!(agent.poll_events(AdvancedSessionId(9)).unwrap().is_empty());

    let response = agent
        .handle_command(&AdvancedHostCommandEnvelope {
            session_id: AdvancedSessionId(9),
            sequence: AdvancedSequenceNumber(5),
            command: AdvancedHostCommand::ExecuteInput {
                action: InjectedInputAction::Turn {
                    delta_yaw_milli_degrees: -1500,
                },
            },
        })
        .unwrap();
    assert_eq!(response.response_to, AdvancedSequenceNumber(5));
    assert_eq!(
        response.response,
        AdvancedHostResponse::InputOutcome {
            status: AdvancedCommandAckStatus::Completed,
            detail: "stub agent completed Turn { delta_yaw_milli_degrees: -1500 }".to_string(),
        }
    );
    let ack = agent
        .handle_command(&AdvancedHostCommandEnvelope {
            session_id: AdvancedSessionId(9),
            sequence: AdvancedSequenceNumber(6),
            command: AdvancedHostCommand::StartProfile {
                profile_id: "harvest".to_string(),
            },
        })
        .unwrap();
    assert_eq!(
        ack.response,
        AdvancedHostResponse::Ack {
            detail: "profile 'harvest' started in stub agent".to_string()
        }
    );
}

#[test]
fn detach_marks_attachment_lost() {
    let mut supervisor = supervisor(AdvancedAttachmentPolicy::default());

    let event = supervisor.detach("manual shutdown");
    assert!(matches!(event, AdvancedAttachmentEvent::Detached { .. }));
    assert_eq!(
        supervisor.attachment.health.status,
        AdvancedAttachmentHealthStatus::Lost
    );
}

#[test]
fn heartbeat_failure_threshold_marks_lost() {
    let mut supervisor = supervisor(AdvancedAttachmentPolicy {
        reattach_mode: AdvancedReattachMode::Never,
        heartbeat_failure_threshold: 2,
    });

    supervisor.register_heartbeat_failure("first".to_string());
    assert_eq!(
        supervisor.attachment.health.status,
        AdvancedAttachmentHealthStatus::Stale
    );

    supervisor.register_heartbeat_failure("second".to_string());
    assert_eq!(
        supervisor.attachment.health.status,
        AdvancedAttachmentHealthStatus::Lost
    );
}

#[test]
fn heartbeat_reattaches_restarted_process_only_when_allowed() {
    let mut never = supervisor(AdvancedAttachmentPolicy::default());
    let event = never.heartbeat(Ok(discovery_of(vec![sample_target(
        "0x0000000000002222",
        "Roblox",
        77,
    )])));
    assert_eq!(
        event,
        AdvancedAttachmentEvent::HeartbeatFailed {
            detail: "target process changed and reattach is disabled".to_string(),
            failures: 1,
        }
    );

    let mut restarting = supervisor(AdvancedAttachmentPolicy {
        reattach_mode: AdvancedReattachMode::IfProcessRestarted,
        heartbeat_failure_threshold: 3,
    });
    let event = restarting.heartbeat(Ok(discovery_of(vec![sample_target(
        "0x0000000000002222",
        "Roblox",
        77,
    )])));
    assert!(matches!(
        event,
        AdvancedAttachmentEvent::Reattached {
            previous_pid: Some(42),
            ..
        }
    ));
    assert_eq!(restarting.attachment.target.target.pid, Some(77));

    let event = restarting.heartbeat(Err(WinrError::WindowNotFound));
    assert_eq!(
        event,
        AdvancedAttachmentEvent::HeartbeatFailed {
            detail: "no windows matched the provided selector".to_string(),
            failures: 1,
        }
    );
    let event = restarting.heartbeat(Ok(discovery_of(vec![sample_target(
        "0x0000000000002222",
        "Roblox",
        77,
    )])));
    assert!(matches!(event, AdvancedAttachmentEvent::HeartbeatHealthy { .. }));
    assert_eq!(restarting.attachment.health.heartbeat_failures, 0);
}

#[test]
fn selector_matches_attachable_target() {
    let selector = WindowSelector {
        title_contains: Some("roblox".to_string()),
        exe: Some("robloxplayerbeta.exe".to_string()),
        ..WindowSelector::default()
    };

    assert!(selector.matches_attachable_target(&sample_target("0x0000000000001234", "Roblox", 42)));
}

#[test]
fn resolve_attachable_target_rejects_multiple_matches() {
    let discovery = AdvancedTargetDiscovery {
        selector: WindowSelector::default(),
        candidate_count: 2,
        candidates: vec![
            sample_target("0x0000000000001234", "Roblox 1", 42),
            sample_target("0x0000000000005678", "Roblox 2", 42),
        ],
    };

    let error = resolve_attachable_target(&discovery).unwrap_err();
    assert!(matches!(error, WinrError::Unsupported { .. }));
    assert_eq!(
        error.message(),
        "unsupported operation: 2 attachable targets matched the advanced backend selector"
    );
}

#[test]
fn layered_backend_prefers_semantic_internal_actions() {
    let backend = StubLayeredInputBackend::new(roblox_target_ref());
    let mapping = backend
        .map_action(
            &SemanticInputAction::Approach {
                target: SemanticInputTarget::EntityId {
                    entity_id: "rock-1".to_string(),
                },
            },
            None,
        )
        .expect("semantic mapping should resolve");

    assert_eq!(mapping.sink, InputSinkKind::SemanticInternalAction);
    assert!(mapping.detail.contains("semantic approach"));
}

#[test]
fn layered_backend_can_fall_back_to_injected_input() {
    let mut backend = StubLayeredInputBackend::new(roblox_target_ref());
    backend.capabilities.internal_interaction = false;
    backend.capabilities.semantic_navigation = false;
    backend.capabilities.message_input = false;
    backend.capabilities.foreground_input = false;

    let mapping = backend
        .map_action(&SemanticInputAction::MoveForward { duration_ms: 150 }, None)
        .expect("injected fallback should resolve");

    assert_eq!(mapping.sink, InputSinkKind::InjectedRawInput);
}

#[test]
fn layered_backend_supports_preferred_message_mapping_for_simple_actions() {
    let mut backend = StubLayeredInputBackend::new(roblox_target_ref());
    backend.capabilities.internal_interaction = false;
    backend.capabilities.semantic_navigation = false;
    backend.capabilities.injected_input = false;

    let mapping = backend
        .map_action(
            &SemanticInputAction::Interact,
            Some(&InputSinkPreference {
                ordered_sinks: vec![InputSinkKind::Win32Message, InputSinkKind::Win32Foreground],
            }),
        )
        .expect("message mapping should resolve");

    assert_eq!(mapping.sink, InputSinkKind::Win32Message);
}

#[test]
fn layered_backend_describes_sinks_and_mappings() {
    let backend = StubLayeredInputBackend::new(roblox_target_ref());
    assert_eq!(
        backend.supported_sinks(),
        vec![
            InputSinkKind::SemanticInternalAction,
            InputSinkKind::InjectedRawInput,
            InputSinkKind::Win32Message,
            InputSinkKind::Win32Foreground,
        ]
    );
    let mapping = backend
        .map_action(
            &SemanticInputAction::WalkTo {
                target: SemanticInputTarget::RegionId {
                    region_id: "dirt-patch-1".to_string(),
                },
            },
            None,
        )
        .unwrap();
    assert_eq!(
        backend.describe_mapping(&mapping),
        "target=42 sink=SemanticInternalAction detail=semantic walk_to via internal controller to region:dirt-patch-1"
    );
    assert_eq!(describe_target(&SemanticInputTarget::CurrentTarget), "current_target");
}

#[test]
fn stub_backend_descriptor_is_fragile_and_replaceable() {
    let descriptor = stub_backend_descriptor();
    assert_eq!(descriptor.backend, AdvancedProfileBackend::Inject);
    assert_eq!(descriptor.stability, AdvancedBackendStability::Fragile);
    assert!(descriptor.replaceable);
}

#[test]
fn capability_selection_prefers_message_backend_when_required() {
    let catalog = catalog_for_frontend(AdvancedFrontend::Cli);
    let selection = select_backend_by_capabilities(
        &catalog,
        &AdvancedCapabilityRequirements {
            message_input: true,
            ..Default::default()
        },
    );

    assert_eq!(
        selection.selected_backend,
        Some(AdvancedProfileBackend::Message)
    );
    assert!(selection
        .matches
        .iter()
        .any(|entry| entry.satisfies_requirements));
}

fn render_context() -> ObservationCaptureContext {
    ObservationCaptureContext {
        target: roblox_target_ref(),
        backend: AdvancedProfileBackend::Inject,
        frame_id: 9,
        timestamp_ms: 1000,
        freshness_ms: 16,
    }
}

#[test]
fn stub_render_observer_captures_timing_and_boundary() {
    let context = render_context();
    let mut observer = StubRenderObserver::new(context.target.clone(), RenderHookBoundary::DxgiPresent);
    let details = observer.capture_render_details(&context);
    let source_data = ObservationSourceData::RenderHookFrame {
        frame: ObservationFrameHandle {
            payload: observer.payload("frame", 1920 * 1080 * 4, "render frame pixels"),
            width: 1920,
            height: 1080,
            pixel_format: ObservationPixelFormat::Bgra8,
            row_stride_bytes: Some(1920 * 4),
        },
    };
    let update = AdvancedObservationUpdate {
        frame_id: context.frame_id,
        source: "render-hook".to_string(),
        detail: "captured at render presentation boundary".to_string(),
        timestamp_ms: None,
        freshness_ms: None,
        payload: None,
    };
    let metadata = metadata_from_update(&context, &update, &source_data);

    assert_eq!(metadata.source, ObservationSourceKind::RenderHookFrame);
    assert_eq!(details.boundary, RenderHookBoundary::DxgiPresent);
    assert_eq!(details.timing.frame_interval_ms, Some(16));
    assert!(details.availability.frame_ready);
    assert!(details.does_not_claim_game_state_api);
    assert!(details.does_not_claim_background_input_channel);
}

#[test]
fn stub_render_observer_is_render_only_capability() {
    let observer = StubRenderObserver::new(roblox_target_ref(), RenderHookBoundary::D3d12Present);
    let capabilities = observer.capabilities();

    assert!(capabilities.render_observation);
    assert!(capabilities.entity_tracking);
    assert!(!capabilities.injected_input);
    assert!(!capabilities.internal_interaction);
}

#[test]
fn live_runtime_inspection_surfaces_recent_rejection() {
    let mut session = AdvancedBackendSession::new(
        AdvancedSessionId(1),
        AdvancedBackendHello {
            protocol_version: 1,
            backend: AdvancedProfileBackend::Inject,
            lifecycle_state: AdvancedBackendLifecycleState::Attached,
            capabilities: AdvancedBackendCapabilities {
                memory_observation: true,
                injected_input: true,
                ..Default::default()
            },
            target: roblox_target_ref(),
            transport: default_transport_descriptor(),
            composition: default_agent_composition(),
        },
    );
    session.record_command_outcome(
        "roblox_input::walk_to",
        AdvancedCommandAckStatus::Rejected,
        "bridge missing",
    );
    let inspection = inspect_live_roblox_session(
        &session,
        AdvancedAttachmentHealthStatus::Healthy,
        None,
        &WorkflowExecutionTrace::default(),
    );

    assert_eq!(
        inspection
            .last_rejected_command
            .as_ref()
            .expect("rejected command should exist")
            .detail,
        "bridge missing"
    );
}

#[test]
fn live_helpers_map_actions_and_rotate_waypoints() {
    assert_eq!(
        map_injected_input_action(&SemanticInputAction::MoveForward { duration_ms: 140 }),
        Some(InjectedInputAction::MoveForward { duration_ms: 140 })
    );
    assert_eq!(
        map_injected_input_action(&SemanticInputAction::WalkTo {
            target: SemanticInputTarget::CurrentTarget
        }),
        None
    );
    assert_eq!(
        rotated_waypoint_ids(5),
        vec![
            "live-patrol-waypoint-1".to_string(),
            "live-patrol-waypoint-2".to_string(),
            "live-patrol-waypoint-3".to_string(),
            "live-patrol-waypoint-0".to_string(),
        ]
    );
}

#[test]
fn in_memory_transport_round_trips_binary_payloads() {
    let mut transport = InMemoryAgentTransport::default();
    let payload = AdvancedBinaryPayloadRef {
        payload_id: "frame-1".to_string(),
        encoding: AdvancedPayloadEncoding::RawBytes,
        byte_len: 3,
        transport: AdvancedIpcTransportKind::SharedMemory,
        description: "sample frame".to_string(),
    };

    transport
        .push_binary_payload(payload.clone(), vec![1, 2, 3])
        .expect("binary payload should store");

    let bytes = transport
        .take_binary_payload(&payload.payload_id)
        .expect("binary payload lookup should succeed")
        .expect("payload should exist");

    assert_eq!(bytes, vec![1, 2, 3]);
    assert!(transport
        .take_binary_payload(&payload.payload_id)
        .unwrap()
        .is_none());
}

#[test]
fn host_runtime_prepares_session_and_polls_transport() {
    let profile = inject_profile();
    let discovery = Ok(discovery_of(vec![sample_target(
        "0x0000000000001111",
        "Roblox",
        42,
    )]));
    let session = prepare_profile_backend(&profile, &discovery).unwrap();
    assert_eq!(session.session_id, AdvancedSessionId(1));
    assert_eq!(session.hello.target.pid, Some(42));

    let none = prepare_profile_backend(&profile, &Ok(discovery_of(Vec::new())));
    match none {
        Err(WinrError::Unsupported { message }) => {
            assert!(message.starts_with("advanced backend error: {\"kind\":\"no_attachable_target\""))
        }
        other => panic!("expected a structured error, got {other:?}"),
    }

    let mut runtime =
        AdvancedHostRuntime::attach(&profile, InMemoryAgentTransport::default(), discovery).unwrap();
    runtime.send_handshake().unwrap();
    runtime.ping().unwrap();
    let sent = runtime.transport.pop_command().unwrap();
    assert_eq!(sent.sequence, AdvancedSequenceNumber(1));
    assert!(matches!(sent.command, AdvancedHostCommand::Handshake { .. }));
    runtime.transport.push_response(AdvancedHostResponseEnvelope {
        session_id: AdvancedSessionId(1),
        sequence: AdvancedSequenceNumber(1),
        response_to: AdvancedSequenceNumber(1),
        response: AdvancedHostResponse::Pong {
            detail: "alive".to_string(),
        },
    });
    runtime.transport.push_event(AdvancedAgentEventEnvelope {
        session_id: AdvancedSessionId(1),
        sequence: AdvancedSequenceNumber(1),
        event: AdvancedAgentEvent::Status {
            state: AdvancedBackendLifecycleState::Attached,
            detail: "attached".to_string(),
        },
    });
    assert_eq!(runtime.poll_responses().unwrap().len(), 1);
    assert_eq!(runtime.poll_events().unwrap().len(), 1);
    assert_eq!(
        runtime.session.hello.lifecycle_state,
        AdvancedBackendLifecycleState::Attached
    );
    assert_eq!(runtime.fallback_target_ref().exe, Some("RobloxPlayerBeta.exe".to_string()));
}

#[test]
fn host_runtime_poll_stops_at_a_refused_response_and_keeps_the_rest() {
    let profile = inject_profile();
    let discovery = Ok(discovery_of(vec![sample_target(
        "0x0000000000001111",
        "Roblox",
        42,
    )]));
    let mut runtime =
        AdvancedHostRuntime::attach(&profile, InMemoryAgentTransport::default(), discovery).unwrap();
    runtime.request_capabilities().unwrap();
    let sent = runtime.transport.pop_command().unwrap();
    assert_eq!(sent.command, AdvancedHostCommand::GetCapabilities);
    let pong = |session: u64| AdvancedHostResponseEnvelope {
        session_id: AdvancedSessionId(session),
        sequence: AdvancedSequenceNumber(1),
        response_to: AdvancedSequenceNumber(1),
        response: AdvancedHostResponse::Pong { detail: "alive".to_string() },
    };
    runtime.transport.push_response(pong(1));
    runtime.transport.push_response(pong(7));
    runtime.transport.push_response(pong(1));
    assert!(runtime.poll_responses().is_err());
    assert_eq!(runtime.session.command_records[0].status, AdvancedCommandAckStatus::Acked);
    assert_eq!(runtime.poll_responses().unwrap().len(), 1);
    assert!(runtime.poll_responses().unwrap().is_empty());
}

#[test]
fn session_emits_incrementing_host_commands() {
    let profile = inject_profile();
    let mut session = stub_session(&profile);

    let handshake = session.handshake_command();
    let ping = session.ping_command();

    assert_eq!(handshake.sequence.0, 1);
    assert_eq!(ping.sequence.0, 2);
    assert_eq!(handshake.session_id.0, ping.session_id.0);
}

#[test]
fn patrol_waypoints_take_the_radius_as_i32() {
    assert_eq!(
        patrol_waypoints([10, 5, -20], 300),
        vec![[310, 5, -20], [10, 5, 280], [-290, 5, -20], [10, 5, -320]]
    );
    assert_eq!(
        patrol_waypoints([10, 5, -20], u32::MAX),
        vec![[9, 5, -20], [10, 5, -21], [11, 5, -20], [10, 5, -19]]
    );
}

#[test]
fn host_runtime_event_poll_stops_at_a_refused_event_and_keeps_the_rest() {
    let profile = inject_profile();
    let discovery = Ok(discovery_of(vec![sample_target(
        "0x0000000000001111",
        "Roblox",
        42,
    )]));
    let mut runtime =
        AdvancedHostRuntime::attach(&profile, InMemoryAgentTransport::default(), discovery).unwrap();
    let tick = |session: u64, sequence: u64| AdvancedAgentEventEnvelope {
        session_id: AdvancedSessionId(session),
        sequence: AdvancedSequenceNumber(sequence),
        event: AdvancedAgentEvent::ObservationTick {
            update: AdvancedObservationUpdate {
                frame_id: sequence,
                source: "memory".to_string(),
                detail: "tick".to_string(),
                timestamp_ms: None,
                freshness_ms: None,
                payload: None,
            },
        },
    };
    runtime.transport.push_event(tick(1, 1));
    runtime.transport.push_event(tick(1, 1));
    runtime.transport.push_event(tick(1, 2));
    assert!(runtime.poll_events().is_err());
    assert_eq!(runtime.session.last_agent_sequence, Some(AdvancedSequenceNumber(1)));
    assert_eq!(runtime.poll_events().unwrap().len(), 1);
    assert_eq!(runtime.session.last_agent_sequence, Some(AdvancedSequenceNumber(2)));
}
