use winr::memory_schema::RobloxMemoryValueKind;
use winr::protocol::{
    AdvancedAgentEvent, AdvancedAgentRole, AdvancedBackendLifecycleState, AdvancedCommandAckStatus,
    AdvancedHostCommand, AdvancedHostCommandEnvelope, AdvancedHostResponse,
    AdvancedIpcTransportKind, AdvancedProfileBackend, AdvancedSequenceNumber, AdvancedSessionId,
    AdvancedTargetRef, InjectedInputAction, RobloxObservedObject,
};
use winr::roblox_agent::{
    build_hello, check_read_address, check_scalar_kind, check_vec3_kind, encode_frame,
    frame_payload_length, injected_input_window, injected_key_plan, input_response,
    next_chase_address, observation_response, parse_agent_hwnd, required_field,
    snapshot_from_reads, AgentCommandPlan, InjectedAgentState, KeyStep,
};

fn agent_target() -> AdvancedTargetRef {
    AdvancedTargetRef {
        hwnd: Some("0x0000000000001234".to_string()),
        pid: Some(42),
        exe: Some("RobloxPlayerBeta.exe".to_string()),
        window_class: Some("WINDOWSCLIENT".to_string()),
        title_hint: Some("Roblox".to_string()),
    }
}

fn command(sequence: u64, command: AdvancedHostCommand) -> AdvancedHostCommandEnvelope {
    AdvancedHostCommandEnvelope {
        session_id: AdvancedSessionId(9),
        sequence: AdvancedSequenceNumber(sequence),
        command,
    }
}

#[test]
fn agent_answers_handshake_with_hello_event_and_response() {
    let mut agent = InjectedAgentState::new(9, agent_target());
    let handshake = command(
        1,
        AdvancedHostCommand::Handshake {
            requested_backend: AdvancedProfileBackend::Inject,
            target: agent_target(),
        },
    );
    match agent.plan(&handshake) {
        AgentCommandPlan::Respond { event: Some(event), response } => {
            assert_eq!(event.sequence, AdvancedSequenceNumber(1));
            assert!(matches!(event.event, AdvancedAgentEvent::Hello { .. }));
            assert_eq!(response.response_to, AdvancedSequenceNumber(1));
            match response.response {
                AdvancedHostResponse::Hello { hello } => {
                    assert_eq!(hello.lifecycle_state, AdvancedBackendLifecycleState::Attached);
                    assert_eq!(hello.transport.kind, AdvancedIpcTransportKind::NamedPipe);
                    assert_eq!(
                        hello.composition.roles,
                        vec![
                            AdvancedAgentRole::MemoryObserver,
                            AdvancedAgentRole::InputShim,
                            AdvancedAgentRole::SemanticAdapter
                        ]
                    );
                }
                other => panic!("unexpected response: {other:?}"),
            }
        }
        other => panic!("unexpected plan: {other:?}"),
    }
    assert_eq!(agent.next_event_sequence, 2);
    assert_eq!(build_hello(&agent_target()).target, agent_target());
}

#[test]
fn agent_acknowledges_profiles_and_counts_fetched_frames() {
    let mut agent = InjectedAgentState::new(9, agent_target());
    match agent.plan(&command(2, AdvancedHostCommand::StartProfile { profile_id: "harvest".to_string() })) {
        AgentCommandPlan::Respond { event: None, response } => match response.response {
            AdvancedHostResponse::Ack { detail } => {
                assert_eq!(detail, "profile 'harvest' started in injected agent")
            }
            other => panic!("unexpected response: {other:?}"),
        },
        other => panic!("unexpected plan: {other:?}"),
    }
    assert_eq!(
        agent.plan(&command(3, AdvancedHostCommand::FetchObservations { max_items: 1 })),
        AgentCommandPlan::CaptureSnapshot { frame_id: 1 }
    );
    assert_eq!(
        agent.plan(&command(4, AdvancedHostCommand::FetchObservations { max_items: 1 })),
        AgentCommandPlan::CaptureSnapshot { frame_id: 2 }
    );
    assert_eq!(
        agent.plan(&command(5, AdvancedHostCommand::ExecuteInput { action: InjectedInputAction::Jump })),
        AgentCommandPlan::ExecuteInput { action: InjectedInputAction::Jump }
    );
    match agent.plan(&command(6, AdvancedHostCommand::Ping)) {
        AgentCommandPlan::Respond { response, .. } => {
            assert_eq!(response.response, AdvancedHostResponse::Pong { detail: "injected agent alive".to_string() })
        }
        other => panic!("unexpected plan: {other:?}"),
    }
}

#[test]
fn agent_reports_snapshots_and_input_outcomes() {
    let objects = vec![RobloxObservedObject {
        id: "rock-1".to_string(),
        label: "Rock".to_string(),
        kind: "resource_node".to_string(),
        interactable: true,
        position_millimeters: [1100, 0, 2500],
    }];
    let snapshot = snapshot_from_reads("1", 3, 1000, [1000, 0, 2500], None, Some(90000), None, Some(true), None, objects);
    assert_eq!(snapshot.source, "injected-memory");
    assert_eq!(snapshot.detail, "manual schema '1' captured from injected agent");
    assert_eq!(snapshot.freshness_ms, 16);
    let fetch = command(7, AdvancedHostCommand::FetchObservations { max_items: 1 });
    let response = observation_response(&fetch, 3, snapshot);
    match response.response {
        AdvancedHostResponse::RobloxObservations { updates, snapshots } => {
            assert_eq!(updates.len(), 1);
            assert_eq!(updates[0].frame_id, 3);
            assert_eq!(updates[0].timestamp_ms, Some(1000));
            assert_eq!(snapshots[0].objects[0].id, "rock-1");
        }
        other => panic!("unexpected response: {other:?}"),
    }
    let input = command(8, AdvancedHostCommand::ExecuteInput { action: InjectedInputAction::Interact });
    assert_eq!(
        input_response(&input, Err("PostMessageW failed".to_string())).response,
        AdvancedHostResponse::InputOutcome {
            status: AdvancedCommandAckStatus::Rejected,
            detail: "PostMessageW failed".to_string()
        }
    );
    assert_eq!(input_response(&input, Ok("posted interact".to_string())).sequence, AdvancedSequenceNumber(8));
    assert_eq!(required_field(&None, "player_position").unwrap_err(), "required schema field 'player_position' is missing");
}

#[test]
fn injected_actions_become_key_posts() {
    let (steps, detail) = injected_key_plan(InjectedInputAction::Turn { delta_yaw_milli_degrees: -45000 });
    assert_eq!(
        steps,
        vec![
            KeyStep::Post { vk: 0x25, key_up: false },
            KeyStep::Wait { ms: 300 },
            KeyStep::Post { vk: 0x25, key_up: true }
        ]
    );
    assert_eq!(detail, "posted turn for 300 ms");
    let (_, detail) = injected_key_plan(InjectedInputAction::Turn { delta_yaw_milli_degrees: 500 });
    assert_eq!(detail, "posted turn for 20 ms");
    let (_, detail) = injected_key_plan(InjectedInputAction::Turn { delta_yaw_milli_degrees: 12000 });
    assert_eq!(detail, "posted turn for 120 ms");
    let (steps, detail) = injected_key_plan(InjectedInputAction::StopMotion);
    assert_eq!(steps.len(), 4);
    assert_eq!(detail, "posted stop motion");
    let (steps, detail) = injected_key_plan(InjectedInputAction::MoveForward { duration_ms: 150 });
    assert_eq!(steps[1], KeyStep::Wait { ms: 150 });
    assert_eq!(detail, "posted move forward for 150 ms");
    let (steps, _) = injected_key_plan(InjectedInputAction::Jump);
    assert_eq!(steps, vec![KeyStep::Post { vk: 0x20, key_up: false }, KeyStep::Post { vk: 0x20, key_up: true }]);
}

#[test]
fn agent_window_handles_and_reads_are_checked() {
    assert_eq!(parse_agent_hwnd("0x0000000000001234"), Ok(0x1234));
    assert_eq!(parse_agent_hwnd("0x0xff"), Ok(0xff));
    assert_eq!(parse_agent_hwnd("1a2B"), Ok(0x1a2b));
    assert_eq!(
        parse_agent_hwnd("0x"),
        Err("failed to parse hwnd '0x': cannot parse integer from empty string".to_string())
    );
    assert_eq!(
        parse_agent_hwnd("0xzz"),
        Err("failed to parse hwnd '0xzz': invalid digit found in string".to_string())
    );
    assert_eq!(
        parse_agent_hwnd("0x1FFFFFFFFFFFFFFFFz"),
        Err("failed to parse hwnd '0x1FFFFFFFFFFFFFFFFz': number too large to fit in target type".to_string())
    );
    let mut target = agent_target();
    assert_eq!(injected_input_window(&target), Ok(0x1234));
    target.hwnd = None;
    assert_eq!(injected_input_window(&target), Err("target hwnd missing for injected input".to_string()));

    assert_eq!(check_vec3_kind(RobloxMemoryValueKind::Vec3F32), Ok(true));
    assert_eq!(check_vec3_kind(RobloxMemoryValueKind::Vec3I32), Ok(false));
    assert_eq!(
        check_vec3_kind(RobloxMemoryValueKind::U8Bool),
        Err("field expected vec3 but schema uses U8Bool".to_string())
    );
    assert!(check_scalar_kind(RobloxMemoryValueKind::I32, RobloxMemoryValueKind::I32).is_ok());
    assert_eq!(
        check_scalar_kind(RobloxMemoryValueKind::U32, RobloxMemoryValueKind::U8Bool),
        Err("field expected bool but schema uses U32".to_string())
    );
    assert_eq!(next_chase_address(0x2000, 0x20, "RobloxPlayerBeta.exe", 0), Ok(0x2020));
    assert_eq!(
        next_chase_address(0, 0, "RobloxPlayerBeta.exe", 1),
        Err("null pointer while resolving 'RobloxPlayerBeta.exe' at dereference step 1".to_string())
    );
    assert!(next_chase_address(usize::MAX, 1, "m", 2).is_err());
    assert_eq!(check_read_address(0), Err("attempted to read null address".to_string()));
    assert!(check_read_address(8).is_ok());
}

#[test]
fn pipe_frames_carry_a_little_endian_length() {
    let payload = b"{\"ok\":true}".to_vec();
    let frame = encode_frame(&payload);
    assert_eq!(frame.len(), payload.len() + 4);
    assert_eq!(&frame[0..4], &(payload.len() as u32).to_le_bytes());
    assert_eq!(&frame[4..], &payload[..]);
    assert_eq!(frame_payload_length(&frame[0..4].to_vec()), payload.len() as u32);
    assert_eq!(frame_payload_length(&vec![0x10, 0x27, 0, 0]), 10000);
}
