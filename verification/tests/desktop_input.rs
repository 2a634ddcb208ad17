use winr::backend::resolve_backend_selection;
use winr::desktop::{
    list_windows, pick_profile_target, resolve_window_from_list, ListWindowsOptions,
    ProfileTargetPick,
};
use winr::host::prepare_profile_backend;
use winr::keyboard::{
    check_sent_inputs, click_window_details, combo_key_events, combo_primary_token, join_steps,
    mouse_click_position, named_key, named_modifier, parse_key_token, sequence_key_events,
    text_key_events, KeyEvent, MouseButton,
};
use winr::protocol::{
    AdvancedAgentEvent, AdvancedAgentEventEnvelope, AdvancedBackendLifecycleState,
    AdvancedFrontend, AdvancedIntegrityLevel, AdvancedObservationUpdate, AdvancedProfileBackend,
    AdvancedSequenceNumber, AdvancedTargetDiscovery,
};
use winr::security::{advanced_integrity_level_from_rid, enforce_integrity_level, IntegrityLevel};
use winr::session::stub_session;
use winr::types::{
    ProfileAction, ProfileConfig, ProfileExecution, ProfileLogging, ProfileMetadata,
    ProfileMouseButton, ProfileSafety, ProfileSchedule, Rect, UiaElementInfo, UiaSelector,
    WindowInfo, WindowSelector, WinrError,
};
use winr::uia::{rect_to_option, resolve_single_element, text_to_option};

fn make_window(hwnd: &str, title: &str) -> WindowInfo {
    WindowInfo {
        hwnd: hwnd.to_string(),
        pid: 1,
        title: title.to_string(),
        class_name: "Demo".to_string(),
        exe: Some("demo.exe".to_string()),
        visible: true,
        minimized: false,
        foreground: false,
        rect: Rect { left: 0, top: 0, right: 100, bottom: 100 },
    }
}

fn sample_profile() -> ProfileConfig {
    ProfileConfig {
        profile: ProfileMetadata {
            id: "inject-demo".to_string(),
            name: "Inject Demo".to_string(),
            description: "Test profile".to_string(),
            version: "1".to_string(),
        },
        target: WindowSelector {
            title_contains: Some("Roblox".to_string()),
            exe: Some("RobloxPlayerBeta.exe".to_string()),
            ..WindowSelector::default()
        },
        action: ProfileAction::MouseClick {
            button: ProfileMouseButton::Left,
            input_mode: None,
            click_point: None,
            x: None,
            y: None,
        },
        detector: None,
        schedule: ProfileSchedule {
            mode: "interval".to_string(),
            every_ms: 50,
            random_delta_ms: 0,
            run_until_stopped: true,
        },
        logging: ProfileLogging {
            level: "info".to_string(),
            mode: "single_line_counter".to_string(),
            update_every_trigger: true,
            template: "count={count}".to_string(),
        },
        safety: ProfileSafety {
            require_visible_window: true,
            require_foreground_window: true,
            stop_on_focus_loss: true,
            pause_on_focus_loss: false,
        },
        execution: ProfileExecution { backend: AdvancedProfileBackend::Auto },
        workflow: None,
    }
}

fn tick(frame_id: u64, detail: &str) -> AdvancedAgentEvent {
    AdvancedAgentEvent::ObservationTick {
        update: AdvancedObservationUpdate {
            frame_id,
            source: "stub".to_string(),
            detail: detail.to_string(),
            timestamp_ms: None,
            freshness_ms: None,
            payload: None,
        },
    }
}

fn element(name: &str, automation_id: &str) -> UiaElementInfo {
    UiaElementInfo {
        hwnd: None,
        automation_id: Some(automation_id.to_string()),
        name: Some(name.to_string()),
        class_name: Some("Button".to_string()),
        localized_control_type: Some("button".to_string()),
        control_type: Some(50000),
        enabled: Some(true),
        rect: None,
        children: Vec::new(),
    }
}

#[test]
fn resolve_window_returns_not_found() {
    let selector = WindowSelector {
        title_contains: Some("missing".to_string()),
        ..WindowSelector::default()
    };

    let error = resolve_window_from_list(&Vec::new(), &selector).unwrap_err();
    assert!(matches!(error, WinrError::WindowNotFound));
}

#[test]
fn resolve_window_returns_ambiguous_matches() {
    let windows = vec![
        make_window("0x0000000000000001", "same"),
        make_window("0x0000000000000002", "same"),
    ];
    let selector = WindowSelector {
        title_contains: Some("same".to_string()),
        ..WindowSelector::default()
    };

    let error = resolve_window_from_list(&windows, &selector).unwrap_err();
    match error {
        WinrError::AmbiguousWindow { count, matches } => {
            assert_eq!(count, 2);
            assert_eq!(matches.len(), 2);
        }
        other => panic!("unexpected error: {other:?}"),
    }
}

#[test]
fn resolve_window_returns_the_single_match() {
    let windows = vec![
        make_window("0x0000000000000001", "Editor"),
        make_window("0x0000000000000002", "Browser"),
    ];
    let selector = WindowSelector {
        title_contains: Some("BROW".to_string()),
        ..WindowSelector::default()
    };
    let window = resolve_window_from_list(&windows, &selector).unwrap();
    assert_eq!(window.hwnd, "0x0000000000000002");
}

#[test]
fn list_windows_keeps_order_and_filters_hidden() {
    let mut hidden = make_window("0x0000000000000003", "Demo hidden");
    hidden.visible = false;
    let windows = vec![
        make_window("0x0000000000000001", "Demo one"),
        hidden,
        make_window("0x0000000000000002", "Other"),
        make_window("0x0000000000000004", "Demo two"),
    ];
    let selector = WindowSelector {
        title_contains: Some("demo".to_string()),
        ..WindowSelector::default()
    };
    let all = list_windows(&windows, &selector, ListWindowsOptions { visible_only: false });
    assert_eq!(all.len(), 3);
    let visible = list_windows(&windows, &selector, ListWindowsOptions { visible_only: true });
    let titles: Vec<&str> = visible.iter().map(|w| w.title.as_str()).collect();
    assert_eq!(titles, vec!["Demo one", "Demo two"]);
}

#[test]
fn profile_target_prefers_foreground_then_handle_order() {
    let mut front = make_window("0x0000000000000009", "Roblox");
    front.foreground = true;
    let windows = vec![
        make_window("0x0000000000000005", "Roblox"),
        front,
        make_window("0x0000000000000002", "Roblox"),
    ];
    let selector = WindowSelector {
        title_contains: Some("roblox".to_string()),
        ..WindowSelector::default()
    };
    match pick_profile_target(&windows, &selector, true, true, false) {
        ProfileTargetPick::Ready(w) => assert_eq!(w.hwnd, "0x0000000000000009"),
        other => panic!("unexpected pick: {other:?}"),
    }
    let background = vec![
        make_window("0x0000000000000005", "Roblox"),
        make_window("0x0000000000000002", "Roblox"),
    ];
    match pick_profile_target(&background, &selector, true, true, true) {
        ProfileTargetPick::NeedsFocus(w) => assert_eq!(w.hwnd, "0x0000000000000002"),
        other => panic!("unexpected pick: {other:?}"),
    }
    assert_eq!(
        pick_profile_target(&background, &selector, true, true, false),
        ProfileTargetPick::NotFound
    );
    match pick_profile_target(&background, &selector, true, false, false) {
        ProfileTargetPick::Ready(w) => assert_eq!(w.hwnd, "0x0000000000000002"),
        other => panic!("unexpected pick: {other:?}"),
    }
    let mut minimized = make_window("0x0000000000000001", "Roblox");
    minimized.minimized = true;
    assert_eq!(
        pick_profile_target(&vec![minimized], &selector, false, false, true),
        ProfileTargetPick::NotFound
    );
}

#[test]
fn combo_parser_supports_ctrl_l() {
    let inputs = combo_key_events("ctrl+l", 0x4C).unwrap();
    assert_eq!(inputs.len(), 4);
}

#[test]
fn combo_parser_rejects_multiple_primary_keys() {
    let error = match combo_key_events("a+b", 0x41) {
        Ok(_) => panic!("expected combo parser to reject multiple primary keys"),
        Err(error) => error,
    };
    assert!(matches!(error, WinrError::Unsupported { .. }));
}

#[test]
fn combo_events_press_modifiers_then_release_in_reverse() {
    let events = combo_key_events("Ctrl + Shift + S", 0x53).unwrap();
    let expected = vec![
        KeyEvent { vk: 0x11, scan: 0, key_up: false, unicode: false },
        KeyEvent { vk: 0x10, scan: 0, key_up: false, unicode: false },
        KeyEvent { vk: 0x53, scan: 0, key_up: false, unicode: false },
        KeyEvent { vk: 0x53, scan: 0, key_up: true, unicode: false },
        KeyEvent { vk: 0x10, scan: 0, key_up: true, unicode: false },
        KeyEvent { vk: 0x11, scan: 0, key_up: true, unicode: false },
    ];
    assert_eq!(events, expected);
    let enter = combo_key_events("enter", -1).unwrap();
    assert_eq!(enter.len(), 2);
    assert_eq!(enter[0].vk, 0x0D);
}

#[test]
fn combo_errors_name_the_combo() {
    match combo_key_events("ctrl+a+b", 0x41) {
        Err(WinrError::Unsupported { message }) => {
            assert_eq!(message, "combo 'ctrl+a+b' contains more than one primary key")
        }
        other => panic!("unexpected result: {other:?}"),
    }
    match combo_key_events("ctrl+shift", -1) {
        Err(WinrError::Unsupported { message }) => {
            assert_eq!(message, "combo 'ctrl+shift' does not contain a primary key")
        }
        other => panic!("unexpected result: {other:?}"),
    }
    match combo_key_events("ctrl+bogus", -1) {
        Err(WinrError::Unsupported { message }) => {
            assert_eq!(message, "unsupported key token 'bogus'")
        }
        other => panic!("unexpected result: {other:?}"),
    }
}

#[test]
fn key_tokens_resolve_names_and_layout_shift_state() {
    assert_eq!(named_modifier("CONTROL"), Some(0x11));
    assert_eq!(named_modifier("Meta"), Some(0x5B));
    assert_eq!(named_modifier("l"), None);
    assert_eq!(named_key("PageDown"), Some(0x22));
    assert_eq!(named_key("f12"), Some(0x7B));
    assert_eq!(named_key("f13"), None);
    // '!' on a US layout: virtual key '1' with shift.
    let (vk, modifiers) = parse_key_token("!", 0x0131).unwrap();
    assert_eq!(vk, 0x31);
    assert_eq!(modifiers, vec![0x10]);
    assert!(parse_key_token("x", -1).is_err());
    assert_eq!(combo_primary_token("ctrl + shift + !"), Some("!".to_string()));
    assert_eq!(combo_primary_token("ctrl+alt"), None);
}

#[test]
fn text_events_use_utf16_units() {
    let events = text_key_events("a\u{1F600}");
    let scans: Vec<u16> = events.iter().map(|e| e.scan).collect();
    assert_eq!(scans, vec![0x61, 0x61, 0xD83D, 0xD83D, 0xDE00, 0xDE00]);
    assert!(events.iter().all(|e| e.unicode && e.vk == 0));
    let ups: Vec<bool> = events.iter().map(|e| e.key_up).collect();
    assert_eq!(ups, vec![false, true, false, true, false, true]);
    assert!(text_key_events("").is_empty());
}

#[test]
fn sequences_concatenate_combo_events() {
    let steps = vec!["ctrl+a".to_string(), "delete".to_string()];
    let events = sequence_key_events(&steps, &vec![0x41, -1]).unwrap();
    assert_eq!(events.len(), 6);
    assert_eq!(events[4].vk, 0x2E);
    assert_eq!(join_steps(&steps), "ctrl+a, delete");
    let bad = vec!["ctrl".to_string()];
    assert!(sequence_key_events(&bad, &vec![-1]).is_err());
}

#[test]
fn sent_input_counts_are_checked() {
    assert!(check_sent_inputs("input keys", 4, 4).is_ok());
    match check_sent_inputs("input keys", 4, 3) {
        Err(WinrError::Unsupported { message }) => {
            assert_eq!(message, "SendInput sent 3 of 4 events for input keys")
        }
        other => panic!("unexpected result: {other:?}"),
    }
    match check_sent_inputs("input text", 0, 0) {
        Err(WinrError::Unsupported { message }) => {
            assert_eq!(message, "no inputs were generated for input text")
        }
        other => panic!("unexpected result: {other:?}"),
    }
}

#[test]
fn mouse_clicks_need_both_coordinates() {
    assert_eq!(mouse_click_position(Some(3), Some(-4)).unwrap(), Some((3, -4)));
    assert_eq!(mouse_click_position(None, None).unwrap(), None);
    assert!(mouse_click_position(Some(1), None).is_err());
    assert_eq!(click_window_details(MouseButton::Right, -5, 12), "button=right x=-5 y=12");
    assert_eq!(MouseButton::Middle.event_flags(), (0x0020, 0x0040));
}

#[test]
fn integrity_levels_follow_rid_ranges() {
    assert_eq!(IntegrityLevel::from_rid(0x0000), IntegrityLevel::Untrusted);
    assert_eq!(IntegrityLevel::from_rid(0x1000), IntegrityLevel::Low);
    assert_eq!(IntegrityLevel::from_rid(0x2000), IntegrityLevel::Medium);
    assert_eq!(IntegrityLevel::from_rid(0x2100), IntegrityLevel::Medium);
    assert_eq!(IntegrityLevel::from_rid(0x3000), IntegrityLevel::High);
    assert_eq!(IntegrityLevel::from_rid(0x4000), IntegrityLevel::System);
    assert_eq!(IntegrityLevel::from_rid(0x5000), IntegrityLevel::Protected);
    assert_eq!(IntegrityLevel::High.as_str(), "high");
    assert_eq!(advanced_integrity_level_from_rid(0x3000), AdvancedIntegrityLevel::High);
}

#[test]
fn integrity_enforcement_refuses_higher_targets() {
    assert!(enforce_integrity_level(IntegrityLevel::Medium, IntegrityLevel::Medium).is_ok());
    assert!(enforce_integrity_level(IntegrityLevel::High, IntegrityLevel::Low).is_ok());
    assert!(matches!(
        enforce_integrity_level(IntegrityLevel::Medium, IntegrityLevel::High),
        Err(WinrError::IntegrityLevelDenied)
    ));
}

#[test]
fn empty_rect_is_filtered() {
    assert!(rect_to_option(0, 0, 0, 0).is_none());
    assert_eq!(
        rect_to_option(0, 0, 10, 20),
        Some(Rect { left: 0, top: 0, right: 10, bottom: 20 })
    );
}

#[test]
fn bstr_conversion_ignores_empty_strings() {
    assert!(text_to_option("   ").is_none());
    assert_eq!(text_to_option("OK").as_deref(), Some("OK"));
    assert_eq!(text_to_option("  Save  ").as_deref(), Some("Save"));
}

#[test]
fn single_uia_element_is_resolved_or_reported() {
    let elements = vec![element("Save", "save"), element("Cancel", "cancel"), element("Save", "save2")];
    let by_id = UiaSelector { automation_id: Some("cancel".to_string()), ..UiaSelector::default() };
    assert_eq!(resolve_single_element(&elements, &by_id).unwrap(), 1);
    let by_name = UiaSelector { name: Some("Save".to_string()), ..UiaSelector::default() };
    match resolve_single_element(&elements, &by_name) {
        Err(WinrError::AmbiguousUiaElement { count, matches }) => {
            assert_eq!(count, 2);
            assert_eq!(matches.len(), 2);
        }
        other => panic!("unexpected result: {other:?}"),
    }
    let missing = UiaSelector { name: Some("Open".to_string()), ..UiaSelector::default() };
    assert!(matches!(
        resolve_single_element(&elements, &missing),
        Err(WinrError::UiaElementNotFound)
    ));
    assert!(matches!(
        resolve_single_element(&elements, &UiaSelector::default()),
        Err(WinrError::Unsupported { .. })
    ));
}

#[test]
fn auto_backend_defaults_to_foreground() {
    let profile = sample_profile();
    let selection = resolve_backend_selection(&profile, AdvancedFrontend::Cli);
    assert_eq!(selection.requested, AdvancedProfileBackend::Auto);
    assert_eq!(selection.resolved, AdvancedProfileBackend::Foreground);
}

#[test]
fn explicit_inject_backend_returns_stub_error() {
    let mut profile = sample_profile();
    profile.execution.backend = AdvancedProfileBackend::Inject;
    let discovery: Result<AdvancedTargetDiscovery, WinrError> = Err(WinrError::WindowNotFound);
    let result = prepare_profile_backend(&profile, &discovery);
    match result {
        Ok(session) => assert_eq!(session.hello.backend, AdvancedProfileBackend::Inject),
        Err(error) => assert!(matches!(
            error,
            WinrError::WindowNotFound | WinrError::Unsupported { .. }
        )),
    }
}

#[test]
fn session_accepts_valid_status_transition() {
    let profile = sample_profile();
    let mut session = stub_session(&profile);

    session
        .apply_event(&AdvancedAgentEventEnvelope {
            session_id: session.session_id,
            sequence: AdvancedSequenceNumber(1),
            event: AdvancedAgentEvent::Status {
                state: AdvancedBackendLifecycleState::Attachable,
                detail: "ready".to_string(),
            },
        })
        .expect("attachable transition should succeed");

    assert_eq!(session.hello.lifecycle_state, AdvancedBackendLifecycleState::Attachable);
}

#[test]
fn session_rejects_invalid_status_transition() {
    let profile = sample_profile();
    let mut session = stub_session(&profile);

    let error = session
        .apply_event(&AdvancedAgentEventEnvelope {
            session_id: session.session_id,
            sequence: AdvancedSequenceNumber(1),
            event: AdvancedAgentEvent::Status {
                state: AdvancedBackendLifecycleState::Attached,
                detail: "skipped attachable".to_string(),
            },
        })
        .unwrap_err();

    assert!(matches!(error, WinrError::Unsupported { .. }));
}

#[test]
fn session_rejects_out_of_order_agent_sequences() {
    let profile = sample_profile();
    let mut session = stub_session(&profile);

    session
        .apply_event(&AdvancedAgentEventEnvelope {
            session_id: session.session_id,
            sequence: AdvancedSequenceNumber(3),
            event: tick(1, "frame"),
        })
        .expect("first event should succeed");

    let error = session
        .apply_event(&AdvancedAgentEventEnvelope {
            session_id: session.session_id,
            sequence: AdvancedSequenceNumber(2),
            event: tick(2, "late frame"),
        })
        .unwrap_err();

    assert!(matches!(error, WinrError::Unsupported { .. }));
}
