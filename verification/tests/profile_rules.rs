use winr::profile::{
    color_within_tolerance, describe_profile_workflow, neighbors, profile_workflow_tick_interval_ms,
    random_click_offset, random_click_offset_from_nanos, random_delta, random_delta_from_nanos,
    resolve_click_point, resolve_named_click_point, should_run_live_roblox_workflow,
    target_search_outcome, target_wait_cancelled, validate_profile, FocusStep, ProfileRunEvent,
    ProfileRunOptions, ProfileTriggerLoop, TargetSearchOutcome,
};
use winr::protocol::{AdvancedFrontend, AdvancedProfileBackend, MouseInputMode};
use winr::types::{
    ProfileAction, ProfileClickPoint, ProfileConfig, ProfileDetector, ProfileExecution,
    ProfileLogging, ProfileMetadata, ProfileMouseButton, ProfileSafety, ProfileSchedule,
    ProfileWorkflow, Rect, WindowInfo, WindowSelector, WinrError,
};

fn sample_profile() -> ProfileConfig {
    ProfileConfig {
        profile: ProfileMetadata {
            id: "demo".to_string(),
            name: "Demo".to_string(),
            description: "Demo profile".to_string(),
            version: "1".to_string(),
        },
        target: WindowSelector {
            title_contains: Some("Roblox".to_string()),
            exe: Some("RobloxPlayerBeta.exe".to_string()),
            ..WindowSelector::default()
        },
        action: ProfileAction::MouseClick {
            button: ProfileMouseButton::Left,
            input_mode: None,
            click_point: Some(ProfileClickPoint::Center),
            x: None,
            y: None,
        },
        detector: Some(ProfileDetector::ColorMatch {
            red: 179,
            green: 48,
            blue: 218,
            tolerance: 40,
            min_pixels: 200,
        }),
        schedule: ProfileSchedule {
            mode: "interval".to_string(),
            every_ms: 50,
            random_delta_ms: 20,
            run_until_stopped: true,
        },
        logging: ProfileLogging {
            level: "info".to_string(),
            mode: "single_line_counter".to_string(),
            update_every_trigger: true,
            template: "autoclicks fired: {count}".to_string(),
        },
        safety: ProfileSafety {
            require_visible_window: true,
            require_foreground_window: true,
            stop_on_focus_loss: true,
            pause_on_focus_loss: false,
        },
        execution: ProfileExecution {
            backend: AdvancedProfileBackend::Auto,
        },
        workflow: None,
    }
}

fn roblox_window(right: i32, bottom: i32) -> WindowInfo {
    WindowInfo {
        hwnd: "0x0000000000000001".to_string(),
        pid: 1,
        title: "Roblox".to_string(),
        class_name: "WINDOWSCLIENT".to_string(),
        exe: Some("RobloxPlayerBeta.exe".to_string()),
        visible: true,
        minimized: false,
        foreground: true,
        rect: Rect {
            left: 0,
            top: 0,
            right,
            bottom,
        },
    }
}

fn no_cursor() -> Result<(i32, i32), WinrError> {
    Err(WinrError::Unsupported {
        message: "GetCursorPos failed while resolving profile click point".to_string(),
    })
}

fn unsupported_message(result: Result<(), WinrError>) -> String {
    match result {
        Err(WinrError::Unsupported { message }) => message,
        other => panic!("expected an unsupported error, got {other:?}"),
    }
}

#[test]
fn random_delta_stays_within_bounds() {
    for _ in 0..32 {
        let delta = random_delta(20);
        assert!(delta <= 20);
    }
}

#[test]
fn resolve_click_point_requires_both_coordinates_when_configured() {
    let target = roblox_window(800, 600);

    let error = resolve_click_point(&target, None, Some(50), None, no_cursor()).unwrap_err();
    assert!(matches!(error, WinrError::Unsupported { .. }));
}

#[test]
fn resolve_click_point_rejects_mixed_named_and_explicit_coordinates() {
    let target = roblox_window(800, 600);

    let error = resolve_click_point(
        &target,
        Some(ProfileClickPoint::Center),
        Some(50),
        Some(60),
        no_cursor(),
    )
    .unwrap_err();
    assert!(matches!(error, WinrError::Unsupported { .. }));
}

#[test]
fn resolve_named_click_point_center_uses_window_center() {
    let target = roblox_window(800, 600);

    let point = resolve_named_click_point(&target, ProfileClickPoint::Center, no_cursor())
        .expect("center point should resolve");
    assert_eq!(point, (400, 300));
}

#[test]
fn resolve_click_point_explicit_coordinates_still_work() {
    let target = roblox_window(800, 600);

    let point = resolve_click_point(&target, None, Some(320), Some(320), no_cursor())
        .expect("point should work");
    assert_eq!(point, (320, 320));
}

#[test]
fn resolve_named_click_point_bottom_right_stays_in_bounds() {
    let target = roblox_window(5, 5);

    let point = resolve_named_click_point(&target, ProfileClickPoint::BottomRight, no_cursor())
        .expect("bottom-right point should resolve");
    assert_eq!(point, (3, 3));
}

#[test]
fn resolve_click_point_rejects_partial_explicit_coordinates() {
    let target = roblox_window(800, 600);

    let error = resolve_click_point(&target, None, Some(50), None, no_cursor()).unwrap_err();
    assert!(matches!(error, WinrError::Unsupported { .. }));
}

#[test]
fn profile_validation_requires_foreground_for_mouse_clicks() {
    let mut profile = sample_profile();
    profile.safety.require_foreground_window = false;
    let error = validate_profile(&profile).unwrap_err();
    assert!(matches!(error, WinrError::Unsupported { .. }));
}

#[test]
fn profile_validation_allows_background_message_mouse_clicks() {
    let mut profile = sample_profile();
    let ProfileAction::MouseClick { input_mode, .. } = &mut profile.action;
    *input_mode = Some(MouseInputMode::Message);
    profile.safety.require_foreground_window = false;
    validate_profile(&profile).expect("message-mode mouse click profile should validate");
}

#[test]
fn profile_validation_rejects_conflicting_focus_loss_modes() {
    let mut profile = sample_profile();
    profile.safety.pause_on_focus_loss = true;
    let error = validate_profile(&profile).unwrap_err();
    assert!(matches!(error, WinrError::Unsupported { .. }));
}

#[test]
fn profile_workflow_description_uses_shared_selection_surface() {
    let profile = sample_profile();
    let integration = describe_profile_workflow(&profile, AdvancedFrontend::Mcp);

    assert_eq!(integration.workflow_id, "demo");
    assert_eq!(integration.workflow_surface, "profile_v1");
    assert_eq!(integration.frontend, AdvancedFrontend::Mcp);
    assert_eq!(
        integration.backend_selection.frontend,
        AdvancedFrontend::Mcp
    );
    assert_eq!(
        integration.capability_selection.selected_backend,
        Some(AdvancedProfileBackend::Foreground)
    );
    assert!(!integration.available_backends.is_empty());
}

#[test]
fn validation_messages_name_the_broken_rule() {
    let mut profile = sample_profile();
    profile.schedule.mode = "cron".to_string();
    assert_eq!(
        unsupported_message(validate_profile(&profile)),
        "profile schedule mode 'cron' is unsupported; only 'interval' is implemented"
    );

    let mut profile = sample_profile();
    profile.target = WindowSelector::default();
    assert_eq!(
        unsupported_message(validate_profile(&profile)),
        "profile target must include at least one selector field"
    );

    let mut profile = sample_profile();
    profile.schedule.every_ms = 0;
    assert_eq!(
        unsupported_message(validate_profile(&profile)),
        "profile schedule every_ms must be greater than zero"
    );

    let mut profile = sample_profile();
    profile.detector = Some(ProfileDetector::ColorMatch {
        red: 1,
        green: 2,
        blue: 3,
        tolerance: 0,
        min_pixels: 5,
    });
    assert_eq!(
        unsupported_message(validate_profile(&profile)),
        "color detector tolerance must be greater than zero"
    );

    let mut profile = sample_profile();
    profile.detector = Some(ProfileDetector::TemplateMatch {
        image_path: "   ".to_string(),
        pixel_tolerance: 5,
        min_match_percent: 50,
        sample_stride: 1,
    });
    assert_eq!(
        unsupported_message(validate_profile(&profile)),
        "template detector image_path must not be empty"
    );

    let mut profile = sample_profile();
    profile.detector = Some(ProfileDetector::TemplateMatch {
        image_path: "rock.png".to_string(),
        pixel_tolerance: 5,
        min_match_percent: 101,
        sample_stride: 1,
    });
    assert_eq!(
        unsupported_message(validate_profile(&profile)),
        "template detector min_match_percent must be between 1 and 100"
    );

    let mut profile = sample_profile();
    profile.detector = Some(ProfileDetector::TemplateMatch {
        image_path: "rock.png".to_string(),
        pixel_tolerance: 5,
        min_match_percent: 80,
        sample_stride: 0,
    });
    assert_eq!(
        unsupported_message(validate_profile(&profile)),
        "template detector sample_stride must be greater than zero"
    );
}

#[test]
fn named_points_cover_every_edge() {
    let target = roblox_window(800, 600);
    let cases = [
        (ProfileClickPoint::TopLeft, (1, 1)),
        (ProfileClickPoint::TopCenter, (400, 1)),
        (ProfileClickPoint::TopRight, (798, 1)),
        (ProfileClickPoint::LeftCenter, (1, 300)),
        (ProfileClickPoint::RightCenter, (798, 300)),
        (ProfileClickPoint::BottomLeft, (1, 598)),
        (ProfileClickPoint::BottomCenter, (400, 598)),
        (ProfileClickPoint::BottomRight, (798, 598)),
    ];
    for (point, expected) in cases {
        assert_eq!(
            resolve_named_click_point(&target, point, no_cursor()).unwrap(),
            expected
        );
    }
    let tiny = roblox_window(0, 0);
    assert_eq!(
        resolve_named_click_point(&tiny, ProfileClickPoint::TopLeft, no_cursor()).unwrap(),
        (0, 0)
    );
}

#[test]
fn cursor_point_is_used_when_inside_and_center_otherwise() {
    let target = roblox_window(800, 600);
    assert_eq!(
        resolve_click_point(&target, None, None, None, Ok((10, 20))).unwrap(),
        (10, 20)
    );
    assert_eq!(
        resolve_click_point(&target, None, None, None, Ok((900, 20))).unwrap(),
        (400, 300)
    );
    assert_eq!(
        resolve_click_point(&target, None, None, None, no_cursor()).unwrap(),
        (400, 300)
    );
    match resolve_named_click_point(&target, ProfileClickPoint::CurrentCursor, Ok((-1, 5))) {
        Err(WinrError::Unsupported { message }) => {
            assert_eq!(message, "current cursor is not inside the target window")
        }
        other => panic!("expected an outside-cursor error, got {other:?}"),
    }
}

#[test]
fn jitter_follows_the_clock_reading() {
    assert_eq!(random_delta_from_nanos(20, 1_000_000_007), 1_000_000_007 % 21);
    assert_eq!(random_delta_from_nanos(0, 12345), 0);
    assert_eq!(random_delta(0), 0);
    assert_eq!(random_click_offset_from_nanos(40, 7), 10 + 7 % 20);
    assert_eq!(random_click_offset_from_nanos(2, 9), 1);
    for _ in 0..16 {
        let offset = random_click_offset(40);
        assert!((10..30).contains(&offset));
    }
}

#[test]
fn tolerance_and_neighbors_are_clamped() {
    assert!(color_within_tolerance(180, 50, 220, (179, 48, 218), 5));
    assert!(!color_within_tolerance(180, 50, 230, (179, 48, 218), 5));
    assert_eq!(neighbors(0, 0, 10, 10), [(0, 0), (1, 0), (0, 0), (0, 1)]);
    assert_eq!(neighbors(9, 9, 10, 10), [(8, 9), (9, 9), (9, 8), (9, 9)]);
}

#[test]
fn live_workflow_selection_and_tick_interval() {
    let mut profile = sample_profile();
    assert!(!should_run_live_roblox_workflow(&profile));
    assert_eq!(profile_workflow_tick_interval_ms(&profile), 50);
    profile.execution.backend = AdvancedProfileBackend::Inject;
    profile.workflow = Some(ProfileWorkflow {
        preset: "region-patrol".to_string(),
        tick_interval_ms: 0,
    });
    assert!(should_run_live_roblox_workflow(&profile));
    assert_eq!(profile_workflow_tick_interval_ms(&profile), 50);
    profile.workflow = Some(ProfileWorkflow {
        preset: "region-patrol".to_string(),
        tick_interval_ms: 125,
    });
    assert_eq!(profile_workflow_tick_interval_ms(&profile), 125);
}

#[test]
fn trigger_loop_stops_at_the_trigger_limit() {
    let profile = sample_profile();
    let options = ProfileRunOptions {
        max_triggers: Some(2),
        ..ProfileRunOptions::default()
    };
    let mut state = ProfileTriggerLoop::new(&profile, &options);
    assert!(state.trigger_decision(true));
    let (fired, stop) = state.triggered();
    assert_eq!(fired, ProfileRunEvent::TriggerFired { count: 1 });
    assert!(stop.is_none());
    // The same appearance does not trigger twice; a miss re-arms the detector.
    assert!(!state.trigger_decision(true));
    assert!(!state.trigger_decision(false));
    assert!(state.trigger_decision(true));
    let (_, stop) = state.triggered();
    assert_eq!(
        stop,
        Some(ProfileRunEvent::Stopped {
            count: 2,
            reason: "reached max_triggers".to_string()
        })
    );
    assert!(state.finished);
}

#[test]
fn trigger_loop_pauses_once_and_reports_restored_focus() {
    let mut profile = sample_profile();
    profile.safety.stop_on_focus_loss = false;
    profile.safety.pause_on_focus_loss = true;
    let mut state = ProfileTriggerLoop::new(&profile, &ProfileRunOptions::default());
    assert_eq!(state.focus_observed(false), FocusStep::Pause { announce: true });
    assert_eq!(state.focus_observed(false), FocusStep::Pause { announce: false });
    assert_eq!(state.focus_observed(true), FocusStep::Restored);
    assert_eq!(state.focus_observed(true), FocusStep::Proceed);

    let mut stopping = ProfileTriggerLoop::new(&sample_profile(), &ProfileRunOptions::default());
    assert_eq!(stopping.focus_observed(false), FocusStep::Stop);
    assert_eq!(
        stopping.focus_lost_event(),
        ProfileRunEvent::Stopped {
            count: 0,
            reason: "target lost foreground".to_string()
        }
    );
    let mut stopped = ProfileTriggerLoop::new(&sample_profile(), &ProfileRunOptions::default());
    assert_eq!(
        stopped.stop_requested(),
        ProfileRunEvent::Stopped {
            count: 0,
            reason: "received ctrl+c".to_string()
        }
    );
}

#[test]
fn target_wait_cancels_on_stop_and_times_out_after_the_limit() {
    match target_wait_cancelled(true) {
        Err(WinrError::Unsupported { message }) => {
            assert_eq!(message, "profile run cancelled before the target window appeared")
        }
        other => panic!("unexpected {other:?}"),
    }
    assert!(target_wait_cancelled(false).is_ok());
    assert_eq!(target_search_outcome(true, 5_000, Some(1_000)).unwrap(), TargetSearchOutcome::Acquired);
    assert_eq!(target_search_outcome(false, 999, Some(1_000)).unwrap(), TargetSearchOutcome::Retry);
    assert!(matches!(target_search_outcome(false, 1_000, Some(1_000)), Err(WinrError::WindowNotFound)));
    assert_eq!(target_search_outcome(false, u128::MAX, None).unwrap(), TargetSearchOutcome::Retry);
}

#[test]
fn default_run_options_poll_every_quarter_second() {
    let options = ProfileRunOptions::default();
    assert_eq!(options.poll_interval, std::time::Duration::from_millis(250));
    assert_eq!(options.arm_delay, std::time::Duration::ZERO);
    assert_eq!(options.wait_timeout, None);
}
