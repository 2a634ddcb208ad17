use winr::config::{
    enforce_target_policy, validate_window_ready_for_input, validate_window_ready_for_mouse,
    DenyList, ProcessList, WinrConfig,
};
use winr::types::{
    format_hwnd, parse_hwnd, Rect, UiaElementInfo, UiaSelector, WindowInfo, WindowSelector,
    WinrError,
};

fn sample_window(title: &str, exe: &str) -> WindowInfo {
    WindowInfo {
        hwnd: "0x0000000000000010".to_string(),
        pid: 10,
        title: title.to_string(),
        class_name: "Demo".to_string(),
        exe: Some(exe.to_string()),
        visible: true,
        minimized: false,
        foreground: true,
        rect: Rect {
            left: 0,
            top: 0,
            right: 100,
            bottom: 100,
        },
    }
}

fn notepad_window() -> WindowInfo {
    WindowInfo {
        hwnd: "0x0000000000001234".to_string(),
        pid: 4242,
        title: "Untitled - Notepad".to_string(),
        class_name: "Notepad".to_string(),
        exe: Some("notepad.exe".to_string()),
        visible: true,
        minimized: false,
        foreground: true,
        rect: Rect {
            left: 10,
            top: 20,
            right: 400,
            bottom: 500,
        },
    }
}

#[test]
fn denylist_blocks_target() {
    let config = WinrConfig {
        denylist: DenyList {
            processes: vec!["keepassxc.exe".to_string()],
            titles: vec!["bank".to_string()],
        },
        ..WinrConfig::default()
    };

    let process_error =
        enforce_target_policy(&config, &sample_window("Safe", "KeePassXC.exe"), "input")
            .unwrap_err();
    assert!(matches!(process_error, WinrError::PermissionDenied { .. }));

    let title_error = enforce_target_policy(
        &config,
        &sample_window("Bank Login", "notepad.exe"),
        "input",
    )
    .unwrap_err();
    assert!(matches!(title_error, WinrError::PermissionDenied { .. }));
}

#[test]
fn allowlist_requires_match() {
    let config = WinrConfig {
        allowlist: ProcessList {
            processes: vec!["notepad.exe".to_string()],
        },
        ..WinrConfig::default()
    };

    let error = enforce_target_policy(&config, &sample_window("Untitled", "calc.exe"), "input")
        .unwrap_err();
    assert!(matches!(error, WinrError::PermissionDenied { .. }));
}

#[test]
fn input_validation_rejects_background_target_without_focus() {
    let mut window = sample_window("Untitled", "notepad.exe");
    window.foreground = false;

    let error = validate_window_ready_for_input(&window, false, "input_text").unwrap_err();
    assert!(matches!(error, WinrError::Unsupported { .. }));
}

#[test]
fn mouse_validation_rejects_minimized_target() {
    let mut window = sample_window("Untitled", "notepad.exe");
    window.minimized = true;

    let error = validate_window_ready_for_mouse(&window, "mouse_click_window").unwrap_err();
    assert!(matches!(
        error,
        WinrError::UnsupportedForMinimizedWindow { .. }
    ));
}

#[test]
fn formats_and_parses_hwnd() {
    let formatted = format_hwnd(0x1234);
    assert_eq!(formatted, "0x0000000000001234");
    assert_eq!(parse_hwnd(&formatted).unwrap(), 0x1234);
    assert_eq!(parse_hwnd("1234").unwrap(), 0x1234);
}

#[test]
fn selector_matches_case_insensitively() {
    let window = notepad_window();
    let selector = WindowSelector {
        hwnd: Some("0x0000000000001234".to_string()),
        pid: Some(4242),
        title_contains: Some("notepad".to_string()),
        class_name: Some("notepad".to_string()),
        exe: Some("NOTEPAD.EXE".to_string()),
    };

    assert!(selector.matches(&window));
}

#[test]
fn selector_detects_missing_criteria() {
    assert!(!WindowSelector::default().has_criteria());
    assert!(WindowSelector {
        pid: Some(1),
        ..WindowSelector::default()
    }
    .has_criteria());
}

#[test]
fn selector_matches_uia_nodes() {
    let selector = UiaSelector {
        name: Some("username".to_string()),
        class_name: Some("edit".to_string()),
        enabled: Some(true),
        ..UiaSelector::default()
    };
    let node = UiaElementInfo {
        hwnd: None,
        automation_id: Some("user".to_string()),
        name: Some("Username".to_string()),
        class_name: Some("Edit".to_string()),
        localized_control_type: Some("edit".to_string()),
        control_type: Some(50004),
        enabled: Some(true),
        rect: None,
        children: Vec::new(),
    };

    assert!(selector.matches(&node));
}

#[test]
fn policy_allows_listed_process_and_reports_denied_title() {
    let config = WinrConfig {
        allowlist: ProcessList {
            processes: vec!["notepad.exe".to_string()],
        },
        denylist: DenyList {
            processes: Vec::new(),
            titles: vec!["secret".to_string()],
        },
        ..WinrConfig::default()
    };
    assert!(enforce_target_policy(&config, &sample_window("Notes", "NOTEPAD.EXE"), "input").is_ok());
    match enforce_target_policy(&config, &sample_window("My Secret Notes", "notepad.exe"), "input") {
        Err(WinrError::PermissionDenied { reason }) => {
            assert_eq!(reason, "input denied for title 'My Secret Notes'")
        }
        other => panic!("expected a denied title, got {other:?}"),
    }
}

#[test]
fn parse_hwnd_rejects_garbage_and_overflow() {
    assert!(parse_hwnd("0xZZ").is_err());
    assert!(parse_hwnd("").is_err());
    assert!(parse_hwnd("0x1FFFFFFFFFFFFFFFF").is_err());
    assert_eq!(parse_hwnd("  0XFF  ").unwrap(), 0xff);
    assert_eq!(format_hwnd(-1), "0xFFFFFFFFFFFFFFFF");
}

#[test]
fn error_messages_and_codes_follow_the_variant() {
    let error = WinrError::Unsupported {
        message: "nope".to_string(),
    };
    assert_eq!(error.code(), "Unsupported");
    assert_eq!(error.message(), "unsupported operation: nope");
    let response = WinrError::AmbiguousWindow {
        count: 2,
        matches: vec![notepad_window(), notepad_window()],
    }
    .to_error_response();
    assert!(!response.ok);
    assert_eq!(response.error, "AmbiguousWindow");
    assert_eq!(response.message, "2 windows matched the provided selector");
    assert_eq!(response.matches.len(), 2);
}

#[test]
fn hwnd_text_reads_back_with_any_prefix() {
    for hwnd in [0isize, 1, -1, isize::MIN, isize::MAX, 0x1234] {
        assert_eq!(parse_hwnd(&format_hwnd(hwnd)).unwrap(), hwnd);
    }
    assert_eq!(parse_hwnd("0X00ff").unwrap(), 0xff);
    assert_eq!(parse_hwnd("0xffffffffffffffff").unwrap(), -1);
}
