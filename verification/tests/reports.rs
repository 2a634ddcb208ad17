use winr::discovery::{build_attachable_target, WindowObservation};
use winr::human::{
    input_action_lines, profile_run_lines, screenshot_lines, uia_action_lines, uia_find_lines,
    uia_node_lines, uia_tree_lines, window_action_lines, window_info_lines, window_list_lines,
};
use winr::protocol::{
    AdvancedBackendLifecycleState, AdvancedIntegrityLevel, AdvancedProcessArchitecture,
    AdvancedProfileBackend,
};
use winr::types::{
    InputActionResult, InputMode, ProfileRunResult, Rect, ScreenshotBackend, ScreenshotResult,
    UiaActionResult, UiaElementInfo, UiaFindResponse, UiaTreeMode, UiaTreeResponse,
    WindowActionResult, WindowInfo,
};

fn notepad() -> WindowInfo {
    WindowInfo {
        hwnd: "0x0000000000001234".to_string(),
        pid: 42,
        title: "Say \"hi\" - Notepad".to_string(),
        class_name: "Notepad".to_string(),
        exe: Some("notepad.exe".to_string()),
        visible: true,
        minimized: false,
        foreground: true,
        rect: Rect { left: -8, top: 0, right: 800, bottom: 600 },
    }
}

#[test]
fn window_report_lists_every_field() {
    assert_eq!(
        window_info_lines(&notepad()),
        vec![
            "hwnd: 0x0000000000001234",
            "pid: 42",
            "title: Say \"hi\" - Notepad",
            "class: Notepad",
            "exe: notepad.exe",
            "visible: true",
            "minimized: false",
            "foreground: true",
            "rect: left=-8 top=0 right=800 bottom=600",
        ]
    );
    let mut unknown = notepad();
    unknown.exe = None;
    assert_eq!(window_info_lines(&unknown)[4], "exe: <unknown>");
}

#[test]
fn window_list_quotes_fields_and_softens_title_quotes() {
    let mut other = notepad();
    other.exe = None;
    other.visible = false;
    assert_eq!(
        window_list_lines(&vec![notepad(), other]),
        vec![
            "0x0000000000001234 pid=42 visible=true minimized=false foreground=true class=\"Notepad\" exe=\"notepad.exe\" title=\"Say 'hi' - Notepad\"",
            "0x0000000000001234 pid=42 visible=false minimized=false foreground=true class=\"Notepad\" exe=\"<unknown>\" title=\"Say 'hi' - Notepad\"",
        ]
    );
    assert!(window_list_lines(&Vec::new()).is_empty());
}

#[test]
fn action_reports_lead_with_the_action() {
    let lines = window_action_lines(&WindowActionResult { action: "focus".to_string(), window: notepad() });
    assert_eq!(lines.len(), 10);
    assert_eq!(lines[0], "action: focus");
    assert_eq!(lines[1], "hwnd: 0x0000000000001234");

    let shot = screenshot_lines(&ScreenshotResult {
        path: "C:\\shots\\a.png".to_string(),
        width: 800,
        height: 600,
        backend: ScreenshotBackend::PrintWindow,
    });
    assert_eq!(shot, vec!["path: C:\\shots\\a.png", "width: 800", "height: 600", "backend: print_window"]);

    let input = input_action_lines(&InputActionResult {
        action: "keys".to_string(),
        mode: InputMode::Foreground,
        details: "sent ctrl+s".to_string(),
        window: None,
    });
    assert_eq!(input, vec!["action: keys", "mode: foreground", "details: sent ctrl+s"]);
    let with_window = input_action_lines(&InputActionResult {
        action: "click".to_string(),
        mode: InputMode::Message,
        details: "left".to_string(),
        window: Some(notepad()),
    });
    assert_eq!(with_window.len(), 12);
    assert_eq!(with_window[1], "mode: message");

    let run = profile_run_lines(&ProfileRunResult {
        profile_id: "clicker".to_string(),
        profile_name: "Clicker".to_string(),
        clicks_fired: 3,
        backend_used: AdvancedProfileBackend::Foreground,
        target_window: notepad(),
    });
    assert_eq!(&run[..3], &["profile_id: clicker", "profile_name: Clicker", "clicks_fired: 3"]);
    assert_eq!(run.len(), 12);
}

fn element(name: Option<&str>, children: Vec<UiaElementInfo>) -> UiaElementInfo {
    UiaElementInfo {
        hwnd: None,
        automation_id: Some("id".to_string()),
        name: name.map(str::to_string),
        class_name: None,
        localized_control_type: Some("button".to_string()),
        control_type: Some(50000),
        enabled: None,
        rect: None,
        children,
    }
}

#[test]
fn element_trees_indent_children() {
    let mut leaf = element(Some("OK"), Vec::new());
    leaf.rect = Some(Rect { left: 1, top: 2, right: 3, bottom: 4 });
    leaf.enabled = Some(true);
    let root = element(None, vec![element(Some("Cancel"), vec![leaf])]);
    let lines = uia_node_lines(&root, 0);
    assert_eq!(
        lines,
        vec![
            "- name=\"\" automation_id=\"id\" class=\"\" kind=\"button\" control_type=50000 enabled=<unknown> hwnd=",
            "  - name=\"Cancel\" automation_id=\"id\" class=\"\" kind=\"button\" control_type=50000 enabled=<unknown> hwnd=",
            "    - name=\"OK\" automation_id=\"id\" class=\"\" kind=\"button\" control_type=50000 enabled=true hwnd= rect=(1, 2, 3, 4)",
        ]
    );

    let tree = uia_tree_lines(&UiaTreeResponse { window: notepad(), mode: UiaTreeMode::Raw, root });
    assert_eq!(tree[0], "window: 0x0000000000001234");
    assert_eq!(tree[1], "mode: raw");
    assert_eq!(tree.len(), 5);

    let found = uia_find_lines(&UiaFindResponse {
        window: notepad(),
        matches: vec![element(Some("A"), Vec::new()), element(Some("B"), Vec::new())],
    });
    assert_eq!(found.len(), 3);
    assert!(found[2].starts_with("- name=\"B\""));

    let action = uia_action_lines(&UiaActionResult {
        action: "invoke".to_string(),
        window: notepad(),
        element: element(Some("OK"), Vec::new()),
        details: Some("invoked".to_string()),
    });
    assert_eq!(&action[..3], &["action: invoke", "window: 0x0000000000001234", "details: invoked"]);
    assert_eq!(action.len(), 4);
}

fn observed(minimized: bool, visible: bool, rect: Option<Rect>) -> WindowObservation {
    WindowObservation {
        hwnd: 0x1234,
        pid: 42,
        title: "Game".to_string(),
        class_name: "GameWindow".to_string(),
        visible,
        minimized,
        foreground: false,
        executable_path: Some("C:\\Games\\game.exe".to_string()),
        exe: Some("game.exe".to_string()),
        rect,
    }
}

#[test]
fn attachable_targets_explain_their_lifecycle_state() {
    let good = Some(Rect { left: 0, top: 0, right: 10, bottom: 10 });
    let target = build_attachable_target(
        observed(false, true, good),
        AdvancedProcessArchitecture::X64,
        AdvancedIntegrityLevel::Medium,
        vec!["d3d11.dll".to_string()],
    );
    assert_eq!(target.lifecycle_state, AdvancedBackendLifecycleState::Attachable);
    assert!(target.notes.is_empty());
    assert_eq!(target.target.hwnd.as_deref(), Some("0x0000000000001234"));
    assert_eq!(target.target.pid, Some(42));
    assert_eq!(target.target.title_hint.as_deref(), Some("Game"));
    assert_eq!(target.process.likely_rendering_window.as_deref(), Some("0x0000000000001234"));
    assert_eq!(target.process.executable_path.as_deref(), Some("C:\\Games\\game.exe"));
    assert_eq!(target.process.loaded_modules, vec!["d3d11.dll".to_string()]);

    let minimized = build_attachable_target(
        observed(true, true, Some(Rect { left: 0, top: 0, right: 0, bottom: 10 })),
        AdvancedProcessArchitecture::X64,
        AdvancedIntegrityLevel::Medium,
        Vec::new(),
    );
    assert_eq!(minimized.lifecycle_state, AdvancedBackendLifecycleState::Discovered);
    assert_eq!(minimized.notes, vec!["window is minimized".to_string(), "window bounds are empty".to_string()]);

    let hidden = build_attachable_target(
        observed(false, false, None),
        AdvancedProcessArchitecture::Unknown,
        AdvancedIntegrityLevel::Unknown,
        Vec::new(),
    );
    assert_eq!(hidden.lifecycle_state, AdvancedBackendLifecycleState::Discovered);
    assert_eq!(hidden.notes, vec!["window is not currently visible".to_string()]);
}
