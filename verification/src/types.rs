//! Shared data model: window and UI Automation selectors, action results, profiles and errors.
use vstd::prelude::*;
use vstd::arithmetic::power::pow;

use crate::protocol::{AdvancedProfileBackend, MouseInputMode};
use crate::text::{
    all_digits, digit_value, digits_value, hex_digit_value, hex_upper_char, is_unicode_whitespace,
    trim_end_index, trim_start_index, chars_of, chars_trim, contains_case_insensitive, contains_case_insensitive_spec,
    decimal_digits, eq_ignore_ascii_case, eq_ignore_ascii_case_spec, has_prefix, hex_upper_fixed,
    parse_unsigned, parse_unsigned_spec, push_all, push_str, string_from_chars, string_of,
    trim_spec, u64_to_decimal, u64_to_hex_upper_fixed,
};

verus! {

/// Result type of the toolkit's operations.
pub type WinrResult<T> = Result<T, WinrError>;

/// Screen rectangle of a window, in pixels.
#[derive(Debug, Clone, Copy, PartialEq, Eq, Structural)]
pub struct Rect {
    pub left: i32,
    pub top: i32,
    pub right: i32,
    pub bottom: i32,
}

/// Criteria that select top-level windows; absent fields match everything.
#[derive(Debug, PartialEq, Eq, Default)]
pub struct WindowSelector {
    pub hwnd: Option<String>,
    pub pid: Option<u32>,
    pub title_contains: Option<String>,
    pub class_name: Option<String>,
    pub exe: Option<String>,
}

/// Metadata of one top-level window.
#[derive(Debug, PartialEq, Eq)]
pub struct WindowInfo {
    pub hwnd: String,
    pub pid: u32,
    pub title: String,
    pub class_name: String,
    pub exe: Option<String>,
    pub visible: bool,
    pub minimized: bool,
    pub foreground: bool,
    pub rect: Rect,
}

/// Outcome of a window action such as restore or move.
#[derive(Debug, PartialEq, Eq)]
pub struct WindowActionResult {
    pub action: String,
    pub window: WindowInfo,
}

/// Capture backend used for screenshots.
#[derive(Debug, Clone, Copy, PartialEq, Eq, Structural)]
pub enum ScreenshotBackend {
    Auto,
    Gdi,
    PrintWindow,
}

/// Outcome of a screenshot.
#[derive(Debug, PartialEq, Eq)]
pub struct ScreenshotResult {
    pub path: String,
    pub width: u32,
    pub height: u32,
    pub backend: ScreenshotBackend,
}

/// Outcome of a keyboard or mouse action.
#[derive(Debug, PartialEq, Eq)]
pub struct InputActionResult {
    pub action: String,
    pub mode: InputMode,
    pub details: String,
    pub window: Option<WindowInfo>,
}

/// Delivery channel of synthesized input.
#[derive(Debug, Clone, Copy, PartialEq, Eq, Structural)]
pub enum InputMode {
    Foreground,
    Uia,
    Message,
}

/// Declarative automation profile.
#[derive(Debug, PartialEq, Eq)]
pub struct ProfileConfig {
    pub profile: ProfileMetadata,
    pub target: WindowSelector,
    pub action: ProfileAction,
    pub detector: Option<ProfileDetector>,
    pub schedule: ProfileSchedule,
    pub logging: ProfileLogging,
    pub safety: ProfileSafety,
    pub execution: ProfileExecution,
    pub workflow: Option<ProfileWorkflow>,
}

/// Identity of a profile.
#[derive(Debug, PartialEq, Eq)]
pub struct ProfileMetadata {
    pub id: String,
    pub name: String,
    pub description: String,
    pub version: String,
}

/// Which backend executes a profile (`auto` by default).
#[derive(Debug, PartialEq, Eq)]
pub struct ProfileExecution {
    pub backend: AdvancedProfileBackend,
}

/// Workflow-driven execution of a profile by an advanced backend.
#[derive(Debug, PartialEq, Eq)]
pub struct ProfileWorkflow {
    pub preset: String,
    pub tick_interval_ms: u64,
}

/// What a profile does on each trigger.
#[derive(Debug, PartialEq, Eq)]
pub enum ProfileAction {
    MouseClick {
        button: ProfileMouseButton,
        input_mode: Option<MouseInputMode>,
        click_point: Option<ProfileClickPoint>,
        x: Option<i32>,
        y: Option<i32>,
    },
}

/// Named click positions inside the target window's client area.
#[derive(Debug, Clone, Copy, PartialEq, Eq, Structural)]
pub enum ProfileClickPoint {
    Center,
    TopLeft,
    TopCenter,
    TopRight,
    LeftCenter,
    RightCenter,
    BottomLeft,
    BottomCenter,
    BottomRight,
    CurrentCursor,
}

/// Optional visual trigger of a profile.
#[derive(Debug, PartialEq, Eq)]
pub enum ProfileDetector {
    ColorMatch { red: u8, green: u8, blue: u8, tolerance: u8, min_pixels: u32 },
    TemplateMatch {
        image_path: String,
        pixel_tolerance: u8,
        min_match_percent: u8,
        sample_stride: u32,
    },
}

/// Mouse button of a profile action.
#[derive(Debug, Clone, Copy, PartialEq, Eq, Structural)]
pub enum ProfileMouseButton {
    Left,
    Right,
    Middle,
}

/// Trigger schedule of a profile.
#[derive(Debug, PartialEq, Eq)]
pub struct ProfileSchedule {
    pub mode: String,
    pub every_ms: u64,
    pub random_delta_ms: u64,
    pub run_until_stopped: bool,
}

/// Console reporting settings of a profile.
#[derive(Debug, PartialEq, Eq)]
pub struct ProfileLogging {
    pub level: String,
    pub mode: String,
    pub update_every_trigger: bool,
    pub template: String,
}

/// Safety settings of a profile.
#[derive(Debug, PartialEq, Eq)]
pub struct ProfileSafety {
    pub require_visible_window: bool,
    pub require_foreground_window: bool,
    pub stop_on_focus_loss: bool,
    pub pause_on_focus_loss: bool,
}

/// Outcome of a profile run.
#[derive(Debug, PartialEq, Eq)]
pub struct ProfileRunResult {
    pub profile_id: String,
    pub profile_name: String,
    pub clicks_fired: u64,
    pub backend_used: AdvancedProfileBackend,
    pub target_window: WindowInfo,
}

/// Successful JSON envelope.
#[derive(Debug, PartialEq, Eq)]
pub struct SuccessResponse<T> {
    pub ok: bool,
    pub data: T,
}

/// Failed JSON envelope.
#[derive(Debug, PartialEq, Eq)]
pub struct ErrorResponse {
    pub ok: bool,
    pub error: String,
    pub message: String,
    pub matches: Vec<WindowInfo>,
    pub uia_matches: Vec<UiaElementInfo>,
}

/// UI Automation tree view.
#[derive(Debug, Clone, Copy, PartialEq, Eq, Structural)]
pub enum UiaTreeMode {
    Control,
    Raw,
}

/// Criteria that select UI Automation elements; absent fields match everything.
#[derive(Debug, PartialEq, Eq, Default)]
pub struct UiaSelector {
    pub automation_id: Option<String>,
    pub name: Option<String>,
    pub class_name: Option<String>,
    pub localized_control_type: Option<String>,
    pub control_type: Option<i32>,
    pub enabled: Option<bool>,
}

/// Description of one UI Automation element and its subtree.
#[derive(Debug, PartialEq, Eq)]
pub struct UiaElementInfo {
    pub hwnd: Option<String>,
    pub automation_id: Option<String>,
    pub name: Option<String>,
    pub class_name: Option<String>,
    pub localized_control_type: Option<String>,
    pub control_type: Option<i32>,
    pub enabled: Option<bool>,
    pub rect: Option<Rect>,
    pub children: Vec<UiaElementInfo>,
}

/// Request for a UI Automation tree.
#[derive(Debug, PartialEq, Eq)]
pub struct UiaTreeRequest {
    pub window: WindowSelector,
    pub mode: Option<UiaTreeMode>,
    pub max_depth: Option<u32>,
}

/// A UI Automation tree.
#[derive(Debug, PartialEq, Eq)]
pub struct UiaTreeResponse {
    pub window: WindowInfo,
    pub mode: UiaTreeMode,
    pub root: UiaElementInfo,
}

/// Request to find UI Automation elements.
#[derive(Debug, PartialEq, Eq)]
pub struct UiaFindRequest {
    pub window: WindowSelector,
    pub element: UiaSelector,
    pub mode: Option<UiaTreeMode>,
}

/// Elements that matched a find request.
#[derive(Debug, PartialEq, Eq)]
pub struct UiaFindResponse {
    pub window: WindowInfo,
    pub matches: Vec<UiaElementInfo>,
}

/// Request to invoke a UI Automation element.
#[derive(Debug, PartialEq, Eq)]
pub struct UiaActionRequest {
    pub window: WindowSelector,
    pub element: UiaSelector,
}

/// Request to set the text of a UI Automation element.
#[derive(Debug, PartialEq, Eq)]
pub struct UiaSetTextRequest {
    pub window: WindowSelector,
    pub element: UiaSelector,
    pub text: String,
}

/// Outcome of a UI Automation action.
#[derive(Debug, PartialEq, Eq)]
pub struct UiaActionResult {
    pub action: String,
    pub window: WindowInfo,
    pub element: UiaElementInfo,
    pub details: Option<String>,
}

/// Errors of the toolkit.
#[derive(Debug, PartialEq, Eq)]
#[allow(inconsistent_fields)]
pub enum WinrError {
    WindowNotFound,
    AmbiguousWindow { count: usize, matches: Vec<WindowInfo> },
    ForegroundDenied,
    IntegrityLevelDenied,
    PermissionDenied { reason: String },
    CaptureFailed { backend: String, message: String },
    UnsupportedForMinimizedWindow { action: String },
    UiaElementNotFound,
    AmbiguousUiaElement { count: usize, matches: Vec<UiaElementInfo> },
    Unsupported { message: String },
}

// ----------------------------------------------------------------------------------------------
// Cloning with known results.
/// Copies an optional string.
pub fn clone_opt_string(value: &Option<String>) -> (r: Option<String>)
    ensures
        r == *value,
{
    match value {
        Some(s) => Some(s.clone()),
        None => None,
    }
}

impl Clone for WindowSelector {
    fn clone(&self) -> (r: Self)
        ensures
            r == *self,
    {
        WindowSelector {
            hwnd: clone_opt_string(&self.hwnd),
            pid: self.pid,
            title_contains: clone_opt_string(&self.title_contains),
            class_name: clone_opt_string(&self.class_name),
            exe: clone_opt_string(&self.exe),
        }
    }
}

impl Clone for WindowInfo {
    fn clone(&self) -> (r: Self)
        ensures
            r == *self,
    {
        WindowInfo {
            hwnd: self.hwnd.clone(),
            pid: self.pid,
            title: self.title.clone(),
            class_name: self.class_name.clone(),
            exe: clone_opt_string(&self.exe),
            visible: self.visible,
            minimized: self.minimized,
            foreground: self.foreground,
            rect: self.rect,
        }
    }
}

impl Clone for ProfileConfig {
    fn clone(&self) -> (r: Self)
        ensures
            r == *self,
    {
        ProfileConfig {
            profile: ProfileMetadata {
                id: self.profile.id.clone(),
                name: self.profile.name.clone(),
                description: self.profile.description.clone(),
                version: self.profile.version.clone(),
            },
            target: self.target.clone(),
            action: match &self.action {
                ProfileAction::MouseClick { button, input_mode, click_point, x, y } =>
                    ProfileAction::MouseClick {
                    button: *button,
                    input_mode: *input_mode,
                    click_point: *click_point,
                    x: *x,
                    y: *y,
                },
            },
            detector: match &self.detector {
                Some(ProfileDetector::ColorMatch { red, green, blue, tolerance, min_pixels }) => Some(
                    ProfileDetector::ColorMatch {
                        red: *red,
                        green: *green,
                        blue: *blue,
                        tolerance: *tolerance,
                        min_pixels: *min_pixels,
                    },
                ),
                Some(
                    ProfileDetector::TemplateMatch {
                        image_path,
                        pixel_tolerance,
                        min_match_percent,
                        sample_stride,
                    },
                ) => Some(
                    ProfileDetector::TemplateMatch {
                        image_path: image_path.clone(),
                        pixel_tolerance: *pixel_tolerance,
                        min_match_percent: *min_match_percent,
                        sample_stride: *sample_stride,
                    },
                ),
                None => None,
            },
            schedule: ProfileSchedule {
                mode: self.schedule.mode.clone(),
                every_ms: self.schedule.every_ms,
                random_delta_ms: self.schedule.random_delta_ms,
                run_until_stopped: self.schedule.run_until_stopped,
            },
            logging: ProfileLogging {
                level: self.logging.level.clone(),
                mode: self.logging.mode.clone(),
                update_every_trigger: self.logging.update_every_trigger,
                template: self.logging.template.clone(),
            },
            safety: ProfileSafety {
                require_visible_window: self.safety.require_visible_window,
                require_foreground_window: self.safety.require_foreground_window,
                stop_on_focus_loss: self.safety.stop_on_focus_loss,
                pause_on_focus_loss: self.safety.pause_on_focus_loss,
            },
            execution: ProfileExecution { backend: self.execution.backend },
            workflow: match &self.workflow {
                Some(w) => Some(
                    ProfileWorkflow { preset: w.preset.clone(), tick_interval_ms: w.tick_interval_ms },
                ),
                None => None,
            },
        }
    }
}

impl Clone for UiaSelector {
    fn clone(&self) -> (r: Self)
        ensures
            r == *self,
    {
        UiaSelector {
            automation_id: clone_opt_string(&self.automation_id),
            name: clone_opt_string(&self.name),
            class_name: clone_opt_string(&self.class_name),
            localized_control_type: clone_opt_string(&self.localized_control_type),
            control_type: self.control_type,
            enabled: self.enabled,
        }
    }
}

/// Two element descriptions are the same: the same fields, and as many children, each the
/// same as the other's child at its position (the whole subtree).
pub open spec fn uia_same(a: UiaElementInfo, b: UiaElementInfo) -> bool
    decreases a, a.children@.len() + 1,
{
    &&& a.hwnd == b.hwnd
    &&& a.automation_id == b.automation_id
    &&& a.name == b.name
    &&& a.class_name == b.class_name
    &&& a.localized_control_type == b.localized_control_type
    &&& a.control_type == b.control_type
    &&& a.enabled == b.enabled
    &&& a.rect == b.rect
    &&& a.children@.len() == b.children@.len()
    &&& children_same(a, b, a.children@.len())
}

/// The first `k` children of two elements are pairwise the same.
pub open spec fn children_same(a: UiaElementInfo, b: UiaElementInfo, k: nat) -> bool
    decreases a, k,
{
    if k == 0 || k > a.children@.len() {
        true
    } else {
        children_same(a, b, (k - 1) as nat) && uia_same(a.children@[k - 1], b.children@[k - 1])
    }
}

/// Children that are pairwise the same up to `k` make `children_same`.
proof fn lemma_children_same(a: UiaElementInfo, b: UiaElementInfo, k: nat)
    requires
        k <= a.children@.len(),
        forall|j: int| 0 <= j < k ==> #[trigger] uia_same(a.children@[j], b.children@[j]),
    ensures
        children_same(a, b, k),
    decreases k,
{
    if k > 0 {
        lemma_children_same(a, b, (k - 1) as nat);
        assert(uia_same(a.children@[k - 1], b.children@[k - 1]));
    }
}

/// The elements at position `i` of two lists are the same.
pub open spec fn uia_same_at(a: Seq<UiaElementInfo>, b: Seq<UiaElementInfo>, i: int) -> bool {
    uia_same(a[i], b[i])
}

impl Clone for UiaElementInfo {
    fn clone(&self) -> (r: Self)
        ensures
            uia_same(r, *self),
        decreases self,
    {
        let mut children: Vec<UiaElementInfo> = Vec::new();
        let mut i: usize = 0;
        while i < self.children.len()
            invariant
                i <= self.children.len(),
                children@.len() == i,
                forall|k: int| 0 <= k < i ==> #[trigger] uia_same(children@[k], self.children@[k]),
            decreases self.children.len() - i,
        {
            proof {
                assert(decreases_to!(self => self.children));
                assert(decreases_to!(self.children => self.children@[i as int]));
            }
            let child = self.children[i].clone();
            children.push(child);
            i = i + 1;
        }
        let r = UiaElementInfo {
            hwnd: clone_opt_string(&self.hwnd),
            automation_id: clone_opt_string(&self.automation_id),
            name: clone_opt_string(&self.name),
            class_name: clone_opt_string(&self.class_name),
            localized_control_type: clone_opt_string(&self.localized_control_type),
            control_type: self.control_type,
            enabled: self.enabled,
            rect: self.rect,
            children,
        };
        proof {
            assert forall|k: int| 0 <= k < r.children@.len() implies #[trigger] uia_same(
                r.children@[k],
                self.children@[k],
            ) by {
                assert(r.children@[k] == children@[k]);
            }
            lemma_children_same(r, *self, r.children@.len());
        }
        r
    }
}

/// Copies a list of windows.
pub fn clone_windows(v: &Vec<WindowInfo>) -> (r: Vec<WindowInfo>)
    ensures
        r@ == v@,
{
    let mut out: Vec<WindowInfo> = Vec::new();
    let mut i: usize = 0;
    while i < v.len()
        invariant
            i <= v.len(),
            out@ == v@.subrange(0, i as int),
        decreases v.len() - i,
    {
        out.push(v[i].clone());
        proof {
            assert(out@ =~= v@.subrange(0, i + 1));
        }
        i = i + 1;
    }
    proof {
        assert(out@ =~= v@);
    }
    out
}

/// Copies a list of UI Automation elements.
pub fn clone_elements(v: &Vec<UiaElementInfo>) -> (r: Vec<UiaElementInfo>)
    ensures
        r@.len() == v@.len(),
        forall|i: int| 0 <= i < v@.len() ==> #[trigger] uia_same_at(r@, v@, i),
{
    let mut out: Vec<UiaElementInfo> = Vec::new();
    let mut i: usize = 0;
    while i < v.len()
        invariant
            i <= v.len(),
            out@.len() == i,
            forall|j: int| 0 <= j < i ==> #[trigger] uia_same_at(out@, v@, j),
        decreases v.len() - i,
    {
        let ghost before = out@;
        let item = v[i].clone();
        out.push(item);
        proof {
            assert forall|j: int| 0 <= j < i + 1 implies #[trigger] uia_same_at(out@, v@, j) by {
                if j < i {
                    assert(uia_same_at(before, v@, j));
                    assert(out@[j] == before[j]);
                } else {
                    assert(out@[j] == item);
                }
            }
        }
        i = i + 1;
    }
    out
}

/// Two errors carry the same variant and data.
pub open spec fn error_same(a: WinrError, b: WinrError) -> bool {
    match (a, b) {
        (WinrError::AmbiguousWindow { count: c1, matches: m1 }, WinrError::AmbiguousWindow {
            count: c2,
            matches: m2,
        }) => c1 == c2 && m1@ == m2@,
        (
            WinrError::AmbiguousUiaElement { count: c1, matches: m1 },
            WinrError::AmbiguousUiaElement { count: c2, matches: m2 },
        ) => c1 == c2 && m1@.len() == m2@.len() && forall|i: int|
            0 <= i < m1@.len() ==> #[trigger] uia_same_at(m1@, m2@, i),
        (WinrError::AmbiguousWindow { .. }, _) => false,
        (WinrError::AmbiguousUiaElement { .. }, _) => false,
        _ => a == b,
    }
}

impl Clone for WinrError {
    fn clone(&self) -> (r: Self)
        ensures
            error_same(r, *self),
    {
        match self {
            WinrError::WindowNotFound => WinrError::WindowNotFound,
            WinrError::AmbiguousWindow { count, matches } => WinrError::AmbiguousWindow {
                count: *count,
                matches: clone_windows(matches),
            },
            WinrError::ForegroundDenied => WinrError::ForegroundDenied,
            WinrError::IntegrityLevelDenied => WinrError::IntegrityLevelDenied,
            WinrError::PermissionDenied { reason } => WinrError::PermissionDenied {
                reason: reason.clone(),
            },
            WinrError::CaptureFailed { backend, message } => WinrError::CaptureFailed {
                backend: backend.clone(),
                message: message.clone(),
            },
            WinrError::UnsupportedForMinimizedWindow { action } =>
                WinrError::UnsupportedForMinimizedWindow { action: action.clone() },
            WinrError::UiaElementNotFound => WinrError::UiaElementNotFound,
            WinrError::AmbiguousUiaElement { count, matches } => WinrError::AmbiguousUiaElement {
                count: *count,
                matches: clone_elements(matches),
            },
            WinrError::Unsupported { message } => WinrError::Unsupported {
                message: message.clone(),
            },
        }
    }
}

// ----------------------------------------------------------------------------------------------
// Selectors.
/// An optional text criterion holds when it is absent or equal to `value` ignoring ASCII case.
pub open spec fn opt_eq_ignore_case(criterion: Option<String>, value: Seq<char>) -> bool {
    match criterion {
        Some(c) => eq_ignore_ascii_case_spec(value, c@),
        None => true,
    }
}

/// An optional text criterion on an optional value: absent, or the value is present and equal
/// ignoring ASCII case.
pub open spec fn opt_eq_ignore_case_opt(criterion: Option<String>, value: Option<String>) -> bool {
    match criterion {
        Some(c) => match value {
            Some(v) => eq_ignore_ascii_case_spec(v@, c@),
            None => false,
        },
        None => true,
    }
}

/// An optional substring criterion: absent, or contained case-insensitively in `value`.
pub open spec fn opt_contains_ignore_case(criterion: Option<String>, value: Seq<char>) -> bool {
    match criterion {
        Some(c) => contains_case_insensitive_spec(value, c@),
        None => true,
    }
}

/// When a window selector selects a window.
pub open spec fn window_selector_matches(selector: WindowSelector, info: WindowInfo) -> bool {
    &&& opt_eq_ignore_case(selector.hwnd, info.hwnd@)
    &&& (selector.pid matches Some(pid) ==> info.pid == pid)
    &&& opt_contains_ignore_case(selector.title_contains, info.title@)
    &&& opt_eq_ignore_case(selector.class_name, info.class_name@)
    &&& opt_eq_ignore_case_opt(selector.exe, info.exe)
}

/// A window selector has at least one criterion.
pub open spec fn window_selector_has_criteria(selector: WindowSelector) -> bool {
    selector.hwnd is Some || selector.pid is Some || selector.title_contains is Some
        || selector.class_name is Some || selector.exe is Some
}

pub(crate) fn check_opt_eq_ignore_case(criterion: &Option<String>, value: &String) -> (r: bool)
    ensures
        r == opt_eq_ignore_case(*criterion, value@),
{
    match criterion {
        Some(c) => eq_ignore_ascii_case(value.as_str(), c.as_str()),
        None => true,
    }
}

pub(crate) fn check_opt_eq_ignore_case_opt(criterion: &Option<String>, value: &Option<String>) -> (r: bool)
    ensures
        r == opt_eq_ignore_case_opt(*criterion, *value),
{
    match criterion {
        Some(c) => match value {
            Some(v) => eq_ignore_ascii_case(v.as_str(), c.as_str()),
            None => false,
        },
        None => true,
    }
}

pub(crate) fn check_opt_contains_ignore_case(criterion: &Option<String>, value: &String) -> (r: bool)
    ensures
        r == opt_contains_ignore_case(*criterion, value@),
{
    match criterion {
        Some(c) => contains_case_insensitive(value.as_str(), c.as_str()),
        None => true,
    }
}

impl WindowSelector {
    /// Whether at least one criterion is set.
    pub fn has_criteria(&self) -> (r: bool)
        ensures
            r == window_selector_has_criteria(*self),
    {
        self.hwnd.is_some() || self.pid.is_some() || self.title_contains.is_some()
            || self.class_name.is_some() || self.exe.is_some()
    }

    /// Whether the window meets every criterion: HWND, class and exe equal ignoring ASCII case,
    /// PID equal, title containing the criterion case-insensitively.
    pub fn matches(&self, info: &WindowInfo) -> (r: bool)
        ensures
            r == window_selector_matches(*self, *info),
    {
        check_opt_eq_ignore_case(&self.hwnd, &info.hwnd) && match self.pid {
            Some(pid) => info.pid == pid,
            None => true,
        } && check_opt_contains_ignore_case(&self.title_contains, &info.title)
            && check_opt_eq_ignore_case(&self.class_name, &info.class_name)
            && check_opt_eq_ignore_case_opt(&self.exe, &info.exe)
    }
}

/// When a UI Automation selector selects an element.
pub open spec fn uia_selector_matches(selector: UiaSelector, node: UiaElementInfo) -> bool {
    &&& opt_eq_ignore_case_opt(selector.automation_id, node.automation_id)
    &&& opt_contains_ignore_case(
        selector.name,
        match node.name {
            Some(n) => n@,
            None => Seq::empty(),
        },
    )
    &&& opt_eq_ignore_case_opt(selector.class_name, node.class_name)
    &&& opt_eq_ignore_case_opt(selector.localized_control_type, node.localized_control_type)
    &&& (selector.control_type matches Some(t) ==> node.control_type == Some(t))
    &&& (selector.enabled matches Some(e) ==> node.enabled == Some(e))
}

/// What a window selector's match means, criterion by criterion: a window is selected exactly
/// when it has the selector's pid, its handle text and class name equal ignoring ASCII case,
/// its title containing the title text ignoring case, and an executable name equal ignoring
/// case (each where the selector sets it). The pid is a criterion of its own: a selector
/// matches exactly when it matches without its pid and the window has that pid. A selector
/// without criteria selects every window.
pub proof fn lemma_window_selector_criteria(selector: WindowSelector, info: WindowInfo)
    ensures
        window_selector_matches(selector, info) <==> {
            &&& (selector.pid matches Some(p) ==> info.pid == p)
            &&& (selector.hwnd matches Some(h) ==> eq_ignore_ascii_case_spec(info.hwnd@, h@))
            &&& (selector.title_contains matches Some(c) ==> contains_case_insensitive_spec(info.title@, c@))
            &&& (selector.class_name matches Some(c) ==> eq_ignore_ascii_case_spec(info.class_name@, c@))
            &&& (selector.exe matches Some(e) ==> (info.exe matches Some(x) && eq_ignore_ascii_case_spec(x@, e@)))
        },
        window_selector_matches(selector, info) == (window_selector_matches(
            WindowSelector { pid: None, ..selector },
            info,
        ) && (selector.pid matches Some(p) ==> info.pid == p)),
        window_selector_matches(
            WindowSelector { hwnd: None, pid: None, title_contains: None, class_name: None, exe: None },
            info,
        ),
{
}

/// What a UI Automation selector's match means, criterion by criterion: an element is selected
/// exactly when it has the selector's control type and enabled state, its automation id, class
/// name and localized control type equal ignoring ASCII case, and its name containing the name
/// text ignoring case (each where the selector sets it). The control type is a criterion of its
/// own: a selector matches exactly when it matches without its control type and the element
/// has that control type. A selector without criteria selects every element.
pub proof fn lemma_uia_selector_criteria(selector: UiaSelector, node: UiaElementInfo)
    ensures
        uia_selector_matches(selector, node) <==> {
            &&& (selector.control_type matches Some(t) ==> node.control_type == Some(t))
            &&& (selector.enabled matches Some(e) ==> node.enabled == Some(e))
            &&& (selector.automation_id matches Some(a) ==> (node.automation_id matches Some(x)
                && eq_ignore_ascii_case_spec(x@, a@)))
            &&& (selector.class_name matches Some(c) ==> (node.class_name matches Some(x)
                && eq_ignore_ascii_case_spec(x@, c@)))
            &&& (selector.localized_control_type matches Some(c) ==> (node.localized_control_type
                matches Some(x) && eq_ignore_ascii_case_spec(x@, c@)))
            &&& (selector.name matches Some(n) ==> contains_case_insensitive_spec(
                match node.name {
                    Some(x) => x@,
                    None => Seq::empty(),
                },
                n@,
            ))
        },
        uia_selector_matches(selector, node) == (uia_selector_matches(
            UiaSelector { control_type: None, ..selector },
            node,
        ) && (selector.control_type matches Some(t) ==> node.control_type == Some(t))),
        uia_selector_matches(
            UiaSelector {
                automation_id: None,
                name: None,
                class_name: None,
                localized_control_type: None,
                control_type: None,
                enabled: None,
            },
            node,
        ),
{
}

/// A UI Automation selector has at least one criterion.
pub open spec fn uia_selector_has_criteria(selector: UiaSelector) -> bool {
    selector.automation_id is Some || selector.name is Some || selector.class_name is Some
        || selector.localized_control_type is Some || selector.control_type is Some
        || selector.enabled is Some
}

impl UiaSelector {
    /// Whether at least one criterion is set.
    pub fn has_criteria(&self) -> (r: bool)
        ensures
            r == uia_selector_has_criteria(*self),
    {
        self.automation_id.is_some() || self.name.is_some() || self.class_name.is_some()
            || self.localized_control_type.is_some() || self.control_type.is_some()
            || self.enabled.is_some()
    }

    /// Whether the element meets every criterion; the name criterion is a case-insensitive
    /// substring of the element's name (an absent name counts as empty).
    pub fn matches(&self, node: &UiaElementInfo) -> (r: bool)
        ensures
            r == uia_selector_matches(*self, *node),
    {
        let name_ok = match &self.name {
            Some(value) => match &node.name {
                Some(n) => contains_case_insensitive(n.as_str(), value.as_str()),
                None => contains_case_insensitive("", value.as_str()),
            },
            None => true,
        };
        proof {
            if node.name is None && self.name is Some {
                reveal_strlit("");
                assert(""@ =~= Seq::<char>::empty());
            }
        }
        check_opt_eq_ignore_case_opt(&self.automation_id, &node.automation_id) && name_ok
            && check_opt_eq_ignore_case_opt(&self.class_name, &node.class_name)
            && check_opt_eq_ignore_case_opt(
            &self.localized_control_type,
            &node.localized_control_type,
        ) && match self.control_type {
            Some(t) => match node.control_type {
                Some(c) => c == t,
                None => false,
            },
            None => true,
        } && match self.enabled {
            Some(e) => match node.enabled {
                Some(c) => c == e,
                None => false,
            },
            None => true,
        }
    }
}

// ----------------------------------------------------------------------------------------------
// Small enums.
impl ScreenshotBackend {
    /// Stable snake-case name.
    pub fn as_str(self) -> (r: &'static str)
        ensures
            r@ == screenshot_backend_name(self),
    {
        match self {
            ScreenshotBackend::Auto => "auto",
            ScreenshotBackend::Gdi => "gdi",
            ScreenshotBackend::PrintWindow => "print_window",
        }
    }
}

/// Stable name of a screenshot backend.
pub open spec fn screenshot_backend_name(b: ScreenshotBackend) -> Seq<char> {
    match b {
        ScreenshotBackend::Auto => "auto"@,
        ScreenshotBackend::Gdi => "gdi"@,
        ScreenshotBackend::PrintWindow => "print_window"@,
    }
}

impl InputMode {
    /// Stable snake-case name.
    pub fn as_str(self) -> (r: &'static str)
        ensures
            r@ == input_mode_name(self),
    {
        match self {
            InputMode::Foreground => "foreground",
            InputMode::Uia => "uia",
            InputMode::Message => "message",
        }
    }
}

/// Stable name of an input mode.
pub open spec fn input_mode_name(m: InputMode) -> Seq<char> {
    match m {
        InputMode::Foreground => "foreground"@,
        InputMode::Uia => "uia"@,
        InputMode::Message => "message"@,
    }
}

impl<T> SuccessResponse<T> {
    /// Wraps data in a successful envelope.
    pub fn new(data: T) -> (r: Self)
        ensures
            r.ok,
            r.data == data,
    {
        SuccessResponse { ok: true, data }
    }
}

// ----------------------------------------------------------------------------------------------
// Errors.
/// Stable machine-readable code of an error.
pub open spec fn error_code(e: WinrError) -> Seq<char> {
    match e {
        WinrError::WindowNotFound => "WindowNotFound"@,
        WinrError::AmbiguousWindow { .. } => "AmbiguousWindow"@,
        WinrError::ForegroundDenied => "ForegroundDenied"@,
        WinrError::IntegrityLevelDenied => "IntegrityLevelDenied"@,
        WinrError::PermissionDenied { .. } => "PermissionDenied"@,
        WinrError::CaptureFailed { .. } => "CaptureFailed"@,
        WinrError::UnsupportedForMinimizedWindow { .. } => "UnsupportedForMinimizedWindow"@,
        WinrError::UiaElementNotFound => "UiaElementNotFound"@,
        WinrError::AmbiguousUiaElement { .. } => "AmbiguousUiaElement"@,
        WinrError::Unsupported { .. } => "Unsupported"@,
    }
}

/// Human-readable message of an error.
pub open spec fn error_message(e: WinrError) -> Seq<char> {
    match e {
        WinrError::WindowNotFound => "no windows matched the provided selector"@,
        WinrError::AmbiguousWindow { count, .. } => decimal_digits(count as nat)
            + " windows matched the provided selector"@,
        WinrError::ForegroundDenied => "windows denied the foreground change"@,
        WinrError::IntegrityLevelDenied => "integrity level mismatch prevented the operation"@,
        WinrError::PermissionDenied { reason } => "permission denied: "@ + reason@,
        WinrError::CaptureFailed { backend, message } => "capture failed with backend "@
            + backend@ + ": "@ + message@,
        WinrError::UnsupportedForMinimizedWindow { action } =>
            "unsupported for minimized window during "@ + action@,
        WinrError::UiaElementNotFound => "no UI Automation elements matched the provided selector"@,
        WinrError::AmbiguousUiaElement { count, .. } => decimal_digits(count as nat)
            + " UI Automation elements matched the provided selector"@,
        WinrError::Unsupported { message } => "unsupported operation: "@ + message@,
    }
}

impl WinrError {
    /// Stable machine-readable code.
    pub fn code(&self) -> (r: &'static str)
        ensures
            r@ == error_code(*self),
    {
        match self {
            WinrError::WindowNotFound => "WindowNotFound",
            WinrError::AmbiguousWindow { .. } => "AmbiguousWindow",
            WinrError::ForegroundDenied => "ForegroundDenied",
            WinrError::IntegrityLevelDenied => "IntegrityLevelDenied",
            WinrError::PermissionDenied { .. } => "PermissionDenied",
            WinrError::CaptureFailed { .. } => "CaptureFailed",
            WinrError::UnsupportedForMinimizedWindow { .. } => "UnsupportedForMinimizedWindow",
            WinrError::UiaElementNotFound => "UiaElementNotFound",
            WinrError::AmbiguousUiaElement { .. } => "AmbiguousUiaElement",
            WinrError::Unsupported { .. } => "Unsupported",
        }
    }

    /// Human-readable message (the error's display text).
    pub fn message(&self) -> (r: String)
        ensures
            r@ == error_message(*self),
    {
        let mut out: Vec<char> = Vec::new();
        match self {
            WinrError::WindowNotFound => push_str(&mut out, "no windows matched the provided selector"),
            WinrError::AmbiguousWindow { count, .. } => {
                let digits = u64_to_decimal(*count as u64);
                push_all(&mut out, &digits);
                push_str(&mut out, " windows matched the provided selector");
            },
            WinrError::ForegroundDenied => push_str(&mut out, "windows denied the foreground change"),
            WinrError::IntegrityLevelDenied => push_str(
                &mut out,
                "integrity level mismatch prevented the operation",
            ),
            WinrError::PermissionDenied { reason } => {
                push_str(&mut out, "permission denied: ");
                push_str(&mut out, reason.as_str());
            },
            WinrError::CaptureFailed { backend, message } => {
                push_str(&mut out, "capture failed with backend ");
                push_str(&mut out, backend.as_str());
                push_str(&mut out, ": ");
                push_str(&mut out, message.as_str());
            },
            WinrError::UnsupportedForMinimizedWindow { action } => {
                push_str(&mut out, "unsupported for minimized window during ");
                push_str(&mut out, action.as_str());
            },
            WinrError::UiaElementNotFound => push_str(
                &mut out,
                "no UI Automation elements matched the provided selector",
            ),
            WinrError::AmbiguousUiaElement { count, .. } => {
                let digits = u64_to_decimal(*count as u64);
                push_all(&mut out, &digits);
                push_str(&mut out, " UI Automation elements matched the provided selector");
            },
            WinrError::Unsupported { message } => {
                push_str(&mut out, "unsupported operation: ");
                push_str(&mut out, message.as_str());
            },
        }
        proof {
            assert(out@ =~= error_message(*self));
        }
        string_from_chars(&out)
    }

    /// The JSON error envelope: `ok` false, the code, the message, and the candidates of an
    /// ambiguity error.
    pub fn to_error_response(&self) -> (r: ErrorResponse)
        ensures
            !r.ok,
            r.error@ == error_code(*self),
            r.message@ == error_message(*self),
            r.matches@ == (match *self {
                WinrError::AmbiguousWindow { matches, .. } => matches@,
                _ => Seq::empty(),
            }),
            match *self {
                WinrError::AmbiguousUiaElement { matches, .. } => r.uia_matches@.len()
                    == matches@.len() && forall|i: int|
                    0 <= i < matches@.len() ==> #[trigger] uia_same_at(r.uia_matches@, matches@, i),
                _ => r.uia_matches@.len() == 0,
            },
    {
        let matches = match self {
            WinrError::AmbiguousWindow { matches, .. } => clone_windows(matches),
            _ => Vec::new(),
        };
        let uia_matches = match self {
            WinrError::AmbiguousUiaElement { matches, .. } => clone_elements(matches),
            _ => Vec::new(),
        };
        ErrorResponse {
            ok: false,
            error: string_of(self.code()),
            message: self.message(),
            matches,
            uia_matches,
        }
    }
}

/// Builds `WinrError::Unsupported` with the given message.
pub fn unsupported(message: &str) -> (r: WinrError)
    ensures
        r is Unsupported,
        r->Unsupported_message@ == message@,
{
    WinrError::Unsupported { message: string_of(message) }
}

/// Builds `WinrError::Unsupported` from already collected characters.
pub fn unsupported_chars(message: &Vec<char>) -> (r: WinrError)
    ensures
        r is Unsupported,
        r->Unsupported_message@ == message@,
{
    WinrError::Unsupported { message: string_from_chars(message) }
}

/// Builds `WinrError::PermissionDenied` from collected characters.
pub fn permission_denied_chars(reason: &Vec<char>) -> (r: WinrError)
    ensures
        r is PermissionDenied,
        r->PermissionDenied_reason@ == reason@,
{
    WinrError::PermissionDenied { reason: string_from_chars(reason) }
}

// ----------------------------------------------------------------------------------------------
// Window handles.
/// The text of a window handle: `0x` and 16 uppercase hexadecimal digits.
pub open spec fn hwnd_text(hwnd: isize) -> Seq<char> {
    "0x"@ + hex_upper_fixed((hwnd as usize) as nat, 16)
}

/// The hexadecimal digits of a handle text: trimmed, without a `0x`/`0X` prefix.
pub open spec fn hwnd_digits(value: Seq<char>) -> Seq<char> {
    let t = trim_spec(value);
    if has_prefix(t, "0x"@) || has_prefix(t, "0X"@) {
        t.subrange(2, t.len() as int)
    } else {
        t
    }
}

/// What `parse_hwnd` yields for a text: the handle, or `None` when the text is rejected.
pub open spec fn parse_hwnd_spec(value: Seq<char>) -> Option<isize> {
    match parse_unsigned_spec(hwnd_digits(value), 16, 0x1_0000_0000_0000_0000) {
        Some(v) => Some((v as u64) as isize),
        None => None,
    }
}

/// An uppercase hexadecimal character reads back as its nibble and is no whitespace.
proof fn lemma_hex_upper_char(d: nat)
    requires
        d < 16,
    ensures
        hex_digit_value(hex_upper_char(d)) == Some(d),
        !is_unicode_whitespace(hex_upper_char(d)),
        hex_upper_char(d) != '+',
{
    let c = hex_upper_char(d);
    if d < 10 {
        assert(c as u32 == d + 48);
    } else {
        assert(c as u32 == d + 55);
    }
}

/// The fixed-width hexadecimal text of `n` has `width` digits, each a hexadecimal digit and no
/// whitespace, and reads back as `n` modulo `16^width`.
proof fn lemma_hex_upper_fixed(n: nat, width: nat)
    ensures
        hex_upper_fixed(n, width).len() == width,
        all_digits(hex_upper_fixed(n, width), 16),
        forall|i: int|
            0 <= i < width ==> !is_unicode_whitespace(#[trigger] hex_upper_fixed(n, width)[i])
                && hex_upper_fixed(n, width)[i] != '+',
        digits_value(hex_upper_fixed(n, width), 16) == n % (pow(16, width) as nat),
    decreases width,
{
    reveal(pow);
    if width == 0 {
        assert(n % 1 == 0) by (nonlinear_arith);
    } else {
        let rest = hex_upper_fixed(n / 16, (width - 1) as nat);
        let text = hex_upper_fixed(n, width);
        lemma_hex_upper_fixed(n / 16, (width - 1) as nat);
        lemma_hex_upper_char(n % 16);
        assert(text == rest.push(hex_upper_char(n % 16)));
        assert(text.drop_last() =~= rest);
        assert forall|i: int| 0 <= i < text.len() implies #[trigger] digit_value(text[i], 16) is Some by {
            if i < rest.len() {
                assert(text[i] == rest[i]);
                assert(digit_value(rest[i], 16) is Some);
            }
        }
        assert forall|i: int| 0 <= i < width implies !is_unicode_whitespace(#[trigger] text[i]) && text[i] != '+' by {
            if i < rest.len() {
                assert(text[i] == rest[i]);
            }
        }
        let p = pow(16, (width - 1) as nat);
        vstd::arithmetic::power::lemma_pow_positive(16, (width - 1) as nat);
        vstd::arithmetic::div_mod::lemma_breakdown(n as int, 16, p);
        assert(pow(16, width) == 16 * p);
    }
}

/// A handle's text reads back as the handle.
pub proof fn lemma_hwnd_round_trip(hwnd: isize)
    ensures
        parse_hwnd_spec(hwnd_text(hwnd)) == Some(hwnd),
{
    reveal_strlit("0x");
    reveal_strlit("0X");
    let v: nat = (hwnd as usize) as nat;
    let digits = hex_upper_fixed(v, 16);
    let text = hwnd_text(hwnd);
    lemma_hex_upper_fixed(v, 16);
    assert(text == "0x"@ + digits);
    assert(text.len() == 18);
    assert(text[0] == '0');
    assert(text[17] == digits[15]);
    assert(trim_start_index(text) == 0);
    assert(trim_end_index(text) == 18);
    assert(trim_spec(text) =~= text);
    assert(text.subrange(0, 2) =~= "0x"@);
    assert(text.subrange(2, 18) =~= digits);
    assert(hwnd_digits(text) == digits);
    assert(digits[0] != '+');
    vstd::arithmetic::power::lemma_pow_positive(16, 16);
    assert(pow(16, 16) == 0x1_0000_0000_0000_0000) by {
        reveal_with_fuel(pow, 17);
    }
    assert(v < 0x1_0000_0000_0000_0000);
    assert(v % 0x1_0000_0000_0000_0000 == v);
    assert(((hwnd as usize) as u64) as isize == hwnd) by (bit_vector);
}

/// Hexadecimal digits parse as the handle their value gives (at most 16 digits always do),
/// and a `0x` or `0X` prefix changes nothing.
pub proof fn lemma_hwnd_hex_digits(s: Seq<char>)
    requires
        s.len() > 0,
        all_digits(s, 16),
    ensures
        parse_hwnd_spec("0x"@ + s) == parse_hwnd_spec(s),
        parse_hwnd_spec("0X"@ + s) == parse_hwnd_spec(s),
        parse_hwnd_spec(s) == (if digits_value(s, 16) < 0x1_0000_0000_0000_0000 {
            Some(((digits_value(s, 16) as int) as u64) as isize)
        } else {
            None
        }),
        s.len() <= 16 ==> parse_hwnd_spec(s) is Some,
{
    reveal_strlit("0x");
    reveal_strlit("0X");
    assert forall|i: int| 0 <= i < s.len() implies !is_unicode_whitespace(#[trigger] s[i]) && s[i] != '+' && s[i] != 'x'
        && s[i] != 'X' by {
        assert(digit_value(s[i], 16) is Some);
    }
    assert(trim_start_index(s) == 0);
    assert(trim_end_index(s) == s.len());
    assert(trim_spec(s) =~= s);
    assert(!has_prefix(s, "0x"@)) by {
        if has_prefix(s, "0x"@) {
            assert(s.subrange(0, 2)[1] == s[1]);
        }
    }
    assert(!has_prefix(s, "0X"@)) by {
        if has_prefix(s, "0X"@) {
            assert(s.subrange(0, 2)[1] == s[1]);
        }
    }
    assert(hwnd_digits(s) == s);
    let lower = "0x"@ + s;
    let upper = "0X"@ + s;
    assert(lower[0] == '0' && upper[0] == '0');
    assert(lower[lower.len() - 1] == s[s.len() - 1] && upper[upper.len() - 1] == s[s.len() - 1]);
    assert(trim_start_index(lower) == 0 && trim_end_index(lower) == lower.len());
    assert(trim_start_index(upper) == 0 && trim_end_index(upper) == upper.len());
    assert(trim_spec(lower) =~= lower);
    assert(trim_spec(upper) =~= upper);
    assert(lower.subrange(0, 2) =~= "0x"@);
    assert(upper.subrange(0, 2) =~= "0X"@);
    assert(lower.subrange(2, lower.len() as int) =~= s);
    assert(upper.subrange(2, upper.len() as int) =~= s);
    assert(hwnd_digits(lower) == s);
    assert(hwnd_digits(upper) == s);
    if s.len() <= 16 {
        lemma_digits_value_below(s);
        vstd::arithmetic::power::lemma_pow_increases(16, s.len(), 16);
        assert(pow(16, 16) == 0x1_0000_0000_0000_0000) by {
            reveal_with_fuel(pow, 17);
        }
    }
}

/// A run of hexadecimal digits denotes less than `16^len`.
proof fn lemma_digits_value_below(s: Seq<char>)
    requires
        all_digits(s, 16),
    ensures
        digits_value(s, 16) < pow(16, s.len()),
    decreases s.len(),
{
    reveal(pow);
    if s.len() > 0 {
        let rest = s.drop_last();
        assert forall|i: int| 0 <= i < rest.len() implies #[trigger] digit_value(rest[i], 16) is Some by {
            assert(rest[i] == s[i]);
        }
        lemma_digits_value_below(rest);
        assert(digit_value(s[s.len() - 1], 16) is Some);
        let d = digit_value(s.last(), 16)->Some_0;
        assert(d < 16);
        let a = digits_value(rest, 16);
        let p = pow(16, rest.len());
        assert(a * 16 + d < p * 16) by (nonlinear_arith)
            requires
                a < p,
                d < 16,
        ;
        assert(pow(16, s.len()) == 16 * p);
    }
}

/// Formats a window handle as `0x` and 16 uppercase hexadecimal digits.
pub fn format_hwnd(hwnd: isize) -> (r: String)
    ensures
        r@ == hwnd_text(hwnd),
{
    let mut out: Vec<char> = Vec::new();
    push_str(&mut out, "0x");
    let value: u64 = (hwnd as usize) as u64;
    let digits = u64_to_hex_upper_fixed(value, 16);
    push_all(&mut out, &digits);
    string_from_chars(&out)
}

/// Parses a hexadecimal window handle, with or without a `0x`/`0X` prefix and surrounding
/// whitespace; the error text names the rejected value.
pub fn parse_hwnd(value: &str) -> (r: Result<isize, String>)
    ensures
        match parse_hwnd_spec(value@) {
            Some(h) => r == Ok::<isize, String>(h),
            None => r is Err && r->Err_0@ == "invalid HWND value: "@ + value@,
        },
{
    proof {
        reveal_strlit("0x");
        reveal_strlit("0X");
    }
    let raw = chars_of(value);
    let trimmed = chars_trim(&raw);
    let lower_prefix = chars_of("0x");
    let upper_prefix = chars_of("0X");
    let has_lower = starts_with(&trimmed, &lower_prefix);
    let has_upper = starts_with(&trimmed, &upper_prefix);
    let digits = if has_lower || has_upper {
        skip_chars(&trimmed, 2)
    } else {
        trimmed
    };
    proof {
        let t = trim_spec(value@);
        if has_lower || has_upper {
            assert(digits@ == t.subrange(2, t.len() as int));
        }
        assert(digits@ == hwnd_digits(value@));
    }
    match parse_unsigned(&digits, 16, 0x1_0000_0000_0000_0000) {
        Some(v) => Ok(v as isize),
        None => {
            let mut msg: Vec<char> = Vec::new();
            push_str(&mut msg, "invalid HWND value: ");
            push_str(&mut msg, value);
            Err(string_from_chars(&msg))
        },
    }
}

/// Whether `s` starts with `prefix`.
pub fn starts_with(s: &Vec<char>, prefix: &Vec<char>) -> (r: bool)
    ensures
        r == has_prefix(s@, prefix@),
{
    if prefix.len() > s.len() {
        return false;
    }
    let mut i: usize = 0;
    while i < prefix.len()
        invariant
            prefix.len() <= s.len(),
            i <= prefix.len(),
            forall|j: int| 0 <= j < i ==> s@[j] == prefix@[j],
        decreases prefix.len() - i,
    {
        if s[i] != prefix[i] {
            proof {
                assert(s@.subrange(0, prefix@.len() as int)[i as int] != prefix@[i as int]);
            }
            return false;
        }
        i = i + 1;
    }
    proof {
        assert(s@.subrange(0, prefix@.len() as int) =~= prefix@);
    }
    true
}

/// The characters of `s` after the first `n`.
pub fn skip_chars(s: &Vec<char>, n: usize) -> (r: Vec<char>)
    requires
        n <= s.len(),
    ensures
        r@ == s@.subrange(n as int, s@.len() as int),
{
    let mut out: Vec<char> = Vec::new();
    let mut i: usize = n;
    while i < s.len()
        invariant
            n <= i <= s.len(),
            out@ == s@.subrange(n as int, i as int),
        decreases s.len() - i,
    {
        out.push(s[i]);
        proof {
            assert(out@ =~= s@.subrange(n as int, i + 1));
        }
        i = i + 1;
    }
    out
}

} // verus!
