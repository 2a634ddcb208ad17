//! Safety configuration: permission switches, process allow/deny lists, MCP settings,
//! and the checks every automation action passes before it touches a window.
use vstd::prelude::*;

use crate::text::{
    chars_of, contains_case_insensitive, contains_case_insensitive_spec, eq_ignore_ascii_case,
    eq_ignore_ascii_case_spec, push_str, string_of,
};
use crate::types::{permission_denied_chars, unsupported_chars, WindowInfo, WinrError, WinrResult};

verus! {

/// Whole configuration.
#[derive(Debug)]
pub struct WinrConfig {
    pub permissions: PermissionsConfig,
    pub allowlist: ProcessList,
    pub denylist: DenyList,
    pub mcp: McpConfig,
}

/// Permission switches.
#[derive(Debug, Clone, Copy, PartialEq, Eq, Structural)]
pub struct PermissionsConfig {
    pub allow_input: bool,
    pub allow_mouse: bool,
    pub allow_screenshots: bool,
    pub allow_window_close: bool,
    pub require_confirm_for_close: bool,
}

/// Executables that automation may target; empty means any.
#[derive(Debug)]
pub struct ProcessList {
    pub processes: Vec<String>,
}

/// Executables and title fragments that automation must never target.
#[derive(Debug)]
pub struct DenyList {
    pub processes: Vec<String>,
    pub titles: Vec<String>,
}

/// MCP server settings.
#[derive(Debug, PartialEq, Eq)]
pub struct McpConfig {
    pub bind: String,
    pub transport: String,
    pub log_tool_calls: bool,
}

/// The value of boolean settings left out of a configuration file.
pub fn default_true() -> (r: bool)
    ensures
        r,
{
    true
}

/// The default MCP bind address.
pub fn default_mcp_bind() -> (r: String)
    ensures
        r@ == "127.0.0.1"@,
{
    string_of("127.0.0.1")
}

/// The default MCP transport.
pub fn default_transport() -> (r: String)
    ensures
        r@ == "stdio"@,
{
    string_of("stdio")
}

/// The default permissions: input, mouse and screenshots allowed; closing windows
/// disabled and, when enabled, confirmed.
pub open spec fn default_permissions() -> PermissionsConfig {
    PermissionsConfig {
        allow_input: true,
        allow_mouse: true,
        allow_screenshots: true,
        allow_window_close: false,
        require_confirm_for_close: true,
    }
}

impl Default for PermissionsConfig {
    fn default() -> (r: Self)
        ensures
            r == default_permissions(),
    {
        PermissionsConfig {
            allow_input: true,
            allow_mouse: true,
            allow_screenshots: true,
            allow_window_close: false,
            require_confirm_for_close: true,
        }
    }
}

impl Default for ProcessList {
    fn default() -> (r: Self)
        ensures
            r.processes@.len() == 0,
    {
        ProcessList { processes: Vec::new() }
    }
}

impl Default for DenyList {
    fn default() -> (r: Self)
        ensures
            r.processes@.len() == 0,
            r.titles@.len() == 0,
    {
        DenyList { processes: Vec::new(), titles: Vec::new() }
    }
}

impl Default for McpConfig {
    fn default() -> (r: Self)
        ensures
            r.bind@ == "127.0.0.1"@,
            r.transport@ == "stdio"@,
            r.log_tool_calls,
    {
        McpConfig { bind: default_mcp_bind(), transport: default_transport(), log_tool_calls: true }
    }
}

impl Default for WinrConfig {
    fn default() -> (r: Self)
        ensures
            r.permissions == default_permissions(),
            r.allowlist.processes@.len() == 0,
            r.denylist.processes@.len() == 0,
            r.denylist.titles@.len() == 0,
            r.mcp.bind@ == "127.0.0.1"@,
            r.mcp.transport@ == "stdio"@,
            r.mcp.log_tool_calls,
    {
        WinrConfig {
            permissions: PermissionsConfig::default(),
            allowlist: ProcessList::default(),
            denylist: DenyList::default(),
            mcp: McpConfig::default(),
        }
    }
}

// ----------------------------------------------------------------------------------------------
// Target policy.
/// Some entry of `list` equals `name` ignoring ASCII case.
pub open spec fn listed(list: Seq<String>, name: Seq<char>) -> bool {
    exists|i: int| 0 <= i < list.len() && eq_ignore_ascii_case_spec(#[trigger] list[i]@, name)
}

/// Some entry of `list` occurs case-insensitively in `title`.
pub open spec fn title_listed(list: Seq<String>, title: Seq<char>) -> bool {
    exists|i: int| 0 <= i < list.len() && contains_case_insensitive_spec(title, #[trigger] list[i]@)
}

/// The target's executable is on the deny list.
pub open spec fn process_denied(config: WinrConfig, target: WindowInfo) -> bool {
    match target.exe {
        Some(exe) => listed(config.denylist.processes@, exe@),
        None => false,
    }
}

/// The target's title holds a denied fragment.
pub open spec fn title_denied(config: WinrConfig, target: WindowInfo) -> bool {
    title_listed(config.denylist.titles@, target.title@)
}

/// An allow list is configured and the target's executable is not on it.
pub open spec fn not_allowlisted(config: WinrConfig, target: WindowInfo) -> bool {
    config.allowlist.processes@.len() > 0 && match target.exe {
        Some(exe) => !listed(config.allowlist.processes@, exe@),
        None => true,
    }
}

/// The reason text of a policy refusal, for the check that refuses first.
pub open spec fn policy_reason(config: WinrConfig, target: WindowInfo, action: Seq<char>) -> Seq<
    char,
> {
    if process_denied(config, target) {
        action + " denied for process '"@ + target.exe->0@ + "'"@
    } else if title_denied(config, target) {
        action + " denied for title '"@ + target.title@ + "'"@
    } else {
        action + " denied because process '"@ + match target.exe {
            Some(exe) => exe@,
            None => "<unknown>"@,
        } + "' is not allowlisted"@
    }
}

/// The policy lets automation act on the target.
pub open spec fn policy_allows(config: WinrConfig, target: WindowInfo) -> bool {
    !process_denied(config, target) && !title_denied(config, target) && !not_allowlisted(
        config,
        target,
    )
}

/// The outcome of the target policy: allowed, or denied with the reason of the first check that
/// refuses.
pub open spec fn policy_outcome_ok(
    r: WinrResult<()>,
    config: WinrConfig,
    target: WindowInfo,
    action: Seq<char>,
) -> bool {
    if policy_allows(config, target) {
        r is Ok
    } else {
        r is Err && r->Err_0 is PermissionDenied && r->Err_0->PermissionDenied_reason@
            == policy_reason(config, target, action)
    }
}

fn any_listed(list: &Vec<String>, name: &str) -> (r: bool)
    ensures
        r == listed(list@, name@),
{
    let mut i: usize = 0;
    while i < list.len()
        invariant
            i <= list.len(),
            forall|j: int| 0 <= j < i ==> !eq_ignore_ascii_case_spec(#[trigger] list@[j]@, name@),
        decreases list.len() - i,
    {
        if eq_ignore_ascii_case(list[i].as_str(), name) {
            return true;
        }
        i = i + 1;
    }
    false
}

fn any_title_listed(list: &Vec<String>, title: &str) -> (r: bool)
    ensures
        r == title_listed(list@, title@),
{
    let mut i: usize = 0;
    while i < list.len()
        invariant
            i <= list.len(),
            forall|j: int|
                0 <= j < i ==> !contains_case_insensitive_spec(title@, #[trigger] list@[j]@),
        decreases list.len() - i,
    {
        if contains_case_insensitive(title, list[i].as_str()) {
            return true;
        }
        i = i + 1;
    }
    false
}

/// Checks a target against the deny lists (executable first, then title) and the allow list.
pub fn enforce_target_policy(config: &WinrConfig, target: &WindowInfo, action: &str) -> (r:
    WinrResult<()>)
    ensures
        policy_outcome_ok(r, *config, *target, action@),
{
    if let Some(exe) = &target.exe {
        if any_listed(&config.denylist.processes, exe.as_str()) {
            let mut reason: Vec<char> = Vec::new();
            push_str(&mut reason, action);
            push_str(&mut reason, " denied for process '");
            push_str(&mut reason, exe.as_str());
            push_str(&mut reason, "'");
            proof {
                assert(reason@ =~= policy_reason(*config, *target, action@));
            }
            return Err(permission_denied_chars(&reason));
        }
    }
    if any_title_listed(&config.denylist.titles, target.title.as_str()) {
        let mut reason: Vec<char> = Vec::new();
        push_str(&mut reason, action);
        push_str(&mut reason, " denied for title '");
        push_str(&mut reason, target.title.as_str());
        push_str(&mut reason, "'");
        proof {
            assert(reason@ =~= policy_reason(*config, *target, action@));
        }
        return Err(permission_denied_chars(&reason));
    }
    if config.allowlist.processes.len() > 0 {
        let matches = match &target.exe {
            Some(exe) => any_listed(&config.allowlist.processes, exe.as_str()),
            None => false,
        };
        if !matches {
            let mut reason: Vec<char> = Vec::new();
            push_str(&mut reason, action);
            push_str(&mut reason, " denied because process '");
            match &target.exe {
                Some(exe) => push_str(&mut reason, exe.as_str()),
                None => push_str(&mut reason, "<unknown>"),
            }
            push_str(&mut reason, "' is not allowlisted");
            proof {
                assert(reason@ =~= policy_reason(*config, *target, action@));
            }
            return Err(permission_denied_chars(&reason));
        }
    }
    Ok(())
}

/// A permission refusal with the given reason.
pub open spec fn denied_with(r: WinrResult<()>, reason: Seq<char>) -> bool {
    r is Err && r->Err_0 is PermissionDenied && r->Err_0->PermissionDenied_reason@ == reason
}

fn deny(reason: &str) -> (r: WinrResult<()>)
    ensures
        denied_with(r, reason@),
{
    Err(WinrError::PermissionDenied { reason: string_of(reason) })
}

/// Screenshots must be enabled, and a window target must pass the target policy.
pub fn enforce_screenshot_permission(config: &WinrConfig, target: Option<&WindowInfo>) -> (r:
    WinrResult<()>)
    ensures
        !config.permissions.allow_screenshots ==> denied_with(
            r,
            "screenshots are disabled by config"@,
        ),
        config.permissions.allow_screenshots ==> match target {
            Some(t) => policy_outcome_ok(r, *config, *t, "screenshot"@),
            None => r is Ok,
        },
{
    if !config.permissions.allow_screenshots {
        return deny("screenshots are disabled by config");
    }
    match target {
        Some(t) => enforce_target_policy(config, t, "screenshot"),
        None => Ok(()),
    }
}

/// Keyboard input must be enabled and the target must pass the target policy.
pub fn enforce_input_permission(config: &WinrConfig, target: &WindowInfo, action: &str) -> (r:
    WinrResult<()>)
    ensures
        !config.permissions.allow_input ==> denied_with(
            r,
            "input automation is disabled by config"@,
        ),
        config.permissions.allow_input ==> policy_outcome_ok(r, *config, *target, action@),
{
    if !config.permissions.allow_input {
        return deny("input automation is disabled by config");
    }
    enforce_target_policy(config, target, action)
}

/// Mouse input must be enabled, and a window target must pass the target policy.
pub fn enforce_mouse_permission(
    config: &WinrConfig,
    target: Option<&WindowInfo>,
    action: &str,
) -> (r: WinrResult<()>)
    ensures
        !config.permissions.allow_mouse ==> denied_with(
            r,
            "mouse automation is disabled by config"@,
        ),
        config.permissions.allow_mouse ==> match target {
            Some(t) => policy_outcome_ok(r, *config, *t, action@),
            None => r is Ok,
        },
{
    if !config.permissions.allow_mouse {
        return deny("mouse automation is disabled by config");
    }
    match target {
        Some(t) => enforce_target_policy(config, t, action),
        None => Ok(()),
    }
}

/// Closing must be enabled, confirmed by `force` unless confirmation is switched off, and the
/// target must pass the target policy.
pub fn enforce_window_close_permission(config: &WinrConfig, target: &WindowInfo, force: bool) -> (r:
    WinrResult<()>)
    ensures
        !config.permissions.allow_window_close ==> denied_with(
            r,
            "window close is disabled by config"@,
        ),
        config.permissions.allow_window_close && config.permissions.require_confirm_for_close
            && !force ==> denied_with(
            r,
            "window close requires --force or require_confirm_for_close=false"@,
        ),
        config.permissions.allow_window_close && (!config.permissions.require_confirm_for_close
            || force) ==> policy_outcome_ok(r, *config, *target, "window_close"@),
{
    if !config.permissions.allow_window_close {
        return deny("window close is disabled by config");
    }
    if config.permissions.require_confirm_for_close && !force {
        return deny("window close requires --force or require_confirm_for_close=false");
    }
    enforce_target_policy(config, target, "window_close")
}

/// Keyboard input needs a window that is not minimized and, unless it is focused first,
/// already in the foreground.
pub fn validate_window_ready_for_input(target: &WindowInfo, focus_first: bool, action: &str) -> (r:
    WinrResult<()>)
    ensures
        target.minimized ==> r is Err && r->Err_0 is UnsupportedForMinimizedWindow
            && r->Err_0->UnsupportedForMinimizedWindow_action@ == action@,
        !target.minimized && !focus_first && !target.foreground ==> r is Err && r->Err_0 is Unsupported
            && r->Err_0->Unsupported_message@ == action@
            + " requires the target window to already be foreground when focus_first=false"@,
        !target.minimized && (focus_first || target.foreground) ==> r is Ok,
{
    if target.minimized {
        return Err(WinrError::UnsupportedForMinimizedWindow { action: string_of(action) });
    }
    if !focus_first && !target.foreground {
        let mut message: Vec<char> = Vec::new();
        push_str(&mut message, action);
        push_str(
            &mut message,
            " requires the target window to already be foreground when focus_first=false",
        );
        return Err(unsupported_chars(&message));
    }
    Ok(())
}

/// Mouse input needs a window that is not minimized.
pub fn validate_window_ready_for_mouse(target: &WindowInfo, action: &str) -> (r: WinrResult<()>)
    ensures
        target.minimized ==> r is Err && r->Err_0 is UnsupportedForMinimizedWindow
            && r->Err_0->UnsupportedForMinimizedWindow_action@ == action@,
        !target.minimized ==> r is Ok,
{
    if target.minimized {
        return Err(WinrError::UnsupportedForMinimizedWindow { action: string_of(action) });
    }
    Ok(())
}

} // verus!
