//! Profiles: validation, click-point resolution, trigger jitter, the decisions of the
//! trigger loop, and the workflow description of a profile.
use vstd::prelude::*;

use std::time::{Duration, SystemTime};

use crate::backend::{
    backend_selection_spec, capability_requirements_for_profile, catalog_for_frontend,
    resolve_backend_selection, select_backend_by_capabilities, selected_backend_spec,
    catalog_entries, requirements_for_profile, standard_entries,
};
use crate::protocol::{
    AdvancedBackendDescriptor, AdvancedBackendSelection, AdvancedCapabilitySelection,
    AdvancedFrontend, AdvancedProfileBackend, AdvancedTargetRef, MouseInputMode,
};
use crate::text::{chars_trim, chars_of, push_str, str_eq, string_from_chars, trim_spec};
use crate::types::{
    clone_opt_string, unsupported, unsupported_chars, window_selector_has_criteria, ProfileAction,
    ProfileClickPoint, ProfileConfig, ProfileDetector, WindowInfo, WindowSelector, WinrError,
    WinrResult,
};

verus! {

/// How a profile run waits, paces and stops.
#[derive(Debug, Clone, Copy, PartialEq, Eq)]
pub struct ProfileRunOptions {
    pub wait_timeout: Option<Duration>,
    pub poll_interval: Duration,
    pub max_triggers: Option<u64>,
    pub focus_target: bool,
    pub arm_delay: Duration,
}

/// Progress reported by a profile run.
#[derive(Debug, PartialEq, Eq)]
pub enum ProfileRunEvent {
    WaitingForTarget { selector: WindowSelector },
    TargetAcquired { window: WindowInfo },
    WaitingForFocusReturn { selector: WindowSelector },
    FocusRestored { window: WindowInfo },
    DetectorMatched { x: i32, y: i32, pixel_count: u32 },
    TriggerFired { count: u64 },
    Stopped { count: u64, reason: String },
}

/// Name of the result of `Duration::from_millis`: the duration of that many milliseconds.
pub uninterp spec fn millis_duration(millis: u64) -> Duration;

/// Calls `Duration::from_millis`, which depends on its argument alone: the result is
/// `millis_duration(millis)`.
#[verifier::external_body]
fn duration_from_millis(millis: u64) -> (r: Duration)
    ensures
        r == millis_duration(millis),
{
    Duration::from_millis(millis)
}

impl Default for ProfileRunOptions {
    /// No wait timeout, polls every 250 ms, no trigger limit, no focusing, no arming delay.
    fn default() -> (r: Self)
        ensures
            r.wait_timeout is None,
            r.poll_interval == millis_duration(250),
            r.max_triggers is None,
            !r.focus_target,
            r.arm_delay == millis_duration(0),
    {
        ProfileRunOptions {
            wait_timeout: None,
            poll_interval: duration_from_millis(250),
            max_triggers: None,
            focus_target: false,
            arm_delay: duration_from_millis(0),
        }
    }
}

// ----------------------------------------------------------------------------------------------
// Validation.
/// The input mode of a profile's click action; foreground when none is set.
pub open spec fn action_input_mode(profile: ProfileConfig) -> MouseInputMode {
    match profile.action {
        ProfileAction::MouseClick { input_mode, .. } => match input_mode {
            Some(m) => m,
            None => MouseInputMode::Foreground,
        },
    }
}

/// The message of the first rule a detector breaks, if any.
pub open spec fn detector_problem(detector: Option<ProfileDetector>) -> Option<Seq<char>> {
    match detector {
        Some(ProfileDetector::ColorMatch { tolerance, min_pixels, .. }) => if tolerance == 0 {
            Some("color detector tolerance must be greater than zero"@)
        } else if min_pixels == 0 {
            Some("color detector min_pixels must be greater than zero"@)
        } else {
            None
        },
        Some(
            ProfileDetector::TemplateMatch { image_path, min_match_percent, sample_stride, .. },
        ) => if trim_spec(image_path@).len() == 0 {
            Some("template detector image_path must not be empty"@)
        } else if min_match_percent == 0 || min_match_percent > 100 {
            Some("template detector min_match_percent must be between 1 and 100"@)
        } else if sample_stride == 0 {
            Some("template detector sample_stride must be greater than zero"@)
        } else {
            None
        },
        None => None,
    }
}

/// The message of the first rule a profile breaks, in the order they are checked, or `None`
/// for a valid profile.
pub open spec fn profile_problem(profile: ProfileConfig) -> Option<Seq<char>> {
    if !window_selector_has_criteria(profile.target) {
        Some("profile target must include at least one selector field"@)
    } else if profile.schedule.mode@ != "interval"@ {
        Some(
            "profile schedule mode '"@ + profile.schedule.mode@
                + "' is unsupported; only 'interval' is implemented"@,
        )
    } else if profile.schedule.every_ms == 0 {
        Some("profile schedule every_ms must be greater than zero"@)
    } else if action_input_mode(profile) == MouseInputMode::Foreground
        && !profile.safety.require_foreground_window {
        Some("mouse click profiles currently require require_foreground_window=true"@)
    } else if profile.safety.stop_on_focus_loss && profile.safety.pause_on_focus_loss {
        Some("profile safety cannot enable both stop_on_focus_loss and pause_on_focus_loss"@)
    } else {
        detector_problem(profile.detector)
    }
}

/// Fails with `Unsupported` carrying the literal message.
fn reject(message: &str) -> (r: WinrResult<()>)
    ensures
        r matches Err(e) && e is Unsupported && e->Unsupported_message@ == message@,
{
    Err(unsupported(message))
}

/// Checks a profile against the rules a run relies on.
pub fn validate_profile(profile: &ProfileConfig) -> (r: WinrResult<()>)
    ensures
        match profile_problem(*profile) {
            Some(message) => r matches Err(e) && e is Unsupported && e->Unsupported_message@ == message,
            None => r is Ok,
        },
{
    proof {
        reveal_strlit("interval");
        reveal_strlit("profile target must include at least one selector field");
        reveal_strlit("profile schedule every_ms must be greater than zero");
        reveal_strlit("mouse click profiles currently require require_foreground_window=true");
        reveal_strlit("profile safety cannot enable both stop_on_focus_loss and pause_on_focus_loss");
        reveal_strlit("color detector tolerance must be greater than zero");
        reveal_strlit("color detector min_pixels must be greater than zero");
        reveal_strlit("template detector image_path must not be empty");
        reveal_strlit("template detector min_match_percent must be between 1 and 100");
        reveal_strlit("template detector sample_stride must be greater than zero");
    }
    let input_mode = match &profile.action {
        ProfileAction::MouseClick { input_mode, .. } => match input_mode {
            Some(m) => *m,
            None => MouseInputMode::Foreground,
        },
    };
    if !profile.target.has_criteria() {
        return reject("profile target must include at least one selector field");
    }
    if !str_eq(profile.schedule.mode.as_str(), "interval") {
        let mut message: Vec<char> = Vec::new();
        push_str(&mut message, "profile schedule mode '");
        push_str(&mut message, profile.schedule.mode.as_str());
        push_str(&mut message, "' is unsupported; only 'interval' is implemented");
        proof {
            assert(message@ =~= "profile schedule mode '"@ + profile.schedule.mode@
                + "' is unsupported; only 'interval' is implemented"@);
        }
        return Err(unsupported_chars(&message));
    }
    if profile.schedule.every_ms == 0 {
        return reject("profile schedule every_ms must be greater than zero");
    }
    if input_mode == MouseInputMode::Foreground && !profile.safety.require_foreground_window {
        return reject("mouse click profiles currently require require_foreground_window=true");
    }
    if profile.safety.stop_on_focus_loss && profile.safety.pause_on_focus_loss {
        return reject("profile safety cannot enable both stop_on_focus_loss and pause_on_focus_loss");
    }
    match &profile.detector {
        Some(ProfileDetector::ColorMatch { tolerance, min_pixels, .. }) => {
            if *tolerance == 0 {
                return reject("color detector tolerance must be greater than zero");
            }
            if *min_pixels == 0 {
                return reject("color detector min_pixels must be greater than zero");
            }
        },
        Some(
            ProfileDetector::TemplateMatch { image_path, min_match_percent, sample_stride, .. },
        ) => {
            let path_chars = chars_of(image_path.as_str());
            let trimmed = chars_trim(&path_chars);
            if trimmed.len() == 0 {
                return reject("template detector image_path must not be empty");
            }
            if *min_match_percent == 0 || *min_match_percent > 100 {
                return reject("template detector min_match_percent must be between 1 and 100");
            }
            if *sample_stride == 0 {
                return reject("template detector sample_stride must be greater than zero");
            }
        },
        None => {},
    }
    Ok(())
}

// ----------------------------------------------------------------------------------------------
// Click points.
/// Extent of a window along one axis: the difference of its edges, at least 1.
pub open spec fn extent(low: i32, high: i32) -> int {
    if high - low < 1 {
        1
    } else {
        high - low
    }
}

/// The window's rectangle has extents that fit in `i32`.
pub open spec fn rect_extents_fit(target: WindowInfo) -> bool {
    &&& i32::MIN <= target.rect.right - target.rect.left <= i32::MAX
    &&& i32::MIN <= target.rect.bottom - target.rect.top <= i32::MAX
}

/// Width of the window, at least 1.
pub open spec fn window_width(target: WindowInfo) -> int {
    extent(target.rect.left, target.rect.right)
}

/// Height of the window, at least 1.
pub open spec fn window_height(target: WindowInfo) -> int {
    extent(target.rect.top, target.rect.bottom)
}

/// One pixel in from the near edge (0 for a one-pixel extent).
pub open spec fn near_edge(size: int) -> int {
    if 1 < size - 1 {
        1
    } else {
        size - 1
    }
}

/// Two pixels in from the far edge (at least 0).
pub open spec fn far_edge(size: int) -> int {
    if size - 2 > 0 {
        size - 2
    } else {
        0
    }
}

/// Client coordinates of a named point (other than the cursor) in a window of the given size.
pub open spec fn named_point(width: int, height: int, point: ProfileClickPoint) -> (int, int) {
    match point {
        ProfileClickPoint::Center => (width / 2, height / 2),
        ProfileClickPoint::TopLeft => (near_edge(width), near_edge(height)),
        ProfileClickPoint::TopCenter => (width / 2, near_edge(height)),
        ProfileClickPoint::TopRight => (far_edge(width), near_edge(height)),
        ProfileClickPoint::LeftCenter => (near_edge(width), height / 2),
        ProfileClickPoint::RightCenter => (far_edge(width), height / 2),
        ProfileClickPoint::BottomLeft => (near_edge(width), far_edge(height)),
        ProfileClickPoint::BottomCenter => (width / 2, far_edge(height)),
        ProfileClickPoint::BottomRight => (far_edge(width), far_edge(height)),
        ProfileClickPoint::CurrentCursor => (0, 0),
    }
}

/// What resolving the cursor inside a window yields: the error of a failed cursor lookup,
/// `Unsupported` for a cursor outside the client area, else the cursor's client coordinates.
pub open spec fn cursor_resolution(
    target: WindowInfo,
    cursor: WinrResult<(i32, i32)>,
    r: WinrResult<(i32, i32)>,
) -> bool {
    match cursor {
        Err(e) => r == Err::<(i32, i32), WinrError>(e),
        Ok((x, y)) => if x < 0 || y < 0 || x >= window_width(target) || y >= window_height(target) {
            r matches Err(e) && e is Unsupported && e->Unsupported_message@
                == "current cursor is not inside the target window"@
        } else {
            r == Ok::<(i32, i32), WinrError>((x, y))
        },
    }
}

/// Width and height of a window, each at least 1.
fn window_size(target: &WindowInfo) -> (r: (i32, i32))
    requires
        rect_extents_fit(*target),
    ensures
        r.0 == window_width(*target),
        r.1 == window_height(*target),
{
    let w = target.rect.right - target.rect.left;
    let h = target.rect.bottom - target.rect.top;
    (if w < 1 {
        1
    } else {
        w
    }, if h < 1 {
        1
    } else {
        h
    })
}

/// Checks that the cursor, given in the window's client coordinates, lies inside the window.
pub fn cursor_point_in_target(target: &WindowInfo, cursor: WinrResult<(i32, i32)>) -> (r: WinrResult<
    (i32, i32),
>)
    requires
        rect_extents_fit(*target),
    ensures
        cursor_resolution(*target, cursor, r),
{
    let (x, y) = match cursor {
        Ok(p) => p,
        Err(e) => {
            return Err(e);
        },
    };
    let (width, height) = window_size(target);
    if x < 0 || y < 0 || x >= width || y >= height {
        proof {
            reveal_strlit("current cursor is not inside the target window");
        }
        return Err(unsupported("current cursor is not inside the target window"));
    }
    Ok((x, y))
}

/// Resolves a named click point; the current cursor goes through `cursor_point_in_target`.
pub fn resolve_named_click_point(
    target: &WindowInfo,
    click_point: ProfileClickPoint,
    cursor: WinrResult<(i32, i32)>,
) -> (r: WinrResult<(i32, i32)>)
    requires
        rect_extents_fit(*target),
    ensures
        click_point == ProfileClickPoint::CurrentCursor ==> cursor_resolution(*target, cursor, r),
        click_point != ProfileClickPoint::CurrentCursor ==> (r matches Ok(p) && p.0 == named_point(
            window_width(*target),
            window_height(*target),
            click_point,
        ).0 && p.1 == named_point(window_width(*target), window_height(*target), click_point).1),
{
    let (width, height) = window_size(target);
    let near_x = if 1 < width - 1 {
        1
    } else {
        width - 1
    };
    let near_y = if 1 < height - 1 {
        1
    } else {
        height - 1
    };
    let far_x = if width - 2 > 0 {
        width - 2
    } else {
        0
    };
    let far_y = if height - 2 > 0 {
        height - 2
    } else {
        0
    };
    let point = match click_point {
        ProfileClickPoint::Center => (width / 2, height / 2),
        ProfileClickPoint::TopLeft => (near_x, near_y),
        ProfileClickPoint::TopCenter => (width / 2, near_y),
        ProfileClickPoint::TopRight => (far_x, near_y),
        ProfileClickPoint::LeftCenter => (near_x, height / 2),
        ProfileClickPoint::RightCenter => (far_x, height / 2),
        ProfileClickPoint::BottomLeft => (near_x, far_y),
        ProfileClickPoint::BottomCenter => (width / 2, far_y),
        ProfileClickPoint::BottomRight => (far_x, far_y),
        ProfileClickPoint::CurrentCursor => {
            return cursor_point_in_target(target, cursor);
        },
    };
    Ok(point)
}

/// What resolving a click action's point yields.
pub open spec fn click_resolution(
    target: WindowInfo,
    configured_point: Option<ProfileClickPoint>,
    configured_x: Option<i32>,
    configured_y: Option<i32>,
    cursor: WinrResult<(i32, i32)>,
    r: WinrResult<(i32, i32)>,
) -> bool {
    match configured_point {
        Some(point) => if configured_x is Some || configured_y is Some {
            r matches Err(e) && e is Unsupported && e->Unsupported_message@
                == "profile mouse click action cannot combine click_point with x or y coordinates"@
        } else if point == ProfileClickPoint::CurrentCursor {
            cursor_resolution(target, cursor, r)
        } else {
            r matches Ok(p) && p.0 == named_point(window_width(target), window_height(target), point).0
                && p.1 == named_point(window_width(target), window_height(target), point).1
        },
        None => match (configured_x, configured_y) {
            (Some(x), Some(y)) => r == Ok::<(i32, i32), WinrError>((x, y)),
            (None, None) => match cursor {
                Ok((x, y)) => if x < 0 || y < 0 || x >= window_width(target) || y >= window_height(
                    target,
                ) {
                    r matches Ok(p) && p.0 == window_width(target) / 2 && p.1 == window_height(target)
                        / 2
                } else {
                    r == Ok::<(i32, i32), WinrError>((x, y))
                },
                Err(_) => r matches Ok(p) && p.0 == window_width(target) / 2 && p.1 == window_height(
                    target,
                ) / 2,
            },
            _ => r matches Err(e) && e is Unsupported && e->Unsupported_message@
                == "profile mouse click action requires both x and y when either is provided"@,
        },
    }
}

/// Resolves the client point a click action targets: a named point (alone), explicit x and y
/// (both), or else the cursor when it is inside the window and the window's center otherwise.
/// `cursor` is the cursor in the window's client coordinates, or the error of reading it.
pub fn resolve_click_point(
    target: &WindowInfo,
    configured_point: Option<ProfileClickPoint>,
    configured_x: Option<i32>,
    configured_y: Option<i32>,
    cursor: WinrResult<(i32, i32)>,
) -> (r: WinrResult<(i32, i32)>)
    requires
        rect_extents_fit(*target),
    ensures
        click_resolution(*target, configured_point, configured_x, configured_y, cursor, r),
{
    proof {
        reveal_strlit("profile mouse click action cannot combine click_point with x or y coordinates");
        reveal_strlit("profile mouse click action requires both x and y when either is provided");
    }
    if let Some(click_point) = configured_point {
        if configured_x.is_some() || configured_y.is_some() {
            return Err(
                unsupported("profile mouse click action cannot combine click_point with x or y coordinates"),
            );
        }
        return resolve_named_click_point(target, click_point, cursor);
    }
    match (configured_x, configured_y) {
        (Some(x), Some(y)) => Ok((x, y)),
        (None, None) => match cursor_point_in_target(target, cursor) {
            Ok(p) => Ok(p),
            Err(_) => {
                let (width, height) = window_size(target);
                Ok((width / 2, height / 2))
            },
        },
        _ => Err(unsupported("profile mouse click action requires both x and y when either is provided")),
    }
}


// ----------------------------------------------------------------------------------------------
// Jitter from the clock.
#[verifier::external_type_specification]
#[verifier::external_body]
pub struct ExSystemTime(SystemTime);

/// Calls `SystemTime::now`; the reading depends on the clock, so nothing is stated of it.
#[verifier::external_body]
fn system_time_now() -> (r: SystemTime) {
    SystemTime::now()
}

/// Calls `SystemTime::duration_since` with the Unix epoch; `None` when the clock reads before
/// the epoch. The duration depends on the reading, so nothing more is stated.
#[verifier::external_body]
fn since_unix_epoch(time: &SystemTime) -> (r: Option<Duration>) {
    time.duration_since(std::time::UNIX_EPOCH).ok()
}

/// Calls `Duration::subsec_nanos`: the fractional part of the duration in nanoseconds, which
/// the documentation states is below one billion.
#[verifier::external_body]
fn subsec_nanos(duration: &Duration) -> (r: u32)
    ensures
        r < 1_000_000_000,
{
    duration.subsec_nanos()
}

/// The nanosecond part of the current time since the Unix epoch (0 before the epoch).
fn clock_nanos() -> (r: u64)
    ensures
        r < 1_000_000_000,
{
    let now = system_time_now();
    match since_unix_epoch(&now) {
        Some(d) => subsec_nanos(&d) as u64,
        None => 0,
    }
}

/// The jitter a clock reading gives: 0 without a maximum, else the reading modulo one more
/// than the maximum.
pub open spec fn delta_from_nanos(max_delta_ms: u64, nanos: u64) -> u64 {
    if max_delta_ms == 0 {
        0
    } else {
        (nanos % (max_delta_ms + 1) as u64) as u64
    }
}

/// The jitter for a clock reading.
pub fn random_delta_from_nanos(max_delta_ms: u64, nanos: u64) -> (r: u64)
    requires
        max_delta_ms < u64::MAX,
    ensures
        r == delta_from_nanos(max_delta_ms, nanos),
        r <= max_delta_ms,
{
    if max_delta_ms == 0 {
        return 0;
    }
    nanos % (max_delta_ms + 1)
}

/// A pseudo-random extra delay between triggers, from 0 to the maximum, taken from the clock.
pub fn random_delta(max_delta_ms: u64) -> (r: u64)
    requires
        max_delta_ms < u64::MAX,
    ensures
        r <= max_delta_ms,
        exists|nanos: u64| nanos < 1_000_000_000 && r == delta_from_nanos(max_delta_ms, nanos),
{
    if max_delta_ms == 0 {
        proof {
            assert(delta_from_nanos(0, 0) == 0);
        }
        return 0;
    }
    let nanos = clock_nanos();
    random_delta_from_nanos(max_delta_ms, nanos)
}

/// The band a click offset falls in for a template size: from a quarter of the size (at least
/// 1) over a span up to three quarters of it (at least 1 wide).
pub open spec fn offset_low(size: i32) -> int {
    if size / 4 > 1 {
        size / 4
    } else {
        1
    }
}

/// Width of the band a click offset falls in.
pub open spec fn offset_span(size: i32) -> int {
    let high = if (size * 3) / 4 > offset_low(size) + 1 {
        (size * 3) / 4
    } else {
        offset_low(size) + 1
    };
    if high - offset_low(size) > 1 {
        high - offset_low(size)
    } else {
        1
    }
}

/// The click offset a clock reading gives.
pub open spec fn offset_from_nanos(size: i32, nanos: u64) -> int {
    offset_low(size) + (nanos % (offset_span(size) as u64)) as int
}

/// The click offset inside a template of the given size for a clock reading.
pub fn random_click_offset_from_nanos(size: i32, nanos: u64) -> (r: i32)
    requires
        0 < size <= i32::MAX / 3,
    ensures
        r == offset_from_nanos(size, nanos),
        offset_low(size) <= r < offset_low(size) + offset_span(size),
{
    let min = if size / 4 > 1 {
        size / 4
    } else {
        1
    };
    let three_quarters = (size * 3) / 4;
    let max = if three_quarters > min + 1 {
        three_quarters
    } else {
        min + 1
    };
    let span: u64 = if max - min > 1 {
        (max - min) as u64
    } else {
        1
    };
    let offset = nanos % span;
    proof {
        assert(offset < span);
        assert(span <= size);
    }
    min + offset as i32
}

/// A pseudo-random click offset inside a template of the given size, taken from the clock.
pub fn random_click_offset(size: i32) -> (r: i32)
    requires
        0 < size <= i32::MAX / 3,
    ensures
        offset_low(size) <= r < offset_low(size) + offset_span(size),
{
    let nanos = clock_nanos();
    random_click_offset_from_nanos(size, nanos)
}

// ----------------------------------------------------------------------------------------------
// Colors and pixels.
/// Absolute difference of two bytes.
pub open spec fn byte_diff(a: u8, b: u8) -> int {
    if a >= b {
        a - b
    } else {
        b - a
    }
}

/// Each channel is within the tolerance of the target's.
pub open spec fn within_tolerance(red: u8, green: u8, blue: u8, target: (u8, u8, u8), tolerance: u8) -> bool {
    &&& byte_diff(red, target.0) <= tolerance
    &&& byte_diff(green, target.1) <= tolerance
    &&& byte_diff(blue, target.2) <= tolerance
}

/// Whether each channel is within the tolerance of the target color.
pub fn color_within_tolerance(red: u8, green: u8, blue: u8, target: (u8, u8, u8), tolerance: u8) -> (r: bool)
    ensures
        r == within_tolerance(red, green, blue, target, tolerance),
{
    let dr = if red >= target.0 {
        red - target.0
    } else {
        target.0 - red
    };
    let dg = if green >= target.1 {
        green - target.1
    } else {
        target.1 - green
    };
    let db = if blue >= target.2 {
        blue - target.2
    } else {
        target.2 - blue
    };
    dr <= tolerance && dg <= tolerance && db <= tolerance
}

/// Index of the last pixel along an axis (0 for an empty axis).
pub open spec fn last_index(len: usize) -> int {
    if len > 0 {
        len - 1
    } else {
        0
    }
}

/// The next index along an axis, clamped to the last one.
pub open spec fn next_clamped(v: usize, len: usize) -> int {
    if v + 1 < last_index(len) {
        v + 1
    } else {
        last_index(len)
    }
}

/// The previous index along an axis, clamped at 0.
pub open spec fn prev_clamped(v: usize) -> int {
    if v > 0 {
        v - 1
    } else {
        0
    }
}

/// The four neighbors of a pixel, clamped to the image: left, right, up, down.
pub fn neighbors(x: usize, y: usize, width: usize, height: usize) -> (r: [(usize, usize); 4])
    ensures
        r@[0].0 == prev_clamped(x) && r@[0].1 == y,
        r@[1].0 == next_clamped(x, width) && r@[1].1 == y,
        r@[2].0 == x && r@[2].1 == prev_clamped(y),
        r@[3].0 == x && r@[3].1 == next_clamped(y, height),
{
    let last_x = if width > 0 {
        width - 1
    } else {
        0
    };
    let last_y = if height > 0 {
        height - 1
    } else {
        0
    };
    let left = if x > 0 {
        x - 1
    } else {
        0
    };
    let right = if x < last_x {
        x + 1
    } else {
        last_x
    };
    let up = if y > 0 {
        y - 1
    } else {
        0
    };
    let down = if y < last_y {
        y + 1
    } else {
        last_y
    };
    [(left, y), (right, y), (x, up), (x, down)]
}


// ----------------------------------------------------------------------------------------------
// Workflow integration.
/// Whether a profile runs as a live workflow: the injection backend with a workflow section.
pub open spec fn runs_live_workflow(profile: ProfileConfig) -> bool {
    profile.execution.backend == AdvancedProfileBackend::Inject && profile.workflow is Some
}

/// Whether a profile runs as a live workflow.
pub fn should_run_live_roblox_workflow(profile: &ProfileConfig) -> (r: bool)
    ensures
        r == runs_live_workflow(*profile),
{
    profile.execution.backend == AdvancedProfileBackend::Inject && profile.workflow.is_some()
}

/// Tick interval of a profile's workflow: its own when set and positive, else the schedule's.
pub open spec fn workflow_tick_ms(profile: ProfileConfig) -> u64 {
    match profile.workflow {
        Some(w) => if w.tick_interval_ms > 0 {
            w.tick_interval_ms
        } else {
            profile.schedule.every_ms
        },
        None => profile.schedule.every_ms,
    }
}

/// Tick interval of a profile's workflow.
pub fn profile_workflow_tick_interval_ms(profile: &ProfileConfig) -> (r: u64)
    ensures
        r == workflow_tick_ms(*profile),
{
    match &profile.workflow {
        Some(w) => if w.tick_interval_ms > 0 {
            w.tick_interval_ms
        } else {
            profile.schedule.every_ms
        },
        None => profile.schedule.every_ms,
    }
}

/// How a profile fits the shared workflow surface of the frontends.
#[derive(Debug, PartialEq, Eq)]
pub struct ProfileWorkflowIntegration {
    pub workflow_id: String,
    pub workflow_name: String,
    pub workflow_surface: String,
    pub frontend: AdvancedFrontend,
    pub target: AdvancedTargetRef,
    pub backend_selection: AdvancedBackendSelection,
    pub capability_selection: AdvancedCapabilitySelection,
    pub available_backends: Vec<AdvancedBackendDescriptor>,
}

/// The capability selection for a profile on a frontend's catalog.
pub fn describe_capability_selection(profile: &ProfileConfig, frontend: AdvancedFrontend) -> (r:
    AdvancedCapabilitySelection)
    ensures
        r.requirements == requirements_for_profile(*profile),
        r.selected_backend == selected_backend_spec(standard_entries(), requirements_for_profile(*profile)),
{
    let requirements = capability_requirements_for_profile(profile);
    let catalog = catalog_for_frontend(frontend);
    select_backend_by_capabilities(&catalog, &requirements)
}

/// Describes a profile on the shared workflow surface `profile_v1`: its id and name, the
/// frontend, the target its selector describes, the backend selection, the capability
/// selection and the frontend's catalog.
pub fn describe_profile_workflow(profile: &ProfileConfig, frontend: AdvancedFrontend) -> (r:
    ProfileWorkflowIntegration)
    ensures
        r.workflow_id@ == profile.profile.id@,
        r.workflow_name@ == profile.profile.name@,
        r.workflow_surface@ == "profile_v1"@,
        r.frontend == frontend,
        r.target == crate::backend::target_ref_of(profile.target),
        r.backend_selection == backend_selection_spec(*profile, frontend),
        r.capability_selection.requirements == requirements_for_profile(*profile),
        r.capability_selection.selected_backend == selected_backend_spec(
            standard_entries(),
            requirements_for_profile(*profile),
        ),
        r.available_backends@.map_values(
            |d: AdvancedBackendDescriptor| (d.backend, d.capabilities),
        ) == standard_entries(),
{
    let backend_selection = resolve_backend_selection(profile, frontend);
    let capability_selection = describe_capability_selection(profile, frontend);
    let catalog = catalog_for_frontend(frontend);
    proof {
        reveal_strlit("profile_v1");
    }
    ProfileWorkflowIntegration {
        workflow_id: profile.profile.id.clone(),
        workflow_name: profile.profile.name.clone(),
        workflow_surface: crate::text::string_of("profile_v1"),
        frontend,
        target: crate::backend::selector_into_target_ref(&profile.target),
        backend_selection,
        capability_selection,
        available_backends: catalog.backends,
    }
}

// ----------------------------------------------------------------------------------------------
// Decisions of the wait for the target.
/// What one search for the profile's target leads to.
#[derive(Debug, Clone, Copy, PartialEq, Eq, Structural)]
pub enum TargetSearchOutcome {
    /// The target was found; the run goes on with it.
    Acquired,
    /// Not found yet; search again after the poll interval.
    Retry,
}

/// Before each search: a stop request cancels the wait with an `Unsupported` error.
pub fn target_wait_cancelled(stop_requested: bool) -> (r: WinrResult<()>)
    ensures
        stop_requested ==> (r matches Err(e) && e is Unsupported && e->Unsupported_message@
            == "profile run cancelled before the target window appeared"@),
        !stop_requested ==> r is Ok,
{
    if stop_requested {
        Err(unsupported("profile run cancelled before the target window appeared"))
    } else {
        Ok(())
    }
}

/// A timeout is set and the elapsed time has reached it.
pub open spec fn wait_timed_out(elapsed_ms: u128, timeout_ms: Option<u128>) -> bool {
    match timeout_ms {
        Some(t) => elapsed_ms >= t,
        None => false,
    }
}

/// After each search: a found target is acquired; otherwise the wait ends with
/// `WindowNotFound` once a timeout is set and the elapsed time has reached it, and goes on
/// otherwise.
pub fn target_search_outcome(found: bool, elapsed_ms: u128, timeout_ms: Option<u128>) -> (r: WinrResult<
    TargetSearchOutcome,
>)
    ensures
        found ==> r matches Ok(TargetSearchOutcome::Acquired),
        !found && wait_timed_out(elapsed_ms, timeout_ms) ==> (r matches Err(e) && e is WindowNotFound),
        !found && !wait_timed_out(elapsed_ms, timeout_ms) ==> r matches Ok(TargetSearchOutcome::Retry),
{
    if found {
        return Ok(TargetSearchOutcome::Acquired);
    }
    match timeout_ms {
        Some(t) => {
            if elapsed_ms >= t {
                Err(WinrError::WindowNotFound)
            } else {
                Ok(TargetSearchOutcome::Retry)
            }
        },
        None => Ok(TargetSearchOutcome::Retry),
    }
}

// ----------------------------------------------------------------------------------------------
// Decisions of the trigger loop.
/// What the trigger loop does after checking the foreground window.
#[derive(Debug, Clone, Copy, PartialEq, Eq, Structural)]
pub enum FocusStep {
    /// Go on to the trigger.
    Proceed,
    /// Focus came back after a pause: report it and go on.
    Restored,
    /// The target lost focus: wait a poll interval and check again; `announce` on the first
    /// pause of a streak.
    Pause { announce: bool },
    /// The target lost focus and the profile stops on that.
    Stop,
}

/// State of a profile's trigger loop, with the settings its decisions read.
#[derive(Debug, Clone, Copy, PartialEq, Eq, Structural)]
pub struct ProfileTriggerLoop {
    pub fired: u64,
    pub detector_armed: bool,
    pub waiting_for_focus_return: bool,
    pub finished: bool,
    pub uses_detector: bool,
    pub require_foreground: bool,
    pub pause_on_focus_loss: bool,
    pub stop_on_focus_loss: bool,
    pub max_triggers: Option<u64>,
}

/// The most triggers a run with the given limit fires: the limit, or one for a zero limit
/// (the limit is checked after each trigger).
pub open spec fn trigger_cap(limit: u64) -> int {
    if limit == 0 {
        1
    } else {
        limit as int
    }
}

/// The loop respects its trigger limit: a running loop is below the limit (or has not fired
/// yet), and a finished one fired at most the cap.
pub open spec fn within_trigger_limit(s: ProfileTriggerLoop) -> bool {
    match s.max_triggers {
        Some(limit) => {
            &&& s.fired <= trigger_cap(limit)
            &&& !s.finished ==> (s.fired < limit || s.fired == 0)
        },
        None => true,
    }
}

/// A run never fires more triggers than its limit allows (one for a zero limit).
pub proof fn lemma_trigger_limit(s: ProfileTriggerLoop, limit: u64)
    requires
        within_trigger_limit(s),
        s.max_triggers == Some(limit),
    ensures
        s.fired <= trigger_cap(limit),
{
}

/// `Stopped` with the given count and reason.
fn stopped(count: u64, reason: &str) -> (r: ProfileRunEvent)
    ensures
        r matches ProfileRunEvent::Stopped { count: c, reason: text } && c == count && text@ == reason@,
{
    ProfileRunEvent::Stopped { count, reason: crate::text::string_of(reason) }
}

/// The two loops have the same settings: detector use, foreground requirement, reactions to
/// focus loss and trigger limit.
pub open spec fn same_settings(a: ProfileTriggerLoop, b: ProfileTriggerLoop) -> bool {
    &&& a.uses_detector == b.uses_detector
    &&& a.require_foreground == b.require_foreground
    &&& a.pause_on_focus_loss == b.pause_on_focus_loss
    &&& a.stop_on_focus_loss == b.stop_on_focus_loss
    &&& a.max_triggers == b.max_triggers
}

/// The loop after a stop request: finished, nothing else changed.
pub open spec fn stopped_state(s: ProfileTriggerLoop) -> ProfileTriggerLoop {
    ProfileTriggerLoop { finished: true, ..s }
}

/// The foreground check's step and the loop after it.
pub open spec fn focus_step(s: ProfileTriggerLoop, target_in_foreground: bool) -> (FocusStep, ProfileTriggerLoop) {
    if !s.require_foreground {
        (FocusStep::Proceed, s)
    } else if !target_in_foreground {
        if s.pause_on_focus_loss {
            (
                FocusStep::Pause { announce: !s.waiting_for_focus_return },
                ProfileTriggerLoop { waiting_for_focus_return: true, ..s },
            )
        } else if s.stop_on_focus_loss {
            (FocusStep::Stop, ProfileTriggerLoop { finished: true, ..s })
        } else {
            (FocusStep::Proceed, s)
        }
    } else if s.waiting_for_focus_return {
        (FocusStep::Restored, ProfileTriggerLoop { waiting_for_focus_return: false, ..s })
    } else {
        (FocusStep::Proceed, s)
    }
}

/// Whether a pass triggers, and the loop after the decision.
pub open spec fn trigger_step(s: ProfileTriggerLoop, detector_matched: bool) -> (bool, ProfileTriggerLoop) {
    if !s.uses_detector {
        (true, s)
    } else if detector_matched {
        (s.detector_armed, ProfileTriggerLoop { detector_armed: false, ..s })
    } else {
        (false, ProfileTriggerLoop { detector_armed: true, ..s })
    }
}

/// The loop after a trigger: one more fired, finished once the count reaches the limit.
pub open spec fn triggered_state(s: ProfileTriggerLoop) -> ProfileTriggerLoop {
    let fired = (s.fired + 1) as u64;
    ProfileTriggerLoop {
        fired,
        finished: match s.max_triggers {
            Some(limit) => fired >= limit,
            None => false,
        },
        ..s
    }
}

/// No step changes the loop's settings, and every step keeps it within its trigger limit; so
/// a run with a limit never fires more than the limit allows, over any number of passes.
pub proof fn lemma_steps_keep_settings_and_limit(
    s: ProfileTriggerLoop,
    target_in_foreground: bool,
    detector_matched: bool,
)
    requires
        within_trigger_limit(s),
    ensures
        same_settings(s, stopped_state(s)) && within_trigger_limit(stopped_state(s)),
        same_settings(s, focus_step(s, target_in_foreground).1) && within_trigger_limit(
            focus_step(s, target_in_foreground).1,
        ),
        same_settings(s, trigger_step(s, detector_matched).1) && within_trigger_limit(
            trigger_step(s, detector_matched).1,
        ),
        !s.finished && s.fired < u64::MAX ==> same_settings(s, triggered_state(s))
            && within_trigger_limit(triggered_state(s)),
        s.max_triggers matches Some(limit) ==> s.fired <= trigger_cap(limit),
{
}

/// One appearance of the detector's target triggers once: after a matched pass the detector is
/// disarmed; the foreground check and counting a trigger leave it disarmed; and a matched pass
/// while disarmed does not trigger. Only a pass without a match re-arms it.
pub proof fn lemma_one_trigger_per_appearance(s: ProfileTriggerLoop, target_in_foreground: bool)
    requires
        s.uses_detector,
    ensures
        !trigger_step(s, true).1.detector_armed,
        focus_step(trigger_step(s, true).1, target_in_foreground).1.detector_armed
            == trigger_step(s, true).1.detector_armed,
        triggered_state(trigger_step(s, true).1).detector_armed == trigger_step(s, true).1.detector_armed,
        forall|t: ProfileTriggerLoop|
            t.uses_detector && !t.detector_armed ==> !(#[trigger] trigger_step(t, true)).0
                && !trigger_step(t, true).1.detector_armed,
        trigger_step(s, false).1.detector_armed,
{
}

impl ProfileTriggerLoop {
    /// The loop of a validated profile: nothing fired, detector armed, not paused.
    pub fn new(profile: &ProfileConfig, options: &ProfileRunOptions) -> (r: Self)
        ensures
            r.fired == 0,
            r.detector_armed,
            !r.waiting_for_focus_return,
            !r.finished,
            r.uses_detector == profile.detector is Some,
            r.require_foreground == profile.safety.require_foreground_window,
            r.pause_on_focus_loss == profile.safety.pause_on_focus_loss,
            r.stop_on_focus_loss == profile.safety.stop_on_focus_loss,
            r.max_triggers == options.max_triggers,
            within_trigger_limit(r),
    {
        ProfileTriggerLoop {
            fired: 0,
            detector_armed: true,
            waiting_for_focus_return: false,
            finished: false,
            uses_detector: profile.detector.is_some(),
            require_foreground: profile.safety.require_foreground_window,
            pause_on_focus_loss: profile.safety.pause_on_focus_loss,
            stop_on_focus_loss: profile.safety.stop_on_focus_loss,
            max_triggers: options.max_triggers,
        }
    }

    /// A stop was requested: the loop finishes with the count so far.
    pub fn stop_requested(&mut self) -> (r: ProfileRunEvent)
        requires
            within_trigger_limit(*old(self)),
        ensures
            *final(self) == stopped_state(*old(self)),
            final(self).finished,
            final(self).fired == old(self).fired,
            r matches ProfileRunEvent::Stopped { count, reason } && count == old(self).fired
                && reason@ == "received ctrl+c"@,
            within_trigger_limit(*final(self)),
    {
        self.finished = true;
        proof {
            reveal_strlit("received ctrl+c");
        }
        stopped(self.fired, "received ctrl+c")
    }

    /// Decides on the foreground check. Without the foreground requirement the loop proceeds.
    /// With it, a target out of focus pauses the loop (announced once per streak) when the
    /// profile pauses on focus loss, stops it when the profile stops on focus loss, and is
    /// ignored otherwise; a target back in focus after a pause is reported restored.
    pub fn focus_observed(&mut self, target_in_foreground: bool) -> (r: FocusStep)
        requires
            within_trigger_limit(*old(self)),
        ensures
            (r, *final(self)) == focus_step(*old(self), target_in_foreground),
            within_trigger_limit(*final(self)),
            final(self).fired == old(self).fired,
            final(self).detector_armed == old(self).detector_armed,
            !old(self).require_foreground ==> r == FocusStep::Proceed && *final(self) == *old(self),
            old(self).require_foreground && !target_in_foreground && old(self).pause_on_focus_loss
                ==> r == (FocusStep::Pause { announce: !old(self).waiting_for_focus_return })
                && final(self).waiting_for_focus_return && !final(self).finished == !old(self).finished,
            old(self).require_foreground && !target_in_foreground && !old(self).pause_on_focus_loss
                && old(self).stop_on_focus_loss ==> r == FocusStep::Stop && final(self).finished,
            old(self).require_foreground && !target_in_foreground && !old(self).pause_on_focus_loss
                && !old(self).stop_on_focus_loss ==> r == FocusStep::Proceed && *final(self) == *old(
                self,
            ),
            old(self).require_foreground && target_in_foreground ==> !final(self).waiting_for_focus_return
                && final(self).finished == old(self).finished && r == (if old(
                self,
            ).waiting_for_focus_return {
                FocusStep::Restored
            } else {
                FocusStep::Proceed
            }),
    {
        if !self.require_foreground {
            return FocusStep::Proceed;
        }
        if !target_in_foreground {
            if self.pause_on_focus_loss {
                let announce = !self.waiting_for_focus_return;
                self.waiting_for_focus_return = true;
                return FocusStep::Pause { announce };
            }
            if self.stop_on_focus_loss {
                self.finished = true;
                return FocusStep::Stop;
            }
            return FocusStep::Proceed;
        }
        if self.waiting_for_focus_return {
            self.waiting_for_focus_return = false;
            return FocusStep::Restored;
        }
        FocusStep::Proceed
    }

    /// The `Stopped` event of a stop on focus loss.
    pub fn focus_lost_event(&self) -> (r: ProfileRunEvent)
        ensures
            r matches ProfileRunEvent::Stopped { count, reason } && count == self.fired && reason@
                == "target lost foreground"@,
    {
        proof {
            reveal_strlit("target lost foreground");
        }
        stopped(self.fired, "target lost foreground")
    }

    /// Decides whether to trigger now. Without a detector every pass triggers. With one, a
    /// match triggers only while armed and disarms; a pass without a match re-arms, so one
    /// appearance triggers once.
    pub fn trigger_decision(&mut self, detector_matched: bool) -> (r: bool)
        requires
            within_trigger_limit(*old(self)),
        ensures
            (r, *final(self)) == trigger_step(*old(self), detector_matched),
            within_trigger_limit(*final(self)),
            final(self).fired == old(self).fired,
            final(self).finished == old(self).finished,
            final(self).waiting_for_focus_return == old(self).waiting_for_focus_return,
            !old(self).uses_detector ==> r && final(self).detector_armed == old(self).detector_armed,
            old(self).uses_detector && detector_matched ==> r == old(self).detector_armed
                && !final(self).detector_armed,
            old(self).uses_detector && !detector_matched ==> !r && final(self).detector_armed,
    {
        if !self.uses_detector {
            return true;
        }
        if detector_matched {
            let fire = self.detector_armed;
            self.detector_armed = false;
            fire
        } else {
            self.detector_armed = true;
            false
        }
    }

    /// Counts a trigger and reports it; the loop finishes, with a `Stopped` event, when the
    /// count reaches the trigger limit.
    pub fn triggered(&mut self) -> (r: (ProfileRunEvent, Option<ProfileRunEvent>))
        requires
            within_trigger_limit(*old(self)),
            !old(self).finished,
            old(self).fired < u64::MAX,
        ensures
            *final(self) == triggered_state(*old(self)),
            within_trigger_limit(*final(self)),
            final(self).fired == old(self).fired + 1,
            r.0 == (ProfileRunEvent::TriggerFired { count: final(self).fired }),
            match old(self).max_triggers {
                Some(limit) => if final(self).fired >= limit {
                    final(self).finished && (r.1 matches Some(ProfileRunEvent::Stopped { count, reason })
                        && count == final(self).fired && reason@ == "reached max_triggers"@)
                } else {
                    !final(self).finished && r.1 is None
                },
                None => !final(self).finished && r.1 is None,
            },
            final(self).detector_armed == old(self).detector_armed,
    {
        self.fired = self.fired + 1;
        let fired_event = ProfileRunEvent::TriggerFired { count: self.fired };
        let stop = match self.max_triggers {
            Some(limit) => if self.fired >= limit {
                self.finished = true;
                proof {
                    reveal_strlit("reached max_triggers");
                }
                Some(stopped(self.fired, "reached max_triggers"))
            } else {
                None
            },
            None => None,
        };
        (fired_event, stop)
    }
}

} // verus!
