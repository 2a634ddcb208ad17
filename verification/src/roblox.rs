//! The live Roblox patrol workflow: what an inspection of a live session reports, how
//! semantic actions map to injected input, and the fixed patrol geometry and tuning.
use vstd::prelude::*;

use std::time::Duration;

use crate::perception::ObservationSourceKind;
use crate::protocol::{
    AdvancedAttachableTarget, AdvancedAttachmentHealthStatus, AdvancedBackendLifecycleState,
    AdvancedCommandAckStatus, AdvancedExecutionReason, AdvancedProfileBackend, AdvancedSessionId,
    InjectedInputAction,
};
use crate::session::{AdvancedBackendSession, AdvancedCommandRecord};
use crate::text::{string_of, string_from_chars};
use crate::types::{Rect, WindowInfo};
use crate::workflows::{
    AppPackMovementTuning, NavigationControllerConfig, SemanticInputAction, WorkflowExecutionTrace,
};

verus! {

/// Pacing of a live workflow run.
#[derive(Debug, Clone, Copy, PartialEq, Eq)]
pub struct LiveRobloxRunOptions {
    pub poll_interval: Duration,
    pub max_steps: Option<u64>,
}

/// What the latest live observation showed.
#[derive(Debug, PartialEq, Eq)]
pub struct LiveObservationSummary {
    pub frame_id: u64,
    pub source: String,
    pub freshness_ms: u64,
    pub player_position_millimeters: Option<[i32; 3]>,
    pub patrol_region_anchor_millimeters: Option<[i32; 3]>,
    pub patrol_region_radius_millimeters: Option<u32>,
    pub prompt_visible: Option<bool>,
    pub entities: Vec<String>,
}

/// Operator-facing state of a live session.
#[derive(Debug, PartialEq, Eq)]
pub struct LiveSessionInspection {
    pub workflow_id: String,
    pub session_id: AdvancedSessionId,
    pub lifecycle_state: AdvancedBackendLifecycleState,
    pub backend: AdvancedProfileBackend,
    pub attachment_status: AdvancedAttachmentHealthStatus,
    pub observation: Option<LiveObservationSummary>,
    pub recent_events: Vec<AdvancedCommandRecord>,
    pub reasoning: Option<AdvancedExecutionReason>,
    pub last_rejected_command: Option<AdvancedCommandRecord>,
}

/// How many recent command records an inspection shows.
pub open spec fn recent_window(n: nat) -> nat {
    if n < 10 {
        n
    } else {
        10
    }
}

/// `i` is the position of the latest rejected record.
pub open spec fn latest_rejected_at(records: Seq<AdvancedCommandRecord>, i: int) -> bool {
    &&& 0 <= i < records.len()
    &&& records[i].status == AdvancedCommandAckStatus::Rejected
    &&& forall|j: int| i < j < records.len() ==> #[trigger] records[j].status != AdvancedCommandAckStatus::Rejected
}

/// The latest rejected command record, if any.
pub fn latest_rejected_command(records: &Vec<AdvancedCommandRecord>) -> (r: Option<AdvancedCommandRecord>)
    ensures
        match r {
            Some(rec) => exists|i: int| latest_rejected_at(records@, i) && records@[i] == rec,
            None => forall|i: int|
                0 <= i < records@.len() ==> #[trigger] records@[i].status != AdvancedCommandAckStatus::Rejected,
        },
{
    let mut i: usize = records.len();
    while i > 0
        invariant
            i <= records.len(),
            forall|j: int| i <= j < records@.len() ==> #[trigger] records@[j].status != AdvancedCommandAckStatus::Rejected,
        decreases i,
    {
        if records[i - 1].status == AdvancedCommandAckStatus::Rejected {
            proof {
                assert(latest_rejected_at(records@, i - 1));
            }
            return Some(records[i - 1].clone());
        }
        i = i - 1;
    }
    None
}

/// Inspects a live session: its identity, lifecycle and backend, the attachment's status, the
/// latest observation, the latest (up to) ten command records oldest first, the session's
/// reasoning or else the trace's, and the latest rejected command.
pub fn inspect_live_roblox_session(
    session: &AdvancedBackendSession,
    attachment_status: AdvancedAttachmentHealthStatus,
    observation: Option<LiveObservationSummary>,
    trace: &WorkflowExecutionTrace,
) -> (r: LiveSessionInspection)
    ensures
        r.workflow_id@ == "region-patrol-live"@,
        r.session_id == session.session_id,
        r.lifecycle_state == session.hello.lifecycle_state,
        r.backend == session.hello.backend,
        r.attachment_status == attachment_status,
        r.observation == observation,
        r.recent_events@ == session.command_records@.subrange(
            session.command_records@.len() - recent_window(session.command_records@.len()),
            session.command_records@.len() as int,
        ),
        match session.last_reasoning {
            Some(reason) => r.reasoning matches Some(x) && x.summary == reason.summary && x.basis@
                == reason.basis@,
            None => (r.reasoning is None) == (trace.events@.len() == 0),
        },
        match r.last_rejected_command {
            Some(rec) => exists|i: int| latest_rejected_at(session.command_records@, i) && session.command_records@[i] == rec,
            None => forall|i: int|
                0 <= i < session.command_records@.len() ==> #[trigger] session.command_records@[i].status
                    != AdvancedCommandAckStatus::Rejected,
        },
{
    let records = &session.command_records;
    let n = records.len();
    let start = if n < 10 {
        0
    } else {
        n - 10
    };
    let mut recent: Vec<AdvancedCommandRecord> = Vec::new();
    let mut i: usize = start;
    while i < n
        invariant
            start <= i <= n,
            n == records@.len(),
            start == n - recent_window(n as nat),
            recent@ == records@.subrange(start as int, i as int),
        decreases n - i,
    {
        recent.push(records[i].clone());
        proof {
            assert(recent@ =~= records@.subrange(start as int, i + 1));
        }
        i = i + 1;
    }
    let reasoning = match &session.last_reasoning {
        Some(reason) => Some(reason.clone()),
        None => trace.reasoning(),
    };
    proof {
        reveal_strlit("region-patrol-live");
    }
    LiveSessionInspection {
        workflow_id: string_of("region-patrol-live"),
        session_id: session.session_id,
        lifecycle_state: session.hello.lifecycle_state,
        backend: session.hello.backend,
        attachment_status,
        observation,
        recent_events: recent,
        reasoning,
        last_rejected_command: latest_rejected_command(records),
    }
}

/// The injected input an action maps to; approaching, walking, strafing left, moving back,
/// looking and holding have no injected form.
pub open spec fn injected_form(action: SemanticInputAction) -> Option<InjectedInputAction> {
    match action {
        SemanticInputAction::MoveForward { duration_ms } => Some(
            InjectedInputAction::MoveForward { duration_ms },
        ),
        SemanticInputAction::StopMotion => Some(InjectedInputAction::StopMotion),
        SemanticInputAction::Turn { delta_yaw_milli_degrees } => Some(
            InjectedInputAction::Turn { delta_yaw_milli_degrees },
        ),
        SemanticInputAction::Interact => Some(InjectedInputAction::Interact),
        SemanticInputAction::Jump => Some(InjectedInputAction::Jump),
        SemanticInputAction::StrafeRight { duration_ms } => Some(
            InjectedInputAction::StrafeRight { duration_ms },
        ),
        _ => None,
    }
}

/// Maps a semantic action to injected input.
pub fn map_injected_input_action(action: &SemanticInputAction) -> (r: Option<InjectedInputAction>)
    ensures
        r == injected_form(*action),
{
    match action {
        SemanticInputAction::MoveForward { duration_ms } => Some(
            InjectedInputAction::MoveForward { duration_ms: *duration_ms },
        ),
        SemanticInputAction::StopMotion => Some(InjectedInputAction::StopMotion),
        SemanticInputAction::Turn { delta_yaw_milli_degrees } => Some(
            InjectedInputAction::Turn { delta_yaw_milli_degrees: *delta_yaw_milli_degrees },
        ),
        SemanticInputAction::Interact => Some(InjectedInputAction::Interact),
        SemanticInputAction::Jump => Some(InjectedInputAction::Jump),
        SemanticInputAction::StrafeRight { duration_ms } => Some(
            InjectedInputAction::StrafeRight { duration_ms: *duration_ms },
        ),
        _ => None,
    }
}

/// Id of the patrol waypoint with the given index.
pub open spec fn waypoint_id(k: int) -> Seq<char> {
    if k == 0 {
        "live-patrol-waypoint-0"@
    } else if k == 1 {
        "live-patrol-waypoint-1"@
    } else if k == 2 {
        "live-patrol-waypoint-2"@
    } else {
        "live-patrol-waypoint-3"@
    }
}

/// The four patrol waypoint ids rotated left by the step index.
pub fn rotated_waypoint_ids(step_index: u64) -> (r: Vec<String>)
    ensures
        r@.len() == 4,
        forall|k: int| 0 <= k < 4 ==> (#[trigger] r@[k])@ == waypoint_id((k + step_index as int) % 4),
{
    let shift: u64 = step_index % 4;
    let mut ids: Vec<String> = Vec::new();
    let mut k: u64 = 0;
    while k < 4
        invariant
            k <= 4,
            shift == step_index % 4,
            ids@.len() == k,
            forall|m: int| 0 <= m < k ==> (#[trigger] ids@[m])@ == waypoint_id((m + step_index as int) % 4),
        decreases 4 - k,
    {
        let index = (k + shift) % 4;
        let id = match index {
            0 => string_of("live-patrol-waypoint-0"),
            1 => string_of("live-patrol-waypoint-1"),
            2 => string_of("live-patrol-waypoint-2"),
            _ => string_of("live-patrol-waypoint-3"),
        };
        proof {
            assert((k + step_index as int) % 4 == index as int) by (nonlinear_arith)
                requires
                    shift == step_index % 4,
                    index == (k + shift) % 4,
            ;
            assert(id@ == waypoint_id(index as int));
        }
        ids.push(id);
        k = k + 1;
    }
    ids
}

/// Navigation tuning taken from a pack: its arrival threshold, move step, turn step and stuck
/// window, with a heading tolerance of 5000 md and a stuck epsilon of 80 mm.
pub fn navigation_config_from_pack(tuning: &AppPackMovementTuning) -> (r: NavigationControllerConfig)
    ensures
        r.arrival_threshold_millimeters == tuning.arrival_threshold_millimeters,
        r.heading_tolerance_milli_degrees == 5000,
        r.move_step_ms == tuning.move_step_ms,
        r.turn_step_milli_degrees == tuning.turn_step_milli_degrees,
        r.stuck_distance_epsilon_millimeters == 80,
        r.stuck_frame_window == tuning.stuck_frame_window,
{
    NavigationControllerConfig {
        arrival_threshold_millimeters: tuning.arrival_threshold_millimeters,
        heading_tolerance_milli_degrees: 5000,
        move_step_ms: tuning.move_step_ms,
        turn_step_milli_degrees: tuning.turn_step_milli_degrees,
        stuck_distance_epsilon_millimeters: 80,
        stuck_frame_window: tuning.stuck_frame_window,
    }
}

/// The value a radius has once taken as an `i32`: itself up to `i32::MAX`, wrapped below zero
/// above it.
pub open spec fn signed_radius(radius: u32) -> int {
    if radius <= i32::MAX {
        radius as int
    } else {
        radius as int - 0x1_0000_0000
    }
}

/// The anchor moved by the radius (taken as an `i32`) each way along x and z stays within
/// `i32` coordinates.
pub open spec fn patrol_moves_fit(anchor: [i32; 3], radius: u32) -> bool {
    &&& i32::MIN <= anchor[0] + signed_radius(radius) <= i32::MAX
    &&& i32::MIN <= anchor[0] - signed_radius(radius) <= i32::MAX
    &&& i32::MIN <= anchor[2] + signed_radius(radius) <= i32::MAX
    &&& i32::MIN <= anchor[2] - signed_radius(radius) <= i32::MAX
}

/// The four patrol waypoints around an anchor: east, north, west and south at the radius,
/// taken as an `i32`.
pub fn patrol_waypoints(anchor: [i32; 3], radius_millimeters: u32) -> (r: Vec<[i32; 3]>)
    requires
        patrol_moves_fit(anchor, radius_millimeters),
    ensures
        r@.len() == 4,
        r@[0]@ == seq![(anchor[0] + signed_radius(radius_millimeters)) as i32, anchor[1], anchor[2]],
        r@[1]@ == seq![anchor[0], anchor[1], (anchor[2] + signed_radius(radius_millimeters)) as i32],
        r@[2]@ == seq![(anchor[0] - signed_radius(radius_millimeters)) as i32, anchor[1], anchor[2]],
        r@[3]@ == seq![anchor[0], anchor[1], (anchor[2] - signed_radius(radius_millimeters)) as i32],
{
    let x = anchor[0];
    let y = anchor[1];
    let z = anchor[2];
    let radius = radius_millimeters as i32;
    proof {
        assert(radius_millimeters <= 0x7fff_ffff ==> radius_millimeters as i32 == radius_millimeters) by (bit_vector);
        assert(radius_millimeters > 0x7fff_ffff ==> radius_millimeters as i32 == radius_millimeters - 0x1_0000_0000)
            by (bit_vector);
        assert(radius == signed_radius(radius_millimeters));
    }
    let mut out: Vec<[i32; 3]> = Vec::new();
    out.push([x + radius, y, z]);
    out.push([x, y, z + radius]);
    out.push([x - radius, y, z]);
    out.push([x, y, z - radius]);
    proof {
        let d = signed_radius(radius_millimeters);
        assert(out@[0]@ =~= seq![(anchor[0] + d) as i32, anchor[1], anchor[2]]);
        assert(out@[1]@ =~= seq![anchor[0], anchor[1], (anchor[2] + d) as i32]);
        assert(out@[2]@ =~= seq![(anchor[0] - d) as i32, anchor[1], anchor[2]]);
        assert(out@[3]@ =~= seq![anchor[0], anchor[1], (anchor[2] - d) as i32]);
    }
    out
}

/// The window record of an attachable target: its handle (all zeros when unknown), PID (0 when
/// unknown), title, class, exe and flags, with an empty rectangle.
pub fn attachable_target_into_window_info(target: &AdvancedAttachableTarget) -> (r: WindowInfo)
    ensures
        r.hwnd@ == match target.target.hwnd {
            Some(h) => h@,
            None => "0x0000000000000000"@,
        },
        r.pid == match target.target.pid {
            Some(p) => p,
            None => 0,
        },
        r.title == target.title,
        r.class_name == target.class_name,
        r.exe == target.exe,
        r.visible == target.visible,
        r.minimized == target.minimized,
        r.foreground == target.foreground,
        r.rect == (Rect { left: 0, top: 0, right: 0, bottom: 0 }),
{
    WindowInfo {
        hwnd: match &target.target.hwnd {
            Some(h) => h.clone(),
            None => string_of("0x0000000000000000"),
        },
        pid: match target.target.pid {
            Some(p) => p,
            None => 0,
        },
        title: target.title.clone(),
        class_name: target.class_name.clone(),
        exe: crate::types::clone_opt_string(&target.exe),
        visible: target.visible,
        minimized: target.minimized,
        foreground: target.foreground,
        rect: Rect { left: 0, top: 0, right: 0, bottom: 0 },
    }
}

/// Short name of an observation source.
pub open spec fn source_name(kind: ObservationSourceKind) -> Seq<char> {
    match kind {
        ObservationSourceKind::DesktopScreenshot => "desktop"@,
        ObservationSourceKind::RenderHookFrame => "render-hook"@,
        ObservationSourceKind::MemoryState => "memory"@,
        ObservationSourceKind::DetectorOverlay => "overlay"@,
    }
}

/// Short name of an observation source.
pub fn frame_source_name(kind: ObservationSourceKind) -> (r: String)
    ensures
        r@ == source_name(kind),
{
    match kind {
        ObservationSourceKind::DesktopScreenshot => string_of("desktop"),
        ObservationSourceKind::RenderHookFrame => string_of("render-hook"),
        ObservationSourceKind::MemoryState => string_of("memory"),
        ObservationSourceKind::DetectorOverlay => string_of("overlay"),
    }
}

/// Whether a live run takes another step: below its step budget (64 without one), no stop
/// requested, and the latest command not rejected.
pub open spec fn live_run_continues(
    executed_steps: u64,
    max_steps: Option<u64>,
    stop_requested: bool,
    last_rejected: bool,
) -> bool {
    let budget = match max_steps {
        Some(m) => m,
        None => 64,
    };
    executed_steps < budget && !stop_requested && !last_rejected
}

/// Decides whether a live run takes another step.
pub fn live_run_should_step(
    executed_steps: u64,
    options: &LiveRobloxRunOptions,
    stop_requested: bool,
    last_rejected: bool,
) -> (r: bool)
    ensures
        r == live_run_continues(executed_steps, options.max_steps, stop_requested, last_rejected),
{
    let budget = match options.max_steps {
        Some(m) => m,
        None => 64,
    };
    executed_steps < budget && !stop_requested && !last_rejected
}

} // verus!
