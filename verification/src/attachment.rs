//! Attachable-target selection and the attachment supervisor: how a discovery resolves to one
//! target, and how heartbeats, re-attachment and detaching move the attachment's health.
use vstd::prelude::*;

use crate::protocol::{
    attachable_same, AdvancedAttachableTarget, AdvancedAttachment, AdvancedAttachmentEvent,
    AdvancedAttachmentHealth, AdvancedAttachmentHealthStatus, AdvancedAttachmentPolicy,
    AdvancedReattachMode, AdvancedTargetDiscovery,
};
use crate::text::{decimal_digits, push_all, push_str, string_from_chars, string_of, u64_to_decimal};
use crate::types::{
    check_opt_contains_ignore_case, check_opt_eq_ignore_case, check_opt_eq_ignore_case_opt,
    error_message, opt_contains_ignore_case, opt_eq_ignore_case, opt_eq_ignore_case_opt,
    unsupported_chars, WindowSelector, WinrError, WinrResult,
};

verus! {

/// When a window selector selects an attachable target: HWND, class and exe equal ignoring
/// ASCII case, PID equal, title containing the criterion case-insensitively.
pub open spec fn attachable_matches(selector: WindowSelector, target: AdvancedAttachableTarget) -> bool {
    &&& opt_eq_ignore_case_opt(selector.hwnd, target.target.hwnd)
    &&& (selector.pid matches Some(pid) ==> target.target.pid == Some(pid))
    &&& opt_contains_ignore_case(selector.title_contains, target.title@)
    &&& opt_eq_ignore_case(selector.class_name, target.class_name@)
    &&& opt_eq_ignore_case_opt(selector.exe, target.exe)
}

impl WindowSelector {
    /// Whether the attachable target meets every criterion of the selector.
    pub fn matches_attachable_target(&self, target: &AdvancedAttachableTarget) -> (r: bool)
        ensures
            r == attachable_matches(*self, *target),
    {
        check_opt_eq_ignore_case_opt(&self.hwnd, &target.target.hwnd) && match self.pid {
            Some(pid) => match target.target.pid {
                Some(p) => p == pid,
                None => false,
            },
            None => true,
        } && check_opt_contains_ignore_case(&self.title_contains, &target.title)
            && check_opt_eq_ignore_case(&self.class_name, &target.class_name)
            && check_opt_eq_ignore_case_opt(&self.exe, &target.exe)
    }
}

/// Message of the error for a discovery with several candidates.
pub open spec fn ambiguous_targets_message(count: nat) -> Seq<char> {
    decimal_digits(count) + " attachable targets matched the advanced backend selector"@
}

/// What resolving a discovery yields: `WindowNotFound` without candidates, the candidate when
/// there is exactly one, and `Unsupported` naming the count when there are several.
pub open spec fn resolution_ok(discovery: AdvancedTargetDiscovery, r: WinrResult<AdvancedAttachableTarget>) -> bool {
    let n = discovery.candidates@.len();
    if n == 0 {
        r == Err::<AdvancedAttachableTarget, WinrError>(WinrError::WindowNotFound)
    } else if n == 1 {
        r matches Ok(t) && attachable_same(t, discovery.candidates@[0])
    } else {
        r matches Err(e) && e is Unsupported && error_message(e) == "unsupported operation: "@
            + ambiguous_targets_message(n)
    }
}

/// Resolves a discovery to its single candidate.
pub fn resolve_attachable_target(discovery: &AdvancedTargetDiscovery) -> (r: WinrResult<
    AdvancedAttachableTarget,
>)
    ensures
        resolution_ok(*discovery, r),
        r is Err && discovery.candidates@.len() > 1 ==> r->Err_0->Unsupported_message@
            == ambiguous_targets_message(discovery.candidates@.len()),
{
    let n = discovery.candidates.len();
    if n == 0 {
        return Err(WinrError::WindowNotFound);
    }
    if n == 1 {
        return Ok(discovery.candidates[0].clone());
    }
    let mut message: Vec<char> = Vec::new();
    let digits = u64_to_decimal(n as u64);
    push_all(&mut message, &digits);
    push_str(&mut message, " attachable targets matched the advanced backend selector");
    proof {
        assert(message@ =~= ambiguous_targets_message(n as nat));
    }
    let error = unsupported_chars(&message);
    proof {
        reveal_strlit("unsupported operation: ");
    }
    Err(error)
}


/// Supervises one attachment: its target, policy and health.
#[derive(Debug, PartialEq, Eq)]
pub struct AttachmentSupervisor {
    pub attachment: AdvancedAttachment,
}

/// Status after `failures` consecutive failed heartbeats: lost from the policy's threshold on,
/// stale before it.
pub open spec fn status_after_failures(failures: nat, policy: AdvancedAttachmentPolicy) -> AdvancedAttachmentHealthStatus {
    if failures >= policy.heartbeat_failure_threshold {
        AdvancedAttachmentHealthStatus::Lost
    } else {
        AdvancedAttachmentHealthStatus::Stale
    }
}

/// A healthy record: no failures, no error.
pub open spec fn healthy(health: AdvancedAttachmentHealth) -> bool {
    &&& health.status == AdvancedAttachmentHealthStatus::Healthy
    &&& health.heartbeat_failures == 0
    &&& health.last_error is None
}

/// The attachment after one more failed heartbeat with the given detail: the failure count
/// grows by one, the status follows the threshold, the detail becomes the last error, and
/// nothing else changes.
pub open spec fn failure_registered(
    before: AdvancedAttachment,
    after: AdvancedAttachment,
    detail: Seq<char>,
) -> bool {
    &&& after.selector == before.selector
    &&& after.policy == before.policy
    &&& after.target == before.target
    &&& after.health.heartbeat_failures == before.health.heartbeat_failures + 1
    &&& after.health.status == status_after_failures(
        after.health.heartbeat_failures as nat,
        before.policy,
    )
    &&& after.health.last_error matches Some(e) && e@ == detail
}

/// Whether a heartbeat with this discovery outcome fails: discovery failed, the discovery does
/// not resolve to one target, or the target's process changed while re-attaching is off.
pub open spec fn heartbeat_fails(
    attachment: AdvancedAttachment,
    discovery: WinrResult<AdvancedTargetDiscovery>,
) -> bool {
    match discovery {
        Err(_) => true,
        Ok(d) => d.candidates@.len() != 1 || (d.candidates@[0].target.pid
            != attachment.target.target.pid && attachment.policy.reattach_mode
            == AdvancedReattachMode::Never),
    }
}

/// The detail recorded for a failed heartbeat.
pub open spec fn heartbeat_failure_detail(discovery: WinrResult<AdvancedTargetDiscovery>) -> Seq<char> {
    match discovery {
        Err(e) => error_message(e),
        Ok(d) => if d.candidates@.len() == 0 {
            error_message(WinrError::WindowNotFound)
        } else if d.candidates@.len() > 1 {
            "unsupported operation: "@ + ambiguous_targets_message(d.candidates@.len())
        } else {
            "target process changed and reattach is disabled"@
        },
    }
}

impl AttachmentSupervisor {
    /// Attaches to the single target of a discovery with a healthy record; a failed discovery
    /// or one that does not resolve to a single target is returned as the error.
    pub fn attach(
        selector: &WindowSelector,
        policy: AdvancedAttachmentPolicy,
        discovery: WinrResult<AdvancedTargetDiscovery>,
    ) -> (r: WinrResult<(Self, AdvancedAttachmentEvent)>)
        ensures
            match discovery {
                Err(e) => r == Err::<(Self, AdvancedAttachmentEvent), WinrError>(e),
                Ok(d) => match r {
                    Ok((sup, event)) => {
                        &&& d.candidates@.len() == 1
                        &&& sup.attachment.selector == *selector
                        &&& sup.attachment.policy == policy
                        &&& attachable_same(sup.attachment.target, d.candidates@[0])
                        &&& healthy(sup.attachment.health)
                        &&& event matches AdvancedAttachmentEvent::Attached { target } && attachable_same(
                            target,
                            d.candidates@[0],
                        )
                    },
                    Err(e) => resolution_ok(d, Err(e)),
                },
            },
    {
        let discovery = match discovery {
            Ok(d) => d,
            Err(e) => {
                return Err(e);
            },
        };
        let target = match resolve_attachable_target(&discovery) {
            Ok(t) => t,
            Err(e) => {
                return Err(e);
            },
        };
        let event_target = target.clone();
        let attachment = AdvancedAttachment {
            selector: selector.clone(),
            policy,
            target,
            health: AdvancedAttachmentHealth {
                status: AdvancedAttachmentHealthStatus::Healthy,
                heartbeat_failures: 0,
                last_error: None,
            },
        };
        Ok((AttachmentSupervisor { attachment }, AdvancedAttachmentEvent::Attached { target: event_target }))
    }

    /// Records one more failed heartbeat with the given detail.
    pub fn register_heartbeat_failure(&mut self, detail: String)
        requires
            old(self).attachment.health.heartbeat_failures < u32::MAX,
        ensures
            failure_registered(old(self).attachment, final(self).attachment, detail@),
    {
        let failures = self.attachment.health.heartbeat_failures + 1;
        let status = if failures >= self.attachment.policy.heartbeat_failure_threshold {
            AdvancedAttachmentHealthStatus::Lost
        } else {
            AdvancedAttachmentHealthStatus::Stale
        };
        self.attachment.health = AdvancedAttachmentHealth {
            status,
            heartbeat_failures: failures,
            last_error: Some(detail),
        };
    }

    /// Records a failure and reports it.
    fn fail(&mut self, detail: String) -> (r: AdvancedAttachmentEvent)
        requires
            old(self).attachment.health.heartbeat_failures < u32::MAX,
        ensures
            failure_registered(old(self).attachment, final(self).attachment, detail@),
            r matches AdvancedAttachmentEvent::HeartbeatFailed { detail: d, failures } && d@ == detail@
                && failures == final(self).attachment.health.heartbeat_failures,
    {
        let reported = detail.clone();
        self.register_heartbeat_failure(detail);
        AdvancedAttachmentEvent::HeartbeatFailed {
            detail: reported,
            failures: self.attachment.health.heartbeat_failures,
        }
    }

    /// Checks the attachment against a fresh discovery of its selector. A single candidate in
    /// the same process refreshes the target and restores health; one in another process does
    /// so too when the policy re-attaches restarted processes; anything else counts as a failed
    /// heartbeat.
    pub fn heartbeat(&mut self, discovery: WinrResult<AdvancedTargetDiscovery>) -> (r:
        AdvancedAttachmentEvent)
        requires
            heartbeat_fails(old(self).attachment, discovery)
                ==> old(self).attachment.health.heartbeat_failures < u32::MAX,
        ensures
            if heartbeat_fails(old(self).attachment, discovery) {
                &&& failure_registered(
                    old(self).attachment,
                    final(self).attachment,
                    heartbeat_failure_detail(discovery),
                )
                &&& r matches AdvancedAttachmentEvent::HeartbeatFailed { detail, failures }
                    && detail@ == heartbeat_failure_detail(discovery) && failures
                    == final(self).attachment.health.heartbeat_failures
            } else {
                let c = discovery->Ok_0.candidates@[0];
                &&& final(self).attachment.selector == old(self).attachment.selector
                &&& final(self).attachment.policy == old(self).attachment.policy
                &&& attachable_same(final(self).attachment.target, c)
                &&& healthy(final(self).attachment.health)
                &&& if c.target.pid == old(self).attachment.target.target.pid {
                    r matches AdvancedAttachmentEvent::HeartbeatHealthy { target } && attachable_same(target, c)
                } else {
                    r matches AdvancedAttachmentEvent::Reattached { previous_pid, target }
                        && previous_pid == old(self).attachment.target.target.pid
                        && attachable_same(target, c)
                }
            },
    {
        let discovery = match discovery {
            Ok(d) => d,
            Err(e) => {
                return self.fail(e.message());
            },
        };
        match resolve_attachable_target(&discovery) {
            Ok(target) => {
                let current_pid = self.attachment.target.target.pid;
                let next_pid = target.target.pid;
                let same = match (current_pid, next_pid) {
                    (Some(a), Some(b)) => a == b,
                    (None, None) => true,
                    _ => false,
                };
                if same {
                    let event_target = target.clone();
                    self.attachment.target = target;
                    self.attachment.health = AdvancedAttachmentHealth {
                        status: AdvancedAttachmentHealthStatus::Healthy,
                        heartbeat_failures: 0,
                        last_error: None,
                    };
                    return AdvancedAttachmentEvent::HeartbeatHealthy { target: event_target };
                }
                if self.attachment.policy.reattach_mode == AdvancedReattachMode::IfProcessRestarted {
                    let event_target = target.clone();
                    self.attachment.target = target;
                    self.attachment.health = AdvancedAttachmentHealth {
                        status: AdvancedAttachmentHealthStatus::Healthy,
                        heartbeat_failures: 0,
                        last_error: None,
                    };
                    return AdvancedAttachmentEvent::Reattached {
                        previous_pid: current_pid,
                        target: event_target,
                    };
                }
                proof {
                    reveal_strlit("target process changed and reattach is disabled");
                }
                self.fail(string_of("target process changed and reattach is disabled"))
            },
            Err(e) => {
                proof {
                    reveal_strlit("unsupported operation: ");
                }
                self.fail(e.message())
            },
        }
    }

    /// Marks the attachment lost with the given detail; the failure count is kept.
    pub fn detach(&mut self, detail: &str) -> (r: AdvancedAttachmentEvent)
        ensures
            final(self).attachment.selector == old(self).attachment.selector,
            final(self).attachment.policy == old(self).attachment.policy,
            final(self).attachment.target == old(self).attachment.target,
            final(self).attachment.health.status == AdvancedAttachmentHealthStatus::Lost,
            final(self).attachment.health.heartbeat_failures == old(self).attachment.health.heartbeat_failures,
            final(self).attachment.health.last_error matches Some(e) && e@ == detail@,
            r matches AdvancedAttachmentEvent::Detached { detail: d } && d@ == detail@,
    {
        self.attachment.health = AdvancedAttachmentHealth {
            status: AdvancedAttachmentHealthStatus::Lost,
            heartbeat_failures: self.attachment.health.heartbeat_failures,
            last_error: Some(string_of(detail)),
        };
        AdvancedAttachmentEvent::Detached { detail: string_of(detail) }
    }
}

} // verus!
