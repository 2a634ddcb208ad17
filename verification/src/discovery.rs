//! Discovery of attachable targets: the targets a selector picks among the top-level windows,
//! in discovery order (foreground first, then visible, then not minimized, then by title, then
//! by window handle).
use vstd::prelude::*;

use crate::attachment::attachable_matches;
use crate::order::{
    lemma_opt_less_laws, lemma_seq_less_irreflexive, lemma_seq_less_total,
    lemma_seq_less_transitive, opt_less, opt_same, opt_str_less, opt_str_same, seq_less, str_less,
};
use crate::protocol::{
    AdvancedAttachableTarget, AdvancedBackendLifecycleState, AdvancedIntegrityLevel,
    AdvancedProcessArchitecture, AdvancedProcessMetadata, AdvancedTargetDiscovery, AdvancedTargetRef,
};
use crate::text::{str_eq, string_of};
use crate::types::{format_hwnd, hwnd_text, ProfileConfig, Rect, WindowSelector};

verus! {

broadcast use vstd::seq_lib::to_multiset_build, vstd::seq_lib::to_multiset_insert;

/// `a` comes before `b` in discovery order: foreground targets first, then visible ones, then
/// those not minimized, then by title, then by window handle text (absent handles first).
pub open spec fn target_before(a: AdvancedAttachableTarget, b: AdvancedAttachableTarget) -> bool {
    ||| (a.foreground && !b.foreground)
    ||| (a.foreground == b.foreground && a.visible && !b.visible)
    ||| (a.foreground == b.foreground && a.visible == b.visible && !a.minimized && b.minimized)
    ||| (a.foreground == b.foreground && a.visible == b.visible && a.minimized == b.minimized
        && seq_less(a.title@, b.title@))
    ||| (a.foreground == b.foreground && a.visible == b.visible && a.minimized == b.minimized
        && a.title@ == b.title@ && opt_less(a.target.hwnd, b.target.hwnd))
}

/// Two targets tie in discovery order.
pub open spec fn target_tied(a: AdvancedAttachableTarget, b: AdvancedAttachableTarget) -> bool {
    &&& a.foreground == b.foreground
    &&& a.visible == b.visible
    &&& a.minimized == b.minimized
    &&& a.title@ == b.title@
    &&& opt_same(a.target.hwnd, b.target.hwnd)
}

/// Discovery order is a strict total order up to ties.
pub proof fn lemma_target_order(
    a: AdvancedAttachableTarget,
    b: AdvancedAttachableTarget,
    c: AdvancedAttachableTarget,
)
    ensures
        !target_before(a, a),
        !(target_before(a, b) && target_before(b, a)),
        !target_tied(a, b) ==> (target_before(a, b) || target_before(b, a)),
        target_tied(a, b) ==> !target_before(a, b),
        target_before(a, b) && target_before(b, c) ==> target_before(a, c),
        target_tied(a, b) && target_before(b, c) ==> target_before(a, c),
        target_before(a, b) && target_tied(b, c) ==> target_before(a, c),
{
    lemma_seq_less_irreflexive(a.title@);
    lemma_seq_less_irreflexive(b.title@);
    lemma_seq_less_total(a.title@, b.title@);
    lemma_seq_less_total(b.title@, c.title@);
    lemma_seq_less_total(a.title@, c.title@);
    if seq_less(a.title@, b.title@) && seq_less(b.title@, c.title@) {
        lemma_seq_less_transitive(a.title@, b.title@, c.title@);
    }
    lemma_opt_less_laws(a.target.hwnd, b.target.hwnd, c.target.hwnd);
    lemma_opt_less_laws(b.target.hwnd, a.target.hwnd, c.target.hwnd);
    lemma_opt_less_laws(b.target.hwnd, c.target.hwnd, a.target.hwnd);
}

/// No later target comes before an earlier one.
pub open spec fn in_discovery_order(s: Seq<AdvancedAttachableTarget>) -> bool {
    forall|i: int, j: int| 0 <= i < j < s.len() ==> !#[trigger] target_before(s[j], s[i])
}

/// The targets a selector picks, in their original order.
pub open spec fn selected_targets(
    selector: WindowSelector,
    targets: Seq<AdvancedAttachableTarget>,
) -> Seq<AdvancedAttachableTarget> {
    targets.filter(|t: AdvancedAttachableTarget| attachable_matches(selector, t))
}

proof fn lemma_selected_step(
    selector: WindowSelector,
    done: Seq<AdvancedAttachableTarget>,
    t: AdvancedAttachableTarget,
)
    ensures
        selected_targets(selector, done.push(t)) == if attachable_matches(selector, t) {
            selected_targets(selector, done).push(t)
        } else {
            selected_targets(selector, done)
        },
{
    let s = done.push(t);
    assert(s.drop_last() =~= done);
    reveal_with_fuel(Seq::<AdvancedAttachableTarget>::filter, 1);
}

/// Whether `a` comes before `b` in discovery order.
fn target_comes_before(a: &AdvancedAttachableTarget, b: &AdvancedAttachableTarget) -> (r: bool)
    ensures
        r == target_before(*a, *b),
{
    if a.foreground != b.foreground {
        return a.foreground;
    }
    if a.visible != b.visible {
        return a.visible;
    }
    if a.minimized != b.minimized {
        return !a.minimized;
    }
    if str_less(a.title.as_str(), b.title.as_str()) {
        return true;
    }
    str_eq(a.title.as_str(), b.title.as_str()) && opt_str_less(&a.target.hwnd, &b.target.hwnd)
}

/// Inserts a target after every target that does not come after it.
fn insert_in_order(out: &mut Vec<AdvancedAttachableTarget>, t: AdvancedAttachableTarget)
    requires
        in_discovery_order(old(out)@),
    ensures
        in_discovery_order(final(out)@),
        final(out)@.to_multiset() == old(out)@.to_multiset().insert(t),
{
    let mut p: usize = 0;
    while p < out.len() && !target_comes_before(&t, &out[p])
        invariant
            p <= out.len(),
            forall|k: int| 0 <= k < p ==> !#[trigger] target_before(t, out@[k]),
        decreases out.len() - p,
    {
        p = p + 1;
    }
    let ghost before = out@;
    out.insert(p, t);
    proof {
        let after = out@;
        assert(after =~= before.insert(p as int, t));
        assert forall|i: int, j: int| 0 <= i < j < after.len() implies !#[trigger] target_before(
            after[j],
            after[i],
        ) by {
            if j < p {
                assert(after[i] == before[i] && after[j] == before[j]);
            } else if j == p {
                assert(after[i] == before[i]);
                assert(!target_before(t, before[i]));
            } else if i > p {
                assert(after[i] == before[i - 1] && after[j] == before[j - 1]);
            } else if i == p {
                assert(after[j] == before[j - 1]);
                assert(p < before.len());
                assert(target_before(t, before[p as int]));
                lemma_target_order(before[j - 1], t, before[p as int]);
                lemma_target_order(before[p as int], t, before[p as int]);
                if j - 1 > p {
                    assert(!target_before(before[j - 1], before[p as int]));
                }
            } else {
                assert(after[i] == before[i] && after[j] == before[j - 1]);
            }
        }
    }
}

/// Discovers the targets a selector picks among the top-level windows' targets: exactly the
/// matching ones, each as often as it came, in discovery order.
pub fn discover_attachable_targets(
    selector: &WindowSelector,
    targets: Vec<AdvancedAttachableTarget>,
) -> (r: AdvancedTargetDiscovery)
    ensures
        r.selector == *selector,
        r.candidate_count == r.candidates@.len(),
        in_discovery_order(r.candidates@),
        r.candidates@.to_multiset() == selected_targets(*selector, targets@).to_multiset(),
{
    let ghost all = targets@;
    let mut rest = targets;
    let mut candidates: Vec<AdvancedAttachableTarget> = Vec::new();
    let ghost mut done: Seq<AdvancedAttachableTarget> = Seq::empty();
    proof {
        assert(done + rest@ =~= all);
        assert(selected_targets(*selector, done) =~= Seq::<AdvancedAttachableTarget>::empty()) by {
            reveal_with_fuel(Seq::<AdvancedAttachableTarget>::filter, 1);
        }
        assert(candidates@.to_multiset() =~= Seq::<AdvancedAttachableTarget>::empty().to_multiset());
    }
    while rest.len() > 0
        invariant
            done + rest@ == all,
            in_discovery_order(candidates@),
            candidates@.to_multiset() == selected_targets(*selector, done).to_multiset(),
        decreases rest.len(),
    {
        let t = rest.remove(0);
        proof {
            lemma_selected_step(*selector, done, t);
            assert(done.push(t) + rest@ =~= all);
            done = done.push(t);
        }
        if selector.matches_attachable_target(&t) {
            insert_in_order(&mut candidates, t);
        }
    }
    proof {
        assert(done =~= all);
    }
    AdvancedTargetDiscovery {
        selector: selector.clone(),
        candidate_count: candidates.len(),
        candidates,
    }
}

/// Discovers the targets of a profile's window selector.
pub fn discover_profile_targets(
    profile: &ProfileConfig,
    targets: Vec<AdvancedAttachableTarget>,
) -> (r: AdvancedTargetDiscovery)
    ensures
        r.selector == profile.target,
        r.candidate_count == r.candidates@.len(),
        in_discovery_order(r.candidates@),
        r.candidates@.to_multiset() == selected_targets(profile.target, targets@).to_multiset(),
{
    discover_attachable_targets(&profile.target, targets)
}

// ----------------------------------------------------------------------------------------------
// Describing one window.
/// What the system reports about one top-level window and its process.
#[derive(Debug, PartialEq, Eq)]
pub struct WindowObservation {
    pub hwnd: isize,
    pub pid: u32,
    pub title: String,
    pub class_name: String,
    pub visible: bool,
    pub minimized: bool,
    pub foreground: bool,
    pub executable_path: Option<String>,
    pub exe: Option<String>,
    pub rect: Option<Rect>,
}

/// The lifecycle state a window is discovered in: attachable when visible and not minimized.
pub open spec fn discovered_state(w: WindowObservation) -> AdvancedBackendLifecycleState {
    if !w.minimized && w.visible {
        AdvancedBackendLifecycleState::Attachable
    } else {
        AdvancedBackendLifecycleState::Discovered
    }
}

/// The rectangle has no area.
pub open spec fn rect_empty(r: Rect) -> bool {
    r.right - r.left <= 0 || r.bottom - r.top <= 0
}

/// The notes on a discovered window: why it is not attachable (minimized, or else not
/// visible), then whether its bounds are empty.
pub open spec fn discovery_notes(w: WindowObservation) -> Seq<Seq<char>> {
    let state_note: Seq<Seq<char>> = if w.minimized {
        seq!["window is minimized"@]
    } else if !w.visible {
        seq!["window is not currently visible"@]
    } else {
        Seq::empty()
    };
    let bounds_note: Seq<Seq<char>> = match w.rect {
        Some(r) => if rect_empty(r) {
            seq!["window bounds are empty"@]
        } else {
            Seq::empty()
        },
        None => Seq::empty(),
    };
    state_note + bounds_note
}

/// Describes a window as a target an advanced backend could attach to: its handle, process,
/// title and class, its discovered lifecycle state with the notes that explain it, and its
/// process metadata with the window as the likely rendering window.
pub fn build_attachable_target(
    window: WindowObservation,
    architecture: AdvancedProcessArchitecture,
    integrity_level: AdvancedIntegrityLevel,
    loaded_modules: Vec<String>,
) -> (r: AdvancedAttachableTarget)
    ensures
        r.target.hwnd matches Some(h) && h@ == hwnd_text(window.hwnd),
        r.target.pid == Some(window.pid),
        r.target.exe == window.exe,
        r.target.window_class matches Some(c) && c@ == window.class_name@,
        r.target.title_hint matches Some(t) && t@ == window.title@,
        r.lifecycle_state == discovered_state(window),
        r.title@ == window.title@,
        r.class_name@ == window.class_name@,
        r.exe == window.exe,
        r.visible == window.visible,
        r.minimized == window.minimized,
        r.foreground == window.foreground,
        r.process.architecture == architecture,
        r.process.integrity_level == integrity_level,
        r.process.loaded_modules@ == loaded_modules@,
        r.process.executable_path == window.executable_path,
        r.process.likely_rendering_window matches Some(h) && h@ == hwnd_text(window.hwnd),
        r.notes@.map_values(|n: String| n@) == discovery_notes(window),
{
    let ghost w = window;
    let mut notes: Vec<String> = Vec::new();
    let lifecycle_state = if window.minimized {
        notes.push(string_of("window is minimized"));
        AdvancedBackendLifecycleState::Discovered
    } else if window.visible {
        AdvancedBackendLifecycleState::Attachable
    } else {
        notes.push(string_of("window is not currently visible"));
        AdvancedBackendLifecycleState::Discovered
    };
    let ghost state_notes = notes@.map_values(|n: String| n@);
    let empty_bounds = match window.rect {
        Some(rect) => (rect.right as i64) - (rect.left as i64) <= 0 || (rect.bottom as i64) - (rect.top as i64) <= 0,
        None => false,
    };
    if empty_bounds {
        notes.push(string_of("window bounds are empty"));
    }
    proof {
        assert(notes@.map_values(|n: String| n@) =~= discovery_notes(w));
    }
    let exe_for_target = match &window.exe {
        Some(e) => Some(e.clone()),
        None => None,
    };
    let path = window.executable_path;
    AdvancedAttachableTarget {
        target: AdvancedTargetRef {
            hwnd: Some(format_hwnd(window.hwnd)),
            pid: Some(window.pid),
            exe: exe_for_target,
            window_class: Some(window.class_name.clone()),
            title_hint: Some(window.title.clone()),
        },
        lifecycle_state,
        title: window.title,
        class_name: window.class_name,
        exe: window.exe,
        visible: window.visible,
        minimized: window.minimized,
        foreground: window.foreground,
        process: AdvancedProcessMetadata {
            architecture,
            integrity_level,
            loaded_modules,
            executable_path: path,
            likely_rendering_window: Some(format_hwnd(window.hwnd)),
        },
        notes,
    }
}

} // verus!
