//! Choosing windows: listing with a selector, resolving a selector to one window, and picking
//! a profile's target.
use vstd::prelude::*;

use crate::order::{
    lemma_seq_less_irreflexive, lemma_seq_less_total, lemma_seq_less_transitive, seq_less, str_less,
};
use crate::text::str_eq;
use crate::types::{window_selector_matches, WindowInfo, WindowSelector, WinrError, WinrResult};

verus! {

/// How windows are listed.
#[derive(Debug, Clone, Copy, PartialEq, Eq, Structural)]
pub struct ListWindowsOptions {
    pub visible_only: bool,
}

/// A window is listed: visible when only visible windows are asked for, and selected.
pub open spec fn listed_window(w: WindowInfo, selector: WindowSelector, options: ListWindowsOptions) -> bool {
    (!options.visible_only || w.visible) && window_selector_matches(selector, w)
}

/// The windows a listing keeps, in order.
pub open spec fn listed_windows(
    windows: Seq<WindowInfo>,
    selector: WindowSelector,
    options: ListWindowsOptions,
) -> Seq<WindowInfo> {
    windows.filter(|w: WindowInfo| listed_window(w, selector, options))
}

proof fn lemma_filter_step(
    windows: Seq<WindowInfo>,
    i: int,
    selector: WindowSelector,
    options: ListWindowsOptions,
)
    requires
        0 <= i < windows.len(),
    ensures
        listed_windows(windows.subrange(0, i + 1), selector, options) == if listed_window(
            windows[i],
            selector,
            options,
        ) {
            listed_windows(windows.subrange(0, i), selector, options).push(windows[i])
        } else {
            listed_windows(windows.subrange(0, i), selector, options)
        },
{
    let s = windows.subrange(0, i + 1);
    assert(s.drop_last() =~= windows.subrange(0, i));
    assert(s.last() == windows[i]);
    reveal_with_fuel(Seq::<WindowInfo>::filter, 1);
}

/// Lists the windows the selector selects, optionally only visible ones, in order.
pub fn list_windows(
    windows: &Vec<WindowInfo>,
    selector: &WindowSelector,
    options: ListWindowsOptions,
) -> (r: Vec<WindowInfo>)
    ensures
        r@ == listed_windows(windows@, *selector, options),
{
    let mut out: Vec<WindowInfo> = Vec::new();
    let mut i: usize = 0;
    while i < windows.len()
        invariant
            i <= windows.len(),
            out@ == listed_windows(windows@.subrange(0, i as int), *selector, options),
        decreases windows.len() - i,
    {
        proof {
            lemma_filter_step(windows@, i as int, *selector, options);
        }
        if (!options.visible_only || windows[i].visible) && selector.matches(&windows[i]) {
            out.push(windows[i].clone());
        }
        i = i + 1;
    }
    proof {
        assert(windows@.subrange(0, windows@.len() as int) =~= windows@);
    }
    out
}

/// Resolves a selector to the one window of the list it selects: `WindowNotFound` without a
/// match, `AmbiguousWindow` with every match when there are several.
pub fn resolve_window_from_list(windows: &Vec<WindowInfo>, selector: &WindowSelector) -> (r: WinrResult<
    WindowInfo,
>)
    ensures
        ({
            let matches = listed_windows(windows@, *selector, ListWindowsOptions { visible_only: false });
            if matches.len() == 0 {
                r == Err::<WindowInfo, WinrError>(WinrError::WindowNotFound)
            } else if matches.len() == 1 {
                r == Ok::<WindowInfo, WinrError>(matches[0])
            } else {
                r matches Err(WinrError::AmbiguousWindow { count, matches: m }) && count == matches.len()
                    && m@ == matches
            }
        }),
{
    let mut matches = list_windows(windows, selector, ListWindowsOptions { visible_only: false });
    let n = matches.len();
    if n == 0 {
        return Err(WinrError::WindowNotFound);
    }
    if n == 1 {
        return Ok(matches.remove(0));
    }
    Err(WinrError::AmbiguousWindow { count: n, matches })
}

// ----------------------------------------------------------------------------------------------
// Profile targets.
/// Profile target order: foreground windows first, then by handle text, then by title.
pub open spec fn window_before(a: WindowInfo, b: WindowInfo) -> bool {
    ||| (a.foreground && !b.foreground)
    ||| (a.foreground == b.foreground && seq_less(a.hwnd@, b.hwnd@))
    ||| (a.foreground == b.foreground && a.hwnd@ == b.hwnd@ && seq_less(a.title@, b.title@))
}

/// Two windows tie in the profile target order.
pub open spec fn window_tied(a: WindowInfo, b: WindowInfo) -> bool {
    a.foreground == b.foreground && a.hwnd@ == b.hwnd@ && a.title@ == b.title@
}

/// The profile target order is a strict total order up to ties.
pub proof fn lemma_window_order(a: WindowInfo, b: WindowInfo, c: WindowInfo)
    ensures
        !window_before(a, a),
        !(window_before(a, b) && window_before(b, a)),
        !window_tied(a, b) ==> (window_before(a, b) || window_before(b, a)),
        window_tied(a, b) ==> !window_before(a, b),
        window_before(a, b) && window_before(b, c) ==> window_before(a, c),
        window_tied(a, b) && window_before(b, c) ==> window_before(a, c),
        window_before(a, b) && window_tied(b, c) ==> window_before(a, c),
{
    lemma_seq_less_irreflexive(a.hwnd@);
    lemma_seq_less_irreflexive(a.title@);
    lemma_seq_less_total(a.hwnd@, b.hwnd@);
    lemma_seq_less_total(a.title@, b.title@);
    lemma_seq_less_total(b.hwnd@, c.hwnd@);
    lemma_seq_less_total(a.hwnd@, c.hwnd@);
    if seq_less(a.hwnd@, b.hwnd@) && seq_less(b.hwnd@, c.hwnd@) {
        lemma_seq_less_transitive(a.hwnd@, b.hwnd@, c.hwnd@);
    }
    if seq_less(a.title@, b.title@) && seq_less(b.title@, c.title@) {
        lemma_seq_less_transitive(a.title@, b.title@, c.title@);
    }
    if window_tied(a, b) {
        lemma_seq_less_irreflexive(b.hwnd@);
        lemma_seq_less_irreflexive(b.title@);
    }
}

/// A window can be a profile target: listed for the profile's selector and not minimized.
pub open spec fn target_candidate(w: WindowInfo, selector: WindowSelector, visible_only: bool) -> bool {
    listed_window(w, selector, ListWindowsOptions { visible_only }) && !w.minimized
}

/// `b` is the candidate a stable sort by the target order puts first.
pub open spec fn first_candidate(ws: Seq<WindowInfo>, selector: WindowSelector, visible_only: bool, b: int) -> bool {
    &&& 0 <= b < ws.len()
    &&& target_candidate(ws[b], selector, visible_only)
    &&& forall|k: int|
        0 <= k < ws.len() && #[trigger] target_candidate(ws[k], selector, visible_only) ==> !window_before(
            ws[k],
            ws[b],
        )
    &&& forall|k: int|
        0 <= k < b && #[trigger] target_candidate(ws[k], selector, visible_only) ==> window_before(
            ws[b],
            ws[k],
        )
}

/// What picking a profile target decides.
#[derive(Debug, PartialEq, Eq)]
pub enum ProfileTargetPick {
    /// No usable window yet.
    NotFound,
    /// The window to run against.
    Ready(WindowInfo),
    /// The best window is in the background: focus it, and use it when that succeeds.
    NeedsFocus(WindowInfo),
}

/// Whether `a` comes before `b` in the profile target order.
fn window_comes_before(a: &WindowInfo, b: &WindowInfo) -> (r: bool)
    ensures
        r == window_before(*a, *b),
{
    if a.foreground && !b.foreground {
        return true;
    }
    if a.foreground != b.foreground {
        return false;
    }
    if str_less(a.hwnd.as_str(), b.hwnd.as_str()) {
        return true;
    }
    str_eq(a.hwnd.as_str(), b.hwnd.as_str()) && str_less(a.title.as_str(), b.title.as_str())
}

/// Picks a profile's target among the windows: listed for the selector (visible ones only when
/// the profile requires visibility), not minimized, first in the target order. A background
/// window is used only when the profile does not require the foreground; otherwise it is to
/// be focused first when the run focuses targets, and not used yet when it does not.
pub fn pick_profile_target(
    windows: &Vec<WindowInfo>,
    selector: &WindowSelector,
    require_visible: bool,
    require_foreground: bool,
    focus_target: bool,
) -> (r: ProfileTargetPick)
    ensures
        (forall|k: int| 0 <= k < windows@.len() ==> !#[trigger] target_candidate(windows@[k], *selector, require_visible))
            ==> r == ProfileTargetPick::NotFound,
        (exists|k: int| 0 <= k < windows@.len() && #[trigger] target_candidate(windows@[k], *selector, require_visible))
            ==> exists|b: int| #![trigger windows@[b]] first_candidate(windows@, *selector, require_visible, b) && ({
                let w = windows@[b];
                if w.foreground || !require_foreground {
                    r == ProfileTargetPick::Ready(w)
                } else if focus_target {
                    r == ProfileTargetPick::NeedsFocus(w)
                } else {
                    r == ProfileTargetPick::NotFound
                }
            }),
{
    let mut best: Option<usize> = None;
    let mut i: usize = 0;
    while i < windows.len()
        invariant
            i <= windows.len(),
            match best {
                None => forall|k: int| 0 <= k < i ==> !#[trigger] target_candidate(windows@[k], *selector, require_visible),
                Some(b) => {
                    &&& b < i
                    &&& target_candidate(windows@[b as int], *selector, require_visible)
                    &&& forall|k: int|
                        0 <= k < i && #[trigger] target_candidate(windows@[k], *selector, require_visible)
                            ==> !window_before(windows@[k], windows@[b as int])
                    &&& forall|k: int|
                        0 <= k < b && #[trigger] target_candidate(windows@[k], *selector, require_visible)
                            ==> window_before(windows@[b as int], windows@[k])
                },
            },
        decreases windows.len() - i,
    {
        let w = &windows[i];
        let candidate = (!require_visible || w.visible) && selector.matches(w) && !w.minimized;
        if candidate {
            match best {
                None => {
                    best = Some(i);
                    proof {
                        lemma_window_order(windows@[i as int], windows@[i as int], windows@[i as int]);
                    }
                },
                Some(b) => {
                    if window_comes_before(w, &windows[b]) {
                        proof {
                            assert forall|k: int|
                                0 <= k < i + 1 && #[trigger] target_candidate(windows@[k], *selector, require_visible)
                                    implies !window_before(windows@[k], windows@[i as int]) by {
                                lemma_window_order(windows@[k], windows@[i as int], windows@[b as int]);
                                lemma_window_order(windows@[i as int], windows@[b as int], windows@[k]);
                                lemma_window_order(windows@[i as int], windows@[k], windows@[b as int]);
                            }
                            assert forall|k: int|
                                0 <= k < i && #[trigger] target_candidate(windows@[k], *selector, require_visible)
                                    implies window_before(windows@[i as int], windows@[k]) by {
                                lemma_window_order(windows@[i as int], windows@[b as int], windows@[k]);
                                lemma_window_order(windows@[b as int], windows@[k], windows@[i as int]);
                                lemma_window_order(windows@[k], windows@[b as int], windows@[i as int]);
                            }
                        }
                        best = Some(i);
                    } else {
                        proof {
                            lemma_window_order(windows@[i as int], windows@[b as int], windows@[i as int]);
                        }
                    }
                },
            }
        }
        i = i + 1;
    }
    match best {
        None => ProfileTargetPick::NotFound,
        Some(b) => {
            proof {
                assert(first_candidate(windows@, *selector, require_visible, b as int));
            }
            let w = windows[b].clone();
            if w.foreground || !require_foreground {
                ProfileTargetPick::Ready(w)
            } else if focus_target {
                ProfileTargetPick::NeedsFocus(w)
            } else {
                ProfileTargetPick::NotFound
            }
        },
    }
}

} // verus!
