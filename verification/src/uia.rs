//! UI Automation: selecting described elements, resolving a selector to one element, and
//! normalizing what the automation API reports.
use vstd::prelude::*;

use crate::text::{chars_of, chars_trim, string_from_chars, trim_spec};
use crate::types::{
    clone_elements, uia_same, uia_same_at, uia_selector_has_criteria, uia_selector_matches, Rect,
    UiaElementInfo, UiaFindRequest, UiaFindResponse, UiaSelector, UiaTreeMode, UiaTreeRequest,
    UiaTreeResponse, WindowInfo, WinrError, WinrResult,
};

verus! {

/// The elements of a list that a selector matches, in order.
pub open spec fn selected_elements(elements: Seq<UiaElementInfo>, selector: UiaSelector) -> Seq<UiaElementInfo> {
    elements.filter(|e: UiaElementInfo| uia_selector_matches(selector, e))
}

/// `out` holds, one for one, copies of the elements of `elements` that the selector matches.
pub open spec fn copies_of_selected(
    out: Seq<UiaElementInfo>,
    elements: Seq<UiaElementInfo>,
    selector: UiaSelector,
) -> bool {
    let chosen = selected_elements(elements, selector);
    &&& out.len() == chosen.len()
    &&& forall|k: int| 0 <= k < out.len() ==> #[trigger] uia_same_at(out, chosen, k)
}

/// Copies of the elements the selector matches, in order.
pub fn matching_elements(elements: &Vec<UiaElementInfo>, selector: &UiaSelector) -> (r: Vec<
    UiaElementInfo,
>)
    ensures
        copies_of_selected(r@, elements@, *selector),
{
    let mut out: Vec<UiaElementInfo> = Vec::new();
    let mut i: usize = 0;
    while i < elements.len()
        invariant
            i <= elements.len(),
            copies_of_selected(out@, elements@.subrange(0, i as int), *selector),
        decreases elements.len() - i,
    {
        let ghost before = out@;
        proof {
            let s = elements@.subrange(0, i + 1);
            assert(s.drop_last() =~= elements@.subrange(0, i as int));
            s.filter_lemma(|e: UiaElementInfo| uia_selector_matches(*selector, e));
            assert(selected_elements(s, *selector) == if uia_selector_matches(*selector, s.last()) {
                selected_elements(s.drop_last(), *selector).push(s.last())
            } else {
                selected_elements(s.drop_last(), *selector)
            }) by {
                reveal_with_fuel(Seq::<UiaElementInfo>::filter, 1);
            }
        }
        if selector.matches(&elements[i]) {
            let copy = elements[i].clone();
            out.push(copy);
            proof {
                let chosen = selected_elements(elements@.subrange(0, i + 1), *selector);
                assert forall|k: int| 0 <= k < out@.len() implies #[trigger] uia_same_at(out@, chosen, k) by {
                    if k < before.len() {
                        assert(uia_same_at(before, selected_elements(elements@.subrange(0, i as int), *selector), k));
                        assert(out@[k] == before[k]);
                    }
                }
            }
        } else {
            proof {
                let chosen = selected_elements(elements@.subrange(0, i + 1), *selector);
                assert forall|k: int| 0 <= k < out@.len() implies #[trigger] uia_same_at(out@, chosen, k) by {
                    assert(uia_same_at(before, selected_elements(elements@.subrange(0, i as int), *selector), k));
                }
            }
        }
        i = i + 1;
    }
    proof {
        assert(elements@.subrange(0, elements@.len() as int) =~= elements@);
    }
    out
}

/// Answers a find request from the window and the described elements of its subtree.
pub fn uia_find(request: &UiaFindRequest, window: WindowInfo, elements: &Vec<UiaElementInfo>) -> (r:
    UiaFindResponse)
    ensures
        r.window == window,
        copies_of_selected(r.matches@, elements@, request.element),
{
    UiaFindResponse { window, matches: matching_elements(elements, &request.element) }
}

/// Depth to which a tree request walks (4 by default) and its view (control by default).
pub open spec fn tree_depth(request: UiaTreeRequest) -> u32 {
    match request.max_depth {
        Some(d) => d,
        None => 4,
    }
}

/// The tree view a request asks for (control by default).
pub open spec fn tree_mode(request: UiaTreeRequest) -> UiaTreeMode {
    match request.mode {
        Some(m) => m,
        None => UiaTreeMode::Control,
    }
}

/// The depth and view a tree request walks with.
pub fn uia_tree_walk(request: &UiaTreeRequest) -> (r: (u32, UiaTreeMode))
    ensures
        r.0 == tree_depth(*request),
        r.1 == tree_mode(*request),
{
    let depth = match request.max_depth {
        Some(d) => d,
        None => 4,
    };
    let mode = match request.mode {
        Some(m) => m,
        None => UiaTreeMode::Control,
    };
    (depth, mode)
}

/// Answers a tree request from the window and the tree walked for it.
pub fn uia_tree(request: &UiaTreeRequest, window: WindowInfo, root: UiaElementInfo) -> (r: UiaTreeResponse)
    ensures
        r.window == window,
        r.mode == tree_mode(*request),
        r.root == root,
{
    let (_, mode) = uia_tree_walk(request);
    UiaTreeResponse { window, mode, root }
}

/// What resolving a selector to one element yields: `Unsupported` without criteria,
/// `UiaElementNotFound` without a match, the position of the single match, or
/// `AmbiguousUiaElement` with copies of the matches.
pub open spec fn single_element_ok(
    elements: Seq<UiaElementInfo>,
    selector: UiaSelector,
    r: WinrResult<usize>,
) -> bool {
    let chosen = selected_elements(elements, selector);
    if !uia_selector_has_criteria(selector) {
        r matches Err(e) && e is Unsupported && e->Unsupported_message@
            == "at least one UI Automation selector flag is required"@
    } else if chosen.len() == 0 {
        r == Err::<usize, WinrError>(WinrError::UiaElementNotFound)
    } else if chosen.len() == 1 {
        r matches Ok(i) && 0 <= i < elements.len() && elements[i as int] == chosen[0]
    } else {
        r matches Err(WinrError::AmbiguousUiaElement { count, matches }) && count == chosen.len()
            && copies_of_selected(matches@, elements, selector)
    }
}

/// Resolves a selector to the single element it matches.
pub fn resolve_single_element(elements: &Vec<UiaElementInfo>, selector: &UiaSelector) -> (r: WinrResult<
    usize,
>)
    ensures
        single_element_ok(elements@, *selector, r),
{
    if !selector.has_criteria() {
        proof {
            reveal_strlit("at least one UI Automation selector flag is required");
        }
        return Err(crate::types::unsupported("at least one UI Automation selector flag is required"));
    }
    let mut count: usize = 0;
    let mut first: usize = 0;
    let mut i: usize = 0;
    while i < elements.len()
        invariant
            i <= elements.len(),
            count == selected_elements(elements@.subrange(0, i as int), *selector).len(),
            count > 0 ==> first < i && elements@[first as int] == selected_elements(
                elements@.subrange(0, i as int),
                *selector,
            )[0],
        decreases elements.len() - i,
    {
        proof {
            let s = elements@.subrange(0, i + 1);
            assert(s.drop_last() =~= elements@.subrange(0, i as int));
            assert(selected_elements(s, *selector) == if uia_selector_matches(*selector, s.last()) {
                selected_elements(s.drop_last(), *selector).push(s.last())
            } else {
                selected_elements(s.drop_last(), *selector)
            }) by {
                reveal_with_fuel(Seq::<UiaElementInfo>::filter, 1);
            }
        }
        if selector.matches(&elements[i]) {
            if count == 0 {
                first = i;
            }
            count = count + 1;
        }
        i = i + 1;
    }
    proof {
        assert(elements@.subrange(0, elements@.len() as int) =~= elements@);
    }
    if count == 0 {
        return Err(WinrError::UiaElementNotFound);
    }
    if count == 1 {
        return Ok(first);
    }
    Err(WinrError::AmbiguousUiaElement { count, matches: matching_elements(elements, selector) })
}

/// A rectangle reported as all zeros means "no bounds".
pub fn rect_to_option(left: i32, top: i32, right: i32, bottom: i32) -> (r: Option<Rect>)
    ensures
        left == 0 && top == 0 && right == 0 && bottom == 0 ==> r is None,
        !(left == 0 && top == 0 && right == 0 && bottom == 0) ==> r == Some(
            Rect { left, top, right, bottom },
        ),
{
    if left == 0 && top == 0 && right == 0 && bottom == 0 {
        return None;
    }
    Some(Rect { left, top, right, bottom })
}

/// Reported text, trimmed; blank text means "no value".
pub fn text_to_option(text: &str) -> (r: Option<String>)
    ensures
        trim_spec(text@).len() == 0 ==> r is None,
        trim_spec(text@).len() > 0 ==> (r matches Some(s) && s@ == trim_spec(text@)),
{
    let chars = chars_of(text);
    let trimmed = chars_trim(&chars);
    if trimmed.len() == 0 {
        None
    } else {
        Some(string_from_chars(&trimmed))
    }
}

} // verus!
