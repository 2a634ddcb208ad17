//! The human-readable report of each command's result, one line per entry: window details,
//! window lists, screenshots, input and profile outcomes, and UI Automation trees indented by
//! depth.
use vstd::prelude::*;

use crate::text::{
    chars_of, decimal_digits, i64_to_decimal, push_all, push_str, signed_decimal,
    string_from_chars, u64_to_decimal,
};
use crate::types::{
    input_mode_name, screenshot_backend_name, InputActionResult, ProfileRunResult, Rect,
    ScreenshotResult, UiaActionResult, UiaElementInfo, UiaFindResponse, UiaTreeMode,
    UiaTreeResponse, WindowActionResult, WindowInfo,
};

verus! {

/// The texts of a list of lines.
pub open spec fn lines_view(lines: Seq<String>) -> Seq<Seq<char>> {
    lines.map_values(|l: String| l@)
}

/// `true` or `false`.
pub open spec fn bool_text(b: bool) -> Seq<char> {
    if b {
        "true"@
    } else {
        "false"@
    }
}

/// The text of an optional string, or a fallback.
pub open spec fn or_text(o: Option<String>, fallback: Seq<char>) -> Seq<char> {
    match o {
        Some(s) => s@,
        None => fallback,
    }
}

/// A text with every double quote turned into a single quote.
pub open spec fn without_double_quotes(s: Seq<char>) -> Seq<char> {
    s.map_values(|c: char| if c == '"' { '\'' } else { c })
}

fn bool_chars(b: bool) -> (r: Vec<char>)
    ensures
        r@ == bool_text(b),
{
    if b {
        chars_of("true")
    } else {
        chars_of("false")
    }
}

fn push_bool(out: &mut Vec<char>, b: bool)
    ensures
        final(out)@ == old(out)@ + bool_text(b),
{
    let t = bool_chars(b);
    push_all(out, &t);
}

fn push_or(out: &mut Vec<char>, o: &Option<String>, fallback: &str)
    ensures
        final(out)@ == old(out)@ + or_text(*o, fallback@),
{
    match o {
        Some(s) => push_str(out, s.as_str()),
        None => push_str(out, fallback),
    }
}

fn push_signed(out: &mut Vec<char>, n: i32)
    ensures
        final(out)@ == old(out)@ + signed_decimal(n as int),
{
    let t = i64_to_decimal(n as i64);
    push_all(out, &t);
}

fn push_unsigned(out: &mut Vec<char>, n: u64)
    ensures
        final(out)@ == old(out)@ + decimal_digits(n as nat),
{
    let t = u64_to_decimal(n);
    push_all(out, &t);
}

fn push_without_double_quotes(out: &mut Vec<char>, s: &str)
    ensures
        final(out)@ == old(out)@ + without_double_quotes(s@),
{
    let chars = chars_of(s);
    let ghost start = out@;
    let mut i: usize = 0;
    while i < chars.len()
        invariant
            i <= chars@.len(),
            chars@ == s@,
            out@ == start + without_double_quotes(s@.subrange(0, i as int)),
        decreases chars@.len() - i,
    {
        let c = chars[i];
        out.push(if c == '"' { '\'' } else { c });
        proof {
            assert(without_double_quotes(s@.subrange(0, i + 1)) =~= without_double_quotes(
                s@.subrange(0, i as int),
            ).push(if c == '"' { '\'' } else { c }));
        }
        i = i + 1;
    }
    proof {
        assert(s@.subrange(0, s@.len() as int) =~= s@);
    }
}

/// A line made of a label and a value.
fn labeled(label: &str, value: &str) -> (r: String)
    ensures
        r@ == label@ + value@,
{
    let mut out = chars_of(label);
    push_str(&mut out, value);
    string_from_chars(&out)
}

// ----------------------------------------------------------------------------------------------
// Windows.
/// The report of one window: handle, process, title, class, executable, state and rectangle.
pub open spec fn window_info_text(w: WindowInfo) -> Seq<Seq<char>> {
    seq![
        "hwnd: "@ + w.hwnd@,
        "pid: "@ + decimal_digits(w.pid as nat),
        "title: "@ + w.title@,
        "class: "@ + w.class_name@,
        "exe: "@ + or_text(w.exe, "<unknown>"@),
        "visible: "@ + bool_text(w.visible),
        "minimized: "@ + bool_text(w.minimized),
        "foreground: "@ + bool_text(w.foreground),
        "rect: left="@ + signed_decimal(w.rect.left as int) + " top="@ + signed_decimal(w.rect.top as int)
            + " right="@ + signed_decimal(w.rect.right as int) + " bottom="@ + signed_decimal(
            w.rect.bottom as int,
        ),
    ]
}

/// Appends the report of one window.
fn push_window_info(lines: &mut Vec<String>, w: &WindowInfo)
    ensures
        lines_view(final(lines)@) == lines_view(old(lines)@) + window_info_text(*w),
{
    let ghost start = lines_view(lines@);
    lines.push(labeled("hwnd: ", w.hwnd.as_str()));
    let mut pid = chars_of("pid: ");
    push_unsigned(&mut pid, w.pid as u64);
    lines.push(string_from_chars(&pid));
    lines.push(labeled("title: ", w.title.as_str()));
    lines.push(labeled("class: ", w.class_name.as_str()));
    let mut exe = chars_of("exe: ");
    push_or(&mut exe, &w.exe, "<unknown>");
    lines.push(string_from_chars(&exe));
    let mut visible = chars_of("visible: ");
    push_bool(&mut visible, w.visible);
    lines.push(string_from_chars(&visible));
    let mut minimized = chars_of("minimized: ");
    push_bool(&mut minimized, w.minimized);
    lines.push(string_from_chars(&minimized));
    let mut foreground = chars_of("foreground: ");
    push_bool(&mut foreground, w.foreground);
    lines.push(string_from_chars(&foreground));
    let mut rect = chars_of("rect: left=");
    push_signed(&mut rect, w.rect.left);
    push_str(&mut rect, " top=");
    push_signed(&mut rect, w.rect.top);
    push_str(&mut rect, " right=");
    push_signed(&mut rect, w.rect.right);
    push_str(&mut rect, " bottom=");
    push_signed(&mut rect, w.rect.bottom);
    lines.push(string_from_chars(&rect));
    proof {
        assert(lines_view(lines@) =~= start + window_info_text(*w));
    }
}

/// The report of one window.
pub fn window_info_lines(w: &WindowInfo) -> (r: Vec<String>)
    ensures
        lines_view(r@) == window_info_text(*w),
{
    let mut lines: Vec<String> = Vec::new();
    push_window_info(&mut lines, w);
    proof {
        assert(lines_view(Seq::<String>::empty()) =~= Seq::<Seq<char>>::empty());
        assert(Seq::<Seq<char>>::empty() + window_info_text(*w) =~= window_info_text(*w));
    }
    lines
}

/// One line of a window list: handle, process, state, then quoted class, executable and title
/// (double quotes in the title turned into single quotes).
pub open spec fn window_list_line(w: WindowInfo) -> Seq<char> {
    w.hwnd@ + " pid="@ + decimal_digits(w.pid as nat) + " visible="@ + bool_text(w.visible) + " minimized="@
        + bool_text(w.minimized) + " foreground="@ + bool_text(w.foreground) + " class=\""@ + w.class_name@
        + "\" exe=\""@ + or_text(w.exe, "<unknown>"@) + "\" title=\""@ + without_double_quotes(w.title@)
        + "\""@
}

/// The report of a window list, one line per window.
pub fn window_list_lines(windows: &Vec<WindowInfo>) -> (r: Vec<String>)
    ensures
        lines_view(r@) == windows@.map_values(|w: WindowInfo| window_list_line(w)),
{
    let mut lines: Vec<String> = Vec::new();
    let mut i: usize = 0;
    while i < windows.len()
        invariant
            i <= windows@.len(),
            lines_view(lines@) == windows@.subrange(0, i as int).map_values(|w: WindowInfo| window_list_line(w)),
        decreases windows@.len() - i,
    {
        let w = &windows[i];
        let mut out: Vec<char> = Vec::new();
        push_str(&mut out, w.hwnd.as_str());
        push_str(&mut out, " pid=");
        push_unsigned(&mut out, w.pid as u64);
        push_str(&mut out, " visible=");
        push_bool(&mut out, w.visible);
        push_str(&mut out, " minimized=");
        push_bool(&mut out, w.minimized);
        push_str(&mut out, " foreground=");
        push_bool(&mut out, w.foreground);
        push_str(&mut out, " class=\"");
        push_str(&mut out, w.class_name.as_str());
        push_str(&mut out, "\" exe=\"");
        push_or(&mut out, &w.exe, "<unknown>");
        push_str(&mut out, "\" title=\"");
        push_without_double_quotes(&mut out, w.title.as_str());
        push_str(&mut out, "\"");
        proof {
            assert(out@ =~= window_list_line(*w));
        }
        lines.push(string_from_chars(&out));
        proof {
            assert(windows@.subrange(0, i + 1).map_values(|w: WindowInfo| window_list_line(w)) =~= windows@.subrange(
                0,
                i as int,
            ).map_values(|w: WindowInfo| window_list_line(w)).push(window_list_line(windows@[i as int])));
            assert(lines_view(lines@) =~= windows@.subrange(0, i + 1).map_values(|w: WindowInfo| window_list_line(w)));
        }
        i = i + 1;
    }
    proof {
        assert(windows@.subrange(0, windows@.len() as int) =~= windows@);
    }
    lines
}

/// The report of a window action: the action, then the window.
pub fn window_action_lines(result: &WindowActionResult) -> (r: Vec<String>)
    ensures
        lines_view(r@) == seq!["action: "@ + result.action@] + window_info_text(result.window),
{
    let mut lines: Vec<String> = Vec::new();
    lines.push(labeled("action: ", result.action.as_str()));
    push_window_info(&mut lines, &result.window);
    proof {
        assert(lines_view(lines@) =~= seq!["action: "@ + result.action@] + window_info_text(result.window));
    }
    lines
}

/// The report of a screenshot: path, size and backend.
pub fn screenshot_lines(result: &ScreenshotResult) -> (r: Vec<String>)
    ensures
        lines_view(r@) == seq![
            "path: "@ + result.path@,
            "width: "@ + decimal_digits(result.width as nat),
            "height: "@ + decimal_digits(result.height as nat),
            "backend: "@ + screenshot_backend_name(result.backend),
        ],
{
    let mut lines: Vec<String> = Vec::new();
    lines.push(labeled("path: ", result.path.as_str()));
    let mut width = chars_of("width: ");
    push_unsigned(&mut width, result.width as u64);
    lines.push(string_from_chars(&width));
    let mut height = chars_of("height: ");
    push_unsigned(&mut height, result.height as u64);
    lines.push(string_from_chars(&height));
    lines.push(labeled("backend: ", result.backend.as_str()));
    proof {
        assert(lines_view(lines@) =~= seq![
            "path: "@ + result.path@,
            "width: "@ + decimal_digits(result.width as nat),
            "height: "@ + decimal_digits(result.height as nat),
            "backend: "@ + screenshot_backend_name(result.backend),
        ]);
    }
    lines
}

/// The report of an input action: the action, the input mode and the details, then the
/// window when there is one.
pub fn input_action_lines(result: &InputActionResult) -> (r: Vec<String>)
    ensures
        lines_view(r@) == seq![
            "action: "@ + result.action@,
            "mode: "@ + input_mode_name(result.mode),
            "details: "@ + result.details@,
        ] + match result.window {
            Some(w) => window_info_text(w),
            None => Seq::empty(),
        },
{
    let mut lines: Vec<String> = Vec::new();
    lines.push(labeled("action: ", result.action.as_str()));
    lines.push(labeled("mode: ", result.mode.as_str()));
    lines.push(labeled("details: ", result.details.as_str()));
    let ghost head = lines_view(lines@);
    match &result.window {
        Some(w) => push_window_info(&mut lines, w),
        None => {},
    }
    proof {
        assert(head =~= seq![
            "action: "@ + result.action@,
            "mode: "@ + input_mode_name(result.mode),
            "details: "@ + result.details@,
        ]);
        assert(lines_view(lines@) =~= head + match result.window {
            Some(w) => window_info_text(w),
            None => Seq::empty(),
        });
    }
    lines
}

/// The report of a profile run: the profile, the clicks fired, then the target window.
pub fn profile_run_lines(result: &ProfileRunResult) -> (r: Vec<String>)
    ensures
        lines_view(r@) == seq![
            "profile_id: "@ + result.profile_id@,
            "profile_name: "@ + result.profile_name@,
            "clicks_fired: "@ + decimal_digits(result.clicks_fired as nat),
        ] + window_info_text(result.target_window),
{
    let mut lines: Vec<String> = Vec::new();
    lines.push(labeled("profile_id: ", result.profile_id.as_str()));
    lines.push(labeled("profile_name: ", result.profile_name.as_str()));
    let mut clicks = chars_of("clicks_fired: ");
    push_unsigned(&mut clicks, result.clicks_fired);
    lines.push(string_from_chars(&clicks));
    push_window_info(&mut lines, &result.target_window);
    proof {
        assert(lines_view(lines@) =~= seq![
            "profile_id: "@ + result.profile_id@,
            "profile_name: "@ + result.profile_name@,
            "clicks_fired: "@ + decimal_digits(result.clicks_fired as nat),
        ] + window_info_text(result.target_window));
    }
    lines
}

// ----------------------------------------------------------------------------------------------
// UI Automation trees.
/// Two spaces per level of depth.
pub open spec fn indent(depth: nat) -> Seq<char> {
    Seq::new(2 * depth, |i: int| ' ')
}

/// The optional text of a number, or `<unknown>`.
pub open spec fn control_type_text(v: Option<i32>) -> Seq<char> {
    match v {
        Some(n) => signed_decimal(n as int),
        None => "<unknown>"@,
    }
}

/// The optional text of a flag, or `<unknown>`.
pub open spec fn enabled_text(v: Option<bool>) -> Seq<char> {
    match v {
        Some(b) => bool_text(b),
        None => "<unknown>"@,
    }
}

/// The rectangle suffix of an element line, when it has a rectangle.
pub open spec fn rect_suffix(r: Option<Rect>) -> Seq<char> {
    match r {
        Some(r) => " rect=("@ + signed_decimal(r.left as int) + ", "@ + signed_decimal(r.top as int) + ", "@
            + signed_decimal(r.right as int) + ", "@ + signed_decimal(r.bottom as int) + ")"@,
        None => ""@,
    }
}

/// The line of one element at a depth: indented, with its name, automation id, class, kind,
/// control type, enabled state, window handle and rectangle.
pub open spec fn node_line(n: UiaElementInfo, depth: nat) -> Seq<char> {
    indent(depth) + "- name=\""@ + or_text(n.name, ""@) + "\" automation_id=\""@ + or_text(n.automation_id, ""@)
        + "\" class=\""@ + or_text(n.class_name, ""@) + "\" kind=\""@ + or_text(n.localized_control_type, ""@)
        + "\" control_type="@ + control_type_text(n.control_type) + " enabled="@ + enabled_text(n.enabled)
        + " hwnd="@ + or_text(n.hwnd, ""@) + rect_suffix(n.rect)
}

/// The lines of an element and its subtree, depth first, each child one level deeper.
pub open spec fn node_lines(n: UiaElementInfo, depth: nat) -> Seq<Seq<char>>
    decreases n, n.children@.len() + 1,
{
    seq![node_line(n, depth)] + children_lines(n, n.children@.len(), depth + 1)
}

/// The lines of the first `k` children of an element and their subtrees.
pub open spec fn children_lines(n: UiaElementInfo, k: nat, depth: nat) -> Seq<Seq<char>>
    decreases n, k,
{
    if k == 0 || k > n.children@.len() {
        Seq::empty()
    } else {
        children_lines(n, (k - 1) as nat, depth) + node_lines(n.children@[k - 1], depth)
    }
}

/// How many levels an element's subtree spans.
pub open spec fn nesting(n: UiaElementInfo) -> nat
    decreases n, n.children@.len() + 1,
{
    1 + children_nesting(n, n.children@.len())
}

/// How many levels the subtrees of the first `k` children span at most.
pub open spec fn children_nesting(n: UiaElementInfo, k: nat) -> nat
    decreases n, k,
{
    if k == 0 || k > n.children@.len() {
        0
    } else {
        let a = children_nesting(n, (k - 1) as nat);
        let b = nesting(n.children@[k - 1]);
        if a >= b {
            a
        } else {
            b
        }
    }
}

proof fn lemma_children_nesting(n: UiaElementInfo, k: nat, i: int)
    requires
        0 <= i < k <= n.children@.len(),
    ensures
        nesting(n.children@[i]) <= children_nesting(n, k),
    decreases k,
{
    if i < k - 1 {
        lemma_children_nesting(n, (k - 1) as nat, i);
    }
}

fn push_indent(out: &mut Vec<char>, depth: usize)
    requires
        depth <= usize::MAX / 2,
    ensures
        final(out)@ == old(out)@ + indent(depth as nat),
{
    let ghost start = out@;
    let mut i: usize = 0;
    while i < 2 * depth
        invariant
            depth <= usize::MAX / 2,
            i <= 2 * depth,
            out@ == start + Seq::new(i as nat, |j: int| ' '),
        decreases 2 * depth - i,
    {
        out.push(' ');
        proof {
            assert(start + Seq::new((i + 1) as nat, |j: int| ' ') =~= (start + Seq::new(i as nat, |j: int| ' ')).push(' '));
        }
        i = i + 1;
    }
}

/// The line of one element.
#[verifier::spinoff_prover]
fn node_line_text(n: &UiaElementInfo, depth: usize) -> (r: String)
    requires
        depth <= usize::MAX / 2,
    ensures
        r@ == node_line(*n, depth as nat),
{
    let mut out: Vec<char> = Vec::new();
    push_indent(&mut out, depth);
    push_str(&mut out, "- name=\"");
    push_or(&mut out, &n.name, "");
    push_str(&mut out, "\" automation_id=\"");
    push_or(&mut out, &n.automation_id, "");
    push_str(&mut out, "\" class=\"");
    push_or(&mut out, &n.class_name, "");
    push_str(&mut out, "\" kind=\"");
    push_or(&mut out, &n.localized_control_type, "");
    push_str(&mut out, "\" control_type=");
    match n.control_type {
        Some(v) => push_signed(&mut out, v),
        None => push_str(&mut out, "<unknown>"),
    }
    push_str(&mut out, " enabled=");
    match n.enabled {
        Some(b) => push_bool(&mut out, b),
        None => push_str(&mut out, "<unknown>"),
    }
    push_str(&mut out, " hwnd=");
    push_or(&mut out, &n.hwnd, "");
    match n.rect {
        Some(r) => {
            push_str(&mut out, " rect=(");
            push_signed(&mut out, r.left);
            push_str(&mut out, ", ");
            push_signed(&mut out, r.top);
            push_str(&mut out, ", ");
            push_signed(&mut out, r.right);
            push_str(&mut out, ", ");
            push_signed(&mut out, r.bottom);
            push_str(&mut out, ")");
        },
        None => push_str(&mut out, ""),
    }
    proof {
        assert(out@ =~= node_line(*n, depth as nat));
    }
    string_from_chars(&out)
}

/// Appends the lines of an element and its subtree.
#[verifier::spinoff_prover]
fn push_node_lines(lines: &mut Vec<String>, n: &UiaElementInfo, depth: usize)
    requires
        depth + nesting(*n) <= usize::MAX / 2,
    ensures
        lines_view(final(lines)@) == lines_view(old(lines)@) + node_lines(*n, depth as nat),
    decreases n,
{
    let line = node_line_text(n, depth);
    let ghost start = lines_view(lines@);
    lines.push(line);
    let mut i: usize = 0;
    while i < n.children.len()
        invariant
            i <= n.children@.len(),
            depth + nesting(*n) <= usize::MAX / 2,
            lines_view(lines@) == start + seq![node_line(*n, depth as nat)] + children_lines(*n, i as nat, (depth + 1) as nat),
        decreases n.children@.len() - i,
    {
        proof {
            lemma_children_nesting(*n, n.children@.len(), i as int);
        }
        let ghost before = lines_view(lines@);
        push_node_lines(lines, &n.children[i], depth + 1);
        proof {
            assert(children_lines(*n, (i + 1) as nat, (depth + 1) as nat) == children_lines(*n, i as nat, (depth + 1) as nat) + node_lines(n.children@[i as int], (depth + 1) as nat));
            assert(lines_view(lines@) =~= start + seq![node_line(*n, depth as nat)] + children_lines(*n, (i + 1) as nat, (depth + 1) as nat));
        }
        i = i + 1;
    }
}

/// The lines of an element tree, from a depth.
pub fn uia_node_lines(n: &UiaElementInfo, depth: usize) -> (r: Vec<String>)
    requires
        depth + nesting(*n) <= usize::MAX / 2,
    ensures
        lines_view(r@) == node_lines(*n, depth as nat),
{
    let mut lines: Vec<String> = Vec::new();
    push_node_lines(&mut lines, n, depth);
    proof {
        assert(lines_view(Seq::<String>::empty()) =~= Seq::<Seq<char>>::empty());
        assert(Seq::<Seq<char>>::empty() + node_lines(*n, depth as nat) =~= node_lines(*n, depth as nat));
    }
    lines
}

/// `control` or `raw`.
pub open spec fn tree_mode_name(m: UiaTreeMode) -> Seq<char> {
    match m {
        UiaTreeMode::Control => "control"@,
        UiaTreeMode::Raw => "raw"@,
    }
}

/// The report of a UI Automation tree: the window's handle, the tree mode, then the tree.
pub fn uia_tree_lines(response: &UiaTreeResponse) -> (r: Vec<String>)
    requires
        nesting(response.root) <= usize::MAX / 2,
    ensures
        lines_view(r@) == seq!["window: "@ + response.window.hwnd@, "mode: "@ + tree_mode_name(response.mode)]
            + node_lines(response.root, 0),
{
    let mut lines: Vec<String> = Vec::new();
    lines.push(labeled("window: ", response.window.hwnd.as_str()));
    let mode = match response.mode {
        UiaTreeMode::Control => "control",
        UiaTreeMode::Raw => "raw",
    };
    lines.push(labeled("mode: ", mode));
    let ghost head = lines_view(lines@);
    push_node_lines(&mut lines, &response.root, 0);
    proof {
        assert(head =~= seq!["window: "@ + response.window.hwnd@, "mode: "@ + tree_mode_name(response.mode)]);
    }
    lines
}

/// The lines of a list of element trees, each from depth zero.
pub open spec fn forest_lines(nodes: Seq<UiaElementInfo>) -> Seq<Seq<char>>
    decreases nodes.len(),
{
    if nodes.len() == 0 {
        Seq::empty()
    } else {
        forest_lines(nodes.drop_last()) + node_lines(nodes.last(), 0)
    }
}

/// The report of a find: the window's handle, then each match with its subtree.
pub fn uia_find_lines(response: &UiaFindResponse) -> (r: Vec<String>)
    requires
        forall|i: int| 0 <= i < response.matches@.len() ==> nesting(#[trigger] response.matches@[i]) <= usize::MAX / 2,
    ensures
        lines_view(r@) == seq!["window: "@ + response.window.hwnd@] + forest_lines(response.matches@),
{
    let mut lines: Vec<String> = Vec::new();
    lines.push(labeled("window: ", response.window.hwnd.as_str()));
    let ghost head = lines_view(lines@);
    let mut i: usize = 0;
    while i < response.matches.len()
        invariant
            i <= response.matches@.len(),
            forall|i: int| 0 <= i < response.matches@.len() ==> nesting(#[trigger] response.matches@[i]) <= usize::MAX / 2,
            lines_view(lines@) == head + forest_lines(response.matches@.subrange(0, i as int)),
        decreases response.matches@.len() - i,
    {
        push_node_lines(&mut lines, &response.matches[i], 0);
        proof {
            let prefix = response.matches@.subrange(0, i + 1);
            assert(prefix.drop_last() =~= response.matches@.subrange(0, i as int));
            assert(lines_view(lines@) =~= head + forest_lines(prefix));
        }
        i = i + 1;
    }
    proof {
        assert(response.matches@.subrange(0, response.matches@.len() as int) =~= response.matches@);
    }
    lines
}

/// The report of a UI Automation action: the action, the window's handle, the details when
/// there are any, then the element with its subtree.
pub fn uia_action_lines(result: &UiaActionResult) -> (r: Vec<String>)
    requires
        nesting(result.element) <= usize::MAX / 2,
    ensures
        lines_view(r@) == seq!["action: "@ + result.action@, "window: "@ + result.window.hwnd@] + match result.details {
            Some(d) => seq!["details: "@ + d@],
            None => Seq::empty(),
        } + node_lines(result.element, 0),
{
    let mut lines: Vec<String> = Vec::new();
    lines.push(labeled("action: ", result.action.as_str()));
    lines.push(labeled("window: ", result.window.hwnd.as_str()));
    match &result.details {
        Some(d) => lines.push(labeled("details: ", d.as_str())),
        None => {},
    }
    let ghost head = lines_view(lines@);
    push_node_lines(&mut lines, &result.element, 0);
    proof {
        assert(head =~= seq!["action: "@ + result.action@, "window: "@ + result.window.hwnd@] + match result.details {
            Some(d) => seq!["details: "@ + d@],
            None => Seq::empty(),
        });
    }
    lines
}

} // verus!
