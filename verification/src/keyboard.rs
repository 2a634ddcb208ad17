//! Keyboard and mouse input plans: key combos such as `ctrl+shift+s`, typed text as UTF-16
//! key events, mouse button events, and the check of what the system accepted.
use vstd::prelude::*;

use crate::text::{
    ascii_lower_seq, chars_of, chars_trim, decimal_digits, eq_ignore_ascii_case, eq_ignore_ascii_case_spec,
    push_all, push_str, string_from_chars, trim_spec, u64_to_decimal,
};
use crate::types::{unsupported_chars, InputActionResult, WindowInfo, WinrError, WinrResult};
use crate::text::{has_prefix, signed_decimal, i64_to_decimal, string_of};

verus! {

/// One keyboard event: a virtual-key code (0 for typed text), a UTF-16 unit for typed text,
/// and whether the key goes up.
#[derive(Debug, Clone, Copy, PartialEq, Eq, Structural)]
pub struct KeyEvent {
    pub vk: u16,
    pub scan: u16,
    pub key_up: bool,
    pub unicode: bool,
}

/// Virtual-key code of a modifier name, any ASCII case: ctrl/control, alt, shift, win/meta/super.
pub open spec fn modifier_code(t: Seq<char>) -> Option<u16> {
    if eq_ignore_ascii_case_spec(t, "ctrl"@) || eq_ignore_ascii_case_spec(t, "control"@) {
        Some(0x11)
    } else if eq_ignore_ascii_case_spec(t, "alt"@) {
        Some(0x12)
    } else if eq_ignore_ascii_case_spec(t, "shift"@) {
        Some(0x10)
    } else if eq_ignore_ascii_case_spec(t, "win"@) || eq_ignore_ascii_case_spec(t, "meta"@)
        || eq_ignore_ascii_case_spec(t, "super"@) {
        Some(0x5B)
    } else {
        None
    }
}

/// Virtual-key code of an editing or navigation key name, any ASCII case.
pub open spec fn editing_key_code(t: Seq<char>) -> Option<u16> {
    if eq_ignore_ascii_case_spec(t, "enter"@) || eq_ignore_ascii_case_spec(t, "return"@) {
        Some(0x0D)
    } else if eq_ignore_ascii_case_spec(t, "tab"@) {
        Some(0x09)
    } else if eq_ignore_ascii_case_spec(t, "esc"@) || eq_ignore_ascii_case_spec(t, "escape"@) {
        Some(0x1B)
    } else if eq_ignore_ascii_case_spec(t, "backspace"@) {
        Some(0x08)
    } else if eq_ignore_ascii_case_spec(t, "delete"@) || eq_ignore_ascii_case_spec(t, "del"@) {
        Some(0x2E)
    } else if eq_ignore_ascii_case_spec(t, "space"@) {
        Some(0x20)
    } else if eq_ignore_ascii_case_spec(t, "left"@) {
        Some(0x25)
    } else if eq_ignore_ascii_case_spec(t, "right"@) {
        Some(0x27)
    } else if eq_ignore_ascii_case_spec(t, "up"@) {
        Some(0x26)
    } else if eq_ignore_ascii_case_spec(t, "down"@) {
        Some(0x28)
    } else if eq_ignore_ascii_case_spec(t, "home"@) {
        Some(0x24)
    } else if eq_ignore_ascii_case_spec(t, "end"@) {
        Some(0x23)
    } else if eq_ignore_ascii_case_spec(t, "pageup"@) {
        Some(0x21)
    } else if eq_ignore_ascii_case_spec(t, "pagedown"@) {
        Some(0x22)
    } else {
        None
    }
}

/// Virtual-key code of a function key name f1..f12, any ASCII case.
pub open spec fn function_key_code(t: Seq<char>) -> Option<u16> {
    if eq_ignore_ascii_case_spec(t, "f1"@) {
        Some(0x70)
    } else if eq_ignore_ascii_case_spec(t, "f2"@) {
        Some(0x71)
    } else if eq_ignore_ascii_case_spec(t, "f3"@) {
        Some(0x72)
    } else if eq_ignore_ascii_case_spec(t, "f4"@) {
        Some(0x73)
    } else if eq_ignore_ascii_case_spec(t, "f5"@) {
        Some(0x74)
    } else if eq_ignore_ascii_case_spec(t, "f6"@) {
        Some(0x75)
    } else if eq_ignore_ascii_case_spec(t, "f7"@) {
        Some(0x76)
    } else if eq_ignore_ascii_case_spec(t, "f8"@) {
        Some(0x77)
    } else if eq_ignore_ascii_case_spec(t, "f9"@) {
        Some(0x78)
    } else if eq_ignore_ascii_case_spec(t, "f10"@) {
        Some(0x79)
    } else if eq_ignore_ascii_case_spec(t, "f11"@) {
        Some(0x7A)
    } else if eq_ignore_ascii_case_spec(t, "f12"@) {
        Some(0x7B)
    } else {
        None
    }
}

/// Virtual-key code of a named key.
pub open spec fn key_code(t: Seq<char>) -> Option<u16> {
    match editing_key_code(t) {
        Some(c) => Some(c),
        None => function_key_code(t),
    }
}

/// Text without ASCII capitals is its own ASCII lowercase form.
proof fn lemma_lowercase_name(n: Seq<char>)
    requires
        forall|i: int| 0 <= i < n.len() ==> !('A' <= #[trigger] n[i] && n[i] <= 'Z'),
    ensures
        ascii_lower_seq(n) == n,
{
    assert(ascii_lower_seq(n) =~= n);
}

/// Every key name, in any ASCII case, gets its Win32 virtual-key code: VK_RETURN, VK_TAB,
/// VK_ESCAPE, VK_BACK, VK_DELETE, VK_SPACE, the arrows VK_LEFT 0x25, VK_UP 0x26, VK_RIGHT 0x27 and
/// VK_DOWN 0x28, VK_HOME, VK_END, VK_PRIOR (page up), VK_NEXT (page down), and VK_F1..VK_F12.
pub proof fn lemma_named_key_codes(t: Seq<char>)
    ensures
        eq_ignore_ascii_case_spec(t, "enter"@) ==> key_code(t) == Some(0x0Du16),
        eq_ignore_ascii_case_spec(t, "return"@) ==> key_code(t) == Some(0x0Du16),
        eq_ignore_ascii_case_spec(t, "tab"@) ==> key_code(t) == Some(0x09u16),
        eq_ignore_ascii_case_spec(t, "esc"@) ==> key_code(t) == Some(0x1Bu16),
        eq_ignore_ascii_case_spec(t, "escape"@) ==> key_code(t) == Some(0x1Bu16),
        eq_ignore_ascii_case_spec(t, "backspace"@) ==> key_code(t) == Some(0x08u16),
        eq_ignore_ascii_case_spec(t, "delete"@) ==> key_code(t) == Some(0x2Eu16),
        eq_ignore_ascii_case_spec(t, "del"@) ==> key_code(t) == Some(0x2Eu16),
        eq_ignore_ascii_case_spec(t, "space"@) ==> key_code(t) == Some(0x20u16),
        eq_ignore_ascii_case_spec(t, "left"@) ==> key_code(t) == Some(0x25u16),
        eq_ignore_ascii_case_spec(t, "right"@) ==> key_code(t) == Some(0x27u16),
        eq_ignore_ascii_case_spec(t, "up"@) ==> key_code(t) == Some(0x26u16),
        eq_ignore_ascii_case_spec(t, "down"@) ==> key_code(t) == Some(0x28u16),
        eq_ignore_ascii_case_spec(t, "home"@) ==> key_code(t) == Some(0x24u16),
        eq_ignore_ascii_case_spec(t, "end"@) ==> key_code(t) == Some(0x23u16),
        eq_ignore_ascii_case_spec(t, "pageup"@) ==> key_code(t) == Some(0x21u16),
        eq_ignore_ascii_case_spec(t, "pagedown"@) ==> key_code(t) == Some(0x22u16),
        eq_ignore_ascii_case_spec(t, "f1"@) ==> key_code(t) == Some(0x70u16),
        eq_ignore_ascii_case_spec(t, "f2"@) ==> key_code(t) == Some(0x71u16),
        eq_ignore_ascii_case_spec(t, "f3"@) ==> key_code(t) == Some(0x72u16),
        eq_ignore_ascii_case_spec(t, "f4"@) ==> key_code(t) == Some(0x73u16),
        eq_ignore_ascii_case_spec(t, "f5"@) ==> key_code(t) == Some(0x74u16),
        eq_ignore_ascii_case_spec(t, "f6"@) ==> key_code(t) == Some(0x75u16),
        eq_ignore_ascii_case_spec(t, "f7"@) ==> key_code(t) == Some(0x76u16),
        eq_ignore_ascii_case_spec(t, "f8"@) ==> key_code(t) == Some(0x77u16),
        eq_ignore_ascii_case_spec(t, "f9"@) ==> key_code(t) == Some(0x78u16),
        eq_ignore_ascii_case_spec(t, "f10"@) ==> key_code(t) == Some(0x79u16),
        eq_ignore_ascii_case_spec(t, "f11"@) ==> key_code(t) == Some(0x7Au16),
        eq_ignore_ascii_case_spec(t, "f12"@) ==> key_code(t) == Some(0x7Bu16),
{
    reveal_strlit("enter");
    lemma_lowercase_name("enter"@);
    reveal_strlit("return");
    lemma_lowercase_name("return"@);
    reveal_strlit("tab");
    lemma_lowercase_name("tab"@);
    reveal_strlit("esc");
    lemma_lowercase_name("esc"@);
    reveal_strlit("escape");
    lemma_lowercase_name("escape"@);
    reveal_strlit("backspace");
    lemma_lowercase_name("backspace"@);
    reveal_strlit("delete");
    lemma_lowercase_name("delete"@);
    reveal_strlit("del");
    lemma_lowercase_name("del"@);
    reveal_strlit("space");
    lemma_lowercase_name("space"@);
    reveal_strlit("left");
    lemma_lowercase_name("left"@);
    reveal_strlit("right");
    lemma_lowercase_name("right"@);
    reveal_strlit("up");
    lemma_lowercase_name("up"@);
    reveal_strlit("down");
    lemma_lowercase_name("down"@);
    reveal_strlit("home");
    lemma_lowercase_name("home"@);
    reveal_strlit("end");
    lemma_lowercase_name("end"@);
    reveal_strlit("pageup");
    lemma_lowercase_name("pageup"@);
    reveal_strlit("pagedown");
    lemma_lowercase_name("pagedown"@);
    reveal_strlit("f1");
    lemma_lowercase_name("f1"@);
    reveal_strlit("f2");
    lemma_lowercase_name("f2"@);
    reveal_strlit("f3");
    lemma_lowercase_name("f3"@);
    reveal_strlit("f4");
    lemma_lowercase_name("f4"@);
    reveal_strlit("f5");
    lemma_lowercase_name("f5"@);
    reveal_strlit("f6");
    lemma_lowercase_name("f6"@);
    reveal_strlit("f7");
    lemma_lowercase_name("f7"@);
    reveal_strlit("f8");
    lemma_lowercase_name("f8"@);
    reveal_strlit("f9");
    lemma_lowercase_name("f9"@);
    reveal_strlit("f10");
    lemma_lowercase_name("f10"@);
    reveal_strlit("f11");
    lemma_lowercase_name("f11"@);
    reveal_strlit("f12");
    lemma_lowercase_name("f12"@);
    assert("esc"@[0] != "tab"@[0]);
    assert("escape"@[0] != "return"@[0]);
    assert("delete"@[0] != "return"@[0]);
    assert("delete"@[0] != "escape"@[0]);
    assert("del"@[0] != "tab"@[0]);
    assert("del"@[0] != "esc"@[0]);
    assert("space"@[0] != "enter"@[0]);
    assert("right"@[0] != "enter"@[0]);
    assert("right"@[0] != "space"@[0]);
    assert("down"@[0] != "left"@[0]);
    assert("home"@[0] != "left"@[0]);
    assert("home"@[0] != "down"@[0]);
    assert("end"@[0] != "tab"@[0]);
    assert("end"@[1] != "esc"@[1]);
    assert("end"@[0] != "del"@[0]);
    assert("pageup"@[0] != "return"@[0]);
    assert("pageup"@[0] != "escape"@[0]);
    assert("pageup"@[0] != "delete"@[0]);
    assert("f1"@[0] != "up"@[0]);
    assert("f2"@[0] != "up"@[0]);
    assert("f2"@[1] != "f1"@[1]);
    assert("f3"@[0] != "up"@[0]);
    assert("f3"@[1] != "f1"@[1]);
    assert("f3"@[1] != "f2"@[1]);
    assert("f4"@[0] != "up"@[0]);
    assert("f4"@[1] != "f1"@[1]);
    assert("f4"@[1] != "f2"@[1]);
    assert("f4"@[1] != "f3"@[1]);
    assert("f5"@[0] != "up"@[0]);
    assert("f5"@[1] != "f1"@[1]);
    assert("f5"@[1] != "f2"@[1]);
    assert("f5"@[1] != "f3"@[1]);
    assert("f5"@[1] != "f4"@[1]);
    assert("f6"@[0] != "up"@[0]);
    assert("f6"@[1] != "f1"@[1]);
    assert("f6"@[1] != "f2"@[1]);
    assert("f6"@[1] != "f3"@[1]);
    assert("f6"@[1] != "f4"@[1]);
    assert("f6"@[1] != "f5"@[1]);
    assert("f7"@[0] != "up"@[0]);
    assert("f7"@[1] != "f1"@[1]);
    assert("f7"@[1] != "f2"@[1]);
    assert("f7"@[1] != "f3"@[1]);
    assert("f7"@[1] != "f4"@[1]);
    assert("f7"@[1] != "f5"@[1]);
    assert("f7"@[1] != "f6"@[1]);
    assert("f8"@[0] != "up"@[0]);
    assert("f8"@[1] != "f1"@[1]);
    assert("f8"@[1] != "f2"@[1]);
    assert("f8"@[1] != "f3"@[1]);
    assert("f8"@[1] != "f4"@[1]);
    assert("f8"@[1] != "f5"@[1]);
    assert("f8"@[1] != "f6"@[1]);
    assert("f8"@[1] != "f7"@[1]);
    assert("f9"@[0] != "up"@[0]);
    assert("f9"@[1] != "f1"@[1]);
    assert("f9"@[1] != "f2"@[1]);
    assert("f9"@[1] != "f3"@[1]);
    assert("f9"@[1] != "f4"@[1]);
    assert("f9"@[1] != "f5"@[1]);
    assert("f9"@[1] != "f6"@[1]);
    assert("f9"@[1] != "f7"@[1]);
    assert("f9"@[1] != "f8"@[1]);
    assert("f10"@[0] != "tab"@[0]);
    assert("f10"@[0] != "esc"@[0]);
    assert("f10"@[0] != "del"@[0]);
    assert("f10"@[0] != "end"@[0]);
    assert("f11"@[0] != "tab"@[0]);
    assert("f11"@[0] != "esc"@[0]);
    assert("f11"@[0] != "del"@[0]);
    assert("f11"@[0] != "end"@[0]);
    assert("f11"@[2] != "f10"@[2]);
    assert("f12"@[0] != "tab"@[0]);
    assert("f12"@[0] != "esc"@[0]);
    assert("f12"@[0] != "del"@[0]);
    assert("f12"@[0] != "end"@[0]);
    assert("f12"@[2] != "f10"@[2]);
    assert("f12"@[2] != "f11"@[2]);
}

/// Every modifier name, in any ASCII case, gets its Win32 virtual-key code: VK_CONTROL for
/// ctrl/control, VK_MENU for alt, VK_SHIFT for shift, VK_LWIN for win/meta/super.
pub proof fn lemma_modifier_codes(t: Seq<char>)
    ensures
        eq_ignore_ascii_case_spec(t, "ctrl"@) ==> modifier_code(t) == Some(0x11u16),
        eq_ignore_ascii_case_spec(t, "control"@) ==> modifier_code(t) == Some(0x11u16),
        eq_ignore_ascii_case_spec(t, "alt"@) ==> modifier_code(t) == Some(0x12u16),
        eq_ignore_ascii_case_spec(t, "shift"@) ==> modifier_code(t) == Some(0x10u16),
        eq_ignore_ascii_case_spec(t, "win"@) ==> modifier_code(t) == Some(0x5Bu16),
        eq_ignore_ascii_case_spec(t, "meta"@) ==> modifier_code(t) == Some(0x5Bu16),
        eq_ignore_ascii_case_spec(t, "super"@) ==> modifier_code(t) == Some(0x5Bu16),
{
    reveal_strlit("ctrl");
    lemma_lowercase_name("ctrl"@);
    reveal_strlit("control");
    lemma_lowercase_name("control"@);
    reveal_strlit("alt");
    lemma_lowercase_name("alt"@);
    reveal_strlit("shift");
    lemma_lowercase_name("shift"@);
    reveal_strlit("win");
    lemma_lowercase_name("win"@);
    reveal_strlit("meta");
    lemma_lowercase_name("meta"@);
    reveal_strlit("super");
    lemma_lowercase_name("super"@);
    assert("win"@[0] != "alt"@[0]);
    assert("meta"@[0] != "ctrl"@[0]);
    assert("super"@[1] != "shift"@[1]);
}

/// The virtual-key code of a modifier name.
pub fn named_modifier(token: &str) -> (r: Option<u16>)
    ensures
        r == modifier_code(token@),
{
    if eq_ignore_ascii_case(token, "ctrl") || eq_ignore_ascii_case(token, "control") {
        Some(0x11)
    } else if eq_ignore_ascii_case(token, "alt") {
        Some(0x12)
    } else if eq_ignore_ascii_case(token, "shift") {
        Some(0x10)
    } else if eq_ignore_ascii_case(token, "win") || eq_ignore_ascii_case(token, "meta")
        || eq_ignore_ascii_case(token, "super") {
        Some(0x5B)
    } else {
        None
    }
}

fn editing_key(token: &str) -> (r: Option<u16>)
    ensures
        r == editing_key_code(token@),
{
    if eq_ignore_ascii_case(token, "enter") || eq_ignore_ascii_case(token, "return") {
        Some(0x0D)
    } else if eq_ignore_ascii_case(token, "tab") {
        Some(0x09)
    } else if eq_ignore_ascii_case(token, "esc") || eq_ignore_ascii_case(token, "escape") {
        Some(0x1B)
    } else if eq_ignore_ascii_case(token, "backspace") {
        Some(0x08)
    } else if eq_ignore_ascii_case(token, "delete") || eq_ignore_ascii_case(token, "del") {
        Some(0x2E)
    } else if eq_ignore_ascii_case(token, "space") {
        Some(0x20)
    } else if eq_ignore_ascii_case(token, "left") {
        Some(0x25)
    } else if eq_ignore_ascii_case(token, "right") {
        Some(0x27)
    } else if eq_ignore_ascii_case(token, "up") {
        Some(0x26)
    } else if eq_ignore_ascii_case(token, "down") {
        Some(0x28)
    } else if eq_ignore_ascii_case(token, "home") {
        Some(0x24)
    } else if eq_ignore_ascii_case(token, "end") {
        Some(0x23)
    } else if eq_ignore_ascii_case(token, "pageup") {
        Some(0x21)
    } else if eq_ignore_ascii_case(token, "pagedown") {
        Some(0x22)
    } else {
        None
    }
}

fn function_key(token: &str) -> (r: Option<u16>)
    ensures
        r == function_key_code(token@),
{
    if eq_ignore_ascii_case(token, "f1") {
        Some(0x70)
    } else if eq_ignore_ascii_case(token, "f2") {
        Some(0x71)
    } else if eq_ignore_ascii_case(token, "f3") {
        Some(0x72)
    } else if eq_ignore_ascii_case(token, "f4") {
        Some(0x73)
    } else if eq_ignore_ascii_case(token, "f5") {
        Some(0x74)
    } else if eq_ignore_ascii_case(token, "f6") {
        Some(0x75)
    } else if eq_ignore_ascii_case(token, "f7") {
        Some(0x76)
    } else if eq_ignore_ascii_case(token, "f8") {
        Some(0x77)
    } else if eq_ignore_ascii_case(token, "f9") {
        Some(0x78)
    } else if eq_ignore_ascii_case(token, "f10") {
        Some(0x79)
    } else if eq_ignore_ascii_case(token, "f11") {
        Some(0x7A)
    } else if eq_ignore_ascii_case(token, "f12") {
        Some(0x7B)
    } else {
        None
    }
}

/// The virtual-key code of a named key.
pub fn named_key(token: &str) -> (r: Option<u16>)
    ensures
        r == key_code(token@),
{
    match editing_key(token) {
        Some(c) => Some(c),
        None => function_key(token),
    }
}


// ----------------------------------------------------------------------------------------------
// Key tokens and combos.
/// The virtual key of a keyboard-layout scan result: its low byte.
pub open spec fn scan_vk(scan: i16) -> u16 {
    ((scan as u16) % 256) as u16
}

/// The shift state of a keyboard-layout scan result: its high byte.
pub open spec fn scan_state(scan: i16) -> u16 {
    ((scan as u16) / 256) as u16
}

/// The modifiers a shift state asks for: shift, control, alt, in that order.
pub open spec fn scan_modifiers(scan: i16) -> Seq<u16> {
    let state = scan_state(scan);
    (if state % 2 == 1 {
        seq![0x10u16]
    } else {
        Seq::empty()
    }) + (if (state / 2) % 2 == 1 {
        seq![0x11u16]
    } else {
        Seq::empty()
    }) + (if (state / 4) % 2 == 1 {
        seq![0x12u16]
    } else {
        Seq::empty()
    })
}

/// The key and implicit modifiers of a primary key token: a named key alone, or a single
/// character through the keyboard layout's scan result (-1 when the layout has no key for it).
pub open spec fn key_token_result(t: Seq<char>, scan: i16) -> Option<(u16, Seq<u16>)> {
    match key_code(t) {
        Some(c) => Some((c, Seq::empty())),
        None => if t.len() == 1 && scan != -1 {
            Some((scan_vk(scan), scan_modifiers(scan)))
        } else {
            None
        },
    }
}

/// Message of the error for a key token that names no key.
pub open spec fn unsupported_token_message(t: Seq<char>) -> Seq<char> {
    "unsupported key token '"@ + t + "'"@
}

/// Parses a primary key token; `key_scan` is the keyboard layout's scan result for the
/// token's first UTF-16 unit (used only for a single-character token).
pub fn parse_key_token(token: &str, key_scan: i16) -> (r: WinrResult<(u16, Vec<u16>)>)
    ensures
        match key_token_result(token@, key_scan) {
            Some((vk, mods)) => r matches Ok((v, m)) && v == vk && m@ == mods,
            None => r matches Err(e) && e is Unsupported && e->Unsupported_message@
                == unsupported_token_message(token@),
        },
{
    if let Some(vk) = named_key(token) {
        return Ok((vk, Vec::new()));
    }
    let chars = chars_of(token);
    if chars.len() == 1 && key_scan != -1 {
        let mapping = key_scan as u16;
        let vk = mapping % 256;
        let state = mapping / 256;
        let mut modifiers: Vec<u16> = Vec::new();
        if state % 2 == 1 {
            modifiers.push(0x10);
        }
        if (state / 2) % 2 == 1 {
            modifiers.push(0x11);
        }
        if (state / 4) % 2 == 1 {
            modifiers.push(0x12);
        }
        proof {
            assert(modifiers@ =~= scan_modifiers(key_scan));
        }
        return Ok((vk, modifiers));
    }
    let mut message: Vec<char> = Vec::new();
    push_str(&mut message, "unsupported key token '");
    push_str(&mut message, token);
    push_str(&mut message, "'");
    proof {
        assert(message@ =~= unsupported_token_message(token@));
    }
    Err(unsupported_chars(&message))
}

/// The parts of a text between `+` separators, empty parts included (as `str::split` yields).
pub open spec fn split_plus(s: Seq<char>) -> Seq<Seq<char>>
    decreases s.len(),
{
    if s.len() == 0 {
        seq![Seq::empty()]
    } else {
        let prefix = split_plus(s.drop_last());
        if s.last() == '+' {
            prefix.push(Seq::empty())
        } else {
            prefix.update(prefix.len() - 1, prefix.last().push(s.last()))
        }
    }
}

proof fn lemma_split_plus_nonempty(s: Seq<char>)
    ensures
        split_plus(s).len() >= 1,
    decreases s.len(),
{
    if s.len() > 0 {
        lemma_split_plus_nonempty(s.drop_last());
    }
}

/// Adds a modifier unless it is already listed.
pub open spec fn add_modifier(mods: Seq<u16>, m: u16) -> Seq<u16> {
    if mods.contains(m) {
        mods
    } else {
        mods.push(m)
    }
}

/// Adds each of several modifiers unless already listed, in order.
pub open spec fn add_modifiers(mods: Seq<u16>, extra: Seq<u16>) -> Seq<u16>
    decreases extra.len(),
{
    if extra.len() == 0 {
        mods
    } else {
        add_modifier(add_modifiers(mods, extra.drop_last()), extra.last())
    }
}

/// Progress of parsing a combo: modifiers so far, the primary key, and the failure if any.
pub struct ComboProgress {
    pub modifiers: Seq<u16>,
    pub key: Option<u16>,
    pub failure: Option<Seq<char>>,
}

/// Message of the error for a combo with two primary keys.
pub open spec fn two_keys_message(combo: Seq<char>) -> Seq<char> {
    "combo '"@ + combo + "' contains more than one primary key"@
}

/// Message of the error for a combo without a primary key.
pub open spec fn no_key_message(combo: Seq<char>) -> Seq<char> {
    "combo '"@ + combo + "' does not contain a primary key"@
}

/// One part of a combo applied to the progress: blank parts are skipped, modifier names add
/// their modifier, and the first other part is the primary key with its implicit modifiers;
/// a second primary key or an unknown token fails the combo.
pub open spec fn combo_step(state: ComboProgress, part: Seq<char>, combo: Seq<char>, scan: i16) -> ComboProgress {
    let p = trim_spec(part);
    if state.failure is Some || p.len() == 0 {
        state
    } else {
        match modifier_code(p) {
            Some(m) => ComboProgress { modifiers: add_modifier(state.modifiers, m), ..state },
            None => if state.key is Some {
                ComboProgress { failure: Some(two_keys_message(combo)), ..state }
            } else {
                match key_token_result(p, scan) {
                    Some((vk, implicit)) => ComboProgress {
                        modifiers: add_modifiers(state.modifiers, implicit),
                        key: Some(vk),
                        failure: None,
                    },
                    None => ComboProgress { failure: Some(unsupported_token_message(p)), ..state },
                }
            },
        }
    }
}

/// The progress after applying the given parts in order.
pub open spec fn combo_fold(parts: Seq<Seq<char>>, combo: Seq<char>, scan: i16) -> ComboProgress
    decreases parts.len(),
{
    if parts.len() == 0 {
        ComboProgress { modifiers: Seq::empty(), key: None, failure: None }
    } else {
        combo_step(combo_fold(parts.drop_last(), combo, scan), parts.last(), combo, scan)
    }
}

/// The key-down events of the modifiers, in order.
pub open spec fn modifiers_down(mods: Seq<u16>) -> Seq<KeyEvent> {
    mods.map_values(|m: u16| KeyEvent { vk: m, scan: 0, key_up: false, unicode: false })
}

/// The key-up events of the modifiers, last pressed first.
pub open spec fn modifiers_up(mods: Seq<u16>) -> Seq<KeyEvent> {
    mods.reverse().map_values(|m: u16| KeyEvent { vk: m, scan: 0, key_up: true, unicode: false })
}

/// The events of a combo: modifiers down, the key down and up, modifiers up in reverse.
pub open spec fn combo_events(mods: Seq<u16>, key: u16) -> Seq<KeyEvent> {
    modifiers_down(mods) + seq![
        KeyEvent { vk: key, scan: 0, key_up: false, unicode: false },
        KeyEvent { vk: key, scan: 0, key_up: true, unicode: false },
    ] + modifiers_up(mods)
}

/// What a combo yields: its events, or the message of the error.
pub open spec fn combo_outcome(combo: Seq<char>, scan: i16) -> Result<Seq<KeyEvent>, Seq<char>> {
    let st = combo_fold(split_plus(combo), combo, scan);
    match st.failure {
        Some(message) => Err(message),
        None => match st.key {
            Some(k) => Ok(combo_events(st.modifiers, k)),
            None => Err(no_key_message(combo)),
        },
    }
}

proof fn lemma_failure_sticks(parts: Seq<Seq<char>>, j: int, combo: Seq<char>, scan: i16)
    requires
        0 <= j <= parts.len(),
        combo_fold(parts.subrange(0, j), combo, scan).failure is Some,
    ensures
        combo_fold(parts, combo, scan).failure == combo_fold(parts.subrange(0, j), combo, scan).failure,
    decreases parts.len() - j,
{
    if j == parts.len() {
        assert(parts.subrange(0, j) =~= parts);
    } else {
        assert(parts.drop_last().subrange(0, j) =~= parts.subrange(0, j));
        lemma_failure_sticks(parts.drop_last(), j, combo, scan);
    }
}

/// Splits a text at `+` separators.
fn split_on_plus(s: &Vec<char>) -> (r: Vec<Vec<char>>)
    ensures
        r@.map_values(|p: Vec<char>| p@) == split_plus(s@),
{
    let mut parts: Vec<Vec<char>> = Vec::new();
    parts.push(Vec::new());
    let mut i: usize = 0;
    proof {
        assert(s@.subrange(0, 0) =~= Seq::<char>::empty());
        assert(parts@.map_values(|p: Vec<char>| p@) =~= split_plus(s@.subrange(0, 0)));
    }
    while i < s.len()
        invariant
            i <= s.len(),
            parts@.len() >= 1,
            parts@.map_values(|p: Vec<char>| p@) == split_plus(s@.subrange(0, i as int)),
        decreases s.len() - i,
    {
        let ghost before = parts@.map_values(|p: Vec<char>| p@);
        proof {
            assert(s@.subrange(0, i + 1).drop_last() =~= s@.subrange(0, i as int));
            assert(s@.subrange(0, i + 1).last() == s@[i as int]);
        }
        if s[i] == '+' {
            parts.push(Vec::new());
            proof {
                assert(parts@.map_values(|p: Vec<char>| p@) =~= before.push(Seq::empty()));
            }
        } else {
            let last_index = parts.len() - 1;
            let mut last = parts.remove(last_index);
            last.push(s[i]);
            parts.push(last);
            proof {
                assert(parts@.map_values(|p: Vec<char>| p@) =~= before.update(
                    before.len() - 1,
                    before.last().push(s@[i as int]),
                ));
            }
        }
        i = i + 1;
    }
    proof {
        assert(s@.subrange(0, s@.len() as int) =~= s@);
    }
    parts
}

/// Adds a modifier unless it is already listed.
fn push_modifier(mods: &mut Vec<u16>, m: u16)
    ensures
        final(mods)@ == add_modifier(old(mods)@, m),
{
    let mut present = false;
    let mut i: usize = 0;
    while i < mods.len()
        invariant
            i <= mods.len(),
            mods@ == old(mods)@,
            present <==> exists|k: int| 0 <= k < i && mods@[k] == m,
        decreases mods.len() - i,
    {
        if mods[i] == m {
            present = true;
        }
        i = i + 1;
    }
    proof {
        assert(present <==> mods@.contains(m));
    }
    if !present {
        mods.push(m);
    }
}

/// The events of a combo such as `ctrl+shift+s`: modifier names (any order, each once), one
/// primary key (a named key, or one character through `key_scan`, the keyboard layout's scan
/// result for it), separated by `+`, blanks ignored.
pub fn combo_key_events(combo: &str, key_scan: i16) -> (r: WinrResult<Vec<KeyEvent>>)
    ensures
        match combo_outcome(combo@, key_scan) {
            Ok(events) => r matches Ok(v) && v@ == events,
            Err(message) => r matches Err(e) && e is Unsupported && e->Unsupported_message@ == message,
        },
{
    let chars = chars_of(combo);
    let parts = split_on_plus(&chars);
    let ghost all = parts@.map_values(|p: Vec<char>| p@);
    let mut modifiers: Vec<u16> = Vec::new();
    let mut key: Option<u16> = None;
    let mut i: usize = 0;
    while i < parts.len()
        invariant
            i <= parts.len(),
            all == parts@.map_values(|p: Vec<char>| p@),
            all == split_plus(combo@),
            chars@ == combo@,
            combo_fold(all.subrange(0, i as int), combo@, key_scan) == (ComboProgress {
                modifiers: modifiers@,
                key,
                failure: None,
            }),
        decreases parts.len() - i,
    {
        proof {
            assert(all.subrange(0, i + 1).drop_last() =~= all.subrange(0, i as int));
            assert(all.subrange(0, i + 1).last() == parts@[i as int]@);
        }
        let part = chars_trim(&parts[i]);
        if part.len() > 0 {
            let token = string_from_chars(&part);
            match named_modifier(token.as_str()) {
                Some(m) => {
                    push_modifier(&mut modifiers, m);
                },
                None => {
                    if key.is_some() {
                        let mut message: Vec<char> = Vec::new();
                        push_str(&mut message, "combo '");
                        push_str(&mut message, combo);
                        push_str(&mut message, "' contains more than one primary key");
                        proof {
                            assert(message@ =~= two_keys_message(combo@));
                            lemma_failure_sticks(all, i + 1, combo@, key_scan);
                        }
                        return Err(unsupported_chars(&message));
                    }
                    match parse_key_token(token.as_str(), key_scan) {
                        Ok((vk, implicit)) => {
                            let ghost mods_before = modifiers@;
                            let mut j: usize = 0;
                            while j < implicit.len()
                                invariant
                                    j <= implicit.len(),
                                    modifiers@ == add_modifiers(
                                        mods_before,
                                        implicit@.subrange(0, j as int),
                                    ),
                                decreases implicit.len() - j,
                            {
                                proof {
                                    assert(implicit@.subrange(0, j + 1).drop_last() =~= implicit@.subrange(0, j as int));
                                }
                                push_modifier(&mut modifiers, implicit[j]);
                                j = j + 1;
                            }
                            proof {
                                assert(implicit@.subrange(0, implicit@.len() as int) =~= implicit@);
                            }
                            key = Some(vk);
                        },
                        Err(e) => {
                            proof {
                                lemma_failure_sticks(all, i + 1, combo@, key_scan);
                            }
                            return Err(e);
                        },
                    }
                },
            }
        }
        i = i + 1;
    }
    proof {
        assert(all.subrange(0, all.len() as int) =~= all);
    }
    let k = match key {
        Some(k) => k,
        None => {
            let mut message: Vec<char> = Vec::new();
            push_str(&mut message, "combo '");
            push_str(&mut message, combo);
            push_str(&mut message, "' does not contain a primary key");
            proof {
                assert(message@ =~= no_key_message(combo@));
            }
            return Err(unsupported_chars(&message));
        },
    };
    let mut events: Vec<KeyEvent> = Vec::new();
    let mut m: usize = 0;
    while m < modifiers.len()
        invariant
            m <= modifiers.len(),
            events@ == modifiers_down(modifiers@.subrange(0, m as int)),
        decreases modifiers.len() - m,
    {
        events.push(KeyEvent { vk: modifiers[m], scan: 0, key_up: false, unicode: false });
        proof {
            assert(events@ =~= modifiers_down(modifiers@.subrange(0, m + 1)));
        }
        m = m + 1;
    }
    events.push(KeyEvent { vk: k, scan: 0, key_up: false, unicode: false });
    events.push(KeyEvent { vk: k, scan: 0, key_up: true, unicode: false });
    let ghost head = events@;
    let mut u: usize = modifiers.len();
    while u > 0
        invariant
            u <= modifiers.len(),
            events@ == head + modifiers_up(modifiers@.subrange(u as int, modifiers@.len() as int)),
        decreases u,
    {
        events.push(KeyEvent { vk: modifiers[u - 1], scan: 0, key_up: true, unicode: false });
        proof {
            assert(modifiers_up(modifiers@.subrange(u - 1, modifiers@.len() as int)) =~= modifiers_up(
                modifiers@.subrange(u as int, modifiers@.len() as int),
            ).push(KeyEvent { vk: modifiers@[u - 1], scan: 0, key_up: true, unicode: false }));
            assert(events@ =~= head + modifiers_up(modifiers@.subrange(u - 1, modifiers@.len() as int)));
        }
        u = u - 1;
    }
    proof {
        assert(modifiers@.subrange(0, modifiers@.len() as int) =~= modifiers@);
        assert(events@ =~= combo_events(modifiers@, k));
    }
    Ok(events)
}


// ----------------------------------------------------------------------------------------------
// Typed text.
/// The UTF-16 code units of one character.
pub open spec fn utf16_units(c: char) -> Seq<u16> {
    let v = c as u32;
    if v < 0x10000 {
        seq![v as u16]
    } else {
        seq![(0xD800 + (v - 0x10000) / 1024) as u16, (0xDC00 + (v - 0x10000) % 1024) as u16]
    }
}

/// The UTF-16 encoding of a text.
pub open spec fn utf16_of(s: Seq<char>) -> Seq<u16>
    decreases s.len(),
{
    if s.len() == 0 {
        Seq::empty()
    } else {
        utf16_of(s.drop_last()) + utf16_units(s.last())
    }
}

/// A unicode key press and release for each UTF-16 unit.
pub open spec fn unicode_events(units: Seq<u16>) -> Seq<KeyEvent>
    decreases units.len(),
{
    if units.len() == 0 {
        Seq::empty()
    } else {
        unicode_events(units.drop_last()) + seq![
            KeyEvent { vk: 0, scan: units.last(), key_up: false, unicode: true },
            KeyEvent { vk: 0, scan: units.last(), key_up: true, unicode: true },
        ]
    }
}

proof fn lemma_unicode_events_append(a: Seq<u16>, b: Seq<u16>)
    ensures
        unicode_events(a + b) == unicode_events(a) + unicode_events(b),
    decreases b.len(),
{
    if b.len() == 0 {
        assert(a + b =~= a);
        assert(unicode_events(a) + unicode_events(b) =~= unicode_events(a));
    } else {
        lemma_unicode_events_append(a, b.drop_last());
        assert((a + b).drop_last() =~= a + b.drop_last());
        assert((a + b).last() == b.last());
        assert(unicode_events(a + b) =~= unicode_events(a) + unicode_events(b));
    }
}

/// The key events that type a text: each UTF-16 unit pressed and released as a unicode key.
pub fn text_key_events(text: &str) -> (r: Vec<KeyEvent>)
    ensures
        r@ == unicode_events(utf16_of(text@)),
{
    let chars = chars_of(text);
    let mut events: Vec<KeyEvent> = Vec::new();
    let mut i: usize = 0;
    while i < chars.len()
        invariant
            i <= chars.len(),
            chars@ == text@,
            events@ == unicode_events(utf16_of(chars@.subrange(0, i as int))),
        decreases chars.len() - i,
    {
        let c = chars[i];
        let v = c as u32;
        let ghost before = chars@.subrange(0, i as int);
        proof {
            assert(chars@.subrange(0, i + 1).drop_last() =~= before);
            assert(chars@.subrange(0, i + 1).last() == c);
            lemma_unicode_events_append(utf16_of(before), utf16_units(c));
        }
        if v < 0x10000 {
            let unit = v as u16;
            events.push(KeyEvent { vk: 0, scan: unit, key_up: false, unicode: true });
            events.push(KeyEvent { vk: 0, scan: unit, key_up: true, unicode: true });
            proof {
                assert(utf16_units(c) =~= seq![unit]);
                assert(unicode_events(seq![unit]) =~= seq![
                    KeyEvent { vk: 0, scan: unit, key_up: false, unicode: true },
                    KeyEvent { vk: 0, scan: unit, key_up: true, unicode: true },
                ]) by {
                    assert(seq![unit].drop_last() =~= Seq::<u16>::empty());
                    assert(seq![unit].last() == unit);
                    assert(unicode_events(Seq::<u16>::empty()) == Seq::<KeyEvent>::empty());
                }
            }
        } else {
            let w = v - 0x10000;
            let high = (0xD800 + w / 1024) as u16;
            let low = (0xDC00 + w % 1024) as u16;
            events.push(KeyEvent { vk: 0, scan: high, key_up: false, unicode: true });
            events.push(KeyEvent { vk: 0, scan: high, key_up: true, unicode: true });
            events.push(KeyEvent { vk: 0, scan: low, key_up: false, unicode: true });
            events.push(KeyEvent { vk: 0, scan: low, key_up: true, unicode: true });
            proof {
                assert(utf16_units(c) =~= seq![high, low]);
                assert(seq![high, low].drop_last() =~= seq![high]);
                assert(seq![high].drop_last() =~= Seq::<u16>::empty());
                assert(unicode_events(Seq::<u16>::empty()) == Seq::<KeyEvent>::empty());
                assert(unicode_events(seq![high]) =~= seq![
                    KeyEvent { vk: 0, scan: high, key_up: false, unicode: true },
                    KeyEvent { vk: 0, scan: high, key_up: true, unicode: true },
                ]);
                assert(unicode_events(seq![high, low]) =~= seq![
                    KeyEvent { vk: 0, scan: high, key_up: false, unicode: true },
                    KeyEvent { vk: 0, scan: high, key_up: true, unicode: true },
                    KeyEvent { vk: 0, scan: low, key_up: false, unicode: true },
                    KeyEvent { vk: 0, scan: low, key_up: true, unicode: true },
                ]);
            }
        }
        i = i + 1;
    }
    proof {
        assert(chars@.subrange(0, chars@.len() as int) =~= chars@);
    }
    events
}

/// Checks what the system accepted: nothing to send is an error, and so is a partial send.
pub open spec fn send_outcome_ok(action: Seq<char>, generated: usize, sent: u32, r: WinrResult<()>) -> bool {
    if generated == 0 {
        r matches Err(e) && e is Unsupported && e->Unsupported_message@
            == "no inputs were generated for "@ + action
    } else if sent as int != generated as int {
        r matches Err(e) && e is Unsupported && e->Unsupported_message@ == "SendInput sent "@
            + decimal_digits(sent as nat) + " of "@ + decimal_digits(generated as nat)
            + " events for "@ + action
    } else {
        r is Ok
    }
}

/// Checks the count the system reports having sent against the events generated.
pub fn check_sent_inputs(action: &str, generated: usize, sent: u32) -> (r: WinrResult<()>)
    ensures
        send_outcome_ok(action@, generated, sent, r),
{
    if generated == 0 {
        let mut message: Vec<char> = Vec::new();
        push_str(&mut message, "no inputs were generated for ");
        push_str(&mut message, action);
        proof {
            assert(message@ =~= "no inputs were generated for "@ + action@);
        }
        return Err(unsupported_chars(&message));
    }
    if sent as u64 != generated as u64 {
        let mut message: Vec<char> = Vec::new();
        push_str(&mut message, "SendInput sent ");
        let a = u64_to_decimal(sent as u64);
        push_all(&mut message, &a);
        push_str(&mut message, " of ");
        let b = u64_to_decimal(generated as u64);
        push_all(&mut message, &b);
        push_str(&mut message, " events for ");
        push_str(&mut message, action);
        proof {
            assert(message@ =~= "SendInput sent "@ + decimal_digits(sent as nat) + " of "@
                + decimal_digits(generated as nat) + " events for "@ + action@);
        }
        return Err(unsupported_chars(&message));
    }
    Ok(())
}

// ----------------------------------------------------------------------------------------------
// Mouse.
/// Mouse buttons.
#[derive(Debug, Clone, Copy, PartialEq, Eq, Structural)]
pub enum MouseButton {
    Left,
    Right,
    Middle,
}

/// Stable name of a mouse button.
pub open spec fn button_name(b: MouseButton) -> Seq<char> {
    match b {
        MouseButton::Left => "left"@,
        MouseButton::Right => "right"@,
        MouseButton::Middle => "middle"@,
    }
}

/// The down and up event flags of a button.
pub open spec fn button_flags(b: MouseButton) -> (u32, u32) {
    match b {
        MouseButton::Left => (0x0002, 0x0004),
        MouseButton::Right => (0x0008, 0x0010),
        MouseButton::Middle => (0x0020, 0x0040),
    }
}

/// A click sends its button's Win32 flags: MOUSEEVENTF_LEFTDOWN 0x0002 and MOUSEEVENTF_LEFTUP
/// 0x0004 for the left button, RIGHTDOWN 0x0008 and RIGHTUP 0x0010 for the right,
/// MIDDLEDOWN 0x0020 and MIDDLEUP 0x0040 for the middle; each up flag is the bit above its down
/// flag, and two different buttons share no flag.
pub proof fn lemma_button_flags(a: MouseButton, b: MouseButton)
    ensures
        a == MouseButton::Left ==> button_flags(a) == (0x0002u32, 0x0004u32),
        a == MouseButton::Right ==> button_flags(a) == (0x0008u32, 0x0010u32),
        a == MouseButton::Middle ==> button_flags(a) == (0x0020u32, 0x0040u32),
        button_flags(a).1 == 2 * button_flags(a).0,
        a != b ==> {
            &&& button_flags(a).0 != button_flags(b).0
            &&& button_flags(a).0 != button_flags(b).1
            &&& button_flags(a).1 != button_flags(b).0
            &&& button_flags(a).1 != button_flags(b).1
        },
{
}

impl MouseButton {
    /// Stable name: left, right, middle.
    pub fn as_str(self) -> (r: &'static str)
        ensures
            r@ == button_name(self),
    {
        match self {
            MouseButton::Left => "left",
            MouseButton::Right => "right",
            MouseButton::Middle => "middle",
        }
    }

    /// The down and up event flags of the button.
    pub fn event_flags(self) -> (r: (u32, u32))
        ensures
            r == button_flags(self),
    {
        match self {
            MouseButton::Left => (0x0002, 0x0004),
            MouseButton::Right => (0x0008, 0x0010),
            MouseButton::Middle => (0x0020, 0x0040),
        }
    }
}

/// Where a screen click goes: both coordinates, or neither (the cursor stays).
pub fn mouse_click_position(x: Option<i32>, y: Option<i32>) -> (r: WinrResult<Option<(i32, i32)>>)
    ensures
        match (x, y) {
            (Some(a), Some(b)) => r == Ok::<Option<(i32, i32)>, WinrError>(Some((a, b))),
            (None, None) => r == Ok::<Option<(i32, i32)>, WinrError>(None),
            _ => r matches Err(e) && e is Unsupported && e->Unsupported_message@
                == "mouse click requires both x and y when either is provided"@,
        },
{
    match (x, y) {
        (Some(a), Some(b)) => Ok(Some((a, b))),
        (None, None) => Ok(None),
        _ => {
            proof {
                reveal_strlit("mouse click requires both x and y when either is provided");
            }
            Err(crate::types::unsupported("mouse click requires both x and y when either is provided"))
        },
    }
}

/// The details of a window click: `button=<b> x=<x> y=<y>`.
pub fn click_window_details(button: MouseButton, x: i32, y: i32) -> (r: String)
    ensures
        r@ == "button="@ + button_name(button) + " x="@ + signed_decimal(x as int) + " y="@
            + signed_decimal(y as int),
{
    let mut out: Vec<char> = Vec::new();
    push_str(&mut out, "button=");
    push_str(&mut out, button.as_str());
    push_str(&mut out, " x=");
    let a = i64_to_decimal(x as i64);
    push_all(&mut out, &a);
    push_str(&mut out, " y=");
    let b = i64_to_decimal(y as i64);
    push_all(&mut out, &b);
    proof {
        assert(out@ =~= "button="@ + button_name(button) + " x="@ + signed_decimal(x as int) + " y="@
            + signed_decimal(y as int));
    }
    string_from_chars(&out)
}


// ----------------------------------------------------------------------------------------------
// Sequences.
/// The first part of a combo that names a primary key (trimmed), if any.
pub open spec fn first_primary(parts: Seq<Seq<char>>) -> Option<Seq<char>>
    decreases parts.len(),
{
    if parts.len() == 0 {
        None
    } else {
        match first_primary(parts.drop_last()) {
            Some(t) => Some(t),
            None => {
                let p = trim_spec(parts.last());
                if p.len() > 0 && modifier_code(p) is None {
                    Some(p)
                } else {
                    None
                }
            },
        }
    }
}

/// The primary key token of a combo, for looking its character up in the keyboard layout.
pub fn combo_primary_token(combo: &str) -> (r: Option<String>)
    ensures
        match first_primary(split_plus(combo@)) {
            Some(t) => r matches Some(s) && s@ == t,
            None => r is None,
        },
{
    let chars = chars_of(combo);
    let parts = split_on_plus(&chars);
    let ghost all = parts@.map_values(|p: Vec<char>| p@);
    let mut i: usize = 0;
    while i < parts.len()
        invariant
            i <= parts.len(),
            all == parts@.map_values(|p: Vec<char>| p@),
            all == split_plus(combo@),
            first_primary(all.subrange(0, i as int)) is None,
        decreases parts.len() - i,
    {
        proof {
            assert(all.subrange(0, i + 1).drop_last() =~= all.subrange(0, i as int));
            assert(all.subrange(0, i + 1).last() == parts@[i as int]@);
        }
        let part = chars_trim(&parts[i]);
        if part.len() > 0 {
            let token = string_from_chars(&part);
            if named_modifier(token.as_str()).is_none() {
                proof {
                    lemma_first_primary_sticks(all, i + 1);
                }
                return Some(token);
            }
        }
        i = i + 1;
    }
    proof {
        assert(all.subrange(0, all.len() as int) =~= all);
    }
    None
}

proof fn lemma_first_primary_sticks(parts: Seq<Seq<char>>, j: int)
    requires
        0 <= j <= parts.len(),
        first_primary(parts.subrange(0, j)) is Some,
    ensures
        first_primary(parts) == first_primary(parts.subrange(0, j)),
    decreases parts.len() - j,
{
    if j == parts.len() {
        assert(parts.subrange(0, j) =~= parts);
    } else {
        assert(parts.drop_last().subrange(0, j) =~= parts.subrange(0, j));
        lemma_first_primary_sticks(parts.drop_last(), j);
    }
}

/// The events of one sequence step: `text:` followed by text to type, or a combo.
pub open spec fn step_outcome(step: Seq<char>, scan: i16) -> Result<Seq<KeyEvent>, Seq<char>> {
    if has_prefix(step, "text:"@) {
        Ok(unicode_events(utf16_of(step.subrange(5, step.len() as int))))
    } else {
        combo_outcome(step, scan)
    }
}

/// The events of a sequence of steps, in order, or the error of the first failing step.
pub open spec fn sequence_outcome(steps: Seq<String>, scans: Seq<i16>) -> Result<Seq<KeyEvent>, Seq<char>>
    decreases steps.len(),
{
    if steps.len() == 0 {
        Ok(Seq::empty())
    } else {
        match sequence_outcome(steps.drop_last(), scans) {
            Err(m) => Err(m),
            Ok(events) => match step_outcome(steps.last()@, scans[steps.len() - 1]) {
                Err(m) => Err(m),
                Ok(more) => Ok(events + more),
            },
        }
    }
}

proof fn lemma_sequence_error_sticks(steps: Seq<String>, scans: Seq<i16>, j: int)
    requires
        0 <= j <= steps.len(),
        sequence_outcome(steps.subrange(0, j), scans) is Err,
    ensures
        sequence_outcome(steps, scans) == sequence_outcome(steps.subrange(0, j), scans),
    decreases steps.len() - j,
{
    if j == steps.len() {
        assert(steps.subrange(0, j) =~= steps);
    } else {
        assert(steps.drop_last().subrange(0, j) =~= steps.subrange(0, j));
        lemma_sequence_error_sticks(steps.drop_last(), scans, j);
    }
}

/// The events of a key sequence: each step is `text:<text>` to type or a combo; `key_scans`
/// holds, step by step, the keyboard layout's scan result for the step's primary key.
pub fn sequence_key_events(steps: &Vec<String>, key_scans: &Vec<i16>) -> (r: WinrResult<Vec<KeyEvent>>)
    requires
        key_scans@.len() == steps@.len(),
    ensures
        match sequence_outcome(steps@, key_scans@) {
            Ok(events) => r matches Ok(v) && v@ == events,
            Err(message) => r matches Err(e) && e is Unsupported && e->Unsupported_message@ == message,
        },
{
    let mut events: Vec<KeyEvent> = Vec::new();
    let mut i: usize = 0;
    while i < steps.len()
        invariant
            i <= steps.len(),
            key_scans@.len() == steps@.len(),
            sequence_outcome(steps@.subrange(0, i as int), key_scans@) == Ok::<Seq<KeyEvent>, Seq<char>>(events@),
        decreases steps.len() - i,
    {
        proof {
            assert(steps@.subrange(0, i + 1).drop_last() =~= steps@.subrange(0, i as int));
            assert(steps@.subrange(0, i + 1).last() == steps@[i as int]);
            reveal_strlit("text:");
        }
        let step = chars_of(steps[i].as_str());
        let is_text = step.len() >= 5 && step[0] == 't' && step[1] == 'e' && step[2] == 'x'
            && step[3] == 't' && step[4] == ':';
        proof {
            assert(is_text == has_prefix(step@, "text:"@)) by {
                if step@.len() >= 5 {
                    assert(is_text ==> step@.subrange(0, 5) =~= "text:"@);
                    assert(step@.subrange(0, 5) =~= "text:"@ ==> is_text) by {
                        if step@.subrange(0, 5) =~= "text:"@ {
                            assert(step@[0] == step@.subrange(0, 5)[0]);
                            assert(step@[1] == step@.subrange(0, 5)[1]);
                            assert(step@[2] == step@.subrange(0, 5)[2]);
                            assert(step@[3] == step@.subrange(0, 5)[3]);
                            assert(step@[4] == step@.subrange(0, 5)[4]);
                        }
                    }
                }
            }
        }
        if is_text {
            let mut rest: Vec<char> = Vec::new();
            let mut k: usize = 5;
            while k < step.len()
                invariant
                    5 <= k <= step.len(),
                    rest@ == step@.subrange(5, k as int),
                decreases step.len() - k,
            {
                rest.push(step[k]);
                proof {
                    assert(rest@ =~= step@.subrange(5, k + 1));
                }
                k = k + 1;
            }
            let text = string_from_chars(&rest);
            let more = text_key_events(text.as_str());
            let ghost before = events@;
            let mut m: usize = 0;
            while m < more.len()
                invariant
                    m <= more.len(),
                    events@ == before + more@.subrange(0, m as int),
                decreases more.len() - m,
            {
                events.push(more[m]);
                proof {
                    assert(events@ =~= before + more@.subrange(0, m + 1));
                }
                m = m + 1;
            }
            proof {
                assert(more@.subrange(0, more@.len() as int) =~= more@);
            }
        } else {
            match combo_key_events(steps[i].as_str(), key_scans[i]) {
                Ok(more) => {
                    let ghost before = events@;
                    let mut m: usize = 0;
                    while m < more.len()
                        invariant
                            m <= more.len(),
                            events@ == before + more@.subrange(0, m as int),
                        decreases more.len() - m,
                    {
                        events.push(more[m]);
                        proof {
                            assert(events@ =~= before + more@.subrange(0, m + 1));
                        }
                        m = m + 1;
                    }
                    proof {
                        assert(more@.subrange(0, more@.len() as int) =~= more@);
                    }
                },
                Err(e) => {
                    proof {
                        lemma_sequence_error_sticks(steps@, key_scans@, i + 1);
                    }
                    return Err(e);
                },
            }
        }
        i = i + 1;
    }
    proof {
        assert(steps@.subrange(0, steps@.len() as int) =~= steps@);
    }
    Ok(events)
}

/// Steps joined with `, `.
pub open spec fn joined_steps(steps: Seq<String>) -> Seq<char>
    decreases steps.len(),
{
    if steps.len() == 0 {
        Seq::empty()
    } else if steps.len() == 1 {
        steps[0]@
    } else {
        joined_steps(steps.drop_last()) + ", "@ + steps.last()@
    }
}

/// Joins sequence steps with `, ` for reporting.
pub fn join_steps(steps: &Vec<String>) -> (r: String)
    ensures
        r@ == joined_steps(steps@),
{
    let mut out: Vec<char> = Vec::new();
    let mut i: usize = 0;
    while i < steps.len()
        invariant
            i <= steps.len(),
            out@ == joined_steps(steps@.subrange(0, i as int)),
        decreases steps.len() - i,
    {
        proof {
            assert(steps@.subrange(0, i + 1).drop_last() =~= steps@.subrange(0, i as int));
        }
        if i > 0 {
            push_str(&mut out, ", ");
        }
        push_str(&mut out, steps[i].as_str());
        proof {
            if i == 0 {
                assert(out@ =~= joined_steps(steps@.subrange(0, 1)));
            } else {
                assert(out@ =~= joined_steps(steps@.subrange(0, i + 1)));
            }
        }
        i = i + 1;
    }
    proof {
        assert(steps@.subrange(0, steps@.len() as int) =~= steps@);
    }
    string_from_chars(&out)
}

} // verus!
