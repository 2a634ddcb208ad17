//! Character-level text helpers shared by the selectors, policies and protocol messages.
//!
//! Strings are reasoned about through their view, a `Seq<char>`.
use vstd::prelude::*;

verus! {

/// ASCII-only lowercase mapping of one character (what `char::to_ascii_lowercase` does).
pub open spec fn ascii_lower(c: char) -> char {
    if 'A' <= c && c <= 'Z' {
        ((c as u32) + 32) as char
    } else {
        c
    }
}

/// ASCII-only lowercase mapping of a whole character sequence.
pub open spec fn ascii_lower_seq(s: Seq<char>) -> Seq<char> {
    Seq::new(s.len(), |i: int| ascii_lower(s[i]))
}

/// Two strings are equal when ASCII letters are compared without regard to case.
pub open spec fn eq_ignore_ascii_case_spec(a: Seq<char>, b: Seq<char>) -> bool {
    ascii_lower_seq(a) == ascii_lower_seq(b)
}

/// `needle` occurs as a contiguous run somewhere in `hay` (the empty needle occurs everywhere).
pub open spec fn seq_contains(hay: Seq<char>, needle: Seq<char>) -> bool {
    exists|i: int|
        0 <= i && i + needle.len() <= hay.len() && #[trigger] hay.subrange(i, i + needle.len())
            == needle
}

/// `prefix` is a prefix of `s`.
pub open spec fn has_prefix(s: Seq<char>, prefix: Seq<char>) -> bool {
    prefix.len() <= s.len() && s.subrange(0, prefix.len() as int) == prefix
}

/// The characters that `char::is_whitespace` accepts (Unicode `White_Space`).
pub open spec fn is_unicode_whitespace(c: char) -> bool {
    let v = c as u32;
    (0x09 <= v && v <= 0x0d) || v == 0x20 || v == 0x85 || v == 0xa0 || v == 0x1680 || (0x2000
        <= v && v <= 0x200a) || v == 0x2028 || v == 0x2029 || v == 0x202f || v == 0x205f || v
        == 0x3000
}

/// Start index of the text left after dropping leading whitespace.
pub open spec fn trim_start_index(s: Seq<char>) -> int
    decreases s.len(),
{
    if s.len() == 0 {
        0
    } else if is_unicode_whitespace(s[0]) {
        1 + trim_start_index(s.subrange(1, s.len() as int))
    } else {
        0
    }
}

/// End index of the text left after dropping trailing whitespace.
pub open spec fn trim_end_index(s: Seq<char>) -> int
    decreases s.len(),
{
    if s.len() == 0 {
        0
    } else if is_unicode_whitespace(s[s.len() - 1]) {
        trim_end_index(s.subrange(0, s.len() - 1))
    } else {
        s.len() as int
    }
}

/// What `str::trim` keeps: the text with leading and trailing whitespace removed.
pub open spec fn trim_spec(s: Seq<char>) -> Seq<char> {
    let start = trim_start_index(s);
    if start >= s.len() {
        Seq::empty()
    } else {
        s.subrange(start, trim_end_index(s))
    }
}

/// The decimal digits of a natural number, most significant first, without leading zeros.
pub open spec fn decimal_digits(n: nat) -> Seq<char>
    decreases n,
{
    if n < 10 {
        seq![digit_char(n)]
    } else {
        decimal_digits(n / 10).push(digit_char(n % 10))
    }
}

/// The decimal text of a signed integer as Rust's `Display` writes it.
pub open spec fn signed_decimal(n: int) -> Seq<char> {
    if n < 0 {
        seq!['-'] + decimal_digits((-n) as nat)
    } else {
        decimal_digits(n as nat)
    }
}

/// The character of one decimal digit.
pub open spec fn digit_char(d: nat) -> char {
    ((d + 48) as u32) as char
}

/// The uppercase hexadecimal character of one nibble.
pub open spec fn hex_upper_char(d: nat) -> char {
    if d < 10 {
        ((d + 48) as u32) as char
    } else {
        ((d + 55) as u32) as char
    }
}

/// The lowest `width` hexadecimal digits of `n`, most significant first, uppercase.
pub open spec fn hex_upper_fixed(n: nat, width: nat) -> Seq<char>
    decreases width,
{
    if width == 0 {
        Seq::empty()
    } else {
        hex_upper_fixed(n / 16, (width - 1) as nat).push(hex_upper_char(n % 16))
    }
}

/// The value of a hexadecimal digit character, if it is one.
pub open spec fn hex_digit_value(c: char) -> Option<nat> {
    if '0' <= c && c <= '9' {
        Some(((c as u32) - 48) as nat)
    } else if 'a' <= c && c <= 'f' {
        Some(((c as u32) - 87) as nat)
    } else if 'A' <= c && c <= 'F' {
        Some(((c as u32) - 55) as nat)
    } else {
        None
    }
}

/// The value of a decimal digit character, if it is one.
pub open spec fn decimal_digit_value(c: char) -> Option<nat> {
    if '0' <= c && c <= '9' {
        Some(((c as u32) - 48) as nat)
    } else {
        None
    }
}

/// Every character of `s` is a digit in the given radix (10 or 16).
pub open spec fn all_digits(s: Seq<char>, radix: nat) -> bool {
    forall|i: int| 0 <= i < s.len() ==> #[trigger] digit_value(s[i], radix) is Some
}

/// The value of a digit in radix 10 or 16.
pub open spec fn digit_value(c: char, radix: nat) -> Option<nat> {
    if radix == 16 {
        hex_digit_value(c)
    } else {
        decimal_digit_value(c)
    }
}

/// The number that a run of digits denotes in the given radix.
pub open spec fn digits_value(s: Seq<char>, radix: nat) -> nat
    decreases s.len(),
{
    if s.len() == 0 {
        0
    } else {
        digits_value(s.drop_last(), radix) * radix + match digit_value(s.last(), radix) {
            Some(d) => d,
            None => 0,
        }
    }
}

/// The unsigned number that `u64::from_str_radix` / `str::parse` accept in `s`:
/// an optional `+`, then at least one digit, with a value below `bound`.
pub open spec fn parse_unsigned_spec(s: Seq<char>, radix: nat, bound: nat) -> Option<nat> {
    let digits = if s.len() > 0 && s[0] == '+' {
        s.subrange(1, s.len() as int)
    } else {
        s
    };
    if digits.len() > 0 && all_digits(digits, radix) && digits_value(digits, radix) < bound {
        Some(digits_value(digits, radix))
    } else {
        None
    }
}

/// The signed decimal number that `str::parse::<i32>` accepts in `s`.
pub open spec fn parse_i32_spec(s: Seq<char>) -> Option<int> {
    if s.len() > 0 && s[0] == '-' {
        let digits = s.subrange(1, s.len() as int);
        if digits.len() > 0 && all_digits(digits, 10) && digits_value(digits, 10) <= 0x8000_0000 {
            Some(-(digits_value(digits, 10) as int))
        } else {
            None
        }
    } else {
        match parse_unsigned_spec(s, 10, 0x8000_0000) {
            Some(v) => Some(v as int),
            None => None,
        }
    }
}

/// Name of the result of `str::to_lowercase`: the full Unicode lowercase mapping,
/// which can turn one character into several.
pub uninterp spec fn spec_to_lowercase(s: Seq<char>) -> Seq<char>;

/// `haystack.to_lowercase().contains(&needle.to_lowercase())`.
pub open spec fn contains_case_insensitive_spec(haystack: Seq<char>, needle: Seq<char>) -> bool {
    seq_contains(spec_to_lowercase(haystack), spec_to_lowercase(needle))
}

/// Calls `str::to_lowercase`; the result is named, not described.
#[verifier::external_body]
fn to_lowercase(s: &str) -> (r: String)
    ensures
        r@ == spec_to_lowercase(s@),
{
    s.to_lowercase()
}

/// Collects characters into a `String` (`FromIterator<char>` for `String`).
#[verifier::external_body]
pub(crate) fn string_from_chars(chars: &Vec<char>) -> (r: String)
    ensures
        r@ == chars@,
{
    chars.iter().collect()
}

/// The characters of a string slice.
pub fn chars_of(s: &str) -> (r: Vec<char>)
    ensures
        r@ == s@,
{
    let mut out: Vec<char> = Vec::new();
    for c in it: s.chars()
        invariant
            it.seq() == s@,
            out@ == it.seq().take(it.index() as int),
    {
        proof {
            assert(it.seq().take(it.index() as int + 1) == it.seq().take(it.index() as int).push(
                c,
            ));
        }
        out.push(c);
    }
    proof {
        assert(out@ == s@.take(s@.len() as int));
        assert(s@.take(s@.len() as int) =~= s@);
    }
    out
}

/// A `String` holding the given text.
pub fn string_of(s: &str) -> (r: String)
    ensures
        r@ == s@,
{
    String::from_str(s)
}

/// Whether two string slices hold the same characters.
pub fn str_eq(a: &str, b: &str) -> (r: bool)
    ensures
        r == (a@ == b@),
{
    string_of(a) == string_of(b)
}

/// ASCII lowercase of one character.
pub fn ascii_lower_char(c: char) -> (r: char)
    ensures
        r == ascii_lower(c),
{
    if 'A' <= c && c <= 'Z' {
        let code: u32 = c as u32;
        proof {
            assert(65 <= code <= 90);
        }
        ((code as u8) + 32) as char
    } else {
        c
    }
}

/// `str::eq_ignore_ascii_case` over character sequences.
pub fn chars_eq_ignore_ascii_case(a: &Vec<char>, b: &Vec<char>) -> (r: bool)
    ensures
        r == eq_ignore_ascii_case_spec(a@, b@),
{
    if a.len() != b.len() {
        proof {
            assert(ascii_lower_seq(a@).len() != ascii_lower_seq(b@).len());
        }
        return false;
    }
    let mut i: usize = 0;
    while i < a.len()
        invariant
            a.len() == b.len(),
            i <= a.len(),
            forall|j: int| 0 <= j < i ==> ascii_lower(a@[j]) == ascii_lower(b@[j]),
        decreases a.len() - i,
    {
        if ascii_lower_char(a[i]) != ascii_lower_char(b[i]) {
            proof {
                assert(ascii_lower_seq(a@)[i as int] != ascii_lower_seq(b@)[i as int]);
            }
            return false;
        }
        i = i + 1;
    }
    proof {
        assert(ascii_lower_seq(a@) =~= ascii_lower_seq(b@));
    }
    true
}

/// `str::eq_ignore_ascii_case`.
pub fn eq_ignore_ascii_case(a: &str, b: &str) -> (r: bool)
    ensures
        r == eq_ignore_ascii_case_spec(a@, b@),
{
    let va = chars_of(a);
    let vb = chars_of(b);
    chars_eq_ignore_ascii_case(&va, &vb)
}

/// Whether `needle` matches `hay` at position `i`.
fn matches_at(hay: &Vec<char>, needle: &Vec<char>, i: usize) -> (r: bool)
    requires
        i + needle.len() <= hay.len(),
    ensures
        r == (hay@.subrange(i as int, i + needle.len()) == needle@),
{
    let mut k: usize = 0;
    while k < needle.len()
        invariant
            i + needle.len() <= hay.len(),
            k <= needle.len(),
            forall|j: int| 0 <= j < k ==> hay@[i + j] == needle@[j],
        decreases needle.len() - k,
    {
        if hay[i + k] != needle[k] {
            proof {
                assert(hay@.subrange(i as int, i + needle.len())[k as int] != needle@[k as int]);
            }
            return false;
        }
        k = k + 1;
    }
    proof {
        assert(hay@.subrange(i as int, i + needle.len()) =~= needle@);
    }
    true
}

/// Substring search over character sequences (`str::contains` with a `&str` pattern).
pub fn chars_contains(hay: &Vec<char>, needle: &Vec<char>) -> (r: bool)
    ensures
        r == seq_contains(hay@, needle@),
{
    if needle.len() == 0 {
        proof {
            assert(hay@.subrange(0int, 0int + needle@.len()) =~= needle@);
            assert(seq_contains(hay@, needle@));
        }
        return true;
    }
    if needle.len() > hay.len() {
        return false;
    }
    let last: usize = hay.len() - needle.len();
    let mut i: usize = 0;
    while i <= last
        invariant
            last == hay.len() - needle.len(),
            1 <= needle.len() <= hay.len(),
            i <= last + 1,
            forall|j: int|
                0 <= j < i ==> #[trigger] hay@.subrange(j, j + needle.len()) != needle@,
        decreases last + 1 - i,
    {
        if matches_at(hay, needle, i) {
            return true;
        }
        i = i + 1;
    }
    false
}

/// `haystack.to_lowercase().contains(&needle.to_lowercase())`.
pub fn contains_case_insensitive(haystack: &str, needle: &str) -> (r: bool)
    ensures
        r == contains_case_insensitive_spec(haystack@, needle@),
{
    let h = to_lowercase(haystack);
    let n = to_lowercase(needle);
    let hc = chars_of(h.as_str());
    let nc = chars_of(n.as_str());
    chars_contains(&hc, &nc)
}

/// `char::is_whitespace`.
pub fn is_whitespace_char(c: char) -> (r: bool)
    ensures
        r == is_unicode_whitespace(c),
{
    let v: u32 = c as u32;
    (0x09 <= v && v <= 0x0d) || v == 0x20 || v == 0x85 || v == 0xa0 || v == 0x1680 || (0x2000 <= v
        && v <= 0x200a) || v == 0x2028 || v == 0x2029 || v == 0x202f || v == 0x205f || v == 0x3000
}

proof fn lemma_trim_start(s: Seq<char>, k: int)
    requires
        0 <= k <= s.len(),
        forall|j: int| 0 <= j < k ==> is_unicode_whitespace(#[trigger] s[j]),
    ensures
        trim_start_index(s) == k + trim_start_index(s.subrange(k, s.len() as int)),
    decreases k,
{
    if k > 0 {
        let t = s.subrange(1, s.len() as int);
        assert forall|j: int| 0 <= j < k - 1 implies is_unicode_whitespace(#[trigger] t[j]) by {
            assert(t[j] == s[j + 1]);
        }
        lemma_trim_start(t, k - 1);
        assert(t.subrange(k - 1, t.len() as int) =~= s.subrange(k, s.len() as int));
    } else {
        assert(s.subrange(0, s.len() as int) =~= s);
    }
}

proof fn lemma_trim_end(s: Seq<char>, k: int)
    requires
        0 <= k <= s.len(),
        forall|j: int| k <= j < s.len() ==> is_unicode_whitespace(#[trigger] s[j]),
    ensures
        trim_end_index(s) == trim_end_index(s.subrange(0, k)),
    decreases s.len() - k,
{
    if k < s.len() {
        let t = s.subrange(0, s.len() - 1);
        assert forall|j: int| k <= j < t.len() implies is_unicode_whitespace(#[trigger] t[j]) by {
            assert(t[j] == s[j]);
        }
        lemma_trim_end(t, k);
        assert(t.subrange(0, k) =~= s.subrange(0, k));
    } else {
        assert(s.subrange(0, k) =~= s);
    }
}

proof fn lemma_trim_end_bounds(s: Seq<char>)
    ensures
        0 <= trim_end_index(s) <= s.len(),
        trim_end_index(s) > 0 ==> !is_unicode_whitespace(s[trim_end_index(s) - 1]),
        forall|j: int| trim_end_index(s) <= j < s.len() ==> is_unicode_whitespace(#[trigger] s[j]),
    decreases s.len(),
{
    if s.len() > 0 && is_unicode_whitespace(s[s.len() - 1]) {
        let t = s.subrange(0, s.len() - 1);
        lemma_trim_end_bounds(t);
        assert forall|j: int| trim_end_index(s) <= j < s.len() implies is_unicode_whitespace(
            #[trigger] s[j],
        ) by {
            if j < s.len() - 1 {
                assert(t[j] == s[j]);
            }
        }
    }
}

proof fn lemma_trim_start_bounds(s: Seq<char>)
    ensures
        0 <= trim_start_index(s) <= s.len(),
        trim_start_index(s) < s.len() ==> !is_unicode_whitespace(s[trim_start_index(s)]),
        forall|j: int| 0 <= j < trim_start_index(s) ==> is_unicode_whitespace(#[trigger] s[j]),
    decreases s.len(),
{
    if s.len() > 0 && is_unicode_whitespace(s[0]) {
        let t = s.subrange(1, s.len() as int);
        lemma_trim_start_bounds(t);
        assert forall|j: int| 0 <= j < trim_start_index(s) implies is_unicode_whitespace(
            #[trigger] s[j],
        ) by {
            if j > 0 {
                assert(t[j - 1] == s[j]);
            }
        }
    }
}

/// `str::trim` over character sequences.
pub fn chars_trim(s: &Vec<char>) -> (r: Vec<char>)
    ensures
        r@ == trim_spec(s@),
{
    let mut start: usize = 0;
    while start < s.len() && is_whitespace_char(s[start])
        invariant
            start <= s.len(),
            forall|j: int| 0 <= j < start ==> is_unicode_whitespace(#[trigger] s@[j]),
        decreases s.len() - start,
    {
        start = start + 1;
    }
    proof {
        lemma_trim_start(s@, start as int);
        let t = s@.subrange(start as int, s@.len() as int);
        if start < s.len() {
            assert(t[0] == s@[start as int]);
            assert(trim_start_index(t) == 0);
        } else {
            assert(t.len() == 0);
        }
    }
    let mut out: Vec<char> = Vec::new();
    if start >= s.len() {
        proof {
            assert(out@ =~= trim_spec(s@));
        }
        return out;
    }
    let mut end: usize = s.len();
    while end > start && is_whitespace_char(s[end - 1])
        invariant
            start < s.len(),
            start <= end <= s.len(),
            forall|j: int| end <= j < s.len() ==> is_unicode_whitespace(#[trigger] s@[j]),
        decreases end,
    {
        end = end - 1;
    }
    proof {
        lemma_trim_end(s@, end as int);
        let t = s@.subrange(0, end as int);
        assert(end > start);
        assert(t[end - 1] == s@[end - 1]);
        assert(trim_end_index(t) == end);
    }
    let mut i: usize = start;
    while i < end
        invariant
            start <= i <= end <= s.len(),
            out@ == s@.subrange(start as int, i as int),
        decreases end - i,
    {
        out.push(s[i]);
        proof {
            assert(out@ =~= s@.subrange(start as int, i + 1));
        }
        i = i + 1;
    }
    out
}

/// `str::trim`, returning an owned string.
pub fn trim_string(s: &str) -> (r: String)
    ensures
        r@ == trim_spec(s@),
{
    let c = chars_of(s);
    let t = chars_trim(&c);
    string_from_chars(&t)
}

proof fn lemma_decimal_digits_len(n: nat)
    ensures
        decimal_digits(n).len() >= 1,
    decreases n,
{
    if n >= 10 {
        lemma_decimal_digits_len(n / 10);
    }
}

/// Decimal text of an unsigned integer (what `u64::to_string` writes).
pub fn u64_to_decimal(n: u64) -> (r: Vec<char>)
    ensures
        r@ == decimal_digits(n as nat),
    decreases n,
{
    if n < 10 {
        let mut v: Vec<char> = Vec::new();
        v.push(((n as u8) + 48) as char);
        proof {
            assert(v@ =~= seq![digit_char(n as nat)]);
        }
        v
    } else {
        let mut v = u64_to_decimal(n / 10);
        let d: u64 = n % 10;
        v.push(((d as u8) + 48) as char);
        proof {
            assert(v@ =~= decimal_digits((n / 10) as nat).push(digit_char((n % 10) as nat)));
        }
        v
    }
}

/// Decimal text of a signed integer (what `i64::to_string` writes).
pub fn i64_to_decimal(n: i64) -> (r: Vec<char>)
    ensures
        r@ == signed_decimal(n as int),
{
    if n < 0 {
        let magnitude: u64 = if n == i64::MIN {
            0x8000_0000_0000_0000u64
        } else {
            (-n) as u64
        };
        let digits = u64_to_decimal(magnitude);
        let mut v: Vec<char> = Vec::new();
        v.push('-');
        let mut i: usize = 0;
        while i < digits.len()
            invariant
                i <= digits.len(),
                v@ == seq!['-'] + digits@.subrange(0, i as int),
            decreases digits.len() - i,
        {
            v.push(digits[i]);
            proof {
                assert(v@ =~= seq!['-'] + digits@.subrange(0, i + 1));
            }
            i = i + 1;
        }
        proof {
            assert(digits@.subrange(0, digits@.len() as int) =~= digits@);
        }
        v
    } else {
        u64_to_decimal(n as u64)
    }
}

/// Appends the characters of `tail` to `out`.
pub fn push_all(out: &mut Vec<char>, tail: &Vec<char>)
    ensures
        final(out)@ == old(out)@ + tail@,
{
    let ghost start = out@;
    let mut i: usize = 0;
    while i < tail.len()
        invariant
            i <= tail.len(),
            out@ == start + tail@.subrange(0, i as int),
        decreases tail.len() - i,
    {
        out.push(tail[i]);
        proof {
            assert(out@ =~= start + tail@.subrange(0, i + 1));
        }
        i = i + 1;
    }
    proof {
        assert(tail@.subrange(0, tail@.len() as int) =~= tail@);
    }
}

/// Appends the characters of a string slice to `out`.
pub fn push_str(out: &mut Vec<char>, tail: &str)
    ensures
        final(out)@ == old(out)@ + tail@,
{
    let t = chars_of(tail);
    push_all(out, &t);
}

/// Lowest `width` uppercase hexadecimal digits of `n`.
pub fn u64_to_hex_upper_fixed(n: u64, width: usize) -> (r: Vec<char>)
    ensures
        r@ == hex_upper_fixed(n as nat, width as nat),
    decreases width,
{
    if width == 0 {
        Vec::new()
    } else {
        let mut v = u64_to_hex_upper_fixed(n / 16, width - 1);
        let d: u64 = n % 16;
        let c: char = if d < 10 {
            ((d as u8) + 48) as char
        } else {
            ((d as u8) + 55) as char
        };
        v.push(c);
        proof {
            assert(c == hex_upper_char((n % 16) as nat));
            assert(v@ =~= hex_upper_fixed((n / 16) as nat, (width - 1) as nat).push(
                hex_upper_char((n % 16) as nat),
            ));
        }
        v
    }
}

/// Value of a digit character in radix 10 or 16.
pub fn digit_value_of(c: char, radix: u32) -> (r: Option<u32>)
    requires
        radix == 10 || radix == 16,
    ensures
        match digit_value(c, radix as nat) {
            Some(d) => r == Some(d as u32),
            None => r is None,
        },
{
    if '0' <= c && c <= '9' {
        Some((c as u32) - 48)
    } else if radix == 16 && 'a' <= c && c <= 'f' {
        Some((c as u32) - 87)
    } else if radix == 16 && 'A' <= c && c <= 'F' {
        Some((c as u32) - 55)
    } else {
        None
    }
}

proof fn lemma_digit_value_bound(c: char, radix: nat)
    requires
        radix == 10 || radix == 16,
    ensures
        digit_value(c, radix) matches Some(d) ==> d < radix,
{
}

proof fn lemma_digits_value_step(s: Seq<char>, k: int, radix: nat)
    requires
        0 <= k < s.len(),
    ensures
        digits_value(s.subrange(0, k + 1), radix) == digits_value(s.subrange(0, k), radix) * radix
            + match digit_value(s[k], radix) {
            Some(d) => d,
            None => 0,
        },
{
    let t = s.subrange(0, k + 1);
    assert(t.drop_last() =~= s.subrange(0, k));
    assert(t.last() == s[k]);
}

proof fn lemma_digits_value_monotone(s: Seq<char>, k: int, radix: nat)
    requires
        0 <= k <= s.len(),
        radix >= 1,
    ensures
        digits_value(s.subrange(0, k), radix) <= digits_value(s, radix),
    decreases s.len() - k,
{
    if k < s.len() {
        lemma_digits_value_monotone(s, k + 1, radix);
        lemma_digits_value_step(s, k, radix);
        let a = digits_value(s.subrange(0, k), radix);
        assert(a * radix >= a) by (nonlinear_arith)
            requires
                radix >= 1,
        ;
    } else {
        assert(s.subrange(0, k) =~= s);
    }
}

/// `value * radix + digit` when it stays below `bound`.
fn mul_add_below(value: u64, radix: u32, digit: u32, bound: u128) -> (r: Option<u64>)
    requires
        radix <= 16,
        digit < radix,
        1 <= bound <= 0x1_0000_0000_0000_0000,
    ensures
        match r {
            Some(n) => n as nat == (value as nat) * (radix as nat) + (digit as nat) && (n as nat)
                < bound,
            None => (value as nat) * (radix as nat) + (digit as nat) >= bound,
        },
{
    proof {
        assert((value as nat) * (radix as nat) <= 0xffff_ffff_ffff_ffff * 16) by (nonlinear_arith)
            requires
                value <= 0xffff_ffff_ffff_ffff,
                radix <= 16,
        ;
    }
    let nv: u128 = (value as u128) * (radix as u128) + (digit as u128);
    if nv >= bound {
        None
    } else {
        Some(nv as u64)
    }
}

/// Parses an unsigned number the way `u64::from_str_radix` does (radix 10 or 16),
/// accepting only values below `bound`.
#[verifier::rlimit(40)]
pub fn parse_unsigned(s: &Vec<char>, radix: u32, bound: u128) -> (r: Option<u64>)
    requires
        radix == 10 || radix == 16,
        1 <= bound <= 0x1_0000_0000_0000_0000,
    ensures
        match parse_unsigned_spec(s@, radix as nat, bound as nat) {
            Some(v) => r == Some(v as u64),
            None => r is None,
        },
{
    let start: usize = if s.len() > 0 && s[0] == '+' {
        1
    } else {
        0
    };
    let ghost digits = s@.subrange(start as int, s@.len() as int);
    proof {
        if start == 0 {
            assert(digits =~= s@);
        }
        assert(digits == (if s@.len() > 0 && s@[0] == '+' {
            s@.subrange(1, s@.len() as int)
        } else {
            s@
        }));
    }
    if start >= s.len() {
        return None;
    }
    let mut value: u64 = 0;
    let mut i: usize = start;
    while i < s.len()
        invariant
            start <= i <= s.len(),
            start < s.len(),
            radix == 10 || radix == 16,
            1 <= bound <= 0x1_0000_0000_0000_0000,
            digits == s@.subrange(start as int, s@.len() as int),
            digits == (if s@.len() > 0 && s@[0] == '+' {
                s@.subrange(1, s@.len() as int)
            } else {
                s@
            }),
            forall|j: int| 0 <= j < i - start ==> #[trigger] digit_value(digits[j], radix as nat) is Some,
            value as nat == digits_value(digits.subrange(0, i - start), radix as nat),
            (value as nat) < (bound as nat),
        decreases s.len() - i,
    {
        let d = digit_value_of(s[i], radix);
        proof {
            assert(digits[i - start] == s@[i as int]);
        }
        match d {
            None => {
                proof {
                    assert(digit_value(digits[i - start], radix as nat) is None);
                    assert(!all_digits(digits, radix as nat));
                }
                return None;
            },
            Some(dv) => {
                proof {
                    lemma_digit_value_bound(s@[i as int], radix as nat);
                    lemma_digits_value_step(digits, i - start, radix as nat);
                }
                let ghost next = digits_value(digits.subrange(0, i - start + 1), radix as nat);
                proof {
                    assert(next == (value as nat) * (radix as nat) + (dv as nat));
                }
                match mul_add_below(value, radix, dv, bound) {
                    None => {
                        proof {
                            lemma_digits_value_monotone(digits, i - start + 1, radix as nat);
                        }
                        return None;
                    },
                    Some(nv) => {
                        value = nv;
                    },
                }
                i = i + 1;
            },
        }
    }
    proof {
        assert(digits.subrange(0, i - start) =~= digits);
    }
    Some(value)
}

/// Parses a signed 32-bit decimal number the way `str::parse::<i32>` does.
pub fn parse_i32(s: &Vec<char>) -> (r: Option<i32>)
    ensures
        match parse_i32_spec(s@) {
            Some(v) => r == Some(v as i32),
            None => r is None,
        },
{
    if s.len() > 0 && s[0] == '-' {
        let mut rest: Vec<char> = Vec::new();
        let mut i: usize = 1;
        while i < s.len()
            invariant
                1 <= i <= s.len(),
                rest@ == s@.subrange(1, i as int),
            decreases s.len() - i,
        {
            rest.push(s[i]);
            proof {
                assert(rest@ =~= s@.subrange(1, i + 1));
            }
            i = i + 1;
        }
        if rest.len() == 0 || rest[0] == '+' {
            proof {
                if rest.len() > 0 {
                    assert(digit_value(rest@[0], 10) is None);
                    assert(!all_digits(rest@, 10));
                }
            }
            return None;
        }
        match parse_unsigned(&rest, 10, 0x8000_0001) {
            Some(v) => {
                proof {
                    assert(rest@ == s@.subrange(1, s@.len() as int));
                }
                Some((0 - (v as i64)) as i32)
            },
            None => None,
        }
    } else {
        match parse_unsigned(s, 10, 0x8000_0000) {
            Some(v) => Some(v as i32),
            None => None,
        }
    }
}


/// Lowercase hexadecimal character of one nibble.
pub open spec fn hex_lower_char(d: nat) -> char {
    if d < 10 {
        ((d + 48) as u32) as char
    } else {
        ((d + 87) as u32) as char
    }
}

/// How a JSON writer escapes one character inside a string literal.
pub open spec fn json_escape_char(c: char) -> Seq<char> {
    let v = c as u32;
    if c == '"' {
        seq!['\\', '"']
    } else if c == '\\' {
        seq!['\\', '\\']
    } else if v == 0x0a {
        seq!['\\', 'n']
    } else if v == 0x0d {
        seq!['\\', 'r']
    } else if v == 0x09 {
        seq!['\\', 't']
    } else if v == 0x08 {
        seq!['\\', 'b']
    } else if v == 0x0c {
        seq!['\\', 'f']
    } else if v < 0x20 {
        seq!['\\', 'u', '0', '0', hex_lower_char((v / 16) as nat), hex_lower_char((v % 16) as nat)]
    } else {
        seq![c]
    }
}

/// The escaped body of a JSON string literal.
pub open spec fn json_escaped(s: Seq<char>) -> Seq<char>
    decreases s.len(),
{
    if s.len() == 0 {
        Seq::empty()
    } else {
        json_escaped(s.drop_last()) + json_escape_char(s.last())
    }
}

/// A JSON string literal: quotes around the escaped text.
pub open spec fn json_string(s: Seq<char>) -> Seq<char> {
    seq!['"'] + json_escaped(s) + seq!['"']
}

fn push_json_escape_char(out: &mut Vec<char>, c: char)
    ensures
        final(out)@ == old(out)@ + json_escape_char(c),
{
    let v: u32 = c as u32;
    let ghost start = out@;
    if c == '"' {
        out.push('\\');
        out.push('"');
    } else if c == '\\' {
        out.push('\\');
        out.push('\\');
    } else if v == 0x0a {
        out.push('\\');
        out.push('n');
    } else if v == 0x0d {
        out.push('\\');
        out.push('r');
    } else if v == 0x09 {
        out.push('\\');
        out.push('t');
    } else if v == 0x08 {
        out.push('\\');
        out.push('b');
    } else if v == 0x0c {
        out.push('\\');
        out.push('f');
    } else if v < 0x20 {
        let hi: u32 = v / 16;
        let lo: u32 = v % 16;
        let hc: char = if hi < 10 {
            ((hi as u8) + 48) as char
        } else {
            ((hi as u8) + 87) as char
        };
        let lc: char = if lo < 10 {
            ((lo as u8) + 48) as char
        } else {
            ((lo as u8) + 87) as char
        };
        out.push('\\');
        out.push('u');
        out.push('0');
        out.push('0');
        out.push(hc);
        out.push(lc);
    } else {
        out.push(c);
    }
    proof {
        assert(out@ =~= start + json_escape_char(c));
    }
}

/// Appends a JSON string literal holding `s`.
pub fn push_json_string(out: &mut Vec<char>, s: &str)
    ensures
        final(out)@ == old(out)@ + json_string(s@),
{
    let chars = chars_of(s);
    let ghost start = out@;
    out.push('"');
    let mut i: usize = 0;
    while i < chars.len()
        invariant
            i <= chars.len(),
            chars@ == s@,
            out@ == start + seq!['"'] + json_escaped(chars@.subrange(0, i as int)),
        decreases chars.len() - i,
    {
        let ghost before = out@;
        push_json_escape_char(out, chars[i]);
        proof {
            let t = chars@.subrange(0, i + 1);
            assert(t.drop_last() =~= chars@.subrange(0, i as int));
            assert(t.last() == chars@[i as int]);
            assert(out@ =~= start + seq!['"'] + json_escaped(t));
        }
        i = i + 1;
    }
    out.push('"');
    proof {
        assert(chars@.subrange(0, chars@.len() as int) =~= s@);
        assert(out@ =~= start + json_string(s@));
    }
}

} // verus!
