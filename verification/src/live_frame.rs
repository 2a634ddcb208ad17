//! What a live Roblox observation reports, in integers: distances between world positions,
//! the `world_mm:` and `distance_mm:` tags that entities carry, the memory details of a frame
//! and the entities it shows.
use vstd::prelude::*;

use crate::navigation::prefixed_value;
use crate::patrol_step::{split_commas, world_mm};
use crate::perception::{
    EntityKind, MemoryCameraState, MemoryObjectState, MemoryObservationDetails,
    MemoryObservationUseCase, MemoryPlayerState, MemoryPromptState, MemorySchemaVersion,
    ObservationMovementState,
};
use crate::memory_schema::{RobloxMemorySchema, RobloxObjectField};
use crate::protocol::{RobloxObservationSnapshot, RobloxObservedObject};
use crate::roblox::{patrol_moves_fit, patrol_waypoints, signed_radius};
use crate::text::{
    all_digits, chars_of, has_prefix, decimal_digit_value, decimal_digits, digit_char, digit_value,
    digits_value, i64_to_decimal, parse_i32_spec, parse_unsigned_spec, push_all,
    signed_decimal, string_from_chars, string_of, u64_to_decimal,
};

verus! {

// ----------------------------------------------------------------------------------------------
// Distances.
/// The squared distance between two positions.
pub open spec fn squared_distance(a: [i32; 3], b: [i32; 3]) -> int {
    (a[0] - b[0]) * (a[0] - b[0]) + (a[1] - b[1]) * (a[1] - b[1]) + (a[2] - b[2]) * (a[2] - b[2])
}

/// `r` is the square root of `n` rounded to the nearest integer (a square root is never
/// halfway between two integers).
pub open spec fn rounded_sqrt(n: int, r: int) -> bool {
    &&& r >= 0
    &&& 4 * n < (2 * r + 1) * (2 * r + 1)
    &&& r == 0 || (2 * r - 1) * (2 * r - 1) <= 4 * n
}

/// The distance between two positions, rounded to the nearest millimeter.
pub open spec fn distance_mm(a: [i32; 3], b: [i32; 3]) -> int {
    choose|r: int| rounded_sqrt(squared_distance(a, b), r)
}

/// Each coordinate difference of the two positions fits in an `i32`.
pub open spec fn differences_fit(a: [i32; 3], b: [i32; 3]) -> bool {
    &&& i32::MIN <= a[0] - b[0] <= i32::MAX
    &&& i32::MIN <= a[1] - b[1] <= i32::MAX
    &&& i32::MIN <= a[2] - b[2] <= i32::MAX
}

/// The rounded square root is unique.
pub proof fn lemma_rounded_sqrt_unique(n: int, r: int, s: int)
    requires
        rounded_sqrt(n, r),
        rounded_sqrt(n, s),
    ensures
        r == s,
{
    if r < s {
        assert((2 * r + 1) * (2 * r + 1) <= (2 * s - 1) * (2 * s - 1)) by (nonlinear_arith)
            requires
                0 <= r < s,
        ;
    } else if s < r {
        assert((2 * s + 1) * (2 * s + 1) <= (2 * r - 1) * (2 * r - 1)) by (nonlinear_arith)
            requires
                0 <= s < r,
        ;
    }
}

/// The largest integer whose square is at most `n`.
fn floor_sqrt(n: u64) -> (s: u64)
    ensures
        s * s <= n < (s + 1) * (s + 1),
        s < 0x1_0000_0000,
{
    let mut lo: u64 = 0;
    let mut hi: u64 = 0x1_0000_0000;
    assert(n < 0x1_0000_0000 * 0x1_0000_0000);
    while hi - lo > 1
        invariant
            lo < hi <= 0x1_0000_0000,
            lo * lo <= n,
            n < hi * hi,
        decreases hi - lo,
    {
        let mid = lo + (hi - lo) / 2;
        assert(mid * mid <= 0xFFFF_FFFF * 0xFFFF_FFFF) by (nonlinear_arith)
            requires
                mid <= 0xFFFF_FFFF,
        ;
        if mid * mid <= n {
            lo = mid;
        } else {
            hi = mid;
        }
    }
    assert(hi == lo + 1);
    lo
}

/// The square of a coordinate difference.
fn squared_difference(a: i32, b: i32) -> (r: u64)
    requires
        i32::MIN <= a - b <= i32::MAX,
    ensures
        r == (a - b) * (a - b),
        r <= 0x4000_0000_0000_0000,
{
    let d: i64 = (a as i64) - (b as i64);
    assert(d * d <= 0x4000_0000_0000_0000) by (nonlinear_arith)
        requires
            -0x8000_0000 <= d <= 0x7FFF_FFFF,
    ;
    assert(d * d >= 0) by (nonlinear_arith);
    (d * d) as u64
}

/// The distance between two positions in millimeters, rounded to the nearest millimeter.
pub fn euclidean_distance_millimeters(left: [i32; 3], right: [i32; 3]) -> (r: u32)
    requires
        differences_fit(left, right),
    ensures
        rounded_sqrt(squared_distance(left, right), r as int),
        r == distance_mm(left, right),
{
    let n: u64 = squared_difference(left[0], right[0]) + squared_difference(left[1], right[1])
        + squared_difference(left[2], right[2]);
    let s = floor_sqrt(n);
    let rounded: u64 = if n - s * s > s {
        s + 1
    } else {
        s
    };
    proof {
        let ni = n as int;
        let si = s as int;
        if n - s * s > s {
            assert(4 * ni < (2 * (si + 1) + 1) * (2 * (si + 1) + 1)) by (nonlinear_arith)
                requires
                    ni < (si + 1) * (si + 1),
                    si >= 0,
            ;
            assert((2 * (si + 1) - 1) * (2 * (si + 1) - 1) <= 4 * ni) by (nonlinear_arith)
                requires
                    ni - si * si > si,
            ;
        } else {
            assert(4 * ni < (2 * si + 1) * (2 * si + 1)) by (nonlinear_arith)
                requires
                    ni - si * si <= si,
            ;
            assert(si == 0 || (2 * si - 1) * (2 * si - 1) <= 4 * ni) by (nonlinear_arith)
                requires
                    si * si <= ni,
                    si >= 0,
            ;
        }
        assert(rounded < 0x1_0000_0000) by (nonlinear_arith)
            requires
                ni <= 3 * 0x4000_0000_0000_0000,
                si * si <= ni,
                rounded == si || rounded == si + 1,
                rounded <= 0x1_0000_0000,
                rounded == si + 1 ==> ni - si * si > si,
        {
            if rounded == 0x1_0000_0000 {
                assert(si == 0xFFFF_FFFF);
                assert(si * si + si < ni);
            }
        }
        assert(rounded_sqrt(squared_distance(left, right), rounded as int));
        let chosen = distance_mm(left, right);
        lemma_rounded_sqrt_unique(squared_distance(left, right), rounded as int, chosen);
    }
    rounded as u32
}

// ----------------------------------------------------------------------------------------------
// Position and distance tags.
/// A position as a tag writes it: three decimal coordinates separated by commas.
pub open spec fn position_text(p: [i32; 3]) -> Seq<char> {
    signed_decimal(p[0] as int) + seq![','] + signed_decimal(p[1] as int) + seq![','] + signed_decimal(
        p[2] as int,
    )
}

/// The decimal text of a position.
fn position_chars(p: [i32; 3]) -> (r: Vec<char>)
    ensures
        r@ == position_text(p),
{
    let mut out = i64_to_decimal(p[0] as i64);
    out.push(',');
    let y = i64_to_decimal(p[1] as i64);
    push_all(&mut out, &y);
    out.push(',');
    let z = i64_to_decimal(p[2] as i64);
    push_all(&mut out, &z);
    proof {
        assert(out@ =~= position_text(p));
    }
    out
}

/// The `world_mm:` tag of a position.
pub fn world_mm_tag(p: [i32; 3]) -> (r: String)
    ensures
        r@ == "world_mm:"@ + position_text(p),
{
    let mut out = chars_of("world_mm:");
    let tail = position_chars(p);
    push_all(&mut out, &tail);
    string_from_chars(&out)
}

/// A tag made of a prefix and a decimal number.
pub fn numbered_tag(prefix: &str, value: u64) -> (r: String)
    ensures
        r@ == prefix@ + decimal_digits(value as nat),
{
    let mut out = chars_of(prefix);
    let digits = u64_to_decimal(value);
    push_all(&mut out, &digits);
    string_from_chars(&out)
}

// Reading back what was written.
proof fn lemma_digit_char(d: nat)
    requires
        d < 10,
    ensures
        decimal_digit_value(digit_char(d)) == Some(d),
        digit_char(d) != ',',
        digit_char(d) != '-',
        digit_char(d) != '+',
{
    assert(('0' as u32) == 48);
    assert(('9' as u32) == 57);
    assert((digit_char(d) as u32) == d + 48);
}

proof fn lemma_decimal_digits_read(n: nat)
    ensures
        decimal_digits(n).len() >= 1,
        all_digits(decimal_digits(n), 10),
        digits_value(decimal_digits(n), 10) == n,
        forall|i: int| 0 <= i < decimal_digits(n).len() ==> #[trigger] decimal_digits(n)[i] != ','
            && decimal_digits(n)[i] != '-' && decimal_digits(n)[i] != '+',
    decreases n,
{
    let s = decimal_digits(n);
    if n < 10 {
        lemma_digit_char(n);
        assert(s.drop_last() =~= Seq::<char>::empty());
        assert(digit_value(s[0], 10) == Some(n));
        assert(digits_value(s.drop_last(), 10) == 0);
        assert(s.last() == digit_char(n));
        assert(digits_value(s, 10) == digits_value(s.drop_last(), 10) * 10 + n);
    } else {
        lemma_decimal_digits_read(n / 10);
        lemma_digit_char(n % 10);
        let prefix = decimal_digits(n / 10);
        assert(s.drop_last() =~= prefix);
        assert(s.last() == digit_char(n % 10));
        assert forall|i: int| 0 <= i < s.len() implies #[trigger] digit_value(s[i], 10) is Some by {
            if i < prefix.len() {
                assert(s[i] == prefix[i]);
                assert(digit_value(prefix[i], 10) is Some);
            }
        }
        assert forall|i: int| 0 <= i < s.len() implies #[trigger] s[i] != ',' && s[i] != '-' && s[i] != '+' by {
            if i < prefix.len() {
                assert(s[i] == prefix[i]);
            }
        }
        assert(digit_value(s.last(), 10) == Some(n % 10));
        assert(digits_value(s, 10) == digits_value(prefix, 10) * 10 + (n % 10));
        assert((n / 10) * 10 + n % 10 == n);
    }
}

/// The decimal text of an `i32` reads back as the same number.
proof fn lemma_signed_decimal_reads(x: i32)
    ensures
        parse_i32_spec(signed_decimal(x as int)) == Some(x as int),
        forall|i: int| 0 <= i < signed_decimal(x as int).len() ==> #[trigger] signed_decimal(x as int)[i]
            != ',',
{
    if x < 0 {
        let m = (-x) as nat;
        lemma_decimal_digits_read(m);
        let s = signed_decimal(x as int);
        assert(s.subrange(1, s.len() as int) =~= decimal_digits(m));
        assert forall|i: int| 0 <= i < s.len() implies #[trigger] s[i] != ',' by {
            if i > 0 {
                assert(s[i] == decimal_digits(m)[i - 1]);
            }
        }
    } else {
        let m = x as nat;
        lemma_decimal_digits_read(m);
        assert(decimal_digits(m)[0] != '-');
        assert(decimal_digits(m)[0] != '+');
    }
}

/// Appending text without commas extends the last comma-separated part.
proof fn lemma_split_append_plain(p: Seq<char>, t: Seq<char>)
    requires
        forall|i: int| 0 <= i < t.len() ==> #[trigger] t[i] != ',',
    ensures
        split_commas(p).len() >= 1 ==> split_commas(p + t) == split_commas(p).update(
            split_commas(p).len() - 1,
            split_commas(p).last() + t,
        ),
    decreases t.len(),
{
    if t.len() == 0 {
        assert(p + t =~= p);
        if split_commas(p).len() >= 1 {
            assert(split_commas(p).last() + t =~= split_commas(p).last());
            assert(split_commas(p).update(split_commas(p).len() - 1, split_commas(p).last())
                =~= split_commas(p));
        }
    } else {
        let u = t.drop_last();
        assert forall|i: int| 0 <= i < u.len() implies #[trigger] u[i] != ',' by {
            assert(u[i] == t[i]);
        }
        lemma_split_append_plain(p, u);
        assert((p + t).drop_last() =~= p + u);
        assert((p + t).last() == t.last());
        assert(t.last() != ',');
        if split_commas(p).len() >= 1 {
            let before = split_commas(p + u);
            assert(before.last() == split_commas(p).last() + u);
            assert(before.last().push(t.last()) =~= split_commas(p).last() + t);
            assert(split_commas(p + t) =~= split_commas(p).update(
                split_commas(p).len() - 1,
                split_commas(p).last() + t,
            ));
        }
    }
}

/// A position tag's value reads back as the position it was written from.
pub proof fn lemma_position_text_reads_back(p: [i32; 3])
    ensures
        world_mm(position_text(p)) == Some(p),
{
    let a = signed_decimal(p[0] as int);
    let b = signed_decimal(p[1] as int);
    let c = signed_decimal(p[2] as int);
    lemma_signed_decimal_reads(p[0]);
    lemma_signed_decimal_reads(p[1]);
    lemma_signed_decimal_reads(p[2]);
    let empty = Seq::<char>::empty();
    assert(split_commas(empty) == seq![empty]);
    lemma_split_append_plain(empty, a);
    assert(empty + a =~= a);
    let s1 = split_commas(a);
    assert(s1 =~= seq![a]);
    let a2 = a + seq![','];
    assert(a2.drop_last() =~= a);
    let s2 = split_commas(a2);
    assert(s2 =~= seq![a, empty]);
    lemma_split_append_plain(a2, b);
    let ab = a2 + b;
    assert(split_commas(ab) =~= seq![a, b]);
    let ab2 = ab + seq![','];
    assert(ab2.drop_last() =~= ab);
    assert(split_commas(ab2) =~= seq![a, b, empty]);
    lemma_split_append_plain(ab2, c);
    assert(position_text(p) =~= ab2 + c);
    let parts = split_commas(position_text(p));
    assert(parts =~= seq![a, b, c]);
    let r = world_mm(position_text(p));
    assert(r == Some([p[0], p[1], p[2]]));
    assert([p[0], p[1], p[2]]@ =~= p@);
}

// ----------------------------------------------------------------------------------------------
// Entities of a frame.
/// An entity a frame reports, with its confidence in hundredths.
#[derive(Debug, PartialEq, Eq)]
pub struct EntitySighting {
    pub id: String,
    pub kind: EntityKind,
    pub label: String,
    pub confidence_percent: u8,
    pub tags: Vec<String>,
}

/// An entity sighting as text and numbers.
pub struct SightingView {
    pub id: Seq<char>,
    pub kind: EntityKind,
    pub label: Seq<char>,
    pub confidence_percent: u8,
    pub tags: Seq<Seq<char>>,
}

impl View for EntitySighting {
    type V = SightingView;

    open spec fn view(&self) -> SightingView {
        SightingView {
            id: self.id@,
            kind: self.kind,
            label: self.label@,
            confidence_percent: self.confidence_percent,
            tags: self.tags@.map_values(|t: String| t@),
        }
    }
}

/// The views of a list of sightings.
pub open spec fn sighting_views(s: Seq<EntitySighting>) -> Seq<SightingView> {
    s.map_values(|e: EntitySighting| e@)
}

/// The `world_mm:` tag text of a position.
pub open spec fn world_mm_text(p: [i32; 3]) -> Seq<char> {
    "world_mm:"@ + position_text(p)
}

/// The corners of the patrol: the anchor moved by the radius (taken as an `i32`) along +x, +z,
/// -x and -z.
pub open spec fn patrol_corner(anchor: [i32; 3], radius: u32, k: int) -> [i32; 3] {
    let d = signed_radius(radius);
    if k == 0 {
        [(anchor[0] + d) as i32, anchor[1], anchor[2]]
    } else if k == 1 {
        [anchor[0], anchor[1], (anchor[2] + d) as i32]
    } else if k == 2 {
        [(anchor[0] - d) as i32, anchor[1], anchor[2]]
    } else {
        [anchor[0], anchor[1], (anchor[2] - d) as i32]
    }
}

/// The patrol's corners fit in `i32` coordinates: the anchor moved by the radius, taken as an
/// `i32` (wrapping above `i32::MAX`), does not overflow.
pub open spec fn patrol_fits(anchor: [i32; 3], radius: u32) -> bool {
    patrol_moves_fit(anchor, radius)
}

/// Builds a sighting.
fn sighting(id: String, kind: EntityKind, label: String, confidence_percent: u8, tags: Vec<String>) -> (r:
    EntitySighting)
    ensures
        r@ == (SightingView {
            id: id@,
            kind,
            label: label@,
            confidence_percent,
            tags: tags@.map_values(|t: String| t@),
        }),
{
    EntitySighting { id, kind, label, confidence_percent, tags }
}

/// One tag.
fn one_tag(a: String) -> (r: Vec<String>)
    ensures
        r@.map_values(|t: String| t@) == seq![a@],
{
    let mut v: Vec<String> = Vec::new();
    v.push(a);
    proof {
        assert(v@.map_values(|t: String| t@) =~= seq![a@]);
    }
    v
}

/// Two tags.
fn two_tags(a: String, b: String) -> (r: Vec<String>)
    ensures
        r@.map_values(|t: String| t@) == seq![a@, b@],
{
    let mut v: Vec<String> = Vec::new();
    v.push(a);
    v.push(b);
    proof {
        assert(v@.map_values(|t: String| t@) =~= seq![a@, b@]);
    }
    v
}

/// A text made of a prefix and the decimal text of a number.
fn numbered_text(prefix: &str, value: u64) -> (r: String)
    ensures
        r@ == prefix@ + decimal_digits(value as nat),
{
    numbered_tag(prefix, value)
}

/// A text made of two parts.
fn joined_text(prefix: &str, tail: &String) -> (r: String)
    ensures
        r@ == prefix@ + tail@,
{
    let mut out = chars_of(prefix);
    let rest = chars_of(tail.as_str());
    push_all(&mut out, &rest);
    string_from_chars(&out)
}

/// The waypoint sightings of the patrol, numbered from zero in their ids and from one in
/// their labels, each with its `world_mm:` tag and, where asked, a distance tag (the distance
/// from `from`, zero when it is unknown).
pub open spec fn waypoint_views(
    anchor: [i32; 3],
    radius: u32,
    label_prefix: Seq<char>,
    confidence_percent: u8,
    with_distance: bool,
    from: Option<[i32; 3]>,
) -> Seq<SightingView> {
    Seq::new(
        4,
        |k: int|
            SightingView {
                id: "live-patrol-waypoint-"@ + decimal_digits(k as nat),
                kind: EntityKind::Waypoint,
                label: label_prefix + decimal_digits((k + 1) as nat),
                confidence_percent,
                tags: if with_distance {
                    seq![
                        world_mm_text(patrol_corner(anchor, radius, k)),
                        "distance_mm:"@ + decimal_digits(distance_or_zero(from, patrol_corner(anchor, radius, k))),
                    ]
                } else {
                    seq![world_mm_text(patrol_corner(anchor, radius, k))]
                },
            },
    )
}

/// The distance from a position, where it is known, to a point; zero otherwise.
pub open spec fn distance_or_zero(from: Option<[i32; 3]>, to: [i32; 3]) -> nat {
    match from {
        Some(p) => distance_mm(p, to) as nat,
        None => 0,
    }
}

/// The distance from a position, where it is known, to a point; zero otherwise.
fn measured_or_zero(from: Option<[i32; 3]>, to: [i32; 3]) -> (r: u32)
    requires
        from matches Some(p) ==> differences_fit(p, to),
    ensures
        r as nat == distance_or_zero(from, to),
{
    match from {
        Some(p) => euclidean_distance_millimeters(p, to),
        None => 0,
    }
}

/// Appends the waypoint sightings of the patrol to `out`.
fn push_waypoints(
    out: &mut Vec<EntitySighting>,
    anchor: [i32; 3],
    radius: u32,
    label_prefix: &str,
    confidence_percent: u8,
    with_distance: bool,
    from: Option<[i32; 3]>,
)
    requires
        patrol_fits(anchor, radius),
        from matches Some(p) ==> forall|k: int| 0 <= k < 4 ==> #[trigger] differences_fit(p, patrol_corner(anchor, radius, k)),
    ensures
        sighting_views(final(out)@) == sighting_views(old(out)@) + waypoint_views(anchor, radius, label_prefix@, confidence_percent, with_distance, from),
{
    let points = patrol_waypoints(anchor, radius);
    let ghost start = old(out)@;
    let mut k: usize = 0;
    while k < 4
        invariant
            k <= 4,
            points@.len() == 4,
            forall|j: int| 0 <= j < 4 ==> (#[trigger] points@[j])@ == patrol_corner(anchor, radius, j)@,
            from matches Some(p) ==> forall|j: int| 0 <= j < 4 ==> #[trigger] differences_fit(p, patrol_corner(anchor, radius, j)),
            sighting_views(out@) == sighting_views(start) + waypoint_views(anchor, radius, label_prefix@, confidence_percent, with_distance, from).subrange(0, k as int),
        decreases 4 - k,
    {
        let point = points[k];
        proof {
            assert(point@ =~= patrol_corner(anchor, radius, k as int)@);
            assert(point == patrol_corner(anchor, radius, k as int));
        }
        let id = numbered_text("live-patrol-waypoint-", k as u64);
        let label = numbered_text(label_prefix, (k + 1) as u64);
        let position = world_mm_tag(point);
        let tags = if with_distance {
            let d = measured_or_zero(from, point);
            two_tags(position, numbered_text("distance_mm:", d as u64))
        } else {
            one_tag(position)
        };
        let e = sighting(id, EntityKind::Waypoint, label, confidence_percent, tags);
        let ghost before = out@;
        out.push(e);
        proof {
            let w = waypoint_views(anchor, radius, label_prefix@, confidence_percent, with_distance, from);
            assert(sighting_views(out@) =~= sighting_views(before).push(e@));
            assert(e@ == w[k as int]);
            assert(w.subrange(0, k + 1) =~= w.subrange(0, k as int).push(w[k as int]));
            assert(sighting_views(out@) =~= sighting_views(start) + w.subrange(0, k + 1));
        }
        k = k + 1;
    }
    proof {
        let w = waypoint_views(anchor, radius, label_prefix@, confidence_percent, with_distance, from);
        assert(w.subrange(0, 4) =~= w);
    }
}

/// The kind of a reported object: interactable or a visual marker.
pub open spec fn object_kind(interactable: bool) -> EntityKind {
    if interactable {
        EntityKind::Interactable
    } else {
        EntityKind::VisualMarker
    }
}

/// The sighting of an object an injected agent reported.
pub open spec fn snapshot_object_view(o: RobloxObservedObject) -> SightingView {
    SightingView {
        id: o.id@,
        kind: object_kind(o.interactable),
        label: o.label@,
        confidence_percent: 80,
        tags: seq![world_mm_text(o.position_millimeters), "kind:"@ + o.kind@],
    }
}

/// The entities a frame built from an injected agent's snapshot shows, in order: the player
/// (where its position is known), the patrol region with its distance from the player (zero
/// when unknown), the four waypoints, the reported objects, and the prompt when visible.
pub open spec fn snapshot_sightings(anchor: [i32; 3], radius: u32, snap: RobloxObservationSnapshot) -> Seq<
    SightingView,
> {
    let player = match snap.player_position_millimeters {
        Some(p) => seq![
            SightingView {
                id: "player-self"@,
                kind: EntityKind::Player,
                label: "Player"@,
                confidence_percent: 100,
                tags: seq![world_mm_text(p)],
            },
        ],
        None => Seq::empty(),
    };
    let distance = match snap.player_position_millimeters {
        Some(p) => distance_mm(p, anchor),
        None => 0,
    };
    let region = SightingView {
        id: "live-patrol-region"@,
        kind: EntityKind::Region,
        label: "Patrol Region"@,
        confidence_percent: 100,
        tags: seq![
            world_mm_text(anchor),
            "radius_mm:"@ + decimal_digits(radius as nat),
            "distance_mm:"@ + decimal_digits(distance as nat),
        ],
    };
    let prompt = if snap.prompt_visible == Some(true) {
        seq![
            SightingView {
                id: "prompt-visible"@,
                kind: EntityKind::Prompt,
                label: "Interaction Prompt"@,
                confidence_percent: 80,
                tags: seq!["visible:true"@],
            },
        ]
    } else {
        Seq::empty()
    };
    player + seq![region] + waypoint_views(anchor, radius, "Waypoint "@, 100, false, None)
        + snap.objects@.map_values(|o: RobloxObservedObject| snapshot_object_view(o)) + prompt
}

/// The entities of a frame built from an injected agent's snapshot (see `snapshot_sightings`).
pub fn snapshot_entities(anchor: [i32; 3], radius: u32, snapshot: &RobloxObservationSnapshot) -> (r: Vec<
    EntitySighting,
>)
    requires
        patrol_fits(anchor, radius),
        snapshot.player_position_millimeters matches Some(p) ==> differences_fit(p, anchor),
    ensures
        sighting_views(r@) == snapshot_sightings(anchor, radius, *snapshot),
{
    let mut out: Vec<EntitySighting> = Vec::new();
    let ghost player_views: Seq<SightingView> = match snapshot.player_position_millimeters {
        Some(p) => seq![
            SightingView {
                id: "player-self"@,
                kind: EntityKind::Player,
                label: "Player"@,
                confidence_percent: 100,
                tags: seq![world_mm_text(p)],
            },
        ],
        None => Seq::empty(),
    };
    let distance: u32 = match snapshot.player_position_millimeters {
        Some(p) => {
            out.push(sighting(string_of("player-self"), EntityKind::Player, string_of("Player"), 100, one_tag(world_mm_tag(p))));
            euclidean_distance_millimeters(p, anchor)
        },
        None => 0,
    };
    proof {
        assert(sighting_views(out@) =~= player_views);
    }
    let region_tags = three_tags(
        world_mm_tag(anchor),
        numbered_text("radius_mm:", radius as u64),
        numbered_text("distance_mm:", distance as u64),
    );
    out.push(sighting(string_of("live-patrol-region"), EntityKind::Region, string_of("Patrol Region"), 100, region_tags));
    let ghost spec_distance = match snapshot.player_position_millimeters {
        Some(p) => distance_mm(p, anchor),
        None => 0,
    };
    let ghost region_view = SightingView {
        id: "live-patrol-region"@,
        kind: EntityKind::Region,
        label: "Patrol Region"@,
        confidence_percent: 100,
        tags: seq![
            world_mm_text(anchor),
            "radius_mm:"@ + decimal_digits(radius as nat),
            "distance_mm:"@ + decimal_digits(spec_distance as nat),
        ],
    };
    proof {
        assert(distance == spec_distance);
        assert(sighting_views(out@) =~= player_views + seq![region_view]);
    }
    push_waypoints(&mut out, anchor, radius, "Waypoint ", 100, false, None);
    let ghost head = sighting_views(out@);
    assert(head == player_views + seq![region_view] + waypoint_views(anchor, radius, "Waypoint "@, 100, false, None));
    let mut i: usize = 0;
    while i < snapshot.objects.len()
        invariant
            i <= snapshot.objects@.len(),
            sighting_views(out@) == head + snapshot.objects@.subrange(0, i as int).map_values(
                |o: RobloxObservedObject| snapshot_object_view(o),
            ),
        decreases snapshot.objects@.len() - i,
    {
        let o = &snapshot.objects[i];
        let kind = if o.interactable {
            EntityKind::Interactable
        } else {
            EntityKind::VisualMarker
        };
        let tags = two_tags(world_mm_tag(o.position_millimeters), joined_text("kind:", &o.kind));
        let e = sighting(o.id.clone(), kind, o.label.clone(), 80, tags);
        let ghost before = out@;
        out.push(e);
        proof {
            assert(e@ == snapshot_object_view(snapshot.objects@[i as int]));
            assert(sighting_views(out@) =~= sighting_views(before).push(e@));
            assert(snapshot.objects@.subrange(0, i + 1).map_values(|o: RobloxObservedObject| snapshot_object_view(o))
                =~= snapshot.objects@.subrange(0, i as int).map_values(|o: RobloxObservedObject| snapshot_object_view(o)).push(
                snapshot_object_view(snapshot.objects@[i as int]),
            ));
        }
        i = i + 1;
    }
    proof {
        assert(snapshot.objects@.subrange(0, snapshot.objects@.len() as int) =~= snapshot.objects@);
    }
    let ghost body = sighting_views(out@);
    let visible = match snapshot.prompt_visible {
        Some(v) => v,
        None => false,
    };
    if visible {
        out.push(sighting(string_of("prompt-visible"), EntityKind::Prompt, string_of("Interaction Prompt"), 80, one_tag(string_of("visible:true"))));
    }
    proof {
        let objects = snapshot.objects@.map_values(|o: RobloxObservedObject| snapshot_object_view(o));
        assert(body == head + objects);
        let spec_all = snapshot_sightings(anchor, radius, *snapshot);
        assert(spec_all == player_views + seq![region_view] + waypoint_views(anchor, radius, "Waypoint "@, 100, false, None) + objects + (if snapshot.prompt_visible == Some(true) {
            seq![
                SightingView {
                    id: "prompt-visible"@,
                    kind: EntityKind::Prompt,
                    label: "Interaction Prompt"@,
                    confidence_percent: 80,
                    tags: seq!["visible:true"@],
                },
            ]
        } else {
            Seq::<SightingView>::empty()
        }));
        assert(sighting_views(out@) =~= spec_all);
    }
    out
}

/// Three tags.
fn three_tags(a: String, b: String, c: String) -> (r: Vec<String>)
    ensures
        r@.map_values(|t: String| t@) == seq![a@, b@, c@],
{
    let mut v: Vec<String> = Vec::new();
    v.push(a);
    v.push(b);
    v.push(c);
    proof {
        assert(v@.map_values(|t: String| t@) =~= seq![a@, b@, c@]);
    }
    v
}

// ----------------------------------------------------------------------------------------------
// Memory details of a frame.
/// The uses a live memory frame is meant for.
pub open spec fn live_uses() -> Seq<MemoryObservationUseCase> {
    seq![
        MemoryObservationUseCase::PlayerState,
        MemoryObservationUseCase::CameraState,
        MemoryObservationUseCase::PromptState,
        MemoryObservationUseCase::InteractableDiscovery,
    ]
}

fn live_use_list() -> (r: Vec<MemoryObservationUseCase>)
    ensures
        r@ == live_uses(),
{
    let mut v: Vec<MemoryObservationUseCase> = Vec::new();
    v.push(MemoryObservationUseCase::PlayerState);
    v.push(MemoryObservationUseCase::CameraState);
    v.push(MemoryObservationUseCase::PromptState);
    v.push(MemoryObservationUseCase::InteractableDiscovery);
    proof {
        assert(v@ =~= live_uses());
    }
    v
}

/// A reported object's state: its position, and its distance from the player where the
/// player's position is known.
pub open spec fn object_state_is(s: MemoryObjectState, o: RobloxObservedObject, player: Option<[i32; 3]>) -> bool {
    &&& s.id@ == o.id@
    &&& s.label@ == o.label@
    &&& s.kind@ == o.kind@
    &&& s.world_position_millimeters == Some(o.position_millimeters)
    &&& s.distance_millimeters == match player {
        Some(p) => Some(distance_mm(p, o.position_millimeters) as u32),
        None => None,
    }
    &&& s.interactable == o.interactable
}

/// Every reported object is close enough to the player for its distance to be measured.
pub open spec fn objects_measurable(snap: RobloxObservationSnapshot) -> bool {
    snap.player_position_millimeters matches Some(p) ==> forall|i: int|
        0 <= i < snap.objects@.len() ==> #[trigger] differences_fit(p, snap.objects@[i].position_millimeters)
}

/// The memory details of a frame built from an injected agent's snapshot: named after the
/// frame, meant for player, camera, prompt and interactable use, with the player walking, the
/// camera angles as read, the prompt when visible, and each object with its distance from the
/// player.
pub fn snapshot_memory_details(snapshot: &RobloxObservationSnapshot) -> (r: MemoryObservationDetails)
    requires
        objects_measurable(*snapshot),
    ensures
        r.schema_version == MemorySchemaVersion::V1,
        r.snapshot_id@ == "roblox-live-"@ + decimal_digits(snapshot.frame_id as nat),
        r.intended_uses@ == live_uses(),
        r.player_state matches Some(ps) && ps.world_position_millimeters == snapshot.player_position_millimeters
            && ps.velocity_millimeters_per_second == snapshot.player_velocity_millimeters
            && ps.movement_state == Some(ObservationMovementState::Walking) && ps.active_tool is None
            && ps.active_modes@.len() == 0,
        r.camera_state matches Some(cs) && cs.yaw_milli_degrees == snapshot.camera_yaw_milli_degrees
            && cs.pitch_milli_degrees == snapshot.camera_pitch_milli_degrees
            && cs.field_of_view_milli_degrees is None && cs.mode is None,
        snapshot.prompt_visible == Some(true) ==> r.prompts@.len() == 1 && r.prompts@[0].id@ == "prompt-visible"@
            && r.prompts@[0].label@ == "Interaction Prompt"@ && r.prompts@[0].visible
            && r.prompts@[0].distance_millimeters == snapshot.prompt_distance_millimeters,
        snapshot.prompt_visible != Some(true) ==> r.prompts@.len() == 0,
        r.nearby_objects@.len() == snapshot.objects@.len(),
        forall|i: int| 0 <= i < snapshot.objects@.len() ==> #[trigger] object_state_is(
            r.nearby_objects@[i],
            snapshot.objects@[i],
            snapshot.player_position_millimeters,
        ),
        r.raw_layout_hidden,
{
    let mut objects: Vec<MemoryObjectState> = Vec::new();
    let mut i: usize = 0;
    while i < snapshot.objects.len()
        invariant
            i <= snapshot.objects@.len(),
            objects_measurable(*snapshot),
            objects@.len() == i,
            forall|j: int| 0 <= j < i ==> #[trigger] object_state_is(
                objects@[j],
                snapshot.objects@[j],
                snapshot.player_position_millimeters,
            ),
        decreases snapshot.objects@.len() - i,
    {
        let o = &snapshot.objects[i];
        let distance = match snapshot.player_position_millimeters {
            Some(p) => Some(euclidean_distance_millimeters(p, o.position_millimeters)),
            None => None,
        };
        objects.push(MemoryObjectState {
            id: o.id.clone(),
            kind: o.kind.clone(),
            label: o.label.clone(),
            world_position_millimeters: Some(o.position_millimeters),
            distance_millimeters: distance,
            interactable: o.interactable,
        });
        i = i + 1;
    }
    let visible = match snapshot.prompt_visible {
        Some(v) => v,
        None => false,
    };
    let mut prompts: Vec<MemoryPromptState> = Vec::new();
    if visible {
        prompts.push(MemoryPromptState {
            id: string_of("prompt-visible"),
            label: string_of("Interaction Prompt"),
            visible: true,
            distance_millimeters: snapshot.prompt_distance_millimeters,
        });
    }
    MemoryObservationDetails {
        schema_version: MemorySchemaVersion::V1,
        snapshot_id: numbered_text("roblox-live-", snapshot.frame_id),
        intended_uses: live_use_list(),
        player_state: Some(MemoryPlayerState {
            world_position_millimeters: snapshot.player_position_millimeters,
            velocity_millimeters_per_second: snapshot.player_velocity_millimeters,
            movement_state: Some(ObservationMovementState::Walking),
            active_tool: None,
            active_modes: Vec::new(),
        }),
        camera_state: Some(MemoryCameraState {
            yaw_milli_degrees: snapshot.camera_yaw_milli_degrees,
            pitch_milli_degrees: snapshot.camera_pitch_milli_degrees,
            field_of_view_milli_degrees: None,
            mode: None,
        }),
        prompts,
        nearby_objects: objects,
        raw_layout_hidden: true,
    }
}

// ----------------------------------------------------------------------------------------------
// A frame read straight from the client's memory.
/// The values read from a client's memory for one frame; one position per object of the
/// schema, in its order.
#[derive(Debug, PartialEq, Eq)]
pub struct LiveMemoryReads {
    pub player_position: Option<[i32; 3]>,
    pub player_velocity: Option<[i32; 3]>,
    pub camera_yaw: Option<i32>,
    pub camera_pitch: Option<i32>,
    pub prompt_visible: Option<bool>,
    pub prompt_distance: Option<u32>,
    pub object_positions: Vec<[i32; 3]>,
}

/// The reads fit the schema and the patrol: one position per object, and every distance the
/// frame reports can be measured.
pub open spec fn reads_fit(anchor: [i32; 3], radius: u32, schema: RobloxMemorySchema, reads: LiveMemoryReads) -> bool {
    &&& patrol_fits(anchor, radius)
    &&& reads.object_positions@.len() == schema.objects@.len()
    &&& reads.player_position matches Some(p) ==> {
        &&& differences_fit(p, anchor)
        &&& forall|k: int| 0 <= k < 4 ==> #[trigger] differences_fit(p, patrol_corner(anchor, radius, k))
        &&& forall|i: int| 0 <= i < reads.object_positions@.len() ==> #[trigger] differences_fit(
            p,
            reads.object_positions@[i],
        )
    }
}

/// The sighting of an object of the schema at the position read for it.
pub open spec fn live_object_view(o: RobloxObjectField, position: [i32; 3], player: Option<[i32; 3]>) -> SightingView {
    SightingView {
        id: o.id@,
        kind: object_kind(o.interactable),
        label: o.label@,
        confidence_percent: 85,
        tags: seq![
            world_mm_text(position),
            "distance_mm:"@ + decimal_digits(distance_or_zero(player, position)),
            "kind:"@ + o.kind@,
        ],
    }
}

/// The entities of a frame read from memory, in order: the player (where its position was
/// read), the patrol region and its four waypoints with their distances from the player (zero
/// when unknown), the schema's objects, and the prompt when it was read as visible.
pub open spec fn live_sightings(anchor: [i32; 3], radius: u32, schema: RobloxMemorySchema, reads: LiveMemoryReads) -> Seq<
    SightingView,
> {
    let player = match reads.player_position {
        Some(p) => seq![
            SightingView {
                id: "player"@,
                kind: EntityKind::Player,
                label: "Local Player"@,
                confidence_percent: 100,
                tags: seq![world_mm_text(p)],
            },
        ],
        None => Seq::empty(),
    };
    let region = SightingView {
        id: "live-patrol-region"@,
        kind: EntityKind::Region,
        label: "Live Patrol Region"@,
        confidence_percent: 100,
        tags: seq![
            world_mm_text(anchor),
            "radius_mm:"@ + decimal_digits(radius as nat),
            "distance_mm:"@ + decimal_digits(distance_or_zero(reads.player_position, anchor)),
        ],
    };
    let objects = Seq::new(
        schema.objects@.len(),
        |i: int| live_object_view(schema.objects@[i], reads.object_positions@[i], reads.player_position),
    );
    let prompt = if reads.prompt_visible == Some(true) {
        seq![
            SightingView {
                id: "live-prompt"@,
                kind: EntityKind::Prompt,
                label: "Interact Prompt"@,
                confidence_percent: 95,
                tags: seq![
                    "distance_mm:"@ + decimal_digits(
                        match reads.prompt_distance {
                            Some(d) => d as nat,
                            None => 0,
                        },
                    ),
                ],
            },
        ]
    } else {
        Seq::empty()
    };
    player + seq![region] + waypoint_views(anchor, radius, "Patrol Waypoint "@, 90, true, reads.player_position)
        + objects + prompt
}

/// The entities of a frame read from memory (see `live_sightings`).
pub fn live_entities(anchor: [i32; 3], radius: u32, schema: &RobloxMemorySchema, reads: &LiveMemoryReads) -> (r: Vec<
    EntitySighting,
>)
    requires
        reads_fit(anchor, radius, *schema, *reads),
    ensures
        sighting_views(r@) == live_sightings(anchor, radius, *schema, *reads),
{
    let mut out: Vec<EntitySighting> = Vec::new();
    let ghost player_views: Seq<SightingView> = match reads.player_position {
        Some(p) => seq![
            SightingView {
                id: "player"@,
                kind: EntityKind::Player,
                label: "Local Player"@,
                confidence_percent: 100,
                tags: seq![world_mm_text(p)],
            },
        ],
        None => Seq::empty(),
    };
    match reads.player_position {
        Some(p) => {
            out.push(sighting(string_of("player"), EntityKind::Player, string_of("Local Player"), 100, one_tag(world_mm_tag(p))));
        },
        None => {},
    }
    proof {
        assert(sighting_views(out@) =~= player_views);
    }
    let region_distance = measured_or_zero(reads.player_position, anchor);
    let region_tags = three_tags(
        world_mm_tag(anchor),
        numbered_text("radius_mm:", radius as u64),
        numbered_text("distance_mm:", region_distance as u64),
    );
    out.push(sighting(string_of("live-patrol-region"), EntityKind::Region, string_of("Live Patrol Region"), 100, region_tags));
    let ghost region_view = SightingView {
        id: "live-patrol-region"@,
        kind: EntityKind::Region,
        label: "Live Patrol Region"@,
        confidence_percent: 100,
        tags: seq![
            world_mm_text(anchor),
            "radius_mm:"@ + decimal_digits(radius as nat),
            "distance_mm:"@ + decimal_digits(distance_or_zero(reads.player_position, anchor)),
        ],
    };
    proof {
        assert(sighting_views(out@) =~= player_views + seq![region_view]);
    }
    push_waypoints(&mut out, anchor, radius, "Patrol Waypoint ", 90, true, reads.player_position);
    let ghost head = sighting_views(out@);
    let ghost objects = Seq::new(
        schema.objects@.len(),
        |i: int| live_object_view(schema.objects@[i], reads.object_positions@[i], reads.player_position),
    );
    let mut i: usize = 0;
    while i < schema.objects.len()
        invariant
            i <= schema.objects@.len(),
            reads_fit(anchor, radius, *schema, *reads),
            objects == Seq::new(
                schema.objects@.len(),
                |i: int| live_object_view(schema.objects@[i], reads.object_positions@[i], reads.player_position),
            ),
            sighting_views(out@) == head + objects.subrange(0, i as int),
        decreases schema.objects@.len() - i,
    {
        let o = &schema.objects[i];
        let position = reads.object_positions[i];
        let kind = if o.interactable {
            EntityKind::Interactable
        } else {
            EntityKind::VisualMarker
        };
        let distance = measured_or_zero(reads.player_position, position);
        let tags = three_tags(
            world_mm_tag(position),
            numbered_text("distance_mm:", distance as u64),
            joined_text("kind:", &o.kind),
        );
        let e = sighting(o.id.clone(), kind, o.label.clone(), 85, tags);
        let ghost before = out@;
        out.push(e);
        proof {
            assert(e@ == objects[i as int]);
            assert(sighting_views(out@) =~= sighting_views(before).push(e@));
            assert(objects.subrange(0, i + 1) =~= objects.subrange(0, i as int).push(objects[i as int]));
        }
        i = i + 1;
    }
    proof {
        assert(objects.subrange(0, objects.len() as int) =~= objects);
    }
    let visible = match reads.prompt_visible {
        Some(v) => v,
        None => false,
    };
    if visible {
        let d: u32 = match reads.prompt_distance {
            Some(d) => d,
            None => 0,
        };
        out.push(sighting(string_of("live-prompt"), EntityKind::Prompt, string_of("Interact Prompt"), 95, one_tag(numbered_text("distance_mm:", d as u64))));
    }
    proof {
        let spec_all = live_sightings(anchor, radius, *schema, *reads);
        let prompt = if reads.prompt_visible == Some(true) {
            seq![
                SightingView {
                    id: "live-prompt"@,
                    kind: EntityKind::Prompt,
                    label: "Interact Prompt"@,
                    confidence_percent: 95,
                    tags: seq![
                        "distance_mm:"@ + decimal_digits(
                            match reads.prompt_distance {
                                Some(d) => d as nat,
                                None => 0,
                            },
                        ),
                    ],
                },
            ]
        } else {
            Seq::<SightingView>::empty()
        };
        assert(spec_all == player_views + seq![region_view] + waypoint_views(anchor, radius, "Patrol Waypoint "@, 90, true, reads.player_position) + objects + prompt);
        assert(sighting_views(out@) =~= spec_all);
    }
    out
}

/// The state of an object of the schema at the position read for it.
pub open spec fn live_object_state_is(
    s: MemoryObjectState,
    o: RobloxObjectField,
    position: [i32; 3],
    player: Option<[i32; 3]>,
) -> bool {
    &&& s.id@ == o.id@
    &&& s.kind@ == o.kind@
    &&& s.label@ == o.label@
    &&& s.world_position_millimeters == Some(position)
    &&& s.distance_millimeters == Some(distance_or_zero(player, position) as u32)
    &&& s.interactable == o.interactable
}

/// The memory details of a frame read from memory: meant for player, camera, prompt and
/// interactable use, the player walking when a velocity was read (else in an unknown state)
/// in the `live` and `roblox` modes, a third-person camera at the angles read, the prompt when
/// read as visible, and each object of the schema with its distance from the player (zero when
/// unknown).
pub fn live_memory_details(schema: &RobloxMemorySchema, reads: &LiveMemoryReads) -> (r: MemoryObservationDetails)
    requires
        reads.object_positions@.len() == schema.objects@.len(),
        reads.player_position matches Some(p) ==> forall|i: int|
            0 <= i < reads.object_positions@.len() ==> #[trigger] differences_fit(p, reads.object_positions@[i]),
    ensures
        r.schema_version == MemorySchemaVersion::V1,
        r.snapshot_id@ == "roblox-live"@,
        r.intended_uses@ == live_uses(),
        r.player_state matches Some(ps) && ps.world_position_millimeters == reads.player_position
            && ps.velocity_millimeters_per_second == reads.player_velocity
            && ps.movement_state == Some(
            if reads.player_velocity is Some {
                ObservationMovementState::Walking
            } else {
                ObservationMovementState::Unknown
            },
        ) && ps.active_tool is None && ps.active_modes@.map_values(|m: String| m@) == seq!["live"@, "roblox"@],
        r.camera_state matches Some(cs) && cs.yaw_milli_degrees == reads.camera_yaw
            && cs.pitch_milli_degrees == reads.camera_pitch && cs.field_of_view_milli_degrees is None
            && (cs.mode matches Some(m) && m@ == "third_person"@),
        reads.prompt_visible == Some(true) ==> r.prompts@.len() == 1 && r.prompts@[0].id@ == "live-prompt"@
            && r.prompts@[0].label@ == "Interact Prompt"@ && r.prompts@[0].visible
            && r.prompts@[0].distance_millimeters == reads.prompt_distance,
        reads.prompt_visible != Some(true) ==> r.prompts@.len() == 0,
        r.nearby_objects@.len() == schema.objects@.len(),
        forall|i: int| 0 <= i < schema.objects@.len() ==> #[trigger] live_object_state_is(
            r.nearby_objects@[i],
            schema.objects@[i],
            reads.object_positions@[i],
            reads.player_position,
        ),
        r.raw_layout_hidden,
{
    let mut objects: Vec<MemoryObjectState> = Vec::new();
    let mut i: usize = 0;
    while i < schema.objects.len()
        invariant
            i <= schema.objects@.len(),
            reads.object_positions@.len() == schema.objects@.len(),
            reads.player_position matches Some(p) ==> forall|i: int|
                0 <= i < reads.object_positions@.len() ==> #[trigger] differences_fit(p, reads.object_positions@[i]),
            objects@.len() == i,
            forall|j: int| 0 <= j < i ==> #[trigger] live_object_state_is(
                objects@[j],
                schema.objects@[j],
                reads.object_positions@[j],
                reads.player_position,
            ),
        decreases schema.objects@.len() - i,
    {
        let o = &schema.objects[i];
        let position = reads.object_positions[i];
        let distance = measured_or_zero(reads.player_position, position);
        objects.push(MemoryObjectState {
            id: o.id.clone(),
            kind: o.kind.clone(),
            label: o.label.clone(),
            world_position_millimeters: Some(position),
            distance_millimeters: Some(distance),
            interactable: o.interactable,
        });
        i = i + 1;
    }
    let visible = match reads.prompt_visible {
        Some(v) => v,
        None => false,
    };
    let mut prompts: Vec<MemoryPromptState> = Vec::new();
    if visible {
        prompts.push(MemoryPromptState {
            id: string_of("live-prompt"),
            label: string_of("Interact Prompt"),
            visible: true,
            distance_millimeters: reads.prompt_distance,
        });
    }
    let mut modes: Vec<String> = Vec::new();
    modes.push(string_of("live"));
    modes.push(string_of("roblox"));
    proof {
        assert(modes@.map_values(|m: String| m@) =~= seq!["live"@, "roblox"@]);
    }
    let movement = match reads.player_velocity {
        Some(_) => ObservationMovementState::Walking,
        None => ObservationMovementState::Unknown,
    };
    MemoryObservationDetails {
        schema_version: MemorySchemaVersion::V1,
        snapshot_id: string_of("roblox-live"),
        intended_uses: live_use_list(),
        player_state: Some(MemoryPlayerState {
            world_position_millimeters: reads.player_position,
            velocity_millimeters_per_second: reads.player_velocity,
            movement_state: Some(movement),
            active_tool: None,
            active_modes: modes,
        }),
        camera_state: Some(MemoryCameraState {
            yaw_milli_degrees: reads.camera_yaw,
            pitch_milli_degrees: reads.camera_pitch,
            field_of_view_milli_degrees: None,
            mode: Some(string_of("third_person")),
        }),
        prompts,
        nearby_objects: objects,
        raw_layout_hidden: true,
    }
}

/// The detail line of a frame read from memory, naming the client build and the schema.
pub fn live_frame_detail(schema: &RobloxMemorySchema) -> (r: String)
    ensures
        r@ == "live Roblox memory snapshot build="@ + schema.game_build@ + " schema="@ + schema.schema_version@,
{
    let mut out = chars_of("live Roblox memory snapshot build=");
    let build = chars_of(schema.game_build.as_str());
    push_all(&mut out, &build);
    let middle = chars_of(" schema=");
    push_all(&mut out, &middle);
    let version = chars_of(schema.schema_version.as_str());
    push_all(&mut out, &version);
    string_from_chars(&out)
}

/// The snapshot id of a frame read from memory: the process id, or `unknown`.
pub fn live_snapshot_id(pid: Option<u32>) -> (r: String)
    ensures
        r@ == "roblox-live-"@ + match pid {
            Some(p) => decimal_digits(p as nat),
            None => "unknown"@,
        },
{
    match pid {
        Some(p) => numbered_text("roblox-live-", p as u64),
        None => joined_text("roblox-live-", &string_of("unknown")),
    }
}

/// A note with the camera's yaw in milli-degrees, as the navigation reads it back.
pub fn camera_yaw_note(yaw: i32) -> (r: String)
    ensures
        r@ == "camera_yaw_md:"@ + signed_decimal(yaw as int),
{
    let mut out = chars_of("camera_yaw_md:");
    let digits = i64_to_decimal(yaw as i64);
    push_all(&mut out, &digits);
    string_from_chars(&out)
}

// ----------------------------------------------------------------------------------------------
// Reading back the tags and notes a frame writes.
/// The value after a prefix in the first item that has it.
proof fn lemma_prefixed_value_at(items: Seq<String>, prefix: Seq<char>, k: int, value: Seq<char>)
    requires
        0 <= k < items.len(),
        forall|j: int| 0 <= j < k ==> !has_prefix(#[trigger] items[j]@, prefix),
        items[k]@ == prefix + value,
    ensures
        prefixed_value(items, prefix) == Some(value),
    decreases k,
{
    if k == 0 {
        assert((prefix + value).subrange(0, prefix.len() as int) =~= prefix);
        assert((prefix + value).subrange(prefix.len() as int, (prefix + value).len() as int) =~= value);
    } else {
        assert(!has_prefix(items[0]@, prefix));
        let rest = items.drop_first();
        assert forall|j: int| 0 <= j < k - 1 implies !has_prefix(#[trigger] rest[j]@, prefix) by {
            assert(rest[j] == items[j + 1]);
        }
        lemma_prefixed_value_at(rest, prefix, k - 1, value);
    }
}

/// A position tag, written first, reads back as the position.
pub proof fn lemma_world_mm_tag_reads_back(tags: Seq<String>, p: [i32; 3])
    requires
        tags.len() >= 1,
        tags[0]@ == world_mm_text(p),
    ensures
        prefixed_value(tags, "world_mm:"@) matches Some(v) && world_mm(v) == Some(p),
{
    lemma_prefixed_value_at(tags, "world_mm:"@, 0, position_text(p));
    lemma_position_text_reads_back(p);
}

/// A distance tag after tags of other kinds reads back as the distance.
pub proof fn lemma_distance_tag_reads_back(tags: Seq<String>, k: int, d: u32)
    requires
        0 <= k < tags.len(),
        forall|j: int| 0 <= j < k ==> !has_prefix(#[trigger] tags[j]@, "distance_mm:"@),
        tags[k]@ == "distance_mm:"@ + decimal_digits(d as nat),
    ensures
        prefixed_value(tags, "distance_mm:"@) matches Some(v) && parse_unsigned_spec(v, 10, 0x1_0000_0000) == Some(
            d as nat,
        ),
{
    lemma_prefixed_value_at(tags, "distance_mm:"@, k, decimal_digits(d as nat));
    lemma_decimal_digits_read(d as nat);
    assert(decimal_digits(d as nat)[0] != '+');
}

/// A position tag is no distance tag.
pub proof fn lemma_world_mm_tag_is_no_distance(p: [i32; 3])
    ensures
        !has_prefix(world_mm_text(p), "distance_mm:"@),
{
    reveal_strlit("world_mm:");
    reveal_strlit("distance_mm:");
    assert(world_mm_text(p)[0] == 'w');
    assert(("distance_mm:"@)[0] == 'd');
    if has_prefix(world_mm_text(p), "distance_mm:"@) {
        assert(world_mm_text(p).subrange(0, 12)[0] == world_mm_text(p)[0]);
    }
}

/// A yaw note after notes of other kinds reads back as the yaw.
pub proof fn lemma_yaw_note_reads_back(notes: Seq<String>, k: int, yaw: i32)
    requires
        0 <= k < notes.len(),
        forall|j: int| 0 <= j < k ==> !has_prefix(#[trigger] notes[j]@, "camera_yaw_md:"@),
        notes[k]@ == "camera_yaw_md:"@ + signed_decimal(yaw as int),
    ensures
        prefixed_value(notes, "camera_yaw_md:"@) matches Some(v) && parse_i32_spec(v) == Some(yaw as int),
{
    lemma_prefixed_value_at(notes, "camera_yaw_md:"@, k, signed_decimal(yaw as int));
    lemma_signed_decimal_reads(yaw);
}

} // verus!
