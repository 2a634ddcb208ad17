//! Navigation over the world model: the entities as navigation reads them (priority, recency,
//! status, tags, and the smoothed confidence as a whole percentage), the model's queries, the
//! navigation controllers' decisions, and the evaluation of recipe conditions.
use vstd::prelude::*;

use crate::perception::{EntityKind, TrackedEntityStatus};
use crate::text::{
    chars_of, decimal_digits, has_prefix, parse_i32, parse_i32_spec, parse_unsigned,
    parse_unsigned_spec, push_all, push_str, signed_decimal, string_from_chars, string_of,
    u64_to_decimal, i64_to_decimal,
};
use crate::workflows::{
    is_stuck, stuck, ApproachUntilThresholdController, BoundedRegionPatrolController,
    ControllerMemory, NavigationControllerConfig, NavigationControllerKind, NavigationDecision,
    NavigationDecisionKind, NoProgressRecoveryController, RotateTowardTargetController,
    SemanticInputAction, SemanticInputTarget, WorkflowCondition, WorkflowConditionOperator,
    WorkflowNode, WorkflowStep, WorkflowTaskRecipe,
};

verus! {

broadcast use vstd::seq_lib::to_multiset_build, vstd::seq_lib::to_multiset_insert;

/// A tracked entity as navigation reads it. The tracker's smoothed confidence appears as the
/// whole percentage below it (`floor(confidence * 100)`).
#[derive(Debug, PartialEq, Eq)]
pub struct TrackedEntitySummary {
    pub id: String,
    pub kind: EntityKind,
    pub label: String,
    pub tags: Vec<String>,
    pub confidence_percent: u32,
    pub priority_score: u32,
    pub first_seen_frame_id: u64,
    pub last_seen_frame_id: u64,
    pub missed_frames: u32,
    pub status: TrackedEntityStatus,
}

/// The world model as navigation reads it: its tracked entities and its notes.
#[derive(Debug, PartialEq, Eq)]
pub struct WorldModelSummary {
    pub last_updated_frame_id: u64,
    pub entities: Vec<TrackedEntitySummary>,
    pub notes: Vec<String>,
}

/// What a navigation controller decides from: the world model, the frame, and the progress
/// samples it remembers.
#[derive(Debug, PartialEq, Eq)]
pub struct NavigationContext {
    pub world_model: WorldModelSummary,
    pub frame_id: u64,
    pub controller_memory: ControllerMemory,
}

// ----------------------------------------------------------------------------------------------
// Entity order.
/// An entity is active unless it is lost.
pub open spec fn is_active(e: TrackedEntitySummary) -> bool {
    e.status != TrackedEntityStatus::Lost
}

/// `a` ranks above `b`: a higher priority score, or the same score and seen more recently.
pub open spec fn ranks_above(a: TrackedEntitySummary, b: TrackedEntitySummary) -> bool {
    a.priority_score > b.priority_score || (a.priority_score == b.priority_score
        && a.last_seen_frame_id > b.last_seen_frame_id)
}

/// No later entity ranks above an earlier one.
pub open spec fn in_priority_order(s: Seq<TrackedEntitySummary>) -> bool {
    forall|i: int, j: int| 0 <= i < j < s.len() ==> !#[trigger] ranks_above(s[j], s[i])
}

/// The active entities, in their order.
pub open spec fn active_of(s: Seq<TrackedEntitySummary>) -> Seq<TrackedEntitySummary> {
    s.filter(|e: TrackedEntitySummary| is_active(e))
}

/// The lost entities, in their order.
pub open spec fn lost_of(s: Seq<TrackedEntitySummary>) -> Seq<TrackedEntitySummary> {
    s.filter(|e: TrackedEntitySummary| !is_active(e))
}

/// An active entity of the kind.
pub open spec fn active_kind(e: TrackedEntitySummary, kind: EntityKind) -> bool {
    is_active(e) && e.kind == kind
}

/// `b` is the entity of the kind that the priority order puts first: active, of the kind,
/// ranked below no other such entity, and above every such entity before it.
pub open spec fn best_of_kind(s: Seq<TrackedEntitySummary>, kind: EntityKind, b: int) -> bool {
    &&& 0 <= b < s.len()
    &&& active_kind(s[b], kind)
    &&& forall|k: int| 0 <= k < s.len() && #[trigger] active_kind(s[k], kind) ==> !ranks_above(s[k], s[b])
    &&& forall|k: int| 0 <= k < b && #[trigger] active_kind(s[k], kind) ==> ranks_above(s[b], s[k])
}

/// The best entity of a kind, if any: the first of its kind in priority order.
pub open spec fn best_entity_spec(s: Seq<TrackedEntitySummary>, kind: EntityKind) -> Option<TrackedEntitySummary> {
    if exists|b: int| best_of_kind(s, kind, b) {
        Some(s[choose|b: int| best_of_kind(s, kind, b)])
    } else {
        None
    }
}

/// At most one entity is the best of its kind.
pub proof fn lemma_best_unique(s: Seq<TrackedEntitySummary>, kind: EntityKind, a: int, b: int)
    requires
        best_of_kind(s, kind, a),
        best_of_kind(s, kind, b),
    ensures
        a == b,
{
    if a < b {
        assert(ranks_above(s[b], s[a]));
        assert(!ranks_above(s[a], s[b]));
    } else if b < a {
        assert(ranks_above(s[a], s[b]));
    }
}

proof fn lemma_filter_push(s: Seq<TrackedEntitySummary>, e: TrackedEntitySummary)
    ensures
        active_of(s.push(e)) == if is_active(e) { active_of(s).push(e) } else { active_of(s) },
        lost_of(s.push(e)) == if !is_active(e) { lost_of(s).push(e) } else { lost_of(s) },
{
    assert(s.push(e).drop_last() =~= s);
    reveal_with_fuel(Seq::<TrackedEntitySummary>::filter, 1);
}

impl WorldModelSummary {
    /// The entities that are not lost, in their order.
    pub fn active_entities(&self) -> (r: Vec<&TrackedEntitySummary>)
        ensures
            r@.map_values(|e: &TrackedEntitySummary| *e) == active_of(self.entities@),
    {
        let mut out: Vec<&TrackedEntitySummary> = Vec::new();
        let mut i: usize = 0;
        while i < self.entities.len()
            invariant
                i <= self.entities.len(),
                out@.map_values(|e: &TrackedEntitySummary| *e) == active_of(self.entities@.subrange(0, i as int)),
            decreases self.entities.len() - i,
        {
            proof {
                lemma_filter_push(self.entities@.subrange(0, i as int), self.entities@[i as int]);
                assert(self.entities@.subrange(0, i as int).push(self.entities@[i as int])
                    =~= self.entities@.subrange(0, i + 1));
            }
            let e = &self.entities[i];
            if e.status != TrackedEntityStatus::Lost {
                let ghost before = out@.map_values(|e: &TrackedEntitySummary| *e);
                out.push(e);
                proof {
                    assert(out@.map_values(|e: &TrackedEntitySummary| *e) =~= before.push(*e));
                }
            }
            i = i + 1;
        }
        proof {
            assert(self.entities@.subrange(0, self.entities@.len() as int) =~= self.entities@);
        }
        out
    }

    /// The lost entities, in their order.
    pub fn lost_entities(&self) -> (r: Vec<&TrackedEntitySummary>)
        ensures
            r@.map_values(|e: &TrackedEntitySummary| *e) == lost_of(self.entities@),
    {
        let mut out: Vec<&TrackedEntitySummary> = Vec::new();
        let mut i: usize = 0;
        while i < self.entities.len()
            invariant
                i <= self.entities.len(),
                out@.map_values(|e: &TrackedEntitySummary| *e) == lost_of(self.entities@.subrange(0, i as int)),
            decreases self.entities.len() - i,
        {
            proof {
                lemma_filter_push(self.entities@.subrange(0, i as int), self.entities@[i as int]);
                assert(self.entities@.subrange(0, i as int).push(self.entities@[i as int])
                    =~= self.entities@.subrange(0, i + 1));
            }
            let e = &self.entities[i];
            if e.status == TrackedEntityStatus::Lost {
                let ghost before = out@.map_values(|e: &TrackedEntitySummary| *e);
                out.push(e);
                proof {
                    assert(out@.map_values(|e: &TrackedEntitySummary| *e) =~= before.push(*e));
                }
            }
            i = i + 1;
        }
        proof {
            assert(self.entities@.subrange(0, self.entities@.len() as int) =~= self.entities@);
        }
        out
    }

    /// The active entities by priority: higher scores first, then more recently seen; ties
    /// keep their order.
    pub fn prioritized_entities(&self) -> (r: Vec<&TrackedEntitySummary>)
        ensures
            in_priority_order(r@.map_values(|e: &TrackedEntitySummary| *e)),
            r@.map_values(|e: &TrackedEntitySummary| *e).to_multiset() == active_of(self.entities@).to_multiset(),
    {
        let mut out: Vec<&TrackedEntitySummary> = Vec::new();
        let mut i: usize = 0;
        proof {
            assert(out@.map_values(|e: &TrackedEntitySummary| *e) =~= Seq::<TrackedEntitySummary>::empty());
            assert(active_of(self.entities@.subrange(0, 0)) =~= Seq::<TrackedEntitySummary>::empty()) by {
                reveal_with_fuel(Seq::<TrackedEntitySummary>::filter, 1);
            }
        }
        while i < self.entities.len()
            invariant
                i <= self.entities.len(),
                in_priority_order(out@.map_values(|e: &TrackedEntitySummary| *e)),
                out@.map_values(|e: &TrackedEntitySummary| *e).to_multiset()
                    == active_of(self.entities@.subrange(0, i as int)).to_multiset(),
            decreases self.entities.len() - i,
        {
            proof {
                lemma_filter_push(self.entities@.subrange(0, i as int), self.entities@[i as int]);
                assert(self.entities@.subrange(0, i as int).push(self.entities@[i as int])
                    =~= self.entities@.subrange(0, i + 1));
            }
            let e = &self.entities[i];
            if e.status != TrackedEntityStatus::Lost {
                let ghost before = out@.map_values(|x: &TrackedEntitySummary| *x);
                let mut p: usize = 0;
                while p < out.len() && !(e.priority_score > out[p].priority_score
                    || (e.priority_score == out[p].priority_score
                    && e.last_seen_frame_id > out[p].last_seen_frame_id))
                    invariant
                        p <= out.len(),
                        before == out@.map_values(|x: &TrackedEntitySummary| *x),
                        forall|k: int| 0 <= k < p ==> !#[trigger] ranks_above(*e, before[k]),
                    decreases out.len() - p,
                {
                    p = p + 1;
                }
                out.insert(p, e);
                proof {
                    let after = out@.map_values(|x: &TrackedEntitySummary| *x);
                    assert(after =~= before.insert(p as int, *e));
                    assert forall|a: int, b: int| 0 <= a < b < after.len() implies !#[trigger] ranks_above(
                        after[b],
                        after[a],
                    ) by {
                        if b < p {
                            assert(after[a] == before[a] && after[b] == before[b]);
                        } else if b == p {
                            assert(after[a] == before[a]);
                        } else if a > p {
                            assert(after[a] == before[a - 1] && after[b] == before[b - 1]);
                        } else if a == p {
                            assert(after[b] == before[b - 1]);
                            assert(ranks_above(*e, before[p as int]));
                            if b - 1 > p {
                                assert(!ranks_above(before[b - 1], before[p as int]));
                            }
                        } else {
                            assert(after[a] == before[a] && after[b] == before[b - 1]);
                        }
                    }
                }
            }
            i = i + 1;
        }
        proof {
            assert(self.entities@.subrange(0, self.entities@.len() as int) =~= self.entities@);
        }
        out
    }

    /// The best active entity of a kind: the first of its kind in priority order.
    pub fn best_entity(&self, kind: EntityKind) -> (r: Option<&TrackedEntitySummary>)
        ensures
            (forall|k: int| 0 <= k < self.entities@.len() ==> !#[trigger] active_kind(self.entities@[k], kind))
                ==> r is None,
            (exists|k: int| 0 <= k < self.entities@.len() && #[trigger] active_kind(self.entities@[k], kind))
                ==> exists|b: int| #![trigger self.entities@[b]] best_of_kind(self.entities@, kind, b)
                && r == Some(&self.entities@[b]),
            r == match best_entity_spec(self.entities@, kind) {
                Some(e) => Some(&e),
                None => None::<&TrackedEntitySummary>,
            },
    {
        let es = &self.entities;
        let mut best: Option<usize> = None;
        let mut i: usize = 0;
        while i < es.len()
            invariant
                i <= es.len(),
                es == &self.entities,
                match best {
                    None => forall|k: int| 0 <= k < i ==> !#[trigger] active_kind(es@[k], kind),
                    Some(b) => {
                        &&& b < i
                        &&& active_kind(es@[b as int], kind)
                        &&& forall|k: int| 0 <= k < i && #[trigger] active_kind(es@[k], kind)
                            ==> !ranks_above(es@[k], es@[b as int])
                        &&& forall|k: int| 0 <= k < b && #[trigger] active_kind(es@[k], kind)
                            ==> ranks_above(es@[b as int], es@[k])
                    },
                },
            decreases es.len() - i,
        {
            let e = &es[i];
            if e.status != TrackedEntityStatus::Lost && e.kind == kind {
                match best {
                    None => {
                        best = Some(i);
                    },
                    Some(b) => {
                        let c = &es[b];
                        if e.priority_score > c.priority_score || (e.priority_score == c.priority_score
                            && e.last_seen_frame_id > c.last_seen_frame_id) {
                            best = Some(i);
                        }
                    },
                }
            }
            i = i + 1;
        }
        match best {
            None => {
                proof {
                    assert(!exists|b: int| best_of_kind(es@, kind, b));
                }
                None
            },
            Some(b) => {
                proof {
                    assert(best_of_kind(es@, kind, b as int));
                    let c = choose|x: int| best_of_kind(es@, kind, x);
                    lemma_best_unique(es@, kind, b as int, c);
                }
                Some(&es[b])
            },
        }
    }
}

// ----------------------------------------------------------------------------------------------
// Tags and notes.
/// The text after `prefix` in the first item that starts with it.
pub open spec fn prefixed_value(items: Seq<String>, prefix: Seq<char>) -> Option<Seq<char>>
    decreases items.len(),
{
    if items.len() == 0 {
        None
    } else if has_prefix(items[0]@, prefix) {
        Some(items[0]@.subrange(prefix.len() as int, items[0]@.len() as int))
    } else {
        prefixed_value(items.drop_first(), prefix)
    }
}

/// The distance in the entity's first `distance_mm:` tag, when it reads as a `u32`.
pub open spec fn tagged_distance(e: TrackedEntitySummary) -> Option<u32> {
    match prefixed_value(e.tags@, "distance_mm:"@) {
        Some(v) => match parse_unsigned_spec(v, 10, 0x1_0000_0000) {
            Some(n) => Some(n as u32),
            None => None,
        },
        None => None,
    }
}

/// The value in the first note with the prefix, when it reads as an `i32`.
pub open spec fn noted_i32(notes: Seq<String>, prefix: Seq<char>) -> Option<i32> {
    match prefixed_value(notes, prefix) {
        Some(v) => match parse_i32_spec(v) {
            Some(n) => Some(n as i32),
            None => None,
        },
        None => None,
    }
}

/// Whether `s` starts with `prefix`.
fn chars_start_with(s: &Vec<char>, prefix: &Vec<char>) -> (r: bool)
    ensures
        r == has_prefix(s@, prefix@),
{
    if prefix.len() > s.len() {
        return false;
    }
    let mut i: usize = 0;
    while i < prefix.len()
        invariant
            i <= prefix.len() <= s.len(),
            s@.subrange(0, i as int) == prefix@.subrange(0, i as int),
        decreases prefix.len() - i,
    {
        if s[i] != prefix[i] {
            proof {
                assert(s@.subrange(0, prefix@.len() as int)[i as int] == s@[i as int]);
            }
            return false;
        }
        proof {
            assert(s@.subrange(0, i + 1) =~= s@.subrange(0, i as int).push(s@[i as int]));
            assert(prefix@.subrange(0, i + 1) =~= prefix@.subrange(0, i as int).push(prefix@[i as int]));
        }
        i = i + 1;
    }
    proof {
        assert(prefix@.subrange(0, prefix@.len() as int) =~= prefix@);
    }
    true
}

/// The characters of `s` from `start` on.
fn chars_from(s: &Vec<char>, start: usize) -> (r: Vec<char>)
    requires
        start <= s.len(),
    ensures
        r@ == s@.subrange(start as int, s@.len() as int),
{
    let mut out: Vec<char> = Vec::new();
    let mut i: usize = start;
    while i < s.len()
        invariant
            start <= i <= s.len(),
            out@ == s@.subrange(start as int, i as int),
        decreases s.len() - i,
    {
        out.push(s[i]);
        proof {
            assert(out@ =~= s@.subrange(start as int, i + 1));
        }
        i = i + 1;
    }
    out
}

/// The text after `prefix` in the first item that starts with it.
pub(crate) fn find_prefixed(items: &Vec<String>, prefix: &str) -> (r: Option<Vec<char>>)
    ensures
        match prefixed_value(items@, prefix@) {
            Some(v) => r matches Some(x) && x@ == v,
            None => r is None,
        },
{
    let p = chars_of(prefix);
    let mut i: usize = 0;
    proof {
        assert(items@.subrange(0, items@.len() as int) =~= items@);
    }
    while i < items.len()
        invariant
            i <= items.len(),
            p@ == prefix@,
            prefixed_value(items@, prefix@) == prefixed_value(items@.subrange(i as int, items@.len() as int), prefix@),
        decreases items.len() - i,
    {
        proof {
            let rest = items@.subrange(i as int, items@.len() as int);
            assert(rest.drop_first() =~= items@.subrange(i + 1, items@.len() as int));
            assert(rest[0] == items@[i as int]);
        }
        let s = chars_of(items[i].as_str());
        if chars_start_with(&s, &p) {
            return Some(chars_from(&s, p.len()));
        }
        i = i + 1;
    }
    None
}

/// The distance in the entity's first `distance_mm:` tag, when it reads as a `u32`.
pub fn entity_distance_millimeters(entity: &TrackedEntitySummary) -> (r: Option<u32>)
    ensures
        r == tagged_distance(*entity),
{
    match find_prefixed(&entity.tags, "distance_mm:") {
        Some(v) => match parse_unsigned(&v, 10, 0x1_0000_0000) {
            Some(n) => Some(n as u32),
            None => None,
        },
        None => None,
    }
}

/// The value in the first note with the prefix, when it reads as an `i32`.
fn noted_value(notes: &Vec<String>, prefix: &str) -> (r: Option<i32>)
    ensures
        r == noted_i32(notes@, prefix@),
{
    match find_prefixed(notes, prefix) {
        Some(v) => parse_i32(&v),
        None => None,
    }
}

/// The camera yaw the model notes (`camera_yaw_md:`), in milli-degrees.
pub fn navigation_camera_yaw(world_model: &WorldModelSummary) -> (r: Option<i32>)
    ensures
        r == noted_i32(world_model.notes@, "camera_yaw_md:"@),
{
    noted_value(&world_model.notes, "camera_yaw_md:")
}

/// The heading toward the target the model notes (`target_yaw_md:`), in milli-degrees.
pub fn navigation_target_yaw(world_model: &WorldModelSummary) -> (r: Option<i32>)
    ensures
        r == noted_i32(world_model.notes@, "target_yaw_md:"@),
{
    noted_value(&world_model.notes, "target_yaw_md:")
}

/// The first entity with the id.
pub open spec fn entity_with_id(s: Seq<TrackedEntitySummary>, id: Seq<char>) -> Option<TrackedEntitySummary>
    decreases s.len(),
{
    if s.len() == 0 {
        None
    } else if s[0].id@ == id {
        Some(s[0])
    } else {
        entity_with_id(s.drop_first(), id)
    }
}

/// The distance to the entity with the id, when it is known.
pub open spec fn distance_to(context: NavigationContext, id: Seq<char>) -> Option<u32> {
    match entity_with_id(context.world_model.entities@, id) {
        Some(e) => tagged_distance(e),
        None => None,
    }
}

impl NavigationContext {
    /// The best active entity of a kind.
    pub fn best_entity_by_kind(&self, kind: EntityKind) -> (r: Option<&TrackedEntitySummary>)
        ensures
            r == match best_entity_spec(self.world_model.entities@, kind) {
                Some(e) => Some(&e),
                None => None::<&TrackedEntitySummary>,
            },
    {
        self.world_model.best_entity(kind)
    }

    /// The distance to the first entity with the id, read from its `distance_mm:` tag.
    pub fn entity_distance_millimeters(&self, entity_id: &str) -> (r: Option<u32>)
        ensures
            r == distance_to(*self, entity_id@),
    {
        let es = &self.world_model.entities;
        let mut i: usize = 0;
        proof {
            assert(es@.subrange(0, es@.len() as int) =~= es@);
        }
        while i < es.len()
            invariant
                i <= es.len(),
                es == &self.world_model.entities,
                entity_with_id(es@, entity_id@) == entity_with_id(es@.subrange(i as int, es@.len() as int), entity_id@),
            decreases es.len() - i,
        {
            proof {
                let rest = es@.subrange(i as int, es@.len() as int);
                assert(rest.drop_first() =~= es@.subrange(i + 1, es@.len() as int));
                assert(rest[0] == es@[i as int]);
            }
            if crate::text::str_eq(es[i].id.as_str(), entity_id) {
                return entity_distance_millimeters(&es[i]);
            }
            i = i + 1;
        }
        None
    }

    /// The current yaw: the context never provides one.
    pub fn current_yaw_milli_degrees(&self) -> (r: Option<i32>)
        ensures
            r is None,
    {
        None
    }
}

/// The id of the best active entity of a kind.
pub fn select_prioritized_entity_id(world_model: &WorldModelSummary, kind: EntityKind) -> (r: Option<String>)
    ensures
        match best_entity_spec(world_model.entities@, kind) {
            Some(e) => r matches Some(id) && id@ == e.id@,
            None => r is None,
        },
{
    match world_model.best_entity(kind) {
        Some(e) => Some(e.id.clone()),
        None => None,
    }
}

// ----------------------------------------------------------------------------------------------
// Controllers.
/// A navigation controller: its kind and its decision for a context.
pub trait NavigationController {
    fn kind(&self) -> NavigationControllerKind;

    fn decide(&self, context: &NavigationContext, config: &NavigationControllerConfig) -> NavigationDecision;
}

/// A decision of the kind, without actions, with the detail.
pub open spec fn bare_decision(d: NavigationDecision, kind: NavigationDecisionKind, detail: Seq<char>) -> bool {
    d.kind == kind && d.actions@.len() == 0 && d.detail@ == detail
}

/// A decision of the kind with one action, with the detail.
pub open spec fn one_action_decision(d: NavigationDecision, kind: NavigationDecisionKind, detail: Seq<char>) -> bool {
    d.kind == kind && d.actions@.len() == 1 && d.detail@ == detail
}

/// Approaching the entity with the id.
pub open spec fn approaches_entity(a: SemanticInputAction, id: Seq<char>) -> bool {
    a matches SemanticInputAction::Approach { target: SemanticInputTarget::EntityId { entity_id } }
        && entity_id@ == id
}

/// Walking to the region with the id.
pub open spec fn walks_to_region(a: SemanticInputAction, id: Seq<char>) -> bool {
    a matches SemanticInputAction::WalkTo { target: SemanticInputTarget::RegionId { region_id } }
        && region_id@ == id
}

/// Walking to the entity with the id.
pub open spec fn walks_to_entity(a: SemanticInputAction, id: Seq<char>) -> bool {
    a matches SemanticInputAction::WalkTo { target: SemanticInputTarget::EntityId { entity_id } }
        && entity_id@ == id
}

/// The turn toward a heading error: one step in its direction, none without error (a step of
/// `i32::MIN` turned the other way wraps, as in release builds).
pub open spec fn turn_toward(delta: int, step: i32) -> i32 {
    if delta > 0 {
        step
    } else if delta == 0 {
        0
    } else if step == i32::MIN {
        i32::MIN
    } else {
        (-step) as i32
    }
}

/// The heading error of the context: the noted target yaw minus the noted camera yaw.
pub open spec fn rotate_decides(context: NavigationContext, config: NavigationControllerConfig, d: NavigationDecision) -> bool {
    match noted_i32(context.world_model.notes@, "camera_yaw_md:"@) {
        None => bare_decision(d, NavigationDecisionKind::Blocked, "camera yaw unavailable for heading control"@),
        Some(camera) => match noted_i32(context.world_model.notes@, "target_yaw_md:"@) {
            None => bare_decision(d, NavigationDecisionKind::Blocked, "target yaw unavailable for heading control"@),
            Some(desired) => {
                let delta = desired - camera;
                let magnitude = if delta >= 0 { delta } else { -delta };
                if magnitude <= config.heading_tolerance_milli_degrees {
                    bare_decision(d, NavigationDecisionKind::Continue, "heading already within tolerance"@)
                } else {
                    &&& d.kind == NavigationDecisionKind::Continue
                    &&& d.actions@ == seq![SemanticInputAction::Turn {
                        delta_yaw_milli_degrees: turn_toward(delta, config.turn_step_milli_degrees),
                    }]
                    &&& d.detail@ == "rotate toward target by correcting yaw delta "@ + signed_decimal(delta)
                }
            },
        },
    }
}

/// What approaching the target decides: stop once within the arrival threshold.
pub open spec fn approach_decides(
    context: NavigationContext,
    target: Seq<char>,
    config: NavigationControllerConfig,
    d: NavigationDecision,
) -> bool {
    match distance_to(context, target) {
        None => bare_decision(d, NavigationDecisionKind::Blocked, "target '"@ + target + "' is unavailable"@),
        Some(distance) => if distance <= config.arrival_threshold_millimeters {
            &&& d.kind == NavigationDecisionKind::Arrived
            &&& d.actions@ == seq![SemanticInputAction::StopMotion]
            &&& d.detail@ == "arrived within threshold at distance "@ + decimal_digits(distance as nat) + " mm"@
        } else {
            &&& one_action_decision(
                d,
                NavigationDecisionKind::Continue,
                "approach target '"@ + target + "' at "@ + decimal_digits(distance as nat) + " mm"@,
            )
            &&& approaches_entity(d.actions@[0], target)
        },
    }
}

/// The first waypoint whose distance is known.
pub open spec fn first_known_waypoint(context: NavigationContext, waypoints: Seq<String>) -> Option<Seq<char>>
    decreases waypoints.len(),
{
    if waypoints.len() == 0 {
        None
    } else if distance_to(context, waypoints[0]@) is Some {
        Some(waypoints[0]@)
    } else {
        first_known_waypoint(context, waypoints.drop_first())
    }
}

/// What patrolling a region decides: return when farther than twice the arrival threshold,
/// else walk to the first known waypoint, else within the region.
pub open spec fn patrol_decides(
    context: NavigationContext,
    region: Seq<char>,
    waypoints: Seq<String>,
    threshold: u32,
    d: NavigationDecision,
) -> bool {
    match distance_to(context, region) {
        None => bare_decision(d, NavigationDecisionKind::Blocked, "region '"@ + region + "' is unavailable"@),
        Some(distance) => if distance > 2 * threshold {
            &&& one_action_decision(
                d,
                NavigationDecisionKind::Continue,
                "return to patrol region '"@ + region + "' from "@ + decimal_digits(distance as nat) + " mm away"@,
            )
            &&& walks_to_region(d.actions@[0], region)
        } else {
            match first_known_waypoint(context, waypoints) {
                Some(w) => one_action_decision(
                    d,
                    NavigationDecisionKind::Continue,
                    "patrol toward waypoint '"@ + w + "'"@,
                ) && walks_to_entity(d.actions@[0], w),
                None => one_action_decision(
                    d,
                    NavigationDecisionKind::Continue,
                    "patrol inside region '"@ + region + "'"@,
                ) && walks_to_region(d.actions@[0], region),
            }
        },
    }
}

/// What the no-progress recovery decides: stop, strafe right, jump when stuck.
pub open spec fn recovery_decides(context: NavigationContext, config: NavigationControllerConfig, d: NavigationDecision) -> bool {
    if stuck(
        context.controller_memory.progress_samples@,
        config.stuck_frame_window as nat,
        config.stuck_distance_epsilon_millimeters,
    ) {
        &&& d.kind == NavigationDecisionKind::Recovering
        &&& d.actions@ == seq![
            SemanticInputAction::StopMotion,
            SemanticInputAction::StrafeRight { duration_ms: config.move_step_ms },
            SemanticInputAction::Jump,
        ]
        &&& d.detail@ == "stuck detected, issuing no-progress recovery sequence"@
    } else {
        bare_decision(d, NavigationDecisionKind::Continue, "movement progress is still changing"@)
    }
}

/// A decision of the kind, without actions, with the detail.
fn bare(kind: NavigationDecisionKind, detail: Vec<char>) -> (r: NavigationDecision)
    ensures
        bare_decision(r, kind, detail@),
{
    NavigationDecision { kind, actions: Vec::new(), detail: string_from_chars(&detail) }
}

/// A decision of the kind with one action, with the detail.
fn one_action(kind: NavigationDecisionKind, action: SemanticInputAction, detail: Vec<char>) -> (r: NavigationDecision)
    ensures
        one_action_decision(r, kind, detail@),
        r.actions@[0] == action,
{
    let mut actions: Vec<SemanticInputAction> = Vec::new();
    actions.push(action);
    NavigationDecision { kind, actions, detail: string_from_chars(&detail) }
}

/// `before` + `id` + `after`.
fn quoted(before: &str, id: &str, after: &str) -> (r: Vec<char>)
    ensures
        r@ == before@ + id@ + after@,
{
    let mut out: Vec<char> = Vec::new();
    push_str(&mut out, before);
    push_str(&mut out, id);
    push_str(&mut out, after);
    out
}

impl NavigationController for RotateTowardTargetController {
    fn kind(&self) -> (r: NavigationControllerKind)
        ensures
            r == NavigationControllerKind::RotateTowardTarget,
    {
        NavigationControllerKind::RotateTowardTarget
    }

    /// Turns one step toward the noted target heading when the error exceeds the tolerance.
    fn decide(&self, context: &NavigationContext, config: &NavigationControllerConfig) -> (r: NavigationDecision)
        ensures
            rotate_decides(*context, *config, r),
    {
        let camera = match navigation_camera_yaw(&context.world_model) {
            Some(v) => v,
            None => {
                let mut d: Vec<char> = Vec::new();
                push_str(&mut d, "camera yaw unavailable for heading control");
                return bare(NavigationDecisionKind::Blocked, d);
            },
        };
        let desired = match navigation_target_yaw(&context.world_model) {
            Some(v) => v,
            None => {
                let mut d: Vec<char> = Vec::new();
                push_str(&mut d, "target yaw unavailable for heading control");
                return bare(NavigationDecisionKind::Blocked, d);
            },
        };
        let delta: i64 = desired as i64 - camera as i64;
        let magnitude: i64 = if delta >= 0 { delta } else { -delta };
        if magnitude <= config.heading_tolerance_milli_degrees as i64 {
            let mut d: Vec<char> = Vec::new();
            push_str(&mut d, "heading already within tolerance");
            return bare(NavigationDecisionKind::Continue, d);
        }
        let step = config.turn_step_milli_degrees;
        let turn: i32 = if delta > 0 {
            step
        } else if delta == 0 {
            0
        } else if step == i32::MIN {
            i32::MIN
        } else {
            -step
        };
        let mut d: Vec<char> = Vec::new();
        push_str(&mut d, "rotate toward target by correcting yaw delta ");
        let digits = i64_to_decimal(delta);
        push_all(&mut d, &digits);
        let r = one_action(
            NavigationDecisionKind::Continue,
            SemanticInputAction::Turn { delta_yaw_milli_degrees: turn },
            d,
        );
        proof {
            assert(r.actions@ =~= seq![SemanticInputAction::Turn { delta_yaw_milli_degrees: turn }]);
        }
        r
    }
}

impl NavigationController for ApproachUntilThresholdController {
    fn kind(&self) -> (r: NavigationControllerKind)
        ensures
            r == NavigationControllerKind::ApproachUntilThreshold,
    {
        NavigationControllerKind::ApproachUntilThreshold
    }

    /// Approaches the target entity until it is within the arrival threshold, then stops.
    fn decide(&self, context: &NavigationContext, config: &NavigationControllerConfig) -> (r: NavigationDecision)
        ensures
            approach_decides(*context, self.target_entity_id@, *config, r),
    {
        let id = self.target_entity_id.as_str();
        let distance = match context.entity_distance_millimeters(id) {
            Some(v) => v,
            None => {
                return bare(NavigationDecisionKind::Blocked, quoted("target '", id, "' is unavailable"));
            },
        };
        if distance <= config.arrival_threshold_millimeters {
            let mut d: Vec<char> = Vec::new();
            push_str(&mut d, "arrived within threshold at distance ");
            let digits = u64_to_decimal(distance as u64);
            push_all(&mut d, &digits);
            push_str(&mut d, " mm");
            let r = one_action(NavigationDecisionKind::Arrived, SemanticInputAction::StopMotion, d);
            proof {
                assert(r.actions@ =~= seq![SemanticInputAction::StopMotion]);
            }
            return r;
        }
        let mut d = quoted("approach target '", id, "' at ");
        let digits = u64_to_decimal(distance as u64);
        push_all(&mut d, &digits);
        push_str(&mut d, " mm");
        one_action(
            NavigationDecisionKind::Continue,
            SemanticInputAction::Approach {
                target: SemanticInputTarget::EntityId { entity_id: self.target_entity_id.clone() },
            },
            d,
        )
    }
}

impl BoundedRegionPatrolController {
    /// The patrol decision for an arrival threshold.
    fn decide_with_threshold(&self, context: &NavigationContext, threshold: u32) -> (r: NavigationDecision)
        ensures
            patrol_decides(*context, self.region_entity_id@, self.waypoint_entity_ids@, threshold, r),
    {
        let region = self.region_entity_id.as_str();
        let distance = match context.entity_distance_millimeters(region) {
            Some(v) => v,
            None => {
                return bare(NavigationDecisionKind::Blocked, quoted("region '", region, "' is unavailable"));
            },
        };
        if distance as u64 > 2 * (threshold as u64) {
            let mut d = quoted("return to patrol region '", region, "' from ");
            let digits = u64_to_decimal(distance as u64);
            push_all(&mut d, &digits);
            push_str(&mut d, " mm away");
            return one_action(
                NavigationDecisionKind::Continue,
                SemanticInputAction::WalkTo {
                    target: SemanticInputTarget::RegionId { region_id: self.region_entity_id.clone() },
                },
                d,
            );
        }
        let waypoints = &self.waypoint_entity_ids;
        let mut i: usize = 0;
        proof {
            assert(waypoints@.subrange(0, waypoints@.len() as int) =~= waypoints@);
        }
        while i < waypoints.len()
            invariant
                i <= waypoints.len(),
                waypoints == &self.waypoint_entity_ids,
                region@ == self.region_entity_id@,
                distance_to(*context, self.region_entity_id@) == Some(distance),
                distance <= 2 * threshold,
                first_known_waypoint(*context, waypoints@) == first_known_waypoint(
                    *context,
                    waypoints@.subrange(i as int, waypoints@.len() as int),
                ),
            decreases waypoints.len() - i,
        {
            proof {
                let rest = waypoints@.subrange(i as int, waypoints@.len() as int);
                assert(rest.drop_first() =~= waypoints@.subrange(i + 1, waypoints@.len() as int));
                assert(rest[0] == waypoints@[i as int]);
            }
            let w = waypoints[i].as_str();
            if context.entity_distance_millimeters(w).is_some() {
                proof {
                    let rest = waypoints@.subrange(i as int, waypoints@.len() as int);
                    assert(distance_to(*context, rest[0]@) is Some);
                    assert(first_known_waypoint(*context, rest) == Some(rest[0]@));
                }
                return one_action(
                    NavigationDecisionKind::Continue,
                    SemanticInputAction::WalkTo {
                        target: SemanticInputTarget::EntityId { entity_id: waypoints[i].clone() },
                    },
                    quoted("patrol toward waypoint '", w, "'"),
                );
            }
            i = i + 1;
        }
        one_action(
            NavigationDecisionKind::Continue,
            SemanticInputAction::WalkTo {
                target: SemanticInputTarget::RegionId { region_id: self.region_entity_id.clone() },
            },
            quoted("patrol inside region '", region, "'"),
        )
    }
}

impl NavigationController for BoundedRegionPatrolController {
    fn kind(&self) -> (r: NavigationControllerKind)
        ensures
            r == NavigationControllerKind::BoundedRegionPatrol,
    {
        NavigationControllerKind::BoundedRegionPatrol
    }

    /// Patrols the region: back into it when far, else toward the first known waypoint.
    fn decide(&self, context: &NavigationContext, config: &NavigationControllerConfig) -> (r: NavigationDecision)
        ensures
            patrol_decides(
                *context,
                self.region_entity_id@,
                self.waypoint_entity_ids@,
                config.arrival_threshold_millimeters,
                r,
            ),
    {
        self.decide_with_threshold(context, config.arrival_threshold_millimeters)
    }
}

impl NavigationController for NoProgressRecoveryController {
    fn kind(&self) -> (r: NavigationControllerKind)
        ensures
            r == NavigationControllerKind::NoProgressRecovery,
    {
        NavigationControllerKind::NoProgressRecovery
    }

    /// Issues the recovery sequence when the distance to the target stopped changing.
    fn decide(&self, context: &NavigationContext, config: &NavigationControllerConfig) -> (r: NavigationDecision)
        ensures
            recovery_decides(*context, *config, r),
    {
        if !is_stuck(&context.controller_memory, config) {
            let mut d: Vec<char> = Vec::new();
            push_str(&mut d, "movement progress is still changing");
            return bare(NavigationDecisionKind::Continue, d);
        }
        let mut actions: Vec<SemanticInputAction> = Vec::new();
        actions.push(SemanticInputAction::StopMotion);
        actions.push(SemanticInputAction::StrafeRight { duration_ms: config.move_step_ms });
        actions.push(SemanticInputAction::Jump);
        let mut d: Vec<char> = Vec::new();
        push_str(&mut d, "stuck detected, issuing no-progress recovery sequence");
        proof {
            assert(actions@ =~= seq![
                SemanticInputAction::StopMotion,
                SemanticInputAction::StrafeRight { duration_ms: config.move_step_ms },
                SemanticInputAction::Jump,
            ]);
        }
        NavigationDecision { kind: NavigationDecisionKind::Recovering, actions, detail: string_from_chars(&d) }
    }
}

/// Patrols while scanning: a visible interactable interrupts the patrol to approach it;
/// otherwise the patrol decides with the default tuning.
pub fn patrol_while_scanning_decision(
    context: &NavigationContext,
    patrol: &BoundedRegionPatrolController,
) -> (r: NavigationDecision)
    ensures
        match best_entity_spec(context.world_model.entities@, EntityKind::Interactable) {
            Some(t) => one_action_decision(
                r,
                NavigationDecisionKind::Continue,
                "scan found target '"@ + t.id@ + "', interrupt patrol"@,
            ) && approaches_entity(r.actions@[0], t.id@),
            None => patrol_decides(*context, patrol.region_entity_id@, patrol.waypoint_entity_ids@, 900, r),
        },
{
    match context.best_entity_by_kind(EntityKind::Interactable) {
        Some(target) => one_action(
            NavigationDecisionKind::Continue,
            SemanticInputAction::Approach {
                target: SemanticInputTarget::EntityId { entity_id: target.id.clone() },
            },
            quoted("scan found target '", target.id.as_str(), "', interrupt patrol"),
        ),
        None => {
            let config = NavigationControllerConfig::default();
            patrol.decide(context, &config)
        },
    }
}

/// Interacts once a prompt is visible; blocked until then.
pub fn interact_when_prompt_appears_decision(context: &NavigationContext) -> (r: NavigationDecision)
    ensures
        match best_entity_spec(context.world_model.entities@, EntityKind::Prompt) {
            Some(p) => one_action_decision(
                r,
                NavigationDecisionKind::Continue,
                "prompt '"@ + p.id@ + "' visible, interact"@,
            ) && r.actions@[0] == SemanticInputAction::Interact,
            None => bare_decision(r, NavigationDecisionKind::Blocked, "prompt not visible yet"@),
        },
{
    match context.best_entity_by_kind(EntityKind::Prompt) {
        Some(prompt) => one_action(
            NavigationDecisionKind::Continue,
            SemanticInputAction::Interact,
            quoted("prompt '", prompt.id.as_str(), "' visible, interact"),
        ),
        None => {
            let mut d: Vec<char> = Vec::new();
            push_str(&mut d, "prompt not visible yet");
            bare(NavigationDecisionKind::Blocked, d)
        },
    }
}

/// Keeps interacting while a prompt is visible, then resumes the patrol with the default
/// tuning.
pub fn resume_patrol_after_interaction_decision(
    context: &NavigationContext,
    patrol: &BoundedRegionPatrolController,
) -> (r: NavigationDecision)
    ensures
        match best_entity_spec(context.world_model.entities@, EntityKind::Prompt) {
            Some(_) => one_action_decision(
                r,
                NavigationDecisionKind::Continue,
                "interaction still active, continue interacting"@,
            ) && r.actions@[0] == SemanticInputAction::Interact,
            None => patrol_decides(*context, patrol.region_entity_id@, patrol.waypoint_entity_ids@, 900, r),
        },
{
    if context.best_entity_by_kind(EntityKind::Prompt).is_none() {
        let config = NavigationControllerConfig::default();
        return patrol.decide(context, &config);
    }
    let mut d: Vec<char> = Vec::new();
    push_str(&mut d, "interaction still active, continue interacting");
    one_action(NavigationDecisionKind::Continue, SemanticInputAction::Interact, d)
}

// ----------------------------------------------------------------------------------------------
// Recipe conditions.
/// Whether a condition holds of the world model, judged on the best entity of its kind.
pub open spec fn condition_holds(c: WorkflowCondition, world_model: WorldModelSummary) -> bool {
    let best = best_entity_spec(world_model.entities@, c.entity_kind);
    let threshold: u32 = match c.threshold {
        Some(t) => t,
        None => 0,
    };
    match c.operator {
        WorkflowConditionOperator::Exists => best is Some,
        WorkflowConditionOperator::NotExists => best is None,
        WorkflowConditionOperator::ConfidenceAtLeast => best matches Some(e) && e.confidence_percent >= threshold,
        WorkflowConditionOperator::LostForFramesAtLeast => best matches Some(e) && e.missed_frames >= threshold,
    }
}

/// A step holds unless it is a condition that does not.
pub open spec fn step_holds(step: WorkflowStep, world_model: WorldModelSummary) -> bool {
    match step {
        WorkflowStep::Condition { condition } => condition_holds(condition, world_model),
        _ => true,
    }
}

/// Every condition step of every node of the recipe holds.
pub open spec fn conditions_hold(recipe: WorkflowTaskRecipe, world_model: WorldModelSummary) -> bool {
    forall|i: int, j: int|
        0 <= i < recipe.action_graph@.len() && 0 <= j < recipe.action_graph@[i].steps@.len()
            ==> #[trigger] step_holds(recipe.action_graph@[i].steps@[j], world_model)
}

/// Whether one condition holds of the world model.
fn evaluate_condition(condition: &WorkflowCondition, world_model: &WorldModelSummary) -> (r: bool)
    ensures
        r == condition_holds(*condition, *world_model),
{
    let entity = world_model.best_entity(condition.entity_kind);
    let threshold: u32 = match condition.threshold {
        Some(t) => t,
        None => 0,
    };
    match condition.operator {
        WorkflowConditionOperator::Exists => entity.is_some(),
        WorkflowConditionOperator::NotExists => entity.is_none(),
        WorkflowConditionOperator::ConfidenceAtLeast => match entity {
            Some(e) => e.confidence_percent >= threshold,
            None => false,
        },
        WorkflowConditionOperator::LostForFramesAtLeast => match entity {
            Some(e) => e.missed_frames >= threshold,
            None => false,
        },
    }
}

impl WorkflowTaskRecipe {
    /// Whether every condition step of the action graph holds of the world model.
    pub fn evaluate_conditions(&self, world_model: &WorldModelSummary) -> (r: bool)
        ensures
            r == conditions_hold(*self, *world_model),
    {
        let nodes = &self.action_graph;
        let mut i: usize = 0;
        while i < nodes.len()
            invariant
                i <= nodes.len(),
                nodes == &self.action_graph,
                forall|a: int, b: int|
                    0 <= a < i && 0 <= b < nodes@[a].steps@.len()
                        ==> #[trigger] step_holds(nodes@[a].steps@[b], *world_model),
            decreases nodes.len() - i,
        {
            let steps = &nodes[i].steps;
            let mut j: usize = 0;
            while j < steps.len()
                invariant
                    i < nodes.len(),
                    j <= steps.len(),
                    nodes == &self.action_graph,
                    steps == &nodes@[i as int].steps,
                    forall|a: int, b: int|
                        0 <= a < i && 0 <= b < nodes@[a].steps@.len()
                            ==> #[trigger] step_holds(nodes@[a].steps@[b], *world_model),
                    forall|b: int| 0 <= b < j ==> #[trigger] step_holds(steps@[b], *world_model),
                decreases steps.len() - j,
            {
                let holds = match &steps[j] {
                    WorkflowStep::Condition { condition } => evaluate_condition(condition, world_model),
                    _ => true,
                };
                if !holds {
                    proof {
                        assert(!step_holds(self.action_graph@[i as int].steps@[j as int], *world_model));
                    }
                    return false;
                }
                j = j + 1;
            }
            proof {
                assert forall|a: int, b: int|
                    0 <= a < i + 1 && 0 <= b < nodes@[a].steps@.len() implies #[trigger] step_holds(
                    nodes@[a].steps@[b],
                    *world_model,
                ) by {
                    if a == i {
                        assert(step_holds(steps@[b], *world_model));
                    }
                }
            }
            i = i + 1;
        }
        true
    }
}

} // verus!
