//! One step of the live patrol: the world positions that entities carry in their tags, the
//! window of progress samples, the expansion of a walk into a turn and a forward move, and the
//! reading of an input outcome.
use vstd::prelude::*;

use crate::navigation::{
    best_entity_spec, entity_with_id, find_prefixed, navigation_camera_yaw, noted_i32,
    prefixed_value, NavigationContext, TrackedEntitySummary, WorldModelSummary,
};
use crate::perception::EntityKind;
use crate::protocol::AdvancedCommandAckStatus;
use crate::text::{parse_i32, parse_i32_spec, string_from_chars};
use crate::types::{WinrError, WinrResult};
use crate::workflows::{
    ControllerMemory, NavigationControllerConfig, ProgressSample, SemanticInputAction,
    SemanticInputTarget,
};

verus! {

// ----------------------------------------------------------------------------------------------
// World positions.
/// The parts of a text between commas, empty parts included (as `str::split` yields).
pub open spec fn split_commas(s: Seq<char>) -> Seq<Seq<char>>
    decreases s.len(),
{
    if s.len() == 0 {
        seq![Seq::empty()]
    } else {
        let prefix = split_commas(s.drop_last());
        if s.last() == ',' {
            prefix.push(Seq::empty())
        } else {
            prefix.update(prefix.len() - 1, prefix.last().push(s.last()))
        }
    }
}

proof fn lemma_split_commas_nonempty(s: Seq<char>)
    ensures
        split_commas(s).len() >= 1,
    decreases s.len(),
{
    if s.len() > 0 {
        lemma_split_commas_nonempty(s.drop_last());
    }
}

/// A `world_mm:` value: its first three comma-separated parts read as `i32` millimeters
/// (further parts are ignored).
pub open spec fn world_mm(value: Seq<char>) -> Option<[i32; 3]> {
    let parts = split_commas(value);
    if parts.len() >= 3 && parse_i32_spec(parts[0]) is Some && parse_i32_spec(parts[1]) is Some
        && parse_i32_spec(parts[2]) is Some {
        Some([
            parse_i32_spec(parts[0]).unwrap() as i32,
            parse_i32_spec(parts[1]).unwrap() as i32,
            parse_i32_spec(parts[2]).unwrap() as i32,
        ])
    } else {
        None
    }
}

/// Splits a text at commas.
fn split_on_commas(s: &Vec<char>) -> (r: Vec<Vec<char>>)
    ensures
        r@.map_values(|p: Vec<char>| p@) == split_commas(s@),
{
    let mut parts: Vec<Vec<char>> = Vec::new();
    parts.push(Vec::new());
    let mut i: usize = 0;
    proof {
        assert(s@.subrange(0, 0) =~= Seq::<char>::empty());
        assert(parts@.map_values(|p: Vec<char>| p@) =~= split_commas(s@.subrange(0, 0)));
    }
    while i < s.len()
        invariant
            i <= s.len(),
            parts@.len() >= 1,
            parts@.map_values(|p: Vec<char>| p@) == split_commas(s@.subrange(0, i as int)),
        decreases s.len() - i,
    {
        let ghost before = parts@.map_values(|p: Vec<char>| p@);
        proof {
            assert(s@.subrange(0, i + 1).drop_last() =~= s@.subrange(0, i as int));
            assert(s@.subrange(0, i + 1).last() == s@[i as int]);
        }
        if s[i] == ',' {
            parts.push(Vec::new());
            proof {
                assert(parts@.map_values(|p: Vec<char>| p@) =~= before.push(Seq::empty()));
            }
        } else {
            let last_index = parts.len() - 1;
            let mut last = parts.remove(last_index);
            last.push(s[i]);
            parts.push(last);
            proof {
                assert(parts@.map_values(|p: Vec<char>| p@) =~= before.update(
                    before.len() - 1,
                    before.last().push(s@[i as int]),
                ));
            }
        }
        i = i + 1;
    }
    proof {
        assert(s@.subrange(0, s@.len() as int) =~= s@);
    }
    parts
}

/// Reads a `world_mm:` value: three comma-separated `i32` millimeters.
pub fn parse_world_mm_tag(value: &Vec<char>) -> (r: Option<[i32; 3]>)
    ensures
        r == world_mm(value@),
{
    let parts = split_on_commas(value);
    let ghost all = parts@.map_values(|p: Vec<char>| p@);
    if parts.len() < 3 {
        return None;
    }
    proof {
        assert(all[0] == parts@[0]@);
        assert(all[1] == parts@[1]@);
        assert(all[2] == parts@[2]@);
    }
    let x = match parse_i32(&parts[0]) {
        Some(v) => v,
        None => {
            return None;
        },
    };
    let y = match parse_i32(&parts[1]) {
        Some(v) => v,
        None => {
            return None;
        },
    };
    let z = match parse_i32(&parts[2]) {
        Some(v) => v,
        None => {
            return None;
        },
    };
    Some([x, y, z])
}

/// The world position in an entity's first `world_mm:` tag.
pub open spec fn tagged_position(e: TrackedEntitySummary) -> Option<[i32; 3]> {
    match prefixed_value(e.tags@, "world_mm:"@) {
        Some(v) => world_mm(v),
        None => None,
    }
}

/// The world position in an entity's first `world_mm:` tag, when it reads as three `i32`s.
pub fn entity_world_position(entity: &TrackedEntitySummary) -> (r: Option<[i32; 3]>)
    ensures
        r == tagged_position(*entity),
{
    match find_prefixed(&entity.tags, "world_mm:") {
        Some(v) => parse_world_mm_tag(&v),
        None => None,
    }
}

/// Where a semantic target is: the best interactable for the current target, the first
/// entity with the id, or the best region for a region.
pub open spec fn target_position(target: SemanticInputTarget, context: NavigationContext) -> Option<[i32; 3]> {
    let found = match target {
        SemanticInputTarget::CurrentTarget => best_entity_spec(
            context.world_model.entities@,
            EntityKind::Interactable,
        ),
        SemanticInputTarget::EntityId { entity_id } => entity_with_id(
            context.world_model.entities@,
            entity_id@,
        ),
        SemanticInputTarget::RegionId { .. } => best_entity_spec(
            context.world_model.entities@,
            EntityKind::Region,
        ),
    };
    match found {
        Some(e) => tagged_position(e),
        None => None,
    }
}

/// The first entity with the id.
fn entity_by_id<'a>(entities: &'a Vec<TrackedEntitySummary>, id: &str) -> (r: Option<&'a TrackedEntitySummary>)
    ensures
        r == match entity_with_id(entities@, id@) {
            Some(e) => Some(&e),
            None => None::<&TrackedEntitySummary>,
        },
{
    let mut i: usize = 0;
    proof {
        assert(entities@.subrange(0, entities@.len() as int) =~= entities@);
    }
    while i < entities.len()
        invariant
            i <= entities.len(),
            entity_with_id(entities@, id@) == entity_with_id(entities@.subrange(i as int, entities@.len() as int), id@),
        decreases entities.len() - i,
    {
        proof {
            let rest = entities@.subrange(i as int, entities@.len() as int);
            assert(rest.drop_first() =~= entities@.subrange(i + 1, entities@.len() as int));
            assert(rest[0] == entities@[i as int]);
        }
        if crate::text::str_eq(entities[i].id.as_str(), id) {
            return Some(&entities[i]);
        }
        i = i + 1;
    }
    None
}

/// Where a semantic target is in the world, when its entity carries a position.
pub fn target_world_position(target: &SemanticInputTarget, context: &NavigationContext) -> (r: Option<[i32; 3]>)
    ensures
        r == target_position(*target, *context),
{
    let found = match target {
        SemanticInputTarget::CurrentTarget => context.best_entity_by_kind(EntityKind::Interactable),
        SemanticInputTarget::EntityId { entity_id } => entity_by_id(
            &context.world_model.entities,
            entity_id.as_str(),
        ),
        SemanticInputTarget::RegionId { .. } => context.best_entity_by_kind(EntityKind::Region),
    };
    match found {
        Some(e) => entity_world_position(e),
        None => None,
    }
}

// ----------------------------------------------------------------------------------------------
// Progress samples.
/// How many progress samples the live patrol keeps.
pub open spec fn progress_window() -> nat {
    8
}

/// The samples after recording one: appended, the oldest dropped beyond the window.
pub open spec fn samples_after(samples: Seq<ProgressSample>, sample: ProgressSample) -> Seq<ProgressSample> {
    let pushed = samples.push(sample);
    if pushed.len() > progress_window() {
        pushed.drop_first()
    } else {
        pushed
    }
}

/// Records a progress sample, keeping the most recent ones within the window.
pub fn record_progress_sample(memory: &mut ControllerMemory, sample: ProgressSample)
    ensures
        final(memory).progress_samples@ == samples_after(old(memory).progress_samples@, sample),
{
    memory.progress_samples.push(sample);
    if memory.progress_samples.len() > 8 {
        memory.progress_samples.remove(0);
        proof {
            assert(memory.progress_samples@ =~= samples_after(old(memory).progress_samples@, sample));
        }
    }
}

/// Recording keeps at most the window of samples, and the newest one last.
pub proof fn lemma_progress_window(samples: Seq<ProgressSample>, sample: ProgressSample)
    requires
        samples.len() <= progress_window(),
    ensures
        samples_after(samples, sample).len() <= progress_window(),
        samples_after(samples, sample).last() == sample,
{
}

// ----------------------------------------------------------------------------------------------
// Walking.
/// `v` limited to `[-step, step]`.
pub open spec fn clamp_turn(v: int, step: i32) -> i32 {
    if v > step {
        step
    } else if v < -step {
        (-step) as i32
    } else {
        v as i32
    }
}

/// The heading tolerance compared as the unsigned value of its bits.
pub open spec fn tolerance_bits(tolerance: i32) -> int {
    if tolerance >= 0 {
        tolerance as int
    } else {
        tolerance + 0x1_0000_0000
    }
}

/// What a walk or an approach becomes: a stop when the target has no position, else a turn
/// (at most one step) when the heading error exceeds the tolerance, then a forward move.
/// The heading error is the desired yaw minus the noted camera yaw (the desired yaw itself
/// when none is noted). Other actions stay as they are.
pub open spec fn expanded_actions(
    action: SemanticInputAction,
    desired_yaw: Option<i32>,
    world_model: WorldModelSummary,
    config: NavigationControllerConfig,
) -> Seq<SemanticInputAction> {
    if action is WalkTo || action is Approach {
        match desired_yaw {
            None => seq![SemanticInputAction::StopMotion],
            Some(desired) => {
                let current = match noted_i32(world_model.notes@, "camera_yaw_md:"@) {
                    Some(c) => c,
                    None => desired,
                };
                let delta = desired - current;
                let magnitude = if delta >= 0 { delta } else { -delta };
                let forward = SemanticInputAction::MoveForward { duration_ms: config.move_step_ms };
                if magnitude > tolerance_bits(config.heading_tolerance_milli_degrees) {
                    seq![
                        SemanticInputAction::Turn {
                            delta_yaw_milli_degrees: clamp_turn(delta, config.turn_step_milli_degrees),
                        },
                        forward,
                    ]
                } else {
                    seq![forward]
                }
            },
        }
    } else {
        seq![action]
    }
}

/// Expands a walk or an approach into a turn and a forward move; `desired_yaw` is the
/// heading from the player toward the target's position, absent when the target has none.
pub fn expand_navigation_action(
    action: &SemanticInputAction,
    desired_yaw: Option<i32>,
    world_model: &WorldModelSummary,
    config: &NavigationControllerConfig,
) -> (r: Vec<SemanticInputAction>)
    requires
        config.turn_step_milli_degrees >= 0,
    ensures
        r@ == expanded_actions(*action, desired_yaw, *world_model, *config),
{
    let mut out: Vec<SemanticInputAction> = Vec::new();
    match action {
        SemanticInputAction::WalkTo { .. } | SemanticInputAction::Approach { .. } => {
            let desired = match desired_yaw {
                Some(d) => d,
                None => {
                    out.push(SemanticInputAction::StopMotion);
                    proof {
                        assert(out@ =~= seq![SemanticInputAction::StopMotion]);
                    }
                    return out;
                },
            };
            let current = match navigation_camera_yaw(world_model) {
                Some(c) => c,
                None => desired,
            };
            let delta: i64 = desired as i64 - current as i64;
            let magnitude: i64 = if delta >= 0 { delta } else { -delta };
            let tolerance: i64 = if config.heading_tolerance_milli_degrees >= 0 {
                config.heading_tolerance_milli_degrees as i64
            } else {
                config.heading_tolerance_milli_degrees as i64 + 0x1_0000_0000
            };
            let step = config.turn_step_milli_degrees;
            if magnitude > tolerance {
                let turn: i32 = if delta > step as i64 {
                    step
                } else if delta < -(step as i64) {
                    -step
                } else {
                    delta as i32
                };
                out.push(SemanticInputAction::Turn { delta_yaw_milli_degrees: turn });
            }
            out.push(SemanticInputAction::MoveForward { duration_ms: config.move_step_ms });
            proof {
                let forward = SemanticInputAction::MoveForward { duration_ms: config.move_step_ms };
                if magnitude > tolerance {
                    assert(out@ =~= seq![
                        SemanticInputAction::Turn {
                            delta_yaw_milli_degrees: clamp_turn(delta as int, config.turn_step_milli_degrees),
                        },
                        forward,
                    ]);
                } else {
                    assert(out@ =~= seq![forward]);
                }
            }
            out
        },
        _ => {
            out.push(action.clone());
            proof {
                assert(out@ =~= seq![*action]);
            }
            out
        },
    }
}

// ----------------------------------------------------------------------------------------------
// Input outcomes.
/// Reads an input outcome: a rejection is an error carrying the detail; any other status
/// passes the detail on.
pub fn input_outcome_result(status: AdvancedCommandAckStatus, detail: String) -> (r: WinrResult<String>)
    ensures
        status == AdvancedCommandAckStatus::Rejected ==> (r matches Err(e) && e is Unsupported
            && e->Unsupported_message@ == detail@),
        status != AdvancedCommandAckStatus::Rejected ==> (r matches Ok(d) && d@ == detail@),
{
    if status == AdvancedCommandAckStatus::Rejected {
        Err(WinrError::Unsupported { message: detail })
    } else {
        Ok(detail)
    }
}

} // verus!
