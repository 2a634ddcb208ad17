//! The lifecycle of world-model entities across observation frames: a sighting refreshes or
//! starts a track, a frame that misses a track ages it until it is lost and then dropped, and
//! every change is reported in the frame's delta.
use vstd::prelude::*;

use crate::perception::{TrackedEntityStatus, WorldModelDelta};
use crate::text::str_eq;

verus! {

/// An entity tracked across frames, with the data the caller keeps for it.
pub struct EntityTrack<T> {
    pub id: String,
    pub data: T,
    pub priority_score: u32,
    pub first_seen_frame_id: u64,
    pub last_seen_frame_id: u64,
    pub missed_frames: u32,
    pub status: TrackedEntityStatus,
}

/// After how many missed frames in a row a track is lost, and after how many it is dropped.
#[derive(Debug, Clone, Copy, PartialEq, Eq, Structural)]
pub struct TrackerLimits {
    pub lost_after_missed_frames: u32,
    pub drop_after_missed_frames: u32,
}

impl Default for TrackerLimits {
    /// Lost after two missed frames, dropped after four.
    fn default() -> (r: Self)
        ensures
            r.lost_after_missed_frames == 2,
            r.drop_after_missed_frames == 4,
    {
        TrackerLimits { lost_after_missed_frames: 2, drop_after_missed_frames: 4 }
    }
}

/// No two tracks share an id.
pub open spec fn ids_unique<T>(tracks: Seq<EntityTrack<T>>) -> bool {
    forall|i: int, j: int|
        0 <= i < tracks.len() && 0 <= j < tracks.len() && i != j ==> #[trigger] tracks[i].id@
            != #[trigger] tracks[j].id@
}

/// Some track has the id.
pub open spec fn has_id<T>(tracks: Seq<EntityTrack<T>>, id: Seq<char>) -> bool {
    exists|i: int| 0 <= i < tracks.len() && #[trigger] tracks[i].id@ == id
}

/// `i` is the first track with the id.
pub open spec fn first_with_id<T>(tracks: Seq<EntityTrack<T>>, id: Seq<char>, i: int) -> bool {
    &&& 0 <= i < tracks.len()
    &&& tracks[i].id@ == id
    &&& forall|j: int| 0 <= j < i ==> #[trigger] tracks[j].id@ != id
}

/// The first track with the id, if any.
pub fn find_track<T>(tracks: &Vec<EntityTrack<T>>, id: &str) -> (r: Option<usize>)
    ensures
        match r {
            Some(i) => first_with_id(tracks@, id@, i as int),
            None => !has_id(tracks@, id@),
        },
{
    let mut i: usize = 0;
    while i < tracks.len()
        invariant
            i <= tracks.len(),
            forall|j: int| 0 <= j < i ==> #[trigger] tracks@[j].id@ != id@,
        decreases tracks.len() - i,
    {
        if str_eq(tracks[i].id.as_str(), id) {
            return Some(i);
        }
        i = i + 1;
    }
    None
}

/// A track refreshed by a sighting: new data and priority, seen in this frame, no missed
/// frames, and reacquired if it had been lost.
pub open spec fn sighted<T>(old: EntityTrack<T>, data: T, priority_score: u32, frame_id: u64) -> EntityTrack<T> {
    EntityTrack {
        id: old.id,
        data,
        priority_score,
        first_seen_frame_id: old.first_seen_frame_id,
        last_seen_frame_id: frame_id,
        missed_frames: 0,
        status: if old.status == TrackedEntityStatus::Lost {
            TrackedEntityStatus::Reacquired
        } else {
            TrackedEntityStatus::Active
        },
    }
}

/// A new track, first and last seen in this frame.
pub open spec fn started<T>(id: String, data: T, priority_score: u32, frame_id: u64) -> EntityTrack<T> {
    EntityTrack {
        id,
        data,
        priority_score,
        first_seen_frame_id: frame_id,
        last_seen_frame_id: frame_id,
        missed_frames: 0,
        status: TrackedEntityStatus::Active,
    }
}

/// Records one entity of a frame: the first track with its id is refreshed (reported as
/// reacquired if it was lost, and as reprioritized if its priority changed), or else a new
/// track is appended (reported as new). Unique ids stay unique.
pub fn observe_entity<T>(
    tracks: &mut Vec<EntityTrack<T>>,
    id: String,
    data: T,
    priority_score: u32,
    frame_id: u64,
    delta: &mut WorldModelDelta,
)
    ensures
        forall|i: int| #[trigger] first_with_id(old(tracks)@, id@, i) ==> {
            &&& final(tracks)@ == old(tracks)@.update(i, sighted(old(tracks)@[i], data, priority_score, frame_id))
            &&& final(delta).new_entities@ == old(delta).new_entities@
            &&& final(delta).reacquired_entities@ == if old(tracks)@[i].status == TrackedEntityStatus::Lost {
                old(delta).reacquired_entities@.push(id)
            } else {
                old(delta).reacquired_entities@
            }
            &&& final(delta).reprioritized_entities@ == if old(tracks)@[i].priority_score != priority_score {
                old(delta).reprioritized_entities@.push(id)
            } else {
                old(delta).reprioritized_entities@
            }
        },
        !has_id(old(tracks)@, id@) ==> {
            &&& final(tracks)@ == old(tracks)@.push(started(id, data, priority_score, frame_id))
            &&& final(delta).new_entities@ == old(delta).new_entities@.push(id)
            &&& final(delta).reacquired_entities@ == old(delta).reacquired_entities@
            &&& final(delta).reprioritized_entities@ == old(delta).reprioritized_entities@
        },
        final(delta).lost_entities@ == old(delta).lost_entities@,
        ids_unique(old(tracks)@) ==> ids_unique(final(tracks)@),
{
    match find_track(tracks, id.as_str()) {
        Some(i) => {
            let previous_status = tracks[i].status;
            let previous_priority = tracks[i].priority_score;
            let first_seen = tracks[i].first_seen_frame_id;
            let kept_id = tracks[i].id.clone();
            let ghost before = tracks@;
            let refreshed = EntityTrack {
                id: kept_id,
                data,
                priority_score,
                first_seen_frame_id: first_seen,
                last_seen_frame_id: frame_id,
                missed_frames: 0,
                status: if previous_status == TrackedEntityStatus::Lost {
                    TrackedEntityStatus::Reacquired
                } else {
                    TrackedEntityStatus::Active
                },
            };
            tracks.set(i, refreshed);
            if previous_status == TrackedEntityStatus::Lost {
                delta.reacquired_entities.push(id.clone());
            }
            if previous_priority != priority_score {
                delta.reprioritized_entities.push(id);
            }
            proof {
                assert forall|j: int| #[trigger] first_with_id(before, id@, j) implies j == i as int by {
                    if j < i as int {
                        assert(before[j].id@ != id@);
                    } else if j > i as int {
                        assert(before[i as int].id@ != id@);
                    }
                }
                assert forall|a: int, b: int|
                    ids_unique(before) && 0 <= a < tracks@.len() && 0 <= b < tracks@.len() && a != b implies
                    #[trigger] tracks@[a].id@ != #[trigger] tracks@[b].id@ by {
                    assert(before[a].id@ != before[b].id@);
                }
            }
        },
        None => {
            let ghost before = tracks@;
            let new_id = id.clone();
            tracks.push(EntityTrack {
                id: new_id,
                data,
                priority_score,
                first_seen_frame_id: frame_id,
                last_seen_frame_id: frame_id,
                missed_frames: 0,
                status: TrackedEntityStatus::Active,
            });
            delta.new_entities.push(id);
            proof {
                assert forall|j: int| #[trigger] first_with_id(before, id@, j) implies false by {
                    assert(before[j].id@ == id@);
                }
                assert forall|a: int, b: int|
                    ids_unique(before) && 0 <= a < tracks@.len() && 0 <= b < tracks@.len() && a != b implies
                    #[trigger] tracks@[a].id@ != #[trigger] tracks@[b].id@ by {
                    if a < before.len() && b < before.len() {
                        assert(before[a].id@ != before[b].id@);
                    } else if a < before.len() {
                        assert(before[a].id@ != id@);
                    } else {
                        assert(before[b].id@ != id@);
                    }
                }
            }
        },
    }
}

/// The id is among the ids seen in the frame.
pub open spec fn id_seen(seen: Seq<String>, id: Seq<char>) -> bool {
    exists|k: int| 0 <= k < seen.len() && #[trigger] seen[k]@ == id
}

/// A missed track turns lost in this frame: it reaches the limit and was not lost yet.
pub open spec fn turns_lost<T>(t: EntityTrack<T>, seen: Seq<String>, limits: TrackerLimits) -> bool {
    &&& !id_seen(seen, t.id@)
    &&& t.missed_frames + 1 >= limits.lost_after_missed_frames
    &&& t.status != TrackedEntityStatus::Lost
}

/// A track after a frame: unchanged if seen, else one more missed frame, and lost once it
/// reaches the limit.
pub open spec fn aged<T>(t: EntityTrack<T>, seen: Seq<String>, limits: TrackerLimits) -> EntityTrack<T> {
    if id_seen(seen, t.id@) {
        t
    } else {
        EntityTrack {
            id: t.id,
            data: t.data,
            priority_score: t.priority_score,
            first_seen_frame_id: t.first_seen_frame_id,
            last_seen_frame_id: t.last_seen_frame_id,
            missed_frames: (t.missed_frames + 1) as u32,
            status: if turns_lost(t, seen, limits) {
                TrackedEntityStatus::Lost
            } else {
                t.status
            },
        }
    }
}

/// A track is kept while it has missed fewer frames than the drop limit.
pub open spec fn kept<T>(t: EntityTrack<T>, limits: TrackerLimits) -> bool {
    t.missed_frames < limits.drop_after_missed_frames
}

/// The tracks after a frame, in order: each aged, those past the drop limit left out.
pub open spec fn swept<T>(tracks: Seq<EntityTrack<T>>, seen: Seq<String>, limits: TrackerLimits) -> Seq<EntityTrack<T>>
    decreases tracks.len(),
{
    if tracks.len() == 0 {
        tracks
    } else {
        let rest = swept(tracks.drop_last(), seen, limits);
        let t = aged(tracks.last(), seen, limits);
        if kept(t, limits) {
            rest.push(t)
        } else {
            rest
        }
    }
}

/// The ids of the tracks that turn lost in a frame, in track order.
pub open spec fn lost_ids<T>(tracks: Seq<EntityTrack<T>>, seen: Seq<String>, limits: TrackerLimits) -> Seq<String>
    decreases tracks.len(),
{
    if tracks.len() == 0 {
        Seq::empty()
    } else {
        let rest = lost_ids(tracks.drop_last(), seen, limits);
        if turns_lost(tracks.last(), seen, limits) {
            rest.push(tracks.last().id)
        } else {
            rest
        }
    }
}

/// Whether the id is among the ids seen.
fn seen_contains(seen: &Vec<String>, id: &String) -> (r: bool)
    ensures
        r == id_seen(seen@, id@),
{
    let mut k: usize = 0;
    while k < seen.len()
        invariant
            k <= seen.len(),
            forall|j: int| 0 <= j < k ==> #[trigger] seen@[j]@ != id@,
        decreases seen.len() - k,
    {
        if str_eq(seen[k].as_str(), id.as_str()) {
            return true;
        }
        k = k + 1;
    }
    false
}

/// Every id of the swept tracks is the id of a track before the sweep.
proof fn lemma_swept_ids<T>(tracks: Seq<EntityTrack<T>>, seen: Seq<String>, limits: TrackerLimits, j: int)
    requires
        0 <= j < swept(tracks, seen, limits).len(),
    ensures
        has_id(tracks, swept(tracks, seen, limits)[j].id@),
    decreases tracks.len(),
{
    let rest = swept(tracks.drop_last(), seen, limits);
    if j < rest.len() {
        lemma_swept_ids(tracks.drop_last(), seen, limits, j);
        let k = choose|k: int| 0 <= k < tracks.drop_last().len() && #[trigger] tracks.drop_last()[k].id@ == rest[j].id@;
        assert(tracks[k].id@ == swept(tracks, seen, limits)[j].id@);
    } else {
        assert(tracks[tracks.len() - 1].id@ == swept(tracks, seen, limits)[j].id@);
    }
}

/// A sweep keeps ids unique.
pub proof fn lemma_swept_unique<T>(tracks: Seq<EntityTrack<T>>, seen: Seq<String>, limits: TrackerLimits)
    requires
        ids_unique(tracks),
    ensures
        ids_unique(swept(tracks, seen, limits)),
    decreases tracks.len(),
{
    if tracks.len() > 0 {
        let prefix = tracks.drop_last();
        assert forall|a: int, b: int| 0 <= a < prefix.len() && 0 <= b < prefix.len() && a != b implies
            #[trigger] prefix[a].id@ != #[trigger] prefix[b].id@ by {
            assert(tracks[a].id@ != tracks[b].id@);
        }
        lemma_swept_unique(prefix, seen, limits);
        let rest = swept(prefix, seen, limits);
        let last = tracks.last();
        assert forall|j: int| 0 <= j < rest.len() implies #[trigger] rest[j].id@ != last.id@ by {
            lemma_swept_ids(prefix, seen, limits, j);
            let k = choose|k: int| 0 <= k < prefix.len() && #[trigger] prefix[k].id@ == rest[j].id@;
            assert(tracks[k].id@ != tracks[tracks.len() - 1].id@);
        }
        let s = swept(tracks, seen, limits);
        assert forall|a: int, b: int| 0 <= a < s.len() && 0 <= b < s.len() && a != b implies
            #[trigger] s[a].id@ != #[trigger] s[b].id@ by {
            if a < rest.len() && b < rest.len() {
                assert(rest[a].id@ != rest[b].id@);
            } else if a < rest.len() {
                assert(rest[a].id@ != last.id@);
            } else {
                assert(rest[b].id@ != last.id@);
            }
        }
    }
}

/// Every swept track is within the drop limit.
pub proof fn lemma_swept_within_limit<T>(tracks: Seq<EntityTrack<T>>, seen: Seq<String>, limits: TrackerLimits, j: int)
    requires
        0 <= j < swept(tracks, seen, limits).len(),
    ensures
        kept(swept(tracks, seen, limits)[j], limits),
    decreases tracks.len(),
{
    if j < swept(tracks.drop_last(), seen, limits).len() {
        lemma_swept_within_limit(tracks.drop_last(), seen, limits, j);
    }
}

/// Ends a frame: every track whose id was not seen misses one more frame and turns lost at
/// the limit (reported as lost), and tracks past the drop limit are left out. Unique ids stay
/// unique, and every track left is within the drop limit.
pub fn sweep_unseen<T>(
    tracks: Vec<EntityTrack<T>>,
    seen: &Vec<String>,
    limits: TrackerLimits,
    delta: &mut WorldModelDelta,
) -> (r: Vec<EntityTrack<T>>)
    requires
        forall|i: int| 0 <= i < tracks@.len() ==> #[trigger] tracks@[i].missed_frames < u32::MAX,
    ensures
        r@ == swept(tracks@, seen@, limits),
        final(delta).lost_entities@ == old(delta).lost_entities@ + lost_ids(tracks@, seen@, limits),
        final(delta).new_entities@ == old(delta).new_entities@,
        final(delta).reacquired_entities@ == old(delta).reacquired_entities@,
        final(delta).reprioritized_entities@ == old(delta).reprioritized_entities@,
        forall|j: int| 0 <= j < r@.len() ==> #[trigger] r@[j].missed_frames < limits.drop_after_missed_frames,
        ids_unique(tracks@) ==> ids_unique(r@),
{
    let ghost all = tracks@;
    let mut rest = tracks;
    let mut out: Vec<EntityTrack<T>> = Vec::new();
    let ghost mut k: int = 0;
    while rest.len() > 0
        invariant
            0 <= k <= all.len(),
            rest@ == all.subrange(k, all.len() as int),
            out@ == swept(all.subrange(0, k), seen@, limits),
            delta.lost_entities@ == old(delta).lost_entities@ + lost_ids(all.subrange(0, k), seen@, limits),
            delta.new_entities@ == old(delta).new_entities@,
            delta.reacquired_entities@ == old(delta).reacquired_entities@,
            delta.reprioritized_entities@ == old(delta).reprioritized_entities@,
            forall|i: int| 0 <= i < all.len() ==> #[trigger] all[i].missed_frames < u32::MAX,
        decreases rest.len(),
    {
        let t = rest.remove(0);
        proof {
            assert(t == all[k]);
            assert(all.subrange(0, k + 1).drop_last() =~= all.subrange(0, k));
            assert(all.subrange(0, k + 1).last() == all[k]);
        }
        let was_seen = seen_contains(seen, &t.id);
        let next = if was_seen {
            t
        } else {
            let missed = t.missed_frames + 1;
            let lost_now = missed >= limits.lost_after_missed_frames && t.status != TrackedEntityStatus::Lost;
            if lost_now {
                delta.lost_entities.push(t.id.clone());
            }
            EntityTrack {
                id: t.id,
                data: t.data,
                priority_score: t.priority_score,
                first_seen_frame_id: t.first_seen_frame_id,
                last_seen_frame_id: t.last_seen_frame_id,
                missed_frames: missed,
                status: if lost_now {
                    TrackedEntityStatus::Lost
                } else {
                    t.status
                },
            }
        };
        proof {
            assert(next == aged(all[k], seen@, limits));
        }
        if next.missed_frames < limits.drop_after_missed_frames {
            out.push(next);
        }
        proof {
            assert(rest@ =~= all.subrange(k + 1, all.len() as int));
            k = k + 1;
        }
    }
    proof {
        assert(all.subrange(0, k) =~= all);
        assert forall|j: int| 0 <= j < out@.len() implies #[trigger] out@[j].missed_frames < limits.drop_after_missed_frames by {
            lemma_swept_within_limit(all, seen@, limits, j);
        }
        if ids_unique(all) {
            lemma_swept_unique(all, seen@, limits);
        }
    }
    out
}

/// A track seen in a frame with no missed frames survives the frame's sweep unchanged when the
/// drop limit is above zero.
pub proof fn lemma_seen_track_survives<T>(
    tracks: Seq<EntityTrack<T>>,
    seen: Seq<String>,
    limits: TrackerLimits,
    i: int,
)
    requires
        0 <= i < tracks.len(),
        id_seen(seen, tracks[i].id@),
        tracks[i].missed_frames == 0,
        limits.drop_after_missed_frames > 0,
    ensures
        swept(tracks, seen, limits).contains(tracks[i]),
    decreases tracks.len(),
{
    if i < tracks.len() - 1 {
        lemma_seen_track_survives(tracks.drop_last(), seen, limits, i);
        let rest = swept(tracks.drop_last(), seen, limits);
        let j = choose|j: int| 0 <= j < rest.len() && rest[j] == tracks[i];
        let s = swept(tracks, seen, limits);
        assert(s[j] == tracks[i]);
    } else {
        let s = swept(tracks, seen, limits);
        assert(s[s.len() - 1] == tracks[i]);
    }
}

} // verus!
