//! Supporting-surface selection. The embedding casts a ray or sweeps a shape
//! through the physics world and reports every candidate hit; this module
//! picks the nearest candidate that can actually support a body: a rigid
//! body rather than a sensor volume, not among the excluded entities, with a
//! finite time of impact inside the probe's range.

use vstd::prelude::*;

verus! {

/// One hit reported by the spatial query, described in plain values.
#[derive(Clone, Copy, PartialEq, Eq, Structural, Debug)]
pub struct CandidateHit {
    /// Identifier of the hit entity.
    pub entity: u64,
    /// Time of impact along the cast direction, in fixed-point ticks.
    pub toi: i64,
    /// Whether the reported time of impact was a finite number.
    pub toi_finite: bool,
    /// Whether the hit object is a dynamic or static rigid body.
    pub is_rigid_body: bool,
    /// Whether the hit object is a sensor/trigger volume.
    pub is_sensor: bool,
}

/// The selected supporting surface.
#[derive(Clone, Copy, PartialEq, Eq, Structural, Debug)]
pub struct SurfaceHit {
    pub entity: u64,
    pub toi: i64,
}

/// A candidate can support a body: rigid, not a sensor, finite, not
/// excluded, and within the probe's range.
pub open spec fn candidate_valid(c: CandidateHit, excluded: Seq<u64>, max_toi: int) -> bool {
    &&& c.is_rigid_body
    &&& !c.is_sensor
    &&& c.toi_finite
    &&& !excluded.contains(c.entity)
    &&& 0 <= c.toi <= max_toi
}

/// There is a valid candidate in the sequence.
pub open spec fn has_valid_candidate(s: Seq<CandidateHit>, excluded: Seq<u64>, max_toi: int) -> bool {
    exists|i: int| 0 <= i < s.len() && candidate_valid(#[trigger] s[i], excluded, max_toi)
}

/// Whether the entity is in the excluded list.
fn is_excluded(entity: u64, excluded: &Vec<u64>) -> (r: bool)
    ensures
        r == excluded@.contains(entity),
{
    let mut k: usize = 0;
    while k < excluded.len()
        invariant
            0 <= k <= excluded@.len(),
            forall|j: int| 0 <= j < k ==> excluded@[j] != entity,
        decreases excluded@.len() - k,
    {
        if excluded[k] == entity {
            assert(excluded@[k as int] == entity);
            return true;
        }
        k += 1;
    }
    false
}

/// Select the nearest valid supporting surface among the candidates, or
/// `None` when no candidate is valid — the expected "airborne" outcome.
/// When several valid candidates share the minimum time of impact, which of
/// them is returned is unspecified beyond being one of them.
pub fn select_hit(candidates: &Vec<CandidateHit>, excluded: &Vec<u64>, max_toi: i64) -> (r: Option<
    SurfaceHit,
>)
    ensures
        r is None <==> !has_valid_candidate(candidates@, excluded@, max_toi as int),
        r is Some ==> exists|i: int|
            0 <= i < candidates@.len() && candidate_valid(
                #[trigger] candidates@[i],
                excluded@,
                max_toi as int,
            ) && candidates@[i].entity == r->Some_0.entity && candidates@[i].toi == r->Some_0.toi,
        r is Some ==> forall|i: int|
            0 <= i < candidates@.len() && candidate_valid(
                #[trigger] candidates@[i],
                excluded@,
                max_toi as int,
            ) ==> r->Some_0.toi <= candidates@[i].toi,
{
    let mut best: Option<SurfaceHit> = None;
    let mut k: usize = 0;
    while k < candidates.len()
        invariant
            0 <= k <= candidates@.len(),
            best is None ==> forall|i: int|
                0 <= i < k ==> !candidate_valid(#[trigger] candidates@[i], excluded@, max_toi as int),
            best is Some ==> exists|i: int|
                0 <= i < k && candidate_valid(#[trigger] candidates@[i], excluded@, max_toi as int)
                    && candidates@[i].entity == best->Some_0.entity && candidates@[i].toi
                    == best->Some_0.toi,
            best is Some ==> forall|i: int|
                0 <= i < k && candidate_valid(#[trigger] candidates@[i], excluded@, max_toi as int)
                    ==> best->Some_0.toi <= candidates@[i].toi,
        decreases candidates@.len() - k,
    {
        let c = candidates[k];
        assert(c == candidates@[k as int]);
        let excl = is_excluded(c.entity, excluded);
        let valid = c.is_rigid_body && !c.is_sensor && c.toi_finite && !excl && 0 <= c.toi
            && c.toi <= max_toi;
        assert(valid == candidate_valid(candidates@[k as int], excluded@, max_toi as int));
        if valid {
            match best {
                Option::None => {
                    best = Option::Some(SurfaceHit { entity: c.entity, toi: c.toi });
                },
                Option::Some(b) => {
                    if c.toi < b.toi {
                        best = Option::Some(SurfaceHit { entity: c.entity, toi: c.toi });
                    }
                },
            }
        }
        k += 1;
    }
    best
}

} // verus!
