//! The target and the arena rules around it.
//!
//! At most one target is alive at a time. A spawn replaces whatever
//! target existed; a successful click destroys the target and yields its
//! reaction time.

use vstd::prelude::*;
use crate::geometry::{in_hit_box, in_spawn_area, spawn_bound, Viewport, WorldPos};
use crate::geometry::hit_box_contains;
use crate::random::Sampler;

verus! {

/// The width and height of every target's square hit-box, in world units.
pub const TARGET_SIZE: u32 = 50;

/// The single clickable entity awaiting a hit.
#[derive(Debug, Clone, Copy, PartialEq, Eq, Structural)]
pub struct Target {
    /// When this target appeared, on the host's monotonic clock
    /// (microseconds).
    pub spawned_at_micros: u64,
    /// The centre of the target's hit-box, in world units.
    pub pos: WorldPos,
    /// The width and height of the square hit-box, in world units.
    pub size_units: u32,
}

/// What a successful click yields: the destroyed target and the time the
/// player took to hit it.
#[derive(Debug, Clone, Copy, PartialEq, Eq, Structural)]
pub struct HitResult {
    pub target: Target,
    /// Time between the target's spawn and the hit, in microseconds.
    pub reaction_micros: u64,
}

/// Whether a click at `p` hits `target`: inclusive containment in the
/// target's hit-box.
pub open spec fn click_hits(p: WorldPos, target: Target) -> bool {
    in_hit_box(p, target.pos, target.size_units as int)
}

/// A freshly spawned target for this viewport and instant: stamped with
/// `now_micros`, of the standard size, centred somewhere in the spawn
/// area (so its hit-box stays on screen whenever the play area is large
/// enough for it).
pub open spec fn fresh_target(t: Target, vp: Viewport, now_micros: u64) -> bool {
    &&& t.spawned_at_micros == now_micros
    &&& t.size_units == TARGET_SIZE
    &&& in_spawn_area(t.pos, vp, TARGET_SIZE as int)
}

/// One coordinate of a spawn position: uniform over the spawn interval
/// of this axis, or the centre when the play area is too small for the
/// target (the degenerate fallback never panics).
fn sample_axis(sampler: &mut Sampler, extent_px: u32) -> (c: i64)
    ensures
        -spawn_bound(extent_px as int, TARGET_SIZE as int) <= c
            <= spawn_bound(extent_px as int, TARGET_SIZE as int),
{
    let half_extent: i64 = (extent_px / 2) as i64;
    let half_size: i64 = (TARGET_SIZE / 2) as i64;
    let bound: i64 = half_extent - half_size;
    if bound <= 0 {
        0
    } else {
        sampler.sample_inclusive(-bound, bound)
    }
}

/// Build the target a spawn request produces: position sampled
/// independently in x and y from the viewport's spawn area, spawn time
/// stamped with the current instant, size fixed at `TARGET_SIZE`.
pub fn spawn_target(sampler: &mut Sampler, vp: Viewport, now_micros: u64) -> (t: Target)
    ensures
        fresh_target(t, vp, now_micros),
{
    let x = sample_axis(sampler, vp.width_px);
    let y = sample_axis(sampler, vp.height_px);
    Target { spawned_at_micros: now_micros, pos: WorldPos { x, y }, size_units: TARGET_SIZE }
}

/// Hit-test a click against the live target, if any. Returns the hit
/// result and empties the slot exactly when a target exists and the
/// click lands inside its hit-box; otherwise leaves the slot untouched.
pub fn try_hit(slot: &mut Option<Target>, click: WorldPos, now_micros: u64) -> (r: Option<
    HitResult,
>)
    requires
        (*old(slot)) matches Some(t) ==> t.spawned_at_micros <= now_micros,
    ensures
        r is Some <==> ((*old(slot)) matches Some(t) && click_hits(click, t)),
        r matches Some(hit) ==> {
            &&& (*old(slot)) matches Some(t) && hit.target == t
            &&& hit.reaction_micros == now_micros - hit.target.spawned_at_micros
            &&& *final(slot) is None
        },
        r is None ==> *final(slot) == *old(slot),
{
    match *slot {
        None => None,
        Some(t) => {
            if hit_box_contains(click, t.pos, t.size_units) {
                *slot = None;
                Some(HitResult { target: t, reaction_micros: now_micros - t.spawned_at_micros })
            } else {
                None
            }
        },
    }
}

} // verus!
