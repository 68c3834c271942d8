//! Coordinate spaces and hit-test geometry.
//!
//! World coordinates are integer units with the origin at the centre of
//! the play area, x growing rightwards and y growing upwards. Screen
//! coordinates are pixels with the origin at the bottom-left corner of
//! the viewport, as the host's cursor reports them.

use vstd::prelude::*;

verus! {

/// A point in world space: integer units, origin at the centre of the
/// play area.
#[derive(Debug, Clone, Copy, PartialEq, Eq, Structural)]
pub struct WorldPos {
    pub x: i64,
    pub y: i64,
}

/// A cursor position in screen space: pixels from the bottom-left corner
/// of the viewport.
#[derive(Debug, Clone, Copy, PartialEq, Eq, Structural)]
pub struct ScreenPos {
    pub x_px: u32,
    pub y_px: u32,
}

/// The current size of the viewport, in pixels.
#[derive(Debug, Clone, Copy, PartialEq, Eq, Structural)]
pub struct Viewport {
    pub width_px: u32,
    pub height_px: u32,
}

/// Whether `p` lies on one axis within the square hit-box of half-width
/// `size / 2` around `c`. Both boundary points count as inside.
pub open spec fn in_box_1d(p: int, c: int, size: int) -> bool {
    c - size / 2 <= p <= c + size / 2
}

/// Whether the point `p` lies within the axis-aligned square hit-box of
/// width and height `size` centred at `center`. Bounds are inclusive: a
/// click exactly on an edge or corner is a hit.
pub open spec fn in_hit_box(p: WorldPos, center: WorldPos, size: int) -> bool {
    &&& in_box_1d(p.x as int, center.x as int, size)
    &&& in_box_1d(p.y as int, center.y as int, size)
}

/// Executable hit test, equivalent to `in_hit_box`.
pub fn hit_box_contains(p: WorldPos, center: WorldPos, size: u32) -> (r: bool)
    ensures
        r == in_hit_box(p, center, size as int),
{
    let half: i128 = (size / 2) as i128;
    let px: i128 = p.x as i128;
    let py: i128 = p.y as i128;
    let cx: i128 = center.x as i128;
    let cy: i128 = center.y as i128;
    cx - half <= px && px <= cx + half && cy - half <= py && py <= cy + half
}

/// Convert a cursor position to world coordinates for a viewport whose
/// world origin sits at its centre: shift by half the viewport size.
/// This is the inverse of the host camera's orthographic projection.
pub fn screen_to_world(p: ScreenPos, vp: Viewport) -> (w: WorldPos)
    requires
        p.x_px <= vp.width_px,
        p.y_px <= vp.height_px,
    ensures
        w.x == p.x_px as int - vp.width_px as int / 2,
        w.y == p.y_px as int - vp.height_px as int / 2,
{
    WorldPos {
        x: p.x_px as i64 - (vp.width_px / 2) as i64,
        y: p.y_px as i64 - (vp.height_px / 2) as i64,
    }
}

/// How far from the centre of the play area a target's centre may be
/// placed on an axis of the given extent: the half-extent minus half the
/// target size, or zero when the play area is too small for the target
/// (the degenerate fallback clamps the target to the centre).
pub open spec fn spawn_bound(extent_px: int, size: int) -> int {
    let b = extent_px / 2 - size / 2;
    if b >= 0 {
        b
    } else {
        0
    }
}

/// Whether a target centre is within the sampling area for the given
/// viewport: at most `spawn_bound` from the centre on each axis.
pub open spec fn in_spawn_area(p: WorldPos, vp: Viewport, size: int) -> bool {
    &&& -spawn_bound(vp.width_px as int, size) <= p.x as int <= spawn_bound(
        vp.width_px as int,
        size,
    )
    &&& -spawn_bound(vp.height_px as int, size) <= p.y as int <= spawn_bound(
        vp.height_px as int,
        size,
    )
}

/// Hit-box inclusivity, inner half: every point whose coordinates sit
/// exactly on the hit-box boundary — any of the four corners or edges at
/// `center ± size / 2` — registers as inside.
pub proof fn lemma_hit_box_boundary_inside(p: WorldPos, center: WorldPos, size: int)
    requires
        size >= 0,
        p.x == center.x + size / 2 || p.x == center.x - size / 2,
        p.y == center.y + size / 2 || p.y == center.y - size / 2,
    ensures
        in_hit_box(p, center, size),
{
}

/// Hit-box inclusivity, outer half: a point any positive distance beyond
/// the boundary on the x axis is outside the hit-box, whatever its y.
pub proof fn lemma_hit_box_beyond_boundary_outside(p: WorldPos, center: WorldPos, size: int, eps: int)
    requires
        size >= 0,
        eps >= 1,
        p.x == center.x + size / 2 + eps || p.x == center.x - size / 2 - eps,
    ensures
        !in_hit_box(p, center, size),
{
}

/// A target centre chosen within the spawn area keeps its whole hit-box
/// inside the play area, whenever the play area is at least as large as
/// the target on that axis.
pub proof fn lemma_spawn_box_on_screen(c: int, extent_px: int, size: int)
    requires
        size >= 0,
        size / 2 <= extent_px / 2,
        -spawn_bound(extent_px, size) <= c <= spawn_bound(extent_px, size),
    ensures
        -(extent_px / 2) <= c - size / 2,
        c + size / 2 <= extent_px / 2,
{
}

} // verus!
