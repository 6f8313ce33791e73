//! Which intersection a ray reports: the crossing of the box's slabs that
//! counts, and the nearer of the box and the ground plane.

use vstd::prelude::*;

verus! {

/// The primitive a ray hit.
#[derive(Clone, Copy, Debug, PartialEq, Eq, Structural)]
pub enum HitKind {
    Cube,
    Plane,
}

/// Which end of the interval in which a ray is inside the box is reported.
#[derive(Clone, Copy, Debug, PartialEq, Eq, Structural)]
pub enum Crossing {
    /// The near end: the ray starts outside and enters the box there.
    Entry,
    /// The far end: the ray starts inside and leaves the box there.
    Exit,
}

/// The crossing a slab test reports for the interval `[t0, t1]` left
/// after all three axes, given `overlap` (`t1 >= t0`), `far_ahead`
/// (`t1 > 0`) and `near_ahead` (`t0 > 0`): none unless the interval is
/// non-empty and ends ahead of the origin; then its near end if that
/// lies ahead too, else its far end.
pub open spec fn slab_crossing_of(overlap: bool, far_ahead: bool, near_ahead: bool) -> Option<
    Crossing,
> {
    if !(overlap && far_ahead) {
        None
    } else if near_ahead {
        Some(Crossing::Entry)
    } else {
        Some(Crossing::Exit)
    }
}

/// Decides which end of the slab interval a ray/box test reports.
pub fn slab_crossing(overlap: bool, far_ahead: bool, near_ahead: bool) -> (found: Option<Crossing>)
    ensures
        found == slab_crossing_of(overlap, far_ahead, near_ahead),
{
    if overlap && far_ahead {
        Some(if near_ahead { Crossing::Entry } else { Crossing::Exit })
    } else {
        None
    }
}

/// A ray whose interval inside the box is non-empty and ends ahead of
/// the origin always reports a crossing: the entry where the origin is
/// outside the box, so that the near end lies ahead too, and the exit
/// where it is inside.
pub proof fn lemma_crossing_of_pierced_box(near_ahead: bool)
    ensures
        near_ahead ==> slab_crossing_of(true, true, near_ahead) == Some(Crossing::Entry),
        !near_ahead ==> slab_crossing_of(true, true, near_ahead) == Some(Crossing::Exit),
{
}

/// The nearest hit among the box and the ground plane. The plane counts
/// only where it is enabled and hit, and it wins only against no box
/// hit or with a strictly smaller ray parameter (`plane_nearer`).
pub open spec fn nearest_hit_of(
    cube_hit: bool,
    plane_enabled: bool,
    plane_hit: bool,
    plane_nearer: bool,
) -> Option<HitKind> {
    if plane_enabled && plane_hit && (!cube_hit || plane_nearer) {
        Some(HitKind::Plane)
    } else if cube_hit {
        Some(HitKind::Cube)
    } else {
        None
    }
}

/// Selects the nearest hit of a ray among the two primitives.
pub fn nearest_hit(cube_hit: bool, plane_enabled: bool, plane_hit: bool, plane_nearer: bool) -> (best: Option<HitKind>)
    ensures
        best == nearest_hit_of(cube_hit, plane_enabled, plane_hit, plane_nearer),
{
    let mut best: Option<HitKind> = None;
    if cube_hit {
        best = Some(HitKind::Cube);
    }
    if plane_enabled && plane_hit {
        let wins = match best {
            Some(_) => plane_nearer,
            None => true,
        };
        if wins {
            best = Some(HitKind::Plane);
        }
    }
    best
}

/// A ray that hits something always reports a hit, and a disabled or
/// missed plane is never reported.
pub proof fn lemma_nearest_hit_sound(
    cube_hit: bool,
    plane_enabled: bool,
    plane_hit: bool,
    plane_nearer: bool,
)
    ensures
        nearest_hit_of(cube_hit, plane_enabled, plane_hit, plane_nearer) is None <==> !cube_hit
            && !(plane_enabled && plane_hit),
        nearest_hit_of(cube_hit, plane_enabled, plane_hit, plane_nearer) == Some(HitKind::Plane)
            ==> plane_enabled && plane_hit,
        nearest_hit_of(cube_hit, plane_enabled, plane_hit, plane_nearer) == Some(HitKind::Cube)
            ==> cube_hit,
{
}

} // verus!
