//! Per-pixel decisions of the shading pipeline that need no arithmetic
//! on colours: checkerboard parity, hard shadows, the source of the
//! base colour and the final 8-bit quantisation.

use vstd::prelude::*;
use crate::hit::HitKind;

verus! {

/// The two flat shades of the checkerboard ground plane.
#[derive(Clone, Copy, Debug, PartialEq, Eq, Structural)]
pub enum CheckerShade {
    Dark,
    Light,
}

/// Where the base colour of a hit comes from.
#[derive(Clone, Copy, Debug, PartialEq, Eq, Structural)]
pub enum BaseColor {
    /// The flat albedo stored with the hit.
    Albedo,
    /// The bound texture, sampled at the hit's face coordinates.
    Texture,
}

/// Shade of the unit cell `(cx, cz)`: dark where `cx + cz` is even.
pub open spec fn checker_shade_of(cx: int, cz: int) -> CheckerShade {
    if (cx + cz) % 2 == 0 {
        CheckerShade::Dark
    } else {
        CheckerShade::Light
    }
}

/// Shade of the unit cell of the ground plane that holds a point whose
/// x and z round down to `cx` and `cz`.
pub fn checker_shade(cx: i32, cz: i32) -> (shade: CheckerShade)
    ensures
        shade == checker_shade_of(cx as int, cz as int),
{
    let sum: i64 = cx as i64 + cz as i64;
    if sum % 2 == 0 {
        CheckerShade::Dark
    } else {
        CheckerShade::Light
    }
}

/// Cells that share an edge have different shades.
pub proof fn lemma_checker_alternates(cx: int, cz: int)
    ensures
        checker_shade_of(cx + 1, cz) != checker_shade_of(cx, cz),
        checker_shade_of(cx, cz + 1) != checker_shade_of(cx, cz),
        checker_shade_of(cx - 1, cz) != checker_shade_of(cx, cz),
        checker_shade_of(cx, cz - 1) != checker_shade_of(cx, cz),
{
}

/// Two cells have the same shade exactly where the parities of their
/// coordinate sums agree; so cells that touch at a corner match.
pub proof fn lemma_checker_by_parity(ax: int, az: int, bx: int, bz: int)
    ensures
        checker_shade_of(ax, az) == checker_shade_of(bx, bz) <==> ((ax + az) - (bx + bz)) % 2 == 0,
        checker_shade_of(ax + 1, az + 1) == checker_shade_of(ax, az),
{
}

/// Whether the light is blocked at a hit point. `cube_blocks` and
/// `plane_blocks` say that the shadow ray meets the primitive strictly
/// inside its interval. The plane is asked only where it is enabled,
/// and its hit counts only where it lies no higher than the light
/// (`plane_hit_below_light`).
pub open spec fn occluded_of(
    cube_blocks: bool,
    plane_enabled: bool,
    plane_blocks: bool,
    plane_hit_below_light: bool,
) -> bool {
    cube_blocks || (plane_enabled && plane_blocks && plane_hit_below_light)
}

/// Decides the hard shadow at a hit point.
pub fn occluded(
    cube_blocks: bool,
    plane_enabled: bool,
    plane_blocks: bool,
    plane_hit_below_light: bool,
) -> (dark: bool)
    ensures
        dark == occluded_of(cube_blocks, plane_enabled, plane_blocks, plane_hit_below_light),
{
    let mut dark = false;
    if cube_blocks {
        dark = true;
    }
    if plane_enabled && !dark {
        if plane_blocks && plane_hit_below_light {
            dark = true;
        }
    }
    dark
}

/// The base colour is the texture sample exactly for a box hit with a
/// texture bound, and the hit's albedo otherwise.
pub open spec fn base_color_of(kind: HitKind, textured: bool) -> BaseColor {
    if textured && kind is Cube {
        BaseColor::Texture
    } else {
        BaseColor::Albedo
    }
}

/// Picks the source of a hit's base colour.
pub fn base_color(kind: HitKind, textured: bool) -> (source: BaseColor)
    ensures
        source == base_color_of(kind, textured),
{
    match kind {
        HitKind::Cube => if textured { BaseColor::Texture } else { BaseColor::Albedo },
        HitKind::Plane => BaseColor::Albedo,
    }
}

/// A channel scaled to 0..255 and rounded, clamped into a byte.
pub open spec fn quantize_of(rounded: int) -> int {
    if rounded < 0 {
        0
    } else if rounded > 255 {
        255
    } else {
        rounded
    }
}

/// Clamps a rounded channel value to the 8-bit range.
pub fn quantize(rounded: i64) -> (byte: u8)
    ensures
        byte == quantize_of(rounded as int),
{
    if rounded <= 0 {
        0
    } else if rounded >= 255 {
        255
    } else {
        rounded as u8
    }
}

/// Quantising keeps the order of channel values and leaves bytes alone.
pub proof fn lemma_quantize_monotone(a: int, b: int)
    requires
        a <= b,
    ensures
        quantize_of(a) <= quantize_of(b),
        0 <= quantize_of(a) <= 255,
        0 <= a <= 255 ==> quantize_of(a) == a,
{
}

} // verus!
