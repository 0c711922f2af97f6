use vstd::prelude::*;
use crate::scalar::{Scalar, INFINITY_KEY};
use crate::scene::{is_nearest, Intersection};

verus! {

/// A light reaches a point: the shadow ray from the point towards the light
/// meets no surface, or meets the nearest one only beyond the light. Where
/// the distance to the light is an undefined result, any surface shades.
pub open spec fn lit(shadow: Option<Intersection>, light_distance: Scalar) -> bool {
    match shadow {
        None => true,
        Some(hit) => light_distance.below(hit.distance),
    }
}

/// The encoding of the intensity that a point receives from a light: that of
/// the light where it reaches the point, else 0, the encoding of zero.
pub open spec fn intensity_received(shadow: Option<Intersection>, light_distance: Scalar, intensity: u32) -> u32 {
    if lit(shadow, light_distance) {
        intensity
    } else {
        0
    }
}

/// Whether a light at `light_distance` from a point reaches it, given the
/// nearest hit of the shadow ray.
pub fn in_light(shadow: Option<Intersection>, light_distance: Scalar) -> (r: bool)
    requires
        shadow matches Some(hit) ==> hit.wf(),
    ensures
        r == lit(shadow, light_distance),
{
    match shadow {
        None => true,
        Some(hit) => light_distance.less_than(&hit.distance),
    }
}

/// The intensity that a point receives from a light, as a 32-bit encoding
/// that is handed through unread.
pub fn light_intensity(shadow: Option<Intersection>, light_distance: Scalar, intensity: u32) -> (r: u32)
    requires
        shadow matches Some(hit) ==> hit.wf(),
    ensures
        r == intensity_received(shadow, light_distance, intensity),
{
    if in_light(shadow, light_distance) {
        intensity
    } else {
        0
    }
}

/// A surface between a point and a light, no farther than the light, keeps
/// the light from the point: the point receives zero intensity from it.
pub proof fn lemma_occluded_point_receives_nothing(hit: Intersection, light_distance: Scalar, intensity: u32)
    requires
        hit.distance.key() <= light_distance.key(),
    ensures
        !lit(Some(hit), light_distance),
        intensity_received(Some(hit), light_distance, intensity) == 0,
{
}

/// Any surface on the shadow ray that is no farther than the light shades
/// the point, whether or not it is the nearest one: the nearest hit is then
/// no farther than the light either.
pub proof fn lemma_any_occluder_shades(
    hits: Seq<Option<Scalar>>,
    found: Intersection,
    occluder: int,
    light_distance: Scalar,
    intensity: u32,
)
    requires
        is_nearest(hits, found),
        0 <= occluder < hits.len(),
        hits[occluder] matches Some(d) && d.key() <= light_distance.key(),
    ensures
        !lit(Some(found), light_distance),
        intensity_received(Some(found), light_distance, intensity) == 0,
{
    assert(found.distance.key() <= hits[occluder].unwrap().key());
}

/// A light at infinite distance is kept off by every surface that the shadow
/// ray meets.
pub proof fn lemma_distant_light_is_blocked_by_any_hit(hit: Intersection, light_distance: Scalar)
    requires
        hit.wf(),
        light_distance.key() == INFINITY_KEY,
    ensures
        !lit(Some(hit), light_distance),
{
}

/// With no surface on the shadow ray the light arrives undiminished.
pub proof fn lemma_open_path_is_lit(light_distance: Scalar, intensity: u32)
    ensures
        lit(None, light_distance),
        intensity_received(None, light_distance, intensity) == intensity,
{
}

} // verus!
