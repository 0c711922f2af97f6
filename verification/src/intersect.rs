use vstd::prelude::*;
use crate::scalar::Scalar;

verus! {

/// Key of one millionth, the least cosine between a plane's normal and a
/// ray's direction at which the plane still counts as facing the ray.
pub const FACING_THRESHOLD_KEY: i64 = 0x3EB0_C6F7_A0B5_ED8D;

/// A ray passes a sphere within its radius: the squared distance between the
/// sphere's centre and the ray's line does not exceed the squared radius.
/// Where either is an undefined result the ray is not turned away.
pub open spec fn within_radius(d2: Scalar, radius2: Scalar) -> bool {
    !radius2.below(d2)
}

/// The root that counts of the two at which a ray's line crosses a sphere:
/// none where both lie behind the ray's origin, else the lesser. Where only
/// the lesser is negative (the origin lies inside the sphere) it is taken
/// all the same. An undefined root is neither negative nor below the other.
pub open spec fn nearest_root(t0: Scalar, t1: Scalar) -> Option<Scalar> {
    if t0.is_negative() && t1.is_negative() {
        None
    } else if t0.below(t1) {
        Some(t0)
    } else {
        Some(t1)
    }
}

/// A plane faces a ray: the cosine between its normal and the ray's
/// direction is a number above the threshold. A plane is met from one side
/// only.
pub open spec fn faces(denom: Scalar) -> bool {
    denom.is_number() && denom.key() > FACING_THRESHOLD_KEY
}

/// The distance at which a ray meets a plane that faces it: a number that is
/// not negative. The plane is missed where it lies behind the ray's origin,
/// or where the distance is an undefined result.
pub open spec fn in_front(distance: Scalar) -> Option<Scalar> {
    if distance.is_number() && distance.key() >= 0 {
        Some(distance)
    } else {
        None
    }
}

/// Whether a ray's line comes within a sphere's radius.
pub fn sphere_reached(d2: Scalar, radius2: Scalar) -> (r: bool)
    ensures
        r == within_radius(d2, radius2),
{
    !radius2.less_than(&d2)
}

/// Chooses between the two roots of a ray and a sphere.
pub fn sphere_root(t0: Scalar, t1: Scalar) -> (r: Option<Scalar>)
    ensures
        r == nearest_root(t0, t1),
{
    if t0.negative() && t1.negative() {
        return None;
    }
    let distance = if t0.less_than(&t1) { t0 } else { t1 };
    Some(distance)
}

/// Whether a plane faces a ray, by the cosine between normal and direction.
pub fn plane_faces(denom: Scalar) -> (r: bool)
    ensures
        r == faces(denom),
{
    denom.defined() && denom.order_key() > FACING_THRESHOLD_KEY
}

/// Accepts the distance to a plane that faces the ray where it is not
/// negative.
pub fn plane_hit(distance: Scalar) -> (r: Option<Scalar>)
    ensures
        r == in_front(distance),
{
    if distance.defined() && distance.order_key() >= 0 {
        return Some(distance);
    }
    None
}

/// A ray that starts outside a sphere and runs towards it meets it at the
/// entry root: where neither root is negative and the first is not above the
/// second, the first is taken.
pub proof fn lemma_outside_origin_takes_entry(t0: Scalar, t1: Scalar)
    requires
        t0.is_number(),
        t1.is_number(),
        0 <= t0.key() <= t1.key(),
    ensures
        nearest_root(t0, t1) matches Some(t) && t.key() == t0.key(),
        t0.key() < t1.key() ==> nearest_root(t0, t1) == Some(t0),
{
}

/// A ray that starts inside a sphere is given the negative root, not the one
/// at which it leaves the sphere.
pub proof fn lemma_inside_origin_keeps_negative_root(t0: Scalar, t1: Scalar)
    requires
        t0.is_number(),
        t1.is_number(),
        t0.key() < 0 <= t1.key(),
    ensures
        nearest_root(t0, t1) == Some(t0),
{
}

/// The root taken is never above either root, and is one of the two.
pub proof fn lemma_root_is_least(t0: Scalar, t1: Scalar)
    requires
        t0.is_number(),
        t1.is_number(),
    ensures
        nearest_root(t0, t1) matches Some(t) ==> t.key() <= t0.key() && t.key() <= t1.key() && (t == t0
            || t == t1),
{
}

/// A plane that is parallel to a ray, or nearly so, or whose normal points
/// against the ray's direction, does not face it: every cosine up to the
/// threshold is refused, zero and all negative ones among them, and so is
/// an undefined one.
pub proof fn lemma_parallel_or_averted_plane_is_missed(denom: Scalar)
    requires
        denom.key() <= 0 || denom.key() <= FACING_THRESHOLD_KEY || !denom.is_number(),
    ensures
        !faces(denom),
{
}

} // verus!
