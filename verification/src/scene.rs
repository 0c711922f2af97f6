use vstd::prelude::*;
use crate::colour::{channel_key, is_undefined, Colour, ONE_32};
use crate::point::Point;
use crate::scalar::{key_of_bits, Scalar, INFINITY_KEY};
use crate::vector::Vector3;

verus! {

/// A ball: its centre, its radius as a double-precision encoding, its colour
/// and the share of light that it reflects, as a single-precision encoding.
#[derive(Clone, Copy, Debug, PartialEq, Eq, Structural)]
pub struct Sphere {
    pub center: Point,
    pub radius: u64,
    pub colour: Colour,
    pub albedo: u32,
}

/// An unbounded flat surface through `origin`. The normal is taken as it
/// stands and should have length one.
#[derive(Clone, Copy, Debug, PartialEq, Eq, Structural)]
pub struct Plane {
    pub origin: Point,
    pub normal: Vector3,
    pub colour: Colour,
    pub albedo: u32,
}

/// A surface of the scene.
#[derive(Clone, Copy, Debug, PartialEq, Eq, Structural)]
pub enum Element {
    Sphere(Sphere),
    Plane(Plane),
}

/// A light so far away that its rays are parallel. `direction` is the way
/// the light travels, not the way towards the light.
#[derive(Clone, Copy, Debug, PartialEq, Eq, Structural)]
pub struct DirectionalLight {
    pub direction: Vector3,
    pub colour: Colour,
    pub intensity: u32,
}

/// A light that shines from one position to all sides.
#[derive(Clone, Copy, Debug, PartialEq, Eq, Structural)]
pub struct SphericalLight {
    pub position: Point,
    pub colour: Colour,
    pub intensity: u32,
}

/// A light of the scene.
#[derive(Clone, Copy, Debug, PartialEq, Eq, Structural)]
pub enum Light {
    Directional(DirectionalLight),
    Spherical(SphericalLight),
}

/// A scene: the size of the picture in pixels, the field of view in degrees,
/// the surfaces and the lights in their order, and the small offset by which
/// a shadow ray starts off the surface. The camera stands at the origin and
/// looks down the negative z axis.
#[derive(Debug)]
pub struct Scene {
    pub width: u32,
    pub height: u32,
    pub fov: u64,
    pub elements: Vec<Element>,
    pub light: Vec<Light>,
    pub shadow_bias: u64,
}

/// A share of reflected light is a number above zero and not above one.
pub open spec fn albedo_in_range(albedo: u32) -> bool {
    !is_undefined(albedo) && 0 < channel_key(albedo) <= channel_key(ONE_32)
}

/// Whether a share of reflected light lies above zero and not above one.
pub fn albedo_is_valid(albedo: u32) -> (r: bool)
    ensures
        r == albedo_in_range(albedo),
{
    0 < albedo && albedo <= ONE_32
}

impl Sphere {
    /// The radius is a finite number above zero, the albedo in range.
    pub open spec fn wf(self) -> bool {
        0 < key_of_bits(self.radius) < INFINITY_KEY && albedo_in_range(self.albedo)
    }

    /// Whether radius and albedo are in range.
    pub fn is_valid(&self) -> (r: bool)
        ensures
            r == self.wf(),
    {
        0 < self.radius && self.radius < 0x7FF0_0000_0000_0000u64 && albedo_is_valid(self.albedo)
    }
}

impl Plane {
    /// The albedo is in range.
    pub open spec fn wf(self) -> bool {
        albedo_in_range(self.albedo)
    }

    /// Whether the albedo is in range.
    pub fn is_valid(&self) -> (r: bool)
        ensures
            r == self.wf(),
    {
        albedo_is_valid(self.albedo)
    }

    /// The normal of the surface at a point of it: the opposite of the
    /// stored normal, whichever side was hit.
    pub fn surface_normal(&self, hit_point: &Point) -> (r: Vector3)
        ensures
            r == self.normal.opposite(),
    {
        self.normal.neg()
    }
}

impl Element {
    /// The surface is well formed for its shape.
    pub open spec fn wf(self) -> bool {
        match self {
            Element::Sphere(s) => s.wf(),
            Element::Plane(p) => p.wf(),
        }
    }

    /// The one colour of the surface.
    pub open spec fn colour_of(self) -> Colour {
        match self {
            Element::Sphere(s) => s.colour,
            Element::Plane(p) => p.colour,
        }
    }

    /// The one albedo of the surface.
    pub open spec fn albedo_of(self) -> u32 {
        match self {
            Element::Sphere(s) => s.albedo,
            Element::Plane(p) => p.albedo,
        }
    }

    /// Whether the surface is well formed for its shape.
    pub fn is_valid(&self) -> (r: bool)
        ensures
            r == self.wf(),
    {
        match self {
            Element::Sphere(s) => s.is_valid(),
            Element::Plane(p) => p.is_valid(),
        }
    }

    /// The colour of the surface, whatever its shape.
    pub fn colour(&self) -> (r: &Colour)
        ensures
            *r == self.colour_of(),
    {
        match self {
            Element::Sphere(s) => &s.colour,
            Element::Plane(p) => &p.colour,
        }
    }

    /// The share of light that the surface reflects, whatever its shape.
    pub fn albedo(&self) -> (r: u32)
        ensures
            r == self.albedo_of(),
    {
        match self {
            Element::Sphere(s) => s.albedo,
            Element::Plane(p) => p.albedo,
        }
    }
}

impl DirectionalLight {
    /// The opposite of the way the light travels, at the stored length. It
    /// points from any point towards the light; scaled to length one it is
    /// the unit direction towards the light.
    pub fn reversed_direction(&self) -> (r: Vector3)
        ensures
            r == self.direction.opposite(),
    {
        self.direction.neg()
    }

    /// The distance from any point to the light: infinite, so that every
    /// surface on the way to it shades.
    pub fn distance(&self) -> (r: Scalar)
        ensures
            r.key() == INFINITY_KEY,
            r.is_number(),
    {
        Scalar::infinity()
    }
}

impl Light {
    /// The colour of the light.
    pub open spec fn colour_of(self) -> Colour {
        match self {
            Light::Directional(d) => d.colour,
            Light::Spherical(s) => s.colour,
        }
    }

    /// The colour of the light, whatever its kind.
    pub fn colour(&self) -> (r: Colour)
        ensures
            r == self.colour_of(),
    {
        match self {
            Light::Directional(d) => d.colour,
            Light::Spherical(s) => s.colour,
        }
    }
}

/// Where a ray meets a surface: the ray parameter of the hit and the position
/// of the surface in the scene's surface list.
#[derive(Clone, Copy, Debug, PartialEq, Eq, Structural)]
pub struct Intersection {
    pub distance: Scalar,
    pub element: usize,
}

impl Intersection {
    /// An intersection lies at a finite distance.
    pub open spec fn wf(self) -> bool {
        self.distance.is_finite()
    }

    /// The intersection at `distance` with the surface at place `element`.
    /// A distance that is not finite shows a fault in the arithmetic that
    /// found it, and is not taken.
    pub fn new(distance: Scalar, element: usize) -> (r: Intersection)
        requires
            distance.is_finite(),
        ensures
            r.distance == distance,
            r.element == element,
            r.wf(),
    {
        Intersection { distance, element }
    }
}

/// `found` is the nearest hit among `hits`: some surface is hit at that
/// distance, none nearer, and none before it in the list as near.
pub open spec fn is_nearest(hits: Seq<Option<Scalar>>, found: Intersection) -> bool {
    &&& found.element < hits.len()
    &&& hits[found.element as int] == Some(found.distance)
    &&& forall|j: int|
        0 <= j < hits.len() && hits[j].is_some() ==> found.distance.key() <= (#[trigger] hits[j]).unwrap().key()
    &&& forall|j: int|
        0 <= j < found.element && hits[j].is_some() ==> found.distance.key() < (#[trigger] hits[j]).unwrap().key()
}

/// The place of pixel (x, y) in a grid of the given height that is laid out
/// column by column.
pub open spec fn grid_place(height: int, x: int, y: int) -> int {
    x * height + y
}

/// The nearest hit after one more surface: the hit on that surface where it
/// is the first hit or nearer than the nearest so far, else the nearest so
/// far.
pub open spec fn nearer_of(best: Option<Intersection>, hit: Option<Scalar>, place: usize) -> Option<
    Intersection,
> {
    match hit {
        None => best,
        Some(distance) => match best {
            Some(found) if !(distance.key() < found.distance.key()) => best,
            _ => Some(Intersection { distance, element: place }),
        },
    }
}

/// No surface is hit.
pub open spec fn all_miss(hits: Seq<Option<Scalar>>) -> bool {
    forall|j: int| 0 <= j < hits.len() ==> (#[trigger] hits[j]).is_none()
}

impl Scene {
    /// The picture is wider than it is high.
    pub open spec fn wf(self) -> bool {
        self.width > self.height
    }

    /// Whether the picture is wider than it is high.
    pub fn is_valid(&self) -> (r: bool)
        ensures
            r == self.wf(),
    {
        self.width > self.height
    }

    /// Whether every surface of the scene is well formed.
    pub fn surfaces_are_valid(&self) -> (r: bool)
        ensures
            r == forall|i: int| 0 <= i < self.elements@.len() ==> (#[trigger] self.elements@[i]).wf(),
    {
        let mut i: usize = 0;
        while i < self.elements.len()
            invariant
                i <= self.elements@.len(),
                forall|j: int| 0 <= j < i ==> (#[trigger] self.elements@[j]).wf(),
            decreases self.elements@.len() - i,
        {
            if !self.elements[i].is_valid() {
                return false;
            }
            i = i + 1;
        }
        true
    }

    /// The number of pixels of the picture.
    pub fn pixel_count(&self) -> (n: u64)
        ensures
            n == self.width * self.height,
    {
        proof {
            lemma_pixel_count_fits(self.width, self.height);
        }
        (self.width as u64) * (self.height as u64)
    }

    /// The place of pixel (x, y) in a grid that is laid out column by column.
    pub fn pixel_index(&self, x: u32, y: u32) -> (i: u64)
        requires
            x < self.width,
            y < self.height,
        ensures
            i == grid_place(self.height as int, x as int, y as int),
            i < self.width * self.height,
    {
        proof {
            lemma_index_in_grid(self.width as int, self.height as int, x as int, y as int);
            lemma_pixel_count_fits(self.width, self.height);
            assert(x * self.height >= 0) by (nonlinear_arith)
                requires
                    x >= 0,
                    self.height >= 0,
            ;
        }
        (x as u64) * (self.height as u64) + (y as u64)
    }

    /// The nearest hit of one ray, given for each surface of the scene, in
    /// order, the distance at which the ray meets it, if it does. Of several
    /// surfaces at the least distance the first in the list is taken.
    pub fn trace(&self, hits: &Vec<Option<Scalar>>) -> (r: Option<Intersection>)
        requires
            hits@.len() == self.elements@.len(),
            forall|j: int| 0 <= j < hits@.len() && hits@[j].is_some() ==> (#[trigger] hits@[j]).unwrap().is_finite(),
        ensures
            r.is_none() <==> all_miss(hits@),
            r matches Some(found) ==> is_nearest(hits@, found) && found.wf() && found.element
                < self.elements@.len(),
    {
        let mut best: Option<Intersection> = None;
        let mut i: usize = 0;
        while i < hits.len()
            invariant
                i <= hits@.len(),
                forall|j: int| 0 <= j < hits@.len() && hits@[j].is_some() ==> (#[trigger] hits@[j]).unwrap().is_finite(),
                best.is_none() <==> all_miss(hits@.take(i as int)),
                best matches Some(found) ==> is_nearest(hits@.take(i as int), found) && found.wf(),
            decreases hits@.len() - i,
        {
            let hit = hits[i];
            proof {
                assert(hits@.take(i + 1) =~= hits@.take(i as int).push(hit));
                lemma_nearest_grows(hits@.take(i as int), best, hit);
            }
            if let Some(distance) = hit {
                let closer = match best {
                    None => true,
                    Some(found) => distance.less_than(&found.distance),
                };
                if closer {
                    best = Some(Intersection::new(distance, i));
                }
            }
            i = i + 1;
        }
        proof {
            assert(hits@.take(i as int) =~= hits@);
        }
        best
    }
}

/// The number of pixels of any picture fits in 64 bits.
proof fn lemma_pixel_count_fits(width: u32, height: u32)
    ensures
        width * height <= 0xFFFF_FFFF * 0xFFFF_FFFF,
{
    assert(width * height <= 0xFFFF_FFFF * 0xFFFF_FFFF) by (nonlinear_arith)
        requires
            0 <= width <= 0xFFFF_FFFF,
            0 <= height <= 0xFFFF_FFFF,
    ;
}

/// A pixel inside the picture has its place inside the grid.
pub proof fn lemma_index_in_grid(width: int, height: int, x: int, y: int)
    requires
        0 <= x < width,
        0 <= y < height,
    ensures
        0 <= grid_place(height, x, y) < width * height,
{
    assert(x * height + height <= width * height) by (nonlinear_arith)
        requires
            x + 1 <= width,
            height > 0,
    ;
    assert(x * height >= 0) by (nonlinear_arith)
        requires
            x >= 0,
            height > 0,
    ;
}

/// With one more surface at the end of the list, the nearest hit is the
/// nearer of the nearest so far and the hit on that surface.
proof fn lemma_nearest_grows(before: Seq<Option<Scalar>>, best: Option<Intersection>, hit: Option<Scalar>)
    requires
        before.len() < usize::MAX,
        best.is_none() <==> all_miss(before),
        best matches Some(found) ==> is_nearest(before, found),
    ensures
        nearer_of(best, hit, before.len() as usize).is_none() <==> all_miss(before.push(hit)),
        nearer_of(best, hit, before.len() as usize) matches Some(found) ==> is_nearest(
            before.push(hit),
            found,
        ),
{
    let after = before.push(hit);
    let next = nearer_of(best, hit, before.len() as usize);
    assert(after[before.len() as int] == hit);
    assert(forall|j: int| 0 <= j < before.len() ==> after[j] == before[j]);
    if let Some(found) = next {
        assert forall|j: int| 0 <= j < after.len() && after[j].is_some() implies found.distance.key() <= (
        #[trigger] after[j]).unwrap().key() by {
            if j < before.len() {
                assert(before[j].is_some());
            }
        }
        assert forall|j: int| 0 <= j < found.element && after[j].is_some() implies found.distance.key() < (
        #[trigger] after[j]).unwrap().key() by {
            assert(before[j].is_some());
        }
    } else {
        assert forall|j: int| 0 <= j < after.len() implies (#[trigger] after[j]).is_none() by {
            if j < before.len() {
                assert(before[j].is_none());
            }
        }
    }
    if next.is_some() && all_miss(after) {
        assert(after[next.unwrap().element as int].is_none());
    }
}

/// The nearest hit is unique: two intersections that both are the nearest
/// hit of the same list are the same.
pub proof fn lemma_nearest_is_unique(hits: Seq<Option<Scalar>>, a: Intersection, b: Intersection)
    requires
        is_nearest(hits, a),
        is_nearest(hits, b),
    ensures
        a == b,
{
    assert(hits[a.element as int].is_some());
    assert(hits[b.element as int].is_some());
    if a.element < b.element {
        assert(b.distance.key() < hits[a.element as int].unwrap().key());
    } else if b.element < a.element {
        assert(a.distance.key() < hits[b.element as int].unwrap().key());
    }
}

} // verus!
