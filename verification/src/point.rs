use vstd::prelude::*;

verus! {

/// A position in space: the double-precision encodings of its three
/// coordinates. A type of its own, so that positions and directions are not
/// mixed up.
#[derive(Clone, Copy, Debug, PartialEq, Eq, Structural)]
pub struct Point {
    pub x: u64,
    pub y: u64,
    pub z: u64,
}

impl Point {
    /// The origin, where the camera stands.
    pub fn zero() -> (r: Point)
        ensures
            r == (Point { x: 0, y: 0, z: 0 }),
    {
        Point::from_one(0)
    }

    /// The point with all three coordinates equal to `v`.
    pub fn from_one(v: u64) -> (r: Point)
        ensures
            r == (Point { x: v, y: v, z: v }),
    {
        Point { x: v, y: v, z: v }
    }

    /// From the encodings of the three components.
    pub fn new(x: u64, y: u64, z: u64) -> (r: Point)
        ensures
            r == (Point { x, y, z }),
    {
        Point { x, y, z }
    }
}

} // verus!
