use vstd::prelude::*;
use crate::scalar::{key_of_bits, SIGN_BIT};

verus! {

/// A direction or displacement in space: the double-precision encodings of
/// its three components.
#[derive(Clone, Copy, Debug, PartialEq, Eq, Structural)]
pub struct Vector3 {
    pub x: u64,
    pub y: u64,
    pub z: u64,
}

/// The encoding of the opposite quantity: the same magnitude under the other
/// sign bit.
pub open spec fn negated(bits: u64) -> u64 {
    if bits < SIGN_BIT {
        (bits + SIGN_BIT) as u64
    } else {
        (bits - SIGN_BIT) as u64
    }
}

/// Flips the sign of one encoded component.
pub fn negate(bits: u64) -> (r: u64)
    ensures
        r == negated(bits),
{
    if bits < SIGN_BIT {
        bits + SIGN_BIT
    } else {
        bits - SIGN_BIT
    }
}

impl Vector3 {
    /// The vector opposite to this one, component by component.
    pub open spec fn opposite(self) -> Vector3 {
        Vector3 { x: negated(self.x), y: negated(self.y), z: negated(self.z) }
    }

    /// The vector without length.
    pub fn zero() -> (r: Vector3)
        ensures
            r == (Vector3 { x: 0, y: 0, z: 0 }),
    {
        Vector3::from_one(0)
    }

    /// The vector with all three components equal to `v`.
    pub fn from_one(v: u64) -> (r: Vector3)
        ensures
            r == (Vector3 { x: v, y: v, z: v }),
    {
        Vector3 { x: v, y: v, z: v }
    }

    /// From the encodings of the three components.
    pub fn new(x: u64, y: u64, z: u64) -> (r: Vector3)
        ensures
            r == (Vector3 { x, y, z }),
    {
        Vector3 { x, y, z }
    }

    /// The opposite vector.
    pub fn neg(self) -> (r: Vector3)
        ensures
            r == self.opposite(),
    {
        Vector3 { x: negate(self.x), y: negate(self.y), z: negate(self.z) }
    }
}

/// Negating changes the sign of the key and nothing else: the opposite of a
/// number has the opposite key.
pub proof fn lemma_negated_key(bits: u64)
    ensures
        key_of_bits(negated(bits)) == -key_of_bits(bits),
{
}

} // verus!
