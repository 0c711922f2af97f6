use vstd::prelude::*;

verus! {

/// Key of positive infinity: the exponent field all ones, the fraction zero.
pub const INFINITY_KEY: i64 = 0x7FF0_0000_0000_0000;

/// The sign bit of a 64-bit binary encoding.
pub const SIGN_BIT: u64 = 0x8000_0000_0000_0000;

/// A real quantity in double precision, held as its 64-bit binary encoding.
///
/// Numbers are compared through their key: the magnitude of the encoding
/// (exponent and fraction), negated where the sign bit is set. Keys are
/// ordered as the numbers are, and both zeros share the key 0, as they
/// compare equal. An encoding whose magnitude is above that of infinity
/// stands for an undefined result: it is below nothing and nothing is below
/// it.
#[derive(Clone, Copy, Debug, PartialEq, Eq, Structural)]
pub struct Scalar {
    pub bits: u64,
}

/// The signed magnitude that a 64-bit encoding stands for.
pub open spec fn key_of_bits(bits: u64) -> int {
    if bits < SIGN_BIT {
        bits as int
    } else {
        -(bits - SIGN_BIT)
    }
}

impl Scalar {
    /// The key by which quantities are ordered.
    pub open spec fn key(self) -> int {
        key_of_bits(self.bits)
    }

    /// The encoding stands for a number or an infinity, not for an undefined
    /// result.
    pub open spec fn is_number(self) -> bool {
        -INFINITY_KEY <= self.key() <= INFINITY_KEY
    }

    /// The encoding stands for a finite number.
    pub open spec fn is_finite(self) -> bool {
        -INFINITY_KEY < self.key() < INFINITY_KEY
    }

    /// This quantity is less than the other: both are numbers, and the key
    /// of this one is the lesser. No comparison with an undefined result
    /// holds.
    pub open spec fn below(self, other: Scalar) -> bool {
        self.is_number() && other.is_number() && self.key() < other.key()
    }

    /// The quantity is a number less than zero.
    pub open spec fn is_negative(self) -> bool {
        self.is_number() && self.key() < 0
    }

    /// Takes any 64-bit binary encoding, that of an undefined result too.
    pub fn new(bits: u64) -> (r: Scalar)
        ensures
            r.bits == bits,
    {
        Scalar { bits }
    }

    /// Takes a 64-bit binary encoding, unless it stands for an undefined
    /// result.
    pub fn from_bits(bits: u64) -> (r: Option<Scalar>)
        ensures
            r.is_some() <==> -INFINITY_KEY <= key_of_bits(bits) <= INFINITY_KEY,
            r matches Some(s) ==> s.bits == bits && s.is_number(),
    {
        let magnitude: u64 = if bits < SIGN_BIT {
            bits
        } else {
            bits - SIGN_BIT
        };
        if magnitude <= 0x7FF0_0000_0000_0000u64 {
            Some(Scalar { bits })
        } else {
            None
        }
    }

    /// The 64-bit binary encoding of the quantity.
    pub fn to_bits(self) -> (bits: u64)
        ensures
            bits == self.bits,
    {
        self.bits
    }

    /// The key of the quantity.
    pub fn order_key(&self) -> (k: i64)
        ensures
            k == self.key(),
    {
        if self.bits < SIGN_BIT {
            self.bits as i64
        } else {
            let magnitude: u64 = self.bits - SIGN_BIT;
            0 - (magnitude as i64)
        }
    }

    /// The quantity zero.
    pub fn zero() -> (r: Scalar)
        ensures
            r.bits == 0,
            r.key() == 0,
    {
        Scalar { bits: 0 }
    }

    /// Positive infinity: above every finite quantity.
    pub fn infinity() -> (r: Scalar)
        ensures
            r.key() == INFINITY_KEY,
            r.is_number(),
            !r.is_finite(),
    {
        Scalar { bits: 0x7FF0_0000_0000_0000u64 }
    }

    /// Whether the quantity is finite.
    pub fn finite(&self) -> (r: bool)
        ensures
            r == self.is_finite(),
    {
        let k: i64 = self.order_key();
        -INFINITY_KEY < k && k < INFINITY_KEY
    }

    /// Whether the quantity is a number, not an undefined result.
    pub fn defined(&self) -> (r: bool)
        ensures
            r == self.is_number(),
    {
        let k: i64 = self.order_key();
        -INFINITY_KEY <= k && k <= INFINITY_KEY
    }

    /// Whether the quantity is less than another.
    pub fn less_than(&self, other: &Scalar) -> (r: bool)
        ensures
            r == self.below(*other),
    {
        self.defined() && other.defined() && self.order_key() < other.order_key()
    }

    /// Whether the quantity is a number less than zero.
    pub fn negative(&self) -> (r: bool)
        ensures
            r == self.is_negative(),
    {
        self.defined() && self.order_key() < 0
    }
}

} // verus!
