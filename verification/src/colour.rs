use vstd::prelude::*;

verus! {

/// The sign bit of a 32-bit binary encoding.
pub const SIGN_BIT_32: u32 = 0x8000_0000;

/// The 32-bit encoding of positive infinity; a greater magnitude encodes an
/// undefined result.
pub const INFINITY_32: u32 = 0x7F80_0000;

/// The 32-bit encoding of one, the brightest value that can be displayed.
pub const ONE_32: u32 = 0x3F80_0000;

/// A colour: the single-precision encodings of its three channels. Channels
/// are not bounded above while light is summed up.
#[derive(Clone, Copy, Debug, PartialEq, Eq, Structural)]
pub struct Colour {
    pub red: u32,
    pub green: u32,
    pub blue: u32,
}

/// The encoding stands for no number.
pub open spec fn is_undefined(bits: u32) -> bool {
    if bits < SIGN_BIT_32 {
        bits > INFINITY_32
    } else {
        bits - SIGN_BIT_32 > INFINITY_32
    }
}

/// The signed magnitude of an encoding. Encodings of numbers are ordered by
/// it as the numbers are.
pub open spec fn channel_key(bits: u32) -> int {
    if bits < SIGN_BIT_32 {
        bits as int
    } else {
        -(bits - SIGN_BIT_32)
    }
}

/// A channel cut off at one: a number below one stays as it is, anything
/// else, an undefined result included, becomes one.
pub open spec fn clamped(bits: u32) -> u32 {
    if !is_undefined(bits) && channel_key(bits) < channel_key(ONE_32) {
        bits
    } else {
        ONE_32
    }
}

/// The cosine term of diffuse reflection: a number above zero stays as it
/// is, anything else, an undefined result included, becomes zero, so that a
/// surface receives nothing from behind.
pub open spec fn cosine_term(bits: u32) -> u32 {
    if !is_undefined(bits) && channel_key(bits) > 0 {
        bits
    } else {
        0
    }
}

/// Cuts one channel off at one.
pub fn clamp_channel(bits: u32) -> (r: u32)
    ensures
        r == clamped(bits),
{
    if bits >= SIGN_BIT_32 {
        if bits - SIGN_BIT_32 <= INFINITY_32 {
            bits
        } else {
            ONE_32
        }
    } else if bits < ONE_32 {
        bits
    } else {
        ONE_32
    }
}

/// The cosine term of diffuse reflection, from the cosine between the
/// surface normal and the direction to the light. The power of a light on
/// the surface is this term times the intensity received.
pub fn diffuse_cosine(cosine: u32) -> (r: u32)
    ensures
        r == cosine_term(cosine),
{
    if 0 < cosine && cosine <= INFINITY_32 {
        cosine
    } else {
        0
    }
}

impl Colour {
    /// The colour with each channel cut off at one, ready for display.
    pub fn clamp(&self) -> (r: Colour)
        ensures
            r.red == clamped(self.red),
            r.green == clamped(self.green),
            r.blue == clamped(self.blue),
    {
        Colour {
            red: clamp_channel(self.red),
            green: clamp_channel(self.green),
            blue: clamp_channel(self.blue),
        }
    }
}

/// A clamped channel is a number and not above one.
pub proof fn lemma_clamped_is_at_most_one(bits: u32)
    ensures
        !is_undefined(clamped(bits)),
        channel_key(clamped(bits)) <= channel_key(ONE_32),
{
}

/// Clamping a second time changes nothing.
pub proof fn lemma_clamp_is_idempotent(bits: u32)
    ensures
        clamped(clamped(bits)) == clamped(bits),
{
}

/// Clamping keeps the order of channels: of two numbers, the one that is not
/// above the other is not above it after clamping.
pub proof fn lemma_clamp_is_monotone(a: u32, b: u32)
    requires
        !is_undefined(a),
        !is_undefined(b),
        channel_key(a) <= channel_key(b),
    ensures
        channel_key(clamped(a)) <= channel_key(clamped(b)),
{
}

/// The cosine term is a number and never negative, so that no light takes
/// brightness away.
pub proof fn lemma_cosine_term_is_not_negative(bits: u32)
    ensures
        !is_undefined(cosine_term(bits)),
        channel_key(cosine_term(bits)) >= 0,
{
}

/// The cosine term keeps the order of cosines: a surface that is turned
/// further away from a light has no greater term than one turned towards it.
pub proof fn lemma_cosine_term_is_monotone(a: u32, b: u32)
    requires
        !is_undefined(a),
        !is_undefined(b),
        channel_key(a) <= channel_key(b),
    ensures
        channel_key(cosine_term(a)) <= channel_key(cosine_term(b)),
{
}

} // verus!
