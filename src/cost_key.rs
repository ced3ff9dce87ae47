//! Cost values are compared through the bit pattern of their IEEE-754
//! binary64 encoding. A finite pattern maps to an unsigned key whose
//! integer order is the numeric order of the value it encodes, with the
//! two zeros mapped to one key. Non-finite patterns (infinities and NaN)
//! have no key.
use vstd::prelude::*;

verus! {

/// The pattern with only the sign bit set.
pub const SIGN_BIT: u64 = 0x8000_0000_0000_0000;

/// The smallest magnitude whose exponent field is all ones.
pub const NON_FINITE_MAGNITUDE: u64 = 0x7FF0_0000_0000_0000;

/// Whether the sign bit of the pattern is set.
pub open spec fn is_negative(bits: u64) -> bool {
    bits >= SIGN_BIT
}

/// The pattern without its sign bit.
pub open spec fn magnitude(bits: u64) -> int {
    bits as int % (SIGN_BIT as int)
}

/// The pattern encodes a finite value: its exponent field is not all ones.
pub open spec fn is_finite_bits(bits: u64) -> bool {
    magnitude(bits) < NON_FINITE_MAGNITUDE as int
}

/// The key of a pattern: zeros in the middle of the range, negative values
/// below, positive values above, ordered by magnitude outward.
pub open spec fn key_of(bits: u64) -> int {
    if magnitude(bits) == 0 {
        SIGN_BIT as int
    } else if is_negative(bits) {
        SIGN_BIT as int - magnitude(bits)
    } else {
        SIGN_BIT as int + magnitude(bits)
    }
}

/// Numeric order of the values that two finite patterns encode: sign first,
/// then magnitude, with negative zero equal to positive zero.
pub open spec fn value_lt(a: u64, b: u64) -> bool {
    if magnitude(a) == 0 && magnitude(b) == 0 {
        false
    } else if is_negative(a) != is_negative(b) {
        is_negative(a)
    } else if is_negative(a) {
        magnitude(a) > magnitude(b)
    } else {
        magnitude(a) < magnitude(b)
    }
}

/// Two finite patterns encode the same value.
pub open spec fn value_eq(a: u64, b: u64) -> bool {
    a == b || (magnitude(a) == 0 && magnitude(b) == 0)
}

/// A cost whose pattern has no key: an infinity or a NaN.
#[derive(Debug, Clone, Copy, PartialEq, Eq, Structural)]
pub struct NonFiniteCost {
    pub bits: u64,
}

/// The key of a finite pattern; an error for an infinity or a NaN.
pub fn cost_key(bits: u64) -> (r: Result<u64, NonFiniteCost>)
    ensures
        is_finite_bits(bits) <==> r.is_ok(),
        r matches Ok(k) ==> k as int == key_of(bits),
        r matches Err(e) ==> e.bits == bits,
{
    let negative = bits >= SIGN_BIT;
    let mag = if negative { bits - SIGN_BIT } else { bits };
    if mag >= NON_FINITE_MAGNITUDE {
        Err(NonFiniteCost { bits })
    } else if mag == 0 {
        Ok(SIGN_BIT)
    } else if negative {
        Ok(SIGN_BIT - mag)
    } else {
        Ok(SIGN_BIT + mag)
    }
}

/// On finite patterns, key order is value order and equal keys are equal
/// values.
pub proof fn lemma_key_order(a: u64, b: u64)
    requires
        is_finite_bits(a),
        is_finite_bits(b),
    ensures
        key_of(a) < key_of(b) <==> value_lt(a, b),
        key_of(a) == key_of(b) <==> value_eq(a, b),
{
    if is_negative(a) {
        assert(a as int == SIGN_BIT as int + magnitude(a));
    }
    if is_negative(b) {
        assert(b as int == SIGN_BIT as int + magnitude(b));
    }
}

} // verus!
