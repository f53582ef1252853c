//! IEEE-754 binary64 numbers, held by their bit patterns.
//!
//! A pattern has one sign bit, eleven exponent bits and fifty-two fraction
//! bits. The comparisons below read the pattern alone, so the library can
//! store and judge such numbers without doing arithmetic on them.

use vstd::prelude::*;

verus! {

/// The sign bit of a pattern.
pub const SIGN_BIT: u64 = 0x8000_0000_0000_0000;

/// The pattern of positive infinity: every larger magnitude is a NaN.
pub const INFINITY: u64 = 0x7ff0_0000_0000_0000;

/// The pattern with its sign bit cleared.
pub open spec fn magnitude(bits: u64) -> u64 {
    if bits >= SIGN_BIT {
        (bits - SIGN_BIT) as u64
    } else {
        bits
    }
}

/// Whether `bits` encodes no number at all.
pub open spec fn is_nan(bits: u64) -> bool {
    magnitude(bits) > INFINITY
}

/// Whether `bits` encodes zero, of either sign.
pub open spec fn is_zero(bits: u64) -> bool {
    magnitude(bits) == 0
}

/// Whether `bits` encodes a number strictly greater than zero: the sign bit
/// is clear, the pattern is not that of zero, and it is not a NaN. Positive
/// infinity counts.
pub open spec fn is_positive(bits: u64) -> bool {
    0 < bits <= INFINITY
}

/// Whether `bits` encodes a number that is zero or below it. A NaN is
/// neither above zero nor at most zero.
pub open spec fn is_at_most_zero(bits: u64) -> bool {
    !is_nan(bits) && (is_zero(bits) || bits >= SIGN_BIT)
}

/// Whether `a` and `b` encode the same number. A NaN equals nothing, itself
/// included, and the two zeros equal each other.
pub open spec fn same_number(a: u64, b: u64) -> bool {
    &&& !is_nan(a)
    &&& !is_nan(b)
    &&& (a == b || (is_zero(a) && is_zero(b)))
}

/// Clears the sign bit of `bits`.
pub fn abs(bits: u64) -> (r: u64)
    ensures
        r == magnitude(bits),
{
    if bits >= SIGN_BIT {
        bits - SIGN_BIT
    } else {
        bits
    }
}

/// Tells whether `bits` encodes a number strictly greater than zero.
pub fn positive(bits: u64) -> (r: bool)
    ensures
        r == is_positive(bits),
{
    0 < bits && bits <= INFINITY
}

/// Compares two patterns as numbers.
pub fn equal(a: u64, b: u64) -> (r: bool)
    ensures
        r == same_number(a, b),
{
    let ma: u64 = abs(a);
    let mb: u64 = abs(b);
    ma <= INFINITY && mb <= INFINITY && (a == b || (ma == 0 && mb == 0))
}

/// Every number is either above zero or at most zero, and never both; a NaN
/// is neither.
pub proof fn lemma_sign_cases(bits: u64)
    ensures
        !is_nan(bits) ==> (is_positive(bits) <==> !is_at_most_zero(bits)),
        is_nan(bits) ==> !is_positive(bits) && !is_at_most_zero(bits),
{
}

} // verus!
