//! IEEE 754 binary64 numbers as 64-bit encodings: one sign bit, eleven
//! exponent bits, fifty-two fraction bits.

use vstd::prelude::*;

verus! {

/// Encoding of `+0.0`.
pub const POSITIVE_ZERO: u64 = 0;

/// Encoding of `-0.0`: the sign bit alone.
pub const NEGATIVE_ZERO: u64 = 0x8000_0000_0000_0000;

/// Encoding of the smallest positive normal number, `2^-1022`.
pub const MIN_POSITIVE: u64 = 0x0010_0000_0000_0000;

/// Encoding of `1.0`.
pub const ONE: u64 = 0x3FF0_0000_0000_0000;

/// Encoding of positive infinity. Every larger encoding with a clear sign bit
/// is a NaN.
pub const INFINITY: u64 = 0x7FF0_0000_0000_0000;

/// The encoded number compares equal to zero: it is `+0.0` or `-0.0`.
pub open spec fn zero(b: u64) -> bool {
    b == POSITIVE_ZERO || b == NEGATIVE_ZERO
}

/// The encoded value is not a number.
pub open spec fn nan(b: u64) -> bool {
    INFINITY < b < NEGATIVE_ZERO || b > NEGATIVE_ZERO + INFINITY
}

/// The encoded number is greater than zero: subnormal, normal or infinite,
/// with a clear sign bit.
pub open spec fn positive(b: u64) -> bool {
    POSITIVE_ZERO < b <= INFINITY
}

/// The encoded number is zero or greater than zero.
pub open spec fn nonnegative(b: u64) -> bool {
    zero(b) || positive(b)
}

/// The encoded number lies in the half-open interval `(0, 1]`.
pub open spec fn unit(b: u64) -> bool {
    POSITIVE_ZERO < b <= ONE
}

/// The encoding that zero avoidance stores for `b`: the smallest positive
/// normal number in place of a zero, and `b` itself otherwise.
pub open spec fn safe(b: u64) -> u64 {
    if zero(b) {
        MIN_POSITIVE
    } else {
        b
    }
}

/// Tells whether the encoded number compares equal to zero.
pub fn is_zero(b: u64) -> (r: bool)
    ensures
        r == zero(b),
{
    b == POSITIVE_ZERO || b == NEGATIVE_ZERO
}

/// Tells whether the encoded number is greater than zero.
pub fn is_positive(b: u64) -> (r: bool)
    ensures
        r == positive(b),
{
    POSITIVE_ZERO < b && b <= INFINITY
}

/// Tells whether the encoded number lies in the half-open interval `(0, 1]`.
pub fn is_unit(b: u64) -> (r: bool)
    ensures
        r == unit(b),
{
    POSITIVE_ZERO < b && b <= ONE
}

/// Substitutes the smallest positive normal number for a zero, so that the
/// result can divide and can be divided.
pub fn avoid_zero(b: u64) -> (r: u64)
    ensures
        r == safe(b),
        !zero(r),
{
    if is_zero(b) {
        MIN_POSITIVE
    } else {
        b
    }
}

/// Zero avoidance never yields a zero.
pub proof fn lemma_safe_is_not_zero(b: u64)
    ensures
        !zero(safe(b)),
{
}

/// Zero avoidance changes nothing but zeros, so applying it twice is the
/// same as applying it once.
pub proof fn lemma_safe_is_idempotent(b: u64)
    ensures
        !zero(b) ==> safe(b) == b,
        safe(safe(b)) == safe(b),
{
}

/// After zero avoidance a number is greater than zero exactly when it was
/// zero or greater than zero before: a negative number stays negative and a
/// NaN stays a NaN.
pub proof fn lemma_safe_is_positive(b: u64)
    ensures
        positive(safe(b)) <==> nonnegative(b),
        nan(safe(b)) <==> nan(b),
{
}

/// Every number in `(0, 1]` is greater than zero and left alone by zero
/// avoidance.
pub proof fn lemma_unit_is_positive(b: u64)
    requires
        unit(b),
    ensures
        positive(b),
        safe(b) == b,
{
}

} // verus!
