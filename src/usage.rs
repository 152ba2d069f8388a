//! CPU usage figures are carried as the bit pattern of an IEEE-754 single
//! precision number, so that comparisons follow floating-point rules exactly.
use vstd::prelude::*;

verus! {

/// The bit pattern with only the sign bit set.
pub const SIGN_BIT: u32 = 0x8000_0000;

/// The bit pattern of positive infinity; larger magnitudes are NaN.
pub const POSITIVE_INFINITY: u32 = 0x7f80_0000;

/// The magnitude bits of a number: everything but the sign.
pub open spec fn magnitude(bits: u32) -> int {
    bits as int % SIGN_BIT as int
}

pub open spec fn is_nan(bits: u32) -> bool {
    magnitude(bits) > POSITIVE_INFINITY as int
}

pub open spec fn is_zero(bits: u32) -> bool {
    magnitude(bits) == 0
}

/// `x > 0.0`: the sign is clear, the value is not zero and not NaN.
pub open spec fn is_positive(bits: u32) -> bool {
    0 < bits && bits <= POSITIVE_INFINITY
}

/// `x == y` on floats: NaN equals nothing, and the two zeros are equal.
pub open spec fn same_usage(a: u32, b: u32) -> bool {
    !is_nan(a) && !is_nan(b) && (a == b || (is_zero(a) && is_zero(b)))
}

/// Whether the usage figure with these bits is strictly greater than zero.
pub fn usage_is_positive(bits: u32) -> (r: bool)
    ensures
        r == is_positive(bits),
{
    0 < bits && bits <= POSITIVE_INFINITY
}

/// Whether two usage figures compare equal as floating-point numbers.
pub fn usage_equal(a: u32, b: u32) -> (r: bool)
    ensures
        r == same_usage(a, b),
{
    let ma = a % SIGN_BIT;
    let mb = b % SIGN_BIT;
    if ma > POSITIVE_INFINITY || mb > POSITIVE_INFINITY {
        false
    } else {
        a == b || (ma == 0 && mb == 0)
    }
}

} // verus!
