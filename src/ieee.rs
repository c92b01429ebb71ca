use vstd::prelude::*;

verus! {

/// Mask of the exponent field of an IEEE-754 binary64 encoding; a magnitude at
/// or above it is an infinity or a NaN.
pub const EXPONENT_MASK: u64 = 0x7ff0_0000_0000_0000;

/// The sign bit of an IEEE-754 binary64 encoding.
pub const SIGN_BIT: u64 = 0x8000_0000_0000_0000;

/// A 64-bit floating-point value held as its IEEE-754 binary64 encoding.
#[derive(Clone, Copy, Debug, PartialEq, Eq, Structural)]
pub struct Binary64(pub u64);

/// The encoding with the sign bit cleared.
pub open spec fn magnitude(b: u64) -> u64 {
    if b >= SIGN_BIT { (b - SIGN_BIT) as u64 } else { b }
}

pub open spec fn is_nan(b: u64) -> bool {
    magnitude(b) > EXPONENT_MASK
}

pub open spec fn is_finite(b: u64) -> bool {
    magnitude(b) < EXPONENT_MASK
}

/// A key that orders every non-NaN encoding as the values it stands for;
/// `+0.0` and `-0.0` share the key 0.
pub open spec fn order_key(b: u64) -> int {
    if b >= SIGN_BIT { -(magnitude(b) as int) } else { magnitude(b) as int }
}

/// IEEE-754 `<`: false whenever either side is NaN.
pub open spec fn float_lt(a: u64, b: u64) -> bool {
    !is_nan(a) && !is_nan(b) && order_key(a) < order_key(b)
}

/// `f64::max`: the other side when one side is NaN, else the larger one.
pub open spec fn float_max(a: u64, b: u64) -> u64 {
    if is_nan(a) || float_lt(a, b) { b } else { a }
}

/// IEEE-754 `>= 0.0`: true of `-0.0` too, false of NaN.
pub open spec fn is_nonnegative(b: u64) -> bool {
    !is_nan(b) && order_key(b) >= 0
}

/// IEEE-754 `> 0.0`.
pub open spec fn is_positive(b: u64) -> bool {
    !is_nan(b) && order_key(b) > 0
}

fn magnitude_of(b: u64) -> (r: u64)
    ensures
        r == magnitude(b),
{
    if b >= SIGN_BIT { b - SIGN_BIT } else { b }
}

impl Binary64 {
    pub fn is_finite(&self) -> (r: bool)
        ensures
            r == is_finite(self.0),
    {
        magnitude_of(self.0) < EXPONENT_MASK
    }

    pub fn is_nan(&self) -> (r: bool)
        ensures
            r == is_nan(self.0),
    {
        magnitude_of(self.0) > EXPONENT_MASK
    }

    pub fn is_nonnegative(&self) -> (r: bool)
        ensures
            r == is_nonnegative(self.0),
    {
        !self.is_nan() && (self.0 < SIGN_BIT || self.0 == SIGN_BIT)
    }

    pub fn is_positive(&self) -> (r: bool)
        ensures
            r == is_positive(self.0),
    {
        !self.is_nan() && self.0 < SIGN_BIT && self.0 != 0
    }

    /// `self < other` as IEEE-754 compares.
    pub fn lt(&self, other: &Binary64) -> (r: bool)
        ensures
            r == float_lt(self.0, other.0),
    {
        if self.is_nan() || other.is_nan() {
            return false;
        }
        let a_neg = self.0 >= SIGN_BIT;
        let b_neg = other.0 >= SIGN_BIT;
        let a = magnitude_of(self.0);
        let b = magnitude_of(other.0);
        if a_neg && b_neg {
            b < a
        } else if a_neg {
            a != 0 || b != 0
        } else if b_neg {
            false
        } else {
            a < b
        }
    }

    /// `self > other` as IEEE-754 compares.
    pub fn gt(&self, other: &Binary64) -> (r: bool)
        ensures
            r == float_lt(other.0, self.0),
    {
        other.lt(self)
    }

    /// `f64::max` of the two values.
    pub fn max(&self, other: &Binary64) -> (r: Binary64)
        ensures
            r.0 == float_max(self.0, other.0),
    {
        if self.is_nan() || self.lt(other) { *other } else { *self }
    }
}

} // verus!
