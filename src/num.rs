use vstd::prelude::*;

verus! {

/// The sign bit of an IEEE-754 binary64 bit pattern.
pub const SIGN_BIT: u64 = 0x8000_0000_0000_0000;

/// The largest magnitude (sign bit cleared) that is not a NaN: the bits of infinity.
pub const INFINITY_BITS: u64 = 0x7ff0_0000_0000_0000;

/// A number of the graph: an IEEE-754 binary64 value held as its bit pattern.
#[derive(Clone, Copy, PartialEq, Eq, Structural, Debug)]
pub struct Num {
    pub bits: u64,
}

/// A two-dimensional vector of numbers.
#[derive(Clone, Copy, PartialEq, Eq, Structural, Debug)]
pub struct Vec2 {
    pub x: Num,
    pub y: Num,
}

/// The bit pattern with the sign bit cleared.
pub open spec fn magnitude(n: Num) -> int {
    (n.bits % SIGN_BIT) as int
}

pub open spec fn is_negative(n: Num) -> bool {
    n.bits >= SIGN_BIT
}

pub open spec fn spec_is_nan(n: Num) -> bool {
    magnitude(n) > INFINITY_BITS
}

/// For numbers that are not NaN, the order of binary64 values is the order of
/// their magnitudes, negated for negative numbers (so that both zeros are equal).
pub open spec fn order_key(n: Num) -> int {
    if is_negative(n) {
        -magnitude(n)
    } else {
        magnitude(n)
    }
}

/// `a <= b` on binary64 values: false whenever either is NaN.
pub open spec fn spec_le(a: Num, b: Num) -> bool {
    !spec_is_nan(a) && !spec_is_nan(b) && order_key(a) <= order_key(b)
}

impl Num {
    /// Positive zero.
    pub fn zero() -> (r: Num)
        ensures
            r.bits == 0,
    {
        Num { bits: 0 }
    }

    pub fn from_bits(bits: u64) -> (r: Num)
        ensures
            r.bits == bits,
    {
        Num { bits }
    }

    pub fn to_bits(self) -> (r: u64)
        ensures
            r == self.bits,
    {
        self.bits
    }

    pub fn is_nan(self) -> (r: bool)
        ensures
            r == spec_is_nan(self),
    {
        self.bits % SIGN_BIT > INFINITY_BITS
    }

    /// The binary64 comparison `self <= other`.
    pub fn le(self, other: Num) -> (r: bool)
        ensures
            r == spec_le(self, other),
    {
        if self.is_nan() || other.is_nan() {
            return false;
        }
        let ma = self.bits % SIGN_BIT;
        let mb = other.bits % SIGN_BIT;
        let na = self.bits >= SIGN_BIT;
        let nb = other.bits >= SIGN_BIT;
        if na && nb {
            mb <= ma
        } else if na {
            true
        } else if nb {
            ma == 0 && mb == 0
        } else {
            ma <= mb
        }
    }
}

impl Vec2 {
    pub fn new(x: Num, y: Num) -> (r: Vec2)
        ensures
            r.x == x,
            r.y == y,
    {
        Vec2 { x, y }
    }

    /// The zero vector.
    pub fn zero() -> (r: Vec2)
        ensures
            r.x.bits == 0,
            r.y.bits == 0,
    {
        Vec2 { x: Num::zero(), y: Num::zero() }
    }
}

} // verus!
