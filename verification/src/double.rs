//! A double-precision number, held by its bit pattern.
use vstd::prelude::*;

verus! {

/// The bit that carries the sign.
pub const SIGN_BIT: u64 = 0x8000_0000_0000_0000;

/// The encoding of positive infinity, the largest magnitude that is a number.
pub const INFINITY_BITS: u64 = 0x7FF0_0000_0000_0000;

/// The encoding of zero.
pub const ZERO_BITS: u64 = 0;

/// The encoding of one.
pub const ONE_BITS: u64 = 0x3FF0_0000_0000_0000;

/// An IEEE-754 binary64 value as the 64 bits that encode it. `==` on this
/// type compares encodings; `equals` compares as the numbers do.
#[derive(Clone, Copy, Debug, PartialEq, Eq, Structural)]
pub struct Double {
    pub bits: u64,
}

impl Double {
    /// The encoding without its sign bit.
    pub open spec fn magnitude_bits(self) -> u64 {
        if self.bits >= SIGN_BIT {
            (self.bits - SIGN_BIT) as u64
        } else {
            self.bits
        }
    }

    /// Whether the encoding stands for no number at all.
    pub open spec fn is_nan(self) -> bool {
        self.magnitude_bits() > INFINITY_BITS
    }

    /// Where a number stands among the numbers: encodings of one sign are
    /// ordered as their magnitudes are, the negative ones mirrored, and the two
    /// zeros share the place 0.
    pub open spec fn rank(self) -> int {
        if self.bits >= SIGN_BIT {
            -(self.magnitude_bits() as int)
        } else {
            self.bits as int
        }
    }

    /// `self < other` as IEEE-754 compares: false as soon as either side is no
    /// number.
    pub open spec fn below(self, other: Double) -> bool {
        !self.is_nan() && !other.is_nan() && self.rank() < other.rank()
    }

    /// `self <= other` as IEEE-754 compares.
    pub open spec fn at_most(self, other: Double) -> bool {
        !self.is_nan() && !other.is_nan() && self.rank() <= other.rank()
    }

    /// `self == other` as IEEE-754 compares: the two zeros are equal, and
    /// nothing equals a value that is no number.
    pub open spec fn same(self, other: Double) -> bool {
        !self.is_nan() && !other.is_nan() && self.rank() == other.rank()
    }

    /// The value that `bits` encode.
    pub fn from_bits(bits: u64) -> (d: Double)
        ensures
            d.bits == bits,
    {
        Double { bits }
    }

    /// The encoding.
    pub fn to_bits(&self) -> (bits: u64)
        ensures
            bits == self.bits,
    {
        self.bits
    }

    /// The absolute value: the same encoding with the sign cleared.
    pub fn abs(&self) -> (d: Double)
        ensures
            d.bits == self.magnitude_bits(),
            d.is_nan() == self.is_nan(),
            !self.is_nan() ==> d.rank() == if self.rank() < 0 { -self.rank() } else { self.rank() },
    {
        if self.bits >= SIGN_BIT {
            Double { bits: self.bits - SIGN_BIT }
        } else {
            Double { bits: self.bits }
        }
    }

    /// The encoding with its sign turned: the negation, of whatever the
    /// encoding stands for.
    pub open spec fn negated(self) -> Double {
        Double {
            bits: if self.bits >= SIGN_BIT {
                (self.bits - SIGN_BIT) as u64
            } else {
                (self.bits + SIGN_BIT) as u64
            },
        }
    }

    /// The negation: the same encoding with the sign turned.
    pub fn neg(&self) -> (d: Double)
        ensures
            d == self.negated(),
            d.is_nan() == self.is_nan(),
            !self.is_nan() ==> d.rank() == -self.rank(),
    {
        if self.bits >= SIGN_BIT {
            Double { bits: self.bits - SIGN_BIT }
        } else {
            Double { bits: self.bits + SIGN_BIT }
        }
    }

    /// Whether this is no number.
    pub fn nan(&self) -> (r: bool)
        ensures
            r == self.is_nan(),
    {
        self.abs().bits > INFINITY_BITS
    }

    /// The rank moved into the unsigned range, for numbers only.
    fn key(&self) -> (k: u64)
        requires
            !self.is_nan(),
        ensures
            k as int == self.rank() + SIGN_BIT as int,
    {
        if self.bits >= SIGN_BIT {
            SIGN_BIT - (self.bits - SIGN_BIT)
        } else {
            SIGN_BIT + self.bits
        }
    }

    /// `self < other`, as the hardware compares two doubles.
    pub fn lt(&self, other: &Double) -> (r: bool)
        ensures
            r == self.below(*other),
    {
        if self.nan() || other.nan() {
            false
        } else {
            self.key() < other.key()
        }
    }

    /// `self <= other`, as the hardware compares two doubles.
    pub fn le(&self, other: &Double) -> (r: bool)
        ensures
            r == self.at_most(*other),
    {
        if self.nan() || other.nan() {
            false
        } else {
            self.key() <= other.key()
        }
    }

    /// `self == other`, as the hardware compares two doubles.
    pub fn equals(&self, other: &Double) -> (r: bool)
        ensures
            r == self.same(*other),
    {
        if self.nan() || other.nan() {
            false
        } else {
            self.key() == other.key()
        }
    }
}

/// Three numbers: a point, a direction or a colour. `==` on this type
/// compares encodings.
#[derive(Clone, Copy, Debug, PartialEq, Eq, Structural)]
pub struct Vec3 {
    pub x: Double,
    pub y: Double,
    pub z: Double,
}

impl Vec3 {
    /// Every component equals zero as IEEE-754 compares, so a zero of either
    /// sign does.
    pub open spec fn vanishes(self) -> bool {
        let zero = Double { bits: ZERO_BITS };
        self.x.same(zero) && self.y.same(zero) && self.z.same(zero)
    }

    /// The vector turned round: each component negated.
    pub open spec fn negated(self) -> Vec3 {
        Vec3 { x: self.x.negated(), y: self.y.negated(), z: self.z.negated() }
    }

    /// The vector that points the other way.
    pub fn neg(&self) -> (v: Vec3)
        ensures
            v == self.negated(),
    {
        Vec3 { x: self.x.neg(), y: self.y.neg(), z: self.z.neg() }
    }

    /// Whether this is the zero vector.
    pub fn is_zero(&self) -> (r: bool)
        ensures
            r == self.vanishes(),
    {
        let zero = Double::from_bits(ZERO_BITS);
        self.x.equals(&zero) && self.y.equals(&zero) && self.z.equals(&zero)
    }
}

impl Default for Double {
    /// Zero.
    fn default() -> (d: Double)
        ensures
            d.bits == ZERO_BITS,
    {
        Double { bits: ZERO_BITS }
    }
}

impl Default for Vec3 {
    /// The zero vector.
    fn default() -> (v: Vec3)
        ensures
            v.x.bits == ZERO_BITS,
            v.y.bits == ZERO_BITS,
            v.z.bits == ZERO_BITS,
    {
        Vec3 {
            x: Double { bits: ZERO_BITS },
            y: Double { bits: ZERO_BITS },
            z: Double { bits: ZERO_BITS },
        }
    }
}

/// Negating twice gives the encoding back, and the negation of a number
/// stands across zero from it.
pub proof fn law_negation_mirrors(a: Double, b: Double)
    ensures
        a.negated().negated() == a,
        a.below(b) <==> b.negated().below(a.negated()),
        a.same(b) <==> a.negated().same(b.negated()),
{
}

/// Among numbers the order is total: of two of them, one is below the other or
/// they are the same, and only one of the three holds.
pub proof fn law_order_is_total(a: Double, b: Double)
    requires
        !a.is_nan(),
        !b.is_nan(),
    ensures
        a.below(b) || b.below(a) || a.same(b),
        !(a.below(b) && b.below(a)),
        !(a.below(b) && a.same(b)),
        a.at_most(b) <==> a.below(b) || a.same(b),
{
}

/// The order is transitive.
pub proof fn law_order_is_transitive(a: Double, b: Double, c: Double)
    requires
        a.below(b),
        b.at_most(c),
    ensures
        a.below(c),
{
}

/// A value that is no number is below nothing, above nothing and equal to
/// nothing, itself included.
pub proof fn law_nan_is_unordered(a: Double, b: Double)
    requires
        a.is_nan(),
    ensures
        !a.below(b),
        !b.below(a),
        !a.at_most(b),
        !b.at_most(a),
        !a.same(b),
        !a.same(a),
{
}

} // verus!
