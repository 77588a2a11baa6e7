//! Single-precision quantities, held by their IEEE 754 bit patterns.
//!
//! Every finite single-precision number is a whole multiple of 2^-149, so the
//! model of a bit pattern is an integer count of such units, an infinity, or
//! no number at all. Classification and ordering are decided on the bit
//! patterns and proved to agree with that model.

use vstd::arithmetic::mul::*;
use vstd::arithmetic::power2::*;
use vstd::prelude::*;

verus! {

/// The bit that carries the sign.
pub const SIGN_BIT: u32 = 0x8000_0000;

/// The magnitude bits of an infinity; larger magnitudes are not numbers.
pub const INFINITY_BITS: u32 = 0x7f80_0000;

/// The number of magnitude bits that hold the fraction, as a power of two.
pub const FRACTION_SPAN: u32 = 0x80_0000;

/// What a bit pattern denotes.
pub enum Quantity {
    /// Not a number.
    Nan,
    /// Below every number.
    NegInfinity,
    /// A number, counted in units of 2^-149.
    Number(int),
    /// Above every number.
    PosInfinity,
}

impl Quantity {
    /// Whether `self` is strictly below `other`; never so when either is not
    /// a number.
    pub open spec fn lt(self, other: Quantity) -> bool {
        match (self, other) {
            (Quantity::Nan, _) => false,
            (_, Quantity::Nan) => false,
            (_, Quantity::NegInfinity) => false,
            (Quantity::NegInfinity, _) => true,
            (Quantity::PosInfinity, _) => false,
            (_, Quantity::PosInfinity) => true,
            (Quantity::Number(a), Quantity::Number(b)) => a < b,
        }
    }

    /// Whether `self` is at most `other`; never so when either is not a
    /// number.
    pub open spec fn le(self, other: Quantity) -> bool {
        self != Quantity::Nan && other != Quantity::Nan && !other.lt(self)
    }

    /// Whether `self` is a number above zero.
    pub open spec fn is_finite_positive(self) -> bool {
        self matches Quantity::Number(n) && n > 0
    }

    /// The quantity of the same size on the other side of zero.
    pub open spec fn neg(self) -> Quantity {
        match self {
            Quantity::Nan => Quantity::Nan,
            Quantity::NegInfinity => Quantity::PosInfinity,
            Quantity::PosInfinity => Quantity::NegInfinity,
            Quantity::Number(n) => Quantity::Number(-n),
        }
    }

    /// The count of units in a number, and zero for what is none.
    pub open spec fn units(self) -> int {
        match self {
            Quantity::Number(n) => n,
            _ => 0,
        }
    }
}

/// The count of 2^-149 units in one.
pub open spec fn unit() -> int {
    pow2(149) as int
}

/// The whole number `n`.
pub open spec fn whole(n: int) -> Quantity {
    Quantity::Number(n * unit())
}

/// The count of 2^-149 units that the magnitude bits `m` of a finite
/// quantity stand for.
pub open spec fn units_of(m: nat) -> nat {
    let exponent = m / (FRACTION_SPAN as nat);
    let fraction = m % (FRACTION_SPAN as nat);
    if exponent == 0 {
        fraction
    } else {
        (FRACTION_SPAN as nat + fraction) * pow2((exponent - 1) as nat)
    }
}

/// Larger magnitude bits stand for more units.
pub proof fn lemma_units_increase(a: nat, b: nat)
    requires
        a < b,
    ensures
        units_of(a) < units_of(b),
{
    let span = FRACTION_SPAN as nat;
    let ea = a / span;
    let fa = a % span;
    let eb = b / span;
    let fb = b % span;
    assert(a == span * ea + fa && b == span * eb + fb);
    assert(ea <= eb);
    if ea == eb {
        if ea > 0 {
            lemma_pow2_pos((ea - 1) as nat);
            lemma_mul_strict_inequality(
                (span + fa) as int,
                (span + fb) as int,
                pow2((ea - 1) as nat) as int,
            );
        }
    } else {
        let pb = pow2((eb - 1) as nat);
        lemma_pow2_pos((eb - 1) as nat);
        assert(span * pb <= (span + fb) * pb) by {
            lemma_mul_inequality(span as int, (span + fb) as int, pb as int);
        }
        if ea == 0 {
            assert(span * 1 <= span * pb) by {
                lemma_mul_left_inequality(span as int, 1, pb as int);
            }
        } else {
            let pa = pow2((ea - 1) as nat);
            lemma_pow2_pos((ea - 1) as nat);
            assert((span + fa) * pa < (2 * span) * pa) by {
                lemma_mul_strict_inequality((span + fa) as int, (2 * span) as int, pa as int);
            }
            assert((2 * span) * pa == span * (2 * pa)) by {
                lemma_mul_is_associative(span as int, 2, pa as int);
                lemma_mul_is_commutative(2, span as int);
            }
            assert(2 * pa == pow2(ea)) by {
                lemma_pow2_unfold(ea);
            }
            assert(pow2(ea) <= pb) by {
                if ea < eb - 1 {
                    lemma_pow2_strictly_increases(ea, (eb - 1) as nat);
                }
            }
            assert(span * pow2(ea) <= span * pb) by {
                lemma_mul_left_inequality(span as int, pow2(ea) as int, pb as int);
            }
        }
    }
}

/// A single-precision quantity, identified by its bit pattern.
///
/// Two values are equal when their bit patterns are: equality tells zero
/// from negative zero, and holds between a pattern that is not a number and
/// itself.
#[derive(Clone, Copy, Debug, PartialEq, Eq, Structural)]
pub struct Scalar {
    pub bits: u32,
}

impl View for Scalar {
    type V = Quantity;

    open spec fn view(&self) -> Quantity {
        let m = self.magnitude_bits();
        if m > INFINITY_BITS {
            Quantity::Nan
        } else if m == INFINITY_BITS {
            if self.is_sign_negative() {
                Quantity::NegInfinity
            } else {
                Quantity::PosInfinity
            }
        } else if self.is_sign_negative() {
            Quantity::Number(-(units_of(m) as int))
        } else {
            Quantity::Number(units_of(m) as int)
        }
    }
}

impl Scalar {
    /// Whether the sign bit is set.
    pub open spec fn is_sign_negative(self) -> bool {
        self.bits >= SIGN_BIT
    }

    /// The bit pattern without its sign bit.
    pub open spec fn magnitude_bits(self) -> nat {
        if self.bits >= SIGN_BIT {
            (self.bits - SIGN_BIT) as nat
        } else {
            self.bits as nat
        }
    }

    /// The quantity with the given bit pattern.
    pub fn from_bits(bits: u32) -> (s: Scalar)
        ensures
            s.bits == bits,
    {
        Scalar { bits }
    }

    /// The bit pattern of this quantity.
    pub fn to_bits(self) -> (bits: u32)
        ensures
            bits == self.bits,
    {
        self.bits
    }

    /// Zero, with a clear sign bit.
    pub fn zero() -> (s: Scalar)
        ensures
            s.bits == 0,
            s@ == whole(0),
    {
        Scalar { bits: 0 }
    }

    /// One.
    pub fn one() -> (s: Scalar)
        ensures
            s.bits == 0x3f80_0000,
            s@ == whole(1),
    {
        proof {
            lemma_wholes();
        }
        Scalar { bits: 0x3f80_0000 }
    }

    fn magnitude(self) -> (m: u32)
        ensures
            m == self.magnitude_bits(),
    {
        if self.bits >= SIGN_BIT {
            self.bits - SIGN_BIT
        } else {
            self.bits
        }
    }

    /// Whether this is not a number.
    pub fn is_nan(self) -> (r: bool)
        ensures
            r == (self@ == Quantity::Nan),
    {
        self.magnitude() > INFINITY_BITS
    }

    /// Whether this is a number: neither an infinity nor not a number.
    pub fn is_finite(self) -> (r: bool)
        ensures
            r == (self@ is Number),
    {
        self.magnitude() < INFINITY_BITS
    }

    /// The same magnitude bits under the opposite sign bit.
    pub open spec fn spec_neg(self) -> Scalar {
        if self.bits >= SIGN_BIT {
            Scalar { bits: (self.bits - SIGN_BIT) as u32 }
        } else {
            Scalar { bits: (self.bits + SIGN_BIT) as u32 }
        }
    }

    /// The same magnitude with the opposite sign. A pattern that is not a
    /// number stays none.
    pub fn neg(self) -> (r: Scalar)
        ensures
            r == self.spec_neg(),
            r@ == self@.neg(),
    {
        if self.bits >= SIGN_BIT {
            Scalar { bits: self.bits - SIGN_BIT }
        } else {
            Scalar { bits: self.bits + SIGN_BIT }
        }
    }

    /// Whether `self` is strictly below `other`, as numbers are ordered:
    /// never so when either is not a number, and zero is not below negative
    /// zero.
    pub fn lt(self, other: Scalar) -> (r: bool)
        ensures
            r == self@.lt(other@),
    {
        let a: u32 = self.magnitude();
        let b: u32 = other.magnitude();
        if a > INFINITY_BITS || b > INFINITY_BITS {
            return false;
        }
        proof {
            lemma_order_of_magnitudes(a as nat, b as nat);
            lemma_order_of_magnitudes(b as nat, a as nat);
            lemma_order_of_magnitudes(0, a as nat);
            lemma_order_of_magnitudes(0, b as nat);
        }
        if self.bits >= SIGN_BIT {
            if other.bits >= SIGN_BIT {
                b < a
            } else {
                a > 0 || b > 0
            }
        } else {
            if other.bits >= SIGN_BIT {
                false
            } else {
                a < b
            }
        }
    }

    /// Whether `self` is at most `other`, as numbers are ordered: never so
    /// when either is not a number.
    pub fn le(self, other: Scalar) -> (r: bool)
        ensures
            r == self@.le(other@),
    {
        if self.is_nan() || other.is_nan() {
            false
        } else {
            !other.lt(self)
        }
    }

    /// Whether this is above zero; an infinity may be.
    pub fn is_positive(self) -> (r: bool)
        ensures
            r == whole(0).lt(self@),
    {
        Scalar::zero().lt(self)
    }

    /// Whether this is below zero; an infinity may be.
    pub fn is_negative(self) -> (r: bool)
        ensures
            r == self@.lt(whole(0)),
    {
        self.lt(Scalar::zero())
    }

    /// Whether this is a number above zero.
    pub fn is_finite_positive(self) -> (r: bool)
        ensures
            r == self@.is_finite_positive(),
    {
        self.is_finite() && self.is_positive()
    }
}

/// Among magnitude bits up to those of an infinity, the order of the bits is
/// the order of the units they stand for, and only zero stands for none.
proof fn lemma_order_of_magnitudes(a: nat, b: nat)
    ensures
        a < b ==> units_of(a) < units_of(b),
        a == b ==> units_of(a) == units_of(b),
        units_of(0) == 0,
{
    if a < b {
        lemma_units_increase(a, b);
    }
}

/// Flipping the sign bit negates what the bit pattern stands for.
pub proof fn lemma_neg(s: Scalar)
    ensures
        s.spec_neg()@ == s@.neg(),
        s.spec_neg().spec_neg() == s,
{
}

/// One is made of units: there is at least one unit in it.
pub proof fn lemma_unit_positive()
    ensures
        unit() > 0,
{
    lemma_pow2_pos(149);
}

/// The bit patterns of the whole numbers that the library names.
pub proof fn lemma_wholes()
    ensures
        (Scalar { bits: 0 })@ == whole(0),
        (Scalar { bits: 0x3f80_0000 })@ == whole(1),
        (Scalar { bits: 0x4000_0000 })@ == whole(2),
        (Scalar { bits: 0x40a0_0000 })@ == whole(5),
        (Scalar { bits: 0x41a0_0000 })@ == whole(20),
        (Scalar { bits: 0xbf80_0000 })@ == whole(-1),
        (Scalar { bits: 0xc0a0_0000 })@ == whole(-5),
{
    lemma2_to64();
    lemma_pow2_adds(23, 126);
    lemma_pow2_adds(1, 149);
    lemma_pow2_adds(23, 127);
    lemma_pow2_adds(21, 128);
    lemma_pow2_adds(21, 130);
    lemma_pow2_adds(2, 149);
    assert(0x3f80_0000nat / 0x80_0000 == 127 && 0x3f80_0000nat % 0x80_0000 == 0);
    assert(0x4000_0000nat / 0x80_0000 == 128 && 0x4000_0000nat % 0x80_0000 == 0);
    assert(0x40a0_0000nat / 0x80_0000 == 129 && 0x40a0_0000nat % 0x80_0000 == 0x20_0000);
    assert(0x41a0_0000nat / 0x80_0000 == 131 && 0x41a0_0000nat % 0x80_0000 == 0x20_0000);
    assert(pow2(149) == 0x20_0000 * pow2(128));
    assert(pow2(151) == 0x20_0000 * pow2(130));
    assert(pow2(151) == 4 * pow2(149));
    assert(units_of(0x40a0_0000) == 0xa0_0000 * pow2(128));
    assert(units_of(0x41a0_0000) == 0xa0_0000 * pow2(130));
}

} // verus!
