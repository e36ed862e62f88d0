//! The values that an input or output gate can hold.

use vstd::arithmetic::power2::{
    lemma_pow2_pos, lemma_pow2_strictly_increases, lemma_pow2_unfold, pow2,
};
use vstd::prelude::*;
use vstd::std_specs::cmp::PartialEqSpecImpl;
use vstd::std_specs::convert::FromSpecImpl;

verus! {

/// The bit that separates the sign from the magnitude of a binary64 number.
pub const SIGN_BIT: u64 = 0x8000_0000_0000_0000;

/// The magnitude of an infinity; every larger magnitude is not a number.
pub const INFINITY_BITS: u64 = 0x7ff0_0000_0000_0000;

/// How many fractions there are to each exponent: two to the power of 52,
/// the width of the fraction field.
pub const FRACTIONS: u64 = 0x10_0000_0000_0000;

/// A continuous quantity, held as the bit pattern of an IEEE 754 binary64
/// number (what `f64::to_bits` returns): a sign bit, eleven bits of
/// exponent, 52 bits of fraction.
///
/// The library never does arithmetic on decimals; it only compares them, and
/// comparison needs nothing but the bit pattern.
#[derive(Clone, Copy, Debug)]
pub struct Decimal {
    pub bits: u64,
}

impl Decimal {
    /// Whether the sign bit is set.
    pub open spec fn is_negative(&self) -> bool {
        self.bits >= SIGN_BIT
    }

    /// The bit pattern without its sign bit.
    pub open spec fn magnitude(&self) -> int {
        if self.bits >= SIGN_BIT {
            self.bits - SIGN_BIT
        } else {
            self.bits as int
        }
    }

    /// The exponent field, from 0 to 2047.
    pub open spec fn exponent(&self) -> int {
        self.magnitude() / (FRACTIONS as int)
    }

    /// The fraction field.
    pub open spec fn fraction(&self) -> int {
        self.magnitude() % (FRACTIONS as int)
    }

    /// Whether the pattern stands for no number at all: the exponent is the
    /// largest there is, and the fraction is not zero.
    pub open spec fn spec_is_nan(&self) -> bool {
        self.exponent() == 2047 && self.fraction() != 0
    }

    /// The size of the number without regard to its sign, counted in units
    /// of the smallest positive number there is, two to the power of -1074;
    /// counted so, every number is whole.
    ///
    /// With exponent 0 the number is its fraction in these units. With any
    /// other exponent `e` it is `(FRACTIONS + fraction) * 2^(e - 1)` units.
    /// An infinity is given the size that this rule gives it, which is above
    /// every finite size. Meaningless for a pattern that is not a number.
    pub open spec fn size(&self) -> int {
        if self.exponent() == 0 {
            self.fraction()
        } else {
            (FRACTIONS + self.fraction()) * pow2((self.exponent() - 1) as nat)
        }
    }

    /// The number itself in the units of `size`: the size, below zero where
    /// the sign bit is set. Both zeros are 0.
    pub open spec fn scaled(&self) -> int {
        if self.is_negative() {
            -self.size()
        } else {
            self.size()
        }
    }

    /// Whether both are numbers and `self` is the smaller one.
    pub open spec fn spec_lt(&self, other: &Decimal) -> bool {
        !self.spec_is_nan() && !other.spec_is_nan() && self.scaled() < other.scaled()
    }

    /// Whether both are numbers and they are the same number. Something that
    /// is not a number is not even the same as itself, and the two zeros are
    /// the same number.
    pub open spec fn same(&self, other: &Decimal) -> bool {
        !self.spec_is_nan() && !other.spec_is_nan() && self.scaled() == other.scaled()
    }

    /// The decimal with the given bit pattern.
    pub fn from_bits(bits: u64) -> (d: Decimal)
        ensures
            d.bits == bits,
    {
        Decimal { bits }
    }

    /// The bit pattern of this decimal.
    pub fn to_bits(self) -> (bits: u64)
        ensures
            bits == self.bits,
    {
        self.bits
    }

    /// Whether the pattern stands for no number at all.
    #[verifier::when_used_as_spec(spec_is_nan)]
    pub fn is_nan(&self) -> (b: bool)
        ensures
            b == self.spec_is_nan(),
    {
        let magnitude: u64 = if self.bits >= SIGN_BIT {
            self.bits - SIGN_BIT
        } else {
            self.bits
        };
        magnitude > INFINITY_BITS
    }

    /// Whether both are numbers and `self` is the smaller one.
    #[verifier::when_used_as_spec(spec_lt)]
    pub fn lt(&self, other: &Decimal) -> (b: bool)
        ensures
            b == self.spec_lt(other),
    {
        if self.is_nan() || other.is_nan() {
            return false;
        }
        proof {
            lemma_size_follows_magnitude(*self, *other);
            lemma_size_follows_magnitude(*other, *self);
        }
        let left_negative = self.bits >= SIGN_BIT;
        let right_negative = other.bits >= SIGN_BIT;
        if left_negative {
            if right_negative {
                self.bits > other.bits
            } else {
                // A negative number is below every non-negative one, except
                // that the negative zero is no smaller than the positive.
                self.bits > SIGN_BIT || other.bits > 0
            }
        } else {
            !right_negative && self.bits < other.bits
        }
    }
}

/// Of two patterns the one with the larger magnitude stands for the number
/// of the larger size, and only magnitude 0 has size 0: size grows with the
/// fraction within one exponent and from each exponent to the next.
pub proof fn lemma_size_follows_magnitude(a: Decimal, b: Decimal)
    ensures
        a.size() >= 0,
        a.magnitude() == 0 <==> a.size() == 0,
        a.magnitude() < b.magnitude() <==> a.size() < b.size(),
        a.magnitude() == b.magnitude() <==> a.size() == b.size(),
{
    lemma_size_grows(a, b);
    lemma_size_grows(b, a);
    lemma_size_grows(Decimal { bits: 0 }, a);
}

/// A larger magnitude has a larger size.
proof fn lemma_size_grows(a: Decimal, b: Decimal)
    ensures
        a.magnitude() < b.magnitude() ==> 0 <= a.size() < b.size(),
{
    if a.magnitude() < b.magnitude() {
        let r = FRACTIONS as int;
        let (ea, fa) = (a.exponent(), a.fraction());
        let (eb, fb) = (b.exponent(), b.fraction());
        assert(0 <= ea <= eb && 0 <= fa < r && 0 <= fb < r);
        if ea == 0 {
            if eb > 0 {
                let p = pow2((eb - 1) as nat) as int;
                lemma_pow2_pos((eb - 1) as nat);
                assert(r <= (r + fb) * p) by (nonlinear_arith)
                    requires
                        p >= 1,
                        fb >= 0,
                        r >= 0,
                ;
            }
        } else {
            let pa = pow2((ea - 1) as nat) as int;
            let pb = pow2((eb - 1) as nat) as int;
            lemma_pow2_pos((ea - 1) as nat);
            if ea == eb {
                assert((r + fa) * pa < (r + fb) * pa) by (nonlinear_arith)
                    requires
                        pa >= 1,
                        fa < fb,
                ;
            } else {
                lemma_pow2_unfold(ea as nat);
                if ea < eb - 1 {
                    lemma_pow2_strictly_increases(ea as nat, (eb - 1) as nat);
                }
                assert(2 * pa <= pb);
                assert((r + fa) * pa < (r + fb) * pb) by (nonlinear_arith)
                    requires
                        pa >= 1,
                        2 * pa <= pb,
                        0 <= fa < r,
                        0 <= fb,
                ;
            }
            assert(0 <= (r + fa) * pa) by (nonlinear_arith)
                requires
                    pa >= 1,
                    fa >= 0,
                    r >= 0,
            ;
        }
    }
}

impl PartialEq for Decimal {
    /// Numeric equality, as binary64 defines it.
    fn eq(&self, other: &Decimal) -> (r: bool) {
        if self.is_nan() || other.is_nan() {
            return false;
        }
        proof {
            lemma_size_follows_magnitude(*self, *other);
            lemma_size_follows_magnitude(*other, *self);
        }
        let left_zero = self.bits == 0 || self.bits == SIGN_BIT;
        let right_zero = other.bits == 0 || other.bits == SIGN_BIT;
        if left_zero || right_zero {
            left_zero && right_zero
        } else {
            self.bits == other.bits
        }
    }
}

impl PartialEqSpecImpl for Decimal {
    open spec fn obeys_eq_spec() -> bool {
        true
    }

    open spec fn eq_spec(&self, other: &Decimal) -> bool {
        self.same(other)
    }
}

/// What an input or output gate can hold.
#[derive(Clone, Copy, Debug)]
pub enum Value {
    /// The state of a digital gate.
    Bit(bool),
    /// The reading or setting of an analog gate.
    Decimal(Decimal),
}

impl Value {
    /// Whether the two values are of one kind and `self` is the smaller:
    /// `false` before `true`, decimals by their number. Values of different
    /// kinds are not ordered.
    pub open spec fn spec_lt(&self, other: &Value) -> bool {
        match (*self, *other) {
            (Value::Bit(a), Value::Bit(b)) => !a && b,
            (Value::Decimal(a), Value::Decimal(b)) => a.spec_lt(&b),
            _ => false,
        }
    }

    /// Whether the two values are of one kind and equal in it. Values of
    /// different kinds are never the same.
    pub open spec fn same(&self, other: &Value) -> bool {
        match (*self, *other) {
            (Value::Bit(a), Value::Bit(b)) => a == b,
            (Value::Decimal(a), Value::Decimal(b)) => a.same(&b),
            _ => false,
        }
    }

    /// Whether the two values can be compared: they are of one kind, and
    /// where that kind is decimal, both are numbers.
    pub open spec fn comparable(&self, other: &Value) -> bool {
        match (*self, *other) {
            (Value::Bit(_), Value::Bit(_)) => true,
            (Value::Decimal(a), Value::Decimal(b)) => !a.spec_is_nan() && !b.spec_is_nan(),
            _ => false,
        }
    }

    /// Whether the two values are of one kind and `self` is the smaller.
    #[verifier::when_used_as_spec(spec_lt)]
    pub fn lt(&self, other: &Value) -> (b: bool)
        ensures
            b == self.spec_lt(other),
    {
        match (self, other) {
            (Value::Bit(a), Value::Bit(b)) => !*a && *b,
            (Value::Decimal(a), Value::Decimal(b)) => a.lt(b),
            _ => false,
        }
    }
}

impl PartialEq for Value {
    /// Equality within one kind; values of different kinds are unequal.
    fn eq(&self, other: &Value) -> (r: bool) {
        match (self, other) {
            (Value::Bit(a), Value::Bit(b)) => *a == *b,
            (Value::Decimal(a), Value::Decimal(b)) => a == b,
            _ => false,
        }
    }
}

impl PartialEqSpecImpl for Value {
    open spec fn obeys_eq_spec() -> bool {
        true
    }

    open spec fn eq_spec(&self, other: &Value) -> bool {
        self.same(other)
    }
}

impl From<bool> for Value {
    fn from(bit: bool) -> (v: Value) {
        Value::Bit(bit)
    }
}

impl FromSpecImpl<bool> for Value {
    open spec fn obeys_from_spec() -> bool {
        true
    }

    open spec fn from_spec(bit: bool) -> Value {
        Value::Bit(bit)
    }
}

impl From<Decimal> for Value {
    fn from(decimal: Decimal) -> (v: Value) {
        Value::Decimal(decimal)
    }
}

impl FromSpecImpl<Decimal> for Value {
    open spec fn obeys_from_spec() -> bool {
        true
    }

    open spec fn from_spec(decimal: Decimal) -> Value {
        Value::Decimal(decimal)
    }
}

/// Values that can be compared are in a strict total order: of two of them
/// one is the smaller or they are the same, never both, and the order is
/// transitive. Values that cannot be compared stand in none of these
/// relations.
pub proof fn lemma_value_order(a: Value, b: Value, c: Value)
    ensures
        !(a.spec_lt(&b) && b.spec_lt(&a)),
        !(a.spec_lt(&b) && a.same(&b)),
        a.same(&b) == b.same(&a),
        a.spec_lt(&b) && b.spec_lt(&c) ==> a.spec_lt(&c),
        a.same(&b) && b.same(&c) ==> a.same(&c),
        a.same(&b) && b.spec_lt(&c) ==> a.spec_lt(&c),
        a.spec_lt(&b) && b.same(&c) ==> a.spec_lt(&c),
        a.comparable(&b) <==> a.spec_lt(&b) || a.same(&b) || b.spec_lt(&a),
{
}

} // verus!
