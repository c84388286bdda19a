//! Real numbers as the renderer carries them: IEEE-754 binary64 values held by
//! their bit pattern. The library never adds or multiplies them; it orders,
//! negates, selects and truncates them, and these operations are exact on
//! the pattern: what is stated of them here is stated of integers.

use vstd::arithmetic::power2::lemma2_to64;
use vstd::arithmetic::power2::lemma2_to64_rest;
use vstd::arithmetic::power2::lemma_pow2_strictly_increases;
use vstd::arithmetic::power2::lemma_pow2_unfold;
use vstd::arithmetic::power2::pow2;
use vstd::prelude::*;

verus! {

/// The pattern with only the sign bit set.
pub const SIGN_BIT: u64 = 0x8000_0000_0000_0000;

/// The pattern of positive infinity; every larger magnitude is a NaN.
pub const INFINITY_BITS: u64 = 0x7FF0_0000_0000_0000;

/// The pattern of the number one.
pub const ONE_BITS: u64 = 0x3FF0_0000_0000_0000;

/// The pattern of the number two.
pub const TWO_BITS: u64 = 0x4000_0000_0000_0000;

/// The pattern of the number one half.
pub const HALF_BITS: u64 = 0x3FE0_0000_0000_0000;

/// The pattern of the number minus one.
pub const MINUS_ONE_BITS: u64 = 0xBFF0_0000_0000_0000;

/// The pattern of the angle of a full turn, in radians: two times pi.
pub const FULL_TURN_BITS: u64 = 0x4019_21FB_5444_2D18;

/// The pattern of the machine epsilon, two to the power of minus 52.
pub const EPSILON_BITS: u64 = 0x3CB0_0000_0000_0000;

/// The pattern of the binary64 number nearest to one hundred-millionth.
pub const TINY_BITS: u64 = 0x3E45_798E_E230_8C3A;

/// The number of patterns that share one exponent: two to the power of 52.
pub const FRACTION_RANGE: u64 = 0x10_0000_0000_0000;

/// A binary64 value, by its bit pattern.
#[derive(Clone, Copy, Debug)]
pub struct Scalar {
    pub bits: u64,
}

impl Scalar {
    /// Whether the sign bit is set.
    pub open spec fn negative(self) -> bool {
        self.bits >= SIGN_BIT
    }

    /// The pattern without its sign bit.
    pub open spec fn magnitude(self) -> int {
        if self.bits >= SIGN_BIT {
            self.bits - SIGN_BIT
        } else {
            self.bits as int
        }
    }

    /// Whether the pattern encodes no number.
    pub open spec fn nan(self) -> bool {
        self.magnitude() > INFINITY_BITS
    }

    /// Whether the pattern encodes a number that is not infinite.
    pub open spec fn finite(self) -> bool {
        self.magnitude() < INFINITY_BITS
    }

    /// The place of a number on the line: patterns of numbers are ordered as
    /// their ranks are, and the two zeros share rank 0.
    pub open spec fn rank(self) -> int {
        if self.negative() {
            -self.magnitude()
        } else {
            self.magnitude()
        }
    }

    /// The exponent field of the pattern. A number with the field `e`
    /// between 1 and 2046 is `1.f` times two to the power of `e - 1023`,
    /// where `f` is the fraction field.
    pub open spec fn exponent(self) -> int {
        self.magnitude() / (FRACTION_RANGE as int)
    }

    /// The fraction field of the pattern.
    pub open spec fn fraction(self) -> int {
        self.magnitude() % (FRACTION_RANGE as int)
    }

    /// The whole part of a finite number that is at least one: its 53
    /// significant bits, less those behind the binary point, or with as
    /// many noughts behind them as the exponent asks for.
    pub open spec fn whole_part(self) -> int {
        if self.exponent() <= 1075 {
            (FRACTION_RANGE + self.fraction()) / (pow2((1075 - self.exponent()) as nat) as int)
        } else {
            (FRACTION_RANGE + self.fraction()) * pow2((self.exponent() - 1075) as nat)
        }
    }

    /// The count that a number is cut down to: its whole part, but 0 for
    /// every number below one and for what is no number, and `usize::MAX`
    /// for every number above it.
    pub open spec fn truncated(self) -> usize {
        if self.nan() || self.lt(Scalar { bits: ONE_BITS }) {
            0usize
        } else if !self.finite() || self.whole_part() > usize::MAX {
            usize::MAX
        } else {
            self.whole_part() as usize
        }
    }

    /// `self < other` as the numbers compare; false when either is a NaN.
    pub open spec fn lt(self, other: Scalar) -> bool {
        !self.nan() && !other.nan() && self.rank() < other.rank()
    }

    /// `self <= other` as the numbers compare; false when either is a NaN.
    pub open spec fn le(self, other: Scalar) -> bool {
        !self.nan() && !other.nan() && self.rank() <= other.rank()
    }

    /// `self == other` as the numbers compare: a NaN equals nothing, not even
    /// itself, and the two zeros are equal.
    pub open spec fn same(self, other: Scalar) -> bool {
        !self.nan() && !other.nan() && self.rank() == other.rank()
    }

    /// `lo < self < hi`: membership in the open interval.
    pub open spec fn strictly_between(self, lo: Scalar, hi: Scalar) -> bool {
        lo.lt(self) && self.lt(hi)
    }

    /// The pattern with the sign bit flipped.
    pub open spec fn negated(self) -> Scalar {
        if self.bits >= SIGN_BIT {
            Scalar { bits: (self.bits - SIGN_BIT) as u64 }
        } else {
            Scalar { bits: (self.bits + SIGN_BIT) as u64 }
        }
    }

    /// The pattern with the sign bit cleared.
    pub open spec fn absolute(self) -> Scalar {
        if self.bits >= SIGN_BIT {
            Scalar { bits: (self.bits - SIGN_BIT) as u64 }
        } else {
            self
        }
    }

    /// The number with the given pattern.
    pub fn from_bits(bits: u64) -> (r: Scalar)
        ensures
            r.bits == bits,
    {
        Scalar { bits }
    }

    /// The pattern of the number.
    pub fn to_bits(&self) -> (r: u64)
        ensures
            r == self.bits,
    {
        self.bits
    }

    /// Positive zero.
    pub fn zero() -> (r: Scalar)
        ensures
            r.bits == 0,
    {
        Scalar { bits: 0 }
    }

    /// The number one.
    pub fn one() -> (r: Scalar)
        ensures
            r.bits == ONE_BITS,
    {
        Scalar { bits: ONE_BITS }
    }

    /// The number two.
    pub fn two() -> (r: Scalar)
        ensures
            r.bits == TWO_BITS,
    {
        Scalar { bits: TWO_BITS }
    }

    /// The number one half.
    pub fn half() -> (r: Scalar)
        ensures
            r.bits == HALF_BITS,
    {
        Scalar { bits: HALF_BITS }
    }

    /// The number minus one.
    pub fn minus_one() -> (r: Scalar)
        ensures
            r.bits == MINUS_ONE_BITS,
    {
        Scalar { bits: MINUS_ONE_BITS }
    }

    /// The angle of a full turn, in radians.
    pub fn full_turn() -> (r: Scalar)
        ensures
            r.bits == FULL_TURN_BITS,
    {
        Scalar { bits: FULL_TURN_BITS }
    }

    /// The machine epsilon.
    pub fn epsilon() -> (r: Scalar)
        ensures
            r.bits == EPSILON_BITS,
    {
        Scalar { bits: EPSILON_BITS }
    }

    /// Positive infinity.
    pub fn infinity() -> (r: Scalar)
        ensures
            r.bits == INFINITY_BITS,
    {
        Scalar { bits: INFINITY_BITS }
    }

    /// The threshold under which a component counts as vanished.
    pub fn tiny() -> (r: Scalar)
        ensures
            r.bits == TINY_BITS,
    {
        Scalar { bits: TINY_BITS }
    }

    /// Whether this is no number.
    pub fn is_nan(&self) -> (r: bool)
        ensures
            r == self.nan(),
    {
        if self.bits >= SIGN_BIT {
            self.bits - SIGN_BIT > INFINITY_BITS
        } else {
            self.bits > INFINITY_BITS
        }
    }

    /// The rank as a machine integer.
    fn key(&self) -> (k: i128)
        ensures
            k == self.rank(),
    {
        if self.bits >= SIGN_BIT {
            let m: u64 = self.bits - SIGN_BIT;
            -(m as i128)
        } else {
            self.bits as i128
        }
    }

    /// `self < other`; false when either is a NaN.
    pub fn is_lt(&self, other: &Scalar) -> (r: bool)
        ensures
            r == self.lt(*other),
    {
        !self.is_nan() && !other.is_nan() && self.key() < other.key()
    }

    /// `self <= other`; false when either is a NaN.
    pub fn is_le(&self, other: &Scalar) -> (r: bool)
        ensures
            r == self.le(*other),
    {
        !self.is_nan() && !other.is_nan() && self.key() <= other.key()
    }

    /// `self > other`; false when either is a NaN.
    pub fn is_gt(&self, other: &Scalar) -> (r: bool)
        ensures
            r == other.lt(*self),
    {
        other.is_lt(self)
    }

    /// `self >= other`; false when either is a NaN.
    pub fn is_ge(&self, other: &Scalar) -> (r: bool)
        ensures
            r == other.le(*self),
    {
        other.is_le(self)
    }

    /// `self == other` as the numbers compare; false when either is a NaN.
    pub fn is_same(&self, other: &Scalar) -> (r: bool)
        ensures
            r == self.same(*other),
    {
        !self.is_nan() && !other.is_nan() && self.key() == other.key()
    }

    /// `lo < self < hi`; false when one of the three is a NaN.
    pub fn is_strictly_between(&self, lo: &Scalar, hi: &Scalar) -> (r: bool)
        ensures
            r == self.strictly_between(*lo, *hi),
    {
        lo.is_lt(self) && self.is_lt(hi)
    }

    /// Cuts the number down to a count: what is behind the point is
    /// dropped, what lies below nought is nought, and what lies above the
    /// greatest count is the greatest count.
    pub fn to_usize(&self) -> (r: usize)
        ensures
            r == self.truncated(),
    {
        if self.is_nan() || self.is_lt(&Scalar::one()) {
            return 0;
        }
        let exponent: u64 = self.bits / FRACTION_RANGE;
        let fraction: u64 = self.bits % FRACTION_RANGE;
        let significand: u64 = FRACTION_RANGE + fraction;
        if exponent >= 1087 {
            proof {
                if self.finite() {
                    let shift = (exponent - 1075) as nat;
                    lemma2_to64();
                    if shift > 12 {
                        lemma_pow2_strictly_increases(12, shift);
                    }
                    assert(significand * pow2(shift) >= 0x10_0000_0000_0000 * 4096)
                        by (nonlinear_arith)
                        requires
                            significand >= 0x10_0000_0000_0000,
                            pow2(shift) >= 4096,
                    ;
                }
            }
            return usize::MAX;
        }
        let whole: u128 = if exponent <= 1075 {
            (significand / power_of_two(1075 - exponent)) as u128
        } else {
            let factor: u64 = power_of_two(exponent - 1075);
            assert(significand * factor <= 0x20_0000_0000_0000 * 0x10_0000_0000_0000)
                by (nonlinear_arith)
                requires
                    0 <= significand <= 0x20_0000_0000_0000,
                    0 <= factor <= 0x10_0000_0000_0000,
            ;
            (significand as u128) * (factor as u128)
        };
        if whole > usize::MAX as u128 {
            usize::MAX
        } else {
            whole as usize
        }
    }

    /// The number with the opposite sign.
    pub fn neg(&self) -> (r: Scalar)
        ensures
            r == self.negated(),
            r.nan() == self.nan(),
            r.rank() == -self.rank(),
    {
        if self.bits >= SIGN_BIT {
            Scalar { bits: self.bits - SIGN_BIT }
        } else {
            Scalar { bits: self.bits + SIGN_BIT }
        }
    }

    /// The number without its sign.
    pub fn abs(&self) -> (r: Scalar)
        ensures
            r == self.absolute(),
            r.nan() == self.nan(),
            r.rank() == self.magnitude(),
    {
        if self.bits >= SIGN_BIT {
            Scalar { bits: self.bits - SIGN_BIT }
        } else {
            *self
        }
    }
}

/// Two to the power of `e`, for the powers by which a significand is
/// divided or multiplied.
pub fn power_of_two(e: u64) -> (r: u64)
    requires
        e <= 52,
    ensures
        r == pow2(e as nat),
        1 <= r <= 0x10_0000_0000_0000,
{
    let mut r: u64 = 1;
    let mut k: u64 = 0;
    proof {
        lemma2_to64();
        lemma2_to64_rest();
    }
    while k < e
        invariant
            k <= e <= 52,
            r == pow2(k as nat),
            1 <= r <= 0x10_0000_0000_0000,
            pow2(52) == 0x10_0000_0000_0000,
        decreases e - k,
    {
        proof {
            lemma_pow2_unfold((k + 1) as nat);
            if k + 1 < 52 {
                lemma_pow2_strictly_increases((k + 1) as nat, 52);
            }
        }
        r = r * 2;
        k = k + 1;
    }
    r
}

/// Of two numbers exactly one of `a < b`, `a == b`, `b < a` holds; with a NaN
/// none does.
pub proof fn order_is_total_on_numbers(a: Scalar, b: Scalar)
    ensures
        !a.nan() && !b.nan() ==> (a.lt(b) || a.same(b) || b.lt(a)),
        !(a.lt(b) && b.lt(a)),
        !(a.lt(b) && a.same(b)),
        a.nan() || b.nan() ==> !a.lt(b) && !a.same(b) && !b.lt(a) && !a.le(b),
        a.le(b) <==> a.lt(b) || a.same(b),
{
}

/// `<` is transitive, also through `<=`.
pub proof fn order_is_transitive(a: Scalar, b: Scalar, c: Scalar)
    ensures
        a.lt(b) && b.lt(c) ==> a.lt(c),
        a.le(b) && b.lt(c) ==> a.lt(c),
        a.lt(b) && b.le(c) ==> a.lt(c),
        a.le(b) && b.le(c) ==> a.le(c),
{
}

/// Negation turns the order round, and twice is the identity.
pub proof fn negation_reverses_order(a: Scalar, b: Scalar)
    ensures
        a.lt(b) <==> b.negated().lt(a.negated()),
        a.negated().negated() == a,
{
}

} // verus!
