//! IEEE-754 double-precision numbers as bit patterns.
//!
//! A `Float` carries the sixty-four bits of a double. Ordering, sign and
//! classification are decided on the bits; arithmetic is not offered.

use vstd::prelude::*;
use vstd::arithmetic::power2::{lemma2_to64, lemma2_to64_rest, lemma_pow2_adds, lemma_pow2_strictly_increases, lemma_pow2_unfold, pow2};

verus! {

/// The sign bit of a double.
pub const SIGN_BIT: u64 = 0x8000_0000_0000_0000;

/// The bits of positive infinity: every exponent bit set, no fraction bit.
pub const INFINITY_BITS: u64 = 0x7ff0_0000_0000_0000;

/// The weight of the lowest exponent bit, two to the fifty-second.
pub const FRACTION_RANGE: u64 = 0x0010_0000_0000_0000;

/// A double-precision number, held as its bit pattern.
#[derive(Clone, Copy, Debug, PartialEq, Eq, Structural)]
pub struct Float {
    pub bits: u64,
}

impl Float {
    /// True when the sign bit is set.
    pub open spec fn negative(self) -> bool {
        self.bits >= SIGN_BIT
    }

    /// The bits without the sign, as a number.
    pub open spec fn magnitude(self) -> int {
        if self.bits >= SIGN_BIT {
            self.bits - SIGN_BIT
        } else {
            self.bits as int
        }
    }

    /// True for the patterns that encode "not a number".
    pub open spec fn nan(self) -> bool {
        self.magnitude() > INFINITY_BITS
    }

    /// True for the patterns that encode a number that is neither infinite nor NaN.
    pub open spec fn finite(self) -> bool {
        self.magnitude() < INFINITY_BITS
    }

    /// An integer that orders the encoded numbers as IEEE-754 orders them:
    /// for two patterns that are not NaN, the first number is below the second
    /// exactly when its rank is below the other's, and the two are equal
    /// exactly when the ranks are. Both zeros have rank 0.
    pub open spec fn rank(self) -> int {
        if self.negative() {
            -self.magnitude()
        } else {
            self.magnitude()
        }
    }

    /// IEEE-754 `<`: false whenever a NaN takes part.
    pub open spec fn below(self, other: Float) -> bool {
        !self.nan() && !other.nan() && self.rank() < other.rank()
    }

    /// IEEE-754 `<=`: false whenever a NaN takes part.
    pub open spec fn at_most(self, other: Float) -> bool {
        !self.nan() && !other.nan() && self.rank() <= other.rank()
    }

    /// IEEE-754 `==`: false whenever a NaN takes part, true of the two zeros.
    pub open spec fn same_number(self, other: Float) -> bool {
        !self.nan() && !other.nan() && self.rank() == other.rank()
    }

    /// The pattern with the sign bit cleared.
    pub open spec fn magnitude_only(self) -> Float {
        Float { bits: self.magnitude() as u64 }
    }

    /// The larger of two numbers; a NaN gives way to the other argument, and
    /// of two equal numbers the first is kept.
    pub open spec fn larger(self, other: Float) -> Float {
        if self.nan() {
            other
        } else if other.nan() {
            self
        } else if self.rank() < other.rank() {
            other
        } else {
            self
        }
    }

    /// The smaller of two numbers; a NaN gives way to the other argument, and
    /// of two equal numbers the first is kept.
    pub open spec fn smaller(self, other: Float) -> Float {
        if self.nan() {
            other
        } else if other.nan() {
            self
        } else if other.rank() < self.rank() {
            other
        } else {
            self
        }
    }

    /// True when a pattern encodes the whole number `n` exactly: zero is the
    /// all-clear pattern, and a positive `n` with `2^k <= n < 2^(k+1)` has
    /// exponent field `1023 + k` and a significand of `n * 2^(52 - k)`.
    pub open spec fn encodes_whole(self, n: nat) -> bool {
        if n == 0 {
            self.bits == 0
        } else {
            let k = self.bits / FRACTION_RANGE - 1023;
            let fraction = self.bits % FRACTION_RANGE;
            &&& !self.negative()
            &&& 0 <= k <= 52
            &&& pow2(k as nat) <= n < 2 * pow2(k as nat)
            &&& FRACTION_RANGE + fraction == n * pow2((52 - k) as nat)
        }
    }

    /// Positive zero.
    pub fn zero() -> (r: Float)
        ensures
            r.bits == 0,
            r.rank() == 0,
            !r.nan(),
    {
        Float { bits: 0 }
    }

    /// Positive infinity.
    pub fn infinity() -> (r: Float)
        ensures
            r.bits == INFINITY_BITS,
            !r.nan(),
            !r.negative(),
    {
        Float { bits: INFINITY_BITS }
    }

    /// Negative infinity.
    pub fn neg_infinity() -> (r: Float)
        ensures
            r.bits == INFINITY_BITS + SIGN_BIT,
            !r.nan(),
            r.negative(),
    {
        Float { bits: 0xfff0_0000_0000_0000 }
    }

    /// Wraps a bit pattern.
    pub fn from_bits(bits: u64) -> (r: Float)
        ensures
            r.bits == bits,
    {
        Float { bits }
    }

    /// The bit pattern.
    pub fn to_bits(self) -> (r: u64)
        ensures
            r == self.bits,
    {
        self.bits
    }

    /// Whether the sign bit is set.
    pub fn is_negative(self) -> (r: bool)
        ensures
            r == self.negative(),
    {
        self.bits >= SIGN_BIT
    }

    /// Whether the pattern encodes NaN.
    pub fn is_nan(self) -> (r: bool)
        ensures
            r == self.nan(),
    {
        self.abs().bits > INFINITY_BITS
    }

    /// Whether the pattern encodes a finite number.
    pub fn is_finite(self) -> (r: bool)
        ensures
            r == self.finite(),
    {
        self.abs().bits < INFINITY_BITS
    }

    /// The absolute value: the same pattern without its sign.
    pub fn abs(self) -> (r: Float)
        ensures
            r == self.magnitude_only(),
            r.bits == self.magnitude(),
            !r.negative(),
            r.nan() == self.nan(),
            r.rank() == self.magnitude(),
    {
        if self.bits >= SIGN_BIT {
            Float { bits: self.bits - SIGN_BIT }
        } else {
            self
        }
    }

    /// The rank as a machine integer.
    pub fn ordering_key(self) -> (r: i64)
        ensures
            r == self.rank(),
    {
        if self.bits >= SIGN_BIT {
            let m: u64 = self.bits - SIGN_BIT;
            0 - (m as i64)
        } else {
            self.bits as i64
        }
    }

    /// IEEE-754 `<`.
    pub fn lt(self, other: Float) -> (r: bool)
        ensures
            r == self.below(other),
    {
        !self.is_nan() && !other.is_nan() && self.ordering_key() < other.ordering_key()
    }

    /// IEEE-754 `<=`.
    pub fn le(self, other: Float) -> (r: bool)
        ensures
            r == self.at_most(other),
    {
        !self.is_nan() && !other.is_nan() && self.ordering_key() <= other.ordering_key()
    }

    /// IEEE-754 `>`.
    pub fn gt(self, other: Float) -> (r: bool)
        ensures
            r == other.below(self),
    {
        other.lt(self)
    }

    /// IEEE-754 `>=`.
    pub fn ge(self, other: Float) -> (r: bool)
        ensures
            r == other.at_most(self),
    {
        other.le(self)
    }

    /// IEEE-754 `==`.
    pub fn same(self, other: Float) -> (r: bool)
        ensures
            r == self.same_number(other),
    {
        !self.is_nan() && !other.is_nan() && self.ordering_key() == other.ordering_key()
    }

    /// The larger of two numbers, as `larger` defines it.
    pub fn max(self, other: Float) -> (r: Float)
        ensures
            r == self.larger(other),
    {
        if self.is_nan() {
            other
        } else if other.is_nan() {
            self
        } else if self.ordering_key() < other.ordering_key() {
            other
        } else {
            self
        }
    }

    /// The smaller of two numbers, as `smaller` defines it.
    pub fn min(self, other: Float) -> (r: Float)
        ensures
            r == self.smaller(other),
    {
        if self.is_nan() {
            other
        } else if other.is_nan() {
            self
        } else if other.ordering_key() < self.ordering_key() {
            other
        } else {
            self
        }
    }

    /// The double that is equal to a whole number below two to the thirty-second.
    pub fn from_u32(n: u32) -> (r: Float)
        ensures
            r.encodes_whole(n as nat),
            r.finite(),
            !r.negative(),
    {
        if n == 0 {
            return Float { bits: 0 };
        }
        let mut k: u64 = 0;
        let mut low: u64 = 1;
        proof {
            lemma2_to64();
        }
        while low * 2 <= n as u64
            invariant
                low == pow2(k as nat),
                1 <= low <= n,
                k <= 31,
            decreases n - low,
        {
            proof {
                lemma_pow2_unfold((k + 1) as nat);
                lemma2_to64();
            }
            low = low * 2;
            k = k + 1;
        }
        let mut scale: u64 = 1;
        let mut j: u64 = 0;
        while j < 52 - k
            invariant
                k <= 31,
                j <= 52 - k,
                scale == pow2(j as nat),
                scale <= 0x0010_0000_0000_0000,
            decreases 52 - k - j,
        {
            proof {
                lemma_pow2_unfold((j + 1) as nat);
                lemma2_to64_rest();
                if j + 1 < 52 {
                    lemma_pow2_strictly_increases((j + 1) as nat, 52);
                }
            }
            scale = scale * 2;
            j = j + 1;
        }
        proof {
            lemma_pow2_adds(k as nat, (52 - k) as nat);
            lemma_pow2_unfold((k + 1) as nat);
            lemma2_to64_rest();
            assert(low * scale == FRACTION_RANGE);
            assert((n - low) * scale < FRACTION_RANGE) by (nonlinear_arith)
                requires
                    n - low < low,
                    low * scale == FRACTION_RANGE,
                    scale > 0,
            ;
            assert((n - low) * scale == n * scale - FRACTION_RANGE) by (nonlinear_arith)
                requires
                    low * scale == FRACTION_RANGE,
            ;
            assert((n - low) * scale >= 0) by (nonlinear_arith)
                requires
                    n >= low,
                    scale > 0,
            ;
        }
        let fraction: u64 = (n as u64 - low) * scale;
        let exponent: u64 = 1023 + k;
        assert(exponent * FRACTION_RANGE <= 1054 * FRACTION_RANGE) by (nonlinear_arith)
            requires
                exponent <= 1054,
        ;
        let bits: u64 = exponent * FRACTION_RANGE + fraction;
        proof {
            assert(bits / FRACTION_RANGE == exponent && bits % FRACTION_RANGE == fraction)
                by (nonlinear_arith)
                requires
                    bits == exponent * FRACTION_RANGE + fraction,
                    0 <= fraction < FRACTION_RANGE,
                    FRACTION_RANGE > 0,
            ;
        }
        Float { bits }
    }
}

/// Whole numbers keep their order when they are encoded: of two patterns
/// that encode whole numbers, the one of the smaller number has the smaller
/// rank.
pub proof fn lemma_whole_order(a: Float, m: nat, b: Float, n: nat)
    requires
        a.encodes_whole(m),
        b.encodes_whole(n),
        m < n,
    ensures
        !a.nan(),
        !b.nan(),
        a.rank() < b.rank(),
{
    let q = FRACTION_RANGE as int;
    if m == 0 {
        assert(b.bits / FRACTION_RANGE >= 1023);
        assert(b.bits >= 1023 * q) by (nonlinear_arith)
            requires
                b.bits / (q as u64) >= 1023,
                q == 0x0010_0000_0000_0000,
        ;
        assert(b.bits < 1076 * q) by (nonlinear_arith)
            requires
                b.bits / (q as u64) <= 1075,
                q == 0x0010_0000_0000_0000,
        ;
    } else {
        let ka = (a.bits / FRACTION_RANGE - 1023) as nat;
        let kb = (b.bits / FRACTION_RANGE - 1023) as nat;
        let fa = (a.bits % FRACTION_RANGE) as int;
        let fb = (b.bits % FRACTION_RANGE) as int;
        assert(a.bits == (1023 + ka) * q + fa && b.bits == (1023 + kb) * q + fb)
            by (nonlinear_arith)
            requires
                ka == a.bits / (q as u64) - 1023,
                kb == b.bits / (q as u64) - 1023,
                fa == a.bits % (q as u64),
                fb == b.bits % (q as u64),
                q == 0x0010_0000_0000_0000,
        ;
        assert(a.bits < 1076 * q && b.bits < 1076 * q) by (nonlinear_arith)
            requires
                a.bits == (1023 + ka) * q + fa,
                b.bits == (1023 + kb) * q + fb,
                ka <= 52,
                kb <= 52,
                fa < q,
                fb < q,
                q == 0x0010_0000_0000_0000,
        ;
        if ka > kb {
            lemma_pow2_unfold(kb + 1);
            if ka > kb + 1 {
                lemma_pow2_strictly_increases(kb + 1, ka);
            }
            assert(false);
        }
        if ka < kb {
            assert(a.bits < b.bits) by (nonlinear_arith)
                requires
                    a.bits == (1023 + ka) * q + fa,
                    b.bits == (1023 + kb) * q + fb,
                    ka < kb,
                    0 <= fa < q,
                    0 <= fb,
            ;
        } else {
            let scale = pow2((52 - ka) as nat) as int;
            assert(scale > 0) by {
                vstd::arithmetic::power2::lemma_pow2_pos((52 - ka) as nat);
            }
            assert(m * scale < n * scale) by (nonlinear_arith)
                requires
                    m < n,
                    scale > 0,
            ;
        }
    }
}

} // verus!
