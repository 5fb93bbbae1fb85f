//! Single-precision reals carried as bit patterns.
//!
//! A [`Scalar`] is the 32-bit IEEE-754 encoding of a real number: one sign
//! bit, eight exponent bits and twenty-three fraction bits. The library does
//! no floating-point arithmetic: it compares scalars by their patterns, and
//! where it needs a number it takes the exact value that the pattern
//! encodes, the significand times a power of two, in integer arithmetic.

use vstd::prelude::*;
use vstd::arithmetic::power2::pow2;
use vstd::arithmetic::power2::lemma_pow2_unfold;
use vstd::arithmetic::power2::lemma_pow2_strictly_increases;
use vstd::arithmetic::power2::lemma_pow2_adds;
use vstd::arithmetic::power2::lemma_pow2_pos;
use vstd::arithmetic::power2::lemma2_to64;
use vstd::arithmetic::power2::lemma2_to64_rest;

verus! {

/// Weight of the implicit leading bit of a normal significand, `2^23`.
pub const HIDDEN_BIT: u32 = 0x80_0000;

/// First bit pattern with the sign bit set.
pub const SIGN_BIT: u32 = 0x8000_0000;

/// Bit pattern of positive infinity.
pub const INFINITY_BITS: u32 = 0x7f80_0000;

/// Bit pattern of the number two.
pub const TWO_BITS: u32 = 0x4000_0000;

/// Bit pattern of the number sixty.
pub const SIXTY_BITS: u32 = 0x4270_0000;

/// What [`Scalar::times`] reports for every product from `2^64` on.
pub const PRODUCT_LIMIT: u128 = 0x1_0000_0000_0000_0000;

/// A real number in IEEE-754 single-precision encoding.
#[derive(Clone, Copy, Debug, PartialEq, Eq, Structural)]
pub struct Scalar {
    pub bits: u32,
}

impl Scalar {
    /// The eight exponent bits.
    pub open spec fn exponent_field(self) -> int {
        (self.bits as int / 0x80_0000) % 256
    }

    /// The twenty-three fraction bits.
    pub open spec fn fraction(self) -> int {
        self.bits as int % 0x80_0000
    }

    /// Whether the sign bit is set.
    pub open spec fn is_negative(self) -> bool {
        self.bits >= SIGN_BIT
    }

    /// Whether the pattern encodes no number at all.
    pub open spec fn is_nan(self) -> bool {
        self.exponent_field() == 255 && self.fraction() != 0
    }

    /// Whether the pattern encodes a number that is not infinite.
    pub open spec fn is_finite(self) -> bool {
        self.exponent_field() < 255
    }

    /// Whether the pattern encodes plus or minus zero.
    pub open spec fn is_zero(self) -> bool {
        self.bits as int % 0x8000_0000 == 0
    }

    /// The integer `m` in `|value| = m * 2^e`.
    pub open spec fn significand(self) -> int {
        if self.exponent_field() == 0 {
            self.fraction()
        } else {
            0x80_0000 + self.fraction()
        }
    }

    /// The integer `e` in `|value| = m * 2^e`.
    pub open spec fn exponent(self) -> int {
        if self.exponent_field() == 0 {
            -149
        } else {
            self.exponent_field() - 150
        }
    }

    /// `|value|` rounded down to an integer, for a finite scalar.
    pub open spec fn magnitude_floor(self) -> int {
        if self.exponent() >= 0 {
            self.significand() * pow2(self.exponent() as nat)
        } else {
            self.significand() / (pow2((-self.exponent()) as nat) as int)
        }
    }

    /// The power of two by which the significand is to be multiplied to
    /// give `|value|` in units of `2^-149`, the smallest step between two
    /// scalars.
    pub open spec fn shift(self) -> nat {
        if self.exponent_field() == 0 {
            0
        } else {
            (self.exponent_field() - 1) as nat
        }
    }

    /// `|value|` in units of `2^-149`, for a finite scalar. Every finite
    /// scalar is a whole number of these units.
    pub open spec fn magnitude_units(self) -> nat {
        (self.significand() * pow2(self.shift())) as nat
    }

    /// The value in units of `2^-149`, for a finite scalar.
    pub open spec fn units(self) -> int {
        if self.is_negative() {
            -(self.magnitude_units() as int)
        } else {
            self.magnitude_units() as int
        }
    }

    /// `factor * |value|` with the fraction dropped, for a finite scalar.
    pub open spec fn product_floor(self, factor: nat) -> nat {
        if self.exponent() >= 0 {
            (factor * self.significand() * pow2(self.exponent() as nat)) as nat
        } else {
            (factor * self.significand() / (pow2((-self.exponent()) as nat) as int)) as nat
        }
    }

    /// `factor * |value|` with the fraction dropped, and [`PRODUCT_LIMIT`]
    /// for every product from there on. What is not a number gives zero;
    /// the infinite gives zero for the factor zero and the limit for every
    /// other.
    pub open spec fn times(self, factor: nat) -> nat {
        if self.is_nan() {
            0
        } else if !self.is_finite() {
            if factor == 0 {
                0
            } else {
                PRODUCT_LIMIT as nat
            }
        } else if self.product_floor(factor) > PRODUCT_LIMIT {
            PRODUCT_LIMIT as nat
        } else {
            self.product_floor(factor)
        }
    }

    /// The value as an unsigned 32-bit integer: what is not a number and what
    /// is negative gives zero, the fractional part is dropped, and what is too
    /// large gives `u32::MAX`.
    pub open spec fn truncated(self) -> int {
        if self.is_nan() || self.is_negative() {
            0
        } else if !self.is_finite() || self.magnitude_floor() > u32::MAX {
            u32::MAX as int
        } else {
            self.magnitude_floor()
        }
    }

    /// Equality of the encoded numbers: nothing equals what is not a number,
    /// and the two zeros are equal.
    pub open spec fn same_number(self, other: Scalar) -> bool {
        &&& !self.is_nan()
        &&& !other.is_nan()
        &&& (self.bits == other.bits || (self.is_zero() && other.is_zero()))
    }

    /// Whether the encoded number is greater than two. Among the patterns
    /// without sign bit the encoding preserves order, so these are the
    /// patterns above that of two, up to positive infinity.
    pub open spec fn exceeds_two(self) -> bool {
        TWO_BITS < self.bits <= INFINITY_BITS
    }

    /// Wraps a bit pattern.
    pub fn from_bits(bits: u32) -> (s: Scalar)
        ensures
            s.bits == bits,
    {
        Scalar { bits }
    }

    /// The bit pattern.
    pub fn to_bits(self) -> (bits: u32)
        ensures
            bits == self.bits,
    {
        self.bits
    }

    /// Positive zero.
    pub fn zero() -> (s: Scalar)
        ensures
            s.bits == 0,
    {
        Scalar { bits: 0 }
    }

    pub(crate) fn exponent_bits(self) -> (e: u32)
        ensures
            e == self.exponent_field(),
            e < 256,
    {
        (self.bits / HIDDEN_BIT) % 256
    }

    pub(crate) fn fraction_bits(self) -> (f: u32)
        ensures
            f == self.fraction(),
            f < HIDDEN_BIT,
    {
        self.bits % HIDDEN_BIT
    }

    pub(crate) fn significand_bits(self) -> (m: u64)
        ensures
            m == self.significand(),
            m < 0x100_0000,
            self.exponent_field() != 0 ==> m >= 0x80_0000,
    {
        if self.exponent_bits() == 0 {
            self.fraction_bits() as u64
        } else {
            HIDDEN_BIT as u64 + self.fraction_bits() as u64
        }
    }

    /// Whether the pattern encodes no number.
    pub fn check_nan(self) -> (r: bool)
        ensures
            r == self.is_nan(),
    {
        self.exponent_bits() == 255 && self.fraction_bits() != 0
    }

    /// Whether the pattern encodes a number that is not infinite.
    pub fn check_finite(self) -> (r: bool)
        ensures
            r == self.is_finite(),
    {
        self.exponent_bits() < 255
    }

    /// Compares the encoded numbers.
    pub fn equals(self, other: Scalar) -> (r: bool)
        ensures
            r == self.same_number(other),
    {
        if self.check_nan() || other.check_nan() {
            false
        } else {
            self.bits == other.bits || (self.bits % SIGN_BIT == 0 && other.bits % SIGN_BIT == 0)
        }
    }

    /// The larger of the encoded number and two; two where the pattern
    /// encodes no number.
    pub fn at_least_two(self) -> (r: Scalar)
        ensures
            r == (if self.exceeds_two() {
                self
            } else {
                (Scalar { bits: TWO_BITS })
            }),
    {
        if TWO_BITS < self.bits && self.bits <= INFINITY_BITS {
            self
        } else {
            Scalar { bits: TWO_BITS }
        }
    }

    /// Converts to an unsigned integer as a saturating, truncating cast does.
    pub fn to_u32(self) -> (r: u32)
        ensures
            r == self.truncated(),
    {
        if self.check_nan() || self.bits >= SIGN_BIT {
            return 0;
        }
        let field: u32 = self.exponent_bits();
        let m: u64 = self.significand_bits();
        if field == 255 {
            u32::MAX
        } else if field >= 159 {
            proof {
                lemma2_to64();
                if field > 159 {
                    lemma_pow2_strictly_increases(9, (field - 150) as nat);
                }
                assert(m * pow2((field - 150) as nat) >= 0x80_0000 * 0x200) by (nonlinear_arith)
                    requires
                        m >= 0x80_0000,
                        pow2((field - 150) as nat) >= 0x200,
                ;
            }
            u32::MAX
        } else if field >= 150 {
            let p: u64 = power_of_two(field - 150);
            proof {
                lemma2_to64();
                if field < 158 {
                    lemma_pow2_strictly_increases((field - 150) as nat, 8);
                }
                assert(m * p <= 0xff_ffff * 0x100) by (nonlinear_arith)
                    requires
                        m <= 0xff_ffff,
                        p <= 0x100,
                ;
            }
            (m * p) as u32
        } else {
            let shift: u32 = if field == 0 {
                149
            } else {
                150 - field
            };
            if shift >= 24 {
                proof {
                    lemma2_to64();
                    if shift > 24 {
                        lemma_pow2_strictly_increases(24, shift as nat);
                    }
                    vstd::arithmetic::div_mod::lemma_basic_div(
                        m as int,
                        pow2(shift as nat) as int,
                    );
                }
                0
            } else {
                let p: u64 = power_of_two(shift);
                (m / p) as u32
            }
        }
    }

    /// Whether the sign bit is set.
    pub fn check_negative(self) -> (r: bool)
        ensures
            r == self.is_negative(),
    {
        self.bits >= SIGN_BIT
    }

    /// Multiplies the magnitude of the encoded number by a whole number and
    /// drops the fraction.
    pub fn multiply(self, factor: u64) -> (r: u128)
        ensures
            r == self.times(factor as nat),
            r <= PRODUCT_LIMIT,
    {
        if self.check_nan() {
            return 0;
        }
        let field: u32 = self.exponent_bits();
        if field == 255 {
            return if factor == 0 {
                0
            } else {
                PRODUCT_LIMIT
            };
        }
        let m: u64 = self.significand_bits();
        assert((factor as int) * (m as int) <= 0xffff_ffff_ffff_ffff * 0xff_ffff) by (nonlinear_arith)
            requires
                0 <= factor <= 0xffff_ffff_ffff_ffff,
                0 <= m <= 0xff_ffff,
        ;
        assert((factor as int) * (m as int) >= 0) by (nonlinear_arith)
            requires
                0 <= factor,
                0 <= m,
        ;
        let product: u128 = (factor as u128) * (m as u128);
        if field >= 150 {
            let e: u32 = field - 150;
            if product == 0 {
                assert(0 * pow2(e as nat) == 0) by (nonlinear_arith);
                0
            } else if e >= 64 {
                proof {
                    lemma2_to64();
                    if e > 64 {
                        lemma_pow2_strictly_increases(64, e as nat);
                    }
                    assert(product * pow2(e as nat) >= 0x1_0000_0000_0000_0000) by (nonlinear_arith)
                        requires
                            product >= 1,
                            pow2(e as nat) >= 0x1_0000_0000_0000_0000,
                    ;
                }
                PRODUCT_LIMIT
            } else {
                let p: u128 = power_of_two(e) as u128;
                let q: u128 = PRODUCT_LIMIT / p;
                proof {
                    lemma2_to64();
                    lemma_pow2_adds(e as nat, (64 - e) as nat);
                    lemma_pow2_pos((64 - e) as nat);
                    let rest = pow2((64 - e) as nat) as int;
                    assert(p * rest == 0x1_0000_0000_0000_0000);
                    assert(rest * p == p * rest) by (nonlinear_arith);
                    vstd::arithmetic::div_mod::lemma_fundamental_div_mod_converse(
                        0x1_0000_0000_0000_0000,
                        p as int,
                        rest,
                        0,
                    );
                    assert(q == rest);
                    assert(q * p == 0x1_0000_0000_0000_0000);
                    if product > q {
                        assert(product * p > 0x1_0000_0000_0000_0000) by (nonlinear_arith)
                            requires
                                product >= q + 1,
                                q * p == 0x1_0000_0000_0000_0000,
                                p >= 1,
                        ;
                    } else {
                        assert(product * p <= 0x1_0000_0000_0000_0000) by (nonlinear_arith)
                            requires
                                0 <= product <= q,
                                q * p == 0x1_0000_0000_0000_0000,
                                p >= 1,
                        ;
                    }
                }
                if product > q {
                    PRODUCT_LIMIT
                } else {
                    product * p
                }
            }
        } else {
            let n: u32 = if field == 0 {
                149
            } else {
                150 - field
            };
            if n >= 88 {
                proof {
                    lemma_wide_powers();
                    if n > 88 {
                        lemma_pow2_strictly_increases(88, n as nat);
                    }
                    vstd::arithmetic::div_mod::lemma_basic_div(
                        product as int,
                        pow2(n as nat) as int,
                    );
                }
                0
            } else {
                let p: u128 = power_of_two_wide(n);
                let quotient: u128 = product / p;
                proof {
                    vstd::arithmetic::div_mod::lemma_div_nonincreasing(product as int, p as int);
                }
                if quotient > PRODUCT_LIMIT {
                    PRODUCT_LIMIT
                } else {
                    quotient
                }
            }
        }
    }
}

/// The values of some powers of two above `2^64`.
pub proof fn lemma_wide_powers()
    ensures
        pow2(64) == 0x1_0000_0000_0000_0000,
        pow2(88) == 0x100_0000_0000_0000_0000_0000,
        pow2(127) == 0x8000_0000_0000_0000_0000_0000_0000_0000,
        pow2(128) == 0x1_0000_0000_0000_0000_0000_0000_0000_0000int,
        pow2(192) == 0x1_0000_0000_0000_0000_0000_0000_0000_0000_0000_0000_0000_0000int,
        pow2(256)
            == 0x1_0000_0000_0000_0000_0000_0000_0000_0000_0000_0000_0000_0000_0000_0000_0000_0000int,
{
    lemma2_to64();
    lemma2_to64_rest();
    lemma_pow2_adds(64, 24);
    lemma_pow2_adds(64, 63);
    lemma_pow2_adds(64, 64);
    lemma_pow2_adds(128, 64);
    lemma_pow2_adds(192, 64);
}

/// Computes `2^n` for an exponent below 127.
pub(crate) fn power_of_two_wide(n: u32) -> (p: u128)
    requires
        n < 127,
    ensures
        p == pow2(n as nat),
        p >= 1,
{
    let mut p: u128 = 1;
    let mut i: u32 = 0;
    proof {
        lemma2_to64();
    }
    while i < n
        invariant
            i <= n,
            n < 127,
            p == pow2(i as nat),
            p >= 1,
        decreases n - i,
    {
        proof {
            lemma_pow2_unfold((i + 1) as nat);
            lemma_wide_powers();
            lemma_pow2_strictly_increases((i + 1) as nat, 127);
        }
        p = p * 2;
        i = i + 1;
    }
    p
}

/// Computes `2^n` for an exponent below sixty-four.
pub(crate) fn power_of_two(n: u32) -> (p: u64)
    requires
        n < 64,
    ensures
        p == pow2(n as nat),
        p >= 1,
{
    let mut p: u64 = 1;
    let mut i: u32 = 0;
    proof {
        lemma2_to64();
    }
    while i < n
        invariant
            i <= n,
            n < 64,
            p == pow2(i as nat),
            p >= 1,
        decreases n - i,
    {
        proof {
            lemma_pow2_unfold((i + 1) as nat);
            lemma2_to64_rest();
            if i + 1 < 63 {
                lemma_pow2_strictly_increases((i + 1) as nat, 63);
            }
        }
        p = p * 2;
        i = i + 1;
    }
    p
}

} // verus!
