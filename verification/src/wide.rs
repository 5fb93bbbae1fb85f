//! Natural numbers of up to 320 bits, wide enough to hold every finite
//! scalar, and every sum or difference of two, in units of `2^-149`.

use vstd::prelude::*;
use vstd::arithmetic::power2::pow2;
use vstd::arithmetic::power2::lemma_pow2_adds;
use vstd::arithmetic::power2::lemma_pow2_strictly_increases;
use vstd::arithmetic::power2::lemma2_to64;
use crate::scalar::lemma_wide_powers;
use crate::scalar::power_of_two;
use crate::scalar::Scalar;

verus! {

/// A natural number below `2^320`, in five digits of 64 bits.
#[derive(Clone, Copy, Debug)]
pub struct Wide {
    d0: u64,
    d1: u64,
    d2: u64,
    d3: u64,
    d4: u64,
}

/// The weight of the second digit, `2^64`.
pub open spec fn weight1() -> int {
    0x1_0000_0000_0000_0000
}

/// The weight of the third digit, `2^128`.
pub open spec fn weight2() -> int {
    0x1_0000_0000_0000_0000_0000_0000_0000_0000int
}

/// The weight of the fourth digit, `2^192`.
pub open spec fn weight3() -> int {
    0x1_0000_0000_0000_0000_0000_0000_0000_0000_0000_0000_0000_0000int
}

/// The weight of the fifth digit, `2^256`.
pub open spec fn weight4() -> int {
    0x1_0000_0000_0000_0000_0000_0000_0000_0000_0000_0000_0000_0000_0000_0000_0000_0000int
}

/// One more than the largest number that a [`Wide`] holds, `2^320`.
pub open spec fn wide_limit() -> int {
    0x1_0000_0000_0000_0000_0000_0000_0000_0000_0000_0000_0000_0000_0000_0000_0000_0000_0000_0000_0000_0000int
}

impl Wide {
    /// The number.
    pub closed spec fn value(self) -> int {
        self.d0 + self.d1 * 0x1_0000_0000_0000_0000 + self.d2 * 0x1_0000_0000_0000_0000_0000_0000_0000_0000int
            + self.d3 * 0x1_0000_0000_0000_0000_0000_0000_0000_0000_0000_0000_0000_0000int
            + self.d4 * 0x1_0000_0000_0000_0000_0000_0000_0000_0000_0000_0000_0000_0000_0000_0000_0000_0000int
    }

    /// Every number held is a natural number below `2^320`.
    pub proof fn lemma_bounds(self)
        ensures
            0 <= self.value() < wide_limit(),
    {
    }

    /// A number of 64 bits as a wide one.
    pub fn from_u64(n: u64) -> (wide: Wide)
        ensures
            wide.value() == n,
    {
        Wide { d0: n, d1: 0, d2: 0, d3: 0, d4: 0 }
    }

    /// The number, where it fits in 64 bits.
    pub fn to_u64(&self) -> (n: Option<u64>)
        ensures
            n == (if self.value() <= u64::MAX {
                Some(self.value() as u64)
            } else {
                None::<u64>
            }),
    {
        if self.d1 == 0 && self.d2 == 0 && self.d3 == 0 && self.d4 == 0 {
            Some(self.d0)
        } else {
            None
        }
    }

    /// The magnitude of a finite scalar in units of `2^-149`.
    pub fn from_scalar(scalar: Scalar) -> (wide: Wide)
        requires
            scalar.is_finite(),
        ensures
            wide.value() == scalar.magnitude_units(),
            2 * wide.value() < wide_limit(),
    {
        let field: u32 = scalar.exponent_bits();
        let m: u64 = scalar.significand_bits();
        let k: u32 = if field == 0 {
            0
        } else {
            field - 1
        };
        let r: u32 = k % 64;
        let q: u32 = k / 64;
        let p: u64 = power_of_two(r);
        proof {
            lemma2_to64();
            vstd::arithmetic::power2::lemma2_to64_rest();
            if r < 63 {
                lemma_pow2_strictly_increases(r as nat, 63);
            }
            assert((m as int) * (p as int) <= 0xff_ffff * 0x8000_0000_0000_0000) by (nonlinear_arith)
                requires
                    0 <= m <= 0xff_ffff,
                    0 <= p <= 0x8000_0000_0000_0000,
            ;
            assert((m as int) * (p as int) >= 0) by (nonlinear_arith)
                requires
                    0 <= m,
                    0 <= p,
            ;
        }
        let v: u128 = (m as u128) * (p as u128);
        let low: u64 = (v % 0x1_0000_0000_0000_0000) as u64;
        let high: u64 = (v / 0x1_0000_0000_0000_0000) as u64;
        let wide = if q == 0 {
            Wide { d0: low, d1: high, d2: 0, d3: 0, d4: 0 }
        } else if q == 1 {
            Wide { d0: 0, d1: low, d2: high, d3: 0, d4: 0 }
        } else if q == 2 {
            Wide { d0: 0, d1: 0, d2: low, d3: high, d4: 0 }
        } else {
            Wide { d0: 0, d1: 0, d2: 0, d3: low, d4: high }
        };
        proof {
            lemma_wide_powers();
            lemma_pow2_adds(r as nat, (64 * q) as nat);
            assert(k == r + 64 * q);
            let w = pow2((64 * q) as nat) as int;
            assert(q == 0 ==> w == 1);
            assert(q == 1 ==> w == weight1());
            assert(q == 2 ==> w == weight2());
            assert(q == 3 ==> w == weight3());
            assert(v == low + high * 0x1_0000_0000_0000_0000);
            assert(wide.value() == v * w) by {
                if q == 0 {
                    assert(v * 1 == v);
                } else if q == 1 {
                    assert(v * 0x1_0000_0000_0000_0000 == low * 0x1_0000_0000_0000_0000 + high * 0x1_0000_0000_0000_0000_0000_0000_0000_0000int);
                } else if q == 2 {
                    assert(v * 0x1_0000_0000_0000_0000_0000_0000_0000_0000int == low * 0x1_0000_0000_0000_0000_0000_0000_0000_0000int + high * 0x1_0000_0000_0000_0000_0000_0000_0000_0000_0000_0000_0000_0000int);
                } else {
                    assert(v * 0x1_0000_0000_0000_0000_0000_0000_0000_0000_0000_0000_0000_0000int == low * 0x1_0000_0000_0000_0000_0000_0000_0000_0000_0000_0000_0000_0000int + high * 0x1_0000_0000_0000_0000_0000_0000_0000_0000_0000_0000_0000_0000_0000_0000_0000_0000int);
                }
            }
            assert(v * w == m * pow2(k as nat)) by (nonlinear_arith)
                requires
                    v == m * p,
                    p == pow2(r as nat),
                    pow2(k as nat) == pow2(r as nat) * w,
            ;
            assert(high < 0x100_0000);
        }
        wide
    }

    /// Whether this number is less than the other.
    pub fn less(&self, other: &Wide) -> (r: bool)
        ensures
            r == (self.value() < other.value()),
    {
        if self.d4 != other.d4 {
            self.d4 < other.d4
        } else if self.d3 != other.d3 {
            self.d3 < other.d3
        } else if self.d2 != other.d2 {
            self.d2 < other.d2
        } else if self.d1 != other.d1 {
            self.d1 < other.d1
        } else {
            self.d0 < other.d0
        }
    }

    /// The sum of two numbers.
    pub fn add(&self, other: &Wide) -> (sum: Wide)
        requires
            self.value() + other.value() < wide_limit(),
        ensures
            sum.value() == self.value() + other.value(),
    {
        let t0: u128 = self.d0 as u128 + other.d0 as u128;
        let t1: u128 = self.d1 as u128 + other.d1 as u128 + t0 / 0x1_0000_0000_0000_0000;
        let t2: u128 = self.d2 as u128 + other.d2 as u128 + t1 / 0x1_0000_0000_0000_0000;
        let t3: u128 = self.d3 as u128 + other.d3 as u128 + t2 / 0x1_0000_0000_0000_0000;
        let t4: u128 = self.d4 as u128 + other.d4 as u128 + t3 / 0x1_0000_0000_0000_0000;
        let sum = Wide {
            d0: (t0 % 0x1_0000_0000_0000_0000) as u64,
            d1: (t1 % 0x1_0000_0000_0000_0000) as u64,
            d2: (t2 % 0x1_0000_0000_0000_0000) as u64,
            d3: (t3 % 0x1_0000_0000_0000_0000) as u64,
            d4: (t4 % 0x1_0000_0000_0000_0000) as u64,
        };
        proof {
            let c4 = (t4 / 0x1_0000_0000_0000_0000) as int;
            assert(sum.value() + c4 * wide_limit() == self.value() + other.value());
            assert(c4 == 0);
        }
        sum
    }

    /// The difference of two numbers, the smaller taken from the larger.
    pub fn sub(&self, other: &Wide) -> (difference: Wide)
        requires
            self.value() >= other.value(),
        ensures
            difference.value() == self.value() - other.value(),
    {
        let t0: u128 = 0x1_0000_0000_0000_0000 + self.d0 as u128 - other.d0 as u128;
        let b0: u128 = 1 - t0 / 0x1_0000_0000_0000_0000;
        let t1: u128 = 0x1_0000_0000_0000_0000 + self.d1 as u128 - other.d1 as u128 - b0;
        let b1: u128 = 1 - t1 / 0x1_0000_0000_0000_0000;
        let t2: u128 = 0x1_0000_0000_0000_0000 + self.d2 as u128 - other.d2 as u128 - b1;
        let b2: u128 = 1 - t2 / 0x1_0000_0000_0000_0000;
        let t3: u128 = 0x1_0000_0000_0000_0000 + self.d3 as u128 - other.d3 as u128 - b2;
        let b3: u128 = 1 - t3 / 0x1_0000_0000_0000_0000;
        let t4: u128 = 0x1_0000_0000_0000_0000 + self.d4 as u128 - other.d4 as u128 - b3;
        let difference = Wide {
            d0: (t0 % 0x1_0000_0000_0000_0000) as u64,
            d1: (t1 % 0x1_0000_0000_0000_0000) as u64,
            d2: (t2 % 0x1_0000_0000_0000_0000) as u64,
            d3: (t3 % 0x1_0000_0000_0000_0000) as u64,
            d4: (t4 % 0x1_0000_0000_0000_0000) as u64,
        };
        proof {
            let b4 = 1 - (t4 / 0x1_0000_0000_0000_0000) as int;
            assert(difference.value() - b4 * wide_limit() == self.value() - other.value());
            assert(b4 == 0);
        }
        difference
    }

    /// How far two numbers are apart.
    pub fn distance(&self, other: &Wide) -> (apart: Wide)
        ensures
            apart.value() == (if self.value() >= other.value() {
                self.value() - other.value()
            } else {
                other.value() - self.value()
            }),
    {
        if self.less(other) {
            other.sub(self)
        } else {
            self.sub(other)
        }
    }
}

} // verus!
