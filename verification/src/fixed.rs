//! Signed fixed-point numbers with sixteen fractional bits.
//!
//! Every coordinate, size and DPI factor of the crate is a `Fixed`. The number
//! that a `Fixed` stands for is `raw / 65536`. Sums, differences and products
//! that leave the representable range are clamped to its nearest end, and a
//! product or quotient is rounded down to the next multiple of `1 / 65536`.

use vstd::prelude::*;

verus! {

/// A fixed-point number; `raw` counts units of `1 / 65536`.
#[derive(Clone, Copy, Debug, PartialEq, Eq, Structural)]
pub struct Fixed {
    pub raw: i64,
}

/// The nearest value to `v` that an `i64` can hold.
pub open spec fn clamp_i64(v: int) -> int {
    if v < i64::MIN {
        i64::MIN as int
    } else if v > i64::MAX {
        i64::MAX as int
    } else {
        v
    }
}

/// The nearest value to `v` that a `u32` can hold.
pub open spec fn clamp_u32(v: int) -> int {
    if v < 0 {
        0
    } else if v > u32::MAX {
        u32::MAX as int
    } else {
        v
    }
}

/// `clamp_i64` on a value that fits in 128 bits.
fn clamp_to_i64(v: i128) -> (r: i64)
    ensures
        r == clamp_i64(v as int),
{
    if v < i64::MIN as i128 {
        i64::MIN
    } else if v > i64::MAX as i128 {
        i64::MAX
    } else {
        v as i64
    }
}

/// Division rounded towards negative infinity.
fn floor_div(n: i128, d: i128) -> (q: i128)
    requires
        0 < d <= 0x1_0000_0000_0000_0000,
        -0x4000_0000_0000_0000_0000_0000_0000_0000 <= n <= 0x4000_0000_0000_0000_0000_0000_0000_0000,
    ensures
        q == n / d,
{
    if n >= 0 {
        n / d
    } else {
        let m: i128 = -n;
        let up: i128 = (m + (d - 1)) / d;
        proof {
            lemma_floor_of_negated(m as int, d as int);
        }
        -up
    }
}

/// For positive `m` and `d`, rounding `-m / d` down is the negation of
/// rounding `m / d` up.
proof fn lemma_floor_of_negated(m: int, d: int)
    requires
        m > 0,
        d > 0,
    ensures
        (-m) / d == -((m + (d - 1)) / d),
        0 <= (m + (d - 1)) / d <= m,
{
    let up = (m + (d - 1)) / d;
    let rem = (m + (d - 1)) % d;
    assert(m + (d - 1) == d * up + rem && 0 <= rem < d) by {
        vstd::arithmetic::div_mod::lemma_fundamental_div_mod(m + (d - 1), d);
        vstd::arithmetic::div_mod::lemma_mod_bound(m + (d - 1), d);
    }
    // -m == d * (-up) + (d - 1 - rem), with 0 <= d - 1 - rem < d
    assert(-m == d * (-up) + (d - 1 - rem)) by (nonlinear_arith)
        requires
            m + (d - 1) == d * up + rem,
    ;
    vstd::arithmetic::div_mod::lemma_fundamental_div_mod_converse(-m, d, -up, d - 1 - rem);
    assert(0 <= up <= m) by (nonlinear_arith)
        requires
            m + (d - 1) == d * up + rem,
            0 <= rem < d,
            m > 0,
            d > 0,
    ;
}

impl Fixed {
    /// The number zero.
    pub open spec fn spec_zero() -> Fixed {
        Fixed { raw: 0 }
    }

    /// The number one.
    pub open spec fn spec_one() -> Fixed {
        Fixed { raw: 65536 }
    }

    /// The whole number `n`, clamped to the representable range.
    pub open spec fn spec_from_int(n: i64) -> Fixed {
        Fixed { raw: clamp_i64(n * 65536) as i64 }
    }

    /// The count `n`, clamped to the representable range.
    pub open spec fn spec_from_count(n: usize) -> Fixed {
        Fixed { raw: clamp_i64(n * 65536) as i64 }
    }

    /// `num / den`, rounded down to a multiple of `1 / 65536`.
    pub open spec fn spec_from_ratio(num: i32, den: u32) -> Fixed
        recommends
            den != 0,
    {
        Fixed { raw: ((num * 65536) / (den as int)) as i64 }
    }

    /// The clamped sum.
    pub open spec fn spec_plus(self, other: Fixed) -> Fixed {
        Fixed { raw: clamp_i64(self.raw + other.raw) as i64 }
    }

    /// The clamped difference.
    pub open spec fn spec_minus(self, other: Fixed) -> Fixed {
        Fixed { raw: clamp_i64(self.raw - other.raw) as i64 }
    }

    /// The product, rounded down to a multiple of `1 / 65536` and clamped.
    pub open spec fn spec_times(self, other: Fixed) -> Fixed {
        Fixed { raw: clamp_i64((self.raw * other.raw) / 65536) as i64 }
    }

    /// The quotient, rounded down to a multiple of `1 / 65536` and clamped.
    pub open spec fn spec_divided_by(self, other: Fixed) -> Fixed
        recommends
            other.raw != 0,
    {
        if other.raw > 0 {
            Fixed { raw: clamp_i64((self.raw * 65536) / (other.raw as int)) as i64 }
        } else {
            Fixed { raw: clamp_i64((-self.raw * 65536) / (-other.raw as int)) as i64 }
        }
    }

    /// The number with the opposite sign, clamped.
    pub open spec fn spec_negated(self) -> Fixed {
        Fixed { raw: clamp_i64(-self.raw) as i64 }
    }

    /// The number itself where it lies between `low` and `high`, else the
    /// nearer of the two; `low` where the two are out of order.
    pub open spec fn spec_clamped(self, low: Fixed, high: Fixed) -> Fixed {
        self.spec_min(high).spec_max(low)
    }

    /// The smaller of two numbers.
    pub open spec fn spec_min(self, other: Fixed) -> Fixed {
        if self.raw <= other.raw {
            self
        } else {
            other
        }
    }

    /// The larger of two numbers.
    pub open spec fn spec_max(self, other: Fixed) -> Fixed {
        if self.raw >= other.raw {
            self
        } else {
            other
        }
    }

    /// The mean of two numbers, rounded down to a multiple of `1 / 65536`.
    pub open spec fn spec_midpoint(self, other: Fixed) -> Fixed {
        Fixed { raw: ((self.raw + other.raw) / 2) as i64 }
    }

    /// The nearest whole number; of two equally near ones the even one.
    pub open spec fn spec_rounded(self) -> i64 {
        let whole = self.raw / 65536;
        let part = self.raw % 65536;
        if part < 32768 || (part == 32768 && whole % 2 == 0) {
            whole as i64
        } else {
            (whole + 1) as i64
        }
    }

    /// The whole part of a number as a count of pixels: nothing for a
    /// negative number, and no more than a `u32` can hold.
    pub open spec fn spec_to_pixels(self) -> u32 {
        clamp_u32(self.raw / 65536) as u32
    }

    /// The number zero.
    #[verifier::when_used_as_spec(spec_zero)]
    pub fn zero() -> (r: Fixed)
        ensures
            r == Self::spec_zero(),
    {
        Fixed { raw: 0 }
    }

    /// The number one.
    #[verifier::when_used_as_spec(spec_one)]
    pub fn one() -> (r: Fixed)
        ensures
            r == Self::spec_one(),
    {
        Fixed { raw: 65536 }
    }

    /// The number `raw / 65536`.
    pub fn from_raw(raw: i64) -> (r: Fixed)
        ensures
            r.raw == raw,
    {
        Fixed { raw }
    }

    /// The whole number `n`, clamped to the representable range.
    #[verifier::when_used_as_spec(spec_from_int)]
    pub fn from_int(n: i64) -> (r: Fixed)
        ensures
            r == Self::spec_from_int(n),
            r.raw == clamp_i64(n * 65536),
    {
        Fixed { raw: clamp_to_i64((n as i128) * 65536) }
    }

    /// The count `n`, clamped to the representable range.
    #[verifier::when_used_as_spec(spec_from_count)]
    pub fn from_count(n: usize) -> (r: Fixed)
        ensures
            r == Self::spec_from_count(n),
    {
        Fixed { raw: clamp_to_i64((n as i128) * 65536) }
    }

    /// `num / den`, rounded down to a multiple of `1 / 65536`.
    #[verifier::when_used_as_spec(spec_from_ratio)]
    pub fn from_ratio(num: i32, den: u32) -> (r: Fixed)
        requires
            den != 0,
        ensures
            r == Self::spec_from_ratio(num, den),
            r.raw == (num * 65536) / (den as int),
    {
        let scaled: i128 = (num as i128) * 65536;
        let q: i128 = floor_div(scaled, den as i128);
        proof {
            let n = num as int * 65536;
            let d = den as int;
            vstd::arithmetic::div_mod::lemma_fundamental_div_mod(n, d);
            vstd::arithmetic::div_mod::lemma_mod_bound(n, d);
            assert(-0x8000_0000_0000 <= n / d <= 0x8000_0000_0000) by (nonlinear_arith)
                requires
                    n == d * (n / d) + n % d,
                    0 <= n % d < d,
                    d >= 1,
                    -0x8000_0000_0000 <= n <= 0x8000_0000_0000,
            ;
        }
        Fixed { raw: q as i64 }
    }

    /// The sum, clamped to the representable range.
    #[verifier::when_used_as_spec(spec_plus)]
    pub fn plus(self, other: Fixed) -> (r: Fixed)
        ensures
            r == self.spec_plus(other),
            r.raw == clamp_i64(self.raw + other.raw),
    {
        Fixed { raw: clamp_to_i64(self.raw as i128 + other.raw as i128) }
    }

    /// The difference, clamped to the representable range.
    #[verifier::when_used_as_spec(spec_minus)]
    pub fn minus(self, other: Fixed) -> (r: Fixed)
        ensures
            r == self.spec_minus(other),
            r.raw == clamp_i64(self.raw - other.raw),
    {
        Fixed { raw: clamp_to_i64(self.raw as i128 - other.raw as i128) }
    }

    /// The product, rounded down to a multiple of `1 / 65536` and clamped.
    #[verifier::when_used_as_spec(spec_times)]
    pub fn times(self, other: Fixed) -> (r: Fixed)
        ensures
            r == self.spec_times(other),
            r.raw == clamp_i64((self.raw * other.raw) / 65536),
    {
        let a: i128 = self.raw as i128;
        let b: i128 = other.raw as i128;
        assert(-0x4000_0000_0000_0000_0000_0000_0000_0000 <= a * b
            <= 0x4000_0000_0000_0000_0000_0000_0000_0000) by (nonlinear_arith)
            requires
                -0x8000_0000_0000_0000 <= a <= 0x8000_0000_0000_0000,
                -0x8000_0000_0000_0000 <= b <= 0x8000_0000_0000_0000,
        ;
        let product: i128 = a * b;
        Fixed { raw: clamp_to_i64(floor_div(product, 65536)) }
    }

    /// The quotient, rounded down to a multiple of `1 / 65536` and clamped.
    #[verifier::when_used_as_spec(spec_divided_by)]
    pub fn divided_by(self, other: Fixed) -> (r: Fixed)
        requires
            other.raw != 0,
        ensures
            r == self.spec_divided_by(other),
            other.raw > 0 ==> r.raw == clamp_i64((self.raw * 65536) / (other.raw as int)),
            other.raw < 0 ==> r.raw == clamp_i64((-self.raw * 65536) / (-other.raw as int)),
    {
        let scaled: i128 = (self.raw as i128) * 65536;
        if other.raw > 0 {
            Fixed { raw: clamp_to_i64(floor_div(scaled, other.raw as i128)) }
        } else {
            Fixed { raw: clamp_to_i64(floor_div(-scaled, -(other.raw as i128))) }
        }
    }

    /// The number with the opposite sign, clamped.
    #[verifier::when_used_as_spec(spec_negated)]
    pub fn negated(self) -> (r: Fixed)
        ensures
            r == self.spec_negated(),
    {
        Fixed { raw: clamp_to_i64(-(self.raw as i128)) }
    }

    /// The number itself where it lies between `low` and `high`, else the
    /// nearer of the two; `low` where the two are out of order.
    #[verifier::when_used_as_spec(spec_clamped)]
    pub fn clamped(self, low: Fixed, high: Fixed) -> (r: Fixed)
        ensures
            r == self.spec_clamped(low, high),
    {
        self.min(high).max(low)
    }

    /// The smaller of two numbers.
    #[verifier::when_used_as_spec(spec_min)]
    pub fn min(self, other: Fixed) -> (r: Fixed)
        ensures
            r == self.spec_min(other),
    {
        if self.raw <= other.raw {
            self
        } else {
            other
        }
    }

    /// The larger of two numbers.
    #[verifier::when_used_as_spec(spec_max)]
    pub fn max(self, other: Fixed) -> (r: Fixed)
        ensures
            r == self.spec_max(other),
    {
        if self.raw >= other.raw {
            self
        } else {
            other
        }
    }

    /// The mean of two numbers, rounded down to a multiple of `1 / 65536`.
    #[verifier::when_used_as_spec(spec_midpoint)]
    pub fn midpoint(self, other: Fixed) -> (r: Fixed)
        ensures
            r == self.spec_midpoint(other),
    {
        let sum: i128 = self.raw as i128 + other.raw as i128;
        let half: i128 = floor_div(sum, 2);
        Fixed { raw: half as i64 }
    }

    /// The nearest whole number; of two equally near ones the even one.
    #[verifier::when_used_as_spec(spec_rounded)]
    pub fn rounded(self) -> (r: i64)
        ensures
            r == self.spec_rounded(),
    {
        let whole: i128 = floor_div(self.raw as i128, 65536);
        let part: i128 = self.raw as i128 - whole * 65536;
        proof {
            vstd::arithmetic::div_mod::lemma_fundamental_div_mod(self.raw as int, 65536);
        }
        let even: bool = floor_div(whole, 2) * 2 == whole;
        if part < 32768 || (part == 32768 && even) {
            whole as i64
        } else {
            (whole + 1) as i64
        }
    }

    /// The whole part of a number as a count of pixels: nothing for a
    /// negative number, and no more than a `u32` can hold.
    #[verifier::when_used_as_spec(spec_to_pixels)]
    pub fn to_pixels(self) -> (r: u32)
        ensures
            r == self.spec_to_pixels(),
    {
        if self.raw < 0 {
            0
        } else {
            let whole: i64 = self.raw / 65536;
            if whole > u32::MAX as i64 {
                u32::MAX
            } else {
                whole as u32
            }
        }
    }
}

} // verus!
