use vstd::prelude::*;
use crate::error::FlowError;

pub mod elementary;

verus! {

/// Number of fixed-point units per unit value: a [`Scalar`] with mantissa `m`
/// stands for the real number `m / SCALE`, giving a resolution of `10^-12`.
pub const SCALE: i64 = 1_000_000_000_000;

/// Largest mantissa magnitude a [`Scalar`] may hold (a value magnitude of
/// four million).
pub const MAX_MANTISSA: i64 = 4_000_000_000_000_000_000;

/// Mantissa of pi, rounded to the nearest unit.
pub const PI_M: i64 = 3_141_592_653_590;

/// Mantissa of pi / 2, rounded to the nearest unit.
pub const HALF_PI_M: i64 = 1_570_796_326_795;

/// Mantissa of 2 * pi, rounded to the nearest unit.
pub const TWO_PI_M: i64 = 6_283_185_307_180;

/// Mantissa of ln 2, rounded to the nearest unit.
pub const LN_2_M: i64 = 693_147_180_560;

/// The magnitude of `n`.
pub open spec fn mag(n: int) -> int {
    if n < 0 {
        -n
    } else {
        n
    }
}

/// Truncating division (rounding toward zero), for `d != 0`.
pub open spec fn tdiv(n: int, d: int) -> int {
    if (n < 0) == (d < 0) {
        mag(n) / mag(d)
    } else {
        -(mag(n) / mag(d))
    }
}

/// The truncating fixed-point product of two mantissas.
pub open spec fn tmul(a: int, b: int) -> int {
    tdiv(a * b, SCALE as int)
}

/// Whether a mantissa fits the representation.
pub open spec fn in_range(v: int) -> bool {
    -MAX_MANTISSA <= v <= MAX_MANTISSA
}

/// A mantissa as a checked result: out-of-range values become errors.
pub open spec fn ranged(v: int) -> Result<int, FlowError> {
    if in_range(v) {
        Ok(v)
    } else {
        Err(FlowError::OutOfRange)
    }
}

/// Mirror of checked fixed-point addition.
pub open spec fn c_add(a: int, b: int) -> Result<int, FlowError> {
    ranged(a + b)
}

/// Mirror of checked fixed-point subtraction.
pub open spec fn c_sub(a: int, b: int) -> Result<int, FlowError> {
    ranged(a - b)
}

/// Mirror of checked fixed-point multiplication.
pub open spec fn c_mul(a: int, b: int) -> Result<int, FlowError> {
    ranged(tmul(a, b))
}

/// Mirror of checked fixed-point division.
pub open spec fn c_div(a: int, b: int) -> Result<int, FlowError> {
    if b == 0 {
        Err(FlowError::MathDomainError)
    } else {
        ranged(tdiv(a * (SCALE as int), b))
    }
}

/// Mirror of checked division of a fixed-point value by a plain integer.
pub open spec fn c_divi(a: int, d: int) -> Result<int, FlowError> {
    if d == 0 {
        Err(FlowError::MathDomainError)
    } else {
        ranged(tdiv(a, d))
    }
}

/// Mirror of checked multiplication of a fixed-point value by a plain integer.
pub open spec fn c_muli(a: int, k: int) -> Result<int, FlowError> {
    ranged(a * k)
}

/// Whether `r` is the integer square root of `n` (rounded down).
pub open spec fn is_sqrt(n: int, r: int) -> bool {
    0 <= r && r * r <= n && n < (r + 1) * (r + 1)
}

/// The integer square root of `n`, rounded down (for `n >= 0`).
pub open spec fn sqrt_spec(n: int) -> int {
    choose|r: int| is_sqrt(n, r)
}

/// Mirror of the checked fixed-point square root.
pub open spec fn c_sqrt(a: int) -> Result<int, FlowError> {
    if a < 0 {
        Err(FlowError::MathDomainError)
    } else {
        Ok(sqrt_spec(a * (SCALE as int)))
    }
}

/// Relates an executable checked result to its spec-level mirror.
pub open spec fn r_matches(r: Result<Scalar, FlowError>, v: Result<int, FlowError>) -> bool {
    match (r, v) {
        (Ok(s), Ok(x)) => s@ == x,
        (Err(e1), Err(e2)) => e1 == e2,
        _ => false,
    }
}

/// Result-level addition, for composing mirrors; the left error wins.
pub open spec fn r_add(a: Result<int, FlowError>, b: Result<int, FlowError>) -> Result<
    int,
    FlowError,
> {
    match (a, b) {
        (Ok(x), Ok(y)) => c_add(x, y),
        (Err(e), _) => Err(e),
        (_, Err(e)) => Err(e),
    }
}

/// Result-level subtraction, for composing mirrors; the left error wins.
pub open spec fn r_sub(a: Result<int, FlowError>, b: Result<int, FlowError>) -> Result<
    int,
    FlowError,
> {
    match (a, b) {
        (Ok(x), Ok(y)) => c_sub(x, y),
        (Err(e), _) => Err(e),
        (_, Err(e)) => Err(e),
    }
}

/// Result-level multiplication, for composing mirrors; the left error wins.
pub open spec fn r_mul(a: Result<int, FlowError>, b: Result<int, FlowError>) -> Result<
    int,
    FlowError,
> {
    match (a, b) {
        (Ok(x), Ok(y)) => c_mul(x, y),
        (Err(e), _) => Err(e),
        (_, Err(e)) => Err(e),
    }
}

/// A fixed-point real number with twelve decimal digits after the point.
///
/// The mantissa is kept within [`MAX_MANTISSA`] in magnitude; every operation
/// that could leave that range is checked and reports
/// [`FlowError::OutOfRange`] instead of wrapping.
#[derive(Clone, Copy, Debug, PartialEq, Eq, Structural)]
pub struct Scalar {
    m: i64,
}

impl View for Scalar {
    type V = int;

    closed spec fn view(&self) -> int {
        self.m as int
    }
}

impl Scalar {
    #[verifier::type_invariant]
    spec fn wf(self) -> bool {
        -MAX_MANTISSA <= self.m <= MAX_MANTISSA
    }

    /// Builds a scalar directly from its mantissa of `10^-12` units.
    pub fn from_raw(m: i64) -> (r: Scalar)
        requires
            in_range(m as int),
        ensures
            r@ == m as int,
    {
        Scalar { m }
    }

    /// Builds a scalar from its mantissa, rejecting out-of-range mantissas.
    pub fn try_from_raw(m: i64) -> (r: Result<Scalar, FlowError>)
        ensures
            r_matches(r, ranged(m as int)),
    {
        if -MAX_MANTISSA <= m && m <= MAX_MANTISSA {
            Ok(Scalar { m })
        } else {
            Err(FlowError::OutOfRange)
        }
    }

    /// Builds a scalar from a small integer value.
    pub fn from_int(i: i64) -> (r: Scalar)
        requires
            -4_000_000 <= i <= 4_000_000,
        ensures
            r@ == i * (SCALE as int),
    {
        Scalar { m: i * SCALE }
    }

    /// The mantissa of this scalar, in units of `10^-12`.
    pub fn raw(self) -> (m: i64)
        ensures
            m as int == self@,
            in_range(self@),
    {
        proof {
            use_type_invariant(self);
        }
        self.m
    }

    /// Zero.
    pub fn zero() -> (r: Scalar)
        ensures
            r@ == 0,
    {
        Scalar { m: 0 }
    }

    /// One.
    pub fn one() -> (r: Scalar)
        ensures
            r@ == SCALE as int,
    {
        Scalar { m: SCALE }
    }

    /// Two.
    pub fn two() -> (r: Scalar)
        ensures
            r@ == 2 * (SCALE as int),
    {
        Scalar { m: 2 * SCALE }
    }

    /// Pi, to the resolution of the representation.
    pub fn pi() -> (r: Scalar)
        ensures
            r@ == PI_M as int,
    {
        Scalar { m: PI_M }
    }

    /// Pi / 2, to the resolution of the representation.
    pub fn half_pi() -> (r: Scalar)
        ensures
            r@ == HALF_PI_M as int,
    {
        Scalar { m: HALF_PI_M }
    }

    /// 2 * pi, to the resolution of the representation.
    pub fn two_pi() -> (r: Scalar)
        ensures
            r@ == TWO_PI_M as int,
    {
        Scalar { m: TWO_PI_M }
    }

    /// The natural logarithm of 2, to the resolution of the representation.
    pub fn ln_2() -> (r: Scalar)
        ensures
            r@ == LN_2_M as int,
    {
        Scalar { m: LN_2_M }
    }

    /// Whether this scalar is strictly less than `rhs`.
    pub fn lt(self, rhs: Scalar) -> (b: bool)
        ensures
            b == (self@ < rhs@),
    {
        self.m < rhs.m
    }

    /// Whether this scalar is at most `rhs`.
    pub fn le(self, rhs: Scalar) -> (b: bool)
        ensures
            b == (self@ <= rhs@),
    {
        self.m <= rhs.m
    }

    /// Whether this scalar is strictly greater than `rhs`.
    pub fn gt(self, rhs: Scalar) -> (b: bool)
        ensures
            b == (self@ > rhs@),
    {
        self.m > rhs.m
    }

    /// Whether this scalar is at least `rhs`.
    pub fn ge(self, rhs: Scalar) -> (b: bool)
        ensures
            b == (self@ >= rhs@),
    {
        self.m >= rhs.m
    }

    /// The negation of this scalar; never out of range.
    pub fn neg(self) -> (r: Scalar)
        ensures
            r@ == -self@,
    {
        proof {
            use_type_invariant(self);
        }
        Scalar { m: -self.m }
    }

    /// The magnitude of this scalar; never out of range.
    pub fn abs(self) -> (r: Scalar)
        ensures
            r@ == mag(self@),
    {
        proof {
            use_type_invariant(self);
        }
        if self.m < 0 {
            Scalar { m: -self.m }
        } else {
            self
        }
    }

    /// Checked addition.
    pub fn add(self, rhs: Scalar) -> (r: Result<Scalar, FlowError>)
        ensures
            r_matches(r, c_add(self@, rhs@)),
    {
        proof {
            use_type_invariant(self);
            use_type_invariant(rhs);
        }
        let s: i64 = self.m + rhs.m;
        if -MAX_MANTISSA <= s && s <= MAX_MANTISSA {
            Ok(Scalar { m: s })
        } else {
            Err(FlowError::OutOfRange)
        }
    }

    /// Checked subtraction.
    pub fn sub(self, rhs: Scalar) -> (r: Result<Scalar, FlowError>)
        ensures
            r_matches(r, c_sub(self@, rhs@)),
    {
        proof {
            use_type_invariant(self);
            use_type_invariant(rhs);
        }
        let s: i64 = self.m - rhs.m;
        if -MAX_MANTISSA <= s && s <= MAX_MANTISSA {
            Ok(Scalar { m: s })
        } else {
            Err(FlowError::OutOfRange)
        }
    }

    /// Checked fixed-point multiplication, truncating toward zero.
    pub fn mul(self, rhs: Scalar) -> (r: Result<Scalar, FlowError>)
        ensures
            r_matches(r, c_mul(self@, rhs@)),
    {
        proof {
            use_type_invariant(self);
            use_type_invariant(rhs);
        }
        proof {
            assert((self.m as int) * (rhs.m as int) <= (MAX_MANTISSA as int) * (MAX_MANTISSA
                as int) && (self.m as int) * (rhs.m as int) >= -((MAX_MANTISSA as int) * (
            MAX_MANTISSA as int))) by (nonlinear_arith)
                requires
                    -MAX_MANTISSA <= self.m <= MAX_MANTISSA,
                    -MAX_MANTISSA <= rhs.m <= MAX_MANTISSA,
            ;
        }
        let p: i128 = (self.m as i128) * (rhs.m as i128);
        match trunc_div_i128(p, SCALE as i128) {
            Ok(m) => Ok(Scalar { m }),
            Err(e) => Err(e),
        }
    }

    /// Checked fixed-point division, truncating toward zero; division by zero
    /// is a [`FlowError::MathDomainError`].
    pub fn div(self, rhs: Scalar) -> (r: Result<Scalar, FlowError>)
        ensures
            r_matches(r, c_div(self@, rhs@)),
    {
        proof {
            use_type_invariant(self);
            use_type_invariant(rhs);
        }
        if rhs.m == 0 {
            return Err(FlowError::MathDomainError);
        }
        proof {
            assert((self.m as int) * (SCALE as int) <= (MAX_MANTISSA as int) * (SCALE as int) && (
            self.m as int) * (SCALE as int) >= -((MAX_MANTISSA as int) * (SCALE as int)))
                by (nonlinear_arith)
                requires
                    -MAX_MANTISSA <= self.m <= MAX_MANTISSA,
            ;
        }
        let p: i128 = (self.m as i128) * (SCALE as i128);
        match trunc_div_i128(p, rhs.m as i128) {
            Ok(m) => Ok(Scalar { m }),
            Err(e) => Err(e),
        }
    }

    /// Checked division of this scalar by a plain integer, truncating toward
    /// zero.
    pub fn div_int(self, d: i64) -> (r: Result<Scalar, FlowError>)
        requires
            d != i64::MIN,
        ensures
            r_matches(r, c_divi(self@, d as int)),
    {
        proof {
            use_type_invariant(self);
        }
        if d == 0 {
            return Err(FlowError::MathDomainError);
        }
        match trunc_div_i128(self.m as i128, d as i128) {
            Ok(m) => Ok(Scalar { m }),
            Err(e) => Err(e),
        }
    }

    /// Checked multiplication of this scalar by a plain integer.
    pub fn mul_int(self, k: i64) -> (r: Result<Scalar, FlowError>)
        requires
            -1_000_000_000 <= k <= 1_000_000_000,
        ensures
            r_matches(r, c_muli(self@, k as int)),
    {
        proof {
            use_type_invariant(self);
            assert((self.m as int) * (k as int) <= (MAX_MANTISSA as int) * 1_000_000_000 && (self.m
                as int) * (k as int) >= -((MAX_MANTISSA as int) * 1_000_000_000))
                by (nonlinear_arith)
                requires
                    -MAX_MANTISSA <= self.m <= MAX_MANTISSA,
                    -1_000_000_000 <= k <= 1_000_000_000,
            ;
        }
        let p: i128 = (self.m as i128) * (k as i128);
        if p > MAX_MANTISSA as i128 || p < -(MAX_MANTISSA as i128) {
            Err(FlowError::OutOfRange)
        } else {
            Ok(Scalar { m: p as i64 })
        }
    }

    /// The midpoint of two scalars, truncated toward zero; never out of
    /// range.
    pub fn midpoint(self, rhs: Scalar) -> (r: Scalar)
        ensures
            r@ == tdiv(self@ + rhs@, 2),
    {
        proof {
            use_type_invariant(self);
            use_type_invariant(rhs);
        }
        let s: i64 = self.m + rhs.m;
        let h: i64 = if s >= 0 {
            (((s as u64) / 2) as i64)
        } else {
            -((((-s) as u64) / 2) as i64)
        };
        proof {
            vstd::arithmetic::div_mod::lemma_div_nonincreasing(mag(s as int), 2);
            vstd::arithmetic::div_mod::lemma_div_pos_is_pos(mag(s as int), 2);
            vstd::arithmetic::div_mod::lemma_div_is_ordered(
                mag(s as int),
                2 * MAX_MANTISSA as int,
                2,
            );
        }
        Scalar { m: h }
    }

    /// Half the difference of two scalars, truncated toward zero; never out
    /// of range.
    pub fn half_diff(self, rhs: Scalar) -> (r: Scalar)
        ensures
            r@ == tdiv(self@ - rhs@, 2),
    {
        proof {
            use_type_invariant(self);
            use_type_invariant(rhs);
        }
        let s: i64 = self.m - rhs.m;
        let h: i64 = if s >= 0 {
            (((s as u64) / 2) as i64)
        } else {
            -((((-s) as u64) / 2) as i64)
        };
        proof {
            vstd::arithmetic::div_mod::lemma_div_nonincreasing(mag(s as int), 2);
            vstd::arithmetic::div_mod::lemma_div_pos_is_pos(mag(s as int), 2);
            vstd::arithmetic::div_mod::lemma_div_is_ordered(
                mag(s as int),
                2 * MAX_MANTISSA as int,
                2,
            );
        }
        Scalar { m: h }
    }

    /// Whether the product of the two values is strictly positive, that is,
    /// whether both are nonzero and of the same sign.
    pub fn same_sign_strict(self, rhs: Scalar) -> (b: bool)
        ensures
            b == (self@ * rhs@ > 0),
    {
        proof {
            use_type_invariant(self);
            use_type_invariant(rhs);
            assert((self.m as int) * (rhs.m as int) > 0 <==> ((self.m as int) > 0 && (rhs.m as int)
                > 0) || ((self.m as int) < 0 && (rhs.m as int) < 0)) by (nonlinear_arith);
        }
        (self.m > 0 && rhs.m > 0) || (self.m < 0 && rhs.m < 0)
    }

    /// Checked fixed-point square root, truncated toward zero; a negative
    /// argument is a [`FlowError::MathDomainError`].  On success the result
    /// is the exact integer square root of the scaled argument.
    pub fn sqrt(self) -> (r: Result<Scalar, FlowError>)
        ensures
            r_matches(r, c_sqrt(self@)),
            self@ >= 0 ==> (r matches Ok(s) && is_sqrt(self@ * (SCALE as int), s@)),
    {
        proof {
            use_type_invariant(self);
        }
        if self.m < 0 {
            return Err(FlowError::MathDomainError);
        }
        let n: u128 = (self.m as u128) * (SCALE as u128);
        proof {
            assert((self.m as int) * (SCALE as int) <= (MAX_MANTISSA as int) * (SCALE as int))
                by (nonlinear_arith)
                requires
                    0 <= self.m <= MAX_MANTISSA,
            ;
        }
        let root: u64 = isqrt_u128(n);
        proof {
            assert(root as int <= 2_000_000_000_000_000) by (nonlinear_arith)
                requires
                    is_sqrt(n as int, root as int),
                    n as int <= 4_000_000_000_000_000_000int * 1_000_000_000_000int,
            ;
            lemma_sqrt_unique(n as int, root as int);
        }
        Ok(Scalar { m: root as i64 })
    }
}

/// Checked truncating division of wide intermediates, shared by the scalar
/// operations.
fn trunc_div_i128(n: i128, d: i128) -> (r: Result<i64, FlowError>)
    requires
        d != 0,
        n != i128::MIN,
        d != i128::MIN,
    ensures
        r matches Ok(q) ==> in_range(q as int) && q as int == tdiv(n as int, d as int),
        r matches Err(e) ==> e == FlowError::OutOfRange && !in_range(tdiv(n as int, d as int)),
{
    let neg: bool = (n < 0) != (d < 0);
    let na: u128 = if n < 0 {
        (-n) as u128
    } else {
        n as u128
    };
    let da: u128 = if d < 0 {
        (-d) as u128
    } else {
        d as u128
    };
    assert(na as int == mag(n as int));
    assert(da as int == mag(d as int));
    assert(da > 0);
    let q: u128 = na / da;
    if q > MAX_MANTISSA as u128 {
        Err(FlowError::OutOfRange)
    } else {
        let qi: i64 = q as i64;
        if neg {
            Ok(-qi)
        } else {
            Ok(qi)
        }
    }
}

/// Integer square root, rounded down.
fn isqrt_u128(n: u128) -> (r: u64)
    ensures
        is_sqrt(n as int, r as int),
{
    let mut lo: u128 = 0;
    let mut hi: u128 = 0x1_0000_0000_0000_0000;
    proof {
        assert((0x1_0000_0000_0000_0000int) * (0x1_0000_0000_0000_0000int) > u128::MAX as int)
            by (nonlinear_arith);
    }
    while hi - lo > 1
        invariant
            lo < hi,
            hi <= 0x1_0000_0000_0000_0000,
            (lo as int) * (lo as int) <= n as int,
            (n as int) < (hi as int) * (hi as int),
        decreases hi - lo,
    {
        let mid: u128 = lo + (hi - lo) / 2;
        assert(lo < mid < hi);
        proof {
            assert((mid as int) * (mid as int) <= u128::MAX as int) by (nonlinear_arith)
                requires
                    mid < 0x1_0000_0000_0000_0000,
            ;
        }
        let sq: u128 = mid * mid;
        if sq <= n {
            lo = mid;
        } else {
            hi = mid;
        }
    }
    proof {
        assert(hi == lo + 1);
        assert(lo < 0x1_0000_0000_0000_0000);
    }
    lo as u64
}

/// A truncating division of a nonnegative value by a positive one is
/// nonnegative.
pub proof fn lemma_tdiv_nonneg(x: int, d: int)
    requires
        x >= 0,
        d > 0,
    ensures
        tdiv(x, d) >= 0,
{
    vstd::arithmetic::div_mod::lemma_div_pos_is_pos(x, d);
}

/// The integer square root is unique, so any witness equals `sqrt_spec`.
pub proof fn lemma_sqrt_unique(n: int, r: int)
    requires
        is_sqrt(n, r),
    ensures
        sqrt_spec(n) == r,
{
    assert(is_sqrt(n, r));
    let c = choose|x: int| is_sqrt(n, x);
    assert(is_sqrt(n, c));
    assert(c == r) by (nonlinear_arith)
        requires
            is_sqrt(n, c),
            is_sqrt(n, r),
    ;
}

} // verus!
