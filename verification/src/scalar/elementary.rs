use vstd::prelude::*;
use vstd::arithmetic::div_mod::lemma_div_is_ordered;
use vstd::arithmetic::div_mod::lemma_div_nonincreasing;
use vstd::arithmetic::div_mod::lemma_div_pos_is_pos;
use vstd::arithmetic::div_mod::lemma_fundamental_div_mod;
use vstd::arithmetic::div_mod::lemma_fundamental_div_mod_converse_div;
use vstd::arithmetic::div_mod::lemma_mod_division_less_than_divisor;
use crate::error::FlowError;
use crate::scalar::Scalar;
use crate::scalar::HALF_PI_M;
use crate::scalar::LN_2_M;
use crate::scalar::MAX_MANTISSA;
use crate::scalar::PI_M;
use crate::scalar::SCALE;
use crate::scalar::TWO_PI_M;
use crate::scalar::c_add;
use crate::scalar::c_div;
use crate::scalar::c_divi;
use crate::scalar::c_mul;
use crate::scalar::c_muli;
use crate::scalar::c_sqrt;
use crate::scalar::c_sub;
use crate::scalar::mag;
use crate::scalar::r_matches;
use crate::scalar::tdiv;

verus! {

/// Number of series steps taken for the sine.
pub const SIN_TERMS: u64 = 11;

/// Number of series steps taken for the arctangent.
pub const ATAN_TERMS: u64 = 8;

/// Number of series steps taken for the logarithm.
pub const LN_TERMS: u64 = 12;

/// Number of series steps taken for the exponential.
pub const EXP_TERMS: u64 = 16;

/// Largest argument the fixed-point exponential accepts.
pub const EXP_MAX_ARG: i64 = 15_000_000_000_000;

/// The angle reduction applied before the sine series: subtracts whole turns
/// and folds the remainder into `[-pi, pi]`.
pub open spec fn sin_reduce(x: int) -> int {
    let y = x - tdiv(x, TWO_PI_M as int) * (TWO_PI_M as int);
    if y > PI_M as int {
        y - TWO_PI_M as int
    } else if y < -(PI_M as int) {
        y + TWO_PI_M as int
    } else {
        y
    }
}

/// The remaining steps of the sine series: `t` is the term just added and `a`
/// the accumulated sum after `k` of `n` steps.
pub open spec fn sin_terms_from(x2: int, t: int, a: int, k: nat, n: nat) -> Result<int, FlowError>
    decreases n - k,
{
    if k >= n {
        Ok(a)
    } else {
        match c_mul(t, x2) {
            Err(e) => Err(e),
            Ok(t1) => match c_divi(t1, ((2 * k + 2) * (2 * k + 3)) as int) {
                Err(e) => Err(e),
                Ok(t2) => match c_add(a, -t2) {
                    Err(e) => Err(e),
                    Ok(a1) => sin_terms_from(x2, -t2, a1, k + 1, n),
                },
            },
        }
    }
}

/// Mirror of the fixed-point sine.
pub open spec fn sin_spec(x: int) -> Result<int, FlowError> {
    let y = sin_reduce(x);
    match c_mul(y, y) {
        Err(e) => Err(e),
        Ok(y2) => sin_terms_from(y2, y, y, 0, SIN_TERMS as nat),
    }
}

/// Mirror of the fixed-point cosine, the sine of the shifted argument.
pub open spec fn cos_spec(x: int) -> Result<int, FlowError> {
    match c_add(x, HALF_PI_M as int) {
        Err(e) => Err(e),
        Ok(y) => sin_spec(y),
    }
}

/// Mirror of the fixed-point tangent.
pub open spec fn tan_spec(x: int) -> Result<int, FlowError> {
    match sin_spec(x) {
        Err(e) => Err(e),
        Ok(s) => match cos_spec(x) {
            Err(e) => Err(e),
            Ok(c) => c_div(s, c),
        },
    }
}

/// One half-angle reduction of the arctangent argument:
/// `a / (1 + sqrt(1 + a^2))`.
pub open spec fn atan_reduce_once(a: int) -> Result<int, FlowError> {
    match c_mul(a, a) {
        Err(e) => Err(e),
        Ok(a2) => match c_add(SCALE as int, a2) {
            Err(e) => Err(e),
            Ok(u) => match c_sqrt(u) {
                Err(e) => Err(e),
                Ok(w) => match c_add(SCALE as int, w) {
                    Err(e) => Err(e),
                    Ok(dn) => c_div(a, dn),
                },
            },
        },
    }
}

/// The remaining steps of the arctangent series.
pub open spec fn atan_terms_from(z2: int, t: int, a: int, k: nat, n: nat) -> Result<int, FlowError>
    decreases n - k,
{
    if k >= n {
        Ok(a)
    } else {
        match c_mul(t, z2) {
            Err(e) => Err(e),
            Ok(t1) => match c_divi(-t1, (2 * k + 3) as int) {
                Err(e) => Err(e),
                Ok(c) => match c_add(a, c) {
                    Err(e) => Err(e),
                    Ok(a1) => atan_terms_from(z2, -t1, a1, k + 1, n),
                },
            },
        }
    }
}

/// The arctangent series on a doubly reduced argument.
pub open spec fn atan_core(z: int) -> Result<int, FlowError> {
    match c_mul(z, z) {
        Err(e) => Err(e),
        Ok(z2) => atan_terms_from(z2, z, z, 0, ATAN_TERMS as nat),
    }
}

/// The steps of the arctangent after its series: undoing the reductions and
/// restoring the sign.
pub open spec fn atan_finish(sr: Result<int, FlowError>, flip: bool, x: int) -> Result<
    int,
    FlowError,
> {
    match sr {
        Err(e) => Err(e),
        Ok(s) => match c_muli(s, 4) {
            Err(e) => Err(e),
            Ok(q) => {
                let v = if flip {
                    c_sub(HALF_PI_M as int, q)
                } else {
                    Ok(q)
                };
                match v {
                    Err(e) => Err(e),
                    Ok(w) => Ok(
                        if x < 0 {
                            -w
                        } else {
                            w
                        },
                    ),
                }
            },
        },
    }
}

/// Mirror of the fixed-point arctangent: works on the magnitude, inverts
/// arguments above one, reduces twice, sums the series, and restores
/// the sign.
pub open spec fn atan_spec(x: int) -> Result<int, FlowError> {
    let a = mag(x);
    let flip = a > SCALE as int;
    let first = if flip {
        c_div(SCALE as int, a)
    } else {
        Ok(a)
    };
    match first {
        Err(e) => Err(e),
        Ok(b) => match atan_reduce_once(b) {
            Err(e) => Err(e),
            Ok(c) => match atan_reduce_once(c) {
                Err(e) => Err(e),
                Ok(z) => atan_finish(atan_core(z), flip, x),
            },
        },
    }
}

/// Mirror of the fixed-point arcsine, via the arctangent.
pub open spec fn asin_spec(x: int) -> Result<int, FlowError> {
    if x > SCALE as int || x < -(SCALE as int) {
        Err(FlowError::MathDomainError)
    } else if x == SCALE as int {
        Ok(HALF_PI_M as int)
    } else if x == -(SCALE as int) {
        Ok(-(HALF_PI_M as int))
    } else {
        match c_mul(x, x) {
            Err(e) => Err(e),
            Ok(x2) => match c_sub(SCALE as int, x2) {
                Err(e) => Err(e),
                Ok(t) => match c_sqrt(t) {
                    Err(e) => Err(e),
                    Ok(d) => match c_div(x, d) {
                        Err(e) => Err(e),
                        Ok(q) => atan_spec(q),
                    },
                },
            },
        }
    }
}

/// Halves the logarithm argument until it is below two, counting the
/// halvings in `e`.
pub open spec fn ln_shrink(x: int, e: int, fuel: nat) -> (int, int)
    decreases fuel,
{
    if x < 2 * SCALE as int || fuel == 0 {
        (x, e)
    } else {
        ln_shrink(tdiv(x, 2), e + 1, (fuel - 1) as nat)
    }
}

/// Doubles the logarithm argument until it is at least one, counting the
/// doublings negatively in `e`.
pub open spec fn ln_grow(x: int, e: int, fuel: nat) -> (int, int)
    decreases fuel,
{
    if x >= SCALE as int || fuel == 0 {
        (x, e)
    } else {
        ln_grow(2 * x, e - 1, (fuel - 1) as nat)
    }
}

/// The remaining steps of the inverse-hyperbolic-tangent series used for the
/// logarithm.
pub open spec fn atanh_terms_from(z2: int, t: int, a: int, k: nat, n: nat) -> Result<
    int,
    FlowError,
>
    decreases n - k,
{
    if k >= n {
        Ok(a)
    } else {
        match c_mul(t, z2) {
            Err(e) => Err(e),
            Ok(t1) => match c_divi(t1, (2 * k + 3) as int) {
                Err(e) => Err(e),
                Ok(c) => match c_add(a, c) {
                    Err(e) => Err(e),
                    Ok(a1) => atanh_terms_from(z2, t1, a1, k + 1, n),
                },
            },
        }
    }
}

/// The steps of the logarithm after its series: doubling the sum and adding
/// back the power-of-two contribution.
pub open spec fn ln_finish(sr: Result<int, FlowError>, e: int) -> Result<int, FlowError> {
    match sr {
        Err(er) => Err(er),
        Ok(s) => match c_muli(s, 2) {
            Err(er) => Err(er),
            Ok(s2) => match c_muli(LN_2_M as int, e) {
                Err(er) => Err(er),
                Ok(base) => c_add(s2, base),
            },
        },
    }
}

/// Mirror of the fixed-point natural logarithm.
pub open spec fn ln_spec(x: int) -> Result<int, FlowError> {
    if x <= 0 {
        Err(FlowError::MathDomainError)
    } else {
        let p = if x >= SCALE as int {
            ln_shrink(x, 0, 64)
        } else {
            ln_grow(x, 0, 64)
        };
        match c_sub(p.0, SCALE as int) {
            Err(e) => Err(e),
            Ok(num) => match c_add(p.0, SCALE as int) {
                Err(e) => Err(e),
                Ok(den) => match c_div(num, den) {
                    Err(e) => Err(e),
                    Ok(t) => match c_mul(t, t) {
                        Err(e) => Err(e),
                        Ok(t2) => ln_finish(atanh_terms_from(t2, t, t, 0, LN_TERMS as nat), p.1),
                    },
                },
            },
        }
    }
}

/// The remaining steps of the exponential series.
pub open spec fn exp_terms_from(rr: int, t: int, a: int, k: nat, n: nat) -> Result<int, FlowError>
    decreases n - k,
{
    if k >= n {
        Ok(a)
    } else {
        match c_mul(t, rr) {
            Err(e) => Err(e),
            Ok(t1) => match c_divi(t1, (k + 1) as int) {
                Err(e) => Err(e),
                Ok(t2) => match c_add(a, t2) {
                    Err(e) => Err(e),
                    Ok(a1) => exp_terms_from(rr, t2, a1, k + 1, n),
                },
            },
        }
    }
}

/// Scales a mantissa by `2^n` through checked doublings or truncating
/// halvings.
pub open spec fn pow2_scale(y: int, n: int, fuel: nat) -> Result<int, FlowError>
    decreases fuel,
{
    if n == 0 || fuel == 0 {
        Ok(y)
    } else if n > 0 {
        match c_add(y, y) {
            Err(e) => Err(e),
            Ok(z) => pow2_scale(z, n - 1, (fuel - 1) as nat),
        }
    } else {
        match c_divi(y, 2) {
            Err(e) => Err(e),
            Ok(z) => pow2_scale(z, n + 1, (fuel - 1) as nat),
        }
    }
}

/// The step of the exponential after its series: scaling by the power of
/// two that was split off.
pub open spec fn exp_finish(sr: Result<int, FlowError>, n: int) -> Result<int, FlowError> {
    match sr {
        Err(e) => Err(e),
        Ok(s) => pow2_scale(s, n, 64),
    }
}

/// Mirror of the fixed-point exponential: splits off the power of two and
/// sums the series on the remainder in `[0, ln 2)`.
pub open spec fn exp_spec(x: int) -> Result<int, FlowError> {
    if x > EXP_MAX_ARG as int {
        Err(FlowError::OutOfRange)
    } else {
        let n = x / (LN_2_M as int);
        let rr = x - n * (LN_2_M as int);
        if n < -64 {
            Ok(0)
        } else {
            exp_finish(exp_terms_from(rr, SCALE as int, SCALE as int, 0, EXP_TERMS as nat), n)
        }
    }
}

/// Mirror of the fixed-point power function `x^p = exp(p * ln(x))`.
pub open spec fn powf_spec(x: int, p: int) -> Result<int, FlowError> {
    match ln_spec(x) {
        Err(e) => Err(e),
        Ok(l) => match c_mul(p, l) {
            Err(e) => Err(e),
            Ok(t) => exp_spec(t),
        },
    }
}

/// A run of the exponential series from nonnegative state stays
/// nonnegative.
proof fn lemma_exp_terms_nonneg(rr: int, t: int, a: int, k: nat, n: nat)
    requires
        rr >= 0,
        t >= 0,
        a >= 0,
    ensures
        exp_terms_from(rr, t, a, k, n) matches Ok(s) ==> s >= 0,
    decreases n - k,
{
    if k >= n {
    } else {
        assert(t * rr >= 0) by (nonlinear_arith)
            requires
                t >= 0,
                rr >= 0,
        ;
        crate::scalar::lemma_tdiv_nonneg(t * rr, SCALE as int);
        match c_mul(t, rr) {
            Err(_) => {},
            Ok(t1) => {
                crate::scalar::lemma_tdiv_nonneg(t1, (k + 1) as int);
                match c_divi(t1, (k + 1) as int) {
                    Err(_) => {},
                    Ok(t2) => match c_add(a, t2) {
                        Err(_) => {},
                        Ok(a1) => {
                            lemma_exp_terms_nonneg(rr, t2, a1, k + 1, n);
                        },
                    },
                }
            },
        }
    }
}

/// Scaling a nonnegative mantissa by a power of two keeps it nonnegative.
proof fn lemma_pow2_scale_nonneg(y: int, n: int, fuel: nat)
    requires
        y >= 0,
    ensures
        pow2_scale(y, n, fuel) matches Ok(z) ==> z >= 0,
    decreases fuel,
{
    if n == 0 || fuel == 0 {
    } else if n > 0 {
        match c_add(y, y) {
            Err(_) => {},
            Ok(z) => {
                lemma_pow2_scale_nonneg(z, n - 1, (fuel - 1) as nat);
            },
        }
    } else {
        crate::scalar::lemma_tdiv_nonneg(y, 2);
        match c_divi(y, 2) {
            Err(_) => {},
            Ok(z) => {
                lemma_pow2_scale_nonneg(z, n + 1, (fuel - 1) as nat);
            },
        }
    }
}

/// The fixed-point exponential never yields a negative value.
pub proof fn lemma_exp_spec_nonneg(x: int)
    ensures
        exp_spec(x) matches Ok(y) ==> y >= 0,
{
    if x > EXP_MAX_ARG as int {
    } else {
        let n = x / (LN_2_M as int);
        let rr = x - n * (LN_2_M as int);
        lemma_fundamental_div_mod(x, LN_2_M as int);
        lemma_mod_division_less_than_divisor(x, LN_2_M as int);
        assert(n * (LN_2_M as int) == (LN_2_M as int) * n);
        assert(rr >= 0);
        if n < -64 {
        } else {
            lemma_exp_terms_nonneg(rr, SCALE as int, SCALE as int, 0, EXP_TERMS as nat);
            match exp_terms_from(rr, SCALE as int, SCALE as int, 0, EXP_TERMS as nat) {
                Err(_) => {},
                Ok(s) => {
                    lemma_pow2_scale_nonneg(s, n, 64);
                },
            }
        }
    }
}

/// Truncating division of an `i64` by a positive divisor.
fn trunc_div_i64(n: i64, d: i64) -> (q: i64)
    requires
        d > 0,
        n != i64::MIN,
    ensures
        q as int == tdiv(n as int, d as int),
{
    if n >= 0 {
        let qa: u64 = (n as u64) / (d as u64);
        proof {
            lemma_div_nonincreasing(n as int, d as int);
        }
        qa as i64
    } else {
        let na: u64 = (-n) as u64;
        let qa: u64 = na / (d as u64);
        proof {
            lemma_div_nonincreasing(na as int, d as int);
            lemma_div_pos_is_pos(na as int, d as int);
        }
        -(qa as i64)
    }
}

/// Euclidean (floor) division of an `i64` by a positive divisor.
fn floor_div_i64(n: i64, d: i64) -> (q: i64)
    requires
        d > 0,
        n != i64::MIN,
    ensures
        q as int == (n as int) / (d as int),
{
    if n >= 0 {
        let qa: u64 = (n as u64) / (d as u64);
        proof {
            lemma_div_nonincreasing(n as int, d as int);
        }
        qa as i64
    } else {
        let na: u64 = (-n) as u64;
        let b: u64 = (na - 1) / (d as u64) + 1;
        proof {
            let a = na as int;
            let dd = d as int;
            let u = (a - 1) / dd;
            lemma_div_nonincreasing(a - 1, dd);
            lemma_div_pos_is_pos(a - 1, dd);
            lemma_fundamental_div_mod(a - 1, dd);
            lemma_mod_division_less_than_divisor(a - 1, dd);
            let rr = (a - 1) % dd;
            // a - 1 == dd * u + rr, so n == -(a) == (-(u + 1)) * dd + (dd - rr - 1)
            assert(n as int == (-(u + 1)) * dd + (dd - rr - 1)) by (nonlinear_arith)
                requires
                    a - 1 == dd * u + rr,
                    n as int == -a,
            ;
            lemma_fundamental_div_mod_converse_div(n as int, dd, -(u + 1), dd - rr - 1);
        }
        -(b as i64)
    }
}

/// Bounds the product that reconstructs a truncating division, so the
/// remainder step cannot overflow.
proof fn lemma_tdiv_mul_bound(n: int, d: int)
    requires
        d > 0,
    ensures
        0 <= mag(tdiv(n, d) * d) <= mag(n),
        mag(n - tdiv(n, d) * d) < d,
{
    let a = mag(n);
    let u = a / d;
    lemma_fundamental_div_mod(a, d);
    lemma_mod_division_less_than_divisor(a, d);
    lemma_div_pos_is_pos(a, d);
    let rr = a % d;
    assert(a == d * u + rr);
    assert(u * d == a - rr) by (nonlinear_arith)
        requires
            a == d * u + rr,
    ;
    assert(u * d >= 0) by (nonlinear_arith)
        requires
            u >= 0,
            d > 0,
    ;
    if n >= 0 {
        assert(tdiv(n, d) * d == u * d);
    } else {
        assert(tdiv(n, d) * d == (-u) * d);
        assert((-u) * d == -(u * d)) by (nonlinear_arith);
    }
}

impl Scalar {
    /// The sine, by angle reduction and a truncated Taylor series; exact
    /// mirror in [`sin_spec`].
    pub fn sin(self) -> (r: Result<Scalar, FlowError>)
        ensures
            r_matches(r, sin_spec(self@)),
    {
        let y: Scalar = self.reduce_angle();
        let y2: Scalar = y.mul(y)?;
        let mut t: Scalar = y;
        let mut a: Scalar = y;
        let mut k: u64 = 0;
        while k < SIN_TERMS
            invariant
                k <= SIN_TERMS,
                sin_spec(self@) == sin_terms_from(y2@, t@, a@, k as nat, SIN_TERMS as nat),
            decreases SIN_TERMS - k,
        {
            proof {
                assert((2 * (k as int) + 2) * (2 * (k as int) + 3) <= 600) by (nonlinear_arith)
                    requires
                        k < 11,
                ;
            }
            let d: i64 = ((2 * k + 2) * (2 * k + 3)) as i64;
            let t1: Scalar = match t.mul(y2) {
                Ok(v) => v,
                Err(e) => {
                    return Err(e);
                },
            };
            let t2: Scalar = match t1.div_int(d) {
                Ok(v) => v,
                Err(e) => {
                    return Err(e);
                },
            };
            let t3: Scalar = t2.neg();
            let a1: Scalar = match a.add(t3) {
                Ok(v) => v,
                Err(e) => {
                    return Err(e);
                },
            };
            t = t3;
            a = a1;
            k = k + 1;
        }
        Ok(a)
    }

    /// Folds the angle into `[-pi, pi]`; exact mirror in [`sin_reduce`].
    fn reduce_angle(self) -> (r: Scalar)
        ensures
            r@ == sin_reduce(self@),
    {
        proof {
            use_type_invariant(self);
        }
        let k: i64 = trunc_div_i64(self.m, TWO_PI_M);
        proof {
            lemma_tdiv_mul_bound(self.m as int, TWO_PI_M as int);
        }
        let y: i64 = self.m - k * TWO_PI_M;
        if y > PI_M {
            Scalar::from_raw(y - TWO_PI_M)
        } else if y < -PI_M {
            Scalar::from_raw(y + TWO_PI_M)
        } else {
            Scalar::from_raw(y)
        }
    }

    /// The cosine, as the sine of the shifted argument; exact mirror in
    /// [`cos_spec`].
    pub fn cos(self) -> (r: Result<Scalar, FlowError>)
        ensures
            r_matches(r, cos_spec(self@)),
    {
        let y: Scalar = self.add(Scalar::half_pi())?;
        y.sin()
    }

    /// The tangent, as the quotient of sine and cosine; exact mirror in
    /// [`tan_spec`].
    pub fn tan(self) -> (r: Result<Scalar, FlowError>)
        ensures
            r_matches(r, tan_spec(self@)),
    {
        let s: Scalar = self.sin()?;
        let c: Scalar = self.cos()?;
        s.div(c)
    }

    /// One half-angle reduction step of the arctangent argument.
    fn atan_reduce(self) -> (r: Result<Scalar, FlowError>)
        ensures
            r_matches(r, atan_reduce_once(self@)),
    {
        let a2: Scalar = self.mul(self)?;
        let u: Scalar = Scalar::one().add(a2)?;
        let w: Scalar = u.sqrt()?;
        let dn: Scalar = Scalar::one().add(w)?;
        self.div(dn)
    }

    /// The arctangent, by inversion and half-angle reduction followed by a
    /// truncated series; exact mirror in [`atan_spec`].
    pub fn atan(self) -> (r: Result<Scalar, FlowError>)
        ensures
            r_matches(r, atan_spec(self@)),
    {
        let a: Scalar = self.abs();
        let flip: bool = a.gt(Scalar::one());
        let b: Scalar = if flip {
            Scalar::one().div(a)?
        } else {
            a
        };
        let c: Scalar = b.atan_reduce()?;
        let z: Scalar = c.atan_reduce()?;
        let z2: Scalar = z.mul(z)?;
        let mut t: Scalar = z;
        let mut acc: Scalar = z;
        let mut k: u64 = 0;
        while k < ATAN_TERMS
            invariant
                k <= ATAN_TERMS,
                atan_spec(self@) == atan_finish(
                    atan_terms_from(z2@, t@, acc@, k as nat, ATAN_TERMS as nat),
                    flip,
                    self@,
                ),
            decreases ATAN_TERMS - k,
        {
            let d: i64 = (2 * k + 3) as i64;
            let t1: Scalar = match t.mul(z2) {
                Ok(v) => v,
                Err(e) => {
                    return Err(e);
                },
            };
            let t2: Scalar = t1.neg();
            let cc: Scalar = match t2.div_int(d) {
                Ok(v) => v,
                Err(e) => {
                    return Err(e);
                },
            };
            let a1: Scalar = match acc.add(cc) {
                Ok(v) => v,
                Err(e) => {
                    return Err(e);
                },
            };
            t = t2;
            acc = a1;
            k = k + 1;
        }
        let q: Scalar = acc.mul_int(4)?;
        let w: Scalar = if flip {
            Scalar::half_pi().sub(q)?
        } else {
            q
        };
        if self.lt(Scalar::zero()) {
            Ok(w.neg())
        } else {
            Ok(w)
        }
    }

    /// The arcsine, via the arctangent; exact mirror in [`asin_spec`].
    pub fn asin(self) -> (r: Result<Scalar, FlowError>)
        ensures
            r_matches(r, asin_spec(self@)),
    {
        let one: Scalar = Scalar::one();
        if self.gt(one) || self.lt(one.neg()) {
            return Err(FlowError::MathDomainError);
        }
        if self.ge(one) {
            return Ok(Scalar::half_pi());
        }
        if self.le(one.neg()) {
            return Ok(Scalar::half_pi().neg());
        }
        let x2: Scalar = self.mul(self)?;
        let t: Scalar = one.sub(x2)?;
        let d: Scalar = t.sqrt()?;
        let q: Scalar = self.div(d)?;
        q.atan()
    }

    /// The natural logarithm, by scaling into `[1, 2)` and a truncated
    /// inverse-hyperbolic-tangent series; exact mirror in [`ln_spec`].
    pub fn ln(self) -> (r: Result<Scalar, FlowError>)
        ensures
            r_matches(r, ln_spec(self@)),
    {
        proof {
            use_type_invariant(self);
        }
        if self.m <= 0 {
            return Err(FlowError::MathDomainError);
        }
        let mut y: i64 = self.m;
        let mut e: i64 = 0;
        let mut fuel: u64 = 64;
        if self.m >= SCALE {
            while y >= 2 * SCALE && fuel > 0
                invariant
                    0 < y <= MAX_MANTISSA,
                    fuel <= 64,
                    e == 64 - fuel,
                    ln_shrink(y as int, e as int, fuel as nat) == ln_shrink(
                        self@,
                        0,
                        64,
                    ),
                decreases fuel,
            {
                let yh: i64 = trunc_div_i64(y, 2);
                proof {
                    lemma_div_pos_is_pos(y as int, 2);
                    lemma_div_is_ordered(2 * SCALE as int, y as int, 2);
                    lemma_div_nonincreasing(y as int, 2);
                }
                y = yh;
                e = e + 1;
                fuel = fuel - 1;
            }
        } else {
            while y < SCALE && fuel > 0
                invariant
                    0 < y <= MAX_MANTISSA,
                    fuel <= 64,
                    e == fuel - 64,
                    ln_grow(y as int, e as int, fuel as nat) == ln_grow(self@, 0, 64),
                decreases fuel,
            {
                y = 2 * y;
                e = e - 1;
                fuel = fuel - 1;
            }
        }
        let ys: Scalar = Scalar::from_raw(y);
        let one: Scalar = Scalar::one();
        let num: Scalar = ys.sub(one)?;
        let den: Scalar = ys.add(one)?;
        let t: Scalar = num.div(den)?;
        let t2: Scalar = t.mul(t)?;
        let mut term: Scalar = t;
        let mut acc: Scalar = t;
        let mut k: u64 = 0;
        while k < LN_TERMS
            invariant
                k <= LN_TERMS,
                -64 <= e <= 64,
                ln_spec(self@) == ln_finish(
                    atanh_terms_from(t2@, term@, acc@, k as nat, LN_TERMS as nat),
                    e as int,
                ),
            decreases LN_TERMS - k,
        {
            let d: i64 = (2 * k + 3) as i64;
            let t1: Scalar = match term.mul(t2) {
                Ok(v) => v,
                Err(er) => {
                    return Err(er);
                },
            };
            let cc: Scalar = match t1.div_int(d) {
                Ok(v) => v,
                Err(er) => {
                    return Err(er);
                },
            };
            let a1: Scalar = match acc.add(cc) {
                Ok(v) => v,
                Err(er) => {
                    return Err(er);
                },
            };
            term = t1;
            acc = a1;
            k = k + 1;
        }
        let s2: Scalar = acc.mul_int(2)?;
        let base: Scalar = Scalar::ln_2().mul_int(e)?;
        s2.add(base)
    }

    /// The exponential, by splitting off the power of two and a truncated
    /// series on the remainder; exact mirror in [`exp_spec`].  A successful
    /// result is never negative.
    pub fn exp(self) -> (r: Result<Scalar, FlowError>)
        ensures
            r_matches(r, exp_spec(self@)),
            r matches Ok(y) ==> y@ >= 0,
    {
        proof {
            use_type_invariant(self);
            lemma_exp_spec_nonneg(self@);
        }
        if self.m > EXP_MAX_ARG {
            return Err(FlowError::OutOfRange);
        }
        let n: i64 = floor_div_i64(self.m, LN_2_M);
        proof {
            lemma_fundamental_div_mod(self.m as int, LN_2_M as int);
            lemma_mod_division_less_than_divisor(self.m as int, LN_2_M as int);
            assert((self.m as int) / (LN_2_M as int) * (LN_2_M as int) == (LN_2_M as int) * ((self.m
                as int) / (LN_2_M as int)));
            lemma_div_is_ordered(self.m as int, EXP_MAX_ARG as int, LN_2_M as int);
            assert((EXP_MAX_ARG as int) / (LN_2_M as int) <= 64);
        }
        let nd: i64 = n * LN_2_M;
        let rr: i64 = self.m - nd;
        if n < -64 {
            return Ok(Scalar::zero());
        }
        let rs: Scalar = Scalar::from_raw(rr);
        let one: Scalar = Scalar::one();
        let mut term: Scalar = one;
        let mut acc: Scalar = one;
        let mut k: u64 = 0;
        while k < EXP_TERMS
            invariant
                k <= EXP_TERMS,
                -64 <= n <= 64,
                exp_spec(self@) == exp_finish(
                    exp_terms_from(rs@, term@, acc@, k as nat, EXP_TERMS as nat),
                    n as int,
                ),
            decreases EXP_TERMS - k,
        {
            let d: i64 = (k + 1) as i64;
            let t1: Scalar = match term.mul(rs) {
                Ok(v) => v,
                Err(er) => {
                    return Err(er);
                },
            };
            let t2: Scalar = match t1.div_int(d) {
                Ok(v) => v,
                Err(er) => {
                    return Err(er);
                },
            };
            let a1: Scalar = match acc.add(t2) {
                Ok(v) => v,
                Err(er) => {
                    return Err(er);
                },
            };
            term = t2;
            acc = a1;
            k = k + 1;
        }
        // scale by 2^n
        let mut yv: Scalar = acc;
        if n >= 0 {
            let mut i: i64 = n;
            while i > 0
                invariant
                    0 <= i <= n,
                    n <= 64,
                    exp_spec(self@) == pow2_scale(yv@, i as int, (64 - (n - i)) as nat),
                decreases i,
            {
                let z: Scalar = match yv.add(yv) {
                    Ok(v) => v,
                    Err(er) => {
                        return Err(er);
                    },
                };
                yv = z;
                i = i - 1;
            }
        } else {
            let mut i: i64 = n;
            while i < 0
                invariant
                    n <= i <= 0,
                    -64 <= n,
                    exp_spec(self@) == pow2_scale(yv@, i as int, (64 - (i - n)) as nat),
                decreases -i,
            {
                let z: Scalar = match yv.div_int(2) {
                    Ok(v) => v,
                    Err(er) => {
                        return Err(er);
                    },
                };
                yv = z;
                i = i + 1;
            }
        }
        Ok(yv)
    }

    /// The power function `x^p = exp(p * ln(x))`; exact mirror in
    /// [`powf_spec`].  A successful result is never negative.
    pub fn powf(self, p: Scalar) -> (r: Result<Scalar, FlowError>)
        ensures
            r_matches(r, powf_spec(self@, p@)),
            r matches Ok(y) ==> y@ >= 0,
    {
        let l: Scalar = self.ln()?;
        let t: Scalar = p.mul(l)?;
        t.exp()
    }
}

} // verus!
