use vstd::prelude::*;

use crate::error::OracleError;
use vstd::arithmetic::div_mod::lemma_div_denominator;
use vstd::arithmetic::div_mod::lemma_div_multiples_vanish;
use vstd::arithmetic::mul::lemma_mul_inequality;
use vstd::arithmetic::mul::lemma_mul_is_commutative;
use vstd::arithmetic::mul::lemma_mul_is_associative;

verus! {

/// `10^18`: the scaled representation of one in a [`Decimal`].
pub const WAD: u128 = 1_000_000_000_000_000_000;

/// The number of fractional decimal digits carried by a [`Decimal`].
pub const WAD_DIGITS: u32 = 18;

/// One hundred percent, in basis points.
pub const BPS_SCALE: u128 = 10_000;

/// `10^n`.
pub open spec fn pow10(n: nat) -> nat
    decreases n,
{
    if n == 0 {
        1
    } else {
        10 * pow10((n - 1) as nat)
    }
}

/// `|e|` as a natural number.
pub open spec fn abs_nat(e: int) -> nat {
    if e >= 0 {
        e as nat
    } else {
        (-e) as nat
    }
}

/// The exact scaled value of `m * 10^e` (truncated toward zero when `e < 0`),
/// with the 18 fractional digits of a [`Decimal`].
pub open spec fn scaled_from(m: nat, e: int) -> nat {
    if e >= 0 {
        m * pow10(e as nat) * (WAD as nat)
    } else {
        (m * (WAD as nat)) / pow10(abs_nat(e))
    }
}

/// What converting a signed price `price * 10^expo` gives: the price must not
/// be negative, `10^|expo|` must fit in 64 bits, and the result in a `Decimal`.
pub open spec fn price_decimal(price: int, expo: int) -> Result<nat, OracleError> {
    if price < 0 {
        Err(OracleError::NegativePrice)
    } else if pow10(abs_nat(expo)) > u64::MAX {
        Err(OracleError::ArithmeticOverflow)
    } else if scaled_from(price as nat, expo) > decimal_max() {
        Err(OracleError::ArithmeticOverflow)
    } else {
        Ok(scaled_from(price as nat, expo))
    }
}

/// What converting a signed mantissa `mantissa / 10^scale` gives: the mantissa
/// must not be negative, `10^scale` must fit in 128 bits, and the result in a
/// `Decimal`.
pub open spec fn mantissa_decimal(mantissa: int, scale: nat) -> Result<nat, OracleError> {
    if mantissa < 0 {
        Err(OracleError::NegativePrice)
    } else if pow10(scale) > u128::MAX {
        Err(OracleError::ArithmeticOverflow)
    } else if scaled_from(mantissa as nat, -(scale as int)) > decimal_max() {
        Err(OracleError::ArithmeticOverflow)
    } else {
        Ok(scaled_from(mantissa as nat, -(scale as int)))
    }
}

/// The scaled value of `price` after an offset of `offset_bps` basis points:
/// `price * (10000 + offset_bps) / 10000`, truncated.
pub open spec fn offset_decimal(price: nat, offset_bps: int) -> Result<nat, OracleError> {
    if BPS_SCALE + offset_bps < 0 {
        Err(OracleError::NegativePrice)
    } else if price * (BPS_SCALE + offset_bps) > decimal_max() {
        Err(OracleError::ArithmeticOverflow)
    } else {
        Ok(((price * (BPS_SCALE + offset_bps)) / (BPS_SCALE as int)) as nat)
    }
}

/// Every power of ten is at least one.
pub proof fn lemma_pow10_positive(n: nat)
    ensures
        pow10(n) >= 1,
    decreases n,
{
    if n > 0 {
        lemma_pow10_positive((n - 1) as nat);
    }
}

/// Powers of ten multiply by adding exponents.
pub proof fn lemma_pow10_add(a: nat, b: nat)
    ensures
        pow10(a + b) == pow10(a) * pow10(b),
    decreases a,
{
    if a > 0 {
        let a1 = (a - 1) as nat;
        lemma_pow10_add(a1, b);
        assert(pow10(a) == 10 * pow10(a1));
        assert((a + b) as nat - 1 == a1 + b);
        assert(pow10(a + b) == 10 * pow10(a1 + b));
        lemma_mul_is_associative(10, pow10(a1) as int, pow10(b) as int);
        assert(pow10(a + b) == (10 * pow10(a1)) * pow10(b));
    } else {
        assert(pow10(a) == 1);
        assert(a + b == b);
    }
}

/// Powers of ten grow with the exponent.
pub proof fn lemma_pow10_monotone(a: nat, b: nat)
    requires
        a <= b,
    ensures
        pow10(a) <= pow10(b),
{
    lemma_pow10_add(a, (b - a) as nat);
    lemma_pow10_positive((b - a) as nat);
    lemma_pow10_positive(a);
    lemma_mul_inequality(1, pow10((b - a) as nat) as int, pow10(a) as int);
}

/// `WAD` is `10^18`.
pub proof fn lemma_wad_is_pow10()
    ensures
        WAD == pow10(18),
{
    reveal_with_fuel(pow10, 19);
}

/// Exponent scaling is exact: a non-negative price whose power of ten fits
/// converts to exactly `m * 10^e` with 18 fractional digits, as `scaled_from`
/// defines it; scaling a magnitude up by `10^k` and back down by the same
/// exponent gives the magnitude itself; and dividing a multiple of `10^|e|`
/// leaves no remainder behind.
pub proof fn lemma_exponent_scaling_exact(m: nat, e: int, k: nat)
    requires
        m <= i64::MAX,
        pow10(abs_nat(e)) <= u64::MAX,
        scaled_from(m, e) <= decimal_max(),
    ensures
        price_decimal(m as int, e) == Ok::<nat, OracleError>(scaled_from(m, e)),
        scaled_from(m * pow10(k), -(k as int)) == scaled_from(m, 0),
        e < 0 && m % pow10(abs_nat(e)) == 0 ==> scaled_from(m, e) == (m / pow10(abs_nat(e)))
            * (WAD as nat),
{
    let p = pow10(k) as int;
    lemma_pow10_positive(k);
    assert(abs_nat(-(k as int)) == k);
    assert(pow10(0) == 1);
    assert(m * p * (WAD as int) == p * (m * (WAD as int))) by {
        lemma_mul_is_associative(m as int, p, WAD as int);
        lemma_mul_is_commutative(m as int, p);
        lemma_mul_is_associative(p, m as int, WAD as int);
    }
    lemma_div_multiples_vanish(m * (WAD as int), p);
    assert(scaled_from(m, 0) == m * (WAD as int)) by {
        assert(m * pow10(0) == m);
    }
    if k == 0 {
        assert(m * pow10(k) == m);
    } else {
        assert(scaled_from(m * pow10(k), -(k as int)) == (m * p * (WAD as int)) / p);
    }
    if e < 0 && m % pow10(abs_nat(e)) == 0 {
        let q = pow10(abs_nat(e)) as int;
        lemma_pow10_positive(abs_nat(e));
        let d = m as int / q;
        assert(m as int == q * d) by {
            vstd::arithmetic::div_mod::lemma_fundamental_div_mod(m as int, q);
        }
        assert(m * (WAD as int) == q * (d * (WAD as int))) by {
            lemma_mul_is_associative(q, d, WAD as int);
        }
        lemma_div_multiples_vanish(d * (WAD as int), q);
    }
}

/// `2^64`: the base of a [`Decimal`]'s limbs.
pub const LIMB: u128 = 0x1_0000_0000_0000_0000;

/// The largest scaled value that a [`Decimal`] holds: `2^192 - 1`.
pub open spec fn decimal_max() -> nat {
    (LIMB * LIMB * LIMB - 1) as nat
}

/// A non-negative fixed-point number with 18 fractional decimal digits, held
/// as its scaled integer value in three 64-bit limbs (192 bits).
#[derive(Clone, Copy, Debug, PartialEq, Eq, Structural)]
pub struct Decimal {
    lo: u64,
    mid: u64,
    hi: u64,
}

impl View for Decimal {
    type V = nat;

    /// The scaled value: the number times `10^18`.
    closed spec fn view(&self) -> nat {
        (self.lo + self.mid * LIMB + self.hi * LIMB * LIMB) as nat
    }
}

/// The scaled values carried by a conversion's result.
pub open spec fn decimal_result(r: Result<Decimal, OracleError>) -> Result<nat, OracleError> {
    match r {
        Ok(d) => Ok(d@),
        Err(e) => Err(e),
    }
}

impl Decimal {
    /// Every decimal's scaled value is at most `decimal_max()`.
    pub proof fn lemma_bounded(&self)
        ensures
            self@ <= decimal_max(),
    {
    }

    /// The decimal whose scaled value is `scaled`.
    pub fn from_scaled(scaled: u128) -> (r: Decimal)
        ensures
            r@ == scaled,
    {
        Decimal { lo: (scaled % LIMB) as u64, mid: (scaled / LIMB) as u64, hi: 0 }
    }

    /// The whole number `v`.
    pub fn from_u64(v: u64) -> (r: Decimal)
        ensures
            r@ == v * WAD,
    {
        assert(v * WAD <= u128::MAX) by (nonlinear_arith)
            requires
                v <= u64::MAX,
        ;
        Decimal::from_scaled(v as u128 * WAD)
    }

    /// `self * k`, or `None` when it exceeds `decimal_max()`.
    fn mul_word(&self, k: u64) -> (r: Option<Decimal>)
        ensures
            match r {
                Some(d) => d@ == self@ * k,
                None => self@ * k > decimal_max(),
            },
    {
        let (lo, mid, hi) = (self.lo as u128, self.mid as u128, self.hi as u128);
        let kk = k as u128;
        assert(lo * kk <= (LIMB - 1) * (LIMB - 1)) by (nonlinear_arith)
            requires
                lo < LIMB,
                kk < LIMB,
        ;
        assert(mid * kk <= (LIMB - 1) * (LIMB - 1)) by (nonlinear_arith)
            requires
                mid < LIMB,
                kk < LIMB,
        ;
        assert(hi * kk <= (LIMB - 1) * (LIMB - 1)) by (nonlinear_arith)
            requires
                hi < LIMB,
                kk < LIMB,
        ;
        let t0: u128 = lo * kk;
        let r0: u128 = t0 % LIMB;
        let c0: u128 = t0 / LIMB;
        let t1: u128 = mid * kk + c0;
        let r1: u128 = t1 % LIMB;
        let c1: u128 = t1 / LIMB;
        let t2: u128 = hi * kk + c1;
        proof {
            let b = LIMB as int;
            assert(self@ * k == lo * kk + (mid * kk) * b + (hi * kk) * (b * b)) by (nonlinear_arith)
                requires
                    self@ == lo + mid * b + hi * b * b,
                    kk == k,
            ;
            vstd::arithmetic::div_mod::lemma_fundamental_div_mod(t0 as int, b);
            vstd::arithmetic::div_mod::lemma_fundamental_div_mod(t1 as int, b);
            assert(self@ * k == r0 + r1 * b + t2 * (b * b)) by (nonlinear_arith)
                requires
                    self@ * k == lo * kk + (mid * kk) * b + (hi * kk) * (b * b),
                    t0 == lo * kk,
                    t0 == b * c0 + r0,
                    t1 == mid * kk + c0,
                    t1 == b * c1 + r1,
                    t2 == hi * kk + c1,
            ;
        }
        if t2 >= LIMB {
            return None;
        }
        Some(Decimal { lo: r0 as u64, mid: r1 as u64, hi: t2 as u64 })
    }

    /// `self / d`, truncated.
    fn div_word(&self, d: u64) -> (r: Decimal)
        requires
            d > 0,
        ensures
            r@ == self@ / (d as nat),
    {
        let dd = d as u128;
        let q2: u64 = self.hi / d;
        let r2: u128 = (self.hi % d) as u128;
        assert(r2 * LIMB + self.mid <= (dd - 1) * LIMB + (LIMB - 1)) by (nonlinear_arith)
            requires
                r2 <= dd - 1,
                self.mid < LIMB,
        ;
        assert((dd - 1) * LIMB + (LIMB - 1) < dd * LIMB) by (nonlinear_arith);
        assert(dd * LIMB <= u128::MAX) by (nonlinear_arith)
            requires
                dd < LIMB,
        ;
        let t1: u128 = r2 * LIMB + self.mid as u128;
        let q1: u128 = t1 / dd;
        let rem1: u128 = t1 % dd;
        assert(rem1 * LIMB + self.lo <= (dd - 1) * LIMB + (LIMB - 1)) by (nonlinear_arith)
            requires
                rem1 <= dd - 1,
                self.lo < LIMB,
        ;
        let t0: u128 = rem1 * LIMB + self.lo as u128;
        let q0: u128 = t0 / dd;
        let rem0: u128 = t0 % dd;
        proof {
            let b = LIMB as int;
            let di = d as int;
            vstd::arithmetic::div_mod::lemma_fundamental_div_mod(self.hi as int, di);
            vstd::arithmetic::div_mod::lemma_fundamental_div_mod(t1 as int, di);
            vstd::arithmetic::div_mod::lemma_fundamental_div_mod(t0 as int, di);
            assert(q1 < LIMB) by (nonlinear_arith)
                requires
                    t1 < dd * LIMB,
                    q1 == t1 / dd,
                    dd > 0,
            ;
            assert(q0 < LIMB) by (nonlinear_arith)
                requires
                    t0 < dd * LIMB,
                    q0 == t0 / dd,
                    dd > 0,
            ;
            let big_q = q0 + q1 * b + q2 * b * b;
            assert(self@ == big_q * di + rem0) by (nonlinear_arith)
                requires
                    self@ == self.lo + self.mid * b + self.hi * b * b,
                    self.hi == di * q2 + r2,
                    t1 == r2 * b + self.mid,
                    t1 == di * q1 + rem1,
                    t0 == rem1 * b + self.lo,
                    t0 == di * q0 + rem0,
                    big_q == q0 + q1 * b + q2 * b * b,
            ;
            vstd::arithmetic::div_mod::lemma_fundamental_div_mod_converse_div(
                self@ as int,
                di,
                big_q,
                rem0 as int,
            );
        }
        Decimal { lo: q0 as u64, mid: q1 as u64, hi: q2 }
    }

    /// `self * k`, or `ArithmeticOverflow` when it does not fit.
    pub fn try_mul_u64(&self, k: u64) -> (r: Result<Decimal, OracleError>)
        ensures
            decimal_result(r) == (if self@ * (k as nat) <= decimal_max() {
                Ok::<nat, OracleError>(self@ * (k as nat))
            } else {
                Err::<nat, OracleError>(OracleError::ArithmeticOverflow)
            }),
    {
        match self.mul_word(k) {
            Some(v) => Ok(v),
            None => Err(OracleError::ArithmeticOverflow),
        }
    }

    /// Whether `self` is strictly greater than `other`.
    pub fn gt(&self, other: &Decimal) -> (r: bool)
        ensures
            r == (self@ > other@),
    {
        if self.hi != other.hi {
            self.hi > other.hi
        } else if self.mid != other.mid {
            self.mid > other.mid
        } else {
            self.lo > other.lo
        }
    }
}

/// `10^n`, or `None` when it does not fit in 128 bits.
pub fn checked_pow10(n: u32) -> (r: Option<u128>)
    ensures
        match r {
            Some(v) => v == pow10(n as nat),
            None => pow10(n as nat) > u128::MAX,
        },
{
    let mut v: u128 = 1;
    let mut i: u32 = 0;
    while i < n
        invariant
            i <= n,
            v == pow10(i as nat),
        decreases n - i,
    {
        if v > u128::MAX / 10 {
            proof {
                lemma_pow10_monotone((i + 1) as nat, n as nat);
            }
            return None;
        }
        v = v * 10;
        i = i + 1;
    }
    Some(v)
}

/// Converts the price `price * 10^expo` of a Pyth quote to a [`Decimal`].
///
/// A negative price is refused with `NegativePrice`; an exponent whose power
/// of ten does not fit in 64 bits, or a result that does not fit, with
/// `ArithmeticOverflow`.
pub fn price_to_decimal(price: i64, expo: i32) -> (r: Result<Decimal, OracleError>)
    ensures
        decimal_result(r) == price_decimal(price as int, expo as int),
{
    if price < 0 {
        return Err(OracleError::NegativePrice);
    }
    let p: u128 = price as u128;
    let abs_expo: u32 = if expo >= 0 {
        expo as u32
    } else {
        (-(expo as i64)) as u32
    };
    assert(abs_expo as nat == abs_nat(expo as int));
    let power = match checked_pow10(abs_expo) {
        Some(v) => v,
        None => return Err(OracleError::ArithmeticOverflow),
    };
    if power > u64::MAX as u128 {
        return Err(OracleError::ArithmeticOverflow);
    }
    if expo >= 0 {
        assert(p * power <= u128::MAX) by (nonlinear_arith)
            requires
                p <= u64::MAX,
                power <= u64::MAX,
        ;
        let t: u128 = p * power;
        match Decimal::from_scaled(t).mul_word(WAD as u64) {
            Some(v) => Ok(v),
            None => Err(OracleError::ArithmeticOverflow),
        }
    } else {
        assert(p * WAD <= u128::MAX) by (nonlinear_arith)
            requires
                p <= u64::MAX,
        ;
        let n: u128 = p * WAD;
        proof {
            lemma_pow10_positive(abs_expo as nat);
        }
        Ok(Decimal::from_scaled(n / power))
    }
}

/// Converts the value `mantissa / 10^scale` of a Switchboard result to a
/// [`Decimal`].
///
/// A negative mantissa is refused with `NegativePrice`; a scale whose power of
/// ten does not fit in 128 bits, or a result that does not fit, with
/// `ArithmeticOverflow`.
pub fn mantissa_to_decimal(mantissa: i128, scale: u32) -> (r: Result<Decimal, OracleError>)
    ensures
        decimal_result(r) == mantissa_decimal(mantissa as int, scale as nat),
{
    if mantissa < 0 {
        return Err(OracleError::NegativePrice);
    }
    let m: u128 = mantissa as u128;
    let power = match checked_pow10(scale) {
        Some(v) => v,
        None => return Err(OracleError::ArithmeticOverflow),
    };
    proof {
        lemma_wad_is_pow10();
        assert(abs_nat(-(scale as int)) == scale as nat);
    }
    if scale <= WAD_DIGITS {
        proof {
            lemma_pow10_monotone((18 - scale) as nat, 18);
        }
        let up = match checked_pow10(WAD_DIGITS - scale) {
            Some(v) => v,
            None => return Err(OracleError::ArithmeticOverflow),
        };
        proof {
            let k = (18 - scale) as nat;
            let (mi, ui, pi) = (m as int, up as int, power as int);
            lemma_pow10_add(k, scale as nat);
            assert(k + scale as nat == 18);
            assert(WAD as int == ui * pi);
            lemma_pow10_positive(scale as nat);
            lemma_mul_is_associative(mi, ui, pi);
            lemma_mul_is_commutative(mi * ui, pi);
            lemma_div_multiples_vanish(mi * ui, pi);
            assert((mi * (WAD as int)) / pi == mi * ui);
            assert(scaled_from(mantissa as nat, -(scale as int)) == mi * ui);
        }
        proof {
            lemma_wad_is_pow10();
        }
        match Decimal::from_scaled(m).mul_word(up as u64) {
            Some(v) => Ok(v),
            None => Err(OracleError::ArithmeticOverflow),
        }
    } else {
        proof {
            lemma_pow10_monotone((scale - 18) as nat, scale as nat);
        }
        let down = match checked_pow10(scale - WAD_DIGITS) {
            Some(v) => v,
            None => return Err(OracleError::ArithmeticOverflow),
        };
        proof {
            let k = (scale - 18) as nat;
            let (mi, di, wi) = (m as int, down as int, WAD as int);
            lemma_pow10_add(18, k);
            assert(18 + k == scale as nat);
            assert(power as int == wi * di);
            lemma_pow10_positive(k);
            lemma_mul_is_commutative(mi, wi);
            lemma_div_multiples_vanish(mi, wi);
            lemma_div_denominator(mi * wi, wi, di);
            assert((mi * wi) / (power as int) == mi / di);
            assert(scaled_from(mantissa as nat, -(scale as int)) == mi / di);
        }
        Ok(Decimal::from_scaled(m / down))
    }
}

/// Applies an offset of `offset_bps` basis points to `price`:
/// `price * (10000 + offset_bps) / 10000`, truncated.
///
/// An offset below -100% is refused with `NegativePrice`, and an intermediate
/// product that does not fit with `ArithmeticOverflow`.
pub fn apply_price_offset(price: Decimal, offset_bps: i64) -> (r: Result<Decimal, OracleError>)
    ensures
        decimal_result(r) == offset_decimal(price@, offset_bps as int),
{
    let factor: i128 = BPS_SCALE as i128 + offset_bps as i128;
    if factor < 0 {
        return Err(OracleError::NegativePrice);
    }
    match price.mul_word(factor as u64) {
        Some(v) => Ok(v.div_word(BPS_SCALE as u64)),
        None => Err(OracleError::ArithmeticOverflow),
    }
}

} // verus!
