//! Exact decimal money values.
//!
//! A `Money` holds the mantissa and scale of a `rust_decimal::Decimal`. Every
//! operation goes through `rust_decimal`, and each is stated over the model
//! `Dec`: the result's mantissa and scale, not only its value. Division by 100
//! is exact in value; its representation is named (`decimal_quotient`) apart
//! from the cases its source makes plain.

use rust_decimal::Decimal;
use vstd::prelude::*;

verus! {

/// Largest mantissa magnitude a decimal can hold (2^96 - 1).
pub const MAX_MANTISSA: i128 = 79228162514264337593543950335i128;

/// Largest number of fractional digits a decimal can hold.
pub const MAX_SCALE: u32 = 28u32;

/// 10 to the power `n`.
pub open spec fn pow10(n: nat) -> int
    decreases n,
{
    if n == 0 {
        1
    } else {
        10 * pow10((n - 1) as nat)
    }
}

/// The mathematical model of a decimal: the value `m / 10^s`, kept with its scale.
pub struct Dec {
    pub m: int,
    pub s: nat,
}

/// The decimal zero as `Decimal::ZERO` holds it.
pub open spec fn dec_zero() -> Dec {
    Dec { m: 0, s: 0 }
}

/// A decimal that `rust_decimal` can represent.
pub open spec fn dec_wf(d: Dec) -> bool {
    &&& d.s <= MAX_SCALE
    &&& -MAX_MANTISSA <= d.m <= MAX_MANTISSA
}

pub open spec fn nat_max(a: nat, b: nat) -> nat {
    if a >= b {
        a
    } else {
        b
    }
}

pub open spec fn int_abs(x: int) -> int {
    if x < 0 {
        -x
    } else {
        x
    }
}

/// The sum as `rust_decimal` forms it when nothing overflows: a zero operand
/// yields the other operand unchanged, otherwise both are aligned to the larger scale.
pub open spec fn dec_add(a: Dec, b: Dec) -> Dec {
    if a.m == 0 {
        b
    } else if b.m == 0 {
        a
    } else {
        let s = nat_max(a.s, b.s);
        Dec { m: a.m * pow10((s - a.s) as nat) + b.m * pow10((s - b.s) as nat), s }
    }
}

pub open spec fn dec_neg(a: Dec) -> Dec {
    Dec { m: -a.m, s: a.s }
}

/// The difference, formed as the sum with the negated right operand.
pub open spec fn dec_sub(a: Dec, b: Dec) -> Dec {
    dec_add(a, dec_neg(b))
}

/// The product as `rust_decimal` forms it when nothing overflows: zero if either
/// operand is zero, otherwise mantissas multiply and scales add.
pub open spec fn dec_mul(a: Dec, b: Dec) -> Dec {
    if a.m == 0 || b.m == 0 {
        dec_zero()
    } else {
        Dec { m: a.m * b.m, s: a.s + b.s }
    }
}

/// `a` divided by 100, written by moving the decimal point two places.
pub open spec fn dec_centi(a: Dec) -> Dec {
    Dec { m: a.m, s: a.s + 2 }
}

/// One hundred, as `Decimal::from(100)` holds it.
pub open spec fn dec_hundred() -> Dec {
    Dec { m: 100, s: 0 }
}

/// The quotient `a / b` as `rust_decimal` forms it (its scale comes out of the
/// division's remainder loop and unscaling).
pub uninterp spec fn decimal_quotient(a: Dec, b: Dec) -> Dec;

/// `a / 100` as `rust_decimal` forms it.
pub open spec fn dec_hundredth(a: Dec) -> Dec {
    decimal_quotient(a, dec_hundred())
}

/// `percent` per cent of `base`, formed as `base * (percent / 100)`.
pub open spec fn dec_percent_of(base: Dec, percent: Dec) -> Dec {
    dec_mul(base, dec_hundredth(percent))
}

/// Round-half-to-even of `mag / d` for a non-negative `mag` and positive `d`.
pub open spec fn round_half_even(mag: int, d: int) -> int {
    let q = mag / d;
    let r = mag % d;
    if 2 * r > d || (2 * r == d && q % 2 == 1) {
        q + 1
    } else {
        q
    }
}

/// `round_dp(dp)`: banker's rounding to `dp` fractional digits; a value with at
/// most `dp` digits is returned unchanged.
pub open spec fn dec_round(a: Dec, dp: nat) -> Dec {
    if a.s <= dp {
        a
    } else {
        let q = round_half_even(int_abs(a.m), pow10((a.s - dp) as nat));
        Dec { m: if a.m < 0 { -q } else { q }, s: dp }
    }
}

/// Both aligned operands and the sum fit in a decimal mantissa.
pub open spec fn add_exact(a: Dec, b: Dec) -> bool {
    a.m == 0 || b.m == 0 || {
        let s = nat_max(a.s, b.s);
        let x = a.m * pow10((s - a.s) as nat);
        let y = b.m * pow10((s - b.s) as nat);
        &&& -MAX_MANTISSA <= x <= MAX_MANTISSA
        &&& -MAX_MANTISSA <= y <= MAX_MANTISSA
        &&& -MAX_MANTISSA <= x + y <= MAX_MANTISSA
    }
}

pub open spec fn sub_exact(a: Dec, b: Dec) -> bool {
    add_exact(a, dec_neg(b))
}

/// The product fits without rounding.
pub open spec fn mul_exact(a: Dec, b: Dec) -> bool {
    a.m == 0 || b.m == 0 || (a.s + b.s <= MAX_SCALE && -MAX_MANTISSA <= a.m * b.m
        <= MAX_MANTISSA)
}

/// `percent / 100` needs at most 28 fractional digits, and `base` times it
/// fits exactly when written at scale `percent.s + 2`.
pub open spec fn percent_exact(base: Dec, percent: Dec) -> bool {
    &&& percent.s + 2 <= MAX_SCALE
    &&& mul_exact(base, dec_centi(percent))
}

/// Value comparison `a < b`, by cross multiplication.
pub open spec fn dec_lt(a: Dec, b: Dec) -> bool {
    a.m * pow10(b.s) < b.m * pow10(a.s)
}

/// Value comparison `a <= b`.
pub open spec fn dec_le(a: Dec, b: Dec) -> bool {
    a.m * pow10(b.s) <= b.m * pow10(a.s)
}

/// Value equality.
pub open spec fn dec_eq(a: Dec, b: Dec) -> bool {
    a.m * pow10(b.s) == b.m * pow10(a.s)
}

/// `a.min(b)` for a total order: `b` when `b < a`, else `a`.
pub open spec fn dec_min(a: Dec, b: Dec) -> Dec {
    if dec_lt(b, a) {
        b
    } else {
        a
    }
}

/// `a.max(b)` for a total order: `a` when `b < a`, else `b`.
pub open spec fn dec_max(a: Dec, b: Dec) -> Dec {
    if dec_lt(b, a) {
        a
    } else {
        b
    }
}

/// The sum of a sequence, accumulated from `Decimal::ZERO` left to right.
pub open spec fn dec_sum(s: Seq<Dec>) -> Dec
    decreases s.len(),
{
    if s.len() == 0 {
        dec_zero()
    } else {
        dec_add(dec_sum(s.drop_last()), s.last())
    }
}

/// Every partial sum of `s` is exact.
pub open spec fn sum_exact(s: Seq<Dec>) -> bool {
    &&& forall|i: int| 0 <= i < s.len() ==> dec_wf(#[trigger] s[i])
    &&& forall|k: int|
        0 <= k < s.len() ==> add_exact(#[trigger] dec_sum(s.take(k)), s[k])
}

pub proof fn lemma_pow10_pos(n: nat)
    ensures
        pow10(n) >= 1,
        n >= 1 ==> pow10(n) >= 10,
    decreases n,
{
    if n > 0 {
        lemma_pow10_pos((n - 1) as nat);
    }
}

pub proof fn lemma_pow10_add(a: nat, b: nat)
    ensures
        pow10(a + b) == pow10(a) * pow10(b),
    decreases a,
{
    if a > 0 {
        lemma_pow10_add((a - 1) as nat, b);
        assert(pow10(a + b) == 10 * pow10((a - 1 + b) as nat));
        assert(10 * (pow10((a - 1) as nat) * pow10(b)) == (10 * pow10((a - 1) as nat)) * pow10(
            b,
        )) by (nonlinear_arith);
    }
}

pub proof fn lemma_add_wf(a: Dec, b: Dec)
    requires
        dec_wf(a),
        dec_wf(b),
        add_exact(a, b),
    ensures
        dec_wf(dec_add(a, b)),
{
}

pub proof fn lemma_sub_wf(a: Dec, b: Dec)
    requires
        dec_wf(a),
        dec_wf(b),
        sub_exact(a, b),
    ensures
        dec_wf(dec_sub(a, b)),
{
}

pub proof fn lemma_mul_wf(a: Dec, b: Dec)
    requires
        dec_wf(a),
        dec_wf(b),
        mul_exact(a, b),
    ensures
        dec_wf(dec_mul(a, b)),
{
}

/// The percentage has the value of `base * percent / 100`.
pub proof fn lemma_percent_value(base: Dec, percent: Dec)
    requires
        dec_eq(dec_hundredth(percent), dec_centi(percent)),
        percent.m == 0 ==> dec_hundredth(percent) == dec_zero(),
    ensures
        dec_eq(dec_percent_of(base, percent), dec_centi(dec_mul(base, percent))),
{
    let h = dec_hundredth(percent);
    let c = dec_centi(percent);
    if base.m != 0 && percent.m != 0 {
        assert(h.m != 0) by {
            if h.m == 0 {
                lemma_pow10_pos(c.s);
                lemma_pow10_pos(h.s);
                assert(c.m * pow10(h.s) != 0) by (nonlinear_arith)
                    requires
                        c.m != 0,
                        pow10(h.s) >= 1,
                ;
            }
        }
        let r = dec_percent_of(base, percent);
        let t = dec_centi(dec_mul(base, percent));
        assert(r == Dec { m: base.m * h.m, s: base.s + h.s });
        assert(t == Dec { m: base.m * c.m, s: base.s + c.s });
        lemma_pow10_add(base.s, h.s);
        lemma_pow10_add(base.s, c.s);
        let pb = pow10(base.s);
        let ph = pow10(h.s);
        let pc = pow10(c.s);
        assert((base.m * h.m) * (pb * pc) == (base.m * c.m) * (pb * ph)) by (nonlinear_arith)
            requires
                h.m * pc == c.m * ph,
        ;
        assert(pow10(t.s) == pb * pc);
        assert(pow10(r.s) == pb * ph);
    } else if base.m == 0 {
        assert(dec_mul(base, percent) == dec_zero());
        assert(dec_percent_of(base, percent) == dec_zero());
    } else {
        assert(h == dec_zero());
        assert(dec_percent_of(base, percent) == dec_zero());
        assert(dec_mul(base, percent) == dec_zero());
    }
}

/// A quotient by 100 with the value of `percent / 100` and no more digits
/// than that value needs at scale `percent.s + 2` multiplies with `base`
/// exactly when `percent` itself does at that scale.
pub proof fn lemma_quotient_mul_exact(base: Dec, percent: Dec, q: Dec)
    requires
        dec_eq(q, dec_centi(percent)),
        q.s <= percent.s + 2,
        percent.m == 0 ==> q == dec_zero(),
        mul_exact(base, dec_centi(percent)),
    ensures
        mul_exact(base, q),
{
    if base.m != 0 && q.m != 0 {
        let c = dec_centi(percent);
        let d = (c.s - q.s) as nat;
        lemma_pow10_add(q.s, d);
        lemma_pow10_pos(d);
        lemma_pow10_pos(q.s);
        assert(q.m * pow10(d) == percent.m) by (nonlinear_arith)
            requires
                q.m * pow10(c.s) == c.m * pow10(q.s),
                pow10(c.s) == pow10(q.s) * pow10(d),
                c.m == percent.m,
                pow10(q.s) >= 1,
        ;
        assert(int_abs(base.m * q.m) <= int_abs(base.m * percent.m)) by (nonlinear_arith)
            requires
                q.m * pow10(d) == percent.m,
                pow10(d) >= 1,
        ;
    }
}

pub proof fn lemma_round_wf(a: Dec, dp: nat)
    requires
        dec_wf(a),
        dp <= MAX_SCALE,
    ensures
        dec_wf(dec_round(a, dp)),
{
    if a.s > dp {
        let d = pow10((a.s - dp) as nat);
        lemma_pow10_pos((a.s - dp) as nat);
        let mag = int_abs(a.m);
        let q = mag / d;
        assert(q <= mag / 10) by {
            vstd::arithmetic::div_mod::lemma_div_is_ordered_by_denominator(mag, 10, d);
        }
        assert(mag / 10 * 10 <= mag) by {
            vstd::arithmetic::div_mod::lemma_fundamental_div_mod(mag, 10);
        }
        assert(0 <= q);
    }
}

pub proof fn lemma_sum_wf(s: Seq<Dec>)
    requires
        sum_exact(s),
    ensures
        dec_wf(dec_sum(s)),
    decreases s.len(),
{
    if s.len() > 0 {
        let t = s.drop_last();
        assert(sum_exact(t)) by {
            assert forall|k: int| 0 <= k < t.len() implies add_exact(
                #[trigger] dec_sum(t.take(k)),
                t[k],
            ) by {
                assert(t.take(k) =~= s.take(k));
                assert(add_exact(dec_sum(s.take(k)), s[k]));
            }
            assert forall|i: int| 0 <= i < t.len() implies dec_wf(#[trigger] t[i]) by {
                assert(dec_wf(s[i]));
            }
        }
        lemma_sum_wf(t);
        assert(s.take(s.len() - 1) =~= t);
        assert(add_exact(dec_sum(s.take(s.len() - 1)), s[s.len() - 1]));
        assert(dec_wf(s[s.len() - 1]));
        lemma_add_wf(dec_sum(t), s.last());
    }
}

/// A decimal amount: `mantissa / 10^scale`.
#[derive(Clone, Copy, Debug)]
pub struct Money {
    pub mantissa: i128,
    pub scale: u32,
}

impl View for Money {
    type V = Dec;

    open spec fn view(&self) -> Dec {
        Dec { m: self.mantissa as int, s: self.scale as nat }
    }
}

/// The model of every amount in a sequence.
pub open spec fn money_seq_view(s: Seq<Money>) -> Seq<Dec> {
    s.map_values(|x: Money| x@)
}

/// `rust_decimal` addition (`Decimal + Decimal`): when the aligned operands and
/// the sum fit (it panics on overflow) the result is exact, with the scale rules
/// of `dec_add`.
#[verifier::external_body]
fn decimal_add(a: Money, b: Money) -> (r: Money)
    requires
        dec_wf(a@),
        dec_wf(b@),
        add_exact(a@, b@),
    ensures
        r@ == dec_add(a@, b@),
{
    let d = Decimal::from_i128_with_scale(a.mantissa, a.scale) + Decimal::from_i128_with_scale(
        b.mantissa,
        b.scale,
    );
    Money { mantissa: d.mantissa(), scale: d.scale() }
}

/// `rust_decimal` subtraction (`Decimal - Decimal`), exact under the same
/// conditions as the sum with the negated right operand.
#[verifier::external_body]
fn decimal_sub(a: Money, b: Money) -> (r: Money)
    requires
        dec_wf(a@),
        dec_wf(b@),
        sub_exact(a@, b@),
    ensures
        r@ == dec_sub(a@, b@),
{
    let d = Decimal::from_i128_with_scale(a.mantissa, a.scale) - Decimal::from_i128_with_scale(
        b.mantissa,
        b.scale,
    );
    Money { mantissa: d.mantissa(), scale: d.scale() }
}

/// `rust_decimal` multiplication (`Decimal * Decimal`): zero when an operand is
/// zero, otherwise the exact product when the scales add up to at most 28 and
/// the product fits.
#[verifier::external_body]
fn decimal_mul(a: Money, b: Money) -> (r: Money)
    requires
        dec_wf(a@),
        dec_wf(b@),
        mul_exact(a@, b@),
    ensures
        r@ == dec_mul(a@, b@),
{
    let d = Decimal::from_i128_with_scale(a.mantissa, a.scale) * Decimal::from_i128_with_scale(
        b.mantissa,
        b.scale,
    );
    Money { mantissa: d.mantissa(), scale: d.scale() }
}

/// `rust_decimal` division (`Decimal / Decimal`), stated for the divisor 100
/// and a dividend of at most 26 fractional digits. The result is named
/// `decimal_quotient`; the source shows that zero gives `Decimal::ZERO`, that a
/// mantissa divisible by 100 is divided with the scale kept (the fast path),
/// and that otherwise the remainder loop raises the scale until the remainder
/// is zero, which two more digits always reach, so the value is exact, and the
/// unscaling after that loop strips the extra digits again, so the scale ends
/// at most two above the dividend's. Which scale it ends at is left to the name.
#[verifier::external_body]
fn decimal_div(a: Money, b: Money) -> (r: Money)
    requires
        dec_wf(a@),
        a@.s + 2 <= MAX_SCALE,
        b@ == dec_hundred(),
    ensures
        r@ == decimal_quotient(a@, b@),
        dec_wf(r@),
        r@.s <= a@.s + 2,
        dec_eq(r@, dec_centi(a@)),
        a@.m == 0 ==> r@ == dec_zero(),
        a@.m != 0 && a@.m % 100 == 0 ==> r@ == (Dec { m: a@.m / 100, s: a@.s }),
{
    let d = Decimal::from_i128_with_scale(a.mantissa, a.scale) / Decimal::from_i128_with_scale(
        b.mantissa,
        b.scale,
    );
    Money { mantissa: d.mantissa(), scale: d.scale() }
}

/// `Decimal::round_dp`: banker's rounding (midpoint to even) of the magnitude to
/// `dp` places, keeping the sign; unchanged when the scale is at most `dp`.
#[verifier::external_body]
fn decimal_round_dp(a: Money, dp: u32) -> (r: Money)
    requires
        dec_wf(a@),
        dp <= MAX_SCALE,
    ensures
        r@ == dec_round(a@, dp as nat),
{
    let d = Decimal::from_i128_with_scale(a.mantissa, a.scale).round_dp(dp);
    Money { mantissa: d.mantissa(), scale: d.scale() }
}

/// `Decimal < Decimal`, which compares values.
#[verifier::external_body]
fn decimal_lt(a: Money, b: Money) -> (r: bool)
    requires
        dec_wf(a@),
        dec_wf(b@),
    ensures
        r == dec_lt(a@, b@),
{
    Decimal::from_i128_with_scale(a.mantissa, a.scale) < Decimal::from_i128_with_scale(
        b.mantissa,
        b.scale,
    )
}

/// `Decimal == Decimal`, which compares values.
#[verifier::external_body]
fn decimal_eq(a: Money, b: Money) -> (r: bool)
    requires
        dec_wf(a@),
        dec_wf(b@),
    ensures
        r == dec_eq(a@, b@),
{
    Decimal::from_i128_with_scale(a.mantissa, a.scale) == Decimal::from_i128_with_scale(
        b.mantissa,
        b.scale,
    )
}

/// `10^k` as an integer.
fn pow10_exec(k: u32) -> (r: i128)
    requires
        k <= MAX_SCALE,
    ensures
        r == pow10(k as nat),
{
    proof {
        reveal_with_fuel(pow10, 30);
    }
    assert(pow10(28) == 10000000000000000000000000000int);
    let mut r: i128 = 1;
    let mut i: u32 = 0;
    while i < k
        invariant
            i <= k <= MAX_SCALE,
            r == pow10(i as nat),
            pow10(28) == 10000000000000000000000000000int,
        decreases k - i,
    {
        proof {
            lemma_pow10_le((i + 1) as nat, 28);
            assert(pow10((i + 1) as nat) == 10 * pow10(i as nat));
            assert(r * 10 <= 10000000000000000000000000000int);
            lemma_pow10_pos(i as nat);
        }
        r = r * 10;
        i = i + 1;
    }
    r
}

/// `10^a <= 10^b` for `a <= b`.
proof fn lemma_pow10_le(a: nat, b: nat)
    requires
        a <= b,
    ensures
        pow10(a) <= pow10(b),
    decreases b,
{
    lemma_pow10_pos(a);
    if a < b {
        lemma_pow10_le(a, (b - 1) as nat);
        lemma_pow10_pos((b - 1) as nat);
    }
}

/// Whether `a + b` is exact (`add_exact`), tested on the values.
fn add_fits(a: &Money, b: &Money) -> (r: bool)
    requires
        a.wf(),
        b.wf(),
    ensures
        r == add_exact(a@, b@),
{
    if a.mantissa == 0 || b.mantissa == 0 {
        return true;
    }
    let s = if a.scale >= b.scale {
        a.scale
    } else {
        b.scale
    };
    let pa = pow10_exec(s - a.scale);
    let pb = pow10_exec(s - b.scale);
    let x = match a.mantissa.checked_mul(pa) {
        Some(x) => x,
        None => {
            return false;
        },
    };
    let y = match b.mantissa.checked_mul(pb) {
        Some(y) => y,
        None => {
            return false;
        },
    };
    if x < -MAX_MANTISSA || x > MAX_MANTISSA || y < -MAX_MANTISSA || y > MAX_MANTISSA {
        return false;
    }
    let t = x + y;
    -MAX_MANTISSA <= t && t <= MAX_MANTISSA
}

impl Money {
    /// Whether the amount is a decimal `rust_decimal` can hold.
    pub fn is_wf(&self) -> (r: bool)
        ensures
            r == self.wf(),
    {
        self.scale <= MAX_SCALE && -MAX_MANTISSA <= self.mantissa && self.mantissa <= MAX_MANTISSA
    }

    /// The sum `self + other` where it is exact: `None` when the aligned
    /// operands or the sum would not fit a decimal mantissa.
    pub fn checked_add(&self, other: &Money) -> (r: Option<Money>)
        requires
            self.wf(),
            other.wf(),
        ensures
            r is Some <==> add_exact(self@, other@),
            r matches Some(x) ==> x@ == dec_add(self@, other@) && x.wf(),
    {
        if add_fits(self, other) {
            Some(self.add(other))
        } else {
            None
        }
    }

    /// An amount from its mantissa and scale (`Decimal::from_i128_with_scale`).
    pub fn new(mantissa: i128, scale: u32) -> (r: Money)
        requires
            scale <= MAX_SCALE,
            -MAX_MANTISSA <= mantissa <= MAX_MANTISSA,
        ensures
            r.mantissa == mantissa,
            r.scale == scale,
    {
        Money { mantissa, scale }
    }

    /// `Decimal::ZERO`.
    pub fn zero() -> (r: Money)
        ensures
            r@ == dec_zero(),
    {
        Money { mantissa: 0, scale: 0 }
    }

    /// `Decimal::from(n)` for an `i32`.
    pub fn from_i32(n: i32) -> (r: Money)
        ensures
            r@ == (Dec { m: n as int, s: 0 }),
            dec_wf(r@),
    {
        Money { mantissa: n as i128, scale: 0 }
    }

    pub open spec fn wf(&self) -> bool {
        dec_wf(self@)
    }

    /// The sum `self + other`.
    pub fn add(&self, other: &Money) -> (r: Money)
        requires
            self.wf(),
            other.wf(),
            add_exact(self@, other@),
        ensures
            r@ == dec_add(self@, other@),
            r.wf(),
    {
        proof {
            lemma_add_wf(self@, other@);
        }
        decimal_add(*self, *other)
    }

    /// The difference `self - other`.
    pub fn sub(&self, other: &Money) -> (r: Money)
        requires
            self.wf(),
            other.wf(),
            sub_exact(self@, other@),
        ensures
            r@ == dec_sub(self@, other@),
            r.wf(),
    {
        proof {
            lemma_sub_wf(self@, other@);
        }
        decimal_sub(*self, *other)
    }

    /// The product `self * other`.
    pub fn mul(&self, other: &Money) -> (r: Money)
        requires
            self.wf(),
            other.wf(),
            mul_exact(self@, other@),
        ensures
            r@ == dec_mul(self@, other@),
            r.wf(),
    {
        proof {
            lemma_mul_wf(self@, other@);
        }
        decimal_mul(*self, *other)
    }

    /// `percent` per cent of `self`: `self * (percent / 100)`.
    pub fn percent_of(&self, percent: &Money) -> (r: Money)
        requires
            self.wf(),
            percent.wf(),
            percent_exact(self@, percent@),
        ensures
            r@ == dec_percent_of(self@, percent@),
            dec_eq(r@, dec_centi(dec_mul(self@, percent@))),
            r.wf(),
    {
        let hundred = Money::from_i32(100);
        let pct = decimal_div(*percent, hundred);
        proof {
            lemma_percent_value(self@, percent@);
            lemma_quotient_mul_exact(self@, percent@, pct@);
            lemma_mul_wf(self@, pct@);
        }
        decimal_mul(*self, pct)
    }

    /// `percent` per cent of `self` where that can be formed exactly: `None`
    /// when `percent / 100` would need more than 28 fractional digits, or the
    /// product at that scale more than 28 digits or a larger mantissa.
    pub fn checked_percent_of(&self, percent: &Money) -> (r: Option<Money>)
        requires
            self.wf(),
            percent.wf(),
        ensures
            r is Some <==> percent_exact(self@, percent@),
            r matches Some(x) ==> x@ == dec_percent_of(self@, percent@) && x.wf(),
    {
        if percent.scale > MAX_SCALE - 2 {
            return None;
        }
        if self.mantissa != 0 && percent.mantissa != 0 {
            if self.scale > MAX_SCALE - 2 - percent.scale {
                return None;
            }
            match self.mantissa.checked_mul(percent.mantissa) {
                None => {
                    return None;
                },
                Some(p) => {
                    if p < -MAX_MANTISSA || p > MAX_MANTISSA {
                        return None;
                    }
                },
            }
        }
        Some(self.percent_of(percent))
    }

    /// `round_dp(dp)` with banker's rounding.
    pub fn round_dp(&self, dp: u32) -> (r: Money)
        requires
            self.wf(),
            dp <= MAX_SCALE,
        ensures
            r@ == dec_round(self@, dp as nat),
            r.wf(),
    {
        proof {
            lemma_round_wf(self@, dp as nat);
        }
        decimal_round_dp(*self, dp)
    }

    /// Value comparison `self < other`.
    pub fn lt(&self, other: &Money) -> (r: bool)
        requires
            self.wf(),
            other.wf(),
        ensures
            r == dec_lt(self@, other@),
    {
        decimal_lt(*self, *other)
    }

    /// Value comparison `self <= other`.
    pub fn le(&self, other: &Money) -> (r: bool)
        requires
            self.wf(),
            other.wf(),
        ensures
            r == dec_le(self@, other@),
    {
        !decimal_lt(*other, *self)
    }

    /// Value equality.
    pub fn value_eq(&self, other: &Money) -> (r: bool)
        requires
            self.wf(),
            other.wf(),
        ensures
            r == dec_eq(self@, other@),
    {
        decimal_eq(*self, *other)
    }

    /// `self.min(other)`.
    pub fn min(&self, other: &Money) -> (r: Money)
        requires
            self.wf(),
            other.wf(),
        ensures
            r@ == dec_min(self@, other@),
            r.wf(),
    {
        if decimal_lt(*other, *self) {
            *other
        } else {
            *self
        }
    }

    /// `self.max(other)`.
    pub fn max(&self, other: &Money) -> (r: Money)
        requires
            self.wf(),
            other.wf(),
        ensures
            r@ == dec_max(self@, other@),
            r.wf(),
    {
        if decimal_lt(*other, *self) {
            *self
        } else {
            *other
        }
    }
}

/// The sum of amounts, accumulated from zero (`Iterator::sum` for decimals).
pub fn sum_money(v: &Vec<Money>) -> (r: Money)
    requires
        sum_exact(money_seq_view(v@)),
    ensures
        r@ == dec_sum(money_seq_view(v@)),
        r.wf(),
{
    let ghost s = money_seq_view(v@);
    let mut acc = Money::zero();
    let mut i: usize = 0;
    while i < v.len()
        invariant
            i <= v.len(),
            s == money_seq_view(v@),
            sum_exact(s),
            acc@ == dec_sum(s.take(i as int)),
            acc.wf(),
        decreases v.len() - i,
    {
        assert(s[i as int] == v@[i as int]@);
        assert(add_exact(dec_sum(s.take(i as int)), s[i as int]));
        assert(dec_wf(s[i as int]));
        acc = acc.add(&v[i]);
        assert(s.take(i + 1).drop_last() =~= s.take(i as int));
        i = i + 1;
    }
    assert(s.take(v.len() as int) =~= s);
    acc
}

/// `<=` on decimal values is transitive.
pub proof fn lemma_le_trans(a: Dec, b: Dec, c: Dec)
    requires
        dec_le(a, b),
        dec_le(b, c),
    ensures
        dec_le(a, c),
{
    let pa = pow10(a.s);
    let pb = pow10(b.s);
    let pc = pow10(c.s);
    lemma_pow10_pos(a.s);
    lemma_pow10_pos(b.s);
    lemma_pow10_pos(c.s);
    assert(a.m * pb * pc <= b.m * pa * pc) by (nonlinear_arith)
        requires
            a.m * pb <= b.m * pa,
            pc >= 1,
    ;
    assert(b.m * pc * pa <= c.m * pb * pa) by (nonlinear_arith)
        requires
            b.m * pc <= c.m * pb,
            pa >= 1,
    ;
    assert(a.m * pc * pb <= c.m * pa * pb) by (nonlinear_arith)
        requires
            a.m * pb * pc <= b.m * pa * pc,
            b.m * pc * pa <= c.m * pb * pa,
    ;
    assert(a.m * pc <= c.m * pa) by (nonlinear_arith)
        requires
            a.m * pc * pb <= c.m * pa * pb,
            pb >= 1,
    ;
}

/// Every value is at most itself.
pub proof fn lemma_le_refl(a: Dec)
    ensures
        dec_le(a, a),
{
}

} // verus!
