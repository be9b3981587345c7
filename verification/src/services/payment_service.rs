//! Payment rules: refunds, refund status, Stripe availability and amounts in
//! minor units.

use crate::config::StripeConfig;
use crate::error::RustCommerceError;
use crate::models::payment::{Payment, PaymentStatus};
use crate::money::{
    add_exact, dec_add, dec_le, dec_lt, dec_mul, dec_wf, dec_zero, int_abs, lemma_pow10_add,
    lemma_pow10_pos, mul_exact, pow10, Dec, Money,
};
use vstd::prelude::*;

verus! {

/// Service for payment business logic.
pub struct PaymentService;

/// The amount a refund request asks for: the given amount, or the whole payment.
pub open spec fn requested_refund(p: Payment, amount: Option<Money>) -> Dec {
    match amount {
        Some(a) => a@,
        None => p.amount@,
    }
}

/// The amount already refunded on a payment.
pub open spec fn already_refunded(p: Payment) -> Dec {
    match p.refund_amount {
        Some(a) => a@,
        None => dec_zero(),
    }
}

/// The refund amounts can be added exactly.
pub open spec fn refund_exact(p: Payment, amount: Option<Money>) -> bool {
    &&& dec_wf(p.amount@)
    &&& (amount matches Some(a) ==> dec_wf(a@))
    &&& (p.refund_amount matches Some(a) ==> dec_wf(a@))
    &&& add_exact(requested_refund(p, amount), already_refunded(p))
}

/// The status after refunding: fully refunded once the refunds reach the
/// payment amount, partially refunded before.
pub open spec fn spec_refund_status(total_refunded: Dec, amount: Dec) -> PaymentStatus {
    if dec_le(amount, total_refunded) {
        PaymentStatus::Refunded
    } else {
        PaymentStatus::PartiallyRefunded
    }
}

/// The amount in minor units: `amount * 100` when that is a whole number
/// that fits an `i64`, none otherwise.
pub open spec fn spec_amount_in_cents(amount: Dec) -> Option<i64> {
    let p = dec_mul(amount, Dec { m: 100, s: 0 });
    let unit = pow10(p.s);
    if p.m % unit == 0 && i64::MIN <= p.m / unit <= i64::MAX {
        Some((p.m / unit) as i64)
    } else {
        None
    }
}

/// A mantissa `pm` at scale `ps` whose magnitude is `mag` at the lower scale
/// `ps - sc`, with `mag` not ending in a zero when `sc > 0`: the value is whole
/// exactly when `sc == 0`, and is then `mag` with the sign of `pm`.
proof fn lemma_whole(pm: int, ps: nat, mag: int, sc: nat)
    requires
        sc <= ps,
        mag >= 0,
        int_abs(pm) == mag * pow10((ps - sc) as nat),
        sc > 0 ==> mag % 10 != 0,
    ensures
        (pm % pow10(ps) == 0) <==> sc == 0,
        sc == 0 ==> pm / pow10(ps) == (if pm < 0 {
            -mag
        } else {
            mag
        }),
{
    let q = pow10((ps - sc) as nat);
    let u = pow10(ps);
    lemma_pow10_pos(ps);
    lemma_pow10_pos((ps - sc) as nat);
    lemma_pow10_pos(sc);
    lemma_pow10_add((ps - sc) as nat, sc);
    assert(u == q * pow10(sc));
    let x = if pm < 0 {
        -mag
    } else {
        mag
    };
    if sc == 0 {
        assert(pow10(0) == 1);
        assert(pm == x * u) by (nonlinear_arith)
            requires
                pm < 0 ==> -pm == mag * u,
                pm >= 0 ==> pm == mag * u,
                pm < 0 ==> x == -mag,
                pm >= 0 ==> x == mag,
        ;
        vstd::arithmetic::div_mod::lemma_mod_multiples_basic(x, u);
        vstd::arithmetic::div_mod::lemma_div_multiples_vanish(x, u);
        assert(u * x == x * u) by (nonlinear_arith);
    } else {
        if pm % u == 0 {
            let k = pm / u;
            vstd::arithmetic::div_mod::lemma_fundamental_div_mod(pm, u);
            assert(pm == u * k);
            let s1 = pow10((sc - 1) as nat);
            assert(pow10(sc) == 10 * s1);
            let ak = int_abs(k);
            assert(int_abs(pm) == u * ak) by (nonlinear_arith)
                requires
                    pm == u * k,
                    u >= 1,
                    k < 0 ==> ak == -k,
                    k >= 0 ==> ak == k,
                    pm < 0 ==> int_abs(pm) == -pm,
                    pm >= 0 ==> int_abs(pm) == pm,
            ;
            assert(u * ak == q * (10 * s1 * ak)) by (nonlinear_arith)
                requires
                    u == q * pow10(sc),
                    pow10(sc) == 10 * s1,
            ;
            assert(mag == 10 * (s1 * ak)) by (nonlinear_arith)
                requires
                    mag * q == q * (10 * s1 * ak),
                    q >= 1,
            ;
            vstd::arithmetic::div_mod::lemma_mod_multiples_basic(s1 * ak, 10);
            assert((s1 * ak) * 10 == 10 * (s1 * ak)) by (nonlinear_arith);
        }
    }
}

impl PaymentService {
    /// Validates a refund request against its payment and returns the amount to
    /// refund: only completed payments are refunded, and the refunds may not
    /// exceed the payment amount.
    pub fn check_refund(payment: &Payment, amount: Option<Money>) -> (r: Result<
        Money,
        RustCommerceError,
    >)
        requires
            refund_exact(*payment, amount),
        ensures
            payment.status != PaymentStatus::Completed ==> (r matches Err(
                RustCommerceError::RefundError(m),
            ) && m@ == "Can only refund completed payments"@),
            payment.status == PaymentStatus::Completed && dec_lt(
                payment.amount@,
                dec_add(requested_refund(*payment, amount), already_refunded(*payment)),
            ) ==> (r matches Err(RustCommerceError::RefundError(m)) && m@
                == "Refund amount exceeds payment amount"@),
            payment.status == PaymentStatus::Completed && !dec_lt(
                payment.amount@,
                dec_add(requested_refund(*payment, amount), already_refunded(*payment)),
            ) ==> (r matches Ok(a) && a@ == requested_refund(*payment, amount)),
    {
        if payment.status != PaymentStatus::Completed {
            return Err(RustCommerceError::RefundError("Can only refund completed payments".to_owned()));
        }
        let refund_amount = match amount {
            Some(a) => a,
            None => payment.amount,
        };
        let already = match payment.refund_amount {
            Some(a) => a,
            None => Money::zero(),
        };
        let total = refund_amount.add(&already);
        if payment.amount.lt(&total) {
            return Err(
                RustCommerceError::RefundError("Refund amount exceeds payment amount".to_owned()),
            );
        }
        Ok(refund_amount)
    }

    /// Records a refund on a payment: the new refunded total (previous refunds
    /// plus this one) and the resulting status.
    pub fn refund_outcome(payment: &Payment, refund_amount: Money) -> (r: (Money, PaymentStatus))
        requires
            dec_wf(payment.amount@),
            dec_wf(refund_amount@),
            payment.refund_amount matches Some(a) ==> dec_wf(a@),
            add_exact(already_refunded(*payment), refund_amount@),
        ensures
            r.0@ == dec_add(already_refunded(*payment), refund_amount@),
            r.1 == spec_refund_status(r.0@, payment.amount@),
    {
        let already = match payment.refund_amount {
            Some(a) => a,
            None => Money::zero(),
        };
        let total = already.add(&refund_amount);
        let status = if payment.amount.le(&total) {
            PaymentStatus::Refunded
        } else {
            PaymentStatus::PartiallyRefunded
        };
        (total, status)
    }

    /// Stripe payments need Stripe enabled in the configuration.
    pub fn check_stripe_enabled(config: &StripeConfig) -> (r: Result<(), RustCommerceError>)
        ensures
            config.enabled ==> r is Ok,
            !config.enabled ==> (r matches Err(RustCommerceError::Configuration(m)) && m@
                == "Stripe is not enabled"@),
    {
        if !config.enabled {
            return Err(RustCommerceError::Configuration("Stripe is not enabled".to_owned()));
        }
        Ok(())
    }

    /// The amount in the currency's smallest unit for a payment intent:
    /// `amount * 100` when that is a whole number fitting an `i64`, else a
    /// `PaymentProcessing` error.
    pub fn amount_in_cents(amount: Money) -> (r: Result<i64, RustCommerceError>)
        requires
            amount.wf(),
            mul_exact(amount@, Dec { m: 100, s: 0 }),
        ensures
            spec_amount_in_cents(amount@) matches Some(c) ==> r == Ok::<i64, RustCommerceError>(c),
            spec_amount_in_cents(amount@) is None ==> (r matches Err(
                RustCommerceError::PaymentProcessing(m),
            ) && m@ == "Failed to convert amount"@),
    {
        let hundred = Money::from_i32(100);
        let p = amount.mul(&hundred);
        let neg = p.mantissa < 0;
        let mut mag: u128 = if neg {
            (-p.mantissa) as u128
        } else {
            p.mantissa as u128
        };
        let mut sc: u32 = p.scale;
        proof {
            assert(pow10(0) == 1);
        }
        while sc > 0 && mag % 10 == 0
            invariant
                sc <= p@.s,
                int_abs(p@.m) == mag * pow10((p@.s - sc) as nat),
            decreases sc,
        {
            proof {
                let e = (p@.s - sc) as nat;
                assert(pow10(e + 1) == 10 * pow10(e));
                vstd::arithmetic::div_mod::lemma_fundamental_div_mod(mag as int, 10);
                assert(mag * pow10(e) == (mag / 10) * (10 * pow10(e))) by (nonlinear_arith)
                    requires
                        mag == 10 * (mag / 10) + mag % 10,
                        mag % 10 == 0,
                ;
            }
            mag = mag / 10;
            sc = sc - 1;
        }
        proof {
            lemma_whole(p@.m, p@.s, mag as int, sc as nat);
        }
        if sc > 0 {
            return Err(PaymentService::cents_error());
        }
        if neg {
            if mag <= 9223372036854775808u128 {
                Ok((-(mag as i128)) as i64)
            } else {
                Err(PaymentService::cents_error())
            }
        } else {
            if mag <= 9223372036854775807u128 {
                Ok(mag as i64)
            } else {
                Err(PaymentService::cents_error())
            }
        }
    }

    fn cents_error() -> (e: RustCommerceError)
        ensures
            e matches RustCommerceError::PaymentProcessing(m) && m@ == "Failed to convert amount"@,
    {
        RustCommerceError::PaymentProcessing("Failed to convert amount".to_owned())
    }
}

/// A refund accepted by `check_refund` and recorded by `refund_outcome`
/// never takes the refunded total above the payment amount.
pub proof fn law_refunds_never_exceed_payment(p: Payment, amount: Option<Money>)
    requires
        p.status == PaymentStatus::Completed,
        !dec_lt(p.amount@, dec_add(requested_refund(p, amount), already_refunded(p))),
    ensures
        dec_le(dec_add(requested_refund(p, amount), already_refunded(p)), p.amount@),
{
}

} // verus!
