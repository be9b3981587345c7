//! The currency of a new payment and the changes that status updates and
//! refunds write on a stored payment.

use crate::models::payment::{Payment, PaymentStatus};
use crate::money::{dec_add, dec_wf, add_exact, Money};
use crate::repositories::query::pick_opt;
use crate::services::payment_service::{already_refunded, spec_refund_status, PaymentService};
use crate::time::Timestamp;
use vstd::prelude::*;

verus! {

/// Repository for payment database operations.
pub struct PaymentRepository;

impl PaymentRepository {
    /// The currency a payment is recorded in: the requested one, or `USD`.
    pub fn payment_currency(requested: Option<&str>) -> (r: String)
        ensures
            r@ == (match requested {
                Some(c) => c@,
                None => "USD"@,
            }),
    {
        match requested {
            Some(c) => c.to_owned(),
            None => "USD".to_owned(),
        }
    }

    /// Writes a status change on a payment at instant `now`: the status, the
    /// gateway's transaction id and response where given (the old ones stay
    /// otherwise), and `now` as the payment instant for `Completed` or the
    /// failure instant for `Failed`.
    pub fn apply_status_update(
        payment: &mut Payment,
        status: PaymentStatus,
        gateway_transaction_id: Option<String>,
        gateway_response: Option<serde_json::Value>,
        now: Timestamp,
    )
        ensures
            final(payment).status == status,
            final(payment).gateway_transaction_id == pick_opt(
                gateway_transaction_id,
                old(payment).gateway_transaction_id,
            ),
            final(payment).gateway_response == pick_opt(
                gateway_response,
                old(payment).gateway_response,
            ),
            final(payment).paid_at == (if status == PaymentStatus::Completed {
                Some(now)
            } else {
                old(payment).paid_at
            }),
            final(payment).failed_at == (if status == PaymentStatus::Failed {
                Some(now)
            } else {
                old(payment).failed_at
            }),
            final(payment).id == old(payment).id,
            final(payment).order_id == old(payment).order_id,
            final(payment).amount == old(payment).amount,
            final(payment).refund_amount == old(payment).refund_amount,
            final(payment).refunded_at == old(payment).refunded_at,
    {
        payment.status = status;
        if gateway_transaction_id.is_some() {
            payment.gateway_transaction_id = gateway_transaction_id;
        }
        if gateway_response.is_some() {
            payment.gateway_response = gateway_response;
        }
        match status {
            PaymentStatus::Completed => {
                payment.paid_at = Some(now);
            },
            PaymentStatus::Failed => {
                payment.failed_at = Some(now);
            },
            _ => {},
        }
    }

    /// Records a refund on a payment at instant `now`: the refunded total
    /// grows by the amount, the status becomes `Refunded` once the total
    /// reaches the payment amount (`PartiallyRefunded` before), the reason is
    /// kept where given, and `now` is the refund instant.
    pub fn apply_refund(payment: &mut Payment, refund_amount: Money, reason: Option<String>, now: Timestamp)
        requires
            dec_wf(old(payment).amount@),
            dec_wf(refund_amount@),
            old(payment).refund_amount matches Some(a) ==> dec_wf(a@),
            add_exact(already_refunded(*old(payment)), refund_amount@),
        ensures
            final(payment).refund_amount matches Some(t) && t@ == dec_add(
                already_refunded(*old(payment)),
                refund_amount@,
            ),
            final(payment).status == spec_refund_status(
                dec_add(already_refunded(*old(payment)), refund_amount@),
                old(payment).amount@,
            ),
            final(payment).refund_reason == pick_opt(reason, old(payment).refund_reason),
            final(payment).refunded_at == Some(now),
            final(payment).id == old(payment).id,
            final(payment).amount == old(payment).amount,
            final(payment).paid_at == old(payment).paid_at,
    {
        let (total, status) = PaymentService::refund_outcome(payment, refund_amount);
        payment.refund_amount = Some(total);
        payment.status = status;
        if reason.is_some() {
            payment.refund_reason = reason;
        }
        payment.refunded_at = Some(now);
    }
}

} // verus!
