//! Payment webhook decisions: which requests are refused before the event is
//! read, and what each payment event does to the payment and its order.

use crate::error::RustCommerceError;
use crate::models::order::{OrderStatus, UpdateOrderStatusRequest};
use vstd::prelude::*;

verus! {

/// A payment event, as far as the store acts on it.
#[derive(Debug)]
pub enum WebhookEvent {
    PaymentIntentSucceeded { intent_id: String },
    /// `last_error` is `Some` when the intent carries its last payment error;
    /// that error's message may itself be absent.
    PaymentIntentPaymentFailed { intent_id: String, last_error: Option<Option<String>> },
    ChargeRefunded,
    Unhandled,
}

/// What the store does for an event.
#[derive(Debug)]
pub enum WebhookAction {
    /// Mark the intent's payment completed, then confirm its order.
    ConfirmPayment { intent_id: String },
    /// Mark the intent's payment failed (keeping the gateway's last error, if
    /// any, with its message), then fail its order.
    FailPayment { intent_id: String, last_error: Option<Option<String>> },
    /// Nothing to change; the event is acknowledged.
    Acknowledge,
}

/// The checks made before the event is read: a signature header must be
/// present (`Unauthorized`), and a webhook secret configured (`Configuration`).
pub fn check_webhook_request(signature: Option<&str>, webhook_secret: &str) -> (r: Result<
    (),
    RustCommerceError,
>)
    ensures
        signature is None ==> (r matches Err(RustCommerceError::Unauthorized(m)) && m@
            == "Missing Stripe signature header"@),
        signature is Some && webhook_secret@.len() == 0 ==> (r matches Err(
            RustCommerceError::Configuration(m),
        ) && m@ == "Stripe webhook secret not configured"@),
        signature is Some && webhook_secret@.len() > 0 ==> r is Ok,
{
    if signature.is_none() {
        return Err(RustCommerceError::Unauthorized("Missing Stripe signature header".to_owned()));
    }
    if webhook_secret.is_empty() {
        return Err(
            RustCommerceError::Configuration("Stripe webhook secret not configured".to_owned()),
        );
    }
    Ok(())
}

/// `std::str::from_utf8`: the bytes as text exactly when they are valid UTF-8,
/// as its documentation states (`Err` for any other slice).
#[verifier::external_body]
fn utf8_str(bytes: &[u8]) -> (r: Option<&str>)
    ensures
        r is Some <==> vstd::utf8::valid_utf8(bytes@),
        r matches Some(s) ==> s@ == vstd::utf8::decode_utf8(bytes@),
{
    std::str::from_utf8(bytes).ok()
}

/// The text of a webhook body: an `InvalidInput` error when the bytes are
/// not valid UTF-8.
pub fn webhook_payload(body: &[u8]) -> (r: Result<String, RustCommerceError>)
    ensures
        vstd::utf8::valid_utf8(body@) ==> (r matches Ok(t) && t@ == vstd::utf8::decode_utf8(
            body@,
        )),
        !vstd::utf8::valid_utf8(body@) ==> (r matches Err(RustCommerceError::InvalidInput(m))
            && m@ == "Invalid webhook payload encoding"@),
{
    match utf8_str(body) {
        Some(text) => Ok(text.to_owned()),
        None => Err(RustCommerceError::InvalidInput("Invalid webhook payload encoding".to_owned())),
    }
}

/// The action for an event: succeeded intents confirm, failed intents fail,
/// refunds and other events are only acknowledged.
pub fn webhook_action(event: WebhookEvent) -> (r: WebhookAction)
    ensures
        event matches WebhookEvent::PaymentIntentSucceeded { intent_id } ==> (r matches WebhookAction::ConfirmPayment {
            intent_id: i,
        } && i@ == intent_id@),
        event matches WebhookEvent::PaymentIntentPaymentFailed { intent_id, last_error } ==> (r matches WebhookAction::FailPayment {
            intent_id: i,
            last_error: e,
        } && i@ == intent_id@ && e == last_error),
        (event is ChargeRefunded || event is Unhandled) ==> r is Acknowledge,
{
    match event {
        WebhookEvent::PaymentIntentSucceeded { intent_id } => WebhookAction::ConfirmPayment {
            intent_id,
        },
        WebhookEvent::PaymentIntentPaymentFailed { intent_id, last_error } => {
            WebhookAction::FailPayment { intent_id, last_error }
        },
        WebhookEvent::ChargeRefunded => WebhookAction::Acknowledge,
        WebhookEvent::Unhandled => WebhookAction::Acknowledge,
    }
}

impl WebhookAction {
    /// The status update made on the payment's order after the payment was
    /// recorded: `Confirmed` or `Failed`, with a note saying why.
    pub fn order_update(&self) -> (r: Option<UpdateOrderStatusRequest>)
        ensures
            self is ConfirmPayment ==> (r matches Some(u) && u.status == OrderStatus::Confirmed
                && u.tracking_number is None && (u.internal_notes matches Some(n) && n@
                == "Payment confirmed via Stripe webhook"@)),
            self is FailPayment ==> (r matches Some(u) && u.status == OrderStatus::Failed
                && u.tracking_number is None && (u.internal_notes matches Some(n) && n@
                == "Payment failed via Stripe webhook"@)),
            self is Acknowledge ==> r is None,
    {
        match self {
            WebhookAction::ConfirmPayment { .. } => Some(
                UpdateOrderStatusRequest {
                    status: OrderStatus::Confirmed,
                    tracking_number: None,
                    internal_notes: Some("Payment confirmed via Stripe webhook".to_owned()),
                },
            ),
            WebhookAction::FailPayment { .. } => Some(
                UpdateOrderStatusRequest {
                    status: OrderStatus::Failed,
                    tracking_number: None,
                    internal_notes: Some("Payment failed via Stripe webhook".to_owned()),
                },
            ),
            WebhookAction::Acknowledge => None,
        }
    }
}

} // verus!
