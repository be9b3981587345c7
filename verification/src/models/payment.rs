//! Payment records, statuses, methods and refund requests.

use crate::money::Money;
use crate::time::Timestamp;
use vstd::prelude::*;

verus! {

/// A JSON document from an outside service, carried through unread.
#[verifier::external_type_specification]
#[verifier::external_body]
pub struct ExJsonValue(serde_json::Value);

/// Payment processing status.
#[derive(Clone, Copy, Debug, PartialEq, Eq, Structural)]
pub enum PaymentStatus {
    Pending,
    Processing,
    Completed,
    Failed,
    Cancelled,
    Refunded,
    PartiallyRefunded,
}

pub open spec fn spec_payment_status_str(s: PaymentStatus) -> Seq<char> {
    match s {
        PaymentStatus::Pending => "pending"@,
        PaymentStatus::Processing => "processing"@,
        PaymentStatus::Completed => "completed"@,
        PaymentStatus::Failed => "failed"@,
        PaymentStatus::Cancelled => "cancelled"@,
        PaymentStatus::Refunded => "refunded"@,
        PaymentStatus::PartiallyRefunded => "partially_refunded"@,
    }
}

impl PaymentStatus {
    /// The snake-case name of the status (its display text).
    pub fn as_str(&self) -> (r: &'static str)
        ensures
            r@ == spec_payment_status_str(*self),
    {
        match self {
            PaymentStatus::Pending => "pending",
            PaymentStatus::Processing => "processing",
            PaymentStatus::Completed => "completed",
            PaymentStatus::Failed => "failed",
            PaymentStatus::Cancelled => "cancelled",
            PaymentStatus::Refunded => "refunded",
            PaymentStatus::PartiallyRefunded => "partially_refunded",
        }
    }
}

/// Supported payment methods.
#[derive(Clone, Copy, Debug, PartialEq, Eq, Structural)]
pub enum PaymentMethod {
    Stripe,
    Paypal,
    BankTransfer,
    CashOnDelivery,
    Manual,
}

pub open spec fn spec_payment_method_str(m: PaymentMethod) -> Seq<char> {
    match m {
        PaymentMethod::Stripe => "stripe"@,
        PaymentMethod::Paypal => "paypal"@,
        PaymentMethod::BankTransfer => "bank_transfer"@,
        PaymentMethod::CashOnDelivery => "cash_on_delivery"@,
        PaymentMethod::Manual => "manual"@,
    }
}

/// The method a checkout choice names: the method whose name it is, `Stripe`
/// when no choice is given, `Manual` for any other text.
pub open spec fn spec_payment_method_choice(choice: Option<Seq<char>>) -> PaymentMethod {
    let c = match choice {
        Some(c) => c,
        None => "stripe"@,
    };
    if c == "stripe"@ {
        PaymentMethod::Stripe
    } else if c == "paypal"@ {
        PaymentMethod::Paypal
    } else if c == "bank_transfer"@ {
        PaymentMethod::BankTransfer
    } else if c == "cash_on_delivery"@ {
        PaymentMethod::CashOnDelivery
    } else {
        PaymentMethod::Manual
    }
}

impl PaymentMethod {
    /// The snake-case name of the method (its display text).
    pub fn as_str(&self) -> (r: &'static str)
        ensures
            r@ == spec_payment_method_str(*self),
    {
        match self {
            PaymentMethod::Stripe => "stripe",
            PaymentMethod::Paypal => "paypal",
            PaymentMethod::BankTransfer => "bank_transfer",
            PaymentMethod::CashOnDelivery => "cash_on_delivery",
            PaymentMethod::Manual => "manual",
        }
    }

    /// The method chosen at checkout (`None` means Stripe, unknown text means manual).
    pub fn from_checkout_choice(choice: Option<&str>) -> (r: PaymentMethod)
        ensures
            r == spec_payment_method_choice(
                match choice {
                    Some(c) => Some(c@),
                    None => None,
                },
            ),
    {
        let c = match choice {
            Some(c) => c.to_owned(),
            None => "stripe".to_owned(),
        };
        if c == "stripe".to_owned() {
            PaymentMethod::Stripe
        } else if c == "paypal".to_owned() {
            PaymentMethod::Paypal
        } else if c == "bank_transfer".to_owned() {
            PaymentMethod::BankTransfer
        } else if c == "cash_on_delivery".to_owned() {
            PaymentMethod::CashOnDelivery
        } else {
            PaymentMethod::Manual
        }
    }
}

/// A payment record associated with an order.
#[derive(Debug)]
pub struct Payment {
    pub id: u128,
    pub order_id: u128,
    pub payment_method: PaymentMethod,
    pub status: PaymentStatus,
    pub amount: Money,
    pub currency: String,
    pub gateway_transaction_id: Option<String>,
    pub gateway_response: Option<serde_json::Value>,
    pub refund_amount: Option<Money>,
    pub refund_reason: Option<String>,
    pub metadata: Option<serde_json::Value>,
    pub paid_at: Option<Timestamp>,
    pub failed_at: Option<Timestamp>,
    pub refunded_at: Option<Timestamp>,
    pub created_at: Timestamp,
    pub updated_at: Timestamp,
}

/// Request to create a payment record.
#[derive(Debug)]
pub struct CreatePaymentRequest {
    pub order_id: u128,
    pub payment_method: PaymentMethod,
    pub amount: Money,
    pub currency: Option<String>,
    pub metadata: Option<serde_json::Value>,
}

/// Request to process a refund.
#[derive(Debug)]
pub struct RefundRequest {
    pub payment_id: u128,
    pub amount: Option<Money>,
    pub reason: Option<String>,
}

/// Response from a payment intent creation.
#[derive(Debug)]
pub struct PaymentIntentResponse {
    pub payment_id: u128,
    pub client_secret: Option<String>,
    pub status: PaymentStatus,
    pub amount: Money,
    pub currency: String,
}

} // verus!
