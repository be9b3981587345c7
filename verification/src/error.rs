//! Error type of the library, with its HTTP status and machine-readable code.

use crate::money::Money;
use vstd::prelude::*;

verus! {

/// Every failure the library reports. Identifiers are UUIDs held as `u128`;
/// failures of outside services carry their message.
#[derive(Debug, Clone)]
pub enum RustCommerceError {
    Database(String),
    Migration(String),
    ProductNotFound(u128),
    CategoryNotFound(u128),
    CartNotFound(u128),
    OrderNotFound(u128),
    CustomerNotFound(u128),
    PaymentNotFound(u128),
    CouponNotFound(String),
    ReviewNotFound(u128),
    Validation(String),
    InvalidInput(String),
    DuplicateEntry(String),
    InsufficientStock { product_id: u128, requested: i32, available: i32 },
    EmptyCart,
    InvalidStatusTransition { from: String, to: String },
    InvalidCoupon(String),
    CouponExpired,
    CouponUsageLimitReached,
    MinimumOrderNotMet { required: Money, current: Money },
    PaymentProcessing(String),
    PaymentGateway(String),
    RefundError(String),
    Unauthorized(String),
    Forbidden(String),
    Stripe(String),
    Configuration(String),
    Internal(String),
    Anyhow(String),
}

/// Result type of the library's fallible operations.
pub type Result<T> = core::result::Result<T, RustCommerceError>;

/// The HTTP status code of each error.
pub open spec fn spec_status_code(e: RustCommerceError) -> u16 {
    match e {
        RustCommerceError::Validation(_)
        | RustCommerceError::InvalidInput(_)
        | RustCommerceError::EmptyCart
        | RustCommerceError::InvalidCoupon(_)
        | RustCommerceError::CouponExpired
        | RustCommerceError::CouponUsageLimitReached
        | RustCommerceError::MinimumOrderNotMet { .. }
        | RustCommerceError::InvalidStatusTransition { .. } => 400,
        RustCommerceError::Unauthorized(_) => 401,
        RustCommerceError::Forbidden(_) => 403,
        RustCommerceError::ProductNotFound(_)
        | RustCommerceError::CategoryNotFound(_)
        | RustCommerceError::CartNotFound(_)
        | RustCommerceError::OrderNotFound(_)
        | RustCommerceError::CustomerNotFound(_)
        | RustCommerceError::PaymentNotFound(_)
        | RustCommerceError::CouponNotFound(_)
        | RustCommerceError::ReviewNotFound(_) => 404,
        RustCommerceError::DuplicateEntry(_) => 409,
        RustCommerceError::InsufficientStock { .. } => 422,
        RustCommerceError::PaymentGateway(_) | RustCommerceError::Stripe(_) => 502,
        RustCommerceError::Database(_)
        | RustCommerceError::Migration(_)
        | RustCommerceError::PaymentProcessing(_)
        | RustCommerceError::RefundError(_)
        | RustCommerceError::Configuration(_)
        | RustCommerceError::Internal(_)
        | RustCommerceError::Anyhow(_) => 500,
    }
}

/// The machine-readable code of each error.
pub open spec fn spec_error_code(e: RustCommerceError) -> Seq<char> {
    match e {
        RustCommerceError::Database(_) => "DATABASE_ERROR"@,
        RustCommerceError::Migration(_) => "MIGRATION_ERROR"@,
        RustCommerceError::ProductNotFound(_) => "PRODUCT_NOT_FOUND"@,
        RustCommerceError::CategoryNotFound(_) => "CATEGORY_NOT_FOUND"@,
        RustCommerceError::CartNotFound(_) => "CART_NOT_FOUND"@,
        RustCommerceError::OrderNotFound(_) => "ORDER_NOT_FOUND"@,
        RustCommerceError::CustomerNotFound(_) => "CUSTOMER_NOT_FOUND"@,
        RustCommerceError::PaymentNotFound(_) => "PAYMENT_NOT_FOUND"@,
        RustCommerceError::CouponNotFound(_) => "COUPON_NOT_FOUND"@,
        RustCommerceError::ReviewNotFound(_) => "REVIEW_NOT_FOUND"@,
        RustCommerceError::Validation(_) => "VALIDATION_ERROR"@,
        RustCommerceError::InvalidInput(_) => "INVALID_INPUT"@,
        RustCommerceError::DuplicateEntry(_) => "DUPLICATE_ENTRY"@,
        RustCommerceError::InsufficientStock { .. } => "INSUFFICIENT_STOCK"@,
        RustCommerceError::EmptyCart => "EMPTY_CART"@,
        RustCommerceError::InvalidStatusTransition { .. } => "INVALID_STATUS_TRANSITION"@,
        RustCommerceError::InvalidCoupon(_) => "INVALID_COUPON"@,
        RustCommerceError::CouponExpired => "COUPON_EXPIRED"@,
        RustCommerceError::CouponUsageLimitReached => "COUPON_USAGE_LIMIT"@,
        RustCommerceError::MinimumOrderNotMet { .. } => "MINIMUM_ORDER_NOT_MET"@,
        RustCommerceError::PaymentProcessing(_) => "PAYMENT_PROCESSING_ERROR"@,
        RustCommerceError::PaymentGateway(_) => "PAYMENT_GATEWAY_ERROR"@,
        RustCommerceError::RefundError(_) => "REFUND_ERROR"@,
        RustCommerceError::Unauthorized(_) => "UNAUTHORIZED"@,
        RustCommerceError::Forbidden(_) => "FORBIDDEN"@,
        RustCommerceError::Stripe(_) => "STRIPE_ERROR"@,
        RustCommerceError::Configuration(_) => "CONFIGURATION_ERROR"@,
        RustCommerceError::Internal(_) => "INTERNAL_ERROR"@,
        RustCommerceError::Anyhow(_) => "INTERNAL_ERROR"@,
    }
}

impl RustCommerceError {
    /// The HTTP status code for this error.
    pub fn status_code(&self) -> (r: u16)
        ensures
            r == spec_status_code(*self),
    {
        match self {
            RustCommerceError::Validation(_)
            | RustCommerceError::InvalidInput(_)
            | RustCommerceError::EmptyCart
            | RustCommerceError::InvalidCoupon(_)
            | RustCommerceError::CouponExpired
            | RustCommerceError::CouponUsageLimitReached
            | RustCommerceError::MinimumOrderNotMet { .. }
            | RustCommerceError::InvalidStatusTransition { .. } => 400,
            RustCommerceError::Unauthorized(_) => 401,
            RustCommerceError::Forbidden(_) => 403,
            RustCommerceError::ProductNotFound(_)
            | RustCommerceError::CategoryNotFound(_)
            | RustCommerceError::CartNotFound(_)
            | RustCommerceError::OrderNotFound(_)
            | RustCommerceError::CustomerNotFound(_)
            | RustCommerceError::PaymentNotFound(_)
            | RustCommerceError::CouponNotFound(_)
            | RustCommerceError::ReviewNotFound(_) => 404,
            RustCommerceError::DuplicateEntry(_) => 409,
            RustCommerceError::InsufficientStock { .. } => 422,
            RustCommerceError::PaymentGateway(_) | RustCommerceError::Stripe(_) => 502,
            RustCommerceError::Database(_)
            | RustCommerceError::Migration(_)
            | RustCommerceError::PaymentProcessing(_)
            | RustCommerceError::RefundError(_)
            | RustCommerceError::Configuration(_)
            | RustCommerceError::Internal(_)
            | RustCommerceError::Anyhow(_) => 500,
        }
    }

    /// A machine-readable error code string.
    pub fn error_code(&self) -> (r: &'static str)
        ensures
            r@ == spec_error_code(*self),
    {
        match self {
            RustCommerceError::Database(_) => "DATABASE_ERROR",
            RustCommerceError::Migration(_) => "MIGRATION_ERROR",
            RustCommerceError::ProductNotFound(_) => "PRODUCT_NOT_FOUND",
            RustCommerceError::CategoryNotFound(_) => "CATEGORY_NOT_FOUND",
            RustCommerceError::CartNotFound(_) => "CART_NOT_FOUND",
            RustCommerceError::OrderNotFound(_) => "ORDER_NOT_FOUND",
            RustCommerceError::CustomerNotFound(_) => "CUSTOMER_NOT_FOUND",
            RustCommerceError::PaymentNotFound(_) => "PAYMENT_NOT_FOUND",
            RustCommerceError::CouponNotFound(_) => "COUPON_NOT_FOUND",
            RustCommerceError::ReviewNotFound(_) => "REVIEW_NOT_FOUND",
            RustCommerceError::Validation(_) => "VALIDATION_ERROR",
            RustCommerceError::InvalidInput(_) => "INVALID_INPUT",
            RustCommerceError::DuplicateEntry(_) => "DUPLICATE_ENTRY",
            RustCommerceError::InsufficientStock { .. } => "INSUFFICIENT_STOCK",
            RustCommerceError::EmptyCart => "EMPTY_CART",
            RustCommerceError::InvalidStatusTransition { .. } => "INVALID_STATUS_TRANSITION",
            RustCommerceError::InvalidCoupon(_) => "INVALID_COUPON",
            RustCommerceError::CouponExpired => "COUPON_EXPIRED",
            RustCommerceError::CouponUsageLimitReached => "COUPON_USAGE_LIMIT",
            RustCommerceError::MinimumOrderNotMet { .. } => "MINIMUM_ORDER_NOT_MET",
            RustCommerceError::PaymentProcessing(_) => "PAYMENT_PROCESSING_ERROR",
            RustCommerceError::PaymentGateway(_) => "PAYMENT_GATEWAY_ERROR",
            RustCommerceError::RefundError(_) => "REFUND_ERROR",
            RustCommerceError::Unauthorized(_) => "UNAUTHORIZED",
            RustCommerceError::Forbidden(_) => "FORBIDDEN",
            RustCommerceError::Stripe(_) => "STRIPE_ERROR",
            RustCommerceError::Configuration(_) => "CONFIGURATION_ERROR",
            RustCommerceError::Internal(_) => "INTERNAL_ERROR",
            RustCommerceError::Anyhow(_) => "INTERNAL_ERROR",
        }
    }
}

} // verus!
