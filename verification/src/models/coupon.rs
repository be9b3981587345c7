//! Discount coupons with their validation and discount rules.

use crate::error::RustCommerceError;
use crate::models::validate::{length_within, spec_length_within};
use crate::money::{
    dec_le, dec_lt, dec_min, dec_percent_of, dec_wf, dec_zero, lemma_le_refl, lemma_le_trans,
    percent_exact, Dec, Money,
};
use crate::time::{ts_before, utc_now, Timestamp};
use vstd::prelude::*;

verus! {

/// How the discount is applied.
#[derive(Clone, Copy, Debug, PartialEq, Eq, Structural)]
pub enum DiscountType {
    Percentage,
    FixedAmount,
    FreeShipping,
}

pub open spec fn spec_discount_type_str(t: DiscountType) -> Seq<char> {
    match t {
        DiscountType::Percentage => "percentage"@,
        DiscountType::FixedAmount => "fixed_amount"@,
        DiscountType::FreeShipping => "free_shipping"@,
    }
}

impl DiscountType {
    /// The snake-case name of the discount type (its display text).
    pub fn as_str(&self) -> (r: &'static str)
        ensures
            r@ == spec_discount_type_str(*self),
    {
        match self {
            DiscountType::Percentage => "percentage",
            DiscountType::FixedAmount => "fixed_amount",
            DiscountType::FreeShipping => "free_shipping",
        }
    }
}

/// A discount coupon.
#[derive(Debug)]
pub struct Coupon {
    pub id: u128,
    pub code: String,
    pub description: Option<String>,
    pub discount_type: DiscountType,
    pub discount_value: Money,
    pub minimum_order_amount: Option<Money>,
    pub maximum_discount_amount: Option<Money>,
    pub usage_limit: Option<i32>,
    pub usage_count: i32,
    pub usage_limit_per_customer: Option<i32>,
    pub applies_to_product_ids: Option<Vec<u128>>,
    pub applies_to_category_ids: Option<Vec<u128>>,
    pub excluded_product_ids: Option<Vec<u128>>,
    pub excluded_category_ids: Option<Vec<u128>>,
    pub is_active: bool,
    pub starts_at: Option<Timestamp>,
    pub expires_at: Option<Timestamp>,
    pub created_at: Timestamp,
    pub updated_at: Timestamp,
}

/// Request to create a coupon.
#[derive(Debug)]
pub struct CreateCouponRequest {
    pub code: String,
    pub description: Option<String>,
    pub discount_type: DiscountType,
    pub discount_value: Money,
    pub minimum_order_amount: Option<Money>,
    pub maximum_discount_amount: Option<Money>,
    pub usage_limit: Option<i32>,
    pub usage_limit_per_customer: Option<i32>,
    pub applies_to_product_ids: Option<Vec<u128>>,
    pub applies_to_category_ids: Option<Vec<u128>>,
    pub excluded_product_ids: Option<Vec<u128>>,
    pub excluded_category_ids: Option<Vec<u128>>,
    pub starts_at: Option<Timestamp>,
    pub expires_at: Option<Timestamp>,
}

/// Request to update a coupon; absent fields keep their value.
#[derive(Debug)]
pub struct UpdateCouponRequest {
    pub description: Option<String>,
    pub discount_type: Option<DiscountType>,
    pub discount_value: Option<Money>,
    pub minimum_order_amount: Option<Money>,
    pub maximum_discount_amount: Option<Money>,
    pub usage_limit: Option<i32>,
    pub usage_limit_per_customer: Option<i32>,
    pub is_active: Option<bool>,
    pub starts_at: Option<Timestamp>,
    pub expires_at: Option<Timestamp>,
}

/// Why a coupon cannot be used, checked in this order.
pub enum CouponCheck {
    Usable,
    NotActive,
    NotYetValid,
    Expired,
    UsageLimitReached,
    BelowMinimum,
}

/// The first rule a coupon breaks for an order subtotal at instant `now`.
pub open spec fn coupon_check(c: Coupon, subtotal: Dec, now: Timestamp) -> CouponCheck {
    if !c.is_active {
        CouponCheck::NotActive
    } else if c.starts_at matches Some(s) && ts_before(now, s) {
        CouponCheck::NotYetValid
    } else if c.expires_at matches Some(e) && ts_before(e, now) {
        CouponCheck::Expired
    } else if c.usage_limit matches Some(l) && c.usage_count >= l {
        CouponCheck::UsageLimitReached
    } else if c.minimum_order_amount matches Some(m) && dec_lt(subtotal, m@) {
        CouponCheck::BelowMinimum
    } else {
        CouponCheck::Usable
    }
}

/// The result `validate_usage` gives for each outcome of the checks.
pub open spec fn usage_result(
    r: Result<(), RustCommerceError>,
    c: Coupon,
    subtotal: Money,
    now: Timestamp,
) -> bool {
    match coupon_check(c, subtotal@, now) {
        CouponCheck::Usable => r is Ok,
        CouponCheck::NotActive => r matches Err(RustCommerceError::InvalidCoupon(m))
            && m@ == "Coupon is not active"@,
        CouponCheck::NotYetValid => r matches Err(RustCommerceError::InvalidCoupon(m))
            && m@ == "Coupon is not yet valid"@,
        CouponCheck::Expired => r matches Err(RustCommerceError::CouponExpired),
        CouponCheck::UsageLimitReached => r matches Err(
            RustCommerceError::CouponUsageLimitReached,
        ),
        CouponCheck::BelowMinimum => r matches Err(
            RustCommerceError::MinimumOrderNotMet { required, current },
        ) && Some(required) == c.minimum_order_amount && current == subtotal,
    }
}

/// The amounts of a coupon are decimals.
pub open spec fn coupon_amounts_wf(c: Coupon) -> bool {
    &&& dec_wf(c.discount_value@)
    &&& (c.minimum_order_amount matches Some(m) ==> dec_wf(m@))
    &&& (c.maximum_discount_amount matches Some(m) ==> dec_wf(m@))
}

/// The discount before caps: the percentage of the subtotal, the fixed amount,
/// or zero for free shipping (which is handled with shipping).
pub open spec fn raw_discount(c: Coupon, subtotal: Dec) -> Dec {
    match c.discount_type {
        DiscountType::Percentage => dec_percent_of(subtotal, c.discount_value@),
        DiscountType::FixedAmount => c.discount_value@,
        DiscountType::FreeShipping => dec_zero(),
    }
}

/// The discount for a subtotal: the raw discount, capped at the maximum
/// discount when set, then capped at the subtotal.
pub open spec fn spec_discount(c: Coupon, subtotal: Dec) -> Dec {
    let d = raw_discount(c, subtotal);
    let d = match c.maximum_discount_amount {
        Some(max) => dec_min(d, max@),
        None => d,
    };
    dec_min(d, subtotal)
}

/// The discount of a coupon can be computed exactly.
pub open spec fn discount_exact(c: Coupon, subtotal: Dec) -> bool {
    &&& coupon_amounts_wf(c)
    &&& dec_wf(subtotal)
    &&& (c.discount_type == DiscountType::Percentage ==> percent_exact(
        subtotal,
        c.discount_value@,
    ))
}

impl Coupon {
    /// Checks that the coupon can be used at instant `now` for an order
    /// subtotal: active, started, not expired, under its usage limit, and the
    /// subtotal at least its minimum order amount.
    pub fn validate_usage_at(&self, order_subtotal: Money, now: Timestamp) -> (r: Result<
        (),
        RustCommerceError,
    >)
        requires
            coupon_amounts_wf(*self),
            order_subtotal.wf(),
        ensures
            usage_result(r, *self, order_subtotal, now),
    {
        if !self.is_active {
            return Err(RustCommerceError::InvalidCoupon("Coupon is not active".to_owned()));
        }
        if let Some(starts_at) = self.starts_at {
            if now.is_before(&starts_at) {
                return Err(RustCommerceError::InvalidCoupon("Coupon is not yet valid".to_owned()));
            }
        }
        if let Some(expires_at) = self.expires_at {
            if expires_at.is_before(&now) {
                return Err(RustCommerceError::CouponExpired);
            }
        }
        if let Some(limit) = self.usage_limit {
            if self.usage_count >= limit {
                return Err(RustCommerceError::CouponUsageLimitReached);
            }
        }
        if let Some(min_amount) = self.minimum_order_amount {
            if order_subtotal.lt(&min_amount) {
                return Err(
                    RustCommerceError::MinimumOrderNotMet {
                        required: min_amount,
                        current: order_subtotal,
                    },
                );
            }
        }
        Ok(())
    }

    /// Checks that the coupon can be used right now (the current UTC time).
    pub fn validate_usage(&self, order_subtotal: Money) -> (r: Result<(), RustCommerceError>)
        requires
            coupon_amounts_wf(*self),
            order_subtotal.wf(),
        ensures
            exists|now: Timestamp| usage_result(r, *self, order_subtotal, now),
    {
        let now = utc_now();
        self.validate_usage_at(order_subtotal, now)
    }

    /// The discount amount for a subtotal.
    pub fn calculate_discount(&self, subtotal: Money) -> (r: Money)
        requires
            discount_exact(*self, subtotal@),
        ensures
            r@ == spec_discount(*self, subtotal@),
            r.wf(),
    {
        let discount = match self.discount_type {
            DiscountType::Percentage => subtotal.percent_of(&self.discount_value),
            DiscountType::FixedAmount => self.discount_value,
            DiscountType::FreeShipping => Money::zero(),
        };
        let discount = match &self.maximum_discount_amount {
            Some(max) => discount.min(max),
            None => discount,
        };
        discount.min(&subtotal)
    }
}

/// The discount never exceeds the subtotal, nor the maximum discount when one
/// is set.
pub proof fn law_discount_capped(c: Coupon, subtotal: Dec)
    ensures
        dec_le(spec_discount(c, subtotal), subtotal),
        c.maximum_discount_amount matches Some(max) ==> dec_le(spec_discount(c, subtotal), max@),
{
    let d = raw_discount(c, subtotal);
    let d1 = match c.maximum_discount_amount {
        Some(max) => dec_min(d, max@),
        None => d,
    };
    lemma_le_refl(subtotal);
    if let Some(max) = c.maximum_discount_amount {
        lemma_le_refl(max@);
        assert(dec_le(d1, max@));
        if dec_lt(subtotal, d1) {
            lemma_le_trans(subtotal, d1, max@);
        }
    }
}

/// A coupon passes validation exactly when it is active, has started, has not
/// expired, is under its usage limit and the subtotal meets its minimum.
pub proof fn law_usable_iff_all_rules_hold(c: Coupon, subtotal: Dec, now: Timestamp)
    ensures
        coupon_check(c, subtotal, now) is Usable <==> {
            &&& c.is_active
            &&& (c.starts_at matches Some(s) ==> !ts_before(now, s))
            &&& (c.expires_at matches Some(e) ==> !ts_before(e, now))
            &&& (c.usage_limit matches Some(l) ==> c.usage_count < l)
            &&& (c.minimum_order_amount matches Some(m) ==> dec_le(m@, subtotal))
        },
{
}

/// The field rule of a new coupon: a code of 1 to 100 characters.
pub open spec fn create_coupon_request_is_valid(r: CreateCouponRequest) -> bool {
    spec_length_within(r.code@, 1, 100)
}

impl CreateCouponRequest {
    /// Checks the field rules; the error names the first field that breaks them.
    pub fn validate(&self) -> (r: Result<(), String>)
        ensures
            r is Ok <==> create_coupon_request_is_valid(*self),
            r matches Err(f) ==> f@ == "code"@,
    {
        if !length_within(self.code.as_str(), 1, 100) {
            return Err("code".to_owned());
        }
        Ok(())
    }
}

} // verus!
