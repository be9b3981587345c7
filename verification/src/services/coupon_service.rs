//! Coupon validation, discount calculation and coupon creation rules.

use crate::error::RustCommerceError;
use crate::models::coupon::{
    coupon_amounts_wf, create_coupon_request_is_valid, discount_exact, spec_discount, usage_result,
    Coupon, CreateCouponRequest, DiscountType,
};
use crate::money::{dec_le, dec_lt, dec_wf, dec_zero, Dec, Money};
use crate::time::Timestamp;
use vstd::prelude::*;

verus! {

/// Service for coupon business logic.
pub struct CouponService;

/// A result with its success value dropped.
pub open spec fn without_value<T>(r: Result<T, RustCommerceError>) -> Result<(), RustCommerceError> {
    match r {
        Ok(_) => Ok(()),
        Err(e) => Err(e),
    }
}

/// Why a new coupon is refused, checked in this order.
pub open spec fn spec_create_check(req: CreateCouponRequest) -> Option<Seq<char>> {
    if !create_coupon_request_is_valid(req) {
        Some("code"@)
    } else if req.discount_type == DiscountType::Percentage && dec_lt(
        Dec { m: 100, s: 0 },
        req.discount_value@,
    ) {
        Some("Percentage discount cannot exceed 100%"@)
    } else if req.discount_type == DiscountType::FixedAmount && dec_le(
        req.discount_value@,
        dec_zero(),
    ) {
        Some("Fixed discount must be positive"@)
    } else {
        None
    }
}

impl CouponService {
    /// Validates that a coupon can be used now for the subtotal, and returns
    /// its discount.
    pub fn validate_and_calculate(coupon: &Coupon, subtotal: Money) -> (r: Result<
        Money,
        RustCommerceError,
    >)
        requires
            discount_exact(*coupon, subtotal@),
        ensures
            exists|now: Timestamp| usage_result(without_value(r), *coupon, subtotal, now),
            r matches Ok(d) ==> d@ == spec_discount(*coupon, subtotal@),
    {
        let checked = coupon.validate_usage(subtotal);
        let ghost c0 = checked;
        let ghost now = choose|now: Timestamp| usage_result(c0, *coupon, subtotal, now);
        match checked {
            Ok(()) => {
                let d = coupon.calculate_discount(subtotal);
                assert(usage_result(without_value(Ok::<Money, RustCommerceError>(d)), *coupon, subtotal, now));
                Ok(d)
            },
            Err(e) => {
                assert(usage_result(without_value(Err::<Money, RustCommerceError>(e)), *coupon, subtotal, now));
                Err(e)
            },
        }
    }

    /// Checks a coupon creation request: the field rules, then that a
    /// percentage is at most 100 and a fixed amount is positive. Refusals are
    /// `Validation` errors.
    pub fn validate_create(req: &CreateCouponRequest) -> (r: Result<(), RustCommerceError>)
        requires
            dec_wf(req.discount_value@),
        ensures
            spec_create_check(*req) is None ==> r is Ok,
            spec_create_check(*req) matches Some(msg) ==> (r matches Err(
                RustCommerceError::Validation(m),
            ) && m@ == msg),
    {
        if let Err(field) = req.validate() {
            return Err(RustCommerceError::Validation(field));
        }
        match req.discount_type {
            DiscountType::Percentage => {
                if Money::from_i32(100).lt(&req.discount_value) {
                    return Err(
                        RustCommerceError::Validation(
                            "Percentage discount cannot exceed 100%".to_owned(),
                        ),
                    );
                }
            },
            DiscountType::FixedAmount => {
                if req.discount_value.le(&Money::zero()) {
                    return Err(
                        RustCommerceError::Validation("Fixed discount must be positive".to_owned()),
                    );
                }
            },
            DiscountType::FreeShipping => {},
        }
        Ok(())
    }
}

} // verus!
