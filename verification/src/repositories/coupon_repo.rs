//! How an update merges into a stored coupon.

use crate::error::RustCommerceError;
use crate::models::coupon::{Coupon, UpdateCouponRequest};
use crate::repositories::query::{copy_text, pick, pick_opt};
use vstd::prelude::*;
use vstd::string::StringExecFns;

verus! {

/// Repository for coupon database operations.
pub struct CouponRepository;

impl CouponRepository {
    /// The duplicate check of a new coupon, given how many coupons already
    /// carry its code (ignoring case): `DuplicateEntry` when any does.
    pub fn check_code_free(code: &str, existing: i64) -> (r: Result<(), RustCommerceError>)
        ensures
            existing <= 0 ==> r is Ok,
            existing > 0 ==> (r matches Err(RustCommerceError::DuplicateEntry(m)) && m@
                == "Coupon with code '"@ + code@ + "' already exists"@),
    {
        if existing > 0 {
            let mut msg = "Coupon with code '".to_owned();
            msg.append(code);
            msg.append("' already exists");
            return Err(RustCommerceError::DuplicateEntry(msg));
        }
        Ok(())
    }

    /// Merges an update into a stored coupon: each field given in the update
    /// replaces the stored one, the others (and the code, the usage count and
    /// the product and category lists) stay.
    pub fn apply_update(coupon: &mut Coupon, req: &UpdateCouponRequest)
        ensures
            final(coupon).description == pick_opt(req.description, old(coupon).description),
            final(coupon).discount_type == pick(req.discount_type, old(coupon).discount_type),
            final(coupon).discount_value == pick(req.discount_value, old(coupon).discount_value),
            final(coupon).minimum_order_amount == pick_opt(
                req.minimum_order_amount,
                old(coupon).minimum_order_amount,
            ),
            final(coupon).maximum_discount_amount == pick_opt(
                req.maximum_discount_amount,
                old(coupon).maximum_discount_amount,
            ),
            final(coupon).usage_limit == pick_opt(req.usage_limit, old(coupon).usage_limit),
            final(coupon).usage_limit_per_customer == pick_opt(
                req.usage_limit_per_customer,
                old(coupon).usage_limit_per_customer,
            ),
            final(coupon).is_active == pick(req.is_active, old(coupon).is_active),
            final(coupon).starts_at == pick_opt(req.starts_at, old(coupon).starts_at),
            final(coupon).expires_at == pick_opt(req.expires_at, old(coupon).expires_at),
            final(coupon).id == old(coupon).id,
            final(coupon).code == old(coupon).code,
            final(coupon).usage_count == old(coupon).usage_count,
            final(coupon).applies_to_product_ids == old(coupon).applies_to_product_ids,
            final(coupon).applies_to_category_ids == old(coupon).applies_to_category_ids,
            final(coupon).excluded_product_ids == old(coupon).excluded_product_ids,
            final(coupon).excluded_category_ids == old(coupon).excluded_category_ids,
            final(coupon).created_at == old(coupon).created_at,
            final(coupon).updated_at == old(coupon).updated_at,
    {
        if req.description.is_some() {
            coupon.description = copy_text(&req.description);
        }
        if let Some(v) = req.discount_type {
            coupon.discount_type = v;
        }
        if let Some(v) = req.discount_value {
            coupon.discount_value = v;
        }
        if req.minimum_order_amount.is_some() {
            coupon.minimum_order_amount = req.minimum_order_amount;
        }
        if req.maximum_discount_amount.is_some() {
            coupon.maximum_discount_amount = req.maximum_discount_amount;
        }
        if req.usage_limit.is_some() {
            coupon.usage_limit = req.usage_limit;
        }
        if req.usage_limit_per_customer.is_some() {
            coupon.usage_limit_per_customer = req.usage_limit_per_customer;
        }
        if let Some(v) = req.is_active {
            coupon.is_active = v;
        }
        if req.starts_at.is_some() {
            coupon.starts_at = req.starts_at;
        }
        if req.expires_at.is_some() {
            coupon.expires_at = req.expires_at;
        }
    }
}

} // verus!
