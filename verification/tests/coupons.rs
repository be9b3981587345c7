//! Coupon validation and discount calculation.

use std::str::FromStr;

use chrono::{Duration, Utc};
use rust_decimal::Decimal;

use rustcommerce::error::RustCommerceError;
use rustcommerce::models::coupon::{Coupon, DiscountType};
use rustcommerce::money::Money;
use rustcommerce::services::coupon_service::CouponService;
use rustcommerce::time::Timestamp;

fn dec(s: &str) -> Decimal {
    Decimal::from_str(s).unwrap()
}

fn m(s: &str) -> Money {
    let d = dec(s);
    Money::new(d.mantissa(), d.scale())
}

fn d(x: Money) -> Decimal {
    Decimal::from_i128_with_scale(x.mantissa, x.scale)
}

fn stamp(t: chrono::DateTime<Utc>) -> Timestamp {
    Timestamp::new(t.timestamp(), t.timestamp_subsec_nanos())
}

fn base_coupon() -> Coupon {
    Coupon {
        id: uuid::Uuid::new_v4().as_u128(),
        code: "TEST10".to_string(),
        description: None,
        discount_type: DiscountType::Percentage,
        discount_value: m("10"),
        minimum_order_amount: None,
        maximum_discount_amount: None,
        usage_limit: None,
        usage_count: 0,
        usage_limit_per_customer: None,
        applies_to_product_ids: None,
        applies_to_category_ids: None,
        excluded_product_ids: None,
        excluded_category_ids: None,
        is_active: true,
        starts_at: None,
        expires_at: None,
        created_at: stamp(Utc::now()),
        updated_at: stamp(Utc::now()),
    }
}

#[test]
fn fixed_amount_5_off_single_item_cart() {
    let mut c = base_coupon();
    c.discount_type = DiscountType::FixedAmount;
    c.discount_value = m("5");

    let discount = c.calculate_discount(m("20"));
    assert_eq!(d(discount), dec("5"), "$5 off a $20 cart should be exactly $5");
}

#[test]
fn fixed_amount_cannot_exceed_subtotal() {
    let mut c = base_coupon();
    c.discount_type = DiscountType::FixedAmount;
    c.discount_value = m("50");

    let discount = c.calculate_discount(m("20"));
    assert_eq!(d(discount), dec("20"), "Discount is capped at the subtotal");
}

#[test]
fn percentage_20_off_multi_item_cart() {
    let mut c = base_coupon();
    c.discount_type = DiscountType::Percentage;
    c.discount_value = m("20");

    let discount = c.calculate_discount(m("150"));
    assert_eq!(d(discount), dec("30"), "20% of $150 must be exactly $30");
}

#[test]
fn percentage_with_max_discount_cap() {
    let mut c = base_coupon();
    c.discount_type = DiscountType::Percentage;
    c.discount_value = m("50");
    c.maximum_discount_amount = Some(m("25"));

    let discount = c.calculate_discount(m("200"));
    assert_eq!(d(discount), dec("25"), "Cap should clamp the 50% discount");
}

#[test]
fn free_shipping_returns_zero_line_discount() {
    let mut c = base_coupon();
    c.discount_type = DiscountType::FreeShipping;
    c.discount_value = m("0");

    let discount = c.calculate_discount(m("100"));
    assert_eq!(d(discount), dec("0"));
}

#[test]
fn current_stacking_behavior_is_replace_not_combine() {
    let mut a = base_coupon();
    a.code = "A_FIXED".to_string();
    a.discount_type = DiscountType::FixedAmount;
    a.discount_value = m("5");

    let mut b = base_coupon();
    b.code = "B_PERCENT".to_string();
    b.discount_type = DiscountType::Percentage;
    b.discount_value = m("20");

    let subtotal = m("100");
    let stacked_if_combined = d(a.calculate_discount(subtotal)) + d(b.calculate_discount(subtotal));
    let actual_active = d(b.calculate_discount(subtotal));

    assert_eq!(actual_active, dec("20"), "Single active coupon = $20 (20% of $100)");
    assert_ne!(actual_active, stacked_if_combined, "Stacking is not combined");
}

#[test]
fn coupon_below_minimum_order_is_rejected() {
    let mut c = base_coupon();
    c.discount_type = DiscountType::Percentage;
    c.discount_value = m("50");
    c.minimum_order_amount = Some(m("10"));

    let res = c.validate_usage(m("5"));
    match res {
        Err(RustCommerceError::MinimumOrderNotMet { required, current }) => {
            assert_eq!(d(required), dec("10"));
            assert_eq!(d(current), dec("5"));
        }
        other => panic!("expected MinimumOrderNotMet, got: {:?}", other),
    }
}

#[test]
fn coupon_at_exactly_minimum_order_is_accepted() {
    let mut c = base_coupon();
    c.minimum_order_amount = Some(m("10"));
    assert!(c.validate_usage(m("10")).is_ok());
}

#[test]
fn expired_coupon_rejected() {
    let mut c = base_coupon();
    c.expires_at = Some(stamp(Utc::now() - Duration::hours(1)));

    let res = c.validate_usage(m("100"));
    assert!(matches!(res, Err(RustCommerceError::CouponExpired)));
}

#[test]
fn future_starts_at_rejected_as_invalid() {
    let mut c = base_coupon();
    c.starts_at = Some(stamp(Utc::now() + Duration::hours(1)));

    let res = c.validate_usage(m("100"));
    assert!(matches!(res, Err(RustCommerceError::InvalidCoupon(_))));
}

#[test]
fn coupon_not_yet_expired_accepted() {
    let mut c = base_coupon();
    c.expires_at = Some(stamp(Utc::now() + Duration::hours(1)));
    assert!(c.validate_usage(m("100")).is_ok());
}

#[test]
fn usage_count_at_limit_rejected() {
    let mut c = base_coupon();
    c.usage_limit = Some(5);
    c.usage_count = 5;

    let res = c.validate_usage(m("100"));
    assert!(matches!(res, Err(RustCommerceError::CouponUsageLimitReached)));
}

#[test]
fn usage_count_above_limit_rejected() {
    let mut c = base_coupon();
    c.usage_limit = Some(5);
    c.usage_count = 6;

    let res = c.validate_usage(m("100"));
    assert!(matches!(res, Err(RustCommerceError::CouponUsageLimitReached)));
}

#[test]
fn usage_count_below_limit_accepted() {
    let mut c = base_coupon();
    c.usage_limit = Some(5);
    c.usage_count = 4;

    assert!(c.validate_usage(m("100")).is_ok());
}

#[test]
fn inactive_coupon_rejected() {
    let mut c = base_coupon();
    c.is_active = false;

    let res = c.validate_usage(m("100"));
    assert!(matches!(res, Err(RustCommerceError::InvalidCoupon(_))));
}

#[test]
fn percentage_100_off_yields_zero_grand_total() {
    let mut c = base_coupon();
    c.discount_type = DiscountType::Percentage;
    c.discount_value = m("100");

    let discount = c.calculate_discount(m("73.45"));
    assert_eq!(d(discount), dec("73.45"));
}

#[test]
fn checks_at_a_fixed_instant_follow_their_order() {
    let at = Timestamp::new(1_700_000_000, 0);
    let mut c = base_coupon();
    c.is_active = false;
    c.expires_at = Some(Timestamp::new(1_600_000_000, 0));
    assert!(matches!(c.validate_usage_at(m("100"), at), Err(RustCommerceError::InvalidCoupon(_))));

    c.is_active = true;
    assert!(matches!(c.validate_usage_at(m("100"), at), Err(RustCommerceError::CouponExpired)));

    c.expires_at = Some(Timestamp::new(1_700_000_000, 0));
    assert!(c.validate_usage_at(m("100"), at).is_ok(), "expiry at the very instant still allows use");
}

#[test]
fn validate_and_calculate_gives_the_discount_of_a_usable_coupon() {
    let mut c = base_coupon();
    c.discount_value = m("15");
    let discount = CouponService::validate_and_calculate(&c, m("80")).unwrap();
    assert_eq!(d(discount), dec("12"));

    c.is_active = false;
    assert!(CouponService::validate_and_calculate(&c, m("80")).is_err());
}

#[test]
fn discount_never_exceeds_subtotal() {
    let mut c = base_coupon();
    c.discount_type = DiscountType::Percentage;
    c.discount_value = m("150");
    let discount = c.calculate_discount(m("40"));
    assert_eq!(d(discount), dec("40"));
}
