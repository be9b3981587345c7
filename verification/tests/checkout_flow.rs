//! The checkout flow: order status workflow, order numbers, grand totals,
//! request validation and the checkout decisions over loaded cart data.

use std::str::FromStr;

use chrono::Utc;
use rust_decimal::Decimal;

use rustcommerce::config::RustCommerceConfig;
use rustcommerce::error::RustCommerceError;
use rustcommerce::models::cart::{Cart, CartItem};
use rustcommerce::models::coupon::{Coupon, DiscountType};
use rustcommerce::models::order::{generate_order_number, CheckoutAddress, CheckoutRequest, OrderStatus};
use rustcommerce::models::payment::PaymentMethod;
use rustcommerce::models::product::{Product, ProductStatus};
use rustcommerce::models::shipping::{ShippingMethod, ShippingType, ShippingZone};
use rustcommerce::models::tax::{TaxRate, TaxType};
use rustcommerce::money::Money;
use rustcommerce::services::checkout_service::CheckoutService;
use rustcommerce::time::Timestamp;

fn dec(s: &str) -> Decimal {
    Decimal::from_str(s).unwrap()
}

fn m(s: &str) -> Money {
    let d = dec(s);
    Money::new(d.mantissa(), d.scale())
}

fn d(x: Money) -> Decimal {
    Decimal::from_i128_with_scale(x.mantissa, x.scale)
}

fn now() -> Timestamp {
    let n = Utc::now();
    Timestamp::new(n.timestamp(), n.timestamp_subsec_nanos())
}

#[test]
fn order_status_happy_path_transitions() {
    assert!(OrderStatus::Pending.can_transition_to(&OrderStatus::Confirmed));
    assert!(OrderStatus::Confirmed.can_transition_to(&OrderStatus::Processing));
    assert!(OrderStatus::Processing.can_transition_to(&OrderStatus::Shipped));
    assert!(OrderStatus::Shipped.can_transition_to(&OrderStatus::Delivered));
}

#[test]
fn delivered_can_only_be_refunded_not_shipped_again() {
    assert!(OrderStatus::Delivered.can_transition_to(&OrderStatus::Refunded));
    assert!(!OrderStatus::Delivered.can_transition_to(&OrderStatus::Shipped));
    assert!(!OrderStatus::Delivered.can_transition_to(&OrderStatus::Pending));
}

#[test]
fn terminal_statuses_have_no_outgoing_transitions() {
    assert!(OrderStatus::Cancelled.valid_transitions().is_empty());
    assert!(OrderStatus::Refunded.valid_transitions().is_empty());
}

#[test]
fn failed_orders_can_be_retried_back_to_pending() {
    assert!(OrderStatus::Failed.can_transition_to(&OrderStatus::Pending));
}

#[test]
fn transition_to_returns_error_for_invalid_jump() {
    let res = OrderStatus::Pending.transition_to(OrderStatus::Delivered);
    assert!(matches!(res, Err(RustCommerceError::InvalidStatusTransition { .. })));
}

#[test]
fn pending_to_confirmed_allowed() {
    let res = OrderStatus::Pending.transition_to(OrderStatus::Confirmed);
    assert_eq!(res.unwrap(), OrderStatus::Confirmed);
}

#[test]
fn order_number_has_expected_prefix_and_length() {
    let n = generate_order_number();
    assert!(n.starts_with("RC-"), "must start with 'RC-': {}", n);
    assert_eq!(n.len(), 19, "expected 19 chars total, got: {}", n);
}

#[test]
fn order_numbers_have_diverse_suffixes() {
    let mut numbers = std::collections::HashSet::new();
    for _ in 0..50 {
        numbers.insert(generate_order_number());
        let start = std::time::Instant::now();
        while start.elapsed() < std::time::Duration::from_millis(1) {}
    }
    assert!(numbers.len() > 5, "got only {} unique numbers", numbers.len());
}

fn checkout_grand_total(subtotal: &str, tax: &str, shipping: &str, discount: &str) -> Decimal {
    d(CheckoutService::order_total(m(subtotal), m(tax), m(shipping), m(discount), None).unwrap())
}

#[test]
fn grand_total_simple() {
    let g = checkout_grand_total("100", "8", "5", "10");
    assert_eq!(g, dec("103"));
}

#[test]
fn grand_total_no_tax_no_shipping_no_discount() {
    assert_eq!(checkout_grand_total("42.50", "0", "0", "0"), dec("42.50"));
}

#[test]
fn grand_total_discount_can_drive_below_subtotal() {
    let g = checkout_grand_total("20", "0", "0", "50");
    assert_eq!(g, dec("-30"));
}

#[test]
fn minimum_order_check_triggers_when_grand_total_below_threshold() {
    let minimum = dec("25");
    let grand_total = checkout_grand_total("10", "0", "0", "0");
    assert!(grand_total < minimum);

    let res = CheckoutService::order_total(m("10"), m("0"), m("0"), m("0"), Some(m("25")));
    match res {
        Err(RustCommerceError::MinimumOrderNotMet { required, current }) => {
            assert_eq!(d(required), dec("25"));
            assert_eq!(d(current), dec("10"));
        }
        other => panic!("expected MinimumOrderNotMet, got {:?}", other),
    }
}

fn good_address() -> CheckoutAddress {
    CheckoutAddress {
        address_line1: "100 Main St".into(),
        address_line2: None,
        city: "San Francisco".into(),
        state: Some("CA".into()),
        postal_code: "94105".into(),
        country: "US".into(),
    }
}

fn good_request() -> CheckoutRequest {
    CheckoutRequest {
        cart_id: uuid::Uuid::new_v4().as_u128(),
        customer_email: "buyer@example.com".into(),
        customer_name: "Alex Buyer".into(),
        customer_id: None,
        shipping_address: good_address(),
        billing_address: None,
        shipping_method: None,
        notes: None,
        payment_method: Some("stripe".into()),
    }
}

#[test]
fn checkout_request_validates_when_well_formed() {
    let r = good_request();
    assert!(r.validate().is_ok());
}

#[test]
fn checkout_request_rejects_invalid_email() {
    let mut r = good_request();
    r.customer_email = "not-an-email".into();
    assert!(r.validate().is_err());
}

#[test]
fn checkout_request_rejects_empty_name() {
    let mut r = good_request();
    r.customer_name = "".into();
    assert!(r.validate().is_err());
}

#[test]
fn checkout_request_rejects_non_iso_country() {
    let mut r = good_request();
    r.shipping_address.country = "USA".into();
    assert!(r.validate().is_err());
}

#[test]
fn checkout_request_rejects_empty_address_line1() {
    let mut r = good_request();
    r.shipping_address.address_line1 = "".into();
    assert!(r.validate().is_err());
}

#[test]
fn failed_payment_marks_order_failed_not_cancelled() {
    assert!(OrderStatus::Pending.can_transition_to(&OrderStatus::Failed));
    assert!(OrderStatus::Failed.can_transition_to(&OrderStatus::Pending));
}

#[test]
fn order_status_failed_is_a_valid_terminal_for_payment_decline() {
    let res = OrderStatus::Pending.transition_to(OrderStatus::Failed);
    assert_eq!(res.unwrap(), OrderStatus::Failed);
}

fn cart(subtotal: &str, discount: &str) -> Cart {
    Cart {
        id: 7,
        customer_id: None,
        session_id: Some("s".into()),
        currency: "USD".into(),
        subtotal: m(subtotal),
        tax_total: m("0"),
        shipping_total: m("0"),
        discount_total: m(discount),
        grand_total: m("0"),
        coupon_code: None,
        notes: None,
        expires_at: None,
        created_at: now(),
        updated_at: now(),
    }
}

fn item(product_id: u128, quantity: i32, unit: &str) -> CartItem {
    CartItem {
        id: product_id + 100,
        cart_id: 7,
        product_id,
        variant_id: None,
        quantity,
        unit_price: m(unit),
        total_price: m("0"),
        created_at: now(),
        updated_at: now(),
    }
}

fn product(id: u128, stock: i32) -> Product {
    Product {
        id,
        name: "Widget".into(),
        slug: "widget".into(),
        description: None,
        short_description: None,
        sku: None,
        price: m("25"),
        compare_at_price: None,
        cost_price: None,
        status: ProductStatus::Active,
        is_featured: false,
        is_digital: false,
        weight: None,
        width: None,
        height: None,
        depth: None,
        stock_quantity: stock,
        low_stock_threshold: 5,
        track_inventory: true,
        allow_backorders: false,
        meta_title: None,
        meta_description: None,
        created_at: now(),
        updated_at: now(),
    }
}

fn us_rate() -> TaxRate {
    TaxRate {
        id: 1,
        name: "US".into(),
        rate: m("8"),
        tax_type: TaxType::Percentage,
        country: "US".into(),
        state: None,
        postal_code: None,
        priority: 0,
        is_compound: false,
        is_shipping_taxed: false,
        is_active: true,
        created_at: now(),
        updated_at: now(),
    }
}

fn zone_and_method() -> (Vec<ShippingZone>, Vec<ShippingMethod>) {
    let zone = ShippingZone {
        id: 50,
        name: "US".into(),
        countries: vec!["US".into()],
        states: vec![],
        postal_codes: vec![],
        is_active: true,
        sort_order: 0,
        created_at: now(),
        updated_at: now(),
    };
    let method = ShippingMethod {
        id: 51,
        zone_id: 50,
        name: "Flat".into(),
        description: None,
        shipping_type: ShippingType::FlatRate,
        price: m("5"),
        min_order_amount: None,
        max_order_amount: None,
        min_weight: None,
        max_weight: None,
        estimated_days_min: None,
        estimated_days_max: None,
        is_active: true,
        sort_order: 0,
        created_at: now(),
        updated_at: now(),
    };
    (vec![zone], vec![method])
}

#[test]
fn prepared_checkout_totals_tax_shipping_and_discount() {
    let config = RustCommerceConfig::new("postgres://localhost/shop".into());
    let (zones, methods) = zone_and_method();
    let plan = CheckoutService::prepare(
        &config,
        &good_request(),
        &cart("100", "10"),
        &vec![item(1, 2, "50")],
        &vec![product(1, 10)],
        vec![us_rate()],
        &zones,
        &methods,
        None,
    )
    .unwrap();
    assert_eq!(d(plan.tax_total), dec("8.00"));
    assert_eq!(d(plan.shipping_total), dec("5"));
    assert_eq!(d(plan.grand_total), dec("103"));
    assert_eq!(plan.payment_method, PaymentMethod::Stripe);
}

#[test]
fn prepared_checkout_refuses_empty_cart_and_short_stock() {
    let config = RustCommerceConfig::new("postgres://localhost/shop".into());
    let (zones, methods) = zone_and_method();
    let empty = CheckoutService::prepare(
        &config,
        &good_request(),
        &cart("0", "0"),
        &vec![],
        &vec![],
        vec![],
        &zones,
        &methods,
        None,
    );
    assert!(matches!(empty, Err(RustCommerceError::EmptyCart)));

    let short = CheckoutService::prepare(
        &config,
        &good_request(),
        &cart("100", "0"),
        &vec![item(1, 1, "10"), item(2, 5, "18")],
        &vec![product(1, 10), product(2, 3)],
        vec![],
        &zones,
        &methods,
        None,
    );
    match short {
        Err(RustCommerceError::InsufficientStock { product_id, requested, available }) => {
            assert_eq!(product_id, 2);
            assert_eq!(requested, 5);
            assert_eq!(available, 3);
        }
        other => panic!("expected InsufficientStock, got {:?}", other),
    }

    let mut bad = good_request();
    bad.customer_email = "nobody".into();
    let invalid = CheckoutService::prepare(
        &config,
        &bad,
        &cart("100", "0"),
        &vec![item(1, 1, "10")],
        &vec![product(1, 10)],
        vec![],
        &zones,
        &methods,
        None,
    );
    assert!(matches!(invalid, Err(RustCommerceError::Validation(_))));
}

fn free_shipping_coupon() -> Coupon {
    Coupon {
        id: 77,
        code: "SHIPFREE".to_string(),
        description: None,
        discount_type: DiscountType::FreeShipping,
        discount_value: m("0"),
        minimum_order_amount: None,
        maximum_discount_amount: None,
        usage_limit: None,
        usage_count: 0,
        usage_limit_per_customer: None,
        applies_to_product_ids: None,
        applies_to_category_ids: None,
        excluded_product_ids: None,
        excluded_category_ids: None,
        is_active: true,
        starts_at: None,
        expires_at: None,
        created_at: now(),
        updated_at: now(),
    }
}

#[test]
fn free_shipping_coupon_waives_shipping_at_checkout() {
    let config = RustCommerceConfig::new("postgres://localhost/shop".into());
    let (zones, methods) = zone_and_method();
    let coupon = free_shipping_coupon();
    let plan = CheckoutService::prepare(
        &config,
        &good_request(),
        &cart("100", "10"),
        &vec![item(1, 2, "50")],
        &vec![product(1, 10)],
        vec![us_rate()],
        &zones,
        &methods,
        Some(&coupon),
    )
    .unwrap();
    assert_eq!(d(plan.shipping_total), dec("0"));
    assert_eq!(d(plan.tax_total), dec("8.00"));
    // 100 + 8.00 + 0 - 10
    assert_eq!(d(plan.grand_total), dec("98.00"));
}
