//! Cart totals: the grand total of a cart and the totals recalculated from
//! its items.

use std::str::FromStr;

use chrono::Utc;
use rust_decimal::Decimal;

use rustcommerce::models::cart::{Cart, CartItem};
use rustcommerce::money::Money;
use rustcommerce::services::cart_service::CartService;
use rustcommerce::time::Timestamp;

fn dec(s: &str) -> Decimal {
    Decimal::from_str(s).unwrap()
}

fn m(s: &str) -> Money {
    let d = dec(s);
    Money::new(d.mantissa(), d.scale())
}

fn d(x: Money) -> Decimal {
    Decimal::from_i128_with_scale(x.mantissa, x.scale)
}

fn now() -> Timestamp {
    let n = Utc::now();
    Timestamp::new(n.timestamp(), n.timestamp_subsec_nanos())
}

fn empty_cart() -> Cart {
    Cart {
        id: uuid::Uuid::new_v4().as_u128(),
        customer_id: None,
        session_id: Some("test-session".into()),
        currency: "USD".to_string(),
        subtotal: Money::zero(),
        tax_total: Money::zero(),
        shipping_total: Money::zero(),
        discount_total: Money::zero(),
        grand_total: Money::zero(),
        coupon_code: None,
        notes: None,
        expires_at: None,
        created_at: now(),
        updated_at: now(),
    }
}

fn new_item(cart_id: u128, product_id: u128, qty: i32, unit_price: &str) -> CartItem {
    CartItem {
        id: uuid::Uuid::new_v4().as_u128(),
        cart_id,
        product_id,
        variant_id: None,
        quantity: qty,
        unit_price: m(unit_price),
        total_price: CartService::line_total(m(unit_price), qty),
        created_at: now(),
        updated_at: now(),
    }
}

#[test]
fn grand_total_equals_sum_components_when_positive() {
    let mut c = empty_cart();
    c.subtotal = m("100");
    c.tax_total = m("8");
    c.shipping_total = m("5");
    c.discount_total = m("10");

    c.recalculate_grand_total();
    assert_eq!(d(c.grand_total), dec("103"));
}

#[test]
fn grand_total_floored_at_zero_when_discount_exceeds_subtotal() {
    let mut c = empty_cart();
    c.subtotal = m("10");
    c.tax_total = Money::zero();
    c.shipping_total = Money::zero();
    c.discount_total = m("100");

    c.recalculate_grand_total();
    assert_eq!(d(c.grand_total), Decimal::ZERO);
}

#[test]
fn recalculated_totals_sum_the_item_lines() {
    let c = empty_cart();
    let items = vec![new_item(c.id, 1, 2, "5"), new_item(c.id, 2, 3, "7")];
    assert_eq!(d(CartService::cart_subtotal(&items)), dec("31"));

    let totals = CartService::recalculate_totals(&items, &c, None);
    assert_eq!(d(totals.subtotal), dec("31"));
    assert_eq!(d(totals.grand_total), dec("31"));
}

#[test]
fn cleared_cart_has_zero_totals() {
    let t = CartService::cleared_totals();
    assert_eq!(d(t.subtotal), Decimal::ZERO);
    assert_eq!(d(t.discount_total), Decimal::ZERO);
    assert_eq!(d(t.grand_total), Decimal::ZERO);
}
