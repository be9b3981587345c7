//! Shipping prices, method filters, zone matching and the cheapest rate.

use std::str::FromStr;

use chrono::Utc;
use rust_decimal::Decimal;

use rustcommerce::models::shipping::{ShippingMethod, ShippingRate, ShippingRateRequest, ShippingType, ShippingZone};
use rustcommerce::money::Money;
use rustcommerce::services::shipping_service::ShippingService;
use rustcommerce::time::Timestamp;

fn dec(s: &str) -> Decimal {
    Decimal::from_str(s).unwrap()
}

fn m(s: &str) -> Money {
    let d = dec(s);
    Money::new(d.mantissa(), d.scale())
}

fn d(x: Money) -> Decimal {
    Decimal::from_i128_with_scale(x.mantissa, x.scale)
}

fn now() -> Timestamp {
    let n = Utc::now();
    Timestamp::new(n.timestamp(), n.timestamp_subsec_nanos())
}

fn price(method: &ShippingMethod, req: &ShippingRateRequest) -> Decimal {
    d(ShippingService::calculate_method_price(method, req))
}

fn make_method(shipping_type: ShippingType, price_val: &str) -> ShippingMethod {
    ShippingMethod {
        id: uuid::Uuid::new_v4().as_u128(),
        zone_id: uuid::Uuid::new_v4().as_u128(),
        name: "Test Method".to_string(),
        description: None,
        shipping_type,
        price: m(price_val),
        min_order_amount: None,
        max_order_amount: None,
        min_weight: None,
        max_weight: None,
        estimated_days_min: None,
        estimated_days_max: None,
        is_active: true,
        sort_order: 0,
        created_at: now(),
        updated_at: now(),
    }
}

fn make_req(country: &str, subtotal: &str, item_count: i32) -> ShippingRateRequest {
    ShippingRateRequest {
        country: country.to_string(),
        state: None,
        postal_code: None,
        order_subtotal: m(subtotal),
        total_weight: None,
        item_count,
    }
}

fn method_matches_order(method: &ShippingMethod, order_subtotal: &str) -> bool {
    ShippingService::method_matches_order(method, &m(order_subtotal))
}

fn zone_matches_country(z: &ShippingZone, country: &str) -> bool {
    ShippingService::zone_matches_country(z, country)
}

fn make_zone(name: &str, countries: Vec<&str>) -> ShippingZone {
    ShippingZone {
        id: uuid::Uuid::new_v4().as_u128(),
        name: name.to_string(),
        countries: countries.into_iter().map(String::from).collect(),
        states: vec![],
        postal_codes: vec![],
        is_active: true,
        sort_order: 0,
        created_at: now(),
        updated_at: now(),
    }
}

fn make_rate(p: &str) -> ShippingRate {
    ShippingRate {
        method_id: uuid::Uuid::new_v4().as_u128(),
        method_name: "r".to_string(),
        price: m(p),
        estimated_days_min: None,
        estimated_days_max: None,
        description: None,
    }
}

#[test]
fn flat_rate_returns_method_price_regardless_of_cart() {
    let m1 = make_method(ShippingType::FlatRate, "7.99");
    let req_small = make_req("US", "10", 1);
    let req_big = make_req("US", "1000", 50);

    assert_eq!(price(&m1, &req_small), dec("7.99"));
    assert_eq!(price(&m1, &req_big), dec("7.99"));
}

#[test]
fn free_shipping_returns_zero_regardless_of_price_field() {
    let m1 = make_method(ShippingType::Free, "99");
    let req = make_req("US", "20", 1);
    assert_eq!(price(&m1, &req), Decimal::ZERO);
}

#[test]
fn per_item_multiplies_price_by_item_count() {
    let m1 = make_method(ShippingType::PerItem, "2.50");
    let req = make_req("US", "0", 4);
    assert_eq!(price(&m1, &req), dec("10.00"));
}

#[test]
fn per_item_zero_items_is_zero() {
    let m1 = make_method(ShippingType::PerItem, "2.50");
    let req = make_req("US", "0", 0);
    assert_eq!(price(&m1, &req), Decimal::ZERO);
}

#[test]
fn weight_based_uses_total_weight() {
    let m1 = make_method(ShippingType::WeightBased, "1.50");
    let mut req = make_req("US", "50", 1);
    req.total_weight = Some(m("3.2"));
    assert_eq!(price(&m1, &req), dec("4.80"));
}

#[test]
fn weight_based_without_weight_falls_back_to_price() {
    let m1 = make_method(ShippingType::WeightBased, "5");
    let req = make_req("US", "50", 1);
    assert_eq!(price(&m1, &req), dec("5"));
}

#[test]
fn price_based_is_percentage_of_subtotal() {
    let m1 = make_method(ShippingType::PriceBased, "10");
    let req = make_req("US", "80", 1);
    assert_eq!(price(&m1, &req), dec("8.00"));
}

#[test]
fn price_based_zero_subtotal_is_zero() {
    let m1 = make_method(ShippingType::PriceBased, "10");
    let req = make_req("US", "0", 1);
    assert_eq!(price(&m1, &req), Decimal::ZERO);
}

#[test]
fn free_shipping_threshold_blocks_small_orders() {
    let mut m1 = make_method(ShippingType::Free, "0");
    m1.min_order_amount = Some(m("50"));

    assert!(!method_matches_order(&m1, "49.99"));
    assert!(method_matches_order(&m1, "50.00"));
    assert!(method_matches_order(&m1, "500.00"));
}

#[test]
fn maximum_order_amount_excludes_large_orders() {
    let mut m1 = make_method(ShippingType::FlatRate, "5");
    m1.max_order_amount = Some(m("1000"));

    assert!(method_matches_order(&m1, "999"));
    assert!(method_matches_order(&m1, "1000"));
    assert!(!method_matches_order(&m1, "1000.01"));
}

#[test]
fn no_min_or_max_always_matches() {
    let m1 = make_method(ShippingType::FlatRate, "5");
    assert!(method_matches_order(&m1, "0.01"));
    assert!(method_matches_order(&m1, "1000000"));
}

#[test]
fn zone_matches_exact_country() {
    let z = make_zone("North America", vec!["US", "CA", "MX"]);
    assert!(zone_matches_country(&z, "US"));
    assert!(zone_matches_country(&z, "CA"));
    assert!(!zone_matches_country(&z, "DE"));
}

#[test]
fn empty_countries_means_global_zone_catch_all() {
    let z = make_zone("Global", vec![]);
    assert!(zone_matches_country(&z, "US"));
    assert!(zone_matches_country(&z, "JP"));
    assert!(zone_matches_country(&z, "ZZ"));
}

#[test]
fn inactive_zone_never_matches() {
    let mut z = make_zone("North America", vec!["US"]);
    z.is_active = false;
    assert!(!zone_matches_country(&z, "US"));
}

#[test]
fn no_matching_zone_yields_no_rates() {
    let candidates: Vec<ShippingRate> = vec![];
    let result = d(ShippingService::cheapest_price(&candidates));
    assert_eq!(result, Decimal::ZERO, "No shipping zone configured means no shipping cost");

    let zones = vec![make_zone("Europe", vec!["DE", "FR"])];
    let methods = vec![make_method(ShippingType::FlatRate, "5")];
    let rates = ShippingService::get_rates(&zones, &methods, &make_req("US", "20", 1));
    assert!(rates.is_empty());
}

#[test]
fn cheapest_rate_wins_when_multiple_methods_apply() {
    let rates = vec![make_rate("9.99"), make_rate("4.99"), make_rate("14.99")];
    let result = d(ShippingService::cheapest_price(&rates));
    assert_eq!(result, dec("4.99"));
}

#[test]
fn rates_follow_zone_then_method_order_and_filters() {
    let z1 = make_zone("North America", vec!["US", "CA"]);
    let z2 = make_zone("Global", vec![]);
    let mut a = make_method(ShippingType::FlatRate, "7");
    a.zone_id = z1.id;
    a.name = "Standard".to_string();
    let mut b = make_method(ShippingType::PerItem, "2");
    b.zone_id = z2.id;
    b.name = "Per item".to_string();
    let mut c = make_method(ShippingType::Free, "0");
    c.zone_id = z1.id;
    c.name = "Free over 100".to_string();
    c.min_order_amount = Some(m("100"));
    let mut inactive = make_method(ShippingType::FlatRate, "1");
    inactive.zone_id = z1.id;
    inactive.is_active = false;

    let zones = vec![z1, z2];
    let methods = vec![a, b, c, inactive];
    let rates = ShippingService::get_rates(&zones, &methods, &make_req("US", "40", 3));
    let names: Vec<&str> = rates.iter().map(|r| r.method_name.as_str()).collect();
    assert_eq!(names, vec!["Standard", "Per item"]);
    assert_eq!(d(rates[1].price), dec("6"));

    let cost = ShippingService::calculate_for_order(&zones, &methods, "US", None, m("40"), 3);
    assert_eq!(d(cost), dec("6"));
    let cost_big = ShippingService::calculate_for_order(&zones, &methods, "US", None, m("150"), 3);
    assert_eq!(d(cost_big), Decimal::ZERO);
}
