//! Tax calculation: single and multiple jurisdictions, compounding,
//! shipping, rounding and fixed-amount rates.

use std::str::FromStr;

use chrono::Utc;
use rust_decimal::Decimal;

use rustcommerce::models::tax::{CreateTaxRateRequest, TaxCalculation, TaxRate, TaxType, UpdateTaxRateRequest};
use rustcommerce::money::Money;
use rustcommerce::services::tax_service::TaxService;
use rustcommerce::time::Timestamp;

fn dec(s: &str) -> Decimal {
    Decimal::from_str(s).unwrap()
}

fn m(s: &str) -> Money {
    let d = dec(s);
    Money::new(d.mantissa(), d.scale())
}

fn d(x: Money) -> Decimal {
    Decimal::from_i128_with_scale(x.mantissa, x.scale)
}

fn now() -> Timestamp {
    let n = Utc::now();
    Timestamp::new(n.timestamp(), n.timestamp_subsec_nanos())
}

fn rate(name: &str, rate_value: &str, priority: i32, is_compound: bool, is_shipping_taxed: bool) -> TaxRate {
    TaxRate {
        id: uuid::Uuid::new_v4().as_u128(),
        name: name.to_string(),
        rate: m(rate_value),
        tax_type: TaxType::Percentage,
        country: "US".to_string(),
        state: None,
        postal_code: None,
        priority,
        is_compound,
        is_shipping_taxed,
        is_active: true,
        created_at: now(),
        updated_at: now(),
    }
}

fn calc(subtotal: &str, shipping: &str, rates: Vec<TaxRate>) -> TaxCalculation {
    TaxService::calculate(m(subtotal), m(shipping), rates)
}

#[test]
fn single_jurisdiction_us_8_percent() {
    let rates = vec![rate("US Sales Tax", "8", 0, false, false)];
    let result = calc("100", "0", rates);

    assert_eq!(d(result.total_tax), dec("8.00"));
    assert_eq!(result.tax_lines.len(), 1);
    assert_eq!(d(result.tax_lines[0].tax_amount), dec("8.00"));
}

#[test]
fn single_jurisdiction_rounds_to_two_decimals() {
    let rates = vec![rate("NY Sales", "8.875", 0, false, false)];
    let result = calc("13.37", "0", rates);

    assert_eq!(d(result.total_tax), dec("1.19"), "Half-even rounding to 2 dp; 1.18656 → 1.19");
}

#[test]
fn multi_jurisdiction_non_compound_state_plus_city() {
    let rates = vec![rate("CA State", "6", 0, false, false), rate("LA City", "2.25", 1, false, false)];
    let result = calc("200", "0", rates);

    assert_eq!(result.tax_lines.len(), 2);
    assert_eq!(d(result.tax_lines[0].tax_amount), dec("12.00"));
    assert_eq!(d(result.tax_lines[1].tax_amount), dec("4.50"));
    assert_eq!(d(result.total_tax), dec("16.50"));
}

#[test]
fn multi_jurisdiction_compound_canadian_gst_plus_pst() {
    let rates = vec![rate("GST", "5", 0, false, false), rate("QST", "9.975", 1, true, false)];
    let result = calc("100", "0", rates);

    assert_eq!(d(result.tax_lines[0].tax_amount), dec("5.00"));
    assert_eq!(d(result.tax_lines[1].tax_amount), dec("10.47"));
    assert_eq!(d(result.total_tax), dec("15.47"));
}

#[test]
fn priority_ordering_affects_compound_base() {
    let rates = vec![rate("Rate A", "10", 1, true, false), rate("Rate B", "10", 0, true, false)];
    let result = calc("100", "0", rates);

    assert_eq!(result.tax_lines[0].name, "Rate B");
    assert_eq!(d(result.tax_lines[0].tax_amount), dec("10.00"));
    assert_eq!(d(result.tax_lines[1].tax_amount), dec("11.00"));
}

#[test]
fn simple_rate_after_compound_rate_taxes_the_compound_base() {
    // The compound rate taxes 100; afterwards the base is 100 + 10.00, which
    // the following non-compound rate taxes.
    let rates = vec![rate("Compound", "10", 0, true, false), rate("Simple", "10", 1, false, false)];
    let result = calc("100", "0", rates);
    assert_eq!(d(result.tax_lines[0].tax_amount), dec("10.00"));
    assert_eq!(d(result.tax_lines[1].taxable_amount), dec("110.00"));
    assert_eq!(d(result.tax_lines[1].tax_amount), dec("11.00"));
    assert_eq!(d(result.total_tax), dec("21.00"));

    // Before any compound rate, a simple rate taxes the subtotal alone.
    let rates = vec![rate("Simple", "10", 0, false, false), rate("Compound", "10", 1, true, false)];
    let result = calc("100", "0", rates);
    assert_eq!(d(result.tax_lines[0].taxable_amount), dec("100"));
    assert_eq!(d(result.tax_lines[1].taxable_amount), dec("110.00"));
    assert_eq!(d(result.total_tax), dec("21.00"));
}

#[test]
fn tax_exempt_no_rates_returns_zero() {
    let result = calc("500", "25", vec![]);
    assert_eq!(d(result.total_tax), Decimal::ZERO);
    assert!(result.tax_lines.is_empty());
    assert_eq!(d(result.subtotal), dec("500"));
    assert_eq!(d(result.shipping_amount), dec("25"));
}

#[test]
fn shipping_taxed_includes_shipping_in_taxable_base() {
    let rates = vec![rate("US Sales", "10", 0, false, true)];
    let result = calc("100", "10", rates);

    assert_eq!(d(result.tax_lines[0].tax_amount), dec("11.00"));
    assert_eq!(d(result.tax_lines[0].taxable_amount), dec("110"));
}

#[test]
fn shipping_not_taxed_excludes_shipping_from_base() {
    let rates = vec![rate("US Sales", "10", 0, false, false)];
    let result = calc("100", "10", rates);

    assert_eq!(d(result.tax_lines[0].tax_amount), dec("10.00"));
    assert_eq!(d(result.tax_lines[0].taxable_amount), dec("100"));
}

#[test]
fn mixed_some_rates_tax_shipping_some_do_not() {
    let rates = vec![
        rate("State (taxes shipping)", "5", 0, false, true),
        rate("City (no shipping)", "2", 1, false, false),
    ];
    let result = calc("100", "20", rates);

    assert_eq!(d(result.tax_lines[0].tax_amount), dec("6.00"));
    assert_eq!(d(result.tax_lines[1].tax_amount), dec("2.00"));
    assert_eq!(d(result.total_tax), dec("8.00"));
}

#[test]
fn rounding_per_tax_line_then_summed_is_consistent() {
    let rates = vec![rate("A", "7.25", 0, false, false), rate("B", "1.5", 1, false, false)];
    let result = calc("9.99", "0", rates);

    assert_eq!(d(result.tax_lines[0].tax_amount), dec("0.72"));
    assert_eq!(d(result.tax_lines[1].tax_amount), dec("0.15"));
    assert_eq!(d(result.total_tax), dec("0.87"));

    let summed: Decimal = result.tax_lines.iter().map(|l| d(l.tax_amount)).sum();
    assert_eq!(summed, d(result.total_tax));
}

#[test]
fn rounding_does_not_compound_drift_across_many_lines() {
    let rates: Vec<_> = (0..10).map(|i| rate(&format!("r{}", i), "0.5", i, false, false)).collect();
    let result = calc("12.34", "0", rates);

    assert_eq!(d(result.total_tax), dec("0.60"));
}

#[test]
fn fixed_tax_type_uses_rate_value_directly() {
    let mut r = rate("Fixed disposal fee", "2.50", 0, false, false);
    r.tax_type = TaxType::Fixed;
    let result = calc("100", "0", vec![r]);
    assert_eq!(d(result.total_tax), dec("2.50"));
}

#[test]
fn zero_rate_produces_zero_tax_line() {
    let rates = vec![rate("Zero-rated", "0", 0, false, false)];
    let result = calc("500", "0", rates);
    assert_eq!(d(result.total_tax), Decimal::ZERO);
    assert_eq!(result.tax_lines.len(), 1);
}

#[test]
fn equal_priorities_keep_their_list_order() {
    let rates = vec![rate("first", "1", 3, false, false), rate("second", "2", 3, false, false)];
    let result = calc("100", "0", rates);
    assert_eq!(result.tax_lines[0].name, "first");
    assert_eq!(result.tax_lines[1].name, "second");
}

#[test]
fn applicable_rates_match_country_state_and_activity() {
    let mut ca = rate("CA", "7.25", 0, false, false);
    ca.state = Some("CA".to_string());
    let mut ny = rate("NY", "4", 0, false, false);
    ny.state = Some("NY".to_string());
    let federal = rate("Federal", "1", 0, false, false);
    let mut inactive = rate("Old", "3", 0, false, false);
    inactive.is_active = false;
    let mut other_country = rate("DE", "19", 0, false, false);
    other_country.country = "DE".to_string();

    let found = TaxService::find_applicable_rates(
        vec![ca, ny, federal, inactive, other_country],
        "US",
        Some("CA"),
    );
    let names: Vec<&str> = found.iter().map(|r| r.name.as_str()).collect();
    assert_eq!(names, vec!["CA", "Federal"]);

    let tax = TaxService::calculate_tax_for_address(m("100"), "US", Some("CA"), vec![rate("Federal", "1", 0, false, true)]);
    assert_eq!(d(tax), dec("1.00"));
}

#[test]
fn rate_defaults_and_validation() {
    let req = CreateTaxRateRequest {
        name: "VAT".to_string(),
        rate: m("20"),
        tax_type: None,
        country: "GB".to_string(),
        state: None,
        postal_code: None,
        priority: None,
        is_compound: false,
        is_shipping_taxed: true,
    };
    let (tax_type, priority) = TaxService::rate_creation_fields(&req).unwrap();
    assert_eq!(tax_type, TaxType::Percentage);
    assert_eq!(priority, 0);

    let bad = CreateTaxRateRequest { country: "GBR".to_string(), ..req };
    assert!(matches!(
        TaxService::rate_creation_fields(&bad),
        Err(rustcommerce::error::RustCommerceError::Validation(_))
    ));

    let mut stored = rate("Old", "5", 2, false, false);
    let update = UpdateTaxRateRequest {
        name: Some("New".to_string()),
        rate: None,
        tax_type: Some(TaxType::Fixed),
        country: None,
        state: Some("TX".to_string()),
        postal_code: None,
        priority: None,
        is_compound: Some(true),
        is_shipping_taxed: None,
        is_active: Some(false),
    };
    TaxService::apply_rate_update(&mut stored, &update);
    assert_eq!(stored.name, "New");
    assert_eq!(d(stored.rate), dec("5"));
    assert_eq!(stored.tax_type, TaxType::Fixed);
    assert_eq!(stored.country, "US");
    assert_eq!(stored.state.as_deref(), Some("TX"));
    assert_eq!(stored.priority, 2);
    assert!(stored.is_compound);
    assert!(!stored.is_active);
}

#[test]
fn checked_calculation_matches_or_refuses() {
    let rates = vec![rate("GST", "5", 0, false, false), rate("QST", "9.975", 1, true, false)];
    let checked = TaxService::checked_calculate(m("100"), m("0"), rates).unwrap();
    assert_eq!(d(checked.total_tax), dec("15.47"));
    assert_eq!(checked.tax_lines.len(), 2);

    // A rate with 27 decimal places cannot be divided by 100 within 28 places.
    let tiny = format!("0.{}1", "0".repeat(26));
    let refused = TaxService::checked_calculate(m("100"), m("0"), vec![rate("Tiny", &tiny, 0, false, false)]);
    assert!(refused.is_none());
}

#[test]
fn checked_sum_refuses_overflow() {
    assert_eq!(d(m("1.5").checked_add(&m("2.25")).unwrap()), dec("3.75"));
    let max = Money::new(79228162514264337593543950335, 0);
    assert!(max.checked_add(&m("1")).is_none());
    assert!(max.checked_add(&m("0")).is_some());
    assert!(m("0.1").is_wf());
}
