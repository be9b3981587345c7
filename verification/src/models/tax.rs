//! Tax rate definitions and calculation results.

use crate::models::validate::{length_equals, length_within, spec_length_within};
use crate::money::{Dec, Money};
use crate::time::Timestamp;
use vstd::prelude::*;

verus! {

/// How tax is applied: a percentage of the taxable amount or a fixed amount.
#[derive(Clone, Copy, Debug, PartialEq, Eq, Structural)]
pub enum TaxType {
    Percentage,
    Fixed,
}

pub open spec fn spec_tax_type_str(t: TaxType) -> Seq<char> {
    match t {
        TaxType::Percentage => "percentage"@,
        TaxType::Fixed => "fixed"@,
    }
}

impl TaxType {
    /// The lower-case name of the tax type (its display text).
    pub fn as_str(&self) -> (r: &'static str)
        ensures
            r@ == spec_tax_type_str(*self),
    {
        match self {
            TaxType::Percentage => "percentage",
            TaxType::Fixed => "fixed",
        }
    }
}

/// A tax rate applicable to a geographic region.
#[derive(Debug)]
pub struct TaxRate {
    pub id: u128,
    pub name: String,
    pub rate: Money,
    pub tax_type: TaxType,
    pub country: String,
    pub state: Option<String>,
    pub postal_code: Option<String>,
    pub priority: i32,
    pub is_compound: bool,
    pub is_shipping_taxed: bool,
    pub is_active: bool,
    pub created_at: Timestamp,
    pub updated_at: Timestamp,
}

/// Request to create a tax rate.
#[derive(Debug)]
pub struct CreateTaxRateRequest {
    pub name: String,
    pub rate: Money,
    pub tax_type: Option<TaxType>,
    pub country: String,
    pub state: Option<String>,
    pub postal_code: Option<String>,
    pub priority: Option<i32>,
    pub is_compound: bool,
    pub is_shipping_taxed: bool,
}

/// Request to update a tax rate; absent fields keep their value.
#[derive(Debug)]
pub struct UpdateTaxRateRequest {
    pub name: Option<String>,
    pub rate: Option<Money>,
    pub tax_type: Option<TaxType>,
    pub country: Option<String>,
    pub state: Option<String>,
    pub postal_code: Option<String>,
    pub priority: Option<i32>,
    pub is_compound: Option<bool>,
    pub is_shipping_taxed: Option<bool>,
    pub is_active: Option<bool>,
}

/// Result of a tax calculation for a given order.
#[derive(Debug)]
pub struct TaxCalculation {
    pub subtotal: Money,
    pub shipping_amount: Money,
    pub tax_lines: Vec<TaxLine>,
    pub total_tax: Money,
}

/// Individual tax line item showing which rate was applied.
#[derive(Debug)]
pub struct TaxLine {
    pub tax_rate_id: u128,
    pub name: String,
    pub rate: Money,
    pub tax_type: TaxType,
    pub taxable_amount: Money,
    pub tax_amount: Money,
}

/// The field rules of a new tax rate: a name of 1 to 255 characters and a
/// two-letter country code.
pub open spec fn create_tax_rate_request_is_valid(r: CreateTaxRateRequest) -> bool {
    spec_length_within(r.name@, 1, 255) && r.country@.len() == 2
}

impl CreateTaxRateRequest {
    /// Checks the field rules; the error names the first field that breaks them.
    pub fn validate(&self) -> (r: Result<(), String>)
        ensures
            r is Ok <==> create_tax_rate_request_is_valid(*self),
            r matches Err(f) ==> f@ == (if !spec_length_within(self.name@, 1, 255) {
                "name"@
            } else {
                "country"@
            }),
    {
        if !length_within(self.name.as_str(), 1, 255) {
            return Err("name".to_owned());
        }
        if !length_equals(self.country.as_str(), 2) {
            return Err("country".to_owned());
        }
        Ok(())
    }
}

} // verus!
