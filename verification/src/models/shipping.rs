//! Shipping zones, methods, rate types and rate requests.

use crate::models::validate::{length_within, spec_length_within};
use crate::money::Money;
use crate::time::Timestamp;
use vstd::prelude::*;

verus! {

/// How shipping cost is calculated.
#[derive(Clone, Copy, Debug, PartialEq, Eq, Structural)]
pub enum ShippingType {
    FlatRate,
    Free,
    WeightBased,
    PriceBased,
    PerItem,
}

pub open spec fn spec_shipping_type_str(t: ShippingType) -> Seq<char> {
    match t {
        ShippingType::FlatRate => "flat_rate"@,
        ShippingType::Free => "free"@,
        ShippingType::WeightBased => "weight_based"@,
        ShippingType::PriceBased => "price_based"@,
        ShippingType::PerItem => "per_item"@,
    }
}

impl ShippingType {
    /// The snake-case name of the shipping type (its display text).
    pub fn as_str(&self) -> (r: &'static str)
        ensures
            r@ == spec_shipping_type_str(*self),
    {
        match self {
            ShippingType::FlatRate => "flat_rate",
            ShippingType::Free => "free",
            ShippingType::WeightBased => "weight_based",
            ShippingType::PriceBased => "price_based",
            ShippingType::PerItem => "per_item",
        }
    }
}

/// A geographic zone for shipping rate determination.
#[derive(Debug)]
pub struct ShippingZone {
    pub id: u128,
    pub name: String,
    pub countries: Vec<String>,
    pub states: Vec<String>,
    pub postal_codes: Vec<String>,
    pub is_active: bool,
    pub sort_order: i32,
    pub created_at: Timestamp,
    pub updated_at: Timestamp,
}

/// A shipping method available within a zone.
#[derive(Debug)]
pub struct ShippingMethod {
    pub id: u128,
    pub zone_id: u128,
    pub name: String,
    pub description: Option<String>,
    pub shipping_type: ShippingType,
    pub price: Money,
    pub min_order_amount: Option<Money>,
    pub max_order_amount: Option<Money>,
    pub min_weight: Option<Money>,
    pub max_weight: Option<Money>,
    pub estimated_days_min: Option<i32>,
    pub estimated_days_max: Option<i32>,
    pub is_active: bool,
    pub sort_order: i32,
    pub created_at: Timestamp,
    pub updated_at: Timestamp,
}

/// A calculated shipping rate returned to the customer.
#[derive(Debug)]
pub struct ShippingRate {
    pub method_id: u128,
    pub method_name: String,
    pub price: Money,
    pub estimated_days_min: Option<i32>,
    pub estimated_days_max: Option<i32>,
    pub description: Option<String>,
}

/// Request to create a shipping zone.
#[derive(Debug)]
pub struct CreateShippingZoneRequest {
    pub name: String,
    pub countries: Vec<String>,
    pub states: Vec<String>,
    pub postal_codes: Vec<String>,
}

/// Request to create a shipping method.
#[derive(Debug)]
pub struct CreateShippingMethodRequest {
    pub zone_id: u128,
    pub name: String,
    pub description: Option<String>,
    pub shipping_type: ShippingType,
    pub price: Money,
    pub min_order_amount: Option<Money>,
    pub max_order_amount: Option<Money>,
    pub min_weight: Option<Money>,
    pub max_weight: Option<Money>,
    pub estimated_days_min: Option<i32>,
    pub estimated_days_max: Option<i32>,
}

/// Parameters for calculating shipping rates.
#[derive(Debug)]
pub struct ShippingRateRequest {
    pub country: String,
    pub state: Option<String>,
    pub postal_code: Option<String>,
    pub order_subtotal: Money,
    pub total_weight: Option<Money>,
    pub item_count: i32,
}

/// The field rule of a new shipping zone: a name of 1 to 255 characters.
pub open spec fn create_zone_request_is_valid(r: CreateShippingZoneRequest) -> bool {
    spec_length_within(r.name@, 1, 255)
}

impl CreateShippingZoneRequest {
    /// Checks the field rule; the error names the field that breaks it.
    pub fn validate(&self) -> (r: Result<(), String>)
        ensures
            r is Ok <==> create_zone_request_is_valid(*self),
            r matches Err(f) ==> f@ == "name"@,
    {
        if !length_within(self.name.as_str(), 1, 255) {
            return Err("name".to_owned());
        }
        Ok(())
    }
}

/// The field rule of a new shipping method: a name of 1 to 255 characters.
pub open spec fn create_method_request_is_valid(r: CreateShippingMethodRequest) -> bool {
    spec_length_within(r.name@, 1, 255)
}

impl CreateShippingMethodRequest {
    /// Checks the field rule; the error names the field that breaks it.
    pub fn validate(&self) -> (r: Result<(), String>)
        ensures
            r is Ok <==> create_method_request_is_valid(*self),
            r matches Err(f) ==> f@ == "name"@,
    {
        if !length_within(self.name.as_str(), 1, 255) {
            return Err("name".to_owned());
        }
        Ok(())
    }
}

} // verus!
