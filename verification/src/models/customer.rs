//! Customer profiles and their shipping and billing addresses.

use crate::models::validate::{
    email_is_valid, length_equals, length_within, spec_length_within, validate_email,
};
use crate::money::Money;
use crate::time::Timestamp;
use vstd::prelude::*;
use vstd::string::StringExecFns;

verus! {

/// A registered customer.
#[derive(Debug, Clone)]
pub struct Customer {
    pub id: u128,
    pub user_id: Option<u128>,
    pub email: String,
    pub first_name: String,
    pub last_name: String,
    pub phone: Option<String>,
    pub company: Option<String>,
    pub is_active: bool,
    pub accepts_marketing: bool,
    pub total_orders: i32,
    pub total_spent: Money,
    pub notes: Option<String>,
    pub last_order_at: Option<Timestamp>,
    pub created_at: Timestamp,
    pub updated_at: Timestamp,
}

impl Customer {
    /// The name shown for the customer: first and last name with a space
    /// between.
    pub fn full_name(&self) -> (r: String)
        ensures
            r@ == self.first_name@ + " "@ + self.last_name@,
    {
        let mut name = self.first_name.clone();
        name.append(" ");
        name.append(self.last_name.as_str());
        name
    }
}

/// A saved address of a customer.
#[derive(Debug, Clone)]
pub struct CustomerAddress {
    pub id: u128,
    pub customer_id: u128,
    pub label: Option<String>,
    pub first_name: String,
    pub last_name: String,
    pub company: Option<String>,
    pub address_line1: String,
    pub address_line2: Option<String>,
    pub city: String,
    pub state: Option<String>,
    pub postal_code: String,
    pub country: String,
    pub phone: Option<String>,
    pub is_default_shipping: bool,
    pub is_default_billing: bool,
    pub created_at: Timestamp,
    pub updated_at: Timestamp,
}

/// Request payload for creating a customer.
#[derive(Debug, Clone)]
pub struct CreateCustomerRequest {
    pub user_id: Option<u128>,
    pub email: String,
    pub first_name: String,
    pub last_name: String,
    pub phone: Option<String>,
    pub company: Option<String>,
    pub accepts_marketing: bool,
    pub notes: Option<String>,
}

/// The field rules of a new customer: a valid email and first and last names
/// of 1 to 100 characters.
pub open spec fn create_customer_request_is_valid(r: CreateCustomerRequest) -> bool {
    &&& email_is_valid(r.email@)
    &&& spec_length_within(r.first_name@, 1, 100)
    &&& spec_length_within(r.last_name@, 1, 100)
}

impl CreateCustomerRequest {
    /// Checks the field rules; the error names the first field that breaks them.
    pub fn validate(&self) -> (r: Result<(), String>)
        ensures
            r is Ok <==> create_customer_request_is_valid(*self),
            r matches Err(f) ==> f@ == (if !email_is_valid(self.email@) {
                "email"@
            } else if !spec_length_within(self.first_name@, 1, 100) {
                "first_name"@
            } else {
                "last_name"@
            }),
    {
        if !validate_email(self.email.as_str()) {
            return Err("email".to_owned());
        }
        if !length_within(self.first_name.as_str(), 1, 100) {
            return Err("first_name".to_owned());
        }
        if !length_within(self.last_name.as_str(), 1, 100) {
            return Err("last_name".to_owned());
        }
        Ok(())
    }
}

/// Request payload for updating a customer; absent fields keep their value.
#[derive(Debug, Clone)]
pub struct UpdateCustomerRequest {
    pub email: Option<String>,
    pub first_name: Option<String>,
    pub last_name: Option<String>,
    pub phone: Option<String>,
    pub company: Option<String>,
    pub is_active: Option<bool>,
    pub accepts_marketing: Option<bool>,
    pub notes: Option<String>,
}

/// The field rules of a customer update, on the fields that are given.
pub open spec fn update_customer_request_is_valid(r: UpdateCustomerRequest) -> bool {
    &&& r.email matches Some(e) ==> email_is_valid(e@)
    &&& r.first_name matches Some(n) ==> spec_length_within(n@, 1, 100)
    &&& r.last_name matches Some(n) ==> spec_length_within(n@, 1, 100)
}

impl UpdateCustomerRequest {
    /// Checks the field rules; the error names the first field that breaks them.
    pub fn validate(&self) -> (r: Result<(), String>)
        ensures
            r is Ok <==> update_customer_request_is_valid(*self),
            r matches Err(f) ==> f@ == (if self.email matches Some(e) && !email_is_valid(e@) {
                "email"@
            } else if self.first_name matches Some(n) && !spec_length_within(n@, 1, 100) {
                "first_name"@
            } else {
                "last_name"@
            }),
    {
        if let Some(e) = &self.email {
            if !validate_email(e.as_str()) {
                return Err("email".to_owned());
            }
        }
        if let Some(n) = &self.first_name {
            if !length_within(n.as_str(), 1, 100) {
                return Err("first_name".to_owned());
            }
        }
        if let Some(n) = &self.last_name {
            if !length_within(n.as_str(), 1, 100) {
                return Err("last_name".to_owned());
            }
        }
        Ok(())
    }
}

/// Request payload for creating a customer address.
#[derive(Debug, Clone)]
pub struct CreateAddressRequest {
    pub label: Option<String>,
    pub first_name: String,
    pub last_name: String,
    pub company: Option<String>,
    pub address_line1: String,
    pub address_line2: Option<String>,
    pub city: String,
    pub state: Option<String>,
    pub postal_code: String,
    pub country: String,
    pub phone: Option<String>,
    pub is_default_shipping: bool,
    pub is_default_billing: bool,
}

/// The field rules of a new address: names and city of 1 to 100 characters,
/// a first line of 1 to 255, a postal code of 1 to 20 and a two-letter
/// country code.
pub open spec fn create_address_request_is_valid(r: CreateAddressRequest) -> bool {
    &&& spec_length_within(r.first_name@, 1, 100)
    &&& spec_length_within(r.last_name@, 1, 100)
    &&& spec_length_within(r.address_line1@, 1, 255)
    &&& spec_length_within(r.city@, 1, 100)
    &&& spec_length_within(r.postal_code@, 1, 20)
    &&& r.country@.len() == 2
}

/// The first field of a new address that breaks its rules, in field order.
pub open spec fn address_request_failure(r: CreateAddressRequest) -> Option<Seq<char>> {
    if !spec_length_within(r.first_name@, 1, 100) {
        Some("first_name"@)
    } else if !spec_length_within(r.last_name@, 1, 100) {
        Some("last_name"@)
    } else if !spec_length_within(r.address_line1@, 1, 255) {
        Some("address_line1"@)
    } else if !spec_length_within(r.city@, 1, 100) {
        Some("city"@)
    } else if !spec_length_within(r.postal_code@, 1, 20) {
        Some("postal_code"@)
    } else if r.country@.len() != 2 {
        Some("country"@)
    } else {
        None
    }
}

impl CreateAddressRequest {
    /// Checks the field rules; the error names the first field that breaks them.
    pub fn validate(&self) -> (r: Result<(), String>)
        ensures
            r is Ok <==> create_address_request_is_valid(*self),
            r matches Err(f) ==> Some(f@) == address_request_failure(*self),
    {
        if !length_within(self.first_name.as_str(), 1, 100) {
            return Err("first_name".to_owned());
        }
        if !length_within(self.last_name.as_str(), 1, 100) {
            return Err("last_name".to_owned());
        }
        if !length_within(self.address_line1.as_str(), 1, 255) {
            return Err("address_line1".to_owned());
        }
        if !length_within(self.city.as_str(), 1, 100) {
            return Err("city".to_owned());
        }
        if !length_within(self.postal_code.as_str(), 1, 20) {
            return Err("postal_code".to_owned());
        }
        if !length_equals(self.country.as_str(), 2) {
            return Err("country".to_owned());
        }
        Ok(())
    }
}

/// Query parameters for listing customers.
#[derive(Debug, Clone)]
pub struct CustomerListParams {
    pub page: Option<u32>,
    pub per_page: Option<u32>,
    pub search: Option<String>,
    pub is_active: Option<bool>,
    pub sort_by: Option<String>,
    pub sort_order: Option<String>,
}

} // verus!
