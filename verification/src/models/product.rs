//! Products, variants, images, list parameters and paginated responses.

use crate::models::validate::{length_within, spec_length_within};
use crate::money::Money;
use crate::time::Timestamp;
use vstd::prelude::*;

verus! {

/// Product status lifecycle.
#[derive(Clone, Copy, Debug, PartialEq, Eq, Structural)]
pub enum ProductStatus {
    Draft,
    Active,
    Archived,
    OutOfStock,
}

pub open spec fn spec_product_status_str(s: ProductStatus) -> Seq<char> {
    match s {
        ProductStatus::Draft => "draft"@,
        ProductStatus::Active => "active"@,
        ProductStatus::Archived => "archived"@,
        ProductStatus::OutOfStock => "out_of_stock"@,
    }
}

impl ProductStatus {
    /// The snake-case name of the status (its display text).
    pub fn as_str(&self) -> (r: &'static str)
        ensures
            r@ == spec_product_status_str(*self),
    {
        match self {
            ProductStatus::Draft => "draft",
            ProductStatus::Active => "active",
            ProductStatus::Archived => "archived",
            ProductStatus::OutOfStock => "out_of_stock",
        }
    }
}

/// A product in the catalogue.
#[derive(Debug)]
pub struct Product {
    pub id: u128,
    pub name: String,
    pub slug: String,
    pub description: Option<String>,
    pub short_description: Option<String>,
    pub sku: Option<String>,
    pub price: Money,
    pub compare_at_price: Option<Money>,
    pub cost_price: Option<Money>,
    pub status: ProductStatus,
    pub is_featured: bool,
    pub is_digital: bool,
    pub weight: Option<Money>,
    pub width: Option<Money>,
    pub height: Option<Money>,
    pub depth: Option<Money>,
    pub stock_quantity: i32,
    pub low_stock_threshold: i32,
    pub track_inventory: bool,
    pub allow_backorders: bool,
    pub meta_title: Option<String>,
    pub meta_description: Option<String>,
    pub created_at: Timestamp,
    pub updated_at: Timestamp,
}

/// Request payload for creating a new product.
#[derive(Debug)]
pub struct CreateProductRequest {
    pub name: String,
    pub slug: Option<String>,
    pub description: Option<String>,
    pub short_description: Option<String>,
    pub sku: Option<String>,
    pub price: Money,
    pub compare_at_price: Option<Money>,
    pub cost_price: Option<Money>,
    pub status: Option<ProductStatus>,
    pub is_featured: bool,
    pub is_digital: bool,
    pub weight: Option<Money>,
    pub width: Option<Money>,
    pub height: Option<Money>,
    pub depth: Option<Money>,
    pub stock_quantity: i32,
    pub low_stock_threshold: Option<i32>,
    pub track_inventory: Option<bool>,
    pub allow_backorders: bool,
    pub meta_title: Option<String>,
    pub meta_description: Option<String>,
    pub category_ids: Option<Vec<u128>>,
}

/// Request payload for updating an existing product; absent fields keep their value.
#[derive(Debug)]
pub struct UpdateProductRequest {
    pub name: Option<String>,
    pub slug: Option<String>,
    pub description: Option<String>,
    pub short_description: Option<String>,
    pub sku: Option<String>,
    pub price: Option<Money>,
    pub compare_at_price: Option<Money>,
    pub cost_price: Option<Money>,
    pub status: Option<ProductStatus>,
    pub is_featured: Option<bool>,
    pub is_digital: Option<bool>,
    pub weight: Option<Money>,
    pub width: Option<Money>,
    pub height: Option<Money>,
    pub depth: Option<Money>,
    pub stock_quantity: Option<i32>,
    pub low_stock_threshold: Option<i32>,
    pub track_inventory: Option<bool>,
    pub allow_backorders: Option<bool>,
    pub meta_title: Option<String>,
    pub meta_description: Option<String>,
    pub category_ids: Option<Vec<u128>>,
}

/// A specific variant of a product (e.g., size/color combination).
#[derive(Debug)]
pub struct ProductVariant {
    pub id: u128,
    pub product_id: u128,
    pub name: String,
    pub sku: Option<String>,
    pub price: Money,
    pub compare_at_price: Option<Money>,
    pub cost_price: Option<Money>,
    pub stock_quantity: i32,
    pub weight: Option<Money>,
    pub option1_name: Option<String>,
    pub option1_value: Option<String>,
    pub option2_name: Option<String>,
    pub option2_value: Option<String>,
    pub option3_name: Option<String>,
    pub option3_value: Option<String>,
    pub is_active: bool,
    pub sort_order: i32,
    pub created_at: Timestamp,
    pub updated_at: Timestamp,
}

/// Request payload for creating a product variant.
#[derive(Debug)]
pub struct CreateVariantRequest {
    pub name: String,
    pub sku: Option<String>,
    pub price: Money,
    pub compare_at_price: Option<Money>,
    pub cost_price: Option<Money>,
    pub stock_quantity: i32,
    pub weight: Option<Money>,
    pub option1_name: Option<String>,
    pub option1_value: Option<String>,
    pub option2_name: Option<String>,
    pub option2_value: Option<String>,
    pub option3_name: Option<String>,
    pub option3_value: Option<String>,
}

/// An image associated with a product or variant.
#[derive(Debug)]
pub struct ProductImage {
    pub id: u128,
    pub product_id: u128,
    pub variant_id: Option<u128>,
    pub url: String,
    pub alt_text: Option<String>,
    pub sort_order: i32,
    pub is_primary: bool,
    pub created_at: Timestamp,
}

/// Query parameters for listing products.
#[derive(Debug)]
pub struct ProductListParams {
    pub page: Option<u32>,
    pub per_page: Option<u32>,
    pub status: Option<ProductStatus>,
    pub category_id: Option<u128>,
    pub is_featured: Option<bool>,
    pub search: Option<String>,
    pub min_price: Option<Money>,
    pub max_price: Option<Money>,
    pub sort_by: Option<String>,
    pub sort_order: Option<String>,
}

impl Default for ProductListParams {
    /// First page of 20, no filters, newest first.
    fn default() -> (r: Self)
        ensures
            r.page == Some(1u32),
            r.per_page == Some(20u32),
            r.status is None,
            r.category_id is None,
            r.is_featured is None,
            r.search is None,
            r.min_price is None,
            r.max_price is None,
            r.sort_by matches Some(s) && s@ == "created_at"@,
            r.sort_order matches Some(s) && s@ == "desc"@,
    {
        ProductListParams {
            page: Some(1),
            per_page: Some(20),
            status: None,
            category_id: None,
            is_featured: None,
            search: None,
            min_price: None,
            max_price: None,
            sort_by: Some("created_at".to_owned()),
            sort_order: Some("desc".to_owned()),
        }
    }
}

/// Paginated list response wrapper.
#[derive(Debug)]
pub struct PaginatedResponse<T> {
    pub items: Vec<T>,
    pub total: i64,
    pub page: u32,
    pub per_page: u32,
    pub total_pages: u32,
}

impl<T> PaginatedResponse<T> {
    /// Wraps a page of items; the page count is the total (taken as `u32`)
    /// divided by the page size, rounded up, and zero for a page size of zero.
    pub fn new(items: Vec<T>, total: i64, page: u32, per_page: u32) -> (r: Self)
        requires
            per_page > 0 ==> (total as u32) + per_page <= u32::MAX,
        ensures
            r.items == items,
            r.total == total,
            r.page == page,
            r.per_page == per_page,
            r.total_pages == (if per_page > 0 {
                (((total as u32) + per_page - 1) / (per_page as int)) as u32
            } else {
                0u32
            }),
    {
        let total_pages = if per_page > 0 {
            (#[verifier::truncate] (total as u32) + per_page - 1) / per_page
        } else {
            0
        };
        PaginatedResponse { items, total, page, per_page, total_pages }
    }
}

/// The field rules of a new product: a name of 1 to 255 characters.
pub open spec fn create_product_request_is_valid(r: CreateProductRequest) -> bool {
    spec_length_within(r.name@, 1, 255)
}

/// The field rules of a product update: a name, when given, of 1 to 255 characters.
pub open spec fn update_product_request_is_valid(r: UpdateProductRequest) -> bool {
    r.name matches Some(n) ==> spec_length_within(n@, 1, 255)
}

/// The field rules of a new variant: a name of 1 to 255 characters.
pub open spec fn create_variant_request_is_valid(r: CreateVariantRequest) -> bool {
    spec_length_within(r.name@, 1, 255)
}

impl CreateProductRequest {
    /// Checks the field rules; the error names the first field that breaks them.
    pub fn validate(&self) -> (r: Result<(), String>)
        ensures
            r is Ok <==> create_product_request_is_valid(*self),
            r matches Err(f) ==> f@ == "name"@,
    {
        if !length_within(self.name.as_str(), 1, 255) {
            return Err("name".to_owned());
        }
        Ok(())
    }
}

impl UpdateProductRequest {
    /// Checks the field rules; the error names the first field that breaks them.
    pub fn validate(&self) -> (r: Result<(), String>)
        ensures
            r is Ok <==> update_product_request_is_valid(*self),
            r matches Err(f) ==> f@ == "name"@,
    {
        match &self.name {
            Some(n) => {
                if !length_within(n.as_str(), 1, 255) {
                    return Err("name".to_owned());
                }
            },
            None => {},
        }
        Ok(())
    }
}

impl CreateVariantRequest {
    /// Checks the field rules; the error names the first field that breaks them.
    pub fn validate(&self) -> (r: Result<(), String>)
        ensures
            r is Ok <==> create_variant_request_is_valid(*self),
            r matches Err(f) ==> f@ == "name"@,
    {
        if !length_within(self.name.as_str(), 1, 255) {
            return Err("name".to_owned());
        }
        Ok(())
    }
}

} // verus!
