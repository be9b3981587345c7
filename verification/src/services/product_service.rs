//! Product checks made before a product or variant is written: the request's
//! field rules and a non-negative price.

use crate::error::RustCommerceError;
use crate::models::product::{
    create_product_request_is_valid, create_variant_request_is_valid,
    update_product_request_is_valid, CreateProductRequest, CreateVariantRequest,
    UpdateProductRequest,
};
use crate::money::{dec_lt, dec_zero, Money};
use vstd::prelude::*;

verus! {

/// Service for product business logic.
pub struct ProductService;

impl ProductService {
    /// The checks of a new product: the field rules (`Validation` naming the
    /// field), then a price that is not negative (`Validation("Price must be
    /// non-negative")`).
    pub fn check_create(req: &CreateProductRequest) -> (r: Result<(), RustCommerceError>)
        requires
            req.price.wf(),
        ensures
            r is Ok <==> create_product_request_is_valid(*req) && !dec_lt(req.price@, dec_zero()),
            !create_product_request_is_valid(*req) ==> (r matches Err(RustCommerceError::Validation(f))
                && f@ == "name"@),
            create_product_request_is_valid(*req) && dec_lt(req.price@, dec_zero()) ==> (r matches Err(
                RustCommerceError::Validation(m),
            ) && m@ == "Price must be non-negative"@),
    {
        if let Err(field) = req.validate() {
            return Err(RustCommerceError::Validation(field));
        }
        if req.price.lt(&Money::zero()) {
            return Err(RustCommerceError::Validation("Price must be non-negative".to_owned()));
        }
        Ok(())
    }

    /// The checks of a product update: the field rules, then a price, when
    /// given, that is not negative.
    pub fn check_update(req: &UpdateProductRequest) -> (r: Result<(), RustCommerceError>)
        requires
            req.price matches Some(p) ==> p.wf(),
        ensures
            r is Ok <==> update_product_request_is_valid(*req) && !(req.price matches Some(p)
                && dec_lt(p@, dec_zero())),
            !update_product_request_is_valid(*req) ==> (r matches Err(RustCommerceError::Validation(f))
                && f@ == "name"@),
            update_product_request_is_valid(*req) && (req.price matches Some(p) && dec_lt(
                p@,
                dec_zero(),
            )) ==> (r matches Err(RustCommerceError::Validation(m)) && m@
                == "Price must be non-negative"@),
    {
        if let Err(field) = req.validate() {
            return Err(RustCommerceError::Validation(field));
        }
        if let Some(price) = &req.price {
            if price.lt(&Money::zero()) {
                return Err(RustCommerceError::Validation("Price must be non-negative".to_owned()));
            }
        }
        Ok(())
    }

    /// The check of a new variant: its field rules.
    pub fn check_variant(req: &CreateVariantRequest) -> (r: Result<(), RustCommerceError>)
        ensures
            r is Ok <==> create_variant_request_is_valid(*req),
            r matches Err(e) ==> (e matches RustCommerceError::Validation(f) && f@ == "name"@),
    {
        if let Err(field) = req.validate() {
            return Err(RustCommerceError::Validation(field));
        }
        Ok(())
    }
}

} // verus!
