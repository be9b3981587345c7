//! Review checks made before a review is stored.

use crate::error::RustCommerceError;
use crate::models::review::{
    create_review_request_is_valid, review_request_failure, CreateReviewRequest,
};
use vstd::prelude::*;

verus! {

/// Service for review business logic.
pub struct ReviewService;

impl ReviewService {
    /// The check of a submitted review: its field rules, else `Validation`
    /// naming the first field that breaks them.
    pub fn check_submit(req: &CreateReviewRequest) -> (r: Result<(), RustCommerceError>)
        ensures
            r is Ok <==> create_review_request_is_valid(*req),
            r matches Err(e) ==> (e matches RustCommerceError::Validation(f) && Some(f@)
                == review_request_failure(*req)),
    {
        if let Err(field) = req.validate() {
            return Err(RustCommerceError::Validation(field));
        }
        Ok(())
    }
}

} // verus!
