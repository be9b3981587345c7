//! Product reviews and ratings with a moderation workflow.

use crate::models::validate::{email_is_valid, length_within, spec_length_within, validate_email};
use crate::time::Timestamp;
use vstd::prelude::*;

verus! {

/// Review moderation status.
#[derive(Clone, Copy, Debug, PartialEq, Eq, Structural)]
pub enum ReviewStatus {
    Pending,
    Approved,
    Rejected,
    Spam,
}

/// The lower-case name of a review status.
pub open spec fn spec_review_status_str(s: ReviewStatus) -> Seq<char> {
    match s {
        ReviewStatus::Pending => "pending"@,
        ReviewStatus::Approved => "approved"@,
        ReviewStatus::Rejected => "rejected"@,
        ReviewStatus::Spam => "spam"@,
    }
}

impl ReviewStatus {
    /// The lower-case name of the status.
    pub fn as_str(&self) -> (r: &'static str)
        ensures
            r@ == spec_review_status_str(*self),
    {
        match self {
            ReviewStatus::Pending => "pending",
            ReviewStatus::Approved => "approved",
            ReviewStatus::Rejected => "rejected",
            ReviewStatus::Spam => "spam",
        }
    }
}

/// A product review submitted by a customer.
#[derive(Debug, Clone)]
pub struct Review {
    pub id: u128,
    pub product_id: u128,
    pub customer_id: Option<u128>,
    pub order_id: Option<u128>,
    pub reviewer_name: String,
    pub reviewer_email: String,
    pub rating: i32,
    pub title: Option<String>,
    pub content: Option<String>,
    pub status: ReviewStatus,
    pub is_verified_purchase: bool,
    pub helpful_count: i32,
    pub admin_response: Option<String>,
    pub admin_responded_at: Option<Timestamp>,
    pub created_at: Timestamp,
    pub updated_at: Timestamp,
}

/// Request to submit a new review.
#[derive(Debug, Clone)]
pub struct CreateReviewRequest {
    pub product_id: u128,
    pub customer_id: Option<u128>,
    pub order_id: Option<u128>,
    pub reviewer_name: String,
    pub reviewer_email: String,
    pub rating: i32,
    pub title: Option<String>,
    pub content: Option<String>,
}

/// The field rules of a review: a name of 1 to 255 characters, a valid email,
/// a rating from 1 to 5 and a title, when given, of at most 255 characters.
pub open spec fn create_review_request_is_valid(r: CreateReviewRequest) -> bool {
    &&& spec_length_within(r.reviewer_name@, 1, 255)
    &&& email_is_valid(r.reviewer_email@)
    &&& 1 <= r.rating <= 5
    &&& r.title matches Some(t) ==> t@.len() <= 255
}

/// The first field of a review that breaks its rules, in field order.
pub open spec fn review_request_failure(r: CreateReviewRequest) -> Option<Seq<char>> {
    if !spec_length_within(r.reviewer_name@, 1, 255) {
        Some("reviewer_name"@)
    } else if !email_is_valid(r.reviewer_email@) {
        Some("reviewer_email"@)
    } else if !(1 <= r.rating <= 5) {
        Some("rating"@)
    } else if r.title matches Some(t) && t@.len() > 255 {
        Some("title"@)
    } else {
        None
    }
}

impl CreateReviewRequest {
    /// Checks the field rules; the error names the first field that breaks them.
    pub fn validate(&self) -> (r: Result<(), String>)
        ensures
            r is Ok <==> create_review_request_is_valid(*self),
            r matches Err(f) ==> Some(f@) == review_request_failure(*self),
    {
        if !length_within(self.reviewer_name.as_str(), 1, 255) {
            return Err("reviewer_name".to_owned());
        }
        if !validate_email(self.reviewer_email.as_str()) {
            return Err("reviewer_email".to_owned());
        }
        if self.rating < 1 || self.rating > 5 {
            return Err("rating".to_owned());
        }
        match &self.title {
            Some(t) => {
                if !length_within(t.as_str(), 0, 255) {
                    return Err("title".to_owned());
                }
            },
            None => {},
        }
        Ok(())
    }
}

/// Request to moderate a review (admin action).
#[derive(Debug, Clone)]
pub struct ModerateReviewRequest {
    pub status: ReviewStatus,
    pub admin_response: Option<String>,
}

/// Query parameters for listing reviews.
#[derive(Debug, Clone)]
pub struct ReviewListParams {
    pub page: Option<u32>,
    pub per_page: Option<u32>,
    pub product_id: Option<u128>,
    pub customer_id: Option<u128>,
    pub status: Option<ReviewStatus>,
    pub min_rating: Option<i32>,
    pub max_rating: Option<i32>,
    pub sort_by: Option<String>,
    pub sort_order: Option<String>,
}

/// How many reviews there are at each star level.
#[derive(Debug, Clone, Copy)]
pub struct RatingDistribution {
    pub one_star: i64,
    pub two_star: i64,
    pub three_star: i64,
    pub four_star: i64,
    pub five_star: i64,
}

} // verus!
