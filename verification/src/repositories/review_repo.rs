//! Review list ordering.

use crate::models::review::{CreateReviewRequest, ModerateReviewRequest, Review};
use crate::repositories::query::{param_or, text_eq};
use crate::time::Timestamp;
use vstd::prelude::*;

verus! {

/// Repository for review database operations.
pub struct ReviewRepository;

/// The column a review list is sorted by.
pub open spec fn review_sort_column(sort_by: Seq<char>) -> Seq<char> {
    if sort_by == "rating"@ || sort_by == "helpful_count"@ || sort_by == "created_at"@ {
        sort_by
    } else {
        "created_at"@
    }
}

impl ReviewRepository {
    /// A new review counts as a verified purchase when it names an order.
    pub fn is_verified_purchase(req: &CreateReviewRequest) -> (r: bool)
        ensures
            r == req.order_id is Some,
    {
        req.order_id.is_some()
    }

    /// Writes a moderation decision on a review at instant `now`: the new
    /// status, and, when the decision carries a response, the response and
    /// `now` as its instant (both stay otherwise).
    pub fn apply_moderation(review: &mut Review, req: &ModerateReviewRequest, now: Timestamp)
        ensures
            (*final(review) == (match req.admin_response {
                Some(text) => Review {
                    status: req.status,
                    admin_response: Some(text),
                    admin_responded_at: Some(now),
                    ..*old(review)
                },
                None => Review { status: req.status, ..*old(review) },
            })),
    {
        review.status = req.status;
        if let Some(text) = &req.admin_response {
            review.admin_response = Some(text.clone());
            review.admin_responded_at = Some(now);
        }
    }

    /// The sort column of a review list: `rating`, `helpful_count` or
    /// `created_at`; anything else sorts by `created_at`.
    pub fn sort_column(sort_by: Option<&str>) -> (r: &'static str)
        ensures
            r@ == review_sort_column(param_or(sort_by, "created_at"@)),
    {
        proof {
            reveal_strlit("rating");
            reveal_strlit("helpful_count");
            reveal_strlit("created_at");
        }
        let s = match sort_by {
            Some(s) => s,
            None => "created_at",
        };
        if text_eq(s, "rating") {
            "rating"
        } else if text_eq(s, "helpful_count") {
            "helpful_count"
        } else {
            "created_at"
        }
    }
}

} // verus!
