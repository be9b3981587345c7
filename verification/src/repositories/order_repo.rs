//! Order list ordering.

use crate::repositories::query::{param_or, text_eq};
use vstd::prelude::*;

verus! {

/// Repository for order database operations.
pub struct OrderRepository;

/// The column an order list is sorted by.
pub open spec fn order_sort_column(sort_by: Seq<char>) -> Seq<char> {
    if sort_by == "order_number"@ || sort_by == "grand_total"@ || sort_by == "created_at"@
        || sort_by == "updated_at"@ {
        sort_by
    } else {
        "created_at"@
    }
}

impl OrderRepository {
    /// The sort column of an order list: `order_number`, `grand_total`,
    /// `created_at` or `updated_at`; anything else sorts by `created_at`.
    pub fn sort_column(sort_by: Option<&str>) -> (r: &'static str)
        ensures
            r@ == order_sort_column(param_or(sort_by, "created_at"@)),
    {
        proof {
            reveal_strlit("order_number");
            reveal_strlit("grand_total");
            reveal_strlit("created_at");
            reveal_strlit("updated_at");
        }
        let s = match sort_by {
            Some(s) => s,
            None => "created_at",
        };
        if text_eq(s, "order_number") {
            "order_number"
        } else if text_eq(s, "grand_total") {
            "grand_total"
        } else if text_eq(s, "updated_at") {
            "updated_at"
        } else {
            "created_at"
        }
    }
}

} // verus!
