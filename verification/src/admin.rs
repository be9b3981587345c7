//! Administration views: the dashboard's summaries and the query parameters
//! of the moderation and coupon lists.

use crate::models::product::Product;
use crate::models::review::{Review, ReviewListParams, ReviewStatus};
use vstd::prelude::*;

verus! {

/// Dashboard summary.
#[derive(Debug)]
pub struct DashboardStats {
    pub total_revenue: String,
    pub order_counts: Vec<OrderStatusCount>,
    pub low_stock_products: Vec<LowStockItem>,
    pub recent_reviews: Vec<Review>,
}

/// How many orders are in one status.
#[derive(Debug, Clone)]
pub struct OrderStatusCount {
    pub status: String,
    pub count: i64,
}

/// A product that runs low on stock, as the dashboard lists it.
#[derive(Debug, Clone)]
pub struct LowStockItem {
    pub id: u128,
    pub name: String,
    pub sku: Option<String>,
    pub stock_quantity: i32,
    pub low_stock_threshold: i32,
}

/// Query parameters of the review moderation list.
#[derive(Debug, Clone, Copy)]
pub struct AdminReviewQuery {
    pub page: Option<u32>,
    pub per_page: Option<u32>,
    pub status: Option<ReviewStatus>,
}

/// Query parameters of the coupon list.
#[derive(Debug, Clone, Copy)]
pub struct CouponListQuery {
    pub active_only: Option<bool>,
}

impl CouponListQuery {
    /// Whether only active coupons are listed (not unless asked).
    pub fn active_only(&self) -> (r: bool)
        ensures
            r == (self.active_only == Some(true)),
    {
        match self.active_only {
            Some(b) => b,
            None => false,
        }
    }
}

/// The dashboard rows of per-status order counts, in the order given.
pub fn order_counts(rows: Vec<(String, i64)>) -> (r: Vec<OrderStatusCount>)
    ensures
        r@.len() == rows@.len(),
        forall|i: int|
            0 <= i < rows@.len() ==> (#[trigger] r@[i]).status == rows@[i].0 && r@[i].count
                == rows@[i].1,
{
    let ghost input = rows@;
    let mut rest = rows;
    let mut out: Vec<OrderStatusCount> = Vec::new();
    let n = rest.len();
    let mut i: usize = 0;
    while i < n
        invariant
            n == input.len(),
            i <= n,
            rest@ == input.skip(i as int),
            out@.len() == i,
            forall|k: int|
                0 <= k < i ==> (#[trigger] out@[k]).status == input[k].0 && out@[k].count
                    == input[k].1,
        decreases n - i,
    {
        let (status, count) = rest.remove(0);
        assert(input.skip(i as int)[0] == input[i as int]);
        assert(input.skip(i + 1) =~= input.skip(i as int).skip(1));
        out.push(OrderStatusCount { status, count });
        i = i + 1;
    }
    out
}

/// The dashboard rows of products low on stock, in the order given.
pub fn low_stock_items(products: Vec<Product>) -> (r: Vec<LowStockItem>)
    ensures
        r@.len() == products@.len(),
        forall|i: int|
            0 <= i < products@.len() ==> {
                let p = products@[i];
                let item = #[trigger] r@[i];
                &&& item.id == p.id
                &&& item.name == p.name
                &&& item.sku == p.sku
                &&& item.stock_quantity == p.stock_quantity
                &&& item.low_stock_threshold == p.low_stock_threshold
            },
{
    let ghost input = products@;
    let mut rest = products;
    let mut out: Vec<LowStockItem> = Vec::new();
    let n = rest.len();
    let mut i: usize = 0;
    while i < n
        invariant
            n == input.len(),
            i <= n,
            rest@ == input.skip(i as int),
            out@.len() == i,
            forall|k: int|
                0 <= k < i ==> {
                    let p = input[k];
                    let item = #[trigger] out@[k];
                    &&& item.id == p.id
                    &&& item.name == p.name
                    &&& item.sku == p.sku
                    &&& item.stock_quantity == p.stock_quantity
                    &&& item.low_stock_threshold == p.low_stock_threshold
                },
        decreases n - i,
    {
        let p = rest.remove(0);
        assert(input.skip(i as int)[0] == input[i as int]);
        assert(input.skip(i + 1) =~= input.skip(i as int).skip(1));
        out.push(
            LowStockItem {
                id: p.id,
                name: p.name,
                sku: p.sku,
                stock_quantity: p.stock_quantity,
                low_stock_threshold: p.low_stock_threshold,
            },
        );
        i = i + 1;
    }
    out
}

/// The sort parameters of admin review lists: newest first.
fn newest_first() -> (r: (Option<String>, Option<String>))
    ensures
        r.0 matches Some(s) && s@ == "created_at"@,
        r.1 matches Some(s) && s@ == "desc"@,
{
    (Some("created_at".to_owned()), Some("desc".to_owned()))
}

/// The dashboard's recent reviews: the first five pending reviews, newest first.
pub fn recent_reviews_params() -> (r: ReviewListParams)
    ensures
        r.page == Some(1u32),
        r.per_page == Some(5u32),
        r.product_id is None,
        r.customer_id is None,
        r.status == Some(ReviewStatus::Pending),
        r.min_rating is None,
        r.max_rating is None,
        r.sort_by matches Some(s) && s@ == "created_at"@,
        r.sort_order matches Some(s) && s@ == "desc"@,
{
    let (sort_by, sort_order) = newest_first();
    ReviewListParams {
        page: Some(1),
        per_page: Some(5),
        product_id: None,
        customer_id: None,
        status: Some(ReviewStatus::Pending),
        min_rating: None,
        max_rating: None,
        sort_by,
        sort_order,
    }
}

impl AdminReviewQuery {
    /// The review list of the moderation view: the query's page and status,
    /// newest first.
    pub fn list_params(&self) -> (r: ReviewListParams)
        ensures
            r.page == self.page,
            r.per_page == self.per_page,
            r.product_id is None,
            r.customer_id is None,
            r.status == self.status,
            r.min_rating is None,
            r.max_rating is None,
            r.sort_by matches Some(s) && s@ == "created_at"@,
            r.sort_order matches Some(s) && s@ == "desc"@,
    {
        let (sort_by, sort_order) = newest_first();
        ReviewListParams {
            page: self.page,
            per_page: self.per_page,
            product_id: None,
            customer_id: None,
            status: self.status,
            min_rating: None,
            max_rating: None,
            sort_by,
            sort_order,
        }
    }
}

} // verus!
