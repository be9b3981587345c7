//! What the storage layer decides before it reads or writes: list windows
//! and orderings, defaults of new records, and how an update merges into the
//! stored record. The queries themselves run outside the library.

pub mod cart_repo;
pub mod category_repo;
pub mod coupon_repo;
pub mod customer_repo;
pub mod order_repo;
pub mod payment_repo;
pub mod product_repo;
pub mod query;
pub mod review_repo;
