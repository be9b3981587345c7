//! Domain entities: products, carts, orders, customers, payments, shipping,
//! tax, coupons and reviews. Identifiers are UUIDs held as `u128`, instants are
//! `Timestamp`s and amounts are `Money`.

pub mod cart;
pub mod category;
pub mod coupon;
pub mod customer;
pub mod order;
pub mod payment;
pub mod product;
pub mod review;
pub mod shipping;
pub mod tax;
pub mod validate;
