//! Verified core of an e-commerce backend: money arithmetic, order status
//! workflow, cart totals, coupons, tax, shipping, payments and checkout rules.

pub mod admin;
pub mod config;
pub mod error;
pub mod middleware;
pub mod money;
pub mod time;
pub mod models;
pub mod repositories;
pub mod services;
pub mod webhook;
