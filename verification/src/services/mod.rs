//! Business rules: tax, shipping, coupons, carts, checkout, inventory,
//! payments and orders.

pub mod cart_service;
pub mod checkout_service;
pub mod coupon_service;
pub mod inventory_service;
pub mod order_service;
pub mod payment_service;
pub mod product_service;
pub mod review_service;
pub mod shipping_service;
pub mod tax_service;
