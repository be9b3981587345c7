//! Stock availability, low-stock alerts and stock adjustments.

use crate::error::RustCommerceError;
use crate::models::product::Product;
use vstd::prelude::*;

verus! {

/// Service for inventory management.
pub struct InventoryService;

/// A product limits sales to its stock when it tracks inventory and does not
/// allow backorders; then a request above the stock cannot be served.
pub open spec fn stock_short(p: Product, requested: i32) -> bool {
    p.track_inventory && !p.allow_backorders && p.stock_quantity < requested
}

/// The low-stock alert fires for a tracked product whose stock is at or below
/// its threshold (an exhausted stock included).
pub open spec fn spec_is_low_stock(p: Product) -> bool {
    p.track_inventory && p.stock_quantity <= p.low_stock_threshold
}

impl InventoryService {
    /// Whether `requested` units of a product can be sold: an
    /// `InsufficientStock` error naming the product, the request and the stock
    /// when its stock limits sales and is below the request.
    pub fn check_stock(product: &Product, requested: i32) -> (r: Result<(), RustCommerceError>)
        ensures
            !stock_short(*product, requested) ==> r is Ok,
            stock_short(*product, requested) ==> r == Err::<(), RustCommerceError>(
                RustCommerceError::InsufficientStock {
                    product_id: product.id,
                    requested,
                    available: product.stock_quantity,
                },
            ),
    {
        if product.track_inventory && !product.allow_backorders {
            if product.stock_quantity < requested {
                return Err(
                    RustCommerceError::InsufficientStock {
                        product_id: product.id,
                        requested,
                        available: product.stock_quantity,
                    },
                );
            }
        }
        Ok(())
    }

    /// Whether a product (after an adjustment) should raise the low-stock alert.
    pub fn is_low_stock(product: &Product) -> (r: bool)
        ensures
            r == spec_is_low_stock(*product),
    {
        product.track_inventory && product.stock_quantity <= product.low_stock_threshold
    }

    /// The change that brings the stock from `current` to `quantity`.
    pub fn set_stock_change(current: i32, quantity: i32) -> (r: i32)
        requires
            i32::MIN <= quantity - current <= i32::MAX,
        ensures
            r == quantity - current,
    {
        quantity - current
    }

    /// Reserving stock: the availability check, then the change that deducts
    /// the reserved quantity.
    pub fn reserve_change(product: &Product, quantity: i32) -> (r: Result<i32, RustCommerceError>)
        requires
            quantity > i32::MIN,
        ensures
            !stock_short(*product, quantity) ==> (r matches Ok(c) && c == -quantity),
            stock_short(*product, quantity) ==> r == Err::<i32, RustCommerceError>(
                RustCommerceError::InsufficientStock {
                    product_id: product.id,
                    requested: quantity,
                    available: product.stock_quantity,
                },
            ),
    {
        match Self::check_stock(product, quantity) {
            Ok(()) => Ok(-quantity),
            Err(e) => Err(e),
        }
    }

    /// Releasing reserved stock adds the quantity back.
    pub fn release_change(quantity: i32) -> (r: i32)
        ensures
            r == quantity,
    {
        quantity
    }
}

/// A reservation that passes the check leaves a tracked, non-backorder
/// product with non-negative stock.
pub proof fn law_reservation_keeps_stock_non_negative(p: Product, quantity: i32)
    requires
        p.track_inventory,
        !p.allow_backorders,
        !stock_short(p, quantity),
    ensures
        p.stock_quantity - quantity >= 0,
{
}

/// A product that allows backorders, or does not track its inventory, never
/// fails the stock check, whatever is asked for; a tracked product without
/// backorders fails it exactly when the request exceeds its stock; and a
/// request that passes still passes when it asks for less.
pub proof fn law_backorders_never_short(p: Product, q: i32, q2: i32)
    ensures
        (p.allow_backorders || !p.track_inventory) ==> !stock_short(p, q),
        (p.track_inventory && !p.allow_backorders) ==> (stock_short(p, q) <==> p.stock_quantity
            < q),
        q2 <= q && !stock_short(p, q) ==> !stock_short(p, q2),
{
}

} // verus!
