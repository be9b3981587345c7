//! Shopping carts, their items and request payloads.

use crate::models::validate::{length_within, spec_length_within};
use crate::money::{add_exact, dec_add, dec_lt, dec_sub, dec_wf, dec_zero, sub_exact, Dec, Money};
use crate::time::Timestamp;
use vstd::prelude::*;

verus! {

/// A shopping cart belonging to a customer or anonymous session.
#[derive(Debug)]
pub struct Cart {
    pub id: u128,
    pub customer_id: Option<u128>,
    pub session_id: Option<String>,
    pub currency: String,
    pub subtotal: Money,
    pub tax_total: Money,
    pub shipping_total: Money,
    pub discount_total: Money,
    pub grand_total: Money,
    pub coupon_code: Option<String>,
    pub notes: Option<String>,
    pub expires_at: Option<Timestamp>,
    pub created_at: Timestamp,
    pub updated_at: Timestamp,
}

/// An individual item within a cart.
#[derive(Debug)]
pub struct CartItem {
    pub id: u128,
    pub cart_id: u128,
    pub product_id: u128,
    pub variant_id: Option<u128>,
    pub quantity: i32,
    pub unit_price: Money,
    pub total_price: Money,
    pub created_at: Timestamp,
    pub updated_at: Timestamp,
}

/// A cart with all its items loaded (used in API responses).
#[derive(Debug)]
pub struct CartWithItems {
    pub cart: Cart,
    pub items: Vec<CartItemDetail>,
    pub item_count: i32,
}

/// A cart item enriched with product name/image for display.
#[derive(Debug)]
pub struct CartItemDetail {
    pub item: CartItem,
    pub product_name: Option<String>,
    pub product_slug: Option<String>,
    pub product_image_url: Option<String>,
    pub variant_name: Option<String>,
}

/// Request to add an item to the cart.
#[derive(Debug)]
pub struct AddToCartRequest {
    pub product_id: u128,
    pub variant_id: Option<u128>,
    pub quantity: i32,
}

/// Request to update the quantity of a cart item.
#[derive(Debug)]
pub struct UpdateCartItemRequest {
    pub quantity: i32,
}

/// Request to create or get a cart (for anonymous sessions).
#[derive(Debug)]
pub struct CreateCartRequest {
    pub session_id: Option<String>,
    pub customer_id: Option<u128>,
    pub currency: Option<String>,
}

/// Request to apply a coupon to the cart.
#[derive(Debug)]
pub struct ApplyCouponRequest {
    pub code: String,
}

/// `subtotal + tax + shipping - discount`, formed left to right.
pub open spec fn spec_sum_components(subtotal: Dec, tax: Dec, shipping: Dec, discount: Dec) -> Dec {
    dec_sub(dec_add(dec_add(subtotal, tax), shipping), discount)
}

/// The component sum can be formed exactly.
pub open spec fn components_exact(subtotal: Dec, tax: Dec, shipping: Dec, discount: Dec) -> bool {
    &&& dec_wf(subtotal)
    &&& dec_wf(tax)
    &&& dec_wf(shipping)
    &&& dec_wf(discount)
    &&& add_exact(subtotal, tax)
    &&& add_exact(dec_add(subtotal, tax), shipping)
    &&& sub_exact(dec_add(dec_add(subtotal, tax), shipping), discount)
}

/// The grand total of a cart: the component sum, or zero when that is negative.
pub open spec fn spec_cart_grand_total(subtotal: Dec, tax: Dec, shipping: Dec, discount: Dec) -> Dec {
    let g = spec_sum_components(subtotal, tax, shipping, discount);
    if dec_lt(g, dec_zero()) {
        dec_zero()
    } else {
        g
    }
}

/// `subtotal + tax + shipping - discount` as a value.
pub fn sum_components(subtotal: &Money, tax: &Money, shipping: &Money, discount: &Money) -> (r: Money)
    requires
        components_exact(subtotal@, tax@, shipping@, discount@),
    ensures
        r@ == spec_sum_components(subtotal@, tax@, shipping@, discount@),
        r.wf(),
{
    let a = subtotal.add(tax);
    let b = a.add(shipping);
    b.sub(discount)
}

impl Cart {
    /// Recalculates the grand total from the component totals, floored at zero.
    pub fn recalculate_grand_total(&mut self)
        requires
            components_exact(
                old(self).subtotal@,
                old(self).tax_total@,
                old(self).shipping_total@,
                old(self).discount_total@,
            ),
        ensures
            final(self).grand_total@ == spec_cart_grand_total(
                old(self).subtotal@,
                old(self).tax_total@,
                old(self).shipping_total@,
                old(self).discount_total@,
            ),
            final(self).id == old(self).id,
            final(self).customer_id == old(self).customer_id,
            final(self).session_id == old(self).session_id,
            final(self).currency == old(self).currency,
            final(self).subtotal == old(self).subtotal,
            final(self).tax_total == old(self).tax_total,
            final(self).shipping_total == old(self).shipping_total,
            final(self).discount_total == old(self).discount_total,
            final(self).coupon_code == old(self).coupon_code,
            final(self).notes == old(self).notes,
            final(self).expires_at == old(self).expires_at,
            final(self).created_at == old(self).created_at,
            final(self).updated_at == old(self).updated_at,
    {
        let g = sum_components(&self.subtotal, &self.tax_total, &self.shipping_total, &self.discount_total);
        let zero = Money::zero();
        self.grand_total = if g.lt(&zero) {
            zero
        } else {
            g
        };
    }
}

/// The sum of the quantities of the first `n` items.
pub open spec fn quantity_sum(items: Seq<CartItemDetail>, n: int) -> int
    decreases n,
{
    if n <= 0 {
        0
    } else {
        quantity_sum(items, n - 1) + items[n - 1].item.quantity
    }
}

/// Every partial sum of the quantities is an `i32`.
pub open spec fn quantities_fit(items: Seq<CartItemDetail>) -> bool {
    forall|n: int| 0 <= n <= items.len() ==> i32::MIN <= #[trigger] quantity_sum(items, n) <= i32::MAX
}

impl CartWithItems {
    /// A cart with its loaded items; the item count is the sum of the quantities.
    pub fn from_cart_and_items(cart: Cart, items: Vec<CartItemDetail>) -> (r: Self)
        requires
            quantities_fit(items@),
        ensures
            r.cart == cart,
            r.items@ == items@,
            r.item_count == quantity_sum(items@, items@.len() as int),
    {
        let mut count: i32 = 0;
        let mut i: usize = 0;
        while i < items.len()
            invariant
                i <= items@.len(),
                quantities_fit(items@),
                count == quantity_sum(items@, i as int),
            decreases items@.len() - i,
        {
            assert(i32::MIN <= quantity_sum(items@, i + 1) <= i32::MAX);
            count = count + items[i].item.quantity;
            i = i + 1;
        }
        CartWithItems { cart, items, item_count: count }
    }
}

impl AddToCartRequest {
    /// Checks the field rules: a quantity of at least 1.
    pub fn validate(&self) -> (r: Result<(), String>)
        ensures
            r is Ok <==> self.quantity >= 1,
            r matches Err(f) ==> f@ == "quantity"@,
    {
        if self.quantity < 1 {
            return Err("quantity".to_owned());
        }
        Ok(())
    }
}

impl UpdateCartItemRequest {
    /// Checks the field rules: a quantity of at least 1.
    pub fn validate(&self) -> (r: Result<(), String>)
        ensures
            r is Ok <==> self.quantity >= 1,
            r matches Err(f) ==> f@ == "quantity"@,
    {
        if self.quantity < 1 {
            return Err("quantity".to_owned());
        }
        Ok(())
    }
}

impl ApplyCouponRequest {
    /// Checks the field rules: a code of 1 to 100 characters.
    pub fn validate(&self) -> (r: Result<(), String>)
        ensures
            r is Ok <==> spec_length_within(self.code@, 1, 100),
            r matches Err(f) ==> f@ == "code"@,
    {
        if !length_within(self.code.as_str(), 1, 100) {
            return Err("code".to_owned());
        }
        Ok(())
    }
}

} // verus!
