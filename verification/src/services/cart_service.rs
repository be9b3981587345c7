//! Cart rules: adding items, line totals and cart totals.

use crate::error::RustCommerceError;
use crate::models::cart::{
    components_exact, spec_sum_components, sum_components, AddToCartRequest, Cart, CartItem,
    CartItemDetail,
};
use crate::models::coupon::{discount_exact, spec_discount, Coupon};
use crate::models::product::Product;
use crate::money::{
    dec_le, dec_lt, dec_max, dec_mul, dec_sum, dec_wf, dec_zero, lemma_sum_wf, mul_exact,
    sum_exact, Dec, Money,
};
use crate::services::inventory_service::{stock_short, InventoryService};
use vstd::prelude::*;

verus! {

/// Service for cart business logic.
pub struct CartService;

/// The totals stored on a cart.
#[derive(Debug)]
pub struct CartTotals {
    pub subtotal: Money,
    pub tax_total: Money,
    pub shipping_total: Money,
    pub discount_total: Money,
    pub grand_total: Money,
}

/// The line totals of cart items.
pub open spec fn item_prices(items: Seq<CartItem>) -> Seq<Dec> {
    items.map_values(|i: CartItem| i.total_price@)
}

/// The grand total stored with the totals: the component sum, raised to zero
/// when it is not positive (`max(sum, 0)`).
pub open spec fn spec_stored_grand_total(subtotal: Dec, tax: Dec, shipping: Dec, discount: Dec) -> Dec {
    dec_max(spec_sum_components(subtotal, tax, shipping, discount), dec_zero())
}

/// The totals are exactly the given components with the stored grand total.
pub open spec fn totals_are(t: CartTotals, subtotal: Dec, tax: Dec, shipping: Dec, discount: Dec) -> bool {
    &&& t.subtotal@ == subtotal
    &&& t.tax_total@ == tax
    &&& t.shipping_total@ == shipping
    &&& t.discount_total@ == discount
    &&& t.grand_total@ == spec_stored_grand_total(subtotal, tax, shipping, discount)
}

/// The discount a cart gets: that of its coupon, or zero without one.
pub open spec fn cart_discount(coupon: Option<Coupon>, subtotal: Dec) -> Dec {
    match coupon {
        Some(c) => spec_discount(c, subtotal),
        None => dec_zero(),
    }
}

impl CartService {
    /// The total of a cart line: `unit_price * quantity`.
    pub fn line_total(unit_price: Money, quantity: i32) -> (r: Money)
        requires
            unit_price.wf(),
            mul_exact(unit_price@, Dec { m: quantity as int, s: 0 }),
        ensures
            r@ == dec_mul(unit_price@, Dec { m: quantity as int, s: 0 }),
            r.wf(),
    {
        unit_price.mul(&Money::from_i32(quantity))
    }

    /// The checks before adding an item: a quantity of at least 1, and enough
    /// stock; returns the unit price, the product's price.
    pub fn prepare_add_item(req: &AddToCartRequest, product: &Product) -> (r: Result<
        Money,
        RustCommerceError,
    >)
        requires
            product.id == req.product_id,
        ensures
            req.quantity < 1 ==> (r matches Err(RustCommerceError::Validation(f)) && f@
                == "quantity"@),
            req.quantity >= 1 && stock_short(*product, req.quantity) ==> r == Err::<
                Money,
                RustCommerceError,
            >(
                RustCommerceError::InsufficientStock {
                    product_id: req.product_id,
                    requested: req.quantity,
                    available: product.stock_quantity,
                },
            ),
            req.quantity >= 1 && !stock_short(*product, req.quantity) ==> r == Ok::<
                Money,
                RustCommerceError,
            >(product.price),
    {
        if req.quantity < 1 {
            return Err(RustCommerceError::Validation("quantity".to_owned()));
        }
        match InventoryService::check_stock(product, req.quantity) {
            Ok(()) => Ok(product.price),
            Err(e) => Err(e),
        }
    }

    /// The subtotal of a cart: the sum of its line totals.
    pub fn cart_subtotal(items: &Vec<CartItem>) -> (r: Money)
        requires
            sum_exact(item_prices(items@)),
        ensures
            r@ == dec_sum(item_prices(items@)),
            r.wf(),
    {
        let ghost s = item_prices(items@);
        let mut acc = Money::zero();
        let mut i: usize = 0;
        while i < items.len()
            invariant
                i <= items@.len(),
                s == item_prices(items@),
                sum_exact(s),
                acc@ == dec_sum(s.take(i as int)),
                acc.wf(),
            decreases items@.len() - i,
        {
            assert(s[i as int] == items@[i as int].total_price@);
            assert(crate::money::add_exact(dec_sum(s.take(i as int)), s[i as int]));
            assert(dec_wf(s[i as int]));
            acc = acc.add(&items[i].total_price);
            assert(s.take(i + 1).drop_last() =~= s.take(i as int));
            i = i + 1;
        }
        assert(s.take(items@.len() as int) =~= s);
        acc
    }

    /// The totals to store for the given components: the grand total is their
    /// sum, or zero when that is not positive.
    pub fn totals_for(subtotal: Money, tax_total: Money, shipping_total: Money, discount_total: Money) -> (r:
        CartTotals)
        requires
            components_exact(subtotal@, tax_total@, shipping_total@, discount_total@),
        ensures
            totals_are(r, subtotal@, tax_total@, shipping_total@, discount_total@),
    {
        let sum = sum_components(&subtotal, &tax_total, &shipping_total, &discount_total);
        let grand_total = sum.max(&Money::zero());
        CartTotals { subtotal, tax_total, shipping_total, discount_total, grand_total }
    }

    /// The totals after clearing a cart: every component zero.
    pub fn cleared_totals() -> (r: CartTotals)
        ensures
            totals_are(r, dec_zero(), dec_zero(), dec_zero(), dec_zero()),
    {
        Self::totals_for(Money::zero(), Money::zero(), Money::zero(), Money::zero())
    }

    /// Recalculates a cart's totals from its items: the subtotal is the sum of
    /// the line totals, the discount that of the applied coupon (zero without
    /// one), and tax and shipping stay as stored on the cart.
    pub fn recalculate_totals(items: &Vec<CartItem>, cart: &Cart, coupon: Option<&Coupon>) -> (r:
        CartTotals)
        requires
            sum_exact(item_prices(items@)),
            coupon matches Some(c) ==> discount_exact(*c, dec_sum(item_prices(items@))),
            components_exact(
                dec_sum(item_prices(items@)),
                cart.tax_total@,
                cart.shipping_total@,
                cart_discount(
                    match coupon {
                        Some(c) => Some(*c),
                        None => None,
                    },
                    dec_sum(item_prices(items@)),
                ),
            ),
        ensures
            totals_are(
                r,
                dec_sum(item_prices(items@)),
                cart.tax_total@,
                cart.shipping_total@,
                cart_discount(
                    match coupon {
                        Some(c) => Some(*c),
                        None => None,
                    },
                    dec_sum(item_prices(items@)),
                ),
            ),
    {
        let subtotal = Self::cart_subtotal(items);
        let discount = match coupon {
            Some(c) => c.calculate_discount(subtotal),
            None => Money::zero(),
        };
        Self::totals_for(subtotal, cart.tax_total, cart.shipping_total, discount)
    }
}

/// A stored grand total is never negative.
pub proof fn law_grand_total_not_negative(subtotal: Dec, tax: Dec, shipping: Dec, discount: Dec)
    ensures
        dec_le(dec_zero(), spec_stored_grand_total(subtotal, tax, shipping, discount)),
{
}

impl CartService {
    /// A cart item shown with its product's name and slug (none when the
    /// product could not be loaded); image and variant name are not filled.
    pub fn item_detail(item: CartItem, product: Option<&Product>) -> (r: CartItemDetail)
        ensures
            r.item == item,
            r.product_name == (match product {
                Some(p) => Some(p.name),
                None => None,
            }),
            r.product_slug == (match product {
                Some(p) => Some(p.slug),
                None => None,
            }),
            r.product_image_url is None,
            r.variant_name is None,
    {
        let (product_name, product_slug) = match product {
            Some(p) => (Some(p.name.clone()), Some(p.slug.clone())),
            None => (None, None),
        };
        CartItemDetail {
            item,
            product_name,
            product_slug,
            product_image_url: None,
            variant_name: None,
        }
    }
}

/// Recalculated totals with a coupon applied carry exactly that coupon's
/// discount on the items' subtotal (what `Coupon::calculate_discount` gives),
/// and the grand total is the components' sum with that discount, floored at zero.
pub proof fn law_recalculated_discount_is_coupon_discount(
    t: CartTotals,
    items: Seq<CartItem>,
    cart: Cart,
    c: Coupon,
)
    requires
        totals_are(
            t,
            dec_sum(item_prices(items)),
            cart.tax_total@,
            cart.shipping_total@,
            cart_discount(Some(c), dec_sum(item_prices(items))),
        ),
    ensures
        t.discount_total@ == spec_discount(c, dec_sum(item_prices(items))),
        t.subtotal@ == dec_sum(item_prices(items)),
        t.grand_total@ == dec_max(
            spec_sum_components(
                dec_sum(item_prices(items)),
                cart.tax_total@,
                cart.shipping_total@,
                spec_discount(c, dec_sum(item_prices(items))),
            ),
            dec_zero(),
        ),
{
}

} // verus!
