//! The checkout decisions: request checks, stock, totals, minimum order and
//! payment method. Loading the cart and writing the order stay with the caller.

use crate::config::RustCommerceConfig;
use crate::error::RustCommerceError;
use crate::models::cart::{components_exact, spec_sum_components, sum_components, Cart, CartItem};
use crate::models::coupon::{Coupon, DiscountType};
use crate::models::order::{
    checkout_request_failure, checkout_request_is_valid, CheckoutAddress, CheckoutRequest,
};
use crate::models::payment::{spec_payment_method_choice, PaymentMethod};
use crate::models::product::Product;
use crate::models::shipping::{ShippingMethod, ShippingZone};
use crate::models::tax::TaxRate;
use crate::money::{dec_lt, dec_wf, dec_zero, Dec, Money};
use crate::services::inventory_service::{stock_short, InventoryService};
use crate::services::shipping_service::{
    order_rate_request, price_exact, selected_methods, spec_order_shipping, ShippingService,
};
use crate::services::tax_service::{
    opt_str_view, rate_applies, sort_by_priority, tax_before, tax_exact, TaxService,
};
use vstd::prelude::*;

verus! {

/// Service for orchestrating the checkout flow.
pub struct CheckoutService;

/// What an accepted checkout records on the order and its payment.
#[derive(Debug)]
pub struct CheckoutPlan {
    pub subtotal: Money,
    pub tax_total: Money,
    pub shipping_total: Money,
    pub discount_total: Money,
    pub grand_total: Money,
    pub payment_method: PaymentMethod,
}

/// No item among the first `n` asks for more than its product's stock allows.
pub open spec fn stock_ok_before(items: Seq<CartItem>, products: Seq<Product>, n: int) -> bool {
    forall|i: int| 0 <= i < n ==> !stock_short(#[trigger] products[i], items[i].quantity)
}

/// The error for item `i` asking for more than its product's stock.
pub open spec fn stock_error(items: Seq<CartItem>, products: Seq<Product>, i: int) -> RustCommerceError {
    RustCommerceError::InsufficientStock {
        product_id: items[i].product_id,
        requested: items[i].quantity,
        available: products[i].stock_quantity,
    }
}

/// The shipping address's state, as characters.
pub open spec fn address_state(req: CheckoutRequest) -> Option<Seq<char>> {
    match req.shipping_address.state {
        Some(s) => Some(s@),
        None => None,
    }
}

/// The tax rates applied at checkout for the shipping address, in order.
pub open spec fn checkout_rates(req: CheckoutRequest, rates: Seq<TaxRate>) -> Seq<TaxRate> {
    sort_by_priority(
        rates.filter(
            |x: TaxRate|
                rate_applies(
                    x,
                    req.shipping_address.country@,
                    address_state(req),
                ),
        ),
    )
}

/// The checkout tax: the address's rates on the cart subtotal, without shipping.
pub open spec fn checkout_tax(req: CheckoutRequest, cart: Cart, rates: Seq<TaxRate>) -> Dec {
    let rs = checkout_rates(req, rates);
    tax_before(cart.subtotal@, dec_zero(), rs, rs.len())
}

/// The coupon behind an optional reference.
pub open spec fn opt_coupon(coupon: Option<&Coupon>) -> Option<Coupon> {
    match coupon {
        Some(c) => Some(*c),
        None => None,
    }
}

/// The cart's coupon waives shipping: a free-shipping coupon.
pub open spec fn waives_shipping(coupon: Option<Coupon>) -> bool {
    coupon matches Some(c) && c.discount_type == DiscountType::FreeShipping
}

/// The checkout shipping: zero under a free-shipping coupon, otherwise the
/// cheapest method for the country, subtotal and number of cart lines.
pub open spec fn checkout_shipping(
    req: CheckoutRequest,
    cart: Cart,
    items: Seq<CartItem>,
    zones: Seq<ShippingZone>,
    methods: Seq<ShippingMethod>,
    coupon: Option<Coupon>,
) -> Dec {
    if waives_shipping(coupon) {
        dec_zero()
    } else {
        spec_order_shipping(
            zones,
            methods,
            req.shipping_address.country@,
            cart.subtotal,
            items.len() as i32,
        )
    }
}

/// The order's grand total: subtotal plus tax plus shipping minus the cart's
/// discount (not floored at zero).
pub open spec fn checkout_grand_total(
    req: CheckoutRequest,
    cart: Cart,
    items: Seq<CartItem>,
    rates: Seq<TaxRate>,
    zones: Seq<ShippingZone>,
    methods: Seq<ShippingMethod>,
    coupon: Option<Coupon>,
) -> Dec {
    spec_sum_components(
        cart.subtotal@,
        checkout_tax(req, cart, rates),
        checkout_shipping(req, cart, items, zones, methods, coupon),
        cart.discount_total@,
    )
}

impl CheckoutService {
    /// Checks every item against its product's stock (`products[i]` is the
    /// product of `items[i]`); the first item short of stock gives an
    /// `InsufficientStock` error.
    pub fn check_cart_stock(items: &Vec<CartItem>, products: &Vec<Product>) -> (r: Result<
        (),
        RustCommerceError,
    >)
        requires
            items@.len() == products@.len(),
        ensures
            r is Ok <==> stock_ok_before(items@, products@, items@.len() as int),
            r matches Err(e) ==> exists|i: int|
                0 <= i < items@.len() && stock_ok_before(items@, products@, i) && stock_short(
                    products@[i],
                    items@[i].quantity,
                ) && e == stock_error(items@, products@, i),
    {
        let mut i: usize = 0;
        while i < items.len()
            invariant
                items@.len() == products@.len(),
                i <= items@.len(),
                stock_ok_before(items@, products@, i as int),
            decreases items@.len() - i,
        {
            let item = &items[i];
            let product = &products[i];
            if product.track_inventory && !product.allow_backorders {
                if product.stock_quantity < item.quantity {
                    let e = RustCommerceError::InsufficientStock {
                        product_id: item.product_id,
                        requested: item.quantity,
                        available: product.stock_quantity,
                    };
                    assert(stock_short(products@[i as int], items@[i as int].quantity));
                    assert(e == stock_error(items@, products@, i as int));
                    return Err(e);
                }
            }
            assert(!stock_short(products@[i as int], items@[i as int].quantity));
            i = i + 1;
        }
        Ok(())
    }

    /// The grand total of an order (`subtotal + tax + shipping - discount`),
    /// refused with `MinimumOrderNotMet` when below the configured minimum.
    pub fn order_total(
        subtotal: Money,
        tax_total: Money,
        shipping_total: Money,
        discount_total: Money,
        minimum: Option<Money>,
    ) -> (r: Result<Money, RustCommerceError>)
        requires
            components_exact(subtotal@, tax_total@, shipping_total@, discount_total@),
            minimum matches Some(m) ==> m.wf(),
        ensures
            ({
                let g = spec_sum_components(subtotal@, tax_total@, shipping_total@, discount_total@);
                &&& (minimum matches Some(min) && dec_lt(g, min@)) ==> (r matches Err(
                    RustCommerceError::MinimumOrderNotMet { required, current },
                ) && Some(required) == minimum && current@ == g)
                &&& !(minimum matches Some(min) && dec_lt(g, min@)) ==> (r matches Ok(t) && t@
                    == g)
            }),
    {
        let grand_total = sum_components(&subtotal, &tax_total, &shipping_total, &discount_total);
        if let Some(min) = minimum {
            if grand_total.lt(&min) {
                return Err(
                    RustCommerceError::MinimumOrderNotMet { required: min, current: grand_total },
                );
            }
        }
        Ok(grand_total)
    }

    /// The decisions of a checkout over the loaded cart data: the request's
    /// field rules, a non-empty cart, stock for every item, tax for the
    /// shipping address, the cheapest shipping (none under a free-shipping
    /// coupon; `coupon` is the cart's coupon where one is applied), the cart's
    /// discount, the grand total against the minimum order amount, and the
    /// payment method chosen.
    pub fn prepare(
        config: &RustCommerceConfig,
        req: &CheckoutRequest,
        cart: &Cart,
        items: &Vec<CartItem>,
        products: &Vec<Product>,
        tax_rates: Vec<TaxRate>,
        zones: &Vec<ShippingZone>,
        methods: &Vec<ShippingMethod>,
        coupon: Option<&Coupon>,
    ) -> (r: Result<CheckoutPlan, RustCommerceError>)
        requires
            items@.len() == products@.len(),
            cart.subtotal.wf(),
            tax_exact(cart.subtotal@, dec_zero(), checkout_rates(*req, tax_rates@)),
            forall|k: int|
                0 <= k < methods@.len() ==> {
                    &&& (#[trigger] methods@[k]).min_order_amount matches Some(x) ==> x.wf()
                    &&& methods@[k].max_order_amount matches Some(x) ==> x.wf()
                },
            !waives_shipping(opt_coupon(coupon)) ==> forall|m: ShippingMethod|
                selected_methods(zones@, methods@, req.shipping_address.country@, cart.subtotal@).contains(
                    m,
                ) ==> price_exact(m, order_rate_request(cart.subtotal, items@.len() as i32)),
            components_exact(
                cart.subtotal@,
                checkout_tax(*req, *cart, tax_rates@),
                checkout_shipping(*req, *cart, items@, zones@, methods@, opt_coupon(coupon)),
                cart.discount_total@,
            ),
            config.checkout.minimum_order_amount matches Some(m) ==> m.wf(),
        ensures
            !checkout_request_is_valid(*req) ==> (r matches Err(RustCommerceError::Validation(f)) && Some(f@)
                == checkout_request_failure(*req)),
            checkout_request_is_valid(*req) && items@.len() == 0 ==> r matches Err(
                RustCommerceError::EmptyCart,
            ),
            checkout_request_is_valid(*req) && items@.len() > 0 && !stock_ok_before(
                items@,
                products@,
                items@.len() as int,
            ) ==> exists|i: int|
                0 <= i < items@.len() && stock_ok_before(items@, products@, i) && stock_short(
                    products@[i],
                    items@[i].quantity,
                ) && r == Err::<CheckoutPlan, RustCommerceError>(stock_error(items@, products@, i)),
            ({
                let g = checkout_grand_total(
                    *req,
                    *cart,
                    items@,
                    tax_rates@,
                    zones@,
                    methods@,
                    opt_coupon(coupon),
                );
                let reached = checkout_request_is_valid(*req) && items@.len() > 0
                    && stock_ok_before(items@, products@, items@.len() as int);
                let below = config.checkout.minimum_order_amount matches Some(min) && dec_lt(
                    g,
                    min@,
                );
                &&& (reached && below) ==> (r matches Err(
                    RustCommerceError::MinimumOrderNotMet { required, current },
                ) && Some(required) == config.checkout.minimum_order_amount && current@ == g)
                &&& (reached && !below) ==> (r matches Ok(plan) && plan.subtotal == cart.subtotal
                    && plan.tax_total@ == checkout_tax(*req, *cart, tax_rates@)
                    && plan.shipping_total@ == checkout_shipping(
                    *req,
                    *cart,
                    items@,
                    zones@,
                    methods@,
                    opt_coupon(coupon),
                ) && plan.discount_total == cart.discount_total && plan.grand_total@ == g
                    && plan.payment_method == spec_payment_method_choice(
                    match req.payment_method {
                        Some(c) => Some(c@),
                        None => None,
                    },
                ))
            }),
    {
        if let Err(field) = req.validate() {
            return Err(RustCommerceError::Validation(field));
        }
        if items.len() == 0 {
            return Err(RustCommerceError::EmptyCart);
        }
        Self::check_cart_stock(items, products)?;
        let subtotal = cart.subtotal;
        let state = match &req.shipping_address.state {
            Some(s) => Some(s.as_str()),
            None => None,
        };
        proof {
            let ghost ca = req.shipping_address.country@;
            let ghost st = address_state(*req);
            assert(opt_str_view(state) == st);
            assert((|x: TaxRate| rate_applies(x, ca, opt_str_view(state))) =~= (|x: TaxRate|
                rate_applies(x, ca, st)));
        }
        let tax_total = TaxService::calculate_tax_for_address(
            subtotal,
            req.shipping_address.country.as_str(),
            state,
            tax_rates,
        );
        let free_shipping = match coupon {
            Some(c) => c.discount_type == DiscountType::FreeShipping,
            None => false,
        };
        let shipping_total = if free_shipping {
            Money::zero()
        } else {
            let item_count = #[verifier::truncate] (items.len() as i32);
            ShippingService::calculate_for_order(
                zones,
                methods,
                req.shipping_address.country.as_str(),
                state,
                subtotal,
                item_count,
            )
        };
        let discount_total = cart.discount_total;
        let grand_total = Self::order_total(
            subtotal,
            tax_total,
            shipping_total,
            discount_total,
            config.checkout.minimum_order_amount,
        )?;
        let choice = match &req.payment_method {
            Some(c) => Some(c.as_str()),
            None => None,
        };
        let payment_method = PaymentMethod::from_checkout_choice(choice);
        Ok(
            CheckoutPlan {
                subtotal,
                tax_total,
                shipping_total,
                discount_total,
                grand_total,
                payment_method,
            },
        )
    }
}

/// An order line planned from a cart item and its product, with the change
/// it makes to the product's stock.
#[derive(Debug)]
pub struct PlannedOrderLine {
    pub product_id: u128,
    pub variant_id: Option<u128>,
    pub product_name: String,
    pub sku: Option<String>,
    pub quantity: i32,
    pub unit_price: Money,
    pub total_price: Money,
    pub tax_amount: Money,
    pub discount_amount: Money,
    pub stock_change: Option<i32>,
}

/// The line planned for `item` of `product`: the product's name and SKU, the
/// item's quantity and prices, no per-line tax or discount, and a stock
/// deduction of the quantity when the product tracks inventory.
pub open spec fn line_planned(l: PlannedOrderLine, item: CartItem, product: Product) -> bool {
    &&& l.product_id == item.product_id
    &&& l.variant_id == item.variant_id
    &&& l.product_name == product.name
    &&& l.sku == product.sku
    &&& l.quantity == item.quantity
    &&& l.unit_price == item.unit_price
    &&& l.total_price == item.total_price
    &&& l.tax_amount@ == dec_zero()
    &&& l.discount_amount@ == dec_zero()
    &&& l.stock_change == (if product.track_inventory {
        Some((-item.quantity) as i32)
    } else {
        None
    })
}

impl CheckoutService {
    /// The order lines of an accepted checkout, one per cart item in order
    /// (`products[i]` is the product of `items[i]`).
    pub fn plan_order_lines(items: &Vec<CartItem>, products: &Vec<Product>) -> (r: Vec<
        PlannedOrderLine,
    >)
        requires
            items@.len() == products@.len(),
            forall|i: int| 0 <= i < items@.len() ==> (#[trigger] items@[i]).quantity > i32::MIN,
        ensures
            r@.len() == items@.len(),
            forall|i: int|
                0 <= i < items@.len() ==> line_planned(#[trigger] r@[i], items@[i], products@[i]),
    {
        let mut out: Vec<PlannedOrderLine> = Vec::new();
        let mut i: usize = 0;
        while i < items.len()
            invariant
                items@.len() == products@.len(),
                forall|j: int| 0 <= j < items@.len() ==> (#[trigger] items@[j]).quantity > i32::MIN,
                i <= items@.len(),
                out@.len() == i,
                forall|j: int| 0 <= j < i ==> line_planned(#[trigger] out@[j], items@[j], products@[j]),
            decreases items@.len() - i,
        {
            let item = &items[i];
            let product = &products[i];
            let stock_change = if product.track_inventory {
                Some(-item.quantity)
            } else {
                None
            };
            let sku = match &product.sku {
                Some(s) => Some(s.clone()),
                None => None,
            };
            out.push(
                PlannedOrderLine {
                    product_id: item.product_id,
                    variant_id: item.variant_id,
                    product_name: product.name.clone(),
                    sku,
                    quantity: item.quantity,
                    unit_price: item.unit_price,
                    total_price: item.total_price,
                    tax_amount: Money::zero(),
                    discount_amount: Money::zero(),
                    stock_change,
                },
            );
            i = i + 1;
        }
        out
    }

    /// The billing address of an order: the one given, else the shipping address.
    pub fn billing_address(req: &CheckoutRequest) -> (r: &CheckoutAddress)
        ensures
            *r == (match req.billing_address {
                Some(b) => b,
                None => req.shipping_address,
            }),
    {
        match &req.billing_address {
            Some(b) => b,
            None => &req.shipping_address,
        }
    }
}

} // verus!
