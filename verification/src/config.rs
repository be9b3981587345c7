//! Plugin configuration with defaults for every setting.

use crate::money::Money;
use crate::error::RustCommerceError;
use vstd::prelude::*;
use vstd::string::StringExecFns;

verus! {

/// Top-level configuration for the plugin.
#[derive(Debug)]
pub struct RustCommerceConfig {
    pub database_url: String,
    pub max_db_connections: u32,
    pub store: StoreConfig,
    pub stripe: StripeConfig,
    pub inventory: InventoryConfig,
    pub tax: TaxConfig,
    pub shipping: ShippingConfig,
    pub checkout: CheckoutConfig,
    pub reviews: ReviewConfig,
}

/// General store settings.
#[derive(Debug)]
pub struct StoreConfig {
    pub name: String,
    pub currency: String,
    pub prices_include_tax: bool,
    pub products_per_page: u32,
    pub orders_per_page: u32,
}

/// Stripe payment gateway settings.
#[derive(Debug)]
pub struct StripeConfig {
    pub secret_key: String,
    pub publishable_key: String,
    pub webhook_secret: String,
    pub enabled: bool,
}

/// Inventory tracking settings.
#[derive(Debug)]
pub struct InventoryConfig {
    pub track_inventory: bool,
    pub low_stock_threshold: i32,
    pub allow_backorders: bool,
    pub reserve_stock_on_cart: bool,
    pub stock_reserve_minutes: u32,
}

/// Tax calculation settings.
#[derive(Debug)]
pub struct TaxConfig {
    pub enabled: bool,
    pub tax_shipping: bool,
    pub rounding_precision: u32,
}

/// Shipping settings.
#[derive(Debug)]
pub struct ShippingConfig {
    pub enabled: bool,
    pub free_shipping_threshold: Option<Money>,
    pub default_country: String,
}

/// Checkout workflow settings.
#[derive(Debug)]
pub struct CheckoutConfig {
    pub allow_guest_checkout: bool,
    pub require_phone: bool,
    pub require_shipping_address: bool,
    pub minimum_order_amount: Option<Money>,
    pub cart_expiry_minutes: Option<u32>,
}

/// Review/rating settings.
#[derive(Debug)]
pub struct ReviewConfig {
    pub enabled: bool,
    pub require_approval: bool,
    pub verified_purchases_only: bool,
    pub min_rating: u8,
    pub max_rating: u8,
}

/// Default size of the database connection pool.
pub fn default_max_connections() -> (r: u32)
    ensures
        r == 10,
{
    10
}

/// Default store name.
pub fn default_store_name() -> (r: String)
    ensures
        r@ == "RustCommerce Store"@,
{
    "RustCommerce Store".to_owned()
}

/// Default currency code (ISO 4217).
pub fn default_currency() -> (r: String)
    ensures
        r@ == "USD"@,
{
    "USD".to_owned()
}

/// Default number of entries per listing page.
pub fn default_page_size() -> (r: u32)
    ensures
        r == 20,
{
    20
}

/// The default for switches that are on unless configured.
pub fn default_true() -> (r: bool)
    ensures
        r,
{
    true
}

/// Default low-stock alert threshold.
pub fn default_low_stock_threshold() -> (r: i32)
    ensures
        r == 5,
{
    5
}

/// Default minutes reserved stock is held.
pub fn default_stock_reserve_minutes() -> (r: u32)
    ensures
        r == 30,
{
    30
}

/// Default tax rounding precision (decimal places).
pub fn default_tax_precision() -> (r: u32)
    ensures
        r == 2,
{
    2
}

/// Default shipping country code.
pub fn default_country() -> (r: String)
    ensures
        r@ == "US"@,
{
    "US".to_owned()
}

/// Default cart expiry: 24 hours.
pub fn default_cart_expiry() -> (r: Option<u32>)
    ensures
        r == Some(1440u32),
{
    Some(1440)
}

/// Default lowest rating.
pub fn default_min_rating() -> (r: u8)
    ensures
        r == 1,
{
    1
}

/// Default highest rating.
pub fn default_max_rating() -> (r: u8)
    ensures
        r == 5,
{
    5
}

impl Default for StoreConfig {
    fn default() -> (r: Self)
        ensures
            r.name@ == "RustCommerce Store"@,
            r.currency@ == "USD"@,
            !r.prices_include_tax,
            r.products_per_page == 20,
            r.orders_per_page == 20,
    {
        StoreConfig {
            name: default_store_name(),
            currency: default_currency(),
            prices_include_tax: false,
            products_per_page: default_page_size(),
            orders_per_page: default_page_size(),
        }
    }
}

impl Default for StripeConfig {
    fn default() -> (r: Self)
        ensures
            r.secret_key@ == Seq::<char>::empty(),
            r.publishable_key@ == Seq::<char>::empty(),
            r.webhook_secret@ == Seq::<char>::empty(),
            !r.enabled,
    {
        StripeConfig {
            secret_key: String::new(),
            publishable_key: String::new(),
            webhook_secret: String::new(),
            enabled: false,
        }
    }
}

impl Default for InventoryConfig {
    fn default() -> (r: Self)
        ensures
            r.track_inventory,
            r.low_stock_threshold == 5,
            !r.allow_backorders,
            !r.reserve_stock_on_cart,
            r.stock_reserve_minutes == 30,
    {
        InventoryConfig {
            track_inventory: true,
            low_stock_threshold: default_low_stock_threshold(),
            allow_backorders: false,
            reserve_stock_on_cart: false,
            stock_reserve_minutes: default_stock_reserve_minutes(),
        }
    }
}

impl Default for TaxConfig {
    fn default() -> (r: Self)
        ensures
            r.enabled,
            !r.tax_shipping,
            r.rounding_precision == 2,
    {
        TaxConfig { enabled: true, tax_shipping: false, rounding_precision: default_tax_precision() }
    }
}

impl Default for ShippingConfig {
    fn default() -> (r: Self)
        ensures
            r.enabled,
            r.free_shipping_threshold is None,
            r.default_country@ == "US"@,
    {
        ShippingConfig {
            enabled: true,
            free_shipping_threshold: None,
            default_country: default_country(),
        }
    }
}

impl Default for CheckoutConfig {
    fn default() -> (r: Self)
        ensures
            r.allow_guest_checkout,
            !r.require_phone,
            r.require_shipping_address,
            r.minimum_order_amount is None,
            r.cart_expiry_minutes == Some(1440u32),
    {
        CheckoutConfig {
            allow_guest_checkout: true,
            require_phone: false,
            require_shipping_address: true,
            minimum_order_amount: None,
            cart_expiry_minutes: default_cart_expiry(),
        }
    }
}

impl Default for ReviewConfig {
    fn default() -> (r: Self)
        ensures
            r.enabled,
            r.require_approval,
            !r.verified_purchases_only,
            r.min_rating == 1,
            r.max_rating == 5,
    {
        ReviewConfig {
            enabled: true,
            require_approval: true,
            verified_purchases_only: false,
            min_rating: default_min_rating(),
            max_rating: default_max_rating(),
        }
    }
}

/// The messages `validate` reports, in order.
pub open spec fn config_errors(c: RustCommerceConfig) -> Seq<Seq<char>> {
    let e1: Seq<Seq<char>> = if c.database_url@.len() == 0 {
        seq!["database_url is required"@]
    } else {
        seq![]
    };
    let e2: Seq<Seq<char>> = if c.stripe.enabled && c.stripe.secret_key@.len() == 0 {
        seq!["stripe.secret_key is required when Stripe is enabled"@]
    } else {
        seq![]
    };
    let e3: Seq<Seq<char>> = if c.stripe.enabled && c.stripe.webhook_secret@.len() == 0 {
        seq!["stripe.webhook_secret is required when Stripe is enabled"@]
    } else {
        seq![]
    };
    let e4: Seq<Seq<char>> = if c.max_db_connections == 0 {
        seq!["max_db_connections must be greater than 0"@]
    } else {
        seq![]
    };
    e1 + e2 + e3 + e4
}

impl RustCommerceConfig {
    /// A configuration with defaults everywhere; only the database URL is given.
    pub fn new(database_url: String) -> (r: Self)
        ensures
            r.database_url == database_url,
            r.max_db_connections == 10,
            r.store.name@ == "RustCommerce Store"@,
            r.store.currency@ == "USD"@,
            !r.store.prices_include_tax,
            r.store.products_per_page == 20,
            r.store.orders_per_page == 20,
            r.stripe.secret_key@.len() == 0,
            r.stripe.publishable_key@.len() == 0,
            r.stripe.webhook_secret@.len() == 0,
            !r.stripe.enabled,
            r.inventory.track_inventory,
            r.inventory.low_stock_threshold == 5,
            !r.inventory.allow_backorders,
            !r.inventory.reserve_stock_on_cart,
            r.inventory.stock_reserve_minutes == 30,
            r.tax.enabled,
            !r.tax.tax_shipping,
            r.tax.rounding_precision == 2,
            r.shipping.enabled,
            r.shipping.free_shipping_threshold is None,
            r.shipping.default_country@ == "US"@,
            r.checkout.allow_guest_checkout,
            !r.checkout.require_phone,
            r.checkout.require_shipping_address,
            r.checkout.minimum_order_amount is None,
            r.checkout.cart_expiry_minutes == Some(1440u32),
            r.reviews.enabled,
            r.reviews.require_approval,
            !r.reviews.verified_purchases_only,
            r.reviews.min_rating == 1,
            r.reviews.max_rating == 5,
    {
        RustCommerceConfig {
            database_url,
            max_db_connections: default_max_connections(),
            store: StoreConfig::default(),
            stripe: StripeConfig::default(),
            inventory: InventoryConfig::default(),
            tax: TaxConfig::default(),
            shipping: ShippingConfig::default(),
            checkout: CheckoutConfig::default(),
            reviews: ReviewConfig::default(),
        }
    }

    /// Validates the configuration: `Ok` when nothing is wrong, otherwise every
    /// problem found, in order.
    pub fn validate(&self) -> (r: Result<(), Vec<String>>)
        ensures
            config_errors(*self).len() == 0 ==> r is Ok,
            config_errors(*self).len() > 0 ==> (r matches Err(errs) && errs@.map_values(
                |e: String| e@,
            ) == config_errors(*self)),
    {
        let mut errors: Vec<String> = Vec::new();
        let ghost c = *self;
        if self.database_url.as_str().is_empty() {
            errors.push("database_url is required".to_owned());
        }
        let ghost after1 = errors@;
        if self.stripe.enabled {
            if self.stripe.secret_key.as_str().is_empty() {
                errors.push("stripe.secret_key is required when Stripe is enabled".to_owned());
            }
        }
        let ghost after2 = errors@;
        if self.stripe.enabled {
            if self.stripe.webhook_secret.as_str().is_empty() {
                errors.push("stripe.webhook_secret is required when Stripe is enabled".to_owned());
            }
        }
        let ghost after3 = errors@;
        if self.max_db_connections == 0 {
            errors.push("max_db_connections must be greater than 0".to_owned());
        }
        assert(errors@.map_values(|e: String| e@) =~= config_errors(c));
        if errors.len() == 0 {
            Ok(())
        } else {
            Err(errors)
        }
    }
}

/// The texts joined with `", "` between them.
pub open spec fn join_comma(s: Seq<Seq<char>>) -> Seq<char>
    decreases s.len(),
{
    if s.len() == 0 {
        seq![]
    } else if s.len() == 1 {
        s[0]
    } else {
        join_comma(s.drop_last()) + ", "@ + s.last()
    }
}

/// The message of a configuration that fails validation: every problem,
/// joined by commas.
pub fn validation_failure(errors: &Vec<String>) -> (r: RustCommerceError)
    ensures
        r matches RustCommerceError::Configuration(m) && m@ == "Configuration validation failed: "@
            + join_comma(errors@.map_values(|e: String| e@)),
{
    let ghost views = errors@.map_values(|e: String| e@);
    let mut joined = String::new();
    let mut i: usize = 0;
    while i < errors.len()
        invariant
            i <= errors@.len(),
            views == errors@.map_values(|e: String| e@),
            joined@ == join_comma(views.take(i as int)),
        decreases errors@.len() - i,
    {
        if i > 0 {
            joined.append(", ");
        }
        joined.append(errors[i].as_str());
        proof {
            let t = views.take(i + 1);
            assert(t.drop_last() =~= views.take(i as int));
            assert(t.last() == errors@[i as int]@);
            if i == 0 {
                assert(views.take(0) =~= Seq::<Seq<char>>::empty());
                assert(joined@ =~= t[0]);
            }
        }
        i = i + 1;
    }
    assert(views.take(errors@.len() as int) =~= views);
    let mut msg = "Configuration validation failed: ".to_owned();
    msg.append(joined.as_str());
    RustCommerceError::Configuration(msg)
}

} // verus!
