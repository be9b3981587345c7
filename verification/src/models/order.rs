//! Orders, their status workflow, checkout payloads and order numbers.

use crate::error::RustCommerceError;
use crate::models::validate::{email_is_valid, length_equals, length_within, spec_length_within, validate_email};
use crate::money::Money;
use crate::time::{
    format_minute_stamp, four_digit_year, is_ascii_digit, minute_stamp, system_time_hash, utc_now,
    Timestamp,
};
use vstd::prelude::*;

verus! {

/// Order status with a fixed transition workflow.
#[derive(Clone, Copy, Debug, PartialEq, Eq, Structural)]
pub enum OrderStatus {
    Pending,
    Confirmed,
    Processing,
    Shipped,
    Delivered,
    Cancelled,
    Refunded,
    Failed,
}

/// The statuses an order may move to from `s`, in the order they are listed.
pub open spec fn spec_valid_transitions(s: OrderStatus) -> Seq<OrderStatus> {
    match s {
        OrderStatus::Pending => seq![
            OrderStatus::Confirmed,
            OrderStatus::Cancelled,
            OrderStatus::Failed,
        ],
        OrderStatus::Confirmed => seq![OrderStatus::Processing, OrderStatus::Cancelled],
        OrderStatus::Processing => seq![OrderStatus::Shipped, OrderStatus::Cancelled],
        OrderStatus::Shipped => seq![OrderStatus::Delivered, OrderStatus::Cancelled],
        OrderStatus::Delivered => seq![OrderStatus::Refunded],
        OrderStatus::Cancelled => seq![],
        OrderStatus::Refunded => seq![],
        OrderStatus::Failed => seq![OrderStatus::Pending],
    }
}

/// Whether the workflow allows moving from `from` to `to`.
pub open spec fn spec_can_transition(from: OrderStatus, to: OrderStatus) -> bool {
    spec_valid_transitions(from).contains(to)
}

/// The lower-case name of a status.
pub open spec fn spec_order_status_str(s: OrderStatus) -> Seq<char> {
    match s {
        OrderStatus::Pending => "pending"@,
        OrderStatus::Confirmed => "confirmed"@,
        OrderStatus::Processing => "processing"@,
        OrderStatus::Shipped => "shipped"@,
        OrderStatus::Delivered => "delivered"@,
        OrderStatus::Cancelled => "cancelled"@,
        OrderStatus::Refunded => "refunded"@,
        OrderStatus::Failed => "failed"@,
    }
}

impl OrderStatus {
    /// Valid transitions from the current status.
    pub fn valid_transitions(&self) -> (r: Vec<OrderStatus>)
        ensures
            r@ == spec_valid_transitions(*self),
    {
        let mut v: Vec<OrderStatus> = Vec::new();
        match self {
            OrderStatus::Pending => {
                v.push(OrderStatus::Confirmed);
                v.push(OrderStatus::Cancelled);
                v.push(OrderStatus::Failed);
            },
            OrderStatus::Confirmed => {
                v.push(OrderStatus::Processing);
                v.push(OrderStatus::Cancelled);
            },
            OrderStatus::Processing => {
                v.push(OrderStatus::Shipped);
                v.push(OrderStatus::Cancelled);
            },
            OrderStatus::Shipped => {
                v.push(OrderStatus::Delivered);
                v.push(OrderStatus::Cancelled);
            },
            OrderStatus::Delivered => {
                v.push(OrderStatus::Refunded);
            },
            OrderStatus::Cancelled => {},
            OrderStatus::Refunded => {},
            OrderStatus::Failed => {
                v.push(OrderStatus::Pending);
            },
        }
        assert(v@ =~= spec_valid_transitions(*self));
        v
    }

    /// Whether transitioning to `target` is allowed.
    pub fn can_transition_to(&self, target: &OrderStatus) -> (r: bool)
        ensures
            r == spec_can_transition(*self, *target),
    {
        let ts = self.valid_transitions();
        let mut i: usize = 0;
        while i < ts.len()
            invariant
                i <= ts.len(),
                ts@ == spec_valid_transitions(*self),
                forall|j: int| 0 <= j < i ==> ts@[j] != *target,
            decreases ts.len() - i,
        {
            if ts[i] == *target {
                assert(ts@[i as int] == *target);
                return true;
            }
            i = i + 1;
        }
        assert(!ts@.contains(*target));
        false
    }

    /// Moves to `target` when the workflow allows it; otherwise an
    /// `InvalidStatusTransition` naming both statuses.
    pub fn transition_to(&self, target: OrderStatus) -> (r: Result<OrderStatus, RustCommerceError>)
        ensures
            spec_can_transition(*self, target) ==> r == Ok::<OrderStatus, RustCommerceError>(target),
            !spec_can_transition(*self, target) ==> (r matches Err(
                RustCommerceError::InvalidStatusTransition { from, to },
            ) && from@ == spec_order_status_str(*self) && to@ == spec_order_status_str(target)),
    {
        if self.can_transition_to(&target) {
            Ok(target)
        } else {
            Err(
                RustCommerceError::InvalidStatusTransition {
                    from: self.as_str().to_owned(),
                    to: target.as_str().to_owned(),
                },
            )
        }
    }

    /// The lower-case name of the status (its display text).
    pub fn as_str(&self) -> (r: &'static str)
        ensures
            r@ == spec_order_status_str(*self),
    {
        match self {
            OrderStatus::Pending => "pending",
            OrderStatus::Confirmed => "confirmed",
            OrderStatus::Processing => "processing",
            OrderStatus::Shipped => "shipped",
            OrderStatus::Delivered => "delivered",
            OrderStatus::Cancelled => "cancelled",
            OrderStatus::Refunded => "refunded",
            OrderStatus::Failed => "failed",
        }
    }
}

/// No status moves to itself.
pub proof fn law_no_self_transition(s: OrderStatus)
    ensures
        !spec_can_transition(s, s),
{
    let t = spec_valid_transitions(s);
    if t.contains(s) {
        let i = choose|i: int| 0 <= i < t.len() && t[i] == s;
        assert(t[i] == s);
    }
}

/// Cancelled and refunded orders are final: no transition leaves them.
pub proof fn law_terminal_statuses(to: OrderStatus)
    ensures
        !spec_can_transition(OrderStatus::Cancelled, to),
        !spec_can_transition(OrderStatus::Refunded, to),
{
}

/// Every status other than cancelled, refunded and failed can be left only
/// forward: an order never returns to `Pending` except from `Failed`.
pub proof fn law_pending_only_from_failed(from: OrderStatus)
    ensures
        spec_can_transition(from, OrderStatus::Pending) <==> from == OrderStatus::Failed,
{
    let t = spec_valid_transitions(from);
    if from != OrderStatus::Failed && t.contains(OrderStatus::Pending) {
        let i = choose|i: int| 0 <= i < t.len() && t[i] == OrderStatus::Pending;
        assert(t[i] == OrderStatus::Pending);
    }
    if from == OrderStatus::Failed {
        assert(t[0] == OrderStatus::Pending);
    }
}

/// An order placed by a customer.
#[derive(Clone, Debug)]
pub struct Order {
    pub id: u128,
    pub order_number: String,
    pub customer_id: Option<u128>,
    pub customer_email: String,
    pub customer_name: String,
    pub status: OrderStatus,
    pub currency: String,
    pub subtotal: Money,
    pub tax_total: Money,
    pub shipping_total: Money,
    pub discount_total: Money,
    pub grand_total: Money,
    pub shipping_address_line1: Option<String>,
    pub shipping_address_line2: Option<String>,
    pub shipping_city: Option<String>,
    pub shipping_state: Option<String>,
    pub shipping_postal_code: Option<String>,
    pub shipping_country: Option<String>,
    pub billing_address_line1: Option<String>,
    pub billing_address_line2: Option<String>,
    pub billing_city: Option<String>,
    pub billing_state: Option<String>,
    pub billing_postal_code: Option<String>,
    pub billing_country: Option<String>,
    pub shipping_method: Option<String>,
    pub tracking_number: Option<String>,
    pub coupon_code: Option<String>,
    pub notes: Option<String>,
    pub internal_notes: Option<String>,
    pub shipped_at: Option<Timestamp>,
    pub delivered_at: Option<Timestamp>,
    pub cancelled_at: Option<Timestamp>,
    pub created_at: Timestamp,
    pub updated_at: Timestamp,
}

/// A single line item within an order.
#[derive(Clone, Debug)]
pub struct OrderItem {
    pub id: u128,
    pub order_id: u128,
    pub product_id: u128,
    pub variant_id: Option<u128>,
    pub product_name: String,
    pub variant_name: Option<String>,
    pub sku: Option<String>,
    pub quantity: i32,
    pub unit_price: Money,
    pub total_price: Money,
    pub tax_amount: Money,
    pub discount_amount: Money,
    pub created_at: Timestamp,
}

/// An order with its items loaded.
#[derive(Clone, Debug)]
pub struct OrderWithItems {
    pub order: Order,
    pub items: Vec<OrderItem>,
}

/// Request payload for updating order status.
#[derive(Clone, Debug)]
pub struct UpdateOrderStatusRequest {
    pub status: OrderStatus,
    pub tracking_number: Option<String>,
    pub internal_notes: Option<String>,
}

/// Query parameters for listing orders.
#[derive(Clone, Debug)]
pub struct OrderListParams {
    pub page: Option<u32>,
    pub per_page: Option<u32>,
    pub status: Option<OrderStatus>,
    pub customer_id: Option<u128>,
    pub customer_email: Option<String>,
    pub date_from: Option<Timestamp>,
    pub date_to: Option<Timestamp>,
    pub sort_by: Option<String>,
    pub sort_order: Option<String>,
}

/// Address information used at checkout.
#[derive(Clone, Debug)]
pub struct CheckoutAddress {
    pub address_line1: String,
    pub address_line2: Option<String>,
    pub city: String,
    pub state: Option<String>,
    pub postal_code: String,
    pub country: String,
}

/// Checkout request to convert a cart into an order.
#[derive(Clone, Debug)]
pub struct CheckoutRequest {
    pub cart_id: u128,
    pub customer_email: String,
    pub customer_name: String,
    pub customer_id: Option<u128>,
    pub shipping_address: CheckoutAddress,
    pub billing_address: Option<CheckoutAddress>,
    pub shipping_method: Option<String>,
    pub notes: Option<String>,
    pub payment_method: Option<String>,
}

/// The field rules of a checkout address: address line 1 to 255 characters,
/// city 1 to 100, postal code 1 to 20, country exactly 2.
pub open spec fn address_is_valid(a: CheckoutAddress) -> bool {
    &&& spec_length_within(a.address_line1@, 1, 255)
    &&& spec_length_within(a.city@, 1, 100)
    &&& spec_length_within(a.postal_code@, 1, 20)
    &&& a.country@.len() == 2
}

/// The field rules of a checkout request: a valid email, a name of 1 to 255
/// characters, and valid shipping and (when given) billing addresses.
/// The first field of an address that breaks its rules, in the order
/// address line, city, postal code, country.
pub open spec fn address_failure(a: CheckoutAddress) -> Option<Seq<char>> {
    if !spec_length_within(a.address_line1@, 1, 255) {
        Some("address_line1"@)
    } else if !spec_length_within(a.city@, 1, 100) {
        Some("city"@)
    } else if !spec_length_within(a.postal_code@, 1, 20) {
        Some("postal_code"@)
    } else if a.country@.len() != 2 {
        Some("country"@)
    } else {
        None
    }
}

/// The first field of a checkout request that breaks its rules: email, name,
/// then the shipping address and the billing address.
pub open spec fn checkout_request_failure(r: CheckoutRequest) -> Option<Seq<char>> {
    if !email_is_valid(r.customer_email@) {
        Some("customer_email"@)
    } else if !spec_length_within(r.customer_name@, 1, 255) {
        Some("customer_name"@)
    } else if address_failure(r.shipping_address) is Some {
        address_failure(r.shipping_address)
    } else {
        match r.billing_address {
            Some(b) => address_failure(b),
            None => None,
        }
    }
}

pub open spec fn checkout_request_is_valid(r: CheckoutRequest) -> bool {
    &&& email_is_valid(r.customer_email@)
    &&& spec_length_within(r.customer_name@, 1, 255)
    &&& address_is_valid(r.shipping_address)
    &&& (r.billing_address matches Some(b) ==> address_is_valid(b))
}

impl CheckoutAddress {
    /// Checks the field rules; the error names the first field that breaks them.
    pub fn validate(&self) -> (r: Result<(), String>)
        ensures
            r is Ok <==> address_is_valid(*self),
            r matches Err(f) ==> Some(f@) == address_failure(*self),
    {
        if !length_within(self.address_line1.as_str(), 1, 255) {
            return Err("address_line1".to_owned());
        }
        if !length_within(self.city.as_str(), 1, 100) {
            return Err("city".to_owned());
        }
        if !length_within(self.postal_code.as_str(), 1, 20) {
            return Err("postal_code".to_owned());
        }
        if !length_equals(self.country.as_str(), 2) {
            return Err("country".to_owned());
        }
        Ok(())
    }
}

impl CheckoutRequest {
    /// Checks the field rules, nested addresses included; the error names the
    /// first field that breaks them.
    pub fn validate(&self) -> (r: Result<(), String>)
        ensures
            r is Ok <==> checkout_request_is_valid(*self),
            r matches Err(f) ==> Some(f@) == checkout_request_failure(*self),
    {
        if !validate_email(self.customer_email.as_str()) {
            return Err("customer_email".to_owned());
        }
        if !length_within(self.customer_name.as_str(), 1, 255) {
            return Err("customer_name".to_owned());
        }
        if let Err(field) = self.shipping_address.validate() {
            return Err(field);
        }
        match &self.billing_address {
            Some(b) => {
                if let Err(field) = b.validate() {
                    return Err(field);
                }
            },
            None => {},
        }
        Ok(())
    }
}

/// The decimal digit character for `d` in `0..10`.
pub open spec fn digit_char(d: int) -> char {
    (48 + d) as char
}

/// `n` written with four digits, zero-padded (`{:04}` for `n < 10000`).
pub open spec fn four_digits(n: int) -> Seq<char> {
    seq![digit_char(n / 1000), digit_char(n / 100 % 10), digit_char(n / 10 % 10), digit_char(n % 10)]
}

/// The order number built from a minute stamp and a suffix: `RC-<stamp><suffix:04>`.
pub open spec fn order_number_text(stamp: Seq<char>, suffix: int) -> Seq<char> {
    "RC-"@ + stamp + four_digits(suffix)
}

/// The text of one decimal digit.
fn digit_str(d: u32) -> (r: &'static str)
    requires
        d < 10,
    ensures
        r@ == seq![digit_char(d as int)],
{
    proof {
        reveal_strlit("0");
        reveal_strlit("1");
        reveal_strlit("2");
        reveal_strlit("3");
        reveal_strlit("4");
        reveal_strlit("5");
        reveal_strlit("6");
        reveal_strlit("7");
        reveal_strlit("8");
        reveal_strlit("9");
    }
    if d == 0 {
        "0"
    } else if d == 1 {
        "1"
    } else if d == 2 {
        "2"
    } else if d == 3 {
        "3"
    } else if d == 4 {
        "4"
    } else if d == 5 {
        "5"
    } else if d == 6 {
        "6"
    } else if d == 7 {
        "7"
    } else if d == 8 {
        "8"
    } else {
        "9"
    }
}

/// `RC-` followed by the minute stamp and the suffix as four digits.
pub fn format_order_number(stamp: &str, suffix: u32) -> (r: String)
    requires
        suffix < 10000,
    ensures
        r@ == order_number_text(stamp@, suffix as int),
{
    let mut out = "RC-".to_owned();
    out.append(stamp);
    out.append(digit_str(suffix / 1000));
    out.append(digit_str(suffix / 100 % 10));
    out.append(digit_str(suffix / 10 % 10));
    out.append(digit_str(suffix % 10));
    assert(out@ =~= order_number_text(stamp@, suffix as int));
    out
}

/// Simple pseudo-random component for order numbers: a hash of the clock
/// reduced below 10000.
pub fn rand_component() -> (r: u32)
    ensures
        r < 10000,
{
    (system_time_hash() % 10000) as u32
}

/// The order number of an instant with a four-digit year: 19 characters,
/// `RC-` then sixteen ASCII digits (the twelve of the stamp and the four of
/// the suffix).
pub open spec fn order_number_shape(r: Seq<char>) -> bool {
    &&& r.len() == 19
    &&& r.subrange(0, 3) == "RC-"@
    &&& forall|i: int| 3 <= i < 19 ==> is_ascii_digit(#[trigger] r[i])
}

/// A new order number: `RC-`, the current UTC time as `YYYYMMDDHHMM`, and a
/// pseudo-random four-digit suffix.
pub fn generate_order_number() -> (r: String)
    ensures
        exists|now: Timestamp, suffix: int|
            0 <= suffix < 10000 && minute_stamp(now.secs, now.nanos) is Some && r@
                == order_number_text(minute_stamp(now.secs, now.nanos)->0, suffix) && (
            four_digit_year(now.secs) && now.nanos < 1_000_000_000 ==> order_number_shape(r@)),
{
    let now = utc_now();
    let stamp = match format_minute_stamp(now) {
        Some(s) => s,
        None => {
            assert(false);
            String::new()
        },
    };
    let suffix = rand_component();
    let r = format_order_number(stamp.as_str(), suffix);
    proof {
        reveal_strlit("RC-");
        if four_digit_year(now.secs) && now.nanos < 1_000_000_000 {
            let st = minute_stamp(now.secs, now.nanos)->0;
            let f = four_digits(suffix as int);
            assert(r@ =~= "RC-"@ + st + f);
            assert(r@.subrange(0, 3) =~= "RC-"@);
            assert forall|i: int| 3 <= i < 19 implies is_ascii_digit(#[trigger] r@[i]) by {
                if i < 15 {
                    assert(r@[i] == st[i - 3]);
                } else {
                    assert(r@[i] == f[i - 15]);
                }
            }
        }
    }
    assert(0 <= suffix < 10000 && r@ == order_number_text(
        minute_stamp(now.secs, now.nanos)->0,
        suffix as int,
    ) && (four_digit_year(now.secs) && now.nanos < 1_000_000_000 ==> order_number_shape(r@)));
    r
}

/// An order can be cancelled exactly until it is delivered: from pending,
/// confirmed, processing and shipped, and from no other status.
pub proof fn law_cancellable_until_delivered(s: OrderStatus)
    ensures
        spec_can_transition(s, OrderStatus::Cancelled) <==> (s == OrderStatus::Pending || s
            == OrderStatus::Confirmed || s == OrderStatus::Processing || s == OrderStatus::Shipped),
{
    let v = spec_valid_transitions(s);
    match s {
        OrderStatus::Pending => {
            assert(v[1] == OrderStatus::Cancelled);
        },
        OrderStatus::Confirmed => {
            assert(v[1] == OrderStatus::Cancelled);
        },
        OrderStatus::Processing => {
            assert(v[1] == OrderStatus::Cancelled);
        },
        OrderStatus::Shipped => {
            assert(v[1] == OrderStatus::Cancelled);
        },
        OrderStatus::Delivered => {
            assert(v[0] != OrderStatus::Cancelled);
        },
        OrderStatus::Failed => {
            assert(v[0] != OrderStatus::Cancelled);
        },
        _ => {
            assert(v.len() == 0);
        },
    }
}

} // verus!
