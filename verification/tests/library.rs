//! Tests of the library's other rules: identity and tokens, webhooks, order
//! status updates, storage defaults and merges, categories, customers,
//! reviews, administration views, payments, inventory, money and errors.

use std::str::FromStr;

use chrono::Utc;
use rust_decimal::Decimal;

use rustcommerce::admin::{low_stock_items, order_counts, recent_reviews_params, AdminReviewQuery, CouponListQuery};
use rustcommerce::config::{validation_failure, RustCommerceConfig};
use rustcommerce::error::RustCommerceError;
use rustcommerce::middleware::{base64_decode, bearer_token, require_admin, AuthUser, RateLimitConfig, RateLimits};
use rustcommerce::models::category::{Category, CategoryTree, CreateCategoryRequest, UpdateCategoryRequest};
use rustcommerce::models::customer::{CreateAddressRequest, Customer, CustomerAddress, UpdateCustomerRequest};
use rustcommerce::models::order::{Order, OrderStatus, UpdateOrderStatusRequest};
use rustcommerce::models::payment::{Payment, PaymentMethod, PaymentStatus};
use rustcommerce::models::product::{CreateProductRequest, Product, ProductStatus, UpdateProductRequest};
use rustcommerce::models::review::{CreateReviewRequest, ModerateReviewRequest, Review, ReviewStatus};
use rustcommerce::money::Money;
use rustcommerce::repositories::cart_repo::CartRepository;
use rustcommerce::repositories::coupon_repo::CouponRepository;
use rustcommerce::repositories::payment_repo::PaymentRepository;
use rustcommerce::repositories::category_repo::CategoryRepository;
use rustcommerce::repositories::customer_repo::CustomerRepository;
use rustcommerce::repositories::order_repo::OrderRepository;
use rustcommerce::repositories::product_repo::ProductRepository;
use rustcommerce::repositories::query::{eq_ignore_ascii_case, list_window, sort_direction, SortDirection};
use rustcommerce::repositories::review_repo::ReviewRepository;
use rustcommerce::models::cart::CartItem;
use rustcommerce::models::order::{CheckoutAddress, CheckoutRequest};
use rustcommerce::services::cart_service::CartService;
use rustcommerce::services::checkout_service::CheckoutService;
use rustcommerce::services::inventory_service::InventoryService;
use rustcommerce::services::order_service::{OrderService, StatusStamp};
use rustcommerce::services::payment_service::PaymentService;
use rustcommerce::services::product_service::ProductService;
use rustcommerce::services::review_service::ReviewService;
use rustcommerce::time::Timestamp;
use rustcommerce::webhook::{check_webhook_request, webhook_action, webhook_payload, WebhookAction, WebhookEvent};

fn dec(s: &str) -> Decimal {
    Decimal::from_str(s).unwrap()
}

fn m(s: &str) -> Money {
    let d = dec(s);
    Money::new(d.mantissa(), d.scale())
}

fn d(x: Money) -> Decimal {
    Decimal::from_i128_with_scale(x.mantissa, x.scale)
}

fn now() -> Timestamp {
    let n = Utc::now();
    Timestamp::new(n.timestamp(), n.timestamp_subsec_nanos())
}

// ── identity and tokens ─────────────────────────────────────────────────

fn user(roles: &[&str]) -> AuthUser {
    AuthUser { user_id: 1, email: "a@b.co".into(), roles: roles.iter().map(|r| r.to_string()).collect() }
}

#[test]
fn roles_decide_admin_and_manager() {
    assert!(user(&["admin"]).is_admin());
    assert!(user(&["super_admin"]).is_admin());
    assert!(!user(&["store_manager"]).is_admin());
    assert!(user(&["store_manager"]).is_manager());
    assert!(user(&["admin"]).is_manager());
    assert!(!user(&["customer"]).is_manager());
    assert!(user(&["customer", "editor"]).has_role("editor"));
    assert!(!user(&[]).has_role("admin"));
    assert!(require_admin(&user(&["admin"])).is_ok());
    assert!(matches!(require_admin(&user(&["customer"])), Err(RustCommerceError::Forbidden(m)) if m == "Admin access required"));
}

#[test]
fn bearer_header_gives_its_token() {
    assert_eq!(bearer_token("Bearer abc.def"), Some("abc.def"));
    assert_eq!(bearer_token("Bearer "), Some(""));
    assert_eq!(bearer_token("Basic abc"), None);
    assert_eq!(bearer_token("bearer abc"), None);
    assert_eq!(bearer_token("Bear"), None);
}

#[test]
fn base64_decodes_standard_alphabet() {
    assert_eq!(base64_decode("aGVsbG8=").unwrap(), b"hello".to_vec());
    assert_eq!(base64_decode("aGVsbG8").unwrap(), b"hello".to_vec());
    assert_eq!(base64_decode("TWFu").unwrap(), b"Man".to_vec());
    assert_eq!(base64_decode("").unwrap(), Vec::<u8>::new());
    assert_eq!(base64_decode("+/+/").unwrap(), vec![0xfb, 0xff, 0xbf]);
    assert_eq!(base64_decode("a b"), Err("Invalid base64 character"));
    assert_eq!(base64_decode("ab=c"), Err("Invalid base64 character"));
}

#[test]
fn base64_length_is_six_eighths_of_the_characters() {
    for n in 0..12 {
        let text: String = std::iter::repeat('Q').take(n).collect();
        assert_eq!(base64_decode(&text).unwrap().len(), 6 * n / 8);
    }
}

fn encode_base64(bytes: &[u8]) -> String {
    const ALPHABET: &[u8] = b"ABCDEFGHIJKLMNOPQRSTUVWXYZabcdefghijklmnopqrstuvwxyz0123456789+/";
    let mut out = String::new();
    for chunk in bytes.chunks(3) {
        let b = [chunk[0], *chunk.get(1).unwrap_or(&0), *chunk.get(2).unwrap_or(&0)];
        let n = ((b[0] as u32) << 16) | ((b[1] as u32) << 8) | b[2] as u32;
        for k in 0..4 {
            if k <= chunk.len() {
                out.push(ALPHABET[((n >> (18 - 6 * k)) & 63) as usize] as char);
            } else {
                out.push('=');
            }
        }
    }
    out
}

#[test]
fn base64_decoding_undoes_encoding() {
    assert_eq!(encode_base64(b"hello"), "aGVsbG8=");
    for len in 0..40usize {
        let bytes: Vec<u8> = (0..len).map(|i| (i * 97 + len * 31) as u8).collect();
        assert_eq!(base64_decode(&encode_base64(&bytes)).unwrap(), bytes);
    }
    let all: Vec<u8> = (0..=255u8).collect();
    assert_eq!(base64_decode(&encode_base64(&all)).unwrap(), all);
}

#[test]
fn rate_limits_per_endpoint_group() {
    let dflt = RateLimitConfig::default();
    assert_eq!((dflt.max_requests, dflt.window_seconds), (100, 60));
    assert_eq!(RateLimits::standard().max_requests, 100);
    assert_eq!(RateLimits::checkout().max_requests, 10);
    assert_eq!(RateLimits::webhook().max_requests, 500);
    assert_eq!(RateLimits::admin().max_requests, 200);
    assert_eq!(RateLimits::admin().window_seconds, 60);
}

// ── webhooks ────────────────────────────────────────────────────────────

#[test]
fn webhook_requests_need_signature_and_secret() {
    assert!(matches!(
        check_webhook_request(None, "whsec"),
        Err(RustCommerceError::Unauthorized(m)) if m == "Missing Stripe signature header"
    ));
    assert!(matches!(
        check_webhook_request(Some("t=1,v1=ab"), ""),
        Err(RustCommerceError::Configuration(m)) if m == "Stripe webhook secret not configured"
    ));
    assert!(check_webhook_request(Some("t=1,v1=ab"), "whsec").is_ok());
}

#[test]
fn webhook_body_must_be_utf8() {
    assert_eq!(webhook_payload("{\"id\":\"évt\"}".as_bytes()).unwrap(), "{\"id\":\"évt\"}");
    assert!(matches!(
        webhook_payload(&[0x7b, 0xff, 0x7d]),
        Err(RustCommerceError::InvalidInput(m)) if m == "Invalid webhook payload encoding"
    ));
}

#[test]
fn webhook_events_confirm_fail_or_acknowledge() {
    let a = webhook_action(WebhookEvent::PaymentIntentSucceeded { intent_id: "pi_1".into() });
    assert!(matches!(&a, WebhookAction::ConfirmPayment { intent_id } if intent_id == "pi_1"));
    let u = a.order_update().unwrap();
    assert_eq!(u.status, OrderStatus::Confirmed);
    assert_eq!(u.internal_notes.as_deref(), Some("Payment confirmed via Stripe webhook"));

    let f = webhook_action(WebhookEvent::PaymentIntentPaymentFailed {
        intent_id: "pi_2".into(),
        last_error: Some(Some("card declined".into())),
    });
    assert!(matches!(&f, WebhookAction::FailPayment { intent_id, last_error: Some(Some(m)) }
        if intent_id == "pi_2" && m == "card declined"));
    let silent = webhook_action(WebhookEvent::PaymentIntentPaymentFailed {
        intent_id: "pi_3".into(),
        last_error: Some(None),
    });
    assert!(matches!(&silent, WebhookAction::FailPayment { last_error: Some(None), .. }));
    let u = f.order_update().unwrap();
    assert_eq!(u.status, OrderStatus::Failed);
    assert_eq!(u.internal_notes.as_deref(), Some("Payment failed via Stripe webhook"));

    assert!(webhook_action(WebhookEvent::ChargeRefunded).order_update().is_none());
    assert!(webhook_action(WebhookEvent::Unhandled).order_update().is_none());
}

// ── order status updates ────────────────────────────────────────────────

fn order(status: OrderStatus) -> Order {
    Order {
        id: 9,
        order_number: "RC-2024010112001234".into(),
        customer_id: None,
        customer_email: "a@b.co".into(),
        customer_name: "A B".into(),
        status,
        currency: "USD".into(),
        subtotal: m("10"),
        tax_total: m("0"),
        shipping_total: m("0"),
        discount_total: m("0"),
        grand_total: m("10"),
        shipping_address_line1: None,
        shipping_address_line2: None,
        shipping_city: None,
        shipping_state: None,
        shipping_postal_code: None,
        shipping_country: None,
        billing_address_line1: None,
        billing_address_line2: None,
        billing_city: None,
        billing_state: None,
        billing_postal_code: None,
        billing_country: None,
        shipping_method: None,
        tracking_number: Some("OLD".into()),
        coupon_code: None,
        notes: None,
        internal_notes: None,
        shipped_at: None,
        delivered_at: None,
        cancelled_at: None,
        created_at: now(),
        updated_at: now(),
    }
}

#[test]
fn shipping_an_order_stamps_and_records_tracking() {
    let req = UpdateOrderStatusRequest { status: OrderStatus::Shipped, tracking_number: Some("1Z".into()), internal_notes: None };
    let update = OrderService::plan_status_update(OrderStatus::Processing, &req).unwrap();
    assert_eq!(update.stamp, StatusStamp::ShippedAt);
    let mut o = order(OrderStatus::Processing);
    let at = Timestamp::new(1_700_000_000, 5);
    OrderService::apply_status_update(&mut o, update, at);
    assert_eq!(o.status, OrderStatus::Shipped);
    assert_eq!(o.tracking_number.as_deref(), Some("1Z"));
    assert_eq!(o.shipped_at, Some(at));
    assert_eq!(o.delivered_at, None);
    let before = order(OrderStatus::Processing);
    assert_eq!(d(o.subtotal), d(before.subtotal));
    assert_eq!(d(o.grand_total), d(before.grand_total));
    assert_eq!(o.customer_email, before.customer_email);
    assert_eq!(o.order_number, before.order_number);
}

#[test]
fn delivering_ignores_tracking_and_keeps_the_old_one() {
    let req = UpdateOrderStatusRequest { status: OrderStatus::Delivered, tracking_number: Some("NEW".into()), internal_notes: Some("left at door".into()) };
    let update = OrderService::plan_status_update(OrderStatus::Shipped, &req).unwrap();
    assert!(update.tracking_number.is_none());
    let mut o = order(OrderStatus::Shipped);
    OrderService::apply_status_update(&mut o, update, Timestamp::new(10, 0));
    assert_eq!(o.tracking_number.as_deref(), Some("OLD"));
    assert_eq!(o.internal_notes.as_deref(), Some("left at door"));
    assert_eq!(o.delivered_at, Some(Timestamp::new(10, 0)));
}

#[test]
fn invalid_status_update_is_refused() {
    let req = UpdateOrderStatusRequest { status: OrderStatus::Shipped, tracking_number: None, internal_notes: None };
    assert!(matches!(
        OrderService::plan_status_update(OrderStatus::Cancelled, &req),
        Err(RustCommerceError::InvalidStatusTransition { from, to }) if from == "cancelled" && to == "shipped"
    ));
}

// ── storage defaults, orderings and merges ──────────────────────────────

#[test]
fn list_window_clamps_page_and_size() {
    let w = list_window(None, None);
    assert_eq!((w.page, w.per_page, w.limit, w.offset), (1, 20, 20, 0));
    let w = list_window(Some(0), Some(500));
    assert_eq!((w.page, w.per_page, w.limit, w.offset), (1, 100, 100, 0));
    let w = list_window(Some(3), Some(25));
    assert_eq!((w.limit, w.offset), (25, 50));
}

#[test]
fn sort_parameters_fall_back_to_defaults() {
    assert_eq!(sort_direction(Some("ASC")), SortDirection::Asc);
    assert_eq!(sort_direction(Some("aSc")), SortDirection::Asc);
    assert_eq!(sort_direction(Some("ascending")), SortDirection::Desc);
    assert_eq!(sort_direction(None), SortDirection::Desc);
    assert!(eq_ignore_ascii_case("Created_At", "created_at"));
    assert!(!eq_ignore_ascii_case("É", "é"));
    assert_eq!(ProductRepository::sort_column(Some("price")), "price");
    assert_eq!(ProductRepository::sort_column(Some("price; DROP TABLE")), "created_at");
    assert_eq!(ProductRepository::sort_column(None), "created_at");
    assert_eq!(OrderRepository::sort_column(Some("grand_total")), "grand_total");
    assert_eq!(OrderRepository::sort_column(Some("name")), "created_at");
    assert_eq!(CustomerRepository::sort_column(Some("total_spent")), "total_spent");
    assert_eq!(ReviewRepository::sort_column(Some("helpful_count")), "helpful_count");
    assert_eq!(ReviewRepository::sort_column(Some("price")), "created_at");
}

fn product() -> Product {
    Product {
        id: 3,
        name: "Lamp".into(),
        slug: "lamp".into(),
        description: Some("A lamp".into()),
        short_description: None,
        sku: Some("L-1".into()),
        price: m("30"),
        compare_at_price: None,
        cost_price: None,
        status: ProductStatus::Active,
        is_featured: false,
        is_digital: false,
        weight: None,
        width: None,
        height: None,
        depth: None,
        stock_quantity: 4,
        low_stock_threshold: 5,
        track_inventory: true,
        allow_backorders: false,
        meta_title: None,
        meta_description: None,
        created_at: now(),
        updated_at: now(),
    }
}

fn create_product(name: &str, slug: Option<&str>, price: &str) -> CreateProductRequest {
    CreateProductRequest {
        name: name.into(),
        slug: slug.map(|s| s.to_string()),
        description: None,
        short_description: None,
        sku: None,
        price: m(price),
        compare_at_price: None,
        cost_price: None,
        status: None,
        is_featured: false,
        is_digital: false,
        weight: None,
        width: None,
        height: None,
        depth: None,
        stock_quantity: 0,
        low_stock_threshold: None,
        track_inventory: None,
        allow_backorders: false,
        meta_title: None,
        meta_description: None,
        category_ids: None,
    }
}

#[test]
fn new_product_defaults_and_slug() {
    let f = ProductRepository::creation_fields(&create_product("My Test String!!!1!1", None, "5"));
    assert_eq!(f.slug, "my-test-string-1-1");
    assert_eq!(f.status, ProductStatus::Draft);
    assert_eq!(f.low_stock_threshold, 5);
    assert!(f.track_inventory);
    let f = ProductRepository::creation_fields(&create_product("Lamp", Some("custom"), "5"));
    assert_eq!(f.slug, "custom");
}

#[test]
fn product_checks_refuse_negative_prices_and_bad_names() {
    assert!(ProductService::check_create(&create_product("Lamp", None, "5")).is_ok());
    assert!(matches!(
        ProductService::check_create(&create_product("Lamp", None, "-0.01")),
        Err(RustCommerceError::Validation(m)) if m == "Price must be non-negative"
    ));
    assert!(matches!(ProductService::check_create(&create_product("", None, "5")), Err(RustCommerceError::Validation(_))));
}

#[test]
fn product_update_merges_given_fields_only() {
    let mut p = product();
    let req = UpdateProductRequest {
        name: Some("Desk Lamp".into()),
        slug: None,
        description: None,
        short_description: Some("Bright".into()),
        sku: None,
        price: Some(m("35")),
        compare_at_price: None,
        cost_price: None,
        status: None,
        is_featured: Some(true),
        is_digital: None,
        weight: None,
        width: None,
        height: None,
        depth: None,
        stock_quantity: None,
        low_stock_threshold: Some(2),
        track_inventory: None,
        allow_backorders: None,
        meta_title: None,
        meta_description: None,
        category_ids: None,
    };
    assert!(ProductService::check_update(&req).is_ok());
    ProductRepository::apply_update(&mut p, &req);
    assert_eq!(p.name, "Desk Lamp");
    assert_eq!(p.slug, "lamp");
    assert_eq!(p.description.as_deref(), Some("A lamp"));
    assert_eq!(p.short_description.as_deref(), Some("Bright"));
    assert_eq!(d(p.price), dec("35"));
    assert!(p.is_featured);
    assert_eq!(p.low_stock_threshold, 2);
    assert_eq!(p.stock_quantity, 4);
}

#[test]
fn currencies_default_to_usd() {
    assert_eq!(CartRepository::cart_currency(None), "USD");
    assert_eq!(CartRepository::cart_currency(Some("EUR")), "EUR");
}

// ── categories ──────────────────────────────────────────────────────────

fn category(id: u128, parent: Option<u128>, name: &str) -> Category {
    Category {
        id,
        name: name.into(),
        slug: name.to_lowercase(),
        description: None,
        parent_id: parent,
        image_url: None,
        sort_order: 0,
        is_active: true,
        meta_title: None,
        meta_description: None,
        created_at: now(),
        updated_at: now(),
    }
}

fn names(trees: &[CategoryTree]) -> Vec<String> {
    trees.iter().map(|t| t.category.name.clone()).collect()
}

#[test]
fn category_tree_nests_children_under_parents() {
    let cats = vec![
        category(1, None, "Home"),
        category(2, Some(1), "Kitchen"),
        category(3, None, "Garden"),
        category(4, Some(2), "Knives"),
        category(5, Some(1), "Bath"),
    ];
    let forest = CategoryTree::build_tree(cats);
    assert_eq!(names(&forest), vec!["Home", "Garden"]);
    assert_eq!(names(&forest[0].children), vec!["Kitchen", "Bath"]);
    assert_eq!(names(&forest[0].children[0].children), vec!["Knives"]);
    assert!(forest[1].children.is_empty());
}

#[test]
fn category_defaults_and_update() {
    let req = CreateCategoryRequest {
        name: "Home & Garden".into(),
        slug: None,
        description: None,
        parent_id: None,
        image_url: None,
        sort_order: None,
        meta_title: None,
        meta_description: None,
    };
    assert!(req.validate().is_ok());
    let (slug, order) = CategoryRepository::creation_fields(&req);
    assert_eq!(slug, "home-garden");
    assert_eq!(order, 0);

    let mut c = category(1, None, "Home");
    let upd = UpdateCategoryRequest {
        name: None,
        slug: None,
        description: Some("Everything".into()),
        parent_id: Some(8),
        image_url: None,
        sort_order: Some(3),
        is_active: None,
        meta_title: None,
        meta_description: None,
    };
    CategoryRepository::apply_update(&mut c, &upd);
    assert_eq!(c.name, "Home");
    assert_eq!(c.parent_id, Some(8));
    assert_eq!(c.sort_order, 3);
    assert_eq!(c.description.as_deref(), Some("Everything"));
}

// ── customers and reviews ───────────────────────────────────────────────

fn customer() -> Customer {
    Customer {
        id: 2,
        user_id: None,
        email: "ann@example.com".into(),
        first_name: "Ann".into(),
        last_name: "Lee".into(),
        phone: None,
        company: None,
        is_active: true,
        accepts_marketing: false,
        total_orders: 0,
        total_spent: m("0"),
        notes: None,
        last_order_at: None,
        created_at: now(),
        updated_at: now(),
    }
}

#[test]
fn customer_full_name_and_update() {
    let mut c = customer();
    assert_eq!(c.full_name(), "Ann Lee");
    let upd = UpdateCustomerRequest {
        email: None,
        first_name: Some("Anna".into()),
        last_name: None,
        phone: Some("555".into()),
        company: None,
        is_active: Some(false),
        accepts_marketing: None,
        notes: None,
    };
    assert!(upd.validate().is_ok());
    CustomerRepository::apply_update(&mut c, &upd);
    assert_eq!(c.full_name(), "Anna Lee");
    assert_eq!(c.phone.as_deref(), Some("555"));
    assert!(!c.is_active);
    assert_eq!(c.email, "ann@example.com");
}

#[test]
fn address_needs_two_letter_country() {
    let mut a = CreateAddressRequest {
        label: None,
        first_name: "Ann".into(),
        last_name: "Lee".into(),
        company: None,
        address_line1: "1 Road".into(),
        address_line2: None,
        city: "Town".into(),
        state: None,
        postal_code: "12345".into(),
        country: "US".into(),
        phone: None,
        is_default_shipping: true,
        is_default_billing: false,
    };
    assert!(a.validate().is_ok());
    a.country = "USA".into();
    assert_eq!(a.validate(), Err("country".to_string()));
}

#[test]
fn review_rating_must_be_one_to_five() {
    let mut r = CreateReviewRequest {
        product_id: 1,
        customer_id: None,
        order_id: None,
        reviewer_name: "Ann".into(),
        reviewer_email: "ann@example.com".into(),
        rating: 5,
        title: None,
        content: None,
    };
    assert!(ReviewService::check_submit(&r).is_ok());
    r.rating = 6;
    assert!(matches!(ReviewService::check_submit(&r), Err(RustCommerceError::Validation(m)) if m == "rating"));
    r.rating = 0;
    assert!(ReviewService::check_submit(&r).is_err());
    r.rating = 1;
    r.reviewer_email = "nope".into();
    assert!(ReviewService::check_submit(&r).is_err());
    assert_eq!(ReviewStatus::Approved.as_str(), "approved");
}

// ── administration views ────────────────────────────────────────────────

#[test]
fn dashboard_rows_keep_their_values() {
    let rows = order_counts(vec![("pending".to_string(), 3), ("shipped".to_string(), 9)]);
    assert_eq!(rows.len(), 2);
    assert_eq!((rows[1].status.as_str(), rows[1].count), ("shipped", 9));

    let items = low_stock_items(vec![product()]);
    assert_eq!(items[0].name, "Lamp");
    assert_eq!(items[0].stock_quantity, 4);
    assert_eq!(items[0].low_stock_threshold, 5);

    let p = recent_reviews_params();
    assert_eq!((p.page, p.per_page, p.status), (Some(1), Some(5), Some(ReviewStatus::Pending)));
    let q = AdminReviewQuery { page: Some(2), per_page: None, status: Some(ReviewStatus::Spam) }.list_params();
    assert_eq!(q.page, Some(2));
    assert_eq!(q.sort_order.as_deref(), Some("desc"));
    assert!(!CouponListQuery { active_only: None }.active_only());
    assert!(CouponListQuery { active_only: Some(true) }.active_only());
}

// ── payments, inventory, money, errors, configuration ──────────────────

fn payment(status: PaymentStatus, amount: &str, refunded: Option<&str>) -> Payment {
    Payment {
        id: 1,
        order_id: 2,
        payment_method: PaymentMethod::Stripe,
        status,
        amount: m(amount),
        currency: "USD".into(),
        gateway_transaction_id: None,
        gateway_response: None,
        refund_amount: refunded.map(m),
        refund_reason: None,
        metadata: None,
        paid_at: None,
        failed_at: None,
        refunded_at: None,
        created_at: now(),
        updated_at: now(),
    }
}

#[test]
fn refunds_are_checked_and_classified() {
    let p = payment(PaymentStatus::Completed, "50", None);
    assert!(matches!(
        PaymentService::check_refund(&payment(PaymentStatus::Pending, "50", None), None),
        Err(RustCommerceError::RefundError(m)) if m == "Can only refund completed payments"
    ));
    assert!(matches!(
        PaymentService::check_refund(&p, Some(m("60"))),
        Err(RustCommerceError::RefundError(m)) if m == "Refund amount exceeds payment amount"
    ));
    assert_eq!(d(PaymentService::check_refund(&p, None).unwrap()), dec("50"));

    let (total, status) = PaymentService::refund_outcome(&payment(PaymentStatus::Completed, "50", Some("20")), m("10"));
    assert_eq!(d(total), dec("30"));
    assert_eq!(status, PaymentStatus::PartiallyRefunded);
    let (total, status) = PaymentService::refund_outcome(&payment(PaymentStatus::Completed, "50", Some("20")), m("30"));
    assert_eq!(d(total), dec("50"));
    assert_eq!(status, PaymentStatus::Refunded);
}

#[test]
fn amounts_convert_to_cents() {
    assert_eq!(PaymentService::amount_in_cents(m("20")).unwrap(), 2000);
    assert_eq!(PaymentService::amount_in_cents(m("0")).unwrap(), 0);
    assert_eq!(PaymentService::amount_in_cents(m("19.99")).unwrap(), 1999);
    assert_eq!(PaymentService::amount_in_cents(m("20.00")).unwrap(), 2000);
    assert_eq!(PaymentService::amount_in_cents(m("-3.5")).unwrap(), -350);
    assert_eq!(PaymentService::amount_in_cents(m("92233720368547758.07")).unwrap(), i64::MAX);
    assert!(PaymentService::amount_in_cents(m("92233720368547758.08")).is_err());
    assert!(matches!(
        PaymentService::amount_in_cents(m("0.001")),
        Err(RustCommerceError::PaymentProcessing(_))
    ));
}

#[test]
fn stock_checks_and_low_stock() {
    let p = product();
    assert!(InventoryService::check_stock(&p, 4).is_ok());
    assert!(matches!(
        InventoryService::check_stock(&p, 5),
        Err(RustCommerceError::InsufficientStock { requested: 5, available: 4, .. })
    ));
    assert!(InventoryService::is_low_stock(&p));
    let mut empty = product();
    empty.stock_quantity = 0;
    assert!(InventoryService::is_low_stock(&empty));
    let mut plenty = product();
    plenty.stock_quantity = 6;
    assert!(!InventoryService::is_low_stock(&plenty));
    let mut untracked = product();
    untracked.track_inventory = false;
    assert!(!InventoryService::is_low_stock(&untracked));
    assert_eq!(InventoryService::reserve_change(&p, 3).unwrap(), -3);
    assert_eq!(InventoryService::set_stock_change(4, 10), 6);
    assert_eq!(InventoryService::release_change(2), 2);
}

#[test]
fn money_arithmetic_is_exact_decimal() {
    assert_eq!(d(m("0.1").add(&m("0.2"))), dec("0.3"));
    assert_eq!(d(m("10").sub(&m("12.5"))), dec("-2.5"));
    assert_eq!(d(m("1.5").mul(&m("3"))), dec("4.5"));
    assert_eq!(d(m("2.345").round_dp(2)), dec("2.34"));
    assert_eq!(d(m("2.355").round_dp(2)), dec("2.36"));
    assert_eq!(d(m("80").percent_of(&m("12.5"))), dec("10"));
    assert!(m("1.0").value_eq(&m("1")));
    assert!(m("0.99").lt(&m("1")));
    for (base, pct) in [
        ("100.00", "10"),
        ("100.00", "10.00"),
        ("5", "10"),
        ("19.99", "8.25"),
        ("80", "12.5"),
        ("3.00", "300"),
        ("7", "0"),
        ("-12.50", "15"),
    ] {
        let r = d(m(base).percent_of(&m(pct)));
        let expected = dec(base) * (dec(pct) / Decimal::from(100));
        assert_eq!(r.to_string(), expected.to_string(), "{base} * {pct}%");
    }
    // 10.00 / 100 keeps the scale (0.10), so the product carries four places.
    assert_eq!(d(m("100.00").percent_of(&m("10.00"))).to_string(), "10.0000");
    assert_eq!(d(m("7").percent_of(&m("0"))).to_string(), "0");
    assert_eq!(d(m("19.99").checked_percent_of(&m("8.25")).unwrap()), dec("1.649175"));
    // 27 places times the two places of 0.33 would need 29: too many.
    let tiny = m(&format!("0.{}1", "0".repeat(26)));
    assert_eq!(tiny.scale, 27);
    assert!(tiny.checked_percent_of(&m("33")).is_none());
    assert!(m("0.001").checked_percent_of(&m("33")).is_some());
    assert_eq!(d(m("3").min(&m("2"))), dec("2"));
}

#[test]
fn errors_map_to_status_codes() {
    assert_eq!(RustCommerceError::EmptyCart.status_code(), 400);
    assert_eq!(RustCommerceError::ProductNotFound(1).status_code(), 404);
    assert_eq!(RustCommerceError::Unauthorized("x".into()).status_code(), 401);
    assert_eq!(RustCommerceError::Forbidden("x".into()).status_code(), 403);
    assert_eq!(RustCommerceError::Internal("x".into()).status_code(), 500);
    assert_eq!(RustCommerceError::CouponExpired.error_code(), "COUPON_EXPIRED");
}

#[test]
fn configuration_is_checked() {
    let mut c = RustCommerceConfig::new("postgres://db".into());
    assert!(c.validate().is_ok());
    c.database_url = String::new();
    c.max_db_connections = 0;
    let errs = c.validate().unwrap_err();
    assert_eq!(errs, vec!["database_url is required".to_string(), "max_db_connections must be greater than 0".to_string()]);
}

// ── duplicates, addresses, order lines, payments and moderation ─────────

#[test]
fn duplicate_codes_and_emails_are_refused() {
    assert!(CouponRepository::check_code_free("SAVE10", 0).is_ok());
    assert!(matches!(
        CouponRepository::check_code_free("SAVE10", 1),
        Err(RustCommerceError::DuplicateEntry(m)) if m == "Coupon with code 'SAVE10' already exists"
    ));
    assert!(CustomerRepository::check_email_free("a@b.co", false).is_ok());
    assert!(matches!(
        CustomerRepository::check_email_free("a@b.co", true),
        Err(RustCommerceError::DuplicateEntry(m)) if m == "Customer with email 'a@b.co' already exists"
    ));
}

fn address(id: u128, shipping: bool, billing: bool) -> CustomerAddress {
    CustomerAddress {
        id,
        customer_id: 2,
        label: None,
        first_name: "Ann".into(),
        last_name: "Lee".into(),
        company: None,
        address_line1: "1 Road".into(),
        address_line2: None,
        city: "Town".into(),
        state: None,
        postal_code: "1".into(),
        country: "US".into(),
        phone: None,
        is_default_shipping: shipping,
        is_default_billing: billing,
        created_at: now(),
        updated_at: now(),
    }
}

#[test]
fn new_default_address_takes_over_the_default() {
    let mut list = vec![address(1, true, true), address(2, false, false)];
    CustomerRepository::add_address(&mut list, address(3, true, false));
    let shipping: Vec<u128> = list.iter().filter(|a| a.is_default_shipping).map(|a| a.id).collect();
    let billing: Vec<u128> = list.iter().filter(|a| a.is_default_billing).map(|a| a.id).collect();
    assert_eq!(shipping, vec![3]);
    assert_eq!(billing, vec![1]);
    assert_eq!(list.len(), 3);
}

fn cart_item(product_id: u128, quantity: i32, unit: &str, total: &str) -> CartItem {
    CartItem {
        id: 10 + product_id,
        cart_id: 1,
        product_id,
        variant_id: None,
        quantity,
        unit_price: m(unit),
        total_price: m(total),
        created_at: now(),
        updated_at: now(),
    }
}

#[test]
fn order_lines_deduct_tracked_stock() {
    let item = cart_item(3, 2, "30", "60");
    let mut untracked = product();
    untracked.track_inventory = false;
    let item2 = cart_item(4, 2, "30", "60");
    let lines = CheckoutService::plan_order_lines(&vec![item, item2], &vec![product(), untracked]);
    assert_eq!(lines.len(), 2);
    assert_eq!(lines[0].product_name, "Lamp");
    assert_eq!(lines[0].sku.as_deref(), Some("L-1"));
    assert_eq!(d(lines[0].total_price), dec("60"));
    assert_eq!(d(lines[0].tax_amount), Decimal::ZERO);
    assert_eq!(lines[0].stock_change, Some(-2));
    assert_eq!(lines[1].stock_change, None);
}

#[test]
fn billing_falls_back_to_shipping_address() {
    let ship = CheckoutAddress {
        address_line1: "1 Ship St".into(),
        address_line2: None,
        city: "A".into(),
        state: None,
        postal_code: "1".into(),
        country: "US".into(),
    };
    let mut req = CheckoutRequest {
        cart_id: 1,
        customer_email: "a@b.co".into(),
        customer_name: "A".into(),
        customer_id: None,
        shipping_address: ship.clone(),
        billing_address: None,
        shipping_method: None,
        notes: None,
        payment_method: None,
    };
    assert_eq!(CheckoutService::billing_address(&req).address_line1, "1 Ship St");
    let mut bill = ship;
    bill.address_line1 = "2 Bill Ave".into();
    req.billing_address = Some(bill);
    assert_eq!(CheckoutService::billing_address(&req).address_line1, "2 Bill Ave");
}

#[test]
fn payment_status_updates_stamp_their_instants() {
    let mut p = payment(PaymentStatus::Processing, "50", None);
    let at = Timestamp::new(1_700_000_000, 0);
    PaymentRepository::apply_status_update(&mut p, PaymentStatus::Completed, Some("pi_1".into()), None, at);
    assert_eq!(p.status, PaymentStatus::Completed);
    assert_eq!(p.paid_at, Some(at));
    assert_eq!(p.failed_at, None);
    assert_eq!(p.gateway_transaction_id.as_deref(), Some("pi_1"));
    PaymentRepository::apply_status_update(&mut p, PaymentStatus::Failed, None, None, at);
    assert_eq!(p.gateway_transaction_id.as_deref(), Some("pi_1"));
    assert_eq!(p.failed_at, Some(at));
    assert_eq!(PaymentRepository::payment_currency(None), "USD");
}

#[test]
fn refunds_accumulate_until_fully_refunded() {
    let mut p = payment(PaymentStatus::Completed, "50", None);
    let at = Timestamp::new(5, 0);
    PaymentRepository::apply_refund(&mut p, m("20"), Some("damaged".into()), at);
    assert_eq!(p.status, PaymentStatus::PartiallyRefunded);
    assert_eq!(d(p.refund_amount.unwrap()), dec("20"));
    PaymentRepository::apply_refund(&mut p, m("30"), None, at);
    assert_eq!(p.status, PaymentStatus::Refunded);
    assert_eq!(d(p.refund_amount.unwrap()), dec("50"));
    assert_eq!(p.refund_reason.as_deref(), Some("damaged"));
    assert_eq!(p.refunded_at, Some(at));
}

fn review() -> Review {
    Review {
        id: 1,
        product_id: 3,
        customer_id: None,
        order_id: None,
        reviewer_name: "Ann".into(),
        reviewer_email: "ann@example.com".into(),
        rating: 4,
        title: None,
        content: None,
        status: ReviewStatus::Pending,
        is_verified_purchase: false,
        helpful_count: 0,
        admin_response: None,
        admin_responded_at: None,
        created_at: now(),
        updated_at: now(),
    }
}

#[test]
fn moderation_records_status_and_response() {
    let mut r = review();
    ReviewRepository::apply_moderation(&mut r, &ModerateReviewRequest { status: ReviewStatus::Spam, admin_response: None }, Timestamp::new(1, 0));
    assert_eq!(r.status, ReviewStatus::Spam);
    assert_eq!(r.admin_responded_at, None);
    let at = Timestamp::new(9, 0);
    ReviewRepository::apply_moderation(&mut r, &ModerateReviewRequest { status: ReviewStatus::Approved, admin_response: Some("Thanks".into()) }, at);
    assert_eq!(r.status, ReviewStatus::Approved);
    assert_eq!(r.admin_response.as_deref(), Some("Thanks"));
    assert_eq!(r.admin_responded_at, Some(at));
}

#[test]
fn reviews_with_an_order_are_verified_purchases() {
    let mut req = CreateReviewRequest {
        product_id: 1,
        customer_id: None,
        order_id: None,
        reviewer_name: "Ann".into(),
        reviewer_email: "ann@example.com".into(),
        rating: 5,
        title: None,
        content: None,
    };
    assert!(!ReviewRepository::is_verified_purchase(&req));
    req.order_id = Some(77);
    assert!(ReviewRepository::is_verified_purchase(&req));
}

#[test]
fn configuration_failure_joins_the_problems() {
    let e = validation_failure(&vec!["a is required".to_string(), "b must be positive".to_string()]);
    assert!(matches!(e, RustCommerceError::Configuration(m) if m == "Configuration validation failed: a is required, b must be positive"));
    let e = validation_failure(&vec!["only".to_string()]);
    assert!(matches!(e, RustCommerceError::Configuration(m) if m == "Configuration validation failed: only"));
}

#[test]
fn cart_item_details_carry_product_name_and_slug() {
    let p = product();
    let with = CartService::item_detail(cart_item(3, 1, "30", "30"), Some(&p));
    assert_eq!(with.product_name.as_deref(), Some("Lamp"));
    assert_eq!(with.product_slug.as_deref(), Some("lamp"));
    let without = CartService::item_detail(cart_item(3, 1, "30", "30"), None);
    assert!(without.product_name.is_none());
}

#[test]
fn deep_category_chain_is_built_completely() {
    let cats: Vec<Category> = (1..=6u128)
        .map(|i| category(i, if i == 1 { None } else { Some(i - 1) }, &format!("c{}", i)))
        .collect();
    let forest = CategoryTree::build_tree(cats);
    assert_eq!(forest.len(), 1);
    let mut node = &forest[0];
    let mut depth = 1;
    while let Some(child) = node.children.first() {
        node = child;
        depth += 1;
    }
    assert_eq!(depth, 6);
    assert_eq!(node.category.name, "c6");
}
