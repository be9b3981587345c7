# rustcommerce

The store logic of the RustCommerce e-commerce plugin, verified with Verus:
money arithmetic, carts and their totals, coupons, tax and shipping
calculation, checkout, order status workflow, payments and refunds, inventory,
reviews, categories and the request checks of the HTTP layer.

- `src/` is the verified library. Each public function states its result in
  `requires`/`ensures` over mathematical models (`Dec` for decimal amounts,
  `Seq` for lists and text). The library properties are proved as public proof
  functions named `law_*`.
- Calls into `rust_decimal`, `chrono`, `slug`, `validator` and a few `std`
  functions go through small trusted wrappers whose contracts restate what
  those crates document; everything around them is verified.
- `app/` holds what Verus does not check: the axum routes and extractors, the
  sqlx queries, Stripe calls, the hook registry and the plugin lifecycle. It
  loads data, hands plain values to the library and stores what comes back.
- `tests/` runs the library on concrete values.
