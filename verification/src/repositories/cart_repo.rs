//! The currency of a new cart.

use vstd::prelude::*;

verus! {

/// Repository for cart database operations.
pub struct CartRepository;

impl CartRepository {
    /// The currency a new cart is created in: the requested one, or `USD`.
    pub fn cart_currency(requested: Option<&str>) -> (r: String)
        ensures
            r@ == (match requested {
                Some(c) => c@,
                None => "USD"@,
            }),
    {
        match requested {
            Some(c) => c.to_owned(),
            None => "USD".to_owned(),
        }
    }
}

} // verus!
