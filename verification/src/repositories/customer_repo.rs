//! Customer list ordering and how an update merges into a stored customer.

use crate::error::RustCommerceError;
use crate::models::customer::{Customer, CustomerAddress, UpdateCustomerRequest};
use crate::repositories::query::{copy_text, param_or, pick, pick_opt, text_eq};
use vstd::prelude::*;
use vstd::string::StringExecFns;

verus! {

/// Repository for customer database operations.
pub struct CustomerRepository;

/// The column a customer list is sorted by.
pub open spec fn customer_sort_column(sort_by: Seq<char>) -> Seq<char> {
    if sort_by == "email"@ || sort_by == "first_name"@ || sort_by == "last_name"@ || sort_by
        == "total_orders"@ || sort_by == "total_spent"@ || sort_by == "created_at"@ {
        sort_by
    } else {
        "created_at"@
    }
}

impl CustomerRepository {
    /// The sort column of a customer list: `email`, `first_name`,
    /// `last_name`, `total_orders`, `total_spent` or `created_at`; anything
    /// else sorts by `created_at`.
    pub fn sort_column(sort_by: Option<&str>) -> (r: &'static str)
        ensures
            r@ == customer_sort_column(param_or(sort_by, "created_at"@)),
    {
        proof {
            reveal_strlit("email");
            reveal_strlit("first_name");
            reveal_strlit("last_name");
            reveal_strlit("total_orders");
            reveal_strlit("total_spent");
            reveal_strlit("created_at");
        }
        let s = match sort_by {
            Some(s) => s,
            None => "created_at",
        };
        if text_eq(s, "email") {
            "email"
        } else if text_eq(s, "first_name") {
            "first_name"
        } else if text_eq(s, "last_name") {
            "last_name"
        } else if text_eq(s, "total_orders") {
            "total_orders"
        } else if text_eq(s, "total_spent") {
            "total_spent"
        } else {
            "created_at"
        }
    }

    /// Merges an update into a stored customer: each field given in the
    /// update replaces the stored one, the others stay.
    pub fn apply_update(customer: &mut Customer, req: &UpdateCustomerRequest)
        ensures
            (*final(customer) == Customer {
                email: pick(req.email, old(customer).email),
                first_name: pick(req.first_name, old(customer).first_name),
                last_name: pick(req.last_name, old(customer).last_name),
                phone: pick_opt(req.phone, old(customer).phone),
                company: pick_opt(req.company, old(customer).company),
                is_active: pick(req.is_active, old(customer).is_active),
                accepts_marketing: pick(req.accepts_marketing, old(customer).accepts_marketing),
                notes: pick_opt(req.notes, old(customer).notes),
                ..*old(customer)
            }),
    {
        if let Some(v) = &req.email {
            customer.email = v.clone();
        }
        if let Some(v) = &req.first_name {
            customer.first_name = v.clone();
        }
        if let Some(v) = &req.last_name {
            customer.last_name = v.clone();
        }
        if req.phone.is_some() {
            customer.phone = copy_text(&req.phone);
        }
        if req.company.is_some() {
            customer.company = copy_text(&req.company);
        }
        if let Some(v) = req.is_active {
            customer.is_active = v;
        }
        if let Some(v) = req.accepts_marketing {
            customer.accepts_marketing = v;
        }
        if req.notes.is_some() {
            customer.notes = copy_text(&req.notes);
        }
    }
}

/// At most one of the addresses is the default shipping address, and at most
/// one the default billing address.
pub open spec fn defaults_unique(s: Seq<CustomerAddress>) -> bool {
    &&& forall|i: int, j: int|
        0 <= i < s.len() && 0 <= j < s.len() && (#[trigger] s[i]).is_default_shipping
            && (#[trigger] s[j]).is_default_shipping ==> i == j
    &&& forall|i: int, j: int|
        0 <= i < s.len() && 0 <= j < s.len() && (#[trigger] s[i]).is_default_billing
            && (#[trigger] s[j]).is_default_billing ==> i == j
}

/// A stored address after a new address was added: it stops being a default
/// of the kind that the new address takes.
pub open spec fn after_new_default(a: CustomerAddress, new: CustomerAddress) -> CustomerAddress {
    CustomerAddress {
        is_default_shipping: a.is_default_shipping && !new.is_default_shipping,
        is_default_billing: a.is_default_billing && !new.is_default_billing,
        ..a
    }
}

impl CustomerRepository {
    /// The duplicate check of a new customer: `DuplicateEntry` when a customer
    /// with the email exists already.
    pub fn check_email_free(email: &str, taken: bool) -> (r: Result<(), RustCommerceError>)
        ensures
            !taken ==> r is Ok,
            taken ==> (r matches Err(RustCommerceError::DuplicateEntry(m)) && m@
                == "Customer with email '"@ + email@ + "' already exists"@),
    {
        if taken {
            let mut msg = "Customer with email '".to_owned();
            msg.append(email);
            msg.append("' already exists");
            return Err(RustCommerceError::DuplicateEntry(msg));
        }
        Ok(())
    }

    /// Adds an address to a customer's addresses: when the new address is a
    /// default (shipping or billing), the stored ones stop being that default;
    /// the new address comes last.
    pub fn add_address(addresses: &mut Vec<CustomerAddress>, address: CustomerAddress)
        ensures
            final(addresses)@.len() == old(addresses)@.len() + 1,
            final(addresses)@.last() == address,
            forall|i: int|
                0 <= i < old(addresses)@.len() ==> #[trigger] final(addresses)@[i] == after_new_default(
                    old(addresses)@[i],
                    address,
                ),
    {
        let ghost input = addresses@;
        let mut out: Vec<CustomerAddress> = Vec::new();
        let n = addresses.len();
        let mut i: usize = 0;
        while i < n
            invariant
                n == input.len(),
                i <= n,
                addresses@ == input.skip(i as int),
                out@.len() == i,
                forall|k: int| 0 <= k < i ==> #[trigger] out@[k] == after_new_default(input[k], address),
            decreases n - i,
        {
            let mut a = addresses.remove(0);
            assert(input.skip(i as int)[0] == input[i as int]);
            assert(input.skip(i + 1) =~= input.skip(i as int).skip(1));
            if address.is_default_shipping {
                a.is_default_shipping = false;
            }
            if address.is_default_billing {
                a.is_default_billing = false;
            }
            out.push(a);
            i = i + 1;
        }
        out.push(address);
        *addresses = out;
    }
}

/// Adding an address keeps at most one default shipping and one default
/// billing address.
pub proof fn law_add_address_keeps_defaults_unique(
    before: Seq<CustomerAddress>,
    after: Seq<CustomerAddress>,
    address: CustomerAddress,
)
    requires
        defaults_unique(before),
        after.len() == before.len() + 1,
        after.last() == address,
        forall|i: int| 0 <= i < before.len() ==> #[trigger] after[i] == after_new_default(before[i], address),
    ensures
        defaults_unique(after),
{
    assert forall|i: int, j: int|
        0 <= i < after.len() && 0 <= j < after.len() && (#[trigger] after[i]).is_default_shipping
            && (#[trigger] after[j]).is_default_shipping implies i == j by {
        if i < before.len() && j < before.len() {
            assert(before[i].is_default_shipping && before[j].is_default_shipping);
        } else if i < before.len() {
            assert(after[i] == after_new_default(before[i], address));
        } else if j < before.len() {
            assert(after[j] == after_new_default(before[j], address));
        }
    }
    assert forall|i: int, j: int|
        0 <= i < after.len() && 0 <= j < after.len() && (#[trigger] after[i]).is_default_billing
            && (#[trigger] after[j]).is_default_billing implies i == j by {
        if i < before.len() && j < before.len() {
            assert(before[i].is_default_billing && before[j].is_default_billing);
        } else if i < before.len() {
            assert(after[i] == after_new_default(before[i], address));
        } else if j < before.len() {
            assert(after[j] == after_new_default(before[j], address));
        }
    }
}

} // verus!
