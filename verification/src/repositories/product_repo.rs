//! Product list ordering, the defaults of a new product, and how an update
//! merges into a stored product.

use crate::models::product::{Product, ProductStatus, CreateProductRequest, UpdateProductRequest};
use crate::repositories::query::{
    merge, merge_opt, merge_opt_text, merge_text, param_or, pick, pick_opt, slugify, slugify_result,
    text_eq,
};
use vstd::prelude::*;

verus! {

/// Repository for product database operations.
pub struct ProductRepository;

/// The column a product list is sorted by.
pub open spec fn product_sort_column(sort_by: Seq<char>) -> Seq<char> {
    if sort_by == "name"@ || sort_by == "price"@ || sort_by == "created_at"@ || sort_by
        == "updated_at"@ || sort_by == "stock_quantity"@ {
        sort_by
    } else {
        "created_at"@
    }
}

/// The fields of a new product that its request may leave out.
#[derive(Debug)]
pub struct NewProductFields {
    pub slug: String,
    pub status: ProductStatus,
    pub low_stock_threshold: i32,
    pub track_inventory: bool,
}

impl ProductRepository {
    /// The sort column of a product list: `name`, `price`, `created_at`,
    /// `updated_at` or `stock_quantity`; anything else (or nothing) sorts by
    /// `created_at`.
    pub fn sort_column(sort_by: Option<&str>) -> (r: &'static str)
        ensures
            r@ == product_sort_column(param_or(sort_by, "created_at"@)),
    {
        proof {
            reveal_strlit("name");
            reveal_strlit("price");
            reveal_strlit("created_at");
            reveal_strlit("updated_at");
            reveal_strlit("stock_quantity");
        }
        let s = match sort_by {
            Some(s) => s,
            None => "created_at",
        };
        if text_eq(s, "name") {
            "name"
        } else if text_eq(s, "price") {
            "price"
        } else if text_eq(s, "updated_at") {
            "updated_at"
        } else if text_eq(s, "stock_quantity") {
            "stock_quantity"
        } else {
            "created_at"
        }
    }

    /// The defaults of a new product: the given slug or one made from the
    /// name, `Draft` status, a low-stock threshold of 5 and tracked inventory.
    pub fn creation_fields(req: &CreateProductRequest) -> (r: NewProductFields)
        ensures
            r.slug@ == (match req.slug {
                Some(s) => s@,
                None => slugify_result(req.name@),
            }),
            r.status == pick(req.status, ProductStatus::Draft),
            r.low_stock_threshold == pick(req.low_stock_threshold, 5i32),
            r.track_inventory == pick(req.track_inventory, true),
    {
        let slug = match &req.slug {
            Some(s) => s.clone(),
            None => slugify(req.name.as_str()),
        };
        let status = match req.status {
            Some(s) => s,
            None => ProductStatus::Draft,
        };
        let low_stock_threshold = match req.low_stock_threshold {
            Some(n) => n,
            None => 5,
        };
        let track_inventory = match req.track_inventory {
            Some(b) => b,
            None => true,
        };
        NewProductFields { slug, status, low_stock_threshold, track_inventory }
    }

    /// Merges an update into a stored product: each field given in the update
    /// replaces the stored one, the others stay.
    pub fn apply_update(product: &mut Product, req: &UpdateProductRequest)
        ensures
            (*final(product) == Product {
                name: pick(req.name, old(product).name),
                slug: pick(req.slug, old(product).slug),
                description: pick_opt(req.description, old(product).description),
                short_description: pick_opt(req.short_description, old(product).short_description),
                sku: pick_opt(req.sku, old(product).sku),
                price: pick(req.price, old(product).price),
                compare_at_price: pick_opt(req.compare_at_price, old(product).compare_at_price),
                cost_price: pick_opt(req.cost_price, old(product).cost_price),
                status: pick(req.status, old(product).status),
                is_featured: pick(req.is_featured, old(product).is_featured),
                is_digital: pick(req.is_digital, old(product).is_digital),
                weight: pick_opt(req.weight, old(product).weight),
                width: pick_opt(req.width, old(product).width),
                height: pick_opt(req.height, old(product).height),
                depth: pick_opt(req.depth, old(product).depth),
                stock_quantity: pick(req.stock_quantity, old(product).stock_quantity),
                low_stock_threshold: pick(req.low_stock_threshold, old(product).low_stock_threshold),
                track_inventory: pick(req.track_inventory, old(product).track_inventory),
                allow_backorders: pick(req.allow_backorders, old(product).allow_backorders),
                meta_title: pick_opt(req.meta_title, old(product).meta_title),
                meta_description: pick_opt(req.meta_description, old(product).meta_description),
                ..*old(product)
            }),
    {
        merge_text(&req.name, &mut product.name);
        merge_text(&req.slug, &mut product.slug);
        merge_opt_text(&req.description, &mut product.description);
        merge_opt_text(&req.short_description, &mut product.short_description);
        merge_opt_text(&req.sku, &mut product.sku);
        merge(req.price, &mut product.price);
        merge_opt(req.compare_at_price, &mut product.compare_at_price);
        merge_opt(req.cost_price, &mut product.cost_price);
        merge(req.status, &mut product.status);
        merge(req.is_featured, &mut product.is_featured);
        merge(req.is_digital, &mut product.is_digital);
        merge_opt(req.weight, &mut product.weight);
        merge_opt(req.width, &mut product.width);
        merge_opt(req.height, &mut product.height);
        merge_opt(req.depth, &mut product.depth);
        merge(req.stock_quantity, &mut product.stock_quantity);
        merge(req.low_stock_threshold, &mut product.low_stock_threshold);
        merge(req.track_inventory, &mut product.track_inventory);
        merge(req.allow_backorders, &mut product.allow_backorders);
        merge_opt_text(&req.meta_title, &mut product.meta_title);
        merge_opt_text(&req.meta_description, &mut product.meta_description);
    }
}

} // verus!
