//! The defaults of a new category and how an update merges into a stored
//! category.

use crate::models::category::{Category, CreateCategoryRequest, UpdateCategoryRequest};
use crate::repositories::query::{copy_text, pick, pick_opt, slugify, slugify_result};
use vstd::prelude::*;

verus! {

/// Repository for category database operations.
pub struct CategoryRepository;

impl CategoryRepository {
    /// The slug and sort position of a new category: the given slug or one
    /// made from the name, and the given position or 0.
    pub fn creation_fields(req: &CreateCategoryRequest) -> (r: (String, i32))
        ensures
            r.0@ == (match req.slug {
                Some(s) => s@,
                None => slugify_result(req.name@),
            }),
            r.1 == pick(req.sort_order, 0i32),
    {
        let slug = match &req.slug {
            Some(s) => s.clone(),
            None => slugify(req.name.as_str()),
        };
        let sort_order = match req.sort_order {
            Some(n) => n,
            None => 0,
        };
        (slug, sort_order)
    }

    /// Merges an update into a stored category: each field given in the
    /// update replaces the stored one, the others stay.
    pub fn apply_update(category: &mut Category, req: &UpdateCategoryRequest)
        ensures
            (*final(category) == Category {
                name: pick(req.name, old(category).name),
                slug: pick(req.slug, old(category).slug),
                description: pick_opt(req.description, old(category).description),
                parent_id: pick_opt(req.parent_id, old(category).parent_id),
                image_url: pick_opt(req.image_url, old(category).image_url),
                sort_order: pick(req.sort_order, old(category).sort_order),
                is_active: pick(req.is_active, old(category).is_active),
                meta_title: pick_opt(req.meta_title, old(category).meta_title),
                meta_description: pick_opt(req.meta_description, old(category).meta_description),
                ..*old(category)
            }),
    {
        if let Some(v) = &req.name {
            category.name = v.clone();
        }
        if let Some(v) = &req.slug {
            category.slug = v.clone();
        }
        if req.description.is_some() {
            category.description = copy_text(&req.description);
        }
        if req.parent_id.is_some() {
            category.parent_id = req.parent_id;
        }
        if req.image_url.is_some() {
            category.image_url = copy_text(&req.image_url);
        }
        if let Some(v) = req.sort_order {
            category.sort_order = v;
        }
        if let Some(v) = req.is_active {
            category.is_active = v;
        }
        if req.meta_title.is_some() {
            category.meta_title = copy_text(&req.meta_title);
        }
        if req.meta_description.is_some() {
            category.meta_description = copy_text(&req.meta_description);
        }
    }
}

} // verus!
