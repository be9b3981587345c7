//! Product categories, arranged in a tree through `parent_id`.

use crate::models::validate::{length_within, spec_length_within};
use crate::time::Timestamp;
use vstd::prelude::*;

verus! {

/// A product category; `parent_id` places it under another category.
#[derive(Debug, Clone)]
pub struct Category {
    pub id: u128,
    pub name: String,
    pub slug: String,
    pub description: Option<String>,
    pub parent_id: Option<u128>,
    pub image_url: Option<String>,
    pub sort_order: i32,
    pub is_active: bool,
    pub meta_title: Option<String>,
    pub meta_description: Option<String>,
    pub created_at: Timestamp,
    pub updated_at: Timestamp,
}

/// A category with the categories below it.
#[derive(Debug)]
pub struct CategoryTree {
    pub category: Category,
    pub children: Vec<CategoryTree>,
}

/// The categories directly below the category `id`, in list order.
pub open spec fn children_of(all: Seq<Category>, id: u128) -> Seq<Category> {
    all.filter(|c: Category| c.parent_id == Some(id))
}

/// The categories without a parent, in list order.
pub open spec fn roots_of(all: Seq<Category>) -> Seq<Category> {
    all.filter(|c: Category| c.parent_id is None)
}

/// `t` is the tree below its category, `depth` levels deep: each node's
/// children are the categories whose parent it is, in list order.
pub open spec fn tree_matches(t: CategoryTree, all: Seq<Category>, depth: nat) -> bool
    decreases depth,
{
    if depth == 0 {
        t.children@.len() == 0
    } else {
        let kids = children_of(all, t.category.id);
        &&& t.children@.len() == kids.len()
        &&& forall|i: int|
            0 <= i < kids.len() ==> (#[trigger] t.children@[i]).category == kids[i]
                && tree_matches(t.children@[i], all, (depth - 1) as nat)
    }
}

/// An identical copy of a category.
fn copy_category(c: &Category) -> (r: Category)
    ensures
        r == *c,
{
    Category {
        id: c.id,
        name: c.name.clone(),
        slug: c.slug.clone(),
        description: copy_text(&c.description),
        parent_id: c.parent_id,
        image_url: copy_text(&c.image_url),
        sort_order: c.sort_order,
        is_active: c.is_active,
        meta_title: copy_text(&c.meta_title),
        meta_description: copy_text(&c.meta_description),
        created_at: c.created_at,
        updated_at: c.updated_at,
    }
}

fn copy_text(o: &Option<String>) -> (r: Option<String>)
    ensures
        r == *o,
{
    match o {
        Some(s) => Some(s.clone()),
        None => None,
    }
}

/// Keeping the elements of `s` that satisfy `f`, one element more.
proof fn lemma_filter_push(s: Seq<Category>, x: Category, f: spec_fn(Category) -> bool)
    ensures
        s.push(x).filter(f) == (if f(x) {
            s.filter(f).push(x)
        } else {
            s.filter(f)
        }),
{
    reveal_with_fuel(Seq::<Category>::filter, 1);
    assert(s.push(x).drop_last() =~= s);
}

impl CategoryTree {
    /// The forest of a flat list of categories: one tree per category without
    /// a parent, in list order, each holding the categories below it. A tree
    /// goes at most as many levels deep as there are categories.
    pub fn build_tree(categories: Vec<Category>) -> (r: Vec<CategoryTree>)
        ensures
            r@.len() == roots_of(categories@).len(),
            forall|i: int|
                0 <= i < r@.len() ==> (#[trigger] r@[i]).category == roots_of(categories@)[i]
                    && tree_matches(r@[i], categories@, categories@.len()),
    {
        let ghost all = categories@;
        let ghost f = |c: Category| c.parent_id is None;
        let depth = categories.len();
        let mut out: Vec<CategoryTree> = Vec::new();
        let mut i: usize = 0;
        while i < categories.len()
            invariant
                all == categories@,
                depth == all.len(),
                i <= all.len(),
                f == (|c: Category| c.parent_id is None),
                out@.len() == all.take(i as int).filter(f).len(),
                forall|k: int|
                    0 <= k < out@.len() ==> (#[trigger] out@[k]).category == all.take(
                        i as int,
                    ).filter(f)[k] && tree_matches(out@[k], all, depth as nat),
            decreases all.len() - i,
        {
            proof {
                assert(all.take(i + 1) =~= all.take(i as int).push(all[i as int]));
                lemma_filter_push(all.take(i as int), all[i as int], f);
            }
            if categories[i].parent_id.is_none() {
                let root = copy_category(&categories[i]);
                let t = Self::build_subtree(root, &categories, depth);
                out.push(t);
            }
            i = i + 1;
        }
        assert(all.take(all.len() as int) =~= all);
        out
    }

    /// The tree below `parent`, `depth` levels deep.
    fn build_subtree(parent: Category, all: &Vec<Category>, depth: usize) -> (r: CategoryTree)
        ensures
            r.category == parent,
            tree_matches(r, all@, depth as nat),
        decreases depth,
    {
        if depth == 0 {
            return CategoryTree { category: parent, children: Vec::new() };
        }
        let ghost f = |c: Category| c.parent_id == Some(parent.id);
        let mut children: Vec<CategoryTree> = Vec::new();
        let mut i: usize = 0;
        while i < all.len()
            invariant
                i <= all@.len(),
                depth > 0,
                f == (|c: Category| c.parent_id == Some(parent.id)),
                children@.len() == all@.take(i as int).filter(f).len(),
                forall|k: int|
                    0 <= k < children@.len() ==> (#[trigger] children@[k]).category == all@.take(
                        i as int,
                    ).filter(f)[k] && tree_matches(children@[k], all@, (depth - 1) as nat),
            decreases all@.len() - i,
        {
            proof {
                assert(all@.take(i + 1) =~= all@.take(i as int).push(all@[i as int]));
                lemma_filter_push(all@.take(i as int), all@[i as int], f);
            }
            if all[i].parent_id == Some(parent.id) {
                let child = copy_category(&all[i]);
                let t = Self::build_subtree(child, all, depth - 1);
                children.push(t);
            }
            i = i + 1;
        }
        assert(all@.take(all@.len() as int) =~= all@);
        let r = CategoryTree { category: parent, children };
        assert(children_of(all@, r.category.id) == all@.filter(f));
        r
    }
}

/// No two categories of the list share an id.
pub open spec fn unique_ids(all: Seq<Category>) -> bool {
    forall|i: int, j: int|
        0 <= i < all.len() && 0 <= j < all.len() && (#[trigger] all[i]).id == (#[trigger] all[j]).id
            ==> i == j
}

/// A path down the tree from a category without parent: each next category
/// of the path has the one before as its parent.
pub open spec fn is_path(all: Seq<Category>, c: Seq<Category>) -> bool {
    &&& c.len() > 0
    &&& c[0].parent_id is None
    &&& forall|k: int| 0 <= k < c.len() ==> all.contains(#[trigger] c[k])
    &&& forall|k: int| 0 < k < c.len() ==> (#[trigger] c[k]).parent_id == Some(c[k - 1].id)
}

/// `t` holds every category below it: the nodes `depth` levels down have no
/// children in the list.
pub open spec fn tree_complete(t: CategoryTree, all: Seq<Category>, depth: nat) -> bool
    decreases depth,
{
    if depth == 0 {
        children_of(all, t.category.id).len() == 0
    } else {
        forall|i: int|
            0 <= i < t.children@.len() ==> tree_complete(#[trigger] t.children@[i], all, (depth - 1) as nat)
    }
}

/// The categories of a path are all different.
proof fn lemma_path_no_duplicates(all: Seq<Category>, c: Seq<Category>)
    requires
        unique_ids(all),
        is_path(all, c),
    ensures
        c.no_duplicates(),
{
    assert forall|i: int, j: int| 0 <= i < c.len() && 0 <= j < c.len() && i != j implies c[i]
        != c[j] by {
        if i < j {
            lemma_path_distinct(all, c, i, j);
        } else {
            lemma_path_distinct(all, c, j, i);
        }
    }
}

proof fn lemma_path_distinct(all: Seq<Category>, c: Seq<Category>, i: int, j: int)
    requires
        unique_ids(all),
        is_path(all, c),
        0 <= i < j < c.len(),
    ensures
        c[i] != c[j],
    decreases i,
{
    if i > 0 && c[i] == c[j] {
        let a = c[i - 1];
        let b = c[j - 1];
        assert(c[i].parent_id == Some(a.id));
        assert(c[j].parent_id == Some(b.id));
        assert(all.contains(a));
        assert(all.contains(b));
        let ia = choose|x: int| 0 <= x < all.len() && all[x] == a;
        let ib = choose|x: int| 0 <= x < all.len() && all[x] == b;
        assert(all[ia].id == all[ib].id);
        lemma_path_distinct(all, c, i - 1, j - 1);
    }
}

/// A path holds at most as many categories as the list.
proof fn lemma_path_length(all: Seq<Category>, c: Seq<Category>)
    requires
        unique_ids(all),
        is_path(all, c),
    ensures
        c.len() <= all.len(),
{
    lemma_path_no_duplicates(all, c);
    c.unique_seq_to_set();
    all.lemma_cardinality_of_set();
    assert(c.to_set().subset_of(all.to_set()));
    vstd::set_lib::lemma_len_subset(c.to_set(), all.to_set());
}

proof fn lemma_tree_complete(t: CategoryTree, all: Seq<Category>, depth: nat, c: Seq<Category>)
    requires
        unique_ids(all),
        is_path(all, c),
        c.last() == t.category,
        c.len() + depth == all.len() + 1,
        tree_matches(t, all, depth),
    ensures
        tree_complete(t, all, depth),
    decreases depth,
{
    lemma_path_length(all, c);
    if depth > 0 {
        let kids = children_of(all, t.category.id);
        let f = |x: Category| x.parent_id == Some(t.category.id);
        all.filter_lemma(f);
        assert forall|i: int| 0 <= i < t.children@.len() implies tree_complete(
            #[trigger] t.children@[i],
            all,
            (depth - 1) as nat,
        ) by {
            let child = t.children@[i];
            assert(child.category == kids[i]);
            assert(f(kids[i]));
            assert(kids.contains(kids[i]));
            all.lemma_filter_contains_rev(f, kids[i]);
            let c2 = c.push(child.category);
            assert forall|k: int| 0 < k < c2.len() implies (#[trigger] c2[k]).parent_id == Some(
                c2[k - 1].id,
            ) by {
                if k < c.len() {
                    assert(c2[k] == c[k]);
                    assert(c2[k - 1] == c[k - 1]);
                }
            }
            assert forall|k: int| 0 <= k < c2.len() implies all.contains(#[trigger] c2[k]) by {
                if k < c.len() {
                    assert(c2[k] == c[k]);
                }
            }
            lemma_tree_complete(child, all, (depth - 1) as nat, c2);
        }
    }
}

/// With unique ids, a tree built as deep as the list is long holds every
/// category below its root: no path down from a root is longer than the list.
pub proof fn law_tree_depth_suffices(t: CategoryTree, all: Seq<Category>)
    requires
        unique_ids(all),
        all.contains(t.category),
        t.category.parent_id is None,
        tree_matches(t, all, all.len()),
    ensures
        tree_complete(t, all, all.len()),
{
    let c = seq![t.category];
    lemma_tree_complete(t, all, all.len(), c);
}

/// Request payload for creating a category.
#[derive(Debug, Clone)]
pub struct CreateCategoryRequest {
    pub name: String,
    pub slug: Option<String>,
    pub description: Option<String>,
    pub parent_id: Option<u128>,
    pub image_url: Option<String>,
    pub sort_order: Option<i32>,
    pub meta_title: Option<String>,
    pub meta_description: Option<String>,
}

/// The field rule of a new category: a name of 1 to 255 characters.
pub open spec fn create_category_request_is_valid(r: CreateCategoryRequest) -> bool {
    spec_length_within(r.name@, 1, 255)
}

impl CreateCategoryRequest {
    /// Checks the field rules; the error names the field that breaks them.
    pub fn validate(&self) -> (r: Result<(), String>)
        ensures
            r is Ok <==> create_category_request_is_valid(*self),
            r matches Err(m) ==> m@ == "Name must be 1-255 characters"@,
    {
        if !length_within(self.name.as_str(), 1, 255) {
            return Err("Name must be 1-255 characters".to_owned());
        }
        Ok(())
    }
}

/// Request payload for updating a category; absent fields keep their value.
#[derive(Debug, Clone)]
pub struct UpdateCategoryRequest {
    pub name: Option<String>,
    pub slug: Option<String>,
    pub description: Option<String>,
    pub parent_id: Option<u128>,
    pub image_url: Option<String>,
    pub sort_order: Option<i32>,
    pub is_active: Option<bool>,
    pub meta_title: Option<String>,
    pub meta_description: Option<String>,
}

/// The field rule of a category update: a name, when given, of 1 to 255
/// characters.
pub open spec fn update_category_request_is_valid(r: UpdateCategoryRequest) -> bool {
    r.name matches Some(n) ==> spec_length_within(n@, 1, 255)
}

impl UpdateCategoryRequest {
    /// Checks the field rules; the error names the field that breaks them.
    pub fn validate(&self) -> (r: Result<(), String>)
        ensures
            r is Ok <==> update_category_request_is_valid(*self),
            r matches Err(m) ==> m@ == "Name must be 1-255 characters"@,
    {
        if let Some(n) = &self.name {
            if !length_within(n.as_str(), 1, 255) {
                return Err("Name must be 1-255 characters".to_owned());
            }
        }
        Ok(())
    }
}

} // verus!
