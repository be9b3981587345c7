//! List windows, sort directions, text comparison and slugs.

use vstd::prelude::*;

verus! {

/// The rows of one page of a list: how many, and how many come before them.
#[derive(Debug, Clone, Copy)]
pub struct ListWindow {
    pub page: u32,
    pub per_page: u32,
    pub limit: i64,
    pub offset: i64,
}

/// The page asked for: the given page, or the first; never below one.
pub open spec fn spec_page(page: Option<u32>) -> u32 {
    let p = match page {
        Some(p) => p,
        None => 1u32,
    };
    if p < 1 {
        1u32
    } else {
        p
    }
}

/// The page size asked for: the given size, or twenty; never above a hundred.
pub open spec fn spec_per_page(per_page: Option<u32>) -> u32 {
    let n = match per_page {
        Some(n) => n,
        None => 20u32,
    };
    if n > 100 {
        100u32
    } else {
        n
    }
}

/// The list window of a page request.
pub fn list_window(page: Option<u32>, per_page: Option<u32>) -> (r: ListWindow)
    requires
        (spec_page(page) - 1) * spec_per_page(per_page) <= u32::MAX,
    ensures
        r.page == spec_page(page),
        r.per_page == spec_per_page(per_page),
        r.limit == spec_per_page(per_page),
        r.offset == (spec_page(page) - 1) * spec_per_page(per_page),
{
    let p = match page {
        Some(p) => p,
        None => 1,
    };
    let p = if p < 1 {
        1
    } else {
        p
    };
    let n = match per_page {
        Some(n) => n,
        None => 20,
    };
    let n = if n > 100 {
        100
    } else {
        n
    };
    let offset = (p - 1) * n;
    ListWindow { page: p, per_page: n, limit: n as i64, offset: offset as i64 }
}

/// Ascending or descending order.
#[derive(Debug, Clone, Copy, PartialEq, Eq, Structural)]
pub enum SortDirection {
    Asc,
    Desc,
}

/// The code of a character with ASCII capitals lowered.
pub open spec fn lower_code(c: char) -> u32 {
    let u = c as u32;
    if 65 <= u <= 90 {
        (u + 32) as u32
    } else {
        u
    }
}

/// Equality of two texts up to ASCII case.
pub open spec fn spec_eq_ignore_ascii_case(a: Seq<char>, b: Seq<char>) -> bool {
    a.len() == b.len() && forall|i: int| 0 <= i < a.len() ==> #[trigger] lower_code(a[i])
        == lower_code(b[i])
}

/// Whether two texts are equal up to ASCII case.
pub fn eq_ignore_ascii_case(a: &str, b: &str) -> (r: bool)
    ensures
        r == spec_eq_ignore_ascii_case(a@, b@),
{
    let n = a.unicode_len();
    if n != b.unicode_len() {
        return false;
    }
    let mut i: usize = 0;
    while i < n
        invariant
            n == a@.len(),
            n == b@.len(),
            i <= n,
            forall|j: int| 0 <= j < i ==> #[trigger] lower_code(a@[j]) == lower_code(b@[j]),
        decreases n - i,
    {
        let x = a.get_char(i) as u32;
        let y = b.get_char(i) as u32;
        let lx = if 65 <= x && x <= 90 {
            x + 32
        } else {
            x
        };
        let ly = if 65 <= y && y <= 90 {
            y + 32
        } else {
            y
        };
        if lx != ly {
            assert(lower_code(a@[i as int]) != lower_code(b@[i as int]));
            return false;
        }
        i = i + 1;
    }
    true
}

/// The direction of a `sort_order` parameter: ascending for `asc` in any
/// ASCII case, descending otherwise (and when absent).
pub fn sort_direction(order: Option<&str>) -> (r: SortDirection)
    ensures
        r == (if order matches Some(o) && spec_eq_ignore_ascii_case(o@, "asc"@) {
            SortDirection::Asc
        } else {
            SortDirection::Desc
        }),
{
    let o = match order {
        Some(o) => o,
        None => "desc",
    };
    proof {
        reveal_strlit("desc");
        reveal_strlit("asc");
    }
    if eq_ignore_ascii_case(o, "asc") {
        SortDirection::Asc
    } else {
        SortDirection::Desc
    }
}

/// Whether two texts are equal.
pub fn text_eq(a: &str, b: &str) -> (r: bool)
    ensures
        r == (a@ == b@),
{
    a.to_owned() == b.to_owned()
}

/// A parameter that picks a column: the given text, or `default`.
pub open spec fn param_or(p: Option<&str>, default: Seq<char>) -> Seq<char> {
    match p {
        Some(s) => s@,
        None => default,
    }
}

/// The value of an optional field of an update: the new one when given.
pub open spec fn pick<T>(new: Option<T>, old: T) -> T {
    match new {
        Some(v) => v,
        None => old,
    }
}

/// An optional field of an update: the new value when given, else the old.
pub open spec fn pick_opt<T>(new: Option<T>, old: Option<T>) -> Option<T> {
    match new {
        Some(v) => Some(v),
        None => old,
    }
}

/// An identical copy of an optional text.
pub fn copy_text(o: &Option<String>) -> (r: Option<String>)
    ensures
        r == *o,
{
    match o {
        Some(s) => Some(s.clone()),
        None => None,
    }
}

/// Replaces a stored text by the update's, when the update gives one.
pub fn merge_text(new: &Option<String>, stored: &mut String)
    ensures
        *final(stored) == pick(*new, *old(stored)),
{
    if let Some(v) = new {
        *stored = v.clone();
    }
}

/// Replaces an optional stored text by the update's, when the update gives one.
pub fn merge_opt_text(new: &Option<String>, stored: &mut Option<String>)
    ensures
        *final(stored) == pick_opt(*new, *old(stored)),
{
    if new.is_some() {
        *stored = copy_text(new);
    }
}

/// Replaces a stored value by the update's, when the update gives one.
pub fn merge<T: Copy>(new: Option<T>, stored: &mut T)
    ensures
        *final(stored) == pick(new, *old(stored)),
{
    if let Some(v) = new {
        *stored = v;
    }
}

/// Replaces an optional stored value by the update's, when the update gives one.
pub fn merge_opt<T: Copy>(new: Option<T>, stored: &mut Option<T>)
    ensures
        *final(stored) == pick_opt(new, *old(stored)),
{
    if new.is_some() {
        *stored = new;
    }
}

/// What `slug::slugify` gives for a text.
pub uninterp spec fn slugify_result(s: Seq<char>) -> Seq<char>;

/// A slug: lower-case ASCII letters, digits and single dashes, with no dash at
/// either end.
pub open spec fn is_slug(s: Seq<char>) -> bool {
    &&& forall|i: int|
        0 <= i < s.len() ==> {
            let u = (#[trigger] s[i]) as u32;
            (97 <= u <= 122) || (48 <= u <= 57) || u == 45
        }
    &&& forall|i: int| 0 <= i < s.len() - 1 ==> !(#[trigger] s[i] == '-' && s[i + 1] == '-')
    &&& s.len() > 0 ==> s[0] != '-' && s.last() != '-'
}

/// `slug::slugify` of the `slug` crate: the text transliterated to ASCII,
/// lower-cased, with every run of other characters turned into one dash and no
/// dash at either end. Its documentation promises the shape (`is_slug`); the
/// transliteration table is left to the name `slugify_result`.
#[verifier::external_body]
pub(crate) fn slugify(s: &str) -> (r: String)
    ensures
        r@ == slugify_result(s@),
        is_slug(r@),
{
    slug::slugify(s)
}

} // verus!
