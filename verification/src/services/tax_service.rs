//! Tax lookup and calculation for orders.

use crate::error::RustCommerceError;
use crate::models::tax::{
    create_tax_rate_request_is_valid, CreateTaxRateRequest, TaxCalculation, TaxLine, TaxRate,
    TaxType, UpdateTaxRateRequest,
};
use crate::models::validate::spec_length_within;
use crate::repositories::query::{merge, merge_opt_text, merge_text, pick, pick_opt};
use crate::money::{
    add_exact, dec_add, dec_percent_of, dec_sum, dec_round, dec_wf, dec_zero, lemma_add_wf,
    percent_exact, Dec, Money,
};
use vstd::prelude::*;

verus! {

/// Service for tax calculation.
pub struct TaxService;

/// The place where a rate of priority `p` goes in a sequence sorted by
/// priority: after every rate of priority `p` or lower.
pub open spec fn insert_pos(t: Seq<TaxRate>, p: i32) -> int
    decreases t.len(),
{
    if t.len() == 0 {
        0
    } else if t[0].priority > p {
        0
    } else {
        1 + insert_pos(t.drop_first(), p)
    }
}

/// The rates sorted by priority, lower first, keeping the given order among
/// equal priorities (a stable sort by key).
pub open spec fn sort_by_priority(s: Seq<TaxRate>) -> Seq<TaxRate>
    decreases s.len(),
{
    if s.len() == 0 {
        s
    } else {
        let t = sort_by_priority(s.drop_last());
        t.insert(insert_pos(t, s.last().priority), s.last())
    }
}

pub open spec fn priority_sorted(s: Seq<TaxRate>) -> bool {
    forall|i: int, j: int| 0 <= i < j < s.len() ==> s[i].priority <= s[j].priority
}

/// The amount rate `r` taxes, given the tax of the rates before it and the
/// compound base (see `compound_base`): a compound rate taxes the subtotal
/// plus all that tax, any other rate the compound base; either adds shipping
/// when the rate taxes shipping.
pub open spec fn rate_taxable(
    subtotal: Dec,
    shipping: Dec,
    r: TaxRate,
    tax_so_far: Dec,
    cbase: Dec,
) -> Dec {
    let base = if r.is_compound {
        dec_add(subtotal, tax_so_far)
    } else {
        cbase
    };
    if r.is_shipping_taxed {
        dec_add(base, shipping)
    } else {
        base
    }
}

/// The tax of rate `r` on `taxable`, rounded half-to-even to two places.
pub open spec fn rate_tax(r: TaxRate, taxable: Dec) -> Dec {
    match r.tax_type {
        TaxType::Percentage => dec_round(dec_percent_of(taxable, r.rate@), 2),
        TaxType::Fixed => dec_round(r.rate@, 2),
    }
}

/// The total tax of the first `i` rates of `rs`.
pub open spec fn tax_before(subtotal: Dec, shipping: Dec, rs: Seq<TaxRate>, i: nat) -> Dec
    decreases i, 0int,
{
    if i == 0 {
        dec_zero()
    } else {
        let p = tax_before(subtotal, shipping, rs, (i - 1) as nat);
        let c = compound_base(subtotal, shipping, rs, (i - 1) as nat);
        let r = rs[i - 1];
        dec_add(p, rate_tax(r, rate_taxable(subtotal, shipping, r, p, c)))
    }
}

/// The base of a non-compound rate after the first `i` rates: the subtotal
/// until a compound rate has been applied, then the subtotal plus the total
/// tax as it stood right after the last compound rate.
pub open spec fn compound_base(subtotal: Dec, shipping: Dec, rs: Seq<TaxRate>, i: nat) -> Dec
    decreases i, 1int,
{
    if i == 0 {
        subtotal
    } else if rs[i - 1].is_compound {
        dec_add(subtotal, tax_before(subtotal, shipping, rs, i))
    } else {
        compound_base(subtotal, shipping, rs, (i - 1) as nat)
    }
}

/// The taxable amount of line `i`.
pub open spec fn line_taxable(subtotal: Dec, shipping: Dec, rs: Seq<TaxRate>, i: int) -> Dec {
    rate_taxable(
        subtotal,
        shipping,
        rs[i],
        tax_before(subtotal, shipping, rs, i as nat),
        compound_base(subtotal, shipping, rs, i as nat),
    )
}

/// The tax amount of line `i`.
pub open spec fn line_tax(subtotal: Dec, shipping: Dec, rs: Seq<TaxRate>, i: int) -> Dec {
    rate_tax(rs[i], line_taxable(subtotal, shipping, rs, i))
}

/// One step of the calculation stays within decimal precision.
pub open spec fn tax_step_exact(
    subtotal: Dec,
    shipping: Dec,
    r: TaxRate,
    so_far: Dec,
    cbase: Dec,
) -> bool {
    let base = if r.is_compound {
        dec_add(subtotal, so_far)
    } else {
        cbase
    };
    let taxable = rate_taxable(subtotal, shipping, r, so_far, cbase);
    let total = dec_add(so_far, rate_tax(r, taxable));
    &&& dec_wf(r.rate@)
    &&& (r.is_compound ==> add_exact(subtotal, so_far))
    &&& (r.is_shipping_taxed ==> add_exact(base, shipping))
    &&& (r.tax_type == TaxType::Percentage ==> percent_exact(taxable, r.rate@))
    &&& add_exact(so_far, rate_tax(r, taxable))
    &&& (r.is_compound ==> add_exact(subtotal, total))
}

/// The whole calculation over `rs` stays within decimal precision (where it
/// does not, `rust_decimal` panics or rounds).
pub open spec fn tax_exact(subtotal: Dec, shipping: Dec, rs: Seq<TaxRate>) -> bool {
    &&& dec_wf(subtotal)
    &&& dec_wf(shipping)
    &&& forall|i: int|
        0 <= i < rs.len() ==> tax_step_exact(
            subtotal,
            shipping,
            #[trigger] rs[i],
            tax_before(subtotal, shipping, rs, i as nat),
            compound_base(subtotal, shipping, rs, i as nat),
        )
}

/// The tax lines that `calculate` reports for rates `rs`, in that order.
pub open spec fn lines_match(
    lines: Seq<TaxLine>,
    subtotal: Dec,
    shipping: Dec,
    rs: Seq<TaxRate>,
) -> bool {
    &&& lines.len() == rs.len()
    &&& forall|i: int|
        0 <= i < rs.len() ==> {
            &&& (#[trigger] lines[i]).tax_rate_id == rs[i].id
            &&& lines[i].name == rs[i].name
            &&& lines[i].rate == rs[i].rate
            &&& lines[i].tax_type == rs[i].tax_type
            &&& lines[i].taxable_amount@ == line_taxable(subtotal, shipping, rs, i)
            &&& lines[i].tax_amount@ == line_tax(subtotal, shipping, rs, i)
        }
}

/// Whether a rate applies to an address: active, same country, and either
/// state-wide-less (no state) or for the given state.
pub open spec fn rate_applies(r: TaxRate, country: Seq<char>, state: Option<Seq<char>>) -> bool {
    &&& r.is_active
    &&& r.country@ == country
    &&& match r.state {
        None => true,
        Some(s) => state == Some(s@),
    }
}

pub open spec fn opt_str_view(o: Option<&str>) -> Option<Seq<char>> {
    match o {
        Some(s) => Some(s@),
        None => None,
    }
}

proof fn lemma_insert_pos_bounds(t: Seq<TaxRate>, p: i32)
    ensures
        0 <= insert_pos(t, p) <= t.len(),
    decreases t.len(),
{
    if t.len() > 0 && t[0].priority <= p {
        lemma_insert_pos_bounds(t.drop_first(), p);
    }
}

/// In a sorted sequence, `insert_pos` splits the elements at or below `p` from those above.
proof fn lemma_insert_pos_split(t: Seq<TaxRate>, p: i32)
    requires
        priority_sorted(t),
    ensures
        forall|i: int| 0 <= i < insert_pos(t, p) ==> t[i].priority <= p,
        forall|i: int| insert_pos(t, p) <= i < t.len() ==> t[i].priority > p,
    decreases t.len(),
{
    lemma_insert_pos_bounds(t, p);
    if t.len() > 0 {
        if t[0].priority <= p {
            let u = t.drop_first();
            assert(priority_sorted(u));
            lemma_insert_pos_split(u, p);
            assert forall|i: int| 0 <= i < insert_pos(t, p) implies t[i].priority <= p by {
                if i > 0 {
                    assert(t[i] == u[i - 1]);
                }
            }
            assert forall|i: int| insert_pos(t, p) <= i < t.len() implies t[i].priority > p by {
                assert(t[i] == u[i - 1]);
            }
        } else {
            assert forall|i: int| 0 <= i < t.len() implies t[i].priority > p by {
                assert(t[0].priority <= t[i].priority);
            }
        }
    }
}

/// The stable sort is sorted and has the same length.
pub proof fn lemma_sort_by_priority_sorted(s: Seq<TaxRate>)
    ensures
        priority_sorted(sort_by_priority(s)),
        sort_by_priority(s).len() == s.len(),
    decreases s.len(),
{
    if s.len() > 0 {
        let t = sort_by_priority(s.drop_last());
        lemma_sort_by_priority_sorted(s.drop_last());
        let x = s.last();
        let k = insert_pos(t, x.priority);
        lemma_insert_pos_split(t, x.priority);
        lemma_insert_pos_bounds(t, x.priority);
        let u = t.insert(k, x);
        assert forall|i: int, j: int| 0 <= i < j < u.len() implies u[i].priority
            <= u[j].priority by {
            if j < k {
            } else if j == k {
            } else if i < k {
                assert(u[j] == t[j - 1]);
            } else if i == k {
                assert(u[j] == t[j - 1]);
            } else {
                assert(u[j] == t[j - 1]);
                assert(u[i] == t[i - 1]);
            }
        }
    }
}

/// The stable sort keeps exactly the given rates.
pub proof fn lemma_sort_by_priority_permutes(s: Seq<TaxRate>)
    ensures
        sort_by_priority(s).to_multiset() =~= s.to_multiset(),
    decreases s.len(),
{
    broadcast use vstd::seq_lib::group_to_multiset_ensures;

    if s.len() > 0 {
        let t = sort_by_priority(s.drop_last());
        lemma_sort_by_priority_permutes(s.drop_last());
        let x = s.last();
        let k = insert_pos(t, x.priority);
        lemma_insert_pos_bounds(t, x.priority);
        vstd::seq_lib::lemma_seq_union_to_multiset_commutative(t.take(k), t.skip(k));
        assert(t.insert(k, x) =~= t.take(k) + seq![x] + t.skip(k));
        assert(t =~= t.take(k) + t.skip(k));
        vstd::seq_lib::lemma_multiset_commutative(t.take(k) + seq![x], t.skip(k));
        vstd::seq_lib::lemma_multiset_commutative(t.take(k), seq![x]);
        vstd::seq_lib::lemma_multiset_commutative(t.take(k), t.skip(k));
        assert(s =~= s.drop_last().push(x));
    }
}

impl TaxService {
    /// Sorts rates by priority (lower applied first), keeping the given order
    /// among equal priorities.
    pub fn sort_rates(rates: Vec<TaxRate>) -> (r: Vec<TaxRate>)
        ensures
            r@ == sort_by_priority(rates@),
    {
        let ghost input = rates@;
        let mut rest = rates;
        let mut sorted: Vec<TaxRate> = Vec::new();
        let n = rest.len();
        let mut i: usize = 0;
        while i < n
            invariant
                n == input.len(),
                i <= n,
                rest@ == input.skip(i as int),
                sorted@ == sort_by_priority(input.take(i as int)),
            decreases n - i,
        {
            let x = rest.remove(0);
            assert(x == input[i as int]);
            let ghost t = sorted@;
            assert(t.skip(0) =~= t);
            let mut pos: usize = 0;
            while pos < sorted.len() && sorted[pos].priority <= x.priority
                invariant
                    sorted@ == t,
                    pos <= t.len(),
                    insert_pos(t, x.priority) == pos + insert_pos(t.skip(pos as int), x.priority),
                decreases t.len() - pos,
            {
                assert(t.skip(pos as int).drop_first() =~= t.skip(pos + 1));
                pos = pos + 1;
            }
            assert(insert_pos(t, x.priority) == pos) by {
                if pos < t.len() {
                    assert(t.skip(pos as int)[0] == t[pos as int]);
                }
            }
            sorted.insert(pos, x);
            assert(input.take(i + 1).drop_last() =~= input.take(i as int));
            assert(input.take(i + 1).last() == x);
            assert(rest@ =~= input.skip(i + 1));
            i = i + 1;
        }
        assert(input.take(n as int) =~= input);
        sorted
    }

    /// The rates that apply to an address: active, for the country, and
    /// either without a state or for the given state; the given order is kept.
    pub fn find_applicable_rates(rates: Vec<TaxRate>, country: &str, state: Option<&str>) -> (r: Vec<
        TaxRate,
    >)
        ensures
            r@ == rates@.filter(|x: TaxRate| rate_applies(x, country@, opt_str_view(state))),
    {
        let ghost input = rates@;
        let ghost pred = |x: TaxRate| rate_applies(x, country@, opt_str_view(state));
        let mut rest = rates;
        let mut out: Vec<TaxRate> = Vec::new();
        let n = rest.len();
        let country_s = country.to_owned();
        let mut i: usize = 0;
        while i < n
            invariant
                n == input.len(),
                i <= n,
                rest@ == input.skip(i as int),
                country_s@ == country@,
                pred == (|x: TaxRate| rate_applies(x, country@, opt_str_view(state))),
                out@ == input.take(i as int).filter(pred),
            decreases n - i,
        {
            let x = rest.remove(0);
            assert(x == input[i as int]);
            let state_ok = match &x.state {
                None => true,
                Some(s) => match state {
                    Some(st) => *s == st.to_owned(),
                    None => false,
                },
            };
            let keep = x.is_active && x.country == country_s && state_ok;
            assert(keep == pred(x));
            assert(input.take(i + 1).drop_last() =~= input.take(i as int));
            assert(input.take(i + 1).last() == x);
            if keep {
                out.push(x);
            }
            proof {
                reveal_with_fuel(Seq::<TaxRate>::filter, 1);
            }
            assert(out@ =~= input.take(i + 1).filter(pred));
            assert(rest@ =~= input.skip(i + 1));
            i = i + 1;
        }
        assert(input.take(n as int) =~= input);
        proof {
            reveal_with_fuel(Seq::<TaxRate>::filter, 1);
        }
        assert(input.take(0).filter(pred) =~= Seq::<TaxRate>::empty());
        out
    }

    /// The taxes of an order over the given rates, applied in priority order.
    /// A compound rate taxes the subtotal plus the tax of the lines before it;
    /// any other rate taxes the subtotal, or after a compound rate the subtotal
    /// plus the tax as it stood right after that rate; shipping is added for a
    /// rate that taxes shipping; a
    /// percentage rate takes that per cent of it, a fixed rate its own amount,
    /// each rounded half-to-even to two places. The total is the sum of the lines.
    pub fn calculate(subtotal: Money, shipping_amount: Money, rates: Vec<TaxRate>) -> (r:
        TaxCalculation)
        requires
            tax_exact(subtotal@, shipping_amount@, sort_by_priority(rates@)),
        ensures
            r.subtotal == subtotal,
            r.shipping_amount == shipping_amount,
            lines_match(r.tax_lines@, subtotal@, shipping_amount@, sort_by_priority(rates@)),
            r.total_tax@ == tax_before(
                subtotal@,
                shipping_amount@,
                sort_by_priority(rates@),
                rates@.len(),
            ),
    {
        proof {
            lemma_sort_by_priority_sorted(rates@);
        }
        let sorted = Self::sort_rates(rates);
        Self::apply_sorted(subtotal, shipping_amount, sorted)
    }

    /// `calculate` where the whole calculation is exact: `None` when some
    /// step would leave decimal precision (`tax_exact` fails).
    pub fn checked_calculate(subtotal: Money, shipping_amount: Money, rates: Vec<TaxRate>) -> (r:
        Option<TaxCalculation>)
        ensures
            r is Some <==> tax_exact(subtotal@, shipping_amount@, sort_by_priority(rates@)),
            r matches Some(c) ==> {
                &&& c.subtotal == subtotal
                &&& c.shipping_amount == shipping_amount
                &&& lines_match(c.tax_lines@, subtotal@, shipping_amount@, sort_by_priority(rates@))
                &&& c.total_tax@ == tax_before(
                    subtotal@,
                    shipping_amount@,
                    sort_by_priority(rates@),
                    rates@.len(),
                )
            },
    {
        proof {
            lemma_sort_by_priority_sorted(rates@);
        }
        let sorted = Self::sort_rates(rates);
        if Self::rates_exact(&subtotal, &shipping_amount, &sorted) {
            Some(Self::apply_sorted(subtotal, shipping_amount, sorted))
        } else {
            None
        }
    }

    /// Whether the calculation over rates already in order is exact, tested
    /// step by step as it would run.
    fn rates_exact(subtotal: &Money, shipping_amount: &Money, rs: &Vec<TaxRate>) -> (b: bool)
        ensures
            b == tax_exact(subtotal@, shipping_amount@, rs@),
    {
        let ghost sub = subtotal@;
        let ghost ship = shipping_amount@;
        if !subtotal.is_wf() || !shipping_amount.is_wf() {
            return false;
        }
        let mut total_tax = Money::zero();
        let mut compound = *subtotal;
        let mut i: usize = 0;
        while i < rs.len()
            invariant
                sub == subtotal@,
                ship == shipping_amount@,
                dec_wf(sub),
                dec_wf(ship),
                i <= rs@.len(),
                forall|j: int|
                    0 <= j < i ==> tax_step_exact(
                        sub,
                        ship,
                        #[trigger] rs@[j],
                        tax_before(sub, ship, rs@, j as nat),
                        compound_base(sub, ship, rs@, j as nat),
                    ),
                total_tax@ == tax_before(sub, ship, rs@, i as nat),
                total_tax.wf(),
                compound@ == compound_base(sub, ship, rs@, i as nat),
                compound.wf(),
            decreases rs@.len() - i,
        {
            let ghost so_far = total_tax@;
            let ghost cb = compound@;
            match Self::step_exact(subtotal, shipping_amount, &rs[i], &total_tax, &compound) {
                None => {
                    return false;
                },
                Some((t, c)) => {
                    total_tax = t;
                    compound = c;
                },
            }
            proof {
                assert(total_tax@ == tax_before(sub, ship, rs@, (i + 1) as nat));
                assert(compound@ == compound_base(sub, ship, rs@, (i + 1) as nat));
            }
            i = i + 1;
        }
        true
    }

    /// One step of the calculation where it is exact: the new total tax and
    /// compound base, or `None` when `tax_step_exact` fails.
    fn step_exact(
        subtotal: &Money,
        shipping_amount: &Money,
        rate: &TaxRate,
        total_tax: &Money,
        compound: &Money,
    ) -> (r: Option<(Money, Money)>)
        requires
            subtotal.wf(),
            shipping_amount.wf(),
            total_tax.wf(),
            compound.wf(),
        ensures
            r is Some <==> tax_step_exact(
                subtotal@,
                shipping_amount@,
                *rate,
                total_tax@,
                compound@,
            ),
            r matches Some((t, c)) ==> {
                let taxable = rate_taxable(
                    subtotal@,
                    shipping_amount@,
                    *rate,
                    total_tax@,
                    compound@,
                );
                &&& t@ == dec_add(total_tax@, rate_tax(*rate, taxable))
                &&& t.wf()
                &&& c@ == (if rate.is_compound {
                    dec_add(subtotal@, t@)
                } else {
                    compound@
                })
                &&& c.wf()
            },
    {
        if !rate.rate.is_wf() {
            return None;
        }
        let base = if rate.is_compound {
            match subtotal.checked_add(total_tax) {
                Some(b) => b,
                None => {
                    return None;
                },
            }
        } else {
            *compound
        };
        let taxable = if rate.is_shipping_taxed {
            match base.checked_add(shipping_amount) {
                Some(t) => t,
                None => {
                    return None;
                },
            }
        } else {
            base
        };
        let raw = match rate.tax_type {
            TaxType::Percentage => match taxable.checked_percent_of(&rate.rate) {
                Some(x) => x,
                None => {
                    return None;
                },
            },
            TaxType::Fixed => rate.rate,
        };
        let tax_amount = raw.round_dp(2);
        let next = match total_tax.checked_add(&tax_amount) {
            Some(t) => t,
            None => {
                return None;
            },
        };
        let c = if rate.is_compound {
            match subtotal.checked_add(&next) {
                Some(c) => c,
                None => {
                    return None;
                },
            }
        } else {
            *compound
        };
        Some((next, c))
    }

    /// The calculation over rates already in priority order.
    fn apply_sorted(subtotal: Money, shipping_amount: Money, sorted: Vec<TaxRate>) -> (r:
        TaxCalculation)
        requires
            tax_exact(subtotal@, shipping_amount@, sorted@),
        ensures
            r.subtotal == subtotal,
            r.shipping_amount == shipping_amount,
            lines_match(r.tax_lines@, subtotal@, shipping_amount@, sorted@),
            r.total_tax@ == tax_before(subtotal@, shipping_amount@, sorted@, sorted@.len()),
    {
        let ghost rs = sorted@;
        let ghost sub = subtotal@;
        let ghost ship = shipping_amount@;
        let mut tax_lines: Vec<TaxLine> = Vec::new();
        let mut total_tax = Money::zero();
        let mut compound = subtotal;
        let mut i: usize = 0;
        while i < sorted.len()
            invariant
                rs == sorted@,
                sub == subtotal@,
                ship == shipping_amount@,
                i <= rs.len(),
                tax_exact(sub, ship, rs),
                total_tax@ == tax_before(sub, ship, rs, i as nat),
                total_tax.wf(),
                compound@ == compound_base(sub, ship, rs, i as nat),
                compound.wf(),
                lines_match(tax_lines@, sub, ship, rs.take(i as int)),
                forall|j: int|
                    0 <= j < i ==> (#[trigger] tax_lines@[j]).taxable_amount@ == line_taxable(
                        sub,
                        ship,
                        rs,
                        j,
                    ) && tax_lines@[j].tax_amount@ == line_tax(sub, ship, rs, j),
            decreases rs.len() - i,
        {
            let rate = &sorted[i];
            assert(tax_step_exact(
                sub,
                ship,
                rs[i as int],
                tax_before(sub, ship, rs, i as nat),
                compound_base(sub, ship, rs, i as nat),
            ));
            let base = if rate.is_compound {
                subtotal.add(&total_tax)
            } else {
                compound
            };
            let taxable = if rate.is_shipping_taxed {
                base.add(&shipping_amount)
            } else {
                base
            };
            let raw = match rate.tax_type {
                TaxType::Percentage => taxable.percent_of(&rate.rate),
                TaxType::Fixed => rate.rate,
            };
            let tax_amount = raw.round_dp(2);
            assert(tax_amount@ == rate_tax(rs[i as int], taxable@));
            let line = TaxLine {
                tax_rate_id: rate.id,
                name: rate.name.clone(),
                rate: rate.rate,
                tax_type: rate.tax_type,
                taxable_amount: taxable,
                tax_amount,
            };
            let ghost old_lines = tax_lines@;
            tax_lines.push(line);
            total_tax = total_tax.add(&tax_amount);
            if rate.is_compound {
                compound = subtotal.add(&total_tax);
            }
            proof {
                assert(total_tax@ == tax_before(sub, ship, rs, (i + 1) as nat));
                assert(compound@ == compound_base(sub, ship, rs, (i + 1) as nat));
            }
            proof {
                assert(rs.take(i + 1).drop_last() =~= rs.take(i as int));
                assert forall|j: int| 0 <= j < i + 1 implies {
                    &&& (#[trigger] tax_lines@[j]).tax_rate_id == rs.take(i + 1)[j].id
                    &&& tax_lines@[j].name == rs.take(i + 1)[j].name
                    &&& tax_lines@[j].rate == rs.take(i + 1)[j].rate
                    &&& tax_lines@[j].tax_type == rs.take(i + 1)[j].tax_type
                    &&& tax_lines@[j].taxable_amount@ == line_taxable(sub, ship, rs.take(i + 1), j)
                    &&& tax_lines@[j].tax_amount@ == line_tax(sub, ship, rs.take(i + 1), j)
                } by {
                    lemma_tax_before_prefix(sub, ship, rs, (i + 1) as nat, j as nat);
                    if j < i {
                        assert(tax_lines@[j] == old_lines[j]);
                        assert(rs.take(i as int)[j] == rs.take(i + 1)[j]);
                        lemma_tax_before_prefix(sub, ship, rs, i as nat, j as nat);
                    }
                }
            }
            i = i + 1;
        }
        proof {
            assert(rs.take(rs.len() as int) =~= rs);
        }
        TaxCalculation { subtotal, shipping_amount, tax_lines, total_tax }
    }

    /// The taxes of an order for an address: the applicable rates among
    /// `rates`, then `calculate`.
    pub fn calculate_for_address(
        subtotal: Money,
        shipping_amount: Money,
        country: &str,
        state: Option<&str>,
        rates: Vec<TaxRate>,
    ) -> (r: TaxCalculation)
        requires
            tax_exact(
                subtotal@,
                shipping_amount@,
                sort_by_priority(
                    rates@.filter(|x: TaxRate| rate_applies(x, country@, opt_str_view(state))),
                ),
            ),
        ensures
            ({
                let rs = sort_by_priority(
                    rates@.filter(|x: TaxRate| rate_applies(x, country@, opt_str_view(state))),
                );
                &&& r.subtotal == subtotal
                &&& r.shipping_amount == shipping_amount
                &&& lines_match(r.tax_lines@, subtotal@, shipping_amount@, rs)
                &&& r.total_tax@ == tax_before(subtotal@, shipping_amount@, rs, rs.len())
            }),
    {
        let applicable = Self::find_applicable_rates(rates, country, state);
        proof {
            lemma_sort_by_priority_sorted(applicable@);
        }
        Self::calculate(subtotal, shipping_amount, applicable)
    }

    /// The checks and defaults of a new tax rate: the field rules
    /// (`Validation` naming the field), then the type (`Percentage` unless
    /// given) and the priority (0 unless given).
    pub fn rate_creation_fields(req: &CreateTaxRateRequest) -> (r: Result<
        (TaxType, i32),
        RustCommerceError,
    >)
        ensures
            r is Ok <==> create_tax_rate_request_is_valid(*req),
            r matches Ok(f) ==> f == (pick(req.tax_type, TaxType::Percentage), pick(req.priority, 0i32)),
            r matches Err(e) ==> (e matches RustCommerceError::Validation(f) && f@ == (if !spec_length_within(
                req.name@,
                1,
                255,
            ) {
                "name"@
            } else {
                "country"@
            })),
    {
        if let Err(field) = req.validate() {
            return Err(RustCommerceError::Validation(field));
        }
        let tax_type = match req.tax_type {
            Some(t) => t,
            None => TaxType::Percentage,
        };
        let priority = match req.priority {
            Some(p) => p,
            None => 0,
        };
        Ok((tax_type, priority))
    }

    /// Merges an update into a stored tax rate: each field given in the update
    /// replaces the stored one, the others stay.
    pub fn apply_rate_update(rate: &mut TaxRate, req: &UpdateTaxRateRequest)
        ensures
            (*final(rate) == TaxRate {
                name: pick(req.name, old(rate).name),
                rate: pick(req.rate, old(rate).rate),
                tax_type: pick(req.tax_type, old(rate).tax_type),
                country: pick(req.country, old(rate).country),
                state: pick_opt(req.state, old(rate).state),
                postal_code: pick_opt(req.postal_code, old(rate).postal_code),
                priority: pick(req.priority, old(rate).priority),
                is_compound: pick(req.is_compound, old(rate).is_compound),
                is_shipping_taxed: pick(req.is_shipping_taxed, old(rate).is_shipping_taxed),
                is_active: pick(req.is_active, old(rate).is_active),
                ..*old(rate)
            }),
    {
        merge_text(&req.name, &mut rate.name);
        merge(req.rate, &mut rate.rate);
        merge(req.tax_type, &mut rate.tax_type);
        merge_text(&req.country, &mut rate.country);
        merge_opt_text(&req.state, &mut rate.state);
        merge_opt_text(&req.postal_code, &mut rate.postal_code);
        merge(req.priority, &mut rate.priority);
        merge(req.is_compound, &mut rate.is_compound);
        merge(req.is_shipping_taxed, &mut rate.is_shipping_taxed);
        merge(req.is_active, &mut rate.is_active);
    }

    /// The total tax for checkout: the calculation for the address with no
    /// shipping amount.
    pub fn calculate_tax_for_address(
        subtotal: Money,
        country: &str,
        state: Option<&str>,
        rates: Vec<TaxRate>,
    ) -> (r: Money)
        requires
            tax_exact(
                subtotal@,
                dec_zero(),
                sort_by_priority(
                    rates@.filter(|x: TaxRate| rate_applies(x, country@, opt_str_view(state))),
                ),
            ),
        ensures
            ({
                let rs = sort_by_priority(
                    rates@.filter(|x: TaxRate| rate_applies(x, country@, opt_str_view(state))),
                );
                r@ == tax_before(subtotal@, dec_zero(), rs, rs.len())
            }),
    {
        let result = Self::calculate_for_address(subtotal, Money::zero(), country, state, rates);
        result.total_tax
    }
}

/// The tax and the compound base before line `j` only depend on the rates
/// before it.
pub proof fn lemma_tax_before_prefix(sub: Dec, ship: Dec, rs: Seq<TaxRate>, n: nat, j: nat)
    requires
        j <= n <= rs.len(),
    ensures
        tax_before(sub, ship, rs.take(n as int), j) == tax_before(sub, ship, rs, j),
        compound_base(sub, ship, rs.take(n as int), j) == compound_base(sub, ship, rs, j),
    decreases j,
{
    if j > 0 {
        lemma_tax_before_prefix(sub, ship, rs, n, (j - 1) as nat);
        assert(rs.take(n as int)[j - 1] == rs[j - 1]);
    }
}

/// The tax amounts of the first `n` lines.
pub open spec fn line_taxes(sub: Dec, ship: Dec, rs: Seq<TaxRate>, n: nat) -> Seq<Dec> {
    Seq::new(n, |i: int| line_tax(sub, ship, rs, i))
}

/// The total tax is the sum of the (already rounded) line amounts, so rounding
/// per line and summing never disagree.
pub proof fn law_total_is_sum_of_lines(sub: Dec, ship: Dec, rs: Seq<TaxRate>, n: nat)
    requires
        n <= rs.len(),
    ensures
        dec_sum(line_taxes(sub, ship, rs, n)) == tax_before(sub, ship, rs, n),
    decreases n,
{
    if n > 0 {
        law_total_is_sum_of_lines(sub, ship, rs, (n - 1) as nat);
        assert(line_taxes(sub, ship, rs, n).drop_last() =~= line_taxes(sub, ship, rs, (n - 1) as nat));
    }
}

/// Sorting by priority puts the rates in non-decreasing priority and keeps
/// exactly the given rates.
pub proof fn law_rates_applied_in_priority_order(s: Seq<TaxRate>)
    ensures
        priority_sorted(sort_by_priority(s)),
        sort_by_priority(s).to_multiset() =~= s.to_multiset(),
{
    lemma_sort_by_priority_sorted(s);
    lemma_sort_by_priority_permutes(s);
}

/// Until a compound rate has been applied, the base of other rates is the subtotal.
proof fn lemma_compound_base_before_compound(sub: Dec, ship: Dec, rs: Seq<TaxRate>, i: nat)
    requires
        i <= rs.len(),
        forall|j: int| 0 <= j < i ==> !(#[trigger] rs[j]).is_compound,
    ensures
        compound_base(sub, ship, rs, i) == sub,
    decreases i,
{
    if i > 0 {
        lemma_compound_base_before_compound(sub, ship, rs, (i - 1) as nat);
    }
}

/// What each tax line is levied on. A compound rate taxes the subtotal plus
/// the tax of the lines before it; a rate with no compound rate before it
/// taxes the subtotal; and a rate that taxes shipping taxes exactly the
/// shipping amount more than the same rate would without taxing shipping,
/// compound or not.
pub proof fn law_line_taxable_amount(sub: Dec, ship: Dec, rs: Seq<TaxRate>, i: int)
    requires
        0 <= i < rs.len(),
    ensures
        rs[i].is_compound && !rs[i].is_shipping_taxed ==> line_taxable(sub, ship, rs, i)
            == dec_add(sub, tax_before(sub, ship, rs, i as nat)),
        rs[i].is_compound && rs[i].is_shipping_taxed ==> line_taxable(sub, ship, rs, i)
            == dec_add(dec_add(sub, tax_before(sub, ship, rs, i as nat)), ship),
        (forall|j: int| 0 <= j < i ==> !(#[trigger] rs[j]).is_compound) && !rs[i].is_compound
            ==> line_taxable(sub, ship, rs, i) == (if rs[i].is_shipping_taxed {
            dec_add(sub, ship)
        } else {
            sub
        }),
        rs[i].is_shipping_taxed ==> line_taxable(sub, ship, rs, i) == dec_add(
            line_taxable(
                sub,
                ship,
                rs.update(i, TaxRate { is_shipping_taxed: false, ..rs[i] }),
                i,
            ),
            ship,
        ),
{
    if forall|j: int| 0 <= j < i ==> !(#[trigger] rs[j]).is_compound {
        lemma_compound_base_before_compound(sub, ship, rs, i as nat);
    }
    let r2 = TaxRate { is_shipping_taxed: false, ..rs[i] };
    let rs2 = rs.update(i, r2);
    assert(rs2.take(i) =~= rs.take(i));
    lemma_tax_before_prefix(sub, ship, rs, i as nat, i as nat);
    lemma_tax_before_prefix(sub, ship, rs2, i as nat, i as nat);
    assert(rs2[i] == r2);
}

} // verus!
