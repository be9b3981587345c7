//! Shipping zone matching and rate calculation.

use crate::models::shipping::{ShippingMethod, ShippingRate, ShippingRateRequest, ShippingType, ShippingZone};
use crate::money::{
    dec_le, dec_lt, dec_mul, dec_percent_of, dec_wf, dec_zero, lemma_le_refl, lemma_le_trans,
    mul_exact, percent_exact, Dec, Money,
};
use vstd::prelude::*;

verus! {

/// Service for shipping rate calculation.
pub struct ShippingService;

/// The text of every string in a sequence.
pub open spec fn strings_view(s: Seq<String>) -> Seq<Seq<char>> {
    s.map_values(|x: String| x@)
}

/// A zone serves a country when it is active and either lists the country or
/// lists no country at all (a catch-all zone).
pub open spec fn spec_zone_matches(z: ShippingZone, country: Seq<char>) -> bool {
    &&& z.is_active
    &&& (z.countries@.len() == 0 || strings_view(z.countries@).contains(country))
}

/// The order subtotal lies within the method's optional minimum and maximum.
pub open spec fn spec_amount_within(m: ShippingMethod, subtotal: Dec) -> bool {
    &&& (m.min_order_amount matches Some(min) ==> dec_le(min@, subtotal))
    &&& (m.max_order_amount matches Some(max) ==> dec_le(subtotal, max@))
}

/// A method is offered in zone `zone_id` for an order: it belongs to the zone,
/// is active, and the subtotal is within its bounds.
pub open spec fn spec_method_available(m: ShippingMethod, zone_id: u128, subtotal: Dec) -> bool {
    &&& m.zone_id == zone_id
    &&& m.is_active
    &&& spec_amount_within(m, subtotal)
}

/// The price of a method for a request: zero when free; the price for a flat
/// rate; price times item count per item; price times total weight when
/// weight-based (the price alone without a weight); the price as a percentage
/// of the subtotal when price-based.
pub open spec fn method_price(m: ShippingMethod, req: ShippingRateRequest) -> Dec {
    match m.shipping_type {
        ShippingType::Free => dec_zero(),
        ShippingType::FlatRate => m.price@,
        ShippingType::PerItem => dec_mul(m.price@, Dec { m: req.item_count as int, s: 0 }),
        ShippingType::WeightBased => match req.total_weight {
            Some(w) => dec_mul(m.price@, w@),
            None => m.price@,
        },
        ShippingType::PriceBased => dec_percent_of(req.order_subtotal@, m.price@),
    }
}

/// The price of a method for a request stays within decimal precision.
pub open spec fn price_exact(m: ShippingMethod, req: ShippingRateRequest) -> bool {
    &&& dec_wf(m.price@)
    &&& dec_wf(req.order_subtotal@)
    &&& (req.total_weight matches Some(w) ==> dec_wf(w@))
    &&& match m.shipping_type {
        ShippingType::PerItem => mul_exact(m.price@, Dec { m: req.item_count as int, s: 0 }),
        ShippingType::WeightBased => (req.total_weight matches Some(w) ==> mul_exact(m.price@, w@)),
        ShippingType::PriceBased => percent_exact(req.order_subtotal@, m.price@),
        _ => true,
    }
}

/// The methods a zone offers for an order, in the given order.
pub open spec fn zone_methods(z: ShippingZone, ms: Seq<ShippingMethod>, subtotal: Dec) -> Seq<
    ShippingMethod,
> {
    ms.filter(|m: ShippingMethod| spec_method_available(m, z.id, subtotal))
}

/// The methods offered for an order, zone by zone in the given order.
pub open spec fn selected_methods(
    zs: Seq<ShippingZone>,
    ms: Seq<ShippingMethod>,
    country: Seq<char>,
    subtotal: Dec,
) -> Seq<ShippingMethod>
    decreases zs.len(),
{
    if zs.len() == 0 {
        Seq::empty()
    } else {
        let prev = selected_methods(zs.drop_last(), ms, country, subtotal);
        if spec_zone_matches(zs.last(), country) {
            prev + zone_methods(zs.last(), ms, subtotal)
        } else {
            prev
        }
    }
}

/// A rate reports method `m` at its price for the request.
pub open spec fn rate_for_method(r: ShippingRate, m: ShippingMethod, req: ShippingRateRequest) -> bool {
    &&& r.method_id == m.id
    &&& r.method_name == m.name
    &&& r.price@ == method_price(m, req)
    &&& r.price.wf()
    &&& r.estimated_days_min == m.estimated_days_min
    &&& r.estimated_days_max == m.estimated_days_max
    &&& r.description == m.description
}

/// The rates report the methods one for one, in order.
pub open spec fn rates_match(rs: Seq<ShippingRate>, ms: Seq<ShippingMethod>, req: ShippingRateRequest) -> bool {
    &&& rs.len() == ms.len()
    &&& forall|k: int| 0 <= k < ms.len() ==> rate_for_method(#[trigger] rs[k], ms[k], req)
}

/// The cheapest of the prices (the first of equally cheap ones), or zero when
/// there is none.
pub open spec fn seq_min(s: Seq<Dec>) -> Dec
    decreases s.len(),
{
    if s.len() == 0 {
        dec_zero()
    } else if s.len() == 1 {
        s[0]
    } else {
        let m = seq_min(s.drop_last());
        if dec_lt(s.last(), m) {
            s.last()
        } else {
            m
        }
    }
}

/// The request `calculate_for_order` prices with: the subtotal and item
/// count, no weight (its country is not used in prices).
pub open spec fn order_rate_request(order_subtotal: Money, item_count: i32) -> ShippingRateRequest {
    ShippingRateRequest {
        country: arbitrary(),
        state: None,
        postal_code: None,
        order_subtotal,
        total_weight: None,
        item_count,
    }
}

/// The shipping cost of an order: the cheapest price among the methods
/// offered for it, or zero when none is.
pub open spec fn spec_order_shipping(
    zs: Seq<ShippingZone>,
    ms: Seq<ShippingMethod>,
    country: Seq<char>,
    order_subtotal: Money,
    item_count: i32,
) -> Dec {
    seq_min(
        selected_methods(zs, ms, country, order_subtotal@).map_values(
            |m: ShippingMethod| method_price(m, order_rate_request(order_subtotal, item_count)),
        ),
    )
}

/// The prices of rates.
pub open spec fn rate_prices(rs: Seq<ShippingRate>) -> Seq<Dec> {
    rs.map_values(|r: ShippingRate| r.price@)
}

impl ShippingService {
    /// Whether a zone serves the country.
    pub fn zone_matches_country(zone: &ShippingZone, country: &str) -> (r: bool)
        ensures
            r == spec_zone_matches(*zone, country@),
    {
        if !zone.is_active {
            return false;
        }
        if zone.countries.len() == 0 {
            return true;
        }
        let c = country.to_owned();
        let mut i: usize = 0;
        while i < zone.countries.len()
            invariant
                i <= zone.countries@.len(),
                zone.is_active,
                c@ == country@,
                forall|j: int| 0 <= j < i ==> zone.countries@[j]@ != country@,
            decreases zone.countries@.len() - i,
        {
            if zone.countries[i] == c {
                assert(strings_view(zone.countries@)[i as int] == country@);
                assert(strings_view(zone.countries@).len() == zone.countries@.len());
                return true;
            }
            i = i + 1;
        }
        assert(!strings_view(zone.countries@).contains(country@)) by {
            if strings_view(zone.countries@).contains(country@) {
                let k = choose|k: int|
                    0 <= k < strings_view(zone.countries@).len() && strings_view(
                        zone.countries@,
                    )[k] == country@;
                assert(zone.countries@[k]@ == country@);
            }
        }
        false
    }

    /// Whether the order subtotal lies within the method's minimum and maximum.
    pub fn method_matches_order(method: &ShippingMethod, order_subtotal: &Money) -> (r: bool)
        requires
            order_subtotal.wf(),
            method.min_order_amount matches Some(x) ==> x.wf(),
            method.max_order_amount matches Some(x) ==> x.wf(),
        ensures
            r == spec_amount_within(*method, order_subtotal@),
    {
        let min_ok = match &method.min_order_amount {
            Some(min) => min.le(order_subtotal),
            None => true,
        };
        let max_ok = match &method.max_order_amount {
            Some(max) => order_subtotal.le(max),
            None => true,
        };
        min_ok && max_ok
    }

    /// Whether a method is offered in a zone for an order.
    pub fn method_available(method: &ShippingMethod, zone_id: u128, order_subtotal: &Money) -> (r:
        bool)
        requires
            order_subtotal.wf(),
            method.min_order_amount matches Some(x) ==> x.wf(),
            method.max_order_amount matches Some(x) ==> x.wf(),
        ensures
            r == spec_method_available(*method, zone_id, order_subtotal@),
    {
        method.zone_id == zone_id && method.is_active && Self::method_matches_order(
            method,
            order_subtotal,
        )
    }

    /// The shipping cost of a method for a request.
    pub fn calculate_method_price(method: &ShippingMethod, req: &ShippingRateRequest) -> (r: Money)
        requires
            price_exact(*method, *req),
        ensures
            r@ == method_price(*method, *req),
            r.wf(),
    {
        match method.shipping_type {
            ShippingType::Free => Money::zero(),
            ShippingType::FlatRate => method.price,
            ShippingType::PerItem => method.price.mul(&Money::from_i32(req.item_count)),
            ShippingType::WeightBased => match &req.total_weight {
                Some(weight) => method.price.mul(weight),
                None => method.price,
            },
            ShippingType::PriceBased => req.order_subtotal.percent_of(&method.price),
        }
    }

    /// The rates offered for a request: for every zone serving the country, in
    /// the given order, every method offered in it, in the given order.
    pub fn get_rates(
        zones: &Vec<ShippingZone>,
        methods: &Vec<ShippingMethod>,
        req: &ShippingRateRequest,
    ) -> (r: Vec<ShippingRate>)
        requires
            req.order_subtotal.wf(),
            forall|k: int|
                0 <= k < methods@.len() ==> {
                    &&& (#[trigger] methods@[k]).min_order_amount matches Some(x) ==> x.wf()
                    &&& methods@[k].max_order_amount matches Some(x) ==> x.wf()
                },
            forall|m: ShippingMethod|
                selected_methods(zones@, methods@, req.country@, req.order_subtotal@).contains(m)
                    ==> price_exact(m, *req),
        ensures
            rates_match(
                r@,
                selected_methods(zones@, methods@, req.country@, req.order_subtotal@),
                *req,
            ),
    {
        let ghost country = req.country@;
        let ghost sub = req.order_subtotal@;
        let mut rates: Vec<ShippingRate> = Vec::new();
        let mut i: usize = 0;
        while i < zones.len()
            invariant
                i <= zones@.len(),
                country == req.country@,
                sub == req.order_subtotal@,
                req.order_subtotal.wf(),
                forall|k: int|
                    0 <= k < methods@.len() ==> {
                        &&& (#[trigger] methods@[k]).min_order_amount matches Some(x) ==> x.wf()
                        &&& methods@[k].max_order_amount matches Some(x) ==> x.wf()
                    },
                forall|m: ShippingMethod|
                    selected_methods(zones@, methods@, country, sub).contains(m) ==> price_exact(
                        m,
                        *req,
                    ),
                rates_match(
                    rates@,
                    selected_methods(zones@.take(i as int), methods@, country, sub),
                    *req,
                ),
            decreases zones@.len() - i,
        {
            let zone = &zones[i];
            let ghost prev = selected_methods(zones@.take(i as int), methods@, country, sub);
            assert(zones@.take(i + 1).drop_last() =~= zones@.take(i as int));
            assert(zones@.take(i + 1).last() == zones@[i as int]);
            proof {
                lemma_selected_prefix(zones@, methods@, country, sub, (i + 1) as nat);
            }
            if Self::zone_matches_country(zone, req.country.as_str()) {
                let mut j: usize = 0;
                while j < methods.len()
                    invariant
                        i < zones@.len(),
                        j <= methods@.len(),
                        zone == zones@[i as int],
                        spec_zone_matches(*zone, country),
                        country == req.country@,
                        sub == req.order_subtotal@,
                        req.order_subtotal.wf(),
                        prev == selected_methods(zones@.take(i as int), methods@, country, sub),
                        forall|k: int|
                            0 <= k < methods@.len() ==> {
                                &&& (#[trigger] methods@[k]).min_order_amount matches Some(x)
                                    ==> x.wf()
                                &&& methods@[k].max_order_amount matches Some(x) ==> x.wf()
                            },
                        forall|m: ShippingMethod|
                            selected_methods(zones@, methods@, country, sub).contains(m)
                                ==> price_exact(m, *req),
                        forall|m: ShippingMethod|
                            (prev + zone_methods(*zone, methods@, sub)).contains(m)
                                ==> selected_methods(zones@, methods@, country, sub).contains(m),
                        rates_match(
                            rates@,
                            prev + zone_methods(*zone, methods@.take(j as int), sub),
                            *req,
                        ),
                    decreases methods@.len() - j,
                {
                    let method = &methods[j];
                    let ghost pred = |m: ShippingMethod|
                        spec_method_available(m, zone.id, sub);
                    assert(methods@.take(j + 1).drop_last() =~= methods@.take(j as int));
                    assert(methods@.take(j + 1).last() == methods@[j as int]);
                    proof {
                        reveal_with_fuel(Seq::<ShippingMethod>::filter, 1);
                    }
                    assert(methods@[j as int].min_order_amount matches Some(x) ==> x.wf());
                    if Self::method_available(method, zone.id, &req.order_subtotal) {
                        let ghost target = prev + zone_methods(
                            *zone,
                            methods@.take(j + 1),
                            sub,
                        );
                        assert(target =~= (prev + zone_methods(
                            *zone,
                            methods@.take(j as int),
                            sub,
                        )).push(*method));
                        assert(zone_methods(*zone, methods@, sub).contains(*method)) by {
                            lemma_filter_contains(methods@, pred, j as int);
                        }
                        assert((prev + zone_methods(*zone, methods@, sub)).contains(*method)) by {
                            let zm = zone_methods(*zone, methods@, sub);
                            let k = choose|k: int| 0 <= k < zm.len() && zm[k] == *method;
                            assert((prev + zm)[prev.len() + k] == *method);
                        }
                        let price = Self::calculate_method_price(method, req);
                        let description = match &method.description {
                            Some(d) => Some(d.clone()),
                            None => None,
                        };
                        let rate = ShippingRate {
                            method_id: method.id,
                            method_name: method.name.clone(),
                            price,
                            estimated_days_min: method.estimated_days_min,
                            estimated_days_max: method.estimated_days_max,
                            description,
                        };
                        let ghost old_rates = rates@;
                        rates.push(rate);
                        assert forall|k: int| 0 <= k < target.len() implies rate_for_method(
                            #[trigger] rates@[k],
                            target[k],
                            *req,
                        ) by {
                            if k < target.len() - 1 {
                                assert(rates@[k] == old_rates[k]);
                            }
                        }
                    } else {
                        assert(prev + zone_methods(*zone, methods@.take(j + 1), sub) =~= prev
                            + zone_methods(*zone, methods@.take(j as int), sub));
                    }
                    j = j + 1;
                }
                assert(methods@.take(methods@.len() as int) =~= methods@);
            } else {
            }
            i = i + 1;
        }
        assert(zones@.take(zones@.len() as int) =~= zones@);
        rates
    }

    /// The cheapest rate price, or zero when no rate is offered.
    pub fn cheapest_price(rates: &Vec<ShippingRate>) -> (r: Money)
        requires
            forall|k: int| 0 <= k < rates@.len() ==> (#[trigger] rates@[k]).price.wf(),
        ensures
            r@ == seq_min(rate_prices(rates@)),
            r.wf(),
    {
        let ghost ps = rate_prices(rates@);
        if rates.len() == 0 {
            return Money::zero();
        }
        let mut best = rates[0].price;
        assert(ps.take(1) =~= seq![ps[0]]);
        let mut i: usize = 1;
        while i < rates.len()
            invariant
                1 <= i <= rates@.len(),
                ps == rate_prices(rates@),
                forall|k: int| 0 <= k < rates@.len() ==> (#[trigger] rates@[k]).price.wf(),
                best@ == seq_min(ps.take(i as int)),
                best.wf(),
            decreases rates@.len() - i,
        {
            assert(ps.take(i + 1).drop_last() =~= ps.take(i as int));
            assert(ps.take(i + 1).last() == rates@[i as int].price@);
            if rates[i].price.lt(&best) {
                best = rates[i].price;
            }
            i = i + 1;
        }
        assert(ps.take(rates@.len() as int) =~= ps);
        best
    }

    /// The shipping cost at checkout: the cheapest rate offered for the
    /// country, subtotal and item count (no weight), or zero when no zone or
    /// method applies.
    pub fn calculate_for_order(
        zones: &Vec<ShippingZone>,
        methods: &Vec<ShippingMethod>,
        country: &str,
        state: Option<&str>,
        order_subtotal: Money,
        item_count: i32,
    ) -> (r: Money)
        requires
            order_subtotal.wf(),
            forall|k: int|
                0 <= k < methods@.len() ==> {
                    &&& (#[trigger] methods@[k]).min_order_amount matches Some(x) ==> x.wf()
                    &&& methods@[k].max_order_amount matches Some(x) ==> x.wf()
                },
            forall|m: ShippingMethod|
                selected_methods(zones@, methods@, country@, order_subtotal@).contains(m)
                    ==> price_exact(m, order_rate_request(order_subtotal, item_count)),
        ensures
            r@ == spec_order_shipping(zones@, methods@, country@, order_subtotal, item_count),
    {
        let req = ShippingRateRequest {
            country: country.to_owned(),
            state: match state {
                Some(s) => Some(s.to_owned()),
                None => None,
            },
            postal_code: None,
            order_subtotal,
            total_weight: None,
            item_count,
        };
        let ghost sel = selected_methods(zones@, methods@, country@, order_subtotal@);
        let ghost creq0 = order_rate_request(order_subtotal, item_count);
        assert forall|m: ShippingMethod| sel.contains(m) implies price_exact(m, req) by {
            assert(price_exact(m, creq0));
        }
        let rates = Self::get_rates(zones, methods, &req);
        assert forall|k: int| 0 <= k < rates@.len() implies (#[trigger] rates@[k]).price.wf() by {
            assert(rate_for_method(rates@[k], sel[k], req));
        }
        let r = Self::cheapest_price(&rates);
        let ghost creq = order_rate_request(order_subtotal, item_count);
        assert(rate_prices(rates@) =~= sel.map_values(|m: ShippingMethod| method_price(m, creq))) by {
            assert forall|k: int| 0 <= k < sel.len() implies rate_prices(rates@)[k] == sel.map_values(
                |m: ShippingMethod| method_price(m, creq),
            )[k] by {
                assert(rate_for_method(rates@[k], sel[k], req));
            }
        }
        r
    }
}

proof fn lemma_filter_contains<A>(s: Seq<A>, pred: spec_fn(A) -> bool, j: int)
    requires
        0 <= j < s.len(),
        pred(s[j]),
    ensures
        s.filter(pred).contains(s[j]),
{
    broadcast use vstd::seq_lib::group_filter_ensures;

}

/// The methods selected from the first `n` zones are a prefix of the whole selection.
proof fn lemma_selected_prefix(
    zs: Seq<ShippingZone>,
    ms: Seq<ShippingMethod>,
    country: Seq<char>,
    sub: Dec,
    n: nat,
)
    requires
        n <= zs.len(),
    ensures
        forall|m: ShippingMethod|
            selected_methods(zs.take(n as int), ms, country, sub).contains(m)
                ==> selected_methods(zs, ms, country, sub).contains(m),
    decreases zs.len() - n,
{
    if n < zs.len() {
        lemma_selected_prefix(zs, ms, country, sub, n + 1);
        assert(zs.take((n + 1) as int).drop_last() =~= zs.take(n as int));
        assert forall|m: ShippingMethod|
            selected_methods(zs.take(n as int), ms, country, sub).contains(m) implies selected_methods(
            zs.take((n + 1) as int),
            ms,
            country,
            sub,
        ).contains(m) by {
            let prev = selected_methods(zs.take(n as int), ms, country, sub);
            if spec_zone_matches(zs.take((n + 1) as int).last(), country) {
                let k = choose|k: int| 0 <= k < prev.len() && prev[k] == m;
                let zm = zone_methods(zs.take((n + 1) as int).last(), ms, sub);
                assert((prev + zm)[k] == m);
            }
        }
    } else {
        assert(zs.take(n as int) =~= zs);
    }
}

/// The cheapest price is at most every offered price, and is one of them.
pub proof fn law_cheapest_is_minimum(s: Seq<Dec>)
    requires
        s.len() > 0,
    ensures
        forall|i: int| 0 <= i < s.len() ==> dec_le(seq_min(s), #[trigger] s[i]),
        exists|i: int| 0 <= i < s.len() && seq_min(s) == s[i],
    decreases s.len(),
{
    if s.len() == 1 {
        lemma_le_refl(s[0]);
        assert(seq_min(s) == s[0]);
    } else {
        let t = s.drop_last();
        law_cheapest_is_minimum(t);
        let m = seq_min(t);
        let x = s.last();
        assert forall|i: int| 0 <= i < s.len() implies dec_le(seq_min(s), #[trigger] s[i]) by {
            if i < s.len() - 1 {
                assert(s[i] == t[i]);
                assert(dec_le(m, t[i]));
                if dec_lt(x, m) {
                    assert(dec_le(x, m));
                    lemma_le_trans(x, m, t[i]);
                }
            } else {
                lemma_le_refl(x);
            }
        }
        let k = choose|k: int| 0 <= k < t.len() && m == t[k];
        if dec_lt(x, m) {
            assert(seq_min(s) == s[s.len() - 1]);
        } else {
            assert(seq_min(s) == s[k]);
        }
    }
}

/// Every method offered for an order is one of the given methods, active,
/// belongs to an active zone among the given ones, and its minimum and
/// maximum order amounts, where set, bound the order subtotal.
pub proof fn law_offered_methods_fit_order(
    zs: Seq<ShippingZone>,
    ms: Seq<ShippingMethod>,
    country: Seq<char>,
    subtotal: Dec,
    m: ShippingMethod,
)
    requires
        selected_methods(zs, ms, country, subtotal).contains(m),
    ensures
        ms.contains(m),
        m.is_active,
        m.min_order_amount matches Some(min) ==> dec_le(min@, subtotal),
        m.max_order_amount matches Some(max) ==> dec_le(subtotal, max@),
        exists|k: int| 0 <= k < zs.len() && zs[k].id == m.zone_id && zs[k].is_active,
    decreases zs.len(),
{
    if zs.len() > 0 {
        let prev = selected_methods(zs.drop_last(), ms, country, subtotal);
        let z = zs.last();
        let pred = |x: ShippingMethod| spec_method_available(x, z.id, subtotal);
        if prev.contains(m) {
            law_offered_methods_fit_order(zs.drop_last(), ms, country, subtotal, m);
            let k = choose|k: int|
                0 <= k < zs.drop_last().len() && zs.drop_last()[k].id == m.zone_id
                    && zs.drop_last()[k].is_active;
            assert(zs[k] == zs.drop_last()[k]);
        } else {
            assert(spec_zone_matches(z, country));
            let zm = zone_methods(z, ms, subtotal);
            assert(selected_methods(zs, ms, country, subtotal) == prev + zm);
            let j = choose|j: int|
                0 <= j < (prev + zm).len() && (prev + zm)[j] == m;
            if j < prev.len() {
                assert(prev[j] == m);
            }
            assert(zm[j - prev.len()] == m);
            assert(zm.contains(m));
            ms.lemma_filter_contains_rev(pred, m);
            ms.filter_lemma(pred);
            assert(pred(zm[j - prev.len()]));
            assert(zs[zs.len() - 1] == z);
        }
    }
}

} // verus!
