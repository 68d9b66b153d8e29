//! The quote engine: computing a destination amount for one provider, the
//! full quote set over all providers, and the best quote in a set.

use crate::catalog::{Catalog, Provider};
use crate::error::SwapError;
use crate::fixed::{amount_val, parse_amount, amount_wf, AMOUNT_MAX, FACTOR_MAX, RATE_MAX, SCALE};
use vstd::prelude::*;

verus! {

/// One computed quote: a provider's name and the destination amount it
/// offers, fixed-point.
#[derive(Debug)]
pub struct Quote {
    pub provider: String,
    pub amount: u128,
}

/// All quotes computed in one refresh, one entry per provider that computed
/// one, in provider order, keyed by provider name (unique).
#[derive(Debug)]
pub struct QuoteSet {
    pub entries: Vec<Quote>,
}

/// Whether an amount string denotes a positive well-formed amount.
pub open spec fn spec_amount_ok(s: Seq<char>) -> bool {
    amount_wf(s) && amount_val(s) > 0
}

/// The destination amount for a parsed amount, a base rate and a provider
/// factor: their product, scaled back down (rounding toward zero).
pub open spec fn spec_quote_val(a: int, rate: int, factor: int) -> int {
    (a * rate * factor) / ((SCALE * SCALE) as int)
}

/// Whether provider `p` individually computes a quote for these inputs. The
/// catalog's rate table is total, so validity does not depend on `p`: a quote
/// fails only on a bad amount or an unknown symbol, for every provider alike.
pub open spec fn spec_quote_ok(
    cat: Catalog,
    source: Seq<char>,
    destination: Seq<char>,
    amount: Seq<char>,
    p: int,
) -> bool {
    &&& 0 <= p < cat.k()
    &&& spec_amount_ok(amount)
    &&& cat.has_symbol(source)
    &&& cat.has_symbol(destination)
}

/// How many of the first `upto` providers individually compute a quote.
pub open spec fn spec_ok_count(
    cat: Catalog,
    source: Seq<char>,
    destination: Seq<char>,
    amount: Seq<char>,
    upto: int,
) -> int
    decreases upto,
{
    if upto <= 0 {
        0
    } else {
        spec_ok_count(cat, source, destination, amount, upto - 1) + if spec_quote_ok(
            cat,
            source,
            destination,
            amount,
            upto - 1,
        ) {
            1int
        } else {
            0int
        }
    }
}

/// The quote entries of the first `upto` providers, as (name, amount) pairs,
/// for source asset `i`, destination asset `j` and parsed amount `a`.
pub open spec fn spec_quote_entries(cat: Catalog, i: int, j: int, a: int, upto: int) -> Seq<
    (Seq<char>, u128),
>
    decreases upto,
{
    if upto <= 0 {
        Seq::empty()
    } else {
        spec_quote_entries(cat, i, j, a, upto - 1).push(
            (
                cat.spec_provider_name(upto - 1),
                spec_quote_val(a, cat.spec_rate(i, j), cat.spec_factor(upto - 1)) as u128,
            ),
        )
    }
}

/// The contents of a quote set, as (name, amount) pairs.
pub open spec fn qs_view(qs: QuoteSet) -> Seq<(Seq<char>, u128)> {
    qs.entries@.map_values(|q: Quote| (q.provider@, q.amount))
}

/// Provider names in a quote set are unique.
pub open spec fn qs_wf(qs: QuoteSet) -> bool {
    forall|p: int, q: int|
        0 <= p < q < qs.entries@.len() ==> (#[trigger] qs.entries@[p].provider@) != (
        #[trigger] qs.entries@[q].provider@)
}

pub proof fn lemma_quote_entries_len(cat: Catalog, i: int, j: int, a: int, upto: int)
    requires
        upto >= 0,
    ensures
        spec_quote_entries(cat, i, j, a, upto).len() == upto,
    decreases upto,
{
    if upto > 0 {
        lemma_quote_entries_len(cat, i, j, a, upto - 1);
    }
}

pub proof fn lemma_quote_entries_index(cat: Catalog, i: int, j: int, a: int, upto: int, p: int)
    requires
        0 <= p < upto,
    ensures
        spec_quote_entries(cat, i, j, a, upto).len() == upto,
        spec_quote_entries(cat, i, j, a, upto)[p] == (
            cat.spec_provider_name(p),
            spec_quote_val(a, cat.spec_rate(i, j), cat.spec_factor(p)) as u128,
        ),
    decreases upto,
{
    lemma_quote_entries_len(cat, i, j, a, upto);
    if p < upto - 1 {
        lemma_quote_entries_index(cat, i, j, a, upto - 1, p);
    }
}

/// The product of a bounded amount, rate and factor stays below two to the
/// hundred and twenty-seventh, and the scaled-down quote is bounded too.
pub proof fn lemma_quote_val_bounds(a: int, rate: int, factor: int)
    requires
        0 <= a <= AMOUNT_MAX,
        0 < rate <= RATE_MAX,
        0 < factor <= FACTOR_MAX,
    ensures
        0 <= a * rate <= (AMOUNT_MAX as int) * (RATE_MAX as int),
        0 <= a * rate * factor <= (AMOUNT_MAX as int) * (RATE_MAX as int) * (FACTOR_MAX as int),
        0 <= spec_quote_val(a, rate, factor) <= (AMOUNT_MAX as int) * (RATE_MAX as int) * (
        FACTOR_MAX as int),
{
    assert(0 <= a * rate <= (AMOUNT_MAX as int) * (RATE_MAX as int)) by (nonlinear_arith)
        requires
            0 <= a <= AMOUNT_MAX,
            0 < rate <= RATE_MAX,
    ;
    assert(0 <= a * rate * factor <= (AMOUNT_MAX as int) * (RATE_MAX as int) * (FACTOR_MAX as int))
        by (nonlinear_arith)
        requires
            0 <= a * rate <= (AMOUNT_MAX as int) * (RATE_MAX as int),
            0 < factor <= FACTOR_MAX,
    ;
}

/// The quote offered by one provider for asset indices `i` and `j` and the
/// positive parsed amount `value`.
pub fn quote_indexed(cat: &Catalog, i: usize, j: usize, value: u64, provider: &Provider) -> (q:
    u128)
    requires
        cat.wf(),
        i < cat.n(),
        j < cat.n(),
        0 < value <= AMOUNT_MAX,
        0 < provider.factor <= FACTOR_MAX,
    ensures
        q == spec_quote_val(value as int, cat.spec_rate(i as int, j as int), provider.factor as int),
{
    let rate = cat.rate(i, j);
    proof {
        lemma_quote_val_bounds(value as int, rate as int, provider.factor as int);
    }
    let p1: u128 = (value as u128) * (rate as u128);
    let p2: u128 = p1 * (provider.factor as u128);
    p2 / ((SCALE as u128) * (SCALE as u128))
}

/// Computes the quote offered by `provider` for swapping `amount` of the
/// asset carrying `source` into the asset carrying `destination`. Fails with
/// `InvalidAmount` exactly when the amount string does not denote a positive
/// well-formed amount; otherwise fails with `UnknownAsset` exactly when
/// either symbol is not in the catalog; otherwise returns the amount times
/// the base rate times the provider's factor.
pub fn quote(
    cat: &Catalog,
    source: &str,
    destination: &str,
    amount: &str,
    provider: &Provider,
) -> (r: Result<u128, SwapError>)
    requires
        cat.wf(),
        0 < provider.factor <= FACTOR_MAX,
    ensures
        !spec_amount_ok(amount@) ==> r == Err::<u128, SwapError>(SwapError::InvalidAmount),
        spec_amount_ok(amount@) && !(cat.has_symbol(source@) && cat.has_symbol(destination@)) ==> r
            == Err::<u128, SwapError>(SwapError::UnknownAsset),
        spec_amount_ok(amount@) && cat.has_symbol(source@) && cat.has_symbol(destination@)
            ==> forall|i: int, j: int|
            0 <= i < cat.n() && 0 <= j < cat.n() && cat.spec_symbol(i) == source@
                && cat.spec_symbol(j) == destination@ ==> r == Ok::<u128, SwapError>(
                spec_quote_val(
                    amount_val(amount@),
                    cat.spec_rate(i, j),
                    provider.factor as int,
                ) as u128,
            ),
{
    let parsed = parse_amount(amount);
    let value = match parsed {
        None => {
            return Err(SwapError::InvalidAmount);
        },
        Some(v) => v,
    };
    if value == 0 {
        return Err(SwapError::InvalidAmount);
    }
    let i = match cat.asset_index(source) {
        None => {
            return Err(SwapError::UnknownAsset);
        },
        Some(i) => i,
    };
    let j = match cat.asset_index(destination) {
        None => {
            return Err(SwapError::UnknownAsset);
        },
        Some(j) => j,
    };
    Ok(quote_indexed(cat, i, j, value, provider))
}

/// With a total rate table, either every provider computes a quote or none
/// does.
pub proof fn lemma_ok_count_total(
    cat: Catalog,
    source: Seq<char>,
    destination: Seq<char>,
    amount: Seq<char>,
    upto: int,
)
    requires
        0 <= upto <= cat.k(),
    ensures
        (spec_amount_ok(amount) && cat.has_symbol(source) && cat.has_symbol(destination))
            ==> spec_ok_count(cat, source, destination, amount, upto) == upto,
        !(spec_amount_ok(amount) && cat.has_symbol(source) && cat.has_symbol(destination))
            ==> spec_ok_count(cat, source, destination, amount, upto) == 0,
    decreases upto,
{
    if upto > 0 {
        lemma_ok_count_total(cat, source, destination, amount, upto - 1);
    }
}

/// Computes the quote of every provider in the catalog for the given symbols
/// and amount string, discarding providers that fail. The result holds one
/// entry per provider that individually computes a quote, in provider order;
/// with this catalog design that is every provider when the inputs are good,
/// and none otherwise.
pub fn quote_all(cat: &Catalog, source: &str, destination: &str, amount: &str) -> (r: QuoteSet)
    requires
        cat.wf(),
    ensures
        qs_wf(r),
        r.entries@.len() == spec_ok_count(*cat, source@, destination@, amount@, cat.k()),
        (spec_amount_ok(amount@) && cat.has_symbol(source@) && cat.has_symbol(destination@))
            ==> forall|i: int, j: int|
            0 <= i < cat.n() && 0 <= j < cat.n() && cat.spec_symbol(i) == source@
                && cat.spec_symbol(j) == destination@ ==> qs_view(r) == spec_quote_entries(
                *cat,
                i,
                j,
                amount_val(amount@),
                cat.k(),
            ),
        !(spec_amount_ok(amount@) && cat.has_symbol(source@) && cat.has_symbol(destination@)) ==> r.entries@.len() == 0,
{
    proof {
        lemma_ok_count_total(*cat, source@, destination@, amount@, cat.k());
    }
    let parsed = parse_amount(amount);
    let value: u64 = match parsed {
        None => {
            let entries: Vec<Quote> = Vec::new();
            return QuoteSet { entries };
        },
        Some(v) => v,
    };
    if value == 0 {
        let entries: Vec<Quote> = Vec::new();
        return QuoteSet { entries };
    }
    let i = match cat.asset_index(source) {
        None => {
            let entries: Vec<Quote> = Vec::new();
            return QuoteSet { entries };
        },
        Some(i) => i,
    };
    let j = match cat.asset_index(destination) {
        None => {
            let entries: Vec<Quote> = Vec::new();
            return QuoteSet { entries };
        },
        Some(j) => j,
    };
    let k = cat.providers.len();
    let mut entries: Vec<Quote> = Vec::new();
    let mut p: usize = 0;
    while p < k
        invariant
            0 <= p <= k,
            k == cat.k(),
            cat.wf(),
            i < cat.n(),
            j < cat.n(),
            0 < value <= AMOUNT_MAX,
            value == amount_val(amount@),
            entries@.len() == p,
            entries@.map_values(|q: Quote| (q.provider@, q.amount)) == spec_quote_entries(
                *cat,
                i as int,
                j as int,
                value as int,
                p as int,
            ),
        decreases k - p,
    {
        let name = cat.providers[p].name.clone();
        let q = quote_indexed(cat, i, j, value, &cat.providers[p]);
        entries.push(Quote { provider: name, amount: q });
        proof {
            assert(entries@.map_values(|q: Quote| (q.provider@, q.amount)) =~= spec_quote_entries(
                *cat,
                i as int,
                j as int,
                value as int,
                p + 1,
            ));
        }
        p = p + 1;
    }
    let r = QuoteSet { entries };
    proof {
        assert forall|a: int, b: int| 0 <= a < b < r.entries@.len() implies (
        #[trigger] r.entries@[a].provider@) != (#[trigger] r.entries@[b].provider@) by {
            lemma_quote_entries_index(*cat, i as int, j as int, value as int, k as int, a);
            lemma_quote_entries_index(*cat, i as int, j as int, value as int, k as int, b);
            assert(qs_view(r)[a] == (r.entries@[a].provider@, r.entries@[a].amount));
            assert(qs_view(r)[b] == (r.entries@[b].provider@, r.entries@[b].amount));
        }
        assert forall|i2: int, j2: int|
            0 <= i2 < cat.n() && 0 <= j2 < cat.n() && cat.spec_symbol(i2) == source@
                && cat.spec_symbol(j2) == destination@ implies qs_view(r) == spec_quote_entries(
            *cat,
            i2,
            j2,
            amount_val(amount@),
            cat.k(),
        ) by {
            assert(i2 == i) by {
                if i2 != i {
                    assert(cat.spec_symbol(i2) == cat.spec_symbol(i as int));
                }
            }
            assert(j2 == j) by {
                if j2 != j {
                    assert(cat.spec_symbol(j2) == cat.spec_symbol(j as int));
                }
            }
        }
    }
    r
}

/// The index of the largest amount among the first `upto` entries, ties
/// resolved to the earliest entry.
pub open spec fn best_index(entries: Seq<(Seq<char>, u128)>, upto: int) -> int
    decreases upto,
{
    if upto <= 1 {
        0
    } else {
        let b = best_index(entries, upto - 1);
        if entries[upto - 1].1 > entries[b].1 {
            upto - 1
        } else {
            b
        }
    }
}

/// The index of the best quote in a set of entries, if any.
pub open spec fn spec_best_of(entries: Seq<(Seq<char>, u128)>) -> Option<int> {
    if entries.len() == 0 {
        None
    } else {
        Some(best_index(entries, entries.len() as int))
    }
}

/// The best index dominates every entry before `upto` and strictly dominates
/// every entry before itself.
pub proof fn lemma_best_index_props(entries: Seq<(Seq<char>, u128)>, upto: int)
    requires
        1 <= upto <= entries.len(),
    ensures
        0 <= best_index(entries, upto) < upto,
        forall|j: int| 0 <= j < upto ==> (#[trigger] entries[j].1) <= entries[best_index(
            entries,
            upto,
        )].1,
        forall|j: int| 0 <= j < best_index(entries, upto) ==> (#[trigger] entries[j].1)
            < entries[best_index(entries, upto)].1,
    decreases upto,
{
    if upto > 1 {
        lemma_best_index_props(entries, upto - 1);
    }
}

impl QuoteSet {
    /// An empty quote set.
    pub fn new() -> (r: QuoteSet)
        ensures
            r.entries@.len() == 0,
            qs_wf(r),
    {
        QuoteSet { entries: Vec::new() }
    }

    /// The number of quotes in the set.
    pub fn len(&self) -> (r: usize)
        ensures
            r == self.entries@.len(),
    {
        self.entries.len()
    }

    /// The index of the best quote: the entry with the numerically largest
    /// amount, ties resolved to the earliest entry (so, in a set built by
    /// `quote_all`, to the provider listed first in the catalog). Returns
    /// nothing exactly when the set is empty.
    pub fn best(&self) -> (r: Option<usize>)
        ensures
            r == match spec_best_of(qs_view(*self)) {
                Some(b) => Some(b as usize),
                None => None::<usize>,
            },
            match r {
                None => self.entries@.len() == 0,
                Some(b) => {
                    &&& 0 <= b < self.entries@.len()
                    &&& forall|j: int|
                        0 <= j < self.entries@.len() ==> (#[trigger] self.entries@[j].amount)
                            <= self.entries@[b as int].amount
                    &&& forall|j: int|
                        0 <= j < b ==> (#[trigger] self.entries@[j].amount)
                            < self.entries@[b as int].amount
                },
            },
    {
        let n = self.entries.len();
        if n == 0 {
            return None;
        }
        let ghost view = qs_view(*self);
        let mut b: usize = 0;
        let mut idx: usize = 1;
        while idx < n
            invariant
                0 <= b < idx <= n,
                n == self.entries@.len(),
                view == qs_view(*self),
                view.len() == n,
                b == best_index(view, idx as int),
                forall|x: int| 0 <= x < n ==> (#[trigger] view[x].1) == self.entries@[x].amount,
            decreases n - idx,
        {
            if self.entries[idx].amount > self.entries[b].amount {
                b = idx;
            }
            idx = idx + 1;
        }
        proof {
            lemma_best_index_props(view, n as int);
            assert forall|j: int|
                0 <= j < self.entries@.len() implies (#[trigger] self.entries@[j].amount)
                <= self.entries@[b as int].amount by {
                assert(view[j].1 <= view[b as int].1);
            }
            assert forall|j: int| 0 <= j < b implies (#[trigger] self.entries@[j].amount)
                < self.entries@[b as int].amount by {
                assert(view[j].1 < view[b as int].1);
            }
        }
        Some(b)
    }
}

impl QuoteSet {
    /// The best quote as a (provider name, amount) pair: the entry `best`
    /// points at. Returns nothing exactly when the set is empty.
    pub fn best_quote(&self) -> (r: Option<(&String, u128)>)
        ensures
            r is Some <==> self.entries@.len() > 0,
            match r {
                Some((name, amount)) => {
                    let b = spec_best_of(qs_view(*self)).unwrap();
                    &&& name@ == qs_view(*self)[b].0
                    &&& amount == qs_view(*self)[b].1
                },
                None => self.entries@.len() == 0,
            },
    {
        let n = self.entries.len();
        match self.best() {
            Some(b) => {
                proof {
                    let view = qs_view(*self);
                    assert(view.len() == n);
                    lemma_best_index_props(view, view.len() as int);
                    assert(view[b as int] == (
                        self.entries@[b as int].provider@,
                        self.entries@[b as int].amount,
                    ));
                }
                Some((&self.entries[b].provider, self.entries[b].amount))
            },
            None => None,
        }
    }
}

/// The best index is pinned uniquely by its contract: any two indices that
/// both dominate the set and strictly dominate their prefix are equal. The
/// tie-break is therefore deterministic.
pub proof fn lemma_best_unique(qs: QuoteSet, b1: int, b2: int)
    requires
        0 <= b1 < qs.entries@.len(),
        0 <= b2 < qs.entries@.len(),
        forall|j: int|
            0 <= j < qs.entries@.len() ==> (#[trigger] qs.entries@[j].amount)
                <= qs.entries@[b1].amount,
        forall|j: int| 0 <= j < b1 ==> (#[trigger] qs.entries@[j].amount) < qs.entries@[b1].amount,
        forall|j: int|
            0 <= j < qs.entries@.len() ==> (#[trigger] qs.entries@[j].amount)
                <= qs.entries@[b2].amount,
        forall|j: int| 0 <= j < b2 ==> (#[trigger] qs.entries@[j].amount) < qs.entries@[b2].amount,
    ensures
        b1 == b2,
{
    if b1 < b2 {
        assert(qs.entries@[b1].amount < qs.entries@[b2].amount);
        assert(qs.entries@[b2].amount <= qs.entries@[b1].amount);
    }
    if b2 < b1 {
        assert(qs.entries@[b2].amount < qs.entries@[b1].amount);
        assert(qs.entries@[b1].amount <= qs.entries@[b2].amount);
    }
}

} // verus!
