//! The static asset and provider catalog: tradable assets with reference
//! prices, pairwise exchange rates, and quote providers with their rate
//! adjustment factors. The catalog is loaded once and read everywhere else.

use crate::fixed::{FACTOR_MAX, RATE_MAX, SCALE};
use crate::text::str_eq;
use vstd::prelude::*;

verus! {

/// A tradable asset: a unique symbol and a positive reference price
/// (fixed-point, in dollars).
#[derive(Debug)]
pub struct Asset {
    pub symbol: String,
    pub price: u64,
}

/// A quote provider: a unique name and a positive rate adjustment factor
/// (fixed-point; `SCALE` means the base rate is used unchanged).
#[derive(Debug)]
pub struct Provider {
    pub name: String,
    pub factor: u64,
}

/// The catalog: assets, a row-major square table of pairwise exchange rates
/// (fixed-point), and providers.
#[derive(Debug)]
pub struct Catalog {
    pub assets: Vec<Asset>,
    pub rates: Vec<u64>,
    pub providers: Vec<Provider>,
}

/// Well-formedness of catalog contents: at least one asset, a complete rate
/// table with positive bounded entries and a unit diagonal, positive prices,
/// bounded positive factors, and unique symbols and provider names.
pub open spec fn parts_wf(assets: Seq<Asset>, rates: Seq<u64>, providers: Seq<Provider>) -> bool {
    let n = assets.len() as int;
    &&& n >= 1
    &&& rates.len() == n * n
    &&& (forall|i: int| 0 <= i < n ==> (#[trigger] assets[i].price) > 0)
    &&& (forall|i: int| 0 <= i < n ==> (#[trigger] assets[i].symbol@).len() > 0)
    &&& (forall|p: int|
        0 <= p < providers.len() ==> (#[trigger] providers[p].name@).len() > 0)
    &&& (forall|i: int, j: int|
        0 <= i < j < n ==> (#[trigger] assets[i].symbol@) != (#[trigger] assets[j].symbol@))
    &&& (forall|r: int| 0 <= r < rates.len() ==> 0 < (#[trigger] rates[r]) <= RATE_MAX)
    &&& (forall|i: int| 0 <= i < n ==> rates[#[trigger] (i * n + i)] == SCALE)
    &&& (forall|p: int| 0 <= p < providers.len() ==> 0 < (#[trigger] providers[p].factor) <= FACTOR_MAX)
    &&& (forall|p: int, q: int|
        0 <= p < q < providers.len() ==> (#[trigger] providers[p].name@) != (
        #[trigger] providers[q].name@))
}

impl Catalog {
    /// Number of assets.
    pub open spec fn n(&self) -> int {
        self.assets@.len() as int
    }

    /// Number of providers.
    pub open spec fn k(&self) -> int {
        self.providers@.len() as int
    }

    /// The symbol of asset `i`.
    pub open spec fn spec_symbol(&self, i: int) -> Seq<char> {
        self.assets@[i].symbol@
    }

    /// The reference price of asset `i`.
    pub open spec fn spec_price(&self, i: int) -> int {
        self.assets@[i].price as int
    }

    /// The base exchange rate from asset `i` to asset `j`.
    pub open spec fn spec_rate(&self, i: int, j: int) -> int {
        self.rates@[i * self.n() + j] as int
    }

    /// The name of provider `p`.
    pub open spec fn spec_provider_name(&self, p: int) -> Seq<char> {
        self.providers@[p].name@
    }

    /// The adjustment factor of provider `p`.
    pub open spec fn spec_factor(&self, p: int) -> int {
        self.providers@[p].factor as int
    }

    /// Whether some asset carries the symbol `s`.
    pub open spec fn has_symbol(&self, s: Seq<char>) -> bool {
        exists|i: int| 0 <= i < self.n() && self.spec_symbol(i) == s
    }

    /// Catalog well-formedness.
    pub open spec fn wf(&self) -> bool {
        parts_wf(self.assets@, self.rates@, self.providers@)
    }

    /// The ordered list of assets.
    pub fn list_assets(&self) -> (r: &Vec<Asset>)
        ensures
            r == &self.assets,
    {
        &self.assets
    }

    /// The ordered list of providers.
    pub fn list_providers(&self) -> (r: &Vec<Provider>)
        ensures
            r == &self.providers,
    {
        &self.providers
    }

    /// The index of the asset carrying `symbol`, if any.
    pub fn asset_index(&self, symbol: &str) -> (r: Option<usize>)
        ensures
            match r {
                Some(i) => 0 <= i < self.n() && self.spec_symbol(i as int) == symbol@,
                None => forall|i: int| 0 <= i < self.n() ==> self.spec_symbol(i) != symbol@,
            },
    {
        let n = self.assets.len();
        let mut i: usize = 0;
        while i < n
            invariant
                0 <= i <= n,
                n == self.n(),
                forall|j: int| 0 <= j < i ==> self.spec_symbol(j) != symbol@,
            decreases n - i,
        {
            if str_eq(self.assets[i].symbol.as_str(), symbol) {
                return Some(i);
            }
            i = i + 1;
        }
        None
    }

    /// The reference price of the asset carrying `symbol`.
    pub fn price_of(&self, symbol: &str) -> (r: u64)
        requires
            self.wf(),
            self.has_symbol(symbol@),
        ensures
            forall|i: int|
                0 <= i < self.n() && self.spec_symbol(i) == symbol@ ==> r == self.spec_price(i),
    {
        let idx = self.asset_index(symbol);
        let i = idx.unwrap();
        self.assets[i].price
    }

    /// The base exchange rate between assets `i` and `j`, by index.
    pub fn rate(&self, i: usize, j: usize) -> (r: u64)
        requires
            self.wf(),
            i < self.n(),
            j < self.n(),
        ensures
            r == self.spec_rate(i as int, j as int),
            0 < r <= RATE_MAX,
    {
        let n = self.assets.len();
        let total = self.rates.len();
        proof {
            lemma_square_index(i as int, j as int, n as int);
            assert(i * n + j < total);
        }
        self.rates[i * n + j]
    }

    /// The base exchange rate from the asset carrying `from` to the asset
    /// carrying `to`; the rate from an asset to itself is one.
    pub fn exchange_rate(&self, from: &str, to: &str) -> (r: u64)
        requires
            self.wf(),
            self.has_symbol(from@),
            self.has_symbol(to@),
        ensures
            forall|i: int, j: int|
                0 <= i < self.n() && 0 <= j < self.n() && self.spec_symbol(i) == from@
                    && self.spec_symbol(j) == to@ ==> r == self.spec_rate(i, j),
    {
        let i = self.asset_index(from).unwrap();
        let j = self.asset_index(to).unwrap();
        self.rate(i, j)
    }
}

/// The compiled-in catalog: three assets, their pairwise exchange rates, and
/// five providers with their adjustment factors.
pub fn default_catalog() -> (r: Catalog)
    ensures
        r.wf(),
        r.n() == 3,
        r.spec_symbol(0) == "BTC"@,
        r.spec_symbol(1) == "ETH"@,
        r.spec_symbol(2) == "SOL"@,
        r.spec_price(0) == 100_000 * SCALE,
        r.spec_price(1) == 2_000 * SCALE,
        r.spec_price(2) == 140 * SCALE,
        r.spec_rate(0, 1) == 50 * SCALE,
        r.k() == 5,
        r.spec_provider_name(0) == "0x"@,
        r.spec_provider_name(1) == "1inch"@,
        r.spec_provider_name(2) == "Paraswap"@,
        r.spec_provider_name(3) == "Rango"@,
        r.spec_provider_name(4) == "Changelly"@,
        r.spec_factor(0) == 105_000_000,
        r.spec_factor(1) == 98_000_000,
        r.spec_factor(2) == 102_000_000,
        r.spec_factor(3) == 95_000_000,
        r.spec_factor(4) == 100_000_000,
{
    let mut assets: Vec<Asset> = Vec::new();
    assets.push(Asset { symbol: String::from_str("BTC"), price: 100_000 * SCALE });
    assets.push(Asset { symbol: String::from_str("ETH"), price: 2_000 * SCALE });
    assets.push(Asset { symbol: String::from_str("SOL"), price: 140 * SCALE });
    let mut rates: Vec<u64> = Vec::new();
    rates.push(SCALE);  // BTC to BTC: 1
    rates.push(50 * SCALE);  // BTC to ETH: 50
    rates.push(71_428_000_000);  // BTC to SOL: 714.28
    rates.push(2_000_000);  // ETH to BTC: 0.02
    rates.push(SCALE);  // ETH to ETH: 1
    rates.push(1_428_000_000);  // ETH to SOL: 14.28
    rates.push(140_000);  // SOL to BTC: 0.0014
    rates.push(7_000_000);  // SOL to ETH: 0.07
    rates.push(SCALE);  // SOL to SOL: 1
    let mut providers: Vec<Provider> = Vec::new();
    providers.push(Provider { name: String::from_str("0x"), factor: 105_000_000 });  // 1.05
    providers.push(Provider { name: String::from_str("1inch"), factor: 98_000_000 });  // 0.98
    providers.push(Provider { name: String::from_str("Paraswap"), factor: 102_000_000 });  // 1.02
    providers.push(Provider { name: String::from_str("Rango"), factor: 95_000_000 });  // 0.95
    providers.push(Provider { name: String::from_str("Changelly"), factor: 100_000_000 });  // 1.00
    let r = Catalog { assets, rates, providers };
    proof {
        reveal_strlit("BTC");
        reveal_strlit("ETH");
        reveal_strlit("SOL");
        reveal_strlit("0x");
        reveal_strlit("1inch");
        reveal_strlit("Paraswap");
        reveal_strlit("Rango");
        reveal_strlit("Changelly");
        assert("BTC"@[0] == 'B' && "ETH"@[0] == 'E' && "SOL"@[0] == 'S');
        assert("1inch"@[0] == '1' && "Rango"@[0] == 'R');
        assert("0x"@.len() == 2 && "1inch"@.len() == 5 && "Paraswap"@.len() == 8 && "Rango"@.len()
            == 5 && "Changelly"@.len() == 9);
        assert forall|i: int, j: int| 0 <= i < j < r.n() implies (#[trigger] r.assets@[i].symbol@)
            != (#[trigger] r.assets@[j].symbol@) by {
            assert(r.assets@[0].symbol@ == "BTC"@);
            assert(r.assets@[1].symbol@ == "ETH"@);
            assert(r.assets@[2].symbol@ == "SOL"@);
        }
        assert forall|p: int, q: int| 0 <= p < q < r.providers@.len() implies (
        #[trigger] r.providers@[p].name@) != (#[trigger] r.providers@[q].name@) by {
            assert(r.providers@[0].name@ == "0x"@);
            assert(r.providers@[1].name@ == "1inch"@);
            assert(r.providers@[2].name@ == "Paraswap"@);
            assert(r.providers@[3].name@ == "Rango"@);
            assert(r.providers@[4].name@ == "Changelly"@);
        }
        assert forall|i: int| 0 <= i < r.n() implies r.rates@[#[trigger] (i * r.n() + i)] == SCALE
            by {
            if i == 0 {
                assert(r.rates@[0] == SCALE);
            } else if i == 1 {
                assert(i * r.n() + i == 4);
                assert(r.rates@[4] == SCALE);
            } else {
                assert(i * r.n() + i == 8);
                assert(r.rates@[8] == SCALE);
            }
        }
        assert(r.wf());
    }
    r
}

/// A row-major index into a square table stays within the table.
pub proof fn lemma_square_index(i: int, j: int, n: int)
    requires
        0 <= i < n,
        0 <= j < n,
    ensures
        0 <= i * n + j < n * n,
{
    assert(0 <= i * n + j < n * n) by (nonlinear_arith)
        requires
            0 <= i < n,
            0 <= j < n,
    ;
}

} // verus!
