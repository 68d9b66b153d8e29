use xoswap::catalog::{default_catalog, Asset, Catalog, Provider};
use xoswap::error::SwapError;
use xoswap::fixed::{format_fixed, parse_amount, SCALE};
use xoswap::quote::{quote, quote_all, QuoteSet};
use xoswap::summary::{format_summary, generate_mock_qr_code, generate_qr_code};

fn two_asset_catalog() -> Catalog {
    // BTC at $100000, ETH at $2000, rate(BTC -> ETH) = 50, one provider at
    // factor 1.0.
    Catalog {
        assets: vec![
            Asset { symbol: "BTC".to_string(), price: 100_000 * SCALE },
            Asset { symbol: "ETH".to_string(), price: 2_000 * SCALE },
        ],
        rates: vec![SCALE, 50 * SCALE, 2_000_000, SCALE],
        providers: vec![Provider { name: "solo".to_string(), factor: SCALE }],
    }
}

#[test]
fn parse_amount_accepts_plain_decimals() {
    assert_eq!(parse_amount("1"), Some(SCALE));
    assert_eq!(parse_amount("2.5"), Some(250_000_000));
    assert_eq!(parse_amount("0.00000001"), Some(1));
    assert_eq!(parse_amount(".5"), Some(50_000_000));
    assert_eq!(parse_amount("5."), Some(5 * SCALE));
    assert_eq!(parse_amount("007"), Some(7 * SCALE));
    assert_eq!(parse_amount("100000000"), Some(10_000_000_000_000_000));
}

#[test]
fn parse_amount_rejects_malformed_strings() {
    assert_eq!(parse_amount(""), None);
    assert_eq!(parse_amount("."), None);
    assert_eq!(parse_amount("abc"), None);
    assert_eq!(parse_amount("1.2.3"), None);
    assert_eq!(parse_amount("-1"), None);
    assert_eq!(parse_amount("1,5"), None);
    // More than eight fractional digits are beyond the resolution.
    assert_eq!(parse_amount("1.000000001"), None);
    // Above the cap of one hundred million whole units.
    assert_eq!(parse_amount("100000000.00000001"), None);
    assert_eq!(parse_amount("999999999999"), None);
}

#[test]
fn quote_rejects_non_positive_amounts() {
    let cat = two_asset_catalog();
    let p = &cat.providers[0];
    assert_eq!(quote(&cat, "BTC", "ETH", "0", p), Err(SwapError::InvalidAmount));
    assert_eq!(quote(&cat, "BTC", "ETH", "0.0", p), Err(SwapError::InvalidAmount));
    assert_eq!(quote(&cat, "BTC", "ETH", "", p), Err(SwapError::InvalidAmount));
    assert_eq!(quote(&cat, "BTC", "ETH", "x17", p), Err(SwapError::InvalidAmount));
    assert_eq!(quote(&cat, "BTC", "ETH", "1..2", p), Err(SwapError::InvalidAmount));
}

#[test]
fn quote_rejects_unknown_assets() {
    let cat = two_asset_catalog();
    let p = &cat.providers[0];
    assert_eq!(quote(&cat, "DOGE", "ETH", "1", p), Err(SwapError::UnknownAsset));
    assert_eq!(quote(&cat, "BTC", "DOGE", "1", p), Err(SwapError::UnknownAsset));
    // A bad amount is reported before an unknown asset.
    assert_eq!(quote(&cat, "DOGE", "ETH", "0", p), Err(SwapError::InvalidAmount));
}

#[test]
fn quote_of_one_btc_into_eth_is_fifty() {
    let cat = two_asset_catalog();
    let p = &cat.providers[0];
    // 1 BTC at rate 50 and factor 1.0 is exactly 50 ETH.
    assert_eq!(quote(&cat, "BTC", "ETH", "1", p), Ok(50 * SCALE as u128));
}

#[test]
fn quote_applies_the_provider_factor() {
    let cat = default_catalog();
    // 2 BTC at rate 50 with the 1.05 factor of the first provider.
    let p = &cat.providers[0];
    assert_eq!(quote(&cat, "BTC", "ETH", "2", p), Ok(105 * SCALE as u128));
    // The same swap through the 0.98 provider.
    let p1 = &cat.providers[1];
    assert_eq!(quote(&cat, "BTC", "ETH", "2", p1), Ok(98 * SCALE as u128));
}

#[test]
fn quote_of_same_asset_is_the_factor() {
    let cat = two_asset_catalog();
    let p = &cat.providers[0];
    assert_eq!(quote(&cat, "BTC", "BTC", "1", p), Ok(SCALE as u128));
}

#[test]
fn quote_all_returns_one_entry_per_valid_provider() {
    let cat = default_catalog();
    let qs = quote_all(&cat, "BTC", "ETH", "1");
    assert_eq!(qs.entries.len(), 5);
    let names: Vec<&str> = qs.entries.iter().map(|q| q.provider.as_str()).collect();
    assert_eq!(names, vec!["0x", "1inch", "Paraswap", "Rango", "Changelly"]);
}

#[test]
fn quote_all_is_empty_when_every_provider_fails() {
    let cat = default_catalog();
    assert_eq!(quote_all(&cat, "BTC", "ETH", "0").entries.len(), 0);
    assert_eq!(quote_all(&cat, "BTC", "ETH", "junk").entries.len(), 0);
    assert_eq!(quote_all(&cat, "BTC", "DOGE", "1").entries.len(), 0);
}

#[test]
fn best_picks_the_maximum_quote() {
    let cat = default_catalog();
    let qs = quote_all(&cat, "BTC", "ETH", "1");
    let b = qs.best().unwrap();
    // The 1.05 factor of the first provider wins.
    assert_eq!(qs.entries[b].provider.as_str(), "0x");
    assert_eq!(qs.entries[b].amount, 52 * SCALE as u128 + 50_000_000);
    for e in &qs.entries {
        assert!(e.amount <= qs.entries[b].amount);
    }
}

#[test]
fn best_of_an_empty_set_is_nothing() {
    let qs = QuoteSet::new();
    assert_eq!(qs.best(), None);
    assert_eq!(qs.best_quote(), None);
}

#[test]
fn best_quote_returns_the_winning_pair() {
    let cat = default_catalog();
    let qs = quote_all(&cat, "BTC", "ETH", "1");
    let (name, amount) = qs.best_quote().unwrap();
    assert_eq!(name, "0x");
    assert_eq!(amount, 52 * SCALE as u128 + 50_000_000);
}

#[test]
fn best_resolves_ties_to_the_first_entry() {
    // Two providers with the same factor produce equal amounts; the first
    // one wins, deterministically.
    let cat = Catalog {
        assets: vec![
            Asset { symbol: "BTC".to_string(), price: 100_000 * SCALE },
            Asset { symbol: "ETH".to_string(), price: 2_000 * SCALE },
        ],
        rates: vec![SCALE, 50 * SCALE, 2_000_000, SCALE],
        providers: vec![
            Provider { name: "first".to_string(), factor: SCALE },
            Provider { name: "second".to_string(), factor: SCALE },
        ],
    };
    let qs = quote_all(&cat, "BTC", "ETH", "1");
    assert_eq!(qs.entries.len(), 2);
    assert_eq!(qs.entries[0].amount, qs.entries[1].amount);
    let b = qs.best().unwrap();
    assert_eq!(b, 0);
    assert_eq!(qs.entries[b].provider.as_str(), "first");
}

#[test]
fn format_fixed_renders_eight_fraction_digits() {
    assert_eq!(format_fixed(50 * SCALE as u128), "50.00000000");
    assert_eq!(format_fixed(0), "0.00000000");
    assert_eq!(format_fixed(105_000_000), "1.05000000");
    assert_eq!(format_fixed(1), "0.00000001");
}

#[test]
fn format_summary_composes_the_confirmation_text() {
    // Lengths: 3 + 3 + 3 + 5 + 2 = 16, hexadecimal "10".
    let s = format_summary("BTC", "ETH", "2.5", "addr1", "0x", 125 * SCALE as u128).unwrap();
    assert_eq!(s, "TX-10\n2.5 BTC -> 125.00000000 ETH via 0x\nTo: addr1");
}

#[test]
fn format_summary_requires_all_four_fields() {
    let e = SwapError::IncompleteRequest;
    assert_eq!(format_summary("", "ETH", "2.5", "addr1", "0x", 1), Err(e));
    assert_eq!(format_summary("BTC", "", "2.5", "addr1", "0x", 1), Err(e));
    assert_eq!(format_summary("BTC", "ETH", "", "addr1", "0x", 1), Err(e));
    assert_eq!(format_summary("BTC", "ETH", "2.5", "", "0x", 1), Err(e));
}

#[test]
fn generate_qr_code_wraps_the_summary_in_the_frame() {
    let s = generate_qr_code("BTC", "ETH", "2.5", "addr1", "0x", 125 * SCALE as u128).unwrap();
    assert!(s.starts_with("+------------------+\n"));
    assert!(s.ends_with("TX-10\n2.5 BTC -> 125.00000000 ETH via 0x\nTo: addr1"));
    assert_eq!(
        generate_qr_code("BTC", "ETH", "2.5", "", "0x", 1),
        Err(SwapError::IncompleteRequest)
    );
}

#[test]
fn generate_mock_qr_code_carries_its_payload() {
    let s = generate_mock_qr_code("payload text");
    assert!(s.ends_with("payload text"));
    assert!(s.starts_with("+------------------+\n"));
}

#[test]
fn default_catalog_lists_three_assets_and_five_providers() {
    let cat = default_catalog();
    let symbols: Vec<&str> = cat.list_assets().iter().map(|a| a.symbol.as_str()).collect();
    assert_eq!(symbols, vec!["BTC", "ETH", "SOL"]);
    assert_eq!(cat.list_providers().len(), 5);
    assert_eq!(cat.price_of("BTC"), 100_000 * SCALE);
    assert_eq!(cat.exchange_rate("BTC", "ETH"), 50 * SCALE);
    assert_eq!(cat.exchange_rate("ETH", "ETH"), SCALE);
}
