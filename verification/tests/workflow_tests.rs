use xoswap::catalog::{default_catalog, Asset, Catalog};
use xoswap::fixed::SCALE;
use xoswap::workflow::{
    InputEvent, InputMode, Msg, SelectionMode, StatusMsg, Workflow, WorkflowStage,
};

fn fresh() -> Workflow {
    Workflow::new(default_catalog())
}

fn type_str(w: &mut Workflow, s: &str) {
    for c in s.chars() {
        w.step(InputEvent::Char(c));
    }
}

/// Drives a fresh workflow through the whole dialogue: BTC as source, ETH as
/// destination, the given amount and address.
fn btc_to_eth(amount: &str, address: &str) -> Workflow {
    let mut w = fresh();
    assert_eq!(w.step(InputEvent::Confirm), Msg::AssetChosenAsFrom(0)); // BTC
    assert_eq!(w.step(InputEvent::Down), Msg::AssetSelected(1)); // ETH
    assert_eq!(w.step(InputEvent::Confirm), Msg::AssetChosenAsTo(1));
    assert_eq!(w.stage(), WorkflowStage::EnteringAmount);
    // Selecting the destination triggered a preview refresh with the
    // defaulted amount; clear it and type the real one.
    while !w.amount().is_empty() {
        w.step(InputEvent::Backspace);
    }
    type_str(&mut w, amount);
    w.step(InputEvent::Confirm);
    assert_eq!(w.stage(), WorkflowStage::EnteringAddress);
    type_str(&mut w, address);
    w.step(InputEvent::Confirm);
    w
}

#[test]
fn navigation_wraps_at_both_edges() {
    let mut w = fresh();
    assert_eq!(w.stage(), WorkflowStage::SelectingSource);
    assert_eq!(w.cursor(), 0);
    // Up from the top row wraps to the last of the three assets.
    assert_eq!(w.step(InputEvent::Up), Msg::AssetSelected(2));
    assert_eq!(w.cursor(), 2);
    // Down from the last row wraps back to the top.
    assert_eq!(w.step(InputEvent::Down), Msg::AssetSelected(0));
    assert_eq!(w.cursor(), 0);
    // Every position stays within the catalog.
    for _ in 0..7 {
        w.step(InputEvent::Down);
        assert!(w.cursor() < 3);
    }
}

#[test]
fn navigation_is_ignored_outside_selection_stages() {
    let mut w = fresh();
    w.step(InputEvent::ShortcutEnterAmount);
    assert_eq!(w.step(InputEvent::Up), Msg::Noop);
    assert_eq!(w.cursor(), 0);
}

#[test]
fn choosing_a_source_clears_quotes_and_advances() {
    let mut w = fresh();
    assert_eq!(w.step(InputEvent::Confirm), Msg::AssetChosenAsFrom(0));
    assert_eq!(w.stage(), WorkflowStage::SelectingDestination);
    assert_eq!(w.source_index(), Some(0));
    assert_eq!(w.source_symbol().unwrap(), "BTC");
    assert_eq!(w.quotes().entries.len(), 0);
    assert_eq!(w.best(), None);
    assert!(w.summary().is_none());
}

#[test]
fn choosing_a_destination_refreshes_with_the_default_amount() {
    let mut w = fresh();
    w.step(InputEvent::Confirm); // source BTC
    w.step(InputEvent::Down);
    w.step(InputEvent::Confirm); // destination ETH
    assert_eq!(w.stage(), WorkflowStage::EnteringAmount);
    assert_eq!(w.destination_symbol().unwrap(), "ETH");
    // No amount was entered, so the documented default drives the preview.
    assert_eq!(w.amount(), "1.0");
    assert_eq!(w.quotes().entries.len(), 5);
    assert_eq!(w.status(), StatusMsg::QuotesRefreshed);
    // Best preview quote: 1 BTC at rate 50 with the 1.05 factor.
    let b = w.best().unwrap();
    assert_eq!(w.quotes().entries[b].provider.as_str(), "0x");
    assert_eq!(w.quotes().entries[b].amount, 52 * SCALE as u128 + 50_000_000);
}

#[test]
fn amount_editor_takes_digits_and_a_single_point() {
    let mut w = fresh();
    w.step(InputEvent::ShortcutEnterAmount);
    type_str(&mut w, "2.5");
    assert_eq!(w.amount(), "2.5");
    // A second decimal point and a stray letter are ignored.
    w.step(InputEvent::Char('.'));
    w.step(InputEvent::Char('x'));
    assert_eq!(w.amount(), "2.5");
    // Removing the point makes room for a new one.
    w.step(InputEvent::Backspace);
    w.step(InputEvent::Backspace);
    assert_eq!(w.amount(), "2");
    w.step(InputEvent::Char('.'));
    w.step(InputEvent::Char('7'));
    assert_eq!(w.amount(), "2.7");
}

#[test]
fn confirming_an_empty_amount_is_gated() {
    let mut w = fresh();
    w.step(InputEvent::ShortcutEnterAmount);
    assert_eq!(w.step(InputEvent::Confirm), Msg::Noop);
    assert_eq!(w.stage(), WorkflowStage::EnteringAmount);
    assert_eq!(w.status(), StatusMsg::AmountRequired);
}

#[test]
fn round_trip_reaches_a_summary_with_every_field_verbatim() {
    let w = btc_to_eth("2.5", "addr1");
    assert_eq!(w.stage(), WorkflowStage::ShowingSummary);
    let s = w.summary().unwrap();
    assert!(s.contains("2.5"));
    assert!(s.contains("BTC"));
    assert!(s.contains("ETH"));
    assert!(s.contains("addr1"));
    // 2.5 BTC at rate 50 and factor 1.05 is 131.25 ETH.
    assert!(s.contains("131.25000000"));
    assert!(s.contains("via 0x"));
}

#[test]
fn same_asset_swap_is_permitted() {
    let mut w = fresh();
    w.step(InputEvent::Confirm); // BTC as source
    assert_eq!(w.stage(), WorkflowStage::SelectingDestination);
    // Immediately choose BTC again as the destination.
    assert_eq!(w.step(InputEvent::Confirm), Msg::AssetChosenAsTo(0));
    assert_eq!(w.source_index(), Some(0));
    assert_eq!(w.destination_index(), Some(0));
    // The preview quotes at the unit rate: the best is the bare 1.05 factor.
    let b = w.best().unwrap();
    assert_eq!(w.quotes().entries[b].amount, 105_000_000);
}

#[test]
fn invalid_amount_is_reported_not_fatal() {
    let mut w = fresh();
    w.step(InputEvent::Confirm);
    w.step(InputEvent::Confirm); // both assets set (same asset)
    while !w.amount().is_empty() {
        w.step(InputEvent::Backspace);
    }
    w.step(InputEvent::Char('.')); // the amount "." does not parse
    w.step(InputEvent::Confirm);
    assert_eq!(w.stage(), WorkflowStage::EnteringAddress);
    assert_eq!(w.status(), StatusMsg::InvalidAmount);
    assert_eq!(w.quotes().entries.len(), 0);
    assert_eq!(w.best(), None);
}

#[test]
fn dismissing_the_summary_keeps_all_fields() {
    let mut w = btc_to_eth("2.5", "addr1");
    assert_eq!(w.stage(), WorkflowStage::ShowingSummary);
    assert_eq!(w.step(InputEvent::Cancel), Msg::Noop);
    assert_eq!(w.stage(), WorkflowStage::SelectingSource);
    assert_eq!(w.source_symbol().unwrap(), "BTC");
    assert_eq!(w.destination_symbol().unwrap(), "ETH");
    assert_eq!(w.amount(), "2.5");
    assert_eq!(w.address(), "addr1");
    assert!(w.summary().is_some());
}

#[test]
fn quitting_the_summary_needs_a_second_quit_to_exit() {
    let mut w = btc_to_eth("2.5", "addr1");
    // The first quit only dismisses the overlay.
    assert_eq!(w.step(InputEvent::Quit), Msg::Noop);
    assert_eq!(w.stage(), WorkflowStage::SelectingSource);
    assert_eq!(w.amount(), "2.5");
    // The second quit asks the application to close.
    assert_eq!(w.step(InputEvent::Quit), Msg::AppClose);
}

#[test]
fn cancel_rolls_back_one_stage() {
    let mut w = fresh();
    assert_eq!(w.step(InputEvent::Cancel), Msg::ExitAssetSelectionMode);
    assert_eq!(w.stage(), WorkflowStage::EnteringAmount);
    w.step(InputEvent::ShortcutSelectDestination);
    assert_eq!(w.step(InputEvent::Cancel), Msg::ExitAssetSelectionMode);
    assert_eq!(w.stage(), WorkflowStage::SelectingSource);
    w.step(InputEvent::ShortcutEnterAddress);
    assert_eq!(w.step(InputEvent::Cancel), Msg::Noop);
    assert_eq!(w.stage(), WorkflowStage::EnteringAmount);
}

#[test]
fn shortcuts_jump_and_seed_the_cursor() {
    let mut w = fresh();
    w.step(InputEvent::Down); // cursor on ETH
    w.step(InputEvent::Confirm); // ETH as source
    w.step(InputEvent::Down); // move the cursor away
    assert_eq!(w.cursor(), 2);
    // Jumping back to source selection re-seeds the cursor on ETH.
    assert_eq!(w.step(InputEvent::ShortcutSelectSource), Msg::EnterFromAssetMode);
    assert_eq!(w.stage(), WorkflowStage::SelectingSource);
    assert_eq!(w.cursor(), 1);
    // No destination chosen yet: the cursor stays where it was.
    assert_eq!(w.step(InputEvent::ShortcutSelectDestination), Msg::EnterToAssetMode);
    assert_eq!(w.cursor(), 1);
}

#[test]
fn view_projection_reflects_the_stage() {
    let mut w = fresh();
    assert_eq!(w.input_mode(), InputMode::SelectingFrom);
    assert_eq!(w.selection_mode(), SelectionMode::FromAsset);
    w.step(InputEvent::Confirm);
    assert_eq!(w.input_mode(), InputMode::SelectingTo);
    assert_eq!(w.selection_mode(), SelectionMode::ToAsset);
    w.step(InputEvent::ShortcutEnterAmount);
    assert_eq!(w.input_mode(), InputMode::EnteringAmount);
    assert_eq!(w.selection_mode(), SelectionMode::Normal);
    w.step(InputEvent::ShortcutEnterAddress);
    assert_eq!(w.input_mode(), InputMode::EnteringAddress);
}

#[test]
fn empty_provider_list_reports_no_quotes() {
    let cat = Catalog {
        assets: vec![Asset { symbol: "BTC".to_string(), price: 100_000 * SCALE }],
        rates: vec![SCALE],
        providers: vec![],
    };
    let mut w = Workflow::new(cat);
    w.step(InputEvent::Confirm); // source BTC
    w.step(InputEvent::Confirm); // destination BTC, triggers a refresh
    assert_eq!(w.status(), StatusMsg::NoQuotesAvailable);
    assert_eq!(w.quotes().entries.len(), 0);
    assert_eq!(w.best(), None);
}

#[test]
fn workflow_recovers_after_an_invalid_amount() {
    let mut w = fresh();
    w.step(InputEvent::Confirm);
    w.step(InputEvent::Down);
    w.step(InputEvent::Confirm); // BTC -> ETH with the default preview amount
    while !w.amount().is_empty() {
        w.step(InputEvent::Backspace);
    }
    w.step(InputEvent::Char('.'));
    w.step(InputEvent::Confirm); // "." does not parse
    assert_eq!(w.status(), StatusMsg::InvalidAmount);
    // The workflow stays navigable: go back, fix the amount, and finish.
    w.step(InputEvent::Cancel); // back to the amount editor
    assert_eq!(w.stage(), WorkflowStage::EnteringAmount);
    w.step(InputEvent::Backspace);
    type_str(&mut w, "3");
    w.step(InputEvent::Confirm);
    assert_eq!(w.status(), StatusMsg::QuotesRefreshed);
    assert_eq!(w.quotes().entries.len(), 5);
}

#[test]
fn address_editor_takes_any_character() {
    let mut w = fresh();
    w.step(InputEvent::ShortcutEnterAddress);
    type_str(&mut w, "bc1-q!");
    assert_eq!(w.address(), "bc1-q!");
    w.step(InputEvent::Backspace);
    assert_eq!(w.address(), "bc1-q");
}
