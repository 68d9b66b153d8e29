//! Laws of the library, stated and proved from the public contracts alone:
//! cursor navigation stays inside the catalog and wraps at the edges, the
//! summary text carries every request field verbatim, dismissing the summary
//! is non-destructive, and quitting is two-level while the summary is open.

use crate::fixed::fixed_chars;
use crate::fixed::hex_chars;
use crate::summary::{spec_tx_sum, summary_chars};
use crate::workflow::{
    dec_wrap, inc_wrap, step_rel, InputEvent, Msg, Workflow, WorkflowStage,
};
use vstd::prelude::*;

verus! {

/// Whether `needle` occurs in `hay` as a contiguous run.
pub open spec fn seq_contains_sub(hay: Seq<char>, needle: Seq<char>) -> bool {
    exists|k: int|
        0 <= k && k + needle.len() <= hay.len() && #[trigger] hay.subrange(k, k + needle.len())
            == needle
}

/// Law: in a catalog of `n >= 1` rows, moving the cursor from any position
/// stays within the catalog and wraps: position zero moves up to the last
/// row, and the last row moves down to zero.
pub proof fn lemma_cursor_wraps(i: int, n: int)
    requires
        n >= 1,
        0 <= i < n,
    ensures
        0 <= inc_wrap(i, n) < n,
        0 <= dec_wrap(i, n) < n,
        i == 0 ==> dec_wrap(i, n) == n - 1,
        i == n - 1 ==> inc_wrap(i, n) == 0,
        inc_wrap(dec_wrap(i, n), n) == i,
        dec_wrap(inc_wrap(i, n), n) == i,
{
}

/// Law: a navigation step in a selection stage keeps the cursor inside the
/// catalog and wraps at both edges.
pub proof fn lemma_navigation_stays_in_catalog(
    pre: Workflow,
    ev: InputEvent,
    post: Workflow,
    m: Msg,
)
    requires
        pre.wf(),
        step_rel(pre, ev, post, m),
        ev == InputEvent::Up || ev == InputEvent::Down,
        pre.spec_stage() == WorkflowStage::SelectingSource || pre.spec_stage()
            == WorkflowStage::SelectingDestination,
    ensures
        0 <= post.spec_cursor() < pre.spec_catalog().n(),
        ev == InputEvent::Up && pre.spec_cursor() == 0 ==> post.spec_cursor()
            == pre.spec_catalog().n() - 1,
        ev == InputEvent::Down && pre.spec_cursor() == pre.spec_catalog().n() - 1
            ==> post.spec_cursor() == 0,
{
}

/// Law: the summary text contains the amount, the source symbol, the
/// destination symbol, the address and the provider name verbatim, whatever
/// their values.
pub proof fn lemma_summary_contains_fields(
    source: Seq<char>,
    destination: Seq<char>,
    amount: Seq<char>,
    address: Seq<char>,
    provider: Seq<char>,
    quote_amount: int,
)
    ensures
        seq_contains_sub(
            summary_chars(source, destination, amount, address, provider, quote_amount),
            amount,
        ),
        seq_contains_sub(
            summary_chars(source, destination, amount, address, provider, quote_amount),
            source,
        ),
        seq_contains_sub(
            summary_chars(source, destination, amount, address, provider, quote_amount),
            destination,
        ),
        seq_contains_sub(
            summary_chars(source, destination, amount, address, provider, quote_amount),
            provider,
        ),
        seq_contains_sub(
            summary_chars(source, destination, amount, address, provider, quote_amount),
            address,
        ),
{
    reveal_strlit("TX-");
    reveal_strlit("\n");
    reveal_strlit(" ");
    reveal_strlit(" -> ");
    reveal_strlit(" via ");
    reveal_strlit("\nTo: ");
    let text = summary_chars(source, destination, amount, address, provider, quote_amount);
    let hex = hex_chars(spec_tx_sum(source, destination, amount, address, provider));
    let fixed = fixed_chars(quote_amount);
    let k_amount: int = 3 + hex.len() as int + 1;
    assert(text.subrange(k_amount as int, k_amount + amount.len()) =~= amount);
    let k_source: int = k_amount + amount.len() + 1;
    assert(text.subrange(k_source as int, k_source + source.len()) =~= source);
    let k_fixed: int = k_source + source.len() + 4;
    let k_destination: int = k_fixed + fixed.len() + 1;
    assert(text.subrange(k_destination as int, k_destination + destination.len())
        =~= destination);
    let k_provider: int = k_destination + destination.len() + 5;
    assert(text.subrange(k_provider as int, k_provider + provider.len()) =~= provider);
    let k_address: int = k_provider + provider.len() + 5;
    assert(text.subrange(k_address as int, k_address + address.len()) =~= address);
    assert(k_address + address.len() == text.len());
}

/// Law: choosing a destination records the asset under the cursor even when
/// it is already the source: a same-asset swap is permitted (and is quoted at
/// the unit rate, since the catalog's diagonal is one).
pub proof fn lemma_same_asset_swap_permitted(pre: Workflow, post: Workflow, m: Msg)
    requires
        pre.wf(),
        step_rel(pre, InputEvent::Confirm, post, m),
        pre.spec_stage() == WorkflowStage::SelectingDestination,
        pre.spec_source() == Some(pre.spec_cursor()),
    ensures
        post.spec_destination() == Some(pre.spec_cursor()),
        post.spec_source() == post.spec_destination(),
        pre.spec_catalog().spec_rate(pre.spec_cursor(), pre.spec_cursor())
            == crate::fixed::SCALE,
{
}

/// Law: dismissing the summary view with `Cancel` returns to source
/// selection with every previously entered field intact, and keeps the
/// computed quotes and summary.
pub proof fn lemma_dismissal_nondestructive(pre: Workflow, post: Workflow, m: Msg)
    requires
        step_rel(pre, InputEvent::Cancel, post, m),
        pre.spec_stage() == WorkflowStage::ShowingSummary,
    ensures
        post.spec_stage() == WorkflowStage::SelectingSource,
        post.spec_source() == pre.spec_source(),
        post.spec_destination() == pre.spec_destination(),
        post.spec_amount() == pre.spec_amount(),
        post.spec_address() == pre.spec_address(),
        post.spec_quotes() == pre.spec_quotes(),
        post.spec_best() == pre.spec_best(),
        post.spec_summary() == pre.spec_summary(),
{
}

/// Law: quitting while the summary view is open does not exit: it only
/// dismisses the overlay, leaving every field intact, and a second `Quit`
/// after the dismissal does exit.
pub proof fn lemma_two_level_exit(
    s0: Workflow,
    s1: Workflow,
    s2: Workflow,
    m1: Msg,
    m2: Msg,
)
    requires
        s0.spec_stage() == WorkflowStage::ShowingSummary,
        step_rel(s0, InputEvent::Quit, s1, m1),
        step_rel(s1, InputEvent::Quit, s2, m2),
    ensures
        m1 != Msg::AppClose,
        s1.spec_stage() == WorkflowStage::SelectingSource,
        s1.spec_amount() == s0.spec_amount(),
        s1.spec_address() == s0.spec_address(),
        m2 == Msg::AppClose,
{
}

} // verus!
