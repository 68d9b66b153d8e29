//! The workflow state machine: the staged swap dialogue (select source,
//! select destination, enter amount, enter address, show the summary), its
//! transition rules over an abstract input alphabet, the validation gates,
//! and the quote refresh that keeps the derived quote set, best choice and
//! summary text in sync with the request.
//!
//! The whole behaviour of a step is pinned by the `step_rel` relation, so
//! laws about sequences of steps can be proved from contracts alone.

use crate::catalog::Catalog;
use crate::fixed::{amount_val, spec_is_digit, is_digit};
use crate::quote::{
    best_index, lemma_best_index_props, qs_view, quote_all, spec_amount_ok, spec_best_of,
    spec_quote_entries, QuoteSet,
};
use crate::summary::{generate_qr_code, qr_code_chars};
use crate::text::{str_contains_char, string_pop, string_push};
use vstd::prelude::*;

verus! {

/// The active stage of the guided workflow. Exactly one is active at a time;
/// the machine starts in `SelectingSource` and cycles (quitting is a side
/// exit, not a stage).
#[derive(Clone, Copy, Debug, PartialEq, Eq, Structural)]
pub enum WorkflowStage {
    SelectingSource,
    SelectingDestination,
    EnteringAmount,
    EnteringAddress,
    ShowingSummary,
}

/// The input-interpretation mode that a stage presents: which editor or
/// selector the next event is routed to. The summary overlay takes no text,
/// so it presents the normal mode.
#[derive(Clone, Copy, Debug, PartialEq, Eq, Structural)]
pub enum InputMode {
    SelectingFrom,
    SelectingTo,
    EnteringAddress,
    EnteringAmount,
    Normal,
}

/// The highlight role the asset table shows while a stage is active: the
/// cursor marks a prospective source, a prospective destination, or nothing.
#[derive(Clone, Copy, Debug, PartialEq, Eq, Structural)]
pub enum SelectionMode {
    Normal,
    FromAsset,
    ToAsset,
}

/// The abstract input alphabet, as handed over by an input decoder. Key
/// bindings are the decoder's concern; the workflow sees only these.
#[derive(Clone, Copy, Debug, PartialEq, Eq, Structural)]
pub enum InputEvent {
    Up,
    Down,
    Confirm,
    Cancel,
    Char(char),
    Backspace,
    ShortcutSelectSource,
    ShortcutSelectDestination,
    ShortcutEnterAmount,
    ShortcutEnterAddress,
    Quit,
}

/// The message a step hands back to its caller: what happened, and whether
/// the application should close.
#[derive(Clone, Copy, Debug, PartialEq, Eq, Structural)]
pub enum Msg {
    /// The application should close.
    AppClose,
    /// An asset was highlighted (not selected); carries the cursor.
    AssetSelected(usize),
    /// An asset was chosen as the source; carries its index.
    AssetChosenAsFrom(usize),
    /// An asset was chosen as the destination; carries its index.
    AssetChosenAsTo(usize),
    /// The workflow jumped to source selection.
    EnterFromAssetMode,
    /// The workflow jumped to destination selection.
    EnterToAssetMode,
    /// An asset-selection stage was left by cancelling.
    ExitAssetSelectionMode,
    /// Nothing to report.
    Noop,
}

/// The status message shown to the user: the outcome of the last refresh or
/// gate, never fatal.
#[derive(Clone, Copy, Debug, PartialEq, Eq, Structural)]
pub enum StatusMsg {
    /// Nothing to report.
    Idle,
    /// The quote set was rebuilt and a best quote selected.
    QuotesRefreshed,
    /// Every provider failed during the last refresh.
    NoQuotesAvailable,
    /// The amount string did not parse as a positive decimal.
    InvalidAmount,
    /// Confirm was pressed on an empty amount.
    AmountRequired,
}

/// The partially built swap request: the two asset roles (as catalog
/// indices; the symbols are read through the catalog), the raw amount string
/// and the raw destination address. Fields populate as the user advances and
/// may be overwritten by revisiting a stage.
pub struct SwapRequest {
    pub source_asset: Option<usize>,
    pub destination_asset: Option<usize>,
    pub amount: String,
    pub destination_address: String,
}

/// The workflow state: the catalog it reads, the active stage, the selection
/// cursor, the partially built request, and the derived quote data. All
/// mutation goes through `step`; the fields are exposed read-only.
pub struct Workflow {
    catalog: Catalog,
    stage: WorkflowStage,
    cursor: usize,
    request: SwapRequest,
    quotes: QuoteSet,
    best: Option<usize>,
    status: StatusMsg,
    summary: Option<String>,
}

/// The default amount used for quote previews when none has been entered.
pub open spec fn default_amount() -> Seq<char> {
    "1.0"@
}

/// The cursor position after moving one row up, wrapping at the top.
pub open spec fn dec_wrap(i: int, n: int) -> int {
    if i == 0 {
        n - 1
    } else {
        i - 1
    }
}

/// The cursor position after moving one row down, wrapping at the bottom.
pub open spec fn inc_wrap(i: int, n: int) -> int {
    if i + 1 >= n {
        0
    } else {
        i + 1
    }
}

impl Workflow {
    /// The catalog this workflow reads.
    pub closed spec fn spec_catalog(&self) -> Catalog {
        self.catalog
    }

    /// The active stage.
    pub closed spec fn spec_stage(&self) -> WorkflowStage {
        self.stage
    }

    /// The selection cursor.
    pub closed spec fn spec_cursor(&self) -> int {
        self.cursor as int
    }

    /// The chosen source asset, as a catalog index.
    pub closed spec fn spec_source(&self) -> Option<int> {
        match self.request.source_asset {
            Some(i) => Some(i as int),
            None => None,
        }
    }

    /// The chosen destination asset, as a catalog index.
    pub closed spec fn spec_destination(&self) -> Option<int> {
        match self.request.destination_asset {
            Some(i) => Some(i as int),
            None => None,
        }
    }

    /// The raw amount string.
    pub closed spec fn spec_amount(&self) -> Seq<char> {
        self.request.amount@
    }

    /// The raw destination address.
    pub closed spec fn spec_address(&self) -> Seq<char> {
        self.request.destination_address@
    }

    /// The current quote set, as (provider name, amount) pairs.
    pub closed spec fn spec_quotes(&self) -> Seq<(Seq<char>, u128)> {
        qs_view(self.quotes)
    }

    /// The index of the best quote in the quote set, if any.
    pub closed spec fn spec_best(&self) -> Option<int> {
        match self.best {
            Some(b) => Some(b as int),
            None => None,
        }
    }

    /// The current status message.
    pub closed spec fn spec_status(&self) -> StatusMsg {
        self.status
    }

    /// The current summary/QR text, if one has been produced.
    pub closed spec fn spec_summary(&self) -> Option<Seq<char>> {
        match self.summary {
            Some(s) => Some(s@),
            None => None,
        }
    }

    /// Well-formedness: the catalog is well-formed, the cursor and the chosen
    /// assets stay inside it, quote keys are unique, and the best index, when
    /// present, points at the first maximal quote of a non-empty set.
    pub open spec fn wf(&self) -> bool {
        &&& self.spec_catalog().wf()
        &&& 0 <= self.spec_cursor() < self.spec_catalog().n()
        &&& match self.spec_source() {
            Some(i) => 0 <= i < self.spec_catalog().n(),
            None => true,
        }
        &&& match self.spec_destination() {
            Some(j) => 0 <= j < self.spec_catalog().n(),
            None => true,
        }
        &&& (forall|p: int, q: int|
            0 <= p < q < self.spec_quotes().len() ==> (#[trigger] self.spec_quotes()[p].0) != (
            #[trigger] self.spec_quotes()[q].0))
        &&& match self.spec_best() {
            Some(b) => {
                &&& 0 <= b < self.spec_quotes().len()
                &&& (forall|j: int|
                    0 <= j < self.spec_quotes().len() ==> (#[trigger] self.spec_quotes()[j].1)
                        <= self.spec_quotes()[b].1)
                &&& (forall|j: int|
                    0 <= j < b ==> (#[trigger] self.spec_quotes()[j].1) < self.spec_quotes()[b].1)
            },
            None => self.spec_quotes().len() == 0,
        }
    }
}

impl Workflow {
    /// A fresh workflow over `catalog`, at the start of the dialogue: source
    /// selection, cursor on the first asset, nothing entered yet.
    pub fn new(catalog: Catalog) -> (r: Workflow)
        requires
            catalog.wf(),
        ensures
            r.wf(),
            r.spec_catalog() == catalog,
            r.spec_stage() == WorkflowStage::SelectingSource,
            r.spec_cursor() == 0,
            r.spec_source() is None,
            r.spec_destination() is None,
            r.spec_amount() == Seq::<char>::empty(),
            r.spec_address() == Seq::<char>::empty(),
            r.spec_quotes() == Seq::<(Seq<char>, u128)>::empty(),
            r.spec_best() is None,
            r.spec_status() == StatusMsg::Idle,
            r.spec_summary() is None,
    {
        let r = Workflow {
            catalog,
            stage: WorkflowStage::SelectingSource,
            cursor: 0,
            request: SwapRequest {
                source_asset: None,
                destination_asset: None,
                amount: String::new(),
                destination_address: String::new(),
            },
            quotes: QuoteSet::new(),
            best: None,
            status: StatusMsg::Idle,
            summary: None,
        };
        proof {
            assert(r.spec_quotes() =~= Seq::<(Seq<char>, u128)>::empty());
            assert(r.spec_amount() =~= Seq::<char>::empty());
            assert(r.spec_address() =~= Seq::<char>::empty());
        }
        r
    }

    /// Rebuilds the quote set, the best choice, the status and the summary
    /// from the current request. Requires both assets to be chosen.
    fn refresh(&mut self)
        requires
            old(self).wf(),
            old(self).spec_source() is Some,
            old(self).spec_destination() is Some,
        ensures
            final(self).wf(),
            final(self).spec_catalog() == old(self).spec_catalog(),
            final(self).spec_stage() == old(self).spec_stage(),
            final(self).spec_cursor() == old(self).spec_cursor(),
            final(self).spec_source() == old(self).spec_source(),
            final(self).spec_destination() == old(self).spec_destination(),
            final(self).spec_address() == old(self).spec_address(),
            refresh_post(
                old(self).spec_catalog(),
                old(self).spec_source().unwrap(),
                old(self).spec_destination().unwrap(),
                old(self).spec_amount(),
                old(self).spec_address(),
                *final(self),
            ),
    {
        if self.request.amount.as_str().unicode_len() == 0 {
            self.request.amount = String::from_str("1.0");
        }
        let i = self.request.source_asset.unwrap();
        let j = self.request.destination_asset.unwrap();
        let ghost cat = self.catalog;
        let ghost amt = self.request.amount@;
        proof {
            assert(cat.has_symbol(cat.spec_symbol(i as int)));
            assert(cat.has_symbol(cat.spec_symbol(j as int)));
        }
        let qs = quote_all(
            &self.catalog,
            self.catalog.assets[i].symbol.as_str(),
            self.catalog.assets[j].symbol.as_str(),
            self.request.amount.as_str(),
        );
        self.quotes = qs;
        let qlen = self.quotes.len();
        let b = self.quotes.best();
        self.best = b;
        let ghost entries = if spec_amount_ok(amt) {
            spec_quote_entries(cat, i as int, j as int, amount_val(amt), cat.k())
        } else {
            Seq::<(Seq<char>, u128)>::empty()
        };
        proof {
            if !spec_amount_ok(amt) {
                assert(qs_view(self.quotes) =~= entries);
            }
            assert(qs_view(self.quotes) == entries);
            if entries.len() > 0 {
                lemma_best_index_props(entries, entries.len() as int);
            }
            assert(self.spec_best() == spec_best_of(entries));
        }
        let amount_ok = match crate::fixed::parse_amount(self.request.amount.as_str()) {
            Some(v) => v > 0,
            None => false,
        };
        if !amount_ok {
            self.status = StatusMsg::InvalidAmount;
            self.summary = None;
        } else if qlen == 0 {
            self.status = StatusMsg::NoQuotesAvailable;
            self.summary = None;
        } else {
            self.status = StatusMsg::QuotesRefreshed;
            if self.request.destination_address.as_str().unicode_len() > 0 {
                proof {
                    lemma_best_index_props(entries, entries.len() as int);
                }
                let bi = self.best.unwrap();
                let quote_amount = self.quotes.entries[bi].amount;
                proof {
                    // The amount string of a valid amount is never empty.
                    if amt.len() == 0 {
                        amt.index_of_first_ensures('.');
                        assert(crate::fixed::whole_part(amt).len() == 0);
                        assert(crate::fixed::frac_part(amt).len() == 0);
                    }
                }
                let text = generate_qr_code(
                    self.catalog.assets[i].symbol.as_str(),
                    self.catalog.assets[j].symbol.as_str(),
                    self.request.amount.as_str(),
                    self.request.destination_address.as_str(),
                    self.quotes.entries[bi].provider.as_str(),
                    quote_amount,
                );
                match text {
                    Ok(s) => {
                        self.summary = Some(s);
                    },
                    Err(_) => {
                        proof {
                            assert(false);
                        }
                        self.summary = None;
                    },
                }
            } else {
                self.summary = None;
            }
        }
    }
}

impl Workflow {
    /// The catalog this workflow reads.
    pub fn catalog(&self) -> (r: &Catalog)
        ensures
            *r == self.spec_catalog(),
    {
        &self.catalog
    }

    /// The active stage.
    pub fn stage(&self) -> (r: WorkflowStage)
        ensures
            r == self.spec_stage(),
    {
        self.stage
    }

    /// The selection cursor.
    pub fn cursor(&self) -> (r: usize)
        ensures
            r as int == self.spec_cursor(),
    {
        self.cursor
    }

    /// The chosen source asset, as a catalog index.
    pub fn source_index(&self) -> (r: Option<usize>)
        ensures
            r is Some <==> self.spec_source() is Some,
            r is Some ==> r.unwrap() as int == self.spec_source().unwrap(),
    {
        self.request.source_asset
    }

    /// The chosen destination asset, as a catalog index.
    pub fn destination_index(&self) -> (r: Option<usize>)
        ensures
            r is Some <==> self.spec_destination() is Some,
            r is Some ==> r.unwrap() as int == self.spec_destination().unwrap(),
    {
        self.request.destination_asset
    }

    /// The partially built swap request, read-only.
    pub fn request(&self) -> (r: &SwapRequest)
        ensures
            r.amount@ == self.spec_amount(),
            r.destination_address@ == self.spec_address(),
            r.source_asset is Some <==> self.spec_source() is Some,
            r.source_asset is Some ==> r.source_asset.unwrap() as int
                == self.spec_source().unwrap(),
            r.destination_asset is Some <==> self.spec_destination() is Some,
            r.destination_asset is Some ==> r.destination_asset.unwrap() as int
                == self.spec_destination().unwrap(),
    {
        &self.request
    }

    /// The symbol of the chosen source asset, if one is chosen.
    pub fn source_symbol(&self) -> (r: Option<&String>)
        requires
            self.wf(),
        ensures
            match r {
                Some(s) => self.spec_source() is Some && s@ == self.spec_catalog().spec_symbol(
                    self.spec_source().unwrap(),
                ),
                None => self.spec_source() is None,
            },
    {
        match self.request.source_asset {
            Some(i) => Some(&self.catalog.assets[i].symbol),
            None => None,
        }
    }

    /// The symbol of the chosen destination asset, if one is chosen.
    pub fn destination_symbol(&self) -> (r: Option<&String>)
        requires
            self.wf(),
        ensures
            match r {
                Some(s) => self.spec_destination() is Some && s@
                    == self.spec_catalog().spec_symbol(self.spec_destination().unwrap()),
                None => self.spec_destination() is None,
            },
    {
        match self.request.destination_asset {
            Some(j) => Some(&self.catalog.assets[j].symbol),
            None => None,
        }
    }

    /// The raw amount string as entered so far.
    pub fn amount(&self) -> (r: &String)
        ensures
            r@ == self.spec_amount(),
    {
        &self.request.amount
    }

    /// The raw destination address as entered so far.
    pub fn address(&self) -> (r: &String)
        ensures
            r@ == self.spec_address(),
    {
        &self.request.destination_address
    }

    /// The current quote set.
    pub fn quotes(&self) -> (r: &QuoteSet)
        ensures
            qs_view(*r) == self.spec_quotes(),
    {
        &self.quotes
    }

    /// The index of the best quote in the quote set, if any.
    pub fn best(&self) -> (r: Option<usize>)
        ensures
            r is Some <==> self.spec_best() is Some,
            r is Some ==> r.unwrap() as int == self.spec_best().unwrap(),
    {
        self.best
    }

    /// The current status message.
    pub fn status(&self) -> (r: StatusMsg)
        ensures
            r == self.spec_status(),
    {
        self.status
    }

    /// The current summary/QR text, if one has been produced.
    pub fn summary(&self) -> (r: Option<&String>)
        ensures
            match r {
                Some(s) => self.spec_summary() == Some(s@),
                None => self.spec_summary() is None,
            },
    {
        self.summary.as_ref()
    }

    /// The input-interpretation mode the active stage presents: which editor
    /// or selector the next event is routed to. The summary overlay takes no
    /// text, so it presents the normal mode.
    pub fn input_mode(&self) -> (r: InputMode)
        ensures
            r == match self.spec_stage() {
                WorkflowStage::SelectingSource => InputMode::SelectingFrom,
                WorkflowStage::SelectingDestination => InputMode::SelectingTo,
                WorkflowStage::EnteringAmount => InputMode::EnteringAmount,
                WorkflowStage::EnteringAddress => InputMode::EnteringAddress,
                WorkflowStage::ShowingSummary => InputMode::Normal,
            },
    {
        match self.stage {
            WorkflowStage::SelectingSource => InputMode::SelectingFrom,
            WorkflowStage::SelectingDestination => InputMode::SelectingTo,
            WorkflowStage::EnteringAmount => InputMode::EnteringAmount,
            WorkflowStage::EnteringAddress => InputMode::EnteringAddress,
            WorkflowStage::ShowingSummary => InputMode::Normal,
        }
    }

    /// The highlight role the asset table shows for the cursor: a prospective
    /// source while selecting the source, a prospective destination while
    /// selecting the destination, and nothing elsewhere.
    pub fn selection_mode(&self) -> (r: SelectionMode)
        ensures
            r == match self.spec_stage() {
                WorkflowStage::SelectingSource => SelectionMode::FromAsset,
                WorkflowStage::SelectingDestination => SelectionMode::ToAsset,
                _ => SelectionMode::Normal,
            },
    {
        match self.stage {
            WorkflowStage::SelectingSource => SelectionMode::FromAsset,
            WorkflowStage::SelectingDestination => SelectionMode::ToAsset,
            _ => SelectionMode::Normal,
        }
    }
}

/// The request fields are the same in both states.
pub open spec fn same_request(pre: Workflow, post: Workflow) -> bool {
    &&& post.spec_source() == pre.spec_source()
    &&& post.spec_destination() == pre.spec_destination()
    &&& post.spec_amount() == pre.spec_amount()
    &&& post.spec_address() == pre.spec_address()
}

/// The derived quote data is the same in both states.
pub open spec fn same_derived(pre: Workflow, post: Workflow) -> bool {
    &&& post.spec_quotes() == pre.spec_quotes()
    &&& post.spec_best() == pre.spec_best()
    &&& post.spec_summary() == pre.spec_summary()
}

/// Nothing observable changed.
pub open spec fn unchanged(pre: Workflow, post: Workflow) -> bool {
    &&& post.spec_stage() == pre.spec_stage()
    &&& post.spec_cursor() == pre.spec_cursor()
    &&& same_request(pre, post)
    &&& same_derived(pre, post)
    &&& post.spec_status() == pre.spec_status()
}

/// What a quote refresh establishes, for source asset `i`, destination asset
/// `j`, the prior amount string `amt0` and the address `address`: an empty
/// amount is first replaced by the documented default of `"1.0"`; the quote
/// set is rebuilt in full; the best quote is re-selected; the status reports
/// the outcome; and the summary/QR text is produced exactly when the amount
/// is valid, a best quote exists and the address is non-empty.
pub open spec fn refresh_post(
    cat: Catalog,
    i: int,
    j: int,
    amt0: Seq<char>,
    address: Seq<char>,
    post: Workflow,
) -> bool {
    let amt = if amt0.len() == 0 {
        default_amount()
    } else {
        amt0
    };
    let ok = spec_amount_ok(amt);
    let entries = if ok {
        spec_quote_entries(cat, i, j, amount_val(amt), cat.k())
    } else {
        Seq::<(Seq<char>, u128)>::empty()
    };
    &&& post.spec_amount() == amt
    &&& post.spec_quotes() == entries
    &&& post.spec_best() == spec_best_of(entries)
    &&& post.spec_status() == (if !ok {
        StatusMsg::InvalidAmount
    } else if entries.len() == 0 {
        StatusMsg::NoQuotesAvailable
    } else {
        StatusMsg::QuotesRefreshed
    })
    &&& post.spec_summary() == (if ok && entries.len() > 0 && address.len() > 0 {
        Some(
            qr_code_chars(
                cat.spec_symbol(i),
                cat.spec_symbol(j),
                amt,
                address,
                entries[best_index(entries, entries.len() as int)].0,
                entries[best_index(entries, entries.len() as int)].1 as int,
            ),
        )
    } else {
        None::<Seq<char>>
    })
}

/// What `Up` or `Down` does: in a selection stage the cursor moves one row
/// with wraparound and everything else stays; elsewhere the event is ignored.
pub open spec fn nav_rel(pre: Workflow, post: Workflow, m: Msg, up: bool) -> bool {
    if pre.spec_stage() == WorkflowStage::SelectingSource || pre.spec_stage()
        == WorkflowStage::SelectingDestination {
        let c = if up {
            dec_wrap(pre.spec_cursor(), pre.spec_catalog().n())
        } else {
            inc_wrap(pre.spec_cursor(), pre.spec_catalog().n())
        };
        &&& post.spec_stage() == pre.spec_stage()
        &&& post.spec_cursor() == c
        &&& same_request(pre, post)
        &&& same_derived(pre, post)
        &&& post.spec_status() == pre.spec_status()
        &&& m == Msg::AssetSelected(c as usize)
    } else {
        unchanged(pre, post) && m == Msg::Noop
    }
}

/// What `Confirm` does in each stage.
///
/// Choosing a source records the cursor's asset, clears all derived quote
/// data, and moves on to destination selection. Choosing a destination
/// records the cursor's asset — the same asset as the source is permitted, a
/// swap at the unit rate — and moves on to the amount, refreshing quotes if
/// the source is set. Confirming the amount requires it to be non-empty and
/// moves on to the address, refreshing if both assets are set. Confirming
/// the address shows the summary, refreshing (and producing the summary
/// text) if both assets and the amount are set. On the summary the event is
/// ignored.
pub open spec fn confirm_rel(pre: Workflow, post: Workflow, m: Msg) -> bool {
    let cat = pre.spec_catalog();
    match pre.spec_stage() {
        WorkflowStage::SelectingSource => {
            &&& post.spec_stage() == WorkflowStage::SelectingDestination
            &&& post.spec_cursor() == pre.spec_cursor()
            &&& post.spec_source() == Some(pre.spec_cursor())
            &&& post.spec_destination() == pre.spec_destination()
            &&& post.spec_amount() == pre.spec_amount()
            &&& post.spec_address() == pre.spec_address()
            &&& post.spec_quotes() == Seq::<(Seq<char>, u128)>::empty()
            &&& post.spec_best() is None
            &&& post.spec_summary() is None
            &&& post.spec_status() == StatusMsg::Idle
            &&& m == Msg::AssetChosenAsFrom(pre.spec_cursor() as usize)
        },
        WorkflowStage::SelectingDestination => {
            &&& post.spec_stage() == WorkflowStage::EnteringAmount
            &&& post.spec_cursor() == pre.spec_cursor()
            &&& post.spec_source() == pre.spec_source()
            &&& post.spec_destination() == Some(pre.spec_cursor())
            &&& post.spec_address() == pre.spec_address()
            &&& match pre.spec_source() {
                Some(i) => refresh_post(
                    cat,
                    i,
                    pre.spec_cursor(),
                    pre.spec_amount(),
                    pre.spec_address(),
                    post,
                ),
                None => {
                    &&& post.spec_amount() == pre.spec_amount()
                    &&& same_derived(pre, post)
                    &&& post.spec_status() == pre.spec_status()
                },
            }
            &&& m == Msg::AssetChosenAsTo(pre.spec_cursor() as usize)
        },
        WorkflowStage::EnteringAmount => {
            if pre.spec_amount().len() == 0 {
                &&& post.spec_stage() == pre.spec_stage()
                &&& post.spec_cursor() == pre.spec_cursor()
                &&& same_request(pre, post)
                &&& same_derived(pre, post)
                &&& post.spec_status() == StatusMsg::AmountRequired
                &&& m == Msg::Noop
            } else {
                &&& post.spec_stage() == WorkflowStage::EnteringAddress
                &&& post.spec_cursor() == pre.spec_cursor()
                &&& post.spec_source() == pre.spec_source()
                &&& post.spec_destination() == pre.spec_destination()
                &&& post.spec_address() == pre.spec_address()
                &&& match (pre.spec_source(), pre.spec_destination()) {
                    (Some(i), Some(j)) => refresh_post(
                        cat,
                        i,
                        j,
                        pre.spec_amount(),
                        pre.spec_address(),
                        post,
                    ),
                    _ => {
                        &&& post.spec_amount() == pre.spec_amount()
                        &&& same_derived(pre, post)
                        &&& post.spec_status() == pre.spec_status()
                    },
                }
                &&& m == Msg::Noop
            }
        },
        WorkflowStage::EnteringAddress => {
            &&& post.spec_stage() == WorkflowStage::ShowingSummary
            &&& post.spec_cursor() == pre.spec_cursor()
            &&& post.spec_source() == pre.spec_source()
            &&& post.spec_destination() == pre.spec_destination()
            &&& post.spec_address() == pre.spec_address()
            &&& match (pre.spec_source(), pre.spec_destination()) {
                (Some(i), Some(j)) => {
                    if pre.spec_amount().len() > 0 {
                        refresh_post(cat, i, j, pre.spec_amount(), pre.spec_address(), post)
                    } else {
                        &&& post.spec_amount() == pre.spec_amount()
                        &&& same_derived(pre, post)
                        &&& post.spec_status() == pre.spec_status()
                    }
                },
                _ => {
                    &&& post.spec_amount() == pre.spec_amount()
                    &&& same_derived(pre, post)
                    &&& post.spec_status() == pre.spec_status()
                },
            }
            &&& m == Msg::Noop
        },
        WorkflowStage::ShowingSummary => unchanged(pre, post) && m == Msg::Noop,
    }
}

/// What `Cancel` does: it rolls back one stage (aborting source selection
/// lands on the amount editor, the stage the dialogue circles back to), and
/// dismissing the summary returns to source selection with every entered
/// field intact.
pub open spec fn cancel_rel(pre: Workflow, post: Workflow, m: Msg) -> bool {
    &&& post.spec_cursor() == pre.spec_cursor()
    &&& same_request(pre, post)
    &&& same_derived(pre, post)
    &&& post.spec_status() == pre.spec_status()
    &&& match pre.spec_stage() {
        WorkflowStage::SelectingSource => post.spec_stage() == WorkflowStage::EnteringAmount && m
            == Msg::ExitAssetSelectionMode,
        WorkflowStage::SelectingDestination => post.spec_stage() == WorkflowStage::SelectingSource
            && m == Msg::ExitAssetSelectionMode,
        WorkflowStage::EnteringAmount => post.spec_stage() == WorkflowStage::SelectingSource && m
            == Msg::Noop,
        WorkflowStage::EnteringAddress => post.spec_stage() == WorkflowStage::EnteringAmount && m
            == Msg::Noop,
        WorkflowStage::ShowingSummary => post.spec_stage() == WorkflowStage::SelectingSource && m
            == Msg::Noop,
    }
}

/// What `Char(c)` does: while entering the amount, a digit is appended, and
/// one decimal point is accepted in total; while entering the address, any
/// character is appended; elsewhere the event is ignored.
pub open spec fn char_rel(pre: Workflow, c: char, post: Workflow, m: Msg) -> bool {
    &&& m == Msg::Noop
    &&& match pre.spec_stage() {
        WorkflowStage::EnteringAmount => {
            if spec_is_digit(c) || (c == '.' && !pre.spec_amount().contains('.')) {
                &&& post.spec_stage() == pre.spec_stage()
                &&& post.spec_cursor() == pre.spec_cursor()
                &&& post.spec_source() == pre.spec_source()
                &&& post.spec_destination() == pre.spec_destination()
                &&& post.spec_amount() == pre.spec_amount().push(c)
                &&& post.spec_address() == pre.spec_address()
                &&& same_derived(pre, post)
                &&& post.spec_status() == pre.spec_status()
            } else {
                unchanged(pre, post)
            }
        },
        WorkflowStage::EnteringAddress => {
            &&& post.spec_stage() == pre.spec_stage()
            &&& post.spec_cursor() == pre.spec_cursor()
            &&& post.spec_source() == pre.spec_source()
            &&& post.spec_destination() == pre.spec_destination()
            &&& post.spec_amount() == pre.spec_amount()
            &&& post.spec_address() == pre.spec_address().push(c)
            &&& same_derived(pre, post)
            &&& post.spec_status() == pre.spec_status()
        },
        _ => unchanged(pre, post),
    }
}

/// What `Backspace` does: it removes the last character of the text being
/// entered, if any; elsewhere the event is ignored.
pub open spec fn backspace_rel(pre: Workflow, post: Workflow, m: Msg) -> bool {
    &&& m == Msg::Noop
    &&& match pre.spec_stage() {
        WorkflowStage::EnteringAmount => {
            &&& post.spec_stage() == pre.spec_stage()
            &&& post.spec_cursor() == pre.spec_cursor()
            &&& post.spec_source() == pre.spec_source()
            &&& post.spec_destination() == pre.spec_destination()
            &&& post.spec_amount() == (if pre.spec_amount().len() > 0 {
                pre.spec_amount().drop_last()
            } else {
                pre.spec_amount()
            })
            &&& post.spec_address() == pre.spec_address()
            &&& same_derived(pre, post)
            &&& post.spec_status() == pre.spec_status()
        },
        WorkflowStage::EnteringAddress => {
            &&& post.spec_stage() == pre.spec_stage()
            &&& post.spec_cursor() == pre.spec_cursor()
            &&& post.spec_source() == pre.spec_source()
            &&& post.spec_destination() == pre.spec_destination()
            &&& post.spec_amount() == pre.spec_amount()
            &&& post.spec_address() == (if pre.spec_address().len() > 0 {
                pre.spec_address().drop_last()
            } else {
                pre.spec_address()
            })
            &&& same_derived(pre, post)
            &&& post.spec_status() == pre.spec_status()
        },
        _ => unchanged(pre, post),
    }
}

/// What a shortcut does: it jumps to the named stage from anywhere. Jumping
/// to a selection stage seeds the cursor with the asset already chosen for
/// that role, if any, and otherwise leaves the cursor where it was.
pub open spec fn jump_rel(pre: Workflow, target: WorkflowStage, post: Workflow, m: Msg) -> bool {
    &&& post.spec_stage() == target
    &&& same_request(pre, post)
    &&& same_derived(pre, post)
    &&& post.spec_status() == pre.spec_status()
    &&& match target {
        WorkflowStage::SelectingSource => {
            &&& post.spec_cursor() == (match pre.spec_source() {
                Some(i) => i,
                None => pre.spec_cursor(),
            })
            &&& m == Msg::EnterFromAssetMode
        },
        WorkflowStage::SelectingDestination => {
            &&& post.spec_cursor() == (match pre.spec_destination() {
                Some(j) => j,
                None => pre.spec_cursor(),
            })
            &&& m == Msg::EnterToAssetMode
        },
        _ => post.spec_cursor() == pre.spec_cursor() && m == Msg::Noop,
    }
}

/// What `Quit` does: while the summary overlay is open it only dismisses the
/// overlay, back to source selection with every field intact; anywhere else
/// it asks the application to close, changing nothing.
pub open spec fn quit_rel(pre: Workflow, post: Workflow, m: Msg) -> bool {
    if pre.spec_stage() == WorkflowStage::ShowingSummary {
        &&& post.spec_stage() == WorkflowStage::SelectingSource
        &&& post.spec_cursor() == pre.spec_cursor()
        &&& same_request(pre, post)
        &&& same_derived(pre, post)
        &&& post.spec_status() == pre.spec_status()
        &&& m == Msg::Noop
    } else {
        unchanged(pre, post) && m == Msg::AppClose
    }
}

impl Workflow {
    /// Processes one input event: interprets it according to the active
    /// stage, updates the state exactly as `step_rel` prescribes, and reports
    /// what happened. `Msg::AppClose` asks the caller to exit; while the
    /// summary overlay is open, `Quit` only dismisses it, so one more quit or
    /// cancel is needed before the application actually exits.
    pub fn step(&mut self, ev: InputEvent) -> (m: Msg)
        requires
            old(self).wf(),
        ensures
            final(self).wf(),
            step_rel(*old(self), ev, *final(self), m),
    {
        match ev {
            InputEvent::Up => {
                match self.stage {
                    WorkflowStage::SelectingSource | WorkflowStage::SelectingDestination => {
                        let n = self.catalog.assets.len();
                        self.cursor = if self.cursor == 0 {
                            n - 1
                        } else {
                            self.cursor - 1
                        };
                        Msg::AssetSelected(self.cursor)
                    },
                    _ => Msg::Noop,
                }
            },
            InputEvent::Down => {
                match self.stage {
                    WorkflowStage::SelectingSource | WorkflowStage::SelectingDestination => {
                        let n = self.catalog.assets.len();
                        self.cursor = if self.cursor + 1 >= n {
                            0
                        } else {
                            self.cursor + 1
                        };
                        Msg::AssetSelected(self.cursor)
                    },
                    _ => Msg::Noop,
                }
            },
            InputEvent::Confirm => {
                match self.stage {
                    WorkflowStage::SelectingSource => {
                        self.request.source_asset = Some(self.cursor);
                        self.stage = WorkflowStage::SelectingDestination;
                        self.quotes = QuoteSet::new();
                        self.best = None;
                        self.summary = None;
                        self.status = StatusMsg::Idle;
                        proof {
                            assert(self.spec_quotes() =~= Seq::<(Seq<char>, u128)>::empty());
                        }
                        Msg::AssetChosenAsFrom(self.cursor)
                    },
                    WorkflowStage::SelectingDestination => {
                        self.request.destination_asset = Some(self.cursor);
                        self.stage = WorkflowStage::EnteringAmount;
                        if self.request.source_asset.is_some() {
                            self.refresh();
                        }
                        Msg::AssetChosenAsTo(self.cursor)
                    },
                    WorkflowStage::EnteringAmount => {
                        if self.request.amount.as_str().unicode_len() == 0 {
                            self.status = StatusMsg::AmountRequired;
                        } else {
                            self.stage = WorkflowStage::EnteringAddress;
                            if self.request.source_asset.is_some()
                                && self.request.destination_asset.is_some() {
                                self.refresh();
                            }
                        }
                        Msg::Noop
                    },
                    WorkflowStage::EnteringAddress => {
                        self.stage = WorkflowStage::ShowingSummary;
                        if self.request.source_asset.is_some()
                            && self.request.destination_asset.is_some()
                            && self.request.amount.as_str().unicode_len() > 0 {
                            self.refresh();
                        }
                        Msg::Noop
                    },
                    WorkflowStage::ShowingSummary => Msg::Noop,
                }
            },
            InputEvent::Cancel => {
                match self.stage {
                    WorkflowStage::SelectingSource => {
                        self.stage = WorkflowStage::EnteringAmount;
                        Msg::ExitAssetSelectionMode
                    },
                    WorkflowStage::SelectingDestination => {
                        self.stage = WorkflowStage::SelectingSource;
                        Msg::ExitAssetSelectionMode
                    },
                    WorkflowStage::EnteringAmount => {
                        self.stage = WorkflowStage::SelectingSource;
                        Msg::Noop
                    },
                    WorkflowStage::EnteringAddress => {
                        self.stage = WorkflowStage::EnteringAmount;
                        Msg::Noop
                    },
                    WorkflowStage::ShowingSummary => {
                        self.stage = WorkflowStage::SelectingSource;
                        Msg::Noop
                    },
                }
            },
            InputEvent::Char(c) => {
                match self.stage {
                    WorkflowStage::EnteringAmount => {
                        if is_digit(c) || (c == '.' && !str_contains_char(
                            self.request.amount.as_str(),
                            '.',
                        )) {
                            string_push(&mut self.request.amount, c);
                        }
                        Msg::Noop
                    },
                    WorkflowStage::EnteringAddress => {
                        string_push(&mut self.request.destination_address, c);
                        Msg::Noop
                    },
                    _ => Msg::Noop,
                }
            },
            InputEvent::Backspace => {
                match self.stage {
                    WorkflowStage::EnteringAmount => {
                        let _ = string_pop(&mut self.request.amount);
                        Msg::Noop
                    },
                    WorkflowStage::EnteringAddress => {
                        let _ = string_pop(&mut self.request.destination_address);
                        Msg::Noop
                    },
                    _ => Msg::Noop,
                }
            },
            InputEvent::ShortcutSelectSource => {
                self.stage = WorkflowStage::SelectingSource;
                match self.request.source_asset {
                    Some(i) => {
                        self.cursor = i;
                    },
                    None => {},
                }
                Msg::EnterFromAssetMode
            },
            InputEvent::ShortcutSelectDestination => {
                self.stage = WorkflowStage::SelectingDestination;
                match self.request.destination_asset {
                    Some(j) => {
                        self.cursor = j;
                    },
                    None => {},
                }
                Msg::EnterToAssetMode
            },
            InputEvent::ShortcutEnterAmount => {
                self.stage = WorkflowStage::EnteringAmount;
                Msg::Noop
            },
            InputEvent::ShortcutEnterAddress => {
                self.stage = WorkflowStage::EnteringAddress;
                Msg::Noop
            },
            InputEvent::Quit => {
                if matches!(self.stage, WorkflowStage::ShowingSummary) {
                    self.stage = WorkflowStage::SelectingSource;
                    Msg::Noop
                } else {
                    Msg::AppClose
                }
            },
        }
    }
}

/// The full transition relation of one step: the catalog never changes, and
/// the event decides the rest.
pub open spec fn step_rel(pre: Workflow, ev: InputEvent, post: Workflow, m: Msg) -> bool {
    &&& post.spec_catalog() == pre.spec_catalog()
    &&& match ev {
        InputEvent::Up => nav_rel(pre, post, m, true),
        InputEvent::Down => nav_rel(pre, post, m, false),
        InputEvent::Confirm => confirm_rel(pre, post, m),
        InputEvent::Cancel => cancel_rel(pre, post, m),
        InputEvent::Char(c) => char_rel(pre, c, post, m),
        InputEvent::Backspace => backspace_rel(pre, post, m),
        InputEvent::ShortcutSelectSource => jump_rel(
            pre,
            WorkflowStage::SelectingSource,
            post,
            m,
        ),
        InputEvent::ShortcutSelectDestination => jump_rel(
            pre,
            WorkflowStage::SelectingDestination,
            post,
            m,
        ),
        InputEvent::ShortcutEnterAmount => jump_rel(pre, WorkflowStage::EnteringAmount, post, m),
        InputEvent::ShortcutEnterAddress => jump_rel(pre, WorkflowStage::EnteringAddress, post, m),
        InputEvent::Quit => quit_rel(pre, post, m),
    }
}

} // verus!
