//! What the list and chart screens show: the transactions matching a note
//! search, a portfolio's totals, the scale of the income/expense chart.
use vstd::prelude::*;

use crate::decimal::{checked_sum, max_spec, sub_spec, sum_spec, Dec};
use crate::models::transaction::{Transaction, TransactionType};
use crate::repository::transaction_repo::TxnFilter;
use crate::services::holding::HoldingWithPnl;
use crate::services::report::MonthlySummary;
use crate::text::{contains_text, lowercase_text, text_contains, to_lowercase};

verus! {

// ─── Transaction list ────────────────────────────────────────────────────────

/// A transaction's note, empty when it has none.
pub open spec fn note_text(t: Transaction) -> Seq<char> {
    match t.note {
        Some(n) => n@,
        None => Seq::empty(),
    }
}

/// The transaction's note, lowercased, contains `query`.
pub open spec fn note_matches(t: Transaction, query: Seq<char>) -> bool {
    contains_text(lowercase_text(note_text(t)), query)
}

/// The transactions of `s` whose note matches `query`, in order.
pub open spec fn matching(s: Seq<Transaction>, query: Seq<char>) -> Seq<Transaction>
    decreases s.len(),
{
    if s.len() == 0 {
        s
    } else if note_matches(s.last(), query) {
        matching(s.drop_last(), query).push(s.last())
    } else {
        matching(s.drop_last(), query)
    }
}

/// The transactions shown for a note search: all of them for an empty
/// search, else those whose note contains the search, both lowercased.
pub open spec fn search_spec(s: Seq<Transaction>, query: Seq<char>) -> Seq<Transaction> {
    if lowercase_text(query).len() == 0 {
        s
    } else {
        matching(s, lowercase_text(query))
    }
}

fn note_matches_exec(t: &Transaction, query: &str) -> (r: bool)
    ensures
        r == note_matches(*t, query@),
{
    proof {
        reveal_strlit("");
    }
    let note: &str = match &t.note {
        Some(n) => n.as_str(),
        None => "",
    };
    assert(""@ =~= Seq::<char>::empty());
    let lower = to_lowercase(note);
    text_contains(lower.as_str(), query)
}

/// The filter of the transaction list: the latest `limit` transactions, of
/// one kind or all.
pub fn latest_filter(txn_type: Option<TransactionType>, limit: u32) -> (r: TxnFilter)
    ensures
        r.txn_type == txn_type,
        r.limit == Some(limit),
        r.wallet_id is None,
        r.category_id is None,
        r.date_from is None,
        r.date_to is None,
        r.offset is None,
{
    TxnFilter {
        wallet_id: None,
        category_id: None,
        txn_type,
        date_from: None,
        date_to: None,
        limit: Some(limit),
        offset: None,
    }
}

/// The filter of a wallet's history: its latest `limit` transactions, out of
/// it or (for transfers) into it.
pub fn wallet_history_filter(wallet_id: &str, limit: u32) -> (r: TxnFilter)
    ensures
        r.wallet_id matches Some(w) && w@ == wallet_id@,
        r.limit == Some(limit),
        r.txn_type is None,
        r.category_id is None,
        r.date_from is None,
        r.date_to is None,
        r.offset is None,
{
    TxnFilter {
        wallet_id: Some(wallet_id.to_owned()),
        category_id: None,
        txn_type: None,
        date_from: None,
        date_to: None,
        limit: Some(limit),
        offset: None,
    }
}

/// The sign shown before an amount in a wallet's history: `+` for money in
/// (an income, a sale), `-` otherwise.
pub fn history_sign(txn_type: TransactionType) -> (r: &'static str)
    ensures
        (txn_type == TransactionType::Income || txn_type == TransactionType::InvestSell) ==> r@
            == "+"@,
        !(txn_type == TransactionType::Income || txn_type == TransactionType::InvestSell) ==> r@
            == "-"@,
{
    match txn_type {
        TransactionType::Income | TransactionType::InvestSell => "+",
        _ => "-",
    }
}

/// The transactions shown for the note search `query`.
pub fn search_by_note(txns: &Vec<Transaction>, query: &str) -> (r: Vec<Transaction>)
    ensures
        r@ == search_spec(txns@, query@),
{
    let q = to_lowercase(query);
    let mut out: Vec<Transaction> = Vec::new();
    let mut i: usize = 0;
    let empty = q.as_str().is_empty();
    while i < txns.len()
        invariant
            i <= txns.len(),
            q@ == lowercase_text(query@),
            empty == (q@.len() == 0),
            empty ==> out@ == txns@.subrange(0, i as int),
            !empty ==> out@ == matching(txns@.subrange(0, i as int), q@),
        decreases txns.len() - i,
    {
        let ghost prefix = txns@.subrange(0, i + 1);
        assert(prefix.drop_last() =~= txns@.subrange(0, i as int));
        assert(prefix.last() == txns@[i as int]);
        if empty || note_matches_exec(&txns[i], q.as_str()) {
            out.push(txns[i].duplicate());
        }
        i = i + 1;
        assert(empty ==> out@ =~= txns@.subrange(0, i as int));
    }
    assert(txns@.subrange(0, txns.len() as int) =~= txns@);
    out
}

// ─── Portfolio totals ────────────────────────────────────────────────────────

/// The totals shown above a wallet's holdings.
#[derive(Clone, Copy, Debug, PartialEq)]
pub struct PortfolioTotals {
    /// The sum of the cost bases.
    pub cost_basis: Dec,
    /// The sum of the market values, when every holding has one.
    pub market_value: Option<Dec>,
    /// Market value minus cost basis, when the market value is known.
    pub unrealized_pnl: Option<Dec>,
}

pub open spec fn cost_bases(s: Seq<HoldingWithPnl>) -> Seq<Dec> {
    s.map_values(|h: HoldingWithPnl| h.cost_basis)
}

pub open spec fn market_values(s: Seq<HoldingWithPnl>) -> Seq<Dec> {
    s.map_values(|h: HoldingWithPnl| h.market_value->0)
}

/// Every holding has a market value, and there is at least one.
pub open spec fn all_valued(s: Seq<HoldingWithPnl>) -> bool {
    s.len() > 0 && forall|i: int| 0 <= i < s.len() ==> (#[trigger] s[i]).market_value is Some
}

/// The totals of the holdings; `None` where a sum overflows.
pub open spec fn totals_spec(s: Seq<HoldingWithPnl>) -> Option<PortfolioTotals> {
    match sum_spec(cost_bases(s)) {
        None => None,
        Some(cost) => if all_valued(s) {
            match sum_spec(market_values(s)) {
                None => None,
                Some(mv) => match sub_spec(mv, cost) {
                    None => None,
                    Some(pnl) => Some(
                        PortfolioTotals { cost_basis: cost, market_value: Some(mv), unrealized_pnl: Some(pnl) },
                    ),
                },
            }
        } else {
            Some(PortfolioTotals { cost_basis: cost, market_value: None, unrealized_pnl: None })
        },
    }
}

/// The figures of the holdings are representable decimals.
pub open spec fn figures_wf(s: Seq<HoldingWithPnl>) -> bool {
    forall|i: int|
        0 <= i < s.len() ==> (#[trigger] s[i]).cost_basis.wf() && (s[i].market_value matches Some(
            m,
        ) ==> m.wf())
}

/// The totals shown above a wallet's holdings; `None` where a sum
/// overflows.
pub fn portfolio_totals(items: &Vec<HoldingWithPnl>) -> (r: Option<PortfolioTotals>)
    requires
        figures_wf(items@),
    ensures
        r == totals_spec(items@),
{
    let mut costs: Vec<Dec> = Vec::new();
    let mut values: Vec<Dec> = Vec::new();
    let mut valued = true;
    let mut i: usize = 0;
    while i < items.len()
        invariant
            i <= items.len(),
            figures_wf(items@),
            costs@ == cost_bases(items@.subrange(0, i as int)),
            valued == forall|k: int| 0 <= k < i ==> (#[trigger] items@[k]).market_value is Some,
            valued ==> values@ == market_values(items@.subrange(0, i as int)),
            forall|k: int| 0 <= k < costs.len() ==> (#[trigger] costs[k]).wf(),
            forall|k: int| 0 <= k < values.len() ==> (#[trigger] values[k]).wf(),
        decreases items.len() - i,
    {
        costs.push(items[i].cost_basis);
        match items[i].market_value {
            Some(m) => {
                if valued {
                    values.push(m);
                }
            },
            None => {
                valued = false;
            },
        }
        i = i + 1;
        assert(costs@ =~= cost_bases(items@.subrange(0, i as int)));
        assert(valued ==> values@ =~= market_values(items@.subrange(0, i as int)));
    }
    assert(items@.subrange(0, items.len() as int) =~= items@);
    let cost = match checked_sum(&costs) {
        Some(c) => c,
        None => return None,
    };
    if valued && items.len() > 0 {
        let mv = match checked_sum(&values) {
            Some(m) => m,
            None => return None,
        };
        match mv.checked_sub(cost) {
            Some(pnl) => Some(
                PortfolioTotals { cost_basis: cost, market_value: Some(mv), unrealized_pnl: Some(pnl) },
            ),
            None => None,
        }
    } else {
        Some(PortfolioTotals { cost_basis: cost, market_value: None, unrealized_pnl: None })
    }
}

// ─── Timeline chart ──────────────────────────────────────────────────────────

/// The amounts drawn by the chart: each month's income, then its expense.
pub open spec fn chart_values(s: Seq<MonthlySummary>) -> Seq<Dec>
    decreases s.len(),
{
    if s.len() == 0 {
        Seq::empty()
    } else {
        chart_values(s.drop_last()).push(s.last().income).push(s.last().expense)
    }
}

/// The largest amount, the last one of equal largest amounts
/// (`Iterator::max`); `None` for no amounts.
pub open spec fn largest(v: Seq<Dec>) -> Option<Dec>
    decreases v.len(),
{
    if v.len() == 0 {
        None
    } else {
        match largest(v.drop_last()) {
            None => Some(v.last()),
            Some(m) => Some(
                if m.value() <= v.last().value() {
                    v.last()
                } else {
                    m
                },
            ),
        }
    }
}

/// The decimal one.
pub open spec fn one() -> Dec {
    Dec { mantissa: 1, scale: 0 }
}

/// The chart's scale: its largest amount, and at least one.
pub open spec fn chart_max_spec(s: Seq<MonthlySummary>) -> Dec {
    match largest(chart_values(s)) {
        None => max_spec(one(), one()),
        Some(m) => max_spec(m, one()),
    }
}

/// The amounts of the summaries are representable decimals.
pub open spec fn summaries_wf(s: Seq<MonthlySummary>) -> bool {
    forall|i: int| 0 <= i < s.len() ==> (#[trigger] s[i]).income.wf() && s[i].expense.wf()
}

/// The scale of the income/expense chart: the largest income or expense of
/// the months shown, and at least one.
pub fn chart_max(summaries: &Vec<MonthlySummary>) -> (r: Dec)
    requires
        summaries_wf(summaries@),
    ensures
        r == chart_max_spec(summaries@),
{
    let mut best: Option<Dec> = None;
    let mut i: usize = 0;
    while i < summaries.len()
        invariant
            i <= summaries.len(),
            summaries_wf(summaries@),
            best == largest(chart_values(summaries@.subrange(0, i as int))),
            best matches Some(b) ==> b.wf(),
        decreases summaries.len() - i,
    {
        let ghost before = chart_values(summaries@.subrange(0, i as int));
        let s = &summaries[i];
        assert(summaries@.subrange(0, i + 1).drop_last() =~= summaries@.subrange(0, i as int));
        let ghost mid = before.push(s.income);
        let ghost after = mid.push(s.expense);
        assert(after.drop_last() =~= mid);
        assert(mid.drop_last() =~= before);
        let ghost t = summaries@.subrange(0, i + 1);
        assert(t.last() == *s);
        assert(chart_values(t) == after);
        best = match best {
            None => Some(s.income),
            Some(b) => Some(
                if b.le(s.income) {
                    s.income
                } else {
                    b
                },
            ),
        };
        best = match best {
            None => Some(s.expense),
            Some(b) => Some(
                if b.le(s.expense) {
                    s.expense
                } else {
                    b
                },
            ),
        };
        assert(largest(mid) == match largest(before) {
            None => Some(s.income),
            Some(m) => Some(
                if m.value() <= s.income.value() {
                    s.income
                } else {
                    m
                },
            ),
        });
        assert(best == largest(after));
        i = i + 1;
    }
    assert(summaries@.subrange(0, summaries.len() as int) =~= summaries@);
    let one = Dec { mantissa: 1, scale: 0 };
    match best {
        None => one.max(one),
        Some(b) => b.max(one),
    }
}

} // verus!
