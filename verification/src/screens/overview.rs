//! The overview screens: stepping through months, the wallet list's groups,
//! and the totals shown above the investment and spending reports.
use vstd::prelude::*;

use crate::decimal::{checked_percent, checked_sum, percent_spec, sum_spec, Dec};
use crate::models::category::Category;
use crate::models::wallet::{Wallet, WalletType};
use crate::repository::transaction_repo::next_month;
use crate::services::report::{ExpenseByCategoryItem, InvestmentPnlItem};
use crate::text::clone_opt_string;

verus! {

// ─── Month picker ────────────────────────────────────────────────────────────

/// The month before `(year, month)`.
pub open spec fn prev_month(year: int, month: int) -> (int, int) {
    if month == 1 {
        (year - 1, 12)
    } else {
        (year, month - 1)
    }
}

/// The month before the one shown (January steps back to December).
pub fn previous_month(year: i32, month: u32) -> (r: (i32, u32))
    requires
        1 <= month <= 12,
        month == 1 ==> year > i32::MIN,
    ensures
        r.0 == prev_month(year as int, month as int).0,
        r.1 == prev_month(year as int, month as int).1,
{
    if month == 1 {
        (year - 1, 12)
    } else {
        (year, month - 1)
    }
}

/// The month after the one shown (December steps on to January).
pub fn following_month(year: i32, month: u32) -> (r: (i32, u32))
    requires
        1 <= month <= 12,
        month == 12 ==> year < i32::MAX,
    ensures
        r.0 == next_month(year as int, month as int).0,
        r.1 == next_month(year as int, month as int).1,
{
    if month == 12 {
        (year + 1, 1)
    } else {
        (year, month + 1)
    }
}

/// Stepping a month back and then forward, or forward and then back, returns
/// to the month shown; both steps stay within months 1 to 12.
pub proof fn lemma_month_steps_invert(year: int, month: int)
    requires
        1 <= month <= 12,
    ensures
        next_month(prev_month(year, month).0, prev_month(year, month).1) == (year, month),
        prev_month(next_month(year, month).0, next_month(year, month).1) == (year, month),
        1 <= prev_month(year, month).1 <= 12,
        1 <= next_month(year, month).1 <= 12,
{
}

// ─── Wallet list ─────────────────────────────────────────────────────────────

/// The wallets of `ws` that are (or are not) investment wallets, in order.
pub open spec fn wallets_where(ws: Seq<Wallet>, investment: bool) -> Seq<Wallet>
    decreases ws.len(),
{
    if ws.len() == 0 {
        ws
    } else if (ws.last().wallet_type == WalletType::Investment) == investment {
        wallets_where(ws.drop_last(), investment).push(ws.last())
    } else {
        wallets_where(ws.drop_last(), investment)
    }
}

fn copy_wallet(w: &Wallet) -> (r: Wallet)
    ensures
        r == *w,
{
    Wallet {
        id: w.id.clone(),
        name: w.name.clone(),
        wallet_type: w.wallet_type,
        currency: w.currency,
        balance: w.balance,
        broker: clone_opt_string(&w.broker),
        icon: clone_opt_string(&w.icon),
        color: clone_opt_string(&w.color),
        is_active: w.is_active,
        sort_order: w.sort_order,
        created_at: w.created_at,
    }
}

/// The wallet list's two groups, each in order: the everyday wallets and the
/// investment wallets.
pub fn group_wallets(wallets: &Vec<Wallet>) -> (r: (Vec<Wallet>, Vec<Wallet>))
    ensures
        r.0@ == wallets_where(wallets@, false),
        r.1@ == wallets_where(wallets@, true),
{
    let mut regular: Vec<Wallet> = Vec::new();
    let mut investment: Vec<Wallet> = Vec::new();
    let mut i: usize = 0;
    while i < wallets.len()
        invariant
            i <= wallets.len(),
            regular@ == wallets_where(wallets@.subrange(0, i as int), false),
            investment@ == wallets_where(wallets@.subrange(0, i as int), true),
        decreases wallets.len() - i,
    {
        let ghost t = wallets@.subrange(0, i + 1);
        assert(t.drop_last() =~= wallets@.subrange(0, i as int));
        assert(t.last() == wallets@[i as int]);
        if wallets[i].wallet_type == WalletType::Investment {
            investment.push(copy_wallet(&wallets[i]));
        } else {
            regular.push(copy_wallet(&wallets[i]));
        }
        i = i + 1;
    }
    assert(wallets@.subrange(0, wallets.len() as int) =~= wallets@);
    (regular, investment)
}

/// Every wallet falls in exactly one group: the two groups together hold the
/// wallets, as many of them as there are.
pub proof fn lemma_groups_partition(ws: Seq<Wallet>)
    ensures
        wallets_where(ws, false).len() + wallets_where(ws, true).len() == ws.len(),
        wallets_where(ws, false).to_multiset().add(wallets_where(ws, true).to_multiset())
            == ws.to_multiset(),
    decreases ws.len(),
{
    broadcast use vstd::seq_lib::group_to_multiset_ensures;

    if ws.len() > 0 {
        lemma_groups_partition(ws.drop_last());
        assert(ws =~= ws.drop_last().push(ws.last()));
        assert(wallets_where(ws, false).to_multiset().add(wallets_where(ws, true).to_multiset())
            =~= ws.to_multiset());
    } else {
        assert(wallets_where(ws, false).to_multiset() =~= ws.to_multiset());
    }
}

// ─── Category list ───────────────────────────────────────────────────────────

/// The categories of `cs` that are (or are not) system categories, in order.
pub open spec fn categories_where(cs: Seq<Category>, system: bool) -> Seq<Category>
    decreases cs.len(),
{
    if cs.len() == 0 {
        cs
    } else if cs.last().is_system == system {
        categories_where(cs.drop_last(), system).push(cs.last())
    } else {
        categories_where(cs.drop_last(), system)
    }
}

/// The category list's two groups, each in order: the user's own categories
/// (which can be edited and deleted) and the system ones.
pub fn group_categories(categories: &Vec<Category>) -> (r: (Vec<Category>, Vec<Category>))
    ensures
        r.0@ == categories_where(categories@, false),
        r.1@ == categories_where(categories@, true),
{
    let mut user: Vec<Category> = Vec::new();
    let mut system: Vec<Category> = Vec::new();
    let mut i: usize = 0;
    while i < categories.len()
        invariant
            i <= categories.len(),
            user@ == categories_where(categories@.subrange(0, i as int), false),
            system@ == categories_where(categories@.subrange(0, i as int), true),
        decreases categories.len() - i,
    {
        let ghost t = categories@.subrange(0, i + 1);
        assert(t.drop_last() =~= categories@.subrange(0, i as int));
        assert(t.last() == categories@[i as int]);
        if categories[i].is_system {
            system.push(categories[i].duplicate());
        } else {
            user.push(categories[i].duplicate());
        }
        i = i + 1;
    }
    assert(categories@.subrange(0, categories.len() as int) =~= categories@);
    (user, system)
}

// ─── Investment report ───────────────────────────────────────────────────────

/// The figures that are known, in order.
pub open spec fn known(s: Seq<Option<Dec>>) -> Seq<Dec>
    decreases s.len(),
{
    if s.len() == 0 {
        Seq::empty()
    } else {
        match s.last() {
            Some(x) => known(s.drop_last()).push(x),
            None => known(s.drop_last()),
        }
    }
}

/// The totals shown above the investment report.
#[derive(Clone, Copy, Debug, PartialEq)]
pub struct InvestmentTotals {
    pub cost_basis: Dec,
    /// The sum of the market values that are known.
    pub market_value: Dec,
    /// The sum of the unrealized P&L figures that are known.
    pub unrealized_pnl: Dec,
    pub realized_pnl: Dec,
}

/// The totals of the report lines; `None` where a sum overflows.
pub open spec fn investment_totals_spec(s: Seq<InvestmentPnlItem>) -> Option<InvestmentTotals> {
    match (
        sum_spec(s.map_values(|i: InvestmentPnlItem| i.cost_basis)),
        sum_spec(known(s.map_values(|i: InvestmentPnlItem| i.market_value))),
        sum_spec(known(s.map_values(|i: InvestmentPnlItem| i.unrealized_pnl))),
        sum_spec(s.map_values(|i: InvestmentPnlItem| i.realized_pnl)),
    ) {
        (Some(c), Some(m), Some(u), Some(r)) => Some(
            InvestmentTotals { cost_basis: c, market_value: m, unrealized_pnl: u, realized_pnl: r },
        ),
        _ => None,
    }
}

/// The figures of the report lines are representable decimals.
pub open spec fn pnl_items_wf(s: Seq<InvestmentPnlItem>) -> bool {
    forall|k: int|
        0 <= k < s.len() ==> {
            &&& (#[trigger] s[k]).cost_basis.wf()
            &&& s[k].realized_pnl.wf()
            &&& s[k].market_value matches Some(m) ==> m.wf()
            &&& s[k].unrealized_pnl matches Some(u) ==> u.wf()
        }
}

proof fn lemma_known_wf(s: Seq<Option<Dec>>)
    requires
        forall|k: int| 0 <= k < s.len() ==> (#[trigger] s[k] matches Some(x) ==> x.wf()),
    ensures
        forall|k: int| 0 <= k < known(s).len() ==> (#[trigger] known(s)[k]).wf(),
    decreases s.len(),
{
    if s.len() > 0 {
        let d = s.drop_last();
        assert forall|k: int| 0 <= k < d.len() implies (#[trigger] d[k] matches Some(x) ==> x.wf()) by {
            assert(d[k] == s[k]);
        }
        lemma_known_wf(d);
        assert(s[s.len() - 1] == s.last());
        match s.last() {
            Some(x) => {
                assert forall|k: int| 0 <= k < known(s).len() implies (#[trigger] known(s)[k]).wf() by {
                    assert(known(s) == known(d).push(x));
                    if k < known(d).len() {
                        assert(known(s)[k] == known(d)[k]);
                    }
                }
            },
            None => {
                assert(known(s) == known(d));
            },
        }
    }
}

fn known_values(s: &Vec<Option<Dec>>) -> (r: Vec<Dec>)
    ensures
        r@ == known(s@),
{
    let mut out: Vec<Dec> = Vec::new();
    let mut i: usize = 0;
    while i < s.len()
        invariant
            i <= s.len(),
            out@ == known(s@.subrange(0, i as int)),
        decreases s.len() - i,
    {
        let ghost t = s@.subrange(0, i + 1);
        assert(t.drop_last() =~= s@.subrange(0, i as int));
        assert(t.last() == s@[i as int]);
        match s[i] {
            Some(x) => out.push(x),
            None => {},
        }
        i = i + 1;
    }
    assert(s@.subrange(0, s.len() as int) =~= s@);
    out
}

/// The totals above the investment report: cost basis and realized P&L of
/// every line, market value and unrealized P&L of the lines where they are
/// known. `None` where a sum overflows.
pub fn investment_totals(items: &Vec<InvestmentPnlItem>) -> (r: Option<InvestmentTotals>)
    requires
        pnl_items_wf(items@),
    ensures
        r == investment_totals_spec(items@),
{
    let mut costs: Vec<Dec> = Vec::new();
    let mut values: Vec<Option<Dec>> = Vec::new();
    let mut pnls: Vec<Option<Dec>> = Vec::new();
    let mut realized: Vec<Dec> = Vec::new();
    let mut i: usize = 0;
    while i < items.len()
        invariant
            i <= items.len(),
            pnl_items_wf(items@),
            costs@ == items@.subrange(0, i as int).map_values(|x: InvestmentPnlItem| x.cost_basis),
            values@ == items@.subrange(0, i as int).map_values(|x: InvestmentPnlItem| x.market_value),
            pnls@ == items@.subrange(0, i as int).map_values(|x: InvestmentPnlItem| x.unrealized_pnl),
            realized@ == items@.subrange(0, i as int).map_values(|x: InvestmentPnlItem| x.realized_pnl),
        decreases items.len() - i,
    {
        costs.push(items[i].cost_basis);
        values.push(items[i].market_value);
        pnls.push(items[i].unrealized_pnl);
        realized.push(items[i].realized_pnl);
        i = i + 1;
        assert(costs@ =~= items@.subrange(0, i as int).map_values(|x: InvestmentPnlItem| x.cost_basis));
        assert(values@ =~= items@.subrange(0, i as int).map_values(|x: InvestmentPnlItem| x.market_value));
        assert(pnls@ =~= items@.subrange(0, i as int).map_values(|x: InvestmentPnlItem| x.unrealized_pnl));
        assert(realized@ =~= items@.subrange(0, i as int).map_values(|x: InvestmentPnlItem| x.realized_pnl));
    }
    assert(items@.subrange(0, items.len() as int) =~= items@);
    let mvs = known_values(&values);
    let ups = known_values(&pnls);
    proof {
        lemma_known_wf(values@);
        lemma_known_wf(pnls@);
    }
    let c = match checked_sum(&costs) {
        Some(x) => x,
        None => return None,
    };
    let m = match checked_sum(&mvs) {
        Some(x) => x,
        None => return None,
    };
    let u = match checked_sum(&ups) {
        Some(x) => x,
        None => return None,
    };
    let r = match checked_sum(&realized) {
        Some(x) => x,
        None => return None,
    };
    Some(InvestmentTotals { cost_basis: c, market_value: m, unrealized_pnl: u, realized_pnl: r })
}

// ─── Spending report ─────────────────────────────────────────────────────────

/// The month's spending: the sum of the report's lines; `None` on overflow.
pub fn spending_total(items: &Vec<ExpenseByCategoryItem>) -> (r: Option<Dec>)
    requires
        forall|k: int| 0 <= k < items.len() ==> (#[trigger] items[k]).amount.wf(),
    ensures
        r == sum_spec(items@.map_values(|i: ExpenseByCategoryItem| i.amount)),
{
    let mut amounts: Vec<Dec> = Vec::new();
    let mut i: usize = 0;
    while i < items.len()
        invariant
            i <= items.len(),
            forall|k: int| 0 <= k < items.len() ==> (#[trigger] items[k]).amount.wf(),
            amounts@ == items@.subrange(0, i as int).map_values(|x: ExpenseByCategoryItem| x.amount),
            forall|k: int| 0 <= k < amounts.len() ==> (#[trigger] amounts[k]).wf(),
        decreases items.len() - i,
    {
        amounts.push(items[i].amount);
        i = i + 1;
        assert(amounts@ =~= items@.subrange(0, i as int).map_values(|x: ExpenseByCategoryItem| x.amount));
    }
    assert(items@.subrange(0, items.len() as int) =~= items@);
    checked_sum(&amounts)
}

/// How much of a line's budget is spent, as a percentage: `amount / budget
/// * 100` for a positive budget; nothing without one. The outer `None` marks
/// an overflow.
pub fn budget_used_pct(item: &ExpenseByCategoryItem) -> (r: Option<Option<Dec>>)
    requires
        item.amount.wf(),
        item.budget_amount matches Some(b) ==> b.wf(),
    ensures
        match item.budget_amount {
            Some(b) => if b.value() > 0 {
                match percent_spec(item.amount, b) {
                    Some(p) => r == Some(Some(p)),
                    None => r is None,
                }
            } else {
                r == Some(None::<Dec>)
            },
            None => r == Some(None::<Dec>),
        },
{
    match item.budget_amount {
        Some(b) => if Dec::zero().lt(b) {
            match checked_percent(item.amount, b) {
                Some(p) => Some(Some(p)),
                None => None,
            }
        } else {
            Some(None)
        },
        None => Some(None),
    }
}

} // verus!
