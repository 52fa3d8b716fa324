//! Reports: monthly summaries, spending by category, budget alerts,
//! investment performance and net worth.
use vstd::prelude::*;

use crate::decimal::{
    add_spec, checked_percent, checked_sum, div_spec, exact_product, exact_quotient,
    lemma_pow10_positive, mul_spec, percent_spec, pow10, sub_spec, sum_spec, Dec,
};
use crate::models::category::Category;
use crate::models::holding::Holding;
use crate::models::wallet::{Currency, Wallet};
use crate::repository::transaction_repo::next_month;
use crate::text::clone_opt_string;

verus! {

/// Income and expense of one month.
#[derive(Clone, Debug, PartialEq)]
pub struct MonthlySummary {
    pub year: i32,
    pub month: u32,
    pub income: Dec,
    pub expense: Dec,
    pub savings: Dec,
    /// Savings as a percentage of income.
    pub savings_rate: Dec,
    /// Net inflow from other accounts (not computed; always zero).
    pub net_transfers: Dec,
}

/// Spending in one category during a month.
#[derive(Clone, Debug, PartialEq)]
pub struct ExpenseByCategoryItem {
    pub category_id: String,
    pub category_name: String,
    pub icon: Option<String>,
    pub color: Option<String>,
    pub amount: Dec,
    /// Percentage of the month's total expense.
    pub share_pct: Dec,
    pub is_over_budget: bool,
    pub budget_amount: Option<Dec>,
}

/// Performance of one holding.
#[derive(Clone, Debug, PartialEq)]
pub struct InvestmentPnlItem {
    pub holding_id: String,
    pub symbol: String,
    pub name: Option<String>,
    pub wallet_id: String,
    pub quantity: Dec,
    pub avg_buy_price: Dec,
    pub last_price: Option<Dec>,
    pub cost_basis: Dec,
    pub market_value: Option<Dec>,
    pub realized_pnl: Dec,
    pub unrealized_pnl: Option<Dec>,
    pub unrealized_pnl_pct: Option<Dec>,
}

/// Total balance per currency; currencies are never converted.
#[derive(Clone, Debug, PartialEq)]
pub struct NetWorth {
    pub vnd: Dec,
    pub usd: Dec,
    pub gold: Dec,
}

/// A category whose spending went over its budget.
#[derive(Clone, Debug, PartialEq)]
pub struct OverspendingAlert {
    pub category_id: String,
    pub category_name: String,
    pub budget: Dec,
    pub spent: Dec,
    pub overage: Dec,
    pub overage_pct: Dec,
}

/// Reports computed from the records.
pub struct ReportService;

/// `(a / b) * 100` when `b > 0`, else zero; `None` where a step overflows.
pub open spec fn share_spec(a: Dec, b: Dec) -> Option<Dec> {
    if b.value() > 0 {
        percent_spec(a, b)
    } else {
        Some(Dec::spec_zero())
    }
}

fn share(a: Dec, b: Dec) -> (r: Option<Dec>)
    requires
        a.wf(),
        b.wf(),
    ensures
        r == share_spec(a, b),
        r matches Some(d) ==> d.wf(),
{
    if Dec::zero().lt(b) {
        checked_percent(a, b)
    } else {
        Some(Dec::zero())
    }
}

/// The summary of a month with the given income and expense totals:
/// `savings = income - expense` and `savings_rate = savings / income * 100`
/// (zero without income). `None` where a step overflows.
pub open spec fn monthly_summary_spec(year: i32, month: u32, income: Dec, expense: Dec) -> Option<
    MonthlySummary,
> {
    match sub_spec(income, expense) {
        None => None,
        Some(savings) => match share_spec(savings, income) {
            None => None,
            Some(rate) => Some(
                MonthlySummary {
                    year,
                    month,
                    income,
                    expense,
                    savings,
                    savings_rate: rate,
                    net_transfers: Dec::spec_zero(),
                },
            ),
        },
    }
}

fn monthly_summary_opt(year: i32, month: u32, income: Dec, expense: Dec) -> (r: Option<
    MonthlySummary,
>)
    requires
        income.wf(),
        expense.wf(),
    ensures
        r == monthly_summary_spec(year, month, income, expense),
{
    let savings = match income.checked_sub(expense) {
        Some(s) => s,
        None => return None,
    };
    match share(savings, income) {
        Some(rate) => Some(
            MonthlySummary {
                year,
                month,
                income,
                expense,
                savings,
                savings_rate: rate,
                net_transfers: Dec::zero(),
            },
        ),
        None => None,
    }
}

/// The `k`-th of the `months` months that end with the current one, oldest
/// first, as (year, month 1-12); `now_total` is `year * 12 + month0` now.
pub open spec fn trend_period(now_total: int, months: int, k: int) -> (i32, u32) {
    let target = now_total - (months - 1 - k);
    ((target / 12) as i32, (target % 12 + 1) as u32)
}

/// Month number `t + 1` (counting `year * 12 + month0`) is the month after
/// month number `t`.
proof fn lemma_next_period(t: int)
    requires
        t >= 0,
    ensures
        ((t + 1) / 12) == next_month(t / 12, t % 12 + 1).0,
        ((t + 1) % 12 + 1) == next_month(t / 12, t % 12 + 1).1,
        1 <= t % 12 + 1 <= 12,
{
}

/// The category with the given id, the last one listed if several are.
pub open spec fn find_category(cats: Seq<Category>, id: Seq<char>) -> Option<Category>
    decreases cats.len(),
{
    if cats.len() == 0 {
        None
    } else if cats.last().id@ == id {
        Some(cats.last())
    } else {
        find_category(cats.drop_last(), id)
    }
}

/// The report line of the category `cat_id` with `amount` spent, out of
/// `total`: the category's name, icon, color and budget (the id as name if the
/// category is unknown), the share of the total, and whether the amount is
/// over the budget. `None` where a step overflows.
pub open spec fn expense_item_spec(
    cat_id: String,
    amount: Dec,
    total: Dec,
    cats: Seq<Category>,
) -> Option<ExpenseByCategoryItem> {
    match share_spec(amount, total) {
        None => None,
        Some(share_pct) => {
            let found = find_category(cats, cat_id@);
            let budget = match found {
                Some(c) => c.budget_amount,
                None => None,
            };
            Some(
                ExpenseByCategoryItem {
                    category_id: cat_id,
                    category_name: match found {
                        Some(c) => c.name,
                        None => cat_id,
                    },
                    icon: match found {
                        Some(c) => c.icon,
                        None => None,
                    },
                    color: match found {
                        Some(c) => c.color,
                        None => None,
                    },
                    amount,
                    share_pct,
                    is_over_budget: match budget {
                        Some(b) => amount.value() > b.value(),
                        None => false,
                    },
                    budget_amount: budget,
                },
            )
        },
    }
}

/// The report lines of the raw per-category sums, in their order; `None`
/// where a step overflows.
pub open spec fn expense_items_spec(raw: Seq<(String, Dec)>, total: Dec, cats: Seq<Category>) -> Option<
    Seq<ExpenseByCategoryItem>,
>
    decreases raw.len(),
{
    if raw.len() == 0 {
        Some(Seq::empty())
    } else {
        match expense_items_spec(raw.drop_last(), total, cats) {
            None => None,
            Some(prefix) => match expense_item_spec(raw.last().0, raw.last().1, total, cats) {
                None => None,
                Some(item) => Some(prefix.push(item)),
            },
        }
    }
}

/// `s` (sorted by decreasing amount) with `x` inserted after every line whose
/// amount is at least `x`'s.
pub open spec fn insert_by_amount(s: Seq<ExpenseByCategoryItem>, x: ExpenseByCategoryItem) -> Seq<
    ExpenseByCategoryItem,
>
    decreases s.len(),
{
    if s.len() == 0 {
        seq![x]
    } else if s.last().amount.value() >= x.amount.value() {
        s.push(x)
    } else {
        insert_by_amount(s.drop_last(), x).push(s.last())
    }
}

/// The lines sorted by decreasing amount, lines of equal amount keeping
/// their order (a stable sort).
pub open spec fn sort_by_amount(s: Seq<ExpenseByCategoryItem>) -> Seq<ExpenseByCategoryItem>
    decreases s.len(),
{
    if s.len() == 0 {
        s
    } else {
        insert_by_amount(sort_by_amount(s.drop_last()), s.last())
    }
}

/// Every line of `s` has an amount at least that of every later line.
pub open spec fn by_decreasing_amount(s: Seq<ExpenseByCategoryItem>) -> bool {
    forall|i: int, j: int|
        0 <= i < j < s.len() ==> (#[trigger] s[i]).amount.value() >= (#[trigger] s[j]).amount.value()
}

proof fn lemma_insert_bounded_amount(s: Seq<ExpenseByCategoryItem>, x: ExpenseByCategoryItem, v: int)
    requires
        forall|i: int| 0 <= i < s.len() ==> (#[trigger] s[i]).amount.value() >= v,
        x.amount.value() >= v,
    ensures
        insert_by_amount(s, x).len() == s.len() + 1,
        forall|i: int|
            0 <= i < insert_by_amount(s, x).len() ==> (#[trigger] insert_by_amount(s, x)[i]).amount.value()
                >= v,
    decreases s.len(),
{
    if s.len() > 0 && s.last().amount.value() < x.amount.value() {
        lemma_insert_bounded_amount(s.drop_last(), x, v);
        let r = insert_by_amount(s.drop_last(), x);
        assert forall|i: int| 0 <= i < r.push(s.last()).len() implies (#[trigger] r.push(
            s.last(),
        )[i]).amount.value() >= v by {
            if i == r.len() {
                assert(s[s.len() - 1] == s.last());
            }
        }
    }
}

/// Inserting a line into lines sorted by decreasing amount keeps them so,
/// and adds exactly that line.
pub proof fn lemma_insert_by_amount(s: Seq<ExpenseByCategoryItem>, x: ExpenseByCategoryItem)
    requires
        by_decreasing_amount(s),
    ensures
        by_decreasing_amount(insert_by_amount(s, x)),
        insert_by_amount(s, x).to_multiset() == s.to_multiset().insert(x),
    decreases s.len(),
{
    broadcast use vstd::seq_lib::group_to_multiset_ensures;

    if s.len() == 0 {
        assert(seq![x] =~= Seq::<ExpenseByCategoryItem>::empty().push(x));
        assert(s =~= Seq::<ExpenseByCategoryItem>::empty());
    } else if s.last().amount.value() >= x.amount.value() {
        let r = s.push(x);
        assert forall|i: int, j: int| 0 <= i < j < r.len() implies (#[trigger] r[i]).amount.value()
            >= (#[trigger] r[j]).amount.value() by {
            if j == s.len() && i < s.len() - 1 {
                assert(s[i].amount.value() >= s[s.len() - 1].amount.value());
            }
        }
    } else {
        let d = s.drop_last();
        let last = s.last();
        assert(by_decreasing_amount(d)) by {
            assert forall|i: int, j: int| 0 <= i < j < d.len() implies (#[trigger] d[i]).amount.value()
                >= (#[trigger] d[j]).amount.value() by {
                assert(d[i] == s[i] && d[j] == s[j]);
            }
        }
        lemma_insert_by_amount(d, x);
        assert forall|i: int| 0 <= i < d.len() implies (#[trigger] d[i]).amount.value()
            >= last.amount.value() by {
            assert(d[i] == s[i]);
            assert(s[s.len() - 1] == last);
        }
        lemma_insert_bounded_amount(d, x, last.amount.value());
        let r = insert_by_amount(d, x);
        assert forall|i: int, j: int| 0 <= i < j < r.push(last).len() implies (#[trigger] r.push(
            last,
        )[i]).amount.value() >= (#[trigger] r.push(last)[j]).amount.value() by {
            if j < r.len() {
                assert(r.push(last)[i] == r[i] && r.push(last)[j] == r[j]);
            } else {
                assert(r.push(last)[i] == r[i]);
            }
        }
        assert(s =~= d.push(last));
        assert(r.push(last).to_multiset() =~= s.to_multiset().insert(x));
    }
}

/// The spending report lists its lines by decreasing amount, and holds
/// exactly the lines it was given.
pub proof fn lemma_sort_by_amount(s: Seq<ExpenseByCategoryItem>)
    ensures
        by_decreasing_amount(sort_by_amount(s)),
        sort_by_amount(s).to_multiset() == s.to_multiset(),
    decreases s.len(),
{
    broadcast use vstd::seq_lib::group_to_multiset_ensures;

    if s.len() > 0 {
        lemma_sort_by_amount(s.drop_last());
        lemma_insert_by_amount(sort_by_amount(s.drop_last()), s.last());
        assert(s =~= s.drop_last().push(s.last()));
    }
}

/// The spending report: one line per raw sum, sorted by decreasing amount.
pub open spec fn expense_by_category_spec(raw: Seq<(String, Dec)>, total: Dec, cats: Seq<Category>) -> Option<
    Seq<ExpenseByCategoryItem>,
> {
    match expense_items_spec(raw, total, cats) {
        None => None,
        Some(items) => Some(sort_by_amount(items)),
    }
}

/// The alert for a line over budget: the budget (zero if none), the amount
/// spent, the overage and the overage as a percentage of the budget (zero
/// without a positive budget). `None` where a step overflows.
pub open spec fn alert_spec(item: ExpenseByCategoryItem) -> Option<OverspendingAlert> {
    let budget = match item.budget_amount {
        Some(b) => b,
        None => Dec::spec_zero(),
    };
    match sub_spec(item.amount, budget) {
        None => None,
        Some(overage) => match share_spec(overage, budget) {
            None => None,
            Some(pct) => Some(
                OverspendingAlert {
                    category_id: item.category_id,
                    category_name: item.category_name,
                    budget,
                    spent: item.amount,
                    overage,
                    overage_pct: pct,
                },
            ),
        },
    }
}

/// The alerts of the lines that are over budget, in order; `None` where a
/// step overflows.
pub open spec fn alerts_spec(items: Seq<ExpenseByCategoryItem>) -> Option<Seq<OverspendingAlert>>
    decreases items.len(),
{
    if items.len() == 0 {
        Some(Seq::empty())
    } else {
        match alerts_spec(items.drop_last()) {
            None => None,
            Some(prefix) => if items.last().is_over_budget {
                match alert_spec(items.last()) {
                    None => None,
                    Some(a) => Some(prefix.push(a)),
                }
            } else {
                Some(prefix)
            },
        }
    }
}

/// The overspending alerts are the report's lines over budget, in order:
/// one alert for each such line, carrying that line's figures.
pub proof fn lemma_alerts_are_over_budget_lines(items: Seq<ExpenseByCategoryItem>)
    requires
        alerts_spec(items) is Some,
    ensures
        alerts_spec(items)->0.len() == items.filter(|x: ExpenseByCategoryItem| x.is_over_budget).len(),
        forall|k: int|
            0 <= k < alerts_spec(items)->0.len() ==> alert_spec(
                items.filter(|x: ExpenseByCategoryItem| x.is_over_budget)[k],
            ) == Some(#[trigger] alerts_spec(items)->0[k]),
    decreases items.len(),
{
    reveal(Seq::filter);
    if items.len() > 0 {
        lemma_alerts_are_over_budget_lines(items.drop_last());
    }
}

/// The performance line of a holding with the given realized P&L: its
/// cost basis, market value, unrealized P&L, and that P&L as a percentage
/// of a positive cost basis. `None` where a step overflows.
pub open spec fn investment_item_spec(h: Holding, realized: Dec) -> Option<InvestmentPnlItem> {
    match h.unrealized_pnl_spec() {
        None => None,
        Some(unrealized) => match h.market_value_spec() {
            None => None,
            Some(market_value) => match h.cost_basis_spec() {
                None => None,
                Some(cost_basis) => {
                    let pct = match unrealized {
                        None => Some(None),
                        Some(pnl) => if cost_basis.value() > 0 {
                            match percent_spec(pnl, cost_basis) {
                                None => None,
                                Some(v) => Some(Some(v)),
                            }
                        } else {
                            Some(None)
                        },
                    };
                    match pct {
                        None => None,
                        Some(pct) => Some(
                            InvestmentPnlItem {
                                holding_id: h.id,
                                symbol: h.symbol,
                                name: h.name,
                                wallet_id: h.wallet_id,
                                quantity: h.quantity,
                                avg_buy_price: h.avg_buy_price,
                                last_price: h.last_price,
                                cost_basis,
                                market_value,
                                realized_pnl: realized,
                                unrealized_pnl: unrealized,
                                unrealized_pnl_pct: pct,
                            },
                        ),
                    }
                },
            },
        },
    }
}

/// The performance lines of the holdings, in order, each with its realized
/// P&L; `None` where a step overflows.
pub open spec fn investment_items_spec(hs: Seq<Holding>, realized: Seq<Dec>) -> Option<
    Seq<InvestmentPnlItem>,
>
    decreases hs.len(),
{
    if hs.len() == 0 || realized.len() != hs.len() {
        Some(Seq::empty())
    } else {
        match investment_items_spec(hs.drop_last(), realized.drop_last()) {
            None => None,
            Some(prefix) => match investment_item_spec(hs.last(), realized.last()) {
                None => None,
                Some(item) => Some(prefix.push(item)),
            },
        }
    }
}

/// The balances of the wallets in currency `c`, in order.
pub open spec fn balances_in(ws: Seq<Wallet>, c: Currency) -> Seq<Dec>
    decreases ws.len(),
{
    if ws.len() == 0 {
        Seq::empty()
    } else if ws.last().currency == c {
        balances_in(ws.drop_last(), c).push(ws.last().balance)
    } else {
        balances_in(ws.drop_last(), c)
    }
}

/// The decimal steps of `part` as a percentage of `whole` round nothing: the
/// quotient, and its product with 100.
pub open spec fn percent_exact(part: Dec, whole: Dec) -> bool {
    &&& exact_quotient(div_spec(part, whole), part, whole)
    &&& exact_product(
        mul_spec(div_spec(part, whole)->0, Dec { mantissa: 100, scale: 0 }),
        div_spec(part, whole)->0,
        Dec { mantissa: 100, scale: 0 },
    )
}

/// A share computed from `part` and `whole` is `part` as a percentage of
/// `whole`: with a positive whole and no rounding, share × whole = part × 100;
/// without a positive whole, zero.
proof fn lemma_share_value(part: Dec, whole: Dec, share: Dec)
    requires
        share_spec(part, whole) == Some(share),
    ensures
        whole.value() <= 0 ==> share.value() == 0,
        whole.value() > 0 && percent_exact(part, whole) ==> share.value() * whole.value()
            == part.value() * 100 * pow10(28),
{
    if whole.value() <= 0 {
        let z = Dec::spec_zero();
        let zp = pow10((28 - z.scale) as nat);
        assert(z.mantissa * zp == 0) by (nonlinear_arith)
            requires
                z.mantissa == 0,
        ;
    } else if percent_exact(part, whole) {
        let big = pow10(28);
        lemma_pow10_positive(28);
        let q = div_spec(part, whole)->0;
        let h = Dec { mantissa: 100, scale: 0 };
        assert(pow10(28) == 10 * pow10(27)) by {
            reveal_with_fuel(pow10, 2);
        }
        assert(h.value() == 100 * big);
        assert(share.value() == 100 * q.value()) by (nonlinear_arith)
            requires
                share.value() * big == q.value() * h.value(),
                h.value() == 100 * big,
                big > 0,
        ;
        assert(share.value() * whole.value() == part.value() * 100 * big) by (nonlinear_arith)
            requires
                share.value() == 100 * q.value(),
                q.value() * whole.value() == part.value() * big,
        ;
    }
}

/// The savings rate is the savings as a percentage of the income, and the
/// savings are income minus expense: with a positive income and no rounding,
/// rate × income = savings × 100, so the rate has the sign of the savings;
/// without income the rate is zero.
pub proof fn lemma_savings_rate(year: i32, month: u32, income: Dec, expense: Dec)
    requires
        monthly_summary_spec(year, month, income, expense) is Some,
    ensures
        ({
            let s = monthly_summary_spec(year, month, income, expense)->0;
            &&& s.year == year && s.month == month
            &&& s.income == income && s.expense == expense
            &&& sub_spec(income, expense) == Some(s.savings)
            &&& s.net_transfers.value() == 0
            &&& income.value() <= 0 ==> s.savings_rate.value() == 0
            &&& income.value() > 0 && percent_exact(s.savings, income) ==> s.savings_rate.value()
                * income.value() == s.savings.value() * 100 * pow10(28)
        }),
{
    let s = monthly_summary_spec(year, month, income, expense)->0;
    lemma_share_value(s.savings, income, s.savings_rate);
    let z = Dec::spec_zero();
    let zp = pow10((28 - z.scale) as nat);
    assert(z.mantissa * zp == 0) by (nonlinear_arith)
        requires
            z.mantissa == 0,
    ;
}

/// Each line's share is its amount as a percentage of the month's total,
/// whatever the category and its budget: with a positive total and no
/// rounding, share × total = amount × 100; without a positive total, zero.
pub proof fn lemma_expense_shares(raw: Seq<(String, Dec)>, total: Dec, cats: Seq<Category>)
    requires
        expense_by_category_spec(raw, total, cats) is Some,
    ensures
        forall|k: int|
            0 <= k < expense_by_category_spec(raw, total, cats)->0.len() ==> {
                let item = #[trigger] expense_by_category_spec(raw, total, cats)->0[k];
                &&& total.value() <= 0 ==> item.share_pct.value() == 0
                &&& total.value() > 0 && percent_exact(item.amount, total) ==> item.share_pct.value()
                    * total.value() == item.amount.value() * 100 * pow10(28)
            },
{
    broadcast use vstd::seq_lib::group_to_multiset_ensures;

    let items = expense_items_spec(raw, total, cats)->0;
    lemma_items_share(raw, total, cats);
    lemma_sort_by_amount(items);
    let sorted = sort_by_amount(items);
    assert forall|k: int| 0 <= k < sorted.len() implies {
        let item = #[trigger] sorted[k];
        &&& total.value() <= 0 ==> item.share_pct.value() == 0
        &&& total.value() > 0 && percent_exact(item.amount, total) ==> item.share_pct.value()
            * total.value() == item.amount.value() * 100 * pow10(28)
    } by {
        assert(sorted.contains(sorted[k]));
        vstd::seq_lib::to_multiset_contains(sorted, sorted[k]);
        vstd::seq_lib::to_multiset_contains(items, sorted[k]);
        assert(items.contains(sorted[k]));
        let j = choose|j: int| 0 <= j < items.len() && items[j] == sorted[k];
        lemma_share_value(items[j].amount, total, items[j].share_pct);
    }
}

proof fn lemma_items_share(raw: Seq<(String, Dec)>, total: Dec, cats: Seq<Category>)
    requires
        expense_items_spec(raw, total, cats) is Some,
    ensures
        expense_items_spec(raw, total, cats)->0.len() == raw.len(),
        forall|k: int|
            0 <= k < raw.len() ==> {
                let item = #[trigger] expense_items_spec(raw, total, cats)->0[k];
                &&& item.category_id == raw[k].0
                &&& item.amount == raw[k].1
                &&& item.is_over_budget == (item.budget_amount matches Some(b) && item.amount.value()
                    > b.value())
            },
        forall|k: int|
            0 <= k < expense_items_spec(raw, total, cats)->0.len() ==> share_spec(
                (#[trigger] expense_items_spec(raw, total, cats)->0[k]).amount,
                total,
            ) == Some(expense_items_spec(raw, total, cats)->0[k].share_pct),
    decreases raw.len(),
{
    if raw.len() > 0 {
        lemma_items_share(raw.drop_last(), total, cats);
    }
}

/// The report has one line for each raw per-category sum, with that sum's
/// category and amount, largest amount first; a line is over budget exactly
/// when its category has a budget and the amount exceeds it.
pub proof fn lemma_expense_lines_from_sums(raw: Seq<(String, Dec)>, total: Dec, cats: Seq<Category>)
    requires
        expense_by_category_spec(raw, total, cats) is Some,
    ensures
        expense_by_category_spec(raw, total, cats)->0.len() == raw.len(),
        by_decreasing_amount(expense_by_category_spec(raw, total, cats)->0),
        forall|k: int|
            0 <= k < raw.len() ==> {
                let item = #[trigger] expense_by_category_spec(raw, total, cats)->0[k];
                &&& exists|j: int|
                    0 <= j < raw.len() && item.category_id == raw[j].0 && item.amount == raw[j].1
                &&& item.is_over_budget == (item.budget_amount matches Some(b) && item.amount.value()
                    > b.value())
            },
{
    broadcast use vstd::seq_lib::group_to_multiset_ensures;

    let items = expense_items_spec(raw, total, cats)->0;
    lemma_items_share(raw, total, cats);
    lemma_sort_by_amount(items);
    let sorted = sort_by_amount(items);
    assert(sorted.len() == sorted.to_multiset().len());
    assert(items.len() == items.to_multiset().len());
    assert forall|k: int| 0 <= k < raw.len() implies {
        let item = #[trigger] sorted[k];
        &&& exists|j: int|
            0 <= j < raw.len() && item.category_id == raw[j].0 && item.amount == raw[j].1
        &&& item.is_over_budget == (item.budget_amount matches Some(b) && item.amount.value()
            > b.value())
    } by {
        assert(sorted.contains(sorted[k]));
        vstd::seq_lib::to_multiset_contains(sorted, sorted[k]);
        vstd::seq_lib::to_multiset_contains(items, sorted[k]);
        assert(items.contains(sorted[k]));
        let j = choose|j: int| 0 <= j < items.len() && items[j] == sorted[k];
        assert(items[j].category_id == raw[j].0 && items[j].amount == raw[j].1);
    }
}

/// Every wallet counts toward its own currency's total, whatever its kind:
/// with no wallets every total is zero, and adding a wallet adds its balance
/// to the total of its currency.
pub proof fn lemma_net_worth_adds_each_wallet(ws: Seq<Wallet>, w: Wallet)
    ensures
        net_worth_spec(Seq::empty()) == Some(
            NetWorth { vnd: Dec::spec_zero(), usd: Dec::spec_zero(), gold: Dec::spec_zero() },
        ),
        net_worth_spec(ws) is Some && net_worth_spec(ws.push(w)) is Some ==> {
            let b = net_worth_spec(ws)->0;
            let a = net_worth_spec(ws.push(w))->0;
            &&& w.currency == Currency::VND ==> add_spec(b.vnd, w.balance) == Some(a.vnd)
            &&& w.currency == Currency::USD ==> add_spec(b.usd, w.balance) == Some(a.usd)
            &&& w.currency == Currency::GOLD ==> add_spec(b.gold, w.balance) == Some(a.gold)
        },
{
    assert(ws.push(w).drop_last() =~= ws);
    let c = w.currency;
    assert(balances_in(ws.push(w), c) == balances_in(ws, c).push(w.balance));
    assert(balances_in(ws, c).push(w.balance).drop_last() =~= balances_in(ws, c));
}

/// Net worth: the balances of each currency summed separately; `None`
/// where a sum overflows.
pub open spec fn net_worth_spec(ws: Seq<Wallet>) -> Option<NetWorth> {
    match (
        sum_spec(balances_in(ws, Currency::VND)),
        sum_spec(balances_in(ws, Currency::USD)),
        sum_spec(balances_in(ws, Currency::GOLD)),
    ) {
        (Some(vnd), Some(usd), Some(gold)) => Some(NetWorth { vnd, usd, gold }),
        _ => None,
    }
}

/// Currencies are never converted: adding a wallet to the list changes the
/// total of its own currency only.
pub proof fn lemma_net_worth_keeps_currencies_apart(ws: Seq<Wallet>, w: Wallet)
    ensures
        net_worth_spec(ws) is Some && net_worth_spec(ws.push(w)) is Some ==> {
            let b = net_worth_spec(ws)->0;
            let a = net_worth_spec(ws.push(w))->0;
            &&& w.currency != Currency::VND ==> a.vnd == b.vnd
            &&& w.currency != Currency::USD ==> a.usd == b.usd
            &&& w.currency != Currency::GOLD ==> a.gold == b.gold
        },
{
    assert(ws.push(w).drop_last() =~= ws);
}

pub open spec fn categories_wf(cats: Seq<Category>) -> bool {
    forall|i: int| 0 <= i < cats.len() ==> ((#[trigger] cats[i]).budget_amount matches Some(b) ==> b.wf())
}

fn find_category_exec(cats: &Vec<Category>, id: &String) -> (r: Option<usize>)
    ensures
        match find_category(cats@, id@) {
            Some(c) => r matches Some(i) && i < cats.len() && cats[i as int] == c,
            None => r is None,
        },
{
    let mut i = cats.len();
    assert(cats@.subrange(0, cats.len() as int) =~= cats@);
    while i > 0
        invariant
            i <= cats.len(),
            find_category(cats@, id@) == find_category(cats@.subrange(0, i as int), id@),
        decreases i,
    {
        let ghost prefix = cats@.subrange(0, i as int);
        assert(prefix.drop_last() =~= cats@.subrange(0, i - 1));
        if cats[i - 1].id == *id {
            return Some(i - 1);
        }
        i = i - 1;
    }
    None
}

fn expense_item(cat_id: String, amount: Dec, total: Dec, cats: &Vec<Category>) -> (r: Option<
    ExpenseByCategoryItem,
>)
    requires
        amount.wf(),
        total.wf(),
        categories_wf(cats@),
    ensures
        r == expense_item_spec(cat_id, amount, total, cats@),
        r matches Some(item) ==> item.amount.wf(),
{
    let share_pct = match share(amount, total) {
        Some(s) => s,
        None => return None,
    };
    let found = find_category_exec(cats, &cat_id);
    let (name, icon, color, budget) = match found {
        Some(i) => (
            cats[i].name.clone(),
            clone_opt_string(&cats[i].icon),
            clone_opt_string(&cats[i].color),
            cats[i].budget_amount,
        ),
        None => (cat_id.clone(), None, None, None),
    };
    let is_over_budget = match budget {
        Some(b) => b.lt(amount),
        None => false,
    };
    Some(
        ExpenseByCategoryItem {
            category_id: cat_id,
            category_name: name,
            icon,
            color,
            amount,
            share_pct,
            is_over_budget,
            budget_amount: budget,
        },
    )
}

pub open spec fn items_wf(items: Seq<ExpenseByCategoryItem>) -> bool {
    forall|i: int|
        0 <= i < items.len() ==> {
            &&& (#[trigger] items[i]).amount.wf()
            &&& items[i].budget_amount matches Some(b) ==> b.wf()
        }
}

proof fn lemma_insert_wf(s: Seq<ExpenseByCategoryItem>, x: ExpenseByCategoryItem)
    requires
        items_wf(s),
        items_wf(seq![x]),
    ensures
        items_wf(insert_by_amount(s, x)),
        insert_by_amount(s, x).len() == s.len() + 1,
    decreases s.len(),
{
    if s.len() > 0 && s.last().amount.value() < x.amount.value() {
        lemma_insert_wf(s.drop_last(), x);
        let r = insert_by_amount(s.drop_last(), x);
        assert(items_wf(r.push(s.last()))) by {
            assert forall|i: int| 0 <= i < r.push(s.last()).len() implies {
                &&& (#[trigger] r.push(s.last())[i]).amount.wf()
                &&& r.push(s.last())[i].budget_amount matches Some(b) ==> b.wf()
            } by {
                if i < r.len() {
                } else {
                    assert(s[s.len() - 1] == s.last());
                }
            }
        }
    } else if s.len() > 0 {
        assert(items_wf(s.push(x))) by {
            assert forall|i: int| 0 <= i < s.push(x).len() implies {
                &&& (#[trigger] s.push(x)[i]).amount.wf()
                &&& s.push(x)[i].budget_amount matches Some(b) ==> b.wf()
            } by {
                if i < s.len() {
                } else {
                    assert(seq![x][0] == x);
                }
            }
        }
    }
}

/// Inserts `x` into `v` (sorted by decreasing amount) after every line whose
/// amount is at least `x`'s.
fn insert_sorted(v: &mut Vec<ExpenseByCategoryItem>, x: ExpenseByCategoryItem)
    requires
        items_wf(old(v)@),
        x.amount.wf(),
    ensures
        final(v)@ == insert_by_amount(old(v)@, x),
{
    let ghost s = v@;
    let mut j = v.len();
    assert(s.subrange(0, s.len() as int) =~= s);
    assert(insert_by_amount(s, x) =~= insert_by_amount(s.subrange(0, j as int), x) + s.subrange(
        j as int,
        s.len() as int,
    ));
    while j > 0 && v[j - 1].amount.lt(x.amount)
        invariant
            j <= v.len(),
            v@ == s,
            items_wf(s),
            x.amount.wf(),
            insert_by_amount(s, x) == insert_by_amount(s.subrange(0, j as int), x) + s.subrange(
                j as int,
                s.len() as int,
            ),
        decreases j,
    {
        let ghost t = s.subrange(0, j as int);
        assert(t.drop_last() =~= s.subrange(0, j - 1));
        assert(t.last() == s[j - 1]);
        assert(insert_by_amount(t, x) == insert_by_amount(t.drop_last(), x).push(t.last()));
        assert(insert_by_amount(s.subrange(0, j - 1), x) + s.subrange(j - 1, s.len() as int)
            =~= insert_by_amount(t.drop_last(), x).push(t.last()) + s.subrange(
            j as int,
            s.len() as int,
        ));
        j = j - 1;
    }
    let ghost t = s.subrange(0, j as int);
    if j > 0 {
        assert(t.last() == s[j - 1]);
    }
    assert(insert_by_amount(t, x) =~= t.push(x));
    v.insert(j, x);
    assert(v@ =~= t.push(x) + s.subrange(j as int, s.len() as int));
}

fn sort_items(items: &Vec<ExpenseByCategoryItem>) -> (r: Vec<ExpenseByCategoryItem>)
    requires
        items_wf(items@),
    ensures
        r@ == sort_by_amount(items@),
{
    let ghost s = items@;
    let mut out: Vec<ExpenseByCategoryItem> = Vec::new();
    let mut i: usize = 0;
    while i < items.len()
        invariant
            i <= items.len(),
            items@ == s,
            out@ == sort_by_amount(s.subrange(0, i as int)),
            items_wf(s),
            items_wf(out@),
        decreases items.len() - i,
    {
        let x = items[i].duplicate();
        proof {
            let pre = s.subrange(0, i + 1);
            assert(pre.drop_last() =~= s.subrange(0, i as int));
            assert(pre.last() == x);
            assert(items_wf(seq![x])) by {
                assert(seq![x][0] == x);
            }
            lemma_insert_wf(out@, x);
        }
        insert_sorted(&mut out, x);
        i = i + 1;
    }
    assert(s.subrange(0, items.len() as int) =~= s);
    out
}

impl ExpenseByCategoryItem {
    /// A field-by-field copy.
    pub fn duplicate(&self) -> (r: ExpenseByCategoryItem)
        ensures
            r == *self,
    {
        ExpenseByCategoryItem {
            category_id: self.category_id.clone(),
            category_name: self.category_name.clone(),
            icon: clone_opt_string(&self.icon),
            color: clone_opt_string(&self.color),
            amount: self.amount,
            share_pct: self.share_pct,
            is_over_budget: self.is_over_budget,
            budget_amount: self.budget_amount,
        }
    }
}

fn expense_report(raw: Vec<(String, Dec)>, total: Dec, cats: &Vec<Category>) -> (r: Option<
    Vec<ExpenseByCategoryItem>,
>)
    requires
        forall|i: int| 0 <= i < raw.len() ==> (#[trigger] raw[i]).1.wf(),
        total.wf(),
        categories_wf(cats@),
    ensures
        match expense_by_category_spec(raw@, total, cats@) {
            Some(items) => r matches Some(v) && v@ == items,
            None => r is None,
        },
{
    let ghost s = raw@;
    let mut items: Vec<ExpenseByCategoryItem> = Vec::new();
    let mut i: usize = 0;
    while i < raw.len()
        invariant
            i <= raw.len(),
            raw@ == s,
            forall|k: int| 0 <= k < raw.len() ==> (#[trigger] raw[k]).1.wf(),
            total.wf(),
            categories_wf(cats@),
            expense_items_spec(s.subrange(0, i as int), total, cats@) == Some(items@),
            items_wf(items@),
        decreases raw.len() - i,
    {
        assert(s.subrange(0, i + 1).drop_last() =~= s.subrange(0, i as int));
        assert(s.subrange(0, i + 1).last() == s[i as int]);
        let cat_id = raw[i].0.clone();
        match expense_item(cat_id, raw[i].1, total, cats) {
            Some(item) => {
                proof {
                    let found = find_category(cats@, s[i as int].0@);
                    if let Some(c) = found {
                        lemma_find_category_member(cats@, s[i as int].0@);
                    }
                }
                let ghost before = items@;
                items.push(item);
                assert(items_wf(items@)) by {
                    assert forall|k: int| 0 <= k < items@.len() implies {
                        &&& (#[trigger] items@[k]).amount.wf()
                        &&& items@[k].budget_amount matches Some(b) ==> b.wf()
                    } by {
                        if k < before.len() {
                            assert(items@[k] == before[k]);
                        }
                    }
                }
            },
            None => {
                proof {
                    lemma_expense_items_none_extends(s, total, cats@, i + 1);
                }
                return None;
            },
        }
        i = i + 1;
    }
    assert(s.subrange(0, raw.len() as int) =~= s);
    Some(sort_items(&items))
}

proof fn lemma_find_category_member(cats: Seq<Category>, id: Seq<char>)
    requires
        find_category(cats, id) is Some,
    ensures
        exists|i: int| 0 <= i < cats.len() && cats[i] == find_category(cats, id)->0,
    decreases cats.len(),
{
    if cats.last().id@ == id {
        assert(cats[cats.len() - 1] == cats.last());
    } else {
        lemma_find_category_member(cats.drop_last(), id);
        let i = choose|i: int|
            0 <= i < cats.drop_last().len() && cats.drop_last()[i] == find_category(
                cats.drop_last(),
                id,
            )->0;
        assert(cats[i] == cats.drop_last()[i]);
    }
}

proof fn lemma_expense_items_none_extends(
    s: Seq<(String, Dec)>,
    total: Dec,
    cats: Seq<Category>,
    k: int,
)
    requires
        0 <= k <= s.len(),
        expense_items_spec(s.subrange(0, k), total, cats) is None,
    ensures
        expense_items_spec(s, total, cats) is None,
    decreases s.len() - k,
{
    if k < s.len() {
        assert(s.subrange(0, k + 1).drop_last() =~= s.subrange(0, k));
        lemma_expense_items_none_extends(s, total, cats, k + 1);
    } else {
        assert(s.subrange(0, k) =~= s);
    }
}

fn alerts(items: &Vec<ExpenseByCategoryItem>) -> (r: Option<Vec<OverspendingAlert>>)
    requires
        items_wf(items@),
    ensures
        match alerts_spec(items@) {
            Some(a) => r matches Some(v) && v@ == a,
            None => r is None,
        },
{
    let ghost s = items@;
    let mut out: Vec<OverspendingAlert> = Vec::new();
    let mut i: usize = 0;
    while i < items.len()
        invariant
            i <= items.len(),
            items@ == s,
            items_wf(s),
            alerts_spec(s.subrange(0, i as int)) == Some(out@),
        decreases items.len() - i,
    {
        let ghost pre = s.subrange(0, i + 1);
        assert(pre.drop_last() =~= s.subrange(0, i as int));
        assert(pre.last() == s[i as int]);
        let item = &items[i];
        if item.is_over_budget {
            let budget = match item.budget_amount {
                Some(b) => b,
                None => Dec::zero(),
            };
            let overage = match item.amount.checked_sub(budget) {
                Some(o) => o,
                None => {
                    proof {
                        lemma_alerts_none_extends(s, i + 1);
                    }
                    return None;
                },
            };
            let pct = match share(overage, budget) {
                Some(p) => p,
                None => {
                    proof {
                        lemma_alerts_none_extends(s, i + 1);
                    }
                    return None;
                },
            };
            out.push(
                OverspendingAlert {
                    category_id: item.category_id.clone(),
                    category_name: item.category_name.clone(),
                    budget,
                    spent: item.amount,
                    overage,
                    overage_pct: pct,
                },
            );
        }
        i = i + 1;
    }
    assert(s.subrange(0, items.len() as int) =~= s);
    Some(out)
}

proof fn lemma_alerts_none_extends(s: Seq<ExpenseByCategoryItem>, k: int)
    requires
        0 <= k <= s.len(),
        alerts_spec(s.subrange(0, k)) is None,
    ensures
        alerts_spec(s) is None,
    decreases s.len() - k,
{
    if k < s.len() {
        assert(s.subrange(0, k + 1).drop_last() =~= s.subrange(0, k));
        lemma_alerts_none_extends(s, k + 1);
    } else {
        assert(s.subrange(0, k) =~= s);
    }
}

fn investment_item(h: &Holding, realized: Dec) -> (r: Option<InvestmentPnlItem>)
    requires
        h.wf(),
    ensures
        r == investment_item_spec(*h, realized),
{
    let unrealized = match h.checked_unrealized_pnl() {
        Some(u) => u,
        None => return None,
    };
    let market_value = match h.checked_market_value() {
        Some(m) => m,
        None => return None,
    };
    let cost_basis = match h.checked_cost_basis() {
        Some(c) => c,
        None => return None,
    };
    let pct = match unrealized {
        None => None,
        Some(pnl) => if Dec::zero().lt(cost_basis) {
            match checked_percent(pnl, cost_basis) {
                Some(v) => Some(v),
                None => return None,
            }
        } else {
            None
        },
    };
    Some(
        InvestmentPnlItem {
            holding_id: h.id.clone(),
            symbol: h.symbol.clone(),
            name: clone_opt_string(&h.name),
            wallet_id: h.wallet_id.clone(),
            quantity: h.quantity,
            avg_buy_price: h.avg_buy_price,
            last_price: h.last_price,
            cost_basis,
            market_value,
            realized_pnl: realized,
            unrealized_pnl: unrealized,
            unrealized_pnl_pct: pct,
        },
    )
}

fn investment_items(holdings: &Vec<Holding>, realized: &Vec<Dec>) -> (r: Option<
    Vec<InvestmentPnlItem>,
>)
    requires
        holdings.len() == realized.len(),
        forall|i: int| 0 <= i < holdings.len() ==> (#[trigger] holdings[i]).wf(),
    ensures
        match investment_items_spec(holdings@, realized@) {
            Some(items) => r matches Some(v) && v@ == items,
            None => r is None,
        },
{
    let mut out: Vec<InvestmentPnlItem> = Vec::new();
    let mut i: usize = 0;
    while i < holdings.len()
        invariant
            i <= holdings.len(),
            holdings.len() == realized.len(),
            forall|k: int| 0 <= k < holdings.len() ==> (#[trigger] holdings[k]).wf(),
            investment_items_spec(holdings@.subrange(0, i as int), realized@.subrange(0, i as int))
                == Some(out@),
        decreases holdings.len() - i,
    {
        assert(holdings@.subrange(0, i + 1).drop_last() =~= holdings@.subrange(0, i as int));
        assert(realized@.subrange(0, i + 1).drop_last() =~= realized@.subrange(0, i as int));
        match investment_item(&holdings[i], realized[i]) {
            Some(item) => {
                out.push(item);
            },
            None => {
                proof {
                    lemma_investment_none_extends(holdings@, realized@, i + 1);
                }
                return None;
            },
        }
        i = i + 1;
    }
    assert(holdings@.subrange(0, holdings.len() as int) =~= holdings@);
    assert(realized@.subrange(0, realized.len() as int) =~= realized@);
    Some(out)
}

proof fn lemma_investment_none_extends(hs: Seq<Holding>, rs: Seq<Dec>, k: int)
    requires
        hs.len() == rs.len(),
        0 <= k <= hs.len(),
        investment_items_spec(hs.subrange(0, k), rs.subrange(0, k)) is None,
    ensures
        investment_items_spec(hs, rs) is None,
    decreases hs.len() - k,
{
    if k < hs.len() {
        assert(hs.subrange(0, k + 1).drop_last() =~= hs.subrange(0, k));
        assert(rs.subrange(0, k + 1).drop_last() =~= rs.subrange(0, k));
        lemma_investment_none_extends(hs, rs, k + 1);
    } else {
        assert(hs.subrange(0, k) =~= hs);
        assert(rs.subrange(0, k) =~= rs);
    }
}

fn balances_of(wallets: &Vec<Wallet>, c: Currency) -> (r: Vec<Dec>)
    requires
        forall|i: int| 0 <= i < wallets.len() ==> (#[trigger] wallets[i]).balance.wf(),
    ensures
        r@ == balances_in(wallets@, c),
        forall|i: int| 0 <= i < r.len() ==> (#[trigger] r[i]).wf(),
{
    let mut out: Vec<Dec> = Vec::new();
    let mut i: usize = 0;
    while i < wallets.len()
        invariant
            i <= wallets.len(),
            forall|k: int| 0 <= k < wallets.len() ==> (#[trigger] wallets[k]).balance.wf(),
            out@ == balances_in(wallets@.subrange(0, i as int), c),
            forall|k: int| 0 <= k < out.len() ==> (#[trigger] out[k]).wf(),
        decreases wallets.len() - i,
    {
        assert(wallets@.subrange(0, i + 1).drop_last() =~= wallets@.subrange(0, i as int));
        if wallets[i].currency == c {
            out.push(wallets[i].balance);
        }
        i = i + 1;
    }
    assert(wallets@.subrange(0, wallets.len() as int) =~= wallets@);
    out
}

fn net_worth_opt(wallets: &Vec<Wallet>) -> (r: Option<NetWorth>)
    requires
        forall|i: int| 0 <= i < wallets.len() ==> (#[trigger] wallets[i]).balance.wf(),
    ensures
        r == net_worth_spec(wallets@),
{
    let vnd = checked_sum(&balances_of(wallets, Currency::VND));
    let usd = checked_sum(&balances_of(wallets, Currency::USD));
    let gold = checked_sum(&balances_of(wallets, Currency::GOLD));
    match (vnd, usd, gold) {
        (Some(vnd), Some(usd), Some(gold)) => Some(NetWorth { vnd, usd, gold }),
        _ => None,
    }
}

impl ReportService {
    /// The summary of a month whose income and expense totals are given.
    pub fn monthly_summary(year: i32, month: u32, income: Dec, expense: Dec) -> (r: MonthlySummary)
        requires
            income.wf(),
            expense.wf(),
            monthly_summary_spec(year, month, income, expense) is Some,
        ensures
            r == monthly_summary_spec(year, month, income, expense)->0,
    {
        monthly_summary_opt(year, month, income, expense).unwrap()
    }

    /// `monthly_summary`, or `None` where the arithmetic overflows.
    pub fn checked_monthly_summary(year: i32, month: u32, income: Dec, expense: Dec) -> (r: Option<
        MonthlySummary,
    >)
        requires
            income.wf(),
            expense.wf(),
        ensures
            r == monthly_summary_spec(year, month, income, expense),
    {
        monthly_summary_opt(year, month, income, expense)
    }

    /// The summaries of the given months, oldest first, from each month's
    /// income and expense totals (`totals[i]` for `periods[i]`); `None` where
    /// the arithmetic of a month overflows.
    pub fn monthly_trend(periods: &Vec<(i32, u32)>, totals: &Vec<(Dec, Dec)>) -> (r: Option<
        Vec<MonthlySummary>,
    >)
        requires
            periods.len() == totals.len(),
            forall|i: int| 0 <= i < totals.len() ==> (#[trigger] totals[i]).0.wf() && totals[i].1.wf(),
        ensures
            r is Some <==> forall|i: int|
                0 <= i < periods.len() ==> (#[trigger] monthly_summary_spec(
                    periods[i].0,
                    periods[i].1,
                    totals[i].0,
                    totals[i].1,
                )) is Some,
            r matches Some(v) ==> v.len() == periods.len() && forall|i: int|
                0 <= i < periods.len() ==> v[i] == (#[trigger] monthly_summary_spec(
                    periods[i].0,
                    periods[i].1,
                    totals[i].0,
                    totals[i].1,
                ))->0,
    {
        let mut out: Vec<MonthlySummary> = Vec::new();
        let mut i: usize = 0;
        while i < periods.len()
            invariant
                periods.len() == totals.len(),
                forall|j: int| 0 <= j < totals.len() ==> (#[trigger] totals[j]).0.wf() && totals[j].1.wf(),
                i <= periods.len(),
                out.len() == i,
                forall|j: int|
                    0 <= j < i ==> (#[trigger] monthly_summary_spec(
                        periods[j].0,
                        periods[j].1,
                        totals[j].0,
                        totals[j].1,
                    )) == Some(out[j]),
            decreases periods.len() - i,
        {
            let (year, month) = periods[i];
            let (income, expense) = totals[i];
            match monthly_summary_opt(year, month, income, expense) {
                Some(m) => out.push(m),
                None => return None,
            }
            i = i + 1;
        }
        Some(out)
    }

    /// The trend of the last `months` months up to the current one (year
    /// `now_year`, zero-based month `now_month0`), oldest first: one summary
    /// per month, from `totals[k]`, the income and expense totals of the
    /// `k`-th of those months (see `monthly_trend_periods`). `None` where
    /// the arithmetic of a month overflows.
    pub fn monthly_trend_at(now_year: i32, now_month0: u32, months: u32, totals: &Vec<(Dec, Dec)>) -> (r: Option<
        Vec<MonthlySummary>,
    >)
        requires
            now_year >= 0,
            now_month0 < 12,
            now_year * 12 + now_month0 <= u32::MAX,
            months <= now_year * 12 + now_month0 + 1,
            totals.len() == months,
            forall|i: int| 0 <= i < totals.len() ==> (#[trigger] totals[i]).0.wf() && totals[i].1.wf(),
        ensures
            r is Some <==> forall|k: int|
                0 <= k < months ==> (#[trigger] monthly_summary_spec(
                    trend_period(now_year * 12 + now_month0, months as int, k).0,
                    trend_period(now_year * 12 + now_month0, months as int, k).1,
                    totals[k].0,
                    totals[k].1,
                )) is Some,
            r matches Some(v) ==> {
                &&& v.len() == months
                &&& forall|k: int|
                    0 <= k < months ==> v[k] == (#[trigger] monthly_summary_spec(
                        trend_period(now_year * 12 + now_month0, months as int, k).0,
                        trend_period(now_year * 12 + now_month0, months as int, k).1,
                        totals[k].0,
                        totals[k].1,
                    ))->0
                // consecutive months, oldest first, ending with the current one
                &&& forall|k: int|
                    0 <= k < months - 1 ==> (#[trigger] v[k + 1]).year == next_month(
                        v[k].year as int,
                        v[k].month as int,
                    ).0 && v[k + 1].month == next_month(v[k].year as int, v[k].month as int).1
                &&& months > 0 ==> v[months - 1].year == now_year && v[months - 1].month == now_month0
                    + 1
            },
    {
        let periods = Self::monthly_trend_periods(now_year, now_month0, months);
        let r = Self::monthly_trend(&periods, totals);
        proof {
            let nt = now_year * 12 + now_month0;
            assert forall|k: int| 0 <= k < months implies #[trigger] monthly_summary_spec(
                trend_period(nt, months as int, k).0,
                trend_period(nt, months as int, k).1,
                totals[k].0,
                totals[k].1,
            ) == monthly_summary_spec(periods[k].0, periods[k].1, totals[k].0, totals[k].1) by {
                assert(periods[k] == trend_period(nt, months as int, k));
            }
            assert forall|k: int| 0 <= k < months implies #[trigger] monthly_summary_spec(
                periods[k].0,
                periods[k].1,
                totals[k].0,
                totals[k].1,
            ) == monthly_summary_spec(
                trend_period(nt, months as int, k).0,
                trend_period(nt, months as int, k).1,
                totals[k].0,
                totals[k].1,
            ) by {
                assert(periods[k] == trend_period(nt, months as int, k));
            }
            if r is Some {
                let v = r->0;
                assert forall|k: int| 0 <= k < months - 1 implies (#[trigger] v[k + 1]).year
                    == next_month(v[k].year as int, v[k].month as int).0 && v[k + 1].month
                    == next_month(v[k].year as int, v[k].month as int).1 by {
                    assert(periods[k + 1].0 == next_month(periods[k].0 as int, periods[k].1 as int).0);
                    assert(monthly_summary_spec(periods[k].0, periods[k].1, totals[k].0, totals[k].1) == Some(v[k]));
                    assert(monthly_summary_spec(periods[k + 1].0, periods[k + 1].1, totals[k + 1].0, totals[k + 1].1) == Some(v[k + 1]));
                }
                if months > 0 {
                    let j = months - 1;
                    assert(monthly_summary_spec(periods[j as int].0, periods[j as int].1, totals[j as int].0, totals[j as int].1) == Some(v[j as int]));
                }
            }
        }
        r
    }

    /// The last `months` months up to the current one (year `now_year`,
    /// zero-based month `now_month0`), oldest first, as (year, month 1-12).
    pub fn monthly_trend_periods(now_year: i32, now_month0: u32, months: u32) -> (r: Vec<(i32, u32)>)
        requires
            now_year >= 0,
            now_month0 < 12,
            now_year * 12 + now_month0 <= u32::MAX,
            months <= now_year * 12 + now_month0 + 1,
        ensures
            r.len() == months,
            forall|k: int|
                0 <= k < months ==> #[trigger] r[k] == trend_period(
                    now_year * 12 + now_month0,
                    months as int,
                    k,
                ),
            // consecutive months, oldest first, ending with the current one
            forall|k: int| 0 <= k < months ==> 1 <= (#[trigger] r[k]).1 <= 12,
            forall|k: int|
                0 <= k < months - 1 ==> (#[trigger] r[k + 1]).0 == next_month(r[k].0 as int, r[k].1 as int).0
                    && r[k + 1].1 == next_month(r[k].0 as int, r[k].1 as int).1,
            months > 0 ==> r[months - 1] == (now_year, (now_month0 + 1) as u32),
    {
        proof {
            assert forall|k: int| 0 <= k < months - 1 implies {
                let a = #[trigger] trend_period(now_year * 12 + now_month0, months as int, k);
                let b = trend_period(now_year * 12 + now_month0, months as int, k + 1);
                b.0 == next_month(a.0 as int, a.1 as int).0 && b.1 == next_month(a.0 as int, a.1 as int).1
            } by {
                lemma_next_period(now_year * 12 + now_month0 - (months - 1 - k));
            }
        }
        let total_months: u32 = now_month0 + (now_year as u32) * 12;
        let mut out: Vec<(i32, u32)> = Vec::new();
        let mut k: u32 = 0;
        while k < months
            invariant
                k <= months,
                total_months == now_year * 12 + now_month0,
                months <= total_months + 1,
                out.len() == k,
                forall|j: int|
                    0 <= j < k ==> #[trigger] out[j] == trend_period(
                        total_months as int,
                        months as int,
                        j,
                    ),
            decreases months - k,
        {
            let i = months - 1 - k;
            let target = total_months - i;
            out.push(((target / 12) as i32, target % 12 + 1));
            k = k + 1;
        }
        out
    }

    /// The month's spending by category (from the per-category sums `raw`
    /// and their `total`), largest first.
    pub fn expense_by_category(raw: Vec<(String, Dec)>, total: Dec, categories: &Vec<Category>) -> (r: Vec<
        ExpenseByCategoryItem,
    >)
        requires
            forall|i: int| 0 <= i < raw.len() ==> (#[trigger] raw[i]).1.wf(),
            total.wf(),
            categories_wf(categories@),
            expense_by_category_spec(raw@, total, categories@) is Some,
        ensures
            r@ == expense_by_category_spec(raw@, total, categories@)->0,
    {
        expense_report(raw, total, categories).unwrap()
    }

    /// `expense_by_category`, or `None` where the arithmetic overflows.
    pub fn checked_expense_by_category(
        raw: Vec<(String, Dec)>,
        total: Dec,
        categories: &Vec<Category>,
    ) -> (r: Option<Vec<ExpenseByCategoryItem>>)
        requires
            forall|i: int| 0 <= i < raw.len() ==> (#[trigger] raw[i]).1.wf(),
            total.wf(),
            categories_wf(categories@),
        ensures
            match expense_by_category_spec(raw@, total, categories@) {
                Some(items) => r matches Some(v) && v@ == items,
                None => r is None,
            },
    {
        expense_report(raw, total, categories)
    }

    /// An alert for each category over budget, in the order of the report.
    pub fn overspending_alerts(items: &Vec<ExpenseByCategoryItem>) -> (r: Vec<OverspendingAlert>)
        requires
            items_wf(items@),
            alerts_spec(items@) is Some,
        ensures
            r@ == alerts_spec(items@)->0,
    {
        alerts(items).unwrap()
    }

    /// `overspending_alerts`, or `None` where the arithmetic overflows.
    pub fn checked_overspending_alerts(items: &Vec<ExpenseByCategoryItem>) -> (r: Option<
        Vec<OverspendingAlert>,
    >)
        requires
            items_wf(items@),
        ensures
            match alerts_spec(items@) {
                Some(a) => r matches Some(v) && v@ == a,
                None => r is None,
            },
    {
        alerts(items)
    }

    /// The performance of each holding, with `realized[i]` the realized P&L
    /// of `holdings[i]`.
    pub fn investment_pnl(holdings: &Vec<Holding>, realized: &Vec<Dec>) -> (r: Vec<
        InvestmentPnlItem,
    >)
        requires
            holdings.len() == realized.len(),
            forall|i: int| 0 <= i < holdings.len() ==> (#[trigger] holdings[i]).wf(),
            investment_items_spec(holdings@, realized@) is Some,
        ensures
            r@ == investment_items_spec(holdings@, realized@)->0,
    {
        investment_items(holdings, realized).unwrap()
    }

    /// `investment_pnl`, or `None` where the arithmetic overflows.
    pub fn checked_investment_pnl(holdings: &Vec<Holding>, realized: &Vec<Dec>) -> (r: Option<
        Vec<InvestmentPnlItem>,
    >)
        requires
            holdings.len() == realized.len(),
            forall|i: int| 0 <= i < holdings.len() ==> (#[trigger] holdings[i]).wf(),
        ensures
            match investment_items_spec(holdings@, realized@) {
                Some(items) => r matches Some(v) && v@ == items,
                None => r is None,
            },
    {
        investment_items(holdings, realized)
    }

    /// Realized P&L of a holding, approximated as the proceeds of all its
    /// sales minus the cost of the units sold at the current average price.
    pub fn realized_pnl_for_holding(proceeds: Dec, cost_sold: Dec) -> (r: Dec)
        requires
            proceeds.wf(),
            cost_sold.wf(),
            sub_spec(proceeds, cost_sold) is Some,
        ensures
            r == sub_spec(proceeds, cost_sold)->0,
    {
        proceeds.sub(cost_sold)
    }

    /// `realized_pnl_for_holding`, or `None` where the subtraction overflows.
    pub fn checked_realized_pnl_for_holding(proceeds: Dec, cost_sold: Dec) -> (r: Option<Dec>)
        requires
            proceeds.wf(),
            cost_sold.wf(),
        ensures
            r == sub_spec(proceeds, cost_sold),
    {
        proceeds.checked_sub(cost_sold)
    }

    /// Net worth: the balances of the wallets summed per currency.
    pub fn net_worth(wallets: &Vec<Wallet>) -> (r: NetWorth)
        requires
            forall|i: int| 0 <= i < wallets.len() ==> (#[trigger] wallets[i]).balance.wf(),
            net_worth_spec(wallets@) is Some,
        ensures
            r == net_worth_spec(wallets@)->0,
    {
        net_worth_opt(wallets).unwrap()
    }

    /// `net_worth`, or `None` where a sum overflows.
    pub fn checked_net_worth(wallets: &Vec<Wallet>) -> (r: Option<NetWorth>)
        requires
            forall|i: int| 0 <= i < wallets.len() ==> (#[trigger] wallets[i]).balance.wf(),
        ensures
            r == net_worth_spec(wallets@),
    {
        net_worth_opt(wallets)
    }
}

} // verus!
