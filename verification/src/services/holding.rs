//! Position arithmetic for investment holdings.
use vstd::prelude::*;

use crate::decimal::{add_spec, checked_percent, checked_sum, div_spec, mul_spec, percent_spec, sub_mul, sub_mul_spec, sub_spec, sum_spec, Dec};
use crate::error::{AppError, AppErrorView};
use crate::models::holding::{AssetType, Holding, NewHolding};
use crate::models::wallet::{Wallet, WalletType};
use crate::repository::records::HoldingRepo;
use crate::text::{clone_opt_string, uppercase_text};

verus! {

/// Position arithmetic of investment holdings.
pub struct HoldingService;

/// The position after buying `qty` units at `price` into a position of
/// `old_qty` units at average price `old_avg`:
/// `new_qty = old_qty + qty` and, when `new_qty > 0`, the weighted average
/// `new_avg = (old_qty * old_avg + qty * price) / new_qty`, else `price`.
/// `None` where a step overflows.
pub open spec fn buy_position_spec(old_qty: Dec, old_avg: Dec, qty: Dec, price: Dec) -> Option<
    (Dec, Dec),
> {
    match add_spec(old_qty, qty) {
        None => None,
        Some(new_qty) => if new_qty.value() > 0 {
            match mul_spec(old_qty, old_avg) {
                None => None,
                Some(old_cost) => match mul_spec(qty, price) {
                    None => None,
                    Some(buy_cost) => match add_spec(old_cost, buy_cost) {
                        None => None,
                        Some(total_cost) => match div_spec(total_cost, new_qty) {
                            None => None,
                            Some(new_avg) => Some((new_qty, new_avg)),
                        },
                    },
                },
            }
        } else {
            Some((new_qty, price))
        },
    }
}

/// The quantity left after selling `qty` units; `None` on overflow.
pub open spec fn sell_quantity_spec(quantity: Dec, qty: Dec) -> Option<Dec> {
    sub_spec(quantity, qty)
}

/// `NotFound("<what> '<id>'")`.
pub open spec fn not_found(what: Seq<char>, id: Seq<char>) -> AppErrorView {
    AppErrorView::NotFound(what + " '"@ + id + "'"@)
}

/// Builds `<what> '<id>'`.
pub fn quoted_id(what: &str, id: &str) -> (r: String)
    ensures
        r@ == what@ + " '"@ + id@ + "'"@,
{
    what.to_owned().concat(" '").concat(id).concat("'")
}

/// What `get_or_create` decides.
#[derive(Debug, PartialEq)]
pub enum HoldingChoice {
    /// The wallet already holds the symbol: use this holding.
    Existing(String),
    /// Create this holding.
    Create(NewHolding),
}

/// A holding with its profit and loss figures.
#[derive(Clone, Debug, PartialEq)]
pub struct HoldingWithPnl {
    pub holding: Holding,
    pub unrealized_pnl: Option<Dec>,
    pub market_value: Option<Dec>,
    pub cost_basis: Dec,
}

/// The summary of one holding; `None` where a figure overflows.
pub open spec fn with_pnl_spec(h: Holding) -> Option<HoldingWithPnl> {
    match h.unrealized_pnl_spec() {
        None => None,
        Some(pnl) => match h.market_value_spec() {
            None => None,
            Some(mv) => match h.cost_basis_spec() {
                None => None,
                Some(cb) => Some(
                    HoldingWithPnl { holding: h, unrealized_pnl: pnl, market_value: mv, cost_basis: cb },
                ),
            },
        },
    }
}

/// The summaries of a list of holdings, in order; `None` where any overflows.
pub open spec fn portfolio_spec(hs: Seq<Holding>) -> Option<Seq<HoldingWithPnl>>
    decreases hs.len(),
{
    if hs.len() == 0 {
        Some(Seq::empty())
    } else {
        match portfolio_spec(hs.drop_last()) {
            None => None,
            Some(prefix) => match with_pnl_spec(hs.last()) {
                None => None,
                Some(item) => Some(prefix.push(item)),
            },
        }
    }
}

/// The unrealized P&L of the holdings that have one (a known last price), in
/// order; `None` where any overflows.
pub open spec fn present_pnls_spec(hs: Seq<Holding>) -> Option<Seq<Dec>>
    decreases hs.len(),
{
    if hs.len() == 0 {
        Some(Seq::empty())
    } else {
        match present_pnls_spec(hs.drop_last()) {
            None => None,
            Some(prefix) => match hs.last().unrealized_pnl_spec() {
                None => None,
                Some(Some(p)) => Some(prefix.push(p)),
                Some(None) => Some(prefix),
            },
        }
    }
}

/// The total unrealized P&L; `None` where any step overflows.
pub open spec fn total_unrealized_spec(hs: Seq<Holding>) -> Option<Dec> {
    match present_pnls_spec(hs) {
        None => None,
        Some(ps) => sum_spec(ps),
    }
}

/// `unrealized_pnl / cost_basis * 100`, absent without a P&L or with a zero
/// cost basis; the outer `None` marks an overflow.
pub open spec fn pnl_pct_spec(pnl: Option<Dec>, cost_basis: Dec) -> Option<Option<Dec>> {
    match pnl {
        None => Some(None),
        Some(p) => if cost_basis.value() == 0 {
            Some(None)
        } else {
            match percent_spec(p, cost_basis) {
                None => None,
                Some(v) => Some(Some(v)),
            }
        },
    }
}

fn buy_position(old_qty: Dec, old_avg: Dec, qty: Dec, price: Dec) -> (r: Option<(Dec, Dec)>)
    requires
        old_qty.wf(),
        old_avg.wf(),
        qty.wf(),
        price.wf(),
    ensures
        r == buy_position_spec(old_qty, old_avg, qty, price),
        r matches Some((q, a)) ==> q.wf() && a.wf(),
{
    let new_qty = match old_qty.checked_add(qty) {
        Some(v) => v,
        None => return None,
    };
    if Dec::zero().lt(new_qty) {
        let old_cost = match old_qty.checked_mul(old_avg) {
            Some(v) => v,
            None => return None,
        };
        let buy_cost = match qty.checked_mul(price) {
            Some(v) => v,
            None => return None,
        };
        let total_cost = match old_cost.checked_add(buy_cost) {
            Some(v) => v,
            None => return None,
        };
        match total_cost.checked_div(new_qty) {
            Some(new_avg) => Some((new_qty, new_avg)),
            None => None,
        }
    } else {
        Some((new_qty, price))
    }
}

fn with_pnl(h: Holding) -> (r: Option<HoldingWithPnl>)
    requires
        h.wf(),
    ensures
        r == with_pnl_spec(h),
{
    let pnl = match h.checked_unrealized_pnl() {
        Some(p) => p,
        None => return None,
    };
    let mv = match h.checked_market_value() {
        Some(v) => v,
        None => return None,
    };
    let cb = match h.checked_cost_basis() {
        Some(v) => v,
        None => return None,
    };
    Some(HoldingWithPnl { holding: h, unrealized_pnl: pnl, market_value: mv, cost_basis: cb })
}

fn portfolio(holdings: &Vec<Holding>) -> (r: Option<Vec<HoldingWithPnl>>)
    requires
        forall|i: int| 0 <= i < holdings.len() ==> (#[trigger] holdings[i]).wf(),
    ensures
        r matches Some(v) ==> portfolio_spec(holdings@) == Some(v@),
        r is None ==> portfolio_spec(holdings@) is None,
{
    let mut out: Vec<HoldingWithPnl> = Vec::new();
    let mut i: usize = 0;
    while i < holdings.len()
        invariant
            i <= holdings.len(),
            forall|k: int| 0 <= k < holdings.len() ==> (#[trigger] holdings[k]).wf(),
            portfolio_spec(holdings@.subrange(0, i as int)) == Some(out@),
        decreases holdings.len() - i,
    {
        assert(holdings@.subrange(0, i + 1).drop_last() =~= holdings@.subrange(0, i as int));
        match with_pnl(holdings[i].clone_holding()) {
            Some(item) => {
                out.push(item);
            },
            None => {
                proof {
                    lemma_portfolio_none_extends(holdings@, i + 1);
                }
                return None;
            },
        }
        i = i + 1;
    }
    assert(holdings@.subrange(0, holdings.len() as int) =~= holdings@);
    Some(out)
}

proof fn lemma_portfolio_none_extends(s: Seq<Holding>, k: int)
    requires
        0 <= k <= s.len(),
        portfolio_spec(s.subrange(0, k)) is None,
    ensures
        portfolio_spec(s) is None,
    decreases s.len() - k,
{
    if k < s.len() {
        assert(s.subrange(0, k + 1).drop_last() =~= s.subrange(0, k));
        lemma_portfolio_none_extends(s, k + 1);
    } else {
        assert(s.subrange(0, k) =~= s);
    }
}

fn present_pnls(holdings: &Vec<Holding>) -> (r: Option<Vec<Dec>>)
    requires
        forall|i: int| 0 <= i < holdings.len() ==> (#[trigger] holdings[i]).wf(),
    ensures
        r matches Some(v) ==> present_pnls_spec(holdings@) == Some(v@) && forall|i: int|
            0 <= i < v.len() ==> (#[trigger] v[i]).wf(),
        r is None ==> present_pnls_spec(holdings@) is None,
{
    let mut out: Vec<Dec> = Vec::new();
    let mut i: usize = 0;
    while i < holdings.len()
        invariant
            i <= holdings.len(),
            forall|k: int| 0 <= k < holdings.len() ==> (#[trigger] holdings[k]).wf(),
            present_pnls_spec(holdings@.subrange(0, i as int)) == Some(out@),
            forall|k: int| 0 <= k < out.len() ==> (#[trigger] out[k]).wf(),
        decreases holdings.len() - i,
    {
        assert(holdings@.subrange(0, i + 1).drop_last() =~= holdings@.subrange(0, i as int));
        match holdings[i].checked_unrealized_pnl() {
            Some(Some(p)) => {
                out.push(p);
            },
            Some(None) => {},
            None => {
                proof {
                    lemma_pnls_none_extends(holdings@, i + 1);
                }
                return None;
            },
        }
        i = i + 1;
    }
    assert(holdings@.subrange(0, holdings.len() as int) =~= holdings@);
    Some(out)
}

proof fn lemma_pnls_none_extends(s: Seq<Holding>, k: int)
    requires
        0 <= k <= s.len(),
        present_pnls_spec(s.subrange(0, k)) is None,
    ensures
        present_pnls_spec(s) is None,
    decreases s.len() - k,
{
    if k < s.len() {
        assert(s.subrange(0, k + 1).drop_last() =~= s.subrange(0, k));
        lemma_pnls_none_extends(s, k + 1);
    } else {
        assert(s.subrange(0, k) =~= s);
    }
}

impl HoldingService {
    /// Decides how to obtain the holding of `symbol` in `wallet_id`: reuse
    /// `existing` (the wallet's holding of that symbol in uppercase, if any);
    /// otherwise the wallet (`wallet`, as looked up) must exist and be an
    /// investment wallet, and a new holding of the uppercased symbol is to be
    /// created.
    pub fn get_or_create(
        existing: Option<&Holding>,
        wallet: Option<&Wallet>,
        wallet_id: &str,
        symbol: &str,
        name: Option<String>,
        asset_type: AssetType,
    ) -> (r: Result<HoldingChoice, AppError>)
        ensures
            match existing {
                Some(h) => r matches Ok(HoldingChoice::Existing(id)) && id@ == h.id@,
                None => match wallet {
                    None => r matches Err(e) && e@ == not_found("wallet"@, wallet_id@),
                    Some(w) => if w.wallet_type != WalletType::Investment {
                        r matches Err(e) && e@ == AppErrorView::Validation(
                            "Wallet '"@ + w.name@ + "' is not an investment wallet"@,
                        )
                    } else {
                        r matches Ok(HoldingChoice::Create(n)) && n.wallet_id@ == wallet_id@
                            && n.symbol@ == uppercase_text(symbol@) && n.name == name && n.asset_type
                            == asset_type
                    },
                },
            },
    {
        if let Some(h) = existing {
            return Ok(HoldingChoice::Existing(h.id.clone()));
        }
        match wallet {
            None => Err(AppError::NotFound(quoted_id("wallet", wallet_id))),
            Some(w) => match w.wallet_type {
                WalletType::Investment => Ok(
                    HoldingChoice::Create(
                        NewHolding {
                            wallet_id: wallet_id.to_owned(),
                            symbol: HoldingRepo::symbol_key(symbol),
                            name,
                            asset_type,
                        },
                    ),
                ),
                _ => Err(
                    AppError::Validation(
                        "Wallet '".to_owned().concat(w.name.as_str()).concat(
                            "' is not an investment wallet",
                        ),
                    ),
                ),
            },
        }
    }

    /// The position after buying `qty` units at `price`: the quantities add
    /// up and the average price becomes the weighted average of the old
    /// position and the purchase.
    pub fn apply_buy(holding: &Holding, qty: Dec, price: Dec) -> (r: (Dec, Dec))
        requires
            holding.wf(),
            qty.wf(),
            price.wf(),
            buy_position_spec(holding.quantity, holding.avg_buy_price, qty, price) is Some,
        ensures
            r == buy_position_spec(holding.quantity, holding.avg_buy_price, qty, price)->0,
            r.0.wf(),
            r.1.wf(),
    {
        buy_position(holding.quantity, holding.avg_buy_price, qty, price).unwrap()
    }

    /// `apply_buy`, or `None` where the arithmetic overflows.
    pub fn checked_apply_buy(holding: &Holding, qty: Dec, price: Dec) -> (r: Option<(Dec, Dec)>)
        requires
            holding.wf(),
            qty.wf(),
            price.wf(),
        ensures
            r == buy_position_spec(holding.quantity, holding.avg_buy_price, qty, price),
    {
        buy_position(holding.quantity, holding.avg_buy_price, qty, price)
    }

    /// The position after selling `qty` units: the quantity drops by `qty`
    /// and the average purchase price stays. Selling more than is held is
    /// refused.
    pub fn apply_sell(holding: &Holding, qty: Dec) -> (r: Result<(Dec, Dec), AppError>)
        requires
            holding.wf(),
            qty.wf(),
            qty.value() <= holding.quantity.value() ==> sell_quantity_spec(holding.quantity, qty) is Some,
        ensures
            qty.value() > holding.quantity.value() ==> (r matches Err(e) && e@
                == AppErrorView::InsufficientQuantity(holding.id@)),
            qty.value() <= holding.quantity.value() ==> r == Ok::<(Dec, Dec), AppError>(
                (sell_quantity_spec(holding.quantity, qty)->0, holding.avg_buy_price),
            ),
    {
        if holding.quantity.lt(qty) {
            return Err(AppError::InsufficientQuantity(holding.id.clone()));
        }
        Ok((holding.quantity.sub(qty), holding.avg_buy_price))
    }

    /// `apply_sell`, or `None` where the arithmetic overflows.
    pub fn checked_apply_sell(holding: &Holding, qty: Dec) -> (r: Option<Result<(Dec, Dec), AppError>>)
        requires
            holding.wf(),
            qty.wf(),
        ensures
            qty.value() > holding.quantity.value() ==> (r matches Some(Err(e)) && e@
                == AppErrorView::InsufficientQuantity(holding.id@)),
            qty.value() <= holding.quantity.value() ==> match sell_quantity_spec(holding.quantity, qty) {
                Some(q) => r == Some(Ok::<(Dec, Dec), AppError>((q, holding.avg_buy_price))),
                None => r is None,
            },
    {
        if holding.quantity.lt(qty) || holding.quantity.checked_sub(qty).is_some() {
            Some(Self::apply_sell(holding, qty))
        } else {
            None
        }
    }

    /// Realized profit of selling `sell_qty` units at `sell_price` from a
    /// position bought at average price `avg_buy_price`:
    /// `(sell_price - avg_buy_price) * sell_qty`.
    pub fn realized_pnl(avg_buy_price: Dec, sell_qty: Dec, sell_price: Dec) -> (r: Dec)
        requires
            avg_buy_price.wf(),
            sell_qty.wf(),
            sell_price.wf(),
            sub_mul_spec(sell_price, avg_buy_price, sell_qty) is Some,
        ensures
            r == sub_mul_spec(sell_price, avg_buy_price, sell_qty)->0,
    {
        sub_mul(sell_price, avg_buy_price, sell_qty)
    }

    /// `realized_pnl`, or `None` where the arithmetic overflows.
    pub fn checked_realized_pnl(avg_buy_price: Dec, sell_qty: Dec, sell_price: Dec) -> (r: Option<Dec>)
        requires
            avg_buy_price.wf(),
            sell_qty.wf(),
            sell_price.wf(),
        ensures
            r == sub_mul_spec(sell_price, avg_buy_price, sell_qty),
    {
        match sell_price.checked_sub(avg_buy_price) {
            Some(d) => d.checked_mul(sell_qty),
            None => None,
        }
    }

    /// A manually entered market price must not be negative.
    pub fn validate_last_price(price: Dec) -> (r: Result<(), AppError>)
        requires
            price.wf(),
        ensures
            price.value() < 0 ==> (r matches Err(e) && e@ == AppErrorView::Validation(
                "Price cannot be negative"@,
            )),
            price.value() >= 0 ==> r is Ok,
    {
        if price.lt(Dec::zero()) {
            Err(AppError::Validation("Price cannot be negative".to_owned()))
        } else {
            Ok(())
        }
    }

    /// Every holding of a wallet with its P&L figures, in the given order.
    pub fn portfolio_summary(holdings: Vec<Holding>) -> (r: Vec<HoldingWithPnl>)
        requires
            forall|i: int| 0 <= i < holdings.len() ==> (#[trigger] holdings[i]).wf(),
            portfolio_spec(holdings@) is Some,
        ensures
            r@ == portfolio_spec(holdings@)->0,
    {
        portfolio(&holdings).unwrap()
    }

    /// `portfolio_summary`, or `None` where a figure overflows.
    pub fn checked_portfolio_summary(holdings: Vec<Holding>) -> (r: Option<Vec<HoldingWithPnl>>)
        requires
            forall|i: int| 0 <= i < holdings.len() ==> (#[trigger] holdings[i]).wf(),
        ensures
            r matches Some(v) ==> portfolio_spec(holdings@) == Some(v@),
            r is None ==> portfolio_spec(holdings@) is None,
    {
        portfolio(&holdings)
    }

    /// The sum of the unrealized P&L of every holding with a known price.
    pub fn total_unrealized_pnl(holdings: &Vec<Holding>) -> (r: Dec)
        requires
            forall|i: int| 0 <= i < holdings.len() ==> (#[trigger] holdings[i]).wf(),
            total_unrealized_spec(holdings@) is Some,
        ensures
            r == total_unrealized_spec(holdings@)->0,
    {
        let pnls = present_pnls(holdings).unwrap();
        checked_sum(&pnls).unwrap()
    }

    /// `total_unrealized_pnl`, or `None` where the arithmetic overflows.
    pub fn checked_total_unrealized_pnl(holdings: &Vec<Holding>) -> (r: Option<Dec>)
        requires
            forall|i: int| 0 <= i < holdings.len() ==> (#[trigger] holdings[i]).wf(),
        ensures
            r == total_unrealized_spec(holdings@),
    {
        match present_pnls(holdings) {
            Some(pnls) => checked_sum(&pnls),
            None => None,
        }
    }
}

impl Holding {
    /// A field-by-field copy.
    pub fn clone_holding(&self) -> (r: Holding)
        ensures
            r == *self,
    {
        Holding {
            id: self.id.clone(),
            wallet_id: self.wallet_id.clone(),
            symbol: self.symbol.clone(),
            name: clone_opt_string(&self.name),
            asset_type: self.asset_type,
            quantity: self.quantity,
            avg_buy_price: self.avg_buy_price,
            last_price: self.last_price,
            last_price_at: self.last_price_at,
            created_at: self.created_at,
        }
    }
}

impl HoldingWithPnl {
    /// The unrealized P&L as a percentage of the cost basis; none without a
    /// P&L or with a zero cost basis.
    pub fn unrealized_pnl_pct(&self) -> (r: Option<Dec>)
        requires
            self.cost_basis.wf(),
            self.unrealized_pnl matches Some(p) ==> p.wf(),
            pnl_pct_spec(self.unrealized_pnl, self.cost_basis) is Some,
        ensures
            r == pnl_pct_spec(self.unrealized_pnl, self.cost_basis)->0,
    {
        let pnl = match self.unrealized_pnl {
            Some(p) => p,
            None => return None,
        };
        if self.cost_basis.same_value(Dec::zero()) {
            return None;
        }
        checked_percent(pnl, self.cost_basis)
    }

    /// `unrealized_pnl_pct`, or `None` where the arithmetic overflows.
    pub fn checked_unrealized_pnl_pct(&self) -> (r: Option<Option<Dec>>)
        requires
            self.cost_basis.wf(),
            self.unrealized_pnl matches Some(p) ==> p.wf(),
        ensures
            r == pnl_pct_spec(self.unrealized_pnl, self.cost_basis),
    {
        match self.unrealized_pnl {
            Some(p) => if self.cost_basis.same_value(Dec::zero()) || checked_percent(
                p,
                self.cost_basis,
            ).is_some() {
                Some(self.unrealized_pnl_pct())
            } else {
                None
            },
            None => Some(self.unrealized_pnl_pct()),
        }
    }
}

} // verus!
