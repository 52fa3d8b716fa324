//! Executing and reversing transactions.
//!
//! The store is read before and written after: `execute` and `delete` take
//! what the store holds of the wallets and the holding a transaction touches,
//! decide, and answer either the error the transaction is refused with or the
//! changes to apply, in order. Applying them (and recording or deleting the
//! transaction itself) is the caller's part, all in one store transaction.
use vstd::prelude::*;

use crate::decimal::{add_spec, div_spec, max_spec, mul_spec, neg_spec, sub_spec, Dec};
use crate::error::{AppError, AppErrorView};
use crate::models::holding::Holding;
use crate::models::transaction::{NewTransaction, Transaction, TransactionType};
use crate::services::holding::{buy_position_spec, not_found, quoted_id, HoldingService};

verus! {

/// What the store holds of a wallet: its balance and whether it is active.
#[derive(Clone, Copy, Debug, PartialEq)]
pub struct WalletState {
    pub balance: Dec,
    pub is_active: bool,
}

/// One change to the store.
#[derive(Debug, PartialEq)]
pub enum LedgerEffect {
    /// Add `delta` to the balance of an active wallet.
    AddBalance { wallet_id: String, delta: Dec },
    /// Set the quantity and average purchase price of a holding.
    SetPosition { holding_id: String, quantity: Dec, avg_buy_price: Dec },
}

/// A change to the store, with identifiers as their characters.
pub enum EffectView {
    AddBalance { wallet: Seq<char>, delta: Dec },
    SetPosition { holding: Seq<char>, quantity: Dec, avg_buy_price: Dec },
}

impl View for LedgerEffect {
    type V = EffectView;

    open spec fn view(&self) -> EffectView {
        match self {
            LedgerEffect::AddBalance { wallet_id, delta } => EffectView::AddBalance {
                wallet: wallet_id@,
                delta: *delta,
            },
            LedgerEffect::SetPosition { holding_id, quantity, avg_buy_price } => EffectView::SetPosition {
                holding: holding_id@,
                quantity: *quantity,
                avg_buy_price: *avg_buy_price,
            },
        }
    }
}

pub open spec fn add_balance(wallet: Seq<char>, delta: Dec) -> EffectView {
    EffectView::AddBalance { wallet, delta }
}

pub open spec fn set_position(holding: Seq<char>, quantity: Dec, avg_buy_price: Dec) -> EffectView {
    EffectView::SetPosition { holding, quantity, avg_buy_price }
}

/// The outcome of planning, with strings as their characters.
pub open spec fn plan_view(r: Result<Vec<LedgerEffect>, AppError>) -> Result<
    Seq<EffectView>,
    AppErrorView,
> {
    match r {
        Ok(v) => Ok(v@.map_values(|e: LedgerEffect| e@)),
        Err(e) => Err(e@),
    }
}

pub open spec fn wallet_not_found(id: Seq<char>) -> AppErrorView {
    not_found("wallet"@, id)
}

pub open spec fn holding_not_found(id: Seq<char>) -> AppErrorView {
    not_found("holding"@, id)
}

pub open spec fn invalid(msg: Seq<char>) -> AppErrorView {
    AppErrorView::Validation(msg)
}

/// Whether an optional amount is missing or not positive.
pub open spec fn missing_or_not_positive(a: Option<Dec>) -> bool {
    match a {
        Some(x) => x.value() <= 0,
        None => true,
    }
}

/// The error a new transaction is refused with before anything is changed,
/// if any: the amount must be positive, the wallet must exist, and each kind
/// needs its own fields.
pub open spec fn validation_error(input: NewTransaction, wallet_found: bool) -> Option<AppErrorView> {
    if input.amount.value() <= 0 {
        Some(invalid("Amount must be greater than zero"@))
    } else if !wallet_found {
        Some(wallet_not_found(input.wallet_id@))
    } else {
        match input.txn_type {
            TransactionType::Income => if input.income_type is None {
                Some(invalid("income requires income_type"@))
            } else {
                None
            },
            TransactionType::Expense => if input.category_id is None {
                Some(invalid("expense requires category_id"@))
            } else {
                None
            },
            TransactionType::Transfer => match input.to_wallet_id {
                None => Some(invalid("transfer requires to_wallet_id"@)),
                Some(to) => if to@ == input.wallet_id@ {
                    Some(invalid("Cannot transfer to the same wallet"@))
                } else if input.to_amount is None {
                    Some(invalid("transfer requires to_amount"@))
                } else if input.to_currency == Some(input.currency)
                    && input.to_amount->0.value() != input.amount.value() {
                    Some(invalid("Same-currency transfer requires to_amount equal to amount"@))
                } else {
                    None
                },
            },
            _ => if input.holding_id is None {
                Some(invalid("invest transaction requires holding_id"@))
            } else if missing_or_not_positive(input.asset_quantity) {
                Some(invalid("asset_quantity must be > 0"@))
            } else if missing_or_not_positive(input.asset_price) {
                Some(invalid("asset_price must be > 0"@))
            } else {
                None
            },
        }
    }
}

/// Whether an optional wallet exists and is active.
pub open spec fn is_active(w: Option<WalletState>) -> bool {
    w matches Some(s) && s.is_active
}

/// The changes of a validated transaction, or the error it fails with;
/// `None` where an arithmetic step overflows. `from` is the transaction's
/// wallet, `to` the receiving wallet of a transfer, `holding` the holding
/// of a trade.
pub open spec fn process_spec(
    input: NewTransaction,
    from: WalletState,
    to: Option<WalletState>,
    holding: Option<Holding>,
) -> Option<Result<Seq<EffectView>, AppErrorView>> {
    let w = input.wallet_id@;
    match input.txn_type {
        // balance += amount
        TransactionType::Income => Some(
            if from.is_active {
                Ok(seq![add_balance(w, input.amount)])
            } else {
                Err(wallet_not_found(w))
            },
        ),
        // balance -= amount, refused beyond the balance
        TransactionType::Expense => Some(
            if input.amount.value() > from.balance.value() {
                Err(AppErrorView::InsufficientBalance(w))
            } else if !from.is_active {
                Err(wallet_not_found(w))
            } else {
                Ok(seq![add_balance(w, neg_spec(input.amount))])
            },
        ),
        // from -= amount, to += to_amount
        TransactionType::Transfer => match input.to_wallet_id {
            None => Some(Err(invalid("Transfer requires to_wallet_id"@))),
            Some(to_id) => match input.to_amount {
                None => Some(Err(invalid("Transfer requires to_amount"@))),
                Some(to_amount) => Some(
                    if input.amount.value() > from.balance.value() {
                        Err(AppErrorView::InsufficientBalance(w))
                    } else if !from.is_active {
                        Err(wallet_not_found(w))
                    } else if !is_active(to) {
                        Err(wallet_not_found(to_id@))
                    } else {
                        Ok(
                            seq![
                                add_balance(w, neg_spec(input.amount)),
                                add_balance(to_id@, to_amount),
                            ],
                        )
                    },
                ),
            },
        },
        // balance -= quantity * price; the position takes the purchase in
        TransactionType::InvestBuy => match input.holding_id {
            None => Some(Err(invalid("invest_buy requires holding_id"@))),
            Some(h) => match input.asset_quantity {
                None => Some(Err(invalid("invest_buy requires asset_quantity"@))),
                Some(q) => match input.asset_price {
                    None => Some(Err(invalid("invest_buy requires asset_price"@))),
                    Some(p) => match mul_spec(q, p) {
                        None => None,
                        Some(total) => if total.value() > from.balance.value() {
                            Some(Err(AppErrorView::InsufficientBalance(w)))
                        } else if !from.is_active {
                            Some(Err(wallet_not_found(w)))
                        } else {
                            match holding {
                                None => Some(Err(holding_not_found(h@))),
                                Some(hd) => match buy_position_spec(
                                    hd.quantity,
                                    hd.avg_buy_price,
                                    q,
                                    p,
                                ) {
                                    None => None,
                                    Some((nq, na)) => Some(
                                        Ok(
                                            seq![
                                                add_balance(w, neg_spec(total)),
                                                set_position(h@, nq, na),
                                            ],
                                        ),
                                    ),
                                },
                            }
                        },
                    },
                },
            },
        },
        // the position gives up quantity units; balance += quantity * price
        TransactionType::InvestSell => match input.holding_id {
            None => Some(Err(invalid("invest_sell requires holding_id"@))),
            Some(h) => match input.asset_quantity {
                None => Some(Err(invalid("invest_sell requires asset_quantity"@))),
                Some(q) => match input.asset_price {
                    None => Some(Err(invalid("invest_sell requires asset_price"@))),
                    Some(p) => match holding {
                        None => Some(Err(holding_not_found(h@))),
                        Some(hd) => if q.value() > hd.quantity.value() {
                            Some(Err(AppErrorView::InsufficientQuantity(h@)))
                        } else {
                            match sub_spec(hd.quantity, q) {
                                None => None,
                                Some(nq) => match mul_spec(q, p) {
                                    None => None,
                                    Some(proceeds) => Some(
                                        if !from.is_active {
                                            Err(wallet_not_found(w))
                                        } else {
                                            Ok(
                                                seq![
                                                    set_position(h@, nq, hd.avg_buy_price),
                                                    add_balance(w, proceeds),
                                                ],
                                            )
                                        },
                                    ),
                                },
                            }
                        },
                    },
                },
            },
        },
    }
}

/// What executing `input` does: the validation error, or the changes of
/// `process_spec`. `from` is what the store holds of the wallet, if it exists.
pub open spec fn execute_spec(
    input: NewTransaction,
    from: Option<WalletState>,
    to: Option<WalletState>,
    holding: Option<Holding>,
) -> Option<Result<Seq<EffectView>, AppErrorView>> {
    match validation_error(input, from is Some) {
        Some(e) => Some(Err(e)),
        None => process_spec(input, from->0, to, holding),
    }
}

/// The position after undoing a purchase of `qty` units that cost `cost`,
/// from a position of `cur_qty` units at average `avg`: the quantity is
/// `cur_qty - qty`, never below zero; the average is what the units left cost
/// before the purchase, `(avg * cur_qty - cost) / quantity`, or stays `avg`
/// where no unit is left. `None` where a step overflows.
pub open spec fn unbuy_position_spec(cur_qty: Dec, avg: Dec, qty: Dec, cost: Dec) -> Option<
    (Dec, Dec),
> {
    match sub_spec(cur_qty, qty) {
        None => None,
        Some(d) => {
            let nq = max_spec(d, Dec::spec_zero());
            if nq.value() > 0 {
                match mul_spec(avg, cur_qty) {
                    None => None,
                    Some(held_cost) => match sub_spec(held_cost, cost) {
                        None => None,
                        Some(rest) => match div_spec(rest, nq) {
                            None => None,
                            Some(old_avg) => Some((nq, old_avg)),
                        },
                    },
                }
            } else {
                Some((nq, avg))
            }
        },
    }
}

/// What reversing the recorded `txn` does: the changes that restore the
/// balances and positions, or the error it fails with; `None` where an
/// arithmetic step overflows.
pub open spec fn reverse_spec(
    txn: Transaction,
    from: Option<WalletState>,
    to: Option<WalletState>,
    holding: Option<Holding>,
) -> Option<Result<Seq<EffectView>, AppErrorView>> {
    let w = txn.wallet_id@;
    match txn.txn_type {
        TransactionType::Income => Some(
            if is_active(from) {
                Ok(seq![add_balance(w, neg_spec(txn.amount))])
            } else {
                Err(wallet_not_found(w))
            },
        ),
        TransactionType::Expense => Some(
            if is_active(from) {
                Ok(seq![add_balance(w, txn.amount)])
            } else {
                Err(wallet_not_found(w))
            },
        ),
        TransactionType::Transfer => match txn.to_wallet_id {
            None => Some(Err(invalid("Corrupt transfer: missing to_wallet_id"@))),
            Some(to_id) => match txn.to_amount {
                None => Some(Err(invalid("Corrupt transfer: missing to_amount"@))),
                Some(to_amount) => Some(
                    if !is_active(from) {
                        Err(wallet_not_found(w))
                    } else if !is_active(to) {
                        Err(wallet_not_found(to_id@))
                    } else {
                        Ok(
                            seq![
                                add_balance(w, txn.amount),
                                add_balance(to_id@, neg_spec(to_amount)),
                            ],
                        )
                    },
                ),
            },
        },
        TransactionType::InvestBuy => match txn.holding_id {
            None => Some(Err(invalid("Corrupt invest_buy: missing holding_id"@))),
            Some(h) => match txn.asset_quantity {
                None => Some(Err(invalid("Corrupt invest_buy: missing asset_quantity"@))),
                Some(q) => if !is_active(from) {
                    Some(Err(wallet_not_found(w)))
                } else {
                    match holding {
                        None => Some(Err(holding_not_found(h@))),
                        Some(hd) => match unbuy_position_spec(
                            hd.quantity,
                            hd.avg_buy_price,
                            q,
                            txn.amount,
                        ) {
                            None => None,
                            Some((nq, na)) => Some(
                                Ok(seq![add_balance(w, txn.amount), set_position(h@, nq, na)]),
                            ),
                        },
                    }
                },
            },
        },
        TransactionType::InvestSell => match txn.holding_id {
            None => Some(Err(invalid("Corrupt invest_sell: missing holding_id"@))),
            Some(h) => match txn.asset_quantity {
                None => Some(Err(invalid("Corrupt invest_sell: missing asset_quantity"@))),
                Some(q) => match txn.asset_price {
                    None => Some(Err(invalid("Corrupt invest_sell: missing asset_price"@))),
                    Some(p) => if !is_active(from) {
                        Some(Err(wallet_not_found(w)))
                    } else {
                        match holding {
                            None => Some(Err(holding_not_found(h@))),
                            Some(hd) => match add_spec(hd.quantity, q) {
                                None => None,
                                Some(nq) => Some(
                                    Ok(
                                        seq![
                                            add_balance(w, neg_spec(txn.amount)),
                                            set_position(h@, nq, hd.avg_buy_price),
                                        ],
                                    ),
                                ),
                            },
                        }
                    },
                },
            },
        },
    }
}

pub open spec fn wallet_wf(w: Option<WalletState>) -> bool {
    w matches Some(s) ==> s.balance.wf()
}

pub open spec fn holding_wf(h: Option<Holding>) -> bool {
    h matches Some(x) ==> x.wf()
}

/// Executes and reverses transactions.
pub struct TransactionService;

fn add_effect(wallet_id: &String, delta: Dec) -> (r: LedgerEffect)
    ensures
        r@ == add_balance(wallet_id@, delta),
{
    LedgerEffect::AddBalance { wallet_id: wallet_id.clone(), delta }
}

fn set_effect(holding_id: &String, quantity: Dec, avg_buy_price: Dec) -> (r: LedgerEffect)
    ensures
        r@ == set_position(holding_id@, quantity, avg_buy_price),
{
    LedgerEffect::SetPosition { holding_id: holding_id.clone(), quantity, avg_buy_price }
}

fn one(e: LedgerEffect) -> (r: Result<Vec<LedgerEffect>, AppError>)
    ensures
        plan_view(r) == Ok::<Seq<EffectView>, AppErrorView>(seq![e@]),
{
    let mut v: Vec<LedgerEffect> = Vec::new();
    v.push(e);
    assert(v@.map_values(|x: LedgerEffect| x@) =~= seq![e@]);
    Ok(v)
}

fn two(a: LedgerEffect, b: LedgerEffect) -> (r: Result<Vec<LedgerEffect>, AppError>)
    ensures
        plan_view(r) == Ok::<Seq<EffectView>, AppErrorView>(seq![a@, b@]),
{
    let mut v: Vec<LedgerEffect> = Vec::new();
    v.push(a);
    v.push(b);
    assert(v@.map_values(|x: LedgerEffect| x@) =~= seq![a@, b@]);
    Ok(v)
}

fn fail(e: AppError) -> (r: Result<Vec<LedgerEffect>, AppError>)
    ensures
        plan_view(r) == Err::<Seq<EffectView>, AppErrorView>(e@),
{
    Err(e)
}

fn wallet_error(wallet_id: &str) -> (r: AppError)
    ensures
        r@ == wallet_not_found(wallet_id@),
{
    AppError::NotFound(quoted_id("wallet", wallet_id))
}

fn holding_error(holding_id: &str) -> (r: AppError)
    ensures
        r@ == holding_not_found(holding_id@),
{
    AppError::NotFound(quoted_id("holding", holding_id))
}

fn invalid_error(msg: &str) -> (r: AppError)
    ensures
        r@ == invalid(msg@),
{
    AppError::Validation(msg.to_owned())
}

fn active(w: Option<WalletState>) -> (r: bool)
    ensures
        r == is_active(w),
{
    match w {
        Some(s) => s.is_active,
        None => false,
    }
}

fn missing_or_nonpositive(a: Option<Dec>) -> (r: bool)
    requires
        a matches Some(x) ==> x.wf(),
    ensures
        r == missing_or_not_positive(a),
{
    match a {
        Some(x) => x.le(Dec::zero()),
        None => true,
    }
}

fn validate(input: &NewTransaction, wallet_found: bool) -> (r: Result<(), AppError>)
    requires
        input.wf(),
    ensures
        match validation_error(*input, wallet_found) {
            Some(e) => r matches Err(x) && x@ == e,
            None => r is Ok,
        },
{
    if input.amount.le(Dec::zero()) {
        return Err(invalid_error("Amount must be greater than zero"));
    }
    if !wallet_found {
        return Err(wallet_error(&input.wallet_id));
    }
    match input.txn_type {
        TransactionType::Income => {
            if input.income_type.is_none() {
                return Err(invalid_error("income requires income_type"));
            }
        },
        TransactionType::Expense => {
            if input.category_id.is_none() {
                return Err(invalid_error("expense requires category_id"));
            }
        },
        TransactionType::Transfer => {
            match &input.to_wallet_id {
                None => {
                    return Err(invalid_error("transfer requires to_wallet_id"));
                },
                Some(to) => {
                    if *to == input.wallet_id {
                        return Err(invalid_error("Cannot transfer to the same wallet"));
                    }
                },
            }
            match input.to_amount {
                None => {
                    return Err(invalid_error("transfer requires to_amount"));
                },
                Some(ta) => {
                    if input.to_currency == Some(input.currency) && !ta.same_value(input.amount) {
                        return Err(
                            invalid_error("Same-currency transfer requires to_amount equal to amount"),
                        );
                    }
                },
            }
        },
        _ => {
            if input.holding_id.is_none() {
                return Err(invalid_error("invest transaction requires holding_id"));
            }
            if missing_or_nonpositive(input.asset_quantity) {
                return Err(invalid_error("asset_quantity must be > 0"));
            }
            if missing_or_nonpositive(input.asset_price) {
                return Err(invalid_error("asset_price must be > 0"));
            }
        },
    }
    Ok(())
}

fn process(
    input: &NewTransaction,
    from: WalletState,
    to: Option<WalletState>,
    holding: &Option<Holding>,
) -> (r: Option<Result<Vec<LedgerEffect>, AppError>>)
    requires
        input.wf(),
        from.balance.wf(),
        wallet_wf(to),
        holding_wf(*holding),
    ensures
        match process_spec(*input, from, to, *holding) {
            Some(p) => r matches Some(x) && plan_view(x) == p,
            None => r is None,
        },
{
    let w = &input.wallet_id;
    match input.txn_type {
        TransactionType::Income => {
            if from.is_active {
                Some(one(add_effect(w, input.amount)))
            } else {
                Some(fail(wallet_error(w)))
            }
        },
        TransactionType::Expense => {
            if from.balance.lt(input.amount) {
                Some(fail(AppError::InsufficientBalance(w.clone())))
            } else if !from.is_active {
                Some(fail(wallet_error(w)))
            } else {
                Some(one(add_effect(w, input.amount.neg())))
            }
        },
        TransactionType::Transfer => {
            let to_id = match &input.to_wallet_id {
                None => return Some(fail(invalid_error("Transfer requires to_wallet_id"))),
                Some(t) => t,
            };
            let to_amount = match input.to_amount {
                None => return Some(fail(invalid_error("Transfer requires to_amount"))),
                Some(a) => a,
            };
            if from.balance.lt(input.amount) {
                Some(fail(AppError::InsufficientBalance(w.clone())))
            } else if !from.is_active {
                Some(fail(wallet_error(w)))
            } else if !active(to) {
                Some(fail(wallet_error(to_id)))
            } else {
                Some(two(add_effect(w, input.amount.neg()), add_effect(to_id, to_amount)))
            }
        },
        TransactionType::InvestBuy => {
            let h = match &input.holding_id {
                None => return Some(fail(invalid_error("invest_buy requires holding_id"))),
                Some(h) => h,
            };
            let q = match input.asset_quantity {
                None => return Some(fail(invalid_error("invest_buy requires asset_quantity"))),
                Some(q) => q,
            };
            let p = match input.asset_price {
                None => return Some(fail(invalid_error("invest_buy requires asset_price"))),
                Some(p) => p,
            };
            let total = match q.checked_mul(p) {
                None => return None,
                Some(t) => t,
            };
            if from.balance.lt(total) {
                return Some(fail(AppError::InsufficientBalance(w.clone())));
            }
            if !from.is_active {
                return Some(fail(wallet_error(w)));
            }
            match holding {
                None => Some(fail(holding_error(h))),
                Some(hd) => match HoldingService::checked_apply_buy(hd, q, p) {
                    None => None,
                    Some((nq, na)) => Some(two(add_effect(w, total.neg()), set_effect(h, nq, na))),
                },
            }
        },
        TransactionType::InvestSell => {
            let h = match &input.holding_id {
                None => return Some(fail(invalid_error("invest_sell requires holding_id"))),
                Some(h) => h,
            };
            let q = match input.asset_quantity {
                None => return Some(fail(invalid_error("invest_sell requires asset_quantity"))),
                Some(q) => q,
            };
            let p = match input.asset_price {
                None => return Some(fail(invalid_error("invest_sell requires asset_price"))),
                Some(p) => p,
            };
            let hd = match holding {
                None => return Some(fail(holding_error(h))),
                Some(hd) => hd,
            };
            if hd.quantity.lt(q) {
                return Some(fail(AppError::InsufficientQuantity(h.clone())));
            }
            let nq = match hd.quantity.checked_sub(q) {
                None => return None,
                Some(v) => v,
            };
            let proceeds = match q.checked_mul(p) {
                None => return None,
                Some(v) => v,
            };
            if !from.is_active {
                Some(fail(wallet_error(w)))
            } else {
                Some(two(set_effect(h, nq, hd.avg_buy_price), add_effect(w, proceeds)))
            }
        },
    }
}

fn plan_execute(
    input: &NewTransaction,
    from: Option<WalletState>,
    to: Option<WalletState>,
    holding: &Option<Holding>,
) -> (r: Option<Result<Vec<LedgerEffect>, AppError>>)
    requires
        input.wf(),
        wallet_wf(from),
        wallet_wf(to),
        holding_wf(*holding),
    ensures
        match execute_spec(*input, from, to, *holding) {
            Some(p) => r matches Some(x) && plan_view(x) == p,
            None => r is None,
        },
{
    match validate(input, from.is_some()) {
        Err(e) => Some(fail(e)),
        Ok(()) => process(input, from.unwrap(), to, holding),
    }
}

fn unbuy_position(cur_qty: Dec, avg: Dec, qty: Dec, cost: Dec) -> (r: Option<(Dec, Dec)>)
    requires
        cur_qty.wf(),
        avg.wf(),
        qty.wf(),
        cost.wf(),
    ensures
        r == unbuy_position_spec(cur_qty, avg, qty, cost),
{
    let d = match cur_qty.checked_sub(qty) {
        Some(v) => v,
        None => return None,
    };
    let new_qty = d.max(Dec::zero());
    if Dec::zero().lt(new_qty) {
        let held_cost = match avg.checked_mul(cur_qty) {
            Some(v) => v,
            None => return None,
        };
        let rest = match held_cost.checked_sub(cost) {
            Some(v) => v,
            None => return None,
        };
        match rest.checked_div(new_qty) {
            Some(old_avg) => Some((new_qty, old_avg)),
            None => None,
        }
    } else {
        Some((new_qty, avg))
    }
}

fn plan_reverse(
    txn: &Transaction,
    from: Option<WalletState>,
    to: Option<WalletState>,
    holding: &Option<Holding>,
) -> (r: Option<Result<Vec<LedgerEffect>, AppError>>)
    requires
        txn.wf(),
        holding_wf(*holding),
    ensures
        match reverse_spec(*txn, from, to, *holding) {
            Some(p) => r matches Some(x) && plan_view(x) == p,
            None => r is None,
        },
{
    let w = &txn.wallet_id;
    match txn.txn_type {
        TransactionType::Income => {
            if active(from) {
                Some(one(add_effect(w, txn.amount.neg())))
            } else {
                Some(fail(wallet_error(w)))
            }
        },
        TransactionType::Expense => {
            if active(from) {
                Some(one(add_effect(w, txn.amount)))
            } else {
                Some(fail(wallet_error(w)))
            }
        },
        TransactionType::Transfer => {
            let to_id = match &txn.to_wallet_id {
                None => return Some(fail(invalid_error("Corrupt transfer: missing to_wallet_id"))),
                Some(t) => t,
            };
            let to_amount = match txn.to_amount {
                None => return Some(fail(invalid_error("Corrupt transfer: missing to_amount"))),
                Some(a) => a,
            };
            if !active(from) {
                Some(fail(wallet_error(w)))
            } else if !active(to) {
                Some(fail(wallet_error(to_id)))
            } else {
                Some(two(add_effect(w, txn.amount), add_effect(to_id, to_amount.neg())))
            }
        },
        TransactionType::InvestBuy => {
            let h = match &txn.holding_id {
                None => return Some(fail(invalid_error("Corrupt invest_buy: missing holding_id"))),
                Some(h) => h,
            };
            let q = match txn.asset_quantity {
                None => return Some(
                    fail(invalid_error("Corrupt invest_buy: missing asset_quantity")),
                ),
                Some(q) => q,
            };
            if !active(from) {
                return Some(fail(wallet_error(w)));
            }
            match holding {
                None => Some(fail(holding_error(h))),
                Some(hd) => match unbuy_position(hd.quantity, hd.avg_buy_price, q, txn.amount) {
                    None => None,
                    Some((nq, na)) => Some(two(add_effect(w, txn.amount), set_effect(h, nq, na))),
                },
            }
        },
        TransactionType::InvestSell => {
            let h = match &txn.holding_id {
                None => return Some(fail(invalid_error("Corrupt invest_sell: missing holding_id"))),
                Some(h) => h,
            };
            let q = match txn.asset_quantity {
                None => return Some(
                    fail(invalid_error("Corrupt invest_sell: missing asset_quantity")),
                ),
                Some(q) => q,
            };
            if txn.asset_price.is_none() {
                return Some(fail(invalid_error("Corrupt invest_sell: missing asset_price")));
            }
            if !active(from) {
                return Some(fail(wallet_error(w)));
            }
            match holding {
                None => Some(fail(holding_error(h))),
                Some(hd) => match hd.quantity.checked_add(q) {
                    None => None,
                    Some(nq) => Some(
                        two(add_effect(w, txn.amount.neg()), set_effect(h, nq, hd.avg_buy_price)),
                    ),
                },
            }
        },
    }
}

impl TransactionService {
    /// Plans a new transaction: the error it is refused with, or the changes
    /// that carry it out, in order (see `execute_spec`). `from` is what the
    /// store holds of `input.wallet_id` (if it exists), `to` of the receiving
    /// wallet of a transfer, `holding` of the traded holding.
    pub fn execute(
        input: &NewTransaction,
        from: Option<WalletState>,
        to: Option<WalletState>,
        holding: &Option<Holding>,
    ) -> (r: Result<Vec<LedgerEffect>, AppError>)
        requires
            input.wf(),
            wallet_wf(from),
            wallet_wf(to),
            holding_wf(*holding),
            execute_spec(*input, from, to, *holding) is Some,
        ensures
            plan_view(r) == execute_spec(*input, from, to, *holding)->0,
    {
        plan_execute(input, from, to, holding).unwrap()
    }

    /// `execute`, or `None` where its arithmetic overflows.
    pub fn checked_execute(
        input: &NewTransaction,
        from: Option<WalletState>,
        to: Option<WalletState>,
        holding: &Option<Holding>,
    ) -> (r: Option<Result<Vec<LedgerEffect>, AppError>>)
        requires
            input.wf(),
            wallet_wf(from),
            wallet_wf(to),
            holding_wf(*holding),
        ensures
            match execute_spec(*input, from, to, *holding) {
                Some(p) => r matches Some(x) && plan_view(x) == p,
                None => r is None,
            },
    {
        plan_execute(input, from, to, holding)
    }

    /// Plans the reversal of a recorded transaction: the changes that restore
    /// its wallets and holding, in order, or the error (see `reverse_spec`).
    pub fn delete(
        txn: &Transaction,
        from: Option<WalletState>,
        to: Option<WalletState>,
        holding: &Option<Holding>,
    ) -> (r: Result<Vec<LedgerEffect>, AppError>)
        requires
            txn.wf(),
            holding_wf(*holding),
            reverse_spec(*txn, from, to, *holding) is Some,
        ensures
            plan_view(r) == reverse_spec(*txn, from, to, *holding)->0,
    {
        plan_reverse(txn, from, to, holding).unwrap()
    }

    /// `delete`, or `None` where its arithmetic overflows.
    pub fn checked_delete(
        txn: &Transaction,
        from: Option<WalletState>,
        to: Option<WalletState>,
        holding: &Option<Holding>,
    ) -> (r: Option<Result<Vec<LedgerEffect>, AppError>>)
        requires
            txn.wf(),
            holding_wf(*holding),
        ensures
            match reverse_spec(*txn, from, to, *holding) {
                Some(p) => r matches Some(x) && plan_view(x) == p,
                None => r is None,
            },
    {
        plan_reverse(txn, from, to, holding)
    }
}

} // verus!
