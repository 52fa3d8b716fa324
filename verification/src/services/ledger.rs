//! What the store holds, as a mathematical ledger, and what planned changes
//! do to it: deleting a transaction undoes executing it.
use vstd::prelude::*;

use crate::decimal::{
    add_spec, div_spec, exact_product, exact_quotient, exactly, lemma_neg_value,
    lemma_pow10_positive, max_spec, mul_spec, neg_spec, pow10, sub_spec, Dec,
};
use crate::models::holding::Holding;
use crate::models::transaction::{NewTransaction, Transaction, TransactionType};
use crate::services::holding::buy_position_spec;
use crate::services::transaction::{
    execute_spec, holding_wf, reverse_spec, wallet_wf, EffectView, WalletState,
};
use crate::text::opt_text;

verus! {

/// Wallet balances (exact values, in units of 10^-28) and holding positions
/// (quantity, average purchase price), by id.
pub struct Ledger {
    pub balances: Map<Seq<char>, int>,
    pub positions: Map<Seq<char>, (Dec, Dec)>,
}

/// The ledger after one change.
pub open spec fn apply_effect(l: Ledger, e: EffectView) -> Ledger {
    match e {
        EffectView::AddBalance { wallet, delta } => Ledger {
            balances: l.balances.insert(wallet, l.balances[wallet] + delta.value()),
            positions: l.positions,
        },
        EffectView::SetPosition { holding, quantity, avg_buy_price } => Ledger {
            balances: l.balances,
            positions: l.positions.insert(holding, (quantity, avg_buy_price)),
        },
    }
}

/// The ledger after a sequence of changes, applied in order.
pub open spec fn apply_effects(l: Ledger, es: Seq<EffectView>) -> Ledger
    decreases es.len(),
{
    if es.len() == 0 {
        l
    } else {
        apply_effect(apply_effects(l, es.drop_last()), es.last())
    }
}

/// `txn` is the record of executing `input`.
pub open spec fn records(txn: Transaction, input: NewTransaction) -> bool {
    &&& txn.txn_type == input.txn_type
    &&& txn.wallet_id@ == input.wallet_id@
    &&& txn.amount == input.amount
    &&& opt_text(txn.to_wallet_id) == opt_text(input.to_wallet_id)
    &&& txn.to_amount == input.to_amount
    &&& opt_text(txn.holding_id) == opt_text(input.holding_id)
    &&& txn.asset_quantity == input.asset_quantity
    &&& txn.asset_price == input.asset_price
}

/// The ledger knows the wallets and the holding that `input` touches, and
/// `holding` is what it holds of that holding.
pub open spec fn ledger_covers(l: Ledger, input: NewTransaction, holding: Option<Holding>) -> bool {
    &&& l.balances.dom().contains(input.wallet_id@)
    &&& input.to_wallet_id matches Some(t) ==> l.balances.dom().contains(t@)
    &&& input.holding_id matches Some(h) ==> {
        &&& l.positions.dom().contains(h@)
        &&& holding matches Some(hd) && l.positions[h@] == (hd.quantity, hd.avg_buy_price)
    }
}

/// `holding` with the position the ledger now holds for `id`.
pub open spec fn refreshed(holding: Option<Holding>, l: Ledger, id: Option<String>) -> Option<Holding> {
    match (holding, id) {
        (Some(hd), Some(h)) => Some(
            Holding { quantity: l.positions[h@].0, avg_buy_price: l.positions[h@].1, ..hd },
        ),
        _ => holding,
    }
}

/// The steps that recompute the average price round nothing when a purchase
/// of `q` units at `p`, recorded as costing `cost`, into a position of `qty`
/// units at average `avg` is made and then undone.
pub open spec fn average_steps_exact(qty: Dec, avg: Dec, q: Dec, p: Dec, cost: Dec) -> bool {
    let old_cost = mul_spec(qty, avg)->0;
    let bought = mul_spec(q, p)->0;
    let total = add_spec(old_cost, bought)->0;
    let nq = add_spec(qty, q)->0;
    let bp = buy_position_spec(qty, avg, q, p)->0;
    let na = bp.1;
    let held = mul_spec(na, nq)->0;
    let rest = sub_spec(held, cost)->0;
    let back = sub_spec(nq, q)->0;
    &&& exact_product(mul_spec(qty, avg), qty, avg)
    &&& exactly(add_spec(old_cost, bought), old_cost.value() + bought.value())
    &&& exact_quotient(div_spec(total, nq), total, nq)
    &&& exact_product(mul_spec(na, nq), na, nq)
    &&& exactly(sub_spec(held, cost), held.value() - cost.value())
    &&& exact_quotient(div_spec(rest, back), rest, back)
}

/// The cases where undoing is exact: the decimal steps of the trade and of
/// its reversal round nothing, a bought position was not negative, and the
/// amount recorded for a trade is quantity × price.
pub open spec fn undo_is_exact(input: NewTransaction, holding: Option<Holding>) -> bool {
    match (input.txn_type, input.asset_quantity, input.asset_price, holding) {
        (TransactionType::InvestBuy, Some(q), Some(p), Some(hd)) => {
            &&& exactly(mul_spec(q, p), input.amount.value())
            &&& exactly(add_spec(hd.quantity, q), hd.quantity.value() + q.value())
            &&& exactly(sub_spec(add_spec(hd.quantity, q)->0, q), hd.quantity.value())
            &&& hd.quantity.value() >= 0
            &&& hd.quantity.value() > 0 ==> average_steps_exact(
                hd.quantity,
                hd.avg_buy_price,
                q,
                p,
                input.amount,
            )
        },
        (TransactionType::InvestSell, Some(q), Some(p), Some(hd)) => {
            &&& exactly(mul_spec(q, p), input.amount.value())
            &&& exactly(sub_spec(hd.quantity, q), hd.quantity.value() - q.value())
            &&& exactly(add_spec(sub_spec(hd.quantity, q)->0, q), hd.quantity.value())
        },
        _ => true,
    }
}

/// The positions hold the same quantities, by value, and the same average
/// price wherever they hold units.
pub open spec fn same_positions(a: Map<Seq<char>, (Dec, Dec)>, b: Map<Seq<char>, (Dec, Dec)>) -> bool {
    &&& a.dom() == b.dom()
    &&& forall|k: Seq<char>| #[trigger] a.dom().contains(k) ==> {
        &&& a[k].0.value() == b[k].0.value()
        &&& b[k].0.value() > 0 ==> a[k].1.value() == b[k].1.value()
    }
}

proof fn lemma_apply_two(l: Ledger, a: EffectView, b: EffectView)
    ensures
        apply_effects(l, seq![a, b]) == apply_effect(apply_effect(l, a), b),
{
    assert(seq![a, b].drop_last() =~= seq![a]);
    assert(seq![a].drop_last() =~= Seq::<EffectView>::empty());
    assert(apply_effects(l, Seq::<EffectView>::empty()) == l);
    assert(apply_effects(l, seq![a]) == apply_effect(l, a));
}

proof fn lemma_apply_one(l: Ledger, a: EffectView)
    ensures
        apply_effects(l, seq![a]) == apply_effect(l, a),
{
    assert(seq![a].drop_last() =~= Seq::<EffectView>::empty());
    assert(apply_effects(l, Seq::<EffectView>::empty()) == l);
}

/// Deleting a transaction undoes executing it: for every transaction that
/// executes, applying its changes and then the changes of deleting its record
/// gives back every wallet balance and every holding quantity as they were,
/// and the average price of every position that held units.
#[verifier::spinoff_prover]
#[verifier::rlimit(80)]
pub proof fn lemma_delete_undoes_execute(
    input: NewTransaction,
    from: Option<WalletState>,
    to: Option<WalletState>,
    holding: Option<Holding>,
    txn: Transaction,
    l: Ledger,
    effects: Seq<EffectView>,
)
    requires
        input.wf(),
        txn.wf(),
        wallet_wf(from),
        wallet_wf(to),
        holding_wf(holding),
        ledger_covers(l, input, holding),
        execute_spec(input, from, to, holding) == Some(
            Ok::<Seq<EffectView>, crate::error::AppErrorView>(effects),
        ),
        records(txn, input),
        undo_is_exact(input, holding),
    ensures
        ({
            let l1 = apply_effects(l, effects);
            match reverse_spec(txn, from, to, refreshed(holding, l1, input.holding_id)) {
                Some(Ok(undo)) => {
                    let l2 = apply_effects(l1, undo);
                    l2.balances == l.balances && same_positions(l2.positions, l.positions)
                },
                _ => false,
            }
        }),
{
    let w = input.wallet_id@;
    let l1 = apply_effects(l, effects);
    let h1 = refreshed(holding, l1, input.holding_id);
    match input.txn_type {
        TransactionType::Income => {
            lemma_neg_value(input.amount);
            lemma_apply_one(l, effects[0]);
            assert(effects =~= seq![effects[0]]);
            let undo = reverse_spec(txn, from, to, h1)->0->Ok_0;
            lemma_apply_one(l1, undo[0]);
            assert(undo =~= seq![undo[0]]);
            assert(apply_effects(l1, undo).balances =~= l.balances);
            assert(apply_effects(l1, undo).positions =~= l.positions);
        },
        TransactionType::Expense => {
            lemma_neg_value(input.amount);
            lemma_apply_one(l, effects[0]);
            assert(effects =~= seq![effects[0]]);
            let undo = reverse_spec(txn, from, to, h1)->0->Ok_0;
            lemma_apply_one(l1, undo[0]);
            assert(undo =~= seq![undo[0]]);
            assert(apply_effects(l1, undo).balances =~= l.balances);
            assert(apply_effects(l1, undo).positions =~= l.positions);
        },
        TransactionType::Transfer => {
            lemma_neg_value(input.amount);
            lemma_neg_value(input.to_amount->0);
            lemma_apply_two(l, effects[0], effects[1]);
            assert(effects =~= seq![effects[0], effects[1]]);
            let undo = reverse_spec(txn, from, to, h1)->0->Ok_0;
            lemma_apply_two(l1, undo[0], undo[1]);
            assert(undo =~= seq![undo[0], undo[1]]);
            assert(apply_effects(l1, undo).balances =~= l.balances);
            assert(apply_effects(l1, undo).positions =~= l.positions);
        },
        TransactionType::InvestBuy => {
            let h = input.holding_id->0@;
            let q = input.asset_quantity->0;
            let p = input.asset_price->0;
            let hd = holding->0;
            let nq = add_spec(hd.quantity, q)->0;
            let bp = buy_position_spec(hd.quantity, hd.avg_buy_price, q, p)->0;
            let na = bp.1;
            let total = mul_spec(q, p)->0;
            lemma_neg_value(total);
            lemma_apply_two(l, effects[0], effects[1]);
            assert(effects =~= seq![effects[0], effects[1]]);
            assert(l1.positions[h] == (nq, na));
            let d = sub_spec(nq, q)->0;
            let back = max_spec(d, Dec::spec_zero());
            let z = Dec::spec_zero();
            let zp = pow10((28 - z.scale) as nat);
            assert(z.mantissa * zp == 0) by (nonlinear_arith)
                requires
                    z.mantissa == 0,
            ;
            assert(back.value() == hd.quantity.value());
            if hd.quantity.value() > 0 {
                assert(back == d);
                let big = pow10(28);
                lemma_pow10_positive(28);
                let old_cost = mul_spec(hd.quantity, hd.avg_buy_price)->0;
                let t = add_spec(old_cost, total)->0;
                let held = mul_spec(na, nq)->0;
                let rest = sub_spec(held, txn.amount)->0;
                let ar = div_spec(rest, back)->0;
                assert(held.value() * big == t.value() * big);
                assert(held.value() == t.value()) by (nonlinear_arith)
                    requires
                        held.value() * big == t.value() * big,
                        big > 0,
                ;
                assert(rest.value() == old_cost.value());
                assert(ar.value() * hd.quantity.value() == hd.quantity.value()
                    * hd.avg_buy_price.value());
                assert(ar.value() == hd.avg_buy_price.value()) by (nonlinear_arith)
                    requires
                        ar.value() * hd.quantity.value() == hd.quantity.value()
                            * hd.avg_buy_price.value(),
                        hd.quantity.value() > 0,
                ;
            }
            let undo = reverse_spec(txn, from, to, h1)->0->Ok_0;
            lemma_apply_two(l1, undo[0], undo[1]);
            assert(undo =~= seq![undo[0], undo[1]]);
            let l2 = apply_effects(l1, undo);
            assert(l2.balances =~= l.balances);
            assert(l2.positions.dom() =~= l.positions.dom());
            assert(l2.positions[h].0 == back);
        },
        TransactionType::InvestSell => {
            let h = input.holding_id->0@;
            let q = input.asset_quantity->0;
            let hd = holding->0;
            let nq = sub_spec(hd.quantity, q)->0;
            lemma_neg_value(txn.amount);
            lemma_apply_two(l, effects[0], effects[1]);
            assert(effects =~= seq![effects[0], effects[1]]);
            assert(l1.positions[h] == (nq, hd.avg_buy_price));
            let undo = reverse_spec(txn, from, to, h1)->0->Ok_0;
            lemma_apply_two(l1, undo[0], undo[1]);
            assert(undo =~= seq![undo[0], undo[1]]);
            let l2 = apply_effects(l1, undo);
            assert(l2.balances =~= l.balances);
            assert(l2.positions.dom() =~= l.positions.dom());
        },
    }
}

/// Executing a transaction never overdraws the wallet it is paid from or
/// into: a balance that was not negative stays so, because spending beyond
/// the balance is refused. (For a sale, when the proceeds quantity × price
/// are computed without rounding.)
pub proof fn lemma_execute_never_overdraws(
    input: NewTransaction,
    from: Option<WalletState>,
    to: Option<WalletState>,
    holding: Option<Holding>,
    l: Ledger,
    effects: Seq<EffectView>,
)
    requires
        input.wf(),
        wallet_wf(from),
        wallet_wf(to),
        holding_wf(holding),
        ledger_covers(l, input, holding),
        from matches Some(f) && l.balances[input.wallet_id@] == f.balance.value(),
        l.balances[input.wallet_id@] >= 0,
        execute_spec(input, from, to, holding) == Some(
            Ok::<Seq<EffectView>, crate::error::AppErrorView>(effects),
        ),
        input.txn_type == TransactionType::InvestSell ==> exactly(
            mul_spec(input.asset_quantity->0, input.asset_price->0),
            input.asset_quantity->0.value() * input.asset_price->0.value(),
        ),
    ensures
        apply_effects(l, effects).balances[input.wallet_id@] >= 0,
{
    let w = input.wallet_id@;
    match input.txn_type {
        TransactionType::Income => {
            lemma_apply_one(l, effects[0]);
            assert(effects =~= seq![effects[0]]);
        },
        TransactionType::Expense => {
            lemma_neg_value(input.amount);
            lemma_apply_one(l, effects[0]);
            assert(effects =~= seq![effects[0]]);
        },
        TransactionType::Transfer => {
            lemma_neg_value(input.amount);
            lemma_apply_two(l, effects[0], effects[1]);
            assert(effects =~= seq![effects[0], effects[1]]);
        },
        TransactionType::InvestBuy => {
            let total = mul_spec(input.asset_quantity->0, input.asset_price->0)->0;
            lemma_neg_value(total);
            lemma_apply_two(l, effects[0], effects[1]);
            assert(effects =~= seq![effects[0], effects[1]]);
        },
        TransactionType::InvestSell => {
            let q = input.asset_quantity->0;
            let p = input.asset_price->0;
            assert(q.value() * p.value() > 0) by (nonlinear_arith)
                requires
                    q.value() > 0,
                    p.value() > 0,
            ;
            lemma_apply_two(l, effects[0], effects[1]);
            assert(effects =~= seq![effects[0], effects[1]]);
        },
    }
}

/// What executing a transaction does to the ledger: an income adds its
/// amount to the wallet, an expense takes it away, a transfer takes `amount`
/// from the paying wallet and adds `to_amount` to the receiving one, a
/// purchase pays quantity × price and adds the quantity to the position, a
/// sale takes the quantity from the position and pays quantity × price into
/// the wallet. No other wallet or holding changes.
pub proof fn lemma_execute_moves_money(
    input: NewTransaction,
    from: Option<WalletState>,
    to: Option<WalletState>,
    holding: Option<Holding>,
    l: Ledger,
    effects: Seq<EffectView>,
)
    requires
        input.wf(),
        wallet_wf(from),
        wallet_wf(to),
        holding_wf(holding),
        ledger_covers(l, input, holding),
        execute_spec(input, from, to, holding) == Some(
            Ok::<Seq<EffectView>, crate::error::AppErrorView>(effects),
        ),
    ensures
        ({
            let l1 = apply_effects(l, effects);
            let w = input.wallet_id@;
            &&& l1.balances.dom() == l.balances.dom()
            &&& l1.positions.dom() == l.positions.dom()
            &&& match input.txn_type {
                TransactionType::Income => {
                    &&& l1.balances == l.balances.insert(w, l.balances[w] + input.amount.value())
                    &&& l1.positions == l.positions
                },
                TransactionType::Expense => {
                    &&& l1.balances == l.balances.insert(w, l.balances[w] - input.amount.value())
                    &&& l1.positions == l.positions
                },
                TransactionType::Transfer => {
                    let t = input.to_wallet_id->0@;
                    &&& t != w
                    &&& l1.balances == l.balances.insert(
                        w,
                        l.balances[w] - input.amount.value(),
                    ).insert(t, l.balances[t] + input.to_amount->0.value())
                    &&& l1.positions == l.positions
                },
                TransactionType::InvestBuy => {
                    let h = input.holding_id->0@;
                    let q = input.asset_quantity->0;
                    let total = mul_spec(q, input.asset_price->0)->0;
                    &&& l1.balances == l.balances.insert(w, l.balances[w] - total.value())
                    &&& l1.positions.remove(h) == l.positions.remove(h)
                    &&& l1.positions[h].0 == add_spec(holding->0.quantity, q)->0
                },
                TransactionType::InvestSell => {
                    let h = input.holding_id->0@;
                    let q = input.asset_quantity->0;
                    let proceeds = mul_spec(q, input.asset_price->0)->0;
                    &&& l1.balances == l.balances.insert(w, l.balances[w] + proceeds.value())
                    &&& l1.positions == l.positions.insert(
                        h,
                        (sub_spec(holding->0.quantity, q)->0, holding->0.avg_buy_price),
                    )
                },
            }
        }),
{
    let w = input.wallet_id@;
    let l1 = apply_effects(l, effects);
    match input.txn_type {
        TransactionType::Income => {
            lemma_apply_one(l, effects[0]);
            assert(effects =~= seq![effects[0]]);
            assert(l1.balances.dom() =~= l.balances.dom());
        },
        TransactionType::Expense => {
            lemma_neg_value(input.amount);
            lemma_apply_one(l, effects[0]);
            assert(effects =~= seq![effects[0]]);
            assert(l1.balances.dom() =~= l.balances.dom());
        },
        TransactionType::Transfer => {
            lemma_neg_value(input.amount);
            lemma_apply_two(l, effects[0], effects[1]);
            assert(effects =~= seq![effects[0], effects[1]]);
            assert(l1.balances.dom() =~= l.balances.dom());
        },
        TransactionType::InvestBuy => {
            let total = mul_spec(input.asset_quantity->0, input.asset_price->0)->0;
            lemma_neg_value(total);
            lemma_apply_two(l, effects[0], effects[1]);
            assert(effects =~= seq![effects[0], effects[1]]);
            assert(l1.balances.dom() =~= l.balances.dom());
            assert(l1.positions.dom() =~= l.positions.dom());
            assert(l1.positions.remove(input.holding_id->0@) =~= l.positions.remove(
                input.holding_id->0@,
            ));
        },
        TransactionType::InvestSell => {
            lemma_apply_two(l, effects[0], effects[1]);
            assert(effects =~= seq![effects[0], effects[1]]);
            assert(l1.balances.dom() =~= l.balances.dom());
            assert(l1.positions.dom() =~= l.positions.dom());
        },
    }
}

/// A transfer within one currency moves money without creating or destroying
/// any: it executes only when the amount received equals the amount sent, and
/// then the two wallets' balances add up to what they did before.
pub proof fn lemma_transfer_conserves_money(
    input: NewTransaction,
    from: Option<WalletState>,
    to: Option<WalletState>,
    l: Ledger,
    effects: Seq<EffectView>,
)
    requires
        input.wf(),
        wallet_wf(from),
        wallet_wf(to),
        input.txn_type == TransactionType::Transfer,
        ledger_covers(l, input, None),
        execute_spec(input, from, to, None) == Some(
            Ok::<Seq<EffectView>, crate::error::AppErrorView>(effects),
        ),
        input.to_currency == Some(input.currency),
    ensures
        ({
            let l1 = apply_effects(l, effects);
            let w = input.wallet_id@;
            let t = input.to_wallet_id->0@;
            l1.balances[w] + l1.balances[t] == l.balances[w] + l.balances[t]
        }),
{
    lemma_execute_moves_money(input, from, to, None, l, effects);
}

/// A valid transfer executes whenever its amount is at most the paying
/// wallet's balance and both wallets are active, whatever amount the other
/// wallet receives: the paying wallet gives up `amount` and the receiving
/// wallet gains `to_amount`.
pub proof fn lemma_transfer_executes(input: NewTransaction, from: WalletState, to: WalletState)
    requires
        input.wf(),
        input.txn_type == TransactionType::Transfer,
        input.amount.value() > 0,
        input.to_wallet_id matches Some(t) && t@ != input.wallet_id@,
        input.to_amount is Some,
        input.to_currency == Some(input.currency) ==> input.to_amount->0.value()
            == input.amount.value(),
        input.amount.value() <= from.balance.value(),
        from.is_active,
        to.is_active,
    ensures
        execute_spec(input, Some(from), Some(to), None) == Some(
            Ok::<Seq<EffectView>, crate::error::AppErrorView>(
                seq![
                    EffectView::AddBalance {
                        wallet: input.wallet_id@,
                        delta: neg_spec(input.amount),
                    },
                    EffectView::AddBalance {
                        wallet: input.to_wallet_id->0@,
                        delta: input.to_amount->0,
                    },
                ],
            ),
        ),
        neg_spec(input.amount).value() == -input.amount.value(),
{
    lemma_neg_value(input.amount);
}

/// A valid sale of at most the units held, paid into an active wallet,
/// executes whatever that wallet's balance: the position keeps its average
/// price and gives up the units sold, and the wallet gains quantity × price.
pub proof fn lemma_sale_executes(input: NewTransaction, from: WalletState, hd: Holding)
    requires
        input.wf(),
        hd.wf(),
        input.txn_type == TransactionType::InvestSell,
        input.amount.value() > 0,
        input.holding_id is Some,
        input.asset_quantity matches Some(q) && q.value() > 0 && q.value() <= hd.quantity.value(),
        input.asset_price matches Some(p) && p.value() > 0,
        from.is_active,
        sub_spec(hd.quantity, input.asset_quantity->0) is Some,
        mul_spec(input.asset_quantity->0, input.asset_price->0) is Some,
    ensures
        execute_spec(input, Some(from), None, Some(hd)) == Some(
            Ok::<Seq<EffectView>, crate::error::AppErrorView>(
                seq![
                    EffectView::SetPosition {
                        holding: input.holding_id->0@,
                        quantity: sub_spec(hd.quantity, input.asset_quantity->0)->0,
                        avg_buy_price: hd.avg_buy_price,
                    },
                    EffectView::AddBalance {
                        wallet: input.wallet_id@,
                        delta: mul_spec(input.asset_quantity->0, input.asset_price->0)->0,
                    },
                ],
            ),
        ),
{
}

/// Whether a sale executes, and what it does, does not depend on the balance
/// of the wallet the proceeds go to.
pub proof fn lemma_sale_ignores_balance(
    input: NewTransaction,
    from1: WalletState,
    from2: WalletState,
    to: Option<WalletState>,
    holding: Option<Holding>,
)
    requires
        input.txn_type == TransactionType::InvestSell,
        from1.is_active == from2.is_active,
    ensures
        execute_spec(input, Some(from1), to, holding) == execute_spec(input, Some(from2), to, holding),
{
}

} // verus!
