use std::collections::HashMap;

use family_finance::decimal::Dec;
use family_finance::error::AppError;
use family_finance::models::{
    AssetType, Currency, Holding, IncomeType, Member, MemberRole, NewHolding, NewTransaction,
    Transaction, TransactionType, Wallet, WalletType,
};
use family_finance::services::holding::HoldingChoice;
use family_finance::services::{HoldingService, LedgerEffect, MemberService, TransactionService, WalletState};

fn d(mantissa: i128, scale: u32) -> Dec {
    Dec { mantissa, scale }
}

fn norm(x: Dec) -> (i128, u32) {
    let (mut m, mut s) = (x.mantissa, x.scale);
    while s > 0 && m % 10 == 0 {
        m /= 10;
        s -= 1;
    }
    (m, s)
}

fn holding(qty: Dec, avg: Dec) -> Holding {
    Holding {
        id: "h1".into(),
        wallet_id: "w1".into(),
        symbol: "FPT".into(),
        name: None,
        asset_type: AssetType::Stock,
        quantity: qty,
        avg_buy_price: avg,
        last_price: None,
        last_price_at: None,
        created_at: 0,
    }
}

fn wallet(id: &str, wallet_type: WalletType) -> Wallet {
    Wallet {
        id: id.into(),
        name: "Broker".into(),
        wallet_type,
        currency: Currency::VND,
        balance: d(0, 0),
        broker: None,
        icon: None,
        color: None,
        is_active: true,
        sort_order: 0,
        created_at: 0,
    }
}

fn active(balance: i128) -> Option<WalletState> {
    Some(WalletState { balance: d(balance, 0), is_active: true })
}

fn record(input: &NewTransaction) -> Transaction {
    Transaction {
        id: "t1".into(),
        txn_type: input.txn_type,
        wallet_id: input.wallet_id.clone(),
        amount: input.amount,
        currency: input.currency,
        income_type: input.income_type,
        category_id: input.category_id.clone(),
        to_wallet_id: input.to_wallet_id.clone(),
        to_amount: input.to_amount,
        to_currency: input.to_currency,
        holding_id: input.holding_id.clone(),
        asset_quantity: input.asset_quantity,
        asset_price: input.asset_price,
        note: input.note.clone(),
        txn_date: input.txn_date,
        created_at: 0,
    }
}

/// Balances and positions, as the store would hold them.
struct Store {
    balances: HashMap<String, Dec>,
    positions: HashMap<String, (Dec, Dec)>,
}

impl Store {
    fn apply(&mut self, effects: &[LedgerEffect]) {
        for e in effects {
            match e {
                LedgerEffect::AddBalance { wallet_id, delta } => {
                    let b = self.balances[wallet_id];
                    self.balances.insert(wallet_id.clone(), b.checked_add(*delta).unwrap());
                }
                LedgerEffect::SetPosition { holding_id, quantity, avg_buy_price } => {
                    self.positions.insert(holding_id.clone(), (*quantity, *avg_buy_price));
                }
            }
        }
    }
}

#[test]
fn apply_buy_recomputes_weighted_average() {
    let h = holding(d(10, 0), d(100, 0));
    let (q, avg) = HoldingService::apply_buy(&h, d(10, 0), d(200, 0));
    assert_eq!(norm(q), (20, 0));
    assert_eq!(norm(avg), (150, 0));
}

#[test]
fn apply_buy_into_empty_position() {
    let h = holding(d(0, 0), d(0, 0));
    let (q, avg) = HoldingService::apply_buy(&h, d(5, 0), d(42, 0));
    assert_eq!(norm(q), (5, 0));
    assert_eq!(norm(avg), (42, 0));
}

#[test]
fn apply_buy_leaving_no_position_keeps_price() {
    // a negative position bought back to zero: the average becomes the price
    let h = holding(d(-5, 0), d(10, 0));
    let (q, avg) = HoldingService::apply_buy(&h, d(5, 0), d(42, 0));
    assert_eq!(norm(q), (0, 0));
    assert_eq!(avg, d(42, 0));
}

#[test]
fn apply_sell_keeps_average() {
    let h = holding(d(10, 0), d(100, 0));
    let (q, avg) = HoldingService::apply_sell(&h, d(4, 0)).unwrap();
    assert_eq!(norm(q), (6, 0));
    assert_eq!(avg, d(100, 0));
}

#[test]
fn apply_sell_beyond_position_is_refused() {
    let h = holding(d(3, 0), d(100, 0));
    assert_eq!(
        HoldingService::apply_sell(&h, d(4, 0)),
        Err(AppError::InsufficientQuantity("h1".into()))
    );
}

#[test]
fn realized_pnl_is_price_minus_average_times_quantity() {
    assert_eq!(norm(HoldingService::realized_pnl(d(100, 0), d(3, 0), d(120, 0))), (60, 0));
    assert_eq!(norm(HoldingService::realized_pnl(d(100, 0), d(3, 0), d(90, 0))), (-30, 0));
}

#[test]
fn last_price_cannot_be_negative() {
    assert_eq!(HoldingService::validate_last_price(d(10, 0)), Ok(()));
    assert_eq!(HoldingService::validate_last_price(d(0, 0)), Ok(()));
    assert_eq!(
        HoldingService::validate_last_price(d(-1, 0)),
        Err(AppError::Validation("Price cannot be negative".into()))
    );
}

#[test]
fn get_or_create_reuses_existing_holding() {
    let h = holding(d(1, 0), d(1, 0));
    let r = HoldingService::get_or_create(Some(&h), None, "w1", "FPT", None, AssetType::Stock);
    assert_eq!(r, Ok(HoldingChoice::Existing("h1".into())));
}

#[test]
fn get_or_create_needs_an_investment_wallet() {
    let r = HoldingService::get_or_create(None, None, "w9", "FPT", None, AssetType::Stock);
    assert_eq!(r, Err(AppError::NotFound("wallet 'w9'".into())));
    let cash = wallet("w1", WalletType::Cash);
    let r = HoldingService::get_or_create(None, Some(&cash), "w1", "FPT", None, AssetType::Stock);
    assert_eq!(
        r,
        Err(AppError::Validation("Wallet 'Broker' is not an investment wallet".into()))
    );
    let inv = wallet("w1", WalletType::Investment);
    let r = HoldingService::get_or_create(None, Some(&inv), "w1", "btc", Some("Bitcoin".into()), AssetType::Crypto);
    assert_eq!(
        r,
        Ok(HoldingChoice::Create(NewHolding {
            wallet_id: "w1".into(),
            symbol: "BTC".into(),
            name: Some("Bitcoin".into()),
            asset_type: AssetType::Crypto,
        }))
    );
}

#[test]
fn portfolio_summary_and_total_unrealized() {
    let mut a = holding(d(10, 0), d(100, 0));
    a.last_price = Some(d(110, 0));
    let b = holding(d(2, 0), d(50, 0));
    let mut c = holding(d(1, 0), d(80, 0));
    c.last_price = Some(d(70, 0));
    let all = vec![a.clone(), b.clone(), c.clone()];
    let s = HoldingService::portfolio_summary(all.clone());
    assert_eq!(s.len(), 3);
    assert_eq!(norm(s[0].cost_basis), (1000, 0));
    assert_eq!(s[0].market_value.map(norm), Some((1100, 0)));
    assert_eq!(s[1].market_value, None);
    assert_eq!(s[1].unrealized_pnl, None);
    assert_eq!(norm(HoldingService::total_unrealized_pnl(&all)), (90, 0));
    let pct = s[0].unrealized_pnl_pct().unwrap();
    assert_eq!(norm(pct), (10, 0));
}

#[test]
fn execute_income_adds_amount() {
    let input = NewTransaction::income("w1", d(500, 0), Currency::VND, IncomeType::Salary, 1);
    let r = TransactionService::execute(&input, active(100), None, &None);
    assert_eq!(r, Ok(vec![LedgerEffect::AddBalance { wallet_id: "w1".into(), delta: d(500, 0) }]));
}

#[test]
fn execute_refuses_invalid_input() {
    let zero = NewTransaction::income("w1", d(0, 0), Currency::VND, IncomeType::Salary, 1);
    assert_eq!(
        TransactionService::execute(&zero, active(100), None, &None),
        Err(AppError::Validation("Amount must be greater than zero".into()))
    );
    let ok = NewTransaction::income("w1", d(1, 0), Currency::VND, IncomeType::Salary, 1);
    assert_eq!(
        TransactionService::execute(&ok, None, None, &None),
        Err(AppError::NotFound("wallet 'w1'".into()))
    );
    let mut no_type = ok.clone();
    no_type.income_type = None;
    assert_eq!(
        TransactionService::execute(&no_type, active(100), None, &None),
        Err(AppError::Validation("income requires income_type".into()))
    );
    let same = NewTransaction::transfer("w1", d(1, 0), Currency::VND, "w1", d(1, 0), Currency::VND, 1);
    assert_eq!(
        TransactionService::execute(&same, active(100), active(100), &None),
        Err(AppError::Validation("Cannot transfer to the same wallet".into()))
    );
    let uneven = NewTransaction::transfer("w1", d(100, 0), Currency::VND, "w2", d(90, 0), Currency::VND, 1);
    assert_eq!(
        TransactionService::execute(&uneven, active(100), active(0), &None),
        Err(AppError::Validation("Same-currency transfer requires to_amount equal to amount".into()))
    );
    let rescaled = NewTransaction::transfer("w1", d(100, 0), Currency::VND, "w2", d(1000, 1), Currency::VND, 1);
    assert!(TransactionService::execute(&rescaled, active(100), active(0), &None).is_ok());
    let mut buy = NewTransaction::invest_buy("w1", "h1", d(1, 0), d(1, 0), Currency::VND, 1);
    buy.asset_price = Some(d(0, 0));
    assert_eq!(
        TransactionService::execute(&buy, active(100), None, &Some(holding(d(0, 0), d(0, 0)))),
        Err(AppError::Validation("asset_price must be > 0".into()))
    );
}

#[test]
fn execute_expense_beyond_balance_is_refused() {
    let input = NewTransaction::expense("w1", d(150, 0), Currency::VND, "food", 1);
    assert_eq!(
        TransactionService::execute(&input, active(100), None, &None),
        Err(AppError::InsufficientBalance("w1".into()))
    );
    let ok = NewTransaction::expense("w1", d(100, 0), Currency::VND, "food", 1);
    assert_eq!(
        TransactionService::execute(&ok, active(100), None, &None),
        Ok(vec![LedgerEffect::AddBalance { wallet_id: "w1".into(), delta: d(-100, 0) }])
    );
}

#[test]
fn execute_transfer_moves_both_amounts() {
    let input = NewTransaction::transfer("w1", d(100, 0), Currency::VND, "g1", d(2, 1), Currency::GOLD, 1);
    assert_eq!(
        TransactionService::execute(&input, active(100), active(0), &None),
        Ok(vec![
            LedgerEffect::AddBalance { wallet_id: "w1".into(), delta: d(-100, 0) },
            LedgerEffect::AddBalance { wallet_id: "g1".into(), delta: d(2, 1) },
        ])
    );
    assert_eq!(
        TransactionService::execute(&input, active(100), None, &None),
        Err(AppError::NotFound("wallet 'g1'".into()))
    );
}

#[test]
fn execute_trades() {
    let h = holding(d(10, 0), d(100, 0));
    let buy = NewTransaction::invest_buy("w1", "h1", d(10, 0), d(200, 0), Currency::VND, 1);
    let effects = TransactionService::execute(&buy, active(5000), None, &Some(h.clone())).unwrap();
    assert_eq!(effects.len(), 2);
    match &effects[0] {
        LedgerEffect::AddBalance { wallet_id, delta } => {
            assert_eq!(wallet_id, "w1");
            assert_eq!(norm(*delta), (-2000, 0));
        }
        other => panic!("unexpected {other:?}"),
    }
    match &effects[1] {
        LedgerEffect::SetPosition { holding_id, quantity, avg_buy_price } => {
            assert_eq!(holding_id, "h1");
            assert_eq!(norm(*quantity), (20, 0));
            assert_eq!(norm(*avg_buy_price), (150, 0));
        }
        other => panic!("unexpected {other:?}"),
    }
    assert_eq!(
        TransactionService::execute(&buy, active(1999), None, &Some(h.clone())),
        Err(AppError::InsufficientBalance("w1".into()))
    );
    let sell = NewTransaction::invest_sell("w1", "h1", d(11, 0), d(200, 0), Currency::VND, 1);
    assert_eq!(
        TransactionService::execute(&sell, active(0), None, &Some(h.clone())),
        Err(AppError::InsufficientQuantity("h1".into()))
    );
    assert_eq!(
        TransactionService::execute(&sell, active(0), None, &None),
        Err(AppError::NotFound("holding 'h1'".into()))
    );
}

#[test]
fn delete_undoes_execute_on_balances_and_positions() {
    let h = holding(d(10, 0), d(100, 0));
    let cases = vec![
        NewTransaction::income("w1", d(500, 0), Currency::VND, IncomeType::Bonus, 1),
        NewTransaction::expense("w1", d(30, 0), Currency::VND, "food", 1),
        NewTransaction::transfer("w1", d(70, 0), Currency::VND, "w2", d(70, 0), Currency::VND, 1),
        NewTransaction::invest_buy("w1", "h1", d(5, 0), d(40, 0), Currency::VND, 1),
        NewTransaction::invest_sell("w1", "h1", d(4, 0), d(130, 0), Currency::VND, 1),
    ];
    for input in cases {
        let mut store = Store {
            balances: HashMap::from([("w1".to_string(), d(1000, 0)), ("w2".to_string(), d(5, 0))]),
            positions: HashMap::from([("h1".to_string(), (h.quantity, h.avg_buy_price))]),
        };
        let before_b = store.balances.clone();
        let before_q = norm(store.positions["h1"].0);
        let before_avg = norm(store.positions["h1"].1);
        let holding_now = if input.holding_id.is_some() { Some(h.clone()) } else { None };
        let effects = TransactionService::execute(&input, active(1000), active(5), &holding_now).unwrap();
        store.apply(&effects);
        let (q, avg) = store.positions["h1"];
        let mut refreshed = h.clone();
        refreshed.quantity = q;
        refreshed.avg_buy_price = avg;
        let holding_after = if input.holding_id.is_some() { Some(refreshed) } else { None };
        let undo = TransactionService::delete(&record(&input), active(1), active(1), &holding_after).unwrap();
        store.apply(&undo);
        for (k, v) in &before_b {
            assert_eq!(norm(store.balances[k]), norm(*v), "balance of {k} after {:?}", input.txn_type);
        }
        assert_eq!(norm(store.positions["h1"].0), before_q);
        assert_eq!(norm(store.positions["h1"].1), before_avg);
    }
}

#[test]
fn deleting_the_first_purchase_keeps_the_average() {
    let buy = NewTransaction::invest_buy("w1", "h1", d(5, 0), d(40, 0), Currency::VND, 1);
    let after = holding(d(5, 0), d(40, 0));
    let undo = TransactionService::delete(&record(&buy), active(0), None, &Some(after)).unwrap();
    assert_eq!(undo.len(), 2);
    match &undo[1] {
        LedgerEffect::SetPosition { holding_id, quantity, avg_buy_price } => {
            assert_eq!(holding_id, "h1");
            assert_eq!(norm(*quantity), (0, 0));
            assert_eq!(norm(*avg_buy_price), (40, 0));
        }
        other => panic!("unexpected {other:?}"),
    }
}

#[test]
fn deleting_a_sale_keeps_the_average() {
    let sell = NewTransaction::invest_sell("w1", "h1", d(4, 0), d(130, 0), Currency::VND, 1);
    let after = holding(d(6, 0), d(100, 0));
    let undo = TransactionService::delete(&record(&sell), active(520), None, &Some(after)).unwrap();
    match &undo[1] {
        LedgerEffect::SetPosition { quantity, avg_buy_price, .. } => {
            assert_eq!(norm(*quantity), (10, 0));
            assert_eq!(norm(*avg_buy_price), (100, 0));
        }
        other => panic!("unexpected {other:?}"),
    }
}

#[test]
fn delete_refuses_missing_wallet() {
    let input = NewTransaction::income("w1", d(5, 0), Currency::VND, IncomeType::Bonus, 1);
    assert_eq!(
        TransactionService::delete(&record(&input), None, None, &None),
        Err(AppError::NotFound("wallet 'w1'".into()))
    );
    let mut corrupt = record(&NewTransaction::transfer("w1", d(1, 0), Currency::VND, "w2", d(1, 0), Currency::VND, 1));
    corrupt.to_amount = None;
    assert_eq!(
        TransactionService::delete(&corrupt, active(1), active(1), &None),
        Err(AppError::Validation("Corrupt transfer: missing to_amount".into()))
    );
}

#[test]
fn checked_execute_reports_overflow() {
    let big = d(79228162514264337593543950335, 0);
    let input = NewTransaction::income("w1", d(1, 0), Currency::VND, IncomeType::Salary, 1);
    assert!(TransactionService::checked_execute(&input, Some(WalletState { balance: big, is_active: true }), None, &None).is_some());
    let h = holding(big, d(1, 0));
    let buy = NewTransaction::invest_buy("w1", "h1", d(1, 0), d(1, 0), Currency::VND, 1);
    assert_eq!(TransactionService::checked_execute(&buy, active(10), None, &Some(h)), None);
}

fn member(name: &str, role: MemberRole) -> Member {
    Member {
        id: name.to_lowercase(),
        family_id: None,
        full_name: name.into(),
        birth_date: None,
        gender: None,
        phone: None,
        id_number: None,
        id_issue_date: None,
        id_issue_place: None,
        address: None,
        role,
        avatar_emoji: None,
        note: None,
        created_at: 0,
    }
}

#[test]
fn members_listed_owners_first_then_by_name() {
    let ms = vec![
        member("Chi", MemberRole::Member),
        member("Binh", MemberRole::Owner),
        member("An", MemberRole::Member),
        member("Anh", MemberRole::Owner),
    ];
    let names: Vec<String> = MemberService::list(ms).into_iter().map(|m| m.full_name).collect();
    assert_eq!(names, vec!["Anh", "Binh", "An", "Chi"]);
}

#[test]
fn member_listing_is_stable() {
    let mut first = member("An", MemberRole::Member);
    first.id = "first".into();
    let mut second = member("An", MemberRole::Member);
    second.id = "second".into();
    let out = MemberService::list(vec![first, second, member("Ba", MemberRole::Owner)]);
    let ids: Vec<String> = out.into_iter().map(|m| m.id).collect();
    assert_eq!(ids, vec!["ba", "first", "second"]);
    assert!(MemberService::list(vec![]).is_empty());
}

#[test]
fn spending_the_whole_balance_leaves_zero() {
    let mut store = Store {
        balances: HashMap::from([("w1".to_string(), d(100, 0))]),
        positions: HashMap::new(),
    };
    let input = NewTransaction::expense("w1", d(100, 0), Currency::VND, "food", 1);
    let effects = TransactionService::execute(&input, active(100), None, &None).unwrap();
    store.apply(&effects);
    assert_eq!(norm(store.balances["w1"]), (0, 0));
    let more = NewTransaction::expense("w1", d(1, 0), Currency::VND, "food", 1);
    assert_eq!(
        TransactionService::execute(&more, Some(WalletState { balance: store.balances["w1"], is_active: true }), None, &None),
        Err(AppError::InsufficientBalance("w1".into()))
    );
}

#[test]
fn same_currency_transfer_conserves_money() {
    let mut store = Store {
        balances: HashMap::from([("w1".to_string(), d(300, 0)), ("w2".to_string(), d(50, 0))]),
        positions: HashMap::new(),
    };
    let input = NewTransaction::transfer("w1", d(120, 0), Currency::VND, "w2", d(120, 0), Currency::VND, 1);
    let effects = TransactionService::execute(&input, active(300), active(50), &None).unwrap();
    store.apply(&effects);
    assert_eq!(norm(store.balances["w1"]), (180, 0));
    assert_eq!(norm(store.balances["w2"]), (170, 0));
    let total = store.balances["w1"].checked_add(store.balances["w2"]).unwrap();
    assert_eq!(norm(total), (350, 0));
}
