use family_finance::decimal::Dec;
use family_finance::error::AppError;
use family_finance::models::{
    default_categories, AssetType, Currency, Gender, Holding, IncomeType, Member, MemberRole,
    NewTransaction, TransactionType, WalletType,
};

fn d(mantissa: i128, scale: u32) -> Dec {
    Dec { mantissa, scale }
}

fn norm(x: Dec) -> (i128, u32) {
    let (mut m, mut s) = (x.mantissa, x.scale);
    while s > 0 && m % 10 == 0 {
        m /= 10;
        s -= 1;
    }
    (m, s)
}

#[test]
fn currency_names_round_trip() {
    for c in [Currency::VND, Currency::USD, Currency::GOLD] {
        assert_eq!(Currency::from_str(&c.to_string()), Ok(c));
    }
    assert_eq!(Currency::VND.to_string(), "VND");
    assert_eq!(Currency::GOLD.to_string(), "GOLD");
    assert_eq!(
        Currency::from_str("EUR"),
        Err(AppError::Parse("Unknown currency: EUR".to_string()))
    );
}

#[test]
fn wallet_type_names_round_trip() {
    for t in [
        WalletType::Cash,
        WalletType::Bank,
        WalletType::Loan,
        WalletType::EWallet,
        WalletType::Investment,
    ] {
        assert_eq!(WalletType::from_str(&t.to_string()), Ok(t));
    }
    assert_eq!(WalletType::EWallet.to_string(), "e_wallet");
    assert!(matches!(WalletType::from_str("piggy"), Err(AppError::Parse(_))));
}

#[test]
fn transaction_type_names_round_trip() {
    for t in [
        TransactionType::Income,
        TransactionType::Expense,
        TransactionType::Transfer,
        TransactionType::InvestBuy,
        TransactionType::InvestSell,
    ] {
        assert_eq!(TransactionType::from_str(&t.to_string()), Ok(t));
    }
    assert_eq!(TransactionType::InvestSell.to_string(), "invest_sell");
    assert_eq!(
        TransactionType::from_str("gift"),
        Err(AppError::Parse("Unknown transaction type: gift".to_string()))
    );
}

#[test]
fn income_type_names_round_trip() {
    for t in [
        IncomeType::Salary,
        IncomeType::Bonus,
        IncomeType::SideIncome,
        IncomeType::Rental,
        IncomeType::Investment,
        IncomeType::Other,
    ] {
        assert_eq!(IncomeType::from_str(&t.to_string()), Ok(t));
    }
    assert_eq!(IncomeType::SideIncome.to_string(), "side_income");
    assert_eq!(
        IncomeType::from_str("lottery"),
        Err(AppError::Parse("Unknown income type: lottery".to_string()))
    );
}

#[test]
fn member_enums_round_trip() {
    for r in [MemberRole::Owner, MemberRole::Member] {
        assert_eq!(MemberRole::from_str(&r.to_string()), Ok(r));
    }
    for g in [Gender::Male, Gender::Female, Gender::Other] {
        assert_eq!(Gender::from_str(&g.to_string()), Ok(g));
    }
    assert_eq!(
        MemberRole::from_str("boss"),
        Err(AppError::Parse("Unknown member role: boss".to_string()))
    );
    assert_eq!(
        Gender::from_str("x"),
        Err(AppError::Parse("Unknown gender: x".to_string()))
    );
}

#[test]
fn asset_type_names_round_trip() {
    for a in [AssetType::Stock, AssetType::Crypto] {
        assert_eq!(AssetType::from_str(&a.to_string()), Ok(a));
    }
    assert_eq!(AssetType::Crypto.to_string(), "crypto");
    assert_eq!(
        AssetType::from_str("bond"),
        Err(AppError::Parse("Unknown asset type: bond".to_string()))
    );
}

#[test]
fn error_messages() {
    assert_eq!(AppError::NotFound("wallet 'w1'".into()).to_string(), "Not found: wallet 'w1'");
    assert_eq!(
        AppError::InsufficientBalance("w1".into()).to_string(),
        "Insufficient balance in wallet 'w1'"
    );
    assert_eq!(
        AppError::InsufficientQuantity("h1".into()).to_string(),
        "Insufficient quantity for holding 'h1'"
    );
    assert_eq!(AppError::Validation("bad".into()).to_string(), "Validation error: bad");
    assert_eq!(AppError::Database("locked".into()).to_string(), "Database error: locked");
    assert_eq!(AppError::Parse("x".into()).to_string(), "Parse error: x");
    assert_eq!(AppError::Serialization("x".into()).to_string(), "Serialization error: x");
    assert_eq!(AppError::Io("x".into()).to_string(), "IO error: x");
    assert_eq!(AppError::from("oops".to_string()), AppError::Parse("oops".into()));
}

#[test]
fn income_constructor() {
    let t = NewTransaction::income("w1", d(5000, 0), Currency::VND, IncomeType::Salary, 100);
    assert_eq!(t.txn_type, TransactionType::Income);
    assert_eq!(t.wallet_id, "w1");
    assert_eq!(t.amount, d(5000, 0));
    assert_eq!(t.income_type, Some(IncomeType::Salary));
    assert_eq!(t.category_id, None);
    assert_eq!(t.to_wallet_id, None);
    assert_eq!(t.holding_id, None);
    assert_eq!(t.note, None);
    assert_eq!(t.txn_date, 100);
}

#[test]
fn expense_and_transfer_constructors() {
    let e = NewTransaction::expense("w1", d(30, 0), Currency::USD, "food", 7);
    assert_eq!(e.txn_type, TransactionType::Expense);
    assert_eq!(e.category_id.as_deref(), Some("food"));
    assert_eq!(e.income_type, None);
    let t = NewTransaction::transfer(
        "w1",
        d(8500000, 0),
        Currency::VND,
        "g1",
        d(5, 1),
        Currency::GOLD,
        8,
    );
    assert_eq!(t.txn_type, TransactionType::Transfer);
    assert_eq!(t.to_wallet_id.as_deref(), Some("g1"));
    assert_eq!(t.to_amount, Some(d(5, 1)));
    assert_eq!(t.to_currency, Some(Currency::GOLD));
    assert_eq!(t.amount, d(8500000, 0));
}

#[test]
fn trade_constructors_amount_is_quantity_times_price() {
    let b = NewTransaction::invest_buy("w1", "h1", d(10, 0), d(2550, 2), Currency::USD, 9);
    assert_eq!(b.txn_type, TransactionType::InvestBuy);
    assert_eq!(norm(b.amount), (255, 0));
    assert_eq!(b.asset_quantity, Some(d(10, 0)));
    assert_eq!(b.asset_price, Some(d(2550, 2)));
    assert_eq!(b.holding_id.as_deref(), Some("h1"));
    let s = NewTransaction::invest_sell("w1", "h1", d(2, 0), d(3, 0), Currency::USD, 9);
    assert_eq!(s.txn_type, TransactionType::InvestSell);
    assert_eq!(norm(s.amount), (6, 0));
    let big = d(79228162514264337593543950335, 0);
    assert!(NewTransaction::checked_invest_buy("w1", "h1", big, big, Currency::USD, 1).is_none());
    assert!(NewTransaction::checked_invest_sell("w1", "h1", d(1, 0), d(1, 0), Currency::USD, 1)
        .is_some());
}

fn holding(qty: Dec, avg: Dec, last: Option<Dec>) -> Holding {
    Holding {
        id: "h1".into(),
        wallet_id: "w1".into(),
        symbol: "FPT".into(),
        name: None,
        asset_type: AssetType::Stock,
        quantity: qty,
        avg_buy_price: avg,
        last_price: last,
        last_price_at: None,
        created_at: 0,
    }
}

#[test]
fn holding_figures() {
    let h = holding(d(10, 0), d(100, 0), Some(d(120, 0)));
    assert_eq!(norm(h.unrealized_pnl().unwrap()), (200, 0));
    assert_eq!(norm(h.market_value().unwrap()), (1200, 0));
    assert_eq!(norm(h.cost_basis()), (1000, 0));
    let unpriced = holding(d(10, 0), d(100, 0), None);
    assert_eq!(unpriced.unrealized_pnl(), None);
    assert_eq!(unpriced.market_value(), None);
    assert_eq!(unpriced.checked_market_value(), Some(None));
    let loss = holding(d(4, 0), d(50, 0), Some(d(40, 0)));
    assert_eq!(norm(loss.unrealized_pnl().unwrap()), (-40, 0));
}

#[test]
fn unrealized_pnl_is_market_value_minus_cost_basis() {
    let h = holding(d(25, 1), d(1234, 2), Some(d(1501, 2)));
    let diff = h.market_value().unwrap().checked_sub(h.cost_basis()).unwrap();
    assert_eq!(norm(h.unrealized_pnl().unwrap()), norm(diff));
    assert_eq!(norm(diff), (6675, 3));
}

#[test]
fn member_avatar_defaults_to_silhouette() {
    let mut m = Member {
        id: "m1".into(),
        family_id: None,
        full_name: "An".into(),
        birth_date: None,
        gender: None,
        phone: None,
        id_number: None,
        id_issue_date: None,
        id_issue_place: None,
        address: None,
        role: MemberRole::Owner,
        avatar_emoji: None,
        note: None,
        created_at: 0,
    };
    assert_eq!(m.avatar(), "\u{1F464}");
    m.avatar_emoji = Some("\u{1F469}".into());
    assert_eq!(m.avatar(), "\u{1F469}");
    assert_eq!(m.duplicate(), m);
}

#[test]
fn default_categories_are_the_ten_system_ones() {
    let cats = default_categories();
    assert_eq!(cats.len(), 10);
    assert_eq!(cats[0].name, "Food & Drinks");
    assert_eq!(cats[0].color.as_deref(), Some("#FF6B6B"));
    assert_eq!(cats[9].name, "Other");
    for (i, c) in cats.iter().enumerate() {
        assert_eq!(c.sort_order, i as i32 + 1);
        assert_eq!(c.budget_amount, None);
        assert_eq!(c.parent_id, None);
    }
}
