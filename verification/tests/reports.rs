use family_finance::decimal::Dec;
use family_finance::models::{AssetType, Category, Currency, Holding, Wallet, WalletType};
use family_finance::services::{ExpenseByCategoryItem, ReportService};

fn d(mantissa: i128, scale: u32) -> Dec {
    Dec { mantissa, scale }
}

fn norm(x: Dec) -> (i128, u32) {
    let (mut m, mut s) = (x.mantissa, x.scale);
    while s > 0 && m % 10 == 0 {
        m /= 10;
        s -= 1;
    }
    (m, s)
}

fn category(id: &str, name: &str, budget: Option<Dec>) -> Category {
    Category {
        id: id.into(),
        name: name.into(),
        icon: Some("*".into()),
        color: None,
        budget_amount: budget,
        parent_id: None,
        sort_order: 0,
        is_system: false,
        created_at: 0,
    }
}

#[test]
fn monthly_summary_savings_and_rate() {
    let s = ReportService::monthly_summary(2024, 3, d(1000, 0), d(750, 0));
    assert_eq!((s.year, s.month), (2024, 3));
    assert_eq!(norm(s.savings), (250, 0));
    assert_eq!(norm(s.savings_rate), (25, 0));
    assert_eq!(norm(s.net_transfers), (0, 0));
}

#[test]
fn monthly_summary_without_income_has_zero_rate() {
    let s = ReportService::monthly_summary(2024, 3, d(0, 0), d(40, 0));
    assert_eq!(norm(s.savings), (-40, 0));
    assert_eq!(norm(s.savings_rate), (0, 0));
}

#[test]
fn trend_periods_are_consecutive_and_end_now() {
    // now: February 2024 (month0 = 1)
    let p = ReportService::monthly_trend_periods(2024, 1, 3);
    assert_eq!(p, vec![(2023, 12), (2024, 1), (2024, 2)]);
    let p = ReportService::monthly_trend_periods(2024, 11, 12);
    assert_eq!(p.first(), Some(&(2024, 1)));
    assert_eq!(p.last(), Some(&(2024, 12)));
    assert!(ReportService::monthly_trend_periods(2024, 0, 0).is_empty());
}

#[test]
fn monthly_trend_summarises_each_month() {
    let periods = ReportService::monthly_trend_periods(2024, 0, 2);
    let totals = vec![(d(1000, 0), d(750, 0)), (d(0, 0), d(40, 0))];
    let trend = ReportService::monthly_trend(&periods, &totals).unwrap();
    assert_eq!(trend.len(), 2);
    assert_eq!((trend[0].year, trend[0].month), (2023, 12));
    assert_eq!(norm(trend[0].savings_rate), (25, 0));
    assert_eq!((trend[1].year, trend[1].month), (2024, 1));
    assert_eq!(norm(trend[1].savings), (-40, 0));
    let max = Dec { mantissa: 79228162514264337593543950335, scale: 0 };
    let min = Dec { mantissa: -79228162514264337593543950335, scale: 0 };
    assert_eq!(ReportService::monthly_trend(&periods, &vec![(max, d(0, 0)), (min, max)]), None);
}

#[test]
fn monthly_trend_at_ends_with_the_current_month() {
    let totals = vec![(d(100, 0), d(50, 0)), (d(200, 0), d(50, 0)), (d(0, 0), d(0, 0))];
    let trend = ReportService::monthly_trend_at(2024, 0, 3, &totals).unwrap();
    let months: Vec<(i32, u32)> = trend.iter().map(|s| (s.year, s.month)).collect();
    assert_eq!(months, vec![(2023, 11), (2023, 12), (2024, 1)]);
    assert_eq!(norm(trend[0].savings_rate), (50, 0));
    assert_eq!(norm(trend[1].savings), (150, 0));
    assert_eq!(norm(trend[2].savings_rate), (0, 0));
}

#[test]
fn alerts_are_the_lines_over_budget_in_order() {
    let cats = vec![
        category("a", "A", Some(d(10, 0))),
        category("b", "B", Some(d(500, 0))),
        category("c", "C", Some(d(20, 0))),
    ];
    let items = ReportService::expense_by_category(
        vec![("a".to_string(), d(30, 0)), ("b".to_string(), d(100, 0)), ("c".to_string(), d(25, 0))],
        d(155, 0),
        &cats,
    );
    let over: Vec<String> =
        items.iter().filter(|x| x.is_over_budget).map(|x| x.category_id.clone()).collect();
    let alerts = ReportService::overspending_alerts(&items);
    let ids: Vec<String> = alerts.iter().map(|a| a.category_id.clone()).collect();
    assert_eq!(ids, over);
    assert_eq!(ids, vec!["a", "c"]);
    assert_eq!(norm(alerts[0].spent), (30, 0));
    assert_eq!(norm(alerts[1].overage), (5, 0));
}

#[test]
fn expense_by_category_sorted_with_shares() {
    let cats = vec![category("food", "Food", Some(d(300, 0))), category("fun", "Fun", None)];
    let raw = vec![
        ("fun".to_string(), d(100, 0)),
        ("food".to_string(), d(400, 0)),
        ("gone".to_string(), d(100, 0)),
    ];
    let items = ReportService::expense_by_category(raw, d(600, 0), &cats);
    assert_eq!(items.len(), 3);
    assert_eq!(items[0].category_id, "food");
    assert_eq!(items[0].category_name, "Food");
    assert!(items[0].is_over_budget);
    assert_eq!(items[0].budget_amount, Some(d(300, 0)));
    // equal amounts keep their order
    assert_eq!(items[1].category_id, "fun");
    assert!(!items[1].is_over_budget);
    assert_eq!(items[2].category_id, "gone");
    assert_eq!(items[2].category_name, "gone");
    assert_eq!(items[2].icon, None);
    let share = items[1].share_pct;
    // 100 / 600 * 100 = 16.666...
    assert!(norm(share).0 > 0 && share.scale > 0);
    assert_eq!(&format!("{}", share.mantissa)[..4], "1666");
}

#[test]
fn expense_by_category_with_no_total_has_zero_shares() {
    let items = ReportService::expense_by_category(vec![("x".to_string(), d(0, 0))], d(0, 0), &vec![]);
    assert_eq!(norm(items[0].share_pct), (0, 0));
}

#[test]
fn overspending_alerts_for_lines_over_budget() {
    let cats = vec![category("food", "Food", Some(d(300, 0))), category("fun", "Fun", Some(d(0, 0)))];
    let items: Vec<ExpenseByCategoryItem> = ReportService::expense_by_category(
        vec![("food".to_string(), d(450, 0)), ("fun".to_string(), d(20, 0))],
        d(470, 0),
        &cats,
    );
    let alerts = ReportService::overspending_alerts(&items);
    assert_eq!(alerts.len(), 2);
    assert_eq!(alerts[0].category_id, "food");
    assert_eq!(norm(alerts[0].overage), (150, 0));
    assert_eq!(norm(alerts[0].overage_pct), (50, 0));
    assert_eq!(norm(alerts[1].budget), (0, 0));
    assert_eq!(norm(alerts[1].overage_pct), (0, 0));
}

fn holding(id: &str, qty: Dec, avg: Dec, last: Option<Dec>) -> Holding {
    Holding {
        id: id.into(),
        wallet_id: "w1".into(),
        symbol: id.to_uppercase(),
        name: None,
        asset_type: AssetType::Stock,
        quantity: qty,
        avg_buy_price: avg,
        last_price: last,
        last_price_at: None,
        created_at: 0,
    }
}

#[test]
fn investment_pnl_lines() {
    let hs = vec![
        holding("a", d(10, 0), d(100, 0), Some(d(120, 0))),
        holding("b", d(5, 0), d(0, 0), None),
    ];
    let items = ReportService::investment_pnl(&hs, &vec![d(30, 0), d(-5, 0)]);
    assert_eq!(items.len(), 2);
    assert_eq!(items[0].symbol, "A");
    assert_eq!(norm(items[0].cost_basis), (1000, 0));
    assert_eq!(items[0].unrealized_pnl.map(norm), Some((200, 0)));
    assert_eq!(items[0].unrealized_pnl_pct.map(norm), Some((20, 0)));
    assert_eq!(items[0].realized_pnl, d(30, 0));
    assert_eq!(items[1].unrealized_pnl, None);
    assert_eq!(items[1].unrealized_pnl_pct, None);
}

#[test]
fn realized_pnl_for_holding_is_proceeds_minus_cost() {
    assert_eq!(norm(ReportService::realized_pnl_for_holding(d(520, 0), d(400, 0))), (120, 0));
}

fn wallet(currency: Currency, balance: Dec) -> Wallet {
    Wallet {
        id: "w".into(),
        name: "w".into(),
        wallet_type: WalletType::Cash,
        currency,
        balance,
        broker: None,
        icon: None,
        color: None,
        is_active: true,
        sort_order: 0,
        created_at: 0,
    }
}

#[test]
fn net_worth_keeps_currencies_apart() {
    let ws = vec![
        wallet(Currency::VND, d(1500000, 0)),
        wallet(Currency::USD, d(2050, 2)),
        wallet(Currency::VND, d(500000, 0)),
        wallet(Currency::GOLD, d(5, 1)),
    ];
    let nw = ReportService::net_worth(&ws);
    assert_eq!(norm(nw.vnd), (2000000, 0));
    assert_eq!(norm(nw.usd), (205, 1));
    assert_eq!(norm(nw.gold), (5, 1));
    let empty = ReportService::net_worth(&vec![]);
    assert_eq!(norm(empty.vnd), (0, 0));
}
