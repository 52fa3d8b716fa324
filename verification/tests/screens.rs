use family_finance::decimal::Dec;
use family_finance::error::AppError;
use family_finance::models::{
    AssetType, Category, Currency, Family, Gender, Holding, IncomeType, Member, MemberRole,
    NewCategory, NewFamily, NewWallet, Transaction, TransactionType, Wallet, WalletType,
};
use family_finance::screens::backup::{
    backup_step, escape_js, numbered_name, BackupEvent, BackupStep, PendingAction,
};
use family_finance::screens::lists::{chart_max, latest_filter, portfolio_totals, search_by_note};
use family_finance::screens::member_form::{clipboard_script, preview};
use family_finance::screens::overview::group_categories;
use family_finance::screens::pin::check_new_pin;
use family_finance::display::{date_str_to_ts, format_date, ts_to_date_str};
use family_finance::screens::{
    BackupData, CategoryForm, CategoryFormOutcome, FamilyForm, FamilyFormOutcome, MemberForm,
    MemberFormOutcome, PinCheck, TransactionForm, WalletForm, WalletFormOutcome,
};
use family_finance::services::{HoldingService, ReportService};
use family_finance::screens::overview::{following_month, previous_month};
use family_finance::screens::overview::group_wallets;
use family_finance::screens::overview::investment_totals;
use family_finance::screens::overview::{budget_used_pct, spending_total};
use family_finance::screens::lists::{history_sign, wallet_history_filter};


fn d(mantissa: i128, scale: u32) -> Dec {
    Dec { mantissa, scale }
}

fn norm(x: Dec) -> (i128, u32) {
    let (mut m, mut s) = (x.mantissa, x.scale);
    while s > 0 && m % 10 == 0 {
        m /= 10;
        s -= 1;
    }
    (m, s)
}

fn form(txn_type: TransactionType) -> TransactionForm {
    TransactionForm {
        txn_type,
        wallet_id: "w1".into(),
        amount: "150000".into(),
        currency: Currency::VND,
        note: String::new(),
        income_type: IncomeType::Salary,
        category_id: "food".into(),
        to_wallet_id: "g1".into(),
        to_amount: "0.5".into(),
        to_currency: Currency::GOLD,
        holding_id: "h1".into(),
        quantity: "10".into(),
        price: "25.5".into(),
        txn_date: "2024-03-15".into(),
    }
}

#[test]
fn transaction_form_expense() {
    let mut f = form(TransactionType::Expense);
    f.note = "lunch".into();
    let t = f.to_transaction(1000).unwrap().unwrap();
    assert_eq!(t.txn_type, TransactionType::Expense);
    assert_eq!(t.wallet_id, "w1");
    assert_eq!(t.amount, d(150000, 0));
    assert_eq!(t.category_id.as_deref(), Some("food"));
    assert_eq!(t.income_type, None);
    assert_eq!(t.note.as_deref(), Some("lunch"));
    assert_eq!(t.txn_date, 1000);
}

#[test]
fn transaction_form_income_without_note() {
    let t = form(TransactionType::Income).to_transaction(5).unwrap().unwrap();
    assert_eq!(t.income_type, Some(IncomeType::Salary));
    assert_eq!(t.category_id, None);
    assert_eq!(t.note, None);
}

#[test]
fn transaction_form_transfer() {
    let t = form(TransactionType::Transfer).to_transaction(5).unwrap().unwrap();
    assert_eq!(t.to_wallet_id.as_deref(), Some("g1"));
    assert_eq!(t.to_amount, Some(d(5, 1)));
    assert_eq!(t.to_currency, Some(Currency::GOLD));
    let mut bad = form(TransactionType::Transfer);
    bad.to_amount = "half".into();
    assert_eq!(bad.to_transaction(5).unwrap().unwrap_err(), "Invalid to_amount");
}

#[test]
fn transaction_form_trade_amount_is_quantity_times_price() {
    let t = form(TransactionType::InvestBuy).to_transaction(5).unwrap().unwrap();
    assert_eq!(t.txn_type, TransactionType::InvestBuy);
    assert_eq!(norm(t.amount), (255, 0));
    assert_eq!(t.asset_quantity, Some(d(10, 0)));
    assert_eq!(t.holding_id.as_deref(), Some("h1"));
    let mut bad = form(TransactionType::InvestSell);
    bad.quantity = "x".into();
    assert_eq!(bad.to_transaction(5).unwrap().unwrap_err(), "Invalid quantity");
    let mut bad = form(TransactionType::InvestSell);
    bad.price = "".into();
    assert_eq!(bad.to_transaction(5).unwrap().unwrap_err(), "Invalid price");
}

#[test]
fn transaction_form_amount_checked_first() {
    let mut f = form(TransactionType::InvestBuy);
    f.amount = "abc".into();
    f.quantity = "x".into();
    assert_eq!(f.to_transaction(5).unwrap().unwrap_err(), "Invalid amount");
}

#[test]
fn transaction_form_trade_overflow() {
    let mut f = form(TransactionType::InvestBuy);
    f.quantity = "79228162514264337593543950335".into();
    f.price = "10".into();
    assert!(f.to_transaction(5).is_none());
}

fn wallet_form() -> WalletForm {
    WalletForm {
        name: "  Vietcombank ".into(),
        wallet_type: WalletType::Bank,
        currency: Currency::VND,
        balance: "2500000".into(),
        broker: String::new(),
        icon: "B".into(),
    }
}

#[test]
fn wallet_form_creates_wallet() {
    assert_eq!(
        wallet_form().submit(None),
        Ok(WalletFormOutcome::Create(NewWallet {
            name: "Vietcombank".into(),
            wallet_type: WalletType::Bank,
            currency: Currency::VND,
            balance: d(2500000, 0),
            broker: None,
            icon: Some("B".into()),
            color: None,
            sort_order: 0,
        }))
    );
}

#[test]
fn wallet_form_trims_unicode_whitespace() {
    let mut form = wallet_form();
    form.name = "\u{3000}\tCash box\u{a0}\n".into();
    match form.submit(None) {
        Ok(WalletFormOutcome::Create(n)) => assert_eq!(n.name, "Cash box"),
        other => panic!("unexpected {other:?}"),
    }
    form.name = "\u{2003}\u{85}".into();
    assert_eq!(form.submit(None), Err("Name is required".to_string()));
}

#[test]
fn wallet_form_edit_keeps_balance() {
    let old = Wallet {
        id: "w1".into(),
        name: "Old".into(),
        wallet_type: WalletType::Cash,
        currency: Currency::USD,
        balance: d(7, 0),
        broker: Some("x".into()),
        icon: None,
        color: Some("#fff".into()),
        is_active: true,
        sort_order: 4,
        created_at: 99,
    };
    let expected = Wallet {
        name: "Vietcombank".into(),
        wallet_type: WalletType::Bank,
        currency: Currency::VND,
        broker: None,
        icon: Some("B".into()),
        ..old.clone()
    };
    assert_eq!(wallet_form().submit(Some(&old)), Ok(WalletFormOutcome::Update(expected)));
}

#[test]
fn wallet_form_errors() {
    let mut f = wallet_form();
    f.name = "   ".into();
    assert_eq!(f.submit(None), Err("Name is required".to_string()));
    let mut f = wallet_form();
    f.balance = "lots".into();
    assert_eq!(f.submit(None), Err("Invalid balance".to_string()));
}

#[test]
fn category_form_budget_optional() {
    let f = CategoryForm { name: " Pets ".into(), icon: String::new(), color: "#abc".into(), budget: String::new() };
    assert_eq!(
        f.submit(None),
        Ok(CategoryFormOutcome::Create(NewCategory {
            name: "Pets".into(),
            icon: None,
            color: Some("#abc".into()),
            budget_amount: None,
            parent_id: None,
            sort_order: 0,
        }))
    );
    let f = CategoryForm { name: "Pets".into(), icon: String::new(), color: String::new(), budget: "12x".into() };
    assert_eq!(f.submit(None), Err("Invalid budget amount".to_string()));
    let f = CategoryForm { name: "".into(), icon: String::new(), color: String::new(), budget: String::new() };
    assert_eq!(f.submit(None), Err("Name required".to_string()));
}

#[test]
fn category_form_edit() {
    let old = Category {
        id: "c1".into(),
        name: "Pet".into(),
        icon: Some("p".into()),
        color: None,
        budget_amount: None,
        parent_id: Some("root".into()),
        sort_order: 3,
        is_system: false,
        created_at: 5,
    };
    let f = CategoryForm { name: "Pets".into(), icon: "d".into(), color: String::new(), budget: "300".into() };
    let expected = Category {
        name: "Pets".into(),
        icon: Some("d".into()),
        color: None,
        budget_amount: Some(d(300, 0)),
        ..old.clone()
    };
    assert_eq!(f.submit(Some(&old)), Ok(CategoryFormOutcome::Update(expected)));
}

fn member_form() -> MemberForm {
    MemberForm {
        full_name: " Nguyen Van An ".into(),
        family_id: Some("f1".into()),
        role: MemberRole::Owner,
        gender: Some(Gender::Male),
        avatar_emoji: String::new(),
        phone: " 0901 ".into(),
        address: "   ".into(),
        birth_date: "1990-05-01".into(),
        id_number: String::new(),
        id_issue_date: "not a date".into(),
        id_issue_place: String::new(),
        note: "n".into(),
    }
}

#[test]
fn member_form_trims_fields() {
    let n = member_form().to_member().unwrap();
    assert_eq!(n.full_name, "Nguyen Van An");
    assert_eq!(n.phone.as_deref(), Some("0901"));
    assert_eq!(n.address, None);
    assert_eq!(n.avatar_emoji, None);
    assert_eq!(n.note.as_deref(), Some("n"));
    assert!(n.birth_date.is_some());
    assert_eq!(n.birth_date, date_str_to_ts("1990-05-01"));
    assert_eq!(n.id_issue_date, None);
    assert_eq!(n.role, MemberRole::Owner);
    let mut f = member_form();
    f.full_name = "  ".into();
    assert_eq!(f.to_member(), Err("Full name is required".to_string()));
}

#[test]
fn member_form_edit_keeps_id() {
    let old = Member {
        id: "m1".into(),
        family_id: None,
        full_name: "X".into(),
        birth_date: None,
        gender: None,
        phone: Some("1".into()),
        id_number: Some("id".into()),
        id_issue_date: Some(5),
        id_issue_place: None,
        address: None,
        role: MemberRole::Member,
        avatar_emoji: None,
        note: None,
        created_at: 77,
    };
    match member_form().submit(Some(&old)).unwrap() {
        MemberFormOutcome::Update(m) => {
            assert_eq!(m.id, "m1");
            assert_eq!(m.created_at, 77);
            assert_eq!(m.full_name, "Nguyen Van An");
            assert_eq!(m.id_number, None);
            assert_eq!(m.id_issue_date, None);
            assert_eq!(m.family_id.as_deref(), Some("f1"));
        }
        other => panic!("unexpected {other:?}"),
    }
    assert!(matches!(member_form().submit(None), Ok(MemberFormOutcome::Create(_))));
}

#[test]
fn member_avatar_preview() {
    let mut f = member_form();
    assert_eq!(f.avatar_preview(), "\u{1F9D1}");
    f.avatar_emoji = "\u{1F475}".into();
    assert_eq!(f.avatar_preview(), "\u{1F475}");
}

#[test]
fn family_form() {
    let f = FamilyForm { name: " Tran ".into(), common_address: String::new(), note: "n".into() };
    assert_eq!(
        f.submit(None),
        Some(FamilyFormOutcome::Create(NewFamily { name: "Tran".into(), common_address: None, note: Some("n".into()) }))
    );
    let old = Family { id: "f1".into(), name: "T".into(), common_address: Some("a".into()), note: None, created_at: 3 };
    assert_eq!(
        f.submit(Some(&old)),
        Some(FamilyFormOutcome::Update(Family {
            id: "f1".into(),
            name: "Tran".into(),
            common_address: None,
            note: Some("n".into()),
            created_at: 3,
        }))
    );
    let blank = FamilyForm { name: " ".into(), common_address: String::new(), note: String::new() };
    assert_eq!(blank.submit(None), None);
}

#[test]
fn clipboard_script_quotes_text() {
    assert_eq!(
        clipboard_script("0901"),
        "navigator.clipboard.writeText('0901').catch(()=>{})"
    );
}

#[test]
fn new_pin_checks() {
    assert_eq!(check_new_pin("123", "123"), Err("PIN must be at least 4 digits!".to_string()));
    assert_eq!(check_new_pin("1234", "1235"), Err("PINs do not match!".to_string()));
    assert_eq!(check_new_pin("123456", "123456"), Ok(()));
}

#[test]
fn pin_check_answers() {
    assert_eq!(PinCheck::from_result(&Ok(true)), PinCheck::Accepted);
    assert_eq!(PinCheck::from_result(&Ok(false)), PinCheck::Incorrect);
    let failed = PinCheck::from_result(&Err(AppError::Database("locked".into())));
    assert_eq!(failed, PinCheck::Failed("Error: Database error: locked".into()));
    assert_eq!(PinCheck::Accepted.message(), None);
    assert_eq!(PinCheck::Incorrect.message().as_deref(), Some("Incorrect PIN!"));
    assert_eq!(failed.message().as_deref(), Some("Error: Database error: locked"));
}

fn txn(id: &str, note: Option<&str>) -> Transaction {
    Transaction {
        id: id.into(),
        txn_type: TransactionType::Expense,
        wallet_id: "w1".into(),
        amount: d(1, 0),
        currency: Currency::VND,
        income_type: None,
        category_id: None,
        to_wallet_id: None,
        to_amount: None,
        to_currency: None,
        holding_id: None,
        asset_quantity: None,
        asset_price: None,
        note: note.map(|n| n.to_string()),
        txn_date: 0,
        created_at: 0,
    }
}

#[test]
fn note_search_is_case_insensitive() {
    let txns = vec![txn("a", Some("Lunch with Team")), txn("b", None), txn("c", Some("team dinner"))];
    let ids = |v: Vec<Transaction>| v.into_iter().map(|t| t.id).collect::<Vec<_>>();
    assert_eq!(ids(search_by_note(&txns, "TEAM")), vec!["a", "c"]);
    assert_eq!(ids(search_by_note(&txns, "")), vec!["a", "b", "c"]);
    assert!(search_by_note(&txns, "coffee").is_empty());
}

#[test]
fn list_filter_takes_latest() {
    let f = latest_filter(Some(TransactionType::Income), 100);
    assert_eq!(f.txn_type, Some(TransactionType::Income));
    assert_eq!(f.limit, Some(100));
    assert_eq!(f.wallet_id, None);
}

fn holding(qty: i128, avg: i128, last: Option<i128>) -> Holding {
    Holding {
        id: "h".into(),
        wallet_id: "w1".into(),
        symbol: "S".into(),
        name: None,
        asset_type: AssetType::Stock,
        quantity: d(qty, 0),
        avg_buy_price: d(avg, 0),
        last_price: last.map(|l| d(l, 0)),
        last_price_at: None,
        created_at: 0,
    }
}

#[test]
fn portfolio_totals_need_every_price() {
    let priced = HoldingService::portfolio_summary(vec![holding(10, 100, Some(110)), holding(1, 50, Some(40))]);
    let t = portfolio_totals(&priced).unwrap();
    assert_eq!(norm(t.cost_basis), (1050, 0));
    assert_eq!(t.market_value.map(norm), Some((1140, 0)));
    assert_eq!(t.unrealized_pnl.map(norm), Some((90, 0)));
    let mixed = HoldingService::portfolio_summary(vec![holding(10, 100, Some(110)), holding(1, 50, None)]);
    let t = portfolio_totals(&mixed).unwrap();
    assert_eq!(norm(t.cost_basis), (1050, 0));
    assert_eq!(t.market_value, None);
    assert_eq!(t.unrealized_pnl, None);
    let t = portfolio_totals(&vec![]).unwrap();
    assert_eq!(norm(t.cost_basis), (0, 0));
    assert_eq!(t.market_value, None);
}

#[test]
fn chart_scale_is_largest_amount_and_at_least_one() {
    let months = vec![
        ReportService::monthly_summary(2024, 1, d(300, 0), d(450, 0)),
        ReportService::monthly_summary(2024, 2, d(200, 0), d(100, 0)),
    ];
    assert_eq!(norm(chart_max(&months)), (450, 0));
    assert_eq!(chart_max(&vec![]), d(1, 0));
    let small = vec![ReportService::monthly_summary(2024, 1, d(5, 1), d(0, 0))];
    assert_eq!(chart_max(&small), d(1, 0));
}

#[test]
fn backup_summary_and_restorable_categories() {
    let cat = |id: &str, system: bool| Category {
        id: id.into(),
        name: id.into(),
        icon: None,
        color: None,
        budget_amount: None,
        parent_id: None,
        sort_order: 0,
        is_system: system,
        created_at: 0,
    };
    let data = BackupData::new(
        42,
        vec![],
        vec![],
        vec![cat("sys", true), cat("mine", false), cat("also", false)],
        vec![txn("t", None)],
        vec![],
        vec![("pin_hash".to_string(), "x".to_string())],
    );
    assert_eq!(data.app_version, "1.0.0");
    assert_eq!(data.exported_at, 42);
    assert_eq!(
        data.import_summary(),
        "0 wallets, 0 holdings, 3 categories, 1 transactions, 0 members, 1 settings"
    );
    let ids: Vec<String> = data.restorable_categories().into_iter().map(|c| c.id).collect();
    assert_eq!(ids, vec!["mine", "also"]);
}

#[test]
fn backups_wait_for_the_pin() {
    let export = PendingAction::Export;
    assert_eq!(
        backup_step(None, BackupEvent::Request(export.clone())),
        (Some(export.clone()), BackupStep::AskPin)
    );
    assert_eq!(
        backup_step(Some(export.clone()), BackupEvent::PinChecked(PinCheck::Incorrect)),
        (Some(export.clone()), BackupStep::Nothing)
    );
    assert_eq!(
        backup_step(Some(export.clone()), BackupEvent::PinChecked(PinCheck::Failed("db".into()))),
        (Some(export.clone()), BackupStep::Nothing)
    );
    assert_eq!(
        backup_step(Some(export.clone()), BackupEvent::PinChecked(PinCheck::Accepted)),
        (None, BackupStep::Run(export.clone()))
    );
    assert_eq!(
        backup_step(None, BackupEvent::PinChecked(PinCheck::Accepted)),
        (None, BackupStep::Nothing)
    );
    let import = PendingAction::ImportFromFile("a.bk".into());
    assert_eq!(backup_step(Some(import), BackupEvent::Cancel), (None, BackupStep::Nothing));
    assert_eq!(
        backup_step(Some(export), BackupEvent::Request(PendingAction::ImportFileFromPicker)),
        (Some(PendingAction::ImportFileFromPicker), BackupStep::AskPin)
    );
}

#[test]
fn backup_file_names_and_script_escaping() {
    assert_eq!(numbered_name("2024_01_01", 2, "bk"), "2024_01_01_2.bk");
    assert_eq!(escape_js(r"it's a\b"), r"it\'s a\\b");
    assert_eq!(escape_js("plain"), "plain");
}

#[test]
fn month_picker_steps_across_years() {
    assert_eq!(previous_month(2024, 1), (2023, 12));
    assert_eq!(previous_month(2024, 5), (2024, 4));
    assert_eq!(following_month(2023, 12), (2024, 1));
    assert_eq!(following_month(2024, 5), (2024, 6));
    for m in 1..=12 {
        let (y, p) = previous_month(2024, m);
        assert_eq!(following_month(y, p), (2024, m));
    }
}

#[test]
fn wallet_list_groups() {
    let w = |id: &str, t: WalletType| Wallet {
        id: id.into(),
        name: id.into(),
        wallet_type: t,
        currency: Currency::VND,
        balance: d(1, 0),
        broker: None,
        icon: None,
        color: None,
        is_active: true,
        sort_order: 0,
        created_at: 0,
    };
    let all = vec![w("a", WalletType::Cash), w("b", WalletType::Investment), w("c", WalletType::Bank)];
    let (regular, investment) = group_wallets(&all);
    assert_eq!(regular.iter().map(|x| x.id.as_str()).collect::<Vec<_>>(), vec!["a", "c"]);
    assert_eq!(investment.iter().map(|x| x.id.as_str()).collect::<Vec<_>>(), vec!["b"]);
}

#[test]
fn investment_report_totals() {
    let hs = vec![holding(10, 100, Some(110)), holding(1, 50, None)];
    let items = ReportService::investment_pnl(&hs, &vec![d(5, 0), d(-2, 0)]);
    let t = investment_totals(&items).unwrap();
    assert_eq!(norm(t.cost_basis), (1050, 0));
    assert_eq!(norm(t.market_value), (1100, 0));
    assert_eq!(norm(t.unrealized_pnl), (100, 0));
    assert_eq!(norm(t.realized_pnl), (3, 0));
}

#[test]
fn spending_total_and_budget_use() {
    let cats = vec![Category {
        id: "food".into(),
        name: "Food".into(),
        icon: None,
        color: None,
        budget_amount: Some(d(200, 0)),
        parent_id: None,
        sort_order: 0,
        is_system: false,
        created_at: 0,
    }];
    let items = ReportService::expense_by_category(
        vec![("food".to_string(), d(150, 0)), ("x".to_string(), d(50, 0))],
        d(200, 0),
        &cats,
    );
    assert_eq!(spending_total(&items).map(norm), Some((200, 0)));
    assert_eq!(budget_used_pct(&items[0]).unwrap().map(norm), Some((75, 0)));
    assert_eq!(budget_used_pct(&items[1]), Some(None));
}

#[test]
fn wallet_history_shows_signs() {
    let f = wallet_history_filter("w1", 50);
    assert_eq!(f.wallet_id.as_deref(), Some("w1"));
    assert_eq!(f.limit, Some(50));
    assert_eq!(history_sign(TransactionType::Income), "+");
    assert_eq!(history_sign(TransactionType::InvestSell), "+");
    assert_eq!(history_sign(TransactionType::Expense), "-");
    assert_eq!(history_sign(TransactionType::Transfer), "-");
    assert_eq!(history_sign(TransactionType::InvestBuy), "-");
}

#[test]
fn previews_cut_long_text() {
    assert_eq!(preview("12 Tran Phu", 35), "12 Tran Phu");
    assert_eq!(preview("123 Main Street, District 1", 10), "123 Main S\u{2026}");
    // "H" takes one byte and "à" two: the first three bytes are "Hà"
    assert_eq!(preview("Hà Nội", 3), "Hà\u{2026}");
}

#[test]
fn category_list_groups() {
    let cat = |id: &str, system: bool| Category {
        id: id.into(),
        name: id.into(),
        icon: None,
        color: None,
        budget_amount: None,
        parent_id: None,
        sort_order: 0,
        is_system: system,
        created_at: 0,
    };
    let (user, system) = group_categories(&vec![cat("a", true), cat("b", false), cat("c", true)]);
    assert_eq!(user.iter().map(|c| c.id.as_str()).collect::<Vec<_>>(), vec!["b"]);
    assert_eq!(system.iter().map(|c| c.id.as_str()).collect::<Vec<_>>(), vec!["a", "c"]);
}

#[test]
fn transaction_form_dates_by_the_date_field() {
    let f = form(TransactionType::Income);
    let t = f.submit(42).unwrap().unwrap();
    assert_eq!(Some(t.txn_date), date_str_to_ts("2024-03-15"));
    let mut undated = form(TransactionType::Income);
    undated.txn_date = "15/03/2024".into();
    assert_eq!(undated.submit(42).unwrap().unwrap().txn_date, 42);
    undated.txn_date = String::new();
    assert_eq!(undated.submit(7).unwrap().unwrap().txn_date, 7);
}

#[test]
fn date_text_parsing_and_writing() {
    assert_eq!(date_str_to_ts("2024-02-30"), None);
    assert_eq!(date_str_to_ts("2024-13-01"), None);
    assert_eq!(date_str_to_ts("yesterday"), None);
    assert_eq!(date_str_to_ts(""), None);
    let noon = date_str_to_ts("2024-03-15").unwrap();
    let day = 86400;
    assert!((noon - 1710504000).abs() <= day);
    assert_eq!(ts_to_date_str(noon), "15/03/2024");
    assert_eq!(format_date(2024, 3, 5), "05/03/2024");
    assert_eq!(format_date(987, 12, 31), "31/12/0987");
    assert_eq!(format_date(-44, 3, 15), "15/03/-0044");
    assert_eq!(format_date(12345, 1, 1), "01/01/+12345");
}
