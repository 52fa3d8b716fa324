use family_finance::error::AppError;
use family_finance::models::{Family, Member, MemberRole, TransactionType};
use family_finance::repository::category_repo::CategoryRepo;
use family_finance::repository::records::{category_deleted, family_deleted, transaction_deleted, HoldingRepo, MemberRepo, WalletRepo};
use family_finance::repository::family_repo::FamilyRepo;
use family_finance::repository::schema::{pending_migrations, SCHEMA_VERSION};
use family_finance::repository::settings_repo::SettingsRepo;
use family_finance::repository::transaction_repo::{month_bounds, SqlValue, TransactionRepo, TxnFilter};

const COLUMNS: &str = "id, txn_type, wallet_id, amount, currency,\n         income_type, category_id,\n         to_wallet_id, to_amount, to_currency,\n         holding_id, asset_quantity, asset_price,\n         note, txn_date, created_at";

#[test]
fn month_bounds_of_january_2024() {
    assert_eq!(month_bounds(2024, 1), (1704067200, 1706745599));
}

#[test]
fn month_bounds_of_december_reach_new_year() {
    let (start, end) = month_bounds(2023, 12);
    assert_eq!(start, 1701388800);
    assert_eq!(end + 1, month_bounds(2024, 1).0);
}

#[test]
fn consecutive_months_tile_time() {
    let mut prev_end = month_bounds(2023, 1).1;
    for m in 2..=12 {
        let (s, e) = month_bounds(2023, m);
        assert_eq!(s, prev_end + 1);
        assert_eq!(s % 86400, 0);
        prev_end = e;
    }
    // leap February
    let (s, e) = month_bounds(2024, 2);
    assert_eq!(e + 1 - s, 29 * 86400);
}

#[test]
fn list_query_without_filter() {
    let (sql, params) = TransactionRepo::list_query(&TxnFilter::default());
    assert_eq!(
        sql,
        format!("SELECT {COLUMNS} FROM transactions  ORDER BY txn_date DESC, created_at DESC ")
    );
    assert!(params.is_empty());
}

#[test]
fn list_query_numbers_its_parameters() {
    let filter = TxnFilter {
        wallet_id: Some("w1".into()),
        category_id: None,
        txn_type: Some(TransactionType::Expense),
        date_from: Some(10),
        date_to: Some(20),
        limit: Some(100),
        offset: Some(5),
    };
    let (sql, params) = TransactionRepo::list_query(&filter);
    assert_eq!(
        sql,
        format!(
            "SELECT {COLUMNS} FROM transactions WHERE (wallet_id = ?1 OR to_wallet_id = ?1) AND txn_type = ?2 AND txn_date >= ?3 AND txn_date <= ?4 ORDER BY txn_date DESC, created_at DESC LIMIT 100 OFFSET 5"
        )
    );
    assert_eq!(
        params,
        vec![
            SqlValue::Text("w1".into()),
            SqlValue::Text("expense".into()),
            SqlValue::Integer(10),
            SqlValue::Integer(20),
        ]
    );
}

#[test]
fn list_query_offset_needs_a_limit() {
    let filter = TxnFilter { category_id: Some("food".into()), offset: Some(3), ..TxnFilter::default() };
    let (sql, params) = TransactionRepo::list_query(&filter);
    assert_eq!(
        sql,
        format!("SELECT {COLUMNS} FROM transactions WHERE category_id = ?1 ORDER BY txn_date DESC, created_at DESC ")
    );
    assert_eq!(params, vec![SqlValue::Text("food".into())]);
}

#[test]
fn month_filter_spans_the_month() {
    let f = TransactionRepo::month_filter(2024, 1);
    assert_eq!(f.date_from, Some(1704067200));
    assert_eq!(f.date_to, Some(1706745599));
    assert_eq!(f.limit, None);
}

#[test]
fn pending_migrations_up_to_newest() {
    assert_eq!(SCHEMA_VERSION, 3);
    assert_eq!(pending_migrations(0), vec![1, 2, 3]);
    assert_eq!(pending_migrations(1), vec![2, 3]);
    assert!(pending_migrations(3).is_empty());
    assert!(pending_migrations(7).is_empty());
}

#[test]
fn category_in_use_cannot_be_deleted() {
    assert_eq!(CategoryRepo::check_deletable("food", 0), Ok(()));
    assert_eq!(
        CategoryRepo::check_deletable("food", 3),
        Err(AppError::Validation(
            "Category 'food' is used by 3 transaction(s) and cannot be deleted".into()
        ))
    );
}

fn member(id: &str, family: Option<&str>) -> Member {
    Member {
        id: id.into(),
        family_id: family.map(|f| f.to_string()),
        full_name: id.into(),
        birth_date: None,
        gender: None,
        phone: None,
        id_number: None,
        id_issue_date: None,
        id_issue_place: None,
        address: None,
        role: MemberRole::Member,
        avatar_emoji: None,
        note: None,
        created_at: 0,
    }
}

#[test]
fn families_listed_with_their_members() {
    let fams = vec![
        Family { id: "f1".into(), name: "Nguyen".into(), common_address: None, note: None, created_at: 0 },
        Family { id: "f2".into(), name: "Tran".into(), common_address: None, note: None, created_at: 0 },
    ];
    let ms = vec![member("a", Some("f2")), member("b", Some("f1")), member("c", None), member("d", Some("f2"))];
    let out = FamilyRepo::list_with_members(fams.clone(), &ms);
    assert_eq!(out.len(), 2);
    assert_eq!(out[0].0, fams[0]);
    assert_eq!(out[0].1.iter().map(|m| m.id.as_str()).collect::<Vec<_>>(), vec!["b"]);
    assert_eq!(out[1].1.iter().map(|m| m.id.as_str()).collect::<Vec<_>>(), vec!["a", "d"]);
}

#[test]
fn pin_hash_then_check_same_pin() {
    let h = SettingsRepo::hash_pin("1234").unwrap();
    assert_ne!(h, "1234");
    assert_eq!(SettingsRepo::check_pin("1234", Some(h)), Ok(true));
}

#[test]
fn pin_hash_then_check_other_pin() {
    let h = SettingsRepo::hash_pin("1234").unwrap();
    assert_eq!(SettingsRepo::check_pin("4321", Some(h)), Ok(false));
}

#[test]
fn pin_check_without_pin_or_with_bad_hash() {
    assert_eq!(SettingsRepo::check_pin("1234", None), Ok(false));
    assert!(matches!(
        SettingsRepo::check_pin("1234", Some("not a hash".into())),
        Err(AppError::Validation(_))
    ));
}

#[test]
fn rows_changed_decide_not_found() {
    assert_eq!(WalletRepo::balance_added("w1", 1), Ok(()));
    assert_eq!(WalletRepo::balance_added("w1", 0), Err(AppError::NotFound("wallet 'w1'".into())));
    assert_eq!(MemberRepo::deleted("m1", 0), Err(AppError::NotFound("member 'm1'".into())));
    assert_eq!(MemberRepo::deleted("m1", 2), Ok(()));
    assert_eq!(transaction_deleted("t1", 0), Err(AppError::NotFound("transaction 't1'".into())));
    assert_eq!(family_deleted("f1", 0), Err(AppError::NotFound("family 'f1'".into())));
    assert_eq!(
        category_deleted("c1", 0),
        Err(AppError::NotFound("category 'c1' (or it is a system category)".into()))
    );
    assert_eq!(category_deleted("c1", 1), Ok(()));
}

#[test]
fn symbols_are_stored_uppercase() {
    assert_eq!(HoldingRepo::symbol_key("fpt"), "FPT");
    assert_eq!(HoldingRepo::symbol_key("Btc"), "BTC");
}

#[test]
fn default_categories_are_seeded_only_once() {
    let first = CategoryRepo::seed_plan(0);
    assert_eq!(first.len(), 10);
    assert_eq!(first[0].name, "Food & Drinks");
    assert!(CategoryRepo::seed_plan(3).is_empty());
}

#[test]
fn february_has_a_leap_day_by_the_gregorian_rule() {
    let days = |y: i32| {
        let (a, b) = month_bounds(y, 2);
        (b - a + 1) / 86400
    };
    assert_eq!(days(2024), 29);
    assert_eq!(days(2023), 28);
    assert_eq!(days(1900), 28);
    assert_eq!(days(2000), 29);
    assert_eq!(month_bounds(1969, 12).0, -2678400);
    assert_eq!(month_bounds(2024, 2), (1706745600, 1709251199));
}
