//! Listing transactions: the query a filter stands for, and month bounds.
use vstd::prelude::*;

use crate::models::transaction::TransactionType;
use crate::text::{nat_digits, push_digits};

verus! {

/// Which transactions to list.
#[derive(Debug, Clone)]
pub struct TxnFilter {
    /// Transactions out of, or (for transfers) into, this wallet.
    pub wallet_id: Option<String>,
    pub category_id: Option<String>,
    pub txn_type: Option<TransactionType>,
    /// Earliest transaction date, inclusive.
    pub date_from: Option<i64>,
    /// Latest transaction date, inclusive.
    pub date_to: Option<i64>,
    pub limit: Option<u32>,
    pub offset: Option<u32>,
}

impl Default for TxnFilter {
    fn default() -> (r: TxnFilter)
        ensures
            r.wallet_id is None,
            r.category_id is None,
            r.txn_type is None,
            r.date_from is None,
            r.date_to is None,
            r.limit is None,
            r.offset is None,
    {
        TxnFilter {
            wallet_id: None,
            category_id: None,
            txn_type: None,
            date_from: None,
            date_to: None,
            limit: None,
            offset: None,
        }
    }
}

/// A value bound to a query parameter.
#[derive(Debug, Clone, PartialEq)]
pub enum SqlValue {
    Text(String),
    Integer(i64),
}

/// A query parameter, with text as its characters.
pub enum SqlValueView {
    Text(Seq<char>),
    Integer(i64),
}

impl View for SqlValue {
    type V = SqlValueView;

    open spec fn view(&self) -> SqlValueView {
        match self {
            SqlValue::Text(s) => SqlValueView::Text(s@),
            SqlValue::Integer(i) => SqlValueView::Integer(*i),
        }
    }
}

/// The columns a transaction is read from.
pub open spec fn select_columns() -> Seq<char> {
    "id, txn_type, wallet_id, amount, currency,\n         income_type, category_id,\n         to_wallet_id, to_amount, to_currency,\n         holding_id, asset_quantity, asset_price,\n         note, txn_date, created_at"@
}

/// `?<n>`, the placeholder of the `n`-th parameter.
pub open spec fn placeholder(n: nat) -> Seq<char> {
    "?"@ + nat_digits(n)
}

/// The conditions of a filter, in order, each naming its own parameter: the
/// `k`-th condition uses placeholder `k + 1`.
pub open spec fn filter_conditions(f: TxnFilter) -> Seq<Seq<char>> {
    let c0: Seq<Seq<char>> = Seq::empty();
    let c1 = if f.wallet_id is Some {
        c0.push(
            "(wallet_id = "@ + placeholder(c0.len() + 1) + " OR to_wallet_id = "@ + placeholder(
                c0.len() + 1,
            ) + ")"@,
        )
    } else {
        c0
    };
    let c2 = if f.category_id is Some {
        c1.push("category_id = "@ + placeholder(c1.len() + 1))
    } else {
        c1
    };
    let c3 = if f.txn_type is Some {
        c2.push("txn_type = "@ + placeholder(c2.len() + 1))
    } else {
        c2
    };
    let c4 = if f.date_from is Some {
        c3.push("txn_date >= "@ + placeholder(c3.len() + 1))
    } else {
        c3
    };
    if f.date_to is Some {
        c4.push("txn_date <= "@ + placeholder(c4.len() + 1))
    } else {
        c4
    }
}

/// The parameters of a filter, in the order of its conditions.
pub open spec fn filter_params(f: TxnFilter) -> Seq<SqlValueView> {
    let p0: Seq<SqlValueView> = Seq::empty();
    let p1 = match f.wallet_id {
        Some(w) => p0.push(SqlValueView::Text(w@)),
        None => p0,
    };
    let p2 = match f.category_id {
        Some(c) => p1.push(SqlValueView::Text(c@)),
        None => p1,
    };
    let p3 = match f.txn_type {
        Some(t) => p2.push(SqlValueView::Text(t.text())),
        None => p2,
    };
    let p4 = match f.date_from {
        Some(d) => p3.push(SqlValueView::Integer(d)),
        None => p3,
    };
    match f.date_to {
        Some(d) => p4.push(SqlValueView::Integer(d)),
        None => p4,
    }
}

/// The parts joined with `sep` between each two.
pub open spec fn join(parts: Seq<Seq<char>>, sep: Seq<char>) -> Seq<char>
    decreases parts.len(),
{
    if parts.len() == 0 {
        Seq::empty()
    } else if parts.len() == 1 {
        parts[0]
    } else {
        join(parts.drop_last(), sep) + sep + parts.last()
    }
}

/// `WHERE` with the conditions joined by `AND`, or nothing without any.
pub open spec fn where_clause(f: TxnFilter) -> Seq<char> {
    let cs = filter_conditions(f);
    if cs.len() == 0 {
        Seq::empty()
    } else {
        "WHERE "@ + join(cs, " AND "@)
    }
}

/// `LIMIT l` and `OFFSET o` (an offset only together with a limit).
pub open spec fn limit_clause(f: TxnFilter) -> Seq<char> {
    match (f.limit, f.offset) {
        (Some(l), Some(o)) => "LIMIT "@ + nat_digits(l as nat) + " OFFSET "@ + nat_digits(o as nat),
        (Some(l), None) => "LIMIT "@ + nat_digits(l as nat),
        _ => Seq::empty(),
    }
}

/// The query listing the transactions of a filter, newest first.
pub open spec fn list_sql(f: TxnFilter) -> Seq<char> {
    "SELECT "@ + select_columns() + " FROM transactions "@ + where_clause(f)
        + " ORDER BY txn_date DESC, created_at DESC "@ + limit_clause(f)
}

/// Days from 1970-01-01 to the first day of `month` (1-12) of `year`, in the
/// proleptic Gregorian calendar: years are counted from March, so that the
/// leap day closes the year, and the month's first day falls
/// `(153 * (month - 3 mod 12) + 2) / 5` days after March 1.
#[verifier::opaque]
pub open spec fn days_from_epoch(year: int, month: int) -> int {
    let y = if month <= 2 {
        year - 1
    } else {
        year
    };
    let from_march = if month > 2 {
        month - 3
    } else {
        month + 9
    };
    365 * y + y / 4 - y / 100 + y / 400 + (153 * from_march + 2) / 5 - 719468
}

/// Timestamp (seconds, UTC) of midnight on the first day of a month.
pub open spec fn utc_month_start_timestamp(year: i32, month: u32) -> int {
    86400 * days_from_epoch(year as int, month as int)
}

/// Whether `year` has a 29th of February.
pub open spec fn is_leap_year(year: int) -> bool {
    (year % 4 == 0 && year % 100 != 0) || year % 400 == 0
}

/// The number of days of `month` (1-12) in `year`.
pub open spec fn days_in_month(year: int, month: int) -> int {
    if month == 2 {
        if is_leap_year(year) {
            29
        } else {
            28
        }
    } else if month == 4 || month == 6 || month == 9 || month == 11 {
        30
    } else {
        31
    }
}

/// The year chrono's `NaiveDate` can hold.
pub open spec fn supported_year(year: int) -> bool {
    -262143 <= year <= 262142
}

/// The month after `(year, month)`.
pub open spec fn next_month(year: int, month: int) -> (int, int) {
    if month == 12 {
        (year + 1, 1)
    } else {
        (year, month + 1)
    }
}

/// The first and last second of a month: from its first midnight up to one
/// second before the next month's.
pub open spec fn month_bounds_spec(year: i32, month: u32) -> (int, int) {
    let (ny, nm) = next_month(year as int, month as int);
    (utc_month_start_timestamp(year, month), utc_month_start_timestamp(ny as i32, nm as u32) - 1)
}

/// `NaiveDate::from_ymd_opt(year, month, 1)` at 00:00:00, as a UTC timestamp
/// (`Utc.from_utc_datetime(..).timestamp()`). Trusted: chrono counts days in
/// the proleptic Gregorian calendar, so the result is 86400 seconds for each
/// day from 1970-01-01 to that date (`utc_month_start_timestamp`).
#[verifier::external_body]
fn utc_month_start(year: i32, month: u32) -> (r: i64)
    requires
        supported_year(year as int),
        1 <= month <= 12,
    ensures
        r == utc_month_start_timestamp(year, month),
{
    let date = chrono::NaiveDate::from_ymd_opt(year, month, 1).unwrap();
    <chrono::Utc as chrono::TimeZone>::from_utc_datetime(
        &chrono::Utc,
        &date.and_hms_opt(0, 0, 0).unwrap(),
    ).timestamp()
}

proof fn lemma_month_length(year: int, month: int)
    requires
        1 <= month <= 12,
        -262143 <= year <= 262142,
    ensures
        -200000000 < days_from_epoch(year, month) < 200000000,
        days_from_epoch(next_month(year, month).0, next_month(year, month).1) - days_from_epoch(
            year,
            month,
        ) == days_in_month(year, month),
{
    reveal(days_from_epoch);
    if month == 2 {
        let y = year - 1;
        assert(year / 4 - y / 4 == if year % 4 == 0 { 1int } else { 0 });
        assert(year / 100 - y / 100 == if year % 100 == 0 { 1int } else { 0 });
        assert(year / 400 - y / 400 == if year % 400 == 0 { 1int } else { 0 });
        if year % 100 == 0 {
            assert(year % 4 == 0);
        }
        if year % 400 == 0 {
            assert(year % 100 == 0);
        }
    }
}

/// Returns (start_ts, end_ts) in Unix seconds for the given month.
pub fn month_bounds(year: i32, month: u32) -> (r: (i64, i64))
    requires
        1 <= month <= 12,
        supported_year(year as int),
        month == 12 ==> supported_year(year + 1),
    ensures
        r.0 == month_bounds_spec(year, month).0,
        r.1 == month_bounds_spec(year, month).1,
        r.0 % 86400 == 0,
        // the month lasts its number of days, to the second
        r.1 - r.0 + 1 == 86400 * days_in_month(year as int, month as int),
        // the month ends one second before the next one starts
        r.1 + 1 == month_bounds_spec(
            next_month(year as int, month as int).0 as i32,
            next_month(year as int, month as int).1 as u32,
        ).0,
{
    proof {
        lemma_month_length(year as int, month as int);
    }
    let start = utc_month_start(year, month);
    let (end_year, end_month) = if month == 12 {
        (year + 1, 1)
    } else {
        (year, month + 1)
    };
    let end = utc_month_start(end_year, end_month);
    (start, end - 1)
}

/// Builds the listing queries.
pub struct TransactionRepo;

fn push_placeholder(s: &mut String, n: u64)
    ensures
        final(s)@ == old(s)@ + placeholder(n as nat),
{
    proof {
        reveal_strlit("?");
    }
    s.append("?");
    push_digits(s, n);
    assert(final(s)@ =~= old(s)@ + placeholder(n as nat));
}

fn join_conditions(parts: &Vec<String>) -> (r: String)
    ensures
        r@ == join(parts@.map_values(|p: String| p@), " AND "@),
{
    let ghost views = parts@.map_values(|p: String| p@);
    let mut s = String::new();
    let mut i: usize = 0;
    while i < parts.len()
        invariant
            i <= parts.len(),
            views == parts@.map_values(|p: String| p@),
            s@ == join(views.subrange(0, i as int), " AND "@),
        decreases parts.len() - i,
    {
        let ghost pre = views.subrange(0, i + 1);
        assert(pre.drop_last() =~= views.subrange(0, i as int));
        assert(pre.last() == parts@[i as int]@);
        if i > 0 {
            s.append(" AND ");
        } else {
            assert(views.subrange(0, 0) =~= Seq::<Seq<char>>::empty());
        }
        s.append(parts[i].as_str());
        i = i + 1;
    }
    assert(views.subrange(0, parts.len() as int) =~= views);
    s
}

fn filter_parts(filter: &TxnFilter) -> (r: (Vec<String>, Vec<SqlValue>))
    ensures
        r.0@.map_values(|p: String| p@) == filter_conditions(*filter),
        r.1@.map_values(|v: SqlValue| v@) == filter_params(*filter),
{
    let mut conditions: Vec<String> = Vec::new();
    let mut params: Vec<SqlValue> = Vec::new();
    let ghost f = *filter;
    proof {
        reveal_strlit("(wallet_id = ");
        reveal_strlit(" OR to_wallet_id = ");
        reveal_strlit(")");
    }
    if let Some(w) = &filter.wallet_id {
        let n = (params.len() + 1) as u64;
        let mut c = "(wallet_id = ".to_owned();
        push_placeholder(&mut c, n);
        c.append(" OR to_wallet_id = ");
        push_placeholder(&mut c, n);
        c.append(")");
        conditions.push(c);
        params.push(SqlValue::Text(w.clone()));
    }
    let ghost c1 = conditions@.map_values(|p: String| p@);
    let ghost p1 = params@.map_values(|v: SqlValue| v@);
    assert(conditions.len() == params.len());
    if let Some(cat) = &filter.category_id {
        let mut c = "category_id = ".to_owned();
        push_placeholder(&mut c, (params.len() + 1) as u64);
        conditions.push(c);
        params.push(SqlValue::Text(cat.clone()));
    }
    let ghost c2 = conditions@.map_values(|p: String| p@);
    let ghost p2 = params@.map_values(|v: SqlValue| v@);
    if let Some(t) = &filter.txn_type {
        let mut c = "txn_type = ".to_owned();
        push_placeholder(&mut c, (params.len() + 1) as u64);
        conditions.push(c);
        params.push(SqlValue::Text(t.to_string()));
    }
    let ghost c3 = conditions@.map_values(|p: String| p@);
    let ghost p3 = params@.map_values(|v: SqlValue| v@);
    if let Some(from) = filter.date_from {
        let mut c = "txn_date >= ".to_owned();
        push_placeholder(&mut c, (params.len() + 1) as u64);
        conditions.push(c);
        params.push(SqlValue::Integer(from));
    }
    let ghost c4 = conditions@.map_values(|p: String| p@);
    let ghost p4 = params@.map_values(|v: SqlValue| v@);
    if let Some(to) = filter.date_to {
        let mut c = "txn_date <= ".to_owned();
        push_placeholder(&mut c, (params.len() + 1) as u64);
        conditions.push(c);
        params.push(SqlValue::Integer(to));
    }
    assert(conditions@.map_values(|p: String| p@) =~= filter_conditions(f));
    assert(params@.map_values(|v: SqlValue| v@) =~= filter_params(f));
    (conditions, params)
}

impl TransactionRepo {
    /// The query, and its parameters, that lists the transactions matching
    /// `filter`, newest first (by date, then by creation time).
    #[verifier::rlimit(40)]
    pub fn list_query(filter: &TxnFilter) -> (r: (String, Vec<SqlValue>))
        ensures
            r.0@ == list_sql(*filter),
            r.1@.map_values(|v: SqlValue| v@) == filter_params(*filter),
    {
        let (conditions, params) = filter_parts(filter);
        let mut sql = "SELECT ".to_owned();
        sql.append(
            "id, txn_type, wallet_id, amount, currency,\n         income_type, category_id,\n         to_wallet_id, to_amount, to_currency,\n         holding_id, asset_quantity, asset_price,\n         note, txn_date, created_at",
        );
        sql.append(" FROM transactions ");
        if conditions.len() > 0 {
            sql.append("WHERE ");
            let joined = join_conditions(&conditions);
            sql.append(joined.as_str());
        }
        sql.append(" ORDER BY txn_date DESC, created_at DESC ");
        match (filter.limit, filter.offset) {
            (Some(l), Some(o)) => {
                sql.append("LIMIT ");
                push_digits(&mut sql, l as u64);
                sql.append(" OFFSET ");
                push_digits(&mut sql, o as u64);
            },
            (Some(l), None) => {
                sql.append("LIMIT ");
                push_digits(&mut sql, l as u64);
            },
            _ => {},
        }
        assert(sql@ =~= list_sql(*filter));
        (sql, params)
    }

    /// The filter of the transactions dated within a month.
    pub fn month_filter(year: i32, month: u32) -> (r: TxnFilter)
        requires
            1 <= month <= 12,
            supported_year(year as int),
            month == 12 ==> supported_year(year + 1),
        ensures
            r.date_from matches Some(a) && a == month_bounds_spec(year, month).0,
            r.date_to matches Some(b) && b == month_bounds_spec(year, month).1,
            r.wallet_id is None,
            r.category_id is None,
            r.txn_type is None,
            r.limit is None,
            r.offset is None,
    {
        let (from, to) = month_bounds(year, month);
        TxnFilter {
            wallet_id: None,
            category_id: None,
            txn_type: None,
            date_from: Some(from),
            date_to: Some(to),
            limit: None,
            offset: None,
        }
    }
}

} // verus!
