//! How amounts and dates are written for display.
use vstd::prelude::*;

use crate::text::{digit_char, int_text, nat_digits, push_digits, push_int};

verus! {

/// Digits with a `.` between each group of three, counted from the right.
pub open spec fn group_thousands(d: Seq<char>) -> Seq<char>
    decreases d.len(),
{
    if d.len() <= 3 {
        d
    } else {
        group_thousands(d.subrange(0, d.len() - 3)) + seq!['.'] + d.subrange(
            d.len() - 3,
            d.len() as int,
        )
    }
}

/// `n` with thousands separated by dots, e.g. `-1.500.000`.
pub open spec fn thousands_text(n: int) -> Seq<char> {
    if n < 0 {
        seq!['-'] + group_thousands(nat_digits((-n) as nat))
    } else {
        group_thousands(nat_digits(n as nat))
    }
}

proof fn lemma_digits_split(n: nat)
    requires
        n >= 1000,
    ensures
        nat_digits(n) == nat_digits(n / 1000) + seq![
            digit_char(((n / 100) % 10) as int),
            digit_char(((n / 10) % 10) as int),
            digit_char((n % 10) as int),
        ],
        nat_digits(n / 1000).len() >= 1,
{
    let a = n / 10;
    let b = n / 100;
    let c = n / 1000;
    assert(a / 10 == b);
    assert(b / 10 == c);
    assert(a >= 10 && b >= 10);
    assert(nat_digits(n) == nat_digits(a).push(digit_char((n % 10) as int)));
    assert(nat_digits(a) == nat_digits(b).push(digit_char((a % 10) as int)));
    assert(nat_digits(b) == nat_digits(c).push(digit_char((b % 10) as int)));
    lemma_digits_nonempty(c);
    assert(nat_digits(n) =~= nat_digits(c) + seq![
        digit_char((b % 10) as int),
        digit_char((a % 10) as int),
        digit_char((n % 10) as int),
    ]);
}

proof fn lemma_digits_nonempty(n: nat)
    ensures
        nat_digits(n).len() >= 1,
    decreases n,
{
    if n >= 10 {
        lemma_digits_nonempty(n / 10);
    }
}

fn push_grouped(s: &mut String, n: u64)
    ensures
        final(s)@ == old(s)@ + group_thousands(nat_digits(n as nat)),
    decreases n,
{
    proof {
        reveal_strlit(".");
    }
    if n < 1000 {
        push_digits(s, n);
        proof {
            lemma_small_digits(n as nat);
        }
    } else {
        push_grouped(s, n / 1000);
        s.append(".");
        push_digits(s, (n / 100) % 10);
        push_digits(s, (n / 10) % 10);
        push_digits(s, n % 10);
        proof {
            lemma_digits_split(n as nat);
            let x = nat_digits((n / 1000) as nat);
            let y = seq![
                digit_char(((n / 100) % 10) as int),
                digit_char(((n / 10) % 10) as int),
                digit_char((n % 10) as int),
            ];
            let d = x + y;
            assert(d.subrange(0, d.len() - 3) =~= x);
            assert(d.subrange(d.len() - 3, d.len() as int) =~= y);
            assert(nat_digits(((n / 100) % 10) as nat) == seq![digit_char(((n / 100) % 10) as int)]);
            assert(nat_digits(((n / 10) % 10) as nat) == seq![digit_char(((n / 10) % 10) as int)]);
            assert(nat_digits((n % 10) as nat) == seq![digit_char((n % 10) as int)]);
        }
        assert(s@ =~= old(s)@ + group_thousands(nat_digits(n as nat)));
    }
}

proof fn lemma_small_digits(n: nat)
    requires
        n < 1000,
    ensures
        nat_digits(n).len() <= 3,
        group_thousands(nat_digits(n)) == nat_digits(n),
{
    if n >= 10 {
        let a = n / 10;
        assert(a < 100);
        assert(nat_digits(n) == nat_digits(a).push(digit_char((n % 10) as int)));
        if a >= 10 {
            assert(a / 10 < 10);
            assert(nat_digits(a) == nat_digits(a / 10).push(digit_char((a % 10) as int)));
            assert(nat_digits(a / 10).len() == 1);
        } else {
            assert(nat_digits(a).len() == 1);
        }
    } else {
        assert(nat_digits(n).len() == 1);
    }
}

/// Writes `n` with its thousands separated by dots (`1.500.000`).
pub fn format_thousands(n: i64) -> (r: String)
    requires
        n > i64::MIN,
    ensures
        r@ == thousands_text(n as int),
{
    proof {
        reveal_strlit("-");
    }
    let mut s = String::new();
    if n < 0 {
        s.append("-");
        push_grouped(&mut s, (-n) as u64);
    } else {
        push_grouped(&mut s, n as u64);
    }
    assert(s@ =~= thousands_text(n as int));
    s
}

/// The short English month names.
pub open spec fn month_names() -> Seq<Seq<char>> {
    seq![
        "Jan"@,
        "Feb"@,
        "Mar"@,
        "Apr"@,
        "May"@,
        "Jun"@,
        "Jul"@,
        "Aug"@,
        "Sep"@,
        "Oct"@,
        "Nov"@,
        "Dec"@,
    ]
}

/// `"<Mon> <year>"`, with `?` for a month beyond 12.
pub open spec fn month_label_text(year: int, month: int) -> Seq<char> {
    (if 1 <= month <= 12 {
        month_names()[month - 1]
    } else {
        "?"@
    }) + " "@ + int_text(year)
}

fn month_name(month: u32) -> (r: &'static str)
    requires
        month >= 1,
    ensures
        r@ == (if month <= 12 {
            month_names()[month - 1]
        } else {
            "?"@
        }),
{
    match month {
        1 => "Jan",
        2 => "Feb",
        3 => "Mar",
        4 => "Apr",
        5 => "May",
        6 => "Jun",
        7 => "Jul",
        8 => "Aug",
        9 => "Sep",
        10 => "Oct",
        11 => "Nov",
        12 => "Dec",
        _ => "?",
    }
}

/// A month for display, e.g. `Mar 2024`.
pub fn month_label(year: i32, month: u32) -> (r: String)
    requires
        month >= 1,
    ensures
        r@ == month_label_text(year as int, month as int),
{
    let mut s = month_name(month).to_owned().concat(" ");
    push_int(&mut s, year as i64);
    s
}

/// Seconds since the Unix epoch from a clock reading: `Ok(s)` is `s` seconds
/// after the epoch, `Err(s)` is `s` seconds before it (a negative time). A
/// reading beyond the range of `i64` is held at its bound.
pub fn clock_seconds(reading: Result<u64, u64>) -> (r: i64)
    ensures
        r == match reading {
            Ok(s) => if s <= i64::MAX {
                s as int
            } else {
                i64::MAX as int
            },
            Err(s) => if s <= i64::MAX {
                -(s as int)
            } else {
                -(i64::MAX as int)
            },
        },
{
    match reading {
        Ok(s) => if s <= 9223372036854775807u64 {
            s as i64
        } else {
            9223372036854775807i64
        },
        Err(s) => if s <= 9223372036854775807u64 {
            -(s as i64)
        } else {
            -9223372036854775807i64
        },
    }
}

/// The current time, in seconds since the Unix epoch (negative before it).
pub fn now_ts() -> (r: i64) {
    clock_seconds(system_clock_reading())
}

/// `SystemTime::now().duration_since(UNIX_EPOCH)`, in whole seconds: `Ok`
/// with the seconds since the epoch, or `Err` with the seconds before it when
/// the clock reads earlier. Nothing is stated: the result is the time of the
/// call.
#[verifier::external_body]
fn system_clock_reading() -> (r: Result<u64, u64>) {
    match std::time::SystemTime::now().duration_since(std::time::UNIX_EPOCH) {
        Ok(d) => Ok(d.as_secs()),
        Err(e) => Err(e.duration().as_secs()),
    }
}

/// `n` in decimal, zero-padded on the left to at least `width` digits.
pub open spec fn padded_digits(n: nat, width: nat) -> Seq<char> {
    let d = nat_digits(n);
    if d.len() < width {
        Seq::new((width - d.len()) as nat, |_i: int| '0') + d
    } else {
        d
    }
}

/// A year as chrono's `%Y` writes it: four digits, zero-padded, from 0 to
/// 9999; outside that range a sign, then at least four digits.
pub open spec fn year_text(y: int) -> Seq<char> {
    if 0 <= y <= 9999 {
        padded_digits(y as nat, 4)
    } else if y < 0 {
        "-"@ + padded_digits((-y) as nat, 4)
    } else {
        "+"@ + padded_digits(y as nat, 4)
    }
}

/// A date written `dd/mm/yyyy` (chrono's `%d/%m/%Y`).
pub open spec fn date_text(year: int, month: nat, day: nat) -> Seq<char> {
    padded_digits(day, 2) + "/"@ + padded_digits(month, 2) + "/"@ + year_text(year)
}

fn push_padded(s: &mut String, n: u64, width: usize)
    ensures
        final(s)@ == old(s)@ + padded_digits(n as nat, width as nat),
{
    let mut digits = String::new();
    push_digits(&mut digits, n);
    assert(digits@ =~= nat_digits(n as nat));
    let len = digits.as_str().unicode_len();
    let mut k: usize = 0;
    if len < width {
        while k < width - len
            invariant
                len < width,
                k <= width - len,
                s@ == old(s)@ + Seq::new(k as nat, |_i: int| '0'),
            decreases width - len - k,
        {
            proof {
                reveal_strlit("0");
            }
            s.append("0");
            k = k + 1;
            assert(s@ =~= old(s)@ + Seq::new(k as nat, |_i: int| '0'));
        }
    }
    s.append(digits.as_str());
    assert(s@ =~= old(s)@ + padded_digits(n as nat, width as nat));
}

/// Writes a date as `dd/mm/yyyy`.
pub fn format_date(year: i32, month: u32, day: u32) -> (r: String)
    ensures
        r@ == date_text(year as int, month as nat, day as nat),
{
    let mut s = String::new();
    push_padded(&mut s, day as u64, 2);
    s.append("/");
    push_padded(&mut s, month as u64, 2);
    s.append("/");
    proof {
        reveal_strlit("/");
        reveal_strlit("-");
        reveal_strlit("+");
    }
    if 0 <= year && year <= 9999 {
        push_padded(&mut s, year as u64, 4);
    } else if year < 0 {
        s.append("-");
        push_padded(&mut s, (-(year as i64)) as u64, 4);
    } else {
        s.append("+");
        push_padded(&mut s, year as u64, 4);
    }
    assert(s@ =~= date_text(year as int, month as nat, day as nat));
    s
}

/// What `NaiveDate::parse_from_str(s, "%Y-%m-%d")` gives for a text, as
/// (year, month, day); `None` where the text is not such a date.
pub uninterp spec fn ymd_of_text(s: Seq<char>) -> Option<(i32, u32, u32)>;

/// `NaiveDate::parse_from_str(s, "%Y-%m-%d")`. Trusted: the result is the
/// named `ymd_of_text` of the characters (the format is fixed and no time
/// zone enters), and a date it gives has a month from 1 to 12 and a day from
/// 1 to 31, as a `NaiveDate` is always a valid date.
#[verifier::external_body]
fn parse_ymd(s: &str) -> (r: Option<(i32, u32, u32)>)
    ensures
        r == ymd_of_text(s@),
        r matches Some((y, m, d)) ==> 1 <= m <= 12 && 1 <= d <= 31,
{
    match chrono::NaiveDate::parse_from_str(s, "%Y-%m-%d") {
        Ok(d) => Some(
            (chrono::Datelike::year(&d), chrono::Datelike::month(&d), chrono::Datelike::day(&d)),
        ),
        Err(_) => None,
    }
}

/// `Local.from_local_datetime(..).single()` of noon on the given date, as a
/// timestamp. Nothing is stated: the result depends on the machine's time
/// zone (`None` where the date is invalid or its local noon is ambiguous).
#[verifier::external_body]
fn local_noon(year: i32, month: u32, day: u32) -> (r: Option<i64>) {
    let noon = chrono::NaiveDate::from_ymd_opt(year, month, day)?.and_hms_opt(12, 0, 0)?;
    match <chrono::Local as chrono::TimeZone>::from_local_datetime(&chrono::Local, &noon).single() {
        Some(t) => Some(t.timestamp()),
        None => None,
    }
}

/// `Local.timestamp_opt(ts, 0).single()`, as (year, month, day). Trusted: a
/// date it gives has a month from 1 to 12 and a day from 1 to 31; which date
/// it is depends on the machine's time zone, and is not stated.
#[verifier::external_body]
fn local_date_of(ts: i64) -> (r: Option<(i32, u32, u32)>)
    ensures
        r matches Some((y, m, d)) ==> 1 <= m <= 12 && 1 <= d <= 31,
{
    match <chrono::Local as chrono::TimeZone>::timestamp_opt(&chrono::Local, ts, 0).single() {
        Some(t) => Some(
            (chrono::Datelike::year(&t), chrono::Datelike::month(&t), chrono::Datelike::day(&t)),
        ),
        None => None,
    }
}

/// `Local::now()`, as (year, month, day). Trusted: the month is from 1 to 12
/// and the day from 1 to 31; which date it is depends on the clock and the
/// time zone, and is not stated.
#[verifier::external_body]
fn local_today() -> (r: (i32, u32, u32))
    ensures
        1 <= r.1 <= 12,
        1 <= r.2 <= 31,
{
    let now = chrono::Local::now();
    (chrono::Datelike::year(&now), chrono::Datelike::month(&now), chrono::Datelike::day(&now))
}

/// A `YYYY-MM-DD` date as the timestamp of its local noon; `None` where the
/// text is not such a date (or, in the machine's time zone, that noon does
/// not exist once).
pub fn date_str_to_ts(s: &str) -> (r: Option<i64>)
    ensures
        ymd_of_text(s@) is None ==> r is None,
{
    match parse_ymd(s) {
        Some((y, m, d)) => local_noon(y, m, d),
        None => None,
    }
}

/// A timestamp as its local date, `dd/mm/yyyy`; today's date where the
/// timestamp has none.
pub fn ts_to_date_str(ts: i64) -> (r: String)
    ensures
        exists|y: i32, m: u32, d: u32|
            1 <= m <= 12 && 1 <= d <= 31 && r@ == #[trigger] date_text(y as int, m as nat, d as nat),
{
    let (y, m, d) = match local_date_of(ts) {
        Some(date) => date,
        None => local_today(),
    };
    format_date(y, m, d)
}

/// The current local month, as (year, month 1-12).
pub fn current_month() -> (r: (i32, u32))
    ensures
        1 <= r.1 <= 12,
{
    let (y, m, _d) = local_today();
    (y, m)
}

} // verus!
