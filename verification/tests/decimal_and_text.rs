use family_finance::decimal::{checked_sum, Dec};
use family_finance::display::{clock_seconds, format_thousands, month_label, now_ts};
use family_finance::text::{digits_only, int_to_text, str_eq, text_contains, text_less};

fn d(mantissa: i128, scale: u32) -> Dec {
    Dec { mantissa, scale }
}

/// The value of a decimal with trailing zeros of the fraction dropped.
fn norm(x: Dec) -> (i128, u32) {
    let (mut m, mut s) = (x.mantissa, x.scale);
    while s > 0 && m % 10 == 0 {
        m /= 10;
        s -= 1;
    }
    (m, s)
}

#[test]
fn parse_reads_decimal_text() {
    assert_eq!(Dec::parse("12.50"), Some(d(1250, 2)));
    assert_eq!(Dec::parse("-3"), Some(d(-3, 0)));
    assert_eq!(Dec::parse("0.001"), Some(d(1, 3)));
}

#[test]
fn parse_refuses_non_numbers() {
    assert_eq!(Dec::parse("abc"), None);
    assert_eq!(Dec::parse(""), None);
    assert_eq!(Dec::parse("1.2.3"), None);
}

#[test]
fn checked_add_is_exact_sum() {
    let r = d(15, 1).checked_add(d(225, 2)).unwrap();
    assert_eq!(norm(r), (375, 2));
}

#[test]
fn checked_sub_is_exact_difference() {
    let r = d(100, 0).checked_sub(d(2525, 2)).unwrap();
    assert_eq!(norm(r), (7475, 2));
}

#[test]
fn checked_mul_is_exact_product() {
    let r = d(25, 1).checked_mul(d(4, 0)).unwrap();
    assert_eq!(norm(r), (10, 0));
}

#[test]
fn checked_div_divides() {
    let r = d(10, 0).checked_div(d(4, 0)).unwrap();
    assert_eq!(norm(r), (25, 1));
}

#[test]
fn checked_div_by_zero_is_none() {
    assert_eq!(d(10, 0).checked_div(d(0, 0)), None);
}

#[test]
fn checked_mul_overflow_is_none() {
    let big = d(79228162514264337593543950335, 0);
    assert_eq!(big.checked_mul(d(10, 0)), None);
    assert_eq!(big.checked_add(d(1, 0)), None);
}

#[test]
fn neg_max_and_comparisons() {
    assert_eq!(d(15, 1).neg(), d(-15, 1));
    assert_eq!(d(1, 0).max(d(2, 0)), d(2, 0));
    assert_eq!(d(3, 0).max(d(2, 0)), d(3, 0));
    // equal values: the first one
    assert_eq!(d(1, 0).max(d(100, 2)), d(1, 0));
    assert!(d(1, 0).lt(d(101, 2)));
    assert!(!d(1, 0).lt(d(100, 2)));
    assert!(d(1, 0).le(d(100, 2)));
    assert!(d(1, 0).same_value(d(1000, 3)));
    assert!(!d(1, 0).same_value(d(1001, 3)));
}

#[test]
fn checked_sum_adds_in_order() {
    assert_eq!(norm(checked_sum(&vec![]).unwrap()), (0, 0));
    let s = checked_sum(&vec![d(1, 0), d(25, 1), d(-5, 1)]).unwrap();
    assert_eq!(norm(s), (3, 0));
    let big = d(79228162514264337593543950335, 0);
    assert_eq!(checked_sum(&vec![big, big]), None);
}

#[test]
fn format_thousands_groups_with_dots() {
    assert_eq!(format_thousands(1500000), "1.500.000");
    assert_eq!(format_thousands(-1500000), "-1.500.000");
    assert_eq!(format_thousands(0), "0");
    assert_eq!(format_thousands(999), "999");
    assert_eq!(format_thousands(1000), "1.000");
    assert_eq!(format_thousands(i64::MAX), "9.223.372.036.854.775.807");
}

#[test]
fn month_label_names_the_month() {
    assert_eq!(month_label(2024, 3), "Mar 2024");
    assert_eq!(month_label(2023, 12), "Dec 2023");
    assert_eq!(month_label(2024, 13), "? 2024");
}

#[test]
fn now_ts_is_after_2020() {
    assert!(now_ts() > 1_577_836_800);
}

#[test]
fn int_to_text_writes_decimal() {
    assert_eq!(int_to_text(-42), "-42");
    assert_eq!(int_to_text(0), "0");
    assert_eq!(int_to_text(i64::MIN), "-9223372036854775808");
}

#[test]
fn text_helpers() {
    assert!(str_eq("abc", "abc"));
    assert!(!str_eq("abc", "abd"));
    assert!(text_less("Anh", "Binh"));
    assert!(text_less("An", "Anh"));
    assert!(!text_less("Anh", "Anh"));
    assert!(!text_less("b", "B"));
    assert!(text_contains("lunch with team", "with"));
    assert!(text_contains("abc", ""));
    assert!(!text_contains("abc", "abcd"));
    assert!(!text_contains("abc", "ac"));
    assert_eq!(digits_only("12a3-4"), "1234");
    assert_eq!(digits_only("١٢x"), "");
}

#[test]
fn clock_readings_before_the_epoch_are_negative() {
    assert_eq!(clock_seconds(Ok(1_700_000_000)), 1_700_000_000);
    assert_eq!(clock_seconds(Err(86_400)), -86_400);
    assert_eq!(clock_seconds(Ok(u64::MAX)), i64::MAX);
    assert_eq!(clock_seconds(Err(u64::MAX)), -i64::MAX);
}
