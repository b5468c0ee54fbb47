use chrono::{Datelike, Days, Months, NaiveDate};
use household_ledger::date::Date;
use household_ledger::record::dto::SearchParams;
use household_ledger::sql::make_query;
use household_ledger::text::{push_decimal, push_signed_decimal, str_equal};

#[test]
fn decimal_rendering() {
    let mut s = String::from("n=");
    push_decimal(&mut s, 0);
    assert_eq!(s, "n=0");
    let mut s = String::new();
    push_decimal(&mut s, 1234567890);
    assert_eq!(s, "1234567890");
    let mut s = String::new();
    push_decimal(&mut s, u64::MAX);
    assert_eq!(s, u64::MAX.to_string());
}

#[test]
fn signed_decimal_rendering() {
    let mut s = String::new();
    push_signed_decimal(&mut s, -42);
    assert_eq!(s, "-42");
    let mut s = String::new();
    push_signed_decimal(&mut s, i64::MIN);
    assert_eq!(s, i64::MIN.to_string());
    let mut s = String::new();
    push_signed_decimal(&mut s, 7);
    assert_eq!(s, "7");
}

#[test]
fn string_equality() {
    assert!(str_equal("abc", "abc"));
    assert!(!str_equal("abc", "abd"));
    assert!(!str_equal("abc", "ab"));
    assert!(str_equal("", ""));
    assert!(str_equal("감자탕", "감자탕"));
}

#[test]
fn make_query_numbers_the_next_placeholder() {
    let mut index: i32 = 2;
    let q = make_query(&mut index, "amount");
    assert_eq!(index, 3);
    assert_eq!(q, "amount = $3, ");
    let q = make_query(&mut index, "memo");
    assert_eq!(index, 4);
    assert_eq!(q, "memo = $4, ");
}

#[test]
fn query_string_escapes_like_the_url_crate() {
    let start = Date::from_ymd(2024, 9, 1).unwrap();
    for period in ["a b&c=d", "감자탕*-._~", "M", "%2B+/"] {
        let encoded = SearchParams::new(start, period.to_string(), Some(-7), Some(16)).encode_param();
        let mut expected = url::form_urlencoded::Serializer::new(String::new());
        expected.append_pair("start_dt", "2024-09-01");
        expected.append_pair("period", period);
        expected.append_pair("base_id", "-7");
        expected.append_pair("sub_id", "16");
        assert_eq!(encoded, expected.finish());
    }
    let encoded = SearchParams::new(start, "a b&c=d".to_string(), None, None).encode_param();
    assert_eq!(encoded, "start_dt=2024-09-01&period=a+b%26c%3Dd");
    let encoded = SearchParams::new(start, "감자탕*-._~".to_string(), None, None).encode_param();
    assert_eq!(encoded, "start_dt=2024-09-01&period=%EA%B0%90%EC%9E%90%ED%83%95*-._%7E");
}

#[test]
fn dates_are_validated() {
    assert!(Date::from_ymd(2024, 2, 29).is_some());
    assert!(Date::from_ymd(2023, 2, 29).is_none());
    assert!(Date::from_ymd(2024, 13, 1).is_none());
    assert!(Date::from_ymd(2024, 4, 31).is_none());
    let d = Date::from_ymd(2024, 9, 8).unwrap();
    assert_eq!((d.year(), d.month(), d.day()), (2024, 9, 8));
}

#[test]
fn one_month_later_clamps_to_the_end_of_the_month() {
    let d = Date::from_ymd(2024, 1, 31).unwrap().checked_add_one_month().unwrap();
    assert_eq!((d.year(), d.month(), d.day()), (2024, 2, 29));
    let d = Date::from_ymd(2024, 12, 15).unwrap().checked_add_one_month().unwrap();
    assert_eq!((d.year(), d.month(), d.day()), (2025, 1, 15));
}

#[test]
fn one_day_later() {
    let d = Date::from_ymd(2024, 12, 31).unwrap().checked_add_one_day().unwrap();
    assert_eq!((d.year(), d.month(), d.day()), (2025, 1, 1));
    let d = Date::from_ymd(2024, 2, 28).unwrap().checked_add_one_day().unwrap();
    assert_eq!((d.year(), d.month(), d.day()), (2024, 2, 29));
}

#[test]
fn date_arithmetic_agrees_with_chrono() {
    let start = NaiveDate::from_ymd_opt(2023, 3, 31).unwrap();
    let m = start.checked_add_months(Months::new(1)).unwrap();
    let n = start.checked_add_days(Days::new(1)).unwrap();
    let d = Date::from_ymd(2023, 3, 31).unwrap();
    let dm = d.checked_add_one_month().unwrap();
    let dn = d.checked_add_one_day().unwrap();
    assert_eq!((dm.year(), dm.month(), dm.day()), (m.year(), m.month(), m.day()));
    assert_eq!((dn.year(), dn.month(), dn.day()), (n.year(), n.month(), n.day()));
}

#[test]
fn last_date_has_no_next_day() {
    let last = NaiveDate::MAX;
    let d = Date::from_ymd(last.year(), last.month(), last.day()).unwrap();
    assert!(d.checked_add_one_day().is_none());
    assert!(d.checked_add_one_month().is_none());
}

#[test]
fn dates_are_written_year_month_day() {
    assert_eq!(Date::from_ymd(2024, 9, 1).unwrap().to_ymd_string(), "2024-09-01");
    assert_eq!(Date::from_ymd(987, 12, 25).unwrap().to_ymd_string(), "0987-12-25");
}

fn is_leap(y: i64) -> bool {
    (y.rem_euclid(4) == 0 && y.rem_euclid(100) != 0) || y.rem_euclid(400) == 0
}

fn month_days(y: i64, m: i64) -> i64 {
    match m {
        2 => {
            if is_leap(y) {
                29
            } else {
                28
            }
        },
        4 | 6 | 9 | 11 => 30,
        _ => 31,
    }
}

#[test]
fn calendar_rules_agree_with_chrono() {
    for y in [-262143i32, -401, -5, -4, -1, 0, 1, 1900, 1999, 2000, 2023, 2024, 2100, 9999, 10000, 262142] {
        for m in 0u32..=13 {
            for d in 0u32..=32 {
                let valid = (1..=12).contains(&m) && d >= 1 && (d as i64) <= month_days(y as i64, m as i64);
                let date = Date::from_ymd(y, m, d);
                assert_eq!(date.is_some(), valid, "{}-{}-{}", y, m, d);
                let date = match date {
                    Some(x) => x,
                    None => continue,
                };
                let (ny, nm) = if m == 12 { (y as i64 + 1, 1i64) } else { (y as i64, m as i64 + 1) };
                let nd = std::cmp::min(d as i64, month_days(ny, nm));
                let expected_month = if ny <= 262142 { Some((ny, nm, nd)) } else { None };
                let got = date.checked_add_one_month().map(|x| (x.year() as i64, x.month() as i64, x.day() as i64));
                assert_eq!(got, expected_month, "{}-{}-{}", y, m, d);
                let expected_day = if (d as i64) < month_days(y as i64, m as i64) {
                    Some((y as i64, m as i64, d as i64 + 1))
                } else if m < 12 {
                    Some((y as i64, m as i64 + 1, 1))
                } else if (y as i64) + 1 <= 262142 {
                    Some((y as i64 + 1, 1, 1))
                } else {
                    None
                };
                let got = date.checked_add_one_day().map(|x| (x.year() as i64, x.month() as i64, x.day() as i64));
                assert_eq!(got, expected_day, "{}-{}-{}", y, m, d);
                if (0..=9999).contains(&y) {
                    assert_eq!(date.to_ymd_string(), format!("{:04}-{:02}-{:02}", y, m, d));
                }
            }
        }
    }
    assert!(Date::from_ymd(-262144, 12, 31).is_none());
    assert!(Date::from_ymd(262143, 1, 1).is_none());
}

#[test]
fn years_outside_four_digits_are_written_with_a_sign() {
    assert_eq!(Date::from_ymd(-1, 1, 1).unwrap().to_ymd_string(), "-0001-01-01");
    assert_eq!(Date::from_ymd(-1234, 5, 6).unwrap().to_ymd_string(), "-1234-05-06");
    assert_eq!(Date::from_ymd(10000, 12, 31).unwrap().to_ymd_string(), "+10000-12-31");
    assert_eq!(Date::from_ymd(-262143, 1, 1).unwrap().to_ymd_string(), "-262143-01-01");
    assert_eq!(Date::from_ymd(0, 3, 4).unwrap().to_ymd_string(), "0000-03-04");
    for y in [-262143i32, -10000, -9999, -1000, -999, -1, 0, 999, 1000, 9999, 10000, 262142] {
        let d = NaiveDate::from_ymd_opt(y, 7, 8).unwrap();
        assert_eq!(Date::from_ymd(y, 7, 8).unwrap().to_ymd_string(), d.format("%Y-%m-%d").to_string());
    }
}
