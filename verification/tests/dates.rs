use chrono::NaiveDate;
use sqlable::{CalendarDate, SQLComp, ToSql};

fn literal(year: i32, month: u32, day: u32) -> String {
    CalendarDate::from_ymd(year, month, day).unwrap().to_sql()
}

#[test]
fn date_is_year_month_day_in_quotes() {
    assert_eq!(literal(2015, 9, 5), "'2015-09-05'");
    assert_eq!(literal(2024, 12, 31), "'2024-12-31'");
    assert_eq!(literal(1999, 1, 1), "'1999-01-01'");
}

#[test]
fn short_year_is_padded_to_four_digits() {
    assert_eq!(literal(0, 1, 1), "'0000-01-01'");
    assert_eq!(literal(7, 3, 4), "'0007-03-04'");
    assert_eq!(literal(999, 10, 20), "'0999-10-20'");
    assert_eq!(literal(9999, 12, 31), "'9999-12-31'");
}

#[test]
fn year_outside_four_digits_has_a_sign() {
    assert_eq!(literal(-1, 1, 1), "'-0001-01-01'");
    assert_eq!(literal(-999, 1, 1), "'-0999-01-01'");
    assert_eq!(literal(-1000, 1, 1), "'-1000-01-01'");
    assert_eq!(literal(10000, 1, 1), "'+10000-01-01'");
    assert_eq!(literal(262142, 12, 31), "'+262142-12-31'");
    assert_eq!(literal(-262143, 1, 1), "'-262143-01-01'");
}

#[test]
fn date_keeps_its_parts() {
    let d = CalendarDate::from_ymd(2015, 9, 5).unwrap();
    assert_eq!(d.ymd(), (2015, 9, 5));
}

#[test]
fn days_that_the_calendar_lacks_are_refused() {
    assert!(CalendarDate::from_ymd(2015, 3, 14).is_some());
    assert!(CalendarDate::from_ymd(2015, 0, 14).is_none());
    assert!(CalendarDate::from_ymd(2015, 13, 14).is_none());
    assert!(CalendarDate::from_ymd(2015, 1, 0).is_none());
    assert!(CalendarDate::from_ymd(2015, 1, 32).is_none());
    assert!(CalendarDate::from_ymd(2023, 4, 31).is_none());
    assert!(CalendarDate::from_ymd(2015, 2, 29).is_none());
    assert!(CalendarDate::from_ymd(2016, 2, 29).is_some());
    assert!(CalendarDate::from_ymd(1900, 2, 29).is_none());
    assert!(CalendarDate::from_ymd(2000, 2, 29).is_some());
    assert!(CalendarDate::from_ymd(-4, 2, 29).is_some());
    assert!(CalendarDate::from_ymd(-100, 2, 29).is_none());
    assert!(CalendarDate::from_ymd(-400, 2, 29).is_some());
}

#[test]
fn years_out_of_range_are_refused() {
    assert!(CalendarDate::from_ymd(262142, 12, 31).is_some());
    assert!(CalendarDate::from_ymd(262143, 1, 1).is_none());
    assert!(CalendarDate::from_ymd(-262143, 1, 1).is_some());
    assert!(CalendarDate::from_ymd(-262144, 12, 31).is_none());
    assert!(CalendarDate::from_ymd(400000, 1, 1).is_none());
    assert!(CalendarDate::from_ymd(-400000, 1, 1).is_none());
    assert!(CalendarDate::from_ymd(i32::MAX, 1, 1).is_none());
    assert!(CalendarDate::from_ymd(i32::MIN, 1, 1).is_none());
}

#[test]
fn the_calendar_is_that_of_chrono() {
    let years: [i32; 35] = [
        -262144, -262143, -40001, -10000, -9999, -1001, -401, -400, -101, -100, -5, -4, -1, 0, 1,
        4, 99, 100, 400, 999, 1000, 1582, 1900, 1999, 2000, 2015, 2016, 2023, 2024, 2100, 9999,
        10000, 99999, 262142, 262143,
    ];
    for year in years {
        for month in 0..=13 {
            for day in 0..=32 {
                let ours = CalendarDate::from_ymd(year, month, day);
                let theirs = NaiveDate::from_ymd_opt(year, month, day);
                assert_eq!(ours.is_some(), theirs.is_some(), "{year}-{month}-{day}");
            }
        }
    }
}

fn padded(n: u32, width: usize) -> String {
    let mut s = n.to_string();
    while s.len() < width {
        s.insert(0, '0');
    }
    s
}

#[test]
fn the_text_is_sign_padded_year_month_day() {
    let years: [i32; 20] = [
        -262143, -10000, -9999, -1000, -999, -10, -1, 0, 1, 9, 10, 99, 100, 999, 1000, 2024, 9999,
        10000, 12345, 262142,
    ];
    for year in years {
        for month in 1..=12 {
            for day in [1, 9, 10, 28] {
                let sign = if year < 0 {
                    "-"
                } else if year > 9999 {
                    "+"
                } else {
                    ""
                };
                let expected = format!(
                    "'{}{}-{}-{}'",
                    sign,
                    padded(year.unsigned_abs(), 4),
                    padded(month, 2),
                    padded(day, 2)
                );
                assert_eq!(literal(year, month, day), expected);
            }
        }
    }
}

#[test]
fn date_uses_the_standard_operators() {
    let d = CalendarDate::from_ymd(2015, 9, 5).unwrap();
    assert_eq!(d.op_eq(), "=");
    assert_eq!(d.op_neq(), "<>");
    assert_eq!(d.op_gt(), ">");
    assert_eq!(d.op_lt(), "<");
    assert_eq!(d.op_geq(), ">=");
    assert_eq!(d.op_leq(), "<=");
    assert_eq!(d.compare(&SQLComp::GEQ), ">= '2015-09-05'");
}

#[test]
fn absent_date_is_null() {
    let d: Option<CalendarDate> = None;
    assert_eq!(d.to_sql(), "NULL");
    assert_eq!(CalendarDate::from_ymd(2015, 9, 5).to_sql(), "'2015-09-05'");
}
