use ppl::dates::{anniversary_on, checked_date, date_before, day_number, days_in_month,
    is_leap_year, Date};

#[test]
fn leap_years() {
    assert!(is_leap_year(2024));
    assert!(!is_leap_year(2023));
    assert!(!is_leap_year(1900));
    assert!(is_leap_year(2000));
}

#[test]
fn month_lengths() {
    assert_eq!(days_in_month(2024, 2), 29);
    assert_eq!(days_in_month(2023, 2), 28);
    assert_eq!(days_in_month(2023, 4), 30);
    assert_eq!(days_in_month(2023, 12), 31);
}

#[test]
fn checked_date_validates() {
    assert_eq!(checked_date(2024, 2, 29), Some(Date { year: 2024, month: 2, day: 29 }));
    assert_eq!(checked_date(2023, 2, 29), None);
    assert_eq!(checked_date(10000, 1, 1), None);
    assert_eq!(checked_date(0, 1, 1), None);
}

#[test]
fn day_numbers_count_days() {
    let a = Date { year: 2024, month: 3, day: 1 };
    let b = Date { year: 2024, month: 3, day: 8 };
    assert_eq!(day_number(b) - day_number(a), 7);
    let c = Date { year: 2023, month: 12, day: 31 };
    let d = Date { year: 2024, month: 1, day: 1 };
    assert_eq!(day_number(d) - day_number(c), 1);
    let e = Date { year: 2024, month: 2, day: 28 };
    let f = Date { year: 2024, month: 3, day: 1 };
    assert_eq!(day_number(f) - day_number(e), 2);
}

#[test]
fn anniversary_clamps_leap_day() {
    let d = Date { year: 2000, month: 2, day: 29 };
    assert_eq!(anniversary_on(d, 2023), Date { year: 2023, month: 2, day: 28 });
    assert_eq!(anniversary_on(d, 2024), Date { year: 2024, month: 2, day: 29 });
}

#[test]
fn calendar_order() {
    let a = Date { year: 2023, month: 12, day: 31 };
    let b = Date { year: 2024, month: 1, day: 1 };
    assert!(date_before(a, b));
    assert!(!date_before(b, a));
    assert!(!date_before(a, a));
}
