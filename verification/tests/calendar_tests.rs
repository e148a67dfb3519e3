use reminder_api::{CalendarDate, ClockTime, Moment};

#[test]
fn date_keeps_its_numbers() {
    let d = CalendarDate::new(2024, 3, 5).unwrap();
    assert_eq!(d.year(), 2024);
    assert_eq!(d.month(), 3);
    assert_eq!(d.day(), 5);
}

#[test]
fn date_rejects_month_and_day_out_of_range() {
    assert!(CalendarDate::new(2024, 0, 10).is_none());
    assert!(CalendarDate::new(2024, 13, 10).is_none());
    assert!(CalendarDate::new(2024, 5, 0).is_none());
    assert!(CalendarDate::new(2024, 5, 32).is_none());
    assert!(CalendarDate::new(2024, 4, 31).is_none());
    assert!(CalendarDate::new(2024, 4, 30).is_some());
    assert!(CalendarDate::new(2024, 12, 31).is_some());
}

#[test]
fn february_follows_the_leap_year_rule() {
    assert!(CalendarDate::new(2024, 2, 29).is_some());
    assert!(CalendarDate::new(2023, 2, 29).is_none());
    assert!(CalendarDate::new(2023, 2, 28).is_some());
    assert!(CalendarDate::new(1900, 2, 29).is_none());
    assert!(CalendarDate::new(2000, 2, 29).is_some());
    assert!(CalendarDate::new(0, 2, 29).is_some());
    assert!(CalendarDate::new(-4, 2, 29).is_some());
    assert!(CalendarDate::new(-100, 2, 29).is_none());
    assert!(CalendarDate::new(-400, 2, 29).is_some());
    assert!(CalendarDate::new(2024, 2, 30).is_none());
}

#[test]
fn date_years_have_bounds() {
    assert!(CalendarDate::new(262142, 12, 31).is_some());
    assert!(CalendarDate::new(262143, 1, 1).is_none());
    assert!(CalendarDate::new(-262143, 1, 1).is_some());
    assert!(CalendarDate::new(-262144, 12, 31).is_none());
    assert!(CalendarDate::new(i32::MAX, 1, 1).is_none());
    assert!(CalendarDate::new(i32::MIN, 1, 1).is_none());
}

#[test]
fn date_agrees_with_chrono_on_what_exists() {
    let years: [i32; 9] = [-262144, -262143, -401, -400, -1, 0, 1900, 2024, 262143];
    for year in years {
        for month in 0u32..14 {
            for day in 0u32..33 {
                let ours = CalendarDate::new(year, month, day).is_some();
                let theirs = chrono::NaiveDate::from_ymd_opt(year, month, day).is_some();
                assert_eq!(ours, theirs, "{year}-{month}-{day}");
            }
        }
    }
}

#[test]
fn time_keeps_its_numbers() {
    let t = ClockTime::new(23, 59, 58).unwrap();
    assert_eq!(t.hour(), 23);
    assert_eq!(t.minute(), 59);
    assert_eq!(t.second(), 58);
}

#[test]
fn time_rejects_numbers_out_of_range() {
    assert!(ClockTime::new(0, 0, 0).is_some());
    assert!(ClockTime::new(23, 59, 59).is_some());
    assert!(ClockTime::new(24, 0, 0).is_none());
    assert!(ClockTime::new(0, 60, 0).is_none());
    assert!(ClockTime::new(0, 0, 60).is_none());
    assert!(ClockTime::new(u32::MAX, 0, 0).is_none());
}

#[test]
fn moments_in_one_minute_are_told_apart_from_others() {
    let day = CalendarDate::new(2024, 3, 5).unwrap();
    let next_day = CalendarDate::new(2024, 3, 6).unwrap();
    let a = Moment { date: day, time: ClockTime::new(13, 0, 0).unwrap() };
    let b = Moment { date: day, time: ClockTime::new(13, 0, 59).unwrap() };
    let c = Moment { date: day, time: ClockTime::new(13, 1, 0).unwrap() };
    let d = Moment { date: day, time: ClockTime::new(14, 0, 0).unwrap() };
    let e = Moment { date: next_day, time: ClockTime::new(13, 0, 0).unwrap() };
    assert!(a.in_same_minute(&a));
    assert!(a.in_same_minute(&b));
    assert!(b.in_same_minute(&a));
    assert!(!a.in_same_minute(&c));
    assert!(!a.in_same_minute(&d));
    assert!(!a.in_same_minute(&e));
}

#[test]
fn equal_numbers_make_equal_dates_and_times() {
    assert_eq!(CalendarDate::new(2024, 3, 5), CalendarDate::new(2024, 3, 5));
    assert_ne!(CalendarDate::new(2024, 3, 5), CalendarDate::new(2024, 3, 6));
    assert_eq!(ClockTime::new(1, 2, 3), ClockTime::new(1, 2, 3));
    assert_ne!(ClockTime::new(1, 2, 3), ClockTime::new(1, 2, 4));
}
