use chrono::Timelike;
use reminder_api::{CalendarDate, ClockTime, Moment, Reminder, StoredRecord};

fn date(year: i32, month: u32, day: u32) -> CalendarDate {
    CalendarDate::new(year, month, day).unwrap()
}

fn time(hour: u32, minute: u32, second: u32) -> ClockTime {
    ClockTime::new(hour, minute, second).unwrap()
}

fn moment(d: CalendarDate, t: ClockTime) -> Moment {
    Moment { date: d, time: t }
}

fn slides() -> Reminder {
    Reminder::with_details("Talk", "Bring the slides", date(2024, 3, 5), time(14, 0, 0), 1)
}

#[test]
fn new_reminder_is_blank_and_pending() {
    let r = Reminder::new();
    assert_eq!(r.title, "");
    assert_eq!(r.description, "");
    assert_eq!(r.notify_when, 0);
    assert!(!*r.should_notify());
    assert!(!r.did_notify());
    assert!(r.is_not_filled());
}

#[test]
fn new_reminder_is_for_now_on_the_local_clock() {
    let before = chrono::Local::now().naive_local().with_nanosecond(0).unwrap();
    let r = Reminder::new();
    let after = chrono::Local::now().naive_local();
    let made = chrono::NaiveDate::from_ymd_opt(r.date.year(), r.date.month(), r.date.day())
        .unwrap()
        .and_hms_opt(r.time.hour(), r.time.minute(), r.time.second())
        .unwrap();
    assert!(before <= made);
    assert!(made <= after);
}

#[test]
fn default_reminder_is_blank() {
    let r = Reminder::default();
    assert!(r.is_not_filled());
    assert_eq!(r.notify_when, 0);
    assert!(!*r.should_notify());
    assert!(!r.did_notify());
}

#[test]
fn starting_at_takes_date_and_time_of_the_moment() {
    let r = Reminder::starting_at(&moment(date(2024, 3, 5), time(9, 30, 15)));
    assert_eq!(r.date, date(2024, 3, 5));
    assert_eq!(r.time, time(9, 30, 15));
    assert_eq!(r.title, "");
    assert_eq!(r.description, "");
    assert_eq!(r.notify_when, 0);
    assert!(!*r.should_notify());
    assert!(!r.did_notify());
}

#[test]
fn with_details_fills_every_field() {
    let r = slides();
    assert_eq!(r.title, "Talk");
    assert_eq!(r.description, "Bring the slides");
    assert_eq!(r.date, date(2024, 3, 5));
    assert_eq!(r.time, time(14, 0, 0));
    assert_eq!(r.notify_when, 1);
    assert!(!*r.should_notify());
    assert!(!r.did_notify());
}

#[test]
fn reminder_is_filled_only_with_title_and_description() {
    let mut r = Reminder::new();
    assert!(r.is_not_filled());
    r.title = String::from("Talk");
    assert!(r.is_not_filled());
    r.description = String::from("Bring the slides");
    assert!(!r.is_not_filled());
    r.title = String::new();
    assert!(r.is_not_filled());
}

#[test]
fn clone_equals_what_was_cloned() {
    let r = slides();
    let copy = r.clone();
    assert_eq!(copy, r);
    assert_eq!(copy.title, "Talk");
    assert_eq!(copy.description, "Bring the slides");
}

#[test]
fn reminders_differ_when_any_field_differs() {
    let r = slides();
    let mut other = slides();
    assert_eq!(r, other);
    other.title = String::from("Talks");
    assert_ne!(r, other);
    let mut other = slides();
    other.description = String::from("Bring slides");
    assert_ne!(r, other);
    let mut other = slides();
    other.date = date(2024, 3, 6);
    assert_ne!(r, other);
    let mut other = slides();
    other.time = time(14, 0, 1);
    assert_ne!(r, other);
    let mut other = slides();
    other.notify_when = 2;
    assert_ne!(r, other);
    let mut flagged = slides();
    flagged.check(&moment(date(2024, 3, 5), time(13, 0, 0)));
    assert_ne!(r, flagged);
    let mut done = slides();
    done.mark_delivered();
    assert_ne!(r, done);
    assert_ne!(flagged, done);
}

#[test]
fn notify_instant_lies_the_lead_time_before_the_target() {
    let r = slides();
    assert_eq!(r.notify_instant(), Some(moment(date(2024, 3, 5), time(13, 0, 0))));
}

#[test]
fn notify_instant_without_lead_time_is_the_target() {
    let r = Reminder::with_details("a", "b", date(2024, 3, 5), time(14, 7, 9), 0);
    assert_eq!(r.notify_instant(), Some(moment(date(2024, 3, 5), time(14, 7, 9))));
}

#[test]
fn notify_instant_goes_back_over_midnight_and_month_ends() {
    let leap = Reminder::with_details("a", "b", date(2024, 3, 1), time(0, 30, 0), 1);
    assert_eq!(leap.notify_instant(), Some(moment(date(2024, 2, 29), time(23, 30, 0))));
    let common = Reminder::with_details("a", "b", date(2023, 3, 1), time(0, 30, 0), 1);
    assert_eq!(common.notify_instant(), Some(moment(date(2023, 2, 28), time(23, 30, 0))));
    let new_year = Reminder::with_details("a", "b", date(2024, 1, 1), time(0, 0, 0), 24);
    assert_eq!(new_year.notify_instant(), Some(moment(date(2023, 12, 31), time(0, 0, 0))));
    let two_days = Reminder::with_details("a", "b", date(2024, 1, 1), time(6, 15, 30), 49);
    assert_eq!(two_days.notify_instant(), Some(moment(date(2023, 12, 30), time(5, 15, 30))));
}

#[test]
fn notify_instant_with_negative_lead_time_lies_after_the_target() {
    let r = Reminder::with_details("a", "b", date(2024, 12, 31), time(23, 0, 0), -2);
    assert_eq!(r.notify_instant(), Some(moment(date(2025, 1, 1), time(1, 0, 0))));
}

#[test]
fn notify_instant_is_missing_where_the_calendar_ends() {
    let first = Reminder::with_details("a", "b", date(-262143, 1, 1), time(0, 0, 0), 1);
    assert_eq!(first.notify_instant(), None);
    let huge = Reminder::with_details("a", "b", date(2024, 3, 5), time(14, 0, 0), i64::MAX);
    assert_eq!(huge.notify_instant(), None);
    let tiny = Reminder::with_details("a", "b", date(2024, 3, 5), time(14, 0, 0), i64::MIN);
    assert_eq!(tiny.notify_instant(), None);
    assert!(!huge.is_due(&moment(date(2024, 3, 5), time(14, 0, 0))));
}

#[test]
fn due_at_asks_for_the_same_minute_of_the_same_day() {
    let at = Some(moment(date(2024, 3, 5), time(13, 0, 0)));
    assert!(Reminder::due_at(&at, false, &moment(date(2024, 3, 5), time(13, 0, 0))));
    assert!(Reminder::due_at(&at, false, &moment(date(2024, 3, 5), time(13, 0, 59))));
    assert!(!Reminder::due_at(&at, false, &moment(date(2024, 3, 5), time(13, 1, 0))));
    assert!(!Reminder::due_at(&at, false, &moment(date(2024, 3, 5), time(12, 59, 59))));
    assert!(!Reminder::due_at(&at, false, &moment(date(2024, 3, 5), time(14, 0, 0))));
    assert!(!Reminder::due_at(&at, false, &moment(date(2024, 3, 6), time(13, 0, 0))));
    assert!(!Reminder::due_at(&at, false, &moment(date(2024, 4, 5), time(13, 0, 0))));
    assert!(!Reminder::due_at(&at, false, &moment(date(2025, 3, 5), time(13, 0, 0))));
}

#[test]
fn due_at_is_never_true_after_delivery_or_without_a_moment() {
    let at = Some(moment(date(2024, 3, 5), time(13, 0, 0)));
    assert!(!Reminder::due_at(&at, true, &moment(date(2024, 3, 5), time(13, 0, 0))));
    assert!(!Reminder::due_at(&None, false, &moment(date(2024, 3, 5), time(13, 0, 0))));
    assert!(!Reminder::due_at(&None, true, &moment(date(2024, 3, 5), time(13, 0, 0))));
}

#[test]
fn is_due_in_the_minute_of_the_notify_instant() {
    let r = slides();
    assert!(r.is_due(&moment(date(2024, 3, 5), time(13, 0, 0))));
    assert!(r.is_due(&moment(date(2024, 3, 5), time(13, 0, 30))));
    assert!(!r.is_due(&moment(date(2024, 3, 5), time(14, 0, 0))));
    assert!(!r.is_due(&moment(date(2024, 3, 5), time(13, 1, 0))));
    assert!(!r.is_due(&moment(date(2024, 3, 4), time(13, 0, 0))));
}

#[test]
fn check_flags_a_reminder_exactly_while_it_is_due() {
    let mut r = slides();
    r.check(&moment(date(2024, 3, 5), time(12, 59, 0)));
    assert!(!*r.should_notify());
    r.check(&moment(date(2024, 3, 5), time(13, 0, 0)));
    assert!(*r.should_notify());
    assert!(!r.did_notify());
    r.check(&moment(date(2024, 3, 5), time(13, 0, 59)));
    assert!(*r.should_notify());
    r.check(&moment(date(2024, 3, 5), time(13, 1, 0)));
    assert!(!*r.should_notify());
    assert!(!r.did_notify());
}

#[test]
fn delivered_reminder_is_never_flagged_again() {
    let mut r = slides();
    r.check(&moment(date(2024, 3, 5), time(13, 0, 0)));
    r.mark_delivered();
    assert!(r.did_notify());
    assert!(!*r.should_notify());
    let before = r.clone();
    r.check(&moment(date(2024, 3, 5), time(13, 0, 0)));
    assert_eq!(r, before);
    r.check(&moment(date(2024, 3, 5), time(13, 0, 59)));
    assert_eq!(r, before);
    assert!(!r.is_due(&moment(date(2024, 3, 5), time(13, 0, 0))));
}

#[test]
fn notice_has_title_as_summary_and_details_as_body() {
    let n = slides().notice();
    assert_eq!(n.summary, "Talk");
    assert_eq!(n.body, "Bring the slides\nDate: 2024-03-05\nTime: 14:00:00");
    assert_eq!(n.icon, "wow");
    assert_eq!(n.timeout_ms, 6000);
}

#[test]
fn notice_writes_small_numbers_with_leading_zeros() {
    let r = Reminder::with_details("t", "d", date(987, 1, 2), time(3, 4, 5), 0);
    assert_eq!(r.notice().body, "d\nDate: 0987-01-02\nTime: 03:04:05");
    let r = Reminder::with_details("t", "", date(0, 12, 31), time(0, 0, 0), 0);
    assert_eq!(r.notice().body, "\nDate: 0000-12-31\nTime: 00:00:00");
}

#[test]
fn stored_record_holds_date_and_time_as_text() {
    let record = slides().to_stored();
    assert_eq!(record.title, "Talk");
    assert_eq!(record.description, "Bring the slides");
    assert_eq!(record.date, "2024-03-05");
    assert_eq!(record.time, "14:00:00");
    assert_eq!(record.notify_when, 1);
    assert!(!record.should_notify);
    assert!(!record.did_notify);
}

#[test]
fn stored_record_of_a_far_year_carries_a_sign() {
    let late = Reminder::with_details("t", "d", date(10000, 12, 31), time(23, 59, 59), 0);
    assert_eq!(late.to_stored().date, "+10000-12-31");
    assert_eq!(late.to_stored().time, "23:59:59");
    let last = Reminder::with_details("t", "d", date(262142, 1, 1), time(0, 0, 0), 0);
    assert_eq!(last.to_stored().date, "+262142-01-01");
    let early = Reminder::with_details("t", "d", date(-1, 1, 1), time(0, 0, 0), 0);
    assert_eq!(early.to_stored().date, "-0001-01-01");
    let first = Reminder::with_details("t", "d", date(-262143, 6, 7), time(0, 0, 0), 0);
    assert_eq!(first.to_stored().date, "-262143-06-07");
    let edge = Reminder::with_details("t", "d", date(9999, 12, 31), time(0, 0, 0), 0);
    assert_eq!(edge.to_stored().date, "9999-12-31");
}

#[test]
fn stored_record_keeps_the_flags() {
    let mut r = slides();
    r.check(&moment(date(2024, 3, 5), time(13, 0, 0)));
    let record = r.to_stored();
    assert!(record.should_notify);
    assert!(!record.did_notify);
    r.mark_delivered();
    let record = r.to_stored();
    assert!(!record.should_notify);
    assert!(record.did_notify);
}

#[test]
fn stored_record_is_read_back_as_the_same_reminder() {
    let mut flagged = slides();
    flagged.check(&moment(date(2024, 3, 5), time(13, 0, 0)));
    let mut done = slides();
    done.mark_delivered();
    let all = [
        slides(),
        flagged,
        done,
        Reminder::with_details("", "", date(2024, 2, 29), time(23, 59, 59), -3),
        Reminder::with_details("é\n\"", "\\", date(10000, 1, 1), time(0, 0, 0), i64::MAX),
        Reminder::with_details("t", "d", date(-262143, 1, 1), time(0, 0, 1), i64::MIN),
        Reminder::with_details("t", "d", date(262142, 12, 31), time(12, 0, 0), 24),
        Reminder::with_details("t", "d", date(-1, 3, 4), time(5, 6, 7), 8),
        Reminder::with_details("t", "d", date(0, 1, 1), time(0, 0, 0), 0),
    ];
    for r in all.iter() {
        let back = Reminder::from_stored(&r.to_stored());
        assert_eq!(back.as_ref(), Some(r));
    }
}

#[test]
fn from_stored_reads_what_the_calendar_reads() {
    let record = StoredRecord {
        title: String::from("Talk"),
        description: String::from("Bring the slides"),
        date: String::from("2024-3-5"),
        time: String::from("14:00"),
        notify_when: 2,
        should_notify: true,
        did_notify: true,
    };
    let r = Reminder::from_stored(&record).unwrap();
    assert_eq!(r.title, "Talk");
    assert_eq!(r.description, "Bring the slides");
    assert_eq!(r.date, date(2024, 3, 5));
    assert_eq!(r.time, time(14, 0, 0));
    assert_eq!(r.notify_when, 2);
    assert!(*r.should_notify());
    assert!(r.did_notify());
}

#[test]
fn from_stored_drops_the_fraction_of_a_second() {
    let record = StoredRecord {
        title: String::from("t"),
        description: String::from("d"),
        date: String::from("2024-03-05"),
        time: String::from("14:00:07.250"),
        notify_when: 0,
        should_notify: false,
        did_notify: false,
    };
    let r = Reminder::from_stored(&record).unwrap();
    assert_eq!(r.time, time(14, 0, 7));
}

#[test]
fn from_stored_gives_nothing_for_an_unreadable_date_or_time() {
    let good = slides().to_stored();
    let dates = ["", "tomorrow", "2024-02-30", "2024-13-01", "2024-03-05T14:00:00", "05/03/2024"];
    for text in dates {
        let record = StoredRecord {
            title: good.title.clone(),
            description: good.description.clone(),
            date: String::from(text),
            time: good.time.clone(),
            notify_when: good.notify_when,
            should_notify: false,
            did_notify: false,
        };
        assert!(Reminder::from_stored(&record).is_none(), "{text}");
    }
    let times = ["", "noon", "24:00:00", "14:60:00", "14"];
    for text in times {
        let record = StoredRecord {
            title: good.title.clone(),
            description: good.description.clone(),
            date: good.date.clone(),
            time: String::from(text),
            notify_when: good.notify_when,
            should_notify: false,
            did_notify: false,
        };
        assert!(Reminder::from_stored(&record).is_none(), "{text}");
    }
}
