//! One reminder: what it holds, when it is due, what is announced for it and
//! how it is written down.

use crate::calendar::{CalendarDate, ClockTime, Hms, Instant, Moment, Ymd};
use crate::chrono_bridge::{
    date_text, hours_before, local_now, moment_hours_before, parse_date, parse_time, parsed_date,
    parsed_time, time_text,
};
use vstd::prelude::*;
use vstd::std_specs::cmp::PartialEqSpecImpl;
use vstd::string::StringExecFns;

verus! {

/// How long an announcement stays on the screen, in milliseconds.
pub const NOTICE_TIMEOUT_MS: u32 = 6000;

/// What a reminder stands for.
pub struct ReminderView {
    pub title: Seq<char>,
    pub description: Seq<char>,
    pub date: Ymd,
    pub time: Hms,
    pub notify_when: int,
    pub should_notify: bool,
    pub did_notify: bool,
}

/// What an announcement stands for.
pub struct NoticeView {
    pub summary: Seq<char>,
    pub body: Seq<char>,
    pub icon: Seq<char>,
    pub timeout_ms: int,
}

/// What a written record stands for.
pub struct StoredRecordView {
    pub title: Seq<char>,
    pub description: Seq<char>,
    pub date: Seq<char>,
    pub time: Seq<char>,
    pub notify_when: int,
    pub should_notify: bool,
    pub did_notify: bool,
}

/// The numbers of an optional moment.
pub open spec fn instant_of(moment: Option<Moment>) -> Option<Instant> {
    match moment {
        Some(m) => Some(m@),
        None => None,
    }
}

/// Whether a reminder is due: it has not been delivered, it has a moment to
/// notify at, and that moment lies in the minute of `now`.
pub open spec fn due_in_minute(notify_at: Option<Instant>, did_notify: bool, now: Instant) -> bool {
    &&& !did_notify
    &&& notify_at matches Some(at)
    &&& at.same_minute(now)
}

impl ReminderView {
    /// Whether both the title and the description are filled in.
    pub open spec fn is_complete(self) -> bool {
        self.title.len() > 0 && self.description.len() > 0
    }

    /// Whether date and time are a day that exists and a time of day.
    pub open spec fn is_dated(self) -> bool {
        self.date.is_date() && self.time.is_time()
    }

    /// The moment that the reminder is about.
    pub open spec fn target(self) -> Instant {
        Instant { date: self.date, time: self.time }
    }

    /// The moment to notify at: `notify_when` hours before the target.
    pub open spec fn notify_instant(self) -> Option<Instant> {
        moment_hours_before(self.target(), self.notify_when)
    }

    /// Whether the reminder is due at `now`.
    pub open spec fn is_due(self, now: Instant) -> bool {
        due_in_minute(self.notify_instant(), self.did_notify, now)
    }

    /// The reminder after a check at `now`: flagged exactly if it is due at
    /// `now`, whatever the flag said before.
    pub open spec fn checked(self, now: Instant) -> ReminderView {
        ReminderView { should_notify: self.is_due(now), ..self }
    }

    /// The reminder once it was delivered.
    pub open spec fn delivered(self) -> ReminderView {
        ReminderView { should_notify: false, did_notify: true, ..self }
    }

    /// The text of the announcement.
    pub open spec fn notice_body(self) -> Seq<char> {
        self.description + "\nDate: "@ + self.date.iso_text() + "\nTime: "@ + self.time.iso_text()
    }

    /// What is announced for the reminder.
    pub open spec fn notice(self) -> NoticeView {
        NoticeView {
            summary: self.title,
            body: self.notice_body(),
            icon: "wow"@,
            timeout_ms: NOTICE_TIMEOUT_MS as int,
        }
    }

    /// The reminder as it is written down.
    pub open spec fn stored(self) -> StoredRecordView {
        StoredRecordView {
            title: self.title,
            description: self.description,
            date: self.date.iso_text(),
            time: self.time.iso_text(),
            notify_when: self.notify_when,
            should_notify: self.should_notify,
            did_notify: self.did_notify,
        }
    }
}

impl StoredRecordView {
    /// The reminder that a written record stands for, if its date and its
    /// time can be read.
    pub open spec fn decoded(self) -> Option<ReminderView> {
        match (parsed_date(self.date), parsed_time(self.time)) {
            (Some(date), Some(time)) => Some(
                ReminderView {
                    title: self.title,
                    description: self.description,
                    date,
                    time,
                    notify_when: self.notify_when,
                    should_notify: self.should_notify,
                    did_notify: self.did_notify,
                },
            ),
            _ => None,
        }
    }
}

/// What is shown to the user when a reminder is delivered.
#[derive(Debug)]
pub struct Notice {
    pub summary: String,
    pub body: String,
    pub icon: String,
    pub timeout_ms: u32,
}

impl View for Notice {
    type V = NoticeView;

    open spec fn view(&self) -> NoticeView {
        NoticeView {
            summary: self.summary@,
            body: self.body@,
            icon: self.icon@,
            timeout_ms: self.timeout_ms as int,
        }
    }
}

/// A reminder as the backing file holds it: date and time as text.
#[derive(Debug)]
pub struct StoredRecord {
    pub title: String,
    pub description: String,
    pub date: String,
    pub time: String,
    pub notify_when: i64,
    pub should_notify: bool,
    pub did_notify: bool,
}

impl View for StoredRecord {
    type V = StoredRecordView;

    open spec fn view(&self) -> StoredRecordView {
        StoredRecordView {
            title: self.title@,
            description: self.description@,
            date: self.date@,
            time: self.time@,
            notify_when: self.notify_when as int,
            should_notify: self.should_notify,
            did_notify: self.did_notify,
        }
    }
}

/// A reminder: a title, a description, the date and time it is about, and
/// how many hours before that moment the user is to be notified.
#[derive(Debug)]
pub struct Reminder {
    pub title: String,
    pub description: String,
    pub date: CalendarDate,
    pub time: ClockTime,
    pub notify_when: i64,
    should_notify: bool,
    did_notify: bool,
}

impl View for Reminder {
    type V = ReminderView;

    closed spec fn view(&self) -> ReminderView {
        ReminderView {
            title: self.title@,
            description: self.description@,
            date: self.date@,
            time: self.time@,
            notify_when: self.notify_when as int,
            should_notify: self.should_notify,
            did_notify: self.did_notify,
        }
    }
}

impl Clone for Reminder {
    fn clone(&self) -> (copy: Self)
        ensures
            copy@ == self@,
    {
        Reminder {
            title: self.title.clone(),
            description: self.description.clone(),
            date: self.date,
            time: self.time,
            notify_when: self.notify_when,
            should_notify: self.should_notify,
            did_notify: self.did_notify,
        }
    }
}

impl PartialEq for Reminder {
    fn eq(&self, other: &Self) -> (same: bool) {
        proof {
            self.date.lemma_same_numbers(other.date);
            self.time.lemma_same_numbers(other.time);
        }
        self.title == other.title && self.description == other.description && self.date
            == other.date && self.time == other.time && self.notify_when == other.notify_when
            && self.should_notify == other.should_notify && self.did_notify == other.did_notify
    }
}

impl PartialEqSpecImpl for Reminder {
    open spec fn obeys_eq_spec() -> bool {
        true
    }

    open spec fn eq_spec(&self, other: &Self) -> bool {
        self@ == other@
    }
}

impl Eq for Reminder {

}

impl Default for Reminder {
    fn default() -> (made: Self)
        ensures
            made@.title.len() == 0,
            made@.description.len() == 0,
            made@.is_dated(),
            made@.notify_when == 0,
            !made@.should_notify,
            !made@.did_notify,
    {
        Reminder::new()
    }
}

impl Reminder {
    /// A blank reminder for today, at the present time on the local clock.
    pub fn new() -> (made: Reminder)
        ensures
            made@.title.len() == 0,
            made@.description.len() == 0,
            made@.is_dated(),
            made@.notify_when == 0,
            !made@.should_notify,
            !made@.did_notify,
    {
        let now = local_now();
        Reminder::starting_at(&now)
    }

    /// A blank reminder for the given moment: nothing filled in, no lead
    /// time, neither due nor delivered.
    pub fn starting_at(moment: &Moment) -> (made: Reminder)
        ensures
            made@ == (ReminderView {
                title: Seq::empty(),
                description: Seq::empty(),
                date: moment@.date,
                time: moment@.time,
                notify_when: 0,
                should_notify: false,
                did_notify: false,
            }),
    {
        Reminder {
            title: String::new(),
            description: String::new(),
            date: moment.date,
            time: moment.time,
            notify_when: 0,
            should_notify: false,
            did_notify: false,
        }
    }

    /// A reminder with the given details, neither due nor delivered.
    pub fn with_details(
        title: &str,
        description: &str,
        date: CalendarDate,
        time: ClockTime,
        notify_when: i64,
    ) -> (made: Reminder)
        ensures
            made@ == (ReminderView {
                title: title@,
                description: description@,
                date: date@,
                time: time@,
                notify_when: notify_when as int,
                should_notify: false,
                did_notify: false,
            }),
    {
        Reminder {
            title: String::from_str(title),
            description: String::from_str(description),
            date,
            time,
            notify_when,
            should_notify: false,
            did_notify: false,
        }
    }

    /// Tells whether the title or the description is still empty.
    pub fn is_not_filled(&self) -> (unfilled: bool)
        ensures
            unfilled == !self@.is_complete(),
    {
        if self.title.as_str().is_empty() || self.description.as_str().is_empty() {
            return true;
        }
        false
    }

    /// The flag that says that the reminder is due.
    pub fn should_notify(&self) -> (flag: &bool)
        ensures
            *flag == self@.should_notify,
    {
        &self.should_notify
    }

    /// The flag that says that the reminder was delivered.
    pub fn did_notify(&self) -> (flag: bool)
        ensures
            flag == self@.did_notify,
    {
        self.did_notify
    }

    /// The moment to notify at, where the calendar has one.
    pub fn notify_instant(&self) -> (at: Option<Moment>)
        ensures
            instant_of(at) == self@.notify_instant(),
    {
        let target = Moment { date: self.date, time: self.time };
        hours_before(&target, self.notify_when)
    }

    /// Tells whether a reminder is due at `now`, given the moment to notify
    /// at and whether it was delivered.
    pub fn due_at(notify_at: &Option<Moment>, did_notify: bool, now: &Moment) -> (due: bool)
        ensures
            due == due_in_minute(instant_of(*notify_at), did_notify, now@),
    {
        match notify_at {
            Some(at) => !did_notify && at.in_same_minute(now),
            None => false,
        }
    }

    /// Tells whether the reminder is due at `now`.
    pub fn is_due(&self, now: &Moment) -> (due: bool)
        ensures
            due == self@.is_due(now@),
    {
        let at = self.notify_instant();
        Reminder::due_at(&at, self.did_notify, now)
    }

    /// Works out anew whether the reminder is due: it is flagged exactly if
    /// it is due at `now`. A reminder that was delivered is never flagged.
    pub fn check(&mut self, now: &Moment)
        ensures
            final(self)@ == old(self)@.checked(now@),
            old(self)@.did_notify ==> !final(self)@.should_notify,
    {
        self.should_notify = self.is_due(now);
    }

    /// Records that the reminder was delivered.
    pub fn mark_delivered(&mut self)
        ensures
            final(self)@ == old(self)@.delivered(),
    {
        self.did_notify = true;
        self.should_notify = false;
    }

    /// What is announced when the reminder is delivered: the title as
    /// summary, and description, date and time as body.
    pub fn notice(&self) -> (notice: Notice)
        ensures
            notice@ == self@.notice(),
    {
        let mut body = self.description.clone();
        body.append("\nDate: ");
        let date = date_text(&self.date);
        body.append(date.as_str());
        body.append("\nTime: ");
        let time = time_text(&self.time);
        body.append(time.as_str());
        Notice {
            summary: self.title.clone(),
            body,
            icon: String::from_str("wow"),
            timeout_ms: NOTICE_TIMEOUT_MS,
        }
    }

    /// The reminder as the backing file holds it.
    pub fn to_stored(&self) -> (record: StoredRecord)
        ensures
            record@ == self@.stored(),
            self@.is_dated(),
    {
        proof {
            use_type_invariant(&self.date);
            use_type_invariant(&self.time);
        }
        StoredRecord {
            title: self.title.clone(),
            description: self.description.clone(),
            date: date_text(&self.date),
            time: time_text(&self.time),
            notify_when: self.notify_when,
            should_notify: self.should_notify,
            did_notify: self.did_notify,
        }
    }

    /// The reminder that a record of the backing file stands for, or `None`
    /// where its date or its time cannot be read. A record that was written
    /// for a reminder is read back as that reminder.
    pub fn from_stored(record: &StoredRecord) -> (made: Option<Reminder>)
        ensures
            match made {
                Some(r) => record@.decoded() == Some(r@),
                None => record@.decoded() is None,
            },
            forall|origin: ReminderView|
                origin.is_dated() && record@ == #[trigger] origin.stored() ==> made is Some
                    && made.unwrap()@ == origin,
    {
        let date = match parse_date(record.date.as_str()) {
            Some(d) => d,
            None => {
                return None;
            },
        };
        let time = match parse_time(record.time.as_str()) {
            Some(t) => t,
            None => {
                return None;
            },
        };
        Some(
            Reminder {
                title: record.title.clone(),
                description: record.description.clone(),
                date,
                time,
                notify_when: record.notify_when,
                should_notify: record.should_notify,
                did_notify: record.did_notify,
            },
        )
    }
}

} // verus!
