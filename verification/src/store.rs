//! The reminder store: reminders in the order in which they were added, with
//! the checks that flag the due ones and record deliveries.
//!
//! The store reads and writes no file and shows nothing on the screen. It
//! says what is to be written and what is to be shown, and takes back what
//! was read and which announcements were shown.

use crate::calendar::{Instant, Moment};
use crate::chrono_bridge::local_now;
use crate::reminder::{Notice, Reminder, ReminderView, StoredRecord, StoredRecordView};
use vstd::prelude::*;

verus! {

/// What can go wrong with the store and around it.
#[derive(Clone, Copy, Debug, PartialEq, Eq, Structural)]
pub enum StoreError {
    /// The backing file holds something that is not a list of reminders.
    StoreCorrupt,
    /// No record of the store equals the given reminder.
    RecordNotFound,
    /// An announcement could not be shown.
    NotificationSinkFailure,
    /// The backing file could not be read or written.
    IoFailure,
}

impl StoreError {
    /// The error in words.
    pub fn describe(&self) -> (text: &'static str)
        ensures
            text@ == (match *self {
                StoreError::StoreCorrupt => "the backing file does not hold a list of reminders"@,
                StoreError::RecordNotFound => "no such reminder in the store"@,
                StoreError::NotificationSinkFailure => "the notification could not be shown"@,
                StoreError::IoFailure => "the backing file could not be read or written"@,
            }),
    {
        match self {
            StoreError::StoreCorrupt => "the backing file does not hold a list of reminders",
            StoreError::RecordNotFound => "no such reminder in the store",
            StoreError::NotificationSinkFailure => "the notification could not be shown",
            StoreError::IoFailure => "the backing file could not be read or written",
        }
    }
}

/// What reminders stand for, one by one.
pub open spec fn reminder_views(s: Seq<Reminder>) -> Seq<ReminderView> {
    s.map_values(|r: Reminder| r@)
}

/// What written records stand for, one by one.
pub open spec fn record_views(s: Seq<StoredRecord>) -> Seq<StoredRecordView> {
    s.map_values(|r: StoredRecord| r@)
}

/// The text behind an optional string slice.
pub open spec fn text_of(contents: Option<&str>) -> Option<Seq<char>> {
    match contents {
        Some(text) => Some(text@),
        None => None,
    }
}

/// The records behind an optional list of them.
pub open spec fn records_of(parsed: Option<Vec<StoredRecord>>) -> Option<Seq<StoredRecordView>> {
    match parsed {
        Some(records) => Some(record_views(records@)),
        None => None,
    }
}

/// Whether every reminder has a day that exists and a time of day.
pub open spec fn all_dated(s: Seq<ReminderView>) -> bool {
    forall|i: int| 0 <= i < s.len() ==> (#[trigger] s[i]).is_dated()
}

/// The reminders as they are written down, one by one.
pub open spec fn stored_forms(s: Seq<ReminderView>) -> Seq<StoredRecordView> {
    s.map_values(|r: ReminderView| r.stored())
}

/// The reminders that written records stand for, if every one of them can be
/// read.
pub open spec fn decoded_all(records: Seq<StoredRecordView>) -> Option<Seq<ReminderView>> {
    if forall|i: int| 0 <= i < records.len() ==> (#[trigger] records[i]).decoded() is Some {
        Some(records.map_values(|x: StoredRecordView| x.decoded().unwrap()))
    } else {
        None
    }
}

/// What a load gives: an empty store where there is no file or the file is
/// empty, else the reminders of the records that were read from it, and
/// nothing where no list of records was read or a record cannot be read.
pub open spec fn loaded(
    contents: Option<Seq<char>>,
    parsed: Option<Seq<StoredRecordView>>,
) -> Option<Seq<ReminderView>> {
    match contents {
        None => Some(Seq::empty()),
        Some(text) => if text.len() == 0 {
            Some(Seq::empty())
        } else {
            match parsed {
                Some(records) => decoded_all(records),
                None => None,
            }
        },
    }
}

/// The store after a check at `now`: each reminder checked by itself.
pub open spec fn after_check(s: Seq<ReminderView>, now: Instant) -> Seq<ReminderView> {
    s.map_values(|r: ReminderView| r.checked(now))
}

/// Whether `k` is the place of the first record of `s` that equals `r`.
pub open spec fn is_first_match(s: Seq<ReminderView>, r: ReminderView, k: int) -> bool {
    &&& 0 <= k < s.len()
    &&& s[k] == r
    &&& forall|j: int| 0 <= j < k ==> s[j] != r
}

/// How many of the first `i` records equal `r`.
pub open spec fn matches_before(s: Seq<ReminderView>, r: ReminderView, i: int) -> nat
    decreases i,
{
    if i <= 0 {
        0
    } else {
        matches_before(s, r, i - 1) + if s[i - 1] == r {
            1nat
        } else {
            0nat
        }
    }
}

/// How many records equal `r`.
pub open spec fn match_count(s: Seq<ReminderView>, r: ReminderView) -> nat {
    matches_before(s, r, s.len() as int)
}

/// Whether the announcement with number `k` was shown.
pub open spec fn was_shown(shown: Seq<bool>, k: int) -> bool {
    0 <= k < shown.len() && shown[k]
}

/// The store after a delivery of `r`: of the records that equal `r`, taken
/// in order, those whose announcement was shown are delivered; every other
/// record is as it was.
pub open spec fn after_delivery(s: Seq<ReminderView>, r: ReminderView, shown: Seq<bool>) -> Seq<
    ReminderView,
> {
    Seq::new(
        s.len(),
        |i: int|
            if s[i] == r && was_shown(shown, matches_before(s, r, i) as int) {
                s[i].delivered()
            } else {
                s[i]
            },
    )
}

/// `r` occurs in `s` exactly when it is counted at least once.
pub proof fn lemma_counted_iff_contained(s: Seq<ReminderView>, r: ReminderView, i: int)
    requires
        0 <= i <= s.len(),
    ensures
        matches_before(s, r, i) > 0 <==> exists|j: int| 0 <= j < i && s[j] == r,
        matches_before(s, r, i) <= i,
    decreases i,
{
    if i > 0 {
        lemma_counted_iff_contained(s, r, i - 1);
        if s[i - 1] == r {
            assert(0 <= i - 1 < i && s[i - 1] == r);
        }
    }
}

/// What is to be written to the backing file: all records, in place of
/// whatever the file held.
#[derive(Debug)]
pub struct SaveRequest {
    pub records: Vec<StoredRecord>,
    pub replace_contents: bool,
}

/// The reminders, in the order in which they were added.
#[derive(Debug)]
pub struct ReminderList {
    list: Vec<Reminder>,
}

impl View for ReminderList {
    type V = Seq<ReminderView>;

    closed spec fn view(&self) -> Seq<ReminderView> {
        reminder_views(self.list@)
    }
}

impl Clone for ReminderList {
    fn clone(&self) -> (copy: Self)
        ensures
            copy@ == self@,
    {
        let mut list: Vec<Reminder> = Vec::new();
        let mut i: usize = 0;
        while i < self.list.len()
            invariant
                i <= self.list.len(),
                list.len() == i,
                forall|j: int| 0 <= j < i ==> list[j]@ == self.list[j]@,
            decreases self.list.len() - i,
        {
            list.push(self.list[i].clone());
            i += 1;
        }
        assert(reminder_views(list@) =~= reminder_views(self.list@));
        ReminderList { list }
    }
}

impl ReminderList {
    /// A store without reminders.
    pub fn new() -> (store: ReminderList)
        ensures
            store@ == Seq::<ReminderView>::empty(),
    {
        let store = ReminderList { list: Vec::new() };
        assert(reminder_views(store.list@) =~= Seq::<ReminderView>::empty());
        store
    }

    /// Tells whether the contents of the backing file have to be parsed:
    /// not where there is no file, and not where the file is empty.
    pub fn needs_parsing(contents: Option<&str>) -> (needed: bool)
        ensures
            needed == (text_of(contents) matches Some(text) && text.len() > 0),
    {
        match contents {
            Some(text) => !text.is_empty(),
            None => false,
        }
    }

    /// The store for a list of records, or `StoreCorrupt` where the date or
    /// the time of a record cannot be read. The records that were written
    /// for a store give that store back.
    pub fn from_records(records: &Vec<StoredRecord>) -> (outcome: Result<ReminderList, StoreError>)
        ensures
            match outcome {
                Ok(store) => decoded_all(record_views(records@)) == Some(store@),
                Err(e) => e == StoreError::StoreCorrupt && decoded_all(record_views(records@))
                    is None,
            },
            forall|origin: Seq<ReminderView>|
                all_dated(origin) && record_views(records@) == #[trigger] stored_forms(origin)
                    ==> outcome is Ok && outcome.unwrap()@ == origin,
    {
        let ghost given = record_views(records@);
        let mut list: Vec<Reminder> = Vec::new();
        let mut i: usize = 0;
        while i < records.len()
            invariant
                i <= records.len(),
                list.len() == i,
                given == record_views(records@),
                forall|j: int| 0 <= j < i ==> (#[trigger] given[j]).decoded() == Some(list[j]@),
                forall|j: int, o: ReminderView|
                    0 <= j < i && o.is_dated() && given[j] == #[trigger] o.stored() ==> #[trigger] list[j]@
                        == o,
            decreases records.len() - i,
        {
            match Reminder::from_stored(&records[i]) {
                Some(r) => {
                    list.push(r);
                },
                None => {
                    assert(given[i as int].decoded() is None);
                    assert forall|origin: Seq<ReminderView>|
                        all_dated(origin) && given == #[trigger] stored_forms(origin) implies false by {
                        assert(origin[i as int].is_dated());
                        assert(given[i as int] == origin[i as int].stored());
                    }
                    return Err(StoreError::StoreCorrupt);
                },
            }
            i += 1;
        }
        let store = ReminderList { list };
        assert(decoded_all(given) == Some(store@)) by {
            assert(store@ =~= given.map_values(|x: StoredRecordView| x.decoded().unwrap()));
        }
        assert forall|origin: Seq<ReminderView>|
            all_dated(origin) && given == #[trigger] stored_forms(origin) implies store@
            == origin by {
            assert forall|j: int| 0 <= j < origin.len() implies store@[j] == origin[j] by {
                assert(origin[j].is_dated());
                assert(given[j] == origin[j].stored());
                assert(store.list[j]@ == origin[j]);
            }
            assert(store@ =~= origin);
        }
        Ok(store)
    }

    /// Makes the store at start-up. `contents` is what the backing file
    /// holds, `None` where there is no file; `parsed` is the list of records
    /// that was read out of the contents, `None` where none was. Without a
    /// file, and with an empty one, the store starts empty, whatever
    /// `parsed` is. Contents out of which no records were read, or with a
    /// record whose date or time cannot be read, give `StoreCorrupt`. The
    /// records that `save_list_to_json` hands out for a store give that
    /// store back.
    pub fn load(contents: Option<&str>, parsed: Option<Vec<StoredRecord>>) -> (outcome: Result<
        ReminderList,
        StoreError,
    >)
        ensures
            match outcome {
                Ok(store) => loaded(text_of(contents), records_of(parsed)) == Some(store@),
                Err(e) => e == StoreError::StoreCorrupt && loaded(
                    text_of(contents),
                    records_of(parsed),
                ) is None,
            },
            forall|origin: Seq<ReminderView>|
                all_dated(origin) && text_of(contents) is Some && text_of(contents).unwrap().len()
                    > 0 && records_of(parsed) == Some(#[trigger] stored_forms(origin))
                    ==> outcome is Ok && outcome.unwrap()@ == origin,
    {
        if !ReminderList::needs_parsing(contents) {
            return Ok(ReminderList::new());
        }
        match parsed {
            Some(records) => ReminderList::from_records(&records),
            None => Err(StoreError::StoreCorrupt),
        }
    }

    /// The reminders, in order.
    pub fn list(&self) -> (all: &Vec<Reminder>)
        ensures
            reminder_views(all@) == self@,
    {
        &self.list
    }

    /// Adds a copy of the reminder at the end. What equals a record that the
    /// store already holds is added all the same.
    pub fn save_reminder(&mut self, reminder: &Reminder)
        requires
            reminder@.is_complete(),
        ensures
            final(self)@ == old(self)@.push(reminder@),
    {
        let copy = reminder.clone();
        self.list.push(copy);
        assert(reminder_views(self.list@) =~= reminder_views(old(self).list@).push(reminder@));
    }

    /// The place of the first record that equals the reminder.
    pub fn position(&self, reminder: &Reminder) -> (found: Option<usize>)
        ensures
            match found {
                Some(i) => is_first_match(self@, reminder@, i as int) && self@.index_of_first(
                    reminder@,
                ) == Some(i as int),
                None => !self@.contains(reminder@) && self@.index_of_first(reminder@) is None,
            },
    {
        let mut i: usize = 0;
        while i < self.list.len()
            invariant
                i <= self.list.len(),
                forall|j: int| 0 <= j < i ==> self.list[j]@ != reminder@,
            decreases self.list.len() - i,
        {
            if self.list[i] == *reminder {
                proof {
                    self@.index_of_first_ensures(reminder@);
                    assert(self@[i as int] == reminder@);
                    let first = self@.index_of_first(reminder@).unwrap();
                    assert(self@[first] == self.list[first]@);
                }
                return Some(i);
            }
            i += 1;
        }
        proof {
            self@.index_of_first_ensures(reminder@);
            assert forall|j: int| 0 <= j < self@.len() implies self@[j] != reminder@ by {
                assert(self@[j] == self.list[j]@);
            }
        }
        None
    }

    /// Removes the first record that equals the reminder, and that one only.
    /// Where no record equals it, the store stays as it is and the outcome
    /// is `RecordNotFound`.
    pub fn delete_reminder(&mut self, reminder: &Reminder) -> (outcome: Result<(), StoreError>)
        ensures
            match outcome {
                Ok(()) => {
                    &&& old(self)@.contains(reminder@)
                    &&& final(self)@ == old(self)@.remove_value(reminder@)
                    &&& exists|k: int|
                        is_first_match(old(self)@, reminder@, k) && final(self)@ == old(
                            self,
                        )@.remove(k)
                },
                Err(e) => e == StoreError::RecordNotFound && !old(self)@.contains(reminder@)
                    && final(self)@ == old(self)@,
            },
    {
        proof {
            self@.index_of_first_ensures(reminder@);
        }
        match self.position(reminder) {
            Some(i) => {
                self.list.remove(i);
                assert(reminder_views(self.list@) =~= reminder_views(old(self).list@).remove(
                    i as int,
                ));
                Ok(())
            },
            None => Err(StoreError::RecordNotFound),
        }
    }

    /// What is to be written to the backing file so that it holds the store
    /// as it is now: every record, in order, in place of all that the file
    /// held, whether `truncate` is set or not.
    #[allow(unused_variables)]
    pub fn save_list_to_json(&self, truncate: bool) -> (request: SaveRequest)
        ensures
            record_views(request.records@) == stored_forms(self@),
            request.replace_contents,
            all_dated(self@),
    {
        let mut records: Vec<StoredRecord> = Vec::new();
        let mut i: usize = 0;
        while i < self.list.len()
            invariant
                i <= self.list.len(),
                records.len() == i,
                forall|j: int| 0 <= j < i ==> records[j]@ == self.list[j]@.stored(),
                forall|j: int| 0 <= j < i ==> self.list[j]@.is_dated(),
            decreases self.list.len() - i,
        {
            let record = self.list[i].to_stored();
            records.push(record);
            i += 1;
        }
        assert(record_views(records@) =~= stored_forms(self@));
        SaveRequest { records, replace_contents: true }
    }

    /// Works out anew which reminders are due at `now`: a reminder is
    /// flagged exactly if it was not delivered and its moment to notify lies
    /// in the minute of `now`. Nothing else of a reminder changes, and one
    /// that was delivered is never flagged.
    pub fn check_due(&mut self, now: &Moment)
        ensures
            final(self)@ == after_check(old(self)@, now@),
            forall|i: int|
                0 <= i < old(self)@.len() && (#[trigger] old(self)@[i]).did_notify
                    ==> !final(self)@[i].should_notify,
    {
        let n = self.list.len();
        let mut i: usize = 0;
        while i < n
            invariant
                i <= n,
                n == self.list.len(),
                n == old(self).list.len(),
                forall|j: int| 0 <= j < i ==> self.list[j]@ == old(self).list[j]@.checked(now@),
                forall|j: int| i <= j < n ==> self.list[j]@ == old(self).list[j]@,
            decreases n - i,
        {
            self.list[i].check(now);
            i += 1;
        }
        assert(reminder_views(self.list@) =~= after_check(reminder_views(old(self).list@), now@));
    }

    /// Works out anew which reminders are due at the present time on the
    /// local clock; see `check_due`.
    pub fn check_for_notification(&mut self)
        ensures
            exists|now: Instant|
                now.is_moment() && final(self)@ == #[trigger] after_check(old(self)@, now),
            forall|i: int|
                0 <= i < old(self)@.len() && (#[trigger] old(self)@[i]).did_notify
                    ==> !final(self)@[i].should_notify,
    {
        let now = local_now();
        self.check_due(&now);
        assert(now@.is_moment() && self@ == after_check(old(self)@, now@));
    }

    /// Copies of the reminders that are flagged as due, in order.
    pub fn due(&self) -> (flagged: Vec<Reminder>)
        ensures
            reminder_views(flagged@) == self@.filter(|r: ReminderView| r.should_notify),
    {
        let ghost is_flagged = |r: ReminderView| r.should_notify;
        let mut flagged: Vec<Reminder> = Vec::new();
        let mut i: usize = 0;
        while i < self.list.len()
            invariant
                i <= self.list.len(),
                is_flagged == |r: ReminderView| r.should_notify,
                reminder_views(flagged@) == self@.take(i as int).filter(is_flagged),
            decreases self.list.len() - i,
        {
            let ghost so_far = reminder_views(flagged@);
            proof {
                reveal(Seq::filter);
                assert(self@.take(i + 1).drop_last() =~= self@.take(i as int));
                assert(self@.take(i + 1).last() == self.list[i as int]@);
            }
            if *self.list[i].should_notify() {
                flagged.push(self.list[i].clone());
                assert(reminder_views(flagged@) =~= so_far.push(self.list[i as int]@));
            }
            i += 1;
        }
        assert(self@.take(self@.len() as int) =~= self@);
        flagged
    }

    /// The announcements to show for a delivery of the reminder: one for
    /// each record that equals it. Where no record equals it, the outcome is
    /// `RecordNotFound`.
    pub fn notices_for(&self, reminder: &Reminder) -> (outcome: Result<Vec<Notice>, StoreError>)
        ensures
            match outcome {
                Ok(notices) => {
                    &&& self@.contains(reminder@)
                    &&& notices.len() == match_count(self@, reminder@)
                    &&& forall|k: int|
                        0 <= k < notices.len() ==> (#[trigger] notices[k])@ == reminder@.notice()
                },
                Err(e) => e == StoreError::RecordNotFound && !self@.contains(reminder@),
            },
    {
        let mut notices: Vec<Notice> = Vec::new();
        let mut i: usize = 0;
        while i < self.list.len()
            invariant
                i <= self.list.len(),
                notices.len() == matches_before(self@, reminder@, i as int),
                notices.len() <= i,
                forall|k: int|
                    0 <= k < notices.len() ==> (#[trigger] notices[k])@ == reminder@.notice(),
            decreases self.list.len() - i,
        {
            assert(self@[i as int] == self.list[i as int]@);
            if self.list[i] == *reminder {
                notices.push(reminder.notice());
            }
            i += 1;
        }
        proof {
            lemma_counted_iff_contained(self@, reminder@, self@.len() as int);
        }
        if notices.len() == 0 {
            Err(StoreError::RecordNotFound)
        } else {
            Ok(notices)
        }
    }

    /// Records a delivery of the reminder. `shown` tells, for each
    /// announcement of `notices_for` in order, whether it was shown. Each
    /// record that equals the reminder and whose announcement was shown is
    /// marked as delivered and no longer due; a record whose announcement
    /// was not shown stays as it is, to be tried again. The outcome is what
    /// is to be written to the backing file. Where no record equals the
    /// reminder, the store stays as it is and the outcome is
    /// `RecordNotFound`.
    pub fn send_notification(&mut self, reminder: &Reminder, shown: &Vec<bool>) -> (outcome: Result<
        SaveRequest,
        StoreError,
    >)
        ensures
            match outcome {
                Ok(request) => {
                    &&& old(self)@.contains(reminder@)
                    &&& final(self)@ == after_delivery(old(self)@, reminder@, shown@)
                    &&& record_views(request.records@) == stored_forms(final(self)@)
                    &&& request.replace_contents
                },
                Err(e) => e == StoreError::RecordNotFound && !old(self)@.contains(reminder@)
                    && final(self)@ == old(self)@,
            },
    {
        proof {
            self@.index_of_first_ensures(reminder@);
        }
        if self.position(reminder).is_none() {
            return Err(StoreError::RecordNotFound);
        }
        let n = self.list.len();
        let mut i: usize = 0;
        let mut k: usize = 0;
        while i < n
            invariant
                i <= n,
                n == self.list.len(),
                n == old(self).list.len(),
                k == matches_before(old(self)@, reminder@, i as int),
                k <= i,
                forall|j: int|
                    0 <= j < i ==> self.list[j]@ == after_delivery(
                        old(self)@,
                        reminder@,
                        shown@,
                    )[j],
                forall|j: int| i <= j < n ==> self.list[j]@ == old(self).list[j]@,
            decreases n - i,
        {
            assert(old(self)@[i as int] == old(self).list[i as int]@);
            if self.list[i] == *reminder {
                if k < shown.len() && shown[k] {
                    self.list[i].mark_delivered();
                }
                k += 1;
            }
            i += 1;
        }
        assert(reminder_views(self.list@) =~= after_delivery(old(self)@, reminder@, shown@));
        Ok(self.save_list_to_json(true))
    }
}

} // verus!
