//! What holds of the store and its schedule, whatever the reminders and the
//! moment.

use crate::calendar::Instant;
use crate::reminder::ReminderView;
use crate::store::{after_check, after_delivery, matches_before, was_shown};
use vstd::prelude::*;

verus! {

/// A reminder that was delivered is never due, and no check flags it, at
/// whatever moment the check is made.
pub proof fn lemma_delivered_is_never_flagged(s: Seq<ReminderView>, i: int, now: Instant)
    requires
        0 <= i < s.len(),
        s[i].did_notify,
    ensures
        !s[i].is_due(now),
        !after_check(s, now)[i].should_notify,
        after_check(s, now)[i].did_notify,
{
}

/// A check flags a reminder exactly if the reminder was not delivered and
/// its moment to notify lies in the minute of the check.
pub proof fn lemma_flagged_iff_due(s: Seq<ReminderView>, i: int, now: Instant)
    requires
        0 <= i < s.len(),
    ensures
        after_check(s, now)[i].should_notify <==> !s[i].did_notify && s[i].notify_instant()
            is Some && s[i].notify_instant().unwrap().same_minute(now),
{
}

/// A reminder that was not delivered and whose moment to notify lies in the
/// minute of `now` is flagged by a check at `now`. A delivery of it, with its
/// announcement shown, then leaves it delivered and no longer flagged, and no
/// later check flags it again.
pub proof fn lemma_due_then_delivered(
    s: Seq<ReminderView>,
    i: int,
    now: Instant,
    shown: Seq<bool>,
    later: Instant,
)
    requires
        0 <= i < s.len(),
        !s[i].did_notify,
        s[i].notify_instant() matches Some(at) && at.same_minute(now),
        was_shown(shown, matches_before(after_check(s, now), after_check(s, now)[i], i) as int),
    ensures
        after_check(s, now)[i].should_notify,
        !after_check(s, now)[i].did_notify,
        ({
            let checked = after_check(s, now);
            let done = after_delivery(checked, checked[i], shown);
            &&& !done[i].should_notify
            &&& done[i].did_notify
            &&& after_check(done, later)[i] == done[i]
        }),
{
}

/// A reminder whose announcement was not shown is left as it was by the
/// delivery, so that it is tried again.
pub proof fn lemma_unshown_is_kept(s: Seq<ReminderView>, r: ReminderView, shown: Seq<bool>, i: int)
    requires
        0 <= i < s.len(),
        s[i] != r || !was_shown(shown, matches_before(s, r, i) as int),
    ensures
        after_delivery(s, r, shown)[i] == s[i],
{
}

/// Neither a check nor a delivery takes a reminder back from delivered: one
/// that was delivered before is delivered after, and only the two flags of
/// a reminder ever change.
pub proof fn lemma_delivered_stays_delivered(
    s: Seq<ReminderView>,
    r: ReminderView,
    shown: Seq<bool>,
    now: Instant,
    i: int,
)
    requires
        0 <= i < s.len(),
    ensures
        after_check(s, now).len() == s.len(),
        after_delivery(s, r, shown).len() == s.len(),
        after_check(s, now)[i].did_notify == s[i].did_notify,
        s[i].did_notify ==> after_delivery(s, r, shown)[i].did_notify,
        after_check(s, now)[i] == (ReminderView {
            should_notify: after_check(s, now)[i].should_notify,
            ..s[i]
        }),
        after_delivery(s, r, shown)[i] == (ReminderView {
            should_notify: after_delivery(s, r, shown)[i].should_notify,
            did_notify: after_delivery(s, r, shown)[i].did_notify,
            ..s[i]
        }),
{
}

/// Adding a reminder and removing it again gives back the store as it was,
/// provided that the store holds no record equal to the reminder with a
/// different record after it.
pub proof fn lemma_add_then_remove(s: Seq<ReminderView>, r: ReminderView)
    requires
        forall|i: int, j: int| 0 <= i <= j < s.len() && s[i] == r ==> s[j] == r,
    ensures
        s.push(r).contains(r),
        s.push(r).remove_value(r) == s,
{
    let t = s.push(r);
    assert(t[s.len() as int] == r);
    t.index_of_first_ensures(r);
    let first = t.index_of_first(r).unwrap();
    assert(first <= s.len());
    if first < s.len() {
        assert(s[first] == t[first]);
        assert forall|k: int| first <= k < s.len() implies t.remove(first)[k] == s[k] by {
            assert(s[k] == r);
            assert(t[k + 1] == r);
        }
    }
    assert(t.remove(first) =~= s);
}

/// Where the store holds a record equal to the reminder with a different
/// record after it, adding the reminder and removing it again does not give
/// back the store as it was: the earlier record is the one that goes.
pub proof fn lemma_add_then_remove_takes_the_first(s: Seq<ReminderView>, r: ReminderView)
    requires
        exists|i: int, j: int| 0 <= i <= j < s.len() && s[i] == r && s[j] != r,
    ensures
        s.push(r).remove_value(r) != s,
        s.push(r).remove_value(r).len() == s.len(),
{
    let (i, j) = choose|i: int, j: int| 0 <= i <= j < s.len() && s[i] == r && s[j] != r;
    let t = s.push(r);
    assert(t[i] == r);
    t.index_of_first_ensures(r);
    let first = t.index_of_first(r).unwrap();
    assert(first <= i);
    // Some record after `first` differs from `r`; take the last such one.
    let last = last_other(s, r, first, s.len() as int);
    lemma_last_other(s, r, first, s.len() as int, j);
    assert(t.remove(first)[last] == t[last + 1]);
    assert(t.remove(first)[last] == r);
}

/// The last place from `lo` up to, but not including, `hi` at which `s`
/// holds a record other than `r`; `lo - 1` if there is none.
spec fn last_other(s: Seq<ReminderView>, r: ReminderView, lo: int, hi: int) -> int
    decreases hi - lo,
{
    if hi <= lo {
        lo - 1
    } else if s[hi - 1] != r {
        hi - 1
    } else {
        last_other(s, r, lo, hi - 1)
    }
}

/// Where some record from `lo` up to `hi` differs from `r`, `last_other`
/// finds the last one: it differs from `r`, and each record after it, up to
/// `hi`, equals `r`.
proof fn lemma_last_other(s: Seq<ReminderView>, r: ReminderView, lo: int, hi: int, j: int)
    requires
        0 <= lo <= j < hi <= s.len(),
        s[j] != r,
    ensures
        j <= last_other(s, r, lo, hi) < hi,
        s[last_other(s, r, lo, hi)] != r,
        forall|k: int| last_other(s, r, lo, hi) < k < hi ==> s[k] == r,
    decreases hi - lo,
{
    if s[hi - 1] == r {
        lemma_last_other(s, r, lo, hi - 1, j);
    }
}

} // verus!
