//! When to save and when to derive again: instants, the record of when the
//! images of each photo were last derived, and the two periodic refreshes.

use vstd::prelude::*;
use vstd::string::*;
use crate::lookup::{distinct, last_index_of, lemma_last_index_of};

verus! {

/// Seconds in one minute.
pub const MINUTES: i32 = 60;

/// Seconds between two checks of the derived images.
pub const SAVE_IMAGE_DIFF_TIME: i32 = MINUTES * 7;

/// Seconds between two checks of the import manifest.
pub const SAVE_JSON_DIFF_TIME: i32 = MINUTES;

/// An instant: whole seconds since the start of 1970 in universal time, and
/// the nanoseconds after them. Instants are ordered by the seconds first
/// and the nanoseconds second.
#[derive(Debug, Clone, Copy, PartialEq, Eq)]
pub struct TimeStamp {
    pub secs: i64,
    pub nanos: u32,
}

impl TimeStamp {
    /// Whether this instant is strictly earlier than `other`.
    pub open spec fn is_before(self, other: TimeStamp) -> bool {
        self.secs < other.secs || (self.secs == other.secs && self.nanos < other.nanos)
    }

    /// Whether this instant is strictly earlier than `other`.
    pub fn before(&self, other: &TimeStamp) -> (r: bool)
        ensures
            r == self.is_before(*other),
    {
        self.secs < other.secs || (self.secs == other.secs && self.nanos < other.nanos)
    }
}

/// The instant `sec` seconds after `time`; `sec` may be negative.
pub fn time_add_sec(time: TimeStamp, sec: i32) -> (r: TimeStamp)
    requires
        i64::MIN <= time.secs + sec <= i64::MAX,
    ensures
        r.secs == time.secs + sec,
        r.nanos == time.nanos,
{
    TimeStamp { secs: time.secs + (sec as i64), nanos: time.nanos }
}

/// Whether more than `interval` seconds have passed from `last` to `now`.
pub open spec fn interval_exceeded(last: TimeStamp, now: TimeStamp, interval: int) -> bool {
    last.secs + interval < now.secs || (last.secs + interval == now.secs && last.nanos < now.nanos)
}

/// Whether a periodic refresh that last ran at `last` is due at `now`: it is
/// once more than `interval` seconds have passed.
pub fn refresh_due(last: TimeStamp, now: TimeStamp, interval: i32) -> (r: bool)
    ensures
        r == interval_exceeded(last, now, interval as int),
{
    let due: i128 = (last.secs as i128) + (interval as i128);
    let current: i128 = now.secs as i128;
    due < current || (due == current && last.nanos < now.nanos)
}

/// When the images of one photo were last derived.
#[derive(Debug, PartialEq, Eq)]
pub struct TimeInfo {
    pub id: String,
    pub time: TimeStamp,
}

/// The model of a [`TimeInfo`].
pub struct TimeInfoView {
    pub id: Seq<char>,
    pub time: TimeStamp,
}

impl View for TimeInfo {
    type V = TimeInfoView;

    open spec fn view(&self) -> TimeInfoView {
        TimeInfoView { id: self.id@, time: self.time }
    }
}

impl Clone for TimeInfo {
    fn clone(&self) -> (r: Self)
        ensures
            r@ == self@,
    {
        TimeInfo { id: self.id.clone(), time: self.time }
    }
}

/// The models of the entries of a record of derivations, in order.
pub open spec fn time_info_views(s: Seq<TimeInfo>) -> Seq<TimeInfoView> {
    s.map_values(|t: TimeInfo| t@)
}

/// The identifiers of the entries, in order.
pub open spec fn time_info_ids(s: Seq<TimeInfoView>) -> Seq<Seq<char>> {
    s.map_values(|t: TimeInfoView| t.id)
}

/// When the images of the photo `id` were last derived, if ever. Of several
/// entries for one photo the last counts.
pub open spec fn last_derived(s: Seq<TimeInfoView>, id: Seq<char>) -> Option<TimeStamp> {
    match last_index_of(time_info_ids(s), id) {
        Some(i) => Some(s[i].time),
        None => None,
    }
}

/// Whether the images of a photo must be derived again: they were never
/// derived, or the time of the source file cannot be read, or they were
/// derived strictly before the time of the source file.
pub open spec fn stale(s: Seq<TimeInfoView>, id: Seq<char>, source_time: Option<TimeStamp>) -> bool {
    match last_derived(s, id) {
        None => true,
        Some(derived) => match source_time {
            None => true,
            Some(source) => derived.is_before(source),
        },
    }
}

/// The record of derivations after the photo `id` was derived at `now`.
pub open spec fn marked_fresh(s: Seq<TimeInfoView>, id: Seq<char>, now: TimeStamp) -> Seq<
    TimeInfoView,
> {
    match last_index_of(time_info_ids(s), id) {
        Some(i) => s.update(i, TimeInfoView { id: id, time: now }),
        None => s.push(TimeInfoView { id: id, time: now }),
    }
}

/// The place of the entry that counts for the photo `id`.
pub fn time_info_index(time_info_lst: &Vec<TimeInfo>, id: &String) -> (r: Option<usize>)
    ensures
        match r {
            Some(i) => i < time_info_lst.len() && last_index_of(
                time_info_ids(time_info_views(time_info_lst@)),
                id@,
            ) == Some(i as int),
            None => last_index_of(time_info_ids(time_info_views(time_info_lst@)), id@) is None,
        },
{
    let ghost keys = time_info_ids(time_info_views(time_info_lst@));
    let mut i: usize = time_info_lst.len();
    while i > 0
        invariant
            i <= time_info_lst.len(),
            keys == time_info_ids(time_info_views(time_info_lst@)),
            forall|j: int| i <= j < time_info_lst.len() ==> keys[j] != id@,
        decreases i,
    {
        i -= 1;
        assert(keys[i as int] == time_info_lst[i as int]@.id);
        if time_info_lst[i].id == *id {
            proof {
                lemma_last_index_of(keys, id@);
            }
            return Some(i);
        }
    }
    proof {
        lemma_last_index_of(keys, id@);
    }
    None
}

/// Decides whether the images of a photo must be derived again, from the
/// record of derivations and the time of the photo's source file, which is
/// absent where it could not be read: see [`stale`].
pub fn is_stale(time_info_lst: &Vec<TimeInfo>, photo_id: &str, source_time: Option<TimeStamp>) -> (r:
    bool)
    ensures
        r == stale(time_info_views(time_info_lst@), photo_id@, source_time),
{
    let id = photo_id.to_owned();
    match time_info_index(time_info_lst, &id) {
        None => true,
        Some(i) => match source_time {
            None => true,
            Some(source) => time_info_lst[i].time.before(&source),
        },
    }
}

/// Records that the images of a photo were derived at `now`, in place of
/// what was recorded for it before.
pub fn mark_fresh(time_info_lst: &mut Vec<TimeInfo>, photo_id: &str, now: TimeStamp)
    ensures
        time_info_views(final(time_info_lst)@) == marked_fresh(
            time_info_views(old(time_info_lst)@),
            photo_id@,
            now,
        ),
{
    let id = photo_id.to_owned();
    let ghost before = time_info_views(time_info_lst@);
    let entry = TimeInfo { id: id.clone(), time: now };
    match time_info_index(time_info_lst, &id) {
        Some(i) => {
            time_info_lst.set(i, entry);
            assert(time_info_views(time_info_lst@) =~= before.update(
                i as int,
                TimeInfoView { id: photo_id@, time: now },
            ));
        },
        None => {
            time_info_lst.push(entry);
            assert(time_info_views(time_info_lst@) =~= before.push(
                TimeInfoView { id: photo_id@, time: now },
            ));
        },
    }
}

/// After the images of a photo were derived at `now`, they are stale
/// exactly when the source file cannot be read or carries a later time than
/// `now`: they stay fresh while the file is not touched, and touching the
/// file makes them stale again. What is recorded for other photos is as it
/// was.
pub proof fn lemma_fresh_until_touched(
    s: Seq<TimeInfoView>,
    id: Seq<char>,
    now: TimeStamp,
    source: TimeStamp,
    other: Seq<char>,
)
    ensures
        last_derived(marked_fresh(s, id, now), id) == Some(now),
        stale(marked_fresh(s, id, now), id, Some(source)) == now.is_before(source),
        !now.is_before(source) ==> !stale(marked_fresh(s, id, now), id, Some(source)),
        now.is_before(source) ==> stale(marked_fresh(s, id, now), id, Some(source)),
        stale(marked_fresh(s, id, now), id, None),
        other != id ==> last_derived(marked_fresh(s, id, now), other) == last_derived(s, other),
{
    let ids = time_info_ids(s);
    let after = marked_fresh(s, id, now);
    let ids_after = time_info_ids(after);
    lemma_last_index_of(ids, id);
    lemma_last_index_of(ids, other);
    lemma_last_index_of(ids_after, id);
    lemma_last_index_of(ids_after, other);
    match last_index_of(ids, id) {
        Some(i) => {
            assert(ids_after =~= ids);
        },
        None => {
            assert(ids_after =~= ids.push(id));
            assert(ids_after[s.len() as int] == id);
        },
    }
    if other != id {
        match last_index_of(ids_after, other) {
            Some(k) => {
                assert(ids_after[k] == other);
                assert(k < s.len());
                assert(ids[k] == other);
                assert forall|j: int| k < j < ids.len() implies ids[j] != other by {
                    assert(ids_after[j] == ids[j]);
                }
                assert(last_index_of(ids, other) == Some(k));
                assert(after[k] == s[k]);
            },
            None => {
                assert forall|j: int| 0 <= j < ids.len() implies ids[j] != other by {
                    assert(ids_after[j] == ids[j]);
                }
            },
        }
    }
}

/// A record of derivations that holds one entry for each photo still does
/// after a derivation was recorded.
pub proof fn lemma_marked_fresh_distinct(s: Seq<TimeInfoView>, id: Seq<char>, now: TimeStamp)
    requires
        distinct(time_info_ids(s)),
    ensures
        distinct(time_info_ids(marked_fresh(s, id, now))),
{
    let ids = time_info_ids(s);
    let ids_after = time_info_ids(marked_fresh(s, id, now));
    lemma_last_index_of(ids, id);
    match last_index_of(ids, id) {
        Some(i) => {
            assert(ids_after =~= ids);
        },
        None => {
            assert(ids_after =~= ids.push(id));
        },
    }
}

} // verus!
