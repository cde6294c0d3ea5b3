//! The bot's timed work: an hourly cow with a fortune in every fortune
//! channel, checked once a minute, and the guard that starts the timed loops
//! only once.
use vstd::prelude::*;
use crate::channels::FortuneChannel;
use chrono::{DateTime, Timelike};

verus! {

/// The minute of the hour, in UTC, at `secs` seconds after the Unix epoch
/// (Unix time counts no leap seconds).
pub open spec fn minute_spec(secs: int) -> int {
    (secs % 3600) / 60
}

/// The timestamps that chrono can turn into a date-time: from the first
/// second of -262143-01-01 to the last second of +262142-12-31, chrono's
/// first and last dates.
pub open spec fn timestamp_in_range(secs: int) -> bool {
    -8_334_601_228_800 <= secs <= 8_210_266_876_799
}

/// The minute of the hour at a Unix timestamp (`chrono::DateTime::from_timestamp`
/// with no nanoseconds, then `Timelike::minute` of its time of day): `None`
/// exactly for a timestamp outside chrono's range of dates; otherwise the
/// minute, `(secs mod 3600) / 60`.
#[verifier::external_body]
fn utc_minute(secs: i64) -> (res: Option<u32>)
    ensures
        res is Some <==> timestamp_in_range(secs as int),
        res matches Some(m) ==> m == minute_spec(secs as int),
{
    match DateTime::from_timestamp(secs, 0) {
        Some(t) => Some(t.time().minute()),
        None => None,
    }
}

/// Whether the hourly post is due at `now_secs` (a Unix timestamp): exactly
/// when the minute of the hour is 0, for a timestamp that chrono can read.
pub fn hourly_post_due(now_secs: i64) -> (res: bool)
    ensures
        res <==> timestamp_in_range(now_secs as int) && minute_spec(now_secs as int) == 0,
{
    match utc_minute(now_secs) {
        Some(m) => m == 0,
        None => false,
    }
}

/// The minute of the hour lies in 0..60 and is 0 exactly in the first 60
/// seconds of each clock hour.
pub proof fn lemma_minute_of_hour(secs: int)
    ensures
        0 <= minute_spec(secs) < 60,
        minute_spec(secs) == 0 <==> secs - (secs / 3600) * 3600 < 60,
{
}

/// At most one hourly post per clock hour: two timestamps at which the post
/// is due, at least 60 seconds apart (the spacing of the checks), fall in
/// different clock hours.
pub proof fn lemma_due_once_per_hour(earlier: int, later: int)
    requires
        earlier + 60 <= later,
        minute_spec(earlier) == 0,
        minute_spec(later) == 0,
    ensures
        earlier / 3600 < later / 3600,
{
    assert(earlier == (earlier / 3600) * 3600 + earlier % 3600);
    assert(later == (later / 3600) * 3600 + later % 3600);
    assert(earlier % 3600 < 60);
    assert(later % 3600 < 60);
}

/// The channels that get the hourly post: the channel of every record, in
/// the records' order.
pub fn post_channels(records: &Vec<FortuneChannel>) -> (res: Vec<u64>)
    ensures
        res@.len() == records@.len(),
        forall|i: int| 0 <= i < res@.len() ==> res@[i] == #[trigger] records@[i].spec_channel(),
{
    let mut res: Vec<u64> = Vec::new();
    let mut i: usize = 0;
    while i < records.len()
        invariant
            i <= records@.len(),
            res@.len() == i,
            forall|j: int| 0 <= j < i ==> res@[j] == #[trigger] records@[j].spec_channel(),
        decreases records@.len() - i,
    {
        res.push(records[i].channel());
        i = i + 1;
    }
    res
}

/// A cache-ready event on a guard in the given state: whether the loops
/// start, and whether they run afterwards.
pub open spec fn cache_ready_spec(running: bool) -> (bool, bool) {
    (!running, true)
}

/// The loops start at most once: the first cache-ready event starts them,
/// they run after every event, and once an event has been handled no later
/// one starts them again.
pub proof fn lemma_loops_start_once(running: bool)
    ensures
        cache_ready_spec(false).0,
        cache_ready_spec(running).1,
        !cache_ready_spec(cache_ready_spec(running).1).0,
        cache_ready_spec(cache_ready_spec(running).1).1,
{
}

/// Whether the timed loops run. They are started when the cache is first
/// ready, and only then.
pub struct LoopGuard {
    running: bool,
}

impl LoopGuard {
    /// Whether the loops have been started.
    pub closed spec fn spec_running(&self) -> bool {
        self.running
    }

    /// A guard whose loops have not been started.
    pub fn new() -> (res: Self)
        ensures
            !res.spec_running(),
    {
        LoopGuard { running: false }
    }

    /// The cache is ready: whether to start the loops now, which is when they
    /// are not running yet. They run afterwards.
    pub fn cache_ready(&mut self) -> (start: bool)
        ensures
            (start, final(self).spec_running()) == cache_ready_spec(old(self).spec_running()),
    {
        let start = !self.running;
        self.running = true;
        start
    }

    /// Whether the loops have been started.
    pub fn is_running(&self) -> (res: bool)
        ensures
            res == self.spec_running(),
    {
        self.running
    }
}

} // verus!
