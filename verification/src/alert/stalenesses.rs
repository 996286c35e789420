//! Staleness of a gauge reading.
//!
//! Gauges report every quarter of an hour. A reading that is older than a
//! freshness budget is not to be trusted: the sensor or its link may be down.
//! The age is counted in whole minutes, and a reading is stale when its age is
//! strictly greater than the budget. Callers commonly allow 60 minutes in calm
//! conditions and 20 during a flood.

use crate::model::GaugeReading;
use crate::time::{instant_of, Timestamp};
use vstd::prelude::*;

verus! {

/// Nanoseconds in one minute.
pub const NANOS_PER_MINUTE: i128 = 60_000_000_000;

/// The whole minutes that lie between `then` and `now`, rounded down. It is
/// negative where `then` lies after `now`.
pub open spec fn age_minutes(now: Timestamp, then: Timestamp) -> int {
    (now@ - then@) / 60_000_000_000
}

/// A reading taken at `then` is, at `now`, older than `max_age_minutes`.
pub open spec fn older_than(then: Timestamp, max_age_minutes: u64, now: Timestamp) -> bool {
    age_minutes(now, then) > max_age_minutes
}

/// The error that tells of a reading whose `datetime` is no instant.
pub open spec fn unreadable_datetime(datetime: Seq<char>) -> Seq<char> {
    "cannot parse reading datetime: "@ + datetime
}

/// What [`is_stale_at`] answers for a reading with the given `datetime`.
pub open spec fn staleness(datetime: Seq<char>, max_age_minutes: u64, now: Timestamp) -> Result<
    bool,
    Seq<char>,
> {
    match instant_of(datetime) {
        Some(then) => Ok(older_than(then, max_age_minutes, now)),
        None => Err(unreadable_datetime(datetime)),
    }
}

/// Mathematical form of an answer of [`is_stale_at`].
pub open spec fn answer_view(r: Result<bool, String>) -> Result<bool, Seq<char>> {
    match r {
        Ok(b) => Ok(b),
        Err(e) => Err(e@),
    }
}

/// Whether a reading taken at `then` is, at `now`, older than
/// `max_age_minutes`: its age in whole minutes is strictly greater.
pub fn exceeds_age(then: Timestamp, max_age_minutes: u64, now: Timestamp) -> (r: bool)
    ensures
        r == older_than(then, max_age_minutes, now),
{
    let elapsed: i128 = ((now.secs as i128) - (then.secs as i128)) * 1_000_000_000 + (
    (now.nanos as i128) - (then.nanos as i128));
    let limit: i128 = ((max_age_minutes as i128) + 1) * NANOS_PER_MINUTE;
    assert(elapsed == now@ - then@);
    elapsed >= limit
}

/// Whether `reading` is stale at `now`: older than `max_age_minutes`.
///
/// The reading's `datetime` is read as an RFC 3339 instant with its offset. A
/// reading whose age equals the budget is not stale. Where the `datetime`
/// cannot be read the answer is an error, never a boolean: it is for the
/// caller to treat such a reading as stale.
pub fn is_stale_at(reading: &GaugeReading, max_age_minutes: u64, now: Timestamp) -> (r: Result<
    bool,
    String,
>)
    ensures
        answer_view(r) == staleness(reading@.datetime, max_age_minutes, now),
{
    match Timestamp::parse_rfc3339(reading.datetime.as_str()) {
        Some(then) => Ok(exceeds_age(then, max_age_minutes, now)),
        None => {
            let mut msg = String::from_str("cannot parse reading datetime: ");
            msg.append(reading.datetime.as_str());
            Err(msg)
        },
    }
}

/// Whether `reading` is stale by the system clock. Use [`is_stale_at`] where
/// the answer has to be the same on every run.
pub fn is_stale(reading: &GaugeReading, max_age_minutes: u64) -> (r: Result<bool, String>)
    ensures
        exists|now: Timestamp| answer_view(r) == staleness(reading@.datetime, max_age_minutes, now),
{
    let now = Timestamp::now();
    is_stale_at(reading, max_age_minutes, now)
}

/// A reading whose age is `minutes` whole minutes and a part of a minute is
/// stale exactly when `minutes` is greater than the budget. So a reading as
/// old as the budget is fresh, and one a minute older is stale.
pub proof fn lemma_stale_above_budget(
    then: Timestamp,
    now: Timestamp,
    minutes: int,
    part: int,
    budget: u64,
)
    requires
        now@ == then@ + minutes * 60_000_000_000 + part,
        0 <= part < 60_000_000_000,
    ensures
        age_minutes(now, then) == minutes,
        older_than(then, budget, now) <==> minutes > budget,
        minutes == budget ==> !older_than(then, budget, now),
        minutes == budget + 1 ==> older_than(then, budget, now),
{
}

/// A reading that is stale under one budget is stale under every tighter one,
/// and a reading that is fresh stays fresh under every looser one.
pub proof fn lemma_stale_is_monotone(then: Timestamp, now: Timestamp, tight: u64, loose: u64)
    requires
        tight <= loose,
    ensures
        older_than(then, loose, now) ==> older_than(then, tight, now),
{
}

/// A datetime that cannot be read gives an error whatever the budget and the
/// clock, and a datetime that can be read never does.
pub proof fn lemma_unreadable_datetime_fails(datetime: Seq<char>, max_age_minutes: u64, now: Timestamp)
    ensures
        staleness(datetime, max_age_minutes, now) is Err <==> instant_of(datetime) is None,
{
}

} // verus!
