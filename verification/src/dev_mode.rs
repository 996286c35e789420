//! Replay of stored readings for development.
//!
//! Where no live data is to be had, readings of some days ago are shown as
//! if they were current. What is decided here is the stretch of time to
//! read them from; reading them is the caller's part.

use crate::time::Timestamp;
use vstd::prelude::*;

verus! {

/// How stored readings are replayed.
#[derive(Debug, Clone, Copy, PartialEq, Eq, Structural)]
pub struct DevMode {
    /// How many days back the replayed readings lie.
    pub days_offset: i64,
    /// Seconds between two updates of a gauge.
    pub update_interval_secs: i64,
}

/// A stretch of time, both ends included.
#[derive(Debug, Clone, Copy, PartialEq, Eq, Structural)]
pub struct ReplayWindow {
    pub start: Timestamp,
    pub end: Timestamp,
}

impl DevMode {
    /// The moment that stands for now in the replay: `now`, moved back by
    /// the days of the replay. In seconds since the epoch.
    pub open spec fn simulated_secs(self, now: Timestamp) -> int {
        now.secs - self.days_offset * 86_400
    }

    /// The second at which the window of the replay begins: two update
    /// intervals before the simulated now.
    pub open spec fn start_secs(self, now: Timestamp) -> int {
        self.simulated_secs(now) - 2 * self.update_interval_secs
    }

    /// The stretch of time to read the replayed readings from: it ends at
    /// the simulated now and is two update intervals long. `None` where an
    /// end of it is beyond the seconds that a [`Timestamp`] can hold.
    pub open spec fn window(self, now: Timestamp) -> Option<ReplayWindow> {
        if i64::MIN <= self.simulated_secs(now) <= i64::MAX && i64::MIN <= self.start_secs(now)
            <= i64::MAX {
            Some(
                ReplayWindow {
                    start: Timestamp { secs: self.start_secs(now) as i64, nanos: now.nanos },
                    end: Timestamp { secs: self.simulated_secs(now) as i64, nanos: now.nanos },
                },
            )
        } else {
            None
        }
    }

    /// A replay of the readings of `days_offset` days ago, for gauges that
    /// update every quarter of an hour.
    pub fn new(days_offset: i64) -> (r: DevMode)
        ensures
            r == (DevMode { days_offset, update_interval_secs: 900 }),
    {
        DevMode { days_offset, update_interval_secs: 900 }
    }

    /// The stretch of time to read the replayed readings from, as of `now`.
    /// See [`DevMode::window`].
    pub fn replay_window(&self, now: Timestamp) -> (r: Option<ReplayWindow>)
        ensures
            r == self.window(now),
    {
        let end: i128 = (now.secs as i128) - (self.days_offset as i128) * 86_400;
        let start: i128 = end - 2 * (self.update_interval_secs as i128);
        if end < (i64::MIN as i128) || end > (i64::MAX as i128) || start < (i64::MIN as i128)
            || start > (i64::MAX as i128) {
            return None;
        }
        Some(
            ReplayWindow {
                start: Timestamp { secs: start as i64, nanos: now.nanos },
                end: Timestamp { secs: end as i64, nanos: now.nanos },
            },
        )
    }

    /// The stretch of time for which a site has data, from the earliest and
    /// the latest time of its readings; `None` where it has no reading.
    pub fn data_range(earliest: Option<Timestamp>, latest: Option<Timestamp>) -> (r: Option<
        (Timestamp, Timestamp),
    >)
        ensures
            r == (match (earliest, latest) {
                (Some(start), Some(end)) => Some((start, end)),
                _ => None,
            }),
    {
        match (earliest, latest) {
            (Some(start), Some(end)) => Some((start, end)),
            _ => None,
        }
    }
}

/// With update intervals that are not negative the window of a replay ends
/// at the simulated now, does not begin after it, and is two update
/// intervals long.
pub proof fn lemma_window_spans_two_intervals(mode: DevMode, now: Timestamp)
    requires
        mode.update_interval_secs >= 0,
        mode.window(now) is Some,
    ensures
        mode.window(now)->0.end@ - mode.window(now)->0.start@ == 2 * mode.update_interval_secs
            * 1_000_000_000,
        mode.window(now)->0.start@ <= mode.window(now)->0.end@,
        mode.window(now)->0.end@ == now@ - mode.days_offset * 86_400 * 1_000_000_000,
{
}

} // verus!
