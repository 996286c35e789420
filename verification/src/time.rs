//! Instants on the UTC time line, and the calls into `chrono` that read them
//! from text and from the system clock.

use vstd::prelude::*;

verus! {

/// Nanoseconds in one second.
pub const NANOS_PER_SECOND: i64 = 1_000_000_000;

/// An instant: whole seconds since 1970-01-01 00:00:00 UTC, and the
/// nanoseconds that have passed since that second began.
#[derive(Debug, Clone, Copy, PartialEq, Eq, Hash, Structural)]
pub struct Timestamp {
    pub secs: i64,
    pub nanos: u32,
}

impl View for Timestamp {
    type V = int;

    /// The instant as nanoseconds since the epoch.
    open spec fn view(&self) -> int {
        self.secs * 1_000_000_000 + self.nanos
    }
}

/// What `chrono` reads from `text` as an RFC 3339 date and time: the seconds
/// since the epoch and the nanoseconds of the instant, or `None` where it
/// rejects the text.
pub uninterp spec fn rfc3339_instant(text: Seq<char>) -> Option<(i64, u32)>;

/// The instant that `text` denotes in RFC 3339 form, if it denotes one.
pub open spec fn instant_of(text: Seq<char>) -> Option<Timestamp> {
    match rfc3339_instant(text) {
        Some((secs, nanos)) => Some(Timestamp { secs, nanos }),
        None => None,
    }
}

/// Calls `chrono::DateTime::parse_from_rfc3339` and hands back the parsed
/// instant as `DateTime::timestamp` and `DateTime::timestamp_subsec_nanos`
/// give it. Trusted: the result is taken to be a function of the text alone,
/// which [`rfc3339_instant`] names.
#[verifier::external_body]
fn parse_rfc3339(text: &str) -> (r: Option<(i64, u32)>)
    ensures
        r == rfc3339_instant(text@),
{
    match chrono::DateTime::parse_from_rfc3339(text) {
        Ok(t) => Some((t.timestamp(), t.timestamp_subsec_nanos())),
        Err(_) => None,
    }
}

/// What `chrono` reads from `text` as a date and time of the form
/// `2026-02-21 19:54`, taken as UTC: the seconds since the epoch and the
/// nanoseconds of the instant, or `None` where it rejects the text.
pub uninterp spec fn utc_minute_instant(text: Seq<char>) -> Option<(i64, u32)>;

/// The instant that `text` denotes as a UTC date and time to the minute, if
/// it denotes one.
pub open spec fn minute_of(text: Seq<char>) -> Option<Timestamp> {
    match utc_minute_instant(text) {
        Some((secs, nanos)) => Some(Timestamp { secs, nanos }),
        None => None,
    }
}

/// Calls `chrono::NaiveDateTime::parse_from_str` with the format
/// `%Y-%m-%d %H:%M`, takes the result as UTC with `NaiveDateTime::and_utc`
/// and hands back the instant as `DateTime::timestamp` and
/// `DateTime::timestamp_subsec_nanos` give it. Trusted: the result is taken
/// to be a function of the text alone, which [`utc_minute_instant`] names.
#[verifier::external_body]
fn parse_utc_minute(text: &str) -> (r: Option<(i64, u32)>)
    ensures
        r == utc_minute_instant(text@),
{
    match chrono::NaiveDateTime::parse_from_str(text, "%Y-%m-%d %H:%M") {
        Ok(t) => Some((t.and_utc().timestamp(), t.and_utc().timestamp_subsec_nanos())),
        Err(_) => None,
    }
}

/// The instant `nanos` nanoseconds after second `secs` of the epoch as
/// `chrono` writes it in RFC 3339 form, or `None` where `chrono` cannot hold
/// that instant.
pub uninterp spec fn rfc3339_text(secs: i64, nanos: u32) -> Option<Seq<char>>;

/// Calls `chrono::DateTime::from_timestamp` and, where that gives an
/// instant, `DateTime::to_rfc3339` on it. Trusted: the result is taken to be
/// a function of the two numbers alone, which [`rfc3339_text`] names.
#[verifier::external_body]
fn format_rfc3339(secs: i64, nanos: u32) -> (r: Option<String>)
    ensures
        (match r {
            Some(text) => Some(text@),
            None => None,
        }) == rfc3339_text(secs, nanos),
{
    match chrono::DateTime::from_timestamp(secs, nanos) {
        Some(t) => Some(t.to_rfc3339()),
        None => None,
    }
}

/// Calls `chrono::Utc::now` and hands back the instant it reports. Trusted,
/// and nothing is claimed of the result: the clock may read anything. The
/// call aborts on a system clock that is set before 1970.
#[verifier::external_body]
fn utc_now() -> (r: (i64, u32)) {
    let t = chrono::Utc::now();
    (t.timestamp(), t.timestamp_subsec_nanos())
}

impl Timestamp {
    /// The instant `nanos` nanoseconds after second `secs` of the epoch.
    pub fn new(secs: i64, nanos: u32) -> (r: Timestamp)
        ensures
            r == (Timestamp { secs, nanos }),
    {
        Timestamp { secs, nanos }
    }

    /// The instant that `text` denotes in RFC 3339 form, such as
    /// `2024-05-01T08:00:00.000-05:00`; `None` where the text is rejected.
    pub fn parse_rfc3339(text: &str) -> (r: Option<Timestamp>)
        ensures
            r == instant_of(text@),
    {
        match parse_rfc3339(text) {
            Some((secs, nanos)) => Some(Timestamp { secs, nanos }),
            None => None,
        }
    }

    /// The instant that `text` denotes as a UTC date and time to the minute,
    /// such as `2026-02-21 19:54`; `None` where the text is rejected.
    pub fn parse_utc_minute(text: &str) -> (r: Option<Timestamp>)
        ensures
            r == minute_of(text@),
    {
        match parse_utc_minute(text) {
            Some((secs, nanos)) => Some(Timestamp { secs, nanos }),
            None => None,
        }
    }

    /// The instant in RFC 3339 form, such as `2024-05-01T13:00:00+00:00`;
    /// `None` where the instant is beyond the dates that can be written.
    pub fn to_rfc3339(&self) -> (r: Option<String>)
        ensures
            (match r {
                Some(text) => Some(text@),
                None => None,
            }) == rfc3339_text(self.secs, self.nanos),
    {
        format_rfc3339(self.secs, self.nanos)
    }

    /// The instant that the system clock reports.
    pub fn now() -> Timestamp {
        let (secs, nanos) = utc_now();
        Timestamp { secs, nanos }
    }

    /// Whether this instant lies before `other`.
    pub fn is_before(&self, other: &Timestamp) -> (r: bool)
        ensures
            r == (self@ < other@),
    {
        let a: i128 = (self.secs as i128) * (NANOS_PER_SECOND as i128) + (self.nanos as i128);
        let b: i128 = (other.secs as i128) * (NANOS_PER_SECOND as i128) + (other.nanos as i128);
        a < b
    }
}

} // verus!
