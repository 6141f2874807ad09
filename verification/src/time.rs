//! Instants in UTC, as the issue data carries them, and the calls into `chrono` that
//! read and take them.
use vstd::prelude::*;

verus! {

/// An instant in UTC: whole seconds since the Unix epoch and the nanoseconds past them.
#[derive(Debug, Clone, Copy, PartialEq, Eq, Structural)]
pub struct Timestamp {
    pub secs: i64,
    pub nanos: u32,
}

/// What `chrono` reads from a text as a `DateTime<Utc>` (`str::parse`): the seconds
/// and subsecond nanoseconds of the instant, or `None` where it refuses the text.
pub uninterp spec fn parsed_utc(s: Seq<char>) -> Option<(i64, u32)>;

/// The instant that a `(seconds, nanoseconds)` pair names.
pub open spec fn instant(p: (i64, u32)) -> Timestamp {
    Timestamp { secs: p.0, nanos: p.1 }
}

/// The instant that `chrono` reads from `s`, as `s.parse::<DateTime<Utc>>()` gives it:
/// the result's `timestamp()` and `timestamp_subsec_nanos()`, or `None` on a parse error.
#[verifier::external_body]
pub(crate) fn parse_utc(s: &str) -> (r: Option<Timestamp>)
    ensures
        r == (match parsed_utc(s@) {
            Some(p) => Some(instant(p)),
            None => None,
        }),
{
    match s.parse::<chrono::DateTime<chrono::Utc>>() {
        Ok(d) => Some(Timestamp { secs: d.timestamp(), nanos: d.timestamp_subsec_nanos() }),
        Err(_) => None,
    }
}

/// The current instant (`Utc::now()`). It depends on the clock, so nothing is promised
/// of its value.
#[verifier::external_body]
pub(crate) fn utc_now() -> (r: Timestamp) {
    let d = chrono::Utc::now();
    Timestamp { secs: d.timestamp(), nanos: d.timestamp_subsec_nanos() }
}

impl Timestamp {
    /// The Unix epoch, which `DateTime<Utc>::default()` is.
    pub fn epoch() -> (r: Timestamp)
        ensures
            r.secs == 0 && r.nanos == 0,
    {
        Timestamp { secs: 0, nanos: 0 }
    }

    /// The instant that `chrono` reads from `s` as a `DateTime<Utc>`, if it reads one.
    pub fn parse(s: &str) -> (r: Option<Timestamp>)
        ensures
            r == (match parsed_utc(s@) {
                Some(p) => Some(instant(p)),
                None => None,
            }),
    {
        parse_utc(s)
    }

    /// The current instant.
    pub fn now() -> (r: Timestamp) {
        utc_now()
    }

    /// This instant written as `%Y-%m-%d %H:%M` in UTC, where `chrono` can write it.
    pub fn to_minutes_text(&self) -> (r: Option<String>)
        ensures
            (match r {
                Some(s) => Some(s@),
                None => None,
            }) == utc_minutes(self.secs, self.nanos),
    {
        format_minutes(*self)
    }
}

} // verus!

verus! {

/// What `chrono` writes for the instant `(secs, nanos)` in UTC with the pattern
/// `%Y-%m-%d %H:%M`; `None` where `DateTime::from_timestamp` has no such instant.
pub uninterp spec fn utc_minutes(secs: i64, nanos: u32) -> Option<Seq<char>>;

/// What `chrono` writes for the instant `(secs, nanos)` in UTC with the pattern
/// `%Y-%m-%d %H:%M UTC`; `None` where `DateTime::from_timestamp` has no such instant.
pub uninterp spec fn utc_minutes_labelled(secs: i64, nanos: u32) -> Option<Seq<char>>;

/// The instant as `DateTime::from_timestamp(..).format("%Y-%m-%d %H:%M")` writes it.
#[verifier::external_body]
pub(crate) fn format_minutes(t: Timestamp) -> (r: Option<String>)
    ensures
        (match r {
            Some(s) => Some(s@),
            None => None,
        }) == utc_minutes(t.secs, t.nanos),
{
    match chrono::DateTime::from_timestamp(t.secs, t.nanos) {
        Some(d) => Some(d.format("%Y-%m-%d %H:%M").to_string()),
        None => None,
    }
}

/// The instant as `DateTime::from_timestamp(..).format("%Y-%m-%d %H:%M UTC")` writes it.
#[verifier::external_body]
pub(crate) fn format_minutes_labelled(t: Timestamp) -> (r: Option<String>)
    ensures
        (match r {
            Some(s) => Some(s@),
            None => None,
        }) == utc_minutes_labelled(t.secs, t.nanos),
{
    match chrono::DateTime::from_timestamp(t.secs, t.nanos) {
        Some(d) => Some(d.format("%Y-%m-%d %H:%M UTC").to_string()),
        None => None,
    }
}

/// A formatted instant's text, empty where there is no such instant.
pub open spec fn or_empty(o: Option<Seq<char>>) -> Seq<char> {
    match o {
        Some(s) => s,
        None => Seq::empty(),
    }
}

} // verus!
