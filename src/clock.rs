//! Instants as plain numbers, and the calls into chrono that read the clock
//! and turn instants into text and back.
use vstd::prelude::*;
use vstd::string::*;

verus! {

/// An instant: whole seconds since the Unix epoch, and the nanoseconds past
/// that second (above 999,999,999 only inside a leap second).
#[derive(Debug, Clone, Copy, PartialEq, Eq, Structural)]
pub struct Timestamp {
    pub secs: i64,
    pub nanos: u32,
}

/// What an optional text holds, as characters.
pub open spec fn text_of(r: Option<String>) -> Option<Seq<char>> {
    match r {
        Some(s) => Some(s@),
        None => None,
    }
}

/// chrono's `YYYY-MM-DD HH:MM:SS[.fraction]` text of an instant in UTC, or
/// `None` where chrono cannot represent the instant.
pub uninterp spec fn naive_text(secs: int, nanos: int) -> Option<Seq<char>>;

/// chrono's `YYYY-MM-DD HH:MM:SS UTC` text of a whole-second instant, or
/// `None` where chrono cannot represent it.
pub uninterp spec fn utc_text(secs: int) -> Option<Seq<char>>;

/// chrono's `YYYY-MM-DD HH:MM:SS` text of an instant, fraction dropped, or
/// `None` where chrono cannot represent it.
pub uninterp spec fn sql_text(secs: int, nanos: int) -> Option<Seq<char>>;

/// The instant that chrono reads from `YYYY-MM-DD HH:MM:SS[.fraction]`, or
/// `None` where the text does not have that shape.
pub uninterp spec fn parsed_naive(text: Seq<char>) -> Option<Timestamp>;

/// Relies on `chrono::Utc::now`, which builds its value with
/// `DateTime::from_timestamp` from the system clock's seconds and sub-second
/// nanoseconds (below one billion), and on `timestamp` and
/// `timestamp_subsec_nanos`, which give those two numbers back: chrono can
/// represent and write out the instant read.
#[verifier::external_body]
fn utc_now() -> (r: Timestamp)
    ensures
        r.nanos < 1_000_000_000,
        naive_text(r.secs as int, r.nanos as int) is Some,
        sql_text(r.secs as int, r.nanos as int) is Some,
{
    let now = chrono::Utc::now();
    Timestamp { secs: now.timestamp(), nanos: now.timestamp_subsec_nanos() }
}

/// The current wall-clock instant, one that chrono can write out.
pub fn now() -> (r: Timestamp)
    ensures
        r.nanos < 1_000_000_000,
        naive_text(r.secs as int, r.nanos as int) is Some,
        sql_text(r.secs as int, r.nanos as int) is Some,
{
    utc_now()
}

/// Relies on `chrono::DateTime::from_timestamp` and the `Display` of
/// `NaiveDateTime`: the text depends on the instant alone.
#[verifier::external_body]
pub(crate) fn naive_datetime_text(t: &Timestamp) -> (r: Option<String>)
    ensures
        text_of(r) == naive_text(t.secs as int, t.nanos as int),
{
    match chrono::DateTime::from_timestamp(t.secs, t.nanos) {
        Some(d) => Some(d.naive_utc().to_string()),
        None => None,
    }
}

/// Relies on `chrono::TimeZone::timestamp_opt` for `Utc` and the `Display`
/// of `DateTime<Utc>`: the text depends on the seconds alone.
#[verifier::external_body]
pub(crate) fn utc_seconds_text(secs: i64) -> (r: Option<String>)
    ensures
        text_of(r) == utc_text(secs as int),
{
    match chrono::TimeZone::timestamp_opt(&chrono::Utc, secs, 0).single() {
        Some(d) => Some(d.to_string()),
        None => None,
    }
}

/// Relies on `chrono::DateTime::from_timestamp` and `NaiveDateTime::format`
/// with `%Y-%m-%d %H:%M:%S`, a valid pattern: the text depends on the
/// instant alone.
#[verifier::external_body]
pub(crate) fn sql_datetime_text(t: &Timestamp) -> (r: Option<String>)
    ensures
        text_of(r) == sql_text(t.secs as int, t.nanos as int),
{
    match chrono::DateTime::from_timestamp(t.secs, t.nanos) {
        Some(d) => Some(d.naive_utc().format("%Y-%m-%d %H:%M:%S").to_string()),
        None => None,
    }
}

/// Relies on `chrono::NaiveDateTime::parse_from_str` with
/// `%Y-%m-%d %H:%M:%S%.f`, whose fraction may have any number of digits or
/// be absent: the outcome depends on the text alone.
#[verifier::external_body]
pub(crate) fn parse_naive_datetime(text: &str) -> (r: Option<Timestamp>)
    ensures
        r == parsed_naive(text@),
{
    match chrono::NaiveDateTime::parse_from_str(text, "%Y-%m-%d %H:%M:%S%.f") {
        Ok(d) => Some(Timestamp {
            secs: d.and_utc().timestamp(),
            nanos: d.and_utc().timestamp_subsec_nanos(),
        }),
        Err(_) => None,
    }
}

/// The text under which a quote received at `t` is stamped.
pub fn observed_text(t: &Timestamp) -> (r: Result<String, crate::model::FetchError>)
    ensures
        match naive_text(t.secs as int, t.nanos as int) {
            Some(s) => r is Ok && r->Ok_0@ == s,
            None => r == Err::<String, _>(crate::model::FetchError::TimestampParseFailed),
        },
{
    match naive_datetime_text(t) {
        Some(s) => Ok(s),
        None => Err(crate::model::FetchError::TimestampParseFailed),
    }
}

/// The text that chrono gives the Unix epoch in UTC.
pub const EPOCH_TEXT: &'static str = "1970-01-01 00:00:00 UTC";

/// The UTC text of a whole-second instant, the epoch's where chrono cannot
/// represent it.
pub open spec fn utc_text_or_epoch(secs: int) -> Seq<char> {
    match utc_text(secs) {
        Some(t) => t,
        None => EPOCH_TEXT@,
    }
}

/// The UTC text of a whole-second instant, falling back to the epoch.
pub fn utc_text_or_epoch_of(secs: i64) -> (r: String)
    ensures
        r@ == utc_text_or_epoch(secs as int),
{
    match utc_seconds_text(secs) {
        Some(t) => t,
        None => String::from_str(EPOCH_TEXT),
    }
}

} // verus!
