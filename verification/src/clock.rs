//! Timestamps. Every timestamp the control plane stores is an RFC 3339
//! string; the instant it denotes is modelled by [`rfc3339_micros`].

use vstd::prelude::*;

verus! {

/// The instant an RFC 3339 timestamp string denotes, in microseconds since
/// the Unix epoch, or `None` when the string does not parse. This names the
/// result of chrono's parser and is not otherwise specified.
pub uninterp spec fn rfc3339_micros(s: Seq<char>) -> Option<int>;

/// Relies on chrono::DateTime::parse_from_rfc3339 and
/// chrono::DateTime::timestamp_micros: the parse result is a function of the
/// string alone.
#[verifier::external_body]
pub fn parse_rfc3339_micros(s: &str) -> (r: Option<i64>)
    ensures
        match r {
            Some(t) => rfc3339_micros(s@) == Some(t as int),
            None => rfc3339_micros(s@) is None,
        },
{
    chrono::DateTime::parse_from_rfc3339(s)
        .ok()
        .map(|parsed| parsed.with_timezone(&chrono::Utc).timestamp_micros())
}

/// Relies on chrono::Utc::now, chrono::DateTime::to_rfc3339 and
/// chrono::DateTime::timestamp_micros: the rendered timestamp parses back to
/// the instant the clock returned. Nothing else is assumed of the clock
/// reading.
#[verifier::external_body]
pub fn now_rfc3339() -> (r: (String, i64))
    ensures
        rfc3339_micros(r.0@) == Some(r.1 as int),
{
    let now = chrono::Utc::now();
    (now.to_rfc3339(), now.timestamp_micros())
}

/// Relies on chrono::Utc::now, chrono::TimeDelta::seconds and
/// chrono::DateTime::to_rfc3339: the current instant and the instant
/// `seconds_ahead` seconds later, each rendered as an RFC 3339 string that
/// parses back to that instant. Nothing else is assumed of the clock reading.
#[verifier::external_body]
pub fn clock_window(seconds_ahead: u32) -> (r: (String, String, i64))
    ensures
        rfc3339_micros(r.0@) == Some(r.2 as int),
        rfc3339_micros(r.1@) == Some(r.2 + (seconds_ahead as int) * 1_000_000),
{
    let now = chrono::Utc::now();
    let later = now + chrono::TimeDelta::seconds(i64::from(seconds_ahead));
    (now.to_rfc3339(), later.to_rfc3339(), now.timestamp_micros())
}

/// Relies on uuid::Uuid::new_v4 and its hyphenated Display form: a fresh
/// random version-4 UUID, always rendered as 36 characters. Nothing else is
/// assumed; in particular, distinct calls are not assumed to return distinct
/// values.
#[verifier::external_body]
pub fn new_uuid() -> (r: String)
    ensures
        r@.len() == 36,
{
    uuid::Uuid::new_v4().to_string()
}

} // verus!
