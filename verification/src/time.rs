//! Conversions of object timestamps to UTC calendar instants, and their
//! ordering.

use aws_smithy_types::date_time::Format;
use aws_smithy_types::DateTime as SmithyDateTime;
use aws_smithy_types_convert::date_time::DateTimeExt;
use vstd::prelude::*;

use crate::types::{opt_view, Timestamp, NANOS_PER_SECOND};

verus! {

/// A UTC calendar instant as seconds since the Unix epoch plus the
/// sub-second part in nanoseconds (which exceeds one second only during a
/// leap second). Instants are ordered by seconds, then by nanoseconds.
#[derive(Clone, Copy, Debug)]
pub struct UtcTime {
    pub secs: i64,
    pub nanos: u32,
}

/// `a` is at or before `b`.
pub open spec fn utc_le(a: UtcTime, b: UtcTime) -> bool {
    a.secs < b.secs || (a.secs == b.secs && a.nanos <= b.nanos)
}

/// `a` is strictly before `b`.
pub open spec fn utc_lt(a: UtcTime, b: UtcTime) -> bool {
    a.secs < b.secs || (a.secs == b.secs && a.nanos < b.nanos)
}

/// Decides `a <= b`.
pub fn utc_time_le(a: &UtcTime, b: &UtcTime) -> (r: bool)
    ensures
        r == utc_le(*a, *b),
{
    a.secs < b.secs || (a.secs == b.secs && a.nanos <= b.nanos)
}

/// Decides `a < b`.
pub fn utc_time_lt(a: &UtcTime, b: &UtcTime) -> (r: bool)
    ensures
        r == utc_lt(*a, *b),
{
    a.secs < b.secs || (a.secs == b.secs && a.nanos < b.nanos)
}

/// Milliseconds since the Unix epoch of `secs` seconds plus `nanos`
/// nanoseconds, the sub-millisecond part dropped.
pub open spec fn epoch_millis(secs: int, nanos: int) -> int {
    secs * 1000 + nanos / 1_000_000
}

/// Whether the UTC calendar (`chrono::DateTime<Utc>`) can represent the
/// instant `millis` milliseconds after the Unix epoch.
pub uninterp spec fn utc_accepts_millis(millis: i64) -> bool;

/// Textual form (`DateTimeFormat::DateTime`, RFC 3339) of the instant
/// `secs` seconds plus `nanos` nanoseconds after the Unix epoch; `None` when
/// it cannot be formatted.
pub uninterp spec fn date_time_text(secs: i64, nanos: u32) -> Option<Seq<char>>;

/// `aws_smithy_types::DateTime::to_millis`: the epoch milliseconds of the
/// instant, or `None` when they do not fit in an `i64`. The contract states
/// the function exactly, as its source computes it.
#[verifier::external_body]
fn smithy_to_millis(secs: i64, nanos: u32) -> (r: Option<i64>)
    requires
        nanos < NANOS_PER_SECOND,
    ensures
        r is Some <==> i64::MIN <= epoch_millis(secs as int, nanos as int) <= i64::MAX,
        r matches Some(m) ==> m == epoch_millis(secs as int, nanos as int),
{
    SmithyDateTime::from_secs_and_nanos(secs, nanos).to_millis().ok()
}

/// `aws_smithy_types::DateTime::from_millis` followed by
/// `aws_smithy_types_convert`'s `to_chrono_utc`. The contract states the
/// instant exactly (floor division of the milliseconds into seconds and a
/// sub-second part); whether chrono's calendar range holds the instant is
/// left to the name `utc_accepts_millis`.
#[verifier::external_body]
fn smithy_millis_to_chrono_utc(millis: i64) -> (r: Option<UtcTime>)
    ensures
        r is Some <==> utc_accepts_millis(millis),
        r matches Some(t) ==> t.secs == millis / 1000 && t.nanos == (millis % 1000) * 1_000_000,
{
    match SmithyDateTime::from_millis(millis).to_chrono_utc() {
        Ok(t) => Some(UtcTime { secs: t.timestamp(), nanos: t.timestamp_subsec_nanos() }),
        Err(_) => None,
    }
}

/// `aws_smithy_types::DateTime::fmt(Format::DateTime)`: the RFC 3339 text of
/// the instant, named by `date_time_text`.
#[verifier::external_body]
fn smithy_format_date_time(secs: i64, nanos: u32) -> (r: Option<String>)
    requires
        nanos < NANOS_PER_SECOND,
    ensures
        opt_view(r) == date_time_text(secs, nanos),
{
    SmithyDateTime::from_secs_and_nanos(secs, nanos).fmt(Format::DateTime).ok()
}

/// The UTC instant of a timestamp truncated to milliseconds, when both the
/// millisecond count and the calendar can hold it.
pub open spec fn timestamp_to_utc(t: Timestamp) -> Option<UtcTime> {
    let m = epoch_millis(t.spec_secs() as int, t.spec_nanos() as int);
    if i64::MIN <= m <= i64::MAX && utc_accepts_millis(m as i64) {
        Some(
            UtcTime {
                secs: ((m as i64) / 1000) as i64,
                nanos: (((m as i64) % 1000) * 1_000_000) as u32,
            },
        )
    } else {
        None
    }
}

/// Converts an object timestamp to a UTC instant, millisecond precision.
pub fn to_utc(t: Timestamp) -> (r: Option<UtcTime>)
    ensures
        r == timestamp_to_utc(t),
{
    let nanos = t.subsec_nanos();
    match smithy_to_millis(t.secs(), nanos) {
        Some(m) => smithy_millis_to_chrono_utc(m),
        None => None,
    }
}

/// The textual form of a timestamp, empty when it cannot be formatted.
pub open spec fn timestamp_text(t: Timestamp) -> Seq<char> {
    match date_time_text(t.spec_secs(), t.spec_nanos()) {
        Some(s) => s,
        None => Seq::empty(),
    }
}

/// Formats a timestamp as RFC 3339 text, or the empty string.
pub fn format_timestamp(t: Timestamp) -> (r: String)
    ensures
        r@ == timestamp_text(t),
{
    let nanos = t.subsec_nanos();
    match smithy_format_date_time(t.secs(), nanos) {
        Some(s) => s,
        None => String::new(),
    }
}

} // verus!
