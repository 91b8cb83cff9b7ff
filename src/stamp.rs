//! Publication instants, read from RFC 3339 text.

use vstd::prelude::*;

verus! {

/// An instant: whole seconds since the Unix epoch, and the nanoseconds past
/// that second (above 999_999_999 only within a leap second).
#[derive(Clone, Copy, Debug, PartialEq, Eq, Structural)]
pub struct Stamp {
    pub secs: i64,
    pub nanos: u32,
}

/// `a` is a strictly later instant than `b`.
pub open spec fn later(a: Stamp, b: Stamp) -> bool {
    a.secs > b.secs || (a.secs == b.secs && a.nanos > b.nanos)
}

/// The instant that a date text denotes as chrono's RFC 3339 parser reads it
/// (which also takes a space or lowercase `t` separator and a `UTC` suffix),
/// or `None` where that parser refuses the text.
pub uninterp spec fn rfc3339_stamp(s: Seq<char>) -> Option<Stamp>;

/// The instant of an optional date text: `None` where the text is absent or
/// the parser refuses it.
pub open spec fn stamp_of(s: Option<Seq<char>>) -> Option<Stamp> {
    match s {
        Some(t) => rfc3339_stamp(t),
        None => None,
    }
}

/// Relies on chrono's `DateTime::parse_from_rfc3339`, whose result depends on
/// the text alone; its `timestamp` and `timestamp_subsec_nanos` give the
/// instant in UTC. chrono orders two such
/// values by that instant, which is the order of (`secs`, `nanos`).
#[verifier::external_body]
fn parse_rfc3339(s: &str) -> (r: Option<Stamp>)
    ensures
        r == rfc3339_stamp(s@),
{
    chrono::DateTime::parse_from_rfc3339(s).ok().map(
        |d| Stamp { secs: d.timestamp(), nanos: d.timestamp_subsec_nanos() },
    )
}

/// The instant of an entry's optional publication date.
pub fn parse_published(value: &Option<String>) -> (r: Option<Stamp>)
    ensures
        r == stamp_of(crate::model::opt_text(*value)),
{
    match value {
        Some(s) => parse_rfc3339(s.as_str()),
        None => None,
    }
}

/// `a` is strictly later than `b`.
pub fn is_later(a: Stamp, b: Stamp) -> (r: bool)
    ensures
        r == later(a, b),
{
    a.secs > b.secs || (a.secs == b.secs && a.nanos > b.nanos)
}

} // verus!
