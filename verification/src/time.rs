//! How instants are written in the tables, in UTC.

use vstd::prelude::*;
use crate::model::Timestamp;
use crate::text::opt_view;

verus! {

/// What chrono writes for the UTC instant `secs` seconds and `nanos`
/// nanoseconds after the Unix epoch under format `pattern`, or `None` when
/// the instant is outside chrono's range.
pub uninterp spec fn utc_format_text(secs: i64, nanos: u32, pattern: Seq<char>) -> Option<Seq<char>>;

/// The three layouts the tables use.
pub open spec fn known_pattern(p: Seq<char>) -> bool {
    p == "%Y-%m-%d %H:%M:%S"@ || p == "%H:%M:%S"@ || p == "%H:%M:%S.%3f"@
}

/// chrono's `DateTime::<Utc>::from_timestamp` followed by `format(pattern)`
/// written with `to_string`: the instant's text, `None` where
/// `from_timestamp` finds the instant out of range. The calendar arithmetic
/// and the layout rules are not written out. Only layouts without errors are
/// passed, so the formatting cannot fail.
#[verifier::external_body]
fn format_utc(secs: i64, nanos: u32, pattern: &str) -> (r: Option<String>)
    requires
        known_pattern(pattern@),
    ensures
        opt_view(r) == utc_format_text(secs, nanos, pattern@),
{
    match chrono::DateTime::from_timestamp(secs, nanos) {
        Some(t) => Some(t.format(pattern).to_string()),
        None => None,
    }
}

/// Date and time to the second, as the incident, blocklist and device
/// tables show them ("2024-05-01 13:45:00").
pub fn date_time_text(t: Timestamp) -> (r: Option<String>)
    ensures
        opt_view(r) == utc_format_text(t.secs, t.nanos, "%Y-%m-%d %H:%M:%S"@),
{
    format_utc(t.secs, t.nanos, "%Y-%m-%d %H:%M:%S")
}

/// Time of day to the second, as a device's traffic history shows it.
pub fn clock_text(t: Timestamp) -> (r: Option<String>)
    ensures
        opt_view(r) == utc_format_text(t.secs, t.nanos, "%H:%M:%S"@),
{
    format_utc(t.secs, t.nanos, "%H:%M:%S")
}

/// Time of day to the millisecond, as the live traffic table shows it.
pub fn clock_millis_text(t: Timestamp) -> (r: Option<String>)
    ensures
        opt_view(r) == utc_format_text(t.secs, t.nanos, "%H:%M:%S.%3f"@),
{
    format_utc(t.secs, t.nanos, "%H:%M:%S.%3f")
}

} // verus!
