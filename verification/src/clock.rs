//! The clock, and the text form in which timestamps go into SQL statements.

use vstd::prelude::*;

verus! {

/// The `strftime` pattern of timestamps in SQL statements:
/// `2024-01-31T12:34:56.789`.
pub const SQL_TIMESTAMP_FORMAT: &'static str = "%Y-%m-%dT%H:%M:%S%.3f";

/// Whether a `strftime` pattern uses only the specifiers `%Y %m %d %H %M %S`
/// and `%.3f` besides literal characters: a pattern that chrono reads
/// without error.
pub open spec fn simple_strftime(f: Seq<char>) -> bool
    decreases f.len(),
{
    if f.len() == 0 {
        true
    } else if f[0] == '%' {
        if f.len() >= 2 && (f[1] == 'Y' || f[1] == 'm' || f[1] == 'd' || f[1] == 'H' || f[1] == 'M'
            || f[1] == 'S') {
            simple_strftime(f.skip(2))
        } else if f.len() >= 4 && f[1] == '.' && f[2] == '3' && f[3] == 'f' {
            simple_strftime(f.skip(4))
        } else {
            false
        }
    } else {
        simple_strftime(f.skip(1))
    }
}

/// What chrono writes for the UTC instant `millis` milliseconds after the
/// Unix epoch with the pattern `format`, or `None` where
/// `DateTime::from_timestamp_millis` finds the instant out of its range.
pub uninterp spec fn utc_text(millis: int, format: Seq<char>) -> Option<Seq<char>>;

/// The current time in milliseconds since the Unix epoch, from
/// `chrono::Utc::now` and `DateTime::timestamp_millis`. The value is the
/// clock's; claimed of it only that chrono can turn it back into an instant
/// (`DateTime::from_timestamp_millis` is documented to round-trip
/// `timestamp_millis`), so that it can be written with any simple pattern.
#[verifier::external_body]
pub(crate) fn utc_now_millis() -> (res: i64)
    ensures
        forall|f: Seq<char>| simple_strftime(f) ==> (#[trigger] utc_text(res as int, f)) is Some,
{
    chrono::Utc::now().timestamp_millis()
}

/// Writes the UTC instant `millis` with a `strftime` pattern, through
/// `chrono::DateTime::from_timestamp_millis` and `DateTime::format`. Claimed
/// of it: the result is the named outcome of those two calls on these
/// arguments. Patterns outside `simple_strftime` are not admitted: for an
/// invalid pattern chrono's `to_string` panics.
#[verifier::external_body]
pub(crate) fn format_utc_millis(millis: i64, format: &str) -> (res: Option<String>)
    requires
        simple_strftime(format@),
    ensures
        res is Some <==> utc_text(millis as int, format@) is Some,
        res is Some ==> utc_text(millis as int, format@) == Some(res.unwrap()@),
{
    match chrono::DateTime::from_timestamp_millis(millis) {
        Some(dt) => Some(dt.format(format).to_string()),
        None => None,
    }
}

/// The SQL text of the UTC instant `millis`
/// (`SQL_TIMESTAMP_FORMAT`), or `None` when chrono cannot represent it.
pub open spec fn sql_timestamp_text(millis: int) -> Option<Seq<char>> {
    utc_text(millis, SQL_TIMESTAMP_FORMAT@)
}

/// The pattern of SQL timestamps is a simple one.
pub proof fn lemma_sql_timestamp_format_is_simple()
    ensures
        simple_strftime(SQL_TIMESTAMP_FORMAT@),
{
    reveal_strlit("%Y-%m-%dT%H:%M:%S%.3f");
    reveal_with_fuel(simple_strftime, 20);
}

/// Reads the clock: the current instant in milliseconds since the Unix
/// epoch, one that can be written as an SQL timestamp.
pub fn now_millis() -> (res: i64)
    ensures
        sql_timestamp_text(res as int) is Some,
{
    proof { lemma_sql_timestamp_format_is_simple(); }
    utc_now_millis()
}

/// Writes the UTC instant `millis` as an SQL timestamp,
/// `YYYY-MM-DDTHH:MM:SS.fff`.
pub fn sql_timestamp(millis: i64) -> (res: Option<String>)
    ensures
        res is Some <==> sql_timestamp_text(millis as int) is Some,
        res is Some ==> sql_timestamp_text(millis as int) == Some(res.unwrap()@),
{
    proof { lemma_sql_timestamp_format_is_simple(); }
    format_utc_millis(millis, SQL_TIMESTAMP_FORMAT)
}

} // verus!
