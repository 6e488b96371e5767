//! The wall clock as the pipeline reads it: once in UTC for the event, once in local time
//! for the archive name.

use vstd::prelude::*;
use crate::decimal::is_digit;

verus! {

/// An instant in UTC: whole seconds since 1970-01-01T00:00:00Z and the nanoseconds past them.
#[derive(Clone, Copy, Debug, PartialEq, Eq, Structural)]
pub struct Timestamp {
    pub secs: i64,
    pub nanos: u32,
}

/// The `strftime` pattern of the local time in an archive name: `%Y-%m-%d_%H-%M-%S`.
pub open spec fn stamp_pattern() -> Seq<char> {
    seq!['%', 'Y', '-', '%', 'm', '-', '%', 'd', '_', '%', 'H', '-', '%', 'M', '-', '%', 'S']
}

/// Whether `c` can stand in a stamp: a digit, a separator, or the sign of a year.
pub open spec fn stamp_char(c: char) -> bool {
    is_digit(c) || c == '-' || c == '_' || c == '+'
}

/// Whether `text` holds two digits at `at` and `at + 1`.
pub open spec fn two_digits(text: Seq<char>, at: int) -> bool {
    is_digit(text[at]) && is_digit(text[at + 1])
}

/// The shape that every stamp has, whatever the clock says: a year of four characters or
/// more, then `-mm-dd_HH-MM-SS`, two digits to each field.
pub open spec fn stamp_shaped(text: Seq<char>) -> bool {
    let end = text.len() as int;
    &&& end >= 19
    &&& forall|i: int| 0 <= i < end ==> stamp_char(#[trigger] text[i])
    &&& text[end - 15] == '-' && two_digits(text, end - 14)
    &&& text[end - 12] == '-' && two_digits(text, end - 11)
    &&& text[end - 9] == '_' && two_digits(text, end - 8)
    &&& text[end - 6] == '-' && two_digits(text, end - 5)
    &&& text[end - 3] == '-' && two_digits(text, end - 2)
}

/// Calls `chrono::Utc::now` and hands back the instant as seconds and nanoseconds
/// (`DateTime::timestamp`, `DateTime::timestamp_subsec_nanos`). Which instant it is depends
/// on the system clock. chrono builds it from the time that has passed since 1970, so the
/// seconds are not negative and the nanoseconds stay below one second. chrono gives up on a
/// clock that stands before 1970.
#[verifier::external_body]
pub(crate) fn utc_now() -> (now: Timestamp)
    ensures
        now.secs >= 0,
        now.nanos < 1_000_000_000,
{
    let now = chrono::Utc::now();
    Timestamp { secs: now.timestamp(), nanos: now.timestamp_subsec_nanos() }
}

/// Calls `chrono::Local::now` and renders it with `DateTime::format`. Which text it is
/// depends on the clock and on the machine's time zone; its shape does not. chrono writes
/// the year with four digits, or with a sign and more where four do not hold it, and every
/// other field with two digits, between the separators of the pattern. The pattern is
/// limited to the one that archive names use, which chrono renders without failing. chrono
/// gives up on a clock that stands before 1970, and on a time zone that it cannot resolve.
#[verifier::external_body]
pub(crate) fn local_now_text(pattern: &str) -> (text: String)
    requires
        pattern@ == stamp_pattern(),
    ensures
        stamp_shaped(text@),
{
    chrono::Local::now().format(pattern).to_string()
}

} // verus!
