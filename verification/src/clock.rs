//! The clock and fresh identifiers: what the library asks of the world.

use vstd::prelude::*;

verus! {

/// The time as `chrono::Utc::now` gives it, in milliseconds since the Unix
/// epoch. It differs from call to call, so nothing is claimed of it.
#[verifier::external_body]
pub(crate) fn now_millis() -> i64 {
    chrono::Utc::now().timestamp_millis()
}

/// The pattern in which a day is written.
pub open spec fn day_format() -> Seq<char> {
    "%Y-%m-%d"@
}

/// The pattern in which a time is written.
pub open spec fn time_format() -> Seq<char> {
    "%Y-%m-%d %H:%M:%S"@
}

/// The local time as `chrono::Local::now` gives it, written by
/// `DateTime::format` in the pattern `format`, which is one of the two
/// patterns that the library writes times in. It depends on the clock and
/// the time zone. Both patterns write numbers, with hyphens, colons and a
/// blank between them: whatever the time, the text holds no line feed and
/// no carriage return.
#[verifier::external_body]
pub(crate) fn local_time_text(format: &str) -> (text: String)
    requires
        format@ == day_format() || format@ == time_format(),
    ensures
        forall|i: int| 0 <= i < text@.len() ==> text@[i] != '\n' && text@[i] != '\r',
{
    chrono::Local::now().format(format).to_string()
}

/// A fresh identifier: a random UUID of `uuid::Uuid::new_v4`, written with
/// hyphens. It differs from call to call; it always has the 36 characters
/// of that form.
#[verifier::external_body]
pub(crate) fn fresh_id() -> (id: String)
    ensures
        id@.len() == 36,
{
    uuid::Uuid::new_v4().to_string()
}

} // verus!
