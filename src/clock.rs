//! The timestamp that starts every rendered line.

use vstd::prelude::*;

verus! {

/// A timestamp fits on one line of the log: it is not empty and holds no
/// line break.
pub open spec fn stamp_ok(s: Seq<char>) -> bool {
    s.len() > 0 && !s.contains('\n')
}

/// Relies on `time::OffsetDateTime::now_local` and the `Display` impl of
/// `OffsetDateTime`: the local time, when the local offset can be found,
/// written as ASCII date, time and offset with no line break.
#[verifier::external_body]
fn local_now_text() -> (r: Option<String>)
    ensures
        r matches Some(s) ==> stamp_ok(s@),
{
    match time::OffsetDateTime::now_local() {
        Ok(t) => Some(t.to_string()),
        Err(_) => None,
    }
}

/// Relies on `time::OffsetDateTime::now_utc` and the `Display` impl of
/// `OffsetDateTime`: the current time in UTC, written as ASCII date, time
/// and offset with no line break.
#[verifier::external_body]
fn utc_now_text() -> (r: String)
    ensures
        stamp_ok(r@),
{
    time::OffsetDateTime::now_utc().to_string()
}

/// The current time in the local offset, or in UTC when the local offset
/// cannot be determined.
pub fn timestamp() -> (r: String)
    ensures
        stamp_ok(r@),
{
    match local_now_text() {
        Some(s) => s,
        None => utc_now_text(),
    }
}

} // verus!
