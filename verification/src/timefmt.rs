use vstd::prelude::*;

verus! {

/// The earliest number of seconds since the Unix epoch that chrono can
/// represent as a date and time: midnight of January 1 of its minimum year.
pub const MIN_TIMESTAMP_SECS: i64 = -8334601228800;

/// The latest representable number of seconds: the last second of December
/// 31 of chrono's maximum year.
pub const MAX_TIMESTAMP_SECS: i64 = 8210266876799;

/// Whether a modification time, as seconds since the Unix epoch, has a
/// representable date and time at all; outside this range the listing shows
/// no date for the entry.
pub open spec fn timestamp_representable(secs: i64) -> bool {
    MIN_TIMESTAMP_SECS <= secs <= MAX_TIMESTAMP_SECS
}

pub uninterp spec fn rfc3339_of(secs: i64) -> Seq<char>;

/// Relies on chrono's DateTime::from_timestamp and DateTime::<Utc>::to_rfc3339:
/// the text is a function of the number of seconds alone (the zone is always
/// UTC), and exactly the out-of-range numbers of seconds — outside the day
/// range chrono's year bounds admit — yield nothing.
#[verifier::external_body]
pub(crate) fn rfc3339_utc(secs: i64) -> (r: Option<String>)
    ensures
        (r is Some) == timestamp_representable(secs),
        r matches Some(s) ==> s@ == rfc3339_of(secs),
{
    match chrono::DateTime::from_timestamp(secs, 0) {
        Some(d) => Some(d.to_rfc3339()),
        None => None,
    }
}

} // verus!
