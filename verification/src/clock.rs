//! Time and identifiers taken from the environment.
//!
//! Instants are milliseconds since the Unix epoch.
use core::time::Duration;
use vstd::prelude::*;

verus! {

/// The latest instant, in milliseconds, that chrono's `DateTime<Utc>` can
/// hold is below this bound (chrono stops at the end of year 262142).
pub open spec fn latest_instant() -> int {
    8300000000000000
}

/// The current time, read by `chrono::Utc::now()`.
/// chrono reads the system clock, panics when it is before the Unix epoch,
/// and only returns instants it can represent; nothing else is promised.
#[verifier::external_body]
pub(crate) fn now_millis() -> (r: i64)
    ensures
        0 <= r <= latest_instant(),
{
    chrono::Utc::now().timestamp_millis()
}

/// A fresh random identifier: `uuid::Uuid::new_v4()` in its hyphenated
/// text form.  Randomness: nothing is promised of the value.
#[verifier::external_body]
pub(crate) fn new_id() -> (r: String) {
    uuid::Uuid::new_v4().to_string()
}

/// A fresh random 128-bit identifier from `uuid::Uuid::new_v4()`.
/// Randomness: nothing is promised of the value.
#[verifier::external_body]
pub(crate) fn new_id_u128() -> (r: u128) {
    uuid::Uuid::new_v4().as_u128()
}

/// What `Duration::from_secs` returns for a number of seconds.
pub uninterp spec fn seconds_duration(secs: u64) -> Duration;

/// `core::time::Duration::from_secs`: a duration of whole seconds; it
/// depends on its argument alone.
#[verifier::external_body]
pub(crate) fn duration_from_secs(secs: u64) -> (r: Duration)
    ensures
        r == seconds_duration(secs),
{
    Duration::from_secs(secs)
}

/// `Duration` is `Copy`; its `clone` returns the same duration.
pub assume_specification[ <Duration as Clone>::clone ](d: &Duration) -> (r: Duration)
    ensures
        r == *d,
;

/// The instant, in milliseconds, that chrono reads from a text as a
/// `DateTime<Utc>` (its `FromStr`), when it reads one.
pub uninterp spec fn instant_from_text(text: Seq<char>) -> Option<i64>;

/// The message of chrono's parse error (its `Display`) for a text it cannot
/// read as an instant.
pub uninterp spec fn instant_error_text(text: Seq<char>) -> Seq<char>;

/// `text.parse::<chrono::DateTime<chrono::Utc>>()`, kept to milliseconds,
/// or the message of its error.
#[verifier::external_body]
pub(crate) fn parse_instant(text: &str) -> (r: Result<i64, String>)
    ensures
        match r {
            Ok(t) => instant_from_text(text@) == Some(t),
            Err(e) => instant_from_text(text@) is None && e@ == instant_error_text(text@),
        },
{
    match text.parse::<chrono::DateTime<chrono::Utc>>() {
        Ok(t) => Ok(t.timestamp_millis()),
        Err(e) => Err(e.to_string()),
    }
}

/// The hyphenated text of the UUID that `uuid::Uuid::parse_str` reads from
/// a text, when it reads one.
pub uninterp spec fn uuid_text_from(text: Seq<char>) -> Option<Seq<char>>;

/// The message of uuid's parse error (its `Display`) for a text it cannot
/// read.
pub uninterp spec fn uuid_error_text(text: Seq<char>) -> Seq<char>;

/// `uuid::Uuid::parse_str`, the UUID written back in its hyphenated form,
/// or the message of its error.
#[verifier::external_body]
pub(crate) fn parse_uuid(text: &str) -> (r: Result<String, String>)
    ensures
        match r {
            Ok(u) => uuid_text_from(text@) == Some(u@),
            Err(e) => uuid_text_from(text@) is None && e@ == uuid_error_text(text@),
        },
{
    match uuid::Uuid::parse_str(text) {
        Ok(u) => Ok(u.to_string()),
        Err(e) => Err(e.to_string()),
    }
}

} // verus!
