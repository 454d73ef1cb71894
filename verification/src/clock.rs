//! The current time, as the server reads it.
use vstd::prelude::*;

verus! {

/// Whether a character is an ASCII decimal digit.
pub open spec fn is_digit(c: char) -> bool {
    '0' <= c && c <= '9'
}

/// The year of an RFC 3339 timestamp as chrono writes it: four digits for
/// the years 0 to 9999, otherwise a sign and at least four digits.
pub open spec fn year_text(y: Seq<char>) -> bool {
    ||| y.len() == 4 && (forall|i: int| 0 <= i < 4 ==> is_digit(#[trigger] y[i]))
    ||| y.len() >= 5 && (y[0] == '+' || y[0] == '-')
        && (forall|i: int| 1 <= i < y.len() ==> is_digit(#[trigger] y[i]))
}

/// An RFC 3339 UTC timestamp with whole seconds and a `Z` offset: a year,
/// then `-MM-DDTHH:MM:SSZ` with two digits for each field.
pub open spec fn rfc3339_utc_seconds(s: Seq<char>) -> bool {
    let n = s.len() as int;
    &&& n >= 20
    &&& year_text(s.take(n - 16))
    &&& s[n - 16] == '-' && is_digit(s[n - 15]) && is_digit(s[n - 14])
    &&& s[n - 13] == '-' && is_digit(s[n - 12]) && is_digit(s[n - 11])
    &&& s[n - 10] == 'T' && is_digit(s[n - 9]) && is_digit(s[n - 8])
    &&& s[n - 7] == ':' && is_digit(s[n - 6]) && is_digit(s[n - 5])
    &&& s[n - 4] == ':' && is_digit(s[n - 3]) && is_digit(s[n - 2])
    &&& s[n - 1] == 'Z'
}

/// The current UTC time in the RFC 3339 format with whole seconds and a `Z`
/// offset (`chrono::Utc::now`, then `to_rfc3339_opts(SecondsFormat::Secs,
/// true)`). Which time is not stated (it depends on the clock); its form is,
/// as chrono's `write_rfc3339` writes it: the year (four digits, or a sign
/// and at least four digits outside the years 0 to 9999), then month, day,
/// hour, minute and second as two digits each, and `Z` for the UTC offset.
#[verifier::external_body]
pub(crate) fn current_datetime() -> (r: String)
    ensures
        rfc3339_utc_seconds(r@),
{
    chrono::Utc::now().to_rfc3339_opts(chrono::SecondsFormat::Secs, true)
}

/// The current time as a UNIX timestamp in seconds
/// (`time::OffsetDateTime::now_utc`, then `unix_timestamp`). The value
/// depends on the clock; what is stated is that it lies among the dates the
/// `time` crate represents (years within ±999,999 at most, with its
/// `large-dates` feature), so within ±10^14 seconds of the epoch.
#[verifier::external_body]
pub(crate) fn now_unix_timestamp() -> (r: i64)
    ensures
        -100_000_000_000_000 <= r <= 100_000_000_000_000,
{
    time::OffsetDateTime::now_utc().unix_timestamp()
}

} // verus!
