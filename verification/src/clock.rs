//! The wall clock, and times as texts.

use vstd::prelude::*;

use crate::json;

verus! {

/// The RFC 3339 text of a time in milliseconds since the epoch, in UTC with
/// milliseconds; nothing for a time that is too far away.
pub uninterp spec fn iso_text(millis: i64) -> Option<Seq<char>>;

/// The time in milliseconds since the epoch that an RFC 3339 text gives; nothing
/// where the text is no such time.
pub uninterp spec fn iso_millis(text: Seq<char>) -> Option<i64>;

/// The text is that of a time since the epoch.
pub open spec fn is_time(text: Seq<char>) -> bool {
    exists|millis: i64| millis >= 0 && #[trigger] iso_text(millis) == Some(text)
}

/// `chrono::Utc::now` as RFC 3339 text with milliseconds: the text of some time since
/// the epoch. Which time it is is not said: it is another one at each call.
#[verifier::external_body]
pub(crate) fn now_iso() -> (r: String)
    ensures
        is_time(r@),
{
    chrono::Utc::now().to_rfc3339_opts(chrono::SecondsFormat::Millis, true)
}

/// The time is in one of the years 0 to 9999, which have four digits.
pub open spec fn in_four_digit_year(millis: i64) -> bool {
    -62167219200000 <= millis <= 253402300799999
}

/// `chrono::DateTime::from_timestamp_millis` and `to_rfc3339_opts`: the same time
/// gives the same text. A time in a year of four digits has a text, from which
/// `chrono::DateTime::parse_from_rfc3339` reads it back.
#[verifier::external_body]
pub(crate) fn format_iso(millis: i64) -> (r: Option<String>)
    ensures
        json::opt_view(r) == iso_text(millis),
        in_four_digit_year(millis) ==> r is Some && iso_millis(r->0@) == Some(millis),
{
    chrono::DateTime::from_timestamp_millis(millis)
        .map(|time| time.to_rfc3339_opts(chrono::SecondsFormat::Millis, true))
}

/// `chrono::DateTime::parse_from_rfc3339` and `timestamp_millis`: the same text
/// gives the same time.
#[verifier::external_body]
pub(crate) fn parse_iso(text: &str) -> (r: Option<i64>)
    ensures
        r == iso_millis(text@),
{
    chrono::DateTime::parse_from_rfc3339(text).ok().map(|time| time.timestamp_millis())
}

/// The text of a time; an unknown time is written as the epoch, and a time that
/// is too far away as an empty text.
pub open spec fn written_time(time: Option<i64>) -> Seq<char> {
    iso_text(time.unwrap_or(0)).unwrap_or(Seq::empty())
}

/// The text of a time.
pub fn iso_from_ms(time: Option<i64>) -> (r: String)
    ensures
        r@ == written_time(time),
        time is Some && in_four_digit_year(time->0) ==> iso_millis(r@) == time,
{
    let millis: i64 = match time {
        Some(millis) => millis,
        None => 0,
    };
    match format_iso(millis) {
        Some(text) => text,
        None => String::new(),
    }
}

/// The time that a text gives, where it gives one.
pub fn parse_iso_ms(value: &str) -> (r: Option<i64>)
    ensures
        r == iso_millis(value@),
{
    parse_iso(value)
}

} // verus!
