//! Instants in UTC, and the date formats that feeds and queries carry.
use vstd::prelude::*;

verus! {

/// An instant in UTC: whole seconds since the Unix epoch and the nanoseconds
/// past that second, as chrono's `DateTime<Utc>` holds it.
#[derive(Clone, Copy, Debug, PartialEq, Eq, Structural)]
pub struct Timestamp {
    pub secs: i64,
    pub nanos: u32,
}

/// The instant that `chrono::DateTime::parse_from_rfc2822` reads from the
/// text, taken in UTC, or `None` where chrono refuses the text.
pub uninterp spec fn rfc2822_instant(text: Seq<char>) -> Option<Timestamp>;

/// The instant that `str::parse::<chrono::DateTime<chrono::Utc>>` (a relaxed
/// RFC 3339) reads from the text, or `None` where chrono refuses the text.
pub uninterp spec fn rfc3339_instant(text: Seq<char>) -> Option<Timestamp>;

/// Calls `chrono::DateTime::parse_from_rfc2822` and takes the instant it
/// reads. Claimed: the result depends on the text alone and is the named
/// `rfc2822_instant` of it.
#[verifier::external_body]
pub(crate) fn parse_rfc2822(text: &str) -> (r: Option<Timestamp>)
    ensures
        r == rfc2822_instant(text@),
{
    match chrono::DateTime::parse_from_rfc2822(text) {
        Ok(d) => Some(Timestamp { secs: d.timestamp(), nanos: d.timestamp_subsec_nanos() }),
        Err(_) => None,
    }
}

/// Calls chrono's `FromStr` for `DateTime<Utc>`. Claimed: the result depends
/// on the text alone and is the named `rfc3339_instant` of it.
#[verifier::external_body]
pub(crate) fn parse_rfc3339(text: &str) -> (r: Option<Timestamp>)
    ensures
        r == rfc3339_instant(text@),
{
    match text.parse::<chrono::DateTime<chrono::Utc>>() {
        Ok(d) => Some(Timestamp { secs: d.timestamp(), nanos: d.timestamp_subsec_nanos() }),
        Err(_) => None,
    }
}

/// Calls `chrono::Utc::now`. Nothing is claimed of the instant it reads
/// from the clock.
#[verifier::external_body]
pub(crate) fn now() -> (r: Timestamp) {
    let d = chrono::Utc::now();
    Timestamp { secs: d.timestamp(), nanos: d.timestamp_subsec_nanos() }
}

/// What a feed's date text denotes: RFC 2822 first, as RSS writes dates, and
/// failing that the relaxed RFC 3339 form.
pub open spec fn date_of(text: Seq<char>) -> Option<Timestamp> {
    match rfc2822_instant(text) {
        Some(d) => Some(d),
        None => rfc3339_instant(text),
    }
}

/// A date text that RFC 2822 reads denotes that instant, whatever characters
/// it holds; any other denotes what RFC 3339 reads from it, if anything.
pub proof fn lemma_date_of(text: Seq<char>)
    ensures
        rfc2822_instant(text) matches Some(d) ==> date_of(text) == Some(d),
        rfc2822_instant(text) is None ==> date_of(text) == rfc3339_instant(text),
{
}

/// Reads a feed's date: RFC 2822 where that form parses, else RFC 3339,
/// else `None`.
pub fn parse_date(date: &str) -> (r: Option<Timestamp>)
    ensures
        r == date_of(date@),
        rfc2822_instant(date@) matches Some(d) ==> r == Some(d),
        rfc2822_instant(date@) is None ==> r == rfc3339_instant(date@),
{
    match parse_rfc2822(date) {
        Some(d) => Some(d),
        None => parse_rfc3339(date),
    }
}

} // verus!
