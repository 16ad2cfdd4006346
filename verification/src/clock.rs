//! Readings of the system clock, as the text that names an archive.

use vstd::prelude::*;
use crate::archive::{is_timestamp_text, is_rfc3339_seconds};

verus! {

/// The system clock's time at the moment it was read, as RFC 3339 text in
/// seconds with a `Z` offset. Only `current_timestamp` makes one, so the text
/// of a reading is always a time read from the clock.
pub struct ClockReading {
    text: String,
}

impl ClockReading {
    /// The reading's text.
    pub closed spec fn text(&self) -> Seq<char> {
        self.text@
    }

    /// The reading's text.
    pub fn as_str(&self) -> (s: &str)
        ensures
            s@ == self.text(),
    {
        self.text.as_str()
    }
}

/// The current time read from the system clock: chrono's
/// `DateTime::<Utc>::to_rfc3339_opts(SecondsFormat::Secs, true)` on the
/// system clock's current time (turned into a `DateTime<Utc>` by chrono's
/// `From<SystemTime>`). The time read differs from call to call, so the
/// result is not named; chrono's `write_rfc3339` writes only digits, `-`,
/// `+` (for a year past 9999), `T`, `:` and the `Z` offset: four year digits
/// for years 0 to 9999, otherwise a sign and at least four digits
/// (`{year:+05}`), then `-MM-DDTHH:MM:SS` and `Z`. chrono's conversion panics
/// only for a clock beyond its range of about 262,000 years.
#[verifier::external_body]
pub(crate) fn current_timestamp() -> (r: ClockReading)
    ensures
        is_timestamp_text(r.text()),
        is_rfc3339_seconds(r.text()) || (r.text().len() > 20 && (r.text()[0] == '+' || r.text()[0] == '-')),
{
    let now: chrono::DateTime<chrono::Utc> = std::time::SystemTime::now().into();
    ClockReading { text: now.to_rfc3339_opts(chrono::SecondsFormat::Secs, true) }
}

} // verus!
