//! Instants on the UTC time line, the system clock, and how an instant is
//! written out.

use vstd::prelude::*;

verus! {

/// An instant: whole seconds since 1970-01-01 00:00:00 UTC, not counting
/// leap seconds, and the nanoseconds past that second.
#[derive(Debug, Clone, Copy, PartialEq, Eq, Structural)]
pub struct Timestamp {
    pub secs: i64,
    pub nanos: u32,
}

/// The text that `chrono` prints for the UTC date and time at `secs` seconds
/// and `nanos` nanoseconds after the epoch, or `None` where `chrono` cannot
/// represent that instant.
pub uninterp spec fn utc_text(secs: i64, nanos: u32) -> Option<Seq<char>>;

impl Timestamp {
    /// Whether the instant has a written form.
    pub open spec fn writable(self) -> bool {
        utc_text(self.secs, self.nanos) is Some
    }
}

/// Reads the system clock through `chrono::Utc::now` and keeps the seconds
/// and nanoseconds of the instant. Of the value it says one thing: it has a
/// written form, because `chrono` hands out only instants that it can
/// represent, and gets the same instant back from their seconds and
/// nanoseconds. The call fails only on a host whose clock is set before
/// 1970.
#[verifier::external_body]
pub(crate) fn utc_now() -> (now: Timestamp)
    ensures
        now.writable(),
{
    let now = chrono::Utc::now();
    Timestamp { secs: now.timestamp(), nanos: now.timestamp_subsec_nanos() }
}

/// Builds the `chrono::DateTime<Utc>` for an instant with
/// `DateTime::from_timestamp` and prints it with its `Display` impl, which
/// writes the date, the time of day and `UTC`. `from_timestamp` gives `None`
/// for seconds outside the years `chrono` covers and for nanoseconds that
/// are no valid fraction of that second; the result is then `None`.
#[verifier::external_body]
pub(crate) fn utc_string(secs: i64, nanos: u32) -> (text: Option<String>)
    ensures
        match text {
            Some(written) => utc_text(secs, nanos) == Some(written@),
            None => utc_text(secs, nanos) is None,
        },
{
    chrono::DateTime::from_timestamp(secs, nanos).map(|instant| instant.to_string())
}

} // verus!
