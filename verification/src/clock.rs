use vstd::prelude::*;
use crate::sql::text_view;

verus! {

/// An instant in UTC: whole seconds since 1970-01-01T00:00:00Z and the nanoseconds
/// past that second.
#[derive(Clone, Copy, Debug, PartialEq, Eq, Structural)]
pub struct Timestamp {
    pub secs: i64,
    pub nanos: u32,
}

/// The RFC 3339 text that `chrono` writes for an instant; `None` for an instant that
/// it cannot hold.
pub uninterp spec fn rfc3339_text(secs: i64, nanos: u32) -> Option<Seq<char>>;

/// The instant that `chrono` reads from an RFC 3339 text, as seconds and
/// nanoseconds; `None` where it rejects the text.
pub uninterp spec fn rfc3339_instant(text: Seq<char>) -> Option<(i64, u32)>;

/// The text under which an instant is stored: the text written for it, provided that
/// the same instant is read back from that text.
pub open spec fn stored_text(at: Timestamp) -> Option<Seq<char>> {
    match rfc3339_text(at.secs, at.nanos) {
        Some(text) => if rfc3339_instant(text) == Some((at.secs, at.nanos)) {
            Some(text)
        } else {
            None
        },
        None => None,
    }
}

/// The instant that a stored text stands for.
pub open spec fn stored_instant(text: Seq<char>) -> Option<Timestamp> {
    match rfc3339_instant(text) {
        Some((secs, nanos)) => Some(Timestamp { secs, nanos }),
        None => None,
    }
}

/// Reads the clock with `chrono::Utc::now`. Nothing is claimed of the instant. The
/// call panics on a machine whose clock stands before 1970, which no precondition can
/// keep out.
#[verifier::external_body]
pub(crate) fn utc_now() -> (now: Timestamp) {
    let now = chrono::Utc::now();
    Timestamp { secs: now.timestamp(), nanos: now.timestamp_subsec_nanos() }
}

/// Builds the instant with `chrono::DateTime::from_timestamp` and writes it with
/// `to_rfc3339`; `None` where the first refuses the numbers.
#[verifier::external_body]
pub(crate) fn format_instant(secs: i64, nanos: u32) -> (text: Option<String>)
    ensures
        text_view(text) == rfc3339_text(secs, nanos),
{
    chrono::DateTime::from_timestamp(secs, nanos).map(|at| at.to_rfc3339())
}

/// Calls `chrono::DateTime::parse_from_rfc3339` and hands back the instant's seconds
/// and nanoseconds; `None` where it reports an error.
#[verifier::external_body]
pub(crate) fn parse_instant(text: &str) -> (at: Option<(i64, u32)>)
    ensures
        at == rfc3339_instant(text@),
{
    chrono::DateTime::parse_from_rfc3339(text).ok().map(
        |at| (at.timestamp(), at.timestamp_subsec_nanos()),
    )
}

impl Timestamp {
    /// The current instant.
    pub fn now() -> Timestamp {
        utc_now()
    }

    /// The text to store for this instant, or `None` if the instant has no text that
    /// reads back as itself.
    pub fn to_text(&self) -> (text: Option<String>)
        ensures
            text_view(text) == stored_text(*self),
    {
        match format_instant(self.secs, self.nanos) {
            Some(text) => {
                match parse_instant(text.as_str()) {
                    Some((secs, nanos)) => {
                        if secs == self.secs && nanos == self.nanos {
                            Some(text)
                        } else {
                            None
                        }
                    },
                    None => None,
                }
            },
            None => None,
        }
    }

    /// The instant that a stored text stands for, or `None` if the text is no RFC 3339
    /// timestamp.
    pub fn from_text(text: &str) -> (at: Option<Timestamp>)
        ensures
            at == stored_instant(text@),
    {
        match parse_instant(text) {
            Some((secs, nanos)) => Some(Timestamp { secs, nanos }),
            None => None,
        }
    }
}

/// A text that was stored for an instant reads back as that instant.
pub proof fn lemma_stored_text_reads_back(at: Timestamp)
    requires
        stored_text(at) is Some,
    ensures
        stored_instant(stored_text(at).unwrap()) == Some(at),
{
}

} // verus!
