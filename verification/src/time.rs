//! Instants on the UTC time line and their RFC 3339 text.

use vstd::prelude::*;

verus! {

/// The RFC 3339 text of the instant `secs` seconds and `nanos` nanoseconds
/// after the Unix epoch, as `chrono` writes it; `None` where `chrono` has no
/// date and time for these numbers.
pub uninterp spec fn rfc3339_text(secs: i64, nanos: u32) -> Option<Seq<char>>;

/// `chrono::DateTime::from_timestamp` makes the instant and
/// `DateTime::to_rfc3339` writes it. The first gives `None` for numbers out
/// of its range; the second cannot fail. The text depends on the two numbers
/// alone, which is all that is claimed here.
#[verifier::external_body]
fn format_rfc3339(secs: i64, nanos: u32) -> (text: Option<String>)
    ensures
        match text {
            Some(t) => rfc3339_text(secs, nanos) == Some(t@),
            None => rfc3339_text(secs, nanos) is None,
        },
{
    match chrono::DateTime::from_timestamp(secs, nanos) {
        Some(instant) => Some(instant.to_rfc3339()),
        None => None,
    }
}

/// An instant that has an RFC 3339 text: seconds since the Unix epoch and
/// nanoseconds within the second.
#[derive(Clone, Copy, Debug)]
pub struct Timestamp {
    secs: i64,
    nanos: u32,
}

impl Timestamp {
    #[verifier::type_invariant]
    spec fn representable(self) -> bool {
        rfc3339_text(self.secs, self.nanos) is Some
    }

    /// Seconds since the Unix epoch.
    pub closed spec fn spec_secs(self) -> i64 {
        self.secs
    }

    /// Nanoseconds within the second.
    pub closed spec fn spec_nanos(self) -> u32 {
        self.nanos
    }

    /// The position of the instant on the time line as one number: earlier
    /// instants have smaller keys.
    pub open spec fn key(self) -> int {
        self.spec_secs() * 0x1_0000_0000 + self.spec_nanos()
    }

    /// The RFC 3339 text of the instant.
    pub open spec fn text(self) -> Seq<char> {
        rfc3339_text(self.spec_secs(), self.spec_nanos())->0
    }

    /// The instant `secs` seconds and `nanos` nanoseconds after the Unix
    /// epoch; `None` where these numbers have no RFC 3339 text.
    pub fn new(secs: i64, nanos: u32) -> (made: Option<Timestamp>)
        ensures
            made is Some <==> rfc3339_text(secs, nanos) is Some,
            made matches Some(t) ==> t.spec_secs() == secs && t.spec_nanos() == nanos,
    {
        match format_rfc3339(secs, nanos) {
            Some(_) => Some(Timestamp { secs, nanos }),
            None => None,
        }
    }

    /// Seconds since the Unix epoch.
    pub fn secs(&self) -> (secs: i64)
        ensures
            secs == self.spec_secs(),
    {
        self.secs
    }

    /// Nanoseconds within the second.
    pub fn nanos(&self) -> (nanos: u32)
        ensures
            nanos == self.spec_nanos(),
    {
        self.nanos
    }

    /// Whether this instant is no later than `other`.
    pub fn not_after(&self, other: &Timestamp) -> (yes: bool)
        ensures
            yes == (self.key() <= other.key()),
    {
        self.secs < other.secs || (self.secs == other.secs && self.nanos <= other.nanos)
    }

    /// The RFC 3339 text of the instant, such as `2024-05-01T08:30:00+00:00`.
    pub fn to_rfc3339(&self) -> (text: String)
        ensures
            text@ == self.text(),
    {
        proof {
            use_type_invariant(self);
        }
        match format_rfc3339(self.secs, self.nanos) {
            Some(text) => text,
            None => vstd::pervasive::unreached(),
        }
    }
}

} // verus!
