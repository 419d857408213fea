//! Instants in UTC, as the todo entity stores its creation time, and their
//! RFC 3339 text as chrono writes it.

use vstd::prelude::*;

verus! {

/// What chrono writes (`DateTime::<Utc>::to_rfc3339`) for the UTC instant
/// `secs` seconds and `nanos` nanoseconds after the Unix epoch, or `None`
/// where `DateTime::from_timestamp` has no such instant.
pub uninterp spec fn utc_rfc3339(secs: i64, nanos: u32) -> Option<Seq<char>>;

/// Calls chrono's `DateTime::from_timestamp(secs, nanos)` and, where it gives
/// an instant, that instant's `to_rfc3339()` (both pure functions of their
/// arguments). Claimed: the result is
/// `utc_rfc3339(secs, nanos)`, a pure function of the two numbers. Not
/// claimed: for which numbers chrono has an instant, nor the text itself.
#[verifier::external_body]
fn format_utc_rfc3339(secs: i64, nanos: u32) -> (text: Option<String>)
    ensures
        text.is_some() == utc_rfc3339(secs, nanos).is_some(),
        text matches Some(t) ==> utc_rfc3339(secs, nanos) == Some(t@),
{
    chrono::DateTime::from_timestamp(secs, nanos).as_ref().map(chrono::DateTime::to_rfc3339)
}

/// An instant in UTC: whole seconds since the Unix epoch and the
/// nanoseconds past them, always one that chrono can represent.
#[derive(Debug, Clone, Copy, PartialEq, Eq)]
pub struct Timestamp {
    secs: i64,
    nanos: u32,
}

impl View for Timestamp {
    type V = (i64, u32);

    closed spec fn view(&self) -> (i64, u32) {
        (self.secs, self.nanos)
    }
}

/// The RFC 3339 text of an instant that chrono can represent.
pub open spec fn rfc3339_of(t: (i64, u32)) -> Seq<char> {
    utc_rfc3339(t.0, t.1)->Some_0
}

impl Timestamp {
    #[verifier::type_invariant]
    spec fn representable(self) -> bool {
        utc_rfc3339(self.secs, self.nanos).is_some()
    }

    /// The instant `secs` seconds and `nanos` nanoseconds after the Unix
    /// epoch, or `None` where chrono has no such instant.
    pub fn new(secs: i64, nanos: u32) -> (t: Option<Timestamp>)
        ensures
            t.is_some() == utc_rfc3339(secs, nanos).is_some(),
            t matches Some(t) ==> t@ == (secs, nanos),
    {
        match format_utc_rfc3339(secs, nanos) {
            Some(_) => Some(Timestamp { secs, nanos }),
            None => None,
        }
    }

    /// Whole seconds since the Unix epoch.
    pub fn secs(&self) -> (s: i64)
        ensures
            s == self@.0,
    {
        self.secs
    }

    /// Nanoseconds past the whole second.
    pub fn nanos(&self) -> (n: u32)
        ensures
            n == self@.1,
    {
        self.nanos
    }

    /// The instant's RFC 3339 text, as chrono writes it.
    pub fn to_rfc3339(&self) -> (s: String)
        ensures
            utc_rfc3339(self@.0, self@.1) == Some(s@),
            s@ == rfc3339_of(self@),
    {
        proof {
            use_type_invariant(self);
        }
        match format_utc_rfc3339(self.secs, self.nanos) {
            Some(s) => s,
            None => {
                proof {
                    assert(false);
                }
                String::new()
            },
        }
    }
}

} // verus!
