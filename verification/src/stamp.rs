//! Points in time, as seconds and nanoseconds since the Unix epoch.

use vstd::prelude::*;

verus! {

/// A point in time: whole seconds since 1970-01-01 00:00:00 UTC and the
/// nanoseconds past that second.
#[derive(Debug, Clone, Copy, PartialEq, Eq, Structural)]
pub struct Timestamp {
    pub seconds: i64,
    pub nanoseconds: u32,
}

/// The RFC 3339 text of the point in time that lies `nanoseconds` after
/// `seconds` seconds since the Unix epoch, in UTC; `None` where the calendar
/// in use cannot hold that point.
pub uninterp spec fn rfc3339_text(seconds: i64, nanoseconds: u32) -> Option<Seq<char>>;

/// `chrono::Utc::now`, read back through `DateTime::timestamp` and
/// `DateTime::timestamp_subsec_nanos`: the current time, of which nothing is
/// stated.
#[verifier::external_body]
pub(crate) fn current_time() -> (now: Timestamp) {
    let now = chrono::Utc::now();
    Timestamp { seconds: now.timestamp(), nanoseconds: now.timestamp_subsec_nanos() }
}

/// `chrono::DateTime::from_timestamp` followed by `DateTime::to_rfc3339`:
/// the text depends on the two numbers alone, and there is none where
/// `from_timestamp` finds them out of range.
#[verifier::external_body]
pub(crate) fn rfc3339_of(seconds: i64, nanoseconds: u32) -> (text: Option<String>)
    ensures
        match text {
            Some(t) => rfc3339_text(seconds, nanoseconds) == Some(t@),
            None => rfc3339_text(seconds, nanoseconds) is None,
        },
{
    chrono::DateTime::from_timestamp(seconds, nanoseconds).map(|time| time.to_rfc3339())
}

impl Timestamp {
    /// The timestamp as RFC 3339 text, or the empty text where the calendar
    /// cannot hold it.
    pub open spec fn rfc3339(self) -> Seq<char> {
        match rfc3339_text(self.seconds, self.nanoseconds) {
            Some(text) => text,
            None => Seq::empty(),
        }
    }

    /// The text of a timestamp as it is shown: the text itself, or the
    /// empty text where there is none.
    pub fn shown(text: Option<String>) -> (shown: String)
        ensures
            shown@ == match text {
                Some(t) => t@,
                None => Seq::empty(),
            },
    {
        match text {
            Some(t) => t,
            None => String::new(),
        }
    }

    /// The timestamp as RFC 3339 text.
    pub fn to_rfc3339(&self) -> (text: String)
        ensures
            text@ == self.rfc3339(),
    {
        Timestamp::shown(rfc3339_of(self.seconds, self.nanoseconds))
    }
}

} // verus!
