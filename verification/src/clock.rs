//! Points in time, and how they are written down.

use vstd::prelude::*;

verus! {

/// The first second that a date can be given for, counted from the start of 1970.
pub const FIRST_SECOND: i64 = -8334601228800;

/// The last such second.
pub const LAST_SECOND: i64 = 8210266876799;

/// A point in time: seconds from the start of 1970 in UTC, and nanoseconds into the second.
#[derive(Clone, Copy, Debug)]
pub struct Timestamp {
    secs: i64,
    nanos: u32,
}

impl Timestamp {
    pub closed spec fn secs(self) -> i64 {
        self.secs
    }

    pub closed spec fn nanos(self) -> u32 {
        self.nanos
    }

    #[verifier::type_invariant]
    spec fn has_date(self) -> bool {
        FIRST_SECOND <= self.secs <= LAST_SECOND && self.nanos < 1_000_000_000
    }

    /// The point in time; nothing where it has no date, or the nanoseconds make a second.
    pub fn new(secs: i64, nanos: u32) -> (time: Option<Timestamp>)
        ensures
            time is Some <==> FIRST_SECOND <= secs <= LAST_SECOND && nanos < 1_000_000_000,
            time matches Some(time) ==> time.secs() == secs && time.nanos() == nanos,
    {
        if FIRST_SECOND <= secs && secs <= LAST_SECOND && nanos < 1_000_000_000 {
            Some(Timestamp { secs, nanos })
        } else {
            None
        }
    }

    /// The point in time written as RFC 3339 has it.
    pub fn to_rfc3339(self) -> (text: String)
        ensures
            text@ == rfc3339_text(self.secs(), self.nanos()),
    {
        proof {
            use_type_invariant(&self);
        }
        rfc3339(self.secs, self.nanos)
    }

    /// The point in time that lies `seconds` before this one.
    pub fn before(self, seconds: u32) -> (time: Timestamp)
        requires
            FIRST_SECOND <= self.secs() - seconds,
        ensures
            time.secs() == self.secs() - seconds,
            time.nanos() == self.nanos(),
    {
        proof {
            use_type_invariant(&self);
        }
        Timestamp { secs: self.secs - seconds as i64, nanos: self.nanos }
    }
}

/// What `DateTime::to_rfc3339` of chrono writes for a point in time in UTC.
pub uninterp spec fn rfc3339_text(secs: i64, nanos: u32) -> Seq<char>;

/// `DateTime::<Utc>::to_rfc3339` of chrono, on the date and time that lie `secs` seconds and
/// `nanos` nanoseconds after the start of 1970. What it writes depends on these two alone. Every
/// second between the bounds has a date, so there is one to write.
#[verifier::external_body]
fn rfc3339(secs: i64, nanos: u32) -> (text: String)
    requires
        FIRST_SECOND <= secs <= LAST_SECOND,
        nanos < 1_000_000_000,
    ensures
        text@ == rfc3339_text(secs, nanos),
{
    chrono::DateTime::<chrono::Utc>::from_timestamp(secs, nanos).unwrap().to_rfc3339()
}

} // verus!
