//! Points in time as the controller sees them, and the system clock.

use vstd::prelude::*;

verus! {

/// A date and time with a UTC offset, held as two integers.
///
/// `unix_nanos` counts the nanoseconds since midnight, 1 January 1970 (UTC)
/// and fixes the instant. `offset_seconds` is the offset from UTC, east
/// positive, in which that instant is shown.
#[derive(Clone, Copy, Debug, PartialEq, Eq, Structural)]
pub struct Timestamp {
    pub unix_nanos: i128,
    pub offset_seconds: i32,
}

/// The system could not tell its offset from UTC.
#[derive(Clone, Copy, Debug, PartialEq, Eq, Structural)]
pub struct IndeterminateOffset;

impl Timestamp {
    /// Two timestamps name the same instant when their nanosecond counts
    /// agree, whatever offsets they are shown in.
    pub open spec fn same_instant(self, other: Timestamp) -> bool {
        self.unix_nanos == other.unix_nanos
    }

    /// A timestamp shown in UTC has no offset.
    pub open spec fn is_utc(self) -> bool {
        self.offset_seconds == 0
    }

    /// Whether `self` and `other` name the same instant.
    pub fn is_same_instant(&self, other: &Timestamp) -> (same: bool)
        ensures
            same == self.same_instant(*other),
    {
        self.unix_nanos == other.unix_nanos
    }

    /// The local reading where there is one, the current time in UTC where
    /// the local offset could not be determined.
    pub fn local_or_utc(local: Result<Timestamp, IndeterminateOffset>) -> (now: Timestamp)
        ensures
            local matches Ok(reading) ==> now == reading,
            local is Err ==> now.is_utc(),
    {
        match local {
            Ok(reading) => reading,
            Err(_) => now_utc(),
        }
    }

    /// The current time: in the local offset, or in UTC if the local offset
    /// cannot be determined. The failure is not reported.
    pub fn now() -> Timestamp {
        Timestamp::local_or_utc(now_local())
    }
}

/// Reads the clock through `time::OffsetDateTime::now_utc`.
///
/// Trusted: the reading is in UTC, so its offset is zero. Nothing is claimed
/// of the instant. The call panics only if the system clock lies outside the
/// years that `time` can represent.
#[verifier::external_body]
fn now_utc() -> (now: Timestamp)
    ensures
        now.is_utc(),
{
    let now = time::OffsetDateTime::now_utc();
    Timestamp {
        unix_nanos: now.unix_timestamp_nanos(),
        offset_seconds: now.offset().whole_seconds(),
    }
}

/// Reads the clock through `time::OffsetDateTime::now_local`.
///
/// Trusted, with nothing claimed: the reading and whether there is one depend
/// on the machine. `Err` stands for `time::error::IndeterminateOffset`. The
/// call panics only if the system clock lies outside the years that `time`
/// can represent.
#[verifier::external_body]
fn now_local() -> (reading: Result<Timestamp, IndeterminateOffset>) {
    match time::OffsetDateTime::now_local() {
        Ok(now) => Ok(Timestamp {
            unix_nanos: now.unix_timestamp_nanos(),
            offset_seconds: now.offset().whole_seconds(),
        }),
        Err(_) => Err(IndeterminateOffset),
    }
}

} // verus!
