//! A moment as seconds and nanoseconds since the Unix epoch, and the clock
//! that gives the present one.

use vstd::prelude::*;
use crate::host::{HostReply, Progress};
use crate::tm::Tm;

verus! {

/// A moment: `sec` whole seconds after 1970-01-01 00:00:00 UTC, and `nsec`
/// nanoseconds after that second. A moment 1.2 seconds after the epoch has
/// `sec` 1 and `nsec` 200000000.
#[derive(Clone, Copy, Debug, PartialEq, Eq, Structural)]
pub struct Timespec {
    pub sec: i64,
    pub nsec: i32,
}

/// Reads the system clock: the whole seconds and the nanoseconds of the
/// second that have passed since the Unix epoch, by
/// `std::time::SystemTime::elapsed` on `std::time::UNIX_EPOCH`, taken apart
/// with `Duration::as_secs` and `Duration::subsec_nanos`. There is no reading
/// where the clock stands before the epoch.
///
/// Not proved: that the nanoseconds are fewer than a thousand million, as the
/// documentation of `subsec_nanos` says.
#[verifier::external_body]
fn unix_epoch_elapsed() -> (r: Option<(u64, u32)>)
    ensures
        r matches Some(reading) ==> reading.1 < 1_000_000_000,
{
    match std::time::UNIX_EPOCH.elapsed() {
        Ok(elapsed) => Some((elapsed.as_secs(), elapsed.subsec_nanos())),
        Err(_) => None,
    }
}

impl Timespec {
    /// The moment of a clock reading. There is none where the seconds are
    /// beyond the range of `i64`, nor where the nanoseconds make a second or
    /// more.
    pub open spec fn of_reading(reading: Option<(u64, u32)>) -> Option<Timespec> {
        match reading {
            Some((secs, nanos)) => if secs <= i64::MAX && nanos < 1_000_000_000 {
                Some(Timespec { sec: secs as i64, nsec: nanos as i32 })
            } else {
                None
            },
            None => None,
        }
    }

    /// The moment of a clock reading: seconds and nanoseconds since the Unix
    /// epoch, or nothing where the clock stood before the epoch.
    pub fn from_reading(reading: Option<(u64, u32)>) -> (r: Option<Timespec>)
        ensures
            r == Timespec::of_reading(reading),
            r matches Some(moment) ==> moment.sec >= 0 && 0 <= moment.nsec < 1_000_000_000,
    {
        match reading {
            Some((secs, nanos)) => if secs <= 0x7fff_ffff_ffff_ffff && nanos < 1_000_000_000 {
                Some(Timespec { sec: secs as i64, nsec: nanos as i32 })
            } else {
                None
            },
            None => None,
        }
    }

    /// The present moment by the system clock, or nothing where the clock
    /// stands before the Unix epoch. No moment it gives is before the epoch.
    pub fn now() -> (r: Option<Timespec>)
        ensures
            r matches Some(moment) ==> moment.sec >= 0 && 0 <= moment.nsec < 1_000_000_000,
    {
        Timespec::from_reading(unix_epoch_elapsed())
    }

    /// Where [`Timespec::local`] stands after `answers`.
    pub open spec fn spec_local(self, answers: Seq<HostReply>) -> Progress<Tm> {
        Tm::spec_from_timespec(self, answers)
    }

    /// The local time of this moment, in the zone that is set now. Takes four
    /// answers.
    pub fn local(self, answers: &[HostReply]) -> (r: Progress<Tm>)
        ensures
            r == self.spec_local(answers@),
    {
        Tm::from_timespec(self, answers)
    }
}

} // verus!
