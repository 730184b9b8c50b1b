//! What the library asks of the host, and what the host answers.
//!
//! An operation that needs the host is a function of its arguments and of the
//! answers received so far, in the order in which they came. It returns the
//! next call to make, or the result, or the reason why there is none. Whoever
//! drives it makes the call, appends the answer and asks again.

use vstd::prelude::*;
use crate::filetime::WinFileTime;
use crate::systime::{OsError, WinSystemTime, WinTimeZoneInfo};

verus! {

/// A call to the host.
#[derive(Clone, Copy, Debug, PartialEq, Eq, Structural)]
pub enum HostCall {
    /// Turn a tick count into a calendar record of universal time.
    TickCountToCalendar(WinFileTime),
    /// Turn a calendar record of universal time into one of local time, by the
    /// zone that is set now.
    CalendarToLocal(WinSystemTime),
    /// Turn a calendar record of local time into one of universal time, by the
    /// zone that is set now.
    LocalToCalendar(WinSystemTime),
    /// Turn a calendar record into a tick count.
    CalendarToTickCount(WinSystemTime),
    /// Read the zone that is set now.
    CurrentTimeZone,
}

/// The host's answer to one call.
#[derive(Clone, Copy, Debug, PartialEq, Eq, Structural)]
pub enum HostReply {
    Calendar(WinSystemTime),
    TickCount(WinFileTime),
    TimeZone(WinTimeZoneInfo),
    /// The call failed.
    Failed(OsError),
}

/// Why an operation ended without a result.
#[derive(Clone, Copy, Debug, PartialEq, Eq, Structural)]
pub enum Fault {
    /// The host failed a call.
    Os(OsError),
    /// An answer is not of the kind that its call returns.
    Unexpected,
    /// The host's answers do not make a date and time that can be held.
    InvalidTime,
}

/// Where an operation stands after the answers it was given.
#[derive(Clone, Copy, Debug, PartialEq, Eq)]
pub enum Progress<T> {
    /// Make this call and come back with its answer appended.
    Call(HostCall),
    Done(T),
    Failed(Fault),
}

impl<T: View> View for Progress<T> {
    type V = Progress<T::V>;

    open spec fn view(&self) -> Progress<T::V> {
        match *self {
            Progress::Call(call) => Progress::Call(call),
            Progress::Done(value) => Progress::Done(value@),
            Progress::Failed(fault) => Progress::Failed(fault),
        }
    }
}

impl HostReply {
    /// This answer read as a calendar record, or why it is none.
    pub open spec fn calendar(self) -> Result<WinSystemTime, Fault> {
        match self {
            HostReply::Calendar(record) => Ok(record),
            HostReply::Failed(e) => Err(Fault::Os(e)),
            _ => Err(Fault::Unexpected),
        }
    }

    /// This answer read as a tick count, or why it is none.
    pub open spec fn tick_count(self) -> Result<WinFileTime, Fault> {
        match self {
            HostReply::TickCount(ticks) => Ok(ticks),
            HostReply::Failed(e) => Err(Fault::Os(e)),
            _ => Err(Fault::Unexpected),
        }
    }

    /// This answer read as a zone, or why it is none.
    pub open spec fn time_zone(self) -> Result<WinTimeZoneInfo, Fault> {
        match self {
            HostReply::TimeZone(zone) => Ok(zone),
            HostReply::Failed(e) => Err(Fault::Os(e)),
            _ => Err(Fault::Unexpected),
        }
    }

    /// Reads this answer as a calendar record.
    pub fn as_calendar(&self) -> (r: Result<WinSystemTime, Fault>)
        ensures
            r == self.calendar(),
    {
        match self {
            HostReply::Calendar(record) => Ok(*record),
            HostReply::Failed(e) => Err(Fault::Os(*e)),
            _ => Err(Fault::Unexpected),
        }
    }

    /// Reads this answer as a tick count.
    pub fn as_tick_count(&self) -> (r: Result<WinFileTime, Fault>)
        ensures
            r == self.tick_count(),
    {
        match self {
            HostReply::TickCount(ticks) => Ok(*ticks),
            HostReply::Failed(e) => Err(Fault::Os(*e)),
            _ => Err(Fault::Unexpected),
        }
    }

    /// Reads this answer as a zone.
    pub fn as_time_zone(&self) -> (r: Result<WinTimeZoneInfo, Fault>)
        ensures
            r == self.time_zone(),
    {
        match self {
            HostReply::TimeZone(zone) => Ok(*zone),
            HostReply::Failed(e) => Err(Fault::Os(*e)),
            _ => Err(Fault::Unexpected),
        }
    }
}

} // verus!
