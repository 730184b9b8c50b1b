//! The host's calendar record and its time-zone description, as plain values.

use vstd::prelude::*;

verus! {

/// A date and a time of day in the host's layout. The host fills it in for
/// either universal or local time; the record itself does not say which.
#[derive(Clone, Copy, Debug, PartialEq, Eq, Structural)]
pub struct WinSystemTime {
    pub year: u16,
    /// January is 1.
    pub month: u16,
    /// Sunday is 0.
    pub day_of_week: u16,
    pub day: u16,
    pub hour: u16,
    pub minute: u16,
    pub second: u16,
    pub milliseconds: u16,
}

impl WinSystemTime {
    /// The record with every field zero.
    pub fn new() -> (r: Self)
        ensures
            r == (WinSystemTime {
                year: 0,
                month: 0,
                day_of_week: 0,
                day: 0,
                hour: 0,
                minute: 0,
                second: 0,
                milliseconds: 0,
            }),
    {
        WinSystemTime {
            year: 0,
            month: 0,
            day_of_week: 0,
            day: 0,
            hour: 0,
            minute: 0,
            second: 0,
            milliseconds: 0,
        }
    }
}

/// The part of the host's time-zone description that the offset rules read.
/// Both numbers are minutes, positive to the west: universal time is local
/// time plus the bias.
#[derive(Clone, Copy, Debug, PartialEq, Eq, Structural)]
pub struct WinTimeZoneInfo {
    pub bias: i32,
    pub standard_bias: i32,
}

impl WinTimeZoneInfo {
    /// The zone's base bias, in minutes west of universal time.
    pub fn bias(&self) -> (r: i32)
        ensures
            r == self.bias,
    {
        self.bias
    }

    /// What standard time adds to the base bias, in minutes.
    pub fn standard_bias(&self) -> (r: i32)
        ensures
            r == self.standard_bias,
    {
        self.standard_bias
    }

    /// Seconds east of universal time while standard time is in effect.
    pub open spec fn standard_offset(self) -> int {
        -60 * (self.bias + self.standard_bias)
    }
}

/// The code the host gave for a call that failed.
#[derive(Clone, Copy, Debug, PartialEq, Eq, Structural)]
pub struct OsError {
    pub code: i32,
}

} // verus!
