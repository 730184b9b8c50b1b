//! The broken-down time: a date and a time of day as separate numbers, with
//! the offset and the daylight-saving flag that the host's answers give.

use vstd::prelude::*;
use crate::filetime::{seconds_of_ticks, ticks_of_seconds, WinFileTime};
use crate::host::{Fault, HostCall, HostReply, Progress};
use crate::systime::{WinSystemTime, WinTimeZoneInfo};
use crate::timespec::Timespec;

verus! {

/// The day of the year by the closed form: January the first is 0.
///
/// The form takes every month for 30 days, adds half the month's number for
/// the long months, takes one off after February in a year that is no multiple
/// of 4 and two in a year that is, and adds one after July. A year counts as a
/// multiple of 4 by its number alone; the years divisible by 100 get no
/// treatment of their own.
pub open spec fn day_of_year(year: int, month: int, day: int) -> int {
    (month - 1) * 30 + month / 2 + (day - 1) - (if month > 2 {
        if year % 4 == 0 {
            2int
        } else {
            1int
        }
    } else {
        0int
    }) + (if month > 7 {
        1int
    } else {
        0int
    })
}

/// The days of the months of `year` that come before `month`.
pub open spec fn days_before_month(year: int, month: int) -> int
    decreases month,
{
    if month <= 1 {
        0
    } else {
        days_before_month(year, month - 1) + crate::calendar::month_length(year, month - 1)
    }
}

/// The day of the year of a date, by the closed form of [`day_of_year`].
/// `month` is 1 for January.
pub fn yday(year: i32, month: i32, day: i32) -> (r: i32)
    requires
        1 <= month <= 12,
        i32::MIN <= day_of_year(year as int, month as int, day as int) <= i32::MAX,
    ensures
        r == day_of_year(year as int, month as int, day as int),
{
    let leap: i64 = if month > 2 {
        if year % 4 == 0 {
            2
        } else {
            1
        }
    } else {
        0
    };
    let july: i64 = if month > 7 {
        1
    } else {
        0
    };
    let sum: i64 = (month as i64 - 1) * 30 + (month as i64) / 2 + (day as i64 - 1) - leap + july;
    sum as i32
}

/// Where the closed form gives the number of days of the year that came
/// before the date: in January and February of every year, and from March
/// on in the months other than August, October and December of a year that
/// is a multiple of 4 and has no 29th of February. Counting the year from
/// 1900 changes nothing.
pub proof fn lemma_day_of_year_counts_days(year: int, month: int, day: int)
    requires
        1 <= month <= 12,
        month <= 2 || (!crate::calendar::leap_year(year) && year % 4 == 0 && month != 8 && month
            != 10 && month != 12),
    ensures
        day_of_year(year, month, day) == days_before_month(year, month) + day - 1,
        day_of_year(year - 1900, month, day) == day_of_year(year, month, day),
{
    reveal_with_fuel(days_before_month, 13);
}

/// The offset of a zone in which local time reads `local_sec` at the moment
/// `sec`, both in seconds since the Unix epoch: the one less the other. There
/// is none beyond the range of `i32`.
pub open spec fn offset_between(sec: int, local_sec: int) -> Option<i32> {
    if i32::MIN <= local_sec - sec <= i32::MAX {
        Some((local_sec - sec) as i32)
    } else {
        None
    }
}

/// The offset by which the local calendar record, whose tick count is
/// `local_ticks`, is ahead of the moment `sec`.
pub fn offset_of(sec: i64, local_ticks: &WinFileTime) -> (r: Option<i32>)
    ensures
        r == offset_between(sec as int, seconds_of_ticks(local_ticks.ticks())),
{
    let local_sec: i64 = local_ticks.as_unix_seconds();
    let diff: i128 = local_sec as i128 - sec as i128;
    if diff < -2_147_483_648 || diff > 2_147_483_647 {
        None
    } else {
        Some(diff as i32)
    }
}

/// A date and a time of day broken down into its parts.
#[derive(Clone, Copy, Debug, PartialEq, Eq, Structural)]
pub struct Tm {
    /// Seconds after the minute, 0 to 60.
    pub tm_sec: i32,
    /// Minutes after the hour, 0 to 59.
    pub tm_min: i32,
    /// Hours after midnight, 0 to 23.
    pub tm_hour: i32,
    /// Day of the month, 1 to 31.
    pub tm_mday: i32,
    /// Months since January, 0 to 11.
    pub tm_mon: i32,
    /// Years since 1900.
    pub tm_year: i32,
    /// Days since Sunday, 0 to 6.
    pub tm_wday: i32,
    /// Days since January the first.
    pub tm_yday: i32,
    /// Positive while daylight saving time is in effect, zero while it is
    /// not, negative where that is not known.
    pub tm_isdst: i32,
    /// Seconds east of universal time of the zone this time was computed in.
    pub tm_utcoff: i32,
    /// Nanoseconds after the second.
    pub tm_nsec: i32,
}

impl Default for Tm {
    fn default() -> (r: Tm)
        ensures
            r == Tm::zero(),
    {
        Tm {
            tm_sec: 0,
            tm_min: 0,
            tm_hour: 0,
            tm_mday: 0,
            tm_mon: 0,
            tm_year: 0,
            tm_wday: 0,
            tm_yday: 0,
            tm_isdst: 0,
            tm_utcoff: 0,
            tm_nsec: 0,
        }
    }
}

impl Tm {
    /// The broken-down time with every part zero.
    pub open spec fn zero() -> Tm {
        Tm {
            tm_sec: 0,
            tm_min: 0,
            tm_hour: 0,
            tm_mday: 0,
            tm_mon: 0,
            tm_year: 0,
            tm_wday: 0,
            tm_yday: 0,
            tm_isdst: 0,
            tm_utcoff: 0,
            tm_nsec: 0,
        }
    }

    /// This time with the date and the time of day of `sys`, and the day of
    /// the year computed from them. Offset, flag and nanoseconds stay.
    pub open spec fn with_system_time(self, sys: WinSystemTime) -> Tm {
        Tm {
            tm_sec: sys.second as i32,
            tm_min: sys.minute as i32,
            tm_hour: sys.hour as i32,
            tm_mday: sys.day as i32,
            tm_wday: sys.day_of_week as i32,
            tm_mon: (sys.month - 1) as i32,
            tm_year: (sys.year - 1900) as i32,
            tm_yday: day_of_year(sys.year - 1900, sys.month as int, sys.day as int) as i32,
            ..self
        }
    }

    /// This time with the offset `utcoff`, and with the flag set exactly
    /// where that offset is not the zone's offset in standard time.
    pub open spec fn with_offset(self, utcoff: i32, zone: WinTimeZoneInfo) -> Tm {
        Tm {
            tm_utcoff: utcoff,
            tm_isdst: if utcoff == zone.standard_offset() {
                0i32
            } else {
                1i32
            },
            ..self
        }
    }

    /// Whether the host's calendar record can hold this time: the year
    /// counted from 0, the month counted from 1, and every other part of the
    /// date and the time of day lie from 0 to 65535.
    pub open spec fn fits_system_time(self) -> bool {
        &&& 0 <= self.tm_year + 1900 <= 65_535
        &&& 0 <= self.tm_mon + 1 <= 65_535
        &&& 0 <= self.tm_wday <= 65_535
        &&& 0 <= self.tm_mday <= 65_535
        &&& 0 <= self.tm_hour <= 65_535
        &&& 0 <= self.tm_min <= 65_535
        &&& 0 <= self.tm_sec <= 65_535
    }

    /// The host's calendar record of this time, where the record can hold
    /// it: the year counted from 0 and the month from 1, the other parts as
    /// they are, and no milliseconds.
    pub open spec fn system_time(self) -> WinSystemTime
        recommends
            self.fits_system_time(),
    {
        WinSystemTime {
            year: (self.tm_year + 1900) as u16,
            month: (self.tm_mon + 1) as u16,
            day_of_week: self.tm_wday as u16,
            day: self.tm_mday as u16,
            hour: self.tm_hour as u16,
            minute: self.tm_min as u16,
            second: self.tm_sec as u16,
            milliseconds: 0,
        }
    }

    /// Whether the host's calendar record can hold this time.
    pub fn can_be_system_time(&self) -> (r: bool)
        ensures
            r == self.fits_system_time(),
    {
        -1900 <= self.tm_year && self.tm_year <= 65_535 - 1900 && -1 <= self.tm_mon
            && self.tm_mon <= 65_534 && 0 <= self.tm_wday && self.tm_wday <= 65_535 && 0
            <= self.tm_mday && self.tm_mday <= 65_535 && 0 <= self.tm_hour && self.tm_hour
            <= 65_535 && 0 <= self.tm_min && self.tm_min <= 65_535 && 0 <= self.tm_sec
            && self.tm_sec <= 65_535
    }

    /// Takes the date and the time of day from `sys` and computes the day of
    /// the year from them.
    pub fn update_from_system_time(&mut self, sys: &WinSystemTime)
        requires
            1 <= sys.month <= 12,
        ensures
            *final(self) == old(self).with_system_time(*sys),
    {
        self.tm_sec = sys.second as i32;
        self.tm_min = sys.minute as i32;
        self.tm_hour = sys.hour as i32;
        self.tm_mday = sys.day as i32;
        self.tm_wday = sys.day_of_week as i32;
        self.tm_mon = sys.month as i32 - 1;
        self.tm_year = sys.year as i32 - 1900;
        self.tm_yday = yday(self.tm_year, self.tm_mon + 1, self.tm_mday);
    }

    /// The host's calendar record of this time. No part is cut: the record
    /// must be able to hold the time.
    pub fn as_system_time(&self) -> (r: WinSystemTime)
        requires
            self.fits_system_time(),
        ensures
            r == self.system_time(),
            r.year == self.tm_year + 1900,
            r.month == self.tm_mon + 1,
            r.day_of_week == self.tm_wday,
            r.day == self.tm_mday,
            r.hour == self.tm_hour,
            r.minute == self.tm_min,
            r.second == self.tm_sec,
            r.milliseconds == 0,
    {
        let mut sys = WinSystemTime::new();
        sys.second = self.tm_sec as u16;
        sys.minute = self.tm_min as u16;
        sys.hour = self.tm_hour as u16;
        sys.day = self.tm_mday as u16;
        sys.day_of_week = self.tm_wday as u16;
        sys.month = (self.tm_mon + 1) as u16;
        sys.year = (self.tm_year + 1900) as u16;
        sys
    }

    /// Sets the offset, and the daylight-saving flag by the zone.
    pub fn update_offset(&mut self, utcoff: i32, zone: &WinTimeZoneInfo)
        ensures
            *final(self) == old(self).with_offset(utcoff, *zone),
    {
        let standard: i64 = -60 * (zone.bias() as i64 + zone.standard_bias() as i64);
        self.tm_utcoff = utcoff;
        self.tm_isdst = if utcoff as i64 == standard {
            0
        } else {
            1
        };
    }

    /// Where [`Tm::utc_to_time`] stands after `answers`: it asks for the tick
    /// count of this time's calendar record and reads the seconds from it.
    pub open spec fn spec_utc_to_time(self, answers: Seq<HostReply>) -> Progress<i64> {
        if answers.len() < 1 {
            Progress::Call(HostCall::CalendarToTickCount(self.system_time()))
        } else {
            match answers[0].tick_count() {
                Ok(ticks) => Progress::Done(seconds_of_ticks(ticks.ticks()) as i64),
                Err(fault) => Progress::Failed(fault),
            }
        }
    }

    /// Where [`Tm::local_to_time`] stands after `answers`: it asks for the
    /// universal time of this time's calendar record, then for the tick count
    /// of what came back, and reads the seconds from it.
    pub open spec fn spec_local_to_time(self, answers: Seq<HostReply>) -> Progress<i64> {
        if answers.len() < 1 {
            Progress::Call(HostCall::LocalToCalendar(self.system_time()))
        } else {
            match answers[0].calendar() {
                Err(fault) => Progress::Failed(fault),
                Ok(utc) => if answers.len() < 2 {
                    Progress::Call(HostCall::CalendarToTickCount(utc))
                } else {
                    match answers[1].tick_count() {
                        Ok(ticks) => Progress::Done(seconds_of_ticks(ticks.ticks()) as i64),
                        Err(fault) => Progress::Failed(fault),
                    }
                },
            }
        }
    }

    /// Where [`Tm::update_from_seconds`] stands after `answers`, and the time
    /// it leaves when it is done.
    ///
    /// It asks in turn for the calendar record of the moment `sec` in
    /// universal time, for the local record of that, for the tick count of the
    /// local record, and for the zone. The date and the time of day are those
    /// of the local record; the offset is what the local record's seconds are
    /// ahead of `sec`. A local record whose month is none of the twelve ends
    /// it, and so does an offset beyond the range of `i32`.
    pub open spec fn spec_update_from_seconds(self, sec: i64, answers: Seq<HostReply>) -> Progress<
        Tm,
    > {
        if answers.len() < 1 {
            Progress::Call(
                HostCall::TickCountToCalendar(WinFileTime::of_ticks(ticks_of_seconds(sec as int))),
            )
        } else {
            match answers[0].calendar() {
                Err(fault) => Progress::Failed(fault),
                Ok(utc) => if answers.len() < 2 {
                    Progress::Call(HostCall::CalendarToLocal(utc))
                } else {
                    match answers[1].calendar() {
                        Err(fault) => Progress::Failed(fault),
                        Ok(local) => if !(1 <= local.month <= 12) {
                            Progress::Failed(Fault::InvalidTime)
                        } else if answers.len() < 3 {
                            Progress::Call(HostCall::CalendarToTickCount(local))
                        } else {
                            match answers[2].tick_count() {
                                Err(fault) => Progress::Failed(fault),
                                Ok(local_ticks) => match offset_between(
                                    sec as int,
                                    seconds_of_ticks(local_ticks.ticks()),
                                ) {
                                    None => Progress::Failed(Fault::InvalidTime),
                                    Some(utcoff) => if answers.len() < 4 {
                                        Progress::Call(HostCall::CurrentTimeZone)
                                    } else {
                                        match answers[3].time_zone() {
                                            Err(fault) => Progress::Failed(fault),
                                            Ok(zone) => Progress::Done(
                                                self.with_system_time(local).with_offset(
                                                    utcoff,
                                                    zone,
                                                ),
                                            ),
                                        }
                                    },
                                },
                            }
                        },
                    }
                },
            }
        }
    }

    /// Seconds since the Unix epoch of this time read as universal time.
    /// Takes one answer.
    pub fn utc_to_time(&self, answers: &[HostReply]) -> (r: Progress<i64>)
        requires
            self.fits_system_time(),
        ensures
            r == self.spec_utc_to_time(answers@),
    {
        if answers.len() < 1 {
            return Progress::Call(HostCall::CalendarToTickCount(self.as_system_time()));
        }
        match answers[0].as_tick_count() {
            Ok(ticks) => Progress::Done(ticks.as_unix_seconds()),
            Err(fault) => Progress::Failed(fault),
        }
    }

    /// Seconds since the Unix epoch of this time read as local time in the
    /// zone that is set now. Takes two answers.
    pub fn local_to_time(&self, answers: &[HostReply]) -> (r: Progress<i64>)
        requires
            self.fits_system_time(),
        ensures
            r == self.spec_local_to_time(answers@),
    {
        if answers.len() < 1 {
            return Progress::Call(HostCall::LocalToCalendar(self.as_system_time()));
        }
        let utc = match answers[0].as_calendar() {
            Ok(record) => record,
            Err(fault) => {
                return Progress::Failed(fault);
            },
        };
        if answers.len() < 2 {
            return Progress::Call(HostCall::CalendarToTickCount(utc));
        }
        match answers[1].as_tick_count() {
            Ok(ticks) => Progress::Done(ticks.as_unix_seconds()),
            Err(fault) => Progress::Failed(fault),
        }
    }

    /// Makes this the local time of the moment `sec` seconds after the Unix
    /// epoch, with its offset and daylight-saving flag. Takes four answers.
    /// Until it is done, and where it fails, this time stays as it was.
    pub fn update_from_seconds(&mut self, sec: i64, answers: &[HostReply]) -> (r: Progress<()>)
        ensures
            match old(self).spec_update_from_seconds(sec, answers@) {
                Progress::Done(tm) => r == Progress::Done(()) && *final(self) == tm,
                Progress::Call(call) => r == Progress::<()>::Call(call) && *final(self) == *old(
                    self,
                ),
                Progress::Failed(fault) => r == Progress::<()>::Failed(fault) && *final(self)
                    == *old(self),
            },
    {
        if answers.len() < 1 {
            return Progress::Call(HostCall::TickCountToCalendar(WinFileTime::from_seconds(sec)));
        }
        let utc = match answers[0].as_calendar() {
            Ok(record) => record,
            Err(fault) => {
                return Progress::Failed(fault);
            },
        };
        if answers.len() < 2 {
            return Progress::Call(HostCall::CalendarToLocal(utc));
        }
        let local = match answers[1].as_calendar() {
            Ok(record) => record,
            Err(fault) => {
                return Progress::Failed(fault);
            },
        };
        if local.month < 1 || local.month > 12 {
            return Progress::Failed(Fault::InvalidTime);
        }
        if answers.len() < 3 {
            return Progress::Call(HostCall::CalendarToTickCount(local));
        }
        let local_ticks = match answers[2].as_tick_count() {
            Ok(ticks) => ticks,
            Err(fault) => {
                return Progress::Failed(fault);
            },
        };
        let utcoff = match offset_of(sec, &local_ticks) {
            Some(utcoff) => utcoff,
            None => {
                return Progress::Failed(Fault::InvalidTime);
            },
        };
        if answers.len() < 4 {
            return Progress::Call(HostCall::CurrentTimeZone);
        }
        let zone = match answers[3].as_time_zone() {
            Ok(zone) => zone,
            Err(fault) => {
                return Progress::Failed(fault);
            },
        };
        self.update_from_system_time(&local);
        self.update_offset(utcoff, &zone);
        Progress::Done(())
    }

    /// Where [`Tm::from_timespec`] stands after `answers`: the local time of
    /// the moment's seconds, with the moment's nanoseconds.
    pub open spec fn spec_from_timespec(timespec: Timespec, answers: Seq<HostReply>) -> Progress<
        Tm,
    > {
        match Tm::zero().spec_update_from_seconds(timespec.sec, answers) {
            Progress::Done(tm) => Progress::Done(Tm { tm_nsec: timespec.nsec, ..tm }),
            Progress::Call(call) => Progress::Call(call),
            Progress::Failed(fault) => Progress::Failed(fault),
        }
    }

    /// The local time of the moment `timespec`, in the zone that is set now.
    /// Takes four answers.
    pub fn from_timespec(timespec: Timespec, answers: &[HostReply]) -> (r: Progress<Tm>)
        ensures
            r == Tm::spec_from_timespec(timespec, answers@),
    {
        let mut tm = Tm::default();
        match tm.update_from_seconds(timespec.sec, answers) {
            Progress::Done(_) => {
                tm.tm_nsec = timespec.nsec;
                Progress::Done(tm)
            },
            Progress::Call(call) => Progress::Call(call),
            Progress::Failed(fault) => Progress::Failed(fault),
        }
    }
}

} // verus!
