//! The local time resolver: the present moment as a local date-time, and a
//! date and time without a zone resolved to the moment it stands for.

use vstd::prelude::*;
use vstd::slice::slice_subrange;
use crate::calendar::{
    date_exists,
    is_valid_date,
    is_valid_time,
    time_exists,
    Aware,
    Civil,
    DateTime,
    FixedOffset,
    LocalResult,
    NaiveDateTime,
};
use crate::host::{Fault, HostReply, Progress};
use crate::timespec::Timespec;
use crate::tm::Tm;

verus! {

/// Second and nanosecond with a leap second written as second 60 folded into
/// the nanoseconds: second 60 becomes 59, and a thousand million nanoseconds
/// are added for it. Any other second stays as it is.
pub open spec fn leap_second_folded(second: int, nanosecond: int) -> (int, int) {
    if second == 60 {
        (59, nanosecond + (second - 59) * 1_000_000_000)
    } else {
        (second, nanosecond)
    }
}

/// Folds a leap second written as second 60 into the nanoseconds, so that the
/// second is one the host's calendar record can hold.
pub fn normalize_leap_second(second: u32, nanosecond: u32) -> (r: (u32, u32))
    requires
        second == 60 ==> nanosecond + 1_000_000_000 <= u32::MAX,
    ensures
        (r.0 as int, r.1 as int) == leap_second_folded(second as int, nanosecond as int),
{
    if second == 60 {
        (59, nanosecond + (second - 59) * 1_000_000_000)
    } else {
        (second, nanosecond)
    }
}

/// The date and the time of day that a broken-down time names.
pub open spec fn civil_of(tm: Tm) -> Civil {
    Civil {
        year: tm.tm_year + 1900,
        month: tm.tm_mon + 1,
        day: tm.tm_mday as int,
        hour: tm.tm_hour as int,
        minute: tm.tm_min as int,
        second: tm.tm_sec as int,
        nanosecond: tm.tm_nsec as int,
    }
}

/// Whether the parts of `tm` name a time of day.
pub open spec fn names_time(tm: Tm) -> bool {
    time_exists(tm.tm_hour as int, tm.tm_min as int, tm.tm_sec as int, tm.tm_nsec as int)
}

/// Whether a date-time can be made of `tm`: its date exists and, where its
/// parts name a time of day, its offset is less than a day either way and the
/// date in universal time is still in the range of years.
pub open spec fn convertible(tm: Tm) -> bool {
    &&& date_exists(tm.tm_year + 1900, tm.tm_mon + 1, tm.tm_mday as int)
    &&& names_time(tm) ==> {
        &&& -86_400 < tm.tm_utcoff < 86_400
        &&& civil_of(tm).plus_seconds(-tm.tm_utcoff).is_date_time()
    }
}

/// The date-time that `tm` stands for: local time as `tm` names it, the
/// offset of `tm`, and universal time as local time less the offset. There
/// is none where the parts of `tm` name no time of day.
pub open spec fn spec_tm_to_datetime(tm: Tm) -> LocalResult<Aware> {
    if names_time(tm) {
        LocalResult::Single(
            Aware {
                local: civil_of(tm),
                utc: civil_of(tm).plus_seconds(-tm.tm_utcoff),
                offset: tm.tm_utcoff as int,
            },
        )
    } else {
        LocalResult::Nonexistent
    }
}

/// The date-time that `tm` stands for, or nothing where none can be made of
/// it.
pub fn try_tm_to_datetime(tm: Tm) -> (r: Option<LocalResult<DateTime>>)
    ensures
        r.is_some() <==> convertible(tm),
        r matches Some(result) ==> result@ == spec_tm_to_datetime(tm),
{
    if tm.tm_year > i32::MAX - 1900 || tm.tm_mon < 0 || tm.tm_mon > 11 || tm.tm_mday < 1 {
        return None;
    }
    let year: i32 = tm.tm_year + 1900;
    let month: u32 = (tm.tm_mon + 1) as u32;
    let day: u32 = tm.tm_mday as u32;
    if !is_valid_date(year, month, day) {
        return None;
    }
    if tm.tm_hour < 0 || tm.tm_min < 0 || tm.tm_sec < 0 || tm.tm_nsec < 0 {
        return Some(LocalResult::Nonexistent);
    }
    let hour: u32 = tm.tm_hour as u32;
    let minute: u32 = tm.tm_min as u32;
    let second: u32 = tm.tm_sec as u32;
    let nanosecond: u32 = tm.tm_nsec as u32;
    if !is_valid_time(hour, minute, second, nanosecond) {
        return Some(LocalResult::Nonexistent);
    }
    let offset = match FixedOffset::east_opt(tm.tm_utcoff) {
        Some(offset) => offset,
        None => {
            return None;
        },
    };
    let local = match NaiveDateTime::new(year, month, day, hour, minute, second, nanosecond) {
        Some(local) => local,
        None => {
            return None;
        },
    };
    match DateTime::from_local(local, offset) {
        Some(datetime) => Some(LocalResult::Single(datetime)),
        None => None,
    }
}

/// The date-time that `tm` stands for.
pub fn tm_to_datetime(tm: Tm) -> (r: LocalResult<DateTime>)
    requires
        convertible(tm),
    ensures
        r@ == spec_tm_to_datetime(tm),
{
    match try_tm_to_datetime(tm) {
        Some(result) => result,
        None => LocalResult::Nonexistent,
    }
}

/// The broken-down time that is handed to the host for `d`: the parts of `d`
/// with the leap second folded away, the month counted from 0 and the year
/// from 1900, no day of the week or of the year, the daylight-saving flag
/// unknown, no nanoseconds, and 1 for the offset exactly where `local` is set.
pub open spec fn tm_of_naive(d: Civil, local: bool) -> Tm {
    Tm {
        tm_sec: leap_second_folded(d.second, d.nanosecond).0 as i32,
        tm_min: d.minute as i32,
        tm_hour: d.hour as i32,
        tm_mday: d.day as i32,
        tm_mon: (d.month - 1) as i32,
        tm_year: (d.year - 1900) as i32,
        tm_wday: 0,
        tm_yday: 0,
        tm_isdst: -1i32,
        tm_utcoff: if local {
            1i32
        } else {
            0i32
        },
        tm_nsec: 0,
    }
}

/// The number of answers that it takes to find the seconds of a date and time
/// without a zone.
pub open spec fn answers_for_seconds(local: bool) -> int {
    if local {
        2
    } else {
        1
    }
}

/// What a broken-down time from the host's answers comes to, once it has the
/// nanoseconds `nanosecond`.
pub open spec fn spec_finish(tm: Tm, nanosecond: int) -> Progress<LocalResult<Aware>> {
    let whole = Tm { tm_nsec: nanosecond as i32, ..tm };
    if convertible(whole) {
        Progress::Done(spec_tm_to_datetime(whole))
    } else {
        Progress::Failed(Fault::InvalidTime)
    }
}

/// Where [`naive_to_local`] stands after `answers`.
///
/// A date whose year the host's calendar record cannot hold stands for no
/// moment, and the host is not asked. Otherwise it first finds the seconds
/// since the Unix epoch of `d`, read as local time where `local` is set and as
/// universal time where it is not. Where the host fails a call in that part,
/// no moment has this date and time. Then it finds the local time of those
/// seconds and gives it the nanoseconds of `d`, with a leap second folded into
/// them.
pub open spec fn spec_naive_to_local(d: Civil, local: bool, answers: Seq<HostReply>) -> Progress<
    LocalResult<Aware>,
> {
    let tm = tm_of_naive(d, local);
    if !tm.fits_system_time() {
        Progress::Done(LocalResult::Nonexistent)
    } else {
        spec_resolve(tm, leap_second_folded(d.second, d.nanosecond).1, local, answers)
    }
}

/// Where the resolution of the broken-down time `tm`, which the host's
/// calendar record can hold, stands after `answers`; `nanosecond` is what the
/// result gets for its nanoseconds.
pub open spec fn spec_resolve(
    tm: Tm,
    nanosecond: int,
    local: bool,
    answers: Seq<HostReply>,
) -> Progress<LocalResult<Aware>> {
    let first = if local {
        tm.spec_local_to_time(answers)
    } else {
        tm.spec_utc_to_time(answers)
    };
    match first {
        Progress::Call(call) => Progress::Call(call),
        Progress::Failed(Fault::Os(_)) => Progress::Done(LocalResult::Nonexistent),
        Progress::Failed(fault) => Progress::Failed(fault),
        Progress::Done(sec) => {
            let rest = answers.subrange(answers_for_seconds(local), answers.len() as int);
            match (Timespec { sec, nsec: 0 }).spec_local(rest) {
                Progress::Call(call) => Progress::Call(call),
                Progress::Failed(fault) => Progress::Failed(fault),
                Progress::Done(found) => spec_finish(found, nanosecond),
            }
        },
    }
}

/// Resolves the date and time `d`, which carries no zone, to the moment it
/// stands for: `d` is local time in the zone that is set now where `local` is
/// set, and universal time where it is not. Takes five answers, or six where
/// `local` is set.
///
/// A local time that two moments share, as in the hour that is repeated when
/// daylight saving time ends, is resolved to the one the host picks: the
/// result is never `Ambiguous`. The host's calendar record holds the year in
/// 16 bits; a date whose year is beyond them, or before the year 0, stands
/// for no moment, and no call is made for it.
pub fn naive_to_local(d: &NaiveDateTime, local: bool, answers: &[HostReply]) -> (r: Progress<
    LocalResult<DateTime>,
>)
    ensures
        r@ == spec_naive_to_local(d@, local, answers@),
{
    proof {
        use_type_invariant(d);
    }
    let (second, nanosecond) = normalize_leap_second(d.second(), d.nanosecond());
    let tm = Tm {
        tm_sec: second as i32,
        tm_min: d.minute() as i32,
        tm_hour: d.hour() as i32,
        tm_mday: d.day() as i32,
        tm_mon: d.month0() as i32,
        tm_year: d.year() - 1900,
        tm_wday: 0,
        tm_yday: 0,
        tm_isdst: -1,
        tm_utcoff: if local {
            1
        } else {
            0
        },
        tm_nsec: 0,
    };
    if !tm.can_be_system_time() {
        return Progress::Done(LocalResult::Nonexistent);
    }
    let first = if local {
        tm.local_to_time(answers)
    } else {
        tm.utc_to_time(answers)
    };
    let sec = match first {
        Progress::Done(sec) => sec,
        Progress::Call(call) => {
            return Progress::Call(call);
        },
        Progress::Failed(Fault::Os(_)) => {
            return Progress::Done(LocalResult::Nonexistent);
        },
        Progress::Failed(fault) => {
            return Progress::Failed(fault);
        },
    };
    let used: usize = if local {
        2
    } else {
        1
    };
    let rest = slice_subrange(answers, used, answers.len());
    let moment = Timespec { sec, nsec: tm.tm_nsec };
    let mut found = match moment.local(rest) {
        Progress::Done(found) => found,
        Progress::Call(call) => {
            return Progress::Call(call);
        },
        Progress::Failed(fault) => {
            return Progress::Failed(fault);
        },
    };
    assert(found.tm_nsec == 0);
    found.tm_nsec = nanosecond as i32;
    match try_tm_to_datetime(found) {
        Some(result) => Progress::Done(result),
        None => Progress::Failed(Fault::InvalidTime),
    }
}

/// Where [`now`] stands after `answers`: the local time of `moment`, as a
/// date-time with its offset.
pub open spec fn spec_now(moment: Timespec, answers: Seq<HostReply>) -> Progress<Aware> {
    match moment.spec_local(answers) {
        Progress::Call(call) => Progress::Call(call),
        Progress::Failed(fault) => Progress::Failed(fault),
        Progress::Done(tm) => if convertible(tm) {
            match spec_tm_to_datetime(tm) {
                LocalResult::Single(aware) => Progress::Done(aware),
                _ => Progress::Failed(Fault::InvalidTime),
            }
        } else {
            Progress::Failed(Fault::InvalidTime)
        },
    }
}

/// The local date-time of `moment`, which the caller read from the clock, in
/// the zone that is set now. Takes four answers.
pub fn now(moment: Timespec, answers: &[HostReply]) -> (r: Progress<DateTime>)
    ensures
        r@ == spec_now(moment, answers@),
{
    let tm = match moment.local(answers) {
        Progress::Done(tm) => tm,
        Progress::Call(call) => {
            return Progress::Call(call);
        },
        Progress::Failed(fault) => {
            return Progress::Failed(fault);
        },
    };
    match try_tm_to_datetime(tm) {
        Some(LocalResult::Single(datetime)) => Progress::Done(datetime),
        _ => Progress::Failed(Fault::InvalidTime),
    }
}

} // verus!
