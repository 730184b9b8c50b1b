//! What holds of the resolver: some of it whatever the host answers, some of
//! it for a host whose answers agree with one another.

use vstd::prelude::*;
use crate::calendar::{
    lemma_plus_seconds_inverse,
    lemma_plus_seconds_is_date_time,
    Aware,
    Civil,
    LocalResult,
};
use crate::filetime::{seconds_of_ticks, WinFileTime};
use crate::host::{HostCall, HostReply, Progress};
use crate::local::{leap_second_folded, spec_naive_to_local, spec_now, tm_of_naive};
use crate::systime::{OsError, WinSystemTime, WinTimeZoneInfo};
use crate::timespec::Timespec;
use crate::tm::Tm;

verus! {

/// Ticks in one hour.
pub open spec fn ticks_per_hour() -> int {
    36_000_000_000
}

/// East is positive. Where the host's tick count for the local calendar
/// record is `k` whole hours ahead of the tick count of the moment, as it is
/// in a zone `k` hours east of universal time, a local date and time resolves
/// to an offset of `3600 * k` seconds.
pub proof fn lemma_offset_east_positive(
    d: Civil,
    answers: Seq<HostReply>,
    moment: WinFileTime,
    local_ticks: WinFileTime,
    k: int,
    aware: Aware,
)
    requires
        d.is_date_time(),
        answers.len() >= 6,
        answers[1] == HostReply::TickCount(moment),
        answers[4] == HostReply::TickCount(local_ticks),
        -24 < k < 24,
        moment.ticks() < 0x8000_0000_0000_0000,
        local_ticks.ticks() < 0x8000_0000_0000_0000,
        local_ticks.ticks() == moment.ticks() + k * ticks_per_hour(),
        spec_naive_to_local(d, true, answers) == Progress::Done(LocalResult::Single(aware)),
    ensures
        aware.offset == 3600 * k,
{
}

/// The date and time that a calendar record of the host names, with
/// `nanosecond` for the nanoseconds.
pub open spec fn civil_of_record(record: WinSystemTime, nanosecond: int) -> Civil {
    Civil {
        year: record.year as int,
        month: record.month as int,
        day: record.day as int,
        hour: record.hour as int,
        minute: record.minute as int,
        second: record.second as int,
        nanosecond,
    }
}

/// A date and time with a leap second written as second 60 folded into the
/// nanoseconds.
pub open spec fn folded(d: Civil) -> Civil {
    Civil {
        second: leap_second_folded(d.second, d.nanosecond).0,
        nanosecond: leap_second_folded(d.second, d.nanosecond).1,
        ..d
    }
}

/// Whether `answers` are what a host gives for the moment `sec` in a zone
/// where local time then reads `local` and is `offset` seconds ahead of
/// universal time: a calendar record of universal time, the calendar record
/// that names `local`, a tick count whose seconds are `offset` ahead of `sec`,
/// and the zone.
pub open spec fn shows_local_time(
    answers: Seq<HostReply>,
    sec: int,
    local: Civil,
    offset: int,
) -> bool {
    &&& answers.len() >= 4
    &&& answers[0] is Calendar
    &&& answers[1] matches HostReply::Calendar(record) && civil_of_record(
        record,
        local.nanosecond,
    ) == local
    &&& answers[2] matches HostReply::TickCount(ticks) && seconds_of_ticks(ticks.ticks()) - sec
        == offset
    &&& answers[3] is TimeZone
}

/// A date and time read as universal time comes back as it went in.
///
/// Let the host's record hold the year of `d`, let the host give a tick count
/// for `d`, and let its answers for that moment show the local time that lies
/// `offset` seconds ahead of `d`, for an `offset` of less than a day. Then `d`
/// is resolved to exactly one moment: its universal time is `d`, field by
/// field, with a leap second folded into the nanoseconds; its local time is
/// the one the host showed; its offset is `offset`.
pub proof fn lemma_universal_time_round_trip(
    d: Civil,
    answers: Seq<HostReply>,
    ticks: WinFileTime,
    offset: int,
)
    requires
        d.is_date_time(),
        0 <= d.year <= 65_535,
        -86_400 < offset < 86_400,
        answers.len() >= 5,
        answers[0] == HostReply::TickCount(ticks),
        shows_local_time(
            answers.subrange(1, answers.len() as int),
            seconds_of_ticks(ticks.ticks()),
            folded(d).plus_seconds(offset),
            offset,
        ),
    ensures
        spec_naive_to_local(d, false, answers) == Progress::Done(
            LocalResult::Single(
                Aware { local: folded(d).plus_seconds(offset), utc: folded(d), offset },
            ),
        ),
        d.second < 60 ==> folded(d) == d,
{
    lemma_plus_seconds_is_date_time(folded(d), offset);
    lemma_plus_seconds_inverse(folded(d), offset);
}

/// East is positive, and local time stays as it is.
///
/// Let the host's record hold the year of `d`, let the host give a universal
/// time and a tick count for `d` read as local time, and let its answers for
/// that moment show `d` as the local time, `offset` seconds ahead of universal
/// time, as it is in a zone `offset / 3600` hours to the east. Then `d` is
/// resolved to exactly one moment: its offset is `offset`, its local time is
/// `d` with a leap second folded into the nanoseconds, and its universal time
/// is that less the offset.
pub proof fn lemma_local_time_resolves(
    d: Civil,
    answers: Seq<HostReply>,
    utc: WinSystemTime,
    ticks: WinFileTime,
    offset: int,
)
    requires
        d.is_date_time(),
        0 <= d.year <= 65_535,
        -86_400 < offset < 86_400,
        answers.len() >= 6,
        answers[0] == HostReply::Calendar(utc),
        answers[1] == HostReply::TickCount(ticks),
        shows_local_time(
            answers.subrange(2, answers.len() as int),
            seconds_of_ticks(ticks.ticks()),
            folded(d),
            offset,
        ),
    ensures
        spec_naive_to_local(d, true, answers) == Progress::Done(
            LocalResult::Single(
                Aware { local: folded(d), utc: folded(d).plus_seconds(-offset), offset },
            ),
        ),
{
    lemma_plus_seconds_is_date_time(folded(d), -offset);
}

/// A date whose year the host's calendar record cannot hold stands for no
/// moment, whatever the answers; the host is never asked about another year.
pub proof fn lemma_year_beyond_the_record_is_nonexistent(
    d: Civil,
    local: bool,
    answers: Seq<HostReply>,
)
    requires
        d.is_date_time(),
        d.year < 0 || d.year > 65_535,
    ensures
        spec_naive_to_local(d, local, answers) == Progress::<LocalResult<Aware>>::Done(
            LocalResult::Nonexistent,
        ),
{
}

/// The first call hands the host the date and the time of day of `d` as they
/// are, with a leap second folded away, where the host's record can hold the
/// year.
pub proof fn lemma_first_call_names_the_date(d: Civil, local: bool)
    requires
        d.is_date_time(),
        0 <= d.year <= 65_535,
    ensures
        civil_of_record(tm_of_naive(d, local).system_time(), folded(d).nanosecond) == folded(d),
        spec_naive_to_local(d, local, Seq::empty()) == Progress::<LocalResult<Aware>>::Call(
            if local {
                HostCall::LocalToCalendar(tm_of_naive(d, local).system_time())
            } else {
                HostCall::CalendarToTickCount(tm_of_naive(d, local).system_time())
            },
        ),
{
}

/// What a date-time is with a thousand million nanoseconds more.
pub open spec fn a_second_later(aware: Aware) -> Aware {
    Aware {
        local: Civil { nanosecond: aware.local.nanosecond + 1_000_000_000, ..aware.local },
        utc: Civil { nanosecond: aware.utc.nanosecond + 1_000_000_000, ..aware.utc },
        offset: aware.offset,
    }
}

/// A leap second is one second later than the second before it. With the
/// same answers, second 60 is resolved as second 59 of the same minute is,
/// but for a thousand million nanoseconds more in local and in universal
/// time; where second 59 stands for no moment or ends in a fault, so does
/// second 60.
pub proof fn lemma_leap_second_is_a_second_later(
    d: Civil,
    local: bool,
    answers: Seq<HostReply>,
)
    requires
        d.is_date_time(),
        d.second == 59,
        d.nanosecond < 1_000_000_000,
    ensures
        match spec_naive_to_local(d, local, answers) {
            Progress::Done(LocalResult::Single(aware)) => spec_naive_to_local(
                Civil { second: 60, ..d },
                local,
                answers,
            ) == Progress::Done(LocalResult::Single(a_second_later(aware))),
            other => spec_naive_to_local(Civil { second: 60, ..d }, local, answers) == other,
        },
{
}

/// A leap second written as second 60 is kept. The host is shown second 59,
/// and the date-time that comes out has the nanoseconds of the input and a
/// thousand million more, in local and in universal time.
pub proof fn lemma_leap_second_kept(
    d: Civil,
    local: bool,
    answers: Seq<HostReply>,
    aware: Aware,
)
    requires
        d.is_date_time(),
        d.second == 60,
        spec_naive_to_local(d, local, answers) == Progress::Done(LocalResult::Single(aware)),
    ensures
        tm_of_naive(d, local).system_time().second == 59,
        aware.local.nanosecond == d.nanosecond + 1_000_000_000,
        aware.utc.nanosecond == d.nanosecond + 1_000_000_000,
{
}

/// The nanoseconds of the input reach the result as they are, where the
/// second is not 60.
pub proof fn lemma_nanoseconds_kept(
    d: Civil,
    local: bool,
    answers: Seq<HostReply>,
    aware: Aware,
)
    requires
        d.is_date_time(),
        d.second != 60,
        spec_naive_to_local(d, local, answers) == Progress::Done(LocalResult::Single(aware)),
    ensures
        aware.local.nanosecond == d.nanosecond,
        aware.utc.nanosecond == d.nanosecond,
{
}

/// A local date and time that the host cannot turn into universal time, or
/// whose universal time it cannot turn into a tick count, stands for no
/// moment: the result is `Nonexistent`, never `Single`.
pub proof fn lemma_rejected_local_time_is_nonexistent(
    d: Civil,
    answers: Seq<HostReply>,
    error: OsError,
    utc: WinSystemTime,
)
    requires
        d.is_date_time(),
        answers.len() >= 1,
        answers[0] == HostReply::Failed(error) || (answers.len() >= 2 && answers[0]
            == HostReply::Calendar(utc) && answers[1] == HostReply::Failed(error)),
    ensures
        spec_naive_to_local(d, true, answers) == Progress::<LocalResult<Aware>>::Done(
            LocalResult::Nonexistent,
        ),
{
}

/// The same for a date and time read as universal time, which the host cannot
/// turn into a tick count.
pub proof fn lemma_rejected_universal_time_is_nonexistent(
    d: Civil,
    answers: Seq<HostReply>,
    error: OsError,
)
    requires
        d.is_date_time(),
        answers.len() >= 1,
        answers[0] == HostReply::Failed(error),
    ensures
        spec_naive_to_local(d, false, answers) == Progress::<LocalResult<Aware>>::Done(
            LocalResult::Nonexistent,
        ),
{
}

/// While daylight saving time is not in effect, the offset of the present
/// moment, negated and divided by 60, is the zone's bias plus its standard
/// bias, and nothing is lost in the division.
pub proof fn lemma_now_offset_in_standard_time(
    moment: Timespec,
    answers: Seq<HostReply>,
    tm: Tm,
    zone: WinTimeZoneInfo,
    aware: Aware,
)
    requires
        moment.spec_local(answers) == Progress::Done(tm),
        tm.tm_isdst == 0,
        answers[3] == HostReply::TimeZone(zone),
        spec_now(moment, answers) == Progress::Done(aware),
    ensures
        aware.offset == tm.tm_utcoff,
        (-aware.offset) / 60 == zone.bias + zone.standard_bias,
        (-aware.offset) % 60 == 0,
{
}

/// No date and time is resolved to two moments, whatever the host answers.
pub proof fn lemma_never_ambiguous(
    d: Civil,
    local: bool,
    answers: Seq<HostReply>,
    found: LocalResult<Aware>,
)
    requires
        spec_naive_to_local(d, local, answers) == Progress::Done(found),
    ensures
        found is Single || found is Nonexistent,
{
}

/// A date and time is resolved after six answers at most: with six or more
/// there is no further call.
pub proof fn lemma_naive_to_local_ends(d: Civil, local: bool, answers: Seq<HostReply>)
    requires
        answers.len() >= 6,
    ensures
        !(spec_naive_to_local(d, local, answers) is Call),
{
}

/// The present moment is found after four answers at most.
pub proof fn lemma_now_ends(moment: Timespec, answers: Seq<HostReply>)
    requires
        answers.len() >= 4,
    ensures
        !(spec_now(moment, answers) is Call),
{
}

/// Once a date and time is resolved or has failed, further answers change
/// nothing.
pub proof fn lemma_naive_to_local_settled(
    d: Civil,
    local: bool,
    answers: Seq<HostReply>,
    more: Seq<HostReply>,
)
    requires
        !(spec_naive_to_local(d, local, answers) is Call),
    ensures
        spec_naive_to_local(d, local, answers + more) == spec_naive_to_local(d, local, answers),
{
}

/// Once the present moment is found or has failed, further answers change
/// nothing.
pub proof fn lemma_now_settled(moment: Timespec, answers: Seq<HostReply>, more: Seq<HostReply>)
    requires
        !(spec_now(moment, answers) is Call),
    ensures
        spec_now(moment, answers + more) == spec_now(moment, answers),
{
}

} // verus!
