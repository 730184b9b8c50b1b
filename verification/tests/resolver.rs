use win_localtime::calendar::{DateTime, FixedOffset, LocalResult, NaiveDateTime};
use win_localtime::filetime::WinFileTime;
use win_localtime::host::{Fault, HostCall, HostReply, Progress};
use win_localtime::local::{
    naive_to_local, normalize_leap_second, now, tm_to_datetime, try_tm_to_datetime,
};
use win_localtime::systime::{OsError, WinSystemTime, WinTimeZoneInfo};
use win_localtime::timespec::Timespec;
use win_localtime::tm::Tm;

const REJECTED: OsError = OsError { code: 87 };

/// A stand-in for the host: a zone that is `offset` seconds east of universal
/// time, except that local times from `gap.0` up to `gap.1` (seconds since the
/// epoch, read as if universal) do not exist.
#[derive(Clone, Copy)]
struct Zone {
    offset: i64,
    info: WinTimeZoneInfo,
    gap: Option<(i64, i64)>,
}

fn days_from_civil(y: i64, m: i64, d: i64) -> i64 {
    let y = if m <= 2 { y - 1 } else { y };
    let era = y.div_euclid(400);
    let yoe = y - era * 400;
    let mp = (m + 9) % 12;
    let doy = (153 * mp + 2) / 5 + d - 1;
    let doe = yoe * 365 + yoe / 4 - yoe / 100 + doy;
    era * 146_097 + doe - 719_468
}

fn civil_from_days(z: i64) -> (i64, i64, i64) {
    let z = z + 719_468;
    let era = z.div_euclid(146_097);
    let doe = z - era * 146_097;
    let yoe = (doe - doe / 1460 + doe / 36_524 - doe / 146_096) / 365;
    let doy = doe - (365 * yoe + yoe / 4 - yoe / 100);
    let mp = (5 * doy + 2) / 153;
    let d = doy - (153 * mp + 2) / 5 + 1;
    let m = if mp < 10 { mp + 3 } else { mp - 9 };
    let y = yoe + era * 400 + if m <= 2 { 1 } else { 0 };
    (y, m, d)
}

fn month_days(y: i64, m: i64) -> i64 {
    match m {
        2 => {
            if y % 4 == 0 && (y % 100 != 0 || y % 400 == 0) {
                29
            } else {
                28
            }
        }
        4 | 6 | 9 | 11 => 30,
        _ => 31,
    }
}

fn seconds_of(r: &WinSystemTime) -> Option<i64> {
    let (y, m, d) = (r.year as i64, r.month as i64, r.day as i64);
    if y < 1601 || y > 30_827 || m < 1 || m > 12 || d < 1 || d > month_days(y, m) {
        return None;
    }
    if r.hour > 23 || r.minute > 59 || r.second > 59 || r.milliseconds > 999 {
        return None;
    }
    Some(
        days_from_civil(y, m, d) * 86_400
            + r.hour as i64 * 3600
            + r.minute as i64 * 60
            + r.second as i64,
    )
}

fn record_of(secs: i64) -> WinSystemTime {
    let days = secs.div_euclid(86_400);
    let rest = secs.rem_euclid(86_400);
    let (y, m, d) = civil_from_days(days);
    WinSystemTime {
        year: y as u16,
        month: m as u16,
        day_of_week: (days + 4).rem_euclid(7) as u16,
        day: d as u16,
        hour: (rest / 3600) as u16,
        minute: (rest / 60 % 60) as u16,
        second: (rest % 60) as u16,
        milliseconds: 0,
    }
}

fn ticks_of(secs: i64) -> WinFileTime {
    let t = (secs * 10_000_000 + 116_444_736_000_000_000) as u64;
    WinFileTime { low_date_time: t as u32, high_date_time: (t >> 32) as u32 }
}

fn seconds_of_ticks(t: &WinFileTime) -> i64 {
    let ticks = ((t.high_date_time as u64) << 32 | t.low_date_time as u64) as i64;
    (ticks - 116_444_736_000_000_000).div_euclid(10_000_000)
}

impl Zone {
    fn fixed(hours: i64) -> Zone {
        Zone {
            offset: hours * 3600,
            info: WinTimeZoneInfo { bias: (-hours * 60) as i32, standard_bias: 0 },
            gap: None,
        }
    }

    fn answer(&self, call: HostCall) -> HostReply {
        match call {
            HostCall::TickCountToCalendar(t) => {
                if t.high_date_time >= 0x8000_0000 {
                    HostReply::Failed(REJECTED)
                } else {
                    HostReply::Calendar(record_of(seconds_of_ticks(&t)))
                }
            }
            HostCall::CalendarToLocal(utc) => match seconds_of(&utc) {
                Some(s) => HostReply::Calendar(record_of(s + self.offset)),
                None => HostReply::Failed(REJECTED),
            },
            HostCall::LocalToCalendar(local) => match seconds_of(&local) {
                Some(s) => match self.gap {
                    Some((from, to)) if from <= s && s < to => HostReply::Failed(REJECTED),
                    _ => HostReply::Calendar(record_of(s - self.offset)),
                },
                None => HostReply::Failed(REJECTED),
            },
            HostCall::CalendarToTickCount(r) => match seconds_of(&r) {
                Some(s) => HostReply::TickCount(ticks_of(s)),
                None => HostReply::Failed(REJECTED),
            },
            HostCall::CurrentTimeZone => HostReply::TimeZone(self.info),
        }
    }
}

/// Asks `step` again and again, each time with one more answer of `host`.
fn drive<T>(
    step: impl Fn(&[HostReply]) -> Progress<T>,
    host: impl Fn(HostCall) -> HostReply,
) -> (Result<T, Fault>, Vec<HostCall>) {
    let mut answers = Vec::new();
    let mut calls = Vec::new();
    loop {
        match step(&answers) {
            Progress::Call(call) => {
                assert!(calls.len() < 6, "more than six calls");
                calls.push(call);
                answers.push(host(call));
            }
            Progress::Done(value) => return (Ok(value), calls),
            Progress::Failed(fault) => return (Err(fault), calls),
        }
    }
}

fn resolve(d: &NaiveDateTime, local: bool, zone: Zone) -> Result<LocalResult<DateTime>, Fault> {
    drive(|answers| naive_to_local(d, local, answers), |call| zone.answer(call)).0
}

fn at(y: i32, mo: u32, d: u32, h: u32, mi: u32, s: u32, n: u32) -> NaiveDateTime {
    NaiveDateTime::new(y, mo, d, h, mi, s, n).unwrap()
}

fn single(r: Result<LocalResult<DateTime>, Fault>) -> DateTime {
    match r {
        Ok(LocalResult::Single(dt)) => dt,
        other => panic!("no single moment: {:?}", other),
    }
}

#[test]
fn folding_a_leap_second() {
    assert_eq!(normalize_leap_second(60, 0), (59, 1_000_000_000));
    assert_eq!(normalize_leap_second(60, 999_999_999), (59, 1_999_999_999));
    assert_eq!(normalize_leap_second(59, 5), (59, 5));
    assert_eq!(normalize_leap_second(0, 0), (0, 0));
    assert_eq!(normalize_leap_second(59, 1_500_000_000), (59, 1_500_000_000));
    assert_eq!(normalize_leap_second(61, 7), (61, 7));
}

#[test]
fn universal_time_comes_back_as_it_went_in() {
    let cases = [
        at(2023, 3, 1, 12, 30, 45, 123_456_789),
        at(1970, 1, 1, 0, 0, 0, 0),
        at(1969, 12, 31, 23, 59, 59, 999_999_999),
        at(1601, 1, 2, 0, 0, 0, 1),
        at(2024, 2, 29, 23, 59, 59, 0),
        at(2023, 12, 31, 23, 0, 0, 0),
        at(2100, 3, 1, 0, 0, 0, 0),
        at(2023, 6, 30, 23, 59, 59, 1_500_000_000),
    ];
    for hours in [-11, -8, 0, 2, 13] {
        for d in cases {
            let dt = single(resolve(&d, false, Zone::fixed(hours)));
            assert_eq!(dt.naive_utc(), d);
            assert_eq!(dt.offset().local_minus_utc() as i64, hours * 3600);
            assert_eq!(
                dt.naive_local(),
                d.checked_add_seconds((hours * 3600) as i32).unwrap()
            );
        }
    }
}

#[test]
fn east_is_positive() {
    let d = at(2023, 3, 1, 12, 0, 0, 0);
    for hours in [-12, -8, -1, 0, 1, 5, 14] {
        let dt = single(resolve(&d, true, Zone::fixed(hours)));
        assert_eq!(dt.offset().local_minus_utc() as i64, 3600 * hours);
        assert_eq!(dt.naive_local(), d);
        assert_eq!(dt.naive_utc(), d.checked_add_seconds((-3600 * hours) as i32).unwrap());
    }
}

#[test]
fn local_time_before_the_unix_epoch() {
    let d = at(1969, 12, 31, 20, 0, 0, 250);
    let dt = single(resolve(&d, true, Zone::fixed(-5)));
    assert_eq!(dt.naive_utc(), at(1970, 1, 1, 1, 0, 0, 250));
    assert_eq!(dt.offset().local_minus_utc(), -18_000);
}

#[test]
fn leap_second_is_kept_in_the_nanoseconds() {
    let d = at(2016, 12, 31, 23, 59, 60, 0);
    let (r, calls) = drive(
        |answers| naive_to_local(&d, false, answers),
        |call| Zone::fixed(0).answer(call),
    );
    let dt = single(r);
    assert_eq!(dt.naive_utc().second(), 59);
    assert_eq!(dt.naive_utc().nanosecond(), 1_000_000_000);
    assert_eq!(dt.naive_utc(), at(2016, 12, 31, 23, 59, 59, 1_000_000_000));
    // The host is shown second 59.
    match calls[0] {
        HostCall::CalendarToTickCount(record) => assert_eq!(record.second, 59),
        other => panic!("unexpected call {:?}", other),
    }
    // One second later than 23:59:59.0 would be, and the same otherwise.
    let plain = single(resolve(&at(2016, 12, 31, 23, 59, 59, 0), false, Zone::fixed(0)));
    assert_eq!(plain.naive_utc().nanosecond() + 1_000_000_000, dt.naive_utc().nanosecond());
    assert_eq!(plain.naive_utc(), at(2016, 12, 31, 23, 59, 59, 0));
    assert_eq!(plain.offset(), dt.offset());
    assert_eq!(plain.naive_local().second(), dt.naive_local().second());
    assert_eq!(plain.naive_local().nanosecond() + 1_000_000_000, dt.naive_local().nanosecond());

    let d = at(2016, 12, 31, 23, 59, 60, 250_000_000);
    let dt = single(resolve(&d, true, Zone::fixed(9)));
    assert_eq!(dt.naive_local(), at(2016, 12, 31, 23, 59, 59, 1_250_000_000));
    assert_eq!(dt.naive_utc(), at(2016, 12, 31, 14, 59, 59, 1_250_000_000));
}

#[test]
fn local_time_in_a_gap_is_no_moment() {
    // Clocks go from 02:00 to 03:00 on 2023-03-26.
    let from = seconds_of(&record_of(0)).unwrap() + days_from_civil(2023, 3, 26) * 86_400 + 7200;
    let zone = Zone { gap: Some((from, from + 3600)), ..Zone::fixed(1) };
    assert_eq!(
        resolve(&at(2023, 3, 26, 2, 30, 0, 0), true, zone),
        Ok(LocalResult::Nonexistent)
    );
    assert_eq!(
        resolve(&at(2023, 3, 26, 2, 0, 0, 0), true, zone),
        Ok(LocalResult::Nonexistent)
    );
    let dt = single(resolve(&at(2023, 3, 26, 1, 59, 59, 0), true, zone));
    assert_eq!(dt.offset().local_minus_utc(), 3600);
    // Read as universal time the same fields do stand for a moment.
    assert!(matches!(
        resolve(&at(2023, 3, 26, 2, 30, 0, 0), false, zone),
        Ok(LocalResult::Single(_))
    ));
}

#[test]
fn what_the_host_cannot_hold_is_no_moment() {
    // The host's calendar begins in 1601 and its year is 16 bits wide.
    assert_eq!(
        resolve(&at(1600, 12, 31, 23, 59, 59, 0), false, Zone::fixed(0)),
        Ok(LocalResult::Nonexistent)
    );
    assert_eq!(
        resolve(&at(1600, 12, 31, 23, 59, 59, 0), true, Zone::fixed(0)),
        Ok(LocalResult::Nonexistent)
    );
    assert_eq!(resolve(&at(0, 1, 1, 0, 0, 0, 0), true, Zone::fixed(3)), Ok(LocalResult::Nonexistent));
    assert_eq!(
        resolve(&at(-5, 1, 1, 0, 0, 0, 0), false, Zone::fixed(3)),
        Ok(LocalResult::Nonexistent)
    );
    assert_eq!(
        resolve(&at(30_828, 1, 1, 0, 0, 0, 0), false, Zone::fixed(0)),
        Ok(LocalResult::Nonexistent)
    );
}

#[test]
fn a_year_beyond_the_record_is_no_moment_and_no_call() {
    // 67506 is 1970 more than 2^16.
    for year in [67_506, 65_536, 70_000, 262_143, -1, -262_143] {
        for local in [false, true] {
            let d = at(year, 1, 1, 0, 0, 0, 0);
            assert_eq!(naive_to_local(&d, local, &[]), Progress::Done(LocalResult::Nonexistent));
            let (r, calls) =
                drive(|answers| naive_to_local(&d, local, answers), |call| Zone::fixed(0).answer(call));
            assert_eq!(r, Ok(LocalResult::Nonexistent));
            assert!(calls.is_empty());
        }
    }
    // The last year the record holds is handed over as it is.
    let d = at(65_535, 12, 31, 23, 59, 59, 0);
    match naive_to_local(&d, false, &[]) {
        Progress::Call(HostCall::CalendarToTickCount(record)) => {
            assert_eq!(record.year, 65_535);
            assert_eq!(record.month, 12);
            assert_eq!(record.day, 31);
        }
        other => panic!("unexpected {:?}", other),
    }
}

#[test]
fn failure_in_the_first_part_is_no_moment() {
    let d = at(2023, 3, 1, 12, 0, 0, 0);
    let e = OsError { code: 1 };
    let utc = record_of(0);
    assert_eq!(
        naive_to_local(&d, false, &[HostReply::Failed(e)]),
        Progress::Done(LocalResult::Nonexistent)
    );
    assert_eq!(
        naive_to_local(&d, true, &[HostReply::Failed(e)]),
        Progress::Done(LocalResult::Nonexistent)
    );
    assert_eq!(
        naive_to_local(&d, true, &[HostReply::Calendar(utc), HostReply::Failed(e)]),
        Progress::Done(LocalResult::Nonexistent)
    );
}

#[test]
fn failure_in_the_second_part_is_a_fault() {
    let d = at(2023, 3, 1, 12, 0, 0, 0);
    let e = OsError { code: 1 };
    let zone = Zone::fixed(2);
    for failing in 1..5 {
        let (r, calls) = drive(
            |answers| naive_to_local(&d, false, answers),
            |call| {
                let fail = match call {
                    HostCall::TickCountToCalendar(_) => failing == 1,
                    HostCall::CalendarToLocal(_) => failing == 2,
                    HostCall::CalendarToTickCount(r) => failing == 3 && r.hour == 14,
                    HostCall::CurrentTimeZone => failing == 4,
                    HostCall::LocalToCalendar(_) => false,
                };
                if fail {
                    HostReply::Failed(e)
                } else {
                    zone.answer(call)
                }
            },
        );
        assert_eq!(r, Err(Fault::Os(e)));
        assert_eq!(calls.len(), failing + 1);
    }
}

#[test]
fn an_answer_of_the_wrong_kind_is_a_fault() {
    let d = at(2023, 3, 1, 12, 0, 0, 0);
    let zone_answer = HostReply::TimeZone(WinTimeZoneInfo { bias: 0, standard_bias: 0 });
    assert_eq!(naive_to_local(&d, false, &[zone_answer]), Progress::Failed(Fault::Unexpected));
    assert_eq!(naive_to_local(&d, true, &[zone_answer]), Progress::Failed(Fault::Unexpected));
    assert_eq!(
        naive_to_local(&d, false, &[HostReply::TickCount(ticks_of(0)), zone_answer]),
        Progress::Failed(Fault::Unexpected)
    );
}

#[test]
fn calls_come_in_order() {
    let d = at(2023, 6, 15, 12, 0, 0, 0);
    let zone = Zone::fixed(2);
    let (r, calls) = drive(|answers| naive_to_local(&d, true, answers), |call| zone.answer(call));
    assert!(r.is_ok());
    let local = record_of(seconds_of_ticks(&ticks_of(1_686_830_400)));
    let utc = record_of(1_686_823_200);
    // What the library hands over carries no day of the week.
    let asked = WinSystemTime { day_of_week: 0, ..local };
    assert_eq!(
        calls,
        vec![
            HostCall::LocalToCalendar(asked),
            HostCall::CalendarToTickCount(utc),
            HostCall::TickCountToCalendar(ticks_of(1_686_823_200)),
            HostCall::CalendarToLocal(utc),
            HostCall::CalendarToTickCount(local),
            HostCall::CurrentTimeZone,
        ]
    );
    let (_, calls) = drive(|answers| naive_to_local(&d, false, answers), |call| zone.answer(call));
    assert_eq!(calls.len(), 5);
    assert_eq!(calls[0], HostCall::CalendarToTickCount(asked));
}

#[test]
fn answers_beyond_those_taken_are_not_read() {
    let d = at(2023, 6, 15, 12, 0, 0, 0);
    let zone = Zone::fixed(2);
    let mut answers = Vec::new();
    let done = loop {
        match naive_to_local(&d, true, &answers) {
            Progress::Call(call) => answers.push(zone.answer(call)),
            other => break other,
        }
    };
    answers.push(HostReply::Failed(OsError { code: 9 }));
    assert_eq!(naive_to_local(&d, true, &answers), done);
}

#[test]
fn a_record_that_is_no_date_is_a_fault() {
    let d = at(2023, 3, 1, 12, 0, 0, 0);
    let zone = Zone::fixed(0);
    let (r, _) = drive(
        |answers| naive_to_local(&d, false, answers),
        |call| match call {
            HostCall::CalendarToLocal(_) => HostReply::Calendar(WinSystemTime {
                year: 2023,
                month: 2,
                day_of_week: 0,
                day: 30,
                hour: 0,
                minute: 0,
                second: 0,
                milliseconds: 0,
            }),
            HostCall::CalendarToTickCount(r) if r.day == 30 => HostReply::TickCount(ticks_of(0)),
            other => zone.answer(other),
        },
    );
    assert_eq!(r, Err(Fault::InvalidTime));
}

#[test]
fn an_offset_of_a_day_is_a_fault() {
    let d = at(2023, 3, 1, 12, 0, 0, 0);
    let zone = Zone { offset: 86_400, ..Zone::fixed(0) };
    assert_eq!(resolve(&d, false, zone), Err(Fault::InvalidTime));
    let zone = Zone { offset: 86_399, ..Zone::fixed(0) };
    assert_eq!(single(resolve(&d, false, zone)).offset().local_minus_utc(), 86_399);
}

#[test]
fn an_offset_beyond_i32_is_a_fault() {
    // A local tick count 2^32 + 3600 seconds ahead is no offset of 3600.
    let d = at(2023, 3, 1, 12, 0, 0, 0);
    let zone = Zone { offset: 4_294_967_296 + 3600, ..Zone::fixed(0) };
    assert_eq!(resolve(&d, false, zone), Err(Fault::InvalidTime));
    let moment = Timespec { sec: 1_686_823_200, nsec: 0 };
    assert_eq!(
        drive(|answers| now(moment, answers), |call| zone.answer(call)).0,
        Err(Fault::InvalidTime)
    );
}

#[test]
fn a_record_that_is_no_time_of_day_is_no_moment() {
    let d = at(2023, 3, 1, 12, 0, 0, 0);
    let zone = Zone::fixed(0);
    let (r, _) = drive(
        |answers| naive_to_local(&d, false, answers),
        |call| match call {
            HostCall::CalendarToLocal(utc) => {
                HostReply::Calendar(WinSystemTime { second: 60, ..utc })
            }
            HostCall::CalendarToTickCount(r) if r.second == 60 => {
                zone.answer(HostCall::CalendarToTickCount(WinSystemTime { second: 59, ..r }))
            }
            other => zone.answer(other),
        },
    );
    assert_eq!(r, Ok(LocalResult::Nonexistent));
}

fn broken_down(y: i32, mon0: i32, d: i32, h: i32, mi: i32, s: i32, n: i32, off: i32) -> Tm {
    Tm {
        tm_sec: s,
        tm_min: mi,
        tm_hour: h,
        tm_mday: d,
        tm_mon: mon0,
        tm_year: y - 1900,
        tm_wday: 0,
        tm_yday: 0,
        tm_isdst: 0,
        tm_utcoff: off,
        tm_nsec: n,
    }
}

#[test]
fn date_time_of_a_broken_down_time() {
    let tm = broken_down(2023, 2, 1, 1, 30, 59, 1_000_000_000, 7200);
    let dt = tm_to_datetime(tm).single().unwrap();
    assert_eq!(dt.naive_local(), at(2023, 3, 1, 1, 30, 59, 1_000_000_000));
    assert_eq!(dt.naive_utc(), at(2023, 2, 28, 23, 30, 59, 1_000_000_000));
    assert_eq!(dt.offset(), FixedOffset::east_opt(7200).unwrap());
    assert_eq!(try_tm_to_datetime(tm), Some(LocalResult::Single(dt)));
}

#[test]
fn no_date_time_where_the_time_of_day_is_none() {
    for tm in [
        broken_down(2023, 2, 1, 24, 0, 0, 0, 0),
        broken_down(2023, 2, 1, 0, 60, 0, 0, 0),
        broken_down(2023, 2, 1, 0, 0, 60, 0, 0),
        broken_down(2023, 2, 1, 0, 0, 0, 2_000_000_000, 0),
        broken_down(2023, 2, 1, -1, 0, 0, 0, 0),
        broken_down(2023, 2, 1, 0, 0, 0, -1, 0),
    ] {
        assert_eq!(try_tm_to_datetime(tm), Some(LocalResult::Nonexistent));
        assert_eq!(tm_to_datetime(tm), LocalResult::Nonexistent);
    }
}

#[test]
fn no_conversion_without_a_date_or_an_offset() {
    for tm in [
        broken_down(2023, 1, 29, 0, 0, 0, 0, 0),
        broken_down(2023, 12, 1, 0, 0, 0, 0, 0),
        broken_down(2023, -1, 1, 0, 0, 0, 0, 0),
        broken_down(2023, 0, 0, 0, 0, 0, 0, 0),
        broken_down(300_000, 0, 1, 0, 0, 0, 0, 0),
        broken_down(2023, 0, 1, 0, 0, 0, 0, 86_400),
        broken_down(2023, 0, 1, 0, 0, 0, 0, -86_400),
        // The date is checked before the time of day.
        broken_down(2023, 1, 29, 25, 0, 0, 0, 0),
    ] {
        assert_eq!(try_tm_to_datetime(tm), None);
    }
    // The offset is read only where there is a time of day.
    let tm = broken_down(2023, 0, 1, 25, 0, 0, 0, 86_400);
    assert_eq!(try_tm_to_datetime(tm), Some(LocalResult::Nonexistent));
    assert_eq!(tm_to_datetime(tm), LocalResult::Nonexistent);
    let mut tm = broken_down(2023, 0, 1, 0, 0, 0, 0, 0);
    tm.tm_year = i32::MAX;
    assert_eq!(try_tm_to_datetime(tm), None);
}

#[test]
fn present_moment_in_local_time() {
    let zone = Zone::fixed(-8);
    let moment = Timespec { sec: 1_686_823_200, nsec: 987_654_321 };
    let (r, calls) = drive(|answers| now(moment, answers), |call| zone.answer(call));
    let dt = r.unwrap();
    assert_eq!(calls.len(), 4);
    assert_eq!(dt.naive_utc(), at(2023, 6, 15, 10, 0, 0, 987_654_321));
    assert_eq!(dt.naive_local(), at(2023, 6, 15, 2, 0, 0, 987_654_321));
    assert_eq!(dt.offset().local_minus_utc(), -28_800);
}

#[test]
fn offset_in_standard_time_is_the_bias_negated() {
    let moment = Timespec { sec: 1_700_000_000, nsec: 0 };
    for (hours, bias, standard_bias) in [(-8, 480, 0), (1, -60, 0), (5, -330, 30), (0, 0, 0)] {
        let zone = Zone {
            offset: hours * 3600,
            info: WinTimeZoneInfo { bias, standard_bias },
            gap: None,
        };
        let (tm, _) = drive(|answers| moment.local(answers), |call| zone.answer(call));
        let tm = tm.unwrap();
        assert_eq!(tm.tm_isdst, 0);
        let (dt, _) = drive(|answers| now(moment, answers), |call| zone.answer(call));
        let offset = dt.unwrap().offset().local_minus_utc();
        assert_eq!(-offset / 60, bias + standard_bias);
    }
}

#[test]
fn daylight_time_is_flagged() {
    let moment = Timespec { sec: 1_686_823_200, nsec: 0 };
    let zone = Zone {
        offset: -7 * 3600,
        info: WinTimeZoneInfo { bias: 480, standard_bias: 0 },
        gap: None,
    };
    let (tm, _) = drive(|answers| moment.local(answers), |call| zone.answer(call));
    let tm = tm.unwrap();
    assert_eq!(tm.tm_isdst, 1);
    assert_eq!(tm.tm_utcoff, -25_200);
}

#[test]
fn present_moment_faults() {
    let moment = Timespec { sec: 0, nsec: 0 };
    let e = OsError { code: 6 };
    assert_eq!(now(moment, &[HostReply::Failed(e)]), Progress::Failed(Fault::Os(e)));
    assert_eq!(
        now(moment, &[HostReply::TickCount(ticks_of(0))]),
        Progress::Failed(Fault::Unexpected)
    );
    // A moment whose nanoseconds are no part of a second has no date-time.
    let zone = Zone::fixed(0);
    let odd = Timespec { sec: 0, nsec: -1 };
    assert_eq!(
        drive(|answers| now(odd, answers), |call| zone.answer(call)).0,
        Err(Fault::InvalidTime)
    );
    // Ticks past the host's range.
    let late = Timespec { sec: 910_692_730_086, nsec: 0 };
    assert_eq!(
        drive(|answers| now(late, answers), |call| zone.answer(call)).0,
        Err(Fault::Os(REJECTED))
    );
}

#[test]
fn clock_reading_becomes_a_moment() {
    assert_eq!(
        Timespec::from_reading(Some((1, 200_000_000))),
        Some(Timespec { sec: 1, nsec: 200_000_000 })
    );
    assert_eq!(Timespec::from_reading(Some((0, 0))), Some(Timespec { sec: 0, nsec: 0 }));
    assert_eq!(Timespec::from_reading(None), None);
    assert_eq!(
        Timespec::from_reading(Some((i64::MAX as u64, 999_999_999))),
        Some(Timespec { sec: i64::MAX, nsec: 999_999_999 })
    );
}

#[test]
fn a_reading_that_is_no_moment() {
    assert_eq!(Timespec::from_reading(Some((u64::MAX, 5))), None);
    assert_eq!(Timespec::from_reading(Some((i64::MAX as u64 + 1, 0))), None);
    assert_eq!(Timespec::from_reading(Some((0, 1_000_000_000))), None);
    assert_eq!(Timespec::from_reading(Some((0, u32::MAX))), None);
}

#[test]
fn the_clock_is_past_the_year_2020() {
    let moment = Timespec::now().expect("system time before Unix epoch");
    assert!(moment.sec >= 0);
    assert!(moment.sec > 1_577_836_800);
    assert!(moment.nsec >= 0 && moment.nsec < 1_000_000_000);
    let later = Timespec::now().unwrap();
    assert!(later.sec >= moment.sec);
}
