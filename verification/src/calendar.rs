//! Dates and times of day without a zone, offsets from universal time, and
//! date-times that carry their offset.
//!
//! The calendar is the Gregorian one, carried back before its introduction.

use vstd::prelude::*;

verus! {

/// The first year a date can have.
pub const MIN_YEAR: i32 = -262_143;

/// The last year a date can have.
pub const MAX_YEAR: i32 = 262_143;

/// Seconds in a day.
pub const SECS_PER_DAY: i32 = 86_400;

/// Whether `year` has a 29th of February.
pub open spec fn leap_year(year: int) -> bool {
    year % 4 == 0 && (year % 100 != 0 || year % 400 == 0)
}

/// The number of days of `month` (January is 1) in `year`.
pub open spec fn month_length(year: int, month: int) -> int {
    if month == 2 {
        if leap_year(year) {
            29
        } else {
            28
        }
    } else if month == 4 || month == 6 || month == 9 || month == 11 {
        30
    } else {
        31
    }
}

/// Whether the calendar has this day, in a year that a date can have.
pub open spec fn date_exists(year: int, month: int, day: int) -> bool {
    &&& MIN_YEAR <= year <= MAX_YEAR
    &&& 1 <= month <= 12
    &&& 1 <= day <= month_length(year, month)
}

/// Whether this is a time of day. A nanosecond of a thousand million or more
/// stands for a leap second that follows the second named.
pub open spec fn time_exists(hour: int, minute: int, second: int, nanosecond: int) -> bool {
    &&& 0 <= hour < 24
    &&& 0 <= minute < 60
    &&& 0 <= second < 60
    &&& 0 <= nanosecond < 2_000_000_000
}

/// Whether this is a time of day with the leap second written as second 60.
pub open spec fn leap_time_exists(hour: int, minute: int, second: int, nanosecond: int) -> bool {
    &&& 0 <= hour < 24
    &&& 0 <= minute < 60
    &&& second == 60
    &&& 0 <= nanosecond < 1_000_000_000
}

/// A date and a time of day as numbers.
pub struct Civil {
    pub year: int,
    pub month: int,
    pub day: int,
    pub hour: int,
    pub minute: int,
    pub second: int,
    pub nanosecond: int,
}

impl Civil {
    /// Whether the date exists and the time of day does, in either way of
    /// writing a leap second.
    pub open spec fn is_date_time(self) -> bool {
        &&& date_exists(self.year, self.month, self.day)
        &&& (time_exists(self.hour, self.minute, self.second, self.nanosecond)
            || leap_time_exists(self.hour, self.minute, self.second, self.nanosecond))
    }

    /// Seconds since midnight.
    pub open spec fn second_of_day(self) -> int {
        self.hour * 3600 + self.minute * 60 + self.second
    }

    /// The same time of day on the day after.
    pub open spec fn next_day(self) -> Civil {
        if self.day < month_length(self.year, self.month) {
            Civil { day: self.day + 1, ..self }
        } else if self.month < 12 {
            Civil { month: self.month + 1, day: 1, ..self }
        } else {
            Civil { year: self.year + 1, month: 1, day: 1, ..self }
        }
    }

    /// The same time of day on the day before.
    pub open spec fn prev_day(self) -> Civil {
        if self.day > 1 {
            Civil { day: self.day - 1, ..self }
        } else if self.month > 1 {
            Civil {
                month: self.month - 1,
                day: month_length(self.year, self.month - 1),
                ..self
            }
        } else {
            Civil { year: self.year - 1, month: 12, day: 31, ..self }
        }
    }

    /// This date at `second_of_day` seconds after midnight.
    pub open spec fn at_second_of_day(self, second_of_day: int) -> Civil {
        Civil {
            hour: second_of_day / 3600,
            minute: (second_of_day / 60) % 60,
            second: second_of_day % 60,
            ..self
        }
    }

    /// The date and time `delta` seconds later, for a `delta` of less than a
    /// day either way. The nanosecond stays.
    pub open spec fn plus_seconds(self, delta: int) -> Civil {
        let moved = self.second_of_day() + delta;
        if moved < 0 {
            self.prev_day().at_second_of_day(moved + 86_400)
        } else if moved >= 86_400 {
            self.next_day().at_second_of_day(moved - 86_400)
        } else {
            self.at_second_of_day(moved)
        }
    }
}

/// Moving a date and time by less than a day and back by as much gives the
/// date and time again.
pub proof fn lemma_plus_seconds_inverse(c: Civil, delta: int)
    requires
        date_exists(c.year, c.month, c.day),
        time_exists(c.hour, c.minute, c.second, c.nanosecond),
        -86_400 < delta < 86_400,
    ensures
        c.plus_seconds(delta).plus_seconds(-delta) == c,
{
    let second_of_day = c.second_of_day();
    let moved = second_of_day + delta;
    assert(c.at_second_of_day(second_of_day) == c);
    if moved < 0 {
        let there = c.prev_day().at_second_of_day(moved + 86_400);
        assert(there.second_of_day() == moved + 86_400);
        assert(there.next_day().at_second_of_day(second_of_day) == c);
    } else if moved >= 86_400 {
        let there = c.next_day().at_second_of_day(moved - 86_400);
        assert(there.second_of_day() == moved - 86_400);
        assert(there.prev_day().at_second_of_day(second_of_day) == c);
    } else {
        let there = c.at_second_of_day(moved);
        assert(there.second_of_day() == moved);
        assert(there.at_second_of_day(second_of_day) == c);
    }
}

/// A date and time moved by less than a day is a date and time again, with a
/// second below 60, as long as the year is neither the first nor the last.
pub proof fn lemma_plus_seconds_is_date_time(c: Civil, delta: int)
    requires
        date_exists(c.year, c.month, c.day),
        time_exists(c.hour, c.minute, c.second, c.nanosecond),
        MIN_YEAR < c.year < MAX_YEAR,
        -86_400 < delta < 86_400,
    ensures
        c.plus_seconds(delta).is_date_time(),
        c.plus_seconds(delta).second < 60,
        c.plus_seconds(delta).nanosecond == c.nanosecond,
{
}

/// Whether `year` has a 29th of February.
pub fn is_leap_year(year: i32) -> (r: bool)
    ensures
        r == leap_year(year as int),
{
    year % 4 == 0 && (year % 100 != 0 || year % 400 == 0)
}

/// The number of days of `month` in `year`; 31 for a month that is none of
/// the twelve.
pub fn days_in_month(year: i32, month: u32) -> (r: u32)
    ensures
        r == month_length(year as int, month as int),
{
    if month == 2 {
        if is_leap_year(year) {
            29
        } else {
            28
        }
    } else if month == 4 || month == 6 || month == 9 || month == 11 {
        30
    } else {
        31
    }
}

/// Whether the calendar has this day.
pub fn is_valid_date(year: i32, month: u32, day: u32) -> (r: bool)
    ensures
        r == date_exists(year as int, month as int, day as int),
{
    MIN_YEAR <= year && year <= MAX_YEAR && 1 <= month && month <= 12 && 1 <= day && day
        <= days_in_month(year, month)
}

/// Whether this is a time of day.
pub fn is_valid_time(hour: u32, minute: u32, second: u32, nanosecond: u32) -> (r: bool)
    ensures
        r == time_exists(hour as int, minute as int, second as int, nanosecond as int),
{
    hour < 24 && minute < 60 && second < 60 && nanosecond < 2_000_000_000
}

/// A date and a time of day without a zone.
///
/// A leap second is written either as second 60, or as second 59 with a
/// nanosecond of a thousand million or more.
#[derive(Clone, Copy, Debug, PartialEq, Eq, Structural)]
pub struct NaiveDateTime {
    year: i32,
    month: u32,
    day: u32,
    hour: u32,
    minute: u32,
    second: u32,
    nanosecond: u32,
}

impl View for NaiveDateTime {
    type V = Civil;

    closed spec fn view(&self) -> Civil {
        Civil {
            year: self.year as int,
            month: self.month as int,
            day: self.day as int,
            hour: self.hour as int,
            minute: self.minute as int,
            second: self.second as int,
            nanosecond: self.nanosecond as int,
        }
    }
}

impl NaiveDateTime {
    /// Every value of this type is a date and time that exists.
    #[verifier::type_invariant]
    pub open spec fn is_valid(self) -> bool {
        self@.is_date_time()
    }

    /// The date and time with these fields, where there is one.
    pub fn new(
        year: i32,
        month: u32,
        day: u32,
        hour: u32,
        minute: u32,
        second: u32,
        nanosecond: u32,
    ) -> (r: Option<NaiveDateTime>)
        ensures
            r.is_some() <==> (Civil {
                year: year as int,
                month: month as int,
                day: day as int,
                hour: hour as int,
                minute: minute as int,
                second: second as int,
                nanosecond: nanosecond as int,
            }).is_date_time(),
            r matches Some(d) ==> d@ == (Civil {
                year: year as int,
                month: month as int,
                day: day as int,
                hour: hour as int,
                minute: minute as int,
                second: second as int,
                nanosecond: nanosecond as int,
            }),
    {
        let leap_form = hour < 24 && minute < 60 && second == 60 && nanosecond < 1_000_000_000;
        if is_valid_date(year, month, day) && (is_valid_time(hour, minute, second, nanosecond)
            || leap_form) {
            Some(NaiveDateTime { year, month, day, hour, minute, second, nanosecond })
        } else {
            None
        }
    }

    pub fn year(&self) -> (r: i32)
        ensures
            r == self@.year,
    {
        self.year
    }

    /// The month, January being 1.
    pub fn month(&self) -> (r: u32)
        ensures
            r == self@.month,
    {
        self.month
    }

    /// The month, January being 0.
    pub fn month0(&self) -> (r: u32)
        ensures
            r == self@.month - 1,
    {
        proof {
            use_type_invariant(self);
        }
        self.month - 1
    }

    pub fn day(&self) -> (r: u32)
        ensures
            r == self@.day,
    {
        self.day
    }

    pub fn hour(&self) -> (r: u32)
        ensures
            r == self@.hour,
    {
        self.hour
    }

    pub fn minute(&self) -> (r: u32)
        ensures
            r == self@.minute,
    {
        self.minute
    }

    pub fn second(&self) -> (r: u32)
        ensures
            r == self@.second,
    {
        self.second
    }

    pub fn nanosecond(&self) -> (r: u32)
        ensures
            r == self@.nanosecond,
    {
        self.nanosecond
    }

    /// The date and time `delta` seconds later. There is none where `delta` is
    /// a day or more either way, where the second is 60, or where the year
    /// would leave the range of years.
    pub fn checked_add_seconds(&self, delta: i32) -> (r: Option<NaiveDateTime>)
        ensures
            r.is_some() <==> (-86_400 < delta < 86_400 && self@.second < 60
                && self@.plus_seconds(delta as int).is_date_time()),
            r matches Some(d) ==> d@ == self@.plus_seconds(delta as int),
    {
        proof {
            use_type_invariant(self);
        }
        if delta <= -SECS_PER_DAY || delta >= SECS_PER_DAY || self.second >= 60 {
            return None;
        }
        let second_of_day: i32 = (self.hour * 3600 + self.minute * 60 + self.second) as i32;
        let moved: i32 = second_of_day + delta;
        let mut year: i32 = self.year;
        let mut month: u32 = self.month;
        let mut day: u32 = self.day;
        let mut rest: i32 = moved;
        if moved < 0 {
            rest = moved + SECS_PER_DAY;
            if day > 1 {
                day = day - 1;
            } else if month > 1 {
                month = month - 1;
                day = days_in_month(year, month);
            } else {
                year = year - 1;
                month = 12;
                day = 31;
            }
        } else if moved >= SECS_PER_DAY {
            rest = moved - SECS_PER_DAY;
            if day < days_in_month(year, month) {
                day = day + 1;
            } else if month < 12 {
                month = month + 1;
                day = 1;
            } else {
                year = year + 1;
                month = 1;
                day = 1;
            }
        }
        if year < MIN_YEAR || year > MAX_YEAR {
            return None;
        }
        let hour: u32 = (rest / 3600) as u32;
        let minute: u32 = ((rest / 60) % 60) as u32;
        let second: u32 = (rest % 60) as u32;
        Some(
            NaiveDateTime {
                year,
                month,
                day,
                hour,
                minute,
                second,
                nanosecond: self.nanosecond,
            },
        )
    }
}

/// Two date-times with the same fields are the same value.
pub proof fn lemma_same_fields_same_value(a: NaiveDateTime, b: NaiveDateTime)
    requires
        a@ == b@,
    ensures
        a == b,
{
}

/// An offset of local time from universal time, in seconds, positive to the
/// east, of less than a day either way.
#[derive(Clone, Copy, Debug, PartialEq, Eq, Structural)]
pub struct FixedOffset {
    local_minus_utc: i32,
}

impl View for FixedOffset {
    type V = int;

    closed spec fn view(&self) -> int {
        self.local_minus_utc as int
    }
}

impl FixedOffset {
    #[verifier::type_invariant]
    pub open spec fn is_valid(self) -> bool {
        -86_400 < self@ < 86_400
    }

    /// The offset of `secs` seconds to the east, where that is less than a day.
    pub fn east_opt(secs: i32) -> (r: Option<FixedOffset>)
        ensures
            r.is_some() <==> -86_400 < secs < 86_400,
            r matches Some(offset) ==> offset@ == secs,
    {
        if -SECS_PER_DAY < secs && secs < SECS_PER_DAY {
            Some(FixedOffset { local_minus_utc: secs })
        } else {
            None
        }
    }

    /// Seconds that local time is ahead of universal time.
    pub fn local_minus_utc(&self) -> (r: i32)
        ensures
            r == self@,
            -86_400 < r < 86_400,
    {
        proof {
            use_type_invariant(self);
        }
        self.local_minus_utc
    }
}

/// What a date-time with its offset holds.
pub struct Aware {
    pub local: Civil,
    pub utc: Civil,
    pub offset: int,
}

/// A moment as the date and time in a zone, together with the zone's offset
/// at that moment and the date and time in universal time.
#[derive(Clone, Copy, Debug, PartialEq, Eq, Structural)]
pub struct DateTime {
    local: NaiveDateTime,
    utc: NaiveDateTime,
    offset: FixedOffset,
}

impl View for DateTime {
    type V = Aware;

    closed spec fn view(&self) -> Aware {
        Aware { local: self.local@, utc: self.utc@, offset: self.offset@ }
    }
}

impl DateTime {
    /// Universal time is local time less the offset.
    #[verifier::type_invariant]
    pub open spec fn is_valid(self) -> bool {
        &&& self@.local.is_date_time()
        &&& self@.local.second < 60
        &&& -86_400 < self@.offset < 86_400
        &&& self@.utc == self@.local.plus_seconds(-self@.offset)
        &&& self@.utc.is_date_time()
    }

    /// The moment that is `local` in a zone `offset` ahead of universal time.
    /// There is none where the second of `local` is 60, or where the year in
    /// universal time would leave the range of years.
    pub fn from_local(local: NaiveDateTime, offset: FixedOffset) -> (r: Option<DateTime>)
        ensures
            r.is_some() <==> (local@.second < 60 && local@.plus_seconds(-offset@).is_date_time()),
            r matches Some(dt) ==> dt@.local == local@ && dt@.offset == offset@ && dt@.utc
                == local@.plus_seconds(-offset@),
    {
        proof {
            use_type_invariant(&local);
            use_type_invariant(&offset);
        }
        let delta: i32 = -offset.local_minus_utc();
        match local.checked_add_seconds(delta) {
            Some(utc) => {
                proof {
                    use_type_invariant(&utc);
                }
                Some(DateTime { local, utc, offset })
            },
            None => None,
        }
    }

    /// The date and time in the zone.
    pub fn naive_local(&self) -> (r: NaiveDateTime)
        ensures
            r@ == self@.local,
    {
        self.local
    }

    /// The date and time in universal time.
    pub fn naive_utc(&self) -> (r: NaiveDateTime)
        ensures
            r@ == self@.utc,
    {
        self.utc
    }

    /// The zone's offset at this moment.
    pub fn offset(&self) -> (r: FixedOffset)
        ensures
            r@ == self@.offset,
    {
        self.offset
    }
}

/// The moments that a local date and time can stand for.
#[derive(Clone, Copy, Debug, PartialEq, Eq)]
pub enum LocalResult<T> {
    /// No moment has this local time.
    Nonexistent,
    /// Exactly one moment has it.
    Single(T),
    /// Two moments have it, the earlier first.
    Ambiguous(T, T),
}

impl<T: View> View for LocalResult<T> {
    type V = LocalResult<T::V>;

    open spec fn view(&self) -> LocalResult<T::V> {
        match *self {
            LocalResult::Nonexistent => LocalResult::Nonexistent,
            LocalResult::Single(t) => LocalResult::Single(t@),
            LocalResult::Ambiguous(earlier, later) => LocalResult::Ambiguous(earlier@, later@),
        }
    }
}

impl<T> LocalResult<T> {
    /// The moment, where there is exactly one.
    pub fn single(self) -> (r: Option<T>)
        ensures
            r == (match self {
                LocalResult::Single(t) => Some(t),
                _ => None,
            }),
    {
        match self {
            LocalResult::Single(t) => Some(t),
            _ => None,
        }
    }
}

} // verus!
