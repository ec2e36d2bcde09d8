//! The time of a transaction: a civil date and time at an offset from UTC.

use vstd::prelude::*;

verus! {

/// A civil date and time with the offset from UTC at which it is read, as
/// mathematical integers.
pub struct Civil {
    pub year: int,
    pub month: int,
    pub day: int,
    pub hour: int,
    pub minute: int,
    pub second: int,
    pub nanosecond: int,
    /// Seconds east of UTC.
    pub offset: int,
}

/// Whether `year` is a leap year of the proleptic Gregorian calendar.
pub open spec fn is_leap_year(year: int) -> bool {
    year % 4 == 0 && (year % 100 != 0 || year % 400 == 0)
}

/// The number of days of a month; 0 where `month` is none.
pub open spec fn days_in_month(year: int, month: int) -> int {
    if month == 1 || month == 3 || month == 5 || month == 7 || month == 8 || month == 10 || month
        == 12 {
        31
    } else if month == 4 || month == 6 || month == 9 || month == 11 {
        30
    } else if month == 2 {
        if is_leap_year(year) {
            29
        } else {
            28
        }
    } else {
        0
    }
}

impl Civil {
    /// A date of the calendar in the years -9999 to 9999, a time of day, and
    /// an offset of less than 26 hours.
    pub open spec fn valid(self) -> bool {
        &&& -9999 <= self.year <= 9999
        &&& 1 <= self.month <= 12
        &&& 1 <= self.day <= days_in_month(self.year, self.month)
        &&& 0 <= self.hour <= 23
        &&& 0 <= self.minute <= 59
        &&& 0 <= self.second <= 59
        &&& 0 <= self.nanosecond <= 999_999_999
        &&& -93_599 <= self.offset <= 93_599
    }
}

/// The time of one transaction. Every value is a valid date and time.
#[derive(Debug, Clone, Copy, PartialEq, Eq)]
pub struct TxnTime {
    year: i16,
    month: u8,
    day: u8,
    hour: u8,
    minute: u8,
    second: u8,
    nanosecond: u32,
    offset: i32,
}

impl View for TxnTime {
    type V = Civil;

    closed spec fn view(&self) -> Civil {
        Civil {
            year: self.year as int,
            month: self.month as int,
            day: self.day as int,
            hour: self.hour as int,
            minute: self.minute as int,
            second: self.second as int,
            nanosecond: self.nanosecond as int,
            offset: self.offset as int,
        }
    }
}

/// The text that jiff's `strtime` formatting gives for a format string and
/// a time in a zone of fixed offset; `None` where jiff gives none.
pub uninterp spec fn strtime_text(format: Seq<char>, time: Civil) -> Option<Seq<char>>;

/// The RFC 3339 text, in UTC, of the instant at which a time falls; `None`
/// where jiff cannot hold the instant.
pub uninterp spec fn instant_text(time: Civil) -> Option<Seq<char>>;

/// Calls `jiff::fmt::strtime::format` on the zoned time that has the fields
/// of `time` in the zone of its fixed offset. The contract gives the outcome
/// a name and claims no more of it than that it depends on the format and
/// the fields alone: whether there is a text, and which. `None` where jiff
/// cannot hold the time or reports an error.
#[verifier::external_body]
pub(crate) fn strtime_format(format: &str, time: &TxnTime) -> (r: Option<String>)
    ensures
        match r {
            Some(s) => strtime_text(format@, time@) == Some(s@),
            None => strtime_text(format@, time@) is None,
        },
{
    let offset = jiff::tz::Offset::from_seconds(time.offset).ok()?;
    let zoned = jiff::civil::DateTime::new(
        time.year,
        time.month as i8,
        time.day as i8,
        time.hour as i8,
        time.minute as i8,
        time.second as i8,
        time.nanosecond as i32,
    ).ok()?.to_zoned(jiff::tz::TimeZone::fixed(offset)).ok()?;
    jiff::fmt::strtime::format(format, &zoned).ok()
}

/// Converts `time` to a `jiff::Timestamp` and writes it out with the
/// timestamp's `Display`, which is RFC 3339 in UTC. The contract gives the
/// outcome a name and claims no more of it than that it depends on the
/// fields alone: whether there is a text, and which. `None` where the
/// instant is outside the range jiff supports.
#[verifier::external_body]
pub(crate) fn instant_rfc3339(time: &TxnTime) -> (r: Option<String>)
    ensures
        match r {
            Some(s) => instant_text(time@) == Some(s@),
            None => instant_text(time@) is None,
        },
{
    let offset = jiff::tz::Offset::from_seconds(time.offset).ok()?;
    let civil = jiff::civil::DateTime::new(
        time.year,
        time.month as i8,
        time.day as i8,
        time.hour as i8,
        time.minute as i8,
        time.second as i8,
        time.nanosecond as i32,
    ).ok()?;
    Some(offset.to_timestamp(civil).ok()?.to_string())
}

/// The number of days of a month of a year.
fn month_length(year: i16, month: u8) -> (n: u8)
    requires
        -9999 <= year <= 9999,
    ensures
        n == days_in_month(year as int, month as int),
{
    if month == 2 {
        // 10000 is a multiple of 400, so the shifted year has the same
        // remainders and is not negative.
        let y: u32 = (year as i32 + 10000) as u32;
        if y % 4 == 0 && (y % 100 != 0 || y % 400 == 0) {
            29
        } else {
            28
        }
    } else if month == 4 || month == 6 || month == 9 || month == 11 {
        30
    } else if 1 <= month && month <= 12 {
        31
    } else {
        0
    }
}

impl TxnTime {
    #[verifier::type_invariant]
    closed spec fn inv(self) -> bool {
        self@.valid()
    }

    /// The time with the given fields, where they make a valid one.
    pub fn new(
        year: i16,
        month: u8,
        day: u8,
        hour: u8,
        minute: u8,
        second: u8,
        nanosecond: u32,
        offset: i32,
    ) -> (r: Option<TxnTime>)
        ensures
            r is Some <==> (Civil {
                year: year as int,
                month: month as int,
                day: day as int,
                hour: hour as int,
                minute: minute as int,
                second: second as int,
                nanosecond: nanosecond as int,
                offset: offset as int,
            }).valid(),
            r matches Some(t) ==> t@ == (Civil {
                year: year as int,
                month: month as int,
                day: day as int,
                hour: hour as int,
                minute: minute as int,
                second: second as int,
                nanosecond: nanosecond as int,
                offset: offset as int,
            }),
    {
        if year < -9999 || year > 9999 || month < 1 || month > 12 {
            return None;
        }
        if day < 1 || day > month_length(year, month) {
            return None;
        }
        if hour > 23 || minute > 59 || second > 59 || nanosecond > 999_999_999 {
            return None;
        }
        if offset < -93_599 || offset > 93_599 {
            return None;
        }
        Some(TxnTime { year, month, day, hour, minute, second, nanosecond, offset })
    }

    /// The year, in the years -9999 to 9999.
    pub fn year(&self) -> (y: i16)
        ensures
            y == self@.year,
            -9999 <= y <= 9999,
    {
        proof {
            use_type_invariant(self);
        }
        self.year
    }

    /// The month of the year, from 1.
    pub fn month(&self) -> (m: u8)
        ensures
            m == self@.month,
            1 <= m <= 12,
    {
        proof {
            use_type_invariant(self);
        }
        self.month
    }

    /// The day of the month, from 1.
    pub fn day(&self) -> (d: u8)
        ensures
            d == self@.day,
            1 <= d <= days_in_month(self@.year, self@.month),
            d <= 31,
    {
        proof {
            use_type_invariant(self);
        }
        self.day
    }

    /// The hour of the day.
    pub fn hour(&self) -> (h: u8)
        ensures
            h == self@.hour,
            h <= 23,
    {
        proof {
            use_type_invariant(self);
        }
        self.hour
    }

    /// The minute of the hour.
    pub fn minute(&self) -> (m: u8)
        ensures
            m == self@.minute,
            m <= 59,
    {
        proof {
            use_type_invariant(self);
        }
        self.minute
    }

    /// The second of the minute.
    pub fn second(&self) -> (s: u8)
        ensures
            s == self@.second,
            s <= 59,
    {
        proof {
            use_type_invariant(self);
        }
        self.second
    }

    /// The nanoseconds after the second.
    pub fn subsec_nanosecond(&self) -> (n: u32)
        ensures
            n == self@.nanosecond,
            n <= 999_999_999,
    {
        proof {
            use_type_invariant(self);
        }
        self.nanosecond
    }

    /// The offset from UTC, in seconds east of it.
    pub fn offset_seconds(&self) -> (o: i32)
        ensures
            o == self@.offset,
            -93_599 <= o <= 93_599,
    {
        proof {
            use_type_invariant(self);
        }
        self.offset
    }
}

} // verus!
