use vstd::prelude::*;
use std::fmt::Write;

verus! {

#[verifier::external_type_specification]
#[verifier::external_body]
pub struct ExSystemTime(std::time::SystemTime);

/// A moment in UTC, by its calendar fields. `nanosecond` may reach into
/// 1_000_000_000..2_000_000_000 during a leap second.
#[derive(Debug, Clone, Copy)]
pub struct UtcDateTime {
    pub year: i32,
    pub month: u32,
    pub day: u32,
    pub hour: u32,
    pub minute: u32,
    pub second: u32,
    pub nanosecond: u32,
}

pub open spec fn utc_fields(t: UtcDateTime) -> (i32, u32, u32, u32, u32, u32, u32) {
    (t.year, t.month, t.day, t.hour, t.minute, t.second, t.nanosecond)
}

pub open spec fn utc_of_fields(f: (i32, u32, u32, u32, u32, u32, u32)) -> UtcDateTime {
    UtcDateTime { year: f.0, month: f.1, day: f.2, hour: f.3, minute: f.4, second: f.5, nanosecond: f.6 }
}

/// Leap years of the proleptic Gregorian calendar.
pub open spec fn is_leap_year(year: int) -> bool {
    year % 4 == 0 && (year % 100 != 0 || year % 400 == 0)
}

pub open spec fn days_in_month(year: int, month: int) -> int {
    if month == 2 {
        if is_leap_year(year) { 29 } else { 28 }
    } else if month == 4 || month == 6 || month == 9 || month == 11 {
        30
    } else {
        31
    }
}

/// `t` is a date and time that chrono can represent: a day of the
/// proleptic Gregorian calendar in chrono's year range, a time of day, and a
/// nanosecond past 10^9 only in the 59th second (a leap second).
pub open spec fn is_valid_utc(t: UtcDateTime) -> bool {
    &&& -262143 <= t.year <= 262142
    &&& 1 <= t.month <= 12
    &&& 1 <= t.day <= days_in_month(t.year as int, t.month as int)
    &&& t.hour < 24
    &&& t.minute < 60
    &&& t.second < 60
    &&& t.nanosecond < 2_000_000_000
    &&& t.nanosecond >= 1_000_000_000 ==> t.second == 59
}

/// What chrono's `DateTime::<Utc>::from_timestamp` gives for these seconds
/// and nanoseconds since 1970-01-01 00:00:00 UTC, by the fields of the
/// date and time: year, month, day, hour, minute, second, nanosecond.
pub uninterp spec fn chrono_utc_from_timestamp(secs: i64, nanos: u32) -> Option<
    (i32, u32, u32, u32, u32, u32, u32),
>;

/// What chrono writes for the UTC date and time given by the fields when it
/// formats it with the strftime-like format `fmt`: `None` when the fields are
/// no valid date and time or when `fmt` holds a specifier chrono rejects.
pub uninterp spec fn chrono_utc_format(
    year: i32,
    month: u32,
    day: u32,
    hour: u32,
    minute: u32,
    second: u32,
    nanosecond: u32,
    fmt: Seq<char>,
) -> Option<Seq<char>>;

/// The decimal digit `d` (0 to 9).
pub open spec fn digit(d: int) -> char {
    (48 + d) as char
}

pub open spec fn two_digits(v: int) -> Seq<char> {
    seq![digit(v / 10), digit(v % 10)]
}

pub open spec fn four_digits(v: int) -> Seq<char> {
    seq![digit(v / 1000), digit((v / 100) % 10), digit((v / 10) % 10), digit(v % 10)]
}

/// The English abbreviation of the month, e.g. `Feb`.
pub open spec fn month_abbreviation(month: int) -> Seq<char> {
    if month == 1 {
        seq!['J', 'a', 'n']
    } else if month == 2 {
        seq!['F', 'e', 'b']
    } else if month == 3 {
        seq!['M', 'a', 'r']
    } else if month == 4 {
        seq!['A', 'p', 'r']
    } else if month == 5 {
        seq!['M', 'a', 'y']
    } else if month == 6 {
        seq!['J', 'u', 'n']
    } else if month == 7 {
        seq!['J', 'u', 'l']
    } else if month == 8 {
        seq!['A', 'u', 'g']
    } else if month == 9 {
        seq!['S', 'e', 'p']
    } else if month == 10 {
        seq!['O', 'c', 't']
    } else if month == 11 {
        seq!['N', 'o', 'v']
    } else {
        seq!['D', 'e', 'c']
    }
}

/// The build time of `t` as in `Feb 12 1996 23:59:01`: month, day, year of
/// four digits, and the time, where a leap second shows as second 60.
pub open spec fn stated_build_time_text(t: UtcDateTime) -> Seq<char> {
    month_abbreviation(t.month as int) + seq![' '] + two_digits(t.day as int) + seq![' ']
        + four_digits(t.year as int) + seq![' '] + two_digits(t.hour as int) + seq![':']
        + two_digits(t.minute as int) + seq![':'] + two_digits(
        t.second + t.nanosecond / 1_000_000_000,
    )
}

/// `std::time::SystemTime::now`: the system clock's current reading. Nothing
/// is claimed of it.
#[verifier::external_body]
fn system_time_now() -> std::time::SystemTime {
    std::time::SystemTime::now()
}

/// `SystemTime::duration_since(UNIX_EPOCH)`, as whole seconds and the
/// nanoseconds of the second begun (`as_secs`, `subsec_nanos`): `None` for a
/// time before the epoch. Claimed: the nanoseconds are below 10^9, as
/// `subsec_nanos` documents; not claimed: which time it is.
#[verifier::external_body]
fn since_unix_epoch(t: &std::time::SystemTime) -> (r: Option<(u64, u32)>)
    ensures
        r matches Some((_, n)) ==> n < 1_000_000_000,
{
    match t.duration_since(std::time::UNIX_EPOCH) {
        Ok(d) => Some((d.as_secs(), d.subsec_nanos())),
        Err(_) => None,
    }
}

/// `chrono::DateTime::<Utc>::from_timestamp(secs, nanos)`, split into fields
/// with chrono's `Datelike`/`Timelike` accessors. Claimed: the result is the
/// one `chrono_utc_from_timestamp` names; every date and time chrono returns
/// is valid and keeps `nanos`; chrono's range (years up to 262142) covers
/// every time from the epoch to 8 * 10^12 seconds later, with `nanos` below
/// 10^9; and the times before 253402300800 seconds (year 10000) fall in the
/// years 1970 to 9999.
#[verifier::external_body]
fn chrono_from_timestamp(secs: i64, nanos: u32) -> (r: Option<UtcDateTime>)
    ensures
        match r {
            Some(t) => chrono_utc_from_timestamp(secs, nanos) == Some(utc_fields(t)),
            None => chrono_utc_from_timestamp(secs, nanos) is None,
        },
        r matches Some(t) ==> is_valid_utc(t) && t.nanosecond == nanos,
        0 <= secs < 8_000_000_000_000 && nanos < 1_000_000_000 ==> r is Some,
        0 <= secs < 253_402_300_800 ==> (r matches Some(t) ==> 1970 <= t.year <= 9999),
{
    let dt = chrono::DateTime::from_timestamp(secs, nanos)?;
    Some(UtcDateTime {
        year: chrono::Datelike::year(&dt),
        month: chrono::Datelike::month(&dt),
        day: chrono::Datelike::day(&dt),
        hour: chrono::Timelike::hour(&dt),
        minute: chrono::Timelike::minute(&dt),
        second: chrono::Timelike::second(&dt),
        nanosecond: chrono::Timelike::nanosecond(&dt),
    })
}

/// Formats the fields as a UTC date and time with chrono: the date is made by
/// `NaiveDate::from_ymd_opt`, the time by `and_hms_nano_opt`, and the result
/// of `and_utc().format(fmt)` is written out. Claimed: the text is what
/// `chrono_utc_format` names, `None` included; and for the format
/// `%b %d %Y %H:%M:%S` and a valid date and time, chrono writes text (its
/// strftime table: English month abbreviation, zero-padded day, year, hour,
/// minute and second, the year as four digits in 0..=9999 and a leap second as 60).
#[verifier::external_body]
fn chrono_format(t: &UtcDateTime, fmt: &str) -> (res: Option<String>)
    ensures
        match res {
            Some(s) => {
                &&& chrono_utc_format(t.year, t.month, t.day, t.hour, t.minute, t.second, t.nanosecond, fmt@) == Some(s@)
                &&& is_valid_utc(*t) && fmt@ == "%b %d %Y %H:%M:%S"@ && 0 <= t.year <= 9999 ==> s@ == stated_build_time_text(*t)
            },
            None => chrono_utc_format(t.year, t.month, t.day, t.hour, t.minute, t.second, t.nanosecond, fmt@) is None,
        },
        is_valid_utc(*t) && fmt@ == "%b %d %Y %H:%M:%S"@ ==> res is Some,
{
    let date = chrono::NaiveDate::from_ymd_opt(t.year, t.month, t.day)?;
    let time = date.and_hms_nano_opt(t.hour, t.minute, t.second, t.nanosecond)?;
    let mut text = String::new();
    match write!(text, "{}", time.and_utc().format(fmt)) {
        Ok(()) => Some(text),
        Err(_) => None,
    }
}

/// The build time chrono writes for `t`.
pub open spec fn build_time_text(t: UtcDateTime) -> Option<Seq<char>> {
    chrono_utc_format(t.year, t.month, t.day, t.hour, t.minute, t.second, t.nanosecond, "%b %d %Y %H:%M:%S"@)
}

/// Formats `t` as a build time: month abbreviation, day, year and time.
pub fn format_build_time(t: &UtcDateTime) -> (res: Option<String>)
    ensures
        match res {
            Some(s) => build_time_text(*t) == Some(s@),
            None => build_time_text(*t) is None,
        },
        is_valid_utc(*t) ==> res is Some,
        is_valid_utc(*t) && 0 <= t.year <= 9999 ==> (res matches Some(s) && s@ == stated_build_time_text(*t)),
{
    chrono_format(t, "%b %d %Y %H:%M:%S")
}

/// A reading of the system clock: whole seconds and nanoseconds since
/// 1970-01-01 00:00:00 UTC, or `None` when the clock reads before that.
pub open spec fn is_clock_reading(reading: Option<(u64, u32)>) -> bool {
    reading matches Some((_, n)) ==> n < 1_000_000_000
}

/// Reads the system clock.
pub fn read_clock() -> (reading: Option<(u64, u32)>)
    ensures
        is_clock_reading(reading),
{
    let now = system_time_now();
    since_unix_epoch(&now)
}

/// The build time for a clock reading: `None` when there is no reading or
/// chrono cannot represent it.
pub open spec fn build_time_of_reading(reading: Option<(u64, u32)>) -> Option<Seq<char>> {
    match reading {
        None => None,
        Some((secs, nanos)) => match chrono_utc_from_timestamp(secs as i64, nanos) {
            None => None,
            Some(f) => build_time_text(utc_of_fields(f)),
        },
    }
}

/// Formats a clock reading as a build time.
pub fn build_time_at(reading: Option<(u64, u32)>) -> (res: Option<String>)
    ensures
        match res {
            Some(s) => build_time_of_reading(reading) == Some(s@),
            None => build_time_of_reading(reading) is None,
        },
        res is None <==> (match reading {
            None => true,
            Some((secs, nanos)) => chrono_utc_from_timestamp(secs as i64, nanos) is None,
        }),
        reading matches Some((secs, nanos)) && secs < 8_000_000_000_000 && nanos < 1_000_000_000
            ==> res is Some,
        reading matches Some((secs, nanos)) && secs < 253_402_300_800 && nanos < 1_000_000_000
            ==> (res matches Some(s) && exists|t: UtcDateTime|
            is_valid_utc(t) && 1970 <= t.year <= 9999 && #[trigger] stated_build_time_text(t) == s@),
{
    match reading {
        None => None,
        Some((secs, nanos)) => {
            let t = match chrono_from_timestamp(secs as i64, nanos) {
                Some(t) => t,
                None => return None,
            };
            assert(utc_of_fields(utc_fields(t)) == t);
            let text = format_build_time(&t);
            assert(text is Some);
            text
        },
    }
}

} // verus!
