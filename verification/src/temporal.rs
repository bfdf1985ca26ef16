//! Calendar and clock arithmetic between SQL Server's temporal encodings
//! and the day/second/nanosecond counts that date-time libraries use.
//!
//! SQL Server counts `date`/`datetime2` days from 0001-01-01 (day 0) and
//! `datetime`/`smalldatetime` days from 1900-01-01; times of day are 100 ns
//! ticks (`time`, `datetime2`), 1/300-second ticks (`datetime`) or minutes
//! (`smalldatetime`). Date-time libraries count days from the common era,
//! where 0001-01-01 is day 1.

use vstd::prelude::*;

verus! {

/// Largest day number of SQL Server's `DATE` range (9999-12-31).
pub const MAX_SQL_DAY: u32 = 3_652_058;

/// Common-era day number of 1900-01-01.
pub const CE_DAYS_1900: i32 = 693_596;

/// 100 ns ticks per second.
pub const TICKS_PER_SECOND: u64 = 10_000_000;

/// Seconds and nanoseconds since midnight of a time of day given in 100 ns
/// ticks.
pub open spec fn clock_of_ticks(ticks: u64) -> (u32, u32) {
    let nanos = (ticks * 100) as int;
    ((nanos / 1_000_000_000) as u32, (nanos % 1_000_000_000) as u32)
}

/// Seconds and nanoseconds since midnight of a time of day in 100 ns ticks.
pub fn clock_from_ticks(ticks: u64) -> (r: (u32, u32))
    requires
        ticks * 100 <= u64::MAX,
    ensures
        r == clock_of_ticks(ticks),
{
    let total: u64 = ticks * 100;
    ((total / 1_000_000_000) as u32, (total % 1_000_000_000) as u32)
}

/// Seconds and nanoseconds since midnight of a `datetime` time of day in
/// 1/300-second ticks, through whole milliseconds (rounded down).
pub open spec fn clock_of_datetime_ticks(ticks_300: u32) -> (u32, u32) {
    let ms = (ticks_300 as int) * 10 / 3;
    ((ms / 1000) as u32, ((ms % 1000) * 1_000_000) as u32)
}

/// Seconds and nanoseconds since midnight of a `datetime` time of day.
pub fn clock_from_datetime_ticks(ticks_300: u32) -> (r: (u32, u32))
    ensures
        r == clock_of_datetime_ticks(ticks_300),
{
    let ms: u64 = (ticks_300 as u64) * 10 / 3;
    ((ms / 1000) as u32, ((ms % 1000) * 1_000_000) as u32)
}

/// Seconds since midnight of a `smalldatetime` time of day in minutes.
pub fn seconds_from_minutes(minutes: u16) -> (r: u32)
    ensures
        r == minutes * 60,
{
    (minutes as u32) * 60
}

/// 100 ns ticks of a time of day given as seconds since midnight and
/// nanoseconds (sub-tick nanoseconds are dropped).
pub open spec fn ticks_of_clock(seconds: u32, nanos: u32) -> u64 {
    (((seconds as int) * 1_000_000_000 + nanos as int) / 100) as u64
}

/// 100 ns ticks of a time of day given as seconds since midnight and
/// nanoseconds.
pub fn ticks_from_clock(seconds: u32, nanos: u32) -> (r: u64)
    ensures
        r == ticks_of_clock(seconds, nanos),
{
    assert((seconds as int) * 1_000_000_000 <= 4_294_967_295 * 1_000_000_000) by (nonlinear_arith)
        requires
            seconds <= 4_294_967_295;
    ((seconds as u64) * 1_000_000_000 + nanos as u64) / 100
}

/// 100 ns ticks of a time of day given by its fields (sub-tick nanoseconds
/// are dropped).
pub open spec fn ticks_of_hms(hour: u8, minute: u8, second: u8, nanos: u32) -> u64 {
    (((hour as int) * 3_600_000_000_000 + (minute as int) * 60_000_000_000 + (second as int)
        * 1_000_000_000 + nanos as int) / 100) as u64
}

/// 100 ns ticks of a time of day given by its hour, minute, second and
/// nanosecond.
pub fn ticks_from_hms(hour: u8, minute: u8, second: u8, nanos: u32) -> (r: u64)
    ensures
        r == ticks_of_hms(hour, minute, second, nanos),
{
    let total: u64 = (hour as u64) * 3_600_000_000_000 + (minute as u64) * 60_000_000_000
        + (second as u64) * 1_000_000_000 + nanos as u64;
    total / 100
}

/// The SQL day number (days since 0001-01-01) of a common-era day number,
/// when it lies in SQL Server's `DATE` range.
pub open spec fn sql_day_of_ce(days_from_ce: i32) -> Option<u32> {
    if 1 <= days_from_ce && days_from_ce - 1 <= MAX_SQL_DAY {
        Some((days_from_ce - 1) as u32)
    } else {
        None
    }
}

/// The SQL day number of a common-era day number; `None` outside
/// 0001-01-01..=9999-12-31.
pub fn sql_day_from_ce(days_from_ce: i32) -> (r: Option<u32>)
    ensures
        r == sql_day_of_ce(days_from_ce),
{
    if 1 <= days_from_ce && days_from_ce - 1 <= MAX_SQL_DAY as i32 {
        Some((days_from_ce - 1) as u32)
    } else {
        None
    }
}

/// The common-era day number of a SQL day number.
pub fn ce_day_from_sql(days: u32) -> (r: i32)
    requires
        days < 0x7fff_ffff,
    ensures
        r == days + 1,
{
    (days + 1) as i32
}

/// The common-era day number of a `datetime` day number (days since
/// 1900-01-01); `None` when it passes the `i32` range.
pub fn ce_day_from_1900(days: i32) -> (r: Option<i32>)
    ensures
        CE_DAYS_1900 + days <= i32::MAX ==> r == Some((CE_DAYS_1900 + days) as i32),
        CE_DAYS_1900 + days > i32::MAX ==> r is None,
{
    days.checked_add(CE_DAYS_1900)
}

/// Whole minutes of a UTC offset given in seconds, rounded toward zero.
pub open spec fn minutes_of_offset(seconds: int) -> int {
    if seconds >= 0 {
        seconds / 60
    } else {
        -((-seconds) / 60)
    }
}

/// The offset in whole minutes (rounded toward zero) of a UTC offset in
/// seconds, for offsets whose minutes fit an `i16`.
pub fn offset_minutes(seconds: i32) -> (r: i16)
    requires
        -1_966_020 <= seconds <= 1_966_020,
    ensures
        r == minutes_of_offset(seconds as int),
{
    if seconds >= 0 {
        (seconds / 60) as i16
    } else {
        let m: i32 = (-seconds) / 60;
        (-m) as i16
    }
}

/// Reading a time of day and writing it back gives the same ticks: for
/// every tick count of a day, the clock reading converts back exactly.
pub proof fn lemma_clock_round_trip(ticks: u64)
    requires
        ticks < 864_000_000_000,
    ensures
        ticks_of_clock(clock_of_ticks(ticks).0, clock_of_ticks(ticks).1) == ticks,
{
    let nanos = (ticks as int) * 100;
    assert(nanos < 86_400_000_000_000);
    let s = nanos / 1_000_000_000;
    let n = nanos % 1_000_000_000;
    assert(nanos == s * 1_000_000_000 + n) by (nonlinear_arith)
        requires
            s == nanos / 1_000_000_000,
            n == nanos % 1_000_000_000;
    assert(0 <= s < 86_400) by (nonlinear_arith)
        requires
            s == nanos / 1_000_000_000,
            0 <= nanos < 86_400_000_000_000;
    assert(0 <= n < 1_000_000_000);
    assert((s as u32) as int == s);
    assert((n as u32) as int == n);
    assert((s * 1_000_000_000 + n) / 100 == ticks as int) by (nonlinear_arith)
        requires
            s * 1_000_000_000 + n == (ticks as int) * 100;
}

/// Reading a SQL date as a common-era day and writing it back gives the
/// same day, for every day of SQL Server's `DATE` range.
pub proof fn lemma_day_round_trip(days: u32)
    requires
        days <= MAX_SQL_DAY,
    ensures
        sql_day_of_ce((days + 1) as i32) == Some(days),
{
}

} // verus!
