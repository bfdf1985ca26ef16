use mssql_tiberius_bridge::temporal::{
    ce_day_from_1900, ce_day_from_sql, clock_from_datetime_ticks, clock_from_ticks,
    offset_minutes, seconds_from_minutes, sql_day_from_ce, ticks_from_clock, ticks_from_hms,
    CE_DAYS_1900, MAX_SQL_DAY,
};

#[test]
fn clock_conversions() {
    assert_eq!(clock_from_ticks(0), (0, 0));
    assert_eq!(clock_from_ticks(1), (0, 100));
    assert_eq!(clock_from_ticks(863_999_999_999), (86_399, 999_999_900));
    assert_eq!(clock_from_datetime_ticks(300), (1, 0));
    assert_eq!(clock_from_datetime_ticks(1), (0, 3_000_000));
    assert_eq!(clock_from_datetime_ticks(25_919_999), (86_399, 996_000_000));
    assert_eq!(seconds_from_minutes(1439), 86_340);
}

#[test]
fn time_temporals_roundtrip_with_fractional_seconds() {
    for ticks in [0u64, 1, 12_345_678, 863_999_999_999] {
        let (s, n) = clock_from_ticks(ticks);
        assert_eq!(ticks_from_clock(s, n), ticks);
    }
    assert_eq!(ticks_from_hms(23, 59, 59, 999_999_999), 863_999_999_999);
    assert_eq!(ticks_from_hms(1, 2, 3, 456_789_123), 37_234_567_891);
    assert_eq!(ticks_from_clock(3_723, 456_789_123), 37_234_567_891);
}

#[test]
fn chrono_datetime_sql_date_boundaries_roundtrip() {
    assert_eq!(sql_day_from_ce(1), Some(0));
    assert_eq!(sql_day_from_ce(MAX_SQL_DAY as i32 + 1), Some(MAX_SQL_DAY));
    assert_eq!(sql_day_from_ce(0), None);
    assert_eq!(sql_day_from_ce(MAX_SQL_DAY as i32 + 2), None);
    for days in [0u32, 1, 693_595, MAX_SQL_DAY] {
        assert_eq!(sql_day_from_ce(ce_day_from_sql(days)), Some(days));
    }
    assert_eq!(ce_day_from_1900(0), Some(CE_DAYS_1900));
    assert_eq!(ce_day_from_1900(i32::MAX), None);
    assert_eq!(ce_day_from_1900(-53_690), Some(CE_DAYS_1900 - 53_690));
}

#[test]
fn offsets_round_toward_zero() {
    assert_eq!(offset_minutes(3_600), 60);
    assert_eq!(offset_minutes(-3_600), -60);
    assert_eq!(offset_minutes(-30), 0);
    assert_eq!(offset_minutes(-90), -1);
    assert_eq!(offset_minutes(50_399), 839);
}
