use mssql_tiberius_bridge::bulk_arrow::{
    arrow_cell_to_bulk_value, bulk_cell_value, format_decimal128, null_marker, ArrowCell, ArrowTimeUnit, CellError,
    ArrowType, BulkValue, ARROW_EPOCH_OFFSET_DAYS, MAX_SQL_DATE_DAYS,
};
use mssql_tiberius_bridge::error::Error;

fn usage_message(e: Error) -> String {
    match e {
        Error::Tds(mssql_tds::error::Error::UsageError(m)) => m,
        other => panic!("expected UsageError, got {other:?}"),
    }
}

#[test]
fn format_decimal128_matches_expected() {
    assert_eq!(format_decimal128(12_345, 2), "123.45");
    assert_eq!(format_decimal128(-12_345, 2), "-123.45");
    assert_eq!(format_decimal128(5, 3), "0.005");
    assert_eq!(format_decimal128(123, 0), "123");
    assert_eq!(format_decimal128(-7, 0), "-7");
    // Negative-scale (rare; integer with trailing zeros)
    assert_eq!(format_decimal128(1, -2), "100");
    // Magnitude exactly equals scale length: e.g. 5 with scale 1 -> "0.5"
    assert_eq!(format_decimal128(5, 1), "0.5");
}

#[test]
fn format_decimal128_extremes() {
    assert_eq!(format_decimal128(0, 2), "0.00");
    assert_eq!(format_decimal128(-5, 3), "-0.005");
    assert_eq!(format_decimal128(12, 2), "0.12");
    assert_eq!(
        format_decimal128(i128::MIN, 0),
        "-170141183460469231731687303715884105728"
    );
    assert_eq!(format_decimal128(0, -3), "0000");
}

#[test]
fn convert_bool() {
    match arrow_cell_to_bulk_value(ArrowCell::Boolean(true)).unwrap() {
        BulkValue::Bit(b) => assert!(b),
        v => panic!("expected Bit, got {v:?}"),
    }
}

#[test]
fn convert_ints() {
    assert!(matches!(
        arrow_cell_to_bulk_value(ArrowCell::Int8(-3)).unwrap(),
        BulkValue::SmallInt(-3)
    ));
    assert!(matches!(
        arrow_cell_to_bulk_value(ArrowCell::Int16(-300)).unwrap(),
        BulkValue::SmallInt(-300)
    ));
    assert!(matches!(
        arrow_cell_to_bulk_value(ArrowCell::Int32(70_000)).unwrap(),
        BulkValue::Int(70_000)
    ));
    assert!(matches!(
        arrow_cell_to_bulk_value(ArrowCell::Int64(5_000_000_000)).unwrap(),
        BulkValue::BigInt(5_000_000_000)
    ));
    assert!(matches!(
        arrow_cell_to_bulk_value(ArrowCell::UInt8(255)).unwrap(),
        BulkValue::TinyInt(255)
    ));
}

#[test]
fn convert_uint16_uint32() {
    assert!(matches!(
        arrow_cell_to_bulk_value(ArrowCell::UInt16(60_000)).unwrap(),
        BulkValue::Int(60_000)
    ));
    assert!(matches!(
        arrow_cell_to_bulk_value(ArrowCell::UInt32(4_000_000_000)).unwrap(),
        BulkValue::BigInt(4_000_000_000)
    ));
}

#[test]
fn convert_string() {
    match arrow_cell_to_bulk_value(ArrowCell::Utf8("hello".to_string())).unwrap() {
        BulkValue::String(s) => assert_eq!(s, "hello"),
        v => panic!("expected String, got {v:?}"),
    }
}

#[test]
fn convert_large_utf8() {
    match arrow_cell_to_bulk_value(ArrowCell::Utf8("world".to_string())).unwrap() {
        BulkValue::String(s) => assert_eq!(s, "world"),
        v => panic!("expected String, got {v:?}"),
    }
}

#[test]
fn convert_binary_variants() {
    for bytes in [b"hi".to_vec(), b"there".to_vec(), vec![1u8, 2, 3, 4]] {
        match arrow_cell_to_bulk_value(ArrowCell::Binary(bytes.clone())).unwrap() {
            BulkValue::Bytes(b) => assert_eq!(b, bytes),
            v => panic!("expected Bytes, got {v:?}"),
        }
    }
}

#[test]
fn convert_date32_at_unix_epoch_is_tds_epoch_offset() {
    match arrow_cell_to_bulk_value(ArrowCell::Date32(0)).unwrap() {
        BulkValue::Date(d) => assert_eq!(d.days(), ARROW_EPOCH_OFFSET_DAYS as u32),
        v => panic!("expected Date, got {v:?}"),
    }
}

#[test]
fn convert_date32_pre_tds_epoch_errors() {
    let err = arrow_cell_to_bulk_value(ArrowCell::Date32(-1_000_000)).unwrap_err();
    let m = usage_message(err);
    assert!(m.contains("predates"), "{m}");
    assert_eq!(
        m,
        "Date32 value -1000000 predates SQL Server DATE epoch (0001-01-01)"
    );
}

#[test]
fn convert_date32_range_edges() {
    let first = -ARROW_EPOCH_OFFSET_DAYS;
    assert!(matches!(
        arrow_cell_to_bulk_value(ArrowCell::Date32(first)).unwrap(),
        BulkValue::Date(d) if d.days() == 0
    ));
    assert!(arrow_cell_to_bulk_value(ArrowCell::Date32(first - 1)).is_err());
    let last = MAX_SQL_DATE_DAYS as i32 - ARROW_EPOCH_OFFSET_DAYS;
    assert!(matches!(
        arrow_cell_to_bulk_value(ArrowCell::Date32(last)).unwrap(),
        BulkValue::Date(d) if d.days() == MAX_SQL_DATE_DAYS
    ));
    assert!(matches!(
        arrow_cell_to_bulk_value(ArrowCell::Date32(last + 1)),
        Err(Error::Tds(_))
    ));
    assert!(matches!(
        arrow_cell_to_bulk_value(ArrowCell::Date32(i32::MAX)),
        Err(Error::Tds(_))
    ));
}

#[test]
fn convert_timestamp_us_at_unix_epoch() {
    match arrow_cell_to_bulk_value(ArrowCell::Timestamp(ArrowTimeUnit::Microsecond, 0)).unwrap() {
        BulkValue::DateTime2 { days, nanos } => {
            assert_eq!(days, ARROW_EPOCH_OFFSET_DAYS as u32);
            assert_eq!(nanos, 0);
        }
        v => panic!("expected DateTime2, got {v:?}"),
    }
}

#[test]
fn convert_timestamp_all_units() {
    for (unit, value, label) in [
        (ArrowTimeUnit::Second, 1_i64, "s"),
        (ArrowTimeUnit::Millisecond, 1_000, "ms"),
        (ArrowTimeUnit::Microsecond, 1_000_000, "us"),
        (ArrowTimeUnit::Nanosecond, 1_000_000_000, "ns"),
    ] {
        match arrow_cell_to_bulk_value(ArrowCell::Timestamp(unit, value)).unwrap() {
            BulkValue::DateTime2 { days, nanos } => {
                assert_eq!(days, ARROW_EPOCH_OFFSET_DAYS as u32, "wrong days for unit {label}");
                assert_eq!(nanos, 1_000_000_000, "wrong nanos for unit {label}");
            }
            v => panic!("expected DateTime2 for unit {label}, got {v:?}"),
        }
    }
}

#[test]
fn convert_timestamp_before_epoch_uses_floor_division() {
    match arrow_cell_to_bulk_value(ArrowCell::Timestamp(ArrowTimeUnit::Second, -1)).unwrap() {
        BulkValue::DateTime2 { days, nanos } => {
            assert_eq!(days, ARROW_EPOCH_OFFSET_DAYS as u32 - 1);
            assert_eq!(nanos, 86_399_000_000_000);
        }
        v => panic!("expected DateTime2, got {v:?}"),
    }
    // Saturation keeps every timestamp after 0001-01-01: i64::MIN ns is in 1677.
    match arrow_cell_to_bulk_value(ArrowCell::Timestamp(ArrowTimeUnit::Second, i64::MIN)).unwrap() {
        BulkValue::DateTime2 { days, nanos } => {
            assert_eq!(days, 612_410);
            assert_eq!(nanos, 763_145_224_192);
        }
        v => panic!("expected DateTime2, got {v:?}"),
    }
}

#[test]
fn convert_time64_microsecond_and_nanosecond() {
    match arrow_cell_to_bulk_value(ArrowCell::Time64(ArrowTimeUnit::Microsecond, 123_456)).unwrap() {
        BulkValue::Time(t) => assert_eq!(t, 123_456_000),
        v => panic!("expected Time, got {v:?}"),
    }
    match arrow_cell_to_bulk_value(ArrowCell::Time64(ArrowTimeUnit::Nanosecond, 123_456_789)).unwrap()
    {
        BulkValue::Time(t) => assert_eq!(t, 123_456_789),
        v => panic!("expected Time, got {v:?}"),
    }
    let err = arrow_cell_to_bulk_value(ArrowCell::Time64(ArrowTimeUnit::Second, 1)).unwrap_err();
    assert_eq!(usage_message(err), "Time64 unsupported time unit Second");
}

#[test]
fn convert_decimal128_positive_and_negative() {
    match arrow_cell_to_bulk_value(ArrowCell::Decimal128 { value: 12_345, precision: 10, scale: 2 })
        .unwrap()
    {
        BulkValue::Decimal { text, value } => {
            assert_eq!(text, "123.45");
            assert_eq!((value.precision(), value.scale()), (10, 2));
            assert!(value.is_positive());
            assert_eq!(value.magnitude(), 12_345);
        }
        v => panic!("expected Decimal, got {v:?}"),
    }
    match arrow_cell_to_bulk_value(ArrowCell::Decimal128 { value: -12_345, precision: 10, scale: 2 })
        .unwrap()
    {
        BulkValue::Decimal { text, value } => {
            assert_eq!(text, "-123.45");
            assert!(!value.is_positive());
            assert_eq!(value.magnitude(), 12_345);
        }
        v => panic!("expected Decimal, got {v:?}"),
    }
}

#[test]
fn convert_decimal128_smaller_than_scale_pads_zeros() {
    match arrow_cell_to_bulk_value(ArrowCell::Decimal128 { value: 5, precision: 10, scale: 3 })
        .unwrap()
    {
        BulkValue::Decimal { text, .. } => assert_eq!(text, "0.005"),
        v => panic!("expected Decimal, got {v:?}"),
    }
}

#[test]
fn convert_decimal128_beyond_precision_is_rejected_by_the_driver() {
    let r = arrow_cell_to_bulk_value(ArrowCell::Decimal128 {
        value: 123_456,
        precision: 3,
        scale: 0,
    });
    assert!(matches!(r, Err(Error::Tds(_))));
}

#[test]
fn null_value_returns_typed_null_marker() {
    let v = arrow_cell_to_bulk_value(ArrowCell::Null(ArrowType::Utf8)).unwrap();
    assert!(matches!(v, BulkValue::String(s) if s.is_empty()));
}

#[test]
fn null_for_arrow_type_covers_each_branch() {
    for ty in [
        ArrowType::Boolean,
        ArrowType::Int8,
        ArrowType::Int16,
        ArrowType::Int32,
        ArrowType::Int64,
        ArrowType::UInt8,
        ArrowType::UInt16,
        ArrowType::UInt32,
        ArrowType::Float32,
        ArrowType::Float64,
        ArrowType::Utf8,
        ArrowType::LargeUtf8,
        ArrowType::LargeBinary,
        ArrowType::Other,
    ] {
        arrow_cell_to_bulk_value(ArrowCell::Null(ty)).expect("null conversion errored");
    }
    assert!(matches!(null_marker(ArrowType::Boolean), BulkValue::Bit(false)));
    assert!(matches!(null_marker(ArrowType::Int8), BulkValue::SmallInt(0)));
    assert!(matches!(null_marker(ArrowType::UInt16), BulkValue::Int(0)));
    assert!(matches!(null_marker(ArrowType::UInt32), BulkValue::BigInt(0)));
    assert!(matches!(null_marker(ArrowType::UInt8), BulkValue::TinyInt(0)));
    assert!(matches!(null_marker(ArrowType::Float32), BulkValue::RealZero));
    assert!(matches!(null_marker(ArrowType::Float64), BulkValue::FloatZero));
    assert!(matches!(null_marker(ArrowType::FixedSizeBinary), BulkValue::Bytes(b) if b.is_empty()));
}

#[test]
fn unsupported_type_returns_usage_error() {
    let err = arrow_cell_to_bulk_value(ArrowCell::Unsupported("Date64".to_string())).unwrap_err();
    let m = usage_message(err);
    assert!(m.contains("unsupported"), "msg was: {m}");
    assert_eq!(m, "unsupported Arrow data type Date64 for bulk_insert::send_arrow");
}

#[test]
fn date32_values_survive_a_bulk_round_trip() {
    for d in [-ARROW_EPOCH_OFFSET_DAYS, -1, 0, 19_000, (MAX_SQL_DATE_DAYS as i32) - ARROW_EPOCH_OFFSET_DAYS] {
        let days = match arrow_cell_to_bulk_value(ArrowCell::Date32(d)).unwrap() {
            BulkValue::Date(d) => d.days(),
            other => panic!("expected a date, got {other:?}"),
        };
        assert_eq!(mssql_tiberius_bridge::arrow::date32(days).unwrap(), d);
    }
}

#[test]
fn rejected_cells_carry_their_usage_messages() {
    let message = |cell| match bulk_cell_value(cell) {
        Err(CellError::Usage(m)) => m,
        other => panic!("expected a usage message, got {other:?}"),
    };
    assert_eq!(
        message(ArrowCell::Date32(-ARROW_EPOCH_OFFSET_DAYS - 1)),
        "Date32 value -719163 predates SQL Server DATE epoch (0001-01-01)"
    );
    assert_eq!(message(ArrowCell::Date32(i32::MAX)), "Date32 overflow translating to TDS DATE");
    assert_eq!(
        message(ArrowCell::Time64(ArrowTimeUnit::Second, 1)),
        "Time64 unsupported time unit Second"
    );
    assert_eq!(
        message(ArrowCell::Unsupported("Date64".to_string())),
        "unsupported Arrow data type Date64 for bulk_insert::send_arrow"
    );
    assert!(matches!(
        bulk_cell_value(ArrowCell::Date32(MAX_SQL_DATE_DAYS as i32)),
        Err(CellError::Driver(_))
    ));
}
