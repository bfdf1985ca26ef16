use mssql_tiberius_bridge::arrow::{
    checked_add, column_schema, date32, datetime2_parts, datetime_parts, datetimeoffset_parts,
    decimal_value, money_value, smalldatetime_parts, time_ns, uuid_text_capacity,
    vector_dimensions, ArrowDataType, ArrowOptions, ArrowRowWriter, ChildType, Kind, TextEncoding,
    DEFAULT_BYTES, DEFAULT_ROWS, MAX_SQL_DAYS, TICKS_PER_DAY, VECTOR_HEADER_SIZE,
};
use mssql_tds::datatypes::sql_string::{EncodingType, SqlString};
use mssql_tds::token::tokens::SqlCollation;
use mssql_tiberius_bridge::column::{Collation, ColumnMetadata, TdsDataType};
use mssql_tiberius_bridge::error::Error;

fn meta(data_type: TdsDataType, length: usize) -> ColumnMetadata {
    ColumnMetadata {
        column_name: "c".to_string(),
        data_type,
        descriptor_type: data_type,
        length,
        flags: 0x0001,
        user_type: 0,
        is_plp: false,
        precision: None,
        scale: None,
        collation: None,
        multi_part_name: None,
        udt_info: None,
    }
}

fn int4() -> ColumnMetadata {
    meta(TdsDataType::Int4, 4)
}

fn text_meta() -> ColumnMetadata {
    let mut m = meta(TdsDataType::NVarChar, 65_535);
    m.is_plp = true;
    m
}

fn scaled(data_type: TdsDataType, scale: u8) -> ColumnMetadata {
    let time_length = match scale {
        0..=2 => 3,
        3..=4 => 4,
        _ => 5,
    };
    let length = time_length
        + match data_type {
            TdsDataType::DateTime2N => 3,
            TdsDataType::DateTimeOffsetN => 5,
            _ => 0,
        };
    let mut m = meta(data_type, length);
    m.scale = Some(scale);
    m
}

fn decimal_meta(precision: u8, scale: u8, numeric: bool) -> ColumnMetadata {
    let data_type = if numeric { TdsDataType::NumericN } else { TdsDataType::DecimalN };
    let length = match precision {
        1..=9 => 5,
        10..=19 => 9,
        20..=28 => 13,
        _ => 17,
    };
    let mut m = meta(data_type, length);
    m.precision = Some(precision);
    m.scale = Some(scale);
    m
}

fn vector_meta(dimensions: usize, base_type: u8) -> ColumnMetadata {
    let size = if base_type == 1 { 2 } else { 4 };
    let mut m = meta(TdsDataType::Vector, VECTOR_HEADER_SIZE + dimensions * size);
    m.scale = Some(base_type);
    m
}

fn writer(metadata: &[ColumnMetadata]) -> ArrowRowWriter {
    ArrowRowWriter::new(metadata, ArrowOptions::default()).unwrap().0
}

/// Writes one value the way the batch builder does: check, then record.
fn write(w: &mut ArrowRowWriter, col: usize, kind: Kind, payload: usize) {
    if w.is_failed() {
        return;
    }
    match w.begin_value(col, kind, payload) {
        Ok(row) => w.commit_value(row),
        Err(e) => w.fail(e),
    }
}

fn write_null(w: &mut ArrowRowWriter, col: usize) {
    if w.is_failed() {
        return;
    }
    match w.null_slot(col) {
        Ok((kind, payload)) => write(w, col, kind, payload),
        Err(e) => w.fail(e),
    }
}

/// Writes one text value the way the batch builder does.
fn text(w: &mut ArrowRowWriter, col: usize, bytes: &[u8], encoding: TextEncoding) -> Option<String> {
    let (value, row) = w.text_value(col, bytes, encoding, Kind::Text)?;
    w.commit_value(row);
    Some(value)
}

fn utf16(text: &str) -> Vec<u8> {
    text.encode_utf16().flat_map(u16::to_le_bytes).collect()
}

fn assert_error(w: &mut ArrowRowWriter, contains: &str) {
    let error = w.check_error().unwrap_err().to_string();
    assert!(error.contains(contains), "{error:?} does not contain {contains:?}");
    assert!(w.begin_batch().is_err());
}

#[test]
fn options_defaults_validation_and_bounded_initial_allocations() {
    let defaults = ArrowOptions::default();
    assert_eq!(defaults.batch_size, 8192);
    assert_eq!(defaults.batch_bytes, 8 * 1024 * 1024);
    assert_eq!(defaults.max_row_bytes, None);
    assert_eq!(defaults.max_value_bytes, None);
    defaults.validate().unwrap();
    for field in 0..4 {
        for invalid in [0, usize::MAX] {
            let mut options = defaults;
            match field {
                0 => options.batch_size = invalid,
                1 => options.batch_bytes = invalid,
                2 => options.max_row_bytes = Some(invalid),
                _ => options.max_value_bytes = Some(invalid),
            }
            assert!(options.validate().is_err());
        }
    }
    let huge = ArrowOptions {
        batch_size: isize::MAX as usize,
        batch_bytes: isize::MAX as usize,
        max_row_bytes: Some(isize::MAX as usize),
        max_value_bytes: Some(isize::MAX as usize),
    };
    huge.validate().unwrap();
    assert_eq!(
        ArrowRowWriter::new(&[int4()], huge).unwrap().0.initial_rows(),
        8192
    );
    let wide = vec![vector_meta(1998, 0); 100];
    let w = ArrowRowWriter::new(&wide, huge).unwrap().0;
    assert!(w.initial_rows() < 16);
    assert!(w.initial_rows() * 100 * (1998 * 5 + 1) <= DEFAULT_BYTES);
    let tiny = ArrowOptions { batch_bytes: 1, ..defaults };
    let mut w = ArrowRowWriter::new(&[text_meta()], tiny).unwrap().0;
    assert_eq!(w.initial_rows(), 0);
    write(&mut w, 0, Kind::Text, b"allowed".len());
    w.end_row();
    w.check_error().unwrap();
    assert!(w.should_flush());
    w.begin_batch().unwrap();
    assert_eq!(w.row_count(), 1);
}

#[test]
fn option_messages_name_the_option() {
    let o = ArrowOptions { batch_size: 0, ..ArrowOptions::default() };
    assert_eq!(
        o.validate().unwrap_err().to_string(),
        "Conversion error: Arrow batch_size must be greater than zero"
    );
    let o = ArrowOptions { max_value_bytes: Some(usize::MAX), ..ArrowOptions::default() };
    assert_eq!(
        o.validate().unwrap_err().to_string(),
        "Conversion error: Arrow max_value_bytes exceeds the addressable Arrow buffer size"
    );
    assert_eq!(DEFAULT_ROWS, 8192);
}

#[test]
fn decimal_magnitude_precision_scale_and_callback_mismatches_rejected() {
    for (positive, precision, scale, magnitude) in [
        (true, 38u8, 0u8, 10u128.pow(38)),
        (false, 38, 0, u128::MAX),
        (true, 38, 39, 1),
        (true, 255, 0, 1),
        (true, 0, 0, 1),
    ] {
        assert!(decimal_value(positive, magnitude, precision, scale).is_err());
    }
    assert_eq!(decimal_value(true, 10u128.pow(38) - 1, 38, 0).unwrap(), 10i128.pow(38) - 1);
    assert_eq!(decimal_value(false, 12345, 10, 2).unwrap(), -12345);
    let mut w = writer(&[decimal_meta(38, 0, true)]);
    write(&mut w, 0, Kind::Decimal { precision: 38, scale: 0, numeric: false }, 16);
    assert_error(&mut w, "callback type");
}

#[test]
fn invalid_temporal_values_never_publish_partial_rows() {
    for (scale, ticks) in [(7u8, TICKS_PER_DAY), (8, 0), (0, 1)] {
        assert!(time_ns(ticks, scale).is_err());
    }
    assert_eq!(time_ns(1_000_000, 2).unwrap(), 100_000_000);
    for (days, time) in [(-53_691, 0u32), (2_958_464, 0), (0, 25_920_000), (i32::MAX, u32::MAX)] {
        let e = datetime_parts(days, time).unwrap_err().to_string();
        assert!(e.contains("outside"), "{e}");
    }
    assert_eq!(datetime_parts(0, 300).unwrap(), (-25_567, 300, 0));
    let e = smalldatetime_parts(0, 1440).unwrap_err().to_string();
    assert!(e.contains("minutes"), "{e}");
    assert_eq!(smalldatetime_parts(1, 2).unwrap(), (1 - 25_567, 120_000_000_000, 0));
    let e = datetime2_parts(MAX_SQL_DAYS + 1, 0, 7).unwrap_err().to_string();
    assert!(e.contains("outside"), "{e}");
    for (days, time, offset) in [
        (0u32, 0u64, -841i16),
        (0, 0, 841),
        (0, 0, -1),
        (MAX_SQL_DAYS, TICKS_PER_DAY - 1, 1),
    ] {
        assert!(datetimeoffset_parts(days, time, 7, offset).is_err());
    }
    assert_eq!(
        datetimeoffset_parts(719_162, 10, 7, 60).unwrap(),
        (0, 1_000, 60)
    );
}

#[test]
fn dates_move_to_the_unix_epoch() {
    assert_eq!(date32(719_162).unwrap(), 0);
    assert_eq!(date32(0).unwrap(), -719_162);
    assert_eq!(date32(MAX_SQL_DAYS).unwrap(), 2_932_896);
    assert!(date32(MAX_SQL_DAYS + 1).is_err());
}

#[test]
fn unknown_encrypted_variant_invalid_width_and_scale_schemas_fail() {
    for tds_type in [TdsDataType::NoType, TdsDataType::SqlTable, TdsDataType::SsVariant] {
        let m = meta(tds_type, 4);
        let error = match ArrowRowWriter::new(&[m], ArrowOptions::default()) {
            Err(e) => e,
            Ok(_) => panic!("schema should fail"),
        };
        assert!(error.to_string().contains("CAST"));
    }
    let mut m = int4();
    m.flags |= 0x800;
    assert!(column_schema(&m).unwrap_err().to_string().contains("encrypted"));
    for tds_type in [TdsDataType::IntN, TdsDataType::FltN, TdsDataType::MoneyN, TdsDataType::DateTimeN] {
        for width in [0, 3, 16, usize::MAX] {
            assert!(column_schema(&meta(tds_type, width)).is_err());
        }
    }
    assert!(column_schema(&meta(TdsDataType::BitN, 2)).is_err());
    assert!(column_schema(&meta(TdsDataType::Guid, 15)).is_err());
    for (precision, scale) in [(0, 0), (39, 0), (3, 4)] {
        assert!(column_schema(&decimal_meta(precision, scale, false)).is_err());
    }
    for tds_type in [TdsDataType::TimeN, TdsDataType::DateTime2N, TdsDataType::DateTimeOffsetN] {
        assert!(column_schema(&scaled(tds_type, 8)).is_err());
        let mut m = scaled(tds_type, 7);
        m.length = 0;
        assert!(column_schema(&m).is_err());
    }
    for (dimensions, base) in [(0, 0), (1999, 0), (3, 1), (3, 255)] {
        assert!(column_schema(&vector_meta(dimensions, base)).is_err());
    }
    let mut m = vector_meta(3, 0);
    m.length -= 1;
    assert!(column_schema(&m).is_err());
    let mut m = int4();
    m.descriptor_type = TdsDataType::Flt4;
    assert!(column_schema(&m).is_err());
}

#[test]
fn schema_errors_quote_the_column_name() {
    let mut m = meta(TdsDataType::SsVariant, 4);
    m.column_name = "v\"x".to_string();
    assert_eq!(
        column_schema(&m).unwrap_err().to_string(),
        "Conversion error: Arrow column \"v\\\"x\" (SsVariant): sql_variant is unsupported; CAST to a concrete supported SQL type"
    );
}

#[test]
fn callback_mismatch_order_count_and_first_error_remain_safe() {
    let mut w = writer(&[int4()]);
    write(&mut w, 0, Kind::I64, 8);
    write(&mut w, 999, Kind::I32, 4);
    w.end_row();
    assert_error(&mut w, "callback type");
    w.check_error().unwrap();
    write(&mut w, 0, Kind::I32, 4);
    w.end_row();
    assert_eq!(w.row_count(), 0);
    assert!(w.begin_batch().is_err());
    for col in [1, usize::MAX] {
        let mut w = writer(&[int4()]);
        write(&mut w, col, Kind::I32, 4);
        assert_error(&mut w, "callback column");
    }
    let mut w = writer(&[int4(), int4()]);
    write(&mut w, 0, Kind::I32, 4);
    write(&mut w, 0, Kind::I32, 4);
    assert_error(&mut w, "expected 1");
    let mut w = writer(&[int4()]);
    w.end_row();
    assert_error(&mut w, "row has 0 columns");
    let mut w = writer(&[int4()]);
    write(&mut w, 0, Kind::I32, 4);
    assert!(w.begin_batch().unwrap_err().to_string().contains("unfinished"));
    w.end_row();
    assert!(w.begin_batch().is_err());
    let mut nonnullable = int4();
    nonnullable.flags = 0;
    let mut w = writer(&[nonnullable]);
    write_null(&mut w, 0);
    assert_error(&mut w, "non-nullable");
}

#[test]
fn first_error_is_kept() {
    let mut w = writer(&[int4()]);
    w.fail(Error::Conversion("first".into()));
    w.fail(Error::Conversion("second".into()));
    assert!(w.is_failed());
    assert_eq!(w.check_error().unwrap_err().to_string(), "Conversion error: first");
    w.check_error().unwrap();
    assert!(w.is_failed());
}

#[test]
fn nullable_money_fixed_scalars_and_explicit_null_schema_mapping() {
    for (m, kind) in [
        (meta(TdsDataType::MoneyN, 4), Kind::SmallMoney),
        (meta(TdsDataType::MoneyN, 8), Kind::Money),
        (meta(TdsDataType::BitN, 1), Kind::Bool),
        (meta(TdsDataType::Int1, 1), Kind::U8),
        (meta(TdsDataType::Int2, 2), Kind::I16),
        (meta(TdsDataType::Int4, 4), Kind::I32),
        (meta(TdsDataType::Int8, 8), Kind::I64),
        (meta(TdsDataType::Flt4, 4), Kind::F32),
        (meta(TdsDataType::Flt8, 8), Kind::F64),
    ] {
        assert_eq!(column_schema(&m).unwrap().0, kind);
    }
    let mut m = meta(TdsDataType::Void, 0);
    m.flags = 0;
    let (mut w, fields) = ArrowRowWriter::new(&[m], ArrowOptions::default()).unwrap();
    assert_eq!(fields[0].data_type, ArrowDataType::Null);
    write_null(&mut w, 0);
    w.end_row();
    w.check_error().unwrap();
    w.begin_batch().unwrap();
    assert_eq!(w.row_count(), 1);
}

#[test]
fn hard_row_limit_accounts_for_offsets_null_slots_and_all_columns() {
    let options = ArrowOptions { max_row_bytes: Some(17), ..ArrowOptions::default() };
    let metadata = [int4(), text_meta()];
    let mut w = ArrowRowWriter::new(&metadata, options).unwrap().0;
    write(&mut w, 0, Kind::I32, 4);
    write(&mut w, 1, Kind::Text, 3);
    w.end_row();
    assert_eq!(w.last_row_bytes(), 17);
    w.check_error().unwrap();
    write_null(&mut w, 0);
    text(&mut w, 1, b"abcd", TextEncoding::Utf8);
    assert_error(&mut w, "max_row_bytes");
    let options = ArrowOptions { max_row_bytes: Some(11), ..ArrowOptions::default() };
    let mut w = ArrowRowWriter::new(&[text_meta()], options).unwrap().0;
    assert_eq!(text(&mut w, 0, &[0, 0xd8], TextEncoding::Utf16), None);
    assert_error(&mut w, "max_row_bytes");
}

#[test]
fn string_borrowed_owned_bom_replacement_and_codepage_parity() {
    let collation = Collation { info: 0x0409, lcid_language_id: 0x0409, col_flags: 0, sort_id: 0 };
    let unknown =
        Collation { info: 0x0f_ffff, lcid_language_id: 0x0f_ffff, col_flags: 0, sort_id: 0 };
    let native = |c: Collation| {
        EncodingType::LcidBased(SqlCollation {
            info: c.info,
            lcid_language_id: c.lcid_language_id,
            col_flags: c.col_flags,
            sort_id: c.sort_id,
        })
    };
    let cases = [
        (TextEncoding::Utf8, EncodingType::Utf8, b"\xef\xbb\xbfhello".to_vec()),
        (TextEncoding::Utf16, EncodingType::Utf16, utf16("caf\u{e9} \u{4e2d} \u{1f600}")),
        (TextEncoding::Utf16, EncodingType::Utf16, vec![0xff, 0xfe, b'a', 0]),
        (TextEncoding::Utf16, EncodingType::Utf16, vec![0xfe, 0xff, 0, b'a']),
        (TextEncoding::Utf16, EncodingType::Utf16, vec![0x00, 0xd8, b'b', 0]),
        (TextEncoding::Utf16, EncodingType::Utf16, vec![0x61]),
        (TextEncoding::Utf16, EncodingType::Utf16, Vec::new()),
        (TextEncoding::Collation(collation), native(collation), vec![0x80, 0xe9]),
        (TextEncoding::Collation(unknown), native(unknown), vec![0x80, 0xe9]),
    ];
    for (encoding, native_encoding, payload) in cases {
        let expected = SqlString::decode(&payload, native_encoding);
        let mut w = writer(&[text_meta()]);
        assert_eq!(text(&mut w, 0, &payload, encoding).unwrap(), expected);
        w.end_row();
        assert_eq!(text(&mut w, 0, &payload.clone(), encoding).unwrap(), expected);
        w.end_row();
        w.check_error().unwrap();
        assert_eq!(w.row_count(), 2);
    }
}

#[test]
fn invalid_utf8_and_unresolved_encodings_are_sticky_errors_not_panics() {
    for payload in [vec![0xff], vec![0xff]] {
        let mut w = writer(&[text_meta()]);
        assert_eq!(text(&mut w, 0, &payload, TextEncoding::Utf8), None);
        w.end_row();
        assert_eq!(w.row_count(), 0);
        assert_error(&mut w, "Invalid UTF-8");
        assert_eq!(w.row_count(), 0);
    }
    let mut w = writer(&[text_meta()]);
    assert_eq!(text(&mut w, 0, b"", TextEncoding::Unresolved), None);
    assert_error(&mut w, "Unresolved");
}

#[test]
fn invalid_utf8_message_names_the_column_and_the_error() {
    let mut w = writer(&[text_meta()]);
    assert_eq!(text(&mut w, 0, &[b'a', 0xff], TextEncoding::Utf8), None);
    assert_eq!(
        w.check_error().unwrap_err().to_string(),
        "Conversion error: Invalid UTF-8 in Arrow column 0: invalid utf-8 sequence of 1 bytes from index 1"
    );
}

#[test]
fn hard_value_limits_check_raw_and_expanded_output_before_heap_copy() {
    let limited = |value| ArrowOptions { max_value_bytes: Some(value), ..ArrowOptions::default() };
    let mut w = ArrowRowWriter::new(&[text_meta()], limited(3)).unwrap().0;
    assert_eq!(text(&mut w, 0, &[b'a', 0, b'b', 0], TextEncoding::Utf16), None);
    assert_error(&mut w, "max_value_bytes");
    let mut w = ArrowRowWriter::new(&[text_meta()], limited(2)).unwrap().0;
    assert_eq!(text(&mut w, 0, &[0, 0xd8], TextEncoding::Utf16), None);
    assert_error(&mut w, "max_value_bytes");
    let mut w = ArrowRowWriter::new(&[meta(TdsDataType::BigVarBinary, 1024)], limited(3)).unwrap().0;
    write(&mut w, 0, Kind::Binary, 4);
    assert_error(&mut w, "max_value_bytes");
    let mut w = ArrowRowWriter::new(&[text_meta()], limited(3)).unwrap().0;
    assert_eq!(text(&mut w, 0, b"abc", TextEncoding::Utf8).unwrap(), "abc");
    w.end_row();
    assert_eq!(w.last_row_bytes(), 12);
    w.check_error().unwrap();
    assert_eq!(w.row_count(), 1);
    w.begin_batch().unwrap();
    let w = ArrowRowWriter::new(&[vector_meta(3, 0)], limited(19)).unwrap().0;
    assert!(vector_dimensions(&w, 3).unwrap_err().to_string().contains("max_value_bytes"));
    let mut w = ArrowRowWriter::new(&[decimal_meta(38, 0, false)], limited(16)).unwrap().0;
    write(&mut w, 0, Kind::Decimal { precision: 38, scale: 0, numeric: false }, 16);
    assert_eq!(decimal_value(true, 1, 38, 0).unwrap(), 1);
    w.end_row();
    w.check_error().unwrap();
    assert_eq!(w.row_count(), 1);
}

#[test]
fn limited_transcoding_handles_multiple_chunks_without_rejecting_valid_text() {
    let expected = "a".repeat(10_000);
    let bytes = utf16(&expected);
    for max_row_bytes in [Some(expected.len() + 9), None] {
        let options = ArrowOptions {
            max_row_bytes,
            max_value_bytes: Some(bytes.len()),
            ..ArrowOptions::default()
        };
        let mut w = ArrowRowWriter::new(&[text_meta()], options).unwrap().0;
        assert_eq!(text(&mut w, 0, &bytes, TextEncoding::Utf16).unwrap(), expected);
        w.end_row();
        w.check_error().unwrap();
        assert_eq!(w.row_count(), 1);
    }
    let options = ArrowOptions { max_row_bytes: Some(expected.len() + 8), ..ArrowOptions::default() };
    let mut w = ArrowRowWriter::new(&[text_meta()], options).unwrap().0;
    assert_eq!(text(&mut w, 0, &bytes, TextEncoding::Utf16), None);
    assert_error(&mut w, "max_row_bytes");
}

#[test]
fn text_callback_on_another_column_kind_is_rejected() {
    let mut w = writer(&[int4()]);
    assert_eq!(text(&mut w, 0, b"1", TextEncoding::Utf8), None);
    assert_eq!(
        w.check_error().unwrap_err().to_string(),
        "Conversion error: Arrow string callback does not match column type"
    );
}

#[test]
fn rows_and_bytes_accumulate_until_flush() {
    let options = ArrowOptions { batch_size: 2, ..ArrowOptions::default() };
    let mut w = ArrowRowWriter::new(&[int4()], options).unwrap().0;
    for _ in 0..2 {
        assert!(!w.should_flush());
        write(&mut w, 0, Kind::I32, 4);
        w.end_row();
    }
    assert_eq!(w.row_count(), 2);
    assert!(w.should_flush());
    w.begin_batch().unwrap();
    w.finish_batch();
    assert_eq!(w.row_count(), 0);
    assert!(!w.should_flush());
}

#[test]
fn value_limit_is_checked_before_copying() {
    let options = ArrowOptions { max_value_bytes: Some(3), ..ArrowOptions::default() };
    let mut w = ArrowRowWriter::new(&[text_meta()], options).unwrap().0;
    assert!(w.value_limit(3).is_ok());
    assert_eq!(
        w.value_limit(4).unwrap_err().to_string(),
        "Conversion error: Arrow value payload of 4 bytes exceeds max_value_bytes or buffer capacity"
    );
    write(&mut w, 0, Kind::Text, 4);
    assert_error(&mut w, "max_value_bytes");
}

#[test]
fn schema_fields_carry_types_and_metadata() {
    let (kind, field) = column_schema(&scaled(TdsDataType::DateTimeOffsetN, 7)).unwrap();
    assert_eq!(kind, Kind::DateTimeOffset(7));
    match &field.data_type {
        ArrowDataType::Struct(children) => {
            let names: Vec<&str> = children.iter().map(|c| c.name).collect();
            assert_eq!(names, ["date", "time", "offset_minutes"]);
            assert_eq!(children[2].data_type, ChildType::Int16);
        }
        other => panic!("unexpected {other:?}"),
    }
    assert!(field
        .metadata
        .iter()
        .any(|(k, v)| k == "mssql.time_basis" && v == "UTC"));
    let (kind, field) = column_schema(&meta(TdsDataType::Money, 8)).unwrap();
    assert_eq!(kind, Kind::Money);
    assert_eq!(field.data_type, ArrowDataType::Decimal128(19, 4));
    assert!(field.metadata.iter().any(|(k, v)| k == "mssql.precision" && v == "19"));
    let (kind, field) = column_schema(&vector_meta(3, 0)).unwrap();
    assert_eq!(kind, Kind::Vector(3));
    assert_eq!(field.data_type, ArrowDataType::FixedSizeListFloat32(3));
    assert!(field
        .metadata
        .iter()
        .any(|(k, v)| k == "mssql.vector.dimensions" && v == "3"));
    assert_eq!(field.metadata[0], ("mssql.type".to_string(), "vector".to_string()));
}

#[test]
fn scalar_helpers() {
    assert_eq!(money_value(-1, 0), -(1i128 << 32));
    assert_eq!(money_value(0, -1), u32::MAX as i128);
    assert_eq!(checked_add(1, 2).unwrap(), 3);
    assert!(checked_add(usize::MAX, 1).is_err());
    assert!(checked_add(isize::MAX as usize, 1).is_err());
    assert!(uuid_text_capacity(0).is_ok());
    assert!(uuid_text_capacity(i32::MAX as usize - 35).is_err());
    let w = writer(&[vector_meta(3, 0)]);
    assert_eq!(vector_dimensions(&w, 3).unwrap(), 3);
    assert!(vector_dimensions(&w, 0).is_err());
    assert!(vector_dimensions(&w, 1999).is_err());
    assert_eq!(Kind::I32.fixed_payload(), 4);
    assert_eq!(Kind::Text.overhead(), 9);
    assert_eq!(Kind::Text.initial_payload(), 32);
}

use mssql_tiberius_bridge::arrow::schema_error;

#[test]
fn schema_error_message_layout() {
    assert_eq!(
        schema_error("\"c\"", TdsDataType::Vector, "invalid vector dimensions").to_string(),
        "Conversion error: Arrow column \"c\" (Vector): invalid vector dimensions"
    );
}

#[test]
fn begin_helpers_poison_on_rejection() {
    let mut w = writer(&[int4(), text_meta()]);
    let row = w.begin_append(0, Kind::I32, 4).expect("accepted");
    assert_eq!(row, 5);
    w.commit_value(row);
    assert!(w.begin_text(1, Kind::Text, 3));
    let row = w.checked_row_bytes(Kind::Text, 3).unwrap();
    w.commit_value(row);
    w.end_row();
    assert_eq!(w.last_row_bytes(), 17);
    assert!(!w.begin_text(0, Kind::Xml, 1));
    assert_eq!(
        w.check_error().unwrap_err().to_string(),
        "Conversion error: Arrow string callback does not match column type"
    );
    assert!(w.begin_append(0, Kind::I32, 4).is_none());
    assert!(w.begin_null(0).is_none());
    let mut w = writer(&[int4()]);
    let (kind, row) = w.begin_null(0).expect("nullable");
    assert_eq!((kind, row), (Kind::I32, 5));
}

#[test]
fn temporal_values_are_lossless_at_the_range_ends() {
    assert_eq!(date32(0).unwrap(), -719_162);
    assert_eq!(date32(MAX_SQL_DAYS).unwrap(), 2_932_896);
    assert_ne!(date32(MAX_SQL_DAYS - 1).unwrap(), date32(MAX_SQL_DAYS).unwrap());
    assert_eq!(time_ns(TICKS_PER_DAY - 1, 7).unwrap(), ((TICKS_PER_DAY - 1) * 100) as i64);
    assert_ne!(time_ns(1, 7).unwrap(), time_ns(2, 7).unwrap());
    assert_eq!(time_ns(10, 6).unwrap(), time_ns(10, 7).unwrap());
    assert_eq!(smalldatetime_parts(0, 1439).unwrap().1, 1439 * 60_000_000_000);
    assert_eq!(datetime_parts(-53_690, 0).unwrap().0, -53_690 - 25_567);
}

#[test]
fn limited_transcoding_reports_the_first_chunk_over_the_limit() {
    let bytes = utf16(&"a".repeat(10_000));
    let options = ArrowOptions { max_row_bytes: Some(100), ..ArrowOptions::default() };
    let mut w = ArrowRowWriter::new(&[text_meta()], options).unwrap().0;
    assert_eq!(text(&mut w, 0, &bytes, TextEncoding::Utf16), None);
    let message = w.check_error().unwrap_err().to_string();
    assert!(message.contains("max_row_bytes"), "{message}");
    let size: usize = message.split_whitespace().find_map(|t| t.parse().ok()).unwrap();
    assert!(size > 100 && size <= 4096 + 9, "{message}");
}

#[test]
fn temporal_range_errors_name_the_range() {
    assert_eq!(date32(0).unwrap(), -719_162);
    assert_eq!(date32(3_652_058).unwrap(), 2_932_896);
    assert_eq!(
        date32(MAX_SQL_DAYS + 1).unwrap_err().to_string(),
        "Conversion error: Date is outside SQL Server's 0001..9999 range"
    );
    assert_eq!(
        time_ns(TICKS_PER_DAY, 7).unwrap_err().to_string(),
        "Conversion error: Time scale or clock value is outside SQL Server's range"
    );
    assert_eq!(
        time_ns(1, 6).unwrap_err().to_string(),
        "Conversion error: Time value is not aligned to its declared scale"
    );
    assert_eq!(
        datetime2_parts(MAX_SQL_DAYS + 1, 0, 7).unwrap_err().to_string(),
        "Conversion error: Date is outside SQL Server's 0001..9999 range"
    );
    assert_eq!(
        datetimeoffset_parts(0, 0, 7, 841).unwrap_err().to_string(),
        "Conversion error: Datetimeoffset offset must be in -840..=840 minutes"
    );
    assert_eq!(
        datetimeoffset_parts(0, 0, 7, -60).unwrap_err().to_string(),
        "Conversion error: Datetimeoffset local date is outside SQL Server's 0001..9999 range"
    );
    assert_eq!(
        decimal_value(true, 100, 2, 0).unwrap_err().to_string(),
        "Conversion error: Decimal magnitude, precision, or scale is out of range"
    );
}

#[test]
fn decode_step_reports_each_outcome() {
    let options = ArrowOptions { max_row_bytes: Some(100), ..ArrowOptions::default() };
    let w = ArrowRowWriter::new(&[text_meta()], options).unwrap().0;
    assert_eq!(w.decode_step(Kind::Text, 0, false, 10, 50).unwrap(), Some(50));
    assert_eq!(w.decode_step(Kind::Text, 50, true, 10, 10).unwrap(), None);
    assert_eq!(
        w.decode_step(Kind::Text, 0, false, 0, 0).unwrap_err().to_string(),
        "Conversion error: Arrow string decoder made no progress"
    );
    assert_eq!(
        w.decode_step(Kind::Text, 50, false, 10, 50).unwrap_err().to_string(),
        "Conversion error: Arrow row estimate of 109 bytes exceeds max_row_bytes"
    );
    assert_eq!(
        w.decode_step(Kind::Text, 50, true, 10, 50).unwrap_err().to_string(),
        "Conversion error: Arrow row estimate of 109 bytes exceeds max_row_bytes"
    );
    assert_eq!(
        w.decode_step(Kind::Text, usize::MAX, false, 1, 1).unwrap_err().to_string(),
        "Conversion error: Arrow logical byte size exceeds addressable buffer capacity"
    );
}

#[test]
fn prospective_bytes_names_the_broken_limit() {
    let options = ArrowOptions { max_row_bytes: Some(100), max_value_bytes: Some(150), ..ArrowOptions::default() };
    let w = ArrowRowWriter::new(&[text_meta()], options).unwrap().0;
    assert_eq!(w.prospective_bytes(Kind::Text, 91).unwrap(), 100);
    assert_eq!(
        w.prospective_bytes(Kind::Text, 92).unwrap_err().to_string(),
        "Conversion error: Arrow row estimate of 101 bytes exceeds max_row_bytes"
    );
    assert_eq!(
        w.prospective_bytes(Kind::Text, 151).unwrap_err().to_string(),
        "Conversion error: Arrow value payload of 151 bytes exceeds max_value_bytes or buffer capacity"
    );
}

#[test]
fn limited_transcoding_error_of_a_single_chunk_is_exact() {
    let options = ArrowOptions { max_row_bytes: Some(10), ..ArrowOptions::default() };
    let mut w = ArrowRowWriter::new(&[text_meta()], options).unwrap().0;
    assert_eq!(text(&mut w, 0, &utf16("abc"), TextEncoding::Utf16), None);
    assert_eq!(
        w.check_error().unwrap_err().to_string(),
        "Conversion error: Arrow row estimate of 12 bytes exceeds max_row_bytes"
    );
}

#[test]
fn vector_dimensions_follow_the_driver_maximum() {
    let w = writer(&[int4()]);
    assert_eq!(vector_dimensions(&w, 1998).unwrap(), 1998);
    assert_eq!(vector_dimensions(&w, 1999).unwrap_err().to_string(), "Conversion error: Invalid vector dimensions");
}
