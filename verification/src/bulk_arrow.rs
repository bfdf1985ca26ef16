//! Arrow cells to bulk-insert values.
//!
//! Each supported Arrow cell becomes the TDS value that the bulk writer
//! sends: integers widen to the nearest SQL integer type, dates and
//! timestamps move from the Unix epoch to SQL Server's 0001-01-01 epoch, and
//! 128-bit decimals are rendered as decimal text for the driver's decimal
//! encoder.

use vstd::prelude::*;

use mssql_tds::error::Error as TdsError;

use crate::arrow::{MAX_SQL_DAYS, SQL_EPOCH_DAYS};
use crate::driver_value::{decimal_parse, decimal_parts, decimal_text_accepted, sql_date, DriverDate, DriverDecimal};
use crate::error::{tds_usage_error, Error, Result};
use crate::text::{decimal_digits, int_text, push_decimal, push_signed, push_str, string_from_chars};

verus! {

/// Days from 0001-01-01 (SQL Server DATE epoch) to 1970-01-01 (Arrow epoch).
pub const ARROW_EPOCH_OFFSET_DAYS: i32 = 719_162;

/// Largest day number of SQL Server's `DATE` range (9999-12-31).
pub const MAX_SQL_DATE_DAYS: u32 = 3_652_058;

/// Nanoseconds per day.
pub const NANOS_PER_DAY: i64 = 86_400_000_000_000;

/// `n` zero characters.
pub open spec fn zeros(n: nat) -> Seq<char> {
    Seq::new(n, |i: int| '0')
}

/// Decimal text of the coefficient `raw` scaled by `10^-scale`: `12345` at
/// scale 2 is `123.45`, `5` at scale 3 is `0.005`, and a scale of zero or
/// less appends `-scale` zeros to the integer.
pub open spec fn decimal128_text(raw: int, scale: int) -> Seq<char> {
    if scale <= 0 {
        int_text(raw) + zeros((-scale) as nat)
    } else {
        let m = decimal_digits(if raw < 0 { (-raw) as nat } else { raw as nat });
        let body = if m.len() > scale {
            m.subrange(0, m.len() - scale) + "."@ + m.subrange(m.len() - scale, m.len() as int)
        } else {
            "0."@ + zeros((scale - m.len()) as nat) + m
        };
        if raw < 0 {
            seq!['-'] + body
        } else {
            body
        }
    }
}

fn push_zeros(out: &mut Vec<char>, n: usize)
    ensures
        final(out)@ == old(out)@ + zeros(n as nat),
{
    let mut i: usize = 0;
    while i < n
        invariant
            0 <= i <= n,
            out@ == old(out)@ + zeros(i as nat),
        decreases n - i,
    {
        out.push('0');
        i = i + 1;
        assert(zeros(i as nat) =~= zeros((i - 1) as nat).push('0'));
    }
}

fn magnitude(raw: i128) -> (r: u128)
    ensures
        r as int == if raw < 0 { -(raw as int) } else { raw as int },
{
    if raw < 0 {
        if raw == i128::MIN {
            170141183460469231731687303715884105728u128
        } else {
            (-raw) as u128
        }
    } else {
        raw as u128
    }
}

/// Decimal text of a 128-bit decimal coefficient at the given scale, as the
/// driver's decimal parser reads it (see [`decimal128_text`]).
pub fn format_decimal128(raw: i128, scale: i8) -> (r: String)
    ensures
        r@ == decimal128_text(raw as int, scale as int),
{
    let mut out: Vec<char> = Vec::new();
    if scale <= 0 {
        push_signed(&mut out, raw);
        let z: usize = (0 - (scale as i16)) as usize;
        push_zeros(&mut out, z);
        assert(out@ =~= decimal128_text(raw as int, scale as int));
        return string_from_chars(out);
    }
    let sc: usize = scale as usize;
    let mag = magnitude(raw);
    let mut m: Vec<char> = Vec::new();
    push_decimal(&mut m, mag);
    assert(m@ =~= decimal_digits(mag as nat));
    if raw < 0 {
        out.push('-');
    }
    let ghost start = out@;
    if m.len() > sc {
        let split = m.len() - sc;
        let mut i: usize = 0;
        while i < split
            invariant
                0 <= i <= split,
                split == m@.len() - sc,
                out@ == start + m@.subrange(0, i as int),
            decreases split - i,
        {
            out.push(m[i]);
            i = i + 1;
            assert(m@.subrange(0, i as int) =~= m@.subrange(0, i - 1).push(m@[i - 1]));
        }
        out.push('.');
        let ghost mid = out@;
        while i < m.len()
            invariant
                split <= i <= m@.len(),
                split == m@.len() - sc,
                out@ == mid + m@.subrange(split as int, i as int),
            decreases m@.len() - i,
        {
            out.push(m[i]);
            i = i + 1;
            assert(m@.subrange(split as int, i as int) =~= m@.subrange(split as int, i - 1).push(m@[i - 1]));
        }
        proof { reveal_strlit("."); }
        assert(out@ =~= start + (m@.subrange(0, split as int) + "."@ + m@.subrange(split as int, m@.len() as int)));
    } else {
        out.push('0');
        out.push('.');
        push_zeros(&mut out, sc - m.len());
        let ghost mid = out@;
        let mut i: usize = 0;
        while i < m.len()
            invariant
                0 <= i <= m@.len(),
                out@ == mid + m@.subrange(0, i as int),
            decreases m@.len() - i,
        {
            out.push(m[i]);
            i = i + 1;
            assert(m@.subrange(0, i as int) =~= m@.subrange(0, i - 1).push(m@[i - 1]));
        }
        proof { reveal_strlit("0."); }
        assert(m@.subrange(0, m@.len() as int) =~= m@);
        assert(out@ =~= start + ("0."@ + zeros((sc - m@.len()) as nat) + m@));
    }
    assert(out@ =~= decimal128_text(raw as int, scale as int));
    string_from_chars(out)
}

/// An Arrow `Date32` value that bulk insert accepts comes back unchanged
/// when the stored `date` is read as Arrow: the day number sent (see
/// [`arrow_cell_to_bulk_value`]) is a valid SQL day, and shifting it back to
/// the Unix epoch (see [`crate::arrow::date32`]) gives the original value.
pub proof fn lemma_date32_round_trip(d: i32)
    requires
        0 <= d + ARROW_EPOCH_OFFSET_DAYS <= MAX_SQL_DATE_DAYS,
    ensures
        ((d + ARROW_EPOCH_OFFSET_DAYS) as u32) <= MAX_SQL_DAYS,
        (((d + ARROW_EPOCH_OFFSET_DAYS) as u32) - SQL_EPOCH_DAYS) as i32 == d,
{
}

/// Time units of Arrow time and timestamp columns.
#[derive(Debug, Clone, Copy, PartialEq, Eq, Structural)]
pub enum ArrowTimeUnit {
    Second,
    Millisecond,
    Microsecond,
    Nanosecond,
}

/// The Arrow data types that the bulk mapping tells apart when it picks
/// the typed null marker of a column.
#[derive(Debug, Clone, Copy, PartialEq, Eq, Structural)]
pub enum ArrowType {
    Boolean,
    Int8,
    Int16,
    Int32,
    Int64,
    UInt8,
    UInt16,
    UInt32,
    Float32,
    Float64,
    Utf8,
    LargeUtf8,
    Binary,
    LargeBinary,
    FixedSizeBinary,
    /// Every other Arrow data type.
    Other,
}

/// One Arrow cell that is null or holds no floating-point value, by its
/// Arrow data type.
#[derive(Debug)]
pub enum ArrowCell {
    /// A null cell of a column of the given type.
    Null(ArrowType),
    Boolean(bool),
    Int8(i8),
    Int16(i16),
    Int32(i32),
    Int64(i64),
    UInt8(u8),
    UInt16(u16),
    UInt32(u32),
    /// `Utf8` or `LargeUtf8`.
    Utf8(String),
    /// `Binary`, `LargeBinary` or `FixedSizeBinary`.
    Binary(Vec<u8>),
    /// Days since 1970-01-01.
    Date32(i32),
    /// Time of day in the given unit.
    Time64(ArrowTimeUnit, i64),
    /// Time since 1970-01-01T00:00 in the given unit.
    Timestamp(ArrowTimeUnit, i64),
    /// Coefficient with the column's precision and scale.
    Decimal128 { value: i128, precision: u8, scale: i8 },
    /// A cell of an Arrow type without a bulk mapping, by its type name.
    Unsupported(String),
}

/// The TDS value that a bulk row sends for one cell.
#[derive(Debug)]
pub enum BulkValue {
    Bit(bool),
    TinyInt(u8),
    SmallInt(i16),
    Int(i32),
    BigInt(i64),
    String(String),
    Bytes(Vec<u8>),
    /// The driver's `DATE` value, with its day count since 0001-01-01.
    Date(DriverDate),
    /// Nanoseconds since midnight, at scale 7.
    Time(u64),
    /// Days since 0001-01-01 and nanoseconds since midnight, at scale 7.
    DateTime2 { days: u32, nanos: u64 },
    /// Decimal text accepted by the driver's decimal parser at this
    /// precision and scale, with the driver's value parsed from it.
    Decimal { text: String, value: DriverDecimal },
    /// A `real` zero: the typed null marker of a `Float32` column.
    RealZero,
    /// A `float` zero: the typed null marker of a `Float64` column.
    FloatZero,
}

/// The typed null marker that a null cell of a column of type `ty` is sent
/// as; the writer suppresses its payload and sends NULL.
pub open spec fn is_null_marker(ty: ArrowType, v: BulkValue) -> bool {
    match ty {
        ArrowType::Boolean => v == BulkValue::Bit(false),
        ArrowType::Int8 | ArrowType::Int16 => v == BulkValue::SmallInt(0),
        ArrowType::Int32 | ArrowType::UInt16 => v == BulkValue::Int(0),
        ArrowType::Int64 | ArrowType::UInt32 => v == BulkValue::BigInt(0),
        ArrowType::UInt8 => v == BulkValue::TinyInt(0),
        ArrowType::Float32 => v == BulkValue::RealZero,
        ArrowType::Float64 => v == BulkValue::FloatZero,
        ArrowType::Utf8 | ArrowType::LargeUtf8 => v matches BulkValue::String(t) && t@.len() == 0,
        _ => v matches BulkValue::Bytes(b) && b@.len() == 0,
    }
}

/// The typed null marker of a column of type `ty` (see [`is_null_marker`]).
pub fn null_marker(ty: ArrowType) -> (r: BulkValue)
    ensures
        is_null_marker(ty, r),
{
    match ty {
        ArrowType::Boolean => BulkValue::Bit(false),
        ArrowType::Int8 | ArrowType::Int16 => BulkValue::SmallInt(0),
        ArrowType::Int32 | ArrowType::UInt16 => BulkValue::Int(0),
        ArrowType::Int64 | ArrowType::UInt32 => BulkValue::BigInt(0),
        ArrowType::UInt8 => BulkValue::TinyInt(0),
        ArrowType::Float32 => BulkValue::RealZero,
        ArrowType::Float64 => BulkValue::FloatZero,
        ArrowType::Utf8 | ArrowType::LargeUtf8 => BulkValue::String(String::new()),
        _ => BulkValue::Bytes(Vec::new()),
    }
}

/// Nanoseconds of a time-of-day value in the given unit (microseconds are
/// multiplied, saturating; seconds and milliseconds are not supported for
/// `Time64`).
pub open spec fn time64_nanos(unit: ArrowTimeUnit, v: i64) -> Option<u64> {
    match unit {
        ArrowTimeUnit::Microsecond => Some(
            if (v as u64) as int * 1000 > u64::MAX { u64::MAX } else { ((v as u64) * 1000) as u64 },
        ),
        ArrowTimeUnit::Nanosecond => Some(v as u64),
        _ => None,
    }
}

/// Nanoseconds since the Unix epoch of a timestamp in the given unit,
/// saturating at the `i64` range.
pub open spec fn timestamp_nanos(unit: ArrowTimeUnit, v: i64) -> i64 {
    let factor: int = match unit {
        ArrowTimeUnit::Second => 1_000_000_000,
        ArrowTimeUnit::Millisecond => 1_000_000,
        ArrowTimeUnit::Microsecond => 1_000,
        ArrowTimeUnit::Nanosecond => 1,
    };
    let p = v * factor;
    if p > i64::MAX {
        i64::MAX
    } else if p < i64::MIN {
        i64::MIN
    } else {
        p as i64
    }
}

fn saturating_scale(v: i64, factor: i64) -> (r: i64)
    requires
        0 < factor <= 1_000_000_000,
    ensures
        r == (if v * factor > i64::MAX {
            i64::MAX
        } else if v * factor < i64::MIN {
            i64::MIN
        } else {
            (v * factor) as i64
        }),
{
    assert(-0x8000_0000_0000_0000 * 1_000_000_000 <= (v as int) * (factor as int) <= 0x8000_0000_0000_0000 * 1_000_000_000) by (nonlinear_arith)
        requires
            -0x8000_0000_0000_0000 <= v < 0x8000_0000_0000_0000,
            0 < factor <= 1_000_000_000;
    let p: i128 = (v as i128) * (factor as i128);
    if p > i64::MAX as i128 {
        i64::MAX
    } else if p < i64::MIN as i128 {
        i64::MIN
    } else {
        p as i64
    }
}

/// Splits nanoseconds since the Unix epoch into SQL Server's day number and
/// nanoseconds of the day; `None` before 0001-01-01.
pub open spec fn unix_nanos_to_sql(nanos: i64) -> Option<(int, int)> {
    let days_unix = (nanos as int) / (NANOS_PER_DAY as int);
    let intraday = (nanos as int) % (NANOS_PER_DAY as int);
    let days = days_unix + ARROW_EPOCH_OFFSET_DAYS;
    if days < 0 {
        None
    } else {
        Some((days, intraday))
    }
}

/// The usage error that the bulk writer reports for a rejected cell.
fn usage(message: String) -> (r: Error)
    ensures
        r is Tds,
{
    Error::Tds(tds_usage_error(message))
}

/// The name of a time unit, as its `Debug` rendering spells it.
pub open spec fn unit_name(unit: ArrowTimeUnit) -> Seq<char> {
    match unit {
        ArrowTimeUnit::Second => "Second"@,
        ArrowTimeUnit::Millisecond => "Millisecond"@,
        ArrowTimeUnit::Microsecond => "Microsecond"@,
        ArrowTimeUnit::Nanosecond => "Nanosecond"@,
    }
}

fn push_unit_name(out: &mut Vec<char>, unit: ArrowTimeUnit)
    ensures
        final(out)@ == old(out)@ + unit_name(unit),
{
    match unit {
        ArrowTimeUnit::Second => push_str(out, "Second"),
        ArrowTimeUnit::Millisecond => push_str(out, "Millisecond"),
        ArrowTimeUnit::Microsecond => push_str(out, "Microsecond"),
        ArrowTimeUnit::Nanosecond => push_str(out, "Nanosecond"),
    }
}

/// The message of a rejected `Date32` cell.
pub open spec fn date32_predates_text(d: i32) -> Seq<char> {
    "Date32 value "@ + int_text(d as int) + " predates SQL Server DATE epoch (0001-01-01)"@
}

/// The message of a `Time64` cell in an unsupported unit.
pub open spec fn time64_unit_text(unit: ArrowTimeUnit) -> Seq<char> {
    "Time64 unsupported time unit "@ + unit_name(unit)
}

/// The message of a cell of an Arrow type without a bulk mapping.
pub open spec fn unsupported_type_text(arrow_type_name: Seq<char>) -> Seq<char> {
    "unsupported Arrow data type "@ + arrow_type_name + " for bulk_insert::send_arrow"@
}

fn date32_predates_message(d: i32) -> (r: String)
    ensures
        r@ == date32_predates_text(d),
{
    let mut out: Vec<char> = Vec::new();
    push_str(&mut out, "Date32 value ");
    push_signed(&mut out, d as i128);
    push_str(&mut out, " predates SQL Server DATE epoch (0001-01-01)");
    assert(out@ =~= date32_predates_text(d));
    string_from_chars(out)
}

fn time64_unit_message(unit: ArrowTimeUnit) -> (r: String)
    ensures
        r@ == time64_unit_text(unit),
{
    let mut out: Vec<char> = Vec::new();
    push_str(&mut out, "Time64 unsupported time unit ");
    push_unit_name(&mut out, unit);
    assert(out@ =~= time64_unit_text(unit));
    string_from_chars(out)
}

fn unsupported_type_message(arrow_type_name: &str) -> (r: String)
    ensures
        r@ == unsupported_type_text(arrow_type_name@),
{
    let mut out: Vec<char> = Vec::new();
    push_str(&mut out, "unsupported Arrow data type ");
    push_str(&mut out, arrow_type_name);
    push_str(&mut out, " for bulk_insert::send_arrow");
    assert(out@ =~= unsupported_type_text(arrow_type_name@));
    string_from_chars(out)
}

/// Why a cell cannot be sent.
#[derive(Debug)]
pub enum CellError {
    /// The cell is rejected with this usage message.
    Usage(String),
    /// The driver rejected the value (its date or decimal constructor).
    Driver(TdsError),
}

/// The usage message of a cell that bulk insert rejects itself: a `Date32`
/// whose shift to the SQL epoch overflows or predates 0001-01-01, a
/// `Time64` in seconds or milliseconds, a timestamp before 0001-01-01, and
/// a cell of an Arrow type without a bulk mapping. `None` for every other
/// cell (a `Date32` past 9999-12-31 and a decimal the driver refuses are
/// the driver's errors).
pub open spec fn cell_usage_text(cell: ArrowCell) -> Option<Seq<char>> {
    match cell {
        ArrowCell::Date32(d) => if d + ARROW_EPOCH_OFFSET_DAYS > i32::MAX {
            Some("Date32 overflow translating to TDS DATE"@)
        } else if d + ARROW_EPOCH_OFFSET_DAYS < 0 {
            Some(date32_predates_text(d))
        } else {
            None
        },
        ArrowCell::Time64(unit, _) => if time64_nanos(unit, 0) is None {
            Some(time64_unit_text(unit))
        } else {
            None
        },
        ArrowCell::Timestamp(unit, v) => if unix_nanos_to_sql(timestamp_nanos(unit, v)) is None {
            Some("Timestamp predates SQL Server DATETIME2 epoch (0001-01-01)"@)
        } else {
            None
        },
        ArrowCell::Unsupported(name) => Some(unsupported_type_text(name@)),
        _ => None,
    }
}

/// The bulk value of one Arrow cell, or why it cannot be sent:
/// - a null cell becomes the typed null marker of its column type;
/// - `Int8`/`Int16` become `smallint`, `UInt8` `tinyint`, `Int32`/`UInt16`
///   `int`, `Int64`/`UInt32` `bigint`;
/// - `Date32` moves to the SQL epoch and must fall in 0001-01-01..=9999-12-31;
/// - `Time64` in microseconds or nanoseconds becomes nanoseconds of the day;
/// - a timestamp in any unit splits into day number and time of day, and
///   must not predate 0001-01-01;
/// - a 128-bit decimal is rendered with [`format_decimal128`] and parsed by
///   the driver at the column's precision and scale;
/// - other cells are rejected; each usage message is [`cell_usage_text`].
pub fn bulk_cell_value(cell: ArrowCell) -> (r: core::result::Result<BulkValue, CellError>)
    ensures
        match cell {
            ArrowCell::Null(ty) => r matches Ok(v) && is_null_marker(ty, v),
            ArrowCell::Boolean(b) => r matches Ok(BulkValue::Bit(v)) && v == b,
            ArrowCell::Int8(v) => r matches Ok(BulkValue::SmallInt(x)) && x == v,
            ArrowCell::Int16(v) => r matches Ok(BulkValue::SmallInt(x)) && x == v,
            ArrowCell::Int32(v) => r matches Ok(BulkValue::Int(x)) && x == v,
            ArrowCell::Int64(v) => r matches Ok(BulkValue::BigInt(x)) && x == v,
            ArrowCell::UInt8(v) => r matches Ok(BulkValue::TinyInt(x)) && x == v,
            ArrowCell::UInt16(v) => r matches Ok(BulkValue::Int(x)) && x == v,
            ArrowCell::UInt32(v) => r matches Ok(BulkValue::BigInt(x)) && x == v,
            ArrowCell::Utf8(s) => r matches Ok(BulkValue::String(x)) && x@ == s@,
            ArrowCell::Binary(b) => r matches Ok(BulkValue::Bytes(x)) && x@ == b@,
            ArrowCell::Date32(d) => {
                &&& r is Ok <==> 0 <= d + ARROW_EPOCH_OFFSET_DAYS <= MAX_SQL_DATE_DAYS
                &&& (r is Ok ==> (r matches Ok(BulkValue::Date(x)) && x.spec_days() == d + ARROW_EPOCH_OFFSET_DAYS))
            },
            ArrowCell::Time64(unit, v) => match time64_nanos(unit, v) {
                Some(n) => r matches Ok(BulkValue::Time(x)) && x == n,
                None => r is Err,
            },
            ArrowCell::Timestamp(unit, v) => match unix_nanos_to_sql(timestamp_nanos(unit, v)) {
                Some((days, nanos)) => r matches Ok(BulkValue::DateTime2 { days: d, nanos: n })
                    && d == days && n == nanos,
                None => r is Err,
            },
            ArrowCell::Decimal128 { value, precision, scale } => {
                &&& r is Ok <==> decimal_text_accepted(
                    decimal128_text(value as int, scale as int),
                    precision,
                    scale as u8,
                )
                &&& (r is Ok ==> (r matches Ok(BulkValue::Decimal { text: t, value: v })
                    && t@ == decimal128_text(value as int, scale as int) && v.spec_precision() == precision
                    && v.spec_scale() == scale as u8
                    && decimal_parse(t@, precision, scale as u8) == Some((v.spec_positive(), v.spec_magnitude()))))
            },
            ArrowCell::Unsupported(_) => r is Err,
        },
        match cell_usage_text(cell) {
            Some(m) => r matches Err(CellError::Usage(x)) && x@ == m,
            None => !(r matches Err(CellError::Usage(_))),
        },
{
    match cell {
        ArrowCell::Null(ty) => Ok(null_marker(ty)),
        ArrowCell::Boolean(b) => Ok(BulkValue::Bit(b)),
        ArrowCell::Int8(v) => Ok(BulkValue::SmallInt(v as i16)),
        ArrowCell::Int16(v) => Ok(BulkValue::SmallInt(v)),
        ArrowCell::Int32(v) => Ok(BulkValue::Int(v)),
        ArrowCell::Int64(v) => Ok(BulkValue::BigInt(v)),
        ArrowCell::UInt8(v) => Ok(BulkValue::TinyInt(v)),
        ArrowCell::UInt16(v) => Ok(BulkValue::Int(v as i32)),
        ArrowCell::UInt32(v) => Ok(BulkValue::BigInt(v as i64)),
        ArrowCell::Utf8(s) => Ok(BulkValue::String(s)),
        ArrowCell::Binary(b) => Ok(BulkValue::Bytes(b)),
        ArrowCell::Date32(d) => {
            let days = match d.checked_add(ARROW_EPOCH_OFFSET_DAYS) {
                Some(days) => days,
                None => return Err(CellError::Usage(String::from_str("Date32 overflow translating to TDS DATE"))),
            };
            if days < 0 {
                return Err(CellError::Usage(date32_predates_message(d)));
            }
            match sql_date(days as u32) {
                Ok(value) => Ok(BulkValue::Date(value)),
                Err(e) => Err(CellError::Driver(e)),
            }
        },
        ArrowCell::Time64(unit, v) => {
            let nanos: u64 = match unit {
                ArrowTimeUnit::Microsecond => match (v as u64).checked_mul(1_000) {
                    Some(n) => n,
                    None => u64::MAX,
                },
                ArrowTimeUnit::Nanosecond => v as u64,
                _ => return Err(CellError::Usage(time64_unit_message(unit))),
            };
            Ok(BulkValue::Time(nanos))
        },
        ArrowCell::Timestamp(unit, v) => {
            let nanos_since_unix: i64 = match unit {
                ArrowTimeUnit::Second => saturating_scale(v, 1_000_000_000),
                ArrowTimeUnit::Millisecond => saturating_scale(v, 1_000_000),
                ArrowTimeUnit::Microsecond => saturating_scale(v, 1_000),
                ArrowTimeUnit::Nanosecond => v,
            };
            let days_unix: i64 = match nanos_since_unix.checked_div_euclid(NANOS_PER_DAY) {
                Some(d) => d,
                None => 0,
            };
            let intraday: i64 = match nanos_since_unix.checked_rem_euclid(NANOS_PER_DAY) {
                Some(t) => t,
                None => 0,
            };
            let days_tds = days_unix + (ARROW_EPOCH_OFFSET_DAYS as i64);
            if days_tds < 0 {
                return Err(CellError::Usage(String::from_str("Timestamp predates SQL Server DATETIME2 epoch (0001-01-01)")));
            }
            assert(days_tds <= u32::MAX);
            Ok(BulkValue::DateTime2 { days: days_tds as u32, nanos: intraday as u64 })
        },
        ArrowCell::Decimal128 { value, precision, scale } => {
            let s = format_decimal128(value, scale);
            match decimal_parts(s.as_str(), precision, scale as u8) {
                Ok(value) => Ok(BulkValue::Decimal { text: s, value }),
                Err(e) => Err(CellError::Driver(e)),
            }
        },
        ArrowCell::Unsupported(name) => Err(CellError::Usage(unsupported_type_message(name.as_str()))),
    }
}


/// The bulk value of one Arrow cell, as [`bulk_cell_value`] gives it; a
/// rejected cell is the driver's `UsageError` with the message of
/// [`cell_usage_text`], or the driver's own error.
pub fn arrow_cell_to_bulk_value(cell: ArrowCell) -> (r: Result<BulkValue>)
    ensures
        match cell {
            ArrowCell::Null(ty) => r matches Ok(v) && is_null_marker(ty, v),
            ArrowCell::Boolean(b) => r matches Ok(BulkValue::Bit(v)) && v == b,
            ArrowCell::Int8(v) => r matches Ok(BulkValue::SmallInt(x)) && x == v,
            ArrowCell::Int16(v) => r matches Ok(BulkValue::SmallInt(x)) && x == v,
            ArrowCell::Int32(v) => r matches Ok(BulkValue::Int(x)) && x == v,
            ArrowCell::Int64(v) => r matches Ok(BulkValue::BigInt(x)) && x == v,
            ArrowCell::UInt8(v) => r matches Ok(BulkValue::TinyInt(x)) && x == v,
            ArrowCell::UInt16(v) => r matches Ok(BulkValue::Int(x)) && x == v,
            ArrowCell::UInt32(v) => r matches Ok(BulkValue::BigInt(x)) && x == v,
            ArrowCell::Utf8(s) => r matches Ok(BulkValue::String(x)) && x@ == s@,
            ArrowCell::Binary(b) => r matches Ok(BulkValue::Bytes(x)) && x@ == b@,
            ArrowCell::Date32(d) => {
                &&& r is Ok <==> 0 <= d + ARROW_EPOCH_OFFSET_DAYS <= MAX_SQL_DATE_DAYS
                &&& (r is Ok ==> (r matches Ok(BulkValue::Date(x)) && x.spec_days() == d + ARROW_EPOCH_OFFSET_DAYS))
                &&& (r matches Err(e) ==> e is Tds)
            },
            ArrowCell::Time64(unit, v) => match time64_nanos(unit, v) {
                Some(n) => r matches Ok(BulkValue::Time(x)) && x == n,
                None => r matches Err(e) && e is Tds,
            },
            ArrowCell::Timestamp(unit, v) => match unix_nanos_to_sql(timestamp_nanos(unit, v)) {
                Some((days, nanos)) => r matches Ok(BulkValue::DateTime2 { days: d, nanos: n })
                    && d == days && n == nanos,
                None => r matches Err(e) && e is Tds,
            },
            ArrowCell::Decimal128 { value, precision, scale } => {
                &&& r is Ok <==> decimal_text_accepted(
                    decimal128_text(value as int, scale as int),
                    precision,
                    scale as u8,
                )
                &&& (r is Ok ==> (r matches Ok(BulkValue::Decimal { text: t, value: v })
                    && t@ == decimal128_text(value as int, scale as int) && v.spec_precision() == precision
                    && v.spec_scale() == scale as u8
                    && decimal_parse(t@, precision, scale as u8) == Some((v.spec_positive(), v.spec_magnitude()))))
                &&& (r matches Err(e) ==> e is Tds)
            },
            ArrowCell::Unsupported(_) => r matches Err(e) && e is Tds,
        },
{
    match bulk_cell_value(cell) {
        Ok(v) => Ok(v),
        Err(CellError::Usage(m)) => Err(usage(m)),
        Err(CellError::Driver(e)) => Err(Error::Tds(e)),
    }
}

} // verus!
