//! SQL Server result columns as Arrow columns: the Arrow schema of each
//! column, the batch size targets and limits, and the logical-byte accounting
//! of the rows written into a batch.
//!
//! Strings (including XML/JSON) use `LargeUtf8`, opaque binary/UDT values use
//! `LargeBinary`, and uniqueidentifiers use canonical lower-case, hyphenated
//! `Utf8`. Decimal/numeric and money use `Decimal128`. Float32 vectors use
//! `FixedSizeList<Float32>`; Float16 vectors, `sql_variant`, encrypted
//! columns and unrecognized types are rejected. `date` is `Date32`, `time` is
//! `Time64(ns)`, `datetime2`/`smalldatetime` are
//! `Struct{date: Date32, time: Time64(ns)}`, `datetimeoffset` adds
//! `offset_minutes: Int16` (its date/time preserve the UTC wire value), and
//! `datetime` is `Struct{date: Date32, ticks_300: UInt32}`.

use vstd::prelude::*;

use mssql_tds::datatypes::sql_string::{EncodingType, SqlString};
use mssql_tds::datatypes::sqldatatypes::VectorBaseType as DriverVectorBase;
use mssql_tds::token::tokens::SqlCollation;
use vstd::utf8::{decode_utf8, encode_utf8, valid_utf8};

use crate::column::{flag_set, spec_debug_name, spec_wire_code, Collation, ColumnMetadata, TdsDataType};
use crate::error::{Error, Result};
use crate::prepared::tds_meta_type_name;
use crate::transcode::{
    chunk_reads, decode_utf8_chunk, decoder_chunk, new_text_decoder, text_encoding_of, DECODE_CHUNK_BYTES,
};
use crate::text::{
    decimal_digits, decimal_string, eq_ignore_ascii_case, eq_ignore_ascii_case_spec, int_text,
    push_decimal, push_signed, push_str, string_from_chars,
};

verus! {

/// Default maximum rows per batch.
pub const DEFAULT_ROWS: usize = 8192;

/// Default soft logical-byte target per batch (8 MiB).
pub const DEFAULT_BYTES: usize = 8388608;

/// Maximum dimensions of a Float32 vector: what the driver's
/// [`float32_max_dimensions`] returns.
pub const MAX_VECTOR_DIMENSIONS: i32 = 1998;

/// `VectorBaseType::max_dimensions` of mssql-tds for `Float32`: the most
/// elements a Float32 vector holds, which the source gives as 1998.
#[verifier::external_body]
pub(crate) fn float32_max_dimensions() -> (r: u16)
    ensures
        r == MAX_VECTOR_DIMENSIONS,
{
    DriverVectorBase::Float32.max_dimensions()
}

/// Size of the header of a vector value on the wire.
pub const VECTOR_HEADER_SIZE: usize = 8;

/// Batch targets and optional rejection limits for Arrow reads.
///
/// Byte accounting estimates converted logical data: fixed-width storage
/// (including null slots), one byte per validity slot, and one offset per
/// variable-width value, plus its UTF-8/binary payload.
#[derive(Debug, Clone, Copy)]
pub struct ArrowOptions {
    /// Maximum rows per batch (default: 8192).
    pub batch_size: usize,
    /// Soft logical-byte target (default: 8 MiB). A row can exceed this target.
    pub batch_bytes: usize,
    /// Optional hard limit on one converted row, including accounting overhead.
    pub max_row_bytes: Option<usize>,
    /// Optional hard limit on an individual value's converted payload length.
    pub max_value_bytes: Option<usize>,
}

impl Default for ArrowOptions {
    fn default() -> (r: Self)
        ensures
            r.batch_size == DEFAULT_ROWS,
            r.batch_bytes == DEFAULT_BYTES,
            r.max_row_bytes is None,
            r.max_value_bytes is None,
    {
        ArrowOptions {
            batch_size: DEFAULT_ROWS,
            batch_bytes: DEFAULT_BYTES,
            max_row_bytes: None,
            max_value_bytes: None,
        }
    }
}

/// The largest size of an Arrow buffer.
pub open spec fn max_buffer() -> int {
    isize::MAX as int
}

/// The message of an option that is out of range, if any: options are
/// checked in the order `batch_size`, `batch_bytes`, `max_row_bytes`,
/// `max_value_bytes`; each must be positive and addressable.
pub open spec fn options_error(o: ArrowOptions) -> Option<Seq<char>> {
    match option_error("batch_size"@, Some(o.batch_size)) {
        Some(m) => Some(m),
        None => match option_error("batch_bytes"@, Some(o.batch_bytes)) {
            Some(m) => Some(m),
            None => match option_error("max_row_bytes"@, o.max_row_bytes) {
                Some(m) => Some(m),
                None => option_error("max_value_bytes"@, o.max_value_bytes),
            },
        },
    }
}

/// The message for one option that is zero or beyond the buffer size.
pub open spec fn option_error(name: Seq<char>, value: Option<usize>) -> Option<Seq<char>> {
    match value {
        Some(v) => if v == 0 {
            Some("Arrow "@ + name + " must be greater than zero"@)
        } else if v > max_buffer() {
            Some("Arrow "@ + name + " exceeds the addressable Arrow buffer size"@)
        } else {
            None
        },
        None => None,
    }
}

fn check_option(name: &str, value: Option<usize>) -> (r: Result<()>)
    ensures
        match option_error(name@, value) {
            Some(m) => r matches Err(Error::Conversion(msg)) && msg@ == m,
            None => r is Ok,
        },
{
    if let Some(v) = value {
        if v == 0 {
            let mut out: Vec<char> = Vec::new();
            push_str(&mut out, "Arrow ");
            push_str(&mut out, name);
            push_str(&mut out, " must be greater than zero");
            return Err(Error::Conversion(string_from_chars(out)));
        }
        if v > isize::MAX as usize {
            let mut out: Vec<char> = Vec::new();
            push_str(&mut out, "Arrow ");
            push_str(&mut out, name);
            push_str(&mut out, " exceeds the addressable Arrow buffer size");
            return Err(Error::Conversion(string_from_chars(out)));
        }
    }
    Ok(())
}

impl ArrowOptions {
    /// Every option that is set must be positive and addressable.
    pub fn validate(&self) -> (r: Result<()>)
        ensures
            match options_error(*self) {
                Some(m) => r matches Err(Error::Conversion(msg)) && msg@ == m,
                None => r is Ok,
            },
    {
        check_option("batch_size", Some(self.batch_size))?;
        check_option("batch_bytes", Some(self.batch_bytes))?;
        check_option("max_row_bytes", self.max_row_bytes)?;
        check_option("max_value_bytes", self.max_value_bytes)?;
        Ok(())
    }
}

/// The error of a logical byte count beyond the buffer size.
pub open spec fn capacity_text() -> Seq<char> {
    "Arrow logical byte size exceeds addressable buffer capacity"@
}

/// `a + b`, as long as it stays within an Arrow buffer.
pub fn checked_add(a: usize, b: usize) -> (r: Result<usize>)
    ensures
        a + b <= max_buffer() ==> r == Ok::<usize, Error>((a + b) as usize),
        a + b > max_buffer() ==> (r matches Err(Error::Conversion(m)) && m@ == capacity_text()),
{
    match a.checked_add(b) {
        Some(n) => {
            if n <= isize::MAX as usize {
                return Ok(n);
            }
        },
        None => {},
    }
    Err(Error::Conversion(String::from_str("Arrow logical byte size exceeds addressable buffer capacity")))
}

/// How one SQL column is represented and accounted in Arrow.
#[derive(Debug, Clone, Copy, PartialEq, Eq, Structural)]
pub enum Kind {
    Null,
    Bool,
    U8,
    I16,
    I32,
    I64,
    F32,
    F64,
    Text,
    Binary,
    Xml,
    Json,
    Uuid,
    Decimal { precision: u8, scale: u8, numeric: bool },
    Money,
    SmallMoney,
    Date,
    /// Time with its fractional-second scale.
    Time(u8),
    DateTime,
    SmallDateTime,
    /// Datetime2 with its fractional-second scale.
    DateTime2(u8),
    /// Datetimeoffset with its fractional-second scale.
    DateTimeOffset(u8),
    /// Float32 vector with its dimensions.
    Vector(i32),
}

/// The kinds that columns can have: vectors of 1..=1998 dimensions.
pub open spec fn kind_valid(k: Kind) -> bool {
    match k {
        Kind::Vector(n) => 0 < n <= MAX_VECTOR_DIMENSIONS,
        _ => true,
    }
}

/// Logical bytes of one value's fixed-width storage.
pub open spec fn spec_fixed_payload(k: Kind) -> nat {
    match k {
        Kind::Null | Kind::Text | Kind::Binary | Kind::Xml | Kind::Json => 0,
        Kind::Bool | Kind::U8 => 1,
        Kind::I16 => 2,
        Kind::I32 | Kind::F32 | Kind::Date => 4,
        Kind::I64 | Kind::F64 | Kind::Time(_) | Kind::DateTime => 8,
        Kind::SmallDateTime | Kind::DateTime2(_) => 12,
        Kind::DateTimeOffset(_) => 14,
        Kind::Money | Kind::SmallMoney | Kind::Decimal { .. } => 16,
        Kind::Uuid => 36,
        Kind::Vector(n) => (n * 4) as nat,
    }
}

/// Logical bytes of one value's validity slots and offsets.
pub open spec fn spec_overhead(k: Kind) -> nat {
    match k {
        Kind::Text | Kind::Binary | Kind::Xml | Kind::Json => 9,
        Kind::Uuid => 5,
        Kind::DateTime | Kind::SmallDateTime | Kind::DateTime2(_) => 3,
        Kind::DateTimeOffset(_) => 4,
        Kind::Vector(n) => (1 + n) as nat,
        _ => 1,
    }
}

/// Payload estimate of one value when sizing the first allocation.
pub open spec fn spec_initial_payload(k: Kind) -> nat {
    match k {
        Kind::Text | Kind::Binary | Kind::Xml | Kind::Json => 32,
        _ => spec_fixed_payload(k),
    }
}

/// Arrow types of the children of temporal structs.
#[derive(Debug, Clone, Copy, PartialEq, Eq, Structural)]
pub enum ChildType {
    Date32,
    Time64Nanosecond,
    UInt32,
    Int16,
}

/// A non-nullable child field of a temporal struct.
#[derive(Debug, Clone, Copy, PartialEq, Eq)]
pub struct ChildField {
    /// Field name.
    pub name: &'static str,
    /// Field type.
    pub data_type: ChildType,
}

/// Arrow data types of result columns.
#[derive(Debug, Clone, PartialEq, Eq)]
pub enum ArrowDataType {
    Null,
    Boolean,
    UInt8,
    Int16,
    Int32,
    Int64,
    Float32,
    Float64,
    LargeUtf8,
    LargeBinary,
    Utf8,
    Decimal128(u8, i8),
    Date32,
    Time64Nanosecond,
    /// A struct of non-nullable children.
    Struct(Vec<ChildField>),
    /// A fixed-size list of non-nullable Float32 items, with its size.
    FixedSizeListFloat32(i32),
}

/// An Arrow field: name, type, nullability and string metadata.
#[derive(Debug, Clone)]
pub struct ArrowField {
    /// Column name.
    pub name: String,
    /// Arrow type.
    pub data_type: ArrowDataType,
    /// Whether the column admits nulls.
    pub nullable: bool,
    /// Field metadata entries, each key once.
    pub metadata: Vec<(String, String)>,
}

/// The children of the struct of a temporal kind: `date`, then `ticks_300`
/// (datetime) or `time`, then `offset_minutes` (datetimeoffset).
pub open spec fn temporal_children(k: Kind) -> Seq<(Seq<char>, ChildType)> {
    let first = seq![("date"@, ChildType::Date32)];
    let second = if k == Kind::DateTime {
        seq![("ticks_300"@, ChildType::UInt32)]
    } else {
        seq![("time"@, ChildType::Time64Nanosecond)]
    };
    let third = if k is DateTimeOffset {
        seq![("offset_minutes"@, ChildType::Int16)]
    } else {
        Seq::empty()
    };
    first + second + third
}

/// The view of the children of a struct.
pub open spec fn children_view(c: Seq<ChildField>) -> Seq<(Seq<char>, ChildType)> {
    c.map_values(|f: ChildField| (f.name@, f.data_type))
}

/// The Arrow type of each kind (temporal structs aside).
pub open spec fn spec_data_type(k: Kind) -> ArrowDataType {
    match k {
        Kind::Null => ArrowDataType::Null,
        Kind::Bool => ArrowDataType::Boolean,
        Kind::U8 => ArrowDataType::UInt8,
        Kind::I16 => ArrowDataType::Int16,
        Kind::I32 => ArrowDataType::Int32,
        Kind::I64 => ArrowDataType::Int64,
        Kind::F32 => ArrowDataType::Float32,
        Kind::F64 => ArrowDataType::Float64,
        Kind::Text | Kind::Xml | Kind::Json => ArrowDataType::LargeUtf8,
        Kind::Binary => ArrowDataType::LargeBinary,
        Kind::Uuid => ArrowDataType::Utf8,
        Kind::Decimal { precision, scale, .. } => ArrowDataType::Decimal128(precision, scale as i8),
        Kind::Money => ArrowDataType::Decimal128(19, 4),
        Kind::SmallMoney => ArrowDataType::Decimal128(10, 4),
        Kind::Date => ArrowDataType::Date32,
        Kind::Time(_) => ArrowDataType::Time64Nanosecond,
        Kind::Vector(n) => ArrowDataType::FixedSizeListFloat32(n),
        _ => ArrowDataType::Null,
    }
}

/// Whether a kind is represented by a temporal struct.
pub open spec fn is_temporal_struct(k: Kind) -> bool {
    k is DateTime || k is SmallDateTime || k is DateTime2 || k is DateTimeOffset
}

impl Kind {
    /// Logical bytes of one value's fixed-width storage.
    pub fn fixed_payload(self) -> (r: usize)
        requires
            kind_valid(self),
        ensures
            r == spec_fixed_payload(self),
    {
        match self {
            Kind::Null | Kind::Text | Kind::Binary | Kind::Xml | Kind::Json => 0,
            Kind::Bool | Kind::U8 => 1,
            Kind::I16 => 2,
            Kind::I32 | Kind::F32 | Kind::Date => 4,
            Kind::I64 | Kind::F64 | Kind::Time(_) | Kind::DateTime => 8,
            Kind::SmallDateTime | Kind::DateTime2(_) => 12,
            Kind::DateTimeOffset(_) => 14,
            Kind::Money | Kind::SmallMoney | Kind::Decimal { .. } => 16,
            Kind::Uuid => 36,
            Kind::Vector(n) => n as usize * 4,
        }
    }

    /// Logical bytes of one value's validity slots and offsets.
    pub fn overhead(self) -> (r: usize)
        requires
            kind_valid(self),
        ensures
            r == spec_overhead(self),
    {
        match self {
            Kind::Text | Kind::Binary | Kind::Xml | Kind::Json => 9,
            Kind::Uuid => 5,
            Kind::DateTime | Kind::SmallDateTime | Kind::DateTime2(_) => 3,
            Kind::DateTimeOffset(_) => 4,
            Kind::Vector(n) => 1 + n as usize,
            _ => 1,
        }
    }

    /// Payload estimate of one value when sizing the first allocation.
    pub fn initial_payload(self) -> (r: usize)
        requires
            kind_valid(self),
        ensures
            r == spec_initial_payload(self),
    {
        match self {
            Kind::Text | Kind::Binary | Kind::Xml | Kind::Json => 32,
            _ => self.fixed_payload(),
        }
    }

    /// The children of this kind's temporal struct.
    pub fn temporal_fields(self) -> (r: Vec<ChildField>)
        ensures
            children_view(r@) == temporal_children(self),
    {
        let mut fields: Vec<ChildField> = Vec::new();
        fields.push(ChildField { name: "date", data_type: ChildType::Date32 });
        if self == Kind::DateTime {
            fields.push(ChildField { name: "ticks_300", data_type: ChildType::UInt32 });
        } else {
            fields.push(ChildField { name: "time", data_type: ChildType::Time64Nanosecond });
        }
        if let Kind::DateTimeOffset(_) = self {
            fields.push(ChildField { name: "offset_minutes", data_type: ChildType::Int16 });
        }
        assert(children_view(fields@) =~= temporal_children(self));
        fields
    }

    /// The Arrow type of this kind.
    pub fn data_type(self) -> (r: ArrowDataType)
        ensures
            is_temporal_struct(self) ==> (r matches ArrowDataType::Struct(c) && children_view(c@)
                == temporal_children(self)),
            !is_temporal_struct(self) ==> r == spec_data_type(self),
    {
        match self {
            Kind::Null => ArrowDataType::Null,
            Kind::Bool => ArrowDataType::Boolean,
            Kind::U8 => ArrowDataType::UInt8,
            Kind::I16 => ArrowDataType::Int16,
            Kind::I32 => ArrowDataType::Int32,
            Kind::I64 => ArrowDataType::Int64,
            Kind::F32 => ArrowDataType::Float32,
            Kind::F64 => ArrowDataType::Float64,
            Kind::Text | Kind::Xml | Kind::Json => ArrowDataType::LargeUtf8,
            Kind::Binary => ArrowDataType::LargeBinary,
            Kind::Uuid => ArrowDataType::Utf8,
            Kind::Decimal { precision, scale, .. } => ArrowDataType::Decimal128(precision, scale as i8),
            Kind::Money => ArrowDataType::Decimal128(19, 4),
            Kind::SmallMoney => ArrowDataType::Decimal128(10, 4),
            Kind::Date => ArrowDataType::Date32,
            Kind::Time(_) => ArrowDataType::Time64Nanosecond,
            Kind::DateTime | Kind::SmallDateTime | Kind::DateTime2(_) | Kind::DateTimeOffset(_) => {
                ArrowDataType::Struct(self.temporal_fields())
            },
            Kind::Vector(n) => ArrowDataType::FixedSizeListFloat32(n),
        }
    }
}

/// The reason to reject a column whose descriptor width is not the width of
/// its type.
pub open spec fn width_text() -> Seq<char> {
    "invalid TDS storage width"@
}

/// A kind with its SQL type name, when the width matches.
pub open spec fn sized(width: usize, expected: usize, k: Kind, name: Seq<char>) -> core::result::Result<(Kind, Seq<char>), Seq<char>> {
    if width == expected {
        Ok((k, name))
    } else {
        Err(width_text())
    }
}

/// The fractional-second scale of a temporal column whose descriptor width
/// matches it (3, 4 or 5 bytes of time, plus 3 bytes of date for datetime2
/// and 5 bytes of date and offset for datetimeoffset).
pub open spec fn temporal_scale(meta: ColumnMetadata) -> core::result::Result<u8, Seq<char>> {
    match meta.scale {
        Some(s) => if s <= 7 {
            let time_width: int = if s <= 2 { 3 } else if s <= 4 { 4 } else { 5 };
            let suffix: int = if meta.data_type == TdsDataType::DateTime2N {
                3
            } else if meta.data_type == TdsDataType::DateTimeOffsetN {
                5
            } else {
                0
            };
            if meta.length == time_width + suffix {
                Ok(s)
            } else {
                Err(width_text())
            }
        } else {
            Err("missing or invalid temporal scale"@)
        },
        None => Err("missing or invalid temporal scale"@),
    }
}

/// The Arrow kind and SQL type name of a result column, or the reason the
/// column cannot be read as Arrow.
pub open spec fn column_kind(meta: ColumnMetadata) -> core::result::Result<(Kind, Seq<char>), Seq<char>> {
    let w = meta.length;
    if flag_set(meta.flags, 0x0800) {
        Err("encrypted columns are unsupported; select an unencrypted projection"@)
    } else if meta.data_type != meta.descriptor_type {
        Err("inconsistent TDS type metadata"@)
    } else {
        match meta.data_type {
            TdsDataType::Void => Ok((Kind::Null, "null"@)),
            TdsDataType::Bit | TdsDataType::BitN => sized(w, 1, Kind::Bool, "bit"@),
            TdsDataType::Int1 => sized(w, 1, Kind::U8, "tinyint"@),
            TdsDataType::Int2 => sized(w, 2, Kind::I16, "smallint"@),
            TdsDataType::Int4 => sized(w, 4, Kind::I32, "int"@),
            TdsDataType::Int8 => sized(w, 8, Kind::I64, "bigint"@),
            TdsDataType::IntN => if w == 1 {
                Ok((Kind::U8, "tinyint"@))
            } else if w == 2 {
                Ok((Kind::I16, "smallint"@))
            } else if w == 4 {
                Ok((Kind::I32, "int"@))
            } else if w == 8 {
                Ok((Kind::I64, "bigint"@))
            } else {
                Err("invalid nullable integer width"@)
            },
            TdsDataType::Flt4 => sized(w, 4, Kind::F32, "real"@),
            TdsDataType::Flt8 => sized(w, 8, Kind::F64, "float"@),
            TdsDataType::FltN => if w == 4 {
                Ok((Kind::F32, "real"@))
            } else if w == 8 {
                Ok((Kind::F64, "float"@))
            } else {
                Err("invalid nullable float width"@)
            },
            TdsDataType::Money => sized(w, 8, Kind::Money, "money"@),
            TdsDataType::Money4 => sized(w, 4, Kind::SmallMoney, "smallmoney"@),
            TdsDataType::MoneyN => if w == 4 {
                Ok((Kind::SmallMoney, "smallmoney"@))
            } else if w == 8 {
                Ok((Kind::Money, "money"@))
            } else {
                Err("invalid nullable money width"@)
            },
            TdsDataType::Decimal | TdsDataType::DecimalN | TdsDataType::Numeric
            | TdsDataType::NumericN => match meta.precision {
                Some(p) if 1 <= p <= 38 => match meta.scale {
                    Some(sc) if sc <= p => if w == 5 || w == 9 || w == 13 || w == 17 {
                        let numeric = meta.data_type == TdsDataType::Numeric || meta.data_type
                            == TdsDataType::NumericN;
                        Ok(
                            (
                                Kind::Decimal { precision: p, scale: sc, numeric },
                                if numeric { "numeric"@ } else { "decimal"@ },
                            ),
                        )
                    } else {
                        Err("invalid decimal TDS storage width"@)
                    },
                    _ => Err("decimal scale must be in 0..=precision"@),
                },
                _ => Err("decimal precision must be in 1..=38"@),
            },
            TdsDataType::VarChar | TdsDataType::BigVarChar => Ok((Kind::Text, "varchar"@)),
            TdsDataType::Char | TdsDataType::BigChar => Ok((Kind::Text, "char"@)),
            TdsDataType::NVarChar => Ok((Kind::Text, "nvarchar"@)),
            TdsDataType::NChar => Ok((Kind::Text, "nchar"@)),
            TdsDataType::Text => Ok((Kind::Text, "text"@)),
            TdsDataType::NText => Ok((Kind::Text, "ntext"@)),
            TdsDataType::Xml => Ok((Kind::Xml, "xml"@)),
            TdsDataType::Json => Ok((Kind::Json, "json"@)),
            TdsDataType::Binary | TdsDataType::BigBinary => Ok((Kind::Binary, "binary"@)),
            TdsDataType::VarBinary | TdsDataType::BigVarBinary => Ok((Kind::Binary, "varbinary"@)),
            TdsDataType::Image => Ok((Kind::Binary, "image"@)),
            TdsDataType::Udt => Ok((Kind::Binary, "udt"@)),
            TdsDataType::Guid => sized(w, 16, Kind::Uuid, "uniqueidentifier"@),
            TdsDataType::DateN => sized(w, 3, Kind::Date, "date"@),
            TdsDataType::TimeN => match temporal_scale(meta) {
                Ok(s) => Ok((Kind::Time(s), "time"@)),
                Err(m) => Err(m),
            },
            TdsDataType::DateTime2N => match temporal_scale(meta) {
                Ok(s) => Ok((Kind::DateTime2(s), "datetime2"@)),
                Err(m) => Err(m),
            },
            TdsDataType::DateTimeOffsetN => match temporal_scale(meta) {
                Ok(s) => Ok((Kind::DateTimeOffset(s), "datetimeoffset"@)),
                Err(m) => Err(m),
            },
            TdsDataType::DateTime => sized(w, 8, Kind::DateTime, "datetime"@),
            TdsDataType::DateTim4 => sized(w, 4, Kind::SmallDateTime, "smalldatetime"@),
            TdsDataType::DateTimeN => if w == 4 {
                Ok((Kind::SmallDateTime, "smalldatetime"@))
            } else if w == 8 {
                Ok((Kind::DateTime, "datetime"@))
            } else {
                Err("invalid nullable datetime width"@)
            },
            TdsDataType::Vector => match meta.scale {
                Some(0) => if w > VECTOR_HEADER_SIZE && (w - VECTOR_HEADER_SIZE) % 4 == 0 {
                    if (w - VECTOR_HEADER_SIZE) / 4 > MAX_VECTOR_DIMENSIONS {
                        Err("invalid vector dimensions"@)
                    } else {
                        Ok((Kind::Vector(((w - VECTOR_HEADER_SIZE) / 4) as i32), "vector"@))
                    }
                } else {
                    Err("invalid vector storage width"@)
                },
                Some(1) => Err(
                    "Float16 vectors are unsupported; CAST to vector(n, float32) or varchar(max)"@,
                ),
                _ => Err("missing or unknown vector base type; CAST to varchar(max)"@),
            },
            TdsDataType::SsVariant => Err(
                "sql_variant is unsupported; CAST to a concrete supported SQL type"@,
            ),
            _ => Err("unsupported SQL type; CAST to a concrete supported SQL type"@),
        }
    }
}

/// The fixed-width integer wire type of a byte width.
pub open spec fn fixed_int_type(w: usize) -> Option<TdsDataType> {
    if w == 1 {
        Some(TdsDataType::Int1)
    } else if w == 2 {
        Some(TdsDataType::Int2)
    } else if w == 4 {
        Some(TdsDataType::Int4)
    } else if w == 8 {
        Some(TdsDataType::Int8)
    } else {
        None
    }
}

/// The fixed-width float wire type of a byte width.
pub open spec fn fixed_float_type(w: usize) -> Option<TdsDataType> {
    if w == 4 {
        Some(TdsDataType::Flt4)
    } else if w == 8 {
        Some(TdsDataType::Flt8)
    } else {
        None
    }
}

/// A nullable integer column reads like the fixed-width integer type of its
/// width: the same Arrow kind and SQL type name, that name being the
/// driver's name of the fixed type, and an integer kind whose values take
/// exactly the column's width; any other width is refused.
pub proof fn lemma_nullable_int_column_kind(meta: ColumnMetadata)
    requires
        meta.data_type == TdsDataType::IntN,
        meta.descriptor_type == TdsDataType::IntN,
        !flag_set(meta.flags, 0x0800),
    ensures
        column_kind(meta) is Ok <==> fixed_int_type(meta.length) is Some,
        fixed_int_type(meta.length) matches Some(fixed) ==> {
            &&& column_kind(meta) == column_kind(ColumnMetadata { data_type: fixed, descriptor_type: fixed, ..meta })
            &&& column_kind(meta) matches Ok((kind, name))
            &&& kind is U8 || kind is I16 || kind is I32 || kind is I64
            &&& spec_fixed_payload(kind) == meta.length
            &&& tds_meta_type_name(spec_wire_code(fixed)) == Some(name)
        },
{
}

/// A nullable money column reads like the fixed-width money type of its
/// width (`smallmoney` for 4 bytes, `money` for 8), and a nullable bit
/// column like `bit`; any other width is refused.
pub proof fn lemma_nullable_money_and_bit_column_kind(meta: ColumnMetadata)
    requires
        meta.data_type == meta.descriptor_type,
        !flag_set(meta.flags, 0x0800),
    ensures
        meta.data_type == TdsDataType::MoneyN ==> {
            &&& column_kind(meta) is Ok <==> (meta.length == 4 || meta.length == 8)
            &&& meta.length == 4 ==> column_kind(meta) == column_kind(
                ColumnMetadata { data_type: TdsDataType::Money4, descriptor_type: TdsDataType::Money4, ..meta },
            )
            &&& meta.length == 8 ==> column_kind(meta) == column_kind(
                ColumnMetadata { data_type: TdsDataType::Money, descriptor_type: TdsDataType::Money, ..meta },
            )
        },
        meta.data_type == TdsDataType::BitN ==> column_kind(meta) == column_kind(
            ColumnMetadata { data_type: TdsDataType::Bit, descriptor_type: TdsDataType::Bit, ..meta },
        ),
{
}

/// The SQL type name that a result column is described with is the
/// driver's T-SQL name of its wire type, wherever the driver has one.
pub proof fn lemma_column_kind_name_is_driver_name(meta: ColumnMetadata)
    ensures
        column_kind(meta) matches Ok((kind, name)) ==> (tds_meta_type_name(spec_wire_code(meta.data_type)) matches Some(
            driver_name,
        ) ==> name == driver_name),
{
}

/// A nullable float column reads like the fixed-width float type of its
/// width: the same Arrow kind and SQL type name (the driver's name of the
/// fixed type), a float kind whose values take exactly the column's width;
/// any other width is refused.
pub proof fn lemma_nullable_float_column_kind(meta: ColumnMetadata)
    requires
        meta.data_type == TdsDataType::FltN,
        meta.descriptor_type == TdsDataType::FltN,
        !flag_set(meta.flags, 0x0800),
    ensures
        column_kind(meta) is Ok <==> fixed_float_type(meta.length) is Some,
        fixed_float_type(meta.length) matches Some(fixed) ==> {
            &&& column_kind(meta) == column_kind(ColumnMetadata { data_type: fixed, descriptor_type: fixed, ..meta })
            &&& column_kind(meta) matches Ok((kind, name))
            &&& kind is F32 || kind is F64
            &&& spec_fixed_payload(kind) == meta.length
            &&& tds_meta_type_name(spec_wire_code(fixed)) == Some(name)
        },
{
}

fn sized_exec(width: usize, expected: usize, k: Kind, name: &'static str) -> (r: core::result::Result<(Kind, &'static str), &'static str>)
    ensures
        match sized(width, expected, k, name@) {
            Ok((k2, n)) => r matches Ok((k3, n3)) && k3 == k2 && n3@ == n,
            Err(m) => r matches Err(m3) && m3@ == m,
        },
{
    if width == expected {
        Ok((k, name))
    } else {
        Err("invalid TDS storage width")
    }
}

fn temporal_scale_exec(meta: &ColumnMetadata) -> (r: core::result::Result<u8, &'static str>)
    ensures
        match temporal_scale(*meta) {
            Ok(s) => r == Ok::<u8, &'static str>(s),
            Err(m) => r matches Err(m3) && m3@ == m,
        },
{
    match meta.scale {
        Some(s) => {
            if s > 7 {
                return Err("missing or invalid temporal scale");
            }
            let time_width: usize = if s <= 2 { 3 } else if s <= 4 { 4 } else { 5 };
            let suffix: usize = if meta.data_type == TdsDataType::DateTime2N {
                3
            } else if meta.data_type == TdsDataType::DateTimeOffsetN {
                5
            } else {
                0
            };
            if meta.length == time_width + suffix {
                Ok(s)
            } else {
                Err("invalid TDS storage width")
            }
        },
        None => Err("missing or invalid temporal scale"),
    }
}

fn column_kind_exec(meta: &ColumnMetadata) -> (r: core::result::Result<(Kind, &'static str), &'static str>)
    ensures
        match column_kind(*meta) {
            Ok((k, n)) => r matches Ok((k3, n3)) && k3 == k && n3@ == n,
            Err(m) => r matches Err(m3) && m3@ == m,
        },
{
    let w = meta.length;
    if meta.flags & 0x0800 != 0 {
        return Err("encrypted columns are unsupported; select an unencrypted projection");
    }
    if meta.data_type != meta.descriptor_type {
        return Err("inconsistent TDS type metadata");
    }
    match meta.data_type {
        TdsDataType::Void => Ok((Kind::Null, "null")),
        TdsDataType::Bit | TdsDataType::BitN => sized_exec(w, 1, Kind::Bool, "bit"),
        TdsDataType::Int1 => sized_exec(w, 1, Kind::U8, "tinyint"),
        TdsDataType::Int2 => sized_exec(w, 2, Kind::I16, "smallint"),
        TdsDataType::Int4 => sized_exec(w, 4, Kind::I32, "int"),
        TdsDataType::Int8 => sized_exec(w, 8, Kind::I64, "bigint"),
        TdsDataType::IntN => if w == 1 {
            Ok((Kind::U8, "tinyint"))
        } else if w == 2 {
            Ok((Kind::I16, "smallint"))
        } else if w == 4 {
            Ok((Kind::I32, "int"))
        } else if w == 8 {
            Ok((Kind::I64, "bigint"))
        } else {
            Err("invalid nullable integer width")
        },
        TdsDataType::Flt4 => sized_exec(w, 4, Kind::F32, "real"),
        TdsDataType::Flt8 => sized_exec(w, 8, Kind::F64, "float"),
        TdsDataType::FltN => if w == 4 {
            Ok((Kind::F32, "real"))
        } else if w == 8 {
            Ok((Kind::F64, "float"))
        } else {
            Err("invalid nullable float width")
        },
        TdsDataType::Money => sized_exec(w, 8, Kind::Money, "money"),
        TdsDataType::Money4 => sized_exec(w, 4, Kind::SmallMoney, "smallmoney"),
        TdsDataType::MoneyN => if w == 4 {
            Ok((Kind::SmallMoney, "smallmoney"))
        } else if w == 8 {
            Ok((Kind::Money, "money"))
        } else {
            Err("invalid nullable money width")
        },
        TdsDataType::Decimal | TdsDataType::DecimalN | TdsDataType::Numeric
        | TdsDataType::NumericN => {
            let p = match meta.precision {
                Some(p) => {
                    if 1 <= p && p <= 38 {
                        p
                    } else {
                        return Err("decimal precision must be in 1..=38");
                    }
                },
                None => return Err("decimal precision must be in 1..=38"),
            };
            let sc = match meta.scale {
                Some(sc) => {
                    if sc <= p {
                        sc
                    } else {
                        return Err("decimal scale must be in 0..=precision");
                    }
                },
                None => return Err("decimal scale must be in 0..=precision"),
            };
            if !(w == 5 || w == 9 || w == 13 || w == 17) {
                return Err("invalid decimal TDS storage width");
            }
            let numeric = meta.data_type == TdsDataType::Numeric || meta.data_type
                == TdsDataType::NumericN;
            Ok(
                (
                    Kind::Decimal { precision: p, scale: sc, numeric },
                    if numeric { "numeric" } else { "decimal" },
                ),
            )
        },
        TdsDataType::VarChar | TdsDataType::BigVarChar => Ok((Kind::Text, "varchar")),
        TdsDataType::Char | TdsDataType::BigChar => Ok((Kind::Text, "char")),
        TdsDataType::NVarChar => Ok((Kind::Text, "nvarchar")),
        TdsDataType::NChar => Ok((Kind::Text, "nchar")),
        TdsDataType::Text => Ok((Kind::Text, "text")),
        TdsDataType::NText => Ok((Kind::Text, "ntext")),
        TdsDataType::Xml => Ok((Kind::Xml, "xml")),
        TdsDataType::Json => Ok((Kind::Json, "json")),
        TdsDataType::Binary | TdsDataType::BigBinary => Ok((Kind::Binary, "binary")),
        TdsDataType::VarBinary | TdsDataType::BigVarBinary => Ok((Kind::Binary, "varbinary")),
        TdsDataType::Image => Ok((Kind::Binary, "image")),
        TdsDataType::Udt => Ok((Kind::Binary, "udt")),
        TdsDataType::Guid => sized_exec(w, 16, Kind::Uuid, "uniqueidentifier"),
        TdsDataType::DateN => sized_exec(w, 3, Kind::Date, "date"),
        TdsDataType::TimeN => match temporal_scale_exec(meta) {
            Ok(s) => Ok((Kind::Time(s), "time")),
            Err(m) => Err(m),
        },
        TdsDataType::DateTime2N => match temporal_scale_exec(meta) {
            Ok(s) => Ok((Kind::DateTime2(s), "datetime2")),
            Err(m) => Err(m),
        },
        TdsDataType::DateTimeOffsetN => match temporal_scale_exec(meta) {
            Ok(s) => Ok((Kind::DateTimeOffset(s), "datetimeoffset")),
            Err(m) => Err(m),
        },
        TdsDataType::DateTime => sized_exec(w, 8, Kind::DateTime, "datetime"),
        TdsDataType::DateTim4 => sized_exec(w, 4, Kind::SmallDateTime, "smalldatetime"),
        TdsDataType::DateTimeN => if w == 4 {
            Ok((Kind::SmallDateTime, "smalldatetime"))
        } else if w == 8 {
            Ok((Kind::DateTime, "datetime"))
        } else {
            Err("invalid nullable datetime width")
        },
        TdsDataType::Vector => match meta.scale {
            Some(0) => {
                if w > VECTOR_HEADER_SIZE && (w - VECTOR_HEADER_SIZE) % 4 == 0 {
                    let dims = (w - VECTOR_HEADER_SIZE) / 4;
                    if dims > float32_max_dimensions() as usize {
                        Err("invalid vector dimensions")
                    } else {
                        Ok((Kind::Vector(dims as i32), "vector"))
                    }
                } else {
                    Err("invalid vector storage width")
                }
            },
            Some(1) => Err(
                "Float16 vectors are unsupported; CAST to vector(n, float32) or varchar(max)",
            ),
            _ => Err("missing or unknown vector base type; CAST to varchar(max)"),
        },
        TdsDataType::SsVariant => Err(
            "sql_variant is unsupported; CAST to a concrete supported SQL type",
        ),
        _ => Err("unsupported SQL type; CAST to a concrete supported SQL type"),
    }
}

/// The Rust `Debug` rendering of a string (quoted, with escapes).
pub uninterp spec fn str_debug_text(s: Seq<char>) -> Seq<char>;

/// The `Debug` rendering of a string, as `format!("{s:?}")` gives it.
#[verifier::external_body]
fn debug_str(s: &str) -> (r: String)
    ensures
        r@ == str_debug_text(s@),
{
    format!("{:?}", s)
}

/// The message of a column that cannot be read as Arrow.
pub open spec fn schema_error_text(meta: ColumnMetadata, reason: Seq<char>) -> Seq<char> {
    quoted_schema_error_text(str_debug_text(meta.column_name@), meta.data_type, reason)
}

/// The message of a column that cannot be read as Arrow, given its quoted
/// name.
pub open spec fn quoted_schema_error_text(quoted: Seq<char>, data_type: TdsDataType, reason: Seq<char>) -> Seq<char> {
    "Arrow column "@ + quoted + " ("@ + spec_debug_name(data_type) + "): "@ + reason
}

/// The conversion error of a column that cannot be read as Arrow, given its
/// name as `Debug` quotes it, its wire type and the reason.
pub fn schema_error(quoted: &str, data_type: TdsDataType, reason: &str) -> (r: Error)
    ensures
        r matches Error::Conversion(m) && m@ == quoted_schema_error_text(quoted@, data_type, reason@),
{
    let mut out: Vec<char> = Vec::new();
    push_str(&mut out, "Arrow column ");
    push_str(&mut out, quoted);
    push_str(&mut out, " (");
    push_str(&mut out, data_type.debug_name());
    push_str(&mut out, "): ");
    push_str(&mut out, reason);
    assert(out@ =~= quoted_schema_error_text(quoted@, data_type, reason@));
    Error::Conversion(string_from_chars(out))
}

/// The `mssql.type` of a column: its SQL type name, or `geography` /
/// `geometry` for the spatial UDTs of schema `sys` (ASCII case-insensitively).
pub open spec fn metadata_type_name(meta: ColumnMetadata, sql_name: Seq<char>) -> Seq<char> {
    match meta.udt_info {
        Some(info) => if eq_ignore_ascii_case_spec(info.schema_name@, "sys"@)
            && eq_ignore_ascii_case_spec(info.udt_name@, "geography"@) {
            "geography"@
        } else if eq_ignore_ascii_case_spec(info.schema_name@, "sys"@) && eq_ignore_ascii_case_spec(
            info.udt_name@,
            "geometry"@,
        ) {
            "geometry"@
        } else {
            sql_name
        },
        None => sql_name,
    }
}

/// Precision and scale recorded in the metadata: the fixed ones of money,
/// none for vectors (whose scale is a base type), the descriptor's otherwise.
pub open spec fn recorded_precision_scale(meta: ColumnMetadata, k: Kind) -> (Option<u8>, Option<u8>) {
    match k {
        Kind::Money => (Some(19u8), Some(4u8)),
        Kind::SmallMoney => (Some(10u8), Some(4u8)),
        Kind::Vector(_) => (None, None),
        _ => (meta.precision, meta.scale),
    }
}

/// The field metadata of a column, in order, each key once: type names,
/// length and user type; precision and scale; collation; UDT identity;
/// vector shape; and the UTC time basis of datetimeoffset.
pub open spec fn metadata_pairs(meta: ColumnMetadata, k: Kind, sql_name: Seq<char>) -> Seq<(Seq<char>, Seq<char>)> {
    let base = seq![
        ("mssql.type"@, metadata_type_name(meta, sql_name)),
        ("mssql.tds_type"@, spec_debug_name(meta.data_type)),
        ("mssql.length"@, decimal_digits(meta.length as nat)),
        ("mssql.user_type"@, decimal_digits(meta.user_type as nat)),
    ];
    let (precision, scale) = recorded_precision_scale(meta, k);
    let p = match precision {
        Some(v) => seq![("mssql.precision"@, decimal_digits(v as nat))],
        None => Seq::empty(),
    };
    let s = match scale {
        Some(v) => seq![("mssql.scale"@, decimal_digits(v as nat))],
        None => Seq::empty(),
    };
    let c = match meta.collation {
        Some(col) => seq![
            ("mssql.collation.info"@, decimal_digits(col.info as nat)),
            ("mssql.collation.lcid"@, int_text(col.lcid_language_id as int)),
            ("mssql.collation.flags"@, decimal_digits(col.col_flags as nat)),
            ("mssql.collation.sort_id"@, decimal_digits(col.sort_id as nat)),
        ],
        None => Seq::empty(),
    };
    let u = match meta.udt_info {
        Some(info) => seq![
            ("mssql.udt.database"@, info.db_name@),
            ("mssql.udt.schema"@, info.schema_name@),
            ("mssql.udt.name"@, info.udt_name@),
            ("mssql.udt.assembly_qualified_name"@, info.assembly_qualified_name@),
            ("mssql.udt.max_byte_size"@, decimal_digits(info.max_byte_size as nat)),
        ],
        None => Seq::empty(),
    };
    let v = match k {
        Kind::Vector(n) => seq![
            ("mssql.vector.dimensions"@, int_text(n as int)),
            ("mssql.vector.base_type"@, "float32"@),
        ],
        _ => Seq::empty(),
    };
    let t = if k is DateTimeOffset {
        seq![("mssql.time_basis"@, "UTC"@)]
    } else {
        Seq::empty()
    };
    base + p + s + c + u + v + t
}

/// The view of metadata entries.
pub open spec fn pairs_view(v: Seq<(String, String)>) -> Seq<(Seq<char>, Seq<char>)> {
    v.map_values(|e: (String, String)| (e.0@, e.1@))
}

fn push_pair(v: &mut Vec<(String, String)>, key: &str, value: String)
    ensures
        pairs_view(final(v)@) == pairs_view(old(v)@).push((key@, value@)),
{
    v.push((String::from_str(key), value));
    assert(pairs_view(v@) =~= pairs_view(old(v)@).push((key@, value@)));
}

fn signed_string(i: i128) -> (r: String)
    ensures
        r@ == int_text(i as int),
{
    let mut out: Vec<char> = Vec::new();
    push_signed(&mut out, i);
    assert(out@ =~= int_text(i as int));
    string_from_chars(out)
}

fn type_name_exec(meta: &ColumnMetadata, sql_name: &'static str) -> (r: String)
    ensures
        r@ == metadata_type_name(*meta, sql_name@),
{
    match &meta.udt_info {
        Some(info) => {
            let sys = eq_ignore_ascii_case(info.schema_name.as_str(), "sys");
            if sys && eq_ignore_ascii_case(info.udt_name.as_str(), "geography") {
                String::from_str("geography")
            } else if sys && eq_ignore_ascii_case(info.udt_name.as_str(), "geometry") {
                String::from_str("geometry")
            } else {
                String::from_str(sql_name)
            }
        },
        None => String::from_str(sql_name),
    }
}

fn field_metadata(meta: &ColumnMetadata, k: Kind, sql_name: &'static str) -> (r: Vec<(String, String)>)
    ensures
        pairs_view(r@) == metadata_pairs(*meta, k, sql_name@),
{
    let mut v: Vec<(String, String)> = Vec::new();
    push_pair(&mut v, "mssql.type", type_name_exec(meta, sql_name));
    push_pair(&mut v, "mssql.tds_type", String::from_str(meta.data_type.debug_name()));
    push_pair(&mut v, "mssql.length", decimal_string(meta.length as u128));
    push_pair(&mut v, "mssql.user_type", decimal_string(meta.user_type as u128));
    let ghost base = pairs_view(v@);
    let (precision, scale) = match k {
        Kind::Money => (Some(19u8), Some(4u8)),
        Kind::SmallMoney => (Some(10u8), Some(4u8)),
        Kind::Vector(_) => (None, None),
        _ => (meta.precision, meta.scale),
    };
    if let Some(p) = precision {
        push_pair(&mut v, "mssql.precision", decimal_string(p as u128));
    }
    let ghost after_p = pairs_view(v@);
    if let Some(s) = scale {
        push_pair(&mut v, "mssql.scale", decimal_string(s as u128));
    }
    let ghost after_s = pairs_view(v@);
    if let Some(col) = meta.collation {
        push_pair(&mut v, "mssql.collation.info", decimal_string(col.info as u128));
        push_pair(&mut v, "mssql.collation.lcid", signed_string(col.lcid_language_id as i128));
        push_pair(&mut v, "mssql.collation.flags", decimal_string(col.col_flags as u128));
        push_pair(&mut v, "mssql.collation.sort_id", decimal_string(col.sort_id as u128));
    }
    let ghost after_c = pairs_view(v@);
    if let Some(info) = &meta.udt_info {
        push_pair(&mut v, "mssql.udt.database", info.db_name.clone());
        push_pair(&mut v, "mssql.udt.schema", info.schema_name.clone());
        push_pair(&mut v, "mssql.udt.name", info.udt_name.clone());
        push_pair(&mut v, "mssql.udt.assembly_qualified_name", info.assembly_qualified_name.clone());
        push_pair(&mut v, "mssql.udt.max_byte_size", decimal_string(info.max_byte_size as u128));
    }
    let ghost after_u = pairs_view(v@);
    if let Kind::Vector(n) = k {
        push_pair(&mut v, "mssql.vector.dimensions", signed_string(n as i128));
        push_pair(&mut v, "mssql.vector.base_type", String::from_str("float32"));
    }
    let ghost after_v = pairs_view(v@);
    if let Kind::DateTimeOffset(_) = k {
        push_pair(&mut v, "mssql.time_basis", String::from_str("UTC"));
    }
    assert(pairs_view(v@) =~= metadata_pairs(*meta, k, sql_name@));
    v
}

/// The Arrow kind and field of one result column, or the conversion error
/// that rejects it (see [`column_kind`] for the rules, [`metadata_pairs`] for
/// the field metadata).
pub fn column_schema(meta: &ColumnMetadata) -> (r: Result<(Kind, ArrowField)>)
    ensures
        match column_kind(*meta) {
            Err(reason) => r matches Err(Error::Conversion(m)) && m@ == schema_error_text(*meta, reason),
            Ok((k, name)) => {
                &&& r matches Ok((k2, f))
                &&& k2 == k
                &&& kind_valid(k)
                &&& f.name@ == meta.column_name@
                &&& f.nullable == flag_set(meta.flags, 0x0001)
                &&& pairs_view(f.metadata@) == metadata_pairs(*meta, k, name)
                &&& (is_temporal_struct(k) ==> (f.data_type matches ArrowDataType::Struct(c) && children_view(c@) == temporal_children(k)))
                &&& (!is_temporal_struct(k) ==> f.data_type == spec_data_type(k))
            },
        },
{
    match column_kind_exec(meta) {
        Err(reason) => {
            let quoted = debug_str(meta.column_name.as_str());
            Err(schema_error(quoted.as_str(), meta.data_type, reason))
        },
        Ok((kind, sql_name)) => {
            let metadata = field_metadata(meta, kind, sql_name);
            let field = ArrowField {
                name: meta.column_name.clone(),
                data_type: kind.data_type(),
                nullable: meta.is_nullable(),
                metadata,
            };
            Ok((kind, field))
        },
    }
}

/// Days from 0001-01-01 to 1970-01-01.
pub const SQL_EPOCH_DAYS: i32 = 719_162;

/// Days from 1900-01-01 to 1970-01-01.
pub const SQL_1900_EPOCH_DAYS: i32 = 25_567;

/// Largest day number of SQL Server's 0001-01-01..9999-12-31 range.
pub const MAX_SQL_DAYS: u32 = 3_652_058;

/// 100-nanosecond ticks per day.
pub const TICKS_PER_DAY: u64 = 864_000_000_000;

/// The `Debug` rendering of a kind, as `derive(Debug)` writes it.
pub open spec fn kind_debug_text(k: Kind) -> Seq<char> {
    match k {
        Kind::Null => "Null"@,
        Kind::Bool => "Bool"@,
        Kind::U8 => "U8"@,
        Kind::I16 => "I16"@,
        Kind::I32 => "I32"@,
        Kind::I64 => "I64"@,
        Kind::F32 => "F32"@,
        Kind::F64 => "F64"@,
        Kind::Text => "Text"@,
        Kind::Binary => "Binary"@,
        Kind::Xml => "Xml"@,
        Kind::Json => "Json"@,
        Kind::Uuid => "Uuid"@,
        Kind::Decimal { precision, scale, numeric } => "Decimal { precision: "@ + decimal_digits(
            precision as nat,
        ) + ", scale: "@ + decimal_digits(scale as nat) + ", numeric: "@ + (if numeric {
            "true"@
        } else {
            "false"@
        }) + " }"@,
        Kind::Money => "Money"@,
        Kind::SmallMoney => "SmallMoney"@,
        Kind::Date => "Date"@,
        Kind::Time(s) => "Time("@ + decimal_digits(s as nat) + ")"@,
        Kind::DateTime => "DateTime"@,
        Kind::SmallDateTime => "SmallDateTime"@,
        Kind::DateTime2(s) => "DateTime2("@ + decimal_digits(s as nat) + ")"@,
        Kind::DateTimeOffset(s) => "DateTimeOffset("@ + decimal_digits(s as nat) + ")"@,
        Kind::Vector(n) => "Vector("@ + int_text(n as int) + ")"@,
    }
}

fn push_kind_debug(out: &mut Vec<char>, k: Kind)
    ensures
        final(out)@ == old(out)@ + kind_debug_text(k),
{
    let ghost start = out@;
    match k {
        Kind::Null => push_str(out, "Null"),
        Kind::Bool => push_str(out, "Bool"),
        Kind::U8 => push_str(out, "U8"),
        Kind::I16 => push_str(out, "I16"),
        Kind::I32 => push_str(out, "I32"),
        Kind::I64 => push_str(out, "I64"),
        Kind::F32 => push_str(out, "F32"),
        Kind::F64 => push_str(out, "F64"),
        Kind::Text => push_str(out, "Text"),
        Kind::Binary => push_str(out, "Binary"),
        Kind::Xml => push_str(out, "Xml"),
        Kind::Json => push_str(out, "Json"),
        Kind::Uuid => push_str(out, "Uuid"),
        Kind::Decimal { precision, scale, numeric } => {
            push_str(out, "Decimal { precision: ");
            push_decimal(out, precision as u128);
            push_str(out, ", scale: ");
            push_decimal(out, scale as u128);
            push_str(out, ", numeric: ");
            if numeric {
                push_str(out, "true");
            } else {
                push_str(out, "false");
            }
            push_str(out, " }");
        },
        Kind::Money => push_str(out, "Money"),
        Kind::SmallMoney => push_str(out, "SmallMoney"),
        Kind::Date => push_str(out, "Date"),
        Kind::Time(sc) => {
            push_str(out, "Time(");
            push_decimal(out, sc as u128);
            push_str(out, ")");
        },
        Kind::DateTime => push_str(out, "DateTime"),
        Kind::SmallDateTime => push_str(out, "SmallDateTime"),
        Kind::DateTime2(sc) => {
            push_str(out, "DateTime2(");
            push_decimal(out, sc as u128);
            push_str(out, ")");
        },
        Kind::DateTimeOffset(sc) => {
            push_str(out, "DateTimeOffset(");
            push_decimal(out, sc as u128);
            push_str(out, ")");
        },
        Kind::Vector(n) => {
            push_str(out, "Vector(");
            push_signed(out, n as i128);
            push_str(out, ")");
        },
    }
    assert(out@ =~= start + kind_debug_text(k));
}

/// The columns of a result in order: their kinds and the logical bytes of a
/// row estimated for the first allocation; or the message of the first
/// column that cannot be read, or of an estimate beyond the buffer size.
pub open spec fn scan_columns(ms: Seq<ColumnMetadata>) -> core::result::Result<(Seq<Kind>, int), Seq<char>>
    decreases ms.len(),
{
    if ms.len() == 0 {
        Ok((Seq::empty(), 0))
    } else {
        match scan_columns(ms.drop_last()) {
            Err(m) => Err(m),
            Ok((ks, est)) => match column_kind(ms.last()) {
                Err(reason) => Err(schema_error_text(ms.last(), reason)),
                Ok((k, _)) => {
                    let e2 = est + spec_initial_payload(k) + spec_overhead(k);
                    if e2 > max_buffer() {
                        Err(capacity_text())
                    } else {
                        Ok((ks.push(k), e2))
                    }
                },
            },
        }
    }
}

/// Rows of the first allocation of each batch: at most `batch_size` and the
/// default row count, and no more estimated rows than fit in the smaller of
/// `batch_bytes` and the default byte target.
pub open spec fn initial_rows_for(o: ArrowOptions, estimated_row: int) -> int {
    let by_rows = if o.batch_size < DEFAULT_ROWS { o.batch_size as int } else { DEFAULT_ROWS as int };
    let bytes = if o.batch_bytes < DEFAULT_BYTES { o.batch_bytes as int } else { DEFAULT_BYTES as int };
    let by_bytes = bytes / (if estimated_row > 1 { estimated_row } else { 1 });
    if by_rows < by_bytes { by_rows } else { by_bytes }
}

/// The accounting state of an Arrow batch writer.
pub struct WriterView {
    /// Kind of each column.
    pub kinds: Seq<Kind>,
    /// Nullability of each column.
    pub nullable: Seq<bool>,
    /// Targets and limits.
    pub options: ArrowOptions,
    /// Rows of the first allocation of each batch.
    pub initial_rows: usize,
    /// Completed rows in the current batch.
    pub rows: usize,
    /// Logical bytes of the completed rows of the current batch.
    pub bytes: usize,
    /// The next column the current row expects.
    pub next_col: usize,
    /// Logical bytes of the current row so far.
    pub row_bytes: usize,
    /// Logical bytes of the last completed row.
    pub last_row_bytes: usize,
    /// The first conversion error, until it is taken.
    pub error: Option<Error>,
    /// Whether a conversion error has poisoned the writer.
    pub failed: bool,
}

/// Row and byte accounting of an Arrow batch writer: which column a callback
/// must write next, whether a value and a row stay within the limits, when a
/// batch is full, and the first error, which poisons the writer.
pub struct ArrowRowWriter {
    kinds: Vec<Kind>,
    nullable: Vec<bool>,
    options: ArrowOptions,
    initial_rows: usize,
    rows: usize,
    bytes: usize,
    next_col: usize,
    row_bytes: usize,
    last_row_bytes: usize,
    error: Option<Error>,
    failed: bool,
}

impl View for ArrowRowWriter {
    type V = WriterView;

    closed spec fn view(&self) -> WriterView {
        WriterView {
            kinds: self.kinds@,
            nullable: self.nullable@,
            options: self.options,
            initial_rows: self.initial_rows,
            rows: self.rows,
            bytes: self.bytes,
            next_col: self.next_col,
            row_bytes: self.row_bytes,
            last_row_bytes: self.last_row_bytes,
            error: self.error,
            failed: self.failed,
        }
    }
}

/// The accounting invariant: one nullability per column, valid kinds, the
/// current row within the schema, counts within the buffer size, and an
/// error only in a poisoned writer.
pub open spec fn writer_inv(w: WriterView) -> bool {
    &&& w.kinds.len() == w.nullable.len()
    &&& forall|i: int| 0 <= i < w.kinds.len() ==> kind_valid(#[trigger] w.kinds[i])
    &&& w.next_col <= w.kinds.len()
    &&& w.rows <= max_buffer()
    &&& w.bytes <= max_buffer()
    &&& w.row_bytes <= max_buffer()
    &&& (w.error is Some ==> w.failed)
}

/// The message of a callback for another column than the next one.
pub open spec fn column_order_text(col: usize, expected: usize) -> Seq<char> {
    "Arrow callback column "@ + decimal_digits(col as nat) + ", expected "@ + decimal_digits(
        expected as nat,
    )
}

/// The message of a callback type that differs from the column's kind.
pub open spec fn type_mismatch_text(expected: Kind, col: usize, actual: Kind) -> Seq<char> {
    "Arrow callback type "@ + kind_debug_text(expected) + " does not match column "@
        + decimal_digits(col as nat) + " ("@ + kind_debug_text(actual) + ")"@
}

/// Whether a value of `size` bytes exceeds the value limit or the buffer.
pub open spec fn value_too_large(o: ArrowOptions, size: usize) -> bool {
    size > max_buffer() || (o.max_value_bytes matches Some(limit) && size > limit)
}

/// The logical bytes of the current row after one more value of `kind` with
/// `payload` bytes; `None` when the value or the row breaks a limit or the
/// batch would pass the buffer size.
pub open spec fn spec_prospective(w: WriterView, kind: Kind, payload: usize) -> Option<int> {
    let row = w.row_bytes + payload + spec_overhead(kind);
    if value_too_large(w.options, payload) || payload + spec_overhead(kind) > max_buffer() || row
        > max_buffer() || (w.options.max_row_bytes matches Some(limit) && row > limit) || w.bytes
        + row > max_buffer() {
        None
    } else {
        Some(row)
    }
}

/// How the bytes of a text value are encoded.
#[derive(Debug, Clone, Copy, PartialEq, Eq, Structural)]
pub enum TextEncoding {
    /// UTF-8.
    Utf8,
    /// UTF-16LE.
    Utf16,
    /// The code page of a collation's LCID.
    Collation(Collation),
    /// Not known yet (the connection's collation was not set).
    Unresolved,
}

/// What `SqlString::decode` of mssql-tds returns for `bytes` in `encoding`.
pub uninterp spec fn decoded_text(bytes: Seq<u8>, encoding: TextEncoding) -> Seq<char>;

/// `SqlString::decode` of mssql-tds for UTF-16LE or a collation's code page
/// (Windows-1252 when the LCID is not mapped): BOM sniffing, and malformed
/// sequences replaced by U+FFFD. The contract names the decoded text; it
/// says nothing of its content.
#[verifier::external_body]
fn decode_text(bytes: &[u8], encoding: TextEncoding) -> (r: String)
    requires
        encoding is Utf16 || encoding is Collation,
    ensures
        r@ == decoded_text(bytes@, encoding),
{
    let native = match encoding {
        TextEncoding::Collation(c) => EncodingType::LcidBased(SqlCollation {
            info: c.info,
            lcid_language_id: c.lcid_language_id,
            col_flags: c.col_flags,
            sort_id: c.sort_id,
        }),
        _ => EncodingType::Utf16,
    };
    SqlString::decode(bytes, native)
}

/// The `Display` text of the `Utf8Error` that `std::str::from_utf8` returns
/// for `bytes`.
pub uninterp spec fn utf8_error_text(bytes: Seq<u8>) -> Seq<char>;

/// `std::str::from_utf8`: the text of valid UTF-8, or the message of the
/// error for invalid input. The contract states validity and the decoded
/// text with vstd's UTF-8 definitions, and names the message.
#[verifier::external_body]
fn utf8_text(bytes: &[u8]) -> (r: core::result::Result<String, String>)
    ensures
        match r {
            Ok(t) => valid_utf8(bytes@) && t@ == decode_utf8(bytes@),
            Err(m) => !valid_utf8(bytes@) && m@ == utf8_error_text(bytes@),
        },
{
    match std::str::from_utf8(bytes) {
        Ok(text) => Ok(text.to_string()),
        Err(e) => Err(format!("{e}")),
    }
}

/// The converted text of a value and its UTF-8 size, or the message of the
/// conversion error.
pub open spec fn converted_text(col: usize, bytes: Seq<u8>, encoding: TextEncoding) -> core::result::Result<(Seq<char>, int), Seq<char>> {
    match encoding {
        TextEncoding::Utf8 => if valid_utf8(bytes) {
            Ok((decode_utf8(bytes), bytes.len() as int))
        } else {
            Err("Invalid UTF-8 in Arrow column "@ + decimal_digits(col as nat) + ": "@ + utf8_error_text(bytes))
        },
        TextEncoding::Unresolved => Err("Unresolved string encoding in Arrow column"@),
        _ => Ok((decoded_text(bytes, encoding), encode_utf8(decoded_text(bytes, encoding)).len() as int)),
    }
}

/// The message of a value payload beyond `max_value_bytes` or the buffer.
pub open spec fn value_limit_text(size: usize) -> Seq<char> {
    "Arrow value payload of "@ + decimal_digits(size as nat) + " bytes exceeds max_value_bytes or buffer capacity"@
}

/// The message of a value that the row cannot take (see
/// [`spec_prospective`]): the value limit, the buffer size of the value or
/// of the row, `max_row_bytes`, or the buffer size of the batch, checked in
/// that order.
pub open spec fn prospective_error_text(w: WriterView, kind: Kind, payload: usize) -> Seq<char> {
    let with = payload + spec_overhead(kind);
    let row = w.row_bytes + with;
    if value_too_large(w.options, payload) {
        value_limit_text(payload)
    } else if with > max_buffer() || row > max_buffer() {
        capacity_text()
    } else if w.options.max_row_bytes matches Some(limit) && row > limit {
        "Arrow row estimate of "@ + decimal_digits(row as nat) + " bytes exceeds max_row_bytes"@
    } else {
        capacity_text()
    }
}

/// What one chunk of a memory-bounded decode does (see
/// [`ArrowRowWriter::decode_step`]): the running size `size` plus the
/// chunk's `written` bytes must stay within the buffer size and the limits
/// (else the message of the first broken one); then a chunk that read the
/// input to its end ends the decode (`Ok(None)`), one that read and wrote
/// nothing fails, and any other gives the new running size.
pub open spec fn decode_step_result(
    w: WriterView,
    expected: Kind,
    size: usize,
    done: bool,
    read: usize,
    written: usize,
) -> core::result::Result<Option<usize>, Seq<char>> {
    let n = size + written;
    if n > max_buffer() {
        Err(capacity_text())
    } else if spec_prospective(w, expected, n as usize) is None {
        Err(prospective_error_text(w, expected, n as usize))
    } else if done {
        Ok(None)
    } else if read == 0 && written == 0 {
        Err("Arrow string decoder made no progress"@)
    } else {
        Ok(Some(n as usize))
    }
}

/// Whether a value or row limit is set.
pub open spec fn limits_set(o: ArrowOptions) -> bool {
    o.max_value_bytes is Some || o.max_row_bytes is Some
}

/// The message of converted text of `size` bytes that the row cannot take:
/// decoded text under a limit is measured chunk by chunk (see
/// [`decode_outcome_text`]); otherwise the whole size gives the error.
pub open spec fn text_limit_error_text(
    w: WriterView,
    expected: Kind,
    size: usize,
    bytes: Seq<u8>,
    encoding: TextEncoding,
) -> Seq<char> {
    if !(encoding is Utf8) && limits_set(w.options) {
        decode_outcome_text(w, expected, size, bytes, encoding, 0, 0, decode_rounds(bytes.len()))
    } else {
        prospective_error_text(w, expected, size)
    }
}

/// The most chunks a memory-bounded decode of `len` input bytes is given.
pub open spec fn decode_rounds(len: nat) -> nat {
    if len < usize::MAX / 8 {
        len * 4 + 8
    } else {
        usize::MAX as nat
    }
}

/// The message of text of `full` decoded bytes that breaks a limit, as the
/// chunks of its memory-bounded decode meet it: from chunk number `call`
/// on, with `size` bytes decoded so far and at most `fuel` chunks left, the
/// message of the first chunk that fails, else that of `full`.
pub open spec fn decode_outcome_text(
    w: WriterView,
    expected: Kind,
    full: usize,
    input: Seq<u8>,
    encoding: TextEncoding,
    call: nat,
    size: usize,
    fuel: nat,
) -> Seq<char>
    decreases fuel,
{
    if fuel == 0 {
        prospective_error_text(w, expected, full)
    } else {
        let chunk = decoder_chunk(input, encoding, call);
        match decode_step_result(w, expected, size, chunk.0, chunk.1, chunk.2) {
            Err(m) => m,
            Ok(None) => prospective_error_text(w, expected, full),
            Ok(Some(n)) => decode_outcome_text(w, expected, full, input, encoding, call + 1, n, (fuel - 1) as nat),
        }
    }
}

impl ArrowRowWriter {
    /// A writer for a result with the given columns: the options are
    /// checked, every column must have an Arrow kind, and the first
    /// allocation of each batch is sized by the estimated row.
    pub fn new(metadata: &[ColumnMetadata], options: ArrowOptions) -> (r: Result<(Self, Vec<ArrowField>)>)
        ensures
            match options_error(options) {
                Some(m) => r matches Err(Error::Conversion(msg)) && msg@ == m,
                None => match scan_columns(metadata@) {
                    Err(m) => r matches Err(Error::Conversion(msg)) && msg@ == m,
                    Ok((kinds, est)) => {
                        &&& r matches Ok((w, fields))
                        &&& writer_inv(w@)
                        &&& w@.kinds == kinds
                        &&& fields@.len() == metadata@.len()
                        &&& forall|i: int| 0 <= i < metadata@.len() ==> #[trigger] w@.nullable[i] == flag_set(metadata@[i].flags, 0x0001)
                        &&& w@.options == options
                        &&& w@.initial_rows == initial_rows_for(options, est)
                        &&& w@.rows == 0 && w@.bytes == 0 && w@.next_col == 0
                        &&& w@.row_bytes == 0 && w@.last_row_bytes == 0
                        &&& w@.error is None && !w@.failed
                    },
                },
            },
    {
        options.validate()?;
        let mut kinds: Vec<Kind> = Vec::new();
        let mut nullable: Vec<bool> = Vec::new();
        let mut fields: Vec<ArrowField> = Vec::new();
        let mut estimated_row: usize = 0;
        let mut i: usize = 0;
        while i < metadata.len()
            invariant
                0 <= i <= metadata@.len(),
                options_error(options) is None,
                scan_columns(metadata@.subrange(0, i as int)) == Ok::<(Seq<Kind>, int), Seq<char>>((kinds@, estimated_row as int)),
                kinds@.len() == i,
                nullable@.len() == i,
                fields@.len() == i,
                forall|k: int| 0 <= k < i ==> kind_valid(#[trigger] kinds@[k]),
                forall|k: int| 0 <= k < i ==> #[trigger] nullable@[k] == flag_set(metadata@[k].flags, 0x0001),
                estimated_row <= max_buffer(),
            decreases metadata@.len() - i,
        {
            proof {
                let sub = metadata@.subrange(0, i + 1);
                assert(sub.drop_last() =~= metadata@.subrange(0, i as int));
                assert(sub.last() == metadata@[i as int]);
            }
            let (kind, field) = match column_schema(&metadata[i]) {
                Ok(pair) => pair,
                Err(e) => {
                    proof { lemma_scan_error_extends(metadata@, i as int + 1); }
                    return Err(e);
                },
            };
            let per_row = kind.initial_payload() + kind.overhead();
            estimated_row = match checked_add(estimated_row, per_row) {
                Ok(n) => n,
                Err(e) => {
                    proof { lemma_scan_error_extends(metadata@, i as int + 1); }
                    return Err(e);
                },
            };
            kinds.push(kind);
            nullable.push(metadata[i].is_nullable());
            fields.push(field);
            i = i + 1;
        }
        assert(metadata@.subrange(0, metadata@.len() as int) =~= metadata@);
        let by_rows = if options.batch_size < DEFAULT_ROWS { options.batch_size } else { DEFAULT_ROWS };
        let bytes = if options.batch_bytes < DEFAULT_BYTES { options.batch_bytes } else { DEFAULT_BYTES };
        let by_bytes = bytes / (if estimated_row > 1 { estimated_row } else { 1 });
        let initial_rows = if by_rows < by_bytes { by_rows } else { by_bytes };
        let w = ArrowRowWriter {
            kinds,
            nullable,
            options,
            initial_rows,
            rows: 0,
            bytes: 0,
            next_col: 0,
            row_bytes: 0,
            last_row_bytes: 0,
            error: None,
            failed: false,
        };
        Ok((w, fields))
    }

    /// Hands out the first conversion error, if any; the writer stays
    /// poisoned.
    pub fn check_error(&mut self) -> (r: Result<()>)
        requires
            writer_inv(old(self)@),
        ensures
            writer_inv(final(self)@),
            match old(self)@.error {
                Some(e) => r == Err::<(), Error>(e),
                None => r is Ok,
            },
            final(self)@ == (WriterView { error: None, ..old(self)@ }),
    {
        match self.error.take() {
            Some(e) => Err(e),
            None => Ok(()),
        }
    }

    /// Completed rows in the current batch.
    pub fn row_count(&self) -> (r: usize)
        ensures
            r == self@.rows,
    {
        self.rows
    }

    /// Logical bytes of the last completed row.
    pub fn last_row_bytes(&self) -> (r: usize)
        ensures
            r == self@.last_row_bytes,
    {
        self.last_row_bytes
    }

    /// Rows of the first allocation of each batch.
    pub fn initial_rows(&self) -> (r: usize)
        ensures
            r == self@.initial_rows,
    {
        self.initial_rows
    }

    /// The batch targets and limits the writer was made with.
    pub fn options(&self) -> (r: ArrowOptions)
        ensures
            r == self@.options,
    {
        self.options
    }

    /// Whether a conversion error has poisoned the writer.
    pub fn is_failed(&self) -> (r: bool)
        ensures
            r == self@.failed,
    {
        self.failed
    }

    /// The kind of each column.
    pub fn kinds(&self) -> (r: &Vec<Kind>)
        ensures
            r@ == self@.kinds,
    {
        &self.kinds
    }

    /// Whether the batch is full: `batch_size` rows or `batch_bytes` logical
    /// bytes (a single row may overshoot the byte target).
    pub fn should_flush(&self) -> (r: bool)
        ensures
            r == (self@.rows >= self@.options.batch_size || self@.bytes >= self@.options.batch_bytes),
    {
        self.rows >= self.options.batch_size || self.bytes >= self.options.batch_bytes
    }

    /// Checks that a batch can be published: no pending error, no poisoned
    /// writer, no unfinished row (which poisons the writer).
    pub fn begin_batch(&mut self) -> (r: Result<()>)
        requires
            writer_inv(old(self)@),
        ensures
            writer_inv(final(self)@),
            match old(self)@.error {
                Some(e) => r == Err::<(), Error>(e) && final(self)@ == (WriterView { error: None, ..old(self)@ }),
                None => if old(self)@.failed {
                    r matches Err(Error::Conversion(m)) && m@ == "Arrow writer is unusable after a conversion error"@
                        && final(self)@ == old(self)@
                } else if old(self)@.next_col != 0 {
                    r matches Err(Error::Conversion(m)) && m@ == "Cannot publish an unfinished Arrow row"@
                        && final(self)@ == (WriterView { failed: true, ..old(self)@ })
                } else {
                    r is Ok && final(self)@ == old(self)@
                },
            },
    {
        self.check_error()?;
        if self.failed {
            return Err(Error::Conversion(String::from_str("Arrow writer is unusable after a conversion error")));
        }
        if self.next_col != 0 {
            self.failed = true;
            return Err(Error::Conversion(String::from_str("Cannot publish an unfinished Arrow row")));
        }
        Ok(())
    }

    /// Records that the batch could not be assembled: the writer is poisoned.
    pub fn batch_failed(&mut self)
        requires
            writer_inv(old(self)@),
        ensures
            writer_inv(final(self)@),
            final(self)@ == (WriterView { failed: true, ..old(self)@ }),
    {
        self.failed = true;
    }

    /// Starts the next batch after one was published: all counts return to
    /// zero.
    pub fn finish_batch(&mut self)
        requires
            writer_inv(old(self)@),
        ensures
            writer_inv(final(self)@),
            final(self)@ == (WriterView { rows: 0, bytes: 0, row_bytes: 0, last_row_bytes: 0, ..old(self)@ }),
    {
        self.rows = 0;
        self.bytes = 0;
        self.row_bytes = 0;
        self.last_row_bytes = 0;
    }

    /// Poisons the writer with `error`; only the first error is kept.
    pub fn fail(&mut self, error: Error)
        requires
            writer_inv(old(self)@),
        ensures
            writer_inv(final(self)@),
            old(self)@.failed ==> final(self)@ == old(self)@,
            !old(self)@.failed ==> final(self)@ == (WriterView { error: Some(error), failed: true, ..old(self)@ }),
    {
        if !self.failed {
            self.error = Some(error);
            self.failed = true;
        }
    }

    /// The kind of the column that a callback writes, which must be the next
    /// column of the row.
    pub fn kind(&self, col: usize) -> (r: Result<Kind>)
        requires
            writer_inv(self@),
        ensures
            col != self@.next_col ==> (r matches Err(Error::Conversion(m)) && m@ == column_order_text(col, self@.next_col)),
            col == self@.next_col && col < self@.kinds.len() ==> r == Ok::<Kind, Error>(self@.kinds[col as int]),
            col == self@.next_col && col >= self@.kinds.len() ==> (r matches Err(Error::Conversion(m))
                && m@ == "Arrow callback column "@ + decimal_digits(col as nat) + " is outside the result schema"@),
    {
        if col != self.next_col {
            let mut out: Vec<char> = Vec::new();
            push_str(&mut out, "Arrow callback column ");
            push_decimal(&mut out, col as u128);
            push_str(&mut out, ", expected ");
            push_decimal(&mut out, self.next_col as u128);
            assert(out@ =~= column_order_text(col, self@.next_col));
            return Err(Error::Conversion(string_from_chars(out)));
        }
        if col < self.kinds.len() {
            Ok(self.kinds[col])
        } else {
            let mut out: Vec<char> = Vec::new();
            push_str(&mut out, "Arrow callback column ");
            push_decimal(&mut out, col as u128);
            push_str(&mut out, " is outside the result schema");
            Err(Error::Conversion(string_from_chars(out)))
        }
    }

    /// Checks one value's payload against `max_value_bytes` and the buffer
    /// size.
    pub fn value_limit(&self, size: usize) -> (r: Result<()>)
        ensures
            r is Ok <==> !value_too_large(self@.options, size),
            r matches Err(e) ==> (e matches Error::Conversion(m) && m@ == value_limit_text(size)),
    {
        let over = match self.options.max_value_bytes {
            Some(limit) => size > limit,
            None => false,
        };
        if size > isize::MAX as usize || over {
            let mut out: Vec<char> = Vec::new();
            push_str(&mut out, "Arrow value payload of ");
            push_decimal(&mut out, size as u128);
            push_str(&mut out, " bytes exceeds max_value_bytes or buffer capacity");
            return Err(Error::Conversion(string_from_chars(out)));
        }
        Ok(())
    }

    /// The logical bytes of the current row after one more value, checked
    /// against the value and row limits and the buffer size.
    pub fn prospective_bytes(&self, kind: Kind, payload: usize) -> (r: Result<usize>)
        requires
            writer_inv(self@),
            kind_valid(kind),
        ensures
            match spec_prospective(self@, kind, payload) {
                Some(row) => r == Ok::<usize, Error>(row as usize),
                None => r matches Err(Error::Conversion(m)) && m@ == prospective_error_text(self@, kind, payload),
            },
    {
        self.value_limit(payload)?;
        let with_overhead = checked_add(payload, kind.overhead())?;
        let row_bytes = checked_add(self.row_bytes, with_overhead)?;
        let over = match self.options.max_row_bytes {
            Some(limit) => row_bytes > limit,
            None => false,
        };
        if over {
            let mut out: Vec<char> = Vec::new();
            push_str(&mut out, "Arrow row estimate of ");
            push_decimal(&mut out, row_bytes as u128);
            push_str(&mut out, " bytes exceeds max_row_bytes");
            return Err(Error::Conversion(string_from_chars(out)));
        }
        checked_add(self.bytes, row_bytes)?;
        Ok(row_bytes)
    }

    /// Checks a callback for the next column: its kind must be the column's
    /// and the value must fit the limits. Returns the row's logical bytes
    /// with the value, to [`commit_value`](Self::commit_value) once written.
    pub fn begin_value(&self, col: usize, expected: Kind, payload: usize) -> (r: Result<usize>)
        requires
            writer_inv(self@),
        ensures
            r is Ok <==> (col == self@.next_col && col < self@.kinds.len() && self@.kinds[col as int] == expected
                && spec_prospective(self@, expected, payload) is Some),
            r matches Ok(row) ==> row == spec_prospective(self@, expected, payload).unwrap(),
            col == self@.next_col && col < self@.kinds.len() && self@.kinds[col as int] != expected ==> (
                r matches Err(Error::Conversion(m)) && m@ == type_mismatch_text(expected, col, self@.kinds[col as int])),
            r matches Err(e) ==> e is Conversion,
    {
        let actual = self.kind(col)?;
        if actual != expected {
            let mut out: Vec<char> = Vec::new();
            push_str(&mut out, "Arrow callback type ");
            push_kind_debug(&mut out, expected);
            push_str(&mut out, " does not match column ");
            push_decimal(&mut out, col as u128);
            push_str(&mut out, " (");
            push_kind_debug(&mut out, actual);
            push_str(&mut out, ")");
            assert(out@ =~= type_mismatch_text(expected, col, actual));
            return Err(Error::Conversion(string_from_chars(out)));
        }
        self.prospective_bytes(actual, payload)
    }

    /// Starts writing one value: nothing happens on a poisoned writer; a
    /// callback that [`begin_value`](Self::begin_value) rejects poisons the
    /// writer with its error. Returns the row's logical bytes with the value,
    /// to commit once the value is stored.
    pub fn begin_append(&mut self, col: usize, expected: Kind, payload: usize) -> (r: Option<usize>)
        requires
            writer_inv(old(self)@),
        ensures
            writer_inv(final(self)@),
            old(self)@.failed ==> r is None && final(self)@ == old(self)@,
            !old(self)@.failed && (col == old(self)@.next_col && col < old(self)@.kinds.len()
                && old(self)@.kinds[col as int] == expected && spec_prospective(old(self)@, expected, payload) is Some)
                ==> r == Some(spec_prospective(old(self)@, expected, payload).unwrap() as usize)
                && final(self)@ == old(self)@,
            !old(self)@.failed && !(col == old(self)@.next_col && col < old(self)@.kinds.len()
                && old(self)@.kinds[col as int] == expected && spec_prospective(old(self)@, expected, payload) is Some)
                ==> r is None && (final(self)@.error matches Some(e) && e is Conversion)
                && final(self)@ == (WriterView { error: final(self)@.error, failed: true, ..old(self)@ }),
    {
        if self.failed {
            return None;
        }
        match self.begin_value(col, expected, payload) {
            Ok(row) => Some(row),
            Err(e) => {
                self.fail(e);
                None
            },
        }
    }

    /// Starts writing a NULL into the next column: nothing happens on a
    /// poisoned writer; a NULL that [`null_slot`](Self::null_slot) or the
    /// limits reject poisons the writer. Returns the column's kind and the
    /// row's logical bytes with the null slot.
    pub fn begin_null(&mut self, col: usize) -> (r: Option<(Kind, usize)>)
        requires
            writer_inv(old(self)@),
        ensures
            writer_inv(final(self)@),
            old(self)@.failed ==> r is None && final(self)@ == old(self)@,
            r matches Some((k, row)) ==> !old(self)@.failed && col == old(self)@.next_col
                && col < old(self)@.kinds.len() && k == old(self)@.kinds[col as int]
                && (old(self)@.nullable[col as int] || k == Kind::Null)
                && spec_prospective(old(self)@, k, if k == Kind::Uuid { 0 } else { spec_fixed_payload(k) as usize })
                == Some(row as int) && final(self)@ == old(self)@,
            !old(self)@.failed && r is None ==> (final(self)@.error matches Some(e) && e is Conversion)
                && final(self)@ == (WriterView { error: final(self)@.error, failed: true, ..old(self)@ }),
    {
        if self.failed {
            return None;
        }
        match self.null_slot(col) {
            Ok((kind, payload)) => {
                proof {
                    assert(kind_valid(kind));
                }
                match self.prospective_bytes(kind, payload) {
                    Ok(row) => Some((kind, row)),
                    Err(e) => {
                        self.fail(e);
                        None
                    },
                }
            },
            Err(e) => {
                self.fail(e);
                None
            },
        }
    }

    /// Starts writing a text value of `raw_len` undecoded bytes: nothing
    /// happens on a poisoned writer; a callback for another column than the
    /// next, a column of another kind, or raw bytes beyond the value limit
    /// poison the writer. Returns whether the text may be decoded.
    pub fn begin_text(&mut self, col: usize, expected: Kind, raw_len: usize) -> (r: bool)
        requires
            writer_inv(old(self)@),
        ensures
            writer_inv(final(self)@),
            old(self)@.failed ==> !r && final(self)@ == old(self)@,
            r <==> (!old(self)@.failed && col == old(self)@.next_col && col < old(self)@.kinds.len()
                && old(self)@.kinds[col as int] == expected && !value_too_large(old(self)@.options, raw_len)),
            r ==> final(self)@ == old(self)@,
            !old(self)@.failed && !r ==> (final(self)@.error matches Some(e) && e is Conversion)
                && final(self)@ == (WriterView { error: final(self)@.error, failed: true, ..old(self)@ }),
            !old(self)@.failed && col == old(self)@.next_col && col < old(self)@.kinds.len()
                && old(self)@.kinds[col as int] != expected ==> (final(self)@.error matches Some(Error::Conversion(m))
                && m@ == "Arrow string callback does not match column type"@),
    {
        if self.failed {
            return false;
        }
        match self.kind(col) {
            Ok(actual) => {
                if actual != expected {
                    self.fail(conversion("Arrow string callback does not match column type"));
                    return false;
                }
            },
            Err(e) => {
                self.fail(e);
                return false;
            },
        }
        match self.value_limit(raw_len) {
            Ok(()) => true,
            Err(e) => {
                self.fail(e);
                false
            },
        }
    }

    /// Converts one text value for column `col`: the column, its kind and
    /// the raw size are checked as [`Self::begin_text`] does; UTF-8 input
    /// must be valid and is taken as it is; UTF-16 and code-page input is
    /// decoded (an unresolved encoding is an error); then the converted size
    /// must fit the limits. Returns the text and the row's bytes with it, or
    /// `None` with the writer poisoned by the first error. When a limit is set
    /// and decoded text exceeds it, the error is the one the driver's
    /// incremental decoder meets first (see [`Self::limited_decode_error`]).
    pub fn text_value(&mut self, col: usize, bytes: &[u8], encoding: TextEncoding, expected: Kind) -> (r: Option<(String, usize)>)
        requires
            writer_inv(old(self)@),
        ensures
            writer_inv(final(self)@),
            old(self)@.failed ==> r is None && final(self)@ == old(self)@,
            !old(self)@.failed && !(col == old(self)@.next_col && col < old(self)@.kinds.len()
                && old(self)@.kinds[col as int] == expected && !value_too_large(old(self)@.options, bytes@.len() as usize))
                ==> r is None && (final(self)@.error matches Some(e) && e is Conversion)
                && final(self)@ == (WriterView { error: final(self)@.error, failed: true, ..old(self)@ }),
            !old(self)@.failed && col == old(self)@.next_col && col < old(self)@.kinds.len()
                && old(self)@.kinds[col as int] == expected && !value_too_large(old(self)@.options, bytes@.len() as usize)
                ==> match converted_text(col, bytes@, encoding) {
                    Err(m) => r is None && (final(self)@.error matches Some(Error::Conversion(msg)) && msg@ == m)
                        && final(self)@ == (WriterView { error: final(self)@.error, failed: true, ..old(self)@ }),
                    Ok((t, size)) => match spec_prospective(old(self)@, expected, size as usize) {
                        Some(row) => r matches Some((text, rb)) && text@ == t && rb == row && final(self)@ == old(self)@,
                        None => r is None && (final(self)@.error matches Some(Error::Conversion(msg))
                            && msg@ == text_limit_error_text(old(self)@, expected, size as usize, bytes@, encoding))
                            && final(self)@ == (WriterView { error: final(self)@.error, failed: true, ..old(self)@ }),
                    },
                },
    {
        if !self.begin_text(col, expected, bytes.len()) {
            return None;
        }
        proof {
            assert(kind_valid(expected));
        }
        let (text, size) = match encoding {
            TextEncoding::Utf8 => match utf8_text(bytes) {
                Ok(t) => (t, bytes.len()),
                Err(m) => {
                    let mut out: Vec<char> = Vec::new();
                    push_str(&mut out, "Invalid UTF-8 in Arrow column ");
                    push_decimal(&mut out, col as u128);
                    push_str(&mut out, ": ");
                    push_str(&mut out, m.as_str());
                    self.fail(Error::Conversion(string_from_chars(out)));
                    return None;
                },
            },
            TextEncoding::Unresolved => {
                self.fail(conversion("Unresolved string encoding in Arrow column"));
                return None;
            },
            _ => {
                let t = decode_text(bytes, encoding);
                let n = t.as_str().len();
                let limited = self.options.max_value_bytes.is_some() || self.options.max_row_bytes.is_some();
                if limited && self.prospective_bytes(expected, n).is_err() {
                    self.limited_decode_error(bytes, encoding, expected, n);
                    return None;
                }
                (t, n)
            },
        };
        match self.checked_row_bytes(expected, size) {
            Some(row) => Some((text, row)),
            None => None,
        }
    }

    /// One chunk of a memory-bounded decode (see [`decode_step_result`]):
    /// the running decoded size `size` grows by the chunk's `written` bytes
    /// and must stay within the buffer size and the value and row limits;
    /// then a chunk that read the input to its end (`done`) ends the decode
    /// (`Ok(None)`), one that read and wrote nothing is an error, and any
    /// other gives the new running size.
    pub fn decode_step(&self, expected: Kind, size: usize, done: bool, read: usize, written: usize) -> (r: Result<Option<usize>>)
        requires
            writer_inv(self@),
            kind_valid(expected),
        ensures
            match decode_step_result(self@, expected, size, done, read, written) {
                Ok(next) => r == Ok::<Option<usize>, Error>(next),
                Err(m) => r matches Err(Error::Conversion(e)) && e@ == m,
            },
    {
        let n = checked_add(size, written)?;
        self.prospective_bytes(expected, n)?;
        if done {
            return Ok(None);
        }
        if read == 0 && written == 0 {
            return Err(conversion("Arrow string decoder made no progress"));
        }
        Ok(Some(n))
    }

    /// The error of decoded text that exceeds a limit, met the way a
    /// memory-bounded reader meets it: the text is decoded again in
    /// 4096-byte output chunks, each taken by [`Self::decode_step`], and the
    /// first chunk whose running size breaks a limit gives the error (with
    /// that running size); a decoder that makes no progress is an error of
    /// its own. Should the chunks end without breaking a limit, the size of
    /// the whole value, `full`, gives the error.
    pub fn limited_decode_error(&mut self, bytes: &[u8], encoding: TextEncoding, expected: Kind, full: usize)
        requires
            writer_inv(old(self)@),
            !old(self)@.failed,
            kind_valid(expected),
            encoding is Utf16 || encoding is Collation,
            spec_prospective(old(self)@, expected, full) is None,
        ensures
            writer_inv(final(self)@),
            final(self)@.error matches Some(Error::Conversion(m))
                && m@ == decode_outcome_text(old(self)@, expected, full, bytes@, encoding, 0, 0, decode_rounds(bytes@.len())),
            final(self)@ == (WriterView { error: final(self)@.error, failed: true, ..old(self)@ }),
    {
        let driver_encoding = match text_encoding_of(encoding) {
            Some(e) => e,
            None => {
                self.fail(conversion("Unresolved string encoding in Arrow column"));
                return;
            },
        };
        let mut decoder = new_text_decoder(driver_encoding, bytes);
        let mut buffer: Vec<u8> = vec![0u8; DECODE_CHUNK_BYTES];
        let rounds: usize = if bytes.len() < usize::MAX / 8 { bytes.len() * 4 + 8 } else { usize::MAX };
        let ghost w0 = old(self)@;
        let len: usize = bytes.len();
        let mut pos: usize = 0;
        let mut size: usize = 0;
        let mut i: usize = 0;
        while i < rounds
            invariant
                writer_inv(self@),
                !self@.failed,
                kind_valid(expected),
                self@ == w0,
                w0 == old(self)@,
                rounds == decode_rounds(bytes@.len()),
                len == bytes@.len(),
                pos <= bytes@.len(),
                i <= rounds,
                buffer@.len() == DECODE_CHUNK_BYTES,
                decoder.input() == bytes@,
                decoder.encoding() == encoding,
                decoder.calls() == i,
                !decoder.is_finished(),
                pos == chunk_reads(bytes@, encoding, i as nat),
                spec_prospective(w0, expected, full) is None,
                decode_outcome_text(w0, expected, full, bytes@, encoding, 0, 0, rounds as nat)
                    == decode_outcome_text(w0, expected, full, bytes@, encoding, i as nat, size, (rounds - i) as nat),
            decreases rounds - i,
        {
            let (done, read, written) = decode_utf8_chunk(&mut decoder, i, pos, &mut buffer);
            match self.decode_step(expected, size, done, read, written) {
                Ok(Some(n)) => {
                    size = n;
                },
                Ok(None) => {
                    match self.prospective_bytes(expected, full) {
                        Ok(_) => {},
                        Err(e) => self.fail(e),
                    }
                    return;
                },
                Err(e) => {
                    self.fail(e);
                    return;
                },
            }
            pos = pos + read;
            i = i + 1;
        }
        match self.prospective_bytes(expected, full) {
            Ok(_) => {},
            Err(e) => self.fail(e),
        }
    }

    /// The row's logical bytes with one more value of `kind` and `payload`
    /// bytes; a value or row beyond the limits poisons the writer.
    pub fn checked_row_bytes(&mut self, kind: Kind, payload: usize) -> (r: Option<usize>)
        requires
            writer_inv(old(self)@),
            kind_valid(kind),
            !old(self)@.failed,
        ensures
            writer_inv(final(self)@),
            r == (match spec_prospective(old(self)@, kind, payload) {
                Some(row) => Some(row as usize),
                None => None,
            }),
            r is Some ==> final(self)@ == old(self)@,
            r is None ==> (final(self)@.error matches Some(Error::Conversion(m))
                && m@ == prospective_error_text(old(self)@, kind, payload))
                && final(self)@ == (WriterView { error: final(self)@.error, failed: true, ..old(self)@ }),
    {
        match self.prospective_bytes(kind, payload) {
            Ok(row) => Some(row),
            Err(e) => {
                self.fail(e);
                None
            },
        }
    }

    /// Records a value written into the next column.
    pub fn commit_value(&mut self, row_bytes: usize)
        requires
            writer_inv(old(self)@),
            old(self)@.next_col < old(self)@.kinds.len(),
            row_bytes <= max_buffer(),
        ensures
            writer_inv(final(self)@),
            final(self)@ == (WriterView { row_bytes, next_col: (old(self)@.next_col + 1) as usize, ..old(self)@ }),
    {
        let n = self.kinds.len();
        assert(self.next_col < n);
        self.row_bytes = row_bytes;
        self.next_col = self.next_col + 1;
    }

    /// The kind and accounted payload of a NULL in the next column: the
    /// column must be nullable (or of the null kind); a null UUID has no text
    /// payload, other fixed-width nulls keep their slots.
    pub fn null_slot(&self, col: usize) -> (r: Result<(Kind, usize)>)
        requires
            writer_inv(self@),
        ensures
            r matches Ok((k, payload)) ==> (col == self@.next_col && col < self@.kinds.len()
                && k == self@.kinds[col as int] && (self@.nullable[col as int] || k == Kind::Null)
                && payload == (if k == Kind::Uuid { 0 } else { spec_fixed_payload(k) })),
            (col == self@.next_col && col < self@.kinds.len() && (self@.nullable[col as int]
                || self@.kinds[col as int] == Kind::Null)) ==> r is Ok,
            r matches Err(e) ==> e is Conversion,
    {
        let kind = self.kind(col)?;
        if !self.nullable[col] && kind != Kind::Null {
            let mut out: Vec<char> = Vec::new();
            push_str(&mut out, "NULL in non-nullable Arrow column ");
            push_decimal(&mut out, col as u128);
            return Err(Error::Conversion(string_from_chars(out)));
        }
        let payload = if kind == Kind::Uuid { 0 } else { kind.fixed_payload() };
        Ok((kind, payload))
    }

    /// Completes the current row: every column must have been written; the
    /// row's bytes join the batch and the next row starts at column 0.
    pub fn end_row(&mut self)
        requires
            writer_inv(old(self)@),
        ensures
            writer_inv(final(self)@),
            old(self)@.failed ==> final(self)@ == old(self)@,
            !old(self)@.failed && old(self)@.next_col == old(self)@.kinds.len()
                && old(self)@.bytes + old(self)@.row_bytes <= max_buffer()
                && old(self)@.rows + 1 <= max_buffer() ==> final(self)@ == (WriterView {
                bytes: (old(self)@.bytes + old(self)@.row_bytes) as usize,
                rows: (old(self)@.rows + 1) as usize,
                last_row_bytes: old(self)@.row_bytes,
                next_col: 0,
                row_bytes: 0,
                ..old(self)@
            }),
            !old(self)@.failed && old(self)@.next_col != old(self)@.kinds.len() ==> (final(self)@.failed
                && (final(self)@.error matches Some(Error::Conversion(m)) && m@ == "Arrow row has "@
                + decimal_digits(old(self)@.next_col as nat) + " columns, expected "@ + decimal_digits(
                old(self)@.kinds.len() as nat))),
    {
        if self.failed {
            return;
        }
        if self.next_col != self.kinds.len() {
            let mut out: Vec<char> = Vec::new();
            push_str(&mut out, "Arrow row has ");
            push_decimal(&mut out, self.next_col as u128);
            push_str(&mut out, " columns, expected ");
            push_decimal(&mut out, self.kinds.len() as u128);
            self.fail(Error::Conversion(string_from_chars(out)));
            return;
        }
        let bytes = match checked_add(self.bytes, self.row_bytes) {
            Ok(b) => b,
            Err(e) => {
                self.fail(e);
                return;
            },
        };
        let rows = match checked_add(self.rows, 1) {
            Ok(n) => n,
            Err(e) => {
                self.fail(e);
                return;
            },
        };
        self.bytes = bytes;
        self.rows = rows;
        self.last_row_bytes = self.row_bytes;
        self.next_col = 0;
        self.row_bytes = 0;
    }
}

/// Scanning more columns after one is rejected fails with the same message.
proof fn lemma_scan_error_extends(ms: Seq<ColumnMetadata>, n: int)
    requires
        0 <= n <= ms.len(),
        scan_columns(ms.subrange(0, n)) is Err,
    ensures
        scan_columns(ms) == scan_columns(ms.subrange(0, n)),
    decreases ms.len() - n,
{
    if n < ms.len() {
        let next = ms.subrange(0, n + 1);
        assert(next.drop_last() =~= ms.subrange(0, n));
        lemma_scan_error_extends(ms, n + 1);
    } else {
        assert(ms.subrange(0, n) =~= ms);
    }
}

/// `10^n`.
pub open spec fn pow10(n: nat) -> nat
    decreases n,
{
    if n == 0 {
        1
    } else {
        10 * pow10((n - 1) as nat)
    }
}

fn pow10_exec(n: u32) -> (r: u128)
    requires
        n <= 38,
    ensures
        r == pow10(n as nat),
        r >= 1,
{
    let mut r: u128 = 1;
    let mut i: u32 = 0;
    proof {
        lemma_pow10_38();
    }
    while i < n
        invariant
            0 <= i <= n <= 38,
            r == pow10(i as nat),
            pow10(38) == 100000000000000000000000000000000000000,
        decreases n - i,
    {
        proof {
            lemma_pow10_monotone((i + 1) as nat, 38);
            assert(pow10((i + 1) as nat) == 10 * pow10(i as nat));
        }
        r = r * 10;
        i = i + 1;
    }
    proof { lemma_pow10_positive(n as nat); }
    r
}

proof fn lemma_pow10_positive(n: nat)
    ensures
        pow10(n) >= 1,
    decreases n,
{
    if n > 0 {
        lemma_pow10_positive((n - 1) as nat);
    }
}

proof fn lemma_pow10_monotone(a: nat, b: nat)
    requires
        a <= b,
    ensures
        pow10(a) <= pow10(b),
    decreases b,
{
    if a < b {
        lemma_pow10_monotone(a, (b - 1) as nat);
    }
}

proof fn lemma_pow10_38()
    ensures
        pow10(38) == 100000000000000000000000000000000000000,
{
    reveal_with_fuel(pow10, 39);
}

fn conversion(message: &str) -> (r: Error)
    ensures
        r matches Error::Conversion(m) && m@ == message@,
{
    Error::Conversion(String::from_str(message))
}

/// The Arrow `Date32` (days since 1970-01-01) of a SQL day number (days
/// since 0001-01-01), which must not pass 9999-12-31.
/// The message of a day number past 9999-12-31.
pub open spec fn date_range_text() -> Seq<char> {
    "Date is outside SQL Server's 0001..9999 range"@
}

/// The message of an invalid time of day: out of range, or not aligned to
/// its scale.
pub open spec fn time_error_text(ticks: u64, scale: u8) -> Seq<char> {
    if scale > 7 || ticks >= TICKS_PER_DAY {
        "Time scale or clock value is outside SQL Server's range"@
    } else {
        "Time value is not aligned to its declared scale"@
    }
}

pub fn date32(days: u32) -> (r: Result<i32>)
    ensures
        days <= MAX_SQL_DAYS ==> r == Ok::<i32, Error>((days - SQL_EPOCH_DAYS) as i32),
        days > MAX_SQL_DAYS ==> (r matches Err(Error::Conversion(m)) && m@ == date_range_text()),
{
    if days > MAX_SQL_DAYS {
        return Err(conversion("Date is outside SQL Server's 0001..9999 range"));
    }
    Ok(days as i32 - SQL_EPOCH_DAYS)
}

/// Whether a time of day in 100 ns ticks is valid at its scale: scale at
/// most 7, before midnight, and a multiple of `10^(7 - scale)` ticks.
pub open spec fn time_valid(ticks: u64, scale: u8) -> bool {
    scale <= 7 && ticks < TICKS_PER_DAY && (ticks as nat) % pow10((7 - scale) as nat) == 0
}

/// Nanoseconds of a time of day given in 100 ns ticks at its scale.
pub fn time_ns(ticks: u64, scale: u8) -> (r: Result<i64>)
    ensures
        time_valid(ticks, scale) ==> r == Ok::<i64, Error>((ticks * 100) as i64),
        !time_valid(ticks, scale) ==> (r matches Err(Error::Conversion(m)) && m@ == time_error_text(ticks, scale)),
{
    if scale > 7 || ticks >= TICKS_PER_DAY {
        return Err(conversion("Time scale or clock value is outside SQL Server's range"));
    }
    let unit = pow10_exec((7 - scale) as u32);
    proof { lemma_pow10_monotone((7 - scale) as nat, 38); lemma_pow10_38(); }
    if (ticks as u128) % unit != 0 {
        return Err(conversion("Time value is not aligned to its declared scale"));
    }
    Ok((ticks * 100) as i64)
}

/// A temporal struct value: Arrow date, time (nanoseconds, or 1/300-second
/// ticks for datetime) and offset minutes.
pub type TemporalParts = (i32, i64, i16);

/// The struct value of a `datetime`: days since 1900-01-01 in
/// -53690..=2958463 (1753..9999) and 1/300-second ticks before midnight.
pub fn datetime_parts(days: i32, ticks_300: u32) -> (r: Result<TemporalParts>)
    ensures
        (-53_690 <= days <= 2_958_463 && ticks_300 < 25_920_000) ==> r == Ok::<TemporalParts, Error>(
            ((days - SQL_1900_EPOCH_DAYS) as i32, ticks_300 as i64, 0i16)),
        !(-53_690 <= days <= 2_958_463 && ticks_300 < 25_920_000) ==> (r matches Err(Error::Conversion(m))
            && m@ == "Datetime is outside SQL Server's 1753..9999 date/clock range"@),
{
    if !(-53_690 <= days && days <= 2_958_463) || ticks_300 >= 86_400 * 300 {
        return Err(conversion("Datetime is outside SQL Server's 1753..9999 date/clock range"));
    }
    Ok((days - SQL_1900_EPOCH_DAYS, ticks_300 as i64, 0))
}

/// The struct value of a `smalldatetime`: days since 1900-01-01 and minutes
/// before midnight.
pub fn smalldatetime_parts(days: u16, minutes: u16) -> (r: Result<TemporalParts>)
    ensures
        minutes < 1440 ==> r == Ok::<TemporalParts, Error>(((days - SQL_1900_EPOCH_DAYS) as i32,
            (minutes * 60_000_000_000) as i64, 0i16)),
        minutes >= 1440 ==> (r matches Err(Error::Conversion(m))
            && m@ == "Smalldatetime minutes are outside the SQL Server clock range"@),
{
    if minutes >= 1440 {
        return Err(conversion("Smalldatetime minutes are outside the SQL Server clock range"));
    }
    Ok((days as i32 - SQL_1900_EPOCH_DAYS, (minutes as i64) * 60_000_000_000, 0))
}

/// The struct value of a `datetime2`: the date as [`date32`], the time as
/// [`time_ns`].
pub fn datetime2_parts(days: u32, ticks: u64, scale: u8) -> (r: Result<TemporalParts>)
    ensures
        (days <= MAX_SQL_DAYS && time_valid(ticks, scale)) ==> r == Ok::<TemporalParts, Error>(
            ((days - SQL_EPOCH_DAYS) as i32, (ticks * 100) as i64, 0i16)),
        days > MAX_SQL_DAYS ==> (r matches Err(Error::Conversion(m)) && m@ == date_range_text()),
        days <= MAX_SQL_DAYS && !time_valid(ticks, scale) ==> (r matches Err(Error::Conversion(m))
            && m@ == time_error_text(ticks, scale)),
{
    let date = date32(days)?;
    let time = time_ns(ticks, scale)?;
    Ok((date, time, 0))
}

/// Nanoseconds per day.
pub const NANOS_PER_DAY: i64 = 86_400_000_000_000;

/// Whether a `datetimeoffset` (UTC day number and ticks, offset in minutes)
/// is valid: offset within ±14 hours, a valid UTC date and time, and a local
/// date also within 0001..9999.
pub open spec fn datetimeoffset_valid(days: u32, ticks: u64, scale: u8, offset: i16) -> bool {
    &&& -840 <= offset <= 840
    &&& days <= MAX_SQL_DAYS
    &&& time_valid(ticks, scale)
    &&& {
        let local_day = days + (ticks * 100 + offset * 60_000_000_000) / (NANOS_PER_DAY as int);
        0 <= local_day <= MAX_SQL_DAYS
    }
}

/// The struct value of a `datetimeoffset`: the UTC date and time as for
/// datetime2, and the offset in minutes.
pub fn datetimeoffset_parts(days: u32, ticks: u64, scale: u8, offset: i16) -> (r: Result<TemporalParts>)
    ensures
        datetimeoffset_valid(days, ticks, scale, offset) ==> r == Ok::<TemporalParts, Error>(
            ((days - SQL_EPOCH_DAYS) as i32, (ticks * 100) as i64, offset)),
        !datetimeoffset_valid(days, ticks, scale, offset) ==> (r matches Err(Error::Conversion(m)) && m@ == (
            if !(-840 <= offset <= 840) {
                "Datetimeoffset offset must be in -840..=840 minutes"@
            } else if days > MAX_SQL_DAYS {
                date_range_text()
            } else if !time_valid(ticks, scale) {
                time_error_text(ticks, scale)
            } else {
                "Datetimeoffset local date is outside SQL Server's 0001..9999 range"@
            })),
{
    if !(-840 <= offset && offset <= 840) {
        return Err(conversion("Datetimeoffset offset must be in -840..=840 minutes"));
    }
    let date = date32(days)?;
    let time = time_ns(ticks, scale)?;
    let shifted: i64 = time + (offset as i64) * 60_000_000_000;
    let day_shift: i64 = match shifted.checked_div_euclid(NANOS_PER_DAY) {
        Some(d) => d,
        None => 0,
    };
    let local_day: i64 = days as i64 + day_shift;
    if !(0 <= local_day && local_day <= MAX_SQL_DAYS as i64) {
        return Err(conversion("Datetimeoffset local date is outside SQL Server's 0001..9999 range"));
    }
    Ok((date, time, offset))
}

/// Arrow's temporal representations are lossless across SQL Server's full
/// range: two valid day numbers with the same `Date32` value are the same
/// day, two valid times of day with the same nanosecond value are the same
/// time (whatever their scales), and the `datetime` and `smalldatetime`
/// structs keep their day and ticks or minutes. Together these make every
/// temporal struct value determine the wire value it was converted from.
pub proof fn lemma_temporal_lossless(
    d1: u32,
    d2: u32,
    t1: u64,
    s1: u8,
    t2: u64,
    s2: u8,
    m1: u16,
    m2: u16,
    legacy1: i32,
    legacy2: i32,
)
    requires
        d1 <= MAX_SQL_DAYS,
        d2 <= MAX_SQL_DAYS,
        time_valid(t1, s1),
        time_valid(t2, s2),
        m1 < 1440,
        m2 < 1440,
        -53_690 <= legacy1 <= 2_958_463,
        -53_690 <= legacy2 <= 2_958_463,
    ensures
        (d1 - SQL_EPOCH_DAYS) as i32 == (d2 - SQL_EPOCH_DAYS) as i32 ==> d1 == d2,
        (t1 * 100) as i64 == (t2 * 100) as i64 ==> t1 == t2,
        (m1 * 60_000_000_000) as i64 == (m2 * 60_000_000_000) as i64 ==> m1 == m2,
        (legacy1 - SQL_1900_EPOCH_DAYS) as i32 == (legacy2 - SQL_1900_EPOCH_DAYS) as i32 ==> legacy1
            == legacy2,
{
}

/// Whether a decimal value fits its declared type: precision 1..=38, scale
/// at most the precision, and fewer than `precision` digits of magnitude.
pub open spec fn decimal_in_range(magnitude: u128, precision: u8, scale: u8) -> bool {
    &&& 1 <= precision <= 38
    &&& scale <= precision
    &&& magnitude < pow10(precision as nat)
}

/// The signed `Decimal128` coefficient of a decimal value.
pub fn decimal_value(is_positive: bool, magnitude: u128, precision: u8, scale: u8) -> (r: Result<i128>)
    ensures
        decimal_in_range(magnitude, precision, scale) ==> r == Ok::<i128, Error>(
            if is_positive { magnitude as i128 } else { -(magnitude as int) as i128 }),
        !decimal_in_range(magnitude, precision, scale) ==> (r matches Err(Error::Conversion(m))
            && m@ == "Decimal magnitude, precision, or scale is out of range"@),
{
    if !(1 <= precision && precision <= 38) || scale > precision {
        return Err(conversion("Decimal magnitude, precision, or scale is out of range"));
    }
    let limit = pow10_exec(precision as u32);
    proof { lemma_pow10_monotone(precision as nat, 38); lemma_pow10_38(); }
    if magnitude >= limit {
        return Err(conversion("Decimal magnitude, precision, or scale is out of range"));
    }
    let m = magnitude as i128;
    if is_positive {
        Ok(m)
    } else {
        Ok(-m)
    }
}

/// The `Decimal128` coefficient (scale 4) of a `money` value given as its
/// signed high and unsigned low 32-bit halves.
pub fn money_value(msb_part: i32, lsb_part: i32) -> (r: i128)
    ensures
        r == (msb_part as int) * 0x1_0000_0000 + (lsb_part as u32) as int,
{
    let hi: i128 = (msb_part as i128) * 0x1_0000_0000;
    let lo: i128 = (lsb_part as u32) as i128;
    hi + lo
}

/// The dimensions of a Float32 vector of `len` values: 1..=1998, with the
/// value (and its header) within the value limit.
pub fn vector_dimensions(w: &ArrowRowWriter, len: usize) -> (r: Result<i32>)
    ensures
        r matches Ok(n) ==> n == len && 0 < len <= MAX_VECTOR_DIMENSIONS
            && !value_too_large(w@.options, (len * 4 + VECTOR_HEADER_SIZE) as usize),
        (0 < len <= MAX_VECTOR_DIMENSIONS && !value_too_large(w@.options, (len * 4 + VECTOR_HEADER_SIZE) as usize))
            ==> r is Ok,
        r matches Err(e) ==> e is Conversion,
{
    if len == 0 || len > float32_max_dimensions() as usize {
        return Err(conversion("Invalid vector dimensions"));
    }
    w.value_limit(len * 4 + VECTOR_HEADER_SIZE)?;
    Ok(len as i32)
}

/// The largest offset of an Arrow `Utf8` array.
pub open spec fn utf8_offset_limit() -> int {
    i32::MAX as int
}

/// Checks that 36 more bytes of UUID text keep a `Utf8` array's offsets in
/// range.
pub fn uuid_text_capacity(values_len: usize) -> (r: Result<()>)
    ensures
        values_len + 36 <= utf8_offset_limit() ==> r is Ok,
        values_len + 36 > utf8_offset_limit() ==> r matches Err(Error::Conversion(_)),
{
    let total = checked_add(values_len, 36)?;
    if total > i32::MAX as usize {
        return Err(conversion("UUID text exceeds Arrow Utf8 offset capacity; use a smaller batch_size"));
    }
    Ok(())
}

} // verus!
