//! Column types and result-set metadata, including tiberius' `ColumnType`.

use vstd::prelude::*;

use crate::prepared::tds_meta_type_name;
use crate::text::{eq_ignore_ascii_case, eq_ignore_ascii_case_spec};

verus! {

/// Wire-level data type identifiers of the TDS protocol.
#[derive(Debug, Clone, Copy, PartialEq, Eq, Structural)]
pub enum TdsDataType {
    /// Placeholder for absent data.
    Void,
    /// Legacy large binary object.
    Image,
    /// Legacy variable-length non-Unicode string.
    Text,
    /// 16-byte GUID.
    Guid,
    /// Legacy variable-length binary.
    VarBinary,
    /// Nullable integer of 1/2/4/8 bytes.
    IntN,
    /// Legacy variable-length non-Unicode string.
    VarChar,
    /// Nullable date.
    DateN,
    /// Nullable time.
    TimeN,
    /// Nullable datetime2.
    DateTime2N,
    /// Nullable datetimeoffset.
    DateTimeOffsetN,
    /// Legacy fixed-length binary.
    Binary,
    /// Legacy fixed-length non-Unicode string.
    Char,
    /// 1-byte unsigned integer.
    Int1,
    /// Fixed-width bit.
    Bit,
    /// 2-byte signed integer.
    Int2,
    /// Fixed decimal.
    Decimal,
    /// 4-byte signed integer.
    Int4,
    /// 4-byte small datetime.
    DateTim4,
    /// 4-byte IEEE float.
    Flt4,
    /// 8-byte currency.
    Money,
    /// 8-byte datetime.
    DateTime,
    /// 8-byte IEEE double.
    Flt8,
    /// Fixed numeric.
    Numeric,
    /// sql_variant container.
    SsVariant,
    /// Legacy variable-length Unicode string.
    NText,
    /// Nullable bit.
    BitN,
    /// Nullable decimal.
    DecimalN,
    /// Nullable numeric.
    NumericN,
    /// Nullable float of 4/8 bytes.
    FltN,
    /// Nullable money of 4/8 bytes.
    MoneyN,
    /// Nullable datetime of 4/8 bytes.
    DateTimeN,
    /// 4-byte currency.
    Money4,
    /// 8-byte signed integer.
    Int8,
    /// Variable-length binary up to 8000 bytes.
    BigVarBinary,
    /// Variable-length non-Unicode string up to 8000 bytes.
    BigVarChar,
    /// Fixed-length binary up to 8000 bytes.
    BigBinary,
    /// Fixed-length non-Unicode string up to 8000 bytes.
    BigChar,
    /// Variable-length Unicode string.
    NVarChar,
    /// Fixed-length Unicode string.
    NChar,
    /// CLR user-defined type.
    Udt,
    /// XML data.
    Xml,
    /// Table-valued parameter.
    SqlTable,
    /// JSON data.
    Json,
    /// Fixed-dimension float vector.
    Vector,
    /// Sentinel for an uninitialized type.
    NoType,
}

/// The protocol's one-byte code of each wire type.
pub open spec fn spec_wire_code(t: TdsDataType) -> u8 {
    match t {
            TdsDataType::Void => 0x1Fu8,
            TdsDataType::Image => 0x22u8,
            TdsDataType::Text => 0x23u8,
            TdsDataType::Guid => 0x24u8,
            TdsDataType::VarBinary => 0x25u8,
            TdsDataType::IntN => 0x26u8,
            TdsDataType::VarChar => 0x27u8,
            TdsDataType::DateN => 0x28u8,
            TdsDataType::TimeN => 0x29u8,
            TdsDataType::DateTime2N => 0x2Au8,
            TdsDataType::DateTimeOffsetN => 0x2Bu8,
            TdsDataType::Binary => 0x2Du8,
            TdsDataType::Char => 0x2Fu8,
            TdsDataType::Int1 => 0x30u8,
            TdsDataType::Bit => 0x32u8,
            TdsDataType::Int2 => 0x34u8,
            TdsDataType::Decimal => 0x37u8,
            TdsDataType::Int4 => 0x38u8,
            TdsDataType::DateTim4 => 0x3Au8,
            TdsDataType::Flt4 => 0x3Bu8,
            TdsDataType::Money => 0x3Cu8,
            TdsDataType::DateTime => 0x3Du8,
            TdsDataType::Flt8 => 0x3Eu8,
            TdsDataType::Numeric => 0x3Fu8,
            TdsDataType::SsVariant => 0x62u8,
            TdsDataType::NText => 0x63u8,
            TdsDataType::BitN => 0x68u8,
            TdsDataType::DecimalN => 0x6Au8,
            TdsDataType::NumericN => 0x6Cu8,
            TdsDataType::FltN => 0x6Du8,
            TdsDataType::MoneyN => 0x6Eu8,
            TdsDataType::DateTimeN => 0x6Fu8,
            TdsDataType::Money4 => 0x7Au8,
            TdsDataType::Int8 => 0x7Fu8,
            TdsDataType::BigVarBinary => 0xA5u8,
            TdsDataType::BigVarChar => 0xA7u8,
            TdsDataType::BigBinary => 0xADu8,
            TdsDataType::BigChar => 0xAFu8,
            TdsDataType::NVarChar => 0xE7u8,
            TdsDataType::NChar => 0xEFu8,
            TdsDataType::Udt => 0xF0u8,
            TdsDataType::Xml => 0xF1u8,
            TdsDataType::SqlTable => 0xF3u8,
            TdsDataType::Json => 0xF4u8,
            TdsDataType::Vector => 0xF5u8,
            TdsDataType::NoType => 0x00u8,
    }
}

/// The wire type with the given code, if the protocol defines one.
pub open spec fn spec_type_of_code(code: u8) -> Option<TdsDataType> {
    match code {
            0x1F => Some(TdsDataType::Void),
            0x22 => Some(TdsDataType::Image),
            0x23 => Some(TdsDataType::Text),
            0x24 => Some(TdsDataType::Guid),
            0x25 => Some(TdsDataType::VarBinary),
            0x26 => Some(TdsDataType::IntN),
            0x27 => Some(TdsDataType::VarChar),
            0x28 => Some(TdsDataType::DateN),
            0x29 => Some(TdsDataType::TimeN),
            0x2A => Some(TdsDataType::DateTime2N),
            0x2B => Some(TdsDataType::DateTimeOffsetN),
            0x2D => Some(TdsDataType::Binary),
            0x2F => Some(TdsDataType::Char),
            0x30 => Some(TdsDataType::Int1),
            0x32 => Some(TdsDataType::Bit),
            0x34 => Some(TdsDataType::Int2),
            0x37 => Some(TdsDataType::Decimal),
            0x38 => Some(TdsDataType::Int4),
            0x3A => Some(TdsDataType::DateTim4),
            0x3B => Some(TdsDataType::Flt4),
            0x3C => Some(TdsDataType::Money),
            0x3D => Some(TdsDataType::DateTime),
            0x3E => Some(TdsDataType::Flt8),
            0x3F => Some(TdsDataType::Numeric),
            0x62 => Some(TdsDataType::SsVariant),
            0x63 => Some(TdsDataType::NText),
            0x68 => Some(TdsDataType::BitN),
            0x6A => Some(TdsDataType::DecimalN),
            0x6C => Some(TdsDataType::NumericN),
            0x6D => Some(TdsDataType::FltN),
            0x6E => Some(TdsDataType::MoneyN),
            0x6F => Some(TdsDataType::DateTimeN),
            0x7A => Some(TdsDataType::Money4),
            0x7F => Some(TdsDataType::Int8),
            0xA5 => Some(TdsDataType::BigVarBinary),
            0xA7 => Some(TdsDataType::BigVarChar),
            0xAD => Some(TdsDataType::BigBinary),
            0xAF => Some(TdsDataType::BigChar),
            0xE7 => Some(TdsDataType::NVarChar),
            0xEF => Some(TdsDataType::NChar),
            0xF0 => Some(TdsDataType::Udt),
            0xF1 => Some(TdsDataType::Xml),
            0xF3 => Some(TdsDataType::SqlTable),
            0xF4 => Some(TdsDataType::Json),
            0xF5 => Some(TdsDataType::Vector),
            0x00 => Some(TdsDataType::NoType),
        _ => None,
    }
}

impl TdsDataType {
    /// The protocol's one-byte code of this wire type.
    pub fn wire_code(self) -> (r: u8)
        ensures
            r == spec_wire_code(self),
    {
        match self {
            TdsDataType::Void => 0x1Fu8,
            TdsDataType::Image => 0x22u8,
            TdsDataType::Text => 0x23u8,
            TdsDataType::Guid => 0x24u8,
            TdsDataType::VarBinary => 0x25u8,
            TdsDataType::IntN => 0x26u8,
            TdsDataType::VarChar => 0x27u8,
            TdsDataType::DateN => 0x28u8,
            TdsDataType::TimeN => 0x29u8,
            TdsDataType::DateTime2N => 0x2Au8,
            TdsDataType::DateTimeOffsetN => 0x2Bu8,
            TdsDataType::Binary => 0x2Du8,
            TdsDataType::Char => 0x2Fu8,
            TdsDataType::Int1 => 0x30u8,
            TdsDataType::Bit => 0x32u8,
            TdsDataType::Int2 => 0x34u8,
            TdsDataType::Decimal => 0x37u8,
            TdsDataType::Int4 => 0x38u8,
            TdsDataType::DateTim4 => 0x3Au8,
            TdsDataType::Flt4 => 0x3Bu8,
            TdsDataType::Money => 0x3Cu8,
            TdsDataType::DateTime => 0x3Du8,
            TdsDataType::Flt8 => 0x3Eu8,
            TdsDataType::Numeric => 0x3Fu8,
            TdsDataType::SsVariant => 0x62u8,
            TdsDataType::NText => 0x63u8,
            TdsDataType::BitN => 0x68u8,
            TdsDataType::DecimalN => 0x6Au8,
            TdsDataType::NumericN => 0x6Cu8,
            TdsDataType::FltN => 0x6Du8,
            TdsDataType::MoneyN => 0x6Eu8,
            TdsDataType::DateTimeN => 0x6Fu8,
            TdsDataType::Money4 => 0x7Au8,
            TdsDataType::Int8 => 0x7Fu8,
            TdsDataType::BigVarBinary => 0xA5u8,
            TdsDataType::BigVarChar => 0xA7u8,
            TdsDataType::BigBinary => 0xADu8,
            TdsDataType::BigChar => 0xAFu8,
            TdsDataType::NVarChar => 0xE7u8,
            TdsDataType::NChar => 0xEFu8,
            TdsDataType::Udt => 0xF0u8,
            TdsDataType::Xml => 0xF1u8,
            TdsDataType::SqlTable => 0xF3u8,
            TdsDataType::Json => 0xF4u8,
            TdsDataType::Vector => 0xF5u8,
            TdsDataType::NoType => 0x00u8,
        }
    }

    /// The wire type with the given protocol code; `None` for codes that the
    /// protocol does not define.
    pub fn from_code(code: u8) -> (r: Option<TdsDataType>)
        ensures
            r == spec_type_of_code(code),
    {
        match code {
            0x1F => Some(TdsDataType::Void),
            0x22 => Some(TdsDataType::Image),
            0x23 => Some(TdsDataType::Text),
            0x24 => Some(TdsDataType::Guid),
            0x25 => Some(TdsDataType::VarBinary),
            0x26 => Some(TdsDataType::IntN),
            0x27 => Some(TdsDataType::VarChar),
            0x28 => Some(TdsDataType::DateN),
            0x29 => Some(TdsDataType::TimeN),
            0x2A => Some(TdsDataType::DateTime2N),
            0x2B => Some(TdsDataType::DateTimeOffsetN),
            0x2D => Some(TdsDataType::Binary),
            0x2F => Some(TdsDataType::Char),
            0x30 => Some(TdsDataType::Int1),
            0x32 => Some(TdsDataType::Bit),
            0x34 => Some(TdsDataType::Int2),
            0x37 => Some(TdsDataType::Decimal),
            0x38 => Some(TdsDataType::Int4),
            0x3A => Some(TdsDataType::DateTim4),
            0x3B => Some(TdsDataType::Flt4),
            0x3C => Some(TdsDataType::Money),
            0x3D => Some(TdsDataType::DateTime),
            0x3E => Some(TdsDataType::Flt8),
            0x3F => Some(TdsDataType::Numeric),
            0x62 => Some(TdsDataType::SsVariant),
            0x63 => Some(TdsDataType::NText),
            0x68 => Some(TdsDataType::BitN),
            0x6A => Some(TdsDataType::DecimalN),
            0x6C => Some(TdsDataType::NumericN),
            0x6D => Some(TdsDataType::FltN),
            0x6E => Some(TdsDataType::MoneyN),
            0x6F => Some(TdsDataType::DateTimeN),
            0x7A => Some(TdsDataType::Money4),
            0x7F => Some(TdsDataType::Int8),
            0xA5 => Some(TdsDataType::BigVarBinary),
            0xA7 => Some(TdsDataType::BigVarChar),
            0xAD => Some(TdsDataType::BigBinary),
            0xAF => Some(TdsDataType::BigChar),
            0xE7 => Some(TdsDataType::NVarChar),
            0xEF => Some(TdsDataType::NChar),
            0xF0 => Some(TdsDataType::Udt),
            0xF1 => Some(TdsDataType::Xml),
            0xF3 => Some(TdsDataType::SqlTable),
            0xF4 => Some(TdsDataType::Json),
            0xF5 => Some(TdsDataType::Vector),
            0x00 => Some(TdsDataType::NoType),
            _ => None,
        }
    }
}

/// The driver's `Debug` rendering of a wire type: its variant name.
pub open spec fn spec_debug_name(t: TdsDataType) -> Seq<char> {
    match t {
        TdsDataType::Void => "Void"@,
        TdsDataType::Image => "Image"@,
        TdsDataType::Text => "Text"@,
        TdsDataType::Guid => "Guid"@,
        TdsDataType::VarBinary => "VarBinary"@,
        TdsDataType::IntN => "IntN"@,
        TdsDataType::VarChar => "VarChar"@,
        TdsDataType::DateN => "DateN"@,
        TdsDataType::TimeN => "TimeN"@,
        TdsDataType::DateTime2N => "DateTime2N"@,
        TdsDataType::DateTimeOffsetN => "DateTimeOffsetN"@,
        TdsDataType::Binary => "Binary"@,
        TdsDataType::Char => "Char"@,
        TdsDataType::Int1 => "Int1"@,
        TdsDataType::Bit => "Bit"@,
        TdsDataType::Int2 => "Int2"@,
        TdsDataType::Decimal => "Decimal"@,
        TdsDataType::Int4 => "Int4"@,
        TdsDataType::DateTim4 => "DateTim4"@,
        TdsDataType::Flt4 => "Flt4"@,
        TdsDataType::Money => "Money"@,
        TdsDataType::DateTime => "DateTime"@,
        TdsDataType::Flt8 => "Flt8"@,
        TdsDataType::Numeric => "Numeric"@,
        TdsDataType::SsVariant => "SsVariant"@,
        TdsDataType::NText => "NText"@,
        TdsDataType::BitN => "BitN"@,
        TdsDataType::DecimalN => "DecimalN"@,
        TdsDataType::NumericN => "NumericN"@,
        TdsDataType::FltN => "FltN"@,
        TdsDataType::MoneyN => "MoneyN"@,
        TdsDataType::DateTimeN => "DateTimeN"@,
        TdsDataType::Money4 => "Money4"@,
        TdsDataType::Int8 => "Int8"@,
        TdsDataType::BigVarBinary => "BigVarBinary"@,
        TdsDataType::BigVarChar => "BigVarChar"@,
        TdsDataType::BigBinary => "BigBinary"@,
        TdsDataType::BigChar => "BigChar"@,
        TdsDataType::NVarChar => "NVarChar"@,
        TdsDataType::NChar => "NChar"@,
        TdsDataType::Udt => "Udt"@,
        TdsDataType::Xml => "Xml"@,
        TdsDataType::SqlTable => "SqlTable"@,
        TdsDataType::Json => "Json"@,
        TdsDataType::Vector => "Vector"@,
        TdsDataType::NoType => "None"@,
    }
}

impl TdsDataType {
    /// The driver's `Debug` rendering of this wire type: its variant name
    /// (`Int4`, `NVarChar`, ...).
    pub fn debug_name(self) -> (r: &'static str)
        ensures
            r@ == spec_debug_name(self),
    {
        match self {
            TdsDataType::Void => "Void",
            TdsDataType::Image => "Image",
            TdsDataType::Text => "Text",
            TdsDataType::Guid => "Guid",
            TdsDataType::VarBinary => "VarBinary",
            TdsDataType::IntN => "IntN",
            TdsDataType::VarChar => "VarChar",
            TdsDataType::DateN => "DateN",
            TdsDataType::TimeN => "TimeN",
            TdsDataType::DateTime2N => "DateTime2N",
            TdsDataType::DateTimeOffsetN => "DateTimeOffsetN",
            TdsDataType::Binary => "Binary",
            TdsDataType::Char => "Char",
            TdsDataType::Int1 => "Int1",
            TdsDataType::Bit => "Bit",
            TdsDataType::Int2 => "Int2",
            TdsDataType::Decimal => "Decimal",
            TdsDataType::Int4 => "Int4",
            TdsDataType::DateTim4 => "DateTim4",
            TdsDataType::Flt4 => "Flt4",
            TdsDataType::Money => "Money",
            TdsDataType::DateTime => "DateTime",
            TdsDataType::Flt8 => "Flt8",
            TdsDataType::Numeric => "Numeric",
            TdsDataType::SsVariant => "SsVariant",
            TdsDataType::NText => "NText",
            TdsDataType::BitN => "BitN",
            TdsDataType::DecimalN => "DecimalN",
            TdsDataType::NumericN => "NumericN",
            TdsDataType::FltN => "FltN",
            TdsDataType::MoneyN => "MoneyN",
            TdsDataType::DateTimeN => "DateTimeN",
            TdsDataType::Money4 => "Money4",
            TdsDataType::Int8 => "Int8",
            TdsDataType::BigVarBinary => "BigVarBinary",
            TdsDataType::BigVarChar => "BigVarChar",
            TdsDataType::BigBinary => "BigBinary",
            TdsDataType::BigChar => "BigChar",
            TdsDataType::NVarChar => "NVarChar",
            TdsDataType::NChar => "NChar",
            TdsDataType::Udt => "Udt",
            TdsDataType::Xml => "Xml",
            TdsDataType::SqlTable => "SqlTable",
            TdsDataType::Json => "Json",
            TdsDataType::Vector => "Vector",
            TdsDataType::NoType => "None",
        }
    }
}

/// Decoding a wire code gives back the type that was encoded.
pub proof fn lemma_wire_code_roundtrip(t: TdsDataType)
    ensures
        spec_type_of_code(spec_wire_code(t)) == Some(t),
{
}

/// Distinct wire types have distinct codes.
pub proof fn lemma_wire_code_injective(a: TdsDataType, b: TdsDataType)
    requires
        spec_wire_code(a) == spec_wire_code(b),
    ensures
        a == b,
{
    lemma_wire_code_roundtrip(a);
    lemma_wire_code_roundtrip(b);
}

/// SQL Server column data types, a tiberius-compatible enum for pattern
/// matching in application code.
#[derive(Debug, Clone, Copy, PartialEq, Eq, Structural)]
pub enum ColumnType {
    Null,
    Bit,
    Int1,
    Int2,
    Int4,
    Int8,
    Float4,
    Float8,
    Datetime,
    Datetime2,
    Datetime4,
    DatetimeOffset,
    Date,
    Time,
    Decimaln,
    Numericn,
    Money,
    Money4,
    Guid,
    NVarchar,
    Varchar,
    NChar,
    Char,
    NText,
    Text,
    Binary,
    VarBinary,
    Image,
    Xml,
    Json,
    Vector,
    BigVarBin,
    Ssvariant,
    Geography,
    Geometry,
    Udt,
}

/// The column type of a wire type when no width information is used:
/// variable-width nullable integers, floats and money take their widest
/// reading, and unknown types read as `Null`.
pub open spec fn column_type_of(dt: TdsDataType) -> ColumnType {
    match dt {
            TdsDataType::Void => ColumnType::Null,
            TdsDataType::Image => ColumnType::Image,
            TdsDataType::Text => ColumnType::Text,
            TdsDataType::Guid => ColumnType::Guid,
            TdsDataType::VarBinary => ColumnType::VarBinary,
            TdsDataType::IntN => ColumnType::Int4,
            TdsDataType::VarChar => ColumnType::Varchar,
            TdsDataType::DateN => ColumnType::Date,
            TdsDataType::TimeN => ColumnType::Time,
            TdsDataType::DateTime2N => ColumnType::Datetime2,
            TdsDataType::DateTimeOffsetN => ColumnType::DatetimeOffset,
            TdsDataType::Binary => ColumnType::Binary,
            TdsDataType::Char => ColumnType::Char,
            TdsDataType::Int1 => ColumnType::Int1,
            TdsDataType::Bit => ColumnType::Bit,
            TdsDataType::Int2 => ColumnType::Int2,
            TdsDataType::Decimal => ColumnType::Decimaln,
            TdsDataType::Int4 => ColumnType::Int4,
            TdsDataType::DateTim4 => ColumnType::Datetime4,
            TdsDataType::Flt4 => ColumnType::Float4,
            TdsDataType::Money => ColumnType::Money,
            TdsDataType::DateTime => ColumnType::Datetime,
            TdsDataType::Flt8 => ColumnType::Float8,
            TdsDataType::Numeric => ColumnType::Numericn,
            TdsDataType::SsVariant => ColumnType::Ssvariant,
            TdsDataType::NText => ColumnType::NText,
            TdsDataType::BitN => ColumnType::Bit,
            TdsDataType::DecimalN => ColumnType::Decimaln,
            TdsDataType::NumericN => ColumnType::Numericn,
            TdsDataType::FltN => ColumnType::Float8,
            TdsDataType::MoneyN => ColumnType::Money,
            TdsDataType::DateTimeN => ColumnType::Datetime,
            TdsDataType::Money4 => ColumnType::Money4,
            TdsDataType::Int8 => ColumnType::Int8,
            TdsDataType::BigVarBinary => ColumnType::VarBinary,
            TdsDataType::BigVarChar => ColumnType::Varchar,
            TdsDataType::BigBinary => ColumnType::Binary,
            TdsDataType::BigChar => ColumnType::Char,
            TdsDataType::NVarChar => ColumnType::NVarchar,
            TdsDataType::NChar => ColumnType::NChar,
            TdsDataType::Udt => ColumnType::Udt,
            TdsDataType::Xml => ColumnType::Xml,
            TdsDataType::SqlTable => ColumnType::Null,
            TdsDataType::Json => ColumnType::Json,
            TdsDataType::Vector => ColumnType::Vector,
            TdsDataType::NoType => ColumnType::Null,
    }
}

/// The SQL type name that a column type stands for; `None` for the types
/// that stand for no single SQL type (`Null`, the spatial types and
/// `BigVarBin`).
pub open spec fn column_type_sql_name(ct: ColumnType) -> Option<Seq<char>> {
    match ct {
        ColumnType::Bit => Some("bit"@),
        ColumnType::Int1 => Some("tinyint"@),
        ColumnType::Int2 => Some("smallint"@),
        ColumnType::Int4 => Some("int"@),
        ColumnType::Int8 => Some("bigint"@),
        ColumnType::Float4 => Some("real"@),
        ColumnType::Float8 => Some("float"@),
        ColumnType::Datetime => Some("datetime"@),
        ColumnType::Datetime2 => Some("datetime2"@),
        ColumnType::Datetime4 => Some("smalldatetime"@),
        ColumnType::DatetimeOffset => Some("datetimeoffset"@),
        ColumnType::Date => Some("date"@),
        ColumnType::Time => Some("time"@),
        ColumnType::Decimaln => Some("decimal"@),
        ColumnType::Numericn => Some("numeric"@),
        ColumnType::Money => Some("money"@),
        ColumnType::Money4 => Some("smallmoney"@),
        ColumnType::Guid => Some("uniqueidentifier"@),
        ColumnType::NVarchar => Some("nvarchar"@),
        ColumnType::Varchar => Some("varchar"@),
        ColumnType::NChar => Some("nchar"@),
        ColumnType::Char => Some("char"@),
        ColumnType::NText => Some("ntext"@),
        ColumnType::Text => Some("text"@),
        ColumnType::Binary => Some("binary"@),
        ColumnType::VarBinary => Some("varbinary"@),
        ColumnType::Image => Some("image"@),
        ColumnType::Xml => Some("xml"@),
        ColumnType::Json => Some("json"@),
        ColumnType::Vector => Some("vector"@),
        ColumnType::Ssvariant => Some("sql_variant"@),
        ColumnType::Udt => Some("udt"@),
        _ => None,
    }
}

/// Every wire type that the driver gives a T-SQL name reads as the column
/// type of that SQL type.
pub proof fn lemma_column_type_matches_driver_name(dt: TdsDataType)
    ensures
        tds_meta_type_name(spec_wire_code(dt)) matches Some(name) ==> column_type_sql_name(column_type_of(dt))
            == Some(name),
{
}

/// A nullable wire type reads as its fixed counterpart (variable-width
/// integers, floats and money at their widest), and once the width is
/// known, a nullable integer, float or money reads as the fixed type of
/// that width.
pub proof fn lemma_nullable_column_types()
    ensures
        column_type_of(TdsDataType::BitN) == column_type_of(TdsDataType::Bit),
        column_type_of(TdsDataType::DecimalN) == column_type_of(TdsDataType::Decimal),
        column_type_of(TdsDataType::NumericN) == column_type_of(TdsDataType::Numeric),
        column_type_of(TdsDataType::DateTimeN) == column_type_of(TdsDataType::DateTime),
        column_type_of(TdsDataType::IntN) == column_type_of(TdsDataType::Int4),
        column_type_of(TdsDataType::FltN) == column_type_of(TdsDataType::Flt8),
        column_type_of(TdsDataType::MoneyN) == column_type_of(TdsDataType::Money),
        column_type_with_length(TdsDataType::IntN, 1) == column_type_of(TdsDataType::Int1),
        column_type_with_length(TdsDataType::IntN, 2) == column_type_of(TdsDataType::Int2),
        column_type_with_length(TdsDataType::IntN, 4) == column_type_of(TdsDataType::Int4),
        column_type_with_length(TdsDataType::IntN, 8) == column_type_of(TdsDataType::Int8),
        column_type_with_length(TdsDataType::FltN, 4) == column_type_of(TdsDataType::Flt4),
        column_type_with_length(TdsDataType::FltN, 8) == column_type_of(TdsDataType::Flt8),
        column_type_with_length(TdsDataType::MoneyN, 4) == column_type_of(TdsDataType::Money4),
        column_type_with_length(TdsDataType::MoneyN, 8) == column_type_of(TdsDataType::Money),
{
}

/// The column type of a wire type, resolving the width of `IntN`, `FltN`
/// and `MoneyN` from the descriptor's byte length.
pub open spec fn column_type_with_length(dt: TdsDataType, byte_length: usize) -> ColumnType {
    match dt {
        TdsDataType::IntN => if byte_length == 1 {
            ColumnType::Int1
        } else if byte_length == 2 {
            ColumnType::Int2
        } else if byte_length == 8 {
            ColumnType::Int8
        } else {
            ColumnType::Int4
        },
        TdsDataType::FltN => if byte_length == 4 {
            ColumnType::Float4
        } else {
            ColumnType::Float8
        },
        TdsDataType::MoneyN => if byte_length == 4 {
            ColumnType::Money4
        } else {
            ColumnType::Money
        },
        other => column_type_of(other),
    }
}

impl From<TdsDataType> for ColumnType {
    fn from(dt: TdsDataType) -> (r: Self) {
        match dt {
            TdsDataType::Void => ColumnType::Null,
            TdsDataType::Image => ColumnType::Image,
            TdsDataType::Text => ColumnType::Text,
            TdsDataType::Guid => ColumnType::Guid,
            TdsDataType::VarBinary => ColumnType::VarBinary,
            TdsDataType::IntN => ColumnType::Int4,
            TdsDataType::VarChar => ColumnType::Varchar,
            TdsDataType::DateN => ColumnType::Date,
            TdsDataType::TimeN => ColumnType::Time,
            TdsDataType::DateTime2N => ColumnType::Datetime2,
            TdsDataType::DateTimeOffsetN => ColumnType::DatetimeOffset,
            TdsDataType::Binary => ColumnType::Binary,
            TdsDataType::Char => ColumnType::Char,
            TdsDataType::Int1 => ColumnType::Int1,
            TdsDataType::Bit => ColumnType::Bit,
            TdsDataType::Int2 => ColumnType::Int2,
            TdsDataType::Decimal => ColumnType::Decimaln,
            TdsDataType::Int4 => ColumnType::Int4,
            TdsDataType::DateTim4 => ColumnType::Datetime4,
            TdsDataType::Flt4 => ColumnType::Float4,
            TdsDataType::Money => ColumnType::Money,
            TdsDataType::DateTime => ColumnType::Datetime,
            TdsDataType::Flt8 => ColumnType::Float8,
            TdsDataType::Numeric => ColumnType::Numericn,
            TdsDataType::SsVariant => ColumnType::Ssvariant,
            TdsDataType::NText => ColumnType::NText,
            TdsDataType::BitN => ColumnType::Bit,
            TdsDataType::DecimalN => ColumnType::Decimaln,
            TdsDataType::NumericN => ColumnType::Numericn,
            TdsDataType::FltN => ColumnType::Float8,
            TdsDataType::MoneyN => ColumnType::Money,
            TdsDataType::DateTimeN => ColumnType::Datetime,
            TdsDataType::Money4 => ColumnType::Money4,
            TdsDataType::Int8 => ColumnType::Int8,
            TdsDataType::BigVarBinary => ColumnType::VarBinary,
            TdsDataType::BigVarChar => ColumnType::Varchar,
            TdsDataType::BigBinary => ColumnType::Binary,
            TdsDataType::BigChar => ColumnType::Char,
            TdsDataType::NVarChar => ColumnType::NVarchar,
            TdsDataType::NChar => ColumnType::NChar,
            TdsDataType::Udt => ColumnType::Udt,
            TdsDataType::Xml => ColumnType::Xml,
            TdsDataType::SqlTable => ColumnType::Null,
            TdsDataType::Json => ColumnType::Json,
            TdsDataType::Vector => ColumnType::Vector,
            TdsDataType::NoType => ColumnType::Null,
        }
    }
}

impl vstd::std_specs::convert::FromSpecImpl<TdsDataType> for ColumnType {
    open spec fn obeys_from_spec() -> bool {
        true
    }

    open spec fn from_spec(v: TdsDataType) -> ColumnType {
        column_type_of(v)
    }
}

impl ColumnType {
    /// Resolve the column type from the TDS data type and the wire byte
    /// length, which tells the width of `IntN`, `FltN` and `MoneyN`. CLR
    /// UDTs resolve to [`ColumnType::Udt`]; [`Column::from_tds`] uses the UDT
    /// identity to recognize the spatial types.
    pub fn from_tds_with_length(dt: TdsDataType, byte_length: usize) -> (r: Self)
        ensures
            r == column_type_with_length(dt, byte_length),
    {
        match dt {
            TdsDataType::IntN => if byte_length == 1 {
                ColumnType::Int1
            } else if byte_length == 2 {
                ColumnType::Int2
            } else if byte_length == 4 {
                ColumnType::Int4
            } else if byte_length == 8 {
                ColumnType::Int8
            } else {
                ColumnType::Int4
            },
            TdsDataType::FltN => if byte_length == 4 {
                ColumnType::Float4
            } else {
                ColumnType::Float8
            },
            TdsDataType::MoneyN => if byte_length == 4 {
                ColumnType::Money4
            } else {
                ColumnType::Money
            },
            other => ColumnType::from(other),
        }
    }

    /// The column type that a result column's metadata describes: a UDT
    /// whose schema is `sys` and whose name is `geography` or `geometry`
    /// (ASCII case-insensitively) is spatial; every other column resolves by
    /// its wire type and width.
    pub fn from_metadata(meta: &ColumnMetadata) -> (r: Self)
        ensures
            r == metadata_column_type(*meta),
    {
        if meta.data_type == TdsDataType::Udt {
            if let Some(info) = &meta.udt_info {
                if eq_ignore_ascii_case(info.schema_name.as_str(), "sys") {
                    if eq_ignore_ascii_case(info.udt_name.as_str(), "geography") {
                        return ColumnType::Geography;
                    }
                    if eq_ignore_ascii_case(info.udt_name.as_str(), "geometry") {
                        return ColumnType::Geometry;
                    }
                }
            }
        }
        Self::from_tds_with_length(meta.data_type, meta.length)
    }
}

/// The column type of a result column (see [`ColumnType::from_metadata`]).
pub open spec fn metadata_column_type(meta: ColumnMetadata) -> ColumnType {
    if meta.data_type == TdsDataType::Udt && meta.udt_info is Some && eq_ignore_ascii_case_spec(
        meta.udt_info.unwrap().schema_name@,
        "sys"@,
    ) && eq_ignore_ascii_case_spec(meta.udt_info.unwrap().udt_name@, "geography"@) {
        ColumnType::Geography
    } else if meta.data_type == TdsDataType::Udt && meta.udt_info is Some
        && eq_ignore_ascii_case_spec(meta.udt_info.unwrap().schema_name@, "sys"@)
        && eq_ignore_ascii_case_spec(meta.udt_info.unwrap().udt_name@, "geometry"@) {
        ColumnType::Geometry
    } else {
        column_type_with_length(meta.data_type, meta.length)
    }
}

/// SQL Server collation metadata: wire identifiers and flags, not a resolved
/// collation name.
#[derive(Debug, Clone, Copy, PartialEq, Eq, Structural)]
pub struct Collation {
    /// Raw 32-bit collation info value.
    pub info: u32,
    /// LCID language identifier from the collation info.
    pub lcid_language_id: i32,
    /// Collation comparison flags.
    pub col_flags: u8,
    /// SQL Server sort ID.
    pub sort_id: u8,
}

/// Source table name components, when supplied by SQL Server (for legacy
/// `TEXT`, `NTEXT` and `IMAGE` columns).
#[derive(Debug, Clone, PartialEq, Eq)]
pub struct MultiPartName {
    /// Server name portion.
    pub server_name: Option<String>,
    /// Catalog/database name portion.
    pub catalog_name: Option<String>,
    /// Schema name portion.
    pub schema_name: Option<String>,
    /// Table name portion.
    pub table_name: String,
}

fn clone_opt_string(o: &Option<String>) -> (r: Option<String>)
    ensures
        r == *o,
{
    match o {
        Some(s) => Some(s.clone()),
        None => None,
    }
}

impl MultiPartName {
    fn duplicate(&self) -> (r: Self)
        ensures
            r == *self,
    {
        MultiPartName {
            server_name: clone_opt_string(&self.server_name),
            catalog_name: clone_opt_string(&self.catalog_name),
            schema_name: clone_opt_string(&self.schema_name),
            table_name: self.table_name.clone(),
        }
    }
}

/// Identity of a CLR user-defined type, as the column metadata reports it.
#[derive(Debug, Clone)]
pub struct UdtInfo {
    /// Database containing the UDT definition.
    pub db_name: String,
    /// Schema of the UDT.
    pub schema_name: String,
    /// Name of the UDT.
    pub udt_name: String,
    /// Assembly-qualified CLR type name.
    pub assembly_qualified_name: String,
    /// Maximum serialized size.
    pub max_byte_size: u16,
}

/// The metadata of one result column as the server describes it
/// (`COLMETADATA`): wire type, type descriptor and flags.
#[derive(Debug, Clone)]
pub struct ColumnMetadata {
    /// Column name.
    pub column_name: String,
    /// Wire data type of the column.
    pub data_type: TdsDataType,
    /// Wire data type recorded in the type descriptor.
    pub descriptor_type: TdsDataType,
    /// Byte length of the type descriptor.
    pub length: usize,
    /// The COLMETADATA flags word.
    pub flags: u16,
    /// SQL Server user type ordinal.
    pub user_type: u32,
    /// Whether the descriptor is partially length-prefixed (PLP).
    pub is_plp: bool,
    /// Declared precision (decimal/numeric, money).
    pub precision: Option<u8>,
    /// Declared scale (decimal/numeric, temporal, vector base type).
    pub scale: Option<u8>,
    /// String collation.
    pub collation: Option<Collation>,
    /// Source table name.
    pub multi_part_name: Option<MultiPartName>,
    /// UDT identity, for CLR UDT columns.
    pub udt_info: Option<UdtInfo>,
}

/// Whether any of the bits of `mask` is set in `flags`.
pub open spec fn flag_set(flags: u16, mask: u16) -> bool {
    flags & mask != 0
}

impl ColumnMetadata {
    /// Column allows `NULL` values (flag bit 0).
    pub fn is_nullable(&self) -> (r: bool)
        ensures
            r == flag_set(self.flags, 0x0001),
    {
        self.flags & 0x0001 != 0
    }

    /// Column uses a case-sensitive collation (flag bit 1).
    pub fn is_case_sensitive(&self) -> (r: bool)
        ensures
            r == flag_set(self.flags, 0x0002),
    {
        self.flags & 0x0002 != 0
    }

    /// Column is an identity column (flag bit 4).
    pub fn is_identity(&self) -> (r: bool)
        ensures
            r == flag_set(self.flags, 0x0010),
    {
        self.flags & 0x0010 != 0
    }

    /// Column value is computed by the server (flag bit 5).
    pub fn is_computed(&self) -> (r: bool)
        ensures
            r == flag_set(self.flags, 0x0020),
    {
        self.flags & 0x0020 != 0
    }

    /// Column is a sparse column set (flag bit 10).
    pub fn is_sparse_column_set(&self) -> (r: bool)
        ensures
            r == flag_set(self.flags, 0x0400),
    {
        self.flags & 0x0400 != 0
    }

    /// Column is protected by Always Encrypted (flag bit 11).
    pub fn is_encrypted(&self) -> (r: bool)
        ensures
            r == flag_set(self.flags, 0x0800),
    {
        self.flags & 0x0800 != 0
    }
}

/// Column metadata exposed to facade consumers. Flags describe the returned
/// result column, not necessarily its base-table definition.
#[derive(Debug, Clone)]
pub struct Column {
    /// Column name.
    pub name: String,
    /// Column data type.
    pub column_type: ColumnType,
    /// The server's `fNullable` flag.
    pub nullable: bool,
    /// Whether the column is an identity column.
    pub is_identity: bool,
    /// Whether the column is computed by SQL Server.
    pub is_computed: bool,
    /// The server's `fCaseSen` flag.
    pub is_case_sensitive: bool,
    /// Whether the column is a sparse column set.
    pub is_sparse_column_set: bool,
    /// Whether the column is protected by Always Encrypted.
    pub is_encrypted: bool,
    /// Whether the column uses PLP (`max`) encoding.
    pub is_plp: bool,
    /// Wire byte length from the TDS type descriptor.
    pub byte_length: usize,
    /// Numeric precision, when available.
    pub precision: Option<u8>,
    /// Decimal/numeric/time scale, when supplied by SQL Server.
    pub scale: Option<u8>,
    /// String collation metadata, when supplied by SQL Server.
    pub collation: Option<Collation>,
    /// SQL Server user type ordinal.
    pub user_type: u32,
    /// Four-part source table name, when supplied by SQL Server.
    pub multi_part_name: Option<MultiPartName>,
}

/// The finite string capacity of a column: UTF-16 code units for the Unicode
/// types, bytes for the single-byte types, nothing for PLP and non-string
/// columns.
pub open spec fn char_length_of(c: Column) -> Option<usize> {
    if c.is_plp {
        None
    } else {
        match c.column_type {
            ColumnType::NVarchar | ColumnType::NChar | ColumnType::NText => Some(
                (c.byte_length / 2) as usize,
            ),
            ColumnType::Varchar | ColumnType::Char | ColumnType::Text => Some(c.byte_length),
            _ => None,
        }
    }
}

/// The column that a result column's metadata describes: its name, type
/// (see [`metadata_column_type`]), flags and descriptor.
pub open spec fn column_describes(c: Column, meta: ColumnMetadata) -> bool {
    &&& c.name@ == meta.column_name@
    &&& c.column_type == metadata_column_type(meta)
    &&& c.nullable == flag_set(meta.flags, 0x0001)
    &&& c.is_case_sensitive == flag_set(meta.flags, 0x0002)
    &&& c.is_identity == flag_set(meta.flags, 0x0010)
    &&& c.is_computed == flag_set(meta.flags, 0x0020)
    &&& c.is_sparse_column_set == flag_set(meta.flags, 0x0400)
    &&& c.is_encrypted == flag_set(meta.flags, 0x0800)
    &&& c.is_plp == meta.is_plp
    &&& c.byte_length == meta.length
    &&& c.precision == meta.precision
    &&& c.scale == meta.scale
    &&& c.collation == meta.collation
    &&& c.user_type == meta.user_type
    &&& c.multi_part_name == meta.multi_part_name
}

impl Column {
    /// Returns the column name.
    pub fn name(&self) -> (r: &str)
        ensures
            r@ == self.name@,
    {
        self.name.as_str()
    }

    /// Returns the column data type.
    pub fn column_type(&self) -> (r: ColumnType)
        ensures
            r == self.column_type,
    {
        self.column_type
    }

    /// Returns the server's `fNullable` flag for this result column.
    pub fn nullable(&self) -> (r: bool)
        ensures
            r == self.nullable,
    {
        self.nullable
    }

    /// Returns whether the column is an identity column.
    pub fn is_identity(&self) -> (r: bool)
        ensures
            r == self.is_identity,
    {
        self.is_identity
    }

    /// Returns whether the column is computed by SQL Server.
    pub fn is_computed(&self) -> (r: bool)
        ensures
            r == self.is_computed,
    {
        self.is_computed
    }

    /// Returns the server's `fCaseSen` flag.
    pub fn is_case_sensitive(&self) -> (r: bool)
        ensures
            r == self.is_case_sensitive,
    {
        self.is_case_sensitive
    }

    /// Returns whether the column is the special XML sparse column set.
    pub fn is_sparse_column_set(&self) -> (r: bool)
        ensures
            r == self.is_sparse_column_set,
    {
        self.is_sparse_column_set
    }

    /// Returns whether the column is protected by Always Encrypted.
    pub fn is_encrypted(&self) -> (r: bool)
        ensures
            r == self.is_encrypted,
    {
        self.is_encrypted
    }

    /// Returns whether the column uses partially length-prefixed (PLP) encoding.
    pub fn is_plp(&self) -> (r: bool)
        ensures
            r == self.is_plp,
    {
        self.is_plp
    }

    /// Returns the TDS wire byte length of the type descriptor (PLP types may
    /// report a sentinel such as `0xFFFF`).
    pub fn byte_length(&self) -> (r: usize)
        ensures
            r == self.byte_length,
    {
        self.byte_length
    }

    /// Returns decimal/numeric or temporal scale metadata, when supplied.
    pub fn scale(&self) -> (r: Option<u8>)
        ensures
            r == self.scale,
    {
        self.scale
    }

    /// Returns numeric precision metadata, when available.
    pub fn precision(&self) -> (r: Option<u8>)
        ensures
            r == self.precision,
    {
        self.precision
    }

    /// Returns string collation metadata, when available.
    pub fn collation(&self) -> (r: Option<Collation>)
        ensures
            r == self.collation,
    {
        self.collation
    }

    /// Returns the SQL Server user type ordinal.
    pub fn user_type(&self) -> (r: u32)
        ensures
            r == self.user_type,
    {
        self.user_type
    }

    /// Returns the source table four-part name, when available.
    pub fn multi_part_name(&self) -> (r: Option<&MultiPartName>)
        ensures
            r == match self.multi_part_name {
                Some(n) => Some(&n),
                None => None::<&MultiPartName>,
            },
    {
        match &self.multi_part_name {
            Some(n) => Some(n),
            None => None,
        }
    }

    /// Returns the finite string capacity (e.g. `255` for `NVARCHAR(255)`):
    /// UTF-16 code units (`byte_length / 2`) for `NVARCHAR`/`NCHAR`/`NTEXT`,
    /// bytes for `VARCHAR`/`CHAR`/`TEXT`; `None` for PLP and non-string
    /// columns.
    pub fn char_length(&self) -> (r: Option<usize>)
        ensures
            r == char_length_of(*self),
    {
        if self.is_plp {
            return None;
        }
        match self.column_type {
            ColumnType::NVarchar | ColumnType::NChar | ColumnType::NText => Some(
                self.byte_length / 2,
            ),
            ColumnType::Varchar | ColumnType::Char | ColumnType::Text => Some(self.byte_length),
            _ => None,
        }
    }

    /// Create a column from the server's column metadata.
    pub fn from_tds(meta: &ColumnMetadata) -> (r: Self)
        ensures
            column_describes(r, *meta),
    {
        Column {
            name: meta.column_name.clone(),
            column_type: ColumnType::from_metadata(meta),
            nullable: meta.is_nullable(),
            is_identity: meta.is_identity(),
            is_computed: meta.is_computed(),
            is_case_sensitive: meta.is_case_sensitive(),
            is_sparse_column_set: meta.is_sparse_column_set(),
            is_encrypted: meta.is_encrypted(),
            is_plp: meta.is_plp,
            byte_length: meta.length,
            precision: meta.precision,
            scale: meta.scale,
            collation: meta.collation,
            user_type: meta.user_type,
            multi_part_name: match &meta.multi_part_name {
                Some(n) => Some(n.duplicate()),
                None => None,
            },
        }
    }

    /// A nullable column with the given name, type and byte length and no
    /// other metadata.
    pub fn test_column(name: &str, column_type: ColumnType, byte_length: usize) -> (r: Self)
        ensures
            r.name@ == name@,
            r.column_type == column_type,
            r.byte_length == byte_length,
            r.nullable,
            !r.is_identity && !r.is_computed && !r.is_case_sensitive,
            !r.is_sparse_column_set && !r.is_encrypted && !r.is_plp,
            r.precision is None && r.scale is None && r.collation is None,
            r.user_type == 0,
            r.multi_part_name is None,
    {
        Column {
            name: String::from_str(name),
            column_type,
            nullable: true,
            is_identity: false,
            is_computed: false,
            is_case_sensitive: false,
            is_sparse_column_set: false,
            is_encrypted: false,
            is_plp: false,
            byte_length,
            precision: None,
            scale: None,
            collation: None,
            user_type: 0,
            multi_part_name: None,
        }
    }
}

} // verus!
