//! Server-side prepared statements (`sp_prepare` / `sp_execute` /
//! `sp_unprepare`) and the parameter declarations they are prepared with.
//!
//! A statement is prepared once with a declaration such as
//! `@P1 int, @P2 nvarchar(4000)`, derived from the types of sample
//! parameters, and then executed by its server-side handle.

use vstd::prelude::*;

use crate::column::{spec_wire_code, TdsDataType};
use crate::error::{Error, Result};
use crate::text::{decimal_digits, push_decimal, push_str, string_from_chars, chars_of};

verus! {

/// Element type of a vector parameter.
#[derive(Debug, Clone, Copy, PartialEq, Eq, Structural)]
pub enum VectorBaseType {
    /// 32-bit floats.
    Float32,
    /// 16-bit floats.
    Float16,
}

/// The SQL type of an RPC parameter, without its value: what a parameter
/// declaration is made of.
#[derive(Debug)]
pub enum SqlParamType {
    Bit,
    TinyInt,
    SmallInt,
    Int,
    BigInt,
    Real,
    Float,
    /// `(precision, scale)` of the carried value, if any.
    Decimal(Option<(u8, u8)>),
    /// `(precision, scale)` of the carried value, if any.
    Numeric(Option<(u8, u8)>),
    Money,
    SmallMoney,
    /// Fractional-second scale of the carried value, if any.
    Time(Option<u8>),
    /// Fractional-second scale of the carried value, if any.
    DateTime2(Option<u8>),
    /// Fractional-second scale of the carried value, if any.
    DateTimeOffset(Option<u8>),
    SmallDateTime,
    DateTime,
    Date,
    NVarchar(u16),
    NVarcharMax,
    Varchar(u16),
    VarcharMax,
    VarBinary(u16),
    VarBinaryMax,
    Binary(u16),
    Char(u16),
    NChar(u16),
    Text,
    NText,
    Json,
    Xml,
    Uuid,
    /// Dimensions and element type.
    Vector(u16, VectorBaseType),
    /// `sql_variant` holding a value of the inner type.
    Variant(Box<SqlParamType>),
    /// Table-valued parameter of the named table type.
    Table { schema_name: Option<String>, table_type_name: String },
}

/// The wire type that carries a parameter of this SQL type.
pub open spec fn param_wire_type(p: SqlParamType) -> TdsDataType {
    match p {
        SqlParamType::Bit => TdsDataType::Bit,
        SqlParamType::TinyInt => TdsDataType::Int1,
        SqlParamType::SmallInt => TdsDataType::Int2,
        SqlParamType::Int => TdsDataType::Int4,
        SqlParamType::BigInt => TdsDataType::Int8,
        SqlParamType::Real => TdsDataType::Flt4,
        SqlParamType::Float => TdsDataType::Flt8,
        SqlParamType::Decimal(_) => TdsDataType::DecimalN,
        SqlParamType::Numeric(_) => TdsDataType::NumericN,
        SqlParamType::NVarchar(_) => TdsDataType::NVarChar,
        SqlParamType::VarBinary(_) => TdsDataType::BigVarBinary,
        SqlParamType::Binary(_) => TdsDataType::BigBinary,
        SqlParamType::Char(_) => TdsDataType::Char,
        SqlParamType::NChar(_) => TdsDataType::NChar,
        SqlParamType::Text => TdsDataType::Text,
        SqlParamType::NText => TdsDataType::NText,
        SqlParamType::Json => TdsDataType::Json,
        SqlParamType::Money => TdsDataType::Money,
        SqlParamType::SmallMoney => TdsDataType::Money4,
        SqlParamType::Time(_) => TdsDataType::TimeN,
        SqlParamType::DateTime2(_) => TdsDataType::DateTime2N,
        SqlParamType::DateTimeOffset(_) => TdsDataType::DateTimeOffsetN,
        SqlParamType::SmallDateTime => TdsDataType::DateTim4,
        SqlParamType::NVarcharMax => TdsDataType::NVarChar,
        SqlParamType::Varchar(_) => TdsDataType::VarChar,
        SqlParamType::VarcharMax => TdsDataType::VarChar,
        SqlParamType::VarBinaryMax => TdsDataType::VarBinary,
        SqlParamType::Xml => TdsDataType::Xml,
        SqlParamType::Uuid => TdsDataType::Guid,
        SqlParamType::DateTime => TdsDataType::DateTime,
        SqlParamType::Date => TdsDataType::DateN,
        SqlParamType::Vector(_, _) => TdsDataType::Vector,
        SqlParamType::Variant(_) => TdsDataType::SsVariant,
        SqlParamType::Table { .. } => TdsDataType::SqlTable,
    }
}

fn wire_type(p: &SqlParamType) -> (r: TdsDataType)
    ensures
        r == param_wire_type(*p),
{
    match p {
        SqlParamType::Bit => TdsDataType::Bit,
        SqlParamType::TinyInt => TdsDataType::Int1,
        SqlParamType::SmallInt => TdsDataType::Int2,
        SqlParamType::Int => TdsDataType::Int4,
        SqlParamType::BigInt => TdsDataType::Int8,
        SqlParamType::Real => TdsDataType::Flt4,
        SqlParamType::Float => TdsDataType::Flt8,
        SqlParamType::Decimal(_) => TdsDataType::DecimalN,
        SqlParamType::Numeric(_) => TdsDataType::NumericN,
        SqlParamType::NVarchar(_) => TdsDataType::NVarChar,
        SqlParamType::VarBinary(_) => TdsDataType::BigVarBinary,
        SqlParamType::Binary(_) => TdsDataType::BigBinary,
        SqlParamType::Char(_) => TdsDataType::Char,
        SqlParamType::NChar(_) => TdsDataType::NChar,
        SqlParamType::Text => TdsDataType::Text,
        SqlParamType::NText => TdsDataType::NText,
        SqlParamType::Json => TdsDataType::Json,
        SqlParamType::Money => TdsDataType::Money,
        SqlParamType::SmallMoney => TdsDataType::Money4,
        SqlParamType::Time(_) => TdsDataType::TimeN,
        SqlParamType::DateTime2(_) => TdsDataType::DateTime2N,
        SqlParamType::DateTimeOffset(_) => TdsDataType::DateTimeOffsetN,
        SqlParamType::SmallDateTime => TdsDataType::DateTim4,
        SqlParamType::NVarcharMax => TdsDataType::NVarChar,
        SqlParamType::Varchar(_) => TdsDataType::VarChar,
        SqlParamType::VarcharMax => TdsDataType::VarChar,
        SqlParamType::VarBinaryMax => TdsDataType::VarBinary,
        SqlParamType::Xml => TdsDataType::Xml,
        SqlParamType::Uuid => TdsDataType::Guid,
        SqlParamType::DateTime => TdsDataType::DateTime,
        SqlParamType::Date => TdsDataType::DateN,
        SqlParamType::Vector(_, _) => TdsDataType::Vector,
        SqlParamType::Variant(_) => TdsDataType::SsVariant,
        SqlParamType::Table { .. } => TdsDataType::SqlTable,
    }
}

/// The T-SQL name that the driver gives a wire type in parameter
/// declarations: `TdsDataType::try_from` on the code, then
/// `get_meta_type_name`. `None` for codes that are no wire type and for the
/// wire types without a declaration name (void, the nullable `*N` integer,
/// bit, float, money and datetime forms, binary, and table).
pub open spec fn tds_meta_type_name(code: u8) -> Option<Seq<char>> {
    match code {
        0x22 => Some("image"@),
        0x23 => Some("text"@),
        0x24 => Some("uniqueidentifier"@),
        0x25 => Some("varbinary"@),
        0x27 => Some("varchar"@),
        0x28 => Some("date"@),
        0x29 => Some("time"@),
        0x2A => Some("datetime2"@),
        0x2B => Some("datetimeoffset"@),
        0x2F => Some("char"@),
        0x30 => Some("tinyint"@),
        0x32 => Some("bit"@),
        0x34 => Some("smallint"@),
        0x37 => Some("decimal"@),
        0x38 => Some("int"@),
        0x3A => Some("smalldatetime"@),
        0x3B => Some("real"@),
        0x3C => Some("money"@),
        0x3D => Some("datetime"@),
        0x3E => Some("float"@),
        0x3F => Some("numeric"@),
        0x62 => Some("sql_variant"@),
        0x63 => Some("ntext"@),
        0x6A => Some("decimal"@),
        0x6C => Some("numeric"@),
        0x7A => Some("smallmoney"@),
        0x7F => Some("bigint"@),
        0xA5 => Some("varbinary"@),
        0xA7 => Some("varchar"@),
        0xAD => Some("binary"@),
        0xAF => Some("char"@),
        0xE7 => Some("nvarchar"@),
        0xEF => Some("nchar"@),
        0xF0 => Some("udt"@),
        0xF1 => Some("xml"@),
        0xF4 => Some("json"@),
        0xF5 => Some("vector"@),
        _ => None,
    }
}

/// The driver's T-SQL name of the wire type with the given code
/// (`TdsDataType::try_from` and `get_meta_type_name`), as the table
/// [`tds_meta_type_name`] lists it; the driver's error for codes without
/// one.
#[verifier::external_body]
fn meta_type_name(code: u8) -> (r: core::result::Result<String, mssql_tds::error::Error>)
    ensures
        r is Ok <==> tds_meta_type_name(code) is Some,
        r matches Ok(name) ==> tds_meta_type_name(code) == Some(name@),
{
    mssql_tds::datatypes::sqldatatypes::TdsDataType::try_from(code)
        .and_then(|t| t.get_meta_type_name())
        .map(|name| name.to_string())
}

/// `s` with every `]` doubled, as in a bracket-quoted T-SQL identifier.
pub open spec fn escape_brackets(s: Seq<char>) -> Seq<char>
    decreases s.len(),
{
    if s.len() == 0 {
        s
    } else if s.last() == ']' {
        escape_brackets(s.drop_last()) + "]]"@
    } else {
        escape_brackets(s.drop_last()).push(s.last())
    }
}

/// The length/precision/scale suffix of a declaration, `None` when the type
/// takes no parenthesized argument.
pub open spec fn declaration_suffix(p: SqlParamType) -> Option<Seq<char>> {
    match p {
        SqlParamType::NVarcharMax | SqlParamType::VarcharMax | SqlParamType::VarBinaryMax => Some(
            "MAX"@,
        ),
        SqlParamType::NVarchar(len) => if len > 4000 {
            Some("MAX"@)
        } else {
            Some(decimal_digits(len as nat))
        },
        SqlParamType::Varchar(len) | SqlParamType::VarBinary(len) => if len > 8000 {
            Some("MAX"@)
        } else {
            Some(decimal_digits(len as nat))
        },
        SqlParamType::Binary(len) | SqlParamType::Char(len) | SqlParamType::NChar(len) => Some(
            decimal_digits(len as nat),
        ),
        SqlParamType::Decimal(ps) | SqlParamType::Numeric(ps) => match ps {
            Some((precision, scale)) => Some(
                decimal_digits(precision as nat) + ","@ + decimal_digits(scale as nat),
            ),
            None => Some("18,10"@),
        },
        SqlParamType::Time(scale) | SqlParamType::DateTime2(scale) | SqlParamType::DateTimeOffset(
            scale,
        ) => Some(
            decimal_digits(
                match scale {
                    Some(s) => s as nat,
                    None => 7,
                },
            ),
        ),
        SqlParamType::Vector(dimensions, VectorBaseType::Float32) => Some(
            decimal_digits(dimensions as nat),
        ),
        SqlParamType::Vector(dimensions, VectorBaseType::Float16) => Some(
            decimal_digits(dimensions as nat) + ", float16"@,
        ),
        _ => None,
    }
}

/// The T-SQL declaration of a parameter type (`int`, `nvarchar(4000)`,
/// `decimal(8,2)`, `[dbo].[Items] READONLY`, ...); `None` when the driver has
/// no name for its wire type.
pub open spec fn declaration_text(p: SqlParamType) -> Option<Seq<char>> {
    match p {
        SqlParamType::Table { schema_name, table_type_name } => Some(
            "["@ + escape_brackets(
                match schema_name {
                    Some(s) => s@,
                    None => "dbo"@,
                },
            ) + "].["@ + escape_brackets(table_type_name@) + "] READONLY"@,
        ),
        _ => match tds_meta_type_name(spec_wire_code(param_wire_type(p))) {
            None => None,
            Some(name) => Some(named_declaration(name, p)),
        },
    }
}

/// The declaration of a parameter type whose wire type the driver names
/// `name`: the name, followed by the parenthesized suffix if the type has one.
pub open spec fn named_declaration(name: Seq<char>, p: SqlParamType) -> Seq<char> {
    match declaration_suffix(p) {
        None => name,
        Some(suffix) => name + "("@ + suffix + ")"@,
    }
}

/// A length-bounded string or binary parameter is declared with its length
/// in decimal digits, or `MAX` exactly when the length passes the type's
/// largest bounded length (4000 for `nvarchar`, 8000 for `varchar` and
/// `varbinary`); fixed-length types always carry their length, and
/// `varchar` and `varbinary` of one length are declared alike.
pub proof fn lemma_length_declaration(len: u16)
    ensures
        declaration_suffix(SqlParamType::NVarchar(len)) == Some(
            if len > 4000 { "MAX"@ } else { decimal_digits(len as nat) },
        ),
        declaration_suffix(SqlParamType::Varchar(len)) == Some(
            if len > 8000 { "MAX"@ } else { decimal_digits(len as nat) },
        ),
        declaration_suffix(SqlParamType::VarBinary(len)) == declaration_suffix(SqlParamType::Varchar(len)),
        declaration_suffix(SqlParamType::Binary(len)) == Some(decimal_digits(len as nat)),
        declaration_suffix(SqlParamType::Char(len)) == Some(decimal_digits(len as nat)),
        declaration_suffix(SqlParamType::NChar(len)) == Some(decimal_digits(len as nat)),
{
}

/// A decimal or numeric parameter is declared with its precision first and
/// its scale second, `(precision,scale)`, both in decimal digits, the same
/// for both types; without a precision and scale it is declared `(18,10)`.
pub proof fn lemma_decimal_declaration(name: Seq<char>, ps: Option<(u8, u8)>)
    ensures
        declaration_suffix(SqlParamType::Decimal(ps)) == declaration_suffix(SqlParamType::Numeric(ps)),
        ps matches Some((precision, scale)) ==> {
            &&& declaration_suffix(SqlParamType::Numeric(ps))
                == Some(decimal_digits(precision as nat) + ","@ + decimal_digits(scale as nat))
            &&& named_declaration(name, SqlParamType::Numeric(ps))
                == name + "("@ + decimal_digits(precision as nat) + ","@ + decimal_digits(scale as nat) + ")"@
            &&& named_declaration(name, SqlParamType::Decimal(ps))
                == name + "("@ + decimal_digits(precision as nat) + ","@ + decimal_digits(scale as nat) + ")"@
        },
        ps is None ==> declaration_suffix(SqlParamType::Numeric(ps)) == Some("18,10"@),
{
}

/// Unicode string types downgraded to their single-byte forms when string
/// parameters are not sent as Unicode.
pub open spec fn encoded_param_type(p: SqlParamType, unicode: bool) -> SqlParamType {
    if unicode {
        p
    } else {
        match p {
            SqlParamType::NVarchar(len) => SqlParamType::Varchar(len),
            SqlParamType::NVarcharMax => SqlParamType::VarcharMax,
            other => other,
        }
    }
}

/// The positional name of the parameter at `index`: `@P1`, `@P2`, ...
pub open spec fn param_name_text(index: nat) -> Seq<char> {
    "@P"@ + decimal_digits(index + 1)
}

/// The comma-separated declaration list of `params` (`@P1 int, @P2 bit`);
/// `None` when some parameter has no declaration.
pub open spec fn declaration_list(params: Seq<SqlParamType>, unicode: bool) -> Option<Seq<char>>
    decreases params.len(),
{
    if params.len() == 0 {
        Some(Seq::empty())
    } else {
        let last = params.len() - 1;
        match (
            declaration_list(params.drop_last(), unicode),
            declaration_text(encoded_param_type(params[last], unicode)),
        ) {
            (Some(prefix), Some(decl)) => Some(
                (if last == 0 {
                    prefix
                } else {
                    prefix + ", "@
                }) + param_name_text(last as nat) + " "@ + decl,
            ),
            _ => None,
        }
    }
}

/// Unicode string types downgraded when string parameters are sent as
/// single-byte text.
pub fn encode_string_parameter_type(p: SqlParamType, unicode: bool) -> (r: SqlParamType)
    ensures
        r == encoded_param_type(p, unicode),
{
    if unicode {
        return p;
    }
    match p {
        SqlParamType::NVarchar(len) => SqlParamType::Varchar(len),
        SqlParamType::NVarcharMax => SqlParamType::VarcharMax,
        other => other,
    }
}

/// The positional name of the parameter at `index`: `@P1`, `@P2`, ...
pub fn parameter_name(index: usize) -> (r: String)
    requires
        index < usize::MAX,
    ensures
        r@ == param_name_text(index as nat),
{
    let mut out: Vec<char> = Vec::new();
    push_param_name(&mut out, index);
    string_from_chars(out)
}

fn push_param_name(out: &mut Vec<char>, index: usize)
    requires
        index < usize::MAX,
    ensures
        final(out)@ == old(out)@ + param_name_text(index as nat),
{
    push_str(out, "@P");
    push_decimal(out, (index + 1) as u128);
    assert(final(out)@ =~= old(out)@ + param_name_text(index as nat));
}

fn push_escaped(out: &mut Vec<char>, s: &str)
    ensures
        final(out)@ == old(out)@ + escape_brackets(s@),
{
    let cs = chars_of(s);
    let mut i: usize = 0;
    while i < cs.len()
        invariant
            0 <= i <= cs.len(),
            cs@ == s@,
            out@ == old(out)@ + escape_brackets(cs@.subrange(0, i as int)),
        decreases cs.len() - i,
    {
        let ghost before = out@;
        let c = cs[i];
        if c == ']' {
            out.push(']');
            out.push(']');
        } else {
            out.push(c);
        }
        proof {
            let pre = cs@.subrange(0, i as int);
            let next = cs@.subrange(0, i + 1);
            assert(next.drop_last() =~= pre);
            assert(next.last() == c);
            reveal_strlit("]]");
        }
        assert(out@ =~= old(out)@ + escape_brackets(cs@.subrange(0, i + 1)));
        i = i + 1;
    }
    assert(cs@.subrange(0, cs.len() as int) =~= cs@);
}

/// Appends the suffix of `p`'s declaration, with its parentheses.
fn push_suffix(out: &mut Vec<char>, p: &SqlParamType) -> (added: bool)
    ensures
        added == declaration_suffix(*p) is Some,
        added ==> final(out)@ == old(out)@ + "("@ + declaration_suffix(*p).unwrap() + ")"@,
        !added ==> final(out)@ == old(out)@,
{
    let scale_of = |s: Option<u8>| -> (r: u8)
        ensures
            r == match s {
                Some(v) => v,
                None => 7u8,
            },
        { match s { Some(v) => v, None => 7 } };
    let ghost start = out@;
    match p {
        SqlParamType::NVarcharMax | SqlParamType::VarcharMax | SqlParamType::VarBinaryMax => {
            push_str(out, "(MAX)");
            proof { reveal_strlit("(MAX)"); reveal_strlit("MAX"); reveal_strlit("("); reveal_strlit(")"); }
            assert(out@ =~= start + "("@ + declaration_suffix(*p).unwrap() + ")"@);
            true
        },
        SqlParamType::NVarchar(len) => {
            if *len > 4000 {
                push_str(out, "(MAX)");
                proof { reveal_strlit("(MAX)"); reveal_strlit("MAX"); reveal_strlit("("); reveal_strlit(")"); }
            } else {
                push_str(out, "(");
                push_decimal(out, *len as u128);
                push_str(out, ")");
            }
            assert(out@ =~= start + "("@ + declaration_suffix(*p).unwrap() + ")"@);
            true
        },
        SqlParamType::Varchar(len) | SqlParamType::VarBinary(len) => {
            if *len > 8000 {
                push_str(out, "(MAX)");
                proof { reveal_strlit("(MAX)"); reveal_strlit("MAX"); reveal_strlit("("); reveal_strlit(")"); }
            } else {
                push_str(out, "(");
                push_decimal(out, *len as u128);
                push_str(out, ")");
            }
            assert(out@ =~= start + "("@ + declaration_suffix(*p).unwrap() + ")"@);
            true
        },
        SqlParamType::Binary(len) | SqlParamType::Char(len) | SqlParamType::NChar(len) => {
            push_str(out, "(");
            push_decimal(out, *len as u128);
            push_str(out, ")");
            assert(out@ =~= start + "("@ + declaration_suffix(*p).unwrap() + ")"@);
            true
        },
        SqlParamType::Decimal(ps) | SqlParamType::Numeric(ps) => {
            match ps {
                Some((precision, scale)) => {
                    push_str(out, "(");
                    push_decimal(out, *precision as u128);
                    push_str(out, ",");
                    push_decimal(out, *scale as u128);
                    push_str(out, ")");
                },
                None => {
                    push_str(out, "(18,10)");
                    proof { reveal_strlit("(18,10)"); reveal_strlit("18,10"); reveal_strlit("("); reveal_strlit(")"); }
                },
            }
            assert(out@ =~= start + "("@ + declaration_suffix(*p).unwrap() + ")"@);
            true
        },
        SqlParamType::Time(scale) | SqlParamType::DateTime2(scale) | SqlParamType::DateTimeOffset(
            scale,
        ) => {
            push_str(out, "(");
            push_decimal(out, scale_of(*scale) as u128);
            push_str(out, ")");
            assert(out@ =~= start + "("@ + declaration_suffix(*p).unwrap() + ")"@);
            true
        },
        SqlParamType::Vector(dimensions, base) => {
            push_str(out, "(");
            push_decimal(out, *dimensions as u128);
            match base {
                VectorBaseType::Float32 => {},
                VectorBaseType::Float16 => {
                    push_str(out, ", float16");
                },
            }
            push_str(out, ")");
            assert(out@ =~= start + "("@ + declaration_suffix(*p).unwrap() + ")"@);
            true
        },
        _ => false,
    }
}

/// Appends the declaration of `p` (see [`declaration_text`]).
fn push_declaration(out: &mut Vec<char>, p: &SqlParamType) -> (r: Result<()>)
    ensures
        r is Ok <==> declaration_text(*p) is Some,
        r is Ok ==> final(out)@ == old(out)@ + declaration_text(*p).unwrap(),
        r matches Err(e) ==> e is Tds,
{
    if let SqlParamType::Table { schema_name, table_type_name } = p {
        push_str(out, "[");
        match schema_name {
            Some(s) => push_escaped(out, s.as_str()),
            None => push_escaped(out, "dbo"),
        }
        push_str(out, "].[");
        push_escaped(out, table_type_name.as_str());
        push_str(out, "] READONLY");
        return Ok(());
    }
    let code = wire_type(p).wire_code();
    match meta_type_name(code) {
        Err(e) => Err(Error::Tds(e)),
        Ok(name) => {
            let decl = PreparedStatement::named_declaration(name.as_str(), p);
            push_str(out, decl.as_str());
            Ok(())
        },
    }
}

/// mssql-tds's `Error::ProtocolError` holding `message`. The error value is
/// opaque to the contracts: nothing is stated of it.
#[verifier::external_body]
fn tds_protocol_error(message: String) -> mssql_tds::error::Error {
    mssql_tds::error::Error::ProtocolError(message)
}

/// The handle that `sp_prepare` returned, from its output parameters, each
/// given as its integer value (`None` for a value of another type): there
/// must be exactly one, and it must be an integer.
pub fn prepared_handle(outputs: &[Option<i32>]) -> (r: Result<i32>)
    ensures
        (outputs@.len() == 1 && outputs@[0] is Some) ==> r == Ok::<i32, Error>(outputs@[0].unwrap()),
        !(outputs@.len() == 1 && outputs@[0] is Some) ==> (r matches Err(e) && e is Tds),
{
    if outputs.len() != 1 {
        return Err(Error::Tds(tds_protocol_error(String::from_str(
            "sp_prepare did not return exactly one output parameter",
        ))));
    }
    match outputs[0] {
        Some(handle) => Ok(handle),
        None => Err(Error::Tds(tds_protocol_error(String::from_str(
            "sp_prepare did not return an integer handle",
        )))),
    }
}

/// A server-side prepared statement: the `sp_prepare` handle plus the
/// original SQL (for debugging), tied to the client session that prepared
/// it. Dropping it does not release the handle; close it through the
/// connection (or drop the connection).
#[derive(Debug)]
pub struct PreparedStatement {
    handle: i32,
    sql: String,
    session: u64,
}

impl PreparedStatement {
    /// The server-side handle.
    pub closed spec fn spec_handle(&self) -> i32 {
        self.handle
    }

    /// The identity of the client session that prepared the statement.
    pub closed spec fn spec_session(&self) -> u64 {
        self.session
    }

    /// A statement prepared in the session with identity `session`.
    pub fn for_session(handle: i32, sql: String, session: u64) -> (r: Self)
        ensures
            r.spec_handle() == handle,
            r.spec_sql() == sql@,
            r.spec_session() == session,
    {
        Self { handle, sql, session }
    }

    /// Checks that the statement belongs to the session with identity
    /// `current`: a statement of another client, or of a session that was
    /// reset since, is refused.
    pub fn validate_session(&self, current: u64) -> (r: Result<()>)
        ensures
            r is Ok <==> self.valid_in(current),
            r is Ok <==> self.spec_session() == current,
            r is Err ==> r == Err::<(), Error>(Error::InvalidPreparedStatement),
    {
        if self.session == current {
            Ok(())
        } else {
            Err(Error::InvalidPreparedStatement)
        }
    }

    /// Whether the statement can run in the session with identity
    /// `current`: only in the session it was prepared in.
    pub open spec fn valid_in(&self, current: u64) -> bool {
        self.spec_session() == current
    }

    /// The prepared SQL text.
    pub closed spec fn spec_sql(&self) -> Seq<char> {
        self.sql@
    }

    /// A statement with the given server handle and SQL text, in the
    /// session with identity 0.
    pub fn new(handle: i32, sql: String) -> (r: Self)
        ensures
            r.spec_handle() == handle,
            r.spec_sql() == sql@,
            r.spec_session() == 0,
    {
        Self { handle, sql, session: 0 }
    }

    /// The server-side `sp_prepare` handle.
    pub fn handle(&self) -> (r: i32)
        ensures
            r == self.spec_handle(),
    {
        self.handle
    }

    /// The original SQL text that was prepared.
    pub fn sql(&self) -> (r: &str)
        ensures
            r@ == self.spec_sql(),
    {
        self.sql.as_str()
    }

    /// The declaration of a parameter type whose wire type the driver names
    /// `name` (such as `nvarchar`): `nvarchar(42)`, `varchar(MAX)`,
    /// `decimal(8,2)`, `time(7)`, or the bare name when the type takes no
    /// argument.
    pub fn named_declaration(name: &str, p: &SqlParamType) -> (r: String)
        ensures
            r@ == named_declaration(name@, *p),
    {
        let mut out: Vec<char> = Vec::new();
        push_str(&mut out, name);
        let _ = push_suffix(&mut out, p);
        assert(out@ =~= named_declaration(name@, *p));
        string_from_chars(out)
    }

    /// The T-SQL declaration of one parameter type, e.g. `nvarchar(4000)`,
    /// `varchar(MAX)`, `decimal(8,2)`, `time(7)` or
    /// `[dbo].[Items] READONLY`.
    pub fn sql_declaration(value: &SqlParamType) -> (r: Result<String>)
        ensures
            r is Ok <==> declaration_text(*value) is Some,
            r matches Ok(s) ==> Some(s@) == declaration_text(*value),
            r matches Err(e) ==> e is Tds,
    {
        let mut out: Vec<char> = Vec::new();
        match push_declaration(&mut out, value) {
            Ok(()) => {
                assert(out@ =~= declaration_text(*value).unwrap());
                Ok(string_from_chars(out))
            },
            Err(e) => Err(e),
        }
    }

    /// The declaration list that a statement with parameters of these types
    /// is prepared with: `@P1 int, @P2 nvarchar(4000), @P3 bit`. With
    /// `unicode` false, string parameters are declared as `varchar`.
    pub fn parameter_declaration(params: &[SqlParamType], unicode: bool) -> (r: Result<String>)
        ensures
            r is Ok <==> declaration_list(params@, unicode) is Some,
            r matches Ok(s) ==> Some(s@) == declaration_list(params@, unicode),
            r matches Err(e) ==> e is Tds,
    {
        let mut out: Vec<char> = Vec::new();
        let mut i: usize = 0;
        while i < params.len()
            invariant
                0 <= i <= params@.len(),
                declaration_list(params@.subrange(0, i as int), unicode) == Some(out@),
            decreases params@.len() - i,
        {
            let ghost before = out@;
            proof {
                let sub = params@.subrange(0, i + 1);
                assert(sub.drop_last() =~= params@.subrange(0, i as int));
                assert(sub[i as int] == params@[i as int]);
            }
            if i > 0 {
                push_str(&mut out, ", ");
            }
            push_param_name(&mut out, i);
            push_str(&mut out, " ");
            let encoded = encode_string_parameter_type(params[i].clone_type(), unicode);
            match push_declaration(&mut out, &encoded) {
                Ok(()) => {},
                Err(e) => {
                    proof {
                        lemma_declaration_list_none_extends(params@, i as int + 1, params@.len() as int, unicode);
                        assert(params@.subrange(0, params@.len() as int) =~= params@);
                    }
                    return Err(e);
                },
            }
            assert(out@ =~= (if i == 0 { before } else { before + ", "@ }) + param_name_text(i as nat) + " "@ + declaration_text(encoded_param_type(params@[i as int], unicode)).unwrap());
            i = i + 1;
        }
        assert(params@.subrange(0, params@.len() as int) =~= params@);
        Ok(string_from_chars(out))
    }
}

/// Once a prefix has no declaration list, no longer prefix has one.
proof fn lemma_declaration_list_none_extends(params: Seq<SqlParamType>, n: int, m: int, unicode: bool)
    requires
        0 <= n <= m <= params.len(),
        declaration_list(params.subrange(0, n), unicode) is None,
    ensures
        declaration_list(params.subrange(0, m), unicode) is None,
    decreases m - n,
{
    if n < m {
        let next = params.subrange(0, n + 1);
        assert(next.drop_last() =~= params.subrange(0, n));
        lemma_declaration_list_none_extends(params, n + 1, m, unicode);
    }
}

impl SqlParamType {
    /// A copy of this parameter type.
    pub fn clone_type(&self) -> (r: Self)
        ensures
            r == *self,
        decreases self,
    {
        match self {
            SqlParamType::Bit => SqlParamType::Bit,
            SqlParamType::TinyInt => SqlParamType::TinyInt,
            SqlParamType::SmallInt => SqlParamType::SmallInt,
            SqlParamType::Int => SqlParamType::Int,
            SqlParamType::BigInt => SqlParamType::BigInt,
            SqlParamType::Real => SqlParamType::Real,
            SqlParamType::Float => SqlParamType::Float,
            SqlParamType::Decimal(ps) => SqlParamType::Decimal(*ps),
            SqlParamType::Numeric(ps) => SqlParamType::Numeric(*ps),
            SqlParamType::Money => SqlParamType::Money,
            SqlParamType::SmallMoney => SqlParamType::SmallMoney,
            SqlParamType::Time(s) => SqlParamType::Time(*s),
            SqlParamType::DateTime2(s) => SqlParamType::DateTime2(*s),
            SqlParamType::DateTimeOffset(s) => SqlParamType::DateTimeOffset(*s),
            SqlParamType::SmallDateTime => SqlParamType::SmallDateTime,
            SqlParamType::DateTime => SqlParamType::DateTime,
            SqlParamType::Date => SqlParamType::Date,
            SqlParamType::NVarchar(l) => SqlParamType::NVarchar(*l),
            SqlParamType::NVarcharMax => SqlParamType::NVarcharMax,
            SqlParamType::Varchar(l) => SqlParamType::Varchar(*l),
            SqlParamType::VarcharMax => SqlParamType::VarcharMax,
            SqlParamType::VarBinary(l) => SqlParamType::VarBinary(*l),
            SqlParamType::VarBinaryMax => SqlParamType::VarBinaryMax,
            SqlParamType::Binary(l) => SqlParamType::Binary(*l),
            SqlParamType::Char(l) => SqlParamType::Char(*l),
            SqlParamType::NChar(l) => SqlParamType::NChar(*l),
            SqlParamType::Text => SqlParamType::Text,
            SqlParamType::NText => SqlParamType::NText,
            SqlParamType::Json => SqlParamType::Json,
            SqlParamType::Xml => SqlParamType::Xml,
            SqlParamType::Uuid => SqlParamType::Uuid,
            SqlParamType::Vector(d, b) => SqlParamType::Vector(*d, *b),
            SqlParamType::Variant(inner) => SqlParamType::Variant(Box::new(inner.clone_type())),
            SqlParamType::Table { schema_name, table_type_name } => SqlParamType::Table {
                schema_name: match schema_name {
                    Some(s) => Some(s.clone()),
                    None => None,
                },
                table_type_name: table_type_name.clone(),
            },
        }
    }
}

} // verus!
