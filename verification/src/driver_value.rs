//! Driver values built by the driver's checked constructors, held with the
//! parts of them that the library's contracts speak of, as the driver reads
//! them back. Only the constructors in this module make such values, so a
//! value's stated parts are always those of the driver value it holds.

use vstd::prelude::*;

use mssql_tds::datatypes::column_values::SqlDate;
use mssql_tds::datatypes::decoder::DecimalParts;
use mssql_tds::error::Error as TdsError;

use crate::bulk_arrow::MAX_SQL_DATE_DAYS;

verus! {

/// The driver's SQL `DATE` value.
#[verifier::external_type_specification]
#[verifier::external_body]
pub struct ExSqlDate(SqlDate);

/// The driver's decimal/numeric value.
#[verifier::external_type_specification]
#[verifier::external_body]
pub struct ExDecimalParts(DecimalParts);

/// A driver `DATE` value with its day count since 0001-01-01.
#[derive(Debug)]
pub struct DriverDate {
    value: SqlDate,
    days: u32,
}

impl DriverDate {
    /// The day count of the value, as `SqlDate::get_days` reads it.
    pub closed spec fn spec_days(&self) -> u32 {
        self.days
    }

    /// The day count of the value.
    pub fn days(&self) -> (r: u32)
        ensures
            r == self.spec_days(),
    {
        self.days
    }

    /// The driver value, whose day count is [`Self::days`].
    pub fn into_value(self) -> SqlDate {
        self.value
    }
}

/// `SqlDate::create` of mssql-tds: the `DATE` value of a day count, refused
/// beyond 9999-12-31; the value's day count is read back with
/// `SqlDate::get_days`, which returns what `create` stored.
#[verifier::external_body]
pub(crate) fn sql_date(days: u32) -> (r: core::result::Result<DriverDate, TdsError>)
    ensures
        r is Ok <==> days <= MAX_SQL_DATE_DAYS,
        r matches Ok(d) ==> d.spec_days() == days,
{
    SqlDate::create(days).map(|value| DriverDate { days: value.get_days(), value })
}

/// The sign and magnitude of the coefficient that
/// `DecimalParts::from_string` of mssql-tds gives `text` at this precision
/// and scale (the text scaled by `10^scale`); `None` when it refuses the
/// text: malformed, more fractional digits than `scale`, more digits than
/// `precision`, or beyond 128 bits.
pub uninterp spec fn decimal_parse(text: Seq<char>, precision: u8, scale: u8) -> Option<(bool, u128)>;

/// Whether the driver's decimal parser accepts `text` at the given
/// precision and scale.
pub open spec fn decimal_text_accepted(text: Seq<char>, precision: u8, scale: u8) -> bool {
    decimal_parse(text, precision, scale) is Some
}

/// A driver decimal value with its sign, precision, scale and magnitude.
#[derive(Debug)]
pub struct DriverDecimal {
    value: DecimalParts,
    is_positive: bool,
    precision: u8,
    scale: u8,
    magnitude: u128,
}

impl DriverDecimal {
    /// Whether the value is non-negative.
    pub closed spec fn spec_positive(&self) -> bool {
        self.is_positive
    }

    /// The declared precision.
    pub closed spec fn spec_precision(&self) -> u8 {
        self.precision
    }

    /// The declared scale.
    pub closed spec fn spec_scale(&self) -> u8 {
        self.scale
    }

    /// The magnitude of the coefficient.
    pub closed spec fn spec_magnitude(&self) -> u128 {
        self.magnitude
    }

    /// Whether the value is non-negative.
    pub fn is_positive(&self) -> (r: bool)
        ensures
            r == self.spec_positive(),
    {
        self.is_positive
    }

    /// The declared precision.
    pub fn precision(&self) -> (r: u8)
        ensures
            r == self.spec_precision(),
    {
        self.precision
    }

    /// The declared scale.
    pub fn scale(&self) -> (r: u8)
        ensures
            r == self.spec_scale(),
    {
        self.scale
    }

    /// The magnitude of the coefficient.
    pub fn magnitude(&self) -> (r: u128)
        ensures
            r == self.spec_magnitude(),
    {
        self.magnitude
    }

    /// The driver value, whose parts are those above.
    pub fn into_value(self) -> DecimalParts {
        self.value
    }
}

/// `DecimalParts::from_string` of mssql-tds: the decimal value of `text`
/// at this precision and scale. The value's fields are read back: its
/// precision and scale are the ones asked for (the source builds it with
/// them), and its sign and magnitude are named by [`decimal_parse`].
#[verifier::external_body]
pub(crate) fn decimal_parts(text: &str, precision: u8, scale: u8) -> (r: core::result::Result<DriverDecimal, TdsError>)
    ensures
        r is Ok <==> decimal_parse(text@, precision, scale) is Some,
        r matches Ok(d) ==> d.spec_precision() == precision && d.spec_scale() == scale
            && decimal_parse(text@, precision, scale) == Some((d.spec_positive(), d.spec_magnitude())),
{
    DecimalParts::from_string(text, precision, scale).map(|value| DriverDecimal {
        is_positive: value.is_positive,
        precision: value.precision,
        scale: value.scale,
        magnitude: value.magnitude(),
        value,
    })
}

} // verus!
