//! The unified error type of the facade.
//!
//! Errors from the native TDS driver are carried unchanged in [`Error::Tds`];
//! the other variants describe failures detected by the facade itself.

use vstd::prelude::*;

use mssql_tds::error::Error as TdsError;

use crate::text::{decimal_digits, push_decimal, push_str, string_from_chars};

verus! {

/// The native driver's error type, carried through the facade unopened.
#[verifier::external_type_specification]
#[verifier::external_body]
pub struct ExTdsError(TdsError);

/// Unified error type for all facade operations.
#[derive(Debug)]
pub enum Error {
    /// An error from the native TDS protocol driver.
    Tds(TdsError),
    /// A column was requested by name but does not exist in the result set.
    ColumnNotFound(String),
    /// A column was requested by index but the index exceeds the column count.
    ColumnIndexOutOfBounds {
        /// The requested column index.
        index: usize,
        /// The actual number of columns in the row.
        count: usize,
    },
    /// A type conversion failed when extracting or converting a value.
    Conversion(String),
    /// A row cannot be encoded for a compatibility bulk upload.
    BulkInput(String),
    /// A connection pool error occurred.
    Pool(String),
    /// A prepared statement belongs to another client or a reset session.
    InvalidPreparedStatement,
}

/// Result type alias using [`Error`].
pub type Result<T> = core::result::Result<T, Error>;

/// The message of every error that the facade raises itself; the driver's
/// own errors are rendered by the driver (see [`Error::to_string`]).
pub open spec fn facade_error_text(e: Error) -> Seq<char> {
    match e {
        Error::Tds(_) => "TDS error: "@,
        Error::ColumnNotFound(name) => "Column not found: "@ + name@,
        Error::ColumnIndexOutOfBounds { index, count } => "Column index "@ + decimal_digits(
            index as nat,
        ) + " out of bounds (count: "@ + decimal_digits(count as nat) + ")"@,
        Error::Conversion(msg) => "Conversion error: "@ + msg@,
        Error::BulkInput(msg) => "BULK UPLOAD input failure: "@ + msg@,
        Error::Pool(msg) => "Pool error: "@ + msg@,
        Error::InvalidPreparedStatement => "Prepared statement belongs to a different or reset client session"@,
    }
}

/// The `Display` text of mssql-tds's `Error`. The driver's error is opaque
/// to the contracts, so nothing is stated of the text.
#[verifier::external_body]
fn tds_error_text(e: &TdsError) -> String {
    e.to_string()
}

/// mssql-tds's `Error::UsageError` holding `message`. The error value is
/// opaque to the contracts: nothing is stated of it, not even that
/// [`tds_usage_message`] gives `message` back.
#[verifier::external_body]
pub(crate) fn tds_usage_error(message: String) -> TdsError {
    TdsError::UsageError(message)
}

/// The message of mssql-tds's `Error::UsageError`, `None` for every other
/// variant. The error is opaque to the contracts, so the result is not
/// tied to `e`: callers state what they do for every possible result.
#[verifier::external_body]
pub(crate) fn tds_usage_message(e: &TdsError) -> Option<String> {
    match e {
        TdsError::UsageError(message) => Some(message.clone()),
        _ => None,
    }
}

impl Error {
    /// Human-readable rendering of the error. Driver errors are prefixed with
    /// `TDS error: ` followed by the driver's own text.
    pub fn to_string(&self) -> (r: String)
        ensures
            !(self is Tds) ==> r@ == facade_error_text(*self),
            self is Tds ==> r@.len() >= 11 && r@.subrange(0, 11) == "TDS error: "@,
    {
        let mut out: Vec<char> = Vec::new();
        match self {
            Error::Tds(e) => {
                push_str(&mut out, "TDS error: ");
                let inner = tds_error_text(e);
                push_str(&mut out, inner.as_str());
                proof {
                    reveal_strlit("TDS error: ");
                    assert(out@.subrange(0, 11) =~= "TDS error: "@);
                }
            },
            Error::ColumnNotFound(name) => {
                push_str(&mut out, "Column not found: ");
                push_str(&mut out, name.as_str());
            },
            Error::ColumnIndexOutOfBounds { index, count } => {
                push_str(&mut out, "Column index ");
                push_decimal(&mut out, *index as u128);
                push_str(&mut out, " out of bounds (count: ");
                push_decimal(&mut out, *count as u128);
                push_str(&mut out, ")");
            },
            Error::Conversion(msg) => {
                push_str(&mut out, "Conversion error: ");
                push_str(&mut out, msg.as_str());
            },
            Error::BulkInput(msg) => {
                push_str(&mut out, "BULK UPLOAD input failure: ");
                push_str(&mut out, msg.as_str());
            },
            Error::Pool(msg) => {
                push_str(&mut out, "Pool error: ");
                push_str(&mut out, msg.as_str());
            },
            Error::InvalidPreparedStatement => {
                push_str(&mut out, "Prepared statement belongs to a different or reset client session");
            },
        }
        string_from_chars(out)
    }

    /// The underlying driver error, for [`Error::Tds`] only.
    pub fn source(&self) -> (r: Option<&TdsError>)
        ensures
            r is Some <==> self is Tds,
            self matches Error::Tds(e) ==> r == Some(e),
    {
        match self {
            Error::Tds(e) => Some(e),
            _ => None,
        }
    }
}

} // verus!
