//! Bulk insert (BCP): the settings of one bulk load, the rows of the
//! tiberius-compatible incremental bulk API, and its input checks: every row
//! of a request must have the width of the first, and the driver's
//! row-encoding failures are reported as bulk input errors.

use vstd::prelude::*;

use crate::error::{tds_usage_message, Error, Result};
use crate::text::{decimal_digits, push_decimal, push_str, starts_with, string_from_chars};

verus! {

/// The message of a width mismatch.
pub open spec fn width_mismatch_text(expected: usize, actual: usize) -> Seq<char> {
    "Expecting "@ + decimal_digits(expected as nat) + " columns but "@ + decimal_digits(
        actual as nat,
    ) + " were given"@
}

/// Checks the width of the next row of a bulk request. The first row sets
/// the expected width; a row of another width is rejected without changing
/// it, so that a corrected row can still be sent.
pub fn validate_row_width(expected: &mut Option<usize>, actual: usize) -> (r: Result<()>)
    ensures
        match *old(expected) {
            Some(e) => if actual == e {
                r is Ok && *final(expected) == Some(e)
            } else {
                &&& r matches Err(Error::BulkInput(msg)) && msg@ == width_mismatch_text(e, actual)
                &&& *final(expected) == Some(e)
            },
            None => r is Ok && *final(expected) == Some(actual),
        },
{
    match *expected {
        Some(e) => {
            if actual != e {
                let mut out: Vec<char> = Vec::new();
                push_str(&mut out, "Expecting ");
                push_decimal(&mut out, e as u128);
                push_str(&mut out, " columns but ");
                push_decimal(&mut out, actual as u128);
                push_str(&mut out, " were given");
                assert(out@ =~= width_mismatch_text(e, actual));
                Err(Error::BulkInput(string_from_chars(out)))
            } else {
                Ok(())
            }
        },
        None => {
            *expected = Some(actual);
            Ok(())
        },
    }
}

/// The message prefixes with which the driver reports a row that it cannot
/// encode for a bulk upload.
pub open spec fn bulk_input_prefixes() -> Seq<Seq<char>> {
    seq![
        "Row "@,
        "Binary data length "@,
        "String length "@,
        "SQL_VARIANT data size "@,
        "SQL_VARIANT total size "@,
        "Cannot serialize NULL "@,
        "Unsupported TDS type "@,
        "Invalid UTF-16 data: "@,
        "Conversion error: "@,
    ]
}

/// Whether `s` begins with `prefix`.
pub open spec fn has_prefix(s: Seq<char>, prefix: Seq<char>) -> bool {
    prefix.len() <= s.len() && s.subrange(0, prefix.len() as int) == prefix
}

/// Whether a driver usage error describes bad bulk input (a row that cannot
/// be encoded), by its message prefix.
pub fn is_bulk_input_message(message: &str) -> (r: bool)
    ensures
        r == exists|i: int| 0 <= i < bulk_input_prefixes().len() && has_prefix(message@, #[trigger] bulk_input_prefixes()[i]),
{
    let prefixes = [
        "Row ",
        "Binary data length ",
        "String length ",
        "SQL_VARIANT data size ",
        "SQL_VARIANT total size ",
        "Cannot serialize NULL ",
        "Unsupported TDS type ",
        "Invalid UTF-16 data: ",
        "Conversion error: ",
    ];
    let ghost ps = bulk_input_prefixes();
    assert(prefixes@.len() == 9);
    let mut i: usize = 0;
    while i < 9
        invariant
            0 <= i <= 9,
            prefixes@.len() == 9,
            ps == bulk_input_prefixes(),
            forall|k: int| 0 <= k < 9 ==> (#[trigger] prefixes@[k])@ == ps[k],
            forall|k: int| 0 <= k < i ==> !has_prefix(message@, #[trigger] ps[k]),
        decreases 9 - i,
    {
        if starts_with(message, prefixes[i]) {
            assert(has_prefix(message@, ps[i as int]));
            return true;
        }
        i = i + 1;
    }
    false
}

/// Whether a message names bad bulk input, by one of the driver's prefixes.
pub open spec fn bulk_input_text(m: Seq<char>) -> bool {
    exists|i: int| 0 <= i < bulk_input_prefixes().len() && has_prefix(m, #[trigger] bulk_input_prefixes()[i])
}

/// Whether the usage message of a driver error names bad bulk input.
pub open spec fn usage_is_bulk(usage: Option<String>) -> bool {
    match usage {
        Some(m) => bulk_input_text(m@),
        None => false,
    }
}

/// Classifies a driver error by its usage message (`None` for a driver
/// error of another kind): bad bulk input becomes [`Error::BulkInput`] with
/// the same message, and every other error is returned unchanged.
pub fn bulk_error_from_usage(error: Error, usage: Option<String>) -> (r: Error)
    ensures
        if error is Tds && usage_is_bulk(usage) {
            r == Error::BulkInput(usage->0)
        } else {
            r == error
        },
{
    match error {
        Error::Tds(e) => match usage {
            Some(message) => {
                if is_bulk_input_message(message.as_str()) {
                    Error::BulkInput(message)
                } else {
                    Error::Tds(e)
                }
            },
            None => Error::Tds(e),
        },
        other => other,
    }
}

/// Maps the driver's usage errors that describe bad bulk input to
/// [`Error::BulkInput`], keeping their message; every other error is
/// returned unchanged.
pub fn map_compat_bulk_error(error: Error) -> (r: Error)
    ensures
        r == error || (error is Tds && (r matches Error::BulkInput(m) && bulk_input_text(m@))),
        !(error is Tds) ==> r == error,
{
    let usage = match &error {
        Error::Tds(e) => tds_usage_message(e),
        _ => None,
    };
    bulk_error_from_usage(error, usage)
}

/// Where a mapped source column comes from.
#[derive(Debug, Clone, PartialEq, Eq)]
pub enum MappingSource {
    /// The source column with this name.
    Name(String),
    /// The source column at this ordinal (0-based).
    Ordinal(usize),
}

/// An explicit mapping from a source column to a destination column.
#[derive(Debug, Clone, PartialEq, Eq)]
pub struct ColumnMap {
    /// The source column.
    pub source: MappingSource,
    /// The destination column name.
    pub destination: String,
}

/// The settings of one bulk load into a destination table, mirroring the
/// flags of `SqlBulkCopyOptions`.
#[derive(Debug, Clone)]
pub struct BulkSettings {
    /// Destination table.
    pub table_name: String,
    /// Rows per server-side batch; 0 sends a single batch.
    pub batch_size: usize,
    /// Per-operation timeout; `None` keeps the driver's default (30 s).
    pub timeout: Option<core::time::Duration>,
    /// Enforce CHECK constraints during the load.
    pub check_constraints: bool,
    /// Fire INSERT triggers.
    pub fire_triggers: bool,
    /// Preserve source identity values.
    pub keep_identity: bool,
    /// Preserve source NULLs over destination defaults.
    pub keep_nulls: bool,
    /// Take a bulk-update (TABLOCK) lock.
    pub table_lock: bool,
    /// Wrap each batch in its own transaction.
    pub use_internal_transaction: bool,
    /// Rows between progress notifications; 0 sends none.
    pub notification_interval: usize,
    /// Explicit column mappings, in the order they were added; when any is
    /// present, ordinal auto-mapping is off.
    pub column_mappings: Vec<ColumnMap>,
}

impl BulkSettings {
    /// Settings for a load into `table_name`: single batch, driver timeout,
    /// every flag off, no mappings.
    pub fn new(table_name: String) -> (r: Self)
        ensures
            r.table_name == table_name,
            r.batch_size == 0,
            r.timeout is None,
            !r.check_constraints && !r.fire_triggers && !r.keep_identity,
            !r.keep_nulls && !r.table_lock && !r.use_internal_transaction,
            r.notification_interval == 0,
            r.column_mappings@.len() == 0,
    {
        BulkSettings {
            table_name,
            batch_size: 0,
            timeout: None,
            check_constraints: false,
            fire_triggers: false,
            keep_identity: false,
            keep_nulls: false,
            table_lock: false,
            use_internal_transaction: false,
            notification_interval: 0,
            column_mappings: Vec::new(),
        }
    }

    /// Rows per server-side batch.
    pub fn batch_size(self, n: usize) -> (r: Self)
        ensures
            r == (BulkSettings { batch_size: n, ..self }),
    {
        BulkSettings { batch_size: n, ..self }
    }

    /// Per-operation timeout.
    pub fn timeout(self, t: core::time::Duration) -> (r: Self)
        ensures
            r == (BulkSettings { timeout: Some(t), ..self }),
    {
        BulkSettings { timeout: Some(t), ..self }
    }

    /// Enforce CHECK constraints.
    pub fn check_constraints(self, enabled: bool) -> (r: Self)
        ensures
            r == (BulkSettings { check_constraints: enabled, ..self }),
    {
        BulkSettings { check_constraints: enabled, ..self }
    }

    /// Fire INSERT triggers.
    pub fn fire_triggers(self, enabled: bool) -> (r: Self)
        ensures
            r == (BulkSettings { fire_triggers: enabled, ..self }),
    {
        BulkSettings { fire_triggers: enabled, ..self }
    }

    /// Preserve source identity values.
    pub fn keep_identity(self, enabled: bool) -> (r: Self)
        ensures
            r == (BulkSettings { keep_identity: enabled, ..self }),
    {
        BulkSettings { keep_identity: enabled, ..self }
    }

    /// Preserve source NULLs.
    pub fn keep_nulls(self, enabled: bool) -> (r: Self)
        ensures
            r == (BulkSettings { keep_nulls: enabled, ..self }),
    {
        BulkSettings { keep_nulls: enabled, ..self }
    }

    /// Take a bulk-update lock.
    pub fn table_lock(self, enabled: bool) -> (r: Self)
        ensures
            r == (BulkSettings { table_lock: enabled, ..self }),
    {
        BulkSettings { table_lock: enabled, ..self }
    }

    /// Wrap each batch in its own transaction.
    pub fn use_internal_transaction(self, enabled: bool) -> (r: Self)
        ensures
            r == (BulkSettings { use_internal_transaction: enabled, ..self }),
    {
        BulkSettings { use_internal_transaction: enabled, ..self }
    }

    /// Rows between progress notifications.
    pub fn notification_interval(self, n: usize) -> (r: Self)
        ensures
            r == (BulkSettings { notification_interval: n, ..self }),
    {
        BulkSettings { notification_interval: n, ..self }
    }

    /// Adds an explicit column mapping after the earlier ones.
    pub fn add_column_mapping(self, mapping: ColumnMap) -> (r: Self)
        ensures
            r.column_mappings@ == self.column_mappings@.push(mapping),
            r == (BulkSettings { column_mappings: r.column_mappings, ..self }),
    {
        let mut s = self;
        s.column_mappings.push(mapping);
        s
    }

    /// Maps the source column named `source_name` to `dest_name`.
    pub fn map_column(self, source_name: String, dest_name: String) -> (r: Self)
        ensures
            r.column_mappings@ == self.column_mappings@.push(
                ColumnMap { source: MappingSource::Name(source_name), destination: dest_name },
            ),
            r == (BulkSettings { column_mappings: r.column_mappings, ..self }),
    {
        self.add_column_mapping(ColumnMap { source: MappingSource::Name(source_name), destination: dest_name })
    }

    /// Maps the source column at `source_ord` (0-based) to `dest_name`.
    pub fn map_column_by_ordinal(self, source_ord: usize, dest_name: String) -> (r: Self)
        ensures
            r.column_mappings@ == self.column_mappings@.push(
                ColumnMap { source: MappingSource::Ordinal(source_ord), destination: dest_name },
            ),
            r == (BulkSettings { column_mappings: r.column_mappings, ..self }),
    {
        self.add_column_mapping(ColumnMap { source: MappingSource::Ordinal(source_ord), destination: dest_name })
    }
}

/// One row for the compatibility incremental bulk API: its values in
/// column order.
#[derive(Debug, Clone)]
pub struct TokenRow<T> {
    data: Vec<T>,
}

impl<T> View for TokenRow<T> {
    type V = Seq<T>;

    closed spec fn view(&self) -> Seq<T> {
        self.data@
    }
}

impl<T> Default for TokenRow<T> {
    fn default() -> (r: Self)
        ensures
            r@ == Seq::<T>::empty(),
    {
        TokenRow { data: Vec::new() }
    }
}

impl<T> TokenRow<T> {
    /// An empty row.
    pub fn new() -> (r: Self)
        ensures
            r@ == Seq::<T>::empty(),
    {
        TokenRow { data: Vec::new() }
    }

    /// An empty row with room for `capacity` values.
    pub fn with_capacity(capacity: usize) -> (r: Self)
        ensures
            r@ == Seq::<T>::empty(),
    {
        TokenRow { data: Vec::with_capacity(capacity) }
    }

    /// Removes all values.
    pub fn clear(&mut self)
        ensures
            final(self)@ == Seq::<T>::empty(),
    {
        self.data.clear();
    }

    /// The number of values.
    pub fn len(&self) -> (r: usize)
        ensures
            r == self@.len(),
    {
        self.data.len()
    }

    /// Whether the row has no value.
    pub fn is_empty(&self) -> (r: bool)
        ensures
            r == (self@.len() == 0),
    {
        self.data.len() == 0
    }

    /// The value at `index`, if any.
    pub fn get(&self, index: usize) -> (r: Option<&T>)
        ensures
            index < self@.len() ==> r == Some(&self@[index as int]),
            index >= self@.len() ==> r is None,
    {
        if index < self.data.len() {
            Some(&self.data[index])
        } else {
            None
        }
    }

    /// The values in column order.
    pub fn values(&self) -> (r: &[T])
        ensures
            r@ == self@,
    {
        self.data.as_slice()
    }

    /// Appends one value.
    pub fn push(&mut self, value: T)
        ensures
            final(self)@ == old(self)@.push(value),
    {
        self.data.push(value);
    }

    /// The values, consuming the row.
    pub fn into_values(self) -> (r: Vec<T>)
        ensures
            r@ == self@,
    {
        self.data
    }
}

/// The rows of a compatibility bulk request, retained until it is
/// finalized, with the width that its first row set.
#[derive(Debug)]
pub struct PendingRows<T> {
    rows: Vec<TokenRow<T>>,
    row_width: Option<usize>,
}

impl<T> PendingRows<T> {
    /// The rows retained so far, by their values.
    pub closed spec fn spec_rows(&self) -> Seq<Seq<T>> {
        self.rows@.map_values(|r: TokenRow<T>| r@)
    }

    /// The width of every retained row, once a row was accepted.
    pub closed spec fn spec_width(&self) -> Option<usize> {
        self.row_width
    }

    /// A request with no row.
    pub fn new() -> (r: Self)
        ensures
            r.spec_rows() == Seq::<Seq<T>>::empty(),
            r.spec_width() is None,
    {
        let r = PendingRows { rows: Vec::new(), row_width: None };
        assert(r.spec_rows() =~= Seq::<Seq<T>>::empty());
        r
    }

    /// Adds one row. A row whose width differs from the first row's is
    /// rejected and the request is left unchanged, so a corrected row can
    /// still be sent.
    pub fn send(&mut self, row: TokenRow<T>) -> (r: Result<()>)
        ensures
            match old(self).spec_width() {
                Some(w) => if row@.len() == w {
                    &&& r is Ok
                    &&& final(self).spec_rows() == old(self).spec_rows().push(row@)
                    &&& final(self).spec_width() == Some(w)
                } else {
                    &&& r matches Err(Error::BulkInput(msg)) && msg@ == width_mismatch_text(w, row@.len() as usize)
                    &&& final(self).spec_rows() == old(self).spec_rows()
                    &&& final(self).spec_width() == Some(w)
                },
                None => {
                    &&& r is Ok
                    &&& final(self).spec_rows() == old(self).spec_rows().push(row@)
                    &&& final(self).spec_width() == Some(row@.len() as usize)
                },
            },
    {
        let width = row.len();
        validate_row_width(&mut self.row_width, width)?;
        let ghost before = self.rows@;
        self.rows.push(row);
        assert(self.rows@.map_values(|r: TokenRow<T>| r@) =~= before.map_values(|r: TokenRow<T>| r@).push(row@));
        Ok(())
    }

    /// The retained rows, in the order they were sent.
    pub fn into_rows(self) -> (r: Vec<TokenRow<T>>)
        ensures
            r@.map_values(|r: TokenRow<T>| r@) == self.spec_rows(),
    {
        self.rows
    }
}

} // verus!
