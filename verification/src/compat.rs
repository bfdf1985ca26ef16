//! Per-result-set schemas and the metadata items of tiberius-compatible
//! query streams.

use std::sync::Arc;

use vstd::prelude::*;

use crate::column::{column_describes, Column, ColumnMetadata, ColumnType};
use crate::prepared::SqlParamType;
use crate::error::{Error, Result};
use crate::text::{chars_of, eq_ignore_ascii_case, eq_ignore_ascii_case_spec};

verus! {

/// Per-result-set schema: column metadata plus lookup by name. Built once per
/// result set and shared across every row of that set.
#[derive(Debug)]
pub struct RowSchema {
    pub(crate) columns: Vec<Column>,
}

/// The index of the first column named `name` (case-sensitively), if any.
pub open spec fn first_index_named(columns: Seq<Column>, name: Seq<char>) -> Option<int> {
    if exists|i: int| 0 <= i < columns.len() && #[trigger] columns[i].name@ == name {
        Some(
            choose|i: int|
                0 <= i < columns.len() && #[trigger] columns[i].name@ == name && forall|j: int|
                    0 <= j < i ==> columns[j].name@ != name,
        )
    } else {
        None
    }
}

impl RowSchema {
    /// The columns of this schema, in wire order.
    pub closed spec fn spec_columns(&self) -> Seq<Column> {
        self.columns@
    }

    /// Build a schema from the server's column metadata.
    pub fn from_metadata(metadata: &[ColumnMetadata]) -> (r: Arc<RowSchema>)
        ensures
            r.spec_columns().len() == metadata@.len(),
            forall|i: int|
                0 <= i < metadata@.len() ==> column_describes(#[trigger] r.spec_columns()[i], metadata@[i]),
    {
        let mut columns: Vec<Column> = Vec::new();
        let mut i: usize = 0;
        while i < metadata.len()
            invariant
                0 <= i <= metadata@.len(),
                columns@.len() == i,
                forall|k: int| 0 <= k < i ==> column_describes(#[trigger] columns@[k], metadata@[k]),
            decreases metadata@.len() - i,
        {
            columns.push(Column::from_tds(&metadata[i]));
            i = i + 1;
        }
        Arc::new(RowSchema { columns })
    }

    /// The columns of this schema, in wire order.
    pub fn columns(&self) -> (r: &[Column])
        ensures
            r@ == self.spec_columns(),
    {
        self.columns.as_slice()
    }

    /// The index of the first column with exactly this name; duplicate names
    /// resolve to their first occurrence.
    pub fn column_index(&self, name: &str) -> (r: Option<usize>)
        ensures
            match first_index_named(self.spec_columns(), name@) {
                Some(i) => r == Some(i as usize),
                None => r is None,
            },
    {
        let n = chars_of(name);
        let mut i: usize = 0;
        while i < self.columns.len()
            invariant
                0 <= i <= self.columns@.len(),
                n@ == name@,
                forall|j: int| 0 <= j < i ==> (#[trigger] self.columns@[j]).name@ != name@,
            decreases self.columns@.len() - i,
        {
            let c = chars_of(self.columns[i].name.as_str());
            if same_chars(&c, &n) {
                let ghost cols = self.columns@;
                assert(cols[i as int].name@ == name@);
                assert(first_index_named(cols, name@) == Some(i as int)) by {
                    let k = choose|k: int|
                        0 <= k < cols.len() && #[trigger] cols[k].name@ == name@ && forall|j: int|
                            0 <= j < k ==> cols[j].name@ != name@;
                    assert(0 <= k < cols.len() && cols[k].name@ == name@ && forall|j: int|
                        0 <= j < k ==> cols[j].name@ != name@) by {
                        assert(0 <= i < cols.len() && cols[i as int].name@ == name@ && forall|j: int|
                            0 <= j < i ==> cols[j].name@ != name@);
                    }
                    if k < i {
                    } else if k > i {
                        assert(cols[i as int].name@ != name@);
                    }
                }
                return Some(i);
            }
            i = i + 1;
        }
        None
    }
}

/// Whether two schemas have the same number of columns with the same types
/// in the same order (names and other metadata aside).
pub open spec fn same_column_types(a: Seq<Column>, b: Seq<Column>) -> bool {
    &&& a.len() == b.len()
    &&& forall|i: int| 0 <= i < a.len() ==> (#[trigger] a[i]).column_type == b[i].column_type
}

impl RowSchema {
    /// Whether rows of the two schemas are comparable: the same column types
    /// in the same order.
    pub fn same_column_types(&self, other: &RowSchema) -> (r: bool)
        ensures
            r == same_column_types(self.spec_columns(), other.spec_columns()),
    {
        if self.columns.len() != other.columns.len() {
            return false;
        }
        let mut i: usize = 0;
        while i < self.columns.len()
            invariant
                0 <= i <= self.columns@.len(),
                self.columns@.len() == other.columns@.len(),
                forall|j: int| 0 <= j < i ==> (#[trigger] self.columns@[j]).column_type == other.columns@[j].column_type,
            decreases self.columns@.len() - i,
        {
            if self.columns[i].column_type != other.columns[i].column_type {
                return false;
            }
            i = i + 1;
        }
        true
    }
}

fn same_chars(a: &Vec<char>, b: &Vec<char>) -> (r: bool)
    ensures
        r == (a@ == b@),
{
    if a.len() != b.len() {
        return false;
    }
    let mut i: usize = 0;
    while i < a.len()
        invariant
            0 <= i <= a.len(),
            a.len() == b.len(),
            forall|j: int| 0 <= j < i ==> a@[j] == b@[j],
        decreases a.len() - i,
    {
        if a[i] != b[i] {
            return false;
        }
        i = i + 1;
    }
    assert(a@ =~= b@);
    true
}

/// Metadata emitted before the rows of each result set.
#[derive(Debug, Clone)]
pub struct ResultMetadata {
    pub(crate) schema: Arc<RowSchema>,
    pub(crate) result_index: usize,
}

impl ResultMetadata {
    /// The schema of the result set.
    pub closed spec fn spec_schema(&self) -> RowSchema {
        *self.schema
    }

    /// The zero-based result-set index.
    pub closed spec fn spec_result_index(&self) -> usize {
        self.result_index
    }

    /// Metadata for the result set with the given schema and index.
    pub fn new(schema: Arc<RowSchema>, result_index: usize) -> (r: Self)
        ensures
            r.spec_schema() == *schema,
            r.spec_result_index() == result_index,
    {
        Self { schema, result_index }
    }

    /// Columns in wire order for this result set.
    pub fn columns(&self) -> (r: &[Column])
        ensures
            r@ == self.spec_schema().spec_columns(),
    {
        self.schema.columns()
    }

    /// Zero-based result-set index.
    pub fn result_index(&self) -> (r: usize)
        ensures
            r == self.spec_result_index(),
    {
        self.result_index
    }

    /// The shared schema of the result set.
    pub fn schema(&self) -> (r: Arc<RowSchema>)
        ensures
            *r == self.spec_schema(),
    {
        Arc::clone(&self.schema)
    }
}

/// The index of the first column whose name equals `name` up to ASCII case.
pub open spec fn first_index_named_ci(columns: Seq<Column>, name: Seq<char>) -> Option<int> {
    if exists|i: int| 0 <= i < columns.len() && eq_ignore_ascii_case_spec(#[trigger] columns[i].name@, name) {
        Some(
            choose|i: int|
                0 <= i < columns.len() && eq_ignore_ascii_case_spec(#[trigger] columns[i].name@, name)
                    && forall|j: int| 0 <= j < i ==> !eq_ignore_ascii_case_spec(columns[j].name@, name),
        )
    } else {
        None
    }
}

/// Checks a positional column index against the number of columns.
pub fn resolve_index(index: usize, count: usize) -> (r: Result<usize>)
    ensures
        index < count ==> r == Ok::<usize, Error>(index),
        index >= count ==> r == Err::<usize, Error>(Error::ColumnIndexOutOfBounds { index, count }),
{
    if index >= count {
        return Err(Error::ColumnIndexOutOfBounds { index, count });
    }
    Ok(index)
}

impl RowSchema {
    /// The index of the column with this exact name (its first occurrence),
    /// or [`Error::ColumnNotFound`].
    pub fn resolve_name(&self, name: &str) -> (r: Result<usize>)
        ensures
            match first_index_named(self.spec_columns(), name@) {
                Some(i) => r == Ok::<usize, Error>(i as usize),
                None => r matches Err(Error::ColumnNotFound(n)) && n@ == name@,
            },
    {
        match self.column_index(name) {
            Some(i) => Ok(i),
            None => Err(Error::ColumnNotFound(String::from_str(name))),
        }
    }

    /// The index of a column by name: the exact name first, otherwise the
    /// first name equal up to ASCII case, otherwise [`Error::ColumnNotFound`].
    pub fn resolve_name_ci(&self, name: &str) -> (r: Result<usize>)
        ensures
            match first_index_named(self.spec_columns(), name@) {
                Some(i) => r == Ok::<usize, Error>(i as usize),
                None => match first_index_named_ci(self.spec_columns(), name@) {
                    Some(i) => r == Ok::<usize, Error>(i as usize),
                    None => r matches Err(Error::ColumnNotFound(n)) && n@ == name@,
                },
            },
    {
        if let Some(i) = self.column_index(name) {
            return Ok(i);
        }
        match position_ci(&self.columns, name) {
            Some(i) => Ok(i),
            None => Err(Error::ColumnNotFound(String::from_str(name))),
        }
    }
}

fn position_ci(columns: &Vec<Column>, name: &str) -> (r: Option<usize>)
    ensures
        match first_index_named_ci(columns@, name@) {
            Some(i) => r == Some(i as usize),
            None => r is None,
        },
{
    let mut i: usize = 0;
    while i < columns.len()
        invariant
            0 <= i <= columns@.len(),
            forall|j: int| 0 <= j < i ==> !eq_ignore_ascii_case_spec(#[trigger] columns@[j].name@, name@),
        decreases columns@.len() - i,
    {
        if eq_ignore_ascii_case(columns[i].name.as_str(), name) {
            let ghost cols = columns@;
            assert(first_index_named_ci(cols, name@) == Some(i as int)) by {
                assert(eq_ignore_ascii_case_spec(cols[i as int].name@, name@));
                let k = choose|k: int|
                    0 <= k < cols.len() && eq_ignore_ascii_case_spec(#[trigger] cols[k].name@, name@)
                        && forall|j: int| 0 <= j < k ==> !eq_ignore_ascii_case_spec(cols[j].name@, name@);
                assert(0 <= k < cols.len() && eq_ignore_ascii_case_spec(cols[k].name@, name@)
                    && forall|j: int| 0 <= j < k ==> !eq_ignore_ascii_case_spec(cols[j].name@, name@)) by {
                    assert(0 <= i < cols.len() && eq_ignore_ascii_case_spec(cols[i as int].name@, name@)
                        && forall|j: int| 0 <= j < i ==> !eq_ignore_ascii_case_spec(cols[j].name@, name@));
                }
                if k > i {
                    assert(!eq_ignore_ascii_case_spec(cols[i as int].name@, name@));
                }
            }
            return Some(i);
        }
        i = i + 1;
    }
    None
}

/// An item of a compatibility query stream: a row of the current result
/// set, or the metadata that starts a result set.
#[derive(Debug)]
pub enum QueryItem<R> {
    /// A row in the current result set.
    Row(R),
    /// Metadata marking the start of a result set.
    Metadata(ResultMetadata),
}

impl<R> QueryItem<R> {
    /// Borrow this item as metadata, if it is metadata.
    pub fn as_metadata(&self) -> (r: Option<&ResultMetadata>)
        ensures
            match self {
                QueryItem::Metadata(m) => r == Some(m),
                QueryItem::Row(_) => r is None,
            },
    {
        match self {
            QueryItem::Metadata(metadata) => Some(metadata),
            QueryItem::Row(_) => None,
        }
    }

    /// Borrow this item as a row, if it is a row.
    pub fn as_row(&self) -> (r: Option<&R>)
        ensures
            match self {
                QueryItem::Row(row) => r == Some(row),
                QueryItem::Metadata(_) => r is None,
            },
    {
        match self {
            QueryItem::Row(row) => Some(row),
            QueryItem::Metadata(_) => None,
        }
    }

    /// Consume this item as metadata, if it is metadata.
    pub fn into_metadata(self) -> (r: Option<ResultMetadata>)
        ensures
            match self {
                QueryItem::Metadata(m) => r == Some(m),
                QueryItem::Row(_) => r is None,
            },
    {
        match self {
            QueryItem::Metadata(metadata) => Some(metadata),
            QueryItem::Row(_) => None,
        }
    }

    /// Consume this item as a row, if it is a row.
    pub fn into_row(self) -> (r: Option<R>)
        ensures
            match self {
                QueryItem::Row(row) => r == Some(row),
                QueryItem::Metadata(_) => r is None,
            },
    {
        match self {
            QueryItem::Row(row) => Some(row),
            QueryItem::Metadata(_) => None,
        }
    }
}

/// The result sets that a sequence of stream items forms: metadata starts
/// a new (possibly empty) set, a row joins the last set, and a row before
/// any metadata starts the first set.
pub open spec fn group_items<R>(items: Seq<QueryItem<R>>) -> Seq<Seq<R>>
    decreases items.len(),
{
    if items.len() == 0 {
        Seq::empty()
    } else {
        let sets = group_items(items.drop_last());
        match items.last() {
            QueryItem::Metadata(_) => sets.push(Seq::empty()),
            QueryItem::Row(row) => if sets.len() == 0 {
                seq![seq![row]]
            } else {
                sets.update(sets.len() - 1, sets.last().push(row))
            },
        }
    }
}

/// The view of collected result sets.
pub open spec fn sets_view<R>(sets: Seq<Vec<R>>) -> Seq<Seq<R>> {
    sets.map_values(|v: Vec<R>| v@)
}

/// Collects the items of a compatibility stream into result sets. Empty
/// middle and trailing result sets are kept.
pub struct ResultCollector<R> {
    sets: Vec<Vec<R>>,
    seen: Ghost<Seq<QueryItem<R>>>,
}

impl<R> ResultCollector<R> {
    /// The items pushed so far.
    pub closed spec fn items(&self) -> Seq<QueryItem<R>> {
        self.seen@
    }

    /// The result sets collected so far.
    pub closed spec fn spec_sets(&self) -> Seq<Seq<R>> {
        sets_view(self.sets@)
    }

    /// The collector's state matches the items pushed.
    pub closed spec fn wf(&self) -> bool {
        sets_view(self.sets@) == group_items(self.seen@)
    }

    /// A collector that has seen no item.
    pub fn new() -> (r: Self)
        ensures
            r.wf(),
            r.items() == Seq::<QueryItem<R>>::empty(),
    {
        let r = ResultCollector { sets: Vec::new(), seen: Ghost(Seq::empty()) };
        assert(sets_view(r.sets@) =~= group_items(Seq::<QueryItem<R>>::empty()));
        r
    }

    /// Adds the next item of the stream.
    pub fn push_item(&mut self, item: QueryItem<R>)
        requires
            old(self).wf(),
        ensures
            final(self).wf(),
            final(self).items() == old(self).items().push(item),
    {
        let ghost old_items = self.seen@;
        let ghost new_items = old_items.push(item);
        proof {
            assert(new_items.drop_last() =~= old_items);
        }
        match item {
            QueryItem::Metadata(_) => {
                self.sets.push(Vec::new());
                proof {
                    assert(sets_view(self.sets@) =~= group_items(old_items).push(Seq::empty()));
                }
            },
            QueryItem::Row(row) => {
                if self.sets.len() == 0 {
                    let mut first: Vec<R> = Vec::new();
                    first.push(row);
                    self.sets.push(first);
                    proof {
                        assert(sets_view(self.sets@) =~= seq![seq![row]]);
                    }
                } else {
                    let last = self.sets.len() - 1;
                    let ghost before = self.sets@;
                    let mut set = self.sets.remove(last);
                    set.push(row);
                    self.sets.push(set);
                    proof {
                        assert(sets_view(self.sets@) =~= sets_view(before).update(last as int, sets_view(before)[last as int].push(row)));
                    }
                }
            },
        }
        self.seen = Ghost(new_items);
    }

    /// All result sets, in order.
    pub fn into_results(self) -> (r: Vec<Vec<R>>)
        requires
            self.wf(),
        ensures
            sets_view(r@) == group_items(self.items()),
    {
        self.sets
    }

    /// The first result set (empty when there was none); later sets are
    /// dropped.
    pub fn into_first_result(self) -> (r: Vec<R>)
        requires
            self.wf(),
        ensures
            group_items(self.items()).len() == 0 ==> r@.len() == 0,
            group_items(self.items()).len() > 0 ==> r@ == group_items(self.items())[0],
    {
        let mut sets = self.sets;
        if sets.len() == 0 {
            return Vec::new();
        }
        sets.remove(0)
    }
}

/// The variants of a tiberius-compatible value, by the kind of value they
/// carry.
#[derive(Debug, Clone, Copy, PartialEq, Eq, Structural)]
pub enum CompatKind {
    Bit,
    U8,
    I16,
    I32,
    I64,
    F32,
    F64,
    String,
    Guid,
    Binary,
    Numeric,
    Xml,
    DateTime,
    SmallDateTime,
    Time,
    Date,
    DateTime2,
    DateTimeOffset,
    Money,
    SmallMoney,
    Json,
}

/// The compatible value kind whose NULL stands for a NULL of a column of
/// the given type: the matching scalar kind, a string NULL for character
/// and untyped columns, and a binary NULL for binary, spatial, UDT,
/// variant and vector columns.
pub open spec fn spec_null_kind(t: ColumnType) -> CompatKind {
    match t {
        ColumnType::Bit => CompatKind::Bit,
        ColumnType::Int1 => CompatKind::U8,
        ColumnType::Int2 => CompatKind::I16,
        ColumnType::Int4 => CompatKind::I32,
        ColumnType::Int8 => CompatKind::I64,
        ColumnType::Float4 => CompatKind::F32,
        ColumnType::Float8 => CompatKind::F64,
        ColumnType::Datetime => CompatKind::DateTime,
        ColumnType::Datetime4 => CompatKind::SmallDateTime,
        ColumnType::Datetime2 => CompatKind::DateTime2,
        ColumnType::DatetimeOffset => CompatKind::DateTimeOffset,
        ColumnType::Date => CompatKind::Date,
        ColumnType::Time => CompatKind::Time,
        ColumnType::Decimaln | ColumnType::Numericn => CompatKind::Numeric,
        ColumnType::Money => CompatKind::Money,
        ColumnType::Money4 => CompatKind::SmallMoney,
        ColumnType::Guid => CompatKind::Guid,
        ColumnType::Xml => CompatKind::Xml,
        ColumnType::Json => CompatKind::Json,
        ColumnType::NVarchar | ColumnType::Varchar | ColumnType::NChar | ColumnType::Char
        | ColumnType::NText | ColumnType::Text | ColumnType::Null => CompatKind::String,
        ColumnType::Binary | ColumnType::VarBinary | ColumnType::Image | ColumnType::BigVarBin
        | ColumnType::Ssvariant | ColumnType::Geography | ColumnType::Geometry | ColumnType::Udt
        | ColumnType::Vector => CompatKind::Binary,
    }
}

/// The compatible value kind of a NULL in a column of type `t`.
pub fn null_kind(t: ColumnType) -> (r: CompatKind)
    ensures
        r == spec_null_kind(t),
{
    match t {
        ColumnType::Bit => CompatKind::Bit,
        ColumnType::Int1 => CompatKind::U8,
        ColumnType::Int2 => CompatKind::I16,
        ColumnType::Int4 => CompatKind::I32,
        ColumnType::Int8 => CompatKind::I64,
        ColumnType::Float4 => CompatKind::F32,
        ColumnType::Float8 => CompatKind::F64,
        ColumnType::Datetime => CompatKind::DateTime,
        ColumnType::Datetime4 => CompatKind::SmallDateTime,
        ColumnType::Datetime2 => CompatKind::DateTime2,
        ColumnType::DatetimeOffset => CompatKind::DateTimeOffset,
        ColumnType::Date => CompatKind::Date,
        ColumnType::Time => CompatKind::Time,
        ColumnType::Decimaln | ColumnType::Numericn => CompatKind::Numeric,
        ColumnType::Money => CompatKind::Money,
        ColumnType::Money4 => CompatKind::SmallMoney,
        ColumnType::Guid => CompatKind::Guid,
        ColumnType::Xml => CompatKind::Xml,
        ColumnType::Json => CompatKind::Json,
        ColumnType::NVarchar | ColumnType::Varchar | ColumnType::NChar | ColumnType::Char
        | ColumnType::NText | ColumnType::Text | ColumnType::Null => CompatKind::String,
        ColumnType::Binary | ColumnType::VarBinary | ColumnType::Image | ColumnType::BigVarBin
        | ColumnType::Ssvariant | ColumnType::Geography | ColumnType::Geometry | ColumnType::Udt
        | ColumnType::Vector => CompatKind::Binary,
    }
}

/// The number of UTF-16 code units of a text: two for each character
/// beyond the Basic Multilingual Plane, one for every other.
pub open spec fn utf16_units(s: Seq<char>) -> nat
    decreases s.len(),
{
    if s.len() == 0 {
        0
    } else {
        utf16_units(s.drop_last()) + (if (s.last() as u32) > 0xFFFF { 2nat } else { 1nat })
    }
}

proof fn lemma_utf16_units_prefix(s: Seq<char>, i: int)
    requires
        0 <= i <= s.len(),
    ensures
        utf16_units(s.subrange(0, i)) <= utf16_units(s),
    decreases s.len() - i,
{
    if i < s.len() {
        lemma_utf16_units_prefix(s, i + 1);
        assert(s.subrange(0, i + 1).drop_last() =~= s.subrange(0, i));
    } else {
        assert(s.subrange(0, i) =~= s);
    }
}

/// The longest string, in UTF-16 code units, that is sent as `nvarchar(n)`.
pub const NVARCHAR_LIMIT: usize = 4000;

/// Whether a text has more UTF-16 code units than `nvarchar(4000)` holds.
pub fn exceeds_nvarchar_limit(s: &str) -> (r: bool)
    ensures
        r == (utf16_units(s@) > NVARCHAR_LIMIT),
{
    let cs = chars_of(s);
    let mut units: usize = 0;
    let mut i: usize = 0;
    while i < cs.len()
        invariant
            0 <= i <= cs@.len(),
            cs@ == s@,
            units == utf16_units(cs@.subrange(0, i as int)),
            units <= NVARCHAR_LIMIT,
        decreases cs@.len() - i,
    {
        assert(cs@.subrange(0, i + 1).drop_last() =~= cs@.subrange(0, i as int));
        let add: usize = if (cs[i] as u32) > 0xFFFF { 2 } else { 1 };
        units = units + add;
        i = i + 1;
        if units > NVARCHAR_LIMIT {
            proof {
                lemma_utf16_units_prefix(cs@, i as int);
            }
            return true;
        }
    }
    assert(cs@.subrange(0, cs@.len() as int) =~= cs@);
    false
}

/// The parameter type of a compatible string value: `nvarchar(max)` beyond
/// 4000 UTF-16 code units, `nvarchar(4000)` otherwise.
pub fn compat_string_type(s: &str) -> (r: SqlParamType)
    ensures
        utf16_units(s@) > NVARCHAR_LIMIT ==> r == SqlParamType::NVarcharMax,
        utf16_units(s@) <= NVARCHAR_LIMIT ==> r == SqlParamType::NVarchar(4000),
{
    if exceeds_nvarchar_limit(s) {
        SqlParamType::NVarcharMax
    } else {
        SqlParamType::NVarchar(4000)
    }
}

} // verus!
