use mssql_tiberius_bridge::column::{ColumnMetadata, TdsDataType};
use mssql_tiberius_bridge::compat::{
    resolve_index, QueryItem, ResultCollector, ResultMetadata, RowSchema,
};
use mssql_tiberius_bridge::error::Error;

fn col(name: &str, data_type: TdsDataType, length: usize) -> ColumnMetadata {
    ColumnMetadata {
        column_name: name.to_string(),
        data_type,
        descriptor_type: data_type,
        length,
        flags: 0x0001,
        user_type: 0,
        is_plp: false,
        precision: None,
        scale: None,
        collation: None,
        multi_part_name: None,
        udt_info: None,
    }
}

#[test]
fn schema_name_lookup_keeps_first_duplicate_and_unique_columns() {
    let schema = RowSchema::from_metadata(&[
        col("id", TdsDataType::Int4, 4),
        col("name", TdsDataType::NVarChar, 100),
        col("id", TdsDataType::Int8, 8),
    ]);
    assert_eq!(schema.columns().len(), 3);
    assert_eq!(schema.column_index("id"), Some(0));
    assert_eq!(schema.column_index("name"), Some(1));
    assert_eq!(schema.column_index("missing"), None);
    assert_eq!(schema.resolve_name("id").unwrap(), 0);
}

#[test]
fn try_get_missing_column() {
    let schema = RowSchema::from_metadata(&[col("id", TdsDataType::Int4, 4)]);
    match schema.resolve_name("nope") {
        Err(Error::ColumnNotFound(n)) => assert_eq!(n, "nope"),
        other => panic!("unexpected {other:?}"),
    }
}

#[test]
fn case_insensitive_lookup() {
    let schema = RowSchema::from_metadata(&[
        col("Name", TdsDataType::NVarChar, 100),
        col("NAME", TdsDataType::NVarChar, 100),
        col("name", TdsDataType::NVarChar, 100),
    ]);
    assert_eq!(schema.resolve_name_ci("name").unwrap(), 2);
    assert_eq!(schema.resolve_name_ci("nAmE").unwrap(), 0);
    assert!(matches!(schema.resolve_name_ci("other"), Err(Error::ColumnNotFound(_))));
    assert_eq!(schema.resolve_name("nAmE").is_err(), true);
}

#[test]
fn get_by_index_checks_bounds() {
    assert_eq!(resolve_index(1, 2).unwrap(), 1);
    match resolve_index(2, 2) {
        Err(Error::ColumnIndexOutOfBounds { index, count }) => assert_eq!((index, count), (2, 2)),
        other => panic!("unexpected {other:?}"),
    }
}

#[test]
fn result_metadata_exposes_columns_and_index() {
    let schema = RowSchema::from_metadata(&[col("a", TdsDataType::Bit, 1)]);
    let meta = ResultMetadata::new(schema, 3);
    assert_eq!(meta.result_index(), 3);
    assert_eq!(meta.columns()[0].name(), "a");
    assert_eq!(meta.schema().columns()[0].name(), "a");
    assert_eq!(meta.schema().columns().len(), 1);
}

#[test]
fn collector_keeps_empty_result_sets() {
    let schema = RowSchema::from_metadata(&[col("a", TdsDataType::Int4, 4)]);
    let mut c: ResultCollector<i32> = ResultCollector::new();
    c.push_item(QueryItem::Metadata(ResultMetadata::new(schema.clone(), 0)));
    c.push_item(QueryItem::Row(1));
    c.push_item(QueryItem::Row(2));
    c.push_item(QueryItem::Metadata(ResultMetadata::new(schema.clone(), 1)));
    c.push_item(QueryItem::Metadata(ResultMetadata::new(schema, 2)));
    c.push_item(QueryItem::Row(3));
    assert_eq!(c.into_results(), vec![vec![1, 2], vec![], vec![3]]);
}

#[test]
fn collector_first_result_may_be_empty() {
    let schema = RowSchema::from_metadata(&[col("a", TdsDataType::Int4, 4)]);
    let mut c: ResultCollector<i32> = ResultCollector::new();
    c.push_item(QueryItem::Metadata(ResultMetadata::new(schema.clone(), 0)));
    c.push_item(QueryItem::Metadata(ResultMetadata::new(schema, 1)));
    c.push_item(QueryItem::Row(9));
    assert!(c.into_first_result().is_empty());
    let c: ResultCollector<i32> = ResultCollector::new();
    assert!(c.into_first_result().is_empty());
    let mut c: ResultCollector<i32> = ResultCollector::new();
    c.push_item(QueryItem::Row(5));
    assert_eq!(c.into_first_result(), vec![5]);
}

#[test]
fn query_item_accessors() {
    let item: QueryItem<i32> = QueryItem::Row(4);
    assert_eq!(item.as_row(), Some(&4));
    assert!(item.as_metadata().is_none());
    assert_eq!(item.into_row(), Some(4));
    let schema = RowSchema::from_metadata(&[]);
    let item: QueryItem<i32> = QueryItem::Metadata(ResultMetadata::new(schema, 0));
    assert!(item.as_row().is_none());
    assert_eq!(item.into_metadata().map(|m| m.result_index()), Some(0));
}

use mssql_tiberius_bridge::column::ColumnType;
use mssql_tiberius_bridge::compat::{compat_string_type, exceeds_nvarchar_limit, null_kind, CompatKind};
use mssql_tiberius_bridge::prepared::SqlParamType;

#[test]
fn compatibility_strings_select_nvarchar_max_by_utf16_length() {
    let exact = "a".repeat(4000);
    assert!(!exceeds_nvarchar_limit(&exact));
    assert!(matches!(compat_string_type(&exact), SqlParamType::NVarchar(4000)));
    let over = "a".repeat(4001);
    assert!(matches!(compat_string_type(&over), SqlParamType::NVarcharMax));
    // 2000 supplementary characters are 4000 UTF-16 code units.
    let astral = "😀".repeat(2000);
    assert!(!exceeds_nvarchar_limit(&astral));
    let astral_over = format!("{astral}a");
    assert!(exceeds_nvarchar_limit(&astral_over));
}

#[test]
fn null_and_wrong_type_remain_distinct() {
    assert_eq!(null_kind(ColumnType::Int4), CompatKind::I32);
    assert_eq!(null_kind(ColumnType::Null), CompatKind::String);
    assert_eq!(null_kind(ColumnType::Geography), CompatKind::Binary);
    assert_eq!(null_kind(ColumnType::Numericn), CompatKind::Numeric);
    assert_eq!(null_kind(ColumnType::Datetime4), CompatKind::SmallDateTime);
}

#[test]
fn ne_different_column_types_same_arity() {
    let a = RowSchema::from_metadata(&[col("x", TdsDataType::Int4, 4)]);
    let b = RowSchema::from_metadata(&[col("y", TdsDataType::Int4, 4)]);
    let c = RowSchema::from_metadata(&[col("x", TdsDataType::Int8, 8)]);
    let d = RowSchema::from_metadata(&[]);
    assert!(a.same_column_types(&b));
    assert!(!a.same_column_types(&c));
    assert!(!a.same_column_types(&d));
}
