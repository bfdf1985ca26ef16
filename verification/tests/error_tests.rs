use mssql_tiberius_bridge::error::Error;

#[test]
fn facade_errors_preserve_context_without_a_source() {
    let cases = [
        (Error::ColumnNotFound("missing".into()), "Column not found: missing"),
        (
            Error::ColumnIndexOutOfBounds { index: 3, count: 2 },
            "Column index 3 out of bounds (count: 2)",
        ),
        (Error::Conversion("invalid date".into()), "Conversion error: invalid date"),
        (
            Error::BulkInput("wrong column count".into()),
            "BULK UPLOAD input failure: wrong column count",
        ),
        (Error::Pool("closed".into()), "Pool error: closed"),
        (
            Error::InvalidPreparedStatement,
            "Prepared statement belongs to a different or reset client session",
        ),
    ];
    for (error, expected) in cases {
        assert_eq!(error.to_string(), expected);
        assert!(error.source().is_none());
    }
}

#[test]
fn tds_errors_retain_the_original_source() {
    let original = mssql_tds::error::Error::UsageError("invalid parameter".into());
    let original_message = original.to_string();
    let error = Error::Tds(original);
    assert_eq!(error.to_string(), format!("TDS error: {original_message}"));
    let source = error.source().expect("TDS error should retain its source");
    assert_eq!(source.to_string(), original_message);
    assert!(matches!(
        source,
        mssql_tds::error::Error::UsageError(message) if message == "invalid parameter"
    ));
}

#[test]
fn index_errors_render_large_values() {
    let e = Error::ColumnIndexOutOfBounds { index: 1234567, count: 0 };
    assert_eq!(e.to_string(), "Column index 1234567 out of bounds (count: 0)");
}
