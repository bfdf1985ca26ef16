use mssql_tiberius_bridge::error::Error;
use mssql_tiberius_bridge::prepared::{
    encode_string_parameter_type, parameter_name, prepared_handle, PreparedStatement, SqlParamType,
    VectorBaseType,
};

#[test]
fn prepared_statement_handle_and_sql_accessors() {
    let stmt = PreparedStatement::new(42, "SELECT @P1".to_string());
    assert_eq!(stmt.handle(), 42);
    assert_eq!(stmt.sql(), "SELECT @P1");
}

#[test]
fn prepared_statement_is_send_sync() {
    fn assert_send_sync<T: Send + Sync>() {}
    assert_send_sync::<PreparedStatement>();
}

#[test]
fn prepared_statement_debug_includes_handle() {
    let stmt = PreparedStatement::new(7, "SELECT 1".to_string());
    let s = format!("{stmt:?}");
    assert!(s.contains("7"), "debug should include handle: {s}");
}

#[test]
fn prepare_declarations_preserve_parameter_types_and_encoding() {
    let params = [SqlParamType::Int, SqlParamType::NVarchar(4000), SqlParamType::Bit];
    assert_eq!(
        PreparedStatement::parameter_declaration(&params, true).unwrap(),
        "@P1 int, @P2 nvarchar(4000), @P3 bit"
    );
    assert_eq!(
        PreparedStatement::parameter_declaration(&params, false).unwrap(),
        "@P1 int, @P2 varchar(4000), @P3 bit"
    );
    assert_eq!(PreparedStatement::parameter_declaration(&[], true).unwrap(), "");
}

#[test]
fn prepare_declarations_preserve_lengths_precision_and_scale() {
    let cases = [
        (SqlParamType::NVarchar(42), "nvarchar(42)"),
        (SqlParamType::NVarchar(4001), "nvarchar(MAX)"),
        (SqlParamType::Varchar(8001), "varchar(MAX)"),
        (SqlParamType::VarBinary(8001), "varbinary(MAX)"),
        (SqlParamType::Binary(16), "binary(16)"),
        (SqlParamType::Char(12), "char(12)"),
        (SqlParamType::NChar(12), "nchar(12)"),
        (SqlParamType::Numeric(None), "numeric(18,10)"),
        (SqlParamType::Decimal(Some((8, 2))), "decimal(8,2)"),
        (SqlParamType::Time(None), "time(7)"),
        (SqlParamType::Time(Some(3)), "time(3)"),
        (SqlParamType::DateTime2(None), "datetime2(7)"),
        (SqlParamType::DateTimeOffset(None), "datetimeoffset(7)"),
    ];
    for (value, expected) in cases {
        assert_eq!(PreparedStatement::sql_declaration(&value).unwrap(), expected);
    }
}

#[test]
fn fixed_width_declarations_use_driver_names() {
    assert_eq!(PreparedStatement::sql_declaration(&SqlParamType::Int).unwrap(), "int");
    assert_eq!(PreparedStatement::sql_declaration(&SqlParamType::BigInt).unwrap(), "bigint");
    assert_eq!(PreparedStatement::sql_declaration(&SqlParamType::Bit).unwrap(), "bit");
    assert_eq!(
        PreparedStatement::sql_declaration(&SqlParamType::Uuid).unwrap(),
        "uniqueidentifier"
    );
}

#[test]
fn table_parameters_are_declared_readonly() {
    let t = SqlParamType::Table {
        schema_name: Some("dbo".to_string()),
        table_type_name: "Items".to_string(),
    };
    assert_eq!(
        PreparedStatement::sql_declaration(&t).unwrap(),
        "[dbo].[Items] READONLY"
    );
    let quoted = SqlParamType::Table {
        schema_name: None,
        table_type_name: "a]b".to_string(),
    };
    assert_eq!(
        PreparedStatement::sql_declaration(&quoted).unwrap(),
        "[dbo].[a]]b] READONLY"
    );
}

#[test]
fn vector_declaration_names_dimensions() {
    let v = SqlParamType::Vector(3, VectorBaseType::Float32);
    let text = PreparedStatement::sql_declaration(&v).unwrap();
    assert!(text.starts_with("vector(3"), "{text}");
}

#[test]
fn string_parameter_encoding_can_use_varchar() {
    let ty = encode_string_parameter_type(SqlParamType::NVarchar(4000), false);
    assert!(matches!(ty, SqlParamType::Varchar(4000)));
    let ty = encode_string_parameter_type(SqlParamType::NVarcharMax, false);
    assert!(matches!(ty, SqlParamType::VarcharMax));
}

#[test]
fn string_parameter_encoding_defaults_to_nvarchar() {
    let ty = encode_string_parameter_type(SqlParamType::NVarchar(4000), true);
    assert!(matches!(ty, SqlParamType::NVarchar(4000)));
    let ty = encode_string_parameter_type(SqlParamType::Int, false);
    assert!(matches!(ty, SqlParamType::Int));
}

#[test]
fn build_params_positional_naming() {
    assert_eq!(parameter_name(0), "@P1");
    assert_eq!(parameter_name(1), "@P2");
    assert_eq!(parameter_name(9), "@P10");
}

#[test]
fn declarations_without_a_type_name_fail() {
    let v = SqlParamType::Variant(Box::new(SqlParamType::Int));
    let r = PreparedStatement::sql_declaration(&v);
    match r {
        Ok(text) => assert_eq!(text, "sql_variant"),
        Err(e) => assert!(matches!(e, Error::Tds(_))),
    }
}

#[test]
fn named_declarations_add_the_type_arguments() {
    assert_eq!(PreparedStatement::named_declaration("nvarchar", &SqlParamType::NVarchar(42)), "nvarchar(42)");
    assert_eq!(PreparedStatement::named_declaration("varchar", &SqlParamType::VarcharMax), "varchar(MAX)");
    assert_eq!(PreparedStatement::named_declaration("int", &SqlParamType::Int), "int");
    assert_eq!(
        PreparedStatement::named_declaration("vector", &SqlParamType::Vector(4, VectorBaseType::Float16)),
        "vector(4, float16)"
    );
}

#[test]
fn prepared_handle_takes_the_single_integer_output() {
    assert_eq!(prepared_handle(&[Some(17)]).unwrap(), 17);
    assert_eq!(prepared_handle(&[Some(-3)]).unwrap(), -3);
}

#[test]
fn prepared_handle_rejects_missing_or_extra_outputs() {
    assert!(matches!(prepared_handle(&[]), Err(Error::Tds(_))));
    assert!(matches!(prepared_handle(&[None]), Err(Error::Tds(_))));
    assert!(matches!(prepared_handle(&[Some(1), Some(2)]), Err(Error::Tds(_))));
}

#[test]
fn prepared_statement_is_valid_only_in_its_session() {
    let stmt = PreparedStatement::for_session(5, "SELECT 1".to_string(), 9);
    assert_eq!(stmt.handle(), 5);
    assert_eq!(stmt.sql(), "SELECT 1");
    assert!(stmt.validate_session(9).is_ok());
    assert!(matches!(stmt.validate_session(10), Err(Error::InvalidPreparedStatement)));
    let detached = PreparedStatement::new(5, "SELECT 1".to_string());
    assert!(matches!(detached.validate_session(9), Err(Error::InvalidPreparedStatement)));
}
