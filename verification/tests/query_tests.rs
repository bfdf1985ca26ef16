use mssql_tiberius_bridge::query::{ExecuteResult, QueryResult, StatementOutcome};

#[test]
fn empty_query_result() {
    let qr: QueryResult<i32> = QueryResult::empty();
    assert_eq!(qr.result_set_count(), 0);
    assert!(qr.into_first_result().is_empty());
}

#[test]
fn query_result_keeps_sets_in_order() {
    let qr = QueryResult::new(vec![vec![], vec![1, 2], vec![3]]);
    assert_eq!(qr.result_set_count(), 3);
    assert_eq!(qr.into_first_result(), Vec::<i32>::new());
    let qr = QueryResult::new(vec![vec![], vec![1, 2], vec![3]]);
    assert_eq!(qr.into_rows(), vec![1, 2, 3]);
    let qr = QueryResult::new(vec![vec![4], vec![5]]);
    assert_eq!(qr.into_results(), vec![vec![4], vec![5]]);
}

#[test]
fn execute_result_counts_only_statements_with_counts() {
    let mut r = ExecuteResult::new(vec![]);
    r.record(StatementOutcome::Rows(3));
    r.record(StatementOutcome::NoRows(None));
    r.record(StatementOutcome::NoRows(Some(4)));
    assert_eq!(r.rows_affected(), &[3, 4]);
    assert_eq!(r.total(), 7);
    assert_eq!(r.into_iter(), vec![3, 4]);
}

#[test]
fn execute_result_total_of_nothing_is_zero() {
    let r = ExecuteResult::new(vec![]);
    assert_eq!(r.total(), 0);
    assert!(r.rows_affected().is_empty());
}

use mssql_tiberius_bridge::query::{decimal_parameter, decimal_precision, decimal_to_sql_type, digit_count};

#[test]
fn digit_counts() {
    assert_eq!(digit_count(0), 1);
    assert_eq!(digit_count(9), 1);
    assert_eq!(digit_count(10), 2);
    assert_eq!(digit_count(u128::MAX), 39);
}

#[test]
fn decimal_precision_is_exact_near_powers_of_ten() {
    for (text, precision) in [
        ("0", 1u8),
        ("9", 1),
        ("10", 2),
        ("9999999999999999999999999999", 28),
        ("10000000000000000000000000000", 29),
        ("-9999999999999999999999999999", 28),
    ] {
        let d: rust_decimal::Decimal = text.parse().unwrap();
        assert_eq!(decimal_precision(d.mantissa(), d.scale()), precision, "{text}");
        let parts = decimal_parameter(&d.to_string(), d.mantissa(), d.scale()).expect("accepted");
        assert_eq!(parts.precision(), precision);
    }
}

#[test]
fn decimal_scale_exceeds_precision_handled() {
    let d = rust_decimal::Decimal::new(1, 28);
    assert_eq!(decimal_precision(d.mantissa(), d.scale()), 28);
    assert!(decimal_parameter(&d.to_string(), d.mantissa(), d.scale()).is_some());
}

#[test]
fn decimal_to_sql_type_fallback_on_low_precision() {
    let parts = decimal_to_sql_type("12345.67", 3, 2).expect("fallback precision 38");
    assert_eq!(parts.precision(), 38);
}

#[test]
fn decimal_to_sql_type_total_failure_returns_none() {
    assert!(decimal_to_sql_type("not_a_number", 10, 2).is_none());
}

#[test]
fn decimal_to_sql_basic() {
    let parts = decimal_to_sql_type("123.45", 5, 2).expect("fits");
    assert_eq!((parts.precision(), parts.scale()), (5, 2));
    assert!(parts.is_positive());
    assert_eq!(parts.magnitude(), 12_345);
}
