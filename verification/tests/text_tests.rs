use mssql_tiberius_bridge::text::{
    chars_of, decimal_string, eq_ignore_ascii_case, push_decimal, push_signed, push_str,
    starts_with,
};

#[test]
fn decimal_rendering() {
    assert_eq!(decimal_string(0), "0");
    assert_eq!(decimal_string(1433), "1433");
    assert_eq!(decimal_string(u128::MAX), u128::MAX.to_string());
    let mut out = Vec::new();
    push_signed(&mut out, i128::MIN);
    assert_eq!(out.iter().collect::<String>(), i128::MIN.to_string());
    let mut out = vec!['x'];
    push_decimal(&mut out, 42);
    push_str(&mut out, "é!");
    assert_eq!(out.iter().collect::<String>(), "x42é!");
}

#[test]
fn ascii_case_folding_matches_std() {
    for (a, b) in [("SYS", "sys"), ("Geography", "geography"), ("é", "É"), ("ab", "abc"), ("", "")] {
        assert_eq!(eq_ignore_ascii_case(a, b), a.eq_ignore_ascii_case(b), "{a} {b}");
    }
}

#[test]
fn prefixes_and_chars() {
    assert!(starts_with("Row 1", "Row "));
    assert!(!starts_with("Ro", "Row"));
    assert!(starts_with("abc", ""));
    assert_eq!(chars_of("añb"), vec!['a', 'ñ', 'b']);
}
