use sends::strutil::{i64_to_string, str_eq_value, trim_line, u64_to_dec};

#[test]
fn trim_strips_edges() {
    assert_eq!(trim_line("  x \n"), "x");
    assert_eq!(trim_line("\t hello world \r\n"), "hello world");
    assert_eq!(trim_line("inner  space"), "inner  space");
}

#[test]
fn trim_empty_and_blank() {
    assert_eq!(trim_line(""), "");
    assert_eq!(trim_line("   \t\n"), "");
}

#[test]
fn trim_is_idempotent_on_values() {
    let once = trim_line("  q ");
    let twice = trim_line(&once);
    assert_eq!(once, "q");
    assert_eq!(twice, "q");
}

#[test]
fn decimal_rendering() {
    assert_eq!(u64_to_dec(0), "0");
    assert_eq!(u64_to_dec(30), "30");
    assert_eq!(u64_to_dec(9876543210), "9876543210");
    assert_eq!(i64_to_string(30), "30");
    assert_eq!(i64_to_string(0), "0");
    assert_eq!(i64_to_string(-5), "-5");
    assert_eq!(i64_to_string(i64::MIN), "-9223372036854775808");
    assert_eq!(i64_to_string(i64::MAX), "9223372036854775807");
}

#[test]
fn string_equality() {
    assert!(str_eq_value("native", "native"));
    assert!(!str_eq_value("native", "nativ"));
    assert!(!str_eq_value("", "x"));
    assert!(str_eq_value("", ""));
}
