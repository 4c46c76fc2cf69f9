use jsonlogic_core::js_op::{abstract_eq, abstract_ne, strict_eq, strict_ne, to_number};
use jsonlogic_core::value::{Json, Number};

fn num(i: i64) -> Json {
    Json::Number(Number::Int(i))
}

fn text(s: &str) -> Json {
    Json::String(s.to_string())
}

#[test]
fn to_number_reads_integers() {
    assert_eq!(to_number(""), Some(Number::Int(0)));
    assert_eq!(to_number("42"), Some(Number::Int(42)));
    assert_eq!(to_number("-17"), Some(Number::Int(-17)));
    assert_eq!(to_number("-"), None);
    assert_eq!(to_number("1.5"), None);
    assert_eq!(to_number("abc"), None);
    assert_eq!(to_number("999999999999999999"), Some(Number::Int(999999999999999999)));
    assert_eq!(to_number("1000000000000000000"), None);
}

#[test]
fn to_number_ignores_surrounding_white_space() {
    assert_eq!(to_number("  12\n"), Some(Number::Int(12)));
    assert_eq!(to_number("\t+7 "), Some(Number::Int(7)));
    assert_eq!(to_number("   "), Some(Number::Int(0)));
    assert_eq!(to_number("\u{a0}-3\u{3000}"), Some(Number::Int(-3)));
    assert_eq!(to_number("1 2"), None);
    assert_eq!(to_number("+"), None);
    assert!(abstract_eq(&num(5), &text(" 5 ")));
}

#[test]
fn loose_equality_converts() {
    assert!(abstract_eq(&num(1), &text("1")));
    assert!(abstract_eq(&Json::Bool(true), &num(1)));
    assert!(abstract_eq(&Json::Bool(false), &text("0")));
    assert!(abstract_eq(&text(""), &num(0)));
    assert!(!abstract_eq(&Json::Null, &num(0)));
    assert!(abstract_eq(&Json::Null, &Json::Null));
    assert!(!abstract_eq(&text("a"), &num(0)));
    assert!(abstract_ne(&num(2), &text("3")));
}

#[test]
fn strict_equality_keeps_types() {
    assert!(!strict_eq(&num(1), &text("1")));
    assert!(strict_eq(&text("a"), &text("a")));
    assert!(strict_ne(&Json::Bool(true), &num(1)));
    assert!(!strict_eq(&Json::Array(vec![]), &Json::Array(vec![])));
}

#[test]
fn float_equality() {
    let half = Json::Number(Number::Float(0x3FE0_0000_0000_0000));
    let nan = Json::Number(Number::Float(0x7FF8_0000_0000_0000));
    assert!(strict_eq(&half, &Json::Number(Number::Float(0x3FE0_0000_0000_0000))));
    assert!(!strict_eq(&nan, &Json::Number(Number::Float(0x7FF8_0000_0000_0000))));
    assert!(strict_eq(
        &Json::Number(Number::Float(0x8000_0000_0000_0000)),
        &num(0)
    ));
}
