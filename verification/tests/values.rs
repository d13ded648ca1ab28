use scratch_blocks::error::DecodeError;
use scratch_blocks::json::{Json, Number};
use scratch_blocks::text::{contains_non_digit, decimal_text, parse_decimal, same_text, unquote};
use scratch_blocks::value::Value;

fn text(s: &str) -> Json {
    Json::String(s.to_string())
}

fn unsigned(n: u64) -> Json {
    Json::Number(Number::Unsigned(n))
}

fn number(n: u64) -> Value {
    Value::Number(Number::Unsigned(n))
}

fn string(s: &str) -> Value {
    Value::String(s.to_string())
}

#[test]
fn digits_resolve_to_their_number() {
    assert_eq!(Value::resolve(&text("10"), 0), Ok(number(10)));
    assert_eq!(Value::resolve(&text("0"), 1), Ok(number(0)));
    assert_eq!(Value::resolve(&text("007"), 0), Ok(number(7)));
    assert_eq!(Value::resolve(&text("18446744073709551615"), 0), Ok(number(u64::MAX)));
}

#[test]
fn text_with_a_non_digit_resolves_to_itself() {
    assert_eq!(Value::resolve(&text("hi"), 0), Ok(string("hi")));
    assert_eq!(Value::resolve(&text("10.5"), 0), Ok(string("10.5")));
    assert_eq!(Value::resolve(&text("-5"), 0), Ok(string("-5")));
    assert_eq!(Value::resolve(&text("12a"), 0), Ok(string("12a")));
    assert_eq!(Value::resolve(&text(" 1"), 0), Ok(string(" 1")));
    assert_eq!(Value::resolve(&text("١٢"), 0), Ok(string("١٢")));
    assert_eq!(Value::resolve(&text("é"), 0), Ok(string("é")));
}

#[test]
fn null_and_empty_resolve_to_nothing() {
    assert_eq!(Value::resolve(&Json::Null, 0), Ok(Value::Null));
    assert_eq!(Value::resolve(&Json::Null, 1), Ok(Value::Null));
    assert_eq!(Value::resolve(&text(""), 0), Ok(Value::Null));
    assert_eq!(Value::resolve(&Json::Array(vec![Json::Null, text("")]), 1), Ok(Value::Null));
}

#[test]
fn numbers_resolve_to_themselves() {
    assert_eq!(Value::resolve(&unsigned(42), 0), Ok(number(42)));
    assert_eq!(
        Value::resolve(&Json::Number(Number::Signed(-3)), 0),
        Ok(Value::Number(Number::Signed(-3)))
    );
    let half = 0x3FE0_0000_0000_0000u64;
    assert_eq!(
        Value::resolve(&Json::Number(Number::Real(half)), 0),
        Ok(Value::Number(Number::Real(half)))
    );
}

fn large(digits: &str) -> Value {
    Value::Number(Number::Large(digits.to_string()))
}

#[test]
fn digits_too_large_for_64_bits_keep_their_digits() {
    assert_eq!(
        Value::resolve(&text("18446744073709551616"), 0),
        Ok(large("18446744073709551616"))
    );
    assert_eq!(
        Value::resolve(&text("99999999999999999999999999"), 0),
        Ok(large("99999999999999999999999999"))
    );
    assert_eq!(
        Value::resolve(&text("000018446744073709551616"), 0),
        Ok(large("000018446744073709551616"))
    );
    assert_eq!(Value::resolve(&text("000018446744073709551615"), 0), Ok(number(u64::MAX)));
    let long = "1".repeat(400);
    let literal = Json::Array(vec![unsigned(4), text(&long)]);
    let wrapped = Json::Array(vec![unsigned(1), literal]);
    assert_eq!(Value::resolve(&wrapped, 1), Ok(large(&long)));
}

#[test]
fn every_text_resolves() {
    for t in ["", "0", "a", "12", "1 2", "340282366920938463463374607431768211456", "\"\""] {
        assert!(Value::resolve(&text(t), 0).is_ok());
        assert_eq!(Value::resolve(&text(t), 0), Ok(Value::from_text(t)));
    }
    assert_eq!(Value::from_text(""), Value::Null);
    assert_eq!(Value::from_text("x1"), string("x1"));
    assert_eq!(Value::from_text("42"), number(42));
}

#[test]
fn wrapper_resolves_as_its_element() {
    for inner in [text("hi"), text("10"), text(""), Json::Null, unsigned(3)] {
        let alone = Value::resolve(&inner, 1);
        let pair = Json::Array(vec![unsigned(1), inner.clone()]);
        let triple = Json::Array(vec![unsigned(3), inner.clone(), text("shadow")]);
        assert_eq!(Value::resolve(&pair, 1), alone);
        assert_eq!(Value::resolve(&triple, 1), alone);
        let field = Json::Array(vec![inner.clone(), Json::Null]);
        assert_eq!(Value::resolve(&field, 0), Value::resolve(&inner, 0));
    }
}

#[test]
fn wrapper_of_a_typed_literal_resolves_as_the_literal() {
    let literal = Json::Array(vec![unsigned(4), text("10")]);
    let cell = Json::Array(vec![unsigned(1), literal.clone()]);
    assert_eq!(Value::resolve(&cell, 1), Ok(number(10)));
    assert_eq!(Value::from_element(&literal), Ok(number(10)));
    let shadowed = Json::Array(vec![unsigned(3), text("blockid"), literal]);
    assert_eq!(Value::resolve(&shadowed, 1), Ok(string("blockid")));
}

#[test]
fn cells_without_a_shape_are_malformed() {
    assert_eq!(Value::resolve(&Json::Array(vec![]), 0), Err(DecodeError::MalformedValue));
    assert_eq!(
        Value::resolve(&Json::Array(vec![unsigned(1)]), 1),
        Err(DecodeError::MalformedValue)
    );
    assert_eq!(Value::resolve(&Json::Bool(true), 0), Err(DecodeError::MalformedValue));
    assert_eq!(Value::resolve(&Json::Object(vec![]), 0), Err(DecodeError::MalformedValue));
    let short_literal = Json::Array(vec![unsigned(1), Json::Array(vec![unsigned(4)])]);
    assert_eq!(Value::resolve(&short_literal, 1), Err(DecodeError::MalformedValue));
    let nested = Json::Array(vec![
        unsigned(1),
        Json::Array(vec![unsigned(4), Json::Array(vec![text("x")])]),
    ]);
    assert_eq!(Value::resolve(&nested, 1), Err(DecodeError::MalformedValue));
    let flag = Json::Array(vec![unsigned(1), Json::Bool(false)]);
    assert_eq!(Value::resolve(&flag, 1), Err(DecodeError::MalformedValue));
}

#[test]
fn is_null_tells_nothing_from_something() {
    assert!(Value::Null.is_null());
    assert!(!number(0).is_null());
    assert!(!string("").is_null());
}

#[test]
fn value_clone_is_equal() {
    for v in [number(5), string("abc"), Value::Null, large("123456789012345678901234567890")] {
        assert_eq!(v.clone(), v);
    }
}

#[test]
fn same_text_compares_characters() {
    assert!(same_text("", ""));
    assert!(same_text("opcode", "opcode"));
    assert!(!same_text("opcode", "opcodes"));
    assert!(!same_text("opcode", "opcodf"));
    assert!(!same_text("a", ""));
    assert!(same_text("héllo", "héllo"));
    assert!(!same_text("héllo", "hèllo"));
}

#[test]
fn contains_non_digit_finds_any_other_character() {
    assert!(!contains_non_digit(""));
    assert!(!contains_non_digit("0123456789"));
    assert!(contains_non_digit("12 3"));
    assert!(contains_non_digit("a"));
    assert!(contains_non_digit("1.0"));
    assert!(contains_non_digit("/"));
    assert!(contains_non_digit(":"));
    assert!(contains_non_digit("٣"));
}

#[test]
fn parse_decimal_reads_digits_that_fit() {
    assert_eq!(parse_decimal("0"), Some(0));
    assert_eq!(parse_decimal("10"), Some(10));
    assert_eq!(parse_decimal("000123"), Some(123));
    assert_eq!(parse_decimal("18446744073709551615"), Some(u64::MAX));
    assert_eq!(parse_decimal("18446744073709551616"), None);
    assert_eq!(parse_decimal("184467440737095516150"), None);
    assert_eq!(parse_decimal(""), None);
    assert_eq!(parse_decimal("1x"), None);
    assert_eq!(parse_decimal("+1"), None);
}

#[test]
fn decimal_text_writes_numerals() {
    assert_eq!(decimal_text(0), "0");
    assert_eq!(decimal_text(7), "7");
    assert_eq!(decimal_text(10), "10");
    assert_eq!(decimal_text(1234567890), "1234567890");
    assert_eq!(parse_decimal(&decimal_text(987654321)), Some(987654321));
}

#[test]
fn unquote_strips_one_pair_of_quotes() {
    assert_eq!(unquote("\"abc\""), "abc");
    assert_eq!(unquote("abc"), "abc");
    assert_eq!(unquote("\"abc"), "\"abc");
    assert_eq!(unquote("abc\""), "abc\"");
    assert_eq!(unquote("\"\""), "");
    assert_eq!(unquote("\""), "\"");
    assert_eq!(unquote(""), "");
    assert_eq!(unquote("\"\"x\"\""), "\"x\"");
    assert_eq!(unquote("\"é\""), "é");
}

#[test]
fn values_compare_by_content() {
    assert_eq!(number(1), number(1));
    assert_ne!(number(1), number(2));
    assert_ne!(number(1), Value::Number(Number::Signed(1)));
    assert_eq!(string("a"), string("a"));
    assert_ne!(string("a"), string("b"));
    assert_ne!(string("1"), number(1));
    assert_ne!(string(""), Value::Null);
    assert_eq!(Value::Null, Value::Null);
    assert_ne!(Value::Null, number(0));
    assert_eq!(large("99999999999999999999"), large("99999999999999999999"));
    assert_ne!(large("99999999999999999999"), large("99999999999999999998"));
    assert_ne!(large("99999999999999999999"), string("99999999999999999999"));
    assert_ne!(Number::Large("1".to_string()), Number::Unsigned(1));
    assert_eq!(Number::Real(7), Number::Real(7));
    assert_ne!(Number::Real(7), Number::Unsigned(7));
    assert_ne!(Number::Signed(7), Number::Unsigned(7));
    assert_eq!(Number::Large("5".to_string()).clone(), Number::Large("5".to_string()));
}
