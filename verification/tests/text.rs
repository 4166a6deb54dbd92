use telemetry_attributes::json::{Json, JsonNumber};
use telemetry_attributes::text::{decimal_text, header_text, hex_text, push_decimal, same_text};
use telemetry_attributes::value::{
    duplicate_value, found_or_default, found_or_text, text_attribute, AttributeValue, Found,
};

#[test]
fn decimal_digits() {
    assert_eq!(decimal_text(0), "0");
    assert_eq!(decimal_text(7), "7");
    assert_eq!(decimal_text(10), "10");
    assert_eq!(decimal_text(8080), "8080");
    assert_eq!(decimal_text(65535), "65535");
    assert_eq!(decimal_text(u64::MAX), u64::MAX.to_string());
    let mut s = String::from("port ");
    push_decimal(&mut s, 443);
    assert_eq!(s, "port 443");
}

#[test]
fn hexadecimal_trace_ids() {
    assert_eq!(hex_text(0), "00000000000000000000000000000000");
    assert_eq!(hex_text(0xabc), "00000000000000000000000000000abc");
    assert_eq!(hex_text(u128::MAX), "ffffffffffffffffffffffffffffffff");
    let id: u128 = 0x0123_4567_89ab_cdef_fedc_ba98_7654_3210;
    assert_eq!(hex_text(id), "0123456789abcdeffedcba9876543210");
    assert_eq!(hex_text(id), format!("{:032x}", id));
}

#[test]
fn header_values_are_visible_text_or_nothing() {
    assert_eq!(header_text(&b"hello world".to_vec()), Some("hello world".to_string()));
    assert_eq!(header_text(&b"a\tb~ ".to_vec()), Some("a\tb~ ".to_string()));
    assert_eq!(header_text(&Vec::new()), Some(String::new()));
    assert_eq!(header_text(&vec![b'a', 127]), None);
    assert_eq!(header_text(&vec![b'a', 31]), None);
    assert_eq!(header_text(&vec![0xc3, 0xa9]), None);
    assert_eq!(header_text(&vec![b'\n']), None);
}

#[test]
fn structured_values_convert_to_attribute_values() {
    let of = |j: Json| AttributeValue::from_json(&j);
    assert!(matches!(of(Json::Bool(true)), Some(AttributeValue::Bool(true))));
    assert!(matches!(of(Json::Number(JsonNumber::Unsigned(7))), Some(AttributeValue::I64(7))));
    assert!(matches!(
        of(Json::Number(JsonNumber::Unsigned(i64::MAX as u64))),
        Some(AttributeValue::I64(i64::MAX))
    ));
    assert!(matches!(
        of(Json::Number(JsonNumber::Unsigned(i64::MAX as u64 + 1))),
        Some(AttributeValue::U128(9223372036854775808))
    ));
    assert!(matches!(
        of(Json::Number(JsonNumber::Unsigned(u64::MAX))),
        Some(AttributeValue::U128(18446744073709551615))
    ));
    assert!(matches!(of(Json::Number(JsonNumber::Signed(-5))), Some(AttributeValue::I64(-5))));
    let bits = 1.5f64.to_bits();
    assert!(matches!(
        of(Json::Number(JsonNumber::Double { bits })),
        Some(AttributeValue::Double { bits: b }) if f64::from_bits(b) == 1.5
    ));
    assert!(matches!(of(Json::String("x".to_string())), Some(AttributeValue::String(s)) if s == "x"));
    assert!(of(Json::Null).is_none());
    assert!(of(Json::Array(vec![Json::Bool(true)])).is_none());
    assert!(of(Json::Object(vec![])).is_none());
}

#[test]
fn the_value_found_comes_before_the_default() {
    let default = Some(AttributeValue::I64(1));
    assert!(matches!(
        found_or_default(Some(AttributeValue::Bool(false)), &default),
        Some(AttributeValue::Bool(false))
    ));
    assert!(matches!(found_or_default(None, &default), Some(AttributeValue::I64(1))));
    assert!(found_or_default(None, &None).is_none());
    assert!(matches!(
        found_or_default(Some(AttributeValue::U128(2)), &None),
        Some(AttributeValue::U128(2))
    ));
    let text = Some("fallback".to_string());
    assert!(matches!(
        found_or_text(Some(AttributeValue::I64(3)), &text),
        Some(AttributeValue::I64(3))
    ));
    assert!(matches!(found_or_text(None, &text), Some(AttributeValue::String(s)) if s == "fallback"));
    assert!(found_or_text(None, &None).is_none());
}

#[test]
fn copies_hold_the_same_value() {
    let v = AttributeValue::String("abc".to_string());
    assert!(matches!(v.duplicate(), AttributeValue::String(s) if s == "abc"));
    assert!(matches!(AttributeValue::Double { bits: 9 }.duplicate(), AttributeValue::Double { bits: 9 }));
    assert!(matches!(duplicate_value(&Some(AttributeValue::U128(5))), Some(AttributeValue::U128(5))));
    assert!(duplicate_value(&None).is_none());
    assert!(matches!(text_attribute(Some("t".to_string())), Some(AttributeValue::String(s)) if s == "t"));
    assert!(text_attribute(None).is_none());
}

#[test]
fn what_a_path_leads_to_converts_by_its_kind() {
    let number = |unsigned, signed, bits| AttributeValue::from_found(Found::Number { unsigned, signed, bits });
    assert!(matches!(number(Some(5), Some(5), Some(5f64.to_bits())), Some(AttributeValue::I64(5))));
    assert!(matches!(
        number(Some(u64::MAX), None, Some(1.8446744073709552e19f64.to_bits())),
        Some(AttributeValue::U128(18446744073709551615))
    ));
    assert!(matches!(number(None, Some(-9), Some((-9f64).to_bits())), Some(AttributeValue::I64(-9))));
    assert!(matches!(
        number(None, None, Some(2.5f64.to_bits())),
        Some(AttributeValue::Double { bits }) if f64::from_bits(bits) == 2.5
    ));
    assert!(number(None, None, None).is_none());
    assert!(matches!(AttributeValue::from_found(Found::Bool(true)), Some(AttributeValue::Bool(true))));
    assert!(matches!(
        AttributeValue::from_found(Found::String("s".to_string())),
        Some(AttributeValue::String(s)) if s == "s"
    ));
    assert!(AttributeValue::from_found(Found::Null).is_none());
    assert!(AttributeValue::from_found(Found::Array(vec![serde_json::Value::Bool(true)])).is_none());
    assert!(AttributeValue::from_found(Found::Object(serde_json::Map::new())).is_none());
}

#[test]
fn texts_are_the_same_by_their_characters() {
    assert!(same_text("abc", "abc"));
    assert!(same_text("", ""));
    assert!(!same_text("abc", "abd"));
    assert!(!same_text("abc", "ab"));
    assert!(!same_text("abc", "ABC"));
}
