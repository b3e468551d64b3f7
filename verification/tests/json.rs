use mta_hooks::parameters::{coerce_lenient, coerce_scalar, coerce_strict};
use mta_hooks::text::{decimal_text, same_text, signed_decimal_text, upper_is};
use mta_hooks::{DecodeError, Json, Mapping, Number, Shape};

fn object(members: Vec<(&str, Json)>) -> Json {
    Json::Object(members.into_iter().map(|(name, value)| (name.to_string(), value)).collect())
}

fn text(value: &str) -> Json {
    Json::Text(value.to_string())
}

fn unsigned(value: u64) -> Json {
    Json::Number(Number::Unsigned(value))
}

#[test]
fn parse_reads_every_kind_of_value() {
    assert_eq!(Json::parse("null"), Some(Json::Null));
    assert_eq!(Json::parse("true"), Some(Json::Bool(true)));
    assert_eq!(Json::parse("false"), Some(Json::Bool(false)));
    assert_eq!(Json::parse("\"a\\nb\""), Some(text("a\nb")));
    assert_eq!(Json::parse("0"), Some(unsigned(0)));
    assert_eq!(Json::parse("18446744073709551615"), Some(unsigned(u64::MAX)));
    assert_eq!(Json::parse("-1"), Some(Json::Number(Number::Negative(-1))));
    assert_eq!(
        Json::parse("-9223372036854775808"),
        Some(Json::Number(Number::Negative(i64::MIN)))
    );
    assert_eq!(Json::parse("9223372036854775807"), Some(unsigned(9223372036854775807)));
    assert_eq!(Json::parse("1.5"), Some(Json::Number(Number::Real("1.5".to_string()))));
    assert_eq!(Json::parse("1e2"), Some(Json::Number(Number::Real("100.0".to_string()))));
    assert_eq!(Json::parse("[]"), Some(Json::Array(vec![])));
    assert_eq!(
        Json::parse(" [1, [\"x\", null], {}] "),
        Some(Json::Array(vec![
            unsigned(1),
            Json::Array(vec![text("x"), Json::Null]),
            Json::Object(vec![])
        ]))
    );
    assert_eq!(
        Json::parse(r#"{"b": 1, "a": {"z": true, "y": [false]}}"#),
        Some(object(vec![
            ("b", unsigned(1)),
            ("a", object(vec![("z", Json::Bool(true)), ("y", Json::Array(vec![Json::Bool(false)]))]))
        ]))
    );
}

#[test]
fn parse_refuses_what_is_not_json() {
    for bad in ["", "{", "[1,]", "{\"a\"}", "nul", "1 2", "'a'", "{\"a\": 1,}"] {
        assert_eq!(Json::parse(bad), None, "{:?}", bad);
    }
}

#[test]
fn parse_keeps_one_member_of_each_name() {
    assert_eq!(
        Json::parse(r#"{"a": 1, "b": 2, "a": 3}"#),
        Some(object(vec![("a", unsigned(3)), ("b", unsigned(2))]))
    );
}

#[test]
fn render_writes_compact_json() {
    assert_eq!(Json::Null.render(), "null");
    assert_eq!(Json::Bool(true).render(), "true");
    assert_eq!(Json::Bool(false).render(), "false");
    assert_eq!(unsigned(0).render(), "0");
    assert_eq!(unsigned(u64::MAX).render(), "18446744073709551615");
    assert_eq!(Json::Number(Number::Negative(-42)).render(), "-42");
    assert_eq!(Json::Number(Number::Negative(i64::MIN)).render(), "-9223372036854775808");
    assert_eq!(text("a\"b\\c\n").render(), "\"a\\\"b\\\\c\\n\"");
    assert_eq!(Json::Array(vec![]).render(), "[]");
    assert_eq!(Json::Object(vec![]).render(), "{}");
    assert_eq!(
        object(vec![("z", unsigned(1)), ("a", Json::Array(vec![Json::Null, text("x")]))]).render(),
        r#"{"z":1,"a":[null,"x"]}"#
    );
}

#[test]
fn render_settles_what_no_text_holds() {
    assert_eq!(Json::Number(Number::Negative(5)).render(), "5");
    assert_eq!(Json::Number(Number::Real("1.5".to_string())).render(), "1.5");
    assert_eq!(Json::Number(Number::Real("2.50".to_string())).render(), "2.5");
    assert_eq!(Json::Number(Number::Real("7".to_string())).render(), "7");
    assert_eq!(Json::Number(Number::Real("seven".to_string())).render(), "null");
    assert_eq!(Json::Number(Number::Real("".to_string())).render(), "null");
    assert_eq!(
        object(vec![("a", unsigned(1)), ("b", unsigned(2)), ("a", unsigned(3))]).render(),
        r#"{"a":3,"b":2}"#
    );
    assert_eq!(
        Json::Array(vec![object(vec![("k", Json::Null), ("k", Json::Bool(true))])]).render(),
        r#"[{"k":true}]"#
    );
}

#[test]
fn values_pass_to_serde_json_and_back() {
    let tree = object(vec![
        ("n", Json::Null),
        ("t", Json::Bool(true)),
        ("u", unsigned(18446744073709551615)),
        ("i", Json::Number(Number::Negative(-7))),
        ("r", Json::Number(Number::Real("0.5".to_string()))),
        ("s", text("x")),
        ("a", Json::Array(vec![unsigned(1), text("y")])),
        ("o", object(vec![("k", Json::Array(vec![]))])),
    ]);
    let value = tree.to_value();
    assert!(value.is_object());
    assert_eq!(value["u"].as_u64(), Some(18446744073709551615));
    assert_eq!(value["i"].as_i64(), Some(-7));
    assert_eq!(value["r"].as_f64(), Some(0.5));
    assert_eq!(value["s"].as_str(), Some("x"));
    assert_eq!(value["a"].as_array().map(|a| a.len()), Some(2));
    assert!(value["n"].is_null());
    assert_eq!(value["t"].as_bool(), Some(true));
    assert_eq!(Json::from_value(&value), tree);
    assert_eq!(
        Json::from_value(&serde_json::Value::from(9223372036854775808u64)),
        unsigned(9223372036854775808)
    );
    assert_eq!(Json::from_value(&serde_json::Value::from(5i64)), unsigned(5));
    assert_eq!(
        Json::from_value(&serde_json::Value::from(-5i64)),
        Json::Number(Number::Negative(-5))
    );
    assert_eq!(Json::Number(Number::Negative(9)).to_value(), serde_json::Value::from(9u64));
}

#[test]
fn parse_and_render_agree() {
    for source in [
        "null",
        "[1,2,3]",
        r#"{"context":{"stage":"data"},"list":[{"a":null},-3,2.5,"x"]}"#,
        r#""é😀""#,
    ] {
        let tree = Json::parse(source).unwrap();
        assert_eq!(Json::parse(&tree.render()), Some(tree.clone()));
    }
    assert_eq!(Json::parse("[1, 2 , 3]").unwrap().render(), "[1,2,3]");
}

#[test]
fn get_finds_the_last_member_of_a_name() {
    let tree = object(vec![("a", unsigned(1)), ("b", unsigned(2)), ("a", unsigned(3))]);
    assert_eq!(tree.get("a"), Some(&unsigned(3)));
    assert_eq!(tree.get("b"), Some(&unsigned(2)));
    assert_eq!(tree.get("c"), None);
    assert_eq!(tree.get(""), None);
    assert_eq!(Json::Array(vec![unsigned(1)]).get("a"), None);
    assert_eq!(Json::Null.get("a"), None);
}

#[test]
fn duplicate_makes_an_equal_value() {
    let tree = object(vec![
        ("a", Json::Array(vec![Json::Null, Json::Number(Number::Real("1.5".to_string()))])),
        ("b", object(vec![("c", text("d"))])),
    ]);
    assert_eq!(tree.duplicate(), tree);
    assert_eq!(tree.clone(), tree);
    assert_eq!(Number::Negative(-3).duplicate(), Number::Negative(-3));
}

#[test]
fn scalars_are_coerced_to_their_strings() {
    assert_eq!(coerce_scalar(&text("54321")), Some("54321".to_string()));
    assert_eq!(coerce_scalar(&text("")), Some("".to_string()));
    assert_eq!(coerce_scalar(&unsigned(54321)), Some("54321".to_string()));
    assert_eq!(coerce_scalar(&unsigned(0)), Some("0".to_string()));
    assert_eq!(coerce_scalar(&unsigned(u64::MAX)), Some("18446744073709551615".to_string()));
    assert_eq!(coerce_scalar(&Json::Number(Number::Negative(-1))), Some("-1".to_string()));
    assert_eq!(
        coerce_scalar(&Json::Number(Number::Negative(i64::MIN))),
        Some("-9223372036854775808".to_string())
    );
    assert_eq!(coerce_scalar(&Json::Number(Number::Negative(12))), Some("12".to_string()));
    assert_eq!(
        coerce_scalar(&Json::Number(Number::Real("12.5".to_string()))),
        Some("12.5".to_string())
    );
    assert_eq!(coerce_scalar(&Json::Bool(true)), Some("true".to_string()));
    assert_eq!(coerce_scalar(&Json::Bool(false)), Some("false".to_string()));
    assert_eq!(coerce_scalar(&Json::Null), None);
    assert_eq!(coerce_scalar(&Json::Array(vec![])), None);
    assert_eq!(coerce_scalar(&Json::Object(vec![])), None);
}

#[test]
fn the_two_policies_part_on_null_arrays_and_objects() {
    let refused = Err(DecodeError::SchemaViolation { at: "parameters", expected: Shape::Scalar });
    assert_eq!(coerce_lenient(&Json::Null), None);
    assert_eq!(coerce_strict(&Json::Null), refused);
    let list = Json::Array(vec![unsigned(1), text("a")]);
    assert_eq!(coerce_lenient(&list), Some("[1,\"a\"]".to_string()));
    assert_eq!(coerce_strict(&list), refused);
    let map = object(vec![("b", unsigned(1)), ("a", Json::Null)]);
    assert_eq!(coerce_lenient(&map), Some("{\"b\":1,\"a\":null}".to_string()));
    assert_eq!(coerce_strict(&map), refused);
    for scalar in [text("x"), unsigned(7), Json::Bool(true)] {
        assert_eq!(coerce_strict(&scalar).ok(), coerce_lenient(&scalar));
    }
}

#[test]
fn decimal_notation_is_exact() {
    assert_eq!(decimal_text(0), "0");
    assert_eq!(decimal_text(9), "9");
    assert_eq!(decimal_text(10), "10");
    assert_eq!(decimal_text(54321), "54321");
    assert_eq!(decimal_text(1000000), "1000000");
    assert_eq!(decimal_text(u64::MAX), "18446744073709551615");
    assert_eq!(signed_decimal_text(0), "0");
    assert_eq!(signed_decimal_text(-1), "-1");
    assert_eq!(signed_decimal_text(-120), "-120");
    assert_eq!(signed_decimal_text(i64::MAX), "9223372036854775807");
    assert_eq!(signed_decimal_text(i64::MIN), "-9223372036854775808");
    for n in [0u64, 7, 42, 1234567890, u64::MAX] {
        assert_eq!(decimal_text(n), n.to_string());
    }
}

#[test]
fn strings_are_compared_by_their_characters() {
    assert!(same_text("", ""));
    assert!(same_text("type", "type"));
    assert!(!same_text("type", "typo"));
    assert!(!same_text("type", "types"));
    assert!(!same_text("types", "type"));
    assert!(same_text("\u{e9}\u{1f600}", "\u{e9}\u{1f600}"));
    assert!(!same_text("\u{e9}", "e"));
    assert!(upper_is("data", "DATA"));
    assert!(upper_is("DaTa", "DATA"));
    assert!(upper_is("", ""));
    assert!(!upper_is("data", "data"));
    assert!(!upper_is("dat", "DATA"));
    assert!(!upper_is("data1", "DATA"));
    assert!(!upper_is("d\u{e4}ta", "DATA"));
    assert!(upper_is("\u{e4}b", "\u{e4}B"));
    assert!(!upper_is("\u{e4}", "\u{c4}"));
}

#[test]
fn mapping_keeps_each_name_once_in_the_order_of_arrival() {
    let mut mapping: Mapping<String> = Mapping::new();
    assert!(mapping.is_empty());
    assert_eq!(mapping.len(), 0);
    assert_eq!(mapping.get("a"), None);
    assert_eq!(mapping.insert("b".to_string(), "1".to_string()), None);
    assert_eq!(mapping.insert("a".to_string(), "2".to_string()), None);
    assert_eq!(mapping.insert("b".to_string(), "3".to_string()), Some("1".to_string()));
    assert!(!mapping.is_empty());
    assert_eq!(mapping.len(), 2);
    assert_eq!(mapping.name_at(0), "b");
    assert_eq!(mapping.value_at(0), "3");
    assert_eq!(mapping.name_at(1), "a");
    assert_eq!(mapping.value_at(1), "2");
    assert_eq!(mapping.get("b"), Some(&"3".to_string()));
    assert_eq!(mapping.get("a"), Some(&"2".to_string()));
    assert_eq!(mapping.get("c"), None);
    assert!(mapping.contains_key("a"));
    assert!(!mapping.contains_key("A"));
    let copy = mapping.clone();
    assert_eq!(copy, mapping);
}

#[test]
fn numbers_that_are_no_integers_keep_their_text() {
    for source in [
        "0.1",
        "0.30000000000000004",
        "1.7976931348623157e308",
        "5e-324",
        "2.2250738585072014e-308",
        "123456789.12345679",
        "-0.0",
        "1e21",
        "18446744073709551616.0",
        "0.000001",
        "-2.5",
    ] {
        let tree = Json::parse(source).unwrap();
        match &tree {
            Json::Number(Number::Real(held)) => {
                assert_eq!(tree.render(), *held, "{}", source);
                assert_eq!(Json::parse(held), Some(tree.clone()), "{}", source);
                assert_eq!(coerce_scalar(&tree), Some(held.clone()), "{}", source);
            }
            other => panic!("{} was read as {:?}", source, other),
        }
    }
    assert_eq!(Json::parse("0.5").unwrap().render(), "0.5");
    assert_eq!(Json::parse("18446744073709551616").unwrap().render(), "1.8446744073709552e+19");
}
