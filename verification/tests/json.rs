use tokimo_package_mcp::{Json, McpError};

fn json(text: &str) -> Json {
    Json::from_text(text).unwrap()
}

fn text(json: &Json) -> String {
    String::from_utf8(json.to_bytes()).unwrap()
}

#[test]
fn text_becomes_a_tree() {
    let value = json(r#" {"a": [null, true, 3, -4, 2.5, "x\ny"], "b": {}} "#);
    let Json::Object(fields) = &value else { panic!("no object") };
    assert_eq!(fields.len(), 2);
    let Some(Json::Array(items)) = value.get("a") else { panic!("no array") };
    assert!(matches!(items[0], Json::Null));
    assert!(matches!(items[1], Json::Bool(true)));
    assert!(matches!(items[2], Json::PosInt(3)));
    assert!(matches!(items[3], Json::NegInt(-4)));
    assert!(matches!(items[4], Json::Float(_)));
    assert_eq!(items[5].as_str(), Some("x\ny"));
    assert!(matches!(value.get("b"), Some(Json::Object(_))));
    assert!(value.get("c").is_none());
    assert!(items[0].get("a").is_none());
}

#[test]
fn a_tree_becomes_compact_text() {
    let value = Json::Object(vec![
        ("b".to_string(), Json::Array(vec![Json::PosInt(1), Json::NegInt(-2)])),
        ("a".to_string(), Json::Str("tab\there \"quoted\" ü".to_string())),
    ]);
    assert_eq!(text(&value), r#"{"a":"tab\there \"quoted\" ü","b":[1,-2]}"#);
}

#[test]
fn what_is_written_is_read_back() {
    let source = r#"{"deep":[[[["x"]]]],"max":18446744073709551615,"min":-9223372036854775808,"s":"\u0000\u001f\n"}"#;
    assert_eq!(text(&json(source)), source);
    assert_eq!(text(&json(&text(&json(source)))), source);
}

#[test]
fn the_later_of_two_fields_counts() {
    let twice = Json::Object(vec![
        ("a".to_string(), Json::PosInt(1)),
        ("a".to_string(), Json::PosInt(2)),
    ]);
    assert_eq!(twice.get("a").and_then(Json::as_u64), Some(2));
    assert_eq!(text(&twice), r#"{"a":2}"#);
    let many = Json::Object((0..100).map(|i| ((i % 7).to_string(), Json::PosInt(i))).collect());
    assert_eq!(text(&many), r#"{"0":98,"1":99,"2":93,"3":94,"4":95,"5":96,"6":97}"#);
    assert_eq!(text(&json(r#"{"a":1,"a":2}"#)), r#"{"a":2}"#);
}

#[test]
fn integers_are_told_by_range() {
    assert_eq!(json("7").as_u64(), Some(7));
    assert_eq!(json("7").as_i64(), Some(7));
    assert_eq!(json("-7").as_u64(), None);
    assert_eq!(json("-7").as_i64(), Some(-7));
    assert_eq!(json("18446744073709551615").as_u64(), Some(u64::MAX));
    assert_eq!(json("18446744073709551615").as_i64(), None);
    assert_eq!(json("1.0").as_u64(), None);
    assert_eq!(json("1.0").as_i64(), None);
    assert_eq!(json("\"7\"").as_u64(), None);
    assert_eq!(Json::NegInt(5).as_u64(), Some(5));
}

#[test]
fn a_number_of_serde_json_is_what_it_says() {
    let seven = Json::Float(serde_json::Number::from(7u64));
    assert_eq!(seven.as_u64(), Some(7));
    assert_eq!(seven.as_i64(), Some(7));
    assert_eq!(text(&seven), "7");
    let minus = Json::Float(serde_json::Number::from(-7i64));
    assert_eq!(minus.as_u64(), None);
    assert_eq!(minus.as_i64(), Some(-7));
    let half = Json::Float(serde_json::Number::from_f64(0.5).unwrap());
    assert_eq!(half.as_i64(), None);
    assert_eq!(text(&half), "0.5");
}

#[test]
fn a_copy_is_the_same() {
    let value = json(r#"{"a":[1,{"b":"c"}],"f":1.5}"#);
    assert_eq!(text(&value.clone()), text(&value));
}

#[test]
fn what_is_no_json_is_an_error() {
    for bad in ["", "{", "nul", "1 2", "{\"a\":1,}"] {
        let error = Json::from_text(bad).unwrap_err();
        assert!(matches!(error, McpError::Serde(_)));
        assert!(error.message().starts_with("serde: "));
    }
    let words = serde_json::from_str::<serde_json::Value>("[1,").unwrap_err().to_string();
    assert_eq!(Json::from_text("[1,").unwrap_err().message(), format!("serde: {words}"));
}

#[test]
fn nesting_has_a_limit() {
    let within = format!("{}{}", "[".repeat(127), "]".repeat(127));
    let beyond = format!("{}{}", "[".repeat(128), "]".repeat(128));
    assert_eq!(text(&json(&within)), within);
    assert!(Json::from_text(&beyond).is_err());
}
