use biliver::utils::json::{str_eq, Json};

#[test]
fn json_accessors() {
    let j = Json::Object(vec![
        ("a".to_string(), Json::PosInt(1)),
        ("b".to_string(), Json::Str("x".to_string())),
    ]);
    assert_eq!(j.get("a").and_then(|v| v.as_u64()), Some(1));
    assert_eq!(j.get("b").and_then(|v| v.as_str()).map(|s| s.as_str()), Some("x"));
    assert!(j.get("c").is_none());
    assert!(Json::NegInt(-3).as_u64().is_none());
    assert!(Json::Float.as_u64().is_none());
    assert!(Json::Null.get("a").is_none());
    assert_eq!(Json::Array(vec![Json::Null]).as_array().map(|v| v.len()), Some(1));
}

#[test]
fn text_equality() {
    assert!(str_eq("silver", "silver"));
    assert!(!str_eq("silver", "gold"));
    assert!(!str_eq("", "a"));
    assert!(str_eq("弹幕", "弹幕"));
}
