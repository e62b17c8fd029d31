use ide_kernel::json::{Json, JsonNumber};

#[test]
fn lookup_finds_the_first_member() {
    let v = Json::object(vec![
        ("a".to_string(), Json::uint(1)),
        ("b".to_string(), Json::Bool(true)),
        ("a".to_string(), Json::uint(2)),
    ]);
    assert_eq!(v.get("a"), Some(&Json::uint(1)));
    assert_eq!(v.get("b").and_then(|x| x.as_bool()), Some(true));
    assert_eq!(v.get("c"), None);
    assert_eq!(Json::uint(3).get("a"), None);
}

#[test]
fn clone_is_deep_and_equal() {
    let v = Json::Array(vec![
        Json::Null,
        Json::Number(JsonNumber::Float("1.5".to_string())),
        Json::object(vec![("k".to_string(), Json::text("v".to_string()))]),
    ]);
    assert_eq!(v.clone(), v);
    assert_eq!(Json::text("x".to_string()).as_str(), Some("x"));
    assert_eq!(Json::Null.as_str(), None);
}
