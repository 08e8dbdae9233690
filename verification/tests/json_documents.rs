use github_projects_planner_sync::json::Json;
use github_projects_planner_sync::text::{contains_text, same_text};

#[test]
fn parses_every_kind_of_value() {
    let doc = Json::parse(r#"{"a": [1, "x", null, true, 2.5], "b": {"c": -7}}"#).unwrap();
    let items = doc.member_items("a").unwrap();
    assert_eq!(items.len(), 5);
    assert!(matches!(items[0], Json::Number(Some(1))));
    assert!(matches!(&items[1], Json::Text(text) if text == "x"));
    assert!(matches!(items[2], Json::Null));
    assert!(matches!(items[3], Json::Bool(true)));
    assert!(matches!(items[4], Json::Number(None)));
    assert_eq!(doc.member("b").unwrap().member_integer("c"), Some(-7));
}

#[test]
fn parses_a_nested_array_of_objects() {
    let doc = Json::parse(r#"[{"k": [{"deep": "v"}]}]"#).unwrap();
    let Json::Array(outer) = doc else { panic!("not an array") };
    let inner = outer[0].member_items("k").unwrap();
    assert_eq!(inner[0].member_text("deep").map(String::as_str), Some("v"));
}

#[test]
fn rejects_text_that_is_not_json() {
    assert!(Json::parse(r#"{"a": "#).is_none());
    assert!(Json::parse("").is_none());
    assert!(Json::parse("{} trailing").is_none());
    assert!(Json::parse("{'a': 1}").is_none());
}

#[test]
fn unescapes_strings() {
    let doc = Json::parse(r#"{"s": "a\"b\\cé\n"}"#).unwrap();
    assert_eq!(doc.member_text("s").map(String::as_str), Some("a\"b\\c\u{e9}\n"));
}

#[test]
fn reads_integers_within_i64_only() {
    let doc = Json::parse(
        r#"{"max": 9223372036854775807, "over": 9223372036854775808, "min": -9223372036854775808, "real": 1.0}"#,
    )
    .unwrap();
    assert_eq!(doc.member_integer("max"), Some(i64::MAX));
    assert_eq!(doc.member_integer("min"), Some(i64::MIN));
    assert_eq!(doc.member_integer("over"), None);
    assert_eq!(doc.member_integer("real"), None);
    assert!(matches!(doc.member("over"), Some(Json::Number(None))));
}

#[test]
fn keeps_the_last_of_repeated_keys_of_a_text() {
    let doc = Json::parse(r#"{"a": 1, "a": 2}"#).unwrap();
    assert_eq!(doc.member_integer("a"), Some(2));
}

#[test]
fn finds_the_first_of_repeated_keys_of_a_built_object() {
    let doc = Json::Object(vec![
        ("a".to_string(), Json::Number(Some(1))),
        ("b".to_string(), Json::Null),
        ("a".to_string(), Json::Number(Some(2))),
    ]);
    assert_eq!(doc.member_integer("a"), Some(1));
    assert!(matches!(doc.member("b"), Some(Json::Null)));
    assert!(doc.found("b").is_none());
    assert!(doc.found("a").is_some());
    assert!(doc.member("c").is_none());
    assert!(doc.found("c").is_none());
}

#[test]
fn members_are_of_objects_only() {
    assert!(Json::Null.member("a").is_none());
    assert!(Json::Text("a".to_string()).member("a").is_none());
    assert!(Json::Array(vec![Json::Null]).member("0").is_none());
    assert!(Json::Number(Some(3)).member_text("a").is_none());
}

#[test]
fn typed_members_need_the_right_kind() {
    let doc = Json::parse(r#"{"t": "x", "n": 4, "l": [], "o": {}}"#).unwrap();
    assert!(doc.member_text("n").is_none());
    assert!(doc.member_text("missing").is_none());
    assert!(doc.member_integer("t").is_none());
    assert!(doc.member_items("o").is_none());
    assert_eq!(doc.member_items("l").map(Vec::len), Some(0));
}

#[test]
fn keys_are_compared_exactly() {
    let doc = Json::parse(r#"{"Name": "x", "name ": "y"}"#).unwrap();
    assert!(doc.member("name").is_none());
    assert!(doc.member("Name").is_some());
}

#[test]
fn compares_texts() {
    assert!(same_text("abc", "abc"));
    assert!(same_text("", ""));
    assert!(!same_text("abc", "abd"));
    assert!(!same_text("abc", "ab"));
    assert!(!same_text("abc", "ABC"));
}

#[test]
fn looks_texts_up_in_a_list() {
    let list = vec!["opened".to_string(), "labeled".to_string()];
    assert!(contains_text(&list, "labeled"));
    assert!(contains_text(&list, "opened"));
    assert!(!contains_text(&list, "Labeled"));
    assert!(!contains_text(&list, ""));
    assert!(!contains_text(&Vec::new(), "opened"));
}
