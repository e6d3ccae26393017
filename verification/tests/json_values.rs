use speech_relay::json::{Json, Member};

fn object(members: Vec<(&str, Json)>) -> Json {
    Json::Object(
        members
            .into_iter()
            .map(|(name, value)| Member { name: name.to_string(), value })
            .collect(),
    )
}

fn string(text: &str) -> Json {
    Json::Text(text.to_string())
}

#[test]
fn member_finds_by_name() {
    let document = object(vec![("a", Json::Null), ("b", string("x")), ("c", Json::Bool(true))]);
    assert_eq!(document.member("b"), Some(&string("x")));
    assert_eq!(document.member("a"), Some(&Json::Null));
    assert_eq!(document.member("d"), None);
    assert_eq!(document.member(""), None);
}

#[test]
fn member_takes_the_first_of_a_name() {
    let document = object(vec![("a", string("first")), ("a", string("second"))]);
    assert_eq!(document.member("a"), Some(&string("first")));
}

#[test]
fn member_of_what_is_no_object_is_missing() {
    assert_eq!(string("a").member("a"), None);
    assert_eq!(Json::Array(vec![string("a")]).member("a"), None);
    assert_eq!(Json::Null.member("a"), None);
    assert_eq!(Json::Number.member("a"), None);
}

#[test]
fn element_finds_by_position() {
    let list = Json::Array(vec![string("zero"), Json::Number]);
    assert_eq!(list.element(0), Some(&string("zero")));
    assert_eq!(list.element(1), Some(&Json::Number));
    assert_eq!(list.element(2), None);
    assert_eq!(Json::Array(vec![]).element(0), None);
    assert_eq!(object(vec![("0", Json::Null)]).element(0), None);
}

#[test]
fn text_is_there_for_strings_only() {
    assert_eq!(string("hi").text(), Some("hi"));
    assert_eq!(string("").text(), Some(""));
    assert_eq!(Json::Null.text(), None);
    assert_eq!(Json::Bool(true).text(), None);
    assert_eq!(Json::Number.text(), None);
    assert_eq!(Json::Array(vec![string("hi")]).text(), None);
}

#[test]
fn is_null_tells_null_apart() {
    assert!(Json::Null.is_null());
    assert!(!Json::Bool(false).is_null());
    assert!(!string("null").is_null());
}
