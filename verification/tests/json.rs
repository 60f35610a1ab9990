use klave::json::{parse, Json, Member};

fn text(s: &str) -> Json {
    Json::Text(s.to_string())
}

fn member(key: &str, value: Json) -> Member {
    Member { key: key.to_string(), value }
}

#[test]
fn parse_reads_every_kind_of_value() {
    assert_eq!(parse("null"), Some(Json::Null));
    assert_eq!(parse("true"), Some(Json::Bool(true)));
    assert_eq!(parse(" false "), Some(Json::Bool(false)));
    assert_eq!(parse("12"), Some(Json::Number("12".to_string())));
    assert_eq!(parse("-3"), Some(Json::Number("-3".to_string())));
    assert_eq!(parse("1.5"), Some(Json::Number("1.5".to_string())));
    assert_eq!(parse("\"a\\nb\""), Some(text("a\nb")));
    assert_eq!(parse("[]"), Some(Json::Array(vec![])));
    assert_eq!(parse("{}"), Some(Json::Object(vec![])));
    assert_eq!(
        parse("[1, \"x\", [null]]"),
        Some(Json::Array(vec![
            Json::Number("1".to_string()),
            text("x"),
            Json::Array(vec![Json::Null]),
        ]))
    );
}

#[test]
fn parse_reads_nested_objects() {
    let doc = parse("{\"applications\": [{\"slug\": \"a\", \"rootDir\": \"apps/a\"}]}");
    assert_eq!(
        doc,
        Some(Json::Object(vec![member(
            "applications",
            Json::Array(vec![Json::Object(vec![
                member("rootDir", text("apps/a")),
                member("slug", text("a")),
            ])]),
        )]))
    );
}

#[test]
fn parse_refuses_what_is_not_json() {
    assert_eq!(parse(""), None);
    assert_eq!(parse("{"), None);
    assert_eq!(parse("{\"a\": }"), None);
    assert_eq!(parse("[1, 2,]"), None);
    assert_eq!(parse("{} trailing"), None);
    assert_eq!(parse("'single'"), None);
}

#[test]
fn parse_keeps_the_last_of_two_members_with_one_key() {
    let doc = parse("{\"a\": 1, \"a\": 2}").unwrap();
    assert_eq!(doc.get("a"), Some(&Json::Number("2".to_string())));
}

#[test]
fn get_finds_a_member_of_an_object_only() {
    let doc = Json::Object(vec![member("a", text("x")), member("b", Json::Null)]);
    assert_eq!(doc.get("a"), Some(&text("x")));
    assert_eq!(doc.get("b"), Some(&Json::Null));
    assert_eq!(doc.get("c"), None);
    assert_eq!(doc.get(""), None);
    assert_eq!(Json::Array(vec![text("a")]).get("a"), None);
    assert_eq!(text("a").get("a"), None);
    assert_eq!(Json::Null.get("a"), None);
}

#[test]
fn get_takes_the_first_of_two_members_with_one_key() {
    let doc = Json::Object(vec![member("a", text("first")), member("a", text("second"))]);
    assert_eq!(doc.get("a"), Some(&text("first")));
}

#[test]
fn as_array_and_as_str_tell_the_kinds_apart() {
    let list = Json::Array(vec![Json::Null]);
    assert_eq!(list.as_array(), Some(&vec![Json::Null]));
    assert_eq!(list.as_str(), None);
    assert_eq!(text("x").as_str(), Some("x"));
    assert_eq!(text("x").as_array(), None);
    assert_eq!(Json::Number("1".to_string()).as_str(), None);
    assert_eq!(Json::Object(vec![]).as_array(), None);
}

#[test]
fn text_of_gives_string_members_only() {
    let doc = Json::Object(vec![member("slug", text("a")), member("n", Json::Number("1".to_string()))]);
    assert_eq!(doc.text_of("slug"), Some("a".to_string()));
    assert_eq!(doc.text_of("n"), None);
    assert_eq!(doc.text_of("missing"), None);
    assert_eq!(Json::Bool(true).text_of("slug"), None);
}
