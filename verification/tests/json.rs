use agent_driver::json::{parse, Json, Member};

fn member(key: &str, value: Json) -> Member {
    Member { key: key.to_string(), value }
}

fn text(value: &str) -> Json {
    Json::Str(value.to_string())
}

#[test]
fn parse_reads_every_kind_of_value() {
    assert_eq!(parse("null").unwrap(), Json::Null);
    assert_eq!(parse("true").unwrap(), Json::Bool(true));
    assert_eq!(parse("false").unwrap(), Json::Bool(false));
    assert_eq!(parse("12").unwrap(), Json::Number(serde_json::Number::from(12u64)));
    assert_eq!(parse("-3").unwrap(), Json::Number(serde_json::Number::from(-3i64)));
    assert_eq!(parse("\"a\\nb\"").unwrap(), text("a\nb"));
    assert_eq!(parse("[]").unwrap(), Json::Array(vec![]));
    assert_eq!(parse("{}").unwrap(), Json::Object(vec![]));
    assert_eq!(
        parse(" [1, \"two\", [null]] ").unwrap(),
        Json::Array(vec![
            Json::Number(serde_json::Number::from(1u64)),
            text("two"),
            Json::Array(vec![Json::Null]),
        ])
    );
}

#[test]
fn parse_keeps_members_in_document_order() {
    assert_eq!(
        parse("{\"b\":\"1\",\"a\":{\"z\":true,\"y\":null}}").unwrap(),
        Json::Object(vec![
            member("b", text("1")),
            member("a", Json::Object(vec![member("z", Json::Bool(true)), member("y", Json::Null)])),
        ])
    );
}

#[test]
fn parse_keeps_one_member_per_key() {
    assert_eq!(
        parse("{\"k\":\"first\",\"other\":1,\"k\":\"second\"}").unwrap(),
        Json::Object(vec![
            member("k", text("second")),
            member("other", Json::Number(serde_json::Number::from(1u64))),
        ])
    );
}

#[test]
fn parse_rejects_what_is_not_json() {
    for input in ["", "oops", "{", "[1,]", "{\"a\":1} x", "'single'", "{\"a\" 1}"] {
        let error = parse(input).unwrap_err();
        assert!(!error.detail.is_empty(), "{:?}", input);
    }
    assert_eq!(parse("oops").unwrap_err().detail, "expected value at line 1 column 1");
}

#[test]
fn get_finds_members_of_objects_only() {
    let document = parse("{\"a\":\"x\",\"b\":[\"y\"]}").unwrap();
    assert_eq!(document.get("a"), Some(&text("x")));
    assert_eq!(document.get("b"), Some(&Json::Array(vec![text("y")])));
    assert_eq!(document.get("c"), None);
    assert_eq!(document.get(""), None);
    assert_eq!(document.get("A"), None);
    assert_eq!(Json::Array(vec![text("a")]).get("a"), None);
    assert_eq!(text("a").get("a"), None);
    assert_eq!(Json::Null.get("a"), None);
}

#[test]
fn get_takes_the_first_of_members_with_the_same_key() {
    let document = Json::Object(vec![
        member("other", Json::Null),
        member("k", text("first")),
        member("k", text("second")),
    ]);
    assert_eq!(document.get("k"), Some(&text("first")));
}

#[test]
fn as_str_and_as_array_tell_the_kinds_apart() {
    assert_eq!(text("hello").as_str(), Some("hello"));
    assert_eq!(text("").as_str(), Some(""));
    assert_eq!(Json::Null.as_str(), None);
    assert_eq!(Json::Bool(true).as_str(), None);
    assert_eq!(Json::Array(vec![text("a")]).as_str(), None);
    let items = vec![text("a"), Json::Null];
    assert_eq!(Json::Array(items.clone()).as_array(), Some(&items));
    assert_eq!(text("a").as_array(), None);
    assert_eq!(Json::Object(vec![]).as_array(), None);
}

#[test]
fn text_member_reads_string_members() {
    let document = parse("{\"type\":\"system\",\"n\":1,\"o\":{\"type\":\"inner\"}}").unwrap();
    assert_eq!(document.text_member("type"), Some("system"));
    assert_eq!(document.text_member("n"), None);
    assert_eq!(document.text_member("o"), None);
    assert_eq!(document.text_member("missing"), None);
    assert_eq!(document.get("o").unwrap().text_member("type"), Some("inner"));
}

#[test]
fn clone_copies_the_whole_document() {
    let document =
        parse("{\"a\":[1,2.5,{\"b\":null}],\"c\":\"d\",\"e\":true,\"f\":-7}").unwrap();
    assert_eq!(document.clone(), document);
    let m = member("k", document);
    assert_eq!(m.clone(), m);
}
