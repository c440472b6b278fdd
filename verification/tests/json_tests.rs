use lcu::json::{parse_json, Json, JsonNumber};

fn text(s: &str) -> Json {
    Json::String(s.to_string())
}

fn whole(n: u64) -> Json {
    Json::Number(JsonNumber::PosInt(n))
}

#[test]
fn parse_json_reads_scalars() {
    assert_eq!(parse_json(b"null"), Some(Json::Null));
    assert_eq!(parse_json(b"true"), Some(Json::Bool(true)));
    assert_eq!(parse_json(b"false"), Some(Json::Bool(false)));
    assert_eq!(parse_json(b"\"a\\nb\""), Some(text("a\nb")));
    assert_eq!(parse_json(b" 8 "), Some(whole(8)));
}

#[test]
fn parse_json_keeps_the_three_forms_of_a_number() {
    assert_eq!(parse_json(b"0"), Some(whole(0)));
    assert_eq!(parse_json(b"18446744073709551615"), Some(whole(u64::MAX)));
    assert_eq!(parse_json(b"-1"), Some(Json::Number(JsonNumber::NegInt(-1))));
    assert_eq!(
        parse_json(b"-9223372036854775808"),
        Some(Json::Number(JsonNumber::NegInt(i64::MIN)))
    );
    assert_eq!(parse_json(b"1.5"), Some(Json::Number(JsonNumber::Float(1.5f64.to_bits()))));
    assert_eq!(parse_json(b"8.0"), Some(Json::Number(JsonNumber::Float(8.0f64.to_bits()))));
    assert_eq!(parse_json(b"-0"), Some(Json::Number(JsonNumber::Float((-0.0f64).to_bits()))));
    assert_eq!(parse_json(b"1e3"), Some(Json::Number(JsonNumber::Float(1000.0f64.to_bits()))));
}

#[test]
fn parse_json_reads_lists_and_objects() {
    assert_eq!(parse_json(b"[]"), Some(Json::Array(vec![])));
    assert_eq!(
        parse_json(b"[5, \"OnJsonApiEvent\"]"),
        Some(Json::Array(vec![whole(5), text("OnJsonApiEvent")]))
    );
    assert_eq!(parse_json(b"{}"), Some(Json::Object(vec![])));
    assert_eq!(
        parse_json(b"{\"a\": [1, {\"b\": null}]}"),
        Some(Json::Object(vec![(
            "a".to_string(),
            Json::Array(vec![whole(1), Json::Object(vec![("b".to_string(), Json::Null)])])
        )]))
    );
}

#[test]
fn parse_json_gives_each_name_once() {
    let parsed = parse_json(b"{\"a\": 1, \"a\": 2}").unwrap();
    assert_eq!(parsed.get("a"), Some(&whole(2)));
    match parsed {
        Json::Object(members) => assert_eq!(members.len(), 1),
        other => panic!("not an object: {other:?}"),
    }
}

#[test]
fn parse_json_rejects_what_is_no_document() {
    assert_eq!(parse_json(b""), None);
    assert_eq!(parse_json(b"hello"), None);
    assert_eq!(parse_json(b"[1, 2"), None);
    assert_eq!(parse_json(b"[1] [2]"), None);
    assert_eq!(parse_json(b"{\"a\"}"), None);
    assert_eq!(parse_json(b"\"\xff\""), None);
    assert_eq!(parse_json(b"01"), None);
}

#[test]
fn get_finds_members_of_objects_only() {
    let object = parse_json(b"{\"uri\": \"/x\", \"data\": {\"k\": 1}}").unwrap();
    assert_eq!(object.get("uri"), Some(&text("/x")));
    assert_eq!(object.get("data"), Some(&Json::Object(vec![("k".to_string(), whole(1))])));
    assert_eq!(object.get("eventType"), None);
    assert_eq!(object.get(""), None);
    assert_eq!(text("uri").get("uri"), None);
    assert_eq!(Json::Array(vec![text("uri")]).get("uri"), None);
    assert_eq!(Json::Null.get("uri"), None);
}

#[test]
fn get_takes_the_first_member_of_a_name() {
    let object = Json::Object(vec![
        ("a".to_string(), whole(1)),
        ("b".to_string(), whole(2)),
        ("a".to_string(), whole(3)),
    ]);
    assert_eq!(object.get("a"), Some(&whole(1)));
    assert_eq!(object.get("b"), Some(&whole(2)));
}

#[test]
fn as_str_is_for_strings_only() {
    assert_eq!(text("abc").as_str(), Some("abc"));
    assert_eq!(text("").as_str(), Some(""));
    assert_eq!(whole(1).as_str(), None);
    assert_eq!(Json::Null.as_str(), None);
    assert_eq!(Json::Array(vec![]).as_str(), None);
}

#[test]
fn as_u64_is_for_whole_numbers_from_zero_only() {
    assert_eq!(whole(8).as_u64(), Some(8));
    assert_eq!(whole(u64::MAX).as_u64(), Some(u64::MAX));
    assert_eq!(Json::Number(JsonNumber::NegInt(-8)).as_u64(), None);
    assert_eq!(Json::Number(JsonNumber::Float(8.0f64.to_bits())).as_u64(), None);
    assert_eq!(text("8").as_u64(), None);
    assert_eq!(Json::Bool(true).as_u64(), None);
}

#[test]
fn a_copy_of_a_document_equals_it() {
    let document = parse_json(
        b"[8, \"OnJsonApiEvent\", {\"data\": {\"a\": [1, -2, 3.5, null, true], \"b\": {}}, \"uri\": \"/x\"}]",
    )
    .unwrap();
    assert_eq!(document.clone(), document);
    assert_eq!(Json::Null.clone(), Json::Null);
}
