use gptpipe::json::{parse_json, Json};

#[test]
fn scalars_are_read() {
    assert_eq!(parse_json(b"null"), Some(Json::Null));
    assert_eq!(parse_json(b"true"), Some(Json::Bool(true)));
    assert_eq!(parse_json(b"false"), Some(Json::Bool(false)));
    assert_eq!(parse_json(b"\"hi\""), Some(Json::Text(String::from("hi"))));
    assert_eq!(parse_json(b" 17 "), Some(Json::Number(Some(17))));
}

#[test]
fn only_non_negative_integers_keep_their_value() {
    assert_eq!(parse_json(b"0"), Some(Json::Number(Some(0))));
    assert_eq!(
        parse_json(b"18446744073709551615"),
        Some(Json::Number(Some(u64::MAX)))
    );
    assert_eq!(parse_json(b"18446744073709551616"), Some(Json::Number(None)));
    assert_eq!(parse_json(b"-1"), Some(Json::Number(None)));
    assert_eq!(parse_json(b"1.0"), Some(Json::Number(None)));
    assert_eq!(parse_json(b"1e3"), Some(Json::Number(None)));
    assert_eq!(parse_json(b"-0"), Some(Json::Number(None)));
}

#[test]
fn strings_are_unescaped() {
    assert_eq!(
        parse_json(r#""a\n\"b\" é \ud83d\ude00 \u00e9""#.as_bytes()),
        Some(Json::Text(String::from("a\n\"b\" \u{e9} \u{1F600} \u{e9}")))
    );
}

#[test]
fn arrays_keep_their_order() {
    assert_eq!(
        parse_json(b"[3, \"x\", null, [true]]"),
        Some(Json::Array(vec![
            Json::Number(Some(3)),
            Json::Text(String::from("x")),
            Json::Null,
            Json::Array(vec![Json::Bool(true)]),
        ]))
    );
    assert_eq!(parse_json(b"[]"), Some(Json::Array(vec![])));
}

#[test]
fn objects_hold_their_members() {
    let json = parse_json(br#"{"b": 1, "a": {"c": "d"}}"#).unwrap();
    assert_eq!(json.member("b"), Some(&Json::Number(Some(1))));
    assert_eq!(
        json.member("a").unwrap().member("c"),
        Some(&Json::Text(String::from("d")))
    );
    assert_eq!(json.member("c"), None);
    assert_eq!(parse_json(b"{}"), Some(Json::Object(vec![])));
}

#[test]
fn repeated_name_counts_once() {
    let json = parse_json(br#"{"a": 1, "a": 2}"#).unwrap();
    assert_eq!(json.member("a"), Some(&Json::Number(Some(2))));
    match json {
        Json::Object(members) => assert_eq!(members.len(), 1),
        _ => panic!("not an object"),
    }
}

#[test]
fn what_is_no_json_is_refused() {
    assert_eq!(parse_json(b""), None);
    assert_eq!(parse_json(b"   "), None);
    assert_eq!(parse_json(b"{"), None);
    assert_eq!(parse_json(b"{\"a\": }"), None);
    assert_eq!(parse_json(b"[1, 2,]"), None);
    assert_eq!(parse_json(b"nul"), None);
    assert_eq!(parse_json(b"'single'"), None);
    assert_eq!(parse_json(b"{} trailing"), None);
    assert_eq!(parse_json(b"\"\xff\""), None);
    assert_eq!(parse_json(b"<html>502 Bad Gateway</html>"), None);
}

#[test]
fn member_of_the_last_occurrence_counts() {
    let json = Json::Object(vec![
        (String::from("k"), Json::Number(Some(1))),
        (String::from("other"), Json::Null),
        (String::from("k"), Json::Number(Some(2))),
    ]);
    assert_eq!(json.member("k"), Some(&Json::Number(Some(2))));
    assert_eq!(json.member("other"), Some(&Json::Null));
    assert_eq!(json.member("missing"), None);
}

#[test]
fn accessors_answer_for_their_own_kind_only() {
    let text = Json::Text(String::from("t"));
    let number = Json::Number(Some(4));
    let array = Json::Array(vec![Json::Null]);
    let object = Json::Object(vec![(String::from("k"), Json::Null)]);
    assert_eq!(text.text(), Some(&String::from("t")));
    assert_eq!(text.number(), None);
    assert_eq!(text.items(), None);
    assert_eq!(text.member("k"), None);
    assert_eq!(number.number(), Some(4));
    assert_eq!(number.text(), None);
    assert_eq!(Json::Number(None).number(), None);
    assert_eq!(array.items(), Some(&vec![Json::Null]));
    assert_eq!(array.member("k"), None);
    assert_eq!(object.member("k"), Some(&Json::Null));
    assert_eq!(object.items(), None);
    assert_eq!(Json::Null.text(), None);
    assert_eq!(Json::Bool(true).number(), None);
}
