use keycloak_jwt::json::parse;
use keycloak_jwt::json::Json;

#[test]
fn parse_reads_every_kind_of_value() {
    assert!(matches!(parse(b"null"), Ok(Json::Null)));
    assert!(matches!(parse(b"true"), Ok(Json::Bool(true))));
    assert!(matches!(parse(b"false"), Ok(Json::Bool(false))));
    assert!(matches!(parse(b"\"a\\nb\""), Ok(Json::Text(text)) if text == "a\nb"));
    match parse(b" [1, \"two\", [], {}] ").unwrap() {
        Json::Array(items) => {
            assert_eq!(items.len(), 4);
            assert_eq!(items[0].as_integer(), Some(1));
            assert_eq!(items[1].as_text(), Some("two".to_string()));
            assert!(matches!(&items[2], Json::Array(inner) if inner.is_empty()));
            assert!(matches!(&items[3], Json::Object(inner) if inner.is_empty()));
        }
        other => panic!("{:?}", other),
    }
}

#[test]
fn parse_reports_what_is_not_json() {
    for text in ["", "nul", "{", "[1,]", "{\"a\":1,}", "1 2", "'a'"] {
        assert!(parse(text.as_bytes()).is_err(), "{text}");
    }
    assert!(parse(&[0xff, 0xfe]).is_err());
}

#[test]
fn numbers_keep_their_integer_where_it_fits() {
    for (text, integer) in [
        ("0", Some(0)),
        ("-1", Some(-1)),
        ("9223372036854775807", Some(i64::MAX)),
        ("-9223372036854775808", Some(i64::MIN)),
        ("9223372036854775808", None),
        ("18446744073709551615", None),
        ("1.5", None),
        ("1e3", None),
        ("1.0", None),
    ] {
        match parse(text.as_bytes()).unwrap() {
            Json::Number(number) => assert_eq!(number.integer, integer, "{text}"),
            other => panic!("{:?}", other),
        }
    }
    match parse(b"18446744073709551615").unwrap() {
        Json::Number(number) => assert_eq!(number.text, "18446744073709551615"),
        other => panic!("{:?}", other),
    }
    match parse(b"1.5").unwrap() {
        Json::Number(number) => assert_eq!(number.text, "1.5"),
        other => panic!("{:?}", other),
    }
}

#[test]
fn members_stand_in_the_order_of_their_names() {
    match parse(b"{\"b\":1,\"a\":2,\"c\":3,\"a\":4}").unwrap() {
        Json::Object(members) => {
            let names: Vec<&str> = members.iter().map(|(name, _)| name.as_str()).collect();
            assert_eq!(names, vec!["a", "b", "c"]);
            assert_eq!(members[0].1.as_integer(), Some(4));
        }
        other => panic!("{:?}", other),
    }
}

#[test]
fn get_finds_the_first_member_of_a_name() {
    let json = Json::Object(vec![
        ("a".to_string(), Json::Bool(true)),
        ("b".to_string(), Json::Null),
        ("a".to_string(), Json::Bool(false)),
    ]);
    assert!(matches!(json.get("a"), Some(Json::Bool(true))));
    assert!(matches!(json.get("b"), Some(Json::Null)));
    assert!(json.get("c").is_none());
    assert!(json.get("").is_none());
    assert!(Json::Null.get("a").is_none());
    assert!(Json::Array(vec![Json::Null]).get("0").is_none());
}

#[test]
fn typed_reads_ask_for_the_right_kind() {
    let json = parse(
        b"{\"n\":7,\"f\":7.5,\"t\":\"text\",\"b\":true,\"z\":null,\"l\":[\"x\",\"y\"],\"m\":[\"x\",1],\"e\":[]}",
    )
    .unwrap();
    assert_eq!(json.integer_at("n"), Some(7));
    assert_eq!(json.integer_at("f"), None);
    assert_eq!(json.integer_at("t"), None);
    assert_eq!(json.integer_at("missing"), None);
    assert_eq!(json.optional_integer_at("n"), Some(Some(7)));
    assert_eq!(json.optional_integer_at("z"), Some(None));
    assert_eq!(json.optional_integer_at("missing"), Some(None));
    assert_eq!(json.optional_integer_at("t"), None);
    assert_eq!(json.optional_integer_at("f"), None);
    assert_eq!(json.text_at("t"), Some("text".to_string()));
    assert_eq!(json.text_at("n"), None);
    assert_eq!(json.text_at("z"), None);
    assert_eq!(json.text_at("missing"), None);
    assert_eq!(json.text_or_empty_at("t"), Some("text".to_string()));
    assert_eq!(json.text_or_empty_at("missing"), Some(String::new()));
    assert_eq!(json.text_or_empty_at("z"), None);
    assert_eq!(json.text_or_empty_at("n"), None);
    assert_eq!(json.flag_or_false_at("b"), Some(true));
    assert_eq!(json.flag_or_false_at("missing"), Some(false));
    assert_eq!(json.flag_or_false_at("z"), None);
    assert_eq!(json.flag_or_false_at("n"), None);
    assert_eq!(json.texts_at("l"), Some(vec!["x".to_string(), "y".to_string()]));
    assert_eq!(json.texts_at("e"), Some(Vec::new()));
    assert_eq!(json.texts_at("m"), None);
    assert_eq!(json.texts_at("t"), None);
    assert_eq!(json.texts_at("missing"), None);
    assert_eq!(Json::Null.integer_at("n"), None);
    assert_eq!(Json::Null.text_or_empty_at("n"), Some(String::new()));
}

#[test]
fn values_say_what_they_are() {
    assert_eq!(Json::Bool(true).as_flag(), Some(true));
    assert_eq!(Json::Null.as_flag(), None);
    assert_eq!(Json::Text("a".to_string()).as_text(), Some("a".to_string()));
    assert_eq!(Json::Null.as_text(), None);
    assert_eq!(Json::Text("1".to_string()).as_integer(), None);
    assert_eq!(Json::Array(vec![]).as_texts(), Some(vec![]));
    assert_eq!(Json::Array(vec![Json::Text("a".to_string()), Json::Null]).as_texts(), None);
    assert_eq!(Json::Text("a".to_string()).as_texts(), None);
}

#[test]
fn duplicate_copies_the_whole_value() {
    let text = b"{\"a\":[1,2.5,{\"b\":[null,true,\"c\"]}],\"d\":{}}";
    let json = parse(text).unwrap();
    let copy = json.duplicate();
    assert_eq!(format!("{:?}", copy), format!("{:?}", json));
    assert!(matches!(copy.get("a"), Some(Json::Array(items)) if items.len() == 3));
}

#[test]
fn holds_text_asks_for_the_text_or_an_array_with_it() {
    assert!(Json::Text("account".to_string()).holds_text("account"));
    assert!(!Json::Text("accounts".to_string()).holds_text("account"));
    assert!(!Json::Text(String::new()).holds_text("account"));
    assert!(parse(b"[\"a\",\"account\"]").unwrap().holds_text("account"));
    assert!(parse(b"[1,null,\"account\"]").unwrap().holds_text("account"));
    assert!(!parse(b"[\"a\",\"b\"]").unwrap().holds_text("account"));
    assert!(!parse(b"[[\"account\"]]").unwrap().holds_text("account"));
    assert!(!parse(b"[]").unwrap().holds_text("account"));
    assert!(!parse(b"{\"account\":\"account\"}").unwrap().holds_text("account"));
    assert!(!Json::Null.holds_text("account"));
    assert!(!parse(b"7").unwrap().holds_text("7"));
}
