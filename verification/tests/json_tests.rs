use betweenworlds_api::json::{parse_json, take_field, Json};

#[test]
fn parsing_rebuilds_the_document_as_plain_data() {
    let text = "{\"list\": [1, -2, 2.5, \"x\", true, null, {\"b\": 3}]}";
    let j = parse_json(text).unwrap();
    let expected = Json::Obj(vec![(
        "list".to_owned(),
        Json::Arr(vec![
            Json::UInt(1),
            Json::Int(-2),
            Json::NumText("2.5".to_owned()),
            Json::Str("x".to_owned()),
            Json::Bool(true),
            Json::Null,
            Json::Obj(vec![("b".to_owned(), Json::UInt(3))]),
        ]),
    )]);
    assert_eq!(j, expected);
}

#[test]
fn huge_unsigned_numbers_keep_their_value() {
    let j = parse_json("[18446744073709551615, -9223372036854775808]").unwrap();
    assert_eq!(
        j,
        Json::Arr(vec![Json::UInt(u64::MAX), Json::Int(i64::MIN)])
    );
}

#[test]
fn invalid_json_reports_the_parser_diagnostic() {
    let r = parse_json("{\"open\": ");
    assert!(!r.unwrap_err().is_empty());
}

#[test]
fn take_field_removes_only_the_asked_binding() {
    let fields = vec![
        ("a".to_owned(), Json::UInt(1)),
        ("b".to_owned(), Json::UInt(2)),
        ("c".to_owned(), Json::UInt(3)),
    ];
    let (v, rest) = take_field(fields, "b");
    assert_eq!(v, Some(Json::UInt(2)));
    assert_eq!(
        rest,
        vec![("a".to_owned(), Json::UInt(1)), ("c".to_owned(), Json::UInt(3))]
    );
    let (v, rest) = take_field(rest, "b");
    assert_eq!(v, None);
    assert_eq!(rest.len(), 2);
}
