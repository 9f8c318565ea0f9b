use cultnet::json::{decode_json, encode_json, parse_json, stable_stringify};
use cultnet::schema_discovery::canonical_schema_hash;
use cultnet::{JsonValue, WireValue, decode_messagepack, encode_messagepack, messagepack_array_len};

#[test]
fn plain_trees_have_the_shortest_messagepack_form() {
    let tree = WireValue::Sequence(vec![
        WireValue::Nil,
        WireValue::Flag(true),
        WireValue::Unsigned(127),
        WireValue::Unsigned(128),
        WireValue::Unsigned(65536),
        WireValue::Negative(-1),
        WireValue::Negative(-33),
        WireValue::Text("ab".into()),
        WireValue::Binary(vec![1, 2]),
        WireValue::Sequence(vec![]),
    ]);
    let bytes = encode_messagepack(&tree);
    assert_eq!(
        bytes,
        [
            0x9a, 0xc0, 0xc3, 0x7f, 0xcc, 0x80, 0xce, 0, 1, 0, 0, 0xff, 0xd0, 0xdf, 0xa2, b'a',
            b'b', 0xc4, 2, 1, 2, 0x90
        ]
    );
    assert_eq!(decode_messagepack(&bytes), Some(tree));
}

#[test]
fn what_no_record_holds_is_read_as_something_else() {
    // A map, a floating-point number, and a string that is not UTF-8.
    assert_eq!(decode_messagepack(&[0x80]), Some(WireValue::Other));
    assert_eq!(
        decode_messagepack(&[0xca, 0, 0, 0, 0]),
        Some(WireValue::Other)
    );
    assert_eq!(decode_messagepack(&[0xc1]), None);
    assert_eq!(decode_messagepack(&[]), None);
    assert_eq!(decode_messagepack(&[0x92, 0xc0]), None);
    // What follows the first tree is not looked at.
    assert_eq!(decode_messagepack(&[0xc0, 0xc1]), Some(WireValue::Nil));
}

#[test]
fn longer_forms_are_read_as_the_same_tree() {
    let tree = Some(WireValue::Sequence(vec![WireValue::Unsigned(1)]));
    assert_eq!(decode_messagepack(&[0x91, 1]), tree);
    assert_eq!(decode_messagepack(&[0xdc, 0, 1, 1]), tree);
    assert_eq!(decode_messagepack(&[0xdd, 0, 0, 0, 1, 0xcc, 1]), tree);
    assert_eq!(decode_messagepack(&[0x91, 0xd0, 1]), tree);
}

#[test]
fn array_headers_give_their_length() {
    assert_eq!(messagepack_array_len(&[0x9f]), Some(15));
    assert_eq!(messagepack_array_len(&[0xdc, 1, 2]), Some(258));
    assert_eq!(messagepack_array_len(&[0xdd, 0, 1, 0, 2]), Some(65538));
    assert_eq!(messagepack_array_len(&[0xdc, 1]), None);
    assert_eq!(messagepack_array_len(&[0xdd, 0, 1, 0]), None);
    assert_eq!(messagepack_array_len(&[0x80]), None);
    assert_eq!(messagepack_array_len(&[]), None);
}

fn nested(depth: usize) -> WireValue {
    let mut tree = WireValue::Nil;
    for _ in 0..depth {
        tree = WireValue::Sequence(vec![tree]);
    }
    tree
}

#[test]
fn trees_within_the_depth_limit_are_read_back() {
    assert_eq!(
        decode_messagepack(&encode_messagepack(&nested(1023))),
        Some(nested(1023))
    );
    assert_eq!(decode_messagepack(&encode_messagepack(&nested(1024))), None);
}

#[test]
fn json_is_read_written_and_kept_in_order() {
    let json = parse_json(r#" {"b":"x\n", "a":[1, -2, null, true]} "#).unwrap();
    assert_eq!(
        json,
        JsonValue::Object(vec![
            (
                "a".into(),
                JsonValue::Array(vec![
                    JsonValue::Unsigned(1),
                    JsonValue::Negative(-2),
                    JsonValue::Null,
                    JsonValue::Flag(true),
                ])
            ),
            ("b".into(), JsonValue::Text("x\n".into())),
        ])
    );
    assert_eq!(
        stable_stringify(&json),
        r#"{"a":[1,-2,null,true],"b":"x\n"}"#
    );
    assert_eq!(decode_json(&encode_json(&json)), Some(json.clone()));
    assert_eq!(
        encode_json(&json),
        [
            0x82, 0xa1, b'a', 0x94, 1, 0xfe, 0xc0, 0xc3, 0xa1, b'b', 0xa2, b'x', b'\n'
        ]
    );
    assert_eq!(json.get("b"), Some(&JsonValue::Text("x\n".into())));
    assert_eq!(json.get("c"), None);
    assert_eq!(json.copy(), json);
    assert_eq!(parse_json("{\"a\":}"), None);
    assert_eq!(parse_json(""), None);
}

#[test]
fn the_canonical_text_is_that_of_serde_json() {
    let texts = [
        r#""\u0000\u0001\b\t\n\u000b\f\r\u001f \"\\\/é\u007f😀""#,
        "1.5",
        "-0.0",
        "1e300",
        "18446744073709551615",
        "-9223372036854775808",
        "18446744073709551616",
        "[[],{},[{}]]",
        "true",
        "null",
    ];
    for text in texts {
        let json = parse_json(text).unwrap();
        let value: serde_json::Value = serde_json::from_str(text).unwrap();
        assert_eq!(stable_stringify(&json), value.to_string());
        assert!(json.is_proper());
        assert_eq!(decode_json(&encode_json(&json)), Some(json));
    }
}

#[test]
fn the_schema_hash_does_not_see_layout_or_order() {
    let expected = "6a168c75b3cdb3febd16cd0c8d302056986a455493484790019da8f90ddb312a";
    for text in [
        r#"{"a":[1,-2,null,true],"b":"x\n"}"#,
        "{ \"b\" : \"x\\u000a\",\n \"a\" : [ 1 , -2 , null , true ] }",
    ] {
        assert_eq!(canonical_schema_hash(text).unwrap(), expected);
    }
    assert_ne!(
        canonical_schema_hash(r#"{"a":[-2,1,null,true],"b":"x\n"}"#).unwrap(),
        expected
    );
    assert_eq!(
        canonical_schema_hash("{").err().unwrap().message(),
        "schema_json is not valid JSON"
    );
}
