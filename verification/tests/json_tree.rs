use binance_md::json::{parse_json, Json};

#[test]
fn scalars_parse() {
    assert!(matches!(parse_json("null"), Some(Json::Null)));
    assert!(matches!(parse_json("true"), Some(Json::Bool(true))));
    assert!(matches!(parse_json("false"), Some(Json::Bool(false))));
    match parse_json("42").unwrap() {
        Json::Num(tok) => assert_eq!(tok, "42"),
        other => panic!("expected number, got {other:?}"),
    }
    match parse_json("\"hello\"").unwrap() {
        Json::Str(s) => assert_eq!(s, "hello"),
        other => panic!("expected string, got {other:?}"),
    }
}

#[test]
fn numbers_keep_their_wire_token() {
    for tok in ["-1", "0.5", "1e9", "-2.5E-2", "1499040000000"] {
        match parse_json(tok).unwrap() {
            Json::Num(t) => assert_eq!(t, tok),
            other => panic!("expected number, got {other:?}"),
        }
    }
}

#[test]
fn whitespace_is_allowed_around_tokens() {
    let j = parse_json(" \t\r\n{ \"a\" : [ 1 , 2 ] , \"b\" : { } } \n").unwrap();
    match j {
        Json::Obj(members) => {
            assert_eq!(members.len(), 2);
            assert_eq!(members[0].0, "a");
            match &members[0].1 {
                Json::Arr(items) => assert_eq!(items.len(), 2),
                other => panic!("expected array, got {other:?}"),
            }
            assert!(matches!(&members[1].1, Json::Obj(m) if m.is_empty()));
        },
        other => panic!("expected object, got {other:?}"),
    }
}

#[test]
fn nested_structures_parse() {
    let j = parse_json("[[\"9000.00\",\"1.0\"],[\"8999.00\",\"2.0\"]]").unwrap();
    match j {
        Json::Arr(rows) => {
            assert_eq!(rows.len(), 2);
            match &rows[1] {
                Json::Arr(cols) => {
                    assert_eq!(cols.len(), 2);
                    assert!(matches!(&cols[0], Json::Str(s) if s == "8999.00"));
                },
                other => panic!("expected inner array, got {other:?}"),
            }
        },
        other => panic!("expected array, got {other:?}"),
    }
}

#[test]
fn members_keep_wire_order() {
    let j = parse_json("{\"z\":1,\"a\":2,\"m\":3}").unwrap();
    match j {
        Json::Obj(members) => {
            let keys: Vec<&str> = members.iter().map(|(k, _)| k.as_str()).collect();
            assert_eq!(keys, vec!["z", "a", "m"]);
        },
        other => panic!("expected object, got {other:?}"),
    }
}

#[test]
fn malformed_payloads_fail() {
    for bad in [
        "", " ", "{", "}", "[", "]", "{]", "[}", "{\"a\"}", "{\"a\":}", "{\"a\":1,}",
        "[1,]", "[1 2]", "{\"a\" 1}", "tru", "nul", "falsey x", "\"unterminated",
        "01x", "--1", "1ee3", "{\"a\":1}x", "[1],", "+5",
    ] {
        assert!(parse_json(bad).is_none(), "{bad:?} must not parse");
    }
}

#[test]
fn single_character_escapes_decode() {
    match parse_json("\"a\\nb\"").unwrap() {
        Json::Str(s) => assert_eq!(s, "a\nb"),
        other => panic!("expected string, got {other:?}"),
    }
    match parse_json("\"\\\"\\\\\\/\\b\\f\\n\\r\\t\"").unwrap() {
        Json::Str(s) => assert_eq!(s, "\"\\/\u{0008}\u{000C}\n\r\t"),
        other => panic!("expected string, got {other:?}"),
    }
}

#[test]
fn escaped_quote_inside_a_key_decodes() {
    match parse_json("{\"a\\\"b\":1}").unwrap() {
        Json::Obj(members) => {
            assert_eq!(members.len(), 1);
            assert_eq!(members[0].0, "a\"b");
        },
        other => panic!("expected object, got {other:?}"),
    }
}

#[test]
fn hex_escapes_decode() {
    match parse_json("\"\\u0041\"").unwrap() {
        Json::Str(s) => assert_eq!(s, "A"),
        other => panic!("expected string, got {other:?}"),
    }
    match parse_json("\"\\u00e9t\\u00e9\"").unwrap() {
        Json::Str(s) => assert_eq!(s, "\u{00e9}t\u{00e9}"),
        other => panic!("expected string, got {other:?}"),
    }
}

#[test]
fn surrogate_pairs_combine() {
    match parse_json("\"\\uD83D\\uDE00\"").unwrap() {
        Json::Str(s) => assert_eq!(s, "\u{1F600}"),
        other => panic!("expected string, got {other:?}"),
    }
}

#[test]
fn bad_hex_escapes_fail() {
    assert!(parse_json("\"\\uD800\"").is_none());
    assert!(parse_json("\"\\uDC00x\"").is_none());
    assert!(parse_json("\"\\uD83D\\u0041\"").is_none());
    assert!(parse_json("\"\\u00g1\"").is_none());
    assert!(parse_json("\"\\u123\"").is_none());
    assert!(parse_json("\"\\x41\"").is_none());
    assert!(parse_json("\"dangling\\\"").is_none());
}

#[test]
fn numbers_are_strict_json() {
    for bad in ["01", "00", "-01", ".5", "5.", "+5", "[.5]", "[5.]", "[01]", "-"] {
        assert!(parse_json(bad).is_none(), "{bad:?} must not parse");
    }
    for good in ["0", "-0", "0.5", "0e0", "10", "1.25e-3", "9E+2"] {
        assert!(parse_json(good).is_some(), "{good:?} must parse");
    }
}

#[test]
fn trailing_content_fails() {
    assert!(parse_json("{\"a\":1} {\"b\":2}").is_none());
    assert!(parse_json("1 2").is_none());
}

#[test]
fn raw_control_characters_fail_but_their_escapes_decode() {
    assert!(parse_json("\"a\tb\"").is_none());
    assert!(parse_json("\"a\nb\"").is_none());
    match parse_json("\"a\\tb\"").unwrap() {
        Json::Str(s) => assert_eq!(s, "a\tb"),
        other => panic!("expected string, got {other:?}"),
    }
}
