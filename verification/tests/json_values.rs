use conformance::body::bodies_match;
use conformance::json::{read_document, read_value, same_value, Json, MAX_DEPTH};
use conformance::BodyComparison;

fn same(a: &str, b: &str) -> bool {
    same_value(&read_document(a.as_bytes()).unwrap(), &read_document(b.as_bytes()).unwrap())
}

#[test]
fn scalars_are_read() {
    assert!(matches!(read_document(b"null"), Some(Json::Null)));
    assert!(matches!(read_document(b" true "), Some(Json::Bool(true))));
    assert!(matches!(read_document(b"\n\tfalse\r\n"), Some(Json::Bool(false))));
    match read_document(b"-12.5e+3") {
        Some(Json::Number(n)) => assert_eq!(n, b"-12.5e+3".to_vec()),
        other => panic!("unexpected value {:?}", other),
    }
    match read_document(b"\"a \\\" b\"") {
        Some(Json::Text(t)) => assert_eq!(t, b"a \\\" b".to_vec()),
        other => panic!("unexpected value {:?}", other),
    }
    match read_document(b"\"\"") {
        Some(Json::Text(t)) => assert!(t.is_empty()),
        other => panic!("unexpected value {:?}", other),
    }
}

#[test]
fn arrays_and_objects_are_read() {
    match read_document(b"[1, [true, null], \"x\", {}]") {
        Some(Json::Array(items)) => {
            assert_eq!(items.len(), 4);
            assert!(matches!(&items[0], Json::Number(n) if n == b"1"));
            assert!(matches!(&items[1], Json::Array(inner) if inner.len() == 2));
            assert!(matches!(&items[2], Json::Text(t) if t == b"x"));
            assert!(matches!(&items[3], Json::Object(m) if m.is_empty()));
        }
        other => panic!("unexpected value {:?}", other),
    }
    match read_document(b"{\"a\": 1, \"b\" : [ ], \"a\": {\"c\":null}}") {
        Some(Json::Object(members)) => {
            assert_eq!(members.len(), 3);
            assert_eq!(members[0].key, b"a".to_vec());
            assert!(matches!(&members[0].value, Json::Number(n) if n == b"1"));
            assert_eq!(members[1].key, b"b".to_vec());
            assert!(matches!(&members[1].value, Json::Array(items) if items.is_empty()));
            assert_eq!(members[2].key, b"a".to_vec());
            assert!(matches!(&members[2].value, Json::Object(m) if m.len() == 1));
        }
        other => panic!("unexpected value {:?}", other),
    }
}

#[test]
fn what_is_not_json_is_not_read() {
    for text in [
        "", " ", "nul", "tru", "fals", "nulx x", "{not json", "[1, 2", "[1 2]", "[1,]", "[,1]",
        "{\"a\" 1}", "{\"a\":}", "{\"a\":1,}", "{a:1}", "\"open", "\"bad\\", "1 2", "[] []",
        "{} x", "+1", ".5", "]",
    ] {
        assert!(read_document(text.as_bytes()).is_none(), "{:?} was read", text);
    }
}

#[test]
fn read_value_gives_the_position_after_the_value() {
    let text = b"  [1, 2] tail";
    match read_value(text, 0, 8) {
        Some((Json::Array(items), end)) => {
            assert_eq!(items.len(), 2);
            assert_eq!(end, 8);
        }
        other => panic!("unexpected value {:?}", other),
    }
    match read_value(text, 3, 8) {
        Some((Json::Number(n), end)) => {
            assert_eq!(n, b"1".to_vec());
            assert_eq!(end, 4);
        }
        other => panic!("unexpected value {:?}", other),
    }
    assert!(read_value(text, 0, 0).is_none());
    assert!(read_value(text, text.len(), 8).is_none());
}

#[test]
fn nesting_is_read_down_to_the_limit() {
    let deep = |n: usize| format!("{}{}", "[".repeat(n), "]".repeat(n));
    assert_eq!(MAX_DEPTH, 64);
    assert!(read_document(deep(1).as_bytes()).is_some());
    assert!(read_document(deep(64).as_bytes()).is_some());
    assert!(read_document(deep(65).as_bytes()).is_none());
    let objects = |n: usize| format!("{}1{}", "{\"k\":".repeat(n), "}".repeat(n));
    assert!(read_document(objects(64).as_bytes()).is_some());
    assert!(read_document(objects(65).as_bytes()).is_none());
}

#[test]
fn member_order_and_layout_do_not_count() {
    assert!(same("{\"a\":1,\"b\":[1,2]}", "{ \"b\" : [ 1 , 2 ] , \"a\" : 1 }"));
    assert!(same("{\"a\":{\"x\":1,\"y\":2}}", "{\"a\":{\"y\":2,\"x\":1}}"));
    assert!(same("[{\"a\":1,\"b\":2}]", "[{\"b\":2,\"a\":1}]"));
    assert!(same("{}", " { } "));
    assert!(same("[]", "[ ]"));
    assert!(same("null", " null"));
}

#[test]
fn different_values_are_told_apart() {
    assert!(!same("[1,2]", "[2,1]"));
    assert!(!same("[1,2]", "[1,2,3]"));
    assert!(!same("{\"a\":1}", "{\"a\":2}"));
    assert!(!same("{\"a\":1}", "{\"b\":1}"));
    assert!(!same("{\"a\":1}", "{\"a\":1,\"b\":2}"));
    assert!(!same("{\"a\":1,\"b\":2}", "{\"a\":1}"));
    assert!(!same("{\"a\":1,\"a\":1}", "{\"a\":1,\"b\":2}"));
    assert!(!same("{\"a\":1,\"b\":2}", "{\"a\":1,\"a\":1}"));
    assert!(same("{\"a\":1,\"a\":2}", "{\"a\":2,\"a\":1}"));
    assert!(!same("1", "1.0"));
    assert!(!same("1", "\"1\""));
    assert!(!same("\"a\"", "\"\\u0061\""));
    assert!(!same("\"a b\"", "\"ab\""));
    assert!(!same("true", "false"));
    assert!(!same("null", "false"));
    assert!(!same("[]", "{}"));
    assert!(!same("{}", "[]"));
    assert!(!same("[]", "null"));
}

#[test]
fn bodies_match_by_value_or_else_by_bytes() {
    let v = BodyComparison::JsonValue;
    assert!(bodies_match(b"{\"a\":1,\"b\":2}", b"{\n  \"b\": 2,\n  \"a\": 1\n}", v));
    assert!(!bodies_match(b"{\"a\":1,\"b\":2}", b"{\"a\":1,\"b\":3}", v));
    assert!(bodies_match(b"plain text", b"plain text", v));
    assert!(!bodies_match(b"plain text", b"plain  text", v));
    assert!(!bodies_match(b"{\"a\":1}", b"{not json", v));
    assert!(!bodies_match(b"{not json", b"{\"a\":1}", v));
    assert!(bodies_match(b"{not json", b"{not json", v));
    assert!(bodies_match(b"", b"", v));
    assert!(!bodies_match(b"", b" ", v));
    assert!(!bodies_match(b"{\"a\":1,\"b\":2}", b"{\"b\":2,\"a\":1}", BodyComparison::JsonLayout));
    assert!(!bodies_match(b"{\"a\":1,\"b\":2}", b"{\"b\":2,\"a\":1}", BodyComparison::Exact));
}
