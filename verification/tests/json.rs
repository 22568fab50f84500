use agent_tree::json::Json;
use agent_tree::json::Member;

fn member(name: &str, value: Json) -> Member {
    Member { name: name.to_string(), value }
}

#[test]
fn parse_reads_every_kind_of_value() {
    let tree = Json::parse("{\"a\":[null,true,-3,\"x\"],\"b\":{}}").expect("parse");
    assert_eq!(
        tree,
        Json::Object(vec![
            member(
                "a",
                Json::Array(vec![Json::Null, Json::Bool(true), Json::Int(-3), Json::string("x")])
            ),
            member("b", Json::Object(vec![])),
        ])
    );
}

#[test]
fn parse_keeps_numbers_that_are_no_small_integers() {
    let tree = Json::parse("[1.5,18446744073709551615,9223372036854775807]").expect("parse");
    let Json::Array(items) = tree else {
        panic!("expected an array");
    };
    assert!(matches!(items[0], Json::Number(_)));
    assert!(matches!(items[1], Json::Number(_)));
    assert_eq!(items[2], Json::Int(9223372036854775807));
    assert_eq!(
        Json::Array(items).render().expect("render"),
        "[1.5,18446744073709551615,9223372036854775807]"
    );
}

#[test]
fn parse_rejects_what_is_no_json() {
    assert!(Json::parse("").is_err());
    assert!(Json::parse("{").is_err());
    assert!(Json::parse("{\"a\":1} trailing").is_err());
}

#[test]
fn render_is_compact_and_sorts_members() {
    let tree = Json::Object(vec![
        member("z", Json::Int(1)),
        member("a", Json::Array(vec![Json::Null, Json::Bool(false)])),
    ]);
    assert_eq!(tree.render().expect("render"), "{\"a\":[null,false],\"z\":1}");
}

#[test]
fn render_escapes_line_feeds() {
    let text = Json::string("one\ntwo\r\n\u{2028}").render().expect("render");
    assert!(!text.contains('\n'));
    assert_eq!(Json::parse(&text).expect("parse"), Json::string("one\ntwo\r\n\u{2028}"));
}

#[test]
fn later_member_takes_precedence() {
    let tree = Json::Object(vec![member("a", Json::Int(1)), member("a", Json::Int(2))]);
    assert_eq!(tree.member("a"), Some(&Json::Int(2)));
    assert_eq!(tree.render().expect("render"), "{\"a\":2}");
    let parsed = Json::parse("{\"a\":1,\"a\":2}").expect("parse");
    assert_eq!(parsed.member("a"), Some(&Json::Int(2)));
}

#[test]
fn member_of_what_is_no_object_is_none() {
    assert_eq!(Json::Array(vec![]).member("a"), None);
    assert_eq!(Json::Object(vec![]).member("a"), None);
    assert_eq!(Json::string("a").member("a"), None);
}

#[test]
fn as_text_gives_the_text_of_a_string() {
    assert_eq!(Json::string("hi").as_text(), Some(&"hi".to_string()));
    assert_eq!(Json::Int(1).as_text(), None);
}

#[test]
fn clone_copies_the_whole_tree() {
    let tree = Json::parse("{\"a\":[1,2.5,{\"b\":\"c\"}],\"d\":null}").expect("parse");
    let copy = tree.clone();
    assert_eq!(copy, tree);
    assert_eq!(copy.render().expect("render"), "{\"a\":[1,2.5,{\"b\":\"c\"}],\"d\":null}");
}

#[test]
fn as_int_gives_the_integer_of_a_number() {
    assert_eq!(Json::Int(-7).as_int(), Some(-7));
    assert_eq!(Json::string("7").as_int(), None);
    assert_eq!(Json::Null.as_int(), None);
    let Json::Array(items) = Json::parse("[1.5,18446744073709551615]").expect("parse") else {
        panic!("expected an array");
    };
    assert_eq!(items[0].as_int(), None);
    assert_eq!(items[1].as_int(), None);
}
