use nasiko_agents::json::make::{
    list, no_items, no_members_yet, object, object1, object2, object3, string, with_item,
    with_member,
};
use nasiko_agents::json::notation::compact;
use nasiko_agents::json::serde::{of_value, parse};
use nasiko_agents::json::{copies, texts_in, texts_with, Json};

const DOCUMENTS: [&str; 16] = [
    "null",
    "true",
    "false",
    "0",
    "18446744073709551615",
    "-3",
    "1.5",
    "1e300",
    "0.1",
    "\"\"",
    "\"a\\\"b\\\\c\\n\\t\\u0001\\u2028 ß 😀\"",
    "[]",
    "{}",
    "[1,[2,{\"b\":null}],\"x\"]",
    "{\"b\":1,\"a\":{\"z\":[true,false],\"y\":\"\\u0000\"}}",
    " { \"k\" : [ 1 , 2 ] } ",
];

#[test]
fn notation_is_that_of_serde_json() {
    for d in DOCUMENTS {
        let value: serde_json::Value = serde_json::from_str(d).unwrap();
        let parsed = parse(d).unwrap();
        assert_eq!(compact(&parsed), value.to_string());
        assert_eq!(compact(&of_value(value.clone())), value.to_string());
        assert_eq!(compact(&parsed.copy()), value.to_string());
    }
}

#[test]
fn notation_is_read_back() {
    for d in DOCUMENTS {
        let once = compact(&parse(d).unwrap());
        assert_eq!(compact(&parse(&once).unwrap()), once);
    }
}

#[test]
fn errors_are_those_of_serde_json() {
    for d in ["", "{", "nul", "[1,]", "{\"a\"}", "\"open", "1 2", "'x'"] {
        let message = serde_json::from_str::<serde_json::Value>(d).unwrap_err().to_string();
        assert_eq!(parse(d).unwrap_err(), message);
    }
}

#[test]
fn values_are_looked_up() {
    let j = parse("{\"s\":\"x\",\"n\":7,\"neg\":-1,\"f\":1.5,\"t\":true,\"l\":[1,\"a\"],\"o\":{\"k\":null}}")
        .unwrap();
    assert_eq!(j.at("s").as_text(), Some("x"));
    assert_eq!(j.at("n").as_natural(), Some(7));
    assert_eq!(j.at("neg").as_natural(), None);
    assert_eq!(j.at("f").as_natural(), None);
    assert_eq!(j.at("t").as_truth(), Some(true));
    assert_eq!(j.at("l").as_items().unwrap().len(), 2);
    assert_eq!(j.at("o").as_members().unwrap().len(), 1);
    assert!(j.get("missing").is_none());
    assert!(j.at("o").get("k").is_some());
    assert_eq!(compact(j.at("missing").at("deeper")), "null");
    assert_eq!(j.at("missing").text_or("other"), "other");
    assert_eq!(j.at("missing").natural_or(3), 3);
    assert_eq!(compact(j.at("l").first()), "1");
    assert_eq!(compact(j.at("s").first()), "null");
    assert_eq!(j.at("n").as_text(), None);
    assert_eq!(j.as_text(), None);
    assert!(j.as_items().is_none());
    assert!(Json::Null.as_members().is_none());
}

#[test]
fn repeated_members_keep_the_last() {
    let d = "{\"a\":1,\"a\":2}";
    let value: serde_json::Value = serde_json::from_str(d).unwrap();
    assert_eq!(compact(&parse(d).unwrap()), value.to_string());
}

#[test]
fn texts_are_collected() {
    let j = parse("[\"a\",1,\"b\",null]").unwrap();
    assert_eq!(texts_in(j.as_items().unwrap()), vec!["a", "b"]);
    let j = parse("[{\"name\":\"x\"},{\"name\":1},{},{\"name\":\"y\"}]").unwrap();
    assert_eq!(texts_with(j.as_items().unwrap(), "name"), vec!["x", "y"]);
    assert_eq!(copies(j.as_items().unwrap()).len(), 4);
}

#[test]
fn values_are_built() {
    let items = with_item(with_item(no_items(), string("a")), Json::Natural(1));
    assert_eq!(compact(&list(items)), "[\"a\",1]");
    let members = with_member(no_members_yet(), "z", Json::Bool(false));
    let members = with_member(members, "a", Json::Decimal("1.5".to_string()));
    assert_eq!(compact(&object(members)), "{\"z\":false,\"a\":1.5}");
    assert_eq!(compact(&object1("a", Json::Null)), "{\"a\":null}");
    assert_eq!(
        compact(&object2("a", string("1"), "b", string("2"))),
        "{\"a\":\"1\",\"b\":\"2\"}"
    );
    assert_eq!(
        compact(&object3("a", Json::Natural(1), "b", Json::Natural(2), "c", Json::Natural(3))),
        "{\"a\":1,\"b\":2,\"c\":3}"
    );
}
