use rustybot::json::{list_member, text_member, unsigned_member};
use rustybot::text::push_decimal;

fn json(text: &str) -> serde_json::Value {
    serde_json::from_str(text).unwrap()
}

#[test]
fn text_member_reads_strings_only() {
    let value = json(r#"{"a":"x","b":5,"c":null,"d":["x"],"e":""}"#);
    assert_eq!(text_member(&value, "a"), Some("x"));
    assert_eq!(text_member(&value, "e"), Some(""));
    assert_eq!(text_member(&value, "b"), None);
    assert_eq!(text_member(&value, "c"), None);
    assert_eq!(text_member(&value, "d"), None);
    assert_eq!(text_member(&value, "missing"), None);
    assert_eq!(text_member(&value, "A"), None);
    assert_eq!(text_member(&json(r#""a""#), "a"), None);
    assert_eq!(text_member(&json(r#"[{"a":"x"}]"#), "a"), None);
}

#[test]
fn unsigned_member_reads_integers_up_to_the_bound() {
    let value = json(r#"{"a":10,"b":-10,"c":10.0,"d":"10","e":0,"f":18446744073709551615}"#);
    assert_eq!(unsigned_member(&value, "a", 10), Some(10));
    assert_eq!(unsigned_member(&value, "a", 9), None);
    assert_eq!(unsigned_member(&value, "a", u64::MAX), Some(10));
    assert_eq!(unsigned_member(&value, "b", 100), None);
    assert_eq!(unsigned_member(&value, "c", 100), None);
    assert_eq!(unsigned_member(&value, "d", 100), None);
    assert_eq!(unsigned_member(&value, "e", 0), Some(0));
    assert_eq!(unsigned_member(&value, "f", u64::MAX), Some(u64::MAX));
    assert_eq!(unsigned_member(&value, "f", u64::MAX - 1), None);
    assert_eq!(unsigned_member(&value, "g", 100), None);
    assert_eq!(unsigned_member(&json("10"), "a", 100), None);
}

#[test]
fn list_member_reads_arrays_only() {
    let value = json(r#"{"a":[1,"two",[3]],"b":{},"c":"[]","d":[]}"#);
    let items = list_member(&value, "a").unwrap();
    assert_eq!(items.len(), 3);
    assert_eq!(items[0], json("1"));
    assert_eq!(items[1], json(r#""two""#));
    assert_eq!(items[2], json("[3]"));
    assert!(list_member(&value, "d").unwrap().is_empty());
    assert_eq!(list_member(&value, "b"), None);
    assert_eq!(list_member(&value, "c"), None);
    assert_eq!(list_member(&value, "e"), None);
    assert_eq!(list_member(&json("[[1]]"), "0"), None);
}

#[test]
fn decimal_notation() {
    for (n, expected) in [
        (0u16, "0"),
        (1, "1"),
        (9, "9"),
        (10, "10"),
        (42, "42"),
        (100, "100"),
        (109, "109"),
        (9999, "9999"),
        (10000, "10000"),
        (65535, "65535"),
    ] {
        let mut text = String::from("n=");
        push_decimal(&mut text, n);
        assert_eq!(text, format!("n={}", expected));
    }
}
