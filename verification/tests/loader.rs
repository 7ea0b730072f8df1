use estate_search::loader::{load_data, InvalidJson};
use serde_json::{Number, Value};

fn lines(texts: &[&str]) -> Vec<String> {
    texts.iter().map(|text| text.to_string()).collect()
}

fn object(members: &[(&str, Value)]) -> Value {
    let mut map = serde_json::Map::new();
    for (key, value) in members {
        map.insert(key.to_string(), value.clone());
    }
    Value::Object(map)
}

fn text(chars: &str) -> Value {
    Value::String(chars.to_string())
}

#[test]
fn test_load_data() {
    let input = lines(&[r#"{"description": "Test document", "key": "value"}"#]);

    let data = load_data(&input).expect("Unable to parse JSON");
    let (documents, payloads) = (data.documents, data.payloads);
    assert_eq!(documents.len(), 1);
    assert_eq!(documents[0], "Test document");
    assert_eq!(payloads.len(), 1);
    assert_eq!(
        payloads[0],
        object(&[("description", text("Test document")), ("key", text("value"))])
    );
    assert!(data.skipped.is_empty());
}

#[test]
fn empty_input_loads_nothing() {
    let data = load_data(&Vec::new()).unwrap();
    assert!(data.documents.is_empty());
    assert!(data.payloads.is_empty());
    assert!(data.skipped.is_empty());
}

#[test]
fn records_keep_input_order_and_their_own_payload() {
    let input = lines(&[
        r#"{"description": "first", "rooms": 3}"#,
        r#"{"description": "second", "rooms": 5}"#,
        r#"{"description": "third", "rooms": 1}"#,
    ]);
    let data = load_data(&input).unwrap();
    assert_eq!(data.documents, vec!["first", "second", "third"]);
    assert_eq!(data.payloads.len(), data.documents.len());
    for (document, payload) in data.documents.iter().zip(data.payloads.iter()) {
        assert_eq!(payload["description"], text(document));
    }
    assert_eq!(data.payloads[0]["rooms"], Value::Number(Number::from(3)));
    assert_eq!(data.payloads[1]["rooms"], Value::Number(Number::from(5)));
    assert_eq!(data.payloads[2]["rooms"], Value::Number(Number::from(1)));
}

#[test]
fn payload_is_the_whole_document() {
    let input = lines(&[
        r#"{"link": "http://x", "tags": ["a", "b"], "description": "nested", "geo": {"lat": 1, "ok": true, "none": null}}"#,
    ]);
    let data = load_data(&input).unwrap();
    let expected = object(&[
        ("description", text("nested")),
        ("link", text("http://x")),
        ("tags", Value::Array(vec![text("a"), text("b")])),
        (
            "geo",
            object(&[
                ("lat", Value::Number(Number::from(1))),
                ("ok", Value::Bool(true)),
                ("none", Value::Null),
            ]),
        ),
    ]);
    assert_eq!(data.payloads, vec![expected]);
    assert_eq!(data.documents, vec!["nested"]);
}

#[test]
fn record_without_description_is_skipped_once() {
    let input = lines(&[
        r#"{"description": "detached house", "link": "http://a"}"#,
        r#"{"link": "http://b"}"#,
        r#"{"description": "flat near the park", "link": "http://c"}"#,
    ]);
    let data = load_data(&input).unwrap();
    assert_eq!(data.documents, vec!["detached house", "flat near the park"]);
    assert_eq!(data.payloads.len(), 2);
    assert_eq!(data.payloads[0]["link"], text("http://a"));
    assert_eq!(data.payloads[1]["link"], text("http://c"));
    assert_eq!(data.skipped, vec![1]);
}

#[test]
fn description_that_is_no_string_is_skipped() {
    let input = lines(&[
        r#"{"description": 5}"#,
        r#"{"description": null}"#,
        r#"{"description": ["a"]}"#,
        r#"{"description": {"text": "a"}}"#,
        r#"{"description": ""}"#,
    ]);
    let data = load_data(&input).unwrap();
    assert_eq!(data.documents, vec![""]);
    assert_eq!(data.payloads, vec![object(&[("description", text(""))])]);
    assert_eq!(data.skipped, vec![0, 1, 2, 3]);
}

#[test]
fn valid_json_that_is_no_object_is_skipped() {
    let input = lines(&["[1, 2]", "\"description\"", "42", "null", "true"]);
    let data = load_data(&input).unwrap();
    assert!(data.documents.is_empty());
    assert!(data.payloads.is_empty());
    assert_eq!(data.skipped, vec![0, 1, 2, 3, 4]);
}

#[test]
fn every_line_is_kept_or_skipped() {
    let input = lines(&[
        r#"{"description": "a"}"#,
        r#"{}"#,
        r#"{"description": "b"}"#,
        r#"{"title": "c"}"#,
    ]);
    let data = load_data(&input).unwrap();
    assert_eq!(data.documents.len() + data.skipped.len(), input.len());
    assert_eq!(data.skipped, vec![1, 3]);
}

#[test]
fn malformed_json_fails_the_load() {
    let input = lines(&[
        r#"{"description": "fine"}"#,
        r#"{"description": "broken""#,
        r#"{"description": "never read"}"#,
    ]);
    assert_eq!(load_data(&input).err(), Some(InvalidJson { line: 1, skipped: vec![] }));
}

#[test]
fn malformed_json_fails_on_any_line() {
    let good = r#"{"description": "fine"}"#;
    let bad = "{not json}";
    for at in 0..3 {
        let mut input = lines(&[good, good, good]);
        input[at] = bad.to_string();
        assert_eq!(load_data(&input).err(), Some(InvalidJson { line: at, skipped: vec![] }));
    }
}

#[test]
fn the_first_malformed_line_is_reported() {
    let input = lines(&[r#"{"link": "http://b"}"#, "{", "}", r#"{"description": "x"}"#]);
    assert_eq!(load_data(&input).err(), Some(InvalidJson { line: 1, skipped: vec![0] }));
}

#[test]
fn lines_skipped_before_the_failure_are_still_named() {
    let input = lines(&[
        r#"{"title": "no text"}"#,
        r#"{"description": "kept"}"#,
        r#"[]"#,
        r#"{"description": "#,
        r#"{"title": "never read"}"#,
    ]);
    assert_eq!(load_data(&input).err(), Some(InvalidJson { line: 3, skipped: vec![0, 2] }));
}

#[test]
fn empty_line_is_not_json() {
    let input = lines(&[r#"{"description": "fine"}"#, ""]);
    assert_eq!(load_data(&input).err(), Some(InvalidJson { line: 1, skipped: vec![] }));
}

#[test]
fn trailing_text_after_a_document_is_not_json() {
    let input = lines(&[r#"{"description": "fine"} {"description": "more"}"#]);
    assert_eq!(load_data(&input).err(), Some(InvalidJson { line: 0, skipped: vec![] }));
}

#[test]
fn escapes_in_the_description_are_resolved() {
    let input = lines(&[r#"{"description": "café \"corner\"\n"}"#]);
    let data = load_data(&input).unwrap();
    assert_eq!(data.documents, vec!["café \"corner\"\n"]);
}
