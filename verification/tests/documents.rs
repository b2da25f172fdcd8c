use serde_json::{Number, Value};
use song_search::documents::{assign_ids, documents_from_json, DocumentsError, INDEX_MAP_SIZE};
use song_search::json::JsonObject;

fn text(s: &str) -> Value {
    Value::String(s.to_string())
}

fn record(name: &str, lyrics: &str) -> JsonObject {
    let mut object = JsonObject::new();
    object.insert("name".to_string(), text(name));
    object.insert("lyrics".to_string(), text(lyrics));
    object
}

fn number(n: u64) -> Value {
    Value::Number(Number::from(n))
}

fn parse(output: &str) -> Vec<JsonObject> {
    serde_json::from_str(output).unwrap()
}

#[test]
fn index_map_size_is_ten_mebibytes() {
    assert_eq!(INDEX_MAP_SIZE, 10_485_760);
}

#[test]
fn each_record_gets_its_position() {
    let mut records = vec![
        record("Amazing Grace", "Amazing grace, how sweet the sound"),
        record("Silent Night", "Silent night, holy night"),
        record("Joy to the World", "Joy to the world, the Lord is come"),
    ];
    assign_ids(&mut records);
    assert_eq!(records.len(), 3);
    for (position, document) in records.iter().enumerate() {
        assert_eq!(document.get("id"), Some(&number(position as u64)));
    }
}

#[test]
fn other_members_are_kept() {
    let mut records = vec![record("Amazing Grace", "how sweet the sound")];
    records[0].insert("composer".to_string(), Value::Null);
    records[0].insert("verses".to_string(), number(6));
    assign_ids(&mut records);
    let document = &records[0];
    assert_eq!(document.len(), 5);
    assert_eq!(document.get("name"), Some(&text("Amazing Grace")));
    assert_eq!(document.get("lyrics"), Some(&text("how sweet the sound")));
    assert_eq!(document.get("composer"), Some(&Value::Null));
    assert_eq!(document.get("verses"), Some(&number(6)));
    assert_eq!(document.get("id"), Some(&number(0)));
}

#[test]
fn an_identifier_in_the_record_is_replaced() {
    let mut first = record("Amazing Grace", "a");
    first.insert("id".to_string(), text("hymn-17"));
    let mut second = record("Silent Night", "b");
    second.insert("id".to_string(), number(0));
    let mut third = record("Joy to the World", "c");
    third.insert("id".to_string(), Value::Null);
    let mut records = vec![first, second, third];
    assign_ids(&mut records);
    assert_eq!(records[0].get("id"), Some(&number(0)));
    assert_eq!(records[1].get("id"), Some(&number(1)));
    assert_eq!(records[2].get("id"), Some(&number(2)));
    assert_eq!(records[0].len(), 3);
}

#[test]
fn the_position_does_not_depend_on_the_content() {
    let mut records = vec![JsonObject::new(), record("x", "y"), JsonObject::new(), record("x", "y")];
    assign_ids(&mut records);
    for (position, document) in records.iter().enumerate() {
        assert_eq!(document.get("id"), Some(&number(position as u64)));
    }
    assert_eq!(records[0].len(), 1);
    assert_eq!(records[1].len(), 3);
}

#[test]
fn no_records_no_documents() {
    let mut records: Vec<JsonObject> = Vec::new();
    assign_ids(&mut records);
    assert!(records.is_empty());
}

#[test]
fn assigning_twice_is_assigning_once() {
    let mut records = vec![record("a", "1"), record("b", "2"), record("c", "3")];
    assign_ids(&mut records);
    let once = records.clone();
    assign_ids(&mut records);
    assert_eq!(records, once);
}

#[test]
fn many_records_are_numbered_in_order() {
    let mut records: Vec<JsonObject> = (0..250).map(|_| record("n", "l")).collect();
    assign_ids(&mut records);
    assert_eq!(records[9].get("id"), Some(&number(9)));
    assert_eq!(records[10].get("id"), Some(&number(10)));
    assert_eq!(records[249].get("id"), Some(&number(249)));
}

#[test]
fn documents_carry_positional_identifiers() {
    let input = br#"[
        {"name": "Amazing Grace", "lyrics": "Amazing grace, how sweet the sound"},
        {"name": "Silent Night", "composer": "Franz Gruber", "lyrics": "Silent night"}
    ]"#;
    let output = documents_from_json(input).unwrap();
    let documents = parse(&output);
    assert_eq!(documents.len(), 2);
    assert_eq!(documents[0].get("id"), Some(&number(0)));
    assert_eq!(documents[0].get("name"), Some(&text("Amazing Grace")));
    assert_eq!(
        documents[0].get("lyrics"),
        Some(&text("Amazing grace, how sweet the sound"))
    );
    assert_eq!(documents[0].len(), 3);
    assert_eq!(documents[1].get("id"), Some(&number(1)));
    assert_eq!(documents[1].get("name"), Some(&text("Silent Night")));
    assert_eq!(documents[1].get("composer"), Some(&text("Franz Gruber")));
    assert_eq!(documents[1].get("lyrics"), Some(&text("Silent night")));
    assert_eq!(documents[1].len(), 4);
}

#[test]
fn the_output_is_compact_json() {
    let output = documents_from_json(b" [ { } ,\n { } ] ").unwrap();
    assert_eq!(output, r#"[{"id":0},{"id":1}]"#);
}

#[test]
fn an_identifier_in_the_input_is_overwritten() {
    let output = documents_from_json(br#"[{"id": "x"}, {"id": 40, "name": "B"}]"#).unwrap();
    let documents = parse(&output);
    assert_eq!(documents[0].get("id"), Some(&number(0)));
    assert_eq!(documents[1].get("id"), Some(&number(1)));
    assert_eq!(documents[1].get("name"), Some(&text("B")));
}

#[test]
fn an_empty_array_gives_an_empty_array() {
    assert_eq!(documents_from_json(b"[]").unwrap(), "[]");
}

#[test]
fn running_again_on_the_output_changes_nothing() {
    let input = br#"[{"name": "A", "lyrics": "x"}, {"name": "B", "lyrics": "y"}]"#;
    let once = documents_from_json(input).unwrap();
    let twice = documents_from_json(once.as_bytes()).unwrap();
    assert_eq!(once, twice);
}

#[test]
fn running_again_on_the_input_gives_the_same_documents() {
    let input = br#"[{"name": "A", "lyrics": "x"}, {"name": "B", "lyrics": "y"}]"#;
    assert_eq!(
        documents_from_json(input).unwrap(),
        documents_from_json(input).unwrap()
    );
}

#[test]
fn text_that_is_not_json_is_malformed() {
    assert!(matches!(
        documents_from_json(b"not json"),
        Err(DocumentsError::Malformed(_))
    ));
    assert!(matches!(
        documents_from_json(b""),
        Err(DocumentsError::Malformed(_))
    ));
    assert!(matches!(
        documents_from_json(br#"[{"name": "A"}"#),
        Err(DocumentsError::Malformed(_))
    ));
}

#[test]
fn json_that_is_not_an_array_of_objects_is_malformed() {
    assert!(matches!(
        documents_from_json(br#"{"name": "A"}"#),
        Err(DocumentsError::Malformed(_))
    ));
    assert!(matches!(
        documents_from_json(b"[1, 2, 3]"),
        Err(DocumentsError::Malformed(_))
    ));
    assert!(matches!(
        documents_from_json(br#"[{"name": "A"}, "B"]"#),
        Err(DocumentsError::Malformed(_))
    ));
}

#[test]
fn text_after_the_array_is_malformed() {
    assert!(matches!(
        documents_from_json(br#"[{"name": "A"}] [] "#),
        Err(DocumentsError::Malformed(_))
    ));
}

#[test]
fn the_parser_says_where_the_input_is_malformed() {
    match documents_from_json(b"[{\"name\": }]") {
        Err(DocumentsError::Malformed(e)) => {
            assert_eq!(e.line(), 1);
            assert_eq!(e.column(), 11);
        }
        _ => panic!("malformed input was accepted"),
    }
}
