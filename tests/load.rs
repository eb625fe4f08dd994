use rnr_dump::dump::{Operation, OperationLog};
use rnr_dump::error::ErrorKind;
use rnr_dump::load::{finish_load, LoadEvent};
use rnr_dump::timestamp::Timestamp;

fn op(s: &str, t: &str) -> Operation {
    Operation { source: s.to_string(), target: t.to_string() }
}

#[test]
fn missing_file_is_file_read() {
    let e = finish_load("/nowhere/x.json".to_string(), LoadEvent::ReadFailed).unwrap_err();
    assert_eq!(e.kind, ErrorKind::FileRead);
    assert_eq!(e.value.as_deref(), Some("/nowhere/x.json"));
}

#[test]
fn malformed_contents_are_json_parse() {
    let e = finish_load("bad.json".to_string(), LoadEvent::ParseFailed).unwrap_err();
    assert_eq!(e.kind, ErrorKind::JsonParse);
    assert_eq!(e.value.as_deref(), Some("bad.json"));
}

#[test]
fn parsed_record_gives_operations_in_order() {
    let now = Timestamp::new(2024, 3, 1, 9, 5, 22).unwrap();
    let ops = vec![op("a", "b"), op("c", "d"), op("b", "a")];
    let log = OperationLog::new(&now, "/work".to_string(), ops);
    assert_eq!(log.date, "2024-03-01 09:05:22");
    assert_eq!(log.directory, "/work");
    let got = finish_load("x.json".to_string(), LoadEvent::Parsed { log }).unwrap();
    let pairs: Vec<(String, String)> = got.into_iter().map(|o| (o.source, o.target)).collect();
    assert_eq!(
        pairs,
        vec![
            ("a".to_string(), "b".to_string()),
            ("c".to_string(), "d".to_string()),
            ("b".to_string(), "a".to_string())
        ]
    );
}

#[test]
fn empty_record_gives_empty_sequence() {
    let now = Timestamp::new(2024, 3, 1, 9, 5, 22).unwrap();
    let log = OperationLog::new(&now, "/work".to_string(), vec![]);
    let got = finish_load("x.json".to_string(), LoadEvent::Parsed { log }).unwrap();
    assert!(got.is_empty());
}
