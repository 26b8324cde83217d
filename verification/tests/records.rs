use serde_json::Value;
use structured_persistent_logger::{
    add_persistent_log, build_document, render_record, FieldStore, Level,
    StructuredPersistentLogger,
};

#[test]
fn document_holds_fields_and_record() {
    let mut store = FieldStore::new();
    add_persistent_log(&mut store, "request_id", Value::from("abc"));
    add_persistent_log(&mut store, "attempt", Value::from(2));
    let document = build_document(&store, Level::Warn, "slow", "2024-01-01T00:00:00+00:00");
    assert_eq!(document.len(), 5);
    assert_eq!(document.get("request_id"), Some(&Value::from("abc")));
    assert_eq!(document.get("attempt"), Some(&Value::from(2)));
    assert_eq!(document.get("level"), Some(&Value::from("WARN")));
    assert_eq!(document.get("message"), Some(&Value::from("slow")));
    assert_eq!(document.get("timestamp"), Some(&Value::from("2024-01-01T00:00:00+00:00")));
}

#[test]
fn reserved_keys_win_over_persistent_fields() {
    let mut store = FieldStore::new();
    add_persistent_log(&mut store, "level", Value::from("custom"));
    add_persistent_log(&mut store, "message", Value::from(1));
    add_persistent_log(&mut store, "timestamp", Value::Null);
    let document = build_document(&store, Level::Info, "hello", "t");
    assert_eq!(document.len(), 3);
    assert_eq!(document.get("level"), Some(&Value::from("INFO")));
    assert_eq!(document.get("message"), Some(&Value::from("hello")));
    assert_eq!(document.get("timestamp"), Some(&Value::from("t")));
    assert_eq!(
        render_record(&store, Level::Info, "hello", "t"),
        Some("{\"level\":\"INFO\",\"message\":\"hello\",\"timestamp\":\"t\"}".to_string())
    );
}

#[test]
fn level_names_are_upper_case() {
    let store = FieldStore::new();
    let names = [
        (Level::Error, "ERROR"),
        (Level::Warn, "WARN"),
        (Level::Info, "INFO"),
        (Level::Debug, "DEBUG"),
        (Level::Trace, "TRACE"),
    ];
    for (level, name) in names {
        let document = build_document(&store, level, "m", "t");
        assert_eq!(document.get("level"), Some(&Value::from(name)));
    }
}

#[test]
fn render_gives_one_compact_line() {
    let mut store = FieldStore::new();
    add_persistent_log(&mut store, "request_id", Value::from("abc"));
    let line = render_record(&store, Level::Info, "hello", "2024-01-01T00:00:00.000000000+00:00");
    assert_eq!(
        line,
        Some(
            "{\"level\":\"INFO\",\"message\":\"hello\",\"request_id\":\"abc\",\"timestamp\":\"2024-01-01T00:00:00.000000000+00:00\"}"
                .to_string()
        )
    );
}

#[test]
fn render_escapes_the_message() {
    let store = FieldStore::new();
    let line = render_record(&store, Level::Error, "a \"b\"\nc", "t").unwrap();
    assert!(!line.contains('\n'));
    let parsed: Value = serde_json::from_str(&line).unwrap();
    assert_eq!(parsed.get("message"), Some(&Value::from("a \"b\"\nc")));
    assert_eq!(parsed.get("level"), Some(&Value::from("ERROR")));
}

#[test]
fn render_keeps_structured_fields() {
    let mut inner = serde_json::Map::new();
    inner.insert("id".to_string(), Value::from(7));
    let mut store = FieldStore::new();
    add_persistent_log(&mut store, "user", Value::Object(inner));
    add_persistent_log(&mut store, "tags", Value::Array(vec![Value::from("a"), Value::Null]));
    let line = render_record(&store, Level::Debug, "m", "t");
    assert_eq!(
        line,
        Some(
            "{\"level\":\"DEBUG\",\"message\":\"m\",\"tags\":[\"a\",null],\"timestamp\":\"t\",\"user\":{\"id\":7}}"
                .to_string()
        )
    );
}

#[test]
fn render_does_not_change_the_store() {
    let mut store = FieldStore::new();
    add_persistent_log(&mut store, "a", Value::from(1));
    let first = render_record(&store, Level::Info, "m", "t");
    let second = render_record(&store, Level::Info, "m", "t");
    assert_eq!(first, second);
    assert_eq!(store.keys(), vec!["a".to_string()]);
}

#[test]
fn end_to_end_record() {
    let mut logger = StructuredPersistentLogger::new();
    assert_eq!(logger.init(Some("debug")), Ok(()));
    let mut store = FieldStore::new();
    add_persistent_log(&mut store, "request_id", Value::from("abc"));
    assert!(logger.enabled(Level::Info));
    let line = logger.log(&store, Level::Info, "hello").unwrap();
    assert!(!line.contains('\n'));
    assert!(line.contains("\"request_id\":\"abc\""));
    assert!(line.contains("\"level\":\"INFO\""));
    assert!(line.contains("\"message\":\"hello\""));
    let parsed: Value = serde_json::from_str(&line).unwrap();
    let object = parsed.as_object().unwrap();
    assert_eq!(object.len(), 4);
    let timestamp = object.get("timestamp").unwrap().as_str().unwrap();
    let time = chrono::DateTime::parse_from_rfc3339(timestamp).unwrap();
    assert_eq!(time.offset().local_minus_utc(), 0);
}

#[test]
fn log_stamps_the_record_in_utc_form() {
    let logger = StructuredPersistentLogger::new();
    let store = FieldStore::new();
    let before = chrono::Utc::now();
    let line = logger.log(&store, Level::Warn, "m").unwrap();
    let after = chrono::Utc::now();
    let parsed: Value = serde_json::from_str(&line).unwrap();
    let timestamp = parsed.get("timestamp").unwrap().as_str().unwrap().to_string();
    assert!(timestamp.len() >= 25);
    assert!(timestamp.ends_with("+00:00"));
    let bytes = timestamp.as_bytes();
    assert!(bytes[0..4].iter().all(|b| b.is_ascii_digit()));
    assert_eq!(bytes[4], b'-');
    assert!(bytes[5..7].iter().all(|b| b.is_ascii_digit()));
    assert_eq!(bytes[7], b'-');
    assert!(bytes[8..10].iter().all(|b| b.is_ascii_digit()));
    assert_eq!(bytes[10], b'T');
    assert!(bytes[11..13].iter().all(|b| b.is_ascii_digit()));
    assert_eq!(bytes[13], b':');
    assert!(bytes[14..16].iter().all(|b| b.is_ascii_digit()));
    assert_eq!(bytes[16], b':');
    assert!(bytes[17..19].iter().all(|b| b.is_ascii_digit()));
    let fraction = &timestamp[19..timestamp.len() - 6];
    assert!(fraction.is_empty() || [4, 7, 10].contains(&fraction.len()));
    if !fraction.is_empty() {
        assert!(fraction.starts_with('.'));
        assert!(fraction[1..].bytes().all(|b| b.is_ascii_digit()));
    }
    let time = chrono::DateTime::parse_from_rfc3339(&timestamp).unwrap();
    assert!(before <= time && time <= after);
}

#[test]
fn log_does_not_hold_the_level_against_the_threshold() {
    let mut logger = StructuredPersistentLogger::new();
    assert_eq!(logger.init(Some("error")), Ok(()));
    assert!(!logger.enabled(Level::Trace));
    let store = FieldStore::new();
    let line = logger.log(&store, Level::Trace, "fine detail").unwrap();
    let parsed: Value = serde_json::from_str(&line).unwrap();
    assert_eq!(parsed.get("level"), Some(&Value::from("TRACE")));
    logger.flush();
}
