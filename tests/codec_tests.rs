use dictation_history::codec::{decode_entry, decode_history, encode_entry, encode_history, JsonValue};
use dictation_history::entry::{HistoryEntry, Timestamp};

fn s(text: &str) -> JsonValue {
    JsonValue::Str(text.to_string())
}

fn object(fields: Vec<(&str, JsonValue)>) -> JsonValue {
    JsonValue::Object(fields.into_iter().map(|(k, v)| (k.to_string(), v)).collect())
}

fn document(items: Vec<JsonValue>) -> JsonValue {
    object(vec![("entries", JsonValue::Array(items))])
}

fn field<'a>(v: &'a JsonValue, key: &str) -> &'a JsonValue {
    match v {
        JsonValue::Object(fs) => &fs.iter().find(|(k, _)| k == key).expect("field").1,
        _ => panic!("not an object"),
    }
}

#[test]
fn missing_raw_text_reads_as_empty() {
    let doc = document(vec![
        object(vec![("id", s("a")), ("timestamp", s("2024-01-01T00:00:00Z")), ("text", s("hello"))]),
        object(vec![("id", s("b")), ("timestamp", s("2024-01-01T00:00:01.5Z")), ("text", s("bye"))]),
    ]);
    let entries = decode_history(&doc).expect("document reads");
    assert_eq!(entries.len(), 2);
    assert_eq!(entries[0].id, "a");
    assert_eq!(entries[0].raw_text, "");
    assert_eq!(entries[0].timestamp, Timestamp { secs: 1_704_067_200, nanos: 0 });
    assert_eq!(entries[1].raw_text, "");
    assert_eq!(entries[1].text, "bye");
    assert_eq!(entries[1].timestamp, Timestamp { secs: 1_704_067_201, nanos: 500_000_000 });
}

#[test]
fn timestamp_with_offset_is_read_in_utc() {
    let v = object(vec![
        ("id", s("x")),
        ("timestamp", s("1996-12-19T16:39:57-08:00")),
        ("text", s("t")),
        ("raw_text", s("r")),
        ("extra", JsonValue::Number("3".to_string())),
    ]);
    let e = decode_entry(&v).expect("entry reads");
    assert_eq!(e.timestamp.secs, 851_042_397);
    assert_eq!(e.raw_text, "r");
}

#[test]
fn malformed_entries_are_refused() {
    let bad_time = object(vec![("id", s("a")), ("timestamp", s("yesterday")), ("text", s("t"))]);
    assert!(decode_entry(&bad_time).is_none());
    let no_text = object(vec![("id", s("a")), ("timestamp", s("2024-01-01T00:00:00Z"))]);
    assert!(decode_entry(&no_text).is_none());
    let null_raw = object(vec![
        ("id", s("a")),
        ("timestamp", s("2024-01-01T00:00:00Z")),
        ("text", s("t")),
        ("raw_text", JsonValue::Null),
    ]);
    assert!(decode_entry(&null_raw).is_none());
    assert!(decode_entry(&s("a")).is_none());
    assert!(decode_history(&document(vec![bad_time])).is_none());
    assert!(decode_history(&object(vec![])).is_none());
    assert!(decode_history(&object(vec![("entries", JsonValue::Null)])).is_none());
    assert_eq!(decode_history(&document(vec![])).map(|v| v.len()), Some(0));
}

#[test]
fn encoded_entry_has_rfc3339_time() {
    let e = HistoryEntry {
        id: "id-1".to_string(),
        timestamp: Timestamp { secs: 0, nanos: 0 },
        text: "t".to_string(),
        raw_text: "r".to_string(),
    };
    let v = encode_entry(&e).expect("renders");
    match field(&v, "timestamp") {
        JsonValue::Str(t) => assert_eq!(t, "1970-01-01T00:00:00Z"),
        _ => panic!("timestamp is not a string"),
    }
    let far = HistoryEntry { timestamp: Timestamp { secs: i64::MAX, nanos: 0 }, ..e.clone() };
    assert!(encode_entry(&far).is_none());
    assert!(encode_history(&vec![e, far]).is_none());
}

#[test]
fn written_history_reads_back_twice() {
    let entries = vec![
        HistoryEntry {
            id: "a".to_string(),
            timestamp: Timestamp { secs: 1_700_000_000, nanos: 123_456_789 },
            text: "first".to_string(),
            raw_text: "frist".to_string(),
        },
        HistoryEntry {
            id: "b".to_string(),
            timestamp: Timestamp { secs: 1_600_000_000, nanos: 0 },
            text: "second".to_string(),
            raw_text: String::new(),
        },
    ];
    let once = decode_history(&encode_history(&entries).unwrap()).unwrap();
    let twice = decode_history(&encode_history(&once).unwrap()).unwrap();
    for (a, b) in entries.iter().zip(twice.iter()) {
        assert_eq!(a.id, b.id);
        assert_eq!(a.timestamp, b.timestamp);
        assert_eq!(a.text, b.text);
        assert_eq!(a.raw_text, b.raw_text);
    }
    assert_eq!(twice.len(), 2);
}

#[test]
fn relaxed_time_text_is_read() {
    let v = object(vec![("id", s("a")), ("timestamp", s("2012-12-12 12:12:12Z")), ("text", s("t"))]);
    let e = decode_entry(&v).expect("entry reads");
    assert_eq!(e.timestamp, Timestamp { secs: 1_355_314_332, nanos: 0 });
}

#[test]
fn time_after_year_9999_reads_back() {
    let e = HistoryEntry {
        id: "a".to_string(),
        timestamp: Timestamp { secs: 253_402_300_800, nanos: 0 },
        text: "t".to_string(),
        raw_text: String::new(),
    };
    let doc = encode_history(&vec![e]).expect("chrono renders the time");
    let back = decode_history(&doc).expect("chrono reads the time back");
    assert_eq!(back[0].timestamp, Timestamp { secs: 253_402_300_800, nanos: 0 });
}
