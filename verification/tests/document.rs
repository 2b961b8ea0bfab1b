use password_manager::codec::{decode_entry, encode_entry, SaveError};
use password_manager::database::PasswordDatabase;
use password_manager::entry::PasswordEntry;
use serde_json::Value;

fn record(site: &str, username: &str, password: &str, shown: bool) -> PasswordEntry {
    PasswordEntry {
        site: site.to_string(),
        username: username.to_string(),
        password: password.to_string(),
        is_password_visible: shown,
    }
}

fn object(fields: &[(&str, Value)]) -> Value {
    let mut map = serde_json::Map::new();
    for (key, value) in fields {
        map.insert(key.to_string(), value.clone());
    }
    Value::Object(map)
}

fn text(s: &str) -> Value {
    Value::String(s.to_string())
}

fn triples(db: &PasswordDatabase) -> Vec<(String, String, String)> {
    db.entries.iter().map(|e| (e.site.clone(), e.username.clone(), e.password.clone())).collect()
}

#[test]
fn save_writes_indented_json_with_every_field() {
    let db = PasswordDatabase {
        entries: vec![
            record("example.com", "alice", "s3cret", false),
            record("bank.com", "bob", "hunter2", true),
        ],
    };
    let expected = r#"{
  "entries": [
    {
      "is_password_visible": false,
      "password": "s3cret",
      "site": "example.com",
      "username": "alice"
    },
    {
      "is_password_visible": true,
      "password": "hunter2",
      "site": "bank.com",
      "username": "bob"
    }
  ]
}"#;
    assert_eq!(db.save_to_text(), Ok(expected.to_string()));
}

#[test]
fn save_of_the_empty_store() {
    let db = PasswordDatabase::default();
    assert_eq!(db.save_to_text(), Ok("{\n  \"entries\": []\n}".to_string()));
}

#[test]
fn save_is_a_whole_snapshot_each_time() {
    let mut db = PasswordDatabase::default();
    db.add_entry("a".to_string(), "u".to_string(), "p".to_string());
    let first = db.save_to_text().unwrap();
    db.add_entry("b".to_string(), "v".to_string(), "q".to_string());
    db.delete_entry(0);
    let second = db.save_to_text().unwrap();
    assert!(first.contains("\"site\": \"a\""));
    assert!(!second.contains("\"site\": \"a\""));
    assert!(second.contains("\"site\": \"b\""));
}

#[test]
fn load_reads_a_document_without_display_flags() {
    let text = r#"{
  "entries": [
    {"site": "example.com", "username": "alice", "password": "s3cret"}
  ]
}"#;
    let db = PasswordDatabase::load_from_text(text);
    assert_eq!(db.entries, vec![record("example.com", "alice", "s3cret", false)]);
}

#[test]
fn load_masks_every_password() {
    let text = r#"{"entries": [
        {"site": "a", "username": "u", "password": "p", "is_password_visible": true},
        {"site": "b", "username": "v", "password": "q", "is_password_visible": false},
        {"site": "c", "username": "w", "password": "r", "is_password_visible": "yes"}
    ]}"#;
    let db = PasswordDatabase::load_from_text(text);
    assert_eq!(
        db.entries,
        vec![record("a", "u", "p", false), record("b", "v", "q", false), record("c", "w", "r", false)]
    );
}

#[test]
fn load_after_save_gives_the_same_triples_hidden() {
    let db = PasswordDatabase {
        entries: vec![
            record("example.com", "alice", "s3cret", true),
            record("", "", "", false),
            record("example.com", "alice", "s3cret", true),
            record("quote\"back\\slash", "line\nbreak\ttab", "caf\u{e9} \u{1f511} \u{0}\u{7f}", true),
        ],
    };
    let text = db.save_to_text().unwrap();
    let back = PasswordDatabase::load_from_text(&text);
    assert_eq!(triples(&back), triples(&db));
    assert!(back.entries.iter().all(|e| !e.is_password_visible));
    assert_eq!(back.save_to_text().unwrap(), {
        let mut hidden = db.clone();
        for e in hidden.entries.iter_mut() {
            e.is_password_visible = false;
        }
        hidden.save_to_text().unwrap()
    });
}

#[test]
fn load_after_save_of_the_empty_store() {
    let text = PasswordDatabase::default().save_to_text().unwrap();
    assert!(PasswordDatabase::load_from_text(&text).entries.is_empty());
}

#[test]
fn load_of_text_that_is_no_json_is_empty() {
    for text in ["", "not json", "{", "{\"entries\": [", "{\"entries\": []} trailing", "{'entries': []}", "\u{0}"] {
        assert!(PasswordDatabase::load_from_text(text).entries.is_empty(), "{:?}", text);
    }
}

#[test]
fn load_of_json_that_is_no_store_is_empty() {
    for text in [
        "{}",
        "[]",
        "null",
        "3",
        "\"entries\"",
        "{\"entries\": 3}",
        "{\"entries\": {}}",
        "{\"entries\": null}",
        "{\"Entries\": []}",
        "{\"entries\": [3]}",
        "{\"entries\": [[\"a\", \"u\", \"p\", false]]}",
        "{\"entries\": [{\"site\": \"a\", \"username\": \"u\"}]}",
        "{\"entries\": [{\"site\": \"a\", \"password\": \"p\"}]}",
        "{\"entries\": [{\"username\": \"u\", \"password\": \"p\"}]}",
        "{\"entries\": [{\"site\": 1, \"username\": \"u\", \"password\": \"p\"}]}",
        "{\"entries\": [{\"site\": \"a\", \"username\": null, \"password\": \"p\"}]}",
        "{\"entries\": [{\"site\": \"a\", \"username\": \"u\", \"password\": [\"p\"]}]}",
    ] {
        assert!(PasswordDatabase::load_from_text(text).entries.is_empty(), "{:?}", text);
    }
}

#[test]
fn load_drops_every_record_when_one_is_malformed() {
    let text = r#"{"entries": [
        {"site": "a", "username": "u", "password": "p"},
        {"site": "b", "username": "v"}
    ]}"#;
    assert!(PasswordDatabase::load_from_text(text).entries.is_empty());
}

#[test]
fn load_passes_over_additional_fields() {
    let text = r#"{"version": 2, "entries": [
        {"site": "a", "note": {"x": [1, 2.5, null]}, "username": "u", "password": "p"}
    ], "comment": "kept by nobody"}"#;
    let db = PasswordDatabase::load_from_text(text);
    assert_eq!(db.entries, vec![record("a", "u", "p", false)]);
}

#[test]
fn load_keeps_order_and_repeated_records() {
    let text = r#"{"entries": [
        {"site": "b", "username": "u", "password": "p"},
        {"site": "a", "username": "u", "password": "p"},
        {"site": "b", "username": "u", "password": "p"}
    ]}"#;
    let db = PasswordDatabase::load_from_text(text);
    assert_eq!(
        db.entries,
        vec![record("b", "u", "p", false), record("a", "u", "p", false), record("b", "u", "p", false)]
    );
}

#[test]
fn load_from_read_of_a_missing_file_is_empty() {
    assert!(PasswordDatabase::load_from_read(None).entries.is_empty());
}

#[test]
fn load_from_read_of_a_text_loads_it() {
    let text = r#"{"entries": [{"site": "a", "username": "u", "password": "p"}]}"#;
    assert_eq!(PasswordDatabase::load_from_read(Some(text)), PasswordDatabase::load_from_text(text));
    assert_eq!(PasswordDatabase::load_from_read(Some(text)).entries.len(), 1);
    assert!(PasswordDatabase::load_from_read(Some("{}")).entries.is_empty());
    assert!(PasswordDatabase::load_from_read(Some("oops")).entries.is_empty());
}

#[test]
fn from_parsed_follows_the_parser() {
    let good = serde_json::from_str::<Value>(
        r#"{"entries": [{"site": "a", "username": "u", "password": "p", "is_password_visible": true}]}"#,
    );
    assert_eq!(PasswordDatabase::from_parsed(good).entries, vec![record("a", "u", "p", false)]);
    let no_store = serde_json::from_str::<Value>("[1, 2]");
    assert!(PasswordDatabase::from_parsed(no_store).entries.is_empty());
    let failed = serde_json::from_str::<Value>("{");
    assert!(failed.is_err());
    assert!(PasswordDatabase::from_parsed(failed).entries.is_empty());
}

#[test]
fn from_json_value_reads_an_object_with_entries() {
    let value = object(&[(
        "entries",
        Value::Array(vec![
            object(&[("site", text("a")), ("username", text("u")), ("password", text("p"))]),
            object(&[
                ("password", text("q")),
                ("is_password_visible", Value::Bool(true)),
                ("username", text("v")),
                ("site", text("b")),
            ]),
        ]),
    )]);
    assert_eq!(
        PasswordDatabase::from_json_value(&value),
        Some(PasswordDatabase { entries: vec![record("a", "u", "p", false), record("b", "v", "q", false)] })
    );
}

#[test]
fn from_json_value_refuses_what_is_no_store() {
    assert_eq!(PasswordDatabase::from_json_value(&Value::Null), None);
    assert_eq!(PasswordDatabase::from_json_value(&Value::Array(Vec::new())), None);
    assert_eq!(PasswordDatabase::from_json_value(&object(&[])), None);
    assert_eq!(PasswordDatabase::from_json_value(&object(&[("entries", text("x"))])), None);
    assert_eq!(
        PasswordDatabase::from_json_value(&object(&[("entries", Value::Array(vec![Value::Bool(true)]))])),
        None
    );
    assert_eq!(
        PasswordDatabase::from_json_value(&object(&[("entries", Value::Array(Vec::new()))])),
        Some(PasswordDatabase::default())
    );
}

#[test]
fn to_json_value_holds_every_record_in_order() {
    let db = PasswordDatabase { entries: vec![record("a", "u", "p", true), record("b", "v", "q", false)] };
    let expected = object(&[(
        "entries",
        Value::Array(vec![
            object(&[
                ("site", text("a")),
                ("username", text("u")),
                ("password", text("p")),
                ("is_password_visible", Value::Bool(true)),
            ]),
            object(&[
                ("site", text("b")),
                ("username", text("v")),
                ("password", text("q")),
                ("is_password_visible", Value::Bool(false)),
            ]),
        ]),
    )]);
    assert_eq!(db.to_json_value(), expected);
    assert_eq!(PasswordDatabase::default().to_json_value(), object(&[("entries", Value::Array(Vec::new()))]));
}

#[test]
fn encode_entry_writes_four_fields() {
    let value = encode_entry(&record("a", "u", "p", true));
    assert_eq!(value.as_object().unwrap().len(), 4);
    assert_eq!(value.get("site"), Some(&text("a")));
    assert_eq!(value.get("username"), Some(&text("u")));
    assert_eq!(value.get("password"), Some(&text("p")));
    assert_eq!(value.get("is_password_visible"), Some(&Value::Bool(true)));
}

#[test]
fn decode_entry_reads_three_strings() {
    let value = object(&[
        ("site", text("a")),
        ("username", text("u")),
        ("password", text("p")),
        ("is_password_visible", Value::Bool(true)),
    ]);
    assert_eq!(decode_entry(&value), Some(record("a", "u", "p", false)));
    assert_eq!(decode_entry(&encode_entry(&record("x", "", "z", true))), Some(record("x", "", "z", false)));
}

#[test]
fn decode_entry_refuses_what_is_no_record() {
    assert_eq!(decode_entry(&Value::Null), None);
    assert_eq!(decode_entry(&text("site")), None);
    assert_eq!(decode_entry(&Value::Array(vec![text("a"), text("u"), text("p")])), None);
    assert_eq!(decode_entry(&object(&[("site", text("a")), ("username", text("u"))])), None);
    assert_eq!(
        decode_entry(&object(&[("site", text("a")), ("username", text("u")), ("password", Value::Bool(false))])),
        None
    );
    assert_eq!(
        decode_entry(&object(&[("site", Value::Null), ("username", text("u")), ("password", text("p"))])),
        None
    );
}

#[test]
fn save_outcome_passes_the_text_on() {
    assert_eq!(PasswordDatabase::save_outcome(Ok("{}".to_string())), Ok("{}".to_string()));
}

#[test]
fn save_outcome_reports_a_failed_serialization() {
    let failure = serde_json::from_str::<Value>("{").unwrap_err();
    assert_eq!(PasswordDatabase::save_outcome(Err(failure)), Err(SaveError::Serialize));
}
