use home_app::storage::FileStorage;

#[test]
fn corrupt_content_yields_empty_store() {
    let st = FileStorage::from_content(Some("not valid json {"));
    assert_eq!(st.get_string("any"), None);
    assert!(!st.is_dirty());
}

#[test]
fn wrong_shape_content_yields_empty_store() {
    let st = FileStorage::from_content(Some("[1, 2, 3]"));
    assert_eq!(st.get_string("any"), None);
    assert!(!st.is_dirty());
}

#[test]
fn missing_content_yields_empty_store() {
    let st = FileStorage::from_content(None);
    assert_eq!(st.get_string("theme"), None);
    assert!(!st.is_dirty());
}

#[test]
fn valid_content_is_loaded() {
    let st = FileStorage::from_content(Some("{\"a\": \"1\", \"b\": \"2\"}"));
    assert_eq!(st.get_string("a").as_deref(), Some("1"));
    assert_eq!(st.get_string("b").as_deref(), Some("2"));
    assert_eq!(st.get_string("c"), None);
    assert!(!st.is_dirty());
}

#[test]
fn set_marks_dirty_and_get_returns_it() {
    let mut st = FileStorage::from_content(None);
    st.set_string("a", "1".to_owned());
    assert!(st.is_dirty());
    assert_eq!(st.get_string("a").as_deref(), Some("1"));
}

#[test]
fn overwrite_replaces_the_value() {
    let mut st = FileStorage::from_content(None);
    st.set_string("a", "1".to_owned());
    st.set_string("a", "2".to_owned());
    assert_eq!(st.get_string("a").as_deref(), Some("2"));
}

#[test]
fn noop_set_does_not_mark_dirty_and_flush_writes_nothing() {
    let mut st = FileStorage::from_content(Some("{\"a\": \"1\"}"));
    assert!(!st.is_dirty());
    st.set_string("a", "1".to_owned());
    assert!(!st.is_dirty());
    assert_eq!(st.flush(), None);
}

#[test]
fn flush_yields_payload_until_acknowledged() {
    let mut st = FileStorage::from_content(None);
    st.set_string("a", "1".to_owned());
    let payload = st.flush().expect("a dirty store yields a payload");
    let reloaded = FileStorage::from_content(Some(&payload));
    assert_eq!(reloaded.get_string("a").as_deref(), Some("1"));
    assert!(st.is_dirty(), "the flag stays set until the write is acknowledged");
    st.mark_clean();
    assert!(!st.is_dirty());
    assert_eq!(st.flush(), None);
}

#[test]
fn encoded_payload_is_a_json_object() {
    let mut st = FileStorage::from_content(None);
    st.set_string("key", "value".to_owned());
    let payload = st.flush().unwrap();
    let parsed: std::collections::HashMap<String, String> =
        serde_json::from_str(&payload).unwrap();
    assert_eq!(parsed.len(), 1);
    assert_eq!(parsed.get("key").map(|s| s.as_str()), Some("value"));
}
