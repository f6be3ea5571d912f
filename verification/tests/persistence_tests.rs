use home_app::persistence::Persistence;

#[test]
fn set_then_get_round_trips_without_flush() {
    let mut p = Persistence::from_content(None, 0);
    let encoded = serde_json::to_string(&vec![1u64, 2, 3]).unwrap();
    p.set_value("numbers", &encoded);
    let raw = p.get_value("numbers").expect("the value is present");
    assert_eq!(raw, encoded);
    let decoded: Vec<u64> = serde_json::from_str(&raw).unwrap();
    assert_eq!(decoded, vec![1u64, 2, 3]);
}

#[test]
fn missing_key_reads_as_none() {
    let p = Persistence::from_content(None, 0);
    assert_eq!(p.get_value("absent"), None);
}

#[test]
fn corrupt_backing_content_starts_empty() {
    let p = Persistence::from_content(Some("###"), 0);
    assert_eq!(p.get_value("anything"), None);
}

#[test]
fn save_with_nothing_changed_writes_nothing() {
    let p = Persistence::from_content(Some("{\"a\": \"1\"}"), 0);
    assert_eq!(p.save(), None);
}

#[test]
fn debounce_allows_at_most_one_save_per_interval() {
    let mut p = Persistence::from_content(None, 0);
    p.set_auto_save_interval(10);
    p.set_value("k", "v1");
    for t in [1u64, 3, 5, 9, 10] {
        assert_eq!(p.maybe_autosave(t), None, "no save may fire within the interval");
    }
    let payload = p.maybe_autosave(11).expect("one save fires once the interval elapsed");
    assert!(payload.contains("v1"));
    p.confirm_saved();
    p.set_value("k", "v2");
    assert_eq!(p.maybe_autosave(12), None);
    assert_eq!(p.maybe_autosave(21), None);
    assert!(p.maybe_autosave(22).is_some());
}

#[test]
fn quiescent_autosave_fires_but_writes_nothing() {
    let mut p = Persistence::from_content(None, 0);
    p.set_auto_save_interval(10);
    assert_eq!(p.maybe_autosave(100), None, "nothing dirty: no payload");
}

#[test]
fn clock_reading_not_past_the_reference_point_never_fires() {
    let mut p = Persistence::from_content(None, 50);
    p.set_auto_save_interval(10);
    p.set_value("k", "v");
    assert_eq!(p.maybe_autosave(40), None, "a reading before the reference point");
    assert_eq!(p.maybe_autosave(50), None, "a reading at the reference point");
    assert!(p.maybe_autosave(61).is_some());
}

#[test]
fn unacknowledged_write_is_offered_again() {
    let mut p = Persistence::from_content(None, 0);
    p.set_auto_save_interval(10);
    p.set_value("k", "v");
    let first = p.maybe_autosave(11);
    assert!(first.is_some());
    // the write failed: confirm_saved is not called, so the next cycle
    // offers the same changes again
    let second = p.maybe_autosave(22);
    assert_eq!(second, first);
}
