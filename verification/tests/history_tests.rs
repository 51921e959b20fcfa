use songrec::history::{order_history, RecognitionHistoryInterface, SongHistoryRecord};

fn record(name: &str, date: &str, key: Option<&str>) -> SongHistoryRecord {
    SongHistoryRecord {
        song_name: name.to_string(),
        album: None,
        track_key: key.map(|k| k.to_string()),
        release_year: None,
        genre: None,
        recognition_date: date.to_string(),
    }
}

fn names(records: &[SongHistoryRecord]) -> Vec<String> {
    records.iter().map(|r| r.song_name.clone()).collect()
}

#[test]
fn test_item_date() {
    let s = "Sat Aug 17 22:44:43 2024";
    let parsed = chrono::NaiveDateTime::parse_from_str(s, "%c").unwrap();
    assert_eq!(&parsed.format("%c").to_string(), s);
}

#[test]
fn dates_order_by_time_not_by_text() {
    let rows = vec![
        Some(record("sunday-morning", "Sun Aug 18 09:00:00 2024", None)),
        Some(record("saturday-night", "Sat Aug 17 22:44:43 2024", None)),
        Some(record("sunday-noon", "Sun Aug 18 12:00:00 2024", None)),
        Some(record("unreadable", "not a date", None)),
        Some(record("monday", "Mon Aug 19 08:00:00 2024", None)),
    ];
    assert_eq!(
        names(&order_history(rows)),
        vec!["monday", "sunday-noon", "sunday-morning", "saturday-night", "unreadable"]
    );
}

#[test]
fn loading_orders_newest_first_and_drops_unreadable_rows() {
    let rows = vec![
        Some(record("b", "Sun Aug 18 09:00:00 2024", None)),
        None,
        Some(record("undated-1", "yesterday", None)),
        Some(record("a", "Sat Aug 17 22:44:43 2024", None)),
        Some(record("c", "Mon Aug 19 10:00:00 2024", None)),
        Some(record("undated-2", "", None)),
        Some(record("a-again", "Sat Aug 17 22:44:43 2024", None)),
    ];
    let ordered = order_history(rows);
    assert_eq!(
        names(&ordered),
        vec!["c", "b", "a-again", "a", "undated-2", "undated-1"]
    );
}

#[test]
fn new_passes_on_a_missing_path() {
    let r = RecognitionHistoryInterface::new(Err("no data directory".to_string()), None);
    assert_eq!(r.err(), Some("no data directory".to_string()));
}

#[test]
fn new_without_a_file_is_empty() {
    let h = RecognitionHistoryInterface::new(Ok("/tmp/history.csv".to_string()), None).unwrap();
    assert_eq!(h.csv_path, "/tmp/history.csv");
    assert!(h.records.is_empty());
}

#[test]
fn load_without_a_file_keeps_the_history() {
    let mut h = RecognitionHistoryInterface::new(
        Ok("p".to_string()),
        Some(vec![Some(record("x", "Sat Aug 17 22:44:43 2024", None))]),
    )
    .unwrap();
    h.load(None);
    assert_eq!(names(&h.records), vec!["x"]);
}

#[test]
fn add_row_and_save_puts_the_row_first_and_saves_oldest_first() {
    let mut h = RecognitionHistoryInterface::new(Ok("p".to_string()), Some(vec![])).unwrap();
    h.add_row_and_save(record("one", "Sat Aug 17 22:44:43 2024", Some("1")));
    let saved = h.add_row_and_save(record("two", "Sun Aug 18 09:00:00 2024", Some("2")));
    assert_eq!(names(&h.records), vec!["two", "one"]);
    assert_eq!(names(&saved), vec!["one", "two"]);
}

#[test]
fn remove_drops_every_record_of_the_same_song_and_date() {
    let mut h = RecognitionHistoryInterface::new(Ok("p".to_string()), Some(vec![])).unwrap();
    h.add_row_and_save(record("a", "d1", None));
    h.add_row_and_save(record("b", "d1", None));
    h.add_row_and_save(record("a", "d1", None));
    h.add_row_and_save(record("a", "d2", None));
    let saved = h.remove(&record("a", "d1", Some("ignored")));
    assert_eq!(names(&h.records), vec!["a", "b"]);
    assert_eq!(h.records[0].recognition_date, "d2");
    assert_eq!(names(&saved), vec!["b", "a"]);
    let again = h.remove(&record("a", "d1", None));
    assert_eq!(names(&again), vec!["b", "a"]);
}

#[test]
fn add_then_remove_restores_the_history() {
    let mut h = RecognitionHistoryInterface::new(Ok("p".to_string()), Some(vec![])).unwrap();
    h.add_row_and_save(record("a", "d1", None));
    h.add_row_and_save(record("b", "d2", None));
    h.add_row_and_save(record("c", "d3", None));
    h.remove(&record("c", "d3", None));
    assert_eq!(names(&h.records), vec!["b", "a"]);
}

#[test]
fn wipe_and_save_empties_the_history() {
    let mut h = RecognitionHistoryInterface::new(Ok("p".to_string()), Some(vec![])).unwrap();
    h.add_row_and_save(record("a", "d1", None));
    let saved = h.wipe_and_save();
    assert!(saved.is_empty());
    assert!(h.records.is_empty());
    assert_eq!(h.csv_path, "p");
}

#[test]
fn saved_history_reads_back_the_same() {
    let rows = vec![
        Some(record("old", "Sat Aug 17 22:44:43 2024", None)),
        Some(record("same-time-1", "Sun Aug 18 09:00:00 2024", None)),
        Some(record("same-time-2", "Sun Aug 18 09:00:00 2024", None)),
        Some(record("undated", "?", None)),
        Some(record("new", "Mon Aug 19 10:00:00 2024", None)),
    ];
    let h = RecognitionHistoryInterface::new(Ok("p".to_string()), Some(rows)).unwrap();
    let saved = h.save();
    let mut reread = RecognitionHistoryInterface::new(Ok("p".to_string()), None).unwrap();
    reread.load(Some(saved.into_iter().map(Some).collect()));
    assert_eq!(names(&reread.records), names(&h.records));
    assert_eq!(names(&h.records), vec!["new", "same-time-2", "same-time-1", "old", "undated"]);
}

#[test]
fn latest_track_key_is_reads_the_newest_record() {
    let mut h = RecognitionHistoryInterface::new(Ok("p".to_string()), Some(vec![])).unwrap();
    assert!(!h.latest_track_key_is(&"1".to_string()));
    h.add_row_and_save(record("a", "d", Some("1")));
    assert!(h.latest_track_key_is(&"1".to_string()));
    h.add_row_and_save(record("b", "d", None));
    assert!(!h.latest_track_key_is(&"1".to_string()));
}

#[test]
fn duplicate_copies_every_field() {
    let mut r = record("a", "d", Some("k"));
    r.album = Some("al".to_string());
    r.genre = Some("g".to_string());
    r.release_year = Some("1999".to_string());
    let c = r.duplicate();
    assert_eq!(c.song_name, "a");
    assert_eq!(c.album.as_deref(), Some("al"));
    assert_eq!(c.track_key.as_deref(), Some("k"));
    assert_eq!(c.release_year.as_deref(), Some("1999"));
    assert_eq!(c.genre.as_deref(), Some("g"));
    assert_eq!(c.recognition_date, "d");
}
