use parcel_tracker::history::{history_batch, history_group, should_record_position, HistoryEntry, HISTORY_BATCH_SIZE, HISTORY_BLOCK_MS, HISTORY_FLUSH_SECS};

fn entry(p: Option<&str>, d: Option<&str>, t: Option<u64>, s: Option<&str>) -> HistoryEntry {
    HistoryEntry {
        parcel_id: p.map(|x| x.to_string()),
        driver_id: d.map(|x| x.to_string()),
        timestamp: t,
        status: s.map(|x| x.to_string()),
    }
}

#[test]
fn first_position_is_recorded() {
    assert!(should_record_position(Some("a"), None));
    assert!(should_record_position(None, None));
}

#[test]
fn repeated_position_is_skipped() {
    assert!(!should_record_position(Some("a"), Some(Some("a"))));
    assert!(should_record_position(Some("b"), Some(Some("a"))));
    assert!(should_record_position(None, Some(Some("a"))));
    // an entry without payload compares as the empty text
    assert!(!should_record_position(Some(""), Some(None)));
    assert!(should_record_position(Some("a"), Some(None)));
}

#[test]
fn read_settings() {
    assert_eq!(history_group(), "history");
    assert_eq!(HISTORY_BATCH_SIZE, 1000);
    assert_eq!(HISTORY_BLOCK_MS, 5000);
    assert_eq!(HISTORY_FLUSH_SECS, 60);
}

#[test]
fn empty_reads_insert_nothing() {
    assert!(history_batch(&vec![]).is_none());
    assert!(history_batch(&vec![vec![], vec![]]).is_none());
}

#[test]
fn batch_columns_in_order_with_defaults() {
    let keys = vec![
        vec![entry(Some("p1"), Some("d1"), Some(10), Some("in_transit"))],
        vec![],
        vec![
            entry(None, Some("d2"), None, None),
            entry(Some("p3"), None, Some(u64::MAX), Some("nearby")),
        ],
    ];
    let b = history_batch(&keys).unwrap();
    assert_eq!(b.parcel_ids, vec!["p1", "", "p3"]);
    assert_eq!(b.driver_ids, vec!["d1", "d2", ""]);
    assert_eq!(b.timestamps, vec![10, 0, -1]);
    assert_eq!(b.statuses, vec!["in_transit", "", "nearby"]);
}
