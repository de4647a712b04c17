use heyo::locks::{LockRow, LockSnapshot};

fn row(wait_event: &str, state: &str, query: &str) -> LockRow {
    LockRow {
        wait_event: wait_event.to_string(),
        state: state.to_string(),
        query: query.to_string(),
    }
}

fn cells(rows: &[LockRow]) -> Vec<(String, String, String)> {
    rows.iter()
        .map(|r| (r.wait_event.clone(), r.state.clone(), r.query.clone()))
        .collect()
}

#[test]
fn new_snapshot_is_an_empty_success() {
    let s = LockSnapshot::new();
    assert!(!s.is_failure());
    assert_eq!(s.len(), 0);
    assert!(s.table().is_empty());
    assert!(s.error_message().is_none());
}

#[test]
fn snapshot_of_a_failed_poll_is_one_sentinel_row() {
    let s = LockSnapshot::from_poll(Err("connection refused".to_string()));
    assert!(s.is_failure());
    assert_eq!(s.len(), 1);
    assert_eq!(
        cells(&s.table()),
        vec![("error".to_string(), "error".to_string(), "connection refused".to_string())]
    );
}

#[test]
fn snapshot_of_a_successful_poll_holds_its_rows_in_order() {
    let s = LockSnapshot::from_poll(Ok(vec![row("a", "b", "c"), row("d", "e", "f")]));
    assert_eq!(s.len(), 2);
    assert_eq!(
        cells(&s.table()),
        vec![
            ("a".to_string(), "b".to_string(), "c".to_string()),
            ("d".to_string(), "e".to_string(), "f".to_string()),
        ]
    );
}

#[test]
fn replace_leaves_nothing_of_the_previous_snapshot() {
    let mut s = LockSnapshot::from_poll(Ok(vec![row("a", "b", "c"), row("d", "e", "f")]));
    s.replace(Err("down".to_string()));
    assert_eq!(s.len(), 1);
    assert_eq!(s.error_message().map(|m| m.as_str()), Some("down"));
    s.replace(Ok(vec![row("x", "y", "z")]));
    assert!(!s.is_failure());
    assert_eq!(cells(&s.table()), vec![("x".to_string(), "y".to_string(), "z".to_string())]);
    s.replace(Ok(Vec::new()));
    assert_eq!(s.len(), 0);
}

#[test]
fn failure_with_empty_message_is_still_a_failure() {
    let s = LockSnapshot::from_poll(Err(String::new()));
    assert!(s.is_failure());
    assert_eq!(cells(&s.table()), vec![("error".to_string(), "error".to_string(), String::new())]);
}
