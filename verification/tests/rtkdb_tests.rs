use rtk_sync::rtkdb::{build_event, events_from_rows, has_table, source_id, CommandRow, RowError};
use rtk_sync::state::Timestamp;

fn row(id: i64, timestamp: &str) -> CommandRow {
    CommandRow {
        id,
        timestamp: timestamp.to_string(),
        original_cmd: "git status".to_string(),
        rtk_cmd: "rtk git status".to_string(),
        input_tokens: 100,
        output_tokens: 25,
        saved_tokens: 75,
        savings_pct_bits: 75.0f64.to_bits(),
        exec_time_ms: 12,
        project_path: "/repo".to_string(),
    }
}

#[test]
fn maps_command_rows_to_events() {
    let events = events_from_rows(&vec![row(7, "2026-05-23T10:30:00Z")], "machine-1").expect("fetch events");

    assert_eq!(events.len(), 1);
    assert_eq!(events[0].source_id, "machine-1:7");
    assert_eq!(events[0].command, "rtk git status");
    assert_eq!(events[0].original_cmd, "git status");
    assert_eq!(events[0].saved_tokens, 75);
    assert_eq!(f64::from_bits(events[0].savings_pct_bits), 75.0);
    assert_eq!(events[0].created_at, Timestamp { seconds: 1779532200, nanos: 0 });
}

#[test]
fn timestamps_with_offsets_are_converted_to_utc() {
    let events = events_from_rows(&vec![row(1, "2026-05-23T12:30:00.5+02:00")], "m").unwrap();
    assert_eq!(events[0].created_at, Timestamp { seconds: 1779532200, nanos: 500_000_000 });
}

#[test]
fn first_bad_timestamp_fails_the_batch() {
    let rows = vec![row(1, "2026-05-23T10:30:00Z"), row(2, "yesterday"), row(3, "also bad")];
    assert_eq!(events_from_rows(&rows, "m").unwrap_err(), RowError::BadTimestamp { local_id: 2 });
    assert!(events_from_rows(&vec![], "m").unwrap().is_empty());
}

#[test]
fn build_event_uses_the_parsed_time() {
    let r = row(5, "ignored");
    let at = Timestamp { seconds: 42, nanos: 1 };
    let e = build_event(&r, "m", Some(at)).unwrap();
    assert_eq!(e.created_at, at);
    assert_eq!(e.machine_id, "m");
    assert_eq!(e.local_id, 5);
    assert_eq!(e.project_path, "/repo");
    assert_eq!(build_event(&r, "m", None).unwrap_err(), RowError::BadTimestamp { local_id: 5 });
}

#[test]
fn source_ids_print_ids_in_decimal() {
    assert_eq!(source_id("m", 0), "m:0");
    assert_eq!(source_id("m", -15), "m:-15");
    assert_eq!(source_id("m", i64::MAX), format!("m:{}", i64::MAX));
    assert_eq!(source_id("m", i64::MIN), format!("m:{}", i64::MIN));
}

#[test]
fn finds_tables_by_name() {
    let tables = vec!["commands".to_string(), "parse_failures".to_string()];
    assert!(has_table(&tables, "commands"));
    assert!(!has_table(&tables, "command"));
    assert!(!has_table(&vec![], "commands"));
}
