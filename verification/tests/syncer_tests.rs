use rtk_sync::client::{authorization_header, UploadResult};
use rtk_sync::config::SyncConfig;
use rtk_sync::env::EnvVars;
use rtk_sync::machine::HostFacts;
use rtk_sync::rtkdb::{events_from_rows, CommandRow, RtkEvent};
use rtk_sync::state::{State, Timestamp};
use rtk_sync::syncer::{
    continue_interval, daemon_interval, display_endpoint, mask_token, BatchAction, BatchEvent,
    BatchPhase, BatchRun, SyncError,
};

fn config(dry_run: bool, batch_size: usize) -> SyncConfig {
    SyncConfig {
        db_path: "/tmp/history.db".to_string(),
        state_path: "/tmp/state.json".to_string(),
        endpoint: "http://127.0.0.1:1/api/rtk/events".to_string(),
        token_env: "RTK_SYNC_TOKEN".to_string(),
        token: if dry_run { String::new() } else { "test-token".to_string() },
        machine_id: Some("machine-1".to_string()),
        batch_size,
        interval: 60,
        dry_run,
    }
}

fn host() -> HostFacts {
    HostFacts { hostname: Some("box".into()), env: EnvVars { vars: vec![] }, os: "linux".into(), arch: "x86_64".into() }
}

fn events(ids: &[i64]) -> Vec<RtkEvent> {
    let rows: Vec<CommandRow> = ids
        .iter()
        .map(|id| CommandRow {
            id: *id,
            timestamp: "2026-05-23T10:30:00Z".to_string(),
            original_cmd: "git status".to_string(),
            rtk_cmd: "rtk git status".to_string(),
            input_tokens: 100,
            output_tokens: 25,
            saved_tokens: 75,
            savings_pct_bits: 75.0f64.to_bits(),
            exec_time_ms: 12,
            project_path: "/repo".to_string(),
        })
        .collect();
    events_from_rows(&rows, "machine-1").unwrap()
}

const NOW: Timestamp = Timestamp { seconds: 1_779_532_200, nanos: 0 };

#[test]
fn successful_upload_moves_checkpoint_to_server_max() {
    let mut run = BatchRun::new(config(false, 100), host());
    assert!(matches!(run.step(BatchEvent::Begin), BatchAction::LoadState { ref path } if path == "/tmp/state.json"));
    let action = run.step(BatchEvent::StateLoaded(Ok(State::default())));
    assert!(matches!(action, BatchAction::CheckStateFile { .. }));
    match run.step(BatchEvent::StateFileChecked(false)) {
        BatchAction::SaveState { state, .. } => {
            assert_eq!(state.machine_id.as_deref(), Some("machine-1"));
            assert_eq!(state.last_synced_id, 0);
        }
        other => panic!("unexpected {:?}", other),
    }
    match run.step(BatchEvent::StateSaved(Ok(()))) {
        BatchAction::FetchEvents { after_id, limit, machine_id, db_path } => {
            assert_eq!(after_id, 0);
            assert_eq!(limit, 100);
            assert_eq!(machine_id, "machine-1");
            assert_eq!(db_path, "/tmp/history.db");
        }
        other => panic!("unexpected {:?}", other),
    }
    match run.step(BatchEvent::EventsFetched(Ok(events(&[1, 2])))) {
        BatchAction::Upload { token, events, machine_id, .. } => {
            assert_eq!(token, "test-token");
            assert_eq!(machine_id, "machine-1");
            assert_eq!(events[0].source_id, "machine-1:1");
            assert_eq!(events[1].source_id, "machine-1:2");
        }
        other => panic!("unexpected {:?}", other),
    }
    let answer = UploadResult { accepted: 2, duplicates: 0, max_local_id: 2 };
    match run.step(BatchEvent::Uploaded { result: Ok(answer), finished_at: NOW }) {
        BatchAction::SaveState { state, path } => {
            assert_eq!(path, "/tmp/state.json");
            assert_eq!(state.last_synced_id, 2);
            assert_eq!(state.last_synced_at, Some(NOW));
        }
        other => panic!("unexpected {:?}", other),
    }
    assert!(matches!(run.step(BatchEvent::StateSaved(Ok(()))), BatchAction::Finish(Ok(false))));
    assert_eq!(run.phase, BatchPhase::Done);
}

#[test]
fn failed_upload_ends_batch_without_saving() {
    let mut run = BatchRun::new(config(false, 100), host());
    run.step(BatchEvent::Begin);
    let loaded = State { machine_id: Some("machine-1".into()), last_synced_id: 5, last_synced_at: None };
    run.step(BatchEvent::StateLoaded(Ok(loaded)));
    match run.step(BatchEvent::StateFileChecked(true)) {
        BatchAction::FetchEvents { after_id, .. } => assert_eq!(after_id, 5),
        other => panic!("unexpected {:?}", other),
    }
    run.step(BatchEvent::EventsFetched(Ok(events(&[6]))));
    let action = run.step(BatchEvent::Uploaded {
        result: Err(SyncError::Upload("upload failed with status 500".into())),
        finished_at: NOW,
    });
    assert!(matches!(action, BatchAction::Finish(Err(SyncError::Upload(_)))));
}

#[test]
fn stale_server_answer_is_an_error() {
    let mut run = BatchRun::new(config(false, 100), host());
    run.step(BatchEvent::Begin);
    let loaded = State { machine_id: None, last_synced_id: 10, last_synced_at: None };
    run.step(BatchEvent::StateLoaded(Ok(loaded)));
    run.step(BatchEvent::StateFileChecked(true));
    run.step(BatchEvent::EventsFetched(Ok(events(&[11, 12]))));
    let answer = UploadResult { accepted: 0, duplicates: 2, max_local_id: 10 };
    let action = run.step(BatchEvent::Uploaded { result: Ok(answer), finished_at: NOW });
    assert!(matches!(
        action,
        BatchAction::Finish(Err(SyncError::CheckpointNotAdvanced { max_local_id: 10, checkpoint: 10 }))
    ));
}

#[test]
fn dry_run_reports_without_upload_or_state_write() {
    let mut run = BatchRun::new(config(true, 100), host());
    run.step(BatchEvent::Begin);
    let action = run.step(BatchEvent::StateLoaded(Ok(State::default())));
    assert!(matches!(action, BatchAction::FetchEvents { .. }));
    match run.step(BatchEvent::EventsFetched(Ok(events(&[1, 2])))) {
        BatchAction::ReportDryRun { events } => assert_eq!(events.len(), 2),
        other => panic!("unexpected {:?}", other),
    }
    assert!(matches!(run.step(BatchEvent::DryRunReported(Ok(()))), BatchAction::Finish(Ok(false))));
}

#[test]
fn empty_fetch_finishes_quietly_and_full_batch_asks_for_more() {
    let mut run = BatchRun::new(config(false, 2), host());
    run.step(BatchEvent::Begin);
    run.step(BatchEvent::StateLoaded(Ok(State::default())));
    run.step(BatchEvent::StateFileChecked(true));
    assert!(matches!(run.step(BatchEvent::EventsFetched(Ok(vec![]))), BatchAction::Finish(Ok(false))));

    let mut run = BatchRun::new(config(false, 2), host());
    run.step(BatchEvent::Begin);
    run.step(BatchEvent::StateLoaded(Ok(State::default())));
    run.step(BatchEvent::StateFileChecked(true));
    run.step(BatchEvent::EventsFetched(Ok(events(&[1, 2]))));
    let answer = UploadResult { accepted: 2, duplicates: 0, max_local_id: 2 };
    run.step(BatchEvent::Uploaded { result: Ok(answer), finished_at: NOW });
    assert!(matches!(run.step(BatchEvent::StateSaved(Ok(()))), BatchAction::Finish(Ok(true))));
}

#[test]
fn out_of_order_event_ends_batch() {
    let mut run = BatchRun::new(config(false, 2), host());
    assert!(matches!(run.step(BatchEvent::StateFileChecked(true)), BatchAction::Finish(Err(SyncError::OutOfOrder))));
    assert!(matches!(run.step(BatchEvent::Begin), BatchAction::Finish(Err(SyncError::OutOfOrder))));
}

#[test]
fn state_load_failure_ends_batch() {
    let mut run = BatchRun::new(config(false, 2), host());
    run.step(BatchEvent::Begin);
    let action = run.step(BatchEvent::StateLoaded(Err(SyncError::StateLoad("bad json".into()))));
    assert!(matches!(action, BatchAction::Finish(Err(SyncError::StateLoad(_)))));
}

#[test]
fn masks_tokens() {
    assert_eq!(mask_token(""), "<unset>");
    assert_eq!(mask_token("short"), "***");
    assert_eq!(mask_token("12345678"), "***");
    assert_eq!(mask_token("abcdefghij"), "abcd***ghij");
}

#[test]
fn displays_endpoint() {
    assert_eq!(display_endpoint(""), "<unset>");
    assert_eq!(display_endpoint("https://x"), "https://x");
}

#[test]
fn loop_decisions() {
    assert!(continue_interval(&Ok(true)));
    assert!(!continue_interval(&Ok(false)));
    assert!(!continue_interval(&Err(SyncError::OutOfOrder)));
    assert_eq!(daemon_interval(Some(&config(false, 1)), 5), 60);
    assert_eq!(daemon_interval(None, 5), 5);
}

#[test]
fn bearer_header() {
    assert_eq!(authorization_header("test-token"), "Bearer test-token");
}

#[test]
fn answer_below_loaded_checkpoint_is_not_saved() {
    let loaded = State { machine_id: Some("m".into()), last_synced_id: 5, last_synced_at: None };
    let mut run = BatchRun::new(SyncConfig { machine_id: Some("m".into()), ..config(false, 2) }, host());
    run.step(BatchEvent::Begin);
    run.step(BatchEvent::StateLoaded(Ok(loaded)));
    assert_eq!(run.checkpoint, 5);
    run.step(BatchEvent::StateFileChecked(true));
    match run.step(BatchEvent::EventsFetched(Ok(events(&[6, 7])))) {
        BatchAction::Upload { machine_id, .. } => assert_eq!(machine_id, "m"),
        other => panic!("unexpected {:?}", other),
    }
    assert_eq!(run.checkpoint, 5);
    assert_eq!(run.machine_id, "m");
    assert_eq!(run.fetched, 2);
    let answer = UploadResult { accepted: 2, duplicates: 0, max_local_id: 3 };
    let action = run.step(BatchEvent::Uploaded { result: Ok(answer), finished_at: NOW });
    assert!(matches!(
        action,
        BatchAction::Finish(Err(SyncError::CheckpointNotAdvanced { max_local_id: 3, checkpoint: 5 }))
    ));
}

#[test]
fn full_batch_reports_more_may_wait() {
    let mut run = BatchRun::new(config(false, 2), host());
    run.step(BatchEvent::Begin);
    let loaded = State { machine_id: Some("machine-1".into()), last_synced_id: 5, last_synced_at: None };
    run.step(BatchEvent::StateLoaded(Ok(loaded)));
    run.step(BatchEvent::StateFileChecked(true));
    run.step(BatchEvent::EventsFetched(Ok(events(&[6, 7]))));
    let answer = UploadResult { accepted: 2, duplicates: 0, max_local_id: 7 };
    match run.step(BatchEvent::Uploaded { result: Ok(answer), finished_at: NOW }) {
        BatchAction::SaveState { state, .. } => {
            assert_eq!(state.last_synced_id, 7);
            assert_eq!(state.machine_id.as_deref(), Some("machine-1"));
        }
        other => panic!("unexpected {:?}", other),
    }
    assert!(matches!(run.step(BatchEvent::StateSaved(Ok(()))), BatchAction::Finish(Ok(true))));
}
