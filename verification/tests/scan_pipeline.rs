use meson::model::{FileFileStatus, FileModel, RecordId, UnixTime};
use meson::pipeline::{
    should_publish_file_updated, sweep_cutoff, sweep_targets, virus_scan_key, ScanTaskAction,
    ScanTaskEvent, ScanTaskOutcome, VirusScanTask,
};
use meson::readiness::FileScanSnapshot;
use meson::scan::ScanVerdict;

fn snapshot(status: FileFileStatus) -> FileScanSnapshot {
    FileScanSnapshot {
        storage_path: "k.png".to_string(),
        file_status: status,
        uploaded_by: RecordId::new("user", "alice"),
    }
}

#[test]
fn clean_file_is_promoted_then_committed_available() {
    let (mut t, first) = VirusScanTask::new("e2e_meson_file", "f1");
    assert!(matches!(first, ScanTaskAction::LoadFile));
    match t.step(ScanTaskEvent::Loaded(Ok(snapshot(FileFileStatus::PendingVirusScan)))) {
        ScanTaskAction::GetQuarantine(p) => assert_eq!(p, "k.png"),
        other => panic!("unexpected {other:?}"),
    }
    assert!(matches!(t.step(ScanTaskEvent::Fetched(Ok(b"PNG".to_vec()))), ScanTaskAction::Scan(_)));
    match t.step(ScanTaskEvent::Scanned(Ok(ScanVerdict::Clean))) {
        ScanTaskAction::Promote(p) => assert_eq!(p, "k.png"),
        other => panic!("unexpected {other:?}"),
    }
    match t.step(ScanTaskEvent::Promoted(Ok("k.png".to_string()))) {
        ScanTaskAction::CommitAvailable(p) => assert_eq!(p, "k.png"),
        other => panic!("unexpected {other:?}"),
    }
    match t.step(ScanTaskEvent::Committed(Ok(()))) {
        ScanTaskAction::Publish(ev) => {
            assert_eq!(ev.user_id, "user:alice");
            assert_eq!(ev.file_id, "f1");
            assert_eq!(ev.file_status, "available");
        }
        other => panic!("unexpected {other:?}"),
    }
    assert!(matches!(
        t.step(ScanTaskEvent::Published),
        ScanTaskAction::Done(Ok(ScanTaskOutcome::Promoted))
    ));
}

#[test]
fn infected_scanner_verdict() {
    let (mut t, _) = VirusScanTask::new("receipt_scan", "f2");
    t.step(ScanTaskEvent::Loaded(Ok(snapshot(FileFileStatus::PendingVirusScan))));
    t.step(ScanTaskEvent::Fetched(Ok(b"X5O!".to_vec())));
    assert!(matches!(
        t.step(ScanTaskEvent::Scanned(Ok(ScanVerdict::Infected { reason_class: Some("test") }))),
        ScanTaskAction::CommitQuarantined
    ));
    match t.step(ScanTaskEvent::Committed(Ok(()))) {
        ScanTaskAction::Publish(ev) => assert_eq!(ev.file_status, "quarantined"),
        other => panic!("unexpected {other:?}"),
    }
    assert!(matches!(
        t.step(ScanTaskEvent::Published),
        ScanTaskAction::Done(Ok(ScanTaskOutcome::Quarantined))
    ));
}

#[test]
fn terminal_rows_are_skipped() {
    for status in [FileFileStatus::Available, FileFileStatus::Quarantined] {
        let (mut t, _) = VirusScanTask::new("t", "f");
        assert!(matches!(
            t.step(ScanTaskEvent::Loaded(Ok(snapshot(status)))),
            ScanTaskAction::Done(Ok(ScanTaskOutcome::AlreadyTerminal))
        ));
    }
}

#[test]
fn publish_skips_system_and_empty_owner() {
    assert!(!should_publish_file_updated(""));
    assert!(!should_publish_file_updated("system"));
    assert!(should_publish_file_updated("user:alice"));
}

#[test]
fn enqueue_key_shape() {
    assert_eq!(virus_scan_key("e2e_meson_file", "abc"), "virus_scan:e2e_meson_file:abc");
}

fn at(secs: i64, nanos: u32) -> UnixTime {
    UnixTime { secs, nanos }
}

fn row(id: Option<(&str, &str)>, status: FileFileStatus, uploaded_at: UnixTime) -> FileModel {
    FileModel {
        id: id.map(|(t, i)| RecordId::new(t, i)),
        file_name: "x.png".to_string(),
        file_extension: "png".to_string(),
        mime_type: "image/png".to_string(),
        size_bytes: 3,
        storage_path: "k.png".to_string(),
        file_status: status,
        uploaded_by: RecordId::new("user", "alice"),
        uploaded_at,
    }
}

#[test]
fn sweeper_selects_old_rows_with_ids() {
    let pending = FileFileStatus::PendingVirusScan;
    let now = at(10_000, 500);
    let cutoff = sweep_cutoff(now, None);
    assert_eq!(cutoff, at(9_700, 500));
    assert_eq!(sweep_cutoff(now, Some(60)), at(9_940, 500));
    let rows = vec![
        row(Some(("e2e_meson_file", "old")), pending, at(9_000, 0)),
        row(Some(("receipt_scan", "new")), pending, at(9_900, 0)),
        row(None, pending, at(1, 0)),
        row(Some(("receipt_scan", "edge")), pending, at(9_700, 500)),
        row(Some(("receipt_scan", "same-second")), pending, at(9_700, 499)),
        row(Some(("receipt_scan", "done")), FileFileStatus::Available, at(5, 0)),
        row(Some(("receipt_scan", "bad")), FileFileStatus::Quarantined, at(5, 0)),
        row(Some(("receipt_scan", "older")), pending, at(5, 0)),
    ];
    let targets = sweep_targets(&rows, cutoff);
    assert_eq!(
        targets,
        vec![
            ("e2e_meson_file".to_string(), "old".to_string()),
            ("receipt_scan".to_string(), "same-second".to_string()),
            ("receipt_scan".to_string(), "older".to_string()),
        ]
    );
}
