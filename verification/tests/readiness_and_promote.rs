use meson::error::FileStoreError;
use meson::install::{install_blob_store, install_quarantine_store, BlobInstalls};
use meson::model::{FileFileStatus, RecordId};
use meson::promote::{promote_stores, PromoteAction, PromoteError, PromoteEvent, Promotion};
use meson::readiness::{
    ensure_readable_for_processing, poll_interval_ms, wait_object_step, wait_status_step,
    FileScanSnapshot, ObjectPoll, ReadinessError, StatusPoll,
};

#[test]
fn ensure_quarantined_sad() {
    let snap = FileScanSnapshot {
        storage_path: "x.png".into(),
        file_status: FileFileStatus::Quarantined,
        uploaded_by: RecordId::new("user", "u"),
    };
    let err = ensure_readable_for_processing(&snap).unwrap_err();
    assert!(matches!(err, ReadinessError::NotAvailable { .. }));
}

#[test]
fn ensure_available_ok() {
    let snap = FileScanSnapshot {
        storage_path: "x.png".into(),
        file_status: FileFileStatus::Available,
        uploaded_by: RecordId::new("user", "u"),
    };
    assert!(ensure_readable_for_processing(&snap).is_ok());
}

#[test]
fn wait_steps() {
    assert!(matches!(wait_status_step(FileFileStatus::Available, true), StatusPoll::Ready));
    match wait_status_step(FileFileStatus::Quarantined, false) {
        StatusPoll::Fail(ReadinessError::NotAvailable { status: Some(s) }) => assert_eq!(s, "quarantined"),
        other => panic!("unexpected {other:?}"),
    }
    assert!(matches!(wait_status_step(FileFileStatus::PendingVirusScan, false), StatusPoll::Sleep));
    assert!(matches!(
        wait_status_step(FileFileStatus::VirusScanComplete, true),
        StatusPoll::Fail(ReadinessError::Timeout)
    ));
    assert_eq!(poll_interval_ms(), 50);
}

#[test]
fn wait_object_timeout_sad() {
    assert!(matches!(wait_object_step(Err(FileStoreError::NotFound), false), ObjectPoll::Sleep));
    assert!(matches!(
        wait_object_step(Err(FileStoreError::NotFound), true),
        ObjectPoll::Fail(ReadinessError::Timeout)
    ));
    assert!(matches!(
        wait_object_step(Err(FileStoreError::Unauthorized), false),
        ObjectPoll::Fail(ReadinessError::Store(FileStoreError::Unauthorized))
    ));
    match wait_object_step(Ok(b"abc".to_vec()), true) {
        ObjectPoll::Ready(b) => assert_eq!(b, b"abc"),
        other => panic!("unexpected {other:?}"),
    }
}

#[test]
fn promote_quarantine_not_installed_sad() {
    let mut slots: BlobInstalls<&str> = BlobInstalls::new();
    install_blob_store(&mut slots, "a").unwrap();
    let err = promote_stores(&slots).unwrap_err();
    assert!(
        matches!(err, PromoteError::Store(FileStoreError::QuarantineStoreNotInstalled)),
        "got {err:?}"
    );
    let mut only_q: BlobInstalls<&str> = BlobInstalls::new();
    install_quarantine_store(&mut only_q, "q").unwrap();
    assert!(matches!(
        promote_stores(&only_q),
        Err(PromoteError::Store(FileStoreError::BlobStoreNotInstalled))
    ));
    install_blob_store(&mut only_q, "a").unwrap();
    assert_eq!(promote_stores(&only_q).unwrap(), (&"q", &"a"));
}

#[test]
fn promote_happy() {
    let (mut p, first) = Promotion::new("x.png");
    assert!(matches!(first, PromoteAction::GetQuarantine));
    match p.step(PromoteEvent::Got(Ok(b"clean".to_vec()))) {
        PromoteAction::PutAvailable(b) => assert_eq!(b, b"clean"),
        other => panic!("unexpected {other:?}"),
    }
    assert!(matches!(p.step(PromoteEvent::Stored(Ok(()))), PromoteAction::DeleteQuarantine));
    match p.step(PromoteEvent::Removed(Ok(()))) {
        PromoteAction::Done(Ok(k)) => assert_eq!(k, "x.png"),
        other => panic!("unexpected {other:?}"),
    }
}

#[test]
fn promote_failures() {
    let (mut p, _) = Promotion::new("x.png");
    assert!(matches!(
        p.step(PromoteEvent::Got(Err(FileStoreError::NotFound))),
        PromoteAction::Done(Err(PromoteError::Store(FileStoreError::NotFound)))
    ));
    let (mut p, _) = Promotion::new("x.png");
    p.step(PromoteEvent::Got(Ok(vec![1])));
    assert!(matches!(
        p.step(PromoteEvent::Stored(Err(FileStoreError::Unauthorized))),
        PromoteAction::Done(Err(PromoteError::Store(FileStoreError::Unauthorized)))
    ));
    let (mut p, _) = Promotion::new("x.png");
    p.step(PromoteEvent::Got(Ok(vec![1])));
    p.step(PromoteEvent::Stored(Ok(())));
    assert!(matches!(
        p.step(PromoteEvent::Removed(Err(FileStoreError::io_http(500)))),
        PromoteAction::Done(Err(PromoteError::Partial { .. }))
    ));
}
