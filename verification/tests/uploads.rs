use meson::error::FileStoreError;
use meson::install::{
    clear_blob_store_for_test, clear_blob_stores_for_test, clear_quarantine_store_for_test,
    install_blob_store, install_quarantine_store, installed_blob_store,
    installed_quarantine_store, BlobInstalls,
};
use meson::keys::validate_object_key;
use meson::model::{FileFileStatus, UnixTime};
use meson::upload::{
    ensure_file_available, finish_put_new_object, generate_storage_key, initial_file_status,
    plan_put_new_object, upload_store, FileUploadError,
};

#[test]
fn generate_storage_key_flat() {
    let key = generate_storage_key("png").expect("key");
    assert!(key.contains('.'));
    assert!(!key.contains('/'));
    assert!(validate_object_key(&key).is_ok());
    let ext = key.rsplit('.').next().expect("ext");
    assert_eq!(ext, "png");
}

#[test]
fn generate_storage_key_rejects_bad_ext() {
    assert!(matches!(generate_storage_key(""), Err(FileUploadError::InvalidExtension)));
    assert!(matches!(generate_storage_key("a/b"), Err(FileUploadError::InvalidExtension)));
    assert!(matches!(generate_storage_key(".."), Err(FileUploadError::InvalidExtension)));
    assert!(matches!(generate_storage_key("tar.gz"), Err(FileUploadError::InvalidExtension)));
}

#[test]
fn generate_storage_key_normalizes_and_is_random() {
    let key = generate_storage_key("  .jpg ").expect("key");
    assert!(key.ends_with(".jpg"));
    assert_eq!(key.len(), 36 + 4);
    assert_eq!(key.matches('-').count(), 4);
    assert_eq!(key.as_bytes()[14], b'4');
    assert!(matches!(key.as_bytes()[19], b'8' | b'9' | b'a' | b'b'));
    let other = generate_storage_key("jpg").expect("key");
    assert_ne!(key, other);
    assert!(matches!(generate_storage_key("a\\b"), Err(FileUploadError::InvalidExtension)));
}

#[test]
fn install_and_clear_available_round_trip() {
    let mut slots: BlobInstalls<&str> = BlobInstalls::new();
    clear_blob_stores_for_test(&mut slots);
    assert!(matches!(installed_blob_store(&slots), Err(FileStoreError::BlobStoreNotInstalled)));
    install_blob_store(&mut slots, "tmp").unwrap();
    assert!(installed_blob_store(&slots).is_ok());
    clear_blob_store_for_test(&mut slots);
    assert!(matches!(installed_blob_store(&slots), Err(FileStoreError::BlobStoreNotInstalled)));
}

#[test]
fn install_and_clear_quarantine_round_trip() {
    let mut slots: BlobInstalls<&str> = BlobInstalls::new();
    clear_blob_stores_for_test(&mut slots);
    assert!(matches!(
        installed_quarantine_store(&slots),
        Err(FileStoreError::QuarantineStoreNotInstalled)
    ));
    install_quarantine_store(&mut slots, "tmp").unwrap();
    assert!(installed_quarantine_store(&slots).is_ok());
    clear_quarantine_store_for_test(&mut slots);
    assert!(matches!(
        installed_quarantine_store(&slots),
        Err(FileStoreError::QuarantineStoreNotInstalled)
    ));
}

#[test]
fn installs_are_independent_and_replaced() {
    let mut slots: BlobInstalls<u32> = BlobInstalls::new();
    install_blob_store(&mut slots, 1).unwrap();
    install_quarantine_store(&mut slots, 2).unwrap();
    install_blob_store(&mut slots, 3).unwrap();
    assert_eq!(*installed_blob_store(&slots).unwrap(), 3);
    assert_eq!(*installed_quarantine_store(&slots).unwrap(), 2);
    clear_blob_store_for_test(&mut slots);
    assert_eq!(*installed_quarantine_store(&slots).unwrap(), 2);
}

#[test]
fn uploads_go_to_quarantine_when_scanning() {
    let mut slots: BlobInstalls<&str> = BlobInstalls::new();
    assert!(matches!(upload_store(true, &slots), Err(FileUploadError::BlobStoreNotInstalled)));
    install_blob_store(&mut slots, "available").unwrap();
    assert!(matches!(upload_store(true, &slots), Err(FileUploadError::BlobStoreNotInstalled)));
    assert_eq!(*upload_store(false, &slots).unwrap(), "available");
    install_quarantine_store(&mut slots, "quarantine").unwrap();
    assert_eq!(*upload_store(true, &slots).unwrap(), "quarantine");
    assert_eq!(initial_file_status(true), FileFileStatus::PendingVirusScan);
    assert_eq!(initial_file_status(false), FileFileStatus::Available);
}

#[test]
fn put_plan_checks_extension_before_install() {
    let slots: BlobInstalls<&str> = BlobInstalls::new();
    assert!(matches!(
        plan_put_new_object("tar.gz", true, &slots),
        Err(FileUploadError::InvalidExtension)
    ));
    assert!(matches!(
        plan_put_new_object("png", true, &slots),
        Err(FileUploadError::BlobStoreNotInstalled)
    ));
    let mut slots = slots;
    install_quarantine_store(&mut slots, "q").unwrap();
    let (key, store) = plan_put_new_object("png", true, &slots).unwrap();
    assert!(key.ends_with(".png"));
    assert_eq!(*store, "q");
}

#[test]
fn put_finish_reports_size_or_store_error() {
    let ok = finish_put_new_object("k.png".to_string(), 5, Ok(())).unwrap();
    assert_eq!(ok.storage_path, "k.png");
    assert_eq!(ok.size_bytes, 5);
    assert!(matches!(
        finish_put_new_object("k.png".to_string(), 5, Err(FileStoreError::Unauthorized)),
        Err(FileUploadError::Store(FileStoreError::Unauthorized))
    ));
}

#[test]
fn from_install_maps_missing_installs() {
    assert!(matches!(
        FileUploadError::from_install(FileStoreError::QuarantineStoreNotInstalled),
        FileUploadError::BlobStoreNotInstalled
    ));
    assert!(matches!(
        FileUploadError::from_install(FileStoreError::InvalidKey),
        FileUploadError::Store(FileStoreError::InvalidKey)
    ));
}

#[test]
fn only_available_bytes_are_readable() {
    assert!(ensure_file_available(FileFileStatus::Available).is_ok());
    match ensure_file_available(FileFileStatus::PendingVirusScan) {
        Err(FileStoreError::NotAvailable { status: Some(s) }) => assert_eq!(s, "pending_virus_scan"),
        other => panic!("unexpected {other:?}"),
    }
    assert!(ensure_file_available(FileFileStatus::Quarantined).is_err());
}

#[test]
fn opt_out_available_immediate() {
    let scanning = meson::env::virus_scan_enabled(Some("off"));
    assert!(!scanning);
    let mut slots: BlobInstalls<&str> = BlobInstalls::new();
    install_blob_store(&mut slots, "available").unwrap();
    install_quarantine_store(&mut slots, "quarantine").unwrap();
    let (key, store) = plan_put_new_object("png", scanning, &slots).unwrap();
    assert!(key.ends_with(".png"));
    assert_eq!(*store, "available");
    let put = finish_put_new_object(key.clone(), 2, Ok(())).unwrap();
    assert_eq!(put.storage_path, key);
    assert_eq!(initial_file_status(scanning), FileFileStatus::Available);
    assert!(ensure_file_available(initial_file_status(scanning)).is_ok());
}

#[test]
fn quarantine_upload_pending_then_promote_happy() {
    let scanning = meson::env::virus_scan_enabled(Some("on"));
    assert!(scanning);
    let mut slots: BlobInstalls<&str> = BlobInstalls::new();
    install_blob_store(&mut slots, "available").unwrap();
    install_quarantine_store(&mut slots, "quarantine").unwrap();
    let (key, store) = plan_put_new_object("png", scanning, &slots).unwrap();
    assert_eq!(*store, "quarantine");
    let status = initial_file_status(scanning);
    assert_eq!(status, FileFileStatus::PendingVirusScan);
    assert!(matches!(
        ensure_file_available(status),
        Err(FileStoreError::NotAvailable { .. })
    ));
    let (mut p, _) = meson::promote::Promotion::new(&key);
    p.step(meson::promote::PromoteEvent::Got(Ok(b"PNG-clean".to_vec())));
    p.step(meson::promote::PromoteEvent::Stored(Ok(())));
    match p.step(meson::promote::PromoteEvent::Removed(Ok(()))) {
        meson::promote::PromoteAction::Done(Ok(path)) => assert_eq!(path, key),
        other => panic!("unexpected {other:?}"),
    }
    assert!(ensure_file_available(FileFileStatus::Available).is_ok());
}

#[test]
fn stored_row_carries_meta_and_put() {
    let meta = meson::upload::FileCreateMeta {
        file_name: "receipt-1.png".to_string(),
        file_extension: "png".to_string(),
        mime_type: "image/png".to_string(),
        uploaded_by: meson::model::RecordId::new("user", "u1"),
    };
    let put = finish_put_new_object("k.png".to_string(), 5, Ok(())).unwrap();
    let row = meson::upload::stored_file_row(meta, put, FileFileStatus::PendingVirusScan, UnixTime { secs: 1_700_000_000, nanos: 250 });
    assert!(row.id.is_none());
    assert_eq!(row.file_name, "receipt-1.png");
    assert_eq!(row.file_extension, "png");
    assert_eq!(row.mime_type, "image/png");
    assert_eq!(row.storage_path, "k.png");
    assert_eq!(row.size_bytes, 5);
    assert_eq!(row.file_status, FileFileStatus::PendingVirusScan);
    assert_eq!(row.uploaded_by.to_text(), "user:u1");
    assert_eq!(row.uploaded_at, UnixTime { secs: 1_700_000_000, nanos: 250 });
}

#[test]
fn create_fails_after_put_sad() {
    match meson::upload::create_outcome::<u32>(Err("policy deny".to_string())) {
        Err(FileUploadError::Valence(m)) => assert_eq!(m, "policy deny"),
        other => panic!("expected Valence deny after put, got {other:?}"),
    }
    assert_eq!(meson::upload::create_outcome::<u32>(Ok(7)).unwrap(), 7);
}
