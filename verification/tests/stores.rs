use meson::env::{virus_scan_enabled, MesonEnv};
use meson::error::{ErrorSource, FileStoreError, SourceKind};
use meson::factory::{blob_store_from_env, blob_stores_from_env, BlobStore, BlobStoreConfigError};
use meson::local::LocalDiskBlobStore;
use meson::rustfs::{classify_transport_error, transport_error_source, HttpMethod, RustFsBlobStore};

fn store() -> RustFsBlobStore {
    RustFsBlobStore::new(
        "http://127.0.0.1:9000/".to_string(),
        "/bucket/".to_string(),
        "k".to_string(),
        "s".to_string(),
        "us-east-1".to_string(),
    )
    .expect("client")
}

#[test]
fn debug_redacts_credentials() {
    let store = RustFsBlobStore::new(
        "http://127.0.0.1:9000".to_string(),
        "bucket".to_string(),
        "AKIASECRETACCESS".to_string(),
        "wJalrXUtnFEMI/K7MDENG/bPxRfiCYEXAMPLEKEY".to_string(),
        "us-east-1".to_string(),
    )
    .expect("client");
    let dbg = store.debug_text();
    assert!(dbg.contains("***"));
    assert!(!dbg.contains("AKIASECRETACCESS"));
    assert!(!dbg.contains("wJalrXUtnFEMI"));
}

#[test]
fn debug_text_shape() {
    let store = RustFsBlobStore::new(
        "http://127.0.0.1:9000/".to_string(),
        "bucket".to_string(),
        "k".to_string(),
        "s".to_string(),
        "us-east-1".to_string(),
    )
    .expect("client");
    assert_eq!(
        store.debug_text(),
        "RustFsBlobStore { endpoint: \"http://127.0.0.1:9000\", bucket: \"bucket\", \
         access_key: \"***\", secret_key: \"***\", region: \"us-east-1\", \
         max_object_bytes: None, .. }"
    );
    let capped = store.with_max_object_bytes(Some(4096));
    assert!(capped.debug_text().ends_with("max_object_bytes: Some(4096), .. }"));
    let other = RustFsBlobStore::new(
        "http://127.0.0.1:9000".to_string(),
        "bucket".to_string(),
        "another-key".to_string(),
        "another-secret".to_string(),
        "us-east-1".to_string(),
    )
    .expect("client")
    .with_max_object_bytes(Some(4096));
    assert_eq!(capped.debug_text(), other.debug_text());
}

#[test]
fn max_object_bytes_rejects_put_without_network() {
    let store = RustFsBlobStore::new(
        "http://127.0.0.1:9".to_string(),
        "bucket".to_string(),
        "k".to_string(),
        "s".to_string(),
        "us-east-1".to_string(),
    )
    .expect("client")
    .with_max_object_bytes(Some(4));
    let err = store.put_request("ok.bin", b"12345").err().expect("oversize");
    assert!(matches!(err, FileStoreError::Io { .. }));
    assert_eq!(err.message(), "storage I/O error");
    match err {
        FileStoreError::Io { source: Some(s), .. } => {
            assert_eq!(s.message, "object exceeds max_object_bytes (4)")
        }
        other => panic!("unexpected {other:?}"),
    }
    assert!(store.put_request("ok.bin", b"1234").is_ok());
}

#[test]
fn meson_rustfs_invalid_key_no_network() {
    let store = store();
    assert!(matches!(store.put_request("../x", b"x").err(), Some(FileStoreError::InvalidKey)));
    assert!(matches!(store.get_request("a/b").err(), Some(FileStoreError::InvalidKey)));
    assert!(matches!(store.delete_request("a/b").err(), Some(FileStoreError::InvalidKey)));
}

#[test]
fn rustfs_urls_and_signed_requests() {
    let store = store();
    assert_eq!(store.object_url("a.png"), "http://127.0.0.1:9000/bucket/a.png");
    assert_eq!(store.bucket_url(), "http://127.0.0.1:9000/bucket");
    let put = store.put_request("a.png", b"hello").unwrap();
    assert_eq!(put.method, HttpMethod::Put);
    assert_eq!(put.url, "http://127.0.0.1:9000/bucket/a.png");
    assert_eq!(put.content_type, Some("application/octet-stream"));
    assert_eq!(put.body, b"hello");
    assert!(put.authorization.contains("SignedHeaders=content-type;host;x-amz-content-sha256;x-amz-date"));
    assert_eq!(put.content_sha256.len(), 64);
    let get = store.get_request("a.png").unwrap();
    assert_eq!(get.method, HttpMethod::Get);
    assert!(get.content_type.is_none());
    assert!(get.authorization.contains("SignedHeaders=host;x-amz-content-sha256;x-amz-date"));
    let bucket = store.ensure_bucket_request().expect("clock");
    assert_eq!(bucket.url, "http://127.0.0.1:9000/bucket");
    assert!(bucket.body.is_empty());
}

#[test]
fn rustfs_reply_mapping() {
    assert!(RustFsBlobStore::put_outcome(200).is_ok());
    assert!(matches!(RustFsBlobStore::put_outcome(403), Err(FileStoreError::Unauthorized)));
    assert!(matches!(RustFsBlobStore::put_outcome(401), Err(FileStoreError::Unauthorized)));
    assert!(matches!(RustFsBlobStore::put_outcome(404), Err(FileStoreError::NotFound)));
    assert!(matches!(
        RustFsBlobStore::put_outcome(503),
        Err(FileStoreError::Io { http_status: Some(503), source: None })
    ));
    assert!(RustFsBlobStore::delete_outcome(204).is_ok());
    assert!(RustFsBlobStore::delete_outcome(404).is_ok());
    assert!(matches!(RustFsBlobStore::delete_outcome(500), Err(FileStoreError::Io { .. })));
    assert!(RustFsBlobStore::ensure_bucket_outcome(409).is_ok());
    assert!(matches!(RustFsBlobStore::ensure_bucket_outcome(403), Err(FileStoreError::Unauthorized)));
    assert!(matches!(
        RustFsBlobStore::ensure_bucket_outcome(404),
        Err(FileStoreError::Io { http_status: Some(404), .. })
    ));
    let capped = store().with_max_object_bytes(Some(2));
    assert_eq!(capped.get_outcome(200, b"ab".to_vec()).unwrap(), b"ab");
    assert!(matches!(capped.get_outcome(200, b"abc".to_vec()), Err(FileStoreError::Io { .. })));
    assert!(matches!(capped.get_outcome(404, Vec::new()), Err(FileStoreError::NotFound)));
    assert!(matches!(capped.get_outcome(403, Vec::new()), Err(FileStoreError::Unauthorized)));
}

#[test]
fn local_disk_rejects_path_escape_sad() {
    let store = LocalDiskBlobStore::new("/tmp/meson-root".to_string());
    for key in ["../x.png", "a/b.png", "a\\b.png", "", "/abs.png"] {
        assert!(matches!(store.resolve(key), Err(FileStoreError::InvalidKey)));
    }
}

#[test]
fn local_disk_paths_and_outcomes() {
    assert_eq!(LocalDiskBlobStore::new("/tmp/r".to_string()).resolve("a.png").unwrap(), "/tmp/r/a.png");
    assert_eq!(LocalDiskBlobStore::new("/tmp/r/".to_string()).resolve("a.png").unwrap(), "/tmp/r/a.png");
    assert_eq!(LocalDiskBlobStore::new(String::new()).resolve("a.png").unwrap(), "a.png");
    assert_eq!(LocalDiskBlobStore::default_uploads().root(), "uploads");
    let missing = ErrorSource::new(SourceKind::NotFound, "gone".to_string());
    assert!(matches!(
        LocalDiskBlobStore::read_outcome(Err(missing.clone())),
        Err(FileStoreError::NotFound)
    ));
    assert!(LocalDiskBlobStore::delete_outcome(Err(missing)).is_ok());
    let denied = ErrorSource::new(SourceKind::Other, "denied".to_string());
    assert!(matches!(
        LocalDiskBlobStore::delete_outcome(Err(denied.clone())),
        Err(FileStoreError::Io { .. })
    ));
    assert!(matches!(LocalDiskBlobStore::write_outcome(Err(denied)), Err(FileStoreError::Io { .. })));
    assert_eq!(LocalDiskBlobStore::read_outcome(Ok(b"hi".to_vec())).unwrap(), b"hi");
}

#[test]
fn local_default_from_env() {
    let mut env = MesonEnv::default();
    env.blob_backend = Some("local".to_string());
    env.local_root = Some("/tmp/meson-blob-test-root".to_string());
    env.local_quarantine_root = Some("/tmp/meson-blob-test-quarantine".to_string());
    let layout = blob_stores_from_env(&env).expect("local");
    match (&layout.available, &layout.quarantine) {
        (BlobStore::Local(a), BlobStore::Local(q)) => {
            assert_eq!(a.root(), "/tmp/meson-blob-test-root");
            assert_eq!(q.root(), "/tmp/meson-blob-test-quarantine");
        }
        _ => panic!("expected local stores"),
    }
    match blob_store_from_env(&env).expect("compat") {
        BlobStore::Local(a) => assert_eq!(a.root(), "/tmp/meson-blob-test-root"),
        _ => panic!("expected a local store"),
    }
}

#[test]
fn local_backend_name_ignores_case_and_defaults() {
    let mut env = MesonEnv::default();
    env.blob_backend = Some("LOCAL".to_string());
    env.local_root = Some("/tmp/meson-blob-test-root".to_string());
    let layout = blob_stores_from_env(&env).expect("local");
    match (&layout.available, &layout.quarantine) {
        (BlobStore::Local(a), BlobStore::Local(q)) => {
            assert_eq!(a.root(), "/tmp/meson-blob-test-root");
            assert_eq!(q.root(), "uploads-quarantine");
        }
        _ => panic!("expected local stores"),
    }
    assert!(blob_store_from_env(&MesonEnv::default()).is_ok());
}

#[test]
fn available_only_selection_matches_layout() {
    let mut unknown = MesonEnv::default();
    unknown.blob_backend = Some("Nope".to_string());
    match (blob_stores_from_env(&unknown), blob_store_from_env(&unknown)) {
        (Err(BlobStoreConfigError::UnknownBackend(a)), Err(BlobStoreConfigError::UnknownBackend(b))) => {
            assert_eq!(a, "nope");
            assert_eq!(a, b);
        }
        _ => panic!("expected UnknownBackend from both"),
    }
    let mut missing = MesonEnv::default();
    missing.blob_backend = Some("rustfs".to_string());
    missing.rustfs_endpoint = Some("http://127.0.0.1:9000".to_string());
    match (blob_stores_from_env(&missing), blob_store_from_env(&missing)) {
        (Err(BlobStoreConfigError::MissingEnv(a)), Err(BlobStoreConfigError::MissingEnv(b))) => {
            assert_eq!(a, "MESON_RUSTFS_BUCKET");
            assert_eq!(a, b);
        }
        _ => panic!("expected MissingEnv from both"),
    }
}

#[test]
fn unknown_backend_sad() {
    let mut env = MesonEnv::default();
    env.blob_backend = Some("nope".to_string());
    match blob_stores_from_env(&env) {
        Err(BlobStoreConfigError::UnknownBackend(k)) => assert_eq!(k, "nope"),
        Ok(_) => panic!("expected UnknownBackend, got Ok"),
        Err(e) => panic!("expected UnknownBackend, got Err({e:?})"),
    }
}

#[test]
fn rustfs_missing_env_sad() {
    let mut env = MesonEnv::default();
    env.blob_backend = Some("rustfs".to_string());
    match blob_stores_from_env(&env) {
        Err(BlobStoreConfigError::MissingEnv(n)) => assert_eq!(n, "MESON_RUSTFS_ENDPOINT"),
        Ok(_) => panic!("expected MissingEnv, got Ok"),
        Err(e) => panic!("expected MissingEnv, got Err({e:?})"),
    }
    env.rustfs_endpoint = Some("http://127.0.0.1:9000".to_string());
    env.rustfs_bucket = Some("b".to_string());
    match blob_stores_from_env(&env) {
        Err(BlobStoreConfigError::MissingEnv(n)) => assert_eq!(n, "MESON_RUSTFS_QUARANTINE_BUCKET"),
        _ => panic!("expected MissingEnv"),
    }
}

#[test]
fn rustfs_from_env_builds_both_buckets() {
    let mut env = MesonEnv::default();
    env.blob_backend = Some("rustfs".to_string());
    env.rustfs_endpoint = Some("http://127.0.0.1:9000/".to_string());
    env.rustfs_bucket = Some("avail".to_string());
    env.rustfs_quarantine_bucket = Some("quar".to_string());
    env.rustfs_access_key = Some("a".to_string());
    env.rustfs_secret_key = Some("s".to_string());
    env.rustfs_max_bytes = Some("12x".to_string());
    assert!(matches!(
        blob_stores_from_env(&env),
        Err(BlobStoreConfigError::InvalidEnv("MESON_RUSTFS_MAX_BYTES", _))
    ));
    env.rustfs_max_bytes = Some("4".to_string());
    let layout = blob_stores_from_env(&env).expect("rustfs");
    match (&layout.available, &layout.quarantine) {
        (BlobStore::RustFs(a), BlobStore::RustFs(q)) => {
            assert_eq!(a.bucket_url(), "http://127.0.0.1:9000/avail");
            assert_eq!(q.bucket_url(), "http://127.0.0.1:9000/quar");
            assert!(a.put_request("k.bin", b"12345").is_err());
        }
        _ => panic!("expected rustfs stores"),
    }
}

#[test]
fn enabled_by_default_and_off() {
    assert!(virus_scan_enabled(None));
    assert!(!virus_scan_enabled(Some("off")));
    assert!(!virus_scan_enabled(Some("OFF")));
    assert!(virus_scan_enabled(Some("on")));
}

#[test]
fn distinct_keys_never_alias() {
    let local = LocalDiskBlobStore::new("uploads".to_string());
    let a = local.resolve("a.png").unwrap();
    let b = local.resolve("b.png").unwrap();
    assert_eq!(a, "uploads/a.png");
    assert_ne!(a, b);
    let rustfs = store();
    assert_eq!(rustfs.object_url("a.png"), "http://127.0.0.1:9000/bucket/a.png");
    assert_ne!(rustfs.object_url("a.png"), rustfs.object_url("ab.png"));
}

#[test]
fn transport_errors_classify_timeout_first() {
    let t = classify_transport_error(true, true, "timed out".to_string());
    assert_eq!(t.kind, SourceKind::HttpTimeout);
    assert_eq!(t.message, "timed out");
    assert_eq!(classify_transport_error(false, true, "refused".to_string()).kind, SourceKind::HttpConnect);
    assert_eq!(classify_transport_error(false, false, "body".to_string()).kind, SourceKind::Other);
    assert!(FileStoreError::io(classify_transport_error(false, true, "x".to_string())).is_retryable());
    assert!(!FileStoreError::io(classify_transport_error(false, false, "x".to_string())).is_retryable());
}

#[test]
fn transport_error_keeps_text_and_classifies() {
    let err = reqwest::Client::new().get("not a url").build().unwrap_err();
    let src = transport_error_source(&err);
    assert_eq!(src.kind, SourceKind::Other);
    assert_eq!(src.message, err.to_string());
    assert!(!src.message.is_empty());
}
