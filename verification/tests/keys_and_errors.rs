use meson::error::{ErrorSource, FileStoreError, SourceKind};
use meson::keys::validate_object_key;

#[test]
fn accepts_flat_key() {
    assert!(validate_object_key("a.png").is_ok());
    assert!(validate_object_key("uuid-here.bin").is_ok());
}

#[test]
fn rejects_escape_and_empty() {
    assert!(matches!(validate_object_key(""), Err(FileStoreError::InvalidKey)));
    assert!(matches!(validate_object_key("../x.png"), Err(FileStoreError::InvalidKey)));
    assert!(matches!(validate_object_key("a/b.png"), Err(FileStoreError::InvalidKey)));
    assert!(matches!(validate_object_key("a\\b.png"), Err(FileStoreError::InvalidKey)));
    assert!(matches!(validate_object_key("/abs.png"), Err(FileStoreError::InvalidKey)));
}

#[test]
fn single_dots_are_fine_double_dots_are_not() {
    assert!(validate_object_key("a.b.c").is_ok());
    assert!(matches!(validate_object_key("a..b"), Err(FileStoreError::InvalidKey)));
}

#[test]
fn io_preserves_source_chain() {
    let err = FileStoreError::io(ErrorSource::other("disk full".to_string()));
    assert_eq!(err.message(), "storage I/O error");
    let source = err.source().expect("source");
    assert!(source.message.contains("disk full"));
}

#[test]
fn io_http_retryable_classification() {
    assert!(FileStoreError::io_http(503).is_retryable());
    assert!(FileStoreError::io_http(429).is_retryable());
    assert!(!FileStoreError::io_http(400).is_retryable());
    assert!(!FileStoreError::NotFound.is_retryable());
}

#[test]
fn retryable_edges_and_transient_sources() {
    assert!(FileStoreError::io_http(408).is_retryable());
    assert!(FileStoreError::io_http(500).is_retryable());
    assert!(FileStoreError::io_http(599).is_retryable());
    assert!(!FileStoreError::io_http(600).is_retryable());
    assert!(!FileStoreError::io_http(499).is_retryable());
    let timed_out = FileStoreError::io(ErrorSource::new(SourceKind::TimedOut, "t".to_string()));
    assert!(timed_out.is_retryable());
    let refused = FileStoreError::io(ErrorSource::new(SourceKind::HttpConnect, "c".to_string()));
    assert!(refused.is_retryable());
    assert!(!FileStoreError::io_msg("other".to_string()).is_retryable());
    assert!(!FileStoreError::Unauthorized.is_retryable());
}

#[test]
fn io_msg_keeps_message_and_messages_are_opaque() {
    let err = FileStoreError::io_msg("object exceeds".to_string());
    match &err {
        FileStoreError::Io { http_status: None, source: Some(s) } => {
            assert_eq!(s.kind, SourceKind::Other);
            assert_eq!(s.message, "object exceeds");
        }
        other => panic!("unexpected {other:?}"),
    }
    assert_eq!(FileStoreError::NotFound.message(), "not found");
    assert_eq!(FileStoreError::InvalidKey.message(), "invalid storage key");
    assert_eq!(FileStoreError::Unauthorized.message(), "storage unauthorized");
    assert_eq!(FileStoreError::BlobStoreNotInstalled.message(), "blob store not installed");
    assert_eq!(
        FileStoreError::QuarantineStoreNotInstalled.message(),
        "quarantine store not installed"
    );
    assert_eq!(FileStoreError::NotAvailable { status: None }.message(), "not available");
    assert!(FileStoreError::io_http(503).source().is_none());
}
