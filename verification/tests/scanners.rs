use meson::scan::{
    clear_virus_scanner_for_test, install_virus_scanner, installed_virus_scanner,
    resolve_virus_scanner, AlwaysCleanScanner, AlwaysInfectedScanner, ResolvedScanner,
    ScanError, ScannerSlot, ScanVerdict,
};

#[test]
fn resolve_defaults_to_always_clean() {
    let mut slot: ScannerSlot<AlwaysInfectedScanner> = ScannerSlot::new();
    clear_virus_scanner_for_test(&mut slot);
    assert!(installed_virus_scanner(&slot).is_none());
    assert!(matches!(resolve_virus_scanner(&slot), ResolvedScanner::AlwaysClean(_)));
    install_virus_scanner(&mut slot, AlwaysInfectedScanner);
    assert!(installed_virus_scanner(&slot).is_some());
    assert!(matches!(resolve_virus_scanner(&slot), ResolvedScanner::Installed(_)));
    clear_virus_scanner_for_test(&mut slot);
    assert!(installed_virus_scanner(&slot).is_none());
}

#[test]
fn always_clean_and_infected() {
    let clean = AlwaysCleanScanner;
    assert_eq!(clean.scan(b"x").unwrap(), ScanVerdict::Clean);
    let dirty = AlwaysInfectedScanner;
    assert!(matches!(dirty.scan(b"x").unwrap(), ScanVerdict::Infected { .. }));
    assert_eq!(ScanVerdict::Clean.to_display_string(), "clean");
    assert_eq!(
        ScanVerdict::Infected { reason_class: Some("test") }.to_display_string(),
        "infected:test"
    );
    assert_eq!(ScanVerdict::Infected { reason_class: None }.to_display_string(), "infected");
}

#[test]
fn scan_error_constructors() {
    match ScanError::scanner_msg("chunk_len") {
        ScanError::Scanner { reason_class: Some("chunk_len"), source: None } => {}
        other => panic!("unexpected {other:?}"),
    }
    let e = ScanError::scanner(
        Some("read"),
        meson::error::ErrorSource::other("broken pipe".to_string()),
    );
    assert_eq!(e.message(), "scanner error");
    match e {
        ScanError::Scanner { reason_class: Some("read"), source: Some(s) } => {
            assert_eq!(s.message, "broken pipe")
        }
        other => panic!("unexpected {other:?}"),
    }
}
