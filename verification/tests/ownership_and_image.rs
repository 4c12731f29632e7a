use meson::adapters::{
    clear_file_scan_adapters_for_test, file_scan_adapter, register_builtin_file_scan_adapters,
    register_file_scan_adapter, AdapterRef, FileScanAdapters,
};
use meson::image::{meson_img_frame, pending_skeleton, resolve_owned_image_src, ImgFrame, MesonImageSrc, SkeletonShape};
use meson::model::{FileFileStatus, FileModel, RecordId, UnixTime};
use meson::numbers::parse_unsigned;
use meson::ownership::{find_file_in_owned_rows, is_uploaded_by};
use meson::readiness::FileScanAdapterError;

fn row(table: &str, id: &str, owner: &str, status: FileFileStatus) -> FileModel {
    FileModel {
        id: Some(RecordId::new(table, id)),
        file_name: format!("{id}.png"),
        file_extension: "png".to_string(),
        mime_type: "image/png".to_string(),
        size_bytes: 5,
        storage_path: format!("{id}.png"),
        file_status: status,
        uploaded_by: RecordId::new("user", owner),
        uploaded_at: UnixTime { secs: 0, nanos: 0 },
    }
}

#[test]
fn owned_row_selection_collapses_foreign_and_missing() {
    let rows = vec![
        row("e2e_meson_file", "a", "12", FileFileStatus::Available),
        row("e2e_meson_profile_photo", "b", "12", FileFileStatus::Available),
    ];
    let found = find_file_in_owned_rows(rows.clone(), &RecordId::new("e2e_meson_profile_photo", "b"));
    assert_eq!(found.unwrap().file_name, "b.png");
    assert!(find_file_in_owned_rows(rows.clone(), &RecordId::new("e2e_meson_file", "zzz")).is_none());
    assert!(find_file_in_owned_rows(rows.clone(), &RecordId::new("receipt_scan", "a")).is_none());
    assert!(is_uploaded_by(&rows[0], &RecordId::new("user", "12")));
    assert!(!is_uploaded_by(&rows[0], &RecordId::new("user", "99")));
}

#[test]
fn image_src_resolution() {
    let rows = vec![
        row("e2e_meson_file", "a", "12", FileFileStatus::Available),
        row("e2e_meson_file", "p", "12", FileFileStatus::PendingVirusScan),
    ];
    let dto = resolve_owned_image_src(rows.clone(), "e2e_meson_file:a", Some(RecordId::new("e2e_meson_file", "a"))).unwrap();
    assert_eq!(dto.file_status, "available");
    assert_eq!(dto.src.as_deref(), Some("/api/files/a"));
    let pending = resolve_owned_image_src(rows.clone(), "p", None).unwrap();
    assert_eq!(pending.file_status, "pending_virus_scan");
    assert!(pending.src.is_none());
    let missing = resolve_owned_image_src(rows, "other:zz", None).unwrap_err();
    assert_eq!(missing, "not_found: File not found");
}

#[test]
fn image_frames() {
    assert!(matches!(meson_img_frame(&None), ImgFrame::Skeleton));
    assert!(matches!(meson_img_frame(&Some(Err("x".to_string()))), ImgFrame::Empty));
    let pending = MesonImageSrc { file_status: "virus_scan_complete".to_string(), src: None };
    assert!(matches!(meson_img_frame(&Some(Ok(pending))), ImgFrame::Skeleton));
    let ready = MesonImageSrc { file_status: "available".to_string(), src: Some("/api/files/a".to_string()) };
    match meson_img_frame(&Some(Ok(ready))) {
        ImgFrame::Image(s) => assert_eq!(s, "/api/files/a"),
        other => panic!("unexpected {other:?}"),
    }
    let quarantined = MesonImageSrc { file_status: "quarantined".to_string(), src: None };
    assert!(matches!(meson_img_frame(&Some(Ok(quarantined))), ImgFrame::Empty));
    let (shape, w, h) = pending_skeleton(None, Some("40px".to_string()), true);
    assert_eq!(shape, SkeletonShape::Circle);
    assert_eq!(w, "100%");
    assert_eq!(h, "40px");
    assert_eq!(pending_skeleton(None, None, false).2, "120px");
}

#[test]
fn adapter_registry() {
    let mut reg = FileScanAdapters::new();
    assert_eq!(file_scan_adapter(&mut reg, "receipt_scan").unwrap(), AdapterRef::ReceiptScan);
    assert!(matches!(file_scan_adapter(&mut reg, "unknown"), Err(FileScanAdapterError::UnknownTable)));
    register_file_scan_adapter(&mut reg, "product_file", AdapterRef::Custom(7));
    assert_eq!(file_scan_adapter(&mut reg, "product_file").unwrap(), AdapterRef::Custom(7));
    register_file_scan_adapter(&mut reg, "receipt_scan", AdapterRef::Custom(8));
    assert_eq!(file_scan_adapter(&mut reg, "receipt_scan").unwrap(), AdapterRef::Custom(8));
    clear_file_scan_adapters_for_test(&mut reg);
    assert_eq!(file_scan_adapter(&mut reg, "receipt_scan").unwrap(), AdapterRef::ReceiptScan);
    assert!(matches!(file_scan_adapter(&mut reg, "product_file"), Err(FileScanAdapterError::UnknownTable)));
    register_builtin_file_scan_adapters(&mut reg);
    assert_eq!(file_scan_adapter(&mut reg, "e2e_meson_profile_photo").unwrap(), AdapterRef::E2eMesonProfilePhoto);
}

#[test]
fn unsigned_parsing_follows_std() {
    let p = |s: &str, max: u64| parse_unsigned(&s.chars().collect::<Vec<_>>(), max);
    assert_eq!(p("3310", 65535), Some(3310));
    assert_eq!(p("+7", 65535), Some(7));
    assert_eq!(p("+", 65535), None);
    assert_eq!(p("", 65535), None);
    assert_eq!(p("-1", 65535), None);
    assert_eq!(p("65536", 65535), None);
    assert_eq!(p("0065535", 65535), Some(65535));
    assert_eq!(p("18446744073709551615", u64::MAX), Some(u64::MAX));
    assert_eq!(p("18446744073709551616", u64::MAX), None);
    for s in ["0", "12", "+3", "99999", "1a", " 1"] {
        assert_eq!(p(s, 65535), s.parse::<u16>().ok().map(u64::from));
    }
}

#[test]
fn meson_my_files_idor_sad() {
    let owner_rows = vec![row("e2e_meson_file", "owner-file", "owner", FileFileStatus::Available)];
    let peer = RecordId::new("user", "peer");
    let peer_rows: Vec<FileModel> =
        owner_rows.into_iter().filter(|r| is_uploaded_by(r, &peer)).collect();
    assert!(peer_rows.is_empty(), "peer uploaded_by filter must not return owner rows");
    let owner_want = RecordId::new("e2e_meson_file", "owner-file");
    assert!(
        find_file_in_owned_rows(peer_rows, &owner_want).is_none(),
        "IDOR: foreign file id must not resolve from peer-owned rows"
    );
}

#[test]
fn meson_preview_image_happy() {
    let rows = vec![row("e2e_meson_file", "shot", "owner", FileFileStatus::Available)];
    let want = RecordId::new("e2e_meson_file", "shot");
    let found = find_file_in_owned_rows(rows, &want).expect("owned row");
    assert_eq!(meson::preview::preview_kind(&found.mime_type), meson::preview::PreviewKind::Image);
    assert_eq!(found.storage_path, "shot.png");
}

#[test]
fn meson_preview_forbidden_sad() {
    let peer_rows = vec![row("e2e_meson_file", "peer-file", "peer", FileFileStatus::Available)];
    let want = RecordId::new("e2e_meson_file", "owner-file");
    assert!(
        find_file_in_owned_rows(peer_rows, &want).is_none(),
        "peer must not preview owner file via owned-row selection"
    );
}
