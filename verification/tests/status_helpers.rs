use meson::status::{bare_file_id, is_pending_status, meson_image_src_for_status, status_badge_label};

#[test]
fn available_emits_api_url() {
    assert_eq!(
        meson_image_src_for_status("profile_photo:abc", "available").as_deref(),
        Some("/api/files/abc")
    );
    assert_eq!(
        meson_image_src_for_status("abc", "available").as_deref(),
        Some("/api/files/abc")
    );
}

#[test]
fn pending_and_quarantined_have_no_src() {
    assert!(meson_image_src_for_status("x:1", "pending_virus_scan").is_none());
    assert!(meson_image_src_for_status("x:1", "virus_scan_complete").is_none());
    assert!(meson_image_src_for_status("x:1", "quarantined").is_none());
}

#[test]
fn badge_labels() {
    assert_eq!(status_badge_label("available"), "Available");
    assert_eq!(status_badge_label("pending_virus_scan"), "Pending");
    assert_eq!(status_badge_label("quarantined"), "Quarantined");
}

#[test]
fn badge_label_unknown_and_complete() {
    assert_eq!(status_badge_label("virus_scan_complete"), "Pending");
    assert_eq!(status_badge_label("Available"), "Unknown");
    assert_eq!(status_badge_label(""), "Unknown");
}

#[test]
fn bare_file_id_takes_last_segment() {
    assert_eq!(bare_file_id("e2e_meson_file:abc"), "abc");
    assert_eq!(bare_file_id("a:b:c"), "c");
    assert_eq!(bare_file_id("plain"), "plain");
    assert_eq!(bare_file_id("trailing:"), "");
}

#[test]
fn pending_statuses() {
    assert!(is_pending_status("pending_virus_scan"));
    assert!(is_pending_status("virus_scan_complete"));
    assert!(!is_pending_status("available"));
    assert!(!is_pending_status("quarantined"));
}
