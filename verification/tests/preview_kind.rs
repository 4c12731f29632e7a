use meson::preview::{preview_kind, PreviewKind};

#[test]
fn classifies_image_text_unsupported() {
    assert_eq!(preview_kind("image/png"), PreviewKind::Image);
    assert_eq!(preview_kind("TEXT/PLAIN"), PreviewKind::Text);
    assert_eq!(preview_kind("application/json"), PreviewKind::Text);
    assert_eq!(preview_kind("application/pdf"), PreviewKind::Unsupported);
    assert_eq!(preview_kind("application/zip"), PreviewKind::Unsupported);
}

#[test]
fn trims_and_handles_structured_suffixes() {
    assert_eq!(preview_kind("  Image/JPEG \n"), PreviewKind::Image);
    assert_eq!(preview_kind("application/ld+json"), PreviewKind::Text);
    assert_eq!(preview_kind("image/svg+xml"), PreviewKind::Image);
    assert_eq!(preview_kind("application/atom+xml"), PreviewKind::Text);
    assert_eq!(preview_kind("application/vnd.ms-excel"), PreviewKind::Text);
    assert_eq!(preview_kind("application/csv"), PreviewKind::Text);
    assert_eq!(preview_kind(""), PreviewKind::Unsupported);
}

#[test]
fn class_ignores_case_and_padding() {
    for m in ["image/png", "text/plain", "application/ld+json", "application/zip", "Application/Vnd.MS-Excel"] {
        let k = preview_kind(m);
        assert_eq!(preview_kind(&m.to_ascii_uppercase()), k);
        assert_eq!(preview_kind(&format!(" \t{m}\n ")), k);
    }
}
