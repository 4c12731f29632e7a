//! File status helpers for image views: serve URL and badge text per status.

use vstd::prelude::*;
use vstd::string::StrSliceExecFns;
use crate::text::{chars_of, eq_lit, last_index, rfind_char, string_of, extend_chars};

verus! {

/// The part of a `table:id` after its last `:`, or the whole text when it has none.
pub open spec fn bare_id(file_id: Seq<char>) -> Seq<char> {
    match last_index(file_id, ':') {
        Some(i) => file_id.skip(i + 1),
        None => file_id,
    }
}

/// Serve URL for a File in the `available` status.
pub open spec fn image_src_spec(file_id: Seq<char>, file_status: Seq<char>) -> Option<Seq<char>> {
    if file_status == "available"@ {
        Some("/api/files/"@ + bare_id(file_id))
    } else {
        None
    }
}

/// Statuses that still await a scan or a promote.
pub open spec fn is_pending_spec(file_status: Seq<char>) -> bool {
    file_status == "pending_virus_scan"@ || file_status == "virus_scan_complete"@
}

/// Badge text shown for a File status.
pub open spec fn badge_label_spec(file_status: Seq<char>) -> Seq<char> {
    if file_status == "available"@ {
        "Available"@
    } else if is_pending_spec(file_status) {
        "Pending"@
    } else if file_status == "quarantined"@ {
        "Quarantined"@
    } else {
        "Unknown"@
    }
}

/// Strip a Valence `table:id` down to the bare id used by `/api/files/{id}`.
pub fn bare_file_id(file_id: &str) -> (r: &str)
    ensures
        r@ == bare_id(file_id@),
{
    let cs = chars_of(file_id);
    let n = cs.len();
    match rfind_char(&cs, ':') {
        Some(i) => file_id.substring_char(i + 1, n),
        None => file_id,
    }
}

/// `src` for an image: `/api/files/{bare}` only when status is `available`.
pub fn meson_image_src_for_status(file_id: &str, file_status: &str) -> (r: Option<String>)
    ensures
        r matches Some(s) ==> image_src_spec(file_id@, file_status@) == Some(s@),
        r is None ==> image_src_spec(file_id@, file_status@) is None,
{
    let status = chars_of(file_status);
    if eq_lit(&status, "available") {
        let mut url = chars_of("/api/files/");
        let bare = chars_of(bare_file_id(file_id));
        extend_chars(&mut url, &bare);
        Some(string_of(&url))
    } else {
        None
    }
}

/// True when the File is still awaiting scan / promote.
pub fn is_pending_status(file_status: &str) -> (r: bool)
    ensures
        r == is_pending_spec(file_status@),
{
    let status = chars_of(file_status);
    eq_lit(&status, "pending_virus_scan") || eq_lit(&status, "virus_scan_complete")
}

/// Human badge label for a File status.
pub fn status_badge_label(file_status: &str) -> (r: &'static str)
    ensures
        r@ == badge_label_spec(file_status@),
{
    let status = chars_of(file_status);
    if eq_lit(&status, "available") {
        "Available"
    } else if eq_lit(&status, "pending_virus_scan") || eq_lit(&status, "virus_scan_complete") {
        "Pending"
    } else if eq_lit(&status, "quarantined") {
        "Quarantined"
    } else {
        "Unknown"
    }
}

} // verus!
