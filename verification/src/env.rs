//! The `MESON_*` process settings, read once by the host and handed to the library.

use vstd::prelude::*;
use crate::text::{chars_eq_ignore_case, chars_of, eq_ignore_case};

verus! {

/// The `MESON_*` environment values the library reads (`None` when unset or not
/// valid Unicode).
#[derive(Clone, Debug, Default)]
pub struct MesonEnv {
    /// `MESON_BLOB_BACKEND`
    pub blob_backend: Option<String>,
    /// `MESON_LOCAL_ROOT`
    pub local_root: Option<String>,
    /// `MESON_LOCAL_QUARANTINE_ROOT`
    pub local_quarantine_root: Option<String>,
    /// `MESON_RUSTFS_ENDPOINT`
    pub rustfs_endpoint: Option<String>,
    /// `MESON_RUSTFS_BUCKET`
    pub rustfs_bucket: Option<String>,
    /// `MESON_RUSTFS_QUARANTINE_BUCKET`
    pub rustfs_quarantine_bucket: Option<String>,
    /// `MESON_RUSTFS_ACCESS_KEY`
    pub rustfs_access_key: Option<String>,
    /// `MESON_RUSTFS_SECRET_KEY`
    pub rustfs_secret_key: Option<String>,
    /// `MESON_RUSTFS_REGION`
    pub rustfs_region: Option<String>,
    /// `MESON_RUSTFS_MAX_BYTES`
    pub rustfs_max_bytes: Option<String>,
    /// `MESON_VIRUS_SCAN`
    pub virus_scan: Option<String>,
    /// `MESON_CLAMD_SOCKET`
    pub clamd_socket: Option<String>,
    /// `MESON_CLAMD_HOST`
    pub clamd_host: Option<String>,
    /// `MESON_CLAMD_PORT`
    pub clamd_port: Option<String>,
}

/// Scanning is off only when the setting is `off` in any ASCII case.
pub open spec fn scan_enabled_spec(value: Option<Seq<char>>) -> bool {
    !(value matches Some(v) && eq_ignore_case(v, "off"@))
}

/// Whether virus-scan quarantine upload is enabled for `MESON_VIRUS_SCAN = value`.
///
/// Returns `false` only when the value is `off` (ASCII case-insensitive); a missing
/// or any other value keeps scanning on.
pub fn virus_scan_enabled(value: Option<&str>) -> (r: bool)
    ensures
        r == scan_enabled_spec(
            match value {
                Some(v) => Some(v@),
                None => None,
            },
        ),
{
    match value {
        Some(v) => !chars_eq_ignore_case(&chars_of(v), &chars_of("off")),
        None => true,
    }
}

} // verus!
