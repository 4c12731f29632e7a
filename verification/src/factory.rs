//! Select the byte stores from the `MESON_*` settings.

use vstd::prelude::*;
use crate::clamav::opt_view;
use crate::env::MesonEnv;
use crate::error::{store_error_message, FileStoreError};
use crate::local::LocalDiskBlobStore;
use crate::numbers::{parse_unsigned, parse_unsigned_spec};
use crate::rustfs::{RustFsBlobStore, RustFsView, DEFAULT_RUSTFS_REGION};
use crate::text::{
    ascii_lower, chars_of, eq_lit, extend_chars, string_of, to_ascii_lower, trim_by, trim_end_by, CharClass,
};

verus! {

/// Errors from selecting stores.
#[derive(Debug)]
pub enum BlobStoreConfigError {
    /// `MESON_BLOB_BACKEND` names no known backend (the lower-cased value).
    UnknownBackend(String),
    /// A setting the selected backend needs is missing.
    MissingEnv(&'static str),
    /// The requested backend is not built into this library (both are, so this is
    /// never returned here; hosts that drop a backend report it).
    FeatureDisabled(&'static str),
    /// A setting is present but not usable.
    InvalidEnv(&'static str, String),
    /// Building a store failed.
    Store(FileStoreError),
}

/// The error's message.
pub open spec fn config_error_message(e: BlobStoreConfigError) -> Seq<char> {
    match e {
        BlobStoreConfigError::UnknownBackend(k) => "unknown MESON_BLOB_BACKEND="@ + k@,
        BlobStoreConfigError::MissingEnv(n) => "missing env "@ + n@,
        BlobStoreConfigError::FeatureDisabled(n) => "backend "@ + n@
            + " not enabled in this build (missing Cargo feature)"@,
        BlobStoreConfigError::InvalidEnv(n, m) => "invalid env "@ + n@ + ": "@ + m@,
        BlobStoreConfigError::Store(s) => store_error_message(s),
    }
}

impl BlobStoreConfigError {
    /// The error's message.
    pub fn message(&self) -> (r: String)
        ensures
            r@ == config_error_message(*self),
    {
        let mut v = match self {
            BlobStoreConfigError::UnknownBackend(k) => {
                let mut v = chars_of("unknown MESON_BLOB_BACKEND=");
                extend_chars(&mut v, &chars_of(k.as_str()));
                v
            },
            BlobStoreConfigError::MissingEnv(n) => {
                let mut v = chars_of("missing env ");
                extend_chars(&mut v, &chars_of(n));
                v
            },
            BlobStoreConfigError::FeatureDisabled(n) => {
                let mut v = chars_of("backend ");
                extend_chars(&mut v, &chars_of(n));
                extend_chars(&mut v, &chars_of(" not enabled in this build (missing Cargo feature)"));
                v
            },
            BlobStoreConfigError::InvalidEnv(n, m) => {
                let mut v = chars_of("invalid env ");
                extend_chars(&mut v, &chars_of(n));
                extend_chars(&mut v, &chars_of(": "));
                extend_chars(&mut v, &chars_of(m.as_str()));
                v
            },
            BlobStoreConfigError::Store(s) => chars_of(s.message()),
        };
        string_of(&v)
    }
}

/// One byte store.
pub enum BlobStore {
    /// A local directory.
    Local(LocalDiskBlobStore),
    /// A RustFS / S3-compatible bucket.
    RustFs(RustFsBlobStore),
}

/// Available (post-scan) and quarantine (pre-scan) stores.
pub struct BlobStoreLayout {
    /// Bytes readable after a clean scan (or when scanning is off).
    pub available: BlobStore,
    /// Bytes held until the scan completes.
    pub quarantine: BlobStore,
}

/// The lower-cased backend name (`local` when unset).
pub open spec fn backend_kind(env: MesonEnv) -> Seq<char> {
    ascii_lower(
        match env.blob_backend {
            Some(s) => s@,
            None => "local"@,
        },
    )
}

/// A setting's value, or a default.
pub open spec fn or_default(v: Option<String>, d: Seq<char>) -> Seq<char> {
    match v {
        Some(s) => s@,
        None => d,
    }
}

/// The first RustFS setting that is missing, in the order they are required.
pub open spec fn first_missing_rustfs(env: MesonEnv) -> Option<Seq<char>> {
    if env.rustfs_endpoint is None {
        Some("MESON_RUSTFS_ENDPOINT"@)
    } else if env.rustfs_bucket is None {
        Some("MESON_RUSTFS_BUCKET"@)
    } else if env.rustfs_quarantine_bucket is None {
        Some("MESON_RUSTFS_QUARANTINE_BUCKET"@)
    } else if env.rustfs_access_key is None {
        Some("MESON_RUSTFS_ACCESS_KEY"@)
    } else if env.rustfs_secret_key is None {
        Some("MESON_RUSTFS_SECRET_KEY"@)
    } else {
        None
    }
}

/// The object size cap: unset or empty means none; otherwise an unsigned integer.
pub open spec fn max_bytes_spec(v: Option<Seq<char>>) -> Option<Option<usize>> {
    match v {
        Some(s) => if s.len() == 0 {
            Some(None)
        } else {
            match parse_unsigned_spec(s, usize::MAX as nat) {
                Some(n) => Some(Some(n as usize)),
                None => None,
            }
        },
        None => Some(None),
    }
}

/// The view of a RustFS store built from these settings for `bucket`.
pub open spec fn rustfs_view_for(env: MesonEnv, bucket: Seq<char>, max: Option<usize>) -> RustFsView {
    RustFsView {
        endpoint: trim_end_by(or_default(env.rustfs_endpoint, seq![]), CharClass::Exactly('/')),
        bucket: trim_by(bucket, CharClass::Exactly('/')),
        access_key: or_default(env.rustfs_access_key, seq![]),
        secret_key: or_default(env.rustfs_secret_key, seq![]),
        region: or_default(env.rustfs_region, "us-east-1"@),
        max_object_bytes: max,
    }
}

/// `store` is a local store at `root`.
pub open spec fn local_at(store: BlobStore, root: Seq<char>) -> bool {
    store matches BlobStore::Local(s) && s@ == root
}

/// `store` is a RustFS store with view `v`.
pub open spec fn rustfs_with(store: BlobStore, v: RustFsView) -> bool {
    store matches BlobStore::RustFs(s) && s@ == v
}

/// What [`blob_stores_from_env`] returns for `env`: the local pair with its roots, the
/// unknown-backend, missing-setting and invalid-cap errors, or for a complete RustFS
/// setting either both buckets' stores or a store-building I/O error.
pub open spec fn layout_outcome(env: MesonEnv, r: Result<BlobStoreLayout, BlobStoreConfigError>) -> bool {
    &&& backend_kind(env) == "local"@ ==> (r matches Ok(l) && local_at(
        l.available,
        or_default(env.local_root, "uploads"@),
    ) && local_at(l.quarantine, or_default(env.local_quarantine_root, "uploads-quarantine"@)))
    &&& backend_kind(env) != "local"@ && backend_kind(env) != "rustfs"@ ==> (r matches Err(
        BlobStoreConfigError::UnknownBackend(k),
    ) && k@ == backend_kind(env))
    &&& backend_kind(env) == "rustfs"@ ==> (match first_missing_rustfs(env) {
        Some(name) => r matches Err(BlobStoreConfigError::MissingEnv(n)) && n@ == name,
        None => match max_bytes_spec(opt_view(env.rustfs_max_bytes)) {
            None => r matches Err(BlobStoreConfigError::InvalidEnv(n, m)) && n@
                == "MESON_RUSTFS_MAX_BYTES"@ && m@ == "expected unsigned integer"@,
            Some(max) => (r matches Ok(l) ==> rustfs_with(
                l.available,
                rustfs_view_for(env, env.rustfs_bucket->0@, max),
            ) && rustfs_with(
                l.quarantine,
                rustfs_view_for(env, env.rustfs_quarantine_bucket->0@, max),
            )) && (r matches Err(e) ==> e matches BlobStoreConfigError::Store(s) && s is Io),
        },
    })
}

/// What [`blob_store_from_env`] returns for `env`: as [`layout_outcome`], for the
/// available store alone.
pub open spec fn store_outcome(env: MesonEnv, r: Result<BlobStore, BlobStoreConfigError>) -> bool {
    &&& backend_kind(env) == "local"@ ==> (r matches Ok(s) && local_at(
        s,
        or_default(env.local_root, "uploads"@),
    ))
    &&& backend_kind(env) != "local"@ && backend_kind(env) != "rustfs"@ ==> (r matches Err(
        BlobStoreConfigError::UnknownBackend(k),
    ) && k@ == backend_kind(env))
    &&& backend_kind(env) == "rustfs"@ ==> (match first_missing_rustfs(env) {
        Some(name) => r matches Err(BlobStoreConfigError::MissingEnv(n)) && n@ == name,
        None => match max_bytes_spec(opt_view(env.rustfs_max_bytes)) {
            None => r matches Err(BlobStoreConfigError::InvalidEnv(n, m)) && n@
                == "MESON_RUSTFS_MAX_BYTES"@ && m@ == "expected unsigned integer"@,
            Some(max) => (r matches Ok(s) ==> rustfs_with(
                s,
                rustfs_view_for(env, env.rustfs_bucket->0@, max),
            )) && (r matches Err(e) ==> e matches BlobStoreConfigError::Store(s) && s is Io),
        },
    })
}

/// A complete RustFS setting: selecting stores builds HTTP clients, and whether a
/// build succeeds is up to the host.
pub open spec fn builds_http_clients(env: MesonEnv) -> bool {
    &&& backend_kind(env) == "rustfs"@
    &&& first_missing_rustfs(env) is None
    &&& max_bytes_spec(opt_view(env.rustfs_max_bytes)) is Some
}

/// Two stores of the same kind configured alike.
pub open spec fn same_store(a: BlobStore, b: BlobStore) -> bool {
    match (a, b) {
        (BlobStore::Local(x), BlobStore::Local(y)) => x@ == y@,
        (BlobStore::RustFs(x), BlobStore::RustFs(y)) => x@ == y@,
        _ => false,
    }
}

/// Two selection errors of the same variant and payload; two store-building failures
/// match when both are I/O errors.
pub open spec fn same_config_error(a: BlobStoreConfigError, b: BlobStoreConfigError) -> bool {
    match (a, b) {
        (BlobStoreConfigError::UnknownBackend(x), BlobStoreConfigError::UnknownBackend(y)) => x@
            == y@,
        (BlobStoreConfigError::MissingEnv(x), BlobStoreConfigError::MissingEnv(y)) => x@ == y@,
        (BlobStoreConfigError::FeatureDisabled(x), BlobStoreConfigError::FeatureDisabled(y)) => x@
            == y@,
        (BlobStoreConfigError::InvalidEnv(x, m), BlobStoreConfigError::InvalidEnv(y, n)) => x@
            == y@ && m@ == n@,
        (BlobStoreConfigError::Store(x), BlobStoreConfigError::Store(y)) => x is Io && y is Io,
        _ => false,
    }
}

/// Law: the available-only selection is the layout's available store. When both
/// succeed they are configured alike; two failures are the same error. Whether each
/// succeeds agrees on every setting that builds no HTTP client; on a complete RustFS
/// setting each call builds its own client, and one build may fail where the other
/// succeeds.
pub proof fn lemma_store_is_layouts_available(
    env: MesonEnv,
    layout: Result<BlobStoreLayout, BlobStoreConfigError>,
    store: Result<BlobStore, BlobStoreConfigError>,
)
    requires
        layout_outcome(env, layout),
        store_outcome(env, store),
    ensures
        layout is Ok && store is Ok ==> same_store(layout->Ok_0.available, store->Ok_0),
        layout is Err && store is Err ==> same_config_error(layout->Err_0, store->Err_0),
        !builds_http_clients(env) ==> (layout is Ok <==> store is Ok),
{
}

/// The region a RustFS setting asks for: `MESON_RUSTFS_REGION` when present, else
/// `us-east-1`.
pub open spec fn region_setting_holds(region: Seq<char>, setting: Option<String>) -> bool {
    &&& setting matches Some(x) ==> region == x@
    &&& setting is None ==> region == "us-east-1"@
}

/// Law: a complete RustFS setting reaches both stores. When selection succeeds, the
/// available store uses `MESON_RUSTFS_BUCKET` and the quarantine store
/// `MESON_RUSTFS_QUARANTINE_BUCKET` (without surrounding `/`), both sign with the
/// configured access and secret keys, and both use the configured region, which is
/// `us-east-1` only when `MESON_RUSTFS_REGION` is unset.
pub proof fn lemma_rustfs_settings_reach_stores(
    env: MesonEnv,
    layout: Result<BlobStoreLayout, BlobStoreConfigError>,
    store: Result<BlobStore, BlobStoreConfigError>,
)
    requires
        layout_outcome(env, layout),
        store_outcome(env, store),
        builds_http_clients(env),
    ensures
        layout matches Ok(l) ==> (l.available matches BlobStore::RustFs(a) && (l.quarantine matches BlobStore::RustFs(q) && {
            &&& a@.bucket == trim_by(env.rustfs_bucket->0@, CharClass::Exactly('/'))
            &&& q@.bucket == trim_by(env.rustfs_quarantine_bucket->0@, CharClass::Exactly('/'))
            &&& a@.access_key == env.rustfs_access_key->0@
            &&& q@.access_key == env.rustfs_access_key->0@
            &&& a@.secret_key == env.rustfs_secret_key->0@
            &&& q@.secret_key == env.rustfs_secret_key->0@
            &&& region_setting_holds(a@.region, env.rustfs_region)
            &&& region_setting_holds(q@.region, env.rustfs_region)
        })),
        store matches Ok(s) ==> (s matches BlobStore::RustFs(a) && {
            &&& a@.bucket == trim_by(env.rustfs_bucket->0@, CharClass::Exactly('/'))
            &&& a@.access_key == env.rustfs_access_key->0@
            &&& a@.secret_key == env.rustfs_secret_key->0@
            &&& region_setting_holds(a@.region, env.rustfs_region)
        }),
{
}

/// A required setting.
fn require(value: &Option<String>, name: &'static str) -> (r: Result<String, BlobStoreConfigError>)
    ensures
        value matches Some(v) ==> (r matches Ok(s) && s@ == v@),
        value is None ==> (r matches Err(BlobStoreConfigError::MissingEnv(n)) && n == name),
{
    match value {
        Some(v) => Ok(v.clone()),
        None => Err(BlobStoreConfigError::MissingEnv(name)),
    }
}

/// An optional setting, or a default.
fn setting_or(value: &Option<String>, default: &str) -> (r: String)
    ensures
        r@ == (match value {
            Some(v) => v@,
            None => default@,
        }),
{
    match value {
        Some(v) => v.clone(),
        None => String::from_str(default),
    }
}

/// Build the available and quarantine stores from the `MESON_*` settings.
///
/// `local` (the default) uses `MESON_LOCAL_ROOT` (default `uploads`) and
/// `MESON_LOCAL_QUARANTINE_ROOT` (default `uploads-quarantine`). `rustfs` requires
/// the endpoint, both buckets and both keys; the region defaults to `us-east-1`
/// and `MESON_RUSTFS_MAX_BYTES` optionally caps object sizes.
pub fn blob_stores_from_env(env: &MesonEnv) -> (r: Result<BlobStoreLayout, BlobStoreConfigError>)
    ensures
        layout_outcome(*env, r),
{
    let kind = to_ascii_lower(
        &chars_of(
            match &env.blob_backend {
                Some(s) => s.as_str(),
                None => "local",
            },
        ),
    );
    proof {
        reveal_strlit("local");
        reveal_strlit("rustfs");
        assert("local"@.len() != "rustfs"@.len());
    }
    if eq_lit(&kind, "local") {
        let root = setting_or(&env.local_root, "uploads");
        let qroot = setting_or(&env.local_quarantine_root, "uploads-quarantine");
        return Ok(
            BlobStoreLayout {
                available: BlobStore::Local(LocalDiskBlobStore::new(root)),
                quarantine: BlobStore::Local(LocalDiskBlobStore::new(qroot)),
            },
        );
    }
    if eq_lit(&kind, "rustfs") {
        let endpoint = require(&env.rustfs_endpoint, "MESON_RUSTFS_ENDPOINT")?;
        let bucket = require(&env.rustfs_bucket, "MESON_RUSTFS_BUCKET")?;
        let quarantine_bucket = require(
            &env.rustfs_quarantine_bucket,
            "MESON_RUSTFS_QUARANTINE_BUCKET",
        )?;
        let access_key = require(&env.rustfs_access_key, "MESON_RUSTFS_ACCESS_KEY")?;
        let secret_key = require(&env.rustfs_secret_key, "MESON_RUSTFS_SECRET_KEY")?;
        let region = setting_or(&env.rustfs_region, DEFAULT_RUSTFS_REGION);
        let max_object_bytes: Option<usize> = match &env.rustfs_max_bytes {
            Some(s) => {
                let cs = chars_of(s.as_str());
                if cs.len() == 0 {
                    None
                } else {
                    match parse_unsigned(&cs, usize::MAX as u64) {
                        Some(n) => Some(n as usize),
                        None => {
                            return Err(
                                BlobStoreConfigError::InvalidEnv(
                                    "MESON_RUSTFS_MAX_BYTES",
                                    String::from_str("expected unsigned integer"),
                                ),
                            );
                        },
                    }
                }
            },
            None => None,
        };
        let available = match RustFsBlobStore::new(
            endpoint.clone(),
            bucket,
            access_key.clone(),
            secret_key.clone(),
            region.clone(),
        ) {
            Ok(s) => s.with_max_object_bytes(max_object_bytes),
            Err(e) => {
                return Err(BlobStoreConfigError::Store(e));
            },
        };
        let quarantine = match RustFsBlobStore::new(
            endpoint,
            quarantine_bucket,
            access_key,
            secret_key,
            region,
        ) {
            Ok(s) => s.with_max_object_bytes(max_object_bytes),
            Err(e) => {
                return Err(BlobStoreConfigError::Store(e));
            },
        };
        return Ok(
            BlobStoreLayout {
                available: BlobStore::RustFs(available),
                quarantine: BlobStore::RustFs(quarantine),
            },
        );
    }
    Err(BlobStoreConfigError::UnknownBackend(string_of(&kind)))
}

/// Build the **available** store only (compat); see [`blob_stores_from_env`].
pub fn blob_store_from_env(env: &MesonEnv) -> (r: Result<BlobStore, BlobStoreConfigError>)
    ensures
        store_outcome(*env, r),
{
    let layout = blob_stores_from_env(env)?;
    Ok(layout.available)
}

} // verus!
