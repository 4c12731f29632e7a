//! Storage errors shared by every byte backend.

use vstd::prelude::*;

verus! {

/// What kind of failure an underlying cause reports.
#[derive(Clone, Copy, Debug, PartialEq, Eq, Structural)]
pub enum SourceKind {
    /// Any other failure.
    Other,
    /// The object or file does not exist.
    NotFound,
    /// The operation timed out.
    TimedOut,
    /// The peer refused the connection.
    ConnectionRefused,
    /// The peer reset the connection.
    ConnectionReset,
    /// The connection was aborted.
    ConnectionAborted,
    /// The operation was interrupted.
    Interrupted,
    /// An HTTP client request timed out.
    HttpTimeout,
    /// An HTTP client could not connect.
    HttpConnect,
}

/// The underlying cause of a storage failure: its kind and its message.
#[derive(Clone, Debug)]
pub struct ErrorSource {
    /// Classification of the cause.
    pub kind: SourceKind,
    /// Human-readable message of the cause.
    pub message: String,
}

impl ErrorSource {
    /// A cause of the given kind and message.
    pub fn new(kind: SourceKind, message: String) -> (r: Self)
        ensures
            r.kind == kind,
            r.message == message,
    {
        ErrorSource { kind, message }
    }

    /// A cause of kind [`SourceKind::Other`] carrying `message`.
    pub fn other(message: String) -> (r: Self)
        ensures
            r.kind == SourceKind::Other,
            r.message == message,
    {
        ErrorSource { kind: SourceKind::Other, message }
    }
}

/// Errors from byte backend operations.
#[derive(Debug)]
pub enum FileStoreError {
    /// Object key was missing or not readable.
    NotFound,
    /// Storage or transport failure (its message stays opaque; inspect the source).
    Io {
        /// HTTP status from a remote store, when known.
        http_status: Option<u16>,
        /// Underlying cause, when known.
        source: Option<ErrorSource>,
    },
    /// Key escapes the store root or is otherwise invalid.
    InvalidKey,
    /// Credentials rejected by the remote store.
    Unauthorized,
    /// The available store has not been installed.
    BlobStoreNotInstalled,
    /// The quarantine store has not been installed.
    QuarantineStoreNotInstalled,
    /// File bytes are not readable because the status is not `available`.
    NotAvailable {
        /// Wire form of the status when known (for example `pending_virus_scan`).
        status: Option<String>,
    },
}

/// Kinds of causes after which a retry may succeed.
pub open spec fn transient_kind(kind: SourceKind) -> bool {
    match kind {
        SourceKind::HttpTimeout | SourceKind::HttpConnect | SourceKind::TimedOut
        | SourceKind::ConnectionRefused | SourceKind::ConnectionReset
        | SourceKind::ConnectionAborted | SourceKind::Interrupted => true,
        _ => false,
    }
}

/// HTTP statuses after which a retry may succeed: 408, 429 and 5xx.
pub open spec fn retryable_status(status: u16) -> bool {
    status == 408 || status == 429 || (500 <= status && status <= 599)
}

/// When a host may reasonably retry after `e`.
pub open spec fn retryable(e: FileStoreError) -> bool {
    match e {
        FileStoreError::Io { http_status: Some(status), .. } => retryable_status(status),
        FileStoreError::Io { http_status: None, source: Some(src) } => transient_kind(src.kind),
        _ => false,
    }
}

/// The fixed message of each error (it never includes paths, keys or payloads).
pub open spec fn store_error_message(e: FileStoreError) -> Seq<char> {
    match e {
        FileStoreError::NotFound => "not found"@,
        FileStoreError::Io { .. } => "storage I/O error"@,
        FileStoreError::InvalidKey => "invalid storage key"@,
        FileStoreError::Unauthorized => "storage unauthorized"@,
        FileStoreError::BlobStoreNotInstalled => "blob store not installed"@,
        FileStoreError::QuarantineStoreNotInstalled => "quarantine store not installed"@,
        FileStoreError::NotAvailable { .. } => "not available"@,
    }
}

impl FileStoreError {
    /// Wrap a cause as opaque I/O failure.
    pub fn io(source: ErrorSource) -> (r: Self)
        ensures
            r == (FileStoreError::Io { http_status: None, source: Some(source) }),
    {
        FileStoreError::Io { http_status: None, source: Some(source) }
    }

    /// I/O failure with only a message.
    pub fn io_msg(msg: String) -> (r: Self)
        ensures
            r matches FileStoreError::Io { http_status: None, source: Some(src) } && src.kind
                == SourceKind::Other && src.message == msg,
    {
        FileStoreError::Io { http_status: None, source: Some(ErrorSource::other(msg)) }
    }

    /// Remote HTTP failure classified by status.
    pub fn io_http(status: u16) -> (r: Self)
        ensures
            r == (FileStoreError::Io { http_status: Some(status), source: None }),
    {
        FileStoreError::Io { http_status: Some(status), source: None }
    }

    /// Remote HTTP failure with an underlying client or body error.
    pub fn io_http_source(status: u16, source: ErrorSource) -> (r: Self)
        ensures
            r == (FileStoreError::Io { http_status: Some(status), source: Some(source) }),
    {
        FileStoreError::Io { http_status: Some(status), source: Some(source) }
    }

    /// Whether a host may reasonably retry (timeouts, 429, 5xx).
    pub fn is_retryable(&self) -> (r: bool)
        ensures
            r == retryable(*self),
    {
        match self {
            FileStoreError::Io { http_status: Some(status), .. } => {
                *status == 408 || *status == 429 || (500 <= *status && *status <= 599)
            },
            FileStoreError::Io { http_status: None, source: Some(src) } => {
                match src.kind {
                    SourceKind::HttpTimeout | SourceKind::HttpConnect | SourceKind::TimedOut
                    | SourceKind::ConnectionRefused | SourceKind::ConnectionReset
                    | SourceKind::ConnectionAborted | SourceKind::Interrupted => true,
                    _ => false,
                }
            },
            _ => false,
        }
    }

    /// The error's message.
    pub fn message(&self) -> (r: &'static str)
        ensures
            r@ == store_error_message(*self),
    {
        match self {
            FileStoreError::NotFound => "not found",
            FileStoreError::Io { .. } => "storage I/O error",
            FileStoreError::InvalidKey => "invalid storage key",
            FileStoreError::Unauthorized => "storage unauthorized",
            FileStoreError::BlobStoreNotInstalled => "blob store not installed",
            FileStoreError::QuarantineStoreNotInstalled => "quarantine store not installed",
            FileStoreError::NotAvailable { .. } => "not available",
        }
    }

    /// The underlying cause, for I/O failures that carry one.
    pub fn source(&self) -> (r: Option<&ErrorSource>)
        ensures
            r matches Some(s) ==> (*self matches FileStoreError::Io { source: Some(t), .. } && *s
                == t),
            r is None ==> !(*self matches FileStoreError::Io { source: Some(_), .. }),
    {
        match self {
            FileStoreError::Io { source: Some(s), .. } => Some(s),
            _ => None,
        }
    }
}

} // verus!
