//! Gates and polling decisions for processors that must only read `available` Files.

use vstd::prelude::*;
use crate::error::{store_error_message, FileStoreError};
use crate::model::{status_wire, FileFileStatus, RecordId};

verus! {

/// File fields the virus-scan worker and the readiness gates need.
#[derive(Clone, Debug)]
pub struct FileScanSnapshot {
    /// Opaque object key.
    pub storage_path: String,
    /// Current scan status.
    pub file_status: FileFileStatus,
    /// Soft owner (`user` record).
    pub uploaded_by: RecordId,
}

/// Errors from the table adapters that load and update File rows.
#[derive(Debug)]
pub enum FileScanAdapterError {
    /// No adapter registered for the table.
    UnknownTable,
    /// Row missing.
    NotFound,
    /// Load or update failed; carries the message.
    Valence(String),
}

/// Errors from readiness polling and the `available` gates.
#[derive(Debug)]
pub enum ReadinessError {
    /// Timed out while waiting for `available`.
    Timeout,
    /// The File reached a status that is not readable (for example quarantined).
    NotAvailable {
        /// Wire form of the status.
        status: Option<String>,
    },
    /// Adapter failure.
    Adapter(FileScanAdapterError),
    /// Blob store failure.
    Store(FileStoreError),
}

/// An adapter error's message; a row error shows its own message.
pub open spec fn adapter_error_message(e: FileScanAdapterError) -> Seq<char> {
    match e {
        FileScanAdapterError::UnknownTable => "no file scan adapter for table"@,
        FileScanAdapterError::NotFound => "file not found"@,
        FileScanAdapterError::Valence(m) => m@,
    }
}

/// A readiness error's message; wrapped errors show their own message.
pub open spec fn readiness_error_message(e: ReadinessError) -> Seq<char> {
    match e {
        ReadinessError::Timeout => "timed out waiting for available"@,
        ReadinessError::NotAvailable { .. } => "not available"@,
        ReadinessError::Adapter(a) => adapter_error_message(a),
        ReadinessError::Store(s) => store_error_message(s),
    }
}

impl FileScanAdapterError {
    /// The error's message.
    pub fn message(&self) -> (r: String)
        ensures
            r@ == adapter_error_message(*self),
    {
        match self {
            FileScanAdapterError::UnknownTable => String::from_str("no file scan adapter for table"),
            FileScanAdapterError::NotFound => String::from_str("file not found"),
            FileScanAdapterError::Valence(m) => m.clone(),
        }
    }
}

impl ReadinessError {
    /// The error's message.
    pub fn message(&self) -> (r: String)
        ensures
            r@ == readiness_error_message(*self),
    {
        match self {
            ReadinessError::Timeout => String::from_str("timed out waiting for available"),
            ReadinessError::NotAvailable { .. } => String::from_str("not available"),
            ReadinessError::Adapter(a) => a.message(),
            ReadinessError::Store(s) => String::from_str(s.message()),
        }
    }
}

/// `err` is `NotAvailable` carrying the wire form of `status`.
pub open spec fn not_available_with(err: ReadinessError, status: FileFileStatus) -> bool {
    err matches ReadinessError::NotAvailable { status: Some(w) } && w@ == status_wire(status)
}

/// Milliseconds between polls.
pub fn poll_interval_ms() -> (r: u64)
    ensures
        r == 50,
{
    50
}

/// The `NotAvailable` error for `status`.
fn not_available(status: FileFileStatus) -> (r: ReadinessError)
    ensures
        not_available_with(r, status),
{
    ReadinessError::NotAvailable { status: Some(String::from_str(status.as_str())) }
}

/// Ensure a snapshot is `available` before processing it.
pub fn ensure_readable_for_processing(snap: &FileScanSnapshot) -> (r: Result<(), ReadinessError>)
    ensures
        r is Ok <==> snap.file_status == FileFileStatus::Available,
        r matches Err(e) ==> not_available_with(e, snap.file_status),
{
    ensure_status_available(snap)
}

/// Ensure a snapshot is `available`.
fn ensure_status_available(snap: &FileScanSnapshot) -> (r: Result<(), ReadinessError>)
    ensures
        r is Ok <==> snap.file_status == FileFileStatus::Available,
        r matches Err(e) ==> not_available_with(e, snap.file_status),
{
    match snap.file_status {
        FileFileStatus::Available => Ok(()),
        other => Err(not_available(other)),
    }
}

/// What a wait does after one look at a File's status.
#[derive(Debug)]
pub enum StatusPoll {
    /// The File is `available`.
    Ready,
    /// Stop with this error.
    Fail(ReadinessError),
    /// Sleep one poll interval, then look again.
    Sleep,
}

/// Decide after loading a snapshot while waiting for `available`: `available` is
/// ready, `quarantined` fails, pending statuses sleep until the deadline has passed
/// and then time out.
pub fn wait_status_step(status: FileFileStatus, deadline_passed: bool) -> (r: StatusPoll)
    ensures
        status == FileFileStatus::Available ==> r is Ready,
        status == FileFileStatus::Quarantined ==> (r matches StatusPoll::Fail(e) && not_available_with(
            e,
            status,
        )),
        (status == FileFileStatus::PendingVirusScan || status == FileFileStatus::VirusScanComplete)
            ==> (if deadline_passed {
            r matches StatusPoll::Fail(ReadinessError::Timeout)
        } else {
            r is Sleep
        }),
{
    match status {
        FileFileStatus::Available => StatusPoll::Ready,
        FileFileStatus::Quarantined => StatusPoll::Fail(not_available(status)),
        FileFileStatus::PendingVirusScan | FileFileStatus::VirusScanComplete => {
            if deadline_passed {
                StatusPoll::Fail(ReadinessError::Timeout)
            } else {
                StatusPoll::Sleep
            }
        },
    }
}

/// What a wait for an object does after one get from the available store.
#[derive(Debug)]
pub enum ObjectPoll {
    /// The bytes are there.
    Ready(Vec<u8>),
    /// Stop with this error.
    Fail(ReadinessError),
    /// Sleep one poll interval, then get again.
    Sleep,
}

/// Decide after one get while waiting for an object: bytes are ready, a missing
/// object sleeps until the deadline has passed and then times out, any other store
/// error stops the wait.
pub fn wait_object_step(got: Result<Vec<u8>, FileStoreError>, deadline_passed: bool) -> (r: ObjectPoll)
    ensures
        got matches Ok(b) ==> (r matches ObjectPoll::Ready(c) && c == b),
        got matches Err(FileStoreError::NotFound) ==> (if deadline_passed {
            r matches ObjectPoll::Fail(ReadinessError::Timeout)
        } else {
            r is Sleep
        }),
        got matches Err(e) ==> (!(e is NotFound) ==> r == ObjectPoll::Fail(ReadinessError::Store(e))),
{
    match got {
        Ok(bytes) => ObjectPoll::Ready(bytes),
        Err(FileStoreError::NotFound) => {
            if deadline_passed {
                ObjectPoll::Fail(ReadinessError::Timeout)
            } else {
                ObjectPoll::Sleep
            }
        },
        Err(e) => ObjectPoll::Fail(ReadinessError::Store(e)),
    }
}

} // verus!
