//! File rows as the library sees them: status, record ids and the File fields.

use vstd::prelude::*;
use crate::text::{chars_eq, chars_of, extend_chars, string_of};

verus! {

/// Virus-scan status of a File row.
#[derive(Clone, Copy, Debug, PartialEq, Eq, Structural)]
pub enum FileFileStatus {
    /// Bytes are readable from the available store.
    Available,
    /// Bytes wait in quarantine for a scan.
    PendingVirusScan,
    /// Reserved: scan finished, promote pending.
    VirusScanComplete,
    /// The scan found an infection; bytes stay in quarantine.
    Quarantined,
}

/// Wire form of a status.
pub open spec fn status_wire(s: FileFileStatus) -> Seq<char> {
    match s {
        FileFileStatus::Available => "available"@,
        FileFileStatus::PendingVirusScan => "pending_virus_scan"@,
        FileFileStatus::VirusScanComplete => "virus_scan_complete"@,
        FileFileStatus::Quarantined => "quarantined"@,
    }
}

impl FileFileStatus {
    /// Wire form of the status (`available`, `pending_virus_scan`, …).
    pub fn as_str(&self) -> (r: &'static str)
        ensures
            r@ == status_wire(*self),
    {
        match self {
            FileFileStatus::Available => "available",
            FileFileStatus::PendingVirusScan => "pending_virus_scan",
            FileFileStatus::VirusScanComplete => "virus_scan_complete",
            FileFileStatus::Quarantined => "quarantined",
        }
    }
}

/// A record id: table name and id within the table.
#[derive(Clone, Debug)]
pub struct RecordId {
    /// Table name (for example `user`).
    pub table: String,
    /// Id within the table.
    pub id: String,
}

impl View for RecordId {
    type V = (Seq<char>, Seq<char>);

    open spec fn view(&self) -> (Seq<char>, Seq<char>) {
        (self.table@, self.id@)
    }
}

/// `table:id`, the text form of a record id.
pub open spec fn record_text(r: (Seq<char>, Seq<char>)) -> Seq<char> {
    r.0 + seq![':'] + r.1
}

impl RecordId {
    /// A record id in `table` with `id`.
    pub fn new(table: &str, id: &str) -> (r: Self)
        ensures
            r@ == (table@, id@),
    {
        RecordId { table: String::from_str(table), id: String::from_str(id) }
    }

    /// Whether two record ids are the same.
    pub fn same(&self, other: &RecordId) -> (r: bool)
        ensures
            r == (self@ == other@),
    {
        let t1 = chars_of(self.table.as_str());
        let t2 = chars_of(other.table.as_str());
        let i1 = chars_of(self.id.as_str());
        let i2 = chars_of(other.id.as_str());
        chars_eq(&t1, &t2) && chars_eq(&i1, &i2)
    }

    /// `table:id`.
    pub fn to_text(&self) -> (r: String)
        ensures
            r@ == record_text(self@),
    {
        let mut v = chars_of(self.table.as_str());
        v.push(':');
        extend_chars(&mut v, &chars_of(self.id.as_str()));
        string_of(&v)
    }
}

/// A point in time: whole seconds since the Unix epoch and the nanoseconds past them.
#[derive(Clone, Copy, Debug, PartialEq, Eq, Structural)]
pub struct UnixTime {
    /// Whole seconds since 1970-01-01T00:00:00Z (negative before it).
    pub secs: i64,
    /// Nanoseconds past `secs`.
    pub nanos: u32,
}

/// `a` is strictly before `b`: seconds first, then nanoseconds.
pub open spec fn earlier(a: UnixTime, b: UnixTime) -> bool {
    a.secs < b.secs || (a.secs == b.secs && a.nanos < b.nanos)
}

impl UnixTime {
    /// Whether this time is strictly before `other`.
    pub fn is_before(&self, other: &UnixTime) -> (r: bool)
        ensures
            r == earlier(*self, *other),
    {
        self.secs < other.secs || (self.secs == other.secs && self.nanos < other.nanos)
    }
}

/// A row of any table that carries the File fields.
#[derive(Clone, Debug)]
pub struct FileModel {
    /// Row id, once persisted.
    pub id: Option<RecordId>,
    /// Display name given at upload.
    pub file_name: String,
    /// Flat extension without a leading dot.
    pub file_extension: String,
    /// MIME type.
    pub mime_type: String,
    /// Byte length.
    pub size_bytes: i64,
    /// Opaque object key in the byte store.
    pub storage_path: String,
    /// Virus-scan status.
    pub file_status: FileFileStatus,
    /// Soft owner (`user` record).
    pub uploaded_by: RecordId,
    /// Upload time.
    pub uploaded_at: UnixTime,
}

} // verus!
