//! The virus-scan pipeline: the scan task's decisions, the sweeper's selection of
//! stuck uploads, the status-change event and the enqueue key.
//!
//! The host's worker performs each call that [`VirusScanTask::step`] asks for
//! (load the row, read quarantine, scan, promote, commit, publish) and reports the
//! outcome back.

use vstd::prelude::*;
use crate::error::FileStoreError;
use crate::model::{earlier, record_text, status_wire, FileFileStatus, FileModel, UnixTime};
use crate::promote::PromoteError;
use crate::readiness::{FileScanAdapterError, FileScanSnapshot};
use crate::scan::{ScanError, ScanVerdict};
use crate::text::{chars_of, eq_lit, extend_chars, string_of};

verus! {

/// Published when a File's status changes (keyed by the owner's user id).
#[derive(Clone, Debug)]
pub struct FileUpdated {
    /// Owner key (`table:id` of the user).
    pub user_id: String,
    /// Bare File id.
    pub file_id: String,
    /// New status wire string (`available`, `quarantined`, …).
    pub file_status: String,
}

/// Whether a status event for `user_id` is published: never for an empty owner or
/// the `system` actor.
pub open spec fn publish_spec(user_id: Seq<char>) -> bool {
    user_id.len() > 0 && user_id != "system"@
}

/// Whether [`FileUpdated`] is published for this owner.
pub fn should_publish_file_updated(user_id: &str) -> (r: bool)
    ensures
        r == publish_spec(user_id@),
{
    let u = chars_of(user_id);
    u.len() > 0 && !eq_lit(&u, "system")
}

/// `virus_scan:{table}:{file_id}`.
pub open spec fn scan_key_spec(table: Seq<char>, file_id: Seq<char>) -> Seq<char> {
    "virus_scan:"@ + table + seq![':'] + file_id
}

/// The deduplication key of a scan job for `file_id` in `table`.
pub fn virus_scan_key(table: &str, file_id: &str) -> (r: String)
    ensures
        r@ == scan_key_spec(table@, file_id@),
{
    let mut v = chars_of("virus_scan:");
    extend_chars(&mut v, &chars_of(table));
    v.push(':');
    extend_chars(&mut v, &chars_of(file_id));
    string_of(&v)
}

/// Errors enqueueing a virus scan.
#[derive(Clone, Copy, Debug, PartialEq, Eq, Structural)]
pub enum EnqueueScanError {
    /// No job runtime is configured.
    BosonNotConfigured,
    /// Enqueue or serialization failure.
    Enqueue,
}

impl EnqueueScanError {
    /// The error's message.
    pub fn message(&self) -> (r: &'static str)
        ensures
            r@ == (match *self {
                EnqueueScanError::BosonNotConfigured => "boson not configured"@,
                EnqueueScanError::Enqueue => "enqueue failed"@,
            }),
    {
        match self {
            EnqueueScanError::BosonNotConfigured => "boson not configured",
            EnqueueScanError::Enqueue => "enqueue failed",
        }
    }
}

/// Why a scan task failed.
#[derive(Debug)]
pub enum ScanTaskError {
    /// Loading or updating the row failed.
    Adapter(FileScanAdapterError),
    /// Reading quarantine bytes failed.
    Store(FileStoreError),
    /// The scanner gave no verdict.
    Scan(ScanError),
    /// Promotion failed.
    Promote(PromoteError),
}

/// How a scan task ended.
#[derive(Clone, Copy, Debug, PartialEq, Eq, Structural)]
pub enum ScanTaskOutcome {
    /// The row was already `available` or `quarantined`; nothing was done.
    AlreadyTerminal,
    /// Clean: bytes promoted and the row committed `available`.
    Promoted,
    /// Infected: the row committed `quarantined`; bytes stay in quarantine.
    Quarantined,
}

/// Where a scan task stands.
#[derive(Clone, Copy, Debug, PartialEq, Eq, Structural)]
pub enum ScanPhase {
    /// Waiting for the row.
    Load,
    /// Waiting for the quarantine bytes.
    Fetch,
    /// Waiting for the verdict.
    Scanning,
    /// Waiting for the promotion.
    Promoting,
    /// Waiting for the `available` commit.
    CommitAvailable,
    /// Waiting for the `quarantined` commit.
    CommitQuarantined,
    /// Waiting for the `available` event to be published.
    PublishAvailable,
    /// Waiting for the `quarantined` event to be published.
    PublishQuarantined,
    /// Done.
    Finished,
}

/// The next call a scan task needs, or its result.
#[derive(Debug)]
pub enum ScanTaskAction {
    /// Load the row's scan snapshot.
    LoadFile,
    /// Read these bytes' key from the quarantine store.
    GetQuarantine(String),
    /// Scan these bytes with the resolved scanner.
    Scan(Vec<u8>),
    /// Promote this key to the available store.
    Promote(String),
    /// Commit the row `available` with this storage path.
    CommitAvailable(String),
    /// Commit the row `quarantined`.
    CommitQuarantined,
    /// Publish this status change.
    Publish(FileUpdated),
    /// The task is over.
    Done(Result<ScanTaskOutcome, ScanTaskError>),
}

/// The outcome of the call a scan task asked for.
#[derive(Debug)]
pub enum ScanTaskEvent {
    /// The row's snapshot.
    Loaded(Result<FileScanSnapshot, FileScanAdapterError>),
    /// The quarantine bytes.
    Fetched(Result<Vec<u8>, FileStoreError>),
    /// The scanner's verdict.
    Scanned(Result<ScanVerdict, ScanError>),
    /// The promotion's result (the new storage path).
    Promoted(Result<String, PromoteError>),
    /// The commit's result.
    Committed(Result<(), FileScanAdapterError>),
    /// The event was published (best effort).
    Published,
}

/// The event that answers a phase's request.
pub open spec fn task_answers(phase: ScanPhase, event: ScanTaskEvent) -> bool {
    match phase {
        ScanPhase::Load => event is Loaded,
        ScanPhase::Fetch => event is Fetched,
        ScanPhase::Scanning => event is Scanned,
        ScanPhase::Promoting => event is Promoted,
        ScanPhase::CommitAvailable | ScanPhase::CommitQuarantined => event is Committed,
        ScanPhase::PublishAvailable | ScanPhase::PublishQuarantined => event is Published,
        ScanPhase::Finished => false,
    }
}

/// A terminal status: the scan has already decided.
pub open spec fn is_terminal(s: FileFileStatus) -> bool {
    s == FileFileStatus::Available || s == FileFileStatus::Quarantined
}

/// The phase after `event` answers `phase`.
pub open spec fn task_next_phase(phase: ScanPhase, event: ScanTaskEvent) -> ScanPhase {
    match event {
        ScanTaskEvent::Loaded(Ok(snap)) => if is_terminal(snap.file_status) {
            ScanPhase::Finished
        } else {
            ScanPhase::Fetch
        },
        ScanTaskEvent::Fetched(Ok(_)) => ScanPhase::Scanning,
        ScanTaskEvent::Scanned(Ok(ScanVerdict::Clean)) => ScanPhase::Promoting,
        ScanTaskEvent::Scanned(Ok(ScanVerdict::Infected { .. })) => ScanPhase::CommitQuarantined,
        ScanTaskEvent::Promoted(Ok(_)) => ScanPhase::CommitAvailable,
        ScanTaskEvent::Committed(Ok(_)) => if phase == ScanPhase::CommitAvailable {
            ScanPhase::PublishAvailable
        } else {
            ScanPhase::PublishQuarantined
        },
        _ => ScanPhase::Finished,
    }
}

/// A scan task for one File row.
pub struct VirusScanTask {
    table: String,
    file_id: String,
    phase: ScanPhase,
    storage_path: String,
    owner_key: String,
}

/// The task's state as plain values.
pub struct ScanTaskView {
    /// File table.
    pub table: Seq<char>,
    /// Bare File id.
    pub file_id: Seq<char>,
    /// Where the task stands.
    pub phase: ScanPhase,
    /// The loaded row's storage path.
    pub storage_path: Seq<char>,
    /// The loaded row's owner key (`table:id`).
    pub owner_key: Seq<char>,
}

impl View for VirusScanTask {
    type V = ScanTaskView;

    closed spec fn view(&self) -> ScanTaskView {
        ScanTaskView {
            table: self.table@,
            file_id: self.file_id@,
            phase: self.phase,
            storage_path: self.storage_path@,
            owner_key: self.owner_key@,
        }
    }
}

/// `ev` is a `FileUpdated` for `owner`, `file_id` and `status`.
pub open spec fn update_event(ev: FileUpdated, owner: Seq<char>, file_id: Seq<char>, status: FileFileStatus) -> bool {
    ev.user_id@ == owner && ev.file_id@ == file_id && ev.file_status@ == status_wire(status)
}

impl VirusScanTask {
    /// Start scanning `file_id` in `table`: the first request is the row load.
    pub fn new(table: &str, file_id: &str) -> (r: (VirusScanTask, ScanTaskAction))
        ensures
            r.0@.table == table@,
            r.0@.file_id == file_id@,
            r.0@.phase == ScanPhase::Load,
            r.1 is LoadFile,
    {
        (
            VirusScanTask {
                table: String::from_str(table),
                file_id: String::from_str(file_id),
                phase: ScanPhase::Load,
                storage_path: String::new(),
                owner_key: String::new(),
            },
            ScanTaskAction::LoadFile,
        )
    }

    /// The File table.
    pub fn table(&self) -> (r: &str)
        ensures
            r@ == self@.table,
    {
        self.table.as_str()
    }

    /// The bare File id.
    pub fn file_id(&self) -> (r: &str)
        ensures
            r@ == self@.file_id,
    {
        self.file_id.as_str()
    }

    /// The status-change event for the loaded row.
    fn update_for(&self, status: FileFileStatus) -> (r: FileUpdated)
        ensures
            update_event(r, self@.owner_key, self@.file_id, status),
    {
        FileUpdated {
            user_id: String::from_str(self.owner_key.as_str()),
            file_id: String::from_str(self.file_id.as_str()),
            file_status: String::from_str(status.as_str()),
        }
    }

    /// Advance with the outcome of the requested call.
    pub fn step(&mut self, event: ScanTaskEvent) -> (r: ScanTaskAction)
        requires
            task_answers(old(self)@.phase, event),
        ensures
            final(self)@.table == old(self)@.table,
            final(self)@.file_id == old(self)@.file_id,
            final(self)@.phase == task_next_phase(old(self)@.phase, event),
            // Loading
            event matches ScanTaskEvent::Loaded(Err(e)) ==> r == ScanTaskAction::Done(
                Err(ScanTaskError::Adapter(e)),
            ),
            event matches ScanTaskEvent::Loaded(Ok(snap)) ==> (if is_terminal(snap.file_status) {
                r == ScanTaskAction::Done(Ok(ScanTaskOutcome::AlreadyTerminal))
            } else {
                r matches ScanTaskAction::GetQuarantine(p) && p@ == snap.storage_path@
                    && final(self)@.storage_path == snap.storage_path@ && final(self)@.owner_key
                    == record_text(snap.uploaded_by@)
            }),
            !(event is Loaded) ==> final(self)@.storage_path == old(self)@.storage_path
                && final(self)@.owner_key == old(self)@.owner_key,
            // Reading quarantine
            event matches ScanTaskEvent::Fetched(Err(e)) ==> r == ScanTaskAction::Done(
                Err(ScanTaskError::Store(e)),
            ),
            event matches ScanTaskEvent::Fetched(Ok(b)) ==> r == ScanTaskAction::Scan(b),
            // Scanning
            event matches ScanTaskEvent::Scanned(Err(e)) ==> r == ScanTaskAction::Done(
                Err(ScanTaskError::Scan(e)),
            ),
            event matches ScanTaskEvent::Scanned(Ok(ScanVerdict::Clean)) ==> (r matches ScanTaskAction::Promote(
                p,
            ) && p@ == old(self)@.storage_path),
            event matches ScanTaskEvent::Scanned(Ok(ScanVerdict::Infected { .. })) ==> r
                is CommitQuarantined,
            // Promoting
            event matches ScanTaskEvent::Promoted(Err(e)) ==> r == ScanTaskAction::Done(
                Err(ScanTaskError::Promote(e)),
            ),
            event matches ScanTaskEvent::Promoted(Ok(p)) ==> r == ScanTaskAction::CommitAvailable(p),
            // Committing
            event matches ScanTaskEvent::Committed(Err(e)) ==> r == ScanTaskAction::Done(
                Err(ScanTaskError::Adapter(e)),
            ),
            event matches ScanTaskEvent::Committed(Ok(_)) ==> (r matches ScanTaskAction::Publish(ev)
                && update_event(
                ev,
                old(self)@.owner_key,
                old(self)@.file_id,
                if old(self)@.phase == ScanPhase::CommitAvailable {
                    FileFileStatus::Available
                } else {
                    FileFileStatus::Quarantined
                },
            )),
            // Publishing
            event is Published ==> r == ScanTaskAction::Done(
                Ok(
                    if old(self)@.phase == ScanPhase::PublishAvailable {
                        ScanTaskOutcome::Promoted
                    } else {
                        ScanTaskOutcome::Quarantined
                    },
                ),
            ),
    {
        match event {
            ScanTaskEvent::Loaded(Err(e)) => {
                self.phase = ScanPhase::Finished;
                ScanTaskAction::Done(Err(ScanTaskError::Adapter(e)))
            },
            ScanTaskEvent::Loaded(Ok(snap)) => {
                match snap.file_status {
                    FileFileStatus::Available | FileFileStatus::Quarantined => {
                        self.phase = ScanPhase::Finished;
                        ScanTaskAction::Done(Ok(ScanTaskOutcome::AlreadyTerminal))
                    },
                    FileFileStatus::PendingVirusScan | FileFileStatus::VirusScanComplete => {
                        self.phase = ScanPhase::Fetch;
                        self.owner_key = snap.uploaded_by.to_text();
                        let path = String::from_str(snap.storage_path.as_str());
                        self.storage_path = snap.storage_path;
                        ScanTaskAction::GetQuarantine(path)
                    },
                }
            },
            ScanTaskEvent::Fetched(Err(e)) => {
                self.phase = ScanPhase::Finished;
                ScanTaskAction::Done(Err(ScanTaskError::Store(e)))
            },
            ScanTaskEvent::Fetched(Ok(bytes)) => {
                self.phase = ScanPhase::Scanning;
                ScanTaskAction::Scan(bytes)
            },
            ScanTaskEvent::Scanned(Err(e)) => {
                self.phase = ScanPhase::Finished;
                ScanTaskAction::Done(Err(ScanTaskError::Scan(e)))
            },
            ScanTaskEvent::Scanned(Ok(ScanVerdict::Clean)) => {
                self.phase = ScanPhase::Promoting;
                ScanTaskAction::Promote(String::from_str(self.storage_path.as_str()))
            },
            ScanTaskEvent::Scanned(Ok(ScanVerdict::Infected { .. })) => {
                self.phase = ScanPhase::CommitQuarantined;
                ScanTaskAction::CommitQuarantined
            },
            ScanTaskEvent::Promoted(Err(e)) => {
                self.phase = ScanPhase::Finished;
                ScanTaskAction::Done(Err(ScanTaskError::Promote(e)))
            },
            ScanTaskEvent::Promoted(Ok(path)) => {
                self.phase = ScanPhase::CommitAvailable;
                ScanTaskAction::CommitAvailable(path)
            },
            ScanTaskEvent::Committed(Err(e)) => {
                self.phase = ScanPhase::Finished;
                ScanTaskAction::Done(Err(ScanTaskError::Adapter(e)))
            },
            ScanTaskEvent::Committed(Ok(())) => {
                if self.phase == ScanPhase::CommitAvailable {
                    self.phase = ScanPhase::PublishAvailable;
                    ScanTaskAction::Publish(self.update_for(FileFileStatus::Available))
                } else {
                    self.phase = ScanPhase::PublishQuarantined;
                    ScanTaskAction::Publish(self.update_for(FileFileStatus::Quarantined))
                }
            },
            ScanTaskEvent::Published => {
                let outcome = if self.phase == ScanPhase::PublishAvailable {
                    ScanTaskOutcome::Promoted
                } else {
                    ScanTaskOutcome::Quarantined
                };
                self.phase = ScanPhase::Finished;
                ScanTaskAction::Done(Ok(outcome))
            },
        }
    }
}

/// Law: an infected File is never promoted or committed `available`. The promote
/// phase is entered only on a clean verdict, the `available` commit only after a
/// successful promotion, and the `quarantined` commit only on an infected verdict.
/// A row that is already `available` or `quarantined` ends the task at once.
pub proof fn lemma_scan_task_gates(phase: ScanPhase, event: ScanTaskEvent)
    requires
        task_answers(phase, event),
    ensures
        task_next_phase(phase, event) == ScanPhase::Promoting ==> phase == ScanPhase::Scanning
            && event matches ScanTaskEvent::Scanned(Ok(ScanVerdict::Clean)),
        task_next_phase(phase, event) == ScanPhase::CommitAvailable ==> phase
            == ScanPhase::Promoting && event matches ScanTaskEvent::Promoted(Ok(_)),
        task_next_phase(phase, event) == ScanPhase::PublishAvailable ==> phase
            == ScanPhase::CommitAvailable,
        task_next_phase(phase, event) == ScanPhase::CommitQuarantined ==> phase
            == ScanPhase::Scanning && event matches ScanTaskEvent::Scanned(
            Ok(ScanVerdict::Infected { .. }),
        ),
        event matches ScanTaskEvent::Loaded(Ok(snap)) && is_terminal(snap.file_status)
            ==> task_next_phase(phase, event) == ScanPhase::Finished,
{
}

/// Default age, in seconds, after which a pending upload is re-enqueued.
pub const DEFAULT_SWEEP_MAX_AGE_SECS: i64 = 300;

/// `max_age_secs` seconds before `now` (default 300): pending uploads older than this
/// are swept.
pub open spec fn sweep_cutoff_spec(now: UnixTime, max_age_secs: Option<i64>) -> (int, u32) {
    (
        now.secs - match max_age_secs {
            Some(a) => a as int,
            None => 300,
        },
        now.nanos,
    )
}

/// The sweeper's cutoff: `now - max_age` (default 300 seconds).
pub fn sweep_cutoff(now: UnixTime, max_age_secs: Option<i64>) -> (r: UnixTime)
    requires
        i64::MIN <= sweep_cutoff_spec(now, max_age_secs).0 <= i64::MAX,
    ensures
        (r.secs as int, r.nanos) == sweep_cutoff_spec(now, max_age_secs),
{
    let age = match max_age_secs {
        Some(a) => a,
        None => DEFAULT_SWEEP_MAX_AGE_SECS,
    };
    UnixTime { secs: now.secs - age, nanos: now.nanos }
}

/// A row the sweeper re-enqueues: still pending its scan, uploaded before the cutoff,
/// and with an id.
pub open spec fn swept(row: FileModel, cutoff: UnixTime) -> bool {
    row.file_status == FileFileStatus::PendingVirusScan && earlier(row.uploaded_at, cutoff)
        && row.id is Some
}

/// `(table, bare id)` of each row that [`swept`] selects, in order.
pub open spec fn sweep_targets_spec(rows: Seq<FileModel>, cutoff: UnixTime) -> Seq<(Seq<char>, Seq<char>)>
    decreases rows.len(),
{
    if rows.len() == 0 {
        seq![]
    } else {
        let rest = sweep_targets_spec(rows.drop_last(), cutoff);
        let row = rows.last();
        if swept(row, cutoff) {
            rest.push((row.id->0.table@, row.id->0.id@))
        } else {
            rest
        }
    }
}

/// Select the scan jobs to enqueue again: rows still pending their scan, uploaded
/// before `cutoff`, with an id.
pub fn sweep_targets(rows: &Vec<FileModel>, cutoff: UnixTime) -> (r: Vec<(String, String)>)
    ensures
        r@.len() == sweep_targets_spec(rows@, cutoff).len(),
        forall|i: int|
            0 <= i < r@.len() ==> (#[trigger] r@[i].0@, r@[i].1@) == sweep_targets_spec(
                rows@,
                cutoff,
            )[i],
{
    let mut out: Vec<(String, String)> = Vec::new();
    let mut i: usize = 0;
    while i < rows.len()
        invariant
            i <= rows@.len(),
            out@.len() == sweep_targets_spec(rows@.take(i as int), cutoff).len(),
            forall|k: int|
                0 <= k < out@.len() ==> (#[trigger] out@[k].0@, out@[k].1@) == sweep_targets_spec(
                    rows@.take(i as int),
                    cutoff,
                )[k],
        decreases rows@.len() - i,
    {
        let ghost pre = rows@.take(i as int + 1);
        assert(pre.drop_last() =~= rows@.take(i as int));
        assert(pre.last() == rows@[i as int]);
        let row = &rows[i];
        let pending = match row.file_status {
            FileFileStatus::PendingVirusScan => true,
            _ => false,
        };
        if pending && row.uploaded_at.is_before(&cutoff) {
            if let Some(rid) = &row.id {
                out.push((String::from_str(rid.table.as_str()), String::from_str(rid.id.as_str())));
            }
        }
        i = i + 1;
    }
    assert(rows@.take(rows@.len() as int) =~= rows@);
    out
}

} // verus!
