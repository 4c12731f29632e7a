//! Promote quarantine object bytes into the available store.
//!
//! A promotion fetches the object from quarantine, stores the same bytes under
//! the same key in the available store, then deletes the quarantine copy. The host
//! performs each store call that [`Promotion::step`] asks for and reports back.

use vstd::prelude::*;
use crate::error::{store_error_message, FileStoreError};
use crate::install::{installed_blob_store, installed_quarantine_store, BlobInstalls};

verus! {

/// Errors from a promotion.
#[derive(Debug)]
pub enum PromoteError {
    /// The available put succeeded but the quarantine delete failed (bytes may be in both).
    Partial {
        /// Underlying store error.
        source: FileStoreError,
    },
    /// Store install or get/put failure before a partial state.
    Store(FileStoreError),
}

/// The error's message; a store error shows its own message.
pub open spec fn promote_error_message(e: PromoteError) -> Seq<char> {
    match e {
        PromoteError::Partial { .. } => "promote partial: quarantine delete failed"@,
        PromoteError::Store(s) => store_error_message(s),
    }
}

impl PromoteError {
    /// The error's message.
    pub fn message(&self) -> (r: &'static str)
        ensures
            r@ == promote_error_message(*self),
    {
        match self {
            PromoteError::Partial { .. } => "promote partial: quarantine delete failed",
            PromoteError::Store(s) => s.message(),
        }
    }
}

/// Where a promotion stands.
#[derive(Clone, Copy, Debug, PartialEq, Eq, Structural)]
pub enum PromotePhase {
    /// Waiting for the quarantine get.
    Fetch,
    /// Waiting for the available put.
    Store,
    /// Waiting for the quarantine delete.
    Remove,
    /// Done.
    Finished,
}

/// The next store call a promotion needs, or its result.
#[derive(Debug)]
pub enum PromoteAction {
    /// Get the key from the quarantine store.
    GetQuarantine,
    /// Put these bytes under the key in the available store.
    PutAvailable(Vec<u8>),
    /// Delete the key from the quarantine store.
    DeleteQuarantine,
    /// The promotion is over.
    Done(Result<String, PromoteError>),
}

/// The outcome of the store call a promotion asked for.
#[derive(Debug)]
pub enum PromoteEvent {
    /// Outcome of the quarantine get.
    Got(Result<Vec<u8>, FileStoreError>),
    /// Outcome of the available put.
    Stored(Result<(), FileStoreError>),
    /// Outcome of the quarantine delete.
    Removed(Result<(), FileStoreError>),
}

/// A promotion of one key.
pub struct Promotion {
    key: String,
    phase: PromotePhase,
}

/// The event that answers a phase's request.
pub open spec fn answers(phase: PromotePhase, event: PromoteEvent) -> bool {
    match phase {
        PromotePhase::Fetch => event is Got,
        PromotePhase::Store => event is Stored,
        PromotePhase::Remove => event is Removed,
        PromotePhase::Finished => false,
    }
}

/// The phase after `event` answers `phase`.
pub open spec fn next_phase(phase: PromotePhase, event: PromoteEvent) -> PromotePhase {
    match event {
        PromoteEvent::Got(Ok(_)) => PromotePhase::Store,
        PromoteEvent::Stored(Ok(_)) => PromotePhase::Remove,
        _ => PromotePhase::Finished,
    }
}

/// The action after `event` answers the current request for `key`.
pub open spec fn next_action(key: Seq<char>, event: PromoteEvent) -> PromoteAction {
    match event {
        PromoteEvent::Got(Ok(bytes)) => PromoteAction::PutAvailable(bytes),
        PromoteEvent::Got(Err(e)) => PromoteAction::Done(Err(PromoteError::Store(e))),
        PromoteEvent::Stored(Ok(_)) => PromoteAction::DeleteQuarantine,
        PromoteEvent::Stored(Err(e)) => PromoteAction::Done(Err(PromoteError::Store(e))),
        PromoteEvent::Removed(Ok(_)) => PromoteAction::Done(Ok(spec_string(key))),
        PromoteEvent::Removed(Err(e)) => PromoteAction::Done(Err(PromoteError::Partial { source: e })),
    }
}

/// Some `String` whose characters are `s`.
pub open spec fn spec_string(s: Seq<char>) -> String {
    choose|t: String| t@ == s
}

/// The quarantine and available stores a promotion uses, quarantine checked first.
pub fn promote_stores<'a, S>(installs: &'a BlobInstalls<S>) -> (r: Result<(&'a S, &'a S), PromoteError>)
    ensures
        installs@.1 is None ==> (r matches Err(PromoteError::Store(e))
            && e is QuarantineStoreNotInstalled),
        installs@.1 is Some && installs@.0 is None ==> (r matches Err(PromoteError::Store(e))
            && e is BlobStoreNotInstalled),
        installs@.1 is Some && installs@.0 is Some ==> (r matches Ok(p) && installs@.1 == Some(
            *p.0,
        ) && installs@.0 == Some(*p.1)),
{
    let quarantine = match installed_quarantine_store(installs) {
        Ok(s) => s,
        Err(e) => {
            return Err(PromoteError::Store(e));
        },
    };
    let available = match installed_blob_store(installs) {
        Ok(s) => s,
        Err(e) => {
            return Err(PromoteError::Store(e));
        },
    };
    Ok((quarantine, available))
}

impl Promotion {
    /// The promoted key.
    pub closed spec fn key(&self) -> Seq<char> {
        self.key@
    }

    /// Where the promotion stands.
    pub closed spec fn phase(&self) -> PromotePhase {
        self.phase
    }

    /// Start promoting `key`: the first request is the quarantine get.
    pub fn new(key: &str) -> (r: (Promotion, PromoteAction))
        ensures
            r.0.key() == key@,
            r.0.phase() == PromotePhase::Fetch,
            r.1 is GetQuarantine,
    {
        (Promotion { key: String::from_str(key), phase: PromotePhase::Fetch }, PromoteAction::GetQuarantine)
    }

    /// The promoted key.
    pub fn key_str(&self) -> (r: &str)
        ensures
            r@ == self.key(),
    {
        self.key.as_str()
    }

    /// Advance with the outcome of the requested store call.
    pub fn step(&mut self, event: PromoteEvent) -> (r: PromoteAction)
        requires
            answers(old(self).phase(), event),
        ensures
            final(self).key() == old(self).key(),
            final(self).phase() == next_phase(old(self).phase(), event),
            r matches PromoteAction::Done(Ok(k)) ==> k@ == old(self).key() && event is Removed,
            !(r matches PromoteAction::Done(Ok(_))) ==> r == next_action(old(self).key(), event),
    {
        match event {
            PromoteEvent::Got(Ok(bytes)) => {
                self.phase = PromotePhase::Store;
                PromoteAction::PutAvailable(bytes)
            },
            PromoteEvent::Got(Err(e)) => {
                self.phase = PromotePhase::Finished;
                PromoteAction::Done(Err(PromoteError::Store(e)))
            },
            PromoteEvent::Stored(Ok(())) => {
                self.phase = PromotePhase::Remove;
                PromoteAction::DeleteQuarantine
            },
            PromoteEvent::Stored(Err(e)) => {
                self.phase = PromotePhase::Finished;
                PromoteAction::Done(Err(PromoteError::Store(e)))
            },
            PromoteEvent::Removed(Ok(())) => {
                self.phase = PromotePhase::Finished;
                PromoteAction::Done(Ok(String::from_str(self.key.as_str())))
            },
            PromoteEvent::Removed(Err(e)) => {
                self.phase = PromotePhase::Finished;
                PromoteAction::Done(Err(PromoteError::Partial { source: e }))
            },
        }
    }
}

/// Law: a promotion moves through fetch, store and delete in that order: the delete
/// phase is reached only from the store phase after a successful put, and the store
/// phase only from the fetch phase after a successful get. It asks to
/// store exactly the bytes the fetch returned, asks to delete the quarantine copy
/// only after that store succeeded, and a delete failure after the store is reported
/// as a partial promotion.
pub proof fn lemma_promote_order(key: Seq<char>, got: Vec<u8>, store_err: FileStoreError, del_err: FileStoreError)
    ensures
        next_phase(PromotePhase::Fetch, PromoteEvent::Got(Ok(got))) == PromotePhase::Store,
        next_action(key, PromoteEvent::Got(Ok(got))) == PromoteAction::PutAvailable(got),
        next_phase(PromotePhase::Store, PromoteEvent::Stored(Ok(()))) == PromotePhase::Remove,
        next_action(key, PromoteEvent::Stored(Ok(()))) is DeleteQuarantine,
        forall|ev: PromoteEvent|
            #[trigger] next_action(key, ev) is DeleteQuarantine ==> ev matches PromoteEvent::Stored(
                Ok(_),
            ),
        forall|p: PromotePhase, ev: PromoteEvent|
            answers(p, ev) && #[trigger] next_phase(p, ev) == PromotePhase::Remove ==> p
                == PromotePhase::Store && ev matches PromoteEvent::Stored(Ok(_)),
        forall|p: PromotePhase, ev: PromoteEvent|
            answers(p, ev) && #[trigger] next_phase(p, ev) == PromotePhase::Store ==> p
                == PromotePhase::Fetch && ev matches PromoteEvent::Got(Ok(_)),
        forall|ev: PromoteEvent|
            #[trigger] next_action(key, ev) is PutAvailable ==> (ev matches PromoteEvent::Got(Ok(b))
                && next_action(key, ev) == PromoteAction::PutAvailable(b)),
        next_action(key, PromoteEvent::Removed(Err(del_err))) == PromoteAction::Done(
            Err(PromoteError::Partial { source: del_err }),
        ),
        next_action(key, PromoteEvent::Stored(Err(store_err))) == PromoteAction::Done(
            Err(PromoteError::Store(store_err)),
        ),
{
}

} // verus!
