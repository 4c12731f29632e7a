//! The available and quarantine store installs that File helpers resolve.
//!
//! A host keeps one [`BlobInstalls`] for the process (behind its own lock) and
//! calls these functions on it.

use vstd::prelude::*;
use crate::error::FileStoreError;

verus! {

/// The installed available store and quarantine store, each optional.
pub struct BlobInstalls<S> {
    available: Option<S>,
    quarantine: Option<S>,
}

impl<S> View for BlobInstalls<S> {
    type V = (Option<S>, Option<S>);

    closed spec fn view(&self) -> (Option<S>, Option<S>) {
        (self.available, self.quarantine)
    }
}

impl<S> BlobInstalls<S> {
    /// Nothing installed.
    pub fn new() -> (r: Self)
        ensures
            r@ == (None::<S>, None::<S>),
    {
        BlobInstalls { available: None, quarantine: None }
    }
}

/// Install the **available** store used by File load helpers; a later call
/// replaces the previous install. The quarantine install is left as it is.
pub fn install_blob_store<S>(slots: &mut BlobInstalls<S>, store: S) -> (r: Result<(), FileStoreError>)
    ensures
        r is Ok,
        final(slots)@ == (Some(store), old(slots)@.1),
{
    slots.available = Some(store);
    Ok(())
}

/// The installed available store, or `BlobStoreNotInstalled`.
pub fn installed_blob_store<S>(slots: &BlobInstalls<S>) -> (r: Result<&S, FileStoreError>)
    ensures
        r is Ok <==> slots@.0 is Some,
        r matches Ok(s) ==> slots@.0 == Some(*s),
        r matches Err(e) ==> e is BlobStoreNotInstalled,
{
    match &slots.available {
        Some(s) => Ok(s),
        None => Err(FileStoreError::BlobStoreNotInstalled),
    }
}

/// Clear the available install.
pub fn clear_blob_store_for_test<S>(slots: &mut BlobInstalls<S>)
    ensures
        final(slots)@ == (None::<S>, old(slots)@.1),
{
    slots.available = None;
}

/// Install the **quarantine** store (pre-scan bytes); a later call replaces the
/// previous install. The available install is left as it is.
pub fn install_quarantine_store<S>(slots: &mut BlobInstalls<S>, store: S) -> (r: Result<(), FileStoreError>)
    ensures
        r is Ok,
        final(slots)@ == (old(slots)@.0, Some(store)),
{
    slots.quarantine = Some(store);
    Ok(())
}

/// The installed quarantine store, or `QuarantineStoreNotInstalled`.
pub fn installed_quarantine_store<S>(slots: &BlobInstalls<S>) -> (r: Result<&S, FileStoreError>)
    ensures
        r is Ok <==> slots@.1 is Some,
        r matches Ok(s) ==> slots@.1 == Some(*s),
        r matches Err(e) ==> e is QuarantineStoreNotInstalled,
{
    match &slots.quarantine {
        Some(s) => Ok(s),
        None => Err(FileStoreError::QuarantineStoreNotInstalled),
    }
}

/// Clear the quarantine install.
pub fn clear_quarantine_store_for_test<S>(slots: &mut BlobInstalls<S>)
    ensures
        final(slots)@ == (old(slots)@.0, None::<S>),
{
    slots.quarantine = None;
}

/// Clear both installs.
pub fn clear_blob_stores_for_test<S>(slots: &mut BlobInstalls<S>)
    ensures
        final(slots)@ == (None::<S>, None::<S>),
{
    clear_blob_store_for_test(slots);
    clear_quarantine_store_for_test(slots);
}

} // verus!
