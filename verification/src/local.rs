//! Local directory blob store: key resolution and the mapping of filesystem outcomes.
//!
//! The host performs the filesystem calls and hands their outcome to the
//! `*_outcome` functions, which decide what the store reports.

use vstd::prelude::*;
use crate::error::{ErrorSource, FileStoreError, SourceKind};
use crate::keys::{valid_key, validate_object_key};
use crate::text::{chars_of, chars_ends_with, contains, ends_with, extend_chars, starts_with, string_of};

verus! {

/// Local directory blob store (`uploads/` by default).
#[derive(Clone, Debug)]
pub struct LocalDiskBlobStore {
    root: String,
}

impl View for LocalDiskBlobStore {
    type V = Seq<char>;

    closed spec fn view(&self) -> Seq<char> {
        self.root@
    }
}

/// `root` joined with a relative `key`, as `Path::join` does on Unix: a separator is
/// added unless `root` is empty or already ends with one.
pub open spec fn join_spec(root: Seq<char>, key: Seq<char>) -> Seq<char> {
    if root.len() == 0 {
        key
    } else if ends_with(root, seq!['/']) {
        root + key
    } else {
        root + seq!['/'] + key
    }
}

/// Law: a resolved path never leaves the store root. It starts with the root, and
/// what follows the root (and its separator) is the key itself, which holds no
/// separator and no `..`.
pub proof fn lemma_resolved_path_in_root(root: Seq<char>, key: Seq<char>)
    requires
        valid_key(key),
    ensures
        starts_with(join_spec(root, key), root),
        ends_with(join_spec(root, key), key),
        !contains(key, seq!['/']) && !contains(key, seq!['.', '.']),
{
    let p = join_spec(root, key);
    assert(p.take(root.len() as int) =~= root);
    assert(p.skip(p.len() - key.len()) =~= key);
}

/// Law: keys never alias within a store. Two keys resolve to the same path only when
/// they are the same key, so a put under one key never overwrites another key's bytes.
pub proof fn lemma_distinct_keys_distinct_paths(root: Seq<char>, k1: Seq<char>, k2: Seq<char>)
    ensures
        join_spec(root, k1) == join_spec(root, k2) ==> k1 == k2,
{
    let prefix = if root.len() == 0 {
        seq![]
    } else if ends_with(root, seq!['/']) {
        root
    } else {
        root + seq!['/']
    };
    assert(join_spec(root, k1) =~= prefix + k1);
    assert(join_spec(root, k2) =~= prefix + k2);
    assert((prefix + k1).skip(prefix.len() as int) =~= k1);
    assert((prefix + k2).skip(prefix.len() as int) =~= k2);
}

impl LocalDiskBlobStore {
    /// A store rooted at `root` (created on first put).
    pub fn new(root: String) -> (r: Self)
        ensures
            r@ == root@,
    {
        LocalDiskBlobStore { root }
    }

    /// The default process-local `uploads` directory.
    pub fn default_uploads() -> (r: Self)
        ensures
            r@ == "uploads"@,
    {
        Self::new(String::from_str("uploads"))
    }

    /// The root directory.
    pub fn root(&self) -> (r: &str)
        ensures
            r@ == self@,
    {
        self.root.as_str()
    }

    /// The file path for `key`, after the key check.
    pub fn resolve(&self, key: &str) -> (r: Result<String, FileStoreError>)
        ensures
            r is Ok <==> valid_key(key@),
            r matches Ok(p) ==> p@ == join_spec(self@, key@),
            r matches Err(e) ==> e is InvalidKey,
    {
        validate_object_key(key)?;
        let root = chars_of(self.root.as_str());
        let k = chars_of(key);
        let slash = vec!['/'];
        assert(slash@ =~= seq!['/']);
        let mut path = chars_of(self.root.as_str());
        if root.len() == 0 {
            return Ok(string_of(&k));
        }
        if !chars_ends_with(&root, &slash) {
            path.push('/');
        }
        extend_chars(&mut path, &k);
        Ok(string_of(&path))
    }

    /// Outcome of creating the directory, the file, writing or flushing during a put.
    pub fn write_outcome(res: Result<(), ErrorSource>) -> (r: Result<(), FileStoreError>)
        ensures
            res is Ok <==> r is Ok,
            res matches Err(e) ==> r == Err::<(), FileStoreError>(FileStoreError::Io { http_status: None, source: Some(e) }),
    {
        match res {
            Ok(()) => Ok(()),
            Err(e) => Err(FileStoreError::Io { http_status: None, source: Some(e) }),
        }
    }

    /// Outcome of reading a file: a missing file is `NotFound`, other failures are I/O.
    pub fn read_outcome(res: Result<Vec<u8>, ErrorSource>) -> (r: Result<Vec<u8>, FileStoreError>)
        ensures
            res matches Ok(b) ==> r == Ok::<Vec<u8>, FileStoreError>(b),
            res matches Err(e) ==> (if e.kind == SourceKind::NotFound {
                r matches Err(FileStoreError::NotFound)
            } else {
                r == Err::<Vec<u8>, FileStoreError>(FileStoreError::Io { http_status: None, source: Some(e) })
            }),
    {
        match res {
            Ok(b) => Ok(b),
            Err(e) => {
                if e.kind == SourceKind::NotFound {
                    Err(FileStoreError::NotFound)
                } else {
                    Err(FileStoreError::io(e))
                }
            },
        }
    }

    /// Outcome of removing a file: a missing file is fine, other failures are I/O.
    pub fn delete_outcome(res: Result<(), ErrorSource>) -> (r: Result<(), FileStoreError>)
        ensures
            r is Ok <==> (res is Ok || res->Err_0.kind == SourceKind::NotFound),
            res matches Err(e) ==> (e.kind != SourceKind::NotFound ==> r == Err::<(), FileStoreError>(
                FileStoreError::Io { http_status: None, source: Some(e) },
            )),
    {
        match res {
            Ok(()) => Ok(()),
            Err(e) => {
                if e.kind == SourceKind::NotFound {
                    Ok(())
                } else {
                    Err(FileStoreError::io(e))
                }
            },
        }
    }
}

} // verus!
