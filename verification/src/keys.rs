//! Flat object keys: what every byte backend accepts as a storage key.

use vstd::prelude::*;
use crate::error::FileStoreError;
use crate::text::{chars_contains, chars_of, contains};

verus! {

/// A flat object key: non-empty, without `..`, `/` or `\`.
///
/// An absolute path on this platform starts with `/`, so a flat key is never absolute.
pub open spec fn valid_key(key: Seq<char>) -> bool {
    &&& key.len() > 0
    &&& !contains(key, seq!['.', '.'])
    &&& !contains(key, seq!['/'])
    &&& !contains(key, seq!['\\'])
}

/// Reject empty, absolute, `..`, `/` and `\` keys (flat object keys only).
pub fn validate_object_key(key: &str) -> (r: Result<(), FileStoreError>)
    ensures
        r is Ok <==> valid_key(key@),
        r matches Err(e) ==> e is InvalidKey,
{
    let cs = chars_of(key);
    let dots = vec!['.', '.'];
    let slash = vec!['/'];
    let backslash = vec!['\\'];
    assert(dots@ =~= seq!['.', '.']);
    assert(slash@ =~= seq!['/']);
    assert(backslash@ =~= seq!['\\']);
    if cs.len() == 0 || chars_contains(&cs, &dots) || chars_contains(&cs, &slash)
        || chars_contains(&cs, &backslash) {
        return Err(FileStoreError::InvalidKey);
    }
    Ok(())
}

} // verus!
