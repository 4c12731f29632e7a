//! Session-scoped File selection among owner-filtered rows.

use vstd::prelude::*;
use crate::model::{FileModel, RecordId};

verus! {

/// `row` has id `want`.
pub open spec fn has_id(row: FileModel, want: (Seq<char>, Seq<char>)) -> bool {
    row.id matches Some(rid) && rid@ == want
}

/// True when `row.uploaded_by` equals the session user.
pub fn is_uploaded_by(row: &FileModel, owner: &RecordId) -> (r: bool)
    ensures
        r == (row.uploaded_by@ == owner@),
{
    row.uploaded_by.same(owner)
}

/// Index of the first row of `rows` with id `want`.
fn position_of_id(rows: &Vec<FileModel>, want: &RecordId) -> (r: Option<usize>)
    ensures
        r is None ==> forall|i: int| 0 <= i < rows@.len() ==> !has_id(#[trigger] rows@[i], want@),
        r matches Some(i) ==> i < rows@.len() && has_id(rows@[i as int], want@) && forall|k: int|
            0 <= k < i ==> !has_id(#[trigger] rows@[k], want@),
{
    let mut i: usize = 0;
    while i < rows.len()
        invariant
            i <= rows@.len(),
            forall|k: int| 0 <= k < i ==> !has_id(#[trigger] rows@[k], want@),
        decreases rows@.len() - i,
    {
        let hit = match &rows[i].id {
            Some(rid) => rid.same(want),
            None => false,
        };
        if hit {
            return Some(i);
        }
        i = i + 1;
    }
    None
}

/// Select the File row whose id matches `want` among already owner-filtered rows.
///
/// Returns `None` when the id is missing from the owner-scoped set, so a foreign id
/// and a missing id look the same.
pub fn find_file_in_owned_rows(rows: Vec<FileModel>, want: &RecordId) -> (r: Option<FileModel>)
    ensures
        r is None <==> forall|i: int| 0 <= i < rows@.len() ==> !has_id(#[trigger] rows@[i], want@),
        r matches Some(row) ==> exists|i: int|
            0 <= i < rows@.len() && rows@[i] == row && has_id(row, want@) && forall|k: int|
                0 <= k < i ==> !has_id(#[trigger] rows@[k], want@),
{
    match position_of_id(&rows, want) {
        Some(i) => {
            let mut owned = rows;
            let row = owned.remove(i);
            Some(row)
        },
        None => None,
    }
}

} // verus!
