//! The File image view: which owned row a File id names, its serve URL, and what
//! the image frame shows for each load state.

use vstd::prelude::*;
use crate::model::{status_wire, FileModel, RecordId};
use crate::ownership::{find_file_in_owned_rows, has_id};
use crate::status::{bare_file_id, bare_id, image_src_spec, is_pending_spec, is_pending_status, meson_image_src_for_status};
use crate::text::{chars_eq, chars_of};

verus! {

/// File status plus the optional serve URL.
#[derive(Clone, Debug)]
pub struct MesonImageSrc {
    /// File status wire string (`available`, `pending_virus_scan`, …).
    pub file_status: String,
    /// `/api/files/{id}` when available; otherwise `None`.
    pub src: Option<String>,
}

/// `row`'s id within its table is `bare`.
pub open spec fn has_bare_id(row: FileModel, bare: Seq<char>) -> bool {
    row.id matches Some(rid) && rid.id@ == bare
}

/// Index of the first row whose bare id is `bare`.
fn position_of_bare_id(rows: &Vec<FileModel>, bare: &[char]) -> (r: Option<usize>)
    ensures
        r is None ==> forall|i: int| 0 <= i < rows@.len() ==> !has_bare_id(#[trigger] rows@[i], bare@),
        r matches Some(i) ==> i < rows@.len() && has_bare_id(rows@[i as int], bare@) && forall|k: int|
            0 <= k < i ==> !has_bare_id(#[trigger] rows@[k], bare@),
{
    let mut i: usize = 0;
    while i < rows.len()
        invariant
            i <= rows@.len(),
            forall|k: int| 0 <= k < i ==> !has_bare_id(#[trigger] rows@[k], bare@),
        decreases rows@.len() - i,
    {
        let hit = match &rows[i].id {
            Some(rid) => chars_eq(&chars_of(rid.id.as_str()), bare),
            None => false,
        };
        if hit {
            return Some(i);
        }
        i = i + 1;
    }
    None
}

/// Resolve the image source for `file_id` among the session user's File rows.
///
/// `want` is the File id parsed as a record id, when it parses. A missing or foreign
/// id answers `not_found` (the same answer for both). The URL uses the row's own
/// bare id and is present only for `available`.
pub fn resolve_owned_image_src(rows: Vec<FileModel>, file_id: &str, want: Option<RecordId>) -> (r: Result<
    MesonImageSrc,
    String,
>)
    ensures
        (match want {
            Some(w) => forall|i: int| 0 <= i < rows@.len() ==> !has_id(#[trigger] rows@[i], w@),
            None => forall|i: int|
                0 <= i < rows@.len() ==> !has_bare_id(#[trigger] rows@[i], bare_id(file_id@)),
        }) <==> r is Err,
        r matches Err(m) ==> m@ == "not_found: File not found"@,
        r matches Ok(dto) ==> exists|i: int|
            0 <= i < rows@.len() && (match want {
                Some(w) => has_id(rows@[i], w@) && forall|k: int|
                    0 <= k < i ==> !has_id(#[trigger] rows@[k], w@),
                None => has_bare_id(rows@[i], bare_id(file_id@)) && forall|k: int|
                    0 <= k < i ==> !has_bare_id(#[trigger] rows@[k], bare_id(file_id@)),
            }) && dto.file_status@ == status_wire(rows@[i].file_status) && (match dto.src {
                Some(s) => image_src_spec(rows@[i].id->0.id@, dto.file_status@) == Some(s@),
                None => image_src_spec(rows@[i].id->0.id@, dto.file_status@) is None,
            }),
{
    let row = match want {
        Some(w) => find_file_in_owned_rows(rows, &w),
        None => {
            let bare = chars_of(bare_file_id(file_id));
            match position_of_bare_id(&rows, &bare) {
                Some(i) => {
                    let mut owned = rows;
                    Some(owned.remove(i))
                },
                None => None,
            }
        },
    };
    let row = match row {
        Some(row) => row,
        None => {
            return Err(String::from_str("not_found: File not found"));
        },
    };
    let status = String::from_str(row.file_status.as_str());
    let serve_id = match &row.id {
        Some(rid) => String::from_str(rid.id.as_str()),
        None => String::from_str(bare_file_id(file_id)),
    };
    let src = meson_image_src_for_status(serve_id.as_str(), status.as_str());
    Ok(MesonImageSrc { file_status: status, src })
}

/// What the image frame shows.
#[derive(Clone, Debug)]
pub enum ImgFrame {
    /// A skeleton while the File is pending or still loading.
    Skeleton,
    /// The image at this URL.
    Image(String),
    /// An empty frame (quarantined, not found or failed): no bytes are requested.
    Empty,
}

/// The frame for a load state: `None` while loading, then the resolved source or
/// the error.
pub fn meson_img_frame(state: &Option<Result<MesonImageSrc, String>>) -> (r: ImgFrame)
    ensures
        state is None ==> r is Skeleton,
        state matches Some(Err(_)) ==> r is Empty,
        state matches Some(Ok(dto)) ==> (if is_pending_spec(dto.file_status@) {
            r is Skeleton
        } else {
            match dto.src {
                Some(s) => r matches ImgFrame::Image(t) && t@ == s@,
                None => r is Empty,
            }
        }),
{
    match state {
        None => ImgFrame::Skeleton,
        Some(Err(_)) => ImgFrame::Empty,
        Some(Ok(dto)) => {
            if is_pending_status(dto.file_status.as_str()) {
                ImgFrame::Skeleton
            } else {
                match &dto.src {
                    Some(s) => ImgFrame::Image(String::from_str(s.as_str())),
                    None => ImgFrame::Empty,
                }
            }
        },
    }
}

/// Skeleton item shape.
#[derive(Clone, Copy, Debug, PartialEq, Eq, Structural)]
pub enum SkeletonShape {
    /// For circular images.
    Circle,
    /// For every other image shape.
    Rectangle,
}

/// The skeleton's shape and size: a circle for circular images; width `100%` and
/// height `120px` unless given.
pub fn pending_skeleton(width: Option<String>, height: Option<String>, circular: bool) -> (r: (
    SkeletonShape,
    String,
    String,
))
    ensures
        r.0 == (if circular {
            SkeletonShape::Circle
        } else {
            SkeletonShape::Rectangle
        }),
        r.1@ == (match width {
            Some(w) => w@,
            None => "100%"@,
        }),
        r.2@ == (match height {
            Some(h) => h@,
            None => "120px"@,
        }),
{
    let shape = if circular {
        SkeletonShape::Circle
    } else {
        SkeletonShape::Rectangle
    };
    let w = match width {
        Some(w) => w,
        None => String::from_str("100%"),
    };
    let h = match height {
        Some(h) => h,
        None => String::from_str("120px"),
    };
    (shape, w, h)
}

} // verus!
