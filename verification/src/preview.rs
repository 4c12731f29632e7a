//! Mime-class routing for File previews.

use vstd::prelude::*;
use crate::text::{
    ascii_lower, ascii_upper, is_ws, lead, trail, lemma_lower_upper, lemma_trim_surrounded, lemma_trim_upper,
    CharClass, chars_ends_with, chars_of, chars_starts_with, ends_with, eq_lit, starts_with,
    to_ascii_lower, trim, trim_ws,
};

verus! {

/// How a consumer should render a File payload.
#[derive(Clone, Copy, Debug, PartialEq, Eq, Structural)]
pub enum PreviewKind {
    /// `image/*`.
    Image,
    /// Text-ish payloads.
    Text,
    /// No in-app preview; offer download only.
    Unsupported,
}

/// Mime types (already trimmed and lower-cased) that preview as text.
pub open spec fn text_mime(m: Seq<char>) -> bool {
    ||| starts_with(m, "text/"@)
    ||| m == "application/json"@
    ||| m == "application/xml"@
    ||| m == "application/csv"@
    ||| m == "text/csv"@
    ||| ends_with(m, "+json"@)
    ||| ends_with(m, "+xml"@)
    ||| m == "application/vnd.ms-excel"@
}

/// Preview class of a stored mime type, compared trimmed and ASCII lower-cased.
pub open spec fn preview_kind_spec(mime_type: Seq<char>) -> PreviewKind {
    let m = ascii_lower(trim(mime_type));
    if starts_with(m, "image/"@) {
        PreviewKind::Image
    } else if text_mime(m) {
        PreviewKind::Text
    } else {
        PreviewKind::Unsupported
    }
}

/// Classify a stored `mime_type` for preview.
pub fn preview_kind(mime_type: &str) -> (r: PreviewKind)
    ensures
        r == preview_kind_spec(mime_type@),
{
    let mime = to_ascii_lower(&trim_ws(&chars_of(mime_type)));
    if chars_starts_with(&mime, &chars_of("image/")) {
        return PreviewKind::Image;
    }
    if chars_starts_with(&mime, &chars_of("text/")) || eq_lit(&mime, "application/json") || eq_lit(
        &mime,
        "application/xml",
    ) || eq_lit(&mime, "application/csv") || eq_lit(&mime, "text/csv") || chars_ends_with(
        &mime,
        &chars_of("+json"),
    ) || chars_ends_with(&mime, &chars_of("+xml")) {
        return PreviewKind::Text;
    }
    if eq_lit(&mime, "application/vnd.ms-excel") {
        return PreviewKind::Text;
    }
    PreviewKind::Unsupported
}

/// Law: the class ignores ASCII case and surrounding whitespace. Upper-casing a mime
/// type, or putting whitespace before or after it, never changes its preview class.
pub proof fn lemma_preview_kind_ignores_case_and_padding(
    mime_type: Seq<char>,
    before: Seq<char>,
    after: Seq<char>,
)
    requires
        forall|i: int| 0 <= i < before.len() ==> is_ws(#[trigger] before[i]),
        forall|i: int| 0 <= i < after.len() ==> is_ws(#[trigger] after[i]),
    ensures
        preview_kind_spec(ascii_upper(mime_type)) == preview_kind_spec(mime_type),
        preview_kind_spec(before + mime_type + after) == preview_kind_spec(mime_type),
{
    lemma_trim_upper(mime_type);
    lemma_lower_upper(trim(mime_type));
    lemma_trim_surrounded(before, mime_type, after, CharClass::Whitespace);
}

/// A mime type already in the form the classifier compares: non-empty, no whitespace
/// and no ASCII upper-case letter.
pub open spec fn plain_mime(m: Seq<char>) -> bool {
    forall|i: int| 0 <= i < m.len() ==> !is_ws(#[trigger] m[i]) && !('A' <= m[i] && m[i] <= 'Z')
}

/// A plain mime type is compared as it is.
proof fn lemma_plain_compared_as_is(m: Seq<char>)
    requires
        plain_mime(m),
    ensures
        ascii_lower(trim(m)) == m,
{
    if m.len() > 0 {
        assert(!is_ws(m[0]));
        assert(!is_ws(m[m.len() - 1]));
    }
    assert(lead(m, CharClass::Whitespace) == 0);
    assert(m.skip(0) =~= m);
    assert(trail(m, CharClass::Whitespace) == 0);
    assert(m.take(m.len() as int) =~= m);
    assert(trim(m) == m);
    assert(ascii_lower(m) =~= m);
}

/// Joining two plain texts gives a plain text.
proof fn lemma_plain_concat(a: Seq<char>, b: Seq<char>)
    requires
        plain_mime(a),
        plain_mime(b),
    ensures
        plain_mime(a + b),
{
    assert forall|i: int| 0 <= i < (a + b).len() implies !is_ws(#[trigger] (a + b)[i]) && !('A'
        <= (a + b)[i] && (a + b)[i] <= 'Z') by {
        if i < a.len() {
            assert((a + b)[i] == a[i]);
        } else {
            assert((a + b)[i] == b[i - a.len()]);
        }
    }
}

/// A plain mime type that is not `image/*` and is one of the text forms previews as text.
proof fn lemma_text_when(m: Seq<char>)
    requires
        plain_mime(m),
        !starts_with(m, "image/"@),
        text_mime(m),
    ensures
        preview_kind_spec(m) == PreviewKind::Text,
{
    lemma_plain_compared_as_is(m);
}

/// Law: every mime type named as text previews as text: `application/json`,
/// `application/xml`, `application/csv`, `text/csv`, `application/vnd.ms-excel`, any
/// `text/…`, and any `…+json` or `…+xml` that is not an image type. Each is stated on
/// its own; `rest` is any lower-case text without whitespace.
pub proof fn lemma_text_mime_types(rest: Seq<char>)
    requires
        plain_mime(rest),
    ensures
        preview_kind_spec("application/json"@) == PreviewKind::Text,
        preview_kind_spec("application/xml"@) == PreviewKind::Text,
        preview_kind_spec("application/csv"@) == PreviewKind::Text,
        preview_kind_spec("text/csv"@) == PreviewKind::Text,
        preview_kind_spec("application/vnd.ms-excel"@) == PreviewKind::Text,
        preview_kind_spec("text/"@ + rest) == PreviewKind::Text,
        !starts_with(rest, "image/"@) ==> preview_kind_spec(rest + "+json"@) == PreviewKind::Text,
        !starts_with(rest, "image/"@) ==> preview_kind_spec(rest + "+xml"@) == PreviewKind::Text,
{
    reveal_strlit("application/json");
    reveal_strlit("application/xml");
    reveal_strlit("application/csv");
    reveal_strlit("text/csv");
    reveal_strlit("application/vnd.ms-excel");
    reveal_strlit("text/");
    reveal_strlit("+json");
    reveal_strlit("+xml");
    reveal_strlit("image/");
    assert(!starts_with("application/json"@, "image/"@)) by {
        assert("application/json"@.take(6)[0] != "image/"@[0]);
    }
    lemma_text_when("application/json"@);
    assert(!starts_with("application/xml"@, "image/"@)) by {
        assert("application/xml"@.take(6)[0] != "image/"@[0]);
    }
    lemma_text_when("application/xml"@);
    assert(!starts_with("application/csv"@, "image/"@)) by {
        assert("application/csv"@.take(6)[0] != "image/"@[0]);
    }
    lemma_text_when("application/csv"@);
    assert(starts_with("text/csv"@, "text/"@)) by {
        assert("text/csv"@.take(5) =~= "text/"@);
    }
    assert(!starts_with("text/csv"@, "image/"@)) by {
        assert("text/csv"@.take(6)[0] != "image/"@[0]);
    }
    lemma_text_when("text/csv"@);
    assert(!starts_with("application/vnd.ms-excel"@, "image/"@)) by {
        assert("application/vnd.ms-excel"@.take(6)[0] != "image/"@[0]);
    }
    lemma_text_when("application/vnd.ms-excel"@);
    let t = "text/"@ + rest;
    lemma_plain_concat("text/"@, rest);
    assert(t.take(5) =~= "text/"@);
    assert(!starts_with(t, "image/"@)) by {
        if t.len() >= 6 {
            assert(t.take(6)[0] != "image/"@[0]);
        }
    }
    lemma_text_when(t);
    let j = rest + "+json"@;
    let x = rest + "+xml"@;
    lemma_plain_concat(rest, "+json"@);
    lemma_plain_concat(rest, "+xml"@);
    assert(j.skip(j.len() - 5) =~= "+json"@);
    assert(x.skip(x.len() - 4) =~= "+xml"@);
    if !starts_with(rest, "image/"@) {
        if starts_with(j, "image/"@) {
            if rest.len() >= 6 {
                assert(rest.take(6) =~= j.take(6));
            } else {
                assert(j[rest.len() as int] == '+');
                assert(j.take(6)[rest.len() as int] == "image/"@[rest.len() as int]);
            }
        }
        if starts_with(x, "image/"@) {
            if rest.len() >= 6 {
                assert(rest.take(6) =~= x.take(6));
            } else {
                assert(x[rest.len() as int] == '+');
                assert(x.take(6)[rest.len() as int] == "image/"@[rest.len() as int]);
            }
        }
        lemma_text_when(j);
        lemma_text_when(x);
    }
}

} // verus!
