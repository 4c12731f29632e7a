//! AWS Signature Version 4 (S3) request signing for RustFS / S3-compatible HTTP.

use vstd::prelude::*;
use vstd::utf8::encode_utf8;
use crate::hashing::{hex_encode, hex_lower, hmac_sha256, hmac_sha256_tag, sha256, sha256_digest};
use crate::text::{
    ascii_lower, chars_of, chars_starts_with, extend_chars, first_index, find_char,
    slice_chars, starts_with, string_of, to_ascii_lower, trim, trim_ws,
};

verus! {

/// A header as the signer sees it: lower-case name and raw value.
pub type HeaderSeq = Seq<(Seq<char>, Seq<char>)>;

/// The character views of a list of headers.
pub open spec fn headers_view(hs: Seq<(Vec<char>, Vec<char>)>) -> HeaderSeq {
    Seq::new(hs.len(), |i: int| (hs[i].0@, hs[i].1@))
}

/// Lexicographic order of character sequences by code point.
///
/// This is the order of `String`'s `Ord`, which compares UTF-8 bytes, and UTF-8
/// preserves the order of code points.
pub open spec fn key_lt(a: Seq<char>, b: Seq<char>) -> bool
    decreases a.len(),
{
    if a.len() == 0 {
        b.len() > 0
    } else if b.len() == 0 {
        false
    } else if a[0] != b[0] {
        a[0] < b[0]
    } else {
        key_lt(a.drop_first(), b.drop_first())
    }
}

/// Insert `x` after every header whose name is not greater than its own.
pub open spec fn insert_sorted(s: HeaderSeq, x: (Seq<char>, Seq<char>)) -> HeaderSeq
    decreases s.len(),
{
    if s.len() > 0 && key_lt(x.0, s.last().0) {
        insert_sorted(s.drop_last(), x).push(s.last())
    } else {
        s.push(x)
    }
}

/// Headers in the order of a stable sort by name (`sort_by` on the name).
pub open spec fn sort_headers(s: HeaderSeq) -> HeaderSeq
    decreases s.len(),
{
    if s.len() == 0 {
        s
    } else {
        insert_sorted(sort_headers(s.drop_last()), s.last())
    }
}

/// Canonical header block: one `name:trimmed-value\n` line per header.
pub open spec fn header_lines(hs: HeaderSeq) -> Seq<char>
    decreases hs.len(),
{
    if hs.len() == 0 {
        seq![]
    } else {
        header_lines(hs.drop_last()) + hs.last().0 + seq![':'] + trim(hs.last().1) + seq!['\n']
    }
}

/// Header names joined by `;`.
pub open spec fn header_names(hs: HeaderSeq) -> Seq<char>
    decreases hs.len(),
{
    if hs.len() == 0 {
        seq![]
    } else if hs.len() == 1 {
        hs[0].0
    } else {
        header_names(hs.drop_last()) + seq![';'] + hs.last().0
    }
}

/// `url` without a leading `https://` or `http://`.
pub open spec fn without_scheme(url: Seq<char>) -> Seq<char> {
    if starts_with(url, "https://"@) {
        url.skip(8)
    } else if starts_with(url, "http://"@) {
        url.skip(7)
    } else {
        url
    }
}

/// `(host, path, query)` of a URL: authority up to the first `/`, path up to the
/// first `?` (at least `/`), and the query after it.
pub open spec fn split_url_spec(url: Seq<char>) -> (Seq<char>, Seq<char>, Seq<char>) {
    let w = without_scheme(url);
    let authority = match first_index(w, '/') {
        Some(i) => w.take(i),
        None => w,
    };
    let rest = match first_index(w, '/') {
        Some(i) => w.skip(i),
        None => seq!['/'],
    };
    let path = match first_index(rest, '?') {
        Some(i) => rest.take(i),
        None => rest,
    };
    let query = match first_index(rest, '?') {
        Some(i) => rest.skip(i + 1),
        None => seq![],
    };
    (authority, if path.len() == 0 { seq!['/'] } else { path }, query)
}

/// The headers that every signed request carries, then the caller's extra headers
/// with lower-cased names.
pub open spec fn request_headers(
    host: Seq<char>,
    payload_hash: Seq<char>,
    amz_date: Seq<char>,
    extra: Seq<(&str, &str)>,
) -> HeaderSeq {
    seq![("host"@, host), ("x-amz-content-sha256"@, payload_hash), ("x-amz-date"@, amz_date)]
        + Seq::new(extra.len(), |i: int| (ascii_lower(extra[i].0@), extra[i].1@))
}

/// The canonical request that SigV4 hashes.
pub open spec fn canonical_request(
    method: Seq<char>,
    path: Seq<char>,
    query: Seq<char>,
    sorted: HeaderSeq,
    payload_hash: Seq<char>,
) -> Seq<char> {
    method + seq!['\n'] + path + seq!['\n'] + query + seq!['\n'] + header_lines(sorted) + seq!['\n']
        + header_names(sorted) + seq!['\n'] + payload_hash
}

/// `{datestamp}/{region}/s3/aws4_request`.
pub open spec fn credential_scope(datestamp: Seq<char>, region: Seq<char>) -> Seq<char> {
    datestamp + seq!['/'] + region + "/s3/aws4_request"@
}

/// The string that the signing key signs, given the hex hash of the canonical request.
pub open spec fn string_to_sign_for_hash(
    amz_date: Seq<char>,
    scope: Seq<char>,
    canonical_hash: Seq<char>,
) -> Seq<char> {
    "AWS4-HMAC-SHA256\n"@ + amz_date + seq!['\n'] + scope + seq!['\n'] + canonical_hash
}

/// The string that the signing key signs.
pub open spec fn string_to_sign(amz_date: Seq<char>, scope: Seq<char>, canonical: Seq<char>) -> Seq<
    char,
> {
    string_to_sign_for_hash(amz_date, scope, hex_lower(sha256(encode_utf8(canonical))))
}

/// The `Authorization` header value for the credential, scope, signed header names and
/// hex signature.
pub open spec fn authorization_spec(
    access_key: Seq<char>,
    scope: Seq<char>,
    signed_headers: Seq<char>,
    signature: Seq<char>,
) -> Seq<char> {
    "AWS4-HMAC-SHA256 Credential="@ + access_key + seq!['/'] + scope + ", SignedHeaders="@
        + signed_headers + ", Signature="@ + signature
}

/// The SigV4 signing key chain `AWS4{secret}` → date → region → service → `aws4_request`.
pub open spec fn signing_key(
    secret: Seq<char>,
    datestamp: Seq<char>,
    region: Seq<char>,
    service: Seq<char>,
) -> Seq<u8> {
    let k_date = hmac_sha256_tag(encode_utf8("AWS4"@ + secret), encode_utf8(datestamp));
    let k_region = hmac_sha256_tag(k_date, encode_utf8(region));
    let k_service = hmac_sha256_tag(k_region, encode_utf8(service));
    hmac_sha256_tag(k_service, encode_utf8("aws4_request"@))
}

/// `(authorization, amz_date, payload_hash)` for a request signed at `amz_date` / `datestamp`.
pub open spec fn sign_spec(
    method: Seq<char>,
    url: Seq<char>,
    body: Seq<u8>,
    access_key: Seq<char>,
    secret_key: Seq<char>,
    region: Seq<char>,
    extra: Seq<(&str, &str)>,
    amz_date: Seq<char>,
    datestamp: Seq<char>,
) -> (Seq<char>, Seq<char>, Seq<char>) {
    let (host, path, query) = split_url_spec(url);
    let payload_hash = hex_lower(sha256(body));
    let sorted = sort_headers(request_headers(host, payload_hash, amz_date, extra));
    let canonical = canonical_request(method, path, query, sorted, payload_hash);
    let scope = credential_scope(datestamp, region);
    let key = signing_key(secret_key, datestamp, region, "s3"@);
    let signature = hex_lower(
        hmac_sha256_tag(key, encode_utf8(string_to_sign(amz_date, scope, canonical))),
    );
    let authorization = authorization_spec(access_key, scope, header_names(sorted), signature);
    (authorization, amz_date, payload_hash)
}

/// The headers of `s` whose name is `name`, in order.
pub open spec fn with_name(s: HeaderSeq, name: Seq<char>) -> HeaderSeq
    decreases s.len(),
{
    if s.len() == 0 {
        seq![]
    } else if s.last().0 == name {
        with_name(s.drop_last(), name).push(s.last())
    } else {
        with_name(s.drop_last(), name)
    }
}

/// Names never descend along `s`.
pub open spec fn names_ascend(s: HeaderSeq) -> bool {
    forall|i: int, j: int| 0 <= i < j < s.len() ==> !key_lt(#[trigger] s[j].0, #[trigger] s[i].0)
}

proof fn lemma_key_lt_irreflexive(a: Seq<char>)
    ensures
        !key_lt(a, a),
    decreases a.len(),
{
    if a.len() > 0 {
        lemma_key_lt_irreflexive(a.drop_first());
    }
}

proof fn lemma_key_lt_asymmetric(a: Seq<char>, b: Seq<char>)
    ensures
        key_lt(a, b) ==> !key_lt(b, a),
    decreases a.len(),
{
    if a.len() > 0 && b.len() > 0 && a[0] == b[0] {
        lemma_key_lt_asymmetric(a.drop_first(), b.drop_first());
    }
}

proof fn lemma_key_lt_transitive(a: Seq<char>, b: Seq<char>, c: Seq<char>)
    ensures
        key_lt(a, b) && key_lt(b, c) ==> key_lt(a, c),
    decreases a.len(),
{
    if a.len() > 0 && b.len() > 0 && c.len() > 0 {
        lemma_key_lt_transitive(a.drop_first(), b.drop_first(), c.drop_first());
    }
}

proof fn lemma_key_lt_total(a: Seq<char>, b: Seq<char>)
    ensures
        a != b ==> key_lt(a, b) || key_lt(b, a),
    decreases a.len(),
{
    if a.len() > 0 && b.len() > 0 {
        if a[0] == b[0] {
            lemma_key_lt_total(a.drop_first(), b.drop_first());
            if a.drop_first() == b.drop_first() {
                assert(a =~= seq![a[0]] + a.drop_first());
                assert(b =~= seq![b[0]] + b.drop_first());
            }
        }
    } else if a.len() == 0 && b.len() == 0 {
        assert(a =~= b);
    }
}

/// `!key_lt(b, a)` and `!key_lt(c, b)` give `!key_lt(c, a)`.
proof fn lemma_key_le_transitive(a: Seq<char>, b: Seq<char>, c: Seq<char>)
    requires
        !key_lt(b, a),
        !key_lt(c, b),
    ensures
        !key_lt(c, a),
{
    lemma_key_lt_total(a, b);
    lemma_key_lt_total(b, c);
    lemma_key_lt_transitive(c, a, b);
    lemma_key_lt_transitive(a, b, c);
    lemma_key_lt_asymmetric(a, c);
    if a == b || b == c {
    } else {
        lemma_key_lt_transitive(a, b, c);
    }
}

proof fn lemma_insert_sorted_is_insert(s: HeaderSeq, x: (Seq<char>, Seq<char>))
    ensures
        exists|p: int| 0 <= p <= s.len() && insert_sorted(s, x) == s.insert(p, x),
    decreases s.len(),
{
    if s.len() > 0 && key_lt(x.0, s.last().0) {
        lemma_insert_sorted_is_insert(s.drop_last(), x);
        let p = choose|p: int|
            0 <= p <= s.drop_last().len() && insert_sorted(s.drop_last(), x) == s.drop_last().insert(
                p,
                x,
            );
        assert(s.drop_last().insert(p, x).push(s.last()) =~= s.insert(p, x));
    } else {
        assert(s.push(x) =~= s.insert(s.len() as int, x));
    }
}

proof fn lemma_insert_sorted_ascends(s: HeaderSeq, x: (Seq<char>, Seq<char>))
    requires
        names_ascend(s),
    ensures
        names_ascend(insert_sorted(s, x)),
    decreases s.len(),
{
    let r = insert_sorted(s, x);
    if s.len() > 0 && key_lt(x.0, s.last().0) {
        let t = s.drop_last();
        let last = s.last();
        assert(names_ascend(t)) by {
            assert forall|i: int, j: int| 0 <= i < j < t.len() implies !key_lt(
                #[trigger] t[j].0,
                #[trigger] t[i].0,
            ) by {
                assert(t[i] == s[i] && t[j] == s[j]);
            }
        }
        lemma_insert_sorted_ascends(t, x);
        lemma_insert_sorted_is_insert(t, x);
        let u = insert_sorted(t, x);
        let p = choose|p: int| 0 <= p <= t.len() && u == t.insert(p, x);
        assert forall|i: int, j: int| 0 <= i < j < r.len() implies !key_lt(
            #[trigger] r[j].0,
            #[trigger] r[i].0,
        ) by {
            if j == r.len() - 1 {
                assert(r[j] == last);
                if i == p {
                    lemma_key_lt_asymmetric(x.0, last.0);
                } else if i < p {
                    assert(r[i] == s[i]);
                } else {
                    assert(r[i] == s[i - 1]);
                }
            } else {
                assert(r[i] == u[i] && r[j] == u[j]);
            }
        }
    } else {
        assert forall|i: int, j: int| 0 <= i < j < r.len() implies !key_lt(
            #[trigger] r[j].0,
            #[trigger] r[i].0,
        ) by {
            if j == r.len() - 1 {
                assert(r[j] == x);
                assert(r[i] == s[i]);
                if i < s.len() - 1 {
                    assert(!key_lt(s[s.len() - 1].0, s[i].0));
                    lemma_key_le_transitive(s[i].0, s[s.len() - 1].0, x.0);
                }
            } else {
                assert(r[i] == s[i] && r[j] == s[j]);
            }
        }
    }
}

proof fn lemma_insert_sorted_with_name(s: HeaderSeq, x: (Seq<char>, Seq<char>), name: Seq<char>)
    ensures
        with_name(insert_sorted(s, x), name) == with_name(s.push(x), name),
    decreases s.len(),
{
    if s.len() > 0 && key_lt(x.0, s.last().0) {
        let t = s.drop_last();
        let last = s.last();
        let u = insert_sorted(t, x);
        lemma_insert_sorted_with_name(t, x, name);
        assert(insert_sorted(s, x) == u.push(last));
        assert(u.push(last).drop_last() =~= u);
        assert(u.push(last).last() == last);
        assert(t.push(x).drop_last() =~= t);
        assert(t.push(x).last() == x);
        assert(s.push(x).drop_last() =~= s);
        assert(s.push(x).last() == x);
        let wt = with_name(t, name);
        assert(with_name(t.push(x), name) == if x.0 == name { wt.push(x) } else { wt });
        assert(with_name(s, name) == if last.0 == name { wt.push(last) } else { wt });
        if x.0 == name && last.0 == name {
            lemma_key_lt_irreflexive(x.0);
        }
    }
}

/// Law: the signer orders headers by a stable sort on the name. Names never descend
/// in the result, and the headers that share a name keep the order in which they
/// were given.
pub proof fn lemma_sorted_headers_stable(s: HeaderSeq)
    ensures
        names_ascend(sort_headers(s)),
        forall|name: Seq<char>| #[trigger] with_name(sort_headers(s), name) == with_name(s, name),
    decreases s.len(),
{
    if s.len() > 0 {
        let t = s.drop_last();
        lemma_sorted_headers_stable(t);
        lemma_insert_sorted_ascends(sort_headers(t), s.last());
        assert forall|name: Seq<char>| #[trigger]
            with_name(sort_headers(s), name) == with_name(s, name) by {
            lemma_insert_sorted_with_name(sort_headers(t), s.last(), name);
            let st = sort_headers(t);
            assert(st.push(s.last()).drop_last() =~= st);
            assert(st.push(s.last()).last() == s.last());
            assert(with_name(st, name) == with_name(t, name));
        }
    }
}

/// Law: the `x-amz-content-sha256` value is the lower-case hex SHA-256 of the body,
/// two characters per digest byte, whatever the other inputs.
pub proof fn lemma_payload_hash(
    method: Seq<char>,
    url: Seq<char>,
    body: Seq<u8>,
    access_key: Seq<char>,
    secret_key: Seq<char>,
    region: Seq<char>,
    extra: Seq<(&str, &str)>,
    amz_date: Seq<char>,
    datestamp: Seq<char>,
)
    ensures
        sign_spec(method, url, body, access_key, secret_key, region, extra, amz_date, datestamp).2
            == hex_lower(sha256(body)),
        sign_spec(method, url, body, access_key, secret_key, region, extra, amz_date, datestamp).2.len()
            == 2 * sha256(body).len(),
{
}

proof fn lemma_key_lt_skip(a: Seq<char>, b: Seq<char>, i: int)
    requires
        0 <= i <= a.len(),
        i <= b.len(),
        forall|k: int| 0 <= k < i ==> a[k] == b[k],
    ensures
        key_lt(a, b) == key_lt(a.skip(i), b.skip(i)),
    decreases i,
{
    if i > 0 {
        assert forall|k: int| 0 <= k < i - 1 implies a.drop_first()[k] == b.drop_first()[k] by {
            assert(a.drop_first()[k] == a[k + 1]);
            assert(b.drop_first()[k] == b[k + 1]);
        }
        lemma_key_lt_skip(a.drop_first(), b.drop_first(), i - 1);
        assert(a.drop_first().skip(i - 1) =~= a.skip(i));
        assert(b.drop_first().skip(i - 1) =~= b.skip(i));
    } else {
        assert(a.skip(0) =~= a);
        assert(b.skip(0) =~= b);
    }
}

/// `key_lt` on two names.
fn name_lt(a: &[char], b: &[char]) -> (r: bool)
    ensures
        r == key_lt(a@, b@),
{
    let mut i: usize = 0;
    while i < a.len() && i < b.len() && a[i] == b[i]
        invariant
            i <= a@.len(),
            i <= b@.len(),
            forall|k: int| 0 <= k < i ==> a@[k] == b@[k],
        decreases a@.len() - i,
    {
        i = i + 1;
    }
    proof {
        lemma_key_lt_skip(a@, b@, i as int);
    }
    if i == a.len() {
        i < b.len()
    } else if i == b.len() {
        false
    } else {
        a[i] < b[i]
    }
}

proof fn lemma_insert_sorted_at(s: HeaderSeq, x: (Seq<char>, Seq<char>), pos: int)
    requires
        0 <= pos <= s.len(),
        forall|k: int| pos <= k < s.len() ==> key_lt(x.0, #[trigger] s[k].0),
        pos == 0 || !key_lt(x.0, s[pos - 1].0),
    ensures
        insert_sorted(s, x) == s.insert(pos, x),
    decreases s.len() - pos,
{
    if pos == s.len() {
        assert(s.push(x) =~= s.insert(pos, x));
    } else {
        let t = s.drop_last();
        assert forall|k: int| pos <= k < t.len() implies key_lt(x.0, #[trigger] t[k].0) by {
            assert(t[k] == s[k]);
        }
        lemma_insert_sorted_at(t, x, pos);
        assert(t.insert(pos, x).push(s.last()) =~= s.insert(pos, x));
    }
}

/// A copy of one header.
fn copy_header(h: &(Vec<char>, Vec<char>)) -> (r: (Vec<char>, Vec<char>))
    ensures
        r.0@ == h.0@,
        r.1@ == h.1@,
{
    (slice_chars(&h.0, 0, h.0.len()), slice_chars(&h.1, 0, h.1.len()))
}

/// Stable sort of headers by name.
pub fn sort_headers_by_name(hs: &Vec<(Vec<char>, Vec<char>)>) -> (r: Vec<(Vec<char>, Vec<char>)>)
    ensures
        headers_view(r@) == sort_headers(headers_view(hs@)),
{
    let mut r: Vec<(Vec<char>, Vec<char>)> = Vec::new();
    let mut i: usize = 0;
    while i < hs.len()
        invariant
            i <= hs@.len(),
            headers_view(r@) == sort_headers(headers_view(hs@).take(i as int)),
        decreases hs@.len() - i,
    {
        let x = copy_header(&hs[i]);
        let ghost xv = (x.0@, x.1@);
        let mut pos: usize = r.len();
        while pos > 0 && name_lt(&x.0, &r[pos - 1].0)
            invariant
                pos <= r@.len(),
                xv == (x.0@, x.1@),
                forall|k: int| pos <= k < r@.len() ==> key_lt(xv.0, #[trigger] r@[k].0@),
            decreases pos,
        {
            pos = pos - 1;
        }
        let ghost before = headers_view(r@);
        proof {
            assert forall|k: int| pos <= k < before.len() implies key_lt(
                xv.0,
                #[trigger] before[k].0,
            ) by {}
            lemma_insert_sorted_at(before, xv, pos as int);
            let pre = headers_view(hs@).take(i as int + 1);
            assert(pre.drop_last() =~= headers_view(hs@).take(i as int));
            assert(pre.last() == xv);
        }
        r.insert(pos, x);
        assert(headers_view(r@) =~= before.insert(pos as int, xv));
        i = i + 1;
    }
    assert(headers_view(hs@).take(hs@.len() as int) =~= headers_view(hs@));
    r
}

/// Canonical header lines of `hs`.
fn header_lines_of(hs: &Vec<(Vec<char>, Vec<char>)>) -> (r: Vec<char>)
    ensures
        r@ == header_lines(headers_view(hs@)),
{
    let mut r: Vec<char> = Vec::new();
    let mut i: usize = 0;
    while i < hs.len()
        invariant
            i <= hs@.len(),
            r@ == header_lines(headers_view(hs@).take(i as int)),
        decreases hs@.len() - i,
    {
        extend_chars(&mut r, &hs[i].0);
        r.push(':');
        let v = trim_ws(&hs[i].1);
        extend_chars(&mut r, &v);
        r.push('\n');
        proof {
            let pre = headers_view(hs@).take(i as int + 1);
            assert(pre.drop_last() =~= headers_view(hs@).take(i as int));
        }
        i = i + 1;
    }
    assert(headers_view(hs@).take(hs@.len() as int) =~= headers_view(hs@));
    r
}

/// Header names of `hs` joined by `;`.
fn header_names_of(hs: &Vec<(Vec<char>, Vec<char>)>) -> (r: Vec<char>)
    ensures
        r@ == header_names(headers_view(hs@)),
{
    let mut r: Vec<char> = Vec::new();
    let mut i: usize = 0;
    while i < hs.len()
        invariant
            i <= hs@.len(),
            r@ == header_names(headers_view(hs@).take(i as int)),
        decreases hs@.len() - i,
    {
        if i > 0 {
            r.push(';');
        }
        extend_chars(&mut r, &hs[i].0);
        proof {
            let pre = headers_view(hs@).take(i as int + 1);
            assert(pre.drop_last() =~= headers_view(hs@).take(i as int));
            if i == 0 {
                assert(pre[0] == headers_view(hs@)[0]);
            }
        }
        i = i + 1;
    }
    assert(headers_view(hs@).take(hs@.len() as int) =~= headers_view(hs@));
    r
}

/// Split a URL into `(host, path, query)`.
pub fn split_url(url: &str) -> (r: (String, String, String))
    ensures
        (r.0@, r.1@, r.2@) == split_url_spec(url@),
{
    let u = chars_of(url);
    let https = chars_of("https://");
    let http = chars_of("http://");
    proof {
        reveal_strlit("https://");
        reveal_strlit("http://");
    }
    let w = if chars_starts_with(&u, &https) {
        slice_chars(&u, 8, u.len())
    } else if chars_starts_with(&u, &http) {
        slice_chars(&u, 7, u.len())
    } else {
        slice_chars(&u, 0, u.len())
    };
    assert(w@ == without_scheme(url@));
    let wn = w.len();
    let (authority, rest) = match find_char(&w, '/') {
        Some(i) => (slice_chars(&w, 0, i), slice_chars(&w, i, wn)),
        None => (slice_chars(&w, 0, wn), vec!['/']),
    };
    assert(rest@ =~= (match first_index(w@, '/') {
        Some(i) => w@.skip(i),
        None => seq!['/'],
    }));
    let rn = rest.len();
    let (path, query) = match find_char(&rest, '?') {
        Some(i) => (slice_chars(&rest, 0, i), slice_chars(&rest, i + 1, rn)),
        None => (slice_chars(&rest, 0, rn), Vec::new()),
    };
    let path = if path.len() == 0 {
        vec!['/']
    } else {
        path
    };
    (string_of(&authority), string_of(&path), string_of(&query))
}

/// The `%Y%m%d` date stamp at the front of an `x-amz-date` value `%Y%m%dT%H%M%SZ`:
/// everything but the last eight characters (`T`, six time digits, `Z`).
pub open spec fn datestamp_of(amz_date: Seq<char>) -> Seq<char> {
    amz_date.take(amz_date.len() - 8)
}

/// Seconds from the Unix epoch to 10000-01-01T00:00:00Z: before it, `%Y` prints four
/// digits.
pub open spec fn four_digit_years_end() -> int {
    253402300800
}

/// An ASCII decimal digit.
pub open spec fn is_digit(c: char) -> bool {
    '0' <= c && c <= '9'
}

/// `%Y%m%dT%H%M%SZ` text of a time in a four-digit year: 16 characters, all digits
/// except `T` at index 8 and `Z` at index 15.
pub open spec fn is_amz_stamp(s: Seq<char>) -> bool {
    &&& s.len() == 16
    &&& s[8] == 'T'
    &&& s[15] == 'Z'
    &&& forall|i: int| 0 <= i < 16 && i != 8 && i != 15 ==> is_digit(#[trigger] s[i])
}

/// `%Y%m%dT%H%M%SZ` and `%Y%m%d` of the UTC time `secs` seconds and `nanos` nanoseconds
/// after the Unix epoch, as chrono formats them; `None` when chrono has no such time.
pub uninterp spec fn utc_stamps(secs: i64, nanos: u32) -> Option<(Seq<char>, Seq<char>)>;

/// The characters of an optional pair of strings.
pub open spec fn stamps_view(o: Option<(String, String)>) -> Option<(Seq<char>, Seq<char>)> {
    match o {
        Some(p) => Some((p.0@, p.1@)),
        None => None,
    }
}

/// `amz_date` comes from a reading of the clock at or after the Unix epoch, with its
/// date stamp at the front, and is 16 characters of `%Y%m%dT%H%M%SZ` when that reading
/// falls before year 10000.
pub open spec fn clock_stamp(amz_date: Seq<char>) -> bool {
    exists|secs: i64, nanos: u32|
        #![trigger utc_stamps(secs, nanos)]
        secs >= 0 && utc_stamps(secs, nanos) == Some((amz_date, datestamp_of(amz_date))) && (secs
            < four_digit_years_end() ==> is_amz_stamp(amz_date))
}

/// `SystemTime::now().duration_since(UNIX_EPOCH)`: whole seconds and the nanoseconds
/// past them, or `None` when the clock reads before the epoch. Which instant is read is
/// not stated: it depends on the system clock.
#[verifier::external_body]
fn system_clock() -> (r: Option<(u64, u32)>)
    ensures
        r matches Some(t) ==> t.1 < 1_000_000_000,
{
    match std::time::SystemTime::now().duration_since(std::time::UNIX_EPOCH) {
        Ok(d) => Some((d.as_secs(), d.subsec_nanos())),
        Err(_) => None,
    }
}

/// `chrono::DateTime::from_timestamp(secs, nanos)` formatted as `%Y%m%dT%H%M%SZ` and as
/// `%Y%m%d`; `None` when chrono has no such time. The result depends on the arguments
/// alone. Every time from the epoch to year 9999 exists when the nanoseconds are below
/// one second. Both formats print the same year, month and day fields, and `%H`, `%M`,
/// `%S` print two digits each, so the first string is the second followed by eight
/// characters; in a four-digit year the first is 16 characters.
#[verifier::external_body]
fn utc_stamps_at(secs: i64, nanos: u32) -> (r: Option<(String, String)>)
    ensures
        stamps_view(r) == utc_stamps(secs, nanos),
        0 <= secs < four_digit_years_end() && nanos < 1_000_000_000 ==> r is Some,
        r matches Some(p) ==> p.0@.len() == p.1@.len() + 8 && p.0@.take(p.1@.len() as int)
            == p.1@,
        0 <= secs < four_digit_years_end() ==> (r matches Some(p) ==> is_amz_stamp(p.0@)),
{
    match chrono::DateTime::from_timestamp(secs, nanos) {
        Some(t) => Some((t.format("%Y%m%dT%H%M%SZ").to_string(), t.format("%Y%m%d").to_string())),
        None => None,
    }
}

/// Sign an HTTP request for RustFS / S3-compatible APIs at the clock reading `secs`
/// seconds and `nanos` nanoseconds after the Unix epoch.
///
/// Returns `(authorization, amz_date, content_sha256)`, where `amz_date` is that
/// reading formatted as `%Y%m%dT%H%M%SZ` in UTC and the request is signed for its
/// `%Y%m%d` date; `None` when the reading does not fit `i64` seconds or chrono has no
/// such time.
pub fn sign_s3_request_at_reading(
    secs: u64,
    nanos: u32,
    method: &str,
    url: &str,
    body: &[u8],
    access_key: &str,
    secret_key: &str,
    region: &str,
    extra_headers: &[(&str, &str)],
) -> (r: Option<(String, String, String)>)
    ensures
        r is None <==> (secs > i64::MAX || utc_stamps(secs as i64, nanos) is None),
        r matches Some(t) ==> {
            &&& utc_stamps(secs as i64, nanos) == Some((t.1@, datestamp_of(t.1@)))
            &&& t.1@.len() >= 8
            &&& t.2@.len() == 64
            &&& (t.0@, t.1@, t.2@) == sign_spec(
                method@,
                url@,
                body@,
                access_key@,
                secret_key@,
                region@,
                extra_headers@,
                t.1@,
                datestamp_of(t.1@),
            )
        },
        secs < four_digit_years_end() && nanos < 1_000_000_000 ==> (r matches Some(t)
            && is_amz_stamp(t.1@)),
{
    if secs > 0x7fff_ffff_ffff_ffff {
        return None;
    }
    let at = secs as i64;
    let (amz_date, datestamp) = match utc_stamps_at(at, nanos) {
        Some(p) => p,
        None => {
            return None;
        },
    };
    assert(datestamp_of(amz_date@) =~= datestamp@);
    let r = sign_s3_request_at(
        method,
        url,
        body,
        access_key,
        secret_key,
        region,
        extra_headers,
        amz_date.as_str(),
        datestamp.as_str(),
    );
    Some(r)
}

/// Law: a request is signed for the moment it is signed at. For a reading in a
/// four-digit year, the returned `x-amz-date` is 16 characters of digits with `T` and
/// `Z`, it is the reading's own UTC stamp, and the credential scope in the
/// `Authorization` header starts with the stamp's first eight characters (its date).
pub proof fn lemma_signed_for_its_reading(
    secs: u64,
    nanos: u32,
    t: (Seq<char>, Seq<char>, Seq<char>),
    method: Seq<char>,
    url: Seq<char>,
    body: Seq<u8>,
    access_key: Seq<char>,
    secret_key: Seq<char>,
    region: Seq<char>,
    extra: Seq<(&str, &str)>,
)
    requires
        secs < four_digit_years_end(),
        utc_stamps(secs as i64, nanos) == Some((t.1, datestamp_of(t.1))),
        is_amz_stamp(t.1),
        t == sign_spec(method, url, body, access_key, secret_key, region, extra, t.1, datestamp_of(t.1)),
    ensures
        t.1.len() == 16,
        datestamp_of(t.1) == t.1.take(8),
        starts_with(t.0, "AWS4-HMAC-SHA256 Credential="@ + access_key + seq!['/'] + t.1.take(8) + seq!['/'] + region),
{
    let prefix = "AWS4-HMAC-SHA256 Credential="@ + access_key + seq!['/'] + t.1.take(8) + seq!['/'] + region;
    assert(t.0.take(prefix.len() as int) =~= prefix);
}

/// Sign an HTTP request for RustFS / S3-compatible APIs at the current time.
///
/// Returns `(authorization, amz_date, content_sha256)` header values, signed for the
/// date stamp at the front of the returned `amz_date`; `None` when the system clock
/// reads before the Unix epoch or past what `i64` seconds and chrono hold.
pub fn sign_s3_request(
    method: &str,
    url: &str,
    body: &[u8],
    access_key: &str,
    secret_key: &str,
    region: &str,
    extra_headers: &[(&str, &str)],
) -> (r: Option<(String, String, String)>)
    ensures
        r matches Some(t) ==> {
            &&& clock_stamp(t.1@)
            &&& t.1@.len() >= 8
            &&& t.2@.len() == 64
            &&& (t.0@, t.1@, t.2@) == sign_spec(
                method@,
                url@,
                body@,
                access_key@,
                secret_key@,
                region@,
                extra_headers@,
                t.1@,
                datestamp_of(t.1@),
            )
        },
{
    let (secs, nanos) = match system_clock() {
        Some(t) => t,
        None => {
            return None;
        },
    };
    let r = sign_s3_request_at_reading(
        secs,
        nanos,
        method,
        url,
        body,
        access_key,
        secret_key,
        region,
        extra_headers,
    );
    assert(r matches Some(t) ==> utc_stamps(secs as i64, nanos) == Some((t.1@, datestamp_of(t.1@))));
    r
}

/// The SigV4 signing key for `secret` on `datestamp` in `region` for `service`.
fn aws4_signing_key(secret: &str, datestamp: &str, region: &str, service: &str) -> (r: Vec<u8>)
    ensures
        r@ == signing_key(secret@, datestamp@, region@, service@),
{
    let mut prefixed = String::from_str("AWS4");
    prefixed.append(secret);
    let k_date = hmac_sha256(prefixed.as_str().as_bytes(), datestamp.as_bytes());
    let k_region = hmac_sha256(&k_date, region.as_bytes());
    let k_service = hmac_sha256(&k_region, service.as_bytes());
    hmac_sha256(&k_service, "aws4_request".as_bytes())
}

/// `{datestamp}/{region}/s3/aws4_request`.
pub fn credential_scope_text(datestamp: &str, region: &str) -> (r: String)
    ensures
        r@ == credential_scope(datestamp@, region@),
{
    let mut scope = chars_of(datestamp);
    scope.push('/');
    extend_chars(&mut scope, &chars_of(region));
    extend_chars(&mut scope, &chars_of("/s3/aws4_request"));
    string_of(&scope)
}

/// The string to sign for `amz_date`, `scope` and the hex hash of the canonical request.
pub fn string_to_sign_text(amz_date: &str, scope: &str, canonical_hash: &str) -> (r: String)
    ensures
        r@ == string_to_sign_for_hash(amz_date@, scope@, canonical_hash@),
{
    let mut t = chars_of("AWS4-HMAC-SHA256\n");
    extend_chars(&mut t, &chars_of(amz_date));
    t.push('\n');
    extend_chars(&mut t, &chars_of(scope));
    t.push('\n');
    extend_chars(&mut t, &chars_of(canonical_hash));
    string_of(&t)
}

/// The `Authorization` header value for the credential, scope, signed header names
/// (`;`-joined) and hex signature.
pub fn authorization_header(
    access_key: &str,
    scope: &str,
    signed_headers: &str,
    signature: &str,
) -> (r: String)
    ensures
        r@ == authorization_spec(access_key@, scope@, signed_headers@, signature@),
{
    let mut auth = chars_of("AWS4-HMAC-SHA256 Credential=");
    extend_chars(&mut auth, &chars_of(access_key));
    auth.push('/');
    extend_chars(&mut auth, &chars_of(scope));
    extend_chars(&mut auth, &chars_of(", SignedHeaders="));
    extend_chars(&mut auth, &chars_of(signed_headers));
    extend_chars(&mut auth, &chars_of(", Signature="));
    extend_chars(&mut auth, &chars_of(signature));
    string_of(&auth)
}

/// Sign an HTTP request at the given `amz_date` (`%Y%m%dT%H%M%SZ`) and `datestamp`
/// (`%Y%m%d`). Returns `(authorization, amz_date, content_sha256)` header values.
pub fn sign_s3_request_at(
    method: &str,
    url: &str,
    body: &[u8],
    access_key: &str,
    secret_key: &str,
    region: &str,
    extra_headers: &[(&str, &str)],
    amz_date: &str,
    datestamp: &str,
) -> (r: (String, String, String))
    ensures
        (r.0@, r.1@, r.2@) == sign_spec(
            method@,
            url@,
            body@,
            access_key@,
            secret_key@,
            region@,
            extra_headers@,
            amz_date@,
            datestamp@,
        ),
        r.2@.len() == 64,
{
    let (host, path, query) = split_url(url);
    let digest = sha256_digest(body);
    let payload_hash = hex_encode(&digest);
    assert(payload_hash@.len() == 64);
    let mut headers: Vec<(Vec<char>, Vec<char>)> = Vec::new();
    headers.push((chars_of("host"), chars_of(host.as_str())));
    headers.push((chars_of("x-amz-content-sha256"), chars_of(payload_hash.as_str())));
    headers.push((chars_of("x-amz-date"), chars_of(amz_date)));
    let ghost base = headers_view(headers@);
    let mut i: usize = 0;
    while i < extra_headers.len()
        invariant
            i <= extra_headers@.len(),
            headers@.len() == 3 + i,
            base.len() == 3,
            headers_view(headers@) =~= base + Seq::new(
                i as nat,
                |k: int| (ascii_lower(extra_headers@[k].0@), extra_headers@[k].1@),
            ),
        decreases extra_headers@.len() - i,
    {
        let (k, v) = extra_headers[i];
        let name = to_ascii_lower(&chars_of(k));
        let value = chars_of(v);
        let ghost prev = headers_view(headers@);
        let ghost item = (name@, value@);
        headers.push((name, value));
        assert(headers_view(headers@) =~= prev.push(item));
        i = i + 1;
    }
    assert(headers_view(headers@) =~= request_headers(
        host@,
        payload_hash@,
        amz_date@,
        extra_headers@,
    ));
    let sorted = sort_headers_by_name(&headers);
    let lines = header_lines_of(&sorted);
    let names = header_names_of(&sorted);
    let pc = chars_of(payload_hash.as_str());
    let mut canonical = chars_of(method);
    canonical.push('\n');
    extend_chars(&mut canonical, &chars_of(path.as_str()));
    canonical.push('\n');
    extend_chars(&mut canonical, &chars_of(query.as_str()));
    canonical.push('\n');
    extend_chars(&mut canonical, &lines);
    canonical.push('\n');
    extend_chars(&mut canonical, &names);
    canonical.push('\n');
    extend_chars(&mut canonical, &pc);
    let canonical_text = string_of(&canonical);
    let scope = credential_scope_text(datestamp, region);
    let canonical_hash = hex_encode(&sha256_digest(canonical_text.as_str().as_bytes()));
    let to_sign = string_to_sign_text(amz_date, scope.as_str(), canonical_hash.as_str());
    let key = aws4_signing_key(secret_key, datestamp, region, "s3");
    let signature = hex_encode(&hmac_sha256(&key, to_sign.as_str().as_bytes()));
    let names_text = string_of(&names);
    let auth = authorization_header(
        access_key,
        scope.as_str(),
        names_text.as_str(),
        signature.as_str(),
    );
    proof {
        let (h, p, q) = split_url_spec(url@);
        assert(h == host@ && p == path@ && q == query@);
        assert(canonical@ =~= canonical_request(
            method@,
            path@,
            query@,
            headers_view(sorted@),
            payload_hash@,
        ));
    }
    let amz = String::from_str(amz_date);
    (auth, amz, payload_hash)
}

} // verus!
