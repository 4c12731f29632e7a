//! Upload helpers: flat `{uuid}.{ext}` keys, the store a new object goes to, the
//! status a new row starts in, and the readable-bytes gate.

use vstd::prelude::*;
use crate::error::{store_error_message, FileStoreError};
use crate::install::{installed_blob_store, installed_quarantine_store, BlobInstalls};
use crate::hashing::{hex_digit, hex_lower};
use crate::keys::{valid_key, validate_object_key};
use crate::model::{status_wire, FileFileStatus, FileModel, RecordId, UnixTime};
use crate::text::{
    chars_contains, chars_of, contains, occurs_at, string_of, trim, trim_start_by,
    trim_start_chars, trim_ws, CharClass,
};

verus! {

/// Errors from creating a File with bytes.
#[derive(Debug)]
pub enum FileUploadError {
    /// The host has not installed the store the bytes go to.
    BlobStoreNotInstalled,
    /// Extension empty or unsafe for a flat object key.
    InvalidExtension,
    /// Blob store put/get failure.
    Store(FileStoreError),
    /// Row construction or create failed (the blob may already exist); carries the message.
    Valence(String),
}

/// The error's message; store and row errors show their own message.
pub open spec fn upload_error_message(e: FileUploadError) -> Seq<char> {
    match e {
        FileUploadError::BlobStoreNotInstalled => "blob store not installed"@,
        FileUploadError::InvalidExtension => "invalid file extension"@,
        FileUploadError::Store(s) => store_error_message(s),
        FileUploadError::Valence(m) => m@,
    }
}

impl FileUploadError {
    /// The error's message.
    pub fn message(&self) -> (r: String)
        ensures
            r@ == upload_error_message(*self),
    {
        match self {
            FileUploadError::BlobStoreNotInstalled => String::from_str("blob store not installed"),
            FileUploadError::InvalidExtension => String::from_str("invalid file extension"),
            FileUploadError::Store(s) => String::from_str(s.message()),
            FileUploadError::Valence(m) => m.clone(),
        }
    }

    /// Map an install lookup failure: a missing install of either store becomes
    /// `BlobStoreNotInstalled`, anything else is a store error.
    pub fn from_install(err: FileStoreError) -> (r: Self)
        ensures
            (err is BlobStoreNotInstalled || err is QuarantineStoreNotInstalled) ==> r is BlobStoreNotInstalled,
            !(err is BlobStoreNotInstalled || err is QuarantineStoreNotInstalled) ==> r == FileUploadError::Store(err),
    {
        match err {
            FileStoreError::BlobStoreNotInstalled | FileStoreError::QuarantineStoreNotInstalled => {
                FileUploadError::BlobStoreNotInstalled
            },
            other => FileUploadError::Store(other),
        }
    }
}

/// Result of putting bytes under a newly generated flat key.
#[derive(Clone, Debug)]
pub struct PutObjectResult {
    /// Flat object key written to the store (`{uuid}.{ext}`).
    pub storage_path: String,
    /// Byte length written.
    pub size_bytes: i64,
}

/// A lower-case hex digit.
pub open spec fn is_hex_lower(c: char) -> bool {
    ('0' <= c && c <= '9') || ('a' <= c && c <= 'f')
}

/// Hyphenated lower-case UUID text: `8-4-4-4-12` hex digits.
pub open spec fn is_uuid_text(u: Seq<char>) -> bool {
    &&& u.len() == 36
    &&& forall|i: int|
        0 <= i < 36 ==> (if i == 8 || i == 13 || i == 18 || i == 23 {
            u[i] == '-'
        } else {
            is_hex_lower(#[trigger] u[i])
        })
}

/// Hyphenated lower-case UUID text of version 4: `4` at index 14 and one of `8`, `9`,
/// `a`, `b` at index 19.
pub open spec fn is_uuid_v4_text(u: Seq<char>) -> bool {
    &&& is_uuid_text(u)
    &&& u[14] == '4'
    &&& (u[19] == '8' || u[19] == '9' || u[19] == 'a' || u[19] == 'b')
}

/// The bytes of the version-4 UUID made from 16 random bytes: byte 6 keeps its low
/// nibble under version `4` (`(b & 0x0f) | 0x40`), byte 8 keeps its low six bits under
/// the variant bits `10` (`(b & 0x3f) | 0x80`).
pub open spec fn v4_bytes(b: Seq<u8>) -> Seq<u8> {
    b.update(6, (b[6] % 16 + 64) as u8).update(8, (b[8] % 64 + 128) as u8)
}

/// Hyphenated lower-case hex of 16 bytes: groups of 4, 2, 2, 2 and 6 bytes.
pub open spec fn hyphenated(b: Seq<u8>) -> Seq<char> {
    hex_lower(b.subrange(0, 4)) + seq!['-'] + hex_lower(b.subrange(4, 6)) + seq!['-'] + hex_lower(
        b.subrange(6, 8),
    ) + seq!['-'] + hex_lower(b.subrange(8, 10)) + seq!['-'] + hex_lower(b.subrange(10, 16))
}

/// The text of the version-4 UUID made from 16 random bytes.
pub open spec fn uuid_v4_text_spec(b: Seq<u8>) -> Seq<char> {
    hyphenated(v4_bytes(b))
}

/// `getrandom::fill` of 16 bytes from the system's random source; `None` when the
/// source fails. The bytes are random: nothing else is stated.
#[verifier::external_body]
fn random_uuid_bytes() -> (r: Option<[u8; 16]>) {
    let mut buf = [0u8; 16];
    match getrandom::fill(&mut buf) {
        Ok(()) => Some(buf),
        Err(_) => None,
    }
}

/// `uuid::Builder::from_random_bytes(bytes).into_uuid().to_string()`: the builder sets
/// the version and variant bits, and `Uuid`'s `Display` is the hyphenated lower-case hex
/// form of the bytes.
#[verifier::external_body]
fn uuid_v4_text(bytes: [u8; 16]) -> (r: String)
    ensures
        r@ == uuid_v4_text_spec(bytes@),
{
    uuid::Builder::from_random_bytes(bytes).into_uuid().to_string()
}

/// A hex digit of a nibble is a lower-case hex digit.
proof fn lemma_hex_digit(n: int)
    requires
        0 <= n < 16,
    ensures
        is_hex_lower(hex_digit(n)),
        n == 4 ==> hex_digit(n) == '4',
        n == 8 ==> hex_digit(n) == '8',
        n == 9 ==> hex_digit(n) == '9',
        n == 10 ==> hex_digit(n) == 'a',
        n == 11 ==> hex_digit(n) == 'b',
{
}

/// Every character of `hex_lower(b)` is a lower-case hex digit.
proof fn lemma_hex_lower_digits(b: Seq<u8>)
    ensures
        forall|i: int| 0 <= i < hex_lower(b).len() ==> is_hex_lower(#[trigger] hex_lower(b)[i]),
{
    assert forall|i: int| 0 <= i < hex_lower(b).len() implies is_hex_lower(
        #[trigger] hex_lower(b)[i],
    ) by {
        lemma_hex_digit(b[i / 2] as int / 16);
        lemma_hex_digit(b[i / 2] as int % 16);
    }
}

/// The text of a version-4 UUID made from any 16 bytes is version-4 UUID text.
pub proof fn lemma_uuid_v4_text(b: Seq<u8>)
    requires
        b.len() == 16,
    ensures
        is_uuid_v4_text(uuid_v4_text_spec(b)),
{
    let v = v4_bytes(b);
    let g1 = hex_lower(v.subrange(0, 4));
    let g2 = hex_lower(v.subrange(4, 6));
    let g3 = hex_lower(v.subrange(6, 8));
    let g4 = hex_lower(v.subrange(8, 10));
    let g5 = hex_lower(v.subrange(10, 16));
    lemma_hex_lower_digits(v.subrange(0, 4));
    lemma_hex_lower_digits(v.subrange(4, 6));
    lemma_hex_lower_digits(v.subrange(6, 8));
    lemma_hex_lower_digits(v.subrange(8, 10));
    lemma_hex_lower_digits(v.subrange(10, 16));
    let u = uuid_v4_text_spec(b);
    assert(u =~= g1 + seq!['-'] + g2 + seq!['-'] + g3 + seq!['-'] + g4 + seq!['-'] + g5);
    assert(u.len() == 36);
    assert forall|i: int|
        0 <= i < 36 implies (if i == 8 || i == 13 || i == 18 || i == 23 {
            u[i] == '-'
        } else {
            is_hex_lower(#[trigger] u[i])
        }) by {
        if i < 8 {
            assert(u[i] == g1[i]);
        } else if i == 8 {
        } else if i < 13 {
            assert(u[i] == g2[i - 9]);
        } else if i == 13 {
        } else if i < 18 {
            assert(u[i] == g3[i - 14]);
        } else if i == 18 {
        } else if i < 23 {
            assert(u[i] == g4[i - 19]);
        } else if i == 23 {
        } else {
            assert(u[i] == g5[i - 24]);
        }
    }
    assert(v[6] == (b[6] % 16 + 64) as u8);
    assert(v[8] == (b[8] % 64 + 128) as u8);
    assert(u[14] == g3[0]);
    assert(g3[0] == hex_digit(v[6] as int / 16));
    lemma_hex_digit(v[6] as int / 16);
    assert(u[19] == g4[0]);
    assert(g4[0] == hex_digit(v[8] as int / 16));
    lemma_hex_digit(v[8] as int / 16);
}

/// The message of the error reported when the random source fails.
pub open spec fn random_error_message() -> Seq<char> {
    "random source unavailable for storage key"@
}

/// `e` reports that the system's random source failed.
pub open spec fn is_random_error(e: FileUploadError) -> bool {
    e matches FileUploadError::Store(FileStoreError::Io { http_status: None, source: Some(src) })
        && src.message@ == random_error_message()
}

/// The extension after trimming whitespace and leading dots.
pub open spec fn normalized_extension(extension: Seq<char>) -> Seq<char> {
    trim_start_by(trim(extension), CharClass::Exactly('.'))
}

/// An extension that can follow `{uuid}.` in a flat key: non-empty, no separators, no dots.
pub open spec fn valid_extension(x: Seq<char>) -> bool {
    &&& x.len() > 0
    &&& !contains(x, seq!['/'])
    &&& !contains(x, seq!['\\'])
    &&& !contains(x, seq!['.', '.'])
    &&& !contains(x, seq!['.'])
}

proof fn lemma_contains_single(s: Seq<char>, c: char)
    ensures
        contains(s, seq![c]) <==> exists|i: int| 0 <= i < s.len() && s[i] == c,
{
    let pat = seq![c];
    if contains(s, pat) {
        let i = choose|i: int| #[trigger] occurs_at(s, pat, i);
        assert(s.subrange(i, i + 1)[0] == s[i]);
    }
    if exists|i: int| 0 <= i < s.len() && s[i] == c {
        let i = choose|i: int| 0 <= i < s.len() && s[i] == c;
        assert(s.subrange(i, i + 1) =~= seq![c]);
        assert(occurs_at(s, seq![c], i));
    }
}

/// `{uuid}.{ext}` is a flat key when the extension is valid.
proof fn lemma_generated_key_valid(u: Seq<char>, x: Seq<char>)
    requires
        is_uuid_text(u),
        valid_extension(x),
    ensures
        valid_key(u + seq!['.'] + x),
{
    let k = u + seq!['.'] + x;
    lemma_contains_single(x, '.');
    lemma_contains_single(x, '/');
    lemma_contains_single(x, '\\');
    lemma_contains_single(k, '/');
    lemma_contains_single(k, '\\');
    assert forall|i: int| 0 <= i < k.len() implies k[i] != '/' && k[i] != '\\' by {
        if i < 36 {
            assert(k[i] == u[i]);
        } else if i > 36 {
            assert(k[i] == x[i - 37]);
        }
    }
    let pat = seq!['.', '.'];
    if contains(k, pat) {
        let i = choose|i: int| #[trigger] occurs_at(k, pat, i);
        assert(k.subrange(i, i + 2)[0] == k[i]);
        assert(k.subrange(i, i + 2)[1] == k[i + 1]);
        if i < 36 {
            assert(k[i] == u[i]);
        } else if i == 36 {
            assert(k[i + 1] == x[0]);
        } else {
            assert(k[i] == x[i - 37]);
        }
    }
}

/// The normalized extension when it is valid.
fn checked_extension(extension: &str) -> (r: Option<Vec<char>>)
    ensures
        r is Some <==> valid_extension(normalized_extension(extension@)),
        r matches Some(x) ==> x@ == normalized_extension(extension@),
{
    let ext = trim_start_chars(&trim_ws(&chars_of(extension)), CharClass::Exactly('.'));
    let slash = vec!['/'];
    let backslash = vec!['\\'];
    let dots = vec!['.', '.'];
    let dot = vec!['.'];
    assert(slash@ =~= seq!['/']);
    assert(backslash@ =~= seq!['\\']);
    assert(dots@ =~= seq!['.', '.']);
    assert(dot@ =~= seq!['.']);
    if ext.len() == 0 || chars_contains(&ext, &slash) || chars_contains(&ext, &backslash)
        || chars_contains(&ext, &dots) || chars_contains(&ext, &dot) {
        return None;
    }
    Some(ext)
}

/// `{uuid}.{ext}`: a flat key.
fn storage_key_text(uuid: &str, ext: &[char]) -> (r: String)
    requires
        is_uuid_text(uuid@),
        valid_extension(ext@),
    ensures
        r@ == uuid@ + seq!['.'] + ext@,
        valid_key(r@),
{
    let mut key = chars_of(uuid);
    key.push('.');
    let mut i: usize = 0;
    while i < ext.len()
        invariant
            i <= ext@.len(),
            key@ == uuid@ + seq!['.'] + ext@.subrange(0, i as int),
        decreases ext@.len() - i,
    {
        key.push(ext[i]);
        i = i + 1;
    }
    assert(ext@.subrange(0, ext@.len() as int) =~= ext@);
    proof {
        lemma_generated_key_valid(uuid@, ext@);
    }
    string_of(&key)
}

/// The value of a lower-case hex digit.
pub open spec fn hex_value(c: char) -> int {
    if c <= '9' {
        c as int - 48
    } else {
        c as int - 87
    }
}

proof fn lemma_hex_value(n: int)
    requires
        0 <= n < 16,
    ensures
        hex_value(hex_digit(n)) == n,
{
}

/// Lower-case hex encoding loses nothing: equal encodings come from equal bytes.
proof fn lemma_hex_lower_injective(a: Seq<u8>, b: Seq<u8>)
    requires
        hex_lower(a) == hex_lower(b),
    ensures
        a == b,
{
    assert(a.len() == b.len()) by {
        assert(hex_lower(a).len() == 2 * a.len());
        assert(hex_lower(b).len() == 2 * b.len());
    }
    assert forall|i: int| 0 <= i < a.len() implies a[i] == b[i] by {
        let ha = hex_lower(a);
        let hb = hex_lower(b);
        assert(ha[2 * i] == hb[2 * i]);
        assert(ha[2 * i + 1] == hb[2 * i + 1]);
        assert((2 * i) / 2 == i && (2 * i) % 2 == 0);
        assert((2 * i + 1) / 2 == i && (2 * i + 1) % 2 == 1);
        lemma_hex_value(a[i] as int / 16);
        lemma_hex_value(a[i] as int % 16);
        lemma_hex_value(b[i] as int / 16);
        lemma_hex_value(b[i] as int % 16);
        assert(a[i] as int == 16 * (a[i] as int / 16) + a[i] as int % 16);
        assert(b[i] as int == 16 * (b[i] as int / 16) + b[i] as int % 16);
    }
    assert(a =~= b);
}

/// Equal hyphenated texts of 16 bytes come from equal bytes.
proof fn lemma_hyphenated_injective(a: Seq<u8>, b: Seq<u8>)
    requires
        a.len() == 16,
        b.len() == 16,
        hyphenated(a) == hyphenated(b),
    ensures
        a == b,
{
    let ua = hyphenated(a);
    let ub = hyphenated(b);
    assert(hex_lower(a.subrange(0, 4)) =~= ua.subrange(0, 8));
    assert(hex_lower(b.subrange(0, 4)) =~= ub.subrange(0, 8));
    assert(hex_lower(a.subrange(4, 6)) =~= ua.subrange(9, 13));
    assert(hex_lower(b.subrange(4, 6)) =~= ub.subrange(9, 13));
    assert(hex_lower(a.subrange(6, 8)) =~= ua.subrange(14, 18));
    assert(hex_lower(b.subrange(6, 8)) =~= ub.subrange(14, 18));
    assert(hex_lower(a.subrange(8, 10)) =~= ua.subrange(19, 23));
    assert(hex_lower(b.subrange(8, 10)) =~= ub.subrange(19, 23));
    assert(hex_lower(a.subrange(10, 16)) =~= ua.subrange(24, 36));
    assert(hex_lower(b.subrange(10, 16)) =~= ub.subrange(24, 36));
    lemma_hex_lower_injective(a.subrange(0, 4), b.subrange(0, 4));
    lemma_hex_lower_injective(a.subrange(4, 6), b.subrange(4, 6));
    lemma_hex_lower_injective(a.subrange(6, 8), b.subrange(6, 8));
    lemma_hex_lower_injective(a.subrange(8, 10), b.subrange(8, 10));
    lemma_hex_lower_injective(a.subrange(10, 16), b.subrange(10, 16));
    assert forall|i: int| 0 <= i < 16 implies a[i] == b[i] by {
        if i < 4 {
            assert(a.subrange(0, 4)[i] == b.subrange(0, 4)[i]);
        } else if i < 6 {
            assert(a.subrange(4, 6)[i - 4] == b.subrange(4, 6)[i - 4]);
        } else if i < 8 {
            assert(a.subrange(6, 8)[i - 6] == b.subrange(6, 8)[i - 6]);
        } else if i < 10 {
            assert(a.subrange(8, 10)[i - 8] == b.subrange(8, 10)[i - 8]);
        } else {
            assert(a.subrange(10, 16)[i - 10] == b.subrange(10, 16)[i - 10]);
        }
    }
    assert(a =~= b);
}

/// Law: keys never collide across draws. Two keys made for extensions from random
/// bytes are equal only when the extensions are equal and the draws agree on every bit
/// that the version-4 layout keeps: a key is made from its draw, and different draws
/// give different keys.
pub proof fn lemma_distinct_draws_distinct_keys(
    b1: Seq<u8>,
    b2: Seq<u8>,
    ext1: Seq<char>,
    ext2: Seq<char>,
)
    requires
        b1.len() == 16,
        b2.len() == 16,
        uuid_v4_text_spec(b1) + seq!['.'] + ext1 == uuid_v4_text_spec(b2) + seq!['.'] + ext2,
    ensures
        v4_bytes(b1) == v4_bytes(b2),
        ext1 == ext2,
{
    let u1 = uuid_v4_text_spec(b1);
    let u2 = uuid_v4_text_spec(b2);
    lemma_uuid_v4_text(b1);
    lemma_uuid_v4_text(b2);
    let k1 = u1 + seq!['.'] + ext1;
    let k2 = u2 + seq!['.'] + ext2;
    assert(k1.take(36) =~= u1);
    assert(k2.take(36) =~= u2);
    assert(k1.skip(37) =~= ext1);
    assert(k2.skip(37) =~= ext2);
    lemma_hyphenated_injective(v4_bytes(b1), v4_bytes(b2));
}

/// `{uuid}.{ext}` for the version-4 UUID made from the 16 random bytes `random`, for
/// `extension` trimmed with leading dots dropped; fails when the extension is invalid.
pub fn storage_key_from_random(extension: &str, random: [u8; 16]) -> (r: Result<String, FileUploadError>)
    ensures
        r is Ok <==> valid_extension(normalized_extension(extension@)),
        r matches Ok(k) ==> k@ == uuid_v4_text_spec(random@) + seq!['.'] + normalized_extension(
            extension@,
        ) && valid_key(k@),
        r matches Err(e) ==> e is InvalidExtension,
{
    let ext = match checked_extension(extension) {
        Some(x) => x,
        None => {
            return Err(FileUploadError::InvalidExtension);
        },
    };
    let uuid = uuid_v4_text(random);
    proof {
        lemma_uuid_v4_text(random@);
    }
    let key = storage_key_text(uuid.as_str(), &ext);
    match validate_object_key(key.as_str()) {
        Ok(()) => Ok(key),
        Err(_) => Err(FileUploadError::InvalidExtension),
    }
}

/// Generate a flat `{uuid}.{ext}` key for `extension` (trimmed, leading dots dropped)
/// from a fresh random version-4 UUID. Fails with a store I/O error when the system's
/// random source fails.
pub fn generate_storage_key(extension: &str) -> (r: Result<String, FileUploadError>)
    ensures
        !valid_extension(normalized_extension(extension@)) ==> (r matches Err(e)
            && e is InvalidExtension),
        valid_extension(normalized_extension(extension@)) ==> (r matches Err(e)
            ==> is_random_error(e)),
        r matches Ok(k) ==> exists|b: Seq<u8>|
            b.len() == 16 && k@ == uuid_v4_text_spec(b) + seq!['.'] + normalized_extension(
                extension@,
            ),
        r matches Ok(k) ==> exists|u: Seq<char>|
            is_uuid_v4_text(u) && k@ == u + seq!['.'] + normalized_extension(extension@),
        r matches Ok(k) ==> valid_key(k@),
{
    if checked_extension(extension).is_none() {
        return Err(FileUploadError::InvalidExtension);
    }
    let bytes = match random_uuid_bytes() {
        Some(b) => b,
        None => {
            proof {
                reveal_strlit("random source unavailable for storage key");
            }
            return Err(
                FileUploadError::Store(
                    FileStoreError::io_msg(String::from_str("random source unavailable for storage key")),
                ),
            );
        },
    };
    let r = storage_key_from_random(extension, bytes);
    proof {
        lemma_uuid_v4_text(bytes@);
    }
    r
}

/// Law: every generated key is the hyphenated text of a version-4 UUID, a dot and the
/// normalized extension, so keys for one extension differ only in their UUID.
pub proof fn lemma_generated_key_shape(key: Seq<char>, b: Seq<u8>, extension: Seq<char>)
    requires
        b.len() == 16,
        key == uuid_v4_text_spec(b) + seq!['.'] + normalized_extension(extension),
    ensures
        key.len() == 37 + normalized_extension(extension).len(),
        key[14] == '4',
        key[36] == '.',
        key.skip(37) == normalized_extension(extension),
{
    lemma_uuid_v4_text(b);
    assert(key.skip(37) =~= normalized_extension(extension));
}

/// The status a new File row starts in: pending a scan when scanning is on.
pub open spec fn initial_status_spec(scan_enabled: bool) -> FileFileStatus {
    if scan_enabled {
        FileFileStatus::PendingVirusScan
    } else {
        FileFileStatus::Available
    }
}

/// The status a new File row starts in.
pub fn initial_file_status(scan_enabled: bool) -> (r: FileFileStatus)
    ensures
        r == initial_status_spec(scan_enabled),
{
    if scan_enabled {
        FileFileStatus::PendingVirusScan
    } else {
        FileFileStatus::Available
    }
}

/// Law: a new row starts `pending_virus_scan` exactly when its bytes go to the
/// quarantine store (scanning on), and `available` exactly when they go to the
/// available store (scanning off).
pub proof fn lemma_upload_status_matches_store(scan_enabled: bool)
    ensures
        initial_status_spec(scan_enabled) == FileFileStatus::PendingVirusScan <==> scan_enabled,
        initial_status_spec(scan_enabled) == FileFileStatus::Available <==> !scan_enabled,
{
}

/// The store new bytes go to: quarantine when scanning is on, available otherwise.
pub fn upload_store<S>(scan_enabled: bool, installs: &BlobInstalls<S>) -> (r: Result<&S, FileUploadError>)
    ensures
        scan_enabled ==> (r is Ok <==> installs@.1 is Some),
        !scan_enabled ==> (r is Ok <==> installs@.0 is Some),
        r matches Ok(s) ==> (if scan_enabled {
            installs@.1 == Some(*s)
        } else {
            installs@.0 == Some(*s)
        }),
        r matches Err(e) ==> e is BlobStoreNotInstalled,
{
    if scan_enabled {
        match installed_quarantine_store(installs) {
            Ok(s) => Ok(s),
            Err(e) => Err(FileUploadError::from_install(e)),
        }
    } else {
        match installed_blob_store(installs) {
            Ok(s) => Ok(s),
            Err(e) => Err(FileUploadError::from_install(e)),
        }
    }
}

/// The first step of putting a new object: a fresh key for `extension` and the store
/// it goes to. The key is made before the install is looked up; it fails when the
/// extension is invalid or the random source fails.
pub fn plan_put_new_object<'a, S>(
    extension: &str,
    scan_enabled: bool,
    installs: &'a BlobInstalls<S>,
) -> (r: Result<(String, &'a S), FileUploadError>)
    ensures
        !valid_extension(normalized_extension(extension@)) ==> (r matches Err(e)
            && e is InvalidExtension),
        valid_extension(normalized_extension(extension@)) && !(if scan_enabled {
            installs@.1 is Some
        } else {
            installs@.0 is Some
        }) ==> (r matches Err(e) && (e is BlobStoreNotInstalled || is_random_error(e))),
        valid_extension(normalized_extension(extension@)) && (if scan_enabled {
            installs@.1 is Some
        } else {
            installs@.0 is Some
        }) ==> (r matches Err(e) ==> is_random_error(e)),
        r matches Ok(p) ==> (exists|u: Seq<char>|
            is_uuid_v4_text(u) && p.0@ == u + seq!['.'] + normalized_extension(extension@))
            && valid_key(p.0@) && (if scan_enabled {
            installs@.1 == Some(*p.1)
        } else {
            installs@.0 == Some(*p.1)
        }),
        r matches Err(e) ==> (e is InvalidExtension || e is BlobStoreNotInstalled
            || is_random_error(e)),
{
    let key = generate_storage_key(extension)?;
    let store = upload_store(scan_enabled, installs)?;
    Ok((key, store))
}

/// The last step of putting a new object: the put's outcome and the byte count.
pub fn finish_put_new_object(
    key: String,
    len: usize,
    put: Result<(), FileStoreError>,
) -> (r: Result<PutObjectResult, FileUploadError>)
    ensures
        put matches Err(e) ==> r == Err::<PutObjectResult, FileUploadError>(FileUploadError::Store(e)),
        put is Ok && len <= i64::MAX ==> (r matches Ok(p) && p.storage_path == key && p.size_bytes
            == len as i64),
        put is Ok && len > i64::MAX ==> (r matches Err(FileUploadError::Store(e)) && e is Io),
{
    match put {
        Err(e) => Err(FileUploadError::Store(e)),
        Ok(()) => {
            let wide: u64 = len as u64;
            if wide <= 0x7fff_ffff_ffff_ffff {
                Ok(PutObjectResult { storage_path: key, size_bytes: wide as i64 })
            } else {
                Err(
                    FileUploadError::Store(
                        FileStoreError::io_msg(String::from_str("file size does not fit i64")),
                    ),
                )
            }
        },
    }
}

/// Caller-supplied metadata of a new File; the storage fields come from the put.
#[derive(Clone, Debug)]
pub struct FileCreateMeta {
    /// Display name given at upload (for example `receipt-1.png`).
    pub file_name: String,
    /// Flat extension without a leading dot (for example `png`).
    pub file_extension: String,
    /// MIME type (for example `image/png`).
    pub mime_type: String,
    /// Soft owner (`user` record).
    pub uploaded_by: RecordId,
}

/// The row a File model is built from once its bytes are stored: the caller's
/// metadata, the put's key and size, the starting status and the upload time. It has
/// no id until it is created.
pub fn stored_file_row(
    meta: FileCreateMeta,
    put: PutObjectResult,
    file_status: FileFileStatus,
    uploaded_at: UnixTime,
) -> (r: FileModel)
    ensures
        r.id is None,
        r.file_name@ == meta.file_name@,
        r.file_extension@ == meta.file_extension@,
        r.mime_type@ == meta.mime_type@,
        r.uploaded_by@ == meta.uploaded_by@,
        r.storage_path@ == put.storage_path@,
        r.size_bytes == put.size_bytes,
        r.file_status == file_status,
        r.uploaded_at == uploaded_at,
{
    FileModel {
        id: None,
        file_name: meta.file_name,
        file_extension: meta.file_extension,
        mime_type: meta.mime_type,
        size_bytes: put.size_bytes,
        storage_path: put.storage_path,
        file_status,
        uploaded_by: meta.uploaded_by,
        uploaded_at,
    }
}

/// The outcome of creating the row after the put: a refused create is reported with
/// its message (the stored bytes may remain).
pub fn create_outcome<M>(created: Result<M, String>) -> (r: Result<M, FileUploadError>)
    ensures
        created matches Ok(m) ==> r matches Ok(n) && n == m,
        created matches Err(msg) ==> r matches Err(FileUploadError::Valence(t)) && t@ == msg@,
{
    match created {
        Ok(m) => Ok(m),
        Err(msg) => Err(FileUploadError::Valence(msg)),
    }
}

/// Gate on readable bytes: only an `available` File's bytes may be loaded.
pub fn ensure_file_available(status: FileFileStatus) -> (r: Result<(), FileStoreError>)
    ensures
        r is Ok <==> status == FileFileStatus::Available,
        r matches Err(e) ==> (e matches FileStoreError::NotAvailable { status: Some(w) } && w@
            == status_wire(status)),
{
    match status {
        FileFileStatus::Available => Ok(()),
        _ => Err(FileStoreError::NotAvailable { status: Some(String::from_str(status.as_str())) }),
    }
}

} // verus!
