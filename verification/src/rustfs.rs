//! RustFS / S3-compatible path-style blob store: request planning and reply handling.
//!
//! The store signs every request here; the host sends it with [`RustFsBlobStore::client`]
//! and hands the HTTP status (and body) back to the `*_outcome` methods.

use vstd::prelude::*;
use crate::error::{ErrorSource, FileStoreError, SourceKind};
use crate::keys::{valid_key, validate_object_key};
use crate::sigv4::{clock_stamp, datestamp_of, sign_s3_request, sign_spec};
use crate::text::{
    chars_of, decimal, decimal_chars, extend_chars, string_of, trim_by, trim_chars, trim_end_by,
    trim_end_chars, CharClass,
};

verus! {

/// The HTTP client type of `reqwest`.
#[verifier::external_type_specification]
#[verifier::external_body]
pub struct ExReqwestClient(reqwest::Client);

/// The error type of `reqwest`.
#[verifier::external_type_specification]
#[verifier::external_body]
pub struct ExReqwestError(reqwest::Error);

/// `reqwest::Client::clone` hands out another handle to the same client; nothing is
/// stated of it.
pub assume_specification[ <reqwest::Client as Clone>::clone ](c: &reqwest::Client) -> reqwest::Client;

/// Default SigV4 region when `MESON_RUSTFS_REGION` is unset.
pub const DEFAULT_RUSTFS_REGION: &'static str = "us-east-1";

/// `reqwest::Client::builder().timeout(timeout_secs seconds).build()`. Nothing is stated
/// of the result: whether the client can be built depends on the host's TLS, proxy and
/// resolver setup.
#[verifier::external_body]
fn build_http_client(timeout_secs: u64) -> (r: Result<reqwest::Client, reqwest::Error>) {
    reqwest::Client::builder().timeout(std::time::Duration::from_secs(timeout_secs)).build()
}

/// Seconds an HTTP request may take before the client gives up.
pub const HTTP_TIMEOUT_SECS: u64 = 30;

/// The `Display` text of a `reqwest` error.
pub uninterp spec fn reqwest_error_text(e: reqwest::Error) -> Seq<char>;

/// Whether a `reqwest` error is (or was caused by) a timeout.
pub uninterp spec fn reqwest_timed_out(e: reqwest::Error) -> bool;

/// Whether a `reqwest` error was caused by a failure to connect.
pub uninterp spec fn reqwest_connect_failed(e: reqwest::Error) -> bool;

/// `reqwest::Error`'s `Display` text: it is computed from the error value alone.
#[verifier::external_body]
fn reqwest_error_message(e: &reqwest::Error) -> (r: String)
    ensures
        r@ == reqwest_error_text(*e),
{
    e.to_string()
}

/// `reqwest::Error::is_timeout`: whether the error, or a cause in its source chain, is
/// a timeout; it is computed from the error value alone.
#[verifier::external_body]
fn reqwest_error_is_timeout(e: &reqwest::Error) -> (r: bool)
    ensures
        r == reqwest_timed_out(*e),
{
    e.is_timeout()
}

/// `reqwest::Error::is_connect`: whether a cause in the error's source chain is a
/// connection failure of the HTTP client; it is computed from the error value alone.
#[verifier::external_body]
fn reqwest_error_is_connect(e: &reqwest::Error) -> (r: bool)
    ensures
        r == reqwest_connect_failed(*e),
{
    e.is_connect()
}

/// The cause kind of an HTTP client error that did or did not time out or fail to connect.
pub open spec fn transport_kind(timed_out: bool, connect_failed: bool) -> SourceKind {
    if timed_out {
        SourceKind::HttpTimeout
    } else if connect_failed {
        SourceKind::HttpConnect
    } else {
        SourceKind::Other
    }
}

/// The storage cause of an HTTP client error, from whether it timed out, whether it
/// failed to connect, and its message: a timeout wins over a connect failure.
pub fn classify_transport_error(timed_out: bool, connect_failed: bool, message: String) -> (r:
    ErrorSource)
    ensures
        r.kind == transport_kind(timed_out, connect_failed),
        r.message == message,
{
    let kind = if timed_out {
        SourceKind::HttpTimeout
    } else if connect_failed {
        SourceKind::HttpConnect
    } else {
        SourceKind::Other
    };
    ErrorSource::new(kind, message)
}

/// Classify an HTTP client error as a storage cause: a timeout, else a connect failure,
/// else any other failure, with the error's text.
pub fn transport_error_source(e: &reqwest::Error) -> (r: ErrorSource)
    ensures
        r.kind == transport_kind(reqwest_timed_out(*e), reqwest_connect_failed(*e)),
        r.message@ == reqwest_error_text(*e),
{
    let message = reqwest_error_message(e);
    let timed_out = reqwest_error_is_timeout(e);
    let connect_failed = reqwest_error_is_connect(e);
    classify_transport_error(timed_out, connect_failed, message)
}

/// `str`'s `Debug` rendering of `s`: the text in double quotes, with `"`, `\\` and
/// non-printable characters escaped.
pub uninterp spec fn str_debug(s: Seq<char>) -> Seq<char>;

/// `format!("{:?}", s)`: the result is `str`'s `Debug` rendering of `s`, which depends
/// on `s` alone.
#[verifier::external_body]
fn debug_quoted(s: &str) -> (r: String)
    ensures
        r@ == str_debug(s@),
{
    format!("{:?}", s)
}

/// What a [`RustFsBlobStore`] holds, as plain values.
pub struct RustFsView {
    /// Endpoint without trailing `/`.
    pub endpoint: Seq<char>,
    /// Bucket without leading or trailing `/`.
    pub bucket: Seq<char>,
    /// Access key id.
    pub access_key: Seq<char>,
    /// Secret access key.
    pub secret_key: Seq<char>,
    /// SigV4 region.
    pub region: Seq<char>,
    /// Largest object size accepted by put/get, when capped.
    pub max_object_bytes: Option<usize>,
}

/// S3 path-style blob store targeting RustFS (or any compatible endpoint).
#[derive(Clone)]
pub struct RustFsBlobStore {
    endpoint: String,
    bucket: String,
    access_key: String,
    secret_key: String,
    region: String,
    client: reqwest::Client,
    max_object_bytes: Option<usize>,
}

impl View for RustFsBlobStore {
    type V = RustFsView;

    closed spec fn view(&self) -> RustFsView {
        RustFsView {
            endpoint: self.endpoint@,
            bucket: self.bucket@,
            access_key: self.access_key@,
            secret_key: self.secret_key@,
            region: self.region@,
            max_object_bytes: self.max_object_bytes,
        }
    }
}

/// `Debug` rendering of an optional size: `None` or `Some(n)`.
pub open spec fn opt_size_debug(o: Option<usize>) -> Seq<char> {
    match o {
        Some(n) => "Some("@ + decimal(n as nat) + seq![')'],
        None => "None"@,
    }
}

/// The store's debug text: endpoint, bucket, region and cap, with both credentials
/// shown as `***`.
pub open spec fn store_debug_spec(v: RustFsView) -> Seq<char> {
    "RustFsBlobStore { endpoint: "@ + str_debug(v.endpoint) + ", bucket: "@ + str_debug(v.bucket)
        + ", access_key: \"***\", secret_key: \"***\", region: "@ + str_debug(v.region)
        + ", max_object_bytes: "@ + opt_size_debug(v.max_object_bytes) + ", .. }"@
}

/// Law: the debug text never depends on the credentials. Two stores that differ only in
/// their access and secret keys render the same text.
pub proof fn lemma_debug_hides_credentials(a: RustFsView, b: RustFsView)
    requires
        a.endpoint == b.endpoint,
        a.bucket == b.bucket,
        a.region == b.region,
        a.max_object_bytes == b.max_object_bytes,
    ensures
        store_debug_spec(a) == store_debug_spec(b),
{
}

/// HTTP verbs the store sends.
#[derive(Clone, Copy, Debug, PartialEq, Eq, Structural)]
pub enum HttpMethod {
    /// `PUT`
    Put,
    /// `GET`
    Get,
    /// `DELETE`
    Delete,
}

/// The verb's name on the wire.
pub open spec fn method_name(m: HttpMethod) -> Seq<char> {
    match m {
        HttpMethod::Put => "PUT"@,
        HttpMethod::Get => "GET"@,
        HttpMethod::Delete => "DELETE"@,
    }
}

/// A signed request ready to send.
pub struct SignedRequest {
    /// HTTP verb.
    pub method: HttpMethod,
    /// Target URL.
    pub url: String,
    /// `Authorization` header value.
    pub authorization: String,
    /// `x-amz-date` header value.
    pub amz_date: String,
    /// `x-amz-content-sha256` header value.
    pub content_sha256: String,
    /// `Content-Type` header value, when the request sends one.
    pub content_type: Option<&'static str>,
    /// Request body.
    pub body: Vec<u8>,
}

/// `StatusCode::is_success`: 2xx.
pub open spec fn is_success(status: u16) -> bool {
    200 <= status && status <= 299
}

/// A 401 or 403 reply.
pub open spec fn is_auth_failure(status: u16) -> bool {
    status == 401 || status == 403
}

/// The error a failed reply maps to when nothing more specific applies.
pub open spec fn http_failure(status: u16) -> FileStoreError {
    if is_auth_failure(status) {
        FileStoreError::Unauthorized
    } else if status == 404 {
        FileStoreError::NotFound
    } else {
        FileStoreError::Io { http_status: Some(status), source: None }
    }
}

/// The message of the error reported when a request cannot be signed because the
/// system clock gives no usable time.
pub open spec fn clock_error_message() -> Seq<char> {
    "system clock unavailable for request signing"@
}

/// `e` reports that the system clock gave no usable time.
pub open spec fn is_clock_error(e: FileStoreError) -> bool {
    e matches FileStoreError::Io { http_status: None, source: Some(src) } && src.kind
        == SourceKind::Other && src.message@ == clock_error_message()
}

/// `{endpoint}/{bucket}/{key}`.
pub open spec fn object_url_spec(v: RustFsView, key: Seq<char>) -> Seq<char> {
    v.endpoint + seq!['/'] + v.bucket + seq!['/'] + key
}

/// Law: keys never alias within a bucket. Two keys address the same object URL only
/// when they are the same key, so an upload under one key never replaces another's.
pub proof fn lemma_distinct_keys_distinct_urls(v: RustFsView, k1: Seq<char>, k2: Seq<char>)
    ensures
        object_url_spec(v, k1) == object_url_spec(v, k2) ==> k1 == k2,
{
    let prefix = v.endpoint + seq!['/'] + v.bucket + seq!['/'];
    assert(object_url_spec(v, k1) =~= prefix + k1);
    assert(object_url_spec(v, k2) =~= prefix + k2);
    assert((prefix + k1).skip(prefix.len() as int) =~= k1);
    assert((prefix + k2).skip(prefix.len() as int) =~= k2);
}

/// `{endpoint}/{bucket}`.
pub open spec fn bucket_url_spec(v: RustFsView) -> Seq<char> {
    v.endpoint + seq!['/'] + v.bucket
}

/// Whether `len` bytes exceed the store's cap.
pub open spec fn too_large(v: RustFsView, len: usize) -> bool {
    match v.max_object_bytes {
        Some(max) => len > max,
        None => false,
    }
}

/// The `Content-Type` every upload carries.
pub open spec fn octet_stream_header() -> Seq<(&'static str, &'static str)> {
    seq![("content-type", "application/octet-stream")]
}

/// `req` is `method` on `url` with `body`, signed with the store's credentials for the
/// date stamp at the front of its `x-amz-date` value.
pub open spec fn signed_for(
    req: SignedRequest,
    v: RustFsView,
    method: HttpMethod,
    url: Seq<char>,
    body: Seq<u8>,
    extra: Seq<(&str, &str)>,
) -> bool {
    &&& req.method == method
    &&& req.url@ == url
    &&& req.body@ == body
    &&& clock_stamp(req.amz_date@)
    &&& (req.authorization@, req.amz_date@, req.content_sha256@) == sign_spec(
        method_name(method),
        url,
        body,
        v.access_key,
        v.secret_key,
        v.region,
        extra,
        req.amz_date@,
        datestamp_of(req.amz_date@),
    )
}

impl RustFsBlobStore {
    /// Build a store for `endpoint` + `bucket` with static credentials.
    ///
    /// Fails with an I/O error when the HTTP client cannot be built.
    pub fn new(
        endpoint: String,
        bucket: String,
        access_key: String,
        secret_key: String,
        region: String,
    ) -> (r: Result<Self, FileStoreError>)
        ensures
            r matches Ok(s) ==> s@ == (RustFsView {
                endpoint: trim_end_by(endpoint@, CharClass::Exactly('/')),
                bucket: trim_by(bucket@, CharClass::Exactly('/')),
                access_key: access_key@,
                secret_key: secret_key@,
                region: region@,
                max_object_bytes: None,
            }),
            r matches Err(e) ==> e is Io,
    {
        let client = match build_http_client(HTTP_TIMEOUT_SECS) {
            Ok(c) => c,
            Err(e) => {
                return Err(FileStoreError::io(transport_error_source(&e)));
            },
        };
        let ep = trim_end_chars(&chars_of(endpoint.as_str()), CharClass::Exactly('/'));
        let bk = trim_chars(&chars_of(bucket.as_str()), CharClass::Exactly('/'));
        Ok(RustFsBlobStore {
            endpoint: string_of(&ep),
            bucket: string_of(&bk),
            access_key,
            secret_key,
            region,
            client,
            max_object_bytes: None,
        })
    }

    /// Cap put/get body size (bytes); `None` removes the cap.
    pub fn with_max_object_bytes(self, max_object_bytes: Option<usize>) -> (r: Self)
        ensures
            r@ == (RustFsView { max_object_bytes, ..self@ }),
            r.http_client() == self.http_client(),
    {
        let mut s = self;
        s.max_object_bytes = max_object_bytes;
        s
    }

    /// The store's debug text, with the credentials redacted.
    pub fn debug_text(&self) -> (r: String)
        ensures
            r@ == store_debug_spec(self@),
    {
        let mut t = chars_of("RustFsBlobStore { endpoint: ");
        extend_chars(&mut t, &chars_of(debug_quoted(self.endpoint.as_str()).as_str()));
        extend_chars(&mut t, &chars_of(", bucket: "));
        extend_chars(&mut t, &chars_of(debug_quoted(self.bucket.as_str()).as_str()));
        extend_chars(&mut t, &chars_of(", access_key: \"***\", secret_key: \"***\", region: "));
        extend_chars(&mut t, &chars_of(debug_quoted(self.region.as_str()).as_str()));
        extend_chars(&mut t, &chars_of(", max_object_bytes: "));
        match self.max_object_bytes {
            Some(n) => {
                extend_chars(&mut t, &chars_of("Some("));
                extend_chars(&mut t, &decimal_chars(n as u64));
                t.push(')');
            },
            None => {
                extend_chars(&mut t, &chars_of("None"));
            },
        }
        extend_chars(&mut t, &chars_of(", .. }"));
        proof {
            reveal_strlit("Some(");
        }
        assert(t@ =~= store_debug_spec(self@));
        string_of(&t)
    }

    /// The HTTP client this store sends its requests with.
    pub closed spec fn http_client(&self) -> reqwest::Client {
        self.client
    }

    /// The HTTP client requests are sent with.
    pub fn client(&self) -> (r: &reqwest::Client)
        ensures
            *r == self.http_client(),
    {
        &self.client
    }

    /// Reject an object of `len` bytes when it exceeds the cap.
    pub fn enforce_max_object_bytes(&self, len: usize) -> (r: Result<(), FileStoreError>)
        ensures
            r is Ok <==> !too_large(self@, len),
            r matches Err(e) ==> e matches FileStoreError::Io { http_status: None, source: Some(
                src,
            ) } && src.kind == SourceKind::Other && src.message@ == "object exceeds max_object_bytes ("@
                + decimal(self@.max_object_bytes->0 as nat) + seq![')'],
    {
        if let Some(max) = self.max_object_bytes {
            if len > max {
                let mut msg = chars_of("object exceeds max_object_bytes (");
                extend_chars(&mut msg, &decimal_chars(max as u64));
                msg.push(')');
                return Err(FileStoreError::io_msg(string_of(&msg)));
            }
        }
        Ok(())
    }

    /// `{endpoint}/{bucket}/{key}`.
    pub fn object_url(&self, key: &str) -> (r: String)
        ensures
            r@ == object_url_spec(self@, key@),
    {
        let mut u = chars_of(self.endpoint.as_str());
        u.push('/');
        extend_chars(&mut u, &chars_of(self.bucket.as_str()));
        u.push('/');
        extend_chars(&mut u, &chars_of(key));
        string_of(&u)
    }

    /// `{endpoint}/{bucket}`.
    pub fn bucket_url(&self) -> (r: String)
        ensures
            r@ == bucket_url_spec(self@),
    {
        let mut u = chars_of(self.endpoint.as_str());
        u.push('/');
        extend_chars(&mut u, &chars_of(self.bucket.as_str()));
        string_of(&u)
    }

    /// Map a failed reply to a storage error.
    pub fn map_http_failure(status: u16) -> (r: FileStoreError)
        ensures
            r == http_failure(status),
    {
        if status == 403 || status == 401 {
            FileStoreError::Unauthorized
        } else if status == 404 {
            FileStoreError::NotFound
        } else {
            FileStoreError::io_http(status)
        }
    }

    /// Sign `method` on `url` with `body` and the extra headers.
    fn signed(
        &self,
        method: HttpMethod,
        url: String,
        body: Vec<u8>,
        extra: &[(&'static str, &'static str)],
        content_type: Option<&'static str>,
    ) -> (r: Result<SignedRequest, FileStoreError>)
        ensures
            r matches Ok(req) ==> signed_for(req, self@, method, url@, body@, extra@)
                && req.content_type == content_type,
            r matches Err(e) ==> is_clock_error(e),
    {
        let name = match method {
            HttpMethod::Put => "PUT",
            HttpMethod::Get => "GET",
            HttpMethod::Delete => "DELETE",
        };
        assert(name@ == method_name(method));
        let signed = sign_s3_request(
            name,
            url.as_str(),
            body.as_slice(),
            self.access_key.as_str(),
            self.secret_key.as_str(),
            self.region.as_str(),
            extra,
        );
        let (authorization, amz_date, content_sha256) = match signed {
            Some(t) => t,
            None => {
                proof {
                    reveal_strlit("system clock unavailable for request signing");
                }
                return Err(
                    FileStoreError::io_msg(
                        String::from_str("system clock unavailable for request signing"),
                    ),
                );
            },
        };
        let ghost url_v = url@;
        let ghost body_v = body@;
        let r = SignedRequest {
            method,
            url,
            authorization,
            amz_date,
            content_sha256,
            content_type,
            body,
        };
        assert(signed_for(r, self@, method, url_v, body_v, extra@));
        Ok(r)
    }

    /// Sign an upload carrying `Content-Type: application/octet-stream`.
    fn signed_upload(&self, url: String, body: Vec<u8>) -> (r: Result<SignedRequest, FileStoreError>)
        ensures
            r matches Ok(req) ==> signed_for(req, self@, HttpMethod::Put, url@, body@, octet_stream_header())
                && req.content_type == Some("application/octet-stream"),
            r matches Err(e) ==> is_clock_error(e),
    {
        let extra: [(&'static str, &'static str); 1] = [("content-type", "application/octet-stream")];
        assert(extra@ =~= octet_stream_header());
        self.signed(HttpMethod::Put, url, body, &extra, Some("application/octet-stream"))
    }

    /// Sign a bodiless request without extra headers.
    fn signed_bare(&self, method: HttpMethod, url: String) -> (r: Result<SignedRequest, FileStoreError>)
        ensures
            r matches Ok(req) ==> signed_for(req, self@, method, url@, seq![], seq![])
                && req.content_type is None,
            r matches Err(e) ==> is_clock_error(e),
    {
        let extra: [(&'static str, &'static str); 0] = [];
        let body: Vec<u8> = Vec::new();
        assert(extra@ =~= seq![]);
        assert(body@ =~= seq![]);
        self.signed(method, url, body, &extra, None)
    }

    /// The signed CreateBucket request for the configured bucket; an error when the
    /// system clock gives no usable time.
    pub fn ensure_bucket_request(&self) -> (r: Result<SignedRequest, FileStoreError>)
        ensures
            r matches Ok(req) ==> signed_for(
                req,
                self@,
                HttpMethod::Put,
                bucket_url_spec(self@),
                seq![],
                octet_stream_header(),
            ) && req.content_type == Some("application/octet-stream"),
            r matches Err(e) ==> is_clock_error(e),
    {
        let url = self.bucket_url();
        let body: Vec<u8> = Vec::new();
        assert(body@ =~= seq![]);
        self.signed_upload(url, body)
    }

    /// CreateBucket reply: success and 409 (already exists) are fine.
    pub fn ensure_bucket_outcome(status: u16) -> (r: Result<(), FileStoreError>)
        ensures
            r is Ok <==> is_success(status) || status == 409,
            r matches Err(e) ==> e == (if is_auth_failure(status) {
                FileStoreError::Unauthorized
            } else {
                FileStoreError::Io { http_status: Some(status), source: None }
            }),
    {
        if 200 <= status && status <= 299 || status == 409 {
            Ok(())
        } else if status == 403 || status == 401 {
            Err(FileStoreError::Unauthorized)
        } else {
            Err(FileStoreError::io_http(status))
        }
    }

    /// The signed upload of `bytes` under `key`, after the key and size checks; an I/O error
    /// when the system clock gives no usable time.
    pub fn put_request(&self, key: &str, bytes: &[u8]) -> (r: Result<SignedRequest, FileStoreError>)
        ensures
            !valid_key(key@) ==> (r matches Err(e) && e is InvalidKey),
            valid_key(key@) && too_large(self@, bytes@.len() as usize) ==> (r matches Err(e)
                && e is Io),
            valid_key(key@) && !too_large(self@, bytes@.len() as usize) ==> (r matches Err(e)
                ==> is_clock_error(e)),
            r matches Ok(req) ==> signed_for(
                req,
                self@,
                HttpMethod::Put,
                object_url_spec(self@, key@),
                bytes@,
                octet_stream_header(),
            ) && req.content_type == Some("application/octet-stream"),
    {
        validate_object_key(key)?;
        self.enforce_max_object_bytes(bytes.len())?;
        let url = self.object_url(key);
        let body = vstd::slice::slice_to_vec(bytes);
        self.signed_upload(url, body)
    }

    /// Upload reply: 2xx is success; 401/403 unauthorized; otherwise by status.
    pub fn put_outcome(status: u16) -> (r: Result<(), FileStoreError>)
        ensures
            r is Ok <==> is_success(status),
            r matches Err(e) ==> e == http_failure(status),
    {
        if 200 <= status && status <= 299 {
            Ok(())
        } else if status == 403 || status == 401 {
            Err(FileStoreError::Unauthorized)
        } else {
            Err(Self::map_http_failure(status))
        }
    }

    /// The signed download of `key`, after the key check; an I/O error when the system
    /// clock gives no usable time.
    pub fn get_request(&self, key: &str) -> (r: Result<SignedRequest, FileStoreError>)
        ensures
            !valid_key(key@) ==> (r matches Err(e) && e is InvalidKey),
            valid_key(key@) ==> (r matches Err(e) ==> is_clock_error(e)),
            r matches Ok(req) ==> signed_for(
                req,
                self@,
                HttpMethod::Get,
                object_url_spec(self@, key@),
                seq![],
                seq![],
            ) && req.content_type is None,
    {
        validate_object_key(key)?;
        let url = self.object_url(key);
        self.signed_bare(HttpMethod::Get, url)
    }

    /// Download reply: 2xx hands the body back when it is within the cap; 404 is not
    /// found; 401/403 unauthorized; otherwise by status.
    pub fn get_outcome(&self, status: u16, body: Vec<u8>) -> (r: Result<Vec<u8>, FileStoreError>)
        ensures
            r is Ok <==> is_success(status) && !too_large(self@, body@.len() as usize),
            r matches Ok(b) ==> b@ == body@,
            is_success(status) && too_large(self@, body@.len() as usize) ==> (r matches Err(e)
                && e is Io),
            !is_success(status) ==> (r matches Err(e) && e == http_failure(status)),
    {
        if 200 <= status && status <= 299 {
            self.enforce_max_object_bytes(body.len())?;
            Ok(body)
        } else if status == 404 {
            Err(FileStoreError::NotFound)
        } else if status == 403 || status == 401 {
            Err(FileStoreError::Unauthorized)
        } else {
            Err(Self::map_http_failure(status))
        }
    }

    /// The signed delete of `key`, after the key check; an I/O error when the system
    /// clock gives no usable time.
    pub fn delete_request(&self, key: &str) -> (r: Result<SignedRequest, FileStoreError>)
        ensures
            !valid_key(key@) ==> (r matches Err(e) && e is InvalidKey),
            valid_key(key@) ==> (r matches Err(e) ==> is_clock_error(e)),
            r matches Ok(req) ==> signed_for(
                req,
                self@,
                HttpMethod::Delete,
                object_url_spec(self@, key@),
                seq![],
                seq![],
            ) && req.content_type is None,
    {
        validate_object_key(key)?;
        let url = self.object_url(key);
        self.signed_bare(HttpMethod::Delete, url)
    }

    /// Delete reply: 2xx and 404 (already gone) are fine; 401/403 unauthorized;
    /// otherwise an I/O error carrying the status.
    pub fn delete_outcome(status: u16) -> (r: Result<(), FileStoreError>)
        ensures
            r is Ok <==> is_success(status) || status == 404,
            r matches Err(e) ==> e == http_failure(status),
    {
        if 200 <= status && status <= 299 || status == 404 {
            Ok(())
        } else if status == 403 || status == 401 {
            Err(FileStoreError::Unauthorized)
        } else {
            Err(Self::map_http_failure(status))
        }
    }
}

} // verus!
