//! ClamAV `clamd` INSTREAM protocol: request framing, reply parsing and the verdict.
//!
//! The host opens the Unix or TCP connection, writes [`instream_request`], reads
//! until [`reply_complete`] and hands the reply to [`reply_verdict`].

use vstd::prelude::*;
use vstd::utf8::{decode_utf8, valid_utf8};
use crate::env::MesonEnv;
use crate::numbers::{parse_unsigned, parse_unsigned_spec};
use crate::scan::{verdict_text, ScanError, ScanVerdict};
use crate::text::{
    ascii_upper, chars_contains, chars_ends_with, chars_eq_ignore_case, chars_of,
    chars_starts_with, contains, ends_with, eq_ignore_case, slice_chars, strip_prefix, to_ascii_upper,
    trim, trim_by, trim_chars, trim_ws, CharClass,
};

verus! {

/// Errors building a [`ClamAvScanner`] from the environment.
#[derive(Clone, Copy, Debug, PartialEq, Eq, Structural)]
pub enum ClamAvConfigError {
    /// Neither a Unix socket nor a TCP host is configured.
    MissingEndpoint,
    /// `MESON_CLAMD_PORT` is present but not a port number.
    InvalidPort,
}

impl ClamAvConfigError {
    /// The error's message.
    pub fn message(&self) -> (r: &'static str)
        ensures
            r@ == (match *self {
                ClamAvConfigError::MissingEndpoint => "missing clamd endpoint (set MESON_CLAMD_SOCKET or MESON_CLAMD_HOST)"@,
                ClamAvConfigError::InvalidPort => "invalid MESON_CLAMD_PORT"@,
            }),
    {
        match self {
            ClamAvConfigError::MissingEndpoint => "missing clamd endpoint (set MESON_CLAMD_SOCKET or MESON_CLAMD_HOST)",
            ClamAvConfigError::InvalidPort => "invalid MESON_CLAMD_PORT",
        }
    }
}

/// Where to reach `clamd`.
#[derive(Clone, Debug)]
pub enum ClamdEndpoint {
    /// Unix domain socket path.
    Unix(String),
    /// TCP host and port.
    Tcp {
        /// Host name or address.
        host: String,
        /// TCP port.
        port: u16,
    },
}

/// ClamAV scanner talking to a running `clamd`.
#[derive(Clone, Debug)]
pub struct ClamAvScanner {
    endpoint: ClamdEndpoint,
}

/// Default `clamd` TCP port.
pub const DEFAULT_CLAMD_PORT: u16 = 3310;

/// The endpoint `from_env` picks, with the error it reports otherwise.
pub open spec fn clamd_endpoint_spec(
    socket: Option<Seq<char>>,
    host: Option<Seq<char>>,
    port: Option<Seq<char>>,
) -> Result<(bool, Seq<char>, u16), ClamAvConfigError> {
    if socket matches Some(s) && s.len() > 0 {
        Ok((true, socket->0, 0))
    } else if !(host matches Some(h) && h.len() > 0) {
        Err(ClamAvConfigError::MissingEndpoint)
    } else if port matches Some(p) && p.len() > 0 {
        match parse_unsigned_spec(port->0, 65535) {
            Some(n) => Ok((false, host->0, n as u16)),
            None => Err(ClamAvConfigError::InvalidPort),
        }
    } else {
        Ok((false, host->0, 3310))
    }
}

/// The view of an endpoint: `(is_unix, path_or_host, port)`.
pub open spec fn endpoint_view(e: ClamdEndpoint) -> (bool, Seq<char>, u16) {
    match e {
        ClamdEndpoint::Unix(p) => (true, p@, 0),
        ClamdEndpoint::Tcp { host, port } => (false, host@, port),
    }
}

/// The optional setting's characters.
pub open spec fn opt_view(o: Option<String>) -> Option<Seq<char>> {
    match o {
        Some(s) => Some(s@),
        None => None,
    }
}

impl ClamAvScanner {
    /// A scanner for `endpoint`.
    pub fn new(endpoint: ClamdEndpoint) -> (r: Self)
        ensures
            endpoint_view(r.endpoint()) == endpoint_view(endpoint),
    {
        ClamAvScanner { endpoint }
    }

    /// Where this scanner connects.
    pub closed spec fn endpoint(&self) -> ClamdEndpoint {
        self.endpoint
    }

    /// Where this scanner connects.
    pub fn endpoint_ref(&self) -> (r: &ClamdEndpoint)
        ensures
            *r == self.endpoint(),
    {
        &self.endpoint
    }

    /// Build from `MESON_CLAMD_SOCKET`, or `MESON_CLAMD_HOST` with optional
    /// `MESON_CLAMD_PORT` (default 3310). Empty values count as unset.
    pub fn from_env(env: &MesonEnv) -> (r: Result<Self, ClamAvConfigError>)
        ensures
            clamd_endpoint_spec(
                opt_view(env.clamd_socket),
                opt_view(env.clamd_host),
                opt_view(env.clamd_port),
            ) matches Ok(v) ==> (r matches Ok(s) && endpoint_view(s.endpoint()) == v),
            clamd_endpoint_spec(
                opt_view(env.clamd_socket),
                opt_view(env.clamd_host),
                opt_view(env.clamd_port),
            ) matches Err(e) ==> r == Err::<Self, ClamAvConfigError>(e),
    {
        if let Some(sock) = &env.clamd_socket {
            if sock.as_str().unicode_len() > 0 {
                return Ok(Self::new(ClamdEndpoint::Unix(sock.clone())));
            }
        }
        let host = match &env.clamd_host {
            Some(h) => h,
            None => {
                return Err(ClamAvConfigError::MissingEndpoint);
            },
        };
        if host.as_str().unicode_len() == 0 {
            return Err(ClamAvConfigError::MissingEndpoint);
        }
        let port: u16 = match &env.clamd_port {
            Some(p) => {
                let cs = chars_of(p.as_str());
                if cs.len() > 0 {
                    match parse_unsigned(&cs, 65535) {
                        Some(n) => n as u16,
                        None => {
                            return Err(ClamAvConfigError::InvalidPort);
                        },
                    }
                } else {
                    DEFAULT_CLAMD_PORT
                }
            },
            None => DEFAULT_CLAMD_PORT,
        };
        Ok(Self::new(ClamdEndpoint::Tcp { host: host.clone(), port }))
    }
}

/// Parsed `clamd` INSTREAM reply.
#[derive(Clone, Copy, Debug, PartialEq, Eq, Structural)]
pub enum ClamdResponse {
    /// Clean stream (`OK`).
    StreamOk,
    /// Infection found (the signature name is discarded).
    Found,
    /// The daemon reported `ERROR`.
    Error,
    /// Unrecognized reply.
    Unknown,
}

/// Trim whitespace, then NUL characters, then whitespace again.
pub open spec fn clean_reply_text(s: Seq<char>) -> Seq<char> {
    trim(trim_by(trim(s), CharClass::Exactly('\0')))
}

/// The reply without its `stream:` / `STREAM:` label, cleaned.
pub open spec fn reply_body(raw: Seq<char>) -> Seq<char> {
    let line = clean_reply_text(raw);
    let unlabeled = match strip_prefix(line, "stream:"@) {
        Some(rest) => rest,
        None => match strip_prefix(line, "STREAM:"@) {
            Some(rest) => rest,
            None => line,
        },
    };
    clean_reply_text(unlabeled)
}

/// Classification of a reply line.
pub open spec fn parse_clamd_spec(raw: Seq<char>) -> ClamdResponse {
    let body = reply_body(raw);
    if eq_ignore_case(body, "OK"@) {
        ClamdResponse::StreamOk
    } else if ends_with(ascii_upper(body), "FOUND"@) {
        ClamdResponse::Found
    } else if contains(ascii_upper(body), "ERROR"@) {
        ClamdResponse::Error
    } else {
        ClamdResponse::Unknown
    }
}

/// Trim whitespace, NUL characters, whitespace.
fn clean_reply(cs: &[char]) -> (r: Vec<char>)
    ensures
        r@ == clean_reply_text(cs@),
{
    trim_ws(&trim_chars(&trim_ws(cs), CharClass::Exactly('\0')))
}

/// Parse a clamd INSTREAM response line (for example `stream: OK`).
pub fn parse_clamd_response(raw: &str) -> (r: ClamdResponse)
    ensures
        r == parse_clamd_spec(raw@),
{
    let line = clean_reply(&chars_of(raw));
    let lower_label = chars_of("stream:");
    let upper_label = chars_of("STREAM:");
    let unlabeled = if chars_starts_with(&line, &lower_label) {
        slice_chars(&line, lower_label.len(), line.len())
    } else if chars_starts_with(&line, &upper_label) {
        slice_chars(&line, upper_label.len(), line.len())
    } else {
        slice_chars(&line, 0, line.len())
    };
    assert(unlabeled@ =~= (match strip_prefix(line@, "stream:"@) {
        Some(rest) => rest,
        None => match strip_prefix(line@, "STREAM:"@) {
            Some(rest) => rest,
            None => line@,
        },
    }));
    let body = clean_reply(&unlabeled);
    if chars_eq_ignore_case(&body, &chars_of("OK")) {
        return ClamdResponse::StreamOk;
    }
    let upper = to_ascii_upper(&body);
    if chars_ends_with(&upper, &chars_of("FOUND")) {
        return ClamdResponse::Found;
    }
    if chars_contains(&upper, &chars_of("ERROR")) {
        return ClamdResponse::Error;
    }
    ClamdResponse::Unknown
}

/// Largest data chunk of one INSTREAM frame.
pub const INSTREAM_CHUNK: usize = 2048;

/// Big-endian 4-byte length prefix.
pub open spec fn be32(n: nat) -> Seq<u8> {
    seq![
        ((n / 0x1000000) % 256) as u8,
        ((n / 0x10000) % 256) as u8,
        ((n / 0x100) % 256) as u8,
        (n % 256) as u8,
    ]
}

/// INSTREAM data frames for `bytes[off..]`: chunks of at most 2048 bytes, each
/// after its big-endian length.
pub open spec fn chunk_frames(bytes: Seq<u8>, off: nat) -> Seq<u8>
    decreases bytes.len() - off,
{
    if off >= bytes.len() {
        seq![]
    } else {
        let end: nat = if off + 2048 < bytes.len() {
            (off + 2048) as nat
        } else {
            bytes.len()
        };
        be32((end - off) as nat) + bytes.subrange(off as int, end as int) + chunk_frames(bytes, end)
    }
}

/// The null-terminated `zINSTREAM` command.
pub open spec fn instream_command() -> Seq<u8> {
    seq![0x7au8, 0x49u8, 0x4eu8, 0x53u8, 0x54u8, 0x52u8, 0x45u8, 0x41u8, 0x4du8, 0x00u8]
}

/// Everything a client writes to scan `bytes`: command, data frames, zero-length end.
pub open spec fn instream_request_spec(bytes: Seq<u8>) -> Seq<u8> {
    instream_command() + chunk_frames(bytes, 0) + be32(0)
}

/// Append the big-endian bytes of `n` to `out`.
fn push_be32(out: &mut Vec<u8>, n: u32)
    ensures
        final(out)@ == old(out)@ + be32(n as nat),
{
    out.push(((n / 0x1000000) % 256) as u8);
    out.push(((n / 0x10000) % 256) as u8);
    out.push(((n / 0x100) % 256) as u8);
    out.push((n % 256) as u8);
    assert(out@ =~= old(out)@ + be32(n as nat));
}

/// The bytes a client writes to `clamd` to scan `bytes`.
pub fn instream_request(bytes: &[u8]) -> (r: Vec<u8>)
    ensures
        r@ == instream_request_spec(bytes@),
{
    let mut out: Vec<u8> = Vec::new();
    out.push(0x7a);
    out.push(0x49);
    out.push(0x4e);
    out.push(0x53);
    out.push(0x54);
    out.push(0x52);
    out.push(0x45);
    out.push(0x41);
    out.push(0x4d);
    out.push(0x00);
    assert(out@ =~= instream_command());
    let n = bytes.len();
    let mut offset: usize = 0;
    while offset < n
        invariant
            n == bytes@.len(),
            offset <= n,
            out@ + chunk_frames(bytes@, offset as nat) == instream_command() + chunk_frames(
                bytes@,
                0,
            ),
        decreases n - offset,
    {
        let end = if n - offset > INSTREAM_CHUNK {
            offset + INSTREAM_CHUNK
        } else {
            n
        };
        let ghost before = out@;
        push_be32(&mut out, (end - offset) as u32);
        let mut i: usize = offset;
        while i < end
            invariant
                offset <= i <= end <= n,
                n == bytes@.len(),
                out@ == before + be32((end - offset) as nat) + bytes@.subrange(offset as int, i as int),
            decreases end - i,
        {
            out.push(bytes[i]);
            i = i + 1;
        }
        assert(before + chunk_frames(bytes@, offset as nat) =~= out@ + chunk_frames(
            bytes@,
            end as nat,
        ));
        offset = end;
    }
    let ghost before = out@;
    push_be32(&mut out, 0);
    assert(out@ =~= instream_command() + chunk_frames(bytes@, 0) + be32(0));
    out
}

/// The writes of the data frames for `bytes[off..]`, each with the reason class a
/// failure of it reports: the length, then the chunk.
pub open spec fn chunk_writes(bytes: Seq<u8>, off: nat) -> Seq<(Seq<char>, Seq<u8>)>
    decreases bytes.len() - off,
{
    if off >= bytes.len() {
        seq![]
    } else {
        let end: nat = if off + 2048 < bytes.len() {
            (off + 2048) as nat
        } else {
            bytes.len()
        };
        seq![("write_len"@, be32((end - off) as nat)), ("write_data"@, bytes.subrange(off as int, end as int))]
            + chunk_writes(bytes, end)
    }
}

/// The writes a client makes to scan `bytes`, in order, each with the reason class a
/// failure of it reports: the command, the data frames, the zero-length end.
pub open spec fn instream_writes_spec(bytes: Seq<u8>) -> Seq<(Seq<char>, Seq<u8>)> {
    seq![("write_cmd"@, instream_command())] + chunk_writes(bytes, 0) + seq![("write_eof"@, be32(0))]
}

/// The bytes of a list of writes, one after another.
pub open spec fn written_bytes(w: Seq<(Seq<char>, Seq<u8>)>) -> Seq<u8>
    decreases w.len(),
{
    if w.len() == 0 {
        seq![]
    } else {
        w[0].1 + written_bytes(w.drop_first())
    }
}

proof fn lemma_written_bytes_append(a: Seq<(Seq<char>, Seq<u8>)>, b: Seq<(Seq<char>, Seq<u8>)>)
    ensures
        written_bytes(a + b) == written_bytes(a) + written_bytes(b),
    decreases a.len(),
{
    if a.len() == 0 {
        assert(a + b =~= b);
        assert(seq![] + written_bytes(b) =~= written_bytes(b));
    } else {
        assert((a + b).drop_first() =~= a.drop_first() + b);
        lemma_written_bytes_append(a.drop_first(), b);
        assert(a[0].1 + (written_bytes(a.drop_first()) + written_bytes(b)) =~= (a[0].1
            + written_bytes(a.drop_first())) + written_bytes(b));
    }
}

proof fn lemma_written_single(p: (Seq<char>, Seq<u8>))
    ensures
        written_bytes(seq![p]) == p.1,
{
    assert(seq![p].drop_first() =~= Seq::<(Seq<char>, Seq<u8>)>::empty());
    assert(written_bytes(Seq::<(Seq<char>, Seq<u8>)>::empty()) == Seq::<u8>::empty());
    assert(p.1 + Seq::<u8>::empty() =~= p.1);
}

proof fn lemma_chunk_writes_bytes(bytes: Seq<u8>, off: nat)
    ensures
        written_bytes(chunk_writes(bytes, off)) == chunk_frames(bytes, off),
    decreases bytes.len() - off,
{
    if off < bytes.len() {
        let end: nat = if off + 2048 < bytes.len() {
            (off + 2048) as nat
        } else {
            bytes.len()
        };
        let head = seq![("write_len"@, be32((end - off) as nat)), ("write_data"@, bytes.subrange(off as int, end as int))];
        lemma_chunk_writes_bytes(bytes, end);
        lemma_written_bytes_append(head, chunk_writes(bytes, end));
        assert(head.drop_first() =~= seq![("write_data"@, bytes.subrange(off as int, end as int))]);
        lemma_written_single(("write_data"@, bytes.subrange(off as int, end as int)));
        assert(written_bytes(head) =~= be32((end - off) as nat) + bytes.subrange(off as int, end as int));
        assert(written_bytes(chunk_writes(bytes, off)) =~= chunk_frames(bytes, off));
    } else {
        assert(written_bytes(chunk_writes(bytes, off)) =~= chunk_frames(bytes, off));
    }
}

/// Law: the writes, one after another, are exactly the INSTREAM request.
pub proof fn lemma_writes_make_request(bytes: Seq<u8>)
    ensures
        written_bytes(instream_writes_spec(bytes)) == instream_request_spec(bytes),
{
    let first = seq![("write_cmd"@, instream_command())];
    let last = seq![("write_eof"@, be32(0))];
    lemma_written_bytes_append(first + chunk_writes(bytes, 0), last);
    lemma_written_bytes_append(first, chunk_writes(bytes, 0));
    lemma_chunk_writes_bytes(bytes, 0);
    lemma_written_single(("write_cmd"@, instream_command()));
    lemma_written_single(("write_eof"@, be32(0)));
}

/// The class and bytes of each write.
pub open spec fn writes_view(w: Seq<(&'static str, Vec<u8>)>) -> Seq<(Seq<char>, Seq<u8>)> {
    Seq::new(w.len(), |i: int| (w[i].0@, w[i].1@))
}

/// The big-endian bytes of `n`.
fn be32_bytes(n: u32) -> (r: Vec<u8>)
    ensures
        r@ == be32(n as nat),
{
    let mut out: Vec<u8> = Vec::new();
    push_be32(&mut out, n);
    assert(out@ =~= be32(n as nat));
    out
}

/// The writes a client makes to `clamd` to scan `bytes`, each with the reason class
/// that a failure of that write reports.
pub fn instream_writes(bytes: &[u8]) -> (r: Vec<(&'static str, Vec<u8>)>)
    ensures
        writes_view(r@) == instream_writes_spec(bytes@),
{
    let mut out: Vec<(&'static str, Vec<u8>)> = Vec::new();
    let cmd: Vec<u8> = vec![0x7a, 0x49, 0x4e, 0x53, 0x54, 0x52, 0x45, 0x41, 0x4d, 0x00];
    assert(cmd@ =~= instream_command());
    out.push(("write_cmd", cmd));
    assert(writes_view(out@) =~= seq![("write_cmd"@, instream_command())]);
    let n = bytes.len();
    let mut offset: usize = 0;
    while offset < n
        invariant
            n == bytes@.len(),
            offset <= n,
            writes_view(out@) + chunk_writes(bytes@, offset as nat) == seq![
                ("write_cmd"@, instream_command()),
            ] + chunk_writes(bytes@, 0),
        decreases n - offset,
    {
        let end = if n - offset > INSTREAM_CHUNK {
            offset + INSTREAM_CHUNK
        } else {
            n
        };
        let ghost before = writes_view(out@);
        let len = be32_bytes((end - offset) as u32);
        let data = vstd::slice::slice_to_vec(vstd::slice::slice_subrange(bytes, offset, end));
        out.push(("write_len", len));
        out.push(("write_data", data));
        assert(writes_view(out@) =~= before + seq![
            ("write_len"@, be32((end - offset) as nat)),
            ("write_data"@, bytes@.subrange(offset as int, end as int)),
        ]);
        assert(before + chunk_writes(bytes@, offset as nat) =~= writes_view(out@) + chunk_writes(
            bytes@,
            end as nat,
        ));
        offset = end;
    }
    let ghost before = writes_view(out@);
    out.push(("write_eof", be32_bytes(0)));
    assert(writes_view(out@) =~= before + seq![("write_eof"@, be32(0))]);
    out
}

/// The reply is complete once it holds a NUL or a newline, or passes 4096 bytes.
pub open spec fn reply_complete_spec(buf: Seq<u8>) -> bool {
    buf.contains(0u8) || buf.contains(10u8) || buf.len() > 4096
}

/// Whether the reply read so far is complete.
pub fn reply_complete(buf: &[u8]) -> (r: bool)
    ensures
        r == reply_complete_spec(buf@),
{
    if buf.len() > 4096 {
        return true;
    }
    let mut i: usize = 0;
    while i < buf.len()
        invariant
            i <= buf@.len(),
            forall|k: int| 0 <= k < i ==> buf@[k] != 0u8 && buf@[k] != 10u8,
        decreases buf@.len() - i,
    {
        if buf[i] == 0 || buf[i] == 10 {
            assert(buf@[i as int] == buf[i as int]);
            return true;
        }
        i = i + 1;
    }
    false
}

/// `String::from_utf8_lossy` of the reply bytes.
pub uninterp spec fn utf8_lossy(bytes: Seq<u8>) -> Seq<char>;

/// `String::from_utf8_lossy(bytes).into_owned()`: valid UTF-8 decodes as itself;
/// invalid sequences become U+FFFD (not stated further).
#[verifier::external_body]
fn reply_text(bytes: &[u8]) -> (r: String)
    ensures
        r@ == utf8_lossy(bytes@),
        valid_utf8(bytes@) ==> r@ == decode_utf8(bytes@),
{
    String::from_utf8_lossy(bytes).into_owned()
}

/// The verdict a reply line gives.
pub open spec fn verdict_spec(raw: Seq<char>) -> Result<ScanVerdict, ScanError> {
    match parse_clamd_spec(raw) {
        ClamdResponse::StreamOk => Ok(ScanVerdict::Clean),
        ClamdResponse::Found => Ok(ScanVerdict::Infected { reason_class: Some("clamav") }),
        ClamdResponse::Error => Err(
            ScanError::Scanner { reason_class: Some("clamd_error"), source: None },
        ),
        ClamdResponse::Unknown => Err(
            ScanError::Scanner { reason_class: Some("clamd_unknown"), source: None },
        ),
    }
}

/// Law: a verdict never carries text from the reply. Whatever `clamd` answers, a
/// verdict's display text is `clean` or `infected:clamav`, so signature names never
/// reach it.
pub proof fn lemma_verdict_hides_signature(raw: Seq<char>)
    ensures
        verdict_spec(raw) matches Ok(v) ==> verdict_text(v) == "clean"@ || verdict_text(v)
            == "infected:clamav"@,
{
    reveal_strlit("infected:");
    reveal_strlit("clamav");
    reveal_strlit("infected:clamav");
    assert("infected:"@ + "clamav"@ =~= "infected:clamav"@);
}

/// The verdict for a decoded reply line.
pub fn verdict_from_response(raw: &str) -> (r: Result<ScanVerdict, ScanError>)
    ensures
        r == verdict_spec(raw@),
{
    match parse_clamd_response(raw) {
        ClamdResponse::StreamOk => Ok(ScanVerdict::Clean),
        ClamdResponse::Found => Ok(ScanVerdict::Infected { reason_class: Some("clamav") }),
        ClamdResponse::Error => Err(ScanError::scanner_msg("clamd_error")),
        ClamdResponse::Unknown => Err(ScanError::scanner_msg("clamd_unknown")),
    }
}

/// The verdict for the raw reply bytes.
pub fn reply_verdict(buf: &[u8]) -> (r: Result<ScanVerdict, ScanError>)
    ensures
        r == verdict_spec(utf8_lossy(buf@)),
{
    let text = reply_text(buf);
    verdict_from_response(text.as_str())
}

} // verus!
