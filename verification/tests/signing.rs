use meson::sigv4::{
    authorization_header, credential_scope_text, sign_s3_request, sign_s3_request_at, split_url,
    string_to_sign_text,
};

#[test]
fn sign_s3_request_stable_shape() {
    let (auth, amz, hash) = sign_s3_request(
        "PUT",
        "http://127.0.0.1:9000/bucket/key",
        b"hello",
        "mesonlabaccess",
        "mesonlabsecret",
        "us-east-1",
        &[("content-type", "application/octet-stream")],
    )
    .expect("clock");
    assert!(auth.starts_with("AWS4-HMAC-SHA256 Credential=mesonlabaccess/"));
    assert!(auth.contains("SignedHeaders="));
    assert!(auth.contains("Signature="));
    assert_eq!(amz.len(), 16);
    assert_eq!(hash.len(), 64);
}

#[test]
fn split_url_parts() {
    let (h, p, q) = split_url("https://host:9000/bucket/key?x=1&y=2");
    assert_eq!((h.as_str(), p.as_str(), q.as_str()), ("host:9000", "/bucket/key", "x=1&y=2"));
    let (h, p, q) = split_url("http://host");
    assert_eq!((h.as_str(), p.as_str(), q.as_str()), ("host", "/", ""));
    let (h, p, q) = split_url("host/a?b");
    assert_eq!((h.as_str(), p.as_str(), q.as_str()), ("host", "/a", "b"));
}

#[test]
fn payload_hash_is_sha256_hex() {
    let (_, amz, hash) = sign_s3_request_at(
        "GET",
        "http://127.0.0.1:9000/bucket/key",
        b"",
        "k",
        "s",
        "us-east-1",
        &[],
        "20240101T000000Z",
        "20240101",
    );
    assert_eq!(amz, "20240101T000000Z");
    assert_eq!(hash, "e3b0c44298fc1c149afbf4c8996fb92427ae41e4649b934ca495991b7852b855");
}

// The example from the AWS Signature Version 4 documentation for S3
// ("GET Object" with a Range header).
#[test]
fn matches_published_sigv4_example() {
    let (auth, _, hash) = sign_s3_request_at(
        "GET",
        "https://examplebucket.s3.amazonaws.com/test.txt",
        b"",
        "SECRET-REDACTED",
        "wJalrXUtnFEMI/K7MDENG/bPxRfiCYEXAMPLEKEY",
        "us-east-1",
        &[("Range", "bytes=0-9")],
        "20130524T000000Z",
        "20130524",
    );
    assert_eq!(hash, "e3b0c44298fc1c149afbf4c8996fb92427ae41e4649b934ca495991b7852b855");
    assert_eq!(
        auth,
        "AWS4-HMAC-SHA256 Credential=SECRET-REDACTED/20130524/us-east-1/s3/aws4_request, SignedHeaders=host;range;x-amz-content-sha256;x-amz-date, Signature=f0e8bdb87c964420e857bd35b5d6ed310bd44f0170aba48dd91039c6036bdb41"
    );
}

#[test]
fn signature_depends_on_secret_and_body() {
    let sign = |secret: &str, body: &[u8]| {
        sign_s3_request_at(
            "PUT",
            "http://h/b/k",
            body,
            "k",
            secret,
            "us-east-1",
            &[],
            "20240101T000000Z",
            "20240101",
        )
    };
    let a = sign("s1", b"x");
    let b = sign("s2", b"x");
    let c = sign("s1", b"y");
    assert_ne!(a.0, b.0);
    assert_ne!(a.0, c.0);
    assert_ne!(a.2, c.2);
    assert_eq!(a.2, b.2);
}

#[test]
fn signing_pieces() {
    let scope = credential_scope_text("20130524", "us-east-1");
    assert_eq!(scope, "20130524/us-east-1/s3/aws4_request");
    assert_eq!(
        string_to_sign_text("20130524T000000Z", &scope, "abc123"),
        "AWS4-HMAC-SHA256\n20130524T000000Z\n20130524/us-east-1/s3/aws4_request\nabc123"
    );
    assert_eq!(
        authorization_header("AKID", &scope, "host;x-amz-date", "f00d"),
        "AWS4-HMAC-SHA256 Credential=AKID/20130524/us-east-1/s3/aws4_request, \
         SignedHeaders=host;x-amz-date, Signature=f00d"
    );
}

#[test]
fn current_amz_date_shape() {
    let (_, amz, _) = sign_s3_request("GET", "http://h/b/k", b"", "a", "s", "r", &[]).expect("clock");
    assert_eq!(amz.len(), 16);
    assert_eq!(amz.as_bytes()[8], b'T');
    assert_eq!(amz.as_bytes()[15], b'Z');
    assert!(amz.chars().enumerate().all(|(i, c)| i == 8 || i == 15 || c.is_ascii_digit()));
}
