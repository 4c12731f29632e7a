use meson::clamav::{
    instream_request, instream_writes, parse_clamd_response, reply_complete, reply_verdict, ClamAvConfigError,
    ClamAvScanner, ClamdEndpoint, ClamdResponse,
};
use meson::env::MesonEnv;
use meson::scan::{ScanError, ScanVerdict};

#[test]
fn parse_ok_found_error() {
    assert_eq!(parse_clamd_response("stream: OK"), ClamdResponse::StreamOk);
    assert_eq!(parse_clamd_response("stream: OK\0"), ClamdResponse::StreamOk);
    assert_eq!(
        parse_clamd_response("stream: Win.Test.EICAR FOUND"),
        ClamdResponse::Found
    );
    assert_eq!(parse_clamd_response("stream: ERROR"), ClamdResponse::Error);
    assert_eq!(parse_clamd_response("nope"), ClamdResponse::Unknown);
    let v = ScanVerdict::Infected {
        reason_class: Some("clamav"),
    };
    assert!(!v.to_display_string().contains("EICAR"));
}

#[test]
fn parse_labels_and_case() {
    assert_eq!(parse_clamd_response("STREAM: ok\n"), ClamdResponse::StreamOk);
    assert_eq!(parse_clamd_response("OK"), ClamdResponse::StreamOk);
    assert_eq!(parse_clamd_response("stream: x found"), ClamdResponse::Found);
    assert_eq!(
        parse_clamd_response("INSTREAM size limit exceeded. ERROR"),
        ClamdResponse::Error
    );
    assert_eq!(parse_clamd_response(""), ClamdResponse::Unknown);
}

#[test]
fn instream_frames_small_payload() {
    let req = instream_request(b"hello");
    let mut want = b"zINSTREAM\0".to_vec();
    want.extend_from_slice(&5u32.to_be_bytes());
    want.extend_from_slice(b"hello");
    want.extend_from_slice(&0u32.to_be_bytes());
    assert_eq!(req, want);
}

#[test]
fn instream_frames_split_at_2048() {
    let data = vec![7u8; 5000];
    let req = instream_request(&data);
    let mut want = b"zINSTREAM\0".to_vec();
    for chunk in data.chunks(2048) {
        want.extend_from_slice(&(chunk.len() as u32).to_be_bytes());
        want.extend_from_slice(chunk);
    }
    want.extend_from_slice(&0u32.to_be_bytes());
    assert_eq!(req, want);
    let empty = instream_request(b"");
    assert_eq!(empty, b"zINSTREAM\0\0\0\0\0".to_vec());
}

#[test]
fn reply_completion_rule() {
    assert!(!reply_complete(b"stream: O"));
    assert!(reply_complete(b"stream: OK\0"));
    assert!(reply_complete(b"stream: OK\n"));
    assert!(reply_complete(&vec![b'a'; 4097]));
    assert!(!reply_complete(&vec![b'a'; 4096]));
}

#[test]
fn reply_verdicts() {
    assert_eq!(reply_verdict(b"stream: OK\0").unwrap(), ScanVerdict::Clean);
    let found = reply_verdict(b"stream: Eicar-Test-Signature FOUND\0").unwrap();
    assert!(matches!(found, ScanVerdict::Infected { reason_class: Some("clamav") }));
    assert!(!found.to_display_string().contains("Eicar"));
    match reply_verdict(b"stream: ERROR\0") {
        Err(ScanError::Scanner { reason_class: Some("clamd_error"), source: None }) => {}
        other => panic!("unexpected {other:?}"),
    }
    match reply_verdict(b"garbage") {
        Err(ScanError::Scanner { reason_class: Some("clamd_unknown"), .. }) => {}
        other => panic!("unexpected {other:?}"),
    }
}

#[test]
fn clamd_endpoint_from_settings() {
    let mut env = MesonEnv::default();
    assert!(matches!(ClamAvScanner::from_env(&env), Err(ClamAvConfigError::MissingEndpoint)));
    env.clamd_host = Some("clamd.local".to_string());
    let s = ClamAvScanner::from_env(&env).unwrap();
    match s.endpoint_ref() {
        ClamdEndpoint::Tcp { host, port } => {
            assert_eq!(host, "clamd.local");
            assert_eq!(*port, 3310);
        }
        other => panic!("unexpected {other:?}"),
    }
    env.clamd_port = Some("+3311".to_string());
    match ClamAvScanner::from_env(&env).unwrap().endpoint_ref() {
        ClamdEndpoint::Tcp { port, .. } => assert_eq!(*port, 3311),
        other => panic!("unexpected {other:?}"),
    }
    env.clamd_port = Some("70000".to_string());
    assert!(matches!(ClamAvScanner::from_env(&env), Err(ClamAvConfigError::InvalidPort)));
    env.clamd_socket = Some("/run/clamd.sock".to_string());
    match ClamAvScanner::from_env(&env).unwrap().endpoint_ref() {
        ClamdEndpoint::Unix(p) => assert_eq!(p, "/run/clamd.sock"),
        other => panic!("unexpected {other:?}"),
    }
}

/// What a clamd server reads from an INSTREAM request: the null-terminated command,
/// then the payload reassembled from its length-prefixed chunks.
fn serve_instream(req: &[u8]) -> (Vec<u8>, Vec<u8>) {
    let nul = req.iter().position(|b| *b == 0).expect("command terminator");
    let command = req[..=nul].to_vec();
    let mut payload = Vec::new();
    let mut at = nul + 1;
    loop {
        let len = u32::from_be_bytes([req[at], req[at + 1], req[at + 2], req[at + 3]]) as usize;
        at += 4;
        if len == 0 {
            break;
        }
        payload.extend_from_slice(&req[at..at + len]);
        at += len;
    }
    assert_eq!(at, req.len());
    (command, payload)
}

#[test]
fn fake_socket_instream_ok() {
    let (command, payload) = serve_instream(&instream_request(b"hello"));
    assert_eq!(command, b"zINSTREAM\0");
    assert_eq!(payload, b"hello");
    let reply = b"stream: OK\0";
    assert!(reply_complete(reply));
    let verdict = reply_verdict(reply).unwrap();
    assert_eq!(verdict, ScanVerdict::Clean);
}

#[test]
fn fake_socket_instream_found() {
    let (_, payload) = serve_instream(&instream_request(b"X5O!"));
    assert_eq!(payload, b"X5O!");
    let reply = b"stream: Eicar-Test-Signature FOUND\0";
    assert!(reply_complete(reply));
    let verdict = reply_verdict(reply).unwrap();
    assert!(matches!(verdict, ScanVerdict::Infected { .. }));
    assert!(!verdict.to_display_string().contains("Eicar"));
}

#[test]
fn instream_writes_carry_reason_classes() {
    let data = vec![3u8; 2049];
    let writes = instream_writes(&data);
    let classes: Vec<&str> = writes.iter().map(|(c, _)| *c).collect();
    assert_eq!(
        classes,
        vec!["write_cmd", "write_len", "write_data", "write_len", "write_data", "write_eof"]
    );
    assert_eq!(writes[1].1, 2048u32.to_be_bytes().to_vec());
    assert_eq!(writes[3].1, 1u32.to_be_bytes().to_vec());
    let joined: Vec<u8> = writes.into_iter().flat_map(|(_, b)| b).collect();
    assert_eq!(joined, instream_request(&data));
    let empty: Vec<&str> = instream_writes(b"").iter().map(|(c, _)| *c).collect();
    assert_eq!(empty, vec!["write_cmd", "write_eof"]);
}
