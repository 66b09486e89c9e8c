use sha2::Digest;
use solar_telemetry::auth::{build_frame, derive_session_password, Handshake, Wattpilot};

fn sha256_hex(s: &str) -> String {
    let mut h = sha2::Sha256::new();
    h.update(s.as_bytes());
    format!("{:x}", h.finalize())
}

#[test]
fn session_password_is_deterministic_and_32_chars() {
    let a = derive_session_password("hunter2", "123456");
    let b = derive_session_password("hunter2", "123456");
    assert_eq!(a, b);
    assert_eq!(a.len(), 32);
    assert_ne!(a, "hunter2");
}

#[test]
fn different_serials_give_different_passwords() {
    let a = derive_session_password("hunter2", "123456");
    let b = derive_session_password("hunter2", "654321");
    assert_ne!(a, b);
}

#[test]
fn hello_frame_moves_to_token_wait() {
    let mut wp = Wattpilot::new();
    let (hs, out) = wp.handshake_step(
        Handshake::ExpectHello,
        "{\"type\":\"hello\",\"serial\":\"123456\",\"secured\":true}",
        "pw",
    );
    assert!(out.is_none());
    assert!(wp.secured);
    match hs {
        Handshake::ExpectTokens { serial, secured } => {
            assert_eq!(serial, "123456");
            assert!(secured);
        },
        _ => panic!("expected token wait"),
    }
}

#[test]
fn malformed_hello_fails_handshake() {
    let mut wp = Wattpilot::new();
    let (hs, out) = wp.handshake_step(Handshake::ExpectHello, "{\"serial\":7}", "pw");
    assert!(out.is_none());
    assert!(matches!(hs, Handshake::Failed));
}

#[test]
fn token_frame_produces_correct_auth_response() {
    let mut wp = Wattpilot::new();
    let hs = Handshake::ExpectTokens { serial: "123456".to_owned(), secured: false };
    let (hs, out) = wp.handshake_step(
        hs,
        "{\"token1\":\"tok-one\",\"token2\":\"tok-two\"}",
        "hunter2",
    );
    assert!(matches!(hs, Handshake::ExpectOutcome));
    // the session password was derived and cached
    let expected_pw = derive_session_password("hunter2", "123456");
    assert_eq!(wp.hashed_pw, expected_pw);
    // the outbound frame carries a fresh 32-hex token3 and the chained digest
    let frame = out.unwrap();
    let v: serde_json::Value = serde_json::from_str(&frame).unwrap();
    assert_eq!(v.get("type").unwrap().as_str().unwrap(), "auth");
    let token3 = v.get("token3").unwrap().as_str().unwrap().to_owned();
    assert_eq!(token3.len(), 32);
    assert!(token3.chars().all(|c| c.is_ascii_hexdigit() && !c.is_ascii_uppercase()));
    // token3 is drawn from the upper half of the 128-bit range
    let first = u32::from_str_radix(&token3[..1], 16).unwrap();
    assert!(first >= 8);
    let hash = v.get("hash").unwrap().as_str().unwrap().to_owned();
    let hash1 = sha256_hex(&format!("{}{}", "tok-one", expected_pw));
    let expected = sha256_hex(&format!("{}{}{}", token3, "tok-two", hash1));
    assert_eq!(hash, expected);
}

#[test]
fn cached_password_is_reused_on_reconnect() {
    let mut wp = Wattpilot::new();
    let hs = Handshake::ExpectTokens { serial: "123456".to_owned(), secured: false };
    let _ = wp.handshake_step(hs, "{\"token1\":\"a\",\"token2\":\"b\"}", "hunter2");
    let cached = wp.hashed_pw.clone();
    // a second exchange under a different serial must keep the cached value
    let hs = Handshake::ExpectTokens { serial: "999999".to_owned(), secured: false };
    let _ = wp.handshake_step(hs, "{\"token1\":\"c\",\"token2\":\"d\"}", "hunter2");
    assert_eq!(wp.hashed_pw, cached);
}

#[test]
fn malformed_token_frame_fails_handshake() {
    let mut wp = Wattpilot::new();
    let hs = Handshake::ExpectTokens { serial: "1".to_owned(), secured: false };
    let (hs, out) = wp.handshake_step(hs, "{\"token1\":\"only-one\"}", "pw");
    assert!(matches!(hs, Handshake::Failed));
    assert!(out.is_none());
    assert!(!wp.authenticated);
}

#[test]
fn auth_success_authenticates() {
    let mut wp = Wattpilot::new();
    let (hs, _) = wp.handshake_step(Handshake::ExpectOutcome, "{\"type\":\"authSuccess\"}", "pw");
    assert!(matches!(hs, Handshake::Succeeded));
    assert!(wp.authenticated);
}

#[test]
fn auth_error_fails_and_unauthenticates() {
    let mut wp = Wattpilot::new();
    wp.authenticated = true;
    let (hs, _) = wp.handshake_step(
        Handshake::ExpectOutcome,
        "{\"type\":\"authError\",\"message\":\"wrong password\"}",
        "pw",
    );
    assert!(matches!(hs, Handshake::Failed));
    assert!(!wp.authenticated);
}

#[test]
fn unexpected_outcome_type_fails_handshake() {
    let mut wp = Wattpilot::new();
    wp.authenticated = true;
    let (hs, _) = wp.handshake_step(Handshake::ExpectOutcome, "{\"type\":\"deltaStatus\"}", "pw");
    assert!(matches!(hs, Handshake::Failed));
    assert!(!wp.authenticated);
}

#[test]
fn plain_frame_passes_payload_through() {
    let r = build_frame(false, "{\"type\":\"auth\"}".to_owned(), "id1");
    assert_eq!(r, "{\"type\":\"auth\"}");
}

#[test]
fn secured_frame_wraps_and_escapes_payload() {
    let r = build_frame(true, "say \"hi\"\n".to_owned(), "id1");
    assert_eq!(
        r,
        "{\"data\":\"say \\\"hi\\\"\\n\",\"hmac\":\"\",\"requestId\":\"id1sm\",\"type\":\"securedMsg\"}",
    );
    // the wrapper parses back to the original payload: the escaping matches
    // the JSON codec's own
    let v: serde_json::Value = serde_json::from_str(&r).unwrap();
    assert_eq!(v.get("data").unwrap().as_str().unwrap(), "say \"hi\"\n");
    assert_eq!(v.get("hmac").unwrap().as_str().unwrap(), "");
}
