//! The charger authentication handshake.
//!
//! One logical connection authenticates once: the device sends a hello
//! frame (serial, secured flag) and a challenge frame (token1, token2); the
//! client derives a session password from its configured password and the
//! device serial, answers with a fresh random token and a chained SHA-256
//! response, and the device accepts or rejects.  The hashing and the frame
//! construction are verified against named digest functions; only the
//! digest computations themselves and the random draw are trusted.

use vstd::prelude::*;
use vstd::string::StringExecFns;

use base64::Engine;
use sha2::Digest;

use crate::jsonio::{auth_tokens_of, frame_type_of, hello_of, parse_auth_tokens,
    parse_frame_type, parse_hello};
use crate::text::{chars_eq_str, chars_to_string, hex32, json_escape_into, json_escaped,
    str_chars, u128_hex32_chars};

verus! {

/// Delay before a failed connection or handshake is retried, in
/// milliseconds.  The client retries forever.
pub const RECONNECT_DELAY_MS: u64 = 3_000;

// ---------------------------------------------------------------------------
// Trusted digests and randomness
// ---------------------------------------------------------------------------

/// The base64 text of the 32-byte PBKDF2-HMAC-SHA512 key derived from a
/// password and a device serial at 100,000 rounds.  A function of the two
/// inputs alone.
pub uninterp spec fn pbkdf2_b64_of(password: Seq<char>, serial: Seq<char>) -> Seq<char>;

/// The lowercase-hex SHA-256 digest of a text's UTF-8 bytes.  A function of
/// the text alone.
pub uninterp spec fn sha256_hex_of(s: Seq<char>) -> Seq<char>;

/// Relies on `pbkdf2::pbkdf2_hmac_array` with SHA-512, 100,000 rounds and a
/// 32-byte key, and on `base64::prelude::BASE64_STANDARD.encode`: the
/// result depends on the password and serial alone, and 32 bytes always
/// encode to 44 base64 characters.
#[verifier::external_body]
fn derive_pbkdf2_b64(password: &str, serial: &str) -> (r: String)
    ensures
        r@ == pbkdf2_b64_of(password@, serial@),
        r@.len() == 44,
{
    let bytes = pbkdf2::pbkdf2_hmac_array::<sha2::Sha512, 32>(
        password.as_bytes(),
        serial.as_bytes(),
        100_000,
    );
    base64::prelude::BASE64_STANDARD.encode(bytes)
}

/// Relies on `sha2::Sha256` (`new`, `update`, `finalize`) and its lowercase
/// hex rendering: the digest depends on the input text alone and is 64 hex
/// characters.
#[verifier::external_body]
fn sha256_hex(s: &str) -> (r: String)
    ensures
        r@ == sha256_hex_of(s@),
        r@.len() == 64,
{
    let mut hasher = sha2::Sha256::new();
    hasher.update(s.as_bytes());
    format!("{:x}", hasher.finalize())
}

/// Relies on `rand::thread_rng` and `Rng::gen_range` over a non-empty
/// range: a value from the upper half of the 128-bit range.  Nothing else
/// is assumed of the draw.
#[verifier::external_body]
fn random_upper_u128() -> (r: u128)
    ensures
        u128::MAX / 2 <= r < u128::MAX,
{
    rand::Rng::gen_range(&mut rand::thread_rng(), u128::MAX / 2..u128::MAX)
}

// ---------------------------------------------------------------------------
// Session password
// ---------------------------------------------------------------------------

/// The session password: the first 32 characters of the base64 text of the
/// derived key.  A pure function of password and serial.
pub open spec fn session_password_of(password: Seq<char>, serial: Seq<char>) -> Seq<char> {
    pbkdf2_b64_of(password, serial).take(32)
}

/// Derives the 32-character session password for a device.
pub fn derive_session_password(password: &str, serial: &str) -> (r: String)
    ensures
        r@ == session_password_of(password@, serial@),
        r@.len() == 32,
{
    let full = derive_pbkdf2_b64(password, serial);
    let mut fc = str_chars(full.as_str());
    fc.truncate(32);
    assert(fc@ =~= full@.take(32));
    chars_to_string(&fc)
}

/// The session password is a pure function of its two inputs: equal
/// passwords and serials always give the equal output.
pub proof fn lemma_session_password_pure(
    p1: Seq<char>,
    s1: Seq<char>,
    p2: Seq<char>,
    s2: Seq<char>,
)
    requires
        p1 == p2,
        s1 == s2,
    ensures
        session_password_of(p1, s1) == session_password_of(p2, s2),
{
}

// ---------------------------------------------------------------------------
// The challenge response
// ---------------------------------------------------------------------------

/// The chained response digest: SHA-256 over token3, token2 and the hex
/// digest of SHA-256 over token1 and the session password.
pub open spec fn auth_hash_of(
    token1: Seq<char>,
    token2: Seq<char>,
    token3: Seq<char>,
    hashed_pw: Seq<char>,
) -> Seq<char> {
    sha256_hex_of(token3 + token2 + sha256_hex_of(token1 + hashed_pw))
}

/// The outbound auth frame, with its keys in the serializer's sorted
/// order.
pub open spec fn auth_frame_of(token3: Seq<char>, hash: Seq<char>) -> Seq<char> {
    "{\"hash\":\""@ + json_escaped(hash) + "\",\"token3\":\""@ + json_escaped(token3)
        + "\",\"type\":\"auth\"}"@
}

/// Builds the outbound auth frame text.
pub fn build_auth_frame(token3: &Vec<char>, hash: &str) -> (r: String)
    ensures
        r@ == auth_frame_of(token3@, hash@),
{
    let mut out = str_chars("{\"hash\":\"");
    let hc = str_chars(hash);
    json_escape_into(&hc, &mut out);
    let mut mid = str_chars("\",\"token3\":\"");
    out.append(&mut mid);
    json_escape_into(token3, &mut out);
    let mut tail = str_chars("\",\"type\":\"auth\"}");
    out.append(&mut tail);
    assert(out@ =~= auth_frame_of(token3@, hash@));
    chars_to_string(&out)
}

// ---------------------------------------------------------------------------
// Outbound frames
// ---------------------------------------------------------------------------

/// The secured-wrapper frame.  Reserved extension point: the integrity tag
/// is an empty placeholder, not real authentication, and no outbound
/// command relies on it today.
pub open spec fn secured_frame_of(payload: Seq<char>, message_id: Seq<char>) -> Seq<char> {
    "{\"data\":\""@ + json_escaped(payload) + "\",\"hmac\":\"\",\"requestId\":\""@
        + json_escaped(message_id + "sm"@) + "\",\"type\":\"securedMsg\"}"@
}

/// Builds an outbound frame: the payload itself, or — for the reserved
/// secured variant — the wrapper frame with a placeholder integrity tag.
pub fn build_frame(secure: bool, payload: String, message_id: &str) -> (r: String)
    ensures
        r@ == if secure {
            secured_frame_of(payload@, message_id@)
        } else {
            payload@
        },
{
    if !secure {
        return payload;
    }
    let mut out = str_chars("{\"data\":\"");
    let pc = str_chars(payload.as_str());
    json_escape_into(&pc, &mut out);
    let mut mid = str_chars("\",\"hmac\":\"\",\"requestId\":\"");
    out.append(&mut mid);
    let mut id = str_chars(message_id);
    let mut sm = str_chars("sm");
    id.append(&mut sm);
    json_escape_into(&id, &mut out);
    let mut tail = str_chars("\",\"type\":\"securedMsg\"}");
    out.append(&mut tail);
    assert(out@ =~= secured_frame_of(payload@, message_id@));
    chars_to_string(&out)
}

// ---------------------------------------------------------------------------
// The handshake state machine
// ---------------------------------------------------------------------------

/// Where the handshake stands.  The connection loop feeds inbound frames
/// through [`Wattpilot::handshake_step`] until it reaches `Succeeded` or
/// `Failed`.
pub enum Handshake {
    /// Waiting for the device hello frame.
    ExpectHello,
    /// Waiting for the challenge-token frame.
    ExpectTokens { serial: String, secured: bool },
    /// The response was sent; waiting for the device verdict.
    ExpectOutcome,
    /// The device accepted the response.
    Succeeded,
    /// The device rejected the response, or a frame was malformed.
    Failed,
}

/// Per-connection client state.  The derived session password is cached for
/// the client's lifetime and reused across reconnects.
pub struct Wattpilot {
    /// The secured flag of the last hello frame.
    pub secured: bool,
    /// Cached session password; empty until first derived.
    pub hashed_pw: String,
    /// Whether the current connection is authenticated.  The scheduler
    /// consults this before trusting charger data.
    pub authenticated: bool,
}

/// The session password after a token exchange: derived once, then reused.
pub open spec fn cached_or_derived(
    cached: Seq<char>,
    password: Seq<char>,
    serial: Seq<char>,
) -> Seq<char> {
    if cached.len() == 0 {
        session_password_of(password, serial)
    } else {
        cached
    }
}

impl Wattpilot {
    /// A fresh, unauthenticated client with no cached session password.
    pub fn new() -> (r: Wattpilot)
        ensures
            r.secured == false,
            r.hashed_pw@ == Seq::<char>::empty(),
            r.authenticated == false,
    {
        Wattpilot { secured: false, hashed_pw: String::new(), authenticated: false }
    }

    /// One step of the handshake: consumes one inbound frame and says what
    /// to send, if anything.
    ///
    /// A hello frame moves to the token wait; a token frame derives the
    /// session password (unless cached), draws a fresh random token and
    /// answers with the chained digest; the outcome frame succeeds only on
    /// `authSuccess` — an `authError`, any other type, or any malformed
    /// frame fails the handshake and leaves the client unauthenticated.
    pub fn handshake_step(&mut self, hs: Handshake, frame: &str, password: &str) -> (r: (
        Handshake,
        Option<String>,
    ))
        ensures
            match hs {
                Handshake::ExpectHello => {
                    &&& final(self).hashed_pw == old(self).hashed_pw
                    &&& final(self).authenticated == old(self).authenticated
                    &&& r.1 is None
                    &&& match hello_of(frame@) {
                        Some(h) => {
                            &&& r.0 matches Handshake::ExpectTokens { serial, secured }
                                && serial@ == h.0 && secured == h.1
                            &&& final(self).secured == h.1
                        },
                        None => r.0 is Failed && final(self).secured == old(self).secured,
                    }
                },
                Handshake::ExpectTokens { serial, secured } => {
                    &&& final(self).secured == old(self).secured
                    &&& match auth_tokens_of(frame@) {
                        Some(t) => {
                            &&& final(self).hashed_pw@ == cached_or_derived(
                                old(self).hashed_pw@,
                                password@,
                                serial@,
                            )
                            &&& final(self).authenticated == old(self).authenticated
                            &&& r.0 is ExpectOutcome
                            &&& exists|seed: u128|
                                #![trigger hex32(seed)]
                                u128::MAX / 2 <= seed < u128::MAX && (r.1 matches Some(f)
                                    && f@ == auth_frame_of(
                                    hex32(seed),
                                    auth_hash_of(t.0, t.1, hex32(seed), final(self).hashed_pw@),
                                ))
                        },
                        None => {
                            &&& r.0 is Failed
                            &&& r.1 is None
                            &&& final(self).authenticated == false
                            &&& final(self).hashed_pw == old(self).hashed_pw
                        },
                    }
                },
                Handshake::ExpectOutcome => {
                    &&& final(self).hashed_pw == old(self).hashed_pw
                    &&& final(self).secured == old(self).secured
                    &&& r.1 is None
                    &&& if frame_type_of(frame@) == Some("authSuccess"@) {
                        r.0 is Succeeded && final(self).authenticated == true
                    } else {
                        r.0 is Failed && final(self).authenticated == false
                    }
                },
                Handshake::Succeeded => r.0 is Succeeded && r.1 is None && *final(self) == *old(
                    self,
                ),
                Handshake::Failed => r.0 is Failed && r.1 is None && *final(self) == *old(self),
            },
    {
        match hs {
            Handshake::ExpectHello => {
                match parse_hello(frame) {
                    Some(h) => {
                        self.secured = h.1;
                        (Handshake::ExpectTokens { serial: h.0, secured: h.1 }, None)
                    },
                    None => (Handshake::Failed, None),
                }
            },
            Handshake::ExpectTokens { serial, secured: _ } => {
                match parse_auth_tokens(frame) {
                    Some(t) => {
                        if self.hashed_pw.as_str().is_empty() {
                            self.hashed_pw = derive_session_password(password, serial.as_str());
                        }
                        let seed = random_upper_u128();
                        let t3 = u128_hex32_chars(seed);
                        let mut m1 = t.0;
                        m1.append(self.hashed_pw.as_str());
                        let h1 = sha256_hex(m1.as_str());
                        let mut m2 = chars_to_string(&t3);
                        m2.append(t.1.as_str());
                        m2.append(h1.as_str());
                        let h2 = sha256_hex(m2.as_str());
                        let out = build_auth_frame(&t3, h2.as_str());
                        (Handshake::ExpectOutcome, Some(out))
                    },
                    None => {
                        self.authenticated = false;
                        (Handshake::Failed, None)
                    },
                }
            },
            Handshake::ExpectOutcome => {
                let success = match parse_frame_type(frame) {
                    Some(t) => chars_eq_str(t.as_str(), "authSuccess"),
                    None => false,
                };
                if success {
                    self.authenticated = true;
                    (Handshake::Succeeded, None)
                } else {
                    self.authenticated = false;
                    (Handshake::Failed, None)
                }
            },
            Handshake::Succeeded => (Handshake::Succeeded, None),
            Handshake::Failed => (Handshake::Failed, None),
        }
    }
}

} // verus!
