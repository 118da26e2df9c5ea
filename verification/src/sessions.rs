//! Bearer sessions: random tokens, their hashes, the cookies that carry them
//! and the moment they expire.
//!
//! There are two kinds of session, one for administrators and one for
//! uploaders. Each has its own cookie and its own time to live, and only the
//! hash of a token is ever stored.

use rand::RngCore;
use sha2::Digest;
use vstd::prelude::*;
use vstd::utf8::encode_utf8;
use crate::models::Timestamp;
use crate::text::{
    chars_of, decimal_text, push_decimal, push_text, slice_of, split_on, split_text, starts_with,
    string_of, text_view, trim, trimmed, views_of,
};

verus! {

// ---------------------------------------------------------------------------
// Constants
// ---------------------------------------------------------------------------

/// Name of the cookie that carries an administrator's session token.
pub const SESSION_COOKIE: &'static str = "rr_admin_session";

/// Name of the cookie that carries an uploader's session token.
pub const UPLOADER_SESSION_COOKIE: &'static str = "rr_uploader_session";

/// Hours that an administrator's session lasts.
pub const ADMIN_SESSION_HOURS: i64 = 8;

/// Hours that an uploader's session lasts.
pub const UPLOADER_SESSION_HOURS: i64 = 4;

/// Microseconds in an hour.
pub const MICROS_PER_HOUR: i64 = 3_600_000_000;

/// Most characters of a user agent that are kept with a session.
pub const MAX_USER_AGENT_CHARS: usize = 500;

// ---------------------------------------------------------------------------
// Hexadecimal
// ---------------------------------------------------------------------------

/// The lower-case character of a hexadecimal digit.
pub open spec fn hex_digit(d: nat) -> char {
    if d == 0 {
        '0'
    } else if d == 1 {
        '1'
    } else if d == 2 {
        '2'
    } else if d == 3 {
        '3'
    } else if d == 4 {
        '4'
    } else if d == 5 {
        '5'
    } else if d == 6 {
        '6'
    } else if d == 7 {
        '7'
    } else if d == 8 {
        '8'
    } else if d == 9 {
        '9'
    } else if d == 10 {
        'a'
    } else if d == 11 {
        'b'
    } else if d == 12 {
        'c'
    } else if d == 13 {
        'd'
    } else if d == 14 {
        'e'
    } else {
        'f'
    }
}

/// A digit or a letter from `a` to `f`.
pub open spec fn is_lower_hex(c: char) -> bool {
    ('0' <= c && c <= '9') || ('a' <= c && c <= 'f')
}

/// Bytes written in lower-case hexadecimal, two characters for each byte,
/// the high half first.
pub open spec fn hex_text(bytes: Seq<u8>) -> Seq<char> {
    Seq::new(
        2 * bytes.len(),
        |i: int|
            if i % 2 == 0 {
                hex_digit(bytes[i / 2] as nat / 16)
            } else {
                hex_digit(bytes[i / 2] as nat % 16)
            },
    )
}

/// Hexadecimal text holds nothing but lower-case hexadecimal characters.
pub proof fn lemma_hex_text_chars(bytes: Seq<u8>)
    ensures
        hex_text(bytes).len() == 2 * bytes.len(),
        forall|i: int| 0 <= i < hex_text(bytes).len() ==> is_lower_hex(#[trigger] hex_text(bytes)[i]),
{
}

/// Different bytes give different hexadecimal texts.
pub proof fn lemma_hex_text_injective(a: Seq<u8>, b: Seq<u8>)
    requires
        hex_text(a) == hex_text(b),
    ensures
        a == b,
{
    assert(hex_text(a).len() == 2 * a.len());
    assert(hex_text(b).len() == 2 * b.len());
    assert forall|k: int| 0 <= k < a.len() implies a[k] == b[k] by {
        let hi_a = hex_text(a)[2 * k];
        let hi_b = hex_text(b)[2 * k];
        let lo_a = hex_text(a)[2 * k + 1];
        let lo_b = hex_text(b)[2 * k + 1];
        assert((2 * k) / 2 == k && (2 * k) % 2 == 0);
        assert((2 * k + 1) / 2 == k && (2 * k + 1) % 2 == 1);
        assert(hi_a == hex_digit(a[k] as nat / 16));
        assert(hi_b == hex_digit(b[k] as nat / 16));
        assert(lo_a == hex_digit(a[k] as nat % 16));
        assert(lo_b == hex_digit(b[k] as nat % 16));
        assert(a[k] as nat / 16 == b[k] as nat / 16);
        assert(a[k] as nat % 16 == b[k] as nat % 16);
    }
    assert(a =~= b);
}

// ---------------------------------------------------------------------------
// Outside functions
// ---------------------------------------------------------------------------

/// The SHA-256 digest of a byte sequence.
pub uninterp spec fn sha256_digest(data: Seq<u8>) -> Seq<u8>;

/// `Sha256::digest` of sha2: the 32 bytes of the SHA-256 digest.
#[verifier::external_body]
fn sha256(data: &[u8]) -> (digest: Vec<u8>)
    ensures
        digest@ == sha256_digest(data@),
        digest@.len() == 32,
{
    sha2::Sha256::digest(data).to_vec()
}

/// `hex::encode` of hex: each byte as two lower-case hexadecimal characters.
#[verifier::external_body]
fn hex_encode(bytes: &[u8]) -> (text: String)
    ensures
        text@ == hex_text(bytes@),
{
    hex::encode(bytes)
}

/// `OsRng.fill_bytes` of rand: the buffer is filled with random bytes from
/// the operating system and keeps its length. Nothing is claimed of their
/// values. The call aborts the process where the operating system has no
/// random bytes to give.
#[verifier::external_body]
fn fill_random(bytes: &mut Vec<u8>)
    ensures
        final(bytes)@.len() == old(bytes)@.len(),
{
    rand::rngs::OsRng.fill_bytes(bytes.as_mut_slice());
}

// ---------------------------------------------------------------------------
// Tokens
// ---------------------------------------------------------------------------

/// The number of random bytes in a session token: 256 bits.
pub const TOKEN_BYTES: usize = 32;

/// A session token: 256 bits as 64 lower-case hexadecimal characters.
pub open spec fn is_token(s: Seq<char>) -> bool {
    &&& s.len() == 64
    &&& forall|i: int| 0 <= i < s.len() ==> is_lower_hex(#[trigger] s[i])
}

/// What is stored of a token: the SHA-256 digest of its bytes, in
/// hexadecimal.
pub open spec fn token_hash(token: Seq<char>) -> Seq<char> {
    hex_text(sha256_digest(encode_utf8(token)))
}

/// The token that stands for these bytes: each byte as two lower-case
/// hexadecimal characters, the first byte first.
pub fn token_of(bytes: &[u8]) -> (token: String)
    ensures
        token@ == hex_text(bytes@),
{
    hex_encode(bytes)
}

/// Two tokens are the same text exactly when they were made from the same
/// bytes: no two draws share a token.
pub proof fn lemma_tokens_differ_as_their_bytes(a: Seq<u8>, b: Seq<u8>)
    ensures
        hex_text(a) == hex_text(b) <==> a == b,
{
    if hex_text(a) == hex_text(b) {
        lemma_hex_text_injective(a, b);
    }
}

/// The text of 32 bytes is a token.
pub proof fn lemma_token_of_32_bytes(bytes: Seq<u8>)
    requires
        bytes.len() == 32,
    ensures
        is_token(hex_text(bytes)),
{
    lemma_hex_text_chars(bytes);
}

/// A fresh random session token: the token of 32 bytes drawn from the
/// operating system. It is handed to the client once and never stored.
/// Nothing is said of which bytes were drawn.
pub fn generate_session_token() -> (token: String)
    ensures
        is_token(token@),
        exists|drawn: Seq<u8>| drawn.len() == TOKEN_BYTES && token@ == #[trigger] hex_text(drawn),
{
    let mut bytes: Vec<u8> = Vec::new();
    while bytes.len() < TOKEN_BYTES
        invariant
            bytes@.len() <= TOKEN_BYTES,
        decreases TOKEN_BYTES - bytes@.len(),
    {
        bytes.push(0u8);
    }
    fill_random(&mut bytes);
    let token = token_of(bytes.as_slice());
    proof {
        lemma_token_of_32_bytes(bytes@);
    }
    token
}

/// The hash under which a token's session is stored and found again. The
/// same token always gives the same hash, of the same shape as a token.
pub fn hash_token(token: &str) -> (hash: String)
    ensures
        hash@ == token_hash(token@),
        is_token(hash@),
{
    let digest = sha256(token.as_bytes());
    let hash = hex_encode(digest.as_slice());
    proof {
        lemma_hex_text_chars(digest@);
    }
    hash
}

/// The hash of a token depends on nothing but the token: the same token has
/// the same hash, whenever and wherever it is hashed.
pub proof fn lemma_token_hash_is_deterministic(x: Seq<char>, y: Seq<char>)
    requires
        x == y,
    ensures
        token_hash(x) == token_hash(y),
{
}

/// Two tokens have the same hash only where their digests collide.
pub proof fn lemma_token_hash_collision(x: Seq<char>, y: Seq<char>)
    ensures
        token_hash(x) == token_hash(y) <==> sha256_digest(encode_utf8(x)) == sha256_digest(
            encode_utf8(y),
        ),
{
    if token_hash(x) == token_hash(y) {
        lemma_hex_text_injective(
            sha256_digest(encode_utf8(x)),
            sha256_digest(encode_utf8(y)),
        );
    }
}

// ---------------------------------------------------------------------------
// Expiry
// ---------------------------------------------------------------------------

/// The two kinds of session. They share nothing: each has its own cookie,
/// its own time to live and its own table.
#[derive(Debug, Clone, Copy, PartialEq, Eq, Structural)]
pub enum SessionKind {
    Admin,
    Uploader,
}

impl SessionKind {
    /// Hours that a session of this kind lasts.
    pub open spec fn hours(self) -> i64 {
        match self {
            SessionKind::Admin => ADMIN_SESSION_HOURS,
            SessionKind::Uploader => UPLOADER_SESSION_HOURS,
        }
    }

    /// Name of the cookie that carries a token of this kind.
    pub open spec fn cookie(self) -> Seq<char> {
        match self {
            SessionKind::Admin => SESSION_COOKIE@,
            SessionKind::Uploader => UPLOADER_SESSION_COOKIE@,
        }
    }

    /// Name of the cookie that carries a token of this kind.
    pub fn cookie_name(self) -> (name: &'static str)
        ensures
            name@ == self.cookie(),
    {
        match self {
            SessionKind::Admin => SESSION_COOKIE,
            SessionKind::Uploader => UPLOADER_SESSION_COOKIE,
        }
    }

    /// Seconds that a session of this kind lasts, as the cookie states it.
    pub fn max_age_seconds(self) -> (seconds: u64)
        ensures
            seconds == self.hours() * 3600,
    {
        match self {
            SessionKind::Admin => 28800,
            SessionKind::Uploader => 14400,
        }
    }
}

/// The moment a session made at `now` expires: its kind's hours later, and
/// never beyond the last moment that can be written down.
pub open spec fn expiry(now: Timestamp, kind: SessionKind) -> int {
    if now + kind.hours() * MICROS_PER_HOUR > i64::MAX {
        i64::MAX as int
    } else {
        now + kind.hours() * MICROS_PER_HOUR
    }
}

/// The moment a session made at `now` expires.
pub fn session_expiry(now: Timestamp, kind: SessionKind) -> (at: Timestamp)
    ensures
        at == expiry(now, kind),
{
    let span: i64 = match kind {
        SessionKind::Admin => 28_800_000_000,
        SessionKind::Uploader => 14_400_000_000,
    };
    if now > i64::MAX - span {
        i64::MAX
    } else {
        now + span
    }
}

/// A session is live strictly before the moment it expires.
pub open spec fn is_live(expires_at: Timestamp, now: Timestamp) -> bool {
    expires_at > now
}

/// Whether a session that expires at `expires_at` is live at `now`.
pub fn session_is_live(expires_at: Timestamp, now: Timestamp) -> (r: bool)
    ensures
        r == is_live(expires_at, now),
{
    expires_at > now
}

/// What is kept of a user agent: its first 500 characters.
pub fn clip_user_agent(user_agent: &str) -> (kept: String)
    ensures
        kept@ == if user_agent@.len() <= MAX_USER_AGENT_CHARS {
            user_agent@
        } else {
            user_agent@.take(MAX_USER_AGENT_CHARS as int)
        },
{
    let chars = chars_of(user_agent);
    if chars.len() <= MAX_USER_AGENT_CHARS {
        string_of(chars.as_slice())
    } else {
        let kept = slice_of(chars.as_slice(), 0, MAX_USER_AGENT_CHARS);
        string_of(kept.as_slice())
    }
}

// ---------------------------------------------------------------------------
// Cookies
// ---------------------------------------------------------------------------

/// The value of the first cookie, from position `from` on, that begins with
/// `prefix` once it is trimmed.
pub open spec fn first_cookie(pieces: Seq<Seq<char>>, prefix: Seq<char>, from: int) -> Option<
    Seq<char>,
>
    decreases pieces.len() - from,
{
    if from < 0 || from >= pieces.len() {
        None
    } else if prefix.is_prefix_of(trimmed(pieces[from])) {
        Some(trimmed(pieces[from]).skip(prefix.len() as int))
    } else {
        first_cookie(pieces, prefix, from + 1)
    }
}

/// The value that a `Cookie` header gives to a name: the header is split at
/// each `;`, each piece is trimmed, and the first piece that begins with the
/// name and `=` gives the value.
pub open spec fn cookie_value_of(header: Seq<char>, name: Seq<char>) -> Option<Seq<char>> {
    first_cookie(split_text(header, ';'), name.push('='), 0)
}

/// The value that a `Cookie` header gives to a name.
pub fn cookie_value(header: &str, name: &str) -> (value: Option<String>)
    ensures
        text_view(value) == cookie_value_of(header@, name@),
{
    let text = chars_of(header);
    let pieces = split_on(text.as_slice(), ';');
    let mut prefix = chars_of(name);
    prefix.push('=');
    let mut i: usize = 0;
    while i < pieces.len()
        invariant
            i <= pieces.len(),
            views_of(pieces@) == split_text(header@, ';'),
            prefix@ == name@.push('='),
            cookie_value_of(header@, name@) == first_cookie(
                views_of(pieces@),
                prefix@,
                i as int,
            ),
        decreases pieces.len() - i,
    {
        let piece = trim(pieces[i].as_slice());
        proof {
            assert(views_of(pieces@)[i as int] == pieces@[i as int]@);
        }
        if starts_with(piece.as_slice(), prefix.as_slice()) {
            let value = slice_of(piece.as_slice(), prefix.len(), piece.len());
            return Some(string_of(value.as_slice()));
        }
        i = i + 1;
    }
    None
}

/// The session token of an administrator in a `Cookie` header, if the
/// request has the header and the header has the cookie.
pub fn extract_session_token(cookie_header: Option<&str>) -> (token: Option<String>)
    ensures
        text_view(token) == match cookie_header {
            Some(header) => cookie_value_of(header@, SESSION_COOKIE@),
            None => None,
        },
{
    match cookie_header {
        Some(header) => cookie_value(header, SESSION_COOKIE),
        None => None,
    }
}

/// The session token of an uploader in a `Cookie` header.
pub fn extract_uploader_session_token(cookie_header: Option<&str>) -> (token: Option<String>)
    ensures
        text_view(token) == match cookie_header {
            Some(header) => cookie_value_of(header@, UPLOADER_SESSION_COOKIE@),
            None => None,
        },
{
    match cookie_header {
        Some(header) => cookie_value(header, UPLOADER_SESSION_COOKIE),
        None => None,
    }
}

/// The `Set-Cookie` text that hands a token to the client: readable by the
/// server only, sent to this site only, and over TLS only where `secure` is
/// set.
pub open spec fn session_cookie_text(
    name: Seq<char>,
    token: Seq<char>,
    max_age_seconds: u64,
    secure: bool,
) -> Seq<char> {
    name + "="@ + token + "; Path=/; HttpOnly; SameSite=Strict; Max-Age="@ + decimal_text(
        max_age_seconds as nat,
    ) + if secure {
        "; Secure"@
    } else {
        Seq::<char>::empty()
    }
}

/// The `Set-Cookie` text that hands a token to the client. With an empty
/// token and an age of zero it clears the cookie.
pub fn session_cookie(name: &str, token: &str, max_age_seconds: u64, secure: bool) -> (cookie:
    String)
    ensures
        cookie@ == session_cookie_text(name@, token@, max_age_seconds, secure),
{
    let mut cookie = String::new();
    push_text(&mut cookie, name);
    push_text(&mut cookie, "=");
    push_text(&mut cookie, token);
    push_text(&mut cookie, "; Path=/; HttpOnly; SameSite=Strict; Max-Age=");
    push_decimal(&mut cookie, max_age_seconds);
    if secure {
        push_text(&mut cookie, "; Secure");
    }
    proof {
        assert(cookie@ =~= session_cookie_text(name@, token@, max_age_seconds, secure));
    }
    cookie
}

} // verus!
