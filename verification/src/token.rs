//! Session tokens: an HS256 JSON Web Token naming the user and its expiry,
//! handed to the browser in a cookie.
use vstd::prelude::*;
use vstd::string::StringSliceAdditionalSpecFns;
use crate::clock::{representable, now_unix_nanos, secs_of, unix_secs, LATEST_SECS};

verus! {

/// How long a session token is valid: one day.
pub const TOKEN_LIFETIME_SECS: i64 = 86400;

/// The error type of `jsonwebtoken`.
#[verifier::external_type_specification]
#[verifier::external_body]
pub struct ExJwtError(jsonwebtoken::errors::Error);

/// The token that `jsonwebtoken::encode` makes with the default header
/// (HS256) for the claims `{"exp": <expiry>, "sub": <subject>}` and the
/// secret key, the expiry given in seconds since the Unix epoch.
pub uninterp spec fn hs256_session_token(subject: Seq<char>, expires: int, secret: Seq<u8>) -> Seq<char>;

/// Signs the session claims with `jsonwebtoken::encode`
/// (`Header::default()`, `EncodingKey::from_secret`), the claims being the
/// JSON object `{"exp": <expiry>, "sub": <subject>}`.
/// Claimed: a token always comes back, and it is `hs256_session_token` of the
/// subject, the expiry and the secret. `encode` fails only when the key's
/// family differs from the header's algorithm (both HMAC here), when the
/// header or claims do not serialise (a string-keyed JSON map of a string
/// and an integer always does), or when signing fails (HMAC signing cannot).
#[verifier::external_body]
fn jwt_encode(subject: &str, expires: i64, secret: &[u8]) -> (r: Result<String, jsonwebtoken::errors::Error>)
    ensures
        r is Ok,
        r matches Ok(t) ==> t@ == hs256_session_token(subject@, expires as int, secret@),
{
    let mut claims = serde_json::Map::new();
    claims.insert("sub".to_string(), serde_json::Value::String(subject.to_string()));
    claims.insert("exp".to_string(), serde_json::Value::from(expires));
    jsonwebtoken::encode(&jsonwebtoken::Header::default(), &claims, &jsonwebtoken::EncodingKey::from_secret(secret))
}

/// The subject and expiry that a token carries when it is an HS256 token
/// signed with the secret whose claims hold a string `sub` and an integer
/// `exp` (`None` for any other text).
pub uninterp spec fn hs256_claims(token: Seq<char>, secret: Seq<u8>) -> Option<(Seq<char>, int)>;

/// Reads a session token with `jsonwebtoken::decode` (`Validation::new(HS256)`
/// without the expiry check and without required claims,
/// `DecodingKey::from_secret`), then takes its `sub` string and `exp` integer.
/// Claimed: the answer is `hs256_claims` of the token and the secret, and a
/// token made by `jwt_encode` with the same secret is read back as the subject
/// and expiry it was made from: decoding checks the HMAC signature by signing
/// again, and the claims parse back to the JSON object that was encoded.
#[verifier::external_body]
fn jwt_decode(token: &str, secret: &[u8]) -> (r: Option<(String, i64)>)
    ensures
        r matches Some(c) ==> hs256_claims(token@, secret@) == Some((c.0@, c.1 as int)),
        r is None ==> hs256_claims(token@, secret@) is None,
        forall|subject: Seq<char>, expires: i64|
            token@ == #[trigger] hs256_session_token(subject, expires as int, secret@) ==> r
                == Some((r->Some_0.0, expires)) && r->Some_0.0@ == subject,
{
    let mut validation = jsonwebtoken::Validation::new(jsonwebtoken::Algorithm::HS256);
    validation.validate_exp = false;
    validation.required_spec_claims = std::collections::HashSet::new();
    let key = jsonwebtoken::DecodingKey::from_secret(secret);
    match jsonwebtoken::decode::<serde_json::Map<String, serde_json::Value>>(token, &key, &validation) {
        Ok(data) => match (data.claims.get("sub"), data.claims.get("exp")) {
            (Some(serde_json::Value::String(s)), Some(e)) => match e.as_i64() {
                Some(e) => Some((s.clone(), e)),
                None => None,
            },
            _ => None,
        },
        Err(_) => None,
    }
}

/// The message of a `jsonwebtoken` error (its `Display` text).
#[verifier::external_body]
fn jwt_error_message(e: &jsonwebtoken::errors::Error) -> String {
    e.to_string()
}

/// Why no session token was made.
#[derive(Debug)]
pub enum TokenError {
    /// The expiry lies past the latest instant a timestamp can hold.
    ExpiryOutOfRange,
    /// Signing failed, with the signer's message.
    Signing(String),
}

/// The text of the session cookie that carries a token.
pub open spec fn cookie_text(token: Seq<char>) -> Seq<char> {
    seq!['t', 'o', 'k', 'e', 'n', '='] + token + seq![
        ';',
        ' ',
        'H',
        't',
        't',
        'p',
        'O',
        'n',
        'l',
        'y',
        ';',
        ' ',
        'S',
        'e',
        'c',
        'u',
        'r',
        'e',
        ';',
        ' ',
        'S',
        'a',
        'm',
        'e',
        'S',
        'i',
        't',
        'e',
        '=',
        'S',
        't',
        'r',
        'i',
        'c',
        't',
        ';',
        ' ',
        'P',
        'a',
        't',
        'h',
        '=',
        '/',
    ]
}

/// The expiry, in seconds, of a token issued at the instant `now`
/// (nanoseconds): one day after the second of `now`.
pub open spec fn token_expiry(now: int) -> int {
    unix_secs(now) + TOKEN_LIFETIME_SECS
}

/// Whether an expiry lies within the seconds a timestamp can hold.
pub open spec fn expiry_in_range(expires: int) -> bool {
    expires <= LATEST_SECS
}

/// The `Set-Cookie` value that hands a token to the browser.
pub fn session_cookie(token: &str) -> (r: String)
    ensures
        r@ == cookie_text(token@),
{
    proof {
        reveal_strlit("token=");
        reveal_strlit("; HttpOnly; Secure; SameSite=Strict; Path=/");
    }
    let mut r = String::from_str("token=");
    r.append(token);
    r.append("; HttpOnly; Secure; SameSite=Strict; Path=/");
    assert(r@ =~= cookie_text(token@));
    r
}

/// The session cookie for `subject`, issued at `now` and signed with `secret`:
/// it expires one day after `now`.
pub fn session_cookie_at(subject: &str, now: i128, secret: &str) -> (r: Result<String, TokenError>)
    requires
        representable(now as int),
    ensures
        r is Ok <==> expiry_in_range(token_expiry(now as int)),
        r matches Err(e) ==> e is ExpiryOutOfRange,
        r matches Ok(c) ==> c@ == cookie_text(
            hs256_session_token(subject@, token_expiry(now as int), secret.spec_bytes()),
        ),
{
    let second = secs_of(now);
    if second > LATEST_SECS - TOKEN_LIFETIME_SECS {
        return Err(TokenError::ExpiryOutOfRange);
    }
    let expires = second + TOKEN_LIFETIME_SECS;
    match jwt_encode(subject, expires, secret.as_bytes()) {
        Ok(token) => Ok(session_cookie(token.as_str())),
        Err(e) => Err(TokenError::Signing(jwt_error_message(&e))),
    }
}

/// The session cookie for `subject`, issued now: the cookie of
/// [`session_cookie_at`] for some representable instant read from the clock.
/// It fails only when that instant lies within a day of the latest instant a
/// timestamp can hold.
pub fn session_cookie_now(subject: &str, secret: &str) -> (r: Result<String, TokenError>)
    ensures
        r matches Err(e) ==> e is ExpiryOutOfRange,
        exists|now: int|
            #[trigger] representable(now) && (r is Ok <==> expiry_in_range(token_expiry(now))) && (
            r matches Ok(c) ==> c@ == cookie_text(
                hs256_session_token(subject@, token_expiry(now), secret.spec_bytes()),
            )),
{
    let now = now_unix_nanos();
    let r = session_cookie_at(subject, now, secret);
    proof {
        assert(representable(now as int));
    }
    r
}

/// Whether a token is a session token signed with `secret` that has not
/// expired at second `now`; if so, the subject it names.
pub open spec fn session_subject(token: Seq<char>, secret: Seq<u8>, now: int) -> Option<Seq<char>> {
    match hs256_claims(token, secret) {
        Some(c) => if now < c.1 {
            Some(c.0)
        } else {
            None
        },
        None => None,
    }
}

/// Checks a session token at second `now`: the subject of a valid token
/// signed with `secret` that expires after `now`, `None` otherwise. Every
/// token issued with the same secret is accepted until its expiry.
pub fn verify_session_token(token: &str, secret: &str, now: i64) -> (r: Option<String>)
    ensures
        match r {
            Some(s) => session_subject(token@, secret.spec_bytes(), now as int) == Some(s@),
            None => session_subject(token@, secret.spec_bytes(), now as int) is None,
        },
        forall|subject: Seq<char>, expires: i64|
            token@ == #[trigger] hs256_session_token(subject, expires as int, secret.spec_bytes())
                && now < expires ==> (r matches Some(s) && s@ == subject),
        // an issued token is refused from its expiry second on
        forall|subject: Seq<char>, expires: i64|
            token@ == #[trigger] hs256_session_token(subject, expires as int, secret.spec_bytes())
                && expires <= now ==> r is None,
{
    match jwt_decode(token, secret.as_bytes()) {
        Some(claims) => if now < claims.1 {
            Some(claims.0)
        } else {
            None
        },
        None => None,
    }
}

} // verus!
