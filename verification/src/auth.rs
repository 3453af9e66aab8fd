//! The check in front of the protected routes: a request passes only with a
//! valid, unexpired session token (`authorization: Bearer <token>`);
//! registration and login, where a token is obtained, are open to everyone.
use vstd::prelude::*;
use vstd::string::{StrSliceExecFns, StringSliceAdditionalSpecFns};
use crate::clock::{now_unix_nanos, secs_of, EARLIEST_SECS, LATEST_SECS};
use crate::text::same_text;
use crate::token::{hs256_session_token, session_subject, verify_session_token};

verus! {

/// Routes that need no session token: those where a token is obtained.
pub open spec fn public_route(path: Seq<char>) -> bool {
    path == seq![
        '/',
        'r',
        'e',
        'g',
        'i',
        's',
        't',
        'e',
        'r',
    ] || path == seq!['/', 'l', 'o', 'g', 'i', 'n']
}

/// The scheme word in front of a session token.
pub open spec fn bearer_prefix() -> Seq<char> {
    seq!['B', 'e', 'a', 'r', 'e', 'r', ' ']
}

/// The token of an `authorization` header of the form `Bearer <token>`.
pub open spec fn bearer_token_of(header: Seq<char>) -> Option<Seq<char>> {
    if header.len() >= 7 && header.subrange(0, 7) == bearer_prefix() {
        Some(header.subrange(7, header.len() as int))
    } else {
        None
    }
}

/// Whether a request for `path`, with this `authorization` header, passes at
/// second `now` when session tokens are signed with `secret` (`None` when the
/// server has no secret).
pub open spec fn request_allowed(
    path: Seq<char>,
    authorization: Option<Seq<char>>,
    secret: Option<Seq<u8>>,
    now: int,
) -> bool {
    public_route(path) || match (authorization, secret) {
        (Some(h), Some(k)) => match bearer_token_of(h) {
            Some(t) => session_subject(t, k, now) is Some,
            None => false,
        },
        _ => false,
    }
}

/// The text of an optional header.
pub open spec fn header_text(h: Option<&str>) -> Option<Seq<char>> {
    match h {
        Some(h) => Some(h@),
        None => None,
    }
}

/// The bytes of an optional secret.
pub open spec fn secret_bytes(k: Option<&str>) -> Option<Seq<u8>> {
    match k {
        Some(k) => Some(k.spec_bytes()),
        None => None,
    }
}

/// Whether a route can be reached without a session token.
pub fn is_public_route(path: &str) -> (r: bool)
    ensures
        r == public_route(path@),
{
    proof {
        reveal_strlit("/register");
        reveal_strlit("/login");
        assert("/register"@ =~= seq!['/', 'r', 'e', 'g', 'i', 's', 't', 'e', 'r']);
        assert("/login"@ =~= seq!['/', 'l', 'o', 'g', 'i', 'n']);
    }
    same_text(path, "/register") || same_text(path, "/login")
}

/// The token of a `Bearer <token>` header, if the header has that form.
pub fn bearer_token(header: &str) -> (r: Option<&str>)
    ensures
        match r {
            Some(t) => bearer_token_of(header@) == Some(t@),
            None => bearer_token_of(header@) is None,
        },
{
    proof {
        reveal_strlit("Bearer ");
        assert("Bearer "@ =~= bearer_prefix());
    }
    let len = header.unicode_len();
    if len < 7 {
        return None;
    }
    let scheme = header.substring_char(0, 7);
    if same_text(scheme, "Bearer ") {
        Some(header.substring_char(7, len))
    } else {
        None
    }
}

/// The verdict on a request for `path` at second `now`: `Ok` lets it
/// through, `Err` carries the status it is refused with. A request for a
/// protected route passes exactly when it carries a session token signed
/// with the server's secret that has not expired; every token issued with
/// that secret passes until its expiry.
pub fn check_request(path: &str, authorization: Option<&str>, secret: Option<&str>, now: i64) -> (r:
    Result<(), u16>)
    ensures
        r is Ok <==> request_allowed(
            path@,
            header_text(authorization),
            secret_bytes(secret),
            now as int,
        ),
        r is Err ==> r->Err_0 == crate::status::UNAUTHORIZED,
        forall|subject: Seq<char>, expires: i64|
            #![trigger hs256_session_token(subject, expires as int, secret->Some_0.spec_bytes())]
            secret is Some && authorization is Some && authorization->Some_0@ == bearer_prefix()
                + hs256_session_token(subject, expires as int, secret->Some_0.spec_bytes()) && now
                < expires ==> r is Ok,
        // on a protected route, an issued token is refused from its expiry second on
        forall|subject: Seq<char>, expires: i64|
            #![trigger hs256_session_token(subject, expires as int, secret->Some_0.spec_bytes())]
            !public_route(path@) && secret is Some && authorization is Some && authorization->Some_0@
                == bearer_prefix() + hs256_session_token(
                subject,
                expires as int,
                secret->Some_0.spec_bytes(),
            ) && expires <= now ==> r is Err,
{
    if is_public_route(path) {
        return Ok(());
    }
    match (authorization, secret) {
        (Some(h), Some(k)) => match bearer_token(h) {
            Some(t) => {
                proof {
                    assert forall|subject: Seq<char>, expires: i64|
                        h@ == bearer_prefix() + #[trigger] hs256_session_token(
                            subject,
                            expires as int,
                            k.spec_bytes(),
                        ) implies t@ == hs256_session_token(subject, expires as int, k.spec_bytes()) by {
                        assert(t@ =~= (bearer_prefix() + hs256_session_token(
                            subject,
                            expires as int,
                            k.spec_bytes(),
                        )).subrange(7, h@.len() as int));
                    }
                }
                match verify_session_token(t, k, now) {
                    Some(_) => Ok(()),
                    None => Err(crate::status::UNAUTHORIZED),
                }
            },
            None => {
                proof {
                    assert forall|subject: Seq<char>, expires: i64|
                        h@ != bearer_prefix() + #[trigger] hs256_session_token(
                            subject,
                            expires as int,
                            k.spec_bytes(),
                        ) by {
                        if h@ == bearer_prefix() + hs256_session_token(subject, expires as int, k.spec_bytes()) {
                            assert(h@.subrange(0, 7) =~= bearer_prefix());
                        }
                    }
                }
                Err(crate::status::UNAUTHORIZED)
            },
        },
        _ => Err(crate::status::UNAUTHORIZED),
    }
}

/// The second a clock reading can give.
pub open spec fn clock_second(now: int) -> bool {
    EARLIEST_SECS <= now <= LATEST_SECS
}

/// [`check_request`] at the current second read from the clock: its verdict
/// is that of [`request_allowed`] at that second.
pub fn check_request_now(path: &str, authorization: Option<&str>, secret: Option<&str>) -> (r:
    Result<(), u16>)
    ensures
        public_route(path@) ==> r is Ok,
        r is Err ==> r->Err_0 == crate::status::UNAUTHORIZED,
        exists|now: int|
            #[trigger] clock_second(now) && (r is Ok <==> request_allowed(
                path@,
                header_text(authorization),
                secret_bytes(secret),
                now,
            )),
{
    let now = secs_of(now_unix_nanos());
    let r = check_request(path, authorization, secret, now);
    proof {
        assert(clock_second(now as int));
    }
    r
}

} // verus!
