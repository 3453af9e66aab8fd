//! Accounts: the registration and login forms, the stored user, and the
//! decisions of registering and logging in.
use vstd::prelude::*;
use crate::clock::{representable, now_unix_nanos};
use crate::password::{argon2_verifies, phc_parses, hash_password, password_bytes, password_matches};
use crate::status;
use vstd::string::StringSliceAdditionalSpecFns;
use crate::token::{
    cookie_text, expiry_in_range, hs256_session_token, token_expiry, session_cookie_at, TokenError,
};

verus! {

/// The registration form.
#[derive(Debug)]
pub struct CreateUser {
    pub name: String,
    pub email: String,
    pub password: String,
}

/// The login form.
#[derive(Debug)]
pub struct LoginUser {
    pub email: String,
    pub password: String,
}

/// The role of an account.
#[derive(Debug, Clone, Copy, PartialEq, Eq, Structural)]
pub enum UserRole {
    Customer,
    Driver,
}

/// The name of a role as stored in the database.
pub open spec fn role_name(role: UserRole) -> Seq<char> {
    match role {
        UserRole::Customer => seq!['c', 'u', 's', 't', 'o', 'm', 'e', 'r'],
        UserRole::Driver => seq!['d', 'r', 'i', 'v', 'e', 'r'],
    }
}

impl UserRole {
    /// The name of this role as stored in the database.
    pub fn as_str(&self) -> (r: &'static str)
        ensures
            r@ == role_name(*self),
    {
        proof {
            reveal_strlit("customer");
            reveal_strlit("driver");
        }
        let r = match self {
            UserRole::Customer => "customer",
            UserRole::Driver => "driver",
        };
        assert(r@ =~= role_name(*self));
        r
    }
}

/// The account row read when a user logs in.
#[derive(Debug)]
pub struct LoginUserFromDatabase {
    pub id: String,
    pub email: String,
    pub password: String,
    pub role: UserRole,
}

/// A user account: its id (a UUID in hyphenated text), name, e-mail address,
/// creation time (nanoseconds since the Unix epoch) and password hash
/// (a PHC string).
#[derive(Debug)]
pub struct User {
    pub id: String,
    pub name: String,
    pub email: String,
    pub created_at: i128,
    pub password: String,
}

/// Whether a character is a lowercase hexadecimal digit.
pub open spec fn is_lower_hex(c: char) -> bool {
    ('0' <= c && c <= '9') || ('a' <= c && c <= 'f')
}

/// Whether a text is a version-4 UUID in hyphenated lowercase form:
/// `xxxxxxxx-xxxx-4xxx-Vxxx-xxxxxxxxxxxx` with `V` one of `8`, `9`, `a`, `b`.
pub open spec fn is_v4_uuid_text(s: Seq<char>) -> bool {
    &&& s.len() == 36
    &&& forall|i: int|
        0 <= i < 36 ==> if i == 8 || i == 13 || i == 18 || i == 23 {
            s[i] == '-'
        } else {
            is_lower_hex(#[trigger] s[i])
        }
    &&& s[14] == '4'
    &&& (s[19] == '8' || s[19] == '9' || s[19] == 'a' || s[19] == 'b')
}

/// A fresh random account id (`uuid::Uuid::new_v4`, then its `Display`
/// text). Claimed: the text is a version-4 UUID in hyphenated lowercase form
/// (`new_v4` sets the version nibble to 4 and the variant bits to `10`;
/// `Display` writes the lowercase hyphenated form). Which id comes back is
/// random and not stated.
#[verifier::external_body]
fn fresh_user_id() -> (r: String)
    ensures
        is_v4_uuid_text(r@),
{
    uuid::Uuid::new_v4().to_string()
}

impl User {
    /// A new account for the registration form, with the given password hash,
    /// a fresh random id and the current time as its creation time.
    pub fn new(cre: &CreateUser, hash_password: String) -> (r: User)
        ensures
            r.name@ == cre.name@,
            r.email@ == cre.email@,
            r.password == hash_password,
            is_v4_uuid_text(r.id@),
            representable(r.created_at as int),
    {
        User {
            id: fresh_user_id(),
            name: cre.name.clone(),
            email: cre.email.clone(),
            created_at: now_unix_nanos(),
            password: hash_password,
        }
    }
}

/// A registration form may be processed: name and e-mail address are given.
pub open spec fn registration_complete(cre: CreateUser) -> bool {
    cre.name@.len() > 0 && cre.email@.len() > 0
}

/// Why a registration is refused.
#[derive(Debug, Clone, Copy, PartialEq, Eq, Structural)]
pub enum RegisterError {
    /// The form lacks a name or an e-mail address.
    BadRequest,
    /// An account with this e-mail address exists.
    Conflict,
}

impl RegisterError {
    /// The HTTP status the refusal is answered with.
    pub fn status_code(&self) -> (r: u16)
        ensures
            r == (match self {
                RegisterError::BadRequest => status::BAD_REQUEST,
                RegisterError::Conflict => status::CONFLICT,
            }),
    {
        match self {
            RegisterError::BadRequest => status::BAD_REQUEST,
            RegisterError::Conflict => status::CONFLICT,
        }
    }
}

impl CreateUser {
    /// Whether the form has a name and an e-mail address.
    pub fn is_complete(&self) -> (r: bool)
        ensures
            r == registration_complete(*self),
    {
        !self.name.as_str().is_empty() && !self.email.as_str().is_empty()
    }
}

/// Registers the account of a form, `email_taken` telling whether an account
/// with its e-mail address exists. The stored password is an Argon2 hash
/// that the form's password verifies against.
pub fn register_user(cre: &CreateUser, email_taken: bool) -> (r: Result<User, RegisterError>)
    requires
        registration_complete(*cre) && !email_taken ==> password_bytes(cre.password@).len()
            <= 0xFFFF_FFFF,
    ensures
        r == Err::<User, RegisterError>(RegisterError::BadRequest) <==> !registration_complete(*cre),
        r == Err::<User, RegisterError>(RegisterError::Conflict) <==> registration_complete(*cre)
            && email_taken,
        r matches Ok(u) ==> {
            &&& u.name@ == cre.name@
            &&& u.email@ == cre.email@
            &&& argon2_verifies(password_bytes(cre.password@), u.password@)
            &&& u.password@.len() > 0 && u.password@[0] == '$'
            &&& phc_parses(u.password@)
            &&& is_v4_uuid_text(u.id@)
            &&& representable(u.created_at as int)
        },
{
    if !cre.is_complete() {
        return Err(RegisterError::BadRequest);
    }
    if email_taken {
        return Err(RegisterError::Conflict);
    }
    let hashed = hash_password(cre.password.as_str());
    Ok(User::new(cre, hashed))
}

/// A login form may be checked: e-mail address and password are given.
pub open spec fn login_complete(login: LoginUser) -> bool {
    login.email@.len() > 0 && login.password@.len() > 0
}

impl LoginUser {
    /// Whether the form has an e-mail address and a password.
    pub fn is_complete(&self) -> (r: bool)
        ensures
            r == login_complete(*self),
    {
        !self.email.as_str().is_empty() && !self.password.as_str().is_empty()
    }
}

/// The answer to a login.
#[derive(Debug)]
pub enum LoginOutcome {
    /// The form lacks an e-mail address or a password.
    BadRequest,
    /// No account has this e-mail address, or the password does not match.
    Unauthorized,
    /// The password matches; the session cookie to set.
    Authenticated { cookie: String },
    /// The password matches but no session token could be made.
    TokenFailure { message: String },
}

/// Whether the login's password is accepted for the stored account (if any).
pub open spec fn login_accepted(login: LoginUser, stored: Option<User>) -> bool {
    match stored {
        Some(u) => argon2_verifies(password_bytes(login.password@), u.password@),
        None => false,
    }
}

impl LoginOutcome {
    /// The HTTP status of the answer.
    pub fn status_code(&self) -> (r: u16)
        ensures
            r == (match self {
                LoginOutcome::BadRequest => status::BAD_REQUEST,
                LoginOutcome::Unauthorized => status::UNAUTHORIZED,
                LoginOutcome::Authenticated { .. } => status::OK,
                LoginOutcome::TokenFailure { .. } => status::INTERNAL_SERVER_ERROR,
            }),
    {
        match self {
            LoginOutcome::BadRequest => status::BAD_REQUEST,
            LoginOutcome::Unauthorized => status::UNAUTHORIZED,
            LoginOutcome::Authenticated { .. } => status::OK,
            LoginOutcome::TokenFailure { .. } => status::INTERNAL_SERVER_ERROR,
        }
    }
}

/// The answer to a login form at time `now`, given the account stored under
/// its e-mail address (if any) and the token secret (or, when the secret
/// could not be read, the message saying why).
pub fn authenticate_at(
    login: &LoginUser,
    stored: Option<&User>,
    now: i128,
    secret: Result<&str, &str>,
) -> (r: LoginOutcome)
    requires
        representable(now as int),
    ensures
        r is BadRequest <==> !login_complete(*login),
        r is Unauthorized <==> login_complete(*login) && !login_accepted(
            *login,
            match stored {
                Some(u) => Some(*u),
                None => None,
            },
        ),
        r matches LoginOutcome::Authenticated { cookie } ==> stored matches Some(u)
            && secret matches Ok(key) && cookie@ == cookie_text(
            hs256_session_token(u.id@, token_expiry(now as int), key.spec_bytes()),
        ),
        r is TokenFailure ==> login_complete(*login) && stored is Some,
        stored matches Some(u) ==> (login_complete(*login) && (u.password@.len() == 0
            || u.password@[0] != '$' || !phc_parses(u.password@)) ==> r is Unauthorized),
        secret matches Err(m) ==> (login_complete(*login) && stored is Some && login_accepted(
            *login,
            Some(*stored->0),
        ) ==> (r matches LoginOutcome::TokenFailure { message } && message@ == m@)),
        // success is owed whenever the password matches, the secret is set and
        // the expiry can be written
        secret is Ok && login_complete(*login) && stored is Some && login_accepted(
            *login,
            Some(*stored->0),
        ) ==> (r is Authenticated <==> expiry_in_range(token_expiry(now as int))),
        r is TokenFailure && secret is Ok ==> !expiry_in_range(token_expiry(now as int)),
{
    if !login.is_complete() {
        return LoginOutcome::BadRequest;
    }
    match stored {
        None => LoginOutcome::Unauthorized,
        Some(u) => {
            if !password_matches(login.password.as_str(), u.password.as_str()) {
                return LoginOutcome::Unauthorized;
            }
            match secret {
                Err(m) => LoginOutcome::TokenFailure { message: m.to_owned() },
                Ok(key) => match session_cookie_at(u.id.as_str(), now, key) {
                    Ok(cookie) => LoginOutcome::Authenticated { cookie },
                    Err(TokenError::ExpiryOutOfRange) => LoginOutcome::TokenFailure {
                        message: String::from_str("token expiry out of range"),
                    },
                    Err(TokenError::Signing(message)) => LoginOutcome::TokenFailure { message },
                },
            }
        },
    }
}

/// An account made by [`register_user`] from a form is logged into with the
/// form's password: a complete login form carrying that password is accepted
/// for the account.
pub proof fn lemma_registered_password_logs_in(cre: CreateUser, u: User, login: LoginUser)
    requires
        argon2_verifies(password_bytes(cre.password@), u.password@),
        login.password@ == cre.password@,
    ensures
        login_accepted(login, Some(u)),
{
}

/// The answer to a login form now: [`authenticate_at`] at an instant read
/// from the clock.
pub fn authenticate(login: &LoginUser, stored: Option<&User>, secret: Result<&str, &str>) -> (r:
    LoginOutcome)
    ensures
        r is BadRequest <==> !login_complete(*login),
        r is Unauthorized <==> login_complete(*login) && !login_accepted(
            *login,
            match stored {
                Some(u) => Some(*u),
                None => None,
            },
        ),
        secret matches Err(m) ==> (login_complete(*login) && stored is Some && login_accepted(
            *login,
            Some(*stored->0),
        ) ==> (r matches LoginOutcome::TokenFailure { message } && message@ == m@)),
        stored matches Some(u) ==> (login_complete(*login) && (u.password@.len() == 0
            || u.password@[0] != '$' || !phc_parses(u.password@)) ==> r is Unauthorized),
        // the answer is that of `authenticate_at` at the instant read from the clock
        exists|now: int|
            #[trigger] representable(now) && (secret is Ok && login_complete(*login) && stored is Some
                && login_accepted(*login, Some(*stored->0)) ==> (r is Authenticated
                <==> expiry_in_range(token_expiry(now)))) && (r is Authenticated ==> stored is Some
                && secret is Ok && r->cookie@ == cookie_text(
                hs256_session_token(
                    stored->0.id@,
                    token_expiry(now),
                    secret->Ok_0.spec_bytes(),
                ),
            )) && (r is TokenFailure && secret is Ok ==> !expiry_in_range(token_expiry(now))),
{
    let now = now_unix_nanos();
    let r = authenticate_at(login, stored, now, secret);
    proof {
        assert(representable(now as int));
    }
    r
}

} // verus!
