//! The identity behind a request, and the guards that go by it.

use vstd::prelude::*;
use vstd::string::*;

use crate::codec::Id;
use crate::error::AppError;
use crate::text::{owned, same_text};
use crate::time::Moment;

verus! {

/// A person with an account.
#[derive(Clone, Debug)]
pub struct User {
    pub id: Id,
    pub email: String,
    pub display_name: Option<String>,
    pub email_verified_at: Option<Moment>,
    pub last_seen_at: Option<Moment>,
    pub theme: String,
    pub time_format: String,
    pub created_at: Moment,
    pub updated_at: Moment,
}

/// A stored API token.
#[derive(Clone, Debug)]
pub struct ApiTokenRow {
    pub id: Id,
    pub user_id: Id,
    pub name: String,
    pub token_hash: String,
    pub prefix: String,
    pub expires_at: Option<Moment>,
    pub last_used_at: Option<Moment>,
    pub created_at: Moment,
}

/// Who a request comes from.
#[derive(Clone, Debug)]
pub enum AuthIdentity {
    /// Neither a good cookie nor a good token.
    Anonymous,
    /// A browser session, with the cookie it came with.
    Session { user: User, cookie_value: String },
    /// A token, from a script or another program.
    ApiToken { token: ApiTokenRow, user: User },
}

/// A request turned away: the status and the words.
#[derive(Clone, Debug)]
pub struct Rejection {
    pub status: u16,
    pub message: &'static str,
}

impl AuthIdentity {
    /// The user behind the request.
    pub open spec fn owner(self) -> Option<User> {
        match self {
            AuthIdentity::Session { user, .. } => Some(user),
            AuthIdentity::ApiToken { user, .. } => Some(user),
            AuthIdentity::Anonymous => None,
        }
    }

    /// Whether anyone is behind the request.
    pub fn is_authenticated(&self) -> (r: bool)
        ensures
            r == !(self is Anonymous),
            r == self.owner() is Some,
    {
        match self {
            AuthIdentity::Anonymous => false,
            _ => true,
        }
    }

    /// Whether the request comes from a browser session.
    pub fn is_session(&self) -> (r: bool)
        ensures
            r == (self is Session),
    {
        match self {
            AuthIdentity::Session { .. } => true,
            _ => false,
        }
    }

    /// Whether the request comes with an API token.
    pub fn is_api_token(&self) -> (r: bool)
        ensures
            r == (self is ApiToken),
    {
        match self {
            AuthIdentity::ApiToken { .. } => true,
            _ => false,
        }
    }

    /// The user behind the request.
    pub fn user(&self) -> (r: Option<&User>)
        ensures
            match r {
                Some(u) => self.owner() == Some(*u),
                None => self.owner() is None,
            },
    {
        match self {
            AuthIdentity::Session { user, .. } => Some(user),
            AuthIdentity::ApiToken { user, .. } => Some(user),
            AuthIdentity::Anonymous => None,
        }
    }

    /// The identifier of the user behind the request.
    pub fn user_id(&self) -> (r: Option<Id>)
        ensures
            r == match self.owner() {
                Some(u) => Some(u.id),
                None => None,
            },
    {
        match self.user() {
            Some(u) => Some(u.id),
            None => None,
        }
    }

    /// The user behind the request. There has to be one: a guard has made sure of
    /// it, and a fault of the server is what its absence means.
    pub fn require_user(&self) -> (r: Result<&User, AppError>)
        ensures
            match r {
                Ok(u) => self.owner() == Some(*u),
                Err(e) => self is Anonymous && crate::error::is_internal(
                    e,
                    "AUTH_INVARIANT"@,
                    "RequireAuth resolved without an authenticated user"@,
                ),
            },
    {
        match self.user() {
            Some(u) => Ok(u),
            None => Err(
                AppError::Internal {
                    code: "AUTH_INVARIANT",
                    log: owned("RequireAuth resolved without an authenticated user"),
                },
            ),
        }
    }

    /// The identifier of the user behind the request, who has to exist.
    pub fn require_user_id(&self) -> (r: Result<Id, AppError>)
        ensures
            match r {
                Ok(id) => self.owner() matches Some(u) && u.id == id,
                Err(e) => self is Anonymous && crate::error::is_internal(
                    e,
                    "AUTH_INVARIANT"@,
                    "RequireAuth resolved without an authenticated user"@,
                ),
            },
    {
        match self.require_user() {
            Ok(u) => Ok(u.id),
            Err(e) => Err(e),
        }
    }
}

/// An identity that any request has.
#[derive(Clone, Debug)]
pub struct AuthIdentityExt(pub AuthIdentity);

/// An identity with someone behind it.
#[derive(Clone, Debug)]
pub struct RequireAuth(pub AuthIdentity);

/// The user of a browser session and the session's cookie.
#[derive(Clone, Debug)]
pub struct RequireSession(pub User, pub String);

/// What came of trying the session cookie.
#[derive(Clone, Debug)]
pub enum SessionAttempt {
    /// The request carries no session cookie.
    NoCookie,
    /// The session is good; `user` is `None` where its user could not be loaded.
    Active { user: Option<User>, cookie_value: String },
    /// The session has run out.
    Expired { cookie_value: String },
    /// No such session.
    Missing,
    /// The lookup failed.
    Failed,
}

/// What came of trying the bearer token.
#[derive(Clone, Debug)]
pub enum TokenAttempt {
    /// The request carries no bearer token.
    NoToken,
    /// The token is good; `user` is `None` where its user could not be loaded.
    Active { token: ApiTokenRow, user: Option<User> },
    /// No such token, or it has run out.
    Invalid,
    /// The lookup failed.
    Failed,
}

/// How to go on once the session cookie was tried.
#[derive(Clone, Debug)]
pub enum AfterSession {
    /// The request has this identity; the last use of its session and of its user
    /// are to be noted.
    Identified { identity: AuthIdentity },
    /// The bearer token is to be tried; `destroy` is the cookie of a session that
    /// has run out and is to be removed.
    TryToken { destroy: Option<String> },
}

/// The identity that a good session gives.
pub open spec fn session_identity(attempt: SessionAttempt) -> Option<AuthIdentity> {
    match attempt {
        SessionAttempt::Active { user: Some(u), cookie_value } => Some(
            AuthIdentity::Session { user: u, cookie_value },
        ),
        _ => None,
    }
}

/// The identity that the bearer token gives.
pub open spec fn token_identity(attempt: TokenAttempt) -> AuthIdentity {
    match attempt {
        TokenAttempt::Active { token, user: Some(u) } => AuthIdentity::ApiToken { token, user: u },
        _ => AuthIdentity::Anonymous,
    }
}

/// How to go on once the session cookie was tried: a good session with a user
/// settles it, anything else leaves it to the bearer token.
pub fn after_session(attempt: SessionAttempt) -> (r: AfterSession)
    ensures
        match session_identity(attempt) {
            Some(identity) => r == (AfterSession::Identified { identity }),
            None => r == (AfterSession::TryToken {
                destroy: match attempt {
                    SessionAttempt::Expired { cookie_value } => Some(cookie_value),
                    _ => None,
                },
            }),
        },
{
    match attempt {
        SessionAttempt::Active { user, cookie_value } => match user {
            Some(u) => AfterSession::Identified {
                identity: AuthIdentity::Session { user: u, cookie_value },
            },
            None => AfterSession::TryToken { destroy: None },
        },
        SessionAttempt::Expired { cookie_value } => AfterSession::TryToken {
            destroy: Some(cookie_value),
        },
        SessionAttempt::NoCookie => AfterSession::TryToken { destroy: None },
        SessionAttempt::Missing => AfterSession::TryToken { destroy: None },
        SessionAttempt::Failed => AfterSession::TryToken { destroy: None },
    }
}

/// The identity that the bearer token gives: nobody unless it is good and its
/// user was loaded.
pub fn after_token(attempt: TokenAttempt) -> (r: AuthIdentity)
    ensures
        r == token_identity(attempt),
{
    match attempt {
        TokenAttempt::Active { token, user } => match user {
            Some(u) => AuthIdentity::ApiToken { token, user: u },
            None => AuthIdentity::Anonymous,
        },
        TokenAttempt::NoToken => AuthIdentity::Anonymous,
        TokenAttempt::Invalid => AuthIdentity::Anonymous,
        TokenAttempt::Failed => AuthIdentity::Anonymous,
    }
}

/// The identity of a request: by its session cookie first, then by its bearer
/// token, else nobody.
pub fn resolve_identity(session: SessionAttempt, token: TokenAttempt) -> (r: AuthIdentity)
    ensures
        r == match session_identity(session) {
            Some(identity) => identity,
            None => token_identity(token),
        },
{
    match after_session(session) {
        AfterSession::Identified { identity } => identity,
        AfterSession::TryToken { .. } => after_token(token),
    }
}

/// Lets a request through where someone is behind it.
pub fn require_auth(identity: AuthIdentity) -> (r: Result<RequireAuth, Rejection>)
    ensures
        match r {
            Ok(ok) => !(identity is Anonymous) && ok.0 == identity,
            Err(e) => identity is Anonymous && e.status == 401 && e.message@
                == "authentication required"@,
        },
{
    if identity.is_authenticated() {
        Ok(RequireAuth(identity))
    } else {
        Err(Rejection { status: 401, message: "authentication required" })
    }
}

/// Lets a request through where a browser session is behind it: an API token
/// cannot manage browser sessions.
pub fn require_session(identity: AuthIdentity) -> (r: Result<RequireSession, Rejection>)
    ensures
        match r {
            Ok(ok) => identity == (AuthIdentity::Session { user: ok.0, cookie_value: ok.1 }),
            Err(e) => {
                &&& !(identity is Session)
                &&& e.status == 401
                &&& e.message@ == if identity is ApiToken {
                    "browser session required; API tokens are not accepted here"@
                } else {
                    "authentication required"@
                }
            },
        },
{
    match identity {
        AuthIdentity::Session { user, cookie_value } => Ok(RequireSession(user, cookie_value)),
        AuthIdentity::ApiToken { .. } => Err(
            Rejection {
                status: 401,
                message: "browser session required; API tokens are not accepted here",
            },
        ),
        AuthIdentity::Anonymous => Err(
            Rejection { status: 401, message: "authentication required" },
        ),
    }
}

/// Whether the guard of one handler lets a change through: a browser session has
/// to carry the `X-Requested-With` header, which no other site can make a browser
/// send.
pub open spec fn csrf_safe(identity: AuthIdentity, has_requested_with: bool) -> bool {
    !(identity is Session) || has_requested_with
}

/// The guard of one handler against forged changes.
pub fn csrf_guard(identity: &AuthIdentity, has_requested_with: bool) -> (r: Result<(), Rejection>)
    ensures
        match r {
            Ok(_) => csrf_safe(*identity, has_requested_with),
            Err(e) => !csrf_safe(*identity, has_requested_with) && e.status == 403 && e.message@
                == "CSRF check failed: missing X-Requested-With header"@,
        },
{
    if identity.is_api_token() || !identity.is_authenticated() {
        return Ok(());
    }
    if has_requested_with {
        Ok(())
    } else {
        Err(
            Rejection {
                status: 403,
                message: "CSRF check failed: missing X-Requested-With header",
            },
        )
    }
}

/// Whether a method changes things.
pub open spec fn changes_things(method: Seq<char>) -> bool {
    method == "POST"@ || method == "PATCH"@ || method == "DELETE"@ || method == "PUT"@
}

/// The guard of all handlers against forged changes: a change has to carry either
/// the `X-Requested-With` header or an `Authorization` header.
pub fn csrf_guard_middleware(
    method: &str,
    has_requested_with: bool,
    has_authorization: bool,
) -> (r: Result<(), Rejection>)
    ensures
        match r {
            Ok(_) => !changes_things(method@) || has_requested_with || has_authorization,
            Err(e) => changes_things(method@) && !has_requested_with && !has_authorization
                && e.status == 403 && e.message@ == "CSRF check failed"@,
        },
{
    let changes = same_text(method, "POST") || same_text(method, "PATCH") || same_text(
        method,
        "DELETE",
    ) || same_text(method, "PUT");
    if !changes || has_requested_with || has_authorization {
        Ok(())
    } else {
        Err(Rejection { status: 403, message: "CSRF check failed" })
    }
}

/// Whether a request may reach the management API: only with someone behind it.
pub fn require_auth_middleware(identity: &AuthIdentity) -> (r: Result<(), Rejection>)
    ensures
        match r {
            Ok(_) => !(identity is Anonymous),
            Err(e) => identity is Anonymous && e.status == 401 && e.message@
                == "authentication required"@,
        },
{
    if identity.is_authenticated() {
        Ok(())
    } else {
        Err(Rejection { status: 401, message: "authentication required" })
    }
}

/// A good session decides whatever the token says, and a request with neither a
/// good session nor a good token is nobody's.
pub proof fn law_sessions_come_first(session: SessionAttempt, token: TokenAttempt)
    ensures
        session_identity(session) matches Some(identity) ==> identity is Session,
        token_identity(token) is Session ==> false,
        !(session is Active) && !(token is Active) ==> session_identity(session) is None
            && token_identity(token) is Anonymous,
{
}

/// A request that carries an API token, and one from nobody, is never refused as
/// forged; one from a session is refused exactly without the header.
pub proof fn law_forgery_concerns_sessions_alone(identity: AuthIdentity, has_requested_with: bool)
    ensures
        identity is ApiToken ==> csrf_safe(identity, has_requested_with),
        identity is Anonymous ==> csrf_safe(identity, has_requested_with),
        identity is Session ==> (csrf_safe(identity, has_requested_with) <==> has_requested_with),
{
}

} // verus!
