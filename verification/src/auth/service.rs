//! Sessions, sign-in links and API tokens: what makes one good, and when it ends.

use vstd::prelude::*;
use vstd::string::*;

use crate::auth::identity::{ApiTokenRow, User};
use crate::codec::{form_encode, hash_cookie_value, Id};
use crate::domain::copy_text;
use crate::error::{bad_request, conflict, not_found, AppError, ErrorReply};
use crate::text::{
    owned, same_text, starts_with_text, trim_end_slashes,
};
use crate::time::{Moment, DAY, MINUTE, SECOND};

verus! {

/// How many characters of a token are stored in the clear, to find it by.
pub const DEFAULT_PREFIX_LEN: usize = 16;

/// How many seconds have to pass before a use is noted again.
pub const TOUCH_DEBOUNCE_SECS: i64 = 60;

/// How sessions are kept.
#[derive(Clone, Debug)]
pub struct SessionConfig {
    pub cookie_name: String,
    pub cookie_secure: bool,
    pub cookie_domain: String,
    pub idle_timeout_days: u32,
    pub absolute_timeout_days: u32,
}

/// How sign-in links are sent.
#[derive(Clone, Debug)]
pub struct MagicLinkConfig {
    pub enabled: bool,
    pub expiry_minutes: u32,
}

/// How people sign in.
#[derive(Clone, Debug)]
pub struct AuthConfig {
    pub public_base_url: String,
    pub session: SessionConfig,
    pub magic_link: MagicLinkConfig,
}

/// A stored session. The cookie itself is not stored, only its hash.
#[derive(Clone, Debug)]
pub struct SessionRow {
    pub id_hash: String,
    pub user_id: Id,
    pub created_at: Moment,
    pub last_used_at: Moment,
    pub expires_at: Moment,
    pub ip_hash: Option<String>,
    pub user_agent_hash: Option<String>,
}

/// A session as its owner sees it in the list of theirs.
#[derive(Clone, Debug)]
pub struct SessionInfo {
    pub id_hash: String,
    pub created_at: Moment,
    pub last_used_at: Moment,
    pub expires_at: Moment,
    pub ip_hash: Option<String>,
    pub user_agent_hash: Option<String>,
    pub is_current: bool,
}

/// What looking a session up came to.
#[derive(Clone, Debug)]
pub enum SessionLookupOutcome {
    Active(SessionRow),
    Expired,
    Missing,
}

/// What looking an API token up came to.
#[derive(Clone, Debug)]
pub enum ApiTokenLookupOutcome {
    Active(ApiTokenRow),
    Invalid,
}

/// An API token without its hash.
#[derive(Clone, Debug)]
pub struct ApiTokenInfo {
    pub id: Id,
    pub name: String,
    pub prefix: String,
    pub expires_at: Option<Moment>,
    pub last_used_at: Option<Moment>,
    pub created_at: Moment,
}

/// An account to be made.
#[derive(Clone, Debug)]
pub struct NewUser {
    pub email: String,
    pub display_name: Option<String>,
    pub email_verified: bool,
}

/// A session to be made, and the cookie that stands for it.
#[derive(Clone, Debug)]
pub struct NewSession {
    pub user_id: Id,
    pub id_hash: String,
    pub cookie_value: String,
    pub expires_at: Moment,
}

/// A mail with a sign-in link.
#[derive(Clone, Debug)]
pub struct MagicLinkMail {
    pub to: String,
    pub to_name: String,
    pub url: String,
    pub expires_in_minutes: u32,
    pub ip_hint: Option<String>,
}

/// A sign-in link to be stored, and the mail to be sent where the address is
/// known.
#[derive(Clone, Debug)]
pub struct MagicLinkPlan {
    pub email: String,
    pub prefix: String,
    pub expires_at: Moment,
    pub ip_hint: Option<String>,
    pub redirect_after: Option<String>,
    pub mail: Option<MagicLinkMail>,
}

/// How the use of a sign-in link ends.
#[derive(Clone, Debug)]
pub enum MagicLinkOutcome {
    /// The owner of this address signs in.
    SignIn { email: String },
    /// Nobody signs in.
    Refused,
}

/// Whether a session is past its absolute or its idle limit at `now`.
pub open spec fn session_over(row: SessionRow, idle_timeout_days: u32, now: Moment) -> bool {
    now > row.expires_at || now > row.last_used_at + idle_timeout_days * DAY
}

/// Whether a use at `now` is noted, where the last one that was noted is `last`.
pub open spec fn is_noted(last: Moment, now: Moment) -> bool {
    now - last >= TOUCH_DEBOUNCE_SECS * SECOND
}

/// Whether a use at `now` is noted, where the last one that was noted is `last`.
fn note_use(last: Moment, now: Moment) -> (r: bool)
    requires
        crate::time::on_calendar(last as int),
        crate::time::on_calendar(now as int),
    ensures
        r == is_noted(last, now),
{
    now - last >= (TOUCH_DEBOUNCE_SECS as i128) * SECOND
}

/// `info` is `row` as its owner sees it.
pub open spec fn is_session_info(info: SessionInfo, row: SessionRow, current: Option<Seq<char>>) -> bool {
    &&& info.id_hash == row.id_hash
    &&& info.created_at == row.created_at
    &&& info.last_used_at == row.last_used_at
    &&& info.expires_at == row.expires_at
    &&& info.ip_hash == row.ip_hash
    &&& info.user_agent_hash == row.user_agent_hash
    &&& info.is_current == (current == Some(row.id_hash@))
}

/// The hash that a cookie's session is stored under.
pub open spec fn cookie_hash(cookie: Seq<char>) -> Seq<char> {
    crate::codec::sha256_text(vstd::utf8::encode_utf8(cookie))
}

/// Whether token `i` is good: it has not run out, and the raw token belongs to it.
pub open spec fn token_good(rows: Seq<ApiTokenRow>, verified: Seq<bool>, now: Moment, i: int) -> bool {
    &&& 0 <= i < rows.len()
    &&& (rows[i].expires_at matches Some(e) ==> now <= e)
    &&& verified[i]
}

/// `r` is the first good token of `rows`, where there is one.
pub open spec fn is_token_lookup(
    rows: Seq<ApiTokenRow>,
    verified: Seq<bool>,
    now: Moment,
    r: ApiTokenLookupOutcome,
) -> bool {
    match r {
        ApiTokenLookupOutcome::Active(row) => exists|i: int|
            {
                &&& #[trigger] token_good(rows, verified, now, i)
                &&& row == rows[i]
                &&& forall|j: int| 0 <= j < i ==> !#[trigger] token_good(rows, verified, now, j)
            },
        ApiTokenLookupOutcome::Invalid => forall|i: int|
            !#[trigger] token_good(rows, verified, now, i),
    }
}

/// `info` is `row` without its hash.
pub open spec fn is_token_info(info: ApiTokenInfo, row: ApiTokenRow) -> bool {
    &&& info.id == row.id
    &&& info.name == row.name
    &&& info.prefix == row.prefix
    &&& info.expires_at == row.expires_at
    &&& info.last_used_at == row.last_used_at
    &&& info.created_at == row.created_at
}

/// The service behind the sign-in endpoints: its rules, given what the store said.
#[derive(Clone, Debug)]
pub struct AuthService {
    pub config: AuthConfig,
}

impl AuthService {
    /// A service with this configuration.
    pub fn new(config: AuthConfig) -> (r: AuthService)
        ensures
            r.config == config,
    {
        AuthService { config }
    }

    /// Whether the first account is still to be made.
    pub fn bootstrap_needed(&self, user_count: u64) -> (r: bool)
        ensures
            r == (user_count == 0),
    {
        user_count == 0
    }

    /// The first account, for whoever asks while there is none. `claimed` says
    /// whether this caller is the only one at it; `user_count` is what the store
    /// said once that was so. `email` is the address in the form in which it is stored.
    pub fn create_first_user(
        &self,
        claimed: bool,
        user_count: Result<u64, AppError>,
        email: String,
        display_name: Option<String>,
    ) -> (r: Result<NewUser, AppError>)
        ensures
            !claimed ==> (r matches Err(e) && crate::error::is_conflict(
                e,
                "BOOTSTRAP_IN_PROGRESS"@,
                "bootstrap is already in progress; retry shortly"@,
            )),
            claimed ==> match user_count {
                Err(e) => r == Err::<NewUser, AppError>(e),
                Ok(n) => if n != 0 {
                    r matches Err(e) && crate::error::is_conflict(
                        e,
                        "BOOTSTRAP_DONE"@,
                        "the first user has already been created; use the login flow instead"@,
                    )
                } else {
                    r matches Ok(u) && u.email == email && u.display_name == display_name && u.email_verified
                },
            },
    {
        if !claimed {
            return Err(
                conflict(
                    "BOOTSTRAP_IN_PROGRESS",
                    owned("bootstrap is already in progress; retry shortly"),
                ),
            );
        }
        match user_count {
            Err(e) => Err(e),
            Ok(n) => {
                if !self.bootstrap_needed(n) {
                    return Err(
                        conflict(
                            "BOOTSTRAP_DONE",
                            owned(
                                "the first user has already been created; use the login flow instead",
                            ),
                        ),
                    );
                }
                Ok(NewUser { email, display_name, email_verified: true })
            },
        }
    }

    /// The address of a sign-in link.
    pub open spec fn magic_link_url(&self, token: Seq<char>) -> Seq<char> {
        crate::text::without_trailing_slashes(self.config.public_base_url@)
            + "/auth/magic-link/verify?token="@ + token
    }

    /// The address of a sign-in link.
    pub fn build_magic_link_url(&self, raw_token: &str) -> (r: String)
        ensures
            r@ == self.magic_link_url(raw_token@),
    {
        let mut url = trim_end_slashes(self.config.public_base_url.as_str());
        url.append("/auth/magic-link/verify?token=");
        url.append(raw_token);
        url
    }

    /// What a request for a sign-in link comes to at `now`. A link is stored
    /// whether or not the address is known, so that the answer gives nothing away;
    /// it is sent only to a known one. `email` is the address in the form in which it
    /// is stored, and `prefix` the part of the token that is stored in the clear.
    pub fn request_magic_link(
        &self,
        email: String,
        raw_token: &str,
        prefix: String,
        user: Option<&User>,
        ip_hint: Option<String>,
        redirect_after: Option<String>,
        now: Moment,
    ) -> (r: MagicLinkPlan)
        requires
            crate::time::on_calendar(now as int),
            crate::time::on_calendar(now + self.config.magic_link.expiry_minutes * MINUTE),
        ensures
            r.email == email,
            r.prefix == prefix,
            r.expires_at == now + self.config.magic_link.expiry_minutes * MINUTE,
            r.ip_hint == ip_hint,
            r.redirect_after == redirect_after,
            r.mail is Some <==> user is Some,
            r.mail matches Some(m) ==> {
                &&& m.to == user->0.email
                &&& m.to_name == match user->0.display_name {
                    Some(n) => n,
                    None => user->0.email,
                }
                &&& m.url@ == self.magic_link_url(raw_token@)
                &&& m.expires_in_minutes == self.config.magic_link.expiry_minutes
                &&& m.ip_hint == ip_hint
            },
    {
        let minutes: u32 = self.config.magic_link.expiry_minutes;
        let mail = match user {
            Some(u) => Some(
                MagicLinkMail {
                    to: u.email.clone(),
                    to_name: match &u.display_name {
                        Some(n) => n.clone(),
                        None => u.email.clone(),
                    },
                    url: self.build_magic_link_url(raw_token),
                    expires_in_minutes: minutes,
                    ip_hint: copy_text(&ip_hint),
                },
            ),
            None => None,
        };
        MagicLinkPlan {
            email,
            prefix,
            expires_at: now + (minutes as i128) * MINUTE,
            ip_hint,
            redirect_after,
            mail,
        }
    }

    /// The stored link that a raw token belongs to: the first of those with its
    /// prefix that the token was found to belong to. No other is tried after it.
    pub fn verify_magic_link(&self, verified: &Vec<bool>) -> (r: Option<usize>)
        ensures
            match r {
                Some(i) => i < verified@.len() && verified@[i as int] && forall|j: int|
                    0 <= j < i ==> !verified@[j],
                None => forall|j: int| 0 <= j < verified@.len() ==> !verified@[j],
            },
            r is None ==> !verified@.contains(true),
    {
        let mut i: usize = 0;
        while i < verified.len()
            invariant
                i <= verified.len(),
                forall|j: int| 0 <= j < i ==> !verified@[j],
            decreases verified.len() - i,
        {
            if verified[i] {
                return Some(i);
            }
            i += 1;
        }
        None
    }

    /// How the use of a sign-in link ends. `consumed` is what using up the stored link
    /// gave, where the token belongs to one: the address it was sent to, or nothing
    /// where it was used up before or has run out. No other link is tried then.
    pub fn after_magic_link(&self, consumed: Option<Result<Option<String>, AppError>>) -> (r:
        Result<MagicLinkOutcome, AppError>)
        ensures
            r == match consumed {
                None => Ok::<MagicLinkOutcome, AppError>(MagicLinkOutcome::Refused),
                Some(Ok(None)) => Ok(MagicLinkOutcome::Refused),
                Some(Ok(Some(email))) => Ok(MagicLinkOutcome::SignIn { email }),
                Some(Err(e)) => Err(e),
            },
    {
        match consumed {
            None => Ok(MagicLinkOutcome::Refused),
            Some(Ok(None)) => Ok(MagicLinkOutcome::Refused),
            Some(Ok(Some(email))) => Ok(MagicLinkOutcome::SignIn { email }),
            Some(Err(e)) => Err(e),
        }
    }

    /// The account to be made for the owner of a used link, where there is none
    /// yet: they have just shown that the address is theirs.
    pub fn user_for_link(&self, email: &str, known: bool) -> (r: Option<NewUser>)
        ensures
            known ==> r is None,
            !known ==> (r matches Some(u) && u.email@ == email@ && u.display_name is None
                && u.email_verified),
    {
        if known {
            None
        } else {
            Some(NewUser { email: owned(email), display_name: None, email_verified: true })
        }
    }

    /// A session for `user_id` that starts at `now`, under the cookie
    /// `cookie_value`.
    pub fn create_session_for(&self, user_id: Id, cookie_value: String, now: Moment) -> (r:
        NewSession)
        requires
            crate::time::on_calendar(now as int),
            crate::time::on_calendar(now + self.config.session.absolute_timeout_days * DAY),
        ensures
            r.user_id == user_id,
            r.cookie_value == cookie_value,
            r.id_hash@ == cookie_hash(cookie_value@),
            r.expires_at == now + self.config.session.absolute_timeout_days * DAY,
    {
        NewSession {
            user_id,
            id_hash: hash_cookie_value(cookie_value.as_str()),
            cookie_value,
            expires_at: now + (self.config.session.absolute_timeout_days as i128) * DAY,
        }
    }

    /// What a session that was looked up is worth at `now`: nothing past its
    /// absolute limit, or when it has lain idle for too long.
    pub fn lookup_session(&self, found: Option<SessionRow>, now: Moment) -> (r:
        SessionLookupOutcome)
        requires
            found matches Some(row) ==> crate::time::on_calendar(
                row.last_used_at + self.config.session.idle_timeout_days * DAY,
            ) && crate::time::on_calendar(row.last_used_at as int),
        ensures
            r == match found {
                None => SessionLookupOutcome::Missing,
                Some(row) => if session_over(row, self.config.session.idle_timeout_days, now) {
                    SessionLookupOutcome::Expired
                } else {
                    SessionLookupOutcome::Active(row)
                },
            },
    {
        match found {
            None => SessionLookupOutcome::Missing,
            Some(row) => {
                if now > row.expires_at {
                    return SessionLookupOutcome::Expired;
                }
                let idle: i128 = (self.config.session.idle_timeout_days as i128) * DAY;
                if now > row.last_used_at + idle {
                    return SessionLookupOutcome::Expired;
                }
                SessionLookupOutcome::Active(row)
            },
        }
    }

    /// Whether the use of a session at `now` is noted: not within a minute of the
    /// last one.
    pub fn touch_session(&self, last_used_at: Moment, now: Moment) -> (r: bool)
        requires
            crate::time::on_calendar(last_used_at as int),
            crate::time::on_calendar(now as int),
        ensures
            r == is_noted(last_used_at, now),
    {
        note_use(last_used_at, now)
    }

    /// Whether the visit of a user at `now` is noted.
    pub fn touch_user(&self, last_seen_at: Option<Moment>, now: Moment) -> (r: bool)
        requires
            last_seen_at matches Some(t) ==> crate::time::on_calendar(t as int),
            crate::time::on_calendar(now as int),
        ensures
            r == match last_seen_at {
                Some(t) => is_noted(t, now),
                None => true,
            },
    {
        match last_seen_at {
            Some(t) => note_use(t, now),
            None => true,
        }
    }

    /// Whether the use of a token at `now` is noted.
    pub fn touch_api_token(&self, last_used_at: Option<Moment>, now: Moment) -> (r: bool)
        requires
            last_used_at matches Some(t) ==> crate::time::on_calendar(t as int),
            crate::time::on_calendar(now as int),
        ensures
            r == match last_used_at {
                Some(t) => is_noted(t, now),
                None => true,
            },
    {
        match last_used_at {
            Some(t) => note_use(t, now),
            None => true,
        }
    }

    /// The hash that the session of a cookie is removed by.
    pub fn destroy_session(&self, cookie_value: &str) -> (r: String)
        ensures
            r@ == cookie_hash(cookie_value@),
    {
        hash_cookie_value(cookie_value)
    }

    /// The sessions of a user as they see them, with the one that the request came
    /// with marked.
    pub fn list_sessions(&self, rows: Vec<SessionRow>, current_cookie: Option<&str>) -> (out: Vec<
        SessionInfo,
    >)
        ensures
            out@.len() == rows@.len(),
            forall|i: int|
                #![trigger out@[i]]
                0 <= i < out@.len() ==> is_session_info(
                    out@[i],
                    rows@[i],
                    match current_cookie {
                        Some(c) => Some(cookie_hash(c@)),
                        None => None,
                    },
                ),
    {
        let current = match current_cookie {
            Some(c) => Some(hash_cookie_value(c)),
            None => None,
        };
        self.mark_sessions(rows, &current)
    }

    /// The sessions of a user as they see them, with the one of this hash marked.
    pub fn mark_sessions(&self, rows: Vec<SessionRow>, current: &Option<String>) -> (out: Vec<
        SessionInfo,
    >)
        ensures
            out@.len() == rows@.len(),
            forall|i: int|
                #![trigger out@[i]]
                0 <= i < out@.len() ==> is_session_info(
                    out@[i],
                    rows@[i],
                    match *current {
                        Some(c) => Some(c@),
                        None => None,
                    },
                ),
    {
        let ghost mark = match current {
            Some(c) => Some(c@),
            None => None,
        };
        let ghost all = rows@;
        let mut rest = rows;
        let mut out: Vec<SessionInfo> = Vec::new();
        while rest.len() > 0
            invariant
                out@.len() + rest@.len() == all.len(),
                rest@ == all.skip(out@.len() as int),
                match *current {
                    Some(c) => mark == Some(c@),
                    None => mark is None,
                },
                forall|i: int|
                    #![trigger out@[i]]
                    0 <= i < out@.len() ==> is_session_info(out@[i], all[i], mark),
            decreases rest.len(),
        {
            let ghost n = out@.len() as int;
            let row = rest.remove(0);
            assert(row == all[n]);
            let is_current = match current {
                Some(c) => same_text(c.as_str(), row.id_hash.as_str()),
                None => false,
            };
            out.push(
                SessionInfo {
                    id_hash: row.id_hash,
                    created_at: row.created_at,
                    last_used_at: row.last_used_at,
                    expires_at: row.expires_at,
                    ip_hash: row.ip_hash,
                    user_agent_hash: row.user_agent_hash,
                    is_current,
                },
            );
            assert(rest@ =~= all.skip(n + 1));
        }
        out
    }

    /// Whether a session may be revoked: it has to be one of the user's own, and
    /// not the one that the request came with.
    pub fn revoke_session(&self, own: &Vec<SessionInfo>, id_hash: &str) -> (r: Result<
        (),
        AppError,
    >)
        ensures
            match r {
                Ok(_) => (exists|i: int|
                    0 <= i < own@.len() && (#[trigger] own@[i]).id_hash@ == id_hash@) && forall|
                    i: int,
                |
                    0 <= i < own@.len() && (#[trigger] own@[i]).id_hash@ == id_hash@
                        ==> !own@[i].is_current,
                Err(e) => {
                    ||| crate::error::is_not_found(
                        e,
                        "SESSION_NOT_FOUND"@,
                        "no active session with that id_hash for the current user"@,
                    ) && forall|i: int|
                        0 <= i < own@.len() ==> (#[trigger] own@[i]).id_hash@ != id_hash@
                    ||| crate::error::is_bad_request(
                        e,
                        "CURRENT_SESSION"@,
                        "the current session cannot revoke itself; log out instead"@,
                    ) && exists|i: int|
                        0 <= i < own@.len() && (#[trigger] own@[i]).id_hash@ == id_hash@
                            && own@[i].is_current
                },
            },
    {
        let mut found = false;
        let mut i: usize = 0;
        while i < own.len()
            invariant
                i <= own.len(),
                found <==> exists|j: int|
                    0 <= j < i && (#[trigger] own@[j]).id_hash@ == id_hash@,
                forall|j: int|
                    0 <= j < i && (#[trigger] own@[j]).id_hash@ == id_hash@ ==> !own@[j].is_current,
            decreases own.len() - i,
        {
            if same_text(own[i].id_hash.as_str(), id_hash) {
                if own[i].is_current {
                    return Err(
                        bad_request(
                            "CURRENT_SESSION",
                            owned("the current session cannot revoke itself; log out instead"),
                        ),
                    );
                }
                found = true;
            }
            i += 1;
        }
        if found {
            Ok(())
        } else {
            Err(
                not_found(
                    "SESSION_NOT_FOUND",
                    owned("no active session with that id_hash for the current user"),
                ),
            )
        }
    }

    /// Whether a raw token can be one of ours at all: it has to start with our
    /// mark. Any other is refused without looking further.
    pub fn may_be_api_token(&self, raw: &str, mark: &str) -> (r: bool)
        ensures
            r == crate::text::begins_with(raw@, mark@),
    {
        starts_with_text(raw, mark)
    }

    /// The stored token that a raw token belongs to at `now`: the first of those
    /// with its prefix that has not run out and that it was found to belong to.
    pub fn lookup_api_token(&self, rows: Vec<ApiTokenRow>, verified: &Vec<bool>, now: Moment) -> (r:
        ApiTokenLookupOutcome)
        requires
            rows@.len() == verified@.len(),
        ensures
            is_token_lookup(rows@, verified@, now, r),
    {
        let mut left = rows;
        let ghost all = left@;
        let mut i: usize = 0;
        let mut found = false;
        while i < left.len() && !found
            invariant
                i <= left.len(),
                left@ == all,
                left@.len() == verified@.len(),
                forall|j: int| 0 <= j < i ==> !#[trigger] token_good(all, verified@, now, j),
                found ==> token_good(all, verified@, now, i as int),
            decreases left.len() - i + (if found {
                0int
            } else {
                1
            }),
        {
            let over = match left[i].expires_at {
                Some(e) => now > e,
                None => false,
            };
            if !over && verified[i] {
                found = true;
            } else {
                i += 1;
            }
        }
        if found {
            assert(token_good(rows@, verified@, now, i as int));
            ApiTokenLookupOutcome::Active(left.remove(i))
        } else {
            ApiTokenLookupOutcome::Invalid
        }
    }

    /// The row of a new token: what is kept of the token itself is its hash and the
    /// part of it that may be shown, `prefix`.
    pub fn create_api_token(
        &self,
        user_id: Id,
        name: String,
        expires_at: Option<Moment>,
        prefix: String,
        token_hash: String,
        id: Id,
        now: Moment,
    ) -> (r: ApiTokenRow)
        ensures
            r.id == id,
            r.user_id == user_id,
            r.name == name,
            r.token_hash == token_hash,
            r.prefix == prefix,
            r.expires_at == expires_at,
            r.last_used_at is None,
            r.created_at == now,
    {
        ApiTokenRow {
            id,
            user_id,
            name,
            token_hash,
            prefix,
            expires_at,
            last_used_at: None,
            created_at: now,
        }
    }

    /// The tokens of a user, without their hashes.
    pub fn list_api_tokens(&self, rows: Vec<ApiTokenRow>) -> (out: Vec<ApiTokenInfo>)
        ensures
            out@.len() == rows@.len(),
            forall|i: int|
                #![trigger out@[i]]
                0 <= i < out@.len() ==> is_token_info(out@[i], rows@[i]),
    {
        let ghost all = rows@;
        let mut rest = rows;
        let mut out: Vec<ApiTokenInfo> = Vec::new();
        while rest.len() > 0
            invariant
                out@.len() + rest@.len() == all.len(),
                rest@ == all.skip(out@.len() as int),
                forall|i: int|
                    #![trigger out@[i]]
                    0 <= i < out@.len() ==> is_token_info(out@[i], all[i]),
            decreases rest.len(),
        {
            let ghost n = out@.len() as int;
            let row = rest.remove(0);
            assert(row == all[n]);
            out.push(
                ApiTokenInfo {
                    id: row.id,
                    name: row.name,
                    prefix: row.prefix,
                    expires_at: row.expires_at,
                    last_used_at: row.last_used_at,
                    created_at: row.created_at,
                },
            );
            assert(rest@ =~= all.skip(n + 1));
        }
        out
    }

    /// The name of the session cookie.
    pub fn session_cookie_name(&self) -> (r: &str)
        ensures
            r@ == self.config.session.cookie_name@,
    {
        self.config.session.cookie_name.as_str()
    }

    /// Whether the session cookie is for secure connections only.
    pub fn session_cookie_secure(&self) -> (r: bool)
        ensures
            r == self.config.session.cookie_secure,
    {
        self.config.session.cookie_secure
    }

    /// The domain of the session cookie; empty for the host alone.
    pub fn session_cookie_domain(&self) -> (r: &str)
        ensures
            r@ == self.config.session.cookie_domain@,
    {
        self.config.session.cookie_domain.as_str()
    }

    /// Whether sign-in links are sent at all.
    pub fn magic_link_enabled(&self) -> (r: bool)
        ensures
            r == self.config.magic_link.enabled,
    {
        self.config.magic_link.enabled
    }
}

/// One token of a user's own.
pub fn get_token(tokens: Vec<ApiTokenInfo>, id: Id) -> (r: Result<ApiTokenInfo, AppError>)
    ensures
        match r {
            Ok(t) => exists|i: int|
                {
                    &&& 0 <= i < tokens@.len()
                    &&& t == #[trigger] tokens@[i]
                    &&& t.id == id
                    &&& forall|j: int| 0 <= j < i ==> (#[trigger] tokens@[j]).id != id
                },
            Err(e) => (forall|i: int|
                0 <= i < tokens@.len() ==> (#[trigger] tokens@[i]).id != id)
                && crate::error::is_not_found(
                e,
                "TOKEN_NOT_FOUND"@,
                "no API token with that id for the current user"@,
            ),
        },
{
    let mut left = tokens;
    let ghost all = left@;
    let mut i: usize = 0;
    while i < left.len() && left[i].id != id
        invariant
            i <= left.len(),
            left@ == all,
            forall|j: int| 0 <= j < i ==> (#[trigger] all[j]).id != id,
        decreases left.len() - i,
    {
        i += 1;
    }
    if i < left.len() {
        let t = left.remove(i);
        assert(t == tokens@[i as int]);
        return Ok(t);
    }
    Err(
        not_found("TOKEN_NOT_FOUND", owned("no API token with that id for the current user")),
    )
}

/// What users may change of themselves; an outer `None` leaves a member as it is.
#[derive(Clone, Debug)]
pub struct UserUpdate {
    pub display_name: Option<Option<String>>,
    pub theme: Option<String>,
    pub time_format: Option<String>,
}

/// A user with what `update` says changed, at `now`.
pub open spec fn updated_user(u: User, update: UserUpdate, now: Moment) -> User {
    User {
        display_name: match update.display_name {
            Some(v) => v,
            None => u.display_name,
        },
        theme: match update.theme {
            Some(v) => v,
            None => u.theme,
        },
        time_format: match update.time_format {
            Some(v) => v,
            None => u.time_format,
        },
        updated_at: now,
        ..u
    }
}

/// Changes what users may change of themselves.
pub fn update_me(user: User, update: UserUpdate, now: Moment) -> (r: User)
    ensures
        r == updated_user(user, update, now),
{
    let mut u = user;
    if let Some(v) = update.display_name {
        u.display_name = v;
    }
    if let Some(v) = update.theme {
        u.theme = v;
    }
    if let Some(v) = update.time_format {
        u.time_format = v;
    }
    u.updated_at = now;
    u
}

/// Users can change neither who they are nor where they are written to.
pub proof fn law_users_stay_who_they_are(u: User, update: UserUpdate, now: Moment)
    ensures
        updated_user(u, update, now).id == u.id,
        updated_user(u, update, now).email == u.email,
        updated_user(u, update, now).created_at == u.created_at,
{
}

/// Gives a token another name. Nothing else of it can be changed.
pub fn rename_token(token: ApiTokenRow, name: String) -> (r: ApiTokenRow)
    ensures
        r == (ApiTokenRow { name, ..token }),
{
    let mut t = token;
    t.name = name;
    t
}

/// The answer to a sign-in link that is wrong, has run out or was used.
pub fn magic_link_refusal() -> (r: ErrorReply)
    ensures
        r.status == 401,
        r.code@ == "MAGIC_LINK_INVALID"@,
        r.message@ == "magic-link token is invalid, expired, or already used"@,
        r.details is None,
{
    ErrorReply {
        status: 401,
        code: "MAGIC_LINK_INVALID",
        message: owned("magic-link token is invalid, expired, or already used"),
        details: None,
    }
}

/// How sign-in through another provider is set up.
#[derive(Clone, Debug)]
pub struct OidcConfig {
    pub enabled: bool,
    pub issuer_url: String,
    pub client_id: String,
    pub redirect_url: String,
    pub scopes: String,
}

/// What a request to sign in through another provider comes to.
#[derive(Clone, Debug)]
pub enum OidcLogin {
    /// 501: it is not set up.
    NotConfigured,
    /// A temporary redirect to this address.
    Redirect { url: String },
}

/// The address at the provider.
pub open spec fn oidc_url(oidc: OidcConfig) -> Seq<char> {
    crate::text::without_trailing_slashes(oidc.issuer_url@)
        + "/protocol/openid-connect/auth?client_id="@ + crate::codec::form_text(
        vstd::utf8::encode_utf8(oidc.client_id@),
    ) + "&redirect_uri="@ + crate::codec::form_text(vstd::utf8::encode_utf8(oidc.redirect_url@))
        + "&scope="@ + crate::codec::form_text(vstd::utf8::encode_utf8(oidc.scopes@))
        + "&response_type=code&state=random"@
}

/// What a request to sign in through another provider comes to.
pub fn oidc_login(oidc: &OidcConfig) -> (r: OidcLogin)
    requires
        vstd::utf8::encode_utf8(oidc.client_id@).len() < usize::MAX / 8,
        vstd::utf8::encode_utf8(oidc.redirect_url@).len() < usize::MAX / 8,
        vstd::utf8::encode_utf8(oidc.scopes@).len() < usize::MAX / 8,
    ensures
        !oidc.enabled ==> r is NotConfigured,
        oidc.enabled ==> (r matches OidcLogin::Redirect { url } && url@ == oidc_url(*oidc)),
{
    if !oidc.enabled {
        return OidcLogin::NotConfigured;
    }
    let mut url = trim_end_slashes(oidc.issuer_url.as_str());
    url.append("/protocol/openid-connect/auth?client_id=");
    url.append(form_encode(oidc.client_id.as_str().as_bytes()).as_str());
    url.append("&redirect_uri=");
    url.append(form_encode(oidc.redirect_url.as_str().as_bytes()).as_str());
    url.append("&scope=");
    url.append(form_encode(oidc.scopes.as_str().as_bytes()).as_str());
    url.append("&response_type=code&state=random");
    OidcLogin::Redirect { url }
}

/// A session that was just opened is good until the first of its limits, and never
/// after either.
pub proof fn law_sessions_end(row: SessionRow, idle_timeout_days: u32, now: Moment, later: Moment)
    requires
        now <= later,
        session_over(row, idle_timeout_days, now),
    ensures
        session_over(row, idle_timeout_days, later),
{
}

/// The value of a cookie names the session that was opened with it: it is what the
/// session is found and ended by.
pub proof fn law_a_cookie_names_its_session(
    service: &AuthService,
    user_id: Id,
    cookie_value: String,
    sent: &str,
    now: Moment,
    opened: NewSession,
    ended: String,
)
    requires
        sent@ == cookie_value@,
        call_ensures(
            AuthService::create_session_for,
            (service, user_id, cookie_value, now),
            opened,
        ),
        call_ensures(AuthService::destroy_session, (service, sent), ended),
    ensures
        opened.cookie_value == cookie_value,
        opened.id_hash@ == cookie_hash(sent@),
        ended@ == opened.id_hash@,
{
}

/// A token that was made is found again: where it alone is found to match, it is good
/// until it runs out, and never after.
pub proof fn law_a_token_is_good_until_it_runs_out(
    rows: Seq<ApiTokenRow>,
    verified: Seq<bool>,
    k: int,
    now: Moment,
    r: ApiTokenLookupOutcome,
)
    requires
        rows.len() == verified.len(),
        0 <= k < rows.len(),
        forall|i: int| 0 <= i < verified.len() ==> (#[trigger] verified[i] <==> i == k),
        is_token_lookup(rows, verified, now, r),
    ensures
        match rows[k].expires_at {
            Some(e) => if now <= e {
                r == ApiTokenLookupOutcome::Active(rows[k])
            } else {
                r is Invalid
            },
            None => r == ApiTokenLookupOutcome::Active(rows[k]),
        },
{
    assert(verified[k]);
    assert(rows[k].expires_at matches Some(e) && now > e || token_good(rows, verified, now, k));
    match r {
        ApiTokenLookupOutcome::Active(row) => {
            let i = choose|i: int|
                {
                    &&& #[trigger] token_good(rows, verified, now, i)
                    &&& row == rows[i]
                    &&& forall|j: int| 0 <= j < i ==> !#[trigger] token_good(rows, verified, now, j)
                };
            assert(verified[i]);
        },
        ApiTokenLookupOutcome::Invalid => {
            assert(!token_good(rows, verified, now, k));
        },
    }
}

/// Uses that are noted lie at least a minute apart.
pub proof fn law_notes_lie_apart(last: Moment, now: Moment)
    requires
        is_noted(last, now),
    ensures
        now - last >= 60 * SECOND,
        !is_noted(now, now),
{
}

} // verus!
