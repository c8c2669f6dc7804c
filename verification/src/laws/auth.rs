//! Who a request comes from, and how long it may.

use vstd::prelude::*;
use vstd::string::*;

use crate::auth::cookies::{
    basic_credentials, build_session_cookie, clear_session_cookie, client_ip,
    extract_bearer_token, extract_session_cookie, BasicCredentials,
};
use crate::auth::identity::{
    after_session, csrf_guard, csrf_guard_middleware, resolve_identity, AfterSession, ApiTokenRow,
    AuthIdentity, Rejection, SessionAttempt, TokenAttempt, User,
};
use crate::auth::service::{
    oidc_login, update_me, ApiTokenInfo, ApiTokenLookupOutcome, AuthService, MagicLinkPlan,
    NewSession, OidcConfig, OidcLogin, SessionInfo, SessionLookupOutcome, SessionRow, UserUpdate,
};
use crate::codec::Id;
use crate::time::Moment;

verus! {

/// A session is good exactly as long as neither its end has passed nor more than the
/// idle limit has gone by since its last use.
pub proof fn law_a_session_is_good_within_both_limits(
    service: &AuthService,
    found: Option<SessionRow>,
    now: Moment,
    r: SessionLookupOutcome,
)
    requires
        call_ensures(AuthService::lookup_session, (service, found, now), r),
    ensures
        r is Missing <==> found is None,
        found matches Some(row) ==> {
            let idle = service.config.session.idle_timeout_days * (86_400 * 1_000_000_000);
            let good = now <= row.expires_at && now - row.last_used_at <= idle;
            &&& good ==> r == SessionLookupOutcome::Active(row)
            &&& !good ==> r is Expired
        },
{
}

/// A new session ends after the configured days, is found by the digest of its cookie, and
/// belongs to its user.
pub proof fn law_a_new_session_lasts_for_its_days(
    service: &AuthService,
    user_id: Id,
    cookie_value: String,
    now: Moment,
    r: NewSession,
)
    requires
        call_ensures(AuthService::create_session_for, (service, user_id, cookie_value, now), r),
    ensures
        r.expires_at - now == service.config.session.absolute_timeout_days * (86_400
            * 1_000_000_000),
        r.user_id == user_id,
        r.cookie_value == cookie_value,
        r.id_hash@ == crate::codec::hex_text(
            crate::codec::sha256(vstd::utf8::encode_utf8(cookie_value@)),
        ),
{
}

/// A use is noted where none was before, or where at least 60 seconds have gone by.
pub proof fn law_uses_are_noted_a_minute_apart(
    service: &AuthService,
    last: Moment,
    now: Moment,
    session: bool,
    user: bool,
    first_user: bool,
    token: bool,
    first_token: bool,
)
    requires
        call_ensures(AuthService::touch_session, (service, last, now), session),
        call_ensures(AuthService::touch_user, (service, Some(last), now), user),
        call_ensures(AuthService::touch_user, (service, None, now), first_user),
        call_ensures(AuthService::touch_api_token, (service, Some(last), now), token),
        call_ensures(AuthService::touch_api_token, (service, None, now), first_token),
    ensures
        session <==> now - last >= 60 * 1_000_000_000,
        user == session,
        token == session,
        first_user,
        first_token,
{
}

/// Users see all of their sessions as they are, and the one they came with marked: the
/// one that is stored under the digest of their cookie.
pub proof fn law_sessions_are_listed_as_they_are(
    service: &AuthService,
    rows: Vec<SessionRow>,
    cookie: &str,
    out: Vec<SessionInfo>,
    i: int,
)
    requires
        call_ensures(AuthService::list_sessions, (service, rows, Some(cookie)), out),
        0 <= i < rows@.len(),
    ensures
        out@.len() == rows@.len(),
        out@[i].id_hash == rows@[i].id_hash,
        out@[i].created_at == rows@[i].created_at,
        out@[i].last_used_at == rows@[i].last_used_at,
        out@[i].expires_at == rows@[i].expires_at,
        out@[i].ip_hash == rows@[i].ip_hash,
        out@[i].user_agent_hash == rows@[i].user_agent_hash,
        out@[i].is_current <==> rows@[i].id_hash@ == crate::codec::hex_text(
            crate::codec::sha256(vstd::utf8::encode_utf8(cookie@)),
        ),
{
    assert(crate::auth::service::is_session_info(
        out@[i],
        rows@[i],
        Some(crate::auth::service::cookie_hash(cookie@)),
    ));
}

/// A token stands for the first stored one that it matches and that has not run out by
/// then; without any it is worth nothing.
pub proof fn law_a_token_stands_for_the_first_good_match(
    service: &AuthService,
    rows: Vec<ApiTokenRow>,
    verified: &Vec<bool>,
    now: Moment,
    r: ApiTokenLookupOutcome,
)
    requires
        rows@.len() == verified@.len(),
        call_ensures(AuthService::lookup_api_token, (service, rows, verified, now), r),
    ensures
        match r {
            ApiTokenLookupOutcome::Active(row) => exists|i: int|
                {
                    &&& 0 <= i < rows@.len()
                    &&& #[trigger] rows@[i] == row
                    &&& verified@[i]
                    &&& row.expires_at is None || now <= row.expires_at->0
                    &&& forall|j: int|
                        0 <= j < i && verified@[j] ==> (#[trigger] rows@[j]).expires_at is Some
                            && rows@[j].expires_at->0 < now
                },
            ApiTokenLookupOutcome::Invalid => forall|j: int|
                0 <= j < rows@.len() && verified@[j] ==> (#[trigger] rows@[j]).expires_at is Some
                    && rows@[j].expires_at->0 < now,
        },
{
    match r {
        ApiTokenLookupOutcome::Active(row) => {
            let i = choose|i: int|
                {
                    &&& #[trigger] crate::auth::service::token_good(rows@, verified@, now, i)
                    &&& row == rows@[i]
                    &&& forall|j: int|
                        0 <= j < i ==> !#[trigger] crate::auth::service::token_good(
                            rows@,
                            verified@,
                            now,
                            j,
                        )
                };
            assert(rows@[i] == row);
            assert forall|j: int| 0 <= j < i && verified@[j] implies (
            #[trigger] rows@[j]).expires_at is Some && rows@[j].expires_at->0 < now by {
                assert(!crate::auth::service::token_good(rows@, verified@, now, j));
            }
        },
        ApiTokenLookupOutcome::Invalid => {
            assert forall|j: int| 0 <= j < rows@.len() && verified@[j] implies (
            #[trigger] rows@[j]).expires_at is Some && rows@[j].expires_at->0 < now by {
                assert(!crate::auth::service::token_good(rows@, verified@, now, j));
            }
        },
    }
}

/// Tokens are listed as they are, without their hashes.
pub proof fn law_tokens_are_listed_as_they_are(
    service: &AuthService,
    rows: Vec<ApiTokenRow>,
    out: Vec<ApiTokenInfo>,
    i: int,
)
    requires
        call_ensures(AuthService::list_api_tokens, (service, rows), out),
        0 <= i < rows@.len(),
    ensures
        out@.len() == rows@.len(),
        out@[i].id == rows@[i].id,
        out@[i].name == rows@[i].name,
        out@[i].prefix == rows@[i].prefix,
        out@[i].expires_at == rows@[i].expires_at,
        out@[i].last_used_at == rows@[i].last_used_at,
        out@[i].created_at == rows@[i].created_at,
{
    assert(crate::auth::service::is_token_info(out@[i], rows@[i]));
}

/// A sign-in link runs out after the configured minutes, and is mailed exactly where the
/// address is known: to the user, by name where they have one, and with its own token at
/// its end.
pub proof fn law_sign_in_links_are_mailed_to_known_users(
    service: &AuthService,
    email: String,
    raw_token: &str,
    prefix: String,
    user: Option<&User>,
    ip_hint: Option<String>,
    redirect_after: Option<String>,
    now: Moment,
    r: MagicLinkPlan,
)
    requires
        call_ensures(
            AuthService::request_magic_link,
            (service, email, raw_token, prefix, user, ip_hint, redirect_after, now),
            r,
        ),
    ensures
        r.expires_at - now == service.config.magic_link.expiry_minutes * (60 * 1_000_000_000),
        r.email == email,
        r.prefix == prefix,
        r.mail is Some <==> user is Some,
        r.mail matches Some(mail) ==> {
            &&& mail.to == user->0.email
            &&& user->0.display_name is Some ==> user->0.display_name == Some(mail.to_name)
            &&& user->0.display_name is None ==> mail.to_name == user->0.email
            &&& mail.expires_in_minutes == service.config.magic_link.expiry_minutes
            &&& mail.url@ == crate::text::without_trailing_slashes(
                service.config.public_base_url@,
            ) + "/auth/magic-link/verify?token="@ + raw_token@
        },
{
}

/// A request comes from the session that its cookie names, where that is good and its user
/// is known; else from the user of its token, where that is; else from nobody.
pub proof fn law_a_request_comes_from_its_session_or_its_token(
    session: SessionAttempt,
    token: TokenAttempt,
    r: AuthIdentity,
)
    requires
        call_ensures(resolve_identity, (session, token), r),
    ensures
        ({
            let by_session = session matches SessionAttempt::Active { user: Some(_), .. };
            let by_token = token matches TokenAttempt::Active { user: Some(_), .. };
            &&& r is Session <==> by_session
            &&& r is ApiToken <==> !by_session && by_token
            &&& r is Anonymous <==> !by_session && !by_token
            &&& r matches AuthIdentity::Session { user, cookie_value } ==> session
                == (SessionAttempt::Active { user: Some(user), cookie_value })
            &&& r matches AuthIdentity::ApiToken { token: t, user } ==> token
                == (TokenAttempt::Active { token: t, user: Some(user) })
        }),
{
}

/// A session that has run out is removed, and no other; and only a good session with a
/// known user spares a look at the token.
pub proof fn law_expired_sessions_are_removed(session: SessionAttempt, r: AfterSession)
    requires
        call_ensures(after_session, (session,), r),
    ensures
        r is Identified <==> session matches SessionAttempt::Active { user: Some(_), .. },
        r matches AfterSession::TryToken { destroy } ==> match destroy {
            Some(cookie) => session == (SessionAttempt::Expired { cookie_value: cookie }),
            None => !(session is Expired),
        },
{
}

/// A browser session may change things only with the header that no other site can send;
/// everybody else is let through here.
pub proof fn law_sessions_need_the_header_to_change_things(
    identity: &AuthIdentity,
    has_header: bool,
    r: Result<(), Rejection>,
)
    requires
        call_ensures(csrf_guard, (identity, has_header), r),
    ensures
        r is Err <==> identity is Session && !has_header,
        r matches Err(e) ==> e.status == 403,
{
}

/// Before anybody is known, a request that changes things needs that header or an
/// authorization; one that does not is let through.
pub proof fn law_changes_need_a_header(
    method: &str,
    has_header: bool,
    has_authorization: bool,
    r: Result<(), Rejection>,
)
    requires
        call_ensures(csrf_guard_middleware, (method, has_header, has_authorization), r),
    ensures
        has_header || has_authorization ==> r is Ok,
        method@ == "GET"@ || method@ == "HEAD"@ || method@ == "OPTIONS"@ ==> r is Ok,
        !has_header && !has_authorization && (method@ == "POST"@ || method@ == "PUT"@ || method@
            == "PATCH"@ || method@ == "DELETE"@) ==> (r matches Err(e) && e.status == 403),
{
    reveal_strlit("GET");
    reveal_strlit("HEAD");
    reveal_strlit("OPTIONS");
    reveal_strlit("POST");
    reveal_strlit("PUT");
    reveal_strlit("PATCH");
    reveal_strlit("DELETE");
    if method@ == "GET"@ {
        assert(method@[0] == 'G');
        assert("POST"@[0] == 'P' && "PUT"@[0] == 'P' && "PATCH"@[0] == 'P' && "DELETE"@[0] == 'D');
    }
    if method@ == "HEAD"@ {
        assert(method@[0] == 'H');
        assert("POST"@[0] == 'P' && "PUT"@[0] == 'P' && "PATCH"@[0] == 'P' && "DELETE"@[0] == 'D');
    }
    if method@ == "OPTIONS"@ {
        assert(method@[0] == 'O');
        assert("POST"@[0] == 'P' && "PUT"@[0] == 'P' && "PATCH"@[0] == 'P' && "DELETE"@[0] == 'D');
    }
}

/// Users change their name, theme and time format, each only where they ask for it, and
/// nothing else.
pub proof fn law_users_change_what_they_ask_for(
    user: User,
    update: UserUpdate,
    now: Moment,
    r: User,
)
    requires
        call_ensures(update_me, (user, update, now), r),
    ensures
        update.display_name is None ==> r.display_name == user.display_name,
        update.display_name is Some ==> r.display_name == update.display_name->0,
        update.theme is None ==> r.theme == user.theme,
        update.theme is Some ==> Some(r.theme) == update.theme,
        update.time_format is None ==> r.time_format == user.time_format,
        update.time_format is Some ==> Some(r.time_format) == update.time_format,
        r.updated_at == now,
        r.id == user.id,
        r.email == user.email,
        r.email_verified_at == user.email_verified_at,
        r.last_seen_at == user.last_seen_at,
        r.created_at == user.created_at,
{
}

/// The header that opens a session names the cookie and its value, hides it from scripts
/// and from other sites, and keeps it for 90 days; the one that ends it empties it at once.
/// Both mark it as secure and name a domain exactly where that is asked for.
pub proof fn law_session_cookies_are_guarded(
    name: &str,
    value: &str,
    secure: bool,
    domain: &str,
    opened: String,
    ended: String,
)
    requires
        call_ensures(build_session_cookie, (name, value, secure, domain), opened),
        call_ensures(clear_session_cookie, (name, secure, domain), ended),
    ensures
        ({
            let tail = (if secure {
                "; Secure"@
            } else {
                Seq::<char>::empty()
            }) + (if domain@.len() == 0 {
                Seq::<char>::empty()
            } else {
                "; Domain="@ + domain@
            });
            &&& opened@ == name@ + "="@ + value@
                + "; Path=/; HttpOnly; SameSite=Lax; Max-Age=7776000"@ + tail
            &&& ended@ == name@ + "=; Path=/; HttpOnly; SameSite=Lax; Max-Age=0"@ + tail
        }),
        7_776_000 == 90 * 24 * 60 * 60,
{
    let t = crate::auth::cookies::cookie_tail(secure, domain@);
    let tail = (if secure {
        "; Secure"@
    } else {
        Seq::<char>::empty()
    }) + (if domain@.len() == 0 {
        Seq::<char>::empty()
    } else {
        "; Domain="@ + domain@
    });
    assert(t =~= tail);
}

/// A bearer token is what follows the word, without the blanks around it.
pub proof fn law_a_bearer_token_is_read(header: &[u8], token: Seq<char>, r: Option<String>)
    requires
        call_ensures(extract_bearer_token, (Some(header),), r),
        crate::codec::text_of_header(Some(header)) == Some("Bearer "@ + token),
        token.len() > 0,
        crate::text::trimmed(token) == token,
    ensures
        r matches Some(t) && t@ == token,
{
    let text = "Bearer "@ + token;
    assert(text.skip("Bearer "@.len() as int) =~= token);
    assert(text.subrange(0, "Bearer "@.len() as int) =~= "Bearer "@);
}

/// No header, or one that cannot be read, carries no credentials of any sort.
pub proof fn law_nothing_is_read_without_a_header(
    name: &str,
    cookie: Option<String>,
    token: Option<String>,
    basic: Option<BasicCredentials>,
    ip: Option<String>,
)
    requires
        call_ensures(extract_session_cookie, (None, name), cookie),
        call_ensures(extract_bearer_token, (None,), token),
        call_ensures(basic_credentials, (None,), basic),
        call_ensures(client_ip, (None, None), ip),
    ensures
        cookie is None,
        token is None,
        basic is None,
        ip is None,
{
}

/// A cookie is found wherever it stands among others that have other names.
pub proof fn law_a_session_cookie_is_found_behind_others(
    header: &[u8],
    other: Seq<char>,
    name: &str,
    value: Seq<char>,
    r: Option<String>,
)
    requires
        call_ensures(extract_session_cookie, (Some(header), name), r),
        crate::codec::text_of_header(Some(header)) == Some(other + ";"@ + name@ + "="@ + value),
        forall|i: int| 0 <= i < other.len() ==> other[i] != ';' && other[i] != '=',
        crate::auth::cookies::is_bare(name@),
        crate::auth::cookies::is_bare(value),
        forall|i: int| 0 <= i < name@.len() ==> name@[i] != '=',
    ensures
        r matches Some(v) && v@ == value,
{
    reveal_strlit(";");
    reveal_strlit("=");
    let n = name@;
    let pair = n + "="@ + value;
    let text = other + ";"@ + n + "="@ + value;
    assert(text[other.len() as int] == ';');
    crate::text::lemma_first_index_is(text, ';', other.len() as int);
    assert(text.skip((other.len() + 1) as int) =~= pair);
    crate::auth::cookies::law_cookies_are_read_back(n, value);
    let all = crate::text::pieces(text, ';');
    let rest = crate::text::pieces(pair, ';');
    assert(text.take(other.len() as int) =~= other);
    assert(all =~= seq![other] + rest);
    assert(all.drop_first() =~= rest);
    let p = crate::text::trimmed(other);
    lemma_trimmed_within(other);
    crate::text::lemma_first_index(p, '=');
    let k = crate::text::first_index(p, '=');
    if k < p.len() {
        assert(p[k] == '=');
    }
    assert(crate::auth::cookies::pair_value(other, n) is None);
    assert(crate::auth::cookies::first_value(all, n) == crate::auth::cookies::first_value(rest, n));
}

/// What is left of a trimmed text was there before.
proof fn lemma_trimmed_within(s: Seq<char>)
    ensures
        forall|i: int|
            0 <= i < crate::text::trimmed(s).len() ==> s.contains(#[trigger] crate::text::trimmed(
                s,
            )[i]),
{
    lemma_leading_within(s);
    let t = crate::text::without_leading_space(s);
    lemma_trailing_within(t);
    assert forall|i: int| 0 <= i < crate::text::trimmed(s).len() implies s.contains(
        #[trigger] crate::text::trimmed(s)[i],
    ) by {
        assert(t.contains(crate::text::trimmed(s)[i]));
        let j = choose|j: int| 0 <= j < t.len() && t[j] == crate::text::trimmed(s)[i];
        assert(s.contains(t[j]));
    }
}

/// What is left without leading space was there before.
proof fn lemma_leading_within(s: Seq<char>)
    ensures
        forall|i: int|
            0 <= i < crate::text::without_leading_space(s).len() ==> s.contains(
                #[trigger] crate::text::without_leading_space(s)[i],
            ),
    decreases s.len(),
{
    if s.len() > 0 && crate::text::is_space(s[0]) {
        let rest = s.drop_first();
        lemma_leading_within(rest);
        assert forall|i: int|
            0 <= i < crate::text::without_leading_space(s).len() implies s.contains(
            #[trigger] crate::text::without_leading_space(s)[i],
        ) by {
            let c = crate::text::without_leading_space(s)[i];
            assert(rest.contains(crate::text::without_leading_space(rest)[i]));
            let j = choose|j: int| 0 <= j < rest.len() && rest[j] == c;
            assert(s[j + 1] == c);
        }
    }
}

/// What is left without trailing space was there before.
proof fn lemma_trailing_within(s: Seq<char>)
    ensures
        forall|i: int|
            0 <= i < crate::text::without_trailing_space(s).len() ==> s.contains(
                #[trigger] crate::text::without_trailing_space(s)[i],
            ),
    decreases s.len(),
{
    if s.len() > 0 && crate::text::is_space(s.last()) {
        let rest = s.drop_last();
        lemma_trailing_within(rest);
        assert forall|i: int|
            0 <= i < crate::text::without_trailing_space(s).len() implies s.contains(
            #[trigger] crate::text::without_trailing_space(s)[i],
        ) by {
            let c = crate::text::without_trailing_space(s)[i];
            assert(rest.contains(crate::text::without_trailing_space(rest)[i]));
            let j = choose|j: int| 0 <= j < rest.len() && rest[j] == c;
            assert(s[j] == c);
        }
    }
}

/// Signing in elsewhere is offered exactly where it is set up, and leads to the provider
/// with the client, the way back and the scopes, each encoded.
pub proof fn law_sign_in_elsewhere_leads_to_the_provider(
    oidc: &OidcConfig,
    issuer: Seq<char>,
    r: OidcLogin,
)
    requires
        call_ensures(oidc_login, (oidc,), r),
        issuer == crate::text::without_trailing_slashes(oidc.issuer_url@),
    ensures
        r is NotConfigured <==> !oidc.enabled,
        r matches OidcLogin::Redirect { url } ==> url@ == issuer
            + "/protocol/openid-connect/auth?client_id="@ + crate::codec::form_text(
            vstd::utf8::encode_utf8(oidc.client_id@),
        ) + "&redirect_uri="@ + crate::codec::form_text(
            vstd::utf8::encode_utf8(oidc.redirect_url@),
        ) + "&scope="@ + crate::codec::form_text(vstd::utf8::encode_utf8(oidc.scopes@))
            + "&response_type=code&state=random"@,
{
}

} // verus!
