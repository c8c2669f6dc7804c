use statuspage::auth::cookies::{
    basic_auth_middleware, basic_credentials, build_session_cookie, clear_session_cookie,
    client_ip, extract_bearer_token, extract_session_cookie, split_credentials, BasicAuth,
};
use statuspage::auth::identity::{
    csrf_guard, csrf_guard_middleware, require_auth, require_session, resolve_identity,
    ApiTokenRow, AuthIdentity, SessionAttempt, TokenAttempt, User,
};
use statuspage::auth::service::{
    get_token,
    magic_link_refusal,
    oidc_login,
    rename_token,
    update_me,
    ApiTokenLookupOutcome,
    AuthConfig,
    AuthService,
    MagicLinkConfig,
    MagicLinkOutcome,
    OidcConfig,
    OidcLogin,
    SessionConfig,
    SessionLookupOutcome,
    SessionRow,
    UserUpdate,
};
use statuspage::error::{ApiError, AppError};
use statuspage::time::{Moment, DAY, MINUTE, SECOND};

const NOW: Moment = 1_785_067_200 * SECOND;
const ABC: &str = "ba7816bf8f01cfea414140de5dae2223b00361a396177a9cb410ff61f20015ad";

fn failure<T>(r: Result<T, AppError>) -> (u16, String) {
    match r {
        Ok(_) => panic!("an error was expected"),
        Err(e) => {
            let r = ApiError(e).into_response();
            (r.status, r.code.to_string())
        }
    }
}

fn service() -> AuthService {
    AuthService::new(AuthConfig {
        public_base_url: "https://s.example.com/".to_string(),
        session: SessionConfig {
            cookie_name: "sid".to_string(),
            cookie_secure: true,
            cookie_domain: "example.com".to_string(),
            idle_timeout_days: 7,
            absolute_timeout_days: 90,
        },
        magic_link: MagicLinkConfig { enabled: true, expiry_minutes: 15 },
    })
}

fn user(id: u128) -> User {
    User {
        id,
        email: "a@b.c".to_string(),
        display_name: None,
        email_verified_at: None,
        last_seen_at: None,
        theme: "dark".to_string(),
        time_format: "24h".to_string(),
        created_at: NOW,
        updated_at: NOW,
    }
}

fn token(id: u128, expires_at: Option<Moment>) -> ApiTokenRow {
    ApiTokenRow {
        id,
        user_id: 1,
        name: "t".to_string(),
        token_hash: "secret".to_string(),
        prefix: "p".to_string(),
        expires_at,
        last_used_at: None,
        created_at: NOW,
    }
}

fn session(hash: &str, last_used_at: Moment, expires_at: Moment) -> SessionRow {
    SessionRow {
        id_hash: hash.to_string(),
        user_id: 1,
        created_at: NOW,
        last_used_at,
        expires_at,
        ip_hash: None,
        user_agent_hash: None,
    }
}

#[test]
fn cookies_are_read_back() {
    let header = build_session_cookie("sid", "abc", true, "example.com");
    assert_eq!(
        header,
        "sid=abc; Path=/; HttpOnly; SameSite=Lax; Max-Age=7776000; Secure; Domain=example.com"
    );
    assert_eq!(extract_session_cookie(Some(b"a=1; sid=abc; b=2"), "sid").as_deref(), Some("abc"));
    assert_eq!(extract_session_cookie(Some(b"a=1"), "sid"), None);
    assert_eq!(extract_session_cookie(Some(b"sid=\xe9"), "sid"), None);
    assert_eq!(extract_session_cookie(None, "sid"), None);
    assert_eq!(extract_session_cookie(Some(header.as_bytes()), "sid").as_deref(), Some("abc"));
    assert_eq!(
        clear_session_cookie("sid", false, ""),
        "sid=; Path=/; HttpOnly; SameSite=Lax; Max-Age=0"
    );
}

#[test]
fn bearer_tokens_are_read() {
    assert_eq!(extract_bearer_token(Some(b"Bearer  x ")), Some("x".to_string()));
    assert_eq!(extract_bearer_token(Some(b"Bearer ")), None);
    assert_eq!(extract_bearer_token(Some(b"Basic x")), None);
    assert_eq!(extract_bearer_token(Some(b"Bearer \xe9")), None);
    assert_eq!(extract_bearer_token(None), None);
}

#[test]
fn basic_credentials_are_read_and_held_against_the_configured_ones() {
    let c = basic_credentials(Some(b"Basic dXNlcjpwYTpzcw==")).unwrap();
    assert_eq!(c.username, "user");
    assert_eq!(c.password, "pa:ss");
    assert!(basic_credentials(Some(b"Basic !!!")).is_none());
    assert!(basic_credentials(Some(b"Basic dXNlcg==")).is_none());
    assert!(basic_credentials(Some(b"Bearer dXNlcjpwYXNz")).is_none());
    let lossy = basic_credentials(Some(b"Basic /zpw")).unwrap();
    assert_eq!(lossy.username, "\u{fffd}");
    assert!(split_credentials("no colon").is_none());
    let given = split_credentials("user:pass");
    assert_eq!(basic_auth_middleware(true, "user", &given, true), BasicAuth::Proceed);
    assert_eq!(basic_auth_middleware(true, "user", &given, false), BasicAuth::Challenge);
    assert_eq!(basic_auth_middleware(true, "other", &given, true), BasicAuth::Challenge);
    assert_eq!(basic_auth_middleware(true, "user", &None, true), BasicAuth::Challenge);
    assert_eq!(basic_auth_middleware(false, "user", &None, false), BasicAuth::Proceed);
}

#[test]
fn the_first_stated_address_is_the_clients() {
    assert_eq!(client_ip(Some(b" 1.2.3.4 , 5.6.7.8"), None).as_deref(), Some("1.2.3.4"));
    assert_eq!(client_ip(None, Some(b"9.9.9.9")).as_deref(), Some("9.9.9.9"));
    assert_eq!(client_ip(None, None), None);
    let forwarded: Option<&[u8]> = Some(b"\xff");
    assert_eq!(client_ip(forwarded, Some(b" 9.9.9.9")).as_deref(), Some("9.9.9.9"));
}

#[test]
fn identities_come_from_sessions_before_tokens() {
    let id = resolve_identity(
        SessionAttempt::Active { user: Some(user(1)), cookie_value: "c".to_string() },
        TokenAttempt::Active { token: token(2, None), user: Some(user(2)) },
    );
    assert!(id.is_session());
    assert_eq!(id.user_id(), Some(1));
    let id = resolve_identity(
        SessionAttempt::Missing,
        TokenAttempt::Active { token: token(2, None), user: Some(user(2)) },
    );
    assert!(id.is_api_token());
    assert!(!resolve_identity(SessionAttempt::NoCookie, TokenAttempt::Invalid).is_authenticated());
    assert_eq!(
        failure(AuthIdentity::Anonymous.require_user_id()),
        (500, "AUTH_INVARIANT".to_string())
    );
}

#[test]
fn browsers_have_to_mark_what_they_change() {
    let browser =
        AuthIdentity::Session { user: user(1), cookie_value: "c".to_string() };
    let machine = AuthIdentity::ApiToken { token: token(2, None), user: user(1) };
    assert!(csrf_guard(&browser, true).is_ok());
    assert_eq!(csrf_guard(&browser, false).unwrap_err().status, 403);
    assert!(csrf_guard(&machine, false).is_ok());
    assert!(csrf_guard_middleware("GET", false, false).is_ok());
    assert_eq!(csrf_guard_middleware("POST", false, false).unwrap_err().message, "CSRF check failed");
    assert!(csrf_guard_middleware("DELETE", true, false).is_ok());
    assert!(csrf_guard_middleware("PATCH", false, true).is_ok());
}

#[test]
fn some_things_take_a_browser_session() {
    let machine = AuthIdentity::ApiToken { token: token(2, None), user: user(1) };
    assert_eq!(
        require_session(machine).unwrap_err().message,
        "browser session required; API tokens are not accepted here"
    );
    assert_eq!(require_session(AuthIdentity::Anonymous).unwrap_err().status, 401);
    assert_eq!(
        require_auth(AuthIdentity::Anonymous).unwrap_err().message,
        "authentication required"
    );
    let browser =
        AuthIdentity::Session { user: user(1), cookie_value: "c".to_string() };
    let ok = require_session(browser).unwrap();
    assert_eq!((ok.0.id, ok.1.as_str()), (1, "c"));
}

#[test]
fn the_first_user_is_made_once() {
    let s = service();
    assert!(s.bootstrap_needed(0));
    assert!(!s.bootstrap_needed(1));
    let made = s.create_first_user(true, Ok(0), "admin@example.com".to_string(), None);
    match made {
        Ok(u) => {
            assert_eq!(u.email, "admin@example.com");
            assert!(u.email_verified);
        }
        Err(_) => panic!("the first user is made"),
    }
    assert_eq!(
        failure(s.create_first_user(true, Ok(1), "a".to_string(), None)),
        (409, "BOOTSTRAP_DONE".to_string())
    );
    assert_eq!(
        failure(s.create_first_user(false, Ok(0), "a".to_string(), None)),
        (409, "BOOTSTRAP_IN_PROGRESS".to_string())
    );
}

#[test]
fn links_are_mailed_to_known_users_alone() {
    let s = service();
    let known = s.request_magic_link(
        "a@b.c".to_string(),
        "0123456789abcdefXYZ",
        "0123456789abcdef".to_string(),
        Some(&user(1)),
        None,
        None,
        NOW,
    );
    assert_eq!(known.email, "a@b.c");
    assert_eq!(known.prefix, "0123456789abcdef");
    assert_eq!(known.expires_at, NOW + 15 * MINUTE);
    let mail = known.mail.unwrap();
    assert_eq!(mail.to, "a@b.c");
    assert_eq!(mail.url, s.build_magic_link_url("0123456789abcdefXYZ"));
    assert!(mail.url.starts_with("https://s.example.com/"));
    let unknown = s.request_magic_link("x@y.z".to_string(), "t", "t".to_string(), None, None, None, NOW);
    assert!(unknown.mail.is_none());
    assert_eq!(magic_link_refusal().status, 401);
    assert_eq!(magic_link_refusal().code, "MAGIC_LINK_INVALID");
    assert_eq!(s.verify_magic_link(&vec![false, true, true]), Some(1));
    assert_eq!(s.verify_magic_link(&vec![false]), None);
    match s.after_magic_link(Some(Ok(Some("a@b.c".to_string())))).unwrap() {
        MagicLinkOutcome::SignIn { email } => assert_eq!(email, "a@b.c"),
        MagicLinkOutcome::Refused => panic!("the link was good"),
    }
    let used = s.after_magic_link(Some(Ok(None))).unwrap();
    assert!(matches!(used, MagicLinkOutcome::Refused));
    assert!(matches!(s.after_magic_link(None).unwrap(), MagicLinkOutcome::Refused));
    let broken = s.after_magic_link(Some(Err(AppError::Io("disk".to_string()))));
    assert_eq!(failure(broken).0, 500);
}

#[test]
fn sessions_end_by_age_and_by_disuse() {
    let s = service();
    let fresh = session("h", NOW - DAY, NOW + DAY);
    assert!(matches!(s.lookup_session(Some(fresh), NOW), SessionLookupOutcome::Active(_)));
    let idle = session("h", NOW - 8 * DAY, NOW + DAY);
    assert!(matches!(s.lookup_session(Some(idle), NOW), SessionLookupOutcome::Expired));
    let old = session("h", NOW - MINUTE, NOW - 1);
    assert!(matches!(s.lookup_session(Some(old), NOW), SessionLookupOutcome::Expired));
    assert!(matches!(s.lookup_session(None, NOW), SessionLookupOutcome::Missing));
    let made = s.create_session_for(1, "abc".to_string(), NOW);
    assert_eq!(made.id_hash, ABC);
    assert_eq!(made.expires_at, NOW + 90 * DAY);
    assert!(!s.touch_session(NOW - 30 * SECOND, NOW));
    assert!(s.touch_session(NOW - 61 * SECOND, NOW));
    assert_eq!(s.destroy_session("abc"), ABC);
}

#[test]
fn the_current_session_is_marked_and_cannot_revoke_itself() {
    let s = service();
    let rows = vec![session(ABC, NOW, NOW + DAY), session("other", NOW, NOW + DAY)];
    let own = s.list_sessions(rows, Some("abc"));
    assert!(own[0].is_current);
    assert!(!own[1].is_current);
    assert!(s.revoke_session(&own, "other").is_ok());
    assert_eq!(failure(s.revoke_session(&own, "none")), (404, "SESSION_NOT_FOUND".to_string()));
    assert_eq!(failure(s.revoke_session(&own, ABC)).0, 400);
    let none = s.mark_sessions(vec![session(ABC, NOW, NOW)], &None);
    assert!(!none[0].is_current);
}

#[test]
fn tokens_are_found_while_they_last() {
    let s = service();
    let rows = vec![token(1, Some(NOW - 1)), token(2, None)];
    match s.lookup_api_token(rows, &vec![false, true], NOW) {
        ApiTokenLookupOutcome::Active(t) => assert_eq!(t.id, 2),
        ApiTokenLookupOutcome::Invalid => panic!("the token is good"),
    }
    assert!(matches!(
        s.lookup_api_token(vec![token(1, Some(NOW - 1))], &vec![true], NOW),
        ApiTokenLookupOutcome::Invalid
    ));
    assert!(s.may_be_api_token("sp_abc", "sp_"));
    assert!(!s.may_be_api_token("abc", "sp_"));
    let infos = s.list_api_tokens(vec![token(5, None)]);
    assert_eq!(infos[0].prefix, "p");
    assert_eq!(failure(get_token(infos, 6)), (404, "TOKEN_NOT_FOUND".to_string()));
}

#[test]
fn the_address_of_a_login_elsewhere_is_encoded() {
    let mut oidc = OidcConfig {
        enabled: true,
        issuer_url: "https://id.example.com".to_string(),
        client_id: "a b&c".to_string(),
        redirect_url: "https://s/x?y=ü".to_string(),
        scopes: "openid email".to_string(),
    };
    match oidc_login(&oidc) {
        OidcLogin::Redirect { url } => {
            assert!(url.contains("client_id=a+b%26c"));
            assert!(url.contains("redirect_uri=https%3A%2F%2Fs%2Fx%3Fy%3D%C3%BC"));
            assert!(url.contains("scope=openid+email"));
        }
        OidcLogin::NotConfigured => panic!("it is configured"),
    }
    oidc.enabled = false;
    assert!(matches!(oidc_login(&oidc), OidcLogin::NotConfigured));
}

#[test]
fn users_change_their_preferences_and_not_their_address() {
    let update = UserUpdate {
        display_name: Some(Some("Ann".to_string())),
        theme: None,
        time_format: Some("12h".to_string()),
    };
    let u = update_me(user(4), update, NOW + 5);
    assert_eq!((u.id, u.email.as_str()), (4, "a@b.c"));
    assert_eq!((u.created_at, u.updated_at), (NOW, NOW + 5));
    assert_eq!(u.display_name.as_deref(), Some("Ann"));
    assert_eq!((u.theme.as_str(), u.time_format.as_str()), ("dark", "12h"));
    let cleared = UserUpdate { display_name: Some(None), theme: None, time_format: None };
    assert_eq!(update_me(u, cleared, NOW).display_name, None);
}

#[test]
fn renaming_a_token_keeps_the_rest_of_it() {
    let t = rename_token(token(3, Some(NOW + 9)), "ci".to_string());
    assert_eq!((t.id, t.user_id, t.name.as_str()), (3, 1, "ci"));
    assert_eq!((t.prefix.as_str(), t.token_hash.as_str()), ("p", "secret"));
    assert_eq!((t.expires_at, t.created_at), (Some(NOW + 9), NOW));
    assert!(service().magic_link_enabled());
}

#[test]
fn a_new_token_is_kept_as_its_hash_and_found_by_it() {
    let raw = "spt_0123456789abcdef";
    let made = service().create_api_token(
        5,
        "ci".to_string(),
        Some(NOW + 9),
        raw[..16].to_string(),
        "h".to_string(),
        2,
        NOW,
    );
    assert_eq!((made.id, made.user_id, made.prefix.as_str()), (2, 5, "spt_0123456789ab"));
    assert_eq!((made.token_hash.as_str(), made.last_used_at), ("h", None));
    let rows = vec![token(1, None), made];
    let found = service().lookup_api_token(rows.clone(), &vec![false, true], NOW + 9);
    assert!(matches!(found, ApiTokenLookupOutcome::Active(t) if t.id == 2));
    let late = service().lookup_api_token(rows, &vec![false, true], NOW + 10);
    assert!(matches!(late, ApiTokenLookupOutcome::Invalid));
}
