//! Who is let in, by what, and what is told to those who are not.

use vstd::prelude::*;
use vstd::string::*;

use crate::auth::cookies::{
    basic_auth_middleware, basic_credentials, client_ip, split_credentials, BasicAuth,
    BasicCredentials,
};
use crate::auth::identity::{
    after_token, require_auth, require_auth_middleware, require_session, ApiTokenRow,
    AuthIdentity, Rejection, RequireAuth, RequireSession, TokenAttempt, User,
};
use crate::auth::service::{
    get_token, magic_link_refusal, rename_token, ApiTokenInfo, AuthService, MagicLinkOutcome,
    NewUser, SessionInfo, SessionRow,
};
use crate::codec::Id;
use crate::error::{AppError, ErrorReply};
use crate::time::Moment;

verus! {

/// Sessions and tokens have a user, whose identifier is theirs; nobody else has.
pub proof fn law_sessions_and_tokens_have_a_user(
    identity: &AuthIdentity,
    authenticated: bool,
    session: bool,
    token: bool,
    user: Option<&User>,
    id: Option<Id>,
    owed: Result<&User, AppError>,
    owed_id: Result<Id, AppError>,
)
    requires
        call_ensures(AuthIdentity::is_authenticated, (identity,), authenticated),
        call_ensures(AuthIdentity::is_session, (identity,), session),
        call_ensures(AuthIdentity::is_api_token, (identity,), token),
        call_ensures(AuthIdentity::user, (identity,), user),
        call_ensures(AuthIdentity::user_id, (identity,), id),
        call_ensures(AuthIdentity::require_user, (identity,), owed),
        call_ensures(AuthIdentity::require_user_id, (identity,), owed_id),
    ensures
        authenticated <==> session || token,
        session <==> *identity is Session,
        token <==> *identity is ApiToken,
        *identity matches AuthIdentity::Session { user: u, .. } ==> user matches Some(v) && *v == u
            && id == Some(u.id) && owed is Ok && owed_id == Ok::<Id, AppError>(u.id),
        *identity matches AuthIdentity::ApiToken { user: u, .. } ==> user matches Some(v) && *v
            == u && id == Some(u.id) && owed is Ok && owed_id == Ok::<Id, AppError>(u.id),
        *identity is Anonymous ==> user is None && id is None && owed is Err && owed_id is Err,
{
}

/// A token stands for its user where it is good and the user is known.
pub proof fn law_a_good_token_stands_for_its_user(attempt: TokenAttempt, r: AuthIdentity)
    requires
        call_ensures(after_token, (attempt,), r),
    ensures
        attempt matches TokenAttempt::Active { token, user: Some(u) } ==> r
            == (AuthIdentity::ApiToken { token, user: u }),
        !(attempt is Active) ==> r is Anonymous,
        attempt matches TokenAttempt::Active { user: None, .. } ==> r is Anonymous,
{
}

/// Where somebody has to be known, all but the anonymous pass; where a browser session has
/// to be, only such a session does. The others are told to authenticate.
pub proof fn law_only_the_known_pass(
    identity: AuthIdentity,
    known: Result<RequireAuth, Rejection>,
    session: Result<RequireSession, Rejection>,
    door: Result<(), Rejection>,
)
    requires
        call_ensures(require_auth, (identity,), known),
        call_ensures(require_session, (identity,), session),
        call_ensures(require_auth_middleware, (&identity,), door),
    ensures
        known is Err <==> identity is Anonymous,
        door is Err <==> identity is Anonymous,
        session is Ok <==> identity is Session,
        known matches Ok(k) ==> k.0 == identity,
        session matches Ok(s) ==> identity == (AuthIdentity::Session {
            user: s.0,
            cookie_value: s.1,
        }),
        known matches Err(e) ==> e.status == 401 && e.message@ == "authentication required"@,
        door matches Err(e) ==> e.status == 401 && e.message@ == "authentication required"@,
        session matches Err(e) ==> e.status == 401,
{
}

/// The first user is made once: by whoever holds the claim, while there is none.
pub proof fn law_the_first_user_is_made_once(
    service: &AuthService,
    claimed: bool,
    count: Result<u64, AppError>,
    email: String,
    name: Option<String>,
    r: Result<NewUser, AppError>,
    n: u64,
    needed: bool,
)
    requires
        call_ensures(AuthService::create_first_user, (service, claimed, count, email, name), r),
        call_ensures(AuthService::bootstrap_needed, (service, n), needed),
    ensures
        needed <==> n == 0,
        r is Ok <==> claimed && count == Ok::<u64, AppError>(0),
        r matches Ok(u) ==> u.email == email && u.display_name == name && u.email_verified,
        !claimed ==> (r matches Err(e) && e is Conflict),
        claimed && count is Ok && count->Ok_0 > 0 ==> (r matches Err(e) && e is Conflict),
        claimed && count is Err ==> r is Err && r->Err_0 == count->Err_0,
{
}

/// A sign-in token is the first that matches; it signs in the owner of its address, who is
/// made where nobody has it yet; one that does not match, or was used, is refused.
pub proof fn law_sign_in_tokens_sign_in_their_owner(
    service: &AuthService,
    verified: &Vec<bool>,
    place: Option<usize>,
    k: int,
    consumed: Option<Result<Option<String>, AppError>>,
    r: Result<MagicLinkOutcome, AppError>,
    email: &str,
    known: bool,
    made: Option<NewUser>,
)
    requires
        call_ensures(AuthService::verify_magic_link, (service, verified), place),
        call_ensures(AuthService::after_magic_link, (service, consumed), r),
        call_ensures(AuthService::user_for_link, (service, email, known), made),
    ensures
        place matches Some(i) ==> i < verified@.len() && verified@[i as int],
        place is Some && 0 <= k < place->0 ==> !verified@[k],
        place is None && 0 <= k < verified@.len() ==> !verified@[k],
        consumed is None ==> r == Ok::<MagicLinkOutcome, AppError>(MagicLinkOutcome::Refused),
        consumed is Some && consumed->0 is Ok && consumed->0->Ok_0 is None ==> r
            == Ok::<MagicLinkOutcome, AppError>(MagicLinkOutcome::Refused),
        consumed is Some && consumed->0 is Ok && consumed->0->Ok_0 is Some ==> r
            == Ok::<MagicLinkOutcome, AppError>(
            (MagicLinkOutcome::SignIn { email: consumed->0->Ok_0->0 }),
        ),
        consumed is Some && consumed->0 is Err ==> r is Err,
        made is None <==> known,
        made matches Some(u) ==> u.email@ == email@ && u.email_verified && u.display_name is None,
{
    if place is None && 0 <= k < verified@.len() {
        assert(verified@.contains(verified@[k]));
    }
}

/// Whoever is refused a sign-in learns only that the token is no good.
pub proof fn law_refused_sign_ins_tell_nothing(r: ErrorReply)
    requires
        call_ensures(magic_link_refusal, (), r),
    ensures
        r.status == 401,
        r.code@ == "MAGIC_LINK_INVALID"@,
        r.details is None,
{
}

/// The address of a sign-in link is that of the server, the page and the token.
pub proof fn law_sign_in_links_lead_back(
    service: &AuthService,
    base: &str,
    bare: String,
    token: &str,
    r: String,
)
    requires
        call_ensures(AuthService::build_magic_link_url, (service, token), r),
        base@ == service.config.public_base_url@,
        call_ensures(crate::text::trim_end_slashes, (base,), bare),
    ensures
        r@ == bare@ + "/auth/magic-link/verify?token="@ + token@,
{
}

/// The session that a cookie ends is the one that it is of.
pub proof fn law_a_cookie_ends_its_own_session(service: &AuthService, cookie: &str, r: String)
    requires
        call_ensures(AuthService::destroy_session, (service, cookie), r),
    ensures
        r@ == crate::codec::hex_text(
            crate::codec::sha256(vstd::utf8::encode_utf8(cookie@)),
        ),
{
}

/// The session with the digest given, and no other, is marked as the current one.
pub proof fn law_the_current_session_is_marked(
    service: &AuthService,
    rows: Vec<SessionRow>,
    current: &Option<String>,
    out: Vec<SessionInfo>,
    i: int,
)
    requires
        call_ensures(AuthService::mark_sessions, (service, rows, current), out),
        0 <= i < rows@.len(),
    ensures
        out@.len() == rows@.len(),
        out@[i].id_hash == rows@[i].id_hash,
        out@[i].last_used_at == rows@[i].last_used_at,
        out@[i].expires_at == rows@[i].expires_at,
        out@[i].is_current <==> *current is Some && (*current)->0@ == rows@[i].id_hash@,
{
    assert(out@[i].id_hash == rows@[i].id_hash);
}

/// Users end their own sessions, but not the one that they come with.
pub proof fn law_users_end_their_other_sessions(
    service: &AuthService,
    own: &Vec<SessionInfo>,
    id_hash: &str,
    r: Result<(), AppError>,
    k: int,
)
    requires
        call_ensures(AuthService::revoke_session, (service, own, id_hash), r),
    ensures
        (forall|i: int| 0 <= i < own@.len() ==> (#[trigger] own@[i]).id_hash@ != id_hash@) ==> (
        r matches Err(e) && e is NotFound),
        0 <= k < own@.len() && own@[k].id_hash@ == id_hash@ && own@[k].is_current ==> (
        r matches Err(e) && e is BadRequest),
        0 <= k < own@.len() && own@[k].id_hash@ == id_hash@ && (forall|i: int|
            0 <= i < own@.len() ==> !(#[trigger] own@[i]).is_current) ==> r is Ok,
{
}

/// What starts with the mark may be a token; nothing else may.
pub proof fn law_tokens_bear_their_mark(
    service: &AuthService,
    raw: &str,
    mark: &str,
    starts: bool,
    r: bool,
)
    requires
        call_ensures(AuthService::may_be_api_token, (service, raw, mark), r),
        call_ensures(crate::text::starts_with_text, (raw, mark), starts),
    ensures
        r == starts,
{
}

/// A new token is its owner's, as it was asked for, and was not used yet.
pub proof fn law_new_tokens_are_as_asked_for(
    service: &AuthService,
    user_id: Id,
    name: String,
    expires_at: Option<Moment>,
    prefix: String,
    hash: String,
    id: Id,
    now: Moment,
    r: ApiTokenRow,
    other: String,
    renamed: ApiTokenRow,
)
    requires
        call_ensures(
            AuthService::create_api_token,
            (service, user_id, name, expires_at, prefix, hash, id, now),
            r,
        ),
        call_ensures(rename_token, (r, other), renamed),
    ensures
        r.id == id,
        r.user_id == user_id,
        r.name == name,
        r.token_hash == hash,
        r.prefix == prefix,
        r.expires_at == expires_at,
        r.last_used_at is None,
        r.created_at == now,
        renamed.name == other,
        renamed.id == r.id,
        renamed.user_id == r.user_id,
        renamed.token_hash == r.token_hash,
        renamed.expires_at == r.expires_at,
{
}

/// A token is found by its identifier, and one that is not there is not found.
pub proof fn law_tokens_are_found_by_identifier(
    tokens: Vec<ApiTokenInfo>,
    id: Id,
    r: Result<ApiTokenInfo, AppError>,
    k: int,
)
    requires
        call_ensures(get_token, (tokens, id), r),
    ensures
        0 <= k < tokens@.len() && tokens@[k].id == id && (forall|j: int|
            0 <= j < k ==> (#[trigger] tokens@[j]).id != id) ==> r == Ok::<ApiTokenInfo, AppError>(
            tokens@[k],
        ),
        (forall|j: int| 0 <= j < tokens@.len() ==> (#[trigger] tokens@[j]).id != id) ==> (
        r matches Err(e) && e is NotFound),
{
    if 0 <= k < tokens@.len() && tokens@[k].id == id && (forall|j: int|
        0 <= j < k ==> (#[trigger] tokens@[j]).id != id) {
        if r is Ok {
            let t = r->Ok_0;
            let i = choose|i: int|
                {
                    &&& 0 <= i < tokens@.len()
                    &&& t == #[trigger] tokens@[i]
                    &&& t.id == id
                    &&& forall|j: int| 0 <= j < i ==> (#[trigger] tokens@[j]).id != id
                };
            if i < k {
                assert(tokens@[i].id != id);
            }
            if k < i {
                assert(tokens@[k].id != id);
            }
        }
    }
}

/// What the service is set up with is what it says.
pub proof fn law_settings_are_told_as_they_are(
    service: &AuthService,
    name: &str,
    secure: bool,
    domain: &str,
    enabled: bool,
)
    requires
        call_ensures(AuthService::session_cookie_name, (service,), name),
        call_ensures(AuthService::session_cookie_secure, (service,), secure),
        call_ensures(AuthService::session_cookie_domain, (service,), domain),
        call_ensures(AuthService::magic_link_enabled, (service,), enabled),
    ensures
        name@ == service.config.session.cookie_name@,
        secure == service.config.session.cookie_secure,
        domain@ == service.config.session.cookie_domain@,
        enabled == service.config.magic_link.enabled,
{
}

/// A name and a password are parted at the first colon: what the password holds after it
/// is its own.
pub proof fn law_a_colon_parts_name_and_password(
    name: Seq<char>,
    password: Seq<char>,
    text: &str,
    r: Option<BasicCredentials>,
)
    requires
        call_ensures(split_credentials, (text,), r),
    ensures
        text@ == name + seq![':'] + password && (forall|i: int|
            0 <= i < name.len() ==> name[i] != ':') ==> (r matches Some(c) && c.username@ == name
            && c.password@ == password),
        (forall|i: int| 0 <= i < text@.len() ==> text@[i] != ':') ==> r is None,
{
    reveal_strlit(":");
    if text@ == name + seq![':'] + password && (forall|i: int|
        0 <= i < name.len() ==> name[i] != ':') {
        assert(!name.contains(':'));
        assert(":"@ =~= seq![':']);
        crate::auth::cookies::law_credentials_are_read_back(name, password);
    }
    if forall|i: int| 0 <= i < text@.len() ==> text@[i] != ':' {
        assert(!text@.contains(':'));
    }
}

/// Credentials are read from what stands behind the word, decoded.
pub proof fn law_credentials_are_read_behind_the_word(
    header: &[u8],
    coded: Seq<char>,
    bytes: Seq<u8>,
    text: &str,
    r: Option<BasicCredentials>,
    parted: Option<BasicCredentials>,
)
    requires
        call_ensures(basic_credentials, (Some(header),), r),
        crate::codec::text_of_header(Some(header)) == Some("Basic "@ + coded),
        crate::codec::base64_bytes(coded) == Some(bytes),
        text@ == crate::codec::lossy_text(bytes),
        call_ensures(split_credentials, (text,), parted),
    ensures
        r is Some <==> parted is Some,
        r is Some ==> r->0.username@ == parted->0.username@ && r->0.password@
            == parted->0.password@,
{
    let whole = "Basic "@ + coded;
    assert(whole.skip("Basic "@.len() as int) =~= coded);
    assert(whole.subrange(0, "Basic "@.len() as int) =~= "Basic "@);
}

/// Where a password is asked for, only the right name with the right password passes.
pub proof fn law_only_the_right_name_and_password_pass(
    enabled: bool,
    username: &str,
    given: &Option<BasicCredentials>,
    password_matches: bool,
    r: BasicAuth,
)
    requires
        call_ensures(basic_auth_middleware, (enabled, username, given, password_matches), r),
    ensures
        !enabled ==> r is Proceed,
        enabled && *given is None ==> r is Challenge,
        enabled && !password_matches ==> r is Challenge,
        enabled && *given is Some && (*given)->0.username@ != username@ ==> r is Challenge,
        enabled && *given is Some && (*given)->0.username@ == username@ && password_matches ==> r
            is Proceed,
{
}

/// The address that a request comes from is the first that was forwarded, or else the one
/// that is stated, each trimmed.
pub proof fn law_the_first_forwarded_address_counts(
    forwarded: Option<&[u8]>,
    stated: Option<&[u8]>,
    first: &str,
    bare: String,
    more: Seq<char>,
    r: Option<String>,
)
    requires
        call_ensures(client_ip, (forwarded, stated), r),
        call_ensures(crate::text::trim, (first,), bare),
    ensures
        (forall|i: int| 0 <= i < first@.len() ==> first@[i] != ',') && (
        crate::codec::text_of_header(forwarded) == Some(first@) || crate::codec::text_of_header(
            forwarded,
        ) == Some(first@ + seq![','] + more)) ==> (r matches Some(t) && t@ == bare@),
        crate::codec::text_of_header(forwarded) is None && crate::codec::text_of_header(stated)
            == Some(first@) ==> (r matches Some(t) && t@ == bare@),
        crate::codec::text_of_header(forwarded) is None && crate::codec::text_of_header(stated)
            is None ==> r is None,
{
    let n = first@.len() as int;
    if forall|i: int| 0 <= i < first@.len() ==> first@[i] != ',' {
        if crate::codec::text_of_header(forwarded) == Some(first@) {
            crate::text::lemma_first_index_is(first@, ',', n);
            assert(first@.take(n) =~= first@);
        }
        let whole = first@ + seq![','] + more;
        if crate::codec::text_of_header(forwarded) == Some(whole) {
            assert forall|j: int| 0 <= j < n implies whole[j] != ',' by {
                assert(whole[j] == first@[j]);
            }
            assert(whole[n] == ',');
            crate::text::lemma_first_index_is(whole, ',', n);
            assert(whole.take(n) =~= first@);
        }
    }
}

} // verus!
