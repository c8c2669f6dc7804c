//! Cookies and headers that carry credentials.

use vstd::prelude::*;
use vstd::string::*;

use crate::codec::{base64_decode, read_header, read_lossy};
use crate::text::{
    chars_of, copy_range, find_char, matches_at, owned, same_text, slice_of, split_on, string_of,
    trim, trim_chars,
};

verus! {

/// What a pair of a cookie header says for `name`: the value where the pair has
/// that name.
pub open spec fn pair_value(pair: Seq<char>, name: Seq<char>) -> Option<Seq<char>> {
    let p = crate::text::trimmed(pair);
    let i = crate::text::first_index(p, '=');
    if 0 <= i < p.len() && crate::text::trimmed(p.take(i)) == name {
        Some(crate::text::trimmed(p.skip(i + 1)))
    } else {
        None
    }
}

/// The value of the first of `pairs` that has the name `name`.
pub open spec fn first_value(pairs: Seq<Seq<char>>, name: Seq<char>) -> Option<Seq<char>>
    decreases pairs.len(),
{
    if pairs.len() == 0 {
        None
    } else if let Some(v) = pair_value(pairs[0], name) {
        Some(v)
    } else {
        first_value(pairs.drop_first(), name)
    }
}

/// The value of the cookie `name` in a cookie header.
pub open spec fn cookie_value(header: Seq<char>, name: Seq<char>) -> Option<Seq<char>> {
    first_value(crate::text::pieces(header, ';'), name)
}

/// Whether `cs` holds the characters of `s`.
fn same_chars(cs: &Vec<char>, s: &Vec<char>) -> (r: bool)
    ensures
        r == (cs@ == s@),
{
    if cs.len() != s.len() {
        return false;
    }
    let r = matches_at(cs, s, 0);
    proof {
        assert(cs@.subrange(0, s@.len() as int) =~= cs@);
    }
    r
}

/// What a pair of a cookie header says for `name`.
fn value_in_pair(pair: &Vec<char>, name: &Vec<char>) -> (r: Option<String>)
    ensures
        match r {
            Some(v) => pair_value(pair@, name@) == Some(v@),
            None => pair_value(pair@, name@) is None,
        },
{
    let p = trim_chars(pair);
    let i: usize = find_char(&p, '=');
    if i < p.len() {
        let key = trim_chars(&copy_range(&p, 0, i));
        assert(p@.subrange(0, i as int) =~= p@.take(i as int));
        if same_chars(&key, name) {
            let rest = copy_range(&p, i + 1, p.len());
            assert(rest@ =~= p@.skip(i + 1));
            return Some(string_of(&trim_chars(&rest)));
        }
    }
    None
}

/// The value of the cookie `cookie_name` in the text of a cookie header, where it has
/// one.
fn find_cookie(cookie_header: &str, cookie_name: &str) -> (r: Option<String>)
    ensures
        match r {
            Some(v) => cookie_value(cookie_header@, cookie_name@) == Some(v@),
            None => cookie_value(cookie_header@, cookie_name@) is None,
        },
{
    let pairs = split_on(&chars_of(cookie_header), ';');
    let name = chars_of(cookie_name);
    let ghost views = pairs@.map_values(|v: Vec<char>| v@);
    let mut i: usize = 0;
    assert(views.skip(0) =~= views);
    while i < pairs.len()
        invariant
            i <= pairs.len(),
            name@ == cookie_name@,
            views == pairs@.map_values(|v: Vec<char>| v@),
            views == crate::text::pieces(cookie_header@, ';'),
            first_value(views, name@) == first_value(views.skip(i as int), name@),
        decreases pairs.len() - i,
    {
        assert(views.skip(i as int)[0] == pairs@[i as int]@);
        match value_in_pair(&pairs[i], &name) {
            Some(v) => {
                return Some(v);
            },
            None => {},
        }
        assert(views.skip(i as int).drop_first() =~= views.skip(i + 1));
        i += 1;
    }
    None
}

/// The value of the cookie `name` that a request with this cookie header sends.
pub open spec fn sent_cookie(header: Option<&[u8]>, name: Seq<char>) -> Option<Seq<char>> {
    match crate::codec::text_of_header(header) {
        Some(text) => cookie_value(text, name),
        None => None,
    }
}

/// The value of the cookie `cookie_name` that a request with this cookie header sends,
/// where it does.
pub fn extract_session_cookie(cookie_header: Option<&[u8]>, cookie_name: &str) -> (r: Option<
    String,
>)
    ensures
        match r {
            Some(v) => sent_cookie(cookie_header, cookie_name@) == Some(v@),
            None => sent_cookie(cookie_header, cookie_name@) is None,
        },
{
    match read_header(cookie_header) {
        Some(text) => find_cookie(text.as_str(), cookie_name),
        None => None,
    }
}

/// The bearer token in the text of an authorization header.
pub open spec fn bearer_token(header: Seq<char>) -> Option<Seq<char>> {
    if crate::text::begins_with(header, "Bearer "@) && crate::text::trimmed(
        header.skip("Bearer "@.len() as int),
    ).len() > 0 {
        Some(crate::text::trimmed(header.skip("Bearer "@.len() as int)))
    } else {
        None
    }
}

/// What follows `prefix` in `s`, where `s` starts with it.
fn after_prefix(s: &str, prefix: &str) -> (r: Option<String>)
    ensures
        match r {
            Some(t) => crate::text::begins_with(s@, prefix@) && t@ == s@.skip(
                prefix@.len() as int,
            ),
            None => !crate::text::begins_with(s@, prefix@),
        },
{
    let cs = chars_of(s);
    let ps = chars_of(prefix);
    if matches_at(&cs, &ps, 0) {
        let t = slice_of(&cs, ps.len(), cs.len());
        assert(t@ =~= s@.skip(prefix@.len() as int));
        Some(t)
    } else {
        None
    }
}

/// The bearer token that a request with this authorization header sends.
pub open spec fn sent_token(header: Option<&[u8]>) -> Option<Seq<char>> {
    match crate::codec::text_of_header(header) {
        Some(text) => bearer_token(text),
        None => None,
    }
}

/// The bearer token that a request with this authorization header sends, where it does.
pub fn extract_bearer_token(auth_header: Option<&[u8]>) -> (r: Option<String>)
    ensures
        match r {
            Some(t) => sent_token(auth_header) == Some(t@),
            None => sent_token(auth_header) is None,
        },
{
    let text = match read_header(auth_header) {
        Some(text) => text,
        None => {
            return None;
        },
    };
    match after_prefix(text.as_str(), "Bearer ") {
        Some(rest) => {
            let token = trim(rest.as_str());
            if token.as_str().is_empty() {
                None
            } else {
                Some(token)
            }
        },
        None => None,
    }
}

/// A name and a password.
#[derive(Clone, Debug)]
pub struct BasicCredentials {
    pub username: String,
    pub password: String,
}

/// The name and the password in a text: what stands before its first colon, and what
/// stands after it.
pub open spec fn name_and_password(text: Seq<char>) -> Option<(Seq<char>, Seq<char>)> {
    if text.contains(':') {
        let at = crate::text::first_index(text, ':');
        Some((text.take(at), text.skip(at + 1)))
    } else {
        None
    }
}

/// The name and the password in the text of an authorization header: Base64 of a text
/// with a colon in it.
pub open spec fn credentials_in(header: Seq<char>) -> Option<(Seq<char>, Seq<char>)> {
    if crate::text::begins_with(header, "Basic "@) {
        match crate::codec::base64_bytes(header.skip("Basic "@.len() as int)) {
            Some(bytes) => name_and_password(crate::codec::lossy_text(bytes)),
            None => None,
        }
    } else {
        None
    }
}

/// Whether `c` holds what `found` is.
pub open spec fn holds_credentials(
    c: Option<BasicCredentials>,
    found: Option<(Seq<char>, Seq<char>)>,
) -> bool {
    match c {
        Some(x) => found == Some((x.username@, x.password@)),
        None => found is None,
    }
}

/// Parts a text at its first colon.
pub fn split_credentials(text: &str) -> (r: Option<BasicCredentials>)
    ensures
        holds_credentials(r, name_and_password(text@)),
{
    let chars = chars_of(text);
    let at = find_char(&chars, ':');
    proof {
        crate::text::lemma_first_index(text@, ':');
    }
    if at == chars.len() {
        assert(!text@.contains(':'));
        return None;
    }
    assert(text@[at as int] == ':');
    assert(text@.contains(':'));
    let username = slice_of(&chars, 0, at);
    let password = slice_of(&chars, at + 1, chars.len());
    assert(username@ =~= text@.take(at as int));
    assert(password@ =~= text@.skip(at + 1));
    Some(BasicCredentials { username, password })
}

/// The name and the password that a request with this authorization header sends.
pub open spec fn sent_credentials(header: Option<&[u8]>) -> Option<(Seq<char>, Seq<char>)> {
    match crate::codec::text_of_header(header) {
        Some(text) => credentials_in(text),
        None => None,
    }
}

/// The name and the password that a request with this authorization header sends.
pub fn basic_credentials(auth_header: Option<&[u8]>) -> (r: Option<BasicCredentials>)
    ensures
        holds_credentials(r, sent_credentials(auth_header)),
{
    let text = match read_header(auth_header) {
        Some(text) => text,
        None => {
            return None;
        },
    };
    match after_prefix(text.as_str(), "Basic ") {
        Some(encoded) => match base64_decode(encoded.as_str()) {
            Some(decoded) => split_credentials(read_lossy(&decoded).as_str()),
            None => None,
        },
        None => None,
    }
}

/// What basic authentication says of a request.
#[derive(Clone, Copy, Debug, PartialEq, Eq, Structural)]
pub enum BasicAuth {
    /// The request goes on.
    Proceed,
    /// The request is answered with 401 and a challenge.
    Challenge,
}

/// What basic authentication says of a request. Where it is enabled, a request goes on
/// only with the configured name and a password that was found to match.
pub fn basic_auth_middleware(
    enabled: bool,
    username: &str,
    given: &Option<BasicCredentials>,
    password_matches: bool,
) -> (r: BasicAuth)
    ensures
        r == if !enabled || (given matches Some(c) && c.username@ == username@
            && password_matches) {
            BasicAuth::Proceed
        } else {
            BasicAuth::Challenge
        },
{
    if !enabled {
        return BasicAuth::Proceed;
    }
    match given {
        Some(c) => if same_text(c.username.as_str(), username) && password_matches {
            BasicAuth::Proceed
        } else {
            BasicAuth::Challenge
        },
        None => BasicAuth::Challenge,
    }
}

/// The name and the password that a text is made of are read back from it, where the
/// name has no colon.
pub proof fn law_credentials_are_read_back(name: Seq<char>, password: Seq<char>)
    requires
        !name.contains(':'),
    ensures
        name_and_password(name + ":"@ + password) == Some((name, password)),
{
    reveal_strlit(":");
    let text = name + ":"@ + password;
    assert(text[name.len() as int] == ':');
    assert(text.contains(':'));
    assert forall|j: int| 0 <= j < name.len() implies text[j] != ':' by {
        assert(name.contains(name[j]));
    }
    crate::text::lemma_first_index_is(text, ':', name.len() as int);
    assert(text.take(name.len() as int) =~= name);
    assert(text.skip((name.len() + 1) as int) =~= password);
}

/// What ends a session cookie: the marks that follow its age.
pub open spec fn cookie_tail(secure: bool, domain: Seq<char>) -> Seq<char> {
    let s = if secure {
        "; Secure"@
    } else {
        Seq::empty()
    };
    if domain.len() == 0 {
        s
    } else {
        s + "; Domain="@ + domain
    }
}

/// The cookie header that opens a session for 90 days.
pub open spec fn session_cookie(
    name: Seq<char>,
    value: Seq<char>,
    secure: bool,
    domain: Seq<char>,
) -> Seq<char> {
    name + "="@ + value + "; Path=/; HttpOnly; SameSite=Lax; Max-Age=7776000"@ + cookie_tail(
        secure,
        domain,
    )
}

/// The cookie header that ends a session.
pub open spec fn cleared_cookie(name: Seq<char>, secure: bool, domain: Seq<char>) -> Seq<char> {
    name + "=; Path=/; HttpOnly; SameSite=Lax; Max-Age=0"@ + cookie_tail(secure, domain)
}

/// Appends what ends a session cookie.
fn push_tail(cookie: &mut String, secure: bool, domain: &str)
    ensures
        final(cookie)@ == old(cookie)@ + cookie_tail(secure, domain@),
{
    if secure {
        cookie.append("; Secure");
    }
    if !domain.is_empty() {
        cookie.append("; Domain=");
        cookie.append(domain);
    }
    assert(cookie@ =~= old(cookie)@ + cookie_tail(secure, domain@));
}

/// The cookie header that opens a session.
pub fn build_session_cookie(name: &str, cookie_value: &str, secure: bool, domain: &str) -> (r:
    String)
    ensures
        r@ == session_cookie(name@, cookie_value@, secure, domain@),
{
    let mut cookie = owned(name);
    cookie.append("=");
    cookie.append(cookie_value);
    cookie.append("; Path=/; HttpOnly; SameSite=Lax; Max-Age=7776000");
    push_tail(&mut cookie, secure, domain);
    cookie
}

/// The cookie header that ends a session.
pub fn clear_session_cookie(name: &str, secure: bool, domain: &str) -> (r: String)
    ensures
        r@ == cleared_cookie(name@, secure, domain@),
{
    let mut cookie = owned(name);
    cookie.append("=; Path=/; HttpOnly; SameSite=Lax; Max-Age=0");
    push_tail(&mut cookie, secure, domain);
    cookie
}

/// The address that a request says it comes from.
pub open spec fn stated_address(
    forwarded_for: Option<&[u8]>,
    real_ip: Option<&[u8]>,
) -> Option<Seq<char>> {
    match crate::codec::text_of_header(forwarded_for) {
        Some(s) => Some(crate::text::trimmed(crate::text::before(s, ','))),
        None => match crate::codec::text_of_header(real_ip) {
            Some(s) => Some(crate::text::trimmed(s)),
            None => None,
        },
    }
}

/// The address that a request says it comes from: the first that it was forwarded
/// for, else its real address. A hint, and nothing to decide by.
pub fn client_ip(forwarded_for: Option<&[u8]>, real_ip: Option<&[u8]>) -> (r: Option<String>)
    ensures
        match r {
            Some(s) => stated_address(forwarded_for, real_ip) == Some(s@),
            None => stated_address(forwarded_for, real_ip) is None,
        },
{
    match read_header(forwarded_for) {
        Some(s) => {
            let cs = chars_of(s.as_str());
            let i: usize = find_char(&cs, ',');
            let first = slice_of(&cs, 0, i);
            assert(first@ =~= crate::text::before(s@, ','));
            Some(trim(first.as_str()))
        },
        None => match read_header(real_ip) {
            Some(s) => Some(trim(s.as_str())),
            None => None,
        },
    }
}

/// A text that neither starts nor ends with white space is its own trimmed form.
proof fn lemma_trimmed_is_itself(s: Seq<char>)
    requires
        s.len() > 0,
        !crate::text::is_space(s[0]),
        !crate::text::is_space(s.last()),
    ensures
        crate::text::trimmed(s) == s,
{
}

/// Trimmed text neither starts nor ends with white space.
proof fn lemma_trimmed_ends(s: Seq<char>)
    requires
        crate::text::trimmed(s) == s,
        s.len() > 0,
    ensures
        !crate::text::is_space(s[0]),
        !crate::text::is_space(s.last()),
{
    lemma_leading_shrinks(s);
    lemma_trailing_shrinks(crate::text::without_leading_space(s));
    if crate::text::is_space(s[0]) {
        lemma_leading_shrinks(s.drop_first());
        assert(false);
    }
    if crate::text::is_space(s.last()) {
        assert(crate::text::without_leading_space(s) == s);
        lemma_trailing_shrinks(s.drop_last());
        assert(false);
    }
}

/// Dropping leading space makes nothing longer.
proof fn lemma_leading_shrinks(s: Seq<char>)
    ensures
        crate::text::without_leading_space(s).len() <= s.len(),
    decreases s.len(),
{
    if s.len() > 0 && crate::text::is_space(s[0]) {
        lemma_leading_shrinks(s.drop_first());
    }
}

/// Dropping trailing space makes nothing longer.
proof fn lemma_trailing_shrinks(s: Seq<char>)
    ensures
        crate::text::without_trailing_space(s).len() <= s.len(),
    decreases s.len(),
{
    if s.len() > 0 && crate::text::is_space(s.last()) {
        lemma_trailing_shrinks(s.drop_last());
    }
}

/// Whether `s` can stand for itself in a cookie: it holds no semicolon and has no
/// white space around it.
pub open spec fn is_bare(s: Seq<char>) -> bool {
    &&& forall|i: int| 0 <= i < s.len() ==> s[i] != ';'
    &&& crate::text::trimmed(s) == s
}

/// A cookie that was set is read back: a browser that sends the name and the
/// value of a session cookie is understood to have that value.
pub proof fn law_cookies_are_read_back(name: Seq<char>, value: Seq<char>)
    requires
        is_bare(name),
        is_bare(value),
        forall|i: int| 0 <= i < name.len() ==> name[i] != '=',
    ensures
        cookie_value(name + "="@ + value, name) == Some(value),
{
    reveal_strlit("=");
    let header = name + "="@ + value;
    assert(header[name.len() as int] == '=');
    assert forall|i: int| 0 <= i < header.len() implies header[i] != ';' by {
        if i < name.len() {
            assert(header[i] == name[i]);
        } else if i > name.len() {
            assert(header[i] == value[i - name.len() - 1]);
        }
    }
    crate::text::lemma_first_index_is(header, ';', header.len() as int);
    let pairs = crate::text::pieces(header, ';');
    assert(pairs =~= seq![header]);
    if name.len() > 0 {
        lemma_trimmed_ends(name);
        assert(header[0] == name[0]);
    }
    if value.len() > 0 {
        lemma_trimmed_ends(value);
        assert(header.last() == value.last());
    }
    lemma_trimmed_is_itself(header);
    assert forall|j: int| 0 <= j < name.len() implies header[j] != '=' by {
        assert(header[j] == name[j]);
    }
    crate::text::lemma_first_index_is(header, '=', name.len() as int);
    assert(header.take(name.len() as int) =~= name);
    assert(header.skip((name.len() + 1) as int) =~= value);
    assert(pair_value(pairs[0], name) == Some(value));
}

/// What a browser keeps of the header that opens a session, up to the first
/// semicolon, is the pair of name and value that it sends back.
pub proof fn law_session_cookie_starts_with_its_pair(
    name: Seq<char>,
    value: Seq<char>,
    secure: bool,
    domain: Seq<char>,
)
    requires
        is_bare(name),
        is_bare(value),
    ensures
        crate::text::before(session_cookie(name, value, secure, domain), ';') == name + "="@
            + value,
{
    reveal_strlit("=");
    reveal_strlit("; Path=/; HttpOnly; SameSite=Lax; Max-Age=7776000");
    let pair = name + "="@ + value;
    let all = session_cookie(name, value, secure, domain);
    assert forall|i: int| 0 <= i < pair.len() implies all[i] != ';' by {
        assert(all[i] == pair[i]);
        if i < name.len() {
            assert(pair[i] == name[i]);
        } else if i > name.len() {
            assert(pair[i] == value[i - name.len() - 1]);
        }
    }
    assert(all[pair.len() as int] == ';');
    crate::text::lemma_first_index_is(all, ';', pair.len() as int);
    assert(all.take(pair.len() as int) =~= pair);
}

} // verus!
