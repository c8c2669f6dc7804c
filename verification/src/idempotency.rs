//! Requests that may be repeated: which earlier answer stands for one, and which
//! answers are kept for that.

use vstd::prelude::*;
use vstd::string::*;

use crate::codec::{read_header, sha256_hex};
use crate::text::{owned, trim};

verus! {

/// How many seconds an answer is kept.
pub const DEFAULT_TTL_SECS: u64 = 86_400;

/// How many answers are kept at most.
pub const MAX_ENTRIES: u64 = 1024;

/// How large a body an answer may have to be kept.
pub const MAX_CACHED_BODY: usize = 65_536;

/// An answer that is kept.
#[derive(Clone, Debug)]
pub struct CachedResponse {
    pub status: u16,
    pub content_type: String,
    pub body: Vec<u8>,
}

/// The key of a request: the key it names, and the digest of its body.
pub open spec fn request_key(idempotency_key: Seq<char>, body: Seq<u8>) -> Seq<char> {
    idempotency_key + ":"@ + crate::codec::sha256_text(body)
}

/// The key of a request with this `Idempotency-Key` header, where it has one that
/// can be read and is not blank.
pub open spec fn key_of(header: Option<&[u8]>, body: Seq<u8>) -> Option<Seq<char>> {
    match crate::codec::text_of_header(header) {
        Some(text) => if crate::text::trimmed(text).len() == 0 {
            None
        } else {
            Some(request_key(crate::text::trimmed(text), body))
        },
        None => None,
    }
}

/// The key of a request that names `idempotency_key`. The digest of the body sees
/// to it that another body is another request.
pub fn make_key(idempotency_key: &str, body: &[u8]) -> (r: String)
    ensures
        r@ == request_key(idempotency_key@, body@),
{
    let mut key = owned(idempotency_key);
    key.append(":");
    key.append(sha256_hex(body).as_str());
    key
}

/// The key of a request with this `Idempotency-Key` header. `None` where there is
/// none, or one that cannot be read or is blank: the request is then handled as if
/// there were no cache.
pub fn header_key(header: Option<&[u8]>, body: &[u8]) -> (r: Option<String>)
    ensures
        match r {
            Some(k) => key_of(header, body@) == Some(k@),
            None => key_of(header, body@) is None,
        },
{
    match read_header(header) {
        Some(text) => {
            let key = trim(text.as_str());
            if key.as_str().is_empty() {
                None
            } else {
                Some(make_key(key.as_str(), body))
            }
        },
        None => None,
    }
}

/// What to keep of an answer, and under which key: nothing for a request without
/// one, and nothing that is too large.
pub fn store(
    header: Option<&[u8]>,
    body: &[u8],
    status: u16,
    content_type: &str,
    response_body: Vec<u8>,
) -> (r: Option<(String, CachedResponse)>)
    ensures
        match r {
            Some(entry) => {
                &&& key_of(header, body@) == Some(entry.0@)
                &&& response_body@.len() <= MAX_CACHED_BODY
                &&& entry.1.status == status
                &&& entry.1.content_type@ == content_type@
                &&& entry.1.body == response_body
            },
            None => key_of(header, body@) is None || response_body@.len() > MAX_CACHED_BODY,
        },
{
    match header_key(header, body) {
        None => None,
        Some(key) => {
            if response_body.len() > MAX_CACHED_BODY {
                None
            } else {
                Some(
                    (
                        key,
                        CachedResponse {
                            status,
                            content_type: owned(content_type),
                            body: response_body,
                        },
                    ),
                )
            }
        },
    }
}

/// Two requests have one key exactly where they name one key and their bodies have
/// one digest. So the same key with another body is another request.
pub proof fn law_keys_tell_requests_apart(a: Seq<char>, x: Seq<u8>, b: Seq<char>, y: Seq<u8>)
    ensures
        request_key(a, x) == request_key(b, y) <==> a == b && crate::codec::sha256(x)
            == crate::codec::sha256(y),
{
    if request_key(a, x) == request_key(b, y) {
        reveal_strlit(":");
        let p = request_key(a, x);
        let q = request_key(b, y);
        let hx = crate::codec::sha256_text(x);
        let hy = crate::codec::sha256_text(y);
        assert(":"@ =~= seq![':']);
        assert(p == a + ":"@ + hx && q == b + ":"@ + hy);
        assert(p.len() == a.len() + 1 + hx.len() && q.len() == b.len() + 1 + hy.len());
        assert(p[a.len() as int] == ':');
        assert(q[b.len() as int] == ':');
        if a.len() < b.len() {
            let i = b.len() - a.len() - 1;
            assert(p[b.len() as int] == hx[i]);
            crate::codec::lemma_hex_text_has_no_colon(crate::codec::sha256(x), i);
            assert(false);
        }
        if b.len() < a.len() {
            let i = a.len() - b.len() - 1;
            assert(q[a.len() as int] == hy[i]);
            crate::codec::lemma_hex_text_has_no_colon(crate::codec::sha256(y), i);
            assert(false);
        }
        assert(a =~= p.take(a.len() as int));
        assert(b =~= q.take(a.len() as int));
        assert(hx =~= p.skip((a.len() + 1) as int));
        assert(hy =~= q.skip((a.len() + 1) as int));
        crate::codec::lemma_hex_text_injective(crate::codec::sha256(x), crate::codec::sha256(y));
    }
}

/// What is kept for a request is found again by the same request: the key that an
/// answer is kept under is the key that it is looked up by.
pub proof fn law_a_repeated_request_is_found(
    header: Option<&[u8]>,
    body: &[u8],
    status: u16,
    content_type: &str,
    response_body: Vec<u8>,
    kept: Option<(String, CachedResponse)>,
    looked_up: Option<String>,
)
    requires
        call_ensures(store, (header, body, status, content_type, response_body), kept),
        call_ensures(header_key, (header, body), looked_up),
    ensures
        kept matches Some(entry) ==> looked_up matches Some(key) && key@ == entry.0@,
        looked_up is None ==> kept is None,
{
}

/// Where a request that may be repeated stands.
#[derive(Clone, Copy, Debug, PartialEq, Eq, Structural)]
pub enum Stage {
    /// It is looked up for the first time.
    FirstLook,
    /// It waits until no other request with its key is being handled.
    Waiting,
    /// It is looked up again: another request may have been answered meanwhile.
    SecondLook,
    /// It is being handled.
    Handling,
    Done,
}

/// What becomes known of a request that may be repeated.
#[derive(Clone, Copy, Debug, PartialEq, Eq, Structural)]
pub enum Progress {
    /// An answer is kept for it, or none is.
    LookedUp { hit: bool },
    /// No other request with its key is being handled.
    Free,
    /// It was handled, or could not be.
    Handled { ok: bool },
}

/// What to do about a request that may be repeated.
#[derive(Clone, Copy, Debug, PartialEq, Eq, Structural)]
pub enum Step {
    /// Give the answer that is kept.
    Replay,
    WaitForTurn,
    LookAgain,
    Handle,
    /// Keep the answer, and give it.
    KeepAndAnswer,
    /// Tell the error, and keep nothing.
    TellError,
    /// The news does not belong to where the request stands.
    Ignore,
}

/// Where a request stands after news, and what to do about it.
pub open spec fn flow(stage: Stage, news: Progress) -> (Stage, Step) {
    match (stage, news) {
        (Stage::FirstLook, Progress::LookedUp { hit }) => if hit {
            (Stage::Done, Step::Replay)
        } else {
            (Stage::Waiting, Step::WaitForTurn)
        },
        (Stage::Waiting, Progress::Free) => (Stage::SecondLook, Step::LookAgain),
        (Stage::SecondLook, Progress::LookedUp { hit }) => if hit {
            (Stage::Done, Step::Replay)
        } else {
            (Stage::Handling, Step::Handle)
        },
        (Stage::Handling, Progress::Handled { ok }) => if ok {
            (Stage::Done, Step::KeepAndAnswer)
        } else {
            (Stage::Done, Step::TellError)
        },
        _ => (stage, Step::Ignore),
    }
}

/// Carries a request on: an answer that is kept is given again, and only a request
/// that is still unanswered when its turn comes is handled.
pub fn next_stage(stage: Stage, news: Progress) -> (r: (Stage, Step))
    ensures
        r == flow(stage, news),
{
    match (stage, news) {
        (Stage::FirstLook, Progress::LookedUp { hit }) => if hit {
            (Stage::Done, Step::Replay)
        } else {
            (Stage::Waiting, Step::WaitForTurn)
        },
        (Stage::Waiting, Progress::Free) => (Stage::SecondLook, Step::LookAgain),
        (Stage::SecondLook, Progress::LookedUp { hit }) => if hit {
            (Stage::Done, Step::Replay)
        } else {
            (Stage::Handling, Step::Handle)
        },
        (Stage::Handling, Progress::Handled { ok }) => if ok {
            (Stage::Done, Step::KeepAndAnswer)
        } else {
            (Stage::Done, Step::TellError)
        },
        _ => (stage, Step::Ignore),
    }
}

/// A request is handled only once it had its turn and was looked up again to no
/// avail, and an answer is kept only of a request that was handled.
pub proof fn law_handled_only_when_unanswered(stage: Stage, news: Progress)
    ensures
        flow(stage, news).1 == Step::Handle <==> stage == Stage::SecondLook && news
            == (Progress::LookedUp { hit: false }),
        flow(stage, news).0 == Stage::SecondLook && stage != Stage::SecondLook ==> stage
            == Stage::Waiting && news == Progress::Free,
        flow(stage, news).1 == Step::KeepAndAnswer <==> stage == Stage::Handling && news
            == (Progress::Handled { ok: true }),
        stage == Stage::Done ==> flow(stage, news) == (stage, Step::Ignore),
{
}

} // verus!
