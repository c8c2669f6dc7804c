//! The calls that the browser makes, when it makes them again, and what it says of
//! those that fail.

use vstd::prelude::*;
use vstd::string::*;

use crate::codec::{uuid_text, Id};
use crate::text::{decimal_text, owned};

verus! {

/// How long one attempt may take, in milliseconds.
pub const REQUEST_TIMEOUT_MS: i32 = 30_000;

/// How often a call is made again at most.
pub const MAX_RETRIES: u32 = 2;

/// A call to the server: how, and where.
#[derive(Clone, Debug)]
pub struct Call {
    pub method: &'static str,
    pub url: String,
}

impl Call {
    /// Whether this call is made by `method`, to `url`.
    pub open spec fn is(&self, method: Seq<char>, url: Seq<char>) -> bool {
        self.method@ == method && self.url@ == url
    }
}

/// A call to an address that is the same for all.
fn call(method: &'static str, url: &str) -> (r: Call)
    ensures
        r.is(method@, url@),
{
    Call { method, url: owned(url) }
}

/// A call to an address with an identifier in it.
fn call_on(method: &'static str, before: &str, id: Id, after: &str) -> (r: Call)
    ensures
        r.is(method@, before@ + crate::codec::id_text(id) + after@),
{
    let mut url = owned(before);
    url.append(uuid_text(id).as_str());
    url.append(after);
    Call { method, url }
}

/// Asks for what a public page shows.
pub fn get_public_status() -> (r: Call)
    ensures
        r.is("GET"@, "/api/public/v1/status"@),
{
    call("GET", "/api/public/v1/status")
}

/// Asks for all status pages.
pub fn list_status_pages() -> (r: Call)
    ensures
        r.is("GET"@, "/api/v1/status-pages"@),
{
    call("GET", "/api/v1/status-pages")
}

/// Asks for one status page.
pub fn get_status_page(id: Id) -> (r: Call)
    ensures
        r.is("GET"@, "/api/v1/status-pages/"@ + crate::codec::id_text(id)),
{
    let r = call_on("GET", "/api/v1/status-pages/", id, "");
    proof {
        lemma_nothing_after("/api/v1/status-pages/"@ + crate::codec::id_text(id));
    }
    r
}

/// Asks for the points of a page's chart.
pub fn get_status_page_history(id: Id) -> (r: Call)
    ensures
        r.is("GET"@, "/api/v1/status-pages/"@ + crate::codec::id_text(id) + "/history"@),
{
    call_on("GET", "/api/v1/status-pages/", id, "/history")
}

/// Makes a status page.
pub fn create_status_page() -> (r: Call)
    ensures
        r.is("POST"@, "/api/v1/status-pages"@),
{
    call("POST", "/api/v1/status-pages")
}

/// Changes a status page.
pub fn update_status_page(id: Id) -> (r: Call)
    ensures
        r.is("PATCH"@, "/api/v1/status-pages/"@ + crate::codec::id_text(id)),
{
    let r = call_on("PATCH", "/api/v1/status-pages/", id, "");
    proof {
        lemma_nothing_after("/api/v1/status-pages/"@ + crate::codec::id_text(id));
    }
    r
}

/// Removes a status page.
pub fn delete_status_page(id: Id) -> (r: Call)
    ensures
        r.is("DELETE"@, "/api/v1/status-pages/"@ + crate::codec::id_text(id)),
{
    let r = call_on("DELETE", "/api/v1/status-pages/", id, "");
    proof {
        lemma_nothing_after("/api/v1/status-pages/"@ + crate::codec::id_text(id));
    }
    r
}

/// Asks for all targets.
pub fn list_targets() -> (r: Call)
    ensures
        r.is("GET"@, "/api/v1/targets"@),
{
    call("GET", "/api/v1/targets")
}

/// Asks for one target.
pub fn get_target(id: Id) -> (r: Call)
    ensures
        r.is("GET"@, "/api/v1/targets/"@ + crate::codec::id_text(id)),
{
    let r = call_on("GET", "/api/v1/targets/", id, "");
    proof {
        lemma_nothing_after("/api/v1/targets/"@ + crate::codec::id_text(id));
    }
    r
}

/// Makes a target.
pub fn create_target() -> (r: Call)
    ensures
        r.is("POST"@, "/api/v1/targets"@),
{
    call("POST", "/api/v1/targets")
}

/// Changes a target.
pub fn update_target(id: Id) -> (r: Call)
    ensures
        r.is("PATCH"@, "/api/v1/targets/"@ + crate::codec::id_text(id)),
{
    let r = call_on("PATCH", "/api/v1/targets/", id, "");
    proof {
        lemma_nothing_after("/api/v1/targets/"@ + crate::codec::id_text(id));
    }
    r
}

/// Removes a target.
pub fn delete_target(id: Id) -> (r: Call)
    ensures
        r.is("DELETE"@, "/api/v1/targets/"@ + crate::codec::id_text(id)),
{
    let r = call_on("DELETE", "/api/v1/targets/", id, "");
    proof {
        lemma_nothing_after("/api/v1/targets/"@ + crate::codec::id_text(id));
    }
    r
}

/// Asks for the last results of a target.
pub fn list_target_results(id: Id, limit: u32) -> (r: Call)
    ensures
        r.is(
            "GET"@,
            "/api/v1/targets/"@ + crate::codec::id_text(id) + "/results?limit="@
                + crate::text::decimal(limit as nat),
        ),
{
    let mut r = call_on("GET", "/api/v1/targets/", id, "/results?limit=");
    r.url.append(decimal_text(limit as u64).as_str());
    r
}

/// Asks for all incidents.
pub fn list_incidents() -> (r: Call)
    ensures
        r.is("GET"@, "/api/v1/incidents"@),
{
    call("GET", "/api/v1/incidents")
}

/// Asks for one incident.
pub fn get_incident(id: Id) -> (r: Call)
    ensures
        r.is("GET"@, "/api/v1/incidents/"@ + crate::codec::id_text(id)),
{
    let r = call_on("GET", "/api/v1/incidents/", id, "");
    proof {
        lemma_nothing_after("/api/v1/incidents/"@ + crate::codec::id_text(id));
    }
    r
}

/// Posts to the timeline of an incident.
pub fn add_incident_update(id: Id) -> (r: Call)
    ensures
        r.is("POST"@, "/api/v1/incidents/"@ + crate::codec::id_text(id) + "/updates"@),
{
    call_on("POST", "/api/v1/incidents/", id, "/updates")
}

/// Asks whether the first user is still to be made.
pub fn bootstrap_status() -> (r: Call)
    ensures
        r.is("GET"@, "/api/v1/auth/bootstrap"@),
{
    call("GET", "/api/v1/auth/bootstrap")
}

/// Makes the first user.
pub fn bootstrap_create() -> (r: Call)
    ensures
        r.is("POST"@, "/api/v1/auth/bootstrap"@),
{
    call("POST", "/api/v1/auth/bootstrap")
}

/// Asks for a sign-in link.
pub fn magic_link_request() -> (r: Call)
    ensures
        r.is("POST"@, "/api/v1/auth/magic-link/request"@),
{
    call("POST", "/api/v1/auth/magic-link/request")
}

/// Signs in by the token of a link.
pub fn magic_link_verify() -> (r: Call)
    ensures
        r.is("POST"@, "/api/v1/auth/magic-link/verify"@),
{
    call("POST", "/api/v1/auth/magic-link/verify")
}

/// Asks who is signed in.
pub fn get_session() -> (r: Call)
    ensures
        r.is("GET"@, "/api/v1/auth/session"@),
{
    call("GET", "/api/v1/auth/session")
}

/// Signs out.
pub fn logout() -> (r: Call)
    ensures
        r.is("DELETE"@, "/api/v1/auth/session"@),
{
    call("DELETE", "/api/v1/auth/session")
}

/// The empty text adds nothing.
proof fn lemma_nothing_after(s: Seq<char>)
    ensures
        s + ""@ == s,
{
    reveal_strlit("");
    assert(s + ""@ =~= s);
}

/// How an attempt ended: with an answer of some status, or with none.
#[derive(Clone, Copy, Debug, PartialEq, Eq, Structural)]
pub enum AttemptOutcome {
    Answered { status: u16 },
    Failed,
}

/// What to do after an attempt.
#[derive(Clone, Copy, Debug, PartialEq, Eq, Structural)]
pub enum RetryStep {
    /// Make the call again after so many milliseconds.
    WaitAndRetry { delay_ms: u32 },
    /// Hand back how this attempt ended.
    HandBack,
}

/// Whether an attempt ended in a way that may pass: no answer, or a fault of the
/// server.
pub open spec fn may_pass(outcome: AttemptOutcome) -> bool {
    match outcome {
        AttemptOutcome::Answered { status } => status >= 500,
        AttemptOutcome::Failed => true,
    }
}

/// How long to wait after attempt `attempt`, counted from nought: half a second, and
/// twice as long each time.
pub open spec fn backoff_ms(attempt: nat) -> nat
    decreases attempt,
{
    if attempt == 0 {
        500
    } else {
        2 * backoff_ms((attempt - 1) as nat)
    }
}

/// What to do after attempt `attempt`, counted from nought. The call is made again
/// where that may help and it was not made too often.
pub fn fetch_with_retry(attempt: u32, outcome: AttemptOutcome) -> (r: RetryStep)
    ensures
        r == if may_pass(outcome) && attempt < MAX_RETRIES {
            RetryStep::WaitAndRetry { delay_ms: backoff_ms(attempt as nat) as u32 }
        } else {
            RetryStep::HandBack
        },
{
    let again = match outcome {
        AttemptOutcome::Answered { status } => status >= 500,
        AttemptOutcome::Failed => true,
    };
    if again && attempt < MAX_RETRIES {
        proof {
            reveal_with_fuel(backoff_ms, 2);
        }
        if attempt == 0 {
            RetryStep::WaitAndRetry { delay_ms: 500 }
        } else {
            RetryStep::WaitAndRetry { delay_ms: 1000 }
        }
    } else {
        RetryStep::HandBack
    }
}

/// A call is made three times at most, and an answer that is no fault of the server
/// ends it at once.
pub proof fn law_calls_end(attempt: u32, outcome: AttemptOutcome, step: RetryStep)
    requires
        call_ensures(fetch_with_retry, (attempt, outcome), step),
    ensures
        attempt >= MAX_RETRIES ==> step == RetryStep::HandBack,
        !may_pass(outcome) ==> step == RetryStep::HandBack,
{
}

/// Each wait is twice as long as the one before.
pub proof fn law_waits_double(attempt: u32, first: RetryStep, second: RetryStep)
    requires
        attempt + 1 < MAX_RETRIES,
        call_ensures(fetch_with_retry, (attempt, AttemptOutcome::Failed), first),
        call_ensures(fetch_with_retry, ((attempt + 1) as u32, AttemptOutcome::Failed), second),
    ensures
        first matches RetryStep::WaitAndRetry { delay_ms: a } && second matches
            RetryStep::WaitAndRetry { delay_ms: b } && b == 2 * a,
{
    reveal_with_fuel(backoff_ms, 3);
}

/// What the server says of a request that went wrong.
#[derive(Clone, Debug)]
pub struct ApiErrorBody {
    pub code: String,
    pub message: String,
    /// A JSON text that is kept for the caller's own use.
    pub details: Option<String>,
}

impl ApiErrorBody {
    /// The error in words.
    pub fn to_text(&self) -> (r: String)
        ensures
            r@ == "["@ + self.code@ + "] "@ + self.message@,
    {
        let mut out = owned("[");
        out.append(self.code.as_str());
        out.append("] ");
        out.append(self.message.as_str());
        out
    }
}

/// What is said of an answer that is no success. `parsed` is what its body was
/// understood as, where it was.
pub fn format_error_response(status: u16, body: &str, parsed: &Option<ApiErrorBody>) -> (r: String)
    ensures
        r@ == match *parsed {
            Some(e) => "["@ + e.code@ + "] "@ + e.message@,
            None => if body@.len() == 0 {
                "HTTP "@ + crate::text::decimal(status as nat)
            } else {
                "HTTP "@ + crate::text::decimal(status as nat) + ": "@ + body@
            },
        },
{
    match parsed {
        Some(e) => e.to_text(),
        None => {
            let mut out = owned("HTTP ");
            out.append(decimal_text(status as u64).as_str());
            if !body.is_empty() {
                out.append(": ");
                out.append(body);
            }
            out
        },
    }
}

/// Whether a status is that of a success.
pub fn is_success(status: u16) -> (r: bool)
    ensures
        r == (200 <= status <= 299),
{
    200 <= status && status <= 299
}

/// The user that is signed in.
#[derive(Clone, Debug)]
pub struct AuthUser {
    pub id: Id,
    pub email: String,
    pub display_name: Option<String>,
    pub theme: String,
    pub time_format: String,
}

/// What the server answers when somebody signs in.
#[derive(Clone, Debug)]
pub struct AuthSession {
    pub user: AuthUser,
}

/// Whether the first user is still to be made.
#[derive(Clone, Copy, Debug, PartialEq, Eq, Structural)]
pub struct BootstrapStatus {
    pub bootstrap_needed: bool,
}

} // verus!
