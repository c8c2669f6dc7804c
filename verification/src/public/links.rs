//! What the links in mails and shared addresses do: confirming or declining a
//! notification channel, leaving a subscription, opening a shared monitor.

use vstd::prelude::*;
use vstd::string::*;

use crate::codec::{hash_cookie_value, Id};
use crate::domain::{CheckResult, CheckStatus, DayState, PublicComponentStatus};
use crate::error::{not_found, AppError};
use crate::markup::TextReply;
use crate::public::status::component_status_from_result;
use crate::text::{owned, same_text, trim};
use crate::time::{Moment, DAY};

verus! {

/// How a verification link ended.
#[derive(Clone, Copy, Debug, PartialEq, Eq, Structural)]
pub enum VerificationOutcome {
    Verified,
    Declined,
    /// The token is missing, expired, already used or empty.
    Invalid,
    /// The store failed on the way.
    ServerError,
}

/// The two links in a verification mail.
#[derive(Clone, Copy, Debug, PartialEq, Eq, Structural)]
pub enum ChannelLink {
    Verify,
    Decline,
}

/// What has to be done next for a link.
#[derive(Clone, Debug)]
pub enum LinkAction {
    /// Use up the token with this hash.
    Consume { token_hash: String },
    /// Mark the channel as verified.
    MarkVerified { channel_id: Id },
    /// Disable the channel for this reason.
    Disable { channel_id: Id, reason: &'static str },
    /// Answer.
    Respond { outcome: VerificationOutcome },
}

/// What came of using up a token.
#[derive(Clone, Debug)]
pub enum Consumed {
    /// The token was good, for this channel.
    Channel(Id),
    /// No such token, or it is expired or used.
    Nothing,
    /// The store failed.
    Failed,
}

/// The first step of both links: an empty token is invalid, any other is used up
/// under its hash.
pub fn begin_link(token: &str) -> (r: LinkAction)
    ensures
        crate::text::trimmed(token@).len() == 0 ==> r == (LinkAction::Respond {
            outcome: VerificationOutcome::Invalid,
        }),
        crate::text::trimmed(token@).len() > 0 ==> (r matches LinkAction::Consume { token_hash }
            && token_hash@ == crate::codec::sha256_text(
            vstd::utf8::encode_utf8(crate::text::trimmed(token@)),
        )),
{
    let bare = trim(token);
    if bare.as_str().is_empty() {
        LinkAction::Respond { outcome: VerificationOutcome::Invalid }
    } else {
        LinkAction::Consume { token_hash: hash_cookie_value(bare.as_str()) }
    }
}

/// A token that confirms or declines a channel, as it is kept.
#[derive(Clone, Debug)]
pub struct ChannelToken {
    pub channel_id: Id,
    pub token_hash: String,
    pub expires_at: Moment,
    pub used: bool,
}

/// Whether a token can still be used at `now`.
pub open spec fn is_good(t: ChannelToken, token_hash: Seq<char>, now: Moment) -> bool {
    t.token_hash@ == token_hash && !t.used && now <= t.expires_at
}

/// `k` is the first of `tokens` with this hash that can still be used.
pub open spec fn is_first_good(
    tokens: Seq<ChannelToken>,
    token_hash: Seq<char>,
    now: Moment,
    k: int,
) -> bool {
    &&& 0 <= k < tokens.len()
    &&& is_good(tokens[k], token_hash, now)
    &&& forall|j: int| 0 <= j < k ==> !is_good(#[trigger] tokens[j], token_hash, now)
}

/// `r` is what came of using up the token with this hash, and `after` are the tokens
/// then: a good one is marked as used, and nothing else changes.
pub open spec fn is_used_up(
    before: Seq<ChannelToken>,
    token_hash: Seq<char>,
    now: Moment,
    r: Consumed,
    after: Seq<ChannelToken>,
) -> bool {
    match r {
        Consumed::Channel(c) => exists|k: int|
            {
                &&& #[trigger] is_first_good(before, token_hash, now, k)
                &&& c == before[k].channel_id
                &&& after == before.update(k, ChannelToken { used: true, ..before[k] })
            },
        Consumed::Nothing => after == before && forall|j: int|
            0 <= j < before.len() ==> !is_good(#[trigger] before[j], token_hash, now),
        Consumed::Failed => false,
    }
}

/// Uses up the token with this hash, where there is one that is neither used nor
/// expired.
pub fn consume_token(tokens: &mut Vec<ChannelToken>, token_hash: &str, now: Moment) -> (r: Consumed)
    ensures
        is_used_up(old(tokens)@, token_hash@, now, r, final(tokens)@),
{
    let mut i: usize = 0;
    while i < tokens.len()
        invariant
            i <= tokens.len(),
            tokens@ == old(tokens)@,
            forall|j: int| 0 <= j < i ==> !is_good(#[trigger] tokens@[j], token_hash@, now),
        decreases tokens.len() - i,
    {
        if !tokens[i].used && now <= tokens[i].expires_at && same_text(
            tokens[i].token_hash.as_str(),
            token_hash,
        ) {
            let t = tokens.remove(i);
            let ghost before = t;
            let channel_id = t.channel_id;
            let spent = ChannelToken {
                channel_id: t.channel_id,
                token_hash: t.token_hash,
                expires_at: t.expires_at,
                used: true,
            };
            tokens.insert(i, spent);
            proof {
                assert(is_first_good(old(tokens)@, token_hash@, now, i as int));
                assert(spent == (ChannelToken { used: true, ..before }));
                assert(tokens@ =~= old(tokens)@.update(i as int, spent));
            }
            return Consumed::Channel(channel_id);
        }
        i += 1;
    }
    Consumed::Nothing
}

/// A token works once: of tokens with different hashes, one that was used up opens
/// nothing at any other click, and the page then says that the link is no longer
/// good.
pub proof fn law_a_second_click_finds_the_token_used(
    tokens: Seq<ChannelToken>,
    token_hash: Seq<char>,
    first_at: Moment,
    channel_id: Id,
    mid: Seq<ChannelToken>,
    second_at: Moment,
    r: Consumed,
    after: Seq<ChannelToken>,
    link: ChannelLink,
    action: LinkAction,
)
    requires
        forall|i: int, j: int|
            0 <= i < j < tokens.len() ==> (#[trigger] tokens[i]).token_hash@ != (
            #[trigger] tokens[j]).token_hash@,
        is_used_up(tokens, token_hash, first_at, Consumed::Channel(channel_id), mid),
        is_used_up(mid, token_hash, second_at, r, after),
        call_ensures(after_consume, (link, r), action),
    ensures
        r is Nothing,
        after == mid,
        action == (LinkAction::Respond { outcome: VerificationOutcome::Invalid }),
{
    let k = choose|k: int|
        {
            &&& #[trigger] is_first_good(tokens, token_hash, first_at, k)
            &&& channel_id == tokens[k].channel_id
            &&& mid == tokens.update(k, ChannelToken { used: true, ..tokens[k] })
        };
    assert forall|j: int| 0 <= j < mid.len() implies !is_good(#[trigger] mid[j], token_hash, second_at) by {
        if j < k {
            assert(tokens[j].token_hash@ != tokens[k].token_hash@);
        } else if k < j {
            assert(tokens[k].token_hash@ != tokens[j].token_hash@);
        }
    }
}

/// The step after the token was used up.
pub fn after_consume(link: ChannelLink, consumed: Consumed) -> (r: LinkAction)
    ensures
        match consumed {
            Consumed::Nothing => r == (LinkAction::Respond {
                outcome: VerificationOutcome::Invalid,
            }),
            Consumed::Failed => r == (LinkAction::Respond {
                outcome: VerificationOutcome::ServerError,
            }),
            Consumed::Channel(id) => match link {
                ChannelLink::Verify => r == (LinkAction::MarkVerified { channel_id: id }),
                ChannelLink::Decline => r matches LinkAction::Disable { channel_id, reason }
                    && channel_id == id && reason@ == "recipient declined verification"@,
            },
        },
{
    match consumed {
        Consumed::Nothing => LinkAction::Respond { outcome: VerificationOutcome::Invalid },
        Consumed::Failed => LinkAction::Respond { outcome: VerificationOutcome::ServerError },
        Consumed::Channel(id) => match link {
            ChannelLink::Verify => LinkAction::MarkVerified { channel_id: id },
            ChannelLink::Decline => LinkAction::Disable {
                channel_id: id,
                reason: "recipient declined verification",
            },
        },
    }
}

/// The last step: what to answer once the channel was written, or was not.
pub fn after_write(link: ChannelLink, written: bool) -> (r: VerificationOutcome)
    ensures
        r == if !written {
            VerificationOutcome::ServerError
        } else {
            match link {
                ChannelLink::Verify => VerificationOutcome::Verified,
                ChannelLink::Decline => VerificationOutcome::Declined,
            }
        },
{
    if !written {
        VerificationOutcome::ServerError
    } else {
        match link {
            ChannelLink::Verify => VerificationOutcome::Verified,
            ChannelLink::Decline => VerificationOutcome::Declined,
        }
    }
}

/// The heading of the page for an outcome.
pub open spec fn outcome_title(o: VerificationOutcome) -> Seq<char> {
    match o {
        VerificationOutcome::Verified => "Channel verified"@,
        VerificationOutcome::Declined => "Channel declined"@,
        VerificationOutcome::Invalid => "Link invalid or expired"@,
        VerificationOutcome::ServerError => "Verification failed"@,
    }
}

/// The sentence of the page for an outcome.
pub open spec fn outcome_body(o: VerificationOutcome) -> Seq<char> {
    match o {
        VerificationOutcome::Verified =>
            "Your notification channel is now verified. You will receive incident alerts at this address."@,
        VerificationOutcome::Declined =>
            "The notification channel has been disabled. You will not receive alerts at this address."@,
        VerificationOutcome::Invalid =>
            "This verification link is invalid, expired, or already used. Request a new link from your status page settings."@,
        VerificationOutcome::ServerError =>
            "We couldn't complete your request right now. Please try again later, or contact your administrator."@,
    }
}

/// The page for an outcome.
pub open spec fn outcome_page(o: VerificationOutcome) -> Seq<char> {
    "<!doctype html>\n<html lang=\"en\">\n<head>\n<meta charset=\"utf-8\">\n<meta name=\"viewport\" content=\"width=device-width, initial-scale=1\">\n<title>"@
        + outcome_title(o)
        + "</title>\n<style>\n  body { font-family: -apple-system, BlinkMacSystemFont, \"Segoe UI\", Roboto, sans-serif;\n         background: #f8fafc; color: #0f172a; margin: 0; padding: 2rem; }\n  .card { max-width: 32rem; margin: 2rem auto; background: #fff; border-radius: 12px;\n          padding: 2rem; box-shadow: 0 1px 3px rgba(0,0,0,.1); }\n  h1 { font-size: 1.25rem; margin: 0 0 1rem; }\n  p { margin: 0; line-height: 1.5; color: #475569; }\n</style>\n</head>\n<body>\n  <main class=\"card\" role=\"alert\">\n    <h1>"@
        + outcome_title(o) + "</h1>\n    <p>"@ + outcome_body(o)
        + "</p>\n  </main>\n</body>\n</html>"@
}

/// The page for an outcome. A link that is no longer good is still answered with
/// 200, so that previews of it work; only a failure of the store is a 500.
pub fn verification_response(outcome: VerificationOutcome) -> (r: TextReply)
    ensures
        r.status == if outcome is ServerError {
            500u16
        } else {
            200u16
        },
        r.content_type@ == "text/html; charset=utf-8"@,
        r.body@ == outcome_page(outcome),
{
    let (title, body) = match outcome {
        VerificationOutcome::Verified => (
            "Channel verified",
            "Your notification channel is now verified. You will receive incident alerts at this address.",
        ),
        VerificationOutcome::Declined => (
            "Channel declined",
            "The notification channel has been disabled. You will not receive alerts at this address.",
        ),
        VerificationOutcome::Invalid => (
            "Link invalid or expired",
            "This verification link is invalid, expired, or already used. Request a new link from your status page settings.",
        ),
        VerificationOutcome::ServerError => (
            "Verification failed",
            "We couldn't complete your request right now. Please try again later, or contact your administrator.",
        ),
    };
    let mut html = owned(
        "<!doctype html>\n<html lang=\"en\">\n<head>\n<meta charset=\"utf-8\">\n<meta name=\"viewport\" content=\"width=device-width, initial-scale=1\">\n<title>",
    );
    html.append(title);
    html.append(
        "</title>\n<style>\n  body { font-family: -apple-system, BlinkMacSystemFont, \"Segoe UI\", Roboto, sans-serif;\n         background: #f8fafc; color: #0f172a; margin: 0; padding: 2rem; }\n  .card { max-width: 32rem; margin: 2rem auto; background: #fff; border-radius: 12px;\n          padding: 2rem; box-shadow: 0 1px 3px rgba(0,0,0,.1); }\n  h1 { font-size: 1.25rem; margin: 0 0 1rem; }\n  p { margin: 0; line-height: 1.5; color: #475569; }\n</style>\n</head>\n<body>\n  <main class=\"card\" role=\"alert\">\n    <h1>",
    );
    html.append(title);
    html.append("</h1>\n    <p>");
    html.append(body);
    html.append("</p>\n  </main>\n</body>\n</html>");
    let status: u16 = if outcome == VerificationOutcome::ServerError {
        500
    } else {
        200
    };
    TextReply { status, content_type: "text/html; charset=utf-8", body: html }
}

/// What a one-click unsubscribe answers once the store was asked to delete the
/// subscriber: 204, or 404 where there was none. Either way nobody is left to write to.
pub fn unsubscribe_subscriber(deleted: Result<(), AppError>) -> (r: Result<u16, AppError>)
    ensures
        match deleted {
            Ok(_) => r == Ok::<u16, AppError>(204),
            Err(e) => if e is NotFound {
                r == Ok::<u16, AppError>(404)
            } else {
                r == Err::<u16, AppError>(e)
            },
        },
{
    match deleted {
        Ok(_) => Ok(204),
        Err(AppError::NotFound { code: _, message: _ }) => Ok(404),
        Err(e) => Err(e),
    }
}

/// The refusal of a share token.
fn share_not_found() -> (e: AppError)
    ensures
        crate::error::is_not_found(
            e,
            "SHARE_NOT_FOUND"@,
            "share token is invalid or expired"@,
        ),
{
    not_found("SHARE_NOT_FOUND", owned("share token is invalid or expired"))
}

/// The key that a share token is looked up by; an empty token is refused.
pub fn share_key(token: &str) -> (r: Result<String, AppError>)
    ensures
        match r {
            Ok(key) => crate::text::trimmed(token@).len() > 0 && key@ == crate::codec::sha256_text(
                vstd::utf8::encode_utf8(crate::text::trimmed(token@)),
            ),
            Err(e) => crate::text::trimmed(token@).len() == 0 && crate::error::is_not_found(
                e,
                "SHARE_NOT_FOUND"@,
                "share token is invalid or expired"@,
            ),
        },
{
    let bare = trim(token);
    if bare.as_str().is_empty() {
        Err(share_not_found())
    } else {
        Ok(hash_cookie_value(bare.as_str()))
    }
}

/// The target that a share stands for; a share that was not found is refused.
pub fn shared_target(resolved: Option<Id>) -> (r: Result<Id, AppError>)
    ensures
        match resolved {
            Some(id) => r == Ok::<Id, AppError>(id),
            None => r matches Err(e) && crate::error::is_not_found(
                e,
                "SHARE_NOT_FOUND"@,
                "share token is invalid or expired"@,
            ),
        },
{
    match resolved {
        Some(id) => Ok(id),
        None => Err(share_not_found()),
    }
}

/// One monitor as its share link shows it.
#[derive(Clone, Debug)]
pub struct SharedMonitorView {
    pub public_display_name: String,
    pub current_status: PublicComponentStatus,
    pub recent_results: Vec<CheckResult>,
    pub history: Vec<DayState>,
}

/// What a share link shows of the target called `name`. Its status goes by the
/// latest check, and is operational before the first.
pub fn get_shared_monitor(
    name: String,
    latest: Option<CheckStatus>,
    recent_results: Vec<CheckResult>,
    history: Vec<DayState>,
) -> (r: SharedMonitorView)
    ensures
        r.public_display_name == name,
        r.current_status == match latest {
            Some(s) => crate::public::status::status_for_result(s),
            None => PublicComponentStatus::Operational,
        },
        r.recent_results == recent_results,
        r.history == history,
{
    let current_status = match latest {
        Some(s) => component_status_from_result(s),
        None => PublicComponentStatus::Operational,
    };
    SharedMonitorView { public_display_name: name, current_status, recent_results, history }
}

/// The days of one target over a span.
#[derive(Clone, Debug)]
pub struct ComponentHistoryResponse {
    pub target_id: Id,
    pub from: Moment,
    pub to: Moment,
    pub history: Vec<DayState>,
}

/// The span that a day history covers at `now`: the 90 days that end then.
pub fn history_window(now: Moment) -> (r: (Moment, Moment))
    requires
        crate::time::on_calendar(now as int),
        crate::time::on_calendar(now - 90 * DAY),
    ensures
        r.0 == now - 90 * DAY,
        r.1 == now,
{
    (now - 90 * DAY, now)
}

/// The day history of a target over the span that was asked for.
pub fn get_component_history(
    target_id: Id,
    window: (Moment, Moment),
    history: Vec<DayState>,
) -> (r: ComponentHistoryResponse)
    ensures
        r == (ComponentHistoryResponse { target_id, from: window.0, to: window.1, history }),
{
    ComponentHistoryResponse { target_id, from: window.0, to: window.1, history }
}

/// A verification link writes to a channel only after its token was found good,
/// and then to that token's channel alone.
pub proof fn law_only_a_good_token_writes(link: ChannelLink, consumed: Consumed, action: LinkAction)
    requires
        call_ensures(after_consume, (link, consumed), action),
    ensures
        action is MarkVerified ==> link is Verify && consumed == Consumed::Channel(
            action->MarkVerified_channel_id,
        ),
        action is Disable ==> link is Decline && consumed == Consumed::Channel(
            action->Disable_channel_id,
        ),
        !(consumed is Channel) ==> action is Respond,
{
}

} // verus!
