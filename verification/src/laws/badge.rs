//! The badge of a page, and the pages behind links.

use vstd::prelude::*;
use vstd::string::*;

use crate::domain::{CheckResult, CheckStatus, DayState, MaintenanceWindow, PublicComponentStatus};
use crate::markup::TextReply;
use crate::public::badge::{
    render_badge_payload, render_badge_svg, uptime_counts, BadgePayload,
};
use crate::public::incident::IncidentRecord;
use crate::public::links::{
    get_shared_monitor, history_window, verification_response, ChannelToken, Consumed,
    SharedMonitorView, VerificationOutcome,
};
use crate::public::snapshot::ComponentReading;
use crate::time::Moment;

verus! {

/// The days of all components, one component after the other.
pub open spec fn all_days(components: Seq<ComponentReading>) -> Seq<DayState> {
    Seq::new(components.len(), |i: int| components[i].history@).flatten_alt()
}

/// The days in a state in which a component can be used.
pub open spec fn good_days(days: Seq<DayState>) -> Seq<DayState> {
    days.filter(|d: DayState| d == DayState::Operational || d == DayState::Degraded)
}

/// What one more component adds to the days.
proof fn lemma_days(components: Seq<ComponentReading>)
    ensures
        crate::public::badge::total_days(components) == all_days(components).len(),
        crate::public::badge::total_up_days(components) == good_days(all_days(components)).len(),
    decreases components.len(),
{
    let good = |d: DayState| d == DayState::Operational || d == DayState::Degraded;
    let histories = Seq::new(components.len(), |i: int| components[i].history@);
    if components.len() > 0 {
        let rest = components.drop_last();
        lemma_days(rest);
        assert(histories.drop_last() =~= Seq::new(rest.len(), |i: int| rest[i].history@));
        assert(all_days(components) == all_days(rest) + components.last().history@);
        Seq::filter_distributes_over_add(all_days(rest), components.last().history@, good);
        lemma_up_days(components.last().history@);
    } else {
        assert(all_days(components) =~= Seq::<DayState>::empty());
        reveal(Seq::filter);
        assert(good_days(all_days(components)) =~= Seq::<DayState>::empty());
    }
}

/// How many of some days are good.
proof fn lemma_up_days(days: Seq<DayState>)
    ensures
        crate::public::badge::up_days(days) == good_days(days).len(),
    decreases days.len(),
{
    reveal(Seq::filter);
    if days.len() > 0 {
        lemma_up_days(days.drop_last());
    }
}

/// Of all days those count as up on which the component was operational or degraded.
pub proof fn law_usable_days_count_as_up(components: &Vec<ComponentReading>, r: (u64, u64))
    requires
        call_ensures(uptime_counts, (components,), r),
    ensures
        r.0 == all_days(components@).len(),
        r.1 == good_days(all_days(components@)).len(),
{
    lemma_days(components@);
}

/// The badge of a page says how the page is: the words and the colour of its worst
/// component. `statuses` are the states of the components.
pub proof fn law_a_status_badge_says_how_the_page_is(
    badge_type: Option<&str>,
    components: &Vec<ComponentReading>,
    windows: &Vec<MaintenanceWindow>,
    records: &Vec<IncidentRecord>,
    percent: &str,
    r: BadgePayload,
) -> (statuses: Seq<PublicComponentStatus>)
    requires
        call_ensures(render_badge_payload, (badge_type, components, windows, records, percent), r),
        badge_type is None,
    ensures
        r.label@ == "status"@,
        statuses.len() == components@.len(),
        forall|i: int|
            0 <= i < statuses.len() ==> crate::laws::public::has_to_be(
                #[trigger] statuses[i],
                windows@,
                records@,
                components@[i].component.target_id,
                components@[i].latest,
            ),
        ({
            let major = statuses.contains(PublicComponentStatus::MajorOutage);
            let partial = statuses.contains(PublicComponentStatus::PartialOutage)
                || statuses.contains(PublicComponentStatus::Degraded);
            let worked_on = statuses.contains(PublicComponentStatus::Maintenance);
            if major {
                r.value@ == "Major Outage"@ && r.color@ == "#EF4444"@
            } else if partial {
                r.value@ == "Partial Outage"@ && r.color@ == "#F97316"@
            } else if worked_on {
                r.value@ == "Under Maintenance"@ && r.color@ == "#F59E0B"@
            } else {
                r.value@ == "All Systems Operational"@ && r.color@ == "#22C55E"@
            }
        }),
{
    let statuses = Seq::new(
        components@.len(),
        |i: int|
            crate::public::status::status_of_target(
                windows@,
                records@,
                components@[i].component.target_id,
                components@[i].latest,
            ),
    );
    assert forall|i: int| 0 <= i < statuses.len() implies crate::laws::public::has_to_be(
        #[trigger] statuses[i],
        windows@,
        records@,
        components@[i].component.target_id,
        components@[i].latest,
    ) by {
        crate::laws::public::lemma_status(
            windows@,
            records@,
            components@[i].component.target_id,
            components@[i].latest,
        );
    }
    crate::public::status::law_worst_state_is_the_worst(statuses);
    let worst = crate::public::status::worst_state(statuses);
    if !(worst is Operational) {
        let i = choose|i: int|
            0 <= i < statuses.len() && crate::public::status::overall_for(#[trigger] statuses[i])
                == worst;
        assert(statuses.contains(statuses[i]));
    }
    assert forall|s: PublicComponentStatus| #[trigger]
        statuses.contains(s) implies crate::public::status::overall_rank(
        crate::public::status::overall_for(s),
    ) <= crate::public::status::overall_rank(worst) by {
        let i = choose|i: int| 0 <= i < statuses.len() && statuses[i] == s;
        assert(statuses[i] == s);
    }
    assert(statuses.contains(PublicComponentStatus::MajorOutage)
        ==> crate::public::status::overall_rank(worst) == 4);
    assert(statuses.contains(PublicComponentStatus::PartialOutage)
        ==> crate::public::status::overall_rank(worst) >= 3);
    assert(statuses.contains(PublicComponentStatus::Degraded)
        ==> crate::public::status::overall_rank(worst) >= 3);
    assert(statuses.contains(PublicComponentStatus::Maintenance)
        ==> crate::public::status::overall_rank(worst) >= 1);
    statuses
}

/// The uptime badge shows the share of good days: green from 99.5 percent on or without
/// any days, amber from 95 percent on, and red below.
pub proof fn law_an_uptime_badge_is_coloured_by_the_share_of_good_days(
    badge_type: Option<&str>,
    components: &Vec<ComponentReading>,
    windows: &Vec<MaintenanceWindow>,
    records: &Vec<IncidentRecord>,
    percent: &str,
    r: BadgePayload,
)
    requires
        call_ensures(render_badge_payload, (badge_type, components, windows, records, percent), r),
        badge_type matches Some(t) && t@ == "uptime"@,
    ensures
        r.label@ == "uptime"@,
        r.value@ == percent@ + "% uptime"@,
        ({
            let total = all_days(components@).len();
            let good = good_days(all_days(components@)).len();
            &&& 1000 * good >= 995 * total ==> r.color@ == "#22C55E"@
            &&& 1000 * good < 995 * total && 100 * good >= 95 * total ==> r.color@ == "#F59E0B"@
            &&& 100 * good < 95 * total ==> r.color@ == "#EF4444"@
        }),
{
    lemma_days(components@);
    let t = badge_type->0@;
    assert(crate::text::same_ignoring_ascii_case(t, t));
}

/// A badge is as wide as its two halves, each 6.5 pixels a character, rounded down, but at
/// least 40 and 60; the texts stand in the middle of their halves, escaped.
pub proof fn law_a_badge_is_as_wide_as_its_texts(
    label: &str,
    value: &str,
    color: &str,
    r: String,
) -> (widths: (nat, nat))
    requires
        call_ensures(render_badge_svg, (label, value, color), r),
        crate::markup::escaped(label@).len() < 100_000_000,
        crate::markup::escaped(value@).len() < 100_000_000,
    ensures
        ({
            let l = crate::markup::escaped(label@);
            let v = crate::markup::escaped(value@);
            let (a, b) = widths;
            let total = crate::text::decimal(a + b);
            &&& 13 * l.len() < 80 ==> a == 40
            &&& 13 * l.len() >= 80 ==> 2 * a <= 13 * l.len() < 2 * a + 2
            &&& 13 * v.len() < 120 ==> b == 60
            &&& 13 * v.len() >= 120 ==> 2 * b <= 13 * v.len() < 2 * b + 2
            &&& r@ == "<svg xmlns=\"http://www.w3.org/2000/svg\" width=\""@ + total
                + "\" height=\"20\" role=\"img\" aria-label=\""@ + l + ": "@ + v
                + "\">\n  <title>"@ + l + ": "@ + v + "</title>\n  <desc>Status badge — "@ + l
                + ": "@ + v
                + "</desc>\n  <linearGradient id=\"b\" x2=\"0\" y2=\"100%\">\n    <stop offset=\"0\" stop-color=\"#bbb\" stop-opacity=\".1\"/>\n    <stop offset=\"1\" stop-opacity=\".1\"/>\n  </linearGradient>\n  <rect width=\""@
                + total + "\" height=\"20\" fill=\"#555\"/>\n  <rect x=\""@ + crate::text::decimal(
                a,
            ) + "\" width=\""@ + crate::text::decimal(b) + "\" height=\"20\" fill=\""@ + color@
                + "\"/>\n  <rect width=\""@ + total
                + "\" height=\"20\" fill=\"url(#b)\"/>\n  <text x=\""@ + crate::text::decimal(a / 2)
                + "\" y=\"14\" fill=\"#fff\" font-family=\"Verdana,DejaVu Sans,sans-serif\" font-size=\"11\" text-anchor=\"middle\">"@
                + l + "</text>\n  <text x=\""@ + crate::text::decimal(a + b / 2)
                + "\" y=\"14\" fill=\"#fff\" font-family=\"Verdana,DejaVu Sans,sans-serif\" font-size=\"11\" text-anchor=\"middle\">"@
                + v + "</text>\n</svg>"@
        }),
{
    let a = crate::public::badge::label_width(label@);
    let b = crate::public::badge::value_width(value@);
    (a as nat, b as nat)
}

/// A link that is no longer good is answered like one that is, with 200, so that previews
/// work; only a failure is a 500. The page says which it was.
pub proof fn law_only_failures_are_answered_as_errors(
    outcome: VerificationOutcome,
    r: TextReply,
) -> (around: (Seq<char>, Seq<char>))
    requires
        call_ensures(verification_response, (outcome,), r),
    ensures
        r.status == 500 <==> outcome == VerificationOutcome::ServerError,
        r.status == 200 <==> outcome != VerificationOutcome::ServerError,
        ({
            let title = match outcome {
                VerificationOutcome::Verified => "Channel verified"@,
                VerificationOutcome::Declined => "Channel declined"@,
                VerificationOutcome::Invalid => "Link invalid or expired"@,
                VerificationOutcome::ServerError => "Verification failed"@,
            };
            let said = match outcome {
                VerificationOutcome::Verified =>
                    "Your notification channel is now verified. You will receive incident alerts at this address."@,
                VerificationOutcome::Declined =>
                    "The notification channel has been disabled. You will not receive alerts at this address."@,
                VerificationOutcome::Invalid =>
                    "This verification link is invalid, expired, or already used. Request a new link from your status page settings."@,
                VerificationOutcome::ServerError =>
                    "We couldn't complete your request right now. Please try again later, or contact your administrator."@,
            };
            r.body@ == around.0 + title + "</h1>\n    <p>"@ + said + around.1
        }),
{
    let title = crate::public::links::outcome_title(outcome);
    let before =
        "<!doctype html>\n<html lang=\"en\">\n<head>\n<meta charset=\"utf-8\">\n<meta name=\"viewport\" content=\"width=device-width, initial-scale=1\">\n<title>"@
        + title
        + "</title>\n<style>\n  body { font-family: -apple-system, BlinkMacSystemFont, \"Segoe UI\", Roboto, sans-serif;\n         background: #f8fafc; color: #0f172a; margin: 0; padding: 2rem; }\n  .card { max-width: 32rem; margin: 2rem auto; background: #fff; border-radius: 12px;\n          padding: 2rem; box-shadow: 0 1px 3px rgba(0,0,0,.1); }\n  h1 { font-size: 1.25rem; margin: 0 0 1rem; }\n  p { margin: 0; line-height: 1.5; color: #475569; }\n</style>\n</head>\n<body>\n  <main class=\"card\" role=\"alert\">\n    <h1>"@;
    let after = "</p>\n  </main>\n</body>\n</html>"@;
    assert(r.body@ == before + title + "</h1>\n    <p>"@ + crate::public::links::outcome_body(
        outcome,
    ) + after);
    (before, after)
}

/// Using up a token finds a channel exactly where a token with this hash is neither used
/// nor expired, and marks that one token as used and no other.
pub proof fn law_a_good_token_is_used_up(
    before: Seq<ChannelToken>,
    token_hash: Seq<char>,
    now: Moment,
    r: Consumed,
    after: Seq<ChannelToken>,
)
    requires
        crate::public::links::is_used_up(before, token_hash, now, r, after),
    ensures
        r is Channel <==> exists|k: int|
            {
                &&& 0 <= k < before.len()
                &&& (#[trigger] before[k]).token_hash@ == token_hash
                &&& !before[k].used
                &&& now <= before[k].expires_at
            },
        !(r is Failed),
        after.len() == before.len(),
        r is Nothing ==> after == before,
        r matches Consumed::Channel(id) ==> exists|k: int|
            {
                &&& 0 <= k < before.len()
                &&& (#[trigger] before[k]).token_hash@ == token_hash
                &&& !before[k].used
                &&& now <= before[k].expires_at
                &&& before[k].channel_id == id
                &&& after[k] == (ChannelToken { used: true, ..before[k] })
                &&& forall|j: int| 0 <= j < before.len() && j != k ==> #[trigger] after[j]
                    == before[j]
            },
{
    if let Consumed::Channel(id) = r {
        let k = choose|k: int|
            {
                &&& #[trigger] crate::public::links::is_first_good(before, token_hash, now, k)
                &&& id == before[k].channel_id
                &&& after == before.update(k, ChannelToken { used: true, ..before[k] })
            };
        assert(before[k].token_hash@ == token_hash);
    } else {
        assert forall|k: int| 0 <= k < before.len() implies !{
            &&& (#[trigger] before[k]).token_hash@ == token_hash
            &&& !before[k].used
            &&& now <= before[k].expires_at
        } by {
            assert(!crate::public::links::is_good(before[k], token_hash, now));
        }
    }
}

/// A shared monitor is shown as its latest check found it: down as a major outage, and as
/// operational exactly where it was found up or never checked.
pub proof fn law_a_shared_monitor_is_as_its_check_found_it(
    name: String,
    latest: Option<CheckStatus>,
    results: Vec<CheckResult>,
    history: Vec<DayState>,
    r: SharedMonitorView,
)
    requires
        call_ensures(get_shared_monitor, (name, latest, results, history), r),
    ensures
        r.current_status == PublicComponentStatus::MajorOutage <==> latest == Some(
            CheckStatus::Down,
        ),
        r.current_status == PublicComponentStatus::Operational <==> latest is None || latest
            == Some(CheckStatus::Up),
        r.current_status == PublicComponentStatus::Degraded <==> latest == Some(
            CheckStatus::Degraded,
        ),
        r.current_status == PublicComponentStatus::PartialOutage <==> latest == Some(
            CheckStatus::Error,
        ) || latest == Some(CheckStatus::Unknown),
{
}

/// A day history covers the 90 days that end now.
pub proof fn law_a_history_covers_ninety_days(now: Moment, r: (Moment, Moment))
    requires
        call_ensures(history_window, (now,), r),
    ensures
        r.1 == now,
        r.1 - r.0 == 90 * 24 * 60 * 60 * 1_000_000_000,
{
}

} // verus!
