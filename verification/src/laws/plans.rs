//! Escalation policies, on-call schedules, figures and the badges of single targets.

use vstd::prelude::*;
use vstd::string::*;

use crate::api::badges::{
    average_ms, count_up, health_badge, health_badge_shields, response_time_badge, svg_badge,
    uptime_badge, uptime_color, ShieldsBadge,
};
use crate::api::dashboard::{dashboard_summary, DashboardSummary};
use crate::api::escalation_policies::{
    build_policy, validate_new_policy, validate_target, NewEscalationPolicy, NewEscalationTarget,
};
use crate::api::exposition::metrics;
use crate::api::on_call_schedules::{
    build_schedule_detail, validate_schedule_in, NewOnCallSchedule, OnCallScheduleDetail,
};
use crate::api::targets::TargetRollup;
use crate::codec::Id;
use crate::domain::{CheckResult, CheckStatus, Target};
use crate::engine::escalation::{EscalationPolicy, EscalationTargetType};
use crate::error::AppError;
use crate::markup::TextReply;
use crate::time::Moment;

verus! {

/// Whether a target of a step names exactly whom its type asks for.
pub open spec fn names_its_own(t: NewEscalationTarget) -> bool {
    match t.target_type {
        EscalationTargetType::User => t.user_id is Some && t.schedule_id is None && t.channel_id
            is None,
        EscalationTargetType::Schedule => t.user_id is None && t.schedule_id is Some
            && t.channel_id is None,
        EscalationTargetType::Channel => t.user_id is None && t.schedule_id is None
            && t.channel_id is Some,
        EscalationTargetType::Unknown => false,
    }
}

/// A target of a step is good exactly where it names whom its type asks for, and nobody
/// else.
pub proof fn law_targets_of_steps_name_one(t: &NewEscalationTarget, r: Result<(), String>)
    requires
        call_ensures(validate_target, (t,), r),
    ensures
        r is Ok <==> names_its_own(*t),
{
}

/// A policy is accepted exactly where its name is not blank, its levels are positive, and
/// all its targets name whom their types ask for.
pub proof fn law_policies_are_accepted_when_complete(
    new: &NewEscalationPolicy,
    name: &str,
    stripped: String,
    r: Result<(), AppError>,
)
    requires
        call_ensures(validate_new_policy, (new,), r),
        name@ == new.name@,
        call_ensures(crate::text::trim, (name,), stripped),
    ensures
        r is Ok <==> {
            &&& stripped@.len() > 0
            &&& forall|i: int| 0 <= i < new.steps@.len() ==> (#[trigger] new.steps@[i]).level > 0
            &&& forall|i: int, j: int|
                0 <= i < new.steps@.len() && 0 <= j < new.steps@[i].targets@.len()
                    ==> names_its_own(#[trigger] new.steps@[i].targets@[j])
        },
        r matches Err(e) ==> e is BadRequest,
{
    crate::api::escalation_policies::law_accepted_policies_are_the_good_ones(*new);
    let steps = new.steps@;
    if r is Ok {
        assert forall|i: int| 0 <= i < steps.len() implies (#[trigger] steps[i]).level > 0 by {
            assert(crate::api::escalation_policies::is_good_step(steps[i]));
        }
        assert forall|i: int, j: int|
            0 <= i < steps.len() && 0 <= j < steps[i].targets@.len() implies names_its_own(
            #[trigger] steps[i].targets@[j],
        ) by {
            assert(crate::api::escalation_policies::is_good_step(steps[i]));
            assert(crate::api::escalation_policies::is_good_target(steps[i].targets@[j]));
        }
    }
    if stripped@.len() > 0 && (forall|i: int|
        0 <= i < steps.len() ==> (#[trigger] steps[i]).level > 0) && (forall|i: int, j: int|
        0 <= i < steps.len() && 0 <= j < steps[i].targets@.len() ==> names_its_own(
            #[trigger] steps[i].targets@[j],
        )) {
        assert forall|i: int| 0 <= i < steps.len() implies
            crate::api::escalation_policies::is_good_step(#[trigger] steps[i]) by {
            assert forall|j: int| 0 <= j < steps[i].targets@.len() implies
                crate::api::escalation_policies::is_good_target(
                #[trigger] steps[i].targets@[j],
            ) by {
                assert(names_its_own(steps[i].targets@[j]));
            }
        }
    }
}

/// A policy is made with the steps and targets that were asked for, in their order and
/// under the identifiers given.
pub proof fn law_policies_are_made_as_asked_for(
    id: Id,
    new: &NewEscalationPolicy,
    ids: &Vec<(Id, Vec<Id>)>,
    now: Moment,
    r: EscalationPolicy,
    i: int,
    j: int,
)
    requires
        call_ensures(build_policy, (id, new, ids, now), r),
        0 <= i < new.steps@.len(),
    ensures
        r.id == id,
        r.name@ == new.name@,
        r.description == new.description,
        r.repeat_count == new.repeat_count,
        r.created_at == now,
        r.updated_at == now,
        r.steps@.len() == new.steps@.len(),
        r.steps@[i].id == ids@[i].0,
        r.steps@[i].level == new.steps@[i].level,
        r.steps@[i].delay_secs == new.steps@[i].delay_secs,
        r.steps@[i].targets@.len() == new.steps@[i].targets@.len(),
        0 <= j < new.steps@[i].targets@.len() ==> {
            let made = r.steps@[i].targets@[j];
            let asked = new.steps@[i].targets@[j];
            &&& made.id == ids@[i].1@[j]
            &&& made.target_type == asked.target_type
            &&& made.user_id == asked.user_id
            &&& made.schedule_id == asked.schedule_id
            &&& made.channel_id == asked.channel_id
        },
{
    assert(crate::api::escalation_policies::is_made_step(
        r.steps@[i],
        new.steps@[i],
        ids@[i].0,
        ids@[i].1@,
    ));
    if 0 <= j < new.steps@[i].targets@.len() {
        assert(crate::api::escalation_policies::is_made_target(
            r.steps@[i].targets@[j],
            new.steps@[i].targets@[j],
            ids@[i].1@[j],
        ));
    }
}

/// A schedule is accepted exactly where its name is not blank, its time zone is one, and
/// each rotation takes some time and has somebody in it.
pub proof fn law_schedules_are_accepted_when_complete(
    new: &NewOnCallSchedule,
    zone_known: bool,
    name: &str,
    stripped: String,
    r: Result<(), AppError>,
)
    requires
        call_ensures(validate_schedule_in, (new, zone_known), r),
        name@ == new.name@,
        call_ensures(crate::text::trim, (name,), stripped),
    ensures
        r is Ok <==> {
            &&& stripped@.len() > 0
            &&& zone_known
            &&& forall|i: int|
                0 <= i < new.layers@.len() ==> (#[trigger] new.layers@[i]).rotation_length_secs > 0
                    && new.layers@[i].participants@.len() > 0
        },
        r matches Err(e) ==> e is BadRequest,
{
    crate::api::on_call_schedules::law_accepted_schedules_can_rotate(*new, zone_known);
}

/// A schedule is made with the rotations and people that were asked for, each in their
/// order and under the identifiers given.
pub proof fn law_schedules_are_made_as_asked_for(
    id: Id,
    new: &NewOnCallSchedule,
    ids: &Vec<(Id, Vec<Id>)>,
    now: Moment,
    r: OnCallScheduleDetail,
    i: int,
    k: int,
)
    requires
        call_ensures(build_schedule_detail, (id, new, ids, now), r),
        0 <= i < new.layers@.len(),
    ensures
        r.schedule.id == id,
        r.schedule.name@ == new.name@,
        r.schedule.timezone@ == new.timezone@,
        r.overrides@.len() == 0,
        r.layers@.len() == new.layers@.len(),
        r.layers@[i].id == ids@[i].0,
        r.layers@[i].name@ == new.layers@[i].name@,
        r.layers@[i].rotation_type@ == new.layers@[i].rotation_type@,
        r.layers@[i].rotation_length_secs == new.layers@[i].rotation_length_secs,
        r.layers@[i].handoff_at == new.layers@[i].handoff_at,
        r.layers@[i].layer_order == new.layers@[i].layer_order,
        r.layers@[i].created_at == now,
        r.layers@[i].participants@.len() == new.layers@[i].participants@.len(),
        0 <= k < new.layers@[i].participants@.len() ==> {
            let made = r.layers@[i].participants@[k];
            &&& made.id == ids@[i].1@[k]
            &&& made.user_id == new.layers@[i].participants@[k].user_id
            &&& k <= i32::MAX ==> made.position == k
        },
{
    assert(crate::api::on_call_schedules::is_made_layer(
        r.layers@[i],
        new.layers@[i],
        ids@[i].0,
        ids@[i].1@,
        now,
    ));
    if 0 <= k < new.layers@[i].participants@.len() {
        assert(r.layers@[i].participants@[k].id == ids@[i].1@[k]);
    }
}

/// One more target in a state is one more in that figure and in no other; all targets are
/// counted in the total, and those switched off once more.
pub proof fn law_figures_count_one_by_one(
    targets: &Vec<Target>,
    rollup: &Vec<TargetRollup>,
    r: DashboardSummary,
    more_targets: &Vec<Target>,
    more: &Vec<TargetRollup>,
    s: DashboardSummary,
    t: Target,
    one: TargetRollup,
)
    requires
        call_ensures(dashboard_summary, (targets, rollup), r),
        call_ensures(dashboard_summary, (more_targets, more), s),
        more_targets@ == targets@.push(t),
        more@ == rollup@.push(one),
    ensures
        s.up == r.up + (if one.current_status == CheckStatus::Up {
            1int
        } else {
            0
        }),
        s.down == r.down + (if one.current_status == CheckStatus::Down {
            1int
        } else {
            0
        }),
        s.degraded == r.degraded + (if one.current_status == CheckStatus::Degraded {
            1int
        } else {
            0
        }),
        s.error == r.error + (if one.current_status == CheckStatus::Error {
            1int
        } else {
            0
        }),
        s.total == r.total + 1,
        s.disabled == r.disabled + (if t.enabled {
            0int
        } else {
            1
        }),
{
    lemma_one_more(rollup@, one, CheckStatus::Up);
    lemma_one_more(rollup@, one, CheckStatus::Down);
    lemma_one_more(rollup@, one, CheckStatus::Degraded);
    lemma_one_more(rollup@, one, CheckStatus::Error);
    let off = |x: Target| !x.enabled;
    assert(targets@.push(t).drop_last() =~= targets@);
    reveal(Seq::filter);
}

/// One more in a state is one more of it.
proof fn lemma_one_more(rollup: Seq<TargetRollup>, one: TargetRollup, wanted: CheckStatus)
    ensures
        crate::api::dashboard::in_state(rollup.push(one), wanted)
            == crate::api::dashboard::in_state(rollup, wanted) + (if one.current_status == wanted {
            1int
        } else {
            0
        }),
{
    assert(rollup.push(one).drop_last() =~= rollup);
    reveal(Seq::filter);
}

/// Without targets and states all figures are nought.
pub proof fn law_figures_start_at_nought(
    targets: &Vec<Target>,
    rollup: &Vec<TargetRollup>,
    r: DashboardSummary,
)
    requires
        call_ensures(dashboard_summary, (targets, rollup), r),
        targets@.len() == 0,
        rollup@.len() == 0,
    ensures
        r.up == 0 && r.down == 0 && r.degraded == 0 && r.error == 0 && r.total == 0 && r.disabled
            == 0,
{
    reveal(Seq::filter);
}

/// How a health badge puts the latest check.
pub proof fn law_health_is_put_in_words(latest: Option<CheckStatus>, r: ShieldsBadge)
    requires
        call_ensures(health_badge_shields, (latest,), r),
    ensures
        r.schema_version == 1,
        r.label@ == "status"@,
        latest == Some(CheckStatus::Up) ==> r.message@ == "up"@ && r.color@ == "brightgreen"@,
        latest == Some(CheckStatus::Degraded) ==> r.message@ == "degraded"@ && r.color@
            == "yellow"@,
        latest == Some(CheckStatus::Down) ==> r.message@ == "down"@ && r.color@ == "red"@,
        latest == Some(CheckStatus::Error) || latest == Some(CheckStatus::Unknown) ==> r.message@
            == "unknown"@ && r.color@ == "lightgrey"@,
        latest is None ==> r.message@ == "no data"@ && r.color@ == "lightgrey"@,
{
}

/// A health badge is the badge of the target's name and of the word for its latest check,
/// in its colour; that of a target that is gone knows nothing.
pub proof fn law_health_badges_show_the_latest_check(
    name: &str,
    latest: CheckStatus,
    r: TextReply,
    up: String,
    degraded: String,
    down: String,
    error: String,
    gone: TextReply,
    unknown: String,
)
    requires
        call_ensures(health_badge, (Some(name), Some(latest)), r),
        call_ensures(svg_badge, (name, "up", "brightgreen"), up),
        call_ensures(svg_badge, (name, "degraded", "yellow"), degraded),
        call_ensures(svg_badge, (name, "down", "red"), down),
        call_ensures(svg_badge, (name, "error", "lightgrey"), error),
        call_ensures(health_badge, (None, Some(latest)), gone),
        call_ensures(svg_badge, ("status", "unknown", "lightgrey"), unknown),
    ensures
        r.status == 200,
        r.content_type@ == "image/svg+xml"@,
        latest == CheckStatus::Up ==> r.body@ == up@,
        latest == CheckStatus::Degraded ==> r.body@ == degraded@,
        latest == CheckStatus::Down ==> r.body@ == down@,
        latest == CheckStatus::Error ==> r.body@ == error@,
        gone.body@ == unknown@,
{
}

/// A badge holds its two texts, each written twice and in its own half, the value in the
/// colour given.
pub proof fn law_badges_hold_their_texts(
    label: &str,
    value: &str,
    color: &str,
    r: String,
) -> (parts: Seq<Seq<char>>)
    requires
        call_ensures(svg_badge, (label, value, color), r),
    ensures
        parts.len() == 6,
        r@ == parts[0] + color@ + parts[1] + label@ + parts[2] + label@ + parts[3] + value@
            + parts[4] + value@ + parts[5],
{
    let lw = crate::api::badges::text_width(label.spec_bytes().len() as int);
    let vw = crate::api::badges::text_width(value.spec_bytes().len() as int);
    let total = crate::text::decimal((lw + vw) as nat);
    let lx = crate::text::decimal((lw / 2) as nat);
    let vx = crate::text::decimal((lw + vw / 2) as nat);
    let p0 = "<svg xmlns=\"http://www.w3.org/2000/svg\" width=\""@ + total
        + "\" height=\"20\">\n  <linearGradient id=\"b\" x2=\"0\" y2=\"100%\">\n    <stop offset=\"0\" stop-color=\"#bbb\" stop-opacity=\".1\"/>\n    <stop offset=\"1\" stop-opacity=\".1\"/>\n  </linearGradient>\n  <mask id=\"a\">\n    <rect width=\""@
        + total
        + "\" height=\"20\" rx=\"3\" fill=\"#fff\"/>\n  </mask>\n  <g mask=\"url(#a)\">\n    <rect width=\""@
        + crate::text::decimal(lw as nat) + "\" height=\"20\" fill=\"#555\"/>\n    <rect x=\""@
        + crate::text::decimal(lw as nat) + "\" width=\""@ + crate::text::decimal(vw as nat)
        + "\" height=\"20\" fill=\""@;
    let p1 = "\"/>\n    <rect width=\""@ + total
        + "\" height=\"20\" fill=\"url(#b)\"/>\n  </g>\n  <g fill=\"#fff\" text-anchor=\"middle\" font-family=\"DejaVu Sans,Verdana,Geneva,sans-serif\" font-size=\"11\">\n    <text x=\""@
        + lx + "\" y=\"15\" fill=\"#010101\" fill-opacity=\".3\">"@;
    let p2 = "</text>\n    <text x=\""@ + lx + "\" y=\"14\">"@;
    let p3 = "</text>\n    <text x=\""@ + vx
        + "\" y=\"15\" fill=\"#010101\" fill-opacity=\".3\">"@;
    let p4 = "</text>\n    <text x=\""@ + vx + "\" y=\"14\">"@;
    let p5 = "</text>\n  </g>\n</svg>"@;
    let parts = seq![p0, p1, p2, p3, p4, p5];
    assert(r@ =~= parts[0] + color@ + parts[1] + label@ + parts[2] + label@ + parts[3] + value@
        + parts[4] + value@ + parts[5]);
    parts
}

/// A badge is as wide as its two texts, at 6.4 pixels for each byte and 10 to spare for
/// each text.
pub proof fn law_target_badges_are_as_wide_as_their_texts(
    label: &str,
    value: &str,
    color: &str,
    width: u64,
    digits: String,
    r: String,
) -> (rest: Seq<char>)
    requires
        call_ensures(svg_badge, (label, value, color), r),
        width == 20 + (32 * label.spec_bytes().len()) / 5 + (32 * value.spec_bytes().len()) / 5,
        call_ensures(crate::text::decimal_text, (width,), digits),
    ensures
        r@ == "<svg xmlns=\"http://www.w3.org/2000/svg\" width=\""@ + digits@
            + "\" height=\"20\">"@ + rest,
{
    let head = "<svg xmlns=\"http://www.w3.org/2000/svg\" width=\""@;
    reveal_strlit("\" height=\"20\">");
    reveal_strlit(
        "\" height=\"20\">\n  <linearGradient id=\"b\" x2=\"0\" y2=\"100%\">\n    <stop offset=\"0\" stop-color=\"#bbb\" stop-opacity=\".1\"/>\n    <stop offset=\"1\" stop-opacity=\".1\"/>\n  </linearGradient>\n  <mask id=\"a\">\n    <rect width=\"",
    );
    let start = head + digits@ + "\" height=\"20\">"@;
    let rest = r@.skip(start.len() as int);
    assert(r@ =~= start + rest);
    rest
}

/// One more check counts as up exactly where it is; and without checks none is.
pub proof fn law_checks_that_are_up_are_counted(
    results: &Vec<CheckResult>,
    n: u64,
    more: &Vec<CheckResult>,
    m: u64,
    one: CheckResult,
)
    requires
        call_ensures(count_up, (results,), n),
        call_ensures(count_up, (more,), m),
        more@ == results@.push(one),
    ensures
        results@.len() == 0 ==> n == 0,
        one.status == CheckStatus::Up ==> m == n + 1,
        one.status != CheckStatus::Up ==> m == n,
{
    assert(more@.drop_last() =~= results@);
    assert(more@.last() == one);
}

/// The colour of an uptime goes by the share of checks that are up, from 99.5 percent
/// down to below 80.
pub proof fn law_uptimes_are_coloured_by_share(up: u64, total: u64, r: &'static str)
    requires
        call_ensures(uptime_color, (up, total), r),
        total > 0,
    ensures
        up * 1000 >= total * 995 ==> r@ == "brightgreen"@,
        total * 975 <= up * 1000 < total * 995 ==> r@ == "green"@,
        total * 950 <= up * 1000 < total * 975 ==> r@ == "yellowgreen"@,
        total * 900 <= up * 1000 < total * 950 ==> r@ == "yellow"@,
        total * 800 <= up * 1000 < total * 900 ==> r@ == "orange"@,
        up * 1000 < total * 800 ==> r@ == "red"@,
{
}

/// An uptime badge shows the percentage given in the colour of the share that its checks
/// have.
pub proof fn law_uptime_badges_show_their_share(
    name: &str,
    results: &Vec<CheckResult>,
    percent: &str,
    r: TextReply,
    up: u64,
    total: u64,
    share: &'static str,
) -> (shown: (&'static str, &'static str))
    requires
        call_ensures(uptime_badge, (Some(name), results, percent), r),
        call_ensures(count_up, (results,), up),
        total == results@.len(),
        call_ensures(uptime_color, (up, total), share),
    ensures
        r.status == 200,
        shown.0@ == percent@ + "%"@,
        shown.1@ == share@,
        forall|badge: String|
            call_ensures(svg_badge, (name, shown.0, shown.1), badge) ==> r.body@ == badge@,
{
    let (value, color) = choose|value: &'static str, color: &'static str|
        {
            &&& value@ == percent@ + "%"@
            &&& color@ == crate::api::badges::uptime_colour(
                crate::api::badges::up_count(results@) as int,
                results@.len() as int,
            )
            &&& r.body@ == #[trigger] crate::api::badges::badge_text(name, value, color)
        };
    (value, color)
}

/// All response times together.
pub open spec fn total_time(results: Seq<CheckResult>) -> int
    decreases results.len(),
{
    if results.len() == 0 {
        0
    } else {
        results[0].duration_ms + total_time(results.drop_first())
    }
}

/// The total from the front and the sum from the back are the same.
proof fn lemma_total_time(results: Seq<CheckResult>)
    ensures
        total_time(results) == crate::api::badges::time_sum(results),
    decreases results.len(),
{
    if results.len() == 1 {
        assert(results.drop_first().len() == 0 && results.drop_last().len() == 0);
        assert(total_time(results.drop_first()) == 0);
        assert(crate::api::badges::time_sum(results.drop_last()) == 0);
    } else if results.len() > 1 {
        let rest = results.drop_first();
        let middle = rest.drop_last();
        lemma_total_time(rest);
        lemma_total_time(middle);
        lemma_total_time(results.drop_last());
        assert(results.drop_last().drop_first() =~= middle);
        assert(results.drop_last()[0] == results[0]);
        assert(rest.last() == results.last());
    }
}

/// The average time, taken as often as there are results, is within one of each of their
/// total.
pub proof fn law_averages_are_of_all_results(results: &Vec<CheckResult>, r: u64)
    requires
        call_ensures(average_ms, (results,), r),
    ensures
        results@.len() == 0 ==> r == 0,
        results@.len() > 0 ==> r * results@.len() <= total_time(results@) < (r + 1)
            * results@.len(),
{
    lemma_total_time(results@);
    if results@.len() > 0 {
        let n = results@.len() as int;
        let t = total_time(results@);
        vstd::arithmetic::div_mod::lemma_fundamental_div_mod(t, n);
        vstd::arithmetic::div_mod::lemma_mod_bound(t, n);
        let q = t / n;
        assert(q * n <= t < (q + 1) * n) by (nonlinear_arith)
            requires
                t == n * q + t % n,
                0 <= t % n < n,
        ;
    }
}

/// A response time badge shows the average in milliseconds, the slower the redder; without
/// any it shows none.
pub proof fn law_response_times_are_coloured_by_speed(
    results: &Vec<CheckResult>,
    avg: u64,
    digits: String,
    r: TextReply,
) -> (shown: (&'static str, &'static str))
    requires
        call_ensures(response_time_badge, (results,), r),
        call_ensures(average_ms, (results,), avg),
        call_ensures(crate::text::decimal_text, (avg,), digits),
    ensures
        r.status == 200,
        forall|badge: String|
            call_ensures(svg_badge, ("response time", shown.0, shown.1), badge) ==> r.body@
                == badge@,
        avg == 0 ==> shown.0@ == "N/A"@ && shown.1@ == "lightgrey"@,
        avg > 0 ==> shown.0@ == digits@ + "ms"@,
        0 < avg < 200 ==> shown.1@ == "brightgreen"@,
        200 <= avg < 500 ==> shown.1@ == "green"@,
        500 <= avg < 1_000 ==> shown.1@ == "yellowgreen"@,
        1_000 <= avg < 2_000 ==> shown.1@ == "yellow"@,
        2_000 <= avg < 5_000 ==> shown.1@ == "orange"@,
        avg >= 5_000 ==> shown.1@ == "red"@,
{
    let (value, color) = choose|value: &'static str, color: &'static str|
        {
            &&& (value@, color@) == crate::api::badges::speed_word(
                crate::api::badges::average_time(results@),
            )
            &&& r.body@ == #[trigger] crate::api::badges::badge_text(
                "response time",
                value,
                color,
            )
        };
    (value, color)
}

/// The metrics give each count behind its name, and nought for one that could not be had.
pub proof fn law_metrics_give_their_counts(
    targets: Option<u64>,
    incidents: Option<u64>,
    a: u64,
    b: u64,
    x: String,
    y: String,
    r: TextReply,
) -> (parts: (Seq<char>, Seq<char>))
    requires
        call_ensures(metrics, (targets, incidents), r),
        targets is Some ==> targets == Some(a),
        targets is None ==> a == 0,
        incidents is Some ==> incidents == Some(b),
        incidents is None ==> b == 0,
        call_ensures(crate::text::decimal_text, (a,), x),
        call_ensures(crate::text::decimal_text, (b,), y),
    ensures
        r.status == 200,
        r.body@ == parts.0 + "statuspage_targets_total "@ + x@ + parts.1
            + "statuspage_incidents_total "@ + y@ + "\n"@,
{
    reveal_strlit(
        "# HELP statuspage_targets_total Total number of configured targets.\n# TYPE statuspage_targets_total gauge\nstatuspage_targets_total ",
    );
    reveal_strlit(
        "\n# HELP statuspage_incidents_total Total number of incidents.\n# TYPE statuspage_incidents_total gauge\nstatuspage_incidents_total ",
    );
    reveal_strlit("statuspage_targets_total ");
    reveal_strlit("statuspage_incidents_total ");
    let t = "# HELP statuspage_targets_total Total number of configured targets.\n# TYPE statuspage_targets_total gauge\nstatuspage_targets_total "@;
    let i = "\n# HELP statuspage_incidents_total Total number of incidents.\n# TYPE statuspage_incidents_total gauge\nstatuspage_incidents_total "@;
    let tail = "statuspage_targets_total "@;
    let end = "statuspage_incidents_total "@;
    let p = t.take(t.len() - tail.len());
    let q = i.take(i.len() - end.len());
    assert(p + tail =~= t);
    assert(q + end =~= i);
    assert(r.body@ =~= p + tail + x@ + q + end + y@ + "\n"@);
    (p, q)
}

} // verus!
