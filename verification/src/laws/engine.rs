//! Incidents, pages to operators, notices to subscribers and cleanup.

use vstd::prelude::*;
use vstd::string::*;

use crate::codec::Id;
use crate::domain::{CheckResult, CheckStatus, Incident, IncidentSeverity, Target};
use crate::engine::cleanup::{sweep_cutoffs, RetentionConfig, SweepCutoffs};
use crate::engine::deliveries::{enqueue_subscriber_deliveries, Delivery, PageAudience};
use crate::engine::escalation::{
    advance_state, host_of, next_step, Advance, EscalationDecision, EscalationStep,
};
use crate::engine::incident_writer::{
    evaluate_target, seed_escalation_state, sweep_targets, DeliveryReason, IncidentChange,
    IncidentEscalationState,
};
use crate::time::Moment;

verus! {

/// The oldest result of a sort stands last of its sort.
proof fn lemma_oldest_is_the_last(results: Seq<CheckResult>, up: bool)
    ensures
        ({
            let k = crate::engine::incident_writer::oldest(results, up);
            &&& -1 <= k < results.len()
            &&& k >= 0 ==> (results[k].status is Up) == up
            &&& forall|j: int| k < j < results.len() ==> (#[trigger] results[j].status is Up) != up
        }),
    decreases results.len(),
{
    if results.len() > 0 && (results.last().status is Up) != up {
        let rest = results.drop_last();
        lemma_oldest_is_the_last(rest, up);
        let k = crate::engine::incident_writer::oldest(results, up);
        assert forall|j: int| k < j < results.len() implies (#[trigger] results[j].status is Up)
            != up by {
            if j < rest.len() {
                assert(results[j] == rest[j]);
            }
        }
        if k >= 0 {
            assert(results[k] == rest[k]);
        }
    }
}

/// Where a run of bad or of good results ends.
proof fn lemma_runs(results: Seq<CheckResult>)
    ensures
        ({
            let n = crate::engine::incident_writer::bad_run(results);
            &&& 0 <= n <= results.len()
            &&& forall|j: int| 0 <= j < n ==> !(#[trigger] results[j].status is Up)
            &&& n < results.len() ==> results[n].status is Up
        }),
        ({
            let n = crate::engine::incident_writer::good_run(results);
            &&& 0 <= n <= results.len()
            &&& forall|j: int| 0 <= j < n ==> #[trigger] results[j].status is Up
            &&& n < results.len() ==> !(results[n].status is Up)
        }),
    decreases results.len(),
{
    if results.len() > 0 {
        let rest = results.drop_first();
        lemma_runs(rest);
        let b = crate::engine::incident_writer::bad_run(results);
        let g = crate::engine::incident_writer::good_run(results);
        assert forall|j: int| 0 <= j < b implies !(#[trigger] results[j].status is Up) by {
            if j > 0 {
                assert(results[j] == rest[j - 1]);
            }
        }
        assert forall|j: int| 0 <= j < g implies #[trigger] results[j].status is Up by {
            if j > 0 {
                assert(results[j] == rest[j - 1]);
            }
        }
        if 0 < b < results.len() {
            assert(results[b] == rest[b - 1]);
        }
        if 0 < g < results.len() {
            assert(results[g] == rest[g - 1]);
        }
    }
}

/// An incident is opened exactly where there is none, no maintenance is on and the two
/// newest results are bad. It starts with the oldest bad result that is looked at, and
/// tells of that result; it counts the bad results since the last good one.
pub proof fn law_two_bad_results_open_an_incident(
    in_maintenance: bool,
    target_id: Id,
    results: &Vec<CheckResult>,
    open: Option<Incident>,
    id: Id,
    now: Moment,
    r: IncidentChange,
)
    requires
        call_ensures(evaluate_target, (in_maintenance, target_id, results, open, id, now), r),
    ensures
        r is Open <==> {
            &&& open is None
            &&& !in_maintenance
            &&& results@.len() >= 2
            &&& results@[0].status != CheckStatus::Up
            &&& results@[1].status != CheckStatus::Up
        },
        r matches IncidentChange::Open { incident } ==> {
            &&& exists|k: int|
                {
                    &&& 0 <= k < results@.len()
                    &&& (#[trigger] results@[k]).status != CheckStatus::Up
                    &&& forall|j: int|
                        k < j < results@.len() ==> (#[trigger] results@[j]).status
                            == CheckStatus::Up
                    &&& incident.started_at == results@[k].timestamp
                    &&& incident.status == results@[k].status
                    &&& incident.error_sample == results@[k].error
                    &&& incident.public_description == results@[k].error
                }
            &&& incident.id == id
            &&& incident.target_id == target_id
            &&& incident.ended_at is None
            &&& incident.duration_secs is None
            &&& incident.severity == IncidentSeverity::Major
            &&& incident.created_at == Some(now)
            &&& incident.updated_at == Some(now)
            &&& incident.updates@.len() == 0
            &&& incident.check_count <= results@.len()
            &&& forall|j: int|
                0 <= j < incident.check_count ==> (#[trigger] results@[j]).status
                    != CheckStatus::Up
            &&& incident.check_count < results@.len()
                ==> results@[incident.check_count as int].status == CheckStatus::Up
            &&& incident.public_title matches Some(title) && title@
                == "Auto-detected outage for target "@ + crate::codec::id_text(target_id)
        },
{
    lemma_runs(results@);
    lemma_oldest_is_the_last(results@, false);
    let k = crate::engine::incident_writer::oldest(results@, false);
    if k < 0 && results@.len() > 0 {
        assert(results@[0].status is Up);
    }
    if let IncidentChange::Open { incident } = r {
        assert(0 <= k < results@.len());
        assert forall|j: int| k < j < results@.len() implies (#[trigger] results@[j]).status
            == CheckStatus::Up by {
            assert(results@[j].status is Up);
        }
        assert(results@[k].status != CheckStatus::Up);
    }
}

/// An incident is closed exactly where one is open and the two newest results are good,
/// maintenance or not. It ends with the oldest good result that is looked at, and lasted
/// for the whole seconds since its start. Nothing else of it changes.
pub proof fn law_two_good_results_close_an_incident(
    in_maintenance: bool,
    target_id: Id,
    results: &Vec<CheckResult>,
    open: Option<Incident>,
    id: Id,
    now: Moment,
    r: IncidentChange,
)
    requires
        crate::engine::incident_writer::moments_fit(results@, open),
        call_ensures(evaluate_target, (in_maintenance, target_id, results, open, id, now), r),
    ensures
        r is Close <==> {
            &&& open is Some
            &&& results@.len() >= 2
            &&& results@[0].status == CheckStatus::Up
            &&& results@[1].status == CheckStatus::Up
        },
        r matches IncidentChange::Close { incident } ==> {
            &&& exists|k: int|
                {
                    &&& 0 <= k < results@.len()
                    &&& (#[trigger] results@[k]).status == CheckStatus::Up
                    &&& forall|j: int|
                        k < j < results@.len() ==> (#[trigger] results@[j]).status
                            != CheckStatus::Up
                    &&& incident.ended_at == Some(results@[k].timestamp)
                }
            &&& incident.duration_secs matches Some(secs) && {
                let span = incident.ended_at->0 - open->0.started_at;
                if span < 0 {
                    secs == 0
                } else {
                    secs * 1_000_000_000 <= span < (secs + 1) * 1_000_000_000
                }
            }
            &&& incident.updated_at == Some(now)
            &&& incident == (Incident {
                ended_at: incident.ended_at,
                duration_secs: incident.duration_secs,
                updated_at: incident.updated_at,
                ..open->0
            })
        },
{
    lemma_runs(results@);
    lemma_oldest_is_the_last(results@, true);
    let k = crate::engine::incident_writer::oldest(results@, true);
    if k < 0 && results@.len() > 0 {
        assert(!(results@[0].status is Up));
    }
    if let IncidentChange::Close { incident } = r {
        assert(0 <= k < results@.len());
        assert(results@[k].status == CheckStatus::Up);
        assert forall|j: int| k < j < results@.len() implies (#[trigger] results@[j]).status
            != CheckStatus::Up by {
            assert(!(results@[j].status is Up));
        }
        assert(crate::time::on_calendar(results@[k].timestamp as int));
    }
}

/// An escalation starts for an incident whose target has a policy, at the bottom, and is
/// first looked at after the delay of the first step in whole seconds.
pub proof fn law_an_escalation_waits_for_its_first_step(
    policy_id: Option<Id>,
    delay: Option<i32>,
    incident_id: Id,
    now: Moment,
    r: Option<IncidentEscalationState>,
)
    requires
        crate::time::on_calendar(now as int),
        call_ensures(seed_escalation_state, (policy_id, delay, incident_id, now), r),
    ensures
        r is Some <==> policy_id is Some,
        r matches Some(state) ==> {
            &&& state.incident_id == incident_id
            &&& policy_id == Some(state.policy_id)
            &&& state.current_level == 0
            &&& state.current_round == 0
            &&& !state.acked
            &&& state.last_paged_at == now
            &&& state.next_check_at - now == (if delay is Some && delay->0 > 0 {
                delay->0 * 1_000_000_000
            } else {
                0
            })
        },
{
}

/// One target more is gone over last, where it is enabled.
pub proof fn law_sweeps_keep_the_order_of_targets(
    targets: &Vec<Target>,
    r: Vec<Id>,
    more: &Vec<Target>,
    s: Vec<Id>,
    t: Target,
)
    requires
        call_ensures(sweep_targets, (targets,), r),
        call_ensures(sweep_targets, (more,), s),
        more@ == targets@.push(t),
    ensures
        t.enabled ==> s@ == r@.push(t.id),
        !t.enabled ==> s@ == r@,
{
    assert(more@.drop_last() =~= targets@);
    assert(more@.last() == t);
}

/// A sweep goes over every enabled target and over no other.
pub proof fn law_sweeps_go_over_the_enabled_targets(targets: &Vec<Target>, r: Vec<Id>)
    requires
        call_ensures(sweep_targets, (targets,), r),
    ensures
        forall|id: Id| #[trigger]
            r@.contains(id) <==> exists|i: int|
                0 <= i < targets@.len() && (#[trigger] targets@[i]).enabled && targets@[i].id == id,
        r@.len() <= targets@.len(),
{
    lemma_enabled_ids(targets@);
}

/// The identifiers kept are those of the enabled targets.
proof fn lemma_enabled_ids(targets: Seq<Target>)
    ensures
        forall|id: Id| #[trigger]
            crate::engine::incident_writer::enabled_ids(targets).contains(id) <==> exists|i: int|
                0 <= i < targets.len() && (#[trigger] targets[i]).enabled && targets[i].id == id,
        crate::engine::incident_writer::enabled_ids(targets).len() <= targets.len(),
    decreases targets.len(),
{
    if targets.len() > 0 {
        let rest = targets.drop_last();
        lemma_enabled_ids(rest);
        let had = crate::engine::incident_writer::enabled_ids(rest);
        let all = crate::engine::incident_writer::enabled_ids(targets);
        assert forall|id: Id| #[trigger] all.contains(id) <==> exists|i: int|
            0 <= i < targets.len() && (#[trigger] targets[i]).enabled && targets[i].id == id by {
            if all.contains(id) {
                let j = choose|j: int| 0 <= j < all.len() && all[j] == id;
                if j < had.len() {
                    assert(had[j] == id);
                    assert(had.contains(id));
                    let i = choose|i: int|
                        0 <= i < rest.len() && (#[trigger] rest[i]).enabled && rest[i].id == id;
                    assert(targets[i] == rest[i]);
                } else {
                    assert(targets[targets.len() - 1].enabled);
                }
            }
            if exists|i: int|
                0 <= i < targets.len() && (#[trigger] targets[i]).enabled && targets[i].id == id {
                let i = choose|i: int|
                    0 <= i < targets.len() && (#[trigger] targets[i]).enabled && targets[i].id
                        == id;
                if i < rest.len() {
                    assert(rest[i] == targets[i]);
                    assert(had.contains(id));
                    let j = choose|j: int| 0 <= j < had.len() && had[j] == id;
                    assert(all[j] == id);
                } else {
                    assert(all[all.len() - 1] == id);
                }
            }
        }
    }
}

/// After a page the next check comes exactly the step's delay in whole seconds later, and
/// at once where the delay is negative. The first step of the named level is paged, and
/// the escalation is forgotten exactly where there is none.
pub proof fn law_the_next_check_waits_out_the_delay(
    state: IncidentEscalationState,
    steps: &Vec<EscalationStep>,
    level: i32,
    round: i32,
    delay_secs: i32,
    now: Moment,
    r: Advance,
)
    requires
        crate::time::on_calendar(now as int),
        call_ensures(
            advance_state,
            (state, steps, EscalationDecision::Page { level, round, delay_secs }, now),
            r,
        ),
    ensures
        r is DropState <==> forall|i: int|
            0 <= i < steps@.len() ==> (#[trigger] steps@[i]).level != level,
        r matches Advance::Page { step, state: next } ==> {
            &&& step < steps@.len()
            &&& steps@[step as int].level == level
            &&& forall|i: int| 0 <= i < step ==> (#[trigger] steps@[i]).level != level
            &&& delay_secs >= 0 ==> next.next_check_at - now == delay_secs * 1_000_000_000
            &&& delay_secs < 0 ==> next.next_check_at == now
            &&& next.last_paged_at == now
            &&& next.current_level == level
            &&& next.current_round == round
            &&& next.incident_id == state.incident_id
            &&& next.policy_id == state.policy_id
            &&& next.acked == state.acked
        },
{
    if let Advance::Page { step, state: next } = r {
        assert(steps@[step as int].level == level);
    }
}

/// An escalation that has run out is forgotten.
pub proof fn law_an_exhausted_escalation_ends(
    state: IncidentEscalationState,
    steps: &Vec<EscalationStep>,
    decision: EscalationDecision,
    now: Moment,
    r: Advance,
)
    requires
        !(decision is Page),
        call_ensures(advance_state, (state, steps, decision, now), r),
    ensures
        r is DropState,
{
}

/// The ladder is climbed rung by rung: the next page goes to the lowest level above the
/// current one; from the top, to the lowest level of all, in the next round, as long as
/// repeats are left; and the ladder has run out exactly otherwise.
pub proof fn law_the_ladder_is_climbed_rung_by_rung(
    steps: &Vec<EscalationStep>,
    repeat_count: i32,
    level: i32,
    round: i32,
    d: EscalationDecision,
)
    requires
        call_ensures(next_step, (steps, repeat_count, level, round), d),
    ensures
        d is Page || d is Exhausted,
        (exists|i: int| 0 <= i < steps@.len() && (#[trigger] steps@[i]).level > level) ==> {
            &&& d matches EscalationDecision::Page { level: l, round: n, delay_secs } && n
                == round && l > level && forall|i: int|
                0 <= i < steps@.len() && (#[trigger] steps@[i]).level > level ==> l
                    <= steps@[i].level
        },
        (forall|i: int| 0 <= i < steps@.len() ==> (#[trigger] steps@[i]).level <= level) ==> {
            &&& d is Page <==> steps@.len() > 0 && round < repeat_count
            &&& d matches EscalationDecision::Page { level: l, round: n, delay_secs } ==> n
                == round + 1 && forall|i: int|
                0 <= i < steps@.len() ==> l <= (#[trigger] steps@[i]).level
        },
        d matches EscalationDecision::Page { level: l, round: n, delay_secs } ==> exists|i: int|
            {
                &&& 0 <= i < steps@.len()
                &&& (#[trigger] steps@[i]).level == l
                &&& steps@[i].delay_secs == delay_secs
                &&& forall|j: int| 0 <= j < i ==> (#[trigger] steps@[j]).level != l
            },
{
    if let EscalationDecision::Page { level: l, round: n, delay_secs } = d {
        if crate::engine::escalation::next_rung(steps@, level as int, l, delay_secs) {
            let i = choose|i: int|
                {
                    &&& #[trigger] crate::engine::escalation::is_next_above(
                        steps@,
                        level as int,
                        i,
                    )
                    &&& steps@[i].level == l
                    &&& steps@[i].delay_secs == delay_secs
                };
            assert(steps@[i].level == l);
        } else {
            let i = choose|i: int|
                {
                    &&& #[trigger] crate::engine::escalation::is_next_above(
                        steps@,
                        i32::MIN - 1,
                        i,
                    )
                    &&& steps@[i].level == l
                    &&& steps@[i].delay_secs == delay_secs
                };
            assert(steps@[i].level == l);
        }
    }
}

/// The moments before which a sweep clears things out lie 30 days back for deliveries, 7
/// for subscribers who never confirmed, the configured days for results and for expired
/// tokens, and now for sessions and links.
pub proof fn law_a_sweep_keeps_what_is_not_old_enough(
    now: Moment,
    retention: RetentionConfig,
    r: SweepCutoffs,
)
    requires
        crate::time::on_calendar(now as int),
        call_ensures(sweep_cutoffs, (now, retention), r),
    ensures
        now - r.deliveries == 30 * 86_400 * 1_000_000_000,
        now - r.unverified_subscribers == 7 * 86_400 * 1_000_000_000,
        r.sessions == now,
        r.magic_links == now,
        now - r.check_results == retention.check_results_days * (86_400 * 1_000_000_000),
        now - r.api_tokens == retention.api_tokens_post_expiry_days * (86_400 * 1_000_000_000),
{
}

/// Whether the subscriber at place `at.1` of the page at place `at.0` is to be told of
/// the target `t`: the page is enabled and shows it, and the subscriber has confirmed.
pub open spec fn is_told(pages: Seq<PageAudience>, t: Id, at: (int, int)) -> bool {
    &&& 0 <= at.0 < pages.len()
    &&& 0 <= at.1 < pages[at.0].subscribers@.len()
    &&& pages[at.0].enabled
    &&& pages[at.0].target_ids@.contains(t)
    &&& pages[at.0].subscribers@[at.1].verified
}

/// Whether `places` name who is told of `t`: all of them, each once, by page and then by
/// subscriber.
pub open spec fn are_places(places: Seq<(int, int)>, pages: Seq<PageAudience>, t: Id) -> bool {
    &&& forall|i: int| 0 <= i < places.len() ==> is_told(pages, t, #[trigger] places[i])
    &&& forall|at: (int, int)| #[trigger] is_told(pages, t, at) ==> places.contains(at)
    &&& forall|i: int, j: int|
        #![trigger places[i], places[j]]
        0 <= i < j < places.len() ==> places[i].0 < places[j].0 || (places[i].0 == places[j].0
            && places[i].1 < places[j].1)
}

/// The recipients of one page, by their places.
proof fn lemma_page_places(page: PageAudience, p: int, n: int) -> (places: Seq<(int, int)>)
    requires
        0 <= n <= page.subscribers@.len(),
    ensures
        places.len() == crate::engine::deliveries::page_recipients(page, n).len(),
        forall|i: int|
            0 <= i < places.len() ==> {
                &&& (#[trigger] places[i]).0 == p
                &&& 0 <= places[i].1 < n
                &&& page.subscribers@[places[i].1].verified
                &&& crate::engine::deliveries::page_recipients(page, n)[i] == (
                    page.page_id,
                    page.subscribers@[places[i].1],
                )
            },
        forall|s: int|
            0 <= s < n && (#[trigger] page.subscribers@[s]).verified ==> places.contains((p, s)),
        forall|i: int, j: int|
            #![trigger places[i], places[j]]
            0 <= i < j < places.len() ==> places[i].1 < places[j].1,
    decreases n,
{
    if n == 0 {
        Seq::empty()
    } else {
        let before = lemma_page_places(page, p, n - 1);
        if page.subscribers@[n - 1].verified {
            let places = before.push((p, n - 1));
            assert forall|s: int|
                0 <= s < n && (#[trigger] page.subscribers@[s]).verified implies places.contains(
                (p, s),
            ) by {
                if s < n - 1 {
                    let i = choose|i: int| 0 <= i < before.len() && before[i] == (p, s);
                    assert(places[i] == (p, s));
                } else {
                    assert(places[places.len() - 1] == (p, s));
                }
            }
            places
        } else {
            before
        }
    }
}

/// The recipients of all pages, by their places.
proof fn lemma_places(pages: Seq<PageAudience>, t: Id) -> (places: Seq<(int, int)>)
    ensures
        are_places(places, pages, t),
        places.len() == crate::engine::deliveries::recipients(pages, t).len(),
        forall|i: int|
            0 <= i < places.len() ==> #[trigger] crate::engine::deliveries::recipients(pages, t)[i]
                == (
                pages[places[i].0].page_id,
                pages[places[i].0].subscribers@[places[i].1],
            ),
    decreases pages.len(),
{
    if pages.len() == 0 {
        Seq::empty()
    } else {
        let rest = pages.drop_last();
        let page = pages.last();
        let p = rest.len() as int;
        let before = lemma_places(rest, t);
        let shown = page.enabled && page.target_ids@.contains(t);
        let more = if shown {
            lemma_page_places(page, p, page.subscribers@.len() as int)
        } else {
            Seq::empty()
        };
        let places = before + more;
        assert forall|i: int| 0 <= i < places.len() implies is_told(pages, t, #[trigger] places[i])
            && crate::engine::deliveries::recipients(pages, t)[i] == (
            pages[places[i].0].page_id,
            pages[places[i].0].subscribers@[places[i].1],
        ) by {
            if i < before.len() {
                assert(places[i] == before[i]);
                assert(is_told(rest, t, before[i]));
                assert(pages[places[i].0] == rest[places[i].0]);
                assert(crate::engine::deliveries::recipients(rest, t)[i]
                    == crate::engine::deliveries::recipients(pages, t)[i]);
            } else {
                assert(places[i] == more[i - before.len()]);
            }
        }
        assert forall|at: (int, int)| #[trigger] is_told(pages, t, at) implies places.contains(
            at,
        ) by {
            if at.0 < p {
                assert(pages[at.0] == rest[at.0]);
                assert(is_told(rest, t, at));
                let i = choose|i: int| 0 <= i < before.len() && before[i] == at;
                assert(places[i] == at);
            } else {
                assert(page.subscribers@[at.1].verified);
                assert(more.contains((p, at.1)));
                let i = choose|i: int| 0 <= i < more.len() && more[i] == (p, at.1);
                assert(places[before.len() + i] == at);
            }
        }
        assert forall|i: int, j: int|
            #![trigger places[i], places[j]]
            0 <= i < j < places.len() implies places[i].0 < places[j].0 || (places[i].0
            == places[j].0 && places[i].1 < places[j].1) by {
            if j < before.len() {
                assert(places[i] == before[i] && places[j] == before[j]);
            } else if i < before.len() {
                assert(places[i] == before[i] && places[j] == more[j - before.len()]);
                assert(is_told(rest, t, before[i]));
            } else {
                assert(places[i] == more[i - before.len()] && places[j] == more[j - before.len()]);
            }
        }
        places
    }
}

/// Every confirmed subscriber of every enabled page that shows the target is told once,
/// whatever channel they chose, and nobody else is: there is one delivery for each, in
/// order, to their own address, and all say the same of the incident.
pub proof fn law_every_confirmed_subscriber_is_told_once(
    incident: &Incident,
    reason: DeliveryReason,
    pages: &Vec<PageAudience>,
    out: Vec<Delivery>,
) -> (places: Seq<(int, int)>)
    requires
        call_ensures(enqueue_subscriber_deliveries, (incident, reason, pages), out),
    ensures
        are_places(places, pages@, incident.target_id),
        out@.len() == places.len(),
        forall|i: int|
            0 <= i < out@.len() ==> {
                let page = pages@[places[i].0];
                let sub = page.subscribers@[places[i].1];
                &&& (#[trigger] out@[i]).page_id == page.page_id
                &&& out@[i].subscriber_id == sub.id
                &&& out@[i].channel == sub.channel
                &&& out@[i].target == sub.target
                &&& out@[i].reason == reason
                &&& out@[i].payload@ == "incident "@ + (match reason {
                    DeliveryReason::IncidentOpened => "opened"@,
                    DeliveryReason::IncidentResolved => "resolved"@,
                    DeliveryReason::IncidentUpdated => "updated"@,
                }) + " "@ + crate::codec::id_text(incident.id) + " (target="@
                    + crate::codec::id_text(incident.target_id) + ", severity="@ + (
                match incident.severity {
                    IncidentSeverity::Minor => "minor"@,
                    IncidentSeverity::Major => "major"@,
                    IncidentSeverity::Critical => "critical"@,
                    IncidentSeverity::Unknown => "unknown"@,
                }) + ", started="@ + crate::time::displayed_date_of(incident.started_at as int)
                    + ")"@
            },
{
    let places = lemma_places(pages@, incident.target_id);
    let to = crate::engine::deliveries::recipients(pages@, incident.target_id);
    assert forall|i: int| 0 <= i < out@.len() implies {
        &&& (#[trigger] out@[i]).page_id == pages@[places[i].0].page_id
        &&& out@[i].subscriber_id == pages@[places[i].0].subscribers@[places[i].1].id
        &&& out@[i].channel == pages@[places[i].0].subscribers@[places[i].1].channel
        &&& out@[i].target == pages@[places[i].0].subscribers@[places[i].1].target
    } by {
        assert(to[i] == (
            pages@[places[i].0].page_id,
            pages@[places[i].0].subscribers@[places[i].1],
        ));
    }
    places
}

/// No confirmed subscriber of an enabled page that shows the target is left out.
pub proof fn law_no_confirmed_subscriber_is_left_out(
    incident: &Incident,
    reason: DeliveryReason,
    pages: &Vec<PageAudience>,
    out: Vec<Delivery>,
    p: int,
    s: int,
) -> (i: int)
    requires
        call_ensures(enqueue_subscriber_deliveries, (incident, reason, pages), out),
        0 <= p < pages@.len(),
        pages@[p].enabled,
        pages@[p].target_ids@.contains(incident.target_id),
        0 <= s < pages@[p].subscribers@.len(),
        pages@[p].subscribers@[s].verified,
    ensures
        0 <= i < out@.len(),
        out@[i].page_id == pages@[p].page_id,
        out@[i].subscriber_id == pages@[p].subscribers@[s].id,
        out@[i].channel == pages@[p].subscribers@[s].channel,
        out@[i].target == pages@[p].subscribers@[s].target,
{
    let places = law_every_confirmed_subscriber_is_told_once(incident, reason, pages, out);
    assert(is_told(pages@, incident.target_id, (p, s)));
    assert(places.contains((p, s)));
    let i = choose|i: int| 0 <= i < places.len() && places[i] == (p, s);
    assert(out@[i].page_id == pages@[p].page_id);
    i
}

/// Nobody is told of an incident on a target that no enabled page shows.
pub proof fn law_nobody_is_told_of_a_hidden_target(
    incident: &Incident,
    reason: DeliveryReason,
    pages: &Vec<PageAudience>,
    out: Vec<Delivery>,
)
    requires
        call_ensures(enqueue_subscriber_deliveries, (incident, reason, pages), out),
        forall|p: int|
            0 <= p < pages@.len() && (#[trigger] pages@[p]).enabled
                ==> !pages@[p].target_ids@.contains(incident.target_id),
    ensures
        out@.len() == 0,
{
    let places = law_every_confirmed_subscriber_is_told_once(incident, reason, pages, out);
    if out@.len() > 0 {
        assert(is_told(pages@, incident.target_id, places[0]));
    }
}

/// The host of an address is what stands between the scheme and the first slash or colon
/// after it.
pub proof fn law_the_host_follows_the_scheme(
    url: &str,
    scheme: Seq<char>,
    host: Seq<char>,
    rest: Seq<char>,
    r: String,
)
    requires
        url@ == scheme + "://"@ + host + rest,
        !scheme.contains(':'),
        host.len() > 0,
        !host.contains('/') && !host.contains(':'),
        rest.len() == 0 || rest[0] == '/' || rest[0] == ':',
        call_ensures(host_of, (url,), r),
    ensures
        r@ == host,
{
    reveal_strlit("://");
    let s = url@;
    let pat = "://"@;
    let n = scheme.len() as int;
    assert(s.subrange(n, n + 3) =~= pat);
    assert(crate::text::occurs_at(s, pat, n));
    assert forall|j: int| 0 <= j < n implies !crate::text::occurs_at(s, pat, j) by {
        if crate::text::occurs_at(s, pat, j) {
            assert(s.subrange(j, j + 3)[0] == pat[0]);
            assert(s[j] == ':');
            assert(scheme[j] == ':');
            assert(scheme.contains(':'));
        }
    }
    crate::engine::escalation::lemma_text_index(s, pat, n);
    let after = crate::engine::escalation::without_scheme(s);
    assert(after =~= host + rest);
    assert forall|j: int| 0 <= j < host.len() implies after[j] != '/' && after[j] != ':' by {
        assert(host.contains(host[j]));
    }
    let h = host.len() as int;
    crate::text::lemma_first_index(after, '/');
    let k = crate::text::first_index(after, '/');
    if k < h {
        assert(after[k] == '/');
    }
    let authority = crate::text::before(after, '/');
    assert(authority =~= after.take(k));
    if rest.len() > 0 {
        assert(after[h] == rest[0]);
        if rest[0] == '/' {
            if k > h {
                assert(after[h] != '/');
            }
        } else {
            if k == h {
                assert(after[h] == '/');
            }
            assert(authority[h] == ':');
        }
    }
    crate::text::lemma_first_index_is(authority, ':', h);
    assert(crate::text::before(authority, ':') =~= host);
}

} // verus!
