//! Opens and closes incidents from the stream of check results.
//!
//! Two bad results in a row open an incident on a target that has none; two good
//! ones in a row close the one that is open. During maintenance none is opened.

use vstd::prelude::*;
use vstd::string::*;

use crate::codec::{uuid_text, Id};
use crate::domain::{
    copy_text, CheckResult, CheckStatus, Incident, IncidentSeverity, Target,
};
use crate::error::AppError;
use crate::text::owned;
use crate::time::{whole_units, Moment, SECOND};

verus! {

/// How many results in a row it takes to open or to close an incident.
pub const FLAP_THRESHOLD: usize = 2;

/// How many recent results are looked at.
pub const LOOKBACK: u32 = 10;

/// How many seconds pass between two sweeps over all targets.
pub const BACKGROUND_INTERVAL_SECS: u64 = 30;

/// What the results of a target call for.
#[derive(Clone, Debug)]
pub enum IncidentChange {
    Nothing,
    Open { incident: Incident },
    Close { incident: Incident },
}

/// The number of results at the newest end that are not up. Results stand newest
/// first.
pub open spec fn bad_run(results: Seq<CheckResult>) -> int
    decreases results.len(),
{
    if results.len() == 0 || results[0].status is Up {
        0
    } else {
        1 + bad_run(results.drop_first())
    }
}

/// The number of results at the newest end that are up.
pub open spec fn good_run(results: Seq<CheckResult>) -> int
    decreases results.len(),
{
    if results.len() == 0 || !(results[0].status is Up) {
        0
    } else {
        1 + good_run(results.drop_first())
    }
}

/// The place of the oldest result that is up, or that is not up; -1 where there
/// is none.
pub open spec fn oldest(results: Seq<CheckResult>, up: bool) -> int
    decreases results.len(),
{
    if results.len() == 0 {
        -1
    } else if results.last().status is Up == up {
        results.len() - 1
    } else {
        oldest(results.drop_last(), up)
    }
}

/// Whether the results open an incident on a target without one.
pub open spec fn opens(results: Seq<CheckResult>) -> bool {
    bad_run(results) >= FLAP_THRESHOLD
}

/// Whether the results close the open incident.
pub open spec fn closes(results: Seq<CheckResult>) -> bool {
    good_run(results) >= FLAP_THRESHOLD
}

/// `inc` is the incident that the results of the target `t` open at `now`: it
/// starts with the oldest bad result that is looked at.
pub open spec fn is_opened(
    inc: Incident,
    id: Id,
    t: Id,
    results: Seq<CheckResult>,
    now: Moment,
) -> bool {
    let first = results[oldest(results, false)];
    &&& inc.id == id
    &&& inc.target_id == t
    &&& inc.started_at == first.timestamp
    &&& inc.ended_at is None
    &&& inc.status == first.status
    &&& inc.duration_secs is None
    &&& inc.check_count == bad_run(results)
    &&& inc.error_sample == first.error
    &&& inc.severity is Major
    &&& inc.public_title matches Some(title) && title@ == "Auto-detected outage for target "@
        + crate::codec::id_text(t)
    &&& inc.public_description == first.error
    &&& inc.created_at == Some(now)
    &&& inc.updated_at == Some(now)
    &&& inc.updates@.len() == 0
    &&& inc.regions_down@.len() == 0
    &&& inc.regions_up@.len() == 0
}

/// The length of an incident in whole seconds, 0 where it would end before it
/// started.
pub open spec fn length_secs(started_at: int, ended_at: int) -> int {
    if ended_at < started_at {
        0
    } else {
        (ended_at - started_at) / (SECOND as int)
    }
}

/// `inc` is `open` closed by the results: at the oldest good result that is
/// looked at. All else stays.
pub open spec fn is_closed(
    inc: Incident,
    open: Incident,
    results: Seq<CheckResult>,
    now: Moment,
) -> bool {
    let ended_at = results[oldest(results, true)].timestamp;
    inc == (Incident {
        ended_at: Some(ended_at),
        duration_secs: Some(length_secs(open.started_at as int, ended_at as int) as u64),
        updated_at: Some(now),
        ..open
    })
}

/// Whether every moment in the input has a calendar date.
pub open spec fn moments_fit(results: Seq<CheckResult>, open: Option<Incident>) -> bool {
    &&& forall|i: int|
        0 <= i < results.len() ==> crate::time::on_calendar(
            (#[trigger] results[i]).timestamp as int,
        )
    &&& open matches Some(inc) ==> crate::time::on_calendar(inc.started_at as int)
}

/// `r` is what the results of the target `t` call for at `now`, where `open` is
/// its open incident: to open one where there is none and they are bad enough, to
/// close it where they are good enough, and nothing else.
pub open spec fn is_change(
    r: IncidentChange,
    t: Id,
    results: Seq<CheckResult>,
    open: Option<Incident>,
    id: Id,
    now: Moment,
) -> bool {
    match r {
        IncidentChange::Open { incident } => open is None && opens(results) && is_opened(
            incident,
            id,
            t,
            results,
            now,
        ),
        IncidentChange::Close { incident } => open is Some && closes(results) && is_closed(
            incident,
            open->0,
            results,
            now,
        ),
        IncidentChange::Nothing => !(open is None && opens(results)) && !(open is Some && closes(
            results,
        )),
    }
}

/// What decides between a result that is up and one that is not.
fn is_up(r: &CheckResult) -> (b: bool)
    ensures
        b == (r.status is Up),
{
    r.status == CheckStatus::Up
}

/// The number of results at the newest end that are up, or that are not.
fn leading_run(results: &Vec<CheckResult>, up: bool) -> (r: usize)
    ensures
        up ==> r == good_run(results@),
        !up ==> r == bad_run(results@),
        r <= results@.len(),
{
    let mut i: usize = 0;
    assert(results@.skip(0) =~= results@);
    while i < results.len() && is_up(&results[i]) == up
        invariant
            i <= results.len(),
            up ==> good_run(results@) == i + good_run(results@.skip(i as int)),
            !up ==> bad_run(results@) == i + bad_run(results@.skip(i as int)),
        decreases results.len() - i,
    {
        assert(results@.skip(i as int).drop_first() =~= results@.skip(i + 1));
        assert(results@.skip(i as int)[0] == results@[i as int]);
        i += 1;
    }
    if i < results.len() {
        assert(results@.skip(i as int)[0] == results@[i as int]);
    }
    i
}

/// The place of the oldest result that is up, or that is not.
fn oldest_place(results: &Vec<CheckResult>, up: bool) -> (r: Option<usize>)
    ensures
        match r {
            Some(i) => i < results@.len() && i == oldest(results@, up),
            None => oldest(results@, up) == -1,
        },
{
    let mut n: usize = results.len();
    assert(results@.take(n as int) =~= results@);
    while n > 0
        invariant
            n <= results.len(),
            oldest(results@, up) == oldest(results@.take(n as int), up),
        decreases n,
    {
        assert(results@.take(n as int).last() == results@[n - 1]);
        if is_up(&results[n - 1]) == up {
            return Some(n - 1);
        }
        assert(results@.take(n as int).drop_last() =~= results@.take(n - 1));
        n -= 1;
    }
    None
}

/// A run of results means that there is an oldest one of its sort.
proof fn lemma_run_has_oldest(results: Seq<CheckResult>)
    ensures
        bad_run(results) >= 1 ==> 0 <= oldest(results, false) < results.len(),
        good_run(results) >= 1 ==> 0 <= oldest(results, true) < results.len(),
{
    if results.len() > 0 {
        lemma_oldest_exists(results, results[0].status is Up, 0);
    }
}

/// Where some result is of a sort, the oldest of that sort exists.
proof fn lemma_oldest_exists(results: Seq<CheckResult>, up: bool, i: int)
    requires
        0 <= i < results.len(),
        results[i].status is Up == up,
    ensures
        0 <= oldest(results, up) < results.len(),
        results[oldest(results, up)].status is Up == up,
    decreases results.len(),
{
    if results.last().status is Up != up {
        assert(results.drop_last()[i] == results[i]);
        lemma_oldest_exists(results.drop_last(), up, i);
    }
}

/// What the results of the target `target_id`, newest first, call for at `now`,
/// where `open` is its open incident. A new incident gets the identifier `id`.
pub fn decide_incident_state(
    target_id: Id,
    results: &Vec<CheckResult>,
    open: Option<Incident>,
    id: Id,
    now: Moment,
) -> (r: IncidentChange)
    requires
        moments_fit(results@, open),
    ensures
        is_change(r, target_id, results@, open, id, now),
{
    let bad: usize = leading_run(results, false);
    let good: usize = leading_run(results, true);
    proof {
        lemma_run_has_oldest(results@);
    }
    match open {
        None => {
            if bad >= FLAP_THRESHOLD {
                match oldest_place(results, false) {
                    Some(k) => {
                        let first = &results[k];
                        let mut title = owned("Auto-detected outage for target ");
                        title.append(uuid_text(target_id).as_str());
                        let incident = Incident {
                            id,
                            target_id,
                            started_at: first.timestamp,
                            ended_at: None,
                            status: first.status,
                            duration_secs: None,
                            check_count: bad as u64,
                            error_sample: copy_text(&first.error),
                            severity: IncidentSeverity::Major,
                            public_title: Some(title),
                            public_description: copy_text(&first.error),
                            created_at: Some(now),
                            updated_at: Some(now),
                            updates: Vec::new(),
                            regions_down: Vec::new(),
                            regions_up: Vec::new(),
                        };
                        IncidentChange::Open { incident }
                    },
                    None => IncidentChange::Nothing,
                }
            } else {
                IncidentChange::Nothing
            }
        },
        Some(open_incident) => {
            if good >= FLAP_THRESHOLD {
                match oldest_place(results, true) {
                    Some(k) => {
                        let ended_at = results[k].timestamp;
                        assert(crate::time::on_calendar(results@[k as int].timestamp as int));
                        let secs: i128 = whole_units(ended_at - open_incident.started_at, SECOND);
                        let duration: u64 = if secs < 0 {
                            0
                        } else {
                            secs as u64
                        };
                        let mut updated = open_incident;
                        updated.ended_at = Some(ended_at);
                        updated.duration_secs = Some(duration);
                        updated.updated_at = Some(now);
                        IncidentChange::Close { incident: updated }
                    },
                    None => IncidentChange::Nothing,
                }
            } else {
                IncidentChange::Nothing
            }
        },
    }
}

/// What evaluating one target calls for: what its results call for, but during
/// maintenance no incident is opened.
pub fn evaluate_target(
    in_maintenance: bool,
    target_id: Id,
    results: &Vec<CheckResult>,
    open: Option<Incident>,
    id: Id,
    now: Moment,
) -> (r: IncidentChange)
    requires
        moments_fit(results@, open),
    ensures
        in_maintenance && open is None ==> r is Nothing,
        !(in_maintenance && open is None) ==> is_change(r, target_id, results@, open, id, now),
{
    if (in_maintenance && open.is_none()) || results.len() == 0 {
        return IncidentChange::Nothing;
    }
    decide_incident_state(target_id, results, open, id, now)
}

/// How to go on once the store was asked to create an incident: with the created
/// one, with nothing where another writer was first, or with the failure.
pub fn after_create(created: Result<Incident, AppError>) -> (r: Result<Option<Incident>, AppError>)
    ensures
        match created {
            Ok(inc) => r == Ok::<Option<Incident>, AppError>(Some(inc)),
            Err(e) => if e is Conflict {
                r == Ok::<Option<Incident>, AppError>(None)
            } else {
                r == Err::<Option<Incident>, AppError>(e)
            },
        },
{
    match created {
        Ok(inc) => Ok(Some(inc)),
        Err(AppError::Conflict { code: _, message: _ }) => Ok(None),
        Err(e) => Err(e),
    }
}

/// Why subscribers are written to.
#[derive(Clone, Copy, Debug, PartialEq, Eq, Structural)]
pub enum DeliveryReason {
    IncidentOpened,
    IncidentResolved,
    IncidentUpdated,
}

/// What is still to be done after an incident was opened or closed.
#[derive(Clone, Copy, Debug, PartialEq, Eq, Structural)]
pub enum FollowUp {
    EnqueueDeliveries(DeliveryReason),
    DispatchToChannels(DeliveryReason),
    SeedEscalation,
    DropEscalation,
}

/// What is still to be done after an incident was opened or closed, in order.
/// None of it can undo the change.
pub fn follow_ups(opened: bool) -> (r: Vec<FollowUp>)
    ensures
        r@ == if opened {
            seq![
                FollowUp::EnqueueDeliveries(DeliveryReason::IncidentOpened),
                FollowUp::DispatchToChannels(DeliveryReason::IncidentOpened),
                FollowUp::SeedEscalation,
            ]
        } else {
            seq![
                FollowUp::EnqueueDeliveries(DeliveryReason::IncidentResolved),
                FollowUp::DispatchToChannels(DeliveryReason::IncidentResolved),
                FollowUp::DropEscalation,
            ]
        },
{
    let mut r: Vec<FollowUp> = Vec::new();
    if opened {
        r.push(FollowUp::EnqueueDeliveries(DeliveryReason::IncidentOpened));
        r.push(FollowUp::DispatchToChannels(DeliveryReason::IncidentOpened));
        r.push(FollowUp::SeedEscalation);
    } else {
        r.push(FollowUp::EnqueueDeliveries(DeliveryReason::IncidentResolved));
        r.push(FollowUp::DispatchToChannels(DeliveryReason::IncidentResolved));
        r.push(FollowUp::DropEscalation);
    }
    r
}

/// The identifiers of the enabled targets, in order.
pub open spec fn enabled_ids(targets: Seq<Target>) -> Seq<Id>
    decreases targets.len(),
{
    if targets.len() == 0 {
        Seq::empty()
    } else if targets.last().enabled {
        enabled_ids(targets.drop_last()).push(targets.last().id)
    } else {
        enabled_ids(targets.drop_last())
    }
}

/// The targets that a sweep goes over: the enabled ones.
pub fn sweep_targets(targets: &Vec<Target>) -> (r: Vec<Id>)
    ensures
        r@ == enabled_ids(targets@),
{
    let mut r: Vec<Id> = Vec::new();
    let mut i: usize = 0;
    while i < targets.len()
        invariant
            i <= targets.len(),
            r@ == enabled_ids(targets@.take(i as int)),
        decreases targets.len() - i,
    {
        assert(targets@.take(i + 1).drop_last() =~= targets@.take(i as int));
        assert(targets@.take(i + 1).last() == targets@[i as int]);
        if targets[i].enabled {
            r.push(targets[i].id);
        }
        i += 1;
    }
    assert(targets@.take(i as int) =~= targets@);
    r
}

/// How far the escalation of an incident has come.
#[derive(Clone, Copy, Debug, PartialEq, Eq, Structural)]
pub struct IncidentEscalationState {
    pub incident_id: Id,
    pub policy_id: Id,
    pub current_level: i32,
    pub current_round: i32,
    pub last_paged_at: Moment,
    pub next_check_at: Moment,
    pub acked: bool,
}

/// `now` put off by `delay` seconds, or not at all where that is negative.
pub open spec fn put_off(now: Moment, delay: int) -> int {
    now + (if delay > 0 {
        delay
    } else {
        0
    }) * SECOND
}

/// `now` put off by `delay` seconds, or not at all where that is negative.
pub fn put_off_by(now: Moment, delay: i32) -> (r: Moment)
    requires
        crate::time::on_calendar(now as int),
        crate::time::on_calendar(put_off(now, delay as int)),
    ensures
        r == put_off(now, delay as int),
{
    if delay > 0 {
        now + (delay as i128) * SECOND
    } else {
        now
    }
}

/// Where the escalation of a new incident starts; nowhere without a policy. The
/// first page waits for the delay of the policy's first step, so that it does not
/// repeat the notice of the opening; where that step is not known it does not
/// wait.
pub fn seed_escalation_state(
    policy_id: Option<Id>,
    first_step_delay_secs: Option<i32>,
    incident_id: Id,
    now: Moment,
) -> (r: Option<IncidentEscalationState>)
    requires
        crate::time::on_calendar(now as int),
        crate::time::on_calendar(
            put_off(
                now,
                match first_step_delay_secs {
                    Some(d) => d as int,
                    None => 0,
                },
            ),
        ),
    ensures
        match policy_id {
            None => r is None,
            Some(p) => r == Some(
                IncidentEscalationState {
                    incident_id,
                    policy_id: p,
                    current_level: 0,
                    current_round: 0,
                    last_paged_at: now,
                    next_check_at: put_off(
                        now,
                        match first_step_delay_secs {
                            Some(d) => d as int,
                            None => 0,
                        },
                    ) as i128,
                    acked: false,
                },
            ),
        },
{
    match policy_id {
        None => None,
        Some(p) => {
            let delay: i32 = match first_step_delay_secs {
                Some(d) => d,
                None => 0,
            };
            Some(
                IncidentEscalationState {
                    incident_id,
                    policy_id: p,
                    current_level: 0,
                    current_round: 0,
                    last_paged_at: now,
                    next_check_at: put_off_by(now, delay),
                    acked: false,
                },
            )
        },
    }
}

/// Results that would open an incident close none, and the other way round.
pub proof fn law_opening_and_closing_exclude_each_other(results: Seq<CheckResult>)
    ensures
        !(opens(results) && closes(results)),
        bad_run(results) == 0 || good_run(results) == 0,
{
}

/// One result alone changes nothing.
pub proof fn law_one_result_changes_nothing(results: Seq<CheckResult>)
    requires
        results.len() < FLAP_THRESHOLD,
    ensures
        !opens(results),
        !closes(results),
{
    lemma_runs_are_bounded(results);
}

/// A run is no longer than the results.
proof fn lemma_runs_are_bounded(results: Seq<CheckResult>)
    ensures
        0 <= bad_run(results) <= results.len(),
        0 <= good_run(results) <= results.len(),
    decreases results.len(),
{
    if results.len() > 0 {
        lemma_runs_are_bounded(results.drop_first());
    }
}

/// Evaluating a target again on the same results writes nothing more: the
/// incident that was opened keeps a second one from opening and is not closed by
/// the results that opened it, and results that closed an incident open no other.
pub proof fn law_evaluation_is_idempotent(
    results: Seq<CheckResult>,
    open: Option<Incident>,
    t: Id,
    id: Id,
    now: Moment,
    first: IncidentChange,
    next_id: Id,
    later: Moment,
    second: IncidentChange,
)
    requires
        is_change(first, t, results, open, id, now),
        is_change(
            second,
            t,
            results,
            match first {
                IncidentChange::Open { incident } => Some(incident),
                IncidentChange::Close { .. } => None,
                IncidentChange::Nothing => open,
            },
            next_id,
            later,
        ),
    ensures
        second is Nothing,
{
    law_opening_and_closing_exclude_each_other(results);
}

/// An opened incident is open, and a closed one is over.
pub proof fn law_changes_do_what_they_say(
    results: Seq<CheckResult>,
    open: Option<Incident>,
    t: Id,
    id: Id,
    now: Moment,
    change: IncidentChange,
)
    requires
        is_change(change, t, results, open, id, now),
    ensures
        change matches IncidentChange::Open { incident } ==> incident.ended_at is None
            && incident.target_id == t,
        change matches IncidentChange::Close { incident } ==> incident.ended_at is Some
            && incident.duration_secs is Some && incident.id == open->0.id,
{
}

/// A closed incident is the one that was open: closing changes its end, its
/// length and its time of change, and nothing else.
pub proof fn law_closing_keeps_the_rest(
    results: Seq<CheckResult>,
    open: Incident,
    closed: Incident,
    now: Moment,
)
    requires
        is_closed(closed, open, results, now),
    ensures
        closed.id == open.id,
        closed.target_id == open.target_id,
        closed.started_at == open.started_at,
        closed.severity == open.severity,
        closed.public_title == open.public_title,
        closed.public_description == open.public_description,
        closed.updates == open.updates,
        closed.regions_down == open.regions_down,
        closed.regions_up == open.regions_up,
        closed.created_at == open.created_at,
        closed.check_count == open.check_count,
{
}

/// An escalation never starts before its incident was opened.
pub proof fn law_first_page_is_not_early(now: Moment, delay: int)
    ensures
        put_off(now, delay) >= now,
{
    assert(delay > 0 ==> delay * SECOND >= 0) by (nonlinear_arith)
        requires
            SECOND > 0,
    ;
}

} // verus!
