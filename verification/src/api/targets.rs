//! Targets: making, changing, listing and testing them.

use vstd::prelude::*;
use vstd::string::*;

use crate::codec::{to_lower_case, Id, NIL};
use crate::domain::{CheckSpec, CheckStatus, Target};
use crate::error::{bad_request, AppError};
use crate::text::{contains_text, owned, same_text};
use crate::time::Moment;

verus! {

/// A target to be made.
#[derive(Clone, Debug)]
pub struct NewTarget {
    pub name: String,
    pub check: CheckSpec,
    pub interval_secs: u64,
    pub enabled: bool,
    pub tags: Vec<String>,
    pub alerts: Vec<Id>,
    pub alert_confirmations: u32,
    pub notify_recovery: bool,
    pub renotify_interval_secs: u64,
    pub region_policy: Option<String>,
    pub group_name: Option<String>,
    pub owner_user_id: Option<Id>,
    pub escalation_policy_id: Option<Id>,
}

/// `t` is what `spec` asks for, under this identifier, made at `now`.
pub open spec fn is_made(t: Target, spec: NewTarget, id: Id, now: Moment) -> bool {
    &&& t.id == id
    &&& t.name == spec.name
    &&& t.check == spec.check
    &&& t.interval_secs == spec.interval_secs
    &&& t.enabled == spec.enabled
    &&& t.tags == spec.tags
    &&& t.alerts == spec.alerts
    &&& t.alert_confirmations == spec.alert_confirmations
    &&& t.notify_recovery == spec.notify_recovery
    &&& t.renotify_interval_secs == spec.renotify_interval_secs
    &&& match spec.region_policy {
        Some(p) => t.region_policy == p,
        None => t.region_policy@ == Seq::<char>::empty(),
    }
    &&& t.group_name == spec.group_name
    &&& t.owner_user_id == spec.owner_user_id
    &&& t.escalation_policy_id == spec.escalation_policy_id
    &&& t.created_at == now
    &&& t.updated_at == now
}

/// Makes a target.
pub fn create_target(spec: NewTarget, id: Id, now: Moment) -> (r: Target)
    ensures
        is_made(r, spec, id, now),
{
    Target {
        id,
        name: spec.name,
        enabled: spec.enabled,
        check: spec.check,
        interval_secs: spec.interval_secs,
        group_name: spec.group_name,
        tags: spec.tags,
        alerts: spec.alerts,
        alert_confirmations: spec.alert_confirmations,
        notify_recovery: spec.notify_recovery,
        renotify_interval_secs: spec.renotify_interval_secs,
        region_policy: match spec.region_policy {
            Some(p) => p,
            None => String::new(),
        },
        owner_user_id: spec.owner_user_id,
        escalation_policy_id: spec.escalation_policy_id,
        created_at: now,
        updated_at: now,
    }
}

/// What a target list is asked for. A target has to meet every wish.
#[derive(Clone, Debug)]
pub struct TargetsQuery {
    pub tag: Option<String>,
    pub group: Option<String>,
    pub enabled: Option<bool>,
    pub status: Option<String>,
}

/// The current status of a target.
#[derive(Clone, Debug)]
pub struct TargetRollup {
    pub target_id: Id,
    pub current_status: CheckStatus,
}

/// Whether one of `tags` holds `tag`, whatever the case.
pub open spec fn has_tag(tags: Seq<String>, tag: Seq<char>) -> bool {
    exists|i: int|
        0 <= i < tags.len() && crate::text::has_text(
            crate::codec::lower_case((#[trigger] tags[i])@),
            crate::codec::lower_case(tag),
        )
}

/// Whether a target is in the group that is asked for; the empty name asks for
/// targets without one.
pub open spec fn in_group(t: Target, group: Seq<char>) -> bool {
    if group.len() == 0 {
        t.group_name is None
    } else {
        t.group_name matches Some(g) && g@ == group
    }
}

/// Whether a target meets the wishes that it can be held against alone.
pub open spec fn meets(query: TargetsQuery, t: Target) -> bool {
    &&& (query.tag matches Some(tag) ==> has_tag(t.tags@, tag@))
    &&& (query.group matches Some(g) ==> in_group(t, g@))
    &&& (query.enabled matches Some(e) ==> t.enabled == e)
}

/// The status of this name, which is in lower case.
pub open spec fn status_in_lower_case(name: Seq<char>) -> Option<CheckStatus> {
    if name == "up"@ {
        Some(CheckStatus::Up)
    } else if name == "down"@ {
        Some(CheckStatus::Down)
    } else if name == "degraded"@ {
        Some(CheckStatus::Degraded)
    } else if name == "error"@ {
        Some(CheckStatus::Error)
    } else {
        None
    }
}

/// The status that `s` names, whatever the case.
pub open spec fn named_status(s: Seq<char>) -> Option<CheckStatus> {
    status_in_lower_case(crate::codec::lower_case(s))
}

/// The current status of the target `id`: the last that is reported, where any is.
pub open spec fn reported(rollup: Seq<TargetRollup>, id: Id) -> Option<CheckStatus>
    decreases rollup.len(),
{
    if rollup.len() == 0 {
        None
    } else if rollup.last().target_id == id {
        Some(rollup.last().current_status)
    } else {
        reported(rollup.drop_last(), id)
    }
}

/// Whether any of `targets` has the identifier `id`.
pub open spec fn has_target(targets: Seq<Target>, id: Id) -> bool {
    exists|i: int| 0 <= i < targets.len() && (#[trigger] targets[i]).id == id
}

/// Those of `targets` whose status is `want`, each identifier once.
pub open spec fn with_status(
    targets: Seq<Target>,
    rollup: Seq<TargetRollup>,
    want: CheckStatus,
) -> Seq<Target>
    decreases targets.len(),
{
    if targets.len() == 0 {
        Seq::empty()
    } else {
        let before = with_status(targets.drop_last(), rollup, want);
        if reported(rollup, targets.last().id) == Some(want) && !has_target(
            targets.drop_last(),
            targets.last().id,
        ) {
            before.push(targets.last())
        } else {
            before
        }
    }
}

/// Whether one of `tags` holds `needle`.
pub open spec fn any_holds(tags: Seq<Seq<char>>, needle: Seq<char>) -> bool {
    exists|i: int| 0 <= i < tags.len() && crate::text::has_text(#[trigger] tags[i], needle)
}

/// A partial change of a target; a `None` leaves a member as it is.
#[derive(Clone, Debug)]
pub struct TargetUpdate {
    pub name: Option<String>,
    pub check: Option<CheckSpec>,
    pub interval_secs: Option<u64>,
    pub enabled: Option<bool>,
    pub tags: Option<Vec<String>>,
    pub alerts: Option<Vec<Id>>,
    pub alert_confirmations: Option<u32>,
    pub notify_recovery: Option<bool>,
    pub renotify_interval_secs: Option<u64>,
    pub region_policy: Option<String>,
    pub group_name: Option<Option<String>>,
    pub owner_user_id: Option<Option<Id>>,
    pub escalation_policy_id: Option<Option<Id>>,
}

/// What a change makes of a member.
pub open spec fn changed<T>(change: Option<T>, kept: T) -> T {
    match change {
        Some(v) => v,
        None => kept,
    }
}

/// What a change makes of a member.
fn keep_or_change<T>(change: Option<T>, kept: T) -> (r: T)
    ensures
        r == changed(change, kept),
{
    match change {
        Some(v) => v,
        None => kept,
    }
}

/// A target with what `update` says changed, at `now`.
pub open spec fn updated_target(t: Target, update: TargetUpdate, now: Moment) -> Target {
    Target {
        name: changed(update.name, t.name),
        check: changed(update.check, t.check),
        interval_secs: changed(update.interval_secs, t.interval_secs),
        enabled: changed(update.enabled, t.enabled),
        tags: changed(update.tags, t.tags),
        alerts: changed(update.alerts, t.alerts),
        alert_confirmations: changed(update.alert_confirmations, t.alert_confirmations),
        notify_recovery: changed(update.notify_recovery, t.notify_recovery),
        renotify_interval_secs: changed(update.renotify_interval_secs, t.renotify_interval_secs),
        region_policy: changed(update.region_policy, t.region_policy),
        group_name: changed(update.group_name, t.group_name),
        owner_user_id: changed(update.owner_user_id, t.owner_user_id),
        escalation_policy_id: changed(update.escalation_policy_id, t.escalation_policy_id),
        updated_at: now,
        ..t
    }
}

/// Changes a target. Its identity and the moment it was made stay.
pub fn update_target(target: Target, update: TargetUpdate, now: Moment) -> (r: Target)
    ensures
        r == updated_target(target, update, now),
        r.id == target.id,
        r.created_at == target.created_at,
{
    Target {
        id: target.id,
        name: keep_or_change(update.name, target.name),
        check: keep_or_change(update.check, target.check),
        interval_secs: keep_or_change(update.interval_secs, target.interval_secs),
        enabled: keep_or_change(update.enabled, target.enabled),
        tags: keep_or_change(update.tags, target.tags),
        alerts: keep_or_change(update.alerts, target.alerts),
        alert_confirmations: keep_or_change(update.alert_confirmations, target.alert_confirmations),
        notify_recovery: keep_or_change(update.notify_recovery, target.notify_recovery),
        renotify_interval_secs: keep_or_change(update.renotify_interval_secs, target.renotify_interval_secs),
        region_policy: keep_or_change(update.region_policy, target.region_policy),
        group_name: keep_or_change(update.group_name, target.group_name),
        owner_user_id: keep_or_change(update.owner_user_id, target.owner_user_id),
        escalation_policy_id: keep_or_change(update.escalation_policy_id, target.escalation_policy_id),
        created_at: target.created_at,
        updated_at: now,
    }
}

/// Whether one of `tags` holds `needle`.
pub fn any_tag(tags: &Vec<String>, needle: &str) -> (r: bool)
    ensures
        r == any_holds(tags@.map_values(|t: String| t@), needle@),
{
    let ghost views = tags@.map_values(|t: String| t@);
    let mut i: usize = 0;
    while i < tags.len()
        invariant
            i <= tags.len(),
            views == tags@.map_values(|t: String| t@),
            forall|j: int| 0 <= j < i ==> !crate::text::has_text(#[trigger] views[j], needle@),
        decreases tags.len() - i,
    {
        assert(views[i as int] == tags@[i as int]@);
        if contains_text(tags[i].as_str(), needle) {
            return true;
        }
        i += 1;
    }
    false
}

/// Texts in lower case.
fn lower_all(texts: &Vec<String>) -> (r: Vec<String>)
    ensures
        r@.len() == texts@.len(),
        forall|i: int|
            0 <= i < r@.len() ==> (#[trigger] r@[i])@ == crate::codec::lower_case(texts@[i]@),
{
    let mut out: Vec<String> = Vec::new();
    let mut i: usize = 0;
    while i < texts.len()
        invariant
            i <= texts.len(),
            out@.len() == i,
            forall|k: int|
                0 <= k < i ==> (#[trigger] out@[k])@ == crate::codec::lower_case(texts@[k]@),
        decreases texts.len() - i,
    {
        out.push(to_lower_case(texts[i].as_str()));
        i += 1;
    }
    out
}

/// Whether one of `tags` holds `tag`, whatever the case.
fn tagged(tags: &Vec<String>, tag: &str) -> (r: bool)
    ensures
        r == has_tag(tags@, tag@),
{
    let lowered = lower_all(tags);
    let needle = to_lower_case(tag);
    let r = any_tag(&lowered, needle.as_str());
    proof {
        let views = lowered@.map_values(|t: String| t@);
        if any_holds(views, needle@) {
            let i = choose|i: int|
                0 <= i < views.len() && crate::text::has_text(#[trigger] views[i], needle@);
            assert(views[i] == lowered@[i]@);
            assert(crate::text::has_text(
                crate::codec::lower_case(tags@[i]@),
                crate::codec::lower_case(tag@),
            ));
        }
        if has_tag(tags@, tag@) {
            let i = choose|i: int|
                0 <= i < tags@.len() && crate::text::has_text(
                    crate::codec::lower_case((#[trigger] tags@[i])@),
                    crate::codec::lower_case(tag@),
                );
            assert(views[i] == lowered@[i]@);
        }
    }
    r
}

/// Whether a target meets the wishes that it can be held against alone.
fn meets_query(query: &TargetsQuery, t: &Target) -> (r: bool)
    ensures
        r == meets(*query, *t),
{
    if let Some(tag) = &query.tag {
        if !tagged(&t.tags, tag.as_str()) {
            return false;
        }
    }
    if let Some(group) = &query.group {
        let ok = if group.as_str().is_empty() {
            t.group_name.is_none()
        } else {
            match &t.group_name {
                Some(g) => same_text(g.as_str(), group.as_str()),
                None => false,
            }
        };
        if !ok {
            return false;
        }
    }
    if let Some(enabled) = query.enabled {
        if t.enabled != enabled {
            return false;
        }
    }
    true
}

/// The status of this name, which is in lower case.
pub fn status_of_name(name: &str) -> (r: Option<CheckStatus>)
    ensures
        r == status_in_lower_case(name@),
{
    if same_text(name, "up") {
        Some(CheckStatus::Up)
    } else if same_text(name, "down") {
        Some(CheckStatus::Down)
    } else if same_text(name, "degraded") {
        Some(CheckStatus::Degraded)
    } else if same_text(name, "error") {
        Some(CheckStatus::Error)
    } else {
        None
    }
}

/// The status that `s` names, whatever the case.
pub fn parse_status(s: &str) -> (r: Result<CheckStatus, AppError>)
    ensures
        match r {
            Ok(status) => named_status(s@) == Some(status),
            Err(e) => named_status(s@) is None && crate::error::is_bad_request(
                e,
                "INVALID_STATUS"@,
                "unknown status `"@ + s@ + "`; expected one of: up, down, degraded, error"@,
            ),
        },
{
    match status_of_name(to_lower_case(s).as_str()) {
        Some(status) => Ok(status),
        None => {
            let mut message = owned("unknown status `");
            message.append(s);
            message.append("`; expected one of: up, down, degraded, error");
            Err(bad_request("INVALID_STATUS", message))
        },
    }
}

/// The current status of the target `id`.
fn find_status(rollup: &Vec<TargetRollup>, id: Id) -> (r: Option<CheckStatus>)
    ensures
        r == reported(rollup@, id),
{
    let mut n: usize = rollup.len();
    assert(rollup@.take(n as int) =~= rollup@);
    while n > 0
        invariant
            n <= rollup.len(),
            reported(rollup@, id) == reported(rollup@.take(n as int), id),
        decreases n,
    {
        assert(rollup@.take(n as int).last() == rollup@[n - 1]);
        if rollup[n - 1].target_id == id {
            return Some(rollup[n - 1].current_status);
        }
        assert(rollup@.take(n as int).drop_last() =~= rollup@.take(n - 1));
        n -= 1;
    }
    None
}

/// Those of `targets` that meet the wishes that they can be held against alone, in
/// order.
fn keep_meeting(targets: Vec<Target>, query: &TargetsQuery) -> (r: Vec<Target>)
    ensures
        r@ == targets@.filter(|t: Target| meets(*query, t)),
{
    let ghost keep = |t: Target| meets(*query, t);
    let ghost all = targets@;
    let mut rest = targets;
    let mut out: Vec<Target> = Vec::new();
    let ghost mut n: int = 0;
    assert(all.take(0).filter(keep) =~= Seq::<Target>::empty()) by {
        reveal(Seq::filter);
    }
    while rest.len() > 0
        invariant
            0 <= n <= all.len(),
            rest@ == all.skip(n),
            keep == (|t: Target| meets(*query, t)),
            out@ == all.take(n).filter(keep),
        decreases rest.len(),
    {
        let t = rest.remove(0);
        assert(t == all[n]);
        proof {
            crate::public::incident::lemma_filter_next(all, keep, n);
        }
        if meets_query(query, &t) {
            out.push(t);
        }
        proof {
            n = n + 1;
        }
        assert(rest@ =~= all.skip(n));
    }
    assert(all.take(n) =~= all);
    out
}

/// Those of `targets` whose status is `want`, each identifier once.
fn keep_status(targets: Vec<Target>, rollup: &Vec<TargetRollup>, want: CheckStatus) -> (r: Vec<
    Target,
>)
    ensures
        r@ == with_status(targets@, rollup@, want),
{
    let ghost all = targets@;
    let mut rest = targets;
    let mut out: Vec<Target> = Vec::new();
    let mut seen: Vec<Id> = Vec::new();
    let ghost mut n: int = 0;
    while rest.len() > 0
        invariant
            0 <= n <= all.len(),
            rest@ == all.skip(n),
            seen@ == all.take(n).map_values(|t: Target| t.id),
            out@ == with_status(all.take(n), rollup@, want),
        decreases rest.len(),
    {
        let t = rest.remove(0);
        assert(t == all[n]);
        let mut k: usize = 0;
        while k < seen.len() && seen[k] != t.id
            invariant
                k <= seen.len(),
                forall|j: int| 0 <= j < k ==> seen@[j] != t.id,
            decreases seen.len() - k,
        {
            k += 1;
        }
        let fresh = k == seen.len();
        proof {
            let before = all.take(n);
            assert(all.take(n + 1).drop_last() =~= before);
            assert(all.take(n + 1).last() == t);
            if k < seen@.len() {
                assert(before[k as int].id == seen@[k as int]);
            }
            if has_target(before, t.id) {
                let j = choose|j: int| 0 <= j < before.len() && (#[trigger] before[j]).id == t.id;
                assert(seen@[j] == t.id);
            }
            assert(fresh == !has_target(before, t.id));
        }
        seen.push(t.id);
        assert(seen@ =~= all.take(n + 1).map_values(|t: Target| t.id));
        let status = find_status(rollup, t.id);
        let wanted = match status {
            Some(s) => s == want,
            None => false,
        };
        if wanted && fresh {
            out.push(t);
        }
        proof {
            n = n + 1;
        }
        assert(rest@ =~= all.skip(n));
    }
    assert(all.take(n) =~= all);
    out
}

/// The targets that meet every wish, in order. A status that nobody knows is
/// refused; a target without a reported status has none that could be asked for.
pub fn list_targets(
    targets: Vec<Target>,
    query: &TargetsQuery,
    rollup: &Vec<TargetRollup>,
) -> (r: Result<Vec<Target>, AppError>)
    ensures
        match r {
            Ok(out) => match query.status {
                None => out@ == targets@.filter(|t: Target| meets(*query, t)),
                Some(s) => named_status(s@) matches Some(want) && out@ == with_status(
                    targets@.filter(|t: Target| meets(*query, t)),
                    rollup@,
                    want,
                ),
            },
            Err(e) => query.status matches Some(s) && named_status(s@) is None
                && crate::error::is_bad_request(
                e,
                "INVALID_STATUS"@,
                "unknown status `"@ + s@ + "`; expected one of: up, down, degraded, error"@,
            ),
        },
{
    let kept = keep_meeting(targets, query);
    match &query.status {
        None => Ok(kept),
        Some(s) => match parse_status(s.as_str()) {
            Ok(want) => Ok(keep_status(kept, rollup, want)),
            Err(e) => Err(e),
        },
    }
}

/// How many results a request for them gets.
pub fn results_limit(limit: Option<u32>) -> (r: u32)
    ensures
        r == match limit {
            Some(n) => if n <= 1000 {
                n
            } else {
                1000
            },
            None => 100,
        },
{
    match limit {
        Some(n) => if n <= 1000 {
            n
        } else {
            1000
        },
        None => 100,
    }
}

/// Whether a target may be checked at once: it has to be enabled.
pub fn check_target_now(enabled: bool) -> (r: Result<(), AppError>)
    ensures
        match r {
            Ok(_) => enabled,
            Err(e) => !enabled && crate::error::is_bad_request(
                e,
                "TARGET_DISABLED"@,
                "target is disabled; enable it before triggering a check"@,
            ),
        },
{
    if enabled {
        Ok(())
    } else {
        Err(
            bad_request(
                "TARGET_DISABLED",
                owned("target is disabled; enable it before triggering a check"),
            ),
        )
    }
}

/// The error for a check result that could not be recorded.
pub fn record_failure(reason: &str) -> (e: AppError)
    ensures
        crate::error::is_internal(
            e,
            "RECORD_RESULT"@,
            "failed to record check result: "@ + reason@,
        ),
{
    let mut log = owned("failed to record check result: ");
    log.append(reason);
    AppError::Internal { code: "RECORD_RESULT", log }
}

/// A target that exists for one trial of `check` alone. Heartbeats and domain
/// expiries cannot be tried: they need a target that is kept.
pub fn test_target_spec(check: CheckSpec, now: Moment) -> (r: Result<Target, AppError>)
    ensures
        match r {
            Ok(t) => {
                &&& !(check is Heartbeat) && !(check is DomainExpiry)
                &&& t.id == 0
                &&& t.name@ == "__test__"@
                &&& t.check == check
                &&& t.interval_secs == 60
                &&& t.enabled
                &&& t.tags@.len() == 0
                &&& t.alerts@.len() == 0
                &&& t.alert_confirmations == 1
                &&& !t.notify_recovery
                &&& t.renotify_interval_secs == 0
                &&& t.region_policy@ == Seq::<char>::empty()
                &&& t.group_name is None
                &&& t.owner_user_id is None
                &&& t.escalation_policy_id is None
                &&& t.created_at == now
                &&& t.updated_at == now
            },
            Err(e) => (check is Heartbeat || check is DomainExpiry)
                && crate::error::is_bad_request(
                e,
                "NOT_TESTABLE"@,
                "heartbeat and domain_expiry checks require a persisted target; create the target and use POST /targets/{id}/check-now instead"@,
            ),
        },
{
    let testable = match &check {
        CheckSpec::Heartbeat => false,
        CheckSpec::DomainExpiry { .. } => false,
        _ => true,
    };
    if !testable {
        return Err(
            bad_request(
                "NOT_TESTABLE",
                owned(
                    "heartbeat and domain_expiry checks require a persisted target; create the target and use POST /targets/{id}/check-now instead",
                ),
            ),
        );
    }
    Ok(
        Target {
            id: NIL,
            name: owned("__test__"),
            enabled: true,
            check,
            interval_secs: 60,
            group_name: None,
            tags: Vec::new(),
            alerts: Vec::new(),
            alert_confirmations: 1,
            notify_recovery: false,
            renotify_interval_secs: 0,
            region_policy: String::new(),
            owner_user_id: None,
            escalation_policy_id: None,
            created_at: now,
            updated_at: now,
        },
    )
}

/// How a heartbeat target is: down once its last ping lies further back than its
/// period and its grace together.
pub fn heartbeat_status(
    last_ping_at: Moment,
    period_secs: u32,
    grace_secs: u32,
    now: Moment,
) -> (r: CheckStatus)
    requires
        i128::MIN <= now - last_ping_at <= i128::MAX,
    ensures
        r == if now - last_ping_at > (period_secs + grace_secs) * crate::time::SECOND {
            CheckStatus::Down
        } else {
            CheckStatus::Up
        },
{
    let allowed: i128 = (period_secs as i128 + grace_secs as i128) * crate::time::SECOND;
    if now - last_ping_at > allowed {
        CheckStatus::Down
    } else {
        CheckStatus::Up
    }
}

/// Whether a ping may be recorded for a target: it has to be one that waits for
/// pings.
pub fn record_heartbeat_ping(check: &CheckSpec) -> (r: Result<(), AppError>)
    ensures
        match r {
            Ok(_) => check is Heartbeat,
            Err(e) => !(check is Heartbeat) && crate::error::is_bad_request(
                e,
                "NOT_HEARTBEAT_TARGET"@,
                "target check kind is not heartbeat"@,
            ),
        },
{
    match check {
        CheckSpec::Heartbeat => Ok(()),
        _ => Err(
            bad_request("NOT_HEARTBEAT_TARGET", owned("target check kind is not heartbeat")),
        ),
    }
}

/// What a list gives out is among what was there, and meets the wishes.
pub proof fn law_listed_targets_meet_the_wishes(
    targets: Seq<Target>,
    query: TargetsQuery,
    rollup: Seq<TargetRollup>,
    want: CheckStatus,
    i: int,
)
    requires
        0 <= i < with_status(targets.filter(|t: Target| meets(query, t)), rollup, want).len(),
    ensures
        ({
            let t = with_status(targets.filter(|t: Target| meets(query, t)), rollup, want)[i];
            &&& meets(query, t)
            &&& reported(rollup, t.id) == Some(want)
            &&& targets.contains(t)
        }),
{
    let keep = |t: Target| meets(query, t);
    let kept = targets.filter(keep);
    lemma_with_status_member(kept, rollup, want, i);
    let t = with_status(kept, rollup, want)[i];
    let k = choose|k: int| 0 <= k < kept.len() && kept[k] == t;
    targets.lemma_filter_pred(keep, k);
    assert(kept.contains(t));
    targets.lemma_filter_contains_rev(keep, t);
}

/// A target that is kept for its status was there, and has it.
proof fn lemma_with_status_member(
    targets: Seq<Target>,
    rollup: Seq<TargetRollup>,
    want: CheckStatus,
    i: int,
)
    requires
        0 <= i < with_status(targets, rollup, want).len(),
    ensures
        targets.contains(with_status(targets, rollup, want)[i]),
        reported(rollup, with_status(targets, rollup, want)[i].id) == Some(want),
    decreases targets.len(),
{
    if targets.len() > 0 {
        let before = with_status(targets.drop_last(), rollup, want);
        if i < before.len() {
            lemma_with_status_member(targets.drop_last(), rollup, want, i);
            let t = before[i];
            let k = choose|k: int|
                0 <= k < targets.drop_last().len() && targets.drop_last()[k] == t;
            assert(targets[k] == t);
        } else {
            assert(targets[targets.len() - 1] == targets.last());
        }
    }
}

} // verus!
