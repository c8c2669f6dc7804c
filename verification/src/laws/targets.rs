//! Targets: made, changed, listed, tried and acted on, one by one or many at once.

use vstd::prelude::*;
use vstd::string::*;

use crate::api::bulk::{
    acted, bulk_action_targets, bulk_create_targets, check_bulk_action, check_bulk_create,
    idempotent_response, unique_ids, Acted, BulkActionKind, BulkActionResult, BulkCreateResult,
    CreateOutcome,
};
use crate::api::targets::{
    any_tag, create_target, heartbeat_status, list_targets, parse_status, update_target,
    NewTarget, TargetRollup, TargetUpdate, TargetsQuery,
};
use crate::codec::Id;
use crate::domain::{CheckStatus, Target};
use crate::error::AppError;
use crate::idempotency::CachedResponse;
use crate::time::Moment;

verus! {

/// A new target is as it was asked for, under its identifier and from now on.
pub proof fn law_new_targets_are_as_asked_for(spec: NewTarget, id: Id, now: Moment, r: Target)
    requires
        call_ensures(create_target, (spec, id, now), r),
    ensures
        r.id == id,
        r.name == spec.name,
        r.check == spec.check,
        r.interval_secs == spec.interval_secs,
        r.enabled == spec.enabled,
        r.tags == spec.tags,
        r.alerts == spec.alerts,
        r.alert_confirmations == spec.alert_confirmations,
        r.notify_recovery == spec.notify_recovery,
        r.renotify_interval_secs == spec.renotify_interval_secs,
        spec.region_policy is Some ==> spec.region_policy == Some(r.region_policy),
        spec.region_policy is None ==> r.region_policy@.len() == 0,
        r.group_name == spec.group_name,
        r.owner_user_id == spec.owner_user_id,
        r.escalation_policy_id == spec.escalation_policy_id,
        r.created_at == now,
        r.updated_at == now,
{
}

/// A change sets what it names and leaves the rest: where nothing is named, only the time
/// of the last change is new.
pub proof fn law_targets_change_as_asked_for(
    target: Target,
    update: TargetUpdate,
    now: Moment,
    r: Target,
)
    requires
        call_ensures(update_target, (target, update, now), r),
    ensures
        r.id == target.id,
        r.created_at == target.created_at,
        r.updated_at == now,
        update.name is Some ==> update.name == Some(r.name),
        update.name is None ==> r.name == target.name,
        update.check is Some ==> update.check == Some(r.check),
        update.check is None ==> r.check == target.check,
        update.interval_secs is Some ==> update.interval_secs == Some(r.interval_secs),
        update.interval_secs is None ==> r.interval_secs == target.interval_secs,
        update.enabled is Some ==> update.enabled == Some(r.enabled),
        update.enabled is None ==> r.enabled == target.enabled,
        update.tags is Some ==> update.tags == Some(r.tags),
        update.tags is None ==> r.tags == target.tags,
        update.alerts is Some ==> update.alerts == Some(r.alerts),
        update.alerts is None ==> r.alerts == target.alerts,
        update.alert_confirmations is Some ==> update.alert_confirmations == Some(
            r.alert_confirmations,
        ),
        update.alert_confirmations is None ==> r.alert_confirmations
            == target.alert_confirmations,
        update.notify_recovery is Some ==> update.notify_recovery == Some(r.notify_recovery),
        update.notify_recovery is None ==> r.notify_recovery == target.notify_recovery,
        update.renotify_interval_secs is Some ==> update.renotify_interval_secs == Some(
            r.renotify_interval_secs,
        ),
        update.renotify_interval_secs is None ==> r.renotify_interval_secs
            == target.renotify_interval_secs,
        update.region_policy is Some ==> update.region_policy == Some(r.region_policy),
        update.region_policy is None ==> r.region_policy == target.region_policy,
        update.group_name is Some ==> update.group_name == Some(r.group_name),
        update.group_name is None ==> r.group_name == target.group_name,
        update.owner_user_id is Some ==> update.owner_user_id == Some(r.owner_user_id),
        update.owner_user_id is None ==> r.owner_user_id == target.owner_user_id,
        update.escalation_policy_id is Some ==> update.escalation_policy_id == Some(
            r.escalation_policy_id,
        ),
        update.escalation_policy_id is None ==> r.escalation_policy_id
            == target.escalation_policy_id,
{
}

/// Whether `s` holds `pat` from place `i` on.
pub open spec fn holds_at(s: Seq<char>, pat: Seq<char>, i: int) -> bool {
    0 <= i <= s.len() - pat.len() && s.subrange(i, i + pat.len()) == pat
}

/// Whether a target bears the tag, in whatever case, or one that holds it.
pub open spec fn bears(t: Target, tag: Seq<char>) -> bool {
    exists|k: int, i: int|
        0 <= k < t.tags@.len() && #[trigger] holds_at(
            crate::codec::lower_case(t.tags@[k]@),
            crate::codec::lower_case(tag),
            i,
        )
}

/// Whether a target is wished for by its tags, its group and its switch.
pub open spec fn is_wished_for(query: TargetsQuery, t: Target) -> bool {
    &&& query.tag is Some ==> bears(t, query.tag->0@)
    &&& query.group is Some && query.group->0@.len() == 0 ==> t.group_name is None
    &&& query.group is Some && query.group->0@.len() > 0 ==> t.group_name is Some
        && t.group_name->0@ == query.group->0@
    &&& query.enabled is Some ==> query.enabled->0 == t.enabled
}

/// Both ways to say that a target is wished for.
proof fn lemma_wished_for(query: TargetsQuery, t: Target)
    ensures
        crate::api::targets::meets(query, t) == is_wished_for(query, t),
{
    if query.tag is Some {
        let tag = query.tag->0@;
        let low = crate::codec::lower_case(tag);
        if crate::api::targets::has_tag(t.tags@, tag) {
            let k = choose|k: int|
                0 <= k < t.tags@.len() && crate::text::has_text(
                    crate::codec::lower_case((#[trigger] t.tags@[k])@),
                    low,
                );
            let s = crate::codec::lower_case(t.tags@[k]@);
            let i = choose|i: int| crate::text::occurs_at(s, low, i);
            assert(holds_at(s, low, i));
        }
        if bears(t, tag) {
            let (k, i) = choose|k: int, i: int|
                0 <= k < t.tags@.len() && #[trigger] holds_at(
                    crate::codec::lower_case(t.tags@[k]@),
                    low,
                    i,
                );
            assert(crate::text::occurs_at(crate::codec::lower_case(t.tags@[k]@), low, i));
            assert(crate::text::has_text(crate::codec::lower_case(t.tags@[k]@), low));
        }
    }
}

/// A list that asks for no status holds, in order, exactly the targets that are wished
/// for.
pub proof fn law_lists_hold_what_is_wished_for(
    targets: Vec<Target>,
    query: &TargetsQuery,
    rollup: &Vec<TargetRollup>,
    r: Result<Vec<Target>, AppError>,
)
    requires
        query.status is None,
        call_ensures(list_targets, (targets, query, rollup), r),
    ensures
        r matches Ok(out) && out@ == targets@.filter(|t: Target| is_wished_for(*query, t)),
{
    let keep = |t: Target| crate::api::targets::meets(*query, t);
    let same = |t: Target| is_wished_for(*query, t);
    assert forall|t: Target| #[trigger] keep(t) == same(t) by {
        lemma_wished_for(*query, t);
    }
    assert(keep =~= same);
}

/// Whether the last report on the target `id` says `want`.
pub open spec fn is_last_reported(rollup: Seq<TargetRollup>, id: Id, want: CheckStatus, j: int)
    -> bool {
    &&& 0 <= j < rollup.len()
    &&& rollup[j].target_id == id
    &&& rollup[j].current_status == want
    &&& forall|k: int| j < k < rollup.len() ==> (#[trigger] rollup[k]).target_id != id
}

/// What is reported of a target is what its last report says.
proof fn lemma_reported(rollup: Seq<TargetRollup>, id: Id, want: CheckStatus)
    ensures
        (crate::api::targets::reported(rollup, id) == Some(want)) == exists|j: int|
            is_last_reported(rollup, id, want, j),
    decreases rollup.len(),
{
    if rollup.len() > 0 {
        let n = rollup.len() - 1;
        if rollup.last().target_id == id {
            if rollup.last().current_status == want {
                assert(is_last_reported(rollup, id, want, n));
            }
        } else {
            let head = rollup.drop_last();
            lemma_reported(head, id, want);
            if crate::api::targets::reported(head, id) == Some(want) {
                let j = choose|j: int| is_last_reported(head, id, want, j);
                assert forall|k: int| j < k < rollup.len() implies (
                #[trigger] rollup[k]).target_id != id by {
                    if k < n {
                        assert(head[k].target_id != id);
                    }
                }
                assert(is_last_reported(rollup, id, want, j));
            }
            if exists|j: int| is_last_reported(rollup, id, want, j) {
                let j = choose|j: int| is_last_reported(rollup, id, want, j);
                assert forall|k: int| j < k < head.len() implies (
                #[trigger] head[k]).target_id != id by {
                    assert(rollup[k].target_id != id);
                }
                assert(is_last_reported(head, id, want, j));
            }
        }
    }
}

/// The status that a name in small letters is of.
pub open spec fn is_name_of(name: Seq<char>, status: CheckStatus) -> bool {
    ||| name == "up"@ && status == CheckStatus::Up
    ||| name == "down"@ && status == CheckStatus::Down
    ||| name == "degraded"@ && status == CheckStatus::Degraded
    ||| name == "error"@ && status == CheckStatus::Error
}

/// A status is read by its name, in whatever case, and nothing else is read.
pub proof fn law_statuses_are_read_by_name(s: &str, r: Result<CheckStatus, AppError>)
    requires
        call_ensures(parse_status, (s,), r),
    ensures
        r matches Ok(status) ==> is_name_of(crate::codec::lower_case(s@), status),
        r is Err ==> forall|status: CheckStatus|
            !is_name_of(crate::codec::lower_case(s@), status),
        r matches Err(e) ==> e is BadRequest,
{
    reveal_strlit("up");
    reveal_strlit("down");
    reveal_strlit("degraded");
    reveal_strlit("error");
    lemma_names_differ();
}

/// The names of statuses are four.
proof fn lemma_names_differ()
    ensures
        "up"@ != "down"@,
        "up"@ != "degraded"@,
        "up"@ != "error"@,
        "down"@ != "degraded"@,
        "down"@ != "error"@,
        "degraded"@ != "error"@,
{
    reveal_strlit("up");
    reveal_strlit("down");
    reveal_strlit("degraded");
    reveal_strlit("error");
    assert("up"@[0] == 'u' && "down"@[0] == 'd' && "degraded"@[0] == 'd' && "error"@[0] == 'e');
    assert("down"@[1] == 'o' && "degraded"@[1] == 'e');
}

/// A list that asks for a status holds targets that are wished for and were last reported
/// to have it.
pub proof fn law_listed_targets_have_the_status(
    targets: Vec<Target>,
    query: &TargetsQuery,
    rollup: &Vec<TargetRollup>,
    r: Result<Vec<Target>, AppError>,
    want: CheckStatus,
    i: int,
)
    requires
        query.status is Some,
        is_name_of(crate::codec::lower_case(query.status->0@), want),
        call_ensures(list_targets, (targets, query, rollup), r),
        r matches Ok(out) ==> 0 <= i < out@.len(),
    ensures
        r matches Ok(out) && {
            &&& targets@.contains(out@[i])
            &&& is_wished_for(*query, out@[i])
            &&& exists|j: int| is_last_reported(rollup@, out@[i].id, want, j)
        },
{
    lemma_names_differ();
    let keep = |t: Target| crate::api::targets::meets(*query, t);
    if r is Ok {
        let out = r->Ok_0@;
        crate::api::targets::law_listed_targets_meet_the_wishes(
            targets@,
            *query,
            rollup@,
            want,
            i,
        );
        lemma_wished_for(*query, out[i]);
        lemma_reported(rollup@, out[i].id, want);
    }
}

/// Every target that is wished for and was last reported to have the status is in such a
/// list, by itself or by another of the same identifier.
pub proof fn law_no_such_target_is_left_out(
    targets: Vec<Target>,
    query: &TargetsQuery,
    rollup: &Vec<TargetRollup>,
    r: Result<Vec<Target>, AppError>,
    want: CheckStatus,
    k: int,
    j: int,
) -> (place: int)
    requires
        query.status is Some,
        is_name_of(crate::codec::lower_case(query.status->0@), want),
        call_ensures(list_targets, (targets, query, rollup), r),
        0 <= k < targets@.len(),
        is_wished_for(*query, targets@[k]),
        is_last_reported(rollup@, targets@[k].id, want, j),
    ensures
        r matches Ok(out) && 0 <= place < out@.len() && out@[place].id == targets@[k].id,
{
    lemma_names_differ();
    let keep = |t: Target| crate::api::targets::meets(*query, t);
    let kept = targets@.filter(keep);
    lemma_wished_for(*query, targets@[k]);
    lemma_reported(rollup@, targets@[k].id, want);
    targets@.lemma_filter_contains(keep, k);
    let n = choose|n: int| 0 <= n < kept.len() && kept[n] == targets@[k];
    lemma_with_status(kept, rollup@, want, n)
}

/// A target of the status is kept, by itself or by one before it.
proof fn lemma_with_status(
    targets: Seq<Target>,
    rollup: Seq<TargetRollup>,
    want: CheckStatus,
    n: int,
) -> (place: int)
    requires
        0 <= n < targets.len(),
        crate::api::targets::reported(rollup, targets[n].id) == Some(want),
    ensures
        0 <= place < crate::api::targets::with_status(targets, rollup, want).len(),
        crate::api::targets::with_status(targets, rollup, want)[place].id == targets[n].id,
    decreases targets.len(),
{
    let head = targets.drop_last();
    let before = crate::api::targets::with_status(head, rollup, want);
    if n < targets.len() - 1 {
        let p = lemma_with_status(head, rollup, want, n);
        assert(before[p].id == targets[n].id);
        p
    } else if crate::api::targets::has_target(head, targets[n].id) {
        let m = choose|m: int| 0 <= m < head.len() && (#[trigger] head[m]).id == targets[n].id;
        lemma_with_status(head, rollup, want, m)
    } else {
        before.len() as int
    }
}

/// Whether any tag holds a text: some tag does, from some place on.
pub proof fn law_a_tag_holds_a_text(tags: &Vec<String>, needle: &str, r: bool)
    requires
        call_ensures(any_tag, (tags, needle), r),
    ensures
        r <==> exists|k: int, i: int|
            0 <= k < tags@.len() && #[trigger] holds_at(tags@[k]@, needle@, i),
{
    let views = tags@.map_values(|t: String| t@);
    if r {
        let k = choose|k: int|
            0 <= k < views.len() && crate::text::has_text(#[trigger] views[k], needle@);
        let i = choose|i: int| crate::text::occurs_at(views[k], needle@, i);
        assert(holds_at(tags@[k]@, needle@, i));
    }
    if exists|k: int, i: int| 0 <= k < tags@.len() && #[trigger] holds_at(tags@[k]@, needle@, i) {
        let (k, i) = choose|k: int, i: int|
            0 <= k < tags@.len() && #[trigger] holds_at(tags@[k]@, needle@, i);
        assert(views[k] == tags@[k]@);
        assert(crate::text::occurs_at(views[k], needle@, i));
        assert(crate::text::has_text(views[k], needle@));
    }
}

/// A heartbeat is down exactly once more seconds have gone by than its period and its
/// grace hold.
pub proof fn law_heartbeats_have_their_period_and_grace(
    last_ping_at: Moment,
    period_secs: u32,
    grace_secs: u32,
    now: Moment,
    r: CheckStatus,
)
    requires
        call_ensures(heartbeat_status, (last_ping_at, period_secs, grace_secs, now), r),
    ensures
        r == CheckStatus::Down <==> now > last_ping_at + (period_secs + grace_secs)
            * 1_000_000_000,
        r == CheckStatus::Down || r == CheckStatus::Up,
{
}

/// One request makes from 1 to 200 targets, and acts on from 1 to 500.
pub proof fn law_batches_have_their_limits(
    count: usize,
    create: Result<(), AppError>,
    action: Result<(), AppError>,
)
    requires
        call_ensures(check_bulk_create, (count,), create),
        call_ensures(check_bulk_action, (count,), action),
    ensures
        create is Ok <==> 1 <= count <= 200,
        action is Ok <==> 1 <= count <= 500,
{
}

/// Every outcome of a batch is accounted for at its own place: a target that was made is
/// among those made, and one that was refused is told of by its place.
pub proof fn law_outcomes_of_a_batch_are_told(
    outcomes: Vec<CreateOutcome>,
    r: (BulkCreateResult, bool),
    k: int,
) -> (place: int)
    requires
        0 <= k < outcomes@.len(),
        call_ensures(bulk_create_targets, (outcomes,), r),
    ensures
        r.0.created@.len() + r.0.errors@.len() == outcomes@.len(),
        r.1 <==> r.0.created@.len() > 0,
        outcomes@[k] matches CreateOutcome::Created(t) ==> 0 <= place < r.0.created@.len()
            && r.0.created@[place] == t,
        outcomes@[k] matches CreateOutcome::Refused { error, shown } ==> {
            &&& 0 <= place < r.0.errors@.len()
            &&& r.0.errors@[place].index == k
            &&& match error {
                AppError::Conflict { code, message } => r.0.errors@[place].code@ == code@
                    && r.0.errors@[place].message@ == message@,
                AppError::BadRequest { code, message, .. } => r.0.errors@[place].code@ == code@
                    && r.0.errors@[place].message@ == message@,
                AppError::Unprocessable { code, message } => r.0.errors@[place].code@ == code@
                    && r.0.errors@[place].message@ == message@,
                _ => r.0.errors@[place].code@ == "STORAGE_ERROR"@ && r.0.errors@[place].message@
                    == shown@,
            }
        },
{
    crate::api::bulk::law_every_target_is_accounted_for(outcomes@);
    let said = crate::api::bulk::sayings(r.0.errors@);
    assert(said.len() == r.0.errors@.len());
    let p = lemma_told(outcomes@, k);
    if outcomes@[k] is Refused {
        assert(said[p] == (
            r.0.errors@[p].index as int,
            r.0.errors@[p].code@,
            r.0.errors@[p].message@,
        ));
    }
    p
}

/// Where what became of one target stands.
proof fn lemma_told(outcomes: Seq<CreateOutcome>, k: int) -> (place: int)
    requires
        0 <= k < outcomes.len(),
    ensures
        outcomes[k] matches CreateOutcome::Created(t) ==> 0 <= place < crate::api::bulk::made(
            outcomes,
        ).len() && crate::api::bulk::made(outcomes)[place] == t,
        outcomes[k] matches CreateOutcome::Refused { error, shown } ==> 0 <= place
            < crate::api::bulk::told(outcomes).len() && crate::api::bulk::told(outcomes)[place]
            == crate::api::bulk::telling(k, error, shown@),
    decreases outcomes.len(),
{
    let head = outcomes.drop_last();
    if k < outcomes.len() - 1 {
        assert(head[k] == outcomes[k]);
        lemma_told(head, k)
    } else {
        match outcomes[k] {
            CreateOutcome::Created(_) => crate::api::bulk::made(head).len() as int,
            CreateOutcome::Refused { .. } => crate::api::bulk::told(head).len() as int,
        }
    }
}

/// Each identifier is kept once, all that are there are kept, and they stand in the order
/// in which they first came.
pub proof fn law_identifiers_are_kept_once(ids: &Vec<Id>, r: Vec<Id>)
    requires
        call_ensures(unique_ids, (ids,), r),
    ensures
        r@.no_duplicates(),
        forall|id: Id| #[trigger] r@.contains(id) <==> ids@.contains(id),
        ids@.no_duplicates() ==> r@ == ids@,
{
    crate::api::bulk::law_each_target_is_acted_on_once(ids@);
    if ids@.no_duplicates() {
        lemma_all_are_kept(ids@);
    }
}

/// Where nothing stands twice, all of it is kept.
proof fn lemma_all_are_kept(ids: Seq<Id>)
    requires
        ids.no_duplicates(),
    ensures
        crate::api::bulk::first_occurrences(ids) == ids,
    decreases ids.len(),
{
    if ids.len() > 0 {
        let head = ids.drop_last();
        assert(head.no_duplicates());
        lemma_all_are_kept(head);
        if head.contains(ids.last()) {
            let k = choose|k: int| 0 <= k < head.len() && head[k] == ids.last();
            assert(ids[k] == ids[ids.len() - 1]);
        }
        assert(head.push(ids.last()) =~= ids);
    } else {
        assert(crate::api::bulk::first_occurrences(ids) =~= ids);
    }
}

/// A switch is thrown only where it stands otherwise, and what is asked for is then told
/// as done; a missing target and a failing store are told as such.
pub proof fn law_actions_are_told_as_they_went(
    action: BulkActionKind,
    found: Result<bool, AppError>,
    written: Result<(), AppError>,
    shown: String,
    r: Acted,
)
    requires
        call_ensures(acted, (action, found, Some(written), shown), r),
    ensures
        action == BulkActionKind::Enable && found == Ok::<bool, AppError>(true) ==> r
            is Unchanged,
        action == BulkActionKind::Disable && found == Ok::<bool, AppError>(false) ==> r
            is Unchanged,
        action == BulkActionKind::Enable && found == Ok::<bool, AppError>(false) && written is Ok
            ==> r is Changed,
        action == BulkActionKind::Disable && found == Ok::<bool, AppError>(true) && written is Ok
            ==> r is Changed,
        action == BulkActionKind::Delete && written is Ok ==> r is Changed,
        action != BulkActionKind::Delete && found is Err && found->Err_0 is NotFound ==> r
            is Missing,
        action != BulkActionKind::Delete && found is Err && !(found->Err_0 is NotFound) ==> r
            == Acted::Failed(shown),
        action == BulkActionKind::Delete && written is Err && written->Err_0 is NotFound ==> r
            is Missing,
        action == BulkActionKind::Delete && written is Err && !(written->Err_0 is NotFound) ==> r
            == Acted::Failed(shown),
        r is Changed ==> written is Ok,
{
}

/// What became of each action is told under its own identifier, and pages are read anew
/// once anything was changed.
pub proof fn law_each_action_is_told(
    done: Vec<(Id, Acted)>,
    r: (Vec<BulkActionResult>, bool),
    i: int,
)
    requires
        0 <= i < done@.len(),
        call_ensures(bulk_action_targets, (done,), r),
    ensures
        r.0@.len() == done@.len(),
        r.0@[i].id == done@[i].0,
        done@[i].1 is Changed || done@[i].1 is Unchanged ==> r.0@[i].status@ == "ok"@
            && r.0@[i].message@.len() == 0,
        done@[i].1 is Missing ==> r.0@[i].status@ == "not_found"@ && r.0@[i].message@
            == "target not found"@,
        done@[i].1 matches Acted::Failed(shown) ==> r.0@[i].status@ == "storage_error"@
            && r.0@[i].message@ == shown@,
        done@[i].1 is Changed ==> r.1,
        r.1 ==> exists|k: int| 0 <= k < done@.len() && (#[trigger] done@[k]).1 is Changed,
{
    assert(r.0@[i].id == done@[i].0);
}

/// An answer that is given again has the status and the body it was kept with, and its
/// content type too where that is plain text.
pub proof fn law_answers_are_given_again_as_kept(cached: CachedResponse, r: CachedResponse)
    requires
        call_ensures(idempotent_response, (cached,), r),
    ensures
        r.status == cached.status,
        r.body@ == cached.body@,
        (forall|i: int|
            0 <= i < cached.content_type@.len() ==> ' ' <= #[trigger] cached.content_type@[i]
                <= '~') ==> r.content_type@ == cached.content_type@,
        cached.content_type@.contains('\n') ==> r.content_type@ == "application/json"@,
{
    let text = cached.content_type@;
    if forall|i: int| 0 <= i < text.len() ==> ' ' <= #[trigger] text[i] <= '~' {
        assert(crate::api::bulk::is_header_value(text));
    }
    if text.contains('\n') {
        let i = choose|i: int| 0 <= i < text.len() && text[i] == '\n';
        assert(text[i] as int == 10);
    }
}

/// One identifier more comes last, unless it was there before.
pub proof fn law_identifiers_stand_where_they_first_came(
    ids: &Vec<Id>,
    r: Vec<Id>,
    more: &Vec<Id>,
    s: Vec<Id>,
    id: Id,
)
    requires
        call_ensures(unique_ids, (ids,), r),
        call_ensures(unique_ids, (more,), s),
        more@ == ids@.push(id),
    ensures
        ids@.len() == 0 ==> r@.len() == 0,
        ids@.contains(id) ==> s@ == r@,
        !ids@.contains(id) ==> s@ == r@.push(id),
{
    assert(more@.drop_last() =~= ids@);
    assert(more@.last() == id);
}

/// The outcome of one target more comes last, among those made or among those told of.
pub proof fn law_outcomes_are_told_in_order(
    outcomes: Vec<CreateOutcome>,
    r: (BulkCreateResult, bool),
    more: Vec<CreateOutcome>,
    s: (BulkCreateResult, bool),
    one: CreateOutcome,
)
    requires
        call_ensures(bulk_create_targets, (outcomes,), r),
        call_ensures(bulk_create_targets, (more,), s),
        more@ == outcomes@.push(one),
    ensures
        one matches CreateOutcome::Created(t) ==> s.0.created@ == r.0.created@.push(t)
            && s.0.errors@.len() == r.0.errors@.len(),
        one is Refused ==> s.0.created@ == r.0.created@ && s.0.errors@.len()
            == r.0.errors@.len() + 1 && s.0.errors@.last().index == outcomes@.len(),
{
    assert(more@.drop_last() =~= outcomes@);
    assert(more@.last() == one);
    let before = crate::api::bulk::sayings(r.0.errors@);
    let after = crate::api::bulk::sayings(s.0.errors@);
    assert(before.len() == r.0.errors@.len() && after.len() == s.0.errors@.len());
    if one is Refused {
        assert(after.last().0 == s.0.errors@.last().index);
    }
}

/// One target more is listed last where it is wished for, was last reported to have the
/// status, and no other of its identifier is wished for before it; else the list stays.
pub proof fn law_one_more_target_is_listed_last(
    targets: Vec<Target>,
    more: Vec<Target>,
    query: &TargetsQuery,
    rollup: &Vec<TargetRollup>,
    r: Result<Vec<Target>, AppError>,
    s: Result<Vec<Target>, AppError>,
    want: CheckStatus,
    t: Target,
)
    requires
        query.status is Some,
        is_name_of(crate::codec::lower_case(query.status->0@), want),
        call_ensures(list_targets, (targets, query, rollup), r),
        call_ensures(list_targets, (more, query, rollup), s),
        more@ == targets@.push(t),
    ensures
        r is Ok && s is Ok,
        ({
            let listed = is_wished_for(*query, t) && (exists|j: int|
                is_last_reported(rollup@, t.id, want, j)) && forall|i: int|
                0 <= i < targets@.len() && is_wished_for(*query, #[trigger] targets@[i])
                    ==> targets@[i].id != t.id;
            &&& listed ==> s->Ok_0@ == r->Ok_0@.push(t)
            &&& !listed ==> s->Ok_0@ == r->Ok_0@
        }),
{
    lemma_names_differ();
    let keep = |x: Target| crate::api::targets::meets(*query, x);
    let kept = targets@.filter(keep);
    let all = more@.filter(keep);
    lemma_wished_for(*query, t);
    lemma_reported(rollup@, t.id, want);
    assert(more@.drop_last() =~= targets@);
    assert(more@.last() == t);
    assert(all == if keep(t) {
        kept.push(t)
    } else {
        kept
    }) by {
        reveal(Seq::filter);
    }
    if keep(t) {
        assert(all.drop_last() =~= kept);
        assert(all.last() == t);
        if crate::api::targets::has_target(kept, t.id) {
            let i = choose|i: int| 0 <= i < kept.len() && (#[trigger] kept[i]).id == t.id;
            targets@.lemma_filter_pred(keep, i);
            assert(kept.contains(kept[i]));
            targets@.lemma_filter_contains_rev(keep, kept[i]);
            let k = choose|k: int| 0 <= k < targets@.len() && targets@[k] == kept[i];
            lemma_wished_for(*query, targets@[k]);
            assert(is_wished_for(*query, targets@[k]));
        }
        if exists|i: int|
            0 <= i < targets@.len() && is_wished_for(*query, #[trigger] targets@[i])
                && targets@[i].id == t.id {
            let i = choose|i: int|
                0 <= i < targets@.len() && is_wished_for(*query, #[trigger] targets@[i])
                    && targets@[i].id == t.id;
            lemma_wished_for(*query, targets@[i]);
            targets@.lemma_filter_contains(keep, i);
            let k = choose|k: int| 0 <= k < kept.len() && kept[k] == targets@[i];
            assert(kept[k].id == t.id);
        }
    }
}

} // verus!
