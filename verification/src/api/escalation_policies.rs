//! Escalation policies: which are accepted, and how they are put together.

use vstd::prelude::*;
use vstd::string::*;

use crate::codec::Id;
use crate::domain::copy_text;
use crate::engine::escalation::{
    EscalationPolicy, EscalationStep, EscalationTarget, EscalationTargetType,
};
use crate::error::{bad_request, AppError};
use crate::text::{decimal_text, owned, signed_decimal_text, trim};
use crate::time::Moment;

verus! {

/// A target of a step to be made.
#[derive(Clone, Copy, Debug, PartialEq, Eq, Structural)]
pub struct NewEscalationTarget {
    pub target_type: EscalationTargetType,
    pub user_id: Option<Id>,
    pub schedule_id: Option<Id>,
    pub channel_id: Option<Id>,
}

/// A step to be made.
#[derive(Clone, Debug)]
pub struct NewEscalationStep {
    pub level: i32,
    pub delay_secs: i32,
    pub targets: Vec<NewEscalationTarget>,
}

/// A policy to be made, or to take the place of another.
#[derive(Clone, Debug)]
pub struct NewEscalationPolicy {
    pub name: String,
    pub description: Option<String>,
    pub repeat_count: i32,
    pub steps: Vec<NewEscalationStep>,
}

/// How many of a target's identifiers are set.
pub open spec fn set_ids(t: NewEscalationTarget) -> nat {
    (if t.user_id is Some {
        1nat
    } else {
        0nat
    }) + (if t.schedule_id is Some {
        1nat
    } else {
        0nat
    }) + (if t.channel_id is Some {
        1nat
    } else {
        0nat
    })
}

/// The name of a type of target.
pub open spec fn type_word(t: EscalationTargetType) -> Seq<char> {
    match t {
        EscalationTargetType::User => "User"@,
        EscalationTargetType::Schedule => "Schedule"@,
        EscalationTargetType::Channel => "Channel"@,
        EscalationTargetType::Unknown => "Unknown"@,
    }
}

/// Whether the identifier that a target's type asks for is set.
pub open spec fn has_own_id(t: NewEscalationTarget) -> bool {
    match t.target_type {
        EscalationTargetType::User => t.user_id is Some,
        EscalationTargetType::Schedule => t.schedule_id is Some,
        EscalationTargetType::Channel => t.channel_id is Some,
        EscalationTargetType::Unknown => false,
    }
}

/// What is wrong with a target, where anything is.
pub open spec fn target_fault(t: NewEscalationTarget) -> Option<Seq<char>> {
    if set_ids(t) != 1 {
        Some(
            "expected exactly one of user_id/schedule_id/channel_id set, got "@
                + crate::text::decimal(set_ids(t)),
        )
    } else if !has_own_id(t) {
        Some("set id does not match target_type "@ + type_word(t.target_type))
    } else {
        None
    }
}

/// What is wrong with the first faulty target of step `i`, from target `j` on.
pub open spec fn targets_fault(
    targets: Seq<NewEscalationTarget>,
    i: nat,
    j: nat,
) -> Option<Seq<char>>
    decreases targets.len() - j,
{
    if j >= targets.len() {
        None
    } else {
        match target_fault(targets[j as int]) {
            Some(reason) => Some(
                "step "@ + crate::text::decimal(i) + " target "@ + crate::text::decimal(j) + ": "@
                    + reason,
            ),
            None => targets_fault(targets, i, j + 1),
        }
    }
}

/// The code and the message for the first faulty step, from step `i` on.
pub open spec fn steps_fault(steps: Seq<NewEscalationStep>, i: nat) -> Option<
    (Seq<char>, Seq<char>),
>
    decreases steps.len() - i,
{
    if i >= steps.len() {
        None
    } else if steps[i as int].level <= 0 {
        Some(
            (
                "INVALID_STEP_LEVEL"@,
                "step at index "@ + crate::text::decimal(i) + " has non-positive level "@
                    + crate::text::signed_decimal(steps[i as int].level as int),
            ),
        )
    } else {
        match targets_fault(steps[i as int].targets@, i, 0) {
            Some(message) => Some(("INVALID_ESCALATION_TARGET"@, message)),
            None => steps_fault(steps, i + 1),
        }
    }
}

/// The code and the message for what is wrong with a policy, where anything is.
pub open spec fn policy_fault(new: NewEscalationPolicy) -> Option<(Seq<char>, Seq<char>)> {
    if crate::text::trimmed(new.name@).len() == 0 {
        Some(("INVALID_POLICY_NAME"@, "name is required"@))
    } else {
        steps_fault(new.steps@, 0)
    }
}

/// Whether exactly one identifier of a target is set, the one that its type asks
/// for.
pub fn validate_target(target: &NewEscalationTarget) -> (r: Result<(), String>)
    ensures
        match r {
            Ok(_) => target_fault(*target) is None,
            Err(reason) => target_fault(*target) == Some(reason@),
        },
{
    let users: u64 = if target.user_id.is_some() {
        1
    } else {
        0
    };
    let schedules: u64 = if target.schedule_id.is_some() {
        1
    } else {
        0
    };
    let channels: u64 = if target.channel_id.is_some() {
        1
    } else {
        0
    };
    let set_count: u64 = users + schedules + channels;
    if set_count != 1 {
        let mut reason = owned("expected exactly one of user_id/schedule_id/channel_id set, got ");
        reason.append(decimal_text(set_count).as_str());
        return Err(reason);
    }
    let (matches, name) = match target.target_type {
        EscalationTargetType::User => (target.user_id.is_some(), "User"),
        EscalationTargetType::Schedule => (target.schedule_id.is_some(), "Schedule"),
        EscalationTargetType::Channel => (target.channel_id.is_some(), "Channel"),
        EscalationTargetType::Unknown => (false, "Unknown"),
    };
    if !matches {
        let mut reason = owned("set id does not match target_type ");
        reason.append(name);
        return Err(reason);
    }
    Ok(())
}

/// Looks for the first faulty target of step `i`.
fn validate_targets(targets: &Vec<NewEscalationTarget>, i: usize) -> (r: Option<String>)
    ensures
        match r {
            Some(message) => targets_fault(targets@, i as nat, 0) == Some(message@),
            None => targets_fault(targets@, i as nat, 0) is None,
        },
{
    let mut j: usize = 0;
    while j < targets.len()
        invariant
            j <= targets.len(),
            targets_fault(targets@, i as nat, 0) == targets_fault(targets@, i as nat, j as nat),
        decreases targets.len() - j,
    {
        if let Err(reason) = validate_target(&targets[j]) {
            let mut message = owned("step ");
            message.append(decimal_text(i as u64).as_str());
            message.append(" target ");
            message.append(decimal_text(j as u64).as_str());
            message.append(": ");
            message.append(reason.as_str());
            return Some(message);
        }
        j += 1;
    }
    None
}

/// Whether a policy is accepted: it has a name, its steps have positive levels, and
/// each target has the one identifier that its type asks for. The first fault is
/// told.
pub fn validate_new_policy(new: &NewEscalationPolicy) -> (r: Result<(), AppError>)
    ensures
        match r {
            Ok(_) => policy_fault(*new) is None,
            Err(e) => policy_fault(*new) matches Some(fault) && crate::error::is_bad_request(
                e,
                fault.0,
                fault.1,
            ),
        },
{
    let name = trim(new.name.as_str());
    if name.as_str().is_empty() {
        return Err(bad_request("INVALID_POLICY_NAME", owned("name is required")));
    }
    let mut i: usize = 0;
    while i < new.steps.len()
        invariant
            i <= new.steps.len(),
            policy_fault(*new) == steps_fault(new.steps@, i as nat),
        decreases new.steps.len() - i,
    {
        let step = &new.steps[i];
        if step.level <= 0 {
            let mut message = owned("step at index ");
            message.append(decimal_text(i as u64).as_str());
            message.append(" has non-positive level ");
            message.append(signed_decimal_text(step.level as i64).as_str());
            return Err(bad_request("INVALID_STEP_LEVEL", message));
        }
        if let Some(message) = validate_targets(&step.targets, i) {
            return Err(bad_request("INVALID_ESCALATION_TARGET", message));
        }
        i += 1;
    }
    Ok(())
}

/// Whether there is a new identifier for each step, and for each of its targets.
pub open spec fn enough_ids(ids: Seq<(Id, Vec<Id>)>, steps: Seq<NewEscalationStep>) -> bool {
    &&& ids.len() == steps.len()
    &&& forall|i: int|
        0 <= i < ids.len() ==> (#[trigger] ids[i]).1@.len() == steps[i].targets@.len()
}

/// `t` is the target that `new` asks for, under this identifier.
pub open spec fn is_made_target(t: EscalationTarget, new: NewEscalationTarget, id: Id) -> bool {
    &&& t.id == id
    &&& t.target_type == new.target_type
    &&& t.user_id == new.user_id
    &&& t.schedule_id == new.schedule_id
    &&& t.channel_id == new.channel_id
}

/// `s` is the step that `new` asks for, under these identifiers.
pub open spec fn is_made_step(s: EscalationStep, new: NewEscalationStep, id: Id, ids: Seq<Id>)
    -> bool {
    &&& s.id == id
    &&& s.level == new.level
    &&& s.delay_secs == new.delay_secs
    &&& s.targets@.len() == new.targets@.len()
    &&& forall|j: int|
        0 <= j < s.targets@.len() ==> is_made_target(
            #[trigger] s.targets@[j],
            new.targets@[j],
            ids[j],
        )
}

/// `p` is the policy that `new` asks for, under these identifiers, made at `now`.
pub open spec fn is_made_policy(
    p: EscalationPolicy,
    new: NewEscalationPolicy,
    id: Id,
    ids: Seq<(Id, Vec<Id>)>,
    now: Moment,
) -> bool {
    &&& p.id == id
    &&& p.name@ == new.name@
    &&& p.description == new.description
    &&& p.repeat_count == new.repeat_count
    &&& p.steps@.len() == new.steps@.len()
    &&& forall|i: int|
        0 <= i < p.steps@.len() ==> is_made_step(
            #[trigger] p.steps@[i],
            new.steps@[i],
            ids[i].0,
            ids[i].1@,
        )
    &&& p.created_at == now
    &&& p.updated_at == now
}

/// Makes the targets of one step.
fn build_targets(new: &Vec<NewEscalationTarget>, ids: &Vec<Id>) -> (r: Vec<EscalationTarget>)
    requires
        ids@.len() == new@.len(),
    ensures
        r@.len() == new@.len(),
        forall|j: int|
            0 <= j < r@.len() ==> is_made_target(#[trigger] r@[j], new@[j], ids@[j]),
{
    let mut out: Vec<EscalationTarget> = Vec::new();
    let mut j: usize = 0;
    while j < new.len()
        invariant
            j <= new.len(),
            ids@.len() == new@.len(),
            out@.len() == j,
            forall|k: int|
                0 <= k < j ==> is_made_target(#[trigger] out@[k], new@[k], ids@[k]),
        decreases new.len() - j,
    {
        let t = new[j];
        out.push(
            EscalationTarget {
                id: ids[j],
                target_type: t.target_type,
                channel_id: t.channel_id,
                user_id: t.user_id,
                schedule_id: t.schedule_id,
            },
        );
        j += 1;
    }
    out
}

/// Makes a policy, with new identifiers for its steps and their targets.
pub fn build_policy(id: Id, new: &NewEscalationPolicy, ids: &Vec<(Id, Vec<Id>)>, now: Moment) -> (r:
    EscalationPolicy)
    requires
        enough_ids(ids@, new.steps@),
    ensures
        is_made_policy(r, *new, id, ids@, now),
{
    let mut steps: Vec<EscalationStep> = Vec::new();
    let mut i: usize = 0;
    while i < new.steps.len()
        invariant
            i <= new.steps.len(),
            enough_ids(ids@, new.steps@),
            steps@.len() == i,
            forall|k: int|
                0 <= k < i ==> is_made_step(
                    #[trigger] steps@[k],
                    new.steps@[k],
                    ids@[k].0,
                    ids@[k].1@,
                ),
        decreases new.steps.len() - i,
    {
        let s = &new.steps[i];
        assert(ids@[i as int].1@.len() == new.steps@[i as int].targets@.len());
        let targets = build_targets(&s.targets, &ids[i].1);
        steps.push(
            EscalationStep { id: ids[i].0, level: s.level, delay_secs: s.delay_secs, targets },
        );
        i += 1;
    }
    EscalationPolicy {
        id,
        name: new.name.clone(),
        description: copy_text(&new.description),
        repeat_count: new.repeat_count,
        steps,
        created_at: now,
        updated_at: now,
    }
}

/// A target has no fault exactly where one identifier is set and it is the one that
/// its type asks for.
pub open spec fn is_good_target(t: NewEscalationTarget) -> bool {
    set_ids(t) == 1 && has_own_id(t)
}

/// A step has a positive level and good targets alone.
pub open spec fn is_good_step(s: NewEscalationStep) -> bool {
    &&& s.level > 0
    &&& forall|j: int| 0 <= j < s.targets@.len() ==> is_good_target(#[trigger] s.targets@[j])
}

/// A policy is accepted exactly where it has a name that is not blank and good steps
/// alone.
pub proof fn law_accepted_policies_are_the_good_ones(new: NewEscalationPolicy)
    ensures
        policy_fault(new) is None <==> {
            &&& crate::text::trimmed(new.name@).len() > 0
            &&& forall|i: int| 0 <= i < new.steps@.len() ==> is_good_step(#[trigger] new.steps@[i])
        },
{
    lemma_steps(new.steps@, 0);
}

/// There is no faulty step from step `i` on exactly where all are good.
proof fn lemma_steps(steps: Seq<NewEscalationStep>, i: nat)
    ensures
        steps_fault(steps, i) is None <==> forall|k: int|
            i <= k < steps.len() ==> is_good_step(#[trigger] steps[k]),
    decreases steps.len() - i,
{
    if i < steps.len() {
        lemma_steps(steps, i + 1);
        lemma_targets(steps[i as int].targets@, i, 0);
        assert(targets_fault(steps[i as int].targets@, i, 0) is None && steps[i as int].level > 0
            <==> is_good_step(steps[i as int]));
    }
}

/// There is no faulty target from target `j` on exactly where all are good.
proof fn lemma_targets(targets: Seq<NewEscalationTarget>, i: nat, j: nat)
    ensures
        targets_fault(targets, i, j) is None <==> forall|k: int|
            j <= k < targets.len() ==> is_good_target(#[trigger] targets[k]),
    decreases targets.len() - j,
{
    if j < targets.len() {
        lemma_targets(targets, i, j + 1);
        assert(target_fault(targets[j as int]) is None <==> is_good_target(targets[j as int]));
    }
}

/// A policy that was accepted can be climbed: each target of each step that is made
/// of it names who is to be paged.
pub proof fn law_made_targets_can_be_paged(
    p: EscalationPolicy,
    new: NewEscalationPolicy,
    id: Id,
    ids: Seq<(Id, Vec<Id>)>,
    now: Moment,
    i: int,
    j: int,
)
    requires
        policy_fault(new) is None,
        is_made_policy(p, new, id, ids, now),
        0 <= i < p.steps@.len(),
        0 <= j < p.steps@[i].targets@.len(),
    ensures
        p.steps@[i].level > 0,
        ({
            let t = p.steps@[i].targets@[j];
            match t.target_type {
                EscalationTargetType::User => t.user_id is Some,
                EscalationTargetType::Schedule => t.schedule_id is Some,
                EscalationTargetType::Channel => t.channel_id is Some,
                EscalationTargetType::Unknown => false,
            }
        }),
{
    law_accepted_policies_are_the_good_ones(new);
    assert(is_good_step(new.steps@[i]));
    assert(is_made_step(p.steps@[i], new.steps@[i], ids[i].0, ids[i].1@));
    assert(is_made_target(p.steps@[i].targets@[j], new.steps@[i].targets@[j], ids[i].1@[j]));
    assert(is_good_target(new.steps@[i].targets@[j]));
}

} // verus!
