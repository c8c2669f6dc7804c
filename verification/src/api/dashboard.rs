//! The figures of the fleet dashboard.

use vstd::prelude::*;

use crate::api::targets::TargetRollup;
use crate::domain::{CheckStatus, Target};

verus! {

/// How many targets are in which state.
#[derive(Clone, Copy, Debug, PartialEq, Eq, Structural)]
pub struct DashboardSummary {
    pub up: usize,
    pub down: usize,
    pub degraded: usize,
    pub error: usize,
    pub total: usize,
    pub disabled: usize,
}

/// How many of `rollup` are in the state `wanted`.
pub open spec fn in_state(rollup: Seq<TargetRollup>, wanted: CheckStatus) -> nat {
    rollup.filter(|r: TargetRollup| r.current_status == wanted).len()
}

/// Counts the targets in a state.
fn count_state(rollup: &Vec<TargetRollup>, wanted: CheckStatus) -> (r: usize)
    ensures
        r == in_state(rollup@, wanted),
{
    let ghost keep = |r: TargetRollup| r.current_status == wanted;
    let mut n: usize = 0;
    let mut i: usize = 0;
    assert(rollup@.take(0).filter(keep) =~= Seq::<TargetRollup>::empty()) by {
        reveal(Seq::filter);
    }
    while i < rollup.len()
        invariant
            i <= rollup.len(),
            n <= i,
            keep == (|r: TargetRollup| r.current_status == wanted),
            n == rollup@.take(i as int).filter(keep).len(),
        decreases rollup.len() - i,
    {
        proof {
            crate::public::incident::lemma_filter_next(rollup@, keep, i as int);
        }
        if rollup[i].current_status == wanted {
            n += 1;
        }
        i += 1;
    }
    assert(rollup@.take(i as int) =~= rollup@);
    n
}

/// Counts the targets that are switched off.
fn count_disabled(targets: &Vec<Target>) -> (r: usize)
    ensures
        r == targets@.filter(|t: Target| !t.enabled).len(),
{
    let ghost keep = |t: Target| !t.enabled;
    let mut n: usize = 0;
    let mut i: usize = 0;
    assert(targets@.take(0).filter(keep) =~= Seq::<Target>::empty()) by {
        reveal(Seq::filter);
    }
    while i < targets.len()
        invariant
            i <= targets.len(),
            n <= i,
            keep == (|t: Target| !t.enabled),
            n == targets@.take(i as int).filter(keep).len(),
        decreases targets.len() - i,
    {
        proof {
            crate::public::incident::lemma_filter_next(targets@, keep, i as int);
        }
        if !targets[i].enabled {
            n += 1;
        }
        i += 1;
    }
    assert(targets@.take(i as int) =~= targets@);
    n
}

/// Sums the fleet up. `rollup` holds the state of each target that has one.
pub fn dashboard_summary(targets: &Vec<Target>, rollup: &Vec<TargetRollup>) -> (r: DashboardSummary)
    ensures
        r.up == in_state(rollup@, CheckStatus::Up),
        r.down == in_state(rollup@, CheckStatus::Down),
        r.degraded == in_state(rollup@, CheckStatus::Degraded),
        r.error == in_state(rollup@, CheckStatus::Error),
        r.total == targets@.len(),
        r.disabled == targets@.filter(|t: Target| !t.enabled).len(),
{
    DashboardSummary {
        up: count_state(rollup, CheckStatus::Up),
        down: count_state(rollup, CheckStatus::Down),
        degraded: count_state(rollup, CheckStatus::Degraded),
        error: count_state(rollup, CheckStatus::Error),
        total: targets.len(),
        disabled: count_disabled(targets),
    }
}

} // verus!
