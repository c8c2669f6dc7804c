//! The state of components and of a page: what decides it, and how states rank.

use vstd::prelude::*;
use vstd::string::*;

use crate::codec::Id;
use crate::domain::{
    CheckStatus, IncidentSeverity, MaintenanceWindow, OverallState, PublicComponentStatus,
};
use crate::public::incident::IncidentRecord;

verus! {

/// The component status that an incident of this severity means.
pub open spec fn status_for_severity(s: IncidentSeverity) -> PublicComponentStatus {
    if s is Critical || s is Major {
        PublicComponentStatus::MajorOutage
    } else {
        PublicComponentStatus::PartialOutage
    }
}

/// The component status that a check result means.
pub open spec fn status_for_result(s: CheckStatus) -> PublicComponentStatus {
    match s {
        CheckStatus::Up => PublicComponentStatus::Operational,
        CheckStatus::Degraded => PublicComponentStatus::Degraded,
        CheckStatus::Down => PublicComponentStatus::MajorOutage,
        CheckStatus::Error => PublicComponentStatus::PartialOutage,
        CheckStatus::Unknown => PublicComponentStatus::PartialOutage,
    }
}

/// How bad a component status is. A status without a name never counts.
pub open spec fn component_rank(s: PublicComponentStatus) -> u8 {
    match s {
        PublicComponentStatus::Operational => 0,
        PublicComponentStatus::Maintenance => 1,
        PublicComponentStatus::Degraded => 2,
        PublicComponentStatus::PartialOutage => 3,
        PublicComponentStatus::MajorOutage => 4,
        PublicComponentStatus::Unknown => 0,
    }
}

/// The page state that one component's status means.
pub open spec fn overall_for(s: PublicComponentStatus) -> OverallState {
    match s {
        PublicComponentStatus::Operational => OverallState::Operational,
        PublicComponentStatus::Degraded => OverallState::PartialOutage,
        PublicComponentStatus::PartialOutage => OverallState::PartialOutage,
        PublicComponentStatus::MajorOutage => OverallState::MajorOutage,
        PublicComponentStatus::Maintenance => OverallState::Maintenance,
        PublicComponentStatus::Unknown => OverallState::PartialOutage,
    }
}

/// How bad a page state is. A state without a name never counts.
pub open spec fn overall_rank(s: OverallState) -> u8 {
    match s {
        OverallState::Operational => 0,
        OverallState::Maintenance => 1,
        OverallState::MinorDisruption => 2,
        OverallState::PartialOutage => 3,
        OverallState::MajorOutage => 4,
        OverallState::Unknown => 0,
    }
}

/// The words for a page state.
pub open spec fn label_for(s: OverallState) -> Seq<char> {
    match s {
        OverallState::Operational => "All Systems Operational"@,
        OverallState::Maintenance => "Under Maintenance"@,
        OverallState::MinorDisruption => "Minor Disruption"@,
        OverallState::PartialOutage => "Partial Outage"@,
        OverallState::MajorOutage => "Major Outage"@,
        OverallState::Unknown => "Unknown"@,
    }
}

/// The badge colour for a page state.
pub open spec fn colour_for(s: OverallState) -> Seq<char> {
    match s {
        OverallState::Operational => "#22C55E"@,
        OverallState::Maintenance => "#F59E0B"@,
        OverallState::MinorDisruption => "#F59E0B"@,
        OverallState::PartialOutage => "#F97316"@,
        OverallState::MajorOutage => "#EF4444"@,
        OverallState::Unknown => "#6B7280"@,
    }
}

/// The component status that a check result means.
pub fn component_status_from_result(status: CheckStatus) -> (r: PublicComponentStatus)
    ensures
        r == status_for_result(status),
{
    match status {
        CheckStatus::Up => PublicComponentStatus::Operational,
        CheckStatus::Degraded => PublicComponentStatus::Degraded,
        CheckStatus::Down => PublicComponentStatus::MajorOutage,
        CheckStatus::Error => PublicComponentStatus::PartialOutage,
        CheckStatus::Unknown => PublicComponentStatus::PartialOutage,
    }
}

/// How bad a component status is.
pub fn component_severity_rank(s: PublicComponentStatus) -> (r: u8)
    ensures
        r == component_rank(s),
{
    match s {
        PublicComponentStatus::Operational => 0,
        PublicComponentStatus::Maintenance => 1,
        PublicComponentStatus::Degraded => 2,
        PublicComponentStatus::PartialOutage => 3,
        PublicComponentStatus::MajorOutage => 4,
        PublicComponentStatus::Unknown => 0,
    }
}

/// The page state that one component's status means.
pub fn overall_from_component(s: PublicComponentStatus) -> (r: OverallState)
    ensures
        r == overall_for(s),
{
    match s {
        PublicComponentStatus::Operational => OverallState::Operational,
        PublicComponentStatus::Degraded => OverallState::PartialOutage,
        PublicComponentStatus::PartialOutage => OverallState::PartialOutage,
        PublicComponentStatus::MajorOutage => OverallState::MajorOutage,
        PublicComponentStatus::Maintenance => OverallState::Maintenance,
        PublicComponentStatus::Unknown => OverallState::PartialOutage,
    }
}

/// How bad a page state is.
pub fn overall_severity_rank(state: OverallState) -> (r: u8)
    ensures
        r == overall_rank(state),
{
    match state {
        OverallState::Operational => 0,
        OverallState::Maintenance => 1,
        OverallState::MinorDisruption => 2,
        OverallState::PartialOutage => 3,
        OverallState::MajorOutage => 4,
        OverallState::Unknown => 0,
    }
}

/// The words for a page state.
pub fn overall_label(state: OverallState) -> (r: &'static str)
    ensures
        r@ == label_for(state),
{
    match state {
        OverallState::Operational => "All Systems Operational",
        OverallState::Maintenance => "Under Maintenance",
        OverallState::MinorDisruption => "Minor Disruption",
        OverallState::PartialOutage => "Partial Outage",
        OverallState::MajorOutage => "Major Outage",
        OverallState::Unknown => "Unknown",
    }
}

/// The badge colour for a page state.
pub fn badge_color(state: OverallState) -> (r: &'static str)
    ensures
        r@ == colour_for(state),
{
    match state {
        OverallState::Operational => "#22C55E",
        OverallState::Maintenance => "#F59E0B",
        OverallState::MinorDisruption => "#F59E0B",
        OverallState::PartialOutage => "#F97316",
        OverallState::MajorOutage => "#EF4444",
        OverallState::Unknown => "#6B7280",
    }
}

/// Whether any of `windows` covers the target `t`.
pub open spec fn covered(windows: Seq<MaintenanceWindow>, t: Id) -> bool {
    exists|i: int|
        0 <= i < windows.len() && (#[trigger] windows[i]).component_ids@.contains(t)
}

/// Whether `r` is an open incident on the target `t`.
pub open spec fn is_open_on(r: IncidentRecord, t: Id) -> bool {
    r.incident.target_id == t && r.incident.ended_at is None
}

/// Whether `t` has an open incident.
pub open spec fn has_open(records: Seq<IncidentRecord>, t: Id) -> bool {
    exists|i: int| 0 <= i < records.len() && is_open_on(#[trigger] records[i], t)
}

/// Whether `t` has an open incident that is major or critical.
pub open spec fn has_grave(records: Seq<IncidentRecord>, t: Id) -> bool {
    exists|i: int|
        0 <= i < records.len() && is_open_on(#[trigger] records[i], t) && status_for_severity(
            records[i].incident.severity,
        ) is MajorOutage
}

/// What open incidents alone say of `t`: nothing where there is none.
pub open spec fn incident_status(
    records: Seq<IncidentRecord>,
    t: Id,
) -> Option<PublicComponentStatus> {
    if has_grave(records, t) {
        Some(PublicComponentStatus::MajorOutage)
    } else if has_open(records, t) {
        Some(PublicComponentStatus::PartialOutage)
    } else {
        None
    }
}

/// The status of the target `t`: maintenance first, then open incidents, then
/// the latest check result; operational where nothing is known.
pub open spec fn status_of_target(
    windows: Seq<MaintenanceWindow>,
    records: Seq<IncidentRecord>,
    t: Id,
    latest: Option<CheckStatus>,
) -> PublicComponentStatus {
    if covered(windows, t) {
        PublicComponentStatus::Maintenance
    } else if let Some(s) = incident_status(records, t) {
        s
    } else if let Some(s) = latest {
        status_for_result(s)
    } else {
        PublicComponentStatus::Operational
    }
}

/// The worst page state that `statuses` mean; operational where there is none.
pub open spec fn worst_state(statuses: Seq<PublicComponentStatus>) -> OverallState
    decreases statuses.len(),
{
    if statuses.len() == 0 {
        OverallState::Operational
    } else {
        worse(worst_state(statuses.drop_last()), overall_for(statuses.last()))
    }
}

/// The worse of two page states, the first where they rank alike.
pub open spec fn worse(a: OverallState, b: OverallState) -> OverallState {
    if overall_rank(b) > overall_rank(a) {
        b
    } else {
        a
    }
}

/// Whether any of `windows` covers the target `t`.
pub fn in_maintenance(windows: &Vec<MaintenanceWindow>, t: Id) -> (r: bool)
    ensures
        r == covered(windows@, t),
{
    let mut i: usize = 0;
    while i < windows.len()
        invariant
            i <= windows.len(),
            forall|j: int| 0 <= j < i ==> !(#[trigger] windows@[j]).component_ids@.contains(t),
        decreases windows.len() - i,
    {
        let w = &windows[i];
        let mut k: usize = 0;
        while k < w.component_ids.len()
            invariant
                k <= w.component_ids.len(),
                i < windows.len(),
                *w == windows@[i as int],
                forall|j: int| 0 <= j < k ==> w.component_ids@[j] != t,
            decreases w.component_ids.len() - k,
        {
            if w.component_ids[k] == t {
                assert(windows@[i as int].component_ids@.contains(t));
                return true;
            }
            k += 1;
        }
        i += 1;
    }
    false
}

/// The severities of the open incidents on `t`.
pub open spec fn open_severities(records: Seq<IncidentRecord>, t: Id) -> Seq<IncidentSeverity>
    decreases records.len(),
{
    if records.len() == 0 {
        Seq::empty()
    } else {
        let before = open_severities(records.drop_last(), t);
        if is_open_on(records.last(), t) {
            before.push(records.last().incident.severity)
        } else {
            before
        }
    }
}

/// The worst status that open incidents of these severities mean; `None` where
/// there are none.
pub fn worst_incident_status(severities: &Vec<IncidentSeverity>) -> (r: Option<
    PublicComponentStatus,
>)
    ensures
        r is None <==> severities@.len() == 0,
        r matches Some(w) ==> (exists|i: int|
            0 <= i < severities@.len() && status_for_severity(#[trigger] severities@[i]) == w),
        r matches Some(w) ==> forall|i: int|
            0 <= i < severities@.len() ==> component_rank(
                status_for_severity(#[trigger] severities@[i]),
            ) <= component_rank(w),
{
    let mut worst: Option<PublicComponentStatus> = None;
    let mut i: usize = 0;
    while i < severities.len()
        invariant
            i <= severities.len(),
            worst is None <==> i == 0,
            worst matches Some(w) ==> (exists|j: int|
                0 <= j < i && status_for_severity(#[trigger] severities@[j]) == w),
            worst matches Some(w) ==> forall|j: int|
                0 <= j < i ==> component_rank(status_for_severity(#[trigger] severities@[j]))
                    <= component_rank(w),
        decreases severities.len() - i,
    {
        let s = match severities[i] {
            IncidentSeverity::Critical => PublicComponentStatus::MajorOutage,
            IncidentSeverity::Major => PublicComponentStatus::MajorOutage,
            IncidentSeverity::Minor => PublicComponentStatus::PartialOutage,
            IncidentSeverity::Unknown => PublicComponentStatus::PartialOutage,
        };
        assert(s == status_for_severity(severities@[i as int]));
        let worse_one = match worst {
            None => true,
            Some(w) => component_severity_rank(s) > component_severity_rank(w),
        };
        if worse_one {
            worst = Some(s);
        }
        i += 1;
    }
    worst
}

/// What the collected severities say of `t`.
proof fn lemma_open_severities(records: Seq<IncidentRecord>, t: Id)
    ensures
        has_open(records, t) <==> open_severities(records, t).len() > 0,
        has_grave(records, t) <==> exists|i: int|
            0 <= i < open_severities(records, t).len() && status_for_severity(
                #[trigger] open_severities(records, t)[i],
            ) is MajorOutage,
    decreases records.len(),
{
    if records.len() > 0 {
        let rest = records.drop_last();
        let last = records.last();
        lemma_open_severities(rest, t);
        let sev = open_severities(records, t);
        let had = open_severities(rest, t);
        if has_open(rest, t) {
            let i = choose|i: int| 0 <= i < rest.len() && is_open_on(#[trigger] rest[i], t);
            assert(is_open_on(records[i], t));
        }
        if has_grave(rest, t) {
            let i = choose|i: int|
                0 <= i < rest.len() && is_open_on(#[trigger] rest[i], t) && status_for_severity(
                    rest[i].incident.severity,
                ) is MajorOutage;
            assert(is_open_on(records[i], t));
            let k = choose|k: int|
                0 <= k < had.len() && status_for_severity(#[trigger] had[k]) is MajorOutage;
            assert(sev[k] == had[k]);
        }
        if has_open(records, t) && !is_open_on(last, t) {
            let i = choose|i: int| 0 <= i < records.len() && is_open_on(#[trigger] records[i], t);
            assert(is_open_on(rest[i], t));
        }
        if is_open_on(last, t) {
            assert(is_open_on(records[records.len() - 1], t));
            assert(sev[sev.len() - 1] == last.incident.severity);
        }
        if has_grave(records, t) {
            let i = choose|i: int|
                0 <= i < records.len() && is_open_on(#[trigger] records[i], t)
                    && status_for_severity(records[i].incident.severity) is MajorOutage;
            if i < rest.len() {
                assert(is_open_on(rest[i], t));
            }
        }
        if exists|k: int|
            0 <= k < sev.len() && status_for_severity(#[trigger] sev[k]) is MajorOutage {
            let k = choose|k: int|
                0 <= k < sev.len() && status_for_severity(#[trigger] sev[k]) is MajorOutage;
            if k < had.len() {
                assert(status_for_severity(had[k]) is MajorOutage);
            }
        }
    }
}

/// What open incidents alone say of `t`.
pub fn status_from_incidents(records: &Vec<IncidentRecord>, t: Id) -> (r: Option<
    PublicComponentStatus,
>)
    ensures
        r == incident_status(records@, t),
{
    let mut severities: Vec<IncidentSeverity> = Vec::new();
    let mut i: usize = 0;
    while i < records.len()
        invariant
            i <= records.len(),
            severities@ == open_severities(records@.take(i as int), t),
        decreases records.len() - i,
    {
        proof {
            assert(records@.take(i + 1).drop_last() =~= records@.take(i as int));
            assert(records@.take(i + 1).last() == records@[i as int]);
        }
        if records[i].incident.target_id == t && records[i].incident.ended_at.is_none() {
            severities.push(records[i].incident.severity);
        }
        i += 1;
    }
    assert(records@.take(i as int) =~= records@);
    proof {
        lemma_open_severities(records@, t);
    }
    worst_incident_status(&severities)
}

/// The status of the target `t`, whose latest check result is `latest`.
pub fn target_status(
    windows: &Vec<MaintenanceWindow>,
    records: &Vec<IncidentRecord>,
    t: Id,
    latest: Option<CheckStatus>,
) -> (r: PublicComponentStatus)
    ensures
        r == status_of_target(windows@, records@, t, latest),
{
    if in_maintenance(windows, t) {
        PublicComponentStatus::Maintenance
    } else {
        match status_from_incidents(records, t) {
            Some(s) => s,
            None => match latest {
                Some(s) => component_status_from_result(s),
                None => PublicComponentStatus::Operational,
            },
        }
    }
}

/// Whether the latest check result can matter to the status of `t`: only then
/// has it to be read.
pub fn needs_latest_result(
    windows: &Vec<MaintenanceWindow>,
    records: &Vec<IncidentRecord>,
    t: Id,
) -> (r: bool)
    ensures
        r == (!covered(windows@, t) && incident_status(records@, t) is None),
{
    !in_maintenance(windows, t) && status_from_incidents(records, t).is_none()
}

/// The page state is the worst that any component's status means, and some
/// component has it unless the page is operational.
pub proof fn law_worst_state_is_the_worst(statuses: Seq<PublicComponentStatus>)
    ensures
        forall|i: int|
            0 <= i < statuses.len() ==> overall_rank(overall_for(#[trigger] statuses[i]))
                <= overall_rank(worst_state(statuses)),
        worst_state(statuses) is Operational || exists|i: int|
            0 <= i < statuses.len() && overall_for(#[trigger] statuses[i]) == worst_state(statuses),
    decreases statuses.len(),
{
    if statuses.len() > 0 {
        let rest = statuses.drop_last();
        law_worst_state_is_the_worst(rest);
        assert forall|i: int| 0 <= i < statuses.len() implies overall_rank(
            overall_for(#[trigger] statuses[i]),
        ) <= overall_rank(worst_state(statuses)) by {
            if i < rest.len() {
                assert(statuses[i] == rest[i]);
            }
        }
        if worst_state(statuses) == overall_for(statuses.last()) {
            assert(overall_for(statuses[statuses.len() - 1]) == worst_state(statuses));
        } else if !(worst_state(statuses) is Operational) {
            let i = choose|i: int|
                0 <= i < rest.len() && overall_for(#[trigger] rest[i]) == worst_state(rest);
            assert(statuses[i] == rest[i]);
        }
    }
}

/// The page state does not depend on the order of its components, as far as its
/// rank goes: a list with the same components has a state of the same rank.
pub proof fn law_worst_state_ignores_order(
    a: Seq<PublicComponentStatus>,
    b: Seq<PublicComponentStatus>,
)
    requires
        forall|s: PublicComponentStatus| a.contains(s) <==> b.contains(s),
    ensures
        overall_rank(worst_state(a)) == overall_rank(worst_state(b)),
{
    law_worst_state_is_the_worst(a);
    law_worst_state_is_the_worst(b);
    if !(worst_state(a) is Operational) {
        let i = choose|i: int|
            0 <= i < a.len() && overall_for(#[trigger] a[i]) == worst_state(a);
        assert(a.contains(a[i]));
        assert(b.contains(a[i]));
        let j = choose|j: int| 0 <= j < b.len() && b[j] == a[i];
        assert(overall_rank(overall_for(b[j])) <= overall_rank(worst_state(b)));
    }
    if !(worst_state(b) is Operational) {
        let i = choose|i: int|
            0 <= i < b.len() && overall_for(#[trigger] b[i]) == worst_state(b);
        assert(b.contains(b[i]));
        assert(a.contains(b[i]));
        let j = choose|j: int| 0 <= j < a.len() && a[j] == b[i];
        assert(overall_rank(overall_for(a[j])) <= overall_rank(worst_state(a)));
    }
}

/// Maintenance hides incidents: a covered target is in maintenance whatever
/// incidents are open on it and whatever its checks say.
pub proof fn law_maintenance_hides_incidents(
    windows: Seq<MaintenanceWindow>,
    records: Seq<IncidentRecord>,
    t: Id,
    latest: Option<CheckStatus>,
)
    requires
        covered(windows, t),
    ensures
        status_of_target(windows, records, t, latest) is Maintenance,
{
}

} // verus!
