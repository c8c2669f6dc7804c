//! What visitors see.

use vstd::prelude::*;
use vstd::string::*;

use crate::codec::Id;
use crate::domain::{
    CheckStatus, Incident, IncidentPostmortem, IncidentSeverity, IncidentStatusPhase,
    MaintenanceWindow, OverallState, PublicComponent, PublicComponentStatus, PublicIncident,
    PublicStatusPage,
};
use crate::error::AppError;
use crate::public::incident::{
    list_public_incidents, sort_newest_first, to_public_incident, IncidentRecord,
};
use crate::public::snapshot::{compute_status_snapshot, ComponentReading, PageReadings};
use crate::public::status::target_status;
use crate::time::Moment;

verus! {

/// Whether one of `windows` is about the target `t`.
pub open spec fn is_worked_on(windows: Seq<MaintenanceWindow>, t: Id) -> bool {
    exists|w: int| 0 <= w < windows.len() && (#[trigger] windows[w]).component_ids@.contains(t)
}

/// Whether `t` has an open incident of one of these two sorts: grave, that is major or
/// critical, or not.
pub open spec fn has_trouble(records: Seq<IncidentRecord>, t: Id, grave: bool) -> bool {
    exists|i: int|
        {
            &&& 0 <= i < records.len()
            &&& (#[trigger] records[i]).incident.target_id == t
            &&& records[i].incident.ended_at is None
            &&& grave == (records[i].incident.severity == IncidentSeverity::Major
                || records[i].incident.severity == IncidentSeverity::Critical)
        }
}

/// What the status of a target has to be.
pub open spec fn has_to_be(
    s: PublicComponentStatus,
    windows: Seq<MaintenanceWindow>,
    records: Seq<IncidentRecord>,
    t: Id,
    latest: Option<CheckStatus>,
) -> bool {
    let calm = !has_trouble(records, t, true) && !has_trouble(records, t, false);
    let worked_on = is_worked_on(windows, t);
    &&& s == PublicComponentStatus::Maintenance <==> worked_on
    &&& s == PublicComponentStatus::MajorOutage <==> !worked_on && (has_trouble(records, t, true)
        || (calm && latest == Some(CheckStatus::Down)))
    &&& s == PublicComponentStatus::Operational <==> !worked_on && calm && (latest is None
        || latest == Some(CheckStatus::Up))
    &&& s == PublicComponentStatus::Degraded <==> !worked_on && calm && latest == Some(
        CheckStatus::Degraded,
    )
    &&& s != PublicComponentStatus::Unknown
}

/// A target is in maintenance exactly while it is worked on; else a grave open incident
/// makes it a major outage and any other a partial one; and without incidents it is what
/// its latest check found: down is a major outage, and only a target that was found up or
/// was never checked is operational.
pub proof fn law_a_target_is_as_bad_as_it_looks(
    windows: &Vec<MaintenanceWindow>,
    records: &Vec<IncidentRecord>,
    t: Id,
    latest: Option<CheckStatus>,
    r: PublicComponentStatus,
)
    requires
        call_ensures(target_status, (windows, records, t, latest), r),
    ensures
        has_to_be(r, windows@, records@, t, latest),
{
    lemma_status(windows@, records@, t, latest);
}

/// The status of a target is what it has to be.
pub proof fn lemma_status(
    windows: Seq<MaintenanceWindow>,
    records: Seq<IncidentRecord>,
    t: Id,
    latest: Option<CheckStatus>,
)
    ensures
        has_to_be(
            crate::public::status::status_of_target(windows, records, t, latest),
            windows,
            records,
            t,
            latest,
        ),
{
    let grave = has_trouble(records, t, true);
    let slight = has_trouble(records, t, false);
    if grave {
        let i = choose|i: int|
            {
                &&& 0 <= i < records.len()
                &&& (#[trigger] records[i]).incident.target_id == t
                &&& records[i].incident.ended_at is None
                &&& (records[i].incident.severity == IncidentSeverity::Major
                    || records[i].incident.severity == IncidentSeverity::Critical)
            };
        assert(crate::public::status::is_open_on(records[i], t));
    }
    if slight {
        let i = choose|i: int|
            {
                &&& 0 <= i < records.len()
                &&& (#[trigger] records[i]).incident.target_id == t
                &&& records[i].incident.ended_at is None
                &&& !(records[i].incident.severity == IncidentSeverity::Major
                    || records[i].incident.severity == IncidentSeverity::Critical)
            };
        assert(crate::public::status::is_open_on(records[i], t));
    }
    if crate::public::status::has_grave(records, t) {
        let i = choose|i: int|
            0 <= i < records.len() && crate::public::status::is_open_on(#[trigger] records[i], t)
                && crate::public::status::status_for_severity(
                records[i].incident.severity,
            ) is MajorOutage;
        assert(records[i].incident.target_id == t);
        assert(grave);
    }
    if crate::public::status::has_open(records, t) {
        let i = choose|i: int|
            0 <= i < records.len() && crate::public::status::is_open_on(#[trigger] records[i], t);
        assert(records[i].incident.target_id == t);
        assert(grave || slight);
    }
}

/// `p` tells of the incident of `r`: by its public title, else its public description;
/// with the phase of its latest update, and the postmortem once that is published.
pub open spec fn tells_of(p: PublicIncident, r: IncidentRecord) -> bool {
    let i = r.incident;
    &&& p.id == i.id
    &&& p.component_id == i.target_id
    &&& i.public_title is Some ==> i.public_title == Some(p.title)
    &&& i.public_title is None ==> i.public_description == Some(p.title)
    &&& p.started_at == i.started_at
    &&& p.ended_at == i.ended_at
    &&& p.severity == i.severity
    &&& p.updates@ == i.updates@
    &&& i.updates@.len() == 0 ==> p.status_phase == IncidentStatusPhase::Investigating
    &&& i.updates@.len() > 0 ==> p.status_phase == i.updates@[i.updates@.len() - 1].phase
    &&& p.postmortem is Some <==> r.postmortem is Some && r.postmortem->0.published_at is Some
    &&& p.postmortem matches Some(shown) ==> {
        let pm = r.postmortem->0;
        &&& pm.published_at == Some(shown.published_at)
        &&& shown.summary@ == pm.summary@
        &&& shown.root_cause == pm.root_cause
        &&& shown.impact == pm.impact
        &&& shown.action_items@.len() == pm.action_items@.len()
        &&& forall|k: int|
            0 <= k < pm.action_items@.len() ==> (#[trigger] shown.action_items@[k]).text@
                == pm.action_items@[k].text@ && shown.action_items@[k].done
                == pm.action_items@[k].done
    }
}

/// Public forms tell of their records.
pub proof fn lemma_tells_of(p: PublicIncident, r: IncidentRecord)
    requires
        crate::public::incident::is_public_form(p, r.incident, r.postmortem),
    ensures
        tells_of(p, r),
{
    if let Some(shown) = p.postmortem {
        assert forall|k: int| 0 <= k < shown.action_items@.len() implies (
        #[trigger] shown.action_items@[k]).text@ == r.postmortem->0.action_items@[k].text@
            && shown.action_items@[k].done == r.postmortem->0.action_items@[k].done by {
            assert(crate::public::incident::is_public_item(
                shown.action_items@[k],
                r.postmortem->0.action_items@[k],
            ));
        }
    }
}

/// An incident is shown exactly where it has something public to say, and what is shown
/// is what it says.
pub proof fn law_public_incidents_tell_what_is_public(
    incident: &Incident,
    postmortem: Option<&IncidentPostmortem>,
    r: Option<PublicIncident>,
)
    requires
        call_ensures(to_public_incident, (incident, postmortem), r),
    ensures
        r is Some <==> incident.public_title is Some || incident.public_description is Some,
        r matches Some(p) ==> tells_of(
            p,
            IncidentRecord {
                incident: *incident,
                postmortem: match postmortem {
                    Some(m) => Some(*m),
                    None => None,
                },
            },
        ),
{
    if let Some(p) = r {
        lemma_tells_of(
            p,
            IncidentRecord {
                incident: *incident,
                postmortem: match postmortem {
                    Some(m) => Some(*m),
                    None => None,
                },
            },
        );
    }
}

/// The list of public incidents tells of every public one, once, in order.
pub proof fn law_all_public_incidents_are_listed(
    records: &Vec<IncidentRecord>,
    out: Vec<PublicIncident>,
)
    requires
        call_ensures(list_public_incidents, (records,), out),
    ensures
        ({
            let kept = records@.filter(
                |r: IncidentRecord|
                    r.incident.public_title is Some || r.incident.public_description is Some,
            );
            &&& out@.len() == kept.len()
            &&& forall|i: int| 0 <= i < kept.len() ==> tells_of(#[trigger] out@[i], kept[i])
        }),
{
    let keep = |r: IncidentRecord|
        r.incident.public_title is Some || r.incident.public_description is Some;
    let kept = records@.filter(keep);
    assert(kept == crate::public::incident::public_ones(records@)) by {
        assert(keep =~= (|r: IncidentRecord| crate::public::incident::is_public(r.incident)));
    }
    assert forall|i: int| 0 <= i < kept.len() implies tells_of(#[trigger] out@[i], kept[i]) by {
        lemma_tells_of(out@[i], kept[i]);
    }
}

/// Sorting puts the newest first, keeps the order of those that started together, and
/// neither loses nor adds any.
pub proof fn law_the_newest_come_first(
    incidents: Vec<PublicIncident>,
    r: Vec<PublicIncident>,
    t: Moment,
)
    requires
        call_ensures(sort_newest_first, (incidents,), r),
    ensures
        r@.to_multiset() == incidents@.to_multiset(),
        forall|i: int, j: int|
            #![trigger r@[i], r@[j]]
            0 <= i <= j < r@.len() ==> r@[i].started_at >= r@[j].started_at,
        r@.filter(|p: PublicIncident| p.started_at == t) == incidents@.filter(
            |p: PublicIncident| p.started_at == t,
        ),
{
    let key = crate::public::incident::public_start();
    crate::public::incident::law_newest_first_is_sorted(incidents@, key);
    crate::public::incident::law_newest_first_is_a_permutation(incidents@, key);
    assert forall|i: int, j: int|
        #![trigger r@[i], r@[j]]
        0 <= i <= j < r@.len() implies r@[i].started_at >= r@[j].started_at by {
        assert(key(r@[i]) >= key(r@[j]));
    }
    crate::public::incident::law_newest_first_is_stable(incidents@, key, t as int);
    assert((|p: PublicIncident| p.started_at == t) =~= (|p: PublicIncident| key(p) == t as int));
}

/// Whether a component of the page is shown in the state `s`.
pub open spec fn some_component(out: PublicStatusPage, s: PublicComponentStatus) -> bool {
    exists|g: int, j: int|
        {
            &&& 0 <= g < out.groups@.len()
            &&& 0 <= j < out.groups@[g].components@.len()
            &&& (#[trigger] out.groups@[g].components@[j]).current_status == s
        }
}

/// `c` shows the component of `reading`.
pub open spec fn shows_component(
    c: PublicComponent,
    reading: ComponentReading,
    windows: Seq<MaintenanceWindow>,
    records: Seq<IncidentRecord>,
) -> bool {
    &&& c.id == reading.component.target_id
    &&& reading.component.public_name is Some ==> reading.component.public_name == Some(c.name)
    &&& reading.component.public_name is None ==> c.name == reading.component.monitor_name
    &&& c.description == reading.component.public_description
    &&& c.history@ == reading.history@
    &&& has_to_be(
        c.current_status,
        windows,
        records,
        reading.component.target_id,
        reading.latest,
    )
}

/// A group without a name holds one component.
proof fn lemma_lone_groups(names: Seq<Option<Seq<char>>>)
    ensures
        forall|g: int|
            #![trigger crate::public::snapshot::grouping(names)[g]]
            0 <= g < crate::public::snapshot::grouping(names).len() ==> {
                &&& crate::public::snapshot::grouping(names)[g].members.len() >= 1
                &&& crate::public::snapshot::grouping(names)[g].name is None
                    ==> crate::public::snapshot::grouping(names)[g].members.len() == 1
            },
    decreases names.len(),
{
    if names.len() > 0 {
        lemma_lone_groups(names.drop_last());
        let had = crate::public::snapshot::grouping(names.drop_last());
        let all = crate::public::snapshot::grouping(names);
        assert forall|g: int| #![trigger all[g]] 0 <= g < all.len() implies all[g].members.len()
            >= 1 && (all[g].name is None ==> all[g].members.len() == 1) by {
            if g < had.len() {
                let h = had[g];
                if let Some(n) = names.last() {
                    let p = crate::public::snapshot::group_place(had, n);
                    if p == g {
                        lemma_group_place(had, n);
                        assert(had[p].name == Some(n));
                    }
                }
            }
        }
    }
}

/// The place of a named group, where there is one, has that name.
proof fn lemma_group_place(groups: Seq<crate::public::snapshot::Grouping>, name: Seq<char>)
    ensures
        ({
            let p = crate::public::snapshot::group_place(groups, name);
            &&& 0 <= p <= groups.len()
            &&& p < groups.len() ==> groups[p].name == Some(name)
        }),
    decreases groups.len(),
{
    if groups.len() > 0 && groups[0].name != Some(name) {
        lemma_group_place(groups.drop_first(), name);
    }
}

/// Whether the component at place `k` of `readings` is shown as member `at.1` of group
/// `at.0`, which is the group that it asks for.
pub open spec fn is_shown_at(
    out: PublicStatusPage,
    readings: PageReadings,
    k: int,
    at: (int, int),
) -> bool {
    &&& 0 <= at.0 < out.groups@.len()
    &&& 0 <= at.1 < out.groups@[at.0].components@.len()
    &&& match readings.components@[k].component.public_group {
        Some(name) => out.groups@[at.0].name matches Some(n) && n@ == name@,
        None => out.groups@[at.0].name is None && out.groups@[at.0].components@.len() == 1,
    }
    &&& shows_component(
        out.groups@[at.0].components@[at.1],
        readings.components@[k],
        readings.active_windows@,
        readings.incidents@,
    )
}

/// Groups come in the order of their first members.
proof fn lemma_groups_in_order(names: Seq<Option<Seq<char>>>)
    ensures
        forall|g: int|
            #![trigger crate::public::snapshot::grouping(names)[g]]
            0 <= g < crate::public::snapshot::grouping(names).len() ==> 0
                <= crate::public::snapshot::grouping(names)[g].members[0] < names.len(),
        forall|g: int, h: int|
            #![trigger
                crate::public::snapshot::grouping(names)[g],
                crate::public::snapshot::grouping(names)[h]
            ]
            0 <= g < h < crate::public::snapshot::grouping(names).len()
                ==> crate::public::snapshot::grouping(names)[g].members[0]
                < crate::public::snapshot::grouping(names)[h].members[0],
    decreases names.len(),
{
    if names.len() > 0 {
        let rest = names.drop_last();
        lemma_groups_in_order(rest);
        lemma_lone_groups(rest);
        let had = crate::public::snapshot::grouping(rest);
        let all = crate::public::snapshot::grouping(names);
        assert forall|g: int| 0 <= g < had.len() implies (#[trigger] all[g]).members[0]
            == had[g].members[0] by {
            assert(had[g].members.len() >= 1);
        }
        assert forall|g: int| #![trigger all[g]] 0 <= g < all.len() implies 0 <= all[g].members[0]
            < names.len() by {
            if g < had.len() {
                assert(all[g].members[0] == had[g].members[0]);
            }
        }
        assert forall|g: int, h: int|
            #![trigger all[g], all[h]]
            0 <= g < h < all.len() implies all[g].members[0] < all[h].members[0] by {
            assert(all[g].members[0] == had[g].members[0]);
            if h < had.len() {
                assert(all[h].members[0] == had[h].members[0]);
            }
        }
    }
}

/// Every component of a published page is shown at exactly one place, in the group that
/// it asks for, in order, and in the state that it has to be in; a component that asks for
/// no group stands alone, groups come in the order of their first components, and no two
/// share a name. `places` says where each is.
pub proof fn law_every_component_is_shown_as_it_is(
    readings: &PageReadings,
    to: Moment,
    generated_at: Moment,
    r: Result<PublicStatusPage, AppError>,
) -> (places: Seq<(int, int)>)
    requires
        call_ensures(compute_status_snapshot, (readings, to, generated_at), r),
        readings.page.enabled,
    ensures
        r is Ok,
        ({
            let out = r->Ok_0;
            &&& places.len() == readings.components@.len()
            &&& forall|k: int|
                0 <= k < places.len() ==> is_shown_at(out, *readings, k, #[trigger] places[k])
            &&& forall|k: int, l: int|
                #![trigger places[k], places[l]]
                0 <= k < l < places.len() ==> places[k] != places[l] && (places[k].0 == places[l].0
                    ==> places[k].1 < places[l].1)
            &&& forall|g: int, j: int|
                0 <= g < out.groups@.len() && 0 <= j < out.groups@[g].components@.len()
                    ==> #[trigger] places.contains((g, j))
            &&& forall|k: int, l: int|
                #![trigger places[k], places[l]]
                0 <= k < places.len() && 0 <= l < places.len() && places[k].1 == 0 && places[l].1
                    == 0 && places[k].0 < places[l].0 ==> k < l
            &&& forall|g: int, h: int|
                #![trigger out.groups@[g], out.groups@[h]]
                0 <= g < h < out.groups@.len() && out.groups@[g].name is Some
                    && out.groups@[h].name is Some ==> out.groups@[g].name->0@
                    != out.groups@[h].name->0@
        }),
{
    let out = r->Ok_0;
    let components = readings.components@;
    let names = crate::public::snapshot::asked_groups(components);
    let shapes = crate::public::snapshot::grouping(names);
    let statuses = crate::public::snapshot::statuses_of(*readings);
    crate::public::snapshot::law_components_are_shown_once(names);
    lemma_lone_groups(names);
    let places = Seq::new(
        components.len(),
        |k: int|
            choose|at: (int, int)| #[trigger]
                crate::public::snapshot::is_at(shapes, at.0, at.1, k),
    );
    assert forall|k: int| 0 <= k < places.len() implies crate::public::snapshot::is_at(
        shapes,
        (#[trigger] places[k]).0,
        places[k].1,
        k,
    ) by {
        assert(crate::public::snapshot::is_placed(shapes, k));
        let (g, j) = choose|g: int, j: int| crate::public::snapshot::is_at(shapes, g, j, k);
        let at = (g, j);
        assert(crate::public::snapshot::is_at(shapes, at.0, at.1, k));
    }
    assert forall|k: int| 0 <= k < places.len() implies is_shown_at(
        out,
        *readings,
        k,
        #[trigger] places[k],
    ) by {
        let (g, j) = places[k];
        assert(crate::public::snapshot::is_at(shapes, g, j, k));
        assert(crate::public::snapshot::is_group(out.groups@[g], shapes[g], components, statuses));
        assert(crate::public::snapshot::is_member(
            out.groups@[g].components@[j],
            shapes[g].members[j],
            components,
            statuses,
        ));
        assert(names[k] == shapes[g].name);
        lemma_status(
            readings.active_windows@,
            readings.incidents@,
            components[k].component.target_id,
            components[k].latest,
        );
    }
    assert forall|k: int, l: int|
        #![trigger places[k], places[l]]
        0 <= k < l < places.len() implies places[k] != places[l] && (places[k].0 == places[l].0
        ==> places[k].1 < places[l].1) by {
        assert(crate::public::snapshot::is_at(shapes, places[k].0, places[k].1, k));
        assert(crate::public::snapshot::is_at(shapes, places[l].0, places[l].1, l));
    }
    lemma_groups_in_order(names);
    assert forall|k: int, l: int|
        #![trigger places[k], places[l]]
        0 <= k < places.len() && 0 <= l < places.len() && places[k].1 == 0 && places[l].1 == 0
            && places[k].0 < places[l].0 implies k < l by {
        assert(crate::public::snapshot::is_at(shapes, places[k].0, places[k].1, k));
        assert(crate::public::snapshot::is_at(shapes, places[l].0, places[l].1, l));
        assert(shapes[places[k].0].members[0] < shapes[places[l].0].members[0]);
    }
    assert forall|g: int, j: int|
        0 <= g < out.groups@.len() && 0 <= j
            < out.groups@[g].components@.len() implies #[trigger] places.contains((g, j)) by {
        assert(crate::public::snapshot::is_group(out.groups@[g], shapes[g], components, statuses));
        let k = shapes[g].members[j];
        assert(crate::public::snapshot::is_at(shapes, g, j, k));
        assert(crate::public::snapshot::is_at(shapes, places[k].0, places[k].1, k));
        assert(places[k] == (g, j));
    }
    assert forall|g: int, h: int|
        #![trigger out.groups@[g], out.groups@[h]]
        0 <= g < h < out.groups@.len() && out.groups@[g].name is Some
            && out.groups@[h].name is Some implies out.groups@[g].name->0@
        != out.groups@[h].name->0@ by {
        assert(crate::public::snapshot::is_group(out.groups@[g], shapes[g], components, statuses));
        assert(crate::public::snapshot::is_group(out.groups@[h], shapes[h], components, statuses));
        assert(shapes[g].name != shapes[h].name);
    }
    places
}

/// A page is as bad as its worst component: a major outage where one has one, else a
/// partial one where one is degraded or partly out, else in maintenance where one is, and
/// operational only where all are. It says so in words.
pub proof fn law_a_page_is_as_bad_as_its_worst_component(
    readings: &PageReadings,
    to: Moment,
    generated_at: Moment,
    r: Result<PublicStatusPage, AppError>,
)
    requires
        call_ensures(compute_status_snapshot, (readings, to, generated_at), r),
        readings.page.enabled,
    ensures
        r matches Ok(out) && {
            let major = some_component(out, PublicComponentStatus::MajorOutage);
            let partial = some_component(out, PublicComponentStatus::PartialOutage)
                || some_component(out, PublicComponentStatus::Degraded);
            let worked_on = some_component(out, PublicComponentStatus::Maintenance);
            &&& out.overall.state == OverallState::MajorOutage <==> major
            &&& out.overall.state == OverallState::PartialOutage <==> !major && partial
            &&& out.overall.state == OverallState::Maintenance <==> !major && !partial && worked_on
            &&& out.overall.state == OverallState::Operational <==> !major && !partial && !worked_on
            &&& major ==> out.overall.label@ == "Major Outage"@
            &&& !major && partial ==> out.overall.label@ == "Partial Outage"@
            &&& !major && !partial && worked_on ==> out.overall.label@ == "Under Maintenance"@
            &&& !major && !partial && !worked_on ==> out.overall.label@
                == "All Systems Operational"@
            &&& out.generated_at == generated_at
            &&& out.site_name == readings.page.name
            &&& out.logo_hash == readings.logo_hash
        },
{
    let out = r->Ok_0;
    let places = law_every_component_is_shown_as_it_is(readings, to, generated_at, r);
    let statuses = crate::public::snapshot::statuses_of(*readings);
    crate::public::status::law_worst_state_is_the_worst(statuses);
    assert forall|s: PublicComponentStatus| #[trigger] some_component(out, s) implies exists|k: int|
        0 <= k < statuses.len() && #[trigger] statuses[k] == s by {
        let (g, j) = choose|g: int, j: int|
            {
                &&& 0 <= g < out.groups@.len()
                &&& 0 <= j < out.groups@[g].components@.len()
                &&& (#[trigger] out.groups@[g].components@[j]).current_status == s
            };
        assert(places.contains((g, j)));
        let k = choose|k: int| 0 <= k < places.len() && places[k] == (g, j);
        lemma_component_status(readings, to, generated_at, r, places, k);
        assert(statuses[k] == s);
    }
    assert forall|k: int| 0 <= k < statuses.len() implies some_component(
        out,
        #[trigger] statuses[k],
    ) by {
        let (g, j) = places[k];
        lemma_component_status(readings, to, generated_at, r, places, k);
        assert(out.groups@[g].components@[j].current_status == statuses[k]);
    }
    assert forall|k: int| 0 <= k < statuses.len() implies (#[trigger] statuses[k])
        != PublicComponentStatus::Unknown by {
        lemma_status(
            readings.active_windows@,
            readings.incidents@,
            readings.components@[k].component.target_id,
            readings.components@[k].latest,
        );
    }
    assert(out.overall.state == crate::public::status::worst_state(statuses));
    assert(some_component(out, PublicComponentStatus::MajorOutage) ==> exists|k: int|
        0 <= k < statuses.len() && #[trigger] statuses[k] == PublicComponentStatus::MajorOutage);
    assert(some_component(out, PublicComponentStatus::PartialOutage) ==> exists|k: int|
        0 <= k < statuses.len() && #[trigger] statuses[k] == PublicComponentStatus::PartialOutage);
    assert(some_component(out, PublicComponentStatus::Degraded) ==> exists|k: int|
        0 <= k < statuses.len() && #[trigger] statuses[k] == PublicComponentStatus::Degraded);
    assert(some_component(out, PublicComponentStatus::Maintenance) ==> exists|k: int|
        0 <= k < statuses.len() && #[trigger] statuses[k] == PublicComponentStatus::Maintenance);
}

/// The component at a place has the status that was worked out for it.
proof fn lemma_component_status(
    readings: &PageReadings,
    to: Moment,
    generated_at: Moment,
    r: Result<PublicStatusPage, AppError>,
    places: Seq<(int, int)>,
    k: int,
)
    requires
        call_ensures(compute_status_snapshot, (readings, to, generated_at), r),
        r is Ok,
        places.len() == readings.components@.len(),
        0 <= k < places.len(),
        0 <= places[k].0 < r->Ok_0.groups@.len(),
        0 <= places[k].1 < r->Ok_0.groups@[places[k].0].components@.len(),
        shows_component(
            r->Ok_0.groups@[places[k].0].components@[places[k].1],
            readings.components@[k],
            readings.active_windows@,
            readings.incidents@,
        ),
    ensures
        r->Ok_0.groups@[places[k].0].components@[places[k].1].current_status
            == crate::public::snapshot::statuses_of(*readings)[k],
{
    lemma_status(
        readings.active_windows@,
        readings.incidents@,
        readings.components@[k].component.target_id,
        readings.components@[k].latest,
    );
}

} // verus!
