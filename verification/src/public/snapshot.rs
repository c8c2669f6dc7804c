//! The snapshot behind a public status page.

use vstd::prelude::*;
use vstd::string::*;

use crate::codec::Id;
use crate::domain::{
    copy_text, CheckStatus, DayState, MaintenanceWindow, OverallState, OverallStatus,
    PublicComponent, PublicComponentGroup, PublicComponentStatus, PublicIncident,
    PublicStatusPage, StatusPage, StatusPageComponent,
};
use crate::error::{not_found, AppError};
use crate::public::incident::{
    public_record, sort_newest_first, to_public_maintenance_list, IncidentRecord, TargetName,
};
use crate::public::status::{
    in_maintenance, overall_from_component, overall_label, overall_severity_rank, target_status,
};
use crate::text::{owned, same_text};
use crate::time::{Moment, DAY};

verus! {

/// How many days back a page looks.
pub const WINDOW_DAYS: i128 = 90;

/// How many closed incidents a page shows at most.
pub const RECENT_LIMIT: usize = 25;

/// A component with what was read of it: the status of its latest check and its
/// days, the oldest first.
#[derive(Clone, Debug)]
pub struct ComponentReading {
    pub component: StatusPageComponent,
    pub latest: Option<CheckStatus>,
    pub history: Vec<DayState>,
}

/// All that a snapshot is made from.
#[derive(Clone, Debug)]
pub struct PageReadings {
    pub page: StatusPage,
    pub components: Vec<ComponentReading>,
    pub active_windows: Vec<MaintenanceWindow>,
    pub upcoming_windows: Vec<MaintenanceWindow>,
    pub incidents: Vec<IncidentRecord>,
    pub targets: Vec<TargetName>,
    pub logo_hash: Option<String>,
}

/// The first enabled page.
pub open spec fn first_enabled(pages: Seq<StatusPage>) -> Option<Id>
    decreases pages.len(),
{
    if pages.len() == 0 {
        None
    } else if pages[0].enabled {
        Some(pages[0].id)
    } else {
        first_enabled(pages.drop_first())
    }
}

/// The page that a request means: the one it names, else the first enabled one.
pub fn resolve_page_id(requested: Option<Id>, pages: &Vec<StatusPage>) -> (r: Result<
    Id,
    AppError,
>)
    ensures
        match r {
            Ok(id) => requested == Some(id) || (requested is None && first_enabled(pages@) == Some(
                id,
            )),
            Err(e) => requested is None && first_enabled(pages@) is None
                && crate::error::is_not_found(
                e,
                "NO_STATUS_PAGE"@,
                "no enabled status page found"@,
            ),
        },
{
    if let Some(id) = requested {
        return Ok(id);
    }
    let mut i: usize = 0;
    assert(pages@.skip(0) =~= pages@);
    while i < pages.len()
        invariant
            i <= pages.len(),
            requested is None,
            first_enabled(pages@) == first_enabled(pages@.skip(i as int)),
        decreases pages.len() - i,
    {
        assert(pages@.skip(i as int)[0] == pages@[i as int]);
        if pages[i].enabled {
            return Ok(pages[i].id);
        }
        assert(pages@.skip(i as int).drop_first() =~= pages@.skip(i + 1));
        i += 1;
    }
    Err(not_found("NO_STATUS_PAGE", owned("no enabled status page found")))
}

/// A group as the places of its members among the components.
pub struct Grouping {
    pub name: Option<Seq<char>>,
    pub members: Seq<int>,
}

/// The place of the group called `name`, or the number of groups.
pub open spec fn group_place(groups: Seq<Grouping>, name: Seq<char>) -> int
    decreases groups.len(),
{
    if groups.len() == 0 || groups[0].name == Some(name) {
        0
    } else {
        1 + group_place(groups.drop_first(), name)
    }
}

/// `groups` with the component at place `k` put into the group it asks for: the
/// one of that name, a new one where there is none, and always a new one of its
/// own where it asks for none.
pub open spec fn with_member(
    groups: Seq<Grouping>,
    name: Option<Seq<char>>,
    k: int,
) -> Seq<Grouping> {
    match name {
        None => groups.push(Grouping { name: None, members: seq![k] }),
        Some(n) => {
            let p = group_place(groups, n);
            if 0 <= p < groups.len() {
                groups.update(
                    p,
                    Grouping { name: groups[p].name, members: groups[p].members.push(k) },
                )
            } else {
                groups.push(Grouping { name: Some(n), members: seq![k] })
            }
        },
    }
}

/// The groups that components asking for `names`, in order, end up in.
pub open spec fn grouping(names: Seq<Option<Seq<char>>>) -> Seq<Grouping>
    decreases names.len(),
{
    if names.len() == 0 {
        Seq::empty()
    } else {
        with_member(
            grouping(names.drop_last()),
            names.last(),
            (names.len() - 1) as int,
        )
    }
}

/// What an optional text holds.
pub open spec fn text_of(s: Option<String>) -> Option<Seq<char>> {
    match s {
        Some(t) => Some(t@),
        None => None,
    }
}

/// The groups that the components ask for.
pub open spec fn asked_groups(components: Seq<ComponentReading>) -> Seq<Option<Seq<char>>> {
    Seq::new(components.len(), |i: int| text_of(components[i].component.public_group))
}

/// `c` is the public form of `reading` in the state `status`.
pub open spec fn is_public_component(
    c: PublicComponent,
    reading: ComponentReading,
    status: PublicComponentStatus,
) -> bool {
    &&& c.id == reading.component.target_id
    &&& c.name == match reading.component.public_name {
        Some(n) => n,
        None => reading.component.monitor_name,
    }
    &&& c.description == reading.component.public_description
    &&& c.current_status == status
    &&& c.history@ == reading.history@
}

/// `c` is the public form of the component at place `m`.
pub open spec fn is_member(
    c: PublicComponent,
    m: int,
    components: Seq<ComponentReading>,
    statuses: Seq<PublicComponentStatus>,
) -> bool {
    &&& 0 <= m < components.len()
    &&& is_public_component(c, components[m], statuses[m])
}

/// `g` is the group `shape`, its members the public forms of the components
/// whose places `shape` holds.
pub open spec fn is_group(
    g: PublicComponentGroup,
    shape: Grouping,
    components: Seq<ComponentReading>,
    statuses: Seq<PublicComponentStatus>,
) -> bool {
    &&& text_of(g.name) == shape.name
    &&& g.components@.len() == shape.members.len()
    &&& forall|j: int|
        #![trigger g.components@[j]]
        0 <= j < shape.members.len() ==> is_member(
            g.components@[j],
            shape.members[j],
            components,
            statuses,
        )
}

/// `groups` are the groups `shapes`.
pub open spec fn are_groups(
    groups: Seq<PublicComponentGroup>,
    shapes: Seq<Grouping>,
    components: Seq<ComponentReading>,
    statuses: Seq<PublicComponentStatus>,
) -> bool {
    &&& groups.len() == shapes.len()
    &&& forall|g: int|
        #![trigger groups[g]]
        0 <= g < groups.len() ==> is_group(groups[g], shapes[g], components, statuses)
}

/// The status of each component.
pub open spec fn statuses_of(readings: PageReadings) -> Seq<PublicComponentStatus> {
    Seq::new(
        readings.components@.len(),
        |i: int|
            crate::public::status::status_of_target(
                readings.active_windows@,
                readings.incidents@,
                readings.components@[i].component.target_id,
                readings.components@[i].latest,
            ),
    )
}

/// Whether the target `t` is on the page.
pub open spec fn on_page(components: Seq<ComponentReading>, t: Id) -> bool {
    exists|i: int|
        0 <= i < components.len() && (#[trigger] components[i]).component.target_id == t
}

/// Whether a page shows `r` as active: open, not hidden by maintenance, on one of
/// its components, and public.
pub open spec fn shown_as_active(readings: PageReadings) -> spec_fn(IncidentRecord) -> bool {
    |r: IncidentRecord|
        {
            &&& r.incident.ended_at is None
            &&& !crate::public::status::covered(
                readings.active_windows@,
                r.incident.target_id,
            )
            &&& on_page(readings.components@, r.incident.target_id)
            &&& crate::public::incident::is_public(r.incident)
        }
}

/// Whether a page at `to` may show `r` as recent: closed, started within the
/// window, on one of its components, and public.
pub open spec fn shown_as_recent(readings: PageReadings, to: Moment) -> spec_fn(
    IncidentRecord,
) -> bool {
    |r: IncidentRecord|
        {
            &&& r.incident.ended_at is Some
            &&& r.incident.started_at >= to - WINDOW_DAYS * DAY
            &&& on_page(readings.components@, r.incident.target_id)
            &&& crate::public::incident::is_public(r.incident)
        }
}

/// The closed incidents of a page, the newest first.
pub open spec fn recent_records(readings: PageReadings, to: Moment) -> Seq<IncidentRecord> {
    crate::public::incident::newest_first(
        readings.incidents@.filter(shown_as_recent(readings, to)),
        crate::public::incident::record_start(),
    )
}

/// At most the first `n` of `s`.
pub open spec fn at_most<T>(s: Seq<T>, n: int) -> Seq<T> {
    if s.len() <= n {
        s
    } else {
        s.take(n)
    }
}

/// `out` is the snapshot of `readings`, looking back from `to`.
pub open spec fn is_snapshot(
    out: PublicStatusPage,
    readings: PageReadings,
    to: Moment,
    generated_at: Moment,
) -> bool {
    let statuses = statuses_of(readings);
    &&& out.overall.state == crate::public::status::worst_state(statuses)
    &&& out.overall.label@ == crate::public::status::label_for(out.overall.state)
    &&& out.generated_at == generated_at
    &&& out.site_name == readings.page.name
    &&& are_groups(
        out.groups@,
        grouping(asked_groups(readings.components@)),
        readings.components@,
        statuses,
    )
    &&& crate::public::incident::are_public_forms(
        out.active_incidents@,
        readings.incidents@.filter(shown_as_active(readings)),
    )
    &&& crate::public::incident::are_public_forms(
        out.recent_incidents@,
        at_most(recent_records(readings, to), RECENT_LIMIT as int),
    )
    &&& out.recent_incidents_has_more == (recent_records(readings, to).len() > RECENT_LIMIT)
    &&& crate::public::incident::are_public_windows(
        out.active_maintenance@,
        readings.active_windows@,
        readings.targets@,
    )
    &&& crate::public::incident::are_public_windows(
        out.upcoming_maintenance@,
        readings.upcoming_windows@,
        readings.targets@,
    )
    &&& out.logo_hash == readings.logo_hash
}

/// A copy of a list of days.
fn copy_days(days: &Vec<DayState>) -> (r: Vec<DayState>)
    ensures
        r@ == days@,
{
    let mut r: Vec<DayState> = Vec::new();
    let mut i: usize = 0;
    while i < days.len()
        invariant
            i <= days.len(),
            r@ == days@.take(i as int),
        decreases days.len() - i,
    {
        r.push(days[i]);
        assert(days@.take(i + 1) =~= days@.take(i as int).push(days@[i as int]));
        i += 1;
    }
    assert(days@.take(i as int) =~= days@);
    r
}

/// Where the group called `name` stands.
proof fn lemma_group_place(groups: Seq<Grouping>, name: Seq<char>, p: int)
    requires
        0 <= p <= groups.len(),
        p < groups.len() ==> groups[p].name == Some(name),
        forall|j: int| 0 <= j < p ==> (#[trigger] groups[j]).name != Some(name),
    ensures
        group_place(groups, name) == p,
    decreases groups.len(),
{
    if groups.len() > 0 && p > 0 {
        let rest = groups.drop_first();
        assert(groups[0].name != Some(name));
        assert forall|j: int| 0 <= j < p - 1 implies (#[trigger] rest[j]).name != Some(name) by {
            assert(rest[j] == groups[j + 1]);
        }
        lemma_group_place(rest, name, p - 1);
    }
}

/// Puts the component at place `k` into the group that it asks for.
fn push_into_group(
    groups: &mut Vec<PublicComponentGroup>,
    public_comp: PublicComponent,
    public_group: &Option<String>,
    Ghost(shapes): Ghost<Seq<Grouping>>,
    Ghost(k): Ghost<int>,
    Ghost(components): Ghost<Seq<ComponentReading>>,
    Ghost(statuses): Ghost<Seq<PublicComponentStatus>>,
)
    requires
        are_groups(old(groups)@, shapes, components, statuses),
        0 <= k < components.len(),
        is_public_component(public_comp, components[k], statuses[k]),
    ensures
        are_groups(
            final(groups)@,
            with_member(shapes, text_of(*public_group), k),
            components,
            statuses,
        ),
{
    match public_group {
        None => {
            let mut one: Vec<PublicComponent> = Vec::new();
            one.push(public_comp);
            groups.push(PublicComponentGroup { name: None, components: one });
        },
        Some(name) => {
            let mut p: usize = 0;
            while p < groups.len()
                invariant_except_break
                    p <= groups.len(),
                    groups@ == old(groups)@,
                    are_groups(groups@, shapes, components, statuses),
                    forall|j: int| 0 <= j < p ==> (#[trigger] shapes[j]).name != Some(name@),
                ensures
                    p <= groups.len(),
                    groups@ == old(groups)@,
                    p < groups.len() ==> shapes[p as int].name == Some(name@),
                    forall|j: int| 0 <= j < p ==> (#[trigger] shapes[j]).name != Some(name@),
                decreases groups.len() - p,
            {
                assert(is_group(groups@[p as int], shapes[p as int], components, statuses));
                let same = match &groups[p].name {
                    Some(n) => same_text(n.as_str(), name.as_str()),
                    None => false,
                };
                if same {
                    break;
                }
                p += 1;
            }
            proof {
                lemma_group_place(shapes, name@, p as int);
            }
            if p < groups.len() {
                assert(is_group(groups@[p as int], shapes[p as int], components, statuses));
                let ghost was = groups@;
                groups[p].components.push(public_comp);
                let ghost after = with_member(shapes, text_of(*public_group), k);
                proof {
                    let shape = Grouping {
                        name: shapes[p as int].name,
                        members: shapes[p as int].members.push(k),
                    };
                    assert(after == shapes.update(p as int, shape));
                    let g = groups@[p as int];
                    assert forall|j: int|
                        #![trigger g.components@[j]]
                        0 <= j < shape.members.len() implies is_member(
                        g.components@[j],
                        shape.members[j],
                        components,
                        statuses,
                    ) by {
                        if j < was[p as int].components@.len() {
                            assert(g.components@[j] == was[p as int].components@[j]);
                            assert(is_member(
                                was[p as int].components@[j],
                                shapes[p as int].members[j],
                                components,
                                statuses,
                            ));
                        }
                    }
                    assert(is_group(g, shape, components, statuses));
                    assert forall|i: int| #![trigger groups@[i]] 0 <= i < groups@.len() implies is_group(
                        groups@[i],
                        after[i],
                        components,
                        statuses,
                    ) by {
                        if i != p {
                            assert(is_group(was[i], shapes[i], components, statuses));
                        }
                    }
                }
            } else {
                let mut one: Vec<PublicComponent> = Vec::new();
                one.push(public_comp);
                groups.push(PublicComponentGroup { name: Some(name.clone()), components: one });
            }
        },
    }
}

/// Whether the target `t` is on the page.
fn is_on_page(components: &Vec<ComponentReading>, t: Id) -> (r: bool)
    ensures
        r == on_page(components@, t),
{
    let mut i: usize = 0;
    while i < components.len()
        invariant
            i <= components.len(),
            forall|j: int| 0 <= j < i ==> (#[trigger] components@[j]).component.target_id != t,
        decreases components.len() - i,
    {
        if components[i].component.target_id == t {
            return true;
        }
        i += 1;
    }
    false
}

/// The groups of a page and its overall state.
fn grouped_components(readings: &PageReadings) -> (r: (Vec<PublicComponentGroup>, OverallState))
    ensures
        r.1 == crate::public::status::worst_state(statuses_of(*readings)),
        are_groups(
            r.0@,
            grouping(asked_groups(readings.components@)),
            readings.components@,
            statuses_of(*readings),
        ),
{
    let ghost statuses = statuses_of(*readings);
    let ghost asked = asked_groups(readings.components@);
    let mut groups: Vec<PublicComponentGroup> = Vec::new();
    let mut worst = OverallState::Operational;
    let mut i: usize = 0;
    assert(asked.take(0) =~= Seq::<Option<Seq<char>>>::empty());
    assert(statuses.take(0) =~= Seq::<PublicComponentStatus>::empty());
    while i < readings.components.len()
        invariant
            i <= readings.components.len(),
            statuses == statuses_of(*readings),
            asked == asked_groups(readings.components@),
            worst == crate::public::status::worst_state(statuses.take(i as int)),
            are_groups(
                groups@,
                grouping(asked.take(i as int)),
                readings.components@,
                statuses,
            ),
        decreases readings.components.len() - i,
    {
        let reading = &readings.components[i];
        let comp = &reading.component;
        let status = target_status(
            &readings.active_windows,
            &readings.incidents,
            comp.target_id,
            reading.latest,
        );
        assert(status == statuses[i as int]);
        let overall = overall_from_component(status);
        if overall_severity_rank(overall) > overall_severity_rank(worst) {
            worst = overall;
        }
        let name = match &comp.public_name {
            Some(n) => n.clone(),
            None => comp.monitor_name.clone(),
        };
        let public_comp = PublicComponent {
            id: comp.target_id,
            name,
            description: copy_text(&comp.public_description),
            current_status: status,
            history: copy_days(&reading.history),
        };
        push_into_group(
            &mut groups,
            public_comp,
            &comp.public_group,
            Ghost(grouping(asked.take(i as int))),
            Ghost(i as int),
            Ghost(readings.components@),
            Ghost(statuses),
        );
        proof {
            assert(statuses.take(i + 1).drop_last() =~= statuses.take(i as int));
            assert(asked.take(i + 1).drop_last() =~= asked.take(i as int));
            assert(asked.take(i + 1).last() == asked[i as int]);
        }
        i += 1;
    }
    assert(statuses.take(i as int) =~= statuses);
    assert(asked.take(i as int) =~= asked);
    (groups, worst)
}

/// The incidents that a page shows as active.
fn active_incidents(readings: &PageReadings) -> (out: Vec<PublicIncident>)
    ensures
        crate::public::incident::are_public_forms(
            out@,
            readings.incidents@.filter(shown_as_active(*readings)),
        ),
{
    let ghost keep = shown_as_active(*readings);
    let ghost records = readings.incidents@;
    let mut out: Vec<PublicIncident> = Vec::new();
    let mut i: usize = 0;
    assert(records.take(0).filter(keep) =~= Seq::<IncidentRecord>::empty()) by {
        reveal(Seq::filter);
    }
    while i < readings.incidents.len()
        invariant
            i <= readings.incidents.len(),
            keep == shown_as_active(*readings),
            records == readings.incidents@,
            crate::public::incident::are_public_forms(out@, records.take(i as int).filter(keep)),
        decreases readings.incidents.len() - i,
    {
        proof {
            crate::public::incident::lemma_filter_next(records, keep, i as int);
        }
        let inc = &readings.incidents[i].incident;
        if inc.ended_at.is_none() && !in_maintenance(&readings.active_windows, inc.target_id)
            && is_on_page(&readings.components, inc.target_id) {
            match public_record(&readings.incidents[i]) {
                Some(p) => {
                    out.push(p);
                },
                None => {},
            }
        }
        i += 1;
    }
    assert(records.take(i as int) =~= records);
    out
}

/// The closed incidents that a page may show, in no special order.
fn closed_incidents(readings: &PageReadings, to: Moment) -> (out: Vec<PublicIncident>)
    requires
        i128::MIN + WINDOW_DAYS * DAY <= to,
    ensures
        crate::public::incident::are_public_forms(
            out@,
            readings.incidents@.filter(shown_as_recent(*readings, to)),
        ),
{
    let ghost keep = shown_as_recent(*readings, to);
    let ghost records = readings.incidents@;
    let cutoff: i128 = to - WINDOW_DAYS * DAY;
    let mut out: Vec<PublicIncident> = Vec::new();
    let mut i: usize = 0;
    assert(records.take(0).filter(keep) =~= Seq::<IncidentRecord>::empty()) by {
        reveal(Seq::filter);
    }
    while i < readings.incidents.len()
        invariant
            i <= readings.incidents.len(),
            keep == shown_as_recent(*readings, to),
            cutoff == to - WINDOW_DAYS * DAY,
            records == readings.incidents@,
            crate::public::incident::are_public_forms(out@, records.take(i as int).filter(keep)),
        decreases readings.incidents.len() - i,
    {
        proof {
            crate::public::incident::lemma_filter_next(records, keep, i as int);
        }
        let inc = &readings.incidents[i].incident;
        if inc.ended_at.is_some() && inc.started_at >= cutoff && is_on_page(
            &readings.components,
            inc.target_id,
        ) {
            match public_record(&readings.incidents[i]) {
                Some(p) => {
                    out.push(p);
                },
                None => {},
            }
        }
        i += 1;
    }
    assert(records.take(i as int) =~= records);
    out
}

/// The snapshot of a page, looking back over the window that ends at `to`. A page
/// that is not enabled has none.
pub fn compute_status_snapshot(
    readings: &PageReadings,
    to: Moment,
    generated_at: Moment,
) -> (r: Result<PublicStatusPage, AppError>)
    requires
        crate::time::on_calendar(to - WINDOW_DAYS * DAY),
        crate::time::on_calendar(to as int),
    ensures
        match r {
            Ok(out) => readings.page.enabled && is_snapshot(out, *readings, to, generated_at),
            Err(e) => !readings.page.enabled && crate::error::is_not_found(
                e,
                "PAGE_DISABLED"@,
                "status page is not published"@,
            ),
        },
{
    if !readings.page.enabled {
        return Err(not_found("PAGE_DISABLED", owned("status page is not published")));
    }
    let (groups, worst) = grouped_components(readings);
    let active = active_incidents(readings);
    let closed = closed_incidents(readings, to);
    proof {
        crate::public::incident::lemma_public_forms_sorted(
            closed@,
            readings.incidents@.filter(shown_as_recent(*readings, to)),
        );
    }
    let mut recent = sort_newest_first(closed);
    let has_more = recent.len() > RECENT_LIMIT;
    let ghost sorted = recent@;
    if recent.len() > RECENT_LIMIT {
        recent.truncate(RECENT_LIMIT);
    }
    proof {
        let all = recent_records(*readings, to);
        assert forall|i: int| #![trigger recent@[i]] 0 <= i < recent@.len() implies crate::public::incident::is_public_form(
            recent@[i],
            at_most(all, RECENT_LIMIT as int)[i].incident,
            at_most(all, RECENT_LIMIT as int)[i].postmortem,
        ) by {
            assert(recent@[i] == sorted[i]);
        }
    }
    Ok(
        PublicStatusPage {
            overall: OverallStatus { state: worst, label: owned(overall_label(worst)) },
            generated_at,
            site_name: readings.page.name.clone(),
            groups,
            active_incidents: active,
            recent_incidents: recent,
            recent_incidents_has_more: has_more,
            active_maintenance: to_public_maintenance_list(
                &readings.active_windows,
                &readings.targets,
            ),
            upcoming_maintenance: to_public_maintenance_list(
                &readings.upcoming_windows,
                &readings.targets,
            ),
            logo_hash: copy_text(&readings.logo_hash),
        },
    )
}

/// Whether `k` is member `j` of group `g`.
pub open spec fn is_at(groups: Seq<Grouping>, g: int, j: int, k: int) -> bool {
    0 <= g < groups.len() && 0 <= j < groups[g].members.len() && groups[g].members[j] == k
}

/// Whether `k` is a member of some group.
pub open spec fn is_placed(groups: Seq<Grouping>, k: int) -> bool {
    exists|g: int, j: int| is_at(groups, g, j, k)
}

/// Every group holds components that asked for it, in their order; every
/// component is in exactly one place; no two groups share a name.
pub open spec fn is_partition(groups: Seq<Grouping>, names: Seq<Option<Seq<char>>>) -> bool {
    &&& forall|g: int, j: int, k: int| #[trigger]
        is_at(groups, g, j, k) ==> 0 <= k < names.len() && names[k] == groups[g].name
    &&& forall|k: int| 0 <= k < names.len() ==> #[trigger] is_placed(groups, k)
    &&& forall|g: int, j: int, h: int, i: int, k: int|
        #![trigger is_at(groups, g, j, k), is_at(groups, h, i, k)]
        is_at(groups, g, j, k) && is_at(groups, h, i, k) ==> g == h && j == i
    &&& forall|g: int, i: int, j: int, a: int, b: int|
        #![trigger is_at(groups, g, i, a), is_at(groups, g, j, b)]
        is_at(groups, g, i, a) && is_at(groups, g, j, b) && i < j ==> a < b
    &&& forall|g: int, h: int|
        #![trigger groups[g], groups[h]]
        0 <= g < h < groups.len() && groups[g].name is Some ==> groups[g].name != groups[h].name
}

/// The place of a group is where it stands, or the end where it is missing.
proof fn lemma_group_place_bounds(groups: Seq<Grouping>, name: Seq<char>)
    ensures
        0 <= group_place(groups, name) <= groups.len(),
        group_place(groups, name) < groups.len() ==> groups[group_place(groups, name)].name
            == Some(name),
        forall|j: int|
            0 <= j < group_place(groups, name) ==> (#[trigger] groups[j]).name != Some(name),
    decreases groups.len(),
{
    if groups.len() != 0 && groups[0].name != Some(name) {
        let rest = groups.drop_first();
        lemma_group_place_bounds(rest, name);
        assert forall|j: int| 0 <= j < group_place(groups, name) implies (
        #[trigger] groups[j]).name != Some(name) by {
            if j > 0 {
                assert(groups[j] == rest[j - 1]);
            }
        }
    }
}

/// Putting one more component into its group keeps the partition.
proof fn lemma_with_member_is_partition(
    groups: Seq<Grouping>,
    names: Seq<Option<Seq<char>>>,
    name: Option<Seq<char>>,
)
    requires
        is_partition(groups, names),
    ensures
        is_partition(with_member(groups, name, names.len() as int), names.push(name)),
{
    let n = names.len() as int;
    let all = names.push(name);
    let next = with_member(groups, name, n);
    let p = match name {
        Some(t) => group_place(groups, t),
        None => groups.len() as int,
    };
    if let Some(t) = name {
        lemma_group_place_bounds(groups, t);
    }
    let last = if p < groups.len() {
        groups[p].members.len() as int
    } else {
        0
    };
    assert(next.len() == if p < groups.len() {
        groups.len()
    } else {
        groups.len() + 1
    });
    assert(is_at(next, p, last, n));
    assert forall|g: int, j: int, k: int| #[trigger] is_at(next, g, j, k) implies 0 <= k
        < all.len() && all[k] == next[g].name && (if g == p && j == last {
        k == n
    } else {
        is_at(groups, g, j, k) && k < n
    }) by {
        if !(g == p && j == last) {
            assert(is_at(groups, g, j, k));
        }
    }
    assert forall|k: int| 0 <= k < all.len() implies #[trigger] is_placed(next, k) by {
        if k < n {
            assert(is_placed(groups, k));
            let (g, j) = choose|g: int, j: int| #[trigger] is_at(groups, g, j, k);
            assert(is_at(next, g, j, k));
        } else {
            assert(is_at(next, p, last, k));
        }
    }
    assert forall|g: int, h: int|
        #![trigger next[g], next[h]]
        0 <= g < h < next.len() && next[g].name is Some implies next[g].name != next[h].name by {
        assert(next[g].name == groups[g].name);
        if h < groups.len() {
            assert(next[h].name == groups[h].name);
            assert(groups[g].name != groups[h].name);
        }
    }
}

/// Every component of a page is shown exactly once, in the group that it asks
/// for, and components that share a group keep their order.
pub proof fn law_components_are_shown_once(names: Seq<Option<Seq<char>>>)
    ensures
        is_partition(grouping(names), names),
    decreases names.len(),
{
    if names.len() > 0 {
        law_components_are_shown_once(names.drop_last());
        lemma_with_member_is_partition(
            grouping(names.drop_last()),
            names.drop_last(),
            names.last(),
        );
        assert(names.drop_last().push(names.last()) =~= names);
    }
}

/// A page lists at most the limit of closed incidents, each newer than or as old
/// as the next, and says that there are more exactly where it left some out.
pub proof fn law_recent_incidents_are_bounded_and_sorted(
    out: PublicStatusPage,
    readings: PageReadings,
    to: Moment,
    generated_at: Moment,
)
    requires
        is_snapshot(out, readings, to, generated_at),
    ensures
        out.recent_incidents@.len() <= RECENT_LIMIT,
        out.recent_incidents_has_more <==> readings.incidents@.filter(
            shown_as_recent(readings, to),
        ).len() > out.recent_incidents@.len(),
        forall|i: int, j: int|
            #![trigger out.recent_incidents@[i], out.recent_incidents@[j]]
            0 <= i <= j < out.recent_incidents@.len() ==> out.recent_incidents@[i].started_at
                >= out.recent_incidents@[j].started_at,
{
    let kept = readings.incidents@.filter(shown_as_recent(readings, to));
    let key = crate::public::incident::record_start();
    crate::public::incident::law_newest_first_is_sorted(kept, key);
    let all = recent_records(readings, to);
    let shown = at_most(all, RECENT_LIMIT as int);
    assert forall|i: int, j: int|
        #![trigger out.recent_incidents@[i], out.recent_incidents@[j]]
        0 <= i <= j < out.recent_incidents@.len() implies out.recent_incidents@[i].started_at
        >= out.recent_incidents@[j].started_at by {
        assert(key(all[i]) >= key(all[j]));
        assert(shown[i] == all[i] && shown[j] == all[j]);
    }
}

/// No active incident is shown for a target under maintenance, and none for a
/// target that is not on the page.
pub proof fn law_active_incidents_are_visible_ones(
    out: PublicStatusPage,
    readings: PageReadings,
    to: Moment,
    generated_at: Moment,
    i: int,
)
    requires
        is_snapshot(out, readings, to, generated_at),
        0 <= i < out.active_incidents@.len(),
    ensures
        out.active_incidents@[i].ended_at is None,
        !crate::public::status::covered(
            readings.active_windows@,
            out.active_incidents@[i].component_id,
        ),
        on_page(readings.components@, out.active_incidents@[i].component_id),
{
    let keep = shown_as_active(readings);
    let kept = readings.incidents@.filter(keep);
    readings.incidents@.lemma_filter_pred(keep, i);
    assert(keep(kept[i]));
    assert(crate::public::incident::is_public_form(
        out.active_incidents@[i],
        kept[i].incident,
        kept[i].postmortem,
    ));
}

} // verus!
