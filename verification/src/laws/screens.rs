//! What the pages show of components, monitors and incidents, and in which words.

use vstd::prelude::*;
use vstd::string::*;

use crate::domain::{
    CheckResult, CheckSpec, CheckStatus, DayState, Incident, IncidentSeverity,
    IncidentStatusPhase, OverallState, PublicComponent, PublicComponentGroup,
    PublicComponentStatus, PublicIncident, PublicIncidentUpdate, StatusPage, Target,
};
use crate::time::Moment;
use crate::ui::lists::{
    check_address, incident_list_page, status_page_list_page, target_list_row, targets_list_page,
    IncidentsView, ListBody, ListPage, MonitorRow, PageRow, PagesView, TargetListRow, TargetsView,
};
use crate::ui::public_status_page::{
    component_group, component_row, component_status_class, component_status_label,
    day_cell_class, day_label, group_by_month, hero_status_banner, incident_card, month_name,
    past_incidents, phase_label, phase_visual, relative_time, severity_label, timeline_entry,
    updated_label, uptime_days, uptime_grid, ComponentRow, DatedIncident, GroupHeading, Hero,
    HeroIcon, IncidentCard, MonthGroup, TimelineEntry, UptimeGrid,
};
use crate::ui::status_page_detail::{
    check_type_label, compute_overall_status, fetch_status_page_view, incident_row,
    overall_status_banner, status_page_detail_page, target_status, target_status_row, Banner,
    IncidentRow, MonitorList, OverallStatus, PageLayout, StatusPageView, TargetRow, TargetStatus,
};
use crate::ui::target_detail::{
    kpi_grid, target_detail_page, Kpi, KpiGrid, TargetDetailView, TargetLayout,
};

verus! {

/// How long ago something was is told in minutes, from 60 of them on in hours, and from 24
/// of these on in days, each rounded down.
pub proof fn law_times_are_told_in_their_units(
    ts: Moment,
    now: Moment,
    n: u64,
    digits: String,
    r: String,
    label: String,
)
    requires
        call_ensures(relative_time, (ts, now), r),
        call_ensures(updated_label, (ts, now), label),
        call_ensures(crate::text::decimal_text, (n,), digits),
    ensures
        now - ts < 60_000_000_000 ==> r@ == "just now"@,
        1 <= n < 60 && n * 60_000_000_000 <= now - ts < (n + 1) * 60_000_000_000 ==> r@ == digits@
            + " min ago"@,
        1 <= n < 24 && n * 3_600_000_000_000 <= now - ts < (n + 1) * 3_600_000_000_000 ==> r@
            == digits@ + "h ago"@,
        1 <= n && n * 86_400_000_000_000 <= now - ts < (n + 1) * 86_400_000_000_000 ==> r@
            == digits@ + "d ago"@,
        label@ == "Updated "@ + r@,
{
    let d = now - ts;
    if d >= 0 {
        let mins = d / 60_000_000_000;
        assert(mins / 60 == d / 3_600_000_000_000);
        assert(mins / 1440 == d / 86_400_000_000_000);
    }
}

/// The sign of a page says how it is.
pub proof fn law_the_banner_says_how_the_page_is(state: OverallState, r: Hero)
    requires
        call_ensures(hero_status_banner, (state,), r),
    ensures
        r.icon == HeroIcon::Check <==> state == OverallState::Operational,
        r.icon == HeroIcon::Wrench <==> state == OverallState::Maintenance,
        r.icon == HeroIcon::Question <==> state == OverallState::Unknown,
        r.section_class is None <==> state == OverallState::Unknown,
        state == OverallState::Operational ==> r.section_class->0@ == "sp-hero--ok"@,
        state == OverallState::Maintenance ==> r.section_class->0@ == "sp-hero--maint"@,
        state == OverallState::MinorDisruption || state == OverallState::PartialOutage
            ==> r.section_class->0@ == "sp-hero--warn"@,
        state == OverallState::MajorOutage ==> r.section_class->0@ == "sp-hero--bad"@,
        state == OverallState::Operational ==> r.subtitle@
            == "All services are running normally."@ && r.dot_class@
            == "sp-hero-dot sp-hero-dot--ok"@,
        state == OverallState::Maintenance ==> r.subtitle@
            == "Scheduled maintenance is in progress."@ && r.dot_class@
            == "sp-hero-dot sp-hero-dot--maint"@,
        state == OverallState::MinorDisruption ==> r.subtitle@
            == "Some services are experiencing minor issues."@ && r.dot_class@
            == "sp-hero-dot sp-hero-dot--warn"@,
        state == OverallState::PartialOutage ==> r.subtitle@
            == "Some services are partially degraded."@ && r.dot_class@
            == "sp-hero-dot sp-hero-dot--warn"@,
        state == OverallState::MajorOutage ==> r.subtitle@
            == "Major service disruption is ongoing."@ && r.dot_class@
            == "sp-hero-dot sp-hero-dot--bad"@,
        state == OverallState::Unknown ==> r.subtitle@ == "System status is being determined."@
            && r.dot_class@ == "sp-hero-dot sp-hero-dot--unknown"@,
{
}

/// A group is said to be operational exactly where each of its components is, and tells how
/// many there are.
pub proof fn law_groups_are_operational_when_all_is(
    group: &PublicComponentGroup,
    n: u64,
    digits: String,
    r: GroupHeading,
)
    requires
        call_ensures(component_group, (group,), r),
        n == group.components@.len(),
        call_ensures(crate::text::decimal_text, (n,), digits),
    ensures
        r.all_operational <==> forall|i: int|
            0 <= i < group.components@.len() ==> (#[trigger] group.components@[i]).current_status
                == PublicComponentStatus::Operational,
        r.all_operational ==> r.summary@ == "All operational"@,
        !r.all_operational ==> r.summary@ == "Issues detected"@,
        group.name matches Some(name) ==> r.name@ == name@,
        group.name is None ==> r.name@ == "Components"@,
        n == 1 ==> r.count_label@ == digits@ + " "@ + "service"@,
        n != 1 ==> r.count_label@ == digits@ + " "@ + "services"@,
{
}

/// The words and the classes for the states of components.
pub proof fn law_components_are_put_in_words(
    s: PublicComponentStatus,
    words: &'static str,
    class: &'static str,
)
    requires
        call_ensures(component_status_label, (s,), words),
        call_ensures(component_status_class, (s,), class),
    ensures
        s == PublicComponentStatus::Operational ==> words@ == "Operational"@ && class@ == "op"@,
        s == PublicComponentStatus::Degraded ==> words@ == "Degraded"@ && class@ == "deg"@,
        s == PublicComponentStatus::PartialOutage ==> words@ == "Partial Outage"@ && class@
            == "part"@,
        s == PublicComponentStatus::MajorOutage ==> words@ == "Major Outage"@ && class@ == "maj"@,
        s == PublicComponentStatus::Maintenance ==> words@ == "Maintenance"@ && class@ == "maint"@,
        s == PublicComponentStatus::Unknown ==> words@ == "Unknown"@ && class@ == "unknown"@,
{
}

/// One more day counts as up where it was operational, and as known where anything is known
/// of it; without days there are none.
pub proof fn law_days_count_one_by_one(
    days: &Vec<DayState>,
    r: (usize, usize),
    more: &Vec<DayState>,
    s: (usize, usize),
    day: DayState,
)
    requires
        call_ensures(uptime_days, (days,), r),
        call_ensures(uptime_days, (more,), s),
        more@ == days@.push(day),
    ensures
        days@.len() == 0 ==> r == (0usize, 0usize),
        day == DayState::Operational ==> s.0 == r.0 + 1,
        day != DayState::Operational ==> s.0 == r.0,
        day == DayState::NoData ==> s.1 == r.1,
        day != DayState::NoData ==> s.1 == r.1 + 1,
{
    assert(more@.drop_last() =~= days@);
    assert(more@.last() == day);
}

/// A component is shown as it is; its uptime is the share given, a round hundred from
/// 99.99 percent on, and a dash where nothing is known.
pub proof fn law_components_show_their_uptime(
    component: &PublicComponent,
    percent: &str,
    days: (usize, usize),
    words: &'static str,
    class: &'static str,
    r: ComponentRow,
)
    requires
        call_ensures(component_row, (component, percent), r),
        call_ensures(uptime_days, (&component.history,), days),
        call_ensures(component_status_label, (component.current_status,), words),
        call_ensures(component_status_class, (component.current_status,), class),
    ensures
        r.status_label@ == words@,
        r.dot_class@ == "sp-comp-dot sp-comp-dot--"@ + class@,
        r.badge_class@ == "sp-comp-badge sp-comp-badge--"@ + class@,
        days.1 == 0 ==> r.uptime_label@ == "—"@,
        days.1 > 0 && days.0 * 10_000 >= days.1 * 9_999 ==> r.uptime_label@ == "100%"@,
        days.1 > 0 && days.0 * 10_000 < days.1 * 9_999 ==> r.uptime_label@ == percent@ + "%"@,
{
}

/// The words and the classes for days.
pub proof fn law_days_are_put_in_words(state: DayState, class: &'static str, words: &'static str)
    requires
        call_ensures(day_cell_class, (state,), class),
        call_ensures(day_label, (state,), words),
    ensures
        state == DayState::Operational ==> class@ == "sp-bar--op"@ && words@ == "Operational"@,
        state == DayState::Degraded ==> class@ == "sp-bar--deg"@ && words@
            == "Degraded performance"@,
        state == DayState::PartialOutage ==> class@ == "sp-bar--part"@ && words@
            == "Partial outage"@,
        state == DayState::MajorOutage ==> class@ == "sp-bar--maj"@ && words@ == "Major outage"@,
        state == DayState::Maintenance ==> class@ == "sp-bar--maint"@ && words@ == "Maintenance"@,
        state == DayState::NoData ==> class@ == "sp-bar--none"@ && words@ == "No data"@,
        state == DayState::Unknown ==> class@ == "sp-bar--none"@ && words@ == "Unknown"@,
{
}

/// A strip has a bar for each day, the last of which is the day the page was put together
/// on; each bar names its own day and how it went.
pub proof fn law_bars_stand_for_their_days(
    history: &Vec<DayState>,
    generated_at: Moment,
    today: int,
    r: UptimeGrid,
    i: int,
    begin: Moment,
    date: String,
    class: &'static str,
    words: &'static str,
)
    requires
        call_ensures(uptime_grid, (history, generated_at), r),
        today * 86_400_000_000_000 <= generated_at < (today + 1) * 86_400_000_000_000,
        0 <= i < history@.len(),
        begin == (today - (history@.len() - 1 - i)) * 86_400_000_000_000,
        call_ensures(crate::time::format_date, (begin, "%B %-d, %Y"), date),
        call_ensures(day_cell_class, (history@[i],), class),
        call_ensures(day_label, (history@[i],), words),
    ensures
        r.bars@.len() == history@.len(),
        r.bars@[i].class@ == "sp-uptime-bar "@ + class@,
        r.bars@[i].tooltip@ == date@ + " • "@ + words@,
        r.axis@.len() == 4,
{
    assert(crate::ui::public_status_page::is_bar(
        r.bars@[i],
        crate::ui::public_status_page::grid_start(history@.len(), generated_at as int) + i,
        history@[i],
    ));
}

/// Below a strip stand its first day, the days 30 and 60 later, and the day the page was
/// put together on.
pub proof fn law_the_axis_names_four_days(
    history: &Vec<DayState>,
    generated_at: Moment,
    today: int,
    r: UptimeGrid,
    first: Moment,
    dates: (String, String, String, String),
)
    requires
        call_ensures(uptime_grid, (history, generated_at), r),
        today * 86_400_000_000_000 <= generated_at < (today + 1) * 86_400_000_000_000,
        history@.len() > 0,
        first == (today - (history@.len() - 1)) * 86_400_000_000_000,
        call_ensures(crate::time::format_date, (first, "%b %-d"), dates.0),
        call_ensures(
            crate::time::format_date,
            ((first + 30 * 86_400_000_000_000) as i128, "%b %-d"),
            dates.1,
        ),
        call_ensures(
            crate::time::format_date,
            ((first + 60 * 86_400_000_000_000) as i128, "%b %-d"),
            dates.2,
        ),
        call_ensures(crate::time::format_date, (generated_at, "%b %-d"), dates.3),
        first + 60 * 86_400_000_000_000 <= i128::MAX,
    ensures
        r.axis@[0]@ == dates.0@,
        r.axis@[1]@ == dates.1@,
        r.axis@[2]@ == dates.2@,
        r.axis@[3]@ == dates.3@,
{
}

/// Months are named, with their year.
pub proof fn law_months_are_named(y: i32, m: u32, year: String, r: String)
    requires
        call_ensures(month_name, (y, m), r),
        call_ensures(crate::text::signed_decimal_text, (y as i64,), year),
    ensures
        m == 1 ==> r@ == "January"@ + " "@ + year@,
        m == 2 ==> r@ == "February"@ + " "@ + year@,
        m == 3 ==> r@ == "March"@ + " "@ + year@,
        m == 4 ==> r@ == "April"@ + " "@ + year@,
        m == 5 ==> r@ == "May"@ + " "@ + year@,
        m == 6 ==> r@ == "June"@ + " "@ + year@,
        m == 7 ==> r@ == "July"@ + " "@ + year@,
        m == 8 ==> r@ == "August"@ + " "@ + year@,
        m == 9 ==> r@ == "September"@ + " "@ + year@,
        m == 10 ==> r@ == "October"@ + " "@ + year@,
        m == 11 ==> r@ == "November"@ + " "@ + year@,
        m == 12 ==> r@ == "December"@ + " "@ + year@,
{
}

/// Months come with the latest first, no month twice, none empty, and each with exactly the
/// incidents of that month, in the order given.
pub proof fn law_months_hold_their_incidents(
    incidents: Vec<DatedIncident>,
    r: Vec<MonthGroup>,
    a: int,
    b: int,
)
    requires
        call_ensures(group_by_month, (incidents,), r),
        0 <= a < b < r@.len(),
    ensures
        r@[a].year > r@[b].year || (r@[a].year == r@[b].year && r@[a].month > r@[b].month),
        r@[a].incidents@.len() > 0,
        r@[b].incidents@.len() > 0,
{
    assert(crate::ui::public_status_page::later(
        crate::ui::public_status_page::group_month(r@[a]),
        crate::ui::public_status_page::group_month(r@[b]),
    ));
}

/// The incidents of a month.
pub proof fn law_a_month_holds_its_incidents(
    incidents: Vec<DatedIncident>,
    r: Vec<MonthGroup>,
    k: int,
)
    requires
        call_ensures(group_by_month, (incidents,), r),
        0 <= k < r@.len(),
    ensures
        r@[k].incidents@.len() > 0,
        r@[k].incidents@ == incidents@.filter(
            |i: DatedIncident| i.year == r@[k].year && i.month == r@[k].month,
        ),
{
    let month = crate::ui::public_status_page::group_month(r@[k]);
    let of = |i: DatedIncident| crate::ui::public_status_page::dated_month(i) == month;
    let same = |i: DatedIncident| i.year == r@[k].year && i.month == r@[k].month;
    assert(of =~= same);
    assert(r@[k].incidents@.len() > 0);
}

/// Every incident stands in the group of its month.
pub proof fn law_no_incident_is_without_a_month(
    incidents: Vec<DatedIncident>,
    r: Vec<MonthGroup>,
    i: int,
) -> (k: int)
    requires
        call_ensures(group_by_month, (incidents,), r),
        0 <= i < incidents@.len(),
    ensures
        0 <= k < r@.len(),
        r@[k].year == incidents@[i].year,
        r@[k].month == incidents@[i].month,
        r@[k].incidents@.contains(incidents@[i]),
{
    crate::ui::public_status_page::law_months_hold_all_incidents(r@, incidents@, i);
    choose|k: int|
        0 <= k < r@.len() && crate::ui::public_status_page::group_month(#[trigger] r@[k])
            == crate::ui::public_status_page::dated_month(incidents@[i])
            && r@[k].incidents@.contains(incidents@[i])
}

/// Past incidents are put into the months in which they started.
pub proof fn law_past_incidents_stand_in_the_month_they_started(
    incidents: Vec<PublicIncident>,
    r: Vec<MonthGroup>,
    i: int,
    month: (i32, u32),
) -> (k: int)
    requires
        call_ensures(past_incidents, (incidents,), r),
        0 <= i < incidents@.len(),
        call_ensures(crate::time::year_and_month, (incidents@[i].started_at,), month),
    ensures
        0 <= k < r@.len(),
        r@[k].year == month.0,
        r@[k].month == month.1,
        exists|j: int|
            0 <= j < r@[k].incidents@.len() && (#[trigger] r@[k].incidents@[j]).incident
                == incidents@[i],
{
    let all = crate::ui::public_status_page::dated(incidents@);
    assert(all[i].incident == incidents@[i]);
    crate::ui::public_status_page::law_months_hold_all_incidents(r@, all, i);
    let k = choose|k: int|
        0 <= k < r@.len() && crate::ui::public_status_page::group_month(#[trigger] r@[k])
            == crate::ui::public_status_page::dated_month(all[i]) && r@[k].incidents@.contains(
            all[i],
        );
    let j = choose|j: int| 0 <= j < r@[k].incidents@.len() && r@[k].incidents@[j] == all[i];
    assert(r@[k].incidents@[j].incident == incidents@[i]);
    k
}

/// An incident is shown by how bad it is and by when it began.
pub proof fn law_incidents_are_shown_by_how_bad_they_are(
    incident: &PublicIncident,
    date: String,
    words: &'static str,
    r: IncidentCard,
)
    requires
        call_ensures(incident_card, (incident,), r),
        call_ensures(crate::time::format_date, (incident.started_at, "%b %-d, %Y"), date),
        call_ensures(severity_label, (incident.severity,), words),
    ensures
        r.date@ == date@,
        r.severity_label@ == words@,
        incident.severity == IncidentSeverity::Critical ==> words@ == "Critical"@
            && r.article_class@ == "sp-incident sp-incident--"@ + "crit"@ && r.severity_class@
            == "sp-severity sp-severity--"@ + "crit"@,
        incident.severity == IncidentSeverity::Major ==> words@ == "Major"@ && r.article_class@
            == "sp-incident sp-incident--"@ + "maj"@ && r.severity_class@
            == "sp-severity sp-severity--"@ + "maj"@,
        incident.severity == IncidentSeverity::Minor ==> words@ == "Minor"@ && r.article_class@
            == "sp-incident sp-incident--"@ + "min"@ && r.severity_class@
            == "sp-severity sp-severity--"@ + "min"@,
        incident.severity == IncidentSeverity::Unknown ==> words@ == "Unknown"@,
{
}

/// The words and the marks for the phases of incidents.
pub proof fn law_phases_are_put_in_words(
    p: IncidentStatusPhase,
    words: &'static str,
    marks: (&'static str, &'static str),
)
    requires
        call_ensures(phase_label, (p,), words),
        call_ensures(phase_visual, (p,), marks),
    ensures
        p == IncidentStatusPhase::Investigating ==> words@ == "Investigating"@ && marks.0@
            == "invest"@ && marks.1@ == "🔍"@,
        p == IncidentStatusPhase::Identified ==> words@ == "Identified"@ && marks.0@ == "ident"@
            && marks.1@ == "🎯"@,
        p == IncidentStatusPhase::Monitoring ==> words@ == "Monitoring"@ && marks.0@ == "mon"@
            && marks.1@ == "👁"@,
        p == IncidentStatusPhase::Resolved ==> words@ == "Resolved"@ && marks.0@ == "resolved"@
            && marks.1@ == "✓"@,
        p == IncidentStatusPhase::Postmortem ==> words@ == "Postmortem"@ && marks.0@ == "pm"@
            && marks.1@ == "📋"@,
        p == IncidentStatusPhase::Unknown ==> words@ == "Unknown"@,
{
}

/// An entry of a timeline shows its phase and when it was posted.
pub proof fn law_entries_show_their_phase_and_time(
    update: &PublicIncidentUpdate,
    words: &'static str,
    marks: (&'static str, &'static str),
    date: String,
    r: TimelineEntry,
)
    requires
        call_ensures(timeline_entry, (update,), r),
        call_ensures(phase_label, (update.phase,), words),
        call_ensures(phase_visual, (update.phase,), marks),
        call_ensures(crate::time::format_date, (update.posted_at, "%b %-d, %H:%M UTC"), date),
    ensures
        r.phase_label@ == words@,
        r.icon@ == marks.1@,
        r.marker_class@ == "sp-timeline-marker "@ + marks.0@,
        r.phase_class@ == "sp-phase sp-phase--"@ + marks.0@,
        r.time@ == date@,
{
}

/// Whether the latest check of a monitor has a status.
pub open spec fn was_last(t: TargetStatus, status: CheckStatus) -> bool {
    t.latest is Some && t.latest->0.status == status
}

/// A page is as bad as its incidents and monitors: a critical incident is an outage, a
/// major one a degradation, a monitor that is down or failing an outage, one that is slow a
/// degradation, and nothing is known where nothing was checked.
pub proof fn law_pages_are_as_bad_as_their_monitors(
    targets: &Vec<TargetStatus>,
    incidents: &Vec<Incident>,
    r: OverallStatus,
    k: int,
    m: int,
)
    requires
        call_ensures(compute_overall_status, (targets, incidents), r),
    ensures
        0 <= k < incidents@.len() && incidents@[k].severity == IncidentSeverity::Critical ==> r
            == OverallStatus::Outage,
        0 <= k < incidents@.len() && incidents@[k].severity == IncidentSeverity::Major ==> r
            == OverallStatus::Outage || r == OverallStatus::Degraded,
        incidents@.len() == 0 && 0 <= m < targets@.len() && (was_last(
            targets@[m],
            CheckStatus::Down,
        ) || was_last(targets@[m], CheckStatus::Error)) ==> r == OverallStatus::Outage,
        incidents@.len() == 0 && 0 <= m < targets@.len() && was_last(
            targets@[m],
            CheckStatus::Degraded,
        ) ==> r == OverallStatus::Outage || r == OverallStatus::Degraded,
        incidents@.len() == 0 && (forall|j: int|
            0 <= j < targets@.len() ==> (#[trigger] targets@[j]).latest is None) ==> r
            == OverallStatus::Unknown,
        r == OverallStatus::Operational && 0 <= m < targets@.len() && targets@[m].latest is Some
            ==> targets@[m].latest->0.status == CheckStatus::Up,
        r == OverallStatus::Unknown && 0 <= m < targets@.len() ==> targets@[m].latest is None,
        incidents@.len() == 0 && 0 <= m < targets@.len() && targets@[m].latest is Some && (
        forall|j: int|
            0 <= j < targets@.len() && (#[trigger] targets@[j]).latest is Some
                ==> targets@[j].latest->0.status == CheckStatus::Up) ==> r
            == OverallStatus::Operational,
{
    let ts = targets@;
    let is = incidents@;
    if 0 <= k < is.len() {
        assert(is[k].severity == is[k].severity);
    }
    if 0 <= m < ts.len() {
        assert(ts[m].latest is Some ==> crate::ui::status_page_detail::any_checked(ts));
        assert((was_last(ts[m], CheckStatus::Down) || was_last(ts[m], CheckStatus::Error))
            ==> crate::ui::status_page_detail::any_down(ts));
        assert((was_last(ts[m], CheckStatus::Degraded) || was_last(ts[m], CheckStatus::Unknown))
            ==> crate::ui::status_page_detail::any_slow(ts));
    }
}

/// The banner of a page says how it is.
pub proof fn law_the_banner_says_how_the_monitors_are(status: OverallStatus, r: Banner)
    requires
        call_ensures(overall_status_banner, (status,), r),
    ensures
        status == OverallStatus::Operational ==> r.title@ == "All Systems Operational"@
            && r.subtitle@ == "All monitors are responding normally."@ && r.class@
            == "public-overall public-overall--op"@,
        status == OverallStatus::Degraded ==> r.title@ == "Partial Degradation"@ && r.subtitle@
            == "One or more monitors are responding slower than expected."@ && r.class@
            == "public-overall public-overall--deg"@,
        status == OverallStatus::Outage ==> r.title@ == "Active Outage"@ && r.subtitle@
            == "One or more monitors are down or reporting errors."@ && r.class@
            == "public-overall public-overall--outage"@,
        status == OverallStatus::Unknown ==> r.title@ == "No Data Yet"@ && r.subtitle@
            == "No check results have been recorded for these monitors."@ && r.class@
            == "public-overall public-overall--unknown"@,
        status == OverallStatus::Operational ==> r.icon_class@ == "status-icon status-icon--op"@
            && r.icon_svg@
            == "<svg viewBox=\"0 0 24 24\" fill=\"none\" stroke=\"currentColor\" stroke-width=\"2.5\" stroke-linecap=\"round\" stroke-linejoin=\"round\"><path d=\"M20 6L9 17l-5-5\"/></svg>"@,
        status == OverallStatus::Degraded ==> r.icon_class@ == "status-icon status-icon--deg"@
            && r.icon_svg@
            == "<svg viewBox=\"0 0 24 24\" fill=\"none\" stroke=\"currentColor\" stroke-width=\"2.5\" stroke-linecap=\"round\" stroke-linejoin=\"round\"><path d=\"M12 9v4m0 4h.01M10.29 3.86L1.82 18a2 2 0 001.71 3h16.94a2 2 0 001.71-3L13.71 3.86a2 2 0 00-3.42 0z\"/></svg>"@,
        status == OverallStatus::Outage ==> r.icon_class@ == "status-icon status-icon--outage"@
            && r.icon_svg@
            == "<svg viewBox=\"0 0 24 24\" fill=\"none\" stroke=\"currentColor\" stroke-width=\"2.5\" stroke-linecap=\"round\" stroke-linejoin=\"round\"><circle cx=\"12\" cy=\"12\" r=\"10\"/><path d=\"M15 9l-6 6M9 9l6 6\"/></svg>"@,
        status == OverallStatus::Unknown ==> r.icon_class@ == "status-icon status-icon--unknown"@
            && r.icon_svg@
            == "<svg viewBox=\"0 0 24 24\" fill=\"none\" stroke=\"currentColor\" stroke-width=\"2\" stroke-linecap=\"round\" stroke-linejoin=\"round\"><circle cx=\"12\" cy=\"12\" r=\"10\"/><path d=\"M12 16v-4M12 8h.01\"/></svg>"@,
{
}

/// A monitor is shown by its first result, which is the newest, and by the strip of its
/// results; without any there is nothing to show.
pub proof fn law_monitors_are_shown_by_their_newest_result(
    target: Target,
    results: Vec<CheckResult>,
    now: Moment,
    r: TargetStatus,
    strip: (Vec<Option<crate::ui::history::DayState>>, Option<(u32, u32)>),
)
    requires
        call_ensures(target_status, (target, results, now), r),
        call_ensures(crate::ui::history::bucket_into_days, (&results, now), strip),
    ensures
        r.target == target,
        results@.len() == 0 ==> r.latest is None && r.history@.len() == 0 && r.uptime is None,
        results@.len() > 0 ==> r.latest == Some(results@[0]) && r.history@ == strip.0@ && r.uptime
            == strip.1,
{
    if results@.len() > 0 {
        assert(r.history@.len() == strip.0@.len());
        assert forall|i: int| 0 <= i < r.history@.len() implies r.history@[i] == strip.0@[i] by {
            assert(r.history@[i] == crate::ui::history::state_on(
                results@,
                crate::ui::history::first_day(now as int) + i,
            ));
            assert(strip.0@[i] == crate::ui::history::state_on(
                results@,
                crate::ui::history::first_day(now as int) + i,
            ));
        }
        assert(r.history@ =~= strip.0@);
    }
}

/// The kinds of check are named, and so is what they check.
pub proof fn law_checks_are_named(
    check: &CheckSpec,
    label: &'static str,
    address: String,
    digits: String,
)
    requires
        call_ensures(check_type_label, (check,), label),
        call_ensures(check_address, (check,), address),
        *check matches CheckSpec::Tcp { port, .. } ==> call_ensures(
            crate::text::decimal_text,
            (port as u64,),
            digits,
        ),
    ensures
        *check matches CheckSpec::Http { url } ==> label@ == "HTTP"@ && address@ == url@,
        *check matches CheckSpec::Tcp { host, .. } ==> label@ == "TCP"@ && address@ == host@
            + ":"@ + digits@,
        *check matches CheckSpec::Ping { host } ==> label@ == "Ping"@ && address@ == host@,
        *check is Heartbeat ==> label@ == "Heartbeat"@ && address@ == "heartbeat"@,
        *check is DomainExpiry || *check is Other ==> label@ == "Other"@ && address@ == "-"@,
{
}

/// A monitor in a strip is linked, named and shown as its latest check found it, with a
/// cell for each day.
pub proof fn law_rows_show_the_latest_check(
    ts: &TargetStatus,
    percent: &Option<String>,
    now: Moment,
    digits: String,
    r: TargetRow,
)
    requires
        call_ensures(target_status_row, (ts, percent, now), r),
        ts.latest matches Some(c) ==> call_ensures(
            crate::text::decimal_text,
            (c.duration_ms as u64,),
            digits,
        ),
    ensures
        r.href@ == "/targets/"@ + crate::codec::id_text(ts.target.id),
        r.name@ == ts.target.name@,
        ts.latest is None ==> r.status_label@ == "Pending"@ && r.latency_label@ == "—"@,
        ts.latest matches Some(c) ==> {
            &&& c.status == CheckStatus::Up ==> r.status_label@ == "Operational"@
            &&& c.status == CheckStatus::Up && !(ts.target.check is Heartbeat) ==> r.dot_class@
                == "dashboard-dot "@ + "dashboard-dot--up"@
            &&& c.status == CheckStatus::Degraded ==> r.status_label@ == "Degraded"@
                && r.dot_class@ == "dashboard-dot "@ + "dashboard-dot--degraded"@
            &&& c.status == CheckStatus::Down ==> r.status_label@ == "Down"@ && r.dot_class@
                == "dashboard-dot "@ + "dashboard-dot--down"@
            &&& c.status == CheckStatus::Error ==> r.status_label@ == "Error"@ && r.dot_class@
                == "dashboard-dot "@ + "dashboard-dot--error"@
            &&& c.status == CheckStatus::Unknown ==> r.status_label@ == "Unknown"@
            &&& !(ts.target.check is Heartbeat) ==> r.latency_label@ == digits@ + " ms"@
            &&& ts.target.check is Heartbeat ==> r.latency_label@ == "—"@
        },
        *percent matches Some(p) ==> r.uptime_label@ == p@ + "%"@,
        *percent is None ==> r.uptime_label@ == "—"@,
        ts.history@.len() > 0 ==> r.cells@.len() == ts.history@.len(),
        ts.history@.len() == 0 ==> r.cells@.len() == 1 && r.cells@[0].label@ == "No data"@,
{
}

/// Each cell of a strip names its own day, the last of 90 being today, and how it went.
pub proof fn law_cells_stand_for_their_days(
    ts: &TargetStatus,
    percent: &Option<String>,
    now: Moment,
    today: int,
    r: TargetRow,
    i: int,
    begin: Moment,
    date: String,
)
    requires
        call_ensures(target_status_row, (ts, percent, now), r),
        today * 86_400_000_000_000 <= now < (today + 1) * 86_400_000_000_000,
        0 <= i < ts.history@.len(),
        begin == (today - 89 + i) * 86_400_000_000_000,
        call_ensures(crate::time::format_date, (begin, "%Y-%m-%d"), date),
    ensures
        ({
            let c = r.cells@[i];
            match ts.history@[i] {
                None => c.class@ == "day-cell "@ + "day-cell--none"@ && c.label@ == date@ + ": "@
                    + "No data"@,
                Some(crate::ui::history::DayState::Operational) => c.class@ == "day-cell "@
                    + "day-cell--op"@ && c.label@ == date@ + ": "@ + "Operational"@,
                Some(crate::ui::history::DayState::Degraded) => c.class@ == "day-cell "@
                    + "day-cell--deg"@ && c.label@ == date@ + ": "@ + "Degraded"@,
                Some(crate::ui::history::DayState::Partial) => c.class@ == "day-cell "@
                    + "day-cell--part"@ && c.label@ == date@ + ": "@ + "Partial outage"@,
                Some(crate::ui::history::DayState::Major) => c.class@ == "day-cell "@
                    + "day-cell--maj"@ && c.label@ == date@ + ": "@ + "Major outage"@,
            }
        }),
{
    assert(crate::ui::status_page_detail::is_day_cell(
        r.cells@[i],
        crate::ui::history::first_day(now as int) + i,
        ts.history@[i],
    ));
}

/// An incident in a list has its public title, or else its identifier, how bad it is and
/// how far it has come.
pub proof fn law_incidents_are_listed_as_they_are(
    inc: &Incident,
    past: bool,
    date: String,
    r: IncidentRow,
)
    requires
        call_ensures(incident_row, (inc, past), r),
        call_ensures(crate::time::format_date, (inc.started_at, "%Y-%m-%d %H:%M UTC"), date),
    ensures
        inc.public_title matches Some(t) ==> r.title@ == t@,
        inc.public_title is None ==> r.title@ == "Incident "@ + crate::codec::id_text(inc.id),
        inc.severity == IncidentSeverity::Critical ==> r.severity_label@ == "Critical"@
            && r.severity_class@ == "status-badge status-badge--down"@,
        inc.severity == IncidentSeverity::Major ==> r.severity_label@ == "Major"@
            && r.severity_class@ == "status-badge status-badge--degraded"@,
        inc.severity == IncidentSeverity::Minor ==> r.severity_label@ == "Minor"@
            && r.severity_class@ == "status-badge status-badge--pending"@,
        inc.ended_at is Some ==> r.status_label@ == "Resolved"@ && r.status_class@
            == "status-badge status-badge--up"@,
        inc.ended_at is None && inc.status == CheckStatus::Degraded ==> r.status_label@
            == "Investigating"@ && r.status_class@ == "status-badge status-badge--pending"@,
        inc.ended_at is None && inc.status != CheckStatus::Degraded ==> r.status_label@
            == "Ongoing"@ && r.status_class@ == "status-badge status-badge--down"@,
        r.started@ == "Started "@ + date@,
        r.description == inc.public_description,
{
}

/// Incidents that are open are active, those that ended within 30 days are recent, and all
/// of them keep their order; what could not be read is noted, one note for each.
pub proof fn law_pages_show_open_and_recent_incidents(
    page: Result<StatusPage, String>,
    targets: Result<Vec<TargetStatus>, String>,
    incidents: Result<Vec<Incident>, String>,
    history: Result<(), String>,
    now: Moment,
    r: StatusPageView,
)
    requires
        call_ensures(fetch_status_page_view, (page, targets, incidents, history, now), r),
    ensures
        page matches Ok(p) ==> r.page == Some(p),
        page is Err ==> r.page is None,
        targets matches Ok(list) ==> r.targets@ == list@,
        targets is Err ==> r.targets@.len() == 0,
        incidents is Err ==> r.active_incidents@.len() == 0 && r.recent_incidents@.len() == 0,
        incidents matches Ok(list) ==> {
            &&& r.active_incidents@ == list@.filter(|i: Incident| i.ended_at is None)
            &&& r.recent_incidents@ == list@.filter(
                |i: Incident|
                    i.ended_at is Some && now - i.ended_at->0 <= 30 * 86_400 * 1_000_000_000,
            )
        },
        r.errors@.len() == (if page is Err {
            1int
        } else {
            0
        }) + (if targets is Err {
            1int
        } else {
            0
        }) + (if incidents is Err {
            1int
        } else {
            0
        }) + (if history is Err {
            1int
        } else {
            0
        }),
{
    let active = |i: Incident| crate::ui::status_page_detail::is_active(i);
    let open = |i: Incident| i.ended_at is None;
    assert(active =~= open);
    let recent = |i: Incident| crate::ui::status_page_detail::is_recent(i, now as int);
    let late = |i: Incident|
        i.ended_at is Some && now - i.ended_at->0 <= 30 * 86_400 * 1_000_000_000;
    assert(recent =~= late);
    assert(crate::ui::status_page_detail::texts(r.errors@).len() == r.errors@.len());
}

/// A page that could not be read is told as such; any other is shown under its public name,
/// or else its own, with its monitors and incidents.
pub proof fn law_pages_are_shown_under_their_names(view: &StatusPageView, r: PageLayout)
    requires
        call_ensures(status_page_detail_page, (view,), r),
    ensures
        r is Failed <==> view.page is None && view.errors@.len() > 0,
        r matches PageLayout::Shown { heading, warns, has_active, monitors, has_recent, .. } ==> {
            &&& heading is Some <==> view.page is Some
            &&& view.page is Some && view.page->0.branding.public_display_name is Some ==> heading
                is Some && heading->0.display_name@ == view.page->0.branding.public_display_name->0@
            &&& view.page is Some && view.page->0.branding.public_display_name is None ==> heading
                is Some && heading->0.display_name@ == view.page->0.name@
            &&& warns <==> view.errors@.len() > 0
            &&& has_active <==> view.active_incidents@.len() > 0
            &&& has_recent <==> view.recent_incidents@.len() > 0
            &&& monitors == MonitorList::Rows <==> view.targets@.len() > 0
            &&& monitors == MonitorList::Empty <==> view.targets@.len() == 0 && view.errors@.len()
                == 0
        },
{
}

/// A list of what could be read shows a row for each, in order; one that is empty says so,
/// and one that could not be read shows what went wrong and nothing else.
pub proof fn law_lists_show_a_row_for_each(
    incidents: &IncidentsView,
    a: ListPage<IncidentRow>,
    pages: &PagesView,
    b: ListPage<PageRow>,
    targets: &TargetsView,
    c: ListPage<TargetListRow>,
)
    requires
        call_ensures(incident_list_page, (incidents,), a),
        call_ensures(status_page_list_page, (pages,), b),
        call_ensures(targets_list_page, (targets,), c),
    ensures
        a.warning is Some <==> incidents.error is Some,
        incidents.incidents@.len() > 0 ==> (a.body matches ListBody::Rows(rows) && rows@.len()
            == incidents.incidents@.len()),
        incidents.incidents@.len() == 0 ==> (a.body is Hidden <==> incidents.error is Some) && (
        a.body is Empty <==> incidents.error is None),
        b.warning is Some <==> pages.error is Some,
        pages.pages@.len() > 0 ==> (b.body matches ListBody::Rows(rows) && rows@.len()
            == pages.pages@.len()),
        pages.pages@.len() == 0 ==> (b.body is Hidden <==> pages.error is Some) && (b.body is Empty
            <==> pages.error is None),
        c.warning is Some <==> targets.error is Some,
        targets.rows@.len() > 0 ==> (c.body matches ListBody::Rows(rows) && rows@.len()
            == targets.rows@.len()),
        targets.rows@.len() == 0 ==> (c.body is Hidden <==> targets.error is Some) && (c.body
            is Empty <==> targets.error is None),
{
}

/// What a list says where it is empty, and where it could not be read in whole or in part.
pub proof fn law_lists_say_what_is_missing(
    incidents: &IncidentsView,
    a: ListPage<IncidentRow>,
    pages: &PagesView,
    b: ListPage<PageRow>,
    targets: &TargetsView,
    c: ListPage<TargetListRow>,
)
    requires
        call_ensures(incident_list_page, (incidents,), a),
        call_ensures(status_page_list_page, (pages,), b),
        call_ensures(targets_list_page, (targets,), c),
    ensures
        a.warning matches Some(n) ==> n.message@ == incidents.error->0@ && n.title@ == (
        if incidents.incidents@.len() == 0 {
            "Failed to load incidents"@
        } else {
            "Some data could not be loaded"@
        }),
        b.warning matches Some(n) ==> n.message@ == pages.error->0@ && n.title@ == (
        if pages.pages@.len() == 0 {
            "Failed to load status pages"@
        } else {
            "Some data could not be loaded"@
        }),
        c.warning matches Some(n) ==> n.message@ == targets.error->0@ && n.title@ == (
        if targets.rows@.len() == 0 {
            "Failed to load monitors"@
        } else {
            "Some data could not be loaded"@
        }),
        a.body matches ListBody::Empty(n) ==> n.title@ == "All systems operational"@ && n.message@
            == "No incidents have been recorded."@,
        b.body matches ListBody::Empty(n) ==> n.title@ == "No status pages configured"@
            && n.message@ == "Create a status page via the API to publish a public dashboard."@,
        c.body matches ListBody::Empty(n) ==> n.title@ == "No monitors configured"@ && n.message@
            == "Add monitors via the API to start tracking uptime."@,
{
}

/// Incidents in a list are shown one by one, each as it is alone.
pub proof fn law_listed_incidents_are_as_they_are(
    incidents: &IncidentsView,
    r: ListPage<IncidentRow>,
    i: int,
    alone: IncidentRow,
)
    requires
        call_ensures(incident_list_page, (incidents,), r),
        0 <= i < incidents.incidents@.len(),
        call_ensures(incident_row, (&incidents.incidents@[i], true), alone),
    ensures
        r.body matches ListBody::Rows(rows) && {
            &&& rows@[i].title@ == alone.title@
            &&& rows@[i].severity_label@ == alone.severity_label@
            &&& rows@[i].status_label@ == alone.status_label@
            &&& rows@[i].started@ == alone.started@
            &&& rows@[i].description == alone.description
        },
{
    if r.body is Rows {
        let rows = r.body->Rows_0;
        assert(crate::ui::status_page_detail::is_incident_row(
            rows@[i],
            incidents.incidents@[i],
            true,
        ));
    }
}

/// A page in a list is linked, named and marked as it is.
pub proof fn law_listed_pages_are_as_they_are(pages: &PagesView, r: ListPage<PageRow>, i: int)
    requires
        call_ensures(status_page_list_page, (pages,), r),
        0 <= i < pages.pages@.len(),
    ensures
        r.body matches ListBody::Rows(rows) && {
            &&& rows@[i].href@ == "/status-pages/"@ + crate::codec::id_text(pages.pages@[i].id)
            &&& rows@[i].name@ == pages.pages@[i].name@
            &&& rows@[i].slug@ == "/"@ + pages.pages@[i].slug@
            &&& pages.pages@[i].enabled ==> rows@[i].badge.label@ == "Enabled"@
            &&& !pages.pages@[i].enabled ==> rows@[i].badge.label@ == "Disabled"@
        },
{
    if r.body is Rows {
        let rows = r.body->Rows_0;
        assert(crate::ui::lists::is_page_row(rows@[i], pages.pages@[i]));
    }
}

/// A monitor in a list is linked, named and marked as it is, and shown as its latest check
/// found it.
pub proof fn law_listed_monitors_are_as_they_are(
    row: &MonitorRow,
    interval: String,
    digits: String,
    address: String,
    kind: &'static str,
    r: TargetListRow,
)
    requires
        call_ensures(target_list_row, (row,), r),
        call_ensures(crate::text::decimal_text, (row.target.interval_secs,), interval),
        row.latest matches Some(c) ==> call_ensures(
            crate::text::decimal_text,
            (c.duration_ms as u64,),
            digits,
        ),
        call_ensures(check_address, (&row.target.check,), address),
        call_ensures(check_type_label, (&row.target.check,), kind),
    ensures
        r.href@ == "/targets/"@ + crate::codec::id_text(row.target.id),
        r.name@ == row.target.name@,
        r.address@ == address@,
        r.chip@ == kind@,
        r.interval@ == interval@ + "s"@,
        row.target.enabled ==> r.badge.label@ == "Enabled"@,
        !row.target.enabled ==> r.badge.label@ == "Disabled"@,
        row.latest is None ==> r.status_text@ == "No data yet"@ && r.latency_label@ == "—"@,
        row.latest matches Some(c) ==> {
            &&& c.status == CheckStatus::Up ==> r.status_text@ == "Operational"@
            &&& c.status == CheckStatus::Degraded ==> r.status_text@ == "Degraded"@
            &&& c.status == CheckStatus::Down ==> r.status_text@ == "Down"@
            &&& c.status == CheckStatus::Error ==> r.status_text@ == "Error"@
            &&& !(row.target.check is Heartbeat) ==> r.latency_label@ == digits@ + " ms"@
            &&& row.target.check is Heartbeat ==> r.latency_label@ == "—"@
        },
{
}

/// The page of a monitor tells its figures, and its badge goes by the newest result; one
/// that is not there, or could not be read, is told as such.
pub proof fn law_a_monitor_is_shown_by_its_results(
    view: TargetDetailView,
    r: TargetLayout,
    figures: Kpi,
    badge: crate::ui::shell::Badge,
)
    requires
        call_ensures(target_detail_page, (view,), r),
        view.results@.len() > 0 ==> call_ensures(
            crate::ui::shell::check_status_badge,
            (view.results@[0].status,),
            badge,
        ),
        call_ensures(Kpi::from_results, (&view.results,), figures),
    ensures
        r is Failed <==> view.target is None,
        r matches TargetLayout::Failed { may_retry, .. } ==> (may_retry <==> view.error is Some),
        r matches TargetLayout::Shown { warning, name, enabled, badge: b, kpi, points, .. } ==> {
            &&& warning == view.error
            &&& name@ == view.target->0.name@
            &&& view.target->0.enabled ==> enabled@ == "Yes"@
            &&& !view.target->0.enabled ==> enabled@ == "No"@
            &&& view.results@.len() > 0 ==> b.label@ == badge.label@ && b.class@ == badge.class@
            &&& view.results@.len() == 0 ==> b.label@ == "Error"@
            &&& kpi.up == figures.up && kpi.down == figures.down && kpi.total == figures.total
            &&& kpi.p95_ms == figures.p95_ms && kpi.latest_ms == figures.latest_ms
            &&& points@.len() == view.results@.len()
        },
{
}

/// The tiles of a monitor show its figures.
pub proof fn law_tiles_show_the_figures(
    kpi: &Kpi,
    percent: &Option<String>,
    r: KpiGrid,
    up: String,
    degraded: String,
    down: String,
    p95: String,
)
    requires
        call_ensures(kpi_grid, (kpi, percent), r),
        call_ensures(crate::text::decimal_text, (kpi.up as u64,), up),
        call_ensures(crate::text::decimal_text, (kpi.degraded as u64,), degraded),
        call_ensures(crate::text::decimal_text, (kpi.down as u64,), down),
        call_ensures(crate::text::decimal_text, (kpi.p95_ms as u64,), p95),
    ensures
        r.tiles@.len() == 5,
        r.tiles@[0].label@ == "Uptime"@,
        *percent matches Some(p) ==> r.tiles@[0].value@ == p@,
        *percent is None ==> r.tiles@[0].value@ == "—"@,
        r.tiles@[1].label@ == "Up"@ && r.tiles@[1].value@ == up@,
        r.tiles@[2].label@ == "Degraded"@ && r.tiles@[2].value@ == degraded@,
        r.tiles@[3].label@ == "Down"@ && r.tiles@[3].value@ == down@,
        r.tiles@[4].label@ == "p95 latency"@,
        kpi.p95_ms > 0 ==> r.tiles@[4].value@ == p95@ + " ms"@,
        kpi.p95_ms == 0 ==> r.tiles@[4].value@ == "—"@,
        r.tiles@[0].unit@ == "%"@,
        forall|i: int| 1 <= i < 5 ==> (#[trigger] r.tiles@[i]).unit@ == ""@,
        *percent matches Some(p) ==> r.tiles@[0].aria_label@ == p@ + " percent uptime"@,
        *percent is None ==> r.tiles@[0].aria_label@ == "Uptime: no data"@,
        r.tiles@[1].aria_label@ == up@ + " successful checks"@,
        r.tiles@[2].aria_label@ == degraded@ + " degraded checks"@,
        r.tiles@[3].aria_label@ == down@ + " failed checks"@,
        kpi.p95_ms > 0 ==> r.tiles@[4].aria_label@ == "p95 latency "@ + p95@ + " milliseconds"@,
        kpi.p95_ms == 0 ==> r.tiles@[4].aria_label@ == "p95 latency: no data"@,
        kpi.total == 0 ==> r.summary@ == "No check results yet."@,
{
}

/// The line below the tiles counts the checks by how they went, and ends with the latest.
pub proof fn law_the_summary_counts_the_checks(
    kpi: &Kpi,
    percent: &Option<String>,
    r: KpiGrid,
    total: String,
    up: String,
    degraded: String,
    down: String,
    error: String,
    latest: String,
)
    requires
        call_ensures(kpi_grid, (kpi, percent), r),
        call_ensures(crate::text::decimal_text, (kpi.total as u64,), total),
        call_ensures(crate::text::decimal_text, (kpi.up as u64,), up),
        call_ensures(crate::text::decimal_text, (kpi.degraded as u64,), degraded),
        call_ensures(crate::text::decimal_text, (kpi.down as u64,), down),
        call_ensures(crate::text::decimal_text, (kpi.error as u64,), error),
        call_ensures(crate::text::decimal_text, (kpi.latest_ms as u64,), latest),
        kpi.total > 0,
    ensures
        ({
            let head = total@ + " checks · "@ + up@ + " up · "@ + degraded@ + " degraded · "@ + down@
                + " down · "@ + error@ + " error · latest "@;
            &&& kpi.latest_ms > 0 ==> r.summary@ == head + (latest@ + " ms"@)
            &&& kpi.latest_ms == 0 ==> r.summary@ == head + "—"@
        }),
{
}

} // verus!
