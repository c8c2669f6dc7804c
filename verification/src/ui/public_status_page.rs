//! The public status page: its words, classes and marks.

use vstd::prelude::*;
use vstd::string::*;

use crate::domain::{
    DayState, IncidentSeverity, IncidentStatusPhase, OverallState, PublicComponent,
    PublicComponentGroup, PublicComponentStatus, PublicIncident, PublicIncidentUpdate,
};
use crate::text::{decimal_text, owned, signed_decimal_text};
use crate::time::{
    day_of, format_date, start_of_day, whole_units, year_and_month, Moment, DAY, MINUTE,
};

verus! {

/// How long ago `ts` was, in words.
pub open spec fn ago(ts: int, now: int) -> Seq<char> {
    let mins = crate::time::toward_zero(now - ts, MINUTE as int);
    if mins < 1 {
        "just now"@
    } else if mins < 60 {
        crate::text::decimal(mins as nat) + " min ago"@
    } else if mins < 1440 {
        crate::text::decimal((mins / 60) as nat) + "h ago"@
    } else {
        crate::text::decimal((mins / 1440) as nat) + "d ago"@
    }
}

/// How long ago `ts` was, in words. What is yet to come is just now.
pub fn relative_time(ts: Moment, now: Moment) -> (r: String)
    requires
        crate::time::on_calendar(ts as int),
        crate::time::on_calendar(now as int),
    ensures
        r@ == ago(ts as int, now as int),
{
    let mins: i128 = whole_units(now - ts, MINUTE);
    if mins < 1 {
        owned("just now")
    } else if mins < 60 {
        let mut out = decimal_text(mins as u64);
        out.append(" min ago");
        out
    } else if mins < 1440 {
        let mut out = decimal_text((mins / 60) as u64);
        out.append("h ago");
        out
    } else {
        let mut out = decimal_text((mins / 1440) as u64);
        out.append("d ago");
        out
    }
}

/// When a page was last put together, in words.
pub fn updated_label(generated_at: Moment, now: Moment) -> (r: String)
    requires
        crate::time::on_calendar(generated_at as int),
        crate::time::on_calendar(now as int),
    ensures
        r@ == "Updated "@ + ago(generated_at as int, now as int),
{
    let mut out = owned("Updated ");
    out.append(relative_time(generated_at, now).as_str());
    out
}

/// The sign at the head of a page.
#[derive(Clone, Copy, Debug, PartialEq, Eq, Structural)]
pub enum HeroIcon {
    Check,
    Wrench,
    Warning,
    Question,
}

/// The head of a page.
#[derive(Clone, Copy, Debug)]
pub struct Hero {
    pub dot_class: &'static str,
    pub subtitle: &'static str,
    pub icon: HeroIcon,
    /// The class that the section has besides its own, where it has one.
    pub section_class: Option<&'static str>,
}

/// `h` is the head of a page in this state.
pub open spec fn is_hero(h: Hero, state: OverallState) -> bool {
    match state {
        OverallState::Operational => {
            &&& h.dot_class@ == "sp-hero-dot sp-hero-dot--ok"@
            &&& h.subtitle@ == "All services are running normally."@
            &&& h.icon == HeroIcon::Check
            &&& h.section_class matches Some(c) && c@ == "sp-hero--ok"@
        },
        OverallState::Maintenance => {
            &&& h.dot_class@ == "sp-hero-dot sp-hero-dot--maint"@
            &&& h.subtitle@ == "Scheduled maintenance is in progress."@
            &&& h.icon == HeroIcon::Wrench
            &&& h.section_class matches Some(c) && c@ == "sp-hero--maint"@
        },
        OverallState::MinorDisruption => {
            &&& h.dot_class@ == "sp-hero-dot sp-hero-dot--warn"@
            &&& h.subtitle@ == "Some services are experiencing minor issues."@
            &&& h.icon == HeroIcon::Warning
            &&& h.section_class matches Some(c) && c@ == "sp-hero--warn"@
        },
        OverallState::PartialOutage => {
            &&& h.dot_class@ == "sp-hero-dot sp-hero-dot--warn"@
            &&& h.subtitle@ == "Some services are partially degraded."@
            &&& h.icon == HeroIcon::Warning
            &&& h.section_class matches Some(c) && c@ == "sp-hero--warn"@
        },
        OverallState::MajorOutage => {
            &&& h.dot_class@ == "sp-hero-dot sp-hero-dot--bad"@
            &&& h.subtitle@ == "Major service disruption is ongoing."@
            &&& h.icon == HeroIcon::Warning
            &&& h.section_class matches Some(c) && c@ == "sp-hero--bad"@
        },
        OverallState::Unknown => {
            &&& h.dot_class@ == "sp-hero-dot sp-hero-dot--unknown"@
            &&& h.subtitle@ == "System status is being determined."@
            &&& h.icon == HeroIcon::Question
            &&& h.section_class is None
        },
    }
}

/// The head of a page in this state.
pub fn hero_status_banner(state: OverallState) -> (r: Hero)
    ensures
        is_hero(r, state),
{
    match state {
        OverallState::Operational => Hero {
            dot_class: "sp-hero-dot sp-hero-dot--ok",
            subtitle: "All services are running normally.",
            icon: HeroIcon::Check,
            section_class: Some("sp-hero--ok"),
        },
        OverallState::Maintenance => Hero {
            dot_class: "sp-hero-dot sp-hero-dot--maint",
            subtitle: "Scheduled maintenance is in progress.",
            icon: HeroIcon::Wrench,
            section_class: Some("sp-hero--maint"),
        },
        OverallState::MinorDisruption => Hero {
            dot_class: "sp-hero-dot sp-hero-dot--warn",
            subtitle: "Some services are experiencing minor issues.",
            icon: HeroIcon::Warning,
            section_class: Some("sp-hero--warn"),
        },
        OverallState::PartialOutage => Hero {
            dot_class: "sp-hero-dot sp-hero-dot--warn",
            subtitle: "Some services are partially degraded.",
            icon: HeroIcon::Warning,
            section_class: Some("sp-hero--warn"),
        },
        OverallState::MajorOutage => Hero {
            dot_class: "sp-hero-dot sp-hero-dot--bad",
            subtitle: "Major service disruption is ongoing.",
            icon: HeroIcon::Warning,
            section_class: Some("sp-hero--bad"),
        },
        OverallState::Unknown => Hero {
            dot_class: "sp-hero-dot sp-hero-dot--unknown",
            subtitle: "System status is being determined.",
            icon: HeroIcon::Question,
            section_class: None,
        },
    }
}

/// The heading of a group of components.
#[derive(Clone, Debug)]
pub struct GroupHeading {
    pub name: String,
    pub all_operational: bool,
    pub summary: &'static str,
    pub count_label: String,
}

/// Whether all of `components` are operational.
pub open spec fn all_operational(components: Seq<PublicComponent>) -> bool {
    forall|i: int|
        0 <= i < components.len() ==> (#[trigger] components[i]).current_status
            == PublicComponentStatus::Operational
}

/// `h` is the heading of `group`.
pub open spec fn is_group_heading(h: GroupHeading, group: PublicComponentGroup) -> bool {
    let n = group.components@.len();
    &&& h.name@ == match group.name {
        Some(name) => name@,
        None => "Components"@,
    }
    &&& h.all_operational == all_operational(group.components@)
    &&& h.summary@ == if h.all_operational {
        "All operational"@
    } else {
        "Issues detected"@
    }
    &&& h.count_label@ == crate::text::decimal(n) + " "@ + if n == 1 {
        "service"@
    } else {
        "services"@
    }
}

/// The heading of a group of components.
pub fn component_group(group: &PublicComponentGroup) -> (r: GroupHeading)
    ensures
        is_group_heading(r, *group),
{
    let name = match &group.name {
        Some(name) => name.clone(),
        None => owned("Components"),
    };
    let n: usize = group.components.len();
    let mut i: usize = 0;
    while i < n && group.components[i].current_status == PublicComponentStatus::Operational
        invariant
            i <= n,
            n == group.components@.len(),
            forall|j: int|
                0 <= j < i ==> (#[trigger] group.components@[j]).current_status
                    == PublicComponentStatus::Operational,
        decreases n - i,
    {
        i += 1;
    }
    let all_up = i == n;
    let mut count_label = decimal_text(n as u64);
    count_label.append(" ");
    if n == 1 {
        count_label.append("service");
    } else {
        count_label.append("services");
    }
    GroupHeading {
        name,
        all_operational: all_up,
        summary: if all_up {
            "All operational"
        } else {
            "Issues detected"
        },
        count_label,
    }
}

/// The words for a component's status.
pub open spec fn status_words(s: PublicComponentStatus) -> Seq<char> {
    match s {
        PublicComponentStatus::Operational => "Operational"@,
        PublicComponentStatus::Degraded => "Degraded"@,
        PublicComponentStatus::PartialOutage => "Partial Outage"@,
        PublicComponentStatus::MajorOutage => "Major Outage"@,
        PublicComponentStatus::Maintenance => "Maintenance"@,
        PublicComponentStatus::Unknown => "Unknown"@,
    }
}

/// The words for a component's status.
pub fn component_status_label(s: PublicComponentStatus) -> (r: &'static str)
    ensures
        r@ == status_words(s),
{
    match s {
        PublicComponentStatus::Operational => "Operational",
        PublicComponentStatus::Degraded => "Degraded",
        PublicComponentStatus::PartialOutage => "Partial Outage",
        PublicComponentStatus::MajorOutage => "Major Outage",
        PublicComponentStatus::Maintenance => "Maintenance",
        PublicComponentStatus::Unknown => "Unknown",
    }
}

/// What ends the classes for a component's status.
pub open spec fn status_suffix(s: PublicComponentStatus) -> Seq<char> {
    match s {
        PublicComponentStatus::Operational => "op"@,
        PublicComponentStatus::Degraded => "deg"@,
        PublicComponentStatus::PartialOutage => "part"@,
        PublicComponentStatus::MajorOutage => "maj"@,
        PublicComponentStatus::Maintenance => "maint"@,
        PublicComponentStatus::Unknown => "unknown"@,
    }
}

/// What ends the classes for a component's status.
pub fn component_status_class(s: PublicComponentStatus) -> (r: &'static str)
    ensures
        r@ == status_suffix(s),
{
    match s {
        PublicComponentStatus::Operational => "op",
        PublicComponentStatus::Degraded => "deg",
        PublicComponentStatus::PartialOutage => "part",
        PublicComponentStatus::MajorOutage => "maj",
        PublicComponentStatus::Maintenance => "maint",
        PublicComponentStatus::Unknown => "unknown",
    }
}

/// How many of `days` were operational.
pub open spec fn up_days(days: Seq<DayState>) -> nat
    decreases days.len(),
{
    if days.len() == 0 {
        0
    } else {
        up_days(days.drop_last()) + (if days.last() == DayState::Operational {
            1nat
        } else {
            0nat
        })
    }
}

/// Of how many of `days` anything is known.
pub open spec fn known_days(days: Seq<DayState>) -> nat
    decreases days.len(),
{
    if days.len() == 0 {
        0
    } else {
        known_days(days.drop_last()) + (if days.last() == DayState::NoData {
            0nat
        } else {
            1nat
        })
    }
}

/// No more days were operational than are known, and no more are known than there
/// are.
pub proof fn law_uptime_days_are_known_days(days: Seq<DayState>)
    ensures
        up_days(days) <= known_days(days) <= days.len(),
    decreases days.len(),
{
    if days.len() > 0 {
        law_uptime_days_are_known_days(days.drop_last());
    }
}

/// A day of which nothing is known changes nothing about the uptime.
pub proof fn law_unknown_days_do_not_count(days: Seq<DayState>)
    ensures
        up_days(days.push(DayState::NoData)) == up_days(days),
        known_days(days.push(DayState::NoData)) == known_days(days),
{
    assert(days.push(DayState::NoData).drop_last() =~= days);
}

/// Counts the operational days, and those of which anything is known.
pub fn uptime_days(days: &Vec<DayState>) -> (r: (usize, usize))
    ensures
        r.0 == up_days(days@),
        r.1 == known_days(days@),
        r.0 <= r.1 <= days@.len(),
{
    let mut up: usize = 0;
    let mut known: usize = 0;
    let mut i: usize = 0;
    while i < days.len()
        invariant
            i <= days.len(),
            up == up_days(days@.take(i as int)),
            known == known_days(days@.take(i as int)),
            up <= known <= i,
        decreases days.len() - i,
    {
        let ghost next = days@.take(i + 1);
        assert(next.last() == days@[i as int]);
        assert(next.drop_last() =~= days@.take(i as int));
        let day = days[i];
        if day == DayState::Operational {
            up += 1;
        }
        if day != DayState::NoData {
            known += 1;
        }
        i += 1;
    }
    assert(days@.take(i as int) =~= days@);
    (up, known)
}

/// The uptime in words: nothing known is a dash, and as good as all is all.
/// `percent` is the figure, to two places.
pub open spec fn uptime_words(up: nat, known: nat, percent: Seq<char>) -> Seq<char> {
    if known == 0 {
        "—"@
    } else if up * 10_000 >= known * 9_999 {
        "100%"@
    } else {
        percent + "%"@
    }
}

/// A component, as it is shown.
#[derive(Clone, Debug)]
pub struct ComponentRow {
    pub dot_class: String,
    pub badge_class: String,
    pub status_label: &'static str,
    pub uptime_label: String,
}

/// Shows a component. `percent` is the figure of its uptime, to two places.
pub fn component_row(component: &PublicComponent, percent: &str) -> (r: ComponentRow)
    ensures
        r.dot_class@ == "sp-comp-dot sp-comp-dot--"@ + status_suffix(component.current_status),
        r.badge_class@ == "sp-comp-badge sp-comp-badge--"@ + status_suffix(
            component.current_status,
        ),
        r.status_label@ == status_words(component.current_status),
        r.uptime_label@ == uptime_words(
            up_days(component.history@),
            known_days(component.history@),
            percent@,
        ),
{
    let class = component_status_class(component.current_status);
    let mut dot_class = owned("sp-comp-dot sp-comp-dot--");
    dot_class.append(class);
    let mut badge_class = owned("sp-comp-badge sp-comp-badge--");
    badge_class.append(class);
    let (up, known) = uptime_days(&component.history);
    let uptime_label = if known == 0 {
        owned("—")
    } else if (up as u128) * 10_000 >= (known as u128) * 9_999 {
        owned("100%")
    } else {
        let mut words = owned(percent);
        words.append("%");
        words
    };
    ComponentRow {
        dot_class,
        badge_class,
        status_label: component_status_label(component.current_status),
        uptime_label,
    }
}

/// The class for a day.
pub open spec fn day_class(state: DayState) -> Seq<char> {
    match state {
        DayState::Operational => "sp-bar--op"@,
        DayState::Degraded => "sp-bar--deg"@,
        DayState::PartialOutage => "sp-bar--part"@,
        DayState::MajorOutage => "sp-bar--maj"@,
        DayState::Maintenance => "sp-bar--maint"@,
        DayState::NoData => "sp-bar--none"@,
        DayState::Unknown => "sp-bar--none"@,
    }
}

/// The class for a day.
pub fn day_cell_class(state: DayState) -> (r: &'static str)
    ensures
        r@ == day_class(state),
{
    match state {
        DayState::Operational => "sp-bar--op",
        DayState::Degraded => "sp-bar--deg",
        DayState::PartialOutage => "sp-bar--part",
        DayState::MajorOutage => "sp-bar--maj",
        DayState::Maintenance => "sp-bar--maint",
        DayState::NoData => "sp-bar--none",
        DayState::Unknown => "sp-bar--none",
    }
}

/// The words for a day.
pub open spec fn day_words(state: DayState) -> Seq<char> {
    match state {
        DayState::Operational => "Operational"@,
        DayState::Degraded => "Degraded performance"@,
        DayState::PartialOutage => "Partial outage"@,
        DayState::MajorOutage => "Major outage"@,
        DayState::Maintenance => "Maintenance"@,
        DayState::NoData => "No data"@,
        DayState::Unknown => "Unknown"@,
    }
}

/// The words for a day.
pub fn day_label(state: DayState) -> (r: &'static str)
    ensures
        r@ == day_words(state),
{
    match state {
        DayState::Operational => "Operational",
        DayState::Degraded => "Degraded performance",
        DayState::PartialOutage => "Partial outage",
        DayState::MajorOutage => "Major outage",
        DayState::Maintenance => "Maintenance",
        DayState::NoData => "No data",
        DayState::Unknown => "Unknown",
    }
}

/// One day of the grid, as it is shown.
#[derive(Clone, Debug)]
pub struct Bar {
    pub class: String,
    pub tooltip: String,
}

/// The grid of days of a component.
#[derive(Clone, Debug)]
pub struct UptimeGrid {
    pub bars: Vec<Bar>,
    /// The dates below it.
    pub axis: Vec<String>,
}

/// The first day of a grid of `total` days that ends on the day of `generated_at`.
pub open spec fn grid_start(total: nat, generated_at: int) -> int {
    crate::time::day_number(generated_at) - (if total == 0 {
        0
    } else {
        total - 1
    })
}

/// `b` shows how the day `day` went.
pub open spec fn is_bar(b: Bar, day: int, state: DayState) -> bool {
    &&& b.class@ == "sp-uptime-bar "@ + day_class(state)
    &&& b.tooltip@ == crate::time::patterned_date_of(day * DAY, "%B %-d, %Y"@) + " • "@
        + day_words(state)
}

/// The date of a day, as it stands below a grid.
pub open spec fn axis_date(t: int) -> Seq<char> {
    crate::time::patterned_date_of(t, "%b %-d"@)
}

/// Whether all the days that a grid names have a calendar date.
pub open spec fn grid_on_calendar(total: nat, generated_at: int) -> bool {
    &&& crate::time::on_calendar(generated_at)
    &&& crate::time::on_calendar(grid_start(total, generated_at) * DAY)
    &&& crate::time::on_calendar((grid_start(total, generated_at) + 60) * DAY)
}

/// The second at which a day begins, and what that says of days with a calendar
/// date.
proof fn lemma_day_seconds(day: int)
    ensures
        (day * DAY) / (crate::time::SECOND as int) == day * 86_400,
        crate::time::on_calendar(day * DAY) <==> crate::time::FIRST_SECOND <= day * 86_400
            <= crate::time::LAST_SECOND,
{
    assert(day * DAY == (day * 86_400) * crate::time::SECOND) by (nonlinear_arith)
        requires
            DAY == 86_400_000_000_000,
            crate::time::SECOND == 1_000_000_000,
    ;
    vstd::arithmetic::div_mod::lemma_div_multiples_vanish(
        day * 86_400,
        crate::time::SECOND as int,
    );
    vstd::arithmetic::mul::lemma_mul_is_commutative(day * 86_400, crate::time::SECOND as int);
}

/// The day of a moment begins no later than the moment.
proof fn lemma_day_begins(t: int)
    ensures
        crate::time::day_number(t) * 86_400 <= t / (crate::time::SECOND as int),
{
    let d = crate::time::day_number(t);
    vstd::arithmetic::div_mod::lemma_fundamental_div_mod(t, DAY as int);
    assert(d * DAY <= t) by (nonlinear_arith)
        requires
            t == DAY * (t / (DAY as int)) + t % (DAY as int),
            d == t / (DAY as int),
            0 <= t % (DAY as int),
    ;
    lemma_day_seconds(d);
    vstd::arithmetic::div_mod::lemma_div_is_ordered(d * DAY, t, crate::time::SECOND as int);
}

/// Shows one day.
fn bar(day: i64, state: DayState) -> (r: Bar)
    requires
        crate::time::on_calendar(day * DAY),
    ensures
        is_bar(r, day as int, state),
{
    let mut class = owned("sp-uptime-bar ");
    class.append(day_cell_class(state));
    let mut tooltip = format_date(start_of_day(day), "%B %-d, %Y");
    tooltip.append(" • ");
    tooltip.append(day_label(state));
    Bar { class, tooltip }
}

/// Shows the days of a component, of which the last is that of `generated_at`.
pub fn uptime_grid(history: &Vec<DayState>, generated_at: Moment) -> (r: UptimeGrid)
    requires
        grid_on_calendar(history@.len(), generated_at as int),
    ensures
        r.bars@.len() == history@.len(),
        forall|i: int|
            0 <= i < r.bars@.len() ==> is_bar(
                #[trigger] r.bars@[i],
                grid_start(history@.len(), generated_at as int) + i,
                history@[i],
            ),
        ({
            let start = grid_start(history@.len(), generated_at as int);
            &&& r.axis@.len() == 4
            &&& r.axis@[0]@ == axis_date(start * DAY)
            &&& r.axis@[1]@ == axis_date((start + 30) * DAY)
            &&& r.axis@[2]@ == axis_date((start + 60) * DAY)
            &&& r.axis@[3]@ == axis_date(generated_at as int)
        }),
{
    let today: i64 = day_of(generated_at);
    let total: usize = history.len();
    let ghost start_day = grid_start(history@.len(), generated_at as int);
    proof {
        lemma_day_seconds(start_day);
        lemma_day_seconds(start_day + 30);
        lemma_day_seconds(start_day + 60);
        lemma_day_begins(generated_at as int);
    }
    let back: usize = if total == 0 {
        0
    } else {
        total - 1
    };
    let start: i64 = today - back as i64;
    let mut bars: Vec<Bar> = Vec::new();
    let mut i: usize = 0;
    while i < total
        invariant
            i <= total,
            total == history@.len(),
            start == start_day,
            start_day == grid_start(history@.len(), generated_at as int),
            today == crate::time::day_number(generated_at as int),
            today - start < 1_000_000_000,
            crate::time::on_calendar(generated_at as int),
            crate::time::on_calendar(start_day * DAY),
            crate::time::FIRST_SECOND <= start_day * 86_400,
            today * 86_400 <= crate::time::LAST_SECOND,
            bars@.len() == i,
            forall|k: int|
                0 <= k < i ==> is_bar(#[trigger] bars@[k], start_day + k, history@[k]),
        decreases total - i,
    {
        let day: i64 = start + i as i64;
        proof {
            lemma_day_seconds(day as int);
        }
        bars.push(bar(day, history[i]));
        i += 1;
    }
    let mut axis: Vec<String> = Vec::new();
    axis.push(format_date(start_of_day(start), "%b %-d"));
    axis.push(format_date(start_of_day(start + 30), "%b %-d"));
    axis.push(format_date(start_of_day(start + 60), "%b %-d"));
    axis.push(format_date(generated_at, "%b %-d"));
    UptimeGrid { bars, axis }
}

/// How many incidents are open, in words.
pub fn ongoing_label(count: usize) -> (r: String)
    ensures
        r@ == crate::text::decimal(count as nat) + " ongoing"@,
{
    let mut out = decimal_text(count as u64);
    out.append(" ongoing");
    out
}

/// The name of a month; a number beyond the calendar is taken for the nearest in it.
pub open spec fn month_words(m: int) -> Seq<char> {
    if m <= 1 {
        "January"@
    } else if m == 2 {
        "February"@
    } else if m == 3 {
        "March"@
    } else if m == 4 {
        "April"@
    } else if m == 5 {
        "May"@
    } else if m == 6 {
        "June"@
    } else if m == 7 {
        "July"@
    } else if m == 8 {
        "August"@
    } else if m == 9 {
        "September"@
    } else if m == 10 {
        "October"@
    } else if m == 11 {
        "November"@
    } else {
        "December"@
    }
}

/// The name of a month of a year.
pub fn month_name(y: i32, m: u32) -> (r: String)
    ensures
        r@ == month_words(m as int) + " "@ + crate::text::signed_decimal(y as int),
{
    let name = if m <= 1 {
        "January"
    } else if m == 2 {
        "February"
    } else if m == 3 {
        "March"
    } else if m == 4 {
        "April"
    } else if m == 5 {
        "May"
    } else if m == 6 {
        "June"
    } else if m == 7 {
        "July"
    } else if m == 8 {
        "August"
    } else if m == 9 {
        "September"
    } else if m == 10 {
        "October"
    } else if m == 11 {
        "November"
    } else {
        "December"
    };
    let mut out = owned(name);
    out.append(" ");
    out.append(signed_decimal_text(y as i64).as_str());
    out
}

/// An incident and the month in which it began.
#[derive(Clone, Debug)]
pub struct DatedIncident {
    pub year: i32,
    pub month: u32,
    pub incident: PublicIncident,
}

/// The incidents that began in one month.
#[derive(Clone, Debug)]
pub struct MonthGroup {
    pub year: i32,
    pub month: u32,
    pub incidents: Vec<DatedIncident>,
}

/// The year and the month that an incident is dated by.
pub open spec fn dated_month(i: DatedIncident) -> (int, int) {
    (i.year as int, i.month as int)
}

/// The year and the month in which an incident began.
pub open spec fn month_of(inc: PublicIncident) -> (int, int) {
    let secs = inc.started_at as int / (crate::time::SECOND as int);
    (crate::time::calendar_year(secs), crate::time::calendar_month(secs))
}

/// The year and the month of a group.
pub open spec fn group_month(g: MonthGroup) -> (int, int) {
    (g.year as int, g.month as int)
}

/// Whether the month `a` comes after the month `b`.
pub open spec fn later(a: (int, int), b: (int, int)) -> bool {
    a.0 > b.0 || (a.0 == b.0 && a.1 > b.1)
}

/// Those of `incidents` that began in a month, in order.
pub open spec fn of_month(incidents: Seq<DatedIncident>, month: (int, int)) -> Seq<DatedIncident> {
    incidents.filter(|i: DatedIncident| dated_month(i) == month)
}

/// Whether some group is that of a month.
pub open spec fn has_month(groups: Seq<MonthGroup>, month: (int, int)) -> bool {
    exists|k: int| 0 <= k < groups.len() && group_month(#[trigger] groups[k]) == month
}

/// Whether `groups` hold `incidents` by month: the latest month first and each month
/// once, every incident in the group of its month, and nothing else.
pub open spec fn is_grouping(groups: Seq<MonthGroup>, incidents: Seq<DatedIncident>) -> bool {
    &&& forall|a: int, b: int|
        0 <= a < b < groups.len() ==> later(
            group_month(#[trigger] groups[a]),
            group_month(#[trigger] groups[b]),
        )
    &&& forall|k: int|
        0 <= k < groups.len() ==> (#[trigger] groups[k]).incidents@.len() > 0
            && groups[k].incidents@ == of_month(incidents, group_month(groups[k]))
    &&& forall|i: int|
        0 <= i < incidents.len() ==> has_month(groups, dated_month(#[trigger] incidents[i]))
}

/// No incident of a month without a group has been met.
proof fn lemma_new_month(groups: Seq<MonthGroup>, incidents: Seq<DatedIncident>, month: (int, int))
    requires
        is_grouping(groups, incidents),
        !has_month(groups, month),
    ensures
        of_month(incidents, month) =~= Seq::<DatedIncident>::empty(),
{
    let keep = |i: DatedIncident| dated_month(i) == month;
    let found = of_month(incidents, month);
    if found.len() > 0 {
        incidents.lemma_filter_pred(keep, 0);
        assert(found.contains(found[0]));
        incidents.lemma_filter_contains_rev(keep, found[0]);
        let j = choose|j: int| 0 <= j < incidents.len() && incidents[j] == found[0];
        assert(has_month(groups, dated_month(incidents[j])));
        assert(false);
    }
}

/// Groups incidents by the month in which they began, the latest month first.
pub fn group_by_month(incidents: Vec<DatedIncident>) -> (r: Vec<MonthGroup>)
    ensures
        is_grouping(r@, incidents@),
{
    let ghost all = incidents@;
    let mut rest = incidents;
    let mut groups: Vec<MonthGroup> = Vec::new();
    let ghost mut n: int = 0;
    while rest.len() > 0
        invariant
            0 <= n <= all.len(),
            rest@ == all.skip(n),
            is_grouping(groups@, all.take(n)),
        decreases rest.len(),
    {
        let inc = rest.remove(0);
        assert(inc == all[n]);
        let y: i32 = inc.year;
        let m: u32 = inc.month;
        let ghost month = dated_month(inc);
        let mut k: usize = 0;
        while k < groups.len() && (groups[k].year > y || (groups[k].year == y && groups[k].month
            > m))
            invariant
                k <= groups.len(),
                month == (y as int, m as int),
                forall|j: int| 0 <= j < k ==> later(group_month(#[trigger] groups@[j]), month),
            decreases groups.len() - k,
        {
            k += 1;
        }
        let ghost before = groups@;
        let ghost seen = all.take(n);
        let ghost next = all.take(n + 1);
        proof {
            assert(next.last() == inc);
            assert(next.drop_last() =~= seen);
            assert forall|month2: (int, int)| #[trigger] of_month(next, month2) == (if dated_month(inc)
                == month2 {
                of_month(seen, month2).push(inc)
            } else {
                of_month(seen, month2)
            }) by {
                crate::public::incident::lemma_filter_next(
                    all,
                    |i: DatedIncident| dated_month(i) == month2,
                    n,
                );
            }
        }
        if k < groups.len() && groups[k].year == y && groups[k].month == m {
            let mut g = groups.remove(k);
            g.incidents.push(inc);
            groups.insert(k, g);
            proof {
                assert(forall|j: int| 0 <= j < before.len() ==> group_month(#[trigger] groups@[j])
                    == group_month(before[j]));
                assert forall|j: int| 0 <= j < groups@.len() implies (#[trigger] groups@[j])
                    .incidents@.len() > 0 && groups@[j].incidents@ == of_month(
                    next,
                    group_month(groups@[j]),
                ) by {
                    if j != k {
                        assert(groups@[j] == before[j]);
                    }
                }
                assert forall|i: int| 0 <= i < next.len() implies has_month(
                    groups@,
                    dated_month(#[trigger] next[i]),
                ) by {
                    if i < n {
                        assert(seen[i] == next[i]);
                        let j = choose|j: int|
                            0 <= j < before.len() && group_month(#[trigger] before[j]) == dated_month(
                                seen[i],
                            );
                        assert(group_month(groups@[j]) == dated_month(next[i]));
                    } else {
                        assert(group_month(groups@[k as int]) == month);
                    }
                }
            }
        } else {
            proof {
                if has_month(before, month) {
                    let j = choose|j: int|
                        0 <= j < before.len() && group_month(#[trigger] before[j]) == month;
                    if j > k {
                        assert(later(group_month(before[k as int]), group_month(before[j])));
                    }
                    assert(false);
                }
                lemma_new_month(before, seen, month);
            }
            let mut first: Vec<DatedIncident> = Vec::new();
            first.push(inc);
            groups.insert(k, MonthGroup { year: y, month: m, incidents: first });
            proof {
                assert(groups@[k as int].incidents@ =~= of_month(next, month));
                assert(forall|j: int| 0 <= j < k ==> #[trigger] groups@[j] == before[j]);
                assert(forall|j: int|
                    k < j < groups@.len() ==> #[trigger] groups@[j] == before[j - 1]);
                if k < before.len() {
                    assert(later(month, group_month(before[k as int])));
                }
                assert forall|a: int, b: int| 0 <= a < b < groups@.len() implies later(
                    group_month(#[trigger] groups@[a]),
                    group_month(#[trigger] groups@[b]),
                ) by {
                    if b == k {
                        assert(groups@[a] == before[a]);
                    } else if a == k {
                        assert(groups@[b] == before[b - 1]);
                        if b - 1 > k {
                            assert(later(
                                group_month(before[k as int]),
                                group_month(before[b - 1]),
                            ));
                        }
                    } else if b < k {
                        assert(later(group_month(before[a]), group_month(before[b])));
                    } else if a < k {
                        assert(later(group_month(before[a]), group_month(before[b - 1])));
                    } else {
                        assert(later(group_month(before[a - 1]), group_month(before[b - 1])));
                    }
                }
                assert forall|j: int| 0 <= j < groups@.len() implies (#[trigger] groups@[j])
                    .incidents@.len() > 0 && groups@[j].incidents@ == of_month(
                    next,
                    group_month(groups@[j]),
                ) by {
                    if j < k {
                        assert(has_month(before, group_month(before[j])));
                    } else if j > k {
                        assert(has_month(before, group_month(before[j - 1])));
                    }
                }
                assert forall|i: int| 0 <= i < next.len() implies has_month(
                    groups@,
                    dated_month(#[trigger] next[i]),
                ) by {
                    if i < n {
                        assert(seen[i] == next[i]);
                        let j = choose|j: int|
                            0 <= j < before.len() && group_month(#[trigger] before[j]) == dated_month(
                                seen[i],
                            );
                        if j < k {
                            assert(groups@[j] == before[j]);
                        } else {
                            assert(groups@[j + 1] == before[j]);
                        }
                    } else {
                        assert(group_month(groups@[k as int]) == month);
                    }
                }
            }
        }
        proof {
            n = n + 1;
        }
        assert(rest@ =~= all.skip(n));
    }
    assert(all.take(n) =~= all);
    groups
}

/// Incidents with the months in which they began.
pub open spec fn dated(incidents: Seq<PublicIncident>) -> Seq<DatedIncident> {
    incidents.map_values(
        |i: PublicIncident|
            DatedIncident {
                year: month_of(i).0 as i32,
                month: month_of(i).1 as u32,
                incident: i,
            },
    )
}

/// Groups incidents by the calendar month in which they began, the latest month first.
pub fn past_incidents(incidents: Vec<PublicIncident>) -> (r: Vec<MonthGroup>)
    requires
        forall|i: int|
            0 <= i < incidents@.len() ==> crate::time::on_calendar(
                (#[trigger] incidents@[i]).started_at as int,
            ),
    ensures
        is_grouping(r@, dated(incidents@)),
{
    let ghost all = incidents@;
    let mut rest = incidents;
    let mut out: Vec<DatedIncident> = Vec::new();
    while rest.len() > 0
        invariant
            out@.len() + rest@.len() == all.len(),
            rest@ == all.skip(out@.len() as int),
            forall|i: int|
                0 <= i < all.len() ==> crate::time::on_calendar(
                    (#[trigger] all[i]).started_at as int,
                ),
            out@ == dated(all.take(out@.len() as int)),
        decreases rest.len(),
    {
        let incident = rest.remove(0);
        let ghost n = out@.len() as int;
        assert(incident == all[n]);
        let (year, month) = year_and_month(incident.started_at);
        out.push(DatedIncident { year, month, incident });
        assert(out@ =~= dated(all.take(n + 1)));
        assert(rest@ =~= all.skip(n + 1));
    }
    assert(all.take(out@.len() as int) =~= all);
    group_by_month(out)
}

/// What ends the classes for a severity.
pub open spec fn severity_suffix(s: IncidentSeverity) -> Seq<char> {
    match s {
        IncidentSeverity::Critical => "crit"@,
        IncidentSeverity::Major => "maj"@,
        IncidentSeverity::Minor => "min"@,
        IncidentSeverity::Unknown => "unknown"@,
    }
}

/// The words for a severity.
pub open spec fn severity_words(s: IncidentSeverity) -> Seq<char> {
    match s {
        IncidentSeverity::Critical => "Critical"@,
        IncidentSeverity::Major => "Major"@,
        IncidentSeverity::Minor => "Minor"@,
        IncidentSeverity::Unknown => "Unknown"@,
    }
}

/// The words for a severity.
pub fn severity_label(s: IncidentSeverity) -> (r: &'static str)
    ensures
        r@ == severity_words(s),
{
    match s {
        IncidentSeverity::Critical => "Critical",
        IncidentSeverity::Major => "Major",
        IncidentSeverity::Minor => "Minor",
        IncidentSeverity::Unknown => "Unknown",
    }
}

/// An incident, as it is shown.
#[derive(Clone, Debug)]
pub struct IncidentCard {
    pub article_class: String,
    pub severity_class: String,
    pub severity_label: &'static str,
    pub date: String,
}

/// Shows an incident.
pub fn incident_card(incident: &PublicIncident) -> (r: IncidentCard)
    requires
        crate::time::on_calendar(incident.started_at as int),
    ensures
        r.article_class@ == "sp-incident sp-incident--"@ + severity_suffix(incident.severity),
        r.severity_class@ == "sp-severity sp-severity--"@ + severity_suffix(incident.severity),
        r.severity_label@ == severity_words(incident.severity),
        r.date@ == crate::time::patterned_date_of(incident.started_at as int, "%b %-d, %Y"@),
{
    let suffix = match incident.severity {
        IncidentSeverity::Critical => "crit",
        IncidentSeverity::Major => "maj",
        IncidentSeverity::Minor => "min",
        IncidentSeverity::Unknown => "unknown",
    };
    let mut article_class = owned("sp-incident sp-incident--");
    article_class.append(suffix);
    let mut severity_class = owned("sp-severity sp-severity--");
    severity_class.append(suffix);
    IncidentCard {
        article_class,
        severity_class,
        severity_label: severity_label(incident.severity),
        date: format_date(incident.started_at, "%b %-d, %Y"),
    }
}

/// The words for a phase.
pub open spec fn phase_words(p: IncidentStatusPhase) -> Seq<char> {
    match p {
        IncidentStatusPhase::Investigating => "Investigating"@,
        IncidentStatusPhase::Identified => "Identified"@,
        IncidentStatusPhase::Monitoring => "Monitoring"@,
        IncidentStatusPhase::Resolved => "Resolved"@,
        IncidentStatusPhase::Postmortem => "Postmortem"@,
        IncidentStatusPhase::Unknown => "Unknown"@,
    }
}

/// The words for a phase.
pub fn phase_label(p: IncidentStatusPhase) -> (r: &'static str)
    ensures
        r@ == phase_words(p),
{
    match p {
        IncidentStatusPhase::Investigating => "Investigating",
        IncidentStatusPhase::Identified => "Identified",
        IncidentStatusPhase::Monitoring => "Monitoring",
        IncidentStatusPhase::Resolved => "Resolved",
        IncidentStatusPhase::Postmortem => "Postmortem",
        IncidentStatusPhase::Unknown => "Unknown",
    }
}

/// The class and the sign of a phase.
pub open spec fn phase_marks(p: IncidentStatusPhase) -> (Seq<char>, Seq<char>) {
    match p {
        IncidentStatusPhase::Investigating => ("invest"@, "🔍"@),
        IncidentStatusPhase::Identified => ("ident"@, "🎯"@),
        IncidentStatusPhase::Monitoring => ("mon"@, "👁"@),
        IncidentStatusPhase::Resolved => ("resolved"@, "✓"@),
        IncidentStatusPhase::Postmortem => ("pm"@, "📋"@),
        IncidentStatusPhase::Unknown => ("unknown"@, "?"@),
    }
}

/// The class and the sign of a phase.
pub fn phase_visual(p: IncidentStatusPhase) -> (r: (&'static str, &'static str))
    ensures
        (r.0@, r.1@) == phase_marks(p),
{
    match p {
        IncidentStatusPhase::Investigating => ("invest", "🔍"),
        IncidentStatusPhase::Identified => ("ident", "🎯"),
        IncidentStatusPhase::Monitoring => ("mon", "👁"),
        IncidentStatusPhase::Resolved => ("resolved", "✓"),
        IncidentStatusPhase::Postmortem => ("pm", "📋"),
        IncidentStatusPhase::Unknown => ("unknown", "?"),
    }
}

/// One entry of a timeline, as it is shown.
#[derive(Clone, Debug)]
pub struct TimelineEntry {
    pub marker_class: String,
    pub icon: &'static str,
    pub phase_class: String,
    pub phase_label: &'static str,
    pub time: String,
}

/// Shows one entry of a timeline.
pub fn timeline_entry(update: &PublicIncidentUpdate) -> (r: TimelineEntry)
    requires
        crate::time::on_calendar(update.posted_at as int),
    ensures
        r.marker_class@ == "sp-timeline-marker "@ + phase_marks(update.phase).0,
        r.icon@ == phase_marks(update.phase).1,
        r.phase_class@ == "sp-phase sp-phase--"@ + phase_marks(update.phase).0,
        r.phase_label@ == phase_words(update.phase),
        r.time@ == crate::time::patterned_date_of(update.posted_at as int, "%b %-d, %H:%M UTC"@),
{
    let (class, icon) = phase_visual(update.phase);
    let mut marker_class = owned("sp-timeline-marker ");
    marker_class.append(class);
    let mut phase_class = owned("sp-phase sp-phase--");
    phase_class.append(class);
    TimelineEntry {
        marker_class,
        icon,
        phase_class,
        phase_label: phase_label(update.phase),
        time: format_date(update.posted_at, "%b %-d, %H:%M UTC"),
    }
}

/// Every incident is shown under the month in which it began, once.
pub proof fn law_months_hold_all_incidents(
    groups: Seq<MonthGroup>,
    incidents: Seq<DatedIncident>,
    i: int,
)
    requires
        is_grouping(groups, incidents),
        0 <= i < incidents.len(),
    ensures
        exists|k: int|
            0 <= k < groups.len() && group_month(#[trigger] groups[k]) == dated_month(incidents[i])
                && groups[k].incidents@.contains(incidents[i]),
{
    let month = dated_month(incidents[i]);
    assert(has_month(groups, month));
    let k = choose|k: int| 0 <= k < groups.len() && group_month(#[trigger] groups[k]) == month;
    let keep = |x: DatedIncident| dated_month(x) == month;
    assert(incidents.contains(incidents[i]));
    incidents.lemma_filter_contains(keep, i);
    assert(groups[k].incidents@ == of_month(incidents, month));
    assert(groups[k].incidents@.contains(incidents[i]));
}

} // verus!
