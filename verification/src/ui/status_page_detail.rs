//! The page of one status page: what it shows of its monitors and incidents.

use vstd::prelude::*;
use vstd::string::*;

use crate::codec::{parse_id, uuid_text, Id, NIL};
use crate::domain::{
    copy_text, CheckResult, CheckSpec, CheckStatus, Incident, IncidentSeverity, StatusPage, Target,
};
use crate::text::{decimal_text, owned};
use crate::time::{day_of, format_date, start_of_day, Moment, DAY};
use crate::ui::history::{bucket_into_days, DayState};

verus! {

/// A monitor and how it is doing.
#[derive(Clone, Debug)]
pub struct TargetStatus {
    pub target: Target,
    pub latest: Option<CheckResult>,
    /// One state a day, the oldest first; empty where nothing was ever checked.
    pub history: Vec<Option<DayState>>,
    /// Of so many results, how many were up: first those, then all.
    pub uptime: Option<(u32, u32)>,
}

/// `s` is how `target` is doing by these results, of which the newest come first.
pub open spec fn is_target_status(
    s: TargetStatus,
    target: Target,
    results: Seq<CheckResult>,
    now: int,
) -> bool {
    &&& s.target == target
    &&& if results.len() == 0 {
        s.latest is None && s.history@.len() == 0 && s.uptime is None
    } else {
        &&& s.latest == Some(results[0])
        &&& s.history@.len() == crate::ui::history::HISTORY_DAYS
        &&& forall|i: int|
            0 <= i < s.history@.len() ==> #[trigger] s.history@[i] == crate::ui::history::state_on(
                results,
                crate::ui::history::first_day(now) + i,
            )
        &&& crate::ui::history::uptime_within(results, now) == match s.uptime {
            Some(share) => Some((share.0 as int, share.1 as int)),
            None => None,
        }
    }
}

/// How a target is doing by its last results, of which the newest come first.
pub fn target_status(target: Target, results: Vec<CheckResult>, now: Moment) -> (r: TargetStatus)
    requires
        results@.len() <= u32::MAX,
        crate::time::on_calendar(now as int),
        forall|i: int|
            0 <= i < results@.len() ==> crate::time::on_calendar(
                (#[trigger] results@[i]).timestamp as int,
            ),
    ensures
        is_target_status(r, target, results@, now as int),
{
    let (days, uptime) = bucket_into_days(&results, now);
    if results.len() == 0 {
        return TargetStatus { target, latest: None, history: Vec::new(), uptime };
    }
    let mut all = results;
    let first = all.remove(0);
    TargetStatus { target, latest: Some(first), history: days, uptime }
}

/// What a page as a whole is said to be.
#[derive(Clone, Copy, Debug, PartialEq, Eq, Structural)]
pub enum OverallStatus {
    Operational,
    Degraded,
    Outage,
    Unknown,
}

/// Whether any incident has this severity.
pub open spec fn any_severity(incidents: Seq<Incident>, severity: IncidentSeverity) -> bool {
    exists|i: int| 0 <= i < incidents.len() && (#[trigger] incidents[i]).severity == severity
}

/// Whether any monitor was last found down, or failed to be checked.
pub open spec fn any_down(targets: Seq<TargetStatus>) -> bool {
    exists|i: int|
        0 <= i < targets.len() && ((#[trigger] targets[i]).latest matches Some(r) && (r.status
            == CheckStatus::Down || r.status == CheckStatus::Error))
}

/// Whether any monitor was last found slow, or in a state that has no name.
pub open spec fn any_slow(targets: Seq<TargetStatus>) -> bool {
    exists|i: int|
        0 <= i < targets.len() && ((#[trigger] targets[i]).latest matches Some(r) && (r.status
            == CheckStatus::Degraded || r.status == CheckStatus::Unknown))
}

/// Whether any monitor was ever checked.
pub open spec fn any_checked(targets: Seq<TargetStatus>) -> bool {
    exists|i: int| 0 <= i < targets.len() && (#[trigger] targets[i]).latest is Some
}

/// What a page is said to be: a grave incident decides; without one, the worst of
/// what the monitors last found.
pub open spec fn overall(targets: Seq<TargetStatus>, incidents: Seq<Incident>) -> OverallStatus {
    if any_severity(incidents, IncidentSeverity::Critical) {
        OverallStatus::Outage
    } else if any_severity(incidents, IncidentSeverity::Major) {
        OverallStatus::Degraded
    } else if !any_checked(targets) {
        OverallStatus::Unknown
    } else if any_down(targets) {
        OverallStatus::Outage
    } else if any_slow(targets) {
        OverallStatus::Degraded
    } else {
        OverallStatus::Operational
    }
}

/// Whether any incident has this severity.
fn has_severity(incidents: &Vec<Incident>, severity: IncidentSeverity) -> (r: bool)
    ensures
        r == any_severity(incidents@, severity),
{
    let mut i: usize = 0;
    while i < incidents.len()
        invariant
            i <= incidents.len(),
            forall|j: int| 0 <= j < i ==> (#[trigger] incidents@[j]).severity != severity,
        decreases incidents.len() - i,
    {
        if incidents[i].severity == severity {
            return true;
        }
        i += 1;
    }
    false
}

/// What a page with these monitors and open incidents is said to be.
pub fn compute_overall_status(
    targets: &Vec<TargetStatus>,
    active_incidents: &Vec<Incident>,
) -> (r: OverallStatus)
    ensures
        r == overall(targets@, active_incidents@),
{
    if has_severity(active_incidents, IncidentSeverity::Critical) {
        return OverallStatus::Outage;
    }
    if has_severity(active_incidents, IncidentSeverity::Major) {
        return OverallStatus::Degraded;
    }
    let mut slow = false;
    let mut down = false;
    let mut checked = false;
    let mut i: usize = 0;
    while i < targets.len()
        invariant
            i <= targets.len(),
            down == any_down(targets@.take(i as int)),
            slow == any_slow(targets@.take(i as int)),
            checked == any_checked(targets@.take(i as int)),
        decreases targets.len() - i,
    {
        let ghost before = targets@.take(i as int);
        let ghost after = targets@.take(i + 1);
        assert(after[i as int] == targets@[i as int]);
        assert(forall|j: int| 0 <= j < i ==> before[j] == #[trigger] after[j]);
        assert(forall|j: int| 0 <= j < i ==> #[trigger] before[j] == after[j]);
        let ghost old_slow = slow;
        let ghost old_down = down;
        let ghost old_checked = checked;
        if let Some(result) = &targets[i].latest {
            checked = true;
            match result.status {
                CheckStatus::Up => {},
                CheckStatus::Degraded => {
                    slow = true;
                },
                CheckStatus::Down | CheckStatus::Error => {
                    down = true;
                },
                CheckStatus::Unknown => {
                    slow = true;
                },
            }
        }
        proof {
            if old_slow {
                let j = choose|j: int|
                    0 <= j < before.len() && ((#[trigger] before[j]).latest matches Some(r) && (
                    r.status == CheckStatus::Degraded || r.status == CheckStatus::Unknown));
                assert(after[j] == before[j]);
            }
            if old_down {
                let j = choose|j: int|
                    0 <= j < before.len() && ((#[trigger] before[j]).latest matches Some(r) && (
                    r.status == CheckStatus::Down || r.status == CheckStatus::Error));
                assert(after[j] == before[j]);
            }
            if old_checked {
                let j = choose|j: int|
                    0 <= j < before.len() && (#[trigger] before[j]).latest is Some;
                assert(after[j] == before[j]);
            }
        }
        i += 1;
    }
    assert(targets@.take(i as int) =~= targets@);
    if !checked {
        OverallStatus::Unknown
    } else if down {
        OverallStatus::Outage
    } else if slow {
        OverallStatus::Degraded
    } else {
        OverallStatus::Operational
    }
}

/// A page is called operational only where something was checked, everything that was
/// checked was up, and no grave incident is open.
pub proof fn law_operational_means_all_is_well(
    targets: Seq<TargetStatus>,
    incidents: Seq<Incident>,
    i: int,
)
    requires
        overall(targets, incidents) == OverallStatus::Operational,
        0 <= i < targets.len(),
    ensures
        targets[i].latest matches Some(r) ==> r.status == CheckStatus::Up,
        !any_severity(incidents, IncidentSeverity::Critical),
        !any_severity(incidents, IncidentSeverity::Major),
{
}

/// The text at the head of a page.
#[derive(Clone, Copy, Debug)]
pub struct Banner {
    pub title: &'static str,
    pub subtitle: &'static str,
    pub class: &'static str,
    pub icon_class: &'static str,
    pub icon_svg: &'static str,
}

/// `b` is the head of a page that is said to be `status`.
pub open spec fn is_banner(b: Banner, status: OverallStatus) -> bool {
    match status {
        OverallStatus::Operational => {
            &&& b.title@ == "All Systems Operational"@
            &&& b.subtitle@ == "All monitors are responding normally."@
            &&& b.class@ == "public-overall public-overall--op"@
            &&& b.icon_class@ == "status-icon status-icon--op"@
            &&& b.icon_svg@
                == "<svg viewBox=\"0 0 24 24\" fill=\"none\" stroke=\"currentColor\" stroke-width=\"2.5\" stroke-linecap=\"round\" stroke-linejoin=\"round\"><path d=\"M20 6L9 17l-5-5\"/></svg>"@
        },
        OverallStatus::Degraded => {
            &&& b.title@ == "Partial Degradation"@
            &&& b.subtitle@ == "One or more monitors are responding slower than expected."@
            &&& b.class@ == "public-overall public-overall--deg"@
            &&& b.icon_class@ == "status-icon status-icon--deg"@
            &&& b.icon_svg@
                == "<svg viewBox=\"0 0 24 24\" fill=\"none\" stroke=\"currentColor\" stroke-width=\"2.5\" stroke-linecap=\"round\" stroke-linejoin=\"round\"><path d=\"M12 9v4m0 4h.01M10.29 3.86L1.82 18a2 2 0 001.71 3h16.94a2 2 0 001.71-3L13.71 3.86a2 2 0 00-3.42 0z\"/></svg>"@
        },
        OverallStatus::Outage => {
            &&& b.title@ == "Active Outage"@
            &&& b.subtitle@ == "One or more monitors are down or reporting errors."@
            &&& b.class@ == "public-overall public-overall--outage"@
            &&& b.icon_class@ == "status-icon status-icon--outage"@
            &&& b.icon_svg@
                == "<svg viewBox=\"0 0 24 24\" fill=\"none\" stroke=\"currentColor\" stroke-width=\"2.5\" stroke-linecap=\"round\" stroke-linejoin=\"round\"><circle cx=\"12\" cy=\"12\" r=\"10\"/><path d=\"M15 9l-6 6M9 9l6 6\"/></svg>"@
        },
        OverallStatus::Unknown => {
            &&& b.title@ == "No Data Yet"@
            &&& b.subtitle@ == "No check results have been recorded for these monitors."@
            &&& b.class@ == "public-overall public-overall--unknown"@
            &&& b.icon_class@ == "status-icon status-icon--unknown"@
            &&& b.icon_svg@
                == "<svg viewBox=\"0 0 24 24\" fill=\"none\" stroke=\"currentColor\" stroke-width=\"2\" stroke-linecap=\"round\" stroke-linejoin=\"round\"><circle cx=\"12\" cy=\"12\" r=\"10\"/><path d=\"M12 16v-4M12 8h.01\"/></svg>"@
        },
    }
}

/// The head of a page that is said to be `status`.
pub fn overall_status_banner(status: OverallStatus) -> (r: Banner)
    ensures
        is_banner(r, status),
{
    match status {
        OverallStatus::Operational => Banner {
            title: "All Systems Operational",
            subtitle: "All monitors are responding normally.",
            class: "public-overall public-overall--op",
            icon_class: "status-icon status-icon--op",
            icon_svg: "<svg viewBox=\"0 0 24 24\" fill=\"none\" stroke=\"currentColor\" stroke-width=\"2.5\" stroke-linecap=\"round\" stroke-linejoin=\"round\"><path d=\"M20 6L9 17l-5-5\"/></svg>",
        },
        OverallStatus::Degraded => Banner {
            title: "Partial Degradation",
            subtitle: "One or more monitors are responding slower than expected.",
            class: "public-overall public-overall--deg",
            icon_class: "status-icon status-icon--deg",
            icon_svg: "<svg viewBox=\"0 0 24 24\" fill=\"none\" stroke=\"currentColor\" stroke-width=\"2.5\" stroke-linecap=\"round\" stroke-linejoin=\"round\"><path d=\"M12 9v4m0 4h.01M10.29 3.86L1.82 18a2 2 0 001.71 3h16.94a2 2 0 001.71-3L13.71 3.86a2 2 0 00-3.42 0z\"/></svg>",
        },
        OverallStatus::Outage => Banner {
            title: "Active Outage",
            subtitle: "One or more monitors are down or reporting errors.",
            class: "public-overall public-overall--outage",
            icon_class: "status-icon status-icon--outage",
            icon_svg: "<svg viewBox=\"0 0 24 24\" fill=\"none\" stroke=\"currentColor\" stroke-width=\"2.5\" stroke-linecap=\"round\" stroke-linejoin=\"round\"><circle cx=\"12\" cy=\"12\" r=\"10\"/><path d=\"M15 9l-6 6M9 9l6 6\"/></svg>",
        },
        OverallStatus::Unknown => Banner {
            title: "No Data Yet",
            subtitle: "No check results have been recorded for these monitors.",
            class: "public-overall public-overall--unknown",
            icon_class: "status-icon status-icon--unknown",
            icon_svg: "<svg viewBox=\"0 0 24 24\" fill=\"none\" stroke=\"currentColor\" stroke-width=\"2\" stroke-linecap=\"round\" stroke-linejoin=\"round\"><circle cx=\"12\" cy=\"12\" r=\"10\"/><path d=\"M12 16v-4M12 8h.01\"/></svg>",
        },
    }
}

/// The short name of a kind of check.
pub open spec fn check_type(check: CheckSpec) -> Seq<char> {
    match check {
        CheckSpec::Http { .. } => "HTTP"@,
        CheckSpec::Tcp { .. } => "TCP"@,
        CheckSpec::Ping { .. } => "Ping"@,
        CheckSpec::Heartbeat => "Heartbeat"@,
        _ => "Other"@,
    }
}

/// The short name of a kind of check.
pub fn check_type_label(check: &CheckSpec) -> (r: &'static str)
    ensures
        r@ == check_type(*check),
{
    match check {
        CheckSpec::Http { .. } => "HTTP",
        CheckSpec::Tcp { .. } => "TCP",
        CheckSpec::Ping { .. } => "Ping",
        CheckSpec::Heartbeat => "Heartbeat",
        _ => "Other",
    }
}

/// Whether a target reports by itself.
pub fn is_heartbeat(check: &CheckSpec) -> (r: bool)
    ensures
        r == (check is Heartbeat),
{
    match check {
        CheckSpec::Heartbeat => true,
        _ => false,
    }
}

/// One day of a strip, as it is shown.
#[derive(Clone, Debug)]
pub struct DayCell {
    pub class: String,
    pub label: String,
}

/// `c` shows how the day `day` went.
pub open spec fn is_day_cell(c: DayCell, day: int, state: Option<DayState>) -> bool {
    &&& c.class@ == "day-cell "@ + match state {
        Some(s) => s.class(),
        None => "day-cell--none"@,
    }
    &&& c.label@ == crate::time::patterned_date_of(day * DAY, "%Y-%m-%d"@) + ": "@ + match state {
        Some(s) => s.label(),
        None => "No data"@,
    }
}

/// One monitor, as it is shown.
#[derive(Clone, Debug)]
pub struct TargetRow {
    pub href: String,
    pub name: String,
    pub chip: &'static str,
    pub chip_class: &'static str,
    pub dot_class: String,
    pub status_label: &'static str,
    pub strip_label: String,
    pub cells: Vec<DayCell>,
    pub uptime_label: String,
    pub latency_label: String,
}

/// The class of a monitor's dot, and the words beside it.
pub open spec fn dot_and_label(latest: Option<CheckResult>, heartbeat: bool) -> (
    Seq<char>,
    Seq<char>,
) {
    match latest {
        None => (""@, "Pending"@),
        Some(r) => match r.status {
            CheckStatus::Up => if heartbeat {
                ("dashboard-dot--up dashboard-dot--heartbeat"@, "Operational"@)
            } else {
                ("dashboard-dot--up"@, "Operational"@)
            },
            CheckStatus::Degraded => ("dashboard-dot--degraded"@, "Degraded"@),
            CheckStatus::Down => ("dashboard-dot--down"@, "Down"@),
            CheckStatus::Error => ("dashboard-dot--error"@, "Error"@),
            CheckStatus::Unknown => ("dashboard-dot--unknown"@, "Unknown"@),
        },
    }
}

/// How long the last check took, in words.
pub open spec fn latency_words(latest: Option<CheckResult>, heartbeat: bool) -> Seq<char> {
    if heartbeat {
        "—"@
    } else {
        match latest {
            Some(r) => crate::text::decimal(r.duration_ms as nat) + " ms"@,
            None => "—"@,
        }
    }
}

/// A share in words. `percent` is its figure.
pub open spec fn percent_words(percent: Option<Seq<char>>) -> Seq<char> {
    match percent {
        Some(p) => p + "%"@,
        None => "—"@,
    }
}

/// `row` shows `ts` on the day of `now`. `percent` is the figure of its uptime.
pub open spec fn is_target_row(
    row: TargetRow,
    ts: TargetStatus,
    percent: Option<Seq<char>>,
    now: int,
) -> bool {
    let heartbeat = ts.target.check is Heartbeat;
    &&& row.href@ == "/targets/"@ + crate::codec::id_text(ts.target.id)
    &&& row.name@ == ts.target.name@
    &&& row.chip@ == check_type(ts.target.check)
    &&& row.chip_class@ == if heartbeat {
        "type-chip type-chip--heartbeat"@
    } else {
        "type-chip"@
    }
    &&& row.dot_class@ == "dashboard-dot "@ + dot_and_label(ts.latest, heartbeat).0
    &&& row.status_label@ == dot_and_label(ts.latest, heartbeat).1
    &&& row.strip_label@ == "90-day status history for "@ + ts.target.name@
    &&& row.uptime_label@ == percent_words(percent)
    &&& row.latency_label@ == latency_words(ts.latest, heartbeat)
    &&& if ts.history@.len() == 0 {
        &&& row.cells@.len() == 1
        &&& row.cells@[0].class@ == "day-cell day-cell--none"@
        &&& row.cells@[0].label@ == "No data"@
    } else {
        &&& row.cells@.len() == ts.history@.len()
        &&& forall|i: int|
            0 <= i < row.cells@.len() ==> is_day_cell(
                #[trigger] row.cells@[i],
                crate::ui::history::first_day(now) + i,
                ts.history@[i],
            )
    }
}

/// Shows how the day `day` went.
fn day_cell(day: i64, state: Option<DayState>) -> (r: DayCell)
    requires
        crate::time::on_calendar(day * DAY),
    ensures
        is_day_cell(r, day as int, state),
{
    let mut class = owned("day-cell ");
    let mut label = format_date(start_of_day(day), "%Y-%m-%d");
    label.append(": ");
    match state {
        Some(s) => {
            class.append(s.cell_class());
            label.append(s.aria_label());
        },
        None => {
            class.append("day-cell--none");
            label.append("No data");
        },
    }
    DayCell { class, label }
}

/// Shows a strip that begins with the day `first`.
fn day_cells(history: &Vec<Option<DayState>>, first: i64) -> (r: Vec<DayCell>)
    requires
        history@.len() <= crate::ui::history::HISTORY_DAYS,
        first + history@.len() <= i64::MAX,
        forall|i: int|
            0 <= i < history@.len() ==> crate::time::on_calendar(#[trigger] ((first + i) * DAY)),
    ensures
        r@.len() == history@.len(),
        forall|i: int|
            0 <= i < r@.len() ==> is_day_cell(#[trigger] r@[i], first + i, history@[i]),
{
    let mut cells: Vec<DayCell> = Vec::new();
    let mut i: usize = 0;
    while i < history.len()
        invariant
            i <= history.len(),
            history@.len() <= crate::ui::history::HISTORY_DAYS,
            first + history@.len() <= i64::MAX,
            forall|k: int|
                0 <= k < history@.len() ==> crate::time::on_calendar(
                    #[trigger] ((first + k) * DAY),
                ),
            cells@.len() == i,
            forall|k: int|
                0 <= k < i ==> is_day_cell(#[trigger] cells@[k], first + k, history@[k]),
        decreases history.len() - i,
    {
        let day: i64 = first + i as i64;
        assert(crate::time::on_calendar((first + i) * DAY));
        cells.push(day_cell(day, history[i]));
        i += 1;
    }
    cells
}

/// Whether all the days of a strip that ends on the day of `now` have a calendar
/// date.
pub open spec fn strip_on_calendar(now: int) -> bool {
    crate::time::on_calendar(now) && crate::time::on_calendar(
        crate::ui::history::first_day(now) * DAY,
    )
}

/// Between two moments that have a calendar date, every day has one.
proof fn lemma_days_on_calendar(now: int, i: int)
    requires
        strip_on_calendar(now),
        0 <= i < crate::ui::history::HISTORY_DAYS,
    ensures
        crate::time::on_calendar((crate::ui::history::first_day(now) + i) * DAY),
{
    let first = crate::ui::history::first_day(now);
    let day = crate::time::day_number(now);
    vstd::arithmetic::div_mod::lemma_fundamental_div_mod(now, DAY as int);
    assert(first * DAY <= (first + i) * DAY <= day * DAY) by (nonlinear_arith)
        requires
            0 <= i < 90,
            day == first + 89,
            DAY == 86_400_000_000_000,
    ;
    assert(day * DAY <= now) by (nonlinear_arith)
        requires
            now == DAY * (now / (DAY as int)) + now % (DAY as int),
            day == now / (DAY as int),
            0 <= now % (DAY as int),
    ;
    let a = first * DAY;
    let b = (first + i) * DAY;
    vstd::arithmetic::div_mod::lemma_div_is_ordered(a, b, crate::time::SECOND as int);
    vstd::arithmetic::div_mod::lemma_div_is_ordered(b, now, crate::time::SECOND as int);
}

/// Shows one monitor. `percent` is the figure of its uptime, to two places.
pub fn target_status_row(ts: &TargetStatus, percent: &Option<String>, now: Moment) -> (r: TargetRow)
    requires
        strip_on_calendar(now as int),
        ts.history@.len() <= crate::ui::history::HISTORY_DAYS,
    ensures
        is_target_row(
            r,
            *ts,
            match *percent {
                Some(p) => Some(p@),
                None => None,
            },
            now as int,
        ),
{
    let heartbeat = is_heartbeat(&ts.target.check);
    let chip_class = if heartbeat {
        "type-chip type-chip--heartbeat"
    } else {
        "type-chip"
    };
    let mut href = owned("/targets/");
    href.append(uuid_text(ts.target.id).as_str());
    let (dot, status_label) = match &ts.latest {
        None => ("", "Pending"),
        Some(result) => match result.status {
            CheckStatus::Up => if heartbeat {
                ("dashboard-dot--up dashboard-dot--heartbeat", "Operational")
            } else {
                ("dashboard-dot--up", "Operational")
            },
            CheckStatus::Degraded => ("dashboard-dot--degraded", "Degraded"),
            CheckStatus::Down => ("dashboard-dot--down", "Down"),
            CheckStatus::Error => ("dashboard-dot--error", "Error"),
            CheckStatus::Unknown => ("dashboard-dot--unknown", "Unknown"),
        },
    };
    let mut dot_class = owned("dashboard-dot ");
    dot_class.append(dot);
    let latency_label = if heartbeat {
        owned("—")
    } else {
        match &ts.latest {
            Some(result) => {
                let mut words = decimal_text(result.duration_ms as u64);
                words.append(" ms");
                words
            },
            None => owned("—"),
        }
    };
    let uptime_label = match percent {
        Some(p) => {
            let mut words = p.clone();
            words.append("%");
            words
        },
        None => owned("—"),
    };
    let mut strip_label = owned("90-day status history for ");
    strip_label.append(ts.target.name.as_str());
    let cells = if ts.history.len() == 0 {
        let mut one: Vec<DayCell> = Vec::new();
        one.push(DayCell { class: owned("day-cell day-cell--none"), label: owned("No data") });
        one
    } else {
        let first: i64 = day_of(now) - 89;
        proof {
            assert forall|i: int| 0 <= i < ts.history@.len() implies crate::time::on_calendar(
                #[trigger] ((first + i) * DAY),
            ) by {
                lemma_days_on_calendar(now as int, i);
            }
        }
        day_cells(&ts.history, first)
    };
    TargetRow {
        href,
        name: ts.target.name.clone(),
        chip: check_type_label(&ts.target.check),
        chip_class,
        dot_class,
        status_label,
        strip_label,
        cells,
        uptime_label,
        latency_label,
    }
}

/// The heading over so many open incidents.
pub fn active_incidents_heading(count: usize) -> (r: String)
    ensures
        r@ == if count == 1 {
            "Active incident"@
        } else {
            "Active incidents ("@ + crate::text::decimal(count as nat) + ")"@
        },
{
    if count == 1 {
        owned("Active incident")
    } else {
        let mut out = owned("Active incidents (");
        out.append(decimal_text(count as u64).as_str());
        out.append(")");
        out
    }
}

/// One incident, as it is shown.
#[derive(Clone, Debug)]
pub struct IncidentRow {
    pub title: String,
    pub title_style: &'static str,
    pub severity_label: &'static str,
    pub severity_class: &'static str,
    pub status_label: &'static str,
    pub status_class: &'static str,
    pub started: String,
    pub description: Option<String>,
}

/// The title of an incident; one without a title goes by its identifier.
pub open spec fn incident_title(inc: Incident) -> Seq<char> {
    match inc.public_title {
        Some(t) => t@,
        None => "Incident "@ + crate::codec::id_text(inc.id),
    }
}

/// The words and the class for a severity.
pub open spec fn severity_badge(severity: IncidentSeverity) -> (Seq<char>, Seq<char>) {
    match severity {
        IncidentSeverity::Critical => ("Critical"@, "status-badge status-badge--down"@),
        IncidentSeverity::Major => ("Major"@, "status-badge status-badge--degraded"@),
        IncidentSeverity::Minor => ("Minor"@, "status-badge status-badge--pending"@),
        IncidentSeverity::Unknown => ("Unknown"@, "status-badge status-badge--pending"@),
    }
}

/// The words and the class for where an incident stands.
pub open spec fn progress_badge(inc: Incident) -> (Seq<char>, Seq<char>) {
    if inc.ended_at is Some {
        ("Resolved"@, "status-badge status-badge--up"@)
    } else if inc.status == CheckStatus::Degraded {
        ("Investigating"@, "status-badge status-badge--pending"@)
    } else {
        ("Ongoing"@, "status-badge status-badge--down"@)
    }
}

/// `row` shows `inc`, among those that are over or among those that are open.
pub open spec fn is_incident_row(row: IncidentRow, inc: Incident, past: bool) -> bool {
    &&& row.title@ == incident_title(inc)
    &&& row.title_style@ == if past {
        "color: var(--theme-text)"@
    } else {
        "color: var(--theme-state-warn-fg-strong)"@
    }
    &&& (row.severity_label@, row.severity_class@) == severity_badge(inc.severity)
    &&& (row.status_label@, row.status_class@) == progress_badge(inc)
    &&& row.started@ == "Started "@ + crate::time::patterned_date_of(
        inc.started_at as int,
        "%Y-%m-%d %H:%M UTC"@,
    )
    &&& row.description == inc.public_description
}

/// Shows one incident.
pub fn incident_row(inc: &Incident, past: bool) -> (r: IncidentRow)
    requires
        crate::time::on_calendar(inc.started_at as int),
    ensures
        is_incident_row(r, *inc, past),
{
    let title = match &inc.public_title {
        Some(t) => t.clone(),
        None => {
            let mut t = owned("Incident ");
            t.append(uuid_text(inc.id).as_str());
            t
        },
    };
    let (severity_label, severity_class) = match inc.severity {
        IncidentSeverity::Critical => ("Critical", "status-badge status-badge--down"),
        IncidentSeverity::Major => ("Major", "status-badge status-badge--degraded"),
        IncidentSeverity::Minor => ("Minor", "status-badge status-badge--pending"),
        IncidentSeverity::Unknown => ("Unknown", "status-badge status-badge--pending"),
    };
    let (status_label, status_class) = match inc.ended_at {
        Some(_) => ("Resolved", "status-badge status-badge--up"),
        None => match inc.status {
            CheckStatus::Degraded => ("Investigating", "status-badge status-badge--pending"),
            _ => ("Ongoing", "status-badge status-badge--down"),
        },
    };
    let mut started = owned("Started ");
    started.append(format_date(inc.started_at, "%Y-%m-%d %H:%M UTC").as_str());
    IncidentRow {
        title,
        title_style: if past {
            "color: var(--theme-text)"
        } else {
            "color: var(--theme-state-warn-fg-strong)"
        },
        severity_label,
        severity_class,
        status_label,
        status_class,
        started,
        description: copy_text(&inc.public_description),
    }
}

/// All that the page of one status page shows.
#[derive(Clone, Debug)]
pub struct StatusPageView {
    pub page: Option<StatusPage>,
    pub targets: Vec<TargetStatus>,
    pub active_incidents: Vec<Incident>,
    pub recent_incidents: Vec<Incident>,
    pub errors: Vec<String>,
}

/// The contents of texts.
pub open spec fn texts(v: Seq<String>) -> Seq<Seq<char>> {
    v.map_values(|s: String| s@)
}

/// What is noted of something that went wrong; nothing where nothing did.
pub open spec fn noted(what: Seq<char>, reason: Option<Seq<char>>) -> Seq<Seq<char>> {
    match reason {
        Some(r) => seq![what + r],
        None => Seq::empty(),
    }
}

/// Why something failed, where it did.
pub open spec fn failure_of<T>(result: Result<T, String>) -> Option<Seq<char>> {
    match result {
        Ok(_) => None,
        Err(e) => Some(e@),
    }
}

/// Notes something that went wrong.
fn note(errors: &mut Vec<String>, what: &str, reason: &str)
    ensures
        texts(final(errors)@) == texts(old(errors)@) + noted(what@, Some(reason@)),
{
    let ghost before = errors@;
    let mut message = owned(what);
    message.append(reason);
    errors.push(message);
    assert(texts(errors@) =~= texts(before) + noted(what@, Some(reason@)));
}

/// Whether an incident is open.
pub open spec fn is_active(inc: Incident) -> bool {
    inc.ended_at is None
}

/// Whether an incident ended within the thirty days before `now`, or later.
pub open spec fn is_recent(inc: Incident, now: int) -> bool {
    inc.ended_at matches Some(end) && end >= now - 30 * DAY
}

/// Tells open incidents from those that ended lately, each in order; older ones are
/// passed over.
fn split_incidents(list: Vec<Incident>, now: Moment) -> (r: (Vec<Incident>, Vec<Incident>))
    requires
        crate::time::on_calendar(now as int),
    ensures
        r.0@ == list@.filter(|i: Incident| is_active(i)),
        r.1@ == list@.filter(|i: Incident| is_recent(i, now as int)),
{
    let ghost all = list@;
    let ghost open = |i: Incident| is_active(i);
    let ghost late = |i: Incident| is_recent(i, now as int);
    let cutoff: Moment = now - 30 * DAY;
    let mut rest = list;
    let mut active: Vec<Incident> = Vec::new();
    let mut recent: Vec<Incident> = Vec::new();
    let ghost mut n: int = 0;
    assert(all.take(0).filter(open) =~= Seq::<Incident>::empty()) by {
        reveal(Seq::filter);
    }
    assert(all.take(0).filter(late) =~= Seq::<Incident>::empty()) by {
        reveal(Seq::filter);
    }
    while rest.len() > 0
        invariant
            0 <= n <= all.len(),
            rest@ == all.skip(n),
            cutoff == now - 30 * DAY,
            open == (|i: Incident| is_active(i)),
            late == (|i: Incident| is_recent(i, now as int)),
            active@ == all.take(n).filter(open),
            recent@ == all.take(n).filter(late),
        decreases rest.len(),
    {
        let inc = rest.remove(0);
        assert(inc == all[n]);
        proof {
            crate::public::incident::lemma_filter_next(all, open, n);
            crate::public::incident::lemma_filter_next(all, late, n);
        }
        match inc.ended_at {
            None => {
                active.push(inc);
            },
            Some(end) => {
                if end >= cutoff {
                    recent.push(inc);
                }
            },
        }
        proof {
            n = n + 1;
        }
        assert(rest@ =~= all.skip(n));
    }
    assert(all.take(n) =~= all);
    (active, recent)
}

/// Puts together what was read for a page. What could not be read is left out and
/// noted, in a fixed order, and does not spoil the rest.
pub fn fetch_status_page_view(
    page: Result<StatusPage, String>,
    targets: Result<Vec<TargetStatus>, String>,
    incidents: Result<Vec<Incident>, String>,
    history: Result<(), String>,
    now: Moment,
) -> (r: StatusPageView)
    requires
        crate::time::on_calendar(now as int),
    ensures
        r.page == match page {
            Ok(p) => Some(p),
            Err(_) => None,
        },
        r.targets@ == match targets {
            Ok(list) => list@,
            Err(_) => Seq::empty(),
        },
        r.active_incidents@ == match incidents {
            Ok(list) => list@.filter(|i: Incident| is_active(i)),
            Err(_) => Seq::empty(),
        },
        r.recent_incidents@ == match incidents {
            Ok(list) => list@.filter(|i: Incident| is_recent(i, now as int)),
            Err(_) => Seq::empty(),
        },
        texts(r.errors@) == noted("Page data: "@, failure_of(page)) + noted(
            "Monitors: "@,
            failure_of(targets),
        ) + noted("Incidents: "@, failure_of(incidents)) + noted(
            "Latency history: "@,
            failure_of(history),
        ),
{
    let mut errors: Vec<String> = Vec::new();
    let ghost p = noted("Page data: "@, failure_of(page));
    let ghost t = noted("Monitors: "@, failure_of(targets));
    let ghost i = noted("Incidents: "@, failure_of(incidents));
    let shown_page = match page {
        Ok(found) => Some(found),
        Err(e) => {
            note(&mut errors, "Page data: ", e.as_str());
            None
        },
    };
    assert(texts(errors@) =~= p);
    let shown_targets = match targets {
        Ok(list) => list,
        Err(e) => {
            note(&mut errors, "Monitors: ", e.as_str());
            Vec::new()
        },
    };
    assert(texts(errors@) =~= p + t);
    let (active_incidents, recent_incidents) = match incidents {
        Ok(list) => split_incidents(list, now),
        Err(e) => {
            note(&mut errors, "Incidents: ", e.as_str());
            (Vec::new(), Vec::new())
        },
    };
    assert(texts(errors@) =~= p + t + i);
    if let Err(e) = history {
        note(&mut errors, "Latency history: ", e.as_str());
    }
    assert(texts(errors@) =~= p + t + i + noted("Latency history: "@, failure_of(history)));
    StatusPageView {
        page: shown_page,
        targets: shown_targets,
        active_incidents,
        recent_incidents,
        errors,
    }
}

/// What the list of monitors is shown as.
#[derive(Clone, Copy, Debug, PartialEq, Eq, Structural)]
pub enum MonitorList {
    /// A note that there are none.
    Empty,
    Rows,
    /// Nothing: they could not be read.
    Hidden,
}

/// The heading of a page.
#[derive(Clone, Debug)]
pub struct PageHeading {
    pub display_name: String,
    pub about: Option<String>,
}

/// What the page of one status page is made of.
#[derive(Clone, Debug)]
pub enum PageLayout {
    /// Nothing can be shown but what went wrong.
    Failed,
    Shown {
        heading: Option<PageHeading>,
        overall: OverallStatus,
        /// Whether what went wrong is told.
        warns: bool,
        has_active: bool,
        monitors: MonitorList,
        has_recent: bool,
    },
}

/// `h` is the heading of `page`: its own name, unless it goes by another in public.
pub open spec fn is_heading(h: PageHeading, page: StatusPage) -> bool {
    &&& h.display_name@ == match page.branding.public_display_name {
        Some(n) => n@,
        None => page.name@,
    }
    &&& h.about == page.branding.public_about
}

/// What the page of one status page is made of. A page that could not be read shows
/// what went wrong and nothing else.
pub fn status_page_detail_page(view: &StatusPageView) -> (r: PageLayout)
    ensures
        match r {
            PageLayout::Failed => view.page is None && view.errors@.len() > 0,
            PageLayout::Shown { heading, overall: o, warns, has_active, monitors, has_recent } => {
                &&& view.page is Some || view.errors@.len() == 0
                &&& match heading {
                    Some(h) => view.page matches Some(p) && is_heading(h, p),
                    None => view.page is None,
                }
                &&& o == overall(view.targets@, view.active_incidents@)
                &&& warns == (view.errors@.len() > 0)
                &&& has_active == (view.active_incidents@.len() > 0)
                &&& monitors == if view.targets@.len() > 0 {
                    MonitorList::Rows
                } else if view.errors@.len() == 0 {
                    MonitorList::Empty
                } else {
                    MonitorList::Hidden
                }
                &&& has_recent == (view.recent_incidents@.len() > 0)
            },
        },
{
    if view.page.is_none() && view.errors.len() > 0 {
        return PageLayout::Failed;
    }
    let heading = match &view.page {
        Some(p) => Some(
            PageHeading {
                display_name: match &p.branding.public_display_name {
                    Some(n) => n.clone(),
                    None => p.name.clone(),
                },
                about: copy_text(&p.branding.public_about),
            },
        ),
        None => None,
    };
    let monitors = if view.targets.len() > 0 {
        MonitorList::Rows
    } else if view.errors.len() == 0 {
        MonitorList::Empty
    } else {
        MonitorList::Hidden
    };
    PageLayout::Shown {
        heading,
        overall: compute_overall_status(&view.targets, &view.active_incidents),
        warns: view.errors.len() > 0,
        has_active: view.active_incidents.len() > 0,
        monitors,
        has_recent: view.recent_incidents.len() > 0,
    }
}

/// An identifier that was read; the nil one where none was.
pub fn id_or_nil(id: Option<Id>) -> (r: Id)
    ensures
        r == match id {
            Some(found) => found,
            None => 0,
        },
{
    match id {
        Some(found) => found,
        None => NIL,
    }
}

/// The identifier in the address of a page; the nil one where there is none in it.
pub fn id_from_path(param: Option<&str>) -> (r: Id)
    ensures
        r == match param {
            Some(text) => match crate::codec::parsed_id(text@) {
                Some(id) => id,
                None => 0,
            },
            None => 0,
        },
{
    match param {
        Some(text) => id_or_nil(parse_id(text)),
        None => NIL,
    }
}

/// No incident is shown both as open and as over.
pub proof fn law_incidents_are_shown_once(inc: Incident, now: int)
    ensures
        !(is_active(inc) && is_recent(inc, now)),
{
}

} // verus!
