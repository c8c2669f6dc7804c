//! The pages that list: incidents, status pages and monitors.

use vstd::prelude::*;
use vstd::string::*;

use crate::codec::uuid_text;
use crate::domain::{CheckResult, CheckSpec, CheckStatus, Incident, StatusPage, Target};
use crate::text::{decimal_text, owned};
use crate::ui::shell::{enabled_badge, Badge};
use crate::ui::status_page_detail::{check_type_label, incident_row, is_heartbeat, IncidentRow};

verus! {

/// A note: its title and what it says.
#[derive(Clone, Debug)]
pub struct Notice {
    pub title: &'static str,
    pub message: String,
}

impl Notice {
    /// Whether a note has this title and says this.
    pub open spec fn says(&self, title: Seq<char>, message: Seq<char>) -> bool {
        self.title@ == title && self.message@ == message
    }
}

/// What a list is shown as.
#[derive(Clone, Debug)]
pub enum ListBody<R> {
    /// Nothing: it could not be read.
    Hidden,
    /// A note that there is nothing in it.
    Empty(Notice),
    Rows(Vec<R>),
}

/// A page that lists.
#[derive(Clone, Debug)]
pub struct ListPage<R> {
    /// What went wrong, where anything did.
    pub warning: Option<Notice>,
    pub body: ListBody<R>,
}

/// `w` is the warning on a list: that it failed where nothing is in it, and else that
/// a part is missing.
pub open spec fn is_list_warning(
    w: Option<Notice>,
    error: Option<Seq<char>>,
    nothing: bool,
    failed_title: Seq<char>,
) -> bool {
    match error {
        None => w is None,
        Some(e) => w matches Some(n) && n.says(
            if nothing {
                failed_title
            } else {
                "Some data could not be loaded"@
            },
            e,
        ),
    }
}

/// The warning on a list.
fn list_warning(error: &Option<String>, nothing: bool, failed_title: &'static str) -> (r: Option<
    Notice,
>)
    ensures
        is_list_warning(
            r,
            match *error {
                Some(e) => Some(e@),
                None => None,
            },
            nothing,
            failed_title@,
        ),
{
    match error {
        None => None,
        Some(e) => Some(
            Notice {
                title: if nothing {
                    failed_title
                } else {
                    "Some data could not be loaded"
                },
                message: e.clone(),
            },
        ),
    }
}

/// The incidents that were read, or why they were not.
#[derive(Clone, Debug)]
pub struct IncidentsView {
    pub incidents: Vec<Incident>,
    pub error: Option<String>,
}

/// The incidents that were read, or why they were not.
pub fn incidents_view(listed: Result<Vec<Incident>, String>) -> (r: IncidentsView)
    ensures
        match listed {
            Ok(list) => r.incidents == list && r.error is None,
            Err(e) => r.incidents@.len() == 0 && r.error == Some(e),
        },
{
    match listed {
        Ok(list) => IncidentsView { incidents: list, error: None },
        Err(e) => IncidentsView { incidents: Vec::new(), error: Some(e) },
    }
}

/// The page that lists incidents.
pub fn incident_list_page(view: &IncidentsView) -> (r: ListPage<IncidentRow>)
    requires
        forall|i: int|
            0 <= i < view.incidents@.len() ==> crate::time::on_calendar(
                (#[trigger] view.incidents@[i]).started_at as int,
            ),
    ensures
        is_list_warning(
            r.warning,
            match view.error {
                Some(e) => Some(e@),
                None => None,
            },
            view.incidents@.len() == 0,
            "Failed to load incidents"@,
        ),
        match r.body {
            ListBody::Hidden => view.incidents@.len() == 0 && view.error is Some,
            ListBody::Empty(n) => view.incidents@.len() == 0 && view.error is None && n.says(
                "All systems operational"@,
                "No incidents have been recorded."@,
            ),
            ListBody::Rows(rows) => {
                &&& view.incidents@.len() > 0
                &&& rows@.len() == view.incidents@.len()
                &&& forall|i: int|
                    0 <= i < rows@.len() ==> crate::ui::status_page_detail::is_incident_row(
                        #[trigger] rows@[i],
                        view.incidents@[i],
                        true,
                    )
            },
        },
{
    let nothing = view.incidents.len() == 0;
    let warning = list_warning(&view.error, nothing, "Failed to load incidents");
    if nothing {
        let body = if view.error.is_some() {
            ListBody::Hidden
        } else {
            ListBody::Empty(
                Notice {
                    title: "All systems operational",
                    message: owned("No incidents have been recorded."),
                },
            )
        };
        return ListPage { warning, body };
    }
    let mut rows: Vec<IncidentRow> = Vec::new();
    let mut i: usize = 0;
    while i < view.incidents.len()
        invariant
            i <= view.incidents.len(),
            forall|k: int|
                0 <= k < view.incidents@.len() ==> crate::time::on_calendar(
                    (#[trigger] view.incidents@[k]).started_at as int,
                ),
            rows@.len() == i,
            forall|k: int|
                0 <= k < i ==> crate::ui::status_page_detail::is_incident_row(
                    #[trigger] rows@[k],
                    view.incidents@[k],
                    true,
                ),
        decreases view.incidents.len() - i,
    {
        rows.push(incident_row(&view.incidents[i], true));
        i += 1;
    }
    ListPage { warning, body: ListBody::Rows(rows) }
}

/// The status pages that were read, or why they were not.
#[derive(Clone, Debug)]
pub struct PagesView {
    pub pages: Vec<StatusPage>,
    pub error: Option<String>,
}

/// The status pages that were read, or why they were not.
pub fn pages_view(listed: Result<Vec<StatusPage>, String>) -> (r: PagesView)
    ensures
        match listed {
            Ok(list) => r.pages == list && r.error is None,
            Err(e) => r.pages@.len() == 0 && r.error == Some(e),
        },
{
    match listed {
        Ok(list) => PagesView { pages: list, error: None },
        Err(e) => PagesView { pages: Vec::new(), error: Some(e) },
    }
}

/// One status page, as it is listed.
#[derive(Clone, Debug)]
pub struct PageRow {
    pub href: String,
    pub name: String,
    pub slug: String,
    pub badge: Badge,
}

/// `row` lists `page`. Its address names the page by an identifier that reads back
/// as the page's own.
pub open spec fn is_page_row(row: PageRow, page: StatusPage) -> bool {
    &&& row.href@ == "/status-pages/"@ + crate::codec::id_text(page.id)
    &&& crate::codec::parsed_id(crate::codec::id_text(page.id)) == Some(page.id)
    &&& row.name@ == page.name@
    &&& row.slug@ == "/"@ + page.slug@
    &&& crate::ui::shell::is_enabled_badge(row.badge, page.enabled)
}

/// Lists one status page.
fn page_row(page: &StatusPage) -> (r: PageRow)
    ensures
        is_page_row(r, *page),
{
    let id = uuid_text(page.id);
    let mut href = owned("/status-pages/");
    href.append(id.as_str());
    let mut slug = owned("/");
    slug.append(page.slug.as_str());
    assert(id@ == crate::codec::id_text(page.id));
    PageRow { href, name: page.name.clone(), slug, badge: enabled_badge(page.enabled) }
}

/// The page that lists status pages.
pub fn status_page_list_page(view: &PagesView) -> (r: ListPage<PageRow>)
    ensures
        is_list_warning(
            r.warning,
            match view.error {
                Some(e) => Some(e@),
                None => None,
            },
            view.pages@.len() == 0,
            "Failed to load status pages"@,
        ),
        match r.body {
            ListBody::Hidden => view.pages@.len() == 0 && view.error is Some,
            ListBody::Empty(n) => view.pages@.len() == 0 && view.error is None && n.says(
                "No status pages configured"@,
                "Create a status page via the API to publish a public dashboard."@,
            ),
            ListBody::Rows(rows) => {
                &&& view.pages@.len() > 0
                &&& rows@.len() == view.pages@.len()
                &&& forall|i: int|
                    0 <= i < rows@.len() ==> is_page_row(#[trigger] rows@[i], view.pages@[i])
            },
        },
{
    let nothing = view.pages.len() == 0;
    let warning = list_warning(&view.error, nothing, "Failed to load status pages");
    if nothing {
        let body = if view.error.is_some() {
            ListBody::Hidden
        } else {
            ListBody::Empty(
                Notice {
                    title: "No status pages configured",
                    message: owned(
                        "Create a status page via the API to publish a public dashboard.",
                    ),
                },
            )
        };
        return ListPage { warning, body };
    }
    let mut rows: Vec<PageRow> = Vec::new();
    let mut i: usize = 0;
    while i < view.pages.len()
        invariant
            i <= view.pages.len(),
            rows@.len() == i,
            forall|k: int| 0 <= k < i ==> is_page_row(#[trigger] rows@[k], view.pages@[k]),
        decreases view.pages.len() - i,
    {
        rows.push(page_row(&view.pages[i]));
        i += 1;
    }
    ListPage { warning, body: ListBody::Rows(rows) }
}

/// A monitor and its last result.
#[derive(Clone, Debug)]
pub struct MonitorRow {
    pub target: Target,
    pub latest: Option<CheckResult>,
}

/// A monitor and the last of what was read of it, where anything was.
pub fn monitor_row(target: Target, results: Option<Vec<CheckResult>>) -> (r: MonitorRow)
    ensures
        r.target == target,
        r.latest == match results {
            Some(list) => if list@.len() > 0 {
                Some(list@.last())
            } else {
                None
            },
            None => None,
        },
{
    match results {
        Some(list) => {
            let mut all = list;
            let latest = all.pop();
            MonitorRow { target, latest }
        },
        None => MonitorRow { target, latest: None },
    }
}

/// The monitors that were read, or why they were not.
#[derive(Clone, Debug)]
pub struct TargetsView {
    pub rows: Vec<MonitorRow>,
    pub error: Option<String>,
}

/// The monitors that were read, or why they were not.
pub fn fetch_target_rows(listed: Result<Vec<MonitorRow>, String>) -> (r: TargetsView)
    ensures
        match listed {
            Ok(rows) => r.rows == rows && r.error is None,
            Err(e) => r.rows@.len() == 0 && r.error == Some(e),
        },
{
    match listed {
        Ok(rows) => TargetsView { rows, error: None },
        Err(e) => TargetsView { rows: Vec::new(), error: Some(e) },
    }
}

/// What a check is pointed at.
pub open spec fn address_of(check: CheckSpec) -> Seq<char> {
    match check {
        CheckSpec::Http { url } => url@,
        CheckSpec::Tcp { host, port } => host@ + ":"@ + crate::text::decimal(port as nat),
        CheckSpec::Ping { host } => host@,
        CheckSpec::Heartbeat => "heartbeat"@,
        _ => "-"@,
    }
}

/// What a check is pointed at.
pub fn check_address(check: &CheckSpec) -> (r: String)
    ensures
        r@ == address_of(*check),
{
    match check {
        CheckSpec::Http { url } => url.clone(),
        CheckSpec::Tcp { host, port } => {
            let mut out = host.clone();
            out.append(":");
            out.append(decimal_text(*port as u64).as_str());
            out
        },
        CheckSpec::Ping { host } => host.clone(),
        CheckSpec::Heartbeat => owned("heartbeat"),
        _ => owned("-"),
    }
}

/// One monitor, as it is listed.
#[derive(Clone, Debug)]
pub struct TargetListRow {
    pub href: String,
    pub name: String,
    pub address: String,
    pub chip: &'static str,
    pub chip_class: &'static str,
    pub dot_class: String,
    pub status_text: &'static str,
    pub interval: String,
    pub latency_label: String,
    pub badge: Badge,
}

/// `line` lists the monitor `row`.
pub open spec fn is_target_list_row(line: TargetListRow, row: MonitorRow) -> bool {
    let heartbeat = row.target.check is Heartbeat;
    let dot = crate::ui::status_page_detail::dot_and_label(row.latest, heartbeat);
    &&& line.href@ == "/targets/"@ + crate::codec::id_text(row.target.id)
    &&& crate::codec::parsed_id(crate::codec::id_text(row.target.id)) == Some(row.target.id)
    &&& line.name@ == row.target.name@
    &&& line.address@ == address_of(row.target.check)
    &&& line.chip@ == crate::ui::status_page_detail::check_type(row.target.check)
    &&& line.chip_class@ == if heartbeat {
        "type-chip type-chip--heartbeat"@
    } else {
        "type-chip"@
    }
    &&& line.dot_class@ == "dashboard-dot "@ + dot.0
    &&& line.status_text@ == if row.latest is None {
        "No data yet"@
    } else {
        dot.1
    }
    &&& line.interval@ == crate::text::decimal(row.target.interval_secs as nat) + "s"@
    &&& line.latency_label@ == crate::ui::status_page_detail::latency_words(row.latest, heartbeat)
    &&& crate::ui::shell::is_enabled_badge(line.badge, row.target.enabled)
}

/// Lists one monitor.
pub fn target_list_row(row: &MonitorRow) -> (r: TargetListRow)
    ensures
        is_target_list_row(r, *row),
{
    let heartbeat = is_heartbeat(&row.target.check);
    let id = uuid_text(row.target.id);
    let mut href = owned("/targets/");
    href.append(id.as_str());
    assert(id@ == crate::codec::id_text(row.target.id));
    let (dot, status_text) = match &row.latest {
        None => ("", "No data yet"),
        Some(result) => match result.status {
            CheckStatus::Up => if heartbeat {
                ("dashboard-dot--up dashboard-dot--heartbeat", "Operational")
            } else {
                ("dashboard-dot--up", "Operational")
            },
            CheckStatus::Degraded => ("dashboard-dot--degraded", "Degraded"),
            CheckStatus::Down => ("dashboard-dot--down", "Down"),
            CheckStatus::Error => ("dashboard-dot--error", "Error"),
            CheckStatus::Unknown => ("dashboard-dot--unknown", "Unknown"),
        },
    };
    let mut dot_class = owned("dashboard-dot ");
    dot_class.append(dot);
    let latency_label = match &row.latest {
        Some(result) => if heartbeat {
            owned("—")
        } else {
            let mut words = decimal_text(result.duration_ms as u64);
            words.append(" ms");
            words
        },
        None => owned("—"),
    };
    let mut interval = decimal_text(row.target.interval_secs);
    interval.append("s");
    TargetListRow {
        href,
        name: row.target.name.clone(),
        address: check_address(&row.target.check),
        chip: check_type_label(&row.target.check),
        chip_class: if heartbeat {
            "type-chip type-chip--heartbeat"
        } else {
            "type-chip"
        },
        dot_class,
        status_text,
        interval,
        latency_label,
        badge: enabled_badge(row.target.enabled),
    }
}

/// The page that lists monitors.
pub fn targets_list_page(view: &TargetsView) -> (r: ListPage<TargetListRow>)
    ensures
        is_list_warning(
            r.warning,
            match view.error {
                Some(e) => Some(e@),
                None => None,
            },
            view.rows@.len() == 0,
            "Failed to load monitors"@,
        ),
        match r.body {
            ListBody::Hidden => view.rows@.len() == 0 && view.error is Some,
            ListBody::Empty(n) => view.rows@.len() == 0 && view.error is None && n.says(
                "No monitors configured"@,
                "Add monitors via the API to start tracking uptime."@,
            ),
            ListBody::Rows(rows) => {
                &&& view.rows@.len() > 0
                &&& rows@.len() == view.rows@.len()
                &&& forall|i: int|
                    0 <= i < rows@.len() ==> is_target_list_row(#[trigger] rows@[i], view.rows@[i])
            },
        },
{
    let nothing = view.rows.len() == 0;
    let warning = list_warning(&view.error, nothing, "Failed to load monitors");
    if nothing {
        let body = if view.error.is_some() {
            ListBody::Hidden
        } else {
            ListBody::Empty(
                Notice {
                    title: "No monitors configured",
                    message: owned("Add monitors via the API to start tracking uptime."),
                },
            )
        };
        return ListPage { warning, body };
    }
    let mut rows: Vec<TargetListRow> = Vec::new();
    let mut i: usize = 0;
    while i < view.rows.len()
        invariant
            i <= view.rows.len(),
            rows@.len() == i,
            forall|k: int|
                0 <= k < i ==> is_target_list_row(#[trigger] rows@[k], view.rows@[k]),
        decreases view.rows.len() - i,
    {
        rows.push(target_list_row(&view.rows[i]));
        i += 1;
    }
    ListPage { warning, body: ListBody::Rows(rows) }
}

} // verus!
