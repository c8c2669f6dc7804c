//! What a status page is about: monitored targets and their check results,
//! incidents, maintenance, and the public projection of them.

use vstd::prelude::*;
use vstd::string::*;

use crate::codec::Id;
use crate::time::Moment;

verus! {

/// The outcome of one check. `Unknown` stands for an outcome that this version
/// has no name for.
#[derive(Clone, Copy, Debug, PartialEq, Eq, Structural)]
pub enum CheckStatus {
    Up,
    Degraded,
    Down,
    Error,
    Unknown,
}

/// How bad an incident is.
#[derive(Clone, Copy, Debug, PartialEq, Eq, Structural)]
pub enum IncidentSeverity {
    Minor,
    Major,
    Critical,
    Unknown,
}

/// How far the handling of an incident has come.
#[derive(Clone, Copy, Debug, PartialEq, Eq, Structural)]
pub enum IncidentStatusPhase {
    Investigating,
    Identified,
    Monitoring,
    Resolved,
    Postmortem,
    Unknown,
}

/// The public state of one component.
#[derive(Clone, Copy, Debug, PartialEq, Eq, Structural)]
pub enum PublicComponentStatus {
    Operational,
    Degraded,
    PartialOutage,
    MajorOutage,
    Maintenance,
    Unknown,
}

/// The public state of a whole page.
#[derive(Clone, Copy, Debug, PartialEq, Eq, Structural)]
pub enum OverallState {
    Operational,
    Maintenance,
    MinorDisruption,
    PartialOutage,
    MajorOutage,
    Unknown,
}

/// The state of a component over one day.
#[derive(Clone, Copy, Debug, PartialEq, Eq, Structural)]
pub enum DayState {
    Operational,
    Degraded,
    PartialOutage,
    MajorOutage,
    Maintenance,
    NoData,
    Unknown,
}

impl IncidentSeverity {
    /// The stored name of a severity.
    pub open spec fn db_name(self) -> Seq<char> {
        match self {
            IncidentSeverity::Minor => "minor"@,
            IncidentSeverity::Major => "major"@,
            IncidentSeverity::Critical => "critical"@,
            IncidentSeverity::Unknown => "unknown"@,
        }
    }

    /// The stored name of this severity.
    pub fn as_db_str(self) -> (r: &'static str)
        ensures
            r@ == self.db_name(),
    {
        match self {
            IncidentSeverity::Minor => "minor",
            IncidentSeverity::Major => "major",
            IncidentSeverity::Critical => "critical",
            IncidentSeverity::Unknown => "unknown",
        }
    }
}

impl IncidentStatusPhase {
    /// The stored name of a phase.
    pub open spec fn db_name(self) -> Seq<char> {
        match self {
            IncidentStatusPhase::Investigating => "investigating"@,
            IncidentStatusPhase::Identified => "identified"@,
            IncidentStatusPhase::Monitoring => "monitoring"@,
            IncidentStatusPhase::Resolved => "resolved"@,
            IncidentStatusPhase::Postmortem => "postmortem"@,
            IncidentStatusPhase::Unknown => "unknown"@,
        }
    }

    /// The stored name of this phase.
    pub fn as_db_str(self) -> (r: &'static str)
        ensures
            r@ == self.db_name(),
    {
        match self {
            IncidentStatusPhase::Investigating => "investigating",
            IncidentStatusPhase::Identified => "identified",
            IncidentStatusPhase::Monitoring => "monitoring",
            IncidentStatusPhase::Resolved => "resolved",
            IncidentStatusPhase::Postmortem => "postmortem",
            IncidentStatusPhase::Unknown => "unknown",
        }
    }
}

/// One entry of an incident's public timeline.
#[derive(Debug)]
pub struct PublicIncidentUpdate {
    pub posted_at: Moment,
    pub phase: IncidentStatusPhase,
    pub message: String,
}

impl Clone for PublicIncidentUpdate {
    fn clone(&self) -> (r: Self)
        ensures
            r == *self,
    {
        PublicIncidentUpdate {
            posted_at: self.posted_at,
            phase: self.phase,
            message: self.message.clone(),
        }
    }
}

/// An incident on one target.
#[derive(Clone, Debug)]
pub struct Incident {
    pub id: Id,
    pub target_id: Id,
    pub started_at: Moment,
    /// `None` while the incident is open.
    pub ended_at: Option<Moment>,
    pub status: CheckStatus,
    pub duration_secs: Option<u64>,
    pub check_count: u64,
    pub error_sample: Option<String>,
    pub severity: IncidentSeverity,
    /// An incident with neither a public title nor a public description is internal.
    pub public_title: Option<String>,
    pub public_description: Option<String>,
    pub created_at: Option<Moment>,
    pub updated_at: Option<Moment>,
    pub updates: Vec<PublicIncidentUpdate>,
    /// The regions that see the target down.
    pub regions_down: Vec<String>,
    /// The regions that see the target up.
    pub regions_up: Vec<String>,
}

/// A task that came out of a postmortem.
#[derive(Clone, Debug)]
pub struct ActionItem {
    pub text: String,
    pub done: bool,
    pub owner_user_id: Option<Id>,
}

/// What was learnt from an incident. Public once it has a publication time.
#[derive(Clone, Debug)]
pub struct IncidentPostmortem {
    pub summary: String,
    pub root_cause: Option<String>,
    pub impact: Option<String>,
    pub action_items: Vec<ActionItem>,
    pub author_id: Option<Id>,
    pub published_at: Option<Moment>,
}

/// A task, without the person who owns it.
#[derive(Clone, Debug)]
pub struct PublicActionItem {
    pub text: String,
    pub done: bool,
}

/// A published postmortem, without its author.
#[derive(Clone, Debug)]
pub struct PublicPostmortem {
    pub summary: String,
    pub root_cause: Option<String>,
    pub impact: Option<String>,
    pub action_items: Vec<PublicActionItem>,
    pub published_at: Moment,
}

/// An incident as the public sees it.
#[derive(Clone, Debug)]
pub struct PublicIncident {
    pub id: Id,
    pub component_id: Id,
    pub component_name: String,
    pub title: String,
    pub started_at: Moment,
    pub ended_at: Option<Moment>,
    pub severity: IncidentSeverity,
    pub status_phase: IncidentStatusPhase,
    pub updates: Vec<PublicIncidentUpdate>,
    pub postmortem: Option<PublicPostmortem>,
}

/// A component as the public sees it.
#[derive(Clone, Debug)]
pub struct PublicComponent {
    pub id: Id,
    pub name: String,
    pub description: Option<String>,
    pub current_status: PublicComponentStatus,
    /// One state a day, the oldest first.
    pub history: Vec<DayState>,
}

/// Components that are shown together; `name` is `None` for a component that
/// stands alone.
#[derive(Clone, Debug)]
pub struct PublicComponentGroup {
    pub name: Option<String>,
    pub components: Vec<PublicComponent>,
}

/// A maintenance window as the public sees it.
#[derive(Clone, Debug)]
pub struct PublicMaintenance {
    pub id: Id,
    pub title: String,
    pub description: Option<String>,
    pub starts_at: Moment,
    pub ends_at: Moment,
    pub affected_component_names: Vec<String>,
}

/// The state of a page and the words for it.
#[derive(Clone, Debug)]
pub struct OverallStatus {
    pub state: OverallState,
    pub label: String,
}

/// All that a public status page shows.
#[derive(Clone, Debug)]
pub struct PublicStatusPage {
    pub overall: OverallStatus,
    pub generated_at: Moment,
    pub site_name: String,
    pub groups: Vec<PublicComponentGroup>,
    pub active_incidents: Vec<PublicIncident>,
    pub recent_incidents: Vec<PublicIncident>,
    pub recent_incidents_has_more: bool,
    pub active_maintenance: Vec<PublicMaintenance>,
    pub upcoming_maintenance: Vec<PublicMaintenance>,
    pub logo_hash: Option<String>,
}

/// How a page presents itself.
#[derive(Clone, Debug)]
pub struct PublicOrgBranding {
    pub public_display_name: Option<String>,
    pub public_about: Option<String>,
}

/// A status page.
#[derive(Clone, Debug)]
pub struct StatusPage {
    pub id: Id,
    pub org_id: Id,
    pub slug: String,
    pub name: String,
    pub enabled: bool,
    pub branding: PublicOrgBranding,
    pub created_at: Moment,
    pub updated_at: Moment,
}

/// A target on a status page.
#[derive(Clone, Debug)]
pub struct StatusPageComponent {
    pub target_id: Id,
    pub monitor_name: String,
    pub public_name: Option<String>,
    pub public_description: Option<String>,
    pub public_group: Option<String>,
    pub sort_order: i32,
}

/// A span of planned work on some targets.
#[derive(Clone, Debug)]
pub struct MaintenanceWindow {
    pub id: Id,
    pub title: String,
    pub description: Option<String>,
    pub starts_at: Moment,
    pub ends_at: Moment,
    pub component_ids: Vec<Id>,
    pub created_at: Moment,
    pub updated_at: Moment,
}

/// The outcome of one check of one target.
#[derive(Clone, Debug)]
pub struct CheckResult {
    pub target_id: Id,
    pub timestamp: Moment,
    pub status: CheckStatus,
    pub duration_ms: u32,
    pub error: Option<String>,
}

/// What a target is checked by.
#[derive(Clone, Debug)]
pub enum CheckSpec {
    Http { url: String },
    Tcp { host: String, port: u16 },
    Ping { host: String },
    Heartbeat,
    DomainExpiry { domain: String },
    /// A kind of check that this version has no name for.
    Other { kind: String },
}

impl CheckSpec {
    /// The name of a kind of check.
    pub open spec fn kind_name(self) -> Seq<char> {
        match self {
            CheckSpec::Http { .. } => "http"@,
            CheckSpec::Tcp { .. } => "tcp"@,
            CheckSpec::Ping { .. } => "ping"@,
            CheckSpec::Heartbeat => "heartbeat"@,
            CheckSpec::DomainExpiry { .. } => "domain_expiry"@,
            CheckSpec::Other { kind } => kind@,
        }
    }

    /// The name of this kind of check.
    pub fn kind(&self) -> (r: &str)
        ensures
            r@ == self.kind_name(),
    {
        match self {
            CheckSpec::Http { .. } => "http",
            CheckSpec::Tcp { .. } => "tcp",
            CheckSpec::Ping { .. } => "ping",
            CheckSpec::Heartbeat => "heartbeat",
            CheckSpec::DomainExpiry { .. } => "domain_expiry",
            CheckSpec::Other { kind } => kind.as_str(),
        }
    }
}

/// A thing that is monitored.
#[derive(Clone, Debug)]
pub struct Target {
    pub id: Id,
    pub name: String,
    pub enabled: bool,
    pub check: CheckSpec,
    pub interval_secs: u64,
    pub group_name: Option<String>,
    pub tags: Vec<String>,
    /// The channels that are told of this target's incidents.
    pub alerts: Vec<Id>,
    pub alert_confirmations: u32,
    pub notify_recovery: bool,
    pub renotify_interval_secs: u64,
    pub region_policy: String,
    pub owner_user_id: Option<Id>,
    pub escalation_policy_id: Option<Id>,
    pub created_at: Moment,
    pub updated_at: Moment,
}

/// A copy of an optional text.
pub fn copy_text(s: &Option<String>) -> (r: Option<String>)
    ensures
        r == *s,
{
    match s {
        Some(t) => Some(t.clone()),
        None => None,
    }
}

} // verus!
