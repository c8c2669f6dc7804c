//! Incidents that operators open, change and carry through their life.

use vstd::prelude::*;
use vstd::string::*;

use crate::codec::{uuid_text, Id, NIL};
use crate::domain::{
    CheckStatus, Incident, IncidentSeverity, IncidentStatusPhase, PublicIncidentUpdate,
};
use crate::text::{owned, same_text};
use crate::time::Moment;

verus! {

/// An incident to be opened by hand.
#[derive(Clone, Debug)]
pub struct NewIncidentBody {
    pub target_id: Option<Id>,
    pub severity: IncidentSeverity,
    pub public_title: Option<String>,
    pub public_description: Option<String>,
}

/// `i` is the incident that `body` asks for, under this identifier, opened at `now`.
pub open spec fn is_opened(i: Incident, body: NewIncidentBody, id: Id, now: Moment) -> bool {
    &&& i.id == id
    &&& i.target_id == match body.target_id {
        Some(t) => t,
        None => 0,
    }
    &&& i.started_at == now
    &&& i.ended_at is None
    &&& i.status == CheckStatus::Down
    &&& i.duration_secs is None
    &&& i.check_count == 0
    &&& i.error_sample is None
    &&& i.severity == body.severity
    &&& i.public_title == body.public_title
    &&& i.public_description == body.public_description
    &&& i.created_at == Some(now)
    &&& i.updated_at == Some(now)
    &&& i.updates@.len() == 0
    &&& i.regions_down@.len() == 0
    &&& i.regions_up@.len() == 0
}

/// Opens an incident by hand. It may be about no target at all.
pub fn create_incident(body: NewIncidentBody, id: Id, now: Moment) -> (r: Incident)
    ensures
        is_opened(r, body, id, now),
{
    Incident {
        id,
        target_id: match body.target_id {
            Some(t) => t,
            None => NIL,
        },
        started_at: now,
        ended_at: None,
        status: CheckStatus::Down,
        duration_secs: None,
        check_count: 0,
        error_sample: None,
        severity: body.severity,
        public_title: body.public_title,
        public_description: body.public_description,
        created_at: Some(now),
        updated_at: Some(now),
        updates: Vec::new(),
        regions_down: Vec::new(),
        regions_up: Vec::new(),
    }
}

/// What is sent out about an incident that was opened.
pub fn opened_message(incident: &Incident) -> (r: String)
    ensures
        r@ == "incident "@ + crate::codec::id_text(incident.id) + " opened: severity="@
            + incident.severity.db_name() + " target="@ + crate::codec::id_text(incident.target_id)
            + " title="@ + match incident.public_title {
            Some(t) => t@,
            None => "(none)"@,
        },
{
    let mut message = owned("incident ");
    message.append(uuid_text(incident.id).as_str());
    message.append(" opened: severity=");
    message.append(incident.severity.as_db_str());
    message.append(" target=");
    message.append(uuid_text(incident.target_id).as_str());
    message.append(" title=");
    match &incident.public_title {
        Some(t) => message.append(t.as_str()),
        None => message.append("(none)"),
    }
    message
}

/// What to change of an incident; `None` leaves a member as it is.
#[derive(Clone, Debug)]
pub struct IncidentUpdateBody {
    pub severity: Option<IncidentSeverity>,
    pub status: Option<CheckStatus>,
    pub ended_at: Option<Moment>,
    pub public_title: Option<String>,
    pub public_description: Option<String>,
}

/// An incident with what `body` says changed, and nothing else.
pub open spec fn updated_incident(i: Incident, body: IncidentUpdateBody) -> Incident {
    Incident {
        severity: match body.severity {
            Some(v) => v,
            None => i.severity,
        },
        status: match body.status {
            Some(v) => v,
            None => i.status,
        },
        ended_at: match body.ended_at {
            Some(v) => Some(v),
            None => i.ended_at,
        },
        public_title: match body.public_title {
            Some(v) => Some(v),
            None => i.public_title,
        },
        public_description: match body.public_description {
            Some(v) => Some(v),
            None => i.public_description,
        },
        ..i
    }
}

impl IncidentUpdateBody {
    /// Changes an incident by these wishes.
    pub fn apply_to(self, incident: &mut Incident)
        ensures
            *final(incident) == updated_incident(*old(incident), self),
    {
        if let Some(v) = self.severity {
            incident.severity = v;
        }
        if let Some(v) = self.status {
            incident.status = v;
        }
        if let Some(v) = self.ended_at {
            incident.ended_at = Some(v);
        }
        if let Some(v) = self.public_title {
            incident.public_title = Some(v);
        }
        if let Some(v) = self.public_description {
            incident.public_description = Some(v);
        }
    }
}

/// Changes an incident by hand, at `now`.
pub fn update_incident(incident: Incident, body: IncidentUpdateBody, now: Moment) -> (r: Incident)
    ensures
        r == (Incident { updated_at: Some(now), ..updated_incident(incident, body) }),
{
    let mut changed = incident;
    body.apply_to(&mut changed);
    changed.updated_at = Some(now);
    changed
}

/// An entry to be put on an incident's timeline.
#[derive(Clone, Debug)]
pub struct NewIncidentUpdateBody {
    pub phase: IncidentStatusPhase,
    pub message: String,
    pub posted_at: Option<Moment>,
}

/// The entry that `body` asks for; it is of `now` where it names no time.
pub fn add_incident_update(body: NewIncidentUpdateBody, now: Moment) -> (r: PublicIncidentUpdate)
    ensures
        r == (PublicIncidentUpdate {
            posted_at: match body.posted_at {
                Some(t) => t,
                None => now,
            },
            phase: body.phase,
            message: body.message,
        }),
{
    PublicIncidentUpdate {
        posted_at: match body.posted_at {
            Some(t) => t,
            None => now,
        },
        phase: body.phase,
        message: body.message,
    }
}

/// What an operator can do to an incident as a whole.
#[derive(Clone, Copy, Debug, PartialEq, Eq, Structural)]
pub enum Transition {
    Acknowledge,
    Resolve,
    Reopen,
}

/// What an operator wishes of an incident. All but `transition` is for the store
/// alone.
#[derive(Clone, Debug)]
pub struct IncidentOpsPatch {
    pub transition: Option<String>,
    pub assignee_id: Option<Id>,
    pub severity: Option<IncidentSeverity>,
    pub publish: Option<bool>,
    pub note: Option<String>,
}

impl Transition {
    /// The name of a transition.
    pub open spec fn name(self) -> Seq<char> {
        match self {
            Transition::Acknowledge => "acknowledge"@,
            Transition::Resolve => "resolve"@,
            Transition::Reopen => "reopen"@,
        }
    }

    /// The name of this transition.
    pub fn as_str(self) -> (r: &'static str)
        ensures
            r@ == self.name(),
    {
        match self {
            Transition::Acknowledge => "acknowledge",
            Transition::Resolve => "resolve",
            Transition::Reopen => "reopen",
        }
    }

    /// The patch that carries this transition and nothing else.
    pub fn to_patch(self) -> (r: IncidentOpsPatch)
        ensures
            r.transition matches Some(t) && t@ == self.name(),
            r.assignee_id is None,
            r.severity is None,
            r.publish is None,
            r.note is None,
    {
        IncidentOpsPatch {
            transition: Some(owned(self.as_str())),
            assignee_id: None,
            severity: None,
            publish: None,
            note: None,
        }
    }
}

/// What a patch asks of the escalation of an incident.
#[derive(Clone, Copy, Debug, PartialEq, Eq, Structural)]
pub enum Bookkeeping {
    /// Nobody is paged any more; the escalation is kept.
    Acknowledge,
    /// The escalation is over.
    Delete,
    Leave,
}

/// What a patch with this transition asks of the escalation of its incident.
pub open spec fn bookkeeping_for(transition: Option<Seq<char>>) -> Bookkeeping {
    match transition {
        Some(t) => if t == "acknowledge"@ {
            Bookkeeping::Acknowledge
        } else if t == "resolve"@ {
            Bookkeeping::Delete
        } else {
            Bookkeeping::Leave
        },
        None => Bookkeeping::Leave,
    }
}

/// What an accepted patch asks of the escalation of its incident: paging stops once
/// somebody acknowledges, and the escalation goes with the incident.
pub fn apply_incident_ops(patch: &IncidentOpsPatch) -> (r: Bookkeeping)
    ensures
        r == bookkeeping_for(
            match patch.transition {
                Some(t) => Some(t@),
                None => None,
            },
        ),
{
    match &patch.transition {
        Some(t) => {
            if same_text(t.as_str(), Transition::Acknowledge.as_str()) {
                Bookkeeping::Acknowledge
            } else if same_text(t.as_str(), Transition::Resolve.as_str()) {
                Bookkeeping::Delete
            } else {
                Bookkeeping::Leave
            }
        },
        None => Bookkeeping::Leave,
    }
}

/// No two transitions have one name, and each asks of the escalation what its name
/// says.
pub proof fn law_transitions_are_told_apart(a: Transition, b: Transition)
    ensures
        a.name() == b.name() <==> a == b,
        bookkeeping_for(Some(a.name())) == match a {
            Transition::Acknowledge => Bookkeeping::Acknowledge,
            Transition::Resolve => Bookkeeping::Delete,
            Transition::Reopen => Bookkeeping::Leave,
        },
{
    reveal_strlit("acknowledge");
    reveal_strlit("resolve");
    reveal_strlit("reopen");
    assert("acknowledge"@.len() == 11);
    assert("resolve"@.len() == 7);
    assert("reopen"@.len() == 6);
}

/// How many days metrics look back over where nobody says.
pub fn default_metrics_days() -> (r: u32)
    ensures
        r == 30,
{
    30
}

/// How many days metrics look back over: a year at most.
pub fn incident_metrics_days(days: Option<u32>) -> (r: u32)
    ensures
        r == match days {
            Some(d) => if d <= 365 {
                d
            } else {
                365
            },
            None => 30,
        },
{
    let asked: u32 = match days {
        Some(d) => d,
        None => default_metrics_days(),
    };
    if asked <= 365 {
        asked
    } else {
        365
    }
}

/// Changing an incident by hand leaves alone what it is about, when it began and
/// what was posted about it; and changing it twice by one wish is changing it once.
pub proof fn law_incident_updates_keep_the_rest(i: Incident, body: IncidentUpdateBody)
    ensures
        ({
            let u = updated_incident(i, body);
            &&& u.id == i.id
            &&& u.target_id == i.target_id
            &&& u.started_at == i.started_at
            &&& u.updates == i.updates
            &&& u.regions_down == i.regions_down
            &&& u.regions_up == i.regions_up
            &&& u.check_count == i.check_count
            &&& u.created_at == i.created_at
            &&& (i.ended_at is Some ==> u.ended_at is Some)
            &&& updated_incident(u, body) == u
        }),
{
}

} // verus!
