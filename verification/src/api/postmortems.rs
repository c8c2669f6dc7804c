//! Postmortems: written, published and taken back.

use vstd::prelude::*;
use vstd::string::*;

use crate::codec::{uuid_text, Id};
use crate::domain::{ActionItem, IncidentPostmortem};
use crate::error::{not_found, AppError};
use crate::text::owned;
use crate::time::Moment;

verus! {

/// A postmortem to be written.
#[derive(Clone, Debug)]
pub struct PostmortemUpsert {
    pub summary: String,
    pub root_cause: Option<String>,
    pub impact: Option<String>,
    pub action_items: Vec<ActionItem>,
}

/// `e` is the error for an incident without a postmortem.
pub open spec fn is_missing_postmortem(e: AppError, incident_id: Id) -> bool {
    crate::error::is_not_found(
        e,
        "POSTMORTEM_NOT_FOUND"@,
        "no postmortem for incident "@ + crate::codec::id_text(incident_id),
    )
}

/// The error for an incident without a postmortem.
fn missing_postmortem(incident_id: Id) -> (e: AppError)
    ensures
        is_missing_postmortem(e, incident_id),
{
    let mut message = owned("no postmortem for incident ");
    message.append(uuid_text(incident_id).as_str());
    not_found("POSTMORTEM_NOT_FOUND", message)
}

/// The postmortem of an incident, as operators see it.
pub fn get_postmortem(stored: Option<IncidentPostmortem>, incident_id: Id) -> (r: Result<
    IncidentPostmortem,
    AppError,
>)
    ensures
        match r {
            Ok(pm) => stored == Some(pm),
            Err(e) => stored is None && is_missing_postmortem(e, incident_id),
        },
{
    match stored {
        Some(pm) => Ok(pm),
        None => Err(missing_postmortem(incident_id)),
    }
}

/// Writes the postmortem of an incident, or writes it anew. Whoever writes it is its
/// author, and one that is public stays public.
pub fn upsert_postmortem(
    stored: Option<IncidentPostmortem>,
    author_id: Option<Id>,
    body: PostmortemUpsert,
) -> (r: IncidentPostmortem)
    ensures
        r == (IncidentPostmortem {
            summary: body.summary,
            root_cause: body.root_cause,
            impact: body.impact,
            action_items: body.action_items,
            author_id,
            published_at: match stored {
                Some(pm) => pm.published_at,
                None => None,
            },
        }),
{
    IncidentPostmortem {
        summary: body.summary,
        root_cause: body.root_cause,
        impact: body.impact,
        action_items: body.action_items,
        author_id,
        published_at: match stored {
            Some(pm) => pm.published_at,
            None => None,
        },
    }
}

/// Makes the postmortem of an incident public.
pub fn publish_postmortem(stored: Option<IncidentPostmortem>, incident_id: Id, now: Moment) -> (r:
    Result<IncidentPostmortem, AppError>)
    ensures
        match r {
            Ok(pm) => stored matches Some(s) && pm == (IncidentPostmortem {
                published_at: Some(now),
                ..s
            }),
            Err(e) => stored is None && is_missing_postmortem(e, incident_id),
        },
{
    match stored {
        Some(pm) => {
            let mut published = pm;
            published.published_at = Some(now);
            Ok(published)
        },
        None => Err(missing_postmortem(incident_id)),
    }
}

/// Takes the postmortem of an incident back from the public.
pub fn unpublish_postmortem(stored: Option<IncidentPostmortem>, incident_id: Id) -> (r: Result<
    IncidentPostmortem,
    AppError,
>)
    ensures
        match r {
            Ok(pm) => stored matches Some(s) && pm == (IncidentPostmortem {
                published_at: None,
                ..s
            }),
            Err(e) => stored is None && is_missing_postmortem(e, incident_id),
        },
{
    match stored {
        Some(pm) => {
            let mut hidden = pm;
            hidden.published_at = None;
            Ok(hidden)
        },
        None => Err(missing_postmortem(incident_id)),
    }
}

/// Writing a postmortem anew neither publishes it nor takes it back.
pub proof fn law_editing_keeps_publication(
    stored: IncidentPostmortem,
    author_id: Option<Id>,
    body: PostmortemUpsert,
    written: IncidentPostmortem,
)
    requires
        call_ensures(upsert_postmortem, (Some(stored), author_id, body), written),
    ensures
        written.published_at == stored.published_at,
{
}

/// Taking back what was published gives the postmortem as it was, unpublished.
pub proof fn law_unpublishing_undoes_publishing(
    stored: IncidentPostmortem,
    incident_id: Id,
    now: Moment,
    published: IncidentPostmortem,
    hidden: IncidentPostmortem,
)
    requires
        stored.published_at is None,
        call_ensures(
            publish_postmortem,
            (Some(stored), incident_id, now),
            Ok::<IncidentPostmortem, AppError>(published),
        ),
        call_ensures(
            unpublish_postmortem,
            (Some(published), incident_id),
            Ok::<IncidentPostmortem, AppError>(hidden),
        ),
    ensures
        published.published_at == Some(now),
        hidden == stored,
{
}

} // verus!
