//! Status pages: making and changing them, and the points of their charts.

use vstd::prelude::*;
use vstd::string::*;

use crate::codec::{Id, NIL};
use crate::domain::{CheckResult, PublicOrgBranding, StatusPage};
use crate::time::{to_rfc3339, Moment};

verus! {

/// How many results a chart is drawn from.
pub const CHART_RESULTS: u32 = 100;

/// A status page to be made.
#[derive(Clone, Debug)]
pub struct NewStatusPage {
    pub slug: String,
    pub name: String,
    pub enabled: bool,
}

/// What to change of a status page; `None` leaves a member as it is.
#[derive(Clone, Debug)]
pub struct StatusPageUpdate {
    pub name: Option<String>,
    pub slug: Option<String>,
    pub enabled: Option<bool>,
    pub branding: Option<PublicOrgBranding>,
}

/// Makes a status page, with no branding of its own. It belongs to the one
/// organisation that there is, which has the nil identifier.
pub fn create_status_page(new: NewStatusPage, id: Id, now: Moment) -> (r: StatusPage)
    ensures
        r.id == id,
        r.org_id == 0,
        r.slug == new.slug,
        r.name == new.name,
        r.enabled == new.enabled,
        r.branding.public_display_name is None,
        r.branding.public_about is None,
        r.created_at == now,
        r.updated_at == now,
{
    StatusPage {
        id,
        org_id: NIL,
        slug: new.slug,
        name: new.name,
        enabled: new.enabled,
        branding: PublicOrgBranding { public_display_name: None, public_about: None },
        created_at: now,
        updated_at: now,
    }
}

/// A status page with what `update` says changed, at `now`.
pub open spec fn updated_page(p: StatusPage, update: StatusPageUpdate, now: Moment) -> StatusPage {
    StatusPage {
        id: p.id,
        org_id: p.org_id,
        slug: match update.slug {
            Some(v) => v,
            None => p.slug,
        },
        name: match update.name {
            Some(v) => v,
            None => p.name,
        },
        enabled: match update.enabled {
            Some(v) => v,
            None => p.enabled,
        },
        branding: match update.branding {
            Some(v) => v,
            None => p.branding,
        },
        created_at: p.created_at,
        updated_at: now,
    }
}

/// Changes a status page.
pub fn update_status_page(page: StatusPage, update: StatusPageUpdate, now: Moment) -> (r:
    StatusPage)
    ensures
        r == updated_page(page, update, now),
{
    StatusPage {
        id: page.id,
        org_id: page.org_id,
        slug: match update.slug {
            Some(v) => v,
            None => page.slug,
        },
        name: match update.name {
            Some(v) => v,
            None => page.name,
        },
        enabled: match update.enabled {
            Some(v) => v,
            None => page.enabled,
        },
        branding: match update.branding {
            Some(v) => v,
            None => page.branding,
        },
        created_at: page.created_at,
        updated_at: now,
    }
}

/// The points of a chart: when each check ran and how long it took, the first of
/// `results` last.
pub fn get_status_page_history(results: &Vec<CheckResult>) -> (r: Vec<(String, u32)>)
    requires
        forall|i: int|
            0 <= i < results@.len() ==> crate::time::on_calendar(
                (#[trigger] results@[i]).timestamp as int,
            ),
    ensures
        r@.len() == results@.len(),
        forall|i: int|
            0 <= i < r@.len() ==> {
                let result = results@[results@.len() - 1 - i];
                &&& (#[trigger] r@[i]).0@ == crate::time::internet_date_of(result.timestamp as int)
                &&& r@[i].1 == result.duration_ms
            },
{
    let mut points: Vec<(String, u32)> = Vec::new();
    let mut n: usize = results.len();
    while n > 0
        invariant
            n + points@.len() == results@.len(),
            forall|i: int|
                0 <= i < results@.len() ==> crate::time::on_calendar(
                    (#[trigger] results@[i]).timestamp as int,
                ),
            forall|i: int|
                0 <= i < points@.len() ==> {
                    let result = results@[results@.len() - 1 - i];
                    &&& (#[trigger] points@[i]).0@ == crate::time::internet_date_of(
                        result.timestamp as int,
                    )
                    &&& points@[i].1 == result.duration_ms
                },
        decreases n,
    {
        n -= 1;
        let result = &results[n];
        points.push((to_rfc3339(result.timestamp), result.duration_ms));
    }
    points
}

/// Changing a page leaves its identity and its beginning alone, and changing it
/// twice by one wish is changing it once.
pub proof fn law_page_updates_are_idempotent(
    p: StatusPage,
    update: StatusPageUpdate,
    now: Moment,
)
    ensures
        updated_page(p, update, now).id == p.id,
        updated_page(p, update, now).created_at == p.created_at,
        updated_page(updated_page(p, update, now), update, now) == updated_page(p, update, now),
{
}

} // verus!
