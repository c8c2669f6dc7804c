//! Spans of time that operators plan: maintenance windows and silence rules.

use vstd::prelude::*;
use vstd::string::*;

use crate::auth::identity::AuthIdentity;
use crate::codec::Id;
use crate::domain::{CheckResult, Incident, MaintenanceWindow};
use crate::engine::incident_writer::{evaluate_target, IncidentChange};
use crate::error::{bad_request, forbidden_code, AppError};
use crate::text::owned;
use crate::time::Moment;

verus! {

/// A maintenance window to be made.
#[derive(Clone, Debug)]
pub struct NewMaintenanceWindow {
    pub title: String,
    pub description: Option<String>,
    pub starts_at: Moment,
    pub ends_at: Moment,
    pub component_ids: Vec<Id>,
}

/// What to change of a maintenance window; `None` leaves a member as it is.
#[derive(Clone, Debug)]
pub struct MaintenanceWindowUpdate {
    pub title: Option<String>,
    pub description: Option<String>,
    pub starts_at: Option<Moment>,
    pub ends_at: Option<Moment>,
    pub component_ids: Option<Vec<Id>>,
}

/// `e` is the refusal of a span that does not end after it starts.
pub open spec fn is_window_refusal(e: AppError) -> bool {
    crate::error::is_bad_request(e, "INVALID_WINDOW"@, "ends_at must be after starts_at"@)
}

/// Whether a span ends after it starts.
fn check_window(starts_at: Moment, ends_at: Moment) -> (r: Result<(), AppError>)
    ensures
        match r {
            Ok(_) => starts_at < ends_at,
            Err(e) => ends_at <= starts_at && is_window_refusal(e),
        },
{
    if ends_at <= starts_at {
        Err(bad_request("INVALID_WINDOW", owned("ends_at must be after starts_at")))
    } else {
        Ok(())
    }
}

/// Makes a maintenance window, which has to end after it starts.
pub fn create_maintenance_window(new: NewMaintenanceWindow, id: Id, now: Moment) -> (r: Result<
    MaintenanceWindow,
    AppError,
>)
    ensures
        match r {
            Ok(w) => new.starts_at < new.ends_at && w == (MaintenanceWindow {
                id,
                title: new.title,
                description: new.description,
                starts_at: new.starts_at,
                ends_at: new.ends_at,
                component_ids: new.component_ids,
                created_at: now,
                updated_at: now,
            }),
            Err(e) => new.ends_at <= new.starts_at && is_window_refusal(e),
        },
{
    match check_window(new.starts_at, new.ends_at) {
        Err(e) => Err(e),
        Ok(_) => Ok(
            MaintenanceWindow {
                id,
                title: new.title,
                description: new.description,
                starts_at: new.starts_at,
                ends_at: new.ends_at,
                component_ids: new.component_ids,
                created_at: now,
                updated_at: now,
            },
        ),
    }
}

/// A maintenance window with what `update` says changed, at `now`.
pub open spec fn updated_window(
    w: MaintenanceWindow,
    update: MaintenanceWindowUpdate,
    now: Moment,
) -> MaintenanceWindow {
    MaintenanceWindow {
        id: w.id,
        title: match update.title {
            Some(v) => v,
            None => w.title,
        },
        description: match update.description {
            Some(v) => Some(v),
            None => w.description,
        },
        starts_at: match update.starts_at {
            Some(v) => v,
            None => w.starts_at,
        },
        ends_at: match update.ends_at {
            Some(v) => v,
            None => w.ends_at,
        },
        component_ids: match update.component_ids {
            Some(v) => v,
            None => w.component_ids,
        },
        created_at: w.created_at,
        updated_at: now,
    }
}

/// Changes a maintenance window, which still has to end after it starts.
pub fn update_maintenance_window(
    window: MaintenanceWindow,
    update: MaintenanceWindowUpdate,
    now: Moment,
) -> (r: Result<MaintenanceWindow, AppError>)
    ensures
        ({
            let changed = updated_window(window, update, now);
            match r {
                Ok(w) => changed.starts_at < changed.ends_at && w == changed,
                Err(e) => changed.ends_at <= changed.starts_at && is_window_refusal(e),
            }
        }),
{
    let starts_at: Moment = match update.starts_at {
        Some(v) => v,
        None => window.starts_at,
    };
    let ends_at: Moment = match update.ends_at {
        Some(v) => v,
        None => window.ends_at,
    };
    match check_window(starts_at, ends_at) {
        Err(e) => Err(e),
        Ok(_) => Ok(
            MaintenanceWindow {
                id: window.id,
                title: match update.title {
                    Some(v) => v,
                    None => window.title,
                },
                description: match update.description {
                    Some(v) => Some(v),
                    None => window.description,
                },
                starts_at,
                ends_at,
                component_ids: match update.component_ids {
                    Some(v) => v,
                    None => window.component_ids,
                },
                created_at: window.created_at,
                updated_at: now,
            },
        ),
    }
}

/// Whether a window is open at `now`: from its start on, until before its end.
pub open spec fn is_running(w: MaintenanceWindow, now: Moment) -> bool {
    w.starts_at <= now < w.ends_at
}

/// Whether a window is yet to come at `now`.
pub open spec fn is_upcoming(w: MaintenanceWindow, now: Moment) -> bool {
    now < w.starts_at
}

/// The windows that are open at `now`, in the order given.
pub fn active_windows(windows: Vec<MaintenanceWindow>, now: Moment) -> (r: Vec<MaintenanceWindow>)
    ensures
        r@ == windows@.filter(|w: MaintenanceWindow| is_running(w, now)),
{
    let ghost keep = |w: MaintenanceWindow| is_running(w, now);
    let ghost all = windows@;
    let mut rest = windows;
    let mut out: Vec<MaintenanceWindow> = Vec::new();
    let ghost mut n: int = 0;
    assert(all.take(0).filter(keep) =~= Seq::<MaintenanceWindow>::empty()) by {
        reveal(Seq::filter);
    }
    while rest.len() > 0
        invariant
            0 <= n <= all.len(),
            rest@ == all.skip(n),
            keep == (|w: MaintenanceWindow| is_running(w, now)),
            out@ == all.take(n).filter(keep),
        decreases rest.len(),
    {
        let w = rest.remove(0);
        assert(w == all[n]);
        proof {
            crate::public::incident::lemma_filter_next(all, keep, n);
        }
        if w.starts_at <= now && now < w.ends_at {
            out.push(w);
        }
        proof {
            n = n + 1;
        }
        assert(rest@ =~= all.skip(n));
    }
    assert(all.take(n) =~= all);
    out
}

/// The windows that are yet to come at `now`, in the order given.
pub fn upcoming_windows(windows: Vec<MaintenanceWindow>, now: Moment) -> (r: Vec<
    MaintenanceWindow,
>)
    ensures
        r@ == windows@.filter(|w: MaintenanceWindow| is_upcoming(w, now)),
{
    let ghost keep = |w: MaintenanceWindow| is_upcoming(w, now);
    let ghost all = windows@;
    let mut rest = windows;
    let mut out: Vec<MaintenanceWindow> = Vec::new();
    let ghost mut n: int = 0;
    assert(all.take(0).filter(keep) =~= Seq::<MaintenanceWindow>::empty()) by {
        reveal(Seq::filter);
    }
    while rest.len() > 0
        invariant
            0 <= n <= all.len(),
            rest@ == all.skip(n),
            keep == (|w: MaintenanceWindow| is_upcoming(w, now)),
            out@ == all.take(n).filter(keep),
        decreases rest.len(),
    {
        let w = rest.remove(0);
        assert(w == all[n]);
        proof {
            crate::public::incident::lemma_filter_next(all, keep, n);
        }
        if now < w.starts_at {
            out.push(w);
        }
        proof {
            n = n + 1;
        }
        assert(rest@ =~= all.skip(n));
    }
    assert(all.take(n) =~= all);
    out
}

/// While a window that covers a target is open, no incident of the target is opened,
/// whatever its results are.
pub proof fn law_maintenance_opens_no_incident(
    windows: Seq<MaintenanceWindow>,
    k: int,
    target_id: Id,
    results: &Vec<CheckResult>,
    open: Option<Incident>,
    id: Id,
    now: Moment,
    r: IncidentChange,
)
    requires
        0 <= k < windows.len(),
        is_running(windows[k], now),
        windows[k].component_ids@.contains(target_id),
        call_ensures(
            evaluate_target,
            (
                crate::public::status::covered(
                    windows.filter(|w: MaintenanceWindow| is_running(w, now)),
                    target_id,
                ),
                target_id,
                results,
                open,
                id,
                now,
            ),
            r,
        ),
    ensures
        !(r is Open),
        open is None ==> r is Nothing,
{
    let keep = |w: MaintenanceWindow| is_running(w, now);
    let active = windows.filter(keep);
    windows.lemma_filter_contains(keep, k);
    assert(active.contains(windows[k]));
    let j = choose|j: int| 0 <= j < active.len() && active[j] == windows[k];
    assert(active[j].component_ids@.contains(target_id));
    assert(crate::public::status::covered(active, target_id));
}

/// Every maintenance window that was made or changed ends after it starts, so that
/// some moment lies in it.
pub proof fn law_windows_hold_a_moment(
    made: Result<MaintenanceWindow, AppError>,
    new: NewMaintenanceWindow,
    id: Id,
    changed: Result<MaintenanceWindow, AppError>,
    window: MaintenanceWindow,
    update: MaintenanceWindowUpdate,
    now: Moment,
)
    requires
        call_ensures(create_maintenance_window, (new, id, now), made),
        call_ensures(update_maintenance_window, (window, update, now), changed),
    ensures
        made matches Ok(w) ==> w.starts_at <= w.starts_at < w.ends_at,
        changed matches Ok(w) ==> w.starts_at <= w.starts_at < w.ends_at,
{
}

/// A silence rule to be made. Without a target it silences all of them.
#[derive(Clone, Debug)]
pub struct NewSilenceRule {
    pub target_id: Option<Id>,
    pub channel_id: Option<Id>,
    pub reason: Option<String>,
    pub starts_at: Moment,
    pub ends_at: Moment,
}

/// A silence rule, as it is kept.
#[derive(Clone, Debug)]
pub struct SilenceRule {
    pub id: Id,
    pub rule: NewSilenceRule,
}

/// Whether a silence rule may be made: it has to end after it starts, and one for
/// all targets takes a browser session.
pub fn create_silence_rule(new: &NewSilenceRule, identity: &AuthIdentity) -> (r: Result<
    (),
    AppError,
>)
    ensures
        match r {
            Ok(_) => new.starts_at < new.ends_at && (new.target_id is Some || identity is Session),
            Err(e) => {
                ||| new.ends_at <= new.starts_at && is_window_refusal(e)
                ||| new.starts_at < new.ends_at && new.target_id is None && !(identity is Session)
                    && crate::error::is_forbidden(
                    e,
                    "GLOBAL_SILENCE_REQUIRES_SESSION"@,
                    "global silence rules require a browser session (API tokens are not permitted)"@,
                )
            },
        },
{
    match check_window(new.starts_at, new.ends_at) {
        Err(e) => Err(e),
        Ok(_) => {
            if new.target_id.is_none() && !identity.is_session() {
                Err(
                    forbidden_code(
                        "GLOBAL_SILENCE_REQUIRES_SESSION",
                        owned(
                            "global silence rules require a browser session (API tokens are not permitted)",
                        ),
                    ),
                )
            } else {
                Ok(())
            }
        },
    }
}

} // verus!
