//! The incidents and the maintenance that a public page shows.

use vstd::prelude::*;
use vstd::string::*;

use crate::codec::Id;
use crate::domain::{MaintenanceWindow, PublicMaintenance, PublicStatusPage};
use crate::error::AppError;
use crate::public::incident::{to_public_maintenance_list, IncidentRecord, TargetName};
use crate::domain::StatusPage;
use crate::public::snapshot::{
    compute_status_snapshot, resolve_page_id, ComponentReading, PageReadings,
};
use crate::time::Moment;

verus! {

/// Whether the target `t` is among the components of a page.
pub open spec fn is_part(components: Seq<ComponentReading>, t: Id) -> bool {
    exists|c: int| 0 <= c < components.len() && (#[trigger] components[c]).component.target_id == t
}

/// A page shows as active every open public incident on one of its components that is not
/// worked on, once, in order, and no other.
pub proof fn law_open_incidents_are_shown(
    readings: &PageReadings,
    to: Moment,
    generated_at: Moment,
    r: Result<PublicStatusPage, AppError>,
)
    requires
        call_ensures(compute_status_snapshot, (readings, to, generated_at), r),
        readings.page.enabled,
    ensures
        r matches Ok(out) && {
            let open = readings.incidents@.filter(
                |x: IncidentRecord|
                    {
                        &&& x.incident.ended_at is None
                        &&& is_part(readings.components@, x.incident.target_id)
                        &&& !crate::laws::public::is_worked_on(
                            readings.active_windows@,
                            x.incident.target_id,
                        )
                        &&& x.incident.public_title is Some || x.incident.public_description is Some
                    },
            );
            &&& out.active_incidents@.len() == open.len()
            &&& forall|i: int|
                0 <= i < open.len() ==> crate::laws::public::tells_of(
                    #[trigger] out.active_incidents@[i],
                    open[i],
                )
        },
{
    let out = r->Ok_0;
    let keep = |x: IncidentRecord|
        {
            &&& x.incident.ended_at is None
            &&& is_part(readings.components@, x.incident.target_id)
            &&& !crate::laws::public::is_worked_on(readings.active_windows@, x.incident.target_id)
            &&& x.incident.public_title is Some || x.incident.public_description is Some
        };
    let same = crate::public::snapshot::shown_as_active(*readings);
    assert forall|x: IncidentRecord| #[trigger] keep(x) == same(x) by {
        lemma_same_parts(readings.components@, x.incident.target_id);
        lemma_same_cover(readings.active_windows@, x.incident.target_id);
    }
    assert(keep =~= same);
    let open = readings.incidents@.filter(keep);
    assert forall|i: int| 0 <= i < open.len() implies crate::laws::public::tells_of(
        #[trigger] out.active_incidents@[i],
        open[i],
    ) by {
        crate::laws::public::lemma_tells_of(out.active_incidents@[i], open[i]);
    }
}

/// A page shows the 25 newest of the public incidents on its components that are over and
/// started within the last 90 days, the newest first, and says whether there are more.
/// `all` are all of them, in that order.
pub proof fn law_the_newest_closed_incidents_are_shown(
    readings: &PageReadings,
    to: Moment,
    generated_at: Moment,
    r: Result<PublicStatusPage, AppError>,
) -> (all: Seq<IncidentRecord>)
    requires
        call_ensures(compute_status_snapshot, (readings, to, generated_at), r),
        readings.page.enabled,
    ensures
        r matches Ok(out) && {
            let closed = readings.incidents@.filter(
                |x: IncidentRecord|
                    {
                        &&& x.incident.ended_at is Some
                        &&& to - x.incident.started_at <= 90 * 86_400 * 1_000_000_000
                        &&& is_part(readings.components@, x.incident.target_id)
                        &&& x.incident.public_title is Some || x.incident.public_description is Some
                    },
            );
            &&& all.to_multiset() == closed.to_multiset()
            &&& all.len() == closed.len()
            &&& forall|i: int, j: int|
                #![trigger all[i], all[j]]
                0 <= i <= j < all.len() ==> all[i].incident.started_at
                    >= all[j].incident.started_at
            &&& out.recent_incidents@.len() == (if all.len() > 25 {
                25
            } else {
                all.len()
            })
            &&& out.recent_incidents_has_more <==> all.len() > 25
            &&& forall|i: int|
                0 <= i < out.recent_incidents@.len() ==> crate::laws::public::tells_of(
                    #[trigger] out.recent_incidents@[i],
                    all[i],
                )
        },
{
    let out = r->Ok_0;
    let keep = |x: IncidentRecord|
        {
            &&& x.incident.ended_at is Some
            &&& to - x.incident.started_at <= 90 * 86_400 * 1_000_000_000
            &&& is_part(readings.components@, x.incident.target_id)
            &&& x.incident.public_title is Some || x.incident.public_description is Some
        };
    let same = crate::public::snapshot::shown_as_recent(*readings, to);
    assert forall|x: IncidentRecord| #[trigger] keep(x) == same(x) by {
        lemma_same_parts(readings.components@, x.incident.target_id);
    }
    assert(keep =~= same);
    let closed = readings.incidents@.filter(keep);
    let key = crate::public::incident::record_start();
    let all = crate::public::snapshot::recent_records(*readings, to);
    crate::public::incident::law_newest_first_is_sorted(closed, key);
    crate::public::incident::law_newest_first_is_a_permutation(closed, key);
    assert forall|i: int, j: int|
        #![trigger all[i], all[j]]
        0 <= i <= j < all.len() implies all[i].incident.started_at
        >= all[j].incident.started_at by {
        assert(key(all[i]) >= key(all[j]));
    }
    assert forall|i: int| 0 <= i < out.recent_incidents@.len() implies crate::laws::public::tells_of(
        #[trigger] out.recent_incidents@[i],
        all[i],
    ) by {
        crate::laws::public::lemma_tells_of(out.recent_incidents@[i], all[i]);
    }
    all
}

/// Being on a page, in two wordings.
proof fn lemma_same_parts(components: Seq<ComponentReading>, t: Id)
    ensures
        is_part(components, t) == crate::public::snapshot::on_page(components, t),
{
    if is_part(components, t) {
        let c = choose|c: int|
            0 <= c < components.len() && (#[trigger] components[c]).component.target_id == t;
        assert(components[c].component.target_id == t);
    }
    if crate::public::snapshot::on_page(components, t) {
        let c = choose|c: int|
            0 <= c < components.len() && (#[trigger] components[c]).component.target_id == t;
        assert(components[c].component.target_id == t);
    }
}

/// Being worked on, in two wordings.
proof fn lemma_same_cover(windows: Seq<MaintenanceWindow>, t: Id)
    ensures
        crate::laws::public::is_worked_on(windows, t) == crate::public::status::covered(windows, t),
{
    if crate::laws::public::is_worked_on(windows, t) {
        let w = choose|w: int|
            0 <= w < windows.len() && (#[trigger] windows[w]).component_ids@.contains(t);
        assert(windows[w].component_ids@.contains(t));
    }
    if crate::public::status::covered(windows, t) {
        let w = choose|w: int|
            0 <= w < windows.len() && (#[trigger] windows[w]).component_ids@.contains(t);
        assert(windows[w].component_ids@.contains(t));
    }
}

/// A page that is not enabled shows nothing.
pub proof fn law_a_hidden_page_shows_nothing(
    readings: &PageReadings,
    to: Moment,
    generated_at: Moment,
    r: Result<PublicStatusPage, AppError>,
)
    requires
        call_ensures(compute_status_snapshot, (readings, to, generated_at), r),
        !readings.page.enabled,
    ensures
        r matches Err(AppError::NotFound { .. }),
{
}

/// Whether the first target with this identifier has this name.
pub open spec fn is_named(targets: Seq<TargetName>, id: Id, name: Seq<char>) -> bool {
    exists|t: int|
        {
            &&& 0 <= t < targets.len()
            &&& (#[trigger] targets[t]).id == id
            &&& targets[t].name@ == name
            &&& forall|u: int| 0 <= u < t ==> (#[trigger] targets[u]).id != id
        }
}

/// Every window is shown as it is, in order, and with the names of just those of its
/// targets that are still there.
pub proof fn law_windows_are_shown_with_their_targets(
    windows: &Vec<MaintenanceWindow>,
    targets: &Vec<TargetName>,
    out: Vec<PublicMaintenance>,
    i: int,
    name: Seq<char>,
)
    requires
        call_ensures(to_public_maintenance_list, (windows, targets), out),
        0 <= i < windows@.len(),
    ensures
        out@.len() == windows@.len(),
        out@[i].id == windows@[i].id,
        out@[i].title == windows@[i].title,
        out@[i].description == windows@[i].description,
        out@[i].starts_at == windows@[i].starts_at,
        out@[i].ends_at == windows@[i].ends_at,
        out@[i].affected_component_names@.map_values(|s: String| s@).contains(name)
            <==> exists|k: int|
            0 <= k < windows@[i].component_ids@.len() && is_named(
                targets@,
                #[trigger] windows@[i].component_ids@[k],
                name,
            ),
{
    let ids = windows@[i].component_ids@;
    let said = crate::public::incident::names_of(targets@, ids);
    assert(crate::public::incident::is_public_window(out@[i], windows@[i], targets@));
    lemma_names(targets@, ids);
    assert forall|name: Seq<char>| #[trigger] said.contains(name) <==> exists|k: int|
        0 <= k < ids.len() && is_named(targets@, #[trigger] ids[k], name) by {
        if said.contains(name) {
            let k = choose|k: int|
                0 <= k < ids.len() && crate::public::incident::name_of(targets@, #[trigger] ids[k])
                    == Some(name);
            let t = lemma_name_found(targets@, ids[k]);
            assert(targets@[t].id == ids[k]);
            assert(is_named(targets@, ids[k], name));
        }
        if exists|k: int| 0 <= k < ids.len() && is_named(targets@, #[trigger] ids[k], name) {
            let k = choose|k: int|
                0 <= k < ids.len() && is_named(targets@, #[trigger] ids[k], name);
            let t = choose|t: int|
                {
                    &&& 0 <= t < targets@.len()
                    &&& (#[trigger] targets@[t]).id == ids[k]
                    &&& targets@[t].name@ == name
                    &&& forall|u: int| 0 <= u < t ==> (#[trigger] targets@[u]).id != ids[k]
                };
            lemma_name_is(targets@, ids[k], t);
        }
    }
}

/// The first target of an identifier gives the name.
proof fn lemma_name_is(targets: Seq<TargetName>, id: Id, t: int)
    requires
        0 <= t < targets.len(),
        targets[t].id == id,
        forall|u: int| 0 <= u < t ==> (#[trigger] targets[u]).id != id,
    ensures
        crate::public::incident::name_of(targets, id) == Some(targets[t].name@),
    decreases t,
{
    if t > 0 {
        assert(targets[0].id != id);
        let rest = targets.drop_first();
        assert forall|u: int| 0 <= u < t - 1 implies (#[trigger] rest[u]).id != id by {
            assert(rest[u] == targets[u + 1]);
        }
        lemma_name_is(rest, id, t - 1);
    }
}

/// Where a name comes from.
proof fn lemma_name_found(targets: Seq<TargetName>, id: Id) -> (t: int)
    requires
        crate::public::incident::name_of(targets, id) is Some,
    ensures
        0 <= t < targets.len(),
        targets[t].id == id,
        crate::public::incident::name_of(targets, id) == Some(targets[t].name@),
        forall|u: int| 0 <= u < t ==> (#[trigger] targets[u]).id != id,
    decreases targets.len(),
{
    if targets[0].id == id {
        0
    } else {
        let rest = targets.drop_first();
        let t = lemma_name_found(rest, id);
        assert forall|u: int| 0 <= u < t + 1 implies (#[trigger] targets[u]).id != id by {
            if u > 0 {
                assert(targets[u] == rest[u - 1]);
            }
        }
        t + 1
    }
}

/// The names are those of the identifiers that have one.
proof fn lemma_names(targets: Seq<TargetName>, ids: Seq<Id>)
    ensures
        forall|k: int|
            0 <= k < ids.len() && crate::public::incident::name_of(
                targets,
                #[trigger] ids[k],
            ) is Some ==> crate::public::incident::names_of(targets, ids).contains(
                crate::public::incident::name_of(targets, ids[k])->0,
            ),
        forall|s: Seq<char>| #[trigger]
            crate::public::incident::names_of(targets, ids).contains(s) ==> exists|k: int|
                0 <= k < ids.len() && crate::public::incident::name_of(targets, #[trigger] ids[k])
                    == Some(s),
    decreases ids.len(),
{
    if ids.len() > 0 {
        let rest = ids.drop_last();
        lemma_names(targets, rest);
        let had = crate::public::incident::names_of(targets, rest);
        let all = crate::public::incident::names_of(targets, ids);
        assert forall|k: int|
            0 <= k < ids.len() && crate::public::incident::name_of(
                targets,
                #[trigger] ids[k],
            ) is Some implies all.contains(
            crate::public::incident::name_of(targets, ids[k])->0,
        ) by {
            let s = crate::public::incident::name_of(targets, ids[k])->0;
            if k < rest.len() {
                assert(rest[k] == ids[k]);
                let n = choose|n: int| 0 <= n < had.len() && had[n] == s;
                assert(all[n] == s);
            } else {
                assert(all[all.len() - 1] == s);
            }
        }
        assert forall|s: Seq<char>| #[trigger] all.contains(s) implies exists|k: int|
            0 <= k < ids.len() && crate::public::incident::name_of(targets, #[trigger] ids[k])
                == Some(s) by {
            let n = choose|n: int| 0 <= n < all.len() && all[n] == s;
            if n < had.len() {
                assert(had[n] == s);
                assert(had.contains(s));
                let k = choose|k: int|
                    0 <= k < rest.len() && crate::public::incident::name_of(
                        targets,
                        #[trigger] rest[k],
                    ) == Some(s);
                assert(ids[k] == rest[k]);
            } else {
                assert(crate::public::incident::name_of(targets, ids[ids.len() - 1]) == Some(s));
            }
        }
    }
}

/// The page that a request means is the one that it names, or else the first that is
/// enabled; without either there is none.
pub proof fn law_a_request_means_one_page(
    requested: Option<Id>,
    pages: &Vec<StatusPage>,
    r: Result<Id, AppError>,
)
    requires
        call_ensures(resolve_page_id, (requested, pages), r),
    ensures
        requested matches Some(id) ==> r matches Ok(found) && found == id,
        requested is None ==> match r {
            Ok(found) => exists|i: int|
                {
                    &&& 0 <= i < pages@.len()
                    &&& (#[trigger] pages@[i]).enabled
                    &&& pages@[i].id == found
                    &&& forall|j: int| 0 <= j < i ==> !(#[trigger] pages@[j]).enabled
                },
            Err(e) => e is NotFound && forall|i: int|
                0 <= i < pages@.len() ==> !(#[trigger] pages@[i]).enabled,
        },
{
    lemma_first_enabled(pages@);
}

/// The first enabled page.
proof fn lemma_first_enabled(pages: Seq<StatusPage>)
    ensures
        match crate::public::snapshot::first_enabled(pages) {
            Some(found) => exists|i: int|
                {
                    &&& 0 <= i < pages.len()
                    &&& (#[trigger] pages[i]).enabled
                    &&& pages[i].id == found
                    &&& forall|j: int| 0 <= j < i ==> !(#[trigger] pages[j]).enabled
                },
            None => forall|i: int| 0 <= i < pages.len() ==> !(#[trigger] pages[i]).enabled,
        },
    decreases pages.len(),
{
    if pages.len() > 0 {
        if pages[0].enabled {
            assert(pages[0].enabled);
        } else {
            let rest = pages.drop_first();
            lemma_first_enabled(rest);
            match crate::public::snapshot::first_enabled(pages) {
                Some(found) => {
                    let i = choose|i: int|
                        {
                            &&& 0 <= i < rest.len()
                            &&& (#[trigger] rest[i]).enabled
                            &&& rest[i].id == found
                            &&& forall|j: int| 0 <= j < i ==> !(#[trigger] rest[j]).enabled
                        };
                    assert(pages[i + 1] == rest[i]);
                    assert forall|j: int| 0 <= j < i + 1 implies !(#[trigger] pages[j]).enabled by {
                        if j > 0 {
                            assert(pages[j] == rest[j - 1]);
                        }
                    }
                },
                None => {
                    assert forall|j: int| 0 <= j < pages.len() implies !(
                    #[trigger] pages[j]).enabled by {
                        if j > 0 {
                            assert(pages[j] == rest[j - 1]);
                        }
                    }
                },
            }
        }
    }
}

} // verus!
