//! Incidents and maintenance as the public sees them, and their order.

use vstd::prelude::*;
use vstd::string::*;

use crate::codec::Id;
use crate::domain::{
    copy_text, ActionItem, Incident, IncidentPostmortem, IncidentStatusPhase, MaintenanceWindow,
    PublicActionItem, PublicIncident, PublicIncidentUpdate, PublicMaintenance, PublicPostmortem,
};
use crate::error::{not_found, AppError};
use crate::text::owned;

verus! {

/// An incident and the postmortem that was found for it, if any.
#[derive(Clone, Debug)]
pub struct IncidentRecord {
    pub incident: Incident,
    pub postmortem: Option<IncidentPostmortem>,
}

/// The name of a target.
#[derive(Clone, Debug)]
pub struct TargetName {
    pub id: Id,
    pub name: String,
}

/// `q` is `a` without its owner.
pub open spec fn is_public_item(q: PublicActionItem, a: ActionItem) -> bool {
    q.text@ == a.text@ && q.done == a.done
}

/// `q` is the published postmortem `pm` without its author and owners.
pub open spec fn is_public_postmortem(q: PublicPostmortem, pm: IncidentPostmortem) -> bool {
    &&& pm.published_at == Some(q.published_at)
    &&& q.summary@ == pm.summary@
    &&& q.root_cause == pm.root_cause
    &&& q.impact == pm.impact
    &&& q.action_items@.len() == pm.action_items@.len()
    &&& forall|i: int|
        0 <= i < q.action_items@.len() ==> is_public_item(
            #[trigger] q.action_items@[i],
            pm.action_items@[i],
        )
}

/// The phase that the latest of `updates` reports.
pub open spec fn latest_phase(updates: Seq<PublicIncidentUpdate>) -> IncidentStatusPhase {
    if updates.len() == 0 {
        IncidentStatusPhase::Investigating
    } else {
        updates.last().phase
    }
}

/// Whether the public may see an incident: it has a public title or a public
/// description. Any other is internal.
pub open spec fn is_public(inc: Incident) -> bool {
    inc.public_title is Some || inc.public_description is Some
}

/// What a public incident is headed by: its public title, else its public
/// description.
pub open spec fn heading(inc: Incident) -> Option<String> {
    match inc.public_title {
        Some(title) => Some(title),
        None => inc.public_description,
    }
}

/// `p` is the public form of `inc` with the postmortem `pm`.
pub open spec fn is_public_form(
    p: PublicIncident,
    inc: Incident,
    pm: Option<IncidentPostmortem>,
) -> bool {
    &&& p.id == inc.id
    &&& p.component_id == inc.target_id
    &&& p.component_name@ == Seq::<char>::empty()
    &&& heading(inc) == Some(p.title)
    &&& p.started_at == inc.started_at
    &&& p.ended_at == inc.ended_at
    &&& p.severity == inc.severity
    &&& p.status_phase == latest_phase(inc.updates@)
    &&& p.updates@ == inc.updates@
    &&& match pm {
        Some(m) if m.published_at is Some => p.postmortem matches Some(q) && is_public_postmortem(
            q,
            m,
        ),
        _ => p.postmortem is None,
    }
}

/// The public part of a postmortem; `None` until it is published.
fn to_public_postmortem(pm: &IncidentPostmortem) -> (r: Option<PublicPostmortem>)
    ensures
        r is Some <==> pm.published_at is Some,
        r matches Some(q) ==> is_public_postmortem(q, *pm),
{
    match pm.published_at {
        None => None,
        Some(published_at) => {
            let mut items: Vec<PublicActionItem> = Vec::new();
            let mut i: usize = 0;
            while i < pm.action_items.len()
                invariant
                    i <= pm.action_items.len(),
                    items.len() == i,
                    forall|j: int|
                        0 <= j < i ==> is_public_item(#[trigger] items@[j], pm.action_items@[j]),
                decreases pm.action_items.len() - i,
            {
                items.push(
                    PublicActionItem {
                        text: pm.action_items[i].text.clone(),
                        done: pm.action_items[i].done,
                    },
                );
                i += 1;
            }
            Some(
                PublicPostmortem {
                    summary: pm.summary.clone(),
                    root_cause: copy_text(&pm.root_cause),
                    impact: copy_text(&pm.impact),
                    action_items: items,
                    published_at,
                },
            )
        },
    }
}

/// A copy of a timeline.
pub fn copy_updates(updates: &Vec<PublicIncidentUpdate>) -> (r: Vec<PublicIncidentUpdate>)
    ensures
        r@ == updates@,
{
    let mut r: Vec<PublicIncidentUpdate> = Vec::new();
    let mut i: usize = 0;
    while i < updates.len()
        invariant
            i <= updates.len(),
            r@ == updates@.take(i as int),
        decreases updates.len() - i,
    {
        r.push(updates[i].clone());
        assert(updates@.take(i + 1) =~= updates@.take(i as int).push(updates@[i as int]));
        i += 1;
    }
    assert(updates@.take(i as int) =~= updates@);
    r
}

/// The public form of an incident; `None` for an internal one, which has neither a
/// public title nor a public description. The postmortem is shown once it is
/// published.
pub fn to_public_incident(
    incident: &Incident,
    postmortem: Option<&IncidentPostmortem>,
) -> (r: Option<PublicIncident>)
    ensures
        r is Some <==> is_public(*incident),
        r matches Some(p) ==> is_public_form(
            p,
            *incident,
            match postmortem {
                Some(m) => Some(*m),
                None => None,
            },
        ),
{
    let heading = match &incident.public_title {
        Some(title) => Some(title),
        None => match &incident.public_description {
            Some(description) => Some(description),
            None => None,
        },
    };
    match heading {
        None => None,
        Some(title) => {
            let shown = match postmortem {
                Some(m) => to_public_postmortem(m),
                None => None,
            };
            let n: usize = incident.updates.len();
            let phase = if n == 0 {
                IncidentStatusPhase::Investigating
            } else {
                incident.updates[n - 1].phase
            };
            Some(
                PublicIncident {
                    id: incident.id,
                    component_id: incident.target_id,
                    component_name: String::new(),
                    title: title.clone(),
                    started_at: incident.started_at,
                    ended_at: incident.ended_at,
                    severity: incident.severity,
                    status_phase: phase,
                    updates: copy_updates(&incident.updates),
                    postmortem: shown,
                },
            )
        },
    }
}

/// The public form of a record.
pub fn public_record(record: &IncidentRecord) -> (r: Option<PublicIncident>)
    ensures
        r is Some <==> is_public(record.incident),
        r matches Some(p) ==> is_public_form(p, record.incident, record.postmortem),
{
    match &record.postmortem {
        Some(m) => to_public_incident(&record.incident, Some(m)),
        None => to_public_incident(&record.incident, None),
    }
}

/// `out` holds the public forms of `records`, one each, in order.
pub open spec fn are_public_forms(
    out: Seq<PublicIncident>,
    records: Seq<IncidentRecord>,
) -> bool {
    &&& out.len() == records.len()
    &&& forall|i: int|
        #![trigger out[i]]
        0 <= i < out.len() ==> is_public_form(out[i], records[i].incident, records[i].postmortem)
}

/// The records that have a public form.
pub open spec fn public_ones(records: Seq<IncidentRecord>) -> Seq<IncidentRecord> {
    records.filter(|r: IncidentRecord| is_public(r.incident))
}

/// The public forms of all records that have one, in order.
pub fn list_public_incidents(records: &Vec<IncidentRecord>) -> (out: Vec<PublicIncident>)
    ensures
        are_public_forms(out@, public_ones(records@)),
{
    let ghost keep = |r: IncidentRecord| is_public(r.incident);
    let mut out: Vec<PublicIncident> = Vec::new();
    let mut i: usize = 0;
    assert(records@.take(0).filter(keep) =~= Seq::<IncidentRecord>::empty()) by {
        reveal(Seq::filter);
    }
    while i < records.len()
        invariant
            i <= records.len(),
            keep == (|r: IncidentRecord| is_public(r.incident)),
            are_public_forms(out@, records@.take(i as int).filter(keep)),
        decreases records.len() - i,
    {
        proof {
            lemma_filter_next(records@, keep, i as int);
        }
        match public_record(&records[i]) {
            Some(p) => {
                out.push(p);
            },
            None => {},
        }
        i += 1;
    }
    assert(records@.take(i as int) =~= records@);
    out
}

/// What filtering one more element of a sequence adds.
pub proof fn lemma_filter_next<T>(s: Seq<T>, keep: spec_fn(T) -> bool, i: int)
    requires
        0 <= i < s.len(),
    ensures
        s.take(i + 1).filter(keep) == if keep(s[i]) {
            s.take(i).filter(keep).push(s[i])
        } else {
            s.take(i).filter(keep)
        },
{
    reveal(Seq::filter);
    assert(s.take(i + 1).drop_last() =~= s.take(i));
    assert(s.take(i + 1).last() == s[i]);
}

/// The public incident that a record stands for, or the refusal for an internal
/// one.
pub fn get_public_incident(record: &IncidentRecord) -> (r: Result<PublicIncident, AppError>)
    ensures
        match r {
            Ok(p) => is_public(record.incident) && is_public_form(
                p,
                record.incident,
                record.postmortem,
            ),
            Err(e) => !is_public(record.incident) && crate::error::is_not_found(
                e,
                "INCIDENT_NOT_PUBLIC"@,
                "incident has no public title"@,
            ),
        },
{
    match public_record(record) {
        Some(p) => Ok(p),
        None => Err(not_found("INCIDENT_NOT_PUBLIC", owned("incident has no public title"))),
    }
}

/// The place for a value with key `k` in a sequence sorted by falling keys:
/// before the first element whose key is not greater.
pub open spec fn place_of<T>(s: Seq<T>, key: spec_fn(T) -> int, k: int) -> int
    decreases s.len(),
{
    if s.len() == 0 || key(s[0]) <= k {
        0
    } else {
        1 + place_of(s.drop_first(), key, k)
    }
}

/// `s` by falling keys; elements with one key keep their order.
pub open spec fn newest_first<T>(s: Seq<T>, key: spec_fn(T) -> int) -> Seq<T>
    decreases s.len(),
{
    if s.len() == 0 {
        s
    } else {
        let rest = newest_first(s.drop_first(), key);
        rest.insert(place_of(rest, key, key(s[0])), s[0])
    }
}

/// Where `place_of` lies, and what stands before and at it.
proof fn lemma_place_of<T>(s: Seq<T>, key: spec_fn(T) -> int, k: int)
    ensures
        0 <= place_of(s, key, k) <= s.len(),
        forall|j: int| 0 <= j < place_of(s, key, k) ==> key(#[trigger] s[j]) > k,
        place_of(s, key, k) < s.len() ==> key(s[place_of(s, key, k)]) <= k,
    decreases s.len(),
{
    if s.len() != 0 && key(s[0]) > k {
        let rest = s.drop_first();
        lemma_place_of(rest, key, k);
        assert forall|j: int| 0 <= j < place_of(s, key, k) implies key(#[trigger] s[j]) > k by {
            if j > 0 {
                assert(s[j] == rest[j - 1]);
            }
        }
    }
}

/// A place with only greater keys before it, and no greater key at it, is the
/// one that `place_of` names.
proof fn lemma_place_is<T>(s: Seq<T>, key: spec_fn(T) -> int, k: int, i: int)
    requires
        0 <= i <= s.len(),
        forall|j: int| 0 <= j < i ==> key(#[trigger] s[j]) > k,
        i < s.len() ==> key(s[i]) <= k,
    ensures
        place_of(s, key, k) == i,
{
    lemma_place_of(s, key, k);
    let p = place_of(s, key, k);
    if p < i {
        assert(key(s[p]) > k);
    }
    if i < p {
        assert(key(s[i]) > k);
    }
}

/// The sort yields falling keys.
pub proof fn law_newest_first_is_sorted<T>(s: Seq<T>, key: spec_fn(T) -> int)
    ensures
        newest_first(s, key).len() == s.len(),
        forall|i: int, j: int|
            0 <= i <= j < s.len() ==> key(#[trigger] newest_first(s, key)[i]) >= key(
                #[trigger] newest_first(s, key)[j],
            ),
    decreases s.len(),
{
    if s.len() > 0 {
        let rest = newest_first(s.drop_first(), key);
        law_newest_first_is_sorted(s.drop_first(), key);
        let k = key(s[0]);
        lemma_place_of(rest, key, k);
        let p = place_of(rest, key, k);
        let all = newest_first(s, key);
        assert forall|i: int, j: int| 0 <= i <= j < s.len() implies key(#[trigger] all[i]) >= key(
            #[trigger] all[j],
        ) by {
            let a = if i < p {
                i
            } else {
                i - 1
            };
            let b = if j < p {
                j
            } else {
                j - 1
            };
            if i == p || j == p {
                if i < p {
                    assert(key(rest[i]) > k);
                } else if j > p {
                    assert(key(rest[p]) <= k);
                    assert(key(rest[p]) >= key(rest[b]));
                }
            } else {
                assert(all[i] == rest[a]);
                assert(all[j] == rest[b]);
                assert(key(rest[a]) >= key(rest[b]));
            }
        }
    }
}

/// The sort loses nothing, adds nothing and repeats nothing.
pub proof fn law_newest_first_is_a_permutation<T>(s: Seq<T>, key: spec_fn(T) -> int)
    ensures
        newest_first(s, key).to_multiset() == s.to_multiset(),
    decreases s.len(),
{
    if s.len() > 0 {
        let rest = newest_first(s.drop_first(), key);
        law_newest_first_is_a_permutation(s.drop_first(), key);
        law_newest_first_is_sorted(s.drop_first(), key);
        lemma_place_of(rest, key, key(s[0]));
        let p = place_of(rest, key, key(s[0]));
        vstd::seq_lib::to_multiset_insert(rest, p, s[0]);
        assert(s =~= s.drop_first().insert(0, s[0]));
        vstd::seq_lib::to_multiset_insert(s.drop_first(), 0, s[0]);
    }
}

/// The sort is stable: elements with one key keep the order they had.
pub proof fn law_newest_first_is_stable<T>(s: Seq<T>, key: spec_fn(T) -> int, k: int)
    ensures
        newest_first(s, key).filter(|x: T| key(x) == k) == s.filter(|x: T| key(x) == k),
    decreases s.len(),
{
    let same = |x: T| key(x) == k;
    reveal(Seq::filter);
    if s.len() > 0 {
        let x = s[0];
        let rest = newest_first(s.drop_first(), key);
        law_newest_first_is_stable(s.drop_first(), key, k);
        lemma_place_of(rest, key, key(x));
        let p = place_of(rest, key, key(x));
        let head = rest.take(p);
        let tail = rest.skip(p);
        assert(rest =~= head + tail);
        assert(rest.insert(p, x) =~= head + (seq![x] + tail));
        Seq::filter_distributes_over_add(head, tail, same);
        Seq::filter_distributes_over_add(head, seq![x] + tail, same);
        Seq::filter_distributes_over_add(seq![x], tail, same);
        assert(s =~= seq![x] + s.drop_first());
        Seq::filter_distributes_over_add(seq![x], s.drop_first(), same);
        let one = seq![x].filter(same);
        assert(seq![x].drop_last() =~= Seq::<T>::empty());
        assert(Seq::<T>::empty().filter(same) =~= Seq::<T>::empty());
        if key(x) == k {
            assert forall|j: int| 0 <= j < head.len() implies !same(#[trigger] head[j]) by {
                assert(head[j] == rest[j]);
            }
            head.lemma_all_neg_filter_empty(same);
            assert(head.filter(same) =~= Seq::<T>::empty());
            assert(one =~= seq![x]);
            assert(head.filter(same) + (one + tail.filter(same)) =~= one + (head.filter(same)
                + tail.filter(same)));
        } else {
            assert(one =~= Seq::<T>::empty());
            assert(head.filter(same) + (one + tail.filter(same)) =~= head.filter(same)
                + tail.filter(same));
            assert(one + s.drop_first().filter(same) =~= s.drop_first().filter(same));
        }
    }
}

/// Two sequences whose keys agree place by place are sorted alike: what one
/// relation ties together before the sort, it ties together after it.
pub proof fn lemma_sorted_together<A, B>(
    a: Seq<A>,
    key_a: spec_fn(A) -> int,
    b: Seq<B>,
    key_b: spec_fn(B) -> int,
    tied: spec_fn(A, B) -> bool,
)
    requires
        a.len() == b.len(),
        forall|i: int|
            #![trigger a[i]]
            0 <= i < a.len() ==> key_a(a[i]) == key_b(b[i]) && tied(a[i], b[i]),
    ensures
        newest_first(a, key_a).len() == a.len(),
        newest_first(b, key_b).len() == a.len(),
        forall|i: int|
            #![trigger newest_first(a, key_a)[i]]
            0 <= i < a.len() ==> key_a(newest_first(a, key_a)[i]) == key_b(
                newest_first(b, key_b)[i],
            ) && tied(newest_first(a, key_a)[i], newest_first(b, key_b)[i]),
    decreases a.len(),
{
    if a.len() > 0 {
        let a1 = a.drop_first();
        let b1 = b.drop_first();
        assert forall|i: int| #![trigger a1[i]] 0 <= i < a1.len() implies key_a(a1[i]) == key_b(
            b1[i],
        ) && tied(a1[i], b1[i]) by {
            assert(a1[i] == a[i + 1]);
        }
        lemma_sorted_together(a1, key_a, b1, key_b, tied);
        let ra = newest_first(a1, key_a);
        let rb = newest_first(b1, key_b);
        let k = key_a(a[0]);
        assert(tied(a[0], b[0]));
        lemma_place_of(ra, key_a, k);
        let p = place_of(ra, key_a, k);
        assert forall|j: int| 0 <= j < p implies key_b(#[trigger] rb[j]) > k by {
            assert(key_a(ra[j]) > k);
        }
        if p < rb.len() {
            assert(key_a(ra[p]) == key_b(rb[p]));
        }
        lemma_place_is(rb, key_b, k, p);
        assert forall|i: int|
            #![trigger newest_first(a, key_a)[i]]
            0 <= i < a.len() implies key_a(newest_first(a, key_a)[i]) == key_b(
            newest_first(b, key_b)[i],
        ) && tied(newest_first(a, key_a)[i], newest_first(b, key_b)[i]) by {
            if i < p {
                assert(newest_first(a, key_a)[i] == ra[i]);
            } else if i > p {
                assert(newest_first(a, key_a)[i] == ra[i - 1]);
            }
        }
    }
}

/// When a public incident started.
pub open spec fn public_start() -> spec_fn(PublicIncident) -> int {
    |p: PublicIncident| p.started_at as int
}

/// When the incident of a record started.
pub open spec fn record_start() -> spec_fn(IncidentRecord) -> int {
    |r: IncidentRecord| r.incident.started_at as int
}

/// Sorts incidents by their start, the newest first.
pub fn sort_newest_first(incidents: Vec<PublicIncident>) -> (r: Vec<PublicIncident>)
    ensures
        r@ == newest_first(incidents@, public_start()),
{
    let ghost all = incidents@;
    let ghost key = public_start();
    let mut left = incidents;
    let mut r: Vec<PublicIncident> = Vec::new();
    assert(all.skip(all.len() as int) =~= Seq::<PublicIncident>::empty());
    while left.len() > 0
        invariant
            key == public_start(),
            left@ == all.take(left@.len() as int),
            left@.len() <= all.len(),
            r@ == newest_first(all.skip(left@.len() as int), key),
        decreases left.len(),
    {
        let ghost n = left@.len();
        match left.pop() {
            None => {},
            Some(x) => {
                let mut p: usize = 0;
                while p < r.len() && r[p].started_at > x.started_at
                    invariant
                        p <= r.len(),
                        key == public_start(),
                        forall|j: int| 0 <= j < p ==> key(#[trigger] r@[j]) > x.started_at,
                    decreases r.len() - p,
                {
                    p += 1;
                }
                proof {
                    let s = all.skip(n - 1);
                    assert(s.drop_first() =~= all.skip(n as int));
                    assert(s[0] == x);
                    lemma_place_is(r@, key, key(x), p as int);
                }
                r.insert(p, x);
            },
        }
        assert(left@ =~= all.take(n - 1));
    }
    assert(all.skip(0) =~= all);
    r
}

/// Public forms stay public forms of the same records through the sort.
pub proof fn lemma_public_forms_sorted(out: Seq<PublicIncident>, records: Seq<IncidentRecord>)
    requires
        are_public_forms(out, records),
    ensures
        are_public_forms(
            newest_first(out, public_start()),
            newest_first(records, record_start()),
        ),
{
    let tied = |p: PublicIncident, r: IncidentRecord|
        is_public_form(p, r.incident, r.postmortem);
    lemma_sorted_together(out, public_start(), records, record_start(), tied);
    let a = newest_first(out, public_start());
    let b = newest_first(records, record_start());
    assert forall|i: int| #![trigger a[i]] 0 <= i < a.len() implies is_public_form(
        a[i],
        b[i].incident,
        b[i].postmortem,
    ) by {
        assert(tied(a[i], b[i]));
    }
}

/// The name of the target `id`, where it is among `targets`.
pub open spec fn name_of(targets: Seq<TargetName>, id: Id) -> Option<Seq<char>>
    decreases targets.len(),
{
    if targets.len() == 0 {
        None
    } else if targets[0].id == id {
        Some(targets[0].name@)
    } else {
        name_of(targets.drop_first(), id)
    }
}

/// The names of those of `ids` that are among `targets`, in order.
pub open spec fn names_of(targets: Seq<TargetName>, ids: Seq<Id>) -> Seq<Seq<char>>
    decreases ids.len(),
{
    if ids.len() == 0 {
        Seq::empty()
    } else {
        let before = names_of(targets, ids.drop_last());
        match name_of(targets, ids.last()) {
            Some(name) => before.push(name),
            None => before,
        }
    }
}

/// `p` is the public form of the window `w`.
pub open spec fn is_public_window(
    p: PublicMaintenance,
    w: MaintenanceWindow,
    targets: Seq<TargetName>,
) -> bool {
    &&& p.id == w.id
    &&& p.title == w.title
    &&& p.description == w.description
    &&& p.starts_at == w.starts_at
    &&& p.ends_at == w.ends_at
    &&& p.affected_component_names@.map_values(|s: String| s@) == names_of(
        targets,
        w.component_ids@,
    )
}

/// `out` holds the public forms of `windows`, one each, in order.
pub open spec fn are_public_windows(
    out: Seq<PublicMaintenance>,
    windows: Seq<MaintenanceWindow>,
    targets: Seq<TargetName>,
) -> bool {
    &&& out.len() == windows.len()
    &&& forall|i: int|
        #![trigger out[i]]
        0 <= i < out.len() ==> is_public_window(out[i], windows[i], targets)
}

/// The name of the target `id`, where it is among `targets`.
fn find_name(targets: &Vec<TargetName>, id: Id) -> (r: Option<String>)
    ensures
        match r {
            Some(s) => name_of(targets@, id) == Some(s@),
            None => name_of(targets@, id) is None,
        },
{
    let mut i: usize = 0;
    assert(targets@.skip(0) =~= targets@);
    while i < targets.len()
        invariant
            i <= targets.len(),
            name_of(targets@, id) == name_of(targets@.skip(i as int), id),
        decreases targets.len() - i,
    {
        assert(targets@.skip(i as int)[0] == targets@[i as int]);
        if targets[i].id == id {
            return Some(targets[i].name.clone());
        }
        assert(targets@.skip(i as int).drop_first() =~= targets@.skip(i + 1));
        i += 1;
    }
    None
}

/// The public form of each window. A target that is gone is left out of the
/// names.
pub fn to_public_maintenance_list(
    windows: &Vec<MaintenanceWindow>,
    targets: &Vec<TargetName>,
) -> (out: Vec<PublicMaintenance>)
    ensures
        are_public_windows(out@, windows@, targets@),
{
    let mut out: Vec<PublicMaintenance> = Vec::new();
    let mut i: usize = 0;
    while i < windows.len()
        invariant
            i <= windows.len(),
            out.len() == i,
            forall|j: int|
                #![trigger out@[j]]
                0 <= j < i ==> is_public_window(out@[j], windows@[j], targets@),
        decreases windows.len() - i,
    {
        let w = &windows[i];
        let ghost ids = w.component_ids@;
        let ghost view = |s: String| s@;
        let mut names: Vec<String> = Vec::new();
        let mut k: usize = 0;
        assert(names@.map_values(view) =~= names_of(targets@, ids.take(0)));
        while k < w.component_ids.len()
            invariant
                k <= w.component_ids.len(),
                ids == w.component_ids@,
                view == (|s: String| s@),
                names@.map_values(view) == names_of(targets@, ids.take(k as int)),
            decreases w.component_ids.len() - k,
        {
            proof {
                assert(ids.take(k + 1).drop_last() =~= ids.take(k as int));
                assert(ids.take(k + 1).last() == ids[k as int]);
            }
            let ghost had = names@;
            match find_name(targets, w.component_ids[k]) {
                Some(name) => {
                    names.push(name);
                    assert(names@.map_values(view) =~= had.map_values(view).push(name@));
                },
                None => {},
            }
            k += 1;
        }
        assert(ids.take(k as int) =~= ids);
        out.push(
            PublicMaintenance {
                id: w.id,
                title: w.title.clone(),
                description: copy_text(&w.description),
                starts_at: w.starts_at,
                ends_at: w.ends_at,
                affected_component_names: names,
            },
        );
        i += 1;
    }
    out
}

} // verus!
