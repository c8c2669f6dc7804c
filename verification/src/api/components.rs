//! The components of status pages.

use vstd::prelude::*;
use vstd::string::*;

use crate::codec::{uuid_text, Id};
use crate::domain::StatusPageComponent;
use crate::error::{bad_request, not_found, AppError};
use crate::text::owned;

verus! {

/// How many components one request may put in order.
pub const MAX_REORDERED: usize = 500;

/// A component to be put on a page.
#[derive(Clone, Debug)]
pub struct NewStatusPageComponent {
    pub target_id: Id,
    pub public_name: Option<String>,
    pub public_description: Option<String>,
    pub public_group: Option<String>,
    pub sort_order: i32,
}

/// What to change of a component. An outer `None` leaves a member as it is; an inner
/// one clears it.
#[derive(Clone, Debug)]
pub struct StatusPageComponentUpdate {
    pub public_name: Option<Option<String>>,
    pub public_description: Option<Option<String>>,
    pub public_group: Option<Option<String>>,
    pub sort_order: Option<i32>,
}

/// Puts a target on a page. The component remembers the target's own name.
pub fn add_component(new: NewStatusPageComponent, target_name: String) -> (r: StatusPageComponent)
    ensures
        r == (StatusPageComponent {
            target_id: new.target_id,
            monitor_name: target_name,
            public_name: new.public_name,
            public_description: new.public_description,
            public_group: new.public_group,
            sort_order: new.sort_order,
        }),
{
    StatusPageComponent {
        target_id: new.target_id,
        monitor_name: target_name,
        public_name: new.public_name,
        public_description: new.public_description,
        public_group: new.public_group,
        sort_order: new.sort_order,
    }
}

/// The first of `components` that stands for the target, from place `i` on.
pub open spec fn component_of(
    components: Seq<StatusPageComponent>,
    target_id: Id,
    i: nat,
) -> Option<StatusPageComponent>
    decreases components.len() - i,
{
    if i >= components.len() {
        None
    } else if components[i as int].target_id == target_id {
        Some(components[i as int])
    } else {
        component_of(components, target_id, i + 1)
    }
}

/// A component with what `update` says changed, and nothing else.
pub open spec fn updated_component(
    c: StatusPageComponent,
    update: StatusPageComponentUpdate,
) -> StatusPageComponent {
    StatusPageComponent {
        target_id: c.target_id,
        monitor_name: c.monitor_name,
        public_name: match update.public_name {
            Some(v) => v,
            None => c.public_name,
        },
        public_description: match update.public_description {
            Some(v) => v,
            None => c.public_description,
        },
        public_group: match update.public_group {
            Some(v) => v,
            None => c.public_group,
        },
        sort_order: match update.sort_order {
            Some(v) => v,
            None => c.sort_order,
        },
    }
}

/// Changes a component of a page. A target that is not on the page is refused.
pub fn update_component(
    components: Vec<StatusPageComponent>,
    page_id: Id,
    target_id: Id,
    update: StatusPageComponentUpdate,
) -> (r: Result<StatusPageComponent, AppError>)
    ensures
        match r {
            Ok(c) => component_of(components@, target_id, 0) matches Some(found) && c
                == updated_component(found, update),
            Err(e) => component_of(components@, target_id, 0) is None
                && crate::error::is_not_found(
                e,
                "COMPONENT_NOT_FOUND"@,
                "component "@ + crate::codec::id_text(target_id) + " not found on page "@
                    + crate::codec::id_text(page_id),
            ),
        },
{
    let mut all = components;
    let mut i: usize = 0;
    while i < all.len() && all[i].target_id != target_id
        invariant
            i <= all.len(),
            component_of(all@, target_id, 0) == component_of(all@, target_id, i as nat),
        decreases all.len() - i,
    {
        i += 1;
    }
    if i == all.len() {
        let mut message = owned("component ");
        message.append(uuid_text(target_id).as_str());
        message.append(" not found on page ");
        message.append(uuid_text(page_id).as_str());
        return Err(not_found("COMPONENT_NOT_FOUND", message));
    }
    let found = all.remove(i);
    Ok(
        StatusPageComponent {
            target_id: found.target_id,
            monitor_name: found.monitor_name,
            public_name: match update.public_name {
                Some(v) => v,
                None => found.public_name,
            },
            public_description: match update.public_description {
                Some(v) => v,
                None => found.public_description,
            },
            public_group: match update.public_group {
                Some(v) => v,
                None => found.public_group,
            },
            sort_order: match update.sort_order {
                Some(v) => v,
                None => found.sort_order,
            },
        },
    )
}

/// Whether so many components may be put in order by one request.
pub fn check_reorder(count: usize) -> (r: Result<(), AppError>)
    ensures
        match r {
            Ok(_) => 1 <= count <= MAX_REORDERED,
            Err(e) => {
                ||| count == 0 && crate::error::is_bad_request(
                    e,
                    "EMPTY_REORDER"@,
                    "reorder requires at least one target id"@,
                )
                ||| count > MAX_REORDERED && crate::error::is_bad_request(
                    e,
                    "REORDER_TOO_LARGE"@,
                    "reorder accepts at most 500 target ids per request"@,
                )
            },
        },
{
    if count == 0 {
        return Err(bad_request("EMPTY_REORDER", owned("reorder requires at least one target id")));
    }
    if count > MAX_REORDERED {
        return Err(
            bad_request(
                "REORDER_TOO_LARGE",
                owned("reorder accepts at most 500 target ids per request"),
            ),
        );
    }
    Ok(())
}

/// The place of a target in the order that is asked for: the last where it stands
/// more than once.
pub open spec fn place_of(ids: Seq<Id>, id: Id) -> Option<int>
    decreases ids.len(),
{
    if ids.len() == 0 {
        None
    } else if ids.last() == id {
        Some(ids.len() - 1)
    } else {
        place_of(ids.drop_last(), id)
    }
}

/// A component in the place that is asked for, where one is.
pub open spec fn placed(c: StatusPageComponent, ids: Seq<Id>) -> StatusPageComponent {
    match place_of(ids, c.target_id) {
        Some(place) => StatusPageComponent { sort_order: place as i32, ..c },
        None => c,
    }
}

/// The place of a target in the order that is asked for.
fn find_place(ids: &Vec<Id>, id: Id) -> (r: Option<usize>)
    ensures
        match r {
            Some(i) => place_of(ids@, id) == Some(i as int) && i < ids@.len(),
            None => place_of(ids@, id) is None,
        },
{
    let mut n: usize = ids.len();
    assert(ids@.take(n as int) =~= ids@);
    while n > 0
        invariant
            n <= ids.len(),
            place_of(ids@, id) == place_of(ids@.take(n as int), id),
        decreases n,
    {
        assert(ids@.take(n as int).last() == ids@[n - 1]);
        if ids[n - 1] == id {
            return Some(n - 1);
        }
        assert(ids@.take(n as int).drop_last() =~= ids@.take(n - 1));
        n -= 1;
    }
    None
}

/// Gives each component the place that its target has in `ids`. A component whose
/// target is not there keeps its place, and a target without a component is passed
/// over.
pub fn reorder_components(components: Vec<StatusPageComponent>, ids: &Vec<Id>) -> (r: Vec<
    StatusPageComponent,
>)
    requires
        1 <= ids@.len() <= MAX_REORDERED,
    ensures
        r@.len() == components@.len(),
        forall|i: int| 0 <= i < r@.len() ==> #[trigger] r@[i] == placed(components@[i], ids@),
{
    let ghost all = components@;
    let mut rest = components;
    let mut out: Vec<StatusPageComponent> = Vec::new();
    while rest.len() > 0
        invariant
            1 <= ids@.len() <= MAX_REORDERED,
            out@.len() + rest@.len() == all.len(),
            rest@ == all.skip(out@.len() as int),
            forall|i: int| 0 <= i < out@.len() ==> #[trigger] out@[i] == placed(all[i], ids@),
        decreases rest.len(),
    {
        let mut c = rest.remove(0);
        assert(c == all[out@.len() as int]);
        if let Some(place) = find_place(ids, c.target_id) {
            c.sort_order = place as i32;
        }
        out.push(c);
        assert(rest@ =~= all.skip(out@.len() as int));
    }
    out
}

/// After putting in order, two components whose targets were named once each stand
/// in the order in which they were named.
pub proof fn law_reordering_orders(
    a: StatusPageComponent,
    b: StatusPageComponent,
    ids: Seq<Id>,
    i: int,
    j: int,
)
    requires
        ids.no_duplicates(),
        ids.len() <= MAX_REORDERED,
        0 <= i < j < ids.len(),
        ids[i] == a.target_id,
        ids[j] == b.target_id,
    ensures
        placed(a, ids).sort_order == i,
        placed(b, ids).sort_order == j,
        placed(a, ids).sort_order < placed(b, ids).sort_order,
{
    lemma_place(ids, i);
    lemma_place(ids, j);
}

/// Where nothing stands twice, the place of what stands at `i` is `i`.
proof fn lemma_place(ids: Seq<Id>, i: int)
    requires
        ids.no_duplicates(),
        0 <= i < ids.len(),
    ensures
        place_of(ids, ids[i]) == Some(i),
    decreases ids.len(),
{
    if i < ids.len() - 1 {
        assert(ids.last() != ids[i]);
        assert(ids.drop_last().no_duplicates());
        assert(ids.drop_last()[i] == ids[i]);
        lemma_place(ids.drop_last(), i);
    }
}

/// Putting in order changes places alone.
pub proof fn law_reordering_keeps_the_rest(c: StatusPageComponent, ids: Seq<Id>)
    ensures
        ({
            let p = placed(c, ids);
            &&& p.target_id == c.target_id
            &&& p.monitor_name == c.monitor_name
            &&& p.public_name == c.public_name
            &&& p.public_description == c.public_description
            &&& p.public_group == c.public_group
            &&& place_of(ids, c.target_id) is None ==> p == c
        }),
{
}

/// Changing a component twice by the same wishes is changing it once.
pub proof fn law_component_updates_are_idempotent(
    c: StatusPageComponent,
    update: StatusPageComponentUpdate,
)
    ensures
        updated_component(updated_component(c, update), update) == updated_component(c, update),
        updated_component(c, update).target_id == c.target_id,
        updated_component(c, update).monitor_name == c.monitor_name,
{
}

} // verus!
