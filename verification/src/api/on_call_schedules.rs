//! On-call schedules: which are accepted, and how they are put together.

use vstd::prelude::*;
use vstd::string::*;

use crate::codec::{is_known_zone, quote, Id};
use crate::error::{bad_request, AppError};
use crate::text::{decimal_text, owned, signed_decimal_text, trim};
use crate::time::Moment;

verus! {

/// Somebody who takes part in a rotation to be made.
#[derive(Clone, Copy, Debug, PartialEq, Eq, Structural)]
pub struct NewOnCallParticipant {
    pub user_id: Id,
}

/// A rotation to be made.
#[derive(Clone, Debug)]
pub struct NewOnCallLayer {
    pub name: String,
    pub rotation_type: String,
    pub rotation_length_secs: i64,
    pub handoff_at: Moment,
    pub layer_order: i32,
    pub participants: Vec<NewOnCallParticipant>,
}

/// A schedule to be made, or to take the place of another.
#[derive(Clone, Debug)]
pub struct NewOnCallSchedule {
    pub name: String,
    pub timezone: String,
    pub layers: Vec<NewOnCallLayer>,
}

/// Somebody who takes part in a rotation.
#[derive(Clone, Copy, Debug, PartialEq, Eq, Structural)]
pub struct OnCallParticipant {
    pub id: Id,
    pub user_id: Id,
    pub position: i32,
}

/// One rotation of a schedule.
#[derive(Clone, Debug)]
pub struct OnCallLayer {
    pub id: Id,
    pub name: String,
    pub rotation_type: String,
    pub rotation_length_secs: i64,
    pub handoff_at: Moment,
    pub layer_order: i32,
    pub created_at: Moment,
    pub participants: Vec<OnCallParticipant>,
}

/// What a schedule is, apart from its rotations.
#[derive(Clone, Debug)]
pub struct OnCallSchedule {
    pub id: Id,
    pub name: String,
    pub timezone: String,
    pub created_at: Moment,
    pub updated_at: Moment,
}

/// A span in which somebody else is on call.
#[derive(Clone, Copy, Debug, PartialEq, Eq, Structural)]
pub struct OnCallOverride {
    pub id: Id,
    pub user_id: Id,
    pub starts_at: Moment,
    pub ends_at: Moment,
    pub created_by: Option<Id>,
    pub created_at: Moment,
}

/// A schedule with its rotations and overrides.
#[derive(Clone, Debug)]
pub struct OnCallScheduleDetail {
    pub schedule: OnCallSchedule,
    pub layers: Vec<OnCallLayer>,
    pub overrides: Vec<OnCallOverride>,
}

/// The code and the message for the first faulty rotation, from rotation `i` on.
pub open spec fn layers_fault(layers: Seq<NewOnCallLayer>, i: nat) -> Option<
    (Seq<char>, Seq<char>),
>
    decreases layers.len() - i,
{
    if i >= layers.len() {
        None
    } else if layers[i as int].rotation_length_secs <= 0 {
        Some(
            (
                "INVALID_ROTATION_LENGTH"@,
                "layer at index "@ + crate::text::decimal(i)
                    + " has non-positive rotation_length_secs "@ + crate::text::signed_decimal(
                    layers[i as int].rotation_length_secs as int,
                ),
            ),
        )
    } else if layers[i as int].participants@.len() == 0 {
        Some(
            (
                "EMPTY_PARTICIPANTS"@,
                "layer at index "@ + crate::text::decimal(i)
                    + " must have at least one participant"@,
            ),
        )
    } else {
        layers_fault(layers, i + 1)
    }
}

/// The code and the message for what is wrong with a schedule, where anything is.
/// `zone_known` says whether its time zone is one.
pub open spec fn schedule_fault(new: NewOnCallSchedule, zone_known: bool) -> Option<
    (Seq<char>, Seq<char>),
> {
    if crate::text::trimmed(new.name@).len() == 0 {
        Some(("INVALID_SCHEDULE_NAME"@, "name is required"@))
    } else if !zone_known {
        Some(
            (
                "INVALID_TIMEZONE"@,
                "timezone "@ + crate::codec::quoted_text(new.timezone@)
                    + " is not a valid IANA zone"@,
            ),
        )
    } else {
        layers_fault(new.layers@, 0)
    }
}

/// Whether a schedule is accepted, given whether its time zone is one.
pub fn validate_schedule_in(new: &NewOnCallSchedule, zone_known: bool) -> (r: Result<(), AppError>)
    ensures
        match r {
            Ok(_) => schedule_fault(*new, zone_known) is None,
            Err(e) => schedule_fault(*new, zone_known) matches Some(fault)
                && crate::error::is_bad_request(e, fault.0, fault.1),
        },
{
    let name = trim(new.name.as_str());
    if name.as_str().is_empty() {
        return Err(bad_request("INVALID_SCHEDULE_NAME", owned("name is required")));
    }
    if !zone_known {
        let mut message = owned("timezone ");
        message.append(quote(new.timezone.as_str()).as_str());
        message.append(" is not a valid IANA zone");
        return Err(bad_request("INVALID_TIMEZONE", message));
    }
    let mut i: usize = 0;
    while i < new.layers.len()
        invariant
            i <= new.layers.len(),
            schedule_fault(*new, zone_known) == layers_fault(new.layers@, i as nat),
        decreases new.layers.len() - i,
    {
        let layer = &new.layers[i];
        if layer.rotation_length_secs <= 0 {
            let mut message = owned("layer at index ");
            message.append(decimal_text(i as u64).as_str());
            message.append(" has non-positive rotation_length_secs ");
            message.append(signed_decimal_text(layer.rotation_length_secs).as_str());
            return Err(bad_request("INVALID_ROTATION_LENGTH", message));
        }
        if layer.participants.len() == 0 {
            let mut message = owned("layer at index ");
            message.append(decimal_text(i as u64).as_str());
            message.append(" must have at least one participant");
            return Err(bad_request("EMPTY_PARTICIPANTS", message));
        }
        i += 1;
    }
    Ok(())
}

/// Whether a schedule is accepted: it has a name and a known time zone, and each
/// rotation has a positive length and somebody in it. The first fault is told.
pub fn validate_new_schedule(new: &NewOnCallSchedule) -> (r: Result<(), AppError>)
    ensures
        ({
            let zone_known = crate::codec::known_zone(new.timezone@);
            match r {
                Ok(_) => schedule_fault(*new, zone_known) is None,
                Err(e) => schedule_fault(*new, zone_known) matches Some(fault)
                    && crate::error::is_bad_request(e, fault.0, fault.1),
            }
        }),
{
    let zone_known = is_known_zone(new.timezone.as_str());
    validate_schedule_in(new, zone_known)
}

/// Whether there is a new identifier for each rotation, and for everybody in it.
pub open spec fn enough_ids(ids: Seq<(Id, Vec<Id>)>, layers: Seq<NewOnCallLayer>) -> bool {
    &&& ids.len() == layers.len()
    &&& forall|i: int|
        0 <= i < ids.len() ==> (#[trigger] ids[i]).1@.len() == layers[i].participants@.len()
}

/// `l` is the rotation that `new` asks for, under these identifiers, made at `now`.
/// Everybody keeps their place.
pub open spec fn is_made_layer(
    l: OnCallLayer,
    new: NewOnCallLayer,
    id: Id,
    ids: Seq<Id>,
    now: Moment,
) -> bool {
    &&& l.id == id
    &&& l.name@ == new.name@
    &&& l.rotation_type@ == new.rotation_type@
    &&& l.rotation_length_secs == new.rotation_length_secs
    &&& l.handoff_at == new.handoff_at
    &&& l.layer_order == new.layer_order
    &&& l.created_at == now
    &&& l.participants@.len() == new.participants@.len()
    &&& forall|k: int|
        0 <= k < l.participants@.len() ==> (#[trigger] l.participants@[k]) == (OnCallParticipant {
            id: ids[k],
            user_id: new.participants@[k].user_id,
            position: k as i32,
        })
}

/// Puts the people of one rotation in their places.
fn build_participants(new: &Vec<NewOnCallParticipant>, ids: &Vec<Id>) -> (r: Vec<OnCallParticipant>)
    requires
        ids@.len() == new@.len(),
    ensures
        r@.len() == new@.len(),
        forall|k: int|
            0 <= k < r@.len() ==> (#[trigger] r@[k]) == (OnCallParticipant {
                id: ids@[k],
                user_id: new@[k].user_id,
                position: k as i32,
            }),
{
    let mut out: Vec<OnCallParticipant> = Vec::new();
    let mut k: usize = 0;
    while k < new.len()
        invariant
            k <= new.len(),
            ids@.len() == new@.len(),
            out@.len() == k,
            forall|m: int|
                0 <= m < k ==> (#[trigger] out@[m]) == (OnCallParticipant {
                    id: ids@[m],
                    user_id: new@[m].user_id,
                    position: m as i32,
                }),
        decreases new.len() - k,
    {
        out.push(
            OnCallParticipant {
                id: ids[k],
                user_id: new[k].user_id,
                position: #[verifier::truncate] (k as i32),
            },
        );
        k += 1;
    }
    out
}

/// Makes a schedule, with new identifiers for its rotations and everybody in them.
/// It has no overrides: those are kept apart from it.
pub fn build_schedule_detail(
    id: Id,
    new: &NewOnCallSchedule,
    ids: &Vec<(Id, Vec<Id>)>,
    now: Moment,
) -> (r: OnCallScheduleDetail)
    requires
        enough_ids(ids@, new.layers@),
    ensures
        r.schedule.id == id,
        r.schedule.name@ == new.name@,
        r.schedule.timezone@ == new.timezone@,
        r.schedule.created_at == now,
        r.schedule.updated_at == now,
        r.layers@.len() == new.layers@.len(),
        forall|i: int|
            0 <= i < r.layers@.len() ==> is_made_layer(
                #[trigger] r.layers@[i],
                new.layers@[i],
                ids@[i].0,
                ids@[i].1@,
                now,
            ),
        r.overrides@.len() == 0,
{
    let mut layers: Vec<OnCallLayer> = Vec::new();
    let mut i: usize = 0;
    while i < new.layers.len()
        invariant
            i <= new.layers.len(),
            enough_ids(ids@, new.layers@),
            layers@.len() == i,
            forall|k: int|
                0 <= k < i ==> is_made_layer(
                    #[trigger] layers@[k],
                    new.layers@[k],
                    ids@[k].0,
                    ids@[k].1@,
                    now,
                ),
        decreases new.layers.len() - i,
    {
        let l = &new.layers[i];
        assert(ids@[i as int].1@.len() == new.layers@[i as int].participants@.len());
        let participants = build_participants(&l.participants, &ids[i].1);
        layers.push(
            OnCallLayer {
                id: ids[i].0,
                name: l.name.clone(),
                rotation_type: l.rotation_type.clone(),
                rotation_length_secs: l.rotation_length_secs,
                handoff_at: l.handoff_at,
                layer_order: l.layer_order,
                created_at: now,
                participants,
            },
        );
        i += 1;
    }
    OnCallScheduleDetail {
        schedule: OnCallSchedule {
            id,
            name: new.name.clone(),
            timezone: new.timezone.clone(),
            created_at: now,
            updated_at: now,
        },
        layers,
        overrides: Vec::new(),
    }
}

/// An override to be made.
#[derive(Clone, Copy, Debug, PartialEq, Eq, Structural)]
pub struct NewOnCallOverride {
    pub user_id: Id,
    pub starts_at: Moment,
    pub ends_at: Moment,
}

/// Makes an override, which has to end after it starts.
pub fn create_override(new: &NewOnCallOverride, id: Id, now: Moment) -> (r: Result<
    OnCallOverride,
    AppError,
>)
    ensures
        match r {
            Ok(o) => new.starts_at < new.ends_at && o == (OnCallOverride {
                id,
                user_id: new.user_id,
                starts_at: new.starts_at,
                ends_at: new.ends_at,
                created_by: None,
                created_at: now,
            }),
            Err(e) => new.ends_at <= new.starts_at && crate::error::is_bad_request(
                e,
                "INVALID_OVERRIDE_WINDOW"@,
                "ends_at must be strictly after starts_at"@,
            ),
        },
{
    if new.ends_at <= new.starts_at {
        return Err(
            bad_request(
                "INVALID_OVERRIDE_WINDOW",
                owned("ends_at must be strictly after starts_at"),
            ),
        );
    }
    Ok(
        OnCallOverride {
            id,
            user_id: new.user_id,
            starts_at: new.starts_at,
            ends_at: new.ends_at,
            created_by: None,
            created_at: now,
        },
    )
}

/// A schedule is accepted exactly where it has a name that is not blank, a known
/// time zone, and rotations that have a positive length and somebody in them.
pub proof fn law_accepted_schedules_can_rotate(new: NewOnCallSchedule, zone_known: bool)
    ensures
        schedule_fault(new, zone_known) is None <==> {
            &&& crate::text::trimmed(new.name@).len() > 0
            &&& zone_known
            &&& forall|i: int|
                0 <= i < new.layers@.len() ==> (#[trigger] new.layers@[i]).rotation_length_secs > 0
                    && new.layers@[i].participants@.len() > 0
        },
{
    lemma_layers(new.layers@, 0);
}

/// There is no faulty rotation from rotation `i` on exactly where all can rotate.
proof fn lemma_layers(layers: Seq<NewOnCallLayer>, i: nat)
    ensures
        layers_fault(layers, i) is None <==> forall|k: int|
            i <= k < layers.len() ==> (#[trigger] layers[k]).rotation_length_secs > 0
                && layers[k].participants@.len() > 0,
    decreases layers.len() - i,
{
    if i < layers.len() {
        lemma_layers(layers, i + 1);
    }
}

} // verus!
