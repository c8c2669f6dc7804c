//! Subscribers of status pages, who confirm before they are written to.

use vstd::prelude::*;
use vstd::string::*;

use crate::codec::{uuid_text, Id};
use crate::domain::StatusPage;
use crate::engine::deliveries::SubscriberChannel;
use crate::error::{not_found, AppError};
use crate::text::owned;
use crate::time::Moment;

verus! {

/// Somebody who asked to hear of a page. `config` is a JSON text that is kept for
/// the channel's own use.
#[derive(Clone, Debug)]
pub struct PageSubscriber {
    pub id: Id,
    pub status_page_id: Id,
    /// The organisation that the page belongs to.
    pub org_id: Id,
    pub channel: SubscriberChannel,
    pub target: String,
    pub config: String,
    pub verified_at: Option<Moment>,
    pub created_at: Moment,
    pub updated_at: Moment,
}

/// A subscription to be made.
#[derive(Clone, Debug)]
pub struct NewSubscriberBody {
    pub channel: SubscriberChannel,
    pub target: String,
    pub config: String,
}

/// Makes a subscription to a page, which nobody has confirmed yet.
pub fn create_subscriber(
    page: &StatusPage,
    body: NewSubscriberBody,
    id: Id,
    now: Moment,
) -> (r: PageSubscriber)
    ensures
        r == (PageSubscriber {
            id,
            status_page_id: page.id,
            org_id: page.org_id,
            channel: body.channel,
            target: body.target,
            config: body.config,
            verified_at: None,
            created_at: now,
            updated_at: now,
        }),
{
    PageSubscriber {
        id,
        status_page_id: page.id,
        org_id: page.org_id,
        channel: body.channel,
        target: body.target,
        config: body.config,
        verified_at: None,
        created_at: now,
        updated_at: now,
    }
}

/// The first of `subscribers` with this identifier, from place `i` on.
pub open spec fn subscriber_of(subscribers: Seq<PageSubscriber>, id: Id, i: nat) -> Option<
    PageSubscriber,
>
    decreases subscribers.len() - i,
{
    if i >= subscribers.len() {
        None
    } else if subscribers[i as int].id == id {
        Some(subscribers[i as int])
    } else {
        subscriber_of(subscribers, id, i + 1)
    }
}

/// What to do about a confirmation.
#[derive(Clone, Debug)]
pub enum VerifyStep {
    /// It was confirmed before, and stands as it is.
    Already(PageSubscriber),
    /// It is to be confirmed now.
    Confirm,
}

/// What to do about the confirmation of a subscription.
pub fn verify_subscriber(subscribers: Vec<PageSubscriber>, page_id: Id, id: Id) -> (r: Result<
    VerifyStep,
    AppError,
>)
    ensures
        match r {
            Ok(VerifyStep::Already(s)) => subscriber_of(subscribers@, id, 0) == Some(s)
                && s.verified_at is Some,
            Ok(VerifyStep::Confirm) => subscriber_of(subscribers@, id, 0) matches Some(s)
                && s.verified_at is None,
            Err(e) => subscriber_of(subscribers@, id, 0) is None && crate::error::is_not_found(
                e,
                "SUBSCRIBER_NOT_FOUND"@,
                "subscriber "@ + crate::codec::id_text(id) + " not found on page "@
                    + crate::codec::id_text(page_id),
            ),
        },
{
    let mut all = subscribers;
    let mut i: usize = 0;
    while i < all.len() && all[i].id != id
        invariant
            i <= all.len(),
            subscriber_of(all@, id, 0) == subscriber_of(all@, id, i as nat),
        decreases all.len() - i,
    {
        i += 1;
    }
    if i == all.len() {
        let mut message = owned("subscriber ");
        message.append(uuid_text(id).as_str());
        message.append(" not found on page ");
        message.append(uuid_text(page_id).as_str());
        return Err(not_found("SUBSCRIBER_NOT_FOUND", message));
    }
    let found = all.remove(i);
    if found.verified_at.is_some() {
        Ok(VerifyStep::Already(found))
    } else {
        Ok(VerifyStep::Confirm)
    }
}

/// A subscription that is confirmed at `now`.
pub fn confirmed(subscriber: PageSubscriber, now: Moment) -> (r: PageSubscriber)
    ensures
        r == (PageSubscriber { verified_at: Some(now), updated_at: now, ..subscriber }),
{
    let mut s = subscriber;
    s.verified_at = Some(now);
    s.updated_at = now;
    s
}

/// A subscription starts unconfirmed; once it is confirmed, confirming it again
/// changes nothing and is no error.
pub proof fn law_confirming_twice_is_confirming_once(
    subscriber: PageSubscriber,
    now: Moment,
    after: PageSubscriber,
    subscribers: Vec<PageSubscriber>,
    page_id: Id,
    step: Result<VerifyStep, AppError>,
)
    requires
        call_ensures(confirmed, (subscriber, now), after),
        subscriber_of(subscribers@, after.id, 0) == Some(after),
        call_ensures(verify_subscriber, (subscribers, page_id, after.id), step),
    ensures
        step == Ok::<VerifyStep, AppError>(VerifyStep::Already(after)),
{
}

} // verus!
