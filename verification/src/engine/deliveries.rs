//! Who is written to when an incident opens or closes, and what they are told.

use vstd::prelude::*;
use vstd::string::*;

use crate::codec::{uuid_text, Id};
use crate::domain::Incident;
use crate::engine::incident_writer::DeliveryReason;
use crate::text::owned;
use crate::time::display_date;

verus! {

/// How a subscriber is reached.
#[derive(Clone, Copy, Debug, PartialEq, Eq, Structural)]
pub enum SubscriberChannel {
    Email,
    Webhook,
    Slack,
}

/// Someone who follows a page.
#[derive(Clone, Debug)]
pub struct Subscriber {
    pub id: Id,
    pub channel: SubscriberChannel,
    pub target: String,
    pub verified: bool,
}

/// A page with its targets and its subscribers.
#[derive(Clone, Debug)]
pub struct PageAudience {
    pub page_id: Id,
    pub enabled: bool,
    pub target_ids: Vec<Id>,
    pub subscribers: Vec<Subscriber>,
}

/// One message to one subscriber.
#[derive(Clone, Debug)]
pub struct Delivery {
    pub subscriber_id: Id,
    pub page_id: Id,
    pub channel: SubscriberChannel,
    pub target: String,
    pub payload: String,
    pub reason: DeliveryReason,
}

/// The word for a reason.
pub open spec fn reason_word(reason: DeliveryReason) -> Seq<char> {
    match reason {
        DeliveryReason::IncidentOpened => "opened"@,
        DeliveryReason::IncidentResolved => "resolved"@,
        DeliveryReason::IncidentUpdated => "updated"@,
    }
}

/// What subscribers are told of an incident.
pub open spec fn payload_text(incident: Incident, reason: DeliveryReason) -> Seq<char> {
    "incident "@ + reason_word(reason) + " "@ + crate::codec::id_text(incident.id) + " (target="@
        + crate::codec::id_text(incident.target_id) + ", severity="@ + incident.severity.db_name()
        + ", started="@ + crate::time::displayed_date_of(incident.started_at as int) + ")"@
}

/// What subscribers are told of an incident.
pub fn delivery_payload(incident: &Incident, reason: DeliveryReason) -> (r: String)
    requires
        crate::time::on_calendar(incident.started_at as int),
    ensures
        r@ == payload_text(*incident, reason),
{
    let mut out = owned("incident ");
    out.append(
        match reason {
            DeliveryReason::IncidentOpened => "opened",
            DeliveryReason::IncidentResolved => "resolved",
            DeliveryReason::IncidentUpdated => "updated",
        },
    );
    out.append(" ");
    out.append(uuid_text(incident.id).as_str());
    out.append(" (target=");
    out.append(uuid_text(incident.target_id).as_str());
    out.append(", severity=");
    out.append(incident.severity.as_db_str());
    out.append(", started=");
    out.append(display_date(incident.started_at).as_str());
    out.append(")");
    out
}

/// Whether a page shows the target `t` to the public.
pub open spec fn page_shows(page: PageAudience, t: Id) -> bool {
    page.enabled && page.target_ids@.contains(t)
}

/// Who of a page's subscribers is written to: the verified ones, in order, with
/// the page they follow.
pub open spec fn page_recipients(page: PageAudience, n: int) -> Seq<(Id, Subscriber)>
    decreases n,
{
    if n <= 0 {
        Seq::empty()
    } else if page.subscribers@[n - 1].verified {
        page_recipients(page, n - 1).push((page.page_id, page.subscribers@[n - 1]))
    } else {
        page_recipients(page, n - 1)
    }
}

/// Who is written to about the target `t`: for each enabled page that shows it,
/// in order, the verified subscribers.
pub open spec fn recipients(pages: Seq<PageAudience>, t: Id) -> Seq<(Id, Subscriber)>
    decreases pages.len(),
{
    if pages.len() == 0 {
        Seq::empty()
    } else if page_shows(pages.last(), t) {
        recipients(pages.drop_last(), t) + page_recipients(
            pages.last(),
            pages.last().subscribers@.len() as int,
        )
    } else {
        recipients(pages.drop_last(), t)
    }
}

/// `d` is the message about `incident` to one recipient.
pub open spec fn is_delivery(
    d: Delivery,
    to: (Id, Subscriber),
    incident: Incident,
    reason: DeliveryReason,
) -> bool {
    &&& d.page_id == to.0
    &&& d.subscriber_id == to.1.id
    &&& d.channel == to.1.channel
    &&& d.target == to.1.target
    &&& d.payload@ == payload_text(incident, reason)
    &&& d.reason == reason
}

/// `out` holds one message to each of `to`, in order.
pub open spec fn are_deliveries(
    out: Seq<Delivery>,
    to: Seq<(Id, Subscriber)>,
    incident: Incident,
    reason: DeliveryReason,
) -> bool {
    &&& out.len() == to.len()
    &&& forall|i: int|
        #![trigger out[i]]
        0 <= i < out.len() ==> is_delivery(out[i], to[i], incident, reason)
}

/// Whether `t` is among `ids`.
fn has_id(ids: &Vec<Id>, t: Id) -> (r: bool)
    ensures
        r == ids@.contains(t),
{
    let mut i: usize = 0;
    while i < ids.len()
        invariant
            i <= ids.len(),
            forall|j: int| 0 <= j < i ==> ids@[j] != t,
        decreases ids.len() - i,
    {
        if ids[i] == t {
            return true;
        }
        i += 1;
    }
    false
}

/// The messages about a change of `incident`: one to each verified subscriber of
/// each enabled page that shows its target.
pub fn enqueue_subscriber_deliveries(
    incident: &Incident,
    reason: DeliveryReason,
    pages: &Vec<PageAudience>,
) -> (out: Vec<Delivery>)
    requires
        crate::time::on_calendar(incident.started_at as int),
    ensures
        are_deliveries(out@, recipients(pages@, incident.target_id), *incident, reason),
{
    let payload = delivery_payload(incident, reason);
    let mut out: Vec<Delivery> = Vec::new();
    let mut p: usize = 0;
    while p < pages.len()
        invariant
            p <= pages.len(),
            payload@ == payload_text(*incident, reason),
            are_deliveries(
                out@,
                recipients(pages@.take(p as int), incident.target_id),
                *incident,
                reason,
            ),
        decreases pages.len() - p,
    {
        let page = &pages[p];
        proof {
            assert(pages@.take(p + 1).drop_last() =~= pages@.take(p as int));
            assert(pages@.take(p + 1).last() == pages@[p as int]);
        }
        let ghost before = recipients(pages@.take(p as int), incident.target_id);
        if page.enabled && has_id(&page.target_ids, incident.target_id) {
            let mut i: usize = 0;
            assert(before + page_recipients(*page, 0) =~= before);
            while i < page.subscribers.len()
                invariant
                    i <= page.subscribers.len(),
                    payload@ == payload_text(*incident, reason),
                    are_deliveries(
                        out@,
                        before + page_recipients(*page, i as int),
                        *incident,
                        reason,
                    ),
                decreases page.subscribers.len() - i,
            {
                let sub = &page.subscribers[i];
                let ghost was = before + page_recipients(*page, i as int);
                if sub.verified {
                    out.push(
                        Delivery {
                            subscriber_id: sub.id,
                            page_id: page.page_id,
                            channel: sub.channel,
                            target: sub.target.clone(),
                            payload: payload.clone(),
                            reason,
                        },
                    );
                    assert(before + page_recipients(*page, i + 1) =~= was.push(
                        (page.page_id, page.subscribers@[i as int]),
                    ));
                }
                i += 1;
            }
        }
        p += 1;
    }
    assert(pages@.take(p as int) =~= pages@);
    out
}

/// The recipients of one page are verified and follow that page.
proof fn lemma_page_recipients_are_verified(page: PageAudience, n: int, i: int)
    requires
        n <= page.subscribers@.len(),
        0 <= i < page_recipients(page, n).len(),
    ensures
        page_recipients(page, n)[i].1.verified,
        page_recipients(page, n)[i].0 == page.page_id,
    decreases n,
{
    if n > 0 {
        if i < page_recipients(page, n - 1).len() {
            lemma_page_recipients_are_verified(page, n - 1, i);
        }
    }
}

/// Nobody is written to who has not confirmed their address.
pub proof fn law_only_verified_subscribers_are_written_to(
    pages: Seq<PageAudience>,
    t: Id,
    i: int,
)
    requires
        0 <= i < recipients(pages, t).len(),
    ensures
        recipients(pages, t)[i].1.verified,
    decreases pages.len(),
{
    if pages.len() > 0 {
        let before = recipients(pages.drop_last(), t);
        if i < before.len() {
            law_only_verified_subscribers_are_written_to(pages.drop_last(), t, i);
        } else {
            lemma_page_recipients_are_verified(
                pages.last(),
                pages.last().subscribers@.len() as int,
                i - before.len(),
            );
        }
    }
}

/// Nobody is written to about a target that no enabled page shows.
pub proof fn law_hidden_targets_are_not_announced(pages: Seq<PageAudience>, t: Id)
    requires
        forall|i: int| 0 <= i < pages.len() ==> !page_shows(#[trigger] pages[i], t),
    ensures
        recipients(pages, t).len() == 0,
    decreases pages.len(),
{
    if pages.len() > 0 {
        assert(!page_shows(pages[pages.len() - 1], t));
        assert forall|i: int| 0 <= i < pages.drop_last().len() implies !page_shows(
            #[trigger] pages.drop_last()[i],
            t,
        ) by {
            assert(pages.drop_last()[i] == pages[i]);
        }
        law_hidden_targets_are_not_announced(pages.drop_last(), t);
    }
}

} // verus!
