//! The feed of incidents.

use vstd::prelude::*;
use vstd::string::*;

use crate::domain::{IncidentSeverity, IncidentStatusPhase, PublicIncident};
use crate::markup::{xml_escape, TextReply};
use crate::public::feed::{get_incidents_rss, render_rss_xml};
use crate::public::incident::IncidentRecord;
use crate::time::Moment;

verus! {

/// The word for how bad an incident is.
pub open spec fn severity_word(s: IncidentSeverity) -> Seq<char> {
    match s {
        IncidentSeverity::Minor => "minor"@,
        IncidentSeverity::Major => "major"@,
        IncidentSeverity::Critical => "critical"@,
        IncidentSeverity::Unknown => "unknown"@,
    }
}

/// The word for how far an incident is.
pub open spec fn phase_word(p: IncidentStatusPhase) -> Seq<char> {
    match p {
        IncidentStatusPhase::Investigating => "investigating"@,
        IncidentStatusPhase::Identified => "identified"@,
        IncidentStatusPhase::Monitoring => "monitoring"@,
        IncidentStatusPhase::Resolved => "resolved"@,
        IncidentStatusPhase::Postmortem => "postmortem"@,
        IncidentStatusPhase::Unknown => "unknown"@,
    }
}

/// Whether `text` is what a feed says of an incident: how bad it is and how far, and the
/// message of its latest update, where it has one.
pub open spec fn describes(text: Seq<char>, p: PublicIncident) -> bool {
    let n = p.updates@.len();
    let head = "Severity: "@ + severity_word(p.severity) + " — Phase: "@ + phase_word(
        p.status_phase,
    );
    &&& n == 0 ==> text == head
    &&& n > 0 ==> text == head + " — "@ + p.updates@[n - 1].message@
}

/// Whether `item` is the element of a feed for an incident: its title, the address of its
/// page twice, the mail date of its start and its description, all escaped.
pub open spec fn is_item(
    item: Seq<char>,
    base: Seq<char>,
    p: PublicIncident,
    description: Seq<char>,
) -> bool {
    let address = crate::markup::escaped(base + "/incidents/"@ + crate::codec::id_text(p.id));
    &&& describes(description, p)
    &&& item == "    <item>\n      <title>"@ + crate::markup::escaped(p.title@)
        + "</title>\n      <link>"@ + address + "</link>\n      <guid isPermaLink=\"true\">"@
        + address + "</guid>\n      <pubDate>"@ + crate::markup::escaped(
        crate::time::mail_date_of(p.started_at as int),
    ) + "</pubDate>\n      <description>"@ + crate::markup::escaped(description)
        + "</description>\n    </item>\n"@
}

/// Escaping stands for each of the four characters by its entity and leaves every other
/// as it is, one after the other.
pub proof fn law_escaping_goes_character_by_character(
    a: &str,
    b: &str,
    ab: &str,
    ra: String,
    rb: String,
    rab: String,
)
    requires
        call_ensures(xml_escape, (a,), ra),
        call_ensures(xml_escape, (b,), rb),
        call_ensures(xml_escape, (ab,), rab),
        ab@ == a@ + b@,
    ensures
        rab@ == ra@ + rb@,
        a@.len() == 1 && a@[0] == '&' ==> ra@ == seq!['&', 'a', 'm', 'p', ';'],
        a@.len() == 1 && a@[0] == '<' ==> ra@ == seq!['&', 'l', 't', ';'],
        a@.len() == 1 && a@[0] == '>' ==> ra@ == seq!['&', 'g', 't', ';'],
        a@.len() == 1 && a@[0] == '"' ==> ra@ == seq!['&', 'q', 'u', 'o', 't', ';'],
        a@.len() == 1 && a@[0] != '&' && a@[0] != '<' && a@[0] != '>' && a@[0] != '"' ==> ra@
            == a@,
{
    crate::markup::law_escape_distributes(a@, b@);
    if a@.len() == 1 {
        reveal_strlit("&amp;");
        reveal_strlit("&lt;");
        reveal_strlit("&gt;");
        reveal_strlit("&quot;");
        assert(a@.drop_last() =~= Seq::<char>::empty());
        assert(crate::markup::escaped(a@.drop_last()) =~= Seq::<char>::empty());
        assert(ra@ =~= crate::markup::escaped_char(a@[0]));
        assert(a@ =~= seq![a@[0]]);
    }
}

/// Items in order make up the text of all items.
proof fn lemma_items(base: Seq<char>, incidents: Seq<PublicIncident>)
    ensures
        crate::public::feed::items_text(base, incidents) == Seq::new(
            incidents.len(),
            |i: int| crate::public::feed::item_text(base, incidents[i]),
        ).flatten_alt(),
    decreases incidents.len(),
{
    let items = Seq::new(
        incidents.len(),
        |i: int| crate::public::feed::item_text(base, incidents[i]),
    );
    if incidents.len() > 0 {
        let rest = incidents.drop_last();
        lemma_items(base, rest);
        assert(items.drop_last() =~= Seq::new(
            rest.len(),
            |i: int| crate::public::feed::item_text(base, rest[i]),
        ));
    }
}

/// A feed is its head, with its title, address, description and date, then one item for
/// each incident, in the order given, and its end.
pub proof fn law_a_feed_has_an_item_for_each_incident(
    title: &str,
    link: &str,
    desc: &str,
    built: &str,
    base: &str,
    incidents: &Vec<PublicIncident>,
    r: String,
) -> (found: (Seq<Seq<char>>, Seq<Seq<char>>))
    requires
        call_ensures(render_rss_xml, (title, link, desc, built, base, incidents), r),
    ensures
        found.0.len() == incidents@.len(),
        found.1.len() == incidents@.len(),
        forall|i: int|
            0 <= i < incidents@.len() ==> is_item(
                #[trigger] found.0[i],
                base@,
                incidents@[i],
                found.1[i],
            ),
        r@
            == "<?xml version=\"1.0\" encoding=\"UTF-8\"?>\n<rss version=\"2.0\">\n  <channel>\n    <title>"@
            + crate::markup::escaped(title@) + "</title>\n    <link>"@ + crate::markup::escaped(
            link@,
        ) + "</link>\n    <description>"@ + crate::markup::escaped(desc@)
            + "</description>\n    <lastBuildDate>"@ + crate::markup::escaped(built@)
            + "</lastBuildDate>\n    <generator>statuspage</generator>\n"@ + found.0.flatten_alt()
            + "  </channel>\n</rss>\n"@,
{
    let items = Seq::new(
        incidents@.len(),
        |i: int| crate::public::feed::item_text(base@, incidents@[i]),
    );
    let said = Seq::new(
        incidents@.len(),
        |i: int| crate::public::feed::item_summary(incidents@[i]),
    );
    lemma_items(base@, incidents@);
    assert forall|i: int| 0 <= i < incidents@.len() implies is_item(
        #[trigger] items[i],
        base@,
        incidents@[i],
        said[i],
    ) by {
        let p = incidents@[i];
        assert(p.severity.db_name() == severity_word(p.severity));
        assert(p.status_phase.db_name() == phase_word(p.status_phase));
    }
    (items, said)
}

/// Of an incident's updates only the latest shows in a feed: feeds of incidents that
/// differ in earlier updates alone are the same.
pub proof fn law_only_the_latest_update_shows(
    title: &str,
    link: &str,
    desc: &str,
    built: &str,
    base: &str,
    a: &Vec<PublicIncident>,
    b: &Vec<PublicIncident>,
    ra: String,
    rb: String,
)
    requires
        call_ensures(render_rss_xml, (title, link, desc, built, base, a), ra),
        call_ensures(render_rss_xml, (title, link, desc, built, base, b), rb),
        a@.len() == b@.len(),
        forall|i: int|
            0 <= i < a@.len() ==> {
                let n = (#[trigger] a@[i]).updates@.len();
                let m = b@[i].updates@.len();
                &&& a@[i].id == b@[i].id
                &&& a@[i].title@ == b@[i].title@
                &&& a@[i].started_at == b@[i].started_at
                &&& a@[i].severity == b@[i].severity
                &&& a@[i].status_phase == b@[i].status_phase
                &&& n == 0 <==> m == 0
                &&& n > 0 ==> a@[i].updates@[n - 1].message@ == b@[i].updates@[m - 1].message@
            },
    ensures
        ra@ == rb@,
{
    let x = law_a_feed_has_an_item_for_each_incident(title, link, desc, built, base, a, ra);
    let y = law_a_feed_has_an_item_for_each_incident(title, link, desc, built, base, b, rb);
    assert forall|i: int| 0 <= i < a@.len() implies #[trigger] x.0[i] == y.0[i] by {
        assert(a@[i].id == b@[i].id);
        assert(is_item(x.0[i], base@, a@[i], x.1[i]));
        assert(is_item(y.0[i], base@, b@[i], y.1[i]));
        assert(x.1[i] == y.1[i]);
    }
    assert(x.0 =~= y.0);
}

/// The feed of a site tells of its 50 newest public incidents, the newest first, under
/// the name of the site. `all` are all of its public incidents in that order, and `shown`
/// are those that the feed is made of.
pub proof fn law_the_feed_tells_of_the_newest(
    site_name: Option<String>,
    base: &str,
    records: &Vec<IncidentRecord>,
    now: Moment,
    r: TextReply,
) -> (found: (Seq<IncidentRecord>, Seq<PublicIncident>))
    requires
        call_ensures(get_incidents_rss, (site_name, base, records, now), r),
    ensures
        r.status == 200,
        r.content_type@ == "application/rss+xml; charset=utf-8"@,
        ({
            let (all, shown) = found;
            let public = records@.filter(
                |x: IncidentRecord|
                    x.incident.public_title is Some || x.incident.public_description is Some,
            );
            &&& all.to_multiset() == public.to_multiset()
            &&& all.len() == public.len()
            &&& forall|i: int, j: int|
                #![trigger all[i], all[j]]
                0 <= i <= j < all.len() ==> all[i].incident.started_at
                    >= all[j].incident.started_at
            &&& shown.len() == (if all.len() > 50 {
                50
            } else {
                all.len()
            })
            &&& forall|i: int|
                0 <= i < shown.len() ==> crate::laws::public::tells_of(#[trigger] shown[i], all[i])
            &&& r.body@ == crate::public::feed::feed_text(
                (match site_name {
                    Some(s) => s@,
                    None => "Status Page"@,
                }) + " — Incident History"@,
                base@,
                "Recent incidents and outages affecting this status page."@,
                crate::time::mail_date_of(now as int),
                base@,
                shown,
            )
        }),
{
    let keep = |x: IncidentRecord|
        x.incident.public_title is Some || x.incident.public_description is Some;
    assert(keep =~= (|r: IncidentRecord| crate::public::incident::is_public(r.incident)));
    let public = records@.filter(keep);
    let key = crate::public::incident::record_start();
    let all = crate::public::incident::newest_first(public, key);
    crate::public::incident::law_newest_first_is_sorted(public, key);
    crate::public::incident::law_newest_first_is_a_permutation(public, key);
    assert forall|i: int, j: int|
        #![trigger all[i], all[j]]
        0 <= i <= j < all.len() implies all[i].incident.started_at
        >= all[j].incident.started_at by {
        assert(key(all[i]) >= key(all[j]));
    }
    let kept = crate::public::feed::feed_records(records@);
    let shown = choose|shown: Seq<PublicIncident>|
        {
            &&& #[trigger] crate::public::incident::are_public_forms(shown, kept)
            &&& r.body@ == crate::public::feed::feed_text(
                crate::public::feed::feed_title(site_name),
                base@,
                "Recent incidents and outages affecting this status page."@,
                crate::time::mail_date_of(now as int),
                base@,
                shown,
            )
        };
    assert forall|i: int| 0 <= i < shown.len() implies crate::laws::public::tells_of(
        #[trigger] shown[i],
        all[i],
    ) by {
        assert(kept[i] == all[i]);
        crate::laws::public::lemma_tells_of(shown[i], kept[i]);
    }
    (all, shown)
}

} // verus!
