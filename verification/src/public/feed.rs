//! The RSS 2.0 feed of public incidents.

use vstd::prelude::*;
use vstd::string::*;

use crate::codec::uuid_text;
use crate::domain::PublicIncident;
use crate::markup::{xml_escape, TextReply};
use crate::public::incident::{list_public_incidents, sort_newest_first, IncidentRecord};
use crate::text::owned;
use crate::time::{to_rfc2822, Moment};

verus! {

/// How many incidents a feed holds at most.
pub const FEED_LIMIT: usize = 50;

/// The link to the incident `p` below `base`.
pub open spec fn item_link(base: Seq<char>, p: PublicIncident) -> Seq<char> {
    base + "/incidents/"@ + crate::codec::id_text(p.id)
}

/// The one-line summary of `p`.
pub open spec fn item_summary(p: PublicIncident) -> Seq<char> {
    let head = "Severity: "@ + p.severity.db_name() + " — Phase: "@ + p.status_phase.db_name();
    if p.updates@.len() == 0 {
        head
    } else {
        head + " — "@ + p.updates@.last().message@
    }
}

/// The item of `p`.
pub open spec fn item_text(base: Seq<char>, p: PublicIncident) -> Seq<char> {
    "    <item>\n      <title>"@ + crate::markup::escaped(p.title@) + "</title>\n      <link>"@
        + crate::markup::escaped(item_link(base, p))
        + "</link>\n      <guid isPermaLink=\"true\">"@ + crate::markup::escaped(
        item_link(base, p),
    ) + "</guid>\n      <pubDate>"@ + crate::markup::escaped(
        crate::time::mail_date_of(p.started_at as int),
    ) + "</pubDate>\n      <description>"@ + crate::markup::escaped(item_summary(p))
        + "</description>\n    </item>\n"@
}

/// The items of `incidents`, in order.
pub open spec fn items_text(base: Seq<char>, incidents: Seq<PublicIncident>) -> Seq<char>
    decreases incidents.len(),
{
    if incidents.len() == 0 {
        Seq::empty()
    } else {
        items_text(base, incidents.drop_last()) + item_text(base, incidents.last())
    }
}

/// The whole document.
pub open spec fn feed_text(
    title: Seq<char>,
    link: Seq<char>,
    description: Seq<char>,
    built: Seq<char>,
    base: Seq<char>,
    incidents: Seq<PublicIncident>,
) -> Seq<char> {
    "<?xml version=\"1.0\" encoding=\"UTF-8\"?>\n<rss version=\"2.0\">\n  <channel>\n    <title>"@
        + crate::markup::escaped(title) + "</title>\n    <link>"@ + crate::markup::escaped(link)
        + "</link>\n    <description>"@ + crate::markup::escaped(description)
        + "</description>\n    <lastBuildDate>"@ + crate::markup::escaped(built)
        + "</lastBuildDate>\n    <generator>statuspage</generator>\n"@ + items_text(
        base,
        incidents,
    ) + "  </channel>\n</rss>\n"@
}

/// Whether each of `incidents` started in a year that a mail date can name.
pub open spec fn dates_fit(incidents: Seq<PublicIncident>) -> bool {
    forall|i: int|
        0 <= i < incidents.len() ==> crate::time::in_mail_years(
            (#[trigger] incidents[i]).started_at as int,
        )
}

/// The item of one incident.
fn render_item(base: &str, inc: &PublicIncident) -> (r: String)
    requires
        crate::time::in_mail_years(inc.started_at as int),
    ensures
        r@ == item_text(base@, *inc),
{
    let mut link = owned(base);
    link.append("/incidents/");
    link.append(uuid_text(inc.id).as_str());
    let mut summary = owned("Severity: ");
    summary.append(inc.severity.as_db_str());
    summary.append(" — Phase: ");
    summary.append(inc.status_phase.as_db_str());
    let n: usize = inc.updates.len();
    if n > 0 {
        summary.append(" — ");
        summary.append(inc.updates[n - 1].message.as_str());
    }
    let link_escaped = xml_escape(link.as_str());
    let mut out = owned("    <item>\n      <title>");
    out.append(xml_escape(inc.title.as_str()).as_str());
    out.append("</title>\n      <link>");
    out.append(link_escaped.as_str());
    out.append("</link>\n      <guid isPermaLink=\"true\">");
    out.append(link_escaped.as_str());
    out.append("</guid>\n      <pubDate>");
    out.append(xml_escape(to_rfc2822(inc.started_at).as_str()).as_str());
    out.append("</pubDate>\n      <description>");
    out.append(xml_escape(summary.as_str()).as_str());
    out.append("</description>\n    </item>\n");
    out
}

/// Renders the feed of `incidents`, in the order given. All text that is filled in is
/// escaped, the dates too.
pub fn render_rss_xml(
    channel_title: &str,
    channel_link: &str,
    channel_desc: &str,
    last_build_date: &str,
    base: &str,
    incidents: &Vec<PublicIncident>,
) -> (r: String)
    requires
        dates_fit(incidents@),
    ensures
        r@ == feed_text(
            channel_title@,
            channel_link@,
            channel_desc@,
            last_build_date@,
            base@,
            incidents@,
        ),
{
    let mut items = String::new();
    let mut i: usize = 0;
    while i < incidents.len()
        invariant
            i <= incidents.len(),
            dates_fit(incidents@),
            items@ == items_text(base@, incidents@.take(i as int)),
        decreases incidents.len() - i,
    {
        items.append(render_item(base, &incidents[i]).as_str());
        proof {
            assert(incidents@.take(i + 1).drop_last() =~= incidents@.take(i as int));
            assert(incidents@.take(i + 1).last() == incidents@[i as int]);
        }
        i += 1;
    }
    assert(incidents@.take(i as int) =~= incidents@);
    let mut out = owned(
        "<?xml version=\"1.0\" encoding=\"UTF-8\"?>\n<rss version=\"2.0\">\n  <channel>\n    <title>",
    );
    out.append(xml_escape(channel_title).as_str());
    out.append("</title>\n    <link>");
    out.append(xml_escape(channel_link).as_str());
    out.append("</link>\n    <description>");
    out.append(xml_escape(channel_desc).as_str());
    out.append("</description>\n    <lastBuildDate>");
    out.append(xml_escape(last_build_date).as_str());
    out.append("</lastBuildDate>\n    <generator>statuspage</generator>\n");
    out.append(items.as_str());
    out.append("  </channel>\n</rss>\n");
    out
}

/// The title of a feed of the site `site`, or of a site without a name.
pub open spec fn feed_title(site: Option<String>) -> Seq<char> {
    (match site {
        Some(s) => s@,
        None => "Status Page"@,
    }) + " — Incident History"@
}

/// The records that a feed is made of: the public ones, the newest first, up to
/// the limit.
pub open spec fn feed_records(records: Seq<IncidentRecord>) -> Seq<IncidentRecord> {
    crate::public::snapshot::at_most(
        crate::public::incident::newest_first(
            crate::public::incident::public_ones(records),
            crate::public::incident::record_start(),
        ),
        FEED_LIMIT as int,
    )
}

/// Whether each of `records` started in a year that a mail date can name.
pub open spec fn record_dates_fit(records: Seq<IncidentRecord>) -> bool {
    forall|i: int|
        0 <= i < records.len() ==> crate::time::in_mail_years(
            (#[trigger] records[i]).incident.started_at as int,
        )
}

/// The answer to a request for the feed: the newest public incidents of the site.
pub fn get_incidents_rss(
    site_name: Option<String>,
    base: &str,
    records: &Vec<IncidentRecord>,
    now: Moment,
) -> (r: TextReply)
    requires
        crate::time::in_mail_years(now as int),
        record_dates_fit(feed_records(records@)),
    ensures
        r.status == 200,
        r.content_type@ == "application/rss+xml; charset=utf-8"@,
        exists|shown: Seq<PublicIncident>|
            {
                &&& #[trigger] crate::public::incident::are_public_forms(
                    shown,
                    feed_records(records@),
                )
                &&& r.body@ == feed_text(
                    feed_title(site_name),
                    base@,
                    "Recent incidents and outages affecting this status page."@,
                    crate::time::mail_date_of(now as int),
                    base@,
                    shown,
                )
            },
{
    let mut title = match &site_name {
        Some(s) => s.clone(),
        None => owned("Status Page"),
    };
    title.append(" — Incident History");
    let listed = list_public_incidents(records);
    proof {
        crate::public::incident::lemma_public_forms_sorted(
            listed@,
            crate::public::incident::public_ones(records@),
        );
    }
    let mut shown = sort_newest_first(listed);
    let ghost sorted = shown@;
    let ghost ordered = crate::public::incident::newest_first(
        crate::public::incident::public_ones(records@),
        crate::public::incident::record_start(),
    );
    if shown.len() > FEED_LIMIT {
        shown.truncate(FEED_LIMIT);
    }
    proof {
        let kept = feed_records(records@);
        assert(crate::public::incident::are_public_forms(sorted, ordered));
        assert forall|i: int|
            #![trigger shown@[i]]
            0 <= i < shown@.len() implies crate::public::incident::is_public_form(
            shown@[i],
            kept[i].incident,
            kept[i].postmortem,
        ) by {
            assert(shown@[i] == sorted[i]);
            assert(kept[i] == ordered[i]);
        }
        assert(crate::public::incident::are_public_forms(shown@, kept));
        assert forall|i: int| 0 <= i < shown@.len() implies crate::time::in_mail_years(
            (#[trigger] shown@[i]).started_at as int,
        ) by {
            assert(crate::time::in_mail_years(kept[i].incident.started_at as int));
        }
    }
    let built = to_rfc2822(now);
    let body = render_rss_xml(
        title.as_str(),
        base,
        "Recent incidents and outages affecting this status page.",
        built.as_str(),
        base,
        &shown,
    );
    TextReply { status: 200, content_type: "application/rss+xml; charset=utf-8", body }
}

/// What is markup in `s`: its `<`, `>` and `"`, in order.
pub open spec fn marks(s: Seq<char>) -> Seq<char> {
    s.filter(|c: char| c == '<' || c == '>' || c == '"')
}

/// Markup is found piece by piece.
proof fn lemma_marks_join(a: Seq<char>, b: Seq<char>)
    ensures
        marks(a + b) == marks(a) + marks(b),
{
    Seq::filter_distributes_over_add(a, b, |c: char| c == '<' || c == '>' || c == '"');
}

/// Filling in escaped text between two pieces adds no markup to theirs.
proof fn lemma_marks_filled(before: Seq<char>, data: Seq<char>, after: Seq<char>)
    ensures
        marks(before + crate::markup::escaped(data) + after) == marks(before) + marks(after),
{
    let e = crate::markup::escaped(data);
    crate::markup::law_escaped_text_is_inert(data);
    lemma_marks_join(before + e, after);
    lemma_marks_join(before, e);
    assert(marks(e) =~= Seq::<char>::empty()) by {
        e.lemma_all_neg_filter_empty(|c: char| c == '<' || c == '>' || c == '"');
    }
    assert(marks(before + e + after) =~= marks(before) + marks(after));
}

/// The markup of every item.
pub open spec fn item_marks() -> Seq<char> {
    marks("    <item>\n      <title>"@) + marks("</title>\n      <link>"@) + marks(
        "</link>\n      <guid isPermaLink=\"true\">"@,
    ) + marks("</guid>\n      <pubDate>"@) + marks("</pubDate>\n      <description>"@) + marks(
        "</description>\n    </item>\n"@,
    )
}

/// The markup of `n` items.
pub open spec fn items_marks(n: nat) -> Seq<char>
    decreases n,
{
    if n == 0 {
        Seq::empty()
    } else {
        items_marks((n - 1) as nat) + item_marks()
    }
}

/// The markup of every feed of `n` items.
pub open spec fn feed_marks(n: nat) -> Seq<char> {
    marks(
        "<?xml version=\"1.0\" encoding=\"UTF-8\"?>\n<rss version=\"2.0\">\n  <channel>\n    <title>"@,
    ) + marks("</title>\n    <link>"@) + marks("</link>\n    <description>"@) + marks(
        "</description>\n    <lastBuildDate>"@,
    ) + marks("</lastBuildDate>\n    <generator>statuspage</generator>\n"@) + items_marks(n)
        + marks("  </channel>\n</rss>\n"@)
}

/// An item has the markup of every item.
proof fn lemma_item_marks(base: Seq<char>, p: PublicIncident)
    ensures
        marks(item_text(base, p)) == item_marks(),
{
    let a = "    <item>\n      <title>"@;
    let b = "</title>\n      <link>"@;
    let c = "</link>\n      <guid isPermaLink=\"true\">"@;
    let d = "</guid>\n      <pubDate>"@;
    let e = "</pubDate>\n      <description>"@;
    let f = "</description>\n    </item>\n"@;
    let link = item_link(base, p);
    let t1 = a + crate::markup::escaped(p.title@) + b;
    let t2 = t1 + crate::markup::escaped(link) + c;
    let t3 = t2 + crate::markup::escaped(link) + d;
    let t4 = t3 + crate::markup::escaped(crate::time::mail_date_of(p.started_at as int)) + e;
    lemma_marks_filled(a, p.title@, b);
    lemma_marks_filled(t1, link, c);
    lemma_marks_filled(t2, link, d);
    lemma_marks_filled(t3, crate::time::mail_date_of(p.started_at as int), e);
    lemma_marks_filled(t4, item_summary(p), f);
}

/// Items have the markup of as many items.
proof fn lemma_items_marks(base: Seq<char>, incidents: Seq<PublicIncident>)
    ensures
        marks(items_text(base, incidents)) == items_marks(incidents.len()),
    decreases incidents.len(),
{
    if incidents.len() == 0 {
        reveal(Seq::filter);
    } else {
        lemma_items_marks(base, incidents.drop_last());
        lemma_item_marks(base, incidents.last());
        lemma_marks_join(items_text(base, incidents.drop_last()), item_text(base, incidents.last()));
    }
}

/// No data becomes markup: whatever is filled in, the markup of a feed is that of
/// every feed with as many items.
pub proof fn law_no_data_becomes_markup(
    title: Seq<char>,
    link: Seq<char>,
    description: Seq<char>,
    built: Seq<char>,
    base: Seq<char>,
    incidents: Seq<PublicIncident>,
)
    ensures
        marks(feed_text(title, link, description, built, base, incidents)) == feed_marks(
            incidents.len(),
        ),
{
    let a =
        "<?xml version=\"1.0\" encoding=\"UTF-8\"?>\n<rss version=\"2.0\">\n  <channel>\n    <title>"@;
    let b = "</title>\n    <link>"@;
    let c = "</link>\n    <description>"@;
    let d = "</description>\n    <lastBuildDate>"@;
    let e = "</lastBuildDate>\n    <generator>statuspage</generator>\n"@;
    let f = "  </channel>\n</rss>\n"@;
    let items = items_text(base, incidents);
    let t1 = a + crate::markup::escaped(title) + b;
    let t2 = t1 + crate::markup::escaped(link) + c;
    let t3 = t2 + crate::markup::escaped(description) + d;
    let t4 = t3 + crate::markup::escaped(built) + e;
    lemma_marks_filled(a, title, b);
    lemma_marks_filled(t1, link, c);
    lemma_marks_filled(t2, description, d);
    lemma_marks_filled(t3, built, e);
    lemma_items_marks(base, incidents);
    lemma_marks_join(t4, items);
    lemma_marks_join(t4 + items, f);
}

} // verus!
