use statuspage::domain::{
    IncidentSeverity, IncidentStatusPhase, PublicIncident, PublicIncidentUpdate,
};
use statuspage::markup::xml_escape;
use statuspage::public::feed::render_rss_xml;
use statuspage::time::Moment;

fn moment(t: chrono::DateTime<chrono::Utc>) -> Moment {
    i128::from(t.timestamp()) * 1_000_000_000 + i128::from(t.timestamp_subsec_nanos())
}

fn make_incident(
    id: u128,
    title: &str,
    started_at: Moment,
    severity: IncidentSeverity,
    phase: IncidentStatusPhase,
) -> PublicIncident {
    PublicIncident {
        id,
        component_id: 0,
        component_name: String::new(),
        title: title.to_string(),
        started_at,
        ended_at: None,
        severity,
        status_phase: phase,
        updates: Vec::new(),
        postmortem: None,
    }
}

#[test]
fn render_rss_xml_empty_items_is_valid_skeleton() {
    let xml = render_rss_xml(
        "My Page — Incident History",
        "https://status.example.com",
        "desc",
        "Sat, 26 Jul 2026 12:00:00 +0000",
        "https://status.example.com",
        &vec![],
    );
    assert!(xml.starts_with("<?xml version=\"1.0\" encoding=\"UTF-8\"?>"));
    assert!(xml.contains("<rss version=\"2.0\">"));
    assert!(xml.contains("<title>My Page — Incident History</title>"));
    assert!(xml.contains("<generator>statuspage</generator>"));
    assert!(!xml.contains("<item>"));
    assert!(xml.contains("</channel>\n</rss>"));
}

#[test]
fn render_rss_xml_renders_items_with_link_and_pubdate() {
    let started_at = chrono::DateTime::parse_from_rfc3339("2026-07-26T12:00:00+00:00")
        .unwrap()
        .with_timezone(&chrono::Utc);
    let inc = make_incident(
        0,
        "API outage",
        moment(started_at),
        IncidentSeverity::Major,
        IncidentStatusPhase::Investigating,
    );
    let xml = render_rss_xml(
        "Page",
        "https://status.example.com",
        "desc",
        "Sat, 26 Jul 2026 12:00:00 +0000",
        "https://status.example.com",
        &vec![inc],
    );
    let expected_pub_date = started_at.to_rfc2822();
    assert!(xml.contains("<title>API outage</title>"));
    assert!(xml.contains(
        "<link>https://status.example.com/incidents/00000000-0000-0000-0000-000000000000</link>"
    ));
    assert!(xml.contains("<guid isPermaLink=\"true\">https://status.example.com/incidents/"));
    assert!(xml.contains(&format!("<pubDate>{expected_pub_date}</pubDate>")));
    assert!(xml.contains("Severity: major — Phase: investigating"));
}

#[test]
fn render_rss_xml_escapes_special_characters() {
    let inc = make_incident(
        0,
        "Alert: <script>\"xss\"</script> & more",
        moment(chrono::Utc::now()),
        IncidentSeverity::Minor,
        IncidentStatusPhase::Resolved,
    );
    let xml = render_rss_xml(
        "Page",
        "https://status.example.com",
        "desc",
        "Sat, 26 Jul 2026 12:00:00 +0000",
        "https://status.example.com",
        &vec![inc],
    );
    assert!(xml.contains("&lt;script&gt;"));
    assert!(xml.contains("&quot;xss&quot;"));
    assert!(xml.contains("&amp; more"));
    assert!(!xml.contains("<script>"));
}

#[test]
fn render_rss_xml_includes_latest_update_in_description() {
    let now = moment(chrono::Utc::now());
    let mut inc = make_incident(
        0,
        "DB outage",
        now,
        IncidentSeverity::Critical,
        IncidentStatusPhase::Monitoring,
    );
    inc.updates.push(PublicIncidentUpdate {
        posted_at: now,
        phase: IncidentStatusPhase::Monitoring,
        message: "We are watching recovery.".to_string(),
    });
    let xml = render_rss_xml(
        "Page",
        "https://status.example.com",
        "desc",
        "Sat, 26 Jul 2026 12:00:00 +0000",
        "https://status.example.com",
        &vec![inc],
    );
    assert!(xml.contains("We are watching recovery."));
    assert!(xml.contains("Phase: monitoring"));
}

#[test]
fn escaping_leaves_no_markup_and_keeps_apostrophes() {
    assert_eq!(xml_escape("a < b & \"c\" > 'd'"), "a &lt; b &amp; &quot;c&quot; &gt; 'd'");
    assert_eq!(xml_escape(""), "");
    assert_eq!(xml_escape("&amp;"), "&amp;amp;");
    let two = format!("{}{}", xml_escape("<a"), xml_escape("&b>"));
    assert_eq!(xml_escape("<a&b>"), two);
}

#[test]
fn dates_are_escaped_like_all_else() {
    let xml = render_rss_xml("t", "l", "d", "<&>", "b", &vec![]);
    assert!(xml.contains("<lastBuildDate>&lt;&amp;&gt;</lastBuildDate>"));
    let item = make_incident(
        1,
        "x",
        0,
        IncidentSeverity::Minor,
        IncidentStatusPhase::Investigating,
    );
    let marks = |s: &str| s.chars().filter(|c| matches!(c, '<' | '>' | '"')).collect::<String>();
    let plain = render_rss_xml("t", "l", "d", "now", "b", &vec![item.clone()]);
    let odd = render_rss_xml("<t>", "\"l", "&d", "<now>", "b>", &vec![item]);
    assert!(plain.contains("<pubDate>Thu, 1 Jan 1970 00:00:00 +0000</pubDate>"));
    assert_eq!(marks(&plain), marks(&odd));
    assert_eq!(xml_escape("plain text"), "plain text");
}
