//! SVG badges: the page badge and the badges of single targets.

use vstd::prelude::*;
use vstd::string::*;

use crate::domain::{DayState, MaintenanceWindow, OverallState};
use crate::markup::{xml_escape, TextReply};
use crate::public::incident::IncidentRecord;
use crate::public::snapshot::ComponentReading;
use crate::public::status::{
    badge_color, overall_from_component, overall_label, overall_severity_rank, target_status,
};
use crate::text::{chars_of, decimal_text, eq_ignore_ascii_case, owned, push_decimal};

verus! {

/// What a badge says: a label, a value and the colour behind the value.
#[derive(Clone, Debug)]
pub struct BadgePayload {
    pub label: String,
    pub value: String,
    pub color: String,
}

/// The width of `n` characters at 6.5 pixels each, at least `least`, as far as 32
/// bits hold it.
pub open spec fn text_width(n: int, least: int) -> int {
    let w = 13 * n / 2;
    if w < least {
        least
    } else if w > u32::MAX {
        u32::MAX as int
    } else {
        w
    }
}

/// The width of `n` characters at 6.5 pixels each, at least `least`.
fn width_of(n: usize, least: u32) -> (r: u32)
    ensures
        r == text_width(n as int, least as int),
{
    let w: u128 = (n as u128) * 13 / 2;
    if w < (least as u128) {
        least
    } else if w > 0xffff_ffffu128 {
        u32::MAX
    } else {
        w as u32
    }
}

/// The widths of the two halves of a badge.
pub open spec fn label_width(label: Seq<char>) -> int {
    text_width(crate::markup::escaped(label).len() as int, 40)
}

/// The width of the value's half of a badge.
pub open spec fn value_width(value: Seq<char>) -> int {
    text_width(crate::markup::escaped(value).len() as int, 60)
}

/// The markup of a page badge.
pub open spec fn badge_svg(label: Seq<char>, value: Seq<char>, color: Seq<char>) -> Seq<char> {
    let l = crate::markup::escaped(label);
    let v = crate::markup::escaped(value);
    let lw = label_width(label);
    let vw = value_width(value);
    let total = crate::text::decimal((lw + vw) as nat);
    "<svg xmlns=\"http://www.w3.org/2000/svg\" width=\""@ + total
        + "\" height=\"20\" role=\"img\" aria-label=\""@ + l + ": "@ + v + "\">\n  <title>"@ + l
        + ": "@ + v + "</title>\n  <desc>Status badge — "@ + l + ": "@ + v
        + "</desc>\n  <linearGradient id=\"b\" x2=\"0\" y2=\"100%\">\n    <stop offset=\"0\" stop-color=\"#bbb\" stop-opacity=\".1\"/>\n    <stop offset=\"1\" stop-opacity=\".1\"/>\n  </linearGradient>\n  <rect width=\""@
        + total + "\" height=\"20\" fill=\"#555\"/>\n  <rect x=\""@ + crate::text::decimal(
        lw as nat,
    ) + "\" width=\""@ + crate::text::decimal(vw as nat) + "\" height=\"20\" fill=\""@ + color
        + "\"/>\n  <rect width=\""@ + total
        + "\" height=\"20\" fill=\"url(#b)\"/>\n  <text x=\""@ + crate::text::decimal(
        (lw / 2) as nat,
    )
        + "\" y=\"14\" fill=\"#fff\" font-family=\"Verdana,DejaVu Sans,sans-serif\" font-size=\"11\" text-anchor=\"middle\">"@
        + l + "</text>\n  <text x=\""@ + crate::text::decimal((lw + vw / 2) as nat)
        + "\" y=\"14\" fill=\"#fff\" font-family=\"Verdana,DejaVu Sans,sans-serif\" font-size=\"11\" text-anchor=\"middle\">"@
        + v + "</text>\n</svg>"@
}

/// Renders a page badge. The label and the value are escaped; the widths go by
/// the number of their escaped characters, and have to fit together in 32 bits.
pub fn render_badge_svg(label_text: &str, value_text: &str, color: &str) -> (r: String)
    requires
        label_width(label_text@) + value_width(value_text@) <= u32::MAX,
    ensures
        r@ == badge_svg(label_text@, value_text@, color@),
{
    let l = xml_escape(label_text);
    let v = xml_escape(value_text);
    let lw: u32 = width_of(chars_of(l.as_str()).len(), 40);
    let vw: u32 = width_of(chars_of(v.as_str()).len(), 60);
    let total = decimal_text((lw + vw) as u64);
    let mut out = owned("<svg xmlns=\"http://www.w3.org/2000/svg\" width=\"");
    out.append(total.as_str());
    out.append("\" height=\"20\" role=\"img\" aria-label=\"");
    out.append(l.as_str());
    out.append(": ");
    out.append(v.as_str());
    out.append("\">\n  <title>");
    out.append(l.as_str());
    out.append(": ");
    out.append(v.as_str());
    out.append("</title>\n  <desc>Status badge — ");
    out.append(l.as_str());
    out.append(": ");
    out.append(v.as_str());
    out.append(
        "</desc>\n  <linearGradient id=\"b\" x2=\"0\" y2=\"100%\">\n    <stop offset=\"0\" stop-color=\"#bbb\" stop-opacity=\".1\"/>\n    <stop offset=\"1\" stop-opacity=\".1\"/>\n  </linearGradient>\n  <rect width=\"",
    );
    out.append(total.as_str());
    out.append("\" height=\"20\" fill=\"#555\"/>\n  <rect x=\"");
    push_decimal(&mut out, lw as u64);
    out.append("\" width=\"");
    push_decimal(&mut out, vw as u64);
    out.append("\" height=\"20\" fill=\"");
    out.append(color);
    out.append("\"/>\n  <rect width=\"");
    out.append(total.as_str());
    out.append("\" height=\"20\" fill=\"url(#b)\"/>\n  <text x=\"");
    push_decimal(&mut out, (lw / 2) as u64);
    out.append(
        "\" y=\"14\" fill=\"#fff\" font-family=\"Verdana,DejaVu Sans,sans-serif\" font-size=\"11\" text-anchor=\"middle\">",
    );
    out.append(l.as_str());
    out.append("</text>\n  <text x=\"");
    push_decimal(&mut out, (lw + vw / 2) as u64);
    out.append(
        "\" y=\"14\" fill=\"#fff\" font-family=\"Verdana,DejaVu Sans,sans-serif\" font-size=\"11\" text-anchor=\"middle\">",
    );
    out.append(v.as_str());
    out.append("</text>\n</svg>");
    out
}

/// Whether a day counts as up.
pub open spec fn counts_as_up(d: DayState) -> bool {
    d is Operational || d is Degraded
}

/// How many of `days` count as up.
pub open spec fn up_days(days: Seq<DayState>) -> nat
    decreases days.len(),
{
    if days.len() == 0 {
        0
    } else {
        up_days(days.drop_last()) + (if counts_as_up(days.last()) {
            1nat
        } else {
            0
        })
    }
}

/// How many days the components have together.
pub open spec fn total_days(components: Seq<ComponentReading>) -> nat
    decreases components.len(),
{
    if components.len() == 0 {
        0
    } else {
        total_days(components.drop_last()) + components.last().history@.len()
    }
}

/// How many of the components' days count as up.
pub open spec fn total_up_days(components: Seq<ComponentReading>) -> nat
    decreases components.len(),
{
    if components.len() == 0 {
        0
    } else {
        total_up_days(components.drop_last()) + up_days(components.last().history@)
    }
}

/// No more days count as up than there are.
proof fn lemma_up_days_bounded(days: Seq<DayState>)
    ensures
        up_days(days) <= days.len(),
    decreases days.len(),
{
    if days.len() > 0 {
        lemma_up_days_bounded(days.drop_last());
    }
}

/// How many of the first components' days count as up, and how many there are:
/// both only grow with the components.
proof fn lemma_totals(components: Seq<ComponentReading>, i: int)
    requires
        0 <= i <= components.len(),
    ensures
        total_up_days(components.take(i)) <= total_days(components.take(i)),
        total_days(components.take(i)) <= total_days(components),
    decreases components.len() - i,
{
    lemma_up_total(components.take(i));
    if i < components.len() {
        lemma_totals(components, i + 1);
        assert(components.take(i + 1).drop_last() =~= components.take(i));
    } else {
        assert(components.take(i) =~= components);
    }
}

/// No more days count as up than there are, over all components.
proof fn lemma_up_total(components: Seq<ComponentReading>)
    ensures
        total_up_days(components) <= total_days(components),
    decreases components.len(),
{
    if components.len() > 0 {
        lemma_up_total(components.drop_last());
        lemma_up_days_bounded(components.last().history@);
    }
}

/// How many days the components have together, and how many of them count as up.
pub fn uptime_counts(components: &Vec<ComponentReading>) -> (r: (u64, u64))
    requires
        total_days(components@) <= u64::MAX,
    ensures
        r.0 == total_days(components@),
        r.1 == total_up_days(components@),
        r.1 <= r.0,
{
    let mut total: u64 = 0;
    let mut up: u64 = 0;
    let mut i: usize = 0;
    while i < components.len()
        invariant
            i <= components.len(),
            total_days(components@) <= u64::MAX,
            total == total_days(components@.take(i as int)),
            up == total_up_days(components@.take(i as int)),
        decreases components.len() - i,
    {
        let ghost before = components@.take(i as int);
        let ghost next = components@.take(i + 1);
        let days = &components[i].history;
        proof {
            lemma_totals(components@, i as int);
            lemma_totals(components@, i + 1);
            assert(next.drop_last() =~= before);
            assert(next.last() == components@[i as int]);
        }
        let mut k: usize = 0;
        while k < days.len()
            invariant
                k <= days.len(),
                total == total_days(before) + k,
                up == total_up_days(before) + up_days(days@.take(k as int)),
                total_days(before) + days@.len() <= u64::MAX,
                total_up_days(before) <= total_days(before),
            decreases days.len() - k,
        {
            proof {
                assert(days@.take(k + 1).drop_last() =~= days@.take(k as int));
                assert(days@.take(k + 1).last() == days@[k as int]);
                lemma_up_days_bounded(days@.take(k as int));
            }
            total += 1;
            match days[k] {
                DayState::Operational => {
                    up += 1;
                },
                DayState::Degraded => {
                    up += 1;
                },
                _ => {},
            }
            k += 1;
        }
        assert(days@.take(k as int) =~= days@);
        i += 1;
    }
    assert(components@.take(i as int) =~= components@);
    proof {
        lemma_up_total(components@);
    }
    (total, up)
}

/// The colour for `up` of `total` days: by the share of days that count as up,
/// 99.5 and 95 percent being the marks. No days at all count as all up.
pub open spec fn uptime_colour(total: int, up: int) -> Seq<char> {
    if total == 0 || 1000 * up >= 995 * total {
        "#22C55E"@
    } else if 100 * up >= 95 * total {
        "#F59E0B"@
    } else {
        "#EF4444"@
    }
}

/// Whether a badge of this type is the uptime badge; any other is the status
/// badge.
pub open spec fn wants_uptime(badge_type: Option<&str>) -> bool {
    match badge_type {
        Some(t) => crate::text::same_ignoring_ascii_case(t@, "uptime"@),
        None => false,
    }
}

/// The state that a page's components put it in.
pub open spec fn page_state(
    components: Seq<ComponentReading>,
    windows: Seq<MaintenanceWindow>,
    records: Seq<IncidentRecord>,
) -> OverallState {
    crate::public::status::worst_state(
        Seq::new(
            components.len(),
            |i: int|
                crate::public::status::status_of_target(
                    windows,
                    records,
                    components[i].component.target_id,
                    components[i].latest,
                ),
        ),
    )
}

/// The state that a page's components put it in.
pub fn overall_state(
    components: &Vec<ComponentReading>,
    windows: &Vec<MaintenanceWindow>,
    records: &Vec<IncidentRecord>,
) -> (worst: OverallState)
    ensures
        worst == page_state(components@, windows@, records@),
{
    let ghost statuses = Seq::new(
        components@.len(),
        |i: int|
            crate::public::status::status_of_target(
                windows@,
                records@,
                components@[i].component.target_id,
                components@[i].latest,
            ),
    );
    let mut worst = OverallState::Operational;
    let mut i: usize = 0;
    while i < components.len()
        invariant
            i <= components.len(),
            statuses == Seq::new(
                components@.len(),
                |i: int|
                    crate::public::status::status_of_target(
                        windows@,
                        records@,
                        components@[i].component.target_id,
                        components@[i].latest,
                    ),
            ),
            worst == crate::public::status::worst_state(statuses.take(i as int)),
        decreases components.len() - i,
    {
        let status = target_status(
            windows,
            records,
            components[i].component.target_id,
            components[i].latest,
        );
        assert(status == statuses[i as int]);
        let overall = overall_from_component(status);
        if overall_severity_rank(overall) > overall_severity_rank(worst) {
            worst = overall;
        }
        proof {
            assert(statuses.take(i + 1).drop_last() =~= statuses.take(i as int));
        }
        i += 1;
    }
    assert(statuses.take(i as int) =~= statuses);
    worst
}

/// What the badge of a page says. `percent` is the share of days that count as
/// up, with two decimals; only an uptime badge shows it.
pub fn render_badge_payload(
    badge_type: Option<&str>,
    components: &Vec<ComponentReading>,
    windows: &Vec<MaintenanceWindow>,
    records: &Vec<IncidentRecord>,
    percent: &str,
) -> (r: BadgePayload)
    requires
        total_days(components@) <= u64::MAX,
    ensures
        wants_uptime(badge_type) ==> {
            &&& r.label@ == "uptime"@
            &&& r.value@ == percent@ + "% uptime"@
            &&& r.color@ == uptime_colour(
                total_days(components@) as int,
                total_up_days(components@) as int,
            )
        },
        !wants_uptime(badge_type) ==> {
            &&& r.label@ == "status"@
            &&& r.value@ == crate::public::status::label_for(
                page_state(components@, windows@, records@),
            )
            &&& r.color@ == crate::public::status::colour_for(
                page_state(components@, windows@, records@),
            )
        },
{
    let uptime = match badge_type {
        Some(t) => eq_ignore_ascii_case(t, "uptime"),
        None => false,
    };
    if uptime {
        let (total, up) = uptime_counts(components);
        let color = if total == 0 || (up as u128) * 1000 >= (total as u128) * 995 {
            "#22C55E"
        } else if (up as u128) * 100 >= (total as u128) * 95 {
            "#F59E0B"
        } else {
            "#EF4444"
        };
        let mut value = owned(percent);
        value.append("% uptime");
        BadgePayload { label: owned("uptime"), value, color: owned(color) }
    } else {
        let worst = overall_state(components, windows, records);
        BadgePayload {
            label: owned("status"),
            value: owned(overall_label(worst)),
            color: owned(badge_color(worst)),
        }
    }
}

/// The badge of a page, or the one that says that there is no data: an embedded
/// badge never breaks.
pub fn get_badge(payload: Option<BadgePayload>) -> (r: TextReply)
    requires
        payload matches Some(p) ==> label_width(p.label@) + value_width(p.value@) <= u32::MAX,
    ensures
        r.status == 200,
        r.content_type@ == "image/svg+xml; charset=utf-8"@,
        r.body@ == match payload {
            Some(p) => badge_svg(p.label@, p.value@, p.color@),
            None => badge_svg("status"@, "no data"@, "#9CA3AF"@),
        },
{
    let body = match payload {
        Some(p) => render_badge_svg(p.label.as_str(), p.value.as_str(), p.color.as_str()),
        None => {
            proof {
                lemma_escaped_len("status"@);
                lemma_escaped_len("no data"@);
                reveal_strlit("status");
                reveal_strlit("no data");
            }
            render_badge_svg("status", "no data", "#9CA3AF")
        },
    };
    TextReply { status: 200, content_type: "image/svg+xml; charset=utf-8", body }
}

/// An escaped text is at most six times as long as the text.
proof fn lemma_escaped_len(s: Seq<char>)
    ensures
        crate::markup::escaped(s).len() <= 6 * s.len(),
    decreases s.len(),
{
    if s.len() > 0 {
        lemma_escaped_len(s.drop_last());
        reveal_strlit("&amp;");
        reveal_strlit("&lt;");
        reveal_strlit("&gt;");
        reveal_strlit("&quot;");
    }
}

/// The page badge says what the page says: its value is the label of the
/// snapshot made of the same readings.
pub proof fn law_badge_agrees_with_page(
    out: crate::domain::PublicStatusPage,
    readings: crate::public::snapshot::PageReadings,
    to: crate::time::Moment,
    generated_at: crate::time::Moment,
)
    requires
        crate::public::snapshot::is_snapshot(out, readings, to, generated_at),
    ensures
        out.overall.state == page_state(
            readings.components@,
            readings.active_windows@,
            readings.incidents@,
        ),
        out.overall.label@ == crate::public::status::label_for(
            page_state(readings.components@, readings.active_windows@, readings.incidents@),
        ),
{
    assert(crate::public::snapshot::statuses_of(readings) =~= Seq::new(
        readings.components@.len(),
        |i: int|
            crate::public::status::status_of_target(
                readings.active_windows@,
                readings.incidents@,
                readings.components@[i].component.target_id,
                readings.components@[i].latest,
            ),
    ));
}

} // verus!
