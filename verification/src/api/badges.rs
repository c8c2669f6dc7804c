//! Badges of single targets: health, uptime and response time.

use vstd::prelude::*;
use vstd::string::*;

use crate::domain::{CheckResult, CheckStatus};
use crate::markup::TextReply;
use crate::text::{decimal_text, owned, push_decimal};

verus! {

/// The width of a text of `n` bytes at 6.4 pixels each, with 10 to spare.
pub open spec fn text_width(n: int) -> int {
    10 + 32 * n / 5
}

/// The width of a text of `n` bytes.
fn width_of(n: usize) -> (r: usize)
    requires
        text_width(n as int) <= usize::MAX,
    ensures
        r == text_width(n as int),
{
    let fives: usize = n / 5;
    let rest: usize = n % 5;
    assert(32 * n / 5 == 32 * fives + 32 * rest / 5);
    10 + fives * 32 + rest * 32 / 5
}

/// Whether the two halves of a badge fit together.
pub open spec fn widths_fit(label: &str, value: &str) -> bool {
    text_width(label.spec_bytes().len() as int) + text_width(value.spec_bytes().len() as int)
        <= usize::MAX
}

/// The markup of a target's badge. The texts are written as they are.
pub open spec fn badge_text(label: &str, value: &str, color: &str) -> Seq<char> {
    let lw = text_width(label.spec_bytes().len() as int);
    let vw = text_width(value.spec_bytes().len() as int);
    let total = crate::text::decimal((lw + vw) as nat);
    let lx = crate::text::decimal((lw / 2) as nat);
    let vx = crate::text::decimal((lw + vw / 2) as nat);
    "<svg xmlns=\"http://www.w3.org/2000/svg\" width=\""@ + total
        + "\" height=\"20\">\n  <linearGradient id=\"b\" x2=\"0\" y2=\"100%\">\n    <stop offset=\"0\" stop-color=\"#bbb\" stop-opacity=\".1\"/>\n    <stop offset=\"1\" stop-opacity=\".1\"/>\n  </linearGradient>\n  <mask id=\"a\">\n    <rect width=\""@
        + total
        + "\" height=\"20\" rx=\"3\" fill=\"#fff\"/>\n  </mask>\n  <g mask=\"url(#a)\">\n    <rect width=\""@
        + crate::text::decimal(lw as nat) + "\" height=\"20\" fill=\"#555\"/>\n    <rect x=\""@
        + crate::text::decimal(lw as nat) + "\" width=\""@ + crate::text::decimal(vw as nat)
        + "\" height=\"20\" fill=\""@ + color@ + "\"/>\n    <rect width=\""@ + total
        + "\" height=\"20\" fill=\"url(#b)\"/>\n  </g>\n  <g fill=\"#fff\" text-anchor=\"middle\" font-family=\"DejaVu Sans,Verdana,Geneva,sans-serif\" font-size=\"11\">\n    <text x=\""@
        + lx + "\" y=\"15\" fill=\"#010101\" fill-opacity=\".3\">"@ + label@
        + "</text>\n    <text x=\""@ + lx + "\" y=\"14\">"@ + label@
        + "</text>\n    <text x=\""@ + vx + "\" y=\"15\" fill=\"#010101\" fill-opacity=\".3\">"@
        + value@ + "</text>\n    <text x=\""@ + vx + "\" y=\"14\">"@ + value@
        + "</text>\n  </g>\n</svg>"@
}

/// Renders a target's badge.
pub fn svg_badge(label: &str, value: &str, color: &str) -> (r: String)
    requires
        widths_fit(label, value),
    ensures
        r@ == badge_text(label, value, color),
{
    let lw: usize = width_of(label.as_bytes().len());
    let vw: usize = width_of(value.as_bytes().len());
    let total = decimal_text((lw + vw) as u64);
    let lx = decimal_text((lw / 2) as u64);
    let vx = decimal_text((lw + vw / 2) as u64);
    let mut out = owned("<svg xmlns=\"http://www.w3.org/2000/svg\" width=\"");
    out.append(total.as_str());
    out.append(
        "\" height=\"20\">\n  <linearGradient id=\"b\" x2=\"0\" y2=\"100%\">\n    <stop offset=\"0\" stop-color=\"#bbb\" stop-opacity=\".1\"/>\n    <stop offset=\"1\" stop-opacity=\".1\"/>\n  </linearGradient>\n  <mask id=\"a\">\n    <rect width=\"",
    );
    out.append(total.as_str());
    out.append(
        "\" height=\"20\" rx=\"3\" fill=\"#fff\"/>\n  </mask>\n  <g mask=\"url(#a)\">\n    <rect width=\"",
    );
    push_decimal(&mut out, lw as u64);
    out.append("\" height=\"20\" fill=\"#555\"/>\n    <rect x=\"");
    push_decimal(&mut out, lw as u64);
    out.append("\" width=\"");
    push_decimal(&mut out, vw as u64);
    out.append("\" height=\"20\" fill=\"");
    out.append(color);
    out.append("\"/>\n    <rect width=\"");
    out.append(total.as_str());
    out.append(
        "\" height=\"20\" fill=\"url(#b)\"/>\n  </g>\n  <g fill=\"#fff\" text-anchor=\"middle\" font-family=\"DejaVu Sans,Verdana,Geneva,sans-serif\" font-size=\"11\">\n    <text x=\"",
    );
    out.append(lx.as_str());
    out.append("\" y=\"15\" fill=\"#010101\" fill-opacity=\".3\">");
    out.append(label);
    out.append("</text>\n    <text x=\"");
    out.append(lx.as_str());
    out.append("\" y=\"14\">");
    out.append(label);
    out.append("</text>\n    <text x=\"");
    out.append(vx.as_str());
    out.append("\" y=\"15\" fill=\"#010101\" fill-opacity=\".3\">");
    out.append(value);
    out.append("</text>\n    <text x=\"");
    out.append(vx.as_str());
    out.append("\" y=\"14\">");
    out.append(value);
    out.append("</text>\n  </g>\n</svg>");
    out
}

/// `r` is an answer with this badge.
pub open spec fn is_badge(r: TextReply, label: &str, value: &str, color: &str) -> bool {
    &&& r.status == 200
    &&& r.content_type@ == "image/svg+xml"@
    &&& r.body@ == badge_text(label, value, color)
}

/// Answers with a badge.
fn badge_reply(label: &str, value: &str, color: &str) -> (r: TextReply)
    requires
        widths_fit(label, value),
    ensures
        is_badge(r, label, value, color),
{
    TextReply {
        status: 200,
        content_type: "image/svg+xml",
        body: svg_badge(label, value, color),
    }
}

/// The word and the colour for the latest check of a target.
pub open spec fn health_word(latest: Option<CheckStatus>) -> (&'static str, &'static str) {
    match latest {
        Some(CheckStatus::Up) => ("up", "brightgreen"),
        Some(CheckStatus::Degraded) => ("degraded", "yellow"),
        Some(CheckStatus::Down) => ("down", "red"),
        Some(CheckStatus::Error) => ("error", "lightgrey"),
        Some(CheckStatus::Unknown) => ("unknown", "lightgrey"),
        None => ("no data", "lightgrey"),
    }
}

/// The badge of a target's health. `name` is `None` for a target that is gone.
pub fn health_badge(name: Option<&str>, latest: Option<CheckStatus>) -> (r: TextReply)
    requires
        name matches Some(n) ==> widths_fit(n, health_word(latest).0),
    ensures
        match name {
            Some(n) => is_badge(r, n, health_word(latest).0, health_word(latest).1),
            None => is_badge(r, "status", "unknown", "lightgrey"),
        },
{
    let n = match name {
        Some(n) => n,
        None => {
            proof {
                reveal_strlit("status");
                reveal_strlit("unknown");
                crate::text::lemma_ascii_len("status");
                crate::text::lemma_ascii_len("unknown");
            }
            return badge_reply("status", "unknown", "lightgrey");
        },
    };
    let (value, color) = match latest {
        Some(CheckStatus::Up) => ("up", "brightgreen"),
        Some(CheckStatus::Degraded) => ("degraded", "yellow"),
        Some(CheckStatus::Down) => ("down", "red"),
        Some(CheckStatus::Error) => ("error", "lightgrey"),
        Some(CheckStatus::Unknown) => ("unknown", "lightgrey"),
        None => ("no data", "lightgrey"),
    };
    badge_reply(n, value, color)
}

/// What a shields.io endpoint badge says.
#[derive(Clone, Debug)]
pub struct ShieldsBadge {
    pub schema_version: u8,
    pub label: &'static str,
    pub message: &'static str,
    pub color: &'static str,
}

/// The shields.io form of a target's health. A failed check is unknown here.
pub fn health_badge_shields(latest: Option<CheckStatus>) -> (r: ShieldsBadge)
    ensures
        r.schema_version == 1,
        r.label@ == "status"@,
        r.message@ == match latest {
            Some(CheckStatus::Error) => "unknown"@,
            _ => health_word(latest).0@,
        },
        r.color@ == health_word(latest).1@,
{
    let (message, color) = match latest {
        Some(CheckStatus::Up) => ("up", "brightgreen"),
        Some(CheckStatus::Degraded) => ("degraded", "yellow"),
        Some(CheckStatus::Down) => ("down", "red"),
        Some(CheckStatus::Error) => ("unknown", "lightgrey"),
        Some(CheckStatus::Unknown) => ("unknown", "lightgrey"),
        None => ("no data", "lightgrey"),
    };
    ShieldsBadge { schema_version: 1, label: "status", message, color }
}

/// How many of `results` are up.
pub open spec fn up_count(results: Seq<CheckResult>) -> nat
    decreases results.len(),
{
    if results.len() == 0 {
        0
    } else {
        up_count(results.drop_last()) + (if results.last().status is Up {
            1nat
        } else {
            0
        })
    }
}

/// How many of `results` are up.
pub fn count_up(results: &Vec<CheckResult>) -> (r: u64)
    ensures
        r == up_count(results@),
        r <= results@.len(),
{
    let mut up: u64 = 0;
    let mut i: usize = 0;
    while i < results.len()
        invariant
            i <= results.len(),
            up == up_count(results@.take(i as int)),
            up <= i,
        decreases results.len() - i,
    {
        proof {
            assert(results@.take(i + 1).drop_last() =~= results@.take(i as int));
            assert(results@.take(i + 1).last() == results@[i as int]);
        }
        if results[i].status == CheckStatus::Up {
            up += 1;
        }
        i += 1;
    }
    assert(results@.take(i as int) =~= results@);
    up
}

/// The colour for `up` of `total` checks: by their share, 99.5, 97.5, 95, 90 and
/// 80 percent being the marks. No checks at all count as none up.
pub open spec fn uptime_colour(up: int, total: int) -> Seq<char> {
    if total == 0 {
        "red"@
    } else if 1000 * up >= 995 * total {
        "brightgreen"@
    } else if 1000 * up >= 975 * total {
        "green"@
    } else if 100 * up >= 95 * total {
        "yellowgreen"@
    } else if 100 * up >= 90 * total {
        "yellow"@
    } else if 100 * up >= 80 * total {
        "orange"@
    } else {
        "red"@
    }
}

/// The colour for `up` of `total` checks.
pub fn uptime_color(up: u64, total: u64) -> (r: &'static str)
    ensures
        r@ == uptime_colour(up as int, total as int),
{
    let u: u128 = up as u128;
    let t: u128 = total as u128;
    if total == 0 {
        "red"
    } else if u * 1000 >= t * 995 {
        "brightgreen"
    } else if u * 1000 >= t * 975 {
        "green"
    } else if u * 100 >= t * 95 {
        "yellowgreen"
    } else if u * 100 >= t * 90 {
        "yellow"
    } else if u * 100 >= t * 80 {
        "orange"
    } else {
        "red"
    }
}

/// The badge of a target's uptime over `results`. `percent` is the share of
/// checks that are up, with one decimal. `name` is `None` for a target that is
/// gone.
pub fn uptime_badge(name: Option<&str>, results: &Vec<CheckResult>, percent: &str) -> (r: TextReply)
    requires
        name matches Some(n) ==> text_width(n.spec_bytes().len() as int) + text_width(
            (percent.spec_bytes().len() + 1) as int,
        ) <= usize::MAX,
    ensures
        r.status == 200,
        r.content_type@ == "image/svg+xml"@,
        match name {
            Some(n) => exists|value: &str, color: &str|
                {
                    &&& value@ == percent@ + "%"@
                    &&& color@ == uptime_colour(
                        up_count(results@) as int,
                        results@.len() as int,
                    )
                    &&& r.body@ == #[trigger] badge_text(n, value, color)
                },
            None => is_badge(r, "uptime", "N/A", "lightgrey"),
        },
{
    let n = match name {
        Some(n) => n,
        None => {
            proof {
                reveal_strlit("uptime");
                reveal_strlit("N/A");
                crate::text::lemma_ascii_len("uptime");
                crate::text::lemma_ascii_len("N/A");
            }
            return badge_reply("uptime", "N/A", "lightgrey");
        },
    };
    let up: u64 = count_up(results);
    let color = uptime_color(up, results.len() as u64);
    let mut text = owned(percent);
    text.append("%");
    let value = text.as_str();
    proof {
        reveal_strlit("%");
        crate::text::lemma_bytes_of_joined(percent@, "%"@);
        crate::text::lemma_ascii_len("%");
    }
    badge_reply(n, value, color)
}

/// The sum of the response times of `results`.
pub open spec fn time_sum(results: Seq<CheckResult>) -> nat
    decreases results.len(),
{
    if results.len() == 0 {
        0
    } else {
        time_sum(results.drop_last()) + results.last().duration_ms as nat
    }
}

/// The average response time of `results` in whole milliseconds, 0 for none.
pub open spec fn average_time(results: Seq<CheckResult>) -> nat {
    if results.len() == 0 {
        0
    } else {
        time_sum(results) / results.len()
    }
}

/// The average response time of `results` in whole milliseconds, 0 for none.
pub fn average_ms(results: &Vec<CheckResult>) -> (r: u64)
    requires
        time_sum(results@) <= u64::MAX,
    ensures
        r == average_time(results@),
{
    if results.len() == 0 {
        return 0;
    }
    let mut sum: u64 = 0;
    let mut i: usize = 0;
    while i < results.len()
        invariant
            i <= results.len(),
            sum == time_sum(results@.take(i as int)),
            time_sum(results@) <= u64::MAX,
        decreases results.len() - i,
    {
        proof {
            assert(results@.take(i + 1).drop_last() =~= results@.take(i as int));
            assert(results@.take(i + 1).last() == results@[i as int]);
            lemma_time_sum_grows(results@, i + 1);
        }
        sum += results[i].duration_ms as u64;
        i += 1;
    }
    assert(results@.take(i as int) =~= results@);
    sum / (results.len() as u64)
}

/// The sum of the first response times is no more than that of all.
proof fn lemma_time_sum_grows(results: Seq<CheckResult>, i: int)
    requires
        0 <= i <= results.len(),
    ensures
        time_sum(results.take(i)) <= time_sum(results),
    decreases results.len() - i,
{
    if i < results.len() {
        lemma_time_sum_grows(results, i + 1);
        assert(results.take(i + 1).drop_last() =~= results.take(i));
    } else {
        assert(results.take(i) =~= results);
    }
}

/// The value and the colour for an average response time; none is shown for 0.
pub open spec fn speed_word(avg: nat) -> (Seq<char>, Seq<char>) {
    if avg == 0 {
        ("N/A"@, "lightgrey"@)
    } else {
        (
            crate::text::decimal(avg) + "ms"@,
            if avg < 200 {
                "brightgreen"@
            } else if avg < 500 {
                "green"@
            } else if avg < 1000 {
                "yellowgreen"@
            } else if avg < 2000 {
                "yellow"@
            } else if avg < 5000 {
                "orange"@
            } else {
                "red"@
            },
        )
    }
}

/// The badge of a target's average response time.
pub fn response_time_badge(results: &Vec<CheckResult>) -> (r: TextReply)
    requires
        time_sum(results@) <= u64::MAX,
    ensures
        r.status == 200,
        r.content_type@ == "image/svg+xml"@,
        exists|value: &str, color: &str|
            {
                &&& (value@, color@) == speed_word(average_time(results@))
                &&& r.body@ == #[trigger] badge_text("response time", value, color)
            },
{
    let avg: u64 = average_ms(results);
    let (text, color) = if avg == 0 {
        (owned("N/A"), "lightgrey")
    } else {
        let c = if avg < 200 {
            "brightgreen"
        } else if avg < 500 {
            "green"
        } else if avg < 1000 {
            "yellowgreen"
        } else if avg < 2000 {
            "yellow"
        } else if avg < 5000 {
            "orange"
        } else {
            "red"
        };
        let mut t = decimal_text(avg);
        t.append("ms");
        (t, c)
    };
    let value = text.as_str();
    proof {
        reveal_strlit("response time");
        crate::text::lemma_ascii_len("response time");
        reveal_strlit("N/A");
        reveal_strlit("ms");
        assert(vstd::arithmetic::power::pow(10, 20) == 100_000_000_000_000_000_000) by {
            reveal_with_fuel(vstd::arithmetic::power::pow, 21);
        }
        lemma_decimal(avg as nat, 20);
        crate::text::lemma_ascii_len(value);
    }
    badge_reply("response time", value, color)
}

/// A number below a power of ten has at most that many digits, all of them ASCII.
proof fn lemma_decimal(n: nat, digits: nat)
    requires
        n < vstd::arithmetic::power::pow(10, digits),
        digits >= 1,
    ensures
        crate::text::decimal(n).len() <= digits,
        vstd::utf8::is_ascii_chars(crate::text::decimal(n)),
    decreases digits,
{
    if n >= 10 {
        vstd::arithmetic::power::lemma_pow_adds(10, (digits - 1) as nat, 1);
        vstd::arithmetic::power::lemma_pow1(10);
        if digits == 1 {
            assert(false);
        }
        assert(n / 10 < vstd::arithmetic::power::pow(10, (digits - 1) as nat)) by {
            vstd::arithmetic::div_mod::lemma_div_by_multiple_is_strongly_ordered(
                n as int,
                vstd::arithmetic::power::pow(10, digits),
                vstd::arithmetic::power::pow(10, (digits - 1) as nat),
                10,
            );
            vstd::arithmetic::div_mod::lemma_div_by_multiple(
                vstd::arithmetic::power::pow(10, (digits - 1) as nat),
                10,
            );
        }
        lemma_decimal(n / 10, (digits - 1) as nat);
    }
}

} // verus!
