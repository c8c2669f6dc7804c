//! Plain texts that the server hands out: metrics, the style sheet of the operator,
//! and how many points a chart has.

use vstd::prelude::*;
use vstd::string::*;

use crate::markup::TextReply;
use crate::text::{decimal_text, owned};

verus! {

/// Stands for the description of the whole interface.
#[derive(Clone, Debug)]
pub struct ApiDoc;

/// The metrics for so many targets and incidents.
pub open spec fn metrics_text(targets: nat, incidents: nat) -> Seq<char> {
    "# HELP statuspage_targets_total Total number of configured targets.\n# TYPE statuspage_targets_total gauge\nstatuspage_targets_total "@
        + crate::text::decimal(targets)
        + "\n# HELP statuspage_incidents_total Total number of incidents.\n# TYPE statuspage_incidents_total gauge\nstatuspage_incidents_total "@
        + crate::text::decimal(incidents) + "\n"@
}

/// The metrics in the form that Prometheus reads. A count that could not be had is
/// given as nought.
pub fn metrics(targets: Option<u64>, incidents: Option<u64>) -> (r: TextReply)
    ensures
        r.status == 200,
        r.content_type@ == "text/plain; version=0.0.4; charset=utf-8"@,
        r.body@ == metrics_text(
            match targets {
                Some(n) => n as nat,
                None => 0,
            },
            match incidents {
                Some(n) => n as nat,
                None => 0,
            },
        ),
{
    let target_count: u64 = match targets {
        Some(n) => n,
        None => 0,
    };
    let incident_count: u64 = match incidents {
        Some(n) => n,
        None => 0,
    };
    let mut body = owned(
        "# HELP statuspage_targets_total Total number of configured targets.\n# TYPE statuspage_targets_total gauge\nstatuspage_targets_total ",
    );
    body.append(decimal_text(target_count).as_str());
    body.append(
        "\n# HELP statuspage_incidents_total Total number of incidents.\n# TYPE statuspage_incidents_total gauge\nstatuspage_incidents_total ",
    );
    body.append(decimal_text(incident_count).as_str());
    body.append("\n");
    TextReply { status: 200, content_type: "text/plain; version=0.0.4; charset=utf-8", body }
}

/// What stands at the address that metrics may be pulled from.
pub fn metrics_handler() -> (r: TextReply)
    ensures
        r.status == 200,
        r.content_type@ == "text/plain; version=0.0.4; charset=utf-8"@,
        r.body@
            == "# StatusPage Metrics\n# Use observability.metrics_enabled and OTLP for production metrics\n# This endpoint is a placeholder for pull-based Prometheus scraping\n"@,
{
    TextReply {
        status: 200,
        content_type: "text/plain; version=0.0.4; charset=utf-8",
        body: owned(
            "# StatusPage Metrics\n# Use observability.metrics_enabled and OTLP for production metrics\n# This endpoint is a placeholder for pull-based Prometheus scraping\n",
        ),
    }
}

/// How long browsers may keep the operator's style sheet.
pub fn custom_css_cache_control() -> (r: &'static str)
    ensures
        r@ == "public, max-age=3600"@,
{
    "public, max-age=3600"
}

/// The operator's own style sheet; an empty one where there is none.
pub fn custom_css_handler(css: &Option<String>) -> (r: TextReply)
    ensures
        r.status == 200,
        r.content_type@ == "text/css; charset=utf-8"@,
        r.body@ == match *css {
            Some(text) => text@,
            None => Seq::empty(),
        },
{
    TextReply {
        status: 200,
        content_type: "text/css; charset=utf-8",
        body: match css {
            Some(text) => text.clone(),
            None => String::new(),
        },
    }
}

/// How many points a chart has where nobody says.
pub fn default_buckets() -> (r: u32)
    ensures
        r == 60,
{
    60
}

/// How many points a chart has: a thousand at most.
pub fn latency_buckets(buckets: Option<u32>) -> (r: u32)
    ensures
        r == match buckets {
            Some(n) => if n <= 1000 {
                n
            } else {
                1000
            },
            None => 60,
        },
{
    let asked: u32 = match buckets {
        Some(n) => n,
        None => default_buckets(),
    };
    if asked <= 1000 {
        asked
    } else {
        1000
    }
}

} // verus!
