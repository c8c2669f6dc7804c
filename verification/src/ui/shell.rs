//! What all pages share: who is signed in, navigation, badges, notes and charts.

use vstd::prelude::*;
use vstd::string::*;

use crate::domain::CheckStatus;
use crate::text::{decimal_text, owned, same_text, starts_with_text};

verus! {

/// Whether somebody is known to be signed in.
#[derive(Clone, Copy, Debug, PartialEq, Eq, Structural)]
pub enum AuthState {
    Checking,
    Authenticated,
    Unauthenticated,
}

/// What tells whether somebody is signed in.
#[derive(Clone, Copy, Debug, PartialEq, Eq, Structural)]
pub enum AuthEvent {
    /// The server was asked for the session, and gave one or did not.
    SessionChecked { found: bool },
    LoggedIn,
    LoggedOut,
}

/// Whether somebody is signed in after an event.
pub fn auth_next(event: AuthEvent) -> (r: AuthState)
    ensures
        r == match event {
            AuthEvent::SessionChecked { found } => if found {
                AuthState::Authenticated
            } else {
                AuthState::Unauthenticated
            },
            AuthEvent::LoggedIn => AuthState::Authenticated,
            AuthEvent::LoggedOut => AuthState::Unauthenticated,
        },
{
    match event {
        AuthEvent::SessionChecked { found } => if found {
            AuthState::Authenticated
        } else {
            AuthState::Unauthenticated
        },
        AuthEvent::LoggedIn => AuthState::Authenticated,
        AuthEvent::LoggedOut => AuthState::Unauthenticated,
    }
}

/// The button for signing out.
#[derive(Clone, Debug)]
pub struct LogoutButton {
    pub busy: bool,
}

impl LogoutButton {
    /// Presses the button; says whether the server is to be told. While it is being
    /// told, another press does nothing.
    pub fn press(&mut self) -> (r: bool)
        ensures
            final(self).busy,
            r == !old(self).busy,
    {
        let first = !self.busy;
        self.busy = true;
        first
    }

    /// The server was told, or could not be: either way nobody is signed in any
    /// more.
    pub fn answered(&mut self) -> (r: AuthEvent)
        ensures
            !final(self).busy,
            r == AuthEvent::LoggedOut,
    {
        self.busy = false;
        AuthEvent::LoggedOut
    }

    /// What the button says.
    pub fn label(&self) -> (r: &'static str)
        ensures
            r@ == if self.busy {
                "..."@
            } else {
                "Sign out"@
            },
    {
        if self.busy {
            "..."
        } else {
            "Sign out"
        }
    }
}

/// Whether a link leads to where one is, or to what that is a part of.
pub open spec fn leads_here(path: Seq<char>, href: Seq<char>) -> bool {
    path == href || (href != "/"@ && crate::text::begins_with(path, href))
}

/// The class of a link in the navigation.
pub fn nav_link_class(path: &str, href: &str) -> (r: &'static str)
    ensures
        r@ == if leads_here(path@, href@) {
            "nav-link nav-link--active"@
        } else {
            "nav-link"@
        },
{
    if same_text(path, href) || (!same_text(href, "/") && starts_with_text(path, href)) {
        "nav-link nav-link--active"
    } else {
        "nav-link"
    }
}

/// A short mark: its words and its class.
#[derive(Clone, Copy, Debug)]
pub struct Badge {
    pub label: &'static str,
    pub class: &'static str,
}

/// The mark for something that is switched on or off.
pub open spec fn is_enabled_badge(b: Badge, enabled: bool) -> bool {
    if enabled {
        b.label@ == "Enabled"@ && b.class@ == "status-badge status-badge--up"@
    } else {
        b.label@ == "Disabled"@ && b.class@ == "status-badge status-badge--pending"@
    }
}

/// The mark for something that is switched on or off.
pub fn enabled_badge(enabled: bool) -> (r: Badge)
    ensures
        is_enabled_badge(r, enabled),
{
    if enabled {
        Badge { label: "Enabled", class: "status-badge status-badge--up" }
    } else {
        Badge { label: "Disabled", class: "status-badge status-badge--pending" }
    }
}

/// The words and the class for a check's outcome.
pub open spec fn check_marks(status: CheckStatus) -> (Seq<char>, Seq<char>) {
    match status {
        CheckStatus::Up => ("Operational"@, "status-badge status-badge--up"@),
        CheckStatus::Down => ("Down"@, "status-badge status-badge--down"@),
        CheckStatus::Degraded => ("Degraded"@, "status-badge status-badge--degraded"@),
        CheckStatus::Error => ("Error"@, "status-badge status-badge--error"@),
        CheckStatus::Unknown => ("Unknown"@, "status-badge status-badge--unknown"@),
    }
}

/// The mark for a check's outcome.
pub fn check_status_badge(status: CheckStatus) -> (r: Badge)
    ensures
        (r.label@, r.class@) == check_marks(status),
{
    match status {
        CheckStatus::Up => Badge { label: "Operational", class: "status-badge status-badge--up" },
        CheckStatus::Down => Badge { label: "Down", class: "status-badge status-badge--down" },
        CheckStatus::Degraded => Badge {
            label: "Degraded",
            class: "status-badge status-badge--degraded",
        },
        CheckStatus::Error => Badge { label: "Error", class: "status-badge status-badge--error" },
        CheckStatus::Unknown => Badge {
            label: "Unknown",
            class: "status-badge status-badge--unknown",
        },
    }
}

/// The button that switches between light and dark.
#[derive(Clone, Copy, Debug)]
pub struct ThemeView {
    pub label: &'static str,
    pub icon: &'static str,
    /// What is kept for the next visit.
    pub stored: &'static str,
}

/// The button that switches between light and dark: its words say where it leads,
/// its sign where one is.
pub fn theme_toggle(dark: bool) -> (r: ThemeView)
    ensures
        dark ==> r.label@ == "Switch to light mode"@ && r.icon@ == "🌙"@ && r.stored@ == "dark"@,
        !dark ==> r.label@ == "Switch to dark mode"@ && r.icon@ == "☀️"@ && r.stored@ == "light"@,
{
    if dark {
        ThemeView { label: "Switch to light mode", icon: "🌙", stored: "dark" }
    } else {
        ThemeView { label: "Switch to dark mode", icon: "☀️", stored: "light" }
    }
}

/// What a note about errors says.
#[derive(Clone, Debug)]
pub enum CalloutBody {
    Text(String),
    List(Vec<String>),
}

/// What a note about errors says: the one message or the one error as a text, and
/// several errors as a list.
pub fn error_callout(message: Option<String>, errors: Vec<String>) -> (r: CalloutBody)
    ensures
        match message {
            Some(m) => r == CalloutBody::Text(m),
            None => if errors@.len() == 1 {
                r == CalloutBody::Text(errors@[0])
            } else {
                r == CalloutBody::List(errors)
            },
        },
{
    match message {
        Some(m) => CalloutBody::Text(m),
        None => {
            if errors.len() == 1 {
                let mut one = errors;
                CalloutBody::Text(one.remove(0))
            } else {
                CalloutBody::List(errors)
            }
        },
    }
}

/// What is read out while a page is being loaded.
pub fn loading_text(label: Option<String>) -> (r: String)
    ensures
        match label {
            Some(t) => r == t,
            None => r@ == "Loading..."@,
        },
{
    match label {
        Some(t) => t,
        None => owned("Loading..."),
    }
}

/// The name of the `n`th chart of a page.
pub fn chart_id(n: u64) -> (r: String)
    ensures
        r@ == "latency-chart-"@ + crate::text::decimal(n as nat),
{
    let mut out = owned("latency-chart-");
    out.append(decimal_text(n).as_str());
    out
}

/// The place of a chart in a page, and the script that draws `plot_json` there.
pub fn chart_html(id: &str, plot_json: &str) -> (r: String)
    ensures
        r@ == "<div id=\""@ + id@
            + "\" class=\"w-full h-64\" role=\"img\" aria-label=\"Latency over time line chart\"></div><script>(function() {var el = document.getElementById('"@
            + id@ + "');if (el && window.Plotly) {window.Plotly.newPlot(el, "@ + plot_json@
            + ");}})();</script>"@,
{
    let mut out = owned("<div id=\"");
    out.append(id);
    out.append(
        "\" class=\"w-full h-64\" role=\"img\" aria-label=\"Latency over time line chart\"></div><script>(function() {var el = document.getElementById('",
    );
    out.append(id);
    out.append("');if (el && window.Plotly) {window.Plotly.newPlot(el, ");
    out.append(plot_json);
    out.append(");}})();</script>");
    out
}

} // verus!
