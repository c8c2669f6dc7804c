//! The forms for signing in, as states that events carry on.

use vstd::prelude::*;
use vstd::string::*;

use crate::text::{owned, trim};
use crate::ui::client::BootstrapStatus;

verus! {

/// Which form is shown.
#[derive(Clone, Copy, Debug, PartialEq, Eq, Structural)]
pub enum BootstrapState {
    /// The first user is to be made.
    Needed,
    /// Users sign in.
    NotNeeded,
    /// The server cannot be reached.
    Error,
}

/// Which form is shown once the server was asked, or could not be.
pub fn bootstrap_state(asked: Option<BootstrapStatus>) -> (r: BootstrapState)
    ensures
        r == match asked {
            Some(s) => if s.bootstrap_needed {
                BootstrapState::Needed
            } else {
                BootstrapState::NotNeeded
            },
            None => BootstrapState::Error,
        },
{
    match asked {
        Some(s) => if s.bootstrap_needed {
            BootstrapState::Needed
        } else {
            BootstrapState::NotNeeded
        },
        None => BootstrapState::Error,
    }
}

/// The content of an optional text.
pub open spec fn text_view(s: Option<String>) -> Option<Seq<char>> {
    match s {
        Some(t) => Some(t@),
        None => None,
    }
}

/// The form that makes the first user.
#[derive(Clone, Debug)]
pub struct BootstrapForm {
    pub email: String,
    pub display_name: String,
    pub error: Option<String>,
    pub loading: bool,
}

/// The form that makes the first user, as plain values.
pub struct BootstrapFormView {
    pub email: Seq<char>,
    pub display_name: Seq<char>,
    pub error: Option<Seq<char>>,
    pub loading: bool,
}

impl View for BootstrapForm {
    type V = BootstrapFormView;

    open spec fn view(&self) -> BootstrapFormView {
        BootstrapFormView {
            email: self.email@,
            display_name: self.display_name@,
            error: text_view(self.error),
            loading: self.loading,
        }
    }
}

/// What happens to the form that makes the first user.
#[derive(Debug)]
pub enum BootstrapEvent {
    EmailTyped(String),
    NameTyped(String),
    Submitted,
    /// The server answered: it is done, or why not.
    Answered(Result<(), String>),
}

/// What the form that makes the first user asks for.
#[derive(Clone, Debug)]
pub enum BootstrapAction {
    Nothing,
    Create { email: String, display_name: Option<String> },
    LoggedIn,
}

/// The form after an event.
pub open spec fn bootstrap_next(f: BootstrapFormView, e: BootstrapEvent) -> BootstrapFormView {
    match e {
        BootstrapEvent::EmailTyped(t) => BootstrapFormView { email: t@, ..f },
        BootstrapEvent::NameTyped(t) => BootstrapFormView { display_name: t@, ..f },
        BootstrapEvent::Submitted => if crate::text::trimmed(f.email).len() == 0 {
            BootstrapFormView { error: Some("Email is required"@), ..f }
        } else {
            BootstrapFormView { error: None, loading: true, ..f }
        },
        BootstrapEvent::Answered(Ok(_)) => f,
        BootstrapEvent::Answered(Err(m)) => BootstrapFormView {
            error: Some(m@),
            loading: false,
            ..f
        },
    }
}

/// `a` is what the form asks for on an event.
pub open spec fn bootstrap_asks(
    a: BootstrapAction,
    f: BootstrapFormView,
    e: BootstrapEvent,
) -> bool {
    match e {
        BootstrapEvent::Submitted => if crate::text::trimmed(f.email).len() == 0 {
            a is Nothing
        } else {
            a matches BootstrapAction::Create { email, display_name } && email@
                == crate::text::trimmed(f.email) && text_view(display_name) == (
            if crate::text::trimmed(f.display_name).len() == 0 {
                None
            } else {
                Some(crate::text::trimmed(f.display_name))
            })
        },
        BootstrapEvent::Answered(Ok(_)) => a is LoggedIn,
        _ => a is Nothing,
    }
}

/// The empty form that makes the first user.
pub fn new_bootstrap_form() -> (r: BootstrapForm)
    ensures
        r@ == (BootstrapFormView {
            email: Seq::empty(),
            display_name: Seq::empty(),
            error: None,
            loading: false,
        }),
{
    BootstrapForm {
        email: String::new(),
        display_name: String::new(),
        error: None,
        loading: false,
    }
}

impl BootstrapForm {
    /// Carries the form on by an event, and says what it asks for.
    pub fn on_event(&mut self, event: BootstrapEvent) -> (r: BootstrapAction)
        ensures
            final(self)@ == bootstrap_next(old(self)@, event),
            bootstrap_asks(r, old(self)@, event),
    {
        match event {
            BootstrapEvent::EmailTyped(t) => {
                self.email = t;
                BootstrapAction::Nothing
            },
            BootstrapEvent::NameTyped(t) => {
                self.display_name = t;
                BootstrapAction::Nothing
            },
            BootstrapEvent::Submitted => {
                let email = trim(self.email.as_str());
                if email.as_str().is_empty() {
                    self.error = Some(owned("Email is required"));
                    return BootstrapAction::Nothing;
                }
                self.loading = true;
                self.error = None;
                let name = trim(self.display_name.as_str());
                let display_name = if name.as_str().is_empty() {
                    None
                } else {
                    Some(name)
                };
                BootstrapAction::Create { email, display_name }
            },
            BootstrapEvent::Answered(Ok(_)) => BootstrapAction::LoggedIn,
            BootstrapEvent::Answered(Err(m)) => {
                self.loading = false;
                self.error = Some(m);
                BootstrapAction::Nothing
            },
        }
    }

    /// What the button of the form says.
    pub fn button_label(&self) -> (r: &'static str)
        ensures
            r@ == if self.loading {
                "Creating..."@
            } else {
                "Create admin account"@
            },
    {
        if self.loading {
            "Creating..."
        } else {
            "Create admin account"
        }
    }
}

/// Where somebody who signs in stands: asking for a link, or typing in its token.
#[derive(Clone, Copy, Debug, PartialEq, Eq, Structural)]
pub enum MagicLinkStep {
    Request,
    Verify,
}

/// The form for signing in by a link.
#[derive(Clone, Debug)]
pub struct MagicLinkForm {
    pub step: MagicLinkStep,
    pub email: String,
    pub token: String,
    pub error: Option<String>,
    pub loading: bool,
    pub info: Option<String>,
}

/// The form for signing in by a link, as plain values.
pub struct MagicLinkFormView {
    pub step: MagicLinkStep,
    pub email: Seq<char>,
    pub token: Seq<char>,
    pub error: Option<Seq<char>>,
    pub loading: bool,
    pub info: Option<Seq<char>>,
}

impl View for MagicLinkForm {
    type V = MagicLinkFormView;

    open spec fn view(&self) -> MagicLinkFormView {
        MagicLinkFormView {
            step: self.step,
            email: self.email@,
            token: self.token@,
            error: text_view(self.error),
            loading: self.loading,
            info: text_view(self.info),
        }
    }
}

/// What happens to the form for signing in by a link.
#[derive(Debug)]
pub enum MagicLinkEvent {
    EmailTyped(String),
    TokenTyped(String),
    Submitted,
    /// The server answered the request for a link to `email`.
    RequestAnswered { email: String, result: Result<(), String> },
    /// The server answered the token.
    VerifyAnswered { result: Result<(), String> },
    /// Another address is to be used.
    BackClicked,
}

/// What the form for signing in by a link asks for.
#[derive(Clone, Debug)]
pub enum MagicLinkAction {
    Nothing,
    RequestLink { email: String },
    VerifyToken { token: String },
    LoggedIn,
}

/// What is said once a link was asked for, whether or not anybody has that address.
pub open spec fn sent_info(email: Seq<char>) -> Seq<char> {
    "If an account exists for "@ + email
        + ", a sign-in link has been sent. Enter the token below to continue."@
}

/// The form after an event.
pub open spec fn magic_link_next(f: MagicLinkFormView, e: MagicLinkEvent) -> MagicLinkFormView {
    match e {
        MagicLinkEvent::EmailTyped(t) => MagicLinkFormView { email: t@, ..f },
        MagicLinkEvent::TokenTyped(t) => MagicLinkFormView { token: t@, ..f },
        MagicLinkEvent::Submitted => match f.step {
            MagicLinkStep::Request => if crate::text::trimmed(f.email).len() == 0 {
                MagicLinkFormView { error: Some("Email is required"@), ..f }
            } else {
                MagicLinkFormView { error: None, loading: true, ..f }
            },
            MagicLinkStep::Verify => if crate::text::trimmed(f.token).len() == 0 {
                MagicLinkFormView { error: Some("Token is required"@), ..f }
            } else {
                MagicLinkFormView { error: None, loading: true, ..f }
            },
        },
        MagicLinkEvent::RequestAnswered { email, result: Ok(_) } => MagicLinkFormView {
            loading: false,
            info: Some(sent_info(email@)),
            step: MagicLinkStep::Verify,
            ..f
        },
        MagicLinkEvent::RequestAnswered { email: _, result: Err(m) } => MagicLinkFormView {
            loading: false,
            error: Some(m@),
            ..f
        },
        MagicLinkEvent::VerifyAnswered { result: Ok(_) } => f,
        MagicLinkEvent::VerifyAnswered { result: Err(m) } => MagicLinkFormView {
            loading: false,
            error: Some(m@),
            ..f
        },
        MagicLinkEvent::BackClicked => MagicLinkFormView {
            step: MagicLinkStep::Request,
            error: None,
            info: None,
            token: Seq::empty(),
            ..f
        },
    }
}

/// `a` is what the form asks for on an event.
pub open spec fn magic_link_asks(
    a: MagicLinkAction,
    f: MagicLinkFormView,
    e: MagicLinkEvent,
) -> bool {
    match e {
        MagicLinkEvent::Submitted => match f.step {
            MagicLinkStep::Request => if crate::text::trimmed(f.email).len() == 0 {
                a is Nothing
            } else {
                a matches MagicLinkAction::RequestLink { email } && email@ == crate::text::trimmed(
                    f.email,
                )
            },
            MagicLinkStep::Verify => if crate::text::trimmed(f.token).len() == 0 {
                a is Nothing
            } else {
                a matches MagicLinkAction::VerifyToken { token } && token@ == crate::text::trimmed(
                    f.token,
                )
            },
        },
        MagicLinkEvent::VerifyAnswered { result: Ok(_) } => a is LoggedIn,
        _ => a is Nothing,
    }
}

impl MagicLinkFormView {
    /// Whether the note that a link was sent stands exactly where its token is asked
    /// for.
    pub open spec fn well_formed(self) -> bool {
        self.info is Some <==> self.step == MagicLinkStep::Verify
    }
}

/// The empty form for signing in by a link.
pub fn new_magic_link_form() -> (r: MagicLinkForm)
    ensures
        r@ == (MagicLinkFormView {
            step: MagicLinkStep::Request,
            email: Seq::empty(),
            token: Seq::empty(),
            error: None,
            loading: false,
            info: None,
        }),
        r@.well_formed(),
{
    MagicLinkForm {
        step: MagicLinkStep::Request,
        email: String::new(),
        token: String::new(),
        error: None,
        loading: false,
        info: None,
    }
}

impl MagicLinkForm {
    /// Carries the form on by an event, and says what it asks for.
    pub fn on_event(&mut self, event: MagicLinkEvent) -> (r: MagicLinkAction)
        ensures
            final(self)@ == magic_link_next(old(self)@, event),
            magic_link_asks(r, old(self)@, event),
    {
        match event {
            MagicLinkEvent::EmailTyped(t) => {
                self.email = t;
                MagicLinkAction::Nothing
            },
            MagicLinkEvent::TokenTyped(t) => {
                self.token = t;
                MagicLinkAction::Nothing
            },
            MagicLinkEvent::Submitted => match self.step {
                MagicLinkStep::Request => {
                    let email = trim(self.email.as_str());
                    if email.as_str().is_empty() {
                        self.error = Some(owned("Email is required"));
                        return MagicLinkAction::Nothing;
                    }
                    self.loading = true;
                    self.error = None;
                    MagicLinkAction::RequestLink { email }
                },
                MagicLinkStep::Verify => {
                    let token = trim(self.token.as_str());
                    if token.as_str().is_empty() {
                        self.error = Some(owned("Token is required"));
                        return MagicLinkAction::Nothing;
                    }
                    self.loading = true;
                    self.error = None;
                    MagicLinkAction::VerifyToken { token }
                },
            },
            MagicLinkEvent::RequestAnswered { email, result: Ok(_) } => {
                self.loading = false;
                let mut info = owned("If an account exists for ");
                info.append(email.as_str());
                info.append(", a sign-in link has been sent. Enter the token below to continue.");
                self.info = Some(info);
                self.step = MagicLinkStep::Verify;
                MagicLinkAction::Nothing
            },
            MagicLinkEvent::RequestAnswered { email: _, result: Err(m) } => {
                self.loading = false;
                self.error = Some(m);
                MagicLinkAction::Nothing
            },
            MagicLinkEvent::VerifyAnswered { result: Ok(_) } => MagicLinkAction::LoggedIn,
            MagicLinkEvent::VerifyAnswered { result: Err(m) } => {
                self.loading = false;
                self.error = Some(m);
                MagicLinkAction::Nothing
            },
            MagicLinkEvent::BackClicked => {
                self.step = MagicLinkStep::Request;
                self.error = None;
                self.info = None;
                self.token = String::new();
                MagicLinkAction::Nothing
            },
        }
    }

    /// What the button of the form says.
    pub fn button_label(&self) -> (r: &'static str)
        ensures
            r@ == match self.step {
                MagicLinkStep::Request => if self.loading {
                    "Sending..."@
                } else {
                    "Send sign-in link"@
                },
                MagicLinkStep::Verify => if self.loading {
                    "Verifying..."@
                } else {
                    "Sign in"@
                },
            },
    {
        match self.step {
            MagicLinkStep::Request => if self.loading {
                "Sending..."
            } else {
                "Send sign-in link"
            },
            MagicLinkStep::Verify => if self.loading {
                "Verifying..."
            } else {
                "Sign in"
            },
        }
    }
}

/// Every event keeps the note that a link was sent together with the step that asks
/// for its token.
pub proof fn law_note_and_step_stay_together(f: MagicLinkFormView, e: MagicLinkEvent)
    requires
        f.well_formed(),
    ensures
        magic_link_next(f, e).well_formed(),
{
}

/// Nobody is signed in but by a token that the server accepted, and nothing that is
/// blank is ever sent.
pub proof fn law_only_an_accepted_token_signs_in(
    a: MagicLinkAction,
    f: MagicLinkFormView,
    e: MagicLinkEvent,
)
    requires
        magic_link_asks(a, f, e),
    ensures
        a is LoggedIn ==> e matches MagicLinkEvent::VerifyAnswered { result: Ok(_) },
        a matches MagicLinkAction::RequestLink { email } ==> email@.len() > 0,
        a matches MagicLinkAction::VerifyToken { token } ==> token@.len() > 0,
{
}

/// Going back and asking anew leaves nothing of the last try but the address.
pub proof fn law_going_back_forgets(f: MagicLinkFormView)
    ensures
        ({
            let b = magic_link_next(f, MagicLinkEvent::BackClicked);
            &&& b.step == MagicLinkStep::Request
            &&& b.token.len() == 0
            &&& b.error is None
            &&& b.info is None
            &&& b.email == f.email
        }),
{
}

} // verus!
