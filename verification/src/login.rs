//! The login view: a draft of the user's name, which is handed to the rest of
//! the application when the user goes on to the chat.

use vstd::prelude::*;

verus! {

/// The name under which the user takes part. The application owns one; it is
/// empty until the user has logged in.
pub struct SharedIdentity {
    username: String,
}

impl View for SharedIdentity {
    type V = Seq<char>;

    closed spec fn view(&self) -> Seq<char> {
        self.username@
    }
}

impl SharedIdentity {
    /// The identity at the start of the application: no name yet.
    pub fn new() -> (identity: SharedIdentity)
        ensures
            identity@ == Seq::<char>::empty(),
    {
        SharedIdentity { username: String::new() }
    }

    /// The name.
    pub fn username(&self) -> (username: &String)
        ensures
            username@ == self@,
    {
        &self.username
    }

    /// Replaces the name.
    pub fn set(&mut self, username: String)
        ensures
            final(self)@ == username@,
    {
        self.username = username;
    }
}

/// The state of the login view: what the user has typed so far.
pub struct LoginForm {
    draft: String,
}

impl View for LoginForm {
    type V = Seq<char>;

    closed spec fn view(&self) -> Seq<char> {
        self.draft@
    }
}

/// What the user does in the login view.
pub enum LoginEvent {
    /// The text field now holds this text.
    Input(String),
    /// The user has pressed the control that leads to the chat.
    Go,
}

/// Where the application is to go after an event in the login view.
#[derive(Clone, Copy, Debug, PartialEq, Eq, Structural)]
pub enum Route {
    /// It stays in the login view.
    Login,
    /// It goes on to the chat view.
    Chat,
}

impl LoginForm {
    /// The login view as it first appears: nothing typed.
    pub fn new() -> (form: LoginForm)
        ensures
            form@ == Seq::<char>::empty(),
    {
        LoginForm { draft: String::new() }
    }

    /// What the user has typed so far.
    pub fn draft(&self) -> (draft: &String)
        ensures
            draft@ == self@,
    {
        &self.draft
    }

    /// Whether the control that leads to the chat is disabled. It is while
    /// nothing is typed.
    pub fn disabled(&self) -> (disabled: bool)
        ensures
            disabled == (self@.len() == 0),
    {
        self.draft.as_str().is_empty()
    }
}

/// The next state of the form, given its state `draft` and the event.
pub open spec fn next_draft(draft: Seq<char>, event: LoginEvent) -> Seq<char> {
    match event {
        LoginEvent::Input(text) => text@,
        LoginEvent::Go => draft,
    }
}

/// Whether the event, with the form in the state `draft`, logs the user in.
pub open spec fn logs_in(draft: Seq<char>, event: LoginEvent) -> bool {
    event is Go && draft.len() > 0
}

/// Takes one event of the login view.
///
/// Typing replaces the draft. Pressing the control with a draft that is not
/// empty makes the draft, as it stands, the shared name, and leads to the chat
/// view. With an empty draft the control is disabled, and pressing it changes
/// nothing.
pub fn login(form: &mut LoginForm, identity: &mut SharedIdentity, event: LoginEvent) -> (route:
    Route)
    ensures
        final(form)@ == next_draft(old(form)@, event),
        final(identity)@ == if logs_in(old(form)@, event) {
            old(form)@
        } else {
            old(identity)@
        },
        route == if logs_in(old(form)@, event) {
            Route::Chat
        } else {
            Route::Login
        },
{
    match event {
        LoginEvent::Input(text) => {
            form.draft = text;
            Route::Login
        },
        LoginEvent::Go => {
            if form.disabled() {
                Route::Login
            } else {
                identity.set(form.draft.clone());
                Route::Chat
            }
        },
    }
}

} // verus!
