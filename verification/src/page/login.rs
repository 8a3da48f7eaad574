//! The login page: a form for homeserver, user name and password.
use vstd::prelude::*;

use crate::external::{clone_secret, empty_secret, new_secret, secret_str, secret_text, SecretString};
use crate::text::opt_text;

verus! {

/// A message of the login page.
pub enum Message {
    /// No saved session could be restored.
    RestoreSessionFailed,
    /// The user name field changed.
    UpdateUsername(String),
    /// The homeserver field changed.
    UpdateHomeserver(String),
    /// The password field changed.
    UpdatePassword(SecretString),
    /// The login button was pressed.
    Login,
    /// Logging in succeeded.
    DoneLogin(matrix_sdk::Client),
    /// Logging in failed, with the reason.
    Error(String),
}

/// What the application must do after the login page handled a message.
pub enum Task {
    /// Nothing to do.
    Idle,
    /// Try to restore the saved session.
    RestoreSession,
    /// Log in with these credentials.
    Login { homeserver: String, username: String, password: SecretString },
    /// Switch to the chat page of this client.
    OpenChat(matrix_sdk::Client),
}

/// The state of the login page.
pub struct Page {
    homeserver: String,
    username: String,
    password: SecretString,
    error: Option<String>,
    logging_in: bool,
}

/// The view of a [`Page`].
pub struct PageView {
    pub homeserver: Seq<char>,
    pub username: Seq<char>,
    pub password: Seq<char>,
    /// The last login error, if any.
    pub error: Option<Seq<char>>,
    /// Whether a login (or the restoring of a session) is under way.
    pub logging_in: bool,
}

impl View for Page {
    type V = PageView;

    closed spec fn view(&self) -> PageView {
        PageView {
            homeserver: self.homeserver@,
            username: self.username@,
            password: secret_text(self.password),
            error: opt_text(self.error),
            logging_in: self.logging_in,
        }
    }
}

/// The login page as it starts: an empty form, with a session being restored.
pub open spec fn initial_view() -> PageView {
    PageView {
        homeserver: Seq::empty(),
        username: Seq::empty(),
        password: Seq::empty(),
        error: None,
        logging_in: true,
    }
}

/// The state of the login page after it handled `message`.
pub open spec fn next(v: PageView, message: Message) -> PageView {
    match message {
        Message::RestoreSessionFailed => PageView { logging_in: false, ..v },
        Message::UpdateUsername(u) => PageView { username: u@, ..v },
        Message::UpdateHomeserver(h) => PageView { homeserver: h@, ..v },
        Message::UpdatePassword(p) => PageView { password: secret_text(p), ..v },
        Message::Login => PageView { logging_in: true, ..v },
        Message::DoneLogin(_) => v,
        Message::Error(e) => PageView { error: Some(e@), logging_in: false, ..v },
    }
}

/// Whether `task` is the task the login page answers `message` with, from
/// the state `v`.
pub open spec fn is_task_for(task: Task, v: PageView, message: Message) -> bool {
    match message {
        Message::Login => task matches Task::Login { homeserver, username, password }
            && homeserver@ == v.homeserver && username@ == v.username && secret_text(password)
            == v.password,
        Message::DoneLogin(client) => task == Task::OpenChat(client),
        _ => task is Idle,
    }
}

impl Page {
    /// Opens the login page, and starts restoring the saved session.
    pub fn new() -> (r: (Page, Task))
        ensures
            r.0@ == initial_view(),
            r.1 is RestoreSession,
    {
        let page = Page {
            homeserver: String::new(),
            username: String::new(),
            password: empty_secret(),
            error: None,
            logging_in: true,
        };
        (page, Task::RestoreSession)
    }

    /// Handles `message`.
    pub fn update(&mut self, message: Message) -> (r: Task)
        ensures
            final(self)@ == next(old(self)@, message),
            is_task_for(r, old(self)@, message),
    {
        match message {
            Message::RestoreSessionFailed => {
                self.logging_in = false;
                Task::Idle
            },
            Message::UpdateUsername(username) => {
                self.username = username;
                Task::Idle
            },
            Message::UpdateHomeserver(homeserver) => {
                self.homeserver = homeserver;
                Task::Idle
            },
            Message::UpdatePassword(password) => {
                self.password = password;
                Task::Idle
            },
            Message::Login => {
                self.logging_in = true;
                Task::Login {
                    homeserver: self.homeserver.clone(),
                    username: self.username.clone(),
                    password: clone_secret(&self.password),
                }
            },
            Message::DoneLogin(client) => Task::OpenChat(client),
            Message::Error(e) => {
                self.error = Some(e);
                self.logging_in = false;
                Task::Idle
            },
        }
    }

    /// Whether the login button can be pressed: only while no login is under way.
    pub fn can_log_in(&self) -> (r: bool)
        ensures
            r == !self@.logging_in,
    {
        !self.logging_in
    }

    /// The homeserver field.
    pub fn homeserver(&self) -> (r: &str)
        ensures
            r@ == self@.homeserver,
    {
        self.homeserver.as_str()
    }

    /// The user name field.
    pub fn username(&self) -> (r: &str)
        ensures
            r@ == self@.username,
    {
        self.username.as_str()
    }

    /// The password field.
    pub fn password(&self) -> (r: &str)
        ensures
            r@ == self@.password,
    {
        secret_str(&self.password)
    }

    /// The last login error, if any.
    pub fn error(&self) -> (r: Option<&str>)
        ensures
            match r {
                Some(e) => self@.error == Some(e@),
                None => self@.error is None,
            },
    {
        match &self.error {
            Some(e) => Some(e.as_str()),
            None => None,
        }
    }
}

/// Wraps a typed password so that it is wiped when dropped.
pub fn secret_password(text: String) -> (r: SecretString)
    ensures
        secret_text(r) == text@,
{
    new_secret(text)
}

/// The text of a password, to hand to the homeserver.
pub fn password_text(secret: &SecretString) -> (r: &str)
    ensures
        r@ == secret_text(*secret),
{
    secret_str(secret)
}

/// The message that reports how a login (or the restoring of a session)
/// ended: the client on success, else the reason it failed.
pub fn login_outcome(result: Result<matrix_sdk::Client, String>) -> (r: Message)
    ensures
        match result {
            Ok(c) => r == Message::DoneLogin(c),
            Err(e) => r matches Message::Error(x) && x@ == e@,
        },
{
    match result {
        Ok(client) => Message::DoneLogin(client),
        Err(e) => Message::Error(e),
    }
}

/// Once a login is under way, the login button stays disabled until the
/// attempt fails or no session could be restored.
pub proof fn lemma_login_blocks_until_outcome(v: PageView, message: Message)
    requires
        !(message is Error),
        !(message is RestoreSessionFailed),
    ensures
        next(next(v, Message::Login), message).logging_in,
{
}

/// After a failed login the error is shown and the button is enabled again.
pub proof fn lemma_error_reenables_login(v: PageView, e: String)
    ensures
        next(v, Message::Error(e)).error == Some(e@),
        !next(v, Message::Error(e)).logging_in,
{
}

/// Editing one field of the form leaves the other fields, the error and the
/// login state as they were.
pub proof fn lemma_field_edits_are_independent(v: PageView, text: String, secret: SecretString)
    ensures
        ({
            let a = next(v, Message::UpdateHomeserver(text));
            a.homeserver == text@ && a.username == v.username && a.password == v.password && a.error
                == v.error && a.logging_in == v.logging_in
        }),
        ({
            let a = next(v, Message::UpdateUsername(text));
            a.username == text@ && a.homeserver == v.homeserver && a.password == v.password && a.error
                == v.error && a.logging_in == v.logging_in
        }),
        ({
            let a = next(v, Message::UpdatePassword(secret));
            a.password == secret_text(secret) && a.homeserver == v.homeserver && a.username
                == v.username && a.error == v.error && a.logging_in == v.logging_in
        }),
{
}

/// Filling in the form in any order of the three fields and pressing login
/// logs in with exactly what was typed.
pub proof fn lemma_login_uses_typed_fields(
    v: PageView,
    username: String,
    homeserver: String,
    password: SecretString,
    task: Task,
)
    requires
        is_task_for(
            task,
            next(
                next(next(v, Message::UpdateUsername(username)), Message::UpdateHomeserver(homeserver)),
                Message::UpdatePassword(password),
            ),
            Message::Login,
        ),
    ensures
        task matches Task::Login { homeserver: h, username: u, password: p } && h@ == homeserver@
            && u@ == username@ && secret_text(p) == secret_text(password),
{
}

} // verus!
