//! The pages of the application and the routing of messages to them.
use vstd::prelude::*;

use crate::app::{FromOrPanic, IntoOrPanic};
use vstd::std_specs::convert::FromSpec;
use vstd::std_specs::convert::FromSpecImpl;

pub mod chat;
pub mod login;

verus! {

/// The page that is shown.
pub enum Page {
    Login(login::Page),
    Chat(chat::Page),
}

/// A message for the page that is shown.
pub enum PageMessage {
    Login(login::Message),
    Chat(chat::Message),
}

/// What the application must do after the page handled a message.
pub enum PageTask {
    Login(login::Task),
    Chat(chat::Task),
}

/// The view of a [`Page`].
pub enum PageView {
    Login(login::PageView),
    Chat(chat::PageView),
}

impl View for Page {
    type V = PageView;

    open spec fn view(&self) -> PageView {
        match self {
            Page::Login(p) => PageView::Login(p@),
            Page::Chat(p) => PageView::Chat(p@),
        }
    }
}

/// Whether `message` is addressed to the kind of page `v` is, and is one
/// that page handles.
pub open spec fn accepts(v: PageView, message: PageMessage) -> bool {
    match (v, message) {
        (PageView::Login(_), PageMessage::Login(_)) => true,
        (PageView::Chat(_), PageMessage::Chat(m)) => chat::Page::handles(m),
        _ => false,
    }
}

/// The page after it handled `message`.
pub open spec fn next(v: PageView, message: PageMessage) -> PageView {
    match (v, message) {
        (PageView::Login(p), PageMessage::Login(m)) => PageView::Login(login::next(p, m)),
        (PageView::Chat(p), PageMessage::Chat(m)) => PageView::Chat(chat::next(p, m)),
        _ => v,
    }
}

/// Whether `task` is what the page `v` answers `message` with.
pub open spec fn is_task_for(task: PageTask, v: PageView, message: PageMessage) -> bool {
    match (v, message) {
        (PageView::Login(p), PageMessage::Login(m)) => task matches PageTask::Login(t)
            && login::is_task_for(t, p, m),
        (PageView::Chat(_), PageMessage::Chat(m)) => task matches PageTask::Chat(t) && t@
            == chat::task_for(m),
        _ => false,
    }
}

impl Page {
    /// Hands `message` to the page that is shown. A message for the other
    /// kind of page is a routing bug and is not accepted.
    pub fn update(&mut self, message: PageMessage) -> (r: PageTask)
        requires
            accepts(old(self)@, message),
        ensures
            final(self)@ == next(old(self)@, message),
            is_task_for(r, old(self)@, message),
    {
        match self {
            Page::Login(page) => {
                let m: login::Message = message.into_or_panic();
                PageTask::Login(page.update(m))
            },
            Page::Chat(page) => {
                let m: chat::Message = message.into_or_panic();
                PageTask::Chat(page.update(m))
            },
        }
    }
}

impl FromOrPanic<PageMessage> for login::Message {
    open spec fn holds_variant(outer: PageMessage) -> bool {
        outer is Login
    }

    open spec fn wraps(inner: Self, outer: PageMessage) -> bool {
        outer == PageMessage::Login(inner)
    }

    fn from_or_panic(value: PageMessage) -> (r: Self) {
        match value {
            PageMessage::Login(m) => m,
            PageMessage::Chat(_) => {
                assert(false);
                login::Message::Login
            },
        }
    }
}

impl FromOrPanic<PageMessage> for chat::Message {
    open spec fn holds_variant(outer: PageMessage) -> bool {
        outer is Chat
    }

    open spec fn wraps(inner: Self, outer: PageMessage) -> bool {
        outer == PageMessage::Chat(inner)
    }

    fn from_or_panic(value: PageMessage) -> (r: Self) {
        match value {
            PageMessage::Chat(m) => m,
            PageMessage::Login(_) => {
                assert(false);
                chat::Message::OpenSettings
            },
        }
    }
}

impl From<login::Message> for PageMessage {
    fn from(value: login::Message) -> (r: Self) {
        PageMessage::Login(value)
    }
}

impl FromSpecImpl<login::Message> for PageMessage {
    open spec fn obeys_from_spec() -> bool {
        true
    }

    open spec fn from_spec(v: login::Message) -> Self {
        PageMessage::Login(v)
    }
}

impl From<chat::Message> for PageMessage {
    fn from(value: chat::Message) -> (r: Self) {
        PageMessage::Chat(value)
    }
}

impl FromSpecImpl<chat::Message> for PageMessage {
    open spec fn obeys_from_spec() -> bool {
        true
    }

    open spec fn from_spec(v: chat::Message) -> Self {
        PageMessage::Chat(v)
    }
}

/// Wrapping a page's message and unwrapping it again gives the message back.
pub proof fn lemma_page_message_round_trip(login_msg: login::Message, chat_msg: chat::Message)
    ensures
        <login::Message as FromOrPanic<PageMessage>>::holds_variant(
            <PageMessage as FromSpec<login::Message>>::from_spec(login_msg),
        ),
        <login::Message as FromOrPanic<PageMessage>>::wraps(
            login_msg,
            <PageMessage as FromSpec<login::Message>>::from_spec(login_msg),
        ),
        <chat::Message as FromOrPanic<PageMessage>>::holds_variant(
            <PageMessage as FromSpec<chat::Message>>::from_spec(chat_msg),
        ),
        <chat::Message as FromOrPanic<PageMessage>>::wraps(
            chat_msg,
            <PageMessage as FromSpec<chat::Message>>::from_spec(chat_msg),
        ),
        !<chat::Message as FromOrPanic<PageMessage>>::holds_variant(
            <PageMessage as FromSpec<login::Message>>::from_spec(login_msg),
        ),
{
}

} // verus!
