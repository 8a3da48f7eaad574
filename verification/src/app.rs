//! The application shell: which page is shown, which modal is open, and how
//! each incoming message is routed.
use vstd::prelude::*;

use crate::modal::{Modal, ModalMessage, ModalTask};
use vstd::std_specs::convert::FromSpecImpl;
use crate::page::{login, Page, PageMessage, PageTask, PageView};

verus! {

/// Conversion out of a wrapping message type that is only defined for the
/// variant that wraps `Self`; any other variant is a routing bug.
pub trait FromOrPanic<T>: Sized {
    /// Whether `outer` is the variant that wraps a value of `Self`.
    spec fn holds_variant(outer: T) -> bool;

    /// Whether `outer` is the variant that wraps exactly `inner`.
    spec fn wraps(inner: Self, outer: T) -> bool;

    fn from_or_panic(value: T) -> (r: Self)
        requires
            Self::holds_variant(value),
        ensures
            Self::wraps(r, value),
    ;
}

/// The same conversion, seen from the wrapping side.
pub trait IntoOrPanic<T: FromOrPanic<Self>>: Sized {
    fn into_or_panic(self) -> (r: T)
        requires
            T::holds_variant(self),
        ensures
            T::wraps(r, self),
    ;
}

impl<A, B: FromOrPanic<A>> IntoOrPanic<B> for A {
    fn into_or_panic(self) -> (r: B) {
        B::from_or_panic(self)
    }
}


/// A keyboard or window event, reduced to what the application reacts to.
#[derive(Debug, Clone)]
pub enum Event {
    /// The Tab key was pressed, with or without Shift held.
    TabPressed { shift: bool },
    /// Any other event.
    Other,
}

/// A message of the application.
pub enum AppMessage {
    /// A message for the page that is shown.
    PageMessage(PageMessage),
    /// A message for the open modal.
    ModalMessage(ModalMessage),
    /// An input event.
    Event(Event),
    /// Show this page, freshly opened, and run its first task.
    SwitchPage(Page, PageTask),
    /// Open this modal, freshly opened, and run its first task.
    OpenModal(Modal, ModalTask),
    /// Close the open modal.
    CloseModal,
}

/// What the application must do after it handled a message.
pub enum AppTask {
    /// Nothing to do.
    Idle,
    /// The task the page asked for.
    Page(PageTask),
    /// The task the modal asked for.
    Modal(ModalTask),
    /// Move the keyboard focus to the next widget.
    FocusNext,
    /// Move the keyboard focus to the previous widget.
    FocusPrevious,
}

/// The state of the application: the page shown, and the modal open over it.
pub struct State {
    pub page: Page,
    pub modal: Option<Modal>,
}

/// The view of a [`State`].
pub struct StateView {
    pub page: PageView,
    pub modal: Option<Modal>,
}

impl View for State {
    type V = StateView;

    open spec fn view(&self) -> StateView {
        StateView { page: self.page@, modal: self.modal }
    }
}

impl State {
    /// Starts the application on the login page, restoring the saved session.
    pub fn boot() -> (r: (State, AppTask))
        ensures
            r.0@.page == PageView::Login(login::initial_view()),
            r.0@.modal is None,
            r.1 matches AppTask::Page(PageTask::Login(login::Task::RestoreSession)),
    {
        let (page, task) = login::Page::new();
        (State { page: Page::Login(page), modal: None }, AppTask::Page(PageTask::Login(task)))
    }
}

/// Whether the application can handle `message` in state `s`: a page
/// message must be for the page that is shown, and a modal message for the
/// modal that is open, if one is.
pub open spec fn accepts(s: StateView, message: AppMessage) -> bool {
    match message {
        AppMessage::PageMessage(m) => crate::page::accepts(s.page, m),
        AppMessage::ModalMessage(m) => match s.modal {
            Some(modal) => modal.accepts(m),
            None => true,
        },
        _ => true,
    }
}

/// The state of the application after it handled `message`.
pub open spec fn next(s: StateView, message: AppMessage) -> StateView {
    match message {
        AppMessage::PageMessage(m) => StateView { page: crate::page::next(s.page, m), ..s },
        AppMessage::SwitchPage(page, _) => StateView { page: page@, ..s },
        AppMessage::OpenModal(modal, _) => StateView { modal: Some(modal), ..s },
        AppMessage::CloseModal => StateView { modal: None, ..s },
        _ => s,
    }
}

/// Whether `task` is what the application answers `message` with in state `s`.
pub open spec fn is_task_for(task: AppTask, s: StateView, message: AppMessage) -> bool {
    match message {
        AppMessage::PageMessage(m) => task matches AppTask::Page(t) && crate::page::is_task_for(
            t,
            s.page,
            m,
        ),
        AppMessage::ModalMessage(m) => match s.modal {
            Some(_) => task == AppTask::Modal(Modal::task_for(m)),
            None => task is Idle,
        },
        AppMessage::Event(Event::TabPressed { shift }) => if shift {
            task is FocusPrevious
        } else {
            task is FocusNext
        },
        AppMessage::Event(Event::Other) => task is Idle,
        AppMessage::SwitchPage(_, t) => task == AppTask::Page(t),
        AppMessage::OpenModal(_, t) => task == AppTask::Modal(t),
        AppMessage::CloseModal => task is Idle,
    }
}

impl State {
    /// Whether the application can handle `message` now (see [`accepts`]).
    pub fn can_handle(&self, message: &AppMessage) -> (r: bool)
        ensures
            r == accepts(self@, *message),
    {
        match message {
            AppMessage::PageMessage(m) => match (&self.page, m) {
                (Page::Login(_), PageMessage::Login(_)) => true,
                (Page::Chat(_), PageMessage::Chat(c)) => !matches!(c, crate::page::chat::Message::UrlClicked(_)),
                _ => false,
            },
            AppMessage::ModalMessage(m) => match (&self.modal, m) {
                (None, _) => true,
                (Some(Modal::Settings(_)), ModalMessage::Settings(_)) => true,
                (Some(Modal::Verification(_)), ModalMessage::Verification(_)) => true,
                _ => false,
            },
            _ => true,
        }
    }
}

/// The application: its name, and how it handles messages.
pub struct IcedMatrixClient;

impl IcedMatrixClient {
    /// The name of the application.
    pub fn name() -> (r: &'static str)
        ensures
            r@ == "iced-matrix-client"@,
    {
        "iced-matrix-client"
    }

    /// The window title: the name of the application.
    pub fn title() -> (r: String)
        ensures
            r@ == "iced-matrix-client"@,
    {
        crate::text::owned(IcedMatrixClient::name())
    }

    /// Handles `message`: page and modal messages go to the page shown and
    /// the modal open (a modal message is dropped when none is open), Tab
    /// moves the focus, and the rest switch the page or open or close the modal.
    pub fn update(state: &mut State, message: AppMessage) -> (r: AppTask)
        requires
            accepts(old(state)@, message),
        ensures
            final(state)@ == next(old(state)@, message),
            is_task_for(r, old(state)@, message),
    {
        match message {
            AppMessage::PageMessage(m) => AppTask::Page(state.page.update(m)),
            AppMessage::ModalMessage(m) => match &mut state.modal {
                Some(modal) => AppTask::Modal(modal.update(m)),
                None => AppTask::Idle,
            },
            AppMessage::SwitchPage(page, task) => {
                state.page = page;
                AppTask::Page(task)
            },
            AppMessage::OpenModal(modal, task) => {
                state.modal = Some(modal);
                AppTask::Modal(task)
            },
            AppMessage::CloseModal => {
                state.modal = None;
                AppTask::Idle
            },
            AppMessage::Event(Event::TabPressed { shift }) => {
                if shift {
                    AppTask::FocusPrevious
                } else {
                    AppTask::FocusNext
                }
            },
            AppMessage::Event(Event::Other) => AppTask::Idle,
        }
    }
}

/// Opening a modal and closing it again leaves no modal open and the page as
/// it was.
pub proof fn lemma_open_then_close_modal(s: StateView, modal: Modal, task: ModalTask)
    ensures
        next(next(s, AppMessage::OpenModal(modal, task)), AppMessage::CloseModal) == (StateView {
            modal: None,
            ..s
        }),
{
}

/// Messages for the modal never change the page, nor which modal is open.
pub proof fn lemma_modal_messages_keep_state(s: StateView, m: ModalMessage)
    ensures
        next(s, AppMessage::ModalMessage(m)) == s,
{
}

/// A page message changes only the page, never the modal.
pub proof fn lemma_page_messages_keep_modal(s: StateView, m: PageMessage)
    ensures
        next(s, AppMessage::PageMessage(m)).modal == s.modal,
{
}

impl From<PageMessage> for AppMessage {
    fn from(value: PageMessage) -> (r: Self) {
        AppMessage::PageMessage(value)
    }
}

impl FromSpecImpl<PageMessage> for AppMessage {
    open spec fn obeys_from_spec() -> bool {
        true
    }

    open spec fn from_spec(v: PageMessage) -> Self {
        AppMessage::PageMessage(v)
    }
}

impl From<ModalMessage> for AppMessage {
    fn from(value: ModalMessage) -> (r: Self) {
        AppMessage::ModalMessage(value)
    }
}

impl FromSpecImpl<ModalMessage> for AppMessage {
    open spec fn obeys_from_spec() -> bool {
        true
    }

    open spec fn from_spec(v: ModalMessage) -> Self {
        AppMessage::ModalMessage(v)
    }
}

} // verus!
