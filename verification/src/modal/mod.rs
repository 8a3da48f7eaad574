//! Modals shown over the current page.
use vstd::prelude::*;

use crate::app::{FromOrPanic, IntoOrPanic};
use vstd::std_specs::convert::FromSpec;
use vstd::std_specs::convert::FromSpecImpl;

pub mod settings;
pub mod verification;

verus! {

/// The modal that is open.
#[derive(Debug, Clone)]
pub enum Modal {
    Settings(settings::Modal),
    Verification(verification::Modal),
}

/// A message for the open modal.
#[derive(Debug, Clone)]
pub enum ModalMessage {
    Settings(settings::Message),
    Verification(verification::Message),
}

/// What the application must do after a modal handled a message.
#[derive(PartialEq, Eq, Structural)]
pub enum ModalTask {
    /// Nothing to do.
    Idle,
    /// Close the open modal.
    Close,
    /// Switch the application theme to the given entry of the theme list.
    SetTheme(usize),
}

impl Modal {
    /// Whether `message` is addressed to this kind of modal.
    pub open spec fn accepts(&self, message: ModalMessage) -> bool {
        match (self, message) {
            (Modal::Settings(_), ModalMessage::Settings(_)) => true,
            (Modal::Verification(_), ModalMessage::Verification(_)) => true,
            _ => false,
        }
    }

    /// The task a modal answers `message` with.
    pub open spec fn task_for(message: ModalMessage) -> ModalTask {
        match message {
            ModalMessage::Settings(m) => settings::Modal::task_for(m),
            ModalMessage::Verification(m) => verification::Modal::task_for(m),
        }
    }

    /// Hands `message` to the open modal. A message of the other kind of
    /// modal is a routing bug and is not accepted.
    pub fn update(&mut self, message: ModalMessage) -> (r: ModalTask)
        requires
            old(self).accepts(message),
        ensures
            *final(self) == *old(self),
            r == Modal::task_for(message),
    {
        match self {
            Modal::Settings(modal) => {
                let m: settings::Message = message.into_or_panic();
                modal.update(m)
            },
            Modal::Verification(modal) => {
                let m: verification::Message = message.into_or_panic();
                modal.update(m)
            },
        }
    }
}

impl FromOrPanic<ModalMessage> for settings::Message {
    open spec fn holds_variant(outer: ModalMessage) -> bool {
        outer is Settings
    }

    open spec fn wraps(inner: Self, outer: ModalMessage) -> bool {
        outer == ModalMessage::Settings(inner)
    }

    fn from_or_panic(value: ModalMessage) -> (r: Self) {
        match value {
            ModalMessage::Settings(m) => m,
            ModalMessage::Verification(_) => {
                assert(false);
                settings::Message::Close
            },
        }
    }
}

impl FromOrPanic<ModalMessage> for verification::Message {
    open spec fn holds_variant(outer: ModalMessage) -> bool {
        outer is Verification
    }

    open spec fn wraps(inner: Self, outer: ModalMessage) -> bool {
        outer == ModalMessage::Verification(inner)
    }

    fn from_or_panic(value: ModalMessage) -> (r: Self) {
        match value {
            ModalMessage::Verification(m) => m,
            ModalMessage::Settings(_) => {
                assert(false);
                verification::Message::Close
            },
        }
    }
}

impl From<settings::Message> for ModalMessage {
    fn from(value: settings::Message) -> (r: Self) {
        ModalMessage::Settings(value)
    }
}

impl FromSpecImpl<settings::Message> for ModalMessage {
    open spec fn obeys_from_spec() -> bool {
        true
    }

    open spec fn from_spec(v: settings::Message) -> Self {
        ModalMessage::Settings(v)
    }
}

impl From<verification::Message> for ModalMessage {
    fn from(value: verification::Message) -> (r: Self) {
        ModalMessage::Verification(value)
    }
}

impl FromSpecImpl<verification::Message> for ModalMessage {
    open spec fn obeys_from_spec() -> bool {
        true
    }

    open spec fn from_spec(v: verification::Message) -> Self {
        ModalMessage::Verification(v)
    }
}

/// Wrapping a modal's message and unwrapping it again gives the message back.
pub proof fn lemma_modal_message_round_trip(settings_msg: settings::Message, verification_msg: verification::Message)
    ensures
        <settings::Message as FromOrPanic<ModalMessage>>::wraps(
            settings_msg,
            <ModalMessage as FromSpec<settings::Message>>::from_spec(settings_msg),
        ),
        <verification::Message as FromOrPanic<ModalMessage>>::wraps(
            verification_msg,
            <ModalMessage as FromSpec<verification::Message>>::from_spec(verification_msg),
        ),
        <settings::Message as FromOrPanic<ModalMessage>>::holds_variant(
            <ModalMessage as FromSpec<settings::Message>>::from_spec(settings_msg),
        ),
        !<verification::Message as FromOrPanic<ModalMessage>>::holds_variant(
            <ModalMessage as FromSpec<settings::Message>>::from_spec(settings_msg),
        ),
{
}

} // verus!
