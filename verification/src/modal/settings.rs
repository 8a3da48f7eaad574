//! The settings modal: pick a theme, or close.
use vstd::prelude::*;

use super::ModalTask;

verus! {

/// A message of the settings modal.
#[derive(Debug, Clone)]
pub enum Message {
    /// The close button was pressed.
    Close,
    /// A theme was picked, by its position in the theme list.
    Theme(usize),
}

/// The settings modal. It keeps no state of its own.
#[derive(Debug, Clone)]
pub struct Modal {}

impl Modal {
    /// Opens the modal.
    pub fn boot() -> (r: (Modal, ModalTask))
        ensures
            r.1 == ModalTask::Idle,
    {
        (Modal {}, ModalTask::Idle)
    }

    /// The task the modal answers `message` with.
    pub open spec fn task_for(message: Message) -> ModalTask {
        match message {
            Message::Close => ModalTask::Close,
            Message::Theme(i) => ModalTask::SetTheme(i),
        }
    }

    /// Handles `message`: closing closes the modal, picking a theme applies it.
    pub fn update(&mut self, message: Message) -> (r: ModalTask)
        ensures
            r == Modal::task_for(message),
    {
        match message {
            Message::Close => ModalTask::Close,
            Message::Theme(i) => ModalTask::SetTheme(i),
        }
    }
}

} // verus!
