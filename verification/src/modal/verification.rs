//! The device verification modal.
use vstd::prelude::*;

use super::ModalTask;

verus! {

/// A message of the verification modal.
#[derive(Debug, Clone)]
pub enum Message {
    /// The close button was pressed.
    Close,
}

/// The device verification modal. It keeps no state of its own.
#[derive(Debug, Clone)]
pub struct Modal {}

impl Modal {
    /// Opens the modal.
    pub fn boot() -> (r: (Modal, ModalTask))
        ensures
            r.1 == ModalTask::Idle,
    {
        (Modal {}, ModalTask::Idle)
    }

    /// The task the modal answers `message` with.
    pub open spec fn task_for(message: Message) -> ModalTask {
        match message {
            Message::Close => ModalTask::Close,
        }
    }

    /// Handles `message`: the only one closes the modal.
    pub fn update(&mut self, message: Message) -> (r: ModalTask)
        ensures
            r == Modal::task_for(message),
    {
        match message {
            Message::Close => ModalTask::Close,
        }
    }
}

} // verus!
