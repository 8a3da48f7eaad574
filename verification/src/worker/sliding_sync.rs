//! The room list kept up to date by sliding sync.
use vstd::prelude::*;

verus! {

/// A response of the sliding sync worker.
#[derive(Debug, Clone)]
pub enum Response {
    /// The rooms that an update touched, by id.
    UpdateRooms(Vec<String>),
}

/// What the sliding sync loop saw.
#[derive(Debug, Clone)]
pub enum SyncInput {
    /// The sync stream yielded: `None` when it ended, `Some(Err)` when it
    /// failed, `Some(Ok(rooms))` with the rooms an update touched.
    Sync(Option<Result<Vec<String>, ()>>),
    /// The list of known rooms changed.
    RoomsChanged,
}

/// What the sliding sync loop does next.
#[derive(Debug, Clone)]
pub enum SyncStep {
    /// Send this response to the page.
    Send(Response),
    /// Subscribe again to every known room.
    Resubscribe,
    /// Stop syncing.
    Stop,
}

/// Decides the next step of the sliding sync loop: an update is passed on, a
/// change of the room list renews the room subscriptions, and the end or a
/// failure of the sync stream stops the loop.
pub fn sync_step(input: SyncInput) -> (r: SyncStep)
    ensures
        match input {
            SyncInput::Sync(Some(Ok(rooms))) => r matches SyncStep::Send(Response::UpdateRooms(x))
                && x@ == rooms@,
            SyncInput::Sync(_) => r is Stop,
            SyncInput::RoomsChanged => r is Resubscribe,
        },
{
    match input {
        SyncInput::Sync(Some(Ok(rooms))) => SyncStep::Send(Response::UpdateRooms(rooms)),
        SyncInput::Sync(_) => SyncStep::Stop,
        SyncInput::RoomsChanged => SyncStep::Resubscribe,
    }
}

} // verus!
