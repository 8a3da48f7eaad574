//! Room avatars: which rooms to fetch an avatar for, and what comes back.
use vstd::prelude::*;

use super::messages::note_event;
use crate::text::opt_text;

verus! {

/// The width and height, in pixels, of the avatar thumbnails that are fetched.
pub const AVATAR_THUMBNAIL_SIZE: u32 = 36;

/// A response of the avatars worker.
#[derive(Debug, Clone)]
pub enum Response {
    /// The avatar of a room, as image bytes; none when the room has none.
    RoomAvatar(String, Option<Vec<u8>>),
}

/// Whether the avatar of a room must be fetched again after an avatar event
/// with id `event_id`: it must, unless the event is the one seen last; the
/// event becomes the one seen last.
pub fn avatar_changed(last_event: &mut Option<String>, event_id: &String) -> (r: bool)
    ensures
        r == (opt_text(*old(last_event)) != Some(event_id@)),
        opt_text(*final(last_event)) == Some(event_id@),
{
    note_event(last_event, event_id)
}

/// The answer for `room`, given the avatar that was fetched: none when it
/// could not be fetched, and otherwise the room with its avatar bytes.
pub fn retrieve_avatar(room: String, fetched: Option<Option<Vec<u8>>>) -> (r: Option<Response>)
    ensures
        match fetched {
            None => r is None,
            Some(a) => r matches Some(Response::RoomAvatar(x, b)) && x@ == room@ && b == a,
        },
{
    match fetched {
        None => None,
        Some(a) => Some(Response::RoomAvatar(room, a)),
    }
}

} // verus!
