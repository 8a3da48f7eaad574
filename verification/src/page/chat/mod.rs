//! The chat page: spaces, the rooms of the open space, and the messages of
//! the open room.
use vstd::hash_map::StringHashMap;
use vstd::prelude::*;

use crate::text::opt_text;
use crate::worker::{avatars, messages, sliding_sync};

pub mod components;
pub mod message;

use message::{copy_all, render_all, render_message_content, rendered, RenderedMessage, RenderedMessageView};

verus! {

/// A message of the chat page.
#[derive(Debug, Clone)]
pub enum Message {
    /// A space was picked in the space list.
    OpenSpace(String),
    /// A room was picked in the room list.
    OpenRoom(String),
    /// The text being typed changed.
    UpdateMessage(String),
    /// The settings button was pressed.
    OpenSettings,
    /// The sliding sync worker reported.
    SyncUpdate(sliding_sync::Response),
    /// The verification worker reported (it never does).
    VerificationUpdate,
    /// The messages worker answered.
    MessagesUpdate(messages::Response),
    /// The avatars worker answered.
    AvatarsUpdate(avatars::Response),
    /// A room was found to belong to a space.
    AddSpaceRoom { space: String, room: String },
    /// A link in a message was clicked.
    UrlClicked(String),
}

/// What the application must do after the chat page handled a message.
#[derive(Debug, Clone)]
pub enum Task {
    /// Nothing to do.
    Idle,
    /// Find the joined rooms of this space and report each with `AddSpaceRoom`.
    LoadSpaceRooms(String),
    /// Hand this request to the messages worker.
    Messages(messages::Request),
    /// Open the settings modal.
    OpenSettings,
}

/// The view of a [`Task`].
pub enum TaskView {
    Idle,
    LoadSpaceRooms(Seq<char>),
    LatestMessages(Seq<char>),
    OpenSettings,
}

impl View for Task {
    type V = TaskView;

    open spec fn view(&self) -> TaskView {
        match self {
            Task::Idle => TaskView::Idle,
            Task::LoadSpaceRooms(s) => TaskView::LoadSpaceRooms(s@),
            Task::Messages(messages::Request::LatestMessages(r)) => TaskView::LatestMessages(r@),
            Task::OpenSettings => TaskView::OpenSettings,
        }
    }
}

/// The state of the chat page.
pub struct Page {
    room_avatars: StringHashMap<Option<Vec<u8>>>,
    current_space: Option<String>,
    current_room: Option<String>,
    messages: StringHashMap<Vec<RenderedMessage>>,
    text: String,
    space_rooms: Vec<String>,
    needs_verification: bool,
}

/// The view of a [`Page`].
pub struct PageView {
    /// The avatar of each room whose avatar was fetched; none for a room without one.
    pub room_avatars: Map<Seq<char>, Option<Seq<u8>>>,
    /// The open space, if any.
    pub current_space: Option<Seq<char>>,
    /// The open room, if any.
    pub current_room: Option<Seq<char>>,
    /// The lines loaded for each room.
    pub messages: Map<Seq<char>, Seq<RenderedMessageView>>,
    /// The text being typed.
    pub text: Seq<char>,
    /// The rooms found in the open space, in the order they were found.
    pub space_rooms: Seq<Seq<char>>,
    /// Whether the device still has to be verified.
    pub needs_verification: bool,
}

/// The view of an optional avatar.
pub open spec fn avatar_view(a: Option<Vec<u8>>) -> Option<Seq<u8>> {
    match a {
        Some(v) => Some(v@),
        None => None,
    }
}

/// The view of a list of lines.
pub open spec fn lines_view(v: Vec<RenderedMessage>) -> Seq<RenderedMessageView> {
    v@.map_values(|m: RenderedMessage| m@)
}

impl View for Page {
    type V = PageView;

    closed spec fn view(&self) -> PageView {
        PageView {
            room_avatars: self.room_avatars@.map_values(|a: Option<Vec<u8>>| avatar_view(a)),
            current_space: opt_text(self.current_space),
            current_room: opt_text(self.current_room),
            messages: self.messages@.map_values(|v: Vec<RenderedMessage>| lines_view(v)),
            text: self.text@,
            space_rooms: self.space_rooms@.map_values(|s: String| s@),
            needs_verification: self.needs_verification,
        }
    }
}

/// The chat page as it starts: nothing open, nothing loaded.
pub open spec fn initial_view() -> PageView {
    PageView {
        room_avatars: Map::empty(),
        current_space: None,
        current_room: None,
        messages: Map::empty(),
        text: Seq::empty(),
        space_rooms: Seq::empty(),
        needs_verification: false,
    }
}

/// The lines of `room` after a new line arrives for it.
pub open spec fn appended(v: PageView, room: Seq<char>, line: RenderedMessageView) -> Seq<RenderedMessageView> {
    if v.messages.contains_key(room) {
        v.messages[room].push(line)
    } else {
        seq![line]
    }
}

/// The state of the chat page after it handled `message`.
pub open spec fn next(v: PageView, message: Message) -> PageView {
    match message {
        Message::OpenSpace(space) => PageView {
            space_rooms: Seq::empty(),
            current_space: Some(space@),
            ..v
        },
        Message::OpenRoom(room) => PageView { current_room: Some(room@), ..v },
        Message::AddSpaceRoom { space, room } => if v.current_space == Some(space@) {
            PageView { space_rooms: v.space_rooms.push(room@), ..v }
        } else {
            v
        },
        Message::UpdateMessage(t) => PageView { text: t@, ..v },
        Message::MessagesUpdate(messages::Response::Messages(room, lines)) => PageView {
            messages: v.messages.insert(
                room@,
                lines@.map_values(|m: messages::MessageContent| rendered(m@)),
            ),
            ..v
        },
        Message::MessagesUpdate(messages::Response::NewMessage(room, line)) => PageView {
            messages: v.messages.insert(room@, appended(v, room@, rendered(line@))),
            ..v
        },
        Message::AvatarsUpdate(avatars::Response::RoomAvatar(room, avatar)) => PageView {
            room_avatars: v.room_avatars.insert(room@, avatar_view(avatar)),
            ..v
        },
        _ => v,
    }
}

/// The task the chat page answers `message` with.
pub open spec fn task_for(message: Message) -> TaskView {
    match message {
        Message::OpenSpace(space) => TaskView::LoadSpaceRooms(space@),
        Message::OpenRoom(room) => TaskView::LatestMessages(room@),
        Message::OpenSettings => TaskView::OpenSettings,
        _ => TaskView::Idle,
    }
}

impl Page {
    /// Opens the chat page.
    pub fn boot() -> (r: (Page, Task))
        ensures
            r.0@ == initial_view(),
            r.1@ == TaskView::Idle,
    {
        let page = Page {
            room_avatars: StringHashMap::new(),
            current_space: None,
            current_room: None,
            messages: StringHashMap::new(),
            text: String::new(),
            space_rooms: Vec::new(),
            needs_verification: false,
        };
        assert(page@.room_avatars =~= Map::empty());
        assert(page@.messages =~= Map::empty());
        assert(page@.space_rooms =~= Seq::empty());
        (page, Task::Idle)
    }

    /// The open space, if any.
    pub fn current_space(&self) -> (r: Option<&str>)
        ensures
            match r {
                Some(x) => self@.current_space == Some(x@),
                None => self@.current_space is None,
            },
    {
        match &self.current_space {
            Some(s) => Some(s.as_str()),
            None => None,
        }
    }

    /// The open room, if any.
    pub fn current_room(&self) -> (r: Option<&str>)
        ensures
            match r {
                Some(x) => self@.current_room == Some(x@),
                None => self@.current_room is None,
            },
    {
        match &self.current_room {
            Some(s) => Some(s.as_str()),
            None => None,
        }
    }

    /// The rooms found in the open space.
    pub fn space_rooms(&self) -> (r: &Vec<String>)
        ensures
            r@.map_values(|s: String| s@) == self@.space_rooms,
    {
        &self.space_rooms
    }

    /// The text being typed.
    pub fn text(&self) -> (r: &str)
        ensures
            r@ == self@.text,
    {
        self.text.as_str()
    }

    /// Whether the device still has to be verified.
    pub fn needs_verification(&self) -> (r: bool)
        ensures
            r == self@.needs_verification,
    {
        self.needs_verification
    }

    /// The lines loaded for `room`, if any were.
    pub fn messages_of(&self, room: &str) -> (r: Option<&Vec<RenderedMessage>>)
        ensures
            match r {
                Some(v) => self@.messages.contains_key(room@) && lines_view(*v) == self@.messages[room@],
                None => !self@.messages.contains_key(room@),
            },
    {
        self.messages.get(room)
    }

    /// The avatar fetched for `room`, if one was fetched: none inside when the
    /// room has no avatar.
    pub fn avatar_of(&self, room: &str) -> (r: Option<&Option<Vec<u8>>>)
        ensures
            match r {
                Some(a) => self@.room_avatars.contains_key(room@) && avatar_view(*a)
                    == self@.room_avatars[room@],
                None => !self@.room_avatars.contains_key(room@),
            },
    {
        self.room_avatars.get(room)
    }

    /// Whether this page can handle `message`: a clicked link is not handled.
    pub open spec fn handles(message: Message) -> bool {
        !(message is UrlClicked)
    }

    /// Handles `message`.
    pub fn update(&mut self, message: Message) -> (r: Task)
        requires
            Page::handles(message),
        ensures
            final(self)@ == next(old(self)@, message),
            r@ == task_for(message),
    {
        let ghost v = self@;
        match message {
            Message::OpenSpace(space) => {
                self.space_rooms.clear();
                self.current_space = Some(space.clone());
                assert(self@.space_rooms =~= Seq::<Seq<char>>::empty());
                Task::LoadSpaceRooms(space)
            },
            Message::OpenRoom(room) => {
                self.current_room = Some(room.clone());
                Task::Messages(messages::Request::LatestMessages(room))
            },
            Message::AddSpaceRoom { space, room } => {
                let same = match &self.current_space {
                    Some(c) => c.eq(&space),
                    None => false,
                };
                if same {
                    self.space_rooms.push(room);
                    assert(self@.space_rooms =~= v.space_rooms.push(room@));
                }
                Task::Idle
            },
            Message::UpdateMessage(t) => {
                self.text = t;
                Task::Idle
            },
            Message::OpenSettings => Task::OpenSettings,
            Message::SyncUpdate(_) => Task::Idle,
            Message::VerificationUpdate => Task::Idle,
            Message::MessagesUpdate(response) => {
                match response {
                    messages::Response::Messages(room, lines) => {
                        let list = render_all(&lines);
                        self.messages.insert(room, list);
                        assert(self@.messages =~= v.messages.insert(
                            room@,
                            lines@.map_values(|m: messages::MessageContent| rendered(m@)),
                        ));
                    },
                    messages::Response::NewMessage(room, line) => {
                        let mut list = match self.messages.get(room.as_str()) {
                            Some(old) => copy_all(old),
                            None => Vec::new(),
                        };
                        list.push(render_message_content(&line));
                        assert(lines_view(list) =~= appended(v, room@, rendered(line@)));
                        self.messages.insert(room, list);
                        assert(self@.messages =~= v.messages.insert(
                            room@,
                            appended(v, room@, rendered(line@)),
                        ));
                    },
                }
                Task::Idle
            },
            Message::AvatarsUpdate(avatars::Response::RoomAvatar(room, avatar)) => {
                self.room_avatars.insert(room, avatar);
                assert(self@.room_avatars =~= v.room_avatars.insert(room@, avatar_view(avatar)));
                Task::Idle
            },
            Message::UrlClicked(_) => Task::Idle,
        }
    }
}

/// A room found for the space that was just opened is listed under it,
/// after the list was emptied by the opening.
pub proof fn lemma_open_space_then_add_lists_room(v: PageView, space: String, room: String, same_space: String)
    requires
        same_space@ == space@,
    ensures
        next(
            next(v, Message::OpenSpace(space)),
            Message::AddSpaceRoom { space: same_space, room },
        ).space_rooms == seq![room@],
{
    assert(Seq::<Seq<char>>::empty().push(room@) =~= seq![room@]);
}

/// A room reported for a space other than the open one is ignored: it comes
/// from a space that was left.
pub proof fn lemma_stale_space_room_ignored(v: PageView, space: String, room: String)
    requires
        v.current_space != Some(space@),
    ensures
        next(v, Message::AddSpaceRoom { space, room }) == v,
{
}

/// Loaded history replaces what a room showed, and a new message is appended
/// after it; other rooms are left as they were.
pub proof fn lemma_history_then_new_message(
    v: PageView,
    room: String,
    same_room: String,
    lines: Vec<messages::MessageContent>,
    line: messages::MessageContent,
    other: Seq<char>,
)
    requires
        same_room@ == room@,
        other != room@,
    ensures
        ({
            let after = next(
                next(v, Message::MessagesUpdate(messages::Response::Messages(room, lines))),
                Message::MessagesUpdate(messages::Response::NewMessage(same_room, line)),
            );
            &&& after.messages[room@] == lines@.map_values(
                |m: messages::MessageContent| rendered(m@),
            ).push(rendered(line@))
            &&& after.messages.contains_key(other) == v.messages.contains_key(other)
            &&& v.messages.contains_key(other) ==> after.messages[other] == v.messages[other]
        }),
{
}

/// The avatar stored for a room is the one last fetched for it.
pub proof fn lemma_avatar_read_back(v: PageView, room: String, avatar: Option<Vec<u8>>)
    ensures
        next(v, Message::AvatarsUpdate(avatars::Response::RoomAvatar(room, avatar))).room_avatars[room@]
            == avatar_view(avatar),
{
}

/// Storing the avatar of one room leaves every other room's avatar, and
/// everything else on the page, as it was.
pub proof fn lemma_avatar_update_keeps_others(v: PageView, room: String, avatar: Option<Vec<u8>>, other: Seq<char>)
    requires
        other != room@,
    ensures
        ({
            let after = next(v, Message::AvatarsUpdate(avatars::Response::RoomAvatar(room, avatar)));
            &&& after.room_avatars.contains_key(room@)
            &&& after.room_avatars.contains_key(other) == v.room_avatars.contains_key(other)
            &&& v.room_avatars.contains_key(other) ==> after.room_avatars[other] == v.room_avatars[other]
            &&& after.messages == v.messages
            &&& after.current_space == v.current_space
            &&& after.current_room == v.current_room
            &&& after.space_rooms == v.space_rooms
            &&& after.text == v.text
        }),
{
}

/// Loading or receiving lines of one room leaves every other room's lines,
/// and the avatars, as they were.
pub proof fn lemma_messages_update_keeps_others(v: PageView, response: messages::Response, other: Seq<char>)
    requires
        match response {
            messages::Response::Messages(room, _) => other != room@,
            messages::Response::NewMessage(room, _) => other != room@,
        },
    ensures
        ({
            let after = next(v, Message::MessagesUpdate(response));
            &&& after.messages.contains_key(other) == v.messages.contains_key(other)
            &&& v.messages.contains_key(other) ==> after.messages[other] == v.messages[other]
            &&& after.room_avatars == v.room_avatars
        }),
{
}

} // verus!
