use iced_matrix_client::page::chat::components::{room_name, room_short_name, space_heading, RoomLabel};
use iced_matrix_client::page::chat::message::{render_all, render_message_content};
use iced_matrix_client::page::chat::{Message, Page, Task};
use iced_matrix_client::tasks::{belongs_to_space, ParentSpace};
use iced_matrix_client::worker::avatars::Response as AvatarResponse;
use iced_matrix_client::worker::messages::{MessageContent, Request, Response};
use iced_matrix_client::worker::sliding_sync::Response as SyncResponse;

fn s(x: &str) -> String {
    x.to_string()
}

fn label(display: Option<&str>, name: Option<&str>) -> RoomLabel {
    RoomLabel { display_name: display.map(s), name: name.map(s), room_id: s("!room:hs") }
}

fn line(sender: Option<&str>, text: &str) -> MessageContent {
    MessageContent { display_name: sender.map(s), sender: sender.map(s), content: s(text) }
}

fn page() -> Page {
    let (page, task) = Page::boot();
    assert!(matches!(task, Task::Idle));
    page
}

fn contents(page: &Page, room: &str) -> Vec<(String, String)> {
    page.messages_of(room)
        .expect("lines for the room")
        .iter()
        .map(|m| (m.sender.clone(), m.content.clone()))
        .collect()
}

#[test]
fn room_names_fall_back() {
    assert_eq!(room_name(&label(Some("Display"), Some("Name"))), "Display");
    assert_eq!(room_name(&label(None, Some("Name"))), "Name");
    assert_eq!(room_name(&label(None, None)), "Unknown Room");
    assert_eq!(space_heading(&label(Some("Display"), Some("Name"))), "Display");
    assert_eq!(space_heading(&label(None, Some("Name"))), "Name");
    assert_eq!(space_heading(&label(None, None)), "!room:hs");
}

#[test]
fn short_names_take_two_alphanumerics() {
    assert_eq!(room_short_name(&label(Some("Rust Lang"), None)), "Ru");
    assert_eq!(room_short_name(&label(Some("# a-b c"), None)), "ab");
    assert_eq!(room_short_name(&label(Some("!x"), None)), "x");
    assert_eq!(room_short_name(&label(Some("--"), None)), "");
    assert_eq!(room_short_name(&label(None, None)), "Un");
    // a letter with a combining accent is one grapheme; only the letter is kept
    assert_eq!(room_short_name(&label(Some("e\u{301}t\u{e9}"), None)), "et");
    assert_eq!(room_short_name(&label(Some("Ωmega"), None)), "Ωm");
}

#[test]
fn rendered_lines_name_their_sender() {
    let user = render_message_content(&line(Some("@ann:hs"), "hello"));
    assert_eq!(user.sender, "@ann:hs");
    assert_eq!(user.content, "hello");
    let system = render_message_content(&line(None, "room has been created"));
    assert_eq!(system.sender, "# system");
    assert_eq!(system.content, "room has been created");
    let all = render_all(&vec![line(None, "a"), line(Some("@b:hs"), "b")]);
    assert_eq!(all.len(), 2);
    assert_eq!(all[0].sender, "# system");
    assert_eq!(all[1].sender, "@b:hs");
}

#[test]
fn chat_page_starts_empty() {
    let page = page();
    assert_eq!(page.current_space(), None);
    assert_eq!(page.current_room(), None);
    assert!(page.space_rooms().is_empty());
    assert_eq!(page.text(), "");
    assert!(!page.needs_verification());
    assert!(page.messages_of("!r:hs").is_none());
    assert!(page.avatar_of("!r:hs").is_none());
}

#[test]
fn opening_a_space_then_adding_rooms() {
    let mut page = page();
    match page.update(Message::OpenSpace(s("!space:hs"))) {
        Task::LoadSpaceRooms(space) => assert_eq!(space, "!space:hs"),
        _ => panic!("expected the rooms of the space to be loaded"),
    }
    assert_eq!(page.current_space(), Some("!space:hs"));
    assert!(matches!(
        page.update(Message::AddSpaceRoom { space: s("!space:hs"), room: s("!a:hs") }),
        Task::Idle
    ));
    page.update(Message::AddSpaceRoom { space: s("!space:hs"), room: s("!b:hs") });
    assert_eq!(page.space_rooms(), &vec![s("!a:hs"), s("!b:hs")]);
    // opening another space empties the list
    page.update(Message::OpenSpace(s("!other:hs")));
    assert!(page.space_rooms().is_empty());
}

#[test]
fn stale_space_rooms_are_ignored() {
    let mut page = page();
    page.update(Message::AddSpaceRoom { space: s("!space:hs"), room: s("!a:hs") });
    assert!(page.space_rooms().is_empty());
    page.update(Message::OpenSpace(s("!new:hs")));
    page.update(Message::AddSpaceRoom { space: s("!old:hs"), room: s("!a:hs") });
    assert!(page.space_rooms().is_empty());
}

#[test]
fn opening_a_room_requests_its_messages() {
    let mut page = page();
    match page.update(Message::OpenRoom(s("!r:hs"))) {
        Task::Messages(Request::LatestMessages(room)) => assert_eq!(room, "!r:hs"),
        _ => panic!("expected a request for messages"),
    }
    assert_eq!(page.current_room(), Some("!r:hs"));
}

#[test]
fn typing_and_settings() {
    let mut page = page();
    assert!(matches!(page.update(Message::UpdateMessage(s("draft"))), Task::Idle));
    assert_eq!(page.text(), "draft");
    assert!(matches!(page.update(Message::OpenSettings), Task::OpenSettings));
    assert!(matches!(page.update(Message::SyncUpdate(SyncResponse::UpdateRooms(vec![s("!a:hs")]))), Task::Idle));
    assert!(matches!(page.update(Message::VerificationUpdate), Task::Idle));
    assert_eq!(page.text(), "draft");
}

#[test]
fn history_replaces_and_new_messages_append() {
    let mut page = page();
    page.update(Message::MessagesUpdate(Response::NewMessage(s("!r:hs"), line(Some("@a:hs"), "early"))));
    assert_eq!(contents(&page, "!r:hs"), vec![(s("@a:hs"), s("early"))]);
    page.update(Message::MessagesUpdate(Response::Messages(
        s("!r:hs"),
        vec![line(None, "created"), line(Some("@b:hs"), "hi")],
    )));
    assert_eq!(contents(&page, "!r:hs"), vec![(s("# system"), s("created")), (s("@b:hs"), s("hi"))]);
    page.update(Message::MessagesUpdate(Response::NewMessage(s("!r:hs"), line(Some("@a:hs"), "new"))));
    assert_eq!(
        contents(&page, "!r:hs"),
        vec![(s("# system"), s("created")), (s("@b:hs"), s("hi")), (s("@a:hs"), s("new"))]
    );
    page.update(Message::MessagesUpdate(Response::NewMessage(s("!other:hs"), line(None, "x"))));
    assert_eq!(contents(&page, "!r:hs").len(), 3);
    assert_eq!(contents(&page, "!other:hs"), vec![(s("# system"), s("x"))]);
}

#[test]
fn avatars_are_stored_per_room() {
    let mut page = page();
    page.update(Message::AvatarsUpdate(AvatarResponse::RoomAvatar(s("!r:hs"), Some(vec![7, 8]))));
    assert_eq!(page.avatar_of("!r:hs"), Some(&Some(vec![7, 8])));
    page.update(Message::AvatarsUpdate(AvatarResponse::RoomAvatar(s("!r:hs"), None)));
    assert_eq!(page.avatar_of("!r:hs"), Some(&None));
    assert!(page.avatar_of("!q:hs").is_none());
}

#[test]
fn rooms_under_a_space() {
    let space = s("!space:hs");
    let verified = Some(vec![ParentSpace::Unverified, ParentSpace::WithPowerlevel(s("!space:hs"))]);
    assert!(belongs_to_space(Some(&space), &verified, false));
    let other = Some(vec![ParentSpace::Reciprocal(s("!other:hs"))]);
    assert!(!belongs_to_space(Some(&space), &other, false));
    let unverified_only = Some(vec![ParentSpace::Unverified]);
    assert!(!belongs_to_space(Some(&space), &unverified_only, false));
    assert!(!belongs_to_space(Some(&space), &None, false));
}

#[test]
fn rooms_without_a_space() {
    assert!(belongs_to_space(None, &Some(vec![]), false));
    assert!(belongs_to_space(None, &Some(vec![ParentSpace::Unverified]), false));
    assert!(!belongs_to_space(None, &Some(vec![]), true));
    assert!(!belongs_to_space(None, &Some(vec![ParentSpace::Reciprocal(s("!p:hs"))]), false));
    assert!(!belongs_to_space(None, &None, false));
}
