use iced_matrix_client::worker::avatars::{avatar_changed, retrieve_avatar, Response as AvatarResponse};
use iced_matrix_client::worker::messages::{
    handle_message, handle_messages, handle_request, new_message, render_message_event,
    render_state_event, retrieve_latest_messages, state_message, HistoryEntry, MembershipChange,
    MessageContent, MessageLikeEvent, Request, RequestStep, Response, StateEvent,
    SyncTimelineEvent, TimelineEvent, LATEST_MESSAGES_LIMIT,
};
use iced_matrix_client::worker::sliding_sync::{sync_step, Response as SyncResponse, SyncInput, SyncStep};

fn s(x: &str) -> String {
    x.to_string()
}

fn system_text(m: Option<MessageContent>) -> String {
    let m = m.expect("a line");
    assert_eq!(m.sender, None);
    assert_eq!(m.display_name, None);
    m.content
}

fn member(change: MembershipChange) -> String {
    system_text(render_state_event(&StateEvent::RoomMember { sender: s("@bob:hs"), change: Some(change) }))
}

fn event(id: &str, ev: TimelineEvent) -> Option<SyncTimelineEvent> {
    Some(SyncTimelineEvent { event_id: s(id), event: ev })
}

fn message(sender: &str, body: &str) -> TimelineEvent {
    TimelineEvent::MessageLike(MessageLikeEvent::RoomMessage { sender: s(sender), body: Some(s(body)) })
}

#[test]
fn state_event_texts() {
    let cases = [
        (StateEvent::RoomAliases, "room aliases have changed"),
        (StateEvent::RoomAvatar, "room avatar has changed"),
        (StateEvent::RoomCanonicalAlias, "room canonical alias has changed"),
        (StateEvent::RoomCreate, "room has been created"),
        (StateEvent::RoomEncryption, "room encryption has changed"),
        (StateEvent::RoomGuestAccess, "room guest access has changed"),
        (StateEvent::RoomHistoryVisibility, "room history visibility has changed"),
        (StateEvent::RoomJoinRules, "room join rules have changed"),
        (StateEvent::RoomPinnedEvents, "room pinned events have been changed"),
        (StateEvent::RoomPowerLevels, "room power levels have been changed"),
        (StateEvent::RoomServerAcl, "room acl has been changed"),
    ];
    for (ev, text) in cases {
        assert_eq!(system_text(render_state_event(&ev)), text);
    }
}

#[test]
fn state_events_with_content() {
    assert_eq!(
        system_text(render_state_event(&StateEvent::RoomName { name: Some(s("Lobby")) })),
        "room name has been changed to \"Lobby\""
    );
    assert_eq!(
        system_text(render_state_event(&StateEvent::RoomTopic { topic: Some(s("rust")) })),
        "room topic was changed to \"rust\""
    );
    assert_eq!(
        system_text(render_state_event(&StateEvent::RoomTombstone { replacement_room: Some(s("!new:hs")) })),
        "room has been tombstoned and is moving to !new:hs"
    );
    assert_eq!(
        system_text(render_state_event(&StateEvent::Other { event_type: s("m.room.third_party_invite") })),
        "//// unhandled state event type m.room.third_party_invite"
    );
}

#[test]
fn redacted_state_events_show_nothing() {
    assert!(render_state_event(&StateEvent::RoomName { name: None }).is_none());
    assert!(render_state_event(&StateEvent::RoomTopic { topic: None }).is_none());
    assert!(render_state_event(&StateEvent::RoomTombstone { replacement_room: None }).is_none());
    assert!(render_state_event(&StateEvent::RoomMember { sender: s("@a:hs"), change: None }).is_none());
}

#[test]
fn membership_texts() {
    assert_eq!(member(MembershipChange::Unchanged), "@bob:hs is unchanged");
    assert_eq!(member(MembershipChange::Error), "@bob:hs had a malformed membership change");
    assert_eq!(member(MembershipChange::Joined), "@bob:hs joined");
    assert_eq!(member(MembershipChange::Left), "@bob:hs left");
    assert_eq!(member(MembershipChange::Banned), "@bob:hs was banned");
    assert_eq!(member(MembershipChange::Unbanned), "@bob:hs was unbanned");
    assert_eq!(member(MembershipChange::Kicked), "@bob:hs was kicked");
    assert_eq!(member(MembershipChange::Invited), "@bob:hs was invited");
    assert_eq!(member(MembershipChange::KickedAndBanned), "@bob:hs was kicked and banned");
    assert_eq!(member(MembershipChange::InvitationAccepted), "@bob:hs accepted invitation");
    assert_eq!(member(MembershipChange::InvitationRejected), "@bob:hs rejected invitation");
    assert_eq!(member(MembershipChange::InvitationRevoked), "@bob:hs had their invitation revoked");
    assert_eq!(member(MembershipChange::Knocked), "@bob:hs knocked");
    assert_eq!(member(MembershipChange::KnockAccepted), "@bob:hs knock was accepted");
    assert_eq!(member(MembershipChange::KnockRetracted), "@bob:hs knock was retracted");
    assert_eq!(member(MembershipChange::KnockDenied), "@bob:hs knock was denied");
    assert_eq!(member(MembershipChange::NotImplemented), "//// unhandled membership change event");
}

#[test]
fn profile_change_texts() {
    let p = |d, a| member(MembershipChange::ProfileChanged { displayname_changed: d, avatar_url_changed: a });
    assert_eq!(p(true, true), "@bob:hs display name and avatar changed");
    assert_eq!(p(true, false), "@bob:hs display name changed");
    assert_eq!(p(false, true), "@bob:hs avatar changed");
    assert_eq!(p(false, false), "@bob:hs had no change");
}

#[test]
fn message_event_texts() {
    let m = render_message_event(&MessageLikeEvent::RoomMessage { sender: s("@ann:hs"), body: Some(s("hi **there**")) })
        .unwrap();
    assert_eq!(m.sender, Some(s("@ann:hs")));
    assert_eq!(m.display_name, Some(s("@ann:hs")));
    assert_eq!(m.content, "hi **there**");
    assert!(render_message_event(&MessageLikeEvent::RoomMessage { sender: s("@ann:hs"), body: None }).is_none());
    assert_eq!(
        system_text(render_message_event(&MessageLikeEvent::RoomEncrypted { sender: s("@ann:hs") })),
        "unable to decrypt message from @ann:hs"
    );
    assert_eq!(
        system_text(render_message_event(&MessageLikeEvent::RoomRedaction { redacts: Some(Some(s("$e1"))) })),
        "redacting event $e1"
    );
    assert_eq!(
        system_text(render_message_event(&MessageLikeEvent::RoomRedaction { redacts: Some(None) })),
        "unknown event redacted"
    );
    assert!(render_message_event(&MessageLikeEvent::RoomRedaction { redacts: None }).is_none());
    assert_eq!(
        system_text(render_message_event(&MessageLikeEvent::Other {
            event_type: s("m.reaction"),
            sender: s("@ann:hs")
        })),
        "//// unhandled event type m.reaction from @ann:hs"
    );
}

#[test]
fn state_message_has_no_sender() {
    let m = state_message(s("hello"));
    assert_eq!(m.content, "hello");
    assert_eq!(m.sender, None);
    assert_eq!(m.display_name, None);
}

#[test]
fn repeated_event_is_dropped() {
    let mut last = None;
    let ev = event("$1", message("@a:hs", "one"));
    assert_eq!(handle_message(&mut last, &ev).unwrap().content, "one");
    assert_eq!(last, Some(s("$1")));
    assert!(handle_message(&mut last, &ev).is_none());
    assert_eq!(last, Some(s("$1")));
    let ev2 = event("$2", message("@a:hs", "two"));
    assert_eq!(handle_message(&mut last, &ev2).unwrap().content, "two");
    assert_eq!(last, Some(s("$2")));
    // the first event again is not the last seen one, so it shows again
    assert_eq!(handle_message(&mut last, &ev).unwrap().content, "one");
}

#[test]
fn unreadable_event_is_ignored() {
    let mut last = Some(s("$9"));
    assert!(handle_message(&mut last, &None).is_none());
    assert_eq!(last, Some(s("$9")));
}

#[test]
fn event_showing_nothing_still_becomes_last_seen() {
    let mut last = None;
    let ev = event("$3", TimelineEvent::State(StateEvent::RoomTopic { topic: None }));
    assert!(handle_message(&mut last, &ev).is_none());
    assert_eq!(last, Some(s("$3")));
}

#[test]
fn history_is_shown_oldest_first() {
    let chunk = vec![
        HistoryEntry::Decrypted(event("$3", message("@a:hs", "third"))),
        HistoryEntry::UnableToDecrypt { reason: s("MissingMegolmSession") },
        HistoryEntry::PlainText(None),
        HistoryEntry::PlainText(event("$1", message("@b:hs", "first"))),
    ];
    let mut rendered = vec![state_message(s("before"))];
    handle_messages(&mut rendered, &chunk);
    let texts: Vec<&str> = rendered.iter().map(|m| m.content.as_str()).collect();
    assert_eq!(texts, vec!["before", "first", "unable to decrypt:\nMissingMegolmSession", "third"]);
    assert_eq!(rendered[1].sender, Some(s("@b:hs")));
}

#[test]
fn history_pages_concatenate_oldest_first() {
    let newer = vec![HistoryEntry::PlainText(event("$4", message("@a:hs", "four")))];
    let older = vec![
        HistoryEntry::PlainText(event("$2", message("@a:hs", "two"))),
        HistoryEntry::PlainText(event("$1", message("@a:hs", "one"))),
    ];
    let mut both = newer.clone();
    both.extend(older.clone());
    let mut all = Vec::new();
    handle_messages(&mut all, &both);
    let mut split = Vec::new();
    handle_messages(&mut split, &older);
    handle_messages(&mut split, &newer);
    let a: Vec<String> = all.into_iter().map(|m| m.content).collect();
    let b: Vec<String> = split.into_iter().map(|m| m.content).collect();
    assert_eq!(a, vec!["one", "two", "four"]);
    assert_eq!(a, b);
}

#[test]
fn latest_messages_response() {
    assert!(retrieve_latest_messages(s("!r:hs"), None).is_none());
    let chunk = vec![HistoryEntry::PlainText(event("$1", message("@a:hs", "hey")))];
    match retrieve_latest_messages(s("!r:hs"), Some(chunk)) {
        Some(Response::Messages(room, lines)) => {
            assert_eq!(room, "!r:hs");
            assert_eq!(lines.len(), 1);
            assert_eq!(lines[0].content, "hey");
        }
        _ => panic!("expected the messages of the room"),
    }
    assert_eq!(LATEST_MESSAGES_LIMIT, 50);
}

#[test]
fn new_message_response() {
    let mut last = None;
    let ev = event("$5", message("@a:hs", "new"));
    match new_message(&mut last, s("!r:hs"), &ev) {
        Some(Response::NewMessage(room, m)) => {
            assert_eq!(room, "!r:hs");
            assert_eq!(m.content, "new");
        }
        _ => panic!("expected a new message"),
    }
    assert!(new_message(&mut last, s("!r:hs"), &ev).is_none());
}

#[test]
fn request_steps() {
    match handle_request(Some(Request::LatestMessages(s("!r:hs")))) {
        RequestStep::Fetch(room) => assert_eq!(room, "!r:hs"),
        RequestStep::Stop => panic!("expected a fetch"),
    }
    assert!(matches!(handle_request(None), RequestStep::Stop));
}

#[test]
fn avatar_events_are_deduplicated() {
    let mut last = None;
    assert!(avatar_changed(&mut last, &s("$a")));
    assert!(!avatar_changed(&mut last, &s("$a")));
    assert!(avatar_changed(&mut last, &s("$b")));
    assert_eq!(last, Some(s("$b")));
}

#[test]
fn avatar_responses() {
    assert!(retrieve_avatar(s("!r:hs"), None).is_none());
    match retrieve_avatar(s("!r:hs"), Some(Some(vec![1, 2, 3]))) {
        Some(AvatarResponse::RoomAvatar(room, Some(bytes))) => {
            assert_eq!(room, "!r:hs");
            assert_eq!(bytes, vec![1, 2, 3]);
        }
        _ => panic!("expected an avatar"),
    }
    match retrieve_avatar(s("!r:hs"), Some(None)) {
        Some(AvatarResponse::RoomAvatar(_, None)) => {}
        _ => panic!("expected a room without avatar"),
    }
}

#[test]
fn sync_steps() {
    match sync_step(SyncInput::Sync(Some(Ok(vec![s("!a:hs"), s("!b:hs")])))) {
        SyncStep::Send(SyncResponse::UpdateRooms(rooms)) => assert_eq!(rooms, vec!["!a:hs", "!b:hs"]),
        _ => panic!("expected an update"),
    }
    assert!(matches!(sync_step(SyncInput::Sync(Some(Err(())))), SyncStep::Stop));
    assert!(matches!(sync_step(SyncInput::Sync(None)), SyncStep::Stop));
    assert!(matches!(sync_step(SyncInput::RoomsChanged), SyncStep::Resubscribe));
}
