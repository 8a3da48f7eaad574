//! Turning timeline events of a room into the text lines the chat shows.
use vstd::prelude::*;

use crate::text::{copy_opt, join2, join3, join4, opt_text, owned};

verus! {

/// A line of the room timeline, ready to be shown.
#[derive(Debug, Clone)]
pub struct MessageContent {
    pub display_name: Option<String>,
    pub sender: Option<String>,
    pub content: String,
}

/// The view of a [`MessageContent`].
pub struct MessageContentView {
    pub display_name: Option<Seq<char>>,
    pub sender: Option<Seq<char>>,
    pub content: Seq<char>,
}

impl View for MessageContent {
    type V = MessageContentView;

    open spec fn view(&self) -> MessageContentView {
        MessageContentView {
            display_name: opt_text(self.display_name),
            sender: opt_text(self.sender),
            content: self.content@,
        }
    }
}

/// How a membership event changed the membership of its subject.
#[derive(Debug, Clone)]
pub enum MembershipChange {
    /// Nothing changed.
    Unchanged,
    /// The change could not be understood.
    Error,
    Joined,
    Left,
    Banned,
    Unbanned,
    Kicked,
    Invited,
    KickedAndBanned,
    InvitationAccepted,
    InvitationRejected,
    InvitationRevoked,
    Knocked,
    KnockAccepted,
    KnockRetracted,
    KnockDenied,
    /// The display name or the avatar changed.
    ProfileChanged { displayname_changed: bool, avatar_url_changed: bool },
    /// A change that has no rendering of its own.
    NotImplemented,
}

/// A state event of a room, with what the timeline shows of it.
#[derive(Debug, Clone)]
pub enum StateEvent {
    RoomAliases,
    RoomAvatar,
    RoomCanonicalAlias,
    RoomCreate,
    RoomEncryption,
    RoomGuestAccess,
    RoomHistoryVisibility,
    RoomJoinRules,
    /// A membership event; `change` is absent when the event was redacted.
    RoomMember { sender: String, change: Option<MembershipChange> },
    /// A room name event; `name` is absent when the event was redacted.
    RoomName { name: Option<String> },
    RoomPinnedEvents,
    RoomPowerLevels,
    RoomServerAcl,
    /// A tombstone; `replacement_room` is absent when the event was redacted.
    RoomTombstone { replacement_room: Option<String> },
    /// A topic event; `topic` is absent when the event was redacted.
    RoomTopic { topic: Option<String> },
    /// Any other state event, by its type.
    Other { event_type: String },
}

/// A message-like event of a room, with what the timeline shows of it.
#[derive(Debug, Clone)]
pub enum MessageLikeEvent {
    /// An event that is still encrypted.
    RoomEncrypted { sender: String },
    /// A message; `body` is absent when the event was redacted.
    RoomMessage { sender: String, body: Option<String> },
    /// A redaction; absent when the redaction itself was redacted, and
    /// otherwise holding the id of the redacted event where it is known.
    RoomRedaction { redacts: Option<Option<String>> },
    /// Any other message-like event, by its type.
    Other { event_type: String, sender: String },
}

/// An event of a room timeline.
#[derive(Debug, Clone)]
pub enum TimelineEvent {
    MessageLike(MessageLikeEvent),
    State(StateEvent),
}

/// A timeline event together with its id.
#[derive(Debug, Clone)]
pub struct SyncTimelineEvent {
    pub event_id: String,
    pub event: TimelineEvent,
}

/// An entry of a page of room history.
#[derive(Debug, Clone)]
pub enum HistoryEntry {
    /// An event that was decrypted; absent when it could not be read.
    Decrypted(Option<SyncTimelineEvent>),
    /// An event that could not be decrypted, with the reason as text.
    UnableToDecrypt { reason: String },
    /// An event that was never encrypted; absent when it could not be read.
    PlainText(Option<SyncTimelineEvent>),
}

/// A response of the messages worker.
#[derive(Debug, Clone)]
pub enum Response {
    /// The latest page of messages of a room, oldest first.
    Messages(String, Vec<MessageContent>),
    /// A new message of a room.
    NewMessage(String, MessageContent),
}

/// A request to the messages worker.
#[derive(Debug, Clone)]
pub enum Request {
    /// Load the latest messages of a room.
    LatestMessages(String),
}

/// The line shown for a system event with the given text.
pub open spec fn system_line(text: Seq<char>) -> MessageContentView {
    MessageContentView { display_name: None, sender: None, content: text }
}

/// The text shown for a change of membership of `sender`.
pub open spec fn membership_text(sender: Seq<char>, change: MembershipChange) -> Seq<char> {
    match change {
        MembershipChange::Unchanged => sender + " is unchanged"@,
        MembershipChange::Error => sender + " had a malformed membership change"@,
        MembershipChange::Joined => sender + " joined"@,
        MembershipChange::Left => sender + " left"@,
        MembershipChange::Banned => sender + " was banned"@,
        MembershipChange::Unbanned => sender + " was unbanned"@,
        MembershipChange::Kicked => sender + " was kicked"@,
        MembershipChange::Invited => sender + " was invited"@,
        MembershipChange::KickedAndBanned => sender + " was kicked and banned"@,
        MembershipChange::InvitationAccepted => sender + " accepted invitation"@,
        MembershipChange::InvitationRejected => sender + " rejected invitation"@,
        MembershipChange::InvitationRevoked => sender + " had their invitation revoked"@,
        MembershipChange::Knocked => sender + " knocked"@,
        MembershipChange::KnockAccepted => sender + " knock was accepted"@,
        MembershipChange::KnockRetracted => sender + " knock was retracted"@,
        MembershipChange::KnockDenied => sender + " knock was denied"@,
        MembershipChange::ProfileChanged { displayname_changed, avatar_url_changed } => {
            if displayname_changed && avatar_url_changed {
                sender + " display name and avatar changed"@
            } else if displayname_changed {
                sender + " display name changed"@
            } else if avatar_url_changed {
                sender + " avatar changed"@
            } else {
                sender + " had no change"@
            }
        },
        MembershipChange::NotImplemented => "//// unhandled membership change event"@,
    }
}

/// The text shown for a state event; none for a redacted event whose
/// rendering needs its content.
pub open spec fn state_event_text(ev: StateEvent) -> Option<Seq<char>> {
    match ev {
        StateEvent::RoomAliases => Some("room aliases have changed"@),
        StateEvent::RoomAvatar => Some("room avatar has changed"@),
        StateEvent::RoomCanonicalAlias => Some("room canonical alias has changed"@),
        StateEvent::RoomCreate => Some("room has been created"@),
        StateEvent::RoomEncryption => Some("room encryption has changed"@),
        StateEvent::RoomGuestAccess => Some("room guest access has changed"@),
        StateEvent::RoomHistoryVisibility => Some("room history visibility has changed"@),
        StateEvent::RoomJoinRules => Some("room join rules have changed"@),
        StateEvent::RoomMember { sender, change } => match change {
            Some(c) => Some(membership_text(sender@, c)),
            None => None,
        },
        StateEvent::RoomName { name } => match name {
            Some(n) => Some("room name has been changed to \""@ + n@ + "\""@),
            None => None,
        },
        StateEvent::RoomPinnedEvents => Some("room pinned events have been changed"@),
        StateEvent::RoomPowerLevels => Some("room power levels have been changed"@),
        StateEvent::RoomServerAcl => Some("room acl has been changed"@),
        StateEvent::RoomTombstone { replacement_room } => match replacement_room {
            Some(r) => Some("room has been tombstoned and is moving to "@ + r@),
            None => None,
        },
        StateEvent::RoomTopic { topic } => match topic {
            Some(t) => Some("room topic was changed to \""@ + t@ + "\""@),
            None => None,
        },
        StateEvent::Other { event_type } => Some("//// unhandled state event type "@ + event_type@),
    }
}

/// The line shown for a state event, if any.
pub open spec fn state_event_line(ev: StateEvent) -> Option<MessageContentView> {
    match state_event_text(ev) {
        Some(t) => Some(system_line(t)),
        None => None,
    }
}

/// The line shown for a message-like event, if any.
pub open spec fn message_event_line(ev: MessageLikeEvent) -> Option<MessageContentView> {
    match ev {
        MessageLikeEvent::RoomEncrypted { sender } => Some(
            system_line("unable to decrypt message from "@ + sender@),
        ),
        MessageLikeEvent::RoomMessage { sender, body } => match body {
            Some(b) => Some(
                MessageContentView { display_name: Some(sender@), sender: Some(sender@), content: b@ },
            ),
            None => None,
        },
        MessageLikeEvent::RoomRedaction { redacts } => match redacts {
            Some(Some(id)) => Some(system_line("redacting event "@ + id@)),
            Some(None) => Some(system_line("unknown event redacted"@)),
            None => None,
        },
        MessageLikeEvent::Other { event_type, sender } => Some(
            system_line("//// unhandled event type "@ + event_type@ + " from "@ + sender@),
        ),
    }
}

/// The line shown for a timeline event, if any.
pub open spec fn event_line(ev: TimelineEvent) -> Option<MessageContentView> {
    match ev {
        TimelineEvent::MessageLike(m) => message_event_line(m),
        TimelineEvent::State(s) => state_event_line(s),
    }
}

/// The view of an optional line.
pub open spec fn opt_line(o: Option<MessageContent>) -> Option<MessageContentView> {
    match o {
        Some(m) => Some(m@),
        None => None,
    }
}

/// What `handle_message` gives back, and the last seen event id after it,
/// for an event that was read (`Some`) or could not be read (`None`).
pub open spec fn handled(last: Option<Seq<char>>, ev: Option<SyncTimelineEvent>) -> (
    Option<Seq<char>>,
    Option<MessageContentView>,
) {
    match ev {
        None => (last, None),
        Some(e) => if last == Some(e.event_id@) {
            (last, None)
        } else {
            (Some(e.event_id@), event_line(e.event))
        },
    }
}

/// The line shown for an entry of a page of room history, if any.
pub open spec fn history_line(entry: HistoryEntry) -> Option<MessageContentView> {
    match entry {
        HistoryEntry::Decrypted(ev) => handled(None, ev).1,
        HistoryEntry::PlainText(ev) => handled(None, ev).1,
        HistoryEntry::UnableToDecrypt { reason } => Some(
            system_line("unable to decrypt:\n"@ + reason@),
        ),
    }
}

/// The lines shown for a page of room history given newest first: the
/// entries oldest first, without those that show nothing.
pub open spec fn history_lines(chunk: Seq<HistoryEntry>) -> Seq<MessageContentView>
    decreases chunk.len(),
{
    if chunk.len() == 0 {
        Seq::empty()
    } else {
        let rest = history_lines(chunk.drop_first());
        match history_line(chunk[0]) {
            Some(l) => rest.push(l),
            None => rest,
        }
    }
}

/// A system line with the given text.
pub fn state_message(content: String) -> (r: MessageContent)
    ensures
        r@ == system_line(content@),
{
    MessageContent { display_name: None, sender: None, content }
}

/// The text for a change of membership of `sender`.
fn render_membership(sender: &String, change: &MembershipChange) -> (r: String)
    ensures
        r@ == membership_text(sender@, *change),
{
    let s = sender.as_str();
    match change {
        MembershipChange::Unchanged => join2(s, " is unchanged"),
        MembershipChange::Error => join2(s, " had a malformed membership change"),
        MembershipChange::Joined => join2(s, " joined"),
        MembershipChange::Left => join2(s, " left"),
        MembershipChange::Banned => join2(s, " was banned"),
        MembershipChange::Unbanned => join2(s, " was unbanned"),
        MembershipChange::Kicked => join2(s, " was kicked"),
        MembershipChange::Invited => join2(s, " was invited"),
        MembershipChange::KickedAndBanned => join2(s, " was kicked and banned"),
        MembershipChange::InvitationAccepted => join2(s, " accepted invitation"),
        MembershipChange::InvitationRejected => join2(s, " rejected invitation"),
        MembershipChange::InvitationRevoked => join2(s, " had their invitation revoked"),
        MembershipChange::Knocked => join2(s, " knocked"),
        MembershipChange::KnockAccepted => join2(s, " knock was accepted"),
        MembershipChange::KnockRetracted => join2(s, " knock was retracted"),
        MembershipChange::KnockDenied => join2(s, " knock was denied"),
        MembershipChange::ProfileChanged { displayname_changed, avatar_url_changed } => {
            if *displayname_changed && *avatar_url_changed {
                join2(s, " display name and avatar changed")
            } else if *displayname_changed {
                join2(s, " display name changed")
            } else if *avatar_url_changed {
                join2(s, " avatar changed")
            } else {
                join2(s, " had no change")
            }
        },
        MembershipChange::NotImplemented => owned("//// unhandled membership change event"),
    }
}

/// The line shown for a state event, if any.
pub fn render_state_event(ev: &StateEvent) -> (r: Option<MessageContent>)
    ensures
        opt_line(r) == state_event_line(*ev),
{
    let text: Option<String> = match ev {
        StateEvent::RoomAliases => Some(owned("room aliases have changed")),
        StateEvent::RoomAvatar => Some(owned("room avatar has changed")),
        StateEvent::RoomCanonicalAlias => Some(owned("room canonical alias has changed")),
        StateEvent::RoomCreate => Some(owned("room has been created")),
        StateEvent::RoomEncryption => Some(owned("room encryption has changed")),
        StateEvent::RoomGuestAccess => Some(owned("room guest access has changed")),
        StateEvent::RoomHistoryVisibility => Some(owned("room history visibility has changed")),
        StateEvent::RoomJoinRules => Some(owned("room join rules have changed")),
        StateEvent::RoomMember { sender, change } => match change {
            Some(c) => Some(render_membership(sender, c)),
            None => None,
        },
        StateEvent::RoomName { name } => match name {
            Some(n) => Some(join3("room name has been changed to \"", n.as_str(), "\"")),
            None => None,
        },
        StateEvent::RoomPinnedEvents => Some(owned("room pinned events have been changed")),
        StateEvent::RoomPowerLevels => Some(owned("room power levels have been changed")),
        StateEvent::RoomServerAcl => Some(owned("room acl has been changed")),
        StateEvent::RoomTombstone { replacement_room } => match replacement_room {
            Some(r) => Some(join2("room has been tombstoned and is moving to ", r.as_str())),
            None => None,
        },
        StateEvent::RoomTopic { topic } => match topic {
            Some(t) => Some(join3("room topic was changed to \"", t.as_str(), "\"")),
            None => None,
        },
        StateEvent::Other { event_type } => Some(
            join2("//// unhandled state event type ", event_type.as_str()),
        ),
    };
    match text {
        Some(t) => Some(state_message(t)),
        None => None,
    }
}

/// The line shown for a message-like event, if any.
pub fn render_message_event(ev: &MessageLikeEvent) -> (r: Option<MessageContent>)
    ensures
        opt_line(r) == message_event_line(*ev),
{
    match ev {
        MessageLikeEvent::RoomEncrypted { sender } => Some(
            state_message(join2("unable to decrypt message from ", sender.as_str())),
        ),
        MessageLikeEvent::RoomMessage { sender, body } => match body {
            Some(b) => Some(
                MessageContent {
                    display_name: Some(sender.clone()),
                    sender: Some(sender.clone()),
                    content: b.clone(),
                },
            ),
            None => None,
        },
        MessageLikeEvent::RoomRedaction { redacts } => match redacts {
            Some(Some(id)) => Some(state_message(join2("redacting event ", id.as_str()))),
            Some(None) => Some(state_message(owned("unknown event redacted"))),
            None => None,
        },
        MessageLikeEvent::Other { event_type, sender } => Some(
            state_message(
                join4("//// unhandled event type ", event_type.as_str(), " from ", sender.as_str()),
            ),
        ),
    }
}

/// Whether `id` differs from the last event id seen; if so it becomes the
/// last one seen.
pub fn note_event(last_event_id: &mut Option<String>, id: &String) -> (r: bool)
    ensures
        r == (opt_text(*old(last_event_id)) != Some(id@)),
        r ==> opt_text(*final(last_event_id)) == Some(id@),
        !r ==> opt_text(*final(last_event_id)) == opt_text(*old(last_event_id)),
{
    let seen = match &*last_event_id {
        Some(last) => last.eq(id),
        None => false,
    };
    if seen {
        false
    } else {
        *last_event_id = Some(id.clone());
        true
    }
}

/// The line for a timeline event, unless the event could not be read or is
/// the one seen last; the event becomes the one seen last.
pub fn handle_message(last_event_id: &mut Option<String>, raw: &Option<SyncTimelineEvent>) -> (r:
    Option<MessageContent>)
    ensures
        (opt_text(*final(last_event_id)), opt_line(r)) == handled(opt_text(*old(last_event_id)), *raw),
{
    match raw {
        None => None,
        Some(msg) => {
            if !note_event(last_event_id, &msg.event_id) {
                return None;
            }
            match &msg.event {
                TimelineEvent::MessageLike(ev) => render_message_event(ev),
                TimelineEvent::State(ev) => render_state_event(ev),
            }
        },
    }
}

/// The line for an entry of a page of room history, if any.
fn render_history_entry(entry: &HistoryEntry) -> (r: Option<MessageContent>)
    ensures
        opt_line(r) == history_line(*entry),
{
    match entry {
        HistoryEntry::Decrypted(ev) => {
            let mut last: Option<String> = None;
            handle_message(&mut last, ev)
        },
        HistoryEntry::UnableToDecrypt { reason } => Some(
            state_message(join2("unable to decrypt:\n", reason.as_str())),
        ),
        HistoryEntry::PlainText(ev) => {
            let mut last: Option<String> = None;
            handle_message(&mut last, ev)
        },
    }
}

/// Appends the lines of a page of room history, given newest first, to
/// `rendered`, oldest first.
pub fn handle_messages(rendered: &mut Vec<MessageContent>, chunk: &Vec<HistoryEntry>)
    ensures
        final(rendered)@.map_values(|m: MessageContent| m@) == old(rendered)@.map_values(
            |m: MessageContent| m@,
        ) + history_lines(chunk@),
{
    let mut i: usize = chunk.len();
    while i > 0
        invariant
            i <= chunk.len(),
            rendered@.map_values(|m: MessageContent| m@) == old(rendered)@.map_values(
                |m: MessageContent| m@,
            ) + history_lines(chunk@.skip(i as int)),
        decreases i,
    {
        i = i - 1;
        let ghost before = rendered@;
        proof {
            assert(chunk@.skip(i as int).drop_first() =~= chunk@.skip(i + 1));
        }
        match render_history_entry(&chunk[i]) {
            Some(line) => {
                rendered.push(line);
                assert(rendered@.map_values(|m: MessageContent| m@) =~= before.map_values(
                    |m: MessageContent| m@,
                ).push(line@));
            },
            None => {},
        }
    }
    assert(chunk@.skip(0) =~= chunk@);
}

/// How many messages a request for the latest messages of a room asks for.
pub const LATEST_MESSAGES_LIMIT: u32 = 50;

/// What the worker does with what arrived on its request channel.
#[derive(Debug, Clone)]
pub enum RequestStep {
    /// Load the latest messages of the room.
    Fetch(String),
    /// The channel failed: stop the worker.
    Stop,
}

/// Decides what to do with what arrived on the request channel: a request
/// (`Some`) or a failure of the channel (`None`).
pub fn handle_request(req: Option<Request>) -> (r: RequestStep)
    ensures
        match req {
            Some(Request::LatestMessages(room)) => r matches RequestStep::Fetch(x) && x@ == room@,
            None => r is Stop,
        },
{
    match req {
        Some(Request::LatestMessages(room)) => RequestStep::Fetch(room),
        None => RequestStep::Stop,
    }
}

/// The answer to a request for the latest messages of `room`, given the page
/// of history that was loaded, newest first; none when the room is unknown
/// or the page could not be loaded.
pub fn retrieve_latest_messages(room: String, chunk: Option<Vec<HistoryEntry>>) -> (r: Option<Response>)
    ensures
        match chunk {
            None => r is None,
            Some(c) => r matches Some(Response::Messages(x, lines)) && x@ == room@
                && lines@.map_values(|m: MessageContent| m@) == history_lines(c@),
        },
{
    match chunk {
        None => None,
        Some(c) => {
            let mut rendered: Vec<MessageContent> = Vec::new();
            handle_messages(&mut rendered, &c);
            assert(rendered@.map_values(|m: MessageContent| m@) =~= history_lines(c@));
            Some(Response::Messages(room, rendered))
        },
    }
}

/// The answer to a new event of `room` seen by the worker: the new message,
/// unless the event shows nothing, could not be read, or repeats the one
/// seen last.
pub fn new_message(last_event_id: &mut Option<String>, room: String, raw: &Option<SyncTimelineEvent>) -> (r:
    Option<Response>)
    ensures
        opt_text(*final(last_event_id)) == handled(opt_text(*old(last_event_id)), *raw).0,
        match handled(opt_text(*old(last_event_id)), *raw).1 {
            None => r is None,
            Some(l) => r matches Some(Response::NewMessage(x, m)) && x@ == room@ && m@ == l,
        },
{
    match handle_message(last_event_id, raw) {
        Some(content) => Some(Response::NewMessage(room, content)),
        None => None,
    }
}

/// An event handled twice in a row shows nothing the second time, and leaves
/// the last seen event as it was.
pub proof fn lemma_repeated_event_dropped(last: Option<Seq<char>>, ev: SyncTimelineEvent)
    ensures
        ({
            let (seen, _) = handled(last, Some(ev));
            handled(seen, Some(ev)) == (seen, None::<MessageContentView>)
        }),
{
}

/// An event that could not be read shows nothing and leaves the last seen
/// event as it was.
pub proof fn lemma_unreadable_event_ignored(last: Option<Seq<char>>)
    ensures
        handled(last, None) == (last, None::<MessageContentView>),
{
}

/// State events are shown as system lines: they name neither a sender nor a
/// display name.
pub proof fn lemma_state_lines_are_system_lines(ev: StateEvent)
    ensures
        state_event_line(ev) matches Some(l) ==> l.sender is None && l.display_name is None,
{
}

/// A message is shown under its sender, with its body as text.
pub proof fn lemma_message_shown_under_sender(sender: String, body: String)
    ensures
        message_event_line(MessageLikeEvent::RoomMessage { sender, body: Some(body) }) == Some(
            MessageContentView { display_name: Some(sender@), sender: Some(sender@), content: body@ },
        ),
{
}

/// History is shown oldest first: the lines of two consecutive pages, each
/// given newest first, are those of the older page followed by those of the
/// newer one.
pub proof fn lemma_history_lines_concat(newer: Seq<HistoryEntry>, older: Seq<HistoryEntry>)
    ensures
        history_lines(newer + older) == history_lines(older) + history_lines(newer),
    decreases newer.len(),
{
    if newer.len() == 0 {
        assert(newer + older =~= older);
        assert(history_lines(older) + Seq::<MessageContentView>::empty() =~= history_lines(older));
    } else {
        assert((newer + older).drop_first() =~= newer.drop_first() + older);
        lemma_history_lines_concat(newer.drop_first(), older);
        match history_line(newer[0]) {
            Some(l) => {
                assert(history_lines(older) + history_lines(newer.drop_first()).push(l)
                    =~= (history_lines(older) + history_lines(newer.drop_first())).push(l));
            },
            None => {},
        }
    }
}

/// A readable entry of loaded history shows the same line as its event shows
/// when it arrives live and is new: whether it was decrypted or never
/// encrypted makes no difference, and state events are shown too.
pub proof fn lemma_history_line_is_live_line(e: SyncTimelineEvent, last: Option<Seq<char>>)
    requires
        last != Some(e.event_id@),
    ensures
        history_line(HistoryEntry::Decrypted(Some(e))) == handled(last, Some(e)).1,
        history_line(HistoryEntry::PlainText(Some(e))) == handled(last, Some(e)).1,
        history_line(HistoryEntry::PlainText(Some(e))) == event_line(e.event),
{
}

/// A new state event arriving live is shown as its state line.
pub proof fn lemma_live_state_event_shown(e: SyncTimelineEvent, s: StateEvent, last: Option<Seq<char>>)
    requires
        last != Some(e.event_id@),
        e.event == TimelineEvent::State(s),
    ensures
        handled(last, Some(e)).1 == state_event_line(s),
{
}

} // verus!
