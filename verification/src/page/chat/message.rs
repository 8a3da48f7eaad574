//! A timeline line as the chat pane shows it.
use vstd::prelude::*;

use crate::text::owned;
use crate::worker::messages::{MessageContent, MessageContentView};

verus! {

/// A line of the chat pane: who wrote it, and its markdown text.
#[derive(Debug, Clone)]
pub struct RenderedMessage {
    pub sender: String,
    pub content: String,
}

/// The view of a [`RenderedMessage`].
pub struct RenderedMessageView {
    pub sender: Seq<char>,
    pub content: Seq<char>,
}

impl View for RenderedMessage {
    type V = RenderedMessageView;

    open spec fn view(&self) -> RenderedMessageView {
        RenderedMessageView { sender: self.sender@, content: self.content@ }
    }
}

/// The sender shown for lines that no user wrote.
pub open spec fn system_sender() -> Seq<char> {
    "# system"@
}

/// How a timeline line is shown: by its sender, or as a system line.
pub open spec fn rendered(msg: MessageContentView) -> RenderedMessageView {
    RenderedMessageView {
        sender: match msg.sender {
            Some(s) => s,
            None => system_sender(),
        },
        content: msg.content,
    }
}

/// Prepares a timeline line for the chat pane.
pub fn render_message_content(msg: &MessageContent) -> (r: RenderedMessage)
    ensures
        r@ == rendered(msg@),
{
    RenderedMessage {
        sender: match &msg.sender {
            Some(s) => s.clone(),
            None => owned("# system"),
        },
        content: msg.content.clone(),
    }
}

/// A copy of a line.
pub fn copy_rendered(msg: &RenderedMessage) -> (r: RenderedMessage)
    ensures
        r@ == msg@,
{
    RenderedMessage { sender: msg.sender.clone(), content: msg.content.clone() }
}

/// Prepares a list of timeline lines for the chat pane, in order.
pub fn render_all(msgs: &Vec<MessageContent>) -> (r: Vec<RenderedMessage>)
    ensures
        r@.map_values(|m: RenderedMessage| m@) == msgs@.map_values(|m: MessageContent| rendered(m@)),
{
    let mut out: Vec<RenderedMessage> = Vec::new();
    for i in 0..msgs.len()
        invariant
            out@.map_values(|m: RenderedMessage| m@) == msgs@.take(i as int).map_values(
                |m: MessageContent| rendered(m@),
            ),
    {
        let ghost prev = out@;
        let line = render_message_content(&msgs[i]);
        out.push(line);
        proof {
            assert(msgs@.take(i + 1) =~= msgs@.take(i as int).push(msgs@[i as int]));
            assert(out@ =~= prev.push(line));
            assert(out@.map_values(|m: RenderedMessage| m@) =~= prev.map_values(
                |m: RenderedMessage| m@,
            ).push(line@));
            assert(msgs@.take(i + 1).map_values(|m: MessageContent| rendered(m@)) =~= msgs@.take(
                i as int,
            ).map_values(|m: MessageContent| rendered(m@)).push(line@));
        }
    }
    assert(msgs@.take(msgs.len() as int) =~= msgs@);
    out
}

/// A copy of a list of lines.
pub fn copy_all(msgs: &Vec<RenderedMessage>) -> (r: Vec<RenderedMessage>)
    ensures
        r@.map_values(|m: RenderedMessage| m@) == msgs@.map_values(|m: RenderedMessage| m@),
{
    let mut out: Vec<RenderedMessage> = Vec::new();
    for i in 0..msgs.len()
        invariant
            out@.map_values(|m: RenderedMessage| m@) == msgs@.take(i as int).map_values(
                |m: RenderedMessage| m@,
            ),
    {
        let ghost prev = out@;
        let line = copy_rendered(&msgs[i]);
        out.push(line);
        proof {
            assert(msgs@.take(i + 1) =~= msgs@.take(i as int).push(msgs@[i as int]));
            assert(out@ =~= prev.push(line));
            assert(out@.map_values(|m: RenderedMessage| m@) =~= prev.map_values(
                |m: RenderedMessage| m@,
            ).push(line@));
            assert(msgs@.take(i + 1).map_values(|m: RenderedMessage| m@) =~= msgs@.take(
                i as int,
            ).map_values(|m: RenderedMessage| m@).push(line@));
        }
    }
    assert(msgs@.take(msgs.len() as int) =~= msgs@);
    out
}

} // verus!
