use std::borrow::Cow;
use std::ops::ControlFlow;
use vstd::prelude::*;

use crate::bot::protocol::chat::PostMessageRequest;
use crate::bot::protocol::{Acknowledge, Event, MessageEvent, SlackMessage};

verus! {

/// `tag` is the part of `envelope_id` before its first `-`, or all of it
/// when it holds none.
pub open spec fn is_envelope_tag(envelope_id: Seq<char>, tag: Seq<char>) -> bool {
    &&& tag.len() <= envelope_id.len()
    &&& tag == envelope_id.take(tag.len() as int)
    &&& forall|i: int| 0 <= i < tag.len() ==> tag[i] != '-'
    &&& tag.len() < envelope_id.len() ==> envelope_id[tag.len() as int] == '-'
}

/// The part of an envelope id before its first `-` (the whole id when it
/// holds none), which names the envelope in the log.
pub fn envelope_tag(envelope_id: &str) -> (tag: &str)
    ensures
        is_envelope_tag(envelope_id@, tag@),
{
    let ghost s = envelope_id@;
    let len = envelope_id.unicode_len();
    let mut n: usize = 0;
    let mut found = false;
    for c in it: envelope_id.chars()
        invariant
            it.seq() == s,
            len == s.len(),
            n <= it.index(),
            !found ==> n == it.index(),
            found ==> n < s.len() && s[n as int] == '-',
            forall|i: int| 0 <= i < n ==> s[i] != '-',
    {
        if !found {
            if c == '-' {
                found = true;
            } else {
                n = n + 1;
            }
        }
    }
    envelope_id.substring_char(0, n)
}

/// The text of a message event, empty when it carries none.
pub open spec fn message_text(event: MessageEvent) -> Seq<char> {
    match event.text {
        Some(text) => text@,
        None => Seq::empty(),
    }
}

/// The reply that a message event calls for, as (channel, text): messages
/// written by a bot get none; any other message is echoed to its channel.
pub open spec fn reply_to(event: MessageEvent) -> Option<(Seq<char>, Seq<char>)> {
    if event.bot_id is None {
        Some((event.channel@, message_text(event)))
    } else {
        None
    }
}

/// A message to post: `text` to `channel`.
#[derive(Debug)]
pub struct Reply<'s> {
    pub channel: &'s str,
    pub text: String,
}

impl<'s> View for Reply<'s> {
    type V = (Seq<char>, Seq<char>);

    open spec fn view(&self) -> (Seq<char>, Seq<char>) {
        (self.channel@, self.text@)
    }
}

/// The view of an optional reply.
pub open spec fn reply_view(reply: Option<Reply>) -> Option<(Seq<char>, Seq<char>)> {
    match reply {
        Some(r) => Some(r@),
        None => None,
    }
}

/// The text of `event` as an owned string.
fn text_of(event: &MessageEvent) -> (text: String)
    ensures
        text@ == message_text(*event),
        event.text matches Some(t) ==> text@ == t@,
        event.text is None ==> text@ == Seq::<char>::empty(),
{
    match &event.text {
        Some(Cow::Borrowed(t)) => (*t).to_owned(),
        Some(Cow::Owned(t)) => t.clone(),
        None => String::new(),
    }
}

/// What the bot answers to a message event: nothing when a bot wrote it,
/// otherwise its text, posted back to its channel.
pub fn on_message<'s>(event: &MessageEvent<'s>) -> (reply: Option<Reply<'s>>)
    ensures
        reply_view(reply) == reply_to(*event),
        reply is Some <==> event.bot_id is None,
        reply matches Some(r) ==> r.channel == event.channel,
        reply matches Some(r) ==> (event.text matches Some(t) ==> r.text@ == t@),
        reply matches Some(r) ==> (event.text is None ==> r.text@.len() == 0),
{
    if event.bot_id.is_none() {
        Some(Reply { channel: event.channel, text: text_of(event) })
    } else {
        None
    }
}

/// The `chat.postMessage` request that posts `reply`: its text to its
/// channel, with every optional argument left unset.
pub fn post_message<'a>(reply: &'a Reply<'a>) -> (request: PostMessageRequest<'a>)
    ensures
        request.channel == reply.channel,
        request.text@ == reply.text@,
        request.only_channel_and_text(),
{
    PostMessageRequest { channel: reply.channel, text: reply.text.as_str(), ..Default::default() }
}

/// One step of the client's work on a frame.
#[derive(Debug)]
pub enum Action<'s> {
    /// Send this acknowledgement back over the socket.
    Acknowledge(Acknowledge),
    /// Hand the text to the NLP service, then post the reply.
    Reply(Reply<'s>),
}

/// An action seen as plain values.
pub enum ActionView {
    /// (envelope id, payload) of the acknowledgement.
    Acknowledge(Seq<char>, Option<Seq<char>>),
    /// (channel, text) of the reply.
    Reply(Seq<char>, Seq<char>),
}

impl<'s> View for Action<'s> {
    type V = ActionView;

    open spec fn view(&self) -> ActionView {
        match self {
            Action::Acknowledge(a) => ActionView::Acknowledge(
                a.envelope_id@,
                match a.payload {
                    Some(p) => Some(p@),
                    None => None,
                },
            ),
            Action::Reply(r) => ActionView::Reply(r.channel@, r.text@),
        }
    }
}

/// What the client does for one frame received over the socket.
#[derive(Debug)]
pub struct Reaction<'s> {
    /// Short name of the envelope, for the log.
    pub tag: Option<&'s str>,
    /// The steps to carry out, first to last.
    pub actions: Vec<Action<'s>>,
    /// Whether the client goes on reading frames.
    pub flow: ControlFlow<()>,
}

/// A reaction seen as plain values.
pub struct ReactionView {
    /// The steps, first to last.
    pub actions: Seq<ActionView>,
    /// The client goes on reading frames.
    pub proceed: bool,
}

impl<'s> View for Reaction<'s> {
    type V = ReactionView;

    open spec fn view(&self) -> ReactionView {
        ReactionView {
            actions: self.actions@.map_values(|a: Action<'s>| a@),
            proceed: self.flow is Continue,
        }
    }
}

/// The steps that a reply of `reply_to` calls for: none, or posting it.
pub open spec fn reply_actions(reply: Option<(Seq<char>, Seq<char>)>) -> Seq<ActionView> {
    match reply {
        Some((channel, text)) => seq![ActionView::Reply(channel, text)],
        None => Seq::empty(),
    }
}

/// How the client reacts to `message`: an Events API envelope is first
/// acknowledged by its id, with no payload, and a message event in it then
/// gets the reply of `reply_to`; a disconnect stops the client; every other
/// frame is passed over.
pub open spec fn reaction_to(message: SlackMessage) -> ReactionView {
    match message {
        SlackMessage::EventsApi(envelope) => ReactionView {
            actions: seq![ActionView::Acknowledge(envelope.envelope_id@, None)] + reply_actions(
                match envelope.payload.event {
                    Event::Message(event) => reply_to(event),
                    _ => None,
                },
            ),
            proceed: true,
        },
        SlackMessage::Disconnect(_) => ReactionView { actions: Seq::empty(), proceed: false },
        _ => ReactionView { actions: Seq::empty(), proceed: true },
    }
}

/// The reaction of the client to one frame.
pub fn handle<'s>(message: &SlackMessage<'s>) -> (reaction: Reaction<'s>)
    ensures
        reaction@ == reaction_to(*message),
        reaction.tag is Some <==> message is EventsApi,
        reaction.tag matches Some(t) ==> is_envelope_tag(message->EventsApi_0.envelope_id@, t@),
        message matches SlackMessage::EventsApi(envelope) ==> (envelope.payload.event matches Event::Message(
            event,
        ) ==> (event.bot_id is None ==> reaction@.actions.len() == 2
            && reaction@.actions[1] == ActionView::Reply(
            event.channel@,
            match event.text {
                Some(t) => t@,
                None => Seq::empty(),
            },
        ))),
{
    match message {
        SlackMessage::EventsApi(envelope) => {
            let reply = match &envelope.payload.event {
                Event::Message(event) => on_message(event),
                _ => None,
            };
            let ghost expected = reaction_to(*message).actions;
            let mut actions: Vec<Action<'s>> = Vec::new();
            actions.push(Action::Acknowledge(Acknowledge::new(envelope.envelope_id, None)));
            match reply {
                Some(r) => actions.push(Action::Reply(r)),
                None => {},
            }
            assert(actions@.map_values(|a: Action<'s>| a@) =~= expected);
            Reaction {
                tag: Some(envelope_tag(envelope.envelope_id)),
                actions,
                flow: ControlFlow::Continue(()),
            }
        },
        SlackMessage::Disconnect(_) => {
            let actions: Vec<Action<'s>> = Vec::new();
            assert(actions@.map_values(|a: Action<'s>| a@) =~= Seq::empty());
            Reaction { tag: None, actions, flow: ControlFlow::Break(()) }
        },
        _ => {
            let actions: Vec<Action<'s>> = Vec::new();
            assert(actions@.map_values(|a: Action<'s>| a@) =~= Seq::empty());
            Reaction { tag: None, actions, flow: ControlFlow::Continue(()) }
        },
    }
}

} // verus!
