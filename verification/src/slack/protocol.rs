use std::borrow::Cow;
use vstd::prelude::*;

verus! {

/// Answer of Slack's `apps.connections.open` method.
#[derive(Debug)]
pub struct WSConnectResponse {
    /// Response status
    pub ok: bool,
    /// WebSocket Url
    pub url: String,
    /// Error Message in case of errors
    pub error: Option<String>,
}

/// A frame received over the socket-mode connection, told apart by its
/// `type` field.
#[derive(Debug)]
pub enum SlackMessage<'s> {
    Hello { num_connections: u32, connection_info: ConnectionInfo<'s>, debug_info: DebugInfo<'s> },
    Disconnect { reason: &'s str, debug_info: DebugInfo<'s> },
    EventsApi { envelope_id: &'s str, payload: EventsApiPayload<'s> },
}

/// Acknowledgement of an envelope.
#[derive(Debug)]
pub struct Acknowledge<'s> {
    pub envelope_id: &'s str,
    pub payload: Option<&'s str>,
}

#[derive(Debug)]
pub struct ConnectionInfo<'s> {
    pub app_id: &'s str,
}

#[derive(Debug)]
pub struct DebugInfo<'s> {
    pub host: &'s str,
    pub started: Option<&'s str>,
    pub build_number: Option<u32>,
    pub approximate_connection_time: Option<u64>,
}

/// The payload of an Events API envelope.
#[derive(Debug)]
pub struct EventsApiPayload<'s> {
    pub team_id: &'s str,
    pub event: Event<'s>,
}

/// The events the bot subscribes to.
#[derive(Debug)]
pub enum Event<'s> {
    Message(MessageEvent<'s>),
    ReactionAdded(ReactionEvent<'s>),
    ReactionRemoved(ReactionEvent<'s>),
}

/// A `message` event. `bot_id` is set when a bot, this one included, wrote
/// the message.
#[derive(Debug)]
pub struct MessageEvent<'s> {
    pub event_ts: &'s str,
    pub subtype: Option<&'s str>,
    pub text: Option<Cow<'s, str>>,
    pub user: Option<&'s str>,
    pub bot_id: Option<&'s str>,
    pub ts: Option<&'s str>,
    pub deleted_ts: Option<&'s str>,
    pub team: Option<&'s str>,
    pub channel: &'s str,
    pub hidden: bool,
    pub is_starred: bool,
    pub pinned_to: Vec<&'s str>,
    pub reactions: Vec<MessageReaction<'s>>,
}

#[derive(Debug)]
pub struct MessageReaction<'s> {
    pub name: &'s str,
    pub count: u32,
    pub users: Vec<&'s str>,
}

/// A `reaction_added` or `reaction_removed` event.
#[derive(Debug)]
pub struct ReactionEvent<'s> {
    pub event_ts: &'s str,
    pub user: &'s str,
    pub reaction: &'s str,
    pub item_user: Option<&'s str>,
    pub item: ReactionItem<'s>,
}

/// What a reaction was added to or removed from.
#[derive(Debug)]
pub enum ReactionItem<'s> {
    Message { channel: &'s str, ts: &'s str },
    File { file: &'s str },
    FileComment { file_comment: &'s str, file: &'s str },
}

} // verus!
