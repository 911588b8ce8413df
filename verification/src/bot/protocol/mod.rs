use vstd::prelude::*;

pub mod chat;

use crate::slack::{connection_open, error_text, ConnectionOpenError};

pub use crate::slack::protocol::{
    Event, EventsApiPayload, MessageEvent, MessageReaction, ReactionEvent, ReactionItem,
};

verus! {

/// Answer of Slack's `apps.connections.open` method; `url` is empty when
/// Slack sent none.
#[derive(Debug)]
pub struct WSConnectResponse {
    pub url: String,
    pub error: Option<String>,
    pub ok: bool,
}

/// A frame received over the socket-mode connection, told apart by its
/// `type` field; `Unknown` stands for a frame that could not be decoded.
#[derive(Debug)]
pub enum SlackMessage<'s> {
    Hello(HelloMessage<'s>),
    Disconnect(DisconnectMessage<'s>),
    EventsApi(EventsApiMessage<'s>),
    Unknown,
}

/// Sent by Slack once the connection is open.
#[derive(Debug)]
pub struct HelloMessage<'s> {
    pub num_connections: u32,
    pub connection_info: ConnectionInfo<'s>,
    pub debug_info: DebugInfo<'s>,
}

/// Sent by Slack before it closes the connection.
#[derive(Debug)]
pub struct DisconnectMessage<'s> {
    pub reason: &'s str,
    pub debug_info: DebugInfo<'s>,
}

/// An envelope of the Events API; it must be acknowledged by its id.
#[derive(Debug)]
pub struct EventsApiMessage<'s> {
    pub envelope_id: &'s str,
    pub payload: EventsApiPayload<'s>,
}

impl WSConnectResponse {
    /// The websocket url when Slack answered `ok`, otherwise the refusal
    /// with Slack's error message.
    pub fn websocket_url(self) -> (url: Result<String, ConnectionOpenError>)
        ensures
            self.ok ==> (url matches Ok(u) && u@ == self.url@),
            !self.ok ==> (url matches Err(e) && e.error@ == error_text(self.error)),
    {
        let response = crate::slack::protocol::WSConnectResponse {
            ok: self.ok,
            url: self.url,
            error: self.error,
        };
        connection_open(response)
    }
}

impl<'s> SlackMessage<'s> {
    /// The frame that a decode attempt stands for: the decoded frame, or
    /// `SlackMessage::Unknown` when the text was not a frame that the bot knows.
    pub fn from_parsed(parsed: Result<SlackMessage<'s>, serde_json::Error>) -> (message: Self)
        ensures
            match parsed {
                Ok(m) => message == m,
                Err(_) => message is Unknown,
            },
    {
        match parsed {
            Ok(m) => m,
            Err(_) => SlackMessage::Unknown,
        }
    }
}

#[derive(Debug)]
pub struct ConnectionInfo<'s> {
    pub app_id: &'s str,
}

#[derive(Debug)]
pub struct DebugInfo<'s> {
    pub host: &'s str,
    pub started: Option<&'s str>,
    pub build_number: Option<u32>,
    pub approximate_connection_time: Option<u64>,
}

/// Acknowledgement that the bot sends back over the socket for an envelope.
#[derive(Debug)]
pub struct Acknowledge {
    pub envelope_id: String,
    pub payload: Option<String>,
}

impl Acknowledge {
    /// An acknowledgement of the envelope `envelope_id`, carrying `payload`.
    pub fn new(envelope_id: &str, payload: Option<&str>) -> (ack: Self)
        ensures
            ack.envelope_id@ == envelope_id@,
            ack.payload is Some <==> payload is Some,
            ack.payload matches Some(p) ==> p@ == payload->Some_0@,
    {
        let payload = match payload {
            Some(p) => Some(p.to_owned()),
            None => None,
        };
        Acknowledge { envelope_id: envelope_id.to_owned(), payload }
    }
}

} // verus!
