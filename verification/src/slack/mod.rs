use vstd::prelude::*;

pub mod protocol;

use protocol::WSConnectResponse;

verus! {

/// The text of an optional error message, empty when there is none.
pub open spec fn error_text(error: Option<String>) -> Seq<char> {
    match error {
        Some(e) => e@,
        None => Seq::empty(),
    }
}

/// Slack refused to open a socket-mode connection; `error` is the reason it
/// gave, empty when it gave none.
#[derive(Debug)]
pub struct ConnectionOpenError {
    pub error: String,
}

impl ConnectionOpenError {
    /// The message that reports the refusal.
    pub fn message(&self) -> (text: String)
        ensures
            text@ == "Failed to get websocket url: "@ + self.error@,
    {
        "Failed to get websocket url: ".to_owned().concat(self.error.as_str())
    }
}

/// The refusal that carries `error`, or an empty reason.
fn refusal(error: Option<String>) -> (e: ConnectionOpenError)
    ensures
        e.error@ == error_text(error),
{
    match error {
        Some(error) => ConnectionOpenError { error },
        None => ConnectionOpenError { error: String::new() },
    }
}

/// What an answer of `apps.connections.open` yields: the websocket url when
/// Slack answered `ok`, otherwise the refusal with Slack's error message.
pub fn connection_open(response: WSConnectResponse) -> (url: Result<String, ConnectionOpenError>)
    ensures
        response.ok ==> (url matches Ok(u) && u@ == response.url@),
        !response.ok ==> (url matches Err(e) && e.error@ == error_text(response.error)),
{
    if response.ok {
        Ok(response.url)
    } else {
        Err(refusal(response.error))
    }
}

} // verus!
