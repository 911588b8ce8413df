use vstd::prelude::*;

verus! {

/// Arguments of Slack's `chat.postMessage` method. Every optional argument
/// left at `None` is omitted from the request.
#[derive(Debug)]
pub struct PostMessageRequest<'a> {
    pub channel: &'a str,
    pub text: &'a str,
    pub parse: Option<&'a str>,
    pub link_names: Option<bool>,
    pub attachments: Option<&'a str>,
    pub unfurl_links: Option<bool>,
    pub unfurl_media: Option<bool>,
    pub mrkdwn: Option<bool>,
    pub username: Option<&'a str>,
    pub as_user: Option<bool>,
    pub icon_url: Option<&'a str>,
    pub icon_emoji: Option<&'a str>,
    pub reply_broadcast: Option<bool>,
}

impl<'a> PostMessageRequest<'a> {
    /// No optional argument is set.
    pub open spec fn only_channel_and_text(&self) -> bool {
        &&& self.parse is None
        &&& self.link_names is None
        &&& self.attachments is None
        &&& self.unfurl_links is None
        &&& self.unfurl_media is None
        &&& self.mrkdwn is None
        &&& self.username is None
        &&& self.as_user is None
        &&& self.icon_url is None
        &&& self.icon_emoji is None
        &&& self.reply_broadcast is None
    }
}

impl<'a> Default for PostMessageRequest<'a> {
    /// Empty channel and text, no optional argument.
    fn default() -> (request: Self)
        ensures
            request.channel@.len() == 0,
            request.text@.len() == 0,
            request.only_channel_and_text(),
    {
        proof {
            reveal_strlit("");
        }
        PostMessageRequest {
            channel: "",
            text: "",
            parse: None,
            link_names: None,
            attachments: None,
            unfurl_links: None,
            unfurl_media: None,
            mrkdwn: None,
            username: None,
            as_user: None,
            icon_url: None,
            icon_emoji: None,
            reply_broadcast: None,
        }
    }
}

/// Answer of Slack's `chat.postMessage` method.
#[derive(Debug)]
pub struct PostMessageResponse {
    pub channel: Option<String>,
    pub error: Option<String>,
    pub message: Option<serde_json::Value>,
    pub ok: bool,
}

/// Slack refused to post a message; `error` is the reason it gave, if any.
#[derive(Debug)]
pub struct PostMessageError {
    pub error: Option<String>,
}

impl PostMessageResponse {
    /// Success exactly when Slack answered `ok`; otherwise the error that
    /// Slack gave.
    pub fn into_outcome(self) -> (outcome: Result<(), PostMessageError>)
        ensures
            outcome is Ok <==> self.ok,
            outcome matches Err(e) ==> e.error == self.error,
    {
        if self.ok {
            Ok(())
        } else {
            Err(PostMessageError { error: self.error })
        }
    }
}

} // verus!
