use std::borrow::Cow;
use std::ops::ControlFlow;

use geoify::bot::protocol::chat::{PostMessageRequest, PostMessageResponse};
use geoify::bot::protocol::{
    Acknowledge, ConnectionInfo, DebugInfo, DisconnectMessage, Event, EventsApiMessage,
    EventsApiPayload, HelloMessage, MessageEvent, ReactionEvent, ReactionItem, SlackMessage,
    WSConnectResponse,
};
use geoify::bot::websocket::{envelope_tag, handle, on_message, post_message, Action, Reply};

fn debug_info() -> DebugInfo<'static> {
    DebugInfo {
        host: "applink-1",
        started: Some("2023-01-01 00:00:00.000"),
        build_number: Some(10),
        approximate_connection_time: Some(18060),
    }
}

fn message_event<'s>(text: Option<Cow<'s, str>>, bot_id: Option<&'s str>) -> MessageEvent<'s> {
    MessageEvent {
        event_ts: "1690000000.000100",
        subtype: None,
        text,
        user: Some("U123"),
        bot_id,
        ts: Some("1690000000.000100"),
        deleted_ts: None,
        team: Some("T1"),
        channel: "C42",
        hidden: false,
        is_starred: false,
        pinned_to: vec![],
        reactions: vec![],
    }
}

fn envelope<'s>(envelope_id: &'s str, event: Event<'s>) -> SlackMessage<'s> {
    SlackMessage::EventsApi(EventsApiMessage {
        envelope_id,
        payload: EventsApiPayload { team_id: "T1", event },
    })
}

#[test]
fn acknowledge_new_without_payload() {
    let ack = Acknowledge::new("57d6a792-4d35-4d0b-b6aa-3361493e1caf", None);
    assert_eq!(ack.envelope_id, "57d6a792-4d35-4d0b-b6aa-3361493e1caf");
    assert_eq!(ack.payload, None);
}

#[test]
fn acknowledge_new_with_payload() {
    let ack = Acknowledge::new("e1", Some("{\"text\":\"ok\"}"));
    assert_eq!(ack.envelope_id, "e1");
    assert_eq!(ack.payload.as_deref(), Some("{\"text\":\"ok\"}"));
}

#[test]
fn undecodable_frame_is_unknown() {
    let parsed = serde_json::from_str::<serde_json::Value>("{not json").map(|_| SlackMessage::Unknown);
    let err = parsed.unwrap_err();
    let message = SlackMessage::from_parsed(Err(err));
    assert!(matches!(message, SlackMessage::Unknown));
}

#[test]
fn decoded_frame_is_kept() {
    let frame = SlackMessage::Disconnect(DisconnectMessage { reason: "warning", debug_info: debug_info() });
    match SlackMessage::from_parsed(Ok(frame)) {
        SlackMessage::Disconnect(d) => assert_eq!(d.reason, "warning"),
        other => panic!("unexpected frame {other:?}"),
    }
}

#[test]
fn websocket_url_when_ok() {
    let response = WSConnectResponse { url: "wss://wss.slack.com/link".into(), error: None, ok: true };
    assert_eq!(response.websocket_url().unwrap(), "wss://wss.slack.com/link");
}

#[test]
fn websocket_url_refused() {
    let response = WSConnectResponse { url: String::new(), error: Some("invalid_auth".into()), ok: false };
    let err = response.websocket_url().unwrap_err();
    assert_eq!(err.error, "invalid_auth");
    assert_eq!(err.message(), "Failed to get websocket url: invalid_auth");
}

#[test]
fn envelope_tag_before_first_dash() {
    assert_eq!(envelope_tag("57d6a792-4d35-4d0b-b6aa-3361493e1caf"), "57d6a792");
}

#[test]
fn envelope_tag_without_dash() {
    assert_eq!(envelope_tag("abcdef"), "abcdef");
    assert_eq!(envelope_tag(""), "");
}

#[test]
fn envelope_tag_leading_dash() {
    assert_eq!(envelope_tag("-abc"), "");
}

#[test]
fn envelope_tag_multibyte() {
    assert_eq!(envelope_tag("éü-x"), "éü");
}

#[test]
fn user_message_is_echoed() {
    let event = message_event(Some(Cow::Borrowed("time in tokyo?")), None);
    let reply = on_message(&event).unwrap();
    assert_eq!(reply.channel, "C42");
    assert_eq!(reply.text, "time in tokyo?");
}

#[test]
fn owned_text_is_echoed() {
    let event = message_event(Some(Cow::Owned("weather".to_string())), None);
    assert_eq!(on_message(&event).unwrap().text, "weather");
}

#[test]
fn message_without_text_is_answered_empty() {
    let event = message_event(None, None);
    assert_eq!(on_message(&event).unwrap().text, "");
}

#[test]
fn bot_message_is_not_answered() {
    let event = message_event(Some(Cow::Borrowed("echo")), Some("B99"));
    assert!(on_message(&event).is_none());
}

#[test]
fn handle_envelope_with_user_message() {
    let frame = envelope("ab12-cd34", Event::Message(message_event(Some(Cow::Borrowed("hi")), None)));
    let reaction = handle(&frame);
    assert_eq!(reaction.tag, Some("ab12"));
    assert_eq!(reaction.actions.len(), 2);
    match &reaction.actions[0] {
        Action::Acknowledge(ack) => {
            assert_eq!(ack.envelope_id, "ab12-cd34");
            assert_eq!(ack.payload, None);
        }
        other => panic!("expected the acknowledgement first, got {other:?}"),
    }
    match &reaction.actions[1] {
        Action::Reply(reply) => {
            assert_eq!(reply.channel, "C42");
            assert_eq!(reply.text, "hi");
        }
        other => panic!("expected the reply second, got {other:?}"),
    }
    assert_eq!(reaction.flow, ControlFlow::Continue(()));
}

#[test]
fn handle_envelope_with_bot_message() {
    let frame = envelope("e-1", Event::Message(message_event(Some(Cow::Borrowed("hi")), Some("B1"))));
    let reaction = handle(&frame);
    assert_eq!(reaction.actions.len(), 1);
    assert!(matches!(&reaction.actions[0], Action::Acknowledge(ack) if ack.envelope_id == "e-1"));
    assert_eq!(reaction.flow, ControlFlow::Continue(()));
}

#[test]
fn handle_envelope_with_reaction() {
    let event = ReactionEvent {
        event_ts: "1.2",
        user: "U1",
        reaction: "thumbsup",
        item_user: None,
        item: ReactionItem::Message { channel: "C42", ts: "1.1" },
    };
    let frame = envelope("r-9", Event::ReactionAdded(event));
    let reaction = handle(&frame);
    assert_eq!(reaction.actions.len(), 1);
    assert!(matches!(&reaction.actions[0], Action::Acknowledge(ack) if ack.envelope_id == "r-9"));
    assert_eq!(reaction.tag, Some("r"));
    assert_eq!(reaction.flow, ControlFlow::Continue(()));
}

#[test]
fn handle_hello_goes_on() {
    let frame = SlackMessage::Hello(HelloMessage {
        num_connections: 1,
        connection_info: ConnectionInfo { app_id: "A1" },
        debug_info: debug_info(),
    });
    let reaction = handle(&frame);
    assert!(reaction.actions.is_empty());
    assert!(reaction.tag.is_none());
    assert_eq!(reaction.flow, ControlFlow::Continue(()));
}

#[test]
fn handle_disconnect_stops() {
    let frame = SlackMessage::Disconnect(DisconnectMessage { reason: "refresh_requested", debug_info: debug_info() });
    let reaction = handle(&frame);
    assert!(reaction.actions.is_empty());
    assert_eq!(reaction.flow, ControlFlow::Break(()));
}

#[test]
fn handle_unknown_goes_on() {
    let reaction = handle(&SlackMessage::Unknown);
    assert!(reaction.actions.is_empty());
    assert_eq!(reaction.flow, ControlFlow::Continue(()));
}

#[test]
fn post_message_sets_only_channel_and_text() {
    let reply = Reply { channel: "C42", text: "hello".to_string() };
    let request = post_message(&reply);
    assert_eq!(request.channel, "C42");
    assert_eq!(request.text, "hello");
    assert_eq!(request.parse, None);
    assert_eq!(request.link_names, None);
    assert_eq!(request.attachments, None);
    assert_eq!(request.unfurl_links, None);
    assert_eq!(request.unfurl_media, None);
    assert_eq!(request.mrkdwn, None);
    assert_eq!(request.username, None);
    assert_eq!(request.as_user, None);
    assert_eq!(request.icon_url, None);
    assert_eq!(request.icon_emoji, None);
    assert_eq!(request.reply_broadcast, None);
}

#[test]
fn default_request_is_empty() {
    let request = PostMessageRequest::default();
    assert_eq!(request.channel, "");
    assert_eq!(request.text, "");
    assert_eq!(request.as_user, None);
}

#[test]
fn post_outcome_ok() {
    let response = PostMessageResponse {
        channel: Some("C42".into()),
        error: None,
        message: Some(serde_json::Value::Null),
        ok: true,
    };
    assert!(response.into_outcome().is_ok());
}

#[test]
fn post_outcome_error() {
    let response = PostMessageResponse { channel: None, error: Some("channel_not_found".into()), message: None, ok: false };
    let err = response.into_outcome().unwrap_err();
    assert_eq!(err.error.as_deref(), Some("channel_not_found"));
}

#[test]
fn post_outcome_error_without_reason() {
    let response = PostMessageResponse { channel: None, error: None, message: None, ok: false };
    assert!(response.into_outcome().unwrap_err().error.is_none());
}
