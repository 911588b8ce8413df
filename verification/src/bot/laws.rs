//! Properties that hold of the client's reaction to every frame.
use vstd::prelude::*;

use crate::bot::protocol::SlackMessage;
use crate::bot::websocket::{is_envelope_tag, reaction_to, ActionView};

verus! {

/// Every Events API envelope is acknowledged by its own id, with no payload,
/// before anything else is done with it, and the client goes on reading.
pub proof fn envelopes_are_acknowledged_first(message: SlackMessage)
    requires
        message is EventsApi,
    ensures
        reaction_to(message).actions.len() >= 1,
        reaction_to(message).actions[0] == ActionView::Acknowledge(
            message->EventsApi_0.envelope_id@,
            None,
        ),
        reaction_to(message).proceed,
{
}

/// An envelope is acknowledged once: no later step is an acknowledgement.
pub proof fn envelopes_are_acknowledged_once(message: SlackMessage)
    ensures
        forall|i: int|
            1 <= i < reaction_to(message).actions.len() ==> reaction_to(message).actions[i] is Reply,
{
}

/// Frames other than Events API envelopes call for no step at all.
pub proof fn only_envelopes_call_for_work(message: SlackMessage)
    ensures
        reaction_to(message).actions.len() > 0 <==> message is EventsApi,
{
}

/// The client stops reading exactly when Slack announces a disconnect.
pub proof fn only_disconnect_stops(message: SlackMessage)
    ensures
        !reaction_to(message).proceed <==> message is Disconnect,
{
}

/// A message written by a bot, this one included, is acknowledged and never
/// answered.
pub proof fn bot_messages_get_no_reply(message: SlackMessage)
    requires
        message is EventsApi,
        message->EventsApi_0.payload.event is Message,
        message->EventsApi_0.payload.event->Message_0.bot_id is Some,
    ensures
        reaction_to(message).actions == seq![
            ActionView::Acknowledge(message->EventsApi_0.envelope_id@, None),
        ],
{
}

/// A message written by a person is acknowledged, then answered in its own
/// channel with its whole text, exactly as it came, whatever that text holds
/// and whatever the message's subtype; a message without text is answered
/// with an empty one.
pub proof fn user_messages_are_echoed(message: SlackMessage)
    requires
        message is EventsApi,
        message->EventsApi_0.payload.event is Message,
        message->EventsApi_0.payload.event->Message_0.bot_id is None,
    ensures
        reaction_to(message).actions == seq![
            ActionView::Acknowledge(message->EventsApi_0.envelope_id@, None),
            ActionView::Reply(
                message->EventsApi_0.payload.event->Message_0.channel@,
                match message->EventsApi_0.payload.event->Message_0.text {
                    Some(t) => t@,
                    None => Seq::empty(),
                },
            ),
        ],
{
    let event = message->EventsApi_0.payload.event->Message_0;
    let text = match event.text {
        Some(t) => t@,
        None => Seq::<char>::empty(),
    };
    assert(reaction_to(message).actions =~= seq![
        ActionView::Acknowledge(message->EventsApi_0.envelope_id@, None),
        ActionView::Reply(event.channel@, text),
    ]);
}

/// The text of a reply to a person's message keeps every character of the
/// message's text, in order, and adds none.
pub proof fn echoed_text_is_whole(message: SlackMessage, i: int)
    requires
        message is EventsApi,
        message->EventsApi_0.payload.event is Message,
        message->EventsApi_0.payload.event->Message_0.bot_id is None,
        message->EventsApi_0.payload.event->Message_0.text is Some,
    ensures
        reaction_to(message).actions.len() == 2,
        reaction_to(message).actions[1] is Reply,
        reaction_to(message).actions[1]->Reply_1.len()
            == message->EventsApi_0.payload.event->Message_0.text->Some_0@.len(),
        0 <= i < message->EventsApi_0.payload.event->Message_0.text->Some_0@.len() ==> reaction_to(
            message,
        ).actions[1]->Reply_1[i] == message->EventsApi_0.payload.event->Message_0.text->Some_0@[i],
{
    user_messages_are_echoed(message);
}

/// Only message events are answered: reactions, greetings, disconnects and
/// unknown frames never are.
pub proof fn only_message_events_get_replies(message: SlackMessage)
    ensures
        (exists|i: int|
            0 <= i < reaction_to(message).actions.len()
                && #[trigger] reaction_to(message).actions[i] is Reply) ==> message is EventsApi
            && message->EventsApi_0.payload.event is Message,
{
}

/// An envelope id has exactly one tag.
pub proof fn envelope_tag_is_unique(envelope_id: Seq<char>, tag1: Seq<char>, tag2: Seq<char>)
    requires
        is_envelope_tag(envelope_id, tag1),
        is_envelope_tag(envelope_id, tag2),
    ensures
        tag1 == tag2,
{
    if tag1.len() < tag2.len() {
        assert(tag2[tag1.len() as int] == envelope_id[tag1.len() as int]);
    } else if tag2.len() < tag1.len() {
        assert(tag1[tag2.len() as int] == envelope_id[tag2.len() as int]);
    }
    assert(tag1 =~= tag2);
}

/// An envelope id without a `-` is its own tag.
pub proof fn dashless_id_is_its_own_tag(envelope_id: Seq<char>)
    requires
        forall|i: int| 0 <= i < envelope_id.len() ==> envelope_id[i] != '-',
    ensures
        is_envelope_tag(envelope_id, envelope_id),
{
    assert(envelope_id.take(envelope_id.len() as int) =~= envelope_id);
}

} // verus!
