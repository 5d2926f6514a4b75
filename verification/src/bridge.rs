//! The per-event core of the bridge: resolve the room's identity, derive
//! the one topic-safe room name, classify the message, and plan the
//! publishes for the event.

use vstd::prelude::*;
use crate::broker::OutboundMessage;
use crate::sanitize::{sanitize, sanitize_spec};

verus! {

/// A room's identity as the chat network reports it: a durable opaque
/// identifier, and optionally a canonical human-readable alias. Resolved
/// fresh per event, never cached, because the alias can change.
pub struct RoomIdentity {
    /// Preferred human-readable name; not guaranteed to exist.
    pub canonical_alias: Option<String>,
    /// Durable opaque room identifier; always present.
    pub room_id: String,
}

/// The structured content of an incoming room message, reduced to what the
/// bridge decides on: the type tag and, for text, the body.
pub enum MessageContent {
    /// A text message with its body (possibly empty).
    Text { body: String },
    /// Any other type (image, reaction, redaction, types not yet known),
    /// carrying the type's name for the warning signal.
    Other { msgtype: String },
}

/// One incoming room event, as handed to the bridge by the chat session.
/// Transient: it lives for one handler invocation.
pub struct RoomEvent {
    pub room: RoomIdentity,
    pub content: MessageContent,
    /// The raw serialized event exactly as received from the chat server.
    pub raw: String,
}

/// The identity string an event's topic is derived from: the canonical
/// alias when the room has one, the durable identifier otherwise.
pub open spec fn resolved_identity(room: RoomIdentity) -> Seq<char> {
    match room.canonical_alias {
        Some(alias) => alias@,
        None => room.room_id@,
    }
}

/// The topic the raw serialized event goes out on.
pub open spec fn json_topic(room_name: Seq<char>) -> Seq<char> {
    "matrix2mqtt/json/"@ + room_name
}

/// The topic a text body goes out on.
pub open spec fn text_topic(room_name: Seq<char>) -> Seq<char> {
    "matrix2mqtt/text/"@ + room_name
}

/// Everything the bridge does for one event: the one sanitized room name
/// both publishes share, the warnings to emit, the unconditional raw
/// publish, and the text publish when the message is text.
pub struct EventPlan {
    /// The topic-safe room name, computed once per event and used by both
    /// publishes.
    pub room_name: String,
    /// Warn that the room has no canonical alias configured.
    pub missing_alias_warning: bool,
    /// Warn that the message's type is not forwardable as text; carries
    /// the type's name. Log-only, not an error.
    pub unsupported_type_warning: Option<String>,
    /// The raw serialized event, published for every event.
    pub raw_publish: OutboundMessage,
    /// The text body, published only for text messages.
    pub text_publish: Option<OutboundMessage>,
}

/// Resolve a room's identity: prefer the canonical alias; fall back to the
/// durable identifier, flagging that the alias is absent so the caller can
/// emit the warning signal.
pub fn resolve_room_identity(room: &RoomIdentity) -> (r: (String, bool))
    ensures
        r.0@ == resolved_identity(*room),
        r.1 == (room.canonical_alias is None),
{
    match &room.canonical_alias {
        Some(alias) => (alias.clone(), false),
        None => (room.room_id.clone(), true),
    }
}

/// Classify an incoming message: a text message yields its body to
/// forward; anything else yields nothing and names the unsupported type
/// for a warning. Total over every type tag the protocol may ever add.
pub fn classify_message(content: &MessageContent) -> (r: Result<String, String>)
    ensures
        (match *content {
            MessageContent::Text { body } => r matches Ok(b) && b@ == body@,
            MessageContent::Other { msgtype } => r matches Err(t) && t@ == msgtype@,
        }),
{
    match content {
        MessageContent::Text { body } => Ok(body.clone()),
        MessageContent::Other { msgtype } => Err(msgtype.clone()),
    }
}

/// Plan the handling of one incoming room event.
///
/// Exactly one topic-safe room name is computed, from the canonical alias
/// when there is one and from the durable identifier otherwise, and both
/// publishes use it. The raw serialized event is always published on the
/// `json` topic; the body is published on the `text` topic exactly when
/// the message is text. Every publish is at-most-once (0) and not
/// retained. A missing alias and a non-text type each raise a warning
/// flag; neither is an error.
pub fn plan_event(event: &RoomEvent) -> (plan: EventPlan)
    ensures
        plan.room_name@ == sanitize_spec(resolved_identity(event.room)),
        plan.missing_alias_warning == (event.room.canonical_alias is None),
        plan.raw_publish.topic@ == json_topic(plan.room_name@),
        plan.raw_publish.payload@ == event.raw@,
        plan.raw_publish.qos == 0,
        !plan.raw_publish.retained,
        (match event.content {
            MessageContent::Text { body } => plan.text_publish matches Some(m)
                && m.topic@ == text_topic(plan.room_name@) && m.payload@ == body@ && m.qos == 0
                && !m.retained,
            MessageContent::Other { .. } => plan.text_publish is None,
        }),
        (match event.content {
            MessageContent::Text { .. } => plan.unsupported_type_warning is None,
            MessageContent::Other { msgtype } => plan.unsupported_type_warning matches Some(t)
                && t@ == msgtype@,
        }),
{
    let (identity, missing_alias_warning) = resolve_room_identity(&event.room);
    let room_name = sanitize(identity.as_str());

    let raw_publish = OutboundMessage {
        topic: String::from_str("matrix2mqtt/json/").concat(room_name.as_str()),
        payload: event.raw.clone(),
        qos: 0,
        retained: false,
    };

    let (text_publish, unsupported_type_warning) = match classify_message(&event.content) {
        Ok(body) => {
            let publish = OutboundMessage {
                topic: String::from_str("matrix2mqtt/text/").concat(room_name.as_str()),
                payload: body,
                qos: 0,
                retained: false,
            };
            (Some(publish), None)
        },
        Err(msgtype) => (None, Some(msgtype)),
    };

    EventPlan { room_name, missing_alias_warning, unsupported_type_warning, raw_publish, text_publish }
}

/// The two topics of one event never diverge on naming: each carries the
/// same 17-character fixed prefix followed by the event's one sanitized
/// room name, so the room-name segment of either topic is exactly
/// `room_name`.
pub proof fn lemma_topics_share_room_name(room_name: Seq<char>)
    ensures
        json_topic(room_name).len() == 17 + room_name.len(),
        text_topic(room_name).len() == 17 + room_name.len(),
        json_topic(room_name).skip(17) == room_name,
        text_topic(room_name).skip(17) == room_name,
{
    reveal_strlit("matrix2mqtt/json/");
    reveal_strlit("matrix2mqtt/text/");
    assert(json_topic(room_name).skip(17) =~= room_name);
    assert(text_topic(room_name).skip(17) =~= room_name);
}

} // verus!
