//! Decoding of the text frames that the event stream sends.
use vstd::prelude::*;
use crate::json::{json_at, json_of, json_str, parse_json};
use crate::session::SessionFields;
use vstd::string::*;
use twitch_api::eventsub::{
    Event, EventsubWebsocketData as D, Message, Payload, PayloadParseError as E,
};

verus! {

#[verifier::external_type_specification]
#[verifier::external_body]
pub struct ExEvent(twitch_api::eventsub::Event);

#[verifier::external_type_specification]
#[verifier::external_body]
pub struct ExTimestamp(twitch_api::types::Timestamp);

#[verifier::external_type_specification]
#[verifier::external_body]
pub struct ExModeratePayload(twitch_api::eventsub::channel::ChannelModerateV2Payload);

#[verifier::external_type_specification]
#[verifier::external_body]
pub struct ExSessionData<'a>(twitch_api::eventsub::SessionData<'a>);

/// Relies on the derived `Clone` of twitch_api's moderation payload, so
/// that an event can go to each subscriber of the fan-out channel.
pub assume_specification[ <twitch_api::eventsub::channel::ChannelModerateV2Payload as Clone>::clone ](
    p: &twitch_api::eventsub::channel::ChannelModerateV2Payload,
) -> twitch_api::eventsub::channel::ChannelModerateV2Payload;

/// Relies on the derived `Clone` of twitch_api's `Timestamp`, for the same reason.
pub assume_specification[ <twitch_api::types::Timestamp as Clone>::clone ](
    t: &twitch_api::types::Timestamp,
) -> twitch_api::types::Timestamp;

/// A frame as the stream's parser gives it back.
#[derive(Debug)]
pub enum ParsedFrame {
    /// A welcome (`false`) or reconnect (`true`) control frame.
    Session(SessionFields, bool),
    Keepalive,
    /// A notification: its event and the time the server sent it.
    Notification(twitch_api::eventsub::Event, twitch_api::types::Timestamp),
    Revocation,
    /// A message type that the parser knows and this client does not use.
    Other,
}

/// Why the parser refused a frame.
#[derive(Debug, Clone, Copy, PartialEq, Eq, Structural)]
pub enum ParseFault {
    /// A well-formed notification or revocation of a kind the parser does not know.
    UnknownKind,
    /// Anything else: not JSON, or not the envelope the stream uses.
    Malformed,
}

/// What the stream's parser makes of a text frame.
pub uninterp spec fn websocket_frame(text: Seq<char>) -> Result<ParsedFrame, ParseFault>;

/// Relies on the public fields of twitch_api's `SessionData`: moves each
/// into the plain field of the same name.
#[verifier::external_body]
fn session_fields(s: twitch_api::eventsub::SessionData<'_>) -> (r: SessionFields)
{
    SessionFields {
        id: s.id.into_owned(),
        keepalive_timeout_seconds: s.keepalive_timeout_seconds,
        reconnect_url: s.reconnect_url.map(|u| u.into_owned()),
    }
}

/// Relies on `Event::parse_websocket` of twitch_api, which reads the
/// envelope, tells its message types apart and refuses a kind that it does
/// not implement with `UnimplementedEvent`: its result depends on the text alone.
#[verifier::external_body]
fn parse_websocket(text: &str) -> (r: Result<ParsedFrame, ParseFault>)
    ensures
        r == websocket_frame(text@),
{
    match Event::parse_websocket(text) {
        Ok(D::Welcome { payload: p, .. }) => Ok(ParsedFrame::Session(session_fields(p.session), false)),
        Ok(D::Reconnect { payload: p, .. }) => Ok(ParsedFrame::Session(session_fields(p.session), true)),
        Ok(D::Keepalive { .. }) => Ok(ParsedFrame::Keepalive),
        Ok(D::Notification { metadata, payload }) => Ok(ParsedFrame::Notification(payload, metadata.message_timestamp.into_owned())),
        Ok(D::Revocation { .. }) => Ok(ParsedFrame::Revocation),
        Ok(_) => Ok(ParsedFrame::Other),
        Err(E::UnimplementedEvent { .. }) => Err(ParseFault::UnknownKind),
        Err(_) => Err(ParseFault::Malformed),
    }
}

/// The events that this client publishes, each with the time the server sent it.
#[derive(Debug, Clone)]
pub enum Events {
    ChannelModerateV2(
        twitch_api::eventsub::channel::ChannelModerateV2Payload,
        twitch_api::types::Timestamp,
    ),
}

/// The moderation payload that a notification event carries, if it is one.
pub uninterp spec fn moderate_payload_of(e: twitch_api::eventsub::Event) -> Option<
    twitch_api::eventsub::channel::ChannelModerateV2Payload,
>;

/// Relies on twitch_api's `Event`: the payload of a channel.moderate v2
/// notification, and nothing for any other event.
#[verifier::external_body]
fn moderate_payload(e: twitch_api::eventsub::Event) -> (r: Option<
    twitch_api::eventsub::channel::ChannelModerateV2Payload,
>)
    ensures
        r == moderate_payload_of(e),
{
    match e {
        Event::ChannelModerateV2(Payload { message: Message::Notification(p), .. }) => Some(p),
        _ => None,
    }
}

/// The event that a notification becomes: only the kinds this client
/// supports become one.
pub open spec fn event_of(e: twitch_api::eventsub::Event, t: twitch_api::types::Timestamp) -> Option<
    Events,
> {
    match moderate_payload_of(e) {
        Some(p) => Some(Events::ChannelModerateV2(p, t)),
        None => None,
    }
}

impl Events {
    /// The event that `event`, sent at `timestamp`, becomes; `None` for a
    /// kind that this client does not support.
    pub fn new(event: twitch_api::eventsub::Event, timestamp: twitch_api::types::Timestamp) -> (r:
        Option<Events>)
        ensures
            r == event_of(event, timestamp),
    {
        match moderate_payload(event) {
            Some(p) => Some(Events::ChannelModerateV2(p, timestamp)),
            None => None,
        }
    }
}

/// A decoded text frame, as the stream loop takes it.
#[derive(Debug)]
pub enum Frame {
    /// A welcome (`false`) or reconnect (`true`) control frame.
    Session(SessionFields, bool),
    Keepalive,
    /// A notification, with its event if it is of a supported kind.
    Notification(Option<Events>),
    Revocation,
    /// A frame that carries nothing for this client.
    Other,
}

/// Why a text frame could not be decoded.
#[derive(Debug, Clone, Copy, PartialEq, Eq, Structural)]
pub enum DecodeError {
    Malformed,
}

/// The message type that the envelope of a frame names, if it names one.
pub open spec fn message_type_of(text: Seq<char>) -> Option<Seq<char>> {
    match json_of(text) {
        Some(v) => match json_at(v, "/metadata/message_type"@) {
            Some(f) => json_str(f),
            None => None,
        },
        None => None,
    }
}

/// The frame's envelope says it is a notification.
pub open spec fn is_notification_spec(text: Seq<char>) -> bool {
    message_type_of(text) == Some("notification"@)
}

/// Whether the envelope of `text` says it is a notification.
pub fn is_notification(text: &str) -> (r: bool)
    ensures
        r == is_notification_spec(text@),
{
    match parse_json(text) {
        None => false,
        Some(v) => match v.pointer("/metadata/message_type") {
            None => false,
            Some(f) => match f.as_str() {
                None => false,
                Some(t) => t.to_owned() == String::from_str("notification"),
            },
        },
    }
}

/// What a parser result becomes, given whether the envelope says the frame
/// is a notification. A notification that carries no event this client
/// knows (its kind unknown to the parser, or its payload unreadable) is no
/// error: it carries no event.
pub open spec fn frame_of(p: Result<ParsedFrame, ParseFault>, notification: bool) -> Result<Frame, DecodeError> {
    match p {
        Ok(ParsedFrame::Session(d, reconnect)) => Ok(Frame::Session(d, reconnect)),
        Ok(ParsedFrame::Keepalive) => Ok(Frame::Keepalive),
        Ok(ParsedFrame::Notification(e, t)) => Ok(Frame::Notification(event_of(e, t))),
        Ok(ParsedFrame::Revocation) => Ok(Frame::Revocation),
        Ok(ParsedFrame::Other) => Ok(Frame::Other),
        Err(ParseFault::UnknownKind) => Ok(Frame::Notification(None)),
        Err(ParseFault::Malformed) => if notification {
            Ok(Frame::Notification(None))
        } else {
            Err(DecodeError::Malformed)
        },
    }
}

/// Turns a parser result into a frame, given whether the envelope says the
/// frame is a notification.
pub fn classify(p: Result<ParsedFrame, ParseFault>, notification: bool) -> (r: Result<Frame, DecodeError>)
    ensures
        r == frame_of(p, notification),
{
    match p {
        Ok(ParsedFrame::Session(d, reconnect)) => Ok(Frame::Session(d, reconnect)),
        Ok(ParsedFrame::Keepalive) => Ok(Frame::Keepalive),
        Ok(ParsedFrame::Notification(e, t)) => Ok(Frame::Notification(Events::new(e, t))),
        Ok(ParsedFrame::Revocation) => Ok(Frame::Revocation),
        Ok(ParsedFrame::Other) => Ok(Frame::Other),
        Err(ParseFault::UnknownKind) => Ok(Frame::Notification(None)),
        Err(ParseFault::Malformed) => if notification {
            Ok(Frame::Notification(None))
        } else {
            Err(DecodeError::Malformed)
        },
    }
}

/// Decodes a text frame of the event stream.
pub fn decode(text: &str) -> (r: Result<Frame, DecodeError>)
    ensures
        r == frame_of(websocket_frame(text@), is_notification_spec(text@)),
{
    classify(parse_websocket(text), is_notification(text))
}

/// A notification of a kind that the parser does not know, or of a kind
/// that this client does not support, or whose payload does not read,
/// decodes to a notification without an event, and to no error.
pub proof fn lemma_unknown_kind_is_no_error(text: Seq<char>)
    requires
        websocket_frame(text) == Err::<ParsedFrame, ParseFault>(ParseFault::UnknownKind)
            || (is_notification_spec(text) && websocket_frame(text) is Err)
            || (websocket_frame(text) matches Ok(ParsedFrame::Notification(e, _))
                && moderate_payload_of(e) is None),
    ensures
        frame_of(websocket_frame(text), is_notification_spec(text)) == Ok::<Frame, DecodeError>(
            Frame::Notification(None),
        ),
{
}

} // verus!
