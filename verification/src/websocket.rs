//! The event stream: what is asked for when it opens, which frames are events,
//! which events are handed on, and the lifecycle of one connection.

use crate::client::{auth_header, auth_header_value, authority, loopback_authority};
use crate::error::{LcuError, LcuErrorView};
use crate::json::{json_document, optional_document, parse_json, Json, JsonView};
use crate::text::{contains_text, decimal_digits, has_substring};
use crate::types::{LcuCredentials, LcuCredentialsView, LcuEvent, LcuEventView};
use vstd::prelude::*;
use vstd::string::StringSliceAdditionalSpecFns;
use vstd::utf8::encode_utf8;

verus! {

/// The code that opens an event frame.
pub const EVENT_CODE: u64 = 8;

/// The text by which the resources of the champion select are recognised.
pub open spec fn champ_select_marker() -> Seq<char> {
    "/lol-champ-select/"@
}

/// The text of member `name` of `payload`; `fallback` where `payload` has no
/// such member or it is no string.
pub open spec fn text_member(payload: JsonView, name: Seq<char>, fallback: Seq<char>) -> Seq<
    char,
> {
    match payload.get(name) {
        Some(value) => match value.as_str() {
            Some(text) => text,
            None => fallback,
        },
        None => fallback,
    }
}

/// The event that a document carries, where it is one to hand on: a list of
/// three items or more that opens with the event code and whose third item
/// names a resource of the champion select. An event that does not say what
/// happened is an `Update`, and one without content has `null` for it.
pub open spec fn frame_event(document: Option<JsonView>) -> Option<LcuEventView> {
    match document {
        Some(JsonView::Array(items)) => {
            if items.len() >= 3 && items[0].as_u64() == Some(EVENT_CODE) {
                let payload = items[2];
                let uri = text_member(payload, "uri"@, Seq::empty());
                if has_substring(uri, champ_select_marker()) {
                    Some(
                        LcuEventView {
                            uri,
                            event_type: text_member(payload, "eventType"@, "Update"@),
                            data: match payload.get("data"@) {
                                Some(value) => value,
                                None => JsonView::Null,
                            },
                        },
                    )
                } else {
                    None
                }
            } else {
                None
            }
        },
        _ => None,
    }
}

/// Mathematical value of an event that may be absent.
pub open spec fn optional_event(event: Option<LcuEvent>) -> Option<LcuEventView> {
    match event {
        Some(e) => Some(e@),
        None => None,
    }
}

/// The text of member `name` of `payload`, or `fallback`.
fn text_member_of(payload: &Json, name: &str, fallback: &str) -> (text: String)
    ensures
        text@ == text_member(payload@, name@, fallback@),
{
    match payload.get(name) {
        Some(value) => match value.as_str() {
            Some(text) => String::from_str(text),
            None => String::from_str(fallback),
        },
        None => String::from_str(fallback),
    }
}

/// The event that a parsed frame carries, where it is one to hand on.
pub fn event_of_document(document: &Option<Json>) -> (event: Option<LcuEvent>)
    ensures
        optional_event(event) == frame_event(optional_document(*document)),
{
    match document {
        Some(Json::Array(items)) => {
            if items.len() < 3 {
                return None;
            }
            match items[0].as_u64() {
                Some(code) => {
                    if code != EVENT_CODE {
                        return None;
                    }
                },
                None => {
                    return None;
                },
            }
            let payload = &items[2];
            proof {
                reveal_strlit("");
            }
            let uri = text_member_of(payload, "uri", "");
            assert(uri@ == text_member(payload@, "uri"@, Seq::empty()));
            if !contains_text(uri.as_str(), "/lol-champ-select/") {
                return None;
            }
            let event_type = text_member_of(payload, "eventType", "Update");
            let data = match payload.get("data") {
                Some(value) => value.clone(),
                None => Json::Null,
            };
            Some(LcuEvent { uri, event_type, data })
        },
        _ => None,
    }
}

/// The event that the text of a frame carries, where it is one to hand on.
/// A text that is no JSON document carries none.
pub fn decode_frame(text: &str) -> (event: Option<LcuEvent>)
    ensures
        optional_event(event) == frame_event(json_document(text.spec_bytes())),
{
    let document = parse_json(text.as_bytes());
    event_of_document(&document)
}

/// An event that names a resource of the champion select and says neither
/// what happened nor what the resource holds is handed on as an `Update`
/// with `null` for its content.
pub proof fn lemma_event_defaults(items: Seq<JsonView>)
    requires
        items.len() >= 3,
        items[0].as_u64() == Some(EVENT_CODE),
        has_substring(text_member(items[2], "uri"@, Seq::empty()), champ_select_marker()),
        items[2].get("eventType"@) is None,
        items[2].get("data"@) is None,
    ensures
        frame_event(Some(JsonView::Array(items))) == Some(
            LcuEventView {
                uri: text_member(items[2], "uri"@, Seq::empty()),
                event_type: "Update"@,
                data: JsonView::Null,
            },
        ),
{
}

/// Nothing is handed on for a frame that is no JSON document, for a document
/// that is no list of three items or more, for a list that opens with
/// anything but the event code, and for an event that names no resource of
/// the champion select.
pub proof fn lemma_frame_dropped(document: Option<JsonView>)
    requires
        ({
            ||| document is None
            ||| !(document->0 is Array)
            ||| document->0->Array_0.len() < 3
            ||| document->0->Array_0[0].as_u64() != Some(EVENT_CODE)
            ||| !has_substring(
                text_member(document->0->Array_0[2], "uri"@, Seq::empty()),
                champ_select_marker(),
            )
        }),
    ensures
        frame_event(document) is None,
{
}

/// An event without a resource names none of the champion select: the empty
/// text does not hold the marker.
pub proof fn lemma_empty_uri_dropped()
    ensures
        !has_substring(Seq::empty(), champ_select_marker()),
{
    reveal_strlit("/lol-champ-select/");
    assert(champ_select_marker().len() == 18);
}

/// What is sent to open the stream: the address, the headers in the order
/// in which they are written, and whether a certificate that cannot be
/// validated is accepted.
#[derive(Debug, PartialEq, Eq)]
pub struct HandshakeRequest {
    pub uri: String,
    pub headers: Vec<(String, String)>,
    pub accept_invalid_certs: bool,
}

/// Mathematical value of [`HandshakeRequest`].
pub struct HandshakeRequestView {
    pub uri: Seq<char>,
    pub headers: Seq<(Seq<char>, Seq<char>)>,
    pub accept_invalid_certs: bool,
}

impl View for HandshakeRequest {
    type V = HandshakeRequestView;

    open spec fn view(&self) -> HandshakeRequestView {
        HandshakeRequestView {
            uri: self.uri@,
            headers: Seq::new(
                self.headers.len() as nat,
                |i: int| (self.headers[i].0@, self.headers[i].1@),
            ),
            accept_invalid_certs: self.accept_invalid_certs,
        }
    }
}

/// The request that opens the stream of the client behind `creds`, with
/// `key` as the key of the upgrade. The client shows a certificate that it
/// has signed itself, which is accepted.
pub open spec fn handshake_request_of(creds: LcuCredentialsView, key: Seq<char>)
    -> HandshakeRequestView {
    HandshakeRequestView {
        uri: "wss://"@ + loopback_authority(creds.port),
        headers: seq![
            ("Authorization"@, auth_header_value(creds.password)),
            ("Host"@, loopback_authority(creds.port)),
            ("Connection"@, "Upgrade"@),
            ("Upgrade"@, "websocket"@),
            ("Sec-WebSocket-Version"@, "13"@),
            ("Sec-WebSocket-Key"@, key),
        ],
        accept_invalid_certs: true,
    }
}

/// A certificate that cannot be validated is accepted only from the
/// loopback device: the stream is opened to `127.0.0.1`.
pub proof fn lemma_stream_stays_local(creds: LcuCredentialsView, key: Seq<char>)
    ensures
        ("wss://"@ + "127.0.0.1:"@).is_prefix_of(handshake_request_of(creds, key).uri),
{
    let front = "wss://"@ + "127.0.0.1:"@;
    let uri = handshake_request_of(creds, key).uri;
    assert(uri =~= front + decimal_digits(creds.port as nat));
    assert(uri.subrange(0, front.len() as int) =~= front);
}

/// A header of a request.
fn header(name: &str, value: String) -> (h: (String, String))
    ensures
        h.0@ == name@,
        h.1@ == value@,
{
    (String::from_str(name), value)
}

/// The request that opens the stream, with `key` as the key of the upgrade.
pub fn handshake_request(creds: &LcuCredentials, key: &str) -> (request: HandshakeRequest)
    ensures
        request@ == handshake_request_of(creds@, key@),
{
    let mut uri = String::from_str("wss://");
    uri.append(authority(creds).as_str());
    let mut headers: Vec<(String, String)> = Vec::new();
    headers.push(header("Authorization", auth_header(creds)));
    headers.push(header("Host", authority(creds)));
    headers.push(header("Connection", String::from_str("Upgrade")));
    headers.push(header("Upgrade", String::from_str("websocket")));
    headers.push(header("Sec-WebSocket-Version", String::from_str("13")));
    headers.push(header("Sec-WebSocket-Key", String::from_str(key)));
    let request = HandshakeRequest { uri, headers, accept_invalid_certs: true };
    assert(request@.headers =~= handshake_request_of(creds@, key@).headers);
    request
}

/// `generate_key` of `tungstenite::handshake::client`: a key for one
/// upgrade, made from random bytes. Nothing is claimed of it.
#[verifier::external_body]
fn fresh_key() -> String {
    tokio_tungstenite::tungstenite::handshake::client::generate_key()
}

/// The text that subscribes to every event of the client's JSON interface.
pub open spec fn subscribe_text() -> Seq<char> {
    "[5, \"OnJsonApiEvent\"]"@
}

/// The text that subscribes to every event of the client's JSON interface.
pub fn subscribe_message() -> (text: String)
    ensures
        text@ == subscribe_text(),
{
    String::from_str("[5, \"OnJsonApiEvent\"]")
}

/// Where one connection stands.
#[derive(Debug, Clone, Copy, PartialEq, Eq, Structural)]
pub enum StreamState {
    /// Nothing has been asked for yet.
    Idle,
    /// The connection is being opened.
    Handshaking,
    /// Connected; the subscription is being sent.
    Subscribing,
    /// Connected; the consumer is being told so.
    Announcing,
    /// Connected; waiting for the next frame.
    Listening,
    /// Connected; an event is being handed to the consumer.
    Forwarding,
    /// The stream has ended; the consumer is being told so.
    Closing,
    /// Nothing more happens on this connection.
    Closed,
}

/// The five stages that a connection passes through.
#[derive(Debug, Clone, Copy, PartialEq, Eq, Structural)]
pub enum Phase {
    Idle,
    Handshaking,
    Connected,
    Closing,
    Closed,
}

/// What was received from the stream.
#[derive(Debug, PartialEq, Eq)]
pub enum Frame {
    /// A frame of text.
    Text(String),
    /// The frame by which the client ends the stream.
    Close,
    /// Any other frame.
    Other,
}

/// Mathematical value of [`Frame`].
pub enum FrameView {
    Text(Seq<char>),
    Close,
    Other,
}

impl View for Frame {
    type V = FrameView;

    open spec fn view(&self) -> FrameView {
        match self {
            Frame::Text(text) => FrameView::Text(text@),
            Frame::Close => FrameView::Close,
            Frame::Other => FrameView::Other,
        }
    }
}

/// What the outside reports back to the stream.
#[derive(Debug, PartialEq, Eq)]
pub enum StreamInput {
    /// The stream is to be opened to the client behind these credentials,
    /// with this key for the upgrade.
    Start(LcuCredentials, String),
    /// The connection is open.
    Opened,
    /// The connection could not be opened.
    OpenFailed(String),
    /// The text was sent.
    Sent,
    /// The text could not be sent.
    SendFailed(String),
    /// The consumer has the notification.
    Notified,
    /// A frame arrived.
    Received(Frame),
    /// Reading from the stream failed.
    ReadFailed(String),
    /// The stream has no more frames.
    Ended,
}

/// Mathematical value of [`StreamInput`].
pub enum StreamInputView {
    Start(LcuCredentialsView, Seq<char>),
    Opened,
    OpenFailed(Seq<char>),
    Sent,
    SendFailed(Seq<char>),
    Notified,
    Received(FrameView),
    ReadFailed(Seq<char>),
    Ended,
}

impl View for StreamInput {
    type V = StreamInputView;

    open spec fn view(&self) -> StreamInputView {
        match self {
            StreamInput::Start(creds, key) => StreamInputView::Start(creds@, key@),
            StreamInput::Opened => StreamInputView::Opened,
            StreamInput::OpenFailed(why) => StreamInputView::OpenFailed(why@),
            StreamInput::Sent => StreamInputView::Sent,
            StreamInput::SendFailed(why) => StreamInputView::SendFailed(why@),
            StreamInput::Notified => StreamInputView::Notified,
            StreamInput::Received(frame) => StreamInputView::Received(frame@),
            StreamInput::ReadFailed(why) => StreamInputView::ReadFailed(why@),
            StreamInput::Ended => StreamInputView::Ended,
        }
    }
}

/// The input that starts a stream to the client behind `creds`, with a key
/// made for this one connection.
pub fn start(creds: LcuCredentials) -> (input: StreamInput)
    ensures
        exists|key: Seq<char>| input@ == StreamInputView::Start(creds@, key),
{
    let key = fresh_key();
    let input = StreamInput::Start(creds, key);
    assert(input@ == StreamInputView::Start(creds@, key@));
    input
}

/// What the consumer is told.
#[derive(Debug, PartialEq, Eq)]
pub enum Notification {
    /// The stream is open and subscribed.
    Connected,
    /// An event of the champion select.
    Event(LcuEvent),
    /// The stream has ended.
    Disconnected,
}

/// Mathematical value of [`Notification`].
pub enum NotificationView {
    Connected,
    Event(LcuEventView),
    Disconnected,
}

impl View for Notification {
    type V = NotificationView;

    open spec fn view(&self) -> NotificationView {
        match self {
            Notification::Connected => NotificationView::Connected,
            Notification::Event(event) => NotificationView::Event(event@),
            Notification::Disconnected => NotificationView::Disconnected,
        }
    }
}

/// What the stream asks the outside to do next. Each but the last is
/// answered by a [`StreamInput`].
#[derive(Debug, PartialEq, Eq)]
pub enum StreamCommand {
    /// Open the connection with this request.
    Connect(HandshakeRequest),
    /// Send this text.
    Send(String),
    /// Hand this to the consumer.
    Notify(Notification),
    /// Wait for the next frame.
    Receive,
    /// Stop, with this result.
    Stop(Result<(), LcuError>),
}

/// Mathematical value of [`StreamCommand`].
pub enum StreamCommandView {
    Connect(HandshakeRequestView),
    Send(Seq<char>),
    Notify(NotificationView),
    Receive,
    Stop(Result<(), LcuErrorView>),
}

impl View for StreamCommand {
    type V = StreamCommandView;

    open spec fn view(&self) -> StreamCommandView {
        match self {
            StreamCommand::Connect(request) => StreamCommandView::Connect(request@),
            StreamCommand::Send(text) => StreamCommandView::Send(text@),
            StreamCommand::Notify(notification) => StreamCommandView::Notify(notification@),
            StreamCommand::Receive => StreamCommandView::Receive,
            StreamCommand::Stop(Ok(())) => StreamCommandView::Stop(Ok(())),
            StreamCommand::Stop(Err(e)) => StreamCommandView::Stop(Err(e@)),
        }
    }
}

/// What a connected stream does with a frame of text: an event to hand on is
/// handed on, anything else is passed over.
pub open spec fn on_text(text: Seq<char>) -> (StreamState, StreamCommandView) {
    match frame_event(json_document(encode_utf8(text))) {
        Some(event) => (
            StreamState::Forwarding,
            StreamCommandView::Notify(NotificationView::Event(event)),
        ),
        None => (StreamState::Listening, StreamCommandView::Receive),
    }
}

/// What follows an input that the state was not waiting for: a stream that
/// has announced itself ends as after a failed read, any other stops with an
/// error.
pub open spec fn out_of_turn(state: StreamState) -> (StreamState, StreamCommandView) {
    match state {
        StreamState::Announcing | StreamState::Listening | StreamState::Forwarding => (
            StreamState::Closing,
            StreamCommandView::Notify(NotificationView::Disconnected),
        ),
        _ => (StreamState::Closed, StreamCommandView::Stop(Err(LcuErrorView::StreamOutOfTurn))),
    }
}

/// The state that follows `state` on `input`, and what is to be done next.
///
/// The connection is opened, the subscription sent, and the consumer told
/// that the stream is connected. From then on each frame of text that carries
/// an event of the champion select is handed on and every other frame passed
/// over, until the client closes the stream, a read fails or the frames end:
/// then the consumer is told that the stream is disconnected, and the stream
/// stops. A connection that cannot be opened, or a subscription that cannot
/// be sent, stops the stream with an error and the consumer is told nothing.
pub open spec fn stream_step(state: StreamState, input: StreamInputView) -> (
    StreamState,
    StreamCommandView,
) {
    match (state, input) {
        (StreamState::Idle, StreamInputView::Start(creds, key)) => (
            StreamState::Handshaking,
            StreamCommandView::Connect(handshake_request_of(creds, key)),
        ),
        (StreamState::Handshaking, StreamInputView::Opened) => (
            StreamState::Subscribing,
            StreamCommandView::Send(subscribe_text()),
        ),
        (StreamState::Handshaking, StreamInputView::OpenFailed(why)) => (
            StreamState::Closed,
            StreamCommandView::Stop(Err(LcuErrorView::StreamHandshakeFailed(why))),
        ),
        (StreamState::Subscribing, StreamInputView::Sent) => (
            StreamState::Announcing,
            StreamCommandView::Notify(NotificationView::Connected),
        ),
        (StreamState::Subscribing, StreamInputView::SendFailed(why)) => (
            StreamState::Closed,
            StreamCommandView::Stop(Err(LcuErrorView::StreamSubscribeFailed(why))),
        ),
        (StreamState::Announcing, StreamInputView::Notified) => (
            StreamState::Listening,
            StreamCommandView::Receive,
        ),
        (StreamState::Forwarding, StreamInputView::Notified) => (
            StreamState::Listening,
            StreamCommandView::Receive,
        ),
        (StreamState::Listening, StreamInputView::Received(FrameView::Text(text))) => on_text(
            text,
        ),
        (StreamState::Listening, StreamInputView::Received(FrameView::Other)) => (
            StreamState::Listening,
            StreamCommandView::Receive,
        ),
        (StreamState::Listening, StreamInputView::Received(FrameView::Close)) => (
            StreamState::Closing,
            StreamCommandView::Notify(NotificationView::Disconnected),
        ),
        (StreamState::Listening, StreamInputView::ReadFailed(_)) => (
            StreamState::Closing,
            StreamCommandView::Notify(NotificationView::Disconnected),
        ),
        (StreamState::Listening, StreamInputView::Ended) => (
            StreamState::Closing,
            StreamCommandView::Notify(NotificationView::Disconnected),
        ),
        (StreamState::Closing, StreamInputView::Notified) => (
            StreamState::Closed,
            StreamCommandView::Stop(Ok(())),
        ),
        _ => out_of_turn(state),
    }
}

impl StreamState {
    /// The stage that the state belongs to.
    pub open spec fn phase_of(self) -> Phase {
        match self {
            StreamState::Idle => Phase::Idle,
            StreamState::Handshaking => Phase::Handshaking,
            StreamState::Subscribing => Phase::Connected,
            StreamState::Announcing => Phase::Connected,
            StreamState::Listening => Phase::Connected,
            StreamState::Forwarding => Phase::Connected,
            StreamState::Closing => Phase::Closing,
            StreamState::Closed => Phase::Closed,
        }
    }

    /// A stream on which nothing has happened yet.
    pub fn new() -> (state: Self)
        ensures
            state == StreamState::Idle,
    {
        StreamState::Idle
    }

    /// The stage that the state belongs to.
    pub fn phase(&self) -> (phase: Phase)
        ensures
            phase == self.phase_of(),
    {
        match self {
            StreamState::Idle => Phase::Idle,
            StreamState::Handshaking => Phase::Handshaking,
            StreamState::Subscribing => Phase::Connected,
            StreamState::Announcing => Phase::Connected,
            StreamState::Listening => Phase::Connected,
            StreamState::Forwarding => Phase::Connected,
            StreamState::Closing => Phase::Closing,
            StreamState::Closed => Phase::Closed,
        }
    }

    /// What follows an input that the state was not waiting for.
    fn refuse(self) -> (next: (StreamState, StreamCommand))
        ensures
            next.0 == out_of_turn(self).0,
            next.1@ == out_of_turn(self).1,
    {
        match self {
            StreamState::Announcing | StreamState::Listening | StreamState::Forwarding => (
                StreamState::Closing,
                StreamCommand::Notify(Notification::Disconnected),
            ),
            _ => (StreamState::Closed, StreamCommand::Stop(Err(LcuError::StreamOutOfTurn))),
        }
    }

    /// The state that follows on `input`, and what is to be done next.
    pub fn step(self, input: StreamInput) -> (next: (StreamState, StreamCommand))
        ensures
            next.0 == stream_step(self, input@).0,
            next.1@ == stream_step(self, input@).1,
    {
        match self {
            StreamState::Idle => match input {
                StreamInput::Start(creds, key) => (
                    StreamState::Handshaking,
                    StreamCommand::Connect(handshake_request(&creds, key.as_str())),
                ),
                _ => self.refuse(),
            },
            StreamState::Handshaking => match input {
                StreamInput::Opened => (
                    StreamState::Subscribing,
                    StreamCommand::Send(subscribe_message()),
                ),
                StreamInput::OpenFailed(why) => (
                    StreamState::Closed,
                    StreamCommand::Stop(Err(LcuError::StreamHandshakeFailed(why))),
                ),
                _ => self.refuse(),
            },
            StreamState::Subscribing => match input {
                StreamInput::Sent => (
                    StreamState::Announcing,
                    StreamCommand::Notify(Notification::Connected),
                ),
                StreamInput::SendFailed(why) => (
                    StreamState::Closed,
                    StreamCommand::Stop(Err(LcuError::StreamSubscribeFailed(why))),
                ),
                _ => self.refuse(),
            },
            StreamState::Announcing | StreamState::Forwarding => match input {
                StreamInput::Notified => (StreamState::Listening, StreamCommand::Receive),
                _ => self.refuse(),
            },
            StreamState::Listening => match input {
                StreamInput::Received(Frame::Text(text)) => match decode_frame(text.as_str()) {
                    Some(event) => (
                        StreamState::Forwarding,
                        StreamCommand::Notify(Notification::Event(event)),
                    ),
                    None => (StreamState::Listening, StreamCommand::Receive),
                },
                StreamInput::Received(Frame::Other) => (
                    StreamState::Listening,
                    StreamCommand::Receive,
                ),
                StreamInput::Received(Frame::Close) | StreamInput::ReadFailed(_)
                | StreamInput::Ended => (
                    StreamState::Closing,
                    StreamCommand::Notify(Notification::Disconnected),
                ),
                _ => self.refuse(),
            },
            StreamState::Closing => match input {
                StreamInput::Notified => (StreamState::Closed, StreamCommand::Stop(Ok(()))),
                _ => self.refuse(),
            },
            StreamState::Closed => self.refuse(),
        }
    }
}

/// The state after `inputs`, one after the other, from a fresh stream, and
/// the commands given on the way.
pub open spec fn stream_run(inputs: Seq<StreamInputView>) -> (
    StreamState,
    Seq<StreamCommandView>,
)
    decreases inputs.len(),
{
    if inputs.len() == 0 {
        (StreamState::Idle, Seq::empty())
    } else {
        let before = stream_run(inputs.drop_last());
        let last = stream_step(before.0, inputs.last());
        (last.0, before.1.push(last.1))
    }
}

/// What the consumer is told in the course of `commands`.
pub open spec fn notifications(commands: Seq<StreamCommandView>) -> Seq<NotificationView>
    decreases commands.len(),
{
    if commands.len() == 0 {
        Seq::empty()
    } else {
        let before = notifications(commands.drop_last());
        match commands.last() {
            StreamCommandView::Notify(n) => before.push(n),
            _ => before,
        }
    }
}

/// `told` is `Connected`, followed by events only.
pub open spec fn announced(told: Seq<NotificationView>) -> bool {
    &&& told.len() >= 1
    &&& told[0] == NotificationView::Connected
    &&& forall|i: int| 1 <= i < told.len() ==> (#[trigger] told[i]) is Event
}

/// `told` is `Connected`, then events only, then `Disconnected`.
pub open spec fn concluded(told: Seq<NotificationView>) -> bool {
    &&& told.len() >= 2
    &&& announced(told.drop_last())
    &&& told.last() == NotificationView::Disconnected
}

/// What the consumer can have been told by the time the stream is in
/// `state`.
pub open spec fn told_so_far(state: StreamState, told: Seq<NotificationView>) -> bool {
    match state {
        StreamState::Idle | StreamState::Handshaking | StreamState::Subscribing => told.len()
            == 0,
        StreamState::Announcing => told == seq![NotificationView::Connected],
        StreamState::Listening | StreamState::Forwarding => announced(told),
        StreamState::Closing => concluded(told),
        StreamState::Closed => told.len() == 0 || concluded(told),
    }
}

/// Whatever the outside reports and in whatever order, the consumer is told
/// nothing at all, or `Connected` once and first, after it events only, and,
/// once the stream has reached its end, `Disconnected` once and last. A
/// stream that has stopped tells the consumer nothing more.
pub proof fn lemma_stream_lifecycle(inputs: Seq<StreamInputView>)
    ensures
        told_so_far(stream_run(inputs).0, notifications(stream_run(inputs).1)),
    decreases inputs.len(),
{
    if inputs.len() > 0 {
        lemma_stream_lifecycle(inputs.drop_last());
        let before = stream_run(inputs.drop_last());
        let told = notifications(before.1);
        let last = stream_step(before.0, inputs.last());
        let commands = before.1.push(last.1);
        assert(commands.drop_last() == before.1);
        assert(commands.last() == last.1);
        let now = notifications(commands);
        match last.1 {
            StreamCommandView::Notify(n) => {
                assert(now == told.push(n));
                assert(now.drop_last() == told);
                match n {
                    NotificationView::Connected => {
                        assert(before.0 == StreamState::Subscribing);
                        assert(now =~= seq![NotificationView::Connected]);
                    },
                    NotificationView::Event(_) => {
                        assert(before.0 == StreamState::Listening);
                        assert forall|i: int| 1 <= i < now.len() implies (
                        #[trigger] now[i]) is Event by {
                            if i < told.len() {
                                assert(now[i] == told[i]);
                            }
                        }
                    },
                    NotificationView::Disconnected => {
                        assert(announced(told));
                    },
                }
            },
            _ => {
                assert(now == told);
            },
        }
    }
}

/// A stream that has stopped stays stopped, and the consumer is told nothing
/// more.
pub proof fn lemma_closed_is_final(input: StreamInputView)
    ensures
        stream_step(StreamState::Closed, input).0 == StreamState::Closed,
        stream_step(StreamState::Closed, input).1 is Stop,
{
}

} // verus!
