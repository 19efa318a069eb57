//! Typed websocket message models, the request-ID bookkeeping of the
//! websocket client, and the decisions it takes on each incoming frame.
//!
//! The models mirror the documented X-Plane websocket payload shapes for API
//! v3. The transport itself (connecting, sending and receiving frames) is
//! driven by the caller; this module decides what each step means.
use std::collections::HashMap;
use crate::error::join_text;
use crate::foreign::{
    display_json_error, display_tungstenite_error, display_utf8_error, utf8_error_for,
    utf8_error_text,
};
use vstd::prelude::*;
use vstd::utf8::{decode_utf8, valid_utf8};

verus! {

/// Default websocket URL for the local X-Plane API v3 endpoint.
pub const DEFAULT_WS_API_URL: &'static str = "ws://localhost:8086/api/v3";

/// The wildcard selector: every subscribed item.
#[derive(Clone, Debug, PartialEq, Eq, Structural)]
pub enum All {
    All,
}

/// Either the wildcard selector or an explicit list of items.
#[derive(Clone, Debug, PartialEq, Eq)]
pub enum AllOrList<T> {
    All(All),
    List(Vec<T>),
}

/// One array index or several array indices of a dataref.
#[derive(Clone, Debug, PartialEq, Eq)]
pub enum DatarefIndex {
    Single(u64),
    Multiple(Vec<u64>),
}

/// A dataref, and optionally which of its array elements, to subscribe to.
#[derive(Clone, Debug, PartialEq, Eq)]
pub struct DatarefSelection {
    pub id: u64,
    pub index: Option<DatarefIndex>,
}

/// A value to write into a dataref, optionally at one array index.
#[derive(Clone, Debug, PartialEq)]
pub struct DatarefValueSet {
    pub id: u64,
    pub value: serde_json::Value,
    pub index: Option<u64>,
}

/// A command to subscribe to.
#[derive(Clone, Debug, PartialEq, Eq, Structural)]
pub struct CommandSelection {
    pub id: u64,
}

/// A command activation change.
///
/// `duration_bits` holds the optional duration in seconds as the IEEE-754
/// bit pattern that `f64::to_bits` gives; `f64::from_bits` turns it back into
/// the number sent on the wire.
#[derive(Clone, Debug, PartialEq, Eq)]
pub struct CommandSetActive {
    pub id: u64,
    pub is_active: bool,
    pub duration_bits: Option<u64>,
}

#[derive(Clone, Debug, PartialEq, Eq)]
pub struct DatarefSubscribeParams {
    pub datarefs: Vec<DatarefSelection>,
}

#[derive(Clone, Debug, PartialEq, Eq)]
pub struct DatarefUnsubscribeParams {
    pub datarefs: AllOrList<DatarefSelection>,
}

#[derive(Clone, Debug, PartialEq)]
pub struct DatarefSetValuesParams {
    pub datarefs: Vec<DatarefValueSet>,
}

#[derive(Clone, Debug, PartialEq, Eq)]
pub struct CommandSubscribeParams {
    pub commands: Vec<CommandSelection>,
}

#[derive(Clone, Debug, PartialEq, Eq)]
pub struct CommandUnsubscribeParams {
    pub commands: AllOrList<CommandSelection>,
}

#[derive(Clone, Debug, PartialEq, Eq)]
pub struct CommandSetActiveParams {
    pub commands: Vec<CommandSetActive>,
}

/// A request sent by the client; on the wire its `type` field names the
/// variant (`dataref_subscribe_values`, ...).
#[derive(Clone, Debug, PartialEq)]
pub enum ClientMessage {
    DatarefSubscribeValues { req_id: u64, params: DatarefSubscribeParams },
    DatarefUnsubscribeValues { req_id: u64, params: DatarefUnsubscribeParams },
    DatarefSetValues { req_id: u64, params: DatarefSetValuesParams },
    CommandSubscribeIsActive { req_id: u64, params: CommandSubscribeParams },
    CommandUnsubscribeIsActive { req_id: u64, params: CommandUnsubscribeParams },
    CommandSetIsActive { req_id: u64, params: CommandSetActiveParams },
}

impl ClientMessage {
    /// The request ID that the message carries.
    pub open spec fn request_id(self) -> u64 {
        match self {
            ClientMessage::DatarefSubscribeValues { req_id, .. } => req_id,
            ClientMessage::DatarefUnsubscribeValues { req_id, .. } => req_id,
            ClientMessage::DatarefSetValues { req_id, .. } => req_id,
            ClientMessage::CommandSubscribeIsActive { req_id, .. } => req_id,
            ClientMessage::CommandUnsubscribeIsActive { req_id, .. } => req_id,
            ClientMessage::CommandSetIsActive { req_id, .. } => req_id,
        }
    }

    /// Returns the request ID that the message carries.
    pub fn req_id(&self) -> (id: u64)
        ensures
            id == self.request_id(),
    {
        match self {
            ClientMessage::DatarefSubscribeValues { req_id, .. } => *req_id,
            ClientMessage::DatarefUnsubscribeValues { req_id, .. } => *req_id,
            ClientMessage::DatarefSetValues { req_id, .. } => *req_id,
            ClientMessage::CommandSubscribeIsActive { req_id, .. } => *req_id,
            ClientMessage::CommandUnsubscribeIsActive { req_id, .. } => *req_id,
            ClientMessage::CommandSetIsActive { req_id, .. } => *req_id,
        }
    }
}

/// A message sent by the server; on the wire its `type` field names the
/// variant (`result`, `dataref_update_values`, `command_update_is_active`).
#[derive(Clone, Debug, PartialEq, Eq)]
pub enum ServerMessage {
    Result {
        req_id: u64,
        success: bool,
        error_code: Option<String>,
        error_message: Option<String>,
    },
    DatarefUpdateValues { data: HashMap<String, serde_json::Value> },
    CommandUpdateIsActive { data: HashMap<String, bool> },
}

/// Errors produced while connecting to, sending to, or receiving from the
/// websocket API.
#[derive(Debug)]
pub enum WebSocketApiError {
    /// Opening the connection failed.
    Connect { source: tokio_tungstenite::tungstenite::Error },
    /// Sending or receiving a frame failed.
    Transport { source: tokio_tungstenite::tungstenite::Error },
    /// A request could not be encoded as JSON.
    Serialize { source: serde_json::Error },
    /// A binary frame did not hold UTF-8 text.
    BinaryUtf8 { source: std::str::Utf8Error },
    /// A text payload was not a server message.
    Deserialize { payload: String, source: serde_json::Error },
}

impl WebSocketApiError {
    /// The fixed beginning of the message that describes the error; for a
    /// binary frame that is not UTF-8 it is the whole message. The rest of
    /// the other messages is the text of the transport or JSON error, which
    /// may hold the operating system's wording of an I/O error.
    pub open spec fn message_prefix(self) -> Seq<char> {
        match self {
            WebSocketApiError::Connect { .. } => "Failed to connect to websocket API: "@,
            WebSocketApiError::Transport { .. } => "Failed to send or receive websocket message: "@,
            WebSocketApiError::Serialize { .. } => "Failed to serialize websocket payload: "@,
            WebSocketApiError::BinaryUtf8 { source } =>
                "Failed to parse UTF-8 websocket binary payload: "@ + utf8_error_text(source),
            WebSocketApiError::Deserialize { payload, .. } =>
                "Failed to deserialize websocket payload `"@ + payload@ + "`: "@,
        }
    }

    /// Returns the message that describes the error.
    pub fn message(&self) -> (text: String)
        ensures
            self.message_prefix().is_prefix_of(text@),
            self is BinaryUtf8 ==> text@ == self.message_prefix(),
    {
        let text = match self {
            WebSocketApiError::Connect { source } => {
                let text = display_tungstenite_error(source);
                join_text("Failed to connect to websocket API: ", text.as_str())
            },
            WebSocketApiError::Transport { source } => {
                let text = display_tungstenite_error(source);
                join_text("Failed to send or receive websocket message: ", text.as_str())
            },
            WebSocketApiError::Serialize { source } => {
                let text = display_json_error(source);
                join_text("Failed to serialize websocket payload: ", text.as_str())
            },
            WebSocketApiError::BinaryUtf8 { source } => {
                let text = display_utf8_error(source);
                join_text("Failed to parse UTF-8 websocket binary payload: ", text.as_str())
            },
            WebSocketApiError::Deserialize { payload, source } => {
                let source_text = display_json_error(source);
                let mut text = join_text("Failed to deserialize websocket payload `", payload.as_str());
                text.append("`: ");
                text.append(source_text.as_str());
                text
            },
        };
        proof {
            assert(self.message_prefix() =~= text@.subrange(0, self.message_prefix().len() as int));
        }
        text
    }
}

/// What the transport delivered when the client asked for the next frame.
pub enum IncomingFrame {
    /// A text frame.
    Text(String),
    /// A binary frame.
    Binary(Vec<u8>),
    /// A ping frame (its payload is not needed).
    Ping,
    /// A pong frame (its payload is not needed).
    Pong,
    /// A close frame.
    Close,
    /// A raw frame of another kind.
    Frame,
    /// The stream ended.
    StreamEnded,
    /// The transport failed.
    TransportFailed(tokio_tungstenite::tungstenite::Error),
}

/// What the client does with an incoming frame.
pub enum FrameOutcome {
    /// Wait for the next frame.
    Skip,
    /// The connection is over: receiving yields no message.
    Closed,
    /// This text is the JSON of the next server message.
    Payload(String),
    /// Receiving fails with this error.
    Failed(WebSocketApiError),
}

/// Whether receiving skips a frame and waits for the next one: ping, pong
/// and raw frames are skipped.
pub open spec fn is_skipped_frame(frame: IncomingFrame) -> bool {
    ||| frame is Ping
    ||| frame is Pong
    ||| frame is Frame
}

/// The frame that decides one receive over the frames the transport
/// delivers in turn: the first one that is not skipped, if any.
pub open spec fn deciding_frame(frames: Seq<IncomingFrame>) -> Option<IncomingFrame>
    decreases frames.len(),
{
    if frames.len() == 0 {
        None
    } else if is_skipped_frame(frames[0]) {
        deciding_frame(frames.drop_first())
    } else {
        Some(frames[0])
    }
}

/// How many frames one receive takes: the skipped ones up to and including
/// the deciding frame, or all of them when none decides.
pub open spec fn frames_taken(frames: Seq<IncomingFrame>) -> nat
    decreases frames.len(),
{
    if frames.len() == 0 {
        0
    } else if is_skipped_frame(frames[0]) {
        1 + frames_taken(frames.drop_first())
    } else {
        1
    }
}

/// A receive takes no more frames than there are.
proof fn lemma_frames_taken_bounded(frames: Seq<IncomingFrame>)
    ensures
        frames_taken(frames) <= frames.len(),
    decreases frames.len(),
{
    if frames.len() > 0 {
        lemma_frames_taken_bounded(frames.drop_first());
    }
}

/// Skipped frames delivered before the others change nothing about a
/// receive: the same frame decides it, the receive takes the inserted frames
/// as well, and the frames it leaves for the next receive are the same.
pub proof fn lemma_skipped_frames_change_nothing(
    skipped: Seq<IncomingFrame>,
    frames: Seq<IncomingFrame>,
)
    requires
        forall|i: int| 0 <= i < skipped.len() ==> is_skipped_frame(#[trigger] skipped[i]),
    ensures
        deciding_frame(skipped + frames) == deciding_frame(frames),
        frames_taken(skipped + frames) == skipped.len() + frames_taken(frames),
        (skipped + frames).skip(frames_taken(skipped + frames) as int) == frames.skip(
            frames_taken(frames) as int,
        ),
    decreases skipped.len(),
{
    if skipped.len() == 0 {
        assert(skipped + frames =~= frames);
    } else {
        let rest = skipped.drop_first();
        assert((skipped + frames).drop_first() =~= rest + frames);
        assert(is_skipped_frame(skipped[0]));
        assert((skipped + frames)[0] == skipped[0]);
        lemma_skipped_frames_change_nothing(rest, frames);
        let all = skipped + frames;
        let k = frames_taken(rest + frames);
        lemma_frames_taken_bounded(rest + frames);
        assert(frames_taken(all) == 1 + k);
        assert(all.skip((1 + k) as int) =~= (rest + frames).skip(k as int));
    }
}

/// What a transport failure says about the connection, as far as receiving
/// is concerned.
#[derive(Clone, Copy, Debug, PartialEq, Eq, Structural)]
pub enum TransportFailureKind {
    /// The connection was closed after the close handshake
    /// (`tungstenite::Error::ConnectionClosed`).
    ConnectionClosed,
    /// The remote dropped the connection without a close handshake
    /// (`ProtocolError::ResetWithoutClosingHandshake`).
    ResetWithoutClosingHandshake,
    /// Any other failure.
    Other,
}

/// Which kind of transport failure a `tungstenite::Error` is.
pub uninterp spec fn transport_failure_kind_of(
    error: tokio_tungstenite::tungstenite::Error,
) -> TransportFailureKind;

/// Tells the variants of a `tungstenite::Error` apart: the normal close,
/// the protocol error for a connection reset without a close handshake, and
/// the rest. The answer depends on the error alone and is named
/// `transport_failure_kind_of`.
#[verifier::external_body]
fn transport_failure_kind(error: &tokio_tungstenite::tungstenite::Error) -> (kind:
    TransportFailureKind)
    ensures
        kind == transport_failure_kind_of(*error),
{
    match error {
        tokio_tungstenite::tungstenite::Error::ConnectionClosed => TransportFailureKind::ConnectionClosed,
        tokio_tungstenite::tungstenite::Error::Protocol(
            tokio_tungstenite::tungstenite::error::ProtocolError::ResetWithoutClosingHandshake,
        ) => TransportFailureKind::ResetWithoutClosingHandshake,
        _ => TransportFailureKind::Other,
    }
}

/// Whether a transport failure means that the remote closed the connection,
/// with or without the close handshake.
pub open spec fn remote_closed(error: tokio_tungstenite::tungstenite::Error) -> bool {
    !(transport_failure_kind_of(error) is Other)
}

/// Decides what an incoming frame means: text is a message payload, binary
/// is one once it decodes as UTF-8, control and raw frames are skipped, a
/// close frame, the end of the stream or a transport failure that shows the
/// remote closed the connection ends the exchange, and any other transport
/// failure is reported as such.
pub fn handle_incoming_frame(frame: IncomingFrame) -> (outcome: FrameOutcome)
    ensures
        outcome is Skip <==> is_skipped_frame(frame),
        match frame {
            IncomingFrame::Text(text) => outcome == FrameOutcome::Payload(text),
            IncomingFrame::Binary(bytes) => if valid_utf8(bytes@) {
                outcome matches FrameOutcome::Payload(text) && text@ == decode_utf8(bytes@)
            } else {
                outcome == FrameOutcome::Failed(
                    WebSocketApiError::BinaryUtf8 { source: utf8_error_for(bytes@) },
                )
            },
            IncomingFrame::Ping | IncomingFrame::Pong | IncomingFrame::Frame => outcome
                == FrameOutcome::Skip,
            IncomingFrame::Close | IncomingFrame::StreamEnded => outcome == FrameOutcome::Closed,
            IncomingFrame::TransportFailed(source) => if remote_closed(source) {
                outcome == FrameOutcome::Closed
            } else {
                outcome == FrameOutcome::Failed(WebSocketApiError::Transport { source })
            },
        },
{
    match frame {
        IncomingFrame::Text(text) => FrameOutcome::Payload(text),
        IncomingFrame::Binary(bytes) => match std::str::from_utf8(bytes.as_slice()) {
            Ok(text) => FrameOutcome::Payload(text.to_owned()),
            Err(source) => FrameOutcome::Failed(WebSocketApiError::BinaryUtf8 { source }),
        },
        IncomingFrame::Ping | IncomingFrame::Pong | IncomingFrame::Frame => FrameOutcome::Skip,
        IncomingFrame::Close | IncomingFrame::StreamEnded => FrameOutcome::Closed,
        IncomingFrame::TransportFailed(source) => match transport_failure_kind(&source) {
            TransportFailureKind::ConnectionClosed
            | TransportFailureKind::ResetWithoutClosingHandshake => FrameOutcome::Closed,
            TransportFailureKind::Other => FrameOutcome::Failed(
                WebSocketApiError::Transport { source },
            ),
        },
    }
}

/// The request ID that follows `id`: one more, saturating at `u64::MAX`.
pub open spec fn next_request_id(id: u64) -> u64 {
    if id == u64::MAX {
        u64::MAX
    } else {
        (id + 1) as u64
    }
}

/// The next request ID after `count` reservations starting from `start`.
pub open spec fn next_request_id_after(start: u64, count: nat) -> u64
    decreases count,
{
    if count == 0 {
        start
    } else {
        next_request_id(next_request_id_after(start, (count - 1) as nat))
    }
}

/// After `count` reservations starting from `start`, the next request ID is
/// `start + count`, or `u64::MAX` once that sum no longer fits: request IDs
/// count up by one and never wrap around.
pub proof fn lemma_request_ids_count_up(start: u64, count: nat)
    ensures
        next_request_id_after(start, count) == if start + count <= u64::MAX {
            start + count
        } else {
            u64::MAX as int
        },
    decreases count,
{
    if count > 0 {
        lemma_request_ids_count_up(start, (count - 1) as nat);
    }
}

/// Two different reservations made from one starting ID hand out different
/// request IDs, unless the later one has reached `u64::MAX`.
pub proof fn lemma_request_ids_distinct(start: u64, i: nat, j: nat)
    requires
        i < j,
        next_request_id_after(start, j) != u64::MAX,
    ensures
        next_request_id_after(start, i) < next_request_id_after(start, j),
{
    lemma_request_ids_count_up(start, i);
    lemma_request_ids_count_up(start, j);
}

/// Each kind of request carries the request ID it was built with, so a
/// helper that returns `message.req_id()` returns the ID that it sent.
pub proof fn lemma_request_carries_its_id(
    req_id: u64,
    dataref_subscribe: DatarefSubscribeParams,
    dataref_unsubscribe: DatarefUnsubscribeParams,
    dataref_set: DatarefSetValuesParams,
    command_subscribe: CommandSubscribeParams,
    command_unsubscribe: CommandUnsubscribeParams,
    command_set: CommandSetActiveParams,
)
    ensures
        (ClientMessage::DatarefSubscribeValues { req_id, params: dataref_subscribe }).request_id()
            == req_id,
        (ClientMessage::DatarefUnsubscribeValues {
            req_id,
            params: dataref_unsubscribe,
        }).request_id() == req_id,
        (ClientMessage::DatarefSetValues { req_id, params: dataref_set }).request_id() == req_id,
        (ClientMessage::CommandSubscribeIsActive {
            req_id,
            params: command_subscribe,
        }).request_id() == req_id,
        (ClientMessage::CommandUnsubscribeIsActive {
            req_id,
            params: command_unsubscribe,
        }).request_id() == req_id,
        (ClientMessage::CommandSetIsActive { req_id, params: command_set }).request_id()
            == req_id,
{
}

/// The state of a websocket client: its transport and the request ID that
/// the next helper call uses.
pub struct WebSocketApiClient<S> {
    stream: S,
    next_req_id: u64,
}

impl<S> WebSocketApiClient<S> {
    /// The request ID that the next helper call will use.
    pub closed spec fn next_id(&self) -> u64 {
        self.next_req_id
    }

    /// The transport that the client holds.
    pub closed spec fn transport(&self) -> S {
        self.stream
    }

    /// Wraps a freshly opened transport; the first request ID is 1.
    pub fn new(stream: S) -> (client: Self)
        ensures
            client.next_id() == 1,
            client.transport() == stream,
    {
        WebSocketApiClient { stream, next_req_id: 1 }
    }

    /// Overrides the next request ID used by helper send methods.
    pub fn set_next_req_id(&mut self, next_req_id: u64)
        ensures
            final(self).next_id() == next_req_id,
            final(self).transport() == old(self).transport(),
    {
        self.next_req_id = next_req_id;
    }

    /// Gives access to the transport; the request IDs stay as they are.
    pub fn stream_mut(&mut self) -> (stream: &mut S)
        ensures
            *stream == old(self).transport(),
            final(self).transport() == *final(stream),
            final(self).next_id() == old(self).next_id(),
    {
        &mut self.stream
    }

    /// Gives up the client and hands back its transport.
    pub fn into_stream(self) -> (stream: S)
        ensures
            stream == self.transport(),
    {
        self.stream
    }

    /// Reserves a request ID and builds the `dataref_subscribe_values` request that carries it.
    pub fn prepare_dataref_subscribe_values(&mut self, datarefs: Vec<DatarefSelection>) -> (message: ClientMessage)
        ensures
            message == (ClientMessage::DatarefSubscribeValues {
                req_id: old(self).next_id(),
                params: DatarefSubscribeParams { datarefs },
            }),
            final(self).next_id() == next_request_id(old(self).next_id()),
            final(self).transport() == old(self).transport(),
    {
        let req_id = self.reserve_req_id();
        ClientMessage::DatarefSubscribeValues { req_id, params: DatarefSubscribeParams { datarefs } }
    }

    /// Reserves a request ID and builds the `dataref_unsubscribe_values` request that carries it.
    pub fn prepare_dataref_unsubscribe_values(&mut self, datarefs: AllOrList<DatarefSelection>) -> (message: ClientMessage)
        ensures
            message == (ClientMessage::DatarefUnsubscribeValues {
                req_id: old(self).next_id(),
                params: DatarefUnsubscribeParams { datarefs },
            }),
            final(self).next_id() == next_request_id(old(self).next_id()),
            final(self).transport() == old(self).transport(),
    {
        let req_id = self.reserve_req_id();
        ClientMessage::DatarefUnsubscribeValues { req_id, params: DatarefUnsubscribeParams { datarefs } }
    }

    /// Reserves a request ID and builds the `dataref_set_values` request that carries it.
    pub fn prepare_dataref_set_values(&mut self, datarefs: Vec<DatarefValueSet>) -> (message: ClientMessage)
        ensures
            message == (ClientMessage::DatarefSetValues {
                req_id: old(self).next_id(),
                params: DatarefSetValuesParams { datarefs },
            }),
            final(self).next_id() == next_request_id(old(self).next_id()),
            final(self).transport() == old(self).transport(),
    {
        let req_id = self.reserve_req_id();
        ClientMessage::DatarefSetValues { req_id, params: DatarefSetValuesParams { datarefs } }
    }

    /// Reserves a request ID and builds the `command_subscribe_is_active` request that carries it.
    pub fn prepare_command_subscribe_is_active(&mut self, commands: Vec<CommandSelection>) -> (message: ClientMessage)
        ensures
            message == (ClientMessage::CommandSubscribeIsActive {
                req_id: old(self).next_id(),
                params: CommandSubscribeParams { commands },
            }),
            final(self).next_id() == next_request_id(old(self).next_id()),
            final(self).transport() == old(self).transport(),
    {
        let req_id = self.reserve_req_id();
        ClientMessage::CommandSubscribeIsActive { req_id, params: CommandSubscribeParams { commands } }
    }

    /// Reserves a request ID and builds the `command_unsubscribe_is_active` request that carries it.
    pub fn prepare_command_unsubscribe_is_active(&mut self, commands: AllOrList<CommandSelection>) -> (message: ClientMessage)
        ensures
            message == (ClientMessage::CommandUnsubscribeIsActive {
                req_id: old(self).next_id(),
                params: CommandUnsubscribeParams { commands },
            }),
            final(self).next_id() == next_request_id(old(self).next_id()),
            final(self).transport() == old(self).transport(),
    {
        let req_id = self.reserve_req_id();
        ClientMessage::CommandUnsubscribeIsActive { req_id, params: CommandUnsubscribeParams { commands } }
    }

    /// Reserves a request ID and builds the `command_set_is_active` request that carries it.
    pub fn prepare_command_set_is_active(&mut self, commands: Vec<CommandSetActive>) -> (message: ClientMessage)
        ensures
            message == (ClientMessage::CommandSetIsActive {
                req_id: old(self).next_id(),
                params: CommandSetActiveParams { commands },
            }),
            final(self).next_id() == next_request_id(old(self).next_id()),
            final(self).transport() == old(self).transport(),
    {
        let req_id = self.reserve_req_id();
        ClientMessage::CommandSetIsActive { req_id, params: CommandSetActiveParams { commands } }
    }

    /// Takes the next request ID and advances the counter, saturating at
    /// `u64::MAX`.
    fn reserve_req_id(&mut self) -> (req_id: u64)
        ensures
            req_id == old(self).next_id(),
            final(self).next_id() == next_request_id(old(self).next_id()),
            final(self).transport() == old(self).transport(),
    {
        let req_id = self.next_req_id;
        self.next_req_id = self.next_req_id.saturating_add(1);
        req_id
    }
}

} // verus!
