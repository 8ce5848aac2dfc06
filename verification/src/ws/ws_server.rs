//! The session registry and the hub's decisions: what a session does with
//! each thing its connection yields, and where a decoded command goes.

use crate::ws::handlers::repository_handler::{repository_handler, store_call, StoreCall};
use crate::ws::ws_message::{ClientMessage, ErrorCode, ServerMessage, ServerMessageType};
use std::collections::HashMap;
use vstd::prelude::*;
use vstd::string::*;

verus! {

broadcast use vstd::std_specs::hash::group_hash_axioms;

/// A connected client: the sink that messages to it are written to.
#[derive(Debug, Clone)]
pub struct Client<W> {
    pub write: W,
}

/// One frame of a connection.
#[derive(Debug, Clone)]
pub enum Frame {
    Text(String),
    Binary(Vec<u8>),
    Ping(Vec<u8>),
    Pong(Vec<u8>),
    Close,
    Raw,
}

/// What happens to a session: its connection yields a frame, fails or ends,
/// or a write to it fails.
#[derive(Debug, Clone)]
pub enum SessionEvent {
    Frame(Frame),
    TransportError,
    StreamEnded,
    SendFailed,
}

/// What a session does next.
#[derive(Debug, Clone)]
pub enum SessionAction {
    /// Read the next frame.
    Continue,
    /// Decode this text as a command envelope, then route it.
    Decode(String),
    /// Answer a ping with a pong that carries the same bytes, then read on.
    Pong(Vec<u8>),
    /// Leave the read loop: the session is over.
    Stop,
}

/// What came of decoding a text frame.
#[derive(Debug, Clone)]
pub enum Decoded {
    /// The text is a command envelope.
    Command(ClientMessage),
    /// The text is no command envelope. Where it still shows a request id,
    /// that id is kept for the answer.
    Malformed { request_id: Option<String> },
}

/// Where a decoded text goes.
#[derive(Debug, Clone)]
pub enum Routed {
    /// Back to the session, as this response.
    Reply(ServerMessage),
    /// To the store, as this call; its outcome becomes the response.
    Query(StoreCall),
    /// Nowhere: the command has no handler and gets no response.
    Nothing,
}

/// The sentence of the response to a text that is no command envelope.
pub open spec fn malformed_text() -> Seq<char> {
    "Invalid message"@
}

/// Whether an event ends the session it happens to.
pub open spec fn ends_session(event: SessionEvent) -> bool {
    match event {
        SessionEvent::Frame(Frame::Close) => true,
        SessionEvent::Frame(_) => false,
        SessionEvent::TransportError => true,
        SessionEvent::StreamEnded => true,
        SessionEvent::SendFailed => true,
    }
}

/// What a session does after an event: text is decoded, a ping is answered
/// while the session is registered, the end of the session stops the loop,
/// and every other frame is passed over.
pub open spec fn next_action(registered: bool, event: SessionEvent) -> SessionAction {
    match event {
        SessionEvent::Frame(Frame::Text(text)) => SessionAction::Decode(text),
        SessionEvent::Frame(Frame::Ping(data)) => if registered {
            SessionAction::Pong(data)
        } else {
            SessionAction::Continue
        },
        SessionEvent::Frame(Frame::Close) => SessionAction::Stop,
        SessionEvent::Frame(_) => SessionAction::Continue,
        SessionEvent::TransportError => SessionAction::Stop,
        SessionEvent::StreamEnded => SessionAction::Stop,
        SessionEvent::SendFailed => SessionAction::Stop,
    }
}

/// The sessions that remain after an event happened to session `id`.
pub open spec fn sessions_after<W>(
    sessions: Map<u128, Client<W>>,
    id: u128,
    event: SessionEvent,
) -> Map<u128, Client<W>> {
    if ends_session(event) {
        sessions.remove(id)
    } else {
        sessions
    }
}

/// Whether `routed` is where `decoded` goes: a text that is no command is
/// answered with one `invalid_request` error under its request id, a
/// repository command goes to the store, and any other command goes nowhere.
pub open spec fn is_route_of(routed: Routed, decoded: Decoded) -> bool {
    match decoded {
        Decoded::Malformed { request_id } => routed matches Routed::Reply(reply) && reply.is_error(
            request_id,
            ErrorCode::InvalidRequest,
            malformed_text(),
        ),
        Decoded::Command(msg) => match store_call(msg) {
            Some(call) => routed == Routed::Query(call),
            None => routed == Routed::Nothing,
        },
    }
}

/// A text that is no command envelope costs a session nothing but one
/// answer. The frame that carries it leaves every session registered and is
/// handed on for decoding; the text is answered with exactly one
/// `invalid_request` error under its request id; and a command that comes
/// after it goes where it would have gone without it.
pub proof fn lemma_malformed_text_keeps_session<W>(
    sessions: Map<u128, Client<W>>,
    id: u128,
    text: String,
    request_id: Option<String>,
    routed: Routed,
    later: ClientMessage,
    later_routed: Routed,
)
    requires
        is_route_of(routed, Decoded::Malformed { request_id }),
        is_route_of(later_routed, Decoded::Command(later)),
    ensures
        sessions_after(sessions, id, SessionEvent::Frame(Frame::Text(text))) == sessions,
        next_action(sessions.contains_key(id), SessionEvent::Frame(Frame::Text(text)))
            == SessionAction::Decode(text),
        routed matches Routed::Reply(reply) && reply.is_error(
            request_id,
            ErrorCode::InvalidRequest,
            malformed_text(),
        ),
        store_call(later) matches Some(call) ==> later_routed == Routed::Query(call),
        store_call(later) is None ==> later_routed == Routed::Nothing,
{
}

/// A session is in the registry until something ends it, and not after: the
/// end of the session removes it and leaves the other sessions as they were.
pub proof fn lemma_ended_session_is_gone<W>(
    sessions: Map<u128, Client<W>>,
    id: u128,
    other: u128,
    event: SessionEvent,
)
    requires
        other != id,
    ensures
        ends_session(event) ==> !sessions_after(sessions, id, event).contains_key(id),
        !ends_session(event) ==> sessions_after(sessions, id, event) == sessions,
        sessions_after(sessions, id, event).contains_key(other) == sessions.contains_key(other),
        sessions.contains_key(other) ==> sessions_after(sessions, id, event)[other]
            == sessions[other],
        ends_session(event) <==> next_action(sessions.contains_key(id), event)
            == SessionAction::Stop,
{
}

/// Where a decoded text goes.
pub fn route(decoded: Decoded) -> (r: Routed)
    ensures
        is_route_of(r, decoded),
{
    match decoded {
        Decoded::Malformed { request_id } => Routed::Reply(
            ServerMessage::error(request_id, ErrorCode::InvalidRequest, "Invalid message", None),
        ),
        Decoded::Command(msg) => match repository_handler(msg) {
            Some(call) => Routed::Query(call),
            None => Routed::Nothing,
        },
    }
}

/// `uuid::Uuid::new_v4`, read as a 128-bit number by `Uuid::as_u128`: a
/// random identifier. Nothing is claimed of its random bits. Whatever they
/// are, the identifier carries the marks that `new_v4` sets: version 4 in
/// bits 76 to 79 and the RFC's variant in bits 62 and 63. `new_v4` panics
/// where the operating system gives it no random bytes.
#[verifier::external_body]
fn fresh_session_id() -> (id: u128)
    ensures
        (id >> 76u128) & 0xfu128 == 4u128,
        (id >> 62u128) & 0x3u128 == 2u128,
{
    uuid::Uuid::new_v4().as_u128()
}

/// The hub's registry of sessions: each live connection under its session id.
pub struct WsServer<W> {
    clients: HashMap<u128, Client<W>>,
}

impl<W> View for WsServer<W> {
    type V = Map<u128, Client<W>>;

    closed spec fn view(&self) -> Map<u128, Client<W>> {
        self.clients@
    }
}

impl<W> WsServer<W> {
    /// A hub without sessions.
    pub fn new() -> (r: Self)
        ensures
            r@ == Map::<u128, Client<W>>::empty(),
    {
        WsServer { clients: HashMap::new() }
    }

    /// Registers a new connection under a fresh session id and returns the
    /// id, which is a random identifier of version 4. Should the id be that
    /// of a registered session, the new connection takes its place.
    pub fn accept(&mut self, client: Client<W>) -> (id: u128)
        ensures
            final(self)@ == old(self)@.insert(id, client),
            (id >> 76u128) & 0xfu128 == 4u128,
            (id >> 62u128) & 0x3u128 == 2u128,
    {
        let id = fresh_session_id();
        self.clients.insert(id, client);
        id
    }

    /// Whether session `id` is registered.
    pub fn is_connected(&self, id: u128) -> (r: bool)
        ensures
            r == self@.contains_key(id),
    {
        self.clients.contains_key(&id)
    }

    /// The client of session `id`, where the session is registered.
    pub fn client(&self, id: u128) -> (r: Option<&Client<W>>)
        ensures
            match r {
                Some(client) => self@.contains_key(id) && *client == self@[id],
                None => !self@.contains_key(id),
            },
    {
        self.clients.get(&id)
    }

    /// The number of registered sessions.
    pub fn session_count(&self) -> (r: usize)
        ensures
            r == self@.len(),
    {
        self.clients.len()
    }

    /// Takes in what happened to session `id` and says what the session does
    /// next. The session leaves the registry exactly when the event ends it;
    /// no other session is touched.
    pub fn on_event(&mut self, id: u128, event: SessionEvent) -> (r: SessionAction)
        ensures
            final(self)@ == sessions_after(old(self)@, id, event),
            r == next_action(old(self)@.contains_key(id), event),
    {
        match event {
            SessionEvent::Frame(frame) => match frame {
                Frame::Text(text) => SessionAction::Decode(text),
                Frame::Ping(data) => {
                    if self.clients.contains_key(&id) {
                        SessionAction::Pong(data)
                    } else {
                        SessionAction::Continue
                    }
                },
                Frame::Close => {
                    self.clients.remove(&id);
                    SessionAction::Stop
                },
                Frame::Binary(_) => SessionAction::Continue,
                Frame::Pong(_) => SessionAction::Continue,
                Frame::Raw => SessionAction::Continue,
            },
            SessionEvent::TransportError => {
                self.clients.remove(&id);
                SessionAction::Stop
            },
            SessionEvent::StreamEnded => {
                self.clients.remove(&id);
                SessionAction::Stop
            },
            SessionEvent::SendFailed => {
                self.clients.remove(&id);
                SessionAction::Stop
            },
        }
    }

    /// Addresses `message` to session `id`: the client to write to and the
    /// message, or nothing where the session is not registered.
    pub fn send_message(&self, id: u128, message: ServerMessage) -> (r: Option<
        (&Client<W>, ServerMessage),
    >)
        ensures
            match r {
                Some((client, sent)) => self@.contains_key(id) && *client == self@[id] && sent
                    == message,
                None => !self@.contains_key(id),
            },
    {
        match self.client(id) {
            Some(client) => Some((client, message)),
            None => None,
        }
    }

    /// Addresses an error response to session `id`: the client to write to
    /// and the response, or nothing where the session is not registered.
    pub fn send_error_message(
        &self,
        id: u128,
        msg_id: Option<String>,
        code: ErrorCode,
        message: &str,
        details: Option<String>,
    ) -> (r: Option<(&Client<W>, ServerMessage)>)
        ensures
            match r {
                Some((client, sent)) => {
                    &&& self@.contains_key(id)
                    &&& *client == self@[id]
                    &&& sent.id == msg_id
                    &&& sent.payload matches ServerMessageType::Error {
                        code: c,
                        message: m,
                        details: d,
                    }
                    &&& c == code
                    &&& m@ == message@
                    &&& d == details
                },
                None => !self@.contains_key(id),
            },
    {
        let error = ServerMessage::error(msg_id, code, message, details);
        self.send_message(id, error)
    }
}

} // verus!
