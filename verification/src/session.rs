//! One connection to the gateway: its handshake and its life.
//!
//! A session is a state machine that is told what happened on the socket and
//! answers with what to do next:
//!
//! 1. `Connecting`: the socket is being opened.
//! 2. `AwaitingHello`: frames are read until one decodes to `Hello`. Every
//!    other text frame is ignored. Anything else that arrives in its place, a
//!    frame that is no text or the end of the connection, fails the attempt.
//!    So does a `Hello` that asks for a ping every zero milliseconds, which no
//!    heartbeat can keep.
//! 3. `Authenticating`: the `Authenticate` frame is being sent, and the
//!    heartbeat scheduler starts beside it.
//! 4. `Open`: the handshake is done; text frames are handed on to the event
//!    stream until the connection is closed, ends or fails.
//! 5. `Closed`: the end. The owner of the session decides what follows.
//!
//! Authentication is not awaited: the server's `Authenticated` payload comes
//! later, through the event stream, like any other payload.
use crate::codec::{decode_frame, encode_payload, encoded, frame_payload};
use crate::models::{
    payload_view, ClientPayload, ClientPayloadView, ServerPayload, ServerPayloadView,
};
use vstd::prelude::*;

verus! {

/// Where a session stands.
#[derive(Debug, Clone, Copy, PartialEq, Eq, Structural)]
pub enum SessionState {
    Connecting,
    AwaitingHello,
    Authenticating { heartbeat_interval: u64 },
    Open { heartbeat_interval: u64 },
    Closed,
}

/// Why a connection attempt failed.
#[derive(Debug, Clone, Copy, PartialEq, Eq, Structural)]
pub enum ConnectError {
    /// The socket could not be opened.
    Transport,
    /// The connection brought something else before any `Hello`.
    MissingHello,
    /// The `Hello` asks for a ping every zero milliseconds.
    InvalidHello,
    /// The `Authenticate` frame could not be sent.
    AuthenticateFailed,
}

impl ConnectError {
    /// The words for this error.
    pub open spec fn spec_message(self) -> Seq<char> {
        match self {
            ConnectError::Transport => "Could not connect to the gateway"@,
            ConnectError::MissingHello => "Could not find HELLO payload"@,
            ConnectError::InvalidHello => "HELLO payload without a heartbeat interval"@,
            ConnectError::AuthenticateFailed => "Encountered error while authenticating"@,
        }
    }

    /// The words for this error.
    pub fn message(&self) -> (message: &'static str)
        ensures
            message@ == self.spec_message(),
    {
        match self {
            ConnectError::Transport => "Could not connect to the gateway",
            ConnectError::MissingHello => "Could not find HELLO payload",
            ConnectError::InvalidHello => "HELLO payload without a heartbeat interval",
            ConnectError::AuthenticateFailed => "Encountered error while authenticating",
        }
    }
}

/// What one read of the socket brought.
#[derive(Debug, PartialEq, Eq)]
pub enum Incoming {
    /// A text frame.
    Text(String),
    /// A frame that is no text: binary data or a ping or pong of the
    /// transport.
    Other,
    /// A close frame.
    Close,
    /// Nothing: the stream of frames has ended.
    End,
    /// An error of the transport.
    Error,
}

/// The view of an [`Incoming`].
pub enum IncomingView {
    Text(Seq<char>),
    Other,
    Close,
    End,
    Error,
}

impl IncomingView {
    /// The connection is over: it was closed, it ended or it failed.
    pub open spec fn ends_connection(self) -> bool {
        self is Close || self is End || self is Error
    }
}

impl View for Incoming {
    type V = IncomingView;

    open spec fn view(&self) -> IncomingView {
        match *self {
            Incoming::Text(text) => IncomingView::Text(text@),
            Incoming::Other => IncomingView::Other,
            Incoming::Close => IncomingView::Close,
            Incoming::End => IncomingView::End,
            Incoming::Error => IncomingView::Error,
        }
    }
}

impl Incoming {
    /// Tells whether the connection is over: it was closed, it ended or it
    /// failed.
    pub fn ends_connection(&self) -> (ends: bool)
        ensures
            ends == self@.ends_connection(),
    {
        match self {
            Incoming::Close => true,
            Incoming::End => true,
            Incoming::Error => true,
            _ => false,
        }
    }
}

/// What a session is told.
#[derive(Debug, PartialEq, Eq)]
pub enum SessionEvent {
    /// The socket is open.
    Connected,
    /// The socket could not be opened.
    ConnectFailed,
    /// The socket brought something.
    Received(Incoming),
    /// The `Authenticate` frame was sent.
    AuthenticateSent,
    /// A send on the connection failed.
    SendFailed,
}

/// The view of a [`SessionEvent`].
pub enum SessionEventView {
    Connected,
    ConnectFailed,
    Received(IncomingView),
    AuthenticateSent,
    SendFailed,
}

impl View for SessionEvent {
    type V = SessionEventView;

    open spec fn view(&self) -> SessionEventView {
        match *self {
            SessionEvent::Connected => SessionEventView::Connected,
            SessionEvent::ConnectFailed => SessionEventView::ConnectFailed,
            SessionEvent::Received(incoming) => SessionEventView::Received(incoming@),
            SessionEvent::AuthenticateSent => SessionEventView::AuthenticateSent,
            SessionEvent::SendFailed => SessionEventView::SendFailed,
        }
    }
}

/// What a session asks for.
#[derive(Debug, PartialEq, Eq)]
pub enum SessionAction {
    /// Nothing but to go on.
    Idle,
    /// Send `frame`, which authenticates the connection, and start the
    /// heartbeat scheduler with `heartbeat_interval`; then report
    /// `AuthenticateSent` or `SendFailed`.
    Authenticate { frame: String, heartbeat_interval: u64 },
    /// The handshake is done: the session is open.
    Opened { heartbeat_interval: u64 },
    /// Hand the text frame that was received on to the event stream.
    Forward,
    /// The attempt failed.
    Fail(ConnectError),
    /// The open session has ended.
    Disconnected,
}

/// The view of a [`SessionAction`].
pub enum SessionActionView {
    Idle,
    Authenticate { frame: Seq<char>, heartbeat_interval: u64 },
    Opened { heartbeat_interval: u64 },
    Forward,
    Fail(ConnectError),
    Disconnected,
}

impl View for SessionAction {
    type V = SessionActionView;

    open spec fn view(&self) -> SessionActionView {
        match *self {
            SessionAction::Idle => SessionActionView::Idle,
            SessionAction::Authenticate { frame, heartbeat_interval } => {
                SessionActionView::Authenticate { frame: frame@, heartbeat_interval }
            },
            SessionAction::Opened { heartbeat_interval } => SessionActionView::Opened {
                heartbeat_interval,
            },
            SessionAction::Forward => SessionActionView::Forward,
            SessionAction::Fail(error) => SessionActionView::Fail(error),
            SessionAction::Disconnected => SessionActionView::Disconnected,
        }
    }
}

/// What a session that awaits the `Hello` does with a text frame that decodes
/// to `decoded`.
pub open spec fn hello_step(token: Seq<char>, decoded: Option<ServerPayloadView>) -> (
    SessionState,
    SessionActionView,
) {
    match decoded {
        Some(ServerPayloadView::Hello { heartbeat_interval }) => if heartbeat_interval > 0 {
            (
                SessionState::Authenticating { heartbeat_interval },
                SessionActionView::Authenticate {
                    frame: encoded(ClientPayloadView::Authenticate(token)),
                    heartbeat_interval,
                },
            )
        } else {
            (SessionState::Closed, SessionActionView::Fail(ConnectError::InvalidHello))
        },
        _ => (SessionState::AwaitingHello, SessionActionView::Idle),
    }
}

/// The state after `event` and the action that it calls for, for a session
/// that authenticates with `token`. `decoded` is what the text of a received
/// text frame decodes to; only a session that awaits the `Hello` looks at it.
///
/// An event that a state does not expect changes nothing.
pub open spec fn session_step(
    state: SessionState,
    token: Seq<char>,
    event: SessionEventView,
    decoded: Option<ServerPayloadView>,
) -> (SessionState, SessionActionView) {
    match (state, event) {
        (SessionState::Connecting, SessionEventView::Connected) => (
            SessionState::AwaitingHello,
            SessionActionView::Idle,
        ),
        (SessionState::Connecting, SessionEventView::ConnectFailed) => (
            SessionState::Closed,
            SessionActionView::Fail(ConnectError::Transport),
        ),
        (SessionState::AwaitingHello, SessionEventView::Received(IncomingView::Text(_))) =>
            hello_step(token, decoded),
        (SessionState::AwaitingHello, SessionEventView::Received(_)) => (
            SessionState::Closed,
            SessionActionView::Fail(ConnectError::MissingHello),
        ),
        (
            SessionState::Authenticating { heartbeat_interval },
            SessionEventView::AuthenticateSent,
        ) => (
            SessionState::Open { heartbeat_interval },
            SessionActionView::Opened { heartbeat_interval },
        ),
        (SessionState::Authenticating { .. }, SessionEventView::SendFailed) => (
            SessionState::Closed,
            SessionActionView::Fail(ConnectError::AuthenticateFailed),
        ),
        (SessionState::Open { .. }, SessionEventView::Received(IncomingView::Text(_))) => (
            state,
            SessionActionView::Forward,
        ),
        (SessionState::Open { .. }, SessionEventView::Received(incoming)) => {
            if incoming.ends_connection() {
                (SessionState::Closed, SessionActionView::Disconnected)
            } else {
                (state, SessionActionView::Idle)
            }
        },
        _ => (state, SessionActionView::Idle),
    }
}

/// What the text of a received text frame decodes to, and `None` for every
/// other event.
pub open spec fn received_payload(event: SessionEventView) -> Option<ServerPayloadView> {
    match event {
        SessionEventView::Received(IncomingView::Text(text)) => frame_payload(text),
        _ => None,
    }
}

/// One connection to the gateway.
#[derive(Debug)]
pub struct Session {
    state: SessionState,
    token: String,
}

impl Session {
    /// Where the session stands.
    pub closed spec fn spec_state(&self) -> SessionState {
        self.state
    }

    /// The token that the session authenticates with.
    pub closed spec fn spec_token(&self) -> Seq<char> {
        self.token@
    }

    /// A session whose socket is being opened.
    pub fn new(token: String) -> (session: Session)
        ensures
            session.state() == SessionState::Connecting,
            session.spec_token() == token@,
    {
        Session { state: SessionState::Connecting, token }
    }

    /// The token that the session authenticates with.
    pub fn token(&self) -> (token: &String)
        ensures
            token@ == self.spec_token(),
    {
        &self.token
    }

    /// Starts over for a new connection: whatever the session was doing, its
    /// socket is being opened again.
    pub fn restart(&mut self)
        ensures
            final(self).state() == SessionState::Connecting,
            final(self).spec_token() == old(self).spec_token(),
    {
        self.state = SessionState::Connecting;
    }

    /// Where the session stands.
    #[verifier::when_used_as_spec(spec_state)]
    pub fn state(&self) -> (state: SessionState)
        ensures
            state == self.spec_state(),
    {
        self.state
    }

    /// Tells whether the handshake is done and the connection still there.
    pub fn is_open(&self) -> (open: bool)
        ensures
            open == (self.state() is Open),
    {
        match self.state {
            SessionState::Open { .. } => true,
            _ => false,
        }
    }

    /// Tells whether the session looks into the text frames that it
    /// receives: it awaits the `Hello`, or it is open and hands them on.
    pub fn reads_text(&self) -> (reads: bool)
        ensures
            reads == (self.state() is AwaitingHello || self.state() is Open),
    {
        match self.state {
            SessionState::AwaitingHello => true,
            SessionState::Open { .. } => true,
            _ => false,
        }
    }

    /// Takes one event, together with what the text of a received text frame
    /// decodes to, and returns what to do next.
    pub fn step(&mut self, event: &SessionEvent, decoded: &Option<ServerPayload>) -> (action:
        SessionAction)
        ensures
            final(self).spec_token() == old(self).spec_token(),
            (final(self).state(), action@) == session_step(
                old(self).state(),
                old(self).spec_token(),
                event@,
                payload_view(*decoded),
            ),
    {
        let (state, action) = match (self.state, event) {
            (SessionState::Connecting, SessionEvent::Connected) => (
                SessionState::AwaitingHello,
                SessionAction::Idle,
            ),
            (SessionState::Connecting, SessionEvent::ConnectFailed) => (
                SessionState::Closed,
                SessionAction::Fail(ConnectError::Transport),
            ),
            (SessionState::AwaitingHello, SessionEvent::Received(Incoming::Text(_))) => {
                match decoded {
                    Some(ServerPayload::Hello { heartbeat_interval }) => {
                        let heartbeat_interval = *heartbeat_interval;
                        if heartbeat_interval > 0 {
                            let payload = ClientPayload::Authenticate(self.token.clone());
                            let frame = encode_payload(&payload);
                            (
                                SessionState::Authenticating { heartbeat_interval },
                                SessionAction::Authenticate { frame, heartbeat_interval },
                            )
                        } else {
                            (SessionState::Closed, SessionAction::Fail(ConnectError::InvalidHello))
                        }
                    },
                    _ => (SessionState::AwaitingHello, SessionAction::Idle),
                }
            },
            (SessionState::AwaitingHello, SessionEvent::Received(_)) => (
                SessionState::Closed,
                SessionAction::Fail(ConnectError::MissingHello),
            ),
            (
                SessionState::Authenticating { heartbeat_interval },
                SessionEvent::AuthenticateSent,
            ) => (
                SessionState::Open { heartbeat_interval },
                SessionAction::Opened { heartbeat_interval },
            ),
            (SessionState::Authenticating { .. }, SessionEvent::SendFailed) => (
                SessionState::Closed,
                SessionAction::Fail(ConnectError::AuthenticateFailed),
            ),
            (
                SessionState::Open { heartbeat_interval },
                SessionEvent::Received(Incoming::Text(_)),
            ) => (SessionState::Open { heartbeat_interval }, SessionAction::Forward),
            (SessionState::Open { heartbeat_interval }, SessionEvent::Received(incoming)) => {
                if incoming.ends_connection() {
                    (SessionState::Closed, SessionAction::Disconnected)
                } else {
                    (SessionState::Open { heartbeat_interval }, SessionAction::Idle)
                }
            },
            (state, _) => (state, SessionAction::Idle),
        };
        self.state = state;
        action
    }

    /// Takes one event and returns what to do next. A session that awaits the
    /// `Hello` decodes the text frames that it receives.
    pub fn on_event(&mut self, event: &SessionEvent) -> (action: SessionAction)
        ensures
            final(self).spec_token() == old(self).spec_token(),
            (final(self).state(), action@) == session_step(
                old(self).state(),
                old(self).spec_token(),
                event@,
                received_payload(event@),
            ),
    {
        let decoded = match (self.state, event) {
            (SessionState::AwaitingHello, SessionEvent::Received(Incoming::Text(text))) => {
                decode_frame(text.as_str())
            },
            _ => None,
        };
        self.step(event, &decoded)
    }
}

/// A closed session stays closed and asks for nothing.
pub proof fn lemma_closed_is_final(
    token: Seq<char>,
    event: SessionEventView,
    decoded: Option<ServerPayloadView>,
)
    ensures
        session_step(SessionState::Closed, token, event, decoded) == (
            SessionState::Closed,
            SessionActionView::Idle,
        ),
{
}

/// A session opens only by way of the handshake: from `Authenticating`, when
/// the `Authenticate` frame has been sent, and with the heartbeat interval of
/// the `Hello`.
pub proof fn lemma_open_only_after_authenticate(
    state: SessionState,
    token: Seq<char>,
    event: SessionEventView,
    decoded: Option<ServerPayloadView>,
)
    requires
        !(state is Open),
        session_step(state, token, event, decoded).0 is Open,
    ensures
        event is AuthenticateSent,
        state is Authenticating,
        session_step(state, token, event, decoded).0 == (SessionState::Open {
            heartbeat_interval: state->Authenticating_heartbeat_interval,
        }),
{
}

/// Frames are handed on to the event stream by an open session only.
pub proof fn lemma_forward_only_when_open(
    state: SessionState,
    token: Seq<char>,
    event: SessionEventView,
    decoded: Option<ServerPayloadView>,
)
    requires
        session_step(state, token, event, decoded).1 is Forward,
    ensures
        state is Open,
        event matches SessionEventView::Received(IncomingView::Text(_)),
{
}

} // verus!
