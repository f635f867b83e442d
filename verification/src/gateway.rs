//! The gateway client and its event stream.
//!
//! [`Events`] is the root of the protocol engine. It holds the session of the
//! current connection and the cache of that session, and it is told whatever
//! happens on the socket. It runs the handshake, turns the frames of the open
//! session into events, and decides what a failure means: the failure of the
//! very first connection is handed to the caller, every later one is answered
//! by connecting again, with capped exponential backoff between the attempts.
//! The consumer sees none of that but a pause.
//!
//! Connections are numbered in the order in which they are begun. Whatever is
//! reported under another number than that of the current connection is
//! dropped, so nothing of a superseded session reaches the consumer.
use crate::backoff::{lemma_wait_after_non_decreasing, wait_after, Backoff, MAX_WAIT};
use crate::cache::{
    cache_after, empty_cache, event_of, ids_of, known_user, lemma_authenticated_fills_cache,
    GatewayData, GatewayDataView,
};
use crate::codec::{decode_frame, frame_payload};
use crate::models::{payload_view, Event, EventView, ServerPayload, ServerPayloadView};
use crate::session::{
    received_payload, session_step, ConnectError, Incoming, IncomingView, Session, SessionAction,
    SessionActionView, SessionEvent, SessionEventView, SessionState,
};
use crate::GATEWAY_URL;
use vstd::prelude::*;

verus! {

/// Simple gateway client
#[derive(Debug)]
pub struct GatewayClient {
    pub gateway_url: String,
    token: String,
}

/// The view of a [`GatewayClient`].
pub struct GatewayClientView {
    pub gateway_url: Seq<char>,
    pub token: Seq<char>,
}

impl View for GatewayClient {
    type V = GatewayClientView;

    closed spec fn view(&self) -> GatewayClientView {
        GatewayClientView { gateway_url: self.gateway_url@, token: self.token@ }
    }
}

impl Clone for GatewayClient {
    fn clone(&self) -> (copy: Self)
        ensures
            copy@ == self@,
    {
        GatewayClient { gateway_url: self.gateway_url.clone(), token: self.token.clone() }
    }
}

impl GatewayClient {
    /// Create a new GatewayClient
    pub fn new(token: &str) -> (client: GatewayClient)
        ensures
            client@ == (GatewayClientView { gateway_url: GATEWAY_URL@, token: token@ }),
    {
        GatewayClient { gateway_url: GATEWAY_URL.to_owned(), token: token.to_owned() }
    }

    /// Change the url of the GatewayClient
    pub fn gateway_url(self, url: String) -> (client: GatewayClient)
        ensures
            client@ == (GatewayClientView { gateway_url: url@, token: self@.token }),
    {
        let mut client = self;
        client.gateway_url = url;
        client
    }

    /// The url of the gateway.
    pub fn url(&self) -> (url: &String)
        ensures
            url@ == self@.gateway_url,
    {
        &self.gateway_url
    }

    /// The token that the client authenticates with.
    pub fn token(&self) -> (token: &String)
        ensures
            token@ == self@.token,
    {
        &self.token
    }

    /// Makes the event stream of this client. It is not connected yet: its
    /// first connection is being made.
    pub fn get_events(&self) -> (events: Events)
        ensures
            events@ == new_stream(self@.gateway_url, self@.token),
    {
        Events::new(self.gateway_url.clone(), self.token.clone())
    }
}

/// What an event stream is busy with.
#[derive(Debug, Clone, Copy, PartialEq, Eq, Structural)]
pub enum StreamPhase {
    /// The first connection is being made. Its failure is the caller's.
    Connecting,
    /// A session is open and feeds the consumer.
    Streaming,
    /// The last session has ended and the next one is being made. The
    /// consumer is paused.
    Reconnecting,
}

/// What an event stream asks for.
#[derive(Debug, PartialEq, Eq)]
pub enum StreamAction {
    /// Nothing but to go on with the current connection.
    Continue,
    /// Send `frame`, which authenticates the connection, and start the
    /// heartbeat scheduler with `heartbeat_interval`; then report
    /// `AuthenticateSent` or `SendFailed`.
    Authenticate { frame: String, heartbeat_interval: u64 },
    /// The handshake is done: a session is open and feeds the consumer.
    Opened { heartbeat_interval: u64 },
    /// Hand the event to the consumer.
    Yield(Event),
    /// The first connection failed: hand the error to the caller.
    Fatal(ConnectError),
    /// A reconnection failed: tear the connection down, wait `seconds`
    /// seconds, then begin the next attempt.
    RetryAfter { seconds: u64 },
    /// The open session has ended: tear the connection down, its heartbeat
    /// included, then begin the next attempt.
    Reconnect,
}

/// The view of a [`StreamAction`].
pub enum StreamActionView {
    Continue,
    Authenticate { frame: Seq<char>, heartbeat_interval: u64 },
    Opened { heartbeat_interval: u64 },
    Yield(EventView),
    Fatal(ConnectError),
    RetryAfter { seconds: u64 },
    Reconnect,
}

impl View for StreamAction {
    type V = StreamActionView;

    open spec fn view(&self) -> StreamActionView {
        match *self {
            StreamAction::Continue => StreamActionView::Continue,
            StreamAction::Authenticate { frame, heartbeat_interval } => {
                StreamActionView::Authenticate { frame: frame@, heartbeat_interval }
            },
            StreamAction::Opened { heartbeat_interval } => StreamActionView::Opened {
                heartbeat_interval,
            },
            StreamAction::Yield(event) => StreamActionView::Yield(event@),
            StreamAction::Fatal(error) => StreamActionView::Fatal(error),
            StreamAction::RetryAfter { seconds } => StreamActionView::RetryAfter { seconds },
            StreamAction::Reconnect => StreamActionView::Reconnect,
        }
    }
}

/// The view of an [`Events`].
pub struct EventsView {
    pub gateway_url: Seq<char>,
    pub token: Seq<char>,
    /// The cache of the session.
    pub data: GatewayDataView,
    /// Where the session of the current connection stands.
    pub session: SessionState,
    /// The number of the current connection: as many connections have been
    /// begun before it.
    pub connection: u64,
    /// Whether a session has opened yet: the first connection is behind.
    pub opened: bool,
    /// The number of reconnection attempts that have failed in a row.
    pub failures: nat,
}

impl EventsView {
    /// What the stream is busy with.
    pub open spec fn phase(self) -> StreamPhase {
        if self.session is Open {
            StreamPhase::Streaming
        } else if self.opened {
            StreamPhase::Reconnecting
        } else {
            StreamPhase::Connecting
        }
    }
}

/// A stream whose first connection is being made.
pub open spec fn new_stream(gateway_url: Seq<char>, token: Seq<char>) -> EventsView {
    EventsView {
        gateway_url,
        token,
        data: empty_cache(),
        session: SessionState::Connecting,
        connection: 0,
        opened: false,
        failures: 0,
    }
}

/// The stream after the next connection attempt has begun: the session starts
/// over under the next number.
pub open spec fn attempt_begun(stream: EventsView) -> EventsView {
    EventsView {
        session: SessionState::Connecting,
        connection: (stream.connection + 1) as u64,
        ..stream
    }
}

/// What the stream makes of what its session asks for, where `decoded` is
/// what the text of a received text frame decodes to.
///
/// * A session that opens starts with an empty cache, and the failures before
///   it are forgotten.
/// * A frame that the open session hands on brings the cache up to date, and
///   gives the consumer an event if its payload has one. A frame that is not
///   decodable is skipped.
/// * A failed attempt is fatal as long as no session has opened. After that it
///   costs the wait that belongs to the number of failures in a row.
pub open spec fn stream_reaction(
    stream: EventsView,
    action: SessionActionView,
    decoded: Option<ServerPayloadView>,
) -> (EventsView, StreamActionView) {
    match action {
        SessionActionView::Idle => (stream, StreamActionView::Continue),
        SessionActionView::Authenticate { frame, heartbeat_interval } => (
            stream,
            StreamActionView::Authenticate { frame, heartbeat_interval },
        ),
        SessionActionView::Opened { heartbeat_interval } => (
            EventsView { data: empty_cache(), opened: true, failures: 0, ..stream },
            StreamActionView::Opened { heartbeat_interval },
        ),
        SessionActionView::Forward => match decoded {
            Some(payload) => (
                EventsView { data: cache_after(stream.data, payload), ..stream },
                match event_of(stream.data, payload) {
                    Some(event) => StreamActionView::Yield(event),
                    None => StreamActionView::Continue,
                },
            ),
            None => (stream, StreamActionView::Continue),
        },
        SessionActionView::Fail(error) => if stream.opened {
            (
                EventsView { failures: stream.failures + 1, ..stream },
                StreamActionView::RetryAfter { seconds: wait_after(stream.failures) },
            )
        } else {
            (stream, StreamActionView::Fatal(error))
        },
        SessionActionView::Disconnected => (stream, StreamActionView::Reconnect),
    }
}

/// The stream after `event` has been reported under the number `connection`,
/// and what the stream asks for. `decoded` is what the text of a received text
/// frame decodes to.
///
/// An event of another connection than the current one is dropped. An event of
/// the current connection goes to its session, and the stream reacts to what
/// the session asks for.
pub open spec fn stream_step(
    stream: EventsView,
    connection: u64,
    event: SessionEventView,
    decoded: Option<ServerPayloadView>,
) -> (EventsView, StreamActionView) {
    if connection == stream.connection {
        let (session, action) = session_step(stream.session, stream.token, event, decoded);
        stream_reaction(EventsView { session, ..stream }, action, decoded)
    } else {
        (stream, StreamActionView::Continue)
    }
}

/// A Stream of Pandemonium events
pub struct Events {
    gateway_url: String,
    data: GatewayData,
    session: Session,
    connection: u64,
    opened: bool,
    backoff: Backoff,
}

impl View for Events {
    type V = EventsView;

    closed spec fn view(&self) -> EventsView {
        EventsView {
            gateway_url: self.gateway_url@,
            token: self.session.spec_token(),
            data: self.data@,
            session: self.session.state(),
            connection: self.connection,
            opened: self.opened,
            failures: self.backoff.failures(),
        }
    }
}

impl Events {
    /// A stream for the gateway at `gateway_url` that authenticates with
    /// `token`. Its first connection is being made, under the number zero.
    pub fn new(gateway_url: String, token: String) -> (events: Events)
        ensures
            events@ == new_stream(gateway_url@, token@),
    {
        Events {
            gateway_url,
            data: GatewayData::new(),
            session: Session::new(token),
            connection: 0,
            opened: false,
            backoff: Backoff::new(),
        }
    }

    /// The url of the gateway.
    pub fn gateway_url(&self) -> (gateway_url: &String)
        ensures
            gateway_url@ == self@.gateway_url,
    {
        &self.gateway_url
    }

    /// The token that every session authenticates with.
    pub fn token(&self) -> (token: &String)
        ensures
            token@ == self@.token,
    {
        self.session.token()
    }

    /// The cache of the session.
    pub fn data(&self) -> (data: &GatewayData)
        ensures
            data@ == self@.data,
    {
        &self.data
    }

    /// Where the session of the current connection stands.
    pub fn session(&self) -> (session: SessionState)
        ensures
            session == self@.session,
    {
        self.session.state()
    }

    /// The number of the current connection.
    pub fn connection(&self) -> (connection: u64)
        ensures
            connection == self@.connection,
    {
        self.connection
    }

    /// What the stream is busy with.
    pub fn phase(&self) -> (phase: StreamPhase)
        ensures
            phase == self@.phase(),
    {
        if self.session.is_open() {
            StreamPhase::Streaming
        } else if self.opened {
            StreamPhase::Reconnecting
        } else {
            StreamPhase::Connecting
        }
    }

    /// Tells whether the consumer is paused: no session is open, so nothing
    /// is produced until one opens.
    pub fn is_paused(&self) -> (paused: bool)
        ensures
            paused == !(self@.session is Open),
    {
        !self.session.is_open()
    }

    /// Begins the next connection attempt: the connection before it, with
    /// whatever it may still bring, is superseded. Returns the number of the
    /// new connection, under which its events are to be reported.
    pub fn begin_attempt(&mut self) -> (connection: u64)
        requires
            old(self)@.connection < u64::MAX,
        ensures
            final(self)@ == attempt_begun(old(self)@),
            connection == old(self)@.connection + 1,
    {
        self.session.restart();
        self.connection = self.connection + 1;
        self.connection
    }

    /// Takes one event of the connection `connection`, together with what the
    /// text of a received text frame decodes to, and returns what to do next.
    pub fn step(&mut self, connection: u64, event: &SessionEvent, decoded: Option<
        ServerPayload,
    >) -> (action: StreamAction)
        ensures
            (final(self)@, action@) == stream_step(
                old(self)@,
                connection,
                event@,
                payload_view(decoded),
            ),
            action matches StreamAction::RetryAfter { seconds } ==> 1 <= seconds <= MAX_WAIT,
    {
        if connection != self.connection {
            return StreamAction::Continue;
        }
        match self.session.step(event, &decoded) {
            SessionAction::Idle => StreamAction::Continue,
            SessionAction::Authenticate { frame, heartbeat_interval } => {
                StreamAction::Authenticate { frame, heartbeat_interval }
            },
            SessionAction::Opened { heartbeat_interval } => {
                self.data = GatewayData::new();
                self.opened = true;
                self.backoff.reset();
                StreamAction::Opened { heartbeat_interval }
            },
            SessionAction::Forward => match decoded {
                Some(payload) => match self.data.apply(payload) {
                    Some(event) => StreamAction::Yield(event),
                    None => StreamAction::Continue,
                },
                None => StreamAction::Continue,
            },
            SessionAction::Fail(error) => if self.opened {
                let seconds = self.backoff.fail();
                StreamAction::RetryAfter { seconds }
            } else {
                StreamAction::Fatal(error)
            },
            SessionAction::Disconnected => StreamAction::Reconnect,
        }
    }

    /// Takes one event of the connection `connection` and returns what to do
    /// next. A text frame that is not decodable is skipped: it changes
    /// nothing and asks for nothing.
    pub fn on_event(&mut self, connection: u64, event: &SessionEvent) -> (action: StreamAction)
        ensures
            (final(self)@, action@) == stream_step(
                old(self)@,
                connection,
                event@,
                received_payload(event@),
            ),
            action matches StreamAction::RetryAfter { seconds } ==> 1 <= seconds <= MAX_WAIT,
            event@ matches SessionEventView::Received(IncomingView::Text(_)) && received_payload(
                event@,
            ) is None ==> final(self)@ == old(self)@ && action == StreamAction::Continue,
    {
        let decoded = match event {
            SessionEvent::Received(Incoming::Text(text)) => {
                if connection == self.connection && self.session.reads_text() {
                    decode_frame(text.as_str())
                } else {
                    None
                }
            },
            _ => None,
        };
        self.step(connection, event, decoded)
    }
}

/// Something that an event stream is told.
pub enum StreamInput {
    /// The next connection attempt is begun.
    Attempt,
    /// `event` is reported under the number `connection`; the text of a
    /// received text frame decodes to `decoded`.
    Event { connection: u64, event: SessionEventView, decoded: Option<ServerPayloadView> },
}

/// The stream after `input`.
pub open spec fn stream_after(stream: EventsView, input: StreamInput) -> EventsView {
    match input {
        StreamInput::Attempt => attempt_begun(stream),
        StreamInput::Event { connection, event, decoded } => stream_step(
            stream,
            connection,
            event,
            decoded,
        ).0,
    }
}

/// The stream after all of `inputs`, in their order.
pub open spec fn stream_run(stream: EventsView, inputs: Seq<StreamInput>) -> EventsView
    decreases inputs.len(),
{
    if inputs.len() == 0 {
        stream
    } else {
        stream_after(stream_run(stream, inputs.drop_last()), inputs.last())
    }
}

/// The stream can take each of `inputs` when its turn comes: whenever an
/// attempt is begun, the number of the next connection still fits.
pub open spec fn admissible_run(stream: EventsView, inputs: Seq<StreamInput>) -> bool
    decreases inputs.len(),
{
    inputs.len() == 0 || (admissible_run(stream, inputs.drop_last()) && (inputs.last() is Attempt
        ==> stream_run(stream, inputs.drop_last()).connection < u64::MAX))
}

/// An open session has opened: the stream is past its first connection.
pub open spec fn consistent(stream: EventsView) -> bool {
    stream.session is Open ==> stream.opened
}

/// A new stream is consistent, and it stays so whatever it is told. So a
/// stream is in its first connection exactly as long as no session has opened.
pub proof fn lemma_stream_stays_consistent(stream: EventsView, inputs: Seq<StreamInput>)
    requires
        consistent(stream),
    ensures
        consistent(stream_run(stream, inputs)),
        stream_run(stream, inputs).phase() is Connecting <==> !stream_run(stream, inputs).opened,
    decreases inputs.len(),
{
    if inputs.len() > 0 {
        lemma_stream_stays_consistent(stream, inputs.drop_last());
    }
}

/// A text frame that is not decodable is skipped: it changes nothing and asks
/// for nothing, whichever connection brings it and whatever the stream is busy
/// with.
pub proof fn lemma_undecodable_frame_is_skipped(
    stream: EventsView,
    connection: u64,
    text: Seq<char>,
)
    requires
        frame_payload(text) is None,
    ensures
        stream_step(
            stream,
            connection,
            SessionEventView::Received(IncomingView::Text(text)),
            frame_payload(text),
        ) == (stream, StreamActionView::Continue),
{
}

/// Decoding is repeatable: a frame of the open session that holds a message
/// gives the event of that message and leaves the stream as it was, so the
/// same frame gives the same event again.
pub proof fn lemma_message_frame_decodes_alike(stream: EventsView, text: Seq<char>)
    requires
        stream.session is Open,
        frame_payload(text) matches Some(ServerPayloadView::MessageCreate(_)),
    ensures
        ({
            let event = SessionEventView::Received(IncomingView::Text(text));
            let message = frame_payload(text).unwrap()->MessageCreate_0;
            let first = stream_step(stream, stream.connection, event, frame_payload(text));
            let second = stream_step(first.0, stream.connection, event, frame_payload(text));
            &&& first == (stream, StreamActionView::Yield(EventView::Message(message)))
            &&& second == first
        }),
{
}

/// Whatever the cache of the open session holds, an `Authenticated` frame
/// gives the consumer the `Authenticated` event and leaves in the cache the
/// client's own user and exactly the users that it brings: of each the record
/// that it brings, and the last one where it brings several under one id.
pub proof fn lemma_authenticated_replaces_cache(stream: EventsView, text: Seq<char>)
    requires
        stream.session is Open,
        frame_payload(text) matches Some(ServerPayloadView::Authenticated { .. }),
    ensures
        ({
            let user = frame_payload(text).unwrap()->Authenticated_user;
            let users = frame_payload(text).unwrap()->Authenticated_users;
            let after = stream_step(
                stream,
                stream.connection,
                SessionEventView::Received(IncomingView::Text(text)),
                frame_payload(text),
            );
            &&& after.1 == StreamActionView::Yield(EventView::Authenticated)
            &&& after.0.data.user == Some(user)
            &&& after.0.data.users.dom() =~= ids_of(users)
            &&& forall|i: int|
                0 <= i < users.len() && (forall|j: int|
                    i < j < users.len() ==> (#[trigger] users[j]).id != users[i].id)
                    ==> known_user(after.0.data, (#[trigger] users[i]).id) == Some(users[i])
        }),
{
    let user = frame_payload(text).unwrap()->Authenticated_user;
    let users = frame_payload(text).unwrap()->Authenticated_users;
    lemma_authenticated_fills_cache(stream.data, user, users);
}

/// When a session opens, its cache is empty. The `Authenticated` frame that
/// follows leaves exactly the users that it brings in the cache, and a
/// `UserUpdate` frame after it tells the record that the cache held of its
/// user and leaves the new record in the cache.
pub proof fn lemma_authenticated_then_user_update(
    stream: EventsView,
    authenticated: Seq<char>,
    update: Seq<char>,
)
    requires
        stream.session is Authenticating,
        frame_payload(authenticated) matches Some(ServerPayloadView::Authenticated { .. }),
        frame_payload(update) matches Some(ServerPayloadView::UserUpdate(_)),
    ensures
        ({
            let users = frame_payload(authenticated).unwrap()->Authenticated_users;
            let user = frame_payload(update).unwrap()->UserUpdate_0;
            let opened = stream_step(
                stream,
                stream.connection,
                SessionEventView::AuthenticateSent,
                None,
            ).0;
            let first = stream_step(
                opened,
                stream.connection,
                SessionEventView::Received(IncomingView::Text(authenticated)),
                frame_payload(authenticated),
            );
            let second = stream_step(
                first.0,
                stream.connection,
                SessionEventView::Received(IncomingView::Text(update)),
                frame_payload(update),
            );
            &&& opened.session is Open
            &&& opened.data == empty_cache()
            &&& first.1 == StreamActionView::Yield(EventView::Authenticated)
            &&& first.0.data.users.dom() =~= ids_of(users)
            &&& second.1 == StreamActionView::Yield(
                EventView::UserUpdate { old_user: known_user(first.0.data, user.id), user },
            )
            &&& known_user(second.0.data, user.id) == Some(user)
        }),
{
    let users = frame_payload(authenticated).unwrap()->Authenticated_users;
    let user = frame_payload(authenticated).unwrap()->Authenticated_user;
    lemma_authenticated_fills_cache(empty_cache(), user, users);
}

/// An event reaches the consumer only from the open session of the current
/// connection, and only by a text frame.
pub proof fn lemma_yield_only_when_streaming(
    stream: EventsView,
    connection: u64,
    event: SessionEventView,
    decoded: Option<ServerPayloadView>,
)
    requires
        stream_step(stream, connection, event, decoded).1 is Yield,
    ensures
        stream.session is Open,
        connection == stream.connection,
        event matches SessionEventView::Received(IncomingView::Text(_)),
        decoded is Some,
        stream_step(stream, connection, event, decoded).1 == StreamActionView::Yield(
            event_of(stream.data, decoded.unwrap()).unwrap(),
        ),
{
}

/// A session opens only at the end of the handshake: the `Hello` has been
/// received and the `Authenticate` frame has just been sent. It opens with an
/// empty cache.
pub proof fn lemma_opens_only_by_handshake(
    stream: EventsView,
    connection: u64,
    event: SessionEventView,
    decoded: Option<ServerPayloadView>,
)
    requires
        !(stream.session is Open),
        stream_step(stream, connection, event, decoded).0.session is Open,
    ensures
        stream.session is Authenticating,
        connection == stream.connection,
        event is AuthenticateSent,
        stream_step(stream, connection, event, decoded).0.data == empty_cache(),
        stream_step(stream, connection, event, decoded).1 is Opened,
{
}

/// The end of the connection pauses the consumer and is answered by
/// reconnecting; nothing is handed to the caller.
pub proof fn lemma_closed_socket_reconnects(stream: EventsView, incoming: IncomingView)
    requires
        stream.session is Open,
        incoming.ends_connection(),
    ensures
        stream_step(
            stream,
            stream.connection,
            SessionEventView::Received(incoming),
            None,
        ) == (
            EventsView { session: SessionState::Closed, ..stream },
            StreamActionView::Reconnect,
        ),
{
}

/// Only a failure before the first session has opened is handed to the
/// caller. After that, every failure is answered by waiting, never longer than
/// [`MAX_WAIT`] seconds, and trying again.
pub proof fn lemma_only_first_connection_is_fatal(
    stream: EventsView,
    connection: u64,
    event: SessionEventView,
    decoded: Option<ServerPayloadView>,
)
    ensures
        stream_step(stream, connection, event, decoded).1 is Fatal ==> !stream.opened,
        stream_step(stream, connection, event, decoded).1 is RetryAfter ==> stream.opened
            && stream_step(stream, connection, event, decoded).1 == (
            StreamActionView::RetryAfter { seconds: wait_after(stream.failures) })
            && stream_step(stream, connection, event, decoded).0.failures == stream.failures + 1
            && 1 <= wait_after(stream.failures) <= MAX_WAIT,
{
    lemma_wait_after_non_decreasing(stream.failures);
}

/// Once a session has opened, the first connection is behind for good:
/// whatever happens, no later failure is fatal.
pub proof fn lemma_first_connection_never_returns(
    stream: EventsView,
    inputs: Seq<StreamInput>,
    connection: u64,
    event: SessionEventView,
    decoded: Option<ServerPayloadView>,
)
    requires
        stream.opened,
    ensures
        stream_run(stream, inputs).opened,
        !(stream_run(stream, inputs).phase() is Connecting),
        !(stream_step(stream_run(stream, inputs), connection, event, decoded).1 is Fatal),
    decreases inputs.len(),
{
    if inputs.len() > 0 {
        lemma_first_connection_never_returns(
            stream,
            inputs.drop_last(),
            connection,
            event,
            decoded,
        );
    }
}

/// A connection that has been superseded stays so whatever the stream is
/// told, and nothing that is reported under its number gives an event or
/// changes the stream.
pub proof fn lemma_superseded_connection_is_silent(
    stream: EventsView,
    connection: u64,
    inputs: Seq<StreamInput>,
    event: SessionEventView,
    decoded: Option<ServerPayloadView>,
)
    requires
        connection < stream.connection,
        admissible_run(stream, inputs),
    ensures
        connection < stream_run(stream, inputs).connection,
        stream_step(stream_run(stream, inputs), connection, event, decoded) == (
            stream_run(stream, inputs),
            StreamActionView::Continue,
        ),
    decreases inputs.len(),
{
    if inputs.len() > 0 {
        lemma_superseded_connection_is_silent(
            stream,
            connection,
            inputs.drop_last(),
            event,
            decoded,
        );
    }
}

/// Beginning an attempt supersedes the connection before it and pauses the
/// consumer until the handshake of the new connection is done.
pub proof fn lemma_attempt_supersedes(stream: EventsView)
    requires
        stream.connection < u64::MAX,
    ensures
        stream.connection < attempt_begun(stream).connection,
        attempt_begun(stream).session == SessionState::Connecting,
        attempt_begun(stream).data == stream.data,
        attempt_begun(stream).failures == stream.failures,
{
}

} // verus!
