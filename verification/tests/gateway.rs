use eludrs::gateway::{StreamAction, StreamPhase};
use eludrs::models::{Event, Message, ServerPayload, Status, StatusType, User};
use eludrs::session::{ConnectError, Incoming, SessionEvent, SessionState};
use eludrs::{Events, GatewayClient, GATEWAY_URL, REST_URL};

fn user_json(id: u64, name: &str) -> String {
    format!(
        "{{\"id\":{},\"username\":\"{}\",\"social_credit\":0,\"status\":{{\"type\":\"ONLINE\"}},\"badges\":0,\"permissions\":0}}",
        id, name
    )
}

fn user(id: u64, name: &str) -> User {
    User {
        id,
        username: name.to_string(),
        display_name: None,
        social_credit: 0,
        status: Status { status_type: StatusType::Online, text: None },
        bio: None,
        avatar: None,
        banner: None,
        badges: 0,
        permissions: 0,
        email: None,
        verified: None,
    }
}

fn text(frame: &str) -> SessionEvent {
    SessionEvent::Received(Incoming::Text(frame.to_string()))
}

fn message_frame(author: u64, content: &str) -> SessionEvent {
    text(&format!(
        "{{\"op\":\"MESSAGE_CREATE\",\"d\":{{\"author\":{},\"content\":\"{}\"}}}}",
        user_json(author, "author"),
        content
    ))
}

fn message(author: u64, content: &str) -> StreamAction {
    StreamAction::Yield(Event::Message(Message {
        author: user(author, "author"),
        content: content.to_string(),
        disguise: None,
    }))
}

const HELLO: &str = "{\"op\":\"HELLO\",\"d\":{\"heartbeat_interval\":30000}}";

fn stream() -> Events {
    Events::new("wss://example.com/ws/".to_string(), "secret".to_string())
}

/// Runs the handshake of the current connection.
fn open(events: &mut Events) -> u64 {
    let connection = events.connection();
    assert_eq!(events.on_event(connection, &SessionEvent::Connected), StreamAction::Continue);
    assert_eq!(
        events.on_event(connection, &text(HELLO)),
        StreamAction::Authenticate {
            frame: "{\"op\":\"AUTHENTICATE\",\"d\":\"secret\"}".to_string(),
            heartbeat_interval: 30000,
        }
    );
    assert_eq!(
        events.on_event(connection, &SessionEvent::AuthenticateSent),
        StreamAction::Opened { heartbeat_interval: 30000 }
    );
    connection
}

fn streaming() -> (Events, u64) {
    let mut events = stream();
    let connection = open(&mut events);
    (events, connection)
}

#[test]
fn the_default_urls() {
    assert_eq!(REST_URL, "https://eludris.tooty.xyz");
    assert_eq!(GATEWAY_URL, "wss://eludris.tooty.xyz/ws/");
}

#[test]
fn a_new_client_uses_the_default_gateway() {
    let client = GatewayClient::new("secret");
    assert_eq!(client.gateway_url, "wss://eludris.tooty.xyz/ws/");
    assert_eq!(client.url(), "wss://eludris.tooty.xyz/ws/");
    assert_eq!(client.token(), "secret");
}

#[test]
fn gateway_url_changes_the_url_only() {
    let client = GatewayClient::new("secret").gateway_url("http://0.0.0.0:7160".to_string());
    assert_eq!(client.gateway_url, "http://0.0.0.0:7160".to_string());
    assert_eq!(client.token(), "secret");
    let copy = client.clone();
    assert_eq!(copy.gateway_url, "http://0.0.0.0:7160");
    assert_eq!(copy.token(), "secret");
}

#[test]
fn get_events_makes_a_stream_that_is_not_connected() {
    let client = GatewayClient::new("secret").gateway_url("ws://localhost:7160".to_string());
    let events = client.get_events();
    assert_eq!(events.gateway_url(), "ws://localhost:7160");
    assert_eq!(events.token(), "secret");
    assert_eq!(events.phase(), StreamPhase::Connecting);
    assert_eq!(events.session(), SessionState::Connecting);
    assert_eq!(events.connection(), 0);
    assert!(events.is_paused());
    assert_eq!(events.data().len(), 0);
    assert_eq!(events.data().user(), None);
}

#[test]
fn the_handshake_opens_the_stream() {
    let mut events = stream();
    assert_eq!(events.on_event(0, &SessionEvent::Connected), StreamAction::Continue);
    assert_eq!(events.session(), SessionState::AwaitingHello);
    assert_eq!(events.on_event(0, &text("{\"op\":\"PONG\"}")), StreamAction::Continue);
    assert_eq!(events.on_event(0, &message_frame(3, "too early")), StreamAction::Continue);
    assert_eq!(events.on_event(0, &text("not json")), StreamAction::Continue);
    assert_eq!(events.session(), SessionState::AwaitingHello);
    assert_eq!(events.phase(), StreamPhase::Connecting);
    assert_eq!(
        events.on_event(0, &text(HELLO)),
        StreamAction::Authenticate {
            frame: "{\"op\":\"AUTHENTICATE\",\"d\":\"secret\"}".to_string(),
            heartbeat_interval: 30000,
        }
    );
    assert_eq!(events.session(), SessionState::Authenticating { heartbeat_interval: 30000 });
    assert!(events.is_paused());
    assert_eq!(
        events.on_event(0, &SessionEvent::AuthenticateSent),
        StreamAction::Opened { heartbeat_interval: 30000 }
    );
    assert_eq!(events.session(), SessionState::Open { heartbeat_interval: 30000 });
    assert_eq!(events.phase(), StreamPhase::Streaming);
    assert!(!events.is_paused());
    assert_eq!(events.connection(), 0);
}

#[test]
fn the_failure_of_the_first_connection_is_the_callers() {
    let mut events = stream();
    assert_eq!(
        events.on_event(0, &SessionEvent::ConnectFailed),
        StreamAction::Fatal(ConnectError::Transport)
    );
    assert_eq!(events.phase(), StreamPhase::Connecting);
    assert_eq!(events.session(), SessionState::Closed);

    for end in [Incoming::Other, Incoming::Close, Incoming::End, Incoming::Error] {
        let mut events = stream();
        events.on_event(0, &SessionEvent::Connected);
        assert_eq!(
            events.on_event(0, &SessionEvent::Received(end)),
            StreamAction::Fatal(ConnectError::MissingHello)
        );
        assert_eq!(events.phase(), StreamPhase::Connecting);
    }

    let mut events = stream();
    events.on_event(0, &SessionEvent::Connected);
    assert_eq!(
        events.on_event(0, &text("{\"op\":\"HELLO\",\"d\":{\"heartbeat_interval\":0}}")),
        StreamAction::Fatal(ConnectError::InvalidHello)
    );

    let mut events = stream();
    events.on_event(0, &SessionEvent::Connected);
    events.on_event(0, &text(HELLO));
    assert_eq!(
        events.on_event(0, &SessionEvent::SendFailed),
        StreamAction::Fatal(ConnectError::AuthenticateFailed)
    );
    assert_eq!(events.phase(), StreamPhase::Connecting);
}

#[test]
fn a_first_connection_may_be_tried_again() {
    let mut events = stream();
    assert_eq!(
        events.on_event(0, &SessionEvent::ConnectFailed),
        StreamAction::Fatal(ConnectError::Transport)
    );
    assert_eq!(events.begin_attempt(), 1);
    assert_eq!(
        events.on_event(1, &SessionEvent::ConnectFailed),
        StreamAction::Fatal(ConnectError::Transport)
    );
    assert_eq!(events.begin_attempt(), 2);
    assert_eq!(open(&mut events), 2);
    assert_eq!(events.phase(), StreamPhase::Streaming);
}

#[test]
fn an_open_session_feeds_the_consumer() {
    let (mut events, connection) = streaming();
    assert_eq!(events.on_event(connection, &message_frame(3, "hi")), message(3, "hi"));
    assert_eq!(events.on_event(connection, &text("{\"op\":\"PONG\"}")), StreamAction::Continue);
    assert_eq!(
        events.on_event(connection, &text("{\"op\":\"RATE_LIMIT\",\"d\":{\"wait\":9}}")),
        StreamAction::Continue
    );
    assert_eq!(events.on_event(connection, &text(HELLO)), StreamAction::Continue);
    assert_eq!(
        events.on_event(connection, &SessionEvent::Received(Incoming::Other)),
        StreamAction::Continue
    );
    assert_eq!(events.on_event(connection, &SessionEvent::SendFailed), StreamAction::Continue);
    assert_eq!(events.on_event(connection, &message_frame(4, "ho")), message(4, "ho"));
    assert_eq!(events.phase(), StreamPhase::Streaming);
}

#[test]
fn malformed_frames_are_skipped() {
    let (mut events, connection) = streaming();
    events.on_event(
        connection,
        &text(&format!("{{\"op\":\"USER_UPDATE\",\"d\":{}}}", user_json(2, "foo"))),
    );
    for frame in [
        "",
        "garbage",
        "{",
        "[]",
        "{}",
        "{\"op\":\"MESSAGE_CREATE\"}",
        "{\"op\":\"MESSAGE_CREATE\",\"d\":{\"content\":\"no author\"}}",
        "{\"op\":\"USER_UPDATE\",\"d\":{\"id\":\"2\"}}",
        "{\"op\":\"UNHEARD_OF\",\"d\":{}}",
    ] {
        assert_eq!(events.on_event(connection, &text(frame)), StreamAction::Continue);
        assert_eq!(events.phase(), StreamPhase::Streaming);
        assert_eq!(events.session(), SessionState::Open { heartbeat_interval: 30000 });
        assert_eq!(events.data().len(), 1);
        assert_eq!(events.data().get(2), Some(&user(2, "foo")));
    }
    assert_eq!(
        events.on_event(connection, &message_frame(3, "still here")),
        message(3, "still here")
    );
}

#[test]
fn the_same_message_frame_decodes_alike() {
    let (mut events, connection) = streaming();
    let frame = message_frame(3, "twice");
    let first = events.on_event(connection, &frame);
    let second = events.on_event(connection, &frame);
    assert_eq!(first, message(3, "twice"));
    assert_eq!(first, second);
}

#[test]
fn the_cache_follows_the_frames() {
    let (mut events, connection) = streaming();
    let authenticated = format!(
        "{{\"op\":\"AUTHENTICATED\",\"d\":{{\"user\":{},\"users\":[{},{}]}}}}",
        user_json(1, "me"),
        user_json(2, "foo"),
        user_json(7, "bar")
    );
    assert_eq!(
        events.on_event(connection, &text(&authenticated)),
        StreamAction::Yield(Event::Authenticated)
    );
    assert_eq!(events.data().user(), Some(&user(1, "me")));
    assert_eq!(events.data().len(), 2);
    assert_eq!(events.data().get(2), Some(&user(2, "foo")));
    assert_eq!(events.data().get(7), Some(&user(7, "bar")));
    assert_eq!(events.data().get(1), None);
    let update = format!("{{\"op\":\"USER_UPDATE\",\"d\":{}}}", user_json(2, "oof"));
    assert_eq!(
        events.on_event(connection, &text(&update)),
        StreamAction::Yield(Event::UserUpdate {
            old_user: Some(user(2, "foo")),
            user: user(2, "oof"),
        })
    );
    assert_eq!(events.data().get(2), Some(&user(2, "oof")));
    let presence =
        "{\"op\":\"PRESENCE_UPDATE\",\"d\":{\"user_id\":7,\"status\":{\"type\":\"BUSY\"}}}";
    assert_eq!(
        events.on_event(connection, &text(presence)),
        StreamAction::Yield(Event::PresenceUpdate {
            old_status: Some(Status { status_type: StatusType::Online, text: None }),
            user_id: 7,
            status: Status { status_type: StatusType::Busy, text: None },
        })
    );
}

#[test]
fn authenticated_leaves_exactly_its_users_in_the_cache() {
    let (mut events, connection) = streaming();
    let update = format!("{{\"op\":\"USER_UPDATE\",\"d\":{}}}", user_json(5, "five"));
    assert_eq!(
        events.on_event(connection, &text(&update)),
        StreamAction::Yield(Event::UserUpdate { old_user: None, user: user(5, "five") })
    );
    assert_eq!(events.data().get(5), Some(&user(5, "five")));
    let alone = format!(
        "{{\"op\":\"AUTHENTICATED\",\"d\":{{\"user\":{},\"users\":[]}}}}",
        user_json(1, "me")
    );
    assert_eq!(
        events.on_event(connection, &text(&alone)),
        StreamAction::Yield(Event::Authenticated)
    );
    assert_eq!(events.data().len(), 0);
    assert_eq!(events.data().get(5), None);
    assert_eq!(events.data().user(), Some(&user(1, "me")));

    events.on_event(connection, &text(&update));
    let repeated = format!(
        "{{\"op\":\"AUTHENTICATED\",\"d\":{{\"user\":{},\"users\":[{},{},{}]}}}}",
        user_json(1, "me"),
        user_json(2, "first"),
        user_json(3, "bar"),
        user_json(2, "second")
    );
    assert_eq!(
        events.on_event(connection, &text(&repeated)),
        StreamAction::Yield(Event::Authenticated)
    );
    assert_eq!(events.data().len(), 2);
    assert_eq!(events.data().get(5), None);
    assert_eq!(events.data().get(2), Some(&user(2, "second")));
    assert_eq!(events.data().get(3), Some(&user(3, "bar")));
}

#[test]
fn presence_of_a_user_that_is_not_cached() {
    let (mut events, connection) = streaming();
    assert_eq!(
        events.on_event(
            connection,
            &text(
                "{\"op\":\"PRESENCE_UPDATE\",\"d\":{\"user_id\":7,\"status\":{\"type\":\"ONLINE\"}}}"
            )
        ),
        StreamAction::Yield(Event::PresenceUpdate {
            old_status: None,
            user_id: 7,
            status: Status { status_type: StatusType::Online, text: None },
        })
    );
    assert_eq!(events.data().get(7), None);
}

#[test]
fn a_closed_socket_pauses_the_stream_and_reconnects() {
    for end in [Incoming::Close, Incoming::End, Incoming::Error] {
        let (mut events, old) = streaming();
        assert_eq!(events.on_event(old, &message_frame(3, "before")), message(3, "before"));
        assert_eq!(events.on_event(old, &SessionEvent::Received(end)), StreamAction::Reconnect);
        assert_eq!(events.phase(), StreamPhase::Reconnecting);
        assert_eq!(events.session(), SessionState::Closed);
        assert!(events.is_paused());
        assert_eq!(events.on_event(old, &message_frame(3, "buffered")), StreamAction::Continue);

        let new = events.begin_attempt();
        assert_eq!(new, old + 1);
        assert_eq!(events.phase(), StreamPhase::Reconnecting);
        assert_eq!(
            events.on_event(new, &SessionEvent::ConnectFailed),
            StreamAction::RetryAfter { seconds: 1 }
        );
        assert_eq!(events.on_event(old, &message_frame(3, "buffered")), StreamAction::Continue);

        let new = events.begin_attempt();
        assert_eq!(open(&mut events), new);
        assert_eq!(events.phase(), StreamPhase::Streaming);
        assert_eq!(events.on_event(old, &message_frame(3, "buffered")), StreamAction::Continue);
        assert_eq!(
            events.step(
                old,
                &text("anything"),
                Some(ServerPayload::UserUpdate(user(5, "late")))
            ),
            StreamAction::Continue
        );
        assert_eq!(
            events.on_event(old, &SessionEvent::Received(Incoming::Close)),
            StreamAction::Continue
        );
        assert_eq!(events.data().len(), 0);
        assert_eq!(events.phase(), StreamPhase::Streaming);
        assert_eq!(events.on_event(new, &message_frame(3, "after")), message(3, "after"));
    }
}

#[test]
fn reconnecting_backs_off_up_to_the_cap() {
    let (mut events, connection) = streaming();
    assert_eq!(
        events.on_event(connection, &SessionEvent::Received(Incoming::End)),
        StreamAction::Reconnect
    );
    let mut waits = Vec::new();
    for _ in 0..10 {
        let connection = events.begin_attempt();
        match events.on_event(connection, &SessionEvent::ConnectFailed) {
            StreamAction::RetryAfter { seconds } => waits.push(seconds),
            other => panic!("{:?}", other),
        }
        assert_eq!(events.phase(), StreamPhase::Reconnecting);
    }
    assert_eq!(waits, vec![1, 2, 4, 8, 16, 32, 64, 64, 64, 64]);
}

#[test]
fn every_failed_reconnection_backs_off() {
    let (mut events, connection) = streaming();
    events.on_event(connection, &SessionEvent::Received(Incoming::Close));

    let connection = events.begin_attempt();
    assert_eq!(
        events.on_event(connection, &SessionEvent::ConnectFailed),
        StreamAction::RetryAfter { seconds: 1 }
    );
    let connection = events.begin_attempt();
    events.on_event(connection, &SessionEvent::Connected);
    assert_eq!(
        events.on_event(connection, &SessionEvent::Received(Incoming::End)),
        StreamAction::RetryAfter { seconds: 2 }
    );
    let connection = events.begin_attempt();
    events.on_event(connection, &SessionEvent::Connected);
    assert_eq!(
        events.on_event(connection, &text("{\"op\":\"HELLO\",\"d\":{\"heartbeat_interval\":0}}")),
        StreamAction::RetryAfter { seconds: 4 }
    );
    let connection = events.begin_attempt();
    events.on_event(connection, &SessionEvent::Connected);
    events.on_event(connection, &text(HELLO));
    assert_eq!(
        events.on_event(connection, &SessionEvent::SendFailed),
        StreamAction::RetryAfter { seconds: 8 }
    );
    assert_eq!(events.phase(), StreamPhase::Reconnecting);
}

#[test]
fn the_backoff_starts_over_with_every_session() {
    let (mut events, connection) = streaming();
    events.on_event(connection, &SessionEvent::Received(Incoming::Close));
    for seconds in [1, 2, 4] {
        let connection = events.begin_attempt();
        assert_eq!(
            events.on_event(connection, &SessionEvent::ConnectFailed),
            StreamAction::RetryAfter { seconds }
        );
    }
    events.begin_attempt();
    let connection = open(&mut events);
    events.on_event(connection, &SessionEvent::Received(Incoming::Close));
    for seconds in [1, 2] {
        let connection = events.begin_attempt();
        assert_eq!(
            events.on_event(connection, &SessionEvent::ConnectFailed),
            StreamAction::RetryAfter { seconds }
        );
    }
}

#[test]
fn every_session_starts_with_an_empty_cache() {
    let (mut events, first) = streaming();
    let update = text(&format!("{{\"op\":\"USER_UPDATE\",\"d\":{}}}", user_json(2, "foo")));
    assert_eq!(
        events.on_event(first, &update),
        StreamAction::Yield(Event::UserUpdate { old_user: None, user: user(2, "foo") })
    );
    assert_eq!(events.data().len(), 1);
    events.on_event(first, &SessionEvent::Received(Incoming::Close));
    events.begin_attempt();
    let second = open(&mut events);
    assert_eq!(events.data().len(), 0);
    assert_eq!(events.data().user(), None);
    assert_eq!(
        events.on_event(second, &update),
        StreamAction::Yield(Event::UserUpdate { old_user: None, user: user(2, "foo") })
    );
}

#[test]
fn events_of_other_connections_are_dropped() {
    let mut events = stream();
    assert_eq!(events.on_event(1, &SessionEvent::Connected), StreamAction::Continue);
    assert_eq!(events.on_event(7, &SessionEvent::ConnectFailed), StreamAction::Continue);
    assert_eq!(events.session(), SessionState::Connecting);
    let connection = open(&mut events);
    for other in [connection + 1, 7, u64::MAX] {
        assert_eq!(events.on_event(other, &message_frame(3, "stale")), StreamAction::Continue);
        assert_eq!(
            events.on_event(other, &SessionEvent::Received(Incoming::Close)),
            StreamAction::Continue
        );
        assert_eq!(events.phase(), StreamPhase::Streaming);
    }
    assert_eq!(events.on_event(connection, &message_frame(3, "live")), message(3, "live"));
}

#[test]
fn a_new_attempt_supersedes_the_open_session() {
    let (mut events, first) = streaming();
    let second = events.begin_attempt();
    assert_eq!((first, second), (0, 1));
    assert_eq!(events.phase(), StreamPhase::Reconnecting);
    assert!(events.is_paused());
    assert_eq!(events.on_event(first, &message_frame(3, "old")), StreamAction::Continue);
    assert_eq!(
        events.on_event(first, &SessionEvent::Received(Incoming::Close)),
        StreamAction::Continue
    );
    assert_eq!(events.session(), SessionState::Connecting);
    assert_eq!(open(&mut events), second);
    assert_eq!(events.on_event(second, &message_frame(3, "new")), message(3, "new"));
}

#[test]
fn the_stream_takes_the_decoded_frame() {
    let (mut events, connection) = streaming();
    assert_eq!(events.step(connection, &text("anything"), None), StreamAction::Continue);
    assert_eq!(
        events.step(connection, &text("anything"), Some(ServerPayload::Pong)),
        StreamAction::Continue
    );
    assert_eq!(
        events.step(
            connection,
            &text("anything"),
            Some(ServerPayload::UserUpdate(user(2, "foo")))
        ),
        StreamAction::Yield(Event::UserUpdate { old_user: None, user: user(2, "foo") })
    );
    assert_eq!(events.data().get(2), Some(&user(2, "foo")));
    assert_eq!(
        events.step(
            connection,
            &SessionEvent::Received(Incoming::Other),
            Some(ServerPayload::UserUpdate(user(3, "bar")))
        ),
        StreamAction::Continue
    );
    assert_eq!(events.data().get(3), None);
}
