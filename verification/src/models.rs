//! The values that travel over the gateway and the events made from them.
//!
//! Each type here is plain data. Its view replaces every `String` by the
//! sequence of its characters and every `Vec` by a sequence, and is what the
//! contracts of the codec and of the event stream speak of.
use vstd::prelude::*;

verus! {

/// The characters of an optional string.
pub open spec fn text_view(text: Option<String>) -> Option<Seq<char>> {
    match text {
        Some(text) => Some(text@),
        None => None,
    }
}

/// Copies an optional string.
pub fn clone_text(text: &Option<String>) -> (copy: Option<String>)
    ensures
        copy == *text,
{
    match text {
        Some(text) => Some(text.clone()),
        None => None,
    }
}

/// What a user is doing, as far as the gateway tells.
#[derive(Debug, Clone, Copy, PartialEq, Eq, Structural)]
pub enum StatusType {
    Online,
    Offline,
    Idle,
    Busy,
}

/// A user's status: its kind and the text the user gave it, if any.
#[derive(Debug, PartialEq, Eq)]
pub struct Status {
    pub status_type: StatusType,
    pub text: Option<String>,
}

/// The view of a [`Status`].
pub struct StatusView {
    pub status_type: StatusType,
    pub text: Option<Seq<char>>,
}

impl View for Status {
    type V = StatusView;

    open spec fn view(&self) -> StatusView {
        StatusView { status_type: self.status_type, text: text_view(self.text) }
    }
}

impl Clone for Status {
    fn clone(&self) -> (copy: Self)
        ensures
            copy == *self,
    {
        Status { status_type: self.status_type, text: clone_text(&self.text) }
    }
}

/// A user of the instance, as the gateway last described it.
#[derive(Debug, PartialEq, Eq)]
pub struct User {
    pub id: u64,
    pub username: String,
    pub display_name: Option<String>,
    pub social_credit: i32,
    pub status: Status,
    pub bio: Option<String>,
    pub avatar: Option<u64>,
    pub banner: Option<u64>,
    pub badges: u64,
    pub permissions: u64,
    pub email: Option<String>,
    pub verified: Option<bool>,
}

/// The view of a [`User`].
pub struct UserView {
    pub id: u64,
    pub username: Seq<char>,
    pub display_name: Option<Seq<char>>,
    pub social_credit: i32,
    pub status: StatusView,
    pub bio: Option<Seq<char>>,
    pub avatar: Option<u64>,
    pub banner: Option<u64>,
    pub badges: u64,
    pub permissions: u64,
    pub email: Option<Seq<char>>,
    pub verified: Option<bool>,
}

impl View for User {
    type V = UserView;

    open spec fn view(&self) -> UserView {
        UserView {
            id: self.id,
            username: self.username@,
            display_name: text_view(self.display_name),
            social_credit: self.social_credit,
            status: self.status@,
            bio: text_view(self.bio),
            avatar: self.avatar,
            banner: self.banner,
            badges: self.badges,
            permissions: self.permissions,
            email: text_view(self.email),
            verified: self.verified,
        }
    }
}

impl Clone for User {
    fn clone(&self) -> (copy: Self)
        ensures
            copy == *self,
    {
        User {
            id: self.id,
            username: self.username.clone(),
            display_name: clone_text(&self.display_name),
            social_credit: self.social_credit,
            status: self.status.clone(),
            bio: clone_text(&self.bio),
            avatar: self.avatar,
            banner: self.banner,
            badges: self.badges,
            permissions: self.permissions,
            email: clone_text(&self.email),
            verified: self.verified,
        }
    }
}

/// The views of the users of a sequence, in its order.
pub open spec fn users_view(users: Seq<User>) -> Seq<UserView> {
    Seq::new(users.len(), |i: int| users[i]@)
}

/// The name and avatar under which a message is shown in place of its author's.
#[derive(Debug, PartialEq, Eq)]
pub struct MessageDisguise {
    pub name: Option<String>,
    pub avatar: Option<String>,
}

/// The view of a [`MessageDisguise`].
pub struct MessageDisguiseView {
    pub name: Option<Seq<char>>,
    pub avatar: Option<Seq<char>>,
}

impl View for MessageDisguise {
    type V = MessageDisguiseView;

    open spec fn view(&self) -> MessageDisguiseView {
        MessageDisguiseView { name: text_view(self.name), avatar: text_view(self.avatar) }
    }
}

impl Clone for MessageDisguise {
    fn clone(&self) -> (copy: Self)
        ensures
            copy == *self,
    {
        MessageDisguise { name: clone_text(&self.name), avatar: clone_text(&self.avatar) }
    }
}

/// The view of an optional [`MessageDisguise`].
pub open spec fn disguise_view(disguise: Option<MessageDisguise>) -> Option<MessageDisguiseView> {
    match disguise {
        Some(disguise) => Some(disguise@),
        None => None,
    }
}

/// A chat message.
#[derive(Debug, PartialEq, Eq)]
pub struct Message {
    pub author: User,
    pub content: String,
    pub disguise: Option<MessageDisguise>,
}

/// The view of a [`Message`].
pub struct MessageView {
    pub author: UserView,
    pub content: Seq<char>,
    pub disguise: Option<MessageDisguiseView>,
}

impl View for Message {
    type V = MessageView;

    open spec fn view(&self) -> MessageView {
        MessageView {
            author: self.author@,
            content: self.content@,
            disguise: disguise_view(self.disguise),
        }
    }
}

impl Clone for Message {
    fn clone(&self) -> (copy: Self)
        ensures
            copy == *self,
    {
        let disguise = match &self.disguise {
            Some(disguise) => Some(disguise.clone()),
            None => None,
        };
        Message { author: self.author.clone(), content: self.content.clone(), disguise }
    }
}

/// What the gateway sends: exactly one variant per frame.
#[derive(Debug, PartialEq, Eq)]
pub enum ServerPayload {
    /// The answer to a ping.
    Pong,
    /// The client sent too much and has to wait `wait` milliseconds.
    RateLimit { wait: u64 },
    /// The greeting of a new connection, with the milliseconds between pings.
    Hello { heartbeat_interval: u64 },
    /// The session is authenticated: the client's own user and the users it
    /// can see.
    Authenticated { user: User, users: Vec<User> },
    /// A user changed.
    UserUpdate(User),
    /// A user's status changed.
    PresenceUpdate { user_id: u64, status: Status },
    /// A message was sent.
    MessageCreate(Message),
}

/// The view of a [`ServerPayload`].
pub enum ServerPayloadView {
    Pong,
    RateLimit { wait: u64 },
    Hello { heartbeat_interval: u64 },
    Authenticated { user: UserView, users: Seq<UserView> },
    UserUpdate(UserView),
    PresenceUpdate { user_id: u64, status: StatusView },
    MessageCreate(MessageView),
}

impl View for ServerPayload {
    type V = ServerPayloadView;

    open spec fn view(&self) -> ServerPayloadView {
        match *self {
            ServerPayload::Pong => ServerPayloadView::Pong,
            ServerPayload::RateLimit { wait } => ServerPayloadView::RateLimit { wait },
            ServerPayload::Hello { heartbeat_interval } => ServerPayloadView::Hello {
                heartbeat_interval,
            },
            ServerPayload::Authenticated { user, users } => ServerPayloadView::Authenticated {
                user: user@,
                users: users_view(users@),
            },
            ServerPayload::UserUpdate(user) => ServerPayloadView::UserUpdate(user@),
            ServerPayload::PresenceUpdate { user_id, status } => ServerPayloadView::PresenceUpdate {
                user_id,
                status: status@,
            },
            ServerPayload::MessageCreate(message) => ServerPayloadView::MessageCreate(message@),
        }
    }
}

/// The view of an optional [`ServerPayload`].
pub open spec fn payload_view(payload: Option<ServerPayload>) -> Option<ServerPayloadView> {
    match payload {
        Some(payload) => Some(payload@),
        None => None,
    }
}

/// What the client sends.
#[derive(Debug, PartialEq, Eq)]
pub enum ClientPayload {
    /// The keep-alive of the connection.
    Ping,
    /// The session token that authenticates the connection.
    Authenticate(String),
}

/// The view of a [`ClientPayload`].
pub enum ClientPayloadView {
    Ping,
    Authenticate(Seq<char>),
}

impl View for ClientPayload {
    type V = ClientPayloadView;

    open spec fn view(&self) -> ClientPayloadView {
        match *self {
            ClientPayload::Ping => ClientPayloadView::Ping,
            ClientPayload::Authenticate(token) => ClientPayloadView::Authenticate(token@),
        }
    }
}

/// An abstraction over gateway event types
#[derive(Debug, PartialEq, Eq)]
pub enum Event {
    /// An indication that the client has succesfully authenticated
    Authenticated,
    /// A message that has just been sent over the gateway
    Message(Message),
    /// The old and new data after a user has been updated
    UserUpdate { old_user: Option<User>, user: User },
    /// The old and new data after a user's status has been updated
    PresenceUpdate { old_status: Option<Status>, user_id: u64, status: Status },
}

/// The view of an [`Event`].
pub enum EventView {
    Authenticated,
    Message(MessageView),
    UserUpdate { old_user: Option<UserView>, user: UserView },
    PresenceUpdate { old_status: Option<StatusView>, user_id: u64, status: StatusView },
}

/// The view of an optional [`User`].
pub open spec fn user_view(user: Option<User>) -> Option<UserView> {
    match user {
        Some(user) => Some(user@),
        None => None,
    }
}

/// The view of an optional [`Status`].
pub open spec fn status_view(status: Option<Status>) -> Option<StatusView> {
    match status {
        Some(status) => Some(status@),
        None => None,
    }
}

impl View for Event {
    type V = EventView;

    open spec fn view(&self) -> EventView {
        match *self {
            Event::Authenticated => EventView::Authenticated,
            Event::Message(message) => EventView::Message(message@),
            Event::UserUpdate { old_user, user } => EventView::UserUpdate {
                old_user: user_view(old_user),
                user: user@,
            },
            Event::PresenceUpdate { old_status, user_id, status } => EventView::PresenceUpdate {
                old_status: status_view(old_status),
                user_id,
                status: status@,
            },
        }
    }
}

/// The view of an optional [`Event`].
pub open spec fn event_view(event: Option<Event>) -> Option<EventView> {
    match event {
        Some(event) => Some(event@),
        None => None,
    }
}

impl Clone for Event {
    fn clone(&self) -> (copy: Self)
        ensures
            copy == *self,
    {
        match self {
            Event::Authenticated => Event::Authenticated,
            Event::Message(message) => Event::Message(message.clone()),
            Event::UserUpdate { old_user, user } => {
                let old_user = match old_user {
                    Some(old_user) => Some(old_user.clone()),
                    None => None,
                };
                Event::UserUpdate { old_user, user: user.clone() }
            },
            Event::PresenceUpdate { old_status, user_id, status } => {
                let old_status = match old_status {
                    Some(old_status) => Some(old_status.clone()),
                    None => None,
                };
                Event::PresenceUpdate { old_status, user_id: *user_id, status: status.clone() }
            },
        }
    }
}

} // verus!
