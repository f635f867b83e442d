//! The frame codec: text frames to [`ServerPayload`] values and
//! [`ClientPayload`] values to text frames.
//!
//! A frame is a JSON object with the name of the operation under `"op"` and
//! its data, where it has any, under `"d"`. Field names and operation names
//! are the gateway's. A member that this module does not read is ignored. A
//! frame that is no JSON, lacks a field, or holds a field of the wrong kind is
//! not decodable: decoding answers `None` and never fails in any other way.
use crate::json::{
    json_model, json_parse, json_string, models_of, optional_bool, optional_text, optional_u64,
    parse_value, present, quote_text, required_i32, required_text, required_u64, text_equals,
    value_member, JsonValue,
};
use crate::models::{
    disguise_view, payload_view, status_view, user_view, users_view, ClientPayload,
    ClientPayloadView, Message, MessageDisguise, MessageDisguiseView, MessageView, ServerPayload,
    ServerPayloadView, Status, StatusType, StatusView, User, UserView,
};
use vstd::prelude::*;
use vstd::string::*;

verus! {

/// The status type that a name of the wire stands for.
pub open spec fn status_type_of_text(text: Seq<char>) -> Option<StatusType> {
    if text == "ONLINE"@ {
        Some(StatusType::Online)
    } else if text == "OFFLINE"@ {
        Some(StatusType::Offline)
    } else if text == "IDLE"@ {
        Some(StatusType::Idle)
    } else if text == "BUSY"@ {
        Some(StatusType::Busy)
    } else {
        None
    }
}

/// The status that a document describes: its `"type"` and, optionally, its
/// `"text"`.
pub open spec fn status_of_json(json: JsonValue) -> Option<StatusView> {
    let status_type = match json.required_text("type"@) {
        Some(name) => status_type_of_text(name),
        None => None,
    };
    let text = json.optional_text("text"@);
    if status_type is Some && text is Some {
        Some(StatusView { status_type: status_type.unwrap(), text: text.unwrap() })
    } else {
        None
    }
}

/// The status under `key`, which must be there.
pub open spec fn required_status(json: JsonValue, key: Seq<char>) -> Option<StatusView> {
    match json.member(key) {
        Some(member) => status_of_json(member),
        None => None,
    }
}

/// The user that a document describes.
pub open spec fn user_of_json(json: JsonValue) -> Option<UserView> {
    let id = json.required_u64("id"@);
    let username = json.required_text("username"@);
    let display_name = json.optional_text("display_name"@);
    let social_credit = json.required_i32("social_credit"@);
    let status = required_status(json, "status"@);
    let bio = json.optional_text("bio"@);
    let avatar = json.optional_u64("avatar"@);
    let banner = json.optional_u64("banner"@);
    let badges = json.required_u64("badges"@);
    let permissions = json.required_u64("permissions"@);
    let email = json.optional_text("email"@);
    let verified = json.optional_bool("verified"@);
    if id is Some && username is Some && display_name is Some && social_credit is Some
        && status is Some && bio is Some && avatar is Some && banner is Some && badges is Some
        && permissions is Some && email is Some && verified is Some {
        Some(
            UserView {
                id: id.unwrap(),
                username: username.unwrap(),
                display_name: display_name.unwrap(),
                social_credit: social_credit.unwrap(),
                status: status.unwrap(),
                bio: bio.unwrap(),
                avatar: avatar.unwrap(),
                banner: banner.unwrap(),
                badges: badges.unwrap(),
                permissions: permissions.unwrap(),
                email: email.unwrap(),
                verified: verified.unwrap(),
            },
        )
    } else {
        None
    }
}

/// The user under `key`, which must be there.
pub open spec fn required_user(json: JsonValue, key: Seq<char>) -> Option<UserView> {
    match json.member(key) {
        Some(member) => user_of_json(member),
        None => None,
    }
}

/// The users that the elements of an array describe, in its order; `None`
/// where one element describes no user.
pub open spec fn users_of_json(elements: Seq<JsonValue>) -> Option<Seq<UserView>> {
    if forall|i: int| 0 <= i < elements.len() ==> (#[trigger] user_of_json(elements[i])) is Some {
        Some(Seq::new(elements.len(), |i: int| user_of_json(elements[i]).unwrap()))
    } else {
        None
    }
}

/// The users of the array under `key`, which must be there.
pub open spec fn required_users(json: JsonValue, key: Seq<char>) -> Option<Seq<UserView>> {
    match json.member(key) {
        Some(member) => match member.as_array() {
            Some(elements) => users_of_json(elements),
            None => None,
        },
        None => None,
    }
}

/// The disguise that a document describes: an object, all of whose fields are
/// optional.
pub open spec fn disguise_of_json(json: JsonValue) -> Option<MessageDisguiseView> {
    let name = json.optional_text("name"@);
    let avatar = json.optional_text("avatar"@);
    if json is Object && name is Some && avatar is Some {
        Some(MessageDisguiseView { name: name.unwrap(), avatar: avatar.unwrap() })
    } else {
        None
    }
}

/// The disguise under `key`, which may be missing or `null`. The outer `None`
/// stands for a member that describes no disguise.
pub open spec fn optional_disguise(json: JsonValue, key: Seq<char>) -> Option<
    Option<MessageDisguiseView>,
> {
    match json.present(key) {
        Some(member) => match disguise_of_json(member) {
            Some(disguise) => Some(Some(disguise)),
            None => None,
        },
        None => Some(None),
    }
}

/// The message that a document describes.
pub open spec fn message_of_json(json: JsonValue) -> Option<MessageView> {
    let author = required_user(json, "author"@);
    let content = json.required_text("content"@);
    let disguise = optional_disguise(json, "_disguise"@);
    if author is Some && content is Some && disguise is Some {
        Some(
            MessageView {
                author: author.unwrap(),
                content: content.unwrap(),
                disguise: disguise.unwrap(),
            },
        )
    } else {
        None
    }
}

/// The payload of the operation `op` with the data `data`.
pub open spec fn payload_of_operation(op: Seq<char>, data: JsonValue) -> Option<
    ServerPayloadView,
> {
    if op == "RATE_LIMIT"@ {
        match data.required_u64("wait"@) {
            Some(wait) => Some(ServerPayloadView::RateLimit { wait }),
            None => None,
        }
    } else if op == "HELLO"@ {
        match data.required_u64("heartbeat_interval"@) {
            Some(heartbeat_interval) => Some(ServerPayloadView::Hello { heartbeat_interval }),
            None => None,
        }
    } else if op == "AUTHENTICATED"@ {
        let user = required_user(data, "user"@);
        let users = required_users(data, "users"@);
        if user is Some && users is Some {
            Some(ServerPayloadView::Authenticated { user: user.unwrap(), users: users.unwrap() })
        } else {
            None
        }
    } else if op == "USER_UPDATE"@ {
        match user_of_json(data) {
            Some(user) => Some(ServerPayloadView::UserUpdate(user)),
            None => None,
        }
    } else if op == "PRESENCE_UPDATE"@ {
        let user_id = data.required_u64("user_id"@);
        let status = required_status(data, "status"@);
        if user_id is Some && status is Some {
            Some(
                ServerPayloadView::PresenceUpdate {
                    user_id: user_id.unwrap(),
                    status: status.unwrap(),
                },
            )
        } else {
            None
        }
    } else if op == "MESSAGE_CREATE"@ {
        match message_of_json(data) {
            Some(message) => Some(ServerPayloadView::MessageCreate(message)),
            None => None,
        }
    } else {
        None
    }
}

/// The payload that a document describes: the operation under `"op"` decides
/// the variant, the member under `"d"` holds its data. `"PONG"` has no data.
pub open spec fn payload_of_json(json: JsonValue) -> Option<ServerPayloadView> {
    match json.required_text("op"@) {
        Some(op) => if op == "PONG"@ {
            Some(ServerPayloadView::Pong)
        } else {
            match json.member("d"@) {
                Some(data) => payload_of_operation(op, data),
                None => None,
            }
        },
        None => None,
    }
}

/// The payload that the text of a frame decodes to; `None` for a frame that is
/// not decodable.
pub open spec fn frame_payload(text: Seq<char>) -> Option<ServerPayloadView> {
    match json_parse(text) {
        Some(json) => payload_of_json(json),
        None => None,
    }
}

/// The text of the frame that carries `payload`.
pub open spec fn encoded(payload: ClientPayloadView) -> Seq<char> {
    match payload {
        ClientPayloadView::Ping => "{\"op\":\"PING\"}"@,
        ClientPayloadView::Authenticate(token) => "{\"op\":\"AUTHENTICATE\",\"d\":"@ + json_string(
            token,
        ) + "}"@,
    }
}

/// Tells which status type a name of the wire stands for.
pub fn status_type_from_name(name: &str) -> (status_type: Option<StatusType>)
    ensures
        status_type == status_type_of_text(name@),
{
    if text_equals(name, "ONLINE") {
        Some(StatusType::Online)
    } else if text_equals(name, "OFFLINE") {
        Some(StatusType::Offline)
    } else if text_equals(name, "IDLE") {
        Some(StatusType::Idle)
    } else if text_equals(name, "BUSY") {
        Some(StatusType::Busy)
    } else {
        None
    }
}

/// Decodes a status.
pub fn decode_status(value: &serde_json::Value) -> (status: Option<Status>)
    ensures
        status_view(status) == status_of_json(json_model(*value)),
{
    let status_type = match required_text(value, "type") {
        Some(name) => match status_type_from_name(name.as_str()) {
            Some(status_type) => status_type,
            None => return None,
        },
        None => return None,
    };
    let text = match optional_text(value, "text") {
        Some(text) => text,
        None => return None,
    };
    Some(Status { status_type, text })
}

/// Decodes the status under `key`, which must be there.
fn decode_required_status(object: &serde_json::Value, key: &str) -> (status: Option<Status>)
    ensures
        status_view(status) == required_status(json_model(*object), key@),
{
    match value_member(object, key) {
        Some(member) => decode_status(member),
        None => None,
    }
}

/// Decodes a user.
pub fn decode_user(value: &serde_json::Value) -> (user: Option<User>)
    ensures
        user_view(user) == user_of_json(json_model(*value)),
{
    let id = match required_u64(value, "id") {
        Some(id) => id,
        None => return None,
    };
    let username = match required_text(value, "username") {
        Some(username) => username,
        None => return None,
    };
    let display_name = match optional_text(value, "display_name") {
        Some(display_name) => display_name,
        None => return None,
    };
    let social_credit = match required_i32(value, "social_credit") {
        Some(social_credit) => social_credit,
        None => return None,
    };
    let status = match decode_required_status(value, "status") {
        Some(status) => status,
        None => return None,
    };
    let bio = match optional_text(value, "bio") {
        Some(bio) => bio,
        None => return None,
    };
    let avatar = match optional_u64(value, "avatar") {
        Some(avatar) => avatar,
        None => return None,
    };
    let banner = match optional_u64(value, "banner") {
        Some(banner) => banner,
        None => return None,
    };
    let badges = match required_u64(value, "badges") {
        Some(badges) => badges,
        None => return None,
    };
    let permissions = match required_u64(value, "permissions") {
        Some(permissions) => permissions,
        None => return None,
    };
    let email = match optional_text(value, "email") {
        Some(email) => email,
        None => return None,
    };
    let verified = match optional_bool(value, "verified") {
        Some(verified) => verified,
        None => return None,
    };
    Some(
        User {
            id,
            username,
            display_name,
            social_credit,
            status,
            bio,
            avatar,
            banner,
            badges,
            permissions,
            email,
            verified,
        },
    )
}

/// Decodes the user under `key`, which must be there.
fn decode_required_user(object: &serde_json::Value, key: &str) -> (user: Option<User>)
    ensures
        user_view(user) == required_user(json_model(*object), key@),
{
    match value_member(object, key) {
        Some(member) => decode_user(member),
        None => None,
    }
}

/// The views of optional users.
pub open spec fn optional_users_view(users: Option<Vec<User>>) -> Option<Seq<UserView>> {
    match users {
        Some(users) => Some(users_view(users@)),
        None => None,
    }
}

/// Decodes the users of an array: all of them, or none where one element
/// describes no user.
pub fn decode_users(elements: &Vec<serde_json::Value>) -> (users: Option<Vec<User>>)
    ensures
        optional_users_view(users) == users_of_json(models_of(elements@)),
{
    let ghost documents = models_of(elements@);
    let mut users: Vec<User> = Vec::new();
    let mut i: usize = 0;
    while i < elements.len()
        invariant
            i <= elements.len(),
            users.len() == i,
            documents == models_of(elements@),
            forall|k: int| 0 <= k < i ==> user_of_json(#[trigger] documents[k]) == Some(users@[k]@),
        decreases elements.len() - i,
    {
        match decode_user(&elements[i]) {
            Some(user) => {
                users.push(user);
            },
            None => {
                assert(user_of_json(documents[i as int]) is None);
                return None;
            },
        }
        i += 1;
    }
    assert(users_view(users@) =~= Seq::new(
        documents.len(),
        |i: int| user_of_json(documents[i]).unwrap(),
    ));
    Some(users)
}

/// Decodes the users of the array under `key`, which must be there.
fn decode_required_users(object: &serde_json::Value, key: &str) -> (users: Option<Vec<User>>)
    ensures
        optional_users_view(users) == required_users(json_model(*object), key@),
{
    match value_member(object, key) {
        Some(member) => match member.as_array() {
            Some(elements) => decode_users(elements),
            None => None,
        },
        None => None,
    }
}

/// Decodes a disguise.
pub fn decode_disguise(value: &serde_json::Value) -> (disguise: Option<MessageDisguise>)
    ensures
        disguise_view(disguise) == disguise_of_json(json_model(*value)),
{
    if !value.is_object() {
        return None;
    }
    let name = match optional_text(value, "name") {
        Some(name) => name,
        None => return None,
    };
    let avatar = match optional_text(value, "avatar") {
        Some(avatar) => avatar,
        None => return None,
    };
    Some(MessageDisguise { name, avatar })
}

/// Decodes a message.
pub fn decode_message(value: &serde_json::Value) -> (message: Option<Message>)
    ensures
        match message {
            Some(message) => message_of_json(json_model(*value)) == Some(message@),
            None => message_of_json(json_model(*value)) is None,
        },
{
    let author = match decode_required_user(value, "author") {
        Some(author) => author,
        None => return None,
    };
    let content = match required_text(value, "content") {
        Some(content) => content,
        None => return None,
    };
    let disguise = match present(value, "_disguise") {
        Some(member) => match decode_disguise(member) {
            Some(disguise) => Some(disguise),
            None => return None,
        },
        None => None,
    };
    Some(Message { author, content, disguise })
}

/// Decodes the payload of the operation `op` from its data.
fn decode_operation(op: &str, data: &serde_json::Value) -> (payload: Option<ServerPayload>)
    ensures
        payload_view(payload) == payload_of_operation(op@, json_model(*data)),
{
    if text_equals(op, "RATE_LIMIT") {
        match required_u64(data, "wait") {
            Some(wait) => Some(ServerPayload::RateLimit { wait }),
            None => None,
        }
    } else if text_equals(op, "HELLO") {
        match required_u64(data, "heartbeat_interval") {
            Some(heartbeat_interval) => Some(ServerPayload::Hello { heartbeat_interval }),
            None => None,
        }
    } else if text_equals(op, "AUTHENTICATED") {
        let user = match decode_required_user(data, "user") {
            Some(user) => user,
            None => return None,
        };
        let users = match decode_required_users(data, "users") {
            Some(users) => users,
            None => return None,
        };
        Some(ServerPayload::Authenticated { user, users })
    } else if text_equals(op, "USER_UPDATE") {
        match decode_user(data) {
            Some(user) => Some(ServerPayload::UserUpdate(user)),
            None => None,
        }
    } else if text_equals(op, "PRESENCE_UPDATE") {
        let user_id = match required_u64(data, "user_id") {
            Some(user_id) => user_id,
            None => return None,
        };
        let status = match decode_required_status(data, "status") {
            Some(status) => status,
            None => return None,
        };
        Some(ServerPayload::PresenceUpdate { user_id, status })
    } else if text_equals(op, "MESSAGE_CREATE") {
        match decode_message(data) {
            Some(message) => Some(ServerPayload::MessageCreate(message)),
            None => None,
        }
    } else {
        None
    }
}

/// Decodes the payload that a parsed frame describes.
pub fn decode_payload(value: &serde_json::Value) -> (payload: Option<ServerPayload>)
    ensures
        payload_view(payload) == payload_of_json(json_model(*value)),
{
    let op = match required_text(value, "op") {
        Some(op) => op,
        None => return None,
    };
    if text_equals(op.as_str(), "PONG") {
        return Some(ServerPayload::Pong);
    }
    match value_member(value, "d") {
        Some(data) => decode_operation(op.as_str(), data),
        None => None,
    }
}

/// Decodes the text of a frame. A frame that is not decodable gives `None`.
pub fn decode_frame(text: &str) -> (payload: Option<ServerPayload>)
    ensures
        payload_view(payload) == frame_payload(text@),
{
    match parse_value(text) {
        Some(value) => decode_payload(&value),
        None => None,
    }
}

/// Encodes a payload as the text of a frame.
pub fn encode_payload(payload: &ClientPayload) -> (frame: String)
    ensures
        frame@ == encoded(payload@),
{
    match payload {
        ClientPayload::Ping => "{\"op\":\"PING\"}".to_owned(),
        ClientPayload::Authenticate(token) => {
            let quoted = quote_text(token.as_str());
            let mut frame = "{\"op\":\"AUTHENTICATE\",\"d\":".to_owned();
            frame.append(quoted.as_str());
            frame.append("}");
            frame
        },
    }
}

} // verus!
