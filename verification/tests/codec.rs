use eludrs::codec::{
    decode_disguise, decode_frame, decode_message, decode_payload, decode_status, decode_user,
    decode_users, encode_payload, status_type_from_name,
};
use eludrs::json::{
    optional_bool, optional_text, optional_u64, present, required_i32, required_text, required_u64,
    text_equals,
};
use eludrs::models::{
    ClientPayload, Message, MessageDisguise, ServerPayload, Status, StatusType, User,
};

fn parse(text: &str) -> serde_json::Value {
    serde_json::from_str(text).unwrap()
}

fn user_json(id: u64, name: &str) -> String {
    format!(
        "{{\"id\":{},\"username\":\"{}\",\"social_credit\":0,\"status\":{{\"type\":\"ONLINE\"}},\"badges\":0,\"permissions\":0}}",
        id, name
    )
}

fn user(id: u64, name: &str) -> User {
    User {
        id,
        username: name.to_string(),
        display_name: None,
        social_credit: 0,
        status: Status { status_type: StatusType::Online, text: None },
        bio: None,
        avatar: None,
        banner: None,
        badges: 0,
        permissions: 0,
        email: None,
        verified: None,
    }
}

#[test]
fn decodes_pong() {
    assert_eq!(decode_frame("{\"op\":\"PONG\"}"), Some(ServerPayload::Pong));
    assert_eq!(decode_frame("{\"op\":\"PONG\",\"d\":null}"), Some(ServerPayload::Pong));
    assert_eq!(decode_frame(" { \"op\" : \"PONG\" } "), Some(ServerPayload::Pong));
}

#[test]
fn decodes_hello() {
    assert_eq!(
        decode_frame("{\"op\":\"HELLO\",\"d\":{\"heartbeat_interval\":30000}}"),
        Some(ServerPayload::Hello { heartbeat_interval: 30000 })
    );
    assert_eq!(
        decode_frame("{\"d\":{\"heartbeat_interval\":0},\"op\":\"HELLO\"}"),
        Some(ServerPayload::Hello { heartbeat_interval: 0 })
    );
    assert_eq!(
        decode_frame("{\"op\":\"HELLO\",\"d\":{\"heartbeat_interval\":18446744073709551615}}"),
        Some(ServerPayload::Hello { heartbeat_interval: u64::MAX })
    );
}

#[test]
fn decoding_ignores_members_it_does_not_read() {
    assert_eq!(
        decode_frame(
            "{\"op\":\"HELLO\",\"d\":{\"heartbeat_interval\":45000,\"instance_info\":{\"instance_name\":\"eludris\"},\"rate_limit\":{\"reset_after\":10,\"limit\":5}},\"extra\":[1,2]}"
        ),
        Some(ServerPayload::Hello { heartbeat_interval: 45000 })
    );
}

#[test]
fn decodes_rate_limit() {
    assert_eq!(
        decode_frame("{\"op\":\"RATE_LIMIT\",\"d\":{\"wait\":1234}}"),
        Some(ServerPayload::RateLimit { wait: 1234 })
    );
}

#[test]
fn decodes_user_update() {
    let text = "{\"op\":\"USER_UPDATE\",\"d\":{\"id\":48615849987333,\"username\":\"yendri\",\"display_name\":\"Nicolas\",\"social_credit\":-69420,\"status\":{\"type\":\"BUSY\",\"text\":\"ayúdame por favor\"},\"bio\":\"NICOLAAAAAAAAAAAAAAAAAAS!!!\",\"avatar\":2255112175647,\"banner\":2255049523230,\"badges\":3,\"permissions\":7,\"email\":\"yendri@llamoyendri.io\",\"verified\":true}}";
    assert_eq!(
        decode_frame(text),
        Some(ServerPayload::UserUpdate(User {
            id: 48615849987333,
            username: "yendri".to_string(),
            display_name: Some("Nicolas".to_string()),
            social_credit: -69420,
            status: Status {
                status_type: StatusType::Busy,
                text: Some("ayúdame por favor".to_string()),
            },
            bio: Some("NICOLAAAAAAAAAAAAAAAAAAS!!!".to_string()),
            avatar: Some(2255112175647),
            banner: Some(2255049523230),
            badges: 3,
            permissions: 7,
            email: Some("yendri@llamoyendri.io".to_string()),
            verified: Some(true),
        }))
    );
}

#[test]
fn decodes_presence_update() {
    assert_eq!(
        decode_frame(
            "{\"op\":\"PRESENCE_UPDATE\",\"d\":{\"user_id\":7,\"status\":{\"type\":\"IDLE\",\"text\":\"BURY THE LIGHT DEEP WITHIN\"}}}"
        ),
        Some(ServerPayload::PresenceUpdate {
            user_id: 7,
            status: Status {
                status_type: StatusType::Idle,
                text: Some("BURY THE LIGHT DEEP WITHIN".to_string()),
            },
        })
    );
}

#[test]
fn decodes_message_create() {
    let text = format!(
        "{{\"op\":\"MESSAGE_CREATE\",\"d\":{{\"author\":{},\"content\":\"Hello, \\\"World\\\"!\",\"_disguise\":{{\"name\":\"Jeff\",\"avatar\":null}}}}}}",
        user_json(3, "barbaz")
    );
    assert_eq!(
        decode_frame(&text),
        Some(ServerPayload::MessageCreate(Message {
            author: user(3, "barbaz"),
            content: "Hello, \"World\"!".to_string(),
            disguise: Some(MessageDisguise { name: Some("Jeff".to_string()), avatar: None }),
        }))
    );
    let plain = format!(
        "{{\"op\":\"MESSAGE_CREATE\",\"d\":{{\"author\":{},\"content\":\"hi\"}}}}",
        user_json(3, "barbaz")
    );
    assert_eq!(
        decode_frame(&plain),
        Some(ServerPayload::MessageCreate(Message {
            author: user(3, "barbaz"),
            content: "hi".to_string(),
            disguise: None,
        }))
    );
}

#[test]
fn decodes_authenticated() {
    let text = format!(
        "{{\"op\":\"AUTHENTICATED\",\"d\":{{\"user\":{},\"users\":[{},{}]}}}}",
        user_json(1, "me"),
        user_json(2, "foo"),
        user_json(3, "bar")
    );
    assert_eq!(
        decode_frame(&text),
        Some(ServerPayload::Authenticated {
            user: user(1, "me"),
            users: vec![user(2, "foo"), user(3, "bar")],
        })
    );
    let alone = format!(
        "{{\"op\":\"AUTHENTICATED\",\"d\":{{\"user\":{},\"users\":[]}}}}",
        user_json(1, "me")
    );
    assert_eq!(
        decode_frame(&alone),
        Some(ServerPayload::Authenticated { user: user(1, "me"), users: vec![] })
    );
}

#[test]
fn frames_that_are_no_json_are_not_decodable() {
    assert_eq!(decode_frame(""), None);
    assert_eq!(decode_frame("hello"), None);
    assert_eq!(decode_frame("{\"op\":\"PONG\""), None);
    assert_eq!(decode_frame("{\"op\":\"PONG\"} trailing"), None);
    assert_eq!(decode_frame("{op:PONG}"), None);
}

#[test]
fn frames_of_an_unknown_shape_are_not_decodable() {
    assert_eq!(decode_frame("null"), None);
    assert_eq!(decode_frame("42"), None);
    assert_eq!(decode_frame("\"PONG\""), None);
    assert_eq!(decode_frame("[\"PONG\"]"), None);
    assert_eq!(decode_frame("{}"), None);
    assert_eq!(decode_frame("{\"d\":{\"heartbeat_interval\":1}}"), None);
    assert_eq!(decode_frame("{\"op\":7}"), None);
    assert_eq!(decode_frame("{\"op\":\"pong\"}"), None);
    assert_eq!(decode_frame("{\"op\":\"DANCE\",\"d\":{}}"), None);
    assert_eq!(decode_frame("{\"op\":\"HELLO\"}"), None);
    assert_eq!(decode_frame("{\"op\":\"HELLO\",\"d\":null}"), None);
    assert_eq!(decode_frame("{\"op\":\"HELLO\",\"d\":{}}"), None);
    assert_eq!(decode_frame("{\"op\":\"HELLO\",\"d\":[30000]}"), None);
}

#[test]
fn fields_of_the_wrong_kind_are_not_decodable() {
    assert_eq!(decode_frame("{\"op\":\"HELLO\",\"d\":{\"heartbeat_interval\":\"30000\"}}"), None);
    assert_eq!(decode_frame("{\"op\":\"HELLO\",\"d\":{\"heartbeat_interval\":-1}}"), None);
    assert_eq!(decode_frame("{\"op\":\"HELLO\",\"d\":{\"heartbeat_interval\":1.5}}"), None);
    assert_eq!(decode_frame("{\"op\":\"HELLO\",\"d\":{\"heartbeat_interval\":null}}"), None);
    assert_eq!(
        decode_frame("{\"op\":\"HELLO\",\"d\":{\"heartbeat_interval\":18446744073709551616}}"),
        None
    );
    assert_eq!(decode_frame("{\"op\":\"RATE_LIMIT\",\"d\":{\"wait\":true}}"), None);
    assert_eq!(
        decode_frame("{\"op\":\"PRESENCE_UPDATE\",\"d\":{\"user_id\":7,\"status\":\"ONLINE\"}}"),
        None
    );
    assert_eq!(
        decode_frame(
            "{\"op\":\"PRESENCE_UPDATE\",\"d\":{\"user_id\":7,\"status\":{\"type\":\"ASLEEP\"}}}"
        ),
        None
    );
    assert_eq!(
        decode_frame("{\"op\":\"PRESENCE_UPDATE\",\"d\":{\"status\":{\"type\":\"ONLINE\"}}}"),
        None
    );
}

#[test]
fn one_bad_user_makes_the_frame_undecodable() {
    let text = format!(
        "{{\"op\":\"AUTHENTICATED\",\"d\":{{\"user\":{},\"users\":[{},{{\"id\":3}}]}}}}",
        user_json(1, "me"),
        user_json(2, "foo")
    );
    assert_eq!(decode_frame(&text), None);
    let no_array = format!(
        "{{\"op\":\"AUTHENTICATED\",\"d\":{{\"user\":{},\"users\":{}}}}}",
        user_json(1, "me"),
        user_json(2, "foo")
    );
    assert_eq!(decode_frame(&no_array), None);
    let no_users = format!(
        "{{\"op\":\"AUTHENTICATED\",\"d\":{{\"user\":{}}}}}",
        user_json(1, "me")
    );
    assert_eq!(decode_frame(&no_users), None);
}

#[test]
fn decode_payload_reads_a_parsed_frame() {
    assert_eq!(decode_payload(&parse("{\"op\":\"PONG\"}")), Some(ServerPayload::Pong));
    assert_eq!(
        decode_payload(&parse("{\"op\":\"RATE_LIMIT\",\"d\":{\"wait\":5}}")),
        Some(ServerPayload::RateLimit { wait: 5 })
    );
    assert_eq!(decode_payload(&parse("[1,2,3]")), None);
}

#[test]
fn decode_status_reads_type_and_text() {
    assert_eq!(
        decode_status(&parse("{\"type\":\"OFFLINE\"}")),
        Some(Status { status_type: StatusType::Offline, text: None })
    );
    assert_eq!(
        decode_status(&parse("{\"type\":\"ONLINE\",\"text\":null}")),
        Some(Status { status_type: StatusType::Online, text: None })
    );
    assert_eq!(
        decode_status(&parse("{\"type\":\"ONLINE\",\"text\":\"here\"}")),
        Some(Status { status_type: StatusType::Online, text: Some("here".to_string()) })
    );
    assert_eq!(decode_status(&parse("{\"type\":\"ONLINE\",\"text\":5}")), None);
    assert_eq!(decode_status(&parse("{\"text\":\"here\"}")), None);
    assert_eq!(decode_status(&parse("{\"type\":null}")), None);
    assert_eq!(decode_status(&parse("\"ONLINE\"")), None);
}

#[test]
fn status_type_names_are_upper_case() {
    assert_eq!(status_type_from_name("ONLINE"), Some(StatusType::Online));
    assert_eq!(status_type_from_name("OFFLINE"), Some(StatusType::Offline));
    assert_eq!(status_type_from_name("IDLE"), Some(StatusType::Idle));
    assert_eq!(status_type_from_name("BUSY"), Some(StatusType::Busy));
    assert_eq!(status_type_from_name("online"), None);
    assert_eq!(status_type_from_name("Online"), None);
    assert_eq!(status_type_from_name(""), None);
    assert_eq!(status_type_from_name("ONLINE "), None);
}

#[test]
fn decode_user_requires_its_fields() {
    assert_eq!(decode_user(&parse(&user_json(9, "nine"))), Some(user(9, "nine")));
    for missing in ["id", "username", "social_credit", "status", "badges", "permissions"] {
        let mut value = parse(&user_json(9, "nine"));
        value.as_object_mut().unwrap().remove(missing);
        assert_eq!(decode_user(&value), None);
    }
}

#[test]
fn decode_user_takes_null_for_a_missing_optional_field() {
    let text = "{\"id\":9,\"username\":\"nine\",\"display_name\":null,\"social_credit\":0,\"status\":{\"type\":\"ONLINE\"},\"bio\":null,\"avatar\":null,\"banner\":null,\"badges\":0,\"permissions\":0,\"email\":null,\"verified\":null}";
    assert_eq!(decode_user(&parse(text)), Some(user(9, "nine")));
}

#[test]
fn decode_user_rejects_optional_fields_of_the_wrong_kind() {
    for (key, wrong) in [
        ("display_name", "5"),
        ("bio", "false"),
        ("avatar", "\"1\""),
        ("banner", "-1"),
        ("email", "[]"),
        ("verified", "\"yes\""),
    ] {
        let mut value = parse(&user_json(9, "nine"));
        value.as_object_mut().unwrap().insert(key.to_string(), parse(wrong));
        assert_eq!(decode_user(&value), None);
    }
}

#[test]
fn social_credit_must_fit_thirty_two_bits() {
    let with = |credit: &str| {
        let mut value = parse(&user_json(9, "nine"));
        value.as_object_mut().unwrap().insert("social_credit".to_string(), parse(credit));
        decode_user(&value).map(|user| user.social_credit)
    };
    assert_eq!(with("2147483647"), Some(i32::MAX));
    assert_eq!(with("-2147483648"), Some(i32::MIN));
    assert_eq!(with("-1"), Some(-1));
    assert_eq!(with("2147483648"), None);
    assert_eq!(with("-2147483649"), None);
    assert_eq!(with("9223372036854775808"), None);
    assert_eq!(with("1.0"), None);
    assert_eq!(with("\"1\""), None);
}

#[test]
fn decode_users_keeps_the_order() {
    let value = parse(&format!("[{},{},{}]", user_json(3, "c"), user_json(1, "a"), user_json(3, "d")));
    assert_eq!(
        decode_users(value.as_array().unwrap()),
        Some(vec![user(3, "c"), user(1, "a"), user(3, "d")])
    );
    assert_eq!(decode_users(&Vec::new()), Some(vec![]));
    let bad = parse(&format!("[{},7]", user_json(3, "c")));
    assert_eq!(decode_users(bad.as_array().unwrap()), None);
}

#[test]
fn a_disguise_must_be_an_object() {
    assert_eq!(decode_disguise(&parse("{}")), Some(MessageDisguise { name: None, avatar: None }));
    assert_eq!(
        decode_disguise(&parse("{\"name\":\"a\",\"avatar\":\"b\"}")),
        Some(MessageDisguise { name: Some("a".to_string()), avatar: Some("b".to_string()) })
    );
    assert_eq!(decode_disguise(&parse("5")), None);
    assert_eq!(decode_disguise(&parse("[]")), None);
    assert_eq!(decode_disguise(&parse("\"Jeff\"")), None);
    assert_eq!(decode_disguise(&parse("{\"name\":5}")), None);
}

#[test]
fn decode_message_requires_author_and_content() {
    let author = user_json(3, "barbaz");
    assert_eq!(
        decode_message(&parse(&format!("{{\"author\":{},\"content\":\"\"}}", author))),
        Some(Message { author: user(3, "barbaz"), content: String::new(), disguise: None })
    );
    assert_eq!(
        decode_message(&parse(&format!(
            "{{\"author\":{},\"content\":\"x\",\"_disguise\":null}}",
            author
        ))),
        Some(Message { author: user(3, "barbaz"), content: "x".to_string(), disguise: None })
    );
    assert_eq!(decode_message(&parse(&format!("{{\"author\":{}}}", author))), None);
    assert_eq!(decode_message(&parse("{\"content\":\"x\"}")), None);
    assert_eq!(
        decode_message(&parse(&format!(
            "{{\"author\":{},\"content\":\"x\",\"_disguise\":7}}",
            author
        ))),
        None
    );
}

#[test]
fn field_readers_tell_missing_from_wrong() {
    let value = parse("{\"n\":5,\"s\":\"five\",\"b\":true,\"z\":null,\"neg\":-5}");
    assert_eq!(required_u64(&value, "n"), Some(5));
    assert_eq!(required_u64(&value, "s"), None);
    assert_eq!(required_u64(&value, "neg"), None);
    assert_eq!(required_u64(&value, "missing"), None);
    assert_eq!(required_i32(&value, "neg"), Some(-5));
    assert_eq!(required_i32(&value, "z"), None);
    assert_eq!(required_text(&value, "s"), Some("five".to_string()));
    assert_eq!(required_text(&value, "n"), None);
    assert_eq!(optional_u64(&value, "n"), Some(Some(5)));
    assert_eq!(optional_u64(&value, "z"), Some(None));
    assert_eq!(optional_u64(&value, "missing"), Some(None));
    assert_eq!(optional_u64(&value, "s"), None);
    assert_eq!(optional_text(&value, "s"), Some(Some("five".to_string())));
    assert_eq!(optional_text(&value, "z"), Some(None));
    assert_eq!(optional_text(&value, "b"), None);
    assert_eq!(optional_bool(&value, "b"), Some(Some(true)));
    assert_eq!(optional_bool(&value, "missing"), Some(None));
    assert_eq!(optional_bool(&value, "n"), None);
    assert_eq!(present(&value, "z"), None);
    assert_eq!(present(&value, "missing"), None);
    assert_eq!(present(&value, "n"), Some(&parse("5")));
    assert_eq!(required_u64(&parse("[5]"), "n"), None);
}

#[test]
fn text_equals_compares_characters() {
    assert!(text_equals("PONG", "PONG"));
    assert!(text_equals("", ""));
    assert!(!text_equals("PONG", "PONG "));
    assert!(!text_equals("PONG", "pong"));
    assert!(!text_equals("é", "e"));
}

#[test]
fn encodes_ping() {
    assert_eq!(encode_payload(&ClientPayload::Ping), "{\"op\":\"PING\"}");
}

#[test]
fn encodes_authenticate() {
    assert_eq!(
        encode_payload(&ClientPayload::Authenticate("token".to_string())),
        "{\"op\":\"AUTHENTICATE\",\"d\":\"token\"}"
    );
    assert_eq!(
        encode_payload(&ClientPayload::Authenticate(String::new())),
        "{\"op\":\"AUTHENTICATE\",\"d\":\"\"}"
    );
}

#[test]
fn encoding_escapes_the_token() {
    assert_eq!(
        encode_payload(&ClientPayload::Authenticate("a\"b\\c\nd\u{1}é".to_string())),
        "{\"op\":\"AUTHENTICATE\",\"d\":\"a\\\"b\\\\c\\nd\\u0001é\"}"
    );
}

#[test]
fn an_encoded_frame_is_json_with_op_and_data() {
    let token = "Zm9v.\"bar\"\t\\";
    let frame = encode_payload(&ClientPayload::Authenticate(token.to_string()));
    let value = parse(&frame);
    assert_eq!(value.get("op").and_then(|op| op.as_str()), Some("AUTHENTICATE"));
    assert_eq!(value.get("d").and_then(|d| d.as_str()), Some(token));
    assert_eq!(value.as_object().unwrap().len(), 2);
    let ping = parse(&encode_payload(&ClientPayload::Ping));
    assert_eq!(ping.get("op").and_then(|op| op.as_str()), Some("PING"));
    assert_eq!(ping.as_object().unwrap().len(), 1);
}
