use rcp_client::protocol::codec::{
    decode, encode, encode_checked, frame_body, frame_serialized, message_from_json, message_to_json,
};
use rcp_client::protocol::json::same_document;
use rcp_client::protocol::{Message, MessageId, MessageType, ProtocolError};
use serde_json::Value;

fn sample_id() -> MessageId {
    MessageId::from_u128(0xa1a2a3a4b1b2c1c2d1d2d3d4d5d6d7d8)
}

fn object(members: Vec<(&str, Value)>) -> Value {
    let mut map = serde_json::Map::new();
    for (key, value) in members {
        map.insert(key.to_string(), value);
    }
    Value::Object(map)
}

fn assert_same(a: &Message, b: &Message) {
    assert_eq!(a.id, b.id);
    assert_eq!(a.message_type, b.message_type);
    assert_eq!(a.timestamp, b.timestamp);
    assert_eq!(a.payload, b.payload);
}

fn round_trip(message: &Message) -> Message {
    let framed = encode(message).expect("encodes");
    let declared = u32::from_be_bytes([framed[0], framed[1], framed[2], framed[3]]) as usize;
    assert_eq!(declared, framed.len() - 4);
    decode(&framed[4..]).expect("decodes")
}

#[test]
fn encode_writes_length_prefix_and_json_body() {
    let message = Message {
        id: sample_id(),
        message_type: MessageType::Ping,
        timestamp: 1_700_000_000,
        payload: object(vec![]),
    };
    let framed = encode(&message).unwrap();
    let body = br#"{"id":"a1a2a3a4-b1b2-c1c2-d1d2-d3d4d5d6d7d8","payload":{},"timestamp":1700000000,"type":"ping"}"#;
    assert_eq!(body.len(), 95);
    assert_eq!(&framed[..4], &[0, 0, 0, 95]);
    assert_eq!(&framed[4..], &body[..]);
}

#[test]
fn frame_body_prefix_is_big_endian() {
    let body = vec![7u8; 0x0102_03];
    let framed = frame_body(body.clone()).unwrap();
    assert_eq!(&framed[..4], &[0x00, 0x01, 0x02, 0x03]);
    assert_eq!(&framed[4..], &body[..]);
}

#[test]
fn frame_body_of_nothing_is_four_zero_bytes() {
    assert_eq!(frame_body(Vec::new()).unwrap(), vec![0, 0, 0, 0]);
}

#[test]
fn frame_serialized_reports_serializer_failure_as_malformed() {
    let r = frame_serialized(Err("key must be a string".to_string()));
    assert_eq!(r, Err(ProtocolError::MalformedPayload("key must be a string".to_string())));
}

#[test]
fn frame_serialized_frames_the_text() {
    let r = frame_serialized(Ok(b"{}".to_vec()));
    assert_eq!(r, Ok(vec![0, 0, 0, 2, b'{', b'}']));
}

#[test]
fn round_trip_auth() {
    let m = Message::auth("alice", &[1, 2, 255], "native");
    assert_same(&round_trip(&m), &m);
}

#[test]
fn round_trip_command_with_nested_params() {
    let params = object(vec![
        ("path", Value::from("/tmp/x")),
        ("flags", Value::Array(vec![Value::from(1u64), Value::from(-2i64), Value::Null, Value::from(true)])),
        ("inner", object(vec![("text", Value::from("quote \" backslash \\ newline \n snow \u{2603}"))])),
    ]);
    let m = Message::command("run", params);
    assert_same(&round_trip(&m), &m);
}

#[test]
fn round_trip_response_error_ping_pong() {
    for m in [
        Message::response(sample_id(), true, object(vec![("n", Value::from(u64::MAX))])),
        Message::error(Some(sample_id()), 404, "not found"),
        Message::error(None, 500, "broken"),
        Message::ping(),
        Message::pong(sample_id()),
    ] {
        assert_same(&round_trip(&m), &m);
    }
}

#[test]
fn round_trip_every_message_type() {
    for kind in [
        MessageType::Auth,
        MessageType::Command,
        MessageType::Response,
        MessageType::Event,
        MessageType::Error,
        MessageType::Ping,
        MessageType::Pong,
    ] {
        let m = Message { id: MessageId::from_u128(0), message_type: kind, timestamp: u64::MAX, payload: Value::Null };
        assert_same(&round_trip(&m), &m);
    }
}

#[test]
fn envelope_has_the_four_members() {
    let m = Message { id: sample_id(), message_type: MessageType::Event, timestamp: 12, payload: Value::from("p") };
    let document = message_to_json(&m);
    let expected = object(vec![
        ("id", Value::from("a1a2a3a4-b1b2-c1c2-d1d2-d3d4d5d6d7d8")),
        ("type", Value::from("event")),
        ("timestamp", Value::from(12u64)),
        ("payload", Value::from("p")),
    ]);
    assert_eq!(document, expected);
    assert_same(&message_from_json(&document).unwrap(), &m);
}

#[test]
fn decode_accepts_members_in_any_order_and_ignores_others() {
    let body = br#"{"type":"command","extra":[1,2],"payload":{"command":"ls","params":null},"timestamp":5,"id":"A1A2A3A4B1B2C1C2D1D2D3D4D5D6D7D8"}"#;
    let m = decode(body).unwrap();
    assert_eq!(m.id, sample_id());
    assert_eq!(m.message_type, MessageType::Command);
    assert_eq!(m.timestamp, 5);
    assert_eq!(m.payload, object(vec![("command", Value::from("ls")), ("params", Value::Null)]));
}

#[test]
fn decode_rejects_text_that_is_not_json() {
    for body in [&b""[..], b"{", b"not json", b"{\"id\":}", b"{} trailing", &[0xff, 0xfe]] {
        assert!(matches!(decode(body), Err(ProtocolError::MalformedPayload(_))), "{:?}", body);
    }
}

#[test]
fn decode_names_the_defect_of_a_document() {
    let cases: Vec<(&[u8], &str)> = vec![
        (b"[]", "missing or invalid field `id`"),
        (b"null", "missing or invalid field `id`"),
        (br#"{"type":"ping","timestamp":1,"payload":{}}"#, "missing or invalid field `id`"),
        (br#"{"id":7,"type":"ping","timestamp":1,"payload":{}}"#, "missing or invalid field `id`"),
        (br#"{"id":"not-a-uuid","type":"ping","timestamp":1,"payload":{}}"#, "missing or invalid field `id`"),
        (br#"{"id":"a1a2a3a4-b1b2-c1c2-d1d2-d3d4d5d6d7d8","timestamp":1,"payload":{}}"#, "missing or invalid field `type`"),
        (br#"{"id":"a1a2a3a4-b1b2-c1c2-d1d2-d3d4d5d6d7d8","type":"Ping","timestamp":1,"payload":{}}"#, "missing or invalid field `type`"),
        (br#"{"id":"a1a2a3a4-b1b2-c1c2-d1d2-d3d4d5d6d7d8","type":"shout","timestamp":1,"payload":{}}"#, "missing or invalid field `type`"),
        (br#"{"id":"a1a2a3a4-b1b2-c1c2-d1d2-d3d4d5d6d7d8","type":"ping","payload":{}}"#, "missing or invalid field `timestamp`"),
        (br#"{"id":"a1a2a3a4-b1b2-c1c2-d1d2-d3d4d5d6d7d8","type":"ping","timestamp":-1,"payload":{}}"#, "missing or invalid field `timestamp`"),
        (br#"{"id":"a1a2a3a4-b1b2-c1c2-d1d2-d3d4d5d6d7d8","type":"ping","timestamp":1.5,"payload":{}}"#, "missing or invalid field `timestamp`"),
        (br#"{"id":"a1a2a3a4-b1b2-c1c2-d1d2-d3d4d5d6d7d8","type":"ping","timestamp":"1","payload":{}}"#, "missing or invalid field `timestamp`"),
        (br#"{"id":"a1a2a3a4-b1b2-c1c2-d1d2-d3d4d5d6d7d8","type":"ping","timestamp":1}"#, "missing field `payload`"),
    ];
    for (body, defect) in cases {
        assert_eq!(
            decode(body).map(|m| m.id),
            Err(ProtocolError::MalformedPayload(defect.to_string())),
            "{}",
            String::from_utf8_lossy(body)
        );
    }
}

#[test]
fn decode_keeps_a_null_payload() {
    let body = br#"{"id":"a1a2a3a4-b1b2-c1c2-d1d2-d3d4d5d6d7d8","type":"ping","timestamp":0,"payload":null}"#;
    assert_eq!(decode(body).unwrap().payload, Value::Null);
}

#[test]
fn message_new_stamps_a_fresh_id_and_the_time() {
    let a = Message::new(MessageType::Event, Value::from(1u64));
    let b = Message::new(MessageType::Event, Value::from(1u64));
    assert_ne!(a.id, b.id);
    assert_eq!(a.id.as_u128() >> 76 & 0xf, 4);
    assert_eq!(a.id.as_u128() >> 62 & 0x3, 2);
    assert!(a.timestamp > 1_600_000_000);
    assert_eq!(a.payload, Value::from(1u64));
    assert_eq!(a.message_type, MessageType::Event);
}

#[test]
fn constructors_shape_their_payloads() {
    let auth = Message::auth("alice", &[0, 7, 255], "password");
    assert_eq!(auth.message_type, MessageType::Auth);
    assert_eq!(
        auth.payload,
        object(vec![
            ("username", Value::from("alice")),
            ("credentials", Value::Array(vec![Value::from(0u64), Value::from(7u64), Value::from(255u64)])),
            ("method", Value::from("password")),
        ])
    );
    let command = Message::command("ls", Value::from(3u64));
    assert_eq!(command.message_type, MessageType::Command);
    assert_eq!(command.payload, object(vec![("command", Value::from("ls")), ("params", Value::from(3u64))]));
    let response = Message::response(sample_id(), false, Value::Null);
    assert_eq!(response.message_type, MessageType::Response);
    assert_eq!(
        response.payload,
        object(vec![
            ("request_id", Value::from("a1a2a3a4-b1b2-c1c2-d1d2-d3d4d5d6d7d8")),
            ("success", Value::from(false)),
            ("data", Value::Null),
        ])
    );
    let error = Message::error(None, 42, "boom");
    assert_eq!(error.message_type, MessageType::Error);
    assert_eq!(
        error.payload,
        object(vec![("request_id", Value::Null), ("code", Value::from(42u64)), ("message", Value::from("boom"))])
    );
    let error = Message::error(Some(sample_id()), 1, "");
    assert_eq!(error.payload.get("request_id"), Some(&Value::from("a1a2a3a4-b1b2-c1c2-d1d2-d3d4d5d6d7d8")));
    let ping = Message::ping();
    assert_eq!(ping.message_type, MessageType::Ping);
    assert_eq!(ping.payload, object(vec![]));
    let pong = Message::pong(sample_id());
    assert_eq!(pong.message_type, MessageType::Pong);
    assert_eq!(pong.payload, object(vec![("ping_id", Value::from("a1a2a3a4-b1b2-c1c2-d1d2-d3d4d5d6d7d8"))]));
}

#[test]
fn message_type_tokens() {
    let all = [
        (MessageType::Auth, "auth"),
        (MessageType::Command, "command"),
        (MessageType::Response, "response"),
        (MessageType::Event, "event"),
        (MessageType::Error, "error"),
        (MessageType::Ping, "ping"),
        (MessageType::Pong, "pong"),
    ];
    for (kind, token) in all {
        assert_eq!(kind.to_string(), token);
        assert_eq!(kind.as_str(), token);
        assert_eq!(MessageType::from_token(token), Some(kind));
    }
    assert_eq!(MessageType::from_token("AUTH"), None);
    assert_eq!(MessageType::from_token(""), None);
    assert_eq!(MessageType::from_token("pong "), None);
}

#[test]
fn message_id_text_round_trip() {
    let id = sample_id();
    assert_eq!(id.to_string(), "a1a2a3a4-b1b2-c1c2-d1d2-d3d4d5d6d7d8");
    assert_eq!(MessageId::parse_str(&id.to_string()), Some(id));
    assert_eq!(MessageId::parse_str("{a1a2a3a4-b1b2-c1c2-d1d2-d3d4d5d6d7d8}"), Some(id));
    assert_eq!(MessageId::parse_str("urn:uuid:a1a2a3a4-b1b2-c1c2-d1d2-d3d4d5d6d7d8"), Some(id));
    assert_eq!(MessageId::parse_str("a1a2a3a4b1b2c1c2d1d2d3d4d5d6d7d8"), Some(id));
    assert_eq!(MessageId::parse_str("a1a2a3a4-b1b2-c1c2-d1d2-d3d4d5d6d7d"), None);
    assert_eq!(MessageId::parse_str(""), None);
    assert_eq!(MessageId::from_u128(0).to_string(), "00000000-0000-0000-0000-000000000000");
    assert_eq!(MessageId::from_u128(u128::MAX).as_u128(), u128::MAX);
    let random = MessageId::random();
    assert_eq!(MessageId::parse_str(&random.to_string()), Some(random));
}

#[test]
fn protocol_error_messages() {
    assert_eq!(ProtocolError::MalformedPayload("x".into()).to_string(), "Malformed message payload: x");
    assert_eq!(ProtocolError::Transport("x".into()).to_string(), "Transport error: x");
    assert_eq!(ProtocolError::AuthenticationFailed("x".into()).to_string(), "Authentication failed: x");
    assert_eq!(ProtocolError::ServerError("x".into()).to_string(), "Server error: x");
    assert_eq!(ProtocolError::ChannelClosed.to_string(), "Channel closed");
    assert_eq!(ProtocolError::Timeout.to_string(), "Operation timed out");
    assert_eq!(ProtocolError::Other("x".into()).to_string(), "Protocol error: x");
}

#[test]
fn nil_ping_has_an_86_byte_body() {
    let message = Message::stamped(MessageId::from_u128(0), 0, MessageType::Ping, object(vec![]));
    let framed = encode(&message).unwrap();
    let body = br#"{"id":"00000000-0000-0000-0000-000000000000","payload":{},"timestamp":0,"type":"ping"}"#;
    assert_eq!(body.len(), 86);
    assert_eq!(&framed[..4], &[0, 0, 0, 86]);
    assert_eq!(&framed[4..], &body[..]);
    assert_eq!(encode_checked(&message).unwrap(), framed);
}

#[test]
fn stamped_fixes_every_field() {
    let m = Message::stamped(sample_id(), 1_700_000_000, MessageType::Command, Value::from("p"));
    assert_eq!(m.id, sample_id());
    assert_eq!(m.timestamp, 1_700_000_000);
    assert_eq!(m.message_type, MessageType::Command);
    assert_eq!(m.payload, Value::from("p"));
}

#[test]
fn encode_checked_gives_the_frame_that_decodes_to_the_message() {
    let params = object(vec![
        ("n", Value::from(-7i64)),
        ("zero", Value::from(-0.0f64)),
        ("half", Value::from(0.5f64)),
        ("list", Value::Array(vec![Value::Null, Value::from(true), Value::from("x")])),
    ]);
    let m = Message::command("run", params);
    let framed = encode_checked(&m).unwrap();
    assert_eq!(framed, encode(&m).unwrap());
    assert_same(&decode(&framed[4..]).unwrap(), &m);
}

#[test]
fn encode_checked_refuses_a_payload_nested_too_deep_to_read_back() {
    let mut payload = Value::Null;
    for _ in 0..200 {
        payload = Value::Array(vec![payload]);
    }
    let m = Message::command("deep", payload);
    // The text is written, but the reader gives up on it.
    let framed = encode(&m).unwrap();
    assert!(matches!(decode(&framed[4..]), Err(ProtocolError::MalformedPayload(_))));
    assert_eq!(
        encode_checked(&m),
        Err(ProtocolError::MalformedPayload("message does not read back from its text".to_string()))
    );
}

#[test]
fn same_document_tells_documents_apart() {
    let a = object(vec![("k", Value::Array(vec![Value::from(1u64), Value::from("x")]))]);
    let b = object(vec![("k", Value::Array(vec![Value::from(1u64), Value::from("x")]))]);
    assert!(same_document(&a, &b));
    assert!(same_document(&Value::Null, &Value::Null));
    assert!(!same_document(&a, &object(vec![("k", Value::Array(vec![Value::from(1u64)]))])));
    assert!(!same_document(&Value::from(1u64), &Value::from(1.0f64)));
    assert!(!same_document(&Value::from(1u64), &Value::from("1")));
    // A zero is told from a negative zero, which compare as equal numbers.
    assert_eq!(Value::from(0.0f64), Value::from(-0.0f64));
    assert!(!same_document(&Value::from(0.0f64), &Value::from(-0.0f64)));
    assert!(same_document(&Value::from(-0.0f64), &Value::from(-0.0f64)));
}
