//! Messages and the shape of their payloads.

use crate::clock::Timestamp;
use crate::protocol::id::{id_reads_back, is_random_uuid, uuid_text, MessageId};
use crate::protocol::json::{
    json_of, object_insert, value_array, value_bool, value_null, value_object, value_text,
    value_u64, Json,
};
use crate::protocol::error::ProtocolErrorView;
use crate::protocol::response_handler::{lemma_response_is_read_back, response_outcome};
use vstd::prelude::*;
use vstd::string::*;

verus! {

/// The kinds of message the protocol exchanges.
#[derive(Debug, Clone, Copy, PartialEq, Eq, Structural)]
pub enum MessageType {
    /// Credentials offered to the server.
    Auth,
    /// A request to the server.
    Command,
    /// The answer to a request.
    Response,
    /// Something the server reports unasked.
    Event,
    /// A failure, possibly of a request.
    Error,
    /// A heartbeat.
    Ping,
    /// The answer to a heartbeat.
    Pong,
}

impl MessageType {
    /// The lower-case token that stands for the kind on the wire.
    pub open spec fn token(self) -> Seq<char> {
        match self {
            MessageType::Auth => "auth"@,
            MessageType::Command => "command"@,
            MessageType::Response => "response"@,
            MessageType::Event => "event"@,
            MessageType::Error => "error"@,
            MessageType::Ping => "ping"@,
            MessageType::Pong => "pong"@,
        }
    }

    /// The kind that a token stands for; `None` for any other text.
    pub open spec fn of_token(token: Seq<char>) -> Option<MessageType> {
        if token == "auth"@ {
            Some(MessageType::Auth)
        } else if token == "command"@ {
            Some(MessageType::Command)
        } else if token == "response"@ {
            Some(MessageType::Response)
        } else if token == "event"@ {
            Some(MessageType::Event)
        } else if token == "error"@ {
            Some(MessageType::Error)
        } else if token == "ping"@ {
            Some(MessageType::Ping)
        } else if token == "pong"@ {
            Some(MessageType::Pong)
        } else {
            None
        }
    }

    /// Every kind is found again from its token.
    pub proof fn lemma_token_round_trip(kind: MessageType)
        ensures
            MessageType::of_token(kind.token()) == Some(kind),
    {
        reveal_strlit("auth");
        reveal_strlit("command");
        reveal_strlit("response");
        reveal_strlit("event");
        reveal_strlit("error");
        reveal_strlit("ping");
        reveal_strlit("pong");
        assert("auth"@.len() == 4);
        assert("command"@.len() == 7);
        assert("response"@.len() == 8);
        assert("event"@.len() == 5);
        assert("error"@.len() == 5);
        assert("ping"@.len() == 4);
        assert("pong"@.len() == 4);
        assert("event"@[1] == 'v');
        assert("error"@[1] == 'r');
        assert("auth"@[0] == 'a');
        assert("ping"@[0] == 'p');
        assert("pong"@[0] == 'p');
        assert("ping"@[1] == 'i');
        assert("pong"@[1] == 'o');
    }

    /// The token of the kind as a string slice.
    pub fn as_str(&self) -> (r: &'static str)
        ensures
            r@ == self.token(),
    {
        match self {
            MessageType::Auth => "auth",
            MessageType::Command => "command",
            MessageType::Response => "response",
            MessageType::Event => "event",
            MessageType::Error => "error",
            MessageType::Ping => "ping",
            MessageType::Pong => "pong",
        }
    }

    /// The token of the kind.
    pub fn to_string(&self) -> (r: String)
        ensures
            r@ == self.token(),
    {
        String::from_str(self.as_str())
    }

    /// Reads a kind from its token; any other text gives `None`.
    pub fn from_token(token: &str) -> (r: Option<MessageType>)
        ensures
            r == MessageType::of_token(token@),
    {
        let text = String::from_str(token);
        if text == String::from_str("auth") {
            Some(MessageType::Auth)
        } else if text == String::from_str("command") {
            Some(MessageType::Command)
        } else if text == String::from_str("response") {
            Some(MessageType::Response)
        } else if text == String::from_str("event") {
            Some(MessageType::Event)
        } else if text == String::from_str("error") {
            Some(MessageType::Error)
        } else if text == String::from_str("ping") {
            Some(MessageType::Ping)
        } else if text == String::from_str("pong") {
            Some(MessageType::Pong)
        } else {
            None
        }
    }
}

/// The unit of exchange between client and server.
#[derive(Debug, Clone)]
pub struct Message {
    /// Identifies the message; replies refer to it.
    pub id: MessageId,
    /// The kind of message, which fixes the shape of the payload.
    pub message_type: MessageType,
    /// Seconds since the Unix epoch when the message was made.
    pub timestamp: u64,
    /// The document the message carries.
    pub payload: serde_json::Value,
}

/// The mathematical reading of a [`Message`].
pub struct MessageView {
    pub id: u128,
    pub message_type: MessageType,
    pub timestamp: u64,
    pub payload: Json,
}

impl View for Message {
    type V = MessageView;

    open spec fn view(&self) -> MessageView {
        MessageView {
            id: self.id@,
            message_type: self.message_type,
            timestamp: self.timestamp,
            payload: json_of(self.payload),
        }
    }
}

/// The payload of an authentication message.
pub open spec fn auth_payload(username: Seq<char>, credentials: Seq<u8>, method: Seq<char>) -> Json {
    Json::empty_object().with("username"@, Json::Text(username)).with(
        "credentials"@,
        Json::byte_array(credentials),
    ).with("method"@, Json::Text(method))
}

/// The payload of a command.
pub open spec fn command_payload(command: Seq<char>, params: Json) -> Json {
    Json::empty_object().with("command"@, Json::Text(command)).with("params"@, params)
}

/// The payload of a response to the request `request_id`.
pub open spec fn response_payload(request_id: u128, success: bool, data: Json) -> Json {
    Json::empty_object().with("request_id"@, Json::Text(uuid_text(request_id))).with(
        "success"@,
        Json::Bool(success),
    ).with("data"@, data)
}

/// The payload of an error, which may name the request that failed.
pub open spec fn error_payload(request_id: Option<u128>, code: u32, message: Seq<char>) -> Json {
    Json::empty_object().with(
        "request_id"@,
        match request_id {
            Some(id) => Json::Text(uuid_text(id)),
            None => Json::Null,
        },
    ).with("code"@, Json::Integer(code as int)).with("message"@, Json::Text(message))
}

/// The payload of the answer to the heartbeat `ping_id`.
pub open spec fn pong_payload(ping_id: u128) -> Json {
    Json::empty_object().with("ping_id"@, Json::Text(uuid_text(ping_id)))
}

/// The JSON array of the given bytes, each as a number.
pub(crate) fn byte_values(bytes: &[u8]) -> (r: serde_json::Value)
    ensures
        json_of(r) == Json::byte_array(bytes@),
{
    let mut items: Vec<serde_json::Value> = Vec::new();
    let mut i: usize = 0;
    while i < bytes.len()
        invariant
            i <= bytes.len(),
            items@.len() == i,
            forall|k: int| 0 <= k < i ==> json_of(#[trigger] items@[k]) == Json::Integer(bytes@[k] as int),
        decreases bytes.len() - i,
    {
        items.push(value_u64(bytes[i] as u64));
        i += 1;
    }
    let r = value_array(items);
    assert(Seq::new(items@.len(), |k: int| json_of(items@[k])) =~= Seq::new(
        bytes@.len(),
        |k: int| Json::Integer(bytes@[k] as int),
    ));
    r
}

impl Message {
    /// The message with the given identifier, made at `timestamp` seconds
    /// since the Unix epoch, of the given kind and payload.
    pub fn stamped(
        id: MessageId,
        timestamp: u64,
        message_type: MessageType,
        payload: serde_json::Value,
    ) -> (r: Message)
        ensures
            r@ == (MessageView {
                id: id@,
                message_type,
                timestamp,
                payload: json_of(payload),
            }),
    {
        Message { id, message_type, timestamp, payload }
    }

    /// A message of the given kind and payload, with a fresh random
    /// identifier and the seconds the clock reads now, as
    /// [`Message::stamped`] makes it from the two.
    pub fn new(message_type: MessageType, payload: serde_json::Value) -> (r: Message)
        ensures
            r@.message_type == message_type,
            r@.payload == json_of(payload),
            is_random_uuid(r@.id),
    {
        Message::stamped(MessageId::random(), Timestamp::now().secs, message_type, payload)
    }

    /// An authentication message offering `credentials` for `username`.
    pub fn auth(username: &str, credentials: &[u8], method: &str) -> (r: Message)
        ensures
            r@.message_type == MessageType::Auth,
            r@.payload == auth_payload(username@, credentials@, method@),
    {
        let mut payload = value_object();
        object_insert(&mut payload, "username", value_text(username));
        object_insert(&mut payload, "credentials", byte_values(credentials));
        object_insert(&mut payload, "method", value_text(method));
        Message::new(MessageType::Auth, payload)
    }

    /// A command with its parameters.
    pub fn command(command: &str, params: serde_json::Value) -> (r: Message)
        ensures
            r@.message_type == MessageType::Command,
            r@.payload == command_payload(command@, json_of(params)),
    {
        let mut payload = value_object();
        object_insert(&mut payload, "command", value_text(command));
        object_insert(&mut payload, "params", params);
        Message::new(MessageType::Command, payload)
    }

    /// The response to the request `request_id`.
    pub fn response(request_id: MessageId, success: bool, data: serde_json::Value) -> (r: Message)
        ensures
            r@.message_type == MessageType::Response,
            r@.payload == response_payload(request_id@, success, json_of(data)),
            id_reads_back(request_id@),
            success ==> response_outcome(r@, request_id@) == Ok::<Json, ProtocolErrorView>(
                json_of(data),
            ),
            !success ==> response_outcome(r@, request_id@) is Err,
    {
        let mut payload = value_object();
        let id_text = request_id.to_string();
        object_insert(&mut payload, "request_id", value_text(id_text.as_str()));
        object_insert(&mut payload, "success", value_bool(success));
        object_insert(&mut payload, "data", data);
        let r = Message::new(MessageType::Response, payload);
        proof {
            lemma_response_is_read_back(r@, request_id@, success, json_of(data), request_id@);
        }
        r
    }

    /// An error report, for the request `request_id` if there is one.
    pub fn error(request_id: Option<MessageId>, code: u32, message: &str) -> (r: Message)
        ensures
            r@.message_type == MessageType::Error,
            r@.payload == error_payload(
                match request_id {
                    Some(id) => Some(id@),
                    None => None,
                },
                code,
                message@,
            ),
            request_id matches Some(id) ==> id_reads_back(id@),
    {
        let mut payload = value_object();
        let request = match request_id {
            Some(id) => {
                let id_text = id.to_string();
                value_text(id_text.as_str())
            },
            None => value_null(),
        };
        object_insert(&mut payload, "request_id", request);
        object_insert(&mut payload, "code", value_u64(code as u64));
        object_insert(&mut payload, "message", value_text(message));
        Message::new(MessageType::Error, payload)
    }

    /// A heartbeat.
    pub fn ping() -> (r: Message)
        ensures
            r@.message_type == MessageType::Ping,
            r@.payload == Json::empty_object(),
    {
        Message::new(MessageType::Ping, value_object())
    }

    /// The answer to the heartbeat `ping_id`.
    pub fn pong(ping_id: MessageId) -> (r: Message)
        ensures
            r@.message_type == MessageType::Pong,
            r@.payload == pong_payload(ping_id@),
            id_reads_back(ping_id@),
    {
        let mut payload = value_object();
        let id_text = ping_id.to_string();
        object_insert(&mut payload, "ping_id", value_text(id_text.as_str()));
        Message::new(MessageType::Pong, payload)
    }
}

} // verus!
